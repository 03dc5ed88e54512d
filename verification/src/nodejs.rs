//! The Node.js toolchain: install plan, removal, and the alternate
//! strategy through the external per-user version manager.

use vstd::prelude::*;
use crate::commands::{
    command_views, msi_install_command, push_arg, push_arg_string, push_command, symlink_command,
    tar_extract_command, InstallPlan,
};
use crate::error::ToolchainError;
use crate::platform::OS;
use crate::text::string_views;

verus! {

/// The download location of a Node.js release for each supported platform,
/// from the version number without its tag (as `20.11.1`).
pub open spec fn spec_node_url(v: Seq<char>, os: OS) -> Seq<char> {
    match os {
        OS::Windows => "https://nodejs.org/dist/v"@ + v + "/node-v"@ + v + "-x64.msi"@,
        OS::Linux => "https://nodejs.org/dist/v"@ + v + "/node-v"@ + v + "-linux-x64.tar.gz"@,
        OS::MacOS => "https://nodejs.org/dist/v"@ + v + "/node-v"@ + v + "-darwin-x64.tar.gz"@,
        OS::Unknown => Seq::<char>::empty(),
    }
}

/// The fixed temporary artifact name per platform.
pub open spec fn spec_node_artifact(os: OS) -> Seq<char> {
    if os is Windows {
        "node-installer.msi"@
    } else {
        "node.tar.gz"@
    }
}

/// The directory the archive extracts to on a Unix-like platform.
pub open spec fn spec_node_extracted_dir(v: Seq<char>, os: OS) -> Seq<char> {
    if os is Linux {
        "/usr/local/node-v"@ + v + "-linux-x64"@
    } else {
        "/usr/local/node-v"@ + v + "-darwin-x64"@
    }
}

/// Plans a Node.js install: the artifact to download, the installer
/// command, and on Unix-likes the symlinks of the extracted `node` and
/// `npm` binaries into the fixed bin directory; an unknown platform is
/// refused before anything runs.
pub fn node_install_plan(version: &str, os: OS) -> (r: Result<InstallPlan, ToolchainError>)
    ensures
        os is Unknown <==> r is Err,
        r matches Err(e) ==> e == ToolchainError::UnsupportedPlatform,
        r matches Ok(p) ==> ({
            &&& p.url@ == spec_node_url(version@, os)
            &&& p.artifact@ == spec_node_artifact(os)
            &&& (os is Windows ==> command_views(p.commands@) == seq![
                seq!["msiexec"@, "/i"@, "node-installer.msi"@, "/quiet"@, "/norestart"@],
            ])
            &&& (os is Linux || os is MacOS ==> command_views(p.commands@) == seq![
                seq!["sudo"@, "tar"@, "-C"@, "/usr/local"@, "-xzf"@, "node.tar.gz"@],
                seq![
                    "sudo"@,
                    "ln"@,
                    "-sf"@,
                    spec_node_extracted_dir(version@, os) + "/bin/node"@,
                    "/usr/local/bin/node"@,
                ],
                seq![
                    "sudo"@,
                    "ln"@,
                    "-sf"@,
                    spec_node_extracted_dir(version@, os) + "/bin/npm"@,
                    "/usr/local/bin/npm"@,
                ],
            ])
        }),
{
    if let OS::Unknown = os {
        return Err(ToolchainError::UnsupportedPlatform);
    }
    let mut url = String::from_str("https://nodejs.org/dist/v");
    url.append(version);
    url.append("/node-v");
    url.append(version);
    let artifact: String;
    let mut commands: Vec<Vec<String>> = Vec::new();
    proof {
        assert(command_views(commands@) =~= Seq::<Seq<Seq<char>>>::empty());
    }
    match os {
        OS::Windows => {
            url.append("-x64.msi");
            artifact = String::from_str("node-installer.msi");
            push_command(&mut commands, msi_install_command("node-installer.msi"));
            proof {
                assert(command_views(commands@) =~~= seq![
                    seq!["msiexec"@, "/i"@, "node-installer.msi"@, "/quiet"@, "/norestart"@],
                ]);
            }
        },
        OS::Linux | OS::MacOS => {
            let mut extracted = String::from_str("/usr/local/node-v");
            extracted.append(version);
            if let OS::Linux = os {
                url.append("-linux-x64.tar.gz");
                extracted.append("-linux-x64");
            } else {
                url.append("-darwin-x64.tar.gz");
                extracted.append("-darwin-x64");
            }
            proof {
                assert(extracted@ =~= spec_node_extracted_dir(version@, os));
            }
            artifact = String::from_str("node.tar.gz");
            let mut node_link = extracted.clone();
            node_link.append("/bin/node");
            let mut npm_link = extracted;
            npm_link.append("/bin/npm");
            push_command(&mut commands, tar_extract_command("node.tar.gz"));
            push_command(&mut commands, symlink_command(node_link, "/usr/local/bin/node"));
            push_command(&mut commands, symlink_command(npm_link, "/usr/local/bin/npm"));
            proof {
                assert(command_views(commands@) =~~= seq![
                    seq!["sudo"@, "tar"@, "-C"@, "/usr/local"@, "-xzf"@, "node.tar.gz"@],
                    seq![
                        "sudo"@,
                        "ln"@,
                        "-sf"@,
                        spec_node_extracted_dir(version@, os) + "/bin/node"@,
                        "/usr/local/bin/node"@,
                    ],
                    seq![
                        "sudo"@,
                        "ln"@,
                        "-sf"@,
                        spec_node_extracted_dir(version@, os) + "/bin/npm"@,
                        "/usr/local/bin/npm"@,
                    ],
                ]);
            }
        },
        OS::Unknown => {
            return Err(ToolchainError::UnsupportedPlatform);
        },
    }
    proof {
        assert(url@ =~= spec_node_url(version@, os));
    }
    Ok(InstallPlan { url, artifact, commands })
}

/// The conventional installation paths probed when removing Node.js, in
/// probe order; the Windows list also derives two from the host's
/// program-files directory. An unknown platform is refused.
pub fn node_uninstall_paths(os: OS, program_files: &str) -> (r: Result<
    Vec<String>,
    ToolchainError,
>)
    ensures
        os is Unknown <==> r is Err,
        r matches Err(e) ==> e == ToolchainError::UnsupportedPlatform,
        r matches Ok(p) ==> ({
            &&& os is Windows ==> string_views(p@) == seq![
                "C:\\Program Files\\nodejs"@,
                "C:\\nodejs"@,
                program_files@ + "\\nodejs"@,
                program_files@ + "\\Node"@,
            ]
            &&& os is Linux ==> string_views(p@) == seq![
                "/usr/local/node"@,
                "/usr/local/bin/node"@,
                "/usr/bin/node"@,
                "/opt/node"@,
            ]
            &&& os is MacOS ==> string_views(p@) == seq![
                "/usr/local/node"@,
                "/usr/local/bin/node"@,
                "/opt/node"@,
                "/opt/local/bin/node"@,
            ]
        }),
{
    let mut p: Vec<String> = Vec::new();
    proof {
        assert(string_views(p@) =~= Seq::<Seq<char>>::empty());
    }
    match os {
        OS::Windows => {
            push_arg(&mut p, "C:\\Program Files\\nodejs");
            push_arg(&mut p, "C:\\nodejs");
            let mut d1 = String::new();
            d1.append(program_files);
            d1.append("\\nodejs");
            proof {
                assert(d1@ =~= program_files@ + "\\nodejs"@);
            }
            push_arg_string(&mut p, d1);
            let mut d2 = String::new();
            d2.append(program_files);
            d2.append("\\Node");
            proof {
                assert(d2@ =~= program_files@ + "\\Node"@);
            }
            push_arg_string(&mut p, d2);
            proof {
                assert(string_views(p@) =~~= seq![
                    "C:\\Program Files\\nodejs"@,
                    "C:\\nodejs"@,
                    program_files@ + "\\nodejs"@,
                    program_files@ + "\\Node"@,
                ]);
            }
            Ok(p)
        },
        OS::Linux => {
            push_arg(&mut p, "/usr/local/node");
            push_arg(&mut p, "/usr/local/bin/node");
            push_arg(&mut p, "/usr/bin/node");
            push_arg(&mut p, "/opt/node");
            proof {
                assert(string_views(p@) =~~= seq![
                    "/usr/local/node"@,
                    "/usr/local/bin/node"@,
                    "/usr/bin/node"@,
                    "/opt/node"@,
                ]);
            }
            Ok(p)
        },
        OS::MacOS => {
            push_arg(&mut p, "/usr/local/node");
            push_arg(&mut p, "/usr/local/bin/node");
            push_arg(&mut p, "/opt/node");
            push_arg(&mut p, "/opt/local/bin/node");
            proof {
                assert(string_views(p@) =~~= seq![
                    "/usr/local/node"@,
                    "/usr/local/bin/node"@,
                    "/opt/node"@,
                    "/opt/local/bin/node"@,
                ]);
            }
            Ok(p)
        },
        OS::Unknown => Err(ToolchainError::UnsupportedPlatform),
    }
}

/// The product-uninstall query tried first when removing Node.js on
/// Windows hosts.
pub fn node_msi_uninstall_command() -> (c: Vec<String>)
    ensures
        string_views(c@) == seq![
            "wmic"@,
            "product"@,
            "where"@,
            "name='Node.js'"@,
            "call"@,
            "uninstall"@,
        ],
{
    let mut c: Vec<String> = Vec::new();
    proof {
        assert(string_views(c@) =~= Seq::<Seq<char>>::empty());
    }
    push_arg(&mut c, "wmic");
    push_arg(&mut c, "product");
    push_arg(&mut c, "where");
    push_arg(&mut c, "name='Node.js'");
    push_arg(&mut c, "call");
    push_arg(&mut c, "uninstall");
    proof {
        assert(string_views(c@) =~~= seq![
            "wmic"@,
            "product"@,
            "where"@,
            "name='Node.js'"@,
            "call"@,
            "uninstall"@,
        ]);
    }
    c
}

/// The companion package directories cleaned up after removing Node.js,
/// derived from the user's home directory.
pub fn npm_cleanup_paths(home: &str) -> (p: Vec<String>)
    ensures
        string_views(p@) == seq![
            home@ + "\\AppData\\Roaming\\npm"@,
            home@ + "\\AppData\\Roaming\\npm-cache"@,
        ],
{
    let mut p: Vec<String> = Vec::new();
    proof {
        assert(string_views(p@) =~= Seq::<Seq<char>>::empty());
    }
    let mut d1 = String::new();
    d1.append(home);
    d1.append("\\AppData\\Roaming\\npm");
    proof {
        assert(d1@ =~= home@ + "\\AppData\\Roaming\\npm"@);
    }
    push_arg_string(&mut p, d1);
    let mut d2 = String::new();
    d2.append(home);
    d2.append("\\AppData\\Roaming\\npm-cache");
    proof {
        assert(d2@ =~= home@ + "\\AppData\\Roaming\\npm-cache"@);
    }
    push_arg_string(&mut p, d2);
    proof {
        assert(string_views(p@) =~~= seq![
            home@ + "\\AppData\\Roaming\\npm"@,
            home@ + "\\AppData\\Roaming\\npm-cache"@,
        ]);
    }
    p
}

/// The files and directories whose presence marks an installed version
/// manager, derived from the user's home directory.
pub fn nvm_probe_paths(home: &str) -> (p: Vec<String>)
    ensures
        string_views(p@) == seq![home@ + "/.nvm/nvm.sh"@, home@ + "\\AppData\\Roaming\\nvm"@],
{
    let mut p: Vec<String> = Vec::new();
    proof {
        assert(string_views(p@) =~= Seq::<Seq<char>>::empty());
    }
    let mut d1 = String::new();
    d1.append(home);
    d1.append("/.nvm/nvm.sh");
    proof {
        assert(d1@ =~= home@ + "/.nvm/nvm.sh"@);
    }
    push_arg_string(&mut p, d1);
    let mut d2 = String::new();
    d2.append(home);
    d2.append("\\AppData\\Roaming\\nvm");
    proof {
        assert(d2@ =~= home@ + "\\AppData\\Roaming\\nvm"@);
    }
    push_arg_string(&mut p, d2);
    proof {
        assert(string_views(p@) =~~= seq![
            home@ + "/.nvm/nvm.sh"@,
            home@ + "\\AppData\\Roaming\\nvm"@,
        ]);
    }
    p
}

/// Installs the given version through the version manager.
pub fn nvm_install_command(version: &str) -> (c: Vec<String>)
    ensures
        string_views(c@) == seq!["nvm"@, "install"@, version@],
{
    let mut c: Vec<String> = Vec::new();
    proof {
        assert(string_views(c@) =~= Seq::<Seq<char>>::empty());
    }
    push_arg(&mut c, "nvm");
    push_arg(&mut c, "install");
    push_arg(&mut c, version);
    proof {
        assert(string_views(c@) =~~= seq!["nvm"@, "install"@, version@]);
    }
    c
}

/// Switches the active version through the version manager.
pub fn nvm_use_command(version: &str) -> (c: Vec<String>)
    ensures
        string_views(c@) == seq!["nvm"@, "use"@, version@],
{
    let mut c: Vec<String> = Vec::new();
    proof {
        assert(string_views(c@) =~= Seq::<Seq<char>>::empty());
    }
    push_arg(&mut c, "nvm");
    push_arg(&mut c, "use");
    push_arg(&mut c, version);
    proof {
        assert(string_views(c@) =~~= seq!["nvm"@, "use"@, version@]);
    }
    c
}

/// How a Node.js install or update is carried out.
#[derive(Debug, Clone, Copy, PartialEq, Eq, Structural)]
pub enum NodeStrategy {
    /// The version manager is present: hand the work to it.
    UseVersionManager,
    /// The version manager was requested but is absent: fail at once with
    /// a clear message rather than silently falling back.
    VersionManagerMissing,
    /// Download and install directly.
    Direct,
}

/// Decides how to install or update Node.js: a present version manager is
/// preferred, one requested but absent is a refusal, and otherwise the
/// direct download path is taken.
pub fn node_strategy(requested: bool, available: bool) -> (r: NodeStrategy)
    ensures
        available ==> r is UseVersionManager,
        requested && !available ==> r is VersionManagerMissing,
        !requested && !available ==> r is Direct,
{
    if available {
        NodeStrategy::UseVersionManager
    } else if requested {
        NodeStrategy::VersionManagerMissing
    } else {
        NodeStrategy::Direct
    }
}

} // verus!
