//! The Go toolchain: install plan and uninstall candidates.

use vstd::prelude::*;
use crate::commands::{
    command_views, msi_install_command, push_command, tar_extract_command, InstallPlan,
};
use crate::error::ToolchainError;
use crate::platform::OS;
use crate::text::string_views;

verus! {

/// The download location of a Go release artifact for each supported
/// platform; the release's own version tag (as `go1.21.0`) names the file.
pub open spec fn spec_go_url(version: Seq<char>, os: OS) -> Seq<char> {
    match os {
        OS::Windows => "https://go.dev/dl/"@ + version + ".windows-amd64.msi"@,
        OS::Linux => "https://go.dev/dl/"@ + version + ".linux-amd64.tar.gz"@,
        OS::MacOS => "https://go.dev/dl/"@ + version + ".darwin-amd64.tar.gz"@,
        OS::Unknown => Seq::<char>::empty(),
    }
}

/// The fixed temporary artifact name per platform.
pub open spec fn spec_go_artifact(os: OS) -> Seq<char> {
    if os is Windows {
        "go-installer.msi"@
    } else {
        "go.tar.gz"@
    }
}

/// Plans a Go install: the artifact to download and the installer command
/// to run, refusing an unknown platform before anything is attempted.
pub fn go_install_plan(version: &str, os: OS) -> (r: Result<InstallPlan, ToolchainError>)
    ensures
        os is Unknown <==> r is Err,
        r matches Err(e) ==> e == ToolchainError::UnsupportedPlatform,
        r matches Ok(p) ==> ({
            &&& p.url@ == spec_go_url(version@, os)
            &&& p.artifact@ == spec_go_artifact(os)
            &&& (os is Windows ==> command_views(p.commands@) == seq![
                seq!["msiexec"@, "/i"@, "go-installer.msi"@, "/quiet"@, "/norestart"@],
            ])
            &&& (os is Linux || os is MacOS ==> command_views(p.commands@) == seq![
                seq!["sudo"@, "tar"@, "-C"@, "/usr/local"@, "-xzf"@, "go.tar.gz"@],
            ])
        }),
{
    if let OS::Unknown = os {
        return Err(ToolchainError::UnsupportedPlatform);
    }
    let mut url = String::from_str("https://go.dev/dl/");
    url.append(version);
    let artifact: String;
    let mut commands: Vec<Vec<String>> = Vec::new();
    proof {
        assert(command_views(commands@) =~= Seq::<Seq<Seq<char>>>::empty());
    }
    match os {
        OS::Windows => {
            url.append(".windows-amd64.msi");
            artifact = String::from_str("go-installer.msi");
            push_command(&mut commands, msi_install_command("go-installer.msi"));
            proof {
                assert(command_views(commands@) =~~= seq![
                    seq!["msiexec"@, "/i"@, "go-installer.msi"@, "/quiet"@, "/norestart"@],
                ]);
            }
        },
        OS::Linux => {
            url.append(".linux-amd64.tar.gz");
            artifact = String::from_str("go.tar.gz");
            push_command(&mut commands, tar_extract_command("go.tar.gz"));
            proof {
                assert(command_views(commands@) =~~= seq![
                    seq!["sudo"@, "tar"@, "-C"@, "/usr/local"@, "-xzf"@, "go.tar.gz"@],
                ]);
            }
        },
        OS::MacOS => {
            url.append(".darwin-amd64.tar.gz");
            artifact = String::from_str("go.tar.gz");
            push_command(&mut commands, tar_extract_command("go.tar.gz"));
            proof {
                assert(command_views(commands@) =~~= seq![
                    seq!["sudo"@, "tar"@, "-C"@, "/usr/local"@, "-xzf"@, "go.tar.gz"@],
                ]);
            }
        },
        OS::Unknown => {
            return Err(ToolchainError::UnsupportedPlatform);
        },
    }
    proof {
        assert(url@ =~= spec_go_url(version@, os));
    }
    Ok(InstallPlan { url, artifact, commands })
}

/// The conventional installation directories probed when removing Go, in
/// probe order; an unknown platform is refused.
pub fn go_uninstall_paths(os: OS) -> (r: Result<Vec<String>, ToolchainError>)
    ensures
        os is Unknown <==> r is Err,
        r matches Err(e) ==> e == ToolchainError::UnsupportedPlatform,
        r matches Ok(p) ==> ({
            &&& os is Windows ==> string_views(p@) == seq!["C:\\Program Files\\Go"@, "C:\\Go"@]
            &&& os is Linux ==> string_views(p@) == seq!["/usr/local/go"@, "$HOME/go"@]
            &&& os is MacOS ==> string_views(p@) == seq![
                "/usr/local/go"@,
                "/opt/go"@,
                "$HOME/go"@,
            ]
        }),
{
    let mut p: Vec<String> = Vec::new();
    proof {
        assert(string_views(p@) =~= Seq::<Seq<char>>::empty());
    }
    match os {
        OS::Windows => {
            crate::commands::push_arg(&mut p, "C:\\Program Files\\Go");
            crate::commands::push_arg(&mut p, "C:\\Go");
            proof {
                assert(string_views(p@) =~~= seq!["C:\\Program Files\\Go"@, "C:\\Go"@]);
            }
            Ok(p)
        },
        OS::Linux => {
            crate::commands::push_arg(&mut p, "/usr/local/go");
            crate::commands::push_arg(&mut p, "$HOME/go");
            proof {
                assert(string_views(p@) =~~= seq!["/usr/local/go"@, "$HOME/go"@]);
            }
            Ok(p)
        },
        OS::MacOS => {
            crate::commands::push_arg(&mut p, "/usr/local/go");
            crate::commands::push_arg(&mut p, "/opt/go");
            crate::commands::push_arg(&mut p, "$HOME/go");
            proof {
                assert(string_views(p@) =~~= seq!["/usr/local/go"@, "/opt/go"@, "$HOME/go"@]);
            }
            Ok(p)
        },
        OS::Unknown => Err(ToolchainError::UnsupportedPlatform),
    }
}

} // verus!
