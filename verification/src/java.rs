//! The Java toolchain: version query, install plan, and removal.

use vstd::prelude::*;
use crate::commands::{
    command_views, msi_install_command, push_arg, push_command, symlink_command,
    tar_extract_command, InstallPlan,
};
use crate::error::ToolchainError;
use crate::platform::OS;
use crate::text::string_views;

verus! {

/// The download location of a Temurin JDK release for each supported
/// platform, from the LTS major version number (as `21`).
pub open spec fn spec_java_url(v: Seq<char>, os: OS) -> Seq<char> {
    match os {
        OS::Windows => "https://github.com/adoptium/temurin"@ + v
            + "-binaries/releases/download/jdk-"@ + v + "%2B37/OpenJDK"@ + v
            + "U-jdk_x64_windows_hotspot_"@ + v + "u37.msi"@,
        OS::Linux => "https://github.com/adoptium/temurin"@ + v
            + "-binaries/releases/download/jdk-"@ + v + "%2B37/OpenJDK"@ + v
            + "U-jdk_x64_linux_hotspot_"@ + v + "u37.tar.gz"@,
        OS::MacOS => "https://github.com/adoptium/temurin"@ + v
            + "-binaries/releases/download/jdk-"@ + v + "%2B37/OpenJDK"@ + v
            + "U-jdk_x64_mac_hotspot_"@ + v + "u37.tar.gz"@,
        OS::Unknown => Seq::<char>::empty(),
    }
}

/// The fixed temporary artifact name per platform.
pub open spec fn spec_java_artifact(os: OS) -> Seq<char> {
    if os is Windows {
        "java-installer.msi"@
    } else {
        "java.tar.gz"@
    }
}

/// The command that asks the installed Java runtime for its version; on
/// Windows hosts the query goes through the command shell. The version
/// text appears on the error stream, not the standard output stream.
pub fn java_version_command(os: OS) -> (r: Result<Vec<String>, ToolchainError>)
    ensures
        os is Unknown <==> r is Err,
        r matches Err(e) ==> e == ToolchainError::ExecutionFailed,
        r matches Ok(c) ==> ({
            &&& os is Windows ==> string_views(c@) == seq!["cmd"@, "/C"@, "java"@, "-version"@]
            &&& (os is Linux || os is MacOS) ==> string_views(c@) == seq!["java"@, "-version"@]
        }),
{
    let mut c: Vec<String> = Vec::new();
    proof {
        assert(string_views(c@) =~= Seq::<Seq<char>>::empty());
    }
    match os {
        OS::Windows => {
            push_arg(&mut c, "cmd");
            push_arg(&mut c, "/C");
            push_arg(&mut c, "java");
            push_arg(&mut c, "-version");
            proof {
                assert(string_views(c@) =~~= seq!["cmd"@, "/C"@, "java"@, "-version"@]);
            }
            Ok(c)
        },
        OS::Linux | OS::MacOS => {
            push_arg(&mut c, "java");
            push_arg(&mut c, "-version");
            proof {
                assert(string_views(c@) =~~= seq!["java"@, "-version"@]);
            }
            Ok(c)
        },
        OS::Unknown => Err(ToolchainError::ExecutionFailed),
    }
}

/// Plans a Java install: the artifact to download, the installer command,
/// and on Unix-likes the symlink of the extracted binary into the fixed
/// bin directory; an unknown platform is refused before anything runs.
pub fn java_install_plan(version: &str, os: OS) -> (r: Result<InstallPlan, ToolchainError>)
    ensures
        os is Unknown <==> r is Err,
        r matches Err(e) ==> e == ToolchainError::UnsupportedPlatform,
        r matches Ok(p) ==> ({
            &&& p.url@ == spec_java_url(version@, os)
            &&& p.artifact@ == spec_java_artifact(os)
            &&& (os is Windows ==> command_views(p.commands@) == seq![
                seq!["msiexec"@, "/i"@, "java-installer.msi"@, "/quiet"@, "/norestart"@],
            ])
            &&& (os is Linux || os is MacOS ==> command_views(p.commands@) == seq![
                seq!["sudo"@, "tar"@, "-C"@, "/usr/local"@, "-xzf"@, "java.tar.gz"@],
                seq![
                    "sudo"@,
                    "ln"@,
                    "-sf"@,
                    "/usr/local/jdk-"@ + version@ + "+37/bin/java"@,
                    "/usr/local/bin/java"@,
                ],
            ])
        }),
{
    if let OS::Unknown = os {
        return Err(ToolchainError::UnsupportedPlatform);
    }
    let mut url = String::from_str("https://github.com/adoptium/temurin");
    url.append(version);
    url.append("-binaries/releases/download/jdk-");
    url.append(version);
    url.append("%2B37/OpenJDK");
    url.append(version);
    match os {
        OS::Windows => {
            url.append("U-jdk_x64_windows_hotspot_");
        },
        OS::Linux => {
            url.append("U-jdk_x64_linux_hotspot_");
        },
        OS::MacOS => {
            url.append("U-jdk_x64_mac_hotspot_");
        },
        OS::Unknown => {
            return Err(ToolchainError::UnsupportedPlatform);
        },
    }
    url.append(version);
    let artifact: String;
    let mut commands: Vec<Vec<String>> = Vec::new();
    proof {
        assert(command_views(commands@) =~= Seq::<Seq<Seq<char>>>::empty());
    }
    match os {
        OS::Windows => {
            url.append("u37.msi");
            artifact = String::from_str("java-installer.msi");
            push_command(&mut commands, msi_install_command("java-installer.msi"));
            proof {
                assert(command_views(commands@) =~~= seq![
                    seq!["msiexec"@, "/i"@, "java-installer.msi"@, "/quiet"@, "/norestart"@],
                ]);
            }
        },
        OS::Linux | OS::MacOS => {
            url.append("u37.tar.gz");
            artifact = String::from_str("java.tar.gz");
            let mut link_source = String::from_str("/usr/local/jdk-");
            link_source.append(version);
            link_source.append("+37/bin/java");
            proof {
                assert(link_source@ =~= "/usr/local/jdk-"@ + version@ + "+37/bin/java"@);
            }
            push_command(&mut commands, tar_extract_command("java.tar.gz"));
            push_command(&mut commands, symlink_command(link_source, "/usr/local/bin/java"));
            proof {
                assert(command_views(commands@) =~~= seq![
                    seq!["sudo"@, "tar"@, "-C"@, "/usr/local"@, "-xzf"@, "java.tar.gz"@],
                    seq![
                        "sudo"@,
                        "ln"@,
                        "-sf"@,
                        "/usr/local/jdk-"@ + version@ + "+37/bin/java"@,
                        "/usr/local/bin/java"@,
                    ],
                ]);
            }
        },
        OS::Unknown => {
            return Err(ToolchainError::UnsupportedPlatform);
        },
    }
    proof {
        assert(url@ =~= spec_java_url(version@, os));
    }
    Ok(InstallPlan { url, artifact, commands })
}

/// The product-uninstall query tried first when removing Java on Windows
/// hosts.
pub fn java_wmic_uninstall_command() -> (c: Vec<String>)
    ensures
        string_views(c@) == seq![
            "wmic"@,
            "product"@,
            "where"@,
            "name like 'Java%'"@,
            "call"@,
            "uninstall"@,
        ],
{
    let mut c: Vec<String> = Vec::new();
    proof {
        assert(string_views(c@) =~= Seq::<Seq<char>>::empty());
    }
    push_arg(&mut c, "wmic");
    push_arg(&mut c, "product");
    push_arg(&mut c, "where");
    push_arg(&mut c, "name like 'Java%'");
    push_arg(&mut c, "call");
    push_arg(&mut c, "uninstall");
    proof {
        assert(string_views(c@) =~~= seq![
            "wmic"@,
            "product"@,
            "where"@,
            "name like 'Java%'"@,
            "call"@,
            "uninstall"@,
        ]);
    }
    c
}

/// The directories cleaned up when removing Java, in probe order; the
/// Windows list also derives one from the host's program-files directory.
pub fn java_cleanup_paths(os: OS, program_files: &str) -> (r: Result<Vec<String>, ToolchainError>)
    ensures
        os is Unknown <==> r is Err,
        r matches Err(e) ==> e == ToolchainError::UnsupportedPlatform,
        r matches Ok(p) ==> ({
            &&& os is Windows ==> string_views(p@) == seq![
                "C:\\Program Files\\Java"@,
                program_files@ + "\\Java"@,
            ]
            &&& (os is Linux || os is MacOS) ==> string_views(p@) == seq![
                "/usr/local/jdk-*"@,
                "/usr/local/bin/java"@,
            ]
        }),
{
    let mut p: Vec<String> = Vec::new();
    proof {
        assert(string_views(p@) =~= Seq::<Seq<char>>::empty());
    }
    match os {
        OS::Windows => {
            push_arg(&mut p, "C:\\Program Files\\Java");
            let mut derived = String::new();
            derived.append(program_files);
            derived.append("\\Java");
            proof {
                assert(derived@ =~= program_files@ + "\\Java"@);
            }
            crate::commands::push_arg_string(&mut p, derived);
            proof {
                assert(string_views(p@) =~~= seq![
                    "C:\\Program Files\\Java"@,
                    program_files@ + "\\Java"@,
                ]);
            }
            Ok(p)
        },
        OS::Linux | OS::MacOS => {
            push_arg(&mut p, "/usr/local/jdk-*");
            push_arg(&mut p, "/usr/local/bin/java");
            proof {
                assert(string_views(p@) =~~= seq!["/usr/local/jdk-*"@, "/usr/local/bin/java"@]);
            }
            Ok(p)
        },
        OS::Unknown => Err(ToolchainError::UnsupportedPlatform),
    }
}

} // verus!
