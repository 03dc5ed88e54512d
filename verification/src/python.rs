//! The Python toolchain: package-manager-driven update and install
//! commands, and the companion pip maintenance commands.

use vstd::prelude::*;
use crate::commands::{command_views, push_arg, push_command};
use crate::error::ToolchainError;
use crate::platform::OS;
use crate::text::string_views;

verus! {

/// The commands tried, in order, to update Python; the first that succeeds
/// ends the attempt. On Windows hosts the package manager of a Python
/// distribution is tried before the system one. An unknown platform is
/// refused.
pub fn python_update_commands(os: OS) -> (r: Result<Vec<Vec<String>>, ToolchainError>)
    ensures
        os is Unknown <==> r is Err,
        r matches Err(e) ==> e == ToolchainError::UnsupportedPlatform,
        r matches Ok(cs) ==> ({
            &&& os is Windows ==> command_views(cs@) == seq![
                seq!["conda"@, "update"@, "python"@, "-y"@],
                seq!["winget"@, "install"@, "--id"@, "Python.Python.3"@, "--source"@, "winget"@],
            ]
            &&& os is Linux ==> command_views(cs@) == seq![
                seq!["sudo"@, "apt"@, "update"@, "python3"@],
            ]
            &&& os is MacOS ==> command_views(cs@) == seq![seq!["brew"@, "upgrade"@, "python"@]]
        }),
{
    let mut cs: Vec<Vec<String>> = Vec::new();
    proof {
        assert(command_views(cs@) =~= Seq::<Seq<Seq<char>>>::empty());
    }
    match os {
        OS::Windows => {
            let mut c1: Vec<String> = Vec::new();
            proof {
                assert(string_views(c1@) =~= Seq::<Seq<char>>::empty());
            }
            push_arg(&mut c1, "conda");
            push_arg(&mut c1, "update");
            push_arg(&mut c1, "python");
            push_arg(&mut c1, "-y");
            push_command(&mut cs, c1);
            let c2 = winget_python_command();
            push_command(&mut cs, c2);
            proof {
                assert(command_views(cs@) =~~= seq![
                    seq!["conda"@, "update"@, "python"@, "-y"@],
                    seq![
                        "winget"@,
                        "install"@,
                        "--id"@,
                        "Python.Python.3"@,
                        "--source"@,
                        "winget"@,
                    ],
                ]);
            }
            Ok(cs)
        },
        OS::Linux => {
            let mut c1: Vec<String> = Vec::new();
            proof {
                assert(string_views(c1@) =~= Seq::<Seq<char>>::empty());
            }
            push_arg(&mut c1, "sudo");
            push_arg(&mut c1, "apt");
            push_arg(&mut c1, "update");
            push_arg(&mut c1, "python3");
            push_command(&mut cs, c1);
            proof {
                assert(command_views(cs@) =~~= seq![seq!["sudo"@, "apt"@, "update"@, "python3"@]]);
            }
            Ok(cs)
        },
        OS::MacOS => {
            let mut c1: Vec<String> = Vec::new();
            proof {
                assert(string_views(c1@) =~= Seq::<Seq<char>>::empty());
            }
            push_arg(&mut c1, "brew");
            push_arg(&mut c1, "upgrade");
            push_arg(&mut c1, "python");
            push_command(&mut cs, c1);
            proof {
                assert(command_views(cs@) =~~= seq![seq!["brew"@, "upgrade"@, "python"@]]);
            }
            Ok(cs)
        },
        OS::Unknown => Err(ToolchainError::UnsupportedPlatform),
    }
}

/// The commands tried, in order, to install Python; the first that
/// succeeds ends the attempt. An unknown platform is refused.
pub fn python_install_commands(os: OS) -> (r: Result<Vec<Vec<String>>, ToolchainError>)
    ensures
        os is Unknown <==> r is Err,
        r matches Err(e) ==> e == ToolchainError::UnsupportedPlatform,
        r matches Ok(cs) ==> ({
            &&& os is Windows ==> command_views(cs@) == seq![
                seq!["conda"@, "install"@, "python"@, "-y"@],
                seq!["winget"@, "install"@, "--id"@, "Python.Python.3"@, "--source"@, "winget"@],
            ]
            &&& os is Linux ==> command_views(cs@) == seq![
                seq!["sudo"@, "apt"@, "install"@, "python3"@, "-y"@],
            ]
            &&& os is MacOS ==> command_views(cs@) == seq![seq!["brew"@, "install"@, "python"@]]
        }),
{
    let mut cs: Vec<Vec<String>> = Vec::new();
    proof {
        assert(command_views(cs@) =~= Seq::<Seq<Seq<char>>>::empty());
    }
    match os {
        OS::Windows => {
            let mut c1: Vec<String> = Vec::new();
            proof {
                assert(string_views(c1@) =~= Seq::<Seq<char>>::empty());
            }
            push_arg(&mut c1, "conda");
            push_arg(&mut c1, "install");
            push_arg(&mut c1, "python");
            push_arg(&mut c1, "-y");
            push_command(&mut cs, c1);
            let c2 = winget_python_command();
            push_command(&mut cs, c2);
            proof {
                assert(command_views(cs@) =~~= seq![
                    seq!["conda"@, "install"@, "python"@, "-y"@],
                    seq![
                        "winget"@,
                        "install"@,
                        "--id"@,
                        "Python.Python.3"@,
                        "--source"@,
                        "winget"@,
                    ],
                ]);
            }
            Ok(cs)
        },
        OS::Linux => {
            let mut c1: Vec<String> = Vec::new();
            proof {
                assert(string_views(c1@) =~= Seq::<Seq<char>>::empty());
            }
            push_arg(&mut c1, "sudo");
            push_arg(&mut c1, "apt");
            push_arg(&mut c1, "install");
            push_arg(&mut c1, "python3");
            push_arg(&mut c1, "-y");
            push_command(&mut cs, c1);
            proof {
                assert(command_views(cs@) =~~= seq![
                    seq!["sudo"@, "apt"@, "install"@, "python3"@, "-y"@],
                ]);
            }
            Ok(cs)
        },
        OS::MacOS => {
            let mut c1: Vec<String> = Vec::new();
            proof {
                assert(string_views(c1@) =~= Seq::<Seq<char>>::empty());
            }
            push_arg(&mut c1, "brew");
            push_arg(&mut c1, "install");
            push_arg(&mut c1, "python");
            push_command(&mut cs, c1);
            proof {
                assert(command_views(cs@) =~~= seq![seq!["brew"@, "install"@, "python"@]]);
            }
            Ok(cs)
        },
        OS::Unknown => Err(ToolchainError::UnsupportedPlatform),
    }
}

/// The system package-manager install of Python on Windows hosts.
fn winget_python_command() -> (c: Vec<String>)
    ensures
        string_views(c@) == seq![
            "winget"@,
            "install"@,
            "--id"@,
            "Python.Python.3"@,
            "--source"@,
            "winget"@,
        ],
{
    let mut c: Vec<String> = Vec::new();
    proof {
        assert(string_views(c@) =~= Seq::<Seq<char>>::empty());
    }
    push_arg(&mut c, "winget");
    push_arg(&mut c, "install");
    push_arg(&mut c, "--id");
    push_arg(&mut c, "Python.Python.3");
    push_arg(&mut c, "--source");
    push_arg(&mut c, "winget");
    proof {
        assert(string_views(c@) =~~= seq![
            "winget"@,
            "install"@,
            "--id"@,
            "Python.Python.3"@,
            "--source"@,
            "winget"@,
        ]);
    }
    c
}

/// The command that upgrades pip: through the Python distribution's
/// package manager where one is available, else through Python itself.
pub fn pip_update_command(conda_available: bool) -> (c: Vec<String>)
    ensures
        conda_available ==> string_views(c@) == seq![
            "conda"@,
            "run"@,
            "-n"@,
            "base"@,
            "python"@,
            "-m"@,
            "pip"@,
            "install"@,
            "--upgrade"@,
            "pip"@,
        ],
        !conda_available ==> string_views(c@) == seq![
            "python"@,
            "-m"@,
            "pip"@,
            "install"@,
            "--upgrade"@,
            "pip"@,
        ],
{
    let mut c: Vec<String> = Vec::new();
    proof {
        assert(string_views(c@) =~= Seq::<Seq<char>>::empty());
    }
    if conda_available {
        push_arg(&mut c, "conda");
        push_arg(&mut c, "run");
        push_arg(&mut c, "-n");
        push_arg(&mut c, "base");
    }
    push_arg(&mut c, "python");
    push_arg(&mut c, "-m");
    push_arg(&mut c, "pip");
    push_arg(&mut c, "install");
    push_arg(&mut c, "--upgrade");
    push_arg(&mut c, "pip");
    proof {
        if conda_available {
            assert(string_views(c@) =~~= seq![
                "conda"@,
                "run"@,
                "-n"@,
                "base"@,
                "python"@,
                "-m"@,
                "pip"@,
                "install"@,
                "--upgrade"@,
                "pip"@,
            ]);
        } else {
            assert(string_views(c@) =~~= seq![
                "python"@,
                "-m"@,
                "pip"@,
                "install"@,
                "--upgrade"@,
                "pip"@,
            ]);
        }
    }
    c
}

/// The command that bootstraps pip: through the Python distribution's
/// package manager where one is available, else through Python itself.
pub fn pip_install_command(conda_available: bool) -> (c: Vec<String>)
    ensures
        conda_available ==> string_views(c@) == seq![
            "conda"@,
            "run"@,
            "-n"@,
            "base"@,
            "python"@,
            "-m"@,
            "ensurepip"@,
            "--upgrade"@,
        ],
        !conda_available ==> string_views(c@) == seq![
            "python"@,
            "-m"@,
            "ensurepip"@,
            "--upgrade"@,
        ],
{
    let mut c: Vec<String> = Vec::new();
    proof {
        assert(string_views(c@) =~= Seq::<Seq<char>>::empty());
    }
    if conda_available {
        push_arg(&mut c, "conda");
        push_arg(&mut c, "run");
        push_arg(&mut c, "-n");
        push_arg(&mut c, "base");
    }
    push_arg(&mut c, "python");
    push_arg(&mut c, "-m");
    push_arg(&mut c, "ensurepip");
    push_arg(&mut c, "--upgrade");
    proof {
        if conda_available {
            assert(string_views(c@) =~~= seq![
                "conda"@,
                "run"@,
                "-n"@,
                "base"@,
                "python"@,
                "-m"@,
                "ensurepip"@,
                "--upgrade"@,
            ]);
        } else {
            assert(string_views(c@) =~~= seq!["python"@, "-m"@, "ensurepip"@, "--upgrade"@]);
        }
    }
    c
}

/// The utility that resolves a program name to a path on this platform's
/// shell: `where` on Windows hosts, `which` elsewhere.
pub fn path_query_program(os: OS) -> (r: &'static str)
    ensures
        os is Windows ==> r@ == "where"@,
        !(os is Windows) ==> r@ == "which"@,
{
    match os {
        OS::Windows => "where",
        _ => "which",
    }
}

} // verus!
