//! The Rust toolchain, managed through its own updater rather than by
//! direct download: the commands that query, update, and bootstrap it.

use vstd::prelude::*;
use crate::commands::push_arg;
use crate::platform::OS;
use crate::text::string_views;

verus! {

/// Asks the updater which toolchain is active; the report's first token
/// names the version.
pub fn rustup_query_command() -> (c: Vec<String>)
    ensures
        string_views(c@) == seq!["rustup"@, "show"@, "active-toolchain"@],
{
    let mut c: Vec<String> = Vec::new();
    proof {
        assert(string_views(c@) =~= Seq::<Seq<char>>::empty());
    }
    push_arg(&mut c, "rustup");
    push_arg(&mut c, "show");
    push_arg(&mut c, "active-toolchain");
    proof {
        assert(string_views(c@) =~~= seq!["rustup"@, "show"@, "active-toolchain"@]);
    }
    c
}

/// Updates the stable toolchain through the updater.
pub fn rustup_update_command() -> (c: Vec<String>)
    ensures
        string_views(c@) == seq!["rustup"@, "update"@, "stable"@],
{
    let mut c: Vec<String> = Vec::new();
    proof {
        assert(string_views(c@) =~= Seq::<Seq<char>>::empty());
    }
    push_arg(&mut c, "rustup");
    push_arg(&mut c, "update");
    push_arg(&mut c, "stable");
    proof {
        assert(string_views(c@) =~~= seq!["rustup"@, "update"@, "stable"@]);
    }
    c
}

/// Bootstraps the updater itself: through the system package manager on
/// Windows hosts, through the vendor's shell installer everywhere else.
pub fn rust_install_command(os: OS) -> (c: Vec<String>)
    ensures
        os is Windows ==> string_views(c@) == seq![
            "winget"@,
            "install"@,
            "--id"@,
            "Rustlang.Rustup"@,
        ],
        !(os is Windows) ==> string_views(c@) == seq![
            "sh"@,
            "-c"@,
            "curl --proto '=https' --tlsv1.2 -sSf https://sh.rustup.rs | sh -s -- -y"@,
        ],
{
    let mut c: Vec<String> = Vec::new();
    proof {
        assert(string_views(c@) =~= Seq::<Seq<char>>::empty());
    }
    match os {
        OS::Windows => {
            push_arg(&mut c, "winget");
            push_arg(&mut c, "install");
            push_arg(&mut c, "--id");
            push_arg(&mut c, "Rustlang.Rustup");
            proof {
                assert(string_views(c@) =~~= seq![
                    "winget"@,
                    "install"@,
                    "--id"@,
                    "Rustlang.Rustup"@,
                ]);
            }
        },
        _ => {
            push_arg(&mut c, "sh");
            push_arg(&mut c, "-c");
            push_arg(&mut c, "curl --proto '=https' --tlsv1.2 -sSf https://sh.rustup.rs | sh -s -- -y");
            proof {
                assert(string_views(c@) =~~= seq![
                    "sh"@,
                    "-c"@,
                    "curl --proto '=https' --tlsv1.2 -sSf https://sh.rustup.rs | sh -s -- -y"@,
                ]);
            }
        },
    }
    c
}

} // verus!
