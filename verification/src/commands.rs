//! Building subprocess command lines as plain argument vectors.
//!
//! The library never runs a process; it constructs each command as the
//! exact list of program name and arguments for the caller to execute.

use vstd::prelude::*;
use crate::text::string_views;

verus! {

/// The argument views of a list of commands, in order.
pub open spec fn command_views(cs: Seq<Vec<String>>) -> Seq<Seq<Seq<char>>>
    decreases cs.len(),
{
    if cs.len() == 0 {
        Seq::<Seq<Seq<char>>>::empty()
    } else {
        command_views(cs.drop_last()).push(string_views(cs.last()@))
    }
}

/// Appends one argument to a command line.
pub fn push_arg(cmd: &mut Vec<String>, a: &str)
    ensures
        string_views(final(cmd)@) == string_views(old(cmd)@).push(a@),
{
    cmd.push(a.to_owned());
    proof {
        assert(cmd@.drop_last() =~= old(cmd)@);
    }
}

/// Appends one already-built argument to a command line.
pub fn push_arg_string(cmd: &mut Vec<String>, a: String)
    ensures
        string_views(final(cmd)@) == string_views(old(cmd)@).push(a@),
{
    cmd.push(a);
    proof {
        assert(cmd@.drop_last() =~= old(cmd)@);
    }
}

/// Appends one command to a command list.
pub fn push_command(cs: &mut Vec<Vec<String>>, cmd: Vec<String>)
    ensures
        command_views(final(cs)@) == command_views(old(cs)@).push(string_views(cmd@)),
{
    cs.push(cmd);
    proof {
        assert(cs@.drop_last() =~= old(cs)@);
    }
}

/// The silent installer invocation for a downloaded `.msi` artifact.
pub fn msi_install_command(file_name: &str) -> (c: Vec<String>)
    ensures
        string_views(c@) == seq!["msiexec"@, "/i"@, file_name@, "/quiet"@, "/norestart"@],
{
    let mut c: Vec<String> = Vec::new();
    proof {
        assert(string_views(c@) =~= Seq::<Seq<char>>::empty());
    }
    push_arg(&mut c, "msiexec");
    push_arg(&mut c, "/i");
    push_arg(&mut c, file_name);
    push_arg(&mut c, "/quiet");
    push_arg(&mut c, "/norestart");
    proof {
        assert(string_views(c@) =~~= seq!["msiexec"@, "/i"@, file_name@, "/quiet"@, "/norestart"@]);
    }
    c
}

/// The privileged extraction of a downloaded archive into the fixed system
/// directory.
pub fn tar_extract_command(file_name: &str) -> (c: Vec<String>)
    ensures
        string_views(c@) == seq!["sudo"@, "tar"@, "-C"@, "/usr/local"@, "-xzf"@, file_name@],
{
    let mut c: Vec<String> = Vec::new();
    proof {
        assert(string_views(c@) =~= Seq::<Seq<char>>::empty());
    }
    push_arg(&mut c, "sudo");
    push_arg(&mut c, "tar");
    push_arg(&mut c, "-C");
    push_arg(&mut c, "/usr/local");
    push_arg(&mut c, "-xzf");
    push_arg(&mut c, file_name);
    proof {
        assert(string_views(c@) =~~= seq![
            "sudo"@,
            "tar"@,
            "-C"@,
            "/usr/local"@,
            "-xzf"@,
            file_name@,
        ]);
    }
    c
}

/// The privileged symlink of an extracted binary into the fixed bin
/// directory.
pub fn symlink_command(source: String, target: &str) -> (c: Vec<String>)
    ensures
        string_views(c@) == seq!["sudo"@, "ln"@, "-sf"@, source@, target@],
{
    let ghost source_view = source@;
    let mut c: Vec<String> = Vec::new();
    proof {
        assert(string_views(c@) =~= Seq::<Seq<char>>::empty());
    }
    push_arg(&mut c, "sudo");
    push_arg(&mut c, "ln");
    push_arg(&mut c, "-sf");
    push_arg_string(&mut c, source);
    push_arg(&mut c, target);
    proof {
        assert(string_views(c@) =~~= seq!["sudo"@, "ln"@, "-sf"@, source_view, target@]);
    }
    c
}

/// The privileged recursive removal of one path.
pub fn remove_path_command(path: &str) -> (c: Vec<String>)
    ensures
        string_views(c@) == seq!["sudo"@, "rm"@, "-rf"@, path@],
{
    let mut c: Vec<String> = Vec::new();
    proof {
        assert(string_views(c@) =~= Seq::<Seq<char>>::empty());
    }
    push_arg(&mut c, "sudo");
    push_arg(&mut c, "rm");
    push_arg(&mut c, "-rf");
    push_arg(&mut c, path);
    proof {
        assert(string_views(c@) =~~= seq!["sudo"@, "rm"@, "-rf"@, path@]);
    }
    c
}

/// The shell-driven directory removal used on Windows hosts.
pub fn rmdir_command(path: &str) -> (c: Vec<String>)
    ensures
        string_views(c@) == seq!["cmd"@, "/C"@, "rmdir"@, "/S"@, "/Q"@, path@],
{
    let mut c: Vec<String> = Vec::new();
    proof {
        assert(string_views(c@) =~= Seq::<Seq<char>>::empty());
    }
    push_arg(&mut c, "cmd");
    push_arg(&mut c, "/C");
    push_arg(&mut c, "rmdir");
    push_arg(&mut c, "/S");
    push_arg(&mut c, "/Q");
    push_arg(&mut c, path);
    proof {
        assert(string_views(c@) =~~= seq!["cmd"@, "/C"@, "rmdir"@, "/S"@, "/Q"@, path@]);
    }
    c
}

/// What an install has to do: fetch one artifact, run the listed commands
/// in order, and delete the artifact afterwards whatever the outcome.
pub struct InstallPlan {
    /// Where the artifact is downloaded from.
    pub url: String,
    /// The fixed temporary filename the artifact is written to.
    pub artifact: String,
    /// The commands to run, in order; each is a program name followed by
    /// its arguments.
    pub commands: Vec<Vec<String>>,
}

} // verus!
