//! What happens when the popup hands back a command that ends it: which exit code,
//! what the exit script says, and when a file is opened first.
use vstd::prelude::*;
use crate::app::{Cmd, CmdView};

verus! {

/// How the program ends.
#[derive(Debug, PartialEq, Eq)]
pub struct Exit {
    pub code: i32,
    /// The directory that the exit script changes to; no script when `None`.
    pub cd_to: Option<String>,
    /// The command that the exit script runs after the `cd`.
    pub command: Option<String>,
}

/// What to do with a command that ends the popup.
#[derive(Debug, PartialEq, Eq)]
pub enum Quit {
    /// End the program.
    Exit(Exit),
    /// Open this file, then ask `after_open`.
    Open(String),
    /// A `!command` without the shell function to run it: complain, exit with 1.
    NoShellFunction,
}

/// The mathematical value of an `Exit`: code, directory, command.
pub open spec fn exit_view(e: Exit) -> (i32, Option<Seq<char>>, Option<Seq<char>>) {
    (e.code, crate::settings::opt_view(e.cd_to), crate::settings::opt_view(e.command))
}

/// The plan for a command that ends the popup in directory `cwd`, `has_out_file`
/// telling whether the shell function asked for an exit script: quitting changes to
/// `cwd` (exit 0), quitting to a match changes to it (exit 0), Ctrl+C leaves without a
/// script (exit 130), a file is opened first, and a `!command` runs in `cwd` through
/// the shell function, which it needs.
pub open spec fn quit_spec(c: CmdView, cwd: Seq<char>, has_out_file: bool) -> Option<(i32, Option<Seq<char>>, Option<Seq<char>>)> {
    match c {
        CmdView::QuitCd => Some((0i32, Some(cwd), None)),
        CmdView::QuitToDir(d) => Some((0i32, Some(d), None)),
        CmdView::QuitNoCd => Some((130i32, None, None)),
        CmdView::RunCommand(cmd) => if has_out_file {
            Some((0i32, Some(cwd), Some(cmd)))
        } else {
            None
        },
        CmdView::OpenFile(_) => None,
        _ => Some((0i32, None, None)),
    }
}

/// Plans the end of the popup for the command `cmd`.
pub fn plan_quit(cmd: Cmd, cwd: String, has_out_file: bool) -> (q: Quit)
    ensures
        match cmd@ {
            CmdView::OpenFile(p) => q matches Quit::Open(f) && f@ == p,
            CmdView::RunCommand(_) if !has_out_file => q is NoShellFunction,
            c => q matches Quit::Exit(e) && Some(exit_view(e)) == quit_spec(c, cwd@, has_out_file),
        },
{
    match cmd {
        Cmd::QuitCd => Quit::Exit(Exit { code: 0, cd_to: Some(cwd), command: None }),
        Cmd::QuitToDir(dir) => Quit::Exit(Exit { code: 0, cd_to: Some(dir), command: None }),
        Cmd::QuitNoCd => Quit::Exit(Exit { code: 130, cd_to: None, command: None }),
        Cmd::OpenFile(path) => Quit::Open(path),
        Cmd::RunCommand(c) => if has_out_file {
            Quit::Exit(Exit { code: 0, cd_to: Some(cwd), command: Some(c) })
        } else {
            Quit::NoShellFunction
        },
        _ => Quit::Exit(Exit { code: 0, cd_to: None, command: None }),
    }
}

/// After opening a file: with `keep_open` and a successful opening, back to the popup
/// (`None`); otherwise the program ends, changing to `cwd`, with exit code 0 or the
/// code that the failure gave.
pub fn after_open(failure: Option<i32>, keep_open: bool, cwd: String) -> (r: Option<Exit>)
    ensures
        match r {
            None => keep_open && failure is None,
            Some(e) => !(keep_open && failure is None) && exit_view(e) == (
                match failure {
                    Some(c) => c,
                    None => 0i32,
                },
                Some(cwd@),
                None::<Seq<char>>,
            ),
        },
{
    match failure {
        None => if keep_open {
            None
        } else {
            Some(Exit { code: 0, cd_to: Some(cwd), command: None })
        },
        Some(c) => Some(Exit { code: c, cd_to: Some(cwd), command: None }),
    }
}

/// How each command ends the program: quitting changes the shell to the directory it
/// was in (code 0), quitting to a match changes to the match (code 0), Ctrl+C leaves
/// the shell where it was (code 130), and a `!command` runs in the directory it was in
/// (code 0); no command but a file to open is handed to the opener first.
pub proof fn law_quit_outcomes(cwd: Seq<char>, d: Seq<char>, c: Seq<char>, f: Seq<char>, has_out_file: bool)
    ensures
        quit_spec(CmdView::QuitCd, cwd, has_out_file) == Some((0i32, Some(cwd), None::<Seq<char>>)),
        quit_spec(CmdView::QuitToDir(d), cwd, has_out_file) == Some((0i32, Some(d), None::<Seq<char>>)),
        quit_spec(CmdView::QuitNoCd, cwd, has_out_file) == Some((130i32, None::<Seq<char>>, None::<Seq<char>>)),
        has_out_file ==> quit_spec(CmdView::RunCommand(c), cwd, has_out_file) == Some((0i32, Some(cwd), Some(c))),
        !has_out_file ==> quit_spec(CmdView::RunCommand(c), cwd, has_out_file) is None,
        quit_spec(CmdView::OpenFile(f), cwd, has_out_file) is None,
{
}

} // verus!
