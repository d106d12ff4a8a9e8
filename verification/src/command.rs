//! Program invocations (git, gh) and what came back from them.
use vstd::prelude::*;
use vstd::utf8::decode_utf8;
use vstd::utf8::valid_utf8;

use crate::error::plain;
use crate::error::ErrorKind;
use crate::error::ErrorKindView;
use crate::error::ViewyardError;
use crate::error::ViewyardErrorView;
use crate::text::chars_of;
use crate::text::join;
use crate::text::join_chars;
use crate::text::string_of;
use crate::text::trim;
use crate::text::trim_chars;
use crate::text::views;

verus! {

/// `program` run with `args` in the directory `cwd` (the current one when `None`).
#[derive(Debug)]
pub struct Invocation {
    pub program: String,
    pub args: Vec<String>,
    pub cwd: Option<String>,
}

pub struct InvocationView {
    pub program: Seq<char>,
    pub args: Seq<Seq<char>>,
    pub cwd: Option<Seq<char>>,
}

pub open spec fn arg_views(v: Seq<String>) -> Seq<Seq<char>> {
    v.map_values(|s: String| s@)
}

pub open spec fn str_views(v: Seq<&str>) -> Seq<Seq<char>> {
    v.map_values(|s: &str| s@)
}

impl View for Invocation {
    type V = InvocationView;

    open spec fn view(&self) -> InvocationView {
        InvocationView {
            program: self.program@,
            args: arg_views(self.args@),
            cwd: match self.cwd {
                Some(c) => Some(c@),
                None => None,
            },
        }
    }
}

/// How a process ended.
#[derive(Debug)]
pub struct ProcessOutput {
    pub success: bool,
    /// The exit code, if the process exited rather than being stopped by a signal.
    pub code: Option<i32>,
    pub stdout: Vec<u8>,
    pub stderr: Vec<u8>,
}

/// What running an invocation gave: the process's end, or why it could not start.
#[derive(Debug)]
pub enum ProcessOutcome {
    Finished(ProcessOutput),
    SpawnFailed(String),
}

/// git run with these arguments in this working directory.
pub open spec fn invocation_of(args: Seq<Seq<char>>, cwd: Option<Seq<char>>) -> InvocationView {
    InvocationView { program: "git"@, args, cwd }
}

/// The GitHub CLI run with these arguments in the current directory.
pub open spec fn gh_invocation_of(args: Seq<Seq<char>>) -> InvocationView {
    InvocationView { program: "gh"@, args, cwd: None }
}

/// The command line shown in messages: the arguments joined by spaces.
pub open spec fn command_text(args: Seq<Seq<char>>) -> Seq<char> {
    join(args, " "@)
}

/// The text of a byte string, invalid UTF-8 replaced by U+FFFD (`String::from_utf8_lossy`).
pub uninterp spec fn utf8_lossy(bytes: Seq<u8>) -> Seq<char>;

/// `String::from_utf8_lossy` decodes `bytes`, replacing each invalid UTF-8 sequence by
/// U+FFFD; its result is named `utf8_lossy`, and equals the plain decoding when the bytes
/// are valid UTF-8. Which sequences count as one invalid sequence is left unsaid.
#[verifier::external_body]
pub(crate) fn lossy_text(bytes: &Vec<u8>) -> (res: String)
    ensures
        res@ == utf8_lossy(bytes@),
        valid_utf8(bytes@) ==> res@ == decode_utf8(bytes@),
{
    String::from_utf8_lossy(bytes.as_slice()).into_owned()
}

/// `String::from_utf8` accepts exactly the valid UTF-8 byte strings and decodes them.
#[verifier::external_body]
fn strict_text(bytes: Vec<u8>) -> (res: Option<String>)
    ensures
        res is Some <==> valid_utf8(bytes@),
        res matches Some(s) ==> s@ == decode_utf8(bytes@),
{
    match String::from_utf8(bytes) {
        Ok(s) => Some(s),
        Err(_) => None,
    }
}

/// The error for an invocation that could not be started.
pub open spec fn spawn_error(inv: InvocationView, cause: Seq<char>) -> ViewyardErrorView {
    plain(ErrorKindView::GitSpawn { command: command_text(inv.args), cause })
}

/// What `run_git_command_string` gives: the trimmed standard output of a successful run.
pub open spec fn git_text(inv: InvocationView, o: ProcessOutcome) -> Result<
    Seq<char>,
    ViewyardErrorView,
> {
    match o {
        ProcessOutcome::SpawnFailed(cause) => Err(spawn_error(inv, cause@)),
        ProcessOutcome::Finished(out) => if !out.success {
            Err(
                plain(
                    ErrorKindView::GitFailed {
                        command: command_text(inv.args),
                        stderr: utf8_lossy(out.stderr@),
                    },
                ),
            )
        } else if !valid_utf8(out.stdout@) {
            Err(plain(ErrorKindView::InvalidUtf8))
        } else {
            Ok(trim(decode_utf8(out.stdout@)))
        },
    }
}

/// What a git command run for its effect gives: success when it started and exited
/// successfully; otherwise the failure, with what git wrote on its standard error.
pub open spec fn git_ok(inv: InvocationView, o: ProcessOutcome) -> Result<(), ViewyardErrorView> {
    match o {
        ProcessOutcome::SpawnFailed(cause) => Err(spawn_error(inv, cause@)),
        ProcessOutcome::Finished(out) => if out.success {
            Ok(())
        } else {
            Err(plain(ErrorKindView::GitFailed { command: command_text(inv.args), stderr: utf8_lossy(out.stderr@) }))
        },
    }
}

pub open spec fn text_result_view(r: Result<String, ViewyardError>) -> Result<
    Seq<char>,
    ViewyardErrorView,
> {
    match r {
        Ok(s) => Ok(s@),
        Err(e) => Err(e@),
    }
}

pub open spec fn unit_result_view(r: Result<(), ViewyardError>) -> Result<(), ViewyardErrorView> {
    match r {
        Ok(_) => Ok(()),
        Err(e) => Err(e@),
    }
}

pub open spec fn bool_result_view(r: Result<bool, ViewyardError>) -> Result<
    bool,
    ViewyardErrorView,
> {
    match r {
        Ok(b) => Ok(b),
        Err(e) => Err(e@),
    }
}

pub open spec fn usize_result_view(r: Result<usize, ViewyardError>) -> Result<
    nat,
    ViewyardErrorView,
> {
    match r {
        Ok(n) => Ok(n as nat),
        Err(e) => Err(e@),
    }
}

/// A git invocation from string arguments.
pub fn git_invocation(args: &[&str], cwd: Option<&str>) -> (res: Invocation)
    ensures
        res@ == invocation_of(
            str_views(args@),
            match cwd {
                Some(c) => Some(c@),
                None => None,
            },
        ),
{
    let v = strings_of(args);
    let c = match cwd {
        Some(c) => Some(string_of(&chars_of(c))),
        None => None,
    };
    Invocation { program: string_of(&chars_of("git")), args: v, cwd: c }
}

/// A GitHub CLI invocation from string arguments.
pub fn gh_invocation(args: &[&str]) -> (res: Invocation)
    ensures
        res@ == gh_invocation_of(str_views(args@)),
{
    let v = strings_of(args);
    Invocation { program: string_of(&chars_of("gh")), args: v, cwd: None }
}

pub fn strings_of(args: &[&str]) -> (res: Vec<String>)
    ensures
        arg_views(res@) == str_views(args@),
{
    let mut v: Vec<String> = Vec::new();
    let mut i: usize = 0;
    while i < args.len()
        invariant
            i <= args.len(),
            arg_views(v@) == str_views(args@).take(i as int),
        decreases args.len() - i,
    {
        let s = string_of(&chars_of(args[i]));
        proof {
            assert(arg_views(v@.push(s)) =~= arg_views(v@).push(s@));
            assert(str_views(args@).take(i + 1) =~= str_views(args@).take(i as int).push(
                args@[i as int]@,
            ));
        }
        v.push(s);
        i = i + 1;
    }
    assert(str_views(args@).take(i as int) =~= str_views(args@));
    v
}

/// The command line of an invocation, for messages.
pub fn command_line(inv: &Invocation) -> (res: String)
    ensures
        res@ == command_text(inv@.args),
{
    let mut parts: Vec<Vec<char>> = Vec::new();
    let mut i: usize = 0;
    while i < inv.args.len()
        invariant
            i <= inv.args.len(),
            views(parts@) == arg_views(inv.args@).take(i as int),
        decreases inv.args.len() - i,
    {
        let c = chars_of(inv.args[i].as_str());
        proof {
            assert(views(parts@.push(c)) =~= views(parts@).push(c@));
            assert(arg_views(inv.args@).take(i + 1) =~= arg_views(inv.args@).take(i as int).push(
                inv.args@[i as int]@,
            ));
        }
        parts.push(c);
        i = i + 1;
    }
    assert(arg_views(inv.args@).take(i as int) =~= arg_views(inv.args@));
    let sep = chars_of(" ");
    string_of(&join_chars(&parts, &sep))
}

pub fn spawn_failure(inv: &Invocation, cause: &String) -> (res: ViewyardError)
    ensures
        res@ == spawn_error(inv@, cause@),
{
    ViewyardError::new(ErrorKind::GitSpawn { command: command_line(inv), cause: cause.clone() })
}

/// The trimmed standard output of a successful run; an error when git could not be
/// started, failed, or wrote something other than UTF-8.
pub fn run_git_command_string(inv: &Invocation, outcome: &ProcessOutcome) -> (res: Result<
    String,
    ViewyardError,
>)
    ensures
        text_result_view(res) == git_text(inv@, *outcome),
{
    match outcome {
        ProcessOutcome::SpawnFailed(cause) => Err(spawn_failure(inv, cause)),
        ProcessOutcome::Finished(out) => {
            if !out.success {
                let stderr = lossy_text(&out.stderr);
                Err(
                    ViewyardError::new(
                        ErrorKind::GitFailed { command: command_line(inv), stderr },
                    ),
                )
            } else {
                match strict_text(out.stdout.clone()) {
                    None => Err(ViewyardError::new(ErrorKind::InvalidUtf8)),
                    Some(s) => {
                        let t = trim_chars(&chars_of(s.as_str()));
                        Ok(string_of(&t))
                    },
                }
            }
        },
    }
}

/// Success when git started and exited successfully; an error when it could not be
/// started or failed.
pub fn run_git_command(inv: &Invocation, outcome: &ProcessOutcome) -> (res: Result<
    (),
    ViewyardError,
>)
    ensures
        unit_result_view(res) == git_ok(inv@, *outcome),
{
    match outcome {
        ProcessOutcome::SpawnFailed(cause) => Err(spawn_failure(inv, cause)),
        ProcessOutcome::Finished(out) => {
            if out.success {
                Ok(())
            } else {
                let stderr = lossy_text(&out.stderr);
                Err(ViewyardError::new(ErrorKind::GitFailed { command: command_line(inv), stderr }))
            }
        },
    }
}

} // verus!
