//! Operations that alternate between asking their environment (run git, look at the
//! filesystem, show a notice) and deciding what to do with the answer.
//!
//! An operation is a state machine: each step either asks for a `Request`, keeping its
//! state until the `Reply` comes, or is done with a result.
use vstd::prelude::*;

use crate::command::Invocation;
use crate::command::InvocationView;
use crate::command::ProcessOutcome;
use crate::error::ViewyardError;
use crate::error::ViewyardErrorView;
use crate::models::Repository;
use crate::models::RepositoryView;
use crate::models::repo_views;
use crate::models::GitProtocol;
use crate::text::chars_of;
use crate::text::push_str;
use crate::text::string_of;

verus! {

/// How a notice is shown.
#[derive(Debug, Clone, Copy, PartialEq, Eq, Structural)]
pub enum NoticeLevel {
    Header,
    Info,
    Success,
    Warning,
    Error,
    /// Printed as it is, on standard output.
    Plain,
    /// Printed as it is, on standard error.
    Stderr,
    /// A line of help under the error shown before it.
    Hint,
}

/// A message for the user.
#[derive(Debug)]
pub struct Notice {
    pub level: NoticeLevel,
    pub text: String,
}

pub struct NoticeView {
    pub level: NoticeLevel,
    pub text: Seq<char>,
}

impl View for Notice {
    type V = NoticeView;

    open spec fn view(&self) -> NoticeView {
        NoticeView { level: self.level, text: self.text@ }
    }
}

pub open spec fn notice(level: NoticeLevel, text: Seq<char>) -> NoticeView {
    NoticeView { level, text }
}

pub open spec fn info(text: Seq<char>) -> NoticeView {
    notice(NoticeLevel::Info, text)
}

pub open spec fn hint(text: Seq<char>) -> NoticeView {
    notice(NoticeLevel::Hint, text)
}

pub open spec fn success(text: Seq<char>) -> NoticeView {
    notice(NoticeLevel::Success, text)
}

pub open spec fn warning(text: Seq<char>) -> NoticeView {
    notice(NoticeLevel::Warning, text)
}

pub open spec fn failure(text: Seq<char>) -> NoticeView {
    notice(NoticeLevel::Error, text)
}

/// The error for a reply of another kind than the request asked for.
pub open spec fn unexpected() -> ViewyardErrorView {
    crate::error::plain(crate::error::ErrorKindView::UnexpectedReply)
}

pub fn make_notice(level: NoticeLevel, text: Vec<char>) -> (res: Notice)
    ensures
        res@ == notice(level, text@),
{
    Notice { level, text: string_of(&text) }
}

/// No notices.
pub fn quiet() -> (res: Vec<Notice>)
    ensures
        notice_views(res@) == Seq::<NoticeView>::empty(),
{
    let v: Vec<Notice> = Vec::new();
    assert(notice_views(v@) =~= Seq::<NoticeView>::empty());
    v
}

/// Adds a notice with the text `text` to `ns`.
pub fn tell(ns: &mut Vec<Notice>, level: NoticeLevel, text: &str)
    ensures
        notice_views(final(ns)@) == notice_views(old(ns)@).push(notice(level, text@)),
{
    let n = make_notice(level, chars_of(text));
    ns.push(n);
    assert(notice_views(ns@) =~= notice_views(old(ns)@).push(notice(level, text@)));
}

/// Adds a notice with the text `text` to `ns`.
pub fn tell_chars(ns: &mut Vec<Notice>, level: NoticeLevel, text: Vec<char>)
    ensures
        notice_views(final(ns)@) == notice_views(old(ns)@).push(notice(level, text@)),
{
    let ghost t = text@;
    let n = make_notice(level, text);
    ns.push(n);
    assert(notice_views(ns@) =~= notice_views(old(ns)@).push(notice(level, t)));
}

/// Adds the notices of `more` to `ns`.
pub fn tell_all(ns: &mut Vec<Notice>, more: Vec<Notice>)
    ensures
        notice_views(final(ns)@) == notice_views(old(ns)@) + notice_views(more@),
{
    let mut more = more;
    let ghost m = more@;
    ns.append(&mut more);
    assert(notice_views(ns@) =~= notice_views(old(ns)@) + notice_views(m));
}

/// What an operation asks of its environment.
#[derive(Debug)]
pub enum Request {
    /// Run a program; the reply is `Reply::Ran`.
    Run(Invocation),
    /// Does the path exist? The reply is `Reply::Flag`.
    PathExists(String),
    /// Is the path a directory? The reply is `Reply::Flag`.
    IsDirectory(String),
    /// Read the repositories listed in the JSON file at the path; the reply is
    /// `Reply::Repositories`.
    ReadRepositories(String),
    /// Read the protocol stored in the viewset configuration file at the path; the reply
    /// is `Reply::Protocol`.
    ReadViewsetConfig(String),
    /// Create the directory and its missing parents; the reply is `Reply::Io`.
    CreateDirAll(String),
    /// Remove the directory and everything in it; the reply is `Reply::Io`.
    RemoveDirAll(String),
    /// Rename the first path to the second; the reply is `Reply::Io`.
    Rename(String, String),
    /// Let the user choose among the first repositories, the viewset holding the second
    /// already; the reply is `Reply::Selection`.
    SelectRepositories(Vec<Repository>, Vec<Repository>),
    /// Ask the user to confirm the repositories chosen; the reply is `Reply::Confirmed`.
    ConfirmSelection(Vec<Repository>),
    /// Write the repositories as the JSON list of the file at the path; the reply is
    /// `Reply::Io`.
    WriteRepositories(String, Vec<Repository>),
    /// Write the viewset configuration, with the protocol, to the file at the path; the
    /// reply is `Reply::Io`.
    WriteViewsetConfig(String, GitProtocol),
}

pub enum RequestView {
    Run(InvocationView),
    PathExists(Seq<char>),
    IsDirectory(Seq<char>),
    ReadRepositories(Seq<char>),
    ReadViewsetConfig(Seq<char>),
    CreateDirAll(Seq<char>),
    RemoveDirAll(Seq<char>),
    Rename(Seq<char>, Seq<char>),
    SelectRepositories(Seq<RepositoryView>, Seq<RepositoryView>),
    ConfirmSelection(Seq<RepositoryView>),
    WriteRepositories(Seq<char>, Seq<RepositoryView>),
    WriteViewsetConfig(Seq<char>, GitProtocol),
}

pub open spec fn notice_views(v: Seq<Notice>) -> Seq<NoticeView> {
    v.map_values(|n: Notice| n@)
}

impl View for Request {
    type V = RequestView;

    open spec fn view(&self) -> RequestView {
        match self {
            Request::Run(i) => RequestView::Run(i@),
            Request::PathExists(p) => RequestView::PathExists(p@),
            Request::IsDirectory(p) => RequestView::IsDirectory(p@),
            Request::ReadRepositories(p) => RequestView::ReadRepositories(p@),
            Request::ReadViewsetConfig(p) => RequestView::ReadViewsetConfig(p@),
            Request::CreateDirAll(p) => RequestView::CreateDirAll(p@),
            Request::RemoveDirAll(p) => RequestView::RemoveDirAll(p@),
            Request::Rename(a, b) => RequestView::Rename(a@, b@),
            Request::SelectRepositories(a, e) => RequestView::SelectRepositories(repo_views(a@), repo_views(e@)),
            Request::ConfirmSelection(a) => RequestView::ConfirmSelection(repo_views(a@)),
            Request::WriteRepositories(p, a) => RequestView::WriteRepositories(p@, repo_views(a@)),
            Request::WriteViewsetConfig(p, g) => RequestView::WriteViewsetConfig(p@, *g),
        }
    }
}

/// The environment's answer to a request.
#[derive(Debug)]
pub enum Reply {
    Ran(ProcessOutcome),
    Flag(bool),
    /// The repositories read, or why they could not be read.
    Repositories(Result<Vec<Repository>, ViewyardError>),
    /// The protocol the viewset stores: none when it has no configuration file.
    Protocol(Option<GitProtocol>),
    /// Whether a filesystem change was made, or why not.
    Io(Result<(), String>),
    /// The repositories the user chose, or why none could be chosen.
    Selection(Result<Vec<Repository>, ViewyardError>),
    /// Whether the user confirmed the choice, or why the question failed.
    Confirmed(Result<bool, ViewyardError>),
}

/// One step of an operation: notices to show, then either a request with the state to
/// resume from once it is answered, or the result.
#[derive(Debug)]
pub enum Step<S, T> {
    Ask(Vec<Notice>, Request, S),
    Done(Vec<Notice>, T),
}

/// The path `name` relative to `base` (`Path::join`): an absolute `name` replaces `base`,
/// otherwise a `/` separates them unless `base` is empty or already ends with one.
pub open spec fn joined_path(base: Seq<char>, name: Seq<char>) -> Seq<char> {
    if name.len() > 0 && name[0] == '/' {
        name
    } else if base.len() == 0 {
        name
    } else if base.last() == '/' {
        base + name
    } else {
        base + "/"@ + name
    }
}

pub fn join_path(base: &str, name: &str) -> (res: String)
    ensures
        res@ == joined_path(base@, name@),
{
    let b = chars_of(base);
    let n = chars_of(name);
    if n.len() > 0 && n[0] == '/' {
        return string_of(&n);
    }
    if b.len() == 0 {
        return string_of(&n);
    }
    let mut r = crate::text::copy_chars(&b);
    if b[b.len() - 1] != '/' {
        push_str(&mut r, "/");
    }
    push_str(&mut r, name);
    string_of(&r)
}

} // verus!
