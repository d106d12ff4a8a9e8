//! The data the tool keeps about viewsets and repositories.
use vstd::prelude::*;

use crate::text::chars_of;
use crate::text::string_of;

verus! {

/// Transport used for cloning: SSH (the default) or HTTPS.
#[derive(Debug, Clone, Copy, PartialEq, Eq, Structural)]
pub enum GitProtocol {
    Ssh,
    Https,
}

impl Default for GitProtocol {
    fn default() -> (res: GitProtocol)
        ensures
            res == GitProtocol::Ssh,
    {
        GitProtocol::Ssh
    }
}

pub open spec fn protocol_name(p: GitProtocol) -> Seq<char> {
    match p {
        GitProtocol::Ssh => "ssh"@,
        GitProtocol::Https => "https"@,
    }
}

impl GitProtocol {
    /// The protocol's name as written in configuration files and on the command line.
    pub fn display_name(&self) -> (res: String)
        ensures
            res@ == protocol_name(*self),
    {
        let v = match self {
            GitProtocol::Ssh => chars_of("ssh"),
            GitProtocol::Https => chars_of("https"),
        };
        string_of(&v)
    }
}

/// Settings stored with a viewset.
#[derive(Debug, Clone, Copy, PartialEq, Eq, Structural)]
pub struct ViewsetConfig {
    pub protocol: GitProtocol,
}

impl Default for ViewsetConfig {
    fn default() -> (res: ViewsetConfig)
        ensures
            res.protocol == GitProtocol::Ssh,
    {
        ViewsetConfig { protocol: GitProtocol::Ssh }
    }
}

/// A repository of a viewset.
#[derive(Debug)]
pub struct Repository {
    pub name: String,
    pub url: String,
    pub is_private: bool,
    /// Where the repository was found, e.g. `GitHub (account)` or `GitHub (org/account)`.
    pub source: String,
    /// The account that owns the working copy's git identity, when given explicitly.
    pub account: Option<String>,
}

pub struct RepositoryView {
    pub name: Seq<char>,
    pub url: Seq<char>,
    pub is_private: bool,
    pub source: Seq<char>,
    pub account: Option<Seq<char>>,
}

pub open spec fn opt_view(o: Option<String>) -> Option<Seq<char>> {
    match o {
        Some(s) => Some(s@),
        None => None,
    }
}

impl View for Repository {
    type V = RepositoryView;

    open spec fn view(&self) -> RepositoryView {
        RepositoryView {
            name: self.name@,
            url: self.url@,
            is_private: self.is_private,
            source: self.source@,
            account: opt_view(self.account),
        }
    }
}

pub open spec fn repo_views(v: Seq<Repository>) -> Seq<RepositoryView> {
    v.map_values(|r: Repository| r@)
}

pub fn copy_opt_string(o: &Option<String>) -> (res: Option<String>)
    ensures
        opt_view(res) == opt_view(*o),
{
    match o {
        Some(s) => Some(s.clone()),
        None => None,
    }
}

impl Clone for Repository {
    fn clone(&self) -> (res: Repository)
        ensures
            res@ == self@,
    {
        Repository {
            name: self.name.clone(),
            url: self.url.clone(),
            is_private: self.is_private,
            source: self.source.clone(),
            account: copy_opt_string(&self.account),
        }
    }
}

impl Repository {
    /// What the repository is shown as: its name.
    pub fn display_name(&self) -> (res: String)
        ensures
            res@ == self.name@,
    {
        self.name.clone()
    }
}

} // verus!
