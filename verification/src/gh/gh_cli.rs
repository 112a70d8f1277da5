//! The client that reaches GitHub through its command-line tool. Here it
//! knows which repository a call is about; running the tool is left to the
//! program that uses the library.

use vstd::prelude::*;
use vstd::string::*;

verus! {

/// The client for the command-line tool of GitHub.
#[derive(Debug, Default)]
pub struct GitHubCli {
    repo: String,
}

impl View for GitHubCli {
    type V = Seq<char>;

    /// The repository that is the default.
    closed spec fn view(&self) -> Seq<char> {
        self.repo@
    }
}

impl GitHubCli {
    /// A client with `repo` as the default repository.
    pub fn new(repo: String) -> (cli: Self)
        ensures
            cli@ == repo@,
    {
        Self { repo }
    }

    /// The repository that a call is about: the one given, or the default.
    pub fn target_repo<'a>(&'a self, repo: Option<&'a str>) -> (target: &'a str)
        ensures
            target@ == match repo {
                Some(r) => r@,
                None => self@,
            },
    {
        match repo {
            Some(r) => r,
            None => self.repo.as_str(),
        }
    }

    /// The default repository.
    pub fn default_repo(&self) -> (repo: &str)
        ensures
            repo@ == self@,
    {
        self.repo.as_str()
    }
}

} // verus!
