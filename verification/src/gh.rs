//! What the library asks of GitHub, and the clients that answer.

use crate::error::ParseError;
use crate::gh::gh_cli::GitHubCli;
use crate::gh::gh_cli_fake::GitHubCliFake;
use vstd::prelude::*;

pub mod gh_cli;
pub mod gh_cli_fake;
pub mod util;

verus! {

/// What the library asks of GitHub. In each call `repo` names the
/// repository, and `None` stands for the default one. Nothing is promised of
/// the answers: they come from outside.
pub trait GitHub {
    /// The summary of a run.
    fn run_summary(&self, repo: Option<&str>, run_id: &str) -> Result<String, ParseError>;

    /// The log of a failed job.
    fn failed_job_log(&self, repo: Option<&str>, job_id: &str) -> Result<String, ParseError>;

    /// Creates an issue.
    fn create_issue(&self, repo: Option<&str>, title: &str, body: &str, labels: &[String]) -> Result<
        (),
        ParseError,
    >;

    /// The bodies of the open issues that carry a label.
    fn issue_bodies_open_with_label(&self, repo: Option<&str>, label: &str) -> Result<
        Vec<String>,
        ParseError,
    >;

    /// All labels of a repository.
    fn all_labels(&self, repo: Option<&str>) -> Result<Vec<String>, ParseError>;

    /// Creates a label; `color` is six hexadecimal digits, and `force` lets
    /// it replace a label of the same name.
    fn create_label(
        &self,
        repo: Option<&str>,
        name: &str,
        color: &str,
        description: &str,
        force: bool,
    ) -> Result<(), ParseError>;

    /// The default repository.
    fn default_repo(&self) -> &str;
}

/// The client that was chosen when the program started.
#[derive(Debug)]
pub enum GitHubClient {
    /// The command-line tool of GitHub.
    Cli(GitHubCli),
    /// The stand-in that answers from fixed texts.
    Fake(GitHubCliFake),
}

/// The client for `repo` as the default repository: the stand-in where
/// `fake` is set, the command-line tool otherwise.
pub fn init_github_cli(repo: String, fake: bool) -> (client: GitHubClient)
    ensures
        match client {
            GitHubClient::Fake(cli) => fake && cli@ == repo@,
            GitHubClient::Cli(cli) => !fake && cli@ == repo@,
        },
{
    if fake {
        GitHubClient::Fake(GitHubCliFake::new(repo))
    } else {
        GitHubClient::Cli(GitHubCli::new(repo))
    }
}

} // verus!
