//! A stand-in for GitHub that answers from fixed texts, for trying the
//! library without a repository.

use crate::error::ParseError;
use crate::gh::GitHub;
use vstd::prelude::*;
use vstd::string::*;

verus! {

/// The summary of a run that the stand-in answers with.
pub const FAKE_RUN_SUMMARY: &'static str = r#"
    X master Use template and build image · 7858139663
    Triggered via schedule about 10 hours ago

    JOBS
    ✓ enable-ssh-agent in 5s (ID 21442747661)
    ✓ Test template raspberry in 19m20s (ID 21442749166)
    X Test template xilinx in 5m41s (ID 21442749267)
      ✓ Set up job
      ✓ Log in to the Container registry
      ✓ Cleanup build folder before start
      ✓ Run actions/checkout@v4
      ✓ Setup Rust and Just
      ✓ 🗻 Make a templated project
      ✓ ⚙️ Run new project setup steps
      ✓ ⚒️ Build docker image
      X 📦 Build yocto image
      - 📩 Deploy image artifacts
      ✓ Docker down
      ✓ Cleanup build folder after done
      ✓ Create issue on failure
      ✓ Post Run actions/checkout@v4
      ✓ Post Log in to the Container registry
      ✓ Complete job

    ANNOTATIONS
    X Process completed with exit code 2.
    Test template xilinx: .github#3839


    To see what failed, try: gh run view 7858139663 --log-failed
    View this run on GitHub: https://github.com/luftkode/distro-template/actions/runs/7858139663
"#;

/// The log of a failed job that the stand-in answers with.
pub const FAKE_JOB_LOG: &'static str =
    "Test template xilinx\t📦 Build yocto image\t2024-02-10T00:03:45.5797561Z ##[group]Run just --yes build-ci-image\n\
Test template xilinx\t📦 Build yocto image\t2024-02-10T00:03:45.5799911Z \u{1b}[36;1mjust --yes build-ci-image\u{1b}[0m\n\
Test template xilinx\t📦 Build yocto image\t2024-02-10T00:03:45.5843410Z shell: /usr/bin/bash -e {0}\n";

/// The one label that the stand-in knows.
pub const FAKE_LABEL: &'static str = "fake-label";

/// The stand-in for GitHub.
#[derive(Debug, Default)]
pub struct GitHubCliFake {
    repo: String,
}

impl View for GitHubCliFake {
    type V = Seq<char>;

    /// The repository that is the default.
    closed spec fn view(&self) -> Seq<char> {
        self.repo@
    }
}

/// The body of the one issue that the stand-in lists.
pub open spec fn fake_issue_body(repo: Seq<char>, label: Seq<char>) -> Seq<char> {
    "Fake issue body for repo="@ + repo + " and label="@ + label
}

impl GitHubCliFake {
    /// A stand-in with `repo` as the default repository.
    pub fn new(repo: String) -> (cli: Self)
        ensures
            cli@ == repo@,
    {
        Self { repo }
    }

    /// The repository that a call is about: the one given, or the default.
    pub open spec fn target_of(self, repo: Option<&str>) -> Seq<char> {
        match repo {
            Some(r) => r@,
            None => self@,
        }
    }

    /// The repository that a call is about.
    fn target<'a>(&'a self, repo: Option<&'a str>) -> (target: &'a str)
        ensures
            target@ == self.target_of(repo),
    {
        match repo {
            Some(r) => r,
            None => self.repo.as_str(),
        }
    }
}

impl GitHub for GitHubCliFake {
    /// Always [`FAKE_RUN_SUMMARY`].
    fn run_summary(&self, repo: Option<&str>, run_id: &str) -> (r: Result<String, ParseError>)
        ensures
            r matches Ok(summary) && summary@ == FAKE_RUN_SUMMARY@,
    {
        Ok(String::from_str(FAKE_RUN_SUMMARY))
    }

    /// Always [`FAKE_JOB_LOG`].
    fn failed_job_log(&self, repo: Option<&str>, job_id: &str) -> (r: Result<String, ParseError>)
        ensures
            r matches Ok(log) && log@ == FAKE_JOB_LOG@,
    {
        Ok(String::from_str(FAKE_JOB_LOG))
    }

    /// Creates nothing and succeeds.
    fn create_issue(&self, repo: Option<&str>, title: &str, body: &str, labels: &[String]) -> (r:
        Result<(), ParseError>)
        ensures
            r is Ok,
    {
        Ok(())
    }

    /// Always one body, which names the repository and the label.
    fn issue_bodies_open_with_label(&self, repo: Option<&str>, label: &str) -> (r: Result<
        Vec<String>,
        ParseError,
    >)
        ensures
            r matches Ok(bodies) && bodies@.len() == 1 && bodies@[0]@ == fake_issue_body(
                self.target_of(repo),
                label@,
            ),
    {
        let mut body = String::from_str("Fake issue body for repo=");
        body.append(self.target(repo));
        body.append(" and label=");
        body.append(label);
        let mut bodies: Vec<String> = Vec::new();
        bodies.push(body);
        Ok(bodies)
    }

    /// Always the one label [`FAKE_LABEL`].
    fn all_labels(&self, repo: Option<&str>) -> (r: Result<Vec<String>, ParseError>)
        ensures
            r matches Ok(labels) && labels@.len() == 1 && labels@[0]@ == FAKE_LABEL@,
    {
        let mut labels: Vec<String> = Vec::new();
        labels.push(String::from_str(FAKE_LABEL));
        Ok(labels)
    }

    /// Creates nothing and succeeds.
    fn create_label(
        &self,
        repo: Option<&str>,
        name: &str,
        color: &str,
        description: &str,
        force: bool,
    ) -> (r: Result<(), ParseError>)
        ensures
            r is Ok,
    {
        Ok(())
    }

    /// The default repository.
    fn default_repo(&self) -> (repo: &str)
        ensures
            repo@ == self@,
    {
        self.repo.as_str()
    }
}

} // verus!
