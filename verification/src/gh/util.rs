//! The addresses of runs and jobs on GitHub, and the labels that a repository
//! lacks.

use crate::text::texts;
use vstd::prelude::*;
use vstd::string::*;

verus! {

/// The address of a run: `{repo_url}/actions/runs/{run_id}`.
pub open spec fn run_url_of(repo_url: Seq<char>, run_id: Seq<char>) -> Seq<char> {
    repo_url + "/actions/runs/"@ + run_id
}

/// The address of a job of a run: `{run_url}/job/{job_id}`.
pub open spec fn job_url_of(run_url: Seq<char>, job_id: Seq<char>) -> Seq<char> {
    run_url + "/job/"@ + job_id
}

/// The address of a job of a run in a repository.
pub fn repo_url_to_job_url(repo_url: &str, run_id: &str, job_id: &str) -> (url: String)
    ensures
        url@ == job_url_of(run_url_of(repo_url@, run_id@), job_id@),
{
    let run_url = repo_url_to_run_url(repo_url, run_id);
    run_url_to_job_url(run_url.as_str(), job_id)
}

/// The address of a run in a repository.
pub fn repo_url_to_run_url(repo_url: &str, run_id: &str) -> (url: String)
    ensures
        url@ == run_url_of(repo_url@, run_id@),
{
    let mut url = String::from_str(repo_url);
    url.append("/actions/runs/");
    url.append(run_id);
    url
}

/// The address of a job of a run.
pub fn run_url_to_job_url(run_url: &str, job_id: &str) -> (url: String)
    ensures
        url@ == job_url_of(run_url@, job_id@),
{
    let mut url = String::from_str(run_url);
    url.append("/job/");
    url.append(job_id);
    url
}

/// The labels among `wanted` that are not among `existing`, in the order of
/// `wanted`.
pub open spec fn missing_labels(existing: Seq<Seq<char>>, wanted: Seq<Seq<char>>) -> Seq<Seq<char>>
    decreases wanted.len(),
{
    if wanted.len() == 0 {
        Seq::empty()
    } else if existing.contains(wanted.last()) {
        missing_labels(existing, wanted.drop_last())
    } else {
        missing_labels(existing, wanted.drop_last()).push(wanted.last())
    }
}

/// Whether the label is among the labels.
pub fn has_label(labels: &Vec<String>, label: &String) -> (b: bool)
    ensures
        b == texts(labels@).contains(label@),
{
    let mut i: usize = 0;
    while i < labels.len()
        invariant
            i <= labels.len(),
            forall|k: int| 0 <= k < i ==> texts(labels@)[k] != label@,
        decreases labels.len() - i,
    {
        if labels[i] == *label {
            assert(texts(labels@)[i as int] == label@);
            return true;
        }
        i += 1;
    }
    false
}

/// The labels that have to be created before an issue can carry the labels
/// `wanted`: those of them that the repository, which has the labels
/// `existing`, lacks.
pub fn labels_to_create(existing: &Vec<String>, wanted: &[String]) -> (r: Vec<String>)
    ensures
        texts(r@) == missing_labels(texts(existing@), texts(wanted@)),
{
    let ghost all = texts(wanted@);
    let mut lacking: Vec<String> = Vec::new();
    let mut i: usize = 0;
    while i < wanted.len()
        invariant
            i <= wanted@.len(),
            all == texts(wanted@),
            texts(lacking@) == missing_labels(texts(existing@), all.subrange(0, i as int)),
        decreases wanted@.len() - i,
    {
        let ghost upto = all.subrange(0, i + 1);
        assert(upto.drop_last() == all.subrange(0, i as int));
        assert(upto.last() == wanted@[i as int]@);
        if !has_label(existing, &wanted[i]) {
            let ghost before = texts(lacking@);
            lacking.push(wanted[i].clone());
            assert(texts(lacking@) == before.push(wanted@[i as int]@));
        }
        i += 1;
    }
    assert(all.subrange(0, wanted@.len() as int) == all);
    lacking
}

} // verus!
