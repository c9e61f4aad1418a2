//! The command line of the `run_job` helper: a model, a space, and the
//! prompt.

use crate::envelope::{JobSpec, RunJobRequestParams};
use vstd::prelude::*;
use vstd::string::StrSliceExecFns;

verus! {

/// Whether place `i` holds the first space of `line`.
pub open spec fn first_space(line: Seq<char>, i: int) -> bool {
    &&& 0 <= i < line.len()
    &&& line[i] == ' '
    &&& forall|j: int| 0 <= j < i ==> line[j] != ' '
}

/// The job that a command line asks for: the model is what stands before
/// the first space, the prompt is all that follows it.
pub open spec fn job_at(line: Seq<char>, i: int) -> JobSpec {
    JobSpec { model: line.subrange(0, i), prompt: line.subrange(i + 1, line.len() as int), seed: None }
}

/// Reads the command line of `run_job`. A line without a space names no
/// job.
pub fn parse_run_job(line: &str) -> (res: Option<RunJobRequestParams>)
    ensures
        match res {
            Some(job) => exists|i: int| first_space(line@, i) && job@ == job_at(line@, i),
            None => forall|i: int| 0 <= i < line@.len() ==> line@[i] != ' ',
        },
{
    let len = line.unicode_len();
    let mut i: usize = 0;
    while i < len
        invariant
            len == line@.len(),
            i <= len,
            forall|j: int| 0 <= j < i ==> line@[j] != ' ',
        decreases len - i,
    {
        if line.get_char(i) == ' ' {
            let model = line.substring_char(0, i).to_owned();
            let prompt = line.substring_char(i + 1, len).to_owned();
            let job = RunJobRequestParams { model, prompt, seed: None };
            assert(first_space(line@, i as int) && job@ == job_at(line@, i as int));
            return Some(job);
        }
        i += 1;
    }
    None
}

} // verus!
