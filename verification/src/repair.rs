//! What the owner is told of the agent's attempts to repair itself.

use std::collections::HashSet;
use vstd::prelude::*;

use crate::ids;
use crate::json;
use crate::submission;
use crate::text;

verus! {

broadcast use vstd::std_specs::hash::group_hash_axioms;

/// How an attempt to repair something ended.
pub enum RepairResult {
    Success { message: String },
    Failed { message: String },
    ManualRequired { message: String },
    Retry { message: String },
}

/// Who has been told of what: a job that could not be repaired is reported once.
pub struct RepairNotifier {
    pub reported: HashSet<u128>,
}

/// What the owner is told of a job. `known` says that the job has been reported before.
pub open spec fn job_report(
    known: bool,
    job_id: u128,
    stuck_secs: u64,
    result: Result<RepairResult, String>,
) -> Option<Seq<char>> {
    let stuck = "Self-Repair: Job "@ + ids::id_text(job_id) + " was stuck for "@ + text::decimal(
        stuck_secs as nat,
    ) + "s, "@;
    match result {
        Ok(RepairResult::Success { message }) => Some(stuck + "recovery succeeded: "@ + message@),
        Ok(RepairResult::Failed { message }) => if known {
            None
        } else {
            Some(stuck + "recovery failed permanently: "@ + message@)
        },
        Ok(RepairResult::ManualRequired { message }) => if known {
            None
        } else {
            Some(
                "Self-Repair: Job "@ + ids::id_text(job_id) + " needs manual intervention: "@
                    + message@,
            )
        },
        _ => None,
    }
}

/// The result is one that is reported once.
pub open spec fn final_failure(result: Result<RepairResult, String>) -> bool {
    match result {
        Ok(RepairResult::Failed { .. }) => true,
        Ok(RepairResult::ManualRequired { .. }) => true,
        _ => false,
    }
}

fn stuck_text(job_id: u128, stuck_secs: u64, ending: &str, message: &str) -> (r: String)
    ensures
        r@ == "Self-Repair: Job "@ + ids::id_text(job_id) + " was stuck for "@ + text::decimal(
            stuck_secs as nat,
        ) + "s, "@ + ending@ + message@,
{
    let job = text::cat3("Self-Repair: Job ", ids::to_text(job_id).as_str(), " was stuck for ");
    let time = text::cat3(
        job.as_str(),
        text::number_text(stuck_secs as u128).as_str(),
        "s, ",
    );
    text::cat3(time.as_str(), ending, message)
}

impl RepairNotifier {
    /// Nothing has been reported yet.
    pub fn new() -> (r: RepairNotifier)
        ensures
            r.reported@ == Set::<u128>::empty(),
    {
        RepairNotifier { reported: HashSet::new() }
    }

    /// What the owner is told of an attempt to repair a job, if anything.
    pub fn job_repaired(
        &mut self,
        job_id: u128,
        stuck_secs: u64,
        result: &Result<RepairResult, String>,
    ) -> (r: Option<String>)
        ensures
            json::string_of(r) == job_report(
                old(self).reported@.contains(job_id),
                job_id,
                stuck_secs,
                *result,
            ),
            final(self).reported@ == if final_failure(*result) {
                old(self).reported@.insert(job_id)
            } else {
                old(self).reported@
            },
    {
        match result {
            Ok(RepairResult::Success { message }) => Some(
                stuck_text(job_id, stuck_secs, "recovery succeeded: ", message.as_str()),
            ),
            Ok(RepairResult::Failed { message }) => if self.reported.insert(job_id) {
                Some(
                    stuck_text(
                        job_id,
                        stuck_secs,
                        "recovery failed permanently: ",
                        message.as_str(),
                    ),
                )
            } else {
                None
            },
            Ok(RepairResult::ManualRequired { message }) => if self.reported.insert(job_id) {
                Some(
                    text::cat(
                        text::cat3(
                            "Self-Repair: Job ",
                            ids::to_text(job_id).as_str(),
                            " needs manual intervention: ",
                        ).as_str(),
                        message.as_str(),
                    ),
                )
            } else {
                None
            },
            _ => None,
        }
    }
}

/// What the owner is told of an attempt to repair a tool, if anything: only a success.
pub fn tool_repaired(tool: &str, result: &Result<RepairResult, String>) -> (r: Option<String>)
    ensures
        json::string_of(r) == match *result {
            Ok(RepairResult::Success { message }) => Some(
                "Self-Repair: Tool '"@ + tool@ + "' repaired: "@ + message@,
            ),
            _ => None,
        },
{
    match result {
        Ok(RepairResult::Success { message }) => Some(
            text::cat(
                text::cat3("Self-Repair: Tool '", tool, "' repaired: ").as_str(),
                message.as_str(),
            ),
        ),
        _ => None,
    }
}

/// A job that could not be repaired is reported once: after the first report the job stays
/// known, and no further failure of it is reported.
pub proof fn failures_are_reported_once(
    before: Set<u128>,
    after: Set<u128>,
    job_id: u128,
    first: Result<RepairResult, String>,
    later: Result<RepairResult, String>,
    stuck_secs: u64,
)
    requires
        final_failure(first),
        final_failure(later),
        before.insert(job_id).subset_of(after),
    ensures
        job_report(after.contains(job_id), job_id, stuck_secs, later) is None,
{
    assert(before.insert(job_id).contains(job_id));
}

/// A repair that succeeded is reported every time, one that failed for good or needs a person
/// only while the job is not known, and anything else never. Each report says which job it is
/// and ends with the reason.
pub proof fn repairs_are_reported(
    known: bool,
    job_id: u128,
    stuck_secs: u64,
    result: Result<RepairResult, String>,
)
    ensures
        ({
            let r = job_report(known, job_id, stuck_secs, result);
            match result {
                Ok(RepairResult::Success { message }) => {
                    &&& r is Some
                    &&& submission::names(r->0, ids::id_text(job_id))
                    &&& submission::names(r->0, text::decimal(stuck_secs as nat))
                    &&& r->0.len() >= message@.len()
                    &&& r->0.skip(r->0.len() - message@.len()) == message@
                    &&& !final_failure(result)
                },
                Ok(RepairResult::Failed { message }) => {
                    &&& r is Some <==> !known
                    &&& r is Some ==> {
                        &&& submission::names(r->0, ids::id_text(job_id))
                        &&& submission::names(r->0, text::decimal(stuck_secs as nat))
                        &&& r->0.len() >= message@.len()
                        &&& r->0.skip(r->0.len() - message@.len()) == message@
                    }
                    &&& final_failure(result)
                },
                Ok(RepairResult::ManualRequired { message }) => {
                    &&& r is Some <==> !known
                    &&& r is Some ==> {
                        &&& submission::names(r->0, ids::id_text(job_id))
                        &&& r->0.len() >= message@.len()
                        &&& r->0.skip(r->0.len() - message@.len()) == message@
                    }
                    &&& final_failure(result)
                },
                _ => r is None && !final_failure(result),
            }
        }),
{
    let lead = "Self-Repair: Job "@;
    let id = ids::id_text(job_id);
    let secs = text::decimal(stuck_secs as nat);
    let mid = " was stuck for "@;
    submission::parts_stay_held(lead, id);
    submission::parts_stay_held(lead + id, mid);
    submission::parts_stay_held(lead + id + mid, secs);
    submission::parts_stay_held(lead + id + mid + secs, "s, "@);
    let stuck = lead + id + mid + secs + "s, "@;
    match result {
        Ok(RepairResult::Success { message }) => {
            let how = "recovery succeeded: "@;
            submission::parts_stay_held(stuck, how);
            submission::parts_stay_held(stuck + how, message@);
            let t = stuck + how + message@;
            assert(t.skip(t.len() - message@.len()) =~= message@);
        },
        Ok(RepairResult::Failed { message }) => {
            let how = "recovery failed permanently: "@;
            submission::parts_stay_held(stuck, how);
            submission::parts_stay_held(stuck + how, message@);
            let t = stuck + how + message@;
            assert(t.skip(t.len() - message@.len()) =~= message@);
        },
        Ok(RepairResult::ManualRequired { message }) => {
            let how = " needs manual intervention: "@;
            submission::parts_stay_held(lead + id, how);
            submission::parts_stay_held(lead + id + how, message@);
            let t = lead + id + how + message@;
            assert(t.skip(t.len() - message@.len()) =~= message@);
        },
        _ => {},
    }
}

/// A success and a failure of the same job with the same reason are not reported alike.
pub proof fn successes_are_told_from_failures(job_id: u128, stuck_secs: u64, message: String)
    ensures
        ({
            let good = job_report(
                false,
                job_id,
                stuck_secs,
                Ok(RepairResult::Success { message }),
            );
            let bad = job_report(
                false,
                job_id,
                stuck_secs,
                Ok(RepairResult::Failed { message }),
            );
            good != bad
        }),
{
    reveal_strlit("recovery succeeded: ");
    reveal_strlit("recovery failed permanently: ");
    let good = job_report(false, job_id, stuck_secs, Ok(RepairResult::Success { message }));
    let bad = job_report(false, job_id, stuck_secs, Ok(RepairResult::Failed { message }));
    assert(good->0.len() != bad->0.len());
}

} // verus!
