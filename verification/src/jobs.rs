//! Jobs: finding the one that the user means, and telling the user about it.

use vstd::prelude::*;

use crate::clock;
use crate::ids;
use crate::json;
use crate::submission;
use crate::submission::LoopError;
use crate::text;

verus! {

/// What is known of a job.
pub struct Job {
    pub user_id: String,
    pub title: String,
    /// The name of the state.
    pub state: String,
    pub stuck: bool,
    /// Seconds since the Unix epoch.
    pub created_at: i64,
    pub started_at: Option<i64>,
    pub actual_cost: String,
    pub repair_attempts: u32,
}

/// How many jobs a user has.
pub struct JobSummary {
    pub total: usize,
    pub in_progress: usize,
    pub completed: usize,
    pub failed: usize,
    pub stuck: usize,
}

/// The id in a text; a text that is none is an id that no job has.
pub fn job_named(job_id: &str) -> (r: Result<u128, LoopError>)
    ensures
        match ids::parsed_id(job_id@) {
            Some(id) => r == Ok::<u128, LoopError>(id),
            None => r matches Err(e) && e.misses(0),
        },
        forall|id: u128| job_id@ == #[trigger] ids::id_text(id) ==> r == Ok::<u128, LoopError>(id),
{
    match ids::parse(job_id) {
        Some(id) => Ok(id),
        None => Err(LoopError::NotFound { id: 0 }),
    }
}

/// Checks that a job is the user's own; any other is answered as if it were not there.
pub fn check_owner(user_id: &str, job_id: u128, job: &Job) -> (r: Result<(), LoopError>)
    ensures
        if job.user_id@ == user_id@ {
            r is Ok
        } else {
            r matches Err(e) && e.misses(job_id)
        },
{
    if text::same(job.user_id.as_str(), user_id) {
        Ok(())
    } else {
        Err(LoopError::NotFound { id: job_id })
    }
}

/// What the user is told of a new job.
pub fn created_text(title: &str, job_id: u128) -> (r: String)
    ensures
        r@ == "Created job: "@ + title@ + "\nID: "@ + ids::id_text(job_id)
            + "\n\nThe job has been scheduled and is now running."@,
{
    text::cat3(
        text::cat3("Created job: ", title, "\nID: ").as_str(),
        ids::to_text(job_id).as_str(),
        "\n\nThe job has been scheduled and is now running.",
    )
}

/// The status of a job, with the texts of its moments.
pub open spec fn status_report(job: Job, created: Seq<char>, started: Option<Seq<char>>) -> Seq<
    char,
> {
    "Job: "@ + job.title@ + "\nStatus: "@ + job.state@ + "\nCreated: "@ + created + "\nStarted: "@
        + match started {
        Some(s) => s,
        None => "Not started"@,
    } + "\nActual cost: "@ + job.actual_cost@
}

/// The status of a job, with the texts of its moments.
pub fn status_text(job: &Job, created: &str, started: Option<&str>) -> (r: String)
    ensures
        r@ == status_report(*job, created@, json::text_of(started)),
{
    let begun: &str = match started {
        Some(s) => s,
        None => "Not started",
    };
    let head = text::cat3("Job: ", job.title.as_str(), "\nStatus: ");
    let state = text::cat3(job.state.as_str(), "\nCreated: ", created);
    let start = text::cat3("\nStarted: ", begun, "\nActual cost: ");
    text::cat(
        text::cat3(head.as_str(), state.as_str(), start.as_str()).as_str(),
        job.actual_cost.as_str(),
    )
}

/// The text of an optional moment.
pub open spec fn moment_text(moment: Option<i64>) -> Option<Seq<char>> {
    match moment {
        Some(t) => clock::formatted_time(t, "%Y-%m-%d %H:%M:%S"@),
        None => None,
    }
}

/// The status of a job.
pub fn job_status(job: &Job) -> (r: String)
    requires
        clock::in_calendar(job.created_at),
        job.started_at matches Some(t) ==> clock::in_calendar(t),
    ensures
        r@ == status_report(
            *job,
            moment_text(Some(job.created_at))->0,
            moment_text(job.started_at),
        ),
{
    let created: String = match clock::format_time(job.created_at, "%Y-%m-%d %H:%M:%S") {
        Some(s) => s,
        None => String::new(),
    };
    let started: Option<String> = match job.started_at {
        Some(t) => clock::format_time(t, "%Y-%m-%d %H:%M:%S"),
        None => None,
    };
    match &started {
        Some(s) => status_text(job, created.as_str(), Some(s.as_str())),
        None => status_text(job, created.as_str(), None),
    }
}

/// The status of a job, for a user who asks for it.
pub fn status_for(user_id: &str, job_id: u128, job: &Job) -> (r: Result<String, LoopError>)
    requires
        clock::in_calendar(job.created_at),
        job.started_at matches Some(t) ==> clock::in_calendar(t),
    ensures
        if job.user_id@ == user_id@ {
            r matches Ok(s) && s@ == status_report(
                *job,
                moment_text(Some(job.created_at))->0,
                moment_text(job.started_at),
            )
        } else {
            r matches Err(e) && e.misses(job_id)
        },
{
    match check_owner(user_id, job_id, job) {
        Ok(_) => Ok(job_status(job)),
        Err(e) => Err(e),
    }
}

/// How many jobs a user has.
pub fn summary_text(summary: &JobSummary) -> (r: String)
    ensures
        r@ == "Jobs summary:\n  Total: "@ + text::decimal(summary.total as nat)
            + "\n  In Progress: "@ + text::decimal(summary.in_progress as nat)
            + "\n  Completed: "@ + text::decimal(summary.completed as nat) + "\n  Failed: "@
            + text::decimal(summary.failed as nat) + "\n  Stuck: "@ + text::decimal(
            summary.stuck as nat,
        ),
{
    let head = text::cat3(
        "Jobs summary:\n  Total: ",
        text::number_text(summary.total as u128).as_str(),
        "\n  In Progress: ",
    );
    let running = text::cat3(
        text::number_text(summary.in_progress as u128).as_str(),
        "\n  Completed: ",
        text::number_text(summary.completed as u128).as_str(),
    );
    let failed = text::cat3(
        "\n  Failed: ",
        text::number_text(summary.failed as u128).as_str(),
        "\n  Stuck: ",
    );
    let r = text::cat(
        text::cat3(head.as_str(), running.as_str(), failed.as_str()).as_str(),
        text::number_text(summary.stuck as u128).as_str(),
    );
    assert(r@ =~= "Jobs summary:\n  Total: "@ + text::decimal(summary.total as nat)
        + "\n  In Progress: "@ + text::decimal(summary.in_progress as nat) + "\n  Completed: "@
        + text::decimal(summary.completed as nat) + "\n  Failed: "@ + text::decimal(
        summary.failed as nat,
    ) + "\n  Stuck: "@ + text::decimal(summary.stuck as nat));
    r
}

/// What the user is told of a job that was cancelled.
fn cancelled_text(job_id: &str) -> (r: String)
    ensures
        r@ == "Job "@ + job_id@ + " has been cancelled."@,
{
    text::cat3("Job ", job_id, " has been cancelled.")
}

/// A job that is to be stopped, and what to answer once it is.
pub struct JobStop {
    pub job_id: u128,
    pub reply: String,
}

/// Decides whether a job is stopped for a user who asks for it: only where it is the user's
/// own. `written` is the id as the user wrote it.
pub fn cancel_for(user_id: &str, job_id: u128, written: &str, job: &Job) -> (r: Result<
    JobStop,
    LoopError,
>)
    ensures
        if job.user_id@ == user_id@ {
            &&& r matches Ok(stop)
            &&& stop.job_id == job_id
            &&& stop.reply@ == "Job "@ + written@ + " has been cancelled."@
        } else {
            r matches Err(e) && e.misses(job_id)
        },
{
    if let Err(e) = check_owner(user_id, job_id, job) {
        return Err(e);
    }
    Ok(JobStop { job_id, reply: cancelled_text(written) })
}

/// A job in a list: its id, and the job where it could be looked up.
pub struct JobEntry {
    pub id: u128,
    pub job: Option<Job>,
}

/// The line of a job in a list: only the user's own jobs have one.
pub open spec fn job_line(user_id: Seq<char>, entry: JobEntry) -> Seq<char> {
    match entry.job {
        Some(job) => if job.user_id@ == user_id {
            "  "@ + ids::id_text(entry.id) + " - "@ + job.title@ + " ("@ + job.state@ + ")\n"@
        } else {
            seq![]
        },
        None => seq![],
    }
}

/// The lines of jobs in a list.
pub open spec fn job_lines(user_id: Seq<char>, entries: Seq<JobEntry>) -> Seq<char>
    decreases entries.len(),
{
    if entries.len() == 0 {
        seq![]
    } else {
        job_lines(user_id, entries.drop_last()) + job_line(user_id, entries.last())
    }
}

/// The list of a user's jobs.
pub fn list_text(user_id: &str, entries: &Vec<JobEntry>) -> (r: String)
    ensures
        r@ == if entries@.len() == 0 {
            "No jobs found."@
        } else {
            "Jobs:\n"@ + job_lines(user_id@, entries@)
        },
{
    if entries.len() == 0 {
        return "No jobs found.".to_owned();
    }
    let mut out: String = "Jobs:\n".to_owned();
    let mut i: usize = 0;
    assert(out@ =~= "Jobs:\n"@ + job_lines(user_id@, entries@.take(0)));
    while i < entries.len()
        invariant
            i <= entries@.len(),
            out@ == "Jobs:\n"@ + job_lines(user_id@, entries@.take(i as int)),
        decreases entries@.len() - i,
    {
        let ghost done = out@;
        assert(entries@.take(i as int + 1).drop_last() =~= entries@.take(i as int));
        if let Some(job) = &entries[i].job {
            if text::same(job.user_id.as_str(), user_id) {
                let head = text::cat3("  ", ids::to_text(entries[i].id).as_str(), " - ");
                let tail = text::cat3(" (", job.state.as_str(), ")\n");
                let line = text::cat3(head.as_str(), job.title.as_str(), tail.as_str());
                assert(line@ =~= job_line(user_id@, entries@[i as int]));
                out.append(line.as_str());
            }
        }
        assert(out@ =~= "Jobs:\n"@ + job_lines(user_id@, entries@.take(i as int + 1)));
        i = i + 1;
    }
    assert(entries@.take(entries@.len() as int) =~= entries@);
    out
}

/// The entry is none of the user's own jobs.
pub open spec fn foreign(user_id: Seq<char>, entry: JobEntry) -> bool {
    match entry.job {
        Some(job) => job.user_id@ != user_id,
        None => true,
    }
}

/// A list of jobs tells nothing of another user's: whatever is known of these, the list is
/// the same.
pub proof fn lists_hide_others_jobs(user_id: Seq<char>, a: Seq<JobEntry>, b: Seq<JobEntry>)
    requires
        a.len() == b.len(),
        forall|i: int|
            0 <= i < a.len() ==> #[trigger] a[i] == b[i] || foreign(user_id, a[i]) && foreign(
                user_id,
                b[i],
            ),
    ensures
        job_lines(user_id, a) == job_lines(user_id, b),
    decreases a.len(),
{
    if a.len() > 0 {
        let x = a.drop_last();
        let y = b.drop_last();
        assert forall|i: int| 0 <= i < x.len() implies #[trigger] x[i] == y[i] || foreign(
            user_id,
            x[i],
        ) && foreign(user_id, y[i]) by {
            assert(a[i] == x[i] && b[i] == y[i]);
        }
        lists_hide_others_jobs(user_id, x, y);
        assert(a.last() == a[a.len() - 1] && b.last() == b[b.len() - 1]);
    }
}

/// What helping with a job comes to.
pub enum JobHelp {
    /// The job is stuck: recover it, schedule it again, and answer with this.
    Recover { reply: String },
    /// The job needs no help: answer with this.
    Fine { reply: String },
}

/// The help that a job gets.
pub open spec fn helped(job_id: Seq<char>, job: Job, r: JobHelp) -> bool {
    if job.stuck {
        r matches JobHelp::Recover { reply } && reply@ == "Job "@ + job_id
            + " was stuck. Attempting recovery (attempt #"@ + text::decimal(
            (job.repair_attempts + 1) as nat,
        ) + ")."@
    } else {
        r matches JobHelp::Fine { reply } && reply@ == "Job "@ + job_id
            + " is not stuck (current state: "@ + job.state@ + "). No help needed."@
    }
}

/// Decides how to help with a job, for a user who asks for it. `written` is the id as the
/// user wrote it.
pub fn help_for(user_id: &str, job_id: u128, written: &str, job: &Job) -> (r: Result<
    JobHelp,
    LoopError,
>)
    ensures
        if job.user_id@ == user_id@ {
            r matches Ok(help) && helped(written@, *job, help)
        } else {
            r matches Err(e) && e.misses(job_id)
        },
{
    if let Err(e) = check_owner(user_id, job_id, job) {
        return Err(e);
    }
    if job.stuck {
        Ok(
            JobHelp::Recover {
                reply: text::cat3(
                    text::cat3(
                        "Job ",
                        written,
                        " was stuck. Attempting recovery (attempt #",
                    ).as_str(),
                    text::number_text(job.repair_attempts as u128 + 1).as_str(),
                    ").",
                ),
            },
        )
    } else {
        Ok(
            JobHelp::Fine {
                reply: text::cat3(
                    text::cat3("Job ", written, " is not stuck (current state: ").as_str(),
                    job.state.as_str(),
                    "). No help needed.",
                ),
            },
        )
    }
}

/// The status of a job says its title, its state, its moments and its cost; that it has not
/// started, where it has not.
pub proof fn reports_say_how_a_job_stands(
    job: Job,
    created: Seq<char>,
    started: Option<Seq<char>>,
)
    ensures
        ({
            let r = status_report(job, created, started);
            let cost = job.actual_cost@;
            &&& submission::names(r, job.title@)
            &&& submission::names(r, job.state@)
            &&& submission::names(r, created)
            &&& started matches Some(s) ==> submission::names(r, "\nStarted: "@ + s)
            &&& started is None ==> submission::names(r, "\nStarted: "@ + "Not started"@)
            &&& r.len() >= cost.len()
            &&& r.skip(r.len() - cost.len()) == cost
        }),
{
    let begun = match started {
        Some(s) => s,
        None => "Not started"@,
    };
    let h1 = "Job: "@ + job.title@;
    let h2 = h1 + "\nStatus: "@;
    let h3 = h2 + job.state@;
    let h4 = h3 + "\nCreated: "@;
    let h5 = h4 + created;
    let start = "\nStarted: "@ + begun;
    let h6 = h5 + start;
    let h7 = h6 + "\nActual cost: "@;
    submission::parts_stay_held("Job: "@, job.title@);
    submission::parts_stay_held(h1, "\nStatus: "@);
    submission::parts_stay_held(h2, job.state@);
    submission::parts_stay_held(h3, "\nCreated: "@);
    submission::parts_stay_held(h4, created);
    submission::parts_stay_held(h5, start);
    submission::parts_stay_held(h6, "\nActual cost: "@);
    submission::parts_stay_held(h7, job.actual_cost@);
    let r = status_report(job, created, started);
    assert(h5 + "\nStarted: "@ + begun =~= h6);
    assert(r == h7 + job.actual_cost@);
    assert(r.skip(r.len() - job.actual_cost@.len()) =~= job.actual_cost@);
}

/// A moment has a text where there is one.
pub proof fn moments_have_texts(moment: Option<i64>)
    ensures
        moment is None ==> moment_text(moment) is None,
        moment matches Some(t) ==> moment_text(moment) == clock::formatted_time(
            t,
            "%Y-%m-%d %H:%M:%S"@,
        ),
{
}

/// A job of one's own has a line in the list, after those before it, which says its id, its
/// title and its state; any other adds nothing.
pub proof fn own_jobs_are_listed(user_id: Seq<char>, entries: Seq<JobEntry>, next: JobEntry)
    ensures
        ({
            let before = job_lines(user_id, entries);
            let after = job_lines(user_id, entries.push(next));
            let line = after.skip(before.len() as int);
            &&& after.len() >= before.len()
            &&& after.take(before.len() as int) == before
            &&& next.job is None ==> line.len() == 0
            &&& next.job matches Some(job) ==> {
                &&& job.user_id@ != user_id ==> line.len() == 0
                &&& job.user_id@ == user_id ==> {
                    &&& submission::names(line, ids::id_text(next.id))
                    &&& submission::names(line, job.title@)
                    &&& submission::names(line, job.state@)
                    &&& line.last() == '\n'
                }
            }
        }),
        job_lines(user_id, Seq::empty()).len() == 0,
{
    assert(entries.push(next).drop_last() =~= entries);
    let before = job_lines(user_id, entries);
    let after = job_lines(user_id, entries.push(next));
    let line = job_line(user_id, next);
    assert(after == before + line);
    assert((before + line).take(before.len() as int) =~= before);
    assert((before + line).skip(before.len() as int) =~= line);
    if let Some(job) = next.job {
        if job.user_id@ == user_id {
            let id = ids::id_text(next.id);
            let h1 = "  "@ + id;
            let h2 = h1 + " - "@;
            let h3 = h2 + job.title@;
            let h4 = h3 + " ("@;
            let h5 = h4 + job.state@;
            submission::parts_stay_held("  "@, id);
            submission::parts_stay_held(h1, " - "@);
            submission::parts_stay_held(h2, job.title@);
            submission::parts_stay_held(h3, " ("@);
            submission::parts_stay_held(h4, job.state@);
            submission::parts_stay_held(h5, ")\n"@);
            reveal_strlit(")\n");
            assert(line.last() == ")\n"@.last());
        }
    }
}

/// The entry is a job of another user, or none that is known.
pub proof fn foreign_jobs_are_others(user_id: Seq<char>, entry: JobEntry)
    ensures
        foreign(user_id, entry) <==> !(entry.job is Some && entry.job->0.user_id@ == user_id),
{
}

/// A stuck job is recovered, and the answer counts the attempt; any other is left alone, and
/// the answer says its state. Either way the answer says which job it is.
pub proof fn stuck_jobs_are_recovered(job_id: Seq<char>, job: Job, r: JobHelp)
    requires
        helped(job_id, job, r),
    ensures
        r is Recover <==> job.stuck,
        r matches JobHelp::Recover { reply } ==> {
            &&& submission::names(reply@, job_id)
            &&& submission::names(reply@, text::decimal((job.repair_attempts + 1) as nat))
        },
        r matches JobHelp::Fine { reply } ==> {
            &&& submission::names(reply@, job_id)
            &&& submission::names(reply@, job.state@)
        },
{
    let h1 = "Job "@ + job_id;
    submission::parts_stay_held("Job "@, job_id);
    match r {
        JobHelp::Recover { reply } => {
            let lead = " was stuck. Attempting recovery (attempt #"@;
            let digits = text::decimal((job.repair_attempts + 1) as nat);
            submission::parts_stay_held(h1, lead);
            submission::parts_stay_held(h1 + lead, digits);
            submission::parts_stay_held(h1 + lead + digits, ")."@);
        },
        JobHelp::Fine { reply } => {
            let lead = " is not stuck (current state: "@;
            submission::parts_stay_held(h1, lead);
            submission::parts_stay_held(h1 + lead, job.state@);
            submission::parts_stay_held(h1 + lead + job.state@, "). No help needed."@);
        },
    }
}

} // verus!
