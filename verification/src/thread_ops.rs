//! Operations on threads that the user asks for: undo, redo, interrupt, clear and the like.

use vstd::prelude::*;

use crate::chat;
use crate::chat::ChatMessage;
use crate::ids;
use crate::session;
use crate::session::{Session, Thread, ThreadState};
use crate::submission;
use crate::submission::{LoopError, SubmissionResult};
use crate::text;

verus! {

broadcast use vstd::std_specs::hash::group_hash_axioms;

/// A checkpoint to go back to.
pub struct Checkpoint {
    pub turn_number: u128,
    pub messages: Vec<ChatMessage>,
    pub description: String,
}

/// What an undo or a redo needs next.
pub enum HistoryStep {
    /// There is nothing to do but to answer.
    Done(SubmissionResult),
    /// Ask for the checkpoint, handing over where the thread stands.
    Ask { turn_number: u128, messages: Vec<ChatMessage> },
}

/// `new` is `old` with the conversation of a checkpoint.
pub open spec fn restored(old: Thread, new: Thread, messages: Seq<chat::MessageView>) -> bool {
    &&& new == (Thread { state: ThreadState::Idle, turns: new.turns, ..old })
    &&& session::exchanges(new.turns@) == session::exchanges_of(messages)
    &&& session::without_calls(new.turns@)
    &&& session::without_errors(new.turns@)
}

/// `new` is `old` but that the thread under `id` has the conversation of a checkpoint.
pub open spec fn restores(
    old: Session,
    new: Session,
    id: u128,
    messages: Seq<chat::MessageView>,
) -> bool {
    &&& old.thread(id) matches Some(o)
    &&& new.thread(id) matches Some(n)
    &&& restored(o, n, messages)
    &&& session::refiled(old, new, id, n)
}

fn restore(session: &mut Session, thread_id: u128, messages: &Vec<ChatMessage>) -> (r: Result<
    (),
    LoopError,
>)
    ensures
        match old(session).thread(thread_id) {
            None => r matches Err(e) && e.misses(thread_id) && session::untouched(
                *old(session),
                *final(session),
            ),
            Some(t) => r is Ok && restores(
                *old(session),
                *final(session),
                thread_id,
                chat::views(messages@),
            ),
        },
{
    let ghost before = session.threads@;
    match session.take(thread_id) {
        None => {
            assert(session.threads@ =~= before);
            Err(LoopError::NotFound { id: thread_id })
        },
        Some(mut thread) => {
            thread.restore_from_messages(messages);
            session.put(thread_id, thread);
            assert(session.threads@ =~= before.insert(thread_id, thread));
            Ok(())
        },
    }
}

fn begin_history(
    possible: bool,
    refusal: &str,
    session: &Session,
    thread_id: u128,
) -> (r: Result<HistoryStep, LoopError>)
    ensures
        if !possible {
            r matches Ok(HistoryStep::Done(result)) && result.acknowledges(refusal@)
        } else {
            match session.thread(thread_id) {
                None => r matches Err(e) && e.misses(thread_id),
                Some(t) => r matches Ok(HistoryStep::Ask { turn_number, messages })
                    && turn_number == t.turns@.len() + 1 && chat::views(messages@) == t.history(),
            }
        },
{
    if !possible {
        return Ok(HistoryStep::Done(SubmissionResult::ok_with_message(refusal)));
    }
    match session.threads.get(&thread_id) {
        None => Err(LoopError::NotFound { id: thread_id }),
        Some(thread) => Ok(
            HistoryStep::Ask { turn_number: thread.turn_number(), messages: thread.messages() },
        ),
    }
}

/// Begins an undo. `can_undo` says that there is a checkpoint to go back to.
pub fn begin_undo(can_undo: bool, session: &Session, thread_id: u128) -> (r: Result<
    HistoryStep,
    LoopError,
>)
    ensures
        if !can_undo {
            r matches Ok(HistoryStep::Done(result)) && result.acknowledges("Nothing to undo."@)
        } else {
            match session.thread(thread_id) {
                None => r matches Err(e) && e.misses(thread_id),
                Some(t) => r matches Ok(HistoryStep::Ask { turn_number, messages })
                    && turn_number == t.turns@.len() + 1 && chat::views(messages@) == t.history(),
            }
        },
{
    begin_history(can_undo, "Nothing to undo.", session, thread_id)
}

/// Begins a redo. `can_redo` says that there is a checkpoint to go forward to.
pub fn begin_redo(can_redo: bool, session: &Session, thread_id: u128) -> (r: Result<
    HistoryStep,
    LoopError,
>)
    ensures
        if !can_redo {
            r matches Ok(HistoryStep::Done(result)) && result.acknowledges("Nothing to redo."@)
        } else {
            match session.thread(thread_id) {
                None => r matches Err(e) && e.misses(thread_id),
                Some(t) => r matches Ok(HistoryStep::Ask { turn_number, messages })
                    && turn_number == t.turns@.len() + 1 && chat::views(messages@) == t.history(),
            }
        },
{
    begin_history(can_redo, "Nothing to redo.", session, thread_id)
}

/// Ends an undo: the thread gets the conversation of the checkpoint. `left` counts the
/// undos that remain.
pub fn finish_undo(
    session: &mut Session,
    thread_id: u128,
    checkpoint: Option<Checkpoint>,
    left: usize,
) -> (r: Result<SubmissionResult, LoopError>)
    ensures
        match checkpoint {
            None => r matches Ok(result) && result.complains("Undo failed."@) && *final(session)
                == *old(session),
            Some(c) => match old(session).thread(thread_id) {
                None => r matches Err(e) && e.misses(thread_id) && session::untouched(
                    *old(session),
                    *final(session),
                ),
                Some(_) => {
                    &&& restores(
                        *old(session),
                        *final(session),
                        thread_id,
                        chat::views(c.messages@),
                    )
                    &&& r matches Ok(result)
                    &&& result.acknowledges(
                        "Undone to turn "@ + text::decimal(c.turn_number as nat) + ". "@
                            + text::decimal(left as nat) + " undo(s) remaining."@,
                    )
                },
            },
        },
{
    let c = match checkpoint {
        None => {
            return Ok(SubmissionResult::error("Undo failed."));
        },
        Some(c) => c,
    };
    match restore(session, thread_id, &c.messages) {
        Err(e) => Err(e),
        Ok(_) => Ok(
            SubmissionResult::Acknowledged {
                message: Some(
                    text::cat3(
                        text::cat3(
                            "Undone to turn ",
                            text::number_text(c.turn_number).as_str(),
                            ". ",
                        ).as_str(),
                        text::number_text(left as u128).as_str(),
                        " undo(s) remaining.",
                    ),
                ),
            },
        ),
    }
}

/// Ends a redo: the thread gets the conversation of the checkpoint.
pub fn finish_redo(
    session: &mut Session,
    thread_id: u128,
    checkpoint: Option<Checkpoint>,
) -> (r: Result<SubmissionResult, LoopError>)
    ensures
        match checkpoint {
            None => r matches Ok(result) && result.complains("Redo failed."@) && *final(session)
                == *old(session),
            Some(c) => match old(session).thread(thread_id) {
                None => r matches Err(e) && e.misses(thread_id) && session::untouched(
                    *old(session),
                    *final(session),
                ),
                Some(_) => {
                    &&& restores(
                        *old(session),
                        *final(session),
                        thread_id,
                        chat::views(c.messages@),
                    )
                    &&& r matches Ok(result)
                    &&& result.acknowledges(
                        "Redone to turn "@ + text::decimal(c.turn_number as nat) + "."@,
                    )
                },
            },
        },
{
    let c = match checkpoint {
        None => {
            return Ok(SubmissionResult::error("Redo failed."));
        },
        Some(c) => c,
    };
    match restore(session, thread_id, &c.messages) {
        Err(e) => Err(e),
        Ok(_) => Ok(
            SubmissionResult::Acknowledged {
                message: Some(
                    text::cat3("Redone to turn ", text::number_text(c.turn_number).as_str(), "."),
                ),
            },
        ),
    }
}

/// Resumes from a checkpoint that the user named.
pub fn resume(session: &mut Session, thread_id: u128, checkpoint: Option<Checkpoint>) -> (r: Result<
    SubmissionResult,
    LoopError,
>)
    ensures
        match checkpoint {
            None => {
                &&& r matches Ok(result)
                &&& result.complains("Checkpoint not found."@)
                &&& *final(session) == *old(session)
            },
            Some(c) => match old(session).thread(thread_id) {
                None => r matches Err(e) && e.misses(thread_id) && session::untouched(
                    *old(session),
                    *final(session),
                ),
                Some(_) => {
                    &&& restores(
                        *old(session),
                        *final(session),
                        thread_id,
                        chat::views(c.messages@),
                    )
                    &&& r matches Ok(result)
                    &&& result.acknowledges("Resumed from checkpoint: "@ + c.description@)
                },
            },
        },
{
    let c = match checkpoint {
        None => {
            return Ok(SubmissionResult::error("Checkpoint not found."));
        },
        Some(c) => c,
    };
    match restore(session, thread_id, &c.messages) {
        Err(e) => Err(e),
        Ok(_) => Ok(
            SubmissionResult::Acknowledged {
                message: Some(text::cat("Resumed from checkpoint: ", c.description.as_str())),
            },
        ),
    }
}

/// Going back to a checkpoint brings back the conversation that the checkpoint was taken
/// of, whatever has happened to the thread since.
pub proof fn checkpoint_brings_back_history(
    then: Thread,
    checkpoint: Seq<chat::MessageView>,
    now: Thread,
    after: Thread,
)
    requires
        checkpoint == then.history(),
        restored(now, after, checkpoint),
    ensures
        after.history() == then.history(),
        session::exchanges(after.turns@) == session::exchanges(then.turns@),
        after.state == ThreadState::Idle,
{
    session::restore_keeps_history(then, after);
}

/// The thread can be interrupted.
pub open spec fn interruptible(state: ThreadState) -> bool {
    state == ThreadState::Processing || state == ThreadState::AwaitingApproval
}

/// What a thread is doing is interrupted, where it is doing something.
pub open spec fn interrupts(
    old: Session,
    new: Session,
    thread_id: u128,
    r: Result<SubmissionResult, LoopError>,
) -> bool {
    match old.thread(thread_id) {
        None => r matches Err(e) && e.misses(thread_id) && session::untouched(old, new),
        Some(t) => {
            &&& r matches Ok(result)
            &&& if interruptible(t.state) {
                &&& result.acknowledges("Interrupted."@)
                &&& session::refiled(
                    old,
                    new,
                    thread_id,
                    (Thread { state: ThreadState::Interrupted, ..t }),
                )
            } else {
                &&& result.acknowledges("Nothing to interrupt."@)
                &&& session::untouched(old, new)
            }
        },
    }
}

/// Interrupts what a thread is doing.
pub fn interrupt(session: &mut Session, thread_id: u128) -> (r: Result<SubmissionResult, LoopError>)
    ensures
        interrupts(*old(session), *final(session), thread_id, r),
{
    let ghost before = session.threads@;
    match session.take(thread_id) {
        None => {
            assert(session.threads@ =~= before);
            Err(LoopError::NotFound { id: thread_id })
        },
        Some(mut thread) => {
            let result = if thread.state == ThreadState::Processing || thread.state
                == ThreadState::AwaitingApproval {
                thread.interrupt();
                SubmissionResult::ok_with_message("Interrupted.")
            } else {
                SubmissionResult::ok_with_message("Nothing to interrupt.")
            };
            session.put(thread_id, thread);
            assert(session.threads@ =~= before.insert(thread_id, thread));
            proof {
                if !interruptible(before[thread_id].state) {
                    assert(session.threads@ =~= before);
                }
            }
            Ok(result)
        },
    }
}

/// All turns of a thread are dropped.
pub open spec fn clears(
    old: Session,
    new: Session,
    thread_id: u128,
    r: Result<SubmissionResult, LoopError>,
) -> bool {
    match old.thread(thread_id) {
        None => r matches Err(e) && e.misses(thread_id) && session::untouched(old, new),
        Some(t) => {
            &&& r matches Ok(result)
            &&& result.acknowledges("Thread cleared."@)
            &&& new.thread(thread_id) matches Some(n)
            &&& n == (Thread { state: ThreadState::Idle, turns: n.turns, ..t })
            &&& n.turns@.len() == 0
            &&& session::refiled(old, new, thread_id, n)
        },
    }
}

/// Drops all turns of a thread. Its checkpoints are dropped along with this.
pub fn clear(session: &mut Session, thread_id: u128) -> (r: Result<SubmissionResult, LoopError>)
    ensures
        clears(*old(session), *final(session), thread_id, r),
{
    let ghost before = session.threads@;
    match session.take(thread_id) {
        None => {
            assert(session.threads@ =~= before);
            Err(LoopError::NotFound { id: thread_id })
        },
        Some(mut thread) => {
            thread.turns = Vec::new();
            thread.state = ThreadState::Idle;
            session.put(thread_id, thread);
            assert(session.threads@ =~= before.insert(thread_id, thread));
            Ok(SubmissionResult::ok_with_message("Thread cleared."))
        },
    }
}

/// The session with a new thread that is the active one.
pub open spec fn opened(old: Session, new: Session, id: u128) -> bool {
    &&& new.wf()
    &&& new.active_thread == Some(id)
    &&& new.auto_approved_tools == old.auto_approved_tools
    &&& new.last_active_at == old.last_active_at
    &&& new.threads@.remove(id) == old.threads@.remove(id)
    &&& new.thread(id) matches Some(t)
    &&& t.fresh(None)
}

/// Opens a new thread under a given id.
pub fn new_thread_with_id(session: &mut Session, id: u128) -> (r: SubmissionResult)
    ensures
        opened(*old(session), *final(session), id),
        r.acknowledges("New thread: "@ + ids::id_text(id)),
{
    session.create_thread_with_id(id, None);
    SubmissionResult::Acknowledged {
        message: Some(text::cat("New thread: ", ids::to_text(id).as_str())),
    }
}

/// Opens a new thread under a random id.
pub fn new_thread(session: &mut Session) -> (r: SubmissionResult)
    ensures
        exists|id: u128|
            {
                &&& #[trigger] opened(*old(session), *final(session), id)
                &&& r.acknowledges("New thread: "@ + ids::id_text(id))
            },
{
    let id: u128 = ids::new_id();
    new_thread_with_id(session, id)
}

/// Makes another thread the active one.
pub fn switch_thread(session: &mut Session, target: u128) -> (r: SubmissionResult)
    ensures
        if old(session).threads@.contains_key(target) {
            &&& r.acknowledges("Switched to thread "@ + ids::id_text(target))
            &&& *final(session) == (Session { active_thread: Some(target), ..*old(session) })
        } else {
            &&& r.complains("Thread not found."@)
            &&& *final(session) == *old(session)
        },
        old(session).wf() ==> final(session).wf(),
{
    if session.switch_thread(target) {
        SubmissionResult::Acknowledged {
            message: Some(text::cat("Switched to thread ", ids::to_text(target).as_str())),
        }
    } else {
        SubmissionResult::error("Thread not found.")
    }
}

/// What a compaction did.
pub struct CompactionReport {
    pub turns_removed: usize,
    pub tokens_before: usize,
    pub tokens_after: usize,
    pub summary_written: bool,
}

/// What the user is told of a compaction. `usage` is how full the context was, in percent.
pub open spec fn compaction_text(report: CompactionReport, usage: Seq<char>) -> Seq<char> {
    "Compacted: "@ + text::decimal(report.turns_removed as nat) + " turns removed, "@
        + text::decimal(report.tokens_before as nat) + " → "@ + text::decimal(
        report.tokens_after as nat,
    ) + " tokens (was "@ + usage + "% full)"@ + if report.summary_written {
        ", summary saved to workspace"@
    } else {
        seq![]
    }
}

/// The result of a compaction that the user asked for. `usage` is how full the context was,
/// in percent, with one decimal.
pub fn conclude_compaction(outcome: Result<CompactionReport, String>, usage: &str) -> (r:
    SubmissionResult)
    ensures
        match outcome {
            Ok(report) => r.acknowledges(compaction_text(report, usage@)),
            Err(e) => r.complains("Compaction failed: "@ + e@),
        },
{
    match outcome {
        Err(e) => SubmissionResult::Error { message: text::cat("Compaction failed: ", e.as_str()) },
        Ok(report) => {
            let removed = text::cat3(
                "Compacted: ",
                text::number_text(report.turns_removed as u128).as_str(),
                " turns removed, ",
            );
            let tokens = text::cat3(
                text::number_text(report.tokens_before as u128).as_str(),
                " → ",
                text::number_text(report.tokens_after as u128).as_str(),
            );
            let full = text::cat3(" tokens (was ", usage, "% full)");
            let mut message = text::cat3(removed.as_str(), tokens.as_str(), full.as_str());
            if report.summary_written {
                message = text::cat(message.as_str(), ", summary saved to workspace");
            }
            assert(message@ =~= compaction_text(report, usage@));
            SubmissionResult::Acknowledged { message: Some(message) }
        },
    }
}

/// Going back to a checkpoint changes the conversation and nothing else that a thread keeps:
/// there is a turn for each message of the user, with the text of that message.
pub proof fn only_the_conversation_is_restored(
    old: Thread,
    new: Thread,
    messages: Seq<chat::MessageView>,
)
    requires
        restored(old, new, messages),
    ensures
        new.state == ThreadState::Idle,
        new.pending_messages == old.pending_messages,
        new.pending_approval == old.pending_approval,
        new.metadata == old.metadata,
        new.last_response_id == old.last_response_id,
        new.source_channel == old.source_channel,
        new.turns@.map_values(|t: session::Turn| t.user_input@) == session::user_texts(messages),
        forall|i: int| 0 <= i < new.turns@.len() ==> (#[trigger] new.turns@[i]).error is None,
        forall|i: int|
            0 <= i < new.turns@.len() ==> (#[trigger] new.turns@[i]).tool_calls@.len() == 0,
{
    session::exchanges_are_the_users_messages(messages);
    assert(session::exchanges(new.turns@).map_values(|e: session::Exchange| e.user_input)
        =~= new.turns@.map_values(|t: session::Turn| t.user_input@));
}

/// Only what a thread is busy with can be interrupted: a turn, or the wait for an approval.
pub proof fn busy_threads_can_be_interrupted(state: ThreadState)
    ensures
        interruptible(ThreadState::Processing),
        interruptible(ThreadState::AwaitingApproval),
        !interruptible(ThreadState::Idle),
        !interruptible(ThreadState::Interrupted),
        !interruptible(ThreadState::Completed),
{
}

/// A new thread is the active one, is empty and idle, and leaves every other thread as it
/// was.
pub proof fn new_threads_start_empty(old: Session, new: Session, id: u128, other: u128)
    requires
        opened(old, new, id),
        other != id,
    ensures
        new.active_thread == Some(id),
        new.thread(id) matches Some(t) && {
            &&& t.turns@.len() == 0
            &&& t.state == ThreadState::Idle
            &&& t.pending_messages@.len() == 0
            &&& t.pending_approval is None
            &&& t.pending_auth is None
        },
        new.thread(other) == old.thread(other),
        new.auto_approved_tools == old.auto_approved_tools,
{
    assert(new.threads@.remove(id).contains_key(other) <==> new.threads@.contains_key(other));
    assert(old.threads@.remove(id).contains_key(other) <==> old.threads@.contains_key(other));
    if new.threads@.contains_key(other) {
        assert(new.threads@.remove(id)[other] == new.threads@[other]);
        assert(old.threads@.remove(id)[other] == old.threads@[other]);
    }
}

/// The report of a compaction says how many turns are gone, how many tokens there were and
/// are, in this order, and how full the context was; it ends with a note on the summary
/// exactly where one was written.
pub proof fn compactions_are_reported(report: CompactionReport, usage: Seq<char>)
    ensures
        ({
            let t = compaction_text(report, usage);
            let removed = text::decimal(report.turns_removed as nat);
            let before = text::decimal(report.tokens_before as nat);
            let after = text::decimal(report.tokens_after as nat);
            let note = ", summary saved to workspace"@;
            &&& submission::names(t, removed)
            &&& submission::names(t, before + " → "@ + after)
            &&& submission::names(t, usage)
            &&& report.summary_written ==> t.len() >= note.len() && t.skip(t.len() - note.len())
                == note
            &&& !report.summary_written ==> t.last() == ')'
        }),
{
    let t = compaction_text(report, usage);
    let removed = text::decimal(report.turns_removed as nat);
    let before = text::decimal(report.tokens_before as nat);
    let after = text::decimal(report.tokens_after as nat);
    let one = "Compacted: "@;
    let two = " turns removed, "@;
    let three = " → "@;
    let four = " tokens (was "@;
    let five = "% full)"@;
    reveal_strlit("% full)");
    let end = if report.summary_written {
        ", summary saved to workspace"@
    } else {
        seq![]
    };
    let tokens = before + three + after;
    submission::parts_are_held(one, removed, two + tokens + four + usage + five + end);
    assert(t =~= one + removed + (two + tokens + four + usage + five + end));
    submission::parts_are_held(one + removed + two, tokens, four + usage + five + end);
    assert(t =~= one + removed + two + tokens + (four + usage + five + end));
    submission::parts_are_held(one + removed + two + tokens + four, usage, five + end);
    assert(t =~= one + removed + two + tokens + four + usage + (five + end));
    if report.summary_written {
        assert(t.skip(t.len() - end.len()) =~= end);
    } else {
        assert(t.last() == five.last());
    }
}

/// Going back to a checkpoint touches the thread that it is for and nothing else of the
/// session.
pub proof fn only_one_thread_is_restored(
    old: Session,
    new: Session,
    id: u128,
    messages: Seq<chat::MessageView>,
    other: u128,
    tool: Seq<char>,
)
    requires
        restores(old, new, id, messages),
        other != id,
    ensures
        new.thread(other) == old.thread(other),
        new.active_thread == old.active_thread,
        new.last_active_at == old.last_active_at,
        new.auto_approves(tool) == old.auto_approves(tool),
        new.thread(id) matches Some(n) && {
            &&& n.state == ThreadState::Idle
            &&& n.turns@.map_values(|t: session::Turn| t.user_input@) == session::user_texts(
                messages,
            )
        },
{
    only_the_conversation_is_restored(old.thread(id)->0, new.thread(id)->0, messages);
}

/// Opening a thread leaves the session sound: the active thread is one of its threads, and the
/// moment of its last use stays.
pub proof fn new_threads_keep_the_session_sound(old: Session, new: Session, id: u128)
    requires
        opened(old, new, id),
    ensures
        new.threads@.contains_key(id),
        new.wf(),
        new.last_active_at == old.last_active_at,
        new.thread(id)->0.source_channel is None,
{
}

/// Interrupting stops a turn and the wait for an approval, and keeps the conversation; a
/// thread that does neither stays as it is. Other threads are not touched.
pub proof fn interruptions_stop_what_is_under_way(
    old: Session,
    new: Session,
    id: u128,
    r: Result<SubmissionResult, LoopError>,
    other: u128,
)
    requires
        interrupts(old, new, id, r),
        other != id,
    ensures
        new.thread(other) == old.thread(other),
        new.active_thread == old.active_thread,
        old.thread(id) is None ==> r == Err::<SubmissionResult, LoopError>(
            LoopError::NotFound { id },
        ) && new.thread(id) is None,
        old.thread(id) matches Some(t) ==> {
            &&& r is Ok
            &&& r->Ok_0 is Acknowledged
            &&& new.thread(id) matches Some(n)
            &&& n.turns == t.turns
            &&& n.pending_messages == t.pending_messages
            &&& if t.state == ThreadState::Processing || t.state == ThreadState::AwaitingApproval {
                n.state == ThreadState::Interrupted
            } else {
                n == t
            }
        },
{
}

/// Clearing a thread leaves it idle and without a conversation, and touches no other.
pub proof fn cleared_threads_are_empty(
    old: Session,
    new: Session,
    id: u128,
    r: Result<SubmissionResult, LoopError>,
    other: u128,
)
    requires
        clears(old, new, id, r),
        other != id,
    ensures
        new.thread(other) == old.thread(other),
        new.active_thread == old.active_thread,
        old.thread(id) is None ==> r == Err::<SubmissionResult, LoopError>(
            LoopError::NotFound { id },
        ),
        old.thread(id) matches Some(t) ==> {
            &&& r is Ok
            &&& r->Ok_0 is Acknowledged
            &&& new.thread(id) matches Some(n)
            &&& n.history().len() == 0
            &&& n.state == ThreadState::Idle
            &&& n.pending_messages == t.pending_messages
        },
{
    if let Some(n) = new.thread(id) {
        if old.thread(id) is Some {
            session::no_turns_no_history(n);
        }
    }
}

} // verus!
