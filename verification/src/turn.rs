//! One turn of a thread: taking the user's text in, and ending the turn.

use vstd::prelude::*;

use crate::agentic::AgenticLoopResult;
use crate::chat;
use crate::chat::ChatMessage;
use crate::json;
use crate::notice;
use crate::notice::Notice;
use crate::session;
use crate::session::{PendingApproval, Session, Thread, ThreadState};
use crate::submission::{LoopError, SubmissionResult};
use crate::text;

verus! {

broadcast use vstd::std_specs::hash::group_hash_axioms;

/// One thing that a validation found wrong.
pub struct ValidationIssue {
    pub field: String,
    pub message: String,
}

/// What a violated safety rule demands.
#[derive(Clone, Copy, Debug, PartialEq, Eq, Structural)]
pub enum PolicyAction {
    Block,
    /// Anything short of blocking.
    Report,
}

/// The lines of a list of issues.
pub open spec fn issue_lines(issues: Seq<ValidationIssue>) -> Seq<Seq<char>> {
    issues.map_values(|i: ValidationIssue| i.field@ + ": "@ + i.message@)
}

/// The issues in one line.
pub open spec fn details(issues: Seq<ValidationIssue>) -> Seq<char> {
    text::joined(issue_lines(issues), "; "@)
}

/// The issues in one line.
pub fn issue_details(issues: &Vec<ValidationIssue>) -> (r: String)
    ensures
        r@ == details(issues@),
{
    let mut lines: Vec<String> = Vec::new();
    let mut i: usize = 0;
    while i < issues.len()
        invariant
            i <= issues@.len(),
            text::texts(lines@) =~= issue_lines(issues@).take(i as int),
        decreases issues@.len() - i,
    {
        let ghost done = text::texts(lines@);
        let line = text::cat3(issues[i].field.as_str(), ": ", issues[i].message.as_str());
        assert(issue_lines(issues@)[i as int] == line@);
        lines.push(line);
        assert(text::texts(lines@) =~= done.push(line@));
        i = i + 1;
    }
    assert(issue_lines(issues@).take(issues@.len() as int) =~= issue_lines(issues@));
    text::join(&lines, "; ")
}

/// What a thread that takes no user text answers it with.
pub open spec fn busy_text(state: ThreadState) -> Option<Seq<char>> {
    match state {
        ThreadState::AwaitingApproval => Some("Waiting for approval. Use /interrupt to cancel."@),
        ThreadState::Completed => Some("Thread completed. Use /thread new."@),
        ThreadState::Processing => None,
        ThreadState::Idle => None,
        ThreadState::Interrupted => None,
    }
}

/// What user text is answered with that has to wait for the turn under way.
pub open spec fn queued_text() -> Seq<char> {
    "Message queued."@
}

/// A thread takes user text, puts it into its queue or refuses it.
pub open spec fn admits(
    old: Session,
    new: Session,
    thread_id: u128,
    content: Seq<char>,
    r: Result<Option<SubmissionResult>, LoopError>,
) -> bool {
    match old.thread(thread_id) {
        None => r matches Err(e) && e.misses(thread_id) && new == old,
        Some(t) => if t.state == ThreadState::Processing {
            &&& r matches Ok(Some(result))
            &&& result.acknowledges(queued_text())
            &&& new.thread(thread_id) matches Some(n)
            &&& session::queued(t, n, content)
            &&& session::refiled(old, new, thread_id, n)
        } else {
            &&& new == old
            &&& r matches Ok(refusal)
            &&& match busy_text(t.state) {
                Some(s) => refusal matches Some(result) && result.complains(s),
                None => refusal is None,
            }
        },
    }
}

/// Decides whether a thread can take user text: `Ok(None)` where it can, and otherwise the
/// result to end with. A thread that is in a turn queues the text until the turn is over.
pub fn admit_text(session: &mut Session, thread_id: u128, content: &str) -> (r: Result<
    Option<SubmissionResult>,
    LoopError,
>)
    ensures
        admits(*old(session), *final(session), thread_id, content@, r),
{
    let state = match session.thread_state(thread_id) {
        Some(s) => s,
        None => {
            return Err(LoopError::NotFound { id: thread_id });
        },
    };
    Ok(
        match state {
            ThreadState::Processing => {
                let ghost before = session.threads@;
                if let Some(mut thread) = session.take(thread_id) {
                    thread.queue_message(content.to_owned());
                    session.put(thread_id, thread);
                    assert(session.threads@ =~= before.insert(thread_id, thread));
                }
                Some(SubmissionResult::ok_with_message("Message queued."))
            },
            ThreadState::AwaitingApproval => Some(
                SubmissionResult::error("Waiting for approval. Use /interrupt to cancel."),
            ),
            ThreadState::Completed => Some(
                SubmissionResult::error("Thread completed. Use /thread new."),
            ),
            ThreadState::Idle => None,
            ThreadState::Interrupted => None,
        },
    )
}

/// Some rule demands to block.
pub open spec fn blocks(violations: Seq<PolicyAction>) -> bool {
    violations.contains(PolicyAction::Block)
}

/// Decides whether user text passes the safety checks: `None` where it does, and otherwise
/// the result to end with. The validation comes before the policy.
pub fn check_input(
    is_valid: bool,
    issues: &Vec<ValidationIssue>,
    violations: &Vec<PolicyAction>,
) -> (r: Option<SubmissionResult>)
    ensures
        if !is_valid {
            r matches Some(result) && result.complains(
                "Input rejected by safety validation: "@ + details(issues@),
            )
        } else if blocks(violations@) {
            r matches Some(result) && result.complains("Input rejected by safety policy."@)
        } else {
            r is None
        },
{
    if !is_valid {
        let message = text::cat(
            "Input rejected by safety validation: ",
            issue_details(issues).as_str(),
        );
        return Some(SubmissionResult::Error { message });
    }
    let mut i: usize = 0;
    while i < violations.len()
        invariant
            is_valid,
            i <= violations@.len(),
            forall|j: int| 0 <= j < i ==> violations@[j] != PolicyAction::Block,
        decreases violations@.len() - i,
    {
        if violations[i] == PolicyAction::Block {
            assert(violations@[i as int] == PolicyAction::Block);
            return Some(SubmissionResult::error("Input rejected by safety policy."));
        }
        i = i + 1;
    }
    None
}

/// What a checkpoint keeps of a thread.
pub struct CheckpointData {
    pub turn_number: u128,
    pub messages: Vec<ChatMessage>,
    pub description: String,
}

/// The checkpoint keeps where a thread stands.
pub open spec fn describes(c: CheckpointData, thread: Thread) -> bool {
    &&& c.turn_number == thread.turns@.len() + 1
    &&& chat::views(c.messages@) == thread.history()
    &&& c.description@ == "Before turn "@ + text::decimal((thread.turns@.len() + 1) as nat)
}

/// The checkpoint to take before a turn.
pub fn checkpoint_before_turn(session: &Session, thread_id: u128) -> (r: Result<
    CheckpointData,
    LoopError,
>)
    ensures
        match session.thread(thread_id) {
            None => r matches Err(e) && e.misses(thread_id),
            Some(t) => r matches Ok(c) && describes(c, t),
        },
{
    match session.threads.get(&thread_id) {
        None => Err(LoopError::NotFound { id: thread_id }),
        Some(thread) => Ok(
            CheckpointData {
                turn_number: thread.turn_number(),
                messages: thread.messages(),
                description: text::cat(
                    "Before turn ",
                    text::number_text(thread.turn_number()).as_str(),
                ),
            },
        ),
    }
}

/// `new` is `old` with a turn begun.
pub open spec fn turn_opened(old: Thread, new: Thread, content: Seq<char>) -> bool {
    &&& new == (Thread { state: ThreadState::Processing, turns: new.turns, ..old })
    &&& new.turns@.len() == old.turns@.len() + 1
    &&& new.turns@.drop_last() == old.turns@
    &&& new.turns@.last().user_input@ == content
    &&& new.turns@.last().response is None
    &&& new.turns@.last().error is None
    &&& new.turns@.last().tool_calls@.len() == 0
}

/// Begins a turn, and hands out the conversation with the new text at its end.
pub fn open_turn(session: &mut Session, thread_id: u128, content: &str) -> (r: Result<
    Vec<ChatMessage>,
    LoopError,
>)
    ensures
        match old(session).thread(thread_id) {
            None => r matches Err(e) && e.misses(thread_id) && session::untouched(
                *old(session),
                *final(session),
            ),
            Some(t) => {
                &&& final(session).thread(thread_id) matches Some(n)
                &&& turn_opened(t, n, content@)
                &&& session::refiled(*old(session), *final(session), thread_id, n)
                &&& r matches Ok(messages)
                &&& chat::views(messages@) == t.history().push(
                    chat::MessageView::plain(chat::Role::User, content@),
                )
            },
        },
{
    let ghost before = session.threads@;
    match session.take(thread_id) {
        None => {
            assert(session.threads@ =~= before);
            Err(LoopError::NotFound { id: thread_id })
        },
        Some(mut thread) => {
            let ghost turns = thread.turns@;
            thread.start_turn(content.to_owned());
            let messages = thread.messages();
            proof {
                let es = session::exchanges(turns);
                let e = session::exchanges(thread.turns@).last();
                assert(session::exchanges(thread.turns@) =~= es.push(e));
                session::conversation_push(es, e);
                assert(session::conversation(es) + session::exchange_messages(e)
                    =~= session::conversation(es).push(
                    chat::MessageView::plain(chat::Role::User, content@),
                ));
            }
            session.put(thread_id, thread);
            assert(session.threads@ =~= before.insert(thread_id, thread));
            Ok(messages)
        },
    }
}

/// The thread once a run of the loop has ended: answered, waiting for an approval, or
/// failed. `chain_id` is the id that the model's provider chains the next answer to.
pub open spec fn ended(
    thread: Thread,
    result: Result<AgenticLoopResult, String>,
    chain_id: Option<String>,
    next: Thread,
) -> bool {
    match result {
        Ok(AgenticLoopResult::Response(s)) => {
            &&& next == (Thread {
                state: ThreadState::Idle,
                turns: next.turns,
                last_response_id: match chain_id {
                    Some(id) => Some(id),
                    None => thread.last_response_id,
                },
                ..thread
            })
            &&& next.turns@.len() == thread.turns@.len()
            &&& thread.turns@.len() > 0 ==> {
                &&& next.turns@.drop_last() == thread.turns@.drop_last()
                &&& next.turns@.last() == (session::Turn {
                    response: next.turns@.last().response,
                    ..thread.turns@.last()
                })
                &&& json::string_of(next.turns@.last().response) == Some(s@)
            }
        },
        Ok(AgenticLoopResult::NeedApproval { pending }) => next == (Thread {
            state: ThreadState::AwaitingApproval,
            pending_approval: Some(pending),
            ..thread
        }),
        Err(e) => {
            &&& next == (Thread { state: ThreadState::Idle, turns: next.turns, ..thread })
            &&& next.turns@.len() == thread.turns@.len()
            &&& thread.turns@.len() > 0 ==> {
                &&& next.turns@.drop_last() == thread.turns@.drop_last()
                &&& next.turns@.last() == (session::Turn {
                    error: next.turns@.last().error,
                    ..thread.turns@.last()
                })
                &&& json::string_of(next.turns@.last().error) == Some(e@)
            }
        },
    }
}

/// The result that a run of the loop ends a turn with.
pub open spec fn turn_result(
    run: Result<AgenticLoopResult, String>,
    result: SubmissionResult,
) -> bool {
    match run {
        Ok(AgenticLoopResult::Response(s)) => result.replies(s@),
        Ok(AgenticLoopResult::NeedApproval { pending }) => {
            &&& result matches SubmissionResult::NeedApproval {
                request_id,
                tool_name,
                description,
                parameters,
            }
            &&& request_id == pending.request_id
            &&& tool_name@ == pending.tool_name@
            &&& description@ == pending.description@
            &&& json::json_content(parameters) == json::json_content(pending.parameters)
        },
        Err(e) => result.complains(e@),
    }
}

/// The status updates at the end of a turn. A reply has none: the turn is closed once the
/// reply has gone out.
pub open spec fn turn_notice(run: Result<AgenticLoopResult, String>) -> Seq<notice::NoticeView> {
    match run {
        Ok(AgenticLoopResult::Response(_)) => seq![],
        Ok(AgenticLoopResult::NeedApproval { pending }) => seq![
            notice::NoticeView::ApprovalNeeded {
                request_id: pending.request_id,
                tool_name: pending.tool_name@,
                description: pending.description@,
                parameters: json::json_content(pending.parameters),
            },
            notice::NoticeView::Status("Awaiting approval"@),
        ],
        Err(_) => seq![],
    }
}

/// The end of a turn: what to show, what to store, and what to hand back.
pub struct TurnEnd {
    pub notices: Vec<Notice>,
    /// The id to store with the conversation, for the model's provider to go on from.
    pub chain_id: Option<String>,
    pub result: SubmissionResult,
}

/// The id that is stored with the conversation at the end of a turn: only a reply has one.
pub open spec fn stored_chain(
    run: Result<AgenticLoopResult, String>,
    chain_id: Option<String>,
) -> Option<Seq<char>> {
    match run {
        Ok(AgenticLoopResult::Response(_)) => json::string_of(chain_id),
        _ => None,
    }
}

fn status(text: &str) -> (r: Vec<Notice>)
    ensures
        notice::notice_views(r@) == seq![notice::NoticeView::Status(text@)],
{
    let mut notices: Vec<Notice> = Vec::new();
    notices.push(Notice::Status(text.to_owned()));
    assert(notice::notice_views(notices@) =~= seq![notice::NoticeView::Status(text@)]);
    notices
}

fn approval_notices(pending: &PendingApproval) -> (r: Vec<Notice>)
    ensures
        notice::notice_views(r@) == turn_notice(
            Ok(AgenticLoopResult::NeedApproval { pending: *pending }),
        ),
{
    let mut notices: Vec<Notice> = Vec::new();
    notices.push(
        Notice::ApprovalNeeded {
            request_id: pending.request_id,
            tool_name: pending.tool_name.clone(),
            description: pending.description.clone(),
            parameters: json::copy_json(&pending.parameters),
        },
    );
    notices.push(Notice::Status("Awaiting approval".to_owned()));
    assert(notice::notice_views(notices@) =~= turn_notice(
        Ok(AgenticLoopResult::NeedApproval { pending: *pending }),
    ));
    notices
}

fn no_notices() -> (r: Vec<Notice>)
    ensures
        notice::notice_views(r@) == Seq::<notice::NoticeView>::empty(),
{
    let notices: Vec<Notice> = Vec::new();
    assert(notice::notice_views(notices@) =~= Seq::<notice::NoticeView>::empty());
    notices
}

/// Writes the end of a run into its thread.
pub fn end_turn(
    session: &mut Session,
    thread_id: u128,
    run: Result<AgenticLoopResult, String>,
    chain_id: Option<String>,
) -> (r: Result<TurnEnd, LoopError>)
    ensures
        match old(session).thread(thread_id) {
            None => r matches Err(e) && e.misses(thread_id) && session::untouched(
                *old(session),
                *final(session),
            ),
            Some(t) => {
                &&& final(session).thread(thread_id) matches Some(n)
                &&& ended(t, run, chain_id, n)
                &&& session::refiled(*old(session), *final(session), thread_id, n)
                &&& r matches Ok(end)
                &&& turn_result(run, end.result)
                &&& json::string_of(end.chain_id) == stored_chain(run, chain_id)
                &&& notice::notice_views(end.notices@) == turn_notice(run)
            },
        },
{
    let ghost before = session.threads@;
    match session.take(thread_id) {
        None => {
            assert(session.threads@ =~= before);
            Err(LoopError::NotFound { id: thread_id })
        },
        Some(mut thread) => {
            let ghost turns = thread.turns@;
            let end = match run {
                Ok(AgenticLoopResult::Response(s)) => {
                    thread.complete_turn(s.clone());
                    if let Some(id) = &chain_id {
                        thread.last_response_id = Some(id.clone());
                    }
                    assert(turns.len() > 0 ==> thread.turns@.drop_last() =~= turns.drop_last());
                    TurnEnd {
                        notices: no_notices(),
                        chain_id,
                        result: SubmissionResult::Response { content: s },
                    }
                },
                Ok(AgenticLoopResult::NeedApproval { pending }) => {
                    let result = SubmissionResult::NeedApproval {
                        request_id: pending.request_id,
                        tool_name: pending.tool_name.clone(),
                        description: pending.description.clone(),
                        parameters: json::copy_json(&pending.parameters),
                    };
                    let notices = approval_notices(&pending);
                    thread.await_approval(pending);
                    TurnEnd { notices, chain_id: None, result }
                },
                Err(e) => {
                    thread.fail_turn(e.clone());
                    assert(turns.len() > 0 ==> thread.turns@.drop_last() =~= turns.drop_last());
                    TurnEnd {
                        notices: no_notices(),
                        chain_id: None,
                        result: SubmissionResult::Error { message: e },
                    }
                },
            };
            session.put(thread_id, thread);
            assert(session.threads@ =~= before.insert(thread_id, thread));
            Ok(end)
        },
    }
}

/// Writes the end of a run that user text began into its thread. A thread that was
/// interrupted meanwhile stays as it is, and the run's result is dropped.
pub fn conclude_turn(
    session: &mut Session,
    thread_id: u128,
    run: Result<AgenticLoopResult, String>,
    chain_id: Option<String>,
) -> (r: Result<TurnEnd, LoopError>)
    ensures
        match old(session).thread(thread_id) {
            None => r matches Err(e) && e.misses(thread_id) && session::untouched(
                *old(session),
                *final(session),
            ),
            Some(t) => if t.state == ThreadState::Interrupted {
                &&& *final(session) == *old(session)
                &&& r matches Ok(end)
                &&& end.result is Interrupted
                &&& end.chain_id is None
                &&& notice::notice_views(end.notices@) == seq![
                    notice::NoticeView::Status("Interrupted"@),
                ]
            } else {
                &&& final(session).thread(thread_id) matches Some(n)
                &&& ended(t, run, chain_id, n)
                &&& session::refiled(*old(session), *final(session), thread_id, n)
                &&& r matches Ok(end)
                &&& turn_result(run, end.result)
                &&& json::string_of(end.chain_id) == stored_chain(run, chain_id)
                &&& notice::notice_views(end.notices@) == turn_notice(run)
            },
        },
{
    if session.thread_state(thread_id) == Some(ThreadState::Interrupted) {
        return Ok(
            TurnEnd {
                notices: status("Interrupted"),
                chain_id: None,
                result: SubmissionResult::Interrupted,
            },
        );
    }
    end_turn(session, thread_id, run, chain_id)
}

/// The statuses that a turn shows are not the one that closes it.
pub(crate) proof fn statuses_keep_open()
    ensures
        "Awaiting approval"@ != "Done"@,
        "Interrupted"@ != "Done"@,
        "Rejected"@ != "Done"@,
{
    reveal_strlit("Done");
    reveal_strlit("Awaiting approval");
    reveal_strlit("Interrupted");
    reveal_strlit("Rejected");
    assert("Done"@.len() == 4);
}

/// No status update at the end of a turn closes it: that is left to the one who sends the
/// reply, so that the reply comes first.
pub proof fn turn_notice_keeps_open(run: Result<AgenticLoopResult, String>)
    ensures
        notice::keep_open(turn_notice(run)),
{
    statuses_keep_open();
}

/// A thread refuses user text exactly while it waits for an approval and once it is
/// completed. One that is idle takes it, and so does one that was interrupted: an interruption
/// does not close a thread.
pub proof fn threads_take_text_unless_they_wait(state: ThreadState)
    ensures
        busy_text(state) is Some <==> state == ThreadState::AwaitingApproval || state
            == ThreadState::Completed,
        busy_text(ThreadState::AwaitingApproval) != busy_text(ThreadState::Completed),
        queued_text().len() > 0,
{
    reveal_strlit("Waiting for approval. Use /interrupt to cancel.");
    reveal_strlit("Thread completed. Use /thread new.");
    reveal_strlit("Message queued.");
    assert("Waiting for approval. Use /interrupt to cancel."@.len()
        != "Thread completed. Use /thread new."@.len());
}

/// A rule that blocks blocks, wherever it stands among the violated ones; without one nothing
/// does.
pub proof fn one_blocking_rule_is_enough(violations: Seq<PolicyAction>)
    ensures
        blocks(violations) <==> exists|i: int|
            0 <= i < violations.len() && #[trigger] violations[i] == PolicyAction::Block,
{
    if blocks(violations) {
        let i = choose|i: int| 0 <= i < violations.len() && violations[i] == PolicyAction::Block;
        assert(violations[i] == PolicyAction::Block);
    }
}

/// Every issue of a validation is told, in order: its field and its message.
pub proof fn all_issues_are_told(issues: Seq<ValidationIssue>, next: ValidationIssue)
    ensures
        details(issues.push(next)) == if issues.len() == 0 {
            next.field@ + ": "@ + next.message@
        } else {
            details(issues) + "; "@ + (next.field@ + ": "@ + next.message@)
        },
        issues.len() == 0 ==> details(issues).len() == 0,
{
    let all = issues.push(next);
    assert(issue_lines(all) =~= issue_lines(issues).push(
        next.field@ + ": "@ + next.message@,
    ));
    assert(issue_lines(all).drop_last() =~= issue_lines(issues));
}

/// A checkpoint holds the conversation as it stands and the number of the turn that comes
/// next.
pub proof fn checkpoints_hold_the_conversation(c: CheckpointData, t: Thread)
    requires
        describes(c, t),
    ensures
        chat::views(c.messages@) == t.history(),
        c.turn_number == t.turns@.len() + 1,
        c.description@.len() >= text::decimal(c.turn_number as nat).len(),
        c.description@.skip(c.description@.len() - text::decimal(c.turn_number as nat).len())
            == text::decimal(c.turn_number as nat),
{
    let d = text::decimal(c.turn_number as nat);
    assert(c.description@.skip(c.description@.len() - d.len()) =~= d);
}

/// A turn that begins adds one turn with the user's text and nothing else to the thread,
/// which is busy with it from then on.
pub proof fn turns_begin_with_the_users_text(old: Thread, new: Thread, content: Seq<char>, i: int)
    requires
        turn_opened(old, new, content),
        0 <= i < old.turns@.len(),
    ensures
        new.turns@.len() == old.turns@.len() + 1,
        new.turns@[i] == old.turns@[i],
        new.turns@.last().user_input@ == content,
        new.turns@.last().response is None,
        new.turns@.last().error is None,
        new.turns@.last().tool_calls@.len() == 0,
        new.state == ThreadState::Processing,
        new.pending_messages == old.pending_messages,
        new.pending_approval == old.pending_approval,
{
    assert(new.turns@.drop_last()[i] == old.turns@[i]);
}

/// A run that ends with a reply answers the last turn with it and leaves the thread idle; one
/// that fails marks the turn and leaves the thread idle; one that needs an approval leaves
/// the turn open and the thread waiting for that very approval. The provider goes on from the
/// answer that the reply gave, or from the one before.
pub proof fn runs_end_their_turn(
    thread: Thread,
    run: Result<AgenticLoopResult, String>,
    chain_id: Option<String>,
    next: Thread,
    result: SubmissionResult,
)
    requires
        ended(thread, run, chain_id, next),
        turn_result(run, result),
        thread.turns@.len() > 0,
    ensures
        next.turns@.len() == thread.turns@.len(),
        next.turns@.last().user_input == thread.turns@.last().user_input,
        next.turns@.last().tool_calls == thread.turns@.last().tool_calls,
        next.turns@.drop_last() == thread.turns@.drop_last(),
        next.pending_messages == thread.pending_messages,
        match run {
            Ok(AgenticLoopResult::Response(s)) => {
                &&& next.state == ThreadState::Idle
                &&& next.turns@.last().response is Some
                &&& next.turns@.last().response->0@ == s@
                &&& next.turns@.last().error == thread.turns@.last().error
                &&& result is Response
                &&& result->Response_content@ == s@
                &&& chain_id is Some ==> next.last_response_id == chain_id
                &&& chain_id is None ==> next.last_response_id == thread.last_response_id
                &&& stored_chain(run, chain_id) == json::string_of(chain_id)
            },
            Ok(AgenticLoopResult::NeedApproval { pending }) => {
                &&& next.state == ThreadState::AwaitingApproval
                &&& next.pending_approval == Some(pending)
                &&& next.turns == thread.turns
                &&& result is NeedApproval
                &&& result->request_id == pending.request_id
                &&& result->tool_name@ == pending.tool_name@
                &&& result->description@ == pending.description@
                &&& json::json_content(result->parameters) == json::json_content(
                    pending.parameters,
                )
                &&& stored_chain(run, chain_id) is None
            },
            Err(e) => {
                &&& next.state == ThreadState::Idle
                &&& next.turns@.last().error is Some
                &&& next.turns@.last().error->0@ == e@
                &&& next.turns@.last().response == thread.turns@.last().response
                &&& next.last_response_id == thread.last_response_id
                &&& result is Error
                &&& result->Error_message@ == e@
                &&& stored_chain(run, chain_id) is None
            },
        },
{
}

/// A turn that needs an approval says so with the request itself, and only such a turn does.
pub proof fn approvals_are_announced(run: Result<AgenticLoopResult, String>)
    ensures
        run matches Ok(AgenticLoopResult::NeedApproval { pending }) ==> {
            &&& turn_notice(run).len() > 0
            &&& turn_notice(run)[0] matches notice::NoticeView::ApprovalNeeded {
                request_id,
                tool_name,
                description,
                parameters,
            }
            &&& request_id == pending.request_id
            &&& tool_name == pending.tool_name@
            &&& description == pending.description@
            &&& parameters == json::json_content(pending.parameters)
        },
        !(run is Ok && run->Ok_0 is NeedApproval) ==> turn_notice(run).len() == 0,
{
}

/// A thread that is idle or was interrupted takes user text, and nothing has changed yet. One
/// that waits for an approval or is completed refuses it with an error and stays as it is, and
/// one that is in a turn keeps it for later. There is no other outcome.
pub proof fn text_is_taken_refused_or_kept(
    old: Session,
    new: Session,
    thread_id: u128,
    content: Seq<char>,
    r: Result<Option<SubmissionResult>, LoopError>,
)
    requires
        admits(old, new, thread_id, content, r),
    ensures
        match old.thread(thread_id) {
            None => r == Err::<Option<SubmissionResult>, LoopError>(
                LoopError::NotFound { id: thread_id },
            ) && new == old,
            Some(t) => match t.state {
                ThreadState::Idle => r == Ok::<Option<SubmissionResult>, LoopError>(None) && new
                    == old,
                ThreadState::Interrupted => r == Ok::<Option<SubmissionResult>, LoopError>(None)
                    && new == old,
                ThreadState::AwaitingApproval => r is Ok && r->Ok_0 is Some && r->Ok_0->0 is Error
                    && new == old,
                ThreadState::Completed => r is Ok && r->Ok_0 is Some && r->Ok_0->0 is Error && new
                    == old,
                ThreadState::Processing => {
                    &&& r is Ok
                    &&& r->Ok_0 is Some
                    &&& r->Ok_0->0 is Acknowledged
                    &&& new.thread(thread_id) matches Some(n)
                    &&& n.turns == t.turns
                    &&& n.state == t.state
                    &&& text::texts(n.pending_messages@) == text::texts(
                        t.pending_messages@,
                    ).push(content)
                },
            },
        },
{
    if let Some(t) = old.thread(thread_id) {
        if t.state == ThreadState::Processing {
            session::queued_text_waits_at_the_end(t, new.thread(thread_id)->0, content);
        }
    }
}

} // verus!
