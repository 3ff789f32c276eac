//! Approvals of tool executions.

use vstd::prelude::*;

use crate::agentic;
use crate::auth;
use crate::chat;
use crate::chat::ChatMessage;
use crate::json;
use crate::notice;
use crate::notice::Notice;
use crate::session;
use crate::session::{PendingApproval, Session, Thread, ThreadState};
use crate::submission::{LoopError, SubmissionResult};
use crate::text;

verus! {

broadcast use vstd::std_specs::hash::group_hash_axioms;

/// A bare keyword such as "yes" counts as an approval only while one is awaited; a slash
/// command always does.
pub open spec fn routes_as_approval(state: ThreadState, content: Seq<char>) -> bool {
    state == ThreadState::AwaitingApproval || text::begins_with(text::trimmed(content), "/"@)
}

/// Whether a text that reads like an approval is routed as one.
pub fn should_route_as_approval(thread_state: ThreadState, raw_content: &str) -> (r: bool)
    ensures
        r == routes_as_approval(thread_state, raw_content@),
{
    thread_state == ThreadState::AwaitingApproval || text::starts_with(
        text::trim(raw_content),
        "/",
    )
}

/// How an approval that names a thread is bound to it.
#[derive(Clone, Copy, Debug, PartialEq, Eq, Structural)]
pub enum Binding {
    /// The thread is not loaded: it has to be resolved elsewhere.
    Absent,
    /// The thread waits for no approval.
    NothingPending,
    /// The channel may not approve for this thread.
    NotAuthorized,
    /// The thread is now the active one.
    Bound,
}

/// How an approval is bound to the thread that it names. `explicit` says that it carries
/// the id of a request, `authorized` that its channel may approve for the thread.
pub open spec fn binding(thread: Option<Thread>, explicit: bool, authorized: bool) -> Binding {
    match thread {
        None => Binding::Absent,
        Some(t) => if t.pending_approval is None {
            if explicit {
                Binding::NothingPending
            } else {
                Binding::Bound
            }
        } else if authorized {
            Binding::Bound
        } else {
            Binding::NotAuthorized
        },
    }
}

/// The session once an approval has been bound: a refused one changes nothing.
pub open spec fn bound(
    session: Session,
    target: u128,
    explicit: bool,
    authorized: bool,
    now: i64,
) -> Session {
    if binding(session.thread(target), explicit, authorized) == Binding::Bound {
        Session { active_thread: Some(target), last_active_at: now, ..session }
    } else {
        session
    }
}

/// Binds an approval to the thread that it names.
pub fn bind_approval_target(
    session: &mut Session,
    target: u128,
    explicit: bool,
    authorized: bool,
    now: i64,
) -> (r: Binding)
    ensures
        r == binding(old(session).thread(target), explicit, authorized),
        *final(session) == bound(*old(session), target, explicit, authorized, now),
{
    let pending: bool = match session.threads.get(&target) {
        None => {
            return Binding::Absent;
        },
        Some(thread) => thread.pending_approval.is_some(),
    };
    if !pending && explicit {
        return Binding::NothingPending;
    }
    if pending && !authorized {
        return Binding::NotAuthorized;
    }
    session.active_thread = Some(target);
    session.last_active_at = now;
    Binding::Bound
}

impl Binding {
    /// What a refused approval is answered.
    pub open spec fn refusal(self) -> Option<Seq<char>> {
        match self {
            Binding::NothingPending => Some("Error: no pending approval on this thread"@),
            Binding::NotAuthorized => Some("Error: approval not authorized for this channel"@),
            _ => None,
        }
    }

    /// What a refused approval is answered.
    pub fn refusal_text(self) -> (r: Option<&'static str>)
        ensures
            json::text_of(r) == self.refusal(),
    {
        match self {
            Binding::NothingPending => Some("Error: no pending approval on this thread"),
            Binding::NotAuthorized => Some("Error: approval not authorized for this channel"),
            _ => None,
        }
    }
}

/// An approval that is refused, or whose thread is not loaded, makes no thread the active
/// one; in particular one with the id of a request does not where nothing is pending.
pub proof fn refused_approvals_switch_nothing(
    session: Session,
    target: u128,
    explicit: bool,
    authorized: bool,
    now: i64,
)
    ensures
        ({
            let b = binding(session.thread(target), explicit, authorized);
            let after = bound(session, target, explicit, authorized, now);
            &&& b != Binding::Bound ==> after == session
            &&& b.refusal() is Some ==> b != Binding::Bound
            &&& b == Binding::Bound ==> session.threads@.contains_key(target)
            &&& after.threads == session.threads
            &&& session.wf() ==> after.wf()
        }),
        (session.thread(target) matches Some(t) && t.pending_approval is None) ==> bound(
            session,
            target,
            true,
            authorized,
            now,
        ) == session,
{
}

/// The next step with an answer to an approval request.
pub enum ApprovalStep {
    /// There is nothing to do but to answer.
    Refused(SubmissionResult),
    /// The request was turned down.
    Rejected { notice: Notice, result: SubmissionResult },
    /// The tool runs: show the status update, then run it.
    Execute { notice: Notice, pending: PendingApproval },
}

/// What an answer to an approval request comes to.
pub enum Verdict {
    NothingPending,
    WrongRequest,
    Rejected,
    Approved,
}

/// What an answer to an approval request comes to on a thread.
pub open spec fn verdict(thread: Thread, request_id: Option<u128>, approved: bool) -> Verdict {
    if thread.state != ThreadState::AwaitingApproval {
        Verdict::NothingPending
    } else {
        match thread.pending_approval {
            None => Verdict::NothingPending,
            Some(p) => if request_id is Some && request_id->0 != p.request_id {
                Verdict::WrongRequest
            } else if approved {
                Verdict::Approved
            } else {
                Verdict::Rejected
            },
        }
    }
}

/// What the user is told when a tool was turned down.
pub open spec fn rejection_text(tool: Seq<char>) -> Seq<char> {
    "Tool '"@ + tool
        + "' was rejected. The agent will not execute this tool.\n\nYou can continue the conversation or try a different approach."@
}

/// The step that a verdict leads to.
pub open spec fn follows(step: ApprovalStep, thread: Thread, verdict: Verdict) -> bool {
    match verdict {
        Verdict::NothingPending => step matches ApprovalStep::Refused(r) && r.complains(
            "No pending approval request."@,
        ),
        Verdict::WrongRequest => step matches ApprovalStep::Refused(r) && r.complains(
            "Request ID mismatch. Use the correct request ID."@,
        ),
        Verdict::Rejected => step matches ApprovalStep::Rejected { notice, result } && notice@
            == notice::NoticeView::Status("Rejected"@) && result.replies(
            rejection_text(thread.pending_approval->0.tool_name@),
        ),
        Verdict::Approved => step matches ApprovalStep::Execute { notice, pending } && notice@ == (
        notice::NoticeView::ToolStarted { name: pending.tool_name@ }) && Some(pending)
            == thread.pending_approval,
    }
}

/// The thread once a verdict has been given.
pub open spec fn judged(thread: Thread, verdict: Verdict) -> Thread {
    match verdict {
        Verdict::NothingPending => thread,
        Verdict::WrongRequest => thread,
        Verdict::Rejected => Thread {
            state: ThreadState::Idle,
            pending_approval: None,
            ..thread
        },
        Verdict::Approved => Thread {
            state: ThreadState::Processing,
            pending_approval: None,
            ..thread
        },
    }
}

/// Takes in an answer to an approval request. An answer to another request leaves the
/// pending one in place; `always` lets the tool run without asking from then on.
pub fn begin_approval(
    session: &mut Session,
    thread_id: u128,
    request_id: Option<u128>,
    approved: bool,
    always: bool,
) -> (r: Result<ApprovalStep, LoopError>)
    ensures
        match old(session).thread(thread_id) {
            None => r matches Err(e) && e.misses(thread_id) && session::untouched(
                *old(session),
                *final(session),
            ),
            Some(t) => {
                let v = verdict(t, request_id, approved);
                &&& r matches Ok(step)
                &&& follows(step, t, v)
                &&& final(session).threads@ == old(session).threads@.insert(
                    thread_id,
                    judged(t, v),
                )
                &&& final(session).active_thread == old(session).active_thread
                &&& final(session).last_active_at == old(session).last_active_at
                &&& forall|tool: Seq<char>| #[trigger]
                    final(session).auto_approves(tool) <==> old(session).auto_approves(tool) || (
                    v is Approved && always && tool == t.pending_approval->0.tool_name@)
            },
        },
{
    let ghost before = session.threads@;
    let mut thread = match session.take(thread_id) {
        None => {
            assert(session.threads@ =~= before);
            return Err(LoopError::NotFound { id: thread_id });
        },
        Some(thread) => thread,
    };
    let ghost was = thread;
    let step = if thread.state != ThreadState::AwaitingApproval {
        ApprovalStep::Refused(SubmissionResult::error("No pending approval request."))
    } else {
        match thread.take_pending_approval() {
            None => ApprovalStep::Refused(SubmissionResult::error("No pending approval request.")),
            Some(pending) => {
                let mismatch: bool = match request_id {
                    Some(id) => id != pending.request_id,
                    None => false,
                };
                if mismatch {
                    thread.await_approval(pending);
                    ApprovalStep::Refused(
                        SubmissionResult::error("Request ID mismatch. Use the correct request ID."),
                    )
                } else if approved {
                    if always {
                        session.auto_approve_tool(pending.tool_name.as_str());
                    }
                    thread.state = ThreadState::Processing;
                    ApprovalStep::Execute {
                        notice: Notice::ToolStarted { name: pending.tool_name.clone() },
                        pending,
                    }
                } else {
                    thread.clear_pending_approval();
                    ApprovalStep::Rejected {
                        notice: Notice::Status("Rejected".to_owned()),
                        result: SubmissionResult::Response {
                            content: text::cat3(
                                "Tool '",
                                pending.tool_name.as_str(),
                                "' was rejected. The agent will not execute this tool.\n\nYou can continue the conversation or try a different approach.",
                            ),
                        },
                    }
                }
            },
        }
    };
    let ghost mid = *session;
    session.put(thread_id, thread);
    assert(session.threads@ =~= before.insert(thread_id, thread));
    assert forall|tool: Seq<char>| #[trigger]
        session.auto_approves(tool) <==> old(session).auto_approves(tool) || (verdict(
            was,
            request_id,
            approved,
        ) is Approved && always && tool == was.pending_approval->0.tool_name@) by {
        assert(session.auto_approves(tool) == mid.auto_approves(tool));
    }
    Ok(step)
}

/// The next step once an approved tool has run.
pub enum ApprovedStep {
    /// A token is awaited: show the status updates and answer with the instructions.
    Reply { notices: Vec<Notice>, result: SubmissionResult },
    /// Show the status updates, make the output safe to show to the model, then resume.
    Wrap { notices: Vec<Notice>, output: String },
    /// Show the status updates, then resume with this text as the tool's result.
    Resume { notices: Vec<Notice>, content: String },
}

/// The step that a tool's outcome leads to.
pub open spec fn follows_tool(
    step: ApprovedStep,
    tool: Seq<char>,
    outcome: Result<String, String>,
) -> bool {
    let shown = notice::tool_ended(tool, outcome);
    let content = auth::output_content(outcome);
    match auth::token_request(tool, content) {
        Some(request) => step matches ApprovedStep::Reply { notices, result }
            && notice::notice_views(notices@) == shown.push(
            auth::token_notice(request, content),
        ) && result.replies(request.1),
        None => match outcome {
            Ok(output) => step matches ApprovedStep::Wrap { notices, output: o }
                && notice::notice_views(notices@) == shown && o@ == output@,
            Err(e) => step matches ApprovedStep::Resume { notices, content: c }
                && notice::notice_views(notices@) == shown && c@ == "Error: "@ + e@,
        },
    }
}

/// The thread once an approved tool has run: the outcome is recorded, and where a token is
/// awaited the thread is in auth mode and the turn is answered with the instructions.
pub open spec fn tool_recorded(
    old: Thread,
    new: Thread,
    tool: Seq<char>,
    outcome: Result<String, String>,
) -> bool {
    match auth::token_request(tool, auth::output_content(outcome)) {
        None => agentic::settled(old, new, outcome, None),
        Some(request) => exists|mid: Thread, answer: String|
            {
                &&& #[trigger] agentic::settled(old, mid, outcome, Some(request.0))
                &&& answer@ == request.1
                &&& new == (Thread { state: ThreadState::Idle, turns: new.turns, ..mid })
                &&& new.turns@ == #[trigger] session::answered(mid.turns@, answer)
            },
    }
}

/// Takes in what an approved tool gave back.
pub fn after_approved_tool(
    session: &mut Session,
    thread_id: u128,
    tool_name: &str,
    outcome: Result<String, String>,
) -> (r: ApprovedStep)
    ensures
        follows_tool(r, tool_name@, outcome),
        session::updated(
            *old(session),
            *final(session),
            thread_id,
            final(session).thread(thread_id),
        ),
        old(session).thread(thread_id) is Some <==> final(session).thread(thread_id) is Some,
        old(session).thread(thread_id) matches Some(t) ==> tool_recorded(
            t,
            final(session).thread(thread_id)->0,
            tool_name@,
            outcome,
        ),
{
    let ghost before = session.threads@;
    let ghost first = *session;
    let mut notices = notice::tool_ended_notices(tool_name, &outcome);
    let ghost shown = notice::notice_views(notices@);
    match auth::detect_auth_awaiting(tool_name, &outcome) {
        Some(request) => {
            let links = auth::parse_auth_result(&outcome);
            agentic::settle(session, thread_id, &outcome, Some(request.extension_name.as_str()));
            let ghost second = *session;
            let required = auth::auth_required(&request, links);
            notices.push(required);
            assert(notice::notice_views(notices@) =~= shown.push(required@));
            match session.take(thread_id) {
                Some(mut thread) => {
                    let answer = request.instructions.clone();
                    let ghost mid = thread;
                    thread.complete_turn(answer);
                    session.put(thread_id, thread);
                    assert(session.threads@ =~= before.insert(thread_id, thread));
                    assert(agentic::settled(
                        first.thread(thread_id)->0,
                        mid,
                        outcome,
                        Some(request.extension_name@),
                    ));
                    assert(thread.turns@ == session::answered(mid.turns@, answer));
                },
                None => {
                    assert(session.threads@ =~= before);
                },
            }
            ApprovedStep::Reply {
                notices,
                result: SubmissionResult::Response { content: request.instructions },
            }
        },
        None => {
            agentic::settle(session, thread_id, &outcome, None);
            match outcome {
                Ok(output) => ApprovedStep::Wrap { notices, output },
                Err(e) => ApprovedStep::Resume {
                    notices,
                    content: text::cat("Error: ", e.as_str()),
                },
            }
        },
    }
}

/// The context to resume the loop with: that of the request, and the tool's result.
pub fn resumed_context(pending: PendingApproval, content: String) -> (r: Vec<ChatMessage>)
    ensures
        chat::views(r@) == chat::views(pending.context_messages@).push(
            chat::MessageView::tool_result(
                pending.tool_call_id@,
                pending.tool_name@,
                content@,
            ),
        ),
{
    let mut messages = pending.context_messages;
    let ghost before = chat::views(messages@);
    let message = ChatMessage::tool_result(
        pending.tool_call_id.as_str(),
        pending.tool_name.as_str(),
        content,
    );
    messages.push(message);
    assert(chat::views(messages@) =~= before.push(message@));
    messages
}

/// A run that is resumed after an approval sees the tool's result after the call that it
/// answers, as every run does.
pub proof fn resumed_context_is_announced(
    run: agentic::LoopView,
    pending: PendingApproval,
    resumed: Seq<chat::MessageView>,
    content: Seq<char>,
)
    requires
        run.wf(),
        run.busy(),
        agentic::announced(run.messages),
        agentic::calls_stand(run),
        agentic::asks_approval(pending, run.call(), pending.description@, run.messages),
        resumed == chat::views(pending.context_messages@).push(
            chat::MessageView::tool_result(pending.tool_call_id@, pending.tool_name@, content),
        ),
    ensures
        agentic::announced(resumed),
{
    let j = choose|j: int|
        0 <= j < run.messages.len() && (#[trigger] run.messages[j]).role == chat::Role::Assistant
            && run.messages[j].tool_calls == run.calls;
    let m = chat::MessageView::tool_result(pending.tool_call_id@, pending.tool_name@, content);
    assert(run.messages[j].tool_calls[run.position] == run.call());
    assert(agentic::asks_for(run.messages[j], m.tool_call_id));
    agentic::announced_push(run.messages, m);
}

/// A tool that was turned down does not run, and only an approval of the pending request
/// lets it: no other answer leads to its execution or changes what the thread waits for.
pub proof fn only_approval_executes(
    thread: Thread,
    step: ApprovalStep,
    request_id: Option<u128>,
    approved: bool,
)
    requires
        follows(step, thread, verdict(thread, request_id, approved)),
    ensures
        step is Execute ==> {
            &&& approved
            &&& thread.state == ThreadState::AwaitingApproval
            &&& thread.pending_approval matches Some(p)
            &&& request_id is Some ==> request_id->0 == p.request_id
            &&& step->Execute_pending == p
        },
        step is Refused ==> judged(thread, verdict(thread, request_id, approved)) == thread,
{
}

/// A text that reads like an approval is one while the thread waits for it, and otherwise
/// only where it is a slash command.
pub proof fn answers_count_while_awaited(state: ThreadState, content: Seq<char>)
    ensures
        state == ThreadState::AwaitingApproval ==> routes_as_approval(state, content),
        state != ThreadState::AwaitingApproval ==> (routes_as_approval(state, content) <==> {
            &&& text::trimmed(content).len() > 0
            &&& text::trimmed(content)[0] == '/'
        }),
{
    reveal_strlit("/");
    let t = text::trimmed(content);
    if t.len() > 0 {
        assert(t.take(1) =~= seq![t[0]]);
        assert("/"@ =~= seq!['/']);
        assert(t.take(1)[0] == t[0]);
    }
}

/// An approval that names a thread makes it the active one, at that moment, unless the thread
/// is not loaded, nothing is pending for the request that it names, or its channel may not
/// approve what is pending. Each refusal is told apart, and only refusals are answered.
pub proof fn approvals_bind_to_their_thread(
    session: Session,
    target: u128,
    explicit: bool,
    authorized: bool,
    now: i64,
)
    ensures
        ({
            let b = binding(session.thread(target), explicit, authorized);
            let after = bound(session, target, explicit, authorized, now);
            match session.thread(target) {
                None => b == Binding::Absent && b.refusal() is None && after == session,
                Some(t) => if t.pending_approval is Some && !authorized {
                    b == Binding::NotAuthorized && b.refusal() is Some && after == session
                } else if t.pending_approval is None && explicit {
                    b == Binding::NothingPending && b.refusal() is Some && after == session
                } else {
                    &&& b == Binding::Bound
                    &&& b.refusal() is None
                    &&& after.active_thread == Some(target)
                    &&& after.last_active_at == now
                    &&& after.threads == session.threads
                    &&& after.auto_approved_tools == session.auto_approved_tools
                },
            }
        }),
        Binding::NothingPending.refusal() != Binding::NotAuthorized.refusal(),
{
    reveal_strlit("Error: no pending approval on this thread");
    reveal_strlit("Error: approval not authorized for this channel");
    assert("Error: no pending approval on this thread"@.len()
        != "Error: approval not authorized for this channel"@.len());
}

/// An answer is taken at its word: an approval of what is pending runs that very tool, a
/// rejection turns it down, and either way the thread waits no longer. An answer to another
/// request, or to none, changes nothing.
pub proof fn answers_are_taken_at_their_word(
    thread: Thread,
    after: Thread,
    request_id: Option<u128>,
    approved: bool,
    step: ApprovalStep,
)
    requires
        follows(step, thread, verdict(thread, request_id, approved)),
        after == judged(thread, verdict(thread, request_id, approved)),
    ensures
        ({
            let pending = thread.state == ThreadState::AwaitingApproval
                && thread.pending_approval is Some;
            let meant = pending && (request_id is None || request_id->0
                == thread.pending_approval->0.request_id);
            &&& step is Execute <==> meant && approved
            &&& step is Rejected <==> meant && !approved
            &&& step is Refused <==> !meant
            &&& step is Refused ==> after == thread
            &&& step is Refused ==> step->Refused_0 is Error
            &&& meant ==> {
                &&& after.pending_approval is None
                &&& after.turns == thread.turns
                &&& after.pending_messages == thread.pending_messages
                &&& after.metadata == thread.metadata
                &&& after.state == if approved {
                    ThreadState::Processing
                } else {
                    ThreadState::Idle
                }
            }
            &&& step matches ApprovalStep::Execute { notice, pending } ==> {
                &&& Some(pending) == thread.pending_approval
                &&& notice@ == (notice::NoticeView::ToolStarted {
                    name: thread.pending_approval->0.tool_name@,
                })
            }
            &&& step matches ApprovalStep::Rejected { result, .. } ==> result.replies(
                rejection_text(thread.pending_approval->0.tool_name@),
            )
        }),
{
}

/// The user is told which tool was turned down.
pub proof fn rejections_name_the_tool(a: Seq<char>, b: Seq<char>)
    requires
        rejection_text(a) == rejection_text(b),
    ensures
        a == b,
{
    let p = "Tool '"@;
    let x = rejection_text(a);
    let y = rejection_text(b);
    let s = "' was rejected. The agent will not execute this tool.\n\nYou can continue the conversation or try a different approach."@;
    assert(x.len() == p.len() + a.len() + s.len());
    assert(y.len() == p.len() + b.len() + s.len());
    assert(a =~= x.subrange(p.len() as int, p.len() as int + a.len()));
    assert(b =~= y.subrange(p.len() as int, p.len() as int + b.len()));
}

/// What an approved tool did is recorded in the last turn, whatever is answered.
pub proof fn recorded_tools_show(
    old: Thread,
    new: Thread,
    tool: Seq<char>,
    outcome: Result<String, String>,
)
    requires
        tool_recorded(old, new, tool, outcome),
    ensures
        new.turns@.len() == old.turns@.len(),
        session::last_records(new.turns@) == session::recorded(
            session::last_records(old.turns@),
            outcome,
        ),
{
    if old.turns@.len() == 0 {
        assert(session::oldest_open(session::last_records(old.turns@)) is None);
    }
    if let Some(q) = auth::token_request(tool, auth::output_content(outcome)) {
        let (mid, answer) = choose|mid: Thread, answer: String|
            {
                &&& #[trigger] agentic::settled(old, mid, outcome, Some(q.0))
                &&& answer@ == q.1
                &&& new == (Thread { state: ThreadState::Idle, turns: new.turns, ..mid })
                &&& new.turns@ == #[trigger] session::answered(mid.turns@, answer)
            };
        if old.turns@.len() > 0 {
            assert(new.turns@.last().tool_calls == mid.turns@.last().tool_calls);
        }
    }
}

/// An approved tool's output goes on to be made safe, its failure goes to the model at once,
/// and only a request for a token is answered instead: then the turn has that answer.
pub proof fn approved_tools_are_followed_up(
    old: Thread,
    new: Thread,
    step: ApprovedStep,
    tool: Seq<char>,
    outcome: Result<String, String>,
)
    requires
        follows_tool(step, tool, outcome),
        tool_recorded(old, new, tool, outcome),
    ensures
        ({
            let request = auth::token_request(tool, auth::output_content(outcome));
            &&& step is Reply <==> request is Some
            &&& step is Wrap <==> request is None && outcome is Ok
            &&& step is Resume <==> request is None && outcome is Err
            &&& step matches ApprovedStep::Wrap { output, .. } ==> output@ == outcome->Ok_0@
            &&& step matches ApprovedStep::Resume { content, .. } ==> content@ == "Error: "@
                + outcome->Err_0@
            &&& request matches Some(q) ==> step->Reply_result.replies(q.1)
            &&& new.turns@.len() == old.turns@.len()
            &&& session::last_records(new.turns@) == session::recorded(
                session::last_records(old.turns@),
                outcome,
            )
            &&& request is None ==> new.state == old.state && new.pending_auth == old.pending_auth
            &&& request matches Some(q) ==> {
                &&& new.state == ThreadState::Idle
                &&& new.pending_auth matches Some(p)
                &&& p.extension_name@ == q.0
                &&& old.turns@.len() > 0 ==> json::string_of(new.turns@.last().response) == Some(
                    q.1,
                )
            }
        }),
{
    let request = auth::token_request(tool, auth::output_content(outcome));
    if old.turns@.len() == 0 {
        assert(session::oldest_open(session::last_records(old.turns@)) is None);
    }
    if let Some(q) = request {
        let (mid, answer) = choose|mid: Thread, answer: String|
            {
                &&& #[trigger] agentic::settled(old, mid, outcome, Some(q.0))
                &&& answer@ == q.1
                &&& new == (Thread { state: ThreadState::Idle, turns: new.turns, ..mid })
                &&& new.turns@ == #[trigger] session::answered(mid.turns@, answer)
            };
        if old.turns@.len() > 0 {
            assert(new.turns@.last().tool_calls == mid.turns@.last().tool_calls);
        }
    }
}

} // verus!
