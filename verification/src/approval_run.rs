//! The course of an answer to an approval request.
//!
//! The course is a machine. Each step names the outside work to do next, and takes the
//! outcome of that work as the event of the step after it.

use vstd::prelude::*;

use crate::agentic::AgenticLoopResult;
use crate::approval;
use crate::approval::{ApprovalStep, ApprovedStep};
use crate::auth;
use crate::chat;
use crate::chat::ChatMessage;
use crate::json;
use crate::notice;
use crate::notice::Notice;
use crate::session;
use crate::session::{PendingApproval, Session};
use crate::submission;
use crate::submission::{LoopError, SubmissionResult};
use crate::turn;

verus! {

/// What happened outside since the last step.
pub enum ApprovalEvent {
    /// The user answered. `request_id` is the request that the answer names, if any.
    Answered { request_id: Option<u128>, approved: bool, always: bool },
    /// The tool ran.
    Ran(Result<String, String>),
    /// The tool's output was made safe to show to the model.
    Wrapped(String),
    /// The loop around the model ended. `chain_id` is the id that the model's provider
    /// chains the next answer to.
    LoopEnded { result: Result<AgenticLoopResult, String>, chain_id: Option<String> },
}

/// The outside work to do next, once the status updates have been shown.
pub enum ApprovalWork {
    /// Run the tool of the request.
    RunTool,
    /// Make the tool's output safe to show to the model.
    Wrap { output: String },
    /// Resume the loop around the model, in which a tool has run already.
    RunLoop { messages: Vec<ChatMessage> },
    /// Store the id for the model's provider, and end with the result.
    Finish { chain_id: Option<String>, result: SubmissionResult },
    /// The answer cannot be handled.
    Fail(LoopError),
    /// The event came out of turn: nothing happened.
    Ignore,
}

/// One step: show the status updates, then do the work.
pub struct ApprovalAction {
    pub notices: Vec<Notice>,
    pub work: ApprovalWork,
}

/// What the machine waits for.
#[derive(Clone, Copy, Debug, PartialEq, Eq, Structural)]
pub enum ApprovalPhase {
    Ready,
    Executing,
    Wrapping,
    Running,
    Ended,
}

/// An answer to an approval request on its way.
pub struct ApprovalRun {
    pub thread_id: u128,
    /// The request, while its tool is dealt with.
    pub pending: Option<PendingApproval>,
    pub phase: ApprovalPhase,
}

/// The machine in another phase, with nothing left of the request.
pub open spec fn moves(run: ApprovalRun, phase: ApprovalPhase) -> ApprovalRun {
    ApprovalRun { phase, pending: None, ..run }
}

/// The step has no status updates.
pub open spec fn silent(action: ApprovalAction) -> bool {
    notice::notice_views(action.notices@) == Seq::<notice::NoticeView>::empty()
}

/// The loop is resumed with a tool's result.
pub open spec fn resumes(
    run: ApprovalRun,
    after: ApprovalRun,
    pending: PendingApproval,
    content: Seq<char>,
    work: ApprovalWork,
) -> bool {
    &&& after == moves(run, ApprovalPhase::Running)
    &&& work matches ApprovalWork::RunLoop { messages }
    &&& chat::views(messages@) == chat::views(pending.context_messages@).push(
        chat::MessageView::tool_result(pending.tool_call_id@, pending.tool_name@, content),
    )
}

/// A step of the machine is the right one.
pub open spec fn approval_steps(
    run: ApprovalRun,
    after: ApprovalRun,
    old: Session,
    new: Session,
    event: ApprovalEvent,
    action: ApprovalAction,
) -> bool {
    let id = run.thread_id;
    match (run.phase, event, run.pending) {
        (ApprovalPhase::Ready, ApprovalEvent::Answered { request_id, approved, always }, _) => {
            match old.thread(id) {
                None => {
                    &&& after == moves(run, ApprovalPhase::Ended)
                    &&& silent(action)
                    &&& action.work matches ApprovalWork::Fail(e)
                    &&& e.misses(id)
                    &&& session::untouched(old, new)
                },
                Some(t) => {
                    let v = approval::verdict(t, request_id, approved);
                    &&& new.threads@ == old.threads@.insert(id, approval::judged(t, v))
                    &&& new.active_thread == old.active_thread
                    &&& new.last_active_at == old.last_active_at
                    &&& forall|tool: Seq<char>| #[trigger]
                        new.auto_approves(tool) <==> old.auto_approves(tool) || (v is Approved
                            && always && tool == t.pending_approval->0.tool_name@)
                    &&& match v {
                        approval::Verdict::Approved => {
                            &&& after == (ApprovalRun {
                                pending: t.pending_approval,
                                phase: ApprovalPhase::Executing,
                                ..run
                            })
                            &&& action.work is RunTool
                            &&& notice::notice_views(action.notices@) == seq![
                                notice::NoticeView::ToolStarted {
                                    name: t.pending_approval->0.tool_name@,
                                },
                            ]
                        },
                        approval::Verdict::Rejected => {
                            &&& after == moves(run, ApprovalPhase::Ended)
                            &&& action.work matches ApprovalWork::Finish { chain_id: None, result }
                            &&& result.replies(
                                approval::rejection_text(t.pending_approval->0.tool_name@),
                            )
                            &&& notice::notice_views(action.notices@) == seq![
                                notice::NoticeView::Status("Rejected"@),
                            ]
                        },
                        approval::Verdict::NothingPending => {
                            &&& after == moves(run, ApprovalPhase::Ended)
                            &&& silent(action)
                            &&& action.work matches ApprovalWork::Finish { chain_id: None, result }
                            &&& result.complains("No pending approval request."@)
                        },
                        approval::Verdict::WrongRequest => {
                            &&& after == moves(run, ApprovalPhase::Ended)
                            &&& silent(action)
                            &&& action.work matches ApprovalWork::Finish { chain_id: None, result }
                            &&& result.complains(
                                "Request ID mismatch. Use the correct request ID."@,
                            )
                        },
                    }
                },
            }
        },
        (ApprovalPhase::Executing, ApprovalEvent::Ran(outcome), Some(pending)) => {
            let tool = pending.tool_name@;
            let content = auth::output_content(outcome);
            let shown = notice::tool_ended(tool, outcome);
            &&& session::updated(old, new, id, new.thread(id))
            &&& old.thread(id) is Some <==> new.thread(id) is Some
            &&& old.thread(id) matches Some(t) ==> approval::tool_recorded(
                t,
                new.thread(id)->0,
                tool,
                outcome,
            )
            &&& match auth::token_request(tool, content) {
                Some(request) => {
                    &&& after == moves(run, ApprovalPhase::Ended)
                    &&& action.work matches ApprovalWork::Finish { chain_id: None, result }
                    &&& result.replies(request.1)
                    &&& notice::notice_views(action.notices@) == shown.push(
                        auth::token_notice(request, content),
                    )
                },
                None => {
                    &&& notice::notice_views(action.notices@) == shown
                    &&& match outcome {
                        Ok(output) => {
                            &&& after == (ApprovalRun { phase: ApprovalPhase::Wrapping, ..run })
                            &&& action.work matches ApprovalWork::Wrap { output: o }
                            &&& o@ == output@
                        },
                        Err(e) => resumes(run, after, pending, "Error: "@ + e@, action.work),
                    }
                },
            }
        },
        (ApprovalPhase::Wrapping, ApprovalEvent::Wrapped(content), Some(pending)) => {
            &&& new == old
            &&& silent(action)
            &&& resumes(run, after, pending, content@, action.work)
        },
        (ApprovalPhase::Running, ApprovalEvent::LoopEnded { result, chain_id }, _) => {
            &&& after == moves(run, ApprovalPhase::Ended)
            &&& match old.thread(id) {
                None => {
                    &&& silent(action)
                    &&& action.work matches ApprovalWork::Fail(e)
                    &&& e.misses(id)
                    &&& session::untouched(old, new)
                },
                Some(t) => {
                    &&& new.thread(id) matches Some(n)
                    &&& turn::ended(t, result, chain_id, n)
                    &&& session::refiled(old, new, id, n)
                    &&& action.work matches ApprovalWork::Finish { chain_id: stored, result: given }
                    &&& json::string_of(stored) == turn::stored_chain(result, chain_id)
                    &&& turn::turn_result(result, given)
                    &&& notice::notice_views(action.notices@) == turn::turn_notice(result)
                },
            }
        },
        _ => after == run && new == old && silent(action) && action.work is Ignore,
    }
}

fn quietly(work: ApprovalWork) -> (r: ApprovalAction)
    ensures
        silent(r),
        r.work == work,
{
    let r = ApprovalAction { notices: Vec::new(), work };
    assert(notice::notice_views(r.notices@) =~= Seq::<notice::NoticeView>::empty());
    r
}

fn showing(notice: Notice, work: ApprovalWork) -> (r: ApprovalAction)
    ensures
        notice::notice_views(r.notices@) == seq![notice@],
        r.work == work,
{
    let mut notices: Vec<Notice> = Vec::new();
    notices.push(notice);
    assert(notice::notice_views(notices@) =~= seq![notice@]);
    ApprovalAction { notices, work }
}

impl ApprovalRun {
    /// An answer that has not been handled yet.
    pub fn new(thread_id: u128) -> (r: ApprovalRun)
        ensures
            r == (ApprovalRun { thread_id, pending: None, phase: ApprovalPhase::Ready }),
    {
        ApprovalRun { thread_id, pending: None, phase: ApprovalPhase::Ready }
    }

    fn answered(
        &mut self,
        session: &mut Session,
        request_id: Option<u128>,
        approved: bool,
        always: bool,
    ) -> (r: ApprovalAction)
        requires
            old(self).phase == ApprovalPhase::Ready,
        ensures
            approval_steps(
                *old(self),
                *final(self),
                *old(session),
                *final(session),
                ApprovalEvent::Answered { request_id, approved, always },
                r,
            ),
    {
        self.pending = None;
        self.phase = ApprovalPhase::Ended;
        match approval::begin_approval(session, self.thread_id, request_id, approved, always) {
            Err(e) => quietly(ApprovalWork::Fail(e)),
            Ok(ApprovalStep::Refused(result)) => quietly(
                ApprovalWork::Finish { chain_id: None, result },
            ),
            Ok(ApprovalStep::Rejected { notice, result }) => showing(
                notice,
                ApprovalWork::Finish { chain_id: None, result },
            ),
            Ok(ApprovalStep::Execute { notice, pending }) => {
                self.pending = Some(pending);
                self.phase = ApprovalPhase::Executing;
                showing(notice, ApprovalWork::RunTool)
            },
        }
    }

    fn ran(
        &mut self,
        session: &mut Session,
        pending: PendingApproval,
        outcome: Result<String, String>,
    ) -> (r: ApprovalAction)
        requires
            old(self).phase == ApprovalPhase::Executing,
            old(self).pending is None,
        ensures
            approval_steps(
                (ApprovalRun { pending: Some(pending), ..*old(self) }),
                *final(self),
                *old(session),
                *final(session),
                ApprovalEvent::Ran(outcome),
                r,
            ),
    {
        match approval::after_approved_tool(
            session,
            self.thread_id,
            pending.tool_name.as_str(),
            outcome,
        ) {
            ApprovedStep::Reply { notices, result } => {
                self.phase = ApprovalPhase::Ended;
                ApprovalAction { notices, work: ApprovalWork::Finish { chain_id: None, result } }
            },
            ApprovedStep::Wrap { notices, output } => {
                self.pending = Some(pending);
                self.phase = ApprovalPhase::Wrapping;
                ApprovalAction { notices, work: ApprovalWork::Wrap { output } }
            },
            ApprovedStep::Resume { notices, content } => {
                self.phase = ApprovalPhase::Running;
                let messages = approval::resumed_context(pending, content);
                ApprovalAction { notices, work: ApprovalWork::RunLoop { messages } }
            },
        }
    }

    /// Takes one step with the answer.
    pub fn step(&mut self, session: &mut Session, event: ApprovalEvent) -> (r: ApprovalAction)
        ensures
            approval_steps(*old(self), *final(self), *old(session), *final(session), event, r),
    {
        match (self.phase, event) {
            (ApprovalPhase::Ready, ApprovalEvent::Answered { request_id, approved, always }) =>
                self.answered(session, request_id, approved, always),
            (ApprovalPhase::Executing, ApprovalEvent::Ran(outcome)) => match self.pending.take() {
                Some(pending) => self.ran(session, pending, outcome),
                None => quietly(ApprovalWork::Ignore),
            },
            (ApprovalPhase::Wrapping, ApprovalEvent::Wrapped(content)) =>
                match self.pending.take() {
                Some(pending) => {
                    self.phase = ApprovalPhase::Running;
                    let messages = approval::resumed_context(pending, content);
                    quietly(ApprovalWork::RunLoop { messages })
                },
                None => quietly(ApprovalWork::Ignore),
            },
            (ApprovalPhase::Running, ApprovalEvent::LoopEnded { result, chain_id }) => {
                self.pending = None;
                self.phase = ApprovalPhase::Ended;
                match turn::end_turn(session, self.thread_id, result, chain_id) {
                    Err(e) => quietly(ApprovalWork::Fail(e)),
                    Ok(end) => ApprovalAction {
                        notices: end.notices,
                        work: ApprovalWork::Finish { chain_id: end.chain_id, result: end.result },
                    },
                }
            },
            _ => quietly(ApprovalWork::Ignore),
        }
    }
}

/// The tool of a request runs only where the answer approves it, and only the pending one:
/// whatever else the answer says, no tool runs.
pub proof fn only_approved_tools_run(
    run: ApprovalRun,
    after: ApprovalRun,
    old: Session,
    new: Session,
    event: ApprovalEvent,
    action: ApprovalAction,
)
    requires
        approval_steps(run, after, old, new, event, action),
        action.work is RunTool,
    ensures
        event matches ApprovalEvent::Answered { request_id, approved, .. } && {
            &&& approved
            &&& old.thread(run.thread_id) matches Some(t)
            &&& t.state == session::ThreadState::AwaitingApproval
            &&& t.pending_approval is Some
            &&& after.pending == t.pending_approval
            &&& request_id is Some ==> request_id->0 == t.pending_approval->0.request_id
        },
{
}

/// No status update on the way of an answer closes the turn: the channel gets the reply
/// first.
pub proof fn approved_turns_are_closed_by_their_reply(
    run: ApprovalRun,
    after: ApprovalRun,
    old: Session,
    new: Session,
    event: ApprovalEvent,
    action: ApprovalAction,
)
    requires
        approval_steps(run, after, old, new, event, action),
    ensures
        notice::keep_open(notice::notice_views(action.notices@)),
{
    turn::statuses_keep_open();
    if let ApprovalEvent::LoopEnded { result, .. } = event {
        turn::turn_notice_keeps_open(result);
    }
}

/// An answer to what is pending decides on that very tool: an approval runs it, a rejection
/// ends with a reply that names it. An answer to anything else is an error and leaves the
/// thread as it was. Only an approval for good is remembered, and only for that tool.
pub proof fn answers_decide_on_the_pending_tool(
    run: ApprovalRun,
    after: ApprovalRun,
    old: Session,
    new: Session,
    request_id: Option<u128>,
    approved: bool,
    always: bool,
    action: ApprovalAction,
    tool: Seq<char>,
)
    requires
        approval_steps(
            run,
            after,
            old,
            new,
            ApprovalEvent::Answered { request_id, approved, always },
            action,
        ),
        run.phase == ApprovalPhase::Ready,
        old.thread(run.thread_id) is Some,
    ensures
        ({
            let t = old.thread(run.thread_id)->0;
            let n = new.thread(run.thread_id)->0;
            let pending = t.pending_approval->0;
            let meant = t.state == session::ThreadState::AwaitingApproval
                && t.pending_approval is Some && (request_id is None || request_id->0
                == pending.request_id);
            &&& new.thread(run.thread_id) is Some
            &&& meant && approved ==> {
                &&& action.work is RunTool
                &&& after.pending == Some(pending)
                &&& after.phase == ApprovalPhase::Executing
                &&& n.state == session::ThreadState::Processing
                &&& n.pending_approval is None
            }
            &&& meant && !approved ==> {
                &&& action.work is Finish
                &&& action.work->result is Response
                &&& submission::names(action.work->result->Response_content@, pending.tool_name@)
                &&& after.phase == ApprovalPhase::Ended
                &&& n.state == session::ThreadState::Idle
                &&& n.pending_approval is None
            }
            &&& !meant ==> {
                &&& action.work is Finish
                &&& action.work->result is Error
                &&& after.phase == ApprovalPhase::Ended
                &&& n == t
            }
            &&& new.auto_approves(tool) <==> old.auto_approves(tool) || (meant && approved
                && always && tool == pending.tool_name@)
        }),
{
    let t = old.thread(run.thread_id)->0;
    let name = t.pending_approval->0.tool_name@;
    assert(new.threads@.contains_key(run.thread_id));
    submission::parts_are_held(
        "Tool '"@,
        name,
        "' was rejected. The agent will not execute this tool.\n\nYou can continue the conversation or try a different approach."@,
    );
}

/// A tool's output is made safe before the model sees it; a failure goes to the model at
/// once. Either way the model goes on with the context of the request and, at its end, the
/// result of that very call.
pub proof fn approved_tools_answer_their_call(
    run: ApprovalRun,
    after: ApprovalRun,
    old: Session,
    new: Session,
    event: ApprovalEvent,
    action: ApprovalAction,
    pending: PendingApproval,
)
    requires
        approval_steps(run, after, old, new, event, action),
        run.pending == Some(pending),
    ensures
        run.phase == ApprovalPhase::Executing && event is Ran ==> {
            let outcome = event->Ran_0;
            let request = auth::token_request(pending.tool_name@, auth::output_content(outcome));
            &&& action.work is Finish <==> request is Some
            &&& action.work is Wrap <==> request is None && outcome is Ok
            &&& action.work is RunLoop <==> request is None && outcome is Err
            &&& action.work is Wrap ==> action.work->output@ == outcome->Ok_0@ && after.pending
                == Some(pending)
            &&& request matches Some(q) ==> action.work->result.replies(q.1)
        },
        run.phase == ApprovalPhase::Wrapping && event is Wrapped ==> action.work is RunLoop
            && new == old,
        action.work matches ApprovalWork::RunLoop { messages } ==> {
            let m = chat::views(messages@);
            &&& after.phase == ApprovalPhase::Running
            &&& m.len() == pending.context_messages@.len() + 1
            &&& m.drop_last() == chat::views(pending.context_messages@)
            &&& m.last().role == chat::Role::Tool
            &&& m.last().tool_call_id == Some(pending.tool_call_id@)
            &&& m.last().name == Some(pending.tool_name@)
            &&& event matches ApprovalEvent::Wrapped(content) ==> m.last().content == content@
            &&& event matches ApprovalEvent::Ran(Err(e)) ==> {
                &&& m.last().content.len() > e@.len()
                &&& m.last().content.skip(m.last().content.len() - e@.len()) == e@
            }
        },
{
    reveal_strlit("Error: ");
    let context = chat::views(pending.context_messages@);
    if let ApprovalWork::RunLoop { messages } = action.work {
        let m = chat::views(messages@);
        assert(m.drop_last() =~= context);
        if let ApprovalEvent::Ran(Err(e)) = event {
            assert(("Error: "@ + e@).skip("Error: "@.len() as int) =~= e@);
        }
    }
}

/// The loop that was resumed ends the turn like any other: with its reply, its failure, or
/// the next request.
pub proof fn resumed_turns_end_with_their_result(
    run: ApprovalRun,
    after: ApprovalRun,
    old: Session,
    new: Session,
    result: Result<AgenticLoopResult, String>,
    chain_id: Option<String>,
    action: ApprovalAction,
)
    requires
        approval_steps(
            run,
            after,
            old,
            new,
            ApprovalEvent::LoopEnded { result, chain_id },
            action,
        ),
        run.phase == ApprovalPhase::Running,
    ensures
        after.phase == ApprovalPhase::Ended,
        old.thread(run.thread_id) is None ==> action.work == ApprovalWork::Fail(
            LoopError::NotFound { id: run.thread_id },
        ),
        old.thread(run.thread_id) matches Some(t) ==> {
            &&& new.thread(run.thread_id) matches Some(n)
            &&& action.work matches ApprovalWork::Finish { result: given, chain_id: stored }
            &&& match result {
                Ok(AgenticLoopResult::Response(s)) => {
                    &&& given is Response
                    &&& given->Response_content@ == s@
                    &&& n.state == session::ThreadState::Idle
                    &&& json::string_of(stored) == json::string_of(chain_id)
                },
                Ok(AgenticLoopResult::NeedApproval { pending }) => {
                    &&& given is NeedApproval
                    &&& n.state == session::ThreadState::AwaitingApproval
                    &&& n.pending_approval == Some(pending)
                    &&& stored is None
                },
                Err(e) => {
                    &&& given is Error
                    &&& given->Error_message@ == e@
                    &&& n.state == session::ThreadState::Idle
                    &&& stored is None
                },
            }
        },
{
}

/// An answer touches the thread that it is for, and of the rest of the session only which
/// tools are approved for good.
pub proof fn answers_touch_their_thread_only(
    run: ApprovalRun,
    after: ApprovalRun,
    old: Session,
    new: Session,
    event: ApprovalEvent,
    action: ApprovalAction,
    other: u128,
    tool: Seq<char>,
)
    requires
        approval_steps(run, after, old, new, event, action),
    ensures
        other != run.thread_id ==> new.thread(other) == old.thread(other),
        new.thread(run.thread_id) is Some <==> old.thread(run.thread_id) is Some,
        new.active_thread == old.active_thread,
        new.last_active_at == old.last_active_at,
        !(event is Answered) ==> new.auto_approves(tool) == old.auto_approves(tool),
        old.auto_approves(tool) ==> new.auto_approves(tool),
        after.thread_id == run.thread_id,
        action.work is Finish || action.work is Fail ==> after.phase == ApprovalPhase::Ended,
        action.work matches ApprovalWork::Fail(e) ==> e == (LoopError::NotFound {
            id: run.thread_id,
        }) && old.thread(run.thread_id) is None,
        action.work matches ApprovalWork::Finish { chain_id, .. } ==> !(event is LoopEnded)
            ==> chain_id is None,
{
}

/// What an approved tool did is recorded in the turn that asked for it: its output or its
/// failure goes to the oldest call without one.
pub proof fn approved_tools_are_recorded(
    run: ApprovalRun,
    after: ApprovalRun,
    old: Session,
    new: Session,
    outcome: Result<String, String>,
    action: ApprovalAction,
)
    requires
        approval_steps(run, after, old, new, ApprovalEvent::Ran(outcome), action),
        run.phase == ApprovalPhase::Executing,
        run.pending is Some,
        old.thread(run.thread_id) is Some,
        old.thread(run.thread_id)->0.turns@.len() > 0,
    ensures
        ({
            let t = old.thread(run.thread_id)->0;
            &&& new.thread(run.thread_id) matches Some(n)
            &&& n.turns@.len() == t.turns@.len()
            &&& session::last_records(n.turns@) == session::recorded(
                session::last_records(t.turns@),
                outcome,
            )
        }),
{
    let t = old.thread(run.thread_id)->0;
    let n = new.thread(run.thread_id)->0;
    approval::recorded_tools_show(t, n, run.pending->0.tool_name@, outcome);
}

/// An answer waits for the outcome of what it asked for and takes in no other.
pub proof fn answers_wait_for_what_they_asked(
    run: ApprovalRun,
    after: ApprovalRun,
    old: Session,
    new: Session,
    event: ApprovalEvent,
    action: ApprovalAction,
)
    requires
        approval_steps(run, after, old, new, event, action),
    ensures
        action.work is RunTool ==> after.phase == ApprovalPhase::Executing,
        action.work is Wrap ==> after.phase == ApprovalPhase::Wrapping,
        action.work is RunLoop ==> after.phase == ApprovalPhase::Running,
        action.work is Ignore ==> after == run && new == old && action.notices@.len() == 0,
        action.work is Ignore <==> !{
            ||| run.phase == ApprovalPhase::Ready && event is Answered
            ||| run.phase == ApprovalPhase::Executing && event is Ran && run.pending is Some
            ||| run.phase == ApprovalPhase::Wrapping && event is Wrapped && run.pending is Some
            ||| run.phase == ApprovalPhase::Running && event is LoopEnded
        },
{
    if action.work is Ignore {
        assert(notice::notice_views(action.notices@).len() == action.notices@.len());
    }
}

} // verus!
