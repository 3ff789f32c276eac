//! What a submission comes to once its thread is known.

use vstd::prelude::*;

use crate::approval;
use crate::auth;
use crate::clock;
use crate::images;
use crate::json;
use crate::message;
use crate::message::{IncomingMessage, OutgoingResponse};
use crate::outcome;
use crate::outcome::{BridgeOutcome, HandleOutcome};
use crate::session;
use crate::session::{Session, Thread, ThreadState};
use crate::submission;
use crate::submission::{LoopError, Submission, SubmissionResult};
use crate::text;

verus! {

broadcast use vstd::std_specs::hash::group_hash_axioms;

/// What auth mode does to a submission.
pub enum Interception {
    /// The submission is handled as usual.
    Pass,
    /// The user's text came too late to be a token: answer with this.
    Expired { reply: String },
    /// The user's text is a token for this extension.
    Token { extension_name: String },
}

/// The extension that a thread awaits a token for.
pub open spec fn awaited_extension(thread: Option<Thread>) -> Option<Seq<char>> {
    match thread {
        Some(t) => match t.pending_auth {
            Some(p) => Some(p.extension_name@),
            None => None,
        },
        None => None,
    }
}

/// Lets auth mode intercept a submission. `expired` says that the token has been awaited
/// for too long, `user_input` that the submission is text of the user. Such text is never
/// passed on while a token is awaited; any other submission ends auth mode.
pub fn intercept_auth(
    session: &mut Session,
    thread_id: u128,
    expired: bool,
    user_input: bool,
) -> (r: Interception)
    ensures
        match awaited_extension(old(session).thread(thread_id)) {
            None => r is Pass && *final(session) == *old(session),
            Some(extension) => if !user_input {
                r is Pass && session::updated(
                    *old(session),
                    *final(session),
                    thread_id,
                    auth::without_auth(old(session).thread(thread_id)),
                )
            } else if expired {
                &&& r matches Interception::Expired { reply }
                &&& reply@ == "Authentication for **"@ + extension
                    + "** expired. Please try again."@
                &&& session::updated(
                    *old(session),
                    *final(session),
                    thread_id,
                    auth::without_auth(old(session).thread(thread_id)),
                )
            } else {
                &&& r matches Interception::Token { extension_name }
                &&& extension_name@ == extension
                &&& *final(session) == *old(session)
            },
        },
{
    let extension: Option<String> = match session.threads.get(&thread_id) {
        Some(thread) => match &thread.pending_auth {
            Some(p) => Some(p.extension_name.clone()),
            None => None,
        },
        None => None,
    };
    match extension {
        None => Interception::Pass,
        Some(extension_name) => if !user_input {
            auth::clear_auth(session, thread_id);
            Interception::Pass
        } else if expired {
            auth::clear_auth(session, thread_id);
            Interception::Expired {
                reply: text::cat3(
                    "Authentication for **",
                    extension_name.as_str(),
                    "** expired. Please try again.",
                ),
            }
        } else {
            Interception::Token { extension_name }
        },
    }
}

/// The handler that a submission goes to.
pub enum Dispatch {
    /// A turn with this text, and further turns for what is queued meanwhile.
    UserInput { content: String },
    /// As user input, once the hooks have seen the text.
    HookedInput { content: String },
    /// A single turn with this text.
    Prompt { content: String },
    Reasoning { args: Vec<String> },
    SystemCommand { command: String, args: Vec<String> },
    Undo,
    Redo,
    Interrupt,
    Compact,
    Clear,
    NewThread,
    Heartbeat,
    Summarize,
    Suggest,
    /// The agent shall stop.
    Quit,
    SwitchThread { thread_id: u128 },
    Resume { checkpoint_id: u128 },
    ListThreads,
    Approval { request_id: Option<u128>, approved: bool, always: bool },
    PairingClaim { channel: String, code: String },
    /// There is nothing to do but to answer.
    Refused(SubmissionResult),
    /// No thread handles this; only the second engine does.
    Unsupported,
}

/// The state of a thread; one that is not there counts as idle.
pub open spec fn state_or_idle(thread: Option<Thread>) -> ThreadState {
    match thread {
        Some(t) => t.state,
        None => ThreadState::Idle,
    }
}

/// The handler is the one for a submission.
pub open spec fn dispatches(
    s: Submission,
    state: ThreadState,
    message: IncomingMessage,
    r: Dispatch,
) -> bool {
    match s {
        Submission::UserInput { content } => r == (Dispatch::UserInput { content }),
        Submission::SystemCommand { command, args } => if command@ == "reasoning"@ {
            r == (Dispatch::Reasoning { args })
        } else {
            r == (Dispatch::SystemCommand { command, args })
        },
        Submission::Undo => r is Undo,
        Submission::Redo => r is Redo,
        Submission::Interrupt => r is Interrupt,
        Submission::Compact => r is Compact,
        Submission::Clear => r is Clear,
        Submission::NewThread => r is NewThread,
        Submission::Heartbeat => r is Heartbeat,
        Submission::Summarize => r is Summarize,
        Submission::Suggest => r is Suggest,
        Submission::Quit => r is Quit,
        Submission::SwitchThread { thread_id } => r == (Dispatch::SwitchThread { thread_id }),
        Submission::Resume { checkpoint_id } => r == (Dispatch::Resume { checkpoint_id }),
        Submission::ListThreads => r is ListThreads,
        Submission::ExecApproval { request_id, approved, always } => r == (Dispatch::Approval {
            request_id: Some(request_id),
            approved,
            always,
        }),
        Submission::ApprovalResponse { approved, always } => if approval::routes_as_approval(
            state,
            message.content@,
        ) {
            r == (Dispatch::Approval { request_id: None, approved, always })
        } else {
            r == (Dispatch::HookedInput { content: message.content })
        },
        Submission::ExternalCallback { .. } => r matches Dispatch::Refused(result)
            && result.complains("External callbacks require ENGINE_V2"@),
        Submission::GateAuthResolution { .. } => r matches Dispatch::Refused(result)
            && result.complains("Auth gate resolution requires ENGINE_V2"@),
        Submission::PairingClaim { channel, code } => r == (Dispatch::PairingClaim {
            channel,
            code,
        }),
        Submission::Plan { sub } => r matches Dispatch::Prompt { content } && content@
            == submission::plan_text(sub),
        Submission::Expected { .. } => r is Unsupported,
    }
}

/// Finds the handler for a submission. A bare keyword that reads like an approval is one
/// only while the thread waits for it.
pub fn dispatch(
    submission: Submission,
    session: &Session,
    thread_id: u128,
    message: &IncomingMessage,
) -> (r: Dispatch)
    ensures
        dispatches(submission, state_or_idle(session.thread(thread_id)), *message, r),
{
    match submission {
        Submission::UserInput { content } => Dispatch::UserInput { content },
        Submission::SystemCommand { command, args } => if text::same(
            command.as_str(),
            "reasoning",
        ) {
            Dispatch::Reasoning { args }
        } else {
            Dispatch::SystemCommand { command, args }
        },
        Submission::Undo => Dispatch::Undo,
        Submission::Redo => Dispatch::Redo,
        Submission::Interrupt => Dispatch::Interrupt,
        Submission::Compact => Dispatch::Compact,
        Submission::Clear => Dispatch::Clear,
        Submission::NewThread => Dispatch::NewThread,
        Submission::Heartbeat => Dispatch::Heartbeat,
        Submission::Summarize => Dispatch::Summarize,
        Submission::Suggest => Dispatch::Suggest,
        Submission::Quit => Dispatch::Quit,
        Submission::SwitchThread { thread_id: target } => Dispatch::SwitchThread {
            thread_id: target,
        },
        Submission::Resume { checkpoint_id } => Dispatch::Resume { checkpoint_id },
        Submission::ListThreads => Dispatch::ListThreads,
        Submission::ExecApproval { request_id, approved, always } => Dispatch::Approval {
            request_id: Some(request_id),
            approved,
            always,
        },
        Submission::ApprovalResponse { approved, always } => {
            let state = match session.thread_state(thread_id) {
                Some(s) => s,
                None => ThreadState::Idle,
            };
            if approval::should_route_as_approval(state, message.content.as_str()) {
                Dispatch::Approval { request_id: None, approved, always }
            } else {
                Dispatch::HookedInput { content: message.content.clone() }
            }
        },
        Submission::ExternalCallback { .. } => Dispatch::Refused(
            SubmissionResult::error("External callbacks require ENGINE_V2"),
        ),
        Submission::GateAuthResolution { .. } => Dispatch::Refused(
            SubmissionResult::error("Auth gate resolution requires ENGINE_V2"),
        ),
        Submission::PairingClaim { channel, code } => Dispatch::PairingClaim { channel, code },
        Submission::Plan { sub } => Dispatch::Prompt { content: submission::plan_prompt(&sub) },
        Submission::Expected { .. } => Dispatch::Unsupported,
    }
}

/// What is done with a submission once its thread is known.
pub enum Handling {
    /// Answer with this.
    Reply { text: String },
    /// Hand the token to the extension.
    Token { extension_name: String, token: String },
    /// Put the conversation aside, open a new thread, and begin a turn with this text there.
    Reset { content: String },
    /// Note the name in the audit log, where there is one, and call the handler.
    Run { audit: Option<String>, handler: Dispatch },
}

/// When the last thing happened on a thread, and when sessions begin anew.
pub struct ResetClock {
    pub reset_hour: Option<u32>,
    /// When the thread was last used.
    pub last_active: Option<i64>,
    pub now: i64,
}

/// What is done with a submission on its thread is right.
pub open spec fn handles(
    old: Session,
    new: Session,
    thread_id: u128,
    submission: Submission,
    message: IncomingMessage,
    expired: bool,
    clock: ResetClock,
    r: Handling,
) -> bool {
    let thread = old.thread(thread_id);
    let awaited = awaited_extension(thread);
    if awaited is Some && submission is UserInput {
        if expired {
            &&& r matches Handling::Reply { text }
            &&& text@ == "Authentication for **"@ + awaited->0 + "** expired. Please try again."@
            &&& session::updated(old, new, thread_id, auth::without_auth(thread))
        } else {
            &&& r matches Handling::Token { extension_name, token }
            &&& extension_name@ == awaited->0
            &&& token == submission->UserInput_content
            &&& new == old
        }
    } else {
        &&& if awaited is None {
            new == old
        } else {
            session::updated(old, new, thread_id, auth::without_auth(thread))
        }
        &&& if submission is UserInput && clock::reset_due(
            clock.reset_hour,
            clock.last_active,
            clock.now,
        ) {
            r == (Handling::Reset { content: submission->UserInput_content })
        } else {
            &&& r matches Handling::Run { audit, handler }
            &&& json::string_of(audit) == submission.logged_as()
            &&& dispatches(submission, state_or_idle(thread), message, handler)
        }
    }
}

/// Decides what is done with a submission once its thread is known: auth mode comes first,
/// then the daily reset, then the handler.
pub fn handle_bound(
    session: &mut Session,
    thread_id: u128,
    submission: Submission,
    message: &IncomingMessage,
    expired: bool,
    clock: &ResetClock,
) -> (r: Handling)
    ensures
        handles(
            *old(session),
            *final(session),
            thread_id,
            submission,
            *message,
            expired,
            *clock,
            r,
        ),
{
    match submission {
        Submission::UserInput { content } => match intercept_auth(
            session,
            thread_id,
            expired,
            true,
        ) {
            Interception::Expired { reply } => Handling::Reply { text: reply },
            Interception::Token { extension_name } => Handling::Token {
                extension_name,
                token: content,
            },
            Interception::Pass => if clock::daily_reset_due(
                clock.reset_hour,
                clock.last_active,
                clock.now,
            ) {
                Handling::Reset { content }
            } else {
                Handling::Run { audit: None, handler: Dispatch::UserInput { content } }
            },
        },
        control => {
            let ghost thread = session.thread(thread_id);
            intercept_auth(session, thread_id, expired, false);
            assert(state_or_idle(session.thread(thread_id)) == state_or_idle(thread));
            let audit: Option<String> = match control.audit_name() {
                Some(name) => Some(name.to_owned()),
                None => None,
            };
            Handling::Run { audit, handler: dispatch(control, session, thread_id, message) }
        },
    }
}

/// How the work on a submission ended.
pub enum HandlingEnd {
    /// There was nothing to do.
    NotRun,
    /// The extension dealt with the token; this is what the user is told.
    TokenAnswered(Option<String>),
    /// The hooks turned the text down; this is what the user is told.
    TurnedDown(String),
    /// The second engine dealt with the pairing claim.
    Paired(Result<BridgeOutcome, String>),
    /// The handler gave a result, or failed with this text.
    Result(Result<SubmissionResult, String>),
}

/// The outcome is the one for a handler and how its work ended.
pub open spec fn settles_handler(
    handler: Dispatch,
    end: HandlingEnd,
    silent: bool,
    message: IncomingMessage,
    session: Session,
    thread_id: u128,
    r: Result<HandleOutcome, String>,
) -> bool {
    match (handler, end) {
        (Dispatch::Quit, _) => r matches Ok(o) && o is Shutdown,
        (Dispatch::Refused(result), _) => r matches Ok(o) && outcome::concludes(
            result,
            silent,
            message,
            session,
            thread_id,
            o,
        ),
        (Dispatch::Unsupported, _) => r matches Err(e) && e@ == unsupported_text(),
        (Dispatch::Reasoning { .. }, HandlingEnd::Result(Ok(result))) => r matches Ok(o)
            && outcome::concludes_reasoning(result, message, o),
        (Dispatch::PairingClaim { .. }, HandlingEnd::Paired(paired)) => r matches Ok(o)
            && outcome::concludes_pairing(paired, silent, message, session.thread(thread_id), o),
        (Dispatch::HookedInput { .. }, HandlingEnd::TurnedDown(reply)) => r matches Ok(o)
            && o.says(reply@),
        (_, HandlingEnd::Result(Ok(result))) => r matches Ok(o) && outcome::concludes(
            result,
            silent,
            message,
            session,
            thread_id,
            o,
        ),
        (_, HandlingEnd::Result(Err(e))) => r matches Err(f) && f@ == e@,
        _ => r matches Err(e) && e@ == "event out of turn"@,
    }
}

/// The failure for a submission that no thread handles.
pub open spec fn unsupported_text() -> Seq<char> {
    "this submission requires ENGINE_V2"@
}

/// The outcome is the one for a submission and how the work on it ended.
pub open spec fn settles(
    handling: Handling,
    end: HandlingEnd,
    silent: bool,
    message: IncomingMessage,
    session: Session,
    thread_id: u128,
    r: Result<HandleOutcome, String>,
) -> bool {
    match (handling, end) {
        (Handling::Reply { text }, _) => r matches Ok(o) && o.says(text@),
        (Handling::Token { .. }, HandlingEnd::TokenAnswered(reply)) => r matches Ok(o)
            && o.stands_for(json::string_of(reply)),
        (Handling::Token { .. }, HandlingEnd::Result(Err(e))) => r matches Err(f) && f@ == e@,
        (Handling::Reset { .. }, HandlingEnd::Result(Ok(result))) => r matches Ok(o)
            && outcome::concludes_after_reset(result, silent, message, o),
        (Handling::Reset { .. }, HandlingEnd::Result(Err(e))) => r matches Err(f) && f@ == e@,
        (Handling::Run { handler, .. }, _) => settles_handler(
            handler,
            end,
            silent,
            message,
            session,
            thread_id,
            r,
        ),
        _ => r matches Err(e) && e@ == "event out of turn"@,
    }
}

fn settle_handler(
    handler: Dispatch,
    end: HandlingEnd,
    silent: bool,
    message: &IncomingMessage,
    session: &Session,
    thread_id: u128,
) -> (r: Result<HandleOutcome, String>)
    ensures
        settles_handler(handler, end, silent, *message, *session, thread_id, r),
{
    match (handler, end) {
        (Dispatch::Quit, _) => Ok(HandleOutcome::Shutdown),
        (Dispatch::Refused(result), _) => Ok(
            outcome::conclude(result, silent, message, session, thread_id),
        ),
        (Dispatch::Unsupported, _) => Err("this submission requires ENGINE_V2".to_owned()),
        (Dispatch::Reasoning { .. }, HandlingEnd::Result(Ok(result))) => Ok(
            outcome::conclude_reasoning(result, message),
        ),
        (Dispatch::PairingClaim { .. }, HandlingEnd::Paired(paired)) => Ok(
            outcome::conclude_pairing(paired, silent, message, session, thread_id),
        ),
        (Dispatch::HookedInput { .. }, HandlingEnd::TurnedDown(reply)) => Ok(
            HandleOutcome::reply(reply),
        ),
        (_, HandlingEnd::Result(Ok(result))) => Ok(
            outcome::conclude(result, silent, message, session, thread_id),
        ),
        (_, HandlingEnd::Result(Err(e))) => Err(e),
        _ => Err("event out of turn".to_owned()),
    }
}

/// The outcome for a submission, once the work on it has ended. `silent` says that a reply is
/// the token for having nothing to say, and the session and the thread are those that the
/// work was done on.
pub fn conclude_handling(
    handling: Handling,
    end: HandlingEnd,
    silent: bool,
    message: &IncomingMessage,
    session: &Session,
    thread_id: u128,
) -> (r: Result<HandleOutcome, String>)
    ensures
        settles(handling, end, silent, *message, *session, thread_id, r),
{
    match (handling, end) {
        (Handling::Reply { text }, _) => Ok(HandleOutcome::reply(text)),
        (Handling::Token { .. }, HandlingEnd::TokenAnswered(reply)) => Ok(
            HandleOutcome::from_legacy(reply),
        ),
        (Handling::Token { .. }, HandlingEnd::Result(Err(e))) => Err(e),
        (Handling::Reset { .. }, HandlingEnd::Result(Ok(result))) => Ok(
            outcome::conclude_after_reset(result, silent, message),
        ),
        (Handling::Reset { .. }, HandlingEnd::Result(Err(e))) => Err(e),
        (Handling::Run { handler, .. }, end) => settle_handler(
            handler,
            end,
            silent,
            message,
            session,
            thread_id,
        ),
        _ => Err("event out of turn".to_owned()),
    }
}

/// The quit command ends the message loop, and nothing is sent for it.
pub proof fn quit_ends_the_loop(
    old: Session,
    new: Session,
    thread_id: u128,
    message: IncomingMessage,
    expired: bool,
    clock: ResetClock,
    handling: Handling,
    end: HandlingEnd,
    silent: bool,
    r: Result<HandleOutcome, String>,
    next: outcome::AfterHandling,
    verdict: outcome::HookVerdict,
)
    requires
        handles(old, new, thread_id, Submission::Quit, message, expired, clock, handling),
        settles(handling, end, silent, message, new, thread_id, r),
        outcome::goes_on(r, next),
    ensures
        outcome::delivered(next, verdict) is Stop,
        outcome::steps(outcome::delivered(next, verdict)).len() == 0,
{
}

/// A turn that waits for the user is not closed, whichever handler it comes from and whether
/// or not a daily reset came before it; only the `/reasoning` command has no turns.
pub proof fn paused_turns_stay_open(
    handling: Handling,
    result: SubmissionResult,
    silent: bool,
    message: IncomingMessage,
    session: Session,
    thread_id: u128,
    r: Result<HandleOutcome, String>,
    next: outcome::AfterHandling,
    verdict: outcome::HookVerdict,
)
    requires
        result is NeedApproval || result is AuthPending,
        settles(
            handling,
            HandlingEnd::Result(Ok(result)),
            silent,
            message,
            session,
            thread_id,
            r,
        ),
        handling is Reset || handling is Run,
        handling matches Handling::Run { handler, .. } ==> !(handler is Reasoning || handler is Quit
            || handler is Refused || handler is Unsupported),
        outcome::goes_on(r, next),
    ensures
        outcome::delivered(next, verdict) is Hold,
{
}

/// A text that may be a token is shown to nobody but the extension: while one is awaited,
/// user text reaches no handler, no log and no turn of any thread.
pub proof fn tokens_reach_no_handler(
    old: Session,
    new: Session,
    thread_id: u128,
    submission: Submission,
    message: IncomingMessage,
    expired: bool,
    clock: ResetClock,
    r: Handling,
    other: u128,
)
    requires
        handles(old, new, thread_id, submission, message, expired, clock, r),
        awaited_extension(old.thread(thread_id)) is Some,
        submission is UserInput,
    ensures
        r is Reply || r is Token,
        match (old.thread(other), new.thread(other)) {
            (Some(o), Some(n)) => n.turns == o.turns && n.pending_messages == o.pending_messages,
            (None, None) => true,
            _ => false,
        },
{
}

/// The turn that user text begins has the text that was bound to the thread, as the hooks
/// left it, whatever the message itself says. A daily reset changes nothing about that.
pub proof fn turns_begin_with_the_bound_text(
    old: Session,
    new: Session,
    thread_id: u128,
    content: String,
    message: IncomingMessage,
    expired: bool,
    clock: ResetClock,
    r: Handling,
)
    requires
        handles(
            old,
            new,
            thread_id,
            Submission::UserInput { content },
            message,
            expired,
            clock,
            r,
        ),
        awaited_extension(old.thread(thread_id)) is None,
    ensures
        if clock::reset_due(clock.reset_hour, clock.last_active, clock.now) {
            r == (Handling::Reset { content })
        } else {
            r matches Handling::Run { handler, .. } && handler == (Dispatch::UserInput { content })
        },
        new == old,
{
}

/// The message with which queued text is handled: the original one without its files, which
/// have nothing to do with the queued text.
pub fn queued_message(message: &IncomingMessage) -> (r: IncomingMessage)
    ensures
        r.channel == message.channel,
        r.user_id == message.user_id,
        r.sender_id == message.sender_id,
        r.content == message.content,
        json::string_of(r.thread_id) == json::string_of(message.thread_id),
        json::json_content(r.metadata) == json::json_content(message.metadata),
        r.is_internal == message.is_internal,
        submission::copied(message.structured_submission, r.structured_submission),
        r.attachments@.len() == 0,
{
    IncomingMessage {
        channel: message.channel.clone(),
        user_id: message.user_id.clone(),
        sender_id: message.sender_id.clone(),
        content: message.content.clone(),
        thread_id: message.thread_id.clone(),
        metadata: json::copy_json(&message.metadata),
        is_internal: message.is_internal,
        structured_submission: submission::copy_submission(&message.structured_submission),
        attachments: Vec::new(),
    }
}

/// What comes after a turn that user text began.
pub enum DrainStep {
    /// Send the response, then handle the text that was queued meanwhile.
    Next { response: OutgoingResponse, content: String },
    /// The result to end with.
    Finish(Result<SubmissionResult, LoopError>),
}

/// The queue of a thread.
pub open spec fn queue(thread: Option<Thread>) -> Seq<String> {
    match thread {
        Some(t) => t.pending_messages@,
        None => seq![],
    }
}

/// `new` is `old` but for the queue of the thread under `id`.
pub open spec fn requeued(old: Session, new: Session, id: u128, pending: Seq<String>) -> bool {
    match old.thread(id) {
        Some(o) => {
            &&& new.thread(id) matches Some(n)
            &&& n == (Thread { pending_messages: n.pending_messages, ..o })
            &&& n.pending_messages@ == pending
            &&& session::refiled(old, new, id, n)
        },
        None => session::untouched(old, new),
    }
}

fn replies(result: &Result<SubmissionResult, LoopError>) -> (r: bool)
    ensures
        r == (result matches Ok(s) && s is Response),
{
    match result {
        Ok(SubmissionResult::Response { .. }) => true,
        _ => false,
    }
}

/// What comes after a turn is right.
pub open spec fn drains(
    old: Session,
    new: Session,
    thread_id: u128,
    result: Result<SubmissionResult, LoopError>,
    drained: Option<String>,
    r: DrainStep,
) -> bool {
    let waiting = queue(old.thread(thread_id));
    match result {
        Ok(SubmissionResult::Response { content: reply }) => {
            &&& requeued(old, new, thread_id, seq![])
            &&& match session::merged(waiting) {
                Some(t) => {
                    &&& r matches DrainStep::Next { response, content }
                    &&& content@ == t
                    &&& response.content == reply
                    &&& response.attachments@.len() == 0
                    &&& images::attachment_views(response.inline_attachments@)
                        == message::last_images(old.thread(thread_id))
                },
                None => r == DrainStep::Finish(result),
            }
        },
        _ => {
            &&& r == DrainStep::Finish(result)
            &&& requeued(
                old,
                new,
                thread_id,
                match drained {
                    Some(d) => seq![d] + waiting,
                    None => waiting,
                },
            )
        },
    }
}

/// Decides what comes after a turn. `drained` is the queued text that the turn handled. A
/// reply is sent at once where more text is queued, which is then handled as one turn.
/// After anything but a reply the drained text goes back to the front of the queue.
pub fn drain(
    session: &mut Session,
    thread_id: u128,
    result: Result<SubmissionResult, LoopError>,
    drained: Option<String>,
) -> (r: DrainStep)
    ensures
        drains(*old(session), *final(session), thread_id, result, drained, r),
{
    let ghost before = session.threads@;
    if !replies(&result) {
        if let Some(content) = drained {
            match session.take(thread_id) {
                Some(mut thread) => {
                    thread.requeue_drained(content);
                    session.put(thread_id, thread);
                    assert(session.threads@ =~= before.insert(thread_id, thread));
                },
                None => {
                    assert(session.threads@ =~= before);
                },
            }
        } else {
            proof {
                if before.contains_key(thread_id) {
                    assert(before =~= before.insert(thread_id, before[thread_id]));
                }
            }
        }
        return DrainStep::Finish(result);
    }
    let pending: Option<String> = match session.take(thread_id) {
        Some(mut thread) => {
            let pending = thread.drain_pending_messages();
            assert(thread.pending_messages@ =~= Seq::<String>::empty());
            session.put(thread_id, thread);
            assert(session.threads@ =~= before.insert(thread_id, thread));
            pending
        },
        None => {
            assert(session.threads@ =~= before);
            None
        },
    };
    match (result, pending) {
        (Ok(SubmissionResult::Response { content: reply }), Some(content)) => {
            let response = message::build_outgoing_response_for_thread(session, thread_id, reply);
            DrainStep::Next { response, content }
        },
        (result, _) => DrainStep::Finish(result),
    }
}

/// No queued message is lost: after any turn, every text that was queued or being handled
/// has been answered, is handed on to the next turn, or is still in the queue, in order.
pub proof fn no_queued_message_is_lost(
    old: Session,
    new: Session,
    thread_id: u128,
    result: Result<SubmissionResult, LoopError>,
    drained: Option<String>,
    r: DrainStep,
)
    requires
        old.thread(thread_id) is Some,
        drains(old, new, thread_id, result, drained, r),
    ensures
        ({
            let waiting = text::texts(queue(old.thread(thread_id)));
            let left = text::texts(queue(new.thread(thread_id)));
            if result matches Ok(s) && s is Response {
                match r {
                    DrainStep::Next { content, .. } => content@ == text::joined(waiting, "\n"@),
                    DrainStep::Finish(_) => waiting.len() == 0,
                }
            } else {
                match drained {
                    Some(d) => left == seq![d@] + waiting,
                    None => left == waiting,
                }
            }
        }),
{
    let before = queue(old.thread(thread_id));
    if let Some(d) = drained {
        assert(text::texts(seq![d] + before) =~= seq![d@] + text::texts(before));
    }
}

/// Only a reply is followed by another turn: an error, an interruption or a pending approval
/// ends the handling of a message.
pub proof fn only_replies_are_followed_up(
    old: Session,
    new: Session,
    thread_id: u128,
    result: Result<SubmissionResult, LoopError>,
    drained: Option<String>,
    r: DrainStep,
)
    requires
        drains(old, new, thread_id, result, drained, r),
        r is Next,
    ensures
        result matches Ok(s) && s is Response,
        queue(old.thread(thread_id)).len() > 0,
        queue(new.thread(thread_id)).len() == 0,
{
}

/// Each submission goes to its own handler, with what it says: an answer to an approval
/// keeps its word and its request, a thread or a checkpoint keeps its id, a command its name
/// and arguments.
pub proof fn handlers_get_what_was_submitted(
    s: Submission,
    state: ThreadState,
    message: IncomingMessage,
    r: Dispatch,
)
    requires
        dispatches(s, state, message, r),
    ensures
        s matches Submission::ExecApproval { request_id, approved, always } ==> r == (
        Dispatch::Approval { request_id: Some(request_id), approved, always }),
        s matches Submission::ApprovalResponse { approved, always } ==> if r is Approval {
            r == (Dispatch::Approval { request_id: None, approved, always })
        } else {
            r == (Dispatch::HookedInput { content: message.content })
        },
        s is ApprovalResponse && state == ThreadState::AwaitingApproval ==> r is Approval,
        s is ApprovalResponse && state != ThreadState::AwaitingApproval ==> (r is Approval <==> {
            &&& text::trimmed(message.content@).len() > 0
            &&& text::trimmed(message.content@)[0] == '/'
        }),
        s matches Submission::UserInput { content } ==> r == (Dispatch::UserInput { content }),
        s matches Submission::SwitchThread { thread_id } ==> r == (Dispatch::SwitchThread {
            thread_id,
        }),
        s matches Submission::Resume { checkpoint_id } ==> r == (Dispatch::Resume {
            checkpoint_id,
        }),
        s matches Submission::PairingClaim { channel, code } ==> r == (Dispatch::PairingClaim {
            channel,
            code,
        }),
        s matches Submission::SystemCommand { command, args } ==> if command@ == "reasoning"@ {
            r == (Dispatch::Reasoning { args })
        } else {
            r == (Dispatch::SystemCommand { command, args })
        },
        s matches Submission::Plan { sub } ==> r is Prompt && r->Prompt_content@
            == submission::plan_text(sub),
        s is Undo <==> r is Undo,
        s is Redo <==> r is Redo,
        s is Interrupt <==> r is Interrupt,
        s is Compact <==> r is Compact,
        s is Clear <==> r is Clear,
        s is NewThread <==> r is NewThread,
        s is Heartbeat <==> r is Heartbeat,
        s is Summarize <==> r is Summarize,
        s is Suggest <==> r is Suggest,
        s is Quit <==> r is Quit,
        s is ListThreads <==> r is ListThreads,
        s is ExternalCallback || s is GateAuthResolution <==> r is Refused,
        r matches Dispatch::Refused(result) ==> result is Error,
        s is Expected <==> r is Unsupported,
{
    approval::answers_count_while_awaited(state, message.content@);
}

/// An answer to an approval is handled at its word whatever else happens on the thread: no
/// reset, no token and no other command comes in between.
pub proof fn approvals_reach_their_handler(
    old: Session,
    new: Session,
    thread_id: u128,
    approved: bool,
    always: bool,
    message: IncomingMessage,
    expired: bool,
    clock: ResetClock,
    r: Handling,
)
    requires
        handles(
            old,
            new,
            thread_id,
            Submission::ApprovalResponse { approved, always },
            message,
            expired,
            clock,
            r,
        ),
        old.thread(thread_id) matches Some(t) && t.state == ThreadState::AwaitingApproval,
    ensures
        r matches Handling::Run { handler, .. } && handler == (Dispatch::Approval {
            request_id: None,
            approved,
            always,
        }),
{
    approval::answers_count_while_awaited(ThreadState::AwaitingApproval, message.content@);
}

/// Any submission but user text is handled at once, logged under its own name, and ends the
/// wait for a token; user text goes to the extension that waits for a token, as it is, unless
/// it came too late.
pub proof fn commands_end_the_wait_for_a_token(
    old: Session,
    new: Session,
    thread_id: u128,
    submission: Submission,
    message: IncomingMessage,
    expired: bool,
    clock: ResetClock,
    r: Handling,
)
    requires
        handles(old, new, thread_id, submission, message, expired, clock, r),
    ensures
        !(submission is UserInput) ==> {
            &&& r matches Handling::Run { audit, handler }
            &&& json::string_of(audit) == submission.logged_as()
            &&& new.thread(thread_id) matches Some(n) ==> n.pending_auth is None
        },
        (submission is UserInput && old.thread(thread_id) is Some && old.thread(
            thread_id,
        )->0.pending_auth is Some) ==> if expired {
            r is Reply && new.thread(thread_id)->0.pending_auth is None
        } else {
            &&& r matches Handling::Token { extension_name, token }
            &&& extension_name@ == old.thread(thread_id)->0.pending_auth->0.extension_name@
            &&& token == submission->UserInput_content
            &&& new == old
        },
        r matches Handling::Run { audit, handler } ==> handler is UserInput ==> audit is None,
{
}

/// After a turn its result is what the message ends with, unless queued text follows: then
/// the reply itself goes out first.
pub proof fn turns_keep_their_result(
    old: Session,
    new: Session,
    thread_id: u128,
    result: Result<SubmissionResult, LoopError>,
    drained: Option<String>,
    r: DrainStep,
)
    requires
        drains(old, new, thread_id, result, drained, r),
    ensures
        r matches DrainStep::Finish(given) ==> given == result,
        r matches DrainStep::Next { response, .. } ==> {
            &&& result matches Ok(s)
            &&& s.replies(response.content@)
        },
        r is Next <==> (result is Ok && result->Ok_0 is Response && queue(
            old.thread(thread_id),
        ).len() > 0),
        match (old.thread(thread_id), new.thread(thread_id)) {
            (Some(o), Some(n)) => n.turns == o.turns && n.state == o.state,
            (None, None) => true,
            _ => false,
        },
        forall|other: u128| other != thread_id ==> #[trigger] new.thread(other) == old.thread(other),
{
    assert forall|other: u128| other != thread_id implies #[trigger] new.thread(other)
        == old.thread(other) by {
        assert(new.thread(other) == old.thread(other));
    }
}

/// What a thread awaits a token for, and what it has queued, is read off that thread.
pub proof fn threads_speak_for_themselves(t: Thread)
    ensures
        awaited_extension(Some(t)) is Some <==> t.pending_auth is Some,
        t.pending_auth matches Some(p) ==> awaited_extension(Some(t)) == Some(p.extension_name@),
        awaited_extension(None) is None,
        state_or_idle(Some(t)) == t.state,
        state_or_idle(None) == ThreadState::Idle,
        queue(Some(t)) == t.pending_messages@,
        queue(None).len() == 0,
{
}

/// Whatever a handler gives is passed on: a reply that is neither empty nor silent is sent
/// as it is, an error and a refusal are told, a failure stays a failure.
pub proof fn handlers_are_heard(
    handling: Handling,
    end: HandlingEnd,
    silent: bool,
    message: IncomingMessage,
    session: Session,
    thread_id: u128,
    r: Result<HandleOutcome, String>,
)
    requires
        settles(handling, end, silent, message, session, thread_id, r),
    ensures
        handling matches Handling::Reply { text } ==> r is Ok && r->Ok_0.says(text@),
        (handling is Token && end is TokenAnswered && end->TokenAnswered_0 is Some
            && end->TokenAnswered_0->0@.len() > 0) ==> r is Ok && r->Ok_0.says(
            end->TokenAnswered_0->0@,
        ),
        (handling is Run && !(handling->handler is Quit || handling->handler is Refused
            || handling->handler is Unsupported)) ==> {
            &&& end matches HandlingEnd::Result(Err(e)) ==> r is Err && r->Err_0@ == e@
            &&& end matches HandlingEnd::Result(Ok(SubmissionResult::Error { message: m })) ==> r
                is Ok && r->Ok_0.says("Error: "@ + m@)
            &&& end matches HandlingEnd::Result(Ok(SubmissionResult::Response { content })) ==> (
            !silent && content@.len() > 0) ==> {
                &&& r is Ok
                &&& r->Ok_0 is Respond
                &&& r->Ok_0->Respond_0.content@ == content@
            }
        },
        (handling is Run && handling->handler is Refused) ==> r is Ok,
        (handling is Run && handling->handler is Quit) ==> r is Ok && r->Ok_0 is Shutdown,
        (handling is Reset && end is Result) ==> (r is Ok <==> end->Result_0 is Ok),
{
}

/// A reply that is sent between two turns carries the images of its turn and nothing else, and
/// the text that is handled next is all that was queued; a reply with nothing queued after it
/// is the result as it is.
pub proof fn replies_between_turns_are_complete(
    old: Session,
    new: Session,
    thread_id: u128,
    result: Result<SubmissionResult, LoopError>,
    drained: Option<String>,
    r: DrainStep,
)
    requires
        drains(old, new, thread_id, result, drained, r),
    ensures
        r matches DrainStep::Next { response, content } ==> {
            &&& result is Ok
            &&& result->Ok_0 is Response
            &&& response.content == result->Ok_0->Response_content
            &&& response.attachments@.len() == 0
            &&& images::attachment_views(response.inline_attachments@) == message::last_images(
                old.thread(thread_id),
            )
            &&& Some(content@) == session::merged(queue(old.thread(thread_id)))
        },
        r matches DrainStep::Finish(given) ==> given == result,
{
}

/// Text for an extension that has waited too long is answered with an error that names the
/// extension, and does not reach it.
pub proof fn late_tokens_are_turned_away(
    old: Session,
    new: Session,
    thread_id: u128,
    submission: Submission,
    message: IncomingMessage,
    clock: ResetClock,
    r: Handling,
)
    requires
        handles(old, new, thread_id, submission, message, true, clock, r),
        submission is UserInput,
        old.thread(thread_id) is Some,
        old.thread(thread_id)->0.pending_auth is Some,
    ensures
        r matches Handling::Reply { text } && submission::names(
            text@,
            old.thread(thread_id)->0.pending_auth->0.extension_name@,
        ),
        new.thread(thread_id) matches Some(n) && n.pending_auth is None,
{
    let name = old.thread(thread_id)->0.pending_auth->0.extension_name@;
    submission::parts_are_held("Authentication for **"@, name, "** expired. Please try again."@);
}

} // verus!
