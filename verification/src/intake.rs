//! The way of a message from its channel to the thread that it belongs to, or to the second
//! engine.
//!
//! The way is a machine. Each step names the outside work to do next, and takes the outcome
//! of that work as the event of the step after it.

use vstd::prelude::*;

use crate::ids;
use crate::json;
use crate::message::IncomingMessage;
use crate::outcome::{BridgeOutcome, HandleOutcome, HookVerdict};
use crate::submission;
use crate::submission::{AuthGateResolution, Submission};
use crate::text;

verus! {

/// A call into the second engine.
pub enum EngineCall {
    /// Text of the user.
    UserInput { content: String },
    Approval { approved: bool, always: bool },
    ExecApproval { request_id: u128, approved: bool, always: bool },
    ExternalCallback { request_id: u128 },
    GateAuthResolution { request_id: u128, resolution: AuthGateResolution },
    Interrupt,
    NewThread,
    Clear,
    Expected { description: String },
    PairingClaim { channel: String, code: String },
}

/// What happened outside since the last step.
pub enum IntakeEvent {
    Begin,
    /// The tools know where an answer goes.
    ContextSet,
    Parsed(Submission),
    /// Whether the user has an authentication pending in the second engine.
    PendingAuth(bool),
    /// Whether the conversation has a gate pending in the second engine.
    PendingGate(bool),
    Hooked(HookVerdict),
    /// The second engine ended, or failed.
    Handled(Result<BridgeOutcome, String>),
    /// The thread was loaded, or the reason that it may not be.
    Hydrated(Option<String>),
}

/// The outside work to do next.
#[allow(inconsistent_fields)]
pub enum IntakeAction {
    /// Tell the tools where an answer goes.
    SetToolContext { channel: String, target: String },
    /// Parse the content of the message.
    Parse,
    QueryPendingAuth,
    QueryPendingGate,
    /// Let the hooks see the content.
    RunInboundHook { content: String },
    CallEngine(EngineCall),
    /// Load the thread of the message from the store.
    Hydrate { thread_id: String },
    /// Handle the submission on a thread: on the one with this id where it names one.
    Bind { submission: Submission, target: Option<u128> },
    /// The message has been handled.
    Finish(Result<HandleOutcome, String>),
    /// The event came out of turn: nothing happened.
    Ignore,
}

/// What the machine waits for.
#[derive(Clone, Copy, Debug, PartialEq, Eq, Structural)]
pub enum IntakePhase {
    Ready,
    SettingContext,
    Parsing,
    CheckingAuth,
    CheckingGate,
    Hooking,
    RoutingAuth,
    InEngine,
    Hydrating,
    Ended,
}

/// A message on its way.
pub struct Intake {
    pub engine_v2: bool,
    pub submission: Option<Submission>,
    pub phase: IntakePhase,
}

/// The outside work of a step by its values.
pub enum IntakeWork {
    SetToolContext(Seq<char>, Seq<char>),
    Parse,
    QueryPendingAuth,
    QueryPendingGate,
    RunInboundHook(Seq<char>),
    CallEngine(EngineCall),
    Hydrate(Seq<char>),
    Bind(Submission, Option<u128>),
    Reply(Seq<char>),
    EngineEnded(BridgeOutcome),
    Fail(Seq<char>),
    Ignore,
}

/// Everything that a step decides.
pub struct IntakeDecision {
    pub next: Intake,
    pub work: IntakeWork,
}

/// What a hook that does not let a text pass is answered with.
pub open spec fn hook_refusal(verdict: HookVerdict) -> Option<Seq<char>> {
    match verdict {
        HookVerdict::Rejected { reason } => Some("[Message rejected: "@ + reason@ + "]"@),
        HookVerdict::Failed { error } => Some("[Message blocked by hook policy: "@ + error@ + "]"@),
        _ => None,
    }
}

/// The text that goes on where the hooks let one pass: they may have changed it.
pub open spec fn let_through(content: String, verdict: HookVerdict) -> String {
    match verdict {
        HookVerdict::Modified { content: c } => c,
        _ => content,
    }
}

/// Lets a text pass the hooks: the text that goes on, or the refusal to answer with.
pub fn pass_hook(content: String, verdict: HookVerdict) -> (r: Result<String, String>)
    ensures
        match hook_refusal(verdict) {
            Some(t) => r matches Err(e) && e@ == t,
            None => r == Ok::<String, String>(let_through(content, verdict)),
        },
{
    match verdict {
        HookVerdict::Rejected { reason } => Err(
            text::cat3("[Message rejected: ", reason.as_str(), "]"),
        ),
        HookVerdict::Failed { error } => Err(
            text::cat3("[Message blocked by hook policy: ", error.as_str(), "]"),
        ),
        HookVerdict::Modified { content: c } => Ok(c),
        HookVerdict::Pass => Ok(content),
    }
}

/// The text is a slash command.
pub open spec fn slashed(content: Seq<char>) -> bool {
    text::begins_with(text::trimmed(content), "/"@)
}

/// The second engine handles the submission.
pub open spec fn engine_handles(s: Submission) -> bool {
    match s {
        Submission::UserInput { .. } => true,
        Submission::ApprovalResponse { .. } => true,
        Submission::ExecApproval { .. } => true,
        Submission::ExternalCallback { .. } => true,
        Submission::GateAuthResolution { .. } => true,
        Submission::Interrupt => true,
        Submission::NewThread => true,
        Submission::Clear => true,
        Submission::Expected { .. } => true,
        Submission::PairingClaim { .. } => true,
        _ => false,
    }
}

/// The thread that a submission names.
pub open spec fn named_thread(message: IncomingMessage, s: Submission) -> Option<u128> {
    if s.addresses_thread() {
        match message.thread_id {
            Some(t) => ids::parsed_id(t@),
            None => None,
        }
    } else {
        None
    }
}

impl Intake {
    /// The step that waits in `phase` for the outcome of `work`.
    pub open spec fn waits(self, phase: IntakePhase, work: IntakeWork) -> IntakeDecision {
        IntakeDecision { next: Intake { phase, ..self }, work }
    }

    /// The last step.
    pub open spec fn ends(self, work: IntakeWork) -> IntakeDecision {
        IntakeDecision {
            next: Intake { phase: IntakePhase::Ended, submission: None, ..self },
            work,
        }
    }

    /// The machine with a submission.
    pub open spec fn with(self, s: Submission) -> Intake {
        Intake { submission: Some(s), ..self }
    }

    /// What comes of a parsed submission: a bare keyword that reads like an approval is one
    /// for the second engine only if something is pending there.
    pub open spec fn parsed(self, message: IncomingMessage, s: Submission) -> IntakeDecision {
        if self.engine_v2 && s is ApprovalResponse && !slashed(message.content@) {
            self.with(s).waits(IntakePhase::CheckingAuth, IntakeWork::QueryPendingAuth)
        } else {
            self.inbound(message, s)
        }
    }

    /// The hooks see user text.
    pub open spec fn inbound(self, message: IncomingMessage, s: Submission) -> IntakeDecision {
        match s {
            Submission::UserInput { content } => self.with(s).waits(
                IntakePhase::Hooking,
                IntakeWork::RunInboundHook(content@),
            ),
            _ => self.routed(message, s),
        }
    }

    /// The submission goes to the second engine, or to a thread.
    pub open spec fn routed(self, message: IncomingMessage, s: Submission) -> IntakeDecision {
        if self.engine_v2 {
            match s {
                Submission::UserInput { content } => self.calls(EngineCall::UserInput { content }),
                Submission::ApprovalResponse { .. } => self.with(s).waits(
                    IntakePhase::RoutingAuth,
                    IntakeWork::QueryPendingAuth,
                ),
                Submission::ExecApproval { request_id, approved, always } => self.calls(
                    EngineCall::ExecApproval { request_id, approved, always },
                ),
                Submission::ExternalCallback { request_id } => self.calls(
                    EngineCall::ExternalCallback { request_id },
                ),
                Submission::GateAuthResolution { request_id, resolution } => self.calls(
                    EngineCall::GateAuthResolution { request_id, resolution },
                ),
                Submission::Interrupt => self.calls(EngineCall::Interrupt),
                Submission::NewThread => self.calls(EngineCall::NewThread),
                Submission::Clear => self.calls(EngineCall::Clear),
                Submission::Expected { description } => self.calls(
                    EngineCall::Expected { description },
                ),
                Submission::PairingClaim { channel, code } => self.calls(
                    EngineCall::PairingClaim { channel, code },
                ),
                _ => self.local(message, s),
            }
        } else {
            match s {
                Submission::ExternalCallback { .. } => self.ends(
                    IntakeWork::Reply("Error: External callbacks require ENGINE_V2"@),
                ),
                Submission::GateAuthResolution { .. } => self.ends(
                    IntakeWork::Reply("Error: Auth gate resolution requires ENGINE_V2"@),
                ),
                _ => self.local(message, s),
            }
        }
    }

    /// The second engine is called.
    pub open spec fn calls(self, call: EngineCall) -> IntakeDecision {
        IntakeDecision {
            next: Intake { phase: IntakePhase::InEngine, submission: None, ..self },
            work: IntakeWork::CallEngine(call),
        }
    }

    /// The submission goes to a thread, which is loaded first where the message names one.
    pub open spec fn local(self, message: IncomingMessage, s: Submission) -> IntakeDecision {
        match message.thread_id {
            Some(t) => self.with(s).waits(IntakePhase::Hydrating, IntakeWork::Hydrate(t@)),
            None => self.ends(IntakeWork::Bind(s, None)),
        }
    }

    /// What a step decides.
    pub open spec fn decide(self, message: IncomingMessage, event: IntakeEvent) -> IntakeDecision {
        match (self.phase, event, self.submission) {
            (IntakePhase::Ready, IntakeEvent::Begin, _) => if message.is_internal {
                self.ends(IntakeWork::Reply(message.content@))
            } else {
                self.waits(
                    IntakePhase::SettingContext,
                    IntakeWork::SetToolContext(message.channel@, message.target()),
                )
            },
            (IntakePhase::SettingContext, IntakeEvent::ContextSet, Some(s)) => self.parsed(
                message,
                s,
            ),
            (IntakePhase::SettingContext, IntakeEvent::ContextSet, None) => self.waits(
                IntakePhase::Parsing,
                IntakeWork::Parse,
            ),
            (IntakePhase::Parsing, IntakeEvent::Parsed(s), _) => self.parsed(message, s),
            (IntakePhase::CheckingAuth, IntakeEvent::PendingAuth(pending), Some(s)) => if pending {
                self.inbound(message, s)
            } else {
                self.waits(IntakePhase::CheckingGate, IntakeWork::QueryPendingGate)
            },
            (IntakePhase::CheckingGate, IntakeEvent::PendingGate(pending), Some(s)) => if pending {
                self.inbound(message, s)
            } else {
                self.inbound(message, Submission::UserInput { content: message.content })
            },
            (IntakePhase::Hooking, IntakeEvent::Hooked(verdict), Some(s)) => match hook_refusal(
                verdict,
            ) {
                Some(t) => self.ends(IntakeWork::Reply(t)),
                None => match verdict {
                    HookVerdict::Modified { content } => self.routed(
                        message,
                        Submission::UserInput { content },
                    ),
                    _ => self.routed(message, s),
                },
            },
            (
                IntakePhase::RoutingAuth,
                IntakeEvent::PendingAuth(pending),
                Some(Submission::ApprovalResponse { approved, always }),
            ) => if pending {
                self.calls(EngineCall::UserInput { content: message.content })
            } else {
                self.calls(EngineCall::Approval { approved, always })
            },
            (IntakePhase::InEngine, IntakeEvent::Handled(result), _) => match result {
                Ok(outcome) => self.ends(IntakeWork::EngineEnded(outcome)),
                Err(e) => self.ends(IntakeWork::Fail(e@)),
            },
            (IntakePhase::Hydrating, IntakeEvent::Hydrated(rejection), Some(s)) => match rejection {
                Some(t) => self.ends(IntakeWork::Reply("Error: "@ + t@)),
                None => self.ends(IntakeWork::Bind(s, named_thread(message, s))),
            },
            _ => IntakeDecision { next: self, work: IntakeWork::Ignore },
        }
    }
}

impl IntakeAction {
    /// The work is what was decided.
    pub open spec fn carries_out(self, work: IntakeWork) -> bool {
        match work {
            IntakeWork::SetToolContext(c, t) => self matches IntakeAction::SetToolContext {
                channel,
                target,
            } && channel@ == c && target@ == t,
            IntakeWork::Parse => self is Parse,
            IntakeWork::QueryPendingAuth => self is QueryPendingAuth,
            IntakeWork::QueryPendingGate => self is QueryPendingGate,
            IntakeWork::RunInboundHook(c) => self matches IntakeAction::RunInboundHook { content }
                && content@ == c,
            IntakeWork::CallEngine(call) => self == IntakeAction::CallEngine(call),
            IntakeWork::Hydrate(t) => self matches IntakeAction::Hydrate { thread_id }
                && thread_id@ == t,
            IntakeWork::Bind(s, id) => self == (IntakeAction::Bind { submission: s, target: id }),
            IntakeWork::Reply(t) => self matches IntakeAction::Finish(Ok(outcome)) && outcome.says(
                t,
            ),
            IntakeWork::EngineEnded(o) => self matches IntakeAction::Finish(Ok(outcome)) && match o {
                BridgeOutcome::Respond(s) => outcome.says(s@),
                BridgeOutcome::NoResponse => outcome is NoResponse,
                BridgeOutcome::Pending => outcome is Pending,
            },
            IntakeWork::Fail(t) => self matches IntakeAction::Finish(Err(e)) && e@ == t,
            IntakeWork::Ignore => self is Ignore,
        }
    }
}

impl Intake {
    /// Begins the way of a message. A submission that came with the message needs no parsing.
    pub fn new(engine_v2: bool, message: &IncomingMessage) -> (r: Intake)
        ensures
            r == (Intake { engine_v2, submission: r.submission, phase: IntakePhase::Ready }),
            submission::copied(message.structured_submission, r.submission),
    {
        let submission = submission::copy_submission(&message.structured_submission);
        Intake { engine_v2, submission, phase: IntakePhase::Ready }
    }

    fn reply(&mut self, content: String) -> (r: IntakeAction)
        ensures
            *final(self) == old(self).ends(IntakeWork::Reply(content@)).next,
            r.carries_out(IntakeWork::Reply(content@)),
    {
        self.phase = IntakePhase::Ended;
        self.submission = None;
        IntakeAction::Finish(Ok(HandleOutcome::reply(content)))
    }

    fn call(&mut self, call: EngineCall) -> (r: IntakeAction)
        ensures
            *final(self) == old(self).calls(call).next,
            r.carries_out(old(self).calls(call).work),
    {
        self.phase = IntakePhase::InEngine;
        self.submission = None;
        IntakeAction::CallEngine(call)
    }

    fn go_local(&mut self, message: &IncomingMessage, s: Submission) -> (r: IntakeAction)
        ensures
            *final(self) == old(self).local(*message, s).next,
            r.carries_out(old(self).local(*message, s).work),
    {
        match &message.thread_id {
            Some(t) => {
                self.submission = Some(s);
                self.phase = IntakePhase::Hydrating;
                IntakeAction::Hydrate { thread_id: t.clone() }
            },
            None => {
                self.submission = None;
                self.phase = IntakePhase::Ended;
                IntakeAction::Bind { submission: s, target: None }
            },
        }
    }

    fn route(&mut self, message: &IncomingMessage, s: Submission) -> (r: IntakeAction)
        ensures
            *final(self) == old(self).routed(*message, s).next,
            r.carries_out(old(self).routed(*message, s).work),
    {
        if self.engine_v2 {
            match s {
                Submission::UserInput { content } => self.call(EngineCall::UserInput { content }),
                Submission::ApprovalResponse { approved, always } => {
                    self.submission = Some(Submission::ApprovalResponse { approved, always });
                    self.phase = IntakePhase::RoutingAuth;
                    IntakeAction::QueryPendingAuth
                },
                Submission::ExecApproval { request_id, approved, always } => self.call(
                    EngineCall::ExecApproval { request_id, approved, always },
                ),
                Submission::ExternalCallback { request_id } => self.call(
                    EngineCall::ExternalCallback { request_id },
                ),
                Submission::GateAuthResolution { request_id, resolution } => self.call(
                    EngineCall::GateAuthResolution { request_id, resolution },
                ),
                Submission::Interrupt => self.call(EngineCall::Interrupt),
                Submission::NewThread => self.call(EngineCall::NewThread),
                Submission::Clear => self.call(EngineCall::Clear),
                Submission::Expected { description } => self.call(
                    EngineCall::Expected { description },
                ),
                Submission::PairingClaim { channel, code } => self.call(
                    EngineCall::PairingClaim { channel, code },
                ),
                other => self.go_local(message, other),
            }
        } else {
            match s {
                Submission::ExternalCallback { .. } => self.reply(
                    "Error: External callbacks require ENGINE_V2".to_owned(),
                ),
                Submission::GateAuthResolution { .. } => self.reply(
                    "Error: Auth gate resolution requires ENGINE_V2".to_owned(),
                ),
                other => self.go_local(message, other),
            }
        }
    }

    fn let_in(&mut self, message: &IncomingMessage, s: Submission) -> (r: IntakeAction)
        ensures
            *final(self) == old(self).inbound(*message, s).next,
            r.carries_out(old(self).inbound(*message, s).work),
    {
        match s {
            Submission::UserInput { content } => {
                let shown = content.clone();
                self.submission = Some(Submission::UserInput { content });
                self.phase = IntakePhase::Hooking;
                IntakeAction::RunInboundHook { content: shown }
            },
            other => self.route(message, other),
        }
    }

    fn after_parse(&mut self, message: &IncomingMessage, s: Submission) -> (r: IntakeAction)
        ensures
            *final(self) == old(self).parsed(*message, s).next,
            r.carries_out(old(self).parsed(*message, s).work),
    {
        let approval: bool = match &s {
            Submission::ApprovalResponse { .. } => true,
            _ => false,
        };
        if self.engine_v2 && approval && !text::starts_with(
            text::trim(message.content.as_str()),
            "/",
        ) {
            self.submission = Some(s);
            self.phase = IntakePhase::CheckingAuth;
            IntakeAction::QueryPendingAuth
        } else {
            self.let_in(message, s)
        }
    }

    fn after_hook(
        &mut self,
        message: &IncomingMessage,
        s: Submission,
        verdict: HookVerdict,
    ) -> (r: IntakeAction)
        requires
            old(self).phase == IntakePhase::Hooking,
            old(self).submission is None,
        ensures
            ({
                let d = old(self).with(s).decide(*message, IntakeEvent::Hooked(verdict));
                &&& *final(self) == d.next
                &&& r.carries_out(d.work)
            }),
    {
        match verdict {
            HookVerdict::Rejected { reason } => self.reply(
                text::cat3("[Message rejected: ", reason.as_str(), "]"),
            ),
            HookVerdict::Failed { error } => self.reply(
                text::cat3("[Message blocked by hook policy: ", error.as_str(), "]"),
            ),
            HookVerdict::Modified { content } => self.route(
                message,
                Submission::UserInput { content },
            ),
            HookVerdict::Pass => self.route(message, s),
        }
    }

    fn bind(&mut self, message: &IncomingMessage, s: Submission) -> (r: IntakeAction)
        ensures
            *final(self) == old(self).ends(IntakeWork::Bind(s, named_thread(*message, s))).next,
            r.carries_out(IntakeWork::Bind(s, named_thread(*message, s))),
            s.addresses_thread() ==> forall|id: u128|
                json::string_of(message.thread_id) == Some(#[trigger] ids::id_text(id)) ==> (
                r matches IntakeAction::Bind { target, .. } && target == Some(id)),
    {
        let target: Option<u128> = if s.targets_thread() {
            match &message.thread_id {
                Some(t) => ids::parse(t.as_str()),
                None => None,
            }
        } else {
            None
        };
        self.phase = IntakePhase::Ended;
        self.submission = None;
        IntakeAction::Bind { submission: s, target }
    }

    /// Takes one step on the way of a message. A submission that names its thread by the
    /// hyphenated form of an id is bound to that thread.
    pub fn step(&mut self, message: &IncomingMessage, event: IntakeEvent) -> (r: IntakeAction)
        ensures
            *final(self) == old(self).decide(*message, event).next,
            r.carries_out(old(self).decide(*message, event).work),
            (r matches IntakeAction::Bind { submission, target } && submission.addresses_thread())
                ==> forall|id: u128|
                json::string_of(message.thread_id) == Some(#[trigger] ids::id_text(id))
                    ==> r->Bind_target == Some(id),
    {
        match (self.phase, event) {
            (IntakePhase::Ready, IntakeEvent::Begin) => if message.is_internal {
                self.reply(message.content.clone())
            } else {
                self.phase = IntakePhase::SettingContext;
                IntakeAction::SetToolContext {
                    channel: message.channel.clone(),
                    target: message.answer_target(),
                }
            },
            (IntakePhase::SettingContext, IntakeEvent::ContextSet) => match self.submission.take() {
                Some(s) => self.after_parse(message, s),
                None => {
                    self.phase = IntakePhase::Parsing;
                    IntakeAction::Parse
                },
            },
            (IntakePhase::Parsing, IntakeEvent::Parsed(s)) => self.after_parse(message, s),
            (IntakePhase::CheckingAuth, IntakeEvent::PendingAuth(pending)) =>
                match self.submission.take() {
                Some(s) => if pending {
                    self.let_in(message, s)
                } else {
                    self.submission = Some(s);
                    self.phase = IntakePhase::CheckingGate;
                    IntakeAction::QueryPendingGate
                },
                None => IntakeAction::Ignore,
            },
            (IntakePhase::CheckingGate, IntakeEvent::PendingGate(pending)) =>
                match self.submission.take() {
                Some(s) => if pending {
                    self.let_in(message, s)
                } else {
                    self.let_in(message, Submission::UserInput { content: message.content.clone() })
                },
                None => IntakeAction::Ignore,
            },
            (IntakePhase::Hooking, IntakeEvent::Hooked(verdict)) => match self.submission.take() {
                Some(s) => self.after_hook(message, s, verdict),
                None => IntakeAction::Ignore,
            },
            (IntakePhase::RoutingAuth, IntakeEvent::PendingAuth(pending)) =>
                match self.submission.take() {
                Some(Submission::ApprovalResponse { approved, always }) => if pending {
                    self.call(EngineCall::UserInput { content: message.content.clone() })
                } else {
                    self.call(EngineCall::Approval { approved, always })
                },
                other => {
                    self.submission = other;
                    IntakeAction::Ignore
                },
            },
            (IntakePhase::InEngine, IntakeEvent::Handled(result)) => {
                self.phase = IntakePhase::Ended;
                self.submission = None;
                match result {
                    Ok(outcome) => IntakeAction::Finish(Ok(HandleOutcome::from_bridge(outcome))),
                    Err(e) => IntakeAction::Finish(Err(e)),
                }
            },
            (IntakePhase::Hydrating, IntakeEvent::Hydrated(rejection)) =>
                match self.submission.take() {
                Some(s) => match rejection {
                    Some(t) => self.reply(text::cat("Error: ", t.as_str())),
                    None => self.bind(message, s),
                },
                None => IntakeAction::Ignore,
            },
            _ => IntakeAction::Ignore,
        }
    }
}

/// How far a message has come.
pub open spec fn stage(phase: IntakePhase) -> int {
    match phase {
        IntakePhase::Ready => 0,
        IntakePhase::SettingContext => 1,
        IntakePhase::Parsing => 2,
        IntakePhase::CheckingAuth => 3,
        IntakePhase::CheckingGate => 4,
        IntakePhase::Hooking => 5,
        IntakePhase::RoutingAuth => 6,
        IntakePhase::InEngine => 7,
        IntakePhase::Hydrating => 8,
        IntakePhase::Ended => 9,
    }
}

/// Every event that is not out of turn brings a message further, so that it is handled
/// after nine steps at most; one that is out of turn changes nothing.
pub proof fn intake_goes_forward(intake: Intake, message: IncomingMessage, event: IntakeEvent)
    ensures
        ({
            let d = intake.decide(message, event);
            &&& stage(d.next.phase) <= 9
            &&& !(d.work is Ignore) ==> stage(intake.phase) < stage(d.next.phase)
            &&& d.work is Ignore ==> d.next == intake
            &&& d.next.engine_v2 == intake.engine_v2
        }),
{
}

/// What holds of a message that may still reach a thread: a submission for the second engine
/// is not on its way to one.
pub open spec fn kept_apart(intake: Intake) -> bool {
    &&& intake.phase == IntakePhase::RoutingAuth ==> intake.engine_v2
    &&& intake.phase == IntakePhase::Hydrating ==> match intake.submission {
        Some(s) => if intake.engine_v2 {
            !engine_handles(s)
        } else {
            !s.engine_only()
        },
        None => false,
    }
}

/// Submissions that only the second engine can handle never reach a session: with the
/// engine switched off they are refused before any thread is loaded or made active, and
/// with the engine switched on they, and all others that it handles, go to the engine.
pub proof fn engine_submissions_reach_no_thread(
    intake: Intake,
    message: IncomingMessage,
    event: IntakeEvent,
)
    requires
        kept_apart(intake),
    ensures
        kept_apart(intake.decide(message, event).next),
        intake.decide(message, event).work matches IntakeWork::Bind(s, _) ==> {
            &&& !s.engine_only()
            &&& intake.engine_v2 ==> !engine_handles(s)
        },
        intake.decide(message, event).work is CallEngine ==> intake.engine_v2,
{
}

/// With the second engine switched off, a submission for it is answered with an error as
/// soon as it is known: no hook, no thread and no engine sees it.
pub proof fn engine_only_is_refused_at_once(
    intake: Intake,
    message: IncomingMessage,
    s: Submission,
)
    requires
        !intake.engine_v2,
        s.engine_only(),
    ensures
        intake.parsed(message, s).next.phase == IntakePhase::Ended,
        intake.parsed(message, s).work == IntakeWork::Reply(
            if s is ExternalCallback {
                "Error: External callbacks require ENGINE_V2"@
            } else {
                "Error: Auth gate resolution requires ENGINE_V2"@
            },
        ),
{
}

/// A text that the hooks turn down goes no further.
pub proof fn refused_text_goes_no_further(
    intake: Intake,
    message: IncomingMessage,
    verdict: HookVerdict,
)
    requires
        intake.phase == IntakePhase::Hooking,
        intake.submission is Some,
        hook_refusal(verdict) is Some,
    ensures
        intake.decide(message, IntakeEvent::Hooked(verdict)).next.phase == IntakePhase::Ended,
        intake.decide(message, IntakeEvent::Hooked(verdict)).work == IntakeWork::Reply(
            hook_refusal(verdict)->0,
        ),
{
}

/// What holds of user text: it is with the hooks until they have let it pass.
pub open spec fn hooked_first(intake: Intake) -> bool {
    (intake.submission matches Some(s) && s is UserInput) ==> intake.phase == IntakePhase::Ready
        || intake.phase == IntakePhase::SettingContext || intake.phase == IntakePhase::Hooking
        || intake.phase == IntakePhase::Hydrating
}

/// User text reaches a thread or the second engine only through the hooks: the step before
/// it does is the one that takes in their verdict, or a later one.
pub proof fn hooks_see_all_user_text(intake: Intake, message: IncomingMessage, event: IntakeEvent)
    requires
        hooked_first(intake),
    ensures
        hooked_first(intake.decide(message, event).next),
        ({
            let d = intake.decide(message, event);
            &&& (d.work matches IntakeWork::Bind(s, _) && s is UserInput) ==> intake.phase
                == IntakePhase::Hooking || intake.phase == IntakePhase::Hydrating
            &&& d.next.phase == IntakePhase::Hydrating && !(d.work is Ignore) && (
            d.next.submission matches Some(s) && s is UserInput) ==> intake.phase
                == IntakePhase::Hooking
        }),
{
}

/// Without the second engine, user text that the hooks let pass reaches a thread as they
/// leave it: at once, or once the thread of the message is loaded.
pub proof fn hooked_text_is_bound(
    intake: Intake,
    message: IncomingMessage,
    content: String,
    verdict: HookVerdict,
)
    requires
        !intake.engine_v2,
        intake.phase == IntakePhase::Hooking,
        intake.submission == Some(Submission::UserInput { content }),
        hook_refusal(verdict) is None,
    ensures
        ({
            let bound = IntakeWork::Bind(
                Submission::UserInput { content: let_through(content, verdict) },
                None,
            );
            let d = intake.decide(message, IntakeEvent::Hooked(verdict));
            match message.thread_id {
                None => d.work == bound,
                Some(t) => {
                    &&& d.work == IntakeWork::Hydrate(t@)
                    &&& d.next.decide(message, IntakeEvent::Hydrated(None)).work == bound
                },
            }
        }),
{
}

/// With the second engine switched on, a bare keyword that reads like an approval is taken
/// as user text where nothing is pending; a slash command never is.
pub proof fn bare_keywords_become_text(intake: Intake, message: IncomingMessage, s: Submission)
    requires
        s is ApprovalResponse,
        intake.engine_v2,
    ensures
        !slashed(message.content@) ==> {
            let first = intake.parsed(message, s);
            let second = first.next.decide(message, IntakeEvent::PendingAuth(false));
            let third = second.next.decide(message, IntakeEvent::PendingGate(false));
            &&& first.work is QueryPendingAuth
            &&& second.work is QueryPendingGate
            &&& third.work == IntakeWork::RunInboundHook(message.content@)
            &&& third.next.submission == Some(Submission::UserInput { content: message.content })
        },
        slashed(message.content@) ==> intake.parsed(message, s).next.phase
            == IntakePhase::RoutingAuth,
{
}

/// A message that the agent itself rendered is forwarded word for word; any other first tells
/// the tools where its answer goes.
pub proof fn messages_begin_on_their_way(
    intake: Intake,
    message: IncomingMessage,
    action: IntakeAction,
)
    requires
        intake.phase == IntakePhase::Ready,
        action.carries_out(intake.decide(message, IntakeEvent::Begin).work),
    ensures
        message.is_internal ==> {
            &&& action matches IntakeAction::Finish(Ok(outcome))
            &&& outcome.says(message.content@)
            &&& intake.decide(message, IntakeEvent::Begin).next.phase == IntakePhase::Ended
        },
        !message.is_internal ==> {
            &&& action matches IntakeAction::SetToolContext { channel, target }
            &&& channel@ == message.channel@
            &&& target@ == message.target()
        },
{
}

/// A message is parsed unless it came with a submission, which is then taken as it is.
pub proof fn only_plain_messages_are_parsed(intake: Intake, message: IncomingMessage)
    requires
        intake.phase == IntakePhase::SettingContext,
    ensures
        intake.submission is None ==> intake.decide(message, IntakeEvent::ContextSet).work is Parse,
        intake.submission matches Some(s) ==> {
            let given = intake.decide(message, IntakeEvent::ContextSet);
            let parsed = (Intake { phase: IntakePhase::Parsing, ..intake }).decide(
                message,
                IntakeEvent::Parsed(s),
            );
            &&& !(given.work is Parse)
            &&& given.work == parsed.work
            &&& given.next == parsed.next
        },
{
}

/// With the second engine switched on, an answer to an approval stays one where an
/// authentication or a gate is pending, and where it is a slash command: it is kept, and goes
/// to the engine with the same word. Only without anything pending is it taken as text.
pub proof fn pending_gates_get_their_answer(
    intake: Intake,
    message: IncomingMessage,
    approved: bool,
    always: bool,
)
    requires
        intake.engine_v2,
        intake.submission == Some(Submission::ApprovalResponse { approved, always }),
    ensures
        ({
            let s = Submission::ApprovalResponse { approved, always };
            let kept = Intake { phase: IntakePhase::RoutingAuth, ..intake };
            let first = (Intake { phase: IntakePhase::Parsing, ..intake }).decide(
                message,
                IntakeEvent::Parsed(s),
            );
            let auth = (Intake { phase: IntakePhase::CheckingAuth, ..intake }).decide(
                message,
                IntakeEvent::PendingAuth(true),
            );
            let gate = (Intake { phase: IntakePhase::CheckingGate, ..intake }).decide(
                message,
                IntakeEvent::PendingGate(true),
            );
            let routed = kept.decide(message, IntakeEvent::PendingAuth(false));
            let token = kept.decide(message, IntakeEvent::PendingAuth(true));
            let slash = text::trimmed(message.content@).len() > 0 && text::trimmed(
                message.content@,
            )[0] == '/';
            &&& slash ==> first.next == kept && first.work is QueryPendingAuth
            &&& !slash ==> first.next.phase == IntakePhase::CheckingAuth && first.next.submission
                == Some(s) && first.work is QueryPendingAuth
            &&& auth.next == kept && auth.work is QueryPendingAuth
            &&& gate.next == kept && gate.work is QueryPendingAuth
            &&& routed.work == IntakeWork::CallEngine(EngineCall::Approval { approved, always })
            &&& token.work == IntakeWork::CallEngine(
                EngineCall::UserInput { content: message.content },
            )
        }),
        ({
            let auth = (Intake { phase: IntakePhase::CheckingAuth, ..intake }).decide(
                message,
                IntakeEvent::PendingAuth(false),
            );
            let gate = (Intake { phase: IntakePhase::CheckingGate, ..intake }).decide(
                message,
                IntakeEvent::PendingGate(false),
            );
            &&& auth.work is QueryPendingGate
            &&& auth.next.phase == IntakePhase::CheckingGate
            &&& auth.next.submission == intake.submission
            &&& gate.work == IntakeWork::RunInboundHook(message.content@)
            &&& gate.next.submission == Some(Submission::UserInput { content: message.content })
        }),
{
    reveal_strlit("/");
    let t = text::trimmed(message.content@);
    if t.len() > 0 {
        assert(t.take(1) =~= seq![t[0]]);
        assert("/"@ =~= seq!['/']);
        assert(t.take(1)[0] == t[0]);
    }
}

/// With the second engine switched on, whatever it handles reaches it as it was submitted;
/// undo, redo and the like go to a thread as they are.
pub proof fn engine_gets_submissions_as_they_are(
    intake: Intake,
    message: IncomingMessage,
    s: Submission,
    action: IntakeAction,
)
    requires
        intake.engine_v2,
        intake.phase == IntakePhase::Parsing,
        !(s is ApprovalResponse),
        action.carries_out(intake.decide(message, IntakeEvent::Parsed(s)).work),
    ensures
        match s {
            Submission::UserInput { content } => action matches IntakeAction::RunInboundHook {
                content: c,
            } && c@ == content@,
            Submission::ExecApproval { request_id, approved, always } => action
                == IntakeAction::CallEngine(
                EngineCall::ExecApproval { request_id, approved, always },
            ),
            Submission::ExternalCallback { request_id } => action == IntakeAction::CallEngine(
                EngineCall::ExternalCallback { request_id },
            ),
            Submission::GateAuthResolution { request_id, resolution } => action
                == IntakeAction::CallEngine(
                EngineCall::GateAuthResolution { request_id, resolution },
            ),
            Submission::Interrupt => action == IntakeAction::CallEngine(EngineCall::Interrupt),
            Submission::NewThread => action == IntakeAction::CallEngine(EngineCall::NewThread),
            Submission::Clear => action == IntakeAction::CallEngine(EngineCall::Clear),
            Submission::Expected { description } => action == IntakeAction::CallEngine(
                EngineCall::Expected { description },
            ),
            Submission::PairingClaim { channel, code } => action == IntakeAction::CallEngine(
                EngineCall::PairingClaim { channel, code },
            ),
            _ => match message.thread_id {
                Some(t) => {
                    &&& action matches IntakeAction::Hydrate { thread_id }
                    &&& thread_id@ == t@
                    &&& intake.decide(message, IntakeEvent::Parsed(s)).next.submission == Some(s)
                },
                None => action == (IntakeAction::Bind { submission: s, target: None }),
            },
        },
{
}

/// The text that the hooks let pass goes to the second engine where that is switched on, as
/// the hooks leave it; a text that they turn down is answered instead.
pub proof fn engine_gets_the_text_of_the_hooks(
    intake: Intake,
    message: IncomingMessage,
    content: String,
    verdict: HookVerdict,
    action: IntakeAction,
)
    requires
        intake.phase == IntakePhase::Hooking,
        intake.submission == Some(Submission::UserInput { content }),
        action.carries_out(intake.decide(message, IntakeEvent::Hooked(verdict)).work),
    ensures
        match verdict {
            HookVerdict::Pass => intake.engine_v2 ==> action == IntakeAction::CallEngine(
                EngineCall::UserInput { content },
            ),
            HookVerdict::Modified { content: c } => intake.engine_v2 ==> action
                == IntakeAction::CallEngine(EngineCall::UserInput { content: c }),
            HookVerdict::Rejected { reason } => action matches IntakeAction::Finish(Ok(o))
                && o matches HandleOutcome::Respond(r) && submission::names(r.content@, reason@),
            HookVerdict::Failed { error } => action matches IntakeAction::Finish(Ok(o))
                && o matches HandleOutcome::Respond(r) && submission::names(r.content@, error@),
        },
{
    match verdict {
        HookVerdict::Rejected { reason } => {
            let t = hook_refusal(verdict)->0;
            let i = "[Message rejected: "@.len() as int;
            assert(t.subrange(i, i + reason@.len()) =~= reason@);
        },
        HookVerdict::Failed { error } => {
            let t = hook_refusal(verdict)->0;
            let i = "[Message blocked by hook policy: "@.len() as int;
            assert(t.subrange(i, i + error@.len()) =~= error@);
        },
        _ => {},
    }
}

/// What the hooks say decides on a text: a verdict against it is a refusal, a changed text
/// takes its place, and otherwise it goes on unchanged.
pub proof fn hooks_decide_on_the_text(content: String, verdict: HookVerdict)
    ensures
        hook_refusal(verdict) is Some <==> verdict is Rejected || verdict is Failed,
        verdict is Pass ==> let_through(content, verdict) == content,
        verdict matches HookVerdict::Modified { content: c } ==> let_through(content, verdict) == c,
{
}

/// Without the second engine every submission that a thread can handle goes to its thread as
/// it is: at once, or once the thread that the message names is loaded.
pub proof fn threads_get_submissions_as_they_are(
    intake: Intake,
    message: IncomingMessage,
    s: Submission,
)
    requires
        !intake.engine_v2,
        intake.phase == IntakePhase::Parsing,
        !(s is UserInput),
        !s.engine_only(),
    ensures
        ({
            let d = intake.decide(message, IntakeEvent::Parsed(s));
            match message.thread_id {
                None => d.work == IntakeWork::Bind(s, None),
                Some(t) => {
                    &&& d.work == IntakeWork::Hydrate(t@)
                    &&& d.next.decide(message, IntakeEvent::Hydrated(None)).work
                        == IntakeWork::Bind(
                        s,
                        if s is ApprovalResponse || s is ExecApproval {
                            ids::parsed_id(t@)
                        } else {
                            None
                        },
                    )
                },
            }
        }),
{
}

/// A thread that may not be entered is entered by nothing: the reason is told instead.
pub proof fn closed_threads_stay_closed(
    intake: Intake,
    message: IncomingMessage,
    reason: String,
    action: IntakeAction,
)
    requires
        intake.phase == IntakePhase::Hydrating,
        intake.submission is Some,
        action.carries_out(intake.decide(message, IntakeEvent::Hydrated(Some(reason))).work),
    ensures
        action matches IntakeAction::Finish(Ok(outcome)) && outcome.says("Error: "@ + reason@),
        intake.decide(message, IntakeEvent::Hydrated(Some(reason))).next.phase
            == IntakePhase::Ended,
{
}

/// What the second engine ends with is what the message ends with.
pub proof fn engine_outcomes_are_kept(
    intake: Intake,
    message: IncomingMessage,
    result: Result<BridgeOutcome, String>,
    action: IntakeAction,
)
    requires
        intake.phase == IntakePhase::InEngine,
        action.carries_out(intake.decide(message, IntakeEvent::Handled(result)).work),
    ensures
        match result {
            Ok(BridgeOutcome::Respond(s)) => action matches IntakeAction::Finish(Ok(o)) && o.says(
                s@,
            ),
            Ok(BridgeOutcome::NoResponse) => action matches IntakeAction::Finish(Ok(o)) && o
                is NoResponse,
            Ok(BridgeOutcome::Pending) => action matches IntakeAction::Finish(Ok(o)) && o
                is Pending,
            Err(e) => action matches IntakeAction::Finish(Err(f)) && f@ == e@,
        },
{
}

/// A message waits for the outcome of what was asked for on its behalf, and takes in no other.
pub proof fn messages_wait_for_what_was_asked(
    intake: Intake,
    message: IncomingMessage,
    event: IntakeEvent,
)
    ensures
        ({
            let d = intake.decide(message, event);
            &&& d.work is SetToolContext ==> d.next.phase == IntakePhase::SettingContext
            &&& d.work is Parse ==> d.next.phase == IntakePhase::Parsing
            &&& d.work is QueryPendingGate ==> d.next.phase == IntakePhase::CheckingGate
            &&& d.work is QueryPendingAuth ==> d.next.phase == IntakePhase::CheckingAuth
                || d.next.phase == IntakePhase::RoutingAuth
            &&& d.work is RunInboundHook ==> d.next.phase == IntakePhase::Hooking
            &&& d.work is CallEngine ==> d.next.phase == IntakePhase::InEngine
            &&& d.work is Hydrate ==> d.next.phase == IntakePhase::Hydrating
            &&& d.work is Reply || d.work is EngineEnded || d.work is Fail || d.work is Bind
                ==> d.next.phase == IntakePhase::Ended
            &&& d.work is Ignore ==> d.next == intake
            &&& intake.phase == IntakePhase::Ended ==> d.work is Ignore
            &&& d.next.engine_v2 == intake.engine_v2
        }),
{
}

} // verus!
