//! The loop around the model: ask it, run the tools that it asks for, until it answers with
//! text.
//!
//! The loop is a machine. Each step names the outside work to do next, and takes the
//! outcome of that work as the event of the step after it.

use serde_json::Value;
use vstd::prelude::*;

use crate::auth;
use crate::chat;
use crate::chat::{ChatMessage, ToolCall};
use crate::ids;
use crate::json;
use crate::notice;
use crate::notice::Notice;
use crate::session;
use crate::session::{PendingApproval, Session, Thread, ThreadState};
use crate::submission::LoopError;
use crate::text;

verus! {

/// How often the model is asked at most in one run.
pub const MAX_TOOL_ITERATIONS: u32 = 10;

/// What a run of the loop ends with.
pub enum AgenticLoopResult {
    Response(String),
    NeedApproval { pending: PendingApproval },
}

/// What the model answers.
pub enum ModelReply {
    Text(String),
    ToolCalls { tool_calls: Vec<ToolCall>, content: Option<String> },
}

/// What is known of a registered tool.
pub struct ToolInfo {
    pub requires_approval: bool,
    pub description: String,
}

/// What happened outside since the last step.
pub enum Event {
    /// The loop begins.
    Start,
    /// The model answered, or the call failed.
    Reply(Result<ModelReply, String>),
    /// The tool of the current call was looked up.
    Found(Option<ToolInfo>),
    /// The shell command was checked: whether each of its runs needs an approval.
    ShellChecked { explicit: bool },
    /// The tool of the current call ran.
    Ran(Result<String, String>),
    /// The tool's output was made safe to show to the model.
    Wrapped(String),
}

/// The outside work to do next.
pub enum Action {
    /// Ask the model, with the messages of the loop.
    AskModel,
    /// Look up the tool of the current call.
    LookUp,
    /// Check whether a shell command needs an approval each time.
    CheckShell { command: String },
    /// Run the tool of the current call.
    RunTool,
    /// Make a tool's output safe to show to the model.
    Wrap { output: String },
    /// The run is over.
    Finish(Result<AgenticLoopResult, LoopError>),
    /// The event came out of turn: nothing happened.
    Ignore,
}

/// One step of the loop: show the status updates, then do the work.
pub struct Step {
    pub notices: Vec<Notice>,
    pub action: Action,
}

/// What the loop waits for.
#[derive(Clone, Copy, Debug, PartialEq, Eq, Structural)]
pub enum Phase {
    Ready,
    Asking,
    LookingUp,
    CheckingShell,
    Running,
    Wrapping,
    Ended,
}

/// A run of the loop.
pub struct AgenticLoop {
    thread_id: u128,
    messages: Vec<ChatMessage>,
    iteration: u32,
    tools_executed: bool,
    calls: Vec<ToolCall>,
    position: usize,
    description: String,
    phase: Phase,
}

/// A run of the loop by its values.
#[verifier::ext_equal]
pub struct LoopView {
    pub thread_id: u128,
    /// The context that the model sees.
    pub messages: Seq<chat::MessageView>,
    /// How often the model has been asked.
    pub iteration: nat,
    pub tools_executed: bool,
    /// The calls that the model asked for last.
    pub calls: Seq<chat::ToolCallView>,
    /// How many of these have been dealt with.
    pub position: int,
    /// The description of the tool that is being checked.
    pub description: Seq<char>,
    pub phase: Phase,
}

impl View for AgenticLoop {
    type V = LoopView;

    closed spec fn view(&self) -> LoopView {
        LoopView {
            thread_id: self.thread_id,
            messages: chat::views(self.messages@),
            iteration: self.iteration as nat,
            tools_executed: self.tools_executed,
            calls: chat::call_views(self.calls@),
            position: self.position as int,
            description: self.description@,
            phase: self.phase,
        }
    }
}

/// The reason that a run failed for.
pub enum Failure {
    TooManyRounds,
    Interrupted,
    Model(Seq<char>),
}

/// The outside work of a step by its values.
pub enum ActionView {
    AskModel,
    LookUp,
    CheckShell(Seq<char>),
    RunTool,
    Wrap(Seq<char>),
    Respond(Seq<char>),
    /// The run ends with the current call waiting for an approval.
    NeedApproval,
    Fail(Failure),
    Ignore,
}

/// What a step writes to the session.
pub enum Effect {
    Nothing,
    /// The calls are recorded in the last turn.
    Calls(Seq<chat::ToolCallView>),
    /// The outcome is recorded in the last turn, and the thread enters auth mode for an
    /// extension that waits for a token.
    Outcome(Result<String, String>, Option<Seq<char>>),
}

/// Everything that a step decides.
pub struct Decision {
    pub next: LoopView,
    pub notices: Seq<notice::NoticeView>,
    pub action: ActionView,
    pub effect: Effect,
}

/// What a model that only talks is told at first: to use the tools.
pub open spec fn nudge_text() -> Seq<char> {
    "Please proceed and use the available tools to complete this"@ + " task."@
}

/// What a model that only talks is told at first.
pub fn nudge() -> (r: String)
    ensures
        r@ == nudge_text(),
{
    text::cat("Please proceed and use the available tools to complete this", " task.")
}

impl LoopView {
    /// A call is being dealt with.
    pub open spec fn busy(self) -> bool {
        self.phase == Phase::LookingUp || self.phase == Phase::CheckingShell || self.phase
            == Phase::Running || self.phase == Phase::Wrapping
    }

    /// The invariant of a run.
    pub open spec fn wf(self) -> bool {
        &&& self.iteration <= MAX_TOOL_ITERATIONS + 1
        &&& self.phase == Phase::Ready <==> self.iteration == 0
        &&& self.phase != Phase::Ended ==> self.iteration <= MAX_TOOL_ITERATIONS
        &&& self.busy() ==> 0 <= self.position < self.calls.len()
    }

    /// The call that is being dealt with.
    pub open spec fn call(self) -> chat::ToolCallView {
        self.calls[self.position]
    }

    /// A step that only acts.
    pub open spec fn acts(self, action: ActionView) -> Decision {
        Decision { next: self, notices: seq![], action, effect: Effect::Nothing }
    }

    /// The next round: ask the model again, unless that has been done too often or the
    /// thread was interrupted.
    pub open spec fn round(self, interrupted: bool) -> Decision {
        let counted = LoopView { iteration: self.iteration + 1, ..self };
        if counted.iteration > MAX_TOOL_ITERATIONS {
            (LoopView { phase: Phase::Ended, ..counted }).acts(
                ActionView::Fail(Failure::TooManyRounds),
            )
        } else if interrupted {
            (LoopView { phase: Phase::Ended, ..counted }).acts(
                ActionView::Fail(Failure::Interrupted),
            )
        } else {
            (LoopView { phase: Phase::Asking, ..counted }).acts(ActionView::AskModel)
        }
    }

    /// The next call, or the next round where all calls have been dealt with.
    pub open spec fn advance(self, interrupted: bool) -> Decision {
        if self.position < self.calls.len() {
            (LoopView { phase: Phase::LookingUp, ..self }).acts(ActionView::LookUp)
        } else {
            self.round(interrupted)
        }
    }

    /// The current call, run.
    pub open spec fn starts_tool(self) -> Decision {
        Decision {
            next: LoopView { phase: Phase::Running, ..self },
            notices: seq![notice::NoticeView::ToolStarted { name: self.call().name }],
            action: ActionView::RunTool,
            effect: Effect::Nothing,
        }
    }

    /// The current call answered, and what comes after it.
    pub open spec fn answered(self, content: Seq<char>, interrupted: bool) -> Decision {
        (LoopView {
            messages: self.messages.push(
                chat::MessageView::tool_result(self.call().id, self.call().name, content),
            ),
            position: self.position + 1,
            ..self
        }).advance(interrupted)
    }

    /// What comes of an answer of the model.
    pub open spec fn replied(self, reply: Result<ModelReply, String>, interrupted: bool) -> Decision {
        match reply {
            Err(e) => (LoopView { phase: Phase::Ended, ..self }).acts(
                ActionView::Fail(Failure::Model(e@)),
            ),
            Ok(ModelReply::Text(t)) => if !self.tools_executed && self.iteration < 3 {
                (LoopView {
                    messages: self.messages.push(
                        chat::MessageView::plain(chat::Role::Assistant, t@),
                    ).push(
                        chat::MessageView::plain(chat::Role::User, nudge_text()),
                    ),
                    ..self
                }).round(interrupted)
            } else {
                (LoopView { phase: Phase::Ended, ..self }).acts(ActionView::Respond(t@))
            },
            Ok(ModelReply::ToolCalls { tool_calls, content }) => {
                let calls = chat::call_views(tool_calls@);
                Decision {
                    notices: seq![
                        notice::NoticeView::Thinking(
                            "Executing "@ + text::decimal(calls.len()) + " tool(s)..."@,
                        ),
                    ],
                    effect: Effect::Calls(calls),
                    ..(LoopView {
                        messages: self.messages.push(
                            chat::MessageView::asking(
                                match content {
                                    Some(c) => c@,
                                    None => seq![],
                                },
                                calls,
                            ),
                        ),
                        tools_executed: true,
                        calls,
                        position: 0,
                        ..self
                    }).advance(interrupted)
                }
            },
        }
    }

    /// What comes of looking a tool up: it runs unless it needs an approval that has not
    /// been given for the session. A shell command can need one each time.
    pub open spec fn found(self, tool: Option<ToolInfo>, auto_approved: bool) -> Decision {
        match tool {
            Some(info) => {
                let known = LoopView { description: info.description@, ..self };
                if !info.requires_approval {
                    known.starts_tool()
                } else if !auto_approved {
                    (LoopView { phase: Phase::Ended, ..known }).acts(ActionView::NeedApproval)
                } else if self.call().name == "shell"@ && shell_command_of(self.call().arguments)
                    is Some {
                    (LoopView { phase: Phase::CheckingShell, ..known }).acts(
                        ActionView::CheckShell(shell_command_of(self.call().arguments)->0),
                    )
                } else {
                    known.starts_tool()
                }
            },
            None => self.starts_tool(),
        }
    }

    /// What comes of running a tool.
    pub open spec fn ran(self, outcome: Result<String, String>, interrupted: bool) -> Decision {
        let name = self.call().name;
        let shown = notice::tool_ended(name, outcome);
        let content = auth::output_content(outcome);
        match auth::token_request(name, content) {
            Some(request) => Decision {
                next: LoopView { phase: Phase::Ended, ..self },
                notices: shown.push(auth::token_notice(request, content)),
                action: ActionView::Respond(request.1),
                effect: Effect::Outcome(outcome, Some(request.0)),
            },
            None => {
                let after = match outcome {
                    Ok(output) => (LoopView { phase: Phase::Wrapping, ..self }).acts(
                        ActionView::Wrap(output@),
                    ),
                    Err(e) => self.answered("Error: "@ + e@, interrupted),
                };
                Decision { notices: shown, effect: Effect::Outcome(outcome, None), ..after }
            },
        }
    }

    /// What a step decides. `interrupted` says that the thread was interrupted,
    /// `auto_approved` that the tool of the current call runs without asking.
    pub open spec fn decide(self, interrupted: bool, auto_approved: bool, event: Event) -> Decision {
        match (self.phase, event) {
            (Phase::Ready, Event::Start) => self.round(interrupted),
            (Phase::Asking, Event::Reply(reply)) => self.replied(reply, interrupted),
            (Phase::LookingUp, Event::Found(tool)) => self.found(tool, auto_approved),
            (Phase::CheckingShell, Event::ShellChecked { explicit }) => if explicit {
                (LoopView { phase: Phase::Ended, ..self }).acts(ActionView::NeedApproval)
            } else {
                self.starts_tool()
            },
            (Phase::Running, Event::Ran(outcome)) => self.ran(outcome, interrupted),
            (Phase::Wrapping, Event::Wrapped(content)) => self.answered(content@, interrupted),
            _ => self.acts(ActionView::Ignore),
        }
    }
}

/// The command in the arguments of a shell call, which can also come as JSON in a string.
pub open spec fn command_in(
    arguments: json::JsonContent,
    parsed: Option<json::JsonContent>,
) -> Option<Seq<char>> {
    match arguments.text_at("command"@) {
        Some(c) => Some(c),
        None => auth::text_in(parsed, "command"@),
    }
}

/// The tree that arguments in a string spell.
pub open spec fn arguments_read(arguments: json::JsonContent) -> Option<json::JsonContent> {
    match arguments.text() {
        Some(s) => json::parsed_json(s),
        None => None,
    }
}

/// The command of a shell call.
pub open spec fn shell_command_of(arguments: json::JsonContent) -> Option<Seq<char>> {
    command_in(arguments, arguments_read(arguments))
}

/// The command in the arguments of a shell call; `parsed` is what the arguments spell where
/// they are a string.
pub fn shell_command_in(arguments: &Value, parsed: Option<&Value>) -> (r: Option<String>)
    ensures
        json::string_of(r) == command_in(
            json::json_content(*arguments),
            auth::content_of(parsed),
        ),
{
    match json::text_member(arguments, "command") {
        Some(c) => Some(c.to_owned()),
        None => match parsed {
            Some(v) => match json::text_member(v, "command") {
                Some(c) => Some(c.to_owned()),
                None => None,
            },
            None => None,
        },
    }
}

/// The command of a shell call.
pub fn shell_command(arguments: &Value) -> (r: Option<String>)
    ensures
        json::string_of(r) == shell_command_of(json::json_content(*arguments)),
{
    match json::as_str(arguments) {
        Some(s) => match json::parse(s) {
            Some(v) => shell_command_in(arguments, Some(&v)),
            None => shell_command_in(arguments, None),
        },
        None => shell_command_in(arguments, None),
    }
}

/// The thread was interrupted.
pub open spec fn was_interrupted(session: Session, thread_id: u128) -> bool {
    session.thread(thread_id) matches Some(t) && t.state == ThreadState::Interrupted
}

/// `new` is `old` but that a tool's outcome is recorded and, where a token is awaited, the
/// thread is in auth mode.
pub open spec fn settled(
    old: Thread,
    new: Thread,
    outcome: Result<String, String>,
    extension: Option<Seq<char>>,
) -> bool {
    &&& new == (Thread { turns: new.turns, pending_auth: new.pending_auth, ..old })
    &&& session::rerecorded(
        old.turns@,
        new.turns@,
        session::recorded(session::last_records(old.turns@), outcome),
    )
    &&& match extension {
        Some(e) => new.pending_auth matches Some(p) && p.extension_name@ == e,
        None => new.pending_auth == old.pending_auth,
    }
}

/// What an effect does to a session.
pub open spec fn takes_effect(old: Session, new: Session, id: u128, effect: Effect) -> bool {
    match effect {
        Effect::Nothing => new == old,
        Effect::Calls(calls) => {
            &&& session::updated(old, new, id, new.thread(id))
            &&& old.thread(id) is Some <==> new.thread(id) is Some
            &&& old.thread(id) matches Some(o) ==> {
                let n = new.thread(id)->0;
                &&& n == (Thread { turns: n.turns, ..o })
                &&& session::rerecorded(
                    o.turns@,
                    n.turns@,
                    session::last_records(o.turns@) + calls.map_values(
                        |c: chat::ToolCallView| session::RecordView::asked(c),
                    ),
                )
            }
        },
        Effect::Outcome(outcome, extension) => {
            &&& session::updated(old, new, id, new.thread(id))
            &&& old.thread(id) is Some <==> new.thread(id) is Some
            &&& old.thread(id) matches Some(o) ==> settled(
                o,
                new.thread(id)->0,
                outcome,
                extension,
            )
        },
    }
}

/// Records the calls that the model asked for.
fn record_calls(session: &mut Session, thread_id: u128, calls: &Vec<ToolCall>)
    ensures
        takes_effect(
            *old(session),
            *final(session),
            thread_id,
            Effect::Calls(chat::call_views(calls@)),
        ),
{
    let ghost before = session.threads@;
    match session.take(thread_id) {
        Some(mut thread) => {
            thread.record_calls(calls);
            session.put(thread_id, thread);
            assert(session.threads@ =~= before.insert(thread_id, thread));
        },
        None => {
            assert(session.threads@ =~= before);
        },
    }
}

/// Records what a tool gave back, and enters auth mode where a token is awaited.
pub(crate) fn settle(
    session: &mut Session,
    thread_id: u128,
    outcome: &Result<String, String>,
    extension: Option<&str>,
)
    ensures
        takes_effect(
            *old(session),
            *final(session),
            thread_id,
            Effect::Outcome(*outcome, json::text_of(extension)),
        ),
{
    let ghost before = session.threads@;
    match session.take(thread_id) {
        Some(mut thread) => {
            thread.record_outcome(outcome);
            if let Some(e) = extension {
                thread.enter_auth_mode(e.to_owned());
            }
            session.put(thread_id, thread);
            assert(session.threads@ =~= before.insert(thread_id, thread));
        },
        None => {
            assert(session.threads@ =~= before);
        },
    }
}

impl Action {
    /// The work is what was decided. The id of an approval request is left open: it is
    /// drawn at random.
    pub open spec fn carries_out(self, before: LoopView, decision: Decision) -> bool {
        match decision.action {
            ActionView::AskModel => self is AskModel,
            ActionView::LookUp => self is LookUp,
            ActionView::CheckShell(c) => self matches Action::CheckShell { command } && command@
                == c,
            ActionView::RunTool => self is RunTool,
            ActionView::Wrap(o) => self matches Action::Wrap { output } && output@ == o,
            ActionView::Respond(t) => self matches Action::Finish(
                Ok(AgenticLoopResult::Response(s)),
            ) && s@ == t,
            ActionView::NeedApproval => {
                &&& self matches Action::Finish(Ok(AgenticLoopResult::NeedApproval { pending }))
                &&& asks_approval(
                    pending,
                    before.call(),
                    decision.next.description,
                    before.messages,
                )
            },
            ActionView::Fail(f) => self matches Action::Finish(Err(e)) && reports(
                e,
                before.thread_id,
                f,
            ),
            ActionView::Ignore => self is Ignore,
        }
    }
}

impl Step {
    /// The step shows and does what was decided.
    pub open spec fn carries_out(self, before: LoopView, decision: Decision) -> bool {
        &&& notice::notice_views(self.notices@) == decision.notices
        &&& self.action.carries_out(before, decision)
    }

    fn act(action: Action) -> (r: Step)
        ensures
            r.action == action,
            notice::notice_views(r.notices@) == Seq::<notice::NoticeView>::empty(),
    {
        let r = Step { notices: Vec::new(), action };
        assert(notice::notice_views(r.notices@) =~= Seq::<notice::NoticeView>::empty());
        r
    }
}

/// The request holds a call, the tool's description and the context so far.
pub open spec fn asks_approval(
    pending: PendingApproval,
    call: chat::ToolCallView,
    description: Seq<char>,
    messages: Seq<chat::MessageView>,
) -> bool {
    &&& pending.tool_name@ == call.name
    &&& json::json_content(pending.parameters) == call.arguments
    &&& pending.tool_call_id@ == call.id
    &&& pending.description@ == description
    &&& chat::views(pending.context_messages@) == messages
}

/// The error that a failure is reported as.
pub open spec fn reports(e: LoopError, thread_id: u128, failure: Failure) -> bool {
    match failure {
        Failure::TooManyRounds => e matches LoopError::InvalidResponse { provider, reason }
            && provider@ == "agent"@ && reason@ == "Exceeded maximum tool iterations (10)"@,
        Failure::Interrupted => e matches LoopError::ContextError { id, reason } && id == thread_id
            && reason@ == "Interrupted"@,
        Failure::Model(t) => e matches LoopError::Other(s) && s@ == t,
    }
}

/// The request for the approval of a call.
pub fn approval_request(
    request_id: u128,
    call: &ToolCall,
    description: String,
    messages: &Vec<ChatMessage>,
) -> (r: PendingApproval)
    ensures
        r.request_id == request_id,
        asks_approval(r, call@, description@, chat::views(messages@)),
{
    let context_messages = chat::copy_messages_from(messages, 0);
    assert(chat::views(messages@).skip(0) =~= chat::views(messages@));
    PendingApproval {
        request_id,
        tool_name: call.name.clone(),
        parameters: json::copy_json(&call.arguments),
        description,
        tool_call_id: call.id.clone(),
        context_messages,
    }
}

impl AgenticLoop {
    /// The run satisfies its invariant.
    pub open spec fn wf(self) -> bool {
        self@.wf()
    }

    /// The view of the call at hand is that of the list of calls.
    proof fn current_view(&self)
        requires
            self.position < self.calls@.len(),
        ensures
            chat::call_views(self.calls@)[self.position as int]
                == self.calls@[self.position as int]@,
    {
    }

    /// A run on the messages of a thread. `resume_after_tool` says that a tool has already
    /// run in this turn.
    pub fn new(thread_id: u128, messages: Vec<ChatMessage>, resume_after_tool: bool) -> (r:
        AgenticLoop)
        ensures
            r.wf(),
            r@ == (LoopView {
                thread_id,
                messages: chat::views(messages@),
                iteration: 0,
                tools_executed: resume_after_tool,
                calls: seq![],
                position: 0,
                description: seq![],
                phase: Phase::Ready,
            }),
    {
        let r = AgenticLoop {
            thread_id,
            messages,
            iteration: 0,
            tools_executed: resume_after_tool,
            calls: Vec::new(),
            position: 0,
            description: String::new(),
            phase: Phase::Ready,
        };
        assert(r@ =~= (LoopView {
            thread_id,
            messages: chat::views(messages@),
            iteration: 0,
            tools_executed: resume_after_tool,
            calls: seq![],
            position: 0,
            description: seq![],
            phase: Phase::Ready,
        }));
        r
    }

    /// The messages to ask the model with.
    pub fn messages(&self) -> (r: &Vec<ChatMessage>)
        ensures
            chat::views(r@) == self@.messages,
    {
        &self.messages
    }

    /// The call that is being dealt with.
    pub fn current_call(&self) -> (r: Option<&ToolCall>)
        requires
            self.wf(),
        ensures
            match r {
                Some(c) => self@.busy() && c@ == self@.call(),
                None => !self@.busy(),
            },
    {
        match self.phase {
            Phase::LookingUp | Phase::CheckingShell | Phase::Running | Phase::Wrapping => {
                proof {
                    self.current_view();
                }
                Some(&self.calls[self.position])
            },
            _ => None,
        }
    }

    fn begin_round(&mut self, session: &Session) -> (r: Action)
        requires
            old(self)@.iteration <= MAX_TOOL_ITERATIONS,
        ensures
            final(self)@ == old(self)@.round(was_interrupted(*session, old(self)@.thread_id)).next,
            r.carries_out(
                old(self)@,
                old(self)@.round(was_interrupted(*session, old(self)@.thread_id)),
            ),
    {
        self.iteration = self.iteration + 1;
        if self.iteration > MAX_TOOL_ITERATIONS {
            self.phase = Phase::Ended;
            return Action::Finish(
                Err(
                    LoopError::InvalidResponse {
                        provider: "agent".to_owned(),
                        reason: "Exceeded maximum tool iterations (10)".to_owned(),
                    },
                ),
            );
        }
        if session.thread_state(self.thread_id) == Some(ThreadState::Interrupted) {
            self.phase = Phase::Ended;
            return Action::Finish(
                Err(
                    LoopError::ContextError {
                        id: self.thread_id,
                        reason: "Interrupted".to_owned(),
                    },
                ),
            );
        }
        self.phase = Phase::Asking;
        Action::AskModel
    }

    fn advance(&mut self, session: &Session) -> (r: Action)
        requires
            0 < old(self)@.iteration <= MAX_TOOL_ITERATIONS,
        ensures
            final(self)@ == old(self)@.advance(was_interrupted(*session, old(self)@.thread_id)).next,
            r.carries_out(
                old(self)@,
                old(self)@.advance(was_interrupted(*session, old(self)@.thread_id)),
            ),
    {
        if self.position < self.calls.len() {
            self.phase = Phase::LookingUp;
            Action::LookUp
        } else {
            self.begin_round(session)
        }
    }

    fn run_current(&mut self) -> (r: Step)
        requires
            old(self).wf(),
            old(self)@.busy(),
        ensures
            final(self)@ == old(self)@.starts_tool().next,
            r.carries_out(old(self)@, old(self)@.starts_tool()),
    {
        let ghost before = self@;
        proof {
            self.current_view();
        }
        let mut notices: Vec<Notice> = Vec::new();
        notices.push(Notice::ToolStarted { name: self.calls[self.position].name.clone() });
        self.phase = Phase::Running;
        assert(notice::notice_views(notices@) =~= before.starts_tool().notices);
        Step { notices, action: Action::RunTool }
    }

    fn ask_approval(&mut self) -> (r: Step)
        requires
            old(self).wf(),
            old(self)@.busy(),
        ensures
            final(self)@ == (LoopView { phase: Phase::Ended, ..old(self)@ }),
            r.carries_out(
                old(self)@,
                (LoopView { phase: Phase::Ended, ..old(self)@ }).acts(ActionView::NeedApproval),
            ),
    {
        proof {
            self.current_view();
        }
        self.phase = Phase::Ended;
        let pending = approval_request(
            ids::new_id(),
            &self.calls[self.position],
            self.description.clone(),
            &self.messages,
        );
        Step::act(Action::Finish(Ok(AgenticLoopResult::NeedApproval { pending })))
    }

    fn answer(&mut self, session: &Session, content: String) -> (r: Action)
        requires
            old(self).wf(),
            old(self)@.busy(),
            0 < old(self)@.iteration,
        ensures
            final(self)@ == old(self)@.answered(
                content@,
                was_interrupted(*session, old(self)@.thread_id),
            ).next,
            r.carries_out(
                old(self)@,
                old(self)@.answered(content@, was_interrupted(*session, old(self)@.thread_id)),
            ),
    {
        let ghost before = self@;
        proof {
            self.current_view();
        }
        let message = ChatMessage::tool_result(
            self.calls[self.position].id.as_str(),
            self.calls[self.position].name.as_str(),
            content,
        );
        self.messages.push(message);
        assert(self.position < self.calls.len());
        self.position = self.position + 1;
        assert(chat::views(self.messages@) =~= before.messages.push(message@));
        self.advance(session)
    }

    fn on_reply(&mut self, session: &mut Session, reply: Result<ModelReply, String>) -> (r: Step)
        requires
            old(self).wf(),
            old(self)@.phase == Phase::Asking,
            0 < old(self)@.iteration,
        ensures
            final(self)@ == old(self)@.replied(
                reply,
                was_interrupted(*old(session), old(self)@.thread_id),
            ).next,
            r.carries_out(
                old(self)@,
                old(self)@.replied(reply, was_interrupted(*old(session), old(self)@.thread_id)),
            ),
            takes_effect(
                *old(session),
                *final(session),
                old(self)@.thread_id,
                old(self)@.replied(
                    reply,
                    was_interrupted(*old(session), old(self)@.thread_id),
                ).effect,
            ),
    {
        let ghost before = self@;
        match reply {
            Err(e) => {
                self.phase = Phase::Ended;
                Step::act(Action::Finish(Err(LoopError::Other(e))))
            },
            Ok(ModelReply::Text(t)) => {
                if !self.tools_executed && self.iteration < 3 {
                    let first = ChatMessage::assistant(t.as_str());
                    let second = ChatMessage::user(nudge().as_str());
                    self.messages.push(first);
                    self.messages.push(second);
                    assert(chat::views(self.messages@) =~= before.messages.push(first@).push(
                        second@,
                    ));
                    let action = self.begin_round(session);
                    Step::act(action)
                } else {
                    self.phase = Phase::Ended;
                    Step::act(Action::Finish(Ok(AgenticLoopResult::Response(t))))
                }
            },
            Ok(ModelReply::ToolCalls { tool_calls, content }) => {
                self.tools_executed = true;
                let message = ChatMessage::assistant_with_tool_calls(
                    content,
                    chat::copy_calls(&tool_calls),
                );
                self.messages.push(message);
                assert(chat::views(self.messages@) =~= before.messages.push(message@));
                let mut notices: Vec<Notice> = Vec::new();
                let thinking = text::cat3(
                    "Executing ",
                    text::number_text(tool_calls.len() as u128).as_str(),
                    " tool(s)...",
                );
                notices.push(Notice::Thinking(thinking));
                assert(notice::notice_views(notices@) =~= seq![
                    notice::NoticeView::Thinking(thinking@),
                ]);
                record_calls(session, self.thread_id, &tool_calls);
                self.calls = tool_calls;
                self.position = 0;
                let action = self.advance(session);
                Step { notices, action }
            },
        }
    }

    fn on_found(&mut self, session: &Session, tool: Option<ToolInfo>) -> (r: Step)
        requires
            old(self).wf(),
            old(self)@.phase == Phase::LookingUp,
        ensures
            final(self)@ == old(self)@.found(
                tool,
                session.auto_approves(old(self)@.call().name),
            ).next,
            r.carries_out(
                old(self)@,
                old(self)@.found(tool, session.auto_approves(old(self)@.call().name)),
            ),
    {
        let ghost before = self@;
        proof {
            self.current_view();
        }
        match tool {
            None => self.run_current(),
            Some(info) => {
                self.description = info.description;
                if !info.requires_approval {
                    return self.run_current();
                }
                if !session.is_tool_auto_approved(self.calls[self.position].name.as_str()) {
                    return self.ask_approval();
                }
                if text::same(self.calls[self.position].name.as_str(), "shell") {
                    if let Some(command) = shell_command(&self.calls[self.position].arguments) {
                        self.phase = Phase::CheckingShell;
                        return Step::act(Action::CheckShell { command });
                    }
                }
                self.run_current()
            },
        }
    }

    fn on_ran(&mut self, session: &mut Session, outcome: Result<String, String>) -> (r: Step)
        requires
            old(self).wf(),
            old(self)@.phase == Phase::Running,
            0 < old(self)@.iteration,
        ensures
            final(self)@ == old(self)@.ran(
                outcome,
                was_interrupted(*old(session), old(self)@.thread_id),
            ).next,
            r.carries_out(
                old(self)@,
                old(self)@.ran(outcome, was_interrupted(*old(session), old(self)@.thread_id)),
            ),
            takes_effect(
                *old(session),
                *final(session),
                old(self)@.thread_id,
                old(self)@.ran(
                    outcome,
                    was_interrupted(*old(session), old(self)@.thread_id),
                ).effect,
            ),
    {
        let ghost before = self@;
        proof {
            self.current_view();
        }
        let mut notices = notice::tool_ended_notices(
            self.calls[self.position].name.as_str(),
            &outcome,
        );
        let ghost shown = notice::notice_views(notices@);
        match auth::detect_auth_awaiting(self.calls[self.position].name.as_str(), &outcome) {
            Some(request) => {
                let links = auth::parse_auth_result(&outcome);
                settle(session, self.thread_id, &outcome, Some(request.extension_name.as_str()));
                let required = auth::auth_required(&request, links);
                notices.push(required);
                assert(notice::notice_views(notices@) =~= shown.push(required@));
                self.phase = Phase::Ended;
                Step {
                    notices,
                    action: Action::Finish(Ok(AgenticLoopResult::Response(request.instructions))),
                }
            },
            None => {
                settle(session, self.thread_id, &outcome, None);
                match outcome {
                    Ok(output) => {
                        self.phase = Phase::Wrapping;
                        Step { notices, action: Action::Wrap { output } }
                    },
                    Err(e) => {
                        let action = self.answer(session, text::cat("Error: ", e.as_str()));
                        Step { notices, action }
                    },
                }
            },
        }
    }

    /// Takes one step of the run.
    pub fn step(&mut self, session: &mut Session, event: Event) -> (r: Step)
        requires
            old(self).wf(),
        ensures
            final(self).wf(),
            final(self)@ == decision(*old(self), *old(session), event).next,
            r.carries_out(old(self)@, decision(*old(self), *old(session), event)),
            takes_effect(
                *old(session),
                *final(session),
                old(self)@.thread_id,
                decision(*old(self), *old(session), event).effect,
            ),
    {
        match (self.phase, event) {
            (Phase::Ready, Event::Start) => {
                let action = self.begin_round(session);
                Step::act(action)
            },
            (Phase::Asking, Event::Reply(reply)) => self.on_reply(session, reply),
            (Phase::LookingUp, Event::Found(tool)) => self.on_found(session, tool),
            (Phase::CheckingShell, Event::ShellChecked { explicit }) => if explicit {
                self.ask_approval()
            } else {
                self.run_current()
            },
            (Phase::Running, Event::Ran(outcome)) => self.on_ran(session, outcome),
            (Phase::Wrapping, Event::Wrapped(content)) => {
                let action = self.answer(session, content);
                Step::act(action)
            },
            _ => Step::act(Action::Ignore),
        }
    }
}

/// How far a run is from its end: the rounds that are left, then whether the model is being
/// asked, then the calls that are left, then the work on the current call.
pub open spec fn distance(run: LoopView) -> (int, int, int, int) {
    (
        MAX_TOOL_ITERATIONS + 1 - run.iteration,
        if run.phase == Phase::Asking {
            1
        } else {
            0
        },
        run.calls.len() - run.position,
        match run.phase {
            Phase::LookingUp => 4,
            Phase::CheckingShell => 3,
            Phase::Running => 2,
            Phase::Wrapping => 1,
            _ => 0,
        },
    )
}

/// `b` comes before `a` in the lexicographic order.
pub open spec fn nearer(a: (int, int, int, int), b: (int, int, int, int)) -> bool {
    ||| b.0 < a.0
    ||| b.0 == a.0 && b.1 < a.1
    ||| b.0 == a.0 && b.1 == a.1 && b.2 < a.2
    ||| b.0 == a.0 && b.1 == a.1 && b.2 == a.2 && b.3 < a.3
}

/// Every event that is not out of turn brings a run nearer to its end or ends it, and a run
/// that has ended stays as it is: no run goes on forever.
pub proof fn every_step_makes_progress(
    run: LoopView,
    interrupted: bool,
    auto_approved: bool,
    event: Event,
)
    requires
        run.wf(),
    ensures
        ({
            let d = run.decide(interrupted, auto_approved, event);
            &&& d.next.wf()
            &&& d.action is Ignore ==> d.next == run
            &&& !(d.action is Ignore) ==> d.next.phase == Phase::Ended || nearer(
                distance(run),
                distance(d.next),
            )
            &&& run.phase == Phase::Ended ==> d.action is Ignore
            &&& d.next.phase != Phase::Ended ==> {
                &&& distance(d.next).0 >= 0
                &&& distance(d.next).1 >= 0
                &&& distance(d.next).2 >= 0 || d.next.phase == Phase::Asking || d.next.phase
                    == Phase::Ready
                &&& distance(d.next).3 >= 0
            }
        }),
{
}

/// The model is asked at most ten times: each time the count of rounds goes up by one, and
/// beyond ten the run has ended.
pub proof fn model_is_asked_at_most_ten_times(
    run: LoopView,
    interrupted: bool,
    auto_approved: bool,
    event: Event,
)
    requires
        run.wf(),
    ensures
        ({
            let d = run.decide(interrupted, auto_approved, event);
            &&& run.iteration <= d.next.iteration
            &&& d.action is AskModel ==> d.next.iteration == run.iteration + 1
                && d.next.iteration <= 10
            &&& d.next.iteration > 10 ==> d.next.phase == Phase::Ended
        }),
{
}

/// A tool that needs an approval runs only where the session has approved it, and a shell
/// command only once it has been checked and needs no approval of its own.
pub proof fn no_tool_runs_unapproved(
    run: LoopView,
    interrupted: bool,
    auto_approved: bool,
    event: Event,
)
    requires
        run.wf(),
        run.decide(interrupted, auto_approved, event).action is RunTool,
    ensures
        match run.phase {
            Phase::LookingUp => {
                &&& event matches Event::Found(tool)
                &&& tool matches Some(info) ==> info.requires_approval ==> {
                    &&& auto_approved
                    &&& run.call().name == "shell"@ ==> shell_command_of(run.call().arguments)
                        is None
                }
            },
            Phase::CheckingShell => event matches Event::ShellChecked { explicit } && !explicit,
            _ => false,
        },
{
}

/// The shell is checked only for a tool that the session has approved.
pub proof fn shell_check_follows_approval(
    run: LoopView,
    interrupted: bool,
    auto_approved: bool,
    event: Event,
)
    requires
        run.wf(),
        run.decide(interrupted, auto_approved, event).next.phase == Phase::CheckingShell,
        !(run.decide(interrupted, auto_approved, event).action is Ignore),
    ensures
        run.phase == Phase::LookingUp,
        auto_approved,
        run.call().name == "shell"@,
        shell_command_of(run.call().arguments) == Some(
            run.decide(interrupted, auto_approved, event).action->CheckShell_0,
        ),
{
}

/// Every tool result in a conversation answers a call that an assistant message before it
/// asked for.
pub open spec fn announced(messages: Seq<chat::MessageView>) -> bool {
    forall|i: int|
        0 <= i < messages.len() && (#[trigger] messages[i]).role == chat::Role::Tool
            ==> exists|j: int| 0 <= j < i && asks_for(messages[j], messages[i].tool_call_id)
}

/// The message asks for a call with an id.
pub open spec fn asks_for(message: chat::MessageView, id: Option<Seq<char>>) -> bool {
    &&& message.role == chat::Role::Assistant
    &&& exists|k: int|
        0 <= k < message.tool_calls.len() && id == Some((#[trigger] message.tool_calls[k]).id)
}

/// The calls of a run that is busy with them stand in an assistant message.
pub open spec fn calls_stand(run: LoopView) -> bool {
    run.busy() ==> exists|j: int|
        0 <= j < run.messages.len() && (#[trigger] run.messages[j]).role == chat::Role::Assistant
            && run.messages[j].tool_calls == run.calls
}

/// A context stays sound when a message is added to it that is no tool result, or one that
/// answers a call before it.
pub proof fn announced_push(messages: Seq<chat::MessageView>, m: chat::MessageView)
    requires
        announced(messages),
        m.role == chat::Role::Tool ==> exists|j: int|
            0 <= j < messages.len() && asks_for(#[trigger] messages[j], m.tool_call_id),
    ensures
        announced(messages.push(m)),
{
    let all = messages.push(m);
    assert forall|i: int|
        0 <= i < all.len() && (#[trigger] all[i]).role == chat::Role::Tool implies exists|j: int|
        0 <= j < i && asks_for(all[j], all[i].tool_call_id) by {
        if i < messages.len() {
            let j = choose|j: int| 0 <= j < i && asks_for(messages[j], messages[i].tool_call_id);
            assert(asks_for(all[j], all[i].tool_call_id));
        } else {
            let j = choose|j: int|
                0 <= j < messages.len() && asks_for(#[trigger] messages[j], m.tool_call_id);
            assert(asks_for(all[j], all[i].tool_call_id));
        }
    }
}

/// A run never shows the model a tool result without the call that it answers: what the
/// protocol of the model demands of the context holds before and after every step.
pub proof fn results_follow_their_calls(
    run: LoopView,
    interrupted: bool,
    auto_approved: bool,
    event: Event,
)
    requires
        run.wf(),
        announced(run.messages),
        calls_stand(run),
    ensures
        announced(run.decide(interrupted, auto_approved, event).next.messages),
        calls_stand(run.decide(interrupted, auto_approved, event).next),
{
    let next = run.decide(interrupted, auto_approved, event).next;
    let n = run.messages.len() as int;
    if next.messages.len() == n {
        assert(next.messages == run.messages);
    } else if run.phase == Phase::Asking {
        announced_push(run.messages, next.messages[n]);
        if next.messages.len() == n + 1 {
            assert(next.messages =~= run.messages.push(next.messages[n]));
            assert(next.messages[n].tool_calls == next.calls);
        } else {
            announced_push(run.messages.push(next.messages[n]), next.messages[n + 1]);
            assert(next.messages =~= run.messages.push(next.messages[n]).push(
                next.messages[n + 1],
            ));
        }
    } else {
        let j = choose|j: int|
            0 <= j < n && (#[trigger] run.messages[j]).role == chat::Role::Assistant
                && run.messages[j].tool_calls == run.calls;
        let m = next.messages[n];
        assert(run.messages[j].tool_calls[run.position] == run.call());
        assert(asks_for(run.messages[j], m.tool_call_id));
        announced_push(run.messages, m);
        assert(next.messages =~= run.messages.push(m));
        assert(next.messages[j] == run.messages[j]);
    }
}

/// No status update of a run closes its turn.
pub proof fn run_notices_keep_open(
    run: LoopView,
    interrupted: bool,
    auto_approved: bool,
    event: Event,
)
    ensures
        notice::keep_open(run.decide(interrupted, auto_approved, event).notices),
{
}

/// What a step of a run decides on a session.
pub open spec fn decision(run: AgenticLoop, session: Session, event: Event) -> Decision {
    run@.decide(
        was_interrupted(session, run@.thread_id),
        session.auto_approves(run@.call().name),
        event,
    )
}

/// A looked-up tool runs at once where it needs no approval, whatever the session has
/// approved. One that needs an approval runs only where the session has approved it, and the
/// user is asked otherwise, for exactly that call. A shell command that the session has
/// approved is checked before it runs.
pub proof fn lookup_decides_on_the_tool(
    run: AgenticLoop,
    session: Session,
    after: Session,
    tool: Option<ToolInfo>,
    step: Step,
)
    requires
        run.wf(),
        run@.phase == Phase::LookingUp,
        step.carries_out(run@, decision(run, session, Event::Found(tool))),
        takes_effect(
            session,
            after,
            run@.thread_id,
            decision(run, session, Event::Found(tool)).effect,
        ),
    ensures
        ({
            let call = run@.calls[run@.position];
            let approved = session.auto_approves(call.name);
            let needed = tool matches Some(info) && info.requires_approval;
            let shell = call.name == "shell"@ && shell_command_of(call.arguments) is Some;
            &&& after == session
            &&& step.action is RunTool <==> !needed || (approved && !shell)
            &&& step.action is RunTool ==> notice::notice_views(step.notices@) == seq![
                notice::NoticeView::ToolStarted { name: call.name },
            ]
            &&& !(step.action is RunTool) ==> step.notices@.len() == 0
            &&& needed && !approved ==> {
                &&& step.action matches Action::Finish(
                    Ok(AgenticLoopResult::NeedApproval { pending }),
                )
                &&& pending.tool_name@ == call.name
                &&& pending.tool_call_id@ == call.id
                &&& json::json_content(pending.parameters) == call.arguments
                &&& pending.description@ == tool->0.description@
                &&& chat::views(pending.context_messages@) == run@.messages
            }
            &&& needed && approved && shell ==> {
                &&& step.action matches Action::CheckShell { command }
                &&& Some(command@) == shell_command_of(call.arguments)
            }
        }),
        ({
            let next = decision(run, session, Event::Found(tool)).next;
            &&& next.messages == run@.messages
            &&& next.calls == run@.calls
            &&& next.position == run@.position
            &&& step.action is RunTool ==> next.phase == Phase::Running
            &&& step.action is CheckShell ==> next.phase == Phase::CheckingShell
            &&& step.action is Finish ==> next.phase == Phase::Ended
            &&& tool is Some ==> next.description == tool->0.description@
        }),
{
    assert(step.notices@.len() == notice::notice_views(step.notices@).len());
}

/// A checked shell command runs unless each of its runs needs an approval; then the user is
/// asked for that call.
pub proof fn checked_shell_runs_or_asks(
    run: AgenticLoop,
    session: Session,
    after: Session,
    explicit: bool,
    step: Step,
)
    requires
        run.wf(),
        run@.phase == Phase::CheckingShell,
        step.carries_out(run@, decision(run, session, Event::ShellChecked { explicit })),
        takes_effect(
            session,
            after,
            run@.thread_id,
            decision(run, session, Event::ShellChecked { explicit }).effect,
        ),
    ensures
        after == session,
        step.action is RunTool <==> !explicit,
        !explicit ==> notice::notice_views(step.notices@) == seq![
            notice::NoticeView::ToolStarted { name: run@.calls[run@.position].name },
        ],
        explicit ==> {
            let call = run@.calls[run@.position];
            &&& step.action matches Action::Finish(Ok(AgenticLoopResult::NeedApproval { pending }))
            &&& pending.tool_name@ == call.name
            &&& pending.tool_call_id@ == call.id
            &&& json::json_content(pending.parameters) == call.arguments
            &&& pending.description@ == run@.description
            &&& chat::views(pending.context_messages@) == run@.messages
        },
{
}

/// The text of the model is the answer once a tool has run or the model has been asked three
/// times. Before that the model is asked again, with its text and the nudge at the end of the
/// context. A failure of the model ends the run with the failure.
pub proof fn text_answers_after_tools_or_three_rounds(
    run: AgenticLoop,
    session: Session,
    after: Session,
    reply: Result<ModelReply, String>,
    step: Step,
)
    requires
        run.wf(),
        run@.phase == Phase::Asking,
        !(reply matches Ok(m) && m is ToolCalls),
        step.carries_out(run@, decision(run, session, Event::Reply(reply))),
        takes_effect(
            session,
            after,
            run@.thread_id,
            decision(run, session, Event::Reply(reply)).effect,
        ),
    ensures
        after == session,
        step.notices@.len() == 0,
        match reply {
            Err(e) => step.action matches Action::Finish(Err(LoopError::Other(f))) && f@ == e@,
            Ok(ModelReply::Text(t)) => {
                let next = decision(run, session, Event::Reply(reply)).next;
                if run@.tools_executed || run@.iteration >= 3 {
                    &&& step.action matches Action::Finish(Ok(AgenticLoopResult::Response(s)))
                    &&& s@ == t@
                } else {
                    &&& next.messages.len() == run@.messages.len() + 2
                    &&& next.messages.take(run@.messages.len() as int) == run@.messages
                    &&& next.messages[run@.messages.len() as int].role == chat::Role::Assistant
                    &&& next.messages[run@.messages.len() as int].content == t@
                    &&& next.messages[run@.messages.len() as int + 1].role == chat::Role::User
                    &&& next.messages[run@.messages.len() as int + 1].content == nudge_text()
                    &&& !next.tools_executed
                    &&& if was_interrupted(session, run@.thread_id) {
                        step.action is Finish
                    } else {
                        step.action is AskModel && next.phase == Phase::Asking
                    }
                }
            },
            _ => true,
        },
{
    assert(step.notices@.len() == notice::notice_views(step.notices@).len());
    let next = decision(run, session, Event::Reply(reply)).next;
    if next.messages.len() == run@.messages.len() + 2 {
        assert(next.messages.take(run@.messages.len() as int) =~= run@.messages);
    }
}

/// The calls of the model stand at the end of the context, in one assistant message, and are
/// recorded in the last turn as open; the first of them is looked up next. Without a call the
/// model is asked again.
pub proof fn calls_are_taken_up_in_order(
    run: AgenticLoop,
    session: Session,
    after: Session,
    tool_calls: Vec<ToolCall>,
    content: Option<String>,
    step: Step,
)
    requires
        run.wf(),
        run@.phase == Phase::Asking,
        step.carries_out(
            run@,
            decision(
                run,
                session,
                Event::Reply(Ok(ModelReply::ToolCalls { tool_calls, content })),
            ),
        ),
        takes_effect(
            session,
            after,
            run@.thread_id,
            decision(
                run,
                session,
                Event::Reply(Ok(ModelReply::ToolCalls { tool_calls, content })),
            ).effect,
        ),
    ensures
        ({
            let next = decision(
                run,
                session,
                Event::Reply(Ok(ModelReply::ToolCalls { tool_calls, content })),
            ).next;
            let n = run@.messages.len() as int;
            &&& next.messages.len() == n + 1
            &&& next.messages.take(n) == run@.messages
            &&& next.messages[n].role == chat::Role::Assistant
            &&& next.messages[n].tool_calls == chat::call_views(tool_calls@)
            &&& next.messages[n].content == match content {
                Some(c) => c@,
                None => Seq::empty(),
            }
            &&& next.tools_executed
            &&& step.notices@.len() == 1
            &&& step.notices@[0] is Thinking
            &&& if tool_calls@.len() > 0 {
                &&& step.action is LookUp
                &&& next.phase == Phase::LookingUp
                &&& next.position == 0
                &&& next.calls == chat::call_views(tool_calls@)
            } else {
                step.action is AskModel || step.action is Finish
            }
        }),
        (session.thread(run@.thread_id) matches Some(o) && o.turns@.len() > 0) ==> {
            let o = session.thread(run@.thread_id)->0;
            &&& after.thread(run@.thread_id) matches Some(n)
            &&& n.state == o.state
            &&& n.pending_auth == o.pending_auth
            &&& n.turns@.len() == o.turns@.len()
            &&& n.turns@.last().user_input == o.turns@.last().user_input
            &&& n.turns@.last().tool_calls@.len() == o.turns@.last().tool_calls@.len()
                + tool_calls@.len()
            &&& forall|i: int|
                0 <= i < tool_calls@.len() ==> {
                    let r = (#[trigger] n.turns@.last().tool_calls@[o.turns@.last().tool_calls@.len()
                        + i]);
                    &&& r.name@ == tool_calls@[i].name@
                    &&& json::json_content(r.parameters) == json::json_content(
                        tool_calls@[i].arguments,
                    )
                    &&& r.result is None
                    &&& r.error is None
                }
        },
{
    let event = Event::Reply(Ok(ModelReply::ToolCalls { tool_calls, content }));
    let next = decision(run, session, event).next;
    let n = run@.messages.len() as int;
    assert(next.messages.take(n) =~= run@.messages);
    assert(step.notices@.len() == notice::notice_views(step.notices@).len());
    assert(notice::notice_views(step.notices@)[0] == step.notices@[0]@);
    if session.thread(run@.thread_id) matches Some(o) && o.turns@.len() > 0 {
        let o = session.thread(run@.thread_id)->0;
        let new = after.thread(run@.thread_id)->0;
        let asked = chat::call_views(tool_calls@).map_values(
            |c: chat::ToolCallView| session::RecordView::asked(c),
        );
        let old_records = session::record_views(o.turns@.last().tool_calls@);
        let records = session::record_views(new.turns@.last().tool_calls@);
        assert(records == old_records + asked);
        assert(records.len() == new.turns@.last().tool_calls@.len());
        assert(old_records.len() == o.turns@.last().tool_calls@.len());
        assert forall|i: int| 0 <= i < tool_calls@.len() implies {
            let r = (#[trigger] new.turns@.last().tool_calls@[o.turns@.last().tool_calls@.len() + i]);
            &&& r.name@ == tool_calls@[i].name@
            &&& json::json_content(r.parameters) == json::json_content(tool_calls@[i].arguments)
            &&& r.result is None
            &&& r.error is None
        } by {
            let k = o.turns@.last().tool_calls@.len() + i;
            assert(records[k] == new.turns@.last().tool_calls@[k]@);
            assert(asked[i] == session::RecordView::asked(tool_calls@[i]@));
            assert(records[k] == asked[i]);
        }
    }
}

/// What a tool gave back is recorded for the oldest open call of the turn. An output goes on
/// to be made safe; a failure enters the context at once, as the result of that very call.
/// Only a request for a token ends the run, with its instructions.
pub proof fn outcomes_answer_their_calls(
    run: AgenticLoop,
    session: Session,
    after: Session,
    outcome: Result<String, String>,
    step: Step,
)
    requires
        run.wf(),
        run@.phase == Phase::Running,
        step.carries_out(run@, decision(run, session, Event::Ran(outcome))),
        takes_effect(
            session,
            after,
            run@.thread_id,
            decision(run, session, Event::Ran(outcome)).effect,
        ),
    ensures
        ({
            let call = run@.calls[run@.position];
            let next = decision(run, session, Event::Ran(outcome)).next;
            let request = auth::token_request(call.name, auth::output_content(outcome));
            &&& notice::notice_views(step.notices@).len() > 0
            &&& notice::notice_views(step.notices@)[0] == (notice::NoticeView::ToolCompleted {
                name: call.name,
                success: outcome is Ok,
            })
            &&& match request {
                Some(q) => {
                    &&& step.action matches Action::Finish(Ok(AgenticLoopResult::Response(s)))
                    &&& s@ == q.1
                    &&& next.messages == run@.messages
                    &&& notice::notice_views(step.notices@).last() is AuthRequired
                },
                None => match outcome {
                    Ok(output) => {
                        &&& step.action matches Action::Wrap { output: o }
                        &&& o@ == output@
                        &&& next.messages == run@.messages
                        &&& next.position == run@.position
                    },
                    Err(e) => {
                        &&& next.messages.len() == run@.messages.len() + 1
                        &&& next.messages.drop_last() == run@.messages
                        &&& next.messages.last().role == chat::Role::Tool
                        &&& next.messages.last().tool_call_id == Some(call.id)
                        &&& next.messages.last().name == Some(call.name)
                        &&& next.messages.last().content == "Error: "@ + e@
                        &&& next.position == run@.position + 1
                        &&& step.action is LookUp <==> run@.position + 1 < run@.calls.len()
                    },
                },
            }
        }),
        session.thread(run@.thread_id) matches Some(o) ==> {
            let request = auth::token_request(
                run@.calls[run@.position].name,
                auth::output_content(outcome),
            );
            &&& after.thread(run@.thread_id) matches Some(n)
            &&& n.state == o.state
            &&& n.turns@.len() == o.turns@.len()
            &&& session::last_records(n.turns@) == session::recorded(
                session::last_records(o.turns@),
                outcome,
            )
            &&& match request {
                Some(q) => n.pending_auth matches Some(p) && p.extension_name@ == q.0,
                None => n.pending_auth == o.pending_auth,
            }
        },
{
    let next = decision(run, session, Event::Ran(outcome)).next;
    if next.messages.len() == run@.messages.len() + 1 {
        assert(next.messages.drop_last() =~= run@.messages);
    }
    if let Some(o) = session.thread(run@.thread_id) {
        let n = after.thread(run@.thread_id)->0;
        if o.turns@.len() == 0 {
            let records = session::last_records(o.turns@);
            assert(session::oldest_open(records) is None);
        }
    }
}

/// A tool's safe output enters the context as the result of the call that it answers, and
/// the next call is looked up; after the last one the model is asked again.
pub proof fn safe_output_answers_its_call(
    run: AgenticLoop,
    session: Session,
    after: Session,
    content: String,
    step: Step,
)
    requires
        run.wf(),
        run@.phase == Phase::Wrapping,
        step.carries_out(run@, decision(run, session, Event::Wrapped(content))),
        takes_effect(
            session,
            after,
            run@.thread_id,
            decision(run, session, Event::Wrapped(content)).effect,
        ),
    ensures
        after == session,
        ({
            let call = run@.calls[run@.position];
            let next = decision(run, session, Event::Wrapped(content)).next;
            &&& next.messages.len() == run@.messages.len() + 1
            &&& next.messages.drop_last() == run@.messages
            &&& next.messages.last().role == chat::Role::Tool
            &&& next.messages.last().tool_call_id == Some(call.id)
            &&& next.messages.last().name == Some(call.name)
            &&& next.messages.last().content == content@
            &&& next.calls == run@.calls
            &&& next.position == run@.position + 1
            &&& if run@.position + 1 < run@.calls.len() {
                step.action is LookUp && next.phase == Phase::LookingUp
            } else if run@.iteration < 10 && !was_interrupted(session, run@.thread_id) {
                step.action is AskModel && next.phase == Phase::Asking
            } else {
                step.action matches Action::Finish(Err(_))
            }
        }),
{
    let next = decision(run, session, Event::Wrapped(content)).next;
    assert(next.messages.drop_last() =~= run@.messages);
}

/// A run begins by asking the model, unless its thread was interrupted: then it ends with an
/// error for that thread.
pub proof fn run_begins_with_the_model(
    run: AgenticLoop,
    session: Session,
    after: Session,
    step: Step,
)
    requires
        run.wf(),
        run@.phase == Phase::Ready,
        step.carries_out(run@, decision(run, session, Event::Start)),
        takes_effect(session, after, run@.thread_id, decision(run, session, Event::Start).effect),
    ensures
        after == session,
        decision(run, session, Event::Start).next.messages == run@.messages,
        if session.thread(run@.thread_id) matches Some(t) && t.state == ThreadState::Interrupted {
            step.action matches Action::Finish(Err(LoopError::ContextError { id, .. })) && id
                == run@.thread_id
        } else {
            step.action is AskModel
        },
{
}

/// An interrupted thread is not asked about again: no step of its run asks the model.
pub proof fn interruption_stops_the_model(
    run: AgenticLoop,
    session: Session,
    event: Event,
    step: Step,
)
    requires
        run.wf(),
        session.thread(run@.thread_id) matches Some(t) && t.state == ThreadState::Interrupted,
        step.carries_out(run@, decision(run, session, event)),
    ensures
        !(step.action is AskModel),
{
}

/// The command of a shell call is its `command` member; arguments that are a string are read
/// as JSON first.
pub proof fn shell_command_is_the_command_member(arguments: json::JsonContent)
    ensures
        arguments.text_at("command"@) is Some ==> shell_command_of(arguments) == arguments.text_at(
            "command"@,
        ),
        arguments matches json::JsonContent::Text(s) ==> shell_command_of(arguments)
            == match json::parsed_json(s) {
            Some(c) => c.text_at("command"@),
            None => None,
        },
        !(arguments is Text) && arguments.text_at("command"@) is None ==> shell_command_of(
            arguments,
        ) is None,
{
}

/// What a step writes to the session concerns only the thread of the run, and of that thread
/// only its last turn and the token that it awaits.
pub proof fn steps_touch_their_thread_only(
    old: Session,
    new: Session,
    id: u128,
    effect: Effect,
    other: u128,
)
    requires
        takes_effect(old, new, id, effect),
    ensures
        other != id ==> new.thread(other) == old.thread(other),
        new.active_thread == old.active_thread,
        new.auto_approved_tools == old.auto_approved_tools,
        match (old.thread(id), new.thread(id)) {
            (Some(o), Some(n)) => {
                &&& n.state == o.state
                &&& n.pending_approval == o.pending_approval
                &&& n.pending_messages == o.pending_messages
                &&& n.metadata == o.metadata
                &&& n.turns@.len() == o.turns@.len()
                &&& forall|i: int|
                    0 <= i < o.turns@.len() - 1 ==> #[trigger] n.turns@[i] == o.turns@[i]
                &&& o.turns@.len() > 0 ==> {
                    &&& n.turns@.last().user_input == o.turns@.last().user_input
                    &&& n.turns@.last().response == o.turns@.last().response
                    &&& n.turns@.last().error == o.turns@.last().error
                }
            },
            (None, None) => true,
            _ => false,
        },
{
    if let (Some(o), Some(n)) = (old.thread(id), new.thread(id)) {
        if !(effect is Nothing) && o.turns@.len() > 0 {
            assert forall|i: int| 0 <= i < o.turns@.len() - 1 implies #[trigger] n.turns@[i]
                == o.turns@[i] by {
                assert(n.turns@.drop_last()[i] == o.turns@.drop_last()[i]);
            }
        }
    }
}

/// The model is asked again as long as it has been asked fewer than ten times and the thread
/// was not interrupted. Too many rounds are a failure of their own, whether interrupted or not.
pub proof fn rounds_are_limited(run: LoopView, interrupted: bool)
    ensures
        ({
            let d = run.round(interrupted);
            &&& d.next.iteration == run.iteration + 1
            &&& d.next.messages == run.messages
            &&& d.action is AskModel <==> run.iteration < 10 && !interrupted
            &&& d.action == ActionView::Fail(Failure::TooManyRounds) <==> run.iteration >= 10
            &&& d.action == ActionView::Fail(Failure::Interrupted) <==> run.iteration < 10
                && interrupted
        }),
{
}

/// Each failure is reported as what it is: too many rounds as an answer that is no use, an
/// interruption with the thread that it happened in, and a failure of the model in its words.
pub proof fn failures_are_told_apart(e: LoopError, thread_id: u128, failure: Failure)
    requires
        reports(e, thread_id, failure),
    ensures
        failure is TooManyRounds <==> e is InvalidResponse,
        failure is Interrupted <==> e is ContextError,
        failure is Model <==> e is Other,
        e matches LoopError::ContextError { id, .. } ==> id == thread_id,
        failure matches Failure::Model(t) ==> e->Other_0@ == t,
{
}

/// A run waits for the outcome of what it asked for and takes in no other: each piece of work
/// has its phase, and an event that does not belong there changes nothing.
pub proof fn runs_wait_for_what_they_asked(run: AgenticLoop, session: Session, event: Event)
    requires
        run.wf(),
    ensures
        ({
            let d = decision(run, session, event);
            &&& d.action is AskModel ==> d.next.phase == Phase::Asking
            &&& d.action is LookUp ==> d.next.phase == Phase::LookingUp
            &&& d.action is CheckShell ==> d.next.phase == Phase::CheckingShell
            &&& d.action is RunTool ==> d.next.phase == Phase::Running
            &&& d.action is Wrap ==> d.next.phase == Phase::Wrapping
            &&& d.action is Respond || d.action is NeedApproval || d.action is Fail
                ==> d.next.phase == Phase::Ended
            &&& d.action is Ignore ==> d.next == run@ && d.effect is Nothing
            &&& run@.phase == Phase::Ended ==> d.action is Ignore
            &&& run@.phase == Phase::Asking && event is Reply ==> !(d.action is Ignore)
            &&& run@.phase == Phase::Asking && !(event is Reply) ==> d.action is Ignore
        }),
{
}

} // verus!
