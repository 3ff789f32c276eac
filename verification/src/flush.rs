//! The memory flush: a silent run before a compaction in which the model can write down
//! what it wants to remember.
//!
//! The run is a machine like the loop of an ordinary turn, but it records nothing in the
//! thread, runs only memory tools, asks for no approval and ends with whatever text the
//! model gives.

use vstd::prelude::*;

use crate::agentic;
use crate::agentic::ModelReply;
use crate::chat;
use crate::chat::{ChatMessage, Role, ToolCall};
use crate::submission;
use crate::text;

verus! {

/// How often the model is asked at most in one flush.
pub const MEMORY_FLUSH_MAX_ITERATIONS: u32 = 3;

/// The tools that the model is offered in a flush.
pub fn flush_tools() -> (r: Vec<String>)
    ensures
        text::texts(r@) == seq![
            "memory_write"@,
            "memory_read"@,
            "memory_search"@,
            "memory_append"@,
        ],
{
    let mut tools: Vec<String> = Vec::new();
    tools.push("memory_write".to_owned());
    tools.push("memory_read".to_owned());
    tools.push("memory_search".to_owned());
    tools.push("memory_append".to_owned());
    assert(text::texts(tools@) =~= seq![
        "memory_write"@,
        "memory_read"@,
        "memory_search"@,
        "memory_append"@,
    ]);
    tools
}

/// A tool that can run in a flush.
pub open spec fn memory_tool(name: Seq<char>) -> bool {
    name == "memory_write"@ || name == "memory_read"@ || name == "memory_search"@ || name
        == "memory_append"@
}

fn is_memory_tool(name: &str) -> (r: bool)
    ensures
        r == memory_tool(name@),
{
    text::same(name, "memory_write") || text::same(name, "memory_read") || text::same(
        name,
        "memory_search",
    ) || text::same(name, "memory_append")
}

/// The tools that the model is offered are those that can run.
pub proof fn offered_tools_can_run(tools: Seq<String>, name: Seq<char>)
    requires
        text::texts(tools) == seq![
            "memory_write"@,
            "memory_read"@,
            "memory_search"@,
            "memory_append"@,
        ],
    ensures
        memory_tool(name) <==> text::texts(tools).contains(name),
{
    let all = text::texts(tools);
    assert(all[0] == "memory_write"@ && all[1] == "memory_read"@ && all[2] == "memory_search"@
        && all[3] == "memory_append"@);
}

/// What the model is told of a call of any other tool.
pub open spec fn refusal(name: Seq<char>) -> Seq<char> {
    "Error: Tool "@ + name + " is not available in a memory flush."@
}

/// What the model is told of a tool that ran.
pub open spec fn result_text(outcome: Result<String, String>) -> Seq<char> {
    match outcome {
        Ok(output) => output@,
        Err(e) => "Error: "@ + e@,
    }
}

/// What happened outside since the last step.
pub enum FlushEvent {
    Start,
    /// The model answered, or the call failed.
    Reply(Result<ModelReply, String>),
    /// The tool of the current call ran.
    Ran(Result<String, String>),
}

/// The outside work to do next.
pub enum FlushAction {
    AskModel,
    RunTool,
    /// The flush is over.
    Finish(Result<(), String>),
    /// The event came out of turn: nothing happened.
    Ignore,
}

/// What the flush waits for.
#[derive(Clone, Copy, Debug, PartialEq, Eq, Structural)]
pub enum FlushPhase {
    Ready,
    Asking,
    Running,
    Ended,
}

/// A memory flush.
pub struct Flush {
    messages: Vec<ChatMessage>,
    iteration: u32,
    calls: Vec<ToolCall>,
    position: usize,
    phase: FlushPhase,
}

/// A memory flush by its values.
#[verifier::ext_equal]
pub struct FlushView {
    pub messages: Seq<chat::MessageView>,
    /// How often the model has been asked.
    pub iteration: nat,
    pub calls: Seq<chat::ToolCallView>,
    pub position: int,
    pub phase: FlushPhase,
}

impl View for Flush {
    type V = FlushView;

    closed spec fn view(&self) -> FlushView {
        FlushView {
            messages: chat::views(self.messages@),
            iteration: self.iteration as nat,
            calls: chat::call_views(self.calls@),
            position: self.position as int,
            phase: self.phase,
        }
    }
}

/// Everything that a step decides.
pub struct FlushDecision {
    pub next: FlushView,
    pub action: FlushAction,
}

impl FlushView {
    /// The invariant of a flush.
    pub open spec fn wf(self) -> bool {
        &&& self.iteration <= MEMORY_FLUSH_MAX_ITERATIONS
        &&& self.phase == FlushPhase::Running ==> 0 <= self.position < self.calls.len()
    }

    /// The call that is being run.
    pub open spec fn call(self) -> chat::ToolCallView {
        self.calls[self.position]
    }

    /// The flush in another phase.
    pub open spec fn goes(self, phase: FlushPhase, action: FlushAction) -> FlushDecision {
        FlushDecision { next: FlushView { phase, ..self }, action }
    }

    /// The next round, unless the model has been asked often enough.
    pub open spec fn round(self) -> FlushDecision {
        if self.iteration >= MEMORY_FLUSH_MAX_ITERATIONS {
            self.goes(FlushPhase::Ended, FlushAction::Finish(Ok(())))
        } else {
            (FlushView { iteration: self.iteration + 1, ..self }).goes(
                FlushPhase::Asking,
                FlushAction::AskModel,
            )
        }
    }

    /// The model's calls, taken up.
    pub open spec fn asked(self, calls: Seq<chat::ToolCallView>, content: Seq<char>) -> FlushView {
        FlushView {
            messages: self.messages.push(chat::MessageView::asking(content, calls)),
            calls,
            position: 0,
            ..self
        }
    }

    /// The current call answered.
    pub open spec fn answered(self, content: Seq<char>) -> FlushView {
        FlushView {
            messages: self.messages.push(
                chat::MessageView::tool_result(self.call().id, self.call().name, content),
            ),
            position: self.position + 1,
            ..self
        }
    }

    /// The next call of a memory tool, or the next round where there is none left. A call of
    /// any other tool is answered with a refusal.
    pub open spec fn advance(self) -> FlushDecision
        decreases self.calls.len() - self.position,
    {
        if self.position >= self.calls.len() {
            self.round()
        } else if memory_tool(self.call().name) {
            self.goes(FlushPhase::Running, FlushAction::RunTool)
        } else {
            self.answered(refusal(self.call().name)).advance()
        }
    }

    /// What a step decides.
    pub open spec fn decide(self, event: FlushEvent) -> FlushDecision {
        match (self.phase, event) {
            (FlushPhase::Ready, FlushEvent::Start) => self.round(),
            (FlushPhase::Asking, FlushEvent::Reply(reply)) => match reply {
                Err(e) => self.goes(FlushPhase::Ended, FlushAction::Finish(Err(e))),
                Ok(ModelReply::Text(_)) => self.goes(
                    FlushPhase::Ended,
                    FlushAction::Finish(Ok(())),
                ),
                Ok(ModelReply::ToolCalls { tool_calls, content }) => self.asked(
                    chat::call_views(tool_calls@),
                    match content {
                        Some(c) => c@,
                        None => seq![],
                    },
                ).advance(),
            },
            (FlushPhase::Running, FlushEvent::Ran(outcome)) => self.answered(
                result_text(outcome),
            ).advance(),
            _ => FlushDecision { next: self, action: FlushAction::Ignore },
        }
    }
}

impl Flush {
    /// The flush satisfies its invariant.
    pub open spec fn wf(self) -> bool {
        self@.wf()
    }

    /// A flush that begins with a prompt.
    pub fn new(prompt: &str) -> (r: Flush)
        ensures
            r.wf(),
            r@ == (FlushView {
                messages: seq![chat::MessageView::plain(Role::User, prompt@)],
                iteration: 0,
                calls: seq![],
                position: 0,
                phase: FlushPhase::Ready,
            }),
    {
        let message = ChatMessage::user(prompt);
        let mut messages: Vec<ChatMessage> = Vec::new();
        messages.push(message);
        let r = Flush {
            messages,
            iteration: 0,
            calls: Vec::new(),
            position: 0,
            phase: FlushPhase::Ready,
        };
        assert(r@ =~= (FlushView {
            messages: seq![chat::MessageView::plain(Role::User, prompt@)],
            iteration: 0,
            calls: seq![],
            position: 0,
            phase: FlushPhase::Ready,
        }));
        r
    }

    /// The messages to ask the model with.
    pub fn messages(&self) -> (r: &Vec<ChatMessage>)
        ensures
            chat::views(r@) == self@.messages,
    {
        &self.messages
    }

    /// The call that is being run.
    pub fn current_call(&self) -> (r: Option<&ToolCall>)
        requires
            self.wf(),
        ensures
            match r {
                Some(c) => self@.phase == FlushPhase::Running && c@ == self@.call(),
                None => self@.phase != FlushPhase::Running,
            },
    {
        if self.phase == FlushPhase::Running {
            assert(chat::call_views(self.calls@)[self.position as int]
                == self.calls@[self.position as int]@);
            Some(&self.calls[self.position])
        } else {
            None
        }
    }

    fn begin_round(&mut self) -> (r: FlushAction)
        ensures
            final(self)@ == old(self)@.round().next,
            r == old(self)@.round().action,
    {
        if self.iteration >= MEMORY_FLUSH_MAX_ITERATIONS {
            self.phase = FlushPhase::Ended;
            FlushAction::Finish(Ok(()))
        } else {
            self.iteration = self.iteration + 1;
            self.phase = FlushPhase::Asking;
            FlushAction::AskModel
        }
    }

    fn answer(&mut self, content: String)
        requires
            old(self).position < old(self).calls@.len(),
        ensures
            final(self)@ == old(self)@.answered(content@),
            final(self).calls == old(self).calls,
            final(self).position == old(self).position + 1,
    {
        let ghost before = self@;
        assert(chat::call_views(self.calls@)[self.position as int]
            == self.calls@[self.position as int]@);
        let message = ChatMessage::tool_result(
            self.calls[self.position].id.as_str(),
            self.calls[self.position].name.as_str(),
            content,
        );
        self.messages.push(message);
        assert(chat::views(self.messages@) =~= before.messages.push(message@));
        assert(self.position < self.calls.len());
        self.position = self.position + 1;
    }

    fn advance(&mut self) -> (r: FlushAction)
        ensures
            final(self)@ == old(self)@.advance().next,
            r == old(self)@.advance().action,
    {
        let ghost decided = self@.advance();
        while self.position < self.calls.len()
            invariant
                self@.advance() == decided,
                decided == old(self)@.advance(),
            decreases self.calls@.len() - self.position,
        {
            assert(chat::call_views(self.calls@)[self.position as int]
                == self.calls@[self.position as int]@);
            if is_memory_tool(self.calls[self.position].name.as_str()) {
                self.phase = FlushPhase::Running;
                return FlushAction::RunTool;
            }
            let refused = text::cat3(
                "Error: Tool ",
                self.calls[self.position].name.as_str(),
                " is not available in a memory flush.",
            );
            self.answer(refused);
        }
        self.begin_round()
    }

    /// Takes one step of the flush.
    pub fn step(&mut self, event: FlushEvent) -> (r: FlushAction)
        requires
            old(self).wf(),
        ensures
            final(self).wf(),
            final(self)@ == old(self)@.decide(event).next,
            r == old(self)@.decide(event).action,
    {
        let ghost before = self@;
        proof {
            flush_ends(before, event);
        }
        match (self.phase, event) {
            (FlushPhase::Ready, FlushEvent::Start) => self.begin_round(),
            (FlushPhase::Asking, FlushEvent::Reply(reply)) => match reply {
                Err(e) => {
                    self.phase = FlushPhase::Ended;
                    FlushAction::Finish(Err(e))
                },
                Ok(ModelReply::Text(_)) => {
                    self.phase = FlushPhase::Ended;
                    FlushAction::Finish(Ok(()))
                },
                Ok(ModelReply::ToolCalls { tool_calls, content }) => {
                    let message = ChatMessage::assistant_with_tool_calls(
                        content,
                        chat::copy_calls(&tool_calls),
                    );
                    self.messages.push(message);
                    assert(chat::views(self.messages@) =~= before.messages.push(message@));
                    self.calls = tool_calls;
                    self.position = 0;
                    self.advance()
                },
            },
            (FlushPhase::Running, FlushEvent::Ran(outcome)) => {
                let content: String = match outcome {
                    Ok(output) => output,
                    Err(e) => text::cat("Error: ", e.as_str()),
                };
                self.answer(content);
                self.advance()
            },
            _ => FlushAction::Ignore,
        }
    }
}

/// A flush has gone on to the next call of a memory tool, to the next round, or to its end.
spec fn went_on(flush: FlushView, d: FlushDecision) -> bool {
    &&& d.next.wf()
    &&& d.next.calls == flush.calls
    &&& d.next.position >= flush.position
    &&& !(d.action is Ignore)
    &&& d.action is RunTool ==> d.next.phase == FlushPhase::Running && d.next.iteration
        == flush.iteration && memory_tool(d.next.call().name)
    &&& d.action is AskModel ==> d.next.iteration == flush.iteration + 1
}

proof fn advance_goes_on(flush: FlushView)
    requires
        flush.position >= 0,
        flush.iteration <= MEMORY_FLUSH_MAX_ITERATIONS,
    ensures
        went_on(flush, flush.advance()),
    decreases flush.calls.len() - flush.position,
{
    if flush.position < flush.calls.len() && !memory_tool(flush.call().name) {
        advance_goes_on(flush.answered(refusal(flush.call().name)));
    }
}

/// Where a flush goes on after any step that deals with calls.
proof fn steps_go_on(flush: FlushView, event: FlushEvent)
    requires
        flush.wf(),
    ensures
        flush.decide(event).next.wf(),
        event matches FlushEvent::Reply(Ok(ModelReply::ToolCalls { tool_calls, content })) ==> {
            let a = flush.asked(
                chat::call_views(tool_calls@),
                match content {
                    Some(c) => c@,
                    None => seq![],
                },
            );
            went_on(a, a.advance())
        },
        event matches FlushEvent::Ran(outcome) ==> {
            let a = flush.answered(result_text(outcome));
            flush.phase == FlushPhase::Running ==> went_on(a, a.advance())
        },
{
    if let FlushEvent::Reply(Ok(ModelReply::ToolCalls { tool_calls, content })) = event {
        let text = match content {
            Some(c) => c@,
            None => seq![],
        };
        advance_goes_on(flush.asked(chat::call_views(tool_calls@), text));
    }
    if let FlushEvent::Ran(outcome) = event {
        if flush.phase == FlushPhase::Running {
            advance_goes_on(flush.answered(result_text(outcome)));
        }
    }
}

/// The model is asked at most three times in a flush, and between two of these times every
/// step deals with one more call: no flush goes on forever.
pub proof fn flush_ends(flush: FlushView, event: FlushEvent)
    requires
        flush.wf(),
    ensures
        ({
            let d = flush.decide(event);
            &&& d.next.wf()
            &&& d.action is AskModel ==> d.next.iteration == flush.iteration + 1
                && d.next.iteration <= 3
            &&& d.action is RunTool && flush.phase == FlushPhase::Running ==> d.next.calls.len()
                - d.next.position < flush.calls.len() - flush.position
            &&& d.action is RunTool ==> d.next.iteration == flush.iteration
            &&& d.action is Ignore ==> d.next == flush
            &&& flush.phase == FlushPhase::Ended ==> d.action is Ignore
        }),
{
    steps_go_on(flush, event);
}

/// Only memory tools run in a flush, whatever the model asks for.
pub proof fn only_memory_tools_run(flush: FlushView, event: FlushEvent)
    requires
        flush.wf(),
        flush.decide(event).action is RunTool,
    ensures
        memory_tool(flush.decide(event).next.call().name),
{
    steps_go_on(flush, event);
}

/// The calls stand in an assistant message of the context.
pub open spec fn calls_stand(
    messages: Seq<chat::MessageView>,
    calls: Seq<chat::ToolCallView>,
) -> bool {
    exists|j: int|
        0 <= j < messages.len() && (#[trigger] messages[j]).role == Role::Assistant
            && messages[j].tool_calls == calls
}

proof fn answer_is_announced(flush: FlushView, content: Seq<char>)
    requires
        0 <= flush.position < flush.calls.len(),
        agentic::announced(flush.messages),
        calls_stand(flush.messages, flush.calls),
    ensures
        agentic::announced(flush.answered(content).messages),
        calls_stand(flush.answered(content).messages, flush.calls),
{
    let m = chat::MessageView::tool_result(flush.call().id, flush.call().name, content);
    let j = choose|j: int|
        0 <= j < flush.messages.len() && (#[trigger] flush.messages[j]).role == Role::Assistant
            && flush.messages[j].tool_calls == flush.calls;
    assert(flush.messages[j].tool_calls[flush.position] == flush.call());
    assert(agentic::asks_for(flush.messages[j], m.tool_call_id));
    agentic::announced_push(flush.messages, m);
    assert(flush.messages.push(m)[j] == flush.messages[j]);
}

proof fn advance_is_announced(flush: FlushView)
    requires
        flush.position >= 0,
        agentic::announced(flush.messages),
        calls_stand(flush.messages, flush.calls),
    ensures
        agentic::announced(flush.advance().next.messages),
        calls_stand(flush.advance().next.messages, flush.advance().next.calls),
    decreases flush.calls.len() - flush.position,
{
    if flush.position < flush.calls.len() && !memory_tool(flush.call().name) {
        answer_is_announced(flush, refusal(flush.call().name));
        advance_is_announced(flush.answered(refusal(flush.call().name)));
    }
}

/// A flush never shows the model a tool result without the call that it answers: what the
/// protocol of the model demands of the context holds before and after every step.
pub proof fn flush_results_follow_their_calls(flush: FlushView, event: FlushEvent)
    requires
        flush.wf(),
        agentic::announced(flush.messages),
        flush.phase == FlushPhase::Running ==> calls_stand(flush.messages, flush.calls),
    ensures
        ({
            let next = flush.decide(event).next;
            &&& agentic::announced(next.messages)
            &&& next.phase == FlushPhase::Running ==> calls_stand(next.messages, next.calls)
        }),
{
    match (flush.phase, event) {
        (
            FlushPhase::Asking,
            FlushEvent::Reply(Ok(ModelReply::ToolCalls { tool_calls, content })),
        ) => {
            let calls = chat::call_views(tool_calls@);
            let text = match content {
                Some(c) => c@,
                None => seq![],
            };
            let m = chat::MessageView::asking(text, calls);
            agentic::announced_push(flush.messages, m);
            assert(flush.messages.push(m)[flush.messages.len() as int] == m);
            advance_is_announced(flush.asked(calls, text));
        },
        (FlushPhase::Running, FlushEvent::Ran(outcome)) => {
            answer_is_announced(flush, result_text(outcome));
            advance_is_announced(flush.answered(result_text(outcome)));
        },
        _ => {},
    }
}

/// A flush asks the model first, ends with the first text that it gives or with the first
/// failure, and hands that failure on.
pub proof fn texts_and_failures_end_the_flush(flush: FlushView, reply: Result<ModelReply, String>)
    requires
        flush.wf(),
    ensures
        flush.phase == FlushPhase::Ready && flush.iteration == 0 ==> {
            let d = flush.decide(FlushEvent::Start);
            &&& d.action is AskModel
            &&& d.next.phase == FlushPhase::Asking
            &&& d.next.iteration == 1
            &&& d.next.messages == flush.messages
        },
        flush.phase == FlushPhase::Asking ==> {
            let d = flush.decide(FlushEvent::Reply(reply));
            &&& reply matches Ok(ModelReply::Text(_)) ==> d.action == FlushAction::Finish(Ok(()))
                && d.next.phase == FlushPhase::Ended
            &&& reply matches Err(e) ==> d.action == FlushAction::Finish(Err(e)) && d.next.phase
                == FlushPhase::Ended
        },
{
}

/// The messages of a flush with one call after the other answered.
proof fn advance_grows_the_context(flush: FlushView)
    requires
        flush.position >= 0,
    ensures
        ({
            let d = flush.advance();
            let n = flush.messages.len() as int;
            &&& d.next.messages.len() >= n
            &&& d.next.messages.take(n) == flush.messages
            &&& d.action is RunTool ==> {
                &&& d.next.messages.len() - n == d.next.position - flush.position
                &&& forall|i: int|
                    flush.position <= i < d.next.position ==> !memory_tool(
                        (#[trigger] flush.calls[i]).name,
                    )
            }
            &&& !(d.action is RunTool) ==> {
                &&& forall|i: int|
                    flush.position <= i < flush.calls.len() ==> !memory_tool(
                        (#[trigger] flush.calls[i]).name,
                    )
                &&& d.action is AskModel <==> flush.iteration < 3
                &&& d.action is Finish <==> flush.iteration >= 3
                &&& d.action is Finish ==> d.action->0 is Ok
                &&& flush.position <= flush.calls.len() ==> d.next.messages.len() - n
                    == flush.calls.len() - flush.position
            }
            &&& forall|i: int|
                n <= i < d.next.messages.len() ==> {
                    let m = #[trigger] d.next.messages[i];
                    let call = flush.calls[flush.position + i - n];
                    &&& m.role == Role::Tool
                    &&& m.tool_call_id == Some(call.id)
                    &&& m.name == Some(call.name)
                    &&& m.content == refusal(call.name)
                }
        }),
    decreases flush.calls.len() - flush.position,
{
    let n = flush.messages.len() as int;
    let d = flush.advance();
    if flush.position < flush.calls.len() && !memory_tool(flush.call().name) {
        let a = flush.answered(refusal(flush.call().name));
        advance_grows_the_context(a);
        assert(d.next.messages.take(n) =~= flush.messages) by {
            assert(d.next.messages.take(n + 1) == a.messages);
            assert forall|i: int| 0 <= i < n implies d.next.messages[i] == flush.messages[i] by {
                assert(d.next.messages.take(n + 1)[i] == a.messages[i]);
            }
        }
        assert forall|i: int| n <= i < d.next.messages.len() implies {
            let m = #[trigger] d.next.messages[i];
            let call = flush.calls[flush.position + i - n];
            &&& m.role == Role::Tool
            &&& m.tool_call_id == Some(call.id)
            &&& m.name == Some(call.name)
            &&& m.content == refusal(call.name)
        } by {
            if i == n {
                assert(d.next.messages.take(n + 1)[n] == a.messages[n]);
            }
        }
    } else {
        assert(d.next.messages.take(n) =~= flush.messages);
    }
}

/// Calls are dealt with in order, none is passed over: each memory tool runs, any other call
/// is refused by name, and once none is left the model is asked again, three times in all.
pub proof fn calls_are_dealt_with_in_order(flush: FlushView, event: FlushEvent)
    requires
        flush.wf(),
        flush.phase == FlushPhase::Running,
    ensures
        event matches FlushEvent::Ran(outcome) ==> {
            let d = flush.decide(event);
            let n = flush.messages.len() as int;
            let answer = d.next.messages[n];
            &&& d.next.messages.take(n) == flush.messages
            &&& d.next.messages.len() > n
            &&& answer.role == Role::Tool
            &&& answer.tool_call_id == Some(flush.call().id)
            &&& answer.name == Some(flush.call().name)
            &&& outcome matches Ok(output) ==> answer.content == output@
            &&& outcome matches Err(e) ==> {
                &&& answer.content.len() > e@.len()
                &&& answer.content.skip(answer.content.len() - e@.len()) == e@
            }
            &&& d.action is RunTool <==> exists|i: int|
                flush.position < i < flush.calls.len() && memory_tool(
                    (#[trigger] flush.calls[i]).name,
                )
            &&& d.action is RunTool ==> {
                &&& flush.position < d.next.position < flush.calls.len()
                &&& memory_tool(d.next.call().name)
                &&& forall|i: int|
                    flush.position < i < d.next.position ==> !memory_tool(
                        (#[trigger] flush.calls[i]).name,
                    )
            }
            &&& !(d.action is RunTool) ==> (d.action is AskModel <==> flush.iteration < 3)
            &&& !(d.action is RunTool) ==> (d.action is Finish <==> flush.iteration >= 3)
        },
{
    if let FlushEvent::Ran(outcome) = event {
        let a = flush.answered(result_text(outcome));
        steps_go_on(flush, event);
        advance_grows_the_context(a);
        let d = flush.decide(event);
        let n = flush.messages.len() as int;
        reveal_strlit("Error: ");
        assert(d.next.messages.take(n + 1) == a.messages);
        assert(d.next.messages.take(n) =~= flush.messages) by {
            assert forall|i: int| 0 <= i < n implies d.next.messages[i] == flush.messages[i] by {
                assert(d.next.messages.take(n + 1)[i] == a.messages[i]);
            }
        }
        assert(d.next.messages[n] == a.messages[n]) by {
            assert(d.next.messages.take(n + 1)[n] == a.messages[n]);
        }
        if let Err(e) = outcome {
            assert(("Error: "@ + e@).skip("Error: "@.len() as int) =~= e@);
        }
        if d.action is RunTool {
            assert(memory_tool(flush.calls[d.next.position].name));
        }
    }
}

/// The model's calls enter the context with its words, before anything is done about them.
pub proof fn calls_enter_the_context(
    flush: FlushView,
    tool_calls: Vec<ToolCall>,
    content: Option<String>,
)
    requires
        flush.wf(),
        flush.phase == FlushPhase::Asking,
    ensures
        ({
            let d = flush.decide(
                FlushEvent::Reply(Ok(ModelReply::ToolCalls { tool_calls, content })),
            );
            let n = flush.messages.len() as int;
            let m = d.next.messages[n];
            &&& d.next.messages.len() > n
            &&& d.next.messages.take(n) == flush.messages
            &&& m.role == Role::Assistant
            &&& m.tool_calls == chat::call_views(tool_calls@)
            &&& content matches Some(c) ==> m.content == c@
            &&& content is None ==> m.content.len() == 0
            &&& d.next.calls == chat::call_views(tool_calls@)
        }),
{
    let event = FlushEvent::Reply(Ok(ModelReply::ToolCalls { tool_calls, content }));
    let a = flush.asked(
        chat::call_views(tool_calls@),
        match content {
            Some(c) => c@,
            None => seq![],
        },
    );
    steps_go_on(flush, event);
    advance_grows_the_context(a);
    let d = flush.decide(event);
    let n = flush.messages.len() as int;
    assert(d.next.messages.take(n + 1) == a.messages);
    assert(d.next.messages.take(n) =~= flush.messages) by {
        assert forall|i: int| 0 <= i < n implies d.next.messages[i] == flush.messages[i] by {
            assert(d.next.messages.take(n + 1)[i] == a.messages[i]);
        }
    }
    assert(d.next.messages[n] == a.messages[n]) by {
        assert(d.next.messages.take(n + 1)[n] == a.messages[n]);
    }
}

/// A refusal names the tool that cannot run, and says so as an error.
pub proof fn refusals_name_the_tool(name: Seq<char>)
    ensures
        submission::names(refusal(name), name),
        text::begins_with(refusal(name), "Error: "@),
        memory_tool("memory_write"@),
        memory_tool("memory_read"@),
        memory_tool("memory_search"@),
        memory_tool("memory_append"@),
{
    let end = " is not available in a memory flush."@;
    reveal_strlit("Error: Tool ");
    reveal_strlit("Error: ");
    submission::parts_are_held("Error: Tool "@, name, end);
    assert(refusal(name).take("Error: "@.len() as int) =~= "Error: "@);
}

} // verus!
