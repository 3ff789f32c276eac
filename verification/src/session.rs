//! Sessions, threads and turns.

use serde_json::Value;
use std::collections::HashMap;
use vstd::prelude::*;

use crate::chat;
use crate::chat::{ChatMessage, Role};
use crate::json;
use crate::text;

verus! {

broadcast use vstd::std_specs::hash::group_hash_axioms;

/// What a thread is doing.
#[derive(Clone, Copy, Debug, PartialEq, Eq, Structural)]
pub enum ThreadState {
    Idle,
    Processing,
    AwaitingApproval,
    Completed,
    Interrupted,
}

/// A tool call as a turn records it.
pub struct RecordedCall {
    pub name: String,
    pub parameters: Value,
    pub result: Option<Value>,
    pub error: Option<String>,
}

/// A recorded call by its texts and trees.
#[verifier::ext_equal]
pub struct RecordView {
    pub name: Seq<char>,
    pub parameters: json::JsonContent,
    pub result: Option<json::JsonContent>,
    pub error: Option<Seq<char>>,
}

impl View for RecordedCall {
    type V = RecordView;

    open spec fn view(&self) -> RecordView {
        RecordView {
            name: self.name@,
            parameters: json::json_content(self.parameters),
            result: match self.result {
                Some(v) => Some(json::json_content(v)),
                None => None,
            },
            error: json::string_of(self.error),
        }
    }
}

impl RecordView {
    /// Neither a result nor an error has come back yet.
    pub open spec fn open(self) -> bool {
        self.result is None && self.error is None
    }

    /// A call that has only been asked for.
    pub open spec fn asked(call: chat::ToolCallView) -> RecordView {
        RecordView { name: call.name, parameters: call.arguments, result: None, error: None }
    }
}

/// The views of a list of recorded calls.
pub open spec fn record_views(calls: Seq<RecordedCall>) -> Seq<RecordView> {
    calls.map_values(|c: RecordedCall| c@)
}

/// One exchange: what the user said, what the agent did and answered.
pub struct Turn {
    pub user_input: String,
    pub response: Option<String>,
    pub error: Option<String>,
    pub tool_calls: Vec<RecordedCall>,
}

/// A tool execution that waits for the user's word.
pub struct PendingApproval {
    pub request_id: u128,
    pub tool_name: String,
    pub parameters: Value,
    pub description: String,
    pub tool_call_id: String,
    pub context_messages: Vec<ChatMessage>,
}

/// An extension that waits for a token.
pub struct PendingAuth {
    pub extension_name: String,
}

/// A conversation.
pub struct Thread {
    pub state: ThreadState,
    pub turns: Vec<Turn>,
    pub metadata: Value,
    pub pending_approval: Option<PendingApproval>,
    pub pending_auth: Option<PendingAuth>,
    /// The channel that the thread was opened from.
    pub source_channel: Option<String>,
    pub last_response_id: Option<String>,
    /// Messages that arrived while a turn was running, oldest first.
    pub pending_messages: Vec<String>,
}

/// All threads of a user.
pub struct Session {
    pub threads: HashMap<u128, Thread>,
    pub active_thread: Option<u128>,
    pub auto_approved_tools: Vec<String>,
    /// Seconds since the Unix epoch.
    pub last_active_at: i64,
}

/// The texts of a turn: the user's, and the answer where there is one.
pub struct Exchange {
    pub user_input: Seq<char>,
    pub response: Option<Seq<char>>,
}

/// The texts of a list of turns.
pub open spec fn exchanges(turns: Seq<Turn>) -> Seq<Exchange> {
    turns.map_values(
        |t: Turn|
            Exchange { user_input: t.user_input@, response: json::string_of(t.response) },
    )
}

/// The messages of one exchange.
pub open spec fn exchange_messages(e: Exchange) -> Seq<chat::MessageView> {
    match e.response {
        Some(answer) => seq![
            chat::MessageView::plain(Role::User, e.user_input),
            chat::MessageView::plain(Role::Assistant, answer),
        ],
        None => seq![chat::MessageView::plain(Role::User, e.user_input)],
    }
}

/// The conversation that exchanges amount to.
pub open spec fn conversation(es: Seq<Exchange>) -> Seq<chat::MessageView>
    decreases es.len(),
{
    if es.len() == 0 {
        seq![]
    } else {
        exchange_messages(es[0]) + conversation(es.skip(1))
    }
}

/// One more exchange appends its messages.
pub proof fn conversation_push(es: Seq<Exchange>, e: Exchange)
    ensures
        conversation(es.push(e)) == conversation(es) + exchange_messages(e),
    decreases es.len(),
{
    let all = es.push(e);
    if es.len() == 0 {
        assert(all.skip(1) =~= es);
        assert(conversation(es) =~= Seq::empty());
        assert(conversation(all) =~= conversation(es) + exchange_messages(e));
    } else {
        assert(all.skip(1) =~= es.skip(1).push(e));
        conversation_push(es.skip(1), e);
        assert(conversation(all) =~= conversation(es) + exchange_messages(e));
    }
}

/// The exchanges of a conversation: each user message opens one, an assistant message
/// right after it answers it, and all other messages are left out.
pub open spec fn exchanges_of(messages: Seq<chat::MessageView>) -> Seq<Exchange>
    decreases messages.len(),
{
    if messages.len() == 0 {
        seq![]
    } else if messages[0].role != Role::User {
        exchanges_of(messages.skip(1))
    } else if messages.len() > 1 && messages[1].role == Role::Assistant {
        seq![
            Exchange { user_input: messages[0].content, response: Some(messages[1].content) },
        ] + exchanges_of(messages.skip(2))
    } else {
        seq![Exchange { user_input: messages[0].content, response: None }] + exchanges_of(
            messages.skip(1),
        )
    }
}

/// Reading a conversation back gives the exchanges that it was written from.
pub proof fn conversation_reads_back(es: Seq<Exchange>)
    ensures
        exchanges_of(conversation(es)) == es,
        es.len() > 0 ==> conversation(es).len() > 0 && conversation(es)[0].role == Role::User,
    decreases es.len(),
{
    if es.len() > 0 {
        let rest = es.skip(1);
        conversation_reads_back(rest);
        let all = conversation(es);
        assert(all[0].role == Role::User);
        if es[0].response is Some {
            assert(all.skip(2) =~= conversation(rest));
        } else {
            assert(all.skip(1) =~= conversation(rest));
            if rest.len() > 0 {
                assert(all[1] == conversation(rest)[0]);
            }
        }
        assert(exchanges_of(all) =~= es);
    }
}

impl Turn {
    /// A turn that has only begun.
    pub fn new(user_input: String) -> (r: Turn)
        ensures
            r.user_input == user_input,
            r.response is None,
            r.error is None,
            r.tool_calls@ == Seq::<RecordedCall>::empty(),
    {
        Turn { user_input, response: None, error: None, tool_calls: Vec::new() }
    }

    /// Records that a tool was called.
    pub fn record_tool_call(&mut self, name: &str, parameters: Value)
        ensures
            *final(self) == (Turn { tool_calls: final(self).tool_calls, ..*old(self) }),
            record_views(final(self).tool_calls@) == record_views(old(self).tool_calls@).push(
                RecordView {
                    name: name@,
                    parameters: json::json_content(parameters),
                    result: None,
                    error: None,
                },
            ),
    {
        let ghost before = record_views(self.tool_calls@);
        let call = RecordedCall { name: name.to_owned(), parameters, result: None, error: None };
        self.tool_calls.push(call);
        assert(record_views(self.tool_calls@) =~= before.push(call@));
    }

    fn find_open(&self) -> (r: Option<usize>)
        ensures
            match oldest_open(record_views(self.tool_calls@)) {
                Some(i) => r is Some && r->0 == i && i < self.tool_calls@.len(),
                None => r is None,
            },
    {
        let ghost records = record_views(self.tool_calls@);
        let mut i: usize = 0;
        while i < self.tool_calls.len()
            invariant
                records == record_views(self.tool_calls@),
                i <= self.tool_calls@.len(),
                oldest_open(records.take(i as int)) is None,
            decreases self.tool_calls@.len() - i,
        {
            assert(records[i as int] == self.tool_calls@[i as int]@);
            assert(records.take(i as int + 1).drop_last() =~= records.take(i as int));
            if self.tool_calls[i].result.is_none() && self.tool_calls[i].error.is_none() {
                proof {
                    oldest_open_stays(records, i as int + 1);
                }
                return Some(i);
            }
            i = i + 1;
        }
        assert(records.take(records.len() as int) =~= records);
        None
    }

    /// Records a result for the oldest call that is still open; without an open call the
    /// turn stays as it is.
    pub fn record_tool_result(&mut self, result: Value)
        ensures
            *final(self) == (Turn { tool_calls: final(self).tool_calls, ..*old(self) }),
            record_views(final(self).tool_calls@) == with_result(
                record_views(old(self).tool_calls@),
                json::json_content(result),
            ),
    {
        if let Some(i) = self.find_open() {
            let ghost before = record_views(self.tool_calls@);
            let ghost after = with_result(before, json::json_content(result));
            assert(before[i as int] == self.tool_calls@[i as int]@);
            self.tool_calls[i].result = Some(result);
            assert(record_views(self.tool_calls@)[i as int] =~= after[i as int]);
            assert(record_views(self.tool_calls@) =~= after);
        }
    }

    /// Records an error for the oldest call that is still open; without an open call the
    /// turn stays as it is.
    pub fn record_tool_error(&mut self, error: String)
        ensures
            *final(self) == (Turn { tool_calls: final(self).tool_calls, ..*old(self) }),
            record_views(final(self).tool_calls@) == with_error(
                record_views(old(self).tool_calls@),
                error@,
            ),
    {
        if let Some(i) = self.find_open() {
            let ghost before = record_views(self.tool_calls@);
            let ghost after = with_error(before, error@);
            assert(before[i as int] == self.tool_calls@[i as int]@);
            self.tool_calls[i].error = Some(error);
            assert(record_views(self.tool_calls@)[i as int] =~= after[i as int]);
            assert(record_views(self.tool_calls@) =~= after);
        }
    }
}

/// The oldest call that nothing has come back for.
pub open spec fn oldest_open(calls: Seq<RecordView>) -> Option<int>
    decreases calls.len(),
{
    if calls.len() == 0 {
        None
    } else {
        match oldest_open(calls.drop_last()) {
            Some(i) => Some(i),
            None => if calls.last().open() {
                Some(calls.len() - 1)
            } else {
                None
            },
        }
    }
}

proof fn oldest_open_stays(calls: Seq<RecordView>, n: int)
    requires
        0 <= n <= calls.len(),
        oldest_open(calls.take(n)) is Some,
    ensures
        oldest_open(calls) == oldest_open(calls.take(n)),
    decreases calls.len() - n,
{
    if n == calls.len() {
        assert(calls.take(n) =~= calls);
    } else {
        assert(calls.take(n + 1).drop_last() =~= calls.take(n));
        oldest_open_stays(calls, n + 1);
    }
}

/// The oldest open call is open, and every call before it is not.
pub proof fn oldest_open_is_first(calls: Seq<RecordView>)
    ensures
        match oldest_open(calls) {
            Some(i) => 0 <= i < calls.len() && calls[i].open() && forall|j: int|
                0 <= j < i ==> !(#[trigger] calls[j]).open(),
            None => forall|j: int| 0 <= j < calls.len() ==> !(#[trigger] calls[j]).open(),
        },
    decreases calls.len(),
{
    if calls.len() > 0 {
        let front = calls.drop_last();
        oldest_open_is_first(front);
        assert forall|j: int| 0 <= j < front.len() implies calls[j] == front[j] by {}
        match oldest_open(front) {
            Some(i) => {
                assert(calls[i] == front[i]);
                assert forall|j: int| 0 <= j < i implies !(#[trigger] calls[j]).open() by {
                    assert(calls[j] == front[j]);
                }
            },
            None => {
                assert forall|j: int| 0 <= j < front.len() implies !(
                #[trigger] calls[j]).open() by {
                    assert(calls[j] == front[j]);
                }
            },
        }
    }
}

/// The calls once a result has been recorded for the oldest open one.
pub open spec fn with_result(calls: Seq<RecordView>, result: json::JsonContent) -> Seq<RecordView> {
    match oldest_open(calls) {
        Some(i) => calls.update(i, (RecordView { result: Some(result), ..calls[i] })),
        None => calls,
    }
}

/// The calls once an error has been recorded for the oldest open one.
pub open spec fn with_error(calls: Seq<RecordView>, error: Seq<char>) -> Seq<RecordView> {
    match oldest_open(calls) {
        Some(i) => calls.update(i, (RecordView { error: Some(error), ..calls[i] })),
        None => calls,
    }
}

/// The calls once a tool's outcome has been recorded: an output as a JSON string, a failure
/// as its text.
pub open spec fn recorded(calls: Seq<RecordView>, outcome: Result<String, String>) -> Seq<
    RecordView,
> {
    match outcome {
        Ok(output) => with_result(calls, json::JsonContent::Text(output@)),
        Err(e) => with_error(calls, e@),
    }
}

/// The turns once the last one has been answered.
pub open spec fn answered(turns: Seq<Turn>, response: String) -> Seq<Turn> {
    if turns.len() == 0 {
        turns
    } else {
        turns.update(turns.len() - 1, (Turn { response: Some(response), ..turns.last() }))
    }
}

/// The turns once the last one has failed.
pub open spec fn failed(turns: Seq<Turn>, error: String) -> Seq<Turn> {
    if turns.len() == 0 {
        turns
    } else {
        turns.update(turns.len() - 1, (Turn { error: Some(error), ..turns.last() }))
    }
}

/// The calls that the last of some turns records.
pub open spec fn last_records(turns: Seq<Turn>) -> Seq<RecordView> {
    if turns.len() == 0 {
        seq![]
    } else {
        record_views(turns.last().tool_calls@)
    }
}

/// `new` is `old` but that the last turn, where there is one, records other calls.
pub open spec fn rerecorded(old: Seq<Turn>, new: Seq<Turn>, records: Seq<RecordView>) -> bool {
    if old.len() == 0 {
        new == old
    } else {
        &&& new.len() == old.len()
        &&& new.drop_last() == old.drop_last()
        &&& new.last() == (Turn { tool_calls: new.last().tool_calls, ..old.last() })
        &&& record_views(new.last().tool_calls@) == records
    }
}

/// No turn of the list records a tool call.
pub open spec fn without_calls(turns: Seq<Turn>) -> bool {
    forall|i: int| 0 <= i < turns.len() ==> (#[trigger] turns[i]).tool_calls@.len() == 0
}

/// No turn of the list failed.
pub open spec fn without_errors(turns: Seq<Turn>) -> bool {
    forall|i: int| 0 <= i < turns.len() ==> (#[trigger] turns[i]).error is None
}

/// `new` is `old` with a text at the end of its queue.
pub open spec fn queued(old: Thread, new: Thread, content: Seq<char>) -> bool {
    &&& new == (Thread { pending_messages: new.pending_messages, ..old })
    &&& new.pending_messages@.len() == old.pending_messages@.len() + 1
    &&& new.pending_messages@.drop_last() == old.pending_messages@
    &&& new.pending_messages@.last()@ == content
}

/// The messages waiting in a queue, merged into one text.
pub open spec fn merged(queue: Seq<String>) -> Option<Seq<char>> {
    if queue.len() == 0 {
        None
    } else {
        Some(text::joined(text::texts(queue), "\n"@))
    }
}

impl Thread {
    /// The thread is one on which nothing has happened yet, opened from this channel.
    pub open spec fn fresh(self, source_channel: Option<String>) -> bool {
        &&& self.state == ThreadState::Idle
        &&& self.turns@ == Seq::<Turn>::empty()
        &&& json::json_content(self.metadata) == json::JsonContent::Null
        &&& self.pending_approval is None
        &&& self.pending_auth is None
        &&& self.source_channel == source_channel
        &&& self.last_response_id is None
        &&& self.pending_messages@ == Seq::<String>::empty()
    }

    /// A new conversation.
    pub fn new(source_channel: Option<String>) -> (r: Thread)
        ensures
            r.fresh(source_channel),
    {
        Thread {
            state: ThreadState::Idle,
            turns: Vec::new(),
            metadata: json::null(),
            pending_approval: None,
            pending_auth: None,
            source_channel,
            last_response_id: None,
            pending_messages: Vec::new(),
        }
    }

    /// The conversation so far.
    pub open spec fn history(self) -> Seq<chat::MessageView> {
        conversation(exchanges(self.turns@))
    }

    /// The number of the turn that comes next, from one.
    pub fn turn_number(&self) -> (r: u128)
        ensures
            r == self.turns@.len() + 1,
    {
        self.turns.len() as u128 + 1
    }

    /// The conversation so far.
    pub fn messages(&self) -> (r: Vec<ChatMessage>)
        ensures
            chat::views(r@) == self.history(),
    {
        let ghost es = exchanges(self.turns@);
        let mut out: Vec<ChatMessage> = Vec::new();
        let mut i: usize = 0;
        assert(es.skip(0) =~= es);
        assert(chat::views(out@) + conversation(es) =~= conversation(es));
        while i < self.turns.len()
            invariant
                es == exchanges(self.turns@),
                i <= self.turns@.len(),
                chat::views(out@) + conversation(es.skip(i as int)) == conversation(es),
            decreases self.turns@.len() - i,
        {
            let ghost done = chat::views(out@);
            let ghost rest = es.skip(i as int);
            assert(rest.skip(1) =~= es.skip(i as int + 1));
            assert(rest[0] == es[i as int]);
            let message = ChatMessage::user(self.turns[i].user_input.as_str());
            let ghost first = message@;
            out.push(message);
            assert(chat::views(out@) =~= done.push(first));
            if let Some(answer) = &self.turns[i].response {
                let message = ChatMessage::assistant(answer.as_str());
                let ghost second = message@;
                out.push(message);
                assert(chat::views(out@) =~= done.push(first).push(second));
            }
            assert(chat::views(out@) =~= done + exchange_messages(rest[0]));
            assert(chat::views(out@) + conversation(rest.skip(1)) =~= done + conversation(rest));
            i = i + 1;
        }
        assert(es.skip(es.len() as int) =~= Seq::<Exchange>::empty());
        assert(chat::views(out@) =~= conversation(es));
        out
    }

    /// Begins a turn with the user's text.
    pub fn start_turn(&mut self, user_input: String)
        ensures
            *final(self) == (Thread {
                state: ThreadState::Processing,
                turns: final(self).turns,
                ..*old(self)
            }),
            final(self).turns@.len() == old(self).turns@.len() + 1,
            final(self).turns@.drop_last() == old(self).turns@,
            final(self).turns@.last().user_input == user_input,
            final(self).turns@.last().response is None,
            final(self).turns@.last().error is None,
            final(self).turns@.last().tool_calls@.len() == 0,
    {
        let ghost before = self.turns@;
        self.turns.push(Turn::new(user_input));
        self.state = ThreadState::Processing;
        assert(self.turns@.drop_last() =~= before);
    }

    /// Records calls that the model asked for in the last turn.
    pub fn record_calls(&mut self, calls: &Vec<chat::ToolCall>)
        ensures
            *final(self) == (Thread { turns: final(self).turns, ..*old(self) }),
            rerecorded(
                old(self).turns@,
                final(self).turns@,
                last_records(old(self).turns@) + chat::call_views(calls@).map_values(
                    |c: chat::ToolCallView| RecordView::asked(c),
                ),
            ),
    {
        let ghost asked = chat::call_views(calls@).map_values(
            |c: chat::ToolCallView| RecordView::asked(c),
        );
        let ghost before = self.turns@;
        let ghost records = last_records(before);
        let n: usize = self.turns.len();
        if n > 0 {
            let mut i: usize = 0;
            assert(records + asked.take(0) =~= records);
            while i < calls.len()
                invariant
                    asked == chat::call_views(calls@).map_values(
                        |c: chat::ToolCallView| RecordView::asked(c),
                    ),
                    n == before.len() == self.turns@.len(),
                    n > 0,
                    i <= calls@.len(),
                    *self == (Thread { turns: self.turns, ..*old(self) }),
                    rerecorded(before, self.turns@, records + asked.take(i as int)),
                decreases calls@.len() - i,
            {
                let ghost mid = self.turns@;
                let parameters = json::copy_json(&calls[i].arguments);
                self.turns[n - 1].record_tool_call(calls[i].name.as_str(), parameters);
                assert(asked[i as int] == RecordView::asked(calls@[i as int]@));
                assert(self.turns@.drop_last() =~= mid.drop_last());
                assert(records + asked.take(i as int + 1) =~= (records + asked.take(
                    i as int,
                )).push(asked[i as int]));
                i = i + 1;
            }
            assert(asked.take(asked.len() as int) =~= asked);
        }
    }

    /// Records what came back for the oldest open call of the last turn.
    pub fn record_outcome(&mut self, outcome: &Result<String, String>)
        ensures
            *final(self) == (Thread { turns: final(self).turns, ..*old(self) }),
            rerecorded(
                old(self).turns@,
                final(self).turns@,
                recorded(last_records(old(self).turns@), *outcome),
            ),
    {
        let ghost before = self.turns@;
        let n: usize = self.turns.len();
        if n > 0 {
            match outcome {
                Ok(output) => {
                    self.turns[n - 1].record_tool_result(json::from_text(output.clone()));
                },
                Err(e) => {
                    self.turns[n - 1].record_tool_error(e.clone());
                },
            }
            assert(self.turns@.drop_last() =~= before.drop_last());
        }
    }

    /// Ends the turn with an answer.
    pub fn complete_turn(&mut self, response: String)
        ensures
            *final(self) == (Thread {
                state: ThreadState::Idle,
                turns: final(self).turns,
                ..*old(self)
            }),
            final(self).turns@ == answered(old(self).turns@, response),
    {
        let n: usize = self.turns.len();
        if n > 0 {
            self.turns[n - 1].response = Some(response);
        }
        self.state = ThreadState::Idle;
    }

    /// Ends the turn with an error.
    pub fn fail_turn(&mut self, error: String)
        ensures
            *final(self) == (Thread {
                state: ThreadState::Idle,
                turns: final(self).turns,
                ..*old(self)
            }),
            final(self).turns@ == failed(old(self).turns@, error),
    {
        let n: usize = self.turns.len();
        if n > 0 {
            self.turns[n - 1].error = Some(error);
        }
        self.state = ThreadState::Idle;
    }

    /// Makes the thread wait for an approval.
    pub fn await_approval(&mut self, pending: PendingApproval)
        ensures
            *final(self) == (Thread {
                state: ThreadState::AwaitingApproval,
                pending_approval: Some(pending),
                ..*old(self)
            }),
    {
        self.state = ThreadState::AwaitingApproval;
        self.pending_approval = Some(pending);
    }

    /// Takes the approval that the thread waits for out of it.
    pub fn take_pending_approval(&mut self) -> (r: Option<PendingApproval>)
        ensures
            r == old(self).pending_approval,
            *final(self) == (Thread { pending_approval: None, ..*old(self) }),
    {
        self.pending_approval.take()
    }

    /// Drops the approval that the thread waits for and returns to idle.
    pub fn clear_pending_approval(&mut self)
        ensures
            *final(self) == (Thread {
                state: ThreadState::Idle,
                pending_approval: None,
                ..*old(self)
            }),
    {
        self.pending_approval = None;
        self.state = ThreadState::Idle;
    }

    /// Stops what the thread is doing.
    pub fn interrupt(&mut self)
        ensures
            *final(self) == (Thread { state: ThreadState::Interrupted, ..*old(self) }),
    {
        self.state = ThreadState::Interrupted;
    }

    /// Makes the thread take the next user text as a token for an extension.
    pub fn enter_auth_mode(&mut self, extension_name: String)
        ensures
            *final(self) == (Thread {
                pending_auth: Some(PendingAuth { extension_name }),
                ..*old(self)
            }),
    {
        self.pending_auth = Some(PendingAuth { extension_name });
    }

    /// Replaces the turns by the exchanges of a conversation; the thread is idle after it.
    pub fn restore_from_messages(&mut self, messages: &Vec<ChatMessage>)
        ensures
            *final(self) == (Thread {
                state: ThreadState::Idle,
                turns: final(self).turns,
                ..*old(self)
            }),
            exchanges(final(self).turns@) == exchanges_of(chat::views(messages@)),
            without_calls(final(self).turns@),
            without_errors(final(self).turns@),
    {
        let ghost all = chat::views(messages@);
        let mut turns: Vec<Turn> = Vec::new();
        let mut i: usize = 0;
        assert(all.skip(0) =~= all);
        assert(exchanges(turns@) + exchanges_of(all) =~= exchanges_of(all));
        while i < messages.len()
            invariant
                all == chat::views(messages@),
                i <= messages@.len(),
                exchanges(turns@) + exchanges_of(all.skip(i as int)) == exchanges_of(all),
                without_calls(turns@),
                without_errors(turns@),
            decreases messages@.len() - i,
        {
            let ghost rest = all.skip(i as int);
            let ghost done = exchanges(turns@);
            assert(rest.skip(1) =~= all.skip(i as int + 1));
            assert(rest[0] == all[i as int]);
            if messages[i].role == Role::User {
                let mut turn = Turn::new(messages[i].content.clone());
                let mut used: usize = 1;
                if i + 1 < messages.len() {
                    assert(rest[1] == all[i as int + 1]);
                    if messages[i + 1].role == Role::Assistant {
                        turn.response = Some(messages[i + 1].content.clone());
                        used = 2;
                        assert(rest.skip(2) =~= all.skip(i as int + 2));
                    }
                }
                let ghost e = Exchange {
                    user_input: turn.user_input@,
                    response: json::string_of(turn.response),
                };
                turns.push(turn);
                assert(exchanges(turns@) =~= done.push(e));
                assert(exchanges_of(rest) == seq![e] + exchanges_of(rest.skip(used as int)));
                assert(exchanges(turns@) + exchanges_of(rest.skip(used as int)) =~= done
                    + exchanges_of(rest));
                i = i + used;
            } else {
                i = i + 1;
            }
        }
        assert(exchanges_of(all.skip(all.len() as int)) =~= Seq::<Exchange>::empty());
        assert(exchanges(turns@) =~= exchanges_of(all));
        self.turns = turns;
        self.state = ThreadState::Idle;
    }

    /// Puts a text at the end of the queue of waiting messages.
    pub fn queue_message(&mut self, content: String)
        ensures
            queued(*old(self), *final(self), content@),
    {
        let ghost before = self.pending_messages@;
        self.pending_messages.push(content);
        assert(self.pending_messages@.drop_last() =~= before);
    }

    /// Empties the queue of waiting messages and hands them out merged, one per line.
    pub fn drain_pending_messages(&mut self) -> (r: Option<String>)
        ensures
            json::string_of(r) == merged(old(self).pending_messages@),
            *final(self) == (Thread {
                pending_messages: final(self).pending_messages,
                ..*old(self)
            }),
            final(self).pending_messages@.len() == 0,
    {
        if self.pending_messages.len() == 0 {
            None
        } else {
            let all = text::join(&self.pending_messages, "\n");
            self.pending_messages = Vec::new();
            Some(all)
        }
    }

    /// Puts drained text back at the front of the queue.
    pub fn requeue_drained(&mut self, content: String)
        ensures
            *final(self) == (Thread {
                pending_messages: final(self).pending_messages,
                ..*old(self)
            }),
            final(self).pending_messages@ == seq![content] + old(self).pending_messages@,
    {
        let ghost before = self.pending_messages@;
        self.pending_messages.insert(0, content);
        assert(self.pending_messages@ =~= seq![content] + before);
    }
}

/// Restoring a thread from its own messages keeps the conversation.
pub proof fn restore_keeps_history(before: Thread, after: Thread)
    requires
        exchanges(after.turns@) == exchanges_of(before.history()),
    ensures
        after.history() == before.history(),
        exchanges(after.turns@) == exchanges(before.turns@),
{
    conversation_reads_back(exchanges(before.turns@));
}

/// `new` is `old` but that it files `thread` under `id`.
pub open spec fn refiled(old: Session, new: Session, id: u128, thread: Thread) -> bool {
    &&& new.threads@ == old.threads@.insert(id, thread)
    &&& new.active_thread == old.active_thread
    &&& new.auto_approved_tools == old.auto_approved_tools
    &&& new.last_active_at == old.last_active_at
}

/// `new` holds what `old` holds.
pub open spec fn untouched(old: Session, new: Session) -> bool {
    &&& new.threads@ == old.threads@
    &&& new.active_thread == old.active_thread
    &&& new.auto_approved_tools == old.auto_approved_tools
    &&& new.last_active_at == old.last_active_at
}

/// `new` is `old` but that the thread under `id`, where there is one, has become `next`.
pub open spec fn updated(old: Session, new: Session, id: u128, next: Option<Thread>) -> bool {
    match next {
        Some(t) => refiled(old, new, id, t),
        None => untouched(old, new),
    }
}

/// The active thread of a session stays one of its threads when a thread is changed.
pub proof fn updates_keep_the_active_thread(
    old: Session,
    new: Session,
    id: u128,
    next: Option<Thread>,
)
    requires
        old.wf(),
        updated(old, new, id, next),
    ensures
        new.wf(),
{
}

impl Session {
    /// The thread under an id.
    pub open spec fn thread(self, id: u128) -> Option<Thread> {
        if self.threads@.contains_key(id) {
            Some(self.threads@[id])
        } else {
            None
        }
    }

    /// The active thread is one of the session's threads.
    pub open spec fn wf(self) -> bool {
        self.active_thread is Some ==> self.threads@.contains_key(self.active_thread->0)
    }

    /// Whether a tool runs without asking.
    pub open spec fn auto_approves(self, tool: Seq<char>) -> bool {
        text::holds_text(self.auto_approved_tools@, tool)
    }

    /// A session without threads.
    pub fn new(now: i64) -> (r: Session)
        ensures
            r.wf(),
            r.threads@ == Map::<u128, Thread>::empty(),
            r.active_thread is None,
            r.auto_approved_tools@.len() == 0,
            r.last_active_at == now,
    {
        Session {
            threads: HashMap::new(),
            active_thread: None,
            auto_approved_tools: Vec::new(),
            last_active_at: now,
        }
    }

    /// Files a new thread under an id and makes it the active one.
    pub fn create_thread_with_id(&mut self, id: u128, source_channel: Option<String>)
        ensures
            final(self).wf(),
            final(self).active_thread == Some(id),
            final(self).auto_approved_tools == old(self).auto_approved_tools,
            final(self).last_active_at == old(self).last_active_at,
            final(self).threads@.remove(id) == old(self).threads@.remove(id),
            final(self).thread(id) matches Some(t) && t.fresh(source_channel),
    {
        let ghost before = self.threads@;
        self.threads.insert(id, Thread::new(source_channel));
        self.active_thread = Some(id);
        assert(self.threads@.remove(id) =~= before.remove(id));
    }

    /// Makes a thread the active one; `false`, and no change, where there is no such thread.
    pub fn switch_thread(&mut self, id: u128) -> (r: bool)
        ensures
            r == old(self).threads@.contains_key(id),
            *final(self) == if r {
                Session { active_thread: Some(id), ..*old(self) }
            } else {
                *old(self)
            },
    {
        if self.threads.contains_key(&id) {
            self.active_thread = Some(id);
            true
        } else {
            false
        }
    }

    /// Lets a tool run without asking from now on.
    pub fn auto_approve_tool(&mut self, tool: &str)
        ensures
            *final(self) == (Session {
                auto_approved_tools: final(self).auto_approved_tools,
                ..*old(self)
            }),
            forall|t: Seq<char>| #[trigger]
                final(self).auto_approves(t) <==> t == tool@ || old(self).auto_approves(t),
    {
        let ghost before = self.auto_approved_tools@;
        if !text::contains_text(&self.auto_approved_tools, tool) {
            let name = tool.to_owned();
            proof {
                text::holds_text_push(before, name);
            }
            self.auto_approved_tools.push(name);
        }
    }

    /// Whether a tool runs without asking.
    pub fn is_tool_auto_approved(&self, tool: &str) -> (r: bool)
        ensures
            r == self.auto_approves(tool@),
    {
        text::contains_text(&self.auto_approved_tools, tool)
    }

    /// Takes a thread out of the session.
    pub(crate) fn take(&mut self, id: u128) -> (r: Option<Thread>)
        ensures
            r == old(self).thread(id),
            final(self).threads@ == old(self).threads@.remove(id),
            final(self).active_thread == old(self).active_thread,
            final(self).auto_approved_tools == old(self).auto_approved_tools,
            final(self).last_active_at == old(self).last_active_at,
    {
        self.threads.remove(&id)
    }

    /// Files a thread under an id.
    pub(crate) fn put(&mut self, id: u128, thread: Thread)
        ensures
            refiled(*old(self), *final(self), id, thread),
    {
        self.threads.insert(id, thread);
    }

    /// The state of a thread.
    pub fn thread_state(&self, id: u128) -> (r: Option<ThreadState>)
        ensures
            r == match self.thread(id) {
                Some(t) => Some(t.state),
                None => None,
            },
    {
        match self.threads.get(&id) {
            Some(t) => Some(t.state),
            None => None,
        }
    }
}

/// An outcome is recorded for the oldest open call, and for no other: an output as its
/// result, a failure as its error. Nothing else of any call changes, and without an open call
/// nothing changes at all.
pub proof fn outcome_goes_to_the_oldest_open_call(
    calls: Seq<RecordView>,
    outcome: Result<String, String>,
    i: int,
)
    requires
        0 <= i < calls.len(),
    ensures
        ({
            let after = recorded(calls, outcome);
            let oldest = calls[i].result is None && calls[i].error is None && forall|j: int|
                0 <= j < i ==> (#[trigger] calls[j]).result is Some || calls[j].error is Some;
            &&& after.len() == calls.len()
            &&& after[i].name == calls[i].name
            &&& after[i].parameters == calls[i].parameters
            &&& if oldest {
                match outcome {
                    Ok(output) => after[i].result == Some(json::JsonContent::Text(output@))
                        && after[i].error is None,
                    Err(e) => after[i].error == Some(e@) && after[i].result is None,
                }
            } else {
                after[i] == calls[i]
            }
        }),
{
    oldest_open_is_first(calls);
    match oldest_open(calls) {
        Some(k) => {
            assert(calls[k].open());
            if k < i {
                assert(!(calls[k].result is Some || calls[k].error is Some));
            }
            if i < k {
                assert(!calls[i].open());
            }
            if i == k {
                assert forall|j: int| 0 <= j < i implies (#[trigger] calls[j]).result is Some
                    || calls[j].error is Some by {
                    assert(!calls[j].open());
                }
            }
        },
        None => {
            assert(!calls[i].open());
        },
    }
}

/// Answering or failing a turn concerns the last turn alone, and of it only the answer or
/// the error.
pub proof fn only_the_last_turn_ends(turns: Seq<Turn>, response: String, i: int)
    requires
        0 <= i < turns.len(),
    ensures
        answered(turns, response).len() == turns.len(),
        failed(turns, response).len() == turns.len(),
        i < turns.len() - 1 ==> answered(turns, response)[i] == turns[i] && failed(
            turns,
            response,
        )[i] == turns[i],
        ({
            let a = answered(turns, response).last();
            let f = failed(turns, response).last();
            &&& a.response == Some(response)
            &&& a.user_input == turns.last().user_input
            &&& a.error == turns.last().error
            &&& a.tool_calls == turns.last().tool_calls
            &&& f.error == Some(response)
            &&& f.user_input == turns.last().user_input
            &&& f.response == turns.last().response
            &&& f.tool_calls == turns.last().tool_calls
        }),
{
}

/// An exchange reads as the user's message and, where there is one, the answer after it.
pub proof fn exchange_reads_in_order(e: Exchange)
    ensures
        exchange_messages(e).len() == if e.response is Some {
            2nat
        } else {
            1nat
        },
        exchange_messages(e)[0].role == Role::User,
        exchange_messages(e)[0].content == e.user_input,
        e.response is Some ==> exchange_messages(e)[1].role == Role::Assistant
            && exchange_messages(e)[1].content == e.response->0,
        forall|i: int|
            0 <= i < exchange_messages(e).len() ==> (#[trigger] exchange_messages(
                e,
            )[i]).tool_calls.len() == 0 && exchange_messages(e)[i].tool_call_id is None,
{
}

/// The history of a thread holds each turn in order: the user's text, and the answer after
/// it where there is one. Calls and errors are no part of it.
pub proof fn history_follows_the_turns(a: Thread, b: Thread, turn: Turn)
    requires
        b.turns@ == a.turns@.push(turn),
    ensures
        b.history().len() == a.history().len() + if turn.response is Some {
            2nat
        } else {
            1nat
        },
        b.history().take(a.history().len() as int) == a.history(),
        b.history()[a.history().len() as int].role == Role::User,
        b.history()[a.history().len() as int].content == turn.user_input@,
        turn.response is Some ==> b.history()[a.history().len() as int + 1].role == Role::Assistant
            && b.history()[a.history().len() as int + 1].content == turn.response->0@,
{
    let e = Exchange { user_input: turn.user_input@, response: json::string_of(turn.response) };
    assert(exchanges(b.turns@) =~= exchanges(a.turns@).push(e));
    conversation_push(exchanges(a.turns@), e);
    exchange_reads_in_order(e);
    assert(b.history().take(a.history().len() as int) =~= a.history());
}

/// A thread without turns has no history.
pub proof fn no_turns_no_history(t: Thread)
    requires
        t.turns@.len() == 0,
    ensures
        t.history().len() == 0,
{
    assert(exchanges(t.turns@).len() == 0);
}

/// The texts of the user's messages, in order.
pub open spec fn user_texts(messages: Seq<chat::MessageView>) -> Seq<Seq<char>>
    decreases messages.len(),
{
    if messages.len() == 0 {
        seq![]
    } else if messages[0].role == Role::User {
        seq![messages[0].content] + user_texts(messages.skip(1))
    } else {
        user_texts(messages.skip(1))
    }
}

/// Reading a conversation back loses no text of the user and makes none up: there is one
/// exchange for each message of the user, in their order.
pub proof fn exchanges_are_the_users_messages(messages: Seq<chat::MessageView>)
    ensures
        exchanges_of(messages).map_values(|e: Exchange| e.user_input) == user_texts(messages),
    decreases messages.len(),
{
    let inputs = exchanges_of(messages).map_values(|e: Exchange| e.user_input);
    if messages.len() == 0 {
        assert(inputs =~= user_texts(messages));
    } else if messages[0].role == Role::User && messages.len() > 1 && messages[1].role
        == Role::Assistant {
        let rest = messages.skip(2);
        assert(messages.skip(1).skip(1) =~= rest);
        assert(messages.skip(1)[0] == messages[1]);
        assert(user_texts(messages.skip(1)) == user_texts(rest));
        exchanges_are_the_users_messages(rest);
        let more = exchanges_of(rest).map_values(|e: Exchange| e.user_input);
        assert(inputs =~= seq![messages[0].content] + more);
    } else {
        let rest = messages.skip(1);
        exchanges_are_the_users_messages(rest);
        let more = exchanges_of(rest).map_values(|e: Exchange| e.user_input);
        if messages[0].role == Role::User {
            assert(inputs =~= seq![messages[0].content] + more);
        }
    }
}

/// What the assistant says right after a message of the user is the answer to it; said
/// anywhere else it answers nothing, and what comes before the first message of the user does
/// not count.
pub proof fn answers_follow_the_users_messages(
    first: chat::MessageView,
    messages: Seq<chat::MessageView>,
)
    ensures
        ({
            let all = exchanges_of(seq![first] + messages);
            let answered = messages.len() > 0 && messages[0].role == Role::Assistant;
            &&& first.role != Role::User ==> all == exchanges_of(messages)
            &&& first.role == Role::User ==> {
                &&& all.len() > 0
                &&& all[0].user_input == first.content
                &&& answered ==> all[0].response == Some(messages[0].content)
                &&& !answered ==> all[0].response is None
                &&& all.skip(1) == exchanges_of(messages)
            }
        }),
{
    let given = seq![first] + messages;
    assert(given.skip(1) =~= messages);
    let all = exchanges_of(given);
    if first.role == Role::User {
        if messages.len() > 0 && messages[0].role == Role::Assistant {
            assert(given[1] == messages[0]);
            assert(given.skip(2) =~= messages.skip(1));
            assert(exchanges_of(messages) == exchanges_of(messages.skip(1)));
        } else if messages.len() > 0 {
            assert(given[1] == messages[0]);
        }
        assert(all.skip(1) =~= exchanges_of(messages));
    }
}

/// Queued messages are merged in the order in which they came, one per line; only an empty
/// queue gives nothing.
pub proof fn queue_is_merged_in_order(queue: Seq<String>, next: String)
    ensures
        merged(queue) is None <==> queue.len() == 0,
        merged(queue.push(next)) == match merged(queue) {
            Some(t) => Some(t + "\n"@ + next@),
            None => Some(next@),
        },
{
    assert(text::texts(queue.push(next)) =~= text::texts(queue).push(next@));
    assert(text::texts(queue).push(next@).drop_last() =~= text::texts(queue));
}

/// Changing one thread leaves every other thread, the active one and the approved tools as
/// they were.
pub proof fn one_thread_changes(
    old: Session,
    new: Session,
    id: u128,
    next: Option<Thread>,
    other: u128,
)
    requires
        updated(old, new, id, next),
    ensures
        other != id ==> new.thread(other) == old.thread(other),
        next is Some ==> new.thread(id) == next,
        next is None ==> new.thread(id) == old.thread(id),
        new.active_thread == old.active_thread,
        new.last_active_at == old.last_active_at,
        forall|tool: Seq<char>| #[trigger] new.auto_approves(tool) == old.auto_approves(tool),
{
}

/// A tool runs without asking where it has been approved for the session by its very name.
pub proof fn approvals_are_by_name(session: Session, tool: Seq<char>)
    ensures
        session.auto_approves(tool) <==> exists|i: int|
            0 <= i < session.auto_approved_tools@.len() && (
            #[trigger] session.auto_approved_tools@[i])@ == tool,
{
}

/// A new thread has no conversation, waits for nothing and has nothing queued.
pub proof fn new_threads_are_empty(t: Thread, source_channel: Option<String>)
    requires
        t.fresh(source_channel),
    ensures
        t.history().len() == 0,
        t.state == ThreadState::Idle,
        t.pending_approval is None,
        t.pending_auth is None,
        t.last_response_id is None,
        t.source_channel == source_channel,
        merged(t.pending_messages@) is None,
        json::json_content(t.metadata).members().dom() == Set::<Seq<char>>::empty(),
{
    no_turns_no_history(t);
}

/// Recording calls changes the calls of the last turn alone.
pub proof fn recording_keeps_the_texts(old: Seq<Turn>, new: Seq<Turn>, records: Seq<RecordView>)
    requires
        rerecorded(old, new, records),
    ensures
        new.len() == old.len(),
        exchanges(new) == exchanges(old),
        old.len() > 0 ==> last_records(new) == records,
        forall|i: int| 0 <= i < old.len() ==> (#[trigger] new[i]).error == old[i].error,
        forall|i: int| 0 <= i < old.len() - 1 ==> #[trigger] new[i] == old[i],
{
    assert forall|i: int| 0 <= i < old.len() - 1 implies #[trigger] new[i] == old[i] by {
        assert(new.drop_last()[i] == old.drop_last()[i]);
    }
    assert(exchanges(new) =~= exchanges(old));
}

/// A text that has to wait stands at the end of the queue, after those before it, and nothing
/// else of the thread changes.
pub proof fn queued_text_waits_at_the_end(old: Thread, new: Thread, content: Seq<char>)
    requires
        queued(old, new, content),
    ensures
        text::texts(new.pending_messages@) == text::texts(old.pending_messages@).push(content),
        new.turns == old.turns,
        new.state == old.state,
        new.pending_approval == old.pending_approval,
        new.pending_auth == old.pending_auth,
        new.metadata == old.metadata,
{
    let all = text::texts(new.pending_messages@);
    let before = text::texts(old.pending_messages@);
    assert forall|i: int| 0 <= i < before.len() implies all[i] == before[i] by {
        assert(new.pending_messages@.drop_last()[i] == old.pending_messages@[i]);
    }
    assert(all =~= before.push(content));
}

/// Recording a call touches the last turn only, and of it neither the texts nor the failure.
pub proof fn recording_touches_the_last_turn_only(
    old: Seq<Turn>,
    new: Seq<Turn>,
    records: Seq<RecordView>,
    i: int,
)
    requires
        rerecorded(old, new, records),
        0 <= i < old.len(),
    ensures
        new.len() == old.len(),
        i < old.len() - 1 ==> new[i] == old[i],
        new.last().user_input == old.last().user_input,
        new.last().response == old.last().response,
        new.last().error == old.last().error,
        last_records(new) == records,
{
    if i < old.len() - 1 {
        assert(new.drop_last()[i] == old.drop_last()[i]);
    }
}

/// A thread is found under its id, and nothing is found under any other.
pub proof fn threads_are_found_by_id(session: Session, id: u128)
    ensures
        session.threads@.contains_key(id) ==> session.thread(id) == Some(session.threads@[id]),
        !session.threads@.contains_key(id) ==> session.thread(id) is None,
{
}

/// Turns without calls, or without failures, are so from the first to the last.
pub proof fn no_turn_is_left_out(turns: Seq<Turn>, i: int)
    requires
        0 <= i < turns.len(),
    ensures
        without_calls(turns) ==> turns[i].tool_calls@.len() == 0,
        without_errors(turns) ==> turns[i].error is None,
{
}

} // verus!
