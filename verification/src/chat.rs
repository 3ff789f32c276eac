//! Messages of a conversation with the model.

use serde_json::Value;
use vstd::prelude::*;

use crate::json;

verus! {

/// Who speaks in a message.
#[derive(Clone, Copy, Debug, PartialEq, Eq, Structural)]
pub enum Role {
    User,
    Assistant,
    System,
    Tool,
}

/// A call of a tool that the model asks for.
pub struct ToolCall {
    pub id: String,
    pub name: String,
    pub arguments: Value,
}

/// A tool call by its texts and the tree of its arguments.
pub struct ToolCallView {
    pub id: Seq<char>,
    pub name: Seq<char>,
    pub arguments: json::JsonContent,
}

impl View for ToolCall {
    type V = ToolCallView;

    open spec fn view(&self) -> ToolCallView {
        ToolCallView {
            id: self.id@,
            name: self.name@,
            arguments: json::json_content(self.arguments),
        }
    }
}

/// One message of the conversation.
pub struct ChatMessage {
    pub role: Role,
    pub content: String,
    /// The call that a tool result answers.
    pub tool_call_id: Option<String>,
    /// The tool that a tool result comes from.
    pub name: Option<String>,
    /// The calls that an assistant message asks for.
    pub tool_calls: Vec<ToolCall>,
}

/// A message by its texts.
#[verifier::ext_equal]
pub struct MessageView {
    pub role: Role,
    pub content: Seq<char>,
    pub tool_call_id: Option<Seq<char>>,
    pub name: Option<Seq<char>>,
    pub tool_calls: Seq<ToolCallView>,
}

impl View for ChatMessage {
    type V = MessageView;

    open spec fn view(&self) -> MessageView {
        MessageView {
            role: self.role,
            content: self.content@,
            tool_call_id: json::string_of(self.tool_call_id),
            name: json::string_of(self.name),
            tool_calls: call_views(self.tool_calls@),
        }
    }
}

/// The views of a list of tool calls.
pub open spec fn call_views(calls: Seq<ToolCall>) -> Seq<ToolCallView> {
    calls.map_values(|c: ToolCall| c@)
}

/// The views of a list of messages.
pub open spec fn views(messages: Seq<ChatMessage>) -> Seq<MessageView> {
    messages.map_values(|m: ChatMessage| m@)
}

impl MessageView {
    /// A message that is only text.
    pub open spec fn plain(role: Role, content: Seq<char>) -> MessageView {
        MessageView { role, content, tool_call_id: None, name: None, tool_calls: seq![] }
    }

    /// The result of a tool call.
    pub open spec fn tool_result(
        id: Seq<char>,
        name: Seq<char>,
        content: Seq<char>,
    ) -> MessageView {
        MessageView {
            role: Role::Tool,
            content,
            tool_call_id: Some(id),
            name: Some(name),
            tool_calls: seq![],
        }
    }

    /// An assistant message that asks for tool calls.
    pub open spec fn asking(content: Seq<char>, tool_calls: Seq<ToolCallView>) -> MessageView {
        MessageView {
            role: Role::Assistant,
            content,
            tool_call_id: None,
            name: None,
            tool_calls,
        }
    }
}

impl ToolCall {
    /// A copy of the call.
    pub fn copy(&self) -> (r: ToolCall)
        ensures
            r@ == self@,
            r.id == self.id,
            r.name == self.name,
    {
        ToolCall {
            id: self.id.clone(),
            name: self.name.clone(),
            arguments: json::copy_json(&self.arguments),
        }
    }
}

/// A copy of a list of tool calls.
pub fn copy_calls(calls: &Vec<ToolCall>) -> (r: Vec<ToolCall>)
    ensures
        call_views(r@) == call_views(calls@),
{
    let mut out: Vec<ToolCall> = Vec::new();
    let mut i: usize = 0;
    while i < calls.len()
        invariant
            i <= calls@.len(),
            call_views(out@) =~= call_views(calls@).take(i as int),
        decreases calls@.len() - i,
    {
        let ghost done = call_views(out@);
        let call = calls[i].copy();
        assert(call_views(calls@)[i as int] == call@);
        out.push(call);
        assert(call_views(out@) =~= done.push(call@));
        i = i + 1;
    }
    out
}

impl ChatMessage {
    /// A message that is only text.
    pub fn plain(role: Role, content: &str) -> (r: ChatMessage)
        ensures
            r@ == MessageView::plain(role, content@),
    {
        let r = ChatMessage {
            role,
            content: content.to_owned(),
            tool_call_id: None,
            name: None,
            tool_calls: Vec::new(),
        };
        assert(r@ =~= MessageView::plain(role, content@));
        r
    }

    /// A message of the user.
    pub fn user(content: &str) -> (r: ChatMessage)
        ensures
            r@ == MessageView::plain(Role::User, content@),
    {
        ChatMessage::plain(Role::User, content)
    }

    /// A message of the assistant.
    pub fn assistant(content: &str) -> (r: ChatMessage)
        ensures
            r@ == MessageView::plain(Role::Assistant, content@),
    {
        ChatMessage::plain(Role::Assistant, content)
    }

    /// A system message.
    pub fn system(content: &str) -> (r: ChatMessage)
        ensures
            r@ == MessageView::plain(Role::System, content@),
    {
        ChatMessage::plain(Role::System, content)
    }

    /// The result of a tool call.
    pub fn tool_result(id: &str, name: &str, content: String) -> (r: ChatMessage)
        ensures
            r@ == MessageView::tool_result(id@, name@, content@),
    {
        let r = ChatMessage {
            role: Role::Tool,
            content,
            tool_call_id: Some(id.to_owned()),
            name: Some(name.to_owned()),
            tool_calls: Vec::new(),
        };
        assert(r@ =~= MessageView::tool_result(id@, name@, content@));
        r
    }

    /// An assistant message that asks for tool calls, with the text that came with them.
    pub fn assistant_with_tool_calls(content: Option<String>, tool_calls: Vec<ToolCall>) -> (r:
        ChatMessage)
        ensures
            r@ == MessageView::asking(
                match content {
                    Some(c) => c@,
                    None => seq![],
                },
                call_views(tool_calls@),
            ),
    {
        let content: String = match content {
            Some(c) => c,
            None => String::new(),
        };
        ChatMessage { role: Role::Assistant, content, tool_call_id: None, name: None, tool_calls }
    }

    /// A copy of the message.
    pub fn copy(&self) -> (r: ChatMessage)
        ensures
            r@ == self@,
    {
        ChatMessage {
            role: self.role,
            content: self.content.clone(),
            tool_call_id: self.tool_call_id.clone(),
            name: self.name.clone(),
            tool_calls: copy_calls(&self.tool_calls),
        }
    }
}

/// A copy of the messages from index `start` on.
pub fn copy_messages_from(messages: &Vec<ChatMessage>, start: usize) -> (r: Vec<ChatMessage>)
    requires
        start <= messages@.len(),
    ensures
        views(r@) == views(messages@).skip(start as int),
{
    let mut out: Vec<ChatMessage> = Vec::new();
    let mut i: usize = start;
    while i < messages.len()
        invariant
            start <= i <= messages@.len(),
            views(out@) =~= views(messages@).subrange(start as int, i as int),
        decreases messages@.len() - i,
    {
        let ghost done = views(out@);
        let message = messages[i].copy();
        assert(views(messages@)[i as int] == message@);
        out.push(message);
        assert(views(out@) =~= done.push(message@));
        i = i + 1;
    }
    assert(views(messages@).subrange(start as int, messages@.len() as int) =~= views(messages@).skip(
        start as int,
    ));
    out
}

/// The view of a message holds all of it.
pub proof fn message_view_is_faithful(m: ChatMessage)
    ensures
        m@.role == m.role,
        m@.content == m.content@,
        m@.tool_call_id == json::string_of(m.tool_call_id),
        m@.name == json::string_of(m.name),
        m@.tool_calls.len() == m.tool_calls@.len(),
        forall|i: int|
            0 <= i < m.tool_calls@.len() ==> {
                let c = #[trigger] m@.tool_calls[i];
                &&& c.id == m.tool_calls@[i].id@
                &&& c.name == m.tool_calls@[i].name@
                &&& c.arguments == json::json_content(m.tool_calls@[i].arguments)
            },
{
}

/// The views of messages are in the order of the messages, one for each.
pub proof fn views_keep_order(messages: Seq<ChatMessage>, calls: Seq<ToolCall>)
    ensures
        views(messages).len() == messages.len(),
        forall|i: int| 0 <= i < messages.len() ==> #[trigger] views(messages)[i] == messages[i]@,
        call_views(calls).len() == calls.len(),
        forall|i: int| 0 <= i < calls.len() ==> #[trigger] call_views(calls)[i] == calls[i]@,
{
}

/// What the messages of a conversation say, by their kind: a plain one asks for nothing and
/// answers nothing, a tool result answers the call with its id, and an assistant message
/// that asks for calls carries them.
pub proof fn message_kinds(
    role: Role,
    content: Seq<char>,
    id: Seq<char>,
    name: Seq<char>,
    calls: Seq<ToolCallView>,
)
    ensures
        ({
            let p = MessageView::plain(role, content);
            let t = MessageView::tool_result(id, name, content);
            let a = MessageView::asking(content, calls);
            &&& p.role == role && p.content == content && p.tool_calls.len() == 0
                && p.tool_call_id is None
            &&& t.role == Role::Tool && t.content == content && t.tool_call_id == Some(id)
                && t.name == Some(name) && t.tool_calls.len() == 0
            &&& a.role == Role::Assistant && a.content == content && a.tool_calls == calls
                && a.tool_call_id is None
        }),
{
}

} // verus!
