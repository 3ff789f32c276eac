//! Messages that come in and responses that go out.

use serde_json::Value;
use vstd::prelude::*;

use crate::images;
use crate::images::OutgoingAttachment;
use crate::json;
use crate::session;
use crate::submission::Submission;
use crate::text;

verus! {

/// What kind of file came with a message.
#[derive(Clone, Copy, Debug, PartialEq, Eq, Structural)]
pub enum AttachmentKind {
    Audio,
    Image,
    Document,
}

/// A file that came with a message.
pub struct IncomingAttachment {
    pub kind: AttachmentKind,
    pub mime_type: String,
    pub filename: Option<String>,
    pub size_bytes: Option<u64>,
    pub extracted_text: Option<String>,
}

/// A message from a channel.
pub struct IncomingMessage {
    pub channel: String,
    pub user_id: String,
    /// Who wrote the message, as the channel knows them.
    pub sender_id: String,
    pub content: String,
    pub thread_id: Option<String>,
    pub metadata: Value,
    /// Text that the agent itself rendered, to be forwarded as it is.
    pub is_internal: bool,
    pub structured_submission: Option<Submission>,
    pub attachments: Vec<IncomingAttachment>,
}

/// The text of a JSON string, or of a JSON number as it is written.
pub open spec fn id_text(content: Option<json::JsonContent>) -> Option<Seq<char>> {
    match content {
        Some(c) => match c.text() {
            Some(t) => Some(t),
            None => c.number_text(),
        },
        None => None,
    }
}

impl IncomingMessage {
    /// A plain message of a user.
    pub fn new(channel: &str, user_id: &str, content: &str) -> (r: IncomingMessage)
        ensures
            r.channel@ == channel@,
            r.user_id@ == user_id@,
            r.sender_id@ == user_id@,
            r.content@ == content@,
            r.thread_id is None,
            json::json_content(r.metadata) == json::JsonContent::Null,
            !r.is_internal,
            r.structured_submission is None,
            r.attachments@.len() == 0,
    {
        IncomingMessage {
            channel: channel.to_owned(),
            user_id: user_id.to_owned(),
            sender_id: user_id.to_owned(),
            content: content.to_owned(),
            thread_id: None,
            metadata: json::null(),
            is_internal: false,
            structured_submission: None,
            attachments: Vec::new(),
        }
    }

    /// The message with another sender.
    pub fn with_sender_id(self, sender_id: &str) -> (r: IncomingMessage)
        ensures
            r.sender_id@ == sender_id@,
            r == (IncomingMessage { sender_id: r.sender_id, ..self }),
    {
        IncomingMessage { sender_id: sender_id.to_owned(), ..self }
    }

    /// The message in a thread.
    pub fn with_thread(self, thread_id: &str) -> (r: IncomingMessage)
        ensures
            json::string_of(r.thread_id) == Some(thread_id@),
            r == (IncomingMessage { thread_id: r.thread_id, ..self }),
    {
        IncomingMessage { thread_id: Some(thread_id.to_owned()), ..self }
    }

    /// The message with the channel's own data.
    pub fn with_metadata(self, metadata: Value) -> (r: IncomingMessage)
        ensures
            r == (IncomingMessage { metadata, ..self }),
    {
        IncomingMessage { metadata, ..self }
    }

    /// The message with files.
    pub fn with_attachments(self, attachments: Vec<IncomingAttachment>) -> (r: IncomingMessage)
        ensures
            r == (IncomingMessage { attachments, ..self }),
    {
        IncomingMessage { attachments, ..self }
    }

    /// Where the channel data says that an answer goes, or else the sender.
    pub open spec fn route(self) -> Option<Seq<char>> {
        let data = json::json_content(self.metadata);
        match id_text(data.member("signal_target"@)) {
            Some(t) => Some(t),
            None => match id_text(data.member("chat_id"@)) {
                Some(t) => Some(t),
                None => if self.sender_id@.len() > 0 {
                    Some(self.sender_id@)
                } else {
                    None
                },
            },
        }
    }

    /// Where an answer to the message goes: the routing target, or else the user.
    pub open spec fn target(self) -> Seq<char> {
        match self.route() {
            Some(t) => t,
            None => self.user_id@,
        }
    }

    /// Where the channel data says that an answer goes, or else the sender.
    pub fn routing_target(&self) -> (r: Option<String>)
        ensures
            json::string_of(r) == self.route(),
    {
        match id_member(&self.metadata, "signal_target") {
            Some(t) => Some(t),
            None => match id_member(&self.metadata, "chat_id") {
                Some(t) => Some(t),
                None => if self.sender_id.as_str().is_empty() {
                    None
                } else {
                    Some(self.sender_id.clone())
                },
            },
        }
    }

    /// Where an answer to the message goes: the routing target, or else the user.
    pub fn answer_target(&self) -> (r: String)
        ensures
            r@ == self.target(),
    {
        match self.routing_target() {
            Some(t) => t,
            None => self.user_id.clone(),
        }
    }

    /// The conversation that the message belongs to.
    pub fn conversation_scope<'a>(&'a self) -> (r: Option<&'a str>)
        ensures
            json::text_of(r) == json::string_of(self.thread_id),
    {
        match &self.thread_id {
            Some(t) => Some(t.as_str()),
            None => None,
        }
    }
}

fn id_member(v: &Value, key: &str) -> (r: Option<String>)
    ensures
        json::string_of(r) == id_text(json::json_content(*v).member(key@)),
{
    match json::get(v, key) {
        Some(m) => match json::as_str(m) {
            Some(t) => Some(t.to_owned()),
            None => json::as_number_text(m),
        },
        None => None,
    }
}

/// A channel that carries one user's own conversation, not a group's.
pub open spec fn main_session(channel: Seq<char>) -> bool {
    channel == "cli"@ || channel == "repl"@ || channel == "web"@ || channel == "gateway"@ || channel
        == "tui"@
}

/// Whether a channel is a main or direct session rather than a group chat. Only there the
/// user's memory goes into the system prompt.
pub fn is_main_session(channel: &str) -> (r: bool)
    ensures
        r == main_session(channel@),
{
    text::same(channel, "cli") || text::same(channel, "repl") || text::same(channel, "web")
        || text::same(channel, "gateway") || text::same(channel, "tui")
}

/// A REPL that was started for a single message.
pub open spec fn single_message(message: IncomingMessage) -> bool {
    message.channel@ == "repl"@ && json::json_content(message.metadata).flag_at(
        "single_message_mode"@,
    ) == Some(true)
}

/// Whether the message comes from a REPL that was started for it alone.
pub fn is_single_message_repl(message: &IncomingMessage) -> (r: bool)
    ensures
        r == single_message(*message),
{
    text::same(message.channel.as_str(), "repl") && match json::flag_member(
        &message.metadata,
        "single_message_mode",
    ) {
        Some(b) => b,
        None => false,
    }
}

/// The routing data that a chat message hands to the tools it runs.
pub open spec fn routing_data(message: IncomingMessage) -> json::JsonContent {
    json::JsonContent::Object(
        map![
            "notify_channel"@ => json::JsonContent::Text(message.channel@),
            "notify_user"@ => json::JsonContent::Text(message.target()),
            "notify_thread_id"@ => match message.thread_id {
                Some(t) => json::JsonContent::Text(t@),
                None => json::JsonContent::Null,
            },
            "notify_metadata"@ => json::json_content(message.metadata),
        ],
    )
}

/// The routing data that a chat message hands to the tools it runs.
pub fn chat_tool_execution_metadata(message: &IncomingMessage) -> (r: Value)
    ensures
        json::json_content(r) == routing_data(*message),
{
    let mut out = json::empty_object();
    json::insert(&mut out, "notify_channel", json::from_text(message.channel.clone()));
    json::insert(&mut out, "notify_user", json::from_text(message.answer_target()));
    let thread_id: Value = match &message.thread_id {
        Some(t) => json::from_text(t.clone()),
        None => json::null(),
    };
    json::insert(&mut out, "notify_thread_id", thread_id);
    json::insert(&mut out, "notify_metadata", json::copy_json(&message.metadata));
    out
}

/// A response to a channel.
pub struct OutgoingResponse {
    pub content: String,
    /// Files by their path.
    pub attachments: Vec<String>,
    /// Files by their bytes.
    pub inline_attachments: Vec<OutgoingAttachment>,
}

impl OutgoingResponse {
    /// The response is this text and nothing else.
    pub open spec fn is_text(self, content: Seq<char>) -> bool {
        self.content@ == content && self.attachments@.len() == 0
            && self.inline_attachments@.len() == 0
    }

    /// A response that is only text.
    pub fn text(content: String) -> (r: OutgoingResponse)
        ensures
            r.content == content,
            r.is_text(content@),
    {
        OutgoingResponse { content, attachments: Vec::new(), inline_attachments: Vec::new() }
    }
}

/// The images of the last turn of a thread.
pub open spec fn last_images(thread: Option<session::Thread>) -> Seq<images::AttachmentView> {
    match thread {
        Some(t) => if t.turns@.len() > 0 {
            images::images(t.turns@.last().tool_calls@)
        } else {
            seq![]
        },
        None => seq![],
    }
}

/// The response with this text for a thread: it carries the images that the last turn of
/// the thread generated.
pub fn build_outgoing_response_for_thread(
    session: &session::Session,
    thread_id: u128,
    content: String,
) -> (r: OutgoingResponse)
    ensures
        r.content == content,
        r.attachments@.len() == 0,
        images::attachment_views(r.inline_attachments@) == last_images(session.thread(thread_id)),
{
    let mut response = OutgoingResponse::text(content);
    assert(images::attachment_views(response.inline_attachments@) =~= seq![]);
    if let Some(thread) = session.threads.get(&thread_id) {
        let n: usize = thread.turns.len();
        if n > 0 {
            response.inline_attachments = images::generated_image_attachments_for_turn(
                &thread.turns[n - 1],
            );
        }
    }
    response
}

/// An answer goes where the channel's own data says: to the Signal target before the chat,
/// then to the sender, and to the user only without any of these.
pub proof fn answers_go_where_the_channel_says(m: IncomingMessage)
    ensures
        ({
            let data = json::json_content(m.metadata);
            let signal = data.member("signal_target"@);
            let chat = data.member("chat_id"@);
            let signal_named = signal is Some && (signal->0 is Text || signal->0 is Number);
            let chat_named = chat is Some && (chat->0 is Text || chat->0 is Number);
            &&& signal matches Some(json::JsonContent::Text(t)) ==> m.target() == t
            &&& signal matches Some(json::JsonContent::Number(t, _)) ==> m.target() == t
            &&& !signal_named ==> {
                &&& chat matches Some(json::JsonContent::Text(t)) ==> m.target() == t
                &&& chat matches Some(json::JsonContent::Number(t, _)) ==> m.target() == t
            }
            &&& !signal_named && !chat_named && m.sender_id@.len() > 0 ==> m.target()
                == m.sender_id@
            &&& !signal_named && !chat_named && m.sender_id@.len() == 0 ==> m.target()
                == m.user_id@
            &&& m.route() is None <==> !signal_named && !chat_named && m.sender_id@.len() == 0
            &&& m.route() is Some ==> m.route()->0 == m.target()
        }),
{
}

/// The channels that carry one user's own conversation are these five, and the REPL mode for
/// one message is a mark on a REPL message.
pub proof fn main_sessions_are_named(channel: Seq<char>, m: IncomingMessage)
    ensures
        main_session("cli"@),
        main_session("repl"@),
        main_session("web"@),
        main_session("gateway"@),
        main_session("tui"@),
        main_session(channel) ==> channel == "cli"@ || channel == "repl"@ || channel == "web"@
            || channel == "gateway"@ || channel == "tui"@,
        single_message(m) ==> main_session(m.channel@),
        single_message(m) <==> m.channel@ == "repl"@ && json::json_content(m.metadata).flag_at(
            "single_message_mode"@,
        ) == Some(true),
{
}

/// The routing data that tools get holds the message's channel, the one that its answer goes
/// to, its thread and the channel's own data.
pub proof fn routing_data_is_complete(m: IncomingMessage)
    ensures
        ({
            let data = routing_data(m);
            &&& data.text_at("notify_channel"@) == Some(m.channel@)
            &&& data.text_at("notify_user"@) == Some(m.target())
            &&& data.text_at("notify_thread_id"@) == json::string_of(m.thread_id)
            &&& data.member("notify_metadata"@) == Some(json::json_content(m.metadata))
        }),
{
    reveal_strlit("notify_channel");
    reveal_strlit("notify_user");
    reveal_strlit("notify_thread_id");
    reveal_strlit("notify_metadata");
    assert("notify_user"@.len() == 11);
    assert("notify_channel"@.len() == 14);
    assert("notify_thread_id"@.len() == 16);
    assert("notify_metadata"@.len() == 15);
    let data = routing_data(m);
    assert(data.member("notify_channel"@) == Some(json::JsonContent::Text(m.channel@)));
    assert(data.member("notify_user"@) == Some(json::JsonContent::Text(m.target())));
    assert(data.member("notify_metadata"@) == Some(json::json_content(m.metadata)));
}

/// The images that go out with a reply are those of the last turn of its thread, and of no
/// other.
pub proof fn images_come_from_the_last_turn(t: session::Thread)
    ensures
        t.turns@.len() == 0 ==> last_images(Some(t)).len() == 0,
        t.turns@.len() > 0 ==> last_images(Some(t)) == images::images(t.turns@.last().tool_calls@),
        last_images(None).len() == 0,
{
}

} // verus!
