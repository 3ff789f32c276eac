//! Turns in the conversation store: writing them there, and loading a thread back.

use serde_json::Value;
use vstd::prelude::*;

use crate::auth;
use crate::chat;
use crate::chat::{ChatMessage, Role};
use crate::ids;
use crate::json;
use crate::session;
use crate::session::{Exchange, Session, Thread, ThreadState};
use crate::text;

verus! {

broadcast use vstd::std_specs::hash::group_hash_axioms;

/// A message in the store.
pub struct StoredMessage {
    pub role: String,
    pub content: String,
}

/// A stored message by its texts.
#[verifier::ext_equal]
pub struct StoredView {
    pub role: Seq<char>,
    pub content: Seq<char>,
}

impl View for StoredMessage {
    type V = StoredView;

    open spec fn view(&self) -> StoredView {
        StoredView { role: self.role@, content: self.content@ }
    }
}

/// The views of a list of stored messages.
pub open spec fn stored_views(rows: Seq<StoredMessage>) -> Seq<StoredView> {
    rows.map_values(|m: StoredMessage| m@)
}

/// The message that a stored one stands for: only those of the user and of the assistant
/// are kept.
pub open spec fn loaded_one(row: StoredView) -> Seq<chat::MessageView> {
    if row.role == "user"@ {
        seq![chat::MessageView::plain(Role::User, row.content)]
    } else if row.role == "assistant"@ {
        seq![chat::MessageView::plain(Role::Assistant, row.content)]
    } else {
        seq![]
    }
}

/// The conversation that stored messages amount to.
pub open spec fn loaded(rows: Seq<StoredView>) -> Seq<chat::MessageView>
    decreases rows.len(),
{
    if rows.len() == 0 {
        seq![]
    } else {
        loaded(rows.drop_last()) + loaded_one(rows.last())
    }
}

/// The conversation that stored messages amount to.
pub fn loaded_messages(rows: &Vec<StoredMessage>) -> (r: Vec<ChatMessage>)
    ensures
        chat::views(r@) == loaded(stored_views(rows@)),
{
    let ghost all = stored_views(rows@);
    let mut out: Vec<ChatMessage> = Vec::new();
    let mut i: usize = 0;
    assert(chat::views(out@) =~= loaded(all.take(0)));
    while i < rows.len()
        invariant
            all == stored_views(rows@),
            i <= rows@.len(),
            chat::views(out@) == loaded(all.take(i as int)),
        decreases rows@.len() - i,
    {
        let ghost done = chat::views(out@);
        assert(all[i as int] == rows@[i as int]@);
        assert(all.take(i as int + 1).drop_last() =~= all.take(i as int));
        if text::same(rows[i].role.as_str(), "user") {
            let m = ChatMessage::user(rows[i].content.as_str());
            out.push(m);
            assert(chat::views(out@) =~= done + seq![m@]);
        } else if text::same(rows[i].role.as_str(), "assistant") {
            let m = ChatMessage::assistant(rows[i].content.as_str());
            out.push(m);
            assert(chat::views(out@) =~= done + seq![m@]);
        } else {
            assert(chat::views(out@) =~= done + Seq::<chat::MessageView>::empty());
        }
        i = i + 1;
    }
    assert(all.take(all.len() as int) =~= all);
    out
}

/// The id that the name of a thread is, where it is one. The hyphenated form of an id is.
pub fn thread_named(name: &str) -> (r: Option<u128>)
    ensures
        r == ids::parsed_id(name@),
        forall|id: u128| name@ == #[trigger] ids::id_text(id) ==> r == Some(id),
{
    ids::parse(name)
}

/// What came of loading a thread.
pub enum Hydration {
    /// The thread was in memory already.
    Present,
    /// The thread was loaded; the model's provider goes on from this answer.
    Loaded { chain_id: Option<String> },
}

/// The answer that the provider goes on from, in the metadata of a conversation.
pub open spec fn chain_in(metadata: Option<json::JsonContent>) -> Option<Seq<char>> {
    auth::text_in(metadata, "last_response_id"@)
}

/// A thread as it is loaded from the store: a new one, but for the conversation and for the
/// answer that the provider goes on from.
pub open spec fn hydrated(
    thread: Thread,
    rows: Seq<StoredView>,
    metadata: Option<json::JsonContent>,
) -> bool {
    &&& thread.state == ThreadState::Idle
    &&& session::exchanges(thread.turns@) == session::exchanges_of(loaded(rows))
    &&& session::without_calls(thread.turns@)
    &&& session::without_errors(thread.turns@)
    &&& json::json_content(thread.metadata) == json::JsonContent::Null
    &&& thread.source_channel is None
    &&& json::string_of(thread.last_response_id) == chain_in(metadata)
    &&& thread.pending_approval is None
    &&& thread.pending_auth is None
    &&& thread.pending_messages@.len() == 0
}

/// Puts a thread from the store into a session and makes it the active one; one that is in
/// memory already stays as it is. A conversation without messages becomes an empty thread.
pub fn hydrate(
    session: &mut Session,
    thread_id: u128,
    rows: &Vec<StoredMessage>,
    metadata: Option<&Value>,
    now: i64,
) -> (r: Hydration)
    ensures
        if old(session).threads@.contains_key(thread_id) {
            r is Present && *final(session) == *old(session)
        } else {
            &&& r matches Hydration::Loaded { chain_id }
            &&& json::string_of(chain_id) == chain_in(auth::content_of(metadata))
            &&& final(session).thread(thread_id) matches Some(t)
            &&& hydrated(t, stored_views(rows@), auth::content_of(metadata))
            &&& final(session).threads@ == old(session).threads@.insert(thread_id, t)
            &&& final(session).active_thread == Some(thread_id)
            &&& final(session).last_active_at == now
            &&& final(session).auto_approved_tools == old(session).auto_approved_tools
        },
        old(session).wf() ==> final(session).wf(),
{
    if session.threads.contains_key(&thread_id) {
        return Hydration::Present;
    }
    let messages = loaded_messages(rows);
    let mut thread = Thread::new(None);
    if messages.len() > 0 {
        thread.restore_from_messages(&messages);
    } else {
        assert(session::exchanges(thread.turns@) =~= session::exchanges_of(
            chat::views(messages@),
        ));
    }
    let chain_id: Option<String> = match metadata {
        Some(v) => match json::text_member(v, "last_response_id") {
            Some(s) => Some(s.to_owned()),
            None => None,
        },
        None => None,
    };
    if let Some(id) = &chain_id {
        thread.last_response_id = Some(id.clone());
    }
    session.put(thread_id, thread);
    session.active_thread = Some(thread_id);
    session.last_active_at = now;
    Hydration::Loaded { chain_id }
}

/// One write to the store.
pub enum StoreWrite {
    /// Make sure that the conversation of the thread exists, on this channel.
    Ensure { channel: String },
    /// Append a message to the conversation.
    Append(StoredMessage),
}

/// The stored messages of one exchange.
pub open spec fn stored(e: Exchange) -> Seq<StoredView> {
    match e.response {
        Some(answer) => seq![
            StoredView { role: "user"@, content: e.user_input },
            StoredView { role: "assistant"@, content: answer },
        ],
        None => seq![StoredView { role: "user"@, content: e.user_input }],
    }
}

/// The messages that writes append.
pub open spec fn appended(writes: Seq<StoreWrite>) -> Seq<StoredView>
    decreases writes.len(),
{
    if writes.len() == 0 {
        seq![]
    } else {
        match writes.last() {
            StoreWrite::Ensure { .. } => appended(writes.drop_last()),
            StoreWrite::Append(m) => appended(writes.drop_last()).push(m@),
        }
    }
}

/// The writes store a turn: they make sure of the conversation, then append the messages of
/// the exchange. Without a store there are none.
pub open spec fn writes_turn(
    writes: Seq<StoreWrite>,
    has_store: bool,
    user_input: Seq<char>,
    response: Option<Seq<char>>,
) -> bool {
    if has_store {
        &&& writes.len() > 0
        &&& writes[0] matches StoreWrite::Ensure { channel }
        &&& channel@ == "gateway"@
        &&& appended(writes) == stored(Exchange { user_input, response })
        &&& forall|i: int| 1 <= i < writes.len() ==> #[trigger] writes[i] is Append
    } else {
        writes.len() == 0
    }
}

/// The writes that store a turn, to be done in order until one fails; none without a store.
pub fn turn_writes(has_store: bool, user_input: &str, response: Option<&str>) -> (r: Vec<
    StoreWrite,
>)
    ensures
        writes_turn(r@, has_store, user_input@, json::text_of(response)),
{
    let mut writes: Vec<StoreWrite> = Vec::new();
    if !has_store {
        return writes;
    }
    let ghost none = writes@;
    writes.push(StoreWrite::Ensure { channel: "gateway".to_owned() });
    let ghost first = writes@;
    assert(first.drop_last() =~= none);
    let user = StoredMessage { role: "user".to_owned(), content: user_input.to_owned() };
    writes.push(StoreWrite::Append(user));
    let ghost second = writes@;
    assert(second.drop_last() =~= first);
    assert(appended(none) =~= Seq::<StoredView>::empty());
    assert(appended(first) == appended(none));
    assert(appended(second) =~= seq![user@]);
    if let Some(answer) = response {
        let assistant = StoredMessage { role: "assistant".to_owned(), content: answer.to_owned() };
        writes.push(StoreWrite::Append(assistant));
        assert(writes@.drop_last() =~= second);
        assert(appended(writes@) =~= seq![user@, assistant@]);
    }
    assert(appended(writes@) =~= stored(
        Exchange { user_input: user_input@, response: json::text_of(response) },
    ));
    writes
}

/// The field of a conversation's metadata that keeps the answer that the provider goes on
/// from.
pub fn chain_field(response_id: &str) -> (r: (&'static str, Value))
    ensures
        r.0@ == "last_response_id"@,
        json::json_content(r.1) == json::JsonContent::Text(response_id@),
{
    ("last_response_id", json::from_text(response_id.to_owned()))
}

/// The answer that was stored is the one that a thread loaded later goes on from.
pub proof fn stored_chain_reads_back(metadata: json::JsonContent, response_id: Seq<char>)
    requires
        metadata.member("last_response_id"@) == Some(json::JsonContent::Text(response_id)),
    ensures
        chain_in(Some(metadata)) == Some(response_id),
{
}

/// The stored messages of a list of exchanges.
pub open spec fn stored_all(es: Seq<Exchange>) -> Seq<StoredView>
    decreases es.len(),
{
    if es.len() == 0 {
        seq![]
    } else {
        stored_all(es.drop_last()) + stored(es.last())
    }
}

proof fn loaded_concat(a: Seq<StoredView>, b: Seq<StoredView>)
    ensures
        loaded(a + b) == loaded(a) + loaded(b),
    decreases b.len(),
{
    if b.len() == 0 {
        assert(a + b =~= a);
        assert(loaded(a) + loaded(b) =~= loaded(a));
    } else {
        assert((a + b).drop_last() =~= a + b.drop_last());
        loaded_concat(a, b.drop_last());
        assert(loaded(a + b) =~= loaded(a) + loaded(b));
    }
}

/// What was stored turn by turn is loaded as the same conversation: a thread that is loaded
/// from the store has the exchanges that were written to it.
pub proof fn stored_turns_read_back(es: Seq<Exchange>)
    ensures
        loaded(stored_all(es)) == session::conversation(es),
        session::exchanges_of(loaded(stored_all(es))) == es,
    decreases es.len(),
{
    if es.len() == 0 {
        assert(loaded(stored_all(es)) =~= session::conversation(es));
    } else {
        let front = es.drop_last();
        let e = es.last();
        stored_turns_read_back(front);
        loaded_concat(stored_all(front), stored(e));
        assert(front.push(e) =~= es);
        session::conversation_push(front, e);
        roles_differ();
        let rows = stored(e);
        if e.response is Some {
            let one = rows.drop_last();
            assert(one =~= seq![rows[0]]);
            assert(one.drop_last() =~= Seq::<StoredView>::empty());
            assert(loaded(one.drop_last()) =~= Seq::<chat::MessageView>::empty());
            assert(loaded(one) =~= loaded_one(rows[0]));
            assert(loaded(rows) =~= session::exchange_messages(e));
        } else {
            assert(rows.drop_last() =~= Seq::<StoredView>::empty());
            assert(loaded(rows.drop_last()) =~= Seq::<chat::MessageView>::empty());
            assert(loaded(rows) =~= session::exchange_messages(e));
        }
    }
    session::conversation_reads_back(es);
}

proof fn roles_differ()
    ensures
        "user"@ != "assistant"@,
{
    reveal_strlit("user");
    reveal_strlit("assistant");
    assert("user"@.len() != "assistant"@.len());
}

/// Stored messages are loaded one by one, in order: those of the user and of the assistant
/// with their text and under their role, any other not at all.
pub proof fn messages_are_loaded_in_order(rows: Seq<StoredView>, row: StoredView)
    ensures
        ({
            let before = loaded(rows);
            let after = loaded(rows.push(row));
            if row.role == "user"@ || row.role == "assistant"@ {
                &&& after.len() == before.len() + 1
                &&& after.drop_last() == before
                &&& after.last().content == row.content
                &&& row.role == "user"@ ==> after.last().role == Role::User
                &&& row.role == "assistant"@ ==> after.last().role == Role::Assistant
            } else {
                after == before
            }
        }),
        loaded(Seq::empty()).len() == 0,
{
    roles_differ();
    assert(rows.push(row).drop_last() =~= rows);
    let before = loaded(rows);
    let after = loaded(rows.push(row));
    if row.role == "user"@ || row.role == "assistant"@ {
        assert(after.drop_last() =~= before);
    } else {
        assert(after =~= before);
    }
}

/// A thread that is loaded has the conversation that was stored for it, waits for nothing,
/// and goes on from the answer that was noted.
pub proof fn loaded_threads_go_on(
    t: Thread,
    es: Seq<Exchange>,
    metadata: Option<json::JsonContent>,
)
    requires
        hydrated(t, stored_all(es), metadata),
    ensures
        t.history() == session::conversation(es),
        t.state == ThreadState::Idle,
        t.pending_approval is None,
        t.pending_auth is None,
        t.pending_messages@.len() == 0,
        metadata is None ==> t.last_response_id is None,
        metadata matches Some(m) ==> {
            let id = m.member("last_response_id"@);
            &&& id matches Some(json::JsonContent::Text(s)) ==> t.last_response_id is Some
                && t.last_response_id->0@ == s
            &&& !(id is Some && id->0 is Text) ==> t.last_response_id is None
        },
{
    stored_turns_read_back(es);
}

/// A turn is stored as the user's text, and after it the answer where there is one; before
/// either the conversation is made sure of.
pub proof fn turns_are_stored_in_order(
    writes: Seq<StoreWrite>,
    has_store: bool,
    user_input: Seq<char>,
    response: Option<Seq<char>>,
)
    requires
        writes_turn(writes, has_store, user_input, response),
    ensures
        !has_store ==> writes.len() == 0,
        has_store ==> {
            let rows = appended(writes);
            &&& writes[0] is Ensure
            &&& rows.len() == if response is Some {
                2nat
            } else {
                1
            }
            &&& rows[0].role == "user"@
            &&& rows[0].content == user_input
            &&& response matches Some(answer) ==> rows[1].role == "assistant"@ && rows[1].content
                == answer
            &&& loaded(rows) == session::conversation(
                seq![Exchange { user_input, response }],
            )
        },
{
    let e = Exchange { user_input, response };
    let es = seq![e];
    stored_turns_read_back(es);
    assert(es.drop_last() =~= Seq::<Exchange>::empty());
    assert(stored_all(es.drop_last()) =~= Seq::<StoredView>::empty());
    assert(stored_all(es) =~= stored(e));
}

/// Every append counts, in order, and nothing else appends.
pub proof fn appends_are_kept_in_order(writes: Seq<StoreWrite>, write: StoreWrite)
    ensures
        match write {
            StoreWrite::Append(m) => {
                let rows = appended(writes.push(write));
                &&& rows.len() == appended(writes).len() + 1
                &&& rows.drop_last() == appended(writes)
                &&& rows.last().role == m.role@
                &&& rows.last().content == m.content@
            },
            StoreWrite::Ensure { .. } => appended(writes.push(write)) == appended(writes),
        },
{
    assert(writes.push(write).drop_last() =~= writes);
    if let StoreWrite::Append(m) = write {
        assert(appended(writes.push(write)).drop_last() =~= appended(writes));
    }
}

/// A conversation is stored on the gateway's channel, and after that only messages are
/// appended: as many writes as there are messages, and one.
pub proof fn turns_are_stored_for_the_gateway(
    writes: Seq<StoreWrite>,
    user_input: Seq<char>,
    response: Option<Seq<char>>,
    i: int,
)
    requires
        writes_turn(writes, true, user_input, response),
        1 <= i < writes.len(),
    ensures
        writes[0] matches StoreWrite::Ensure { channel } && channel@ == "gateway"@,
        writes[i] is Append,
{
}

/// A thread that is loaded knows no channel, has no notes, and its turns neither failed nor
/// called a tool.
pub proof fn loaded_threads_have_no_past_but_their_words(
    t: Thread,
    rows: Seq<StoredView>,
    metadata: Option<json::JsonContent>,
    i: int,
)
    requires
        hydrated(t, rows, metadata),
        0 <= i < t.turns@.len(),
    ensures
        t.source_channel is None,
        json::json_content(t.metadata).members().dom() == Set::<Seq<char>>::empty(),
        t.turns@[i].error is None,
        t.turns@[i].tool_calls@.len() == 0,
{
    assert(json::json_content(t.metadata).members().dom() =~= Set::<Seq<char>>::empty());
}

} // verus!
