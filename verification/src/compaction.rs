//! Bookkeeping for the compaction of a thread's context.
//!
//! A thread counts its compactions in its metadata. Before a compaction the model can be
//! given one silent turn to write down what it wants to remember; the metadata says for
//! which compaction that was done last.

use vstd::prelude::*;

use crate::json;
use crate::session;
use crate::session::{Session, Thread};
use crate::submission::LoopError;
use crate::text;

verus! {

broadcast use vstd::std_specs::hash::group_hash_axioms;

/// The number of the next compaction, from one.
pub open spec fn next_count(metadata: json::JsonContent) -> int {
    match metadata.count_at("compaction_count"@) {
        Some(n) => n + 1,
        None => 1,
    }
}

/// A memory flush comes before the next compaction: it is enabled, there is a workspace to
/// write to, and there was none for this compaction yet.
pub open spec fn flush_due(metadata: json::JsonContent, enabled: bool, workspace: bool) -> bool {
    &&& enabled
    &&& workspace
    &&& !(metadata.count_at("memory_flush_compaction_count"@) matches Some(n) && n == next_count(
        metadata,
    ))
}

/// The metadata with a number under a key; what is no object becomes one first.
pub open spec fn counted(metadata: json::JsonContent, key: Seq<char>, n: u64) -> json::JsonContent {
    json::JsonContent::Object(
        metadata.members().insert(
            key,
            json::JsonContent::Number(text::decimal(n as nat), Some(n)),
        ),
    )
}

/// A compaction to be done.
pub struct Compaction {
    pub count: u64,
    pub run_flush: bool,
}

/// Makes the metadata of a thread an object.
pub fn ensure_metadata_object(thread: &mut Thread)
    ensures
        *final(thread) == (Thread { metadata: final(thread).metadata, ..*old(thread) }),
        json::json_content(final(thread).metadata) is Object,
        json::json_content(final(thread).metadata).members() == json::json_content(
            old(thread).metadata,
        ).members(),
        json::json_content(old(thread).metadata) is Object ==> *final(thread) == *old(thread),
{
    if !json::is_object(&thread.metadata) {
        thread.metadata = json::empty_object();
    }
}

fn set_count(thread: &mut Thread, key: &str, n: u64)
    ensures
        *final(thread) == (Thread { metadata: final(thread).metadata, ..*old(thread) }),
        json::json_content(final(thread).metadata) == counted(
            json::json_content(old(thread).metadata),
            key@,
            n,
        ),
{
    ensure_metadata_object(thread);
    json::insert(&mut thread.metadata, key, json::from_count(n));
}

/// The thread once a compaction has begun.
pub open spec fn begun(old: Thread, new: Thread, count: u64, run_flush: bool) -> bool {
    if run_flush {
        &&& new == (Thread { metadata: new.metadata, ..old })
        &&& json::json_content(new.metadata) == counted(
            json::json_content(old.metadata),
            "memory_flush_compaction_count"@,
            count,
        )
    } else {
        new == old
    }
}

/// Decides on the memory flush before a compaction, and notes that it is done.
pub fn begin_compaction(
    session: &mut Session,
    thread_id: u128,
    flush_enabled: bool,
    has_workspace: bool,
) -> (r: Result<Compaction, LoopError>)
    requires
        old(session).thread(thread_id) matches Some(t) ==> next_count(
            json::json_content(t.metadata),
        ) <= u64::MAX,
    ensures
        match old(session).thread(thread_id) {
            None => r matches Err(e) && e.misses(thread_id) && session::untouched(
                *old(session),
                *final(session),
            ),
            Some(t) => {
                &&& r matches Ok(c)
                &&& c.count == next_count(json::json_content(t.metadata))
                &&& c.run_flush == flush_due(
                    json::json_content(t.metadata),
                    flush_enabled,
                    has_workspace,
                )
                &&& final(session).thread(thread_id) matches Some(n)
                &&& begun(t, n, c.count, c.run_flush)
                &&& session::refiled(*old(session), *final(session), thread_id, n)
            },
        },
{
    let ghost before = session.threads@;
    match session.take(thread_id) {
        None => {
            assert(session.threads@ =~= before);
            Err(LoopError::NotFound { id: thread_id })
        },
        Some(mut thread) => {
            let count: u64 = match json::count_member(&thread.metadata, "compaction_count") {
                Some(n) => n + 1,
                None => 1,
            };
            let last_flush = json::count_member(
                &thread.metadata,
                "memory_flush_compaction_count",
            );
            let run_flush = flush_enabled && has_workspace && last_flush != Some(count);
            if run_flush {
                set_count(&mut thread, "memory_flush_compaction_count", count);
            }
            session.put(thread_id, thread);
            assert(session.threads@ =~= before.insert(thread_id, thread));
            Ok(Compaction { count, run_flush })
        },
    }
}

/// Does what [`begin_compaction`] does where the count of compactions has room for one
/// more; `None`, and no change, where it has not.
pub fn begin_compaction_if_counted(
    session: &mut Session,
    thread_id: u128,
    flush_enabled: bool,
    has_workspace: bool,
) -> (r: Option<Result<Compaction, LoopError>>)
    ensures
        match old(session).thread(thread_id) {
            None => r matches Some(Err(e)) && e.misses(thread_id) && session::untouched(
                *old(session),
                *final(session),
            ),
            Some(t) => if next_count(json::json_content(t.metadata)) > u64::MAX {
                r is None && *final(session) == *old(session)
            } else {
                &&& r matches Some(Ok(c))
                &&& c.count == next_count(json::json_content(t.metadata))
                &&& c.run_flush == flush_due(
                    json::json_content(t.metadata),
                    flush_enabled,
                    has_workspace,
                )
                &&& final(session).thread(thread_id) matches Some(n)
                &&& begun(t, n, c.count, c.run_flush)
                &&& session::refiled(*old(session), *final(session), thread_id, n)
            },
        },
{
    let full: bool = match session.threads.get(&thread_id) {
        Some(thread) => json::count_member(&thread.metadata, "compaction_count") == Some(u64::MAX),
        None => false,
    };
    if full {
        None
    } else {
        Some(begin_compaction(session, thread_id, flush_enabled, has_workspace))
    }
}

/// Writes the count of a compaction into its thread.
pub fn record_compaction(session: &mut Session, thread_id: u128, count: u64) -> (r: Result<
    (),
    LoopError,
>)
    ensures
        match old(session).thread(thread_id) {
            None => r matches Err(e) && e.misses(thread_id) && session::untouched(
                *old(session),
                *final(session),
            ),
            Some(t) => {
                &&& r is Ok
                &&& final(session).thread(thread_id) matches Some(n)
                &&& n == (Thread { metadata: n.metadata, ..t })
                &&& json::json_content(n.metadata) == counted(
                    json::json_content(t.metadata),
                    "compaction_count"@,
                    count,
                )
                &&& session::refiled(*old(session), *final(session), thread_id, n)
            },
        },
{
    let ghost before = session.threads@;
    match session.take(thread_id) {
        None => {
            assert(session.threads@ =~= before);
            Err(LoopError::NotFound { id: thread_id })
        },
        Some(mut thread) => {
            set_count(&mut thread, "compaction_count", count);
            session.put(thread_id, thread);
            assert(session.threads@ =~= before.insert(thread_id, thread));
            Ok(())
        },
    }
}

/// The two keys that the bookkeeping uses differ.
proof fn keys_differ()
    ensures
        "compaction_count"@ != "memory_flush_compaction_count"@,
{
    reveal_strlit("compaction_count");
    reveal_strlit("memory_flush_compaction_count");
    assert("compaction_count"@[0] != "memory_flush_compaction_count"@[0]);
}

/// A flush is not repeated for one compaction: once it is noted, none is due until the
/// compaction has been counted.
pub proof fn flush_runs_once(
    before: json::JsonContent,
    after: json::JsonContent,
    count: u64,
    enabled: bool,
    workspace: bool,
)
    requires
        count == next_count(before),
        after == counted(before, "memory_flush_compaction_count"@, count),
    ensures
        next_count(after) == count,
        !flush_due(after, enabled, workspace),
{
    keys_differ();
}

/// Once a compaction has been counted, the next one has the next number, and a flush is due
/// for it wherever flushes are enabled.
pub proof fn next_compaction_flushes_again(
    before: json::JsonContent,
    after: json::JsonContent,
    count: u64,
    enabled: bool,
    workspace: bool,
)
    requires
        count == next_count(before),
        before.count_at("memory_flush_compaction_count"@) matches Some(n) ==> n <= count,
        after == counted(before, "compaction_count"@, count),
    ensures
        next_count(after) == count + 1,
        flush_due(after, enabled, workspace) == (enabled && workspace),
{
    keys_differ();
}

/// How a compaction that the user asks for is done.
#[derive(Clone, Copy, Debug, PartialEq, Eq, Structural)]
pub enum CompactionChoice {
    /// In the way that the state of the context suggests.
    Suggested,
    /// By a summary of all but the last turns.
    Summarize { keep_recent: usize },
}

/// How a compaction that the user asks for is done: without a suggestion, the last five
/// turns are kept.
pub fn manual_compaction(suggested: bool) -> (r: CompactionChoice)
    ensures
        r == if suggested {
            CompactionChoice::Suggested
        } else {
            CompactionChoice::Summarize { keep_recent: 5 }
        },
{
    if suggested {
        CompactionChoice::Suggested
    } else {
        CompactionChoice::Summarize { keep_recent: 5 }
    }
}

/// A number that is noted in the metadata reads back, and every other member stays.
pub proof fn noted_numbers_read_back(
    metadata: json::JsonContent,
    key: Seq<char>,
    n: u64,
    other: Seq<char>,
)
    ensures
        counted(metadata, key, n).count_at(key) == Some(n),
        other != key ==> counted(metadata, key, n).member(other) == metadata.member(other),
        counted(metadata, key, n) is Object,
{
}

/// The first compaction of a thread is number one, and each is one more than the last.
pub proof fn compactions_are_counted_on(metadata: json::JsonContent, n: u64)
    ensures
        metadata.count_at("compaction_count"@) is None ==> next_count(metadata) == 1,
        metadata.count_at("compaction_count"@) == Some(n) ==> next_count(metadata) == n as int + 1,
        next_count(metadata) >= 1,
{
}

/// A flush needs to be enabled and needs a workspace; where both hold, it is left out only
/// if it was noted for this very compaction.
pub proof fn flush_needs_a_place_to_write(
    metadata: json::JsonContent,
    enabled: bool,
    workspace: bool,
)
    ensures
        flush_due(metadata, enabled, workspace) ==> enabled && workspace,
        enabled && workspace && metadata.count_at("memory_flush_compaction_count"@) is None
            ==> flush_due(metadata, enabled, workspace),
        enabled && workspace && metadata.count_at("memory_flush_compaction_count"@) is Some ==> (
        flush_due(metadata, enabled, workspace) <==> metadata.count_at(
            "memory_flush_compaction_count"@,
        )->0 != next_count(metadata)),
{
}

/// Beginning a compaction touches nothing of a thread but the note on the flush.
pub proof fn beginning_touches_the_note_only(
    old: Thread,
    new: Thread,
    count: u64,
    run_flush: bool,
)
    requires
        begun(old, new, count, run_flush),
    ensures
        new.turns == old.turns,
        new.state == old.state,
        new.pending_messages == old.pending_messages,
        !run_flush ==> new == old,
        run_flush ==> json::json_content(new.metadata).count_at("memory_flush_compaction_count"@)
            == Some(count) && json::json_content(new.metadata).member("compaction_count"@)
            == json::json_content(old.metadata).member("compaction_count"@),
{
    keys_differ();
}

} // verus!
