//! Prompts: what the model is told besides the user's own words.

use vstd::prelude::*;

use crate::chat;
use crate::chat::{ChatMessage, Role};
use crate::json;
use crate::message;
use crate::session::Session;
use crate::submission;
use crate::submission::{LoopError, SubmissionResult};
use crate::text;

verus! {

broadcast use vstd::std_specs::hash::group_hash_axioms;

/// A text, unless it is empty.
pub open spec fn present(s: Seq<char>) -> Option<Seq<char>> {
    if s.len() == 0 {
        None
    } else {
        Some(s)
    }
}

/// A text, unless it is empty.
pub fn nonempty(s: String) -> (r: Option<String>)
    ensures
        json::string_of(r) == present(s@),
{
    if s.as_str().is_empty() {
        None
    } else {
        Some(s)
    }
}

/// What goes into the system prompt of the workspace: memory and learnings only where the
/// conversation is with one user alone, and nothing that is empty.
pub struct PromptParts {
    pub include_memory: bool,
    pub logseq: Option<String>,
    pub learnings: Option<String>,
}

/// What goes into the system prompt of the workspace. `learnings` are used only where they
/// are loaded at all.
pub fn prompt_parts(channel: &str, logseq: Option<String>, learnings: Option<String>) -> (r:
    PromptParts)
    ensures
        r.include_memory == message::main_session(channel@),
        json::string_of(r.logseq) == match logseq {
            Some(s) => present(s@),
            None => None,
        },
        json::string_of(r.learnings) == if message::main_session(channel@) {
            match learnings {
                Some(s) => present(s@),
                None => None,
            }
        } else {
            None
        },
{
    let include_memory = message::is_main_session(channel);
    PromptParts {
        include_memory,
        logseq: match logseq {
            Some(s) => nonempty(s),
            None => None,
        },
        learnings: if include_memory {
            match learnings {
                Some(s) => nonempty(s),
                None => None,
            }
        } else {
            None
        },
    }
}

/// The system prompt of the workspace, where it could be loaded and is not empty.
pub fn loaded_prompt(loaded: Result<String, String>) -> (r: Option<String>)
    ensures
        json::string_of(r) == match loaded {
            Ok(s) => present(s@),
            Err(_) => None,
        },
{
    match loaded {
        Ok(s) => nonempty(s),
        Err(_) => None,
    }
}

/// The workspace's prompt and that of the skills, put together.
pub open spec fn combined(workspace: Option<Seq<char>>, skills: Option<Seq<char>>) -> Option<
    Seq<char>,
> {
    match (workspace, skills) {
        (Some(w), Some(s)) => Some(w + "\n\n"@ + s),
        (Some(w), None) => Some(w),
        (None, Some(s)) => Some(s),
        (None, None) => None,
    }
}

/// The workspace's prompt and that of the skills, put together.
pub fn combine_prompts(workspace: Option<String>, skills: Option<String>) -> (r: Option<String>)
    ensures
        json::string_of(r) == combined(json::string_of(workspace), json::string_of(skills)),
{
    match (workspace, skills) {
        (Some(w), Some(s)) => Some(text::cat3(w.as_str(), "\n\n", s.as_str())),
        (Some(w), None) => Some(w),
        (None, Some(s)) => Some(s),
        (None, None) => None,
    }
}

/// The last messages of a conversation.
pub open spec fn last_messages(messages: Seq<chat::MessageView>, count: nat) -> Seq<
    chat::MessageView,
> {
    if messages.len() > count {
        messages.skip(messages.len() - count)
    } else {
        messages
    }
}

/// The last messages of a conversation.
pub fn copy_last_messages(messages: &Vec<ChatMessage>, count: usize) -> (r: Vec<ChatMessage>)
    ensures
        chat::views(r@) == last_messages(chat::views(messages@), count as nat),
{
    let start: usize = if messages.len() > count {
        messages.len() - count
    } else {
        0
    };
    let r = chat::copy_messages_from(messages, start);
    assert(chat::views(messages@).skip(0) =~= chat::views(messages@));
    r
}

/// A question about a conversation: an instruction, the last twenty messages, and the
/// question.
pub open spec fn question(
    instruction: Seq<char>,
    history: Seq<chat::MessageView>,
    ask: Seq<char>,
) -> Seq<chat::MessageView> {
    seq![chat::MessageView::plain(Role::System, instruction)] + last_messages(history, 20).push(
        chat::MessageView::plain(Role::User, ask),
    )
}

/// What a question about a thread needs.
pub enum Question {
    /// There is nothing to do but to answer.
    Done(SubmissionResult),
    /// Ask the model.
    Ask(Vec<ChatMessage>),
}

fn ask_about(
    session: &Session,
    thread_id: u128,
    empty: &str,
    instruction: &str,
    ask: &str,
) -> (r: Result<Question, LoopError>)
    ensures
        match session.thread(thread_id) {
            None => r matches Err(e) && e.misses(thread_id),
            Some(t) => if t.history().len() == 0 {
                r matches Ok(Question::Done(result)) && result.acknowledges(empty@)
            } else {
                r matches Ok(Question::Ask(messages)) && chat::views(messages@) == question(
                    instruction@,
                    t.history(),
                    ask@,
                )
            },
        },
{
    let messages = match session.threads.get(&thread_id) {
        None => {
            return Err(LoopError::NotFound { id: thread_id });
        },
        Some(thread) => thread.messages(),
    };
    if messages.len() == 0 {
        return Ok(Question::Done(SubmissionResult::ok_with_message(empty)));
    }
    let ghost history = chat::views(messages@);
    let mut context = copy_last_messages(&messages, 20);
    let first = ChatMessage::system(instruction);
    let last = ChatMessage::user(ask);
    let ghost middle = chat::views(context@);
    context.insert(0, first);
    assert(chat::views(context@) =~= seq![first@] + middle);
    context.push(last);
    assert(chat::views(context@) =~= seq![first@] + middle.push(last@));
    Ok(Question::Ask(context))
}

/// The request for a summary of a thread.
pub fn summary_request(session: &Session, thread_id: u128) -> (r: Result<Question, LoopError>)
    ensures
        match session.thread(thread_id) {
            None => r matches Err(e) && e.misses(thread_id),
            Some(t) => if t.history().len() == 0 {
                r matches Ok(Question::Done(result)) && result.acknowledges(
                    "Nothing to summarize (empty thread)."@,
                )
            } else {
                r matches Ok(Question::Ask(messages)) && chat::views(messages@) == question(
                    "Summarize the conversation so far in 3-5 concise bullet points. Focus on decisions made, actions taken, and key outcomes. Be brief and factual."@,
                    t.history(),
                    "Summarize this conversation."@,
                )
            },
        },
{
    ask_about(
        session,
        thread_id,
        "Nothing to summarize (empty thread).",
        "Summarize the conversation so far in 3-5 concise bullet points. Focus on decisions made, actions taken, and key outcomes. Be brief and factual.",
        "Summarize this conversation.",
    )
}

/// The request for next steps in a thread.
pub fn suggestion_request(session: &Session, thread_id: u128) -> (r: Result<Question, LoopError>)
    ensures
        match session.thread(thread_id) {
            None => r matches Err(e) && e.misses(thread_id),
            Some(t) => if t.history().len() == 0 {
                r matches Ok(Question::Done(result)) && result.acknowledges(
                    "Nothing to suggest from (empty thread)."@,
                )
            } else {
                r matches Ok(Question::Ask(messages)) && chat::views(messages@) == question(
                    "Based on the conversation so far, suggest 2-4 concrete next steps the user could take. Be actionable and specific. Format as a numbered list."@,
                    t.history(),
                    "What should I do next?"@,
                )
            },
        },
{
    ask_about(
        session,
        thread_id,
        "Nothing to suggest from (empty thread).",
        "Based on the conversation so far, suggest 2-4 concrete next steps the user could take. Be actionable and specific. Format as a numbered list.",
        "What should I do next?",
    )
}

/// The result of a summary.
pub fn conclude_summary(reply: Result<String, String>) -> (r: SubmissionResult)
    ensures
        match reply {
            Ok(s) => r.replies("Thread Summary:\n\n"@ + text::trimmed(s@)),
            Err(e) => r.complains("Summarize failed: "@ + e@),
        },
{
    match reply {
        Ok(s) => SubmissionResult::Response {
            content: text::cat("Thread Summary:\n\n", text::trim(s.as_str())),
        },
        Err(e) => SubmissionResult::Error { message: text::cat("Summarize failed: ", e.as_str()) },
    }
}

/// The result of a request for next steps.
pub fn conclude_suggestion(reply: Result<String, String>) -> (r: SubmissionResult)
    ensures
        match reply {
            Ok(s) => r.replies("Suggested Next Steps:\n\n"@ + text::trimmed(s@)),
            Err(e) => r.complains("Suggest failed: "@ + e@),
        },
{
    match reply {
        Ok(s) => SubmissionResult::Response {
            content: text::cat("Suggested Next Steps:\n\n", text::trim(s.as_str())),
        },
        Err(e) => SubmissionResult::Error { message: text::cat("Suggest failed: ", e.as_str()) },
    }
}

/// What a heartbeat check found.
pub enum HeartbeatReport {
    AllClear,
    NeedsAttention(String),
    /// There is no checklist.
    Skipped,
    Failed(String),
}

/// The result of a heartbeat check that the user asked for; `None` without a workspace.
pub fn conclude_heartbeat(report: Option<HeartbeatReport>) -> (r: SubmissionResult)
    ensures
        match report {
            None => r.complains("Heartbeat requires a workspace (database must be connected)."@),
            Some(HeartbeatReport::AllClear) => r.acknowledges(
                "Heartbeat: all clear, nothing needs attention."@,
            ),
            Some(HeartbeatReport::NeedsAttention(s)) => r.replies(
                "Heartbeat findings:\n\n"@ + s@,
            ),
            Some(HeartbeatReport::Skipped) => r.acknowledges(
                "Heartbeat skipped: no HEARTBEAT.md checklist found in workspace."@,
            ),
            Some(HeartbeatReport::Failed(e)) => r.complains("Heartbeat failed: "@ + e@),
        },
{
    match report {
        None => SubmissionResult::error(
            "Heartbeat requires a workspace (database must be connected).",
        ),
        Some(HeartbeatReport::AllClear) => SubmissionResult::ok_with_message(
            "Heartbeat: all clear, nothing needs attention.",
        ),
        Some(HeartbeatReport::NeedsAttention(s)) => SubmissionResult::Response {
            content: text::cat("Heartbeat findings:\n\n", s.as_str()),
        },
        Some(HeartbeatReport::Skipped) => SubmissionResult::ok_with_message(
            "Heartbeat skipped: no HEARTBEAT.md checklist found in workspace.",
        ),
        Some(HeartbeatReport::Failed(e)) => SubmissionResult::Error {
            message: text::cat("Heartbeat failed: ", e.as_str()),
        },
    }
}

/// The prompt for the startup instructions of the workspace; none where they are blank.
pub fn boot_prompt(instructions: Option<&str>) -> (r: Option<Vec<ChatMessage>>)
    ensures
        match instructions {
            Some(s) => if text::trimmed(s@).len() == 0 {
                r is None
            } else {
                r matches Some(messages) && chat::views(messages@) == seq![
                    chat::MessageView::plain(
                        Role::User,
                        "Execute the following startup instructions. When done, reply with NO_REPLY.\n\n"@
                            + s@,
                    ),
                ]
            },
            None => r is None,
        },
{
    match instructions {
        None => None,
        Some(s) => if text::trim(s).is_empty() {
            None
        } else {
            let prompt = text::cat(
                "Execute the following startup instructions. When done, reply with NO_REPLY.\n\n",
                s,
            );
            let message = ChatMessage::user(prompt.as_str());
            let mut messages: Vec<ChatMessage> = Vec::new();
            messages.push(message);
            assert(chat::views(messages@) =~= seq![message@]);
            Some(messages)
        },
    }
}

/// The model's token for having nothing to say.
pub open spec fn no_reply(reply: Seq<char>) -> bool {
    text::trimmed(reply) == "NO_REPLY"@
}

/// What is logged of a reply to a silent turn: a preview, unless the model had nothing to
/// say.
pub fn logged_reply(reply: &str) -> (r: Option<String>)
    ensures
        json::string_of(r) == if no_reply(reply@) || reply@.len() == 0 {
            None
        } else {
            Some(text::preview(reply@, 200))
        },
{
    if text::same(text::trim(reply), "NO_REPLY") || reply.is_empty() {
        None
    } else {
        Some(text::truncate_for_preview(reply, 200))
    }
}

/// Only an empty text counts as none.
pub proof fn empty_texts_are_absent(s: Seq<char>)
    ensures
        s.len() == 0 ==> present(s) is None,
        s.len() > 0 ==> present(s) == Some(s),
{
}

/// Both prompts are in the combined one, the workspace's first; one alone is taken as it is.
pub proof fn prompts_are_combined_in_order(w: Seq<char>, s: Seq<char>)
    ensures
        combined(Some(w), Some(s)) matches Some(all) && {
            &&& text::begins_with(all, w)
            &&& all.len() > w.len() + s.len()
            &&& all.skip(all.len() - s.len()) == s
            &&& forall|i: int| w.len() <= i < all.len() - s.len() ==> #[trigger] all[i] == '\n'
        },
        combined(Some(w), None) == Some(w),
        combined(None, Some(s)) == Some(s),
        combined(None, None) is None,
{
    reveal_strlit("\n\n");
    let all = w + "\n\n"@ + s;
    assert(all.take(w.len() as int) =~= w);
    assert(all.skip(all.len() - s.len()) =~= s);
    assert forall|i: int| w.len() <= i < all.len() - s.len() implies #[trigger] all[i] == '\n' by {
        assert(all[i] == "\n\n"@[i - w.len()]);
    }
}

/// The last messages of a conversation are as many as were asked for, all of them where there
/// are no more, and none is passed over.
pub proof fn last_messages_are_the_last(messages: Seq<chat::MessageView>, count: nat)
    ensures
        ({
            let kept = last_messages(messages, count);
            &&& kept.len() == if messages.len() > count {
                count
            } else {
                messages.len()
            }
            &&& forall|i: int|
                0 <= i < kept.len() ==> #[trigger] kept[i] == messages[messages.len() - kept.len()
                    + i]
        }),
{
}

/// A question puts the instruction before the last twenty messages and the question after
/// them.
pub proof fn questions_are_about_the_last_messages(
    instruction: Seq<char>,
    history: Seq<chat::MessageView>,
    ask: Seq<char>,
)
    ensures
        ({
            let q = question(instruction, history, ask);
            let n: int = if history.len() > 20 {
                20
            } else {
                history.len() as int
            };
            &&& q.len() == n + 2
            &&& q[0].role == Role::System
            &&& q[0].content == instruction
            &&& q.last().role == Role::User
            &&& q.last().content == ask
            &&& q.subrange(1, n + 1) == history.skip(history.len() - n)
        }),
{
    let q = question(instruction, history, ask);
    let n: int = if history.len() > 20 {
        20
    } else {
        history.len() as int
    };
    assert(q.subrange(1, n + 1) =~= history.skip(history.len() - n));
}

/// The model has nothing to say where its reply is the token for that, whatever white space
/// is around it, and only there.
pub proof fn only_the_token_is_no_reply(reply: Seq<char>, before: Seq<char>, after: Seq<char>)
    requires
        forall|i: int| 0 <= i < before.len() ==> text::white(#[trigger] before[i]),
        forall|i: int| 0 <= i < after.len() ==> text::white(#[trigger] after[i]),
    ensures
        no_reply(before + "NO_REPLY"@ + after),
        no_reply(reply) ==> submission::names(reply, "NO_REPLY"@) && text::dark(reply).len() == 8,
{
    reveal_strlit("NO_REPLY");
    text::white_space_around_is_dropped(before, "NO_REPLY"@, after);
    if no_reply(reply) {
        let r = text::trimming_takes_white_space_off(reply);
        assert(reply.subrange(r.0, r.0 + 8) == "NO_REPLY"@);
        text::dark_ignores_white_space(reply, r.0, r.1);
        text::dark_of_dark("NO_REPLY"@);
    }
}

} // verus!
