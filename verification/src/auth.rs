//! Extensions that wait for a token.

use serde_json::Value;
use vstd::prelude::*;

use crate::json;
use crate::notice;
use crate::notice::Notice;
use crate::session;
use crate::session::{Session, Thread};
use crate::text;

verus! {

/// The links that a user follows to get a token.
pub struct AuthLinks {
    pub auth_url: Option<String>,
    pub setup_url: Option<String>,
}

/// A request for a token: for which extension, and what to tell the user.
pub struct TokenRequest {
    pub extension_name: String,
    pub instructions: String,
}

/// The tree that a tool's output spells.
pub open spec fn output_content(outcome: Result<String, String>) -> Option<json::JsonContent> {
    match outcome {
        Ok(output) => json::parsed_json(output@),
        Err(_) => None,
    }
}

/// The tree of an optional value.
pub open spec fn content_of(value: Option<&Value>) -> Option<json::JsonContent> {
    match value {
        Some(v) => Some(json::json_content(*v)),
        None => None,
    }
}

/// The string member of an optional tree.
pub open spec fn text_in(content: Option<json::JsonContent>, key: Seq<char>) -> Option<Seq<char>> {
    match content {
        Some(c) => c.text_at(key),
        None => None,
    }
}

/// The request for a token that a tool's output holds. Only the two tools that deal with
/// extensions can make one, by setting `awaiting_token`.
pub open spec fn token_request(tool: Seq<char>, content: Option<json::JsonContent>) -> Option<
    (Seq<char>, Seq<char>),
> {
    if tool != "tool_auth"@ && tool != "tool_activate"@ {
        None
    } else {
        match content {
            None => None,
            Some(c) => if c.flag_at("awaiting_token"@) != Some(true) {
                None
            } else {
                match c.text_at("name"@) {
                    None => None,
                    Some(name) => Some(
                        (
                            name,
                            match c.text_at("instructions"@) {
                                Some(t) => t,
                                None => "Please provide your API token/key."@,
                            },
                        ),
                    ),
                }
            },
        }
    }
}

/// The texts of an optional request.
pub open spec fn request_of(r: Option<TokenRequest>) -> Option<(Seq<char>, Seq<char>)> {
    match r {
        Some(t) => Some((t.extension_name@, t.instructions@)),
        None => None,
    }
}

/// The links in a parsed tool output.
pub fn auth_links(parsed: Option<&Value>) -> (r: AuthLinks)
    ensures
        json::string_of(r.auth_url) == text_in(content_of(parsed), "auth_url"@),
        json::string_of(r.setup_url) == text_in(content_of(parsed), "setup_url"@),
{
    match parsed {
        None => AuthLinks { auth_url: None, setup_url: None },
        Some(v) => AuthLinks {
            auth_url: match json::text_member(v, "auth_url") {
                Some(s) => Some(s.to_owned()),
                None => None,
            },
            setup_url: match json::text_member(v, "setup_url") {
                Some(s) => Some(s.to_owned()),
                None => None,
            },
        },
    }
}

/// The links in a tool's output.
pub fn parse_auth_result(outcome: &Result<String, String>) -> (r: AuthLinks)
    ensures
        json::string_of(r.auth_url) == text_in(output_content(*outcome), "auth_url"@),
        json::string_of(r.setup_url) == text_in(output_content(*outcome), "setup_url"@),
{
    match outcome {
        Err(_) => auth_links(None),
        Ok(output) => match json::parse(output.as_str()) {
            Some(v) => auth_links(Some(&v)),
            None => auth_links(None),
        },
    }
}

/// The request for a token in a parsed tool output.
pub fn awaited_token(tool_name: &str, parsed: Option<&Value>) -> (r: Option<TokenRequest>)
    ensures
        request_of(r) == token_request(tool_name@, content_of(parsed)),
{
    if !text::same(tool_name, "tool_auth") && !text::same(tool_name, "tool_activate") {
        return None;
    }
    let v = match parsed {
        Some(v) => v,
        None => {
            return None;
        },
    };
    if json::flag_member(v, "awaiting_token") != Some(true) {
        return None;
    }
    match json::text_member(v, "name") {
        None => None,
        Some(name) => Some(
            TokenRequest {
                extension_name: name.to_owned(),
                instructions: match json::text_member(v, "instructions") {
                    Some(t) => t.to_owned(),
                    None => "Please provide your API token/key.".to_owned(),
                },
            },
        ),
    }
}

/// The request for a token in a tool's output.
pub fn detect_auth_awaiting(tool_name: &str, outcome: &Result<String, String>) -> (r: Option<
    TokenRequest,
>)
    ensures
        request_of(r) == token_request(tool_name@, output_content(*outcome)),
{
    match outcome {
        Err(_) => awaited_token(tool_name, None),
        Ok(output) => match json::parse(output.as_str()) {
            Some(v) => awaited_token(tool_name, Some(&v)),
            None => awaited_token(tool_name, None),
        },
    }
}

/// The status update that asks for a token.
pub open spec fn token_notice(
    request: (Seq<char>, Seq<char>),
    content: Option<json::JsonContent>,
) -> notice::NoticeView {
    notice::NoticeView::AuthRequired {
        extension_name: request.0,
        instructions: Some(request.1),
        auth_url: text_in(content, "auth_url"@),
        setup_url: text_in(content, "setup_url"@),
    }
}

/// The status update that asks for a token.
pub fn auth_required(request: &TokenRequest, links: AuthLinks) -> (r: Notice)
    ensures
        r@ == (notice::NoticeView::AuthRequired {
            extension_name: request.extension_name@,
            instructions: Some(request.instructions@),
            auth_url: json::string_of(links.auth_url),
            setup_url: json::string_of(links.setup_url),
        }),
{
    Notice::AuthRequired {
        extension_name: request.extension_name.clone(),
        instructions: Some(request.instructions.clone()),
        auth_url: links.auth_url,
        setup_url: links.setup_url,
    }
}

/// The thread outside auth mode.
pub open spec fn without_auth(thread: Option<Thread>) -> Option<Thread> {
    match thread {
        Some(t) => Some(Thread { pending_auth: None, ..t }),
        None => None,
    }
}

/// Takes a thread out of auth mode.
pub fn clear_auth(session: &mut Session, thread_id: u128)
    ensures
        session::updated(
            *old(session),
            *final(session),
            thread_id,
            without_auth(old(session).thread(thread_id)),
        ),
{
    let ghost before = session.threads@;
    match session.take(thread_id) {
        Some(mut thread) => {
            thread.pending_auth = None;
            session.put(thread_id, thread);
            assert(session.threads@ =~= before.insert(thread_id, thread));
        },
        None => {
            assert(session.threads@ =~= before);
        },
    }
}

/// The thread in auth mode for an extension.
pub open spec fn with_auth(old: Option<Thread>, new: Option<Thread>, extension: Seq<char>) -> bool {
    match (old, new) {
        (Some(o), Some(n)) => {
            &&& n == (Thread { pending_auth: n.pending_auth, ..o })
            &&& n.pending_auth matches Some(p)
            &&& p.extension_name@ == extension
        },
        (None, None) => true,
        _ => false,
    }
}

/// `new` is `old` but that the thread under `id`, where there is one, is in auth mode.
pub open spec fn enters_auth(old: Session, new: Session, id: u128, extension: Seq<char>) -> bool {
    &&& with_auth(old.thread(id), new.thread(id), extension)
    &&& session::updated(old, new, id, new.thread(id))
}

/// Puts a thread into auth mode.
pub fn enter_auth(session: &mut Session, thread_id: u128, extension: &str)
    ensures
        enters_auth(*old(session), *final(session), thread_id, extension@),
{
    let ghost before = session.threads@;
    match session.take(thread_id) {
        Some(mut thread) => {
            thread.enter_auth_mode(extension.to_owned());
            session.put(thread_id, thread);
            assert(session.threads@ =~= before.insert(thread_id, thread));
        },
        None => {
            assert(session.threads@ =~= before);
        },
    }
}

/// What an extension says to a token.
pub struct AuthReport {
    pub status: String,
    pub instructions: Option<String>,
    pub auth_url: Option<String>,
    pub setup_url: Option<String>,
}

/// The next step with a token.
pub enum TokenStep {
    /// Hand the token to the extension.
    Authenticate { token: String },
    /// The token was accepted: activate the extension.
    Activate,
    /// Show the status update, where there is one, and answer with the text.
    Reply { notice: Option<Notice>, message: String },
}

impl TokenStep {
    /// The step is to show this status update and answer with this text.
    pub open spec fn says(self, shown: Option<notice::NoticeView>, text: Seq<char>) -> bool {
        &&& self matches TokenStep::Reply { notice, message }
        &&& message@ == text
        &&& shown == match notice {
            Some(n) => Some(n@),
            None => None,
        }
    }
}

/// Begins to handle a token. The thread leaves auth mode whatever comes of it, and nothing
/// else of the session changes: the token reaches no turn.
pub fn begin_token(session: &mut Session, thread_id: u128, token: &str, manager: bool) -> (r:
    TokenStep)
    ensures
        session::updated(
            *old(session),
            *final(session),
            thread_id,
            without_auth(old(session).thread(thread_id)),
        ),
        if manager {
            r matches TokenStep::Authenticate { token: t } && t@ == text::trimmed(token@)
        } else {
            r.says(None, "Extension manager not available."@)
        },
{
    clear_auth(session, thread_id);
    if manager {
        TokenStep::Authenticate { token: text::trim(token).to_owned() }
    } else {
        TokenStep::Reply {
            notice: None,
            message: "Extension manager not available.".to_owned(),
        }
    }
}

/// What the user is told when a token was turned down.
pub open spec fn retry_text(report: AuthReport) -> Seq<char> {
    match report.instructions {
        Some(s) => s@,
        None => "Invalid token. Please try again."@,
    }
}

/// Goes on once the extension has seen the token: a token that it turns down puts the
/// thread back into auth mode.
pub fn after_authenticate(
    session: &mut Session,
    thread_id: u128,
    extension_name: &str,
    outcome: Result<AuthReport, String>,
) -> (r: TokenStep)
    ensures
        match outcome {
            Ok(report) => if report.status@ == "authenticated"@ {
                r is Activate && *final(session) == *old(session)
            } else {
                r.says(
                    Some(
                        notice::NoticeView::AuthRequired {
                            extension_name: extension_name@,
                            instructions: Some(retry_text(report)),
                            auth_url: json::string_of(report.auth_url),
                            setup_url: json::string_of(report.setup_url),
                        },
                    ),
                    retry_text(report),
                ) && enters_auth(*old(session), *final(session), thread_id, extension_name@)
            },
            Err(e) => {
                let text = "Authentication failed for "@ + extension_name@ + ": "@ + e@;
                r.says(
                    Some(
                        notice::NoticeView::AuthCompleted {
                            extension_name: extension_name@,
                            success: false,
                            message: text,
                        },
                    ),
                    text,
                ) && *final(session) == *old(session)
            },
        },
{
    match outcome {
        Ok(report) => if text::same(report.status.as_str(), "authenticated") {
            TokenStep::Activate
        } else {
            enter_auth(session, thread_id, extension_name);
            let message: String = match &report.instructions {
                Some(s) => s.clone(),
                None => "Invalid token. Please try again.".to_owned(),
            };
            TokenStep::Reply {
                notice: Some(
                    Notice::AuthRequired {
                        extension_name: extension_name.to_owned(),
                        instructions: Some(message.clone()),
                        auth_url: report.auth_url,
                        setup_url: report.setup_url,
                    },
                ),
                message,
            }
        },
        Err(e) => {
            let message = text::cat(
                text::cat3("Authentication failed for ", extension_name, ": ").as_str(),
                e.as_str(),
            );
            TokenStep::Reply {
                notice: Some(
                    Notice::AuthCompleted {
                        extension_name: extension_name.to_owned(),
                        success: false,
                        message: message.clone(),
                    },
                ),
                message,
            }
        },
    }
}

/// What the user is told once an extension has been activated.
pub open spec fn activation_text(extension: Seq<char>, outcome: Result<Vec<String>, String>) -> Seq<
    char,
> {
    match outcome {
        Ok(tools) => extension + " authenticated and activated ("@ + text::decimal(tools@.len())
            + " tools loaded)."@ + if tools@.len() == 0 {
            seq![]
        } else {
            "\n\nTools: "@ + text::joined(text::texts(tools@), ", "@)
        },
        Err(e) => extension + " authenticated successfully, but activation failed: "@ + e@
            + ". Try activating manually."@,
    }
}

/// Ends the handling of a token that the extension accepted.
pub fn after_activate(extension_name: &str, outcome: Result<Vec<String>, String>) -> (r: TokenStep)
    ensures
        r.says(
            Some(
                notice::NoticeView::AuthCompleted {
                    extension_name: extension_name@,
                    success: true,
                    message: activation_text(extension_name@, outcome),
                },
            ),
            activation_text(extension_name@, outcome),
        ),
{
    let message: String = match &outcome {
        Ok(tools) => {
            let list: String = if tools.len() == 0 {
                String::new()
            } else {
                text::cat("\n\nTools: ", text::join(tools, ", ").as_str())
            };
            text::cat3(
                text::cat3(
                    extension_name,
                    " authenticated and activated (",
                    text::number_text(tools.len() as u128).as_str(),
                ).as_str(),
                " tools loaded).",
                list.as_str(),
            )
        },
        Err(e) => text::cat3(
            text::cat(
                extension_name,
                " authenticated successfully, but activation failed: ",
            ).as_str(),
            e.as_str(),
            ". Try activating manually.",
        ),
    };
    assert(message@ =~= activation_text(extension_name@, outcome));
    TokenStep::Reply {
        notice: Some(
            Notice::AuthCompleted {
                extension_name: extension_name.to_owned(),
                success: true,
                message: message.clone(),
            },
        ),
        message,
    }
}

/// A token is awaited exactly where one of the two tools for extensions says so and names
/// the extension; the user is told what the tool says, or asked in general words.
pub proof fn tokens_are_awaited_on_request(tool: Seq<char>, content: Option<json::JsonContent>)
    ensures
        ({
            let r = token_request(tool, content);
            &&& r is Some <==> {
                &&& tool == "tool_auth"@ || tool == "tool_activate"@
                &&& content is Some
                &&& content->0.flag_at("awaiting_token"@) == Some(true)
                &&& content->0.text_at("name"@) is Some
            }
            &&& r matches Some(q) ==> {
                let c = content->0;
                &&& c.text_at("name"@) == Some(q.0)
                &&& c.text_at("instructions"@) is Some ==> c.text_at("instructions"@) == Some(q.1)
                &&& q.1.len() > 0 || c.text_at("instructions"@) is Some
            }
        }),
{
    reveal_strlit("Please provide your API token/key.");
}

/// A tool that failed asks for no token.
pub proof fn failures_await_nothing(tool: Seq<char>, e: String)
    ensures
        token_request(tool, output_content(Err(e))) is None,
{
}

/// What a tool gave back is read as the JSON that it spells.
pub proof fn outputs_are_read_as_json(output: String, key: Seq<char>)
    ensures
        output_content(Ok(output)) == json::parsed_json(output@),
        text_in(output_content(Ok(output)), key) == match json::parsed_json(output@) {
            Some(c) => c.text_at(key),
            None => None,
        },
{
}

/// The status update that asks for a token names the extension, says what to do and carries
/// the links of the tool's output.
pub proof fn token_notices_carry_the_request(
    request: (Seq<char>, Seq<char>),
    content: json::JsonContent,
)
    ensures
        token_notice(request, Some(content)) matches notice::NoticeView::AuthRequired {
            extension_name,
            instructions,
            auth_url,
            setup_url,
        } && extension_name == request.0 && instructions == Some(request.1) && auth_url
            == content.text_at("auth_url"@) && setup_url == content.text_at("setup_url"@),
{
}

/// Leaving auth mode drops the awaited token and nothing else; entering it concerns the
/// extension alone.
pub proof fn auth_mode_is_all_that_changes(
    old: Session,
    new: Session,
    id: u128,
    extension: Seq<char>,
    t: Thread,
)
    ensures
        without_auth(Some(t)) matches Some(n) && n.pending_auth is None && n.turns == t.turns
            && n.state == t.state && n.pending_approval == t.pending_approval
            && n.pending_messages == t.pending_messages && n.metadata == t.metadata,
        without_auth(None) is None,
        enters_auth(old, new, id, extension) && old.thread(id) is Some ==> {
            let o = old.thread(id)->0;
            &&& new.thread(id) matches Some(n)
            &&& n.pending_auth matches Some(p)
            &&& p.extension_name@ == extension
            &&& n.turns == o.turns
            &&& n.state == o.state
            &&& n.pending_approval == o.pending_approval
            &&& n.pending_messages == o.pending_messages
        },
        enters_auth(old, new, id, extension) && old.thread(id) is None ==> new.thread(id) is None,
{
}

/// A token that was turned down is explained in the extension's own words where it has any,
/// and never in silence.
pub proof fn retries_are_explained(report: AuthReport)
    ensures
        report.instructions matches Some(s) ==> retry_text(report) == s@,
        report.instructions is None ==> retry_text(report).len() > 0,
{
    reveal_strlit("Invalid token. Please try again.");
}

/// Once an extension is activated, the user is told its name and every tool that it brings;
/// a failed activation is told with its reason.
pub proof fn activations_are_told(extension: Seq<char>, outcome: Result<Vec<String>, String>)
    ensures
        text::begins_with(activation_text(extension, outcome), extension),
        outcome matches Ok(tools) ==> tools@.len() > 0 ==> {
            let t = activation_text(extension, outcome);
            let list = text::joined(text::texts(tools@), ", "@);
            t.len() >= list.len() && t.skip(t.len() - list.len()) == list
        },
        outcome matches Err(e) ==> exists|i: int|
            0 <= i <= activation_text(extension, outcome).len() - e@.len()
                && #[trigger] activation_text(extension, outcome).subrange(i, i + e@.len()) == e@,
{
    let t = activation_text(extension, outcome);
    assert(t.take(extension.len() as int) =~= extension);
    match outcome {
        Ok(tools) => {
            if tools@.len() > 0 {
                let list = text::joined(text::texts(tools@), ", "@);
                assert(t.skip(t.len() - list.len()) =~= list);
            }
        },
        Err(e) => {
            let i = (extension
                + " authenticated successfully, but activation failed: "@).len() as int;
            assert(t.subrange(i, i + e@.len()) =~= e@);
        },
    }
}

/// What is answered to a token is one text, with the status update that goes with it.
pub proof fn token_answers_say_one_text(
    step: TokenStep,
    shown: Option<notice::NoticeView>,
    text: Seq<char>,
)
    ensures
        step.says(shown, text) <==> {
            &&& step is Reply
            &&& step->message@ == text
            &&& step->notice is Some <==> shown is Some
            &&& shown is Some ==> step->notice->0@ == shown->0
        },
{
}

/// Waiting for a token touches the thread that waits and nothing else of the session.
pub proof fn one_thread_waits_for_a_token(
    old: Session,
    new: Session,
    id: u128,
    extension: Seq<char>,
    other: u128,
    tool: Seq<char>,
)
    requires
        enters_auth(old, new, id, extension),
        other != id,
    ensures
        new.thread(other) == old.thread(other),
        new.active_thread == old.active_thread,
        new.last_active_at == old.last_active_at,
        new.auto_approves(tool) == old.auto_approves(tool),
        old.thread(id) is Some ==> new.thread(id) is Some && new.thread(id)->0.pending_auth is Some
            && new.thread(id)->0.pending_auth->0.extension_name@ == extension,
{
}

} // verus!
