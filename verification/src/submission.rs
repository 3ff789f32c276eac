//! What a user can submit, and what comes of it.

use serde_json::Value;
use vstd::prelude::*;

use crate::text;

verus! {

/// What a `/plan` command asks for.
pub enum PlanSubcommand {
    Create { description: String },
    Approve { plan_ref: Option<String> },
    Status { plan_ref: Option<String> },
    Revise { plan_ref: Option<String>, feedback: String },
    List,
}

/// How an authentication gate was resolved.
pub enum AuthGateResolution {
    Cancelled,
    CredentialProvided { token: String },
}

/// A parsed message.
pub enum Submission {
    UserInput { content: String },
    ApprovalResponse { approved: bool, always: bool },
    ExecApproval { request_id: u128, approved: bool, always: bool },
    ExternalCallback { request_id: u128 },
    GateAuthResolution { request_id: u128, resolution: AuthGateResolution },
    SystemCommand { command: String, args: Vec<String> },
    Undo,
    Redo,
    Interrupt,
    Compact,
    Clear,
    NewThread,
    Heartbeat,
    Summarize,
    Suggest,
    Quit,
    SwitchThread { thread_id: u128 },
    Resume { checkpoint_id: u128 },
    ListThreads,
    Expected { description: String },
    PairingClaim { channel: String, code: String },
    Plan { sub: PlanSubcommand },
}

/// What handling a submission led to.
#[allow(inconsistent_fields)]
pub enum SubmissionResult {
    Response { content: String },
    Acknowledged { message: Option<String> },
    Error { message: String },
    Interrupted,
    AuthPending,
    NeedApproval { request_id: u128, tool_name: String, description: String, parameters: Value },
}

/// Why a turn could not go on.
pub enum LoopError {
    /// There is no such thread or job.
    NotFound { id: u128 },
    /// The work on a thread or job was cut off.
    ContextError { id: u128, reason: String },
    /// The model or the loop around it broke its protocol.
    InvalidResponse { provider: String, reason: String },
    /// A failure reported from outside, by its text.
    Other(String),
}

impl LoopError {
    /// There is nothing under this id.
    pub open spec fn misses(self, id: u128) -> bool {
        self matches LoopError::NotFound { id: i } && i == id
    }
}

impl SubmissionResult {
    /// A reply with this text.
    pub open spec fn replies(self, content: Seq<char>) -> bool {
        self matches SubmissionResult::Response { content: c } && c@ == content
    }

    /// An acknowledgement with this text.
    pub open spec fn acknowledges(self, message: Seq<char>) -> bool {
        self matches SubmissionResult::Acknowledged { message: m } && m is Some && m->0@ == message
    }

    /// An error with this text.
    pub open spec fn complains(self, message: Seq<char>) -> bool {
        self matches SubmissionResult::Error { message: m } && m@ == message
    }

    pub fn response(content: &str) -> (r: SubmissionResult)
        ensures
            r.replies(content@),
    {
        SubmissionResult::Response { content: content.to_owned() }
    }

    pub fn ok_with_message(message: &str) -> (r: SubmissionResult)
        ensures
            r.acknowledges(message@),
    {
        SubmissionResult::Acknowledged { message: Some(message.to_owned()) }
    }

    pub fn error(message: &str) -> (r: SubmissionResult)
        ensures
            r.complains(message@),
    {
        SubmissionResult::Error { message: message.to_owned() }
    }
}

fn copy_optional(s: &Option<String>) -> (r: Option<String>)
    ensures
        r == *s,
{
    match s {
        Some(t) => Some(t.clone()),
        None => None,
    }
}

impl PlanSubcommand {
    /// A copy of the command.
    pub fn copy(&self) -> (r: PlanSubcommand)
        ensures
            r == *self,
    {
        match self {
            PlanSubcommand::Create { description } => PlanSubcommand::Create {
                description: description.clone(),
            },
            PlanSubcommand::Approve { plan_ref } => PlanSubcommand::Approve {
                plan_ref: copy_optional(plan_ref),
            },
            PlanSubcommand::Status { plan_ref } => PlanSubcommand::Status {
                plan_ref: copy_optional(plan_ref),
            },
            PlanSubcommand::Revise { plan_ref, feedback } => PlanSubcommand::Revise {
                plan_ref: copy_optional(plan_ref),
                feedback: feedback.clone(),
            },
            PlanSubcommand::List => PlanSubcommand::List,
        }
    }
}

impl AuthGateResolution {
    /// A copy of the resolution.
    pub fn copy(&self) -> (r: AuthGateResolution)
        ensures
            r == *self,
    {
        match self {
            AuthGateResolution::Cancelled => AuthGateResolution::Cancelled,
            AuthGateResolution::CredentialProvided { token } =>
                AuthGateResolution::CredentialProvided { token: token.clone() },
        }
    }
}

/// Whether `r` holds what an optional submission holds.
pub open spec fn copied(s: Option<Submission>, r: Option<Submission>) -> bool {
    match s {
        Some(a) => r matches Some(b) && a.same(b),
        None => r is None,
    }
}

/// A copy of an optional submission.
pub fn copy_submission(s: &Option<Submission>) -> (r: Option<Submission>)
    ensures
        copied(*s, r),
{
    match s {
        Some(a) => Some(a.copy()),
        None => None,
    }
}

impl Submission {
    /// The submissions hold the same values.
    pub open spec fn same(self, other: Submission) -> bool {
        match self {
            Submission::SystemCommand { command, args } => {
                &&& other matches Submission::SystemCommand { command: c, args: a }
                &&& c == command
                &&& a@ == args@
            },
            _ => other == self,
        }
    }

    /// A copy of the submission.
    pub fn copy(&self) -> (r: Submission)
        ensures
            self.same(r),
    {
        match self {
            Submission::UserInput { content } => Submission::UserInput {
                content: content.clone(),
            },
            Submission::ApprovalResponse { approved, always } => Submission::ApprovalResponse {
                approved: *approved,
                always: *always,
            },
            Submission::ExecApproval { request_id, approved, always } => Submission::ExecApproval {
                request_id: *request_id,
                approved: *approved,
                always: *always,
            },
            Submission::ExternalCallback { request_id } => Submission::ExternalCallback {
                request_id: *request_id,
            },
            Submission::GateAuthResolution { request_id, resolution } =>
                Submission::GateAuthResolution {
                request_id: *request_id,
                resolution: resolution.copy(),
            },
            Submission::SystemCommand { command, args } => Submission::SystemCommand {
                command: command.clone(),
                args: text::copy_strings(args),
            },
            Submission::Undo => Submission::Undo,
            Submission::Redo => Submission::Redo,
            Submission::Interrupt => Submission::Interrupt,
            Submission::Compact => Submission::Compact,
            Submission::Clear => Submission::Clear,
            Submission::NewThread => Submission::NewThread,
            Submission::Heartbeat => Submission::Heartbeat,
            Submission::Summarize => Submission::Summarize,
            Submission::Suggest => Submission::Suggest,
            Submission::Quit => Submission::Quit,
            Submission::SwitchThread { thread_id } => Submission::SwitchThread {
                thread_id: *thread_id,
            },
            Submission::Resume { checkpoint_id } => Submission::Resume {
                checkpoint_id: *checkpoint_id,
            },
            Submission::ListThreads => Submission::ListThreads,
            Submission::Expected { description } => Submission::Expected {
                description: description.clone(),
            },
            Submission::PairingClaim { channel, code } => Submission::PairingClaim {
                channel: channel.clone(),
                code: code.clone(),
            },
            Submission::Plan { sub } => Submission::Plan { sub: sub.copy() },
        }
    }

    /// Only the second engine can handle it.
    pub open spec fn engine_only(self) -> bool {
        self is ExternalCallback || self is GateAuthResolution
    }

    /// It answers something that a thread waits for, so it may name the thread by its id.
    pub open spec fn addresses_thread(self) -> bool {
        self is ExecApproval || self is ApprovalResponse || self is ExternalCallback
            || self is GateAuthResolution
    }

    /// Whether the submission may name the thread that it is meant for.
    pub fn targets_thread(&self) -> (r: bool)
        ensures
            r == self.addresses_thread(),
    {
        match self {
            Submission::ExecApproval { .. } => true,
            Submission::ApprovalResponse { .. } => true,
            Submission::ExternalCallback { .. } => true,
            Submission::GateAuthResolution { .. } => true,
            _ => false,
        }
    }

    /// The name under which the submission is written to the audit log. The user's own text
    /// is not logged.
    pub open spec fn logged_as(self) -> Option<Seq<char>> {
        match self {
            Submission::Undo => Some("undo"@),
            Submission::Redo => Some("redo"@),
            Submission::Interrupt => Some("interrupt"@),
            Submission::Compact => Some("compact"@),
            Submission::Clear => Some("clear"@),
            Submission::NewThread => Some("new"@),
            Submission::Heartbeat => Some("heartbeat"@),
            Submission::Summarize => Some("summarize"@),
            Submission::Suggest => Some("suggest"@),
            Submission::Quit => Some("quit"@),
            Submission::SwitchThread { .. } => Some("switch_thread"@),
            Submission::Resume { .. } => Some("resume"@),
            Submission::ExecApproval { .. } => Some("exec_approval"@),
            Submission::ApprovalResponse { .. } => Some("approval_response"@),
            Submission::SystemCommand { command, .. } => Some(command@),
            _ => None,
        }
    }

    /// The name under which the submission is written to the audit log.
    pub fn audit_name<'a>(&'a self) -> (r: Option<&'a str>)
        ensures
            crate::json::text_of(r) == self.logged_as(),
    {
        match self {
            Submission::Undo => Some("undo"),
            Submission::Redo => Some("redo"),
            Submission::Interrupt => Some("interrupt"),
            Submission::Compact => Some("compact"),
            Submission::Clear => Some("clear"),
            Submission::NewThread => Some("new"),
            Submission::Heartbeat => Some("heartbeat"),
            Submission::Summarize => Some("summarize"),
            Submission::Suggest => Some("suggest"),
            Submission::Quit => Some("quit"),
            Submission::SwitchThread { .. } => Some("switch_thread"),
            Submission::Resume { .. } => Some("resume"),
            Submission::ExecApproval { .. } => Some("exec_approval"),
            Submission::ApprovalResponse { .. } => Some("approval_response"),
            Submission::SystemCommand { command, .. } => Some(command.as_str()),
            _ => None,
        }
    }
}

/// How a plan is called in a prompt.
pub open spec fn plan_name(plan_ref: Option<String>) -> Seq<char> {
    match plan_ref {
        Some(r) => r@,
        None => "the most recent plan"@,
    }
}

/// The prompt that a `/plan` command stands for.
pub open spec fn plan_text(sub: PlanSubcommand) -> Seq<char> {
    match sub {
        PlanSubcommand::Create { description } => "[PLAN MODE] Create a plan for: "@
            + description@,
        PlanSubcommand::Approve { plan_ref } => "[PLAN MODE] Approve and execute plan "@
            + plan_name(plan_ref)
            + ". Create a mission from the plan content using mission_create, then fire it with mission_fire."@,
        PlanSubcommand::Status { plan_ref } => "[PLAN MODE] Show status of plan "@ + plan_name(
            plan_ref,
        )
            + ". Check the associated mission's thread_history, current_focus, and approach_history."@,
        PlanSubcommand::Revise { plan_ref, feedback } => "[PLAN MODE] Revise plan "@ + plan_name(
            plan_ref,
        ) + " based on: "@ + feedback@,
        PlanSubcommand::List =>
            "[PLAN MODE] List all plans. Search memory for plan documents and show their status."@,
    }
}

fn plan_label<'a>(plan_ref: &'a Option<String>) -> (r: &'a str)
    ensures
        r@ == plan_name(*plan_ref),
{
    match plan_ref {
        Some(p) => p.as_str(),
        None => "the most recent plan",
    }
}

/// The prompt that a `/plan` command stands for.
pub fn plan_prompt(sub: &PlanSubcommand) -> (r: String)
    ensures
        r@ == plan_text(*sub),
{
    match sub {
        PlanSubcommand::Create { description } => text::cat(
            "[PLAN MODE] Create a plan for: ",
            description.as_str(),
        ),
        PlanSubcommand::Approve { plan_ref } => text::cat3(
            "[PLAN MODE] Approve and execute plan ",
            plan_label(plan_ref),
            ". Create a mission from the plan content using mission_create, then fire it with mission_fire.",
        ),
        PlanSubcommand::Status { plan_ref } => text::cat3(
            "[PLAN MODE] Show status of plan ",
            plan_label(plan_ref),
            ". Check the associated mission's thread_history, current_focus, and approach_history.",
        ),
        PlanSubcommand::Revise { plan_ref, feedback } => text::cat(
            text::cat3("[PLAN MODE] Revise plan ", plan_label(plan_ref), " based on: ").as_str(),
            feedback.as_str(),
        ),
        PlanSubcommand::List =>
            "[PLAN MODE] List all plans. Search memory for plan documents and show their status.".to_owned(),
    }
}

/// A submission may name its thread exactly where it answers something that a thread waits
/// for, and only callbacks and resolved gates need the second engine.
pub proof fn answers_name_their_thread(s: Submission)
    ensures
        s.addresses_thread() <==> s is ApprovalResponse || s is ExecApproval
            || s is ExternalCallback || s is GateAuthResolution,
        s.engine_only() <==> s is ExternalCallback || s is GateAuthResolution,
        s.engine_only() ==> s.addresses_thread(),
{
}

/// What the user writes is never logged by its text: user text, plans, pairing codes and
/// tokens leave no trace in the audit log, while every command does, under a name that no
/// text of the user decides.
pub proof fn user_text_is_not_logged(s: Submission, t: Submission)
    ensures
        s is UserInput || s is Plan || s is PairingClaim || s is GateAuthResolution
            || s is Expected || s is ExternalCallback ==> s.logged_as() is None,
        s is Undo || s is Redo || s is Interrupt || s is Compact || s is Clear || s is NewThread
            || s is Heartbeat || s is Summarize || s is Suggest || s is Quit || s is SwitchThread
            || s is Resume || s is ExecApproval || s is ApprovalResponse || s is SystemCommand
            ==> s.logged_as() is Some,
        s matches Submission::SystemCommand { command, .. } ==> s.logged_as() == Some(command@),
        s is ApprovalResponse && t is ApprovalResponse ==> s.logged_as() == t.logged_as(),
        s is ExecApproval && t is ExecApproval ==> s.logged_as() == t.logged_as(),
        s is SwitchThread && t is SwitchThread ==> s.logged_as() == t.logged_as(),
        s is Resume && t is Resume ==> s.logged_as() == t.logged_as(),
{
}

/// The submission is a command that is logged under a name of its own.
pub open spec fn logged_command(s: Submission) -> bool {
    s is Undo || s is Redo || s is Interrupt || s is Compact || s is Clear || s is NewThread
        || s is Heartbeat || s is Summarize || s is Suggest || s is Quit || s is SwitchThread
        || s is Resume || s is ExecApproval || s is ApprovalResponse
}

/// Commands are logged by what they are called, so that no two kinds are logged alike.
pub proof fn commands_are_logged_apart(s: Submission, t: Submission)
    requires
        logged_command(s),
        logged_command(t),
    ensures
        s is Undo ==> s.logged_as() == Some("undo"@),
        s is Redo ==> s.logged_as() == Some("redo"@),
        s is Interrupt ==> s.logged_as() == Some("interrupt"@),
        s is Compact ==> s.logged_as() == Some("compact"@),
        s is Clear ==> s.logged_as() == Some("clear"@),
        s is NewThread ==> s.logged_as() == Some("new"@),
        s is Quit ==> s.logged_as() == Some("quit"@),
        s.logged_as() == t.logged_as() ==> {
            &&& s is Undo <==> t is Undo
            &&& s is Redo <==> t is Redo
            &&& s is Interrupt <==> t is Interrupt
            &&& s is Compact <==> t is Compact
            &&& s is Clear <==> t is Clear
            &&& s is NewThread <==> t is NewThread
            &&& s is Heartbeat <==> t is Heartbeat
            &&& s is Summarize <==> t is Summarize
            &&& s is Suggest <==> t is Suggest
            &&& s is Quit <==> t is Quit
            &&& s is SwitchThread <==> t is SwitchThread
            &&& s is Resume <==> t is Resume
            &&& s is ExecApproval <==> t is ExecApproval
            &&& s is ApprovalResponse <==> t is ApprovalResponse
        },
{
    reveal_strlit("undo");
    reveal_strlit("redo");
    reveal_strlit("interrupt");
    reveal_strlit("compact");
    reveal_strlit("clear");
    reveal_strlit("new");
    reveal_strlit("heartbeat");
    reveal_strlit("summarize");
    reveal_strlit("suggest");
    reveal_strlit("quit");
    reveal_strlit("switch_thread");
    reveal_strlit("resume");
    reveal_strlit("exec_approval");
    reveal_strlit("approval_response");
    assert("undo"@[0] == 'u' && "redo"@[0] == 'r' && "clear"@[0] == 'c' && "quit"@[0] == 'q'
        && "compact"@[0] == 'c' && "interrupt"@[0] == 'i' && "new"@[0] == 'n' && "heartbeat"@[0]
        == 'h' && "summarize"@[0] == 's' && "suggest"@[0] == 's' && "switch_thread"@[0] == 's'
        && "resume"@[0] == 'r' && "exec_approval"@[0] == 'e' && "approval_response"@[0] == 'a');
    assert("clear"@.len() == 5 && "compact"@.len() == 7 && "redo"@.len() == 4 && "resume"@.len()
        == 6 && "summarize"@.len() == 9 && "suggest"@.len() == 7 && "switch_thread"@.len() == 13);
}

/// A copy of a submission is of the same kind and holds the same values.
pub proof fn copies_are_the_same(s: Submission, r: Submission)
    requires
        s.same(r),
    ensures
        s is UserInput <==> r is UserInput,
        s matches Submission::UserInput { content } ==> r == (Submission::UserInput { content }),
        s matches Submission::ApprovalResponse { approved, always } ==> r == (
        Submission::ApprovalResponse { approved, always }),
        s matches Submission::ExecApproval { request_id, approved, always } ==> r == (
        Submission::ExecApproval { request_id, approved, always }),
        s matches Submission::SystemCommand { command, args } ==> {
            &&& r matches Submission::SystemCommand { command: c, args: a }
            &&& c == command
            &&& a@ == args@
        },
        !(s is SystemCommand) ==> r == s,
        r.logged_as() == s.logged_as(),
        r.addresses_thread() == s.addresses_thread(),
{
}

/// An optional submission is copied where there is one, and only there.
pub proof fn copies_are_made_of_something(s: Option<Submission>, r: Option<Submission>)
    requires
        copied(s, r),
    ensures
        s is Some <==> r is Some,
        s is Some ==> s->0.same(r->0),
{
}

/// The prompt for a plan says what the user asked for, word for word, and which plan is
/// meant.
pub proof fn plans_say_what_was_asked(sub: PlanSubcommand)
    ensures
        text::begins_with(plan_text(sub), "[PLAN MODE] "@),
        sub matches PlanSubcommand::Create { description } ==> {
            let t = plan_text(sub);
            t.len() >= description@.len() && t.skip(t.len() - description@.len()) == description@
        },
        sub matches PlanSubcommand::Revise { feedback, .. } ==> {
            let t = plan_text(sub);
            t.len() >= feedback@.len() && t.skip(t.len() - feedback@.len()) == feedback@
        },
        sub matches PlanSubcommand::Approve { plan_ref } ==> names(
            plan_text(sub),
            plan_name(plan_ref),
        ),
        sub matches PlanSubcommand::Status { plan_ref } ==> names(
            plan_text(sub),
            plan_name(plan_ref),
        ),
        sub matches PlanSubcommand::Revise { plan_ref, .. } ==> names(
            plan_text(sub),
            plan_name(plan_ref),
        ),
{
    reveal_strlit("[PLAN MODE] ");
    reveal_strlit("[PLAN MODE] Create a plan for: ");
    reveal_strlit("[PLAN MODE] Approve and execute plan ");
    reveal_strlit("[PLAN MODE] Show status of plan ");
    reveal_strlit("[PLAN MODE] Revise plan ");
    reveal_strlit(
        "[PLAN MODE] List all plans. Search memory for plan documents and show their status.",
    );
    let t = plan_text(sub);
    assert(t.take("[PLAN MODE] "@.len() as int) =~= "[PLAN MODE] "@);
    match sub {
        PlanSubcommand::Create { description } => {
            assert(t.skip(t.len() - description@.len()) =~= description@);
        },
        PlanSubcommand::Approve { plan_ref } => {
            let i = "[PLAN MODE] Approve and execute plan "@.len() as int;
            let n = plan_name(plan_ref);
            assert(t.subrange(i, i + n.len()) =~= n);
        },
        PlanSubcommand::Status { plan_ref } => {
            let i = "[PLAN MODE] Show status of plan "@.len() as int;
            let n = plan_name(plan_ref);
            assert(t.subrange(i, i + n.len()) =~= n);
        },
        PlanSubcommand::Revise { plan_ref, feedback } => {
            let i = "[PLAN MODE] Revise plan "@.len() as int;
            let n = plan_name(plan_ref);
            assert(t.subrange(i, i + n.len()) =~= n);
            assert(t.skip(t.len() - feedback@.len()) =~= feedback@);
        },
        PlanSubcommand::List => {},
    }
}

/// The text holds the name somewhere.
pub open spec fn names(text: Seq<char>, name: Seq<char>) -> bool {
    exists|i: int|
        0 <= i <= text.len() - name.len() && #[trigger] text.subrange(i, i + name.len()) == name
}

/// A plan is called by its reference; only without one the most recent is meant.
pub proof fn plans_are_called_by_reference(plan_ref: String)
    ensures
        plan_name(Some(plan_ref)) == plan_ref@,
        plan_name(None).len() > 0,
{
    reveal_strlit("the most recent plan");
}

/// A result is a reply, an acknowledgement or an error, never two of them, and says exactly
/// one text.
pub proof fn results_say_one_thing(r: SubmissionResult, a: Seq<char>, b: Seq<char>)
    ensures
        r.replies(a) ==> r is Response && r->Response_content@ == a,
        r.complains(a) ==> r is Error && r->Error_message@ == a,
        r.acknowledges(a) ==> r is Acknowledged && r->Acknowledged_message is Some
            && r->Acknowledged_message->0@ == a,
        r.replies(a) && r.replies(b) ==> a == b,
        r.complains(a) && r.complains(b) ==> a == b,
        r.acknowledges(a) && r.acknowledges(b) ==> a == b,
        r.replies(a) ==> !r.complains(b) && !r.acknowledges(b),
        r.complains(a) ==> !r.acknowledges(b),
{
}

/// What is missing is told by its id.
pub proof fn missing_things_are_named(e: LoopError, a: u128, b: u128)
    requires
        e.misses(a),
    ensures
        e == (LoopError::NotFound { id: a }),
        e.misses(b) ==> a == b,
{
}

/// A text that is put together holds each of its parts.
pub proof fn parts_are_held(a: Seq<char>, b: Seq<char>, c: Seq<char>)
    ensures
        names(a + b + c, b),
{
    let t = a + b + c;
    assert(t.subrange(a.len() as int, a.len() as int + b.len()) =~= b);
}

/// A text that grows at its end holds the new part, and everything that it held.
pub proof fn parts_stay_held(a: Seq<char>, b: Seq<char>)
    ensures
        names(a + b, b),
        forall|x: Seq<char>| #[trigger] names(a, x) ==> names(a + b, x),
{
    let t = a + b;
    assert(t.subrange(a.len() as int, a.len() as int + b.len()) =~= b);
    assert forall|x: Seq<char>| #[trigger] names(a, x) implies names(t, x) by {
        let i = choose|i: int|
            0 <= i <= a.len() - x.len() && #[trigger] a.subrange(i, i + x.len()) == x;
        assert(t.subrange(i, i + x.len()) =~= a.subrange(i, i + x.len()));
    }
}

} // verus!
