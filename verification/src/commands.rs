//! System commands, and commands that the router finds in user text.

use vstd::prelude::*;

use crate::notice;
use crate::notice::Notice;
use crate::outcome;
use crate::submission;
use crate::submission::SubmissionResult;
use crate::text;

verus! {

/// The answer to `/help`.
pub open spec fn help_text() -> Seq<char> {
    "System:\n  /help             Show this help\n  /model [name]     Show or switch the active model\n  /version          Show version info\n  /tools            List available tools\n  /debug            Toggle debug mode\n  /ping             Connectivity check\n\nJobs:\n  /job <desc>       Create a new job\n  /status [id]      Check job status\n  /cancel <id>      Cancel a job\n  /list             List all jobs\n\nSession:\n  /undo             Undo last turn\n  /redo             Redo undone turn\n  /compact          Compress context window\n  /clear            Clear current thread\n  /interrupt        Stop current operation\n  /new              New conversation thread\n  /thread <id>      Switch to thread\n  /resume <id>      Resume from checkpoint\n\nAgent:\n  /heartbeat        Run heartbeat check\n  /summarize        Summarize current thread\n  /suggest          Suggest next steps\n\n  /quit             Exit"@
}

/// The answer to `/help`.
pub fn help() -> (r: &'static str)
    ensures
        r@ == help_text(),
{
    "System:\n  /help             Show this help\n  /model [name]     Show or switch the active model\n  /version          Show version info\n  /tools            List available tools\n  /debug            Toggle debug mode\n  /ping             Connectivity check\n\nJobs:\n  /job <desc>       Create a new job\n  /status [id]      Check job status\n  /cancel <id>      Cancel a job\n  /list             List all jobs\n\nSession:\n  /undo             Undo last turn\n  /redo             Redo undone turn\n  /compact          Compress context window\n  /clear            Clear current thread\n  /interrupt        Stop current operation\n  /new              New conversation thread\n  /thread <id>      Switch to thread\n  /resume <id>      Resume from checkpoint\n\nAgent:\n  /heartbeat        Run heartbeat check\n  /summarize        Summarize current thread\n  /suggest          Suggest next steps\n\n  /quit             Exit"
}

/// What a system command needs next.
pub enum CommandStep {
    /// There is nothing to do but to answer.
    Done(SubmissionResult),
    ListTools,
    /// Ask for the name of the model in use.
    ActiveModel,
    /// Ask for the models that there are, to check the requested one.
    ListModels { requested: String },
}

/// The step of a system command. `name` and `version` are those of the program.
pub open spec fn command_leads_to(
    command: Seq<char>,
    args: Seq<String>,
    name: Seq<char>,
    version: Seq<char>,
    r: CommandStep,
) -> bool {
    if command == "help"@ {
        r matches CommandStep::Done(result) && result.replies(help_text())
    } else if command == "ping"@ {
        r matches CommandStep::Done(result) && result.replies("pong!"@)
    } else if command == "version"@ {
        r matches CommandStep::Done(result) && result.replies(name + " v"@ + version)
    } else if command == "tools"@ {
        r is ListTools
    } else if command == "debug"@ {
        r matches CommandStep::Done(result) && result.acknowledges(
            "Debug toggle is handled by your client."@,
        )
    } else if command == "model"@ {
        if args.len() == 0 {
            r is ActiveModel
        } else {
            r matches CommandStep::ListModels { requested } && requested@ == args[0]@
        }
    } else {
        r matches CommandStep::Done(result) && result.complains(
            "Unknown command: "@ + command + ". Try /help"@,
        )
    }
}

/// Begins a system command. `name` and `version` are those of the program.
pub fn begin_command(command: &str, args: &Vec<String>, name: &str, version: &str) -> (r:
    CommandStep)
    ensures
        command_leads_to(command@, args@, name@, version@, r),
{
    if text::same(command, "help") {
        CommandStep::Done(SubmissionResult::response(help()))
    } else if text::same(command, "ping") {
        CommandStep::Done(SubmissionResult::response("pong!"))
    } else if text::same(command, "version") {
        CommandStep::Done(
            SubmissionResult::Response { content: text::cat3(name, " v", version) },
        )
    } else if text::same(command, "tools") {
        CommandStep::ListTools
    } else if text::same(command, "debug") {
        CommandStep::Done(
            SubmissionResult::ok_with_message("Debug toggle is handled by your client."),
        )
    } else if text::same(command, "model") {
        if args.len() == 0 {
            CommandStep::ActiveModel
        } else {
            CommandStep::ListModels { requested: args[0].clone() }
        }
    } else {
        CommandStep::Done(
            SubmissionResult::Error {
                message: text::cat3("Unknown command: ", command, ". Try /help"),
            },
        )
    }
}

/// The answer to `/tools`.
pub fn tools_listed(tools: &Vec<String>) -> (r: SubmissionResult)
    ensures
        r.replies("Available tools: "@ + text::joined(text::texts(tools@), ", "@)),
{
    SubmissionResult::Response {
        content: text::cat("Available tools: ", text::join(tools, ", ").as_str()),
    }
}

/// The answer to `/model` without a name.
pub fn active_model(name: &str) -> (r: SubmissionResult)
    ensures
        r.replies("Active model: "@ + name@),
{
    SubmissionResult::Response { content: text::cat("Active model: ", name) }
}

/// The model may be switched to: it is among those that there are, or these are not known.
pub open spec fn switchable(requested: Seq<char>, models: Result<Vec<String>, String>) -> bool {
    match models {
        Ok(list) => list@.len() == 0 || text::holds_text(list@, requested),
        Err(_) => true,
    }
}

/// Checks a requested model against those that there are: `None` where it may be switched
/// to, and otherwise the result to end with.
pub fn check_model(requested: &str, models: &Result<Vec<String>, String>) -> (r: Option<
    SubmissionResult,
>)
    ensures
        if switchable(requested@, *models) {
            r is None
        } else {
            r matches Some(result) && result.complains(
                "Unknown model: "@ + requested@ + ". Available models:\n  "@ + text::joined(
                    text::texts(models->Ok_0@),
                    "\n  "@,
                ),
            )
        },
{
    match models {
        Err(_) => None,
        Ok(list) => if list.len() == 0 || text::contains_text(list, requested) {
            None
        } else {
            Some(
                SubmissionResult::Error {
                    message: text::cat(
                        text::cat3(
                            "Unknown model: ",
                            requested,
                            ". Available models:\n  ",
                        ).as_str(),
                        text::join(list, "\n  ").as_str(),
                    ),
                },
            )
        },
    }
}

/// The result of switching the model.
pub fn model_switched(requested: &str, outcome: Result<(), String>) -> (r: SubmissionResult)
    ensures
        match outcome {
            Ok(_) => r.replies("Switched model to: "@ + requested@),
            Err(e) => r.complains("Failed to switch model: "@ + e@),
        },
{
    match outcome {
        Ok(_) => SubmissionResult::Response {
            content: text::cat("Switched model to: ", requested),
        },
        Err(e) => SubmissionResult::Error {
            message: text::cat("Failed to switch model: ", e.as_str()),
        },
    }
}

/// What the router finds in user text.
#[allow(inconsistent_fields)]
pub enum MessageIntent {
    CreateJob { title: String, description: String, category: Option<String> },
    CheckJobStatus { job_id: Option<String> },
    CancelJob { job_id: String },
    ListJobs { filter: Option<String> },
    HelpJob { job_id: String },
    Command { command: String, args: Vec<String> },
    /// An intent that is no command.
    Unhandled,
}

/// The status update before an intent is handled: only creating a job takes long enough for
/// one.
pub fn intent_notice(intent: &MessageIntent) -> (r: Option<Notice>)
    ensures
        if intent is CreateJob {
            r matches Some(n) && n@ == notice::NoticeView::Thinking("Processing..."@)
        } else {
            r is None
        },
{
    match intent {
        MessageIntent::CreateJob { .. } => Some(Notice::Thinking("Processing...".to_owned())),
        _ => None,
    }
}

/// The result of an intent that is no command.
pub fn unknown_intent() -> (r: SubmissionResult)
    ensures
        r.replies("Unknown intent"@),
{
    SubmissionResult::response("Unknown intent")
}

/// The result of a command that the router found: its text; one that comes without any is
/// the signal to stop.
pub fn conclude_routed_command(result: SubmissionResult) -> (r: SubmissionResult)
    ensures
        match outcome::plain_text(result) {
            Some(s) => r.replies(s),
            None => r == (SubmissionResult::Acknowledged { message: None }),
        },
{
    match outcome::to_plain_text(result) {
        Some(s) => SubmissionResult::Response { content: s },
        None => SubmissionResult::Acknowledged { message: None },
    }
}

/// Each system command is answered as itself, and any other with an error that names it: what
/// `/model` is given is the model that is asked for.
pub proof fn commands_are_told_apart(
    command: Seq<char>,
    args: Seq<String>,
    name: Seq<char>,
    version: Seq<char>,
    r: CommandStep,
)
    requires
        command_leads_to(command, args, name, version, r),
    ensures
        command == "tools"@ <==> r is ListTools,
        command == "model"@ && args.len() == 0 <==> r is ActiveModel,
        command == "model"@ && args.len() > 0 <==> r is ListModels,
        r matches CommandStep::ListModels { requested } ==> requested@ == args[0]@,
        command == "ping"@ ==> r is Done && r->0.replies("pong!"@),
        command == "help"@ ==> r is Done && r->0 is Response && r->0->Response_content@.len() > 0,
        command == "version"@ ==> {
            &&& r is Done
            &&& r->0 is Response
            &&& submission::names(r->0->Response_content@, name)
            &&& submission::names(r->0->Response_content@, version)
        },
        command == "debug"@ ==> r is Done && r->0 is Acknowledged,
        r is Done && r->0 is Error <==> {
            &&& command != "help"@
            &&& command != "ping"@
            &&& command != "version"@
            &&& command != "tools"@
            &&& command != "debug"@
            &&& command != "model"@
        },
        r is Done && r->0 is Error ==> submission::names(r->0->Error_message@, command),
{
    reveal_strlit("help");
    reveal_strlit("ping");
    reveal_strlit("version");
    reveal_strlit("tools");
    reveal_strlit("debug");
    reveal_strlit("model");
    assert("help"@[0] == 'h' && "ping"@[0] == 'p' && "version"@[0] == 'v' && "tools"@[0] == 't'
        && "debug"@[0] == 'd' && "model"@[0] == 'm');
    help_is_long();
    submission::parts_stay_held(name, " v"@);
    submission::parts_stay_held(Seq::empty(), name);
    assert(Seq::<char>::empty() + name =~= name);
    submission::parts_stay_held(name + " v"@, version);
    submission::parts_are_held("Unknown command: "@, command, ". Try /help"@);
}

proof fn help_is_long()
    ensures
        help_text().len() > 800,
{
    reveal_strlit(
        "System:\n  /help             Show this help\n  /model [name]     Show or switch the active model\n  /version          Show version info\n  /tools            List available tools\n  /debug            Toggle debug mode\n  /ping             Connectivity check\n\nJobs:\n  /job <desc>       Create a new job\n  /status [id]      Check job status\n  /cancel <id>      Cancel a job\n  /list             List all jobs\n\nSession:\n  /undo             Undo last turn\n  /redo             Redo undone turn\n  /compact          Compress context window\n  /clear            Clear current thread\n  /interrupt        Stop current operation\n  /new              New conversation thread\n  /thread <id>      Switch to thread\n  /resume <id>      Resume from checkpoint\n\nAgent:\n  /heartbeat        Run heartbeat check\n  /summarize        Summarize current thread\n  /suggest          Suggest next steps\n\n  /quit             Exit",
    );
}

/// A model can be switched to unless it is known to be missing: the models are known, there
/// are some, and it is none of them.
pub proof fn only_missing_models_are_refused(
    requested: Seq<char>,
    models: Result<Vec<String>, String>,
)
    ensures
        models is Err ==> switchable(requested, models),
        models matches Ok(list) ==> (switchable(requested, models) <==> list@.len() == 0 || exists|
            i: int,
        |
            0 <= i < list@.len() && (#[trigger] list@[i])@ == requested),
{
}

} // verus!
