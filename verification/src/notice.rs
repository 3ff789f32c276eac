//! Status updates that a channel shows while a turn runs.

use serde_json::Value;
use vstd::prelude::*;

use crate::json;

verus! {

/// A status update.
#[allow(inconsistent_fields)]
pub enum Notice {
    Thinking(String),
    Status(String),
    ToolStarted { name: String },
    ToolCompleted { name: String, success: bool },
    ToolResult { name: String, preview: String },
    /// A tool waits for the user's word.
    ApprovalNeeded {
        request_id: u128,
        tool_name: String,
        description: String,
        parameters: Value,
    },
    AuthRequired {
        extension_name: String,
        instructions: Option<String>,
        auth_url: Option<String>,
        setup_url: Option<String>,
    },
    AuthCompleted { extension_name: String, success: bool, message: String },
}

/// A status update by its texts.
#[allow(inconsistent_fields)]
pub enum NoticeView {
    Thinking(Seq<char>),
    Status(Seq<char>),
    ToolStarted { name: Seq<char> },
    ToolCompleted { name: Seq<char>, success: bool },
    ToolResult { name: Seq<char>, preview: Seq<char> },
    ApprovalNeeded {
        request_id: u128,
        tool_name: Seq<char>,
        description: Seq<char>,
        parameters: json::JsonContent,
    },
    AuthRequired {
        extension_name: Seq<char>,
        instructions: Option<Seq<char>>,
        auth_url: Option<Seq<char>>,
        setup_url: Option<Seq<char>>,
    },
    AuthCompleted { extension_name: Seq<char>, success: bool, message: Seq<char> },
}

impl View for Notice {
    type V = NoticeView;

    open spec fn view(&self) -> NoticeView {
        match *self {
            Notice::Thinking(s) => NoticeView::Thinking(s@),
            Notice::Status(s) => NoticeView::Status(s@),
            Notice::ToolStarted { name } => NoticeView::ToolStarted { name: name@ },
            Notice::ToolCompleted { name, success } => NoticeView::ToolCompleted {
                name: name@,
                success,
            },
            Notice::ToolResult { name, preview } => NoticeView::ToolResult {
                name: name@,
                preview: preview@,
            },
            Notice::ApprovalNeeded { request_id, tool_name, description, parameters } =>
                NoticeView::ApprovalNeeded {
                request_id,
                tool_name: tool_name@,
                description: description@,
                parameters: json::json_content(parameters),
            },
            Notice::AuthRequired { extension_name, instructions, auth_url, setup_url } =>
                NoticeView::AuthRequired {
                extension_name: extension_name@,
                instructions: json::string_of(instructions),
                auth_url: json::string_of(auth_url),
                setup_url: json::string_of(setup_url),
            },
            Notice::AuthCompleted { extension_name, success, message } =>
                NoticeView::AuthCompleted {
                extension_name: extension_name@,
                success,
                message: message@,
            },
        }
    }
}

/// The views of a list of status updates.
pub open spec fn notice_views(notices: Seq<Notice>) -> Seq<NoticeView> {
    notices.map_values(|n: Notice| n@)
}

/// The status update that closes a turn.
pub open spec fn closes(notice: NoticeView) -> bool {
    notice == NoticeView::Status("Done"@)
}

/// None of the status updates closes a turn.
pub open spec fn keep_open(notices: Seq<NoticeView>) -> bool {
    forall|i: int| 0 <= i < notices.len() ==> !closes(#[trigger] notices[i])
}

/// What the user sees once a tool has run: whether it succeeded, and what it gave back
/// unless that is empty.
pub open spec fn tool_ended(name: Seq<char>, outcome: Result<String, String>) -> Seq<NoticeView> {
    match outcome {
        Ok(output) => if output@.len() == 0 {
            seq![NoticeView::ToolCompleted { name, success: true }]
        } else {
            seq![
                NoticeView::ToolCompleted { name, success: true },
                NoticeView::ToolResult { name, preview: output@ },
            ]
        },
        Err(_) => seq![NoticeView::ToolCompleted { name, success: false }],
    }
}

/// The status updates once a tool has run.
pub fn tool_ended_notices(name: &str, outcome: &Result<String, String>) -> (r: Vec<Notice>)
    ensures
        notice_views(r@) == tool_ended(name@, *outcome),
{
    let mut out: Vec<Notice> = Vec::new();
    out.push(Notice::ToolCompleted { name: name.to_owned(), success: outcome.is_ok() });
    if let Ok(output) = outcome {
        if !output.as_str().is_empty() {
            out.push(Notice::ToolResult { name: name.to_owned(), preview: output.clone() });
        }
    }
    assert(notice_views(out@) =~= tool_ended(name@, *outcome));
    out
}

/// A tool that ran is reported with its own name and whether it succeeded; what it gave back
/// is shown only where there is something, and as it is.
pub proof fn tools_are_reported_as_they_ended(name: Seq<char>, outcome: Result<String, String>)
    ensures
        ({
            let shown = tool_ended(name, outcome);
            &&& shown.len() > 0
            &&& shown[0] == (NoticeView::ToolCompleted { name, success: outcome is Ok })
            &&& shown.len() == 2 <==> outcome is Ok && outcome->Ok_0@.len() > 0
            &&& shown.len() <= 2
            &&& shown.len() == 2 ==> shown[1] == (NoticeView::ToolResult {
                name,
                preview: outcome->Ok_0@,
            })
        }),
{
}

/// The views of status updates are in the order of the updates, and hold all of them.
pub proof fn notice_views_are_faithful(notices: Seq<Notice>)
    ensures
        notice_views(notices).len() == notices.len(),
        forall|i: int|
            0 <= i < notices.len() ==> match #[trigger] notices[i] {
                Notice::Thinking(s) => notice_views(notices)[i] == NoticeView::Thinking(s@),
                Notice::Status(s) => notice_views(notices)[i] == NoticeView::Status(s@),
                Notice::ToolStarted { name } => notice_views(notices)[i]
                    matches NoticeView::ToolStarted { name: n } && n == name@,
                Notice::ToolCompleted { name, success } => notice_views(notices)[i]
                    matches NoticeView::ToolCompleted { name: n, success: s } && n == name@ && s
                    == success,
                Notice::ToolResult { name, preview } => notice_views(notices)[i]
                    matches NoticeView::ToolResult { name: n, preview: p } && n == name@ && p
                    == preview@,
                Notice::ApprovalNeeded { request_id, tool_name, description, parameters } => {
                    &&& notice_views(notices)[i] matches NoticeView::ApprovalNeeded {
                        request_id: id,
                        tool_name: t,
                        description: d,
                        parameters: p,
                    }
                    &&& id == request_id
                    &&& t == tool_name@
                    &&& d == description@
                    &&& p == json::json_content(parameters)
                },
                Notice::AuthRequired { extension_name, instructions, auth_url, setup_url } => {
                    &&& notice_views(notices)[i] matches NoticeView::AuthRequired {
                        extension_name: e,
                        instructions: t,
                        auth_url: a,
                        setup_url: s,
                    }
                    &&& e == extension_name@
                    &&& t == json::string_of(instructions)
                    &&& a == json::string_of(auth_url)
                    &&& s == json::string_of(setup_url)
                },
                Notice::AuthCompleted { extension_name, success, message } => {
                    &&& notice_views(notices)[i] matches NoticeView::AuthCompleted {
                        extension_name: e,
                        success: s,
                        message: m,
                    }
                    &&& e == extension_name@
                    &&& s == success
                    &&& m == message@
                },
            },
{
}

} // verus!
