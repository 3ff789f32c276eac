//! The run of a single tool.

use serde_json::Value;
use vstd::prelude::*;

use crate::json;
use crate::text;
use crate::turn;
use crate::turn::ValidationIssue;

verus! {

/// Why a tool gave nothing back.
#[allow(inconsistent_fields)]
pub enum ToolError {
    NotFound { name: String },
    InvalidParameters { name: String, reason: String },
    /// The tool took longer than its timeout, in nanoseconds.
    Timeout { name: String, timeout: u128 },
    ExecutionFailed { name: String, reason: String },
}

impl ToolError {
    /// There is no tool of this name.
    pub open spec fn unknown(self, tool: Seq<char>) -> bool {
        self matches ToolError::NotFound { name } && name@ == tool
    }

    /// The parameters for this tool are wrong.
    pub open spec fn invalid(self, tool: Seq<char>, text: Seq<char>) -> bool {
        self matches ToolError::InvalidParameters { name, reason } && name@ == tool && reason@
            == text
    }

    /// This tool took too long.
    pub open spec fn late(self, tool: Seq<char>, nanos: u128) -> bool {
        self matches ToolError::Timeout { name, timeout } && name@ == tool && timeout == nanos
    }

    /// This tool failed.
    pub open spec fn broken(self, tool: Seq<char>, text: Seq<char>) -> bool {
        self matches ToolError::ExecutionFailed { name, reason } && name@ == tool && reason@
            == text
    }
}

/// How a tool's execution ended.
pub enum Execution {
    TimedOut { timeout: u128 },
    Failed { reason: String },
    Returned { result: Value },
}

/// Decides whether a tool is run: it has to be known, and its parameters have to be valid.
pub fn admit_tool(
    tool_name: &str,
    known: bool,
    is_valid: bool,
    issues: &Vec<ValidationIssue>,
) -> (r: Result<(), ToolError>)
    ensures
        if !known {
            r matches Err(e) && e.unknown(tool_name@)
        } else if !is_valid {
            r matches Err(e) && e.invalid(
                tool_name@,
                "Invalid tool parameters: "@ + turn::details(issues@),
            )
        } else {
            r is Ok
        },
{
    if !known {
        return Err(ToolError::NotFound { name: tool_name.to_owned() });
    }
    if !is_valid {
        return Err(
            ToolError::InvalidParameters {
                name: tool_name.to_owned(),
                reason: text::cat(
                    "Invalid tool parameters: ",
                    turn::issue_details(issues).as_str(),
                ),
            },
        );
    }
    Ok(())
}

/// The output of a tool whose result was written out as text, or could not be.
pub fn written_output(tool_name: &str, written: Result<String, String>) -> (r: Result<
    String,
    ToolError,
>)
    ensures
        match written {
            Ok(s) => r == Ok::<String, ToolError>(s),
            Err(e) => r matches Err(t) && t.broken(
                tool_name@,
                "Failed to serialize result: "@ + e@,
            ),
        },
{
    match written {
        Ok(s) => Ok(s),
        Err(e) => Err(
            ToolError::ExecutionFailed {
                name: tool_name.to_owned(),
                reason: text::cat("Failed to serialize result: ", e.as_str()),
            },
        ),
    }
}

/// The output of a tool: its result, written out as indented JSON.
pub fn tool_output(tool_name: &str, execution: Execution) -> (r: Result<String, ToolError>)
    ensures
        match execution {
            Execution::TimedOut { timeout } => r matches Err(e) && e.late(tool_name@, timeout),
            Execution::Failed { reason } => r matches Err(e) && e.broken(tool_name@, reason@),
            Execution::Returned { result } => match json::pretty_json(
                json::json_content(result),
            ) {
                Some(s) => r matches Ok(output) && output@ == s,
                None => r matches Err(e) && e matches ToolError::ExecutionFailed { name, reason }
                    && name@ == tool_name@ && text::begins_with(
                    reason@,
                    "Failed to serialize result: "@,
                ),
            },
        },
{
    match execution {
        Execution::TimedOut { timeout } => Err(
            ToolError::Timeout { name: tool_name.to_owned(), timeout },
        ),
        Execution::Failed { reason } => Err(
            ToolError::ExecutionFailed { name: tool_name.to_owned(), reason },
        ),
        Execution::Returned { result } => {
            let written = json::to_pretty(&result);
            proof {
                if written is Err {
                    let prefix = "Failed to serialize result: "@;
                    assert((prefix + written->Err_0@).take(prefix.len() as int) =~= prefix);
                }
            }
            written_output(tool_name, written)
        },
    }
}

/// An error says one thing of one tool.
pub proof fn tool_errors_say_one_thing(
    e: ToolError,
    tool: Seq<char>,
    reason: Seq<char>,
    nanos: u128,
)
    ensures
        e.unknown(tool) <==> e is NotFound && e->NotFound_name@ == tool,
        e.invalid(tool, reason) <==> e is InvalidParameters && e->InvalidParameters_name@ == tool
            && e->InvalidParameters_reason@ == reason,
        e.late(tool, nanos) <==> e is Timeout && e->Timeout_name@ == tool && e->timeout == nanos,
        e.broken(tool, reason) <==> e is ExecutionFailed && e->ExecutionFailed_name@ == tool
            && e->ExecutionFailed_reason@ == reason,
{
}

} // verus!
