//! The durability tool: write-ahead-log counters.

use vstd::prelude::*;

use crate::command::{Action, Command};
use crate::json::{Json, JsonV};
use crate::session::McpSession;
use crate::strutil::str_eq;
use crate::tools::agent::unknown_tool_reply;
use crate::tools::{Pending, Step, ToolDef};
use crate::error::McpError;

verus! {

/// What dispatching a durability tool call yields, by tool name.
pub open spec fn dispatch_spec(
    sess: McpSession,
    name: Seq<char>,
    argsv: Seq<(Seq<char>, JsonV)>,
    s: Step,
) -> bool {
    if name == "strata_durability_counters"@ {
        s == Step::Store {
            action: Action::Execute(Command::DurabilityCounters),
            pending: Pending::Plain,
        }
    } else {
        unknown_tool_reply(name, s)
    }
}

/// Dispatch a durability tool call.
pub fn dispatch(session: &McpSession, name: &str, args: &Vec<(String, Json)>) -> (s: Step)
    ensures
        dispatch_spec(*session, name@, crate::json::json_view_fields(args@), s),
        s matches Step::Store { action, .. } ==> !(session.read_only && action.spec_is_write()),
{
    if str_eq(name, "strata_durability_counters") {
        Step::Store { action: Action::Execute(Command::DurabilityCounters), pending: Pending::Plain }
    } else {
        Step::Reply(Err(McpError::UnknownTool(name.to_owned())))
    }
}

/// The durability tool definitions.
pub fn tools() -> (r: Vec<ToolDef>)
    ensures
        r@.len() == 1,
        r@[0].name@ == "strata_durability_counters"@,
{
    let schema = crate::tools::empty_object_schema();
    let mut r: Vec<ToolDef> = Vec::new();
    r.push(
        ToolDef::new(
            "strata_durability_counters",
            "Get write-ahead-log durability counters for monitoring write performance: \
             wal_appends, sync_calls, bytes_written, and sync_nanos.",
            schema,
        ),
    );
    r
}

} // verus!
