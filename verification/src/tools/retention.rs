//! The retention tool: trim old versions by policy.

use vstd::prelude::*;

use crate::command::{Action, Command};
use crate::error::McpError;
use crate::json::{Json, JsonV};
use crate::session::{access_denied_is, McpSession};
use crate::strutil::str_eq;
use crate::tools::agent::unknown_tool_reply;
use crate::tools::{Pending, Step, ToolDef};

verus! {

/// What dispatching a retention tool call yields, by tool name.
pub open spec fn dispatch_spec(
    sess: McpSession,
    name: Seq<char>,
    argsv: Seq<(Seq<char>, JsonV)>,
    s: Step,
) -> bool {
    if name == "strata_retention_apply"@ {
        if sess.read_only {
            s matches Step::Reply(Err(e)) && access_denied_is(e, "RetentionApply"@)
        } else {
            &&& s matches Step::Store { action, pending }
            &&& pending is Plain
            &&& action matches Action::Execute(cmd)
            &&& cmd matches Command::RetentionApply { branch }
            &&& branch matches Some(b) && b@ == sess.cur_branch@
        }
    } else {
        unknown_tool_reply(name, s)
    }
}

/// Dispatch a retention tool call.
pub fn dispatch(session: &McpSession, name: &str, args: &Vec<(String, Json)>) -> (s: Step)
    ensures
        dispatch_spec(*session, name@, crate::json::json_view_fields(args@), s),
        s matches Step::Store { action, .. } ==> !(session.read_only && action.spec_is_write()),
{
    if str_eq(name, "strata_retention_apply") {
        let cmd = Command::RetentionApply { branch: session.branch_id() };
        match session.begin_execute(&cmd) {
            Ok(_) => Step::Store { action: Action::Execute(cmd), pending: Pending::Plain },
            Err(e) => Step::Reply(Err(e)),
        }
    } else {
        Step::Reply(Err(McpError::UnknownTool(name.to_owned())))
    }
}

/// The retention tool definitions.
pub fn tools() -> (r: Vec<ToolDef>)
    ensures
        r@.len() == 1,
        r@[0].name@ == "strata_retention_apply"@,
{
    let schema = crate::tools::empty_object_schema();
    let mut r: Vec<ToolDef> = Vec::new();
    r.push(
        ToolDef::new(
            "strata_retention_apply",
            "Apply the retention policy to the current branch, trimming old versions and \
             expired data according to the configured rules. Returns null on success.",
            schema,
        ),
    );
    r
}

} // verus!
