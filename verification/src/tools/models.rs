//! The model management tools: list, pull, and local inventory.

use vstd::prelude::*;

use crate::command::{Action, Command};
use crate::convert::{get_string_arg, invalid_arg_is, missing_arg_is};
use crate::error::McpError;
use crate::json::{field_of, Json, JsonV};
use crate::session::{access_denied_is, McpSession};
use crate::strutil::str_eq;
use crate::tools::agent::unknown_tool_reply;
use crate::tools::{empty_object_schema, object_schema, Pending, Step, ToolDef};

verus! {

/// What dispatching a model tool call yields, by tool name.
pub open spec fn dispatch_spec(
    sess: McpSession,
    name: Seq<char>,
    argsv: Seq<(Seq<char>, JsonV)>,
    s: Step,
) -> bool {
    if name == "strata_models_list"@ {
        s == Step::Store { action: Action::Execute(Command::ModelsList), pending: Pending::Plain }
    } else if name == "strata_models_pull"@ {
        match field_of(argsv, "name"@) {
            Some(nj) => match nj {
                JsonV::Str(n) => if sess.read_only {
                    s matches Step::Reply(Err(e)) && access_denied_is(e, "ModelsPull"@)
                } else {
                    &&& s matches Step::Store { action, pending }
                    &&& pending is Plain
                    &&& action matches Action::Execute(cmd)
                    &&& cmd matches Command::ModelsPull { name: m } && m@ == n
                },
                _ => s matches Step::Reply(Err(e)) && invalid_arg_is(
                    e,
                    "name"@,
                    "expected a string"@,
                ),
            },
            None => s matches Step::Reply(Err(e)) && missing_arg_is(e, "name"@),
        }
    } else if name == "strata_models_local"@ {
        s == Step::Store { action: Action::Execute(Command::ModelsLocal), pending: Pending::Plain }
    } else {
        unknown_tool_reply(name, s)
    }
}

/// Dispatch a model tool call.
pub fn dispatch(session: &McpSession, name: &str, args: &Vec<(String, Json)>) -> (s: Step)
    ensures
        dispatch_spec(*session, name@, crate::json::json_view_fields(args@), s),
        s matches Step::Store { action, .. } ==> !(session.read_only && action.spec_is_write()),
{
    if str_eq(name, "strata_models_list") {
        Step::Store { action: Action::Execute(Command::ModelsList), pending: Pending::Plain }
    } else if str_eq(name, "strata_models_pull") {
        let model_name = match get_string_arg(args, "name") {
            Ok(n) => n,
            Err(e) => {
                return Step::Reply(Err(e));
            },
        };
        let cmd = Command::ModelsPull { name: model_name };
        match session.begin_execute(&cmd) {
            Ok(_) => Step::Store { action: Action::Execute(cmd), pending: Pending::Plain },
            Err(e) => Step::Reply(Err(e)),
        }
    } else if str_eq(name, "strata_models_local") {
        Step::Store { action: Action::Execute(Command::ModelsLocal), pending: Pending::Plain }
    } else {
        Step::Reply(Err(McpError::UnknownTool(name.to_owned())))
    }
}

/// The model tool definitions.
pub fn tools() -> (r: Vec<ToolDef>)
    ensures
        r@.len() == 3,
        r@[0].name@ == "strata_models_list"@,
        r@[1].name@ == "strata_models_pull"@,
        r@[2].name@ == "strata_models_local"@,
{
    let mut required: Vec<(&str, &str)> = Vec::new();
    required.push(("name", "string"));
    let pull_schema = object_schema(required, Vec::new());
    let mut r: Vec<ToolDef> = Vec::new();
    r.push(
        ToolDef::new(
            "strata_models_list",
            "List the models the registry offers: name, task, architecture, default \
             quantization, embedding dimension, locality, and size.",
            empty_object_schema(),
        ),
    );
    r.push(
        ToolDef::new(
            "strata_models_pull",
            "Download a model by name from the registry. Returns the model's name and its \
             local file path.",
            pull_schema,
        ),
    );
    r.push(
        ToolDef::new(
            "strata_models_local",
            "List the models downloaded locally, in the same shape as the full listing.",
            empty_object_schema(),
        ),
    );
    r
}

} // verus!
