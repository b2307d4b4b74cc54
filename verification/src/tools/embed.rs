//! The embedding tools: embed one text, embed a batch, and report status.

use vstd::prelude::*;

use crate::command::{Action, Command};
use crate::convert::{
    all_strings, get_string_arg, get_string_list, invalid_arg_is, missing_arg_is,
};
use crate::error::McpError;
use crate::json::{field_of, Json, JsonV};
use crate::session::McpSession;
use crate::strutil::str_eq;
use crate::tools::agent::unknown_tool_reply;
use crate::tools::{empty_object_schema, object_schema, Pending, Step, ToolDef};

verus! {

/// What dispatching an embedding tool call yields, by tool name.
pub open spec fn dispatch_spec(
    sess: McpSession,
    name: Seq<char>,
    argsv: Seq<(Seq<char>, JsonV)>,
    s: Step,
) -> bool {
    if name == "strata_embed"@ {
        match field_of(argsv, "text"@) {
            Some(tj) => match tj {
                JsonV::Str(t) => {
                    &&& s matches Step::Store { action, pending }
                    &&& pending is Plain
                    &&& action matches Action::Execute(cmd)
                    &&& cmd matches Command::Embed { text } && text@ == t
                },
                _ => s matches Step::Reply(Err(e)) && invalid_arg_is(
                    e,
                    "text"@,
                    "expected a string"@,
                ),
            },
            None => s matches Step::Reply(Err(e)) && missing_arg_is(e, "text"@),
        }
    } else if name == "strata_embed_batch"@ {
        match field_of(argsv, "texts"@) {
            Some(tj) => match tj {
                JsonV::Arr(items) => if all_strings(items) {
                    &&& s matches Step::Store { action, pending }
                    &&& pending is Plain
                    &&& action matches Action::Execute(cmd)
                    &&& cmd matches Command::EmbedBatch { texts }
                    &&& texts@.len() == items.len()
                    &&& forall|i: int|
                        0 <= i < items.len() ==> (#[trigger] texts@[i])@ == items[i]->Str_0
                } else {
                    s matches Step::Reply(Err(e)) && invalid_arg_is(
                        e,
                        "texts"@,
                        "Expected array of strings"@,
                    )
                },
                _ => s matches Step::Reply(Err(e)) && invalid_arg_is(
                    e,
                    "texts"@,
                    "Expected array of strings"@,
                ),
            },
            None => s matches Step::Reply(Err(e)) && missing_arg_is(e, "texts"@),
        }
    } else if name == "strata_embed_status"@ {
        s == Step::Store { action: Action::Execute(Command::EmbedStatus), pending: Pending::Plain }
    } else {
        unknown_tool_reply(name, s)
    }
}

/// Dispatch an embedding tool call.
pub fn dispatch(session: &McpSession, name: &str, args: &Vec<(String, Json)>) -> (s: Step)
    ensures
        dispatch_spec(*session, name@, crate::json::json_view_fields(args@), s),
        s matches Step::Store { action, .. } ==> !(session.read_only && action.spec_is_write()),
{
    if str_eq(name, "strata_embed") {
        let text = match get_string_arg(args, "text") {
            Ok(t) => t,
            Err(e) => {
                return Step::Reply(Err(e));
            },
        };
        Step::Store { action: Action::Execute(Command::Embed { text }), pending: Pending::Plain }
    } else if str_eq(name, "strata_embed_batch") {
        let texts = match get_string_list(args, "texts") {
            Ok(t) => t,
            Err(e) => {
                return Step::Reply(Err(e));
            },
        };
        Step::Store {
            action: Action::Execute(Command::EmbedBatch { texts }),
            pending: Pending::Plain,
        }
    } else if str_eq(name, "strata_embed_status") {
        Step::Store { action: Action::Execute(Command::EmbedStatus), pending: Pending::Plain }
    } else {
        Step::Reply(Err(McpError::UnknownTool(name.to_owned())))
    }
}

/// The embedding tool definitions.
pub fn tools() -> (r: Vec<ToolDef>)
    ensures
        r@.len() == 3,
        r@[0].name@ == "strata_embed"@,
        r@[1].name@ == "strata_embed_batch"@,
        r@[2].name@ == "strata_embed_status"@,
{
    let mut required: Vec<(&str, &str)> = Vec::new();
    required.push(("text", "string"));
    let embed_schema = object_schema(required, Vec::new());
    let mut required: Vec<(&str, &str)> = Vec::new();
    required.push(("texts", "array_string"));
    let batch_schema = object_schema(required, Vec::new());
    let mut r: Vec<ToolDef> = Vec::new();
    r.push(
        ToolDef::new(
            "strata_embed",
            "Embed one text into a dense vector with the built-in embedding model. Returns \
             an array of numbers.",
            embed_schema,
        ),
    );
    r.push(
        ToolDef::new(
            "strata_embed_batch",
            "Embed several texts into dense vectors, more efficiently than one call per \
             text. Returns an array of arrays of numbers.",
            batch_schema,
        ),
    );
    r.push(
        ToolDef::new(
            "strata_embed_status",
            "Get the embedding pipeline's status: the automatic-embedding flag, batch size, \
             pending and total counters, scheduler depth and tasks, and the derived is_idle \
             flag.",
            empty_object_schema(),
        ),
    );
    r
}

} // verus!
