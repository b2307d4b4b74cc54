//! The inference tools: text generation, tokenization, and model unloading.

use vstd::prelude::*;

use crate::command::{Action, Command};
use crate::convert::{
    all_u32s, as_u32, collect_u32s, get_optional_bool, get_optional_num, get_optional_u32_array,
    get_optional_u64, get_string_arg, get_u32_array, invalid_arg_is, missing_arg_is, opt_u64_of,
};
use crate::error::McpError;
use crate::json::{field_of, Json, JsonV};
use crate::session::McpSession;
use crate::strutil::str_eq;
use crate::tools::agent::unknown_tool_reply;
use crate::tools::{empty_object_schema, object_schema, Pending, Step, ToolDef};

verus! {

/// The boolean argument of this name, if present and a boolean.
pub open spec fn opt_bool_of(argsv: Seq<(Seq<char>, JsonV)>, name: Seq<char>) -> Option<bool> {
    match field_of(argsv, name) {
        Some(j) => match j {
            JsonV::Bool(b) => Some(b),
            _ => None,
        },
        None => None,
    }
}

/// The numeric argument of this name, if present and a number.
pub open spec fn opt_num_of(argsv: Seq<(Seq<char>, JsonV)>, name: Seq<char>) -> Option<
    crate::command::Num,
> {
    match field_of(argsv, name) {
        Some(j) => crate::convert::as_num(j),
        None => None,
    }
}

/// The token id array argument of this name, with unusable entries skipped,
/// if present and an array.
pub open spec fn opt_u32s_of(argsv: Seq<(Seq<char>, JsonV)>, name: Seq<char>) -> Option<Seq<u32>> {
    match field_of(argsv, name) {
        Some(j) => match j {
            JsonV::Arr(items) => Some(collect_u32s(items)),
            _ => None,
        },
        None => None,
    }
}

/// What dispatching an inference tool call yields, by tool name.
pub open spec fn dispatch_spec(
    sess: McpSession,
    name: Seq<char>,
    argsv: Seq<(Seq<char>, JsonV)>,
    s: Step,
) -> bool {
    if name == "strata_generate"@ {
        match field_of(argsv, "model"@) {
            Some(mj) => match mj {
                JsonV::Str(m) => match field_of(argsv, "prompt"@) {
                    Some(pj) => match pj {
                        JsonV::Str(p) => {
                            &&& s matches Step::Store { action, pending }
                            &&& pending is Plain
                            &&& action matches Action::Execute(cmd)
                            &&& cmd matches Command::Generate {
                                model,
                                prompt,
                                max_tokens,
                                temperature,
                                top_k,
                                top_p,
                                seed,
                                stop_tokens,
                            }
                            &&& model@ == m
                            &&& prompt@ == p
                            &&& max_tokens == opt_u64_of(argsv, "max_tokens"@)
                            &&& temperature == opt_num_of(argsv, "temperature"@)
                            &&& top_k == opt_u64_of(argsv, "top_k"@)
                            &&& top_p == opt_num_of(argsv, "top_p"@)
                            &&& seed == opt_u64_of(argsv, "seed"@)
                            &&& (match (stop_tokens, opt_u32s_of(argsv, "stop_tokens"@)) {
                                (Some(got), Some(want)) => got@ == want,
                                (None, None) => true,
                                _ => false,
                            })
                        },
                        _ => s matches Step::Reply(Err(e)) && invalid_arg_is(
                            e,
                            "prompt"@,
                            "expected a string"@,
                        ),
                    },
                    None => s matches Step::Reply(Err(e)) && missing_arg_is(e, "prompt"@),
                },
                _ => s matches Step::Reply(Err(e)) && invalid_arg_is(
                    e,
                    "model"@,
                    "expected a string"@,
                ),
            },
            None => s matches Step::Reply(Err(e)) && missing_arg_is(e, "model"@),
        }
    } else if name == "strata_tokenize"@ {
        match field_of(argsv, "model"@) {
            Some(mj) => match mj {
                JsonV::Str(m) => match field_of(argsv, "text"@) {
                    Some(tj) => match tj {
                        JsonV::Str(t) => {
                            &&& s matches Step::Store { action, pending }
                            &&& pending is Plain
                            &&& action matches Action::Execute(cmd)
                            &&& cmd matches Command::Tokenize { model, text, add_special_tokens }
                            &&& model@ == m
                            &&& text@ == t
                            &&& add_special_tokens == opt_bool_of(argsv, "add_special_tokens"@)
                        },
                        _ => s matches Step::Reply(Err(e)) && invalid_arg_is(
                            e,
                            "text"@,
                            "expected a string"@,
                        ),
                    },
                    None => s matches Step::Reply(Err(e)) && missing_arg_is(e, "text"@),
                },
                _ => s matches Step::Reply(Err(e)) && invalid_arg_is(
                    e,
                    "model"@,
                    "expected a string"@,
                ),
            },
            None => s matches Step::Reply(Err(e)) && missing_arg_is(e, "model"@),
        }
    } else if name == "strata_detokenize"@ {
        match field_of(argsv, "model"@) {
            Some(mj) => match mj {
                JsonV::Str(m) => match field_of(argsv, "ids"@) {
                    Some(ij) => match ij {
                        JsonV::Arr(items) => if all_u32s(items) {
                            &&& s matches Step::Store { action, pending }
                            &&& pending is Plain
                            &&& action matches Action::Execute(cmd)
                            &&& cmd matches Command::Detokenize { model, ids }
                            &&& model@ == m
                            &&& ids@.len() == items.len()
                            &&& forall|i: int|
                                0 <= i < items.len() ==> Some(#[trigger] ids@[i]) == as_u32(
                                    items[i],
                                )
                        } else {
                            s matches Step::Reply(Err(e)) && invalid_arg_is(
                                e,
                                "ids"@,
                                "Expected array of integers"@,
                            )
                        },
                        _ => s matches Step::Reply(Err(e)) && invalid_arg_is(
                            e,
                            "ids"@,
                            "Expected array of integers"@,
                        ),
                    },
                    None => s matches Step::Reply(Err(e)) && missing_arg_is(e, "ids"@),
                },
                _ => s matches Step::Reply(Err(e)) && invalid_arg_is(
                    e,
                    "model"@,
                    "expected a string"@,
                ),
            },
            None => s matches Step::Reply(Err(e)) && missing_arg_is(e, "model"@),
        }
    } else if name == "strata_generate_unload"@ {
        match field_of(argsv, "model"@) {
            Some(mj) => match mj {
                JsonV::Str(m) => {
                    &&& s matches Step::Store { action, pending }
                    &&& pending is Plain
                    &&& action matches Action::Execute(cmd)
                    &&& cmd matches Command::GenerateUnload { model } && model@ == m
                },
                _ => s matches Step::Reply(Err(e)) && invalid_arg_is(
                    e,
                    "model"@,
                    "expected a string"@,
                ),
            },
            None => s matches Step::Reply(Err(e)) && missing_arg_is(e, "model"@),
        }
    } else {
        unknown_tool_reply(name, s)
    }
}

/// Dispatch an inference tool call.
pub fn dispatch(session: &McpSession, name: &str, args: &Vec<(String, Json)>) -> (s: Step)
    ensures
        dispatch_spec(*session, name@, crate::json::json_view_fields(args@), s),
        s matches Step::Store { action, .. } ==> !(session.read_only && action.spec_is_write()),
{
    if str_eq(name, "strata_generate") {
        let model = match get_string_arg(args, "model") {
            Ok(m) => m,
            Err(e) => {
                return Step::Reply(Err(e));
            },
        };
        let prompt = match get_string_arg(args, "prompt") {
            Ok(p) => p,
            Err(e) => {
                return Step::Reply(Err(e));
            },
        };
        let max_tokens = get_optional_u64(args, "max_tokens");
        let temperature = get_optional_num(args, "temperature");
        let top_k = get_optional_u64(args, "top_k");
        let top_p = get_optional_num(args, "top_p");
        let seed = get_optional_u64(args, "seed");
        let stop_tokens = get_optional_u32_array(args, "stop_tokens");
        let cmd = Command::Generate {
            model,
            prompt,
            max_tokens,
            temperature,
            top_k,
            top_p,
            seed,
            stop_tokens,
        };
        Step::Store { action: Action::Execute(cmd), pending: Pending::Plain }
    } else if str_eq(name, "strata_tokenize") {
        let model = match get_string_arg(args, "model") {
            Ok(m) => m,
            Err(e) => {
                return Step::Reply(Err(e));
            },
        };
        let text = match get_string_arg(args, "text") {
            Ok(t) => t,
            Err(e) => {
                return Step::Reply(Err(e));
            },
        };
        let add_special_tokens = get_optional_bool(args, "add_special_tokens");
        let cmd = Command::Tokenize { model, text, add_special_tokens };
        Step::Store { action: Action::Execute(cmd), pending: Pending::Plain }
    } else if str_eq(name, "strata_detokenize") {
        let model = match get_string_arg(args, "model") {
            Ok(m) => m,
            Err(e) => {
                return Step::Reply(Err(e));
            },
        };
        let ids = match get_u32_array(args, "ids") {
            Ok(v) => v,
            Err(e) => {
                return Step::Reply(Err(e));
            },
        };
        let cmd = Command::Detokenize { model, ids };
        Step::Store { action: Action::Execute(cmd), pending: Pending::Plain }
    } else if str_eq(name, "strata_generate_unload") {
        let model = match get_string_arg(args, "model") {
            Ok(m) => m,
            Err(e) => {
                return Step::Reply(Err(e));
            },
        };
        let cmd = Command::GenerateUnload { model };
        Step::Store { action: Action::Execute(cmd), pending: Pending::Plain }
    } else {
        Step::Reply(Err(McpError::UnknownTool(name.to_owned())))
    }
}

/// The inference tool definitions.
pub fn tools() -> (r: Vec<ToolDef>)
    ensures
        r@.len() == 4,
        r@[0].name@ == "strata_generate"@,
        r@[1].name@ == "strata_tokenize"@,
        r@[2].name@ == "strata_detokenize"@,
        r@[3].name@ == "strata_generate_unload"@,
{
    let mut required: Vec<(&str, &str)> = Vec::new();
    required.push(("model", "string"));
    required.push(("prompt", "string"));
    let mut optional: Vec<(&str, &str)> = Vec::new();
    optional.push(("max_tokens", "integer"));
    optional.push(("temperature", "number"));
    optional.push(("top_k", "integer"));
    optional.push(("top_p", "number"));
    optional.push(("seed", "integer"));
    optional.push(("stop_tokens", "array_number"));
    let generate_schema = object_schema(required, optional);

    let mut required: Vec<(&str, &str)> = Vec::new();
    required.push(("model", "string"));
    required.push(("text", "string"));
    let mut optional: Vec<(&str, &str)> = Vec::new();
    optional.push(("add_special_tokens", "boolean"));
    let tokenize_schema = object_schema(required, optional);

    let mut required: Vec<(&str, &str)> = Vec::new();
    required.push(("model", "string"));
    required.push(("ids", "array_number"));
    let detokenize_schema = object_schema(required, Vec::new());

    let mut required: Vec<(&str, &str)> = Vec::new();
    required.push(("model", "string"));
    let unload_schema = object_schema(required, Vec::new());

    let mut r: Vec<ToolDef> = Vec::new();
    r.push(
        ToolDef::new(
            "strata_generate",
            "Generate text with a locally loaded model. Returns the text, the stop reason, \
             token accounting, and the model's name.",
            generate_schema,
        ),
    );
    r.push(
        ToolDef::new(
            "strata_tokenize",
            "Tokenize text with a model's tokenizer. Returns the token ids, their count, \
             and the model's name.",
            tokenize_schema,
        ),
    );
    r.push(
        ToolDef::new(
            "strata_detokenize",
            "Convert token ids back to text with a model's tokenizer. Returns the decoded \
             text.",
            detokenize_schema,
        ),
    );
    r.push(
        ToolDef::new(
            "strata_generate_unload",
            "Unload a model from memory, freeing its resources. Returns whether a loaded \
             model was unloaded.",
            unload_schema,
        ),
    );
    r
}

} // verus!
