//! The curated agent tools: eight intent-level operations over the store.
//!
//! Each handler extracts its arguments with the typed helpers (failing fast
//! with `MissingArg` or `InvalidArg`), builds exactly one store action, and
//! names the continuation that turns the store's reply into the tool's JSON
//! shape. Write-classified commands pass the session's read-only guard
//! before the action is emitted.

use vstd::prelude::*;

use crate::command::{Action, Command, MergeStrategy};
use crate::convert::{
    decode_json, get_optional_string, get_optional_u64, get_string_arg, get_value_arg,
    invalid_arg_is, is_number_range_error, missing_arg_is, opt_str_of, opt_u64_of,
};
use crate::error::McpError;
use crate::json::{field_of, json_view_fields, Json, JsonV};
use crate::session::{access_denied_is, McpSession};
use crate::strutil::str_eq;
use crate::tools::{object_schema, Pending, Step, ToolDef};
use vstd::string::StringExecFns;

verus! {

/// Is this step the `UnknownTool` reply for this name?
pub open spec fn unknown_tool_reply(name: Seq<char>, s: Step) -> bool {
    &&& s matches Step::Reply(r)
    &&& r matches Err(e)
    &&& e matches McpError::UnknownTool(n)
    &&& n@ == name
}

/// The effective document path: the `path` argument when it is a string,
/// the whole document otherwise.
pub open spec fn path_of(argsv: Seq<(Seq<char>, JsonV)>) -> Seq<char> {
    match opt_str_of(argsv, "path"@) {
        Some(p) => p,
        None => "$"@,
    }
}

/// What dispatching the store tool yields.
pub open spec fn store_spec(sess: McpSession, argsv: Seq<(Seq<char>, JsonV)>, s: Step) -> bool {
    match field_of(argsv, "key"@) {
        Some(kj) => match kj {
            JsonV::Str(k) => match field_of(argsv, "value"@) {
                Some(vj) => match decode_json(vj) {
                    Some(v) => if sess.read_only {
                        s matches Step::Reply(Err(e)) && access_denied_is(e, "JsonSet"@)
                    } else {
                        &&& s matches Step::Store { action, pending }
                        &&& pending matches Pending::Store { key: pk } && pk@ == k
                        &&& action matches Action::Execute(cmd)
                        &&& cmd matches Command::JsonSet { branch, space, key, path, value }
                        &&& branch matches Some(b) && b@ == sess.cur_branch@
                        &&& space matches Some(sp) && sp@ == sess.cur_space@
                        &&& key@ == k
                        &&& path@ == path_of(argsv)
                        &&& value@ == v
                    },
                    None => s matches Step::Reply(Err(e)) && is_number_range_error(e),
                },
                None => s matches Step::Reply(Err(e)) && missing_arg_is(e, "value"@),
            },
            _ => s matches Step::Reply(Err(e)) && invalid_arg_is(e, "key"@, "expected a string"@),
        },
        None => s matches Step::Reply(Err(e)) && missing_arg_is(e, "key"@),
    }
}

/// What dispatching the recall tool yields.
pub open spec fn recall_spec(sess: McpSession, argsv: Seq<(Seq<char>, JsonV)>, s: Step) -> bool {
    match field_of(argsv, "key"@) {
        Some(kj) => match kj {
            JsonV::Str(k) => {
                &&& s matches Step::Store { action, pending }
                &&& pending is Plain
                &&& action matches Action::Execute(cmd)
                &&& cmd matches Command::JsonGet { branch, space, key, path, as_of }
                &&& branch matches Some(b) && b@ == sess.cur_branch@
                &&& space matches Some(sp) && sp@ == sess.cur_space@
                &&& key@ == k
                &&& path@ == path_of(argsv)
                &&& as_of == opt_u64_of(argsv, "as_of"@)
            },
            _ => s matches Step::Reply(Err(e)) && invalid_arg_is(e, "key"@, "expected a string"@),
        },
        None => s matches Step::Reply(Err(e)) && missing_arg_is(e, "key"@),
    }
}

/// What dispatching the search tool yields.
pub open spec fn search_spec(sess: McpSession, argsv: Seq<(Seq<char>, JsonV)>, s: Step) -> bool {
    match field_of(argsv, "query"@) {
        Some(qj) => match qj {
            JsonV::Str(q) => {
                &&& s matches Step::Store { action, pending }
                &&& pending is Search
                &&& action matches Action::Execute(cmd)
                &&& cmd matches Command::Search { branch, space, query, k }
                &&& branch matches Some(b) && b@ == sess.cur_branch@
                &&& space matches Some(sp) && sp@ == sess.cur_space@
                &&& query@ == q
                &&& k == opt_u64_of(argsv, "k"@)
            },
            _ => s matches Step::Reply(Err(e)) && invalid_arg_is(
                e,
                "query"@,
                "expected a string"@,
            ),
        },
        None => s matches Step::Reply(Err(e)) && missing_arg_is(e, "query"@),
    }
}

/// What dispatching the forget tool yields.
pub open spec fn forget_spec(sess: McpSession, argsv: Seq<(Seq<char>, JsonV)>, s: Step) -> bool {
    match field_of(argsv, "key"@) {
        Some(kj) => match kj {
            JsonV::Str(k) => if sess.read_only {
                s matches Step::Reply(Err(e)) && access_denied_is(e, "JsonDelete"@)
            } else {
                &&& s matches Step::Store { action, pending }
                &&& pending is Forget
                &&& action matches Action::Execute(cmd)
                &&& cmd matches Command::JsonDelete { branch, space, key, path }
                &&& branch matches Some(b) && b@ == sess.cur_branch@
                &&& space matches Some(sp) && sp@ == sess.cur_space@
                &&& key@ == k
                &&& path@ == "$"@
            },
            _ => s matches Step::Reply(Err(e)) && invalid_arg_is(e, "key"@, "expected a string"@),
        },
        None => s matches Step::Reply(Err(e)) && missing_arg_is(e, "key"@),
    }
}

/// What dispatching the log tool yields.
pub open spec fn log_spec(sess: McpSession, argsv: Seq<(Seq<char>, JsonV)>, s: Step) -> bool {
    match field_of(argsv, "event"@) {
        Some(ej) => match ej {
            JsonV::Str(ev) => match field_of(argsv, "data"@) {
                Some(dj) => match decode_json(dj) {
                    Some(d) => if sess.read_only {
                        s matches Step::Reply(Err(e)) && access_denied_is(e, "EventAppend"@)
                    } else {
                        &&& s matches Step::Store { action, pending }
                        &&& pending is Log
                        &&& action matches Action::Execute(cmd)
                        &&& cmd matches Command::EventAppend { branch, space, event_type, payload }
                        &&& branch matches Some(b) && b@ == sess.cur_branch@
                        &&& space matches Some(sp) && sp@ == sess.cur_space@
                        &&& event_type@ == ev
                        &&& payload@ == d
                    },
                    None => s matches Step::Reply(Err(e)) && is_number_range_error(e),
                },
                None => s matches Step::Reply(Err(e)) && missing_arg_is(e, "data"@),
            },
            _ => s matches Step::Reply(Err(e)) && invalid_arg_is(
                e,
                "event"@,
                "expected a string"@,
            ),
        },
        None => s matches Step::Reply(Err(e)) && missing_arg_is(e, "event"@),
    }
}

/// The reason an unrecognized branch action is rejected with.
pub open spec fn unknown_action_reason(a: Seq<char>) -> Seq<char> {
    "Unknown action '"@ + a + "'. Use: create, switch, list, fork, merge, diff, or delete."@
}

/// What dispatching the branch tool yields, multiplexed by `action`.
pub open spec fn branch_spec(sess: McpSession, argsv: Seq<(Seq<char>, JsonV)>, s: Step) -> bool {
    match field_of(argsv, "action"@) {
        Some(aj) => match aj {
            JsonV::Str(a) => if a == "create"@ {
                if sess.read_only {
                    s matches Step::Reply(Err(e)) && access_denied_is(e, "BranchCreate"@)
                } else {
                    &&& s matches Step::Store { action, pending }
                    &&& pending is Plain
                    &&& action matches Action::Execute(cmd)
                    &&& cmd matches Command::BranchCreate { branch_id }
                    &&& (match (branch_id, opt_str_of(argsv, "name"@)) {
                        (Some(g), Some(w)) => g@ == w,
                        (None, None) => true,
                        _ => false,
                    })
                }
            } else if a == "switch"@ {
                match opt_str_of(argsv, "name"@) {
                    Some(n) => {
                        &&& s matches Step::Store { action, pending }
                        &&& pending matches Pending::BranchSwitch { name } && name@ == n
                        &&& action matches Action::Execute(cmd)
                        &&& cmd matches Command::BranchExists { branch } && branch@ == n
                    },
                    None => s matches Step::Reply(Err(e)) && (missing_arg_is(e, "name"@)
                        || invalid_arg_is(e, "name"@, "expected a string"@)),
                }
            } else if a == "list"@ {
                &&& s matches Step::Store { action, pending }
                &&& pending is Plain
                &&& action == Action::Execute(Command::BranchList)
            } else if a == "fork"@ {
                match opt_str_of(argsv, "name"@) {
                    Some(n) => if sess.read_only {
                        s matches Step::Reply(Err(e)) && access_denied_is(e, "BranchFork"@)
                    } else {
                        &&& s matches Step::Store { action, pending }
                        &&& pending is BranchFork
                        &&& action matches Action::BranchFork { source, destination }
                        &&& source@ == sess.cur_branch@
                        &&& destination@ == n
                    },
                    None => s matches Step::Reply(Err(e)) && (missing_arg_is(e, "name"@)
                        || invalid_arg_is(e, "name"@, "expected a string"@)),
                }
            } else if a == "merge"@ {
                match opt_str_of(argsv, "source"@) {
                    Some(src) => if sess.read_only {
                        s matches Step::Reply(Err(e)) && access_denied_is(e, "BranchMerge"@)
                    } else {
                        &&& s matches Step::Store { action, pending }
                        &&& pending is BranchMerge
                        &&& action matches Action::BranchMerge { source, destination, strategy }
                        &&& source@ == src
                        &&& destination@ == sess.cur_branch@
                        &&& strategy == MergeStrategy::LastWriterWins
                    },
                    None => s matches Step::Reply(Err(e)) && (missing_arg_is(e, "source"@)
                        || invalid_arg_is(e, "source"@, "expected a string"@)),
                }
            } else if a == "diff"@ {
                match opt_str_of(argsv, "compare"@) {
                    Some(c) => {
                        &&& s matches Step::Store { action, pending }
                        &&& pending is BranchDiff
                        &&& action matches Action::BranchDiff { branch_a, branch_b }
                        &&& branch_a@ == sess.cur_branch@
                        &&& branch_b@ == c
                    },
                    None => s matches Step::Reply(Err(e)) && (missing_arg_is(e, "compare"@)
                        || invalid_arg_is(e, "compare"@, "expected a string"@)),
                }
            } else if a == "delete"@ {
                match opt_str_of(argsv, "name"@) {
                    Some(n) => if sess.read_only {
                        s matches Step::Reply(Err(e)) && access_denied_is(e, "BranchDelete"@)
                    } else {
                        &&& s matches Step::Store { action, pending }
                        &&& pending is Plain
                        &&& action matches Action::Execute(cmd)
                        &&& cmd matches Command::BranchDelete { branch } && branch@ == n
                    },
                    None => s matches Step::Reply(Err(e)) && (missing_arg_is(e, "name"@)
                        || invalid_arg_is(e, "name"@, "expected a string"@)),
                }
            } else {
                s matches Step::Reply(Err(e)) && invalid_arg_is(
                    e,
                    "action"@,
                    unknown_action_reason(a),
                )
            },
            _ => s matches Step::Reply(Err(e)) && invalid_arg_is(
                e,
                "action"@,
                "expected a string"@,
            ),
        },
        None => s matches Step::Reply(Err(e)) && missing_arg_is(e, "action"@),
    }
}

/// What dispatching the history tool yields.
pub open spec fn history_spec(sess: McpSession, argsv: Seq<(Seq<char>, JsonV)>, s: Step) -> bool {
    match opt_str_of(argsv, "key"@) {
        Some(k) => {
            &&& s matches Step::Store { action, pending }
            &&& pending is Plain
            &&& action matches Action::Execute(cmd)
            &&& cmd matches Command::JsonGetv { branch, space, key, as_of }
            &&& branch matches Some(b) && b@ == sess.cur_branch@
            &&& space matches Some(sp) && sp@ == sess.cur_space@
            &&& key@ == k
            &&& as_of == opt_u64_of(argsv, "as_of"@)
        },
        None => {
            &&& s matches Step::Store { action, pending }
            &&& pending is HistoryRange
            &&& action matches Action::Execute(cmd)
            &&& cmd matches Command::TimeRange { branch }
            &&& branch matches Some(b) && b@ == sess.cur_branch@
        },
    }
}

/// What dispatching the status tool yields.
pub open spec fn status_spec(sess: McpSession, s: Step) -> bool {
    s == Step::Store { action: Action::Execute(Command::Info), pending: Pending::StatusInfo }
}

/// What dispatching an agent tool call yields, by tool name.
pub open spec fn dispatch_spec(
    sess: McpSession,
    name: Seq<char>,
    argsv: Seq<(Seq<char>, JsonV)>,
    s: Step,
) -> bool {
    if name == "strata_store"@ {
        store_spec(sess, argsv, s)
    } else if name == "strata_recall"@ {
        recall_spec(sess, argsv, s)
    } else if name == "strata_search"@ {
        search_spec(sess, argsv, s)
    } else if name == "strata_forget"@ {
        forget_spec(sess, argsv, s)
    } else if name == "strata_log"@ {
        log_spec(sess, argsv, s)
    } else if name == "strata_branch"@ {
        branch_spec(sess, argsv, s)
    } else if name == "strata_history"@ {
        history_spec(sess, argsv, s)
    } else if name == "strata_status"@ {
        status_spec(sess, s)
    } else {
        unknown_tool_reply(name, s)
    }
}

fn dispatch_store(session: &McpSession, args: &Vec<(String, Json)>) -> (s: Step)
    ensures
        store_spec(*session, json_view_fields(args@), s),
{
    let key = match get_string_arg(args, "key") {
        Ok(k) => k,
        Err(e) => {
            return Step::Reply(Err(e));
        },
    };
    let value = match get_value_arg(args, "value") {
        Ok(v) => v,
        Err(e) => {
            return Step::Reply(Err(e));
        },
    };
    let path = match get_optional_string(args, "path") {
        Some(p) => p,
        None => "$".to_owned(),
    };
    let cmd = Command::JsonSet {
        branch: session.branch_id(),
        space: session.space_id(),
        key: key.clone(),
        path,
        value,
    };
    match session.begin_execute(&cmd) {
        Ok(_) => Step::Store { action: Action::Execute(cmd), pending: Pending::Store { key } },
        Err(e) => Step::Reply(Err(e)),
    }
}

fn dispatch_recall(session: &McpSession, args: &Vec<(String, Json)>) -> (s: Step)
    ensures
        recall_spec(*session, json_view_fields(args@), s),
{
    let key = match get_string_arg(args, "key") {
        Ok(k) => k,
        Err(e) => {
            return Step::Reply(Err(e));
        },
    };
    let path = match get_optional_string(args, "path") {
        Some(p) => p,
        None => "$".to_owned(),
    };
    let as_of = get_optional_u64(args, "as_of");
    let cmd = Command::JsonGet {
        branch: session.branch_id(),
        space: session.space_id(),
        key,
        path,
        as_of,
    };
    Step::Store { action: Action::Execute(cmd), pending: Pending::Plain }
}

fn dispatch_search(session: &McpSession, args: &Vec<(String, Json)>) -> (s: Step)
    ensures
        search_spec(*session, json_view_fields(args@), s),
{
    let query = match get_string_arg(args, "query") {
        Ok(q) => q,
        Err(e) => {
            return Step::Reply(Err(e));
        },
    };
    let k = get_optional_u64(args, "k");
    let cmd = Command::Search { branch: session.branch_id(), space: session.space_id(), query, k };
    Step::Store { action: Action::Execute(cmd), pending: Pending::Search }
}

fn dispatch_forget(session: &McpSession, args: &Vec<(String, Json)>) -> (s: Step)
    ensures
        forget_spec(*session, json_view_fields(args@), s),
{
    let key = match get_string_arg(args, "key") {
        Ok(k) => k,
        Err(e) => {
            return Step::Reply(Err(e));
        },
    };
    let cmd = Command::JsonDelete {
        branch: session.branch_id(),
        space: session.space_id(),
        key,
        path: "$".to_owned(),
    };
    match session.begin_execute(&cmd) {
        Ok(_) => Step::Store { action: Action::Execute(cmd), pending: Pending::Forget },
        Err(e) => Step::Reply(Err(e)),
    }
}

fn dispatch_log(session: &McpSession, args: &Vec<(String, Json)>) -> (s: Step)
    ensures
        log_spec(*session, json_view_fields(args@), s),
{
    let event = match get_string_arg(args, "event") {
        Ok(ev) => ev,
        Err(e) => {
            return Step::Reply(Err(e));
        },
    };
    let data = match get_value_arg(args, "data") {
        Ok(d) => d,
        Err(e) => {
            return Step::Reply(Err(e));
        },
    };
    let cmd = Command::EventAppend {
        branch: session.branch_id(),
        space: session.space_id(),
        event_type: event,
        payload: data,
    };
    match session.begin_execute(&cmd) {
        Ok(_) => Step::Store { action: Action::Execute(cmd), pending: Pending::Log },
        Err(e) => Step::Reply(Err(e)),
    }
}

fn dispatch_branch(session: &McpSession, args: &Vec<(String, Json)>) -> (s: Step)
    ensures
        branch_spec(*session, json_view_fields(args@), s),
{
    let action = match get_string_arg(args, "action") {
        Ok(a) => a,
        Err(e) => {
            return Step::Reply(Err(e));
        },
    };
    if str_eq(action.as_str(), "create") {
        let name = get_optional_string(args, "name");
        let cmd = Command::BranchCreate { branch_id: name };
        match session.begin_execute(&cmd) {
            Ok(_) => Step::Store { action: Action::Execute(cmd), pending: Pending::Plain },
            Err(e) => Step::Reply(Err(e)),
        }
    } else if str_eq(action.as_str(), "switch") {
        let name = match get_string_arg(args, "name") {
            Ok(n) => n,
            Err(e) => {
                return Step::Reply(Err(e));
            },
        };
        let cmd = session.switch_branch_command(name.as_str());
        Step::Store { action: Action::Execute(cmd), pending: Pending::BranchSwitch { name } }
    } else if str_eq(action.as_str(), "list") {
        Step::Store { action: Action::Execute(Command::BranchList), pending: Pending::Plain }
    } else if str_eq(action.as_str(), "fork") {
        let name = match get_string_arg(args, "name") {
            Ok(n) => n,
            Err(e) => {
                return Step::Reply(Err(e));
            },
        };
        match session.fork_branch(name.as_str()) {
            Ok(a) => Step::Store { action: a, pending: Pending::BranchFork },
            Err(e) => Step::Reply(Err(e)),
        }
    } else if str_eq(action.as_str(), "merge") {
        let source = match get_string_arg(args, "source") {
            Ok(n) => n,
            Err(e) => {
                return Step::Reply(Err(e));
            },
        };
        match session.merge_branch(source.as_str(), MergeStrategy::LastWriterWins) {
            Ok(a) => Step::Store { action: a, pending: Pending::BranchMerge },
            Err(e) => Step::Reply(Err(e)),
        }
    } else if str_eq(action.as_str(), "diff") {
        let compare = match get_string_arg(args, "compare") {
            Ok(n) => n,
            Err(e) => {
                return Step::Reply(Err(e));
            },
        };
        let a = session.diff_branches(session.branch(), compare.as_str());
        Step::Store { action: a, pending: Pending::BranchDiff }
    } else if str_eq(action.as_str(), "delete") {
        let name = match get_string_arg(args, "name") {
            Ok(n) => n,
            Err(e) => {
                return Step::Reply(Err(e));
            },
        };
        let cmd = Command::BranchDelete { branch: name };
        match session.begin_execute(&cmd) {
            Ok(_) => Step::Store { action: Action::Execute(cmd), pending: Pending::Plain },
            Err(e) => Step::Reply(Err(e)),
        }
    } else {
        let reason = "Unknown action '".to_owned().concat(action.as_str()).concat(
            "'. Use: create, switch, list, fork, merge, diff, or delete.",
        );
        Step::Reply(Err(McpError::InvalidArg { name: "action".to_owned(), reason }))
    }
}

fn dispatch_history(session: &McpSession, args: &Vec<(String, Json)>) -> (s: Step)
    ensures
        history_spec(*session, json_view_fields(args@), s),
{
    match get_optional_string(args, "key") {
        Some(key) => {
            let as_of = get_optional_u64(args, "as_of");
            let cmd = Command::JsonGetv {
                branch: session.branch_id(),
                space: session.space_id(),
                key,
                as_of,
            };
            Step::Store { action: Action::Execute(cmd), pending: Pending::Plain }
        },
        None => {
            let cmd = Command::TimeRange { branch: session.branch_id() };
            Step::Store { action: Action::Execute(cmd), pending: Pending::HistoryRange }
        },
    }
}

fn dispatch_status(session: &McpSession) -> (s: Step)
    ensures
        status_spec(*session, s),
{
    Step::Store { action: Action::Execute(Command::Info), pending: Pending::StatusInfo }
}

/// Dispatch an agent tool call by exact name match.
pub fn dispatch(session: &McpSession, name: &str, args: &Vec<(String, Json)>) -> (s: Step)
    ensures
        dispatch_spec(*session, name@, json_view_fields(args@), s),
        s matches Step::Store { action, .. } ==> !(session.read_only && action.spec_is_write()),
{
    let s = if str_eq(name, "strata_store") {
        dispatch_store(session, args)
    } else if str_eq(name, "strata_recall") {
        dispatch_recall(session, args)
    } else if str_eq(name, "strata_search") {
        dispatch_search(session, args)
    } else if str_eq(name, "strata_forget") {
        dispatch_forget(session, args)
    } else if str_eq(name, "strata_log") {
        dispatch_log(session, args)
    } else if str_eq(name, "strata_branch") {
        dispatch_branch(session, args)
    } else if str_eq(name, "strata_history") {
        dispatch_history(session, args)
    } else if str_eq(name, "strata_status") {
        dispatch_status(session)
    } else {
        Step::Reply(Err(McpError::UnknownTool(name.to_owned())))
    };
    s
}

/// The agent tool definitions, in their fixed order.
pub fn tools() -> (r: Vec<ToolDef>)
    ensures
        r@.len() == 8,
        r@[0].name@ == "strata_store"@,
        r@[1].name@ == "strata_recall"@,
        r@[2].name@ == "strata_search"@,
        r@[3].name@ == "strata_forget"@,
        r@[4].name@ == "strata_log"@,
        r@[5].name@ == "strata_branch"@,
        r@[6].name@ == "strata_history"@,
        r@[7].name@ == "strata_status"@,
{
    let mut required: Vec<(&str, &str)> = Vec::new();
    required.push(("key", "string"));
    required.push(("value", "any"));
    let mut optional: Vec<(&str, &str)> = Vec::new();
    optional.push(("path", "string"));
    let store_schema = object_schema(required, optional);

    let mut required: Vec<(&str, &str)> = Vec::new();
    required.push(("key", "string"));
    let mut optional: Vec<(&str, &str)> = Vec::new();
    optional.push(("path", "string"));
    optional.push(("as_of", "integer"));
    let recall_schema = object_schema(required, optional);

    let mut required: Vec<(&str, &str)> = Vec::new();
    required.push(("query", "string"));
    let mut optional: Vec<(&str, &str)> = Vec::new();
    optional.push(("k", "integer"));
    let search_schema = object_schema(required, optional);

    let mut required: Vec<(&str, &str)> = Vec::new();
    required.push(("key", "string"));
    let forget_schema = object_schema(required, Vec::new());

    let mut required: Vec<(&str, &str)> = Vec::new();
    required.push(("event", "string"));
    required.push(("data", "any"));
    let log_schema = object_schema(required, Vec::new());

    let mut required: Vec<(&str, &str)> = Vec::new();
    required.push(("action", "string"));
    let mut optional: Vec<(&str, &str)> = Vec::new();
    optional.push(("name", "string"));
    optional.push(("source", "string"));
    optional.push(("compare", "string"));
    let branch_schema = object_schema(required, optional);

    let mut optional: Vec<(&str, &str)> = Vec::new();
    optional.push(("key", "string"));
    optional.push(("as_of", "integer"));
    let history_schema = object_schema(Vec::new(), optional);

    let status_schema = object_schema(Vec::new(), Vec::new());

    let mut r: Vec<ToolDef> = Vec::new();
    r.push(
        ToolDef::new(
            "strata_store",
            "Store a JSON document by key. Use the optional 'path' parameter with JSONPath \
             syntax to update a nested field without overwriting the whole document. Every \
             write is versioned. Returns { key, version, stored: true }.",
            store_schema,
        ),
    );
    r.push(
        ToolDef::new(
            "strata_recall",
            "Retrieve a document by key, with optional 'path' targeting and 'as_of' \
             time-travel (microsecond timestamp). Returns { value, version, timestamp } or \
             null when the key does not exist.",
            recall_schema,
        ),
    );
    r.push(
        ToolDef::new(
            "strata_search",
            "Find relevant data with a natural-language query. Returns an array of \
             { key, score, snippet } ranked by relevance; 'k' controls how many results.",
            search_schema,
        ),
    );
    r.push(
        ToolDef::new(
            "strata_forget",
            "Delete a document by key. Returns { deleted: true } when the key existed, \
             { deleted: false } otherwise. The deletion is itself versioned, so history \
             and time-travel still see the prior values.",
            forget_schema,
        ),
    );
    r.push(
        ToolDef::new(
            "strata_log",
            "Append an immutable event: a type tag with any JSON payload. Events cannot be \
             changed after the fact. Returns { sequence, logged: true }.",
            log_schema,
        ),
    );
    r.push(
        ToolDef::new(
            "strata_branch",
            "Manage branches: copy-on-write snapshots of all data. Actions: create, switch, \
             list, fork, merge, diff, delete. 'name' serves create/switch/fork/delete, \
             'source' serves merge, 'compare' serves diff.",
            branch_schema,
        ),
    );
    r.push(
        ToolDef::new(
            "strata_history",
            "With 'key': every historical version of that key, with values, versions, and \
             timestamps. Without 'key': the oldest and latest timestamps on the current \
             branch, the range available to 'as_of' queries.",
            history_schema,
        ),
    );
    r.push(
        ToolDef::new(
            "strata_status",
            "Get database status: current branch, namespace, version, branch count, key \
             count, uptime, and whether automatic embedding is active.",
            status_schema,
        ),
    );
    r
}

} // verus!
