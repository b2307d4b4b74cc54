//! The tool registry and name-based dispatch.
//!
//! Dispatching a tool call yields a [`Step`]: either the finished JSON reply,
//! or the store action to perform together with a [`Pending`] continuation.
//! The caller performs the action against the store and hands the reply to
//! [`resume`], which folds it into the session and either finishes or asks
//! for the next action. The read-only guard is applied before a write action
//! is ever emitted, so a write against a read-only store never reaches it.

pub mod agent;
pub mod durability;
pub mod embed;
pub mod inference;
pub mod models;
pub mod retention;

use vstd::prelude::*;

use crate::command::{Action, Command};
use crate::error::{McpError, StoreFault};
use crate::json::{Json, JsonV};
use crate::output::{
    merge_conflict_list_json_view, obj1, obj2, obj3, obj5, obj6, opt_u64_json_view,
    output_json_view, output_to_json, u64_json_view, DatabaseInfo, Output, SearchResult,
};
use crate::output::{jopt_u64, jstr, ju64};
use crate::session::{txn_after, McpSession};
use crate::strutil::str_starts_with;

verus! {

broadcast use vstd::std_specs::vec::group_vec_axioms, crate::json::lemma_json_view_seq,
    crate::json::lemma_json_view_fields;

/// A tool definition: the catalogue entry surfaced to callers.
#[derive(Debug, PartialEq, Eq)]
pub struct ToolDef {
    /// The tool's name.
    pub name: String,
    /// What the tool does, for the caller's benefit.
    pub description: String,
    /// A JSON Schema describing the tool's parameters. Descriptive metadata
    /// only: enforcement happens in the typed argument helpers.
    pub input_schema: Json,
}

impl ToolDef {
    /// Creates a tool definition.
    pub fn new(name: &str, description: &str, input_schema: Json) -> (t: ToolDef)
        ensures
            t.name@ == name@,
            t.description@ == description@,
            t.input_schema == input_schema,
    {
        ToolDef { name: name.to_owned(), description: description.to_owned(), input_schema }
    }
}

/// What a tool call still needs after a store action: how to turn the
/// store's reply into the tool's JSON reply.
#[derive(Debug, PartialEq, Eq)]
pub enum Pending {
    /// Render the output through the generic output codec.
    Plain,
    /// Narrow a write's version into `{key, version, stored: true}`.
    Store {
        /// The key that was written.
        key: String,
    },
    /// Narrow search results into `{key, score, snippet}` items.
    Search,
    /// Narrow a deleted count into `{deleted: bool}`.
    Forget,
    /// Narrow an event's sequence into `{sequence, logged: true}`.
    Log,
    /// Commit a branch switch from the existence check's reply.
    BranchSwitch {
        /// The branch to switch to.
        name: String,
    },
    /// Render a fork's result.
    BranchFork,
    /// Render a merge's result.
    BranchMerge,
    /// Render a comparison's result.
    BranchDiff,
    /// Render the branch's time range.
    HistoryRange,
    /// Build the status object, then ask for the embedding status.
    StatusInfo,
    /// Fold the embedding status into the status object, tolerating failure.
    StatusEmbed {
        /// The status object built so far.
        partial: Json,
    },
}

/// One step of a tool call: the finished reply, or a store action with the
/// continuation that consumes its reply.
#[derive(Debug, PartialEq, Eq)]
pub enum Step {
    /// The tool call is finished.
    Reply(Result<Json, McpError>),
    /// The caller must perform this action and resume with its reply.
    Store {
        /// The store action to perform.
        action: Action,
        /// What to do with the reply.
        pending: Pending,
    },
}

/// Is this step a reply carrying the store fault verbatim?
pub open spec fn store_fault_reply(f: StoreFault, s: Step) -> bool {
    &&& s matches Step::Reply(r)
    &&& r matches Err(e)
    &&& e matches McpError::Store { code, message }
    &&& code == f.code
    &&& message == f.message
}

/// The `{key, version, stored: true}` reply of a store tool call.
pub open spec fn store_reply_json_view(key: Seq<char>, v: u64) -> JsonV {
    JsonV::Obj(
        seq![
            ("key"@, JsonV::Str(key)),
            ("version"@, u64_json_view(v)),
            ("stored"@, JsonV::Bool(true)),
        ],
    )
}

/// The `{sequence, logged: true}` reply of a log tool call.
pub open spec fn log_reply_json_view(v: u64) -> JsonV {
    JsonV::Obj(seq![("sequence"@, u64_json_view(v)), ("logged"@, JsonV::Bool(true))])
}

/// The `{deleted: bool}` reply of a forget tool call.
pub open spec fn forget_reply_json_view(n: u64) -> JsonV {
    JsonV::Obj(seq![("deleted"@, JsonV::Bool(n > 0))])
}

/// The `{switched: true, branch}` reply of a branch switch.
pub open spec fn switch_reply_json_view(name: Seq<char>) -> JsonV {
    JsonV::Obj(seq![("switched"@, JsonV::Bool(true)), ("branch"@, JsonV::Str(name))])
}

/// The reply of a branch fork.
pub open spec fn fork_reply_json_view(info: crate::output::ForkInfo) -> JsonV {
    JsonV::Obj(
        seq![
            ("forked"@, JsonV::Bool(true)),
            ("source"@, JsonV::Str(info.source@)),
            ("destination"@, JsonV::Str(info.destination@)),
            ("keys_copied"@, u64_json_view(info.keys_copied)),
        ],
    )
}

/// The reply of a branch merge.
pub open spec fn merge_reply_json_view(info: crate::output::MergeInfo) -> JsonV {
    JsonV::Obj(
        seq![
            ("merged"@, JsonV::Bool(true)),
            ("keys_applied"@, u64_json_view(info.keys_applied)),
            ("spaces_merged"@, u64_json_view(info.spaces_merged)),
            ("conflicts"@, merge_conflict_list_json_view(info.conflicts@)),
        ],
    )
}

/// The reply of a branch comparison.
pub open spec fn diff_reply_json_view(diff: crate::output::BranchDiffResult) -> JsonV {
    JsonV::Obj(
        seq![
            ("current_branch"@, JsonV::Str(diff.branch_a@)),
            ("compare_branch"@, JsonV::Str(diff.branch_b@)),
            ("added"@, u64_json_view(diff.summary.total_added)),
            ("removed"@, u64_json_view(diff.summary.total_removed)),
            ("modified"@, u64_json_view(diff.summary.total_modified)),
        ],
    )
}

/// The reply of a history query without a key: the branch's time range.
pub open spec fn history_range_json_view(
    branch: Seq<char>,
    oldest: Option<u64>,
    latest: Option<u64>,
) -> JsonV {
    JsonV::Obj(
        seq![
            ("branch"@, JsonV::Str(branch)),
            ("oldest"@, opt_u64_json_view(oldest)),
            ("latest"@, opt_u64_json_view(latest)),
        ],
    )
}

/// One simplified search item: `{key, score, snippet}`.
pub open spec fn agent_search_item_json_view(r: SearchResult) -> JsonV {
    JsonV::Obj(
        seq![
            ("key"@, JsonV::Str(r.entity@)),
            ("score"@, JsonV::Float(r.score)),
            ("snippet"@, JsonV::Str(r.snippet@)),
        ],
    )
}

/// The simplified search reply: items ranked as the store returned them.
pub open spec fn agent_search_json_view(results: Seq<SearchResult>) -> JsonV {
    JsonV::Arr(Seq::new(results.len(), |i: int| agent_search_item_json_view(results[i])))
}

/// The status object built from the database description and the session.
pub open spec fn status_info_json_view(
    info: DatabaseInfo,
    branch: Seq<char>,
    space: Seq<char>,
) -> JsonV {
    JsonV::Obj(
        seq![
            ("version"@, JsonV::Str(info.version@)),
            ("branch"@, JsonV::Str(branch)),
            ("namespace"@, JsonV::Str(space)),
            ("branches"@, u64_json_view(info.branch_count)),
            ("keys"@, u64_json_view(info.total_keys)),
            ("uptime_secs"@, u64_json_view(info.uptime_secs)),
        ],
    )
}

/// The bare status object used when the database description is missing.
pub open spec fn status_bare_json_view(branch: Seq<char>, space: Seq<char>) -> JsonV {
    JsonV::Obj(seq![("branch"@, JsonV::Str(branch)), ("namespace"@, JsonV::Str(space))])
}

/// The status object with the embedding flag folded in: appended when the
/// object can take it, the object unchanged otherwise.
pub open spec fn status_with_embed_json_view(partial: JsonV, auto_embed: bool) -> JsonV {
    match partial {
        JsonV::Obj(fields) => JsonV::Obj(fields.push(("auto_embed"@, JsonV::Bool(auto_embed)))),
        _ => partial,
    }
}

/// Does the session keep everything but the transaction flag, which follows
/// the reply's output?
pub open spec fn session_tracks_reply(
    old_s: McpSession,
    new_s: McpSession,
    reply: Result<Output, StoreFault>,
) -> bool {
    &&& new_s.cur_branch == old_s.cur_branch
    &&& new_s.cur_space == old_s.cur_space
    &&& new_s.read_only == old_s.read_only
    &&& match reply {
        Ok(o) => new_s.txn_active == txn_after(old_s.txn_active, o),
        Err(_) => new_s.txn_active == old_s.txn_active,
    }
}

/// Is `p` a prefix of `s`?
pub open spec fn is_prefix(p: Seq<char>, s: Seq<char>) -> bool {
    s.len() >= p.len() && s.subrange(0, p.len() as int) == p
}

/// Where developer-mode dispatch routes a tool name: the first matching
/// name prefix picks the owning module, which dispatches by exact match.
pub open spec fn developer_dispatch_spec(
    sess: McpSession,
    name: Seq<char>,
    argsv: Seq<(Seq<char>, JsonV)>,
    s: Step,
) -> bool {
    if is_prefix("strata_embed"@, name) {
        embed::dispatch_spec(sess, name, argsv, s)
    } else if is_prefix("strata_generate"@, name) || is_prefix("strata_tokenize"@, name)
        || is_prefix("strata_detokenize"@, name) {
        inference::dispatch_spec(sess, name, argsv, s)
    } else if is_prefix("strata_models_"@, name) {
        models::dispatch_spec(sess, name, argsv, s)
    } else if is_prefix("strata_retention_"@, name) {
        retention::dispatch_spec(sess, name, argsv, s)
    } else if is_prefix("strata_durability_"@, name) {
        durability::dispatch_spec(sess, name, argsv, s)
    } else {
        agent::unknown_tool_reply(name, s)
    }
}

/// What [`resume`] does, for every continuation and every reply.
pub open spec fn resume_spec(
    old_s: McpSession,
    new_s: McpSession,
    pending: Pending,
    reply: Result<Output, StoreFault>,
    s: Step,
) -> bool {
    match pending {
        Pending::Plain => {
            &&& session_tracks_reply(old_s, new_s, reply)
            &&& match reply {
                Ok(o) => s matches Step::Reply(Ok(j)) && j@ == output_json_view(o),
                Err(f) => store_fault_reply(f, s),
            }
        },
        Pending::Store { key } => {
            &&& session_tracks_reply(old_s, new_s, reply)
            &&& match reply {
                Ok(o) => match o {
                    Output::Version(v) => s matches Step::Reply(Ok(j)) && j@
                        == store_reply_json_view(key@, v),
                    _ => s matches Step::Reply(Ok(j)) && j@ == output_json_view(o),
                },
                Err(f) => store_fault_reply(f, s),
            }
        },
        Pending::Search => {
            &&& session_tracks_reply(old_s, new_s, reply)
            &&& match reply {
                Ok(o) => match o {
                    Output::SearchResults(rs) => s matches Step::Reply(Ok(j)) && j@
                        == agent_search_json_view(rs@),
                    _ => s matches Step::Reply(Ok(j)) && j@ == output_json_view(o),
                },
                Err(f) => store_fault_reply(f, s),
            }
        },
        Pending::Forget => {
            &&& session_tracks_reply(old_s, new_s, reply)
            &&& match reply {
                Ok(o) => match o {
                    Output::Uint(n) => s matches Step::Reply(Ok(j)) && j@
                        == forget_reply_json_view(n),
                    _ => s matches Step::Reply(Ok(j)) && j@ == output_json_view(o),
                },
                Err(f) => store_fault_reply(f, s),
            }
        },
        Pending::Log => {
            &&& session_tracks_reply(old_s, new_s, reply)
            &&& match reply {
                Ok(o) => match o {
                    Output::Version(v) => s matches Step::Reply(Ok(j)) && j@
                        == log_reply_json_view(v),
                    _ => s matches Step::Reply(Ok(j)) && j@ == output_json_view(o),
                },
                Err(f) => store_fault_reply(f, s),
            }
        },
        Pending::BranchSwitch { name } => {
            &&& new_s.cur_space == old_s.cur_space
            &&& new_s.read_only == old_s.read_only
            &&& new_s.txn_active == old_s.txn_active
            &&& match reply {
                Ok(o) => match o {
                    Output::Bool(exists) => if exists {
                        &&& new_s.cur_branch@ == name@
                        &&& s matches Step::Reply(Ok(j)) && j@ == switch_reply_json_view(name@)
                    } else {
                        &&& new_s.cur_branch == old_s.cur_branch
                        &&& s matches Step::Reply(Err(e))
                        &&& e matches McpError::BranchNotFound(n) && n@ == name@
                    },
                    _ => {
                        &&& new_s.cur_branch == old_s.cur_branch
                        &&& s matches Step::Reply(Err(e)) && e is Internal
                    },
                },
                Err(f) => new_s.cur_branch == old_s.cur_branch && store_fault_reply(f, s),
            }
        },
        Pending::BranchFork => {
            &&& new_s == old_s
            &&& match reply {
                Ok(o) => match o {
                    Output::BranchForked(info) => s matches Step::Reply(Ok(j)) && j@
                        == fork_reply_json_view(info),
                    _ => s matches Step::Reply(Err(e)) && e is Internal,
                },
                Err(f) => store_fault_reply(f, s),
            }
        },
        Pending::BranchMerge => {
            &&& new_s == old_s
            &&& match reply {
                Ok(o) => match o {
                    Output::BranchMerged(info) => s matches Step::Reply(Ok(j)) && j@
                        == merge_reply_json_view(info),
                    _ => s matches Step::Reply(Err(e)) && e is Internal,
                },
                Err(f) => store_fault_reply(f, s),
            }
        },
        Pending::BranchDiff => {
            &&& new_s == old_s
            &&& match reply {
                Ok(o) => match o {
                    Output::BranchDiff(diff) => s matches Step::Reply(Ok(j)) && j@
                        == diff_reply_json_view(diff),
                    _ => s matches Step::Reply(Err(e)) && e is Internal,
                },
                Err(f) => store_fault_reply(f, s),
            }
        },
        Pending::HistoryRange => {
            &&& session_tracks_reply(old_s, new_s, reply)
            &&& match reply {
                Ok(o) => match o {
                    Output::TimeRange { oldest_ts, latest_ts } => s matches Step::Reply(Ok(j))
                        && j@ == history_range_json_view(old_s.cur_branch@, oldest_ts, latest_ts),
                    _ => s matches Step::Reply(Ok(j)) && j@ == output_json_view(o),
                },
                Err(f) => store_fault_reply(f, s),
            }
        },
        Pending::StatusInfo => {
            &&& session_tracks_reply(old_s, new_s, reply)
            &&& match reply {
                Ok(o) => {
                    &&& s matches Step::Store { action, pending: next }
                    &&& action == Action::Execute(Command::EmbedStatus)
                    &&& next matches Pending::StatusEmbed { partial }
                    &&& partial@ == (match o {
                        Output::DatabaseInfo(info) => status_info_json_view(
                            info,
                            old_s.cur_branch@,
                            old_s.cur_space@,
                        ),
                        _ => status_bare_json_view(old_s.cur_branch@, old_s.cur_space@),
                    })
                },
                Err(f) => store_fault_reply(f, s),
            }
        },
        Pending::StatusEmbed { partial } => {
            &&& session_tracks_reply(old_s, new_s, reply)
            &&& match reply {
                Ok(o) => match o {
                    Output::EmbedStatus(embed) => s matches Step::Reply(Ok(j)) && j@
                        == status_with_embed_json_view(partial@, embed.auto_embed),
                    _ => s matches Step::Reply(Ok(j)) && j == partial,
                },
                Err(_) => s matches Step::Reply(Ok(j)) && j == partial,
            }
        },
    }
}

/// Renders search results in the simplified `{key, score, snippet}` form.
pub(crate) fn agent_search_json(items: &Vec<SearchResult>) -> (r: Json)
    ensures
        r@ == agent_search_json_view(items@),
{
    let mut out: Vec<Json> = Vec::new();
    let mut idx: usize = 0;
    while idx < items.len()
        invariant
            idx <= items@.len(),
            out@.len() == idx,
            forall|k: int|
                0 <= k < idx ==> crate::json::json_view(#[trigger] out@[k])
                    == agent_search_item_json_view(items@[k]),
        decreases items@.len() - idx,
    {
        let sr = &items[idx];
        out.push(
            obj3(
                "key",
                jstr(&sr.entity),
                "score",
                Json::Float(sr.score),
                "snippet",
                jstr(&sr.snippet),
            ),
        );
        idx = idx + 1;
    }
    let r = Json::Arr(out);
    proof {
        assert(crate::json::json_view_seq(r->Arr_0@) =~= Seq::new(
            items@.len(),
            |i: int| agent_search_item_json_view(items@[i]),
        ));
    }
    r
}

/// Consumes a store reply under its continuation: folds it into the session
/// and either finishes the tool call or asks for the next action.
pub fn resume(session: &mut McpSession, pending: Pending, reply: Result<Output, StoreFault>) -> (s:
    Step)
    ensures
        resume_spec(*old(session), *final(session), pending, reply, s),
        s matches Step::Store { action, .. } ==> action == Action::Execute(Command::EmbedStatus),
{
    match pending {
        Pending::Plain => resume_plain(session, reply),
        Pending::Store { key } => resume_store(session, key, reply),
        Pending::Search => resume_search(session, reply),
        Pending::Forget => resume_forget(session, reply),
        Pending::Log => resume_log(session, reply),
        Pending::BranchSwitch { name } => resume_branch_switch(session, name, reply),
        Pending::BranchFork => resume_branch_fork(session, reply),
        Pending::BranchMerge => resume_branch_merge(session, reply),
        Pending::BranchDiff => resume_branch_diff(session, reply),
        Pending::HistoryRange => resume_history_range(session, reply),
        Pending::StatusInfo => resume_status_info(session, reply),
        Pending::StatusEmbed { partial } => resume_status_embed(session, partial, reply),
    }
}

fn resume_plain(session: &mut McpSession, reply: Result<Output, StoreFault>) -> (s: Step)
    ensures
        resume_spec(*old(session), *final(session), Pending::Plain, reply, s),
{
    match session.finish_execute(reply) {
        Ok(o) => Step::Reply(Ok(output_to_json(o))),
        Err(e) => Step::Reply(Err(e)),
    }
}

fn resume_store(session: &mut McpSession, key: String, reply: Result<Output, StoreFault>) -> (s:
    Step)
    ensures
        resume_spec(*old(session), *final(session), Pending::Store { key }, reply, s),
{
    match session.finish_execute(reply) {
        Ok(Output::Version(v)) => Step::Reply(
            Ok(obj3("key", jstr(&key), "version", ju64(v), "stored", Json::Bool(true))),
        ),
        Ok(o) => Step::Reply(Ok(output_to_json(o))),
        Err(e) => Step::Reply(Err(e)),
    }
}

fn resume_search(session: &mut McpSession, reply: Result<Output, StoreFault>) -> (s: Step)
    ensures
        resume_spec(*old(session), *final(session), Pending::Search, reply, s),
{
    match session.finish_execute(reply) {
        Ok(Output::SearchResults(rs)) => Step::Reply(Ok(agent_search_json(&rs))),
        Ok(o) => Step::Reply(Ok(output_to_json(o))),
        Err(e) => Step::Reply(Err(e)),
    }
}

fn resume_forget(session: &mut McpSession, reply: Result<Output, StoreFault>) -> (s: Step)
    ensures
        resume_spec(*old(session), *final(session), Pending::Forget, reply, s),
{
    match session.finish_execute(reply) {
        Ok(Output::Uint(n)) => Step::Reply(Ok(obj1("deleted", Json::Bool(n > 0)))),
        Ok(o) => Step::Reply(Ok(output_to_json(o))),
        Err(e) => Step::Reply(Err(e)),
    }
}

fn resume_log(session: &mut McpSession, reply: Result<Output, StoreFault>) -> (s: Step)
    ensures
        resume_spec(*old(session), *final(session), Pending::Log, reply, s),
{
    match session.finish_execute(reply) {
        Ok(Output::Version(v)) => Step::Reply(
            Ok(obj2("sequence", ju64(v), "logged", Json::Bool(true))),
        ),
        Ok(o) => Step::Reply(Ok(output_to_json(o))),
        Err(e) => Step::Reply(Err(e)),
    }
}

fn resume_branch_switch(
    session: &mut McpSession,
    name: String,
    reply: Result<Output, StoreFault>,
) -> (s: Step)
    ensures
        resume_spec(*old(session), *final(session), Pending::BranchSwitch { name }, reply, s),
{
    match session.switch_branch_apply(name.as_str(), reply) {
        Ok(_) => Step::Reply(Ok(obj2("switched", Json::Bool(true), "branch", jstr(&name)))),
        Err(e) => Step::Reply(Err(e)),
    }
}

fn resume_branch_fork(session: &mut McpSession, reply: Result<Output, StoreFault>) -> (s: Step)
    ensures
        resume_spec(*old(session), *final(session), Pending::BranchFork, reply, s),
{
    match reply {
        Ok(Output::BranchForked(info)) => Step::Reply(
            Ok(
                crate::output::obj4(
                    "forked",
                    Json::Bool(true),
                    "source",
                    jstr(&info.source),
                    "destination",
                    jstr(&info.destination),
                    "keys_copied",
                    ju64(info.keys_copied),
                ),
            ),
        ),
        Ok(_) => Step::Reply(
            Err(McpError::Internal("unexpected output for BranchFork".to_owned())),
        ),
        Err(f) => Step::Reply(Err(McpError::Store { code: f.code, message: f.message })),
    }
}

fn resume_branch_merge(session: &mut McpSession, reply: Result<Output, StoreFault>) -> (s: Step)
    ensures
        resume_spec(*old(session), *final(session), Pending::BranchMerge, reply, s),
{
    match reply {
        Ok(Output::BranchMerged(info)) => {
            let conflicts = crate::output::merge_conflicts_json(&info.conflicts);
            Step::Reply(
                Ok(
                    crate::output::obj4(
                        "merged",
                        Json::Bool(true),
                        "keys_applied",
                        ju64(info.keys_applied),
                        "spaces_merged",
                        ju64(info.spaces_merged),
                        "conflicts",
                        conflicts,
                    ),
                ),
            )
        },
        Ok(_) => Step::Reply(
            Err(McpError::Internal("unexpected output for BranchMerge".to_owned())),
        ),
        Err(f) => Step::Reply(Err(McpError::Store { code: f.code, message: f.message })),
    }
}

fn resume_branch_diff(session: &mut McpSession, reply: Result<Output, StoreFault>) -> (s: Step)
    ensures
        resume_spec(*old(session), *final(session), Pending::BranchDiff, reply, s),
{
    match reply {
        Ok(Output::BranchDiff(diff)) => Step::Reply(
            Ok(
                obj5(
                    "current_branch",
                    jstr(&diff.branch_a),
                    "compare_branch",
                    jstr(&diff.branch_b),
                    "added",
                    ju64(diff.summary.total_added),
                    "removed",
                    ju64(diff.summary.total_removed),
                    "modified",
                    ju64(diff.summary.total_modified),
                ),
            ),
        ),
        Ok(_) => Step::Reply(
            Err(McpError::Internal("unexpected output for BranchDiff".to_owned())),
        ),
        Err(f) => Step::Reply(Err(McpError::Store { code: f.code, message: f.message })),
    }
}

fn resume_history_range(session: &mut McpSession, reply: Result<Output, StoreFault>) -> (s: Step)
    ensures
        resume_spec(*old(session), *final(session), Pending::HistoryRange, reply, s),
{
    match session.finish_execute(reply) {
        Ok(Output::TimeRange { oldest_ts, latest_ts }) => Step::Reply(
            Ok(
                obj3(
                    "branch",
                    jstr(&session.cur_branch),
                    "oldest",
                    jopt_u64(&oldest_ts),
                    "latest",
                    jopt_u64(&latest_ts),
                ),
            ),
        ),
        Ok(o) => Step::Reply(Ok(output_to_json(o))),
        Err(e) => Step::Reply(Err(e)),
    }
}

fn resume_status_info(session: &mut McpSession, reply: Result<Output, StoreFault>) -> (s: Step)
    ensures
        resume_spec(*old(session), *final(session), Pending::StatusInfo, reply, s),
{
    match session.finish_execute(reply) {
        Ok(Output::DatabaseInfo(info)) => {
            let partial = obj6(
                "version",
                jstr(&info.version),
                "branch",
                jstr(&session.cur_branch),
                "namespace",
                jstr(&session.cur_space),
                "branches",
                ju64(info.branch_count),
                "keys",
                ju64(info.total_keys),
                "uptime_secs",
                ju64(info.uptime_secs),
            );
            Step::Store {
                action: Action::Execute(Command::EmbedStatus),
                pending: Pending::StatusEmbed { partial },
            }
        },
        Ok(_) => {
            let partial = obj2(
                "branch",
                jstr(&session.cur_branch),
                "namespace",
                jstr(&session.cur_space),
            );
            Step::Store {
                action: Action::Execute(Command::EmbedStatus),
                pending: Pending::StatusEmbed { partial },
            }
        },
        Err(e) => Step::Reply(Err(e)),
    }
}

fn resume_status_embed(
    session: &mut McpSession,
    partial: Json,
    reply: Result<Output, StoreFault>,
) -> (s: Step)
    ensures
        resume_spec(*old(session), *final(session), Pending::StatusEmbed { partial }, reply, s),
{
    match session.finish_execute(reply) {
        Ok(Output::EmbedStatus(embed)) => match partial {
            Json::Obj(mut fields) => {
                proof {
                    assert(partial->Obj_0@ == fields@);
                }
                let ghost fields0 = fields@;
                fields.push(("auto_embed".to_owned(), Json::Bool(embed.auto_embed)));
                let j = Json::Obj(fields);
                proof {
                    assert(crate::json::json_view_fields(j->Obj_0@)
                        =~= crate::json::json_view_fields(fields0).push(
                        ("auto_embed"@, JsonV::Bool(embed.auto_embed)),
                    ));
                }
                Step::Reply(Ok(j))
            },
            other => Step::Reply(Ok(other)),
        },
        Ok(_) => Step::Reply(Ok(partial)),
        Err(_) => Step::Reply(Ok(partial)),
    }
}

pub(crate) fn type_schema(ty: &str) -> Json {
    let mut fields: Vec<(String, Json)> = Vec::new();
    fields.push(("type".to_owned(), Json::Str(ty.to_owned())));
    Json::Obj(fields)
}

pub(crate) fn object_schema(required: Vec<(&str, &str)>, optional: Vec<(&str, &str)>) -> Json {
    let mut names: Vec<Json> = Vec::new();
    let mut props: Vec<(String, Json)> = Vec::new();
    let mut idx: usize = 0;
    while idx < required.len()
        decreases required.len() - idx,
    {
        let pair = required[idx];
        names.push(Json::Str(pair.0.to_owned()));
        props.push((pair.0.to_owned(), type_schema(pair.1)));
        idx = idx + 1;
    }
    let mut k: usize = 0;
    while k < optional.len()
        decreases optional.len() - k,
    {
        let pair = optional[k];
        props.push((pair.0.to_owned(), type_schema(pair.1)));
        k = k + 1;
    }
    let mut fields: Vec<(String, Json)> = Vec::new();
    fields.push(("type".to_owned(), Json::Str("object".to_owned())));
    fields.push(("properties".to_owned(), Json::Obj(props)));
    fields.push(("required".to_owned(), Json::Arr(names)));
    Json::Obj(fields)
}

pub(crate) fn empty_object_schema() -> Json {
    object_schema(Vec::new(), Vec::new())
}

/// Registry of the tools a session exposes.
#[derive(Debug, PartialEq, Eq)]
pub struct ToolRegistry {
    /// The registered tool definitions.
    pub tools: Vec<ToolDef>,
    /// Whether dispatch routes the granular developer tools by name prefix
    /// instead of the curated agent set.
    pub developer_mode: bool,
}

impl ToolRegistry {
    /// The registry with the curated agent tools.
    pub fn new() -> (r: ToolRegistry)
        ensures
            !r.developer_mode,
            r.tools@.len() == 8,
            r.tools@[0].name@ == "strata_store"@,
            r.tools@[1].name@ == "strata_recall"@,
            r.tools@[2].name@ == "strata_search"@,
            r.tools@[3].name@ == "strata_forget"@,
            r.tools@[4].name@ == "strata_log"@,
            r.tools@[5].name@ == "strata_branch"@,
            r.tools@[6].name@ == "strata_history"@,
            r.tools@[7].name@ == "strata_status"@,
    {
        ToolRegistry { tools: agent::tools(), developer_mode: false }
    }

    /// The registry with the granular developer tools, routed by prefix.
    pub fn developer() -> (r: ToolRegistry)
        ensures
            r.developer_mode,
            r.tools@.len() == 12,
            r.tools@[0].name@ == "strata_durability_counters"@,
            r.tools@[1].name@ == "strata_embed"@,
            r.tools@[2].name@ == "strata_embed_batch"@,
            r.tools@[3].name@ == "strata_embed_status"@,
            r.tools@[4].name@ == "strata_generate"@,
            r.tools@[5].name@ == "strata_tokenize"@,
            r.tools@[6].name@ == "strata_detokenize"@,
            r.tools@[7].name@ == "strata_generate_unload"@,
            r.tools@[8].name@ == "strata_models_list"@,
            r.tools@[9].name@ == "strata_models_pull"@,
            r.tools@[10].name@ == "strata_models_local"@,
            r.tools@[11].name@ == "strata_retention_apply"@,
    {
        let mut tools = durability::tools();
        tools.append(&mut embed::tools());
        tools.append(&mut inference::tools());
        tools.append(&mut models::tools());
        tools.append(&mut retention::tools());
        ToolRegistry { tools, developer_mode: true }
    }

    /// All registered tool definitions.
    pub fn tools(&self) -> (r: &Vec<ToolDef>)
        ensures
            r == &self.tools,
    {
        &self.tools
    }

    /// Resolves a tool name and starts the call: exact-match dispatch for
    /// the curated set, prefix routing to the owning module for the
    /// developer set. Never emits a write action on a read-only store.
    pub fn dispatch(&self, session: &McpSession, name: &str, args: &Vec<(String, Json)>) -> (s:
        Step)
        ensures
            !self.developer_mode ==> agent::dispatch_spec(
                *session,
                name@,
                crate::json::json_view_fields(args@),
                s,
            ),
            self.developer_mode ==> developer_dispatch_spec(
                *session,
                name@,
                crate::json::json_view_fields(args@),
                s,
            ),
            s matches Step::Store { action, .. } ==> !(session.read_only
                && action.spec_is_write()),
    {
        if !self.developer_mode {
            return agent::dispatch(session, name, args);
        }
        if str_starts_with(name, "strata_embed") {
            embed::dispatch(session, name, args)
        } else if str_starts_with(name, "strata_generate") || str_starts_with(
            name,
            "strata_tokenize",
        ) || str_starts_with(name, "strata_detokenize") {
            inference::dispatch(session, name, args)
        } else if str_starts_with(name, "strata_models_") {
            models::dispatch(session, name, args)
        } else if str_starts_with(name, "strata_retention_") {
            retention::dispatch(session, name, args)
        } else if str_starts_with(name, "strata_durability_") {
            durability::dispatch(session, name, args)
        } else {
            Step::Reply(Err(McpError::UnknownTool(name.to_owned())))
        }
    }
}

impl Default for ToolRegistry {
    /// The default registry is the curated agent set.
    fn default() -> (r: ToolRegistry)
        ensures
            !r.developer_mode,
            r.tools@.len() == 8,
    {
        ToolRegistry::new()
    }
}

} // verus!
