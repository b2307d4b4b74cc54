//! The typed output algebra received from the store, and its canonical JSON
//! rendering.
//!
//! [`output_to_json`] maps every output variant to a fixed JSON shape: one
//! case per variant, no fallback, so an unhandled variant is a type error
//! rather than a silent null. Scores and embeddings carry the bit patterns
//! of their 64-bit IEEE 754 values; unsigned integers render as JSON
//! numbers, falling back to decimal text for values above `i64::MAX`.

use vstd::prelude::*;

use crate::convert::encode_value;
use crate::json::{json_view, json_view_fields, json_view_seq, Json, JsonV};
use crate::json::{lemma_json_view_fields, lemma_json_view_seq};
use crate::strutil::{dec_digits, u64_to_dec};
use crate::value::Value;

verus! {

broadcast use vstd::std_specs::vec::group_vec_axioms, lemma_json_view_seq,
    lemma_json_view_fields;

/// A value with its version and write timestamp.
#[derive(Debug, PartialEq, Eq)]
pub struct VersionedValue {
    /// The stored value.
    pub value: Value,
    /// Its version, monotonic per key per branch.
    pub version: u64,
    /// Its write time, in microseconds.
    pub timestamp: u64,
}

/// One vector search match.
#[derive(Debug, PartialEq, Eq)]
pub struct VectorMatch {
    /// The matched key.
    pub key: String,
    /// The similarity score, as the bit pattern of its 64-bit IEEE 754 value.
    pub score: u64,
    /// Metadata stored with the vector, if any.
    pub metadata: Option<Value>,
}

/// A stored vector with its metadata.
#[derive(Debug, PartialEq, Eq)]
pub struct VectorData {
    /// The vector's key.
    pub key: String,
    /// The embedding, each entry the bit pattern of its 64-bit IEEE 754 value.
    pub embedding: Vec<u64>,
    /// Metadata stored with the vector, if any.
    pub metadata: Option<Value>,
    /// The vector's version.
    pub version: u64,
    /// Its write time, in microseconds.
    pub timestamp: u64,
}

/// A vector collection's description.
#[derive(Debug, PartialEq, Eq)]
pub struct VectorCollection {
    /// The collection's name.
    pub name: String,
    /// The vectors' dimension.
    pub dimension: u64,
    /// The distance metric, in lower-case text.
    pub metric: String,
    /// How many vectors the collection holds.
    pub count: u64,
    /// The index structure in use.
    pub index_type: String,
    /// Resident memory, in bytes.
    pub memory_bytes: u64,
}

/// A branch's lifecycle state.
#[derive(Debug, PartialEq, Eq, Structural, Clone, Copy)]
pub enum BranchStatus {
    /// The branch accepts reads and writes.
    Active,
    /// The branch is kept for history only.
    Archived,
}

/// A branch's description.
#[derive(Debug, PartialEq, Eq)]
pub struct BranchInfo {
    /// The branch's name.
    pub id: String,
    /// Its lifecycle state.
    pub status: BranchStatus,
    /// Creation time, in microseconds.
    pub created_at: u64,
    /// Last update time, in microseconds.
    pub updated_at: u64,
    /// The branch it was created from, if any.
    pub parent_id: Option<String>,
}

/// A branch's description with its version and timestamp.
#[derive(Debug, PartialEq, Eq)]
pub struct VersionedBranchInfo {
    /// The branch's description.
    pub info: BranchInfo,
    /// Its version.
    pub version: u64,
    /// Its timestamp, in microseconds.
    pub timestamp: u64,
}

/// A transaction's state.
#[derive(Debug, PartialEq, Eq, Structural, Clone, Copy)]
pub enum TxnStatus {
    /// The transaction is open.
    Active,
    /// The transaction committed.
    Committed,
    /// The transaction aborted.
    Aborted,
}

/// A transaction's description.
#[derive(Debug, PartialEq, Eq)]
pub struct TxnDescription {
    /// The transaction's identifier.
    pub id: u64,
    /// Its state.
    pub status: TxnStatus,
    /// When it began, in microseconds.
    pub started_at: u64,
}

/// The database's description.
#[derive(Debug, PartialEq, Eq)]
pub struct DatabaseInfo {
    /// The store's version text.
    pub version: String,
    /// Seconds since the store opened.
    pub uptime_secs: u64,
    /// How many branches exist.
    pub branch_count: u64,
    /// How many keys exist over all spaces.
    pub total_keys: u64,
}

/// One search result.
#[derive(Debug, PartialEq, Eq)]
pub struct SearchResult {
    /// The matched entity's key.
    pub entity: String,
    /// Which primitive holds the entity.
    pub primitive: String,
    /// The relevance score, as the bit pattern of its 64-bit IEEE 754 value.
    pub score: u64,
    /// The result's rank, starting at one.
    pub rank: u64,
    /// A text snippet around the match.
    pub snippet: String,
}

/// The result of exporting a branch to a bundle.
#[derive(Debug, PartialEq, Eq)]
pub struct BranchExported {
    /// The exported branch.
    pub branch_id: String,
    /// Where the bundle was written.
    pub path: String,
    /// How many entries the bundle holds.
    pub entry_count: u64,
    /// The bundle's size, in bytes.
    pub bundle_size: u64,
}

/// The result of importing a bundle.
#[derive(Debug, PartialEq, Eq)]
pub struct BranchImported {
    /// The branch the bundle created.
    pub branch_id: String,
    /// How many transactions were replayed.
    pub transactions_applied: u64,
    /// How many keys were written.
    pub keys_written: u64,
}

/// The result of validating a bundle.
#[derive(Debug, PartialEq, Eq)]
pub struct BundleValidated {
    /// The branch the bundle names.
    pub branch_id: String,
    /// The bundle format's version.
    pub format_version: u64,
    /// How many entries the bundle holds.
    pub entry_count: u64,
    /// Whether every checksum matched.
    pub checksums_valid: bool,
}

/// One item's outcome in a batch write.
#[derive(Debug, PartialEq, Eq)]
pub struct BatchResult {
    /// The version written, on success.
    pub version: Option<u64>,
    /// The item's error, on failure.
    pub error: Option<String>,
}

/// Write-ahead-log durability counters.
#[derive(Debug, PartialEq, Eq)]
pub struct DurabilityCounters {
    /// Appends to the write-ahead log.
    pub wal_appends: u64,
    /// Synchronous flush calls.
    pub sync_calls: u64,
    /// Bytes written to the log.
    pub bytes_written: u64,
    /// Nanoseconds spent in flushes.
    pub sync_nanos: u64,
}

/// The embedding pipeline's status.
#[derive(Debug, PartialEq, Eq)]
pub struct EmbedInfo {
    /// Whether stored text is embedded automatically.
    pub auto_embed: bool,
    /// The embedding batch size.
    pub batch_size: u64,
    /// Items waiting to be embedded.
    pub pending: u64,
    /// Items queued since the store opened.
    pub total_queued: u64,
    /// Items embedded since the store opened.
    pub total_embedded: u64,
    /// Items that failed to embed.
    pub total_failed: u64,
    /// The scheduler's queue depth.
    pub scheduler_queue_depth: u64,
    /// The scheduler's running tasks.
    pub scheduler_active_tasks: u64,
}

/// Generated text with its accounting.
#[derive(Debug, PartialEq, Eq)]
pub struct Generated {
    /// The generated text.
    pub text: String,
    /// Why generation stopped.
    pub stop_reason: String,
    /// Tokens in the prompt.
    pub prompt_tokens: u64,
    /// Tokens generated.
    pub completion_tokens: u64,
    /// The model used.
    pub model: String,
}

/// Token ids from tokenization.
#[derive(Debug, PartialEq, Eq)]
pub struct TokenIds {
    /// The token ids.
    pub ids: Vec<u32>,
    /// How many ids there are.
    pub count: u64,
    /// The model used.
    pub model: String,
}

/// A model's description.
#[derive(Debug, PartialEq, Eq)]
pub struct ModelInfo {
    /// The model's name.
    pub name: String,
    /// The task it serves.
    pub task: String,
    /// Its architecture.
    pub architecture: String,
    /// Its default quantization.
    pub default_quant: String,
    /// Its embedding dimension, where it embeds.
    pub embedding_dim: Option<u64>,
    /// Whether it is downloaded locally.
    pub is_local: bool,
    /// Its size in bytes, where known.
    pub size_bytes: Option<u64>,
}

/// The result of forking a branch.
#[derive(Debug, PartialEq, Eq)]
pub struct ForkInfo {
    /// The branch copied from.
    pub source: String,
    /// The branch created.
    pub destination: String,
    /// How many keys were copied.
    pub keys_copied: u64,
}

/// Totals of a branch comparison.
#[derive(Debug, PartialEq, Eq)]
pub struct DiffSummary {
    /// Keys only in the second branch.
    pub total_added: u64,
    /// Keys only in the first branch.
    pub total_removed: u64,
    /// Keys in both with different values.
    pub total_modified: u64,
}

/// The result of comparing two branches.
#[derive(Debug, PartialEq, Eq)]
pub struct BranchDiffResult {
    /// The first branch.
    pub branch_a: String,
    /// The second branch.
    pub branch_b: String,
    /// The comparison's totals.
    pub summary: DiffSummary,
}

/// One conflicting key in a merge.
#[derive(Debug, PartialEq, Eq)]
pub struct MergeConflict {
    /// The conflicting key.
    pub key: String,
    /// The space it lives in.
    pub space: String,
}

/// The result of merging a branch.
#[derive(Debug, PartialEq, Eq)]
pub struct MergeInfo {
    /// How many keys were applied.
    pub keys_applied: u64,
    /// How many spaces were touched.
    pub spaces_merged: u64,
    /// The keys both branches had changed.
    pub conflicts: Vec<MergeConflict>,
}

/// A remote model endpoint's configuration.
#[derive(Debug, PartialEq, Eq)]
pub struct ModelEndpoint {
    /// The endpoint's URL text.
    pub endpoint: String,
    /// The model to request.
    pub model: String,
    /// The credential to send, if any.
    pub api_key: Option<String>,
    /// The request timeout, in milliseconds.
    pub timeout_ms: u64,
}

/// The store's configuration.
#[derive(Debug, PartialEq, Eq)]
pub struct ConfigInfo {
    /// The durability profile's name.
    pub durability: String,
    /// Whether stored text is embedded automatically.
    pub auto_embed: bool,
    /// The remote model endpoint, if configured.
    pub model: Option<ModelEndpoint>,
}

/// A store output: exactly one variant per response, its shape fixed by the
/// command that produced it.
#[derive(Debug, PartialEq, Eq)]
pub enum Output {
    /// Success with nothing to report.
    Unit,
    /// A value, or nothing.
    Maybe(Option<Value>),
    /// A versioned value, or nothing.
    MaybeVersioned(Option<VersionedValue>),
    /// A version, or nothing.
    MaybeVersion(Option<u64>),
    /// The version a write produced.
    Version(u64),
    /// A yes or no.
    Bool(bool),
    /// A count.
    Uint(u64),
    /// Versioned values, oldest first.
    VersionedValues(Vec<VersionedValue>),
    /// A key's version history, or nothing for an unknown key.
    VersionHistory(Option<Vec<VersionedValue>>),
    /// A list of keys.
    Keys(Vec<String>),
    /// A page of keys with an optional continuation cursor.
    JsonListResult {
        /// The page of keys.
        keys: Vec<String>,
        /// Where the next page starts, if there is one.
        cursor: Option<String>,
    },
    /// Vector search matches, best first.
    VectorMatches(Vec<VectorMatch>),
    /// A stored vector, or nothing.
    VectorData(Option<VectorData>),
    /// The vector collections.
    VectorCollectionList(Vec<VectorCollection>),
    /// A list of versions.
    Versions(Vec<u64>),
    /// A branch's description, or nothing.
    MaybeBranchInfo(Option<VersionedBranchInfo>),
    /// All branches' descriptions.
    BranchInfoList(Vec<VersionedBranchInfo>),
    /// A branch's description with the version the operation produced.
    BranchWithVersion {
        /// The branch's description.
        info: BranchInfo,
        /// The version the operation produced.
        version: u64,
    },
    /// A transaction's description, or nothing.
    TxnInfo(Option<TxnDescription>),
    /// A transaction began.
    TxnBegun,
    /// The open transaction committed.
    TxnCommitted {
        /// The version the commit produced.
        version: u64,
    },
    /// The open transaction aborted.
    TxnAborted,
    /// The database's description.
    DatabaseInfo(DatabaseInfo),
    /// A liveness reply.
    Pong {
        /// The store's version text.
        version: String,
    },
    /// Search results, best first.
    SearchResults(Vec<SearchResult>),
    /// The spaces in use.
    SpaceList(Vec<String>),
    /// A branch was exported to a bundle.
    BranchExported(BranchExported),
    /// A bundle was imported.
    BranchImported(BranchImported),
    /// A bundle was validated.
    BundleValidated(BundleValidated),
    /// The oldest and latest timestamps on a branch.
    TimeRange {
        /// The oldest timestamp, if any data exists.
        oldest_ts: Option<u64>,
        /// The latest timestamp, if any data exists.
        latest_ts: Option<u64>,
    },
    /// Per-item outcomes of a batch write.
    BatchResults(Vec<BatchResult>),
    /// Write-ahead-log durability counters.
    DurabilityCounters(DurabilityCounters),
    /// The embedding pipeline's status.
    EmbedStatus(EmbedInfo),
    /// One embedding.
    Embedding(Vec<u64>),
    /// Several embeddings.
    Embeddings(Vec<Vec<u64>>),
    /// Generated text.
    Generated(Generated),
    /// Token ids.
    TokenIds(TokenIds),
    /// Plain text.
    Text(String),
    /// Model descriptions.
    ModelsList(Vec<ModelInfo>),
    /// A model was downloaded.
    ModelsPulled {
        /// The model's name.
        name: String,
        /// Where it was stored.
        path: String,
    },
    /// A branch was forked.
    BranchForked(ForkInfo),
    /// Two branches were compared.
    BranchDiff(BranchDiffResult),
    /// A branch was merged.
    BranchMerged(MergeInfo),
    /// The store's configuration.
    Config(ConfigInfo),
}

/// An unsigned integer as JSON: a number when it fits a 64-bit signed
/// integer, its decimal text otherwise.
pub open spec fn u64_json_view(n: u64) -> JsonV {
    if n <= i64::MAX {
        JsonV::Int(n as i64)
    } else {
        JsonV::BigNum(dec_digits(n as int))
    }
}

/// An optional unsigned integer as JSON: null when absent.
pub open spec fn opt_u64_json_view(n: Option<u64>) -> JsonV {
    match n {
        Some(v) => u64_json_view(v),
        None => JsonV::Null,
    }
}

/// An optional string as JSON: null when absent.
pub open spec fn opt_str_json_view(s: Option<String>) -> JsonV {
    match s {
        Some(v) => JsonV::Str(v@),
        None => JsonV::Null,
    }
}

/// An optional value as JSON: null when absent.
pub open spec fn opt_value_json_view(v: Option<Value>) -> JsonV {
    match v {
        Some(inner) => encode_value(inner@),
        None => JsonV::Null,
    }
}

/// A versioned value's JSON shape.
pub open spec fn versioned_json_view(vv: VersionedValue) -> JsonV {
    JsonV::Obj(
        seq![
            ("value"@, encode_value(vv.value@)),
            ("version"@, u64_json_view(vv.version)),
            ("timestamp"@, u64_json_view(vv.timestamp)),
        ],
    )
}

/// A branch status's JSON text, lower-cased from its enumerated form.
pub open spec fn branch_status_json_view(s: BranchStatus) -> JsonV {
    match s {
        BranchStatus::Active => JsonV::Str("active"@),
        BranchStatus::Archived => JsonV::Str("archived"@),
    }
}

/// A transaction status's JSON text, lower-cased from its enumerated form.
pub open spec fn txn_status_json_view(s: TxnStatus) -> JsonV {
    match s {
        TxnStatus::Active => JsonV::Str("active"@),
        TxnStatus::Committed => JsonV::Str("committed"@),
        TxnStatus::Aborted => JsonV::Str("aborted"@),
    }
}

/// A branch description's JSON fields.
pub open spec fn branch_info_fields_view(bi: BranchInfo) -> Seq<(Seq<char>, JsonV)> {
    seq![
        ("id"@, JsonV::Str(bi.id@)),
        ("status"@, branch_status_json_view(bi.status)),
        ("created_at"@, u64_json_view(bi.created_at)),
        ("updated_at"@, u64_json_view(bi.updated_at)),
        ("parent_id"@, opt_str_json_view(bi.parent_id)),
    ]
}

/// A versioned branch description's JSON shape.
pub open spec fn versioned_branch_json_view(b: VersionedBranchInfo) -> JsonV {
    JsonV::Obj(
        branch_info_fields_view(b.info) + seq![
            ("version"@, u64_json_view(b.version)),
            ("timestamp"@, u64_json_view(b.timestamp)),
        ],
    )
}

/// A branch description's JSON shape with an operation version.
pub open spec fn branch_with_version_json_view(info: BranchInfo, version: u64) -> JsonV {
    JsonV::Obj(branch_info_fields_view(info).push(("version"@, u64_json_view(version))))
}

/// A vector match's JSON shape.
pub open spec fn vector_match_json_view(m: VectorMatch) -> JsonV {
    JsonV::Obj(
        seq![
            ("key"@, JsonV::Str(m.key@)),
            ("score"@, JsonV::Float(m.score)),
            ("metadata"@, opt_value_json_view(m.metadata)),
        ],
    )
}

/// A stored vector's JSON shape.
pub open spec fn vector_data_json_view(vd: VectorData) -> JsonV {
    JsonV::Obj(
        seq![
            ("key"@, JsonV::Str(vd.key@)),
            ("embedding"@, embedding_json_view(vd.embedding@)),
            ("metadata"@, opt_value_json_view(vd.metadata)),
            ("version"@, u64_json_view(vd.version)),
            ("timestamp"@, u64_json_view(vd.timestamp)),
        ],
    )
}

/// A vector collection's JSON shape.
pub open spec fn vector_collection_json_view(c: VectorCollection) -> JsonV {
    JsonV::Obj(
        seq![
            ("name"@, JsonV::Str(c.name@)),
            ("dimension"@, u64_json_view(c.dimension)),
            ("metric"@, JsonV::Str(c.metric@)),
            ("count"@, u64_json_view(c.count)),
            ("index_type"@, JsonV::Str(c.index_type@)),
            ("memory_bytes"@, u64_json_view(c.memory_bytes)),
        ],
    )
}

/// A transaction description's JSON shape.
pub open spec fn txn_description_json_view(ti: TxnDescription) -> JsonV {
    JsonV::Obj(
        seq![
            ("id"@, u64_json_view(ti.id)),
            ("status"@, txn_status_json_view(ti.status)),
            ("started_at"@, u64_json_view(ti.started_at)),
        ],
    )
}

/// The database description's JSON shape.
pub open spec fn database_info_json_view(info: DatabaseInfo) -> JsonV {
    JsonV::Obj(
        seq![
            ("version"@, JsonV::Str(info.version@)),
            ("uptime_secs"@, u64_json_view(info.uptime_secs)),
            ("branch_count"@, u64_json_view(info.branch_count)),
            ("total_keys"@, u64_json_view(info.total_keys)),
        ],
    )
}

/// A search result's JSON shape.
pub open spec fn search_result_json_view(r: SearchResult) -> JsonV {
    JsonV::Obj(
        seq![
            ("entity"@, JsonV::Str(r.entity@)),
            ("primitive"@, JsonV::Str(r.primitive@)),
            ("score"@, JsonV::Float(r.score)),
            ("rank"@, u64_json_view(r.rank)),
            ("snippet"@, JsonV::Str(r.snippet@)),
        ],
    )
}

/// A bundle export's JSON shape.
pub open spec fn branch_exported_json_view(result: BranchExported) -> JsonV {
    JsonV::Obj(
        seq![
            ("branch_id"@, JsonV::Str(result.branch_id@)),
            ("path"@, JsonV::Str(result.path@)),
            ("entry_count"@, u64_json_view(result.entry_count)),
            ("bundle_size"@, u64_json_view(result.bundle_size)),
        ],
    )
}

/// A bundle import's JSON shape.
pub open spec fn branch_imported_json_view(result: BranchImported) -> JsonV {
    JsonV::Obj(
        seq![
            ("branch_id"@, JsonV::Str(result.branch_id@)),
            ("transactions_applied"@, u64_json_view(result.transactions_applied)),
            ("keys_written"@, u64_json_view(result.keys_written)),
        ],
    )
}

/// A bundle validation's JSON shape.
pub open spec fn bundle_validated_json_view(result: BundleValidated) -> JsonV {
    JsonV::Obj(
        seq![
            ("branch_id"@, JsonV::Str(result.branch_id@)),
            ("format_version"@, u64_json_view(result.format_version)),
            ("entry_count"@, u64_json_view(result.entry_count)),
            ("checksums_valid"@, JsonV::Bool(result.checksums_valid)),
        ],
    )
}

/// A batch item's JSON shape.
pub open spec fn batch_result_json_view(r: BatchResult) -> JsonV {
    JsonV::Obj(
        seq![("version"@, opt_u64_json_view(r.version)), ("error"@, opt_str_json_view(r.error))],
    )
}

/// The durability counters' JSON shape.
pub open spec fn durability_json_view(c: DurabilityCounters) -> JsonV {
    JsonV::Obj(
        seq![
            ("wal_appends"@, u64_json_view(c.wal_appends)),
            ("sync_calls"@, u64_json_view(c.sync_calls)),
            ("bytes_written"@, u64_json_view(c.bytes_written)),
            ("sync_nanos"@, u64_json_view(c.sync_nanos)),
        ],
    )
}

/// Is the embedding pipeline idle: nothing pending, queued, or running?
pub open spec fn embed_is_idle(info: EmbedInfo) -> bool {
    info.pending == 0 && info.scheduler_active_tasks == 0 && info.scheduler_queue_depth == 0
}

/// The embedding status's JSON shape, with the derived `is_idle` flag.
pub open spec fn embed_status_json_view(info: EmbedInfo) -> JsonV {
    JsonV::Obj(
        seq![
            ("auto_embed"@, JsonV::Bool(info.auto_embed)),
            ("batch_size"@, u64_json_view(info.batch_size)),
            ("pending"@, u64_json_view(info.pending)),
            ("total_queued"@, u64_json_view(info.total_queued)),
            ("total_embedded"@, u64_json_view(info.total_embedded)),
            ("total_failed"@, u64_json_view(info.total_failed)),
            ("scheduler_queue_depth"@, u64_json_view(info.scheduler_queue_depth)),
            ("scheduler_active_tasks"@, u64_json_view(info.scheduler_active_tasks)),
            ("is_idle"@, JsonV::Bool(embed_is_idle(info))),
        ],
    )
}

/// Generated text's JSON shape.
pub open spec fn generated_json_view(result: Generated) -> JsonV {
    JsonV::Obj(
        seq![
            ("text"@, JsonV::Str(result.text@)),
            ("stop_reason"@, JsonV::Str(result.stop_reason@)),
            ("prompt_tokens"@, u64_json_view(result.prompt_tokens)),
            ("completion_tokens"@, u64_json_view(result.completion_tokens)),
            ("model"@, JsonV::Str(result.model@)),
        ],
    )
}

/// Token ids' JSON shape.
pub open spec fn token_ids_json_view(result: TokenIds) -> JsonV {
    JsonV::Obj(
        seq![
            ("ids"@, u32s_json_view(result.ids@)),
            ("count"@, u64_json_view(result.count)),
            ("model"@, JsonV::Str(result.model@)),
        ],
    )
}

/// A model description's JSON shape.
pub open spec fn model_info_json_view(m: ModelInfo) -> JsonV {
    JsonV::Obj(
        seq![
            ("name"@, JsonV::Str(m.name@)),
            ("task"@, JsonV::Str(m.task@)),
            ("architecture"@, JsonV::Str(m.architecture@)),
            ("default_quant"@, JsonV::Str(m.default_quant@)),
            ("embedding_dim"@, opt_u64_json_view(m.embedding_dim)),
            ("is_local"@, JsonV::Bool(m.is_local)),
            ("size_bytes"@, opt_u64_json_view(m.size_bytes)),
        ],
    )
}

/// A fork's JSON shape.
pub open spec fn fork_json_view(info: ForkInfo) -> JsonV {
    JsonV::Obj(
        seq![
            ("source"@, JsonV::Str(info.source@)),
            ("destination"@, JsonV::Str(info.destination@)),
            ("keys_copied"@, u64_json_view(info.keys_copied)),
        ],
    )
}

/// A branch comparison's JSON shape.
pub open spec fn diff_json_view(diff: BranchDiffResult) -> JsonV {
    JsonV::Obj(
        seq![
            ("branch_a"@, JsonV::Str(diff.branch_a@)),
            ("branch_b"@, JsonV::Str(diff.branch_b@)),
            ("summary"@, diff_summary_json_view(diff.summary)),
        ],
    )
}

/// A comparison summary's JSON shape.
pub open spec fn diff_summary_json_view(s: DiffSummary) -> JsonV {
    JsonV::Obj(
        seq![
            ("total_added"@, u64_json_view(s.total_added)),
            ("total_removed"@, u64_json_view(s.total_removed)),
            ("total_modified"@, u64_json_view(s.total_modified)),
        ],
    )
}

/// A merge conflict's JSON shape.
pub open spec fn merge_conflict_json_view(c: MergeConflict) -> JsonV {
    JsonV::Obj(seq![("key"@, JsonV::Str(c.key@)), ("space"@, JsonV::Str(c.space@))])
}

/// A merge's JSON shape.
pub open spec fn merged_json_view(info: MergeInfo) -> JsonV {
    JsonV::Obj(
        seq![
            ("keys_applied"@, u64_json_view(info.keys_applied)),
            ("spaces_merged"@, u64_json_view(info.spaces_merged)),
            ("conflicts"@, merge_conflict_list_json_view(info.conflicts@)),
        ],
    )
}

/// A model endpoint's JSON shape.
pub open spec fn model_endpoint_json_view(m: ModelEndpoint) -> JsonV {
    JsonV::Obj(
        seq![
            ("endpoint"@, JsonV::Str(m.endpoint@)),
            ("model"@, JsonV::Str(m.model@)),
            ("api_key"@, opt_str_json_view(m.api_key)),
            ("timeout_ms"@, u64_json_view(m.timeout_ms)),
        ],
    )
}

/// An optional model endpoint's JSON shape: null when absent.
pub open spec fn opt_model_endpoint_json_view(m: Option<ModelEndpoint>) -> JsonV {
    match m {
        Some(x) => model_endpoint_json_view(x),
        None => JsonV::Null,
    }
}

/// The configuration's JSON shape.
pub open spec fn config_json_view(cfg: ConfigInfo) -> JsonV {
    JsonV::Obj(
        seq![
            ("durability"@, JsonV::Str(cfg.durability@)),
            ("auto_embed"@, JsonV::Bool(cfg.auto_embed)),
            ("model"@, opt_model_endpoint_json_view(cfg.model)),
        ],
    )
}

/// An embedding's JSON shape: an array of numbers.
pub open spec fn embedding_json_view(e: Seq<u64>) -> JsonV {
    JsonV::Arr(Seq::new(e.len(), |i: int| JsonV::Float(e[i])))
}

/// Several embeddings' JSON shape.
pub open spec fn embeddings_json_view(es: Seq<Vec<u64>>) -> JsonV {
    JsonV::Arr(Seq::new(es.len(), |i: int| embedding_json_view(es[i]@)))
}

/// A string list's JSON shape.
pub open spec fn strings_json_view(items: Seq<String>) -> JsonV {
    JsonV::Arr(Seq::new(items.len(), |i: int| JsonV::Str(items[i]@)))
}

/// An unsigned integer list's JSON shape.
pub open spec fn u64s_json_view(items: Seq<u64>) -> JsonV {
    JsonV::Arr(Seq::new(items.len(), |i: int| u64_json_view(items[i])))
}

/// A token id list's JSON shape.
pub open spec fn u32s_json_view(items: Seq<u32>) -> JsonV {
    JsonV::Arr(Seq::new(items.len(), |i: int| JsonV::Int(items[i] as i64)))
}

/// A versioned value list's JSON shape.
pub open spec fn versioned_list_json_view(items: Seq<VersionedValue>) -> JsonV {
    JsonV::Arr(Seq::new(items.len(), |i: int| versioned_json_view(items[i])))
}

/// A vector match list's JSON shape.
pub open spec fn vector_match_list_json_view(items: Seq<VectorMatch>) -> JsonV {
    JsonV::Arr(Seq::new(items.len(), |i: int| vector_match_json_view(items[i])))
}

/// A vector collection list's JSON shape.
pub open spec fn vector_collection_list_json_view(items: Seq<VectorCollection>) -> JsonV {
    JsonV::Arr(Seq::new(items.len(), |i: int| vector_collection_json_view(items[i])))
}

/// A branch description list's JSON shape.
pub open spec fn branch_list_json_view(items: Seq<VersionedBranchInfo>) -> JsonV {
    JsonV::Arr(Seq::new(items.len(), |i: int| versioned_branch_json_view(items[i])))
}

/// A search result list's JSON shape.
pub open spec fn search_result_list_json_view(items: Seq<SearchResult>) -> JsonV {
    JsonV::Arr(Seq::new(items.len(), |i: int| search_result_json_view(items[i])))
}

/// A batch outcome list's JSON shape.
pub open spec fn batch_result_list_json_view(items: Seq<BatchResult>) -> JsonV {
    JsonV::Arr(Seq::new(items.len(), |i: int| batch_result_json_view(items[i])))
}

/// A merge conflict list's JSON shape.
pub open spec fn merge_conflict_list_json_view(items: Seq<MergeConflict>) -> JsonV {
    JsonV::Arr(Seq::new(items.len(), |i: int| merge_conflict_json_view(items[i])))
}

/// A model description list's JSON shape.
pub open spec fn model_info_list_json_view(items: Seq<ModelInfo>) -> JsonV {
    JsonV::Arr(Seq::new(items.len(), |i: int| model_info_json_view(items[i])))
}

/// A key page's JSON shape: the keys, with the cursor only when present.
pub open spec fn json_list_result_json_view(keys: Seq<String>, cursor: Option<String>) -> JsonV {
    match cursor {
        Some(c) => JsonV::Obj(seq![("keys"@, strings_json_view(keys)), ("cursor"@, JsonV::Str(c@))]),
        None => JsonV::Obj(seq![("keys"@, strings_json_view(keys))]),
    }
}

/// The canonical JSON shape of each output variant.
pub open spec fn output_json_view(o: Output) -> JsonV {
    match o {
        Output::Unit => JsonV::Null,
        Output::Maybe(opt) => opt_value_json_view(opt),
        Output::MaybeVersioned(opt) => match opt {
            Some(vv) => versioned_json_view(vv),
            None => JsonV::Null,
        },
        Output::MaybeVersion(opt) => opt_u64_json_view(opt),
        Output::Version(v) => JsonV::Obj(seq![("version"@, u64_json_view(v))]),
        Output::Bool(b) => JsonV::Bool(b),
        Output::Uint(n) => u64_json_view(n),
        Output::VersionedValues(values) => versioned_list_json_view(values@),
        Output::VersionHistory(opt) => match opt {
            Some(values) => versioned_list_json_view(values@),
            None => JsonV::Null,
        },
        Output::Keys(keys) => strings_json_view(keys@),
        Output::JsonListResult { keys, cursor } => json_list_result_json_view(keys@, cursor),
        Output::VectorMatches(matches) => vector_match_list_json_view(matches@),
        Output::VectorData(opt) => match opt {
            Some(vd) => vector_data_json_view(vd),
            None => JsonV::Null,
        },
        Output::VectorCollectionList(collections) => vector_collection_list_json_view(
            collections@,
        ),
        Output::Versions(versions) => u64s_json_view(versions@),
        Output::MaybeBranchInfo(opt) => match opt {
            Some(b) => versioned_branch_json_view(b),
            None => JsonV::Null,
        },
        Output::BranchInfoList(branches) => branch_list_json_view(branches@),
        Output::BranchWithVersion { info, version } => branch_with_version_json_view(
            info,
            version,
        ),
        Output::TxnInfo(opt) => match opt {
            Some(ti) => txn_description_json_view(ti),
            None => JsonV::Null,
        },
        Output::TxnBegun => JsonV::Obj(seq![("status"@, JsonV::Str("begun"@))]),
        Output::TxnCommitted { version } => JsonV::Obj(
            seq![("status"@, JsonV::Str("committed"@)), ("version"@, u64_json_view(version))],
        ),
        Output::TxnAborted => JsonV::Obj(seq![("status"@, JsonV::Str("aborted"@))]),
        Output::DatabaseInfo(info) => database_info_json_view(info),
        Output::Pong { version } => JsonV::Obj(
            seq![("pong"@, JsonV::Bool(true)), ("version"@, JsonV::Str(version@))],
        ),
        Output::SearchResults(results) => search_result_list_json_view(results@),
        Output::SpaceList(spaces) => strings_json_view(spaces@),
        Output::BranchExported(result) => branch_exported_json_view(result),
        Output::BranchImported(result) => branch_imported_json_view(result),
        Output::BundleValidated(result) => bundle_validated_json_view(result),
        Output::TimeRange { oldest_ts, latest_ts } => JsonV::Obj(
            seq![
                ("oldest_ts"@, opt_u64_json_view(oldest_ts)),
                ("latest_ts"@, opt_u64_json_view(latest_ts)),
            ],
        ),
        Output::BatchResults(results) => batch_result_list_json_view(results@),
        Output::DurabilityCounters(counters) => durability_json_view(counters),
        Output::EmbedStatus(info) => embed_status_json_view(info),
        Output::Embedding(e) => embedding_json_view(e@),
        Output::Embeddings(es) => embeddings_json_view(es@),
        Output::Generated(result) => generated_json_view(result),
        Output::TokenIds(result) => token_ids_json_view(result),
        Output::Text(text) => JsonV::Obj(seq![("text"@, JsonV::Str(text@))]),
        Output::ModelsList(models) => model_info_list_json_view(models@),
        Output::ModelsPulled { name, path } => JsonV::Obj(
            seq![("name"@, JsonV::Str(name@)), ("path"@, JsonV::Str(path@))],
        ),
        Output::BranchForked(info) => fork_json_view(info),
        Output::BranchDiff(diff) => diff_json_view(diff),
        Output::BranchMerged(info) => merged_json_view(info),
        Output::Config(cfg) => config_json_view(cfg),
    }
}

pub(crate) fn ju64(n: u64) -> (r: Json)
    ensures
        r@ == u64_json_view(n),
{
    if n <= i64::MAX as u64 {
        Json::Int(n as i64)
    } else {
        Json::BigNum(u64_to_dec(n))
    }
}

pub(crate) fn jopt_u64(n: &Option<u64>) -> (r: Json)
    ensures
        r@ == opt_u64_json_view(*n),
{
    match n {
        Some(v) => ju64(*v),
        None => Json::Null,
    }
}

pub(crate) fn jstr(s: &String) -> (r: Json)
    ensures
        r@ == JsonV::Str(s@),
{
    Json::Str(s.clone())
}

pub(crate) fn jopt_str(s: &Option<String>) -> (r: Json)
    ensures
        r@ == opt_str_json_view(*s),
{
    match s {
        Some(v) => jstr(v),
        None => Json::Null,
    }
}

pub(crate) fn jopt_value(v: &Option<Value>) -> (r: Json)
    ensures
        r@ == opt_value_json_view(*v),
{
    match v {
        Some(inner) => crate::convert::value_to_json(inner),
        None => Json::Null,
    }
}

pub(crate) fn obj1(k1: &str, v1: Json) -> (r: Json)
    ensures
        r@ == JsonV::Obj(seq![(k1@, v1@)]),
{
    let mut fields: Vec<(String, Json)> = Vec::new();
    fields.push((k1.to_owned(), v1));
    let r = Json::Obj(fields);
    proof {
        assert(json_view_fields(r->Obj_0@) =~= seq![(k1@, v1@)]);
    }
    r
}

pub(crate) fn obj2(k1: &str, v1: Json, k2: &str, v2: Json) -> (r: Json)
    ensures
        r@ == JsonV::Obj(seq![(k1@, v1@), (k2@, v2@)]),
{
    let mut fields: Vec<(String, Json)> = Vec::new();
    fields.push((k1.to_owned(), v1));
    fields.push((k2.to_owned(), v2));
    let r = Json::Obj(fields);
    proof {
        assert(json_view_fields(r->Obj_0@) =~= seq![(k1@, v1@), (k2@, v2@)]);
    }
    r
}

pub(crate) fn obj3(k1: &str, v1: Json, k2: &str, v2: Json, k3: &str, v3: Json) -> (r: Json)
    ensures
        r@ == JsonV::Obj(seq![(k1@, v1@), (k2@, v2@), (k3@, v3@)]),
{
    let mut fields: Vec<(String, Json)> = Vec::new();
    fields.push((k1.to_owned(), v1));
    fields.push((k2.to_owned(), v2));
    fields.push((k3.to_owned(), v3));
    let r = Json::Obj(fields);
    proof {
        assert(json_view_fields(r->Obj_0@) =~= seq![(k1@, v1@), (k2@, v2@), (k3@, v3@)]);
    }
    r
}

pub(crate) fn obj4(k1: &str, v1: Json, k2: &str, v2: Json, k3: &str, v3: Json, k4: &str, v4: Json) -> (r:
    Json)
    ensures
        r@ == JsonV::Obj(seq![(k1@, v1@), (k2@, v2@), (k3@, v3@), (k4@, v4@)]),
{
    let mut fields: Vec<(String, Json)> = Vec::new();
    fields.push((k1.to_owned(), v1));
    fields.push((k2.to_owned(), v2));
    fields.push((k3.to_owned(), v3));
    fields.push((k4.to_owned(), v4));
    let r = Json::Obj(fields);
    proof {
        assert(json_view_fields(r->Obj_0@) =~= seq![
            (k1@, v1@),
            (k2@, v2@),
            (k3@, v3@),
            (k4@, v4@),
        ]);
    }
    r
}

pub(crate) fn obj5(
    k1: &str,
    v1: Json,
    k2: &str,
    v2: Json,
    k3: &str,
    v3: Json,
    k4: &str,
    v4: Json,
    k5: &str,
    v5: Json,
) -> (r: Json)
    ensures
        r@ == JsonV::Obj(seq![(k1@, v1@), (k2@, v2@), (k3@, v3@), (k4@, v4@), (k5@, v5@)]),
{
    let mut fields: Vec<(String, Json)> = Vec::new();
    fields.push((k1.to_owned(), v1));
    fields.push((k2.to_owned(), v2));
    fields.push((k3.to_owned(), v3));
    fields.push((k4.to_owned(), v4));
    fields.push((k5.to_owned(), v5));
    let r = Json::Obj(fields);
    proof {
        assert(json_view_fields(r->Obj_0@) =~= seq![
            (k1@, v1@),
            (k2@, v2@),
            (k3@, v3@),
            (k4@, v4@),
            (k5@, v5@),
        ]);
    }
    r
}

pub(crate) fn obj6(
    k1: &str,
    v1: Json,
    k2: &str,
    v2: Json,
    k3: &str,
    v3: Json,
    k4: &str,
    v4: Json,
    k5: &str,
    v5: Json,
    k6: &str,
    v6: Json,
) -> (r: Json)
    ensures
        r@ == JsonV::Obj(
            seq![(k1@, v1@), (k2@, v2@), (k3@, v3@), (k4@, v4@), (k5@, v5@), (k6@, v6@)],
        ),
{
    let mut fields: Vec<(String, Json)> = Vec::new();
    fields.push((k1.to_owned(), v1));
    fields.push((k2.to_owned(), v2));
    fields.push((k3.to_owned(), v3));
    fields.push((k4.to_owned(), v4));
    fields.push((k5.to_owned(), v5));
    fields.push((k6.to_owned(), v6));
    let r = Json::Obj(fields);
    proof {
        assert(json_view_fields(r->Obj_0@) =~= seq![
            (k1@, v1@),
            (k2@, v2@),
            (k3@, v3@),
            (k4@, v4@),
            (k5@, v5@),
            (k6@, v6@),
        ]);
    }
    r
}

/// A versioned value's canonical JSON rendering.
pub fn versioned_to_json(vv: &VersionedValue) -> (r: Json)
    ensures
        r@ == versioned_json_view(*vv),
{
    obj3(
        "value",
        crate::convert::value_to_json(&vv.value),
        "version",
        ju64(vv.version),
        "timestamp",
        ju64(vv.timestamp),
    )
}

fn branch_status_json(s: &BranchStatus) -> (r: Json)
    ensures
        r@ == branch_status_json_view(*s),
{
    match s {
        BranchStatus::Active => Json::Str("active".to_owned()),
        BranchStatus::Archived => Json::Str("archived".to_owned()),
    }
}

fn txn_status_json(s: &TxnStatus) -> (r: Json)
    ensures
        r@ == txn_status_json_view(*s),
{
    match s {
        TxnStatus::Active => Json::Str("active".to_owned()),
        TxnStatus::Committed => Json::Str("committed".to_owned()),
        TxnStatus::Aborted => Json::Str("aborted".to_owned()),
    }
}

fn branch_info_fields(bi: &BranchInfo) -> (v: Vec<(String, Json)>)
    ensures
        json_view_fields(v@) == branch_info_fields_view(*bi),
{
    let mut fields: Vec<(String, Json)> = Vec::new();
    fields.push(("id".to_owned(), jstr(&bi.id)));
    fields.push(("status".to_owned(), branch_status_json(&bi.status)));
    fields.push(("created_at".to_owned(), ju64(bi.created_at)));
    fields.push(("updated_at".to_owned(), ju64(bi.updated_at)));
    fields.push(("parent_id".to_owned(), jopt_str(&bi.parent_id)));
    proof {
        assert(json_view_fields(fields@) =~= branch_info_fields_view(*bi));
    }
    fields
}

fn versioned_branch_json(b: &VersionedBranchInfo) -> (r: Json)
    ensures
        r@ == versioned_branch_json_view(*b),
{
    let mut fields = branch_info_fields(&b.info);
    fields.push(("version".to_owned(), ju64(b.version)));
    fields.push(("timestamp".to_owned(), ju64(b.timestamp)));
    let r = Json::Obj(fields);
    proof {
        assert(json_view_fields(r->Obj_0@) =~= branch_info_fields_view(b.info) + seq![
            ("version"@, u64_json_view(b.version)),
            ("timestamp"@, u64_json_view(b.timestamp)),
        ]);
    }
    r
}

fn branch_with_version_json(info: &BranchInfo, version: u64) -> (r: Json)
    ensures
        r@ == branch_with_version_json_view(*info, version),
{
    let mut fields = branch_info_fields(info);
    fields.push(("version".to_owned(), ju64(version)));
    let r = Json::Obj(fields);
    proof {
        assert(json_view_fields(r->Obj_0@) =~= branch_info_fields_view(*info).push(
            ("version"@, u64_json_view(version)),
        ));
    }
    r
}

fn vector_match_json(m: &VectorMatch) -> (r: Json)
    ensures
        r@ == vector_match_json_view(*m),
{
    obj3("key", jstr(&m.key), "score", Json::Float(m.score), "metadata", jopt_value(&m.metadata))
}

fn embedding_json(e: &Vec<u64>) -> (r: Json)
    ensures
        r@ == embedding_json_view(e@),
{
    let mut out: Vec<Json> = Vec::new();
    let mut idx: usize = 0;
    while idx < e.len()
        invariant
            idx <= e@.len(),
            out@.len() == idx,
            forall|k: int| 0 <= k < idx ==> json_view(#[trigger] out@[k]) == JsonV::Float(e@[k]),
        decreases e@.len() - idx,
    {
        out.push(Json::Float(e[idx]));
        idx = idx + 1;
    }
    let r = Json::Arr(out);
    proof {
        assert(json_view_seq(r->Arr_0@) =~= Seq::new(e@.len(), |i: int| JsonV::Float(e@[i])));
    }
    r
}

fn vector_data_json(vd: &VectorData) -> (r: Json)
    ensures
        r@ == vector_data_json_view(*vd),
{
    obj5(
        "key",
        jstr(&vd.key),
        "embedding",
        embedding_json(&vd.embedding),
        "metadata",
        jopt_value(&vd.metadata),
        "version",
        ju64(vd.version),
        "timestamp",
        ju64(vd.timestamp),
    )
}

fn vector_collection_json(c: &VectorCollection) -> (r: Json)
    ensures
        r@ == vector_collection_json_view(*c),
{
    obj6(
        "name",
        jstr(&c.name),
        "dimension",
        ju64(c.dimension),
        "metric",
        jstr(&c.metric),
        "count",
        ju64(c.count),
        "index_type",
        jstr(&c.index_type),
        "memory_bytes",
        ju64(c.memory_bytes),
    )
}

fn txn_description_json(ti: &TxnDescription) -> (r: Json)
    ensures
        r@ == txn_description_json_view(*ti),
{
    obj3("id", ju64(ti.id), "status", txn_status_json(&ti.status), "started_at", ju64(ti.started_at))
}

fn database_info_json(info: &DatabaseInfo) -> (r: Json)
    ensures
        r@ == database_info_json_view(*info),
{
    obj4(
        "version",
        jstr(&info.version),
        "uptime_secs",
        ju64(info.uptime_secs),
        "branch_count",
        ju64(info.branch_count),
        "total_keys",
        ju64(info.total_keys),
    )
}

fn search_result_json(sr: &SearchResult) -> (r: Json)
    ensures
        r@ == search_result_json_view(*sr),
{
    obj5(
        "entity",
        jstr(&sr.entity),
        "primitive",
        jstr(&sr.primitive),
        "score",
        Json::Float(sr.score),
        "rank",
        ju64(sr.rank),
        "snippet",
        jstr(&sr.snippet),
    )
}

fn branch_exported_json(result: &BranchExported) -> (r: Json)
    ensures
        r@ == branch_exported_json_view(*result),
{
    obj4(
        "branch_id",
        jstr(&result.branch_id),
        "path",
        jstr(&result.path),
        "entry_count",
        ju64(result.entry_count),
        "bundle_size",
        ju64(result.bundle_size),
    )
}

fn branch_imported_json(result: &BranchImported) -> (r: Json)
    ensures
        r@ == branch_imported_json_view(*result),
{
    obj3(
        "branch_id",
        jstr(&result.branch_id),
        "transactions_applied",
        ju64(result.transactions_applied),
        "keys_written",
        ju64(result.keys_written),
    )
}

fn bundle_validated_json(result: &BundleValidated) -> (r: Json)
    ensures
        r@ == bundle_validated_json_view(*result),
{
    obj4(
        "branch_id",
        jstr(&result.branch_id),
        "format_version",
        ju64(result.format_version),
        "entry_count",
        ju64(result.entry_count),
        "checksums_valid",
        Json::Bool(result.checksums_valid),
    )
}

fn batch_result_json(b: &BatchResult) -> (r: Json)
    ensures
        r@ == batch_result_json_view(*b),
{
    obj2("version", jopt_u64(&b.version), "error", jopt_str(&b.error))
}

fn durability_json(c: &DurabilityCounters) -> (r: Json)
    ensures
        r@ == durability_json_view(*c),
{
    obj4(
        "wal_appends",
        ju64(c.wal_appends),
        "sync_calls",
        ju64(c.sync_calls),
        "bytes_written",
        ju64(c.bytes_written),
        "sync_nanos",
        ju64(c.sync_nanos),
    )
}

fn embed_status_json(info: &EmbedInfo) -> (r: Json)
    ensures
        r@ == embed_status_json_view(*info),
{
    let is_idle = info.pending == 0 && info.scheduler_active_tasks == 0
        && info.scheduler_queue_depth == 0;
    let mut fields: Vec<(String, Json)> = Vec::new();
    fields.push(("auto_embed".to_owned(), Json::Bool(info.auto_embed)));
    fields.push(("batch_size".to_owned(), ju64(info.batch_size)));
    fields.push(("pending".to_owned(), ju64(info.pending)));
    fields.push(("total_queued".to_owned(), ju64(info.total_queued)));
    fields.push(("total_embedded".to_owned(), ju64(info.total_embedded)));
    fields.push(("total_failed".to_owned(), ju64(info.total_failed)));
    fields.push(("scheduler_queue_depth".to_owned(), ju64(info.scheduler_queue_depth)));
    fields.push(("scheduler_active_tasks".to_owned(), ju64(info.scheduler_active_tasks)));
    fields.push(("is_idle".to_owned(), Json::Bool(is_idle)));
    let r = Json::Obj(fields);
    proof {
        assert(json_view_fields(r->Obj_0@) =~= embed_status_json_view(*info)->Obj_0);
    }
    r
}

fn generated_json(result: &Generated) -> (r: Json)
    ensures
        r@ == generated_json_view(*result),
{
    obj5(
        "text",
        jstr(&result.text),
        "stop_reason",
        jstr(&result.stop_reason),
        "prompt_tokens",
        ju64(result.prompt_tokens),
        "completion_tokens",
        ju64(result.completion_tokens),
        "model",
        jstr(&result.model),
    )
}

fn u32s_json(items: &Vec<u32>) -> (r: Json)
    ensures
        r@ == u32s_json_view(items@),
{
    let mut out: Vec<Json> = Vec::new();
    let mut idx: usize = 0;
    while idx < items.len()
        invariant
            idx <= items@.len(),
            out@.len() == idx,
            forall|k: int|
                0 <= k < idx ==> json_view(#[trigger] out@[k]) == JsonV::Int(items@[k] as i64),
        decreases items@.len() - idx,
    {
        out.push(Json::Int(items[idx] as i64));
        idx = idx + 1;
    }
    let r = Json::Arr(out);
    proof {
        assert(json_view_seq(r->Arr_0@) =~= Seq::new(
            items@.len(),
            |i: int| JsonV::Int(items@[i] as i64),
        ));
    }
    r
}

fn token_ids_json(result: &TokenIds) -> (r: Json)
    ensures
        r@ == token_ids_json_view(*result),
{
    obj3("ids", u32s_json(&result.ids), "count", ju64(result.count), "model", jstr(&result.model))
}

fn model_info_json(m: &ModelInfo) -> (r: Json)
    ensures
        r@ == model_info_json_view(*m),
{
    let mut fields: Vec<(String, Json)> = Vec::new();
    fields.push(("name".to_owned(), jstr(&m.name)));
    fields.push(("task".to_owned(), jstr(&m.task)));
    fields.push(("architecture".to_owned(), jstr(&m.architecture)));
    fields.push(("default_quant".to_owned(), jstr(&m.default_quant)));
    fields.push(("embedding_dim".to_owned(), jopt_u64(&m.embedding_dim)));
    fields.push(("is_local".to_owned(), Json::Bool(m.is_local)));
    fields.push(("size_bytes".to_owned(), jopt_u64(&m.size_bytes)));
    let r = Json::Obj(fields);
    proof {
        assert(json_view_fields(r->Obj_0@) =~= model_info_json_view(*m)->Obj_0);
    }
    r
}

fn fork_json(info: &ForkInfo) -> (r: Json)
    ensures
        r@ == fork_json_view(*info),
{
    obj3(
        "source",
        jstr(&info.source),
        "destination",
        jstr(&info.destination),
        "keys_copied",
        ju64(info.keys_copied),
    )
}

fn diff_json(diff: &BranchDiffResult) -> (r: Json)
    ensures
        r@ == diff_json_view(*diff),
{
    obj3(
        "branch_a",
        jstr(&diff.branch_a),
        "branch_b",
        jstr(&diff.branch_b),
        "summary",
        obj3(
            "total_added",
            ju64(diff.summary.total_added),
            "total_removed",
            ju64(diff.summary.total_removed),
            "total_modified",
            ju64(diff.summary.total_modified),
        ),
    )
}

fn merge_conflict_json(c: &MergeConflict) -> (r: Json)
    ensures
        r@ == merge_conflict_json_view(*c),
{
    obj2("key", jstr(&c.key), "space", jstr(&c.space))
}

/// Renders a merge's conflicting keys.
pub(crate) fn merge_conflicts_json(items: &Vec<MergeConflict>) -> (r: Json)
    ensures
        r@ == merge_conflict_list_json_view(items@),
{
    let mut out: Vec<Json> = Vec::new();
    let mut idx: usize = 0;
    while idx < items.len()
        invariant
            idx <= items@.len(),
            out@.len() == idx,
            forall|k: int|
                0 <= k < idx ==> json_view(#[trigger] out@[k]) == merge_conflict_json_view(
                    items@[k],
                ),
        decreases items@.len() - idx,
    {
        out.push(merge_conflict_json(&items[idx]));
        idx = idx + 1;
    }
    let r = Json::Arr(out);
    proof {
        assert(json_view_seq(r->Arr_0@) =~= Seq::new(
            items@.len(),
            |i: int| merge_conflict_json_view(items@[i]),
        ));
    }
    r
}

fn merged_json(info: &MergeInfo) -> (r: Json)
    ensures
        r@ == merged_json_view(*info),
{
    let conflicts = merge_conflicts_json(&info.conflicts);
    obj3(
        "keys_applied",
        ju64(info.keys_applied),
        "spaces_merged",
        ju64(info.spaces_merged),
        "conflicts",
        conflicts,
    )
}

fn config_json(cfg: &ConfigInfo) -> (r: Json)
    ensures
        r@ == config_json_view(*cfg),
{
    match &cfg.model {
        Some(m) => {
            let model = obj4(
                "endpoint",
                jstr(&m.endpoint),
                "model",
                jstr(&m.model),
                "api_key",
                jopt_str(&m.api_key),
                "timeout_ms",
                ju64(m.timeout_ms),
            );
            proof {
                assert(model@ == opt_model_endpoint_json_view(cfg.model));
            }
            obj3(
                "durability",
                jstr(&cfg.durability),
                "auto_embed",
                Json::Bool(cfg.auto_embed),
                "model",
                model,
            )
        },
        None => obj3(
            "durability",
            jstr(&cfg.durability),
            "auto_embed",
            Json::Bool(cfg.auto_embed),
            "model",
            Json::Null,
        ),
    }
}

fn strings_json(items: &Vec<String>) -> (r: Json)
    ensures
        r@ == strings_json_view(items@),
{
    let mut out: Vec<Json> = Vec::new();
    let mut idx: usize = 0;
    while idx < items.len()
        invariant
            idx <= items@.len(),
            out@.len() == idx,
            forall|k: int| 0 <= k < idx ==> json_view(#[trigger] out@[k]) == JsonV::Str(items@[k]@),
        decreases items@.len() - idx,
    {
        out.push(jstr(&items[idx]));
        idx = idx + 1;
    }
    let r = Json::Arr(out);
    proof {
        assert(json_view_seq(r->Arr_0@) =~= Seq::new(items@.len(), |i: int| JsonV::Str(items@[i]@)));
    }
    r
}

fn u64s_json(items: &Vec<u64>) -> (r: Json)
    ensures
        r@ == u64s_json_view(items@),
{
    let mut out: Vec<Json> = Vec::new();
    let mut idx: usize = 0;
    while idx < items.len()
        invariant
            idx <= items@.len(),
            out@.len() == idx,
            forall|k: int|
                0 <= k < idx ==> json_view(#[trigger] out@[k]) == u64_json_view(items@[k]),
        decreases items@.len() - idx,
    {
        out.push(ju64(items[idx]));
        idx = idx + 1;
    }
    let r = Json::Arr(out);
    proof {
        assert(json_view_seq(r->Arr_0@) =~= Seq::new(
            items@.len(),
            |i: int| u64_json_view(items@[i]),
        ));
    }
    r
}

fn embeddings_json(es: &Vec<Vec<u64>>) -> (r: Json)
    ensures
        r@ == embeddings_json_view(es@),
{
    let mut out: Vec<Json> = Vec::new();
    let mut idx: usize = 0;
    while idx < es.len()
        invariant
            idx <= es@.len(),
            out@.len() == idx,
            forall|k: int|
                0 <= k < idx ==> json_view(#[trigger] out@[k]) == embedding_json_view(es@[k]@),
        decreases es@.len() - idx,
    {
        out.push(embedding_json(&es[idx]));
        idx = idx + 1;
    }
    let r = Json::Arr(out);
    proof {
        assert(json_view_seq(r->Arr_0@) =~= Seq::new(
            es@.len(),
            |i: int| embedding_json_view(es@[i]@),
        ));
    }
    r
}

fn versioned_list_json(items: &Vec<VersionedValue>) -> (r: Json)
    ensures
        r@ == versioned_list_json_view(items@),
{
    let mut out: Vec<Json> = Vec::new();
    let mut idx: usize = 0;
    while idx < items.len()
        invariant
            idx <= items@.len(),
            out@.len() == idx,
            forall|k: int|
                0 <= k < idx ==> json_view(#[trigger] out@[k]) == versioned_json_view(items@[k]),
        decreases items@.len() - idx,
    {
        out.push(versioned_to_json(&items[idx]));
        idx = idx + 1;
    }
    let r = Json::Arr(out);
    proof {
        assert(json_view_seq(r->Arr_0@) =~= Seq::new(
            items@.len(),
            |i: int| versioned_json_view(items@[i]),
        ));
    }
    r
}

fn vector_match_list_json(items: &Vec<VectorMatch>) -> (r: Json)
    ensures
        r@ == vector_match_list_json_view(items@),
{
    let mut out: Vec<Json> = Vec::new();
    let mut idx: usize = 0;
    while idx < items.len()
        invariant
            idx <= items@.len(),
            out@.len() == idx,
            forall|k: int|
                0 <= k < idx ==> json_view(#[trigger] out@[k]) == vector_match_json_view(items@[k]),
        decreases items@.len() - idx,
    {
        out.push(vector_match_json(&items[idx]));
        idx = idx + 1;
    }
    let r = Json::Arr(out);
    proof {
        assert(json_view_seq(r->Arr_0@) =~= Seq::new(
            items@.len(),
            |i: int| vector_match_json_view(items@[i]),
        ));
    }
    r
}

fn vector_collection_list_json(items: &Vec<VectorCollection>) -> (r: Json)
    ensures
        r@ == vector_collection_list_json_view(items@),
{
    let mut out: Vec<Json> = Vec::new();
    let mut idx: usize = 0;
    while idx < items.len()
        invariant
            idx <= items@.len(),
            out@.len() == idx,
            forall|k: int|
                0 <= k < idx ==> json_view(#[trigger] out@[k]) == vector_collection_json_view(
                    items@[k],
                ),
        decreases items@.len() - idx,
    {
        out.push(vector_collection_json(&items[idx]));
        idx = idx + 1;
    }
    let r = Json::Arr(out);
    proof {
        assert(json_view_seq(r->Arr_0@) =~= Seq::new(
            items@.len(),
            |i: int| vector_collection_json_view(items@[i]),
        ));
    }
    r
}

fn branch_list_json(items: &Vec<VersionedBranchInfo>) -> (r: Json)
    ensures
        r@ == branch_list_json_view(items@),
{
    let mut out: Vec<Json> = Vec::new();
    let mut idx: usize = 0;
    while idx < items.len()
        invariant
            idx <= items@.len(),
            out@.len() == idx,
            forall|k: int|
                0 <= k < idx ==> json_view(#[trigger] out@[k]) == versioned_branch_json_view(
                    items@[k],
                ),
        decreases items@.len() - idx,
    {
        out.push(versioned_branch_json(&items[idx]));
        idx = idx + 1;
    }
    let r = Json::Arr(out);
    proof {
        assert(json_view_seq(r->Arr_0@) =~= Seq::new(
            items@.len(),
            |i: int| versioned_branch_json_view(items@[i]),
        ));
    }
    r
}

fn search_result_list_json(items: &Vec<SearchResult>) -> (r: Json)
    ensures
        r@ == search_result_list_json_view(items@),
{
    let mut out: Vec<Json> = Vec::new();
    let mut idx: usize = 0;
    while idx < items.len()
        invariant
            idx <= items@.len(),
            out@.len() == idx,
            forall|k: int|
                0 <= k < idx ==> json_view(#[trigger] out@[k]) == search_result_json_view(
                    items@[k],
                ),
        decreases items@.len() - idx,
    {
        out.push(search_result_json(&items[idx]));
        idx = idx + 1;
    }
    let r = Json::Arr(out);
    proof {
        assert(json_view_seq(r->Arr_0@) =~= Seq::new(
            items@.len(),
            |i: int| search_result_json_view(items@[i]),
        ));
    }
    r
}

fn batch_result_list_json(items: &Vec<BatchResult>) -> (r: Json)
    ensures
        r@ == batch_result_list_json_view(items@),
{
    let mut out: Vec<Json> = Vec::new();
    let mut idx: usize = 0;
    while idx < items.len()
        invariant
            idx <= items@.len(),
            out@.len() == idx,
            forall|k: int|
                0 <= k < idx ==> json_view(#[trigger] out@[k]) == batch_result_json_view(
                    items@[k],
                ),
        decreases items@.len() - idx,
    {
        out.push(batch_result_json(&items[idx]));
        idx = idx + 1;
    }
    let r = Json::Arr(out);
    proof {
        assert(json_view_seq(r->Arr_0@) =~= Seq::new(
            items@.len(),
            |i: int| batch_result_json_view(items@[i]),
        ));
    }
    r
}

fn model_info_list_json(items: &Vec<ModelInfo>) -> (r: Json)
    ensures
        r@ == model_info_list_json_view(items@),
{
    let mut out: Vec<Json> = Vec::new();
    let mut idx: usize = 0;
    while idx < items.len()
        invariant
            idx <= items@.len(),
            out@.len() == idx,
            forall|k: int|
                0 <= k < idx ==> json_view(#[trigger] out@[k]) == model_info_json_view(items@[k]),
        decreases items@.len() - idx,
    {
        out.push(model_info_json(&items[idx]));
        idx = idx + 1;
    }
    let r = Json::Arr(out);
    proof {
        assert(json_view_seq(r->Arr_0@) =~= Seq::new(
            items@.len(),
            |i: int| model_info_json_view(items@[i]),
        ));
    }
    r
}

/// Convert a store output to its canonical JSON shape.
pub fn output_to_json(output: Output) -> (r: Json)
    ensures
        r@ == output_json_view(output),
{
    match output {
        Output::Unit => Json::Null,
        Output::Maybe(opt) => jopt_value(&opt),
        Output::MaybeVersioned(opt) => match opt {
            Some(vv) => versioned_to_json(&vv),
            None => Json::Null,
        },
        Output::MaybeVersion(opt) => jopt_u64(&opt),
        Output::Version(v) => obj1("version", ju64(v)),
        Output::Bool(b) => Json::Bool(b),
        Output::Uint(n) => ju64(n),
        Output::VersionedValues(values) => versioned_list_json(&values),
        Output::VersionHistory(opt) => match opt {
            Some(values) => versioned_list_json(&values),
            None => Json::Null,
        },
        Output::Keys(keys) => strings_json(&keys),
        Output::JsonListResult { keys, cursor } => match cursor {
            Some(c) => obj2("keys", strings_json(&keys), "cursor", jstr(&c)),
            None => obj1("keys", strings_json(&keys)),
        },
        Output::VectorMatches(matches) => vector_match_list_json(&matches),
        Output::VectorData(opt) => match opt {
            Some(vd) => vector_data_json(&vd),
            None => Json::Null,
        },
        Output::VectorCollectionList(collections) => vector_collection_list_json(&collections),
        Output::Versions(versions) => u64s_json(&versions),
        Output::MaybeBranchInfo(opt) => match opt {
            Some(b) => versioned_branch_json(&b),
            None => Json::Null,
        },
        Output::BranchInfoList(branches) => branch_list_json(&branches),
        Output::BranchWithVersion { info, version } => branch_with_version_json(&info, version),
        Output::TxnInfo(opt) => match opt {
            Some(ti) => txn_description_json(&ti),
            None => Json::Null,
        },
        Output::TxnBegun => obj1("status", Json::Str("begun".to_owned())),
        Output::TxnCommitted { version } => obj2(
            "status",
            Json::Str("committed".to_owned()),
            "version",
            ju64(version),
        ),
        Output::TxnAborted => obj1("status", Json::Str("aborted".to_owned())),
        Output::DatabaseInfo(info) => database_info_json(&info),
        Output::Pong { version } => obj2("pong", Json::Bool(true), "version", jstr(&version)),
        Output::SearchResults(results) => search_result_list_json(&results),
        Output::SpaceList(spaces) => strings_json(&spaces),
        Output::BranchExported(result) => branch_exported_json(&result),
        Output::BranchImported(result) => branch_imported_json(&result),
        Output::BundleValidated(result) => bundle_validated_json(&result),
        Output::TimeRange { oldest_ts, latest_ts } => obj2(
            "oldest_ts",
            jopt_u64(&oldest_ts),
            "latest_ts",
            jopt_u64(&latest_ts),
        ),
        Output::BatchResults(results) => batch_result_list_json(&results),
        Output::DurabilityCounters(counters) => durability_json(&counters),
        Output::EmbedStatus(info) => embed_status_json(&info),
        Output::Embedding(e) => embedding_json(&e),
        Output::Embeddings(es) => embeddings_json(&es),
        Output::Generated(result) => generated_json(&result),
        Output::TokenIds(result) => token_ids_json(&result),
        Output::Text(text) => obj1("text", jstr(&text)),
        Output::ModelsList(models) => model_info_list_json(&models),
        Output::ModelsPulled { name, path } => obj2("name", jstr(&name), "path", jstr(&path)),
        Output::BranchForked(info) => fork_json(&info),
        Output::BranchDiff(diff) => diff_json(&diff),
        Output::BranchMerged(info) => merged_json(&info),
        Output::Config(cfg) => config_json(&cfg),
    }
}

} // verus!
