//! The typed command algebra sent to the store, and the store actions that
//! dispatch can request.

use vstd::prelude::*;

verus! {

/// A JSON number as dispatch hands it on: an exact 64-bit signed integer, or
/// the bit pattern of a 64-bit IEEE 754 value.
#[derive(Debug, PartialEq, Eq, Structural, Clone, Copy)]
pub enum Num {
    /// An exact integer.
    Int(i64),
    /// The bit pattern of a 64-bit IEEE 754 value.
    Float(u64),
}

/// How a branch merge resolves conflicting keys.
#[derive(Debug, PartialEq, Eq, Structural, Clone, Copy)]
pub enum MergeStrategy {
    /// The most recent write wins.
    LastWriterWins,
}

/// An operation request for the store. `branch` and `space` name the context
/// the session supplies; `None` leaves the store's default in force.
#[derive(Debug, PartialEq, Eq)]
pub enum Command {
    /// Write a JSON document, at a path within the keyed document.
    JsonSet {
        /// Branch context.
        branch: Option<String>,
        /// Space context.
        space: Option<String>,
        /// Document key.
        key: String,
        /// JSONPath within the document; `$` is the whole document.
        path: String,
        /// The value to write.
        value: crate::value::Value,
    },
    /// Read a JSON document, at a path, optionally as of a past timestamp.
    JsonGet {
        /// Branch context.
        branch: Option<String>,
        /// Space context.
        space: Option<String>,
        /// Document key.
        key: String,
        /// JSONPath within the document; `$` is the whole document.
        path: String,
        /// Read as of this microsecond timestamp, if given.
        as_of: Option<u64>,
    },
    /// Delete a JSON document, or a path within it.
    JsonDelete {
        /// Branch context.
        branch: Option<String>,
        /// Space context.
        space: Option<String>,
        /// Document key.
        key: String,
        /// JSONPath within the document; `$` is the whole document.
        path: String,
    },
    /// Read the version history of a JSON document.
    JsonGetv {
        /// Branch context.
        branch: Option<String>,
        /// Space context.
        space: Option<String>,
        /// Document key.
        key: String,
        /// Limit history to versions at or before this timestamp, if given.
        as_of: Option<u64>,
    },
    /// Append an immutable event.
    EventAppend {
        /// Branch context.
        branch: Option<String>,
        /// Space context.
        space: Option<String>,
        /// The event's type tag.
        event_type: String,
        /// The event's payload.
        payload: crate::value::Value,
    },
    /// Search stored data with a natural-language query.
    Search {
        /// Branch context.
        branch: Option<String>,
        /// Space context.
        space: Option<String>,
        /// The query text.
        query: String,
        /// How many results to return, if given.
        k: Option<u64>,
    },
    /// Create a branch, named or store-named.
    BranchCreate {
        /// The new branch's name, if given.
        branch_id: Option<String>,
    },
    /// Does a branch of this name exist?
    BranchExists {
        /// The branch name asked about.
        branch: String,
    },
    /// List all branches.
    BranchList,
    /// Delete a branch.
    BranchDelete {
        /// The branch to delete.
        branch: String,
    },
    /// The oldest and latest timestamps on a branch.
    TimeRange {
        /// Branch context.
        branch: Option<String>,
    },
    /// Database information.
    Info,
    /// Apply the retention policy.
    RetentionApply {
        /// Branch context.
        branch: Option<String>,
    },
    /// Write-ahead-log durability counters.
    DurabilityCounters,
    /// The embedding pipeline's status.
    EmbedStatus,
    /// Embed one text into a vector.
    Embed {
        /// The text to embed.
        text: String,
    },
    /// Embed several texts into vectors.
    EmbedBatch {
        /// The texts to embed.
        texts: Vec<String>,
    },
    /// Generate text with a local model.
    Generate {
        /// The model name.
        model: String,
        /// The prompt.
        prompt: String,
        /// Cap on generated tokens, if given.
        max_tokens: Option<u64>,
        /// Sampling temperature, if given.
        temperature: Option<Num>,
        /// Top-k sampling cutoff, if given.
        top_k: Option<u64>,
        /// Top-p sampling cutoff, if given.
        top_p: Option<Num>,
        /// Sampling seed, if given.
        seed: Option<u64>,
        /// Token ids that stop generation, if given.
        stop_tokens: Option<Vec<u32>>,
    },
    /// Tokenize text with a model's tokenizer.
    Tokenize {
        /// The model name.
        model: String,
        /// The text to tokenize.
        text: String,
        /// Whether to add the model's special tokens, if given.
        add_special_tokens: Option<bool>,
    },
    /// Convert token ids back to text.
    Detokenize {
        /// The model name.
        model: String,
        /// The token ids.
        ids: Vec<u32>,
    },
    /// Unload a model from memory.
    GenerateUnload {
        /// The model name.
        model: String,
    },
    /// List the models the registry offers.
    ModelsList,
    /// Download a model by name.
    ModelsPull {
        /// The model name.
        name: String,
    },
    /// List the models available locally.
    ModelsLocal,
    /// Begin a transaction.
    TxnBegin,
    /// Commit the open transaction.
    TxnCommit,
    /// Abort the open transaction.
    TxnAbort,
}

impl Command {
    /// Does this command mutate store state?
    pub open spec fn spec_is_write(&self) -> bool {
        match self {
            Command::JsonSet { .. } => true,
            Command::JsonDelete { .. } => true,
            Command::EventAppend { .. } => true,
            Command::BranchCreate { .. } => true,
            Command::BranchDelete { .. } => true,
            Command::RetentionApply { .. } => true,
            Command::ModelsPull { .. } => true,
            Command::TxnBegin => true,
            Command::TxnCommit => true,
            Command::TxnAbort => true,
            _ => false,
        }
    }

    /// Does this command mutate store state?
    #[verifier::when_used_as_spec(spec_is_write)]
    pub fn is_write(&self) -> (w: bool)
        ensures
            w == self.spec_is_write(),
    {
        match self {
            Command::JsonSet { .. } => true,
            Command::JsonDelete { .. } => true,
            Command::EventAppend { .. } => true,
            Command::BranchCreate { .. } => true,
            Command::BranchDelete { .. } => true,
            Command::RetentionApply { .. } => true,
            Command::ModelsPull { .. } => true,
            Command::TxnBegin => true,
            Command::TxnCommit => true,
            Command::TxnAbort => true,
            _ => false,
        }
    }

    /// The command's operation name, as error messages carry it.
    pub open spec fn spec_name(&self) -> Seq<char> {
        match self {
            Command::JsonSet { .. } => "JsonSet"@,
            Command::JsonGet { .. } => "JsonGet"@,
            Command::JsonDelete { .. } => "JsonDelete"@,
            Command::JsonGetv { .. } => "JsonGetv"@,
            Command::EventAppend { .. } => "EventAppend"@,
            Command::Search { .. } => "Search"@,
            Command::BranchCreate { .. } => "BranchCreate"@,
            Command::BranchExists { .. } => "BranchExists"@,
            Command::BranchList => "BranchList"@,
            Command::BranchDelete { .. } => "BranchDelete"@,
            Command::TimeRange { .. } => "TimeRange"@,
            Command::Info => "Info"@,
            Command::RetentionApply { .. } => "RetentionApply"@,
            Command::DurabilityCounters => "DurabilityCounters"@,
            Command::EmbedStatus => "EmbedStatus"@,
            Command::Embed { .. } => "Embed"@,
            Command::EmbedBatch { .. } => "EmbedBatch"@,
            Command::Generate { .. } => "Generate"@,
            Command::Tokenize { .. } => "Tokenize"@,
            Command::Detokenize { .. } => "Detokenize"@,
            Command::GenerateUnload { .. } => "GenerateUnload"@,
            Command::ModelsList => "ModelsList"@,
            Command::ModelsPull { .. } => "ModelsPull"@,
            Command::ModelsLocal => "ModelsLocal"@,
            Command::TxnBegin => "TxnBegin"@,
            Command::TxnCommit => "TxnCommit"@,
            Command::TxnAbort => "TxnAbort"@,
        }
    }

    /// The command's operation name, as error messages carry it.
    pub fn name(&self) -> (n: &'static str)
        ensures
            n@ == self.spec_name(),
    {
        match self {
            Command::JsonSet { .. } => "JsonSet",
            Command::JsonGet { .. } => "JsonGet",
            Command::JsonDelete { .. } => "JsonDelete",
            Command::JsonGetv { .. } => "JsonGetv",
            Command::EventAppend { .. } => "EventAppend",
            Command::Search { .. } => "Search",
            Command::BranchCreate { .. } => "BranchCreate",
            Command::BranchExists { .. } => "BranchExists",
            Command::BranchList => "BranchList",
            Command::BranchDelete { .. } => "BranchDelete",
            Command::TimeRange { .. } => "TimeRange",
            Command::Info => "Info",
            Command::RetentionApply { .. } => "RetentionApply",
            Command::DurabilityCounters => "DurabilityCounters",
            Command::EmbedStatus => "EmbedStatus",
            Command::Embed { .. } => "Embed",
            Command::EmbedBatch { .. } => "EmbedBatch",
            Command::Generate { .. } => "Generate",
            Command::Tokenize { .. } => "Tokenize",
            Command::Detokenize { .. } => "Detokenize",
            Command::GenerateUnload { .. } => "GenerateUnload",
            Command::ModelsList => "ModelsList",
            Command::ModelsPull { .. } => "ModelsPull",
            Command::ModelsLocal => "ModelsLocal",
            Command::TxnBegin => "TxnBegin",
            Command::TxnCommit => "TxnCommit",
            Command::TxnAbort => "TxnAbort",
        }
    }
}

/// A store action that dispatch asks its caller to perform: a command for
/// the session's execution path, or one of the branch power operations.
#[derive(Debug, PartialEq, Eq)]
pub enum Action {
    /// Execute a command.
    Execute(Command),
    /// Fork `source` onto a new branch `destination`, copying its data.
    BranchFork {
        /// The branch to copy.
        source: String,
        /// The new branch.
        destination: String,
    },
    /// Compare two branches.
    BranchDiff {
        /// One branch.
        branch_a: String,
        /// The other branch.
        branch_b: String,
    },
    /// Merge `source` into `destination`.
    BranchMerge {
        /// The branch merged from.
        source: String,
        /// The branch merged into.
        destination: String,
        /// How conflicts resolve.
        strategy: MergeStrategy,
    },
}

impl Action {
    /// Does this action mutate store state?
    pub open spec fn spec_is_write(&self) -> bool {
        match self {
            Action::Execute(c) => c.spec_is_write(),
            Action::BranchFork { .. } => true,
            Action::BranchDiff { .. } => false,
            Action::BranchMerge { .. } => true,
        }
    }

    /// Does this action mutate store state?
    #[verifier::when_used_as_spec(spec_is_write)]
    pub fn is_write(&self) -> (w: bool)
        ensures
            w == self.spec_is_write(),
    {
        match self {
            Action::Execute(c) => c.is_write(),
            Action::BranchFork { .. } => true,
            Action::BranchDiff { .. } => false,
            Action::BranchMerge { .. } => true,
        }
    }
}

} // verus!
