//! Session and command dispatch layer for a branchable, versioned data store.
//!
//! The crate exposes a fixed catalogue of named tools over an untyped JSON
//! value model and translates each call into a typed store command, then
//! translates the store's typed output back into JSON. The store itself is
//! an external collaborator: dispatching a tool call yields a [`Step`] that
//! either carries the finished JSON reply or names the store action to
//! perform, and the caller feeds the store's reply back through [`resume`]
//! to continue.
//!
//! The pieces:
//! - [`Json`] and [`Value`] with the codec between them ([`json_to_value`],
//!   [`value_to_json`]), proved to invert each other;
//! - [`Output`] with its canonical JSON rendering [`output_to_json`], one
//!   fixed shape per variant and no fallback case;
//! - [`Command`] and [`Action`] with their write classification;
//! - [`McpSession`], the branch/space/transaction context, with read-only
//!   enforcement applied before any write action is emitted and with the
//!   transaction flag tracking transaction outputs in lockstep;
//! - [`ToolRegistry`], the tool catalogue, with exact-match dispatch for the
//!   curated agent set and name-prefix routing for the developer set.

pub mod command;
pub mod convert;
pub mod error;
pub mod json;
pub mod output;
pub mod session;
pub mod strutil;
pub mod tools;
pub mod value;

pub use command::{Action, Command, MergeStrategy, Num};
pub use convert::{get_optional_bool, get_optional_num, get_optional_string, get_optional_u64,
    get_optional_u32_array, get_string_arg, get_string_list, get_u32_array, get_u64_arg,
    get_value_arg, json_to_value, value_to_json};
pub use error::{McpError, StoreFault};
pub use json::Json;
pub use output::{output_to_json, versioned_to_json, Output, VersionedValue};
pub use session::McpSession;
pub use tools::{resume, Pending, Step, ToolDef, ToolRegistry};
pub use value::Value;
