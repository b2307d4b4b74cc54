//! The session: branch/space/transaction context with read-only enforcement.
//!
//! The session is created once per open store handle and owns the mutable
//! context. The store itself is an external collaborator, so executing a
//! command is split in two: [`McpSession::begin_execute`] applies the
//! read-only guard before anything is forwarded, and
//! [`McpSession::finish_execute`] folds the store's reply into the context.
//! Branch switching likewise checks first and commits after:
//! [`McpSession::switch_branch_command`] asks whether the branch exists, and
//! [`McpSession::switch_branch_apply`] updates the context only on a
//! confirmed yes, so the session never parks in an invalid branch context.

use vstd::prelude::*;

use crate::command::{Action, Command, MergeStrategy};
use crate::error::{McpError, StoreFault};
use crate::output::Output;

verus! {

/// The transaction flag after an output is observed: begun sets it,
/// committed or aborted clears it, anything else leaves it unchanged.
pub open spec fn txn_after(active: bool, o: Output) -> bool {
    match o {
        Output::TxnBegun => true,
        Output::TxnCommitted { .. } => false,
        Output::TxnAborted => false,
        _ => active,
    }
}

/// Is `e` the access-denied error for this operation name?
pub open spec fn access_denied_is(e: McpError, operation: Seq<char>) -> bool {
    &&& e matches McpError::AccessDenied(op)
    &&& op@ == operation
}

/// The session context: current branch, current space, transaction flag,
/// and the store's access mode.
#[derive(Debug, PartialEq, Eq)]
pub struct McpSession {
    /// The current branch's name.
    pub cur_branch: String,
    /// The current space's name.
    pub cur_space: String,
    /// Whether a transaction is open.
    pub txn_active: bool,
    /// Whether the store was opened read-only.
    pub read_only: bool,
}

impl McpSession {
    /// Creates a session in the default branch and space, outside any
    /// transaction.
    pub fn new(read_only: bool) -> (s: McpSession)
        ensures
            s.cur_branch@ == "default"@,
            s.cur_space@ == "default"@,
            !s.txn_active,
            s.read_only == read_only,
    {
        McpSession {
            cur_branch: "default".to_owned(),
            cur_space: "default".to_owned(),
            txn_active: false,
            read_only,
        }
    }

    /// Whether the store was opened read-only.
    pub fn is_read_only(&self) -> (r: bool)
        ensures
            r == self.read_only,
    {
        self.read_only
    }

    /// The current branch's name.
    pub fn branch(&self) -> (r: &str)
        ensures
            r@ == self.cur_branch@,
    {
        self.cur_branch.as_str()
    }

    /// The current space's name.
    pub fn space(&self) -> (r: &str)
        ensures
            r@ == self.cur_space@,
    {
        self.cur_space.as_str()
    }

    /// Whether a transaction is open.
    pub fn in_transaction(&self) -> (r: bool)
        ensures
            r == self.txn_active,
    {
        self.txn_active
    }

    /// The current branch, as commands carry it.
    pub fn branch_id(&self) -> (r: Option<String>)
        ensures
            r matches Some(b) && b@ == self.cur_branch@,
    {
        Some(self.cur_branch.clone())
    }

    /// The current space, as commands carry it.
    pub fn space_id(&self) -> (r: Option<String>)
        ensures
            r matches Some(s) && s@ == self.cur_space@,
    {
        Some(self.cur_space.clone())
    }

    /// Switches to a space. Spaces are free-form labels, so this always
    /// succeeds and touches nothing else.
    pub fn switch_space(&mut self, name: &str)
        ensures
            final(self).cur_space@ == name@,
            final(self).cur_branch == old(self).cur_branch,
            final(self).txn_active == old(self).txn_active,
            final(self).read_only == old(self).read_only,
    {
        self.cur_space = name.to_owned();
    }

    /// Rejects an operation by name when the store is read-only.
    pub fn check_write_access(&self, operation: &str) -> (r: Result<(), McpError>)
        ensures
            r is Ok <==> !self.read_only,
            r matches Err(e) ==> access_denied_is(e, operation@),
    {
        if self.read_only {
            Err(McpError::AccessDenied(operation.to_owned()))
        } else {
            Ok(())
        }
    }

    /// The read-only guard for a command: a write command against a
    /// read-only store is refused here and never reaches the store.
    pub fn begin_execute(&self, cmd: &Command) -> (r: Result<(), McpError>)
        ensures
            r is Ok <==> !(self.read_only && cmd.spec_is_write()),
            r matches Err(e) ==> access_denied_is(e, cmd.spec_name()),
    {
        if cmd.is_write() {
            self.check_write_access(cmd.name())
        } else {
            Ok(())
        }
    }

    /// Folds the store's reply to an executed command into the context:
    /// transaction boundaries drive the transaction flag in lockstep with
    /// their outputs, any other reply leaves the context unchanged, and a
    /// store fault passes through verbatim.
    pub fn finish_execute(&mut self, reply: Result<Output, StoreFault>) -> (r: Result<
        Output,
        McpError,
    >)
        ensures
            final(self).cur_branch == old(self).cur_branch,
            final(self).cur_space == old(self).cur_space,
            final(self).read_only == old(self).read_only,
            match reply {
                Ok(o) => {
                    &&& r == Ok::<Output, McpError>(o)
                    &&& final(self).txn_active == txn_after(old(self).txn_active, o)
                },
                Err(f) => {
                    &&& final(self).txn_active == old(self).txn_active
                    &&& r matches Err(e)
                    &&& e matches McpError::Store { code, message }
                    &&& code == f.code && message == f.message
                },
            },
    {
        match reply {
            Ok(output) => {
                match &output {
                    Output::TxnBegun => {
                        self.txn_active = true;
                    },
                    Output::TxnCommitted { .. } => {
                        self.txn_active = false;
                    },
                    Output::TxnAborted => {
                        self.txn_active = false;
                    },
                    _ => {},
                }
                Ok(output)
            },
            Err(f) => Err(McpError::Store { code: f.code, message: f.message }),
        }
    }

    /// The non-mutating existence check that a branch switch issues first.
    pub fn switch_branch_command(&self, name: &str) -> (c: Command)
        ensures
            c matches Command::BranchExists { branch } && branch@ == name@,
    {
        Command::BranchExists { branch: name.to_owned() }
    }

    /// Commits a branch switch from the existence check's reply. The branch
    /// field updates only on a confirmed yes; on every failure the whole
    /// context is left untouched.
    pub fn switch_branch_apply(&mut self, name: &str, reply: Result<Output, StoreFault>) -> (r:
        Result<(), McpError>)
        ensures
            r is Ok <==> reply == Ok::<Output, StoreFault>(Output::Bool(true)),
            r is Ok ==> final(self).cur_branch@ == name@ && final(self).cur_space == old(
                self,
            ).cur_space && final(self).txn_active == old(self).txn_active && final(self).read_only
                == old(self).read_only,
            r is Err ==> *final(self) == *old(self),
            reply == Ok::<Output, StoreFault>(Output::Bool(false)) ==> (r matches Err(e)
                && e matches McpError::BranchNotFound(n) && n@ == name@),
            (match reply {
                Ok(o) => !(o is Bool),
                Err(_) => false,
            }) ==> (r matches Err(e) && e is Internal),
            reply matches Err(f) ==> (r matches Err(e) && e matches McpError::Store {
                code,
                message,
            } && code == f.code && message == f.message),
    {
        match reply {
            Ok(Output::Bool(true)) => {
                self.cur_branch = name.to_owned();
                Ok(())
            },
            Ok(Output::Bool(false)) => Err(McpError::BranchNotFound(name.to_owned())),
            Ok(_) => Err(McpError::Internal("unexpected output for BranchExists".to_owned())),
            Err(f) => Err(McpError::Store { code: f.code, message: f.message }),
        }
    }

    /// The fork action for the current branch, behind the write guard.
    pub fn fork_branch(&self, destination: &str) -> (r: Result<Action, McpError>)
        ensures
            r is Ok <==> !self.read_only,
            r matches Ok(a) ==> a matches Action::BranchFork { source, destination: d }
                && source@ == self.cur_branch@ && d@ == destination@,
            r matches Err(e) ==> access_denied_is(e, "BranchFork"@),
    {
        self.check_write_access("BranchFork")?;
        Ok(
            Action::BranchFork {
                source: self.cur_branch.clone(),
                destination: destination.to_owned(),
            },
        )
    }

    /// The comparison action for two branches; reading needs no guard.
    pub fn diff_branches(&self, branch_a: &str, branch_b: &str) -> (r: Action)
        ensures
            r matches Action::BranchDiff { branch_a: a, branch_b: b } && a@ == branch_a@ && b@
                == branch_b@,
    {
        Action::BranchDiff { branch_a: branch_a.to_owned(), branch_b: branch_b.to_owned() }
    }

    /// The merge action into the current branch, behind the write guard.
    pub fn merge_branch(&self, source: &str, strategy: MergeStrategy) -> (r: Result<
        Action,
        McpError,
    >)
        ensures
            r is Ok <==> !self.read_only,
            r matches Ok(a) ==> a matches Action::BranchMerge {
                source: s,
                destination: d,
                strategy: st,
            } && s@ == source@ && d@ == self.cur_branch@ && st == strategy,
            r matches Err(e) ==> access_denied_is(e, "BranchMerge"@),
    {
        self.check_write_access("BranchMerge")?;
        Ok(
            Action::BranchMerge {
                source: source.to_owned(),
                destination: self.cur_branch.clone(),
                strategy,
            },
        )
    }
}

/// Transaction tracking follows the outputs in lockstep: beginning a
/// transaction raises the flag, a write inside it leaves the flag raised,
/// and committing lowers it; beginning and then aborting likewise returns
/// the flag to lowered.
pub proof fn lemma_txn_lockstep(active: bool, v: u64, w: u64)
    ensures
        txn_after(active, Output::TxnBegun),
        txn_after(txn_after(active, Output::TxnBegun), Output::Version(w)),
        !txn_after(
            txn_after(txn_after(active, Output::TxnBegun), Output::Version(w)),
            Output::TxnCommitted { version: v },
        ),
        !txn_after(txn_after(active, Output::TxnBegun), Output::TxnAborted),
{
}

} // verus!
