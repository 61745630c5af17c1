//! The memory plugin's decisions: its operations and opcodes, and whether a
//! key names one value or a prefix of keys.

use vstd::prelude::*;
use crate::plugin::{plugin_opcode, plugin_opcode_text, PluginName};
use crate::text::{ends_with, has_suffix, str_eq};

verus! {

/// Operations the memory plugin carries out for scenes.
#[derive(Clone, Copy, Debug, PartialEq, Eq, Structural)]
pub enum MemoryOp {
    Fetch,
    Recall,
    Store,
    Delete,
}

pub open spec fn memory_op_text(op: MemoryOp) -> Seq<char> {
    match op {
        MemoryOp::Fetch => "FETCH"@,
        MemoryOp::Recall => "RECALL"@,
        MemoryOp::Store => "STORE"@,
        MemoryOp::Delete => "DELETE"@,
    }
}

pub open spec fn memory_op_from_text(s: Seq<char>) -> Option<MemoryOp> {
    if s == "FETCH"@ {
        Some(MemoryOp::Fetch)
    } else if s == "RECALL"@ {
        Some(MemoryOp::Recall)
    } else if s == "STORE"@ {
        Some(MemoryOp::Store)
    } else if s == "DELETE"@ {
        Some(MemoryOp::Delete)
    } else {
        None
    }
}

impl MemoryOp {
    pub fn as_str(&self) -> (r: &'static str)
        ensures
            r@ == memory_op_text(*self),
    {
        match self {
            MemoryOp::Fetch => "FETCH",
            MemoryOp::Recall => "RECALL",
            MemoryOp::Store => "STORE",
            MemoryOp::Delete => "DELETE",
        }
    }

    pub fn parse(s: &str) -> (r: Option<MemoryOp>)
        ensures
            r == memory_op_from_text(s@),
    {
        if str_eq(s, "FETCH") {
            Some(MemoryOp::Fetch)
        } else if str_eq(s, "RECALL") {
            Some(MemoryOp::Recall)
        } else if str_eq(s, "STORE") {
            Some(MemoryOp::Store)
        } else if str_eq(s, "DELETE") {
            Some(MemoryOp::Delete)
        } else {
            None
        }
    }
}

/// Parsing the text of an operation gives the operation back, and a text
/// that parses is the text of the operation it parses to.
pub proof fn lemma_memory_op_text_round_trip(op: MemoryOp, s: Seq<char>)
    ensures
        memory_op_from_text(memory_op_text(op)) == Some(op),
        memory_op_from_text(s) == Some(op) ==> memory_op_text(op) == s,
{
    reveal_strlit("FETCH");
    reveal_strlit("RECALL");
    reveal_strlit("STORE");
    reveal_strlit("DELETE");
    match op {
        MemoryOp::Fetch => {
        },
        MemoryOp::Recall => {
            assert("RECALL"@.len() != "FETCH"@.len());
        },
        MemoryOp::Store => {
            assert("STORE"@[0] != "FETCH"@[0]);
            assert("STORE"@.len() != "RECALL"@.len());
        },
        MemoryOp::Delete => {
            assert("DELETE"@.len() != "FETCH"@.len());
            assert("DELETE"@[0] != "RECALL"@[0]);
            assert("DELETE"@.len() != "STORE"@.len());
        },
    }
}

/// The opcode scenes yield for a memory operation.
pub fn memory_opcode(op: MemoryOp) -> (r: String)
    ensures
        r@ == plugin_opcode_text(PluginName::Memory, memory_op_text(op)),
{
    plugin_opcode(PluginName::Memory, op.as_str())
}

/// Whether a memory key names a single value or every key under a prefix.
#[derive(Clone, Copy, Debug, PartialEq, Eq, Structural)]
pub enum MemoryTarget {
    Key,
    Prefix,
}

/// A key ending in `/` names a prefix.
pub open spec fn memory_target_of(key: Seq<char>) -> MemoryTarget {
    if has_suffix(key, "/"@) {
        MemoryTarget::Prefix
    } else {
        MemoryTarget::Key
    }
}

/// Whether `key` names one value or a prefix of keys.
pub fn memory_target(key: &str) -> (r: MemoryTarget)
    ensures
        r == memory_target_of(key@),
{
    if ends_with(key, "/") {
        MemoryTarget::Prefix
    } else {
        MemoryTarget::Key
    }
}

/// Why a memory operation was refused.
#[derive(Debug)]
pub enum MemoryError {
    /// The operation's text names no memory operation.
    UnknownOp(String),
    /// Storing nil under a prefix (deleting a prefix takes `memory.delete`).
    StoreNilPrefix,
}

/// The operation a scene asked the memory plugin for.
pub fn parse_memory_op(op: &str) -> (r: Result<MemoryOp, MemoryError>)
    ensures
        match memory_op_from_text(op@) {
            Some(o) => r matches Ok(p) && p == o,
            None => r matches Err(MemoryError::UnknownOp(t)) && t@ == op@,
        },
{
    match MemoryOp::parse(op) {
        Some(o) => Ok(o),
        None => Err(MemoryError::UnknownOp(op.to_owned())),
    }
}

/// Where `memory.store` writes; storing nil under a prefix is refused.
pub fn check_store(key: &str, value_is_nil: bool) -> (r: Result<MemoryTarget, MemoryError>)
    ensures
        memory_target_of(key@) == MemoryTarget::Prefix && value_is_nil ==> r matches Err(
            MemoryError::StoreNilPrefix,
        ),
        !(memory_target_of(key@) == MemoryTarget::Prefix && value_is_nil) ==> r == Ok::<
            MemoryTarget,
            MemoryError,
        >(memory_target_of(key@)),
{
    let target = memory_target(key);
    if target == MemoryTarget::Prefix && value_is_nil {
        Err(MemoryError::StoreNilPrefix)
    } else {
        Ok(target)
    }
}

/// What the memory plugin asks of the store for an operation.
#[derive(Clone, Copy, Debug, PartialEq, Eq, Structural)]
pub enum MemoryAction {
    /// Read the value, creating the key or prefix when it is missing.
    GetOrEnsure,
    /// Make sure the key or prefix exists, and read it.
    Ensure,
    /// Write the value.
    Update,
    /// Delete the key or prefix.
    Remove,
}

/// Which value is sent to the replicator after the store answered.
#[derive(Clone, Copy, Debug, PartialEq, Eq, Structural)]
pub enum MemoryReplication {
    /// The value read, and only when the store reports a change.
    ReadValueIfChanged,
    /// The value written.
    WrittenValue,
    /// Null, for a deletion.
    Null,
}

/// How the memory plugin carries out one operation.
#[derive(Clone, Copy, Debug, PartialEq, Eq, Structural)]
pub struct MemoryPlan {
    pub op: MemoryOp,
    pub target: MemoryTarget,
    pub action: MemoryAction,
    pub replication: MemoryReplication,
}

pub open spec fn memory_action_of(op: MemoryOp) -> MemoryAction {
    match op {
        MemoryOp::Recall => MemoryAction::GetOrEnsure,
        MemoryOp::Fetch => MemoryAction::Ensure,
        MemoryOp::Store => MemoryAction::Update,
        MemoryOp::Delete => MemoryAction::Remove,
    }
}

pub open spec fn memory_replication_of(op: MemoryOp) -> MemoryReplication {
    match op {
        MemoryOp::Recall | MemoryOp::Fetch => MemoryReplication::ReadValueIfChanged,
        MemoryOp::Store => MemoryReplication::WrittenValue,
        MemoryOp::Delete => MemoryReplication::Null,
    }
}

/// Each operation replicates what it did to the store: the reads (recall and
/// fetch) send the value read, and only when the store reports a change; a
/// store sends the value written; only a deletion sends null. So the
/// replication follows the store action: reading actions replicate on
/// change, the update its value, the removal null. No two operations ask
/// the same of the store.
pub proof fn lemma_memory_replication_follows_action(op: MemoryOp, other: MemoryOp)
    ensures
        op != other ==> memory_action_of(op) != memory_action_of(other),
        memory_replication_of(op) == MemoryReplication::ReadValueIfChanged <==> (op == MemoryOp::Recall || op
            == MemoryOp::Fetch),
        memory_replication_of(op) == MemoryReplication::Null <==> op == MemoryOp::Delete,
        memory_replication_of(op) == MemoryReplication::WrittenValue <==> op == MemoryOp::Store,
        memory_replication_of(op) == MemoryReplication::ReadValueIfChanged <==> (memory_action_of(op)
            == MemoryAction::GetOrEnsure || memory_action_of(op) == MemoryAction::Ensure),
        memory_replication_of(op) == MemoryReplication::WrittenValue <==> memory_action_of(op)
            == MemoryAction::Update,
        memory_replication_of(op) == MemoryReplication::Null <==> memory_action_of(op) == MemoryAction::Remove,
{
}

/// The plan of the operation `op` on `key`: unknown operations are refused,
/// and so is storing nil under a prefix; otherwise the key or prefix named
/// by `key`, with the store action and the replication of the operation.
pub fn plan_memory_op(op: &str, key: &str, value_is_nil: bool) -> (r: Result<MemoryPlan, MemoryError>)
    ensures
        memory_op_from_text(op@) is None ==> (r matches Err(MemoryError::UnknownOp(t)) && t@ == op@),
        memory_op_from_text(op@) == Some(MemoryOp::Store) && memory_target_of(key@) == MemoryTarget::Prefix
            && value_is_nil ==> r matches Err(MemoryError::StoreNilPrefix),
        r is Ok <==> (memory_op_from_text(op@) is Some && !(memory_op_from_text(op@) == Some(MemoryOp::Store)
            && memory_target_of(key@) == MemoryTarget::Prefix && value_is_nil)),
        r matches Ok(p) ==> Some(p.op) == memory_op_from_text(op@) && p.target == memory_target_of(key@)
            && p.action == memory_action_of(p.op) && p.replication == memory_replication_of(p.op),
{
    let o = parse_memory_op(op)?;
    let target = match o {
        MemoryOp::Store => check_store(key, value_is_nil)?,
        _ => memory_target(key),
    };
    let action = match o {
        MemoryOp::Recall => MemoryAction::GetOrEnsure,
        MemoryOp::Fetch => MemoryAction::Ensure,
        MemoryOp::Store => MemoryAction::Update,
        MemoryOp::Delete => MemoryAction::Remove,
    };
    let replication = match o {
        MemoryOp::Recall | MemoryOp::Fetch => MemoryReplication::ReadValueIfChanged,
        MemoryOp::Store => MemoryReplication::WrittenValue,
        MemoryOp::Delete => MemoryReplication::Null,
    };
    Ok(MemoryPlan { op: o, target, action, replication })
}

/// Whether a value goes to the replicator, given whether the store reported
/// a change: reads only when something changed, writes and deletions always.
pub fn should_replicate(replication: MemoryReplication, changed: bool) -> (r: bool)
    ensures
        r == (replication != MemoryReplication::ReadValueIfChanged || changed),
{
    match replication {
        MemoryReplication::ReadValueIfChanged => changed,
        _ => true,
    }
}

/// What the data of a memory node is replicated to.
pub enum ReplicationTarget {
    MemoryNode(String),
    Blueprint(u64),
}

/// How a memory node or blueprint is replicated to players.
pub struct ReplicationPolicy {
    pub target: ReplicationTarget,
}

/// A replication of a memory node being built by a script, with the
/// operators its updates go through.
pub struct SyncRx<O> {
    pub policy: ReplicationPolicy,
    pub pipeline: Vec<O>,
}

impl<O> SyncRx<O> {
    /// A replication of the memory node `key`, with no operators.
    pub fn new(key: String) -> (r: Self)
        ensures
            r.policy.target matches ReplicationTarget::MemoryNode(k) && k@ == key@,
            r.pipeline@.len() == 0,
    {
        SyncRx { policy: ReplicationPolicy { target: ReplicationTarget::MemoryNode(key) }, pipeline: Vec::new() }
    }
}

/// A handle on a replication policy that was registered.
pub struct SyncRxHandle {
    pub id: u64,
}

impl SyncRxHandle {
    pub fn new(id: u64) -> (r: Self)
        ensures
            r.id == id,
    {
        SyncRxHandle { id }
    }

    pub fn policy_id(&self) -> (r: u64)
        ensures
            r == self.id,
    {
        self.id
    }
}

} // verus!
