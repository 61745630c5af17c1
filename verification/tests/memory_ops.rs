use rock_runtime::memory::{
    plan_memory_op, should_replicate, MemoryAction, MemoryReplication, check_store, memory_opcode, memory_target, parse_memory_op, MemoryError, MemoryOp, MemoryTarget,
    ReplicationTarget, SyncRx, SyncRxHandle,
};

#[test]
fn memory_opcodes() {
    assert_eq!(memory_opcode(MemoryOp::Fetch), "MEMORY_FETCH");
    assert_eq!(memory_opcode(MemoryOp::Recall), "MEMORY_RECALL");
    assert_eq!(memory_opcode(MemoryOp::Store), "MEMORY_STORE");
    assert_eq!(memory_opcode(MemoryOp::Delete), "MEMORY_DELETE");
}

#[test]
fn memory_op_round_trip() {
    for op in [MemoryOp::Fetch, MemoryOp::Recall, MemoryOp::Store, MemoryOp::Delete] {
        assert_eq!(MemoryOp::parse(op.as_str()), Some(op));
    }
}

#[test]
fn unknown_memory_op_is_refused() {
    match parse_memory_op("WIPE") {
        Err(MemoryError::UnknownOp(t)) => assert_eq!(t, "WIPE"),
        _ => panic!("expected UnknownOp"),
    }
    assert!(matches!(parse_memory_op("RECALL"), Ok(MemoryOp::Recall)));
}

#[test]
fn trailing_slash_names_a_prefix() {
    assert_eq!(memory_target("scores/"), MemoryTarget::Prefix);
    assert_eq!(memory_target("scores/alice"), MemoryTarget::Key);
    assert_eq!(memory_target(""), MemoryTarget::Key);
    assert_eq!(memory_target("/"), MemoryTarget::Prefix);
}

#[test]
fn storing_nil_under_a_prefix_is_refused() {
    assert!(matches!(check_store("scores/", true), Err(MemoryError::StoreNilPrefix)));
    assert!(matches!(check_store("scores/", false), Ok(MemoryTarget::Prefix)));
    assert!(matches!(check_store("scores/alice", true), Ok(MemoryTarget::Key)));
}

#[test]
fn sync_rx_starts_on_its_node() {
    let s: SyncRx<u8> = SyncRx::new("world/state".to_string());
    match &s.policy.target {
        ReplicationTarget::MemoryNode(k) => assert_eq!(k, "world/state"),
        ReplicationTarget::Blueprint(_) => panic!("wrong target"),
    }
    assert!(s.pipeline.is_empty());
    assert_eq!(SyncRxHandle::new(9).policy_id(), 9);
}

#[test]
fn memory_plans() {
    let p = plan_memory_op("RECALL", "scores/", false).unwrap();
    assert_eq!(p.op, MemoryOp::Recall);
    assert_eq!(p.target, MemoryTarget::Prefix);
    assert_eq!(p.action, MemoryAction::GetOrEnsure);
    assert_eq!(p.replication, MemoryReplication::ReadValueIfChanged);
    let p = plan_memory_op("FETCH", "k", false).unwrap();
    assert_eq!(p.action, MemoryAction::Ensure);
    let p = plan_memory_op("STORE", "k", true).unwrap();
    assert_eq!((p.target, p.action, p.replication), (MemoryTarget::Key, MemoryAction::Update, MemoryReplication::WrittenValue));
    let p = plan_memory_op("DELETE", "scores/", true).unwrap();
    assert_eq!((p.target, p.action, p.replication), (MemoryTarget::Prefix, MemoryAction::Remove, MemoryReplication::Null));
    assert!(matches!(plan_memory_op("STORE", "scores/", true), Err(MemoryError::StoreNilPrefix)));
    match plan_memory_op("PEEK", "k", false) {
        Err(MemoryError::UnknownOp(t)) => assert_eq!(t, "PEEK"),
        _ => panic!("expected UnknownOp"),
    }
}

#[test]
fn replication_after_the_store_answered() {
    assert!(!should_replicate(MemoryReplication::ReadValueIfChanged, false));
    assert!(should_replicate(MemoryReplication::ReadValueIfChanged, true));
    assert!(should_replicate(MemoryReplication::WrittenValue, false));
    assert!(should_replicate(MemoryReplication::Null, false));
}
