use rock_runtime::farcaster::{
    signer_step, SignerAction, SignerEvent, SignerFlow, SignerFlowError, SignerFlowState,
    parse_farcaster_op, reaction_request, reactions_filter, CastReaction, CastReactionsQuery, ReactionFilter,
    ReactionKind, FarcasterOpClass, FarcasterOpError, farcaster_opcode, parse_cast_argument, parse_user_argument, require_approved_signer, resolve_write_fids,
    signer_args_or_default, signer_request_action, write_args_or_default, CastArgument, CastGetPlan,
    CastIdentifier, CastIdentifierKind, CastRx, CastRxOpcodeKey, CastRxOpcodes, CastRxParams, FarcasterError,
    FarcasterOp, FeedRxOpcodes, SignerRequestAction, SignerRequestArgs, StoredSigner, SignerRxOpcodes, SignerStatus,
    UserArgument, UserGetPlan, UserRx, UserRxOpcodes, UserRxParams, WriteAsArgs,
};
use rock_runtime::farcaster::{WriteAsOp, SendCastOpParams};

const ALL_OPS: [FarcasterOp; 20] = [
    FarcasterOp::CastGet,
    FarcasterOp::CastBulkFetch,
    FarcasterOp::CastConvo,
    FarcasterOp::CastReactions,
    FarcasterOp::CastSend,
    FarcasterOp::CastDelete,
    FarcasterOp::CastReactionPublish,
    FarcasterOp::CastReactionDelete,
    FarcasterOp::UserGetByUsername,
    FarcasterOp::UserGetByFids,
    FarcasterOp::UserSearchByUsername,
    FarcasterOp::GetUserCasts,
    FarcasterOp::UserFollow,
    FarcasterOp::UserUnfollow,
    FarcasterOp::UserNotifications,
    FarcasterOp::SignerRequest,
    FarcasterOp::SignerGet,
    FarcasterOp::SignerRefresh,
    FarcasterOp::FeedForYou,
    FarcasterOp::FeedFollowing,
];

fn cast_rx(ids: Vec<CastIdentifier>) -> CastRx {
    CastRx::new(CastRxParams { opcodes: CastRxOpcodes::new(), ids })
}

fn user_rx(username: Option<&str>, fids: Vec<u64>) -> UserRx {
    UserRx::new(UserRxParams { opcodes: UserRxOpcodes::new(), username: username.map(|u| u.to_string()), fids })
}

#[test]
fn farcaster_op_round_trip() {
    for op in ALL_OPS {
        assert_eq!(FarcasterOp::parse(op.as_str()), Some(op));
        assert_eq!(farcaster_opcode(op), format!("FC_{}", op.as_str()));
    }
    assert_eq!(FarcasterOp::parse("cast_get"), None);
}

#[test]
fn builder_opcodes() {
    let c = CastRxOpcodes::new();
    assert_eq!(c.get(CastRxOpcodeKey::Get), "FC_CAST_GET");
    assert_eq!(c.get(CastRxOpcodeKey::BulkFetch), "FC_CAST_BULK_FETCH");
    assert_eq!(c.get(CastRxOpcodeKey::PublishReaction), "FC_CAST_REACTION_PUBLISH");
    assert_eq!(c.get(CastRxOpcodeKey::Delete), "FC_CAST_DELETE");
    let u = UserRxOpcodes::new();
    assert_eq!(u.get_by_fids, "FC_USER_GET_BY_FIDS");
    assert_eq!(u.get_notifications, "FC_USER_NOTIFICATIONS");
    let s = SignerRxOpcodes::new();
    assert_eq!(s.refresh, "FC_SIGNER_REFRESH");
    let f = FeedRxOpcodes::new();
    assert_eq!(f.for_you, "FC_FEED_FOR_YOU");
    assert_eq!(f.following, "FC_FEED_FOLLOWING");
}

#[test]
fn cast_ids_are_hashes_or_urls() {
    let h = CastIdentifier::try_from_text("0xabc".to_string()).unwrap();
    assert_eq!(h.kind(), CastIdentifierKind::Hash);
    assert_eq!(h.as_str(), "0xabc");
    let u = CastIdentifier::try_from_text("https://warpcast.com/a/0x1".to_string()).unwrap();
    assert_eq!(u.kind(), CastIdentifierKind::Url);
    let raw = u.raw();
    assert_eq!(raw.id, "https://warpcast.com/a/0x1");
    assert_eq!(raw.kind, CastIdentifierKind::Url);
    match CastIdentifier::try_from_text("abc".to_string()) {
        Err(FarcasterError::InvalidCastId(s)) => assert_eq!(s, "abc"),
        _ => panic!("expected InvalidCastId"),
    }
}

#[test]
fn cast_argument_forms() {
    assert!(parse_cast_argument(CastArgument::Nil).unwrap().is_empty());
    assert!(matches!(parse_cast_argument(CastArgument::Other), Err(FarcasterError::BadCastArgument)));
    assert!(matches!(parse_cast_argument(CastArgument::List(vec![])), Err(FarcasterError::EmptyCastIds)));
    let one = parse_cast_argument(CastArgument::Text("0x1".to_string())).unwrap();
    assert_eq!(one.len(), 1);
    let many = parse_cast_argument(CastArgument::List(vec!["0x1".to_string(), "http://x".to_string()])).unwrap();
    assert_eq!(many[0].as_str(), "0x1");
    assert_eq!(many[1].kind(), CastIdentifierKind::Url);
    match parse_cast_argument(CastArgument::List(vec!["0x1".into(), "bad".into(), "worse".into()])) {
        Err(FarcasterError::InvalidCastId(s)) => assert_eq!(s, "bad"),
        _ => panic!("expected the first invalid id"),
    }
}

#[test]
fn cast_get_plan_by_count() {
    assert!(matches!(cast_rx(vec![]).get_plan(), Err(FarcasterError::CastIdMissing)));
    match cast_rx(vec![CastIdentifier::Hash("0x1".into())]).get_plan().unwrap() {
        CastGetPlan::Single(raw) => {
            assert_eq!(raw.id, "0x1");
            assert_eq!(raw.kind, CastIdentifierKind::Hash);
        },
        CastGetPlan::Bulk(_) => panic!("expected a single fetch"),
    }
    match cast_rx(vec![CastIdentifier::Hash("0x1".into()), CastIdentifier::Url("http://y".into())])
        .get_plan()
        .unwrap()
    {
        CastGetPlan::Bulk(v) => assert_eq!(v, vec!["0x1".to_string(), "http://y".to_string()]),
        CastGetPlan::Single(_) => panic!("expected a bulk fetch"),
    }
}

#[test]
fn reactions_need_one_hash() {
    assert!(matches!(cast_rx(vec![]).reactions_hash(), Err(FarcasterError::CastIdMissing)));
    let two = cast_rx(vec![CastIdentifier::Hash("0x1".into()), CastIdentifier::Hash("0x2".into())]);
    assert!(matches!(two.reactions_hash(), Err(FarcasterError::TooManyCastIds)));
    let url = cast_rx(vec![CastIdentifier::Url("http://y".into())]);
    assert!(matches!(url.reactions_hash(), Err(FarcasterError::CastIdNotHash)));
    assert!(matches!(url.delete_target(), Err(FarcasterError::CastIdNotHash)));
    assert_eq!(url.reaction_target().unwrap(), "http://y");
    let h = cast_rx(vec![CastIdentifier::Hash("0x9".into())]);
    assert_eq!(h.reactions_hash().unwrap(), "0x9");
    assert_eq!(h.delete_target().unwrap(), "0x9");
}

#[test]
fn cast_send_needs_text() {
    let c = cast_rx(vec![]);
    assert!(matches!(c.send_text(), Err(FarcasterError::EmptyCast)));
    let c = c.with_text("gm".into()).reply_to("0x5".into()).channel("dev".into());
    assert_eq!(c.send_text().unwrap(), "gm");
    assert_eq!(c.reply_hash.as_deref(), Some("0x5"));
    assert_eq!(c.channel_id.as_deref(), Some("dev"));
}

#[test]
fn user_argument_forms() {
    let (u, f) = parse_user_argument(UserArgument::Text("dwr".into())).unwrap();
    assert_eq!(u.as_deref(), Some("dwr"));
    assert!(f.is_empty());
    let (u, f) = parse_user_argument(UserArgument::Integer(3)).unwrap();
    assert!(u.is_none());
    assert_eq!(f, vec![3]);
    let (_, f) = parse_user_argument(UserArgument::List(vec![1, 2])).unwrap();
    assert_eq!(f, vec![1, 2]);
    assert!(matches!(parse_user_argument(UserArgument::List(vec![])), Err(FarcasterError::EmptyFids)));
    assert!(matches!(parse_user_argument(UserArgument::Other), Err(FarcasterError::BadUserArgument)));
}

#[test]
fn user_requests() {
    match user_rx(Some("dwr"), vec![]).get_plan() {
        UserGetPlan::ByUsername(u) => assert_eq!(u, "dwr"),
        UserGetPlan::ByFids(_) => panic!("expected by username"),
    }
    match user_rx(None, vec![1, 2]).get_plan() {
        UserGetPlan::ByFids(f) => assert_eq!(f, vec![1, 2]),
        UserGetPlan::ByUsername(_) => panic!("expected by fids"),
    }
    assert!(matches!(user_rx(None, vec![]).search_username(), Err(FarcasterError::UsernameMissing)));
    assert!(matches!(user_rx(None, vec![]).single_fid(), Err(FarcasterError::FidMissing)));
    assert!(matches!(user_rx(None, vec![1, 2]).single_fid(), Err(FarcasterError::TooManyFids)));
    assert_eq!(user_rx(None, vec![8]).single_fid().unwrap(), 8);
    assert!(matches!(user_rx(None, vec![]).follow_targets(), Err(FarcasterError::NoTargetFids)));
    assert_eq!(user_rx(None, vec![4, 5]).follow_targets().unwrap(), vec![4, 5]);
}

#[test]
fn signer_request_actions() {
    assert_eq!(signer_request_action(None), SignerRequestAction::CreateNew);
    assert_eq!(signer_request_action(Some(SignerStatus::Revoked)), SignerRequestAction::CreateNew);
    assert_eq!(signer_request_action(Some(SignerStatus::Generated)), SignerRequestAction::RegisterExisting);
    assert_eq!(signer_request_action(Some(SignerStatus::PendingApproval)), SignerRequestAction::ReturnExisting);
    assert_eq!(signer_request_action(Some(SignerStatus::Approved)), SignerRequestAction::ReturnExisting);
}

#[test]
fn writes_need_an_approved_signer() {
    let stored = |status| Some(StoredSigner { status, signer_uuid: "uuid-1".to_string() });
    assert_eq!(require_approved_signer(1, 2, stored(SignerStatus::Approved)).unwrap(), "uuid-1");
    match require_approved_signer(1, 2, None) {
        Err(FarcasterError::SignerMissing { app_fid, player_fid }) => assert_eq!((app_fid, player_fid), (1, 2)),
        _ => panic!("expected SignerMissing"),
    }
    match require_approved_signer(1, 2, stored(SignerStatus::PendingApproval)) {
        Err(FarcasterError::SignerNotApproved { status, .. }) => assert_eq!(status, SignerStatus::PendingApproval),
        _ => panic!("expected SignerNotApproved"),
    }
}

#[test]
fn write_fids_resolution() {
    assert_eq!(resolve_write_fids(Some(1), Some(2), Some(3)).unwrap(), (1, 3));
    assert_eq!(resolve_write_fids(None, Some(2), Some(3)).unwrap(), (2, 3));
    assert!(matches!(resolve_write_fids(None, None, Some(3)), Err(FarcasterError::AppFidMissing)));
    assert!(matches!(resolve_write_fids(Some(1), None, None), Err(FarcasterError::PlayerFidMissing)));
}

#[test]
fn default_app_fid_is_filled_in() {
    let a = signer_args_or_default(None, Some(7)).unwrap();
    assert_eq!(a.app_fid, Some(7));
    let a = signer_args_or_default(Some(SignerRequestArgs::new(3)), Some(7)).unwrap();
    assert_eq!(a.app_fid, Some(3));
    assert!(matches!(signer_args_or_default(Some(SignerRequestArgs::new(3)), None), Err(FarcasterError::AppFidMissing)));
    let w = write_args_or_default(Some(WriteAsArgs::default()), Some(9)).unwrap();
    assert_eq!(w.app_fid, Some(9));
    assert!(matches!(write_args_or_default(None, None), Err(FarcasterError::AppFidMissing)));
}

#[test]
fn farcaster_op_classes() {
    let writes = [
        FarcasterOp::CastSend,
        FarcasterOp::CastDelete,
        FarcasterOp::CastReactionPublish,
        FarcasterOp::CastReactionDelete,
        FarcasterOp::UserFollow,
        FarcasterOp::UserUnfollow,
    ];
    for op in ALL_OPS {
        let expected = if writes.contains(&op) {
            FarcasterOpClass::Write
        } else if op == FarcasterOp::SignerRequest {
            FarcasterOpClass::SignerRequest
        } else if op == FarcasterOp::SignerGet {
            FarcasterOpClass::SignerGet
        } else if op == FarcasterOp::SignerRefresh {
            FarcasterOpClass::SignerRefresh
        } else {
            FarcasterOpClass::Read
        };
        assert_eq!(op.class(), expected);
        let (p, c) = parse_farcaster_op(op.as_str()).unwrap();
        assert_eq!((p, c), (op, expected));
    }
    match parse_farcaster_op("CAST_LIKE") {
        Err(FarcasterOpError::UnknownOp(t)) => assert_eq!(t, "CAST_LIKE"),
        Ok(_) => panic!("unknown op accepted"),
    }
}

#[test]
fn reaction_methods_pick_kind_and_opcode() {
    use_reactions();
}

fn use_reactions() {
    let c = CastRxOpcodes::new();
    let cases = [
        (CastReaction::Like, ReactionKind::Like, "FC_CAST_REACTION_PUBLISH"),
        (CastReaction::Unlike, ReactionKind::Like, "FC_CAST_REACTION_DELETE"),
        (CastReaction::Recast, ReactionKind::Recast, "FC_CAST_REACTION_PUBLISH"),
        (CastReaction::Unrecast, ReactionKind::Recast, "FC_CAST_REACTION_DELETE"),
    ];
    for (reaction, kind, opcode) in cases {
        let (k, key) = reaction_request(reaction);
        assert_eq!(k, kind);
        assert_eq!(c.get(key), opcode);
    }
    assert_eq!(reactions_filter(CastReactionsQuery::Reactions), ReactionFilter::All);
    assert_eq!(reactions_filter(CastReactionsQuery::Likes), ReactionFilter::Likes);
    assert_eq!(reactions_filter(CastReactionsQuery::Recasts), ReactionFilter::Recasts);
}

fn drive(flow: SignerFlow, stored: Option<SignerStatus>) -> Vec<SignerAction> {
    let mut state = SignerFlowState::Start;
    let mut event = SignerEvent::Begin;
    let mut actions = Vec::new();
    loop {
        let (next, action) = signer_step(flow, state, event).unwrap();
        actions.push(action);
        state = next;
        event = match action {
            SignerAction::ReadStored => SignerEvent::StoredRead(stored),
            SignerAction::CreateSigner => SignerEvent::Created,
            SignerAction::RegisterSigner => SignerEvent::Registered,
            SignerAction::LookupSigner => SignerEvent::LookedUp,
            SignerAction::StoreGenerated | SignerAction::StoreRegistered | SignerAction::StoreRefreshed => {
                SignerEvent::Stored
            },
            _ => break,
        };
    }
    assert_eq!(state, SignerFlowState::Done);
    actions
}

#[test]
fn signer_request_flows() {
    assert_eq!(drive(SignerFlow::Request, Some(SignerStatus::Approved)), vec![SignerAction::ReadStored, SignerAction::ReturnStored]);
    assert_eq!(
        drive(SignerFlow::Request, Some(SignerStatus::Generated)),
        vec![SignerAction::ReadStored, SignerAction::RegisterSigner, SignerAction::StoreRegistered, SignerAction::ReturnRegistered]
    );
    assert_eq!(
        drive(SignerFlow::Request, None),
        vec![SignerAction::ReadStored, SignerAction::CreateSigner, SignerAction::StoreGenerated, SignerAction::RegisterSigner, SignerAction::StoreRegistered, SignerAction::ReturnRegistered]
    );
    assert_eq!(drive(SignerFlow::Request, Some(SignerStatus::Revoked)).len(), 6);
    assert_eq!(drive(SignerFlow::Get, None), vec![SignerAction::ReadStored, SignerAction::ReturnNil]);
    assert_eq!(drive(SignerFlow::Get, Some(SignerStatus::Revoked)), vec![SignerAction::ReadStored, SignerAction::ReturnStored]);
    assert_eq!(
        drive(SignerFlow::Refresh, Some(SignerStatus::PendingApproval)),
        vec![SignerAction::ReadStored, SignerAction::LookupSigner, SignerAction::StoreRefreshed, SignerAction::ReturnRefreshed]
    );
    assert_eq!(drive(SignerFlow::Refresh, None), vec![SignerAction::ReadStored, SignerAction::ReturnNil]);
}

#[test]
fn unexpected_signer_events_are_refused() {
    assert!(matches!(
        signer_step(SignerFlow::Request, SignerFlowState::Start, SignerEvent::Stored),
        Err(SignerFlowError::UnexpectedEvent)
    ));
    assert!(matches!(
        signer_step(SignerFlow::Get, SignerFlowState::Done, SignerEvent::Begin),
        Err(SignerFlowError::UnexpectedEvent)
    ));
}

#[test]
fn send_payload_carries_text_reply_and_channel() {
    let c = cast_rx(vec![]);
    assert!(matches!(c.send_payload(7, None), Err(FarcasterError::EmptyCast)));
    let c = c.with_text("gm".into()).reply_to("0x5".into()).channel("dev".into());
    let op: WriteAsOp<SendCastOpParams> = c.send_payload(7, Some(WriteAsArgs { app_fid: Some(3) })).unwrap();
    assert_eq!(op.pid, 7);
    assert_eq!(op.write_args.app_fid, Some(3));
    assert_eq!(op.params.text, "gm");
    assert_eq!(op.params.parent.as_deref(), Some("0x5"));
    assert_eq!(op.params.channel_id.as_deref(), Some("dev"));
    let plain = cast_rx(vec![]).with_text("hi".into()).send_payload(8, None).unwrap();
    assert_eq!(plain.write_args.app_fid, None);
    assert_eq!(plain.params.parent, None);
    assert_eq!(plain.params.channel_id, None);
}

#[test]
fn reaction_payload_targets_the_one_cast() {
    assert!(matches!(cast_rx(vec![]).reaction_payload(CastReaction::Like, 1, None), Err(FarcasterError::CastIdMissing)));
    let two = cast_rx(vec![CastIdentifier::Hash("0x1".into()), CastIdentifier::Hash("0x2".into())]);
    assert!(matches!(two.reaction_payload(CastReaction::Recast, 1, None), Err(FarcasterError::TooManyCastIds)));
    let url = cast_rx(vec![CastIdentifier::Url("http://y".into())]);
    let (key, op) = url.reaction_payload(CastReaction::Unrecast, 4, None).unwrap();
    assert_eq!(key, CastRxOpcodeKey::DeleteReaction);
    assert_eq!(op.params.reaction_type, ReactionKind::Recast);
    assert_eq!(op.params.target, "http://y");
    assert_eq!(op.pid, 4);
    let h = cast_rx(vec![CastIdentifier::Hash("0x9".into())]);
    let (key, op) = h.reaction_payload(CastReaction::Like, 5, Some(WriteAsArgs { app_fid: Some(2) })).unwrap();
    assert_eq!(key, CastRxOpcodeKey::PublishReaction);
    assert_eq!(op.params.reaction_type, ReactionKind::Like);
    assert_eq!(op.params.target, "0x9");
    assert_eq!(op.write_args.app_fid, Some(2));
}

#[test]
fn delete_payload_needs_a_hash() {
    assert!(matches!(cast_rx(vec![]).delete_payload(1, None), Err(FarcasterError::CastIdMissing)));
    let url = cast_rx(vec![CastIdentifier::Url("http://y".into())]);
    assert!(matches!(url.delete_payload(1, None), Err(FarcasterError::CastIdNotHash)));
    let op = cast_rx(vec![CastIdentifier::Hash("0xab".into())]).delete_payload(6, None).unwrap();
    assert_eq!(op.params.target_hash, "0xab");
    assert_eq!(op.pid, 6);
}

#[test]
fn follow_payload_needs_fids() {
    assert!(matches!(user_rx(Some("a"), vec![]).follow_payload(1, None), Err(FarcasterError::NoTargetFids)));
    let op = user_rx(None, vec![3, 4]).follow_payload(2, Some(WriteAsArgs { app_fid: Some(9) })).unwrap();
    assert_eq!(op.params.target_fids, vec![3, 4]);
    assert_eq!(op.pid, 2);
    assert_eq!(op.write_args.app_fid, Some(9));
}
