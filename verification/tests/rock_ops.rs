use rock_runtime::rock::{amount_cut_splits, rock_holds, check_address, parse_rock_op, rock_opcode, RockError, RockOp};

#[test]
fn rock_opcodes() {
    assert_eq!(rock_opcode(RockOp::Balance), "ROCK_BALANCE");
    assert_eq!(rock_opcode(RockOp::Holds), "ROCK_HOLDS");
}

#[test]
fn rock_op_round_trip() {
    for op in [RockOp::Balance, RockOp::Holds] {
        assert_eq!(RockOp::parse(op.as_str()), Some(op));
    }
    assert_eq!(RockOp::parse("balance"), None);
}

#[test]
fn unknown_rock_op_is_refused() {
    match parse_rock_op("SEND") {
        Err(RockError::UnknownOp(t)) => assert_eq!(t, "SEND"),
        _ => panic!("expected UnknownOp"),
    }
    assert!(matches!(parse_rock_op("HOLDS"), Ok(RockOp::Holds)));
}

#[test]
fn address_with_prefix_is_accepted() {
    let a = check_address("0x00000000000000000000000000000000000000ff").unwrap();
    assert_eq!(a[19], 0xff);
    assert_eq!(a[0], 0);
    let b = check_address("0XAbCdEf0000000000000000000000000000000010").unwrap();
    assert_eq!(&b[..3], &[0xab, 0xcd, 0xef]);
    assert_eq!(b[19], 0x10);
}

#[test]
fn address_without_prefix_is_accepted() {
    let a = check_address("0102030405060708090a0b0c0d0e0f1011121314").unwrap();
    let expected: Vec<u8> = (1..=20).collect();
    assert_eq!(a.to_vec(), expected);
}

#[test]
fn bad_addresses_are_refused() {
    for bad in ["", "0x", "0x1234", "0xzz00000000000000000000000000000000000000", "hello"] {
        match check_address(bad) {
            Err(RockError::InvalidAddress(t)) => assert_eq!(t, bad),
            _ => panic!("accepted {bad}"),
        }
    }
}

#[test]
fn holds_compares_balance_with_parsed_amount() {
    let one_and_half = 1_500_000_000_000_000_000u64;
    assert_eq!(rock_holds([one_and_half, 0, 0, 0], "1.5", 18).unwrap(), true);
    assert_eq!(rock_holds([one_and_half - 1, 0, 0, 0], "1.5", 18).unwrap(), false);
    assert_eq!(rock_holds([0, 1, 0, 0], "18446744073709551616", 0).unwrap(), true);
    assert_eq!(rock_holds([0, 1, 0, 0], "18446744073709551617", 0).unwrap(), false);
    assert_eq!(rock_holds([0, 0, 0, 1], "18446744073709551617", 0).unwrap(), true);
    assert_eq!(rock_holds([15, 0, 0, 0], "1.5\u{e9}", 1).unwrap(), true);
    assert_eq!(rock_holds([14, 0, 0, 0], "1.5\u{e9}", 1).unwrap(), false);
}

#[test]
fn bad_amounts_are_refused() {
    for (amount, decimals) in [("abc", 18u8), ("1", 78u8), ("1.2.3", 18u8)] {
        match rock_holds([u64::MAX; 4], amount, decimals) {
            Err(RockError::InvalidAmount(t)) => assert_eq!(t, amount),
            other => panic!("accepted {amount}: {:?}", other.is_ok()),
        }
    }
}

#[test]
fn amount_cut_inside_a_character_is_detected() {
    assert!(amount_cut_splits("1.5\u{e9}", 2));
    assert!(!amount_cut_splits("1.5\u{e9}", 1));
    assert!(!amount_cut_splits("1.5", 0));
    assert!(!amount_cut_splits("12\u{e9}", 0));
    assert!(!amount_cut_splits("1.5\u{e9}", 78));
}
