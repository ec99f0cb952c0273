use inscribememaybe::Op;

#[test]
fn test_display_from_str() {
    // Test Display
    assert_eq!(Op::Deploy.to_string(), "deploy");
    assert_eq!(Op::Mint.to_string(), "mint");

    // Test FromStr
    assert_eq!(Op::from_str("deploy"), Ok(Op::Deploy));
    assert_eq!(Op::from_str("mint"), Ok(Op::Mint));
    assert!(Op::from_str("invalid").is_err());
}

#[test]
fn op_names() {
    assert_eq!(Op::Deploy.as_str(), "deploy");
    assert_eq!(Op::Mint.as_str(), "mint");
    assert_eq!(Op::Transfer.as_str(), "transfer");
    assert_eq!(Op::Transfer.to_string(), "transfer");
}

#[test]
fn op_predicates() {
    assert!(Op::Deploy.is_deploy());
    assert!(!Op::Deploy.is_mint());
    assert!(!Op::Deploy.is_transfer());
    assert!(Op::Mint.is_mint());
    assert!(!Op::Mint.is_deploy());
    assert!(Op::Transfer.is_transfer());
    assert!(!Op::Transfer.is_mint());
}

#[test]
fn op_from_str_ignores_letter_case() {
    assert_eq!(Op::from_str("DEPLOY"), Ok(Op::Deploy));
    assert_eq!(Op::from_str("Mint"), Ok(Op::Mint));
    assert_eq!(Op::from_str("tRaNsFeR"), Ok(Op::Transfer));
}

#[test]
fn op_from_str_error_quotes_lowercased_text() {
    assert_eq!(Op::from_str("Invalid"), Err("invalid operation: invalid".to_string()));
    assert_eq!(Op::from_str(""), Err("invalid operation: ".to_string()));
    assert_eq!(Op::from_str(" mint"), Err("invalid operation:  mint".to_string()));
}

#[test]
fn op_from_lowercase_is_exact() {
    assert_eq!(Op::from_lowercase("transfer"), Ok(Op::Transfer));
    assert_eq!(Op::from_lowercase("Mint"), Err("invalid operation: Mint".to_string()));
}

#[test]
fn op_round_trip() {
    for op in [Op::Deploy, Op::Mint, Op::Transfer] {
        assert_eq!(Op::from_str(op.as_str()), Ok(op));
    }
}

#[test]
fn op_through_parse() {
    assert_eq!("mint".parse::<Op>(), Ok(Op::Mint));
    assert_eq!("MINT".parse::<Op>(), Ok(Op::Mint));
    assert_eq!("burn".parse::<Op>(), Err("invalid operation: burn".to_string()));
}
