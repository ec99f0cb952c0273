use inscribememaybe::json::quote;
use inscribememaybe::{NamedProtocol, ParseError, Protocol, ProtocolKind};

#[test]
fn serde_protocol() {
    let protocol = Protocol::from(NamedProtocol::Bsc_20);
    let s = quote(protocol.as_str());
    assert_eq!(s, r#""bsc-20""#);
}

#[test]
fn named_protocol_names() {
    assert_eq!(NamedProtocol::Bsc_20.as_str(), "bsc-20");
    assert_eq!(NamedProtocol::Erc_20.as_str(), "erc-20");
    assert_eq!(NamedProtocol::Fair_20.as_str(), "fair-20");
    assert_eq!(NamedProtocol::Bnb_48.as_str(), "bnb-48");
    assert_eq!(NamedProtocol::Erc_cash.as_str(), "erc-cash");
    assert_eq!(NamedProtocol::Ftm_20.as_str(), "ftm-20");
}

#[test]
fn named_protocol_round_trip() {
    let all = NamedProtocol::variants();
    assert_eq!(all.len(), NamedProtocol::COUNT);
    assert_eq!(all.len(), 26);
    for p in all {
        assert_eq!(NamedProtocol::from_str(p.as_str()), Ok(p));
    }
}

#[test]
fn named_protocol_is_matched_exactly() {
    assert_eq!(NamedProtocol::from_str("ERC-20"), Err(ParseError::VariantNotFound));
    assert_eq!(NamedProtocol::from_str("erc_20"), Err(ParseError::VariantNotFound));
    assert_eq!(NamedProtocol::from_str("Erc_20"), Err(ParseError::VariantNotFound));
    assert_eq!(NamedProtocol::from_str(""), Err(ParseError::VariantNotFound));
    assert_eq!(ParseError::VariantNotFound.message(), "Matching variant not found");
}

#[test]
fn protocol_kind_from_text() {
    assert_eq!(ProtocolKind::from("erc-20"), ProtocolKind::Named(NamedProtocol::Erc_20));
    assert_eq!(ProtocolKind::from("my-20"), ProtocolKind::Other("my-20".to_string()));
    assert_eq!(
        ProtocolKind::from("osc-20".to_string()),
        ProtocolKind::Named(NamedProtocol::Osc_20)
    );
    assert_eq!(
        ProtocolKind::from(&"OSC-20".to_string()),
        ProtocolKind::Other("OSC-20".to_string())
    );
    assert_eq!(
        ProtocolKind::from(NamedProtocol::Gno_20),
        ProtocolKind::Named(NamedProtocol::Gno_20)
    );
}

#[test]
fn protocol_from_text_and_back() {
    let known: Protocol = "erc-20".into();
    assert_eq!(known, Protocol::from(NamedProtocol::Erc_20));
    assert_eq!(known.kind(), &ProtocolKind::Named(NamedProtocol::Erc_20));
    assert_eq!(known.to_string(), "erc-20");

    let other = Protocol::from("something-else".to_string());
    assert_eq!(other.kind(), &ProtocolKind::Other("something-else".to_string()));
    assert_eq!(other.as_str(), "something-else");
    assert_eq!(Protocol::from(&"brc-20".to_string()), Protocol::from(NamedProtocol::Brc_20));
    assert_eq!(
        Protocol::from(ProtocolKind::Other("x".to_string())).to_string(),
        "x"
    );
}

#[test]
fn named_protocol_through_the_conversion_traits() {
    assert_eq!("erc-20".parse::<NamedProtocol>(), Ok(NamedProtocol::Erc_20));
    assert_eq!("erc20".parse::<NamedProtocol>(), Err(ParseError::VariantNotFound));
    assert_eq!(NamedProtocol::try_from("bnb-48"), Ok(NamedProtocol::Bnb_48));
    assert_eq!(NamedProtocol::try_from("bnb_48"), Err(ParseError::VariantNotFound));
    let name: &'static str = NamedProtocol::Erc_cash.into();
    assert_eq!(name, "erc-cash");
    let shown: &str = NamedProtocol::Vims_20.as_ref();
    assert_eq!(shown, "vims-20");
}
