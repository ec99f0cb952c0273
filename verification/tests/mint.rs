use inscribememaybe::inscription::strip_prefix;
use inscribememaybe::mint::{
    acknowledgements, is_affirmative, is_yes, transaction_page, transaction_url, transport,
    Acknowledgement, Transport,
};
use inscribememaybe::text::{starts_with, strip_prefixes};
use inscribememaybe::{Mint, Outcome, TxHash};

fn mint(id: Option<&str>) -> Mint {
    Mint { p: "fair-20".into(), tick: "brr".to_string(), id: id.map(str::to_string), amt: 1000 }
}

fn hash() -> TxHash {
    let mut bytes = [0u8; 32];
    bytes[0] = 0xde;
    bytes[1] = 0xad;
    bytes[31] = 0x0f;
    TxHash(bytes)
}

#[test]
fn a_websocket_url_is_reached_over_a_websocket() {
    assert_eq!(transport("ws://localhost:8546"), Transport::Ws);
    assert_eq!(transport("wss://mainnet.example/ws"), Transport::Ws);
    assert_eq!(transport("ws"), Transport::Ws);
    assert_eq!(transport("http://localhost:9933"), Transport::Http);
    assert_eq!(transport("https://ws.example"), Transport::Http);
    assert_eq!(transport("WS://localhost"), Transport::Http);
    assert_eq!(transport("w"), Transport::Http);
    assert_eq!(transport(""), Transport::Http);
}

#[test]
fn mainnet_has_to_be_acknowledged() {
    assert_eq!(acknowledgements(1, 1, &mint(None)), vec![Acknowledgement::Mainnet]);
    assert_eq!(acknowledgements(5, 1, &mint(None)), vec![]);
    assert_eq!(acknowledgements(0, 1, &mint(None)), vec![]);
    assert_eq!(acknowledgements(56, 100, &mint(None)), vec![]);
}

#[test]
fn a_repeated_id_has_to_be_acknowledged() {
    assert_eq!(acknowledgements(5, 2, &mint(Some("1"))), vec![Acknowledgement::RepeatedId]);
    assert_eq!(acknowledgements(5, 1, &mint(Some("1"))), vec![]);
    assert_eq!(acknowledgements(5, 2, &mint(None)), vec![]);
    assert_eq!(
        acknowledgements(1, u64::MAX, &mint(Some(""))),
        vec![Acknowledgement::Mainnet, Acknowledgement::RepeatedId]
    );
}

#[test]
fn the_prompts_ask_for_y_or_n() {
    assert_eq!(
        Acknowledgement::Mainnet.prompt(),
        "it looks like you're targeting ethereum mainnet. to proceed, acknowledge that you're a degenerate and willingly continue at your own risk.: [y/n]"
    );
    assert_eq!(
        Acknowledgement::RepeatedId.prompt(),
        "you're about to mint tokens with the same inscription id. this is probably not what you want. continue anyway?: [y/n]"
    );
}

#[test]
fn y_and_yes_acknowledge() {
    for line in ["y", "yes", "Y", "YES", "Yes\n", "  y \r\n", "\tyEs"] {
        assert!(is_affirmative(line), "{:?}", line);
    }
    for line in ["", "n", "no", "yess", "y es", "yes.", "ye", "\n"] {
        assert!(!is_affirmative(line), "{:?}", line);
    }
    assert!(is_yes("y"));
    assert!(is_yes("yes"));
    assert!(!is_yes("Y"));
    assert!(!is_yes(" yes"));
}

#[test]
fn a_transaction_has_a_page_where_the_chain_has_an_explorer() {
    let text = "0xdead00000000000000000000000000000000000000000000000000000000000f";
    assert_eq!(hash().to_hex(), text);
    assert_eq!(
        transaction_url(1, &hash()),
        Some(format!("https://etherscan.io/tx/{}", text))
    );
    assert_eq!(
        transaction_url(137, &hash()),
        Some(format!("https://polygonscan.com/tx/{}", text))
    );
    // a chain without a name, and a named one without an explorer
    assert_eq!(transaction_url(u64::MAX, &hash()), None);
    assert_eq!(transaction_url(31337, &hash()), None);
    assert_eq!(transaction_page("https://x.example", &hash()), format!("https://x.example/tx/{}", text));
}

#[test]
fn the_prefix_is_taken_away_as_often_as_it_stands_in_front() {
    let json = r#"{"p":"fair-20","op":"mint","tick":"brr","amt":"1000"}"#;
    assert_eq!(strip_prefix(json), json);
    assert_eq!(strip_prefix(&format!("data:,{}", json)), json);
    assert_eq!(strip_prefix(&format!("data:,data:,{}", json)), json);
    assert_eq!(strip_prefix("data:,"), "");
    assert_eq!(strip_prefix(""), "");
    assert_eq!(strip_prefix("data:"), "data:");
    assert_eq!(strip_prefix(" data:,x"), " data:,x");
    assert_eq!(strip_prefix("data:,é data:,"), "é data:,");
    assert_eq!(strip_prefix("DATA:,x"), "DATA:,x");
}

#[test]
fn prefixes_in_general() {
    assert!(starts_with("abc", "ab"));
    assert!(starts_with("abc", ""));
    assert!(starts_with("abc", "abc"));
    assert!(!starts_with("abc", "abcd"));
    assert!(!starts_with("abc", "b"));
    assert!(starts_with("éa", "é"));
    assert_eq!(strip_prefixes("aaab", "a"), "b");
    assert_eq!(strip_prefixes("aaab", "aa"), "ab");
    assert_eq!(strip_prefixes("aaab", ""), "aaab");
    assert_eq!(strip_prefixes("ééb", "é"), "b");
    assert_eq!(strip_prefixes("aaa", "a"), "");
}

#[test]
fn outcome_of_what_the_chain_answered() {
    assert_eq!(Outcome::from_result(Ok(Some(7u64))), Outcome::Confirmed(7));
    assert_eq!(Outcome::<u64>::from_result(Ok(None)), Outcome::NoReceipt);
    assert_eq!(
        Outcome::<u64>::from_result(Err("connection reset".to_string())),
        Outcome::Failed("connection reset".to_string())
    );
    assert!(Outcome::Confirmed(1u8).is_confirmed());
    assert!(!Outcome::<u8>::NoReceipt.is_confirmed());
    assert!(!Outcome::<u8>::Failed(String::new()).is_confirmed());
}
