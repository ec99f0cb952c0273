use inscribememaybe::inscription::{frame, CALL_DATA_PREFIX};
use inscribememaybe::json::quote;
use inscribememaybe::text::{decimal_string, hex_string, signed_decimal_string};
use inscribememaybe::{
    Address, Deploy, InscriptionCalldata, Mint, NamedProtocol, Op, Protocol, Transfer,
    TransferItem,
};

fn gwei() -> Deploy {
    Deploy::from_members(
        "erc-20".into(),
        Op::from_str("deploy").expect("a known operation"),
        "gwei".to_string(),
        21000000,
        1000,
    )
    .expect("a deploy operation")
}

fn recipient() -> Address {
    Address([
        0x8D, 0x4E, 0x4E, 0xE4, 0x35, 0xa2, 0xFE, 0x82, 0xA0, 0x37, 0xba, 0x10, 0xd4, 0x48, 0x60,
        0x49, 0xbA, 0xDb, 0xCd, 0xB2,
    ])
}

#[test]
fn calldata() {
    let operation = gwei();
    let calldata = operation.calldata_string();
    assert_eq!(
        calldata,
        r#"data:,{"p":"erc-20","op":"deploy","tick":"gwei","max":"21000000","lim":"1000"}"#
    );
}

#[test]
fn test_deploy_serde() {
    let operation = gwei();

    let serialized_json = operation.to_json();

    let expected_operation =
        Deploy { p: "erc-20".into(), tick: "gwei".to_string(), max: 21000000, lim: 1000 };

    assert_eq!(operation, expected_operation);

    let expected_json =
        r#"{"p":"erc-20","op":"deploy","tick":"gwei","max":"21000000","lim":"1000"}"#;
    assert_eq!(serialized_json, expected_json);
}

#[test]
fn test_transfer_serde() {
    let transfer = Transfer::from_members(
        "osc-20".into(),
        Op::Transfer,
        "osct".to_string(),
        vec![TransferItem { recv: recipient(), amt: -1000 }],
    )
    .unwrap();
    assert_eq!(
        transfer,
        Transfer {
            p: NamedProtocol::Osc_20.into(),
            tick: "osct".to_string(),
            to: vec![TransferItem { recv: recipient(), amt: -1000 }],
        }
    );
    assert_eq!(
        transfer.to_json(),
        r#"{"p":"osc-20","op":"transfer","tick":"osct","to":[{"recv":"0x8d4e4ee435a2fe82a037ba10d4486049badbcdb2","amt":-1000}]}"#
    );
}

#[test]
fn calldata_is_prefix_and_json_in_utf8() {
    let operation = gwei();
    let mut expected = CALL_DATA_PREFIX.as_bytes().to_vec();
    expected.extend_from_slice(operation.to_json().as_bytes());
    assert_eq!(operation.calldata(), expected);
    assert_eq!(operation.try_calldata_string().unwrap(), operation.calldata_string());
    assert_eq!(frame("{}"), b"data:,{}".to_vec());
    assert_eq!(frame("é"), "data:,é".as_bytes().to_vec());
}

#[test]
fn mint_without_id() {
    let mint = Mint::from_members("fair-20".into(), Op::Mint, "brr".to_string(), None, 1000)
        .unwrap();
    assert_eq!(mint.to_json(), r#"{"p":"fair-20","op":"mint","tick":"brr","amt":"1000"}"#);
    assert_eq!(
        mint.calldata_string(),
        r#"data:,{"p":"fair-20","op":"mint","tick":"brr","amt":"1000"}"#
    );
}

#[test]
fn mint_with_id() {
    let mint = Mint {
        p: Protocol::from("bsc-20"),
        tick: "sofi".to_string(),
        id: Some("7".to_string()),
        amt: 4,
    };
    assert_eq!(mint.to_json(), r#"{"p":"bsc-20","op":"mint","tick":"sofi","id":"7","amt":"4"}"#);
}

#[test]
fn transfer_with_several_targets_and_none() {
    let none = Transfer { p: "osc-20".into(), tick: "osct".to_string(), to: vec![] };
    assert_eq!(none.to_json(), r#"{"p":"osc-20","op":"transfer","tick":"osct","to":[]}"#);

    let two = Transfer {
        p: "osc-20".into(),
        tick: "osct".to_string(),
        to: vec![
            TransferItem { recv: Address::zero(), amt: 0 },
            TransferItem { recv: recipient(), amt: i64::MIN },
        ],
    };
    assert_eq!(
        two.calldata_string(),
        r#"data:,{"p":"osc-20","op":"transfer","tick":"osct","to":[{"recv":"0x0000000000000000000000000000000000000000","amt":0},{"recv":"0x8d4e4ee435a2fe82a037ba10d4486049badbcdb2","amt":-9223372036854775808}]}"#
    );
}

#[test]
fn members_of_another_operation_are_refused() {
    assert_eq!(
        Deploy::from_members("erc-20".into(), Op::Mint, "gwei".to_string(), 1, 1),
        Err("Invalid operation: mint, expected deploy".to_string())
    );
    assert_eq!(
        Mint::from_members("erc-20".into(), Op::Transfer, "gwei".to_string(), None, 1),
        Err("Invalid operation: transfer, expected mint".to_string())
    );
    assert_eq!(
        Transfer::from_members("erc-20".into(), Op::Deploy, "gwei".to_string(), vec![]),
        Err("Invalid operation: deploy, expected transfer".to_string())
    );
}

#[test]
fn strings_are_escaped_as_json() {
    assert_eq!(quote(""), r#""""#);
    assert_eq!(quote("gwei"), r#""gwei""#);
    assert_eq!(quote("a\"b\\c"), r#""a\"b\\c""#);
    assert_eq!(quote("\u{8}\u{c}\n\r\t"), r#""\b\f\n\r\t""#);
    assert_eq!(quote("\u{0}\u{1}\u{1f}\u{7f}"), "\"\\u0000\\u0001\\u001f\u{7f}\"");
    assert_eq!(quote("é/ü 😀"), "\"é/ü 😀\"");

    let odd = Deploy { p: "a\"b".into(), tick: "x\ny".to_string(), max: 0, lim: u64::MAX };
    assert_eq!(
        odd.to_json(),
        r#"{"p":"a\"b","op":"deploy","tick":"x\ny","max":"0","lim":"18446744073709551615"}"#
    );
}

#[test]
fn json_text_is_read_back_by_a_json_parser() {
    let odd = Mint {
        p: "a\"b\\".into(),
        tick: "x\ny\u{1}é".to_string(),
        id: Some("\t".to_string()),
        amt: 42,
    };
    let value: serde_json::Value = serde_json::from_str(&odd.to_json()).unwrap();
    assert_eq!(value["p"], "a\"b\\");
    assert_eq!(value["op"], "mint");
    assert_eq!(value["tick"], "x\ny\u{1}é");
    assert_eq!(value["id"], "\t");
    assert_eq!(value["amt"], "42");
    assert_eq!(value.as_object().unwrap().len(), 5);
}

#[test]
fn numbers_in_decimal_and_bytes_in_hex() {
    assert_eq!(decimal_string(0), "0");
    assert_eq!(decimal_string(9), "9");
    assert_eq!(decimal_string(10), "10");
    assert_eq!(decimal_string(21000000), "21000000");
    assert_eq!(decimal_string(u64::MAX), "18446744073709551615");
    assert_eq!(signed_decimal_string(0), "0");
    assert_eq!(signed_decimal_string(-1), "-1");
    assert_eq!(signed_decimal_string(-1000), "-1000");
    assert_eq!(signed_decimal_string(i64::MAX), "9223372036854775807");
    assert_eq!(signed_decimal_string(i64::MIN), "-9223372036854775808");
    assert_eq!(hex_string(&[]), "");
    assert_eq!(hex_string(&[0x00, 0x0f, 0xa0, 0xff]), "000fa0ff");
    assert_eq!(recipient().to_hex(), "0x8d4e4ee435a2fe82a037ba10d4486049badbcdb2");
}

/// An inscription of another kind, with calldata of its own making.
struct Note(&'static str);

impl InscriptionCalldata for Note {
    fn calldata(&self) -> Vec<u8> {
        frame(self.0)
    }
}

#[test]
fn the_trait_can_be_implemented_for_other_inscriptions() {
    let note = Note(r#"{"p":"note","op":"say","text":"gm"}"#);
    assert_eq!(note.calldata_string(), r#"data:,{"p":"note","op":"say","text":"gm"}"#);
    assert_eq!(note.try_calldata_string().unwrap(), note.calldata_string());
}
