//! Inscriptions and their calldata.

use crate::address::{address_text, Address};
use crate::json::{json_string, quote};
use crate::op::Op;
use crate::protocol::{Protocol, ProtocolView};
use crate::text::{
    begins_with, concat, decimal, decimal_string, signed_decimal, signed_decimal_string,
    strip_prefixes, without_prefixes,
};
use std::string::FromUtf8Error;
use vstd::prelude::*;
use vstd::string::*;
use vstd::utf8::{
    decode_utf8, encode_utf8, encode_utf8_decode_utf8, encode_utf8_valid_utf8, is_ascii_chars,
    is_ascii_chars_encode_utf8, valid_utf8,
};

verus! {

/// The prefix for json calldata
pub const CALL_DATA_PREFIX: &'static str = "data:,";

/// The text of the calldata of an inscription with the given JSON text.
pub open spec fn calldata_text(json: Seq<char>) -> Seq<char> {
    CALL_DATA_PREFIX@ + json
}

/// `std::string::FromUtf8Error`, the error of `String::from_utf8`: a value
/// that is handed on unread.
#[verifier::external_type_specification]
#[verifier::external_body]
pub struct ExFromUtf8Error(FromUtf8Error);

/// `String::from_utf8` gives the text that the bytes encode where they are
/// valid UTF-8, and an error where they are not.
pub assume_specification[ String::from_utf8 ](bytes: Vec<u8>) -> (r: Result<String, FromUtf8Error>)
    ensures
        match r {
            Ok(text) => valid_utf8(bytes@) && text@ == decode_utf8(bytes@),
            Err(_) => !valid_utf8(bytes@),
        },
;

/// A helper trait for encoding inscription calldata
pub trait InscriptionCalldata {
    /// The JSON text of the inscription. Every implementation states its
    /// own; of one that states none, nothing is known.
    open spec fn json(&self) -> Seq<char> {
        arbitrary()
    }

    /// Returns the calldata for the inscription: the prefix
    /// [CALL_DATA_PREFIX] and the JSON text, in UTF-8.
    fn calldata(&self) -> (bytes: Vec<u8>)
        ensures
            bytes@ == encode_utf8(calldata_text(self.json())),
    ;

    /// Returns the calldata as a UTF8 string. The calldata is valid UTF-8,
    /// so this always succeeds.
    fn calldata_string(&self) -> (text: String) where Self: Sized
        ensures
            text@ == calldata_text(self.json()),
    {
        let bytes = self.calldata();
        proof {
            encode_utf8_valid_utf8(calldata_text(self.json()));
            encode_utf8_decode_utf8(calldata_text(self.json()));
        }
        String::from_utf8(bytes).unwrap()
    }

    /// Returns the calldata as a UTF8 string
    fn try_calldata_string(&self) -> (r: Result<String, FromUtf8Error>) where Self: Sized
        ensures
            r matches Ok(text) && text@ == calldata_text(self.json()),
    {
        let bytes = self.calldata();
        proof {
            encode_utf8_valid_utf8(calldata_text(self.json()));
            encode_utf8_decode_utf8(calldata_text(self.json()));
        }
        String::from_utf8(bytes)
    }
}

/// Puts the prefix before the JSON text of an inscription and encodes the
/// whole in UTF-8.
pub fn frame(json: &str) -> (bytes: Vec<u8>)
    ensures
        bytes@ == encode_utf8(calldata_text(json@)),
{
    let text = concat(CALL_DATA_PREFIX, json);
    text.as_str().as_bytes_vec()
}

/// Takes the prefix away from the text of an inscription, as often as the
/// text begins with it: what is left is the JSON text.
pub fn strip_prefix(text: &str) -> (json: &str)
    ensures
        json@ == without_prefixes(text@, CALL_DATA_PREFIX@),
{
    strip_prefixes(text, CALL_DATA_PREFIX)
}

/// The UTF-8 encoding of two texts in a row is the encoding of the first
/// and then that of the second.
pub proof fn lemma_encode_in_a_row(first: Seq<char>, second: Seq<char>)
    ensures
        encode_utf8(first + second) == encode_utf8(first) + encode_utf8(second),
    decreases first.len(),
{
    if first.len() == 0 {
        assert(first + second =~= second);
    } else {
        lemma_encode_in_a_row(first.drop_first(), second);
        assert((first + second).drop_first() =~= first.drop_first() + second);
    }
}

/// The calldata of an inscription is the six bytes of the prefix and then
/// the JSON text in UTF-8.
pub proof fn lemma_calldata_is_prefix_then_json(json: Seq<char>)
    ensures
        encode_utf8(calldata_text(json)) == seq![0x64u8, 0x61, 0x74, 0x61, 0x3a, 0x2c]
            + encode_utf8(json),
{
    reveal_strlit("data:,");
    lemma_encode_in_a_row(CALL_DATA_PREFIX@, json);
    assert(is_ascii_chars(CALL_DATA_PREFIX@));
    is_ascii_chars_encode_utf8(CALL_DATA_PREFIX@);
    assert(encode_utf8(CALL_DATA_PREFIX@) =~= seq![0x64u8, 0x61, 0x74, 0x61, 0x3a, 0x2c]);
}

/// What begins with a brace, as the JSON text of every inscription does,
/// is read back from its calldata: taking the prefix away from the text of
/// the calldata leaves the JSON text.
pub proof fn lemma_strip_prefix_of_calldata(json: Seq<char>)
    requires
        json.len() > 0,
        json[0] == '{',
    ensures
        without_prefixes(calldata_text(json), CALL_DATA_PREFIX@) == json,
{
    reveal_strlit("data:,");
    let prefix = CALL_DATA_PREFIX@;
    let text = calldata_text(json);
    assert(text.subrange(0, prefix.len() as int) =~= prefix);
    assert(text.skip(prefix.len() as int) =~= json);
    assert(!begins_with(json, prefix)) by {
        if begins_with(json, prefix) {
            assert(json.subrange(0, prefix.len() as int)[0] == json[0]);
        }
    }
    assert(without_prefixes(json, prefix) == json);
}

/// Represents a deploy operation for inscribing data.
#[derive(Clone, Debug, PartialEq, Eq)]
pub struct Deploy {
    /// Represents the protocol, and here the ERC-20 protocol is used.
    pub p: Protocol,
    /// Represents the current token name to be deployed.
    pub tick: String,
    /// Represents the maximum issuance.
    pub max: u64,
    /// Represents the maximum amount that can be mined per mining operation.
    pub lim: u64,
}

/// A deploy operation as a mathematical value.
pub ghost struct DeployView {
    /// The protocol.
    pub p: ProtocolView,
    /// The token name.
    pub tick: Seq<char>,
    /// The maximum issuance.
    pub max: u64,
    /// The maximum amount per mint.
    pub lim: u64,
}

impl DeployView {
    /// The JSON text of the operation: an object with the members `p`,
    /// `op`, `tick`, `max` and `lim`, in this order, the two numbers as
    /// strings of decimal digits.
    pub open spec fn json(self) -> Seq<char> {
        "{\"p\":"@ + json_string(self.p.text()) + ",\"op\":\"deploy\",\"tick\":"@ + json_string(
            self.tick,
        ) + ",\"max\":"@ + json_string(decimal(self.max as nat)) + ",\"lim\":"@ + json_string(
            decimal(self.lim as nat),
        ) + "}"@
    }
}

impl View for Deploy {
    type V = DeployView;

    open spec fn view(&self) -> DeployView {
        DeployView { p: self.p@, tick: self.tick@, max: self.max, lim: self.lim }
    }
}

impl Deploy {
    /// The message with which an operation other than the expected one is
    /// refused.
    pub open spec fn unexpected(op: Op) -> Seq<char> {
        "Invalid operation: "@ + op.name() + ", expected deploy"@
    }

    /// Makes a deploy operation of the members of an inscription, which
    /// must name the operation `deploy`.
    pub fn from_members(p: Protocol, op: Op, tick: String, max: u64, lim: u64) -> (r: Result<
        Deploy,
        String,
    >)
        ensures
            match r {
                Ok(deploy) => op == Op::Deploy && deploy == (Deploy { p, tick, max, lim }),
                Err(msg) => op != Op::Deploy && msg@ == Deploy::unexpected(op),
            },
    {
        if !op.is_deploy() {
            let mut msg = concat("Invalid operation: ", op.as_str());
            msg.append(", expected deploy");
            return Err(msg);
        }
        Ok(Deploy { p, tick, max, lim })
    }

    /// Writes the operation as JSON text.
    pub fn to_json(&self) -> (text: String)
        ensures
            text@ == self@.json(),
    {
        let mut text = concat("{\"p\":", quote(self.p.as_str()).as_str());
        text.append(",\"op\":\"deploy\",\"tick\":");
        text.append(quote(self.tick.as_str()).as_str());
        text.append(",\"max\":");
        text.append(quote(decimal_string(self.max).as_str()).as_str());
        text.append(",\"lim\":");
        text.append(quote(decimal_string(self.lim).as_str()).as_str());
        text.append("}");
        text
    }
}

impl InscriptionCalldata for Deploy {
    open spec fn json(&self) -> Seq<char> {
        self@.json()
    }

    fn calldata(&self) -> (bytes: Vec<u8>) {
        frame(self.to_json().as_str())
    }
}

/// Represents a mint operation for inscribing data.
#[derive(Clone, Debug, PartialEq, Eq)]
pub struct Mint {
    /// Represents the protocol, and here the ERC-20 protocol is used.
    pub p: Protocol,
    /// Represents the current token name to be deployed.
    pub tick: String,
    /// The _unique_ id to use
    pub id: Option<String>,
    /// Represents the maximum amount that can be mined per mining operation.
    pub amt: u64,
}

/// A mint operation as a mathematical value.
pub ghost struct MintView {
    /// The protocol.
    pub p: ProtocolView,
    /// The token name.
    pub tick: Seq<char>,
    /// The id, if there is one.
    pub id: Option<Seq<char>>,
    /// The amount.
    pub amt: u64,
}

impl MintView {
    /// The JSON text of the operation: an object with the members `p`,
    /// `op`, `tick`, then `id` where there is one, and `amt`, the amount as
    /// a string of decimal digits.
    pub open spec fn json(self) -> Seq<char> {
        let id = match self.id {
            Some(id) => "\"id\":"@ + json_string(id) + ","@,
            None => Seq::empty(),
        };
        "{\"p\":"@ + json_string(self.p.text()) + ",\"op\":\"mint\",\"tick\":"@ + json_string(
            self.tick,
        ) + ","@ + id + "\"amt\":"@ + json_string(decimal(self.amt as nat)) + "}"@
    }
}

impl View for Mint {
    type V = MintView;

    open spec fn view(&self) -> MintView {
        MintView {
            p: self.p@,
            tick: self.tick@,
            id: match self.id {
                Some(id) => Some(id@),
                None => None,
            },
            amt: self.amt,
        }
    }
}

impl Mint {
    /// The message with which an operation other than the expected one is
    /// refused.
    pub open spec fn unexpected(op: Op) -> Seq<char> {
        "Invalid operation: "@ + op.name() + ", expected mint"@
    }

    /// Makes a mint operation of the members of an inscription, which must
    /// name the operation `mint`.
    pub fn from_members(p: Protocol, op: Op, tick: String, id: Option<String>, amt: u64) -> (r:
        Result<Mint, String>)
        ensures
            match r {
                Ok(mint) => op == Op::Mint && mint == (Mint { p, tick, id, amt }),
                Err(msg) => op != Op::Mint && msg@ == Mint::unexpected(op),
            },
    {
        if !op.is_mint() {
            let mut msg = concat("Invalid operation: ", op.as_str());
            msg.append(", expected mint");
            return Err(msg);
        }
        Ok(Mint { p, tick, id, amt })
    }

    /// Writes the operation as JSON text.
    pub fn to_json(&self) -> (text: String)
        ensures
            text@ == self@.json(),
    {
        let mut text = concat("{\"p\":", quote(self.p.as_str()).as_str());
        text.append(",\"op\":\"mint\",\"tick\":");
        text.append(quote(self.tick.as_str()).as_str());
        text.append(",");
        if let Some(id) = &self.id {
            text.append("\"id\":");
            text.append(quote(id.as_str()).as_str());
            text.append(",");
        }
        text.append("\"amt\":");
        text.append(quote(decimal_string(self.amt).as_str()).as_str());
        text.append("}");
        text
    }
}

impl InscriptionCalldata for Mint {
    open spec fn json(&self) -> Seq<char> {
        self@.json()
    }

    fn calldata(&self) -> (bytes: Vec<u8>) {
        frame(self.to_json().as_str())
    }
}

/// How much to transfer to whom
#[derive(Debug, Copy, Clone, PartialEq, Eq)]
pub struct TransferItem {
    /// recipient of the transfer
    pub recv: Address,
    /// amount to transfer
    pub amt: i64,
}

/// One target of a transfer as a mathematical value.
pub ghost struct TransferItemView {
    /// The recipient's twenty bytes.
    pub recv: Seq<u8>,
    /// The amount.
    pub amt: i64,
}

impl TransferItemView {
    /// The JSON text of the target: an object with the members `recv`, the
    /// recipient's address as a string, and `amt`, the amount as a number.
    pub open spec fn json(self) -> Seq<char> {
        "{\"recv\":"@ + json_string(address_text(self.recv)) + ",\"amt\":"@ + signed_decimal(
            self.amt as int,
        ) + "}"@
    }
}

impl View for TransferItem {
    type V = TransferItemView;

    open spec fn view(&self) -> TransferItemView {
        TransferItemView { recv: self.recv@, amt: self.amt }
    }
}

impl TransferItem {
    /// Writes the target as JSON text.
    pub fn to_json(&self) -> (text: String)
        ensures
            text@ == self@.json(),
    {
        let mut text = concat("{\"recv\":", quote(self.recv.to_hex().as_str()).as_str());
        text.append(",\"amt\":");
        text.append(signed_decimal_string(self.amt).as_str());
        text.append("}");
        text
    }
}

/// The JSON texts of the targets of a transfer, with a comma between each
/// two of them.
pub open spec fn targets_json(to: Seq<TransferItemView>) -> Seq<char>
    decreases to.len(),
{
    if to.len() == 0 {
        Seq::empty()
    } else if to.len() == 1 {
        to[0].json()
    } else {
        targets_json(to.drop_last()) + ","@ + to.last().json()
    }
}

/// The targets of a list as mathematical values.
pub open spec fn targets(to: Seq<TransferItem>) -> Seq<TransferItemView> {
    to.map_values(|item: TransferItem| item@)
}

/// Represents a transfer operation for inscribing data.
#[derive(Clone, Debug, PartialEq, Eq)]
pub struct Transfer {
    /// Represents the protocol, and here the ERC-20 protocol is used.
    pub p: Protocol,
    /// Represents the current token name to be deployed.
    pub tick: String,
    /// Target of the transfer
    pub to: Vec<TransferItem>,
}

/// A transfer operation as a mathematical value.
pub ghost struct TransferView {
    /// The protocol.
    pub p: ProtocolView,
    /// The token name.
    pub tick: Seq<char>,
    /// The targets.
    pub to: Seq<TransferItemView>,
}

impl TransferView {
    /// The JSON text of the operation: an object with the members `p`,
    /// `op`, `tick` and `to`, the last an array of the targets.
    pub open spec fn json(self) -> Seq<char> {
        "{\"p\":"@ + json_string(self.p.text()) + ",\"op\":\"transfer\",\"tick\":"@ + json_string(
            self.tick,
        ) + ",\"to\":["@ + targets_json(self.to) + "]}"@
    }
}

impl View for Transfer {
    type V = TransferView;

    open spec fn view(&self) -> TransferView {
        TransferView { p: self.p@, tick: self.tick@, to: targets(self.to@) }
    }
}

impl Transfer {
    /// The message with which an operation other than the expected one is
    /// refused.
    pub open spec fn unexpected(op: Op) -> Seq<char> {
        "Invalid operation: "@ + op.name() + ", expected transfer"@
    }

    /// Makes a transfer operation of the members of an inscription, which
    /// must name the operation `transfer`.
    pub fn from_members(p: Protocol, op: Op, tick: String, to: Vec<TransferItem>) -> (r: Result<
        Transfer,
        String,
    >)
        ensures
            match r {
                Ok(transfer) => op == Op::Transfer && transfer == (Transfer { p, tick, to }),
                Err(msg) => op != Op::Transfer && msg@ == Transfer::unexpected(op),
            },
    {
        if !op.is_transfer() {
            let mut msg = concat("Invalid operation: ", op.as_str());
            msg.append(", expected transfer");
            return Err(msg);
        }
        Ok(Transfer { p, tick, to })
    }

    /// Writes the operation as JSON text.
    pub fn to_json(&self) -> (text: String)
        ensures
            text@ == self@.json(),
    {
        let mut text = concat("{\"p\":", quote(self.p.as_str()).as_str());
        text.append(",\"op\":\"transfer\",\"tick\":");
        text.append(quote(self.tick.as_str()).as_str());
        text.append(",\"to\":[");
        let ghost head = text@;
        let mut i: usize = 0;
        while i < self.to.len()
            invariant
                i <= self.to@.len(),
                text@ == head + targets_json(targets(self.to@.take(i as int))),
            decreases self.to@.len() - i,
        {
            let ghost done = targets(self.to@.take(i as int));
            let ghost more = targets(self.to@.take(i + 1));
            proof {
                assert(more.drop_last() =~= done);
            }
            if i > 0 {
                text.append(",");
            }
            text.append(self.to[i].to_json().as_str());
            i += 1;
        }
        proof {
            assert(self.to@.take(i as int) =~= self.to@);
        }
        text.append("]}");
        text
    }
}

impl InscriptionCalldata for Transfer {
    open spec fn json(&self) -> Seq<char> {
        self@.json()
    }

    fn calldata(&self) -> (bytes: Vec<u8>) {
        frame(self.to_json().as_str())
    }
}

/// The JSON text of every inscription is an object: it begins with a
/// brace. So each inscription's JSON text is read back from its calldata.
pub proof fn lemma_json_is_read_back(deploy: DeployView, mint: MintView, transfer: TransferView)
    ensures
        without_prefixes(calldata_text(deploy.json()), CALL_DATA_PREFIX@) == deploy.json(),
        without_prefixes(calldata_text(mint.json()), CALL_DATA_PREFIX@) == mint.json(),
        without_prefixes(calldata_text(transfer.json()), CALL_DATA_PREFIX@) == transfer.json(),
{
    reveal_strlit("{\"p\":");
    lemma_strip_prefix_of_calldata(deploy.json());
    lemma_strip_prefix_of_calldata(mint.json());
    lemma_strip_prefix_of_calldata(transfer.json());
}

} // verus!
