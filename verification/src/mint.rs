//! What a minting run decides before it starts and while it reports: how
//! the endpoint is reached, what the user has to acknowledge, whether an
//! answer acknowledges, and where a confirmed transaction can be looked at.

use crate::address::{address_text, TxHash};
use crate::inscription::Mint;
use crate::text::{begins_with, concat, lowercase, starts_with, str_eq, to_lowercase, trim, trimmed};
use vstd::prelude::*;

verus! {

/// How an RPC endpoint is reached.
#[derive(Copy, Clone, Debug, PartialEq, Eq, Structural)]
pub enum Transport {
    /// Over a websocket.
    Ws,
    /// Over HTTP.
    Http,
}

/// Tells how the endpoint at a URL is reached: over a websocket where the
/// URL begins with `ws`, else over HTTP.
pub fn transport(rpc_url: &str) -> (t: Transport)
    ensures
        t == if begins_with(rpc_url@, "ws"@) {
            Transport::Ws
        } else {
            Transport::Http
        },
{
    if starts_with(rpc_url, "ws") {
        Transport::Ws
    } else {
        Transport::Http
    }
}

/// Compares `alloy_chains::Chain::mainnet()` with a chain id. The mainnet
/// chain is the named chain `Mainnet`, whose id is 1, and a chain equals a
/// number where its id does.
#[verifier::external_body]
fn is_mainnet(chain_id: u64) -> (r: bool)
    ensures
        r == (chain_id == 1),
{
    alloy_chains::Chain::mainnet() == chain_id
}

/// What is put to the user where a run targets ethereum mainnet.
pub const MAINNET_PROMPT: &'static str =
    "it looks like you're targeting ethereum mainnet. to proceed, acknowledge that you're a degenerate and willingly continue at your own risk.: [y/n]";

/// What is put to the user where a run mints more than once with one
/// inscription id.
pub const REPEATED_ID_PROMPT: &'static str =
    "you're about to mint tokens with the same inscription id. this is probably not what you want. continue anyway?: [y/n]";

/// Something that the user has to acknowledge before a run starts.
#[derive(Copy, Clone, Debug, PartialEq, Eq, Structural)]
pub enum Acknowledgement {
    /// The run targets ethereum mainnet.
    Mainnet,
    /// The run mints more than once with one inscription id.
    RepeatedId,
}

impl Acknowledgement {
    /// The question put to the user.
    pub fn prompt(&self) -> (text: &'static str)
        ensures
            text@ == match self {
                Acknowledgement::Mainnet => MAINNET_PROMPT@,
                Acknowledgement::RepeatedId => REPEATED_ID_PROMPT@,
            },
    {
        match self {
            Acknowledgement::Mainnet => MAINNET_PROMPT,
            Acknowledgement::RepeatedId => REPEATED_ID_PROMPT,
        }
    }
}

/// What has to be acknowledged before a run, in the order in which it is
/// asked: that the chain is ethereum mainnet, where its id is 1, and that
/// one inscription id is minted repeatedly, where more than one
/// transaction is sent with an id.
pub open spec fn required(chain_id: u64, transactions: u64, has_id: bool) -> Seq<Acknowledgement> {
    let mainnet = if chain_id == 1 {
        seq![Acknowledgement::Mainnet]
    } else {
        Seq::empty()
    };
    let repeated = if transactions > 1 && has_id {
        seq![Acknowledgement::RepeatedId]
    } else {
        Seq::empty()
    };
    mainnet + repeated
}

/// Lists what the user has to acknowledge before `transactions` copies of
/// `mint` are sent on the chain `chain_id`. The run goes on only if each is
/// answered in the affirmative.
pub fn acknowledgements(chain_id: u64, transactions: u64, mint: &Mint) -> (asked: Vec<
    Acknowledgement,
>)
    ensures
        asked@ == required(chain_id, transactions, mint.id is Some),
{
    let mut asked = Vec::new();
    if is_mainnet(chain_id) {
        asked.push(Acknowledgement::Mainnet);
    }
    if transactions > 1 && mint.id.is_some() {
        asked.push(Acknowledgement::RepeatedId);
    }
    asked
}

/// Whether an answer, trimmed and in lowercase, acknowledges: it is `y` or
/// `yes`.
pub open spec fn affirms(answer: Seq<char>) -> bool {
    answer == "y"@ || answer == "yes"@
}

/// Tells whether an answer that is already trimmed and in lowercase
/// acknowledges.
pub fn is_yes(answer: &str) -> (yes: bool)
    ensures
        yes == affirms(answer@),
{
    str_eq(answer, "y") || str_eq(answer, "yes")
}

/// Tells whether a line that the user typed acknowledges: without the
/// whitespace around it and in lowercase it is `y` or `yes`.
pub fn is_affirmative(line: &str) -> (yes: bool)
    ensures
        yes == affirms(lowercase(trimmed(line@))),
{
    let answer = to_lowercase(trim(line));
    is_yes(answer.as_str())
}

/// The address of the block explorer of a chain, as
/// `alloy_chains::Chain::etherscan_urls` gives it for the chain of that id:
/// the second of the two URLs, or none where the chain is not a named one or
/// has no explorer.
pub uninterp spec fn explorer(chain_id: u64) -> Option<Seq<char>>;

/// Calls `alloy_chains::Chain::etherscan_urls` on the chain that
/// `alloy_chains::Chain::from` makes of the id, and keeps the second URL,
/// the explorer's own. The result is given the name [`explorer`]; nothing
/// more is claimed of it.
#[verifier::external_body]
fn explorer_url(chain_id: u64) -> (r: Option<&'static str>)
    ensures
        match r {
            Some(url) => explorer(chain_id) == Some(url@),
            None => explorer(chain_id) == None::<Seq<char>>,
        },
{
    alloy_chains::Chain::from(chain_id).etherscan_urls().map(|urls| urls.1)
}

/// The page of a transaction at a block explorer.
pub open spec fn page(explorer: Seq<char>, tx_hash: Seq<u8>) -> Seq<char> {
    explorer + "/tx/"@ + address_text(tx_hash)
}

/// Writes the address of the page of a transaction at a block explorer.
pub fn transaction_page(explorer: &str, tx_hash: &TxHash) -> (url: String)
    ensures
        url@ == page(explorer@, tx_hash@),
{
    let mut url = concat(explorer, "/tx/");
    url.append(tx_hash.to_hex().as_str());
    url
}

/// Writes the address at which a transaction on the chain `chain_id` can be
/// looked at, if a block explorer is known for that chain.
pub fn transaction_url(chain_id: u64, tx_hash: &TxHash) -> (url: Option<String>)
    ensures
        match url {
            Some(url) => explorer(chain_id) matches Some(base) && url@ == page(base, tx_hash@),
            None => explorer(chain_id) is None,
        },
{
    match explorer_url(chain_id) {
        Some(base) => Some(transaction_page(base, tx_hash)),
        None => None,
    }
}

} // verus!
