//! Ethereum inscriptions
//!
//! An inscription is a small JSON text, behind the prefix `data:,`, that a
//! transaction carries as its calldata. This crate holds the inscriptions
//! themselves ([`Deploy`], [`Mint`], [`Transfer`]) with their calldata, and
//! the [`Inscriber`], which sends one piece of calldata in a given number
//! of transactions: it allocates their nonces, keeps the number of attempts
//! in flight under a ceiling, and has every attempt that does not confirm
//! made again until it does.
//!
//! The inscriber does no input or output. Whoever drives it signs and sends
//! the requests that it hands out and reports back how each attempt ended.
//! What holds of every run, whatever the chain does, is stated and proved in
//! [`guarantees`].

pub mod address;
pub mod guarantees;
pub mod inscriber;
pub mod inscription;
pub mod json;
pub mod mint;
pub mod op;
pub mod protocol;
pub mod text;
pub mod transaction;

pub use address::{Address, TxHash};
pub use inscriber::{
    ConfigError, Inscriber, InscriberView, InscriptionEvent, InscriptionResult, Outcome, Phase,
    Poll, Step,
};
pub use inscription::{
    Deploy, InscriptionCalldata, Mint, Transfer, TransferItem, CALL_DATA_PREFIX,
};
pub use op::Op;
pub use protocol::{NamedProtocol, ParseError, Protocol, ProtocolKind, ProtocolView};
pub use transaction::{TransactionRequest, TransactionRequestView, GAS_LIMIT};
