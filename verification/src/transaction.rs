//! The transaction that carries one inscription.

use crate::address::Address;
use vstd::prelude::*;
use vstd::slice::slice_to_vec;

verus! {

/// The gas limit of every inscription transaction. An inscription only
/// carries calldata, so this is sufficient.
pub const GAS_LIMIT: u64 = 22200;

/// A transaction that is ready to be signed and sent: one attempt to get an
/// inscription on chain under a given nonce.
#[derive(Debug, Clone, PartialEq, Eq)]
pub struct TransactionRequest {
    /// The recipient.
    pub to: Address,
    /// The amount transferred.
    pub value: u64,
    /// The gas limit.
    pub gas: u64,
    /// The sender's sequence number for this transaction.
    pub nonce: u64,
    /// The calldata.
    pub data: Vec<u8>,
}

/// A transaction request as a mathematical value.
pub ghost struct TransactionRequestView {
    /// The recipient's twenty bytes.
    pub to: Seq<u8>,
    /// The amount transferred.
    pub value: u64,
    /// The gas limit.
    pub gas: u64,
    /// The sender's sequence number for this transaction.
    pub nonce: u64,
    /// The calldata.
    pub data: Seq<u8>,
}

impl View for TransactionRequest {
    type V = TransactionRequestView;

    open spec fn view(&self) -> TransactionRequestView {
        TransactionRequestView {
            to: self.to@,
            value: self.value,
            gas: self.gas,
            nonce: self.nonce,
            data: self.data@,
        }
    }
}

impl TransactionRequest {
    /// The request that inscribes a payload under a nonce: it goes to the
    /// given recipient, transfers nothing and has the fixed gas limit.
    pub open spec fn built(nonce: u64, payload: Seq<u8>, recipient: Seq<u8>)
        -> TransactionRequestView {
        TransactionRequestView {
            to: recipient,
            value: 0,
            gas: GAS_LIMIT,
            nonce,
            data: payload,
        }
    }

    /// Builds the request that inscribes `payload` under `nonce`. The result
    /// depends on the three arguments alone, so building again for the same
    /// nonce gives the same request, byte for byte.
    pub fn build(nonce: u64, payload: &[u8], recipient: Address) -> (tx: TransactionRequest)
        ensures
            tx@ == TransactionRequest::built(nonce, payload@, recipient@),
    {
        TransactionRequest {
            to: recipient,
            value: 0,
            gas: GAS_LIMIT,
            nonce,
            data: slice_to_vec(payload),
        }
    }
}

/// Two requests built from the same nonce, payload and recipient are the
/// same request.
pub proof fn lemma_build_is_repeatable(
    first: TransactionRequest,
    second: TransactionRequest,
    nonce: u64,
    payload: Seq<u8>,
    recipient: Seq<u8>,
)
    requires
        first@ == TransactionRequest::built(nonce, payload, recipient),
        second@ == TransactionRequest::built(nonce, payload, recipient),
    ensures
        first@ == second@,
        first.to@ == second.to@,
        first.value == second.value,
        first.gas == second.gas,
        first.nonce == second.nonce,
        first.data@ == second.data@,
{
}

} // verus!
