//! The sender of inscriptions: it turns "send this payload so many times"
//! into a stream of confirmed transactions, with a ceiling on how many are
//! in flight and a resubmission for every one that fails to confirm.
//!
//! The inscriber itself performs no network operation. Each call of
//! [`Inscriber::poll_next`] takes the result of an attempt that has resolved,
//! if there is one, and answers with the requests to sign and send now and
//! with what the stream yields: an event, its end, or nothing yet.

use crate::address::Address;
use crate::transaction::{TransactionRequest, TransactionRequestView};
use vstd::prelude::*;
use vstd::seq_lib::seq_to_set_distributes_over_add;
use vstd::slice::slice_to_vec;

verus! {

/// How an attempt to get a transaction on chain has ended.
#[derive(Debug, Clone, PartialEq, Eq)]
pub enum Outcome<R> {
    /// The chain confirmed the transaction with a receipt.
    Confirmed(R),
    /// No receipt could be obtained.
    NoReceipt,
    /// Signing or the network failed, with the reason.
    Failed(String),
}

impl<R> Outcome<R> {
    /// Tells how an attempt has ended from what sending it and waiting for
    /// its receipt gave: a receipt confirms it, no receipt leaves it
    /// unconfirmed, and an error anywhere fails it.
    pub fn from_result(res: Result<Option<R>, String>) -> (outcome: Outcome<R>)
        ensures
            outcome == match res {
                Ok(Some(receipt)) => Outcome::Confirmed(receipt),
                Ok(None) => Outcome::NoReceipt,
                Err(reason) => Outcome::Failed(reason),
            },
    {
        match res {
            Ok(Some(receipt)) => Outcome::Confirmed(receipt),
            Ok(None) => Outcome::NoReceipt,
            Err(reason) => Outcome::Failed(reason),
        }
    }

    /// Whether the attempt was confirmed.
    pub fn is_confirmed(&self) -> (confirmed: bool)
        ensures
            confirmed == (self is Confirmed),
    {
        matches!(self, Outcome::Confirmed(_))
    }
}

/// The result of one attempt, with the nonce that the attempt used.
#[derive(Debug, Clone, PartialEq, Eq)]
pub struct InscriptionResult<R> {
    /// The nonce of the transaction that was attempted.
    pub nonce: u64,
    /// How the attempt ended.
    pub res: Outcome<R>,
}

/// What the inscriber reports to its consumer.
#[derive(Debug, Clone, PartialEq, Eq)]
#[allow(missing_docs)]
pub enum InscriptionEvent<R> {
    /// A transaction was confirmed.
    Mint { receipt: R, sender: Address, chain_id: u64, nonce: u64, calldata: Vec<u8> },
}

/// What a poll of a stream yields.
#[derive(Debug, Clone, PartialEq, Eq)]
pub enum Poll<T> {
    /// A value is there.
    Ready(T),
    /// Nothing is there yet.
    Pending,
}

/// The answer to one call of [`Inscriber::poll_next`].
#[derive(Debug, Clone, PartialEq, Eq)]
pub struct Step<R> {
    /// The requests to sign and send now, in this order.
    pub submit: Vec<TransactionRequest>,
    /// What the stream yields: `Ready(Some(event))` for a confirmed
    /// transaction, `Ready(None)` at the end of the stream, and `Pending`
    /// while attempts are in flight and none has been reported as resolved.
    pub poll: Poll<Option<InscriptionEvent<R>>>,
}

/// Why an inscriber cannot be set up.
#[derive(Copy, Clone, Debug, PartialEq, Eq, Structural)]
pub enum ConfigError {
    /// The number of transactions to send is zero.
    NoTransactions,
    /// The number of transactions to send concurrently is zero.
    NoConcurrency,
    /// The nonces of the run would not fit in 64 bits.
    NonceOverflow,
}

/// Where a run stands.
#[derive(Copy, Clone, Debug, PartialEq, Eq, Structural)]
pub enum Phase {
    /// Nonces are still to be allocated.
    Filling,
    /// Every nonce has been allocated and attempts are in flight.
    Draining,
    /// Every nonce has been allocated and confirmed.
    Done,
}

/// What a reported result means to an inscriber in a given state.
pub ghost enum Resolution {
    /// Nothing was reported, or the result of a nonce that is not in flight.
    Nothing,
    /// The attempt for this nonce, which is in flight, was confirmed.
    Confirmed(u64),
    /// The attempt for this nonce, which is in flight, did not confirm.
    Unconfirmed(u64),
}

/// What the stream yields, by the nonce of the event.
pub ghost enum Yield {
    /// An event for the transaction with this nonce.
    Event(u64),
    /// The end of the stream.
    End,
    /// Nothing yet.
    Wait,
}

/// The state of an inscriber as a mathematical value.
#[verifier::ext_equal]
pub ghost struct InscriberView {
    /// The account that sends the transactions, and receives them.
    pub sender: Seq<u8>,
    /// The targeted chain id.
    pub chain_id: u64,
    /// The calldata that every transaction carries.
    pub calldata: Seq<u8>,
    /// The nonce of the first transaction of the run.
    pub first_nonce: u64,
    /// How many nonces have been allocated.
    pub count: nat,
    /// How many transactions to send.
    pub max_transactions: nat,
    /// How many transactions may be in flight at a time.
    pub concurrency: nat,
    /// The nonces of the attempts in flight.
    pub in_flight: Set<u64>,
    /// The nonces of the events that were yielded, oldest first.
    pub emitted: Seq<u64>,
}

impl InscriberView {
    /// The state in which a run begins.
    pub open spec fn initial(
        sender: Seq<u8>,
        chain_id: u64,
        calldata: Seq<u8>,
        nonce: u64,
        max_transactions: u64,
        concurrency: u64,
    ) -> InscriberView {
        InscriberView {
            sender,
            chain_id,
            calldata,
            first_nonce: nonce,
            count: 0,
            max_transactions: max_transactions as nat,
            concurrency: concurrency as nat,
            in_flight: Set::empty(),
            emitted: Seq::empty(),
        }
    }

    /// The next nonce to allocate.
    pub open spec fn highest_nonce(self) -> int {
        self.first_nonce + self.count
    }

    /// Whether a nonce has been allocated.
    pub open spec fn is_allocated(self, nonce: u64) -> bool {
        self.first_nonce <= nonce < self.first_nonce + self.count
    }

    /// The nonces that have been allocated, in the order of their allocation.
    pub open spec fn allocated(self) -> Seq<u64> {
        Seq::new(self.count, |i: int| (self.first_nonce + i) as u64)
    }

    /// What holds of the state of every inscriber.
    pub open spec fn wf(self) -> bool {
        &&& 1 <= self.max_transactions
        &&& 1 <= self.concurrency
        &&& self.count <= self.max_transactions
        &&& self.first_nonce + self.max_transactions <= u64::MAX
        &&& self.in_flight.finite()
        &&& self.in_flight.len() <= self.concurrency
        &&& self.in_flight.len() + self.emitted.len() == self.count
        &&& self.emitted.no_duplicates()
        &&& forall|n: u64| #[trigger] self.in_flight.contains(n) ==> self.is_allocated(n)
        &&& forall|n: u64| #[trigger] self.emitted.contains(n) ==> self.is_allocated(n)
        &&& forall|n: u64|
            self.is_allocated(n) ==> (#[trigger] self.in_flight.contains(n)
                != #[trigger] self.emitted.contains(n))
    }

    /// Whether the run is over: every nonce is allocated and nothing is in
    /// flight.
    pub open spec fn done(self) -> bool {
        self.count >= self.max_transactions && self.in_flight.len() == 0
    }

    /// Where the run stands.
    pub open spec fn phase(self) -> Phase {
        if self.count < self.max_transactions {
            Phase::Filling
        } else if self.in_flight.len() > 0 {
            Phase::Draining
        } else {
            Phase::Done
        }
    }

    /// The request that stands for a nonce in this run.
    pub open spec fn request(self, nonce: u64) -> TransactionRequestView {
        TransactionRequest::built(nonce, self.calldata, self.sender)
    }

    /// How many nonces can be allocated now: as many as the ceiling on
    /// attempts in flight and the number of transactions still to send allow.
    pub open spec fn room(self) -> nat {
        let slots = self.concurrency - self.in_flight.len();
        let left = self.max_transactions - self.count;
        if slots <= 0 || left <= 0 {
            0
        } else if slots <= left {
            slots as nat
        } else {
            left as nat
        }
    }

    /// The nonces that are allocated next, in the order of their allocation.
    pub open spec fn fresh(self) -> Seq<u64> {
        Seq::new(self.room(), |i: int| (self.highest_nonce() + i) as u64)
    }

    /// The state after as many nonces were allocated, and their attempts
    /// started, as there is room for.
    pub open spec fn filled(self) -> InscriberView {
        InscriberView {
            count: self.count + self.room(),
            in_flight: self.in_flight.union(self.fresh().to_set()),
            ..self
        }
    }

    /// The state after the attempt for a nonce was confirmed: the nonce has
    /// left the attempts in flight for good, and its event was yielded.
    pub open spec fn confirmed(self, nonce: u64) -> InscriberView {
        InscriberView {
            in_flight: self.in_flight.remove(nonce),
            emitted: self.emitted.push(nonce),
            ..self
        }
    }

    /// What a reported result means in this state.
    pub open spec fn resolution<R>(self, resolved: Option<InscriptionResult<R>>) -> Resolution {
        match resolved {
            None => Resolution::Nothing,
            Some(result) => if !self.in_flight.contains(result.nonce) {
                Resolution::Nothing
            } else if result.res is Confirmed {
                Resolution::Confirmed(result.nonce)
            } else {
                Resolution::Unconfirmed(result.nonce)
            },
        }
    }

    /// The state after one poll.
    pub open spec fn next(self, r: Resolution) -> InscriberView {
        match r {
            Resolution::Confirmed(nonce) => self.confirmed(nonce),
            Resolution::Unconfirmed(_) => self.filled(),
            Resolution::Nothing => self.filled(),
        }
    }

    /// The requests that one poll hands out: for an attempt that did not
    /// confirm the request of its nonce once more, then the requests of the
    /// nonces that the poll allocates.
    pub open spec fn submitted(self, r: Resolution) -> Seq<TransactionRequestView> {
        let started = self.fresh().map_values(|n: u64| self.request(n));
        match r {
            Resolution::Confirmed(_) => Seq::empty(),
            Resolution::Unconfirmed(nonce) => seq![self.request(nonce)] + started,
            Resolution::Nothing => started,
        }
    }

    /// What one poll yields.
    pub open spec fn yielded(self, r: Resolution) -> Yield {
        match r {
            Resolution::Confirmed(nonce) => Yield::Event(nonce),
            Resolution::Unconfirmed(_) => Yield::Wait,
            Resolution::Nothing => if self.done() {
                Yield::End
            } else {
                Yield::Wait
            },
        }
    }

    /// Whether a resolution can occur in this state: only an attempt that
    /// is in flight can resolve.
    pub open spec fn admits(self, r: Resolution) -> bool {
        match r {
            Resolution::Nothing => true,
            Resolution::Confirmed(nonce) => self.in_flight.contains(nonce),
            Resolution::Unconfirmed(nonce) => self.in_flight.contains(nonce),
        }
    }

    /// The state after a series of polls, given by what each one resolved.
    pub open spec fn after(self, polls: Seq<Resolution>) -> InscriberView
        decreases polls.len(),
    {
        if polls.len() == 0 {
            self
        } else {
            self.after(polls.drop_last()).next(polls.last())
        }
    }

    /// Whether a series of polls can occur from this state.
    pub open spec fn admits_all(self, polls: Seq<Resolution>) -> bool
        decreases polls.len(),
    {
        polls.len() == 0 || (self.admits_all(polls.drop_last()) && self.after(
            polls.drop_last(),
        ).admits(polls.last()))
    }

    /// The nonces of the events that a series of polls yields, in the order
    /// in which they are yielded.
    pub open spec fn events(self, polls: Seq<Resolution>) -> Seq<u64>
        decreases polls.len(),
    {
        if polls.len() == 0 {
            Seq::empty()
        } else {
            let earlier = self.events(polls.drop_last());
            match self.after(polls.drop_last()).yielded(polls.last()) {
                Yield::Event(nonce) => earlier.push(nonce),
                _ => earlier,
            }
        }
    }

    /// The nonces that a series of polls allocates, in the order of their
    /// allocation.
    pub open spec fn allocations(self, polls: Seq<Resolution>) -> Seq<u64>
        decreases polls.len(),
    {
        if polls.len() == 0 {
            Seq::empty()
        } else {
            let earlier = self.allocations(polls.drop_last());
            match polls.last() {
                Resolution::Confirmed(_) => earlier,
                _ => earlier + self.after(polls.drop_last()).fresh(),
            }
        }
    }
}

/// The requests of a list as mathematical values.
pub open spec fn requests(list: Seq<TransactionRequest>) -> Seq<TransactionRequestView> {
    list.map_values(|tx: TransactionRequest| tx@)
}

/// Handles inscriptions: allocates the nonces of a run, keeps the attempts
/// in flight under the ceiling, and has every attempt that did not confirm
/// made again.
pub struct Inscriber {
    /// nonces of the transactions in progress
    pending: Vec<u64>,
    /// The call data to send
    calldata: Vec<u8>,
    sender: Address,
    /// how many transactions we sent already
    count: u64,
    /// The next nonce to use
    highest_nonce: u64,
    /// How many transactions to send
    max_transactions: u64,
    /// How many transactions to send concurrently
    concurrency: u64,
    /// The targeted chain id
    chain_id: u64,
    /// nonces of the events yielded so far
    emitted: Ghost<Seq<u64>>,
}

impl View for Inscriber {
    type V = InscriberView;

    closed spec fn view(&self) -> InscriberView {
        InscriberView {
            sender: self.sender@,
            chain_id: self.chain_id,
            calldata: self.calldata@,
            first_nonce: (self.highest_nonce - self.count) as u64,
            count: self.count as nat,
            max_transactions: self.max_transactions as nat,
            concurrency: self.concurrency as nat,
            in_flight: self.pending@.to_set(),
            emitted: self.emitted@,
        }
    }
}

/// The set of a sequence without one of its entries, where the sequence
/// holds nothing twice.
proof fn lemma_remove_entry(s: Seq<u64>, i: int)
    requires
        s.no_duplicates(),
        0 <= i < s.len(),
    ensures
        s.remove(i).no_duplicates(),
        s.remove(i).to_set() =~= s.to_set().remove(s[i]),
{
    let r = s.remove(i);
    assert forall|x: u64| r.to_set().contains(x) <==> s.to_set().remove(s[i]).contains(x) by {
        if s.contains(x) && x != s[i] {
            let j = choose|j: int| 0 <= j < s.len() && s[j] == x;
            if j < i {
                assert(r[j] == x);
            } else {
                assert(r[j - 1] == x);
            }
        }
    }
}

/// The set of a sequence with one more entry.
proof fn lemma_push_entry(s: Seq<u64>, x: u64)
    ensures
        s.push(x).to_set() =~= s.to_set().insert(x),
{
    let p = s.push(x);
    assert forall|y: u64| p.to_set().contains(y) <==> s.to_set().insert(x).contains(y) by {
        if s.contains(y) {
            let j = choose|j: int| 0 <= j < s.len() && s[j] == y;
            assert(p[j] == y);
        }
        if y == x {
            assert(p[s.len() as int] == y);
        }
    }
}

impl Inscriber {
    /// What holds of the fields of every inscriber.
    pub closed spec fn inv(&self) -> bool {
        &&& 1 <= self.max_transactions
        &&& 1 <= self.concurrency
        &&& self.count <= self.max_transactions
        &&& self.count <= self.highest_nonce
        &&& self.highest_nonce - self.count + self.max_transactions <= u64::MAX
        &&& self.pending@.no_duplicates()
        &&& self.pending@.len() <= self.concurrency
        &&& self.pending@.len() + self.emitted@.len() == self.count
        &&& self.emitted@.no_duplicates()
        &&& forall|n: u64| #[trigger]
            self.pending@.contains(n) ==> self.highest_nonce - self.count <= n < self.highest_nonce
        &&& forall|n: u64| #[trigger]
            self.emitted@.contains(n) ==> self.highest_nonce - self.count <= n < self.highest_nonce
        &&& forall|n: u64|
            self.highest_nonce - self.count <= n < self.highest_nonce ==> (
            #[trigger] self.pending@.contains(n) != #[trigger] self.emitted@.contains(n))
    }

    /// What holds of every inscriber: its fields are consistent, and its
    /// state is well formed.
    pub open spec fn wf(&self) -> bool {
        self.inv() && self@.wf()
    }

    /// Consistent fields make a well-formed state.
    proof fn lemma_inv_wf(&self)
        requires
            self.inv(),
        ensures
            self.wf(),
            self@.in_flight.len() == self.pending@.len(),
            self@.first_nonce == self.highest_nonce - self.count,
    {
        self.pending@.unique_seq_to_set();
    }

    /// Sets up a run that sends `calldata` in `max_transactions`
    /// transactions from `sender` to itself, with at most `concurrency` of
    /// them in flight, starting at `nonce`. Nothing is allocated yet.
    pub fn new(
        sender: Address,
        chain_id: u64,
        calldata: &[u8],
        nonce: u64,
        max_transactions: u64,
        concurrency: u64,
    ) -> (made: Result<Inscriber, ConfigError>)
        ensures
            match made {
                Ok(inscriber) => {
                    &&& inscriber.wf()
                    &&& inscriber@ == InscriberView::initial(
                        sender@,
                        chain_id,
                        calldata@,
                        nonce,
                        max_transactions,
                        concurrency,
                    )
                },
                Err(ConfigError::NoTransactions) => max_transactions == 0,
                Err(ConfigError::NoConcurrency) => max_transactions != 0 && concurrency == 0,
                Err(ConfigError::NonceOverflow) => {
                    &&& max_transactions != 0
                    &&& concurrency != 0
                    &&& nonce + max_transactions > u64::MAX
                },
            },
    {
        if max_transactions == 0 {
            return Err(ConfigError::NoTransactions);
        }
        if concurrency == 0 {
            return Err(ConfigError::NoConcurrency);
        }
        if nonce > u64::MAX - max_transactions {
            return Err(ConfigError::NonceOverflow);
        }
        let inscriber = Inscriber {
            pending: Vec::new(),
            calldata: slice_to_vec(calldata),
            sender,
            count: 0,
            highest_nonce: nonce,
            max_transactions,
            concurrency,
            chain_id,
            emitted: Ghost(Seq::empty()),
        };
        proof {
            inscriber.lemma_inv_wf();
        }
        Ok(inscriber)
    }

    /// The account that sends the transactions, and receives them.
    pub fn sender(&self) -> (sender: Address)
        ensures
            sender@ == self@.sender,
    {
        self.sender
    }

    /// The targeted chain id.
    pub fn chain_id(&self) -> (id: u64)
        ensures
            id == self@.chain_id,
    {
        self.chain_id
    }

    /// The calldata that every transaction carries.
    pub fn calldata(&self) -> (calldata: &[u8])
        ensures
            calldata@ == self@.calldata,
    {
        self.calldata.as_slice()
    }

    /// How many transactions to send.
    pub fn max_transactions(&self) -> (n: u64)
        ensures
            n == self@.max_transactions,
    {
        self.max_transactions
    }

    /// How many transactions may be in flight at a time.
    pub fn concurrency(&self) -> (n: u64)
        ensures
            n == self@.concurrency,
    {
        self.concurrency
    }

    /// How many transactions have been started under a nonce of their own.
    pub fn count(&self) -> (n: u64)
        requires
            self.wf(),
        ensures
            n == self@.count,
    {
        self.count
    }

    /// The next nonce to use.
    pub fn highest_nonce(&self) -> (n: u64)
        requires
            self.wf(),
        ensures
            n == self@.highest_nonce(),
    {
        self.highest_nonce
    }

    /// How many attempts are in flight: never more than the ceiling.
    pub fn in_flight(&self) -> (n: usize)
        requires
            self.wf(),
        ensures
            n == self@.in_flight.len(),
            n <= self@.concurrency,
    {
        self.pending.len()
    }

    /// Whether the attempt for a nonce is in flight.
    pub fn is_in_flight(&self, nonce: u64) -> (found: bool)
        requires
            self.wf(),
        ensures
            found == self@.in_flight.contains(nonce),
    {
        self.position(nonce).is_some()
    }

    /// Whether the run is over.
    pub fn is_done(&self) -> (done: bool)
        requires
            self.wf(),
        ensures
            done == self@.done(),
    {
        self.count >= self.max_transactions && self.pending.len() == 0
    }

    /// Where the run stands.
    pub fn phase(&self) -> (phase: Phase)
        requires
            self.wf(),
        ensures
            phase == self@.phase(),
    {
        if self.count < self.max_transactions {
            Phase::Filling
        } else if self.pending.len() > 0 {
            Phase::Draining
        } else {
            Phase::Done
        }
    }

    /// Where a nonce stands among the attempts in flight.
    fn position(&self, nonce: u64) -> (at: Option<usize>)
        ensures
            match at {
                Some(i) => i < self.pending@.len() && self.pending@[i as int] == nonce,
                None => !self.pending@.contains(nonce),
            },
    {
        let mut i: usize = 0;
        while i < self.pending.len()
            invariant
                i <= self.pending@.len(),
                forall|j: int| 0 <= j < i ==> self.pending@[j] != nonce,
            decreases self.pending@.len() - i,
        {
            if self.pending[i] == nonce {
                return Some(i);
            }
            i += 1;
        }
        None
    }

    /// Returns the next transaction to send.
    pub fn next_transaction(&self) -> (tx: TransactionRequest)
        requires
            self.wf(),
        ensures
            tx@ == self@.request(self@.highest_nonce() as u64),
    {
        TransactionRequest::build(self.highest_nonce, self.calldata.as_slice(), self.sender)
    }

    /// This starts sending the given transaction: its nonce joins the
    /// attempts in flight, and the request joins those to sign and send.
    fn start_transaction(&mut self, tx: TransactionRequest, submit: &mut Vec<TransactionRequest>)
        ensures
            final(self).pending@ == old(self).pending@.push(tx.nonce),
            final(self).calldata == old(self).calldata,
            final(self).sender == old(self).sender,
            final(self).count == old(self).count,
            final(self).highest_nonce == old(self).highest_nonce,
            final(self).max_transactions == old(self).max_transactions,
            final(self).concurrency == old(self).concurrency,
            final(self).chain_id == old(self).chain_id,
            final(self).emitted == old(self).emitted,
            final(submit)@ == old(submit)@.push(tx),
    {
        self.pending.push(tx.nonce);
        submit.push(tx);
    }

    /// Allocates nonces, and starts their transactions, while fewer
    /// attempts are in flight than the ceiling allows and fewer
    /// transactions were started than are to be sent.
    fn fill(&mut self, submit: &mut Vec<TransactionRequest>)
        requires
            old(self).wf(),
        ensures
            final(self).wf(),
            final(self)@ == old(self)@.filled(),
            requests(final(submit)@) == requests(old(submit)@) + old(self)@.fresh().map_values(
                |n: u64| old(self)@.request(n),
            ),
    {
        let ghost start = self@;
        let ghost before = *self;
        let ghost queued = submit@;
        while (self.pending.len() as u64) < self.concurrency && self.count < self.max_transactions
            invariant
                before.inv(),
                start == before@,
                start.in_flight.len() == before.pending@.len(),
                start.first_nonce == before.highest_nonce - before.count,
                self.inv(),
                self.calldata == before.calldata,
                self.sender == before.sender,
                self.max_transactions == before.max_transactions,
                self.concurrency == before.concurrency,
                self.chain_id == before.chain_id,
                self.emitted == before.emitted,
                before.count <= self.count,
                self.count - before.count <= start.room(),
                self.highest_nonce - self.count == before.highest_nonce - before.count,
                self.pending@ == before.pending@ + Seq::new(
                    (self.count - before.count) as nat,
                    |i: int| (before.highest_nonce + i) as u64,
                ),
                requests(submit@) == requests(queued) + Seq::new(
                    (self.count - before.count) as nat,
                    |i: int| start.request((before.highest_nonce + i) as u64),
                ),
            decreases self.max_transactions - self.count,
        {
            proof {
                self.lemma_inv_wf();
            }
            let ghost earlier = *self;
            let ghost sent = submit@;
            let tx = self.next_transaction();
            self.start_transaction(tx, submit);
            self.highest_nonce += 1;
            self.count += 1;
            proof {
                let nonce = earlier.highest_nonce;
                assert(!earlier.pending@.contains(nonce));
                assert forall|n: u64| #[trigger]
                    self.pending@.contains(n) <==> earlier.pending@.contains(n) || n == nonce by {
                    lemma_push_entry(earlier.pending@, nonce);
                    assert(self.pending@.to_set().contains(n) <==> earlier.pending@.to_set().insert(
                        nonce,
                    ).contains(n));
                }
                assert(requests(submit@) =~= requests(sent).push(tx@));
            }
        }
        proof {
            self.lemma_inv_wf();
            seq_to_set_distributes_over_add(before.pending@, start.fresh());
        }
    }

    /// Moves the run on. `resolved` is the result of an attempt that has
    /// ended, if one has; the result of a nonce that is not in flight is
    /// passed over.
    ///
    /// A confirmed attempt retires its nonce and is yielded as an event,
    /// at once. An attempt that did not confirm is made again with the same
    /// request. Then, unless the run is over, nonces are allocated as far as
    /// there is room, and the stream has nothing to yield until another
    /// attempt has resolved.
    pub fn poll_next<R>(&mut self, resolved: Option<InscriptionResult<R>>) -> (step: Step<R>)
        requires
            old(self).wf(),
        ensures
            final(self).wf(),
            final(self)@ == old(self)@.next(old(self)@.resolution(resolved)),
            requests(step.submit@) == old(self)@.submitted(old(self)@.resolution(resolved)),
            match step.poll {
                Poll::Ready(Some(InscriptionEvent::Mint { receipt, sender, chain_id, nonce, calldata })) => {
                    &&& old(self)@.yielded(old(self)@.resolution(resolved)) == Yield::Event(nonce)
                    &&& resolved matches Some(result) && result.res == Outcome::Confirmed(receipt)
                    &&& sender@ == old(self)@.sender
                    &&& chain_id == old(self)@.chain_id
                    &&& calldata@ == old(self)@.calldata
                },
                Poll::Ready(None) => old(self)@.yielded(old(self)@.resolution(resolved))
                    == Yield::End,
                Poll::Pending => old(self)@.yielded(old(self)@.resolution(resolved)) == Yield::Wait,
            },
    {
        let ghost before = *self;
        let mut submit: Vec<TransactionRequest> = Vec::new();
        if let Some(result) = resolved {
            if let Some(i) = self.position(result.nonce) {
                let nonce = result.nonce;
                proof {
                    lemma_remove_entry(self.pending@, i as int);
                }
                self.pending.remove(i);
                match result.res {
                    Outcome::Confirmed(receipt) => {
                        self.emitted = Ghost(self.emitted@.push(nonce));
                        proof {
                            assert forall|n: u64| #[trigger]
                                self.emitted@.contains(n) <==> before.emitted@.contains(n) || n
                                    == nonce by {
                                lemma_push_entry(before.emitted@, nonce);
                                assert(self.emitted@.to_set().contains(n)
                                    <==> before.emitted@.to_set().insert(nonce).contains(n));
                            }
                            assert forall|n: u64| #[trigger]
                                self.pending@.contains(n) <==> before.pending@.contains(n) && n
                                    != nonce by {
                                assert(self.pending@.to_set().contains(n)
                                    <==> before.pending@.to_set().remove(nonce).contains(n));
                            }
                            assert(!before.emitted@.contains(nonce));
                        }
                        let event = InscriptionEvent::Mint {
                            receipt,
                            sender: self.sender,
                            chain_id: self.chain_id,
                            nonce,
                            calldata: slice_to_vec(self.calldata.as_slice()),
                        };
                        return Step { submit, poll: Poll::Ready(Some(event)) };
                    },
                    _ => {
                        let tx = TransactionRequest::build(
                            nonce,
                            self.calldata.as_slice(),
                            self.sender,
                        );
                        self.start_transaction(tx, &mut submit);
                        proof {
                            lemma_push_entry(before.pending@.remove(i as int), nonce);
                            assert forall|n: u64| #[trigger]
                                self.pending@.contains(n) <==> before.pending@.contains(n) by {
                                assert(self.pending@.to_set().contains(n)
                                    <==> before.pending@.to_set().contains(n));
                            }
                        }
                    },
                }
            }
        }
        if self.count >= self.max_transactions && self.pending.len() == 0 {
            return Step { submit, poll: Poll::Ready(None) };
        }
        self.fill(&mut submit);
        Step { submit, poll: Poll::Pending }
    }
}

} // verus!
