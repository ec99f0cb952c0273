//! What holds of every run of an inscriber, whatever resolves and in
//! whatever order.
//!
//! A run is a well-formed state and a series of polls, each given by what
//! it resolved. [`Inscriber::poll_next`] moves an inscriber's state as
//! [`InscriberView::next`] says, so what is proved here of the states of a
//! run holds of the inscriber.

use crate::inscriber::{InscriberView, Phase, Resolution, Yield};
use crate::transaction::TransactionRequestView;
use vstd::prelude::*;
use vstd::set_lib::lemma_set_disjoint_lens;

verus! {

/// A run with at least one transaction to send, room for at least one
/// attempt, and nonces that fit in 64 bits begins in a well-formed state.
pub proof fn lemma_initial_wf(
    sender: Seq<u8>,
    chain_id: u64,
    calldata: Seq<u8>,
    nonce: u64,
    max_transactions: u64,
    concurrency: u64,
)
    requires
        1 <= max_transactions,
        1 <= concurrency,
        nonce + max_transactions <= u64::MAX,
    ensures
        InscriberView::initial(sender, chain_id, calldata, nonce, max_transactions, concurrency).wf(),
{
}

/// The nonces that a state allocates next are the ones that follow those
/// already allocated, none twice, and as many as there is room for.
pub proof fn lemma_fresh(v: InscriberView)
    requires
        v.wf(),
    ensures
        v.fresh().len() == v.room(),
        v.fresh().no_duplicates(),
        v.fresh().to_set().finite(),
        v.fresh().to_set().len() == v.room(),
        v.fresh().to_set().disjoint(v.in_flight),
        forall|i: int| 0 <= i < v.room() ==> #[trigger] v.fresh()[i] == v.highest_nonce() + i,
        forall|n: u64|
            v.fresh().to_set().contains(n) <==> v.highest_nonce() <= n < v.highest_nonce()
                + v.room(),
{
    let fresh = v.fresh();
    fresh.unique_seq_to_set();
    assert forall|n: u64| v.highest_nonce() <= n < v.highest_nonce() + v.room() implies fresh.contains(
        n,
    ) by {
        assert(fresh[n - v.highest_nonce()] == n);
    }
}

/// Allocating as far as there is room keeps a state well formed.
pub proof fn lemma_filled_wf(v: InscriberView)
    requires
        v.wf(),
    ensures
        v.filled().wf(),
        v.filled().in_flight.len() == v.in_flight.len() + v.room(),
{
    lemma_fresh(v);
    lemma_set_disjoint_lens(v.in_flight, v.fresh().to_set());
}

/// Confirming an attempt that is in flight keeps a state well formed.
pub proof fn lemma_confirmed_wf(v: InscriberView, nonce: u64)
    requires
        v.wf(),
        v.in_flight.contains(nonce),
    ensures
        v.confirmed(nonce).wf(),
{
    let w = v.confirmed(nonce);
    assert(!v.emitted.contains(nonce));
    assert forall|n: u64| #[trigger] w.emitted.contains(n) <==> v.emitted.contains(n) || n
        == nonce by {
        if v.emitted.contains(n) {
            let j = choose|j: int| 0 <= j < v.emitted.len() && v.emitted[j] == n;
            assert(w.emitted[j] == n);
        }
        if n == nonce {
            assert(w.emitted[v.emitted.len() as int] == n);
        }
    }
}

/// Every poll keeps a state well formed.
pub proof fn lemma_next_wf(v: InscriberView, r: Resolution)
    requires
        v.wf(),
        v.admits(r),
    ensures
        v.next(r).wf(),
{
    match r {
        Resolution::Confirmed(nonce) => lemma_confirmed_wf(v, nonce),
        _ => lemma_filled_wf(v),
    }
}

/// Every state of a run is well formed. In particular, at every moment of
/// a run the attempts in flight are no more than the ceiling allows.
pub proof fn lemma_run_wf(v: InscriberView, polls: Seq<Resolution>)
    requires
        v.wf(),
        v.admits_all(polls),
    ensures
        v.after(polls).wf(),
        v.after(polls).in_flight.len() <= v.concurrency,
    decreases polls.len(),
{
    lemma_run_keeps_settings(v, polls);
    if polls.len() > 0 {
        lemma_run_wf(v, polls.drop_last());
        lemma_next_wf(v.after(polls.drop_last()), polls.last());
    }
}

/// A run never changes what it was set up with: the sender, the chain, the
/// calldata, the first nonce, the number of transactions and the ceiling.
pub proof fn lemma_run_keeps_settings(v: InscriberView, polls: Seq<Resolution>)
    ensures
        v.after(polls).sender == v.sender,
        v.after(polls).chain_id == v.chain_id,
        v.after(polls).calldata == v.calldata,
        v.after(polls).first_nonce == v.first_nonce,
        v.after(polls).max_transactions == v.max_transactions,
        v.after(polls).concurrency == v.concurrency,
    decreases polls.len(),
{
    if polls.len() > 0 {
        lemma_run_keeps_settings(v, polls.drop_last());
    }
}

/// Nonces are allocated in strictly increasing order: the nonces allocated
/// so far, in the order of their allocation, increase one by one from the
/// first nonce of the run.
pub proof fn lemma_allocated_increasing(v: InscriberView)
    requires
        v.wf(),
    ensures
        forall|i: int| 0 <= i < v.allocated().len() ==> #[trigger] v.allocated()[i] == v.first_nonce + i,
        forall|i: int, j: int|
            0 <= i < j < v.allocated().len() ==> #[trigger] v.allocated()[i] < #[trigger] v.allocated()[j],
{
}

/// Whatever resolves, in whatever order and however often attempts are
/// made again, a run allocates its nonces in strictly increasing order:
/// the polls of a run add their allocations, in their order, behind the
/// nonces allocated before, and the whole increases strictly.
pub proof fn lemma_run_allocates_in_order(v: InscriberView, polls: Seq<Resolution>)
    requires
        v.wf(),
        v.admits_all(polls),
    ensures
        v.after(polls).allocated() == v.allocated() + v.allocations(polls),
        forall|i: int, j: int|
            0 <= i < j < v.after(polls).allocated().len() ==> #[trigger] v.after(polls).allocated()[i]
                < #[trigger] v.after(polls).allocated()[j],
    decreases polls.len(),
{
    lemma_run_wf(v, polls);
    if polls.len() > 0 {
        let u = v.after(polls.drop_last());
        lemma_run_allocates_in_order(v, polls.drop_last());
        if !(polls.last() is Confirmed) {
            assert(u.next(polls.last()).allocated() =~= u.allocated() + u.fresh());
        }
    }
}

/// How the count of allocated nonces moves: a poll that resolves a
/// confirmation leaves it alone, any other poll adds the nonces that it
/// allocates and nothing else. So an attempt that is made again costs no
/// nonce, the next nonce never decreases, and once every transaction of the
/// run has its nonce no poll allocates another.
pub proof fn lemma_nonce_accounting(v: InscriberView, r: Resolution)
    requires
        v.wf(),
        v.admits(r),
    ensures
        v.next(r).first_nonce == v.first_nonce,
        v.next(r).count == v.count + (if r is Confirmed {
            0
        } else {
            v.room()
        }),
        v.next(r).highest_nonce() >= v.highest_nonce(),
        v.next(r).count <= v.max_transactions,
        v.count == v.max_transactions ==> v.next(r).count == v.count,
        r is Unconfirmed ==> v.next(r) == v.next(Resolution::Nothing),
{
}

/// While as many attempts are in flight as the ceiling allows, no nonce is
/// allocated; and no poll allocates more nonces than slots are free.
pub proof fn lemma_backpressure(v: InscriberView)
    requires
        v.wf(),
    ensures
        v.room() <= v.concurrency - v.in_flight.len(),
        v.room() <= v.max_transactions - v.count,
        v.in_flight.len() == v.concurrency ==> v.fresh() == Seq::<u64>::empty(),
{
}

/// When a poll has nothing to yield, an attempt is in flight: there is
/// always a resolution to wait for.
pub proof fn lemma_wait_has_attempts_in_flight(v: InscriberView, r: Resolution)
    requires
        v.wf(),
        v.admits(r),
        v.yielded(r) == Yield::Wait,
    ensures
        v.next(r).in_flight.len() > 0,
{
    lemma_filled_wf(v);
}

/// A poll that resolves nothing may be repeated: after the first, another
/// one changes nothing and hands out nothing.
pub proof fn lemma_idle_poll_is_idempotent(v: InscriberView)
    requires
        v.wf(),
    ensures
        v.next(Resolution::Nothing).next(Resolution::Nothing) == v.next(Resolution::Nothing),
        v.next(Resolution::Nothing).submitted(Resolution::Nothing) == Seq::<
            TransactionRequestView,
        >::empty(),
        v.next(Resolution::Nothing).yielded(Resolution::Nothing) == v.yielded(Resolution::Nothing),
{
    let w = v.filled();
    lemma_filled_wf(v);
    assert(w.room() == 0);
    assert(w.fresh() =~= Seq::empty());
    assert(w.fresh().to_set() =~= Set::empty());
    assert(w.filled() =~= w);
    lemma_fresh(v);
}

/// The three phases of a run: it is over exactly in the last one, and only
/// in the first one are nonces left to allocate.
pub proof fn lemma_phases(v: InscriberView)
    requires
        v.wf(),
    ensures
        v.phase() == Phase::Done <==> v.done(),
        v.phase() == Phase::Filling <==> v.count < v.max_transactions,
        v.phase() == Phase::Draining <==> v.count == v.max_transactions && v.in_flight.len() > 0,
        v.phase() != Phase::Filling ==> v.room() == 0,
{
}

/// The end of the stream is stable: a run that is over stays over, and
/// yields nothing more.
pub proof fn lemma_done_is_final(v: InscriberView, r: Resolution)
    requires
        v.wf(),
        v.done(),
        v.admits(r),
    ensures
        r == Resolution::Nothing,
        v.next(r) == v,
        v.yielded(r) == Yield::End,
        v.submitted(r) == Seq::<TransactionRequestView>::empty(),
{
}

/// A poll records the event that it yields, and nothing else.
pub proof fn lemma_event_recorded(v: InscriberView, r: Resolution)
    ensures
        v.next(r).emitted == match v.yielded(r) {
            Yield::Event(nonce) => v.emitted.push(nonce),
            _ => v.emitted,
        },
{
}

/// The events recorded in a state are those that the run has yielded.
pub proof fn lemma_run_records_events(v: InscriberView, polls: Seq<Resolution>)
    ensures
        v.after(polls).emitted == v.emitted + v.events(polls),
    decreases polls.len(),
{
    if polls.len() > 0 {
        lemma_run_records_events(v, polls.drop_last());
    }
}

/// No event is yielded twice for a nonce, every event is for a nonce of
/// the run, and there are never more events than transactions to send.
pub proof fn lemma_emitted_distinct_and_in_range(v: InscriberView)
    requires
        v.wf(),
    ensures
        v.emitted.no_duplicates(),
        v.emitted.len() <= v.max_transactions,
        forall|i: int|
            0 <= i < v.emitted.len() ==> v.first_nonce <= #[trigger] v.emitted[i] < v.first_nonce
                + v.max_transactions,
{
    assert forall|i: int| 0 <= i < v.emitted.len() implies v.first_nonce <= #[trigger] v.emitted[i]
        < v.first_nonce + v.max_transactions by {
        assert(v.emitted.contains(v.emitted[i]));
    }
}

/// A run is over exactly when it has yielded as many events as there were
/// transactions to send.
pub proof fn lemma_done_iff_all_emitted(v: InscriberView)
    requires
        v.wf(),
    ensures
        v.done() <==> v.emitted.len() == v.max_transactions,
{
}

/// From its first state a run yields, for a target of `N` transactions,
/// events with pairwise different nonces, all of them among the `N` nonces
/// from the first one on, never more than `N`, and exactly `N` once it is
/// over.
pub proof fn lemma_run_yields_each_nonce_once(
    sender: Seq<u8>,
    chain_id: u64,
    calldata: Seq<u8>,
    nonce: u64,
    max_transactions: u64,
    concurrency: u64,
    polls: Seq<Resolution>,
)
    requires
        1 <= max_transactions,
        1 <= concurrency,
        nonce + max_transactions <= u64::MAX,
        InscriberView::initial(
            sender,
            chain_id,
            calldata,
            nonce,
            max_transactions,
            concurrency,
        ).admits_all(polls),
    ensures
        ({
            let start = InscriberView::initial(
                sender,
                chain_id,
                calldata,
                nonce,
                max_transactions,
                concurrency,
            );
            let events = start.events(polls);
            &&& events.no_duplicates()
            &&& events.len() <= max_transactions
            &&& forall|i: int| 0 <= i < events.len() ==> nonce <= #[trigger] events[i] < nonce + max_transactions
            &&& start.after(polls).done() <==> events.len() == max_transactions
        }),
{
    let start = InscriberView::initial(
        sender,
        chain_id,
        calldata,
        nonce,
        max_transactions,
        concurrency,
    );
    lemma_run_wf(start, polls);
    lemma_run_keeps_settings(start, polls);
    lemma_run_records_events(start, polls);
    lemma_emitted_distinct_and_in_range(start.after(polls));
}

/// The request that stands for a nonce never changes in a run: an attempt
/// that did not confirm is made again, at whatever point of the run, with
/// the request with which the nonce was first sent.
pub proof fn lemma_retry_repeats_request(v: InscriberView, polls: Seq<Resolution>, nonce: u64)
    ensures
        v.after(polls).request(nonce) == v.request(nonce),
        v.after(polls).submitted(Resolution::Unconfirmed(nonce))[0] == v.request(nonce),
        v.request(nonce).nonce == nonce,
{
    lemma_run_keeps_settings(v, polls);
}

/// A poll that allocates nonces hands out, for each of them, the request
/// that stands for it, in the order of allocation.
pub proof fn lemma_fresh_requests(v: InscriberView, i: int)
    requires
        v.wf(),
        0 <= i < v.room(),
    ensures
        v.submitted(Resolution::Nothing)[i] == v.request(v.fresh()[i]),
        v.submitted(Resolution::Nothing)[i].nonce == v.highest_nonce() + i,
        v.submitted(Resolution::Nothing).len() == v.room(),
{
}

/// Whether some poll of a series resolved a confirmation.
pub open spec fn confirms(polls: Seq<Resolution>) -> bool {
    exists|i: int| 0 <= i < polls.len() && #[trigger] polls[i] is Confirmed
}

/// A run in which no attempt ever confirms is never over.
pub proof fn lemma_never_done_without_confirmation(v: InscriberView, polls: Seq<Resolution>)
    requires
        v.wf(),
        !v.done(),
        v.admits_all(polls),
        !confirms(polls),
    ensures
        !v.after(polls).done(),
    decreases polls.len(),
{
    if polls.len() > 0 {
        let rest = polls.drop_last();
        lemma_never_done_without_confirmation(v, rest);
        lemma_run_wf(v, rest);
        lemma_filled_wf(v.after(rest));
    }
}

} // verus!
