use inscribememaybe::{
    Address, ConfigError, Inscriber, InscriptionEvent, InscriptionResult, Outcome, Phase, Poll,
    TransactionRequest, GAS_LIMIT,
};
use std::collections::VecDeque;

const PAYLOAD: &[u8] = b"data:,{\"p\":\"fair-20\",\"op\":\"mint\",\"tick\":\"brr\",\"amt\":\"1000\"}";

fn sender() -> Address {
    let mut bytes = [0u8; 20];
    bytes[0] = 0xab;
    bytes[19] = 0x01;
    Address(bytes)
}

fn inscriber(nonce: u64, transactions: u64, concurrency: u64) -> Inscriber {
    Inscriber::new(sender(), 5, PAYLOAD, nonce, transactions, concurrency).unwrap()
}

fn request(nonce: u64) -> TransactionRequest {
    TransactionRequest { to: sender(), value: 0, gas: 22200, nonce, data: PAYLOAD.to_vec() }
}

fn attempts_of(nonce: u64, submitted: &[TransactionRequest]) -> usize {
    submitted.iter().filter(|tx| tx.nonce == nonce).count()
}

/// What a run against a scripted chain has shown.
struct Run {
    /// every request handed out, in order
    submitted: Vec<TransactionRequest>,
    /// the nonce and the receipt of every event, in order
    events: Vec<(u64, u64)>,
    /// the most attempts that were in flight at a time
    most_in_flight: usize,
    /// whether the stream ended within the allowed number of polls
    done: bool,
}

/// Drives an inscriber against a chain that resolves the attempts in the
/// order in which they were sent. `outcome` gets the nonce of the attempt
/// and how many attempts were made for that nonce before.
fn run(
    inscriber: &mut Inscriber,
    mut outcome: impl FnMut(u64, usize) -> Outcome<u64>,
    polls: usize,
) -> Run {
    let mut seen =
        Run { submitted: Vec::new(), events: Vec::new(), most_in_flight: 0, done: false };
    let mut sent: VecDeque<u64> = VecDeque::new();
    let mut resolved = None;
    for _ in 0..polls {
        let step = inscriber.poll_next(resolved.take());
        for tx in step.submit {
            sent.push_back(tx.nonce);
            seen.submitted.push(tx);
        }
        assert_eq!(inscriber.in_flight(), sent.len());
        seen.most_in_flight = seen.most_in_flight.max(inscriber.in_flight());
        match step.poll {
            Poll::Ready(None) => {
                seen.done = true;
                break;
            }
            Poll::Ready(Some(InscriptionEvent::Mint {
                receipt,
                sender: from,
                chain_id,
                nonce,
                calldata,
            })) => {
                assert_eq!(from, sender());
                assert_eq!(chain_id, 5);
                assert_eq!(calldata, PAYLOAD);
                seen.events.push((nonce, receipt));
            }
            Poll::Pending => {
                let nonce = sent.pop_front().expect("pending only while attempts are in flight");
                let before = attempts_of(nonce, &seen.submitted) - 1;
                resolved = Some(InscriptionResult { nonce, res: outcome(nonce, before) });
            }
        }
    }
    seen
}

#[test]
fn builder_makes_the_request() {
    let tx = TransactionRequest::build(7, PAYLOAD, sender());
    assert_eq!(tx.to, sender());
    assert_eq!(tx.value, 0);
    assert_eq!(tx.gas, 22200);
    assert_eq!(tx.gas, GAS_LIMIT);
    assert_eq!(tx.nonce, 7);
    assert_eq!(tx.data, PAYLOAD);
    assert_eq!(tx, request(7));
}

#[test]
fn builder_is_idempotent() {
    let first = TransactionRequest::build(u64::MAX, PAYLOAD, sender());
    let second = TransactionRequest::build(u64::MAX, PAYLOAD, sender());
    assert_eq!(first, second);
    assert_ne!(first, TransactionRequest::build(0, PAYLOAD, sender()));
    assert_ne!(first, TransactionRequest::build(u64::MAX, b"", sender()));
    assert_ne!(first, TransactionRequest::build(u64::MAX, PAYLOAD, Address::zero()));
}

#[test]
fn new_refuses_what_cannot_run() {
    assert_eq!(
        Inscriber::new(sender(), 1, PAYLOAD, 0, 0, 1).err(),
        Some(ConfigError::NoTransactions)
    );
    assert_eq!(
        Inscriber::new(sender(), 1, PAYLOAD, 0, 0, 0).err(),
        Some(ConfigError::NoTransactions)
    );
    assert_eq!(
        Inscriber::new(sender(), 1, PAYLOAD, 0, 1, 0).err(),
        Some(ConfigError::NoConcurrency)
    );
    assert_eq!(
        Inscriber::new(sender(), 1, PAYLOAD, u64::MAX, 1, 1).err(),
        Some(ConfigError::NonceOverflow)
    );
    assert_eq!(
        Inscriber::new(sender(), 1, PAYLOAD, 1, u64::MAX, 1).err(),
        Some(ConfigError::NonceOverflow)
    );
    assert!(Inscriber::new(sender(), 1, PAYLOAD, u64::MAX - 1, 1, 1).is_ok());
    assert!(Inscriber::new(sender(), 1, PAYLOAD, 0, u64::MAX, u64::MAX).is_ok());
}

#[test]
fn a_new_inscriber_has_allocated_nothing() {
    let fresh = inscriber(9, 3, 2);
    assert_eq!(fresh.count(), 0);
    assert_eq!(fresh.highest_nonce(), 9);
    assert_eq!(fresh.in_flight(), 0);
    assert!(!fresh.is_done());
    assert_eq!(fresh.phase(), Phase::Filling);
    assert_eq!(fresh.next_transaction(), request(9));
    assert_eq!(fresh.sender(), sender());
    assert_eq!(fresh.chain_id(), 5);
    assert_eq!(fresh.calldata(), PAYLOAD);
    assert_eq!(fresh.max_transactions(), 3);
    assert_eq!(fresh.concurrency(), 2);
}

#[test]
fn one_transaction_that_fails_once() {
    let n = 41;
    let mut inscriber = inscriber(n, 1, 1);
    let seen = run(
        &mut inscriber,
        |_, before| if before == 0 { Outcome::Failed("timeout".to_string()) } else {
            Outcome::Confirmed(700)
        },
        100,
    );
    assert!(seen.done);
    assert_eq!(seen.events, vec![(n, 700)]);
    assert_eq!(seen.submitted, vec![request(n), request(n)]);
    assert_eq!(inscriber.count(), 1);
    assert_eq!(inscriber.highest_nonce(), n + 1);
    assert_eq!(inscriber.in_flight(), 0);
    assert!(inscriber.is_done());
    assert_eq!(inscriber.phase(), Phase::Done);
}

#[test]
fn five_transactions_two_at_a_time() {
    let n = 1000;
    let mut inscriber = inscriber(n, 5, 2);
    let seen = run(&mut inscriber, |nonce, _| Outcome::Confirmed(nonce * 2), 100);
    assert!(seen.done);
    assert_eq!(seen.most_in_flight, 2);
    assert_eq!(
        seen.submitted,
        vec![request(n), request(n + 1), request(n + 2), request(n + 3), request(n + 4)]
    );
    assert_eq!(
        seen.events,
        vec![(n, 2 * n), (n + 1, 2 * n + 2), (n + 2, 2 * n + 4), (n + 3, 2 * n + 6), (n + 4, 2 * n + 8)]
    );
    assert_eq!(inscriber.count(), 5);
    assert_eq!(inscriber.highest_nonce(), n + 5);
    assert!(inscriber.is_done());
}

#[test]
fn no_receipt_forever_never_ends() {
    let n = 3;
    let mut inscriber = inscriber(n, 3, 3);
    let seen = run(&mut inscriber, |_, _| Outcome::NoReceipt, 1000);
    assert!(!seen.done);
    assert!(seen.events.is_empty());
    assert!(!inscriber.is_done());
    assert_eq!(inscriber.phase(), Phase::Draining);
    assert_eq!(inscriber.count(), 3);
    assert_eq!(inscriber.highest_nonce(), n + 3);
    assert_eq!(inscriber.in_flight(), 3);
    assert_eq!(seen.most_in_flight, 3);
    assert_eq!(&seen.submitted[..3], &[request(n), request(n + 1), request(n + 2)]);
    assert_eq!(seen.submitted.len(), 3 + 999);
    for tx in &seen.submitted {
        assert!(n <= tx.nonce && tx.nonce < n + 3);
        assert_eq!(tx, &request(tx.nonce));
    }
}

#[test]
fn the_first_poll_fills_up_to_the_ceiling() {
    let mut inscriber = inscriber(10, 5, 3);
    let step = inscriber.poll_next::<u64>(None);
    assert_eq!(step.submit, vec![request(10), request(11), request(12)]);
    assert_eq!(step.poll, Poll::Pending);
    assert_eq!(inscriber.count(), 3);
    assert_eq!(inscriber.in_flight(), 3);
    assert!(inscriber.is_in_flight(10) && inscriber.is_in_flight(11) && inscriber.is_in_flight(12));
    assert!(!inscriber.is_in_flight(13) && !inscriber.is_in_flight(9));
    assert_eq!(inscriber.phase(), Phase::Filling);

    // nothing has resolved: nothing changes
    let again = inscriber.poll_next::<u64>(None);
    assert!(again.submit.is_empty());
    assert_eq!(again.poll, Poll::Pending);
    assert_eq!(inscriber.count(), 3);
}

#[test]
fn the_ceiling_may_exceed_the_target() {
    let mut inscriber = inscriber(0, 2, 16);
    let step = inscriber.poll_next::<u64>(None);
    assert_eq!(step.submit, vec![request(0), request(1)]);
    assert_eq!(inscriber.in_flight(), 2);
    assert_eq!(inscriber.phase(), Phase::Draining);
}

#[test]
fn a_confirmation_is_yielded_at_once_and_frees_a_slot() {
    let mut inscriber = inscriber(10, 3, 2);
    inscriber.poll_next::<u64>(None);
    let step =
        inscriber.poll_next(Some(InscriptionResult { nonce: 11, res: Outcome::Confirmed(5u64) }));
    assert!(step.submit.is_empty());
    assert_eq!(
        step.poll,
        Poll::Ready(Some(InscriptionEvent::Mint {
            receipt: 5,
            sender: sender(),
            chain_id: 5,
            nonce: 11,
            calldata: PAYLOAD.to_vec(),
        }))
    );
    assert_eq!(inscriber.in_flight(), 1);
    assert!(!inscriber.is_in_flight(11));
    assert_eq!(inscriber.count(), 2);

    // the freed slot is filled by the next poll
    let next = inscriber.poll_next::<u64>(None);
    assert_eq!(next.submit, vec![request(12)]);
    assert_eq!(next.poll, Poll::Pending);
    assert_eq!(inscriber.in_flight(), 2);
    assert_eq!(inscriber.phase(), Phase::Draining);
}

#[test]
fn an_attempt_that_did_not_confirm_is_made_again_with_the_same_request() {
    let mut inscriber = inscriber(10, 2, 2);
    let first = inscriber.poll_next::<u64>(None);
    let first_request = first.submit[1].clone();
    let retry =
        inscriber.poll_next::<u64>(Some(InscriptionResult { nonce: 11, res: Outcome::NoReceipt }));
    assert_eq!(retry.submit, vec![first_request.clone()]);
    assert_eq!(retry.poll, Poll::Pending);
    let again = inscriber.poll_next::<u64>(Some(InscriptionResult {
        nonce: 11,
        res: Outcome::Failed("nonce too low".to_string()),
    }));
    assert_eq!(again.submit, vec![first_request]);
    assert_eq!(inscriber.count(), 2);
    assert_eq!(inscriber.highest_nonce(), 12);
    assert_eq!(inscriber.in_flight(), 2);
}

#[test]
fn a_retry_and_new_nonces_in_one_poll() {
    let mut inscriber = inscriber(0, 4, 2);
    inscriber.poll_next::<u64>(None);
    inscriber.poll_next(Some(InscriptionResult { nonce: 0, res: Outcome::Confirmed(1u64) }));
    // one slot is free now; the failed attempt goes first, then the new nonce
    let step =
        inscriber.poll_next::<u64>(Some(InscriptionResult { nonce: 1, res: Outcome::NoReceipt }));
    assert_eq!(step.submit, vec![request(1), request(2)]);
    assert_eq!(step.poll, Poll::Pending);
    assert_eq!(inscriber.in_flight(), 2);
}

#[test]
fn a_result_for_a_nonce_that_is_not_in_flight_is_passed_over() {
    let mut inscriber = inscriber(10, 1, 1);
    inscriber.poll_next::<u64>(None);
    let stray =
        inscriber.poll_next(Some(InscriptionResult { nonce: 99, res: Outcome::Confirmed(1u64) }));
    assert!(stray.submit.is_empty());
    assert_eq!(stray.poll, Poll::Pending);
    assert_eq!(inscriber.in_flight(), 1);

    let confirmed =
        inscriber.poll_next(Some(InscriptionResult { nonce: 10, res: Outcome::Confirmed(2u64) }));
    assert!(matches!(confirmed.poll, Poll::Ready(Some(InscriptionEvent::Mint { nonce: 10, .. }))));

    // the same nonce cannot confirm twice
    let twice =
        inscriber.poll_next(Some(InscriptionResult { nonce: 10, res: Outcome::Confirmed(3u64) }));
    assert!(twice.submit.is_empty());
    assert_eq!(twice.poll, Poll::Ready(None));
    // and the end is stable
    assert_eq!(inscriber.poll_next::<u64>(None).poll, Poll::Ready(None));
    assert!(inscriber.is_done());
}

#[test]
fn events_come_in_the_order_of_resolution() {
    let mut inscriber = inscriber(20, 3, 3);
    inscriber.poll_next::<u64>(None);
    let mut order = Vec::new();
    for nonce in [22, 20, 21] {
        let step =
            inscriber.poll_next(Some(InscriptionResult { nonce, res: Outcome::Confirmed(nonce) }));
        match step.poll {
            Poll::Ready(Some(InscriptionEvent::Mint { nonce, .. })) => order.push(nonce),
            other => panic!("expected an event, got {:?}", other),
        }
    }
    assert_eq!(order, vec![22, 20, 21]);
    assert_eq!(inscriber.poll_next::<u64>(None).poll, Poll::Ready(None));
}

#[test]
fn every_nonce_is_confirmed_once_whatever_fails() {
    for concurrency in 1..=6u64 {
        for target in 1..=7u64 {
            let n = 500;
            let mut inscriber = inscriber(n, target, concurrency);
            // the k-th nonce fails k times before it confirms
            let seen = run(
                &mut inscriber,
                |nonce, before| if (before as u64) < nonce - n { Outcome::NoReceipt } else {
                    Outcome::Confirmed(nonce)
                },
                10_000,
            );
            assert!(seen.done);
            assert!(seen.most_in_flight as u64 <= concurrency);
            let mut nonces: Vec<u64> = seen.events.iter().map(|event| event.0).collect();
            assert_eq!(nonces.len() as u64, target);
            nonces.sort();
            assert_eq!(nonces, (n..n + target).collect::<Vec<u64>>());
            // first submissions are in strictly increasing order of nonce
            let mut firsts: Vec<u64> = Vec::new();
            for tx in &seen.submitted {
                assert_eq!(tx, &request(tx.nonce));
                if !firsts.contains(&tx.nonce) {
                    firsts.push(tx.nonce);
                }
            }
            assert_eq!(firsts, (n..n + target).collect::<Vec<u64>>());
            for k in 0..target {
                assert_eq!(attempts_of(n + k, &seen.submitted) as u64, k + 1);
            }
        }
    }
}

#[test]
fn the_last_nonce_of_the_range_can_be_used() {
    let mut inscriber = inscriber(u64::MAX - 2, 2, 2);
    let seen = run(&mut inscriber, |nonce, _| Outcome::Confirmed(nonce), 10);
    assert!(seen.done);
    assert_eq!(seen.submitted, vec![request(u64::MAX - 2), request(u64::MAX - 1)]);
    assert_eq!(inscriber.highest_nonce(), u64::MAX);
}
