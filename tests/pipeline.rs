use tx_simulator::{
    blocks_needed_for_balance, build_transaction, draw_jitter_permille,
    generate_random_simulated_transaction, jittered_delay_ms, screen_request,
    throughput_per_second, AccountPool, Address, Generator, Ledger, LedgerError, Monitor,
    RandomTx, Rejection, SeenIds, Submission, AMOUNT_LIMIT, COMMIT_THRESHOLD, MIN_AMOUNT,
};
use tx_simulator::{conclude_transfer, TransferOutcome, Verdict};

fn addr(name: &str) -> Address {
    Address::new(name.as_bytes().to_vec())
}

fn pool_of(n: usize) -> AccountPool {
    AccountPool::new((0..n).map(|i| addr(&format!("acct{}", i))).collect())
}

fn tx(id: u128, sender: &str, receiver: &str, amount: u64) -> RandomTx {
    RandomTx::new(id, addr(sender), addr(receiver), amount)
}

#[test]
fn accepted_transfer_updates_ledger_and_counter() {
    let pool = pool_of(10);
    let mut ledger = Ledger::seed(&vec![5_000_000_000u64; 10]);
    let mut seen = SeenIds::new();
    let mut successes: u64 = 0;
    let request = tx(7, "acct0", "acct1", 500_000_000);
    let sub = screen_request(&request, &pool, &mut seen).unwrap();
    assert_eq!(sub, Submission { unique_id: 7, sender: 0, receiver: 1, amount: 500_000_000 });
    // the settlement service reports the sender's balance net of amount and fee
    let queried = 4_499_990_000u64;
    let verdict = conclude_transfer(
        &mut ledger,
        &sub,
        TransferOutcome::Settled { sender_balance: queried },
    );
    assert_eq!(verdict, Verdict::Settled);
    if verdict == Verdict::Settled {
        successes += 1;
    }
    assert_eq!(ledger.balance_of(0), Some(queried));
    assert!(ledger.balance_of(0).unwrap() < 4_500_000_001);
    assert_eq!(ledger.balance_of(1), Some(5_500_000_000));
    for i in 2..10 {
        assert_eq!(ledger.balance_of(i), Some(5_000_000_000));
    }
    assert_eq!(successes, 1);
}

#[test]
fn sender_entry_ignores_previous_value() {
    let mut ledger = Ledger::seed(&vec![10, 20, 30]);
    let sub = Submission { unique_id: 1, sender: 2, receiver: 0, amount: 5 };
    assert_eq!(ledger.record_settlement(&sub, 999), Ok(()));
    assert_eq!(ledger.balance_of(2), Some(999));
    assert_eq!(ledger.balance_of(0), Some(15));
    assert_eq!(ledger.record_settlement(&sub, 3), Ok(()));
    assert_eq!(ledger.balance_of(2), Some(3));
    assert_eq!(ledger.balance_of(0), Some(20));
    assert_eq!(ledger.balance_of(1), Some(20));
}

#[test]
fn zero_amount_dropped_before_anything() {
    let pool = pool_of(10);
    let ledger = Ledger::seed(&vec![5_000_000_000u64; 10]);
    let mut seen = SeenIds::new();
    let request = tx(9, "acct0", "acct1", 0);
    assert_eq!(screen_request(&request, &pool, &mut seen), Err(Rejection::InvalidAmount));
    assert!(!seen.contains(9));
    for i in 0..10 {
        assert_eq!(ledger.balance_of(i), Some(5_000_000_000));
    }
}

#[test]
fn same_identifier_submitted_once() {
    let pool = pool_of(3);
    let mut seen = SeenIds::new();
    let first = tx(42, "acct0", "acct1", 10);
    let second = tx(42, "acct1", "acct2", 20);
    let outcomes = [
        screen_request(&first, &pool, &mut seen),
        screen_request(&second, &pool, &mut seen),
    ];
    assert_eq!(outcomes.iter().filter(|o| o.is_ok()).count(), 1);
    assert_eq!(outcomes[1], Err(Rejection::Duplicate));
}

#[test]
fn duplicate_detected_after_other_requests() {
    let pool = pool_of(3);
    let mut seen = SeenIds::new();
    assert!(screen_request(&tx(1, "acct0", "acct1", 5), &pool, &mut seen).is_ok());
    assert!(screen_request(&tx(2, "acct1", "acct2", 5), &pool, &mut seen).is_ok());
    assert_eq!(
        screen_request(&tx(1, "acct2", "acct0", 8), &pool, &mut seen),
        Err(Rejection::Duplicate)
    );
}

#[test]
fn unknown_participant_rejected_but_recorded() {
    let pool = pool_of(3);
    let mut seen = SeenIds::new();
    assert_eq!(
        screen_request(&tx(5, "acct0", "stranger", 5), &pool, &mut seen),
        Err(Rejection::UnknownParticipant)
    );
    assert_eq!(
        screen_request(&tx(6, "nobody", "acct1", 5), &pool, &mut seen),
        Err(Rejection::UnknownParticipant)
    );
    assert!(seen.contains(5));
    assert_eq!(
        screen_request(&tx(5, "acct0", "acct1", 5), &pool, &mut seen),
        Err(Rejection::Duplicate)
    );
}

#[test]
fn insert_if_absent_reports_first_insertion() {
    let mut seen = SeenIds::new();
    assert!(seen.insert_if_absent(3));
    assert!(!seen.insert_if_absent(3));
    assert!(seen.contains(3));
    assert!(!seen.contains(4));
}

#[test]
fn position_finds_first_match() {
    let pool = AccountPool::new(vec![addr("a"), addr("b"), addr("a")]);
    assert_eq!(pool.position(&addr("a")), Some(0));
    assert_eq!(pool.position(&addr("b")), Some(1));
    assert_eq!(pool.position(&addr("c")), None);
    assert_eq!(pool.position(&addr("")), None);
    assert_eq!(pool.len(), 3);
}

#[test]
fn address_comparison() {
    assert!(addr("abc").same_as(&addr("abc")));
    assert!(!addr("abc").same_as(&addr("abd")));
    assert!(!addr("ab").same_as(&addr("abc")));
    assert!(addr("").same_as(&addr("")));
    assert!(addr("xyz").duplicate().same_as(&addr("xyz")));
}

#[test]
fn generated_requests_are_well_formed() {
    let pool = pool_of(10);
    let mut ids = std::collections::HashSet::new();
    for _ in 0..200 {
        let r = generate_random_simulated_transaction(&pool);
        assert!(r.amount >= MIN_AMOUNT && r.amount < AMOUNT_LIMIT);
        let s = pool.position(&r.sender).unwrap();
        let d = pool.position(&r.receiver).unwrap();
        assert_ne!(s, d);
        ids.insert(r.unique_id);
    }
    assert_eq!(ids.len(), 200);
}

#[test]
fn generated_pair_covers_two_account_pool() {
    let pool = pool_of(2);
    for _ in 0..20 {
        let r = generate_random_simulated_transaction(&pool);
        assert!(!r.sender.same_as(&r.receiver));
    }
}

#[test]
fn built_transaction_uses_pool_addresses() {
    let pool = pool_of(4);
    let r = build_transaction(&pool, 3, 1, 77, 1234);
    assert!(r.sender.same_as(&addr("acct3")));
    assert!(r.receiver.same_as(&addr("acct1")));
    assert_eq!(r.amount, 77);
    assert_eq!(r.unique_id, 1234);
}

#[test]
fn jitter_scales_base_delay() {
    assert_eq!(jittered_delay_ms(300, 900), 270);
    assert_eq!(jittered_delay_ms(300, 1099), 329);
    assert_eq!(jittered_delay_ms(300, 1000), 300);
    assert_eq!(jittered_delay_ms(0, 1050), 0);
    assert_eq!(jittered_delay_ms(u64::MAX, 1099), u64::MAX);
    for _ in 0..50 {
        let p = draw_jitter_permille();
        assert!((900..1100).contains(&p));
    }
}

#[test]
fn capped_generator_stops_after_cap() {
    let mut g = Generator::new(3);
    assert!(g.try_emit());
    assert!(g.try_emit());
    assert!(g.try_emit());
    assert!(!g.try_emit());
    assert!(!g.try_emit());
    assert_eq!(g.emitted, 3);
}

#[test]
fn uncapped_generator_never_stops() {
    let mut g = Generator::new(0);
    for _ in 0..1000 {
        assert!(g.try_emit());
    }
}

#[test]
fn shutdown_after_cap_and_all_workers_finished() {
    let workers: u64 = 5;
    let mut g = Generator::new(4);
    let mut published = 0;
    while g.try_emit() {
        published += 1;
    }
    assert_eq!(published, 4);
    // the queue is released: each worker's receive times out and it finishes
    let mut monitor = Monitor::new(COMMIT_THRESHOLD);
    for finished in 0..workers {
        assert!(!monitor.observe(0, finished, workers, 10).stop);
    }
    assert!(monitor.observe(0, workers, workers, 10).stop);
}

#[test]
fn commit_after_fifty_successes() {
    let mut monitor = Monitor::new(COMMIT_THRESHOLD);
    let quiet = monitor.observe(49, 0, 5, 1000);
    assert!(quiet.report.is_none());
    assert!(!quiet.commit_batch);
    assert_eq!(quiet.window_after, 49);
    let step = monitor.observe(50, 0, 5, 2000);
    assert!(step.commit_batch);
    assert_eq!(step.window_after, 0);
    let report = step.report.unwrap();
    assert_eq!(report.total, 50);
    assert_eq!(report.per_second, Some(25));
    assert!(!step.stop);
    let next = monitor.observe(1, 0, 5, 2100);
    assert!(!next.commit_batch);
    assert_eq!(next.window_after, 1);
    assert_eq!(monitor.total, 50);
}

#[test]
fn throughput_is_cumulative() {
    let mut monitor = Monitor::new(50);
    monitor.observe(60, 0, 2, 3000);
    let step = monitor.observe(90, 0, 2, 5000);
    assert_eq!(step.report.unwrap().total, 150);
    assert_eq!(step.report.unwrap().per_second, Some(30));
}

#[test]
fn throughput_formula() {
    assert_eq!(throughput_per_second(100, 2000), Some(50));
    assert_eq!(throughput_per_second(7, 3000), Some(2));
    assert_eq!(throughput_per_second(5, 0), None);
}

#[test]
fn ledger_refuses_unknown_account() {
    let mut ledger = Ledger::seed(&vec![1, 2]);
    let sub = Submission { unique_id: 1, sender: 0, receiver: 2, amount: 1 };
    assert_eq!(ledger.record_settlement(&sub, 0), Err(LedgerError::UnknownAccount));
    assert_eq!(ledger.balance_of(0), Some(1));
    assert_eq!(ledger.balance_of(2), None);
    assert_eq!(ledger.accounts_len(), 2);
}

#[test]
fn ledger_refuses_overflow() {
    let mut ledger = Ledger::seed(&vec![1, u64::MAX - 3]);
    let sub = Submission { unique_id: 1, sender: 0, receiver: 1, amount: 4 };
    assert_eq!(ledger.record_settlement(&sub, 0), Err(LedgerError::BalanceOverflow));
    assert_eq!(ledger.balance_of(0), Some(1));
    assert_eq!(ledger.balance_of(1), Some(u64::MAX - 3));
}

#[test]
fn self_transfer_adds_to_queried_balance() {
    let mut ledger = Ledger::seed(&vec![100, 200]);
    let sub = Submission { unique_id: 1, sender: 1, receiver: 1, amount: 10 };
    assert_eq!(ledger.record_settlement(&sub, 150), Ok(()));
    assert_eq!(ledger.balance_of(1), Some(160));
}

#[test]
fn funding_block_count() {
    assert_eq!(blocks_needed_for_balance(100), 103);
    assert_eq!(blocks_needed_for_balance(0), 101);
    assert_eq!(blocks_needed_for_balance(49), 101);
}

#[test]
fn refused_transfer_leaves_ledger() {
    let mut ledger = Ledger::seed(&vec![100, 200]);
    let sub = Submission { unique_id: 1, sender: 0, receiver: 1, amount: 10 };
    assert_eq!(
        conclude_transfer(&mut ledger, &sub, TransferOutcome::Refused),
        Verdict::Dropped(Rejection::SettlementFailed)
    );
    assert_eq!(ledger.balance_of(0), Some(100));
    assert_eq!(ledger.balance_of(1), Some(200));
}

#[test]
fn settled_transfer_is_recorded() {
    let mut ledger = Ledger::seed(&vec![100, 200]);
    let sub = Submission { unique_id: 1, sender: 0, receiver: 1, amount: 10 };
    let outcome = TransferOutcome::Settled { sender_balance: 89 };
    assert_eq!(conclude_transfer(&mut ledger, &sub, outcome), Verdict::Settled);
    assert_eq!(ledger.balance_of(0), Some(89));
    assert_eq!(ledger.balance_of(1), Some(210));
    let far = Submission { unique_id: 2, sender: 0, receiver: 5, amount: 10 };
    assert_eq!(
        conclude_transfer(&mut ledger, &far, outcome),
        Verdict::SettledUnrecorded(LedgerError::UnknownAccount)
    );
}
