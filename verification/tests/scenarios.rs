use tx_pipeline::batch::PoolConfig;
use tx_pipeline::batch::generate;
use tx_pipeline::bulk::BulkRun;
use tx_pipeline::bulk::Outcome;
use tx_pipeline::stream::StreamConfig;
use tx_pipeline::stream::StreamEngine;
use tx_pipeline::tx::ACCOUNT_ID_LEN;

#[test]
fn streaming_pacing_and_recovery() {
    // Tracker at nonce 5, streaming batch size 3.
    let cfg = StreamConfig { batch_size: 3, sleep_secs: 6 };
    let mut engine = StreamEngine::new(cfg, 5);
    let dest = vec![1u8; ACCOUNT_ID_LEN];

    // Three consecutive accepted submissions advance the nonce to 8 and
    // trigger exactly one pacing sleep, after the third.
    let mut pacing_sleeps = 0;
    for expected_nonce in 5..8u64 {
        let tx = engine.build_next(&dest, 1).unwrap();
        assert_eq!(tx.nonce, expected_nonce);
        let pace = engine.note_accepted();
        if pace {
            pacing_sleeps += 1;
        }
        assert_eq!(pace, expected_nonce == 7);
    }
    assert_eq!(pacing_sleeps, 1);
    assert_eq!(engine.current_nonce(), 8);

    // The fourth attempt (nonce 8) is rejected; after one backoff sleep and
    // one resync query the node reports authoritative nonce 9 — the
    // transaction at nonce 8 landed on-chain despite the local error.
    let tx = engine.build_next(&dest, 1).unwrap();
    assert_eq!(tx.nonce, 8);
    assert_eq!(engine.sleep_secs(), 6);
    engine.note_rejected(9);

    // The next built transaction uses nonce 9, not local + 1 blindly.
    let tx = engine.build_next(&dest, 1).unwrap();
    assert_eq!(tx.nonce, 9);
    assert_eq!(engine.current_nonce(), 9);
}

#[test]
fn streaming_accepted_nonces_have_no_gaps() {
    let cfg = StreamConfig { batch_size: 8192, sleep_secs: 6 };
    let mut engine = StreamEngine::new(cfg, 100);
    let dest = vec![2u8; ACCOUNT_ID_LEN];
    let mut seen = Vec::new();
    for _ in 0..5 {
        let tx = engine.build_next(&dest, 1).unwrap();
        seen.push(tx.nonce);
        engine.note_accepted();
    }
    assert_eq!(seen, vec![100, 101, 102, 103, 104]);
}

#[test]
fn rejection_uses_authoritative_nonce_not_local_successor() {
    let cfg = StreamConfig { batch_size: 4, sleep_secs: 6 };
    let mut engine = StreamEngine::new(cfg, 8);
    let dest = vec![4u8; ACCOUNT_ID_LEN];
    engine.note_rejected(42);
    let tx = engine.build_next(&dest, 1).unwrap();
    assert_eq!(tx.nonce, 42);
    assert_ne!(tx.nonce, 9);
}

#[test]
fn batch_size_one_paces_after_every_accepted() {
    let cfg = StreamConfig { batch_size: 1, sleep_secs: 6 };
    let mut engine = StreamEngine::new(cfg, 0);
    for _ in 0..3 {
        assert!(engine.note_accepted());
    }
    assert_eq!(engine.current_nonce(), 3);
}

#[test]
fn bulk_rejection_does_not_abort_remainder() {
    // A bulk batch of 8190 transactions built from nonce 0; the submission
    // of element 4000 fails; elements 4001..=8189 are still submitted.
    let cfg = PoolConfig::default();
    let dest = vec![9u8; ACCOUNT_ID_LEN];
    let batch = generate(&cfg, 8190, 0, &dest, 1).unwrap();
    let mut run = BulkRun::new(batch);

    let mut index = 0u64;
    while !run.is_done() {
        let tx = run.next_transaction();
        assert_eq!(tx.nonce, index);
        let outcome = if index == 4000 { Outcome::Rejected } else { Outcome::Accepted };
        run.record(outcome);
        index += 1;
    }

    assert_eq!(run.submitted_so_far(), 8190);
    assert_eq!(run.accepted_so_far(), 8189);
    assert_eq!(run.rejected_so_far(), 1);
}
