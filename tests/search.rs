use scavenger_miner::challenge::Challenge;
use scavenger_miner::preimage::{build_preimage, nonce_hex};
use scavenger_miner::search::{Search, Step};

fn challenge(difficulty: &str) -> Challenge {
    Challenge::new(
        "c1".to_string(),
        1,
        1,
        difficulty.to_string(),
        "seedA".to_string(),
        "ls1".to_string(),
        "h1".to_string(),
    )
}

/// Drives a search to its end with `oracle`, returning the result and the
/// nonces it asked to hash, in order.
fn drive(mut s: Search, address: &str, c: &Challenge, oracle: impl Fn(&str) -> Vec<u8>) -> (Option<String>, Vec<u64>) {
    let mut visited = Vec::new();
    loop {
        match s.next_step(address, c) {
            Step::Attempt { nonce, preimage } => {
                visited.push(nonce);
                let digest = oracle(&preimage);
                s.record_digest(&digest, &c.difficulty);
            }
            Step::Found { nonce, nonce_hex: text } => {
                assert_eq!(text, nonce_hex(nonce));
                assert_eq!(s.result(), Some(text.clone()));
                return (Some(text), visited);
            }
            Step::Exhausted => {
                assert_eq!(s.result(), None);
                return (None, visited);
            }
        }
    }
}

#[test]
fn first_attempt_wins_with_zero_digest() {
    let c = challenge("00ffffffff");
    let s = Search::new(0, 1000);
    let expected = "0000000000000000addrXc100ffffffffseedAls1h1";
    match s.next_step("addrX", &c) {
        Step::Attempt { nonce, preimage } => {
            assert_eq!(nonce, 0);
            assert_eq!(preimage, expected);
        }
        other => panic!("unexpected step {:?}", other),
    }
    let (result, visited) = drive(s, "addrX", &c, |p| {
        if p == expected { vec![0u8; 64] } else { vec![0xffu8; 64] }
    });
    assert_eq!(result, Some("0000000000000000".to_string()));
    assert_eq!(visited, vec![0]);
}

#[test]
fn zero_budget_is_exhausted_at_once() {
    let c = challenge("00ffffffff");
    let s = Search::new(12345, 0);
    assert_eq!(s.next_step("addrX", &c), Step::Exhausted);
    let (result, visited) = drive(s, "addrX", &c, |_| panic!("the oracle must not be consulted"));
    assert_eq!(result, None);
    assert!(visited.is_empty());
}

#[test]
fn nonces_run_consecutively_and_wrap() {
    let c = challenge("00ffffffff");
    let s = Search::new(u64::MAX - 1, 4);
    let (result, visited) = drive(s, "addrX", &c, |_| vec![0xffu8; 64]);
    assert_eq!(result, None);
    assert_eq!(visited, vec![u64::MAX - 1, u64::MAX, 0, 1]);
}

#[test]
fn search_stops_at_first_winner() {
    let c = challenge("00ffffffff");
    let s = Search::new(100, 50);
    let winners = [nonce_hex(107), nonce_hex(110)];
    let (result, visited) = drive(s, "addrX", &c, |p| {
        if winners.iter().any(|w| p.starts_with(w.as_str())) { vec![0u8; 64] } else { vec![0xffu8; 64] }
    });
    assert_eq!(result, Some(nonce_hex(107)));
    assert_eq!(visited, (100..=107).collect::<Vec<u64>>());
}

#[test]
fn record_digest_after_the_end_changes_nothing() {
    let mut s = Search::new(5, 1);
    s.record_digest(&[0xff; 64], "00ffffffff");
    let before = s;
    s.record_digest(&[0x00; 64], "00ffffffff");
    assert_eq!(s, before);
    assert_eq!(s.attempts, 1);
    assert_eq!(s.found, None);
}

#[test]
fn winning_digest_records_current_nonce() {
    let mut s = Search::new(9, 3);
    s.record_digest(&[0xff; 64], "00ffffffff");
    assert_eq!(s.current_nonce(), 10);
    s.record_digest(&[0x00; 64], "00ffffffff");
    assert_eq!(s.found, Some(10));
    assert_eq!(s.attempts, 2);
}

#[test]
fn shards_find_the_sequential_winner() {
    let c = challenge("00ffffffff");
    let seed = u64::MAX - 3;
    let n = 20u64;
    let wins = |p: &str| {
        let good = [seed.wrapping_add(13), seed.wrapping_add(17), seed.wrapping_add(5)];
        good.iter().any(|g| p.starts_with(nonce_hex(*g).as_str()))
    };
    let oracle = |p: &str| if wins(p) { vec![0u8; 64] } else { vec![0xffu8; 64] };
    let (sequential, _) = drive(Search::new(seed, n), "addrX", &c, oracle);
    assert_eq!(sequential, Some(nonce_hex(seed.wrapping_add(5))));
    for workers in 1..=6u64 {
        let mut best: Option<(u64, String)> = None;
        for k in 0..workers {
            let sh = Search::shard(seed, k, workers, n);
            let (found, _) = drive(sh, "addrX", &c, oracle);
            if let Some(text) = found {
                let nonce = u64::from_str_radix(&text, 16).unwrap();
                let offset = nonce.wrapping_sub(seed);
                if best.as_ref().map_or(true, |(o, _)| offset < *o) {
                    best = Some((offset, text));
                }
            }
        }
        assert_eq!(best.map(|(_, t)| t), sequential);
    }
}

#[test]
fn shards_cover_the_range_once() {
    let c = challenge("00ffffffff");
    let seed = 1000u64;
    let n = 11u64;
    let mut all = Vec::new();
    for k in 0..3u64 {
        let (_, visited) = drive(Search::shard(seed, k, 3, n), "addrX", &c, |_| vec![0xff; 64]);
        all.extend(visited);
    }
    all.sort();
    assert_eq!(all, (1000..1011).collect::<Vec<u64>>());
    assert_eq!(Search::shard(seed, 4, 5, 3).max_iterations, 0);
}

#[test]
fn malformed_difficulty_exhausts() {
    let c = challenge("xyz");
    let (result, visited) = drive(Search::new(0, 5), "addrX", &c, |_| vec![0u8; 64]);
    assert_eq!(result, None);
    assert_eq!(visited.len(), 5);
}

#[test]
fn preimage_of_attempt_matches_encoder() {
    let c = challenge("0000ffff");
    let s = Search::new(0xabc, 2);
    match s.next_step("me", &c) {
        Step::Attempt { preimage, .. } => assert_eq!(preimage, build_preimage("0000000000000abc", "me", &c)),
        other => panic!("unexpected step {:?}", other),
    }
}
