use scavenger_miner::challenge::Challenge;
use scavenger_miner::preimage::{build_preimage, nonce_hex};

fn sample_challenge() -> Challenge {
    Challenge::new(
        "c1".to_string(),
        3,
        7,
        "00ffffffff".to_string(),
        "seedA".to_string(),
        "ls1".to_string(),
        "h1".to_string(),
    )
}

#[test]
fn nonce_text_is_sixteen_lowercase_digits() {
    assert_eq!(nonce_hex(0), "0000000000000000");
    assert_eq!(nonce_hex(0xdeadbeef), "00000000deadbeef");
    assert_eq!(nonce_hex(u64::MAX), "ffffffffffffffff");
    assert_eq!(nonce_hex(0x0123456789abcdef), "0123456789abcdef");
}

#[test]
fn preimage_concatenates_fields_in_order() {
    let c = sample_challenge();
    let p = build_preimage(&nonce_hex(0), "addrX", &c);
    assert_eq!(p, "0000000000000000addrXc100ffffffffseedAls1h1");
}

#[test]
fn preimage_is_deterministic() {
    let c = sample_challenge();
    let c2 = c.clone();
    let a = build_preimage(&nonce_hex(42), "addrX", &c);
    let b = build_preimage(&nonce_hex(42), "addrX", &c2);
    assert_eq!(a.as_bytes(), b.as_bytes());
    assert_eq!(&a[..16], "000000000000002a");
}

#[test]
fn challenge_new_keeps_fields() {
    let c = sample_challenge();
    assert_eq!(c.challenge_id, "c1");
    assert_eq!(c.day, 3);
    assert_eq!(c.challenge_number, 7);
    assert_eq!(c.difficulty, "00ffffffff");
    assert_eq!(c.no_pre_mine, "seedA");
    assert_eq!(c.latest_submission, "ls1");
    assert_eq!(c.no_pre_mine_hour, "h1");
}
