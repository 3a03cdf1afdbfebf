use pos_miner::digest::{build_preimage, nonce_digest};
use pos_miner::miner::{Attempt, POS};

const BLOCK_HASH: [u8; 8] = [1, 2, 3, 4, 5, 6, 7, 8];

/// Repeats attempts until one finds a nonce or sees the flag set.
fn search(p: &POS, block_hash: &[u8]) -> Option<u64> {
    loop {
        match p.attempt(block_hash) {
            Attempt::Cancelled => return None,
            Attempt::Found(n) => return Some(n),
            Attempt::Missed(_) => {}
        }
    }
}

#[test]
fn mint() {
    let p = POS::new(2, 0);
    let block_hash = vec![1, 2, 3, 4, 5, 6, 7, 8];
    let nonce = search(&p, &block_hash).unwrap();
    assert!(p.check_nonce(&block_hash, nonce));
}

#[test]
fn interrupt() {
    let p = POS::new(2, 1);
    let block_hash = vec![1, 2, 3, 4, 5, 6, 7, 8];
    p.interrupt();
    assert_eq!(search(&p, &block_hash), None);
}

#[test]
fn interrupt_twice_stays_set() {
    let p = POS::new(2, 0);
    assert!(!p.is_interrupted());
    p.interrupt();
    p.interrupt();
    assert!(p.is_interrupted());
    assert!(matches!(p.attempt(&BLOCK_HASH), Attempt::Cancelled));
}

#[test]
fn clones_share_the_flag() {
    let p = POS::new(2, 0);
    let q = p.clone();
    q.interrupt();
    assert!(p.is_interrupted());
    assert_eq!(search(&p, &BLOCK_HASH), None);
}

#[test]
fn attempts_judge_their_nonce() {
    let p = POS::new(3, 0);
    for _ in 0..50 {
        match p.attempt(&BLOCK_HASH) {
            Attempt::Found(n) => assert!(p.check_nonce(&BLOCK_HASH, n)),
            Attempt::Missed(n) => assert!(!p.check_nonce(&BLOCK_HASH, n)),
            Attempt::Cancelled => panic!("not interrupted"),
        }
    }
}

#[test]
fn delay_is_kept() {
    assert_eq!(POS::new(2, 1).delay(), 1);
    assert_eq!(POS::new(2, 0).delay(), 0);
}

#[test]
fn preimage_is_big_endian_nonce_then_fingerprint() {
    let bytes = build_preimage(0x0102_0304_0506_0708, &[9, 10]);
    assert_eq!(bytes, vec![1, 2, 3, 4, 5, 6, 7, 8, 9, 10]);
    assert_eq!(build_preimage(u64::MAX, &[]), vec![0xff; 8]);
}

#[test]
fn digest_is_blake2b_of_preimage() {
    let d = nonce_digest(0, &BLOCK_HASH);
    let expected = "3bbd1b4fbb75968b2f0b63ec299128296efb49a8778febb62ae224863483c2a3\
                    f4eb585e437d3524c01449208d6600afcc46ad81d790f98e13552f694098f149";
    let hex: String = d.iter().map(|b| format!("{:02x}", b)).collect();
    assert_eq!(hex, expected);
}

#[test]
fn check_nonce_reads_the_digest_not_the_nonce() {
    // the digest for u64::MAX starts with 0x36: two leading zero bits,
    // while the nonce's own first byte is 0xff
    let p = POS::new(1, 0);
    assert!(p.check_nonce(&BLOCK_HASH, u64::MAX));
    let q = POS::new(2, 0);
    assert!(!q.check_nonce(&BLOCK_HASH, u64::MAX));
}

#[test]
fn check_nonce_boundaries() {
    // nonce 0: digest starts 0x3b, two leading zero bits
    assert!(POS::new(0, 0).check_nonce(&BLOCK_HASH, 0));
    assert!(POS::new(1, 0).check_nonce(&BLOCK_HASH, 0));
    assert!(!POS::new(2, 0).check_nonce(&BLOCK_HASH, 0));
    // nonce 1: digest starts 0x87, top bit set
    assert!(!POS::new(0, 0).check_nonce(&BLOCK_HASH, 1));
    // nonce 89: digest starts 0x00 0xd8, exactly eight zero bits
    assert!(POS::new(8, 0).check_nonce(&BLOCK_HASH, 89));
    assert!(!POS::new(9, 0).check_nonce(&BLOCK_HASH, 89));
}

#[test]
fn check_nonce_repeats() {
    let p = POS::new(2, 0);
    for n in 0..20u64 {
        assert_eq!(p.check_nonce(&BLOCK_HASH, n), p.check_nonce(&BLOCK_HASH, n));
    }
}

#[test]
fn step_on_set_flag_is_cancelled() {
    let p = POS::new(0, 0);
    assert!(matches!(p.step(&BLOCK_HASH, true), Attempt::Cancelled));
}

#[test]
fn step_on_clear_flag_draws_and_judges() {
    let p = POS::new(2, 0);
    for _ in 0..20 {
        match p.step(&BLOCK_HASH, false) {
            Attempt::Found(n) => assert!(p.check_nonce(&BLOCK_HASH, n)),
            Attempt::Missed(n) => assert!(!p.check_nonce(&BLOCK_HASH, n)),
            Attempt::Cancelled => panic!("flag read clear"),
        }
    }
}

#[test]
fn judge_gives_the_nonce_back() {
    // nonce 0: digest starts 0x3b, two leading zero bits
    assert!(matches!(POS::new(1, 0).judge(&BLOCK_HASH, 0), Attempt::Found(0)));
    assert!(matches!(POS::new(2, 0).judge(&BLOCK_HASH, 0), Attempt::Missed(0)));
    assert!(matches!(POS::new(0, 0).judge(&BLOCK_HASH, 89), Attempt::Found(89)));
}

#[test]
fn digest_is_sixty_four_bytes() {
    assert_eq!(nonce_digest(7, &[]).len(), 64);
    assert_eq!(nonce_digest(7, &[0u8; 300]).len(), 64);
}
