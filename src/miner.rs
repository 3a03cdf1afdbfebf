//! The miner handle: a difficulty, a pause between attempts, and a
//! cancellation flag shared by every clone of the handle.

use vstd::prelude::*;
use std::sync::Arc;
use parking_lot::RwLock;
use crate::difficulty::{digest_meets_target, lemma_target_zero};
use crate::digest::{blake2b_of, nonce_digest, nonce_meets, preimage};

verus! {

/// parking_lot's `RwLock<T>` is lock_api's `RwLock<RawRwLock, T>`; held
/// opaquely, only through the wrappers below.
#[verifier::external_type_specification]
#[verifier::external_body]
#[verifier::reject_recursive_types(R)]
#[verifier::reject_recursive_types(T)]
pub struct ExRwLock<R, T: ?Sized>(parking_lot::lock_api::RwLock<R, T>);

/// parking_lot's raw reader-writer lock, the lock inside `RwLock`.
#[verifier::external_type_specification]
#[verifier::external_body]
pub struct ExRawRwLock(parking_lot::RawRwLock);

/// Relies on rand::random: a value drawn from the thread-local generator,
/// uniform over all of `u64` for that type; nothing is promised of it.
pub assume_specification<T>[ rand::random::<T> ]() -> (r: T)
    where
        rand::distributions::Standard: rand::distributions::Distribution<T>,
;

/// Relies on lock_api::RwLock::new (parking_lot's `RwLock`): an unlocked
/// lock holding `v`.
#[verifier::external_body]
fn new_flag(v: bool) -> RwLock<bool> {
    RwLock::new(v)
}

/// Relies on lock_api::RwLock::read: takes shared access, reads the flag and
/// releases the access.
#[verifier::external_body]
fn read_flag(flag: &RwLock<bool>) -> bool {
    *flag.read()
}

/// Relies on lock_api::RwLock::write: takes exclusive access, stores `v` in
/// the flag and releases the access.
#[verifier::external_body]
fn store_flag(flag: &RwLock<bool>, v: bool) {
    *flag.write() = v;
}

/// The outcome of one search attempt.
pub enum Attempt {
    /// The flag was found set; no nonce was drawn.
    Cancelled,
    /// The drawn nonce meets the difficulty.
    Found(u64),
    /// The drawn nonce falls short of the difficulty.
    Missed(u64),
}

/// A miner: searches for nonces whose digest against a fingerprint shows
/// more leading zero bits than its target, until interrupted.
#[derive(Clone)]
pub struct POS {
    target: usize,
    delay: u64,
    is_interrupt: Arc<RwLock<bool>>,
}

impl POS {
    /// The difficulty: the number of leading zero bits a digest must exceed.
    pub closed spec fn difficulty(&self) -> nat {
        self.target as nat
    }

    /// The pause after a missed attempt, in seconds.
    pub closed spec fn delay_secs(&self) -> nat {
        self.delay as nat
    }

    /// A miner with the given difficulty and pause, not interrupted.
    pub fn new(target: usize, delay: u64) -> (r: POS)
        ensures
            r.difficulty() == target,
            r.delay_secs() == delay,
    {
        POS { target, delay, is_interrupt: Arc::new(new_flag(false)) }
    }

    /// The pause after a missed attempt, in seconds.
    pub fn delay(&self) -> (r: u64)
        ensures
            r == self.delay_secs(),
    {
        self.delay
    }

    /// Whether `nonce` meets this miner's difficulty against `block_hash`.
    /// At difficulty zero that is whether the digest's first byte has its
    /// top bit clear.
    pub fn check_nonce(&self, block_hash: &[u8], nonce: u64) -> (r: bool)
        ensures
            r == nonce_meets(block_hash@, nonce, self.difficulty()),
            self.difficulty() == 0 ==> (r == (blake2b_of(preimage(nonce, block_hash@))[0] < 128)),
    {
        let hash = nonce_digest(nonce, block_hash);
        proof {
            lemma_target_zero(hash@);
        }
        digest_meets_target(hash.as_slice(), self.target)
    }

    /// The outcome for a drawn `nonce`: found when it meets the difficulty
    /// against `block_hash`, missed otherwise.
    pub fn judge(&self, block_hash: &[u8], nonce: u64) -> (r: Attempt)
        ensures
            r == (if nonce_meets(block_hash@, nonce, self.difficulty()) {
                Attempt::Found(nonce)
            } else {
                Attempt::Missed(nonce)
            }),
    {
        if self.check_nonce(block_hash, nonce) {
            Attempt::Found(nonce)
        } else {
            Attempt::Missed(nonce)
        }
    }

    /// One step of the search, given what was read from the flag: cancelled
    /// when it was set; otherwise draws a nonce uniformly at random and
    /// judges it.
    pub fn step(&self, block_hash: &[u8], interrupted: bool) -> (r: Attempt)
        ensures
            interrupted ==> r is Cancelled,
            !interrupted ==> !(r is Cancelled),
            r matches Attempt::Found(n) ==> nonce_meets(block_hash@, n, self.difficulty()),
            r matches Attempt::Missed(n) ==> !nonce_meets(block_hash@, n, self.difficulty()),
    {
        if interrupted {
            return Attempt::Cancelled;
        }
        let nonce: u64 = rand::random::<u64>();
        self.judge(block_hash, nonce)
    }

    /// One step of the search: reads the flag once and takes `step` on what
    /// was read.
    pub fn attempt(&self, block_hash: &[u8]) -> (r: Attempt)
        ensures
            r matches Attempt::Found(n) ==> nonce_meets(block_hash@, n, self.difficulty()),
            r matches Attempt::Missed(n) ==> !nonce_meets(block_hash@, n, self.difficulty()),
    {
        let interrupted = self.is_interrupted();
        self.step(block_hash, interrupted)
    }

    /// Whether this miner, or any clone of it, has been interrupted.
    pub fn is_interrupted(&self) -> bool {
        read_flag(&self.is_interrupt)
    }

    /// Sets the flag shared with every clone; setting it again changes
    /// nothing, and it is never cleared.
    pub fn interrupt(&self) {
        store_flag(&self.is_interrupt, true);
    }
}

} // verus!
