//! The nonce search as a state machine. The caller asks for the next step,
//! hashes the preimage it names, and hands the digest back; the machine
//! decides whether the attempt won and which nonce comes next.
//!
//! Attempt `j` of a search uses the nonce `seed + first + j * stride`
//! (mod 2^64). A plain search has `first == 0` and `stride == 1`; worker `k`
//! of `n` shards has `first == k` and `stride == n`.

use vstd::prelude::*;
use crate::challenge::Challenge;
use crate::difficulty::{meets_difficulty, meets_difficulty_spec};
use crate::preimage::{build_preimage, nonce_hex, nonce_text, preimage_spec};

verus! {

/// The state of one search over a bounded number of attempts.
#[derive(Clone, Copy, Debug, PartialEq, Eq)]
pub struct Search {
    /// Start of the nonce range.
    pub seed: u64,
    /// Offset from the seed of the first attempt.
    pub first: u64,
    /// Distance between the offsets of successive attempts.
    pub stride: u64,
    /// Attempt budget.
    pub max_iterations: u64,
    /// Attempts completed so far.
    pub attempts: u64,
    /// The winning nonce, once one has been found.
    pub found: Option<u64>,
}

/// What the caller does next.
#[derive(Clone, Debug, PartialEq, Eq)]
pub enum Step {
    /// Hash `preimage` and hand the digest to `record_digest`.
    Attempt { nonce: u64, preimage: String },
    /// The search is over: `nonce_hex` is the winning nonce as text.
    Found { nonce: u64, nonce_hex: String },
    /// The budget is spent without a win.
    Exhausted,
}

/// The number of distinct 64-bit nonces.
pub open spec fn nonce_space() -> int {
    0x1_0000_0000_0000_0000
}

/// The nonce at `offset` from `seed`, wrapping.
pub open spec fn offset_nonce(seed: u64, offset: int) -> u64 {
    ((seed + offset) % nonce_space()) as u64
}

/// The offset from the seed of attempt `j`.
pub open spec fn attempt_offset(s: Search, j: int) -> int {
    s.first + j * s.stride
}

/// The nonce of attempt `j`.
pub open spec fn attempt_nonce(s: Search, j: int) -> u64 {
    offset_nonce(s.seed, attempt_offset(s, j))
}

/// Whether the search still has attempts to make.
pub open spec fn searching(s: Search) -> bool {
    s.found is None && s.attempts < s.max_iterations
}

/// The state after the digest of the current attempt is handed back; a
/// search that is over ignores it.
pub open spec fn after_digest(s: Search, digest: Seq<u8>, difficulty: Seq<char>) -> Search {
    if searching(s) {
        Search {
            attempts: (s.attempts + 1) as u64,
            found: if meets_difficulty_spec(digest, difficulty) {
                Some(attempt_nonce(s, s.attempts as int))
            } else {
                None
            },
            ..s
        }
    } else {
        s
    }
}

/// A fresh plain search.
pub open spec fn initial_search(seed: u64, max_iterations: u64) -> Search {
    Search { seed, first: 0, stride: 1, max_iterations, attempts: 0, found: None }
}

/// A fresh search for worker `k` of `workers` over the offsets `0 .. n`.
pub open spec fn shard_search(seed: u64, k: u64, workers: u64, n: u64) -> Search {
    Search {
        seed,
        first: k,
        stride: workers,
        max_iterations: shard_budget(k as int, workers as int, n as int) as u64,
        attempts: 0,
        found: None,
    }
}

/// The number of offsets in `0 .. n` that worker `k` of `workers` visits.
pub open spec fn shard_budget(k: int, workers: int, n: int) -> int {
    if k < n {
        (n - 1 - k) / workers + 1
    } else {
        0
    }
}

impl Search {
    /// A search of `max_iterations` attempts whose nonces run `seed, seed + 1, ...`.
    pub fn new(seed: u64, max_iterations: u64) -> (s: Search)
        ensures
            s == initial_search(seed, max_iterations),
    {
        Search { seed, first: 0, stride: 1, max_iterations, attempts: 0, found: None }
    }

    /// Worker `worker` of `workers` over the offsets `0 .. max_iterations`
    /// from `seed`: it visits the offsets `worker, worker + workers, ...`
    /// below `max_iterations`.
    pub fn shard(seed: u64, worker: u64, workers: u64, max_iterations: u64) -> (s: Search)
        requires
            worker < workers,
        ensures
            s == shard_search(seed, worker, workers, max_iterations),
    {
        let budget: u64 = if worker < max_iterations {
            (max_iterations - 1 - worker) / workers + 1
        } else {
            0
        };
        Search {
            seed,
            first: worker,
            stride: workers,
            max_iterations: budget,
            attempts: 0,
            found: None,
        }
    }

    /// The nonce of the current attempt.
    pub fn current_nonce(&self) -> (r: u64)
        ensures
            r == attempt_nonce(*self, self.attempts as int),
    {
        let j = self.attempts as u128;
        let stride = self.stride as u128;
        assert(j * stride <= 0xffff_ffff_ffff_ffff * 0xffff_ffff_ffff_ffff) by (nonlinear_arith)
            requires
                j <= 0xffff_ffff_ffff_ffff,
                stride <= 0xffff_ffff_ffff_ffff,
        ;
        let offset: u128 = self.first as u128 + j * stride;
        ((self.seed as u128 + offset) % 0x1_0000_0000_0000_0000u128) as u64
    }

    /// What the caller does next: hash the preimage of the current attempt,
    /// report the winning nonce, or stop on a spent budget.
    pub fn next_step(&self, address: &str, challenge: &Challenge) -> (r: Step)
        ensures
            self.found matches Some(n) ==> (r matches Step::Found { nonce, nonce_hex } && nonce == n
                && nonce_hex@ == nonce_text(n)),
            searching(*self) ==> (r matches Step::Attempt { nonce, preimage } && nonce
                == attempt_nonce(*self, self.attempts as int) && preimage@ == preimage_spec(
                nonce_text(nonce),
                address@,
                *challenge,
            )),
            self.found is None && !searching(*self) ==> r is Exhausted,
    {
        match self.found {
            Some(n) => Step::Found { nonce: n, nonce_hex: nonce_hex(n) },
            None => {
                if self.attempts < self.max_iterations {
                    let nonce = self.current_nonce();
                    let text = nonce_hex(nonce);
                    let preimage = build_preimage(text.as_str(), address, challenge);
                    Step::Attempt { nonce, preimage }
                } else {
                    Step::Exhausted
                }
            },
        }
    }

    /// Takes the digest of the current attempt's preimage: the attempt wins
    /// when the digest meets `difficulty`. A search that is over is left as it is.
    pub fn record_digest(&mut self, digest: &[u8], difficulty: &str)
        ensures
            *final(self) == after_digest(*old(self), digest@, difficulty@),
    {
        if self.found.is_none() && self.attempts < self.max_iterations {
            if meets_difficulty(digest, difficulty) {
                self.found = Some(self.current_nonce());
            }
            self.attempts = self.attempts + 1;
        }
    }

    /// The winning nonce as text, if the search found one.
    pub fn result(&self) -> (r: Option<String>)
        ensures
            self.found is None ==> r is None,
            self.found matches Some(n) ==> (r matches Some(t) && t@ == nonce_text(n)),
    {
        match self.found {
            Some(n) => Some(nonce_hex(n)),
            None => None,
        }
    }
}

} // verus!
