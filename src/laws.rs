//! What holds of the search as a whole, for any hash oracle that is a pure
//! function of the preimage.

use vstd::prelude::*;
use vstd::arithmetic::div_mod::{
    lemma_fundamental_div_mod, lemma_mod_add_multiples_vanish, lemma_small_mod,
};
use crate::challenge::Challenge;
use crate::difficulty::meets_difficulty_spec;
use crate::preimage::{nonce_text, preimage_spec};
use crate::search::{
    Search, after_digest, attempt_nonce, initial_search, nonce_space, offset_nonce, searching,
    shard_budget, shard_search,
};

verus! {

/// Whether `nonce` wins under `oracle`: the digest of its preimage meets the
/// challenge's difficulty.
pub open spec fn nonce_wins(
    oracle: spec_fn(Seq<char>) -> Seq<u8>,
    address: Seq<char>,
    c: Challenge,
    nonce: u64,
) -> bool {
    meets_difficulty_spec(oracle(preimage_spec(nonce_text(nonce), address, c)), c.difficulty@)
}

/// The digest that `oracle` gives for the current attempt of `s`.
pub open spec fn attempt_digest(
    s: Search,
    oracle: spec_fn(Seq<char>) -> Seq<u8>,
    address: Seq<char>,
    c: Challenge,
) -> Seq<u8> {
    oracle(preimage_spec(nonce_text(attempt_nonce(s, s.attempts as int)), address, c))
}

/// The search driven to its end: each digest handed back is the oracle's
/// digest of the preimage that the step before named.
pub open spec fn run(
    s: Search,
    oracle: spec_fn(Seq<char>) -> Seq<u8>,
    address: Seq<char>,
    c: Challenge,
) -> Search
    decreases s.max_iterations - s.attempts,
{
    if searching(s) {
        let digest = attempt_digest(s, oracle, address, c);
        run(after_digest(s, digest, c.difficulty@), oracle, address, c)
    } else {
        s
    }
}

/// The index of the first attempt at or after `j` whose nonce wins.
pub open spec fn first_win(s: Search, wins: spec_fn(u64) -> bool, j: int) -> Option<int>
    decreases s.max_iterations - j,
{
    if j >= s.max_iterations {
        None
    } else if wins(attempt_nonce(s, j)) {
        Some(j)
    } else {
        first_win(s, wins, j + 1)
    }
}

proof fn lemma_first_win(s: Search, wins: spec_fn(u64) -> bool, j0: int)
    ensures
        first_win(s, wins, j0) matches Some(j) ==> (j0 <= j < s.max_iterations && wins(
            attempt_nonce(s, j),
        ) && forall|i: int| j0 <= i < j ==> !wins(#[trigger] attempt_nonce(s, i))),
        first_win(s, wins, j0) is None ==> forall|i: int|
            j0 <= i < s.max_iterations ==> !wins(#[trigger] attempt_nonce(s, i)),
    decreases s.max_iterations - j0,
{
    if j0 < s.max_iterations && !wins(attempt_nonce(s, j0)) {
        lemma_first_win(s, wins, j0 + 1);
    }
}

proof fn lemma_first_win_same(s: Search, t: Search, wins: spec_fn(u64) -> bool, j: int)
    requires
        s.seed == t.seed,
        s.first == t.first,
        s.stride == t.stride,
        s.max_iterations == t.max_iterations,
    ensures
        first_win(s, wins, j) == first_win(t, wins, j),
    decreases s.max_iterations - j,
{
    if j < s.max_iterations {
        lemma_first_win_same(s, t, wins, j + 1);
    }
}

proof fn lemma_first_win_is(s: Search, wins: spec_fn(u64) -> bool, j0: int, j: int)
    requires
        j0 <= j < s.max_iterations,
        wins(attempt_nonce(s, j)),
        forall|i: int| j0 <= i < j ==> !wins(#[trigger] attempt_nonce(s, i)),
    ensures
        first_win(s, wins, j0) == Some(j),
{
    lemma_first_win(s, wins, j0);
}

/// Driven with a pure oracle, a search that has found nothing yet ends with
/// the nonce of its first winning attempt, after exactly the attempts up to
/// that one; with no winning attempt it ends empty, its budget spent.
pub proof fn law_search_finds_first_win(
    s: Search,
    oracle: spec_fn(Seq<char>) -> Seq<u8>,
    address: Seq<char>,
    c: Challenge,
)
    requires
        s.found is None,
        s.attempts <= s.max_iterations,
    ensures
        ({
            let r = run(s, oracle, address, c);
            let wins = |n: u64| nonce_wins(oracle, address, c, n);
            match first_win(s, wins, s.attempts as int) {
                Some(j) => r.found == Some(attempt_nonce(s, j)) && r.attempts == j + 1,
                None => r.found is None && r.attempts == s.max_iterations,
            }
        }),
    decreases s.max_iterations - s.attempts,
{
    let wins = |n: u64| nonce_wins(oracle, address, c, n);
    if searching(s) {
        let t = after_digest(s, attempt_digest(s, oracle, address, c), c.difficulty@);
        assert(attempt_nonce(t, s.attempts as int) == attempt_nonce(s, s.attempts as int));
        if t.found is None {
            law_search_finds_first_win(t, oracle, address, c);
            lemma_first_win_same(s, t, wins, t.attempts as int);
        }
    }
}

/// A search with a budget of zero attempts is over before it starts: it
/// names no preimage, so the oracle is never consulted, and it finds nothing.
pub proof fn law_zero_budget(
    seed: u64,
    oracle: spec_fn(Seq<char>) -> Seq<u8>,
    address: Seq<char>,
    c: Challenge,
)
    ensures
        !searching(initial_search(seed, 0)),
        run(initial_search(seed, 0), oracle, address, c) == initial_search(seed, 0),
        initial_search(seed, 0).found is None,
{
}

proof fn lemma_wrap(x: int)
    requires
        0 <= x < 2 * nonce_space(),
    ensures
        x % nonce_space() == if x < nonce_space() {
            x
        } else {
            x - nonce_space()
        },
{
    if x < nonce_space() {
        lemma_small_mod(x as nat, nonce_space() as nat);
    } else {
        lemma_mod_add_multiples_vanish(x - nonce_space(), nonce_space());
        lemma_small_mod((x - nonce_space()) as nat, nonce_space() as nat);
    }
}

/// A plain search of `n` attempts from `seed` visits exactly the nonces
/// `seed, seed + 1, ..., seed + n - 1` (mod 2^64), in that order, none twice.
pub proof fn law_nonce_coverage(seed: u64, n: u64)
    ensures
        forall|j: int|
            0 <= j < n ==> #[trigger] attempt_nonce(initial_search(seed, n), j) == offset_nonce(
                seed,
                j,
            ),
        forall|i: int, j: int|
            0 <= i < j < n ==> #[trigger] attempt_nonce(initial_search(seed, n), i)
                != #[trigger] attempt_nonce(initial_search(seed, n), j),
{
    assert forall|i: int, j: int| 0 <= i < j < n implies #[trigger] attempt_nonce(
        initial_search(seed, n),
        i,
    ) != #[trigger] attempt_nonce(initial_search(seed, n), j) by {
        lemma_wrap(seed + i);
        lemma_wrap(seed + j);
    }
}
proof fn lemma_shard_budget(k: int, workers: int, n: int, j: int)
    requires
        0 <= k < workers,
        0 <= j,
        0 <= n,
    ensures
        j < shard_budget(k, workers, n) <==> k + j * workers < n,
{
    if k < n {
        let q = (n - 1 - k) / workers;
        let r = (n - 1 - k) % workers;
        lemma_fundamental_div_mod(n - 1 - k, workers);
        assert(0 <= r < workers);
        assert(n - 1 - k == workers * q + r);
        if j <= q {
            assert(k + j * workers < n) by (nonlinear_arith)
                requires
                    j <= q,
                    0 < workers,
                    0 <= r,
                    n - 1 - k == workers * q + r,
            ;
        } else {
            assert(k + j * workers >= n) by (nonlinear_arith)
                requires
                    j >= q + 1,
                    0 < workers,
                    r < workers,
                    n - 1 - k == workers * q + r,
            ;
        }
    } else {
        assert(j * workers >= 0) by (nonlinear_arith)
            requires
                0 <= j,
                0 < workers,
        ;
    }
}

/// Splitting a search of `n` attempts from `seed` over `workers` strided
/// shards, worker `k` taking the offsets `k, k + workers, ...`, finds what one
/// sequential search finds, for any pure winning rule: the worker whose
/// stride holds the sequential winner finds that same nonce, every winner of
/// another worker lies at a later offset, so the merge that keeps the
/// earliest offset keeps it; and the shards all come back empty exactly when
/// the sequential search does.
pub proof fn law_sharding(seed: u64, workers: u64, n: u64, wins: spec_fn(u64) -> bool)
    requires
        workers > 0,
    ensures
        first_win(initial_search(seed, n), wins, 0) matches Some(o) ==> ({
            let k = (o % workers as int) as u64;
            let sh = shard_search(seed, k, workers, n);
            first_win(sh, wins, 0) == Some(o / workers as int) && attempt_nonce(
                sh,
                o / workers as int,
            ) == attempt_nonce(initial_search(seed, n), o)
        }),
        forall|k: u64|
            k < workers ==> (#[trigger] first_win(shard_search(seed, k, workers, n), wins, 0)
                matches Some(j) ==> (first_win(initial_search(seed, n), wins, 0) matches Some(o)
                && o <= k + j * workers)),
        first_win(initial_search(seed, n), wins, 0) is None <==> forall|k: u64|
            k < workers ==> (#[trigger] first_win(shard_search(seed, k, workers, n), wins, 0))
                is None,
{
    let whole = initial_search(seed, n);
    let w = workers as int;
    lemma_first_win(whole, wins, 0);
    assert forall|k: u64|
        k < workers implies (#[trigger] first_win(shard_search(seed, k, workers, n), wins, 0)
            matches Some(j) ==> (first_win(whole, wins, 0) matches Some(o) && o <= k + j * w)) by {
        let sh = shard_search(seed, k, workers, n);
        lemma_first_win(sh, wins, 0);
        if let Some(j) = first_win(sh, wins, 0) {
            lemma_shard_budget(k as int, w, n as int, j);
            let off = k + j * w;
            assert(attempt_nonce(sh, j) == attempt_nonce(whole, off));
            assert(wins(attempt_nonce(whole, off)));
        }
    }
    if let Some(o) = first_win(whole, wins, 0) {
        let k = (o % w) as u64;
        let jo = o / w;
        let sh = shard_search(seed, k, workers, n);
        lemma_fundamental_div_mod(o, w);
        assert(0 <= jo) by (nonlinear_arith)
            requires
                0 <= o,
                0 < w,
                jo == o / w,
        ;
        lemma_shard_budget(k as int, w, n as int, jo);
        assert(attempt_nonce(sh, jo) == attempt_nonce(whole, o));
        assert forall|i: int| 0 <= i < jo implies !wins(#[trigger] attempt_nonce(sh, i)) by {
            assert(i * w < jo * w) by (nonlinear_arith)
                requires
                    i < jo,
                    0 < w,
            ;
            assert(i * w >= 0) by (nonlinear_arith)
                requires
                    0 <= i,
                    0 < w,
            ;
            assert(attempt_nonce(sh, i) == attempt_nonce(whole, k + i * w));
        }
        lemma_first_win_is(sh, wins, 0, jo);
    }
}
} // verus!
