//! The backoff policy: how long to wait before the next attempt.
//!
//! One formula is used throughout. The wait before retry number `n`
//! (counted from 0) is `BASE_DELAY * 2^n` seconds, the deterministic term,
//! plus a jitter drawn uniformly from `0..=MAX_JITTER` whole seconds, a fifth
//! of the base. The deterministic term stops doubling after `MAX_DOUBLINGS`
//! doublings, the last for which the sum still fits in 64 bits, so that no
//! attempt number makes the computation overflow.

use rand::Rng;
use vstd::arithmetic::power2::lemma2_to64_rest;
use vstd::arithmetic::power2::lemma_pow2_strictly_increases;
use vstd::arithmetic::power2::lemma_pow2_unfold;
use vstd::arithmetic::power2::pow2;
use vstd::bits::lemma_u64_shl_is_mul;
use vstd::prelude::*;

verus! {

/// The base delay, in seconds.
pub const BASE_DELAY: u64 = 15;

/// The largest jitter, in seconds: a fifth of the base delay.
pub const MAX_JITTER: u64 = 3;

/// The number of doublings after which the deterministic term stays put.
pub const MAX_DOUBLINGS: u32 = 60;

/// The deterministic term of the wait before retry number `retries`, in
/// seconds.
pub open spec fn exponential_delay(retries: nat) -> nat {
    if retries <= MAX_DOUBLINGS {
        BASE_DELAY as nat * pow2(retries)
    } else {
        BASE_DELAY as nat * pow2(MAX_DOUBLINGS as nat)
    }
}

/// The whole wait before retry number `retries` when the jitter drawn is
/// `jitter`, in seconds.
pub open spec fn backoff_secs(retries: nat, jitter: nat) -> nat {
    exponential_delay(retries) + jitter
}

/// No deterministic term, with the largest jitter added, leaves 64 bits.
pub proof fn lemma_backoff_fits(retries: nat)
    ensures
        BASE_DELAY <= exponential_delay(retries),
        exponential_delay(retries) + MAX_JITTER <= u64::MAX,
{
    lemma2_to64_rest();
    if retries < MAX_DOUBLINGS {
        lemma_pow2_strictly_increases(retries, MAX_DOUBLINGS as nat);
    }
    vstd::arithmetic::power2::lemma_pow2_pos(retries);
    assert(BASE_DELAY as nat * pow2(retries) >= BASE_DELAY) by (nonlinear_arith)
        requires
            pow2(retries) >= 1,
    ;
    assert(retries <= MAX_DOUBLINGS ==> BASE_DELAY as nat * pow2(retries) <= BASE_DELAY as nat
        * pow2(MAX_DOUBLINGS as nat)) by (nonlinear_arith)
        requires
            retries <= MAX_DOUBLINGS ==> pow2(retries) <= pow2(MAX_DOUBLINGS as nat),
    ;
}

/// The deterministic term never shrinks as the attempt number grows: it
/// doubles with each of the first `MAX_DOUBLINGS` retries and is constant
/// from there on.
pub proof fn lemma_exponential_delay_monotonic(n: nat)
    ensures
        exponential_delay(n) <= exponential_delay(n + 1),
        n < MAX_DOUBLINGS ==> exponential_delay(n + 1) == 2 * exponential_delay(n),
        n >= MAX_DOUBLINGS ==> exponential_delay(n + 1) == exponential_delay(n),
{
    if n < MAX_DOUBLINGS {
        lemma_pow2_unfold(n + 1);
        assert(BASE_DELAY as nat * (2 * pow2(n)) == 2 * (BASE_DELAY as nat * pow2(n)))
            by (nonlinear_arith);
    }
}

/// The deterministic term is monotonic over any two attempt numbers.
pub proof fn lemma_exponential_delay_ordered(i: nat, j: nat)
    requires
        i <= j,
    ensures
        exponential_delay(i) <= exponential_delay(j),
    decreases j - i,
{
    if i < j {
        lemma_exponential_delay_ordered(i, (j - 1) as nat);
        lemma_exponential_delay_monotonic((j - 1) as nat);
    }
}

/// The deterministic term of the wait before retry number `retries`, in
/// seconds.
pub fn exponential_delay_secs(retries: u32) -> (secs: u64)
    ensures
        secs == exponential_delay(retries as nat),
{
    let doublings: u32 = if retries <= MAX_DOUBLINGS {
        retries
    } else {
        MAX_DOUBLINGS
    };
    proof {
        lemma_backoff_fits(doublings as nat);
        lemma_u64_shl_is_mul(BASE_DELAY, doublings as u64);
    }
    BASE_DELAY << (doublings as u64)
}

/// The whole wait before retry number `retries`, in seconds, for a jitter
/// that has been drawn already.
pub fn backoff_with_jitter(retries: u32, jitter: u64) -> (secs: u64)
    requires
        jitter <= MAX_JITTER,
    ensures
        secs == backoff_secs(retries as nat, jitter as nat),
{
    proof {
        lemma_backoff_fits(retries as nat);
    }
    exponential_delay_secs(retries) + jitter
}

/// Draws an integer uniformly from `0..=max` with `rand`'s thread-local
/// generator (`rand::thread_rng`, `Rng::gen_range` on an inclusive range).
///
/// Trusted: the body is not verified. The claim is the one `gen_range`
/// documents, that the value lies in the range given. Which value it is
/// differs from call to call.
#[verifier::external_body]
pub(crate) fn random_up_to(max: u64) -> (drawn: u64)
    ensures
        drawn <= max,
{
    rand::thread_rng().gen_range(0..=max)
}

/// A freshly drawn jitter, in seconds.
pub fn draw_jitter() -> (jitter: u64)
    ensures
        jitter <= MAX_JITTER,
{
    random_up_to(MAX_JITTER)
}

/// The wait before retry number `retries`, in seconds: the deterministic
/// term plus a freshly drawn jitter of at most `MAX_JITTER`.
pub fn calculate_backoff(retries: u32) -> (secs: u64)
    ensures
        exponential_delay(retries as nat) <= secs <= exponential_delay(retries as nat)
            + MAX_JITTER,
{
    backoff_with_jitter(retries, draw_jitter())
}

} // verus!
