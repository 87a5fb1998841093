//! Exponential backoff between the attempts of one job.

use crate::number::{decimal, decimal_chars};
use crate::text::{chars_of, push_all, text_of};
use vstd::arithmetic::power2::{lemma2_to64, lemma_pow2_strictly_increases, lemma_pow2_unfold, pow2};
use vstd::prelude::*;

verus! {

/// Seconds to wait before retry number `attempt`: `2^attempt`, and the largest
/// delay that can be held once that no longer fits.
pub open spec fn backoff_delay_spec(attempt: u32) -> u64 {
    if attempt < 64 {
        pow2(attempt as nat) as u64
    } else {
        u64::MAX
    }
}

/// Below 64 the power fits in 64 bits.
pub proof fn lemma_pow2_fits(attempt: nat)
    requires
        attempt < 64,
    ensures
        pow2(attempt) <= 0x8000_0000_0000_0000,
{
    lemma2_to64();
    vstd::arithmetic::power2::lemma2_to64_rest();
    if attempt < 63 {
        lemma_pow2_strictly_increases(attempt, 63);
    }
}

/// Seconds to wait before retry number `attempt`.
pub fn backoff_delay(attempt: u32) -> (seconds: u64)
    ensures
        seconds == backoff_delay_spec(attempt),
        attempt < 64 ==> seconds == pow2(attempt as nat),
{
    if attempt >= 64 {
        return u64::MAX;
    }
    let mut d: u64 = 1;
    let mut i: u32 = 0;
    proof {
        lemma2_to64();
    }
    while i < attempt
        invariant
            i <= attempt < 64,
            d == pow2(i as nat),
        decreases attempt - i,
    {
        proof {
            lemma_pow2_unfold((i + 1) as nat);
            lemma_pow2_fits((i + 1) as nat);
        }
        d = d * 2;
        i += 1;
    }
    d
}

/// The delays double: each retry waits twice as long as the one before.
pub proof fn lemma_backoff_doubles(attempt: u32)
    requires
        1 <= attempt < 64,
    ensures
        backoff_delay_spec(attempt) == 2 * backoff_delay_spec((attempt - 1) as u32),
        backoff_delay_spec(1) == 2,
{
    lemma2_to64();
    lemma_pow2_unfold(attempt as nat);
    lemma_pow2_fits(attempt as nat);
    lemma_pow2_fits((attempt - 1) as nat);
}

/// The message that is stored and published while a retry is pending.
pub open spec fn retry_message_spec(
    attempt: u32,
    max_retries: u32,
    error: Seq<char>,
    delay: u64,
) -> Seq<char> {
    "Attempt "@ + decimal(attempt as nat) + "/"@ + decimal(max_retries as nat) + " failed: "@
        + error + ". Retrying in "@ + decimal(delay as nat) + "s\u{2026}"@
}

/// The message that is stored and published while a retry is pending.
pub fn retry_message(attempt: u32, max_retries: u32, error: &str, delay: u64) -> (m: String)
    ensures
        m@ == retry_message_spec(attempt, max_retries, error@, delay),
{
    let mut out = chars_of("Attempt ");
    push_all(&mut out, &decimal_chars(attempt as u64));
    push_all(&mut out, &chars_of("/"));
    push_all(&mut out, &decimal_chars(max_retries as u64));
    push_all(&mut out, &chars_of(" failed: "));
    push_all(&mut out, &chars_of(error));
    push_all(&mut out, &chars_of(". Retrying in "));
    push_all(&mut out, &decimal_chars(delay));
    push_all(&mut out, &chars_of("s\u{2026}"));
    text_of(out.as_slice())
}

} // verus!
