//! The decisions of the rate limiter that stands between the bot and Discord: one
//! limiter per rate-limit bucket holds how many requests are left and when the
//! bucket resets; a request that finds the bucket empty waits until the reset.
use vstd::prelude::*;
use vstd::string::*;
use crate::decimal::{i32_or_zero, spec_i32_or_zero};
use crate::signature::opt_bytes;

verus! {

/// What a limiter holds of its bucket, as it reads it back: the requests left, and
/// the time of the next reset in milliseconds. Each is zero where nothing was held.
#[derive(Clone, Copy, PartialEq, Eq, Structural, Debug)]
pub struct Bucket {
    pub remaining: u32,
    pub reset: i32,
}

/// How long a request waits before it is sent: only when no request is left and the
/// reset lies ahead, until the reset.
pub open spec fn spec_delay(bucket: Bucket, now: int) -> Option<int> {
    if bucket.remaining < 1 && bucket.reset > now {
        Some(bucket.reset - now)
    } else {
        None
    }
}

impl Bucket {
    /// The milliseconds to wait, at time `now`, before a request is sent, if any.
    pub fn delay_before_send(&self, now: i32) -> (d: Option<i32>)
        requires
            now >= 0,
        ensures
            d matches Some(ms) ==> spec_delay(*self, now as int) == Some(ms as int),
            d is None ==> spec_delay(*self, now as int) is None,
    {
        if self.remaining < 1 && self.reset > now {
            Some(self.reset - now)
        } else {
            None
        }
    }
}

/// The value of the `Authorization` header with which a bot's requests are sent.
pub fn authorization(token: &str) -> (value: String)
    ensures
        value@ == "Bot "@ + token@,
{
    let mut value = String::from_str("Bot ");
    value.append(token);
    value
}

/// What the limiter records from Discord's answer: the reset time and the requests
/// left, each read from its header as an `i32`, zero where it is missing or invalid.
pub fn record_limits(reset_header: Option<&[u8]>, remaining_header: Option<&[u8]>) -> (r: (i32, i32))
    ensures
        r.0 == spec_i32_or_zero(opt_bytes(reset_header)),
        r.1 == spec_i32_or_zero(opt_bytes(remaining_header)),
{
    (i32_or_zero(reset_header), i32_or_zero(remaining_header))
}

/// Law: a request waits at most once. Where a request waits, it waits until the
/// reset exactly, and a request at that time does not wait.
pub proof fn lemma_wait_ends_at_reset(bucket: Bucket, now: int)
    requires
        spec_delay(bucket, now) is Some,
    ensures
        spec_delay(bucket, now).unwrap() > 0,
        now + spec_delay(bucket, now).unwrap() == bucket.reset,
        spec_delay(bucket, now + spec_delay(bucket, now).unwrap()) is None,
{
}

/// Law: a bucket with requests left never makes a request wait, whatever the time.
pub proof fn lemma_no_wait_while_requests_left(bucket: Bucket, now: int)
    requires
        bucket.remaining >= 1,
    ensures
        spec_delay(bucket, now) is None,
{
}

/// Law: a bucket with no request left and a reset ahead always makes a request wait,
/// for the whole time to the reset, however far ahead the reset lies.
pub proof fn lemma_exhausted_bucket_waits_until_reset(bucket: Bucket, now: int)
    requires
        bucket.remaining < 1,
        bucket.reset > now,
    ensures
        spec_delay(bucket, now) == Some(bucket.reset - now),
{
}

} // verus!
