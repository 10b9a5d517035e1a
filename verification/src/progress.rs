//! How far a download has come, as a whole percentage.

use vstd::prelude::*;

verus! {

/// The whole number nearest to `100 * received / total`, a tie going up.
pub open spec fn nearest_percent(received: nat, total: nat) -> nat
    recommends
        total > 0,
{
    (200 * received + total) / (2 * total)
}

/// The total as a number, where one was announced.
pub open spec fn announced(total: Option<u64>) -> Option<nat> {
    match total {
        Some(t) => Some(t as nat),
        None => None,
    }
}

/// The percentage reported for `received` bytes out of `total`.
///
/// With no total announced it is 0. With a total it is the nearest whole
/// percentage, held at `u32::MAX` where it would be larger. A total of zero
/// bounds nothing: nothing received is 0, anything received is `u32::MAX`.
pub open spec fn percent_of(received: nat, total: Option<nat>) -> nat {
    match total {
        None => 0,
        Some(t) => if t == 0 {
            if received == 0 {
                0
            } else {
                u32::MAX as nat
            }
        } else if nearest_percent(received, t) > u32::MAX {
            u32::MAX as nat
        } else {
            nearest_percent(received, t)
        },
    }
}

/// The percentage to report when `received` bytes have arrived and the
/// download was announced as `total` bytes, if it was announced at all.
pub fn progress_percent(received: u64, total: Option<u64>) -> (percent: u32)
    ensures
        percent == percent_of(received as nat, announced(total)),
        total is None ==> percent == 0,
        total matches Some(t) ==> (t > 0 && percent < u32::MAX ==> 2 * t * percent <= 200
            * received + t < 2 * t * (percent + 1)),
{
    match total {
        None => 0,
        Some(t) => {
            proof {
                if t > 0 {
                    percent_is_nearest(received as nat, t as nat);
                }
            }
            if t == 0 {
                if received == 0 {
                    0
                } else {
                    u32::MAX
                }
            } else {
                let twice_scaled: u128 = 200u128 * (received as u128) + (t as u128);
                let nearest: u128 = twice_scaled / (2u128 * (t as u128));
                if nearest > u32::MAX as u128 {
                    u32::MAX
                } else {
                    nearest as u32
                }
            }
        },
    }
}

/// The bytes of one download that have arrived so far.
#[derive(Clone, Copy, Debug, PartialEq, Eq, Structural)]
pub struct DownloadProgress {
    /// The sum of the chunks recorded, held at `u64::MAX`.
    pub received: u64,
}

impl DownloadProgress {
    /// A download of which nothing has arrived.
    pub fn new() -> (progress: DownloadProgress)
        ensures
            progress.received == 0,
    {
        DownloadProgress { received: 0 }
    }

    /// The count after one more chunk of `chunk_len` bytes.
    pub open spec fn after_chunk(self, chunk_len: nat) -> nat {
        if self.received + chunk_len > u64::MAX {
            u64::MAX as nat
        } else {
            (self.received + chunk_len) as nat
        }
    }

    /// Records a chunk of `chunk_len` bytes and reports the percentage that
    /// the download has reached with it.
    pub fn record_chunk(&mut self, chunk_len: usize, total: Option<u64>) -> (percent: u32)
        ensures
            final(self).received == old(self).after_chunk(chunk_len as nat),
            percent == percent_of(final(self).received as nat, announced(total)),
    {
        let chunk: u64 = chunk_len as u64;
        if chunk > u64::MAX - self.received {
            self.received = u64::MAX;
        } else {
            self.received = self.received + chunk;
        }
        progress_percent(self.received, total)
    }
}

/// With a total announced and not zero, the percentage is the whole number
/// nearest to the exact ratio: it lies within one half of
/// `100 * received / total`, and a ratio halfway between two whole numbers
/// is reported as the larger.
pub proof fn percent_is_nearest(received: nat, total: nat)
    requires
        total > 0,
    ensures
        2 * total * nearest_percent(received, total) <= 200 * received + total,
        200 * received + total < 2 * total * (nearest_percent(received, total) + 1),
{
    let n = (200 * received + total) as int;
    let d = (2 * total) as int;
    assert(n == d * (n / d) + n % d && 0 <= n % d < d) by (nonlinear_arith)
        requires
            d > 0,
    ;
    assert(d * (n / d + 1) == d * (n / d) + d) by (nonlinear_arith);
}

/// While no more has arrived than was announced, the percentage is the
/// nearest whole one and stays within 0 to 100; it is 100 when all has
/// arrived.
pub proof fn percent_within_hundred(received: nat, total: nat)
    requires
        total > 0,
        received <= total,
    ensures
        percent_of(received, Some(total)) == nearest_percent(received, total),
        percent_of(received, Some(total)) <= 100,
        received == total ==> percent_of(received, Some(total)) == 100,
{
    percent_is_nearest(received, total);
    let p = nearest_percent(received, total);
    assert(p <= 100) by (nonlinear_arith)
        requires
            2 * total * p <= 200 * received + total,
            received <= total,
            total > 0,
    ;
    if received == total {
        assert(p >= 100) by (nonlinear_arith)
            requires
                200 * received + total < 2 * total * (p + 1),
                received == total,
                total > 0,
        ;
    }
}

/// The percentage never falls as more bytes arrive.
pub proof fn percent_grows_with_received(earlier: nat, later: nat, total: Option<nat>)
    requires
        earlier <= later,
    ensures
        percent_of(earlier, total) <= percent_of(later, total),
{
    if let Some(t) = total {
        if t > 0 {
            percent_is_nearest(earlier, t);
            percent_is_nearest(later, t);
            let p = nearest_percent(earlier, t);
            let q = nearest_percent(later, t);
            assert(p <= q) by (nonlinear_arith)
                requires
                    2 * t * p <= 200 * earlier + t,
                    200 * later + t < 2 * t * (q + 1),
                    earlier <= later,
                    t > 0,
            ;
        }
    }
}

} // verus!
