use vstd::prelude::*;

verus! {

/// Number of seconds in a day.
pub const SECONDS_PER_DAY: u32 = 86400;

/// A timestamp column value, with a resolution of one second.
///
/// The instant is `days` whole days after 1970-01-01 00:00:00, plus
/// `seconds_of_day` seconds.
#[derive(Debug, Clone, Copy, PartialEq, Eq, Structural)]
pub struct Timestamp {
    pub days: i64,
    pub seconds_of_day: u32,
}

/// Seconds since the Unix epoch of the instant `days` days and `secs` seconds after it.
pub open spec fn epoch_seconds(days: int, secs: int) -> int {
    days * 86400 + secs
}

/// The timestamp of the instant `s` seconds after the Unix epoch.
pub open spec fn timestamp_of_seconds(s: int) -> Timestamp {
    Timestamp { days: (s / 86400) as i64, seconds_of_day: (s % 86400) as u32 }
}

impl Timestamp {
    /// A well-formed timestamp has fewer than a day's worth of seconds past
    /// midnight, and its seconds since the epoch fit in an `i64`.
    pub open spec fn wf(self) -> bool {
        &&& self.seconds_of_day < 86400
        &&& i64::MIN <= epoch_seconds(self.days as int, self.seconds_of_day as int) <= i64::MAX
    }

    /// Seconds since the Unix epoch.
    pub open spec fn seconds(self) -> int {
        epoch_seconds(self.days as int, self.seconds_of_day as int)
    }

    /// Whether this timestamp is well formed.
    pub fn is_valid(&self) -> (r: bool)
        ensures
            r == self.wf(),
    {
        let s: i128 = self.days as i128 * 86400 + self.seconds_of_day as i128;
        self.seconds_of_day < 86400 && i64::MIN as i128 <= s && s <= i64::MAX as i128
    }

    /// Returns the number of seconds since the Unix epoch.
    pub fn timestamp(&self) -> (r: i64)
        requires
            self.wf(),
        ensures
            r == self.seconds(),
    {
        let day_start: i128 = self.days as i128 * 86400;
        (day_start + self.seconds_of_day as i128) as i64
    }

    /// Builds the timestamp of the instant `s` seconds after the Unix epoch.
    pub fn from_timestamp(s: i64) -> (r: Timestamp)
        ensures
            r == timestamp_of_seconds(s as int),
            r.wf(),
            r.seconds() == s,
    {
        if s >= 0 {
            let n: u64 = s as u64;
            let days: u64 = n / 86400;
            let secs: u64 = n % 86400;
            proof {
                lemma_floor_div_nonneg(s as int);
            }
            Timestamp { days: days as i64, seconds_of_day: secs as u32 }
        } else {
            let n: u64 = (-(s + 1)) as u64;
            let q: u64 = n / 86400;
            let m: u64 = n % 86400;
            proof {
                lemma_floor_div_neg(s as int, n as int);
            }
            Timestamp { days: -(q as i64) - 1, seconds_of_day: (86399 - m) as u32 }
        }
    }
}

proof fn lemma_floor_div_nonneg(s: int)
    requires
        s >= 0,
    ensures
        s / 86400 >= 0,
        s / 86400 <= s,
        0 <= s % 86400 < 86400,
        (s / 86400) * 86400 + s % 86400 == s,
{
    vstd::arithmetic::div_mod::lemma_fundamental_div_mod(s, 86400);
    vstd::arithmetic::div_mod::lemma_div_pos_is_pos(s, 86400);
    vstd::arithmetic::div_mod::lemma_div_is_ordered_by_denominator(s, 1, 86400);
    vstd::arithmetic::div_mod::lemma_mod_bound(s, 86400);
}

proof fn lemma_floor_div_neg(s: int, n: int)
    requires
        s < 0,
        n == -(s + 1),
    ensures
        s / 86400 == -(n / 86400) - 1,
        s % 86400 == 86399 - n % 86400,
        0 <= n / 86400 <= n,
        0 <= n % 86400 < 86400,
{
    vstd::arithmetic::div_mod::lemma_fundamental_div_mod(n, 86400);
    vstd::arithmetic::div_mod::lemma_mod_bound(n, 86400);
    vstd::arithmetic::div_mod::lemma_div_pos_is_pos(n, 86400);
    vstd::arithmetic::div_mod::lemma_div_is_ordered_by_denominator(n, 1, 86400);
    let q = -(n / 86400) - 1;
    let m = 86399 - n % 86400;
    assert(q * 86400 + m == s) by (nonlinear_arith)
        requires
            n == (n / 86400) * 86400 + n % 86400,
            q == -(n / 86400) - 1,
            m == 86399 - n % 86400,
            n == -(s + 1),
    ;
    vstd::arithmetic::div_mod::lemma_fundamental_div_mod_converse(s, 86400, q, m);
}

/// Converting a timestamp to seconds since the epoch and back gives the
/// same timestamp.
pub proof fn lemma_timestamp_round_trip(t: Timestamp)
    requires
        t.wf(),
    ensures
        timestamp_of_seconds(t.seconds()) == t,
{
    vstd::arithmetic::div_mod::lemma_fundamental_div_mod_converse(
        t.seconds(),
        86400,
        t.days as int,
        t.seconds_of_day as int,
    );
}

} // verus!
