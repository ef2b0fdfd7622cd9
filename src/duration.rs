//! Relative durations such as `"2y3mo"` or `"10d"`, and their conversion to
//! absolute expiry instants.

use vstd::prelude::*;
use vstd::string::*;

verus! {

pub const SECONDS_PER_MINUTE: u64 = 60;
pub const SECONDS_PER_HOUR: u64 = 3600;
pub const SECONDS_PER_DAY: u64 = 86400;
pub const SECONDS_PER_WEEK: u64 = 604800;
/// A month is taken as thirty days.
pub const SECONDS_PER_MONTH: u64 = 2592000;
/// A year is taken as 365 days.
pub const SECONDS_PER_YEAR: u64 = 31536000;

/// The seven components of a duration, as mathematical integers.
pub struct DurationParts {
    pub years: nat,
    pub months: nat,
    pub weeks: nat,
    pub days: nat,
    pub hours: nat,
    pub minutes: nat,
    pub seconds: nat,
}

impl DurationParts {
    pub open spec fn zero() -> DurationParts {
        DurationParts { years: 0, months: 0, weeks: 0, days: 0, hours: 0, minutes: 0, seconds: 0 }
    }

    /// Sets the component numbered `slot` (0 years, 1 months, 2 weeks, 3 days,
    /// 4 hours, 5 minutes, 6 seconds).
    pub open spec fn with(self, slot: nat, v: nat) -> DurationParts {
        if slot == 0 {
            DurationParts { years: v, ..self }
        } else if slot == 1 {
            DurationParts { months: v, ..self }
        } else if slot == 2 {
            DurationParts { weeks: v, ..self }
        } else if slot == 3 {
            DurationParts { days: v, ..self }
        } else if slot == 4 {
            DurationParts { hours: v, ..self }
        } else if slot == 5 {
            DurationParts { minutes: v, ..self }
        } else {
            DurationParts { seconds: v, ..self }
        }
    }

    pub open spec fn is_permanent(self) -> bool {
        self == DurationParts::zero()
    }

    /// The span in seconds, with fixed-width months and years.
    pub open spec fn total_seconds(self) -> nat {
        self.seconds + self.minutes * 60 + self.hours * 3600 + self.days * 86400 + self.weeks
            * 604800 + self.months * 2592000 + self.years * 31536000
    }
}

pub open spec fn is_digit(c: char) -> bool {
    '0' <= c && c <= '9'
}

pub open spec fn digit_value(c: char) -> nat {
    (c as int - '0' as int) as nat
}

/// The letters that can end a unit token (`mo` starts with `m`).
pub open spec fn is_unit_letter(c: char) -> bool {
    c == 'y' || c == 'w' || c == 'd' || c == 'h' || c == 'm' || c == 's'
}

/// The component named by the unit that starts at `i`: `mo` is months, a
/// lone `m` minutes.
pub open spec fn slot_at(s: Seq<char>, i: int) -> nat {
    let c = s[i];
    if c == 'y' {
        0
    } else if c == 'm' && i + 1 < s.len() && s[i + 1] == 'o' {
        1
    } else if c == 'w' {
        2
    } else if c == 'd' {
        3
    } else if c == 'h' {
        4
    } else if c == 'm' {
        5
    } else {
        6
    }
}

/// A number larger than `u64::MAX` is read as `u64::MAX`.
pub open spec fn clamp(v: nat) -> nat {
    if v > u64::MAX as nat {
        u64::MAX as nat
    } else {
        v
    }
}

/// Applies the token being read to `parts`. `pending` holds its number and,
/// once seen, the component of the unit that followed it; a number that no
/// unit followed sets nothing.
pub open spec fn flush(parts: DurationParts, pending: Option<(nat, Option<nat>)>) -> DurationParts {
    match pending {
        Some((v, Some(slot))) => parts.with(slot, v),
        _ => parts,
    }
}

/// Reads `s` from position `i` on. A token is a run of digits, then any
/// non-digit filler, then a unit: the first unit letter after the digits names
/// it (`mo` when an `m` is followed by `o`). Each token sets its component,
/// and a later token for the same unit wins.
pub open spec fn scan(s: Seq<char>, i: nat, parts: DurationParts, pending: Option<(nat, Option<nat>)>) -> DurationParts
    decreases s.len() - i,
{
    if i >= s.len() {
        flush(parts, pending)
    } else {
        let c = s[i as int];
        if is_digit(c) {
            if i > 0 && is_digit(s[i - 1]) && pending.is_some() {
                let (v, u) = pending.unwrap();
                scan(s, i + 1, parts, Some((clamp(v * 10 + digit_value(c)), u)))
            } else {
                scan(s, i + 1, flush(parts, pending), Some((digit_value(c), None)))
            }
        } else if is_unit_letter(c) && pending.is_some() && pending.unwrap().1.is_none() {
            scan(s, i + 1, parts, Some((pending.unwrap().0, Some(slot_at(s, i as int)))))
        } else {
            scan(s, i + 1, parts, pending)
        }
    }
}

/// The components that `s` spells out.
pub open spec fn parse_parts(s: Seq<char>) -> DurationParts {
    scan(s, 0, DurationParts::zero(), None)
}

/// Whether some digit is followed by a unit letter with no digit in between.
pub open spec fn has_unit_token(s: Seq<char>) -> bool {
    exists|i: int, j: int|
        0 <= i < j < s.len() && is_digit(#[trigger] s[i]) && is_unit_letter(#[trigger] s[j]) && (
        forall|k: int| i < k <= j ==> !is_digit(#[trigger] s[k]))
}

/// A parsed relative duration, with the text it was read from.
#[derive(Clone)]
pub struct Duration {
    pub years: u64,
    pub months: u64,
    pub weeks: u64,
    pub days: u64,
    pub hours: u64,
    pub minutes: u64,
    pub seconds: u64,
    pub string: String,
}

impl Duration {
    pub open spec fn parts(&self) -> DurationParts {
        DurationParts {
            years: self.years as nat,
            months: self.months as nat,
            weeks: self.weeks as nat,
            days: self.days as nat,
            hours: self.hours as nat,
            minutes: self.minutes as nat,
            seconds: self.seconds as nat,
        }
    }

    fn set_slot(&mut self, slot: usize, v: u64)
        ensures
            final(self).parts() == old(self).parts().with(slot as nat, v as nat),
            final(self).string == old(self).string,
    {
        if slot == 0 {
            self.years = v;
        } else if slot == 1 {
            self.months = v;
        } else if slot == 2 {
            self.weeks = v;
        } else if slot == 3 {
            self.days = v;
        } else if slot == 4 {
            self.hours = v;
        } else if slot == 5 {
            self.minutes = v;
        } else {
            self.seconds = v;
        }
    }

    /// Parses a free-form relative duration. Text without any unit token gives
    /// a permanent duration.
    ///
    /// The filler between a number and its unit may be any non-digit text, and
    /// the first unit letter after the number names the unit: `"2days"` is two
    /// days and `"5ms"` five minutes. This is a deliberate choice over taking
    /// the last unit letter before the next number, which would read those as
    /// two and five seconds.
    pub fn new(duration_string: String) -> (d: Duration)
        ensures
            d.parts() == parse_parts(duration_string@),
            d.string@ == duration_string@,
    {
        let ghost s = duration_string@;
        let text = duration_string.as_str();
        let n = text.unicode_len();
        let mut d = Duration {
            years: 0,
            months: 0,
            weeks: 0,
            days: 0,
            hours: 0,
            minutes: 0,
            seconds: 0,
            string: String::new(),
        };
        let mut has_pending = false;
        let mut value: u64 = 0;
        let mut has_unit = false;
        let mut slot: usize = 0;
        let mut prev_digit = false;
        let mut i: usize = 0;
        while i < n
            invariant
                text@ == s,
                n == s.len(),
                i <= n,
                slot < 7,
                prev_digit == (i > 0 && is_digit(s[i - 1])),
                prev_digit ==> has_pending,
                scan(s, 0, DurationParts::zero(), None) == scan(
                    s,
                    i as nat,
                    d.parts(),
                    pending_of(has_pending, value, has_unit, slot),
                ),
            decreases n - i,
        {
            let c = text.get_char(i);
            if '0' <= c && c <= '9' {
                let dv = (c as u32 - '0' as u32) as u64;
                if prev_digit {
                    if value > (u64::MAX - dv) / 10 {
                        assert(value * 10 + dv > u64::MAX) by (nonlinear_arith)
                            requires value > (u64::MAX - dv) / 10, dv <= 9;
                        value = u64::MAX;
                    } else {
                        assert(value * 10 + dv <= u64::MAX) by (nonlinear_arith)
                            requires value <= (u64::MAX - dv) / 10, dv <= 9;
                        value = value * 10 + dv;
                    }
                } else {
                    if has_pending && has_unit {
                        d.set_slot(slot, value);
                    }
                    has_pending = true;
                    value = dv;
                    has_unit = false;
                }
                prev_digit = true;
            } else {
                if has_pending && !has_unit && (c == 'y' || c == 'w' || c == 'd' || c == 'h' || c == 'm' || c
                    == 's') {
                    has_unit = true;
                    slot = if c == 'y' {
                        0
                    } else if c == 'm' && i + 1 < n && text.get_char(i + 1) == 'o' {
                        1
                    } else if c == 'w' {
                        2
                    } else if c == 'd' {
                        3
                    } else if c == 'h' {
                        4
                    } else if c == 'm' {
                        5
                    } else {
                        6
                    };
                }
                prev_digit = false;
            }
            i = i + 1;
        }
        if has_pending && has_unit {
            d.set_slot(slot, value);
        }
        d.string = duration_string;
        d
    }

    pub open spec fn is_permanent_spec(&self) -> bool {
        self.parts().is_permanent()
    }

    /// Whether every component is zero.
    pub fn is_permanent(&self) -> (r: bool)
        ensures
            r == self.is_permanent_spec(),
    {
        self.years == 0 && self.months == 0 && self.weeks == 0 && self.days == 0 && self.hours == 0
            && self.minutes == 0 && self.seconds == 0
    }

    /// Whether `now` plus this duration is representable.
    pub open spec fn fits(&self, now: u64) -> bool {
        now + self.parts().total_seconds() <= u64::MAX
    }

    /// The absolute instant `now` plus this duration, or the sentinel 0 (no
    /// expiry) when the duration is permanent.
    pub fn to_unix_timestamp(&self, now: u64) -> (r: u64)
        requires
            self.is_permanent_spec() || self.fits(now),
        ensures
            r == absolute_instant(self.parts(), now as nat),
    {
        if self.is_permanent() {
            return 0;
        }
        let mut timestamp = now;
        timestamp = timestamp + self.seconds;
        timestamp = timestamp + self.minutes * SECONDS_PER_MINUTE;
        timestamp = timestamp + self.hours * SECONDS_PER_HOUR;
        timestamp = timestamp + self.days * SECONDS_PER_DAY;
        timestamp = timestamp + self.weeks * SECONDS_PER_WEEK;
        timestamp = timestamp + self.months * SECONDS_PER_MONTH;
        timestamp = timestamp + self.years * SECONDS_PER_YEAR;
        timestamp
    }

    /// The expiry instant of a record made at `now` with this duration:
    /// `None` when the duration is permanent, an error when the instant does
    /// not fit in a `u64`.
    pub fn checked_expiry(&self, now: u64) -> (r: Result<Option<u64>, DurationError>)
        ensures
            self.is_permanent_spec() ==> r == Ok::<Option<u64>, DurationError>(None),
            !self.is_permanent_spec() && self.fits(now) ==> r == Ok::<Option<u64>, DurationError>(
                Some((now + self.parts().total_seconds()) as u64),
            ),
            !self.is_permanent_spec() && !self.fits(now) ==> r == Err::<Option<u64>, DurationError>(
                DurationError::TooLong,
            ),
    {
        if self.is_permanent() {
            return Ok(None);
        }
        let total: u128 = self.seconds as u128 + self.minutes as u128 * 60 + self.hours as u128
            * 3600 + self.days as u128 * 86400 + self.weeks as u128 * 604800 + self.months as u128
            * 2592000 + self.years as u128 * 31536000;
        if now as u128 + total > u64::MAX as u128 {
            Err(DurationError::TooLong)
        } else {
            Ok(Some(self.to_unix_timestamp(now)))
        }
    }
}

/// Why a duration cannot be turned into an expiry instant.
#[derive(Clone, Copy, Debug, PartialEq, Eq, Structural)]
pub enum DurationError {
    /// `now` plus the duration overflows.
    TooLong,
}

/// The absolute instant of a duration taken from `now`; 0 stands for "no
/// expiry" and is what a permanent duration gives.
pub open spec fn absolute_instant(parts: DurationParts, now: nat) -> nat {
    if parts.is_permanent() {
        0
    } else {
        now + parts.total_seconds()
    }
}

/// While no unit letter has followed the pending number, reading on from `i`
/// sets nothing.
proof fn lemma_scan_without_token(s: Seq<char>, i: nat, pending: Option<(nat, Option<nat>)>)
    requires
        !has_unit_token(s),
        i <= s.len(),
        pending.is_none() || (pending.unwrap().1.is_none() && exists|p: int|
            0 <= p < i && is_digit(#[trigger] s[p]) && forall|k: int| p < k < i ==> !is_digit(s[k])),
    ensures
        scan(s, i, DurationParts::zero(), pending) == DurationParts::zero(),
    decreases s.len() - i,
{
    if i < s.len() {
        let c = s[i as int];
        if is_digit(c) {
            let next = if i > 0 && is_digit(s[i - 1]) && pending.is_some() {
                Some((clamp(pending.unwrap().0 * 10 + digit_value(c)), pending.unwrap().1))
            } else {
                Some((digit_value(c), None))
            };
            assert(0 <= i < i + 1 && is_digit(s[i as int]) && forall|k: int|
                i < k < i + 1 ==> !is_digit(s[k]));
            lemma_scan_without_token(s, i + 1, next);
        } else if is_unit_letter(c) && pending.is_some() && pending.unwrap().1.is_none() {
            let p = choose|p: int|
                0 <= p < i && is_digit(#[trigger] s[p]) && forall|k: int| p < k < i ==> !is_digit(s[k]);
            assert(forall|k: int| p < k <= i ==> !is_digit(#[trigger] s[k]));
            assert(is_unit_letter(s[i as int]));
            assert(has_unit_token(s));
        } else {
            if pending.is_some() {
                let p = choose|p: int|
                    0 <= p < i && is_digit(#[trigger] s[p]) && forall|k: int| p < k < i ==> !is_digit(s[k]);
                assert(forall|k: int| p < k < i + 1 ==> !is_digit(#[trigger] s[k]));
            }
            lemma_scan_without_token(s, i + 1, pending);
        }
    }
}

/// Text in which no digit is followed by a unit letter before the next digit
/// parses to a permanent duration, whose absolute instant is the "no expiry"
/// sentinel at any time.
pub proof fn lemma_no_unit_token_is_permanent(s: Seq<char>, now: nat)
    requires
        !has_unit_token(s),
    ensures
        parse_parts(s).is_permanent(),
        absolute_instant(parse_parts(s), now) == 0,
{
    lemma_scan_without_token(s, 0, None);
}

/// Parsing does not depend on the time; the absolute instant of a duration
/// that is not permanent only moves forward with `now`.
pub proof fn lemma_absolute_instant_monotonic(parts: DurationParts, earlier: nat, later: nat)
    requires
        earlier <= later,
        !parts.is_permanent(),
    ensures
        absolute_instant(parts, earlier) <= absolute_instant(parts, later),
        absolute_instant(parts, later) - absolute_instant(parts, earlier) == later - earlier,
{
}

/// `"10d"` reads as ten days and nothing else, and its absolute instant is
/// `now` plus 864000 seconds.
pub proof fn lemma_ten_days(now: nat)
    ensures
        parse_parts("10d"@) == DurationParts::zero().with(3, 10),
        absolute_instant(parse_parts("10d"@), now) == now + 864000,
{
    reveal_strlit("10d");
    reveal_with_fuel(scan, 5);
}

/// `"2y3mo"` reads as two years and three months, and its absolute instant is
/// `now` plus 2 * 31536000 + 3 * 2592000 seconds.
pub proof fn lemma_two_years_three_months(now: nat)
    ensures
        parse_parts("2y3mo"@) == DurationParts::zero().with(0, 2).with(1, 3),
        absolute_instant(parse_parts("2y3mo"@), now) == now + 2 * 31536000 + 3 * 2592000,
{
    reveal_strlit("2y3mo");
    reveal_with_fuel(scan, 7);
}

pub open spec fn pending_of(has_pending: bool, value: u64, has_unit: bool, slot: usize) -> Option<
    (nat, Option<nat>),
> {
    if has_pending {
        Some((value as nat, if has_unit { Some(slot as nat) } else { None }))
    } else {
        None
    }
}

} // verus!
