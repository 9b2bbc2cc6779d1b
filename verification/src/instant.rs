//! Points in time, as seconds and nanoseconds since the Unix epoch in UTC.
//!
//! Ordering and arithmetic are done here on integers. Reading a timestamp
//! from text and writing one is left to `chrono`.

use std::fmt::Write;
use vstd::prelude::*;

verus! {

/// Nanoseconds in one second.
pub const NANOS_PER_SEC: u32 = 1_000_000_000;

/// What `chrono` reads from `text` as a UTC timestamp: the Unix seconds and the
/// nanoseconds of the second, or `None` where it rejects the text.
pub uninterp spec fn utc_parse(text: Seq<char>) -> Option<(i64, u32)>;

/// What `chrono` writes for the instant `secs` seconds and `nanos` nanoseconds
/// after the epoch, or `None` where it cannot hold that instant.
pub uninterp spec fn utc_display(secs: i64, nanos: u32) -> Option<Seq<char>>;

/// What `chrono` writes for the same instant under the strftime `pattern`, or
/// `None` where it cannot hold the instant or refuses the pattern.
pub uninterp spec fn utc_format(secs: i64, nanos: u32, pattern: Seq<char>) -> Option<Seq<char>>;

/// Calls `<chrono::DateTime<chrono::Utc> as FromStr>::from_str`, which accepts a
/// relaxed form of RFC 3339, and hands back `timestamp()` and
/// `timestamp_subsec_nanos()` of what it read. The result is a function of the
/// text alone; nothing more is claimed of it.
#[verifier::external_body]
fn chrono_parse(text: &str) -> (r: Option<(i64, u32)>)
    ensures
        r == utc_parse(text@),
{
    match text.parse::<chrono::DateTime<chrono::Utc>>() {
        Ok(t) => Some((t.timestamp(), t.timestamp_subsec_nanos())),
        Err(_) => None,
    }
}

/// Calls `chrono::DateTime::from_timestamp` and the `Display` of the UTC
/// date-time it makes. `None` is what `from_timestamp` gives for an instant
/// out of its range. The result is a function of the two numbers alone.
#[verifier::external_body]
fn chrono_display(secs: i64, nanos: u32) -> (r: Option<String>)
    ensures
        match r {
            Some(s) => utc_display(secs, nanos) == Some(s@),
            None => utc_display(secs, nanos) is None,
        },
{
    let t = chrono::DateTime::from_timestamp(secs, nanos)?;
    Some(t.to_string())
}

/// Calls `chrono::DateTime::from_timestamp` and `DateTime::format` with
/// `pattern`, and writes the result into a string. `None` stands for an instant
/// out of range and for a pattern that the formatter reports as an error. The
/// result is a function of the arguments alone (no locale is involved).
#[verifier::external_body]
fn chrono_format(secs: i64, nanos: u32, pattern: &str) -> (r: Option<String>)
    ensures
        match r {
            Some(s) => utc_format(secs, nanos, pattern@) == Some(s@),
            None => utc_format(secs, nanos, pattern@) is None,
        },
{
    let t = chrono::DateTime::from_timestamp(secs, nanos)?;
    let mut out = String::new();
    match write!(out, "{}", t.format(pattern)) {
        Ok(()) => Some(out),
        Err(_) => None,
    }
}

/// A point in time: whole seconds since the Unix epoch and the nanoseconds
/// within that second. The nanoseconds are always below one second, so the
/// order of instants is the order of `as_nanos`.
#[derive(Debug, Clone, Copy, PartialEq, Eq, Structural)]
pub struct Instant {
    secs: i64,
    nanos: u32,
}

impl Instant {
    /// The nanoseconds stay below one second.
    #[verifier::type_invariant]
    pub closed spec fn wf(self) -> bool {
        self.nanos < NANOS_PER_SEC
    }

    /// Whole seconds since the epoch.
    pub closed spec fn spec_secs(self) -> i64 {
        self.secs
    }

    /// Nanoseconds within the second.
    pub closed spec fn spec_nanos(self) -> u32 {
        self.nanos
    }

    /// Nanoseconds since the epoch.
    pub open spec fn as_nanos(self) -> int {
        self.spec_secs() * 1_000_000_000 + self.spec_nanos()
    }

    /// The instant of the given seconds and nanoseconds, where there is one. A
    /// count of nanoseconds from one second up to two stands for a leap second
    /// and reads as the start of the second that follows.
    pub closed spec fn spec_new(secs: i64, nanos: u32) -> Option<Instant> {
        if nanos < NANOS_PER_SEC {
            Some(Instant { secs, nanos })
        } else if nanos < 2 * NANOS_PER_SEC && secs < i64::MAX {
            Some(Instant { secs: (secs + 1) as i64, nanos: (nanos - NANOS_PER_SEC) as u32 })
        } else {
            None
        }
    }

    /// `self` moved by `seconds`.
    pub closed spec fn spec_plus_seconds(self, seconds: int) -> Instant {
        Instant { secs: (self.secs + seconds) as i64, nanos: self.nanos }
    }

    /// The instant that `text` names, where `chrono` reads one.
    pub open spec fn spec_parse(text: Seq<char>) -> Option<Instant> {
        match utc_parse(text) {
            Some((secs, nanos)) => Instant::spec_new(secs, nanos),
            None => None,
        }
    }

    /// The text that `chrono` writes for `self`.
    pub open spec fn spec_text(self) -> Option<Seq<char>> {
        utc_display(self.spec_secs(), self.spec_nanos())
    }

    /// The text that `chrono` writes for `self` under `pattern`.
    pub open spec fn spec_format(self, pattern: Seq<char>) -> Option<Seq<char>> {
        utc_format(self.spec_secs(), self.spec_nanos(), pattern)
    }

    /// Whole seconds from `self` until `later`, and zero where `later` is not
    /// after `self`.
    pub open spec fn spec_seconds_until(self, later: Instant) -> int {
        if self.as_nanos() < later.as_nanos() {
            (later.as_nanos() - self.as_nanos()) / 1_000_000_000
        } else {
            0
        }
    }

    /// Makes an instant from seconds and nanoseconds. Nanoseconds below one
    /// second are taken as they are. From one second up to two they stand for
    /// a leap second, which reads as the start of the second that follows.
    /// Beyond that, and where the following second does not fit, there is no
    /// instant.
    pub fn new(secs: i64, nanos: u32) -> (r: Option<Instant>)
        ensures
            r == Instant::spec_new(secs, nanos),
            r is Some <==> nanos < NANOS_PER_SEC || (nanos < 2 * NANOS_PER_SEC && secs < i64::MAX),
            r matches Some(t) ==> {
                &&& t.wf()
                &&& t.as_nanos() == secs * 1_000_000_000 + nanos
                &&& nanos < NANOS_PER_SEC ==> t.spec_secs() == secs && t.spec_nanos() == nanos
                &&& nanos >= NANOS_PER_SEC ==> t.spec_secs() == secs + 1 && t.spec_nanos() == nanos
                    - NANOS_PER_SEC
            },
    {
        if nanos < NANOS_PER_SEC {
            Some(Instant { secs, nanos })
        } else if nanos < 2 * NANOS_PER_SEC && secs < i64::MAX {
            Some(Instant { secs: secs + 1, nanos: nanos - NANOS_PER_SEC })
        } else {
            None
        }
    }

    /// The instant `secs` whole seconds after the epoch.
    pub fn from_secs(secs: i64) -> (r: Instant)
        ensures
            r.wf(),
            r.spec_secs() == secs,
            r.spec_nanos() == 0,
            Some(r) == Instant::spec_new(secs, 0),
    {
        Instant { secs, nanos: 0 }
    }

    /// Whole seconds since the epoch.
    pub fn secs(&self) -> (r: i64)
        ensures
            r == self.spec_secs(),
    {
        self.secs
    }

    /// Nanoseconds within the second.
    pub fn nanos(&self) -> (r: u32)
        ensures
            r == self.spec_nanos(),
            r < NANOS_PER_SEC,
    {
        proof {
            use_type_invariant(self);
        }
        self.nanos
    }

    /// Whether `self` comes strictly before `other`.
    pub fn is_before(&self, other: &Instant) -> (r: bool)
        ensures
            r == (self.as_nanos() < other.as_nanos()),
    {
        proof {
            use_type_invariant(self);
            use_type_invariant(other);
        }
        self.secs < other.secs || (self.secs == other.secs && self.nanos < other.nanos)
    }

    /// `self` moved by `seconds`, where the result still fits.
    pub fn plus_seconds(&self, seconds: i64) -> (r: Option<Instant>)
        ensures
            r is Some <==> i64::MIN <= self.spec_secs() + seconds <= i64::MAX,
            r matches Some(t) ==> t == self.spec_plus_seconds(seconds as int) && t.wf()
                && t.as_nanos() == self.as_nanos() + seconds * 1_000_000_000,
    {
        proof {
            use_type_invariant(self);
        }
        match self.secs.checked_add(seconds) {
            Some(secs) => Some(Instant { secs, nanos: self.nanos }),
            None => None,
        }
    }

    /// Whole seconds from `self` until `later`: the time left when `self` is
    /// now. Zero where `later` has been reached.
    pub fn seconds_until(&self, later: &Instant) -> (r: u64)
        ensures
            r == self.spec_seconds_until(*later),
    {
        proof {
            use_type_invariant(self);
            use_type_invariant(later);
        }
        if !self.is_before(later) {
            return 0;
        }
        let span: i128 = later.secs as i128 - self.secs as i128;
        let whole: i128 = if later.nanos < self.nanos {
            span - 1
        } else {
            span
        };
        assert(whole == (later.as_nanos() - self.as_nanos()) / 1_000_000_000) by (nonlinear_arith)
            requires
                self.as_nanos() < later.as_nanos(),
                self.as_nanos() == self.secs * 1_000_000_000 + self.nanos,
                later.as_nanos() == later.secs * 1_000_000_000 + later.nanos,
                0 <= self.nanos < 1_000_000_000,
                0 <= later.nanos < 1_000_000_000,
                span == later.secs - self.secs,
                later.nanos < self.nanos ==> whole == span - 1,
                later.nanos >= self.nanos ==> whole == span,
        ;
        whole as u64
    }

    /// Reads a timestamp in the relaxed RFC 3339 form that `chrono` accepts.
    pub fn parse(text: &str) -> (r: Option<Instant>)
        ensures
            r == Instant::spec_parse(text@),
            r matches Some(t) ==> t.wf(),
    {
        match chrono_parse(text) {
            Some((secs, nanos)) => Instant::new(secs, nanos),
            None => None,
        }
    }

    /// Writes the instant as `chrono` displays a UTC date-time; `None` where
    /// the instant is out of its range.
    pub fn to_text(&self) -> (r: Option<String>)
        ensures
            match r {
                Some(s) => self.spec_text() == Some(s@),
                None => self.spec_text() is None,
            },
    {
        chrono_display(self.secs, self.nanos)
    }

    /// Writes the instant under a strftime pattern; `None` where the instant
    /// is out of range or the pattern is refused.
    pub fn format(&self, pattern: &str) -> (r: Option<String>)
        ensures
            match r {
                Some(s) => self.spec_format(pattern@) == Some(s@),
                None => self.spec_format(pattern@) is None,
            },
    {
        chrono_format(self.secs, self.nanos, pattern)
    }
}

/// What `spec_new` gives: an instant exactly for nanoseconds below one second
/// and for a leap second whose following second fits, always a valid one, and
/// the same point in time as the two numbers name.
pub proof fn lemma_spec_new(secs: i64, nanos: u32)
    ensures
        Instant::spec_new(secs, nanos) is Some <==> nanos < NANOS_PER_SEC || (nanos < 2
            * NANOS_PER_SEC && secs < i64::MAX),
        Instant::spec_new(secs, nanos) matches Some(t) ==> {
            &&& t.wf()
            &&& t.as_nanos() == secs * 1_000_000_000 + nanos
            &&& nanos < NANOS_PER_SEC ==> t.spec_secs() == secs && t.spec_nanos() == nanos
        },
{
}

/// Moving a valid instant by whole seconds, where the result fits, gives a
/// valid instant that many seconds away.
pub proof fn lemma_plus_seconds(t: Instant, seconds: int)
    requires
        t.wf(),
        i64::MIN <= t.spec_secs() + seconds <= i64::MAX,
    ensures
        t.spec_plus_seconds(seconds).wf(),
        t.spec_plus_seconds(seconds).as_nanos() == t.as_nanos() + seconds * 1_000_000_000,
        t.spec_plus_seconds(seconds).spec_secs() == t.spec_secs() + seconds,
        t.spec_plus_seconds(seconds).spec_nanos() == t.spec_nanos(),
{
}

/// Instants are ordered by their nanoseconds since the epoch, and two valid
/// instants with the same count are the same instant.
pub proof fn lemma_instant_order(a: Instant, b: Instant)
    requires
        a.wf(),
        b.wf(),
    ensures
        a.as_nanos() == b.as_nanos() <==> a == b,
        a.as_nanos() < b.as_nanos() <==> (a.spec_secs() < b.spec_secs() || (a.spec_secs()
            == b.spec_secs() && a.spec_nanos() < b.spec_nanos())),
{
}

} // verus!
