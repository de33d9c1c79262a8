//! Points in time, as whole seconds since the Unix epoch and nanoseconds
//! past that second, in UTC.
use vstd::prelude::*;

verus! {

/// Name for whether chrono's `DateTime::<Utc>::from_timestamp(secs, nanos)`
/// accepts the two parts (it refuses dates outside its range and nanoseconds
/// that cannot stand at that second).
pub uninterp spec fn chrono_accepts(secs: i64, nanos: u32) -> bool;

/// Name for chrono's `signed_duration_since(..).num_days()` between the two
/// points (later first).
pub uninterp spec fn chrono_days_between(
    later_secs: i64,
    later_nanos: u32,
    earlier_secs: i64,
    earlier_nanos: u32,
) -> i64;

/// Name for the text chrono's `format("%Y-%m-%d")` writes for a point.
pub uninterp spec fn chrono_date_text(secs: i64, nanos: u32) -> Seq<char>;

/// Division that rounds toward zero, as Rust's `/` on integers does.
pub open spec fn trunc_div(a: int, b: int) -> int
    recommends
        b > 0,
{
    if a >= 0 {
        a / b
    } else {
        -((-a) / b)
    }
}

/// Whole days from the earlier to the later point, rounded toward zero, for
/// points whose nanoseconds are below one second (no leap second).
pub open spec fn whole_days_between(
    later_secs: int,
    later_nanos: int,
    earlier_secs: int,
    earlier_nanos: int,
) -> int {
    let total = (later_secs - earlier_secs) * 1_000_000_000 + (later_nanos - earlier_nanos);
    trunc_div(trunc_div(total, 1_000_000_000), 86_400)
}

/// A point in time that chrono can represent.
#[derive(Debug, PartialEq, Eq)]
pub struct Timestamp {
    secs: i64,
    nanos: u32,
}

impl View for Timestamp {
    type V = (i64, u32);

    closed spec fn view(&self) -> (i64, u32) {
        (self.secs, self.nanos)
    }
}

impl Clone for Timestamp {
    fn clone(&self) -> (r: Self)
        ensures
            r@ == self@,
    {
        proof {
            use_type_invariant(self);
        }
        Timestamp { secs: self.secs, nanos: self.nanos }
    }
}

impl Timestamp {
    /// Every timestamp is a point that chrono can represent.
    #[verifier::type_invariant]
    pub open spec fn representable(self) -> bool {
        chrono_accepts(self@.0, self@.1)
    }

    /// The point with these parts, when chrono's `DateTime::from_timestamp`
    /// accepts them.
    #[verifier::external_body]
    pub fn from_parts(secs: i64, nanos: u32) -> (r: Option<Timestamp>)
        ensures
            match r {
                Some(t) => chrono_accepts(secs, nanos) && t@ == (secs, nanos),
                None => !chrono_accepts(secs, nanos),
            },
    {
        match chrono::DateTime::from_timestamp(secs, nanos) {
            Some(_) => Some(Timestamp { secs, nanos }),
            None => None,
        }
    }

    /// Whole seconds since the Unix epoch.
    pub fn secs(&self) -> (r: i64)
        ensures
            r == self@.0,
    {
        self.secs
    }

    /// Nanoseconds past the second (above 999 999 999 only in a leap second).
    pub fn nanos(&self) -> (r: u32)
        ensures
            r == self@.1,
    {
        self.nanos
    }

    /// Whole days from `earlier` to this point, with chrono's
    /// `signed_duration_since` and `TimeDelta::num_days`: rounded toward zero,
    /// negative when `earlier` is later. For points outside a leap second the
    /// second clause states the arithmetic; in a leap second only the name
    /// stands for the result.
    #[verifier::external_body]
    pub fn days_since(&self, earlier: &Timestamp) -> (r: i64)
        ensures
            r == chrono_days_between(self@.0, self@.1, earlier@.0, earlier@.1),
            self@.1 < 1_000_000_000 && earlier@.1 < 1_000_000_000 ==> r == whole_days_between(
                self@.0 as int,
                self@.1 as int,
                earlier@.0 as int,
                earlier@.1 as int,
            ),
    {
        let later = chrono::DateTime::from_timestamp(self.secs, self.nanos).unwrap();
        let before = chrono::DateTime::from_timestamp(earlier.secs, earlier.nanos).unwrap();
        later.signed_duration_since(before).num_days()
    }

    /// The calendar date of this point in UTC, as chrono's
    /// `format("%Y-%m-%d")` writes it.
    #[verifier::external_body]
    pub fn date_text(&self) -> (r: String)
        ensures
            r@ == chrono_date_text(self@.0, self@.1),
    {
        chrono::DateTime::from_timestamp(self.secs, self.nanos).unwrap().format(
            "%Y-%m-%d",
        ).to_string()
    }
}

} // verus!
