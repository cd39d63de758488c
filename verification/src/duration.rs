//! Simulated time spans, kept in whole microseconds, with the epsilon
//! comparison and the minimal human-readable form used by the comparators.

use vstd::prelude::*;
use vstd::string::*;
use crate::numfmt::{dec_seq, fmt_u64, fmt_pad2, pad2_seq};

verus! {

/// Two durations closer than this many microseconds count as equal.
pub const EPSILON_MICROS: u64 = 100;

pub const MICROS_PER_HOUR: u64 = 3_600_000_000;

pub const MICROS_PER_MINUTE: u64 = 60_000_000;

pub const MICROS_PER_SECOND: u64 = 1_000_000;

pub const MICROS_PER_CENTI: u64 = 10_000;

/// A non-negative span of simulated time, in whole microseconds.
#[derive(Clone, Copy, PartialEq, Eq, Structural, Debug)]
pub struct Duration {
    pub micros: u64,
}

impl Duration {
    /// Whether the two durations lie within the epsilon tolerance of each
    /// other.
    pub open spec fn spec_eps_eq(self, other: Duration) -> bool {
        if self.micros >= other.micros {
            self.micros - other.micros < EPSILON_MICROS
        } else {
            other.micros - self.micros < EPSILON_MICROS
        }
    }

    pub fn epsilon_eq(self, other: Duration) -> (r: bool)
        ensures
            r == self.spec_eps_eq(other),
    {
        if self.micros >= other.micros {
            self.micros - other.micros < EPSILON_MICROS
        } else {
            other.micros - self.micros < EPSILON_MICROS
        }
    }

    pub open spec fn spec_hours(self) -> nat {
        self.micros as nat / MICROS_PER_HOUR as nat
    }

    pub open spec fn spec_minutes(self) -> nat {
        (self.micros as nat / MICROS_PER_MINUTE as nat) % 60
    }

    pub open spec fn spec_seconds(self) -> nat {
        (self.micros as nat / MICROS_PER_SECOND as nat) % 60
    }

    pub open spec fn spec_centis(self) -> nat {
        (self.micros as nat / MICROS_PER_CENTI as nat) % 100
    }

    /// The shortest rendering of the duration: hour, minute and second parts
    /// appear only when they are non-zero, centiseconds only as a fraction of
    /// the second part, and a plain "0s" when everything is zero.
    pub open spec fn spec_minimal_str(self) -> Seq<char> {
        let h = self.spec_hours();
        let m = self.spec_minutes();
        let s = self.spec_seconds();
        let cs = self.spec_centis();
        if h == 0 && m == 0 && s == 0 && cs == 0 {
            "0s"@
        } else {
            (if h > 0 {
                dec_seq(h) + "h"@
            } else {
                Seq::<char>::empty()
            }) + (if m > 0 {
                dec_seq(m) + "m"@
            } else {
                Seq::<char>::empty()
            }) + (if s > 0 || cs > 0 {
                dec_seq(s) + (if cs > 0 {
                    "."@ + pad2_seq(cs)
                } else {
                    Seq::<char>::empty()
                }) + "s"@
            } else {
                Seq::<char>::empty()
            })
        }
    }

    /// Renders the duration in its minimal form.
    pub fn minimal_tostring(&self) -> (r: String)
        ensures
            r@ == self.spec_minimal_str(),
    {
        let h: u64 = self.micros / MICROS_PER_HOUR;
        let m: u64 = (self.micros / MICROS_PER_MINUTE) % 60;
        let s: u64 = (self.micros / MICROS_PER_SECOND) % 60;
        let cs: u64 = (self.micros / MICROS_PER_CENTI) % 100;
        if h == 0 && m == 0 && s == 0 && cs == 0 {
            String::from_str("0s")
        } else {
            let mut r = String::new();
            if h > 0 {
                let d = fmt_u64(h);
                r.append(d.as_str());
                r.append("h");
            }
            if m > 0 {
                let d = fmt_u64(m);
                r.append(d.as_str());
                r.append("m");
            }
            if s > 0 || cs > 0 {
                let d = fmt_u64(s);
                r.append(d.as_str());
                if cs > 0 {
                    r.append(".");
                    let p = fmt_pad2(cs);
                    r.append(p.as_str());
                }
                r.append("s");
            }
            proof {
                assert(r@ =~= self.spec_minimal_str());
            }
            r
        }
    }
}

} // verus!
