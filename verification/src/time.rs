//! Conversion of capture timestamps into one canonical representation.
//!
//! Centralising the handling of header times keeps the rest of the pipeline
//! free of timestamp arithmetic.

use vstd::prelude::*;

use crate::error::TimestampConversionError;
use crate::text::{dec_nat, push_u64};

verus! {

/// The text of a timestamp: whole seconds, a dot, then the microseconds.
pub open spec fn time_text(secs: u64, micros: u32) -> Seq<char> {
    dec_nat(secs as nat) + seq!['.'] + dec_nat(micros as nat)
}

/// A capture timestamp, normalised to whole seconds plus microseconds.
#[derive(Clone, Copy, Debug, PartialEq, Eq, Structural)]
pub struct HeaderReportedTime {
    pub secs: u64,
    pub micros: u32,
}

impl HeaderReportedTime {
    /// Builds a timestamp from the seconds and microseconds fields of a
    /// capture header, failing when either is negative.
    pub fn try_from_timeval(tv_sec: i64, tv_usec: i64) -> (r: Result<
        Self,
        TimestampConversionError,
    >)
        ensures
            tv_sec >= 0 && tv_usec >= 0 <==> r is Ok,
            r matches Ok(t) ==> {
                &&& t.secs == tv_sec + tv_usec / 1_000_000
                &&& t.micros == tv_usec % 1_000_000
            },
    {
        if tv_sec < 0 || tv_usec < 0 {
            return Err(TimestampConversionError);
        }
        let secs = (tv_sec as u64) + ((tv_usec / 1_000_000) as u64);
        let micros = (tv_usec % 1_000_000) as u32;
        Ok(HeaderReportedTime { secs, micros })
    }

    /// Renders the timestamp as `"<seconds>.<microseconds>"`.
    pub fn to_string(&self) -> (r: String)
        ensures
            r@ == time_text(self.secs, self.micros),
    {
        proof {
            reveal_strlit(".");
        }
        let mut out = String::new();
        push_u64(&mut out, self.secs);
        out.append(".");
        push_u64(&mut out, self.micros as u64);
        proof {
            assert(out@ =~= time_text(self.secs, self.micros));
        }
        out
    }
}

} // verus!
