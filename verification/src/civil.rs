//! Reading a time that is written without a UTC offset.

use chrono::{Datelike, NaiveDateTime, Timelike};
use vstd::prelude::*;

use crate::error::{viewed, Error, Fault};
use crate::seqs::{first_at, first_is_first_at};

verus! {

/// A date and a time of day as a calendar and a clock show them, with no
/// word on the zone.
///
/// During a leap second `second` is 59 and `nano` is 1_000_000_000 or more.
#[derive(Debug, Clone, Copy, PartialEq, Eq)]
pub struct CivilTime {
    pub year: i32,
    pub month: u32,
    pub day: u32,
    pub hour: u32,
    pub minute: u32,
    pub second: u32,
    pub nano: u32,
}

impl View for CivilTime {
    type V = CivilTime;

    open spec fn view(&self) -> CivilTime {
        *self
    }
}

/// What `chrono` reads from `text` under the strftime format `fmt`:
/// the result of `NaiveDateTime::parse_from_str`, `None` where it reports
/// an error.
pub uninterp spec fn naive_parsed(text: Seq<char>, fmt: Seq<char>) -> Option<CivilTime>;

/// Calls `chrono::NaiveDateTime::parse_from_str` and hands out the fields of
/// the date and time it read. The contract only names the outcome: it is
/// whatever `chrono` makes of this text under this format.
#[verifier::external_body]
fn chrono_parse(text: &str, fmt: &str) -> (r: Option<CivilTime>)
    ensures
        r == naive_parsed(text@, fmt@),
{
    match NaiveDateTime::parse_from_str(text, fmt) {
        Ok(t) => Some(
            CivilTime {
                year: t.year(),
                month: t.month(),
                day: t.day(),
                hour: t.hour(),
                minute: t.minute(),
                second: t.second(),
                nano: t.nanosecond(),
            },
        ),
        Err(_) => None,
    }
}

/// The accepted ways of writing a time, in the order in which they are tried.
pub open spec fn time_formats() -> Seq<Seq<char>> {
    seq![
        "%F.%T"@,
        "%FT%T"@,
        "%F %T"@,
        "%Y%m%d%H%M%S"@,
        "%Y%m%d.%H%M%S"@,
        "%Y%m%dT%H%M%S"@,
        "%Y%m%d %H%M%S"@,
    ]
}

/// The place, among the accepted forms, of the first one under which
/// `text` reads as a time; their number where it reads under none.
pub open spec fn format_at(text: Seq<char>) -> int {
    first_at(time_formats(), |fmt: Seq<char>| naive_parsed(text, fmt) is Some)
}

/// What [`parse_time`] returns for `text`: its reading under the first of
/// the accepted forms under which it reads.
pub open spec fn time_of(text: Seq<char>) -> Result<CivilTime, Fault> {
    let k = format_at(text);
    if k < time_formats().len() {
        Ok(naive_parsed(text, time_formats()[k])->0)
    } else {
        Err(Fault::BadTime)
    }
}

/// Reads a time written in one of the accepted forms, trying them in order.
pub fn parse_time(arg: &str) -> (r: Result<CivilTime, Error>)
    ensures
        viewed(r) == time_of(arg@),
{
    let fmts = [
        "%F.%T",
        "%FT%T",
        "%F %T",
        "%Y%m%d%H%M%S",
        "%Y%m%d.%H%M%S",
        "%Y%m%dT%H%M%S",
        "%Y%m%d %H%M%S",
    ];
    let ghost formats = time_formats();
    let ghost reads = |fmt: Seq<char>| naive_parsed(arg@, fmt) is Some;
    let mut i: usize = 0;
    while i < 7
        invariant
            i <= 7,
            formats == time_formats(),
            formats.len() == 7,
            fmts@.len() == 7,
            reads == |fmt: Seq<char>| naive_parsed(arg@, fmt) is Some,
            forall|j: int| 0 <= j < 7 ==> (#[trigger] fmts@[j])@ == formats[j],
            forall|j: int| 0 <= j < i ==> !reads(#[trigger] formats[j]),
        decreases 7 - i,
    {
        if let Some(t) = chrono_parse(arg, fmts[i]) {
            proof {
                first_is_first_at(formats, reads, i as int);
            }
            return Ok(t);
        }
        i += 1;
    }
    proof {
        first_is_first_at(formats, reads, 7);
    }
    Err(Error::BadTime)
}

} // verus!
