//! A time read in one zone, and how it shows in another.

use std::fmt::Write;

use chrono::{NaiveDate, TimeZone};
use chrono_tz::Tz;
use vstd::prelude::*;
use vstd::string::*;

use crate::civil::{parse_time, time_of, CivilTime};
use crate::error::{viewed, Error, Fault};
use crate::zone::{known_zone, parse_tz, zone_fault, Zone};

verus! {

/// Whether `local`, read in the zone of that name, is exactly one instant:
/// whether `TimeZone::from_local_datetime` of `chrono-tz` gives a single
/// result. It is false where the clock skipped or repeated that time, where
/// the fields are no date and time of day, and where the zone is unknown.
pub uninterp spec fn unique_instant(local: CivilTime, zone: Seq<char>) -> bool;

/// The stamp that `chrono` prints, under the strftime format `fmt`, for the
/// instant that is `local` in the zone `from`, once `DateTime::with_timezone`
/// has moved it to the zone `to`. It has a meaning only where that instant
/// exists, `to` is a known zone and `chrono` can print under `fmt`.
pub uninterp spec fn stamp_text(
    local: CivilTime,
    from: Seq<char>,
    to: Seq<char>,
    fmt: Seq<char>,
) -> Seq<char>;

/// The form of a stamp: the date, the time of day and the offset from UTC.
pub const STAMP_FORMAT: &'static str = "%F.%T%z";

/// Makes the fields into a `NaiveDateTime`, finds the zone with
/// `Tz::from_str`, calls `TimeZone::from_local_datetime` and tells whether
/// `MappedLocalTime::single` has an instant to give. The contract only names
/// the outcome: the zone's rules decide it.
#[verifier::external_body]
fn chrono_is_unique(local: &CivilTime, zone: &str) -> (unique: bool)
    ensures
        unique == unique_instant(*local, zone@),
{
    let date = NaiveDate::from_ymd_opt(local.year, local.month, local.day);
    let naive = match date {
        Some(d) => d.and_hms_nano_opt(local.hour, local.minute, local.second, local.nano),
        None => None,
    };
    match (naive, zone.parse::<Tz>()) {
        (Some(naive), Ok(tz)) => tz.from_local_datetime(&naive).single().is_some(),
        _ => false,
    }
}

/// Builds the instant as [`chrono_is_unique`] does, moves it to the zone
/// `to` with `DateTime::with_timezone` and prints it with `DateTime::format`
/// under `fmt`. The stamp is only named. In `chrono` moving cannot fail, nor
/// can printing under [`STAMP_FORMAT`], so the contract claims that under
/// this format a stamp comes back exactly when the instant exists and `to`
/// is a known zone.
#[verifier::external_body]
fn chrono_stamp(local: &CivilTime, from: &str, to: &str, fmt: &str) -> (r: Option<String>)
    ensures
        r matches Some(stamp) ==> stamp@ == stamp_text(*local, from@, to@, fmt@),
        fmt@ == STAMP_FORMAT@ ==> r.is_some() == (unique_instant(*local, from@) && known_zone(
            to@,
        )),
{
    let date = NaiveDate::from_ymd_opt(local.year, local.month, local.day)?;
    let naive = date.and_hms_nano_opt(local.hour, local.minute, local.second, local.nano)?;
    let from = from.parse::<Tz>().ok()?;
    let to = to.parse::<Tz>().ok()?;
    let time = from.from_local_datetime(&naive).single()?;
    let mut stamp = String::new();
    write!(stamp, "{}", time.with_timezone(&to).format(fmt)).ok()?;
    Some(stamp)
}

/// An instant, held as the civil time that names it in one zone.
///
/// Two moments are equal where they hold the same civil time in the same
/// zone: the same instant read in two zones gives two moments.
#[derive(Debug, PartialEq, Eq)]
pub struct Moment {
    local: CivilTime,
    zone: Zone,
}

/// A [`Moment`] as contracts see it.
pub struct MomentView {
    pub local: CivilTime,
    pub zone: Seq<char>,
}

impl View for Moment {
    type V = MomentView;

    closed spec fn view(&self) -> MomentView {
        MomentView { local: self.local, zone: self.zone@ }
    }
}

impl Moment {
    #[verifier::type_invariant]
    spec fn names_one_instant(self) -> bool {
        unique_instant(self.local, self.zone@)
    }

    /// The instant that `local` names in `zone`, if it names exactly one.
    pub fn at(local: CivilTime, zone: &Zone) -> (r: Option<Moment>)
        ensures
            r is Some <==> unique_instant(local, zone@),
            r matches Some(moment) ==> moment@ == (MomentView { local, zone: zone@ }),
    {
        if chrono_is_unique(&local, zone.name()) {
            Some(Moment { local, zone: zone.clone() })
        } else {
            None
        }
    }

    /// The civil time that names the instant in [`Moment::zone`].
    pub fn local(&self) -> (r: CivilTime)
        ensures
            r == self@.local,
    {
        self.local
    }

    /// The zone in which the time was read.
    pub fn zone(&self) -> (r: &Zone)
        ensures
            r@ == self@.zone,
            unique_instant(self@.local, self@.zone),
    {
        proof {
            use_type_invariant(self);
        }
        &self.zone
    }
}

/// What [`get_time`] returns for a time and a zone's name.
pub open spec fn moment_of(time: Seq<char>, zone: Seq<char>) -> Result<MomentView, Fault> {
    match time_of(time) {
        Err(fault) => Err(fault),
        Ok(local) => if unique_instant(local, zone) {
            Ok(MomentView { local, zone })
        } else {
            Err(Fault::Unresolved { time, zone })
        },
    }
}

/// Reads a time and takes it as a time of the given zone.
pub fn get_time(time: &str, zone: &Zone) -> (r: Result<Moment, Error>)
    ensures
        viewed(r) == moment_of(time@, zone@),
{
    let local = match parse_time(time) {
        Ok(local) => local,
        Err(e) => {
            return Err(e);
        },
    };
    match Moment::at(local, zone) {
        Some(moment) => Ok(moment),
        None => Err(Error::Unresolved { time: time.to_owned(), zone: zone.name().to_owned() }),
    }
}

/// A line of the output: a stamp, then the zone's name in brackets.
pub open spec fn line_text(stamp: Seq<char>, zone: Seq<char>) -> Seq<char> {
    stamp + " ("@ + zone + ")"@
}

/// Puts a stamp and a zone's name together into a line of the output.
pub fn time_line(stamp: &str, zone: &str) -> (line: String)
    ensures
        line@ == line_text(stamp@, zone@),
{
    let mut line = stamp.to_owned();
    line.append(" (");
    line.append(zone);
    line.append(")");
    line
}

/// The line that shows a moment in a zone.
pub open spec fn shown_in(moment: MomentView, zone: Seq<char>) -> Seq<char> {
    line_text(stamp_text(moment.local, moment.zone, zone, STAMP_FORMAT@), zone)
}

/// Shows a moment in a zone: the stamp with the zone's offset, then the
/// zone's name.
pub fn render_time_tz(time: &Moment, zone: &Zone) -> (line: String)
    ensures
        line@ == shown_in(time@, zone@),
{
    proof {
        use_type_invariant(time);
    }
    let stamp = chrono_stamp(&time.local, time.zone.name(), zone.name(), STAMP_FORMAT).unwrap();
    time_line(stamp.as_str(), zone.name())
}

/// What [`render_time`] returns for a moment and a zone's name.
pub open spec fn shown_by_name(moment: MomentView, zone: Seq<char>) -> Result<Seq<char>, Fault> {
    match zone_fault(zone) {
        None => Ok(shown_in(moment, zone)),
        Some(answer) => Err(Fault::UnknownZone(answer)),
    }
}

/// Shows a moment in the zone of the given name, if there is such a zone.
pub fn render_time(time: &Moment, zone: &str) -> (r: Result<String, Error>)
    ensures
        viewed(r) == shown_by_name(time@, zone@),
{
    match parse_tz(zone) {
        Ok(tz) => Ok(render_time_tz(time, &tz)),
        Err(e) => Err(e),
    }
}

} // verus!
