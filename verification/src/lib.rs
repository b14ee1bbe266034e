//! `datez` converts a point in time, written without a UTC offset, into UTC
//! and into any number of zones of the tz database.
//!
//! The time is read in the first zone that the caller lists. It is shown in
//! UTC, then in every listed zone, each zone once, as a time stamp with its
//! offset from UTC followed by the zone's name. The local zone, where the
//! system names it, is shown last.
//!
//! This crate holds the rules: the accepted ways of writing a time
//! ([`civil`]), the validation of zone names ([`zone`]), the conversion
//! ([`moment`]), the discovery of the local zone in what the system reports
//! ([`local`]), and the way from the arguments of a command line to the
//! lines to show ([`run`]). Reading the environment and the clock, and
//! printing, are left to the caller.
//!
//! # What is proved
//!
//! Every function is verified with Verus against a contract that says what
//! it returns for every input. The calendar, the zone database and the two
//! text encodings are those of `chrono`, `chrono-tz` and the standard
//! library. Each call into them stands in a small function of its own whose
//! contract is believed, not proved; most of these contracts do no more
//! than give the outcome a name, such as [`zone::zone_fault`], so that the
//! contracts of the verified functions can say exactly what is done with it.

pub mod civil;
pub mod error;
pub mod local;
pub mod moment;
pub mod run;
pub mod seqs;
pub mod text;
pub mod zone;

pub use civil::{parse_time, CivilTime};
pub use error::Error;
pub use local::{localzone, SystemZone};
pub use moment::{get_time, render_time, render_time_tz, time_line, Moment};
pub use run::{run, Report};
pub use zone::{parse_tz, tz_ok, Zone};
