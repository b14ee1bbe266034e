//! The ways in which a request can fail.

use vstd::prelude::*;
use vstd::string::*;

verus! {

/// Why a time could not be converted, or a zone not be found.
#[derive(Debug, PartialEq, Eq)]
pub enum Error {
    /// The time is written in none of the accepted forms.
    BadTime,
    /// The zone database holds no zone of that name. The text is what the
    /// database answered.
    UnknownZone(String),
    /// A zone name is not UTF-8 text.
    NotUtf8,
    /// The time, read in the zone, names no instant or more than one.
    Unresolved { time: String, zone: String },
    /// Nothing that the system reports names the local zone.
    NoLocalZone,
    /// Too few arguments were given, or help was asked for.
    Usage,
}

/// An [`Error`] as contracts see it: the same cases, with each text as a
/// sequence of characters.
pub enum Fault {
    BadTime,
    UnknownZone(Seq<char>),
    NotUtf8,
    Unresolved { time: Seq<char>, zone: Seq<char> },
    NoLocalZone,
    Usage,
}

impl View for Error {
    type V = Fault;

    open spec fn view(&self) -> Fault {
        match self {
            Error::BadTime => Fault::BadTime,
            Error::UnknownZone(answer) => Fault::UnknownZone(answer@),
            Error::NotUtf8 => Fault::NotUtf8,
            Error::Unresolved { time, zone } => Fault::Unresolved { time: time@, zone: zone@ },
            Error::NoLocalZone => Fault::NoLocalZone,
            Error::Usage => Fault::Usage,
        }
    }
}

impl Fault {
    /// The words in which the fault is reported.
    pub open spec fn message(self) -> Seq<char> {
        match self {
            Fault::BadTime => "time must be in RFC 3339 / ISO 8601 format, without a UTC offset"@,
            Fault::UnknownZone(answer) => answer,
            Fault::NotUtf8 => "not utf8"@,
            Fault::Unresolved { time, zone } => "could not convert "@ + time + " to "@ + zone
                + " timezone"@,
            Fault::NoLocalZone => "could not find local timezone"@,
            Fault::Usage => "usage: datez <datetime> <tz>..."@,
        }
    }
}

impl Error {
    /// The words in which the error is reported.
    pub fn message(&self) -> (text: String)
        ensures
            text@ == self@.message(),
    {
        match self {
            Error::BadTime => {
                "time must be in RFC 3339 / ISO 8601 format, without a UTC offset".to_owned()
            },
            Error::UnknownZone(answer) => answer.clone(),
            Error::NotUtf8 => "not utf8".to_owned(),
            Error::Unresolved { time, zone } => {
                let mut text = "could not convert ".to_owned();
                text.append(time.as_str());
                text.append(" to ");
                text.append(zone.as_str());
                text.append(" timezone");
                text
            },
            Error::NoLocalZone => "could not find local timezone".to_owned(),
            Error::Usage => "usage: datez <datetime> <tz>...".to_owned(),
        }
    }
}

/// A result as contracts see it: the view of the value, or of the error.
pub open spec fn viewed<T: View>(r: Result<T, Error>) -> Result<T::V, Fault> {
    match r {
        Ok(value) => Ok(value@),
        Err(e) => Err(e@),
    }
}

} // verus!
