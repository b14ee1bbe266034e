//! Zones of the tz database, known by their names.

use chrono_tz::Tz;
use vstd::prelude::*;
use vstd::utf8::*;

use crate::error::{viewed, Error, Fault};
use crate::text::utf8_text;

verus! {

/// What `chrono-tz` answers when asked for the zone of a name, with
/// `Tz::from_str`: `None` where its database has a zone of that name, else
/// the text of its error.
pub uninterp spec fn zone_fault(name: Seq<char>) -> Option<Seq<char>>;

/// Whether the tz database has a zone of this name.
pub open spec fn known_zone(name: Seq<char>) -> bool {
    zone_fault(name) is None
}

/// Calls `chrono_tz::Tz::from_str`, drops the zone it found and turns its
/// error into text. The contract only names the outcome: the database
/// decides it.
#[verifier::external_body]
fn zone_lookup(name: &str) -> (r: Result<(), String>)
    ensures
        match r {
            Ok(_) => zone_fault(name@) is None,
            Err(answer) => zone_fault(name@) == Some(answer@),
        },
{
    match name.parse::<Tz>() {
        Ok(_) => Ok(()),
        Err(e) => Err(e.to_string()),
    }
}

/// A zone of the tz database. Its view is its name.
#[derive(Debug, PartialEq, Eq)]
pub struct Zone {
    name: String,
}

impl View for Zone {
    type V = Seq<char>;

    closed spec fn view(&self) -> Seq<char> {
        self.name@
    }
}

impl Zone {
    #[verifier::type_invariant]
    spec fn in_database(self) -> bool {
        known_zone(self.name@)
    }

    /// The zone's name, as the database spells it.
    pub fn name(&self) -> (r: &str)
        ensures
            r@ == self@,
            known_zone(self@),
    {
        proof {
            use_type_invariant(self);
        }
        self.name.as_str()
    }
}

impl Clone for Zone {
    fn clone(&self) -> (r: Zone)
        ensures
            r@ == self@,
    {
        proof {
            use_type_invariant(self);
        }
        Zone { name: self.name.clone() }
    }
}

/// A name as the name of a zone: itself where the database has it, else the
/// database's answer as a fault.
pub open spec fn zone_name(name: Seq<char>) -> Result<Seq<char>, Fault> {
    match zone_fault(name) {
        None => Ok(name),
        Some(answer) => Err(Fault::UnknownZone(answer)),
    }
}

/// Finds the zone that a name stands for.
pub fn parse_tz(zone: &str) -> (r: Result<Zone, Error>)
    ensures
        viewed(r) == zone_name(zone@),
{
    match zone_lookup(zone) {
        Ok(_) => Ok(Zone { name: zone.to_owned() }),
        Err(answer) => Err(Error::UnknownZone(answer)),
    }
}

/// What [`tz_ok`] returns for the bytes of a name.
pub open spec fn checked_name(bytes: Seq<u8>) -> Result<Seq<char>, Fault> {
    if valid_utf8(bytes) {
        zone_name(decode_utf8(bytes))
    } else {
        Err(Fault::NotUtf8)
    }
}

/// Validates a zone name that the system handed over as bytes, and returns
/// it as text.
pub fn tz_ok(zone: &[u8]) -> (r: Result<String, Error>)
    ensures
        viewed(r) == checked_name(zone@),
        r matches Ok(name) ==> known_zone(name@),
{
    match utf8_text(zone) {
        None => Err(Error::NotUtf8),
        Some(text) => {
            proof {
                encode_utf8_decode_utf8(text@);
            }
            match parse_tz(text) {
                Ok(_) => Ok(text.to_owned()),
                Err(e) => Err(e),
            }
        },
    }
}

} // verus!
