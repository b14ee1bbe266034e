//! Finding the name of the local zone in what the system reports.

use vstd::prelude::*;
use vstd::slice::*;
use vstd::utf8::*;

use crate::error::{viewed, Error, Fault};
use crate::seqs::{first_at, first_at_is_first, first_is_first_at};
use crate::text::{str_eq, utf16_decoded, utf16_text};
use crate::zone::{checked_name, known_zone, tz_ok, zone_name};

verus! {

/// What the operating system reports about the local zone.
#[derive(Debug, PartialEq, Eq)]
pub enum SystemZone {
    /// The components of the path that the link `/etc/localtime` points to,
    /// in order, the root as `/`.
    Link(Vec<Vec<u8>>),
    /// The answer of `GetTimeZoneInformation`: the value it returned, and the
    /// standard name as UTF-16 code units, padded with NUL.
    Windows { status: u32, standard_name: Vec<u16> },
    /// The system reported nothing.
    Silent,
}

/// A [`SystemZone`] as contracts see it.
pub enum SystemZoneView {
    Link(Seq<Seq<u8>>),
    Windows { status: u32, standard_name: Seq<u16> },
    Silent,
}

impl View for SystemZone {
    type V = SystemZoneView;

    open spec fn view(&self) -> SystemZoneView {
        match self {
            SystemZone::Link(components) => SystemZoneView::Link(components.deep_view()),
            SystemZone::Windows { status, standard_name } => SystemZoneView::Windows {
                status: *status,
                standard_name: standard_name@,
            },
            SystemZone::Silent => SystemZoneView::Silent,
        }
    }
}

/// The byte that separates the components of a path.
pub const SEPARATOR: u8 = 47;

/// Two components put together as a path: the second one alone where it
/// starts at the root, else the first, a separator unless the first is empty
/// or ends in one, and the second.
pub open spec fn joined(dir: Seq<u8>, leaf: Seq<u8>) -> Seq<u8> {
    if leaf.len() > 0 && leaf[0] == SEPARATOR {
        leaf
    } else if dir.len() == 0 || dir.last() == SEPARATOR {
        dir + leaf
    } else {
        dir + seq![SEPARATOR] + leaf
    }
}

/// Puts two components of a path together.
pub fn join_path(dir: &[u8], leaf: &[u8]) -> (path: Vec<u8>)
    ensures
        path@ == joined(dir@, leaf@),
{
    let mut path: Vec<u8> = Vec::new();
    if leaf.len() > 0 && leaf[0] == SEPARATOR {
        path.extend_from_slice(leaf);
    } else {
        path.extend_from_slice(dir);
        if dir.len() > 0 && dir[dir.len() - 1] != SEPARATOR {
            path.push(SEPARATOR);
        }
        path.extend_from_slice(leaf);
    }
    path
}

/// What [`localzone_link`] returns for the components of a link's target:
/// the last two components as one name if that is a known zone, else the
/// last component alone.
pub open spec fn link_zone(components: Seq<Seq<u8>>) -> Result<Seq<char>, Fault> {
    let n = components.len() as int;
    if n >= 2 && checked_name(joined(components[n - 2], components[n - 1])) is Ok {
        checked_name(joined(components[n - 2], components[n - 1]))
    } else if n >= 1 {
        checked_name(components[n - 1])
    } else {
        Err(Fault::NoLocalZone)
    }
}

/// Finds the local zone in the target of the link `/etc/localtime`, given
/// as its components: `Europe/Paris` for `/usr/share/zoneinfo/Europe/Paris`,
/// and a name of one part, such as `UTC`, where the last two parts name no
/// zone.
pub fn localzone_link(components: &Vec<Vec<u8>>) -> (r: Result<String, Error>)
    ensures
        viewed(r) == link_zone(components.deep_view()),
        r matches Ok(name) ==> known_zone(name@),
{
    let n = components.len();
    proof {
        let parts = components.deep_view();
        assert(n >= 1 ==> parts[n - 1] =~= components[n - 1]@);
        assert(n >= 2 ==> parts[n - 2] =~= components[n - 2]@);
    }
    if n >= 2 {
        let zone = join_path(components[n - 2].as_slice(), components[n - 1].as_slice());
        if let Ok(zone) = tz_ok(zone.as_slice()) {
            return Ok(zone);
        }
    }
    if n >= 1 {
        return tz_ok(components[n - 1].as_slice());
    }
    Err(Error::NoLocalZone)
}

/// The number of code units before the first NUL, all of them where there
/// is no NUL.
pub open spec fn nul_at(wide: Seq<u16>) -> int {
    first_at(wide, |unit: u16| unit == 0)
}

/// Counts the code units that stand before the first NUL.
pub fn wide_len(wide: &[u16]) -> (n: usize)
    ensures
        n == nul_at(wide@),
{
    let mut n: usize = 0;
    while n < wide.len() && wide[n] != 0
        invariant
            n <= wide.len(),
            forall|i: int| 0 <= i < n ==> wide[i] != 0,
        decreases wide.len() - n,
    {
        n += 1;
    }
    proof {
        first_is_first_at(wide@, |unit: u16| unit == 0, n as int);
    }
    n
}

/// The text of a name that Windows handed over: what the code units before
/// the first NUL encode.
pub open spec fn wide_text(wide: Seq<u16>) -> Option<Seq<char>> {
    utf16_decoded(wide.take(nul_at(wide)))
}

/// Reads a name that Windows handed over as UTF-16 code units, ended or
/// padded with NUL. There is none where the units are not UTF-16.
pub fn from_wide_null(wide: &[u16]) -> (r: Option<String>)
    ensures
        match r {
            Some(text) => wide_text(wide@) == Some(text@),
            None => wide_text(wide@) is None,
        },
{
    let len = wide_len(wide);
    proof {
        first_at_is_first(wide@, |unit: u16| unit == 0);
    }
    utf16_text(slice_subrange(wide, 0, len))
}

/// What [`canonize_tz`] returns for a name.
pub open spec fn canonical_name(zone: Seq<char>) -> Result<Seq<char>, Fault> {
    if zone == "Romance Standard Time"@ {
        Ok("Europe/Paris"@)
    } else {
        zone_name(zone)
    }
}

/// Turns the name that Windows gives a zone into the name that the tz
/// database gives it, for the names where the two are known to differ, and
/// validates every other name as it is.
pub fn canonize_tz(zone: &str) -> (r: Result<String, Error>)
    ensures
        viewed(r) == canonical_name(zone@),
{
    if str_eq(zone, "Romance Standard Time") {
        return Ok("Europe/Paris".to_owned());
    }
    proof {
        encode_utf8_valid_utf8(zone@);
        encode_utf8_decode_utf8(zone@);
    }
    tz_ok(zone.as_bytes())
}

/// The greatest value of `GetTimeZoneInformation` that stands for an answer.
pub const TIME_ZONE_ID_DAYLIGHT: u32 = 2;

/// What [`localzone_windows`] returns for an answer of Windows.
pub open spec fn windows_zone(status: u32, standard_name: Seq<u16>) -> Result<
    Seq<char>,
    Fault,
> {
    if status <= TIME_ZONE_ID_DAYLIGHT {
        match wide_text(standard_name) {
            Some(name) => canonical_name(name),
            None => Err(Fault::NoLocalZone),
        }
    } else {
        Err(Fault::NoLocalZone)
    }
}

/// Finds the local zone in the answer of `GetTimeZoneInformation`: in the
/// standard name, where the call reported no error.
pub fn localzone_windows(status: u32, standard_name: &[u16]) -> (r: Result<String, Error>)
    ensures
        viewed(r) == windows_zone(status, standard_name@),
{
    if status <= TIME_ZONE_ID_DAYLIGHT {
        match from_wide_null(standard_name) {
            Some(zone) => canonize_tz(zone.as_str()),
            None => Err(Error::NoLocalZone),
        }
    } else {
        Err(Error::NoLocalZone)
    }
}

/// What the system's report says about the local zone.
pub open spec fn system_zone(system: SystemZoneView) -> Result<Seq<char>, Fault> {
    match system {
        SystemZoneView::Link(components) => link_zone(components),
        SystemZoneView::Windows { status, standard_name } => windows_zone(status, standard_name),
        SystemZoneView::Silent => Err(Fault::NoLocalZone),
    }
}

/// Finds the local zone in what the operating system reports.
pub fn localzone_os(system: &SystemZone) -> (r: Result<String, Error>)
    ensures
        viewed(r) == system_zone(system@),
{
    match system {
        SystemZone::Link(components) => localzone_link(components),
        SystemZone::Windows { status, standard_name } => localzone_windows(
            *status,
            standard_name.as_slice(),
        ),
        SystemZone::Silent => Err(Error::NoLocalZone),
    }
}

/// The local zone: the value of the variable `TZ` where it is set and names
/// a zone, else what the system reports.
pub open spec fn local_zone(tz_env: Option<Seq<u8>>, system: SystemZoneView) -> Result<
    Seq<char>,
    Fault,
> {
    if tz_env is Some && checked_name(tz_env->0) is Ok {
        checked_name(tz_env->0)
    } else {
        system_zone(system)
    }
}

/// Looks for the local zone: first in the value of the environment variable
/// `TZ`, if it is set, then in what the operating system reports. The first
/// of the two that names a zone decides; where neither does, the error is
/// that of the system's report.
pub fn localzone(tz_env: Option<&[u8]>, system: &SystemZone) -> (r: Result<String, Error>)
    ensures
        viewed(r) == local_zone(
            match tz_env {
                Some(zone) => Some(zone@),
                None => None,
            },
            system@,
        ),
{
    if let Some(zone) = tz_env {
        if let Ok(name) = tz_ok(zone) {
            return Ok(name);
        }
    }
    localzone_os(system)
}

} // verus!
