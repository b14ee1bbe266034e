//! From the arguments of the command line to the lines to show.

use vstd::prelude::*;
use vstd::slice::*;

use crate::error::{Error, Fault};
use crate::moment::{get_time, moment_of, render_time, shown_in, Moment, MomentView};
use crate::seqs::{
    distinct, distinct_has_no_duplicates, distinct_keeps_first, distinct_keeps_members, first_at,
    first_is_first_at,
};
use crate::text::str_eq;
use crate::zone::{known_zone, parse_tz, zone_fault, zone_name};

verus! {

/// What a run has to show: the lines to print, in order, and the error to
/// end with, if any.
#[derive(Debug, PartialEq, Eq)]
pub struct Report {
    pub lines: Vec<String>,
    pub failure: Option<Error>,
}

/// A [`Report`] as contracts see it.
pub struct ReportView {
    pub lines: Seq<Seq<char>>,
    pub failure: Option<Fault>,
}

impl View for Report {
    type V = ReportView;

    open spec fn view(&self) -> ReportView {
        ReportView {
            lines: self.lines.deep_view(),
            failure: match self.failure {
                Some(e) => Some(e@),
                None => None,
            },
        }
    }
}

/// The report of a run that shows nothing and ends with a fault.
pub open spec fn failed(fault: Fault) -> ReportView {
    ReportView { lines: seq![], failure: Some(fault) }
}

impl Report {
    /// The report of a run that shows nothing and ends with an error.
    pub fn failed(e: Error) -> (report: Report)
        ensures
            report@ == failed(e@),
    {
        let report = Report { lines: Vec::new(), failure: Some(e) };
        assert(report.lines.deep_view() =~= Seq::empty());
        report
    }
}

/// Tells whether a name is among the names of a list.
pub fn contains_name(names: &Vec<String>, name: &str) -> (found: bool)
    ensures
        found == names.deep_view().contains(name@),
{
    let mut i: usize = 0;
    while i < names.len()
        invariant
            i <= names.len(),
            forall|k: int| 0 <= k < i ==> names.deep_view()[k] != name@,
        decreases names.len() - i,
    {
        if str_eq(names[i].as_str(), name) {
            assert(names.deep_view()[i as int] == name@);
            return true;
        }
        i += 1;
    }
    false
}

/// The zones to show for the zones that the caller listed: UTC first, then
/// the listed zones in their order, each once.
pub open spec fn shown_zones(listed: Seq<Seq<char>>) -> Seq<Seq<char>> {
    distinct(seq!["UTC"@] + listed)
}

/// Lists the zones to show: UTC, then the listed zones, each zone once.
pub fn zones_to_show(listed: &[String]) -> (zones: Vec<String>)
    ensures
        zones.deep_view() == shown_zones(listed.deep_view()),
        zones.deep_view().no_duplicates(),
        zones.len() > 0 && zones[0]@ == "UTC"@,
        forall|zone: Seq<char>|
            zones.deep_view().contains(zone) <==> zone == "UTC"@ || listed.deep_view().contains(
                zone,
            ),
{
    let ghost all = seq!["UTC"@] + listed.deep_view();
    let mut zones: Vec<String> = Vec::new();
    zones.push("UTC".to_owned());
    assert(zones.deep_view() =~= distinct(all.take(1))) by {
        let one = all.take(1);
        assert(one.drop_last().len() == 0);
        assert(distinct(one.drop_last()).len() == 0);
        assert(one.last() == "UTC"@);
    }
    let mut i: usize = 0;
    while i < listed.len()
        invariant
            i <= listed.len(),
            all == seq!["UTC"@] + listed.deep_view(),
            zones.deep_view() == distinct(all.take(i + 1)),
        decreases listed.len() - i,
    {
        let ghost before = zones.deep_view();
        assert(all.take(i + 2).drop_last() =~= all.take(i + 1));
        assert(all.take(i + 2).last() == listed.deep_view()[i as int]);
        if !contains_name(&zones, listed[i].as_str()) {
            zones.push(listed[i].clone());
            assert(zones.deep_view() =~= before.push(listed.deep_view()[i as int]));
        }
        i += 1;
    }
    assert(all.take(listed.len() + 1) =~= all);
    proof {
        distinct_has_no_duplicates(all);
        distinct_keeps_first(all);
        distinct_keeps_members(all);
        assert forall|zone: Seq<char>|
            zones.deep_view().contains(zone) <==> zone == "UTC"@ || listed.deep_view().contains(
                zone,
            ) by {
            assert(distinct(all).contains(zone) <==> all.contains(zone));
            if all.contains(zone) {
                let k = choose|k: int| 0 <= k < all.len() && all[k] == zone;
                if k > 0 {
                    assert(listed.deep_view()[k - 1] == zone);
                }
            }
            if zone == "UTC"@ {
                assert(all[0] == zone);
            }
            if listed.deep_view().contains(zone) {
                let k = choose|k: int| 0 <= k < listed.len() && listed.deep_view()[k] == zone;
                assert(all[k + 1] == zone);
            }
        }
    }
    zones
}

/// The place of the first name in `zones` that names no zone.
pub open spec fn unknown_at(zones: Seq<Seq<char>>) -> int {
    first_at(zones, |zone: Seq<char>| !known_zone(zone))
}

/// What [`render_all`] reports: a line for each zone before the first
/// unknown name, and the fault of that name, if there is one.
pub open spec fn lines_of(moment: MomentView, zones: Seq<Seq<char>>) -> ReportView {
    let n = unknown_at(zones);
    ReportView {
        lines: Seq::new(n as nat, |i: int| shown_in(moment, zones[i])),
        failure: if n < zones.len() {
            Some(Fault::UnknownZone(zone_fault(zones[n])->0))
        } else {
            None
        },
    }
}

/// Shows a moment in each of the zones, in order, up to the first name that
/// names no zone.
pub fn render_all(time: &Moment, zones: &Vec<String>) -> (report: Report)
    ensures
        report@ == lines_of(time@, zones.deep_view()),
{
    let ghost names = zones.deep_view();
    let ghost unknown = |zone: Seq<char>| !known_zone(zone);
    let mut lines: Vec<String> = Vec::new();
    let mut i: usize = 0;
    while i < zones.len()
        invariant
            i <= zones.len(),
            names == zones.deep_view(),
            unknown == |zone: Seq<char>| !known_zone(zone),
            forall|k: int| 0 <= k < i ==> !unknown(#[trigger] names[k]),
            lines.deep_view() =~= Seq::new(i as nat, |k: int| shown_in(time@, names[k])),
        decreases zones.len() - i,
    {
        match render_time(time, zones[i].as_str()) {
            Ok(line) => {
                let ghost before = lines.deep_view();
                lines.push(line);
                assert(lines.deep_view() =~= before.push(line@));
            },
            Err(e) => {
                proof {
                    assert(unknown(names[i as int]));
                    first_is_first_at(names, unknown, i as int);
                }
                return Report { lines, failure: Some(e) };
            },
        }
        i += 1;
    }
    proof {
        first_is_first_at(names, unknown, i as int);
    }
    Report { lines, failure: None }
}

/// The arguments with what the caller left out: the local zone as the last
/// zone where it is known, and before it the present time where no time was
/// given.
pub open spec fn completed(
    args: Seq<Seq<char>>,
    local: Option<Seq<char>>,
    now: Seq<char>,
) -> Seq<Seq<char>> {
    match local {
        Some(zone) => if args.len() == 1 {
            args.push(now).push(zone)
        } else {
            args.push(zone)
        },
        None => args,
    }
}

/// Completes the arguments of the command line. `now` is the present time
/// as the local clock shows it, written as `parse_time` reads it.
pub fn complete_args(args: Vec<String>, local: Option<String>, now: String) -> (all: Vec<String>)
    ensures
        all.deep_view() == completed(
            args.deep_view(),
            match local {
                Some(zone) => Some(zone@),
                None => None,
            },
            now@,
        ),
{
    let mut all = args;
    let ghost given = all.deep_view();
    if let Some(zone) = local {
        if all.len() == 1 {
            all.push(now);
            assert(all.deep_view() =~= given.push(now@));
        }
        let ghost timed = all.deep_view();
        all.push(zone);
        assert(all.deep_view() =~= timed.push(zone@));
    }
    all
}

/// Whether the arguments ask for the usage line: fewer than a time and a
/// zone after the program's name, or a wish for help in place of the time.
pub open spec fn usage_wanted(args: Seq<Seq<char>>) -> bool {
    args.len() < 3 || args[1] == "-h"@ || args[1] == "--help"@
}

/// Tells whether the arguments ask for the usage line.
pub fn wants_usage(args: &Vec<String>) -> (wanted: bool)
    ensures
        wanted == usage_wanted(args.deep_view()),
{
    args.len() < 3 || str_eq(args[1].as_str(), "-h") || str_eq(args[1].as_str(), "--help")
}

/// What [`convert`] reports for complete arguments: the program's name, the
/// time, the zone in which to read it, and further zones.
pub open spec fn report_of(args: Seq<Seq<char>>) -> ReportView {
    if usage_wanted(args) {
        failed(Fault::Usage)
    } else {
        match zone_name(args[2]) {
            Err(fault) => failed(fault),
            Ok(_) => match moment_of(args[1], args[2]) {
                Err(fault) => failed(fault),
                Ok(moment) => lines_of(moment, shown_zones(args.skip(2))),
            },
        }
    }
}

/// Reads the time in the first zone and shows it in UTC and in every zone
/// of the arguments.
pub fn convert(args: &Vec<String>) -> (report: Report)
    ensures
        report@ == report_of(args.deep_view()),
{
    if wants_usage(args) {
        return Report::failed(Error::Usage);
    }
    let zone = match parse_tz(args[2].as_str()) {
        Ok(zone) => zone,
        Err(e) => {
            return Report::failed(e);
        },
    };
    let time = match get_time(args[1].as_str(), &zone) {
        Ok(time) => time,
        Err(e) => {
            return Report::failed(e);
        },
    };
    let listed = slice_subrange(args.as_slice(), 2, args.len());
    assert(listed.deep_view() =~= args.deep_view().skip(2));
    let zones = zones_to_show(listed);
    render_all(&time, &zones)
}

/// What [`run`] reports for the arguments as given, the outcome of the
/// search for the local zone, and the present time.
pub open spec fn run_report(
    args: Seq<Seq<char>>,
    local: Result<Seq<char>, Fault>,
    now: Seq<char>,
) -> ReportView {
    report_of(
        completed(
            args,
            match local {
                Ok(zone) => Some(zone),
                Err(_) => None,
            },
            now,
        ),
    )
}

/// Serves a command line: completes the arguments with the local zone, if
/// it was found, and converts.
pub fn run(args: Vec<String>, local: Result<String, Error>, now: String) -> (report: Report)
    ensures
        report@ == run_report(
            args.deep_view(),
            match local {
                Ok(zone) => Ok(zone@),
                Err(e) => Err(e@),
            },
            now@,
        ),
{
    let local = match local {
        Ok(zone) => Some(zone),
        Err(_) => None,
    };
    let all = complete_args(args, local, now);
    convert(&all)
}

} // verus!
