use datez::run::{
    complete_args, contains_name, convert, render_all, run, wants_usage, zones_to_show, Report,
};
use datez::{get_time, parse_tz, Error};

fn words(list: &[&str]) -> Vec<String> {
    list.iter().map(|word| word.to_string()).collect()
}

fn unknown() -> Error {
    Error::UnknownZone("failed to parse timezone".to_string())
}

#[test]
fn contains_name_looks_at_every_name() {
    let names = words(&["UTC", "Europe/Paris", "Asia/Tokyo"]);
    assert!(contains_name(&names, "UTC"));
    assert!(contains_name(&names, "Asia/Tokyo"));
    assert!(!contains_name(&names, "Asia"));
    assert!(!contains_name(&names, "utc"));
    assert!(!contains_name(&Vec::new(), "UTC"));
}

#[test]
fn zones_to_show_starts_with_utc() {
    assert_eq!(zones_to_show(&[]), words(&["UTC"]));
    assert_eq!(zones_to_show(&words(&["Europe/Paris"])), words(&["UTC", "Europe/Paris"]));
}

#[test]
fn zones_to_show_names_each_zone_once() {
    let listed = words(&["Europe/Paris", "UTC", "Asia/Tokyo", "Europe/Paris", "Asia/Tokyo", "UTC"]);
    assert_eq!(zones_to_show(&listed), words(&["UTC", "Europe/Paris", "Asia/Tokyo"]));
}

#[test]
fn zones_to_show_keeps_the_order_of_first_mention() {
    let listed = words(&["b", "a", "b", "c", "a"]);
    assert_eq!(zones_to_show(&listed), words(&["UTC", "b", "a", "c"]));
}

#[test]
fn zones_to_show_changes_nothing_the_second_time() {
    let listed = words(&["Europe/Paris", "UTC", "Asia/Tokyo", "Europe/Paris"]);
    let once = zones_to_show(&listed);
    assert_eq!(zones_to_show(&once[1..]), once);
}

#[test]
fn render_all_shows_every_zone() {
    let paris = parse_tz("Europe/Paris").unwrap();
    let moment = get_time("2021-07-21T16:00:00", &paris).unwrap();
    let report = render_all(&moment, &words(&["UTC", "Asia/Tokyo"]));
    let lines = words(&["2021-07-21.14:00:00+0000 (UTC)", "2021-07-21.23:00:00+0900 (Asia/Tokyo)"]);
    assert_eq!(report, Report { lines, failure: None });
}

#[test]
fn render_all_stops_at_the_first_unknown_zone() {
    let paris = parse_tz("Europe/Paris").unwrap();
    let moment = get_time("2021-07-21T16:00:00", &paris).unwrap();
    let report = render_all(&moment, &words(&["UTC", "Nowhere/None", "Asia/Tokyo"]));
    let lines = words(&["2021-07-21.14:00:00+0000 (UTC)"]);
    assert_eq!(report, Report { lines, failure: Some(unknown()) });
}

#[test]
fn render_all_of_no_zone_is_empty() {
    let paris = parse_tz("Europe/Paris").unwrap();
    let moment = get_time("2021-07-21T16:00:00", &paris).unwrap();
    assert_eq!(render_all(&moment, &Vec::new()), Report { lines: Vec::new(), failure: None });
}

#[test]
fn complete_args_adds_the_local_zone() {
    let args = words(&["datez", "2021-07-21T16:00:00", "Europe/Paris"]);
    let all = complete_args(args, Some("Asia/Tokyo".to_string()), "2022-01-01.00:00:00".to_string());
    assert_eq!(all, words(&["datez", "2021-07-21T16:00:00", "Europe/Paris", "Asia/Tokyo"]));
}

#[test]
fn complete_args_adds_the_present_time_where_nothing_was_given() {
    let all = complete_args(
        words(&["datez"]),
        Some("Asia/Tokyo".to_string()),
        "2022-01-01.00:00:00".to_string(),
    );
    assert_eq!(all, words(&["datez", "2022-01-01.00:00:00", "Asia/Tokyo"]));
}

#[test]
fn complete_args_reads_a_lone_time_in_the_local_zone() {
    let all = complete_args(
        words(&["datez", "2021-07-21T16:00:00"]),
        Some("Asia/Tokyo".to_string()),
        "2022-01-01.00:00:00".to_string(),
    );
    assert_eq!(all, words(&["datez", "2021-07-21T16:00:00", "Asia/Tokyo"]));
}

#[test]
fn complete_args_adds_nothing_without_a_local_zone() {
    let all = complete_args(words(&["datez"]), None, "2022-01-01.00:00:00".to_string());
    assert_eq!(all, words(&["datez"]));
    let args = words(&["datez", "2021-07-21T16:00:00", "Europe/Paris"]);
    assert_eq!(complete_args(args.clone(), None, "2022-01-01.00:00:00".to_string()), args);
}

#[test]
fn complete_args_leaves_an_empty_list_without_a_time() {
    let all = complete_args(Vec::new(), Some("UTC".to_string()), "2022-01-01.00:00:00".to_string());
    assert_eq!(all, words(&["UTC"]));
}

#[test]
fn wants_usage_counts_the_arguments() {
    assert!(wants_usage(&Vec::new()));
    assert!(wants_usage(&words(&["datez"])));
    assert!(wants_usage(&words(&["datez", "2021-07-21T16:00:00"])));
    assert!(!wants_usage(&words(&["datez", "2021-07-21T16:00:00", "UTC"])));
    assert!(!wants_usage(&words(&["datez", "bad", "Nowhere/None", "x"])));
}

#[test]
fn wants_usage_hears_a_wish_for_help() {
    assert!(wants_usage(&words(&["datez", "-h", "UTC"])));
    assert!(wants_usage(&words(&["datez", "--help", "UTC"])));
    assert!(!wants_usage(&words(&["datez", "-help", "UTC"])));
    assert!(!wants_usage(&words(&["datez", "2021-07-21T16:00:00", "-h"])));
}

#[test]
fn convert_shows_utc_first_and_each_zone_once() {
    let args = words(&[
        "datez",
        "2021-07-21T16:00:00",
        "Europe/Paris",
        "UTC",
        "Asia/Tokyo",
        "Europe/Paris",
        "America/New_York",
    ]);
    let lines = words(&[
        "2021-07-21.14:00:00+0000 (UTC)",
        "2021-07-21.16:00:00+0200 (Europe/Paris)",
        "2021-07-21.23:00:00+0900 (Asia/Tokyo)",
        "2021-07-21.10:00:00-0400 (America/New_York)",
    ]);
    assert_eq!(convert(&args), Report { lines, failure: None });
}

#[test]
fn convert_reads_the_time_in_the_first_zone() {
    let args = words(&["datez", "20211201213433", "Asia/Tokyo", "Europe/Paris"]);
    let lines = words(&[
        "2021-12-01.12:34:33+0000 (UTC)",
        "2021-12-01.21:34:33+0900 (Asia/Tokyo)",
        "2021-12-01.13:34:33+0100 (Europe/Paris)",
    ]);
    assert_eq!(convert(&args), Report { lines, failure: None });
}

#[test]
fn convert_asks_for_a_time_and_a_zone() {
    assert_eq!(convert(&words(&["datez"])), Report::failed(Error::Usage));
    assert_eq!(convert(&words(&["datez", "2021-07-21T16:00:00"])), Report::failed(Error::Usage));
    assert_eq!(convert(&words(&["datez", "--help", "UTC"])), Report::failed(Error::Usage));
}

#[test]
fn convert_looks_at_the_zone_before_the_time() {
    let args = words(&["datez", "bad", "Nowhere/None"]);
    assert_eq!(convert(&args), Report::failed(unknown()));
    let args = words(&["datez", "bad", "Europe/Paris"]);
    assert_eq!(convert(&args), Report::failed(Error::BadTime));
}

#[test]
fn convert_shows_nothing_of_a_time_that_is_no_instant() {
    let args = words(&["datez", "2021-03-28T02:30:00", "Europe/Paris", "UTC"]);
    let failure = Error::Unresolved {
        time: "2021-03-28T02:30:00".to_string(),
        zone: "Europe/Paris".to_string(),
    };
    assert_eq!(convert(&args), Report::failed(failure));
}

#[test]
fn convert_shows_the_lines_before_an_unknown_zone() {
    let args = words(&["datez", "2021-07-21T16:00:00", "Europe/Paris", "Nowhere/None", "Asia/Tokyo"]);
    let lines = words(&["2021-07-21.14:00:00+0000 (UTC)", "2021-07-21.16:00:00+0200 (Europe/Paris)"]);
    assert_eq!(convert(&args), Report { lines, failure: Some(unknown()) });
}

#[test]
fn run_shows_the_local_zone_last() {
    let args = words(&["datez", "2021-07-21T16:00:00", "Europe/Paris"]);
    let report = run(args, Ok("Asia/Tokyo".to_string()), "2022-01-01.00:00:00".to_string());
    let lines = words(&[
        "2021-07-21.14:00:00+0000 (UTC)",
        "2021-07-21.16:00:00+0200 (Europe/Paris)",
        "2021-07-21.23:00:00+0900 (Asia/Tokyo)",
    ]);
    assert_eq!(report, Report { lines, failure: None });
}

#[test]
fn run_shows_the_present_time_where_nothing_was_given() {
    let report = run(words(&["datez"]), Ok("Asia/Tokyo".to_string()), "2022-01-01.00:00:00".to_string());
    let lines = words(&["2021-12-31.15:00:00+0000 (UTC)", "2022-01-01.00:00:00+0900 (Asia/Tokyo)"]);
    assert_eq!(report, Report { lines, failure: None });
}

#[test]
fn run_reads_a_lone_time_in_the_local_zone() {
    let args = words(&["datez", "2021-07-21.16:00:00"]);
    let report = run(args, Ok("UTC".to_string()), "2022-01-01.00:00:00".to_string());
    let lines = words(&["2021-07-21.16:00:00+0000 (UTC)"]);
    assert_eq!(report, Report { lines, failure: None });
}

#[test]
fn run_goes_on_without_a_local_zone() {
    let args = words(&["datez", "2021-07-21T16:00:00", "Europe/Paris"]);
    let report = run(args, Err(Error::NoLocalZone), "2022-01-01.00:00:00".to_string());
    let lines = words(&["2021-07-21.14:00:00+0000 (UTC)", "2021-07-21.16:00:00+0200 (Europe/Paris)"]);
    assert_eq!(report, Report { lines, failure: None });
}

#[test]
fn run_asks_for_arguments_without_a_local_zone() {
    let report = run(words(&["datez"]), Err(Error::NoLocalZone), "2022-01-01.00:00:00".to_string());
    assert_eq!(report, Report::failed(Error::Usage));
    let report = run(
        words(&["datez", "2021-07-21T16:00:00"]),
        Err(Error::NotUtf8),
        "2022-01-01.00:00:00".to_string(),
    );
    assert_eq!(report, Report::failed(Error::Usage));
}

#[test]
fn run_hears_a_wish_for_help_with_a_local_zone() {
    let report = run(words(&["datez", "-h"]), Ok("UTC".to_string()), "2022-01-01.00:00:00".to_string());
    assert_eq!(report, Report::failed(Error::Usage));
}
