use chrono::NaiveDate;
use lp::repositories::{like_pattern, new_artist, new_track_name, PartialDate};

#[test]
fn like_pattern_wraps_the_query() {
    assert_eq!(like_pattern("nujabes"), "%nujabes%");
    assert_eq!(like_pattern(""), "%%");
    assert_eq!(like_pattern("50%"), "%50%%");
}

#[test]
fn partial_date_default_is_unknown() {
    let d = PartialDate::default();
    assert_eq!(d, PartialDate { year: None, month: None, day: None });
}

#[test]
fn new_artist_spreads_dates_and_stamps_times() {
    let now = NaiveDate::from_ymd_opt(2020, 5, 17).unwrap().and_hms_opt(12, 0, 0).unwrap();
    let started = PartialDate { year: Some(1974), month: Some(2), day: Some(7) };
    let a = new_artist(0, "JP", Some(started), None, Some("producer"), now);
    assert_eq!(a.kind, 0);
    assert_eq!(a.country, "JP");
    assert_eq!(a.disambiguation, Some("producer"));
    assert_eq!((a.started_on_year, a.started_on_month, a.started_on_day), (Some(1974), Some(2), Some(7)));
    assert_eq!((a.ended_on_year, a.ended_on_month, a.ended_on_day), (None, None, None));
    assert_eq!(a.created_at, now);
    assert_eq!(a.updated_at, now);

    let ended = PartialDate { year: Some(2010), month: None, day: None };
    let b = new_artist(1, "US", None, Some(ended), None, now);
    assert_eq!((b.started_on_year, b.started_on_month, b.started_on_day), (None, None, None));
    assert_eq!((b.ended_on_year, b.ended_on_month, b.ended_on_day), (Some(2010), None, None));
    assert_eq!(b.disambiguation, None);
}

#[test]
fn new_track_name_copies_values_and_stamps_times() {
    let now = NaiveDate::from_ymd_opt(2021, 1, 2).unwrap().and_hms_opt(3, 4, 5).unwrap();
    let row = new_track_name(9, "Luv(sic)", "en", true, false, now);
    assert_eq!(row.track_id, 9);
    assert_eq!(row.name, "Luv(sic)");
    assert_eq!(row.locale, "en");
    assert!(row.is_default);
    assert!(!row.is_original);
    assert_eq!(row.created_at, now);
    assert_eq!(row.updated_at, now);
}
