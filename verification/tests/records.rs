use chrono::NaiveDate;
use lp::models::{NewRelease, NewSong, Release, Song};
use lp::readers::Error;
use lp::tag::{PictureType, StringType};

#[test]
fn reader_errors_carry_their_message() {
    let e = Error::Mapping("unknown artist".to_string());
    assert_eq!(format!("{:?}", e), "Mapping(\"unknown artist\")");
    let e = Error::Parse("missing title".to_string());
    assert!(matches!(e, Error::Parse(ref m) if m == "missing title"));
}

#[test]
fn rows_hold_their_values() {
    let day = NaiveDate::from_ymd_opt(2005, 11, 11).unwrap();
    let at = day.and_hms_opt(0, 0, 0).unwrap();
    let release = Release {
        id: 3,
        album_id: 2,
        released_on: day,
        country: Some("JP".to_string()),
        catalog_number: None,
        disambiguation: Some("jp".to_string()),
        artwork_data: None,
        created_at: at,
        updated_at: at,
    };
    assert_eq!(release.disambiguation.as_deref(), Some("jp"));
    let new_release = NewRelease {
        album_id: 2,
        released_on: day,
        country: Some("JP"),
        catalog_number: Some("HPD-37"),
        disambiguation: None,
        artwork_data: None,
        created_at: at,
        updated_at: at,
    };
    assert_eq!(new_release.catalog_number, Some("HPD-37"));
    let song = Song { id: 1, artist_credit_id: 4, created_at: at, updated_at: at };
    let new_song = NewSong { artist_credit_id: song.artist_credit_id, created_at: at, updated_at: at };
    assert_eq!(new_song.artist_credit_id, 4);
}

#[test]
fn taglib_enumerations() {
    assert!(matches!(PictureType::FrontCover, PictureType::FrontCover));
    assert!(!matches!(StringType::UTF8, StringType::Latin1));
}
