//! Rows of the catalogue database: releases and songs.
use vstd::prelude::*;

use chrono::{NaiveDate, NaiveDateTime};

verus! {

/// A calendar date (chrono), carried through opaquely.
#[verifier::external_type_specification]
#[verifier::external_body]
pub struct ExNaiveDate(NaiveDate);

/// A date and time of day (chrono), carried through opaquely.
#[verifier::external_type_specification]
#[verifier::external_body]
pub struct ExNaiveDateTime(NaiveDateTime);

/// The key of an album row.
pub type AlbumId = i32;

/// The key of a release row.
pub type ReleaseId = i32;

/// The key of an artist credit row.
pub type ArtistCreditId = i32;

/// The key of a song row.
pub type SongId = i32;

/// A release of an album, as stored.
#[derive(Debug)]
pub struct Release {
    pub id: AlbumId,
    pub album_id: AlbumId,
    pub released_on: NaiveDate,
    pub country: Option<String>,
    pub catalog_number: Option<String>,
    pub disambiguation: Option<String>,
    pub artwork_data: Option<String>,
    pub created_at: NaiveDateTime,
    pub updated_at: NaiveDateTime,
}

/// A release of an album, to be stored.
pub struct NewRelease<'a> {
    pub album_id: AlbumId,
    pub released_on: NaiveDate,
    pub country: Option<&'a str>,
    pub catalog_number: Option<&'a str>,
    pub disambiguation: Option<&'a str>,
    pub artwork_data: Option<String>,
    pub created_at: NaiveDateTime,
    pub updated_at: NaiveDateTime,
}

/// A song, as stored.
#[derive(Debug)]
pub struct Song {
    pub id: SongId,
    pub artist_credit_id: ArtistCreditId,
    pub created_at: NaiveDateTime,
    pub updated_at: NaiveDateTime,
}

/// A song, to be stored.
pub struct NewSong {
    pub artist_credit_id: ArtistCreditId,
    pub created_at: NaiveDateTime,
    pub updated_at: NaiveDateTime,
}

} // verus!
