//! What the artist and track name repositories compute before they go to the
//! database: search patterns and the rows they insert.
use vstd::prelude::*;

use chrono::NaiveDateTime;

verus! {

/// The SQL `LIKE` pattern that matches every name containing `query`.
pub open spec fn spec_like_pattern(query: Seq<char>) -> Seq<char> {
    "%"@ + query + "%"@
}

/// Returns the SQL `LIKE` pattern that matches every name containing `query`.
/// The query is used as it is: a `%` or `_` in it keeps its `LIKE` meaning.
pub fn like_pattern(query: &str) -> (pattern: String)
    ensures
        pattern@ == spec_like_pattern(query@),
        pattern@.len() == query@.len() + 2,
        pattern@[0] == '%',
        pattern@.last() == '%',
        pattern@.subrange(1, pattern@.len() - 1) == query@,
{
    proof {
        lemma_like_pattern_wraps_query(query@);
    }
    let mut pattern = "%".to_owned();
    pattern.append(query);
    pattern.append("%");
    pattern
}

/// The `LIKE` pattern for a query is a `%`, then the query unchanged, then a
/// `%`: every name that contains the query somewhere matches it.
pub proof fn lemma_like_pattern_wraps_query(query: Seq<char>)
    ensures
        spec_like_pattern(query).len() == query.len() + 2,
        spec_like_pattern(query)[0] == '%',
        spec_like_pattern(query).last() == '%',
        spec_like_pattern(query).subrange(1, query.len() as int + 1) == query,
{
    reveal_strlit("%");
    let p = spec_like_pattern(query);
    assert(p.subrange(1, query.len() as int + 1) =~= query);
}

/// A date of which only some parts may be known.
#[derive(Clone, Copy, Debug, PartialEq, Eq)]
pub struct PartialDate {
    pub year: Option<i16>,
    pub month: Option<i16>,
    pub day: Option<i16>,
}

/// The date of which nothing is known.
pub open spec fn unknown_date() -> PartialDate {
    PartialDate { year: None, month: None, day: None }
}

impl Default for PartialDate {
    fn default() -> (d: PartialDate)
        ensures
            d == unknown_date(),
    {
        PartialDate { year: None, month: None, day: None }
    }
}

/// `date` where it is given, else the date of which nothing is known.
pub open spec fn date_or_unknown(date: Option<PartialDate>) -> PartialDate {
    match date {
        Some(d) => d,
        None => unknown_date(),
    }
}

/// A given date keeps every one of its parts, whichever are known; a date
/// that is not given has no known part.
pub proof fn lemma_date_or_unknown_keeps_parts(date: Option<PartialDate>)
    ensures
        date matches Some(d) ==> date_or_unknown(date).year == d.year && date_or_unknown(
            date,
        ).month == d.month && date_or_unknown(date).day == d.day,
        date is None ==> date_or_unknown(date).year is None && date_or_unknown(date).month is None
            && date_or_unknown(date).day is None,
{
}

/// An artist, to be stored.
pub struct NewArtist<'a> {
    pub kind: i32,
    pub country: &'a str,
    pub disambiguation: Option<&'a str>,
    pub started_on_year: Option<i16>,
    pub started_on_month: Option<i16>,
    pub started_on_day: Option<i16>,
    pub ended_on_year: Option<i16>,
    pub ended_on_month: Option<i16>,
    pub ended_on_day: Option<i16>,
    pub created_at: NaiveDateTime,
    pub updated_at: NaiveDateTime,
}

/// The row that creating an artist inserts: the given values, the parts of
/// the start and end dates (unknown where a date is not given), and `now` as
/// both the creation and the update time.
pub fn new_artist<'a>(
    kind: i32,
    country: &'a str,
    started_on: Option<PartialDate>,
    ended_on: Option<PartialDate>,
    disambiguation: Option<&'a str>,
    now: NaiveDateTime,
) -> (artist: NewArtist<'a>)
    ensures
        artist.kind == kind,
        artist.country == country,
        artist.disambiguation == disambiguation,
        artist.started_on_year == date_or_unknown(started_on).year,
        artist.started_on_month == date_or_unknown(started_on).month,
        artist.started_on_day == date_or_unknown(started_on).day,
        artist.ended_on_year == date_or_unknown(ended_on).year,
        artist.ended_on_month == date_or_unknown(ended_on).month,
        artist.ended_on_day == date_or_unknown(ended_on).day,
        artist.created_at == now,
        artist.updated_at == now,
        started_on matches Some(d) ==> artist.started_on_year == d.year
            && artist.started_on_month == d.month && artist.started_on_day == d.day,
        started_on is None ==> artist.started_on_year is None && artist.started_on_month is None
            && artist.started_on_day is None,
        ended_on matches Some(d) ==> artist.ended_on_year == d.year && artist.ended_on_month
            == d.month && artist.ended_on_day == d.day,
        ended_on is None ==> artist.ended_on_year is None && artist.ended_on_month is None
            && artist.ended_on_day is None,
{
    proof {
        lemma_date_or_unknown_keeps_parts(started_on);
        lemma_date_or_unknown_keeps_parts(ended_on);
    }
    let started_on = match started_on {
        Some(d) => d,
        None => PartialDate::default(),
    };
    let ended_on = match ended_on {
        Some(d) => d,
        None => PartialDate::default(),
    };
    NewArtist {
        kind,
        country,
        disambiguation,
        started_on_year: started_on.year,
        started_on_month: started_on.month,
        started_on_day: started_on.day,
        ended_on_year: ended_on.year,
        ended_on_month: ended_on.month,
        ended_on_day: ended_on.day,
        created_at: now,
        updated_at: now,
    }
}

/// The key of a track row.
pub type TrackId = i32;

/// A name of a track, to be stored.
pub struct NewTrackName<'a> {
    pub track_id: TrackId,
    pub name: &'a str,
    pub locale: &'a str,
    pub is_default: bool,
    pub is_original: bool,
    pub created_at: NaiveDateTime,
    pub updated_at: NaiveDateTime,
}

/// The row that creating a track name inserts: the given values, and `now` as
/// both the creation and the update time.
pub fn new_track_name<'a>(
    track_id: TrackId,
    name: &'a str,
    locale: &'a str,
    is_default: bool,
    is_original: bool,
    now: NaiveDateTime,
) -> (row: NewTrackName<'a>)
    ensures
        row.track_id == track_id,
        row.name == name,
        row.locale == locale,
        row.is_default == is_default,
        row.is_original == is_original,
        row.created_at == now,
        row.updated_at == now,
{
    NewTrackName { track_id, name, locale, is_default, is_original, created_at: now, updated_at: now }
}

} // verus!
