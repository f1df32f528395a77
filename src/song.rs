use vstd::prelude::*;
use crate::genre::GenreTypes;
use chrono::Datelike;

verus! {

/// Milliseconds in one calendar day.
pub const MS_PER_DAY: i64 = 86_400_000;

/// Day number (days since January 1 of year 1, that day being 1) of
/// 1970-01-01, the day at which timestamps count zero.
pub const UNIX_EPOCH_DAY: i64 = 719_163;

/// A persisted song of the day. `created_at` counts milliseconds since
/// 1970-01-01T00:00:00Z.
#[derive(Debug)]
pub struct Song {
    pub id: i32,
    pub title: String,
    pub artist: String,
    pub genre: GenreTypes,
    pub link: String,
    pub description: Option<String>,
    pub overview: Option<String>,
    pub album_cover: String,
    pub created_at: i64,
}

/// A song about to be stored: everything but the identifier and the
/// timestamp that the store assigns.
#[derive(Debug)]
pub struct NewSong {
    pub title: String,
    pub artist: String,
    pub link: String,
    pub description: String,
    pub overview: String,
    pub genre: GenreTypes,
    pub album_cover: String,
}

/// Why a song could not be prepared for storage.
#[derive(Debug, Clone, Copy, PartialEq, Eq, Structural)]
pub enum SongError {
    /// `Unknown` is never stored as a song's genre.
    UnknownGenre,
}

/// Why a listing of one day's songs was refused.
#[derive(Debug, Clone, Copy, PartialEq, Eq, Structural)]
pub enum SongsQueryError {
    /// No day was given.
    NoDay,
    /// The day is not written as `YYYY-MM-DD`.
    BadDay,
}

/// The half-open span of timestamps `[start_ms, end_ms)` of one day.
#[derive(Debug, Clone, Copy, PartialEq, Eq, Structural)]
pub struct DayWindow {
    pub start_ms: i64,
    pub end_ms: i64,
}

pub open spec fn day_start(day: int) -> int {
    (day - UNIX_EPOCH_DAY) * MS_PER_DAY
}

/// A timestamp falls on a day when it lies in `[day 00:00, day+1 00:00)`.
pub open spec fn on_day(created_at: int, day: int) -> bool {
    day_start(day) <= created_at < day_start(day + 1)
}

/// The calendar day that text of the shape `YYYY-MM-DD` names, as a day
/// number; `None` when the text names no valid date.
pub uninterp spec fn day_number_of(s: Seq<char>) -> Option<int>;

/// The rows created on the given day, in their order.
pub open spec fn songs_of_day(rows: Seq<Song>, day: int) -> Seq<Song> {
    rows.filter(|s: Song| on_day(s.created_at as int, day))
}

pub open spec fn date_format() -> Seq<char> {
    seq!['%', 'Y', '-', '%', 'm', '-', '%', 'd']
}

fn copy_text(s: &Option<String>) -> (r: Option<String>)
    ensures
        r == *s,
{
    match s {
        Some(t) => Some(t.clone()),
        None => None,
    }
}

impl Clone for Song {
    fn clone(&self) -> (r: Self)
        ensures
            r == *self,
    {
        Song {
            id: self.id,
            title: self.title.clone(),
            artist: self.artist.clone(),
            genre: self.genre,
            link: self.link.clone(),
            description: copy_text(&self.description),
            overview: copy_text(&self.overview),
            album_cover: self.album_cover.clone(),
            created_at: self.created_at,
        }
    }
}

impl Clone for NewSong {
    fn clone(&self) -> (r: Self)
        ensures
            r == *self,
    {
        NewSong {
            title: self.title.clone(),
            artist: self.artist.clone(),
            link: self.link.clone(),
            description: self.description.clone(),
            overview: self.overview.clone(),
            genre: self.genre,
            album_cover: self.album_cover.clone(),
        }
    }
}

impl NewSong {
    /// Prepares a row for storage; refuses the `Unknown` genre.
    pub fn new(
        title: String,
        artist: String,
        link: String,
        description: String,
        overview: String,
        genre: GenreTypes,
        album_cover: String,
    ) -> (r: Result<NewSong, SongError>)
        ensures
            genre == GenreTypes::Unknown ==> r == Err::<NewSong, SongError>(SongError::UnknownGenre),
            genre != GenreTypes::Unknown ==> r == Ok::<NewSong, SongError>(
                NewSong { title, artist, link, description, overview, genre, album_cover },
            ),
    {
        if genre == GenreTypes::Unknown {
            return Err(SongError::UnknownGenre);
        }
        Ok(NewSong { title, artist, link, description, overview, genre, album_cover })
    }

    /// A row ready for storage never carries the `Unknown` genre.
    pub open spec fn wf(&self) -> bool {
        self.genre != GenreTypes::Unknown
    }

    /// Whether the row may be stored.
    pub fn is_storable(&self) -> (r: bool)
        ensures
            r == self.wf(),
    {
        self.genre != GenreTypes::Unknown
    }
}

impl Song {
    /// The stored row for `row`, once the store has given it an identifier
    /// and a creation time.
    pub fn stored(row: NewSong, id: i32, created_at: i64) -> (r: Song)
        ensures
            r == (Song {
                id,
                title: row.title,
                artist: row.artist,
                genre: row.genre,
                link: row.link,
                description: Some(row.description),
                overview: Some(row.overview),
                album_cover: row.album_cover,
                created_at,
            }),
    {
        Song {
            id,
            title: row.title,
            artist: row.artist,
            genre: row.genre,
            link: row.link,
            description: Some(row.description),
            overview: Some(row.overview),
            album_cover: row.album_cover,
            created_at,
        }
    }
}

/// The span of timestamps of the day with the given day number.
pub fn day_window(day: i32) -> (r: DayWindow)
    ensures
        r.start_ms == day_start(day as int),
        r.end_ms == day_start(day as int + 1),
{
    let d: i64 = day as i64 - UNIX_EPOCH_DAY;
    assert(-2_147_483_648 - 719_163 <= d < 2_147_483_648);
    let start: i64 = d * MS_PER_DAY;
    DayWindow { start_ms: start, end_ms: start + MS_PER_DAY }
}

/// Whether a timestamp falls on the day with the given day number.
pub fn is_on_day(created_at: i64, day: i32) -> (r: bool)
    ensures
        r == on_day(created_at as int, day as int),
{
    let w = day_window(day);
    w.start_ms <= created_at && created_at < w.end_ms
}

/// Relies on chrono's `NaiveDate::parse_from_str` to read a date and on
/// `Datelike::num_days_from_ce` for its day number.
#[verifier::external_body]
fn parse_day(s: &str, format: &str) -> (r: Option<i32>)
    ensures
        format@ == date_format() ==> (r matches Some(d) ==> day_number_of(s@) == Some(d as int)),
        format@ == date_format() ==> (r is None <==> day_number_of(s@) is None),
{
    chrono::NaiveDate::parse_from_str(s, format).ok().map(|d| d.num_days_from_ce())
}

/// Reads the day of a listing request: `NoDay` without one, `BadDay` when
/// it is not a valid `YYYY-MM-DD` date, else its day number.
pub fn requested_day(day: Option<&str>) -> (r: Result<i32, SongsQueryError>)
    ensures
        day is None ==> r == Err::<i32, SongsQueryError>(SongsQueryError::NoDay),
        day matches Some(s) ==> (day_number_of(s@) is None <==> r == Err::<i32, SongsQueryError>(
            SongsQueryError::BadDay,
        )),
        day matches Some(s) ==> (r matches Ok(d) ==> day_number_of(s@) == Some(d as int)),
        day is Some ==> r != Err::<i32, SongsQueryError>(SongsQueryError::NoDay),
{
    match day {
        None => Err(SongsQueryError::NoDay),
        Some(s) => {
            proof {
                reveal_strlit("%Y-%m-%d");
            }
            assert("%Y-%m-%d"@ == date_format());
            match parse_day(s, "%Y-%m-%d") {
                Some(d) => Ok(d),
                None => Err(SongsQueryError::BadDay),
            }
        },
    }
}

/// The songs among `rows` created on the given day, in their order.
pub fn songs_on_day(rows: &Vec<Song>, day: i32) -> (r: Vec<Song>)
    ensures
        r@ == songs_of_day(rows@, day as int),
{
    let mut out: Vec<Song> = Vec::new();
    let mut i: usize = 0;
    while i < rows.len()
        invariant
            i <= rows@.len(),
            out@ == rows@.subrange(0, i as int).filter(|s: Song| on_day(s.created_at as int, day as int)),
        decreases rows@.len() - i,
    {
        proof {
            reveal(Seq::filter);
            assert(rows@.subrange(0, i as int + 1).drop_last() == rows@.subrange(0, i as int));
        }
        if is_on_day(rows[i].created_at, day) {
            out.push(rows[i].clone());
        }
        i = i + 1;
    }
    assert(rows@.subrange(0, rows@.len() as int) == rows@);
    out
}

/// A timestamp in the last millisecond of a day lies on that day, and the
/// first millisecond of the next day does not.
pub proof fn lemma_day_boundary(day: int)
    ensures
        on_day(day_start(day + 1) - 1, day),
        !on_day(day_start(day + 1), day),
        on_day(day_start(day), day),
{
    assert(day_start(day + 1) == day_start(day) + MS_PER_DAY) by (nonlinear_arith);
}

} // verus!
