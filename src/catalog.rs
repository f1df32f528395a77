use vstd::prelude::*;
use crate::genre::{GenreTypes, genre_text};
use crate::song::Song;

verus! {

/// Minimum popularity the recommendation provider is asked for.
pub const MIN_POPULARITY: u32 = 50;

/// Tracks asked of the recommendation provider per candidate request.
pub const CANDIDATES_PER_REQUEST: u32 = 1;

/// Number of albums asked of a catalog search.
pub const ALBUM_SEARCH_LIMIT: u32 = 1;

/// A candidate track as the recommendation provider describes it: its
/// display name, the names of its artists in listed order, and its external
/// links as (link type, URL) pairs.
#[derive(Debug)]
pub struct Track {
    pub name: String,
    pub artists: Vec<String>,
    pub external_urls: Vec<(String, String)>,
}

/// An album found by a catalog search, with the URLs of its cover images
/// in listed order.
#[derive(Debug)]
pub struct Album {
    pub image_urls: Vec<String>,
}

/// One call to the recommendation provider: the genre as sole seed, the
/// most tracks wanted, and the minimum popularity.
#[derive(Debug)]
pub struct RecommendationRequest {
    pub seed_genre: String,
    pub limit: u32,
    pub min_popularity: u32,
}

/// A song of the history has this title and artist.
pub open spec fn in_history(history: Seq<Song>, title: Seq<char>, artist: Seq<char>) -> bool {
    exists|i: int| 0 <= i < history.len() && #[trigger] history[i].title@ == title && history[i].artist@ == artist
}

/// The link type under which the streaming platform's own link is listed.
pub open spec fn platform_link_type() -> Seq<char> {
    seq!['s', 'p', 'o', 't', 'i', 'f', 'y']
}

/// `link` is the URL of the first pair listed under the platform's type.
pub open spec fn is_platform_link(urls: Seq<(String, String)>, link: Seq<char>) -> bool {
    exists|i: int|
        0 <= i < urls.len() && #[trigger] urls[i].0@ == platform_link_type() && urls[i].1@ == link
            && forall|j: int| 0 <= j < i ==> (#[trigger] urls[j].0)@ != platform_link_type()
}

/// Some pair is listed under the platform's type.
pub open spec fn has_platform_link(urls: Seq<(String, String)>) -> bool {
    exists|i: int| 0 <= i < urls.len() && #[trigger] urls[i].0@ == platform_link_type()
}

/// The catalog query for a track: the artist, a space, the title.
pub open spec fn album_query_text(artist: Seq<char>, title: Seq<char>) -> Seq<char> {
    artist + seq![' '] + title
}

/// The cover of the first album found: the first image of the first album.
pub open spec fn first_cover(albums: Seq<Album>) -> Option<Seq<char>> {
    if albums.len() > 0 && albums[0].image_urls@.len() > 0 {
        Some(albums[0].image_urls@[0]@)
    } else {
        None
    }
}

/// Whether a song of `history` has this title and artist.
pub fn is_known(history: &Vec<Song>, title: &String, artist: &String) -> (r: bool)
    ensures
        r == in_history(history@, title@, artist@),
{
    let mut i: usize = 0;
    while i < history.len()
        invariant
            i <= history@.len(),
            forall|j: int| 0 <= j < i ==> !(#[trigger] history@[j].title@ == title@ && history@[j].artist@ == artist@),
        decreases history@.len() - i,
    {
        let song = &history[i];
        let same_title = song.title.eq(title);
        let same_artist = song.artist.eq(artist);
        if same_title && same_artist {
            return true;
        }
        i = i + 1;
    }
    false
}

/// The request for `limit` tracks of a genre.
pub fn recommendation_request(genre: GenreTypes, limit: u32) -> (r: RecommendationRequest)
    ensures
        r.seed_genre@ == genre_text(genre),
        r.limit == limit,
        r.min_popularity == MIN_POPULARITY,
{
    RecommendationRequest { seed_genre: genre.name(), limit, min_popularity: MIN_POPULARITY }
}

/// The track's link on the streaming platform, if it has one.
pub fn platform_link(urls: &Vec<(String, String)>) -> (r: Option<String>)
    ensures
        r is None <==> !has_platform_link(urls@),
        r matches Some(l) ==> is_platform_link(urls@, l@),
{
    let key = String::from_str("spotify");
    proof {
        reveal_strlit("spotify");
    }
    assert(key@ == platform_link_type());
    let mut i: usize = 0;
    while i < urls.len()
        invariant
            i <= urls@.len(),
            key@ == platform_link_type(),
            forall|j: int| 0 <= j < i ==> (#[trigger] urls@[j].0)@ != platform_link_type(),
        decreases urls@.len() - i,
    {
        let pair = &urls[i];
        if pair.0.eq(&key) {
            assert(urls@[i as int].0@ == platform_link_type());
            return Some(pair.1.clone());
        }
        i = i + 1;
    }
    assert forall|k: int| 0 <= k < urls@.len() implies #[trigger] urls@[k].0@ != platform_link_type() by {
        assert((urls@[k].0)@ != platform_link_type());
    }
    None
}

/// The catalog query `"<artist> <title>"`.
pub fn album_query(artist: &String, title: &String) -> (r: String)
    ensures
        r@ == album_query_text(artist@, title@),
{
    let mut q = artist.clone();
    q.append(" ");
    q.append(title.as_str());
    proof {
        reveal_strlit(" ");
    }
    q
}

/// The first track of a recommendation, if there is one.
pub fn first_track(tracks: Vec<Track>) -> (r: Option<Track>)
    ensures
        tracks@.len() == 0 ==> r is None,
        tracks@.len() > 0 ==> r == Some(tracks@[0]),
{
    let mut tracks = tracks;
    if tracks.len() == 0 {
        return None;
    }
    let t = tracks.swap_remove(0);
    Some(t)
}

/// The cover URL of the first album's first image, if any.
pub fn album_cover(albums: &Vec<Album>) -> (r: Option<String>)
    ensures
        r is None <==> first_cover(albums@) is None,
        r matches Some(c) ==> first_cover(albums@) == Some(c@),
{
    if albums.len() == 0 || albums[0].image_urls.len() == 0 {
        return None;
    }
    Some(albums[0].image_urls[0].clone())
}

} // verus!
