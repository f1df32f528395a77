use vstd::prelude::*;
use crate::song::Song;

verus! {

/// A playlist to create on the streaming platform: its name and the track
/// links to add, in one call, in order.
#[derive(Debug)]
pub struct PlaylistPlan {
    pub name: String,
    pub uris: Vec<String>,
}

/// Why no playlist can be assembled.
#[derive(Debug, Clone, Copy, PartialEq, Eq, Structural)]
pub enum PlaylistError {
    /// The day has no stored songs.
    NoSongs,
}

pub open spec fn links_of(songs: Seq<Song>) -> Seq<Seq<char>> {
    songs.map_values(|s: Song| s.link@)
}

/// Plans the playlist of one day's songs, named after the day; `NoSongs`
/// when there are none.
pub fn assemble(songs: &Vec<Song>, day_label: &str) -> (r: Result<PlaylistPlan, PlaylistError>)
    ensures
        songs@.len() == 0 <==> r is Err,
        r is Err ==> r == Err::<PlaylistPlan, PlaylistError>(PlaylistError::NoSongs),
        r matches Ok(p) ==> p.name@ == day_label@ && p.uris.deep_view() == links_of(songs@),
{
    if songs.len() == 0 {
        return Err(PlaylistError::NoSongs);
    }
    let mut uris: Vec<String> = Vec::new();
    let mut i: usize = 0;
    while i < songs.len()
        invariant
            i <= songs@.len(),
            uris.deep_view() == links_of(songs@.subrange(0, i as int)),
        decreases songs@.len() - i,
    {
        uris.push(songs[i].link.clone());
        proof {
            assert(links_of(songs@.subrange(0, i as int + 1)) =~= links_of(songs@.subrange(0, i as int)).push(songs@[i as int].link@));
            assert(uris.deep_view() =~= links_of(songs@.subrange(0, i as int)).push(songs@[i as int].link@));
        }
        i = i + 1;
    }
    assert(songs@.subrange(0, songs@.len() as int) =~= songs@);
    Ok(PlaylistPlan { name: String::from_str(day_label), uris })
}

} // verus!
