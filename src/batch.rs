use vstd::prelude::*;
use crate::genre::GenreTypes;
use crate::song::{Song, NewSong};
use crate::token::{Token, TokenView, SessionData, read_token, write_token, holds_token, token_of_bytes, is_expired_at};
use crate::catalog::{Track, Album, in_history, is_known, first_track, album_cover, platform_link, has_platform_link, is_platform_link};
use crate::metadata::DetailResponse;

verus! {

/// Candidate requests per genre when the caller names no other bound.
pub const DEFAULT_MAX_ATTEMPTS: u32 = 10;

/// Where a batch stands. `Done` and `Failed` are final.
#[derive(Debug, Clone, Copy, PartialEq, Eq, Structural)]
pub enum Stage {
    Authorizing,
    Requesting,
    EnrichingArt,
    EnrichingMetadata,
    Persisting,
    Done,
    Failed,
}

/// Why a batch stopped.
#[derive(Debug, Clone, Copy, PartialEq, Eq, Structural)]
pub enum BatchError {
    /// A configured genre names no known genre.
    UnknownGenre,
    /// No usable token, or its refresh failed.
    Auth,
    /// A provider could not be reached.
    Upstream,
    /// The provider recommended nothing.
    NoTrack,
    /// Every candidate within the attempt bound was already known.
    ExhaustedCandidates,
    /// The candidate lists no artist.
    NoArtist,
    /// The candidate has no link on the streaming platform.
    NoLink,
    /// The catalog found no album cover for the candidate.
    NoAlbum,
    /// The store refused the song.
    Storage,
    /// An event arrived that the current stage does not wait for.
    UnexpectedEvent,
}

/// A failure with the stage and the genre position where it happened.
#[derive(Debug, Clone, Copy, PartialEq, Eq, Structural)]
pub struct Failure {
    pub error: BatchError,
    pub stage: Stage,
    pub genre_index: usize,
}

/// What the caller is to do next.
pub enum Action {
    /// Refresh this token with the streaming platform.
    Refresh(Token),
    /// Ask the recommendation provider for one track of this genre.
    Recommend(GenreTypes),
    /// Search the catalog for the album of this track.
    SearchAlbum { artist: String, title: String },
    /// Ask the metadata provider about this track.
    FetchDetails { artist: String, title: String },
    /// Store this song.
    Save(NewSong),
    /// The batch is complete: the songs created, in genre order.
    Finish(Vec<Song>),
    /// The batch stopped.
    Fail(Failure),
}

/// What came back from the last action; `None` marks a failed call.
pub enum Event {
    Refreshed(Option<Token>),
    Recommended(Option<Vec<Track>>),
    AlbumsFound(Option<Vec<Album>>),
    Described(Option<DetailResponse>),
    /// The identifier and creation time the store gave the song.
    Saved(Option<(i32, i64)>),
}

/// One run of the recommendation workflow over a user's genres. The history
/// of the user's songs is fixed when the batch starts.
pub struct Batch {
    pub genres: Vec<GenreTypes>,
    pub history: Vec<Song>,
    pub max_attempts: u32,
    pub session: SessionData,
    pub index: usize,
    pub attempts: u32,
    pub stage: Stage,
    pub title: String,
    pub artist: String,
    pub link: String,
    pub cover: String,
    pub pending: Option<NewSong>,
    pub created: Vec<Song>,
}

/// No genre of the list is `Unknown`.
pub open spec fn all_known(genres: Seq<GenreTypes>) -> bool {
    forall|i: int| 0 <= i < genres.len() ==> #[trigger] genres[i] != GenreTypes::Unknown
}

/// The token a session holds, if it holds a readable one.
pub open spec fn stored_token(s: SessionData) -> Option<TokenView> {
    match s.access_token {
        Some(b) => if b@.len() > 0 {
            token_of_bytes(b@)
        } else {
            None
        },
        None => None,
    }
}

/// The batch has ended.
pub open spec fn is_final(stage: Stage) -> bool {
    stage == Stage::Done || stage == Stage::Failed
}

/// A candidate track has been accepted and is being completed.
pub open spec fn is_candidate_stage(stage: Stage) -> bool {
    stage == Stage::EnrichingArt || stage == Stage::EnrichingMetadata || stage == Stage::Persisting
}

/// The action ends the batch with this error.
pub open spec fn fails_with(a: Action, e: BatchError) -> bool {
    a matches Action::Fail(f) && f.error == e
}

impl Batch {
    /// The batch's invariant: it works on known genres, has created one song
    /// per finished genre, each of that genre and new to the history, stays
    /// within the attempt bound, and holds a new candidate while completing
    /// one.
    pub open spec fn wf(&self) -> bool {
        &&& self.stage != Stage::Failed ==> all_known(self.genres@)
        &&& self.index <= self.genres@.len()
        &&& self.created@.len() == self.index
        &&& self.attempts <= self.max_attempts
        &&& (self.stage == Stage::Requesting || is_candidate_stage(self.stage)) ==> self.index
            < self.genres@.len()
        &&& self.stage == Stage::Requesting ==> self.attempts >= 1
        &&& self.stage == Stage::Authorizing ==> self.index == 0
        &&& self.stage == Stage::Done ==> self.index == self.genres@.len()
        &&& forall|i: int|
            0 <= i < self.created@.len() ==> (#[trigger] self.created@[i]).genre == self.genres@[i]
                && !in_history(self.history@, self.created@[i].title@, self.created@[i].artist@)
        &&& is_candidate_stage(self.stage) ==> !in_history(
            self.history@,
            self.title@,
            self.artist@,
        )
        &&& self.stage == Stage::Persisting ==> (self.pending matches Some(row) && row.title@
            == self.title@ && row.artist@ == self.artist@ && row.genre == self.genres@[self.index as int])
    }

    /// Steps left before the batch ends, at most: each non-final step lowers it.
    pub open spec fn measure(&self) -> int {
        let n = self.genres@.len() as int;
        let i = self.index as int;
        let block = self.max_attempts as int + 4;
        match self.stage {
            Stage::Authorizing => n * block + 1,
            Stage::Requesting => (n - i - 1) * block + (self.max_attempts - self.attempts) + 4,
            Stage::EnrichingArt => (n - i - 1) * block + 3,
            Stage::EnrichingMetadata => (n - i - 1) * block + 2,
            Stage::Persisting => (n - i - 1) * block + 1,
            _ => 0,
        }
    }

    /// The batch has begun its first genre, or ended at once when there is
    /// none or no request is allowed.
    pub open spec fn begun(&self, a: Action) -> bool {
        &&& self.index == 0
        &&& if self.genres@.len() == 0 {
            self.stage == Stage::Done && (a matches Action::Finish(v) && v@.len() == 0)
        } else if self.max_attempts == 0 {
            self.stage == Stage::Failed && fails_with(a, BatchError::ExhaustedCandidates)
        } else {
            &&& self.stage == Stage::Requesting
            &&& self.attempts == 1
            &&& a matches Action::Recommend(g) && g == self.genres@[0]
        }
    }
}

impl Batch {
    fn fail(&mut self, error: BatchError) -> (r: Action)
        ensures
            *final(self) == (Batch { stage: Stage::Failed, ..*old(self) }),
            r == Action::Fail(Failure { error, stage: old(self).stage, genre_index: old(self).index }),
    {
        let stage = self.stage;
        self.stage = Stage::Failed;
        Action::Fail(Failure { error, stage, genre_index: self.index })
    }

    /// Moves to the genre at `index`, or finishes when none is left.
    fn begin_genre(&mut self) -> (r: Action)
        requires
            old(self).index <= old(self).genres@.len(),
        ensures
            begins(*old(self), *final(self), r),
    {
        if self.index == self.genres.len() {
            self.stage = Stage::Done;
            let v = self.created.clone();
            assert(v@ =~= self.created@);
            return Action::Finish(v);
        }
        if self.max_attempts == 0 {
            return self.fail(BatchError::ExhaustedCandidates);
        }
        self.stage = Stage::Requesting;
        self.attempts = 1;
        Action::Recommend(self.genres[self.index])
    }
}

impl Batch {
    /// Starts a batch over `genres`, with the user's song history and the
    /// session that holds the token. Unknown genres stop it before any call
    /// is made; so does a missing or unreadable token. An expired token is
    /// to be refreshed first.
    pub fn start(
        genres: Vec<GenreTypes>,
        history: Vec<Song>,
        session: SessionData,
        now: i64,
        max_attempts: u32,
    ) -> (r: (Batch, Action))
        ensures
            start_post(genres, history, session, now, max_attempts, r.0, r.1),
    {
        let mut b = Batch {
            genres,
            history,
            max_attempts,
            session,
            index: 0,
            attempts: 0,
            stage: Stage::Authorizing,
            title: String::new(),
            artist: String::new(),
            link: String::new(),
            cover: String::new(),
            pending: None,
            created: Vec::new(),
        };
        let mut i: usize = 0;
        while i < b.genres.len()
            invariant
                b.genres == genres,
                b.history == history,
                b.session == session,
                b.max_attempts == max_attempts,
                b.stage == Stage::Authorizing,
                b.index == 0,
                b.attempts == 0,
                b.created@.len() == 0,
                i <= b.genres@.len(),
                forall|j: int| 0 <= j < i ==> #[trigger] b.genres@[j] != GenreTypes::Unknown,
            decreases b.genres@.len() - i,
        {
            if b.genres[i] == GenreTypes::Unknown {
                b.stage = Stage::Failed;
                let f = Failure { error: BatchError::UnknownGenre, stage: Stage::Authorizing, genre_index: i };
                return (b, Action::Fail(f));
            }
            i = i + 1;
        }
        let token = match read_token(&b.session) {
            Ok(t) => t,
            Err(_) => {
                let a = b.fail(BatchError::Auth);
                return (b, a);
            },
        };
        if token.is_expired(now) {
            return (b, Action::Refresh(token));
        }
        let a = b.begin_genre();
        (b, a)
    }
}

/// `post` and `r` end the batch `pre` with error `e`, recording the stage
/// and the genre position where it stopped; nothing else changes.
pub open spec fn failed(pre: Batch, post: Batch, r: Action, e: BatchError) -> bool {
    &&& post == (Batch { stage: Stage::Failed, ..pre })
    &&& r == Action::Fail(Failure { error: e, stage: pre.stage, genre_index: pre.index })
}

/// `post` and `r` begin the genre at `b.index`, or finish with every song
/// created when no genre is left; nothing else changes.
pub open spec fn begins(b: Batch, post: Batch, r: Action) -> bool {
    if b.index == b.genres@.len() {
        &&& post == (Batch { stage: Stage::Done, ..b })
        &&& r matches Action::Finish(v) && v@ == b.created@
    } else if b.max_attempts == 0 {
        failed(b, post, r, BatchError::ExhaustedCandidates)
    } else {
        &&& post == (Batch { stage: Stage::Requesting, attempts: 1, ..b })
        &&& r == Action::Recommend(b.genres@[b.index as int])
    }
}

/// What starting a batch does: unknown genres and a missing or unreadable
/// token stop it at once; an expired token asks for a refresh; otherwise the
/// first genre begins.
pub open spec fn start_post(
    genres: Vec<GenreTypes>,
    history: Vec<Song>,
    session: SessionData,
    now: i64,
    max_attempts: u32,
    b: Batch,
    a: Action,
) -> bool {
    &&& b.wf()
    &&& b.genres == genres
    &&& b.history == history
    &&& b.max_attempts == max_attempts
    &&& b.session == session
    &&& b.created@.len() == 0
    &&& (!all_known(genres@) ==> b.stage == Stage::Failed && (a matches Action::Fail(f) && {
        &&& f.error == BatchError::UnknownGenre
        &&& f.stage == Stage::Authorizing
        &&& f.genre_index < genres@.len()
        &&& genres@[f.genre_index as int] == GenreTypes::Unknown
        &&& all_known(genres@.take(f.genre_index as int))
    }))
    &&& (all_known(genres@) && stored_token(session) is None ==> b.stage == Stage::Failed
        && a == Action::Fail(Failure { error: BatchError::Auth, stage: Stage::Authorizing, genre_index: 0 }))
    &&& (all_known(genres@) && stored_token(session) is Some && is_expired_at(
        stored_token(session)->0,
        now as int,
    ) ==> b.stage == Stage::Authorizing && (a matches Action::Refresh(u) && u@ == stored_token(
        session,
    )->0))
    &&& (all_known(genres@) && stored_token(session) is Some && !is_expired_at(
        stored_token(session)->0,
        now as int,
    ) ==> b.begun(a))
}

/// What one step does: the state stays well formed, the genres, the
/// history and the bound stay fixed, no second refresh is asked for, every
/// step before the end lowers `measure`, and the outcome for each stage and
/// event is as below.
pub open spec fn step_post(pre: Batch, event: Event, post: Batch, r: Action) -> bool {
    &&& post.wf()
    &&& post.genres == pre.genres
    &&& post.history == pre.history
    &&& post.max_attempts == pre.max_attempts
    &&& !(r is Refresh)
    &&& (r is Fail <==> post.stage == Stage::Failed)
    &&& (!is_final(pre.stage) ==> post.measure() < pre.measure())
    &&& post.measure() >= 0
    &&& post.created@.len() >= pre.created@.len()
    &&& post.created@.subrange(0, pre.created@.len() as int) == pre.created@
    &&& (pre.stage != Stage::Authorizing ==> post.session == pre.session)
    &&& (r matches Action::Save(row) ==> {
        &&& row.genre == post.genres@[post.index as int]
        &&& row.genre != GenreTypes::Unknown
        &&& !in_history(post.history@, row.title@, row.artist@)
    })
    &&& (r matches Action::Recommend(g) ==> post.stage == Stage::Requesting && g
        == post.genres@[post.index as int])
    &&& (r matches Action::Finish(v) ==> post.stage == Stage::Done && v@ == post.created@)
    &&& (is_final(pre.stage) ==> failed(pre, post, r, BatchError::UnexpectedEvent))
    &&& (pre.stage == Stage::Authorizing ==> match event {
        Event::Refreshed(Some(t)) => {
            &&& holds_token(post.session, t@)
            &&& post.session.user_id == pre.session.user_id
            &&& begins(Batch { session: post.session, ..pre }, post, r)
        },
        Event::Refreshed(None) => failed(pre, post, r, BatchError::Auth),
        _ => failed(pre, post, r, BatchError::UnexpectedEvent),
    })
    &&& (pre.stage == Stage::Requesting ==> match event {
        Event::Recommended(None) => failed(pre, post, r, BatchError::Upstream),
        Event::Recommended(Some(v)) => if v@.len() == 0 {
            failed(pre, post, r, BatchError::NoTrack)
        } else if v@[0].artists@.len() == 0 {
            failed(pre, post, r, BatchError::NoArtist)
        } else if in_history(pre.history@, v@[0].name@, v@[0].artists@[0]@) {
            if pre.attempts >= pre.max_attempts {
                failed(pre, post, r, BatchError::ExhaustedCandidates)
            } else {
                &&& post == (Batch { attempts: (pre.attempts + 1) as u32, ..pre })
                &&& r == Action::Recommend(pre.genres@[pre.index as int])
            }
        } else if !has_platform_link(v@[0].external_urls@) {
            failed(pre, post, r, BatchError::NoLink)
        } else {
            &&& post == (Batch {
                stage: Stage::EnrichingArt,
                title: v@[0].name,
                artist: v@[0].artists@[0],
                link: post.link,
                ..pre
            })
            &&& is_platform_link(v@[0].external_urls@, post.link@)
            &&& r == (Action::SearchAlbum { artist: v@[0].artists@[0], title: v@[0].name })
        },
        _ => failed(pre, post, r, BatchError::UnexpectedEvent),
    })
    &&& (pre.stage == Stage::EnrichingArt ==> match event {
        Event::AlbumsFound(found) => match found {
            Some(albums) if crate::catalog::first_cover(albums@) is Some => {
                &&& post == (Batch { stage: Stage::EnrichingMetadata, cover: post.cover, ..pre })
                &&& post.cover@ == crate::catalog::first_cover(albums@)->0
                &&& r == (Action::FetchDetails { artist: pre.artist, title: pre.title })
            },
            _ => failed(pre, post, r, BatchError::NoAlbum),
        },
        _ => failed(pre, post, r, BatchError::UnexpectedEvent),
    })
    &&& (pre.stage == Stage::EnrichingMetadata ==> match event {
        Event::Described(None) => failed(pre, post, r, BatchError::Upstream),
        Event::Described(Some(d)) => {
            let row = NewSong {
                title: pre.title,
                artist: pre.artist,
                link: pre.link,
                description: d.track_description,
                overview: d.track_summary,
                genre: pre.genres@[pre.index as int],
                album_cover: pre.cover,
            };
            &&& post == (Batch { stage: Stage::Persisting, pending: Some(row), ..pre })
            &&& r == Action::Save(row)
        },
        _ => failed(pre, post, r, BatchError::UnexpectedEvent),
    })
    &&& (pre.stage == Stage::Persisting ==> match event {
        Event::Saved(None) => failed(pre, post, r, BatchError::Storage),
        Event::Saved(Some(ids)) => {
            let row = pre.pending->0;
            &&& post.created@ == pre.created@.push(
                (Song {
                    id: ids.0,
                    title: row.title,
                    artist: row.artist,
                    genre: row.genre,
                    link: row.link,
                    description: Some(row.description),
                    overview: Some(row.overview),
                    album_cover: row.album_cover,
                    created_at: ids.1,
                }),
            )
            &&& begins(
                Batch { index: (pre.index + 1) as usize, pending: None, created: post.created, ..pre },
                post,
                r,
            )
        },
        _ => failed(pre, post, r, BatchError::UnexpectedEvent),
    })
}

/// The first candidate of a recommendation, with its first artist.
pub open spec fn candidate_of(v: Seq<Track>) -> Option<(Seq<char>, Seq<char>)> {
    if v.len() > 0 && v[0].artists@.len() > 0 {
        Some((v[0].name@, v[0].artists@[0]@))
    } else {
        None
    }
}

impl Batch {
    /// Advances the batch with the result of the last action and says what
    /// to do next. Each step before the end lowers `measure`, so a batch
    /// ends after finitely many steps whatever the providers answer.
    pub fn step(&mut self, event: Event) -> (r: Action)
        requires
            old(self).wf(),
        ensures
            step_post(*old(self), event, *final(self), r),
    {
        let ghost pre = *self;
        let n = self.genres.len();
        let ghost block = self.max_attempts as int + 4;
        proof {
            assert(pre.created@.subrange(0, pre.created@.len() as int) =~= pre.created@);
            if self.index < n {
                lemma_block((n - self.index - 1) as int, block);
            }
        }
        match self.stage {
            Stage::Authorizing => {
                match event {
                    Event::Refreshed(Some(t)) => {
                        match write_token(&t, &mut self.session) {
                            Ok(()) => {
                                proof {
                                    if n > 0 {
                                        lemma_block(n - 1, block);
                                    }
                                }
                                self.begin_genre()
                            },
                            Err(_) => self.fail(BatchError::Auth),
                        }
                    },
                    Event::Refreshed(None) => self.fail(BatchError::Auth),
                    _ => self.fail(BatchError::UnexpectedEvent),
                }
            },
            Stage::Requesting => {
                match event {
                    Event::Recommended(None) => self.fail(BatchError::Upstream),
                    Event::Recommended(Some(v)) => {
                        let t = match first_track(v) {
                            Some(t) => t,
                            None => {
                                return self.fail(BatchError::NoTrack);
                            },
                        };
                        if t.artists.len() == 0 {
                            return self.fail(BatchError::NoArtist);
                        }
                        let artist = t.artists[0].clone();
                        if is_known(&self.history, &t.name, &artist) {
                            if self.attempts >= self.max_attempts {
                                return self.fail(BatchError::ExhaustedCandidates);
                            }
                            self.attempts = self.attempts + 1;
                            return Action::Recommend(self.genres[self.index]);
                        }
                        match platform_link(&t.external_urls) {
                            None => self.fail(BatchError::NoLink),
                            Some(link) => {
                                self.title = t.name;
                                self.artist = artist;
                                self.link = link;
                                self.stage = Stage::EnrichingArt;
                                Action::SearchAlbum { artist: self.artist.clone(), title: self.title.clone() }
                            },
                        }
                    },
                    _ => self.fail(BatchError::UnexpectedEvent),
                }
            },
            Stage::EnrichingArt => {
                match event {
                    Event::AlbumsFound(found) => {
                        let cover = match found {
                            Some(albums) => album_cover(&albums),
                            None => None,
                        };
                        match cover {
                            None => self.fail(BatchError::NoAlbum),
                            Some(c) => {
                                self.cover = c;
                                self.stage = Stage::EnrichingMetadata;
                                Action::FetchDetails { artist: self.artist.clone(), title: self.title.clone() }
                            },
                        }
                    },
                    _ => self.fail(BatchError::UnexpectedEvent),
                }
            },
            Stage::EnrichingMetadata => {
                match event {
                    Event::Described(None) => self.fail(BatchError::Upstream),
                    Event::Described(Some(d)) => {
                        let row = NewSong {
                            title: self.title.clone(),
                            artist: self.artist.clone(),
                            link: self.link.clone(),
                            description: d.track_description,
                            overview: d.track_summary,
                            genre: self.genres[self.index],
                            album_cover: self.cover.clone(),
                        };
                        self.pending = Some(row.clone());
                        self.stage = Stage::Persisting;
                        Action::Save(row)
                    },
                    _ => self.fail(BatchError::UnexpectedEvent),
                }
            },
            Stage::Persisting => {
                match event {
                    Event::Saved(None) => self.fail(BatchError::Storage),
                    Event::Saved(Some(ids)) => {
                        let row = self.pending.take().unwrap();
                        let song = Song::stored(row, ids.0, ids.1);
                        self.created.push(song);
                        self.index = self.index + 1;
                        proof {
                            assert(self.created@.subrange(0, pre.created@.len() as int) =~= pre.created@);
                            if self.index < n {
                                lemma_block((n - self.index - 1) as int, block);
                            }
                        }
                        self.begin_genre()
                    },
                    _ => self.fail(BatchError::UnexpectedEvent),
                }
            },
            _ => self.fail(BatchError::UnexpectedEvent),
        }
    }

}

/// No two songs of the list share both their title and their artist.
pub open spec fn distinct_keys(songs: Seq<Song>) -> bool {
    forall|i: int, j: int|
        0 <= i < j < songs.len() ==> !(#[trigger] songs[i].title@ == #[trigger] songs[j].title@
            && songs[i].artist@ == songs[j].artist@)
}

/// The songs a batch creates are checked against the history fixed when it
/// started, not against each other: where the history and the batch's own
/// songs have no repeated (title, artist) pair, the whole history after
/// the batch has none either.
pub proof fn lemma_history_stays_distinct(b: Batch)
    requires
        b.wf(),
        distinct_keys(b.history@),
        distinct_keys(b.created@),
    ensures
        distinct_keys(b.history@ + b.created@),
{
    let h = b.history@;
    let c = b.created@;
    let all = h + c;
    assert forall|i: int, j: int| 0 <= i < j < all.len() implies !(#[trigger] all[i].title@
        == #[trigger] all[j].title@ && all[i].artist@ == all[j].artist@) by {
        if j >= h.len() && i < h.len() {
            let k = j - h.len();
            assert(c[k] == all[j]);
            assert(!in_history(h, c[k].title@, c[k].artist@));
            if all[i].title@ == all[j].title@ && all[i].artist@ == all[j].artist@ {
                assert(h[i].title@ == c[k].title@ && h[i].artist@ == c[k].artist@);
            }
        } else if i >= h.len() {
            assert(all[i] == c[i - h.len()] && all[j] == c[j - h.len()]);
        } else {
            assert(all[i] == h[i] && all[j] == h[j]);
        }
    }
}

/// A session whose token has expired gets exactly one refresh, before any
/// recommendation is asked for. With an unknown genre the batch stops at
/// once, asking for nothing. Otherwise starting asks for the refresh, no
/// step asks again, and once the refresh succeeds the session holds the new
/// token, with the same user, before the first genre's request is made.
pub proof fn lemma_refresh_once(
    genres: Vec<GenreTypes>,
    history: Vec<Song>,
    session: SessionData,
    now: i64,
    max_attempts: u32,
    b0: Batch,
    a0: Action,
    t: Token,
    b1: Batch,
    a1: Action,
)
    requires
        start_post(genres, history, session, now, max_attempts, b0, a0),
        stored_token(session) is Some,
        is_expired_at(stored_token(session)->0, now as int),
        step_post(b0, Event::Refreshed(Some(t)), b1, a1),
    ensures
        !all_known(genres@) ==> a0 is Fail,
        all_known(genres@) ==> {
            &&& a0 matches Action::Refresh(u) && u@ == stored_token(session)->0
            &&& b0.stage == Stage::Authorizing
            &&& holds_token(b1.session, t@)
            &&& b1.session.user_id == session.user_id
            &&& !(a1 is Refresh)
            &&& genres@.len() > 0 && max_attempts > 0 ==> a1 == Action::Recommend(genres@[0])
            &&& genres@.len() == 0 ==> a1 is Finish
        },
{
}

/// However the provider answers, a genre gets at most `max_attempts`
/// candidate requests: a known candidate asks again only below the bound
/// and ends the batch with `ExhaustedCandidates` at it. Every step before
/// the end lowers the batch's measure, so no batch runs forever.
pub proof fn lemma_candidates_bounded(b: Batch, v: Vec<Track>, b2: Batch, a: Action)
    requires
        b.wf(),
        b.stage == Stage::Requesting,
        candidate_of(v@) matches Some((title, artist)) && in_history(b.history@, title, artist),
        step_post(b, Event::Recommended(Some(v)), b2, a),
    ensures
        b.attempts < b.max_attempts ==> (a is Recommend && b2.attempts == b.attempts + 1
            && b2.attempts <= b2.max_attempts),
        b.attempts == b.max_attempts ==> fails_with(a, BatchError::ExhaustedCandidates),
        0 <= b2.measure() < b.measure(),
{
}

proof fn lemma_block(k: int, block: int)
    requires
        k >= 0,
        block >= 0,
    ensures
        (k + 1) * block == k * block + block,
        k * block >= 0,
{
    assert((k + 1) * block == k * block + block) by (nonlinear_arith);
    assert(k * block >= 0) by (nonlinear_arith)
        requires
            k >= 0,
            block >= 0,
    ;
}

} // verus!
