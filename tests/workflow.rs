use daily_song::batch::{Action, Batch, BatchError, Event, Stage, DEFAULT_MAX_ATTEMPTS};
use daily_song::catalog::{Album, Track};
use daily_song::genre::GenreTypes;
use daily_song::metadata::DetailResponse;
use daily_song::song::Song;
use daily_song::token::{read_token, write_token, SessionData, Token};

const NOW: i64 = 1_704_067_200_000;

fn token(access: &str, expires_at: Option<i64>) -> Token {
    Token {
        access_token: String::from(access),
        expires_in: 3600,
        expires_at,
        refresh_token: Some(String::from("refresh")),
        scopes: vec![],
    }
}

fn session_with(t: &Token) -> SessionData {
    let mut s = SessionData { access_token: None, user_id: Some(1) };
    write_token(t, &mut s).unwrap();
    s
}

fn track(name: &str, artist: &str) -> Track {
    Track {
        name: String::from(name),
        artists: vec![String::from(artist)],
        external_urls: vec![
            (String::from("web"), format!("https://example.org/{name}")),
            (String::from("spotify"), format!("https://open.spotify.com/track/{name}")),
        ],
    }
}

fn album(url: &str) -> Vec<Album> {
    vec![Album { image_urls: vec![String::from(url)] }]
}

fn details(name: &str) -> DetailResponse {
    DetailResponse {
        track_info: String::from(name),
        track_summary: format!("summary of {name}"),
        track_description: format!("description of {name}"),
    }
}

fn old_song(title: &str, artist: &str) -> Song {
    Song {
        id: 1,
        title: String::from(title),
        artist: String::from(artist),
        genre: GenreTypes::Pop,
        link: String::from("l"),
        description: None,
        overview: None,
        album_cover: String::from("c"),
        created_at: 0,
    }
}

/// Names the kind of an action; tokens are never printed.
fn kind(a: &Action) -> &'static str {
    match a {
        Action::Refresh(_) => "refresh",
        Action::Recommend(_) => "recommend",
        Action::SearchAlbum { .. } => "album search",
        Action::FetchDetails { .. } => "details",
        Action::Save(_) => "save",
        Action::Finish(_) => "finish",
        Action::Fail(_) => "failure",
    }
}

/// Runs one genre from a `Recommend` action to the next action.
fn run_genre(b: &mut Batch, t: Track, id: i32) -> Action {
    let a = b.step(Event::Recommended(Some(vec![t])));
    let (artist, title) = match a {
        Action::SearchAlbum { artist, title } => (artist, title),
        other => panic!("expected an album search, got {}", kind(&other)),
    };
    let a = b.step(Event::AlbumsFound(Some(album(&format!("cover of {title}")))));
    assert!(matches!(a, Action::FetchDetails { .. }));
    let a = b.step(Event::Described(Some(details(&title))));
    match &a {
        Action::Save(row) => {
            assert_eq!(row.title, title);
            assert_eq!(row.artist, artist);
        }
        other => panic!("expected a save, got {}", kind(&other)),
    }
    b.step(Event::Saved(Some((id, NOW + i64::from(id)))))
}

#[test]
fn two_genres_give_two_songs_in_order() {
    let t = token("valid", Some(NOW + 60_000));
    let (mut b, a) = Batch::start(vec![GenreTypes::Pop, GenreTypes::Rock], vec![], session_with(&t), NOW, DEFAULT_MAX_ATTEMPTS);
    assert!(matches!(a, Action::Recommend(GenreTypes::Pop)));
    let a = run_genre(&mut b, track("A", "X"), 1);
    assert!(matches!(a, Action::Recommend(GenreTypes::Rock)));
    let a = run_genre(&mut b, track("B", "Y"), 2);
    let songs = match a {
        Action::Finish(songs) => songs,
        other => panic!("expected the end, got {}", kind(&other)),
    };
    assert_eq!(songs.len(), 2);
    assert_eq!(songs[0].title, "A");
    assert_eq!(songs[0].artist, "X");
    assert_eq!(songs[0].genre, GenreTypes::Pop);
    assert_eq!(songs[1].title, "B");
    assert_eq!(songs[1].artist, "Y");
    assert_eq!(songs[1].genre, GenreTypes::Rock);
    for s in &songs {
        assert_eq!(s.description, Some(format!("description of {}", s.title)));
        assert_eq!(s.overview, Some(format!("summary of {}", s.title)));
        assert_ne!(s.description.as_deref(), Some("Description not found."));
        assert_ne!(s.overview.as_deref(), Some("Summary not found."));
    }
    assert_eq!(songs[0].album_cover, "cover of A");
    assert_eq!(songs[0].link, "https://open.spotify.com/track/A");
    assert_eq!(b.stage, Stage::Done);
}

#[test]
fn expired_token_is_refreshed_once_before_recommending() {
    let stale = token("stale", Some(NOW - 1));
    let (mut b, a) = Batch::start(vec![GenreTypes::Metal], vec![], session_with(&stale), NOW, DEFAULT_MAX_ATTEMPTS);
    match a {
        Action::Refresh(t) => assert_eq!(t.access_token, "stale"),
        other => panic!("expected a refresh, got {}", kind(&other)),
    }
    let fresh = token("fresh", Some(NOW + 3_600_000));
    let a = b.step(Event::Refreshed(Some(fresh)));
    assert!(matches!(a, Action::Recommend(GenreTypes::Metal)));
    assert_eq!(read_token(&b.session).unwrap().access_token, "fresh");
    let a = run_genre(&mut b, track("C", "Z"), 3);
    assert!(matches!(a, Action::Finish(_)));
}

#[test]
fn valid_token_is_not_refreshed() {
    let t = token("valid", None);
    let (_, a) = Batch::start(vec![GenreTypes::Rock], vec![], session_with(&t), NOW, DEFAULT_MAX_ATTEMPTS);
    assert!(matches!(a, Action::Recommend(GenreTypes::Rock)));
}

#[test]
fn failed_refresh_is_an_auth_error() {
    let stale = token("stale", Some(NOW - 1));
    let (mut b, _) = Batch::start(vec![GenreTypes::Pop], vec![], session_with(&stale), NOW, DEFAULT_MAX_ATTEMPTS);
    match b.step(Event::Refreshed(None)) {
        Action::Fail(f) => assert_eq!(f.error, BatchError::Auth),
        other => panic!("expected a failure, got {}", kind(&other)),
    }
}

#[test]
fn same_duplicate_forever_exhausts_the_attempts() {
    let t = token("valid", None);
    let history = vec![old_song("A", "X")];
    let (mut b, a) = Batch::start(vec![GenreTypes::Pop], history, session_with(&t), NOW, 4);
    assert!(matches!(a, Action::Recommend(_)));
    let mut requests = 1;
    loop {
        match b.step(Event::Recommended(Some(vec![track("A", "X")]))) {
            Action::Recommend(GenreTypes::Pop) => requests += 1,
            Action::Fail(f) => {
                assert_eq!(f.error, BatchError::ExhaustedCandidates);
                break;
            }
            other => panic!("unexpected {}", kind(&other)),
        }
        assert!(requests <= 4);
    }
    assert_eq!(requests, 4);
    assert_eq!(b.stage, Stage::Failed);
}

#[test]
fn known_candidate_is_replaced_by_a_new_one() {
    let t = token("valid", None);
    let (mut b, _) = Batch::start(vec![GenreTypes::Pop], vec![old_song("A", "X")], session_with(&t), NOW, DEFAULT_MAX_ATTEMPTS);
    let a = b.step(Event::Recommended(Some(vec![track("A", "X")])));
    assert!(matches!(a, Action::Recommend(GenreTypes::Pop)));
    let a = run_genre(&mut b, track("A", "Other"), 5);
    match a {
        Action::Finish(songs) => {
            assert_eq!(songs.len(), 1);
            assert_eq!(songs[0].artist, "Other");
        }
        other => panic!("unexpected {}", kind(&other)),
    }
}

#[test]
fn unknown_genre_fails_before_any_call() {
    let t = token("stale", Some(NOW - 1));
    let (b, a) = Batch::start(vec![GenreTypes::Pop, GenreTypes::Unknown], vec![], session_with(&t), NOW, DEFAULT_MAX_ATTEMPTS);
    match a {
        Action::Fail(f) => {
            assert_eq!(f.error, BatchError::UnknownGenre);
            assert_eq!(f.stage, Stage::Authorizing);
            assert_eq!(f.genre_index, 1);
        }
        other => panic!("expected a failure, got {}", kind(&other)),
    }
    assert_eq!(b.stage, Stage::Failed);
}

#[test]
fn missing_token_is_an_auth_error() {
    let s = SessionData { access_token: None, user_id: Some(1) };
    let (_, a) = Batch::start(vec![GenreTypes::Pop], vec![], s, NOW, DEFAULT_MAX_ATTEMPTS);
    assert!(matches!(a, Action::Fail(f) if f.error == BatchError::Auth));
}

#[test]
fn no_genres_finish_at_once() {
    let t = token("valid", None);
    let (_, a) = Batch::start(vec![], vec![], session_with(&t), NOW, DEFAULT_MAX_ATTEMPTS);
    assert!(matches!(a, Action::Finish(v) if v.is_empty()));
}

#[test]
fn each_stage_failure_names_its_error() {
    let t = token("valid", None);
    let start = || Batch::start(vec![GenreTypes::Pop, GenreTypes::Rock], vec![], session_with(&t), NOW, DEFAULT_MAX_ATTEMPTS).0;
    let err = |a: Action| match a {
        Action::Fail(f) => f.error,
        other => panic!("expected a failure, got {}", kind(&other)),
    };
    assert_eq!(err(start().step(Event::Recommended(None))), BatchError::Upstream);
    assert_eq!(err(start().step(Event::Recommended(Some(vec![])))), BatchError::NoTrack);
    let no_artist = Track { name: String::from("A"), artists: vec![], external_urls: vec![(String::from("spotify"), String::from("l"))] };
    assert_eq!(err(start().step(Event::Recommended(Some(vec![no_artist])))), BatchError::NoArtist);
    let no_link = Track { external_urls: vec![(String::from("web"), String::from("l"))], ..track("A", "X") };
    assert_eq!(err(start().step(Event::Recommended(Some(vec![no_link])))), BatchError::NoLink);
    let mut b = start();
    b.step(Event::Recommended(Some(vec![track("A", "X")])));
    assert_eq!(err(b.step(Event::AlbumsFound(Some(vec![])))), BatchError::NoAlbum);
    let mut b = start();
    b.step(Event::Recommended(Some(vec![track("A", "X")])));
    b.step(Event::AlbumsFound(Some(album("c"))));
    assert_eq!(err(b.step(Event::Described(None))), BatchError::Upstream);
    let mut b = start();
    b.step(Event::Recommended(Some(vec![track("A", "X")])));
    b.step(Event::AlbumsFound(Some(album("c"))));
    b.step(Event::Described(Some(details("A"))));
    let f = match b.step(Event::Saved(None)) {
        Action::Fail(f) => f,
        other => panic!("unexpected {}", kind(&other)),
    };
    assert_eq!(f.error, BatchError::Storage);
    assert_eq!(f.stage, Stage::Persisting);
    assert_eq!(f.genre_index, 0);
    assert_eq!(err(start().step(Event::Saved(None))), BatchError::UnexpectedEvent);
    assert_eq!(err(b.step(Event::Refreshed(None))), BatchError::UnexpectedEvent);
}

#[test]
fn failure_on_second_genre_keeps_first_song_and_stops() {
    let t = token("valid", None);
    let (mut b, _) = Batch::start(vec![GenreTypes::Pop, GenreTypes::Rock], vec![], session_with(&t), NOW, DEFAULT_MAX_ATTEMPTS);
    let a = run_genre(&mut b, track("A", "X"), 1);
    assert!(matches!(a, Action::Recommend(GenreTypes::Rock)));
    match b.step(Event::Recommended(None)) {
        Action::Fail(f) => {
            assert_eq!(f.error, BatchError::Upstream);
            assert_eq!(f.genre_index, 1);
        }
        other => panic!("unexpected {}", kind(&other)),
    }
    assert_eq!(b.created.len(), 1);
}

#[test]
fn songs_within_one_batch_are_not_checked_against_each_other() {
    let t = token("valid", None);
    let (mut b, _) = Batch::start(vec![GenreTypes::Pop, GenreTypes::Rock], vec![], session_with(&t), NOW, DEFAULT_MAX_ATTEMPTS);
    run_genre(&mut b, track("A", "X"), 1);
    match run_genre(&mut b, track("A", "X"), 2) {
        Action::Finish(songs) => assert_eq!(songs.len(), 2),
        other => panic!("unexpected {}", kind(&other)),
    }
}

/// A small deterministic generator, so that the runs below repeat.
struct Lcg(u64);

impl Lcg {
    fn next(&mut self, n: u64) -> u64 {
        self.0 = self.0.wrapping_mul(6364136223846793005).wrapping_add(1442695040888963407);
        (self.0 >> 33) % n
    }
}

#[test]
fn generated_duplicate_prone_answers_never_repeat_history() {
    let titles = ["A", "B", "C"];
    let artists = ["X", "Y"];
    for seed in 0..300u64 {
        let mut rng = Lcg(seed);
        let mut history = vec![];
        for _ in 0..rng.next(5) {
            let (t, a) = (titles[rng.next(3) as usize], artists[rng.next(2) as usize]);
            if !history.iter().any(|s: &Song| s.title == t && s.artist == a) {
                history.push(old_song(t, a));
            }
        }
        let tok = token("valid", None);
        let genres = vec![GenreTypes::Pop, GenreTypes::Rock, GenreTypes::Metal];
        let (mut b, mut a) = Batch::start(genres, history.clone(), session_with(&tok), NOW, 5);
        let mut steps = 0;
        let created = loop {
            steps += 1;
            assert!(steps < 100, "the batch must end");
            let event = match a {
                Action::Recommend(_) => {
                    let t = track(titles[rng.next(3) as usize], artists[rng.next(2) as usize]);
                    Event::Recommended(Some(vec![t]))
                }
                Action::SearchAlbum { .. } => Event::AlbumsFound(Some(album("c"))),
                Action::FetchDetails { title, .. } => Event::Described(Some(details(&title))),
                Action::Save(_) => Event::Saved(Some((steps, NOW))),
                Action::Finish(songs) => break songs,
                Action::Fail(f) => {
                    assert_eq!(f.error, BatchError::ExhaustedCandidates);
                    break b.created.clone();
                }
                Action::Refresh(_) => panic!("no refresh is due"),
            };
            a = b.step(event);
        };
        for s in &created {
            assert!(!history.iter().any(|h| h.title == s.title && h.artist == s.artist));
        }
        let mut all: Vec<(String, String)> = history.iter().map(|s| (s.title.clone(), s.artist.clone())).collect();
        let own: Vec<(String, String)> = created.iter().map(|s| (s.title.clone(), s.artist.clone())).collect();
        let own_distinct = own.iter().enumerate().all(|(i, k)| !own[..i].contains(k));
        all.extend(own);
        if own_distinct {
            assert!(all.iter().enumerate().all(|(i, k)| !all[..i].contains(k)));
        }
    }
}
