use now_playing_presence::presence::{format_state, PresenceText, SecondaryField};
use now_playing_presence::snapshot::MediaSnapshot;
use now_playing_presence::sync::{
    after_send, Action, LoopState, MediaError, PlaybackState, PlaybackStatus, PresenceError,
};

fn snap(title: &str, artist: &str, album_title: &str, album_artist: &str) -> MediaSnapshot {
    MediaSnapshot::new(
        title.to_string(),
        artist.to_string(),
        album_title.to_string(),
        album_artist.to_string(),
    )
}

fn song_a() -> MediaSnapshot {
    snap("Song A", "Band X", "", "Band X")
}

fn playing(s: MediaSnapshot) -> Result<PlaybackState, MediaError> {
    Ok(PlaybackState::Playing(s))
}

fn is_nothing(a: &Action) -> bool {
    matches!(a, Action::Nothing)
}

fn is_clear(a: &Action) -> bool {
    matches!(a, Action::Clear)
}

fn published(a: &Action) -> Option<&MediaSnapshot> {
    match a {
        Action::Publish(s) => Some(s),
        _ => None,
    }
}

#[test]
fn repeated_stop_clears_once() {
    let mut st = LoopState::new();
    assert!(published(&st.tick(playing(song_a()))).is_some());
    assert!(is_clear(&st.tick(Ok(PlaybackState::Stopped))));
    assert!(is_nothing(&st.tick(Ok(PlaybackState::Stopped))));
    assert!(st.last_published().is_empty());
    assert_eq!(st.last_status(), PlaybackStatus::Stopped);
}

#[test]
fn repeated_pause_clears_once() {
    let mut st = LoopState::new();
    st.tick(playing(song_a()));
    assert!(is_clear(&st.tick(Ok(PlaybackState::Paused))));
    assert!(is_nothing(&st.tick(Ok(PlaybackState::Paused))));
    assert!(is_nothing(&st.tick(Ok(PlaybackState::Paused))));
    assert_eq!(st.last_status(), PlaybackStatus::Paused);
}

#[test]
fn pause_from_stopped_is_a_fresh_pause() {
    let mut st = LoopState::new();
    assert!(is_clear(&st.tick(Ok(PlaybackState::Paused))));
}

#[test]
fn identical_snapshots_publish_once() {
    let mut st = LoopState::new();
    let first = st.tick(playing(song_a()));
    assert!(published(&first).unwrap() == &song_a());
    assert!(is_nothing(&st.tick(playing(song_a()))));
    assert!(st.last_published() == &song_a());
}

#[test]
fn pause_then_resume_republishes() {
    let mut st = LoopState::new();
    assert!(published(&st.tick(playing(song_a()))).is_some());
    assert!(is_clear(&st.tick(Ok(PlaybackState::Paused))));
    let again = st.tick(playing(song_a()));
    assert!(published(&again).unwrap() == &song_a());
    assert_eq!(st.last_status(), PlaybackStatus::Playing);
}

#[test]
fn album_title_difference_is_unequal_and_publishes() {
    let a = snap("T", "A", "Album 1", "AA");
    let b = snap("T", "A", "Album 2", "AA");
    assert!(a != b);
    assert!(!a.same_as(&b));
    let mut st = LoopState::new();
    st.tick(playing(a));
    let act = st.tick(playing(b));
    assert!(published(&act).unwrap() == &snap("T", "A", "Album 2", "AA"));
}

#[test]
fn equal_fields_are_equal_snapshots() {
    let a = snap("T", "A", "Al", "AA");
    let mut b = MediaSnapshot::empty();
    b.album_artist = "AA".to_string();
    b.album_title = "Al".to_string();
    b.artist = "A".to_string();
    b.title = "T".to_string();
    assert!(a == b);
    assert!(a.same_as(&b));
    assert!(a.duplicate() == a);
}

#[test]
fn empty_snapshot_is_empty() {
    assert!(MediaSnapshot::empty().is_empty());
    assert!(!snap("", "", "", "x").is_empty());
    assert!(MediaSnapshot::empty() == snap("", "", "", ""));
}

#[test]
fn benign_error_clears_and_keeps_going() {
    let mut st = LoopState::new();
    st.tick(playing(song_a()));
    let act = st.tick(Err(MediaError::NoActiveSession));
    assert!(is_clear(&act));
    assert!(st.last_published().is_empty());
    assert_eq!(st.last_status(), PlaybackStatus::Playing);
    let next = st.tick(playing(song_a()));
    assert!(published(&next).unwrap() == &song_a());
}

#[test]
fn other_error_halts_and_keeps_state() {
    let mut st = LoopState::new();
    st.tick(playing(song_a()));
    let act = st.tick(Err(MediaError::Other("driver failure".to_string())));
    assert!(matches!(act, Action::Halt));
    assert!(st.last_published() == &song_a());
    assert_eq!(st.last_status(), PlaybackStatus::Playing);
}

#[test]
fn end_to_end_four_ticks() {
    let field = SecondaryField::AlbumArtist;
    let mut st = LoopState::new();
    assert!(is_nothing(&st.tick(Ok(PlaybackState::Stopped))));
    let act = st.tick(playing(song_a()));
    let shown = published(&act).unwrap();
    let text = PresenceText::of(shown, field);
    assert_eq!(text.details, "Band X");
    assert_eq!(text.state, "Song A - Band X");
    assert!(is_nothing(&st.tick(playing(song_a()))));
    assert!(is_clear(&st.tick(Ok(PlaybackState::Stopped))));
}

#[test]
fn state_line_uses_album_title() {
    let s = snap("Song", "Artist", "Record", "Group");
    assert_eq!(format_state(&s, SecondaryField::AlbumTitle), "Song - Record");
    assert_eq!(format_state(&s, SecondaryField::AlbumArtist), "Song - Group");
}

#[test]
fn state_line_is_title_when_secondary_empty() {
    assert_eq!(format_state(&song_a(), SecondaryField::AlbumTitle), "Song A");
    assert_eq!(format_state(&snap("Solo", "", "Rec", ""), SecondaryField::AlbumArtist), "Solo");
    assert_eq!(format_state(&MediaSnapshot::empty(), SecondaryField::AlbumTitle), "");
}

#[test]
fn presence_text_details_is_artist() {
    let t = PresenceText::of(&snap("S", "Who", "R", "G"), SecondaryField::AlbumTitle);
    assert_eq!(t.details, "Who");
    assert_eq!(t.state, "S - R");
}

#[test]
fn startup_publishes_initial_snapshot() {
    let (mut st, act) = LoopState::start(Ok(song_a()));
    assert!(published(&act).unwrap() == &song_a());
    assert_eq!(st.last_status(), PlaybackStatus::Playing);
    assert!(is_nothing(&st.tick(playing(song_a()))));
    assert!(is_clear(&st.tick(Ok(PlaybackState::Stopped))));
}

#[test]
fn startup_failure_starts_idle() {
    let (st, act) = LoopState::start(Err(MediaError::Other("no access".to_string())));
    assert!(is_nothing(&act));
    assert!(st.last_published().is_empty());
    assert_eq!(st.last_status(), PlaybackStatus::Stopped);
    let (_, act2) = LoopState::start(Err(MediaError::NoActiveSession));
    assert!(is_nothing(&act2));
}

#[test]
fn presence_errors_halt_the_loop() {
    assert!(matches!(after_send(&Ok(())), Action::Nothing));
    assert!(matches!(after_send(&Err(PresenceError::NotConnected)), Action::Halt));
    assert!(matches!(
        after_send(&Err(PresenceError::Transport("broken pipe".to_string()))),
        Action::Halt
    ));
}
