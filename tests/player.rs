use ncm_player::model::{PlayMode, PlayState, Song, Songlist};
use ncm_player::player::{next_index, Player, PlayerAction, PlayerError};

fn song(id: u64, name: &str) -> Song {
    Song {
        name: name.to_string(),
        id,
        singer: "singer".to_string(),
        singer_id: 1,
        album: "album".to_string(),
        album_id: 2,
        duration: 180_000,
        song_url: None,
    }
}

fn candidate(name: &str) -> Songlist {
    Songlist { name: name.to_string(), id: 7, songs_count: 0, creator: "me".to_string(), songs: vec![] }
}

fn player_with(names: &[&str]) -> Player {
    let mut p = Player::new();
    p.set_playlist_candidates(vec![candidate("list")]);
    let songs = names.iter().enumerate().map(|(i, n)| song(100 + i as u64, n)).collect();
    p.switch_playlist(0, songs).unwrap();
    p
}

fn ticket_of(a: &PlayerAction) -> u64 {
    match a {
        PlayerAction::CheckAvailability { ticket, .. } => *ticket,
        other => panic!("expected an availability check, got {:?}", other),
    }
}

/// Runs a commit to the end with every step succeeding.
fn complete(p: &mut Player, a: PlayerAction) {
    let t = ticket_of(&a);
    assert!(matches!(p.on_availability(t, true), PlayerAction::ResolveUrl { .. }));
    assert!(matches!(p.on_stream_url(t, Some("http://x/a.mp3".to_string())), PlayerAction::FetchLyrics { .. }));
    let texts = ("[00:00.000]first\n[00:05.000]second".to_string(), String::new(), String::new());
    assert!(matches!(p.on_lyric_text(t, Some(texts)), PlayerAction::StartTrack { .. }));
}

#[test]
fn new_session_is_stopped_and_empty() {
    let p = Player::new();
    assert_eq!(p.play_state(), PlayState::Stopped);
    assert_eq!(p.current_song_index(), None);
    assert!(p.current_playlist().is_empty());
    assert_eq!(p.volume(), 200);
    assert_eq!(p.play_mode(), "随机播放");
}

#[test]
fn switch_resets_index_and_history() {
    let mut p = player_with(&["A", "B", "C"]);
    p.set_play_mode(PlayMode::ListRepeat);
    let a = p.play_particularly_now(1);
    complete(&mut p, a);
    assert_eq!(p.history(), &vec![1]);
    p.switch_playlist(0, vec![song(1, "X"), song(2, "Y")]).unwrap();
    assert_eq!(p.current_song_index(), Some(0));
    assert!(p.history().is_empty());
    assert_eq!(p.current_playlist_name(), "list");
    p.switch_playlist(0, vec![]).unwrap();
    assert_eq!(p.current_song_index(), None);
    assert_eq!(p.switch_playlist(3, vec![]), Err(PlayerError::NoPlaylistCandidate));
}

#[test]
fn next_index_per_mode() {
    for n in 1..6usize {
        for i in 0..n {
            assert_eq!(next_index(PlayMode::ListRepeat, i, n, 0), Some((i + 1) % n));
            assert_eq!(next_index(PlayMode::SingleRepeat, i, n, 0), Some(i));
            assert_eq!(next_index(PlayMode::Single, i, n, 0), None);
            assert_eq!(next_index(PlayMode::Shuffle, i, n, n - 1), Some(n - 1));
        }
    }
}

#[test]
fn list_repeat_wraps_after_last_track() {
    let mut p = player_with(&["A", "B", "C"]);
    p.set_play_mode(PlayMode::ListRepeat);
    let a = p.play_particularly_now(2);
    complete(&mut p, a);
    assert_eq!(p.current_song_index(), Some(2));
    assert_eq!(p.play_state(), PlayState::Playing);
    // the transport reports the end of the track
    let a = p.auto_play(Some(179_995), Some(180_000));
    assert_eq!(p.current_song_index(), Some(0));
    match a {
        PlayerAction::CheckAvailability { song_id, .. } => assert_eq!(song_id, 100),
        other => panic!("unexpected {:?}", other),
    }
    complete(&mut p, a);
    assert_eq!(p.history(), &vec![2, 0]);
    assert_eq!(p.current_song().map(|s| s.name.clone()), Some("A".to_string()));
}

#[test]
fn skips_within_guard_change_nothing() {
    let mut p = player_with(&["A", "B", "C"]);
    p.set_play_mode(PlayMode::ListRepeat);
    let a = p.play_particularly_now(0);
    complete(&mut p, a);
    let a = p.play_next_song_now(Some(600));
    complete(&mut p, a);
    assert_eq!(p.current_song_index(), Some(1));
    assert!(matches!(p.play_next_song_now(Some(499)), PlayerAction::Nothing));
    assert!(matches!(p.play_next_song_now(None), PlayerAction::Nothing));
    assert!(matches!(p.play_prev_song_now(Some(10)), PlayerAction::Nothing));
    assert_eq!(p.current_song_index(), Some(1));
    assert_eq!(p.history(), &vec![0, 1]);
}

#[test]
fn skip_after_guard_moves_on() {
    let mut p = player_with(&["A", "B", "C"]);
    p.set_play_mode(PlayMode::ListRepeat);
    let a = p.play_particularly_now(0);
    complete(&mut p, a);
    let a = p.play_next_song_now(Some(500));
    assert!(matches!(a, PlayerAction::CheckAvailability { song_id: 101, .. }));
    assert_eq!(p.current_song_index(), Some(1));
}

#[test]
fn prev_with_short_history_is_noop() {
    let mut p = player_with(&["A", "B"]);
    p.set_play_mode(PlayMode::ListRepeat);
    let a = p.play_particularly_now(1);
    complete(&mut p, a);
    assert!(matches!(p.play_prev_song_now(Some(1000)), PlayerAction::Nothing));
    assert_eq!(p.history(), &vec![1]);
    assert_eq!(p.current_song_index(), Some(1));
}

#[test]
fn prev_returns_to_previous_track() {
    let mut p = player_with(&["A", "B", "C"]);
    p.set_play_mode(PlayMode::ListRepeat);
    let a = p.play_particularly_now(2);
    complete(&mut p, a);
    let a = p.play_particularly_now(0);
    complete(&mut p, a);
    assert_eq!(p.history(), &vec![2, 0]);
    let a = p.play_prev_song_now(Some(600));
    assert!(matches!(a, PlayerAction::CheckAvailability { song_id: 102, .. }));
    assert!(p.history().is_empty());
    complete(&mut p, a);
    assert_eq!(p.history(), &vec![2]);
    assert_eq!(p.current_song_index(), Some(2));
}

#[test]
fn unavailable_track_is_skipped_on_next_poll() {
    let mut p = player_with(&["A", "B", "C"]);
    p.set_play_mode(PlayMode::ListRepeat);
    let a = p.play_particularly_now(0);
    let t = ticket_of(&a);
    assert!(matches!(p.on_availability(t, false), PlayerAction::Nothing));
    assert_eq!(p.play_state(), PlayState::Ended);
    assert!(p.history().is_empty());
    let a = p.auto_play(None, None);
    assert!(matches!(a, PlayerAction::CheckAvailability { song_id: 101, .. }));
}

#[test]
fn missing_stream_url_marks_track_ended() {
    let mut p = player_with(&["A", "B"]);
    p.set_play_mode(PlayMode::ListRepeat);
    let a = p.play_particularly_now(0);
    let t = ticket_of(&a);
    p.on_availability(t, true);
    assert!(matches!(p.on_stream_url(t, None), PlayerAction::Nothing));
    assert_eq!(p.play_state(), PlayState::Ended);
    assert!(p.history().is_empty());
}

#[test]
fn stale_outcomes_are_ignored() {
    let mut p = player_with(&["A", "B", "C"]);
    p.set_play_mode(PlayMode::ListRepeat);
    let first = p.play_particularly_now(0);
    let old = ticket_of(&first);
    let second = p.play_particularly_now(2);
    assert!(matches!(p.on_availability(old, true), PlayerAction::Nothing));
    assert_eq!(p.current_song_index(), Some(2));
    complete(&mut p, second);
    assert_eq!(p.history(), &vec![2]);
}

#[test]
fn lyrics_adopted_and_cursor_advances_one_line_per_poll() {
    let mut p = player_with(&["A"]);
    p.set_play_mode(PlayMode::SingleRepeat);
    let a = p.play_particularly_now(0);
    complete(&mut p, a);
    assert_eq!(p.current_song_lyrics().as_ref().map(|l| l.len()), Some(2));
    assert_eq!(p.current_lyric_line_index(), Some(0));
    p.auto_play(Some(4_000), Some(180_000));
    assert_eq!(p.current_lyric_line_index(), Some(0));
    p.auto_play(Some(6_000), Some(180_000));
    assert_eq!(p.current_lyric_line_index(), Some(1));
    p.auto_play(Some(7_000), Some(180_000));
    assert_eq!(p.current_lyric_line_index(), Some(1));
}

#[test]
fn failed_lyric_fetch_leaves_no_lyrics() {
    let mut p = player_with(&["A"]);
    let a = p.play_particularly_now(0);
    let t = ticket_of(&a);
    p.on_availability(t, true);
    p.on_stream_url(t, Some("u".to_string()));
    match p.on_lyric_text(t, None) {
        PlayerAction::StartTrack { url, volume } => {
            assert_eq!(url, "u");
            assert_eq!(volume, 200);
        }
        other => panic!("unexpected {:?}", other),
    }
    assert!(p.current_song_lyrics().is_none());
    assert_eq!(p.current_lyric_line_index(), None);
    assert!(p.is_playing());
}

#[test]
fn seek_to_lyric_line() {
    let mut p = player_with(&["A"]);
    assert!(matches!(p.seek_to_timestamp_with_index(0), PlayerAction::Nothing));
    let a = p.play_particularly_now(0);
    complete(&mut p, a);
    assert!(matches!(p.seek_to_timestamp_with_index(1), PlayerAction::Seek { timestamp: 5000 }));
    assert_eq!(p.current_lyric_line_index(), Some(1));
    assert!(matches!(p.seek_to_timestamp_with_index(2), PlayerAction::Nothing));
    assert_eq!(p.current_lyric_line_index(), Some(1));
}

#[test]
fn play_or_pause_toggles() {
    let mut p = player_with(&["A"]);
    assert!(matches!(p.play_or_pause(), PlayerAction::Nothing));
    let a = p.play_particularly_now(0);
    complete(&mut p, a);
    assert!(matches!(p.play_or_pause(), PlayerAction::Pause));
    assert_eq!(p.play_state(), PlayState::Paused);
    assert!(matches!(p.play_or_pause(), PlayerAction::Resume));
    assert_eq!(p.play_state(), PlayState::Playing);
}

#[test]
fn single_mode_stops_after_track() {
    let mut p = player_with(&["A", "B"]);
    p.set_play_mode(PlayMode::Single);
    let a = p.play_particularly_now(0);
    complete(&mut p, a);
    assert!(matches!(p.auto_play(Some(180_000), Some(180_000)), PlayerAction::Nothing));
    assert_eq!(p.play_state(), PlayState::Stopped);
}

#[test]
fn volume_is_clamped() {
    let mut p = Player::new();
    assert!(matches!(p.set_volume(1500), PlayerAction::SetVolume { volume: 1000 }));
    assert!(matches!(p.set_volume(-3), PlayerAction::SetVolume { volume: 0 }));
    assert!(matches!(p.set_volume(450), PlayerAction::SetVolume { volume: 450 }));
    assert_eq!(p.volume(), 450);
    p.mute();
    assert_eq!(p.volume(), 0);
}

#[test]
fn start_play_errors_and_modes() {
    let mut p = Player::new();
    assert_eq!(p.start_play().unwrap_err(), PlayerError::EmptyPlaylist);
    let mut p = player_with(&["A", "B", "C"]);
    p.set_play_mode(PlayMode::Single);
    assert_eq!(p.start_play().unwrap_err(), PlayerError::ModeCannotStart);
    assert!(!PlayerError::ModeCannotStart.message().is_empty());
    p.set_play_mode(PlayMode::ListRepeat);
    let a = p.start_play().unwrap();
    assert!(matches!(a, PlayerAction::CheckAvailability { song_id: 100, .. }));
    assert_eq!(p.current_song_index(), Some(0));
}

#[test]
fn shuffle_draws_an_index_inside_the_playlist() {
    for _ in 0..50 {
        let mut p = player_with(&["A", "B", "C"]);
        p.set_play_mode(PlayMode::Shuffle);
        let a = p.start_play().unwrap();
        let i = p.current_song_index().unwrap();
        assert!(i < 3);
        assert!(matches!(a, PlayerAction::CheckAvailability { .. }));
    }
    let mut p = player_with(&["only"]);
    p.set_play_mode(PlayMode::Shuffle);
    p.start_play().unwrap();
    assert_eq!(p.current_song_index(), Some(0));
}

#[test]
fn search_forward_and_backward() {
    let mut p = player_with(&["Hello World", "Another Song", "hello again", "World Tour"]);
    let kw = |v: &[&str]| v.iter().map(|s| s.to_string()).collect::<Vec<String>>();
    assert_eq!(p.search_forward_playlist(0, kw(&["HELLO"])), Some(2));
    assert_eq!(p.search_forward_playlist(2, kw(&["hello"])), None);
    assert_eq!(p.search_forward_playlist(0, kw(&["world", "tour"])), Some(3));
    assert_eq!(p.search_backward_playlist(3, kw(&["hello"])), Some(2));
    assert_eq!(p.search_backward_playlist(2, kw(&["hello"])), Some(0));
    assert_eq!(p.search_backward_playlist(0, kw(&["hello"])), None);
    assert_eq!(p.search_backward_playlist(9, kw(&["hello"])), None);
    assert_eq!(p.search_forward_playlist(3, kw(&[])), None);
    assert_eq!(p.search_forward_playlist(0, kw(&[])), Some(1));
    assert_eq!(p.search_forward_playlist(0, kw(&["missing"])), None);
}
