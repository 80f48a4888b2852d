//! The playback state machine.
//!
//! The session decides; the host performs. Each operation updates the
//! session and returns one [`PlayerAction`] for the host to carry out on
//! the catalog or on the audio transport. Adopting a new current track runs
//! the commit sequence: availability check, stream URL, lyric texts, start.
//! Each step's outcome comes back through `on_availability`,
//! `on_stream_url` and `on_lyric_text`, tagged with the ticket of the
//! commit it belongs to. Starting a new commit supersedes the one in
//! flight: outcomes that carry an older ticket are ignored.
use vstd::prelude::*;
use rand::Rng;
use crate::lyrics::{lyric_views, lyrics_from_text, split_lines, synchronize};
use crate::lyrics::lines_of;
use crate::model::{mode_label, LyricLine, LyricLineView, PlayMode, PlayState, Song, Songlist};
use crate::search::{search_in_iter, song_matches};

verus! {

/// Full volume, in thousandths.
pub const FULL_VOLUME: u64 = 1000;

/// Playback position, in milliseconds, before which a skip is refused.
pub const SKIP_GUARD_MILLIS: u64 = 500;

/// Distance from the end of a track, in milliseconds, at which it counts
/// as finished.
pub const END_MARGIN_MILLIS: u64 = 10;

/// What the host does after an operation.
#[derive(Debug)]
pub enum PlayerAction {
    /// Nothing.
    Nothing,
    /// Ask the catalog whether the track can be played.
    CheckAvailability { ticket: u64, song_id: u64 },
    /// Ask the catalog for a stream URL of the track.
    ResolveUrl { ticket: u64, song_id: u64 },
    /// Fetch the raw lyric texts of the track.
    FetchLyrics { ticket: u64, song_id: u64 },
    /// Stop the transport, load `url`, set the volume (thousandths) and play.
    StartTrack { url: String, volume: u64 },
    /// Pause the transport.
    Pause,
    /// Resume the transport.
    Resume,
    /// Seek the transport to `timestamp` milliseconds.
    Seek { timestamp: u64 },
    /// Set the transport's volume (thousandths).
    SetVolume { volume: u64 },
}

/// Step of a commit sequence that is waiting for its outcome.
#[derive(Debug)]
pub enum CommitPhase {
    /// Waiting for the availability check.
    Availability,
    /// Waiting for the stream URL.
    StreamUrl,
    /// Waiting for the lyric texts; the stream URL is known.
    Lyrics { url: String },
}

/// A commit sequence in flight.
#[derive(Debug)]
pub struct Commit {
    pub ticket: u64,
    pub index: usize,
    pub phase: CommitPhase,
}

/// Why a command was refused.
#[derive(Clone, Copy, Debug, PartialEq, Eq, Structural)]
pub enum PlayerError {
    /// There is no playlist candidate at the given position.
    NoPlaylistCandidate,
    /// The playlist is empty.
    EmptyPlaylist,
    /// Starting is possible only in list-repeat and shuffle modes.
    ModeCannotStart,
}

/// The message of each error.
pub open spec fn error_message(e: PlayerError) -> Seq<char> {
    match e {
        PlayerError::NoPlaylistCandidate => "no playlist candidates found"@,
        PlayerError::EmptyPlaylist => "请先选择歌单"@,
        PlayerError::ModeCannotStart => "start命令只在`列表循环`和`随机播放`模式下有效"@,
    }
}

impl PlayerError {
    /// Message shown to the user.
    pub fn message(&self) -> (r: String)
        ensures
            r@ == error_message(*self),
    {
        match self {
            PlayerError::NoPlaylistCandidate => String::from_str("no playlist candidates found"),
            PlayerError::EmptyPlaylist => String::from_str("请先选择歌单"),
            PlayerError::ModeCannotStart => String::from_str(
                "start命令只在`列表循环`和`随机播放`模式下有效",
            ),
        }
    }
}

/// The playback session.
pub struct Player {
    play_state: PlayState,
    play_mode: PlayMode,
    volume: u64,
    playlist_candidates: Vec<Songlist>,
    current_playlist_name: String,
    current_playlist: Vec<Song>,
    play_index_history_stack: Vec<usize>,
    current_song_index: Option<usize>,
    current_song_lyrics: Option<Vec<LyricLine>>,
    current_lyric_line_index: Option<usize>,
    pending: Option<Commit>,
    next_ticket: u64,
}

/// The session as mathematical values.
pub struct PlayerView {
    pub play_state: PlayState,
    pub play_mode: PlayMode,
    /// Volume in thousandths.
    pub volume: u64,
    pub candidates: Seq<Songlist>,
    pub playlist_name: Seq<char>,
    pub playlist: Seq<Song>,
    /// Indices of committed tracks; the last one is the current track.
    pub history: Seq<usize>,
    pub current_index: Option<usize>,
    pub lyrics: Option<Seq<LyricLineView>>,
    pub lyric_cursor: Option<usize>,
    pub pending: Option<Commit>,
    pub next_ticket: u64,
}

/// The view of optional lyrics.
pub open spec fn opt_lyrics(o: Option<Vec<LyricLine>>) -> Option<Seq<LyricLineView>> {
    match o {
        Some(v) => Some(lyric_views(v@)),
        None => None,
    }
}

impl View for Player {
    type V = PlayerView;

    closed spec fn view(&self) -> PlayerView {
        PlayerView {
            play_state: self.play_state,
            play_mode: self.play_mode,
            volume: self.volume,
            candidates: self.playlist_candidates@,
            playlist_name: self.current_playlist_name@,
            playlist: self.current_playlist@,
            history: self.play_index_history_stack@,
            current_index: self.current_song_index,
            lyrics: opt_lyrics(self.current_song_lyrics),
            lyric_cursor: self.current_lyric_line_index,
            pending: self.pending,
            next_ticket: self.next_ticket,
        }
    }
}

/// Every element of `s` is below `n`.
pub open spec fn all_below(s: Seq<usize>, n: nat) -> bool {
    forall|k: int| 0 <= k < s.len() ==> #[trigger] s[k] < n
}

impl PlayerView {
    /// The session's invariant: every index points into what it indexes.
    pub open spec fn wf(self) -> bool {
        &&& self.volume <= FULL_VOLUME
        &&& (self.current_index matches Some(i) ==> i < self.playlist.len())
        &&& all_below(self.history, self.playlist.len())
        &&& (self.lyrics matches Some(l) ==> l.len() > 0)
        &&& (self.lyric_cursor matches Some(c) ==> (self.lyrics matches Some(l) && c < l.len()))
        &&& (self.pending matches Some(c) ==> self.current_index == Some(c.index))
    }
}

/// The index that follows `current` under `mode`, in a playlist of `len`
/// tracks; `draw` is the random index that shuffle takes.
pub open spec fn next_index_spec(mode: PlayMode, current: usize, len: usize, draw: usize) -> Option<usize> {
    match mode {
        PlayMode::Single => None,
        PlayMode::SingleRepeat => Some(current),
        PlayMode::ListRepeat => Some(((current + 1) % (len as int)) as usize),
        PlayMode::Shuffle => Some(draw),
    }
}

/// The index that follows `current` under `mode`, in a playlist of `len`
/// tracks: none for single play, the same index for single repeat, the
/// next one (wrapping to the first) for list repeat, and `draw` for
/// shuffle.
pub fn next_index(mode: PlayMode, current: usize, len: usize, draw: usize) -> (r: Option<usize>)
    requires
        current < len,
        draw < len,
    ensures
        r == next_index_spec(mode, current, len, draw),
        r matches Some(i) ==> i < len,
{
    match mode {
        PlayMode::Single => None,
        PlayMode::SingleRepeat => Some(current),
        PlayMode::ListRepeat => {
            if current + 1 >= len {
                assert((current + 1) % (len as int) == 0) by (nonlinear_arith)
                    requires
                        current + 1 == len,
                        len > 0,
                ;
                Some(0)
            } else {
                assert((current + 1) % (len as int) == current + 1) by (nonlinear_arith)
                    requires
                        current + 1 < len,
                ;
                Some(current + 1)
            }
        },
        PlayMode::Shuffle => Some(draw),
    }
}

/// Relies on `rand::thread_rng` and `rand::Rng::gen_range`: a value of the
/// half-open range `0..len`, which must not be empty.
#[verifier::external_body]
fn random_index(len: usize) -> (r: usize)
    requires
        len > 0,
    ensures
        r < len,
{
    rand::thread_rng().gen_range(0..len)
}

/// The ticket that follows `t`.
pub open spec fn ticket_after(t: u64) -> u64 {
    if t == u64::MAX {
        0
    } else {
        (t + 1) as u64
    }
}

/// Adopting the track at `index` as current: a new commit sequence starts
/// with the availability check; the play state is kept.
pub open spec fn begin_commit_spec(v: PlayerView, index: usize) -> (PlayerView, PlayerAction) {
    (
        PlayerView {
            current_index: Some(index),
            pending: Some(Commit { ticket: v.next_ticket, index, phase: CommitPhase::Availability }),
            next_ticket: ticket_after(v.next_ticket),
            ..v
        },
        PlayerAction::CheckAvailability { ticket: v.next_ticket, song_id: v.playlist[index as int].id },
    )
}

/// Moving on from the current track by the play mode, with `draw` for
/// shuffle: commit the next track, or stop where there is none.
pub open spec fn advance_spec(v: PlayerView, draw: usize) -> (PlayerView, PlayerAction) {
    let next = match v.current_index {
        Some(i) => next_index_spec(v.play_mode, i, v.playlist.len() as usize, draw),
        None => None,
    };
    match next {
        Some(j) => begin_commit_spec(v, j),
        None => (PlayerView { play_state: PlayState::Stopped, pending: None, ..v }, PlayerAction::Nothing),
    }
}

impl Player {
    /// A stopped session with an empty playlist, in shuffle mode, at a
    /// fifth of full volume.
    pub fn new() -> (r: Player)
        ensures
            r@.wf(),
            r@.play_state == PlayState::Stopped,
            r@.play_mode == PlayMode::Shuffle,
            r@.volume == 200,
            r@.candidates.len() == 0,
            r@.playlist_name.len() == 0,
            r@.playlist.len() == 0,
            r@.history.len() == 0,
            r@.current_index is None,
            r@.lyrics is None,
            r@.lyric_cursor is None,
            r@.pending is None,
    {
        Player {
            play_state: PlayState::Stopped,
            play_mode: PlayMode::Shuffle,
            volume: 200,
            playlist_candidates: Vec::new(),
            current_playlist_name: String::new(),
            current_playlist: Vec::new(),
            play_index_history_stack: Vec::new(),
            current_song_index: None,
            current_song_lyrics: None,
            current_lyric_line_index: None,
            pending: None,
            next_ticket: 0,
        }
    }

    fn begin_commit(&mut self, index: usize) -> (r: PlayerAction)
        requires
            old(self)@.wf(),
            index < old(self)@.playlist.len(),
        ensures
            final(self)@.wf(),
            (final(self)@, r) == begin_commit_spec(old(self)@, index),
    {
        let ticket = self.next_ticket;
        self.next_ticket = if ticket == u64::MAX {
            0
        } else {
            ticket + 1
        };
        self.current_song_index = Some(index);
        self.pending = Some(Commit { ticket, index, phase: CommitPhase::Availability });
        PlayerAction::CheckAvailability { ticket, song_id: self.current_playlist[index].id }
    }

    /// Moves on from the current track by the play mode; `draw` is the
    /// index that shuffle takes.
    pub fn advance(&mut self, draw: usize) -> (r: PlayerAction)
        requires
            old(self)@.wf(),
            old(self)@.playlist.len() > 0 ==> draw < old(self)@.playlist.len(),
        ensures
            final(self)@.wf(),
            (final(self)@, r) == advance_spec(old(self)@, draw),
    {
        let next = match self.current_song_index {
            Some(i) => next_index(self.play_mode, i, self.current_playlist.len(), draw),
            None => None,
        };
        match next {
            Some(j) => self.begin_commit(j),
            None => {
                self.play_state = PlayState::Stopped;
                self.pending = None;
                PlayerAction::Nothing
            },
        }
    }
}

/// Whether a playing track counts as finished: its position is within the
/// end margin of its duration.
pub open spec fn near_end(position: u64, duration: u64) -> bool {
    duration <= position + END_MARGIN_MILLIS
}

/// States in which a track is loaded.
pub open spec fn track_loaded(s: PlayState) -> bool {
    s == PlayState::Playing || s == PlayState::Paused || s == PlayState::Ended
}

/// Pausing a playing track, resuming a paused one.
pub open spec fn play_or_pause_spec(v: PlayerView) -> (PlayerView, PlayerAction) {
    match v.play_state {
        PlayState::Playing => (PlayerView { play_state: PlayState::Paused, ..v }, PlayerAction::Pause),
        PlayState::Paused => (PlayerView { play_state: PlayState::Playing, ..v }, PlayerAction::Resume),
        _ => (v, PlayerAction::Nothing),
    }
}

/// The lyric cursor moves on by one line once the position has reached
/// the next line's timestamp.
pub open spec fn lyric_forward_spec(v: PlayerView, position: Option<u64>) -> PlayerView {
    match (v.lyric_cursor, v.lyrics, position) {
        (Some(c), Some(l), Some(p)) => {
            if c + 1 < l.len() && p >= l[c + 1].timestamp {
                PlayerView { lyric_cursor: Some((c + 1) as usize), ..v }
            } else {
                v
            }
        },
        _ => v,
    }
}

/// One poll of the transport, which reports `position` and `duration`.
/// While a commit is in flight nothing happens. A playing track near its
/// end becomes ended; a playing track advances its lyric cursor; an ended
/// track is followed by the next one of the play mode (`draw` for shuffle).
pub open spec fn auto_play_spec(
    v: PlayerView,
    position: Option<u64>,
    duration: Option<u64>,
    draw: usize,
) -> (PlayerView, PlayerAction) {
    if v.pending is Some {
        (v, PlayerAction::Nothing)
    } else {
        let ended = v.play_state == PlayState::Playing && match (position, duration) {
            (Some(p), Some(d)) => near_end(p, d),
            _ => false,
        };
        let v1 = if ended {
            PlayerView { play_state: PlayState::Ended, ..v }
        } else {
            v
        };
        if v1.play_state == PlayState::Playing {
            (lyric_forward_spec(v1, position), PlayerAction::Nothing)
        } else if v1.play_state == PlayState::Ended {
            advance_spec(v1, draw)
        } else {
            (v1, PlayerAction::Nothing)
        }
    }
}

/// Playing the track at `index` now.
pub open spec fn play_particularly_now_spec(v: PlayerView, index: usize) -> (PlayerView, PlayerAction) {
    if index < v.playlist.len() {
        begin_commit_spec(PlayerView { play_state: PlayState::Playing, ..v }, index)
    } else {
        (v, PlayerAction::Nothing)
    }
}

/// Starting the playlist: from the first track in list repeat, from the
/// track `draw` in shuffle; refused in other modes and on an empty list.
pub open spec fn start_play_spec(v: PlayerView, draw: usize) -> (
    PlayerView,
    Result<PlayerAction, PlayerError>,
) {
    if v.playlist.len() == 0 {
        (v, Err(PlayerError::EmptyPlaylist))
    } else {
        match v.play_mode {
            PlayMode::ListRepeat => {
                let (w, a) = begin_commit_spec(v, 0);
                (w, Ok(a))
            },
            PlayMode::Shuffle => {
                let (w, a) = begin_commit_spec(v, draw);
                (w, Ok(a))
            },
            _ => (v, Err(PlayerError::ModeCannotStart)),
        }
    }
}

/// Whether a skip is allowed at this playback position.
pub open spec fn skip_allowed(position: Option<u64>) -> bool {
    position matches Some(p) && p >= SKIP_GUARD_MILLIS
}

/// Skipping to the next track of the play mode.
pub open spec fn next_now_spec(v: PlayerView, position: Option<u64>, draw: usize) -> (
    PlayerView,
    PlayerAction,
) {
    if track_loaded(v.play_state) && skip_allowed(position) {
        advance_spec(v, draw)
    } else {
        (v, PlayerAction::Nothing)
    }
}

/// Going back to the previously committed track: the current one and the
/// previous one leave the history, and the previous one is committed.
pub open spec fn prev_now_spec(v: PlayerView, position: Option<u64>) -> (PlayerView, PlayerAction) {
    let n = v.history.len();
    if skip_allowed(position) && n >= 2 {
        begin_commit_spec(PlayerView { history: v.history.subrange(0, n - 2), ..v }, v.history[n - 2])
    } else {
        (v, PlayerAction::Nothing)
    }
}

/// Moving the lyric cursor to line `index` and seeking to its timestamp.
pub open spec fn seek_spec(v: PlayerView, index: usize) -> (PlayerView, PlayerAction) {
    match v.lyrics {
        Some(l) => {
            if track_loaded(v.play_state) && index < l.len() {
                (
                    PlayerView { lyric_cursor: Some(index), ..v },
                    PlayerAction::Seek { timestamp: l[index as int].timestamp },
                )
            } else {
                (v, PlayerAction::Nothing)
            }
        },
        None => (v, PlayerAction::Nothing),
    }
}

/// The commit in flight, where it has `ticket`.
pub open spec fn current_commit(v: PlayerView, ticket: u64) -> Option<Commit> {
    match v.pending {
        Some(c) => if c.ticket == ticket {
            Some(c)
        } else {
            None
        },
        None => None,
    }
}

/// The outcome of the availability check: go on to the stream URL, or
/// mark the track ended so that the next poll moves past it.
pub open spec fn on_availability_spec(v: PlayerView, ticket: u64, available: bool) -> (
    PlayerView,
    PlayerAction,
) {
    match current_commit(v, ticket) {
        Some(c) => match c.phase {
            CommitPhase::Availability => {
                if available {
                    (
                        PlayerView {
                            pending: Some(Commit { ticket, index: c.index, phase: CommitPhase::StreamUrl }),
                            ..v
                        },
                        PlayerAction::ResolveUrl { ticket, song_id: v.playlist[c.index as int].id },
                    )
                } else {
                    (PlayerView { pending: None, play_state: PlayState::Ended, ..v }, PlayerAction::Nothing)
                }
            },
            _ => (v, PlayerAction::Nothing),
        },
        None => (v, PlayerAction::Nothing),
    }
}

/// The outcome of the stream URL request: on success the track enters the
/// history and its lyric texts are fetched; on failure it is marked ended.
pub open spec fn on_stream_url_spec(v: PlayerView, ticket: u64, url: Option<String>) -> (
    PlayerView,
    PlayerAction,
) {
    match current_commit(v, ticket) {
        Some(c) => match c.phase {
            CommitPhase::StreamUrl => match url {
                Some(u) => (
                    PlayerView {
                        history: v.history.push(c.index),
                        pending: Some(Commit { ticket, index: c.index, phase: CommitPhase::Lyrics { url: u } }),
                        ..v
                    },
                    PlayerAction::FetchLyrics { ticket, song_id: v.playlist[c.index as int].id },
                ),
                None => (PlayerView { pending: None, play_state: PlayState::Ended, ..v }, PlayerAction::Nothing),
            },
            _ => (v, PlayerAction::Nothing),
        },
        None => (v, PlayerAction::Nothing),
    }
}

/// The lyrics of fetched texts (primary, translated, romanized); none
/// where the fetch failed.
pub open spec fn fetched_lyrics(texts: Option<(String, String, String)>) -> Seq<LyricLineView> {
    match texts {
        Some((p, t, r)) => synchronize(split_lines(p@), split_lines(t@), split_lines(r@)),
        None => Seq::empty(),
    }
}

/// The outcome of the lyric fetch: the lyrics (none if empty) are
/// adopted with the cursor on the first line, and the track starts.
pub open spec fn on_lyric_text_spec(
    v: PlayerView,
    ticket: u64,
    texts: Option<(String, String, String)>,
) -> (PlayerView, PlayerAction) {
    match current_commit(v, ticket) {
        Some(c) => match c.phase {
            CommitPhase::Lyrics { url } => {
                let l = fetched_lyrics(texts);
                (
                    PlayerView {
                        pending: None,
                        play_state: PlayState::Playing,
                        lyrics: if l.len() > 0 {
                            Some(l)
                        } else {
                            None
                        },
                        lyric_cursor: if l.len() > 0 {
                            Some(0)
                        } else {
                            None
                        },
                        ..v
                    },
                    PlayerAction::StartTrack { url, volume: v.volume },
                )
            },
            _ => (v, PlayerAction::Nothing),
        },
        None => (v, PlayerAction::Nothing),
    }
}

/// Replacing the playlist by the tracks `songs` of candidate `index`: the
/// history is cleared, a commit in flight is dropped, and the first track
/// (if any) becomes current.
pub open spec fn switch_playlist_spec(v: PlayerView, index: usize, songs: Seq<Song>) -> (
    PlayerView,
    Result<(), PlayerError>,
) {
    if index < v.candidates.len() {
        (
            PlayerView {
                playlist_name: v.candidates[index as int].name@,
                playlist: songs,
                history: Seq::empty(),
                current_index: if songs.len() > 0 {
                    Some(0)
                } else {
                    None
                },
                pending: None,
                ..v
            },
            Ok(()),
        )
    } else {
        (v, Err(PlayerError::NoPlaylistCandidate))
    }
}

/// Volume in thousandths, clamped to the range from silent to full.
pub open spec fn clamp_volume(volume: i64) -> u64 {
    if volume < 0 {
        0
    } else if volume > FULL_VOLUME {
        FULL_VOLUME
    } else {
        volume as u64
    }
}

impl Player {
    /// Pauses a playing track or resumes a paused one.
    pub fn play_or_pause(&mut self) -> (r: PlayerAction)
        requires
            old(self)@.wf(),
        ensures
            final(self)@.wf(),
            (final(self)@, r) == play_or_pause_spec(old(self)@),
    {
        match self.play_state {
            PlayState::Playing => {
                self.play_state = PlayState::Paused;
                PlayerAction::Pause
            },
            PlayState::Paused => {
                self.play_state = PlayState::Playing;
                PlayerAction::Resume
            },
            _ => PlayerAction::Nothing,
        }
    }

    fn auto_lyric_forward(&mut self, position: Option<u64>)
        requires
            old(self)@.wf(),
        ensures
            final(self)@.wf(),
            final(self)@ == lyric_forward_spec(old(self)@, position),
    {
        if let (Some(c), Some(l), Some(p)) = (
            self.current_lyric_line_index,
            self.current_song_lyrics.as_ref(),
            position,
        ) {
            if c < l.len() && c + 1 < l.len() {
                let next_timestamp = l[c + 1].timestamp;
                proof {
                    assert(lyric_views(l@)[c + 1].timestamp == next_timestamp);
                }
                if p >= next_timestamp {
                    self.current_lyric_line_index = Some(c + 1);
                }
            }
        }
    }

    /// One poll of the transport, with the draw for shuffle given (see
    /// [`auto_play_spec`]).
    pub fn auto_play_with_draw(&mut self, position: Option<u64>, duration: Option<u64>, draw: usize) -> (r:
        PlayerAction)
        requires
            old(self)@.wf(),
            old(self)@.playlist.len() > 0 ==> draw < old(self)@.playlist.len(),
        ensures
            final(self)@.wf(),
            (final(self)@, r) == auto_play_spec(old(self)@, position, duration, draw),
    {
        if self.pending.is_some() {
            return PlayerAction::Nothing;
        }
        if self.play_state == PlayState::Playing {
            if let (Some(p), Some(d)) = (position, duration) {
                if p >= d || d - p <= END_MARGIN_MILLIS {
                    self.play_state = PlayState::Ended;
                }
            }
        }
        if self.play_state == PlayState::Playing {
            self.auto_lyric_forward(position);
            PlayerAction::Nothing
        } else if self.play_state == PlayState::Ended {
            self.advance(draw)
        } else {
            PlayerAction::Nothing
        }
    }

    /// One poll of the transport, which reports the playback `position`
    /// and the track's `duration` in milliseconds. Shuffle draws the next
    /// track at random.
    pub fn auto_play(&mut self, position: Option<u64>, duration: Option<u64>) -> (r: PlayerAction)
        requires
            old(self)@.wf(),
        ensures
            final(self)@.wf(),
            exists|draw: usize|
                (old(self)@.playlist.len() > 0 ==> draw < old(self)@.playlist.len()) && (final(self)@, r)
                    == auto_play_spec(old(self)@, position, duration, draw),
            old(self)@.play_mode != PlayMode::Shuffle ==> (final(self)@, r) == auto_play_spec(
                old(self)@,
                position,
                duration,
                0,
            ),
    {
        let draw = self.draw();
        self.auto_play_with_draw(position, duration, draw)
    }

    /// The random index that shuffle takes; zero in other modes.
    fn draw(&self) -> (r: usize)
        ensures
            self@.playlist.len() > 0 ==> r < self@.playlist.len(),
            self@.play_mode != PlayMode::Shuffle ==> r == 0,
    {
        let n = self.current_playlist.len();
        if self.play_mode == PlayMode::Shuffle && n > 0 {
            random_index(n)
        } else {
            0
        }
    }

    /// Plays the track at `index` of the playlist now; an index past the
    /// end is ignored.
    pub fn play_particularly_now(&mut self, index_to_play: usize) -> (r: PlayerAction)
        requires
            old(self)@.wf(),
        ensures
            final(self)@.wf(),
            (final(self)@, r) == play_particularly_now_spec(old(self)@, index_to_play),
    {
        if index_to_play < self.current_playlist.len() {
            self.play_state = PlayState::Playing;
            self.begin_commit(index_to_play)
        } else {
            PlayerAction::Nothing
        }
    }

    /// Starts the playlist, with the draw for shuffle given (see
    /// [`start_play_spec`]).
    pub fn start_play_with_draw(&mut self, draw: usize) -> (r: Result<PlayerAction, PlayerError>)
        requires
            old(self)@.wf(),
            old(self)@.playlist.len() > 0 ==> draw < old(self)@.playlist.len(),
        ensures
            final(self)@.wf(),
            (final(self)@, r) == start_play_spec(old(self)@, draw),
    {
        if self.current_playlist.len() == 0 {
            return Err(PlayerError::EmptyPlaylist);
        }
        match self.play_mode {
            PlayMode::ListRepeat => Ok(self.begin_commit(0)),
            PlayMode::Shuffle => Ok(self.begin_commit(draw)),
            _ => Err(PlayerError::ModeCannotStart),
        }
    }

    /// Starts the playlist: list repeat from its first track, shuffle from
    /// a random one. Refused on an empty playlist and in other modes.
    pub fn start_play(&mut self) -> (r: Result<PlayerAction, PlayerError>)
        requires
            old(self)@.wf(),
        ensures
            final(self)@.wf(),
            exists|draw: usize|
                (old(self)@.playlist.len() > 0 ==> draw < old(self)@.playlist.len()) && (final(self)@, r)
                    == start_play_spec(old(self)@, draw),
            old(self)@.play_mode != PlayMode::Shuffle ==> (final(self)@, r) == start_play_spec(
                old(self)@,
                0,
            ),
    {
        let draw = self.draw();
        self.start_play_with_draw(draw)
    }

    /// Skips to the next track of the play mode, with the draw for shuffle
    /// given (see [`next_now_spec`]).
    pub fn play_next_song_now_with_draw(&mut self, position: Option<u64>, draw: usize) -> (r:
        PlayerAction)
        requires
            old(self)@.wf(),
            old(self)@.playlist.len() > 0 ==> draw < old(self)@.playlist.len(),
        ensures
            final(self)@.wf(),
            (final(self)@, r) == next_now_spec(old(self)@, position, draw),
            !skip_allowed(position) ==> final(self)@ == old(self)@ && r == PlayerAction::Nothing,
    {
        let loaded = self.play_state == PlayState::Playing || self.play_state == PlayState::Paused
            || self.play_state == PlayState::Ended;
        if loaded {
            if let Some(p) = position {
                if p >= SKIP_GUARD_MILLIS {
                    return self.advance(draw);
                }
            }
        }
        PlayerAction::Nothing
    }

    /// Skips to the next track of the play mode, once the current track
    /// has played for the skip guard; `position` is the playback position
    /// in milliseconds.
    pub fn play_next_song_now(&mut self, position: Option<u64>) -> (r: PlayerAction)
        requires
            old(self)@.wf(),
        ensures
            final(self)@.wf(),
            exists|draw: usize|
                (old(self)@.playlist.len() > 0 ==> draw < old(self)@.playlist.len()) && (final(self)@, r)
                    == next_now_spec(old(self)@, position, draw),
            old(self)@.play_mode != PlayMode::Shuffle ==> (final(self)@, r) == next_now_spec(
                old(self)@,
                position,
                0,
            ),
            !skip_allowed(position) ==> final(self)@ == old(self)@ && r == PlayerAction::Nothing,
    {
        let draw = self.draw();
        self.play_next_song_now_with_draw(position, draw)
    }

    /// Goes back to the previously committed track, once the current track
    /// has played for the skip guard. With fewer than two history entries
    /// nothing happens.
    pub fn play_prev_song_now(&mut self, position: Option<u64>) -> (r: PlayerAction)
        requires
            old(self)@.wf(),
        ensures
            final(self)@.wf(),
            (final(self)@, r) == prev_now_spec(old(self)@, position),
            !skip_allowed(position) || old(self)@.history.len() < 2 ==> final(self)@ == old(self)@
                && r == PlayerAction::Nothing,
    {
        if let Some(p) = position {
            if p >= SKIP_GUARD_MILLIS && self.play_index_history_stack.len() >= 2 {
                let ghost h = self@.history;
                self.play_index_history_stack.pop();
                let prev = self.play_index_history_stack.pop().unwrap();
                assert(self@.history =~= h.subrange(0, h.len() - 2));
                assert(h[h.len() - 2] < self@.playlist.len());
                return self.begin_commit(prev);
            }
        }
        PlayerAction::Nothing
    }

    /// Moves the lyric cursor to line `index` and seeks the transport to
    /// its timestamp; only while a track is loaded and the line exists.
    pub fn seek_to_timestamp_with_index(&mut self, index: usize) -> (r: PlayerAction)
        requires
            old(self)@.wf(),
        ensures
            final(self)@.wf(),
            (final(self)@, r) == seek_spec(old(self)@, index),
    {
        let loaded = self.play_state == PlayState::Playing || self.play_state == PlayState::Paused
            || self.play_state == PlayState::Ended;
        if loaded {
            if let Some(l) = self.current_song_lyrics.as_ref() {
                if index < l.len() {
                    let timestamp = l[index].timestamp;
                    assert(lyric_views(l@)[index as int].timestamp == timestamp);
                    self.current_lyric_line_index = Some(index);
                    return PlayerAction::Seek { timestamp };
                }
            }
        }
        PlayerAction::Nothing
    }
}

impl Player {
    /// Takes the outcome of the availability check of commit `ticket`.
    pub fn on_availability(&mut self, ticket: u64, available: bool) -> (r: PlayerAction)
        requires
            old(self)@.wf(),
        ensures
            final(self)@.wf(),
            (final(self)@, r) == on_availability_spec(old(self)@, ticket, available),
    {
        if let Some(c) = &self.pending {
            if c.ticket == ticket {
                if let CommitPhase::Availability = c.phase {
                    let index = c.index;
                    if available {
                        self.pending = Some(Commit { ticket, index, phase: CommitPhase::StreamUrl });
                        return PlayerAction::ResolveUrl {
                            ticket,
                            song_id: self.current_playlist[index].id,
                        };
                    } else {
                        self.pending = None;
                        self.play_state = PlayState::Ended;
                        return PlayerAction::Nothing;
                    }
                }
            }
        }
        PlayerAction::Nothing
    }

    /// Takes the outcome of the stream URL request of commit `ticket`.
    pub fn on_stream_url(&mut self, ticket: u64, url: Option<String>) -> (r: PlayerAction)
        requires
            old(self)@.wf(),
        ensures
            final(self)@.wf(),
            (final(self)@, r) == on_stream_url_spec(old(self)@, ticket, url),
    {
        if let Some(c) = &self.pending {
            if c.ticket == ticket {
                if let CommitPhase::StreamUrl = c.phase {
                    let index = c.index;
                    match url {
                        Some(u) => {
                            self.play_index_history_stack.push(index);
                            self.pending = Some(
                                Commit { ticket, index, phase: CommitPhase::Lyrics { url: u } },
                            );
                            return PlayerAction::FetchLyrics {
                                ticket,
                                song_id: self.current_playlist[index].id,
                            };
                        },
                        None => {
                            self.pending = None;
                            self.play_state = PlayState::Ended;
                            return PlayerAction::Nothing;
                        },
                    }
                }
            }
        }
        PlayerAction::Nothing
    }

    /// Takes the outcome of the lyric fetch of commit `ticket`: the
    /// primary, translated and romanized texts, or none where the fetch
    /// failed. The track starts.
    pub fn on_lyric_text(&mut self, ticket: u64, texts: Option<(String, String, String)>) -> (r:
        PlayerAction)
        requires
            old(self)@.wf(),
        ensures
            final(self)@.wf(),
            (final(self)@, r) == on_lyric_text_spec(old(self)@, ticket, texts),
    {
        let ghost v = self@;
        let taken = self.pending.take();
        match taken {
            Some(Commit { ticket: t, index, phase: CommitPhase::Lyrics { url } }) => {
                if t == ticket {
                    let lyrics = match texts {
                        Some((p, tr, ro)) => lyrics_from_text(p.as_str(), tr.as_str(), ro.as_str()),
                        None => Vec::new(),
                    };
                    assert(lyric_views(lyrics@) == fetched_lyrics(texts));
                    if lyrics.len() > 0 {
                        self.current_song_lyrics = Some(lyrics);
                        self.current_lyric_line_index = Some(0);
                    } else {
                        self.current_song_lyrics = None;
                        self.current_lyric_line_index = None;
                    }
                    self.play_state = PlayState::Playing;
                    let volume = self.volume;
                    assert(self@ =~= on_lyric_text_spec(v, ticket, texts).0);
                    PlayerAction::StartTrack { url, volume }
                } else {
                    self.pending = Some(Commit { ticket: t, index, phase: CommitPhase::Lyrics { url } });
                    PlayerAction::Nothing
                }
            },
            other => {
                self.pending = other;
                PlayerAction::Nothing
            },
        }
    }

    /// Replaces the playlist by `songs`, the tracks of playlist candidate
    /// `playlist_candidate_index`, as loaded from the catalog. The history
    /// is cleared, a commit in flight is dropped, and the first track (if
    /// any) becomes current.
    pub fn switch_playlist(&mut self, playlist_candidate_index: usize, songs: Vec<Song>) -> (r: Result<
        (),
        PlayerError,
    >)
        requires
            old(self)@.wf(),
        ensures
            final(self)@.wf(),
            (final(self)@, r) == switch_playlist_spec(old(self)@, playlist_candidate_index, songs@),
    {
        if playlist_candidate_index < self.playlist_candidates.len() {
            self.current_playlist_name = self.playlist_candidates[playlist_candidate_index].name.clone();
            self.current_playlist = songs;
            self.play_index_history_stack = Vec::new();
            self.current_song_index = if self.current_playlist.len() == 0 {
                None
            } else {
                Some(0)
            };
            self.pending = None;
            Ok(())
        } else {
            Err(PlayerError::NoPlaylistCandidate)
        }
    }

    /// Indices of the playlist whose track title holds every keyword,
    /// ignoring ASCII case: the nearest one after `start_index`.
    pub fn search_forward_playlist(&mut self, start_index: usize, keywords: Vec<String>) -> (r:
        Option<usize>)
        requires
            old(self)@.wf(),
        ensures
            final(self)@ == old(self)@,
            r matches Some(i) ==> start_index < i < old(self)@.playlist.len() && song_matches(
                old(self)@.playlist,
                i as int,
                lines_of(keywords@),
            ) && forall|j: int|
                start_index < j < i ==> !song_matches(old(self)@.playlist, j, lines_of(keywords@)),
            r is None ==> forall|j: int|
                start_index < j < old(self)@.playlist.len() ==> !song_matches(
                    old(self)@.playlist,
                    j,
                    lines_of(keywords@),
                ),
    {
        let n = self.current_playlist.len();
        let mut order: Vec<usize> = Vec::new();
        if start_index < n {
            let mut i = start_index + 1;
            while i < n
                invariant
                    start_index < i <= n,
                    n == self.current_playlist.len(),
                    order@.len() == i - start_index - 1,
                    forall|k: int| 0 <= k < order@.len() ==> #[trigger] order@[k] == start_index + 1 + k,
                decreases n - i,
            {
                order.push(i);
                i = i + 1;
            }
        }
        let r = search_in_iter(&self.current_playlist, &order, &keywords);
        proof {
            let pl = self@.playlist;
            let kw = lines_of(keywords@);
            if start_index < n {
                match r {
                    None => {
                        assert forall|j: int| start_index < j < n implies !song_matches(pl, j, kw) by {
                            assert(order@[j - start_index - 1] == j);
                        }
                    },
                    Some(i) => {
                        let p = choose|p: int|
                            0 <= p < order.len() && #[trigger] order[p] == i && song_matches(
                                pl,
                                i as int,
                                kw,
                            ) && forall|earlier: int|
                                0 <= earlier < p ==> !song_matches(pl, #[trigger] order[earlier] as int, kw);
                        assert forall|j: int| start_index < j < i implies !song_matches(pl, j, kw) by {
                            assert(order@[j - start_index - 1] == j);
                        }
                    },
                }
            }
        }
        r
    }

    /// Indices of the playlist whose track title holds every keyword,
    /// ignoring ASCII case: the nearest one before `start_index`. A start
    /// past the end of the playlist finds nothing.
    pub fn search_backward_playlist(&mut self, start_index: usize, keywords: Vec<String>) -> (r:
        Option<usize>)
        requires
            old(self)@.wf(),
        ensures
            final(self)@ == old(self)@,
            r matches Some(i) ==> i < start_index < old(self)@.playlist.len() && song_matches(
                old(self)@.playlist,
                i as int,
                lines_of(keywords@),
            ) && forall|j: int|
                i < j < start_index ==> !song_matches(old(self)@.playlist, j, lines_of(keywords@)),
            r is None && start_index < old(self)@.playlist.len() ==> forall|j: int|
                0 <= j < start_index ==> !song_matches(old(self)@.playlist, j, lines_of(keywords@)),
    {
        let n = self.current_playlist.len();
        let mut order: Vec<usize> = Vec::new();
        if start_index < n {
            let mut i = start_index;
            while i > 0
                invariant
                    i <= start_index < n,
                    n == self.current_playlist.len(),
                    order@.len() == start_index - i,
                    forall|k: int| 0 <= k < order@.len() ==> #[trigger] order@[k] == start_index - 1 - k,
                decreases i,
            {
                order.push(i - 1);
                i = i - 1;
            }
        }
        let r = search_in_iter(&self.current_playlist, &order, &keywords);
        proof {
            let pl = self@.playlist;
            let kw = lines_of(keywords@);
            if start_index < n {
                match r {
                    None => {
                        assert forall|j: int| 0 <= j < start_index implies !song_matches(pl, j, kw) by {
                            assert(order@[start_index - 1 - j] == j);
                        }
                    },
                    Some(i) => {
                        let p = choose|p: int|
                            0 <= p < order.len() && #[trigger] order[p] == i && song_matches(
                                pl,
                                i as int,
                                kw,
                            ) && forall|earlier: int|
                                0 <= earlier < p ==> !song_matches(pl, #[trigger] order[earlier] as int, kw);
                        assert forall|j: int| i < j < start_index implies !song_matches(pl, j, kw) by {
                            assert(order@[start_index - 1 - j] == j);
                        }
                    },
                }
            }
        }
        r
    }
}

impl Player {
    /// Sets the volume, in thousandths of full volume, clamped to the range
    /// from silent to full; the transport takes the clamped value.
    pub fn set_volume(&mut self, volume: i64) -> (r: PlayerAction)
        requires
            old(self)@.wf(),
        ensures
            final(self)@.wf(),
            final(self)@ == (PlayerView { volume: clamp_volume(volume), ..old(self)@ }),
            r == (PlayerAction::SetVolume { volume: clamp_volume(volume) }),
    {
        let v: u64 = if volume < 0 {
            0
        } else if volume > FULL_VOLUME as i64 {
            FULL_VOLUME
        } else {
            volume as u64
        };
        self.volume = v;
        PlayerAction::SetVolume { volume: v }
    }

    /// Silences the transport.
    pub fn mute(&mut self) -> (r: PlayerAction)
        requires
            old(self)@.wf(),
        ensures
            final(self)@.wf(),
            final(self)@ == (PlayerView { volume: 0, ..old(self)@ }),
            r == (PlayerAction::SetVolume { volume: 0 }),
    {
        self.volume = 0;
        PlayerAction::SetVolume { volume: 0 }
    }

    /// The volume, in thousandths of full volume.
    pub fn volume(&self) -> (r: u64)
        ensures
            r == self@.volume,
    {
        self.volume
    }

    /// Whether a track is playing.
    pub fn is_playing(&self) -> (r: bool)
        ensures
            r == (self@.play_state == PlayState::Playing),
    {
        self.play_state == PlayState::Playing
    }

    /// The play state.
    pub fn play_state(&self) -> (r: PlayState)
        ensures
            r == self@.play_state,
    {
        self.play_state
    }

    /// The label of the play mode.
    pub fn play_mode(&self) -> (r: String)
        ensures
            r@ == mode_label(self@.play_mode),
    {
        self.play_mode.label()
    }

    /// Changes the play mode; the current track and the history are kept.
    pub fn set_play_mode(&mut self, mode: PlayMode)
        requires
            old(self)@.wf(),
        ensures
            final(self)@.wf(),
            final(self)@ == (PlayerView { play_mode: mode, ..old(self)@ }),
    {
        self.play_mode = mode;
    }

    /// Name of the current playlist.
    pub fn current_playlist_name(&self) -> (r: &String)
        ensures
            r@ == self@.playlist_name,
    {
        &self.current_playlist_name
    }

    /// The tracks of the current playlist.
    pub fn current_playlist(&self) -> (r: &Vec<Song>)
        ensures
            r@ == self@.playlist,
    {
        &self.current_playlist
    }

    /// The current track.
    pub fn current_song(&self) -> (r: Option<&Song>)
        requires
            self@.wf(),
        ensures
            r == match self@.current_index {
                Some(i) => Some(&self@.playlist[i as int]),
                None => None::<&Song>,
            },
    {
        match self.current_song_index {
            Some(i) => Some(&self.current_playlist[i]),
            None => None,
        }
    }

    /// Index of the current track in the playlist.
    pub fn current_song_index(&self) -> (r: Option<usize>)
        ensures
            r == self@.current_index,
    {
        self.current_song_index
    }

    /// Lyrics of the current track.
    pub fn current_song_lyrics(&self) -> (r: &Option<Vec<LyricLine>>)
        ensures
            opt_lyrics(*r) == self@.lyrics,
    {
        &self.current_song_lyrics
    }

    /// Index of the highlighted lyric line.
    pub fn current_lyric_line_index(&self) -> (r: Option<usize>)
        ensures
            r == self@.lyric_cursor,
    {
        self.current_lyric_line_index
    }

    /// Replaces the playlist candidates.
    pub fn set_playlist_candidates(&mut self, candidates: Vec<Songlist>)
        requires
            old(self)@.wf(),
        ensures
            final(self)@.wf(),
            final(self)@ == (PlayerView { candidates: candidates@, ..old(self)@ }),
    {
        self.playlist_candidates = candidates;
    }

    /// The playlist candidates.
    pub fn playlist_candidates(&self) -> (r: &Vec<Songlist>)
        ensures
            r@ == self@.candidates,
    {
        &self.playlist_candidates
    }

    /// History of committed track indices; the last is the current track.
    pub fn history(&self) -> (r: &Vec<usize>)
        ensures
            r@ == self@.history,
    {
        &self.play_index_history_stack
    }
}

} // verus!
