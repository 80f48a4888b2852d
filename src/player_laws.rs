//! Laws of the playback state machine.
use vstd::prelude::*;
use crate::model::{PlayMode, Song};
use crate::player::{
    next_index_spec, next_now_spec, prev_now_spec, skip_allowed, switch_playlist_spec,
    PlayerAction, PlayerView,
};

verus! {

/// Switching to a non-empty playlist makes its first track current and
/// leaves an empty history.
pub proof fn lemma_switch_starts_at_first(v: PlayerView, index: usize, songs: Seq<Song>)
    requires
        index < v.candidates.len(),
        songs.len() > 0,
    ensures
        switch_playlist_spec(v, index, songs).1 is Ok,
        switch_playlist_spec(v, index, songs).0.current_index == Some(0usize),
        switch_playlist_spec(v, index, songs).0.history.len() == 0,
        switch_playlist_spec(v, index, songs).0.playlist == songs,
{
}

/// In a playlist of `n` tracks, list repeat follows track `i` with track
/// `(i + 1) mod n` and single repeat with track `i`, whatever the draw.
pub proof fn lemma_repeat_modes(n: usize, i: usize, draw: usize)
    requires
        0 < n,
        i < n,
    ensures
        next_index_spec(PlayMode::ListRepeat, i, n, draw) == Some(((i + 1) % (n as int)) as usize),
        next_index_spec(PlayMode::SingleRepeat, i, n, draw) == Some(i),
        next_index_spec(PlayMode::ListRepeat, i, n, draw)->0 < n,
{
    assert(((i + 1) % (n as int)) < n) by (nonlinear_arith)
        requires
            0 < n,
    ;
}

/// A skip asked for before the current track has played for the skip
/// guard (or with no position known) changes nothing, in either direction.
pub proof fn lemma_skip_guard(v: PlayerView, position: Option<u64>, draw: usize)
    requires
        !skip_allowed(position),
    ensures
        next_now_spec(v, position, draw) == (v, PlayerAction::Nothing),
        prev_now_spec(v, position) == (v, PlayerAction::Nothing),
{
}

/// Going back with fewer than two history entries changes nothing, the
/// history included.
pub proof fn lemma_prev_needs_two_entries(v: PlayerView, position: Option<u64>)
    requires
        v.history.len() < 2,
    ensures
        prev_now_spec(v, position) == (v, PlayerAction::Nothing),
        prev_now_spec(v, position).0.history == v.history,
{
}

} // verus!
