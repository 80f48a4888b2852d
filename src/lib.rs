//! Playback core of a terminal client for a streaming-music catalog.
//!
//! - [`lyrics`]: timestamped lyric text, tag normalization and alignment of
//!   translated and romanized lines to the primary ones;
//! - [`player`]: the playback state machine, with playlist navigation,
//!   play modes, history and the commit sequence of a new track;
//! - [`search`]: case-insensitive keyword search over track titles;
//! - [`scroll`]: keeping the highlighted lyric line centred;
//! - [`lyric_laws`] and [`player_laws`]: the laws these obey.
use vstd::prelude::*;

pub mod lyric_laws;
pub mod lyrics;
pub mod model;
pub mod player;
pub mod player_laws;
pub mod scroll;
pub mod search;

verus! {

} // verus!
