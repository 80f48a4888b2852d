use vstd::prelude::*;
use vstd::string::*;

verus! {

/// Playback state of the session.
#[derive(Clone, Copy, Debug, PartialEq, Eq, Structural)]
pub enum PlayState {
    /// Nothing is playing and no advance is pending.
    Stopped,
    /// A track is loaded and paused.
    Paused,
    /// A track is playing.
    Playing,
    /// The current track has finished; the next advance is pending.
    Ended,
}

/// Policy for choosing the track that follows the current one.
#[derive(Clone, Copy, Debug, PartialEq, Eq, Structural)]
pub enum PlayMode {
    /// Play the current track once, then stop.
    Single,
    /// Repeat the current track.
    SingleRepeat,
    /// Walk the playlist in order, wrapping at the end.
    ListRepeat,
    /// Pick a uniformly random track each time.
    Shuffle,
}

impl PlayMode {
    /// Label shown to the user for this mode.
    pub fn label(&self) -> (r: String)
        ensures
            r@ == mode_label(*self),
    {
        match self {
            PlayMode::Single => String::from_str("单曲播放"),
            PlayMode::SingleRepeat => String::from_str("单曲循环"),
            PlayMode::ListRepeat => String::from_str("列表循环"),
            PlayMode::Shuffle => String::from_str("随机播放"),
        }
    }
}

/// The label of each play mode.
pub open spec fn mode_label(m: PlayMode) -> Seq<char> {
    match m {
        PlayMode::Single => "单曲播放"@,
        PlayMode::SingleRepeat => "单曲循环"@,
        PlayMode::ListRepeat => "列表循环"@,
        PlayMode::Shuffle => "随机播放"@,
    }
}

/// A track of the catalog.
#[derive(Clone, Debug)]
pub struct Song {
    /// Title.
    pub name: String,
    /// Catalog id of the track.
    pub id: u64,
    /// Artist name.
    pub singer: String,
    /// Catalog id of the artist.
    pub singer_id: u64,
    /// Album name.
    pub album: String,
    /// Catalog id of the album.
    pub album_id: u64,
    /// Duration in milliseconds.
    pub duration: u64,
    /// Playable stream URL, filled once resolved.
    pub song_url: Option<String>,
}

/// A named, ordered list of tracks.
#[derive(Clone, Debug)]
pub struct Songlist {
    /// Name of the list.
    pub name: String,
    /// Catalog id of the list.
    pub id: u64,
    /// Number of tracks the catalog reports for the list.
    pub songs_count: usize,
    /// Name of the list's creator.
    pub creator: String,
    /// The tracks, once loaded.
    pub songs: Vec<Song>,
}

/// One synchronized lyric line.
#[derive(Clone, Debug)]
pub struct LyricLine {
    /// Time at which the line starts, in milliseconds.
    pub timestamp: u64,
    /// The primary lyric text.
    pub lyric_line: String,
    /// The translated line, if one was aligned to it.
    pub trans_lyric_line: Option<String>,
    /// The romanized line, if one was aligned to it.
    pub roman_lyric_line: Option<String>,
}

/// What a lyric line holds, as mathematical values.
pub struct LyricLineView {
    pub timestamp: u64,
    pub text: Seq<char>,
    pub translation: Option<Seq<char>>,
    pub romanization: Option<Seq<char>>,
}

/// The characters of an optional string.
pub open spec fn opt_chars(o: Option<String>) -> Option<Seq<char>> {
    match o {
        Some(s) => Some(s@),
        None => None,
    }
}

impl View for LyricLine {
    type V = LyricLineView;

    open spec fn view(&self) -> LyricLineView {
        LyricLineView {
            timestamp: self.timestamp,
            text: self.lyric_line@,
            translation: opt_chars(self.trans_lyric_line),
            romanization: opt_chars(self.roman_lyric_line),
        }
    }
}

/// The signed-in account.
#[derive(Clone, Debug)]
pub struct Account {
    /// Catalog id of the user.
    pub user_id: u64,
    /// Display name.
    pub nickname: String,
    /// Membership level.
    pub vip_type: i64,
}

/// Where the catalog service is reached.
#[derive(Clone, Debug)]
pub struct Settings {
    /// Use a remote catalog service instead of a local one.
    pub use_remote_api: bool,
    /// Address of the remote catalog service.
    pub remote_api_url: String,
}

impl Default for Settings {
    fn default() -> (r: Settings)
        ensures
            !r.use_remote_api,
            r.remote_api_url@ == "https://ncm-api-wine.vercel.app/"@,
    {
        Settings {
            use_remote_api: false,
            remote_api_url: String::from_str("https://ncm-api-wine.vercel.app/"),
        }
    }
}

/// Envelope of a login QR-code response.
#[derive(Debug)]
pub struct QrResponse<D> {
    pub code: usize,
    pub data: D,
}

/// Key data of a login QR-code response.
#[derive(Debug)]
pub struct QrKeyData {
    pub code: usize,
    pub unikey: String,
}

/// Creation data of a login QR-code response.
#[derive(Debug)]
pub struct QrCreateData {
    pub qrurl: String,
    pub qrimg: String,
}

/// Result of polling a login QR code.
#[derive(Debug)]
pub struct QrCheckResponse {
    pub code: usize,
    pub message: String,
    pub cookie: String,
}

/// Input mode of the terminal front end.
#[derive(Clone, Debug)]
pub enum AppMode {
    Normal,
    CommandLine,
    Search(Vec<String>),
}

/// Screens of the terminal front end.
#[derive(Clone, Copy, Debug, PartialEq, Eq, Structural)]
pub enum ScreenEnum {
    Main,
    Songlists,
    Login,
    Help,
    Launch,
}

/// Whether a panel has focus, and whether on the panel or inside it.
#[derive(Clone, Copy, Debug, PartialEq, Eq, Structural)]
pub enum PanelFocusedStatus {
    Outside,
    Inside,
    Nop,
}

/// A local audio file with its metadata.
#[derive(Debug)]
pub struct Track {
    /// Track name from the metadata; the file name stands in where none.
    pub title: Option<String>,
    /// Artist name from the metadata.
    pub artist: String,
    /// Album name from the metadata.
    pub album: String,
    /// Year from the metadata.
    pub year: Option<u32>,
    /// Track number.
    pub number: Option<u32>,
    /// Track duration.
    pub length: std::time::Duration,
    /// Path of the audio file.
    pub file_path: String,
}

} // verus!
