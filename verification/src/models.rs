//! The platform-independent state model: time and rate quantities, track
//! metadata, playback information and transport-control events.

use vstd::prelude::*;

verus! {

/// Nanoseconds in one microsecond, the time unit of the D-Bus player interface.
pub const NANOS_PER_MICRO: i64 = 1_000;

/// Nanoseconds in one tick, the 100 ns time unit of the session-manager backend.
pub const NANOS_PER_TICK: i64 = 100;

/// Whether the session is playing, paused or stopped.
#[derive(Debug, Clone, Copy, PartialEq, Eq, Structural)]
pub enum PlaybackStatus {
    Playing,
    Paused,
    Stopped,
}

/// Which part of the queue repeats.
#[derive(Debug, Clone, Copy, PartialEq, Eq, Structural)]
pub enum RepeatMode {
    Off,
    Track,
    List,
}

/// Integer division that rounds toward zero, as a conversion to a coarser unit does.
pub open spec fn div_toward_zero(n: int, d: int) -> int
    recommends
        d > 0,
{
    if n >= 0 {
        n / d
    } else {
        -((-n) / d)
    }
}

/// `n` limited to the range of `i64`.
pub open spec fn saturate_i64(n: int) -> int {
    if n > i64::MAX as int {
        i64::MAX as int
    } else if n < i64::MIN as int {
        i64::MIN as int
    } else {
        n
    }
}

/// A span of time or a position on a timeline, held as a whole number of
/// nanoseconds. Negative values are offsets backwards.
#[derive(Debug, Clone, Copy, PartialEq, Eq, Structural)]
pub struct Seconds {
    pub nanos: i64,
}

impl Seconds {
    /// The time span that corresponds to `ticks`, limited to what `Seconds` can hold.
    pub open spec fn of_ticks(ticks: int) -> Seconds {
        Seconds { nanos: saturate_i64(ticks * NANOS_PER_TICK) as i64 }
    }

    /// The whole number of microseconds in this time span, rounded toward zero.
    pub open spec fn micros(self) -> int {
        div_toward_zero(self.nanos as int, NANOS_PER_MICRO as int)
    }

    /// The whole number of ticks in this time span, rounded toward zero.
    pub open spec fn ticks(self) -> int {
        div_toward_zero(self.nanos as int, NANOS_PER_TICK as int)
    }

    /// The empty time span, and the start of every timeline.
    pub fn zero() -> (r: Seconds)
        ensures
            r.nanos == 0,
    {
        Seconds { nanos: 0 }
    }

    pub fn from_nanos(nanos: i64) -> (r: Seconds)
        ensures
            r.nanos == nanos,
    {
        Seconds { nanos }
    }

    pub fn as_nanos(&self) -> (r: i64)
        ensures
            r == self.nanos,
    {
        self.nanos
    }

    /// This time span in the microseconds of the D-Bus player interface.
    pub fn to_micros(&self) -> (r: i64)
        ensures
            r == self.micros(),
    {
        self.nanos / NANOS_PER_MICRO
    }

    /// This time span in the ticks of the session-manager backend.
    pub fn to_ticks(&self) -> (r: i64)
        ensures
            r == self.ticks(),
    {
        self.nanos / NANOS_PER_TICK
    }

    /// The time span of `ticks` ticks. A count beyond what `Seconds` can hold
    /// gives the nearest end of its range.
    pub fn from_ticks(ticks: i64) -> (r: Seconds)
        ensures
            r == Seconds::of_ticks(ticks as int),
    {
        if ticks > i64::MAX / NANOS_PER_TICK {
            Seconds { nanos: i64::MAX }
        } else if ticks < i64::MIN / NANOS_PER_TICK {
            Seconds { nanos: i64::MIN }
        } else {
            Seconds { nanos: ticks * NANOS_PER_TICK }
        }
    }
}

/// A playback speed as a multiple of normal speed, held in thousandths:
/// 1000 is normal speed, 0 is standstill, negative values play backwards.
#[derive(Debug, Clone, Copy, PartialEq, Eq, Structural)]
pub struct Rate {
    pub permille: i64,
}

impl Rate {
    /// Standstill: the rate every backend reports while nothing plays.
    pub fn zero() -> (r: Rate)
        ensures
            r.permille == 0,
    {
        Rate { permille: 0 }
    }

    /// Normal speed.
    pub fn normal() -> (r: Rate)
        ensures
            r.permille == 1000,
    {
        Rate { permille: 1000 }
    }
}

/// The characters of an optional text.
pub open spec fn text_view(text: Option<String>) -> Option<Seq<char>> {
    match text {
        Some(t) => Some(t@),
        None => None,
    }
}

/// The bytes of an optional buffer.
pub open spec fn bytes_view(bytes: Option<Vec<u8>>) -> Option<Seq<u8>> {
    match bytes {
        Some(b) => Some(b@),
        None => None,
    }
}

/// What a [`MediaMetadata`] value says, as mathematical sequences.
pub struct MetadataView {
    pub title: Seq<char>,
    pub artist: Option<Seq<char>>,
    pub album: Option<Seq<char>>,
    pub album_artist: Option<Seq<char>>,
    pub duration: Option<Seconds>,
    pub artwork_url: Option<Seq<char>>,
    pub artwork_data: Option<Seq<u8>>,
}

/// The description of one track. Artwork may be given as a URL, as raw image
/// bytes, or both; where both are present the URL takes precedence.
#[derive(Debug, PartialEq, Eq)]
pub struct MediaMetadata {
    pub title: String,
    pub artist: Option<String>,
    pub album: Option<String>,
    pub album_artist: Option<String>,
    pub duration: Option<Seconds>,
    pub artwork_url: Option<String>,
    pub artwork_data: Option<Vec<u8>>,
}

impl View for MediaMetadata {
    type V = MetadataView;

    open spec fn view(&self) -> MetadataView {
        MetadataView {
            title: self.title@,
            artist: text_view(self.artist),
            album: text_view(self.album),
            album_artist: text_view(self.album_artist),
            duration: self.duration,
            artwork_url: text_view(self.artwork_url),
            artwork_data: bytes_view(self.artwork_data),
        }
    }
}

/// The view of an optional metadata value.
pub open spec fn metadata_view(metadata: Option<MediaMetadata>) -> Option<MetadataView> {
    match metadata {
        Some(m) => Some(m@),
        None => None,
    }
}

/// A copy of an optional text.
pub fn clone_text(text: &Option<String>) -> (r: Option<String>)
    ensures
        text_view(r) == text_view(*text),
{
    match text {
        Some(t) => Some(t.clone()),
        None => None,
    }
}

/// A copy of an optional buffer.
pub fn clone_bytes(bytes: &Option<Vec<u8>>) -> (r: Option<Vec<u8>>)
    ensures
        bytes_view(r) == bytes_view(*bytes),
{
    match bytes {
        Some(b) => Some(b.clone()),
        None => None,
    }
}

impl Clone for MediaMetadata {
    fn clone(&self) -> (r: Self)
        ensures
            r@ == self@,
    {
        MediaMetadata {
            title: self.title.clone(),
            artist: clone_text(&self.artist),
            album: clone_text(&self.album),
            album_artist: clone_text(&self.album_artist),
            duration: self.duration,
            artwork_url: clone_text(&self.artwork_url),
            artwork_data: clone_bytes(&self.artwork_data),
        }
    }
}

/// A copy of an optional metadata value.
pub fn clone_metadata(metadata: &Option<MediaMetadata>) -> (r: Option<MediaMetadata>)
    ensures
        metadata_view(r) == metadata_view(*metadata),
{
    match metadata {
        Some(m) => Some(m.clone()),
        None => None,
    }
}

/// The playback state of the session. The rate is meaningful only while the
/// status is `Playing`.
#[derive(Debug, Clone, Copy, PartialEq, Eq, Structural)]
pub struct PlaybackInfo {
    pub status: PlaybackStatus,
    pub position: Seconds,
    pub shuffle: bool,
    pub repeat_mode: RepeatMode,
    pub playback_rate: Rate,
}

/// What a transport control asked for.
#[derive(Debug, Clone, Copy, PartialEq, Eq, Structural)]
pub enum MediaControlEventType {
    Play,
    Pause,
    PlayPause,
    Stop,
    Next,
    Previous,
    FastForward,
    Rewind,
    SeekTo(Seconds),
    SetPosition(Seconds),
    SetPlaybackRate(Rate),
}

/// A transport-control event with the time at which it was translated, in
/// seconds since the Unix epoch.
#[derive(Debug, Clone, Copy, PartialEq, Eq, Structural)]
pub struct MediaControlEvent {
    pub event_type: MediaControlEventType,
    pub timestamp: u64,
}

/// The identity under which a session is opened.
#[derive(Debug, Clone, PartialEq, Eq)]
pub struct InitializeMediaSessionRequest {
    pub app_id: String,
    pub app_name: String,
}

} // verus!
