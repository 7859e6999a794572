//! The session-manager backend: the session as this process's transport
//! controls and display updater, with reads from the system-wide session
//! manager. This module decides what is shown and how what is read is
//! understood; the host owns the native handles.

use crate::models::{
    bytes_view, clone_metadata, clone_text, metadata_view, text_view, MediaControlEvent,
    MediaControlEventType, MediaMetadata, MetadataView, PlaybackInfo, PlaybackStatus, Rate,
    RepeatMode, Seconds,
};
use crate::platform::{
    ControllerError, MediaController, NativeLiveness, NativeOutcome, SessionModel, TargetOs,
};
use vstd::prelude::*;

verus! {

/// The artwork ceiling: a thumbnail of this many bytes or more is never
/// read from another application's session.
pub const ARTWORK_CEILING: u64 = 10_000_000;

/// A button of the system transport controls.
#[derive(Debug, Clone, Copy, PartialEq, Eq, Structural)]
pub enum SmtcButton {
    Play,
    Pause,
    Stop,
    Record,
    FastForward,
    Rewind,
    Next,
    Previous,
    ChannelUp,
    ChannelDown,
}

/// What a button press asks for, if the session reacts to the button.
pub open spec fn button_event_type(button: SmtcButton) -> Option<MediaControlEventType> {
    match button {
        SmtcButton::Play => Some(MediaControlEventType::Play),
        SmtcButton::Pause => Some(MediaControlEventType::Pause),
        SmtcButton::Stop => Some(MediaControlEventType::Stop),
        SmtcButton::Next => Some(MediaControlEventType::Next),
        SmtcButton::Previous => Some(MediaControlEventType::Previous),
        _ => None,
    }
}

/// Translates a button press into the event handed to the registered
/// handler. `timestamp` is the time of translation in seconds since the
/// Unix epoch. Buttons the session does not react to give no event.
pub fn button_event(button: SmtcButton, timestamp: u64) -> (r: Option<MediaControlEvent>)
    ensures
        r == match button_event_type(button) {
            Some(event_type) => Some(MediaControlEvent { event_type, timestamp }),
            None => None,
        },
{
    let event_type = match button {
        SmtcButton::Play => MediaControlEventType::Play,
        SmtcButton::Pause => MediaControlEventType::Pause,
        SmtcButton::Stop => MediaControlEventType::Stop,
        SmtcButton::Next => MediaControlEventType::Next,
        SmtcButton::Previous => MediaControlEventType::Previous,
        _ => {
            return None;
        },
    };
    Some(MediaControlEvent { event_type, timestamp })
}

/// What the host does to the subscriptions of the button callback.
pub struct ButtonWiring<'a, H> {
    /// Whether every subscription made for this session before is removed first.
    pub detach_earlier: bool,
    /// The handler to subscribe, if one is registered.
    pub attach: Option<&'a H>,
}

/// What the host sets on the transport controls to open the session.
#[derive(Debug, Clone, Copy, PartialEq, Eq, Structural)]
pub struct SmtcSetup {
    pub enabled: bool,
    pub play_enabled: bool,
    pub pause_enabled: bool,
    pub next_enabled: bool,
    pub previous_enabled: bool,
    pub stop_enabled: bool,
    /// Whether a handler is registered, so that button presses are to be wired to it.
    pub wire_buttons: bool,
}

/// The thumbnail of a display update.
#[derive(Debug, PartialEq, Eq)]
pub enum Thumbnail {
    /// The metadata has no artwork: the thumbnail stays as it is.
    Unchanged,
    /// The thumbnail is loaded from this URL. A URL the native surface
    /// cannot resolve leaves the thumbnail as it is and fails nothing.
    FromUri(String),
    /// The thumbnail is these image bytes.
    FromBytes(Vec<u8>),
}

pub enum ThumbnailView {
    Unchanged,
    FromUri(Seq<char>),
    FromBytes(Seq<u8>),
}

impl View for Thumbnail {
    type V = ThumbnailView;

    open spec fn view(&self) -> ThumbnailView {
        match self {
            Thumbnail::Unchanged => ThumbnailView::Unchanged,
            Thumbnail::FromUri(url) => ThumbnailView::FromUri(url@),
            Thumbnail::FromBytes(bytes) => ThumbnailView::FromBytes(bytes@),
        }
    }
}

/// What the host shows through the display updater, as music properties.
/// An absent artist or album leaves that property as it is.
#[derive(Debug, PartialEq, Eq)]
pub struct DisplayUpdate {
    pub title: String,
    pub artist: Option<String>,
    pub album_title: Option<String>,
    pub thumbnail: Thumbnail,
}

/// The thumbnail of a track: its URL where it has one, else its raw bytes
/// where it has those.
pub open spec fn thumbnail_of(metadata: MetadataView) -> ThumbnailView {
    match metadata.artwork_url {
        Some(url) => ThumbnailView::FromUri(url),
        None => match metadata.artwork_data {
            Some(bytes) => ThumbnailView::FromBytes(bytes),
            None => ThumbnailView::Unchanged,
        },
    }
}

/// A native timeline, in ticks.
#[derive(Debug, Clone, Copy, PartialEq, Eq, Structural)]
pub struct Timeline {
    pub start_ticks: i64,
    pub end_ticks: i64,
    pub position_ticks: i64,
}

/// The timeline shown for a position: from zero to the duration of the
/// cached track. Without a cached duration no timeline is shown.
pub open spec fn timeline_of(metadata: Option<MetadataView>, position: Seconds) -> Option<
    Timeline,
> {
    match metadata {
        Some(m) => match m.duration {
            Some(duration) => Some(
                Timeline {
                    start_ticks: 0,
                    end_ticks: duration.ticks() as i64,
                    position_ticks: position.ticks() as i64,
                },
            ),
            None => None,
        },
        None => None,
    }
}

/// What the host sets on the transport controls for a playback update.
#[derive(Debug, Clone, Copy, PartialEq, Eq, Structural)]
pub struct TransportUpdate {
    pub status: PlaybackStatus,
    pub repeat_mode: RepeatMode,
    pub shuffle: bool,
    pub rate: Rate,
    pub timeline: Option<Timeline>,
}

/// The transport update of playback information: status, repeat mode,
/// shuffle and rate as they are, and the timeline of its position where
/// the cached track has a duration.
pub open spec fn transport_update(metadata: Option<MetadataView>, info: PlaybackInfo)
    -> TransportUpdate {
    TransportUpdate {
        status: info.status,
        repeat_mode: info.repeat_mode,
        shuffle: info.shuffle,
        rate: info.playback_rate,
        timeline: timeline_of(metadata, info.position),
    }
}

/// How many bytes of a thumbnail of `size` bytes the host reads: all of a
/// thumbnail that is not empty and stays under the artwork ceiling, and
/// nothing of any other.
pub fn artwork_read_len(size: u64) -> (r: Option<u32>)
    ensures
        r == if 0 < size < ARTWORK_CEILING {
            Some(size as u32)
        } else {
            None
        },
        r matches Some(len) ==> len < ARTWORK_CEILING,
{
    if size > 0 && size < ARTWORK_CEILING {
        Some(size as u32)
    } else {
        None
    }
}

/// What the system-wide session says of its track. Empty texts stand for
/// properties the session does not have.
#[derive(Debug, PartialEq, Eq)]
pub struct SessionMedia {
    pub title: String,
    pub artist: String,
    pub album_artist: String,
    pub album_title: String,
    pub thumbnail: Option<Vec<u8>>,
}

/// A text property of a session: absent where the text is empty.
pub open spec fn present(text: Seq<char>) -> Option<Seq<char>> {
    if text.len() == 0 {
        None
    } else {
        Some(text)
    }
}

/// The artwork taken from a session's thumbnail: its bytes where there are
/// some and fewer than the artwork ceiling.
pub open spec fn accepted_artwork(thumbnail: Option<Seq<u8>>) -> Option<Seq<u8>> {
    match thumbnail {
        Some(bytes) if 0 < bytes.len() < ARTWORK_CEILING => Some(bytes),
        _ => None,
    }
}

/// The track a session describes. A session that names neither a title nor
/// an artist describes no track; one that names an artist only gets the
/// title `Unknown`.
pub open spec fn session_track(
    title: Seq<char>,
    artist: Seq<char>,
    album_artist: Seq<char>,
    album_title: Seq<char>,
    thumbnail: Option<Seq<u8>>,
) -> Option<MetadataView> {
    if title.len() > 0 || artist.len() > 0 {
        Some(
            MetadataView {
                title: if title.len() == 0 {
                    "Unknown"@
                } else {
                    title
                },
                artist: present(artist),
                album: present(album_title),
                album_artist: present(album_artist),
                duration: None,
                artwork_url: None,
                artwork_data: accepted_artwork(thumbnail),
            },
        )
    } else {
        None
    }
}

/// A text property of a session: absent where the text is empty.
pub fn present_text(text: String) -> (r: Option<String>)
    ensures
        text_view(r) == present(text@),
{
    if text.as_str().is_empty() {
        None
    } else {
        Some(text)
    }
}

/// Reads a track description out of what the system-wide session says.
pub fn session_metadata(media: SessionMedia) -> (r: Option<MediaMetadata>)
    ensures
        metadata_view(r) == session_track(
            media.title@,
            media.artist@,
            media.album_artist@,
            media.album_title@,
            bytes_view(media.thumbnail),
        ),
        r matches Some(m) ==> (m.artwork_data matches Some(bytes) ==> bytes@.len()
            < ARTWORK_CEILING),
{
    let SessionMedia { title, artist, album_artist, album_title, thumbnail } = media;
    if title.as_str().is_empty() && artist.as_str().is_empty() {
        return None;
    }
    let artwork_data = match thumbnail {
        Some(bytes) => {
            if bytes.len() > 0 && (bytes.len() as u64) < ARTWORK_CEILING {
                Some(bytes)
            } else {
                None
            }
        },
        None => None,
    };
    Some(
        MediaMetadata {
            title: if title.as_str().is_empty() {
                "Unknown".to_owned()
            } else {
                title
            },
            artist: present_text(artist),
            album: present_text(album_title),
            album_artist: present_text(album_artist),
            duration: None,
            artwork_url: None,
            artwork_data,
        },
    )
}

/// The playback status the system-wide session reports.
#[derive(Debug, Clone, Copy, PartialEq, Eq, Structural)]
pub enum SessionStatus {
    Closed,
    Opened,
    Changing,
    Stopped,
    Playing,
    Paused,
}

/// What the system-wide session says of its playback. `None` stands for a
/// property the session does not report.
#[derive(Debug, Clone, Copy, PartialEq, Eq, Structural)]
pub struct SessionPlayback {
    pub status: SessionStatus,
    pub rate: Option<Rate>,
    pub shuffle: Option<bool>,
    pub repeat_mode: Option<RepeatMode>,
}

/// The status a session status stands for: playing and paused as they
/// are, stopped for every other.
pub open spec fn status_of(status: SessionStatus) -> PlaybackStatus {
    match status {
        SessionStatus::Playing => PlaybackStatus::Playing,
        SessionStatus::Paused => PlaybackStatus::Paused,
        _ => PlaybackStatus::Stopped,
    }
}

/// The playback information a session stands for: normal speed, no
/// shuffle and no repeat where the session reports none, and position
/// zero, which the position query fills in.
pub open spec fn playback_of(playback: SessionPlayback) -> PlaybackInfo {
    PlaybackInfo {
        status: status_of(playback.status),
        position: Seconds { nanos: 0 },
        shuffle: match playback.shuffle {
            Some(shuffle) => shuffle,
            None => false,
        },
        repeat_mode: match playback.repeat_mode {
            Some(mode) => mode,
            None => RepeatMode::Off,
        },
        playback_rate: match playback.rate {
            Some(rate) => rate,
            None => Rate { permille: 1000 },
        },
    }
}

/// Reads the playback status out of what the system-wide session says.
pub fn session_status(status: SessionStatus) -> (r: PlaybackStatus)
    ensures
        r == status_of(status),
{
    match status {
        SessionStatus::Playing => PlaybackStatus::Playing,
        SessionStatus::Paused => PlaybackStatus::Paused,
        _ => PlaybackStatus::Stopped,
    }
}

/// Reads the playback information out of what the system-wide session says.
pub fn session_playback_info(playback: SessionPlayback) -> (r: PlaybackInfo)
    ensures
        r == playback_of(playback),
{
    PlaybackInfo {
        status: session_status(playback.status),
        position: Seconds::zero(),
        shuffle: match playback.shuffle {
            Some(shuffle) => shuffle,
            None => false,
        },
        repeat_mode: match playback.repeat_mode {
            Some(mode) => mode,
            None => RepeatMode::Off,
        },
        playback_rate: match playback.rate {
            Some(rate) => rate,
            None => Rate::normal(),
        },
    }
}

/// Reads the position out of the ticks the system-wide session reports.
pub fn session_position(ticks: i64) -> (r: Seconds)
    ensures
        r == Seconds::of_ticks(ticks as int),
{
    Seconds::from_ticks(ticks)
}

/// The backend for the system media transport controls.
pub struct WindowsMediaController<H> {
    event_handler: Option<H>,
    metadata: Option<MediaMetadata>,
    playback_info: Option<PlaybackInfo>,
}

impl<H> WindowsMediaController<H> {
    /// The cached metadata.
    pub closed spec fn spec_metadata(&self) -> Option<MetadataView> {
        metadata_view(self.metadata)
    }

    /// The cached playback information.
    pub closed spec fn spec_playback(&self) -> Option<PlaybackInfo> {
        self.playback_info
    }

    /// The registered event handler.
    pub closed spec fn spec_handler(&self) -> Option<H> {
        self.event_handler
    }

    /// A backend with nothing cached and no handler.
    pub fn new() -> (r: Self)
        ensures
            r.spec_metadata() is None,
            r.spec_playback() is None,
            r.spec_handler() is None,
    {
        WindowsMediaController { event_handler: None, metadata: None, playback_info: None }
    }

    /// How the button callback is wired, at `initialize_session` and on
    /// every registration of a handler: the host first removes every
    /// subscription to button presses that it made for this session
    /// before, and then subscribes the registered handler, if there is
    /// one. So at most one subscription lives at a time, a press reaches
    /// the handler registered last and no other, and each press is
    /// translated by `button_event`.
    pub fn setup_button_handlers(&self) -> (r: ButtonWiring<'_, H>)
        ensures
            r.detach_earlier,
            match r.attach {
                Some(h) => self.spec_handler() == Some(*h),
                None => self.spec_handler() is None,
            },
    {
        ButtonWiring { detach_earlier: true, attach: self.event_handler.as_ref() }
    }

    /// What `initialize_session` sets: the controls and their five
    /// transport buttons enabled, and the buttons wired where a handler is
    /// registered.
    pub fn initialize_session_request(&self) -> (r: SmtcSetup)
        ensures
            r == (SmtcSetup {
                enabled: true,
                play_enabled: true,
                pause_enabled: true,
                next_enabled: true,
                previous_enabled: true,
                stop_enabled: true,
                wire_buttons: self.spec_handler() is Some,
            }),
    {
        SmtcSetup {
            enabled: true,
            play_enabled: true,
            pause_enabled: true,
            next_enabled: true,
            previous_enabled: true,
            stop_enabled: true,
            wire_buttons: self.event_handler.is_some(),
        }
    }

    /// What `set_metadata` shows: title, artist and album of the track,
    /// and its artwork with a URL taking precedence over raw bytes.
    pub fn set_metadata_request(metadata: &MediaMetadata) -> (r: DisplayUpdate)
        ensures
            r.title@ == metadata.title@,
            text_view(r.artist) == text_view(metadata.artist),
            text_view(r.album_title) == text_view(metadata.album),
            r.thumbnail@ == thumbnail_of(metadata@),
    {
        let thumbnail = match &metadata.artwork_url {
            Some(url) => Thumbnail::FromUri(url.clone()),
            None => match &metadata.artwork_data {
                Some(bytes) => Thumbnail::FromBytes(bytes.clone()),
                None => Thumbnail::Unchanged,
            },
        };
        DisplayUpdate {
            title: metadata.title.clone(),
            artist: clone_text(&metadata.artist),
            album_title: clone_text(&metadata.album),
            thumbnail,
        }
    }

    /// The timeline shown for a position: that of the cached track,
    /// where the cached track has a duration.
    fn timeline(&self, position: Seconds) -> (r: Option<Timeline>)
        ensures
            r == timeline_of(self.spec_metadata(), position),
    {
        match &self.metadata {
            Some(metadata) => match metadata.duration {
                Some(duration) => Some(
                    Timeline {
                        start_ticks: 0,
                        end_ticks: duration.to_ticks(),
                        position_ticks: position.to_ticks(),
                    },
                ),
                None => None,
            },
            None => None,
        }
    }

    /// What `set_playback_info` sets: status, repeat mode, shuffle and
    /// rate as given, and the timeline where the cached track has a duration.
    pub fn set_playback_info_request(&self, info: &PlaybackInfo) -> (r: TransportUpdate)
        ensures
            r == transport_update(self.spec_metadata(), *info),
    {
        TransportUpdate {
            status: info.status,
            repeat_mode: info.repeat_mode,
            shuffle: info.shuffle,
            rate: info.playback_rate,
            timeline: self.timeline(info.position),
        }
    }

    /// What `set_playback_status` sets: the update of the cached playback
    /// information with the new status. Nothing is set where no playback
    /// information is cached.
    pub fn set_playback_status_request(&self, status: PlaybackStatus) -> (r: Option<
        TransportUpdate,
    >)
        ensures
            r == match self.spec_playback() {
                Some(cached) => Some(
                    transport_update(self.spec_metadata(), PlaybackInfo { status, ..cached }),
                ),
                None => None,
            },
    {
        match self.playback_info {
            Some(cached) => Some(
                self.set_playback_info_request(&PlaybackInfo { status, ..cached }),
            ),
            None => None,
        }
    }

    /// What `set_position` sets: the update of the cached playback
    /// information with the new position. Nothing is set where no
    /// playback information is cached.
    pub fn set_position_request(&self, position: Seconds) -> (r: Option<TransportUpdate>)
        ensures
            r == match self.spec_playback() {
                Some(cached) => Some(
                    transport_update(self.spec_metadata(), PlaybackInfo { position, ..cached }),
                ),
                None => None,
            },
    {
        match self.playback_info {
            Some(cached) => Some(
                self.set_playback_info_request(&PlaybackInfo { position, ..cached }),
            ),
            None => None,
        }
    }
}

impl<H> MediaController<H> for WindowsMediaController<H> {
    open spec fn model(&self) -> SessionModel<H> {
        SessionModel {
            target: TargetOs::Windows,
            app_id: Seq::empty(),
            app_name: Seq::empty(),
            bound: false,
            metadata: self.spec_metadata(),
            playback: self.spec_playback(),
            handler: self.spec_handler(),
        }
    }

    /// Succeeds exactly where the setup succeeded. The identity is not
    /// used by this backend.
    fn initialize_session(&mut self, app_id: String, app_name: String, native: NativeOutcome) -> (r:
        Result<(), ControllerError>)
        ensures
            r is Err <==> native is Err,
    {
        match native {
            Ok(_) => Ok(()),
            Err(message) => Err(ControllerError::NativeOperationFailed(message)),
        }
    }

    /// Caches the metadata where the display update succeeded. A failed
    /// update is the error of the call and leaves the cache as it was.
    fn set_metadata(&mut self, metadata: MediaMetadata, native: NativeOutcome) -> (r: Result<
        (),
        ControllerError,
    >)
        ensures
            r is Err <==> native is Err,
            r is Ok ==> final(self).spec_metadata() == Some(metadata@),
            r is Err ==> final(self).spec_metadata() == old(self).spec_metadata(),
    {
        match native {
            Ok(_) => {
                self.metadata = Some(metadata);
                Ok(())
            },
            Err(message) => Err(ControllerError::NativeOperationFailed(message)),
        }
    }

    /// Caches the playback information where the transport update
    /// succeeded. A failed update is the error of the call and leaves the
    /// cache as it was.
    fn set_playback_info(&mut self, info: PlaybackInfo, native: NativeOutcome) -> (r: Result<
        (),
        ControllerError,
    >)
        ensures
            r is Err <==> native is Err,
            r is Ok ==> final(self).spec_playback() == Some(info),
            r is Err ==> final(self).spec_playback() == old(self).spec_playback(),
    {
        match native {
            Ok(_) => {
                self.playback_info = Some(info);
                Ok(())
            },
            Err(message) => Err(ControllerError::NativeOperationFailed(message)),
        }
    }

    /// Sets the status through `set_playback_info`, on the cached playback
    /// information. Without cached playback information nothing is
    /// pushed, nothing changes and the call succeeds; else a failed push
    /// is the error of the call and leaves the cache as it was.
    fn set_playback_status(&mut self, status: PlaybackStatus, native: NativeOutcome) -> (r: Result<
        (),
        ControllerError,
    >)
        ensures
            r is Err <==> old(self).spec_playback() is Some && native is Err,
            r is Ok ==> final(self).spec_playback() == (match old(self).spec_playback() {
                Some(cached) => Some(PlaybackInfo { status, ..cached }),
                None => None,
            }),
            r is Err ==> final(self).spec_playback() == old(self).spec_playback(),
    {
        match self.playback_info {
            Some(cached) => self.set_playback_info(PlaybackInfo { status, ..cached }, native),
            None => Ok(()),
        }
    }

    /// Sets the position through `set_playback_info`, on the cached
    /// playback information. Without cached playback information nothing
    /// is pushed, nothing changes and the call succeeds; else a failed
    /// push is the error of the call and leaves the cache as it was.
    fn set_position(&mut self, position: Seconds, native: NativeOutcome) -> (r: Result<
        (),
        ControllerError,
    >)
        ensures
            r is Err <==> old(self).spec_playback() is Some && native is Err,
            r is Ok ==> final(self).spec_playback() == (match old(self).spec_playback() {
                Some(cached) => Some(PlaybackInfo { position, ..cached }),
                None => None,
            }),
            r is Err ==> final(self).spec_playback() == old(self).spec_playback(),
    {
        match self.playback_info {
            Some(cached) => self.set_playback_info(PlaybackInfo { position, ..cached }, native),
            None => Ok(()),
        }
    }

    /// Empties the cached metadata where the display was cleared. A failed
    /// clearing is the error of the call and leaves the cache as it was.
    fn clear_metadata(&mut self, native: NativeOutcome) -> (r: Result<(), ControllerError>)
        ensures
            r is Err <==> native is Err,
            r is Ok ==> final(self).spec_metadata() is None,
            r is Err ==> final(self).spec_metadata() == old(self).spec_metadata(),
    {
        match native {
            Ok(_) => {
                self.metadata = None;
                Ok(())
            },
            Err(message) => Err(ControllerError::NativeOperationFailed(message)),
        }
    }

    /// Keeps the handler in place of any handler registered before, and
    /// has the button callback wired anew as `setup_button_handlers`
    /// says: every earlier subscription goes, and this handler alone is
    /// subscribed.
    fn set_event_handler(&mut self, handler: H) -> (rewire: bool)
        ensures
            rewire,
            final(self).spec_handler() == Some(handler),
    {
        self.event_handler = Some(handler);
        true
    }

    /// The track of the system-wide session where the live query yielded
    /// one; the cached metadata otherwise.
    fn get_metadata(&self, live: Option<MediaMetadata>) -> (r: Result<
        Option<MediaMetadata>,
        ControllerError,
    >)
        ensures
            r matches Ok(found) && metadata_view(found) == (if live is Some {
                metadata_view(live)
            } else {
                self.spec_metadata()
            }),
    {
        if live.is_some() {
            Ok(live)
        } else {
            Ok(clone_metadata(&self.metadata))
        }
    }

    /// The playback information of the system-wide session where the live
    /// query yielded one; the cached information otherwise.
    fn get_playback_info(&self, live: Option<PlaybackInfo>) -> (r: Result<
        Option<PlaybackInfo>,
        ControllerError,
    >)
        ensures
            r matches Ok(found) && found == (if live is Some {
                live
            } else {
                self.spec_playback()
            }),
    {
        if live.is_some() {
            Ok(live)
        } else {
            Ok(self.playback_info)
        }
    }

    /// The status of the system-wide session where the live query yielded
    /// one; else the cached status, `Stopped` where nothing is cached.
    fn get_playback_status(&self, live: Option<PlaybackStatus>) -> (r: Result<
        PlaybackStatus,
        ControllerError,
    >)
        ensures
            r matches Ok(found) && found == (match live {
                Some(status) => status,
                None => match self.spec_playback() {
                    Some(cached) => cached.status,
                    None => PlaybackStatus::Stopped,
                },
            }),
    {
        match live {
            Some(status) => Ok(status),
            None => match self.playback_info {
                Some(info) => Ok(info.status),
                None => Ok(PlaybackStatus::Stopped),
            },
        }
    }

    /// The position of the system-wide session where the live query
    /// yielded one; else the cached position, zero where nothing is cached.
    fn get_position(&self, live: Option<Seconds>) -> (r: Result<Seconds, ControllerError>)
        ensures
            r matches Ok(found) && found == (match live {
                Some(position) => position,
                None => match self.spec_playback() {
                    Some(cached) => cached.position,
                    None => Seconds { nanos: 0 },
                },
            }),
    {
        match live {
            Some(position) => Ok(position),
            None => match self.playback_info {
                Some(info) => Ok(info.position),
                None => Ok(Seconds::zero()),
            },
        }
    }

    /// Whether the system has an active session of any application, or
    /// this process's own controls report themselves enabled.
    fn is_enabled(&self, live: NativeLiveness) -> (r: Result<bool, ControllerError>)
        ensures
            r matches Ok(found) && found == (live.session_active || live.controls_enabled == Some(
                true,
            )),
    {
        if live.session_active {
            Ok(true)
        } else {
            match live.controls_enabled {
                Some(enabled) => Ok(enabled),
                None => Ok(false),
            }
        }
    }
}

} // verus!
