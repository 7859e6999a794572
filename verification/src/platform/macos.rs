//! The now-playing backend: the session as the process-wide now-playing
//! info dictionary and the remote commands of the command center. This
//! module decides what the dictionary holds after each operation; the host
//! reads and writes the dictionary itself.

use crate::dictionary::Dictionary;
use crate::models::{
    clone_metadata, metadata_view, MediaMetadata, MetadataView, PlaybackInfo, PlaybackStatus, Rate,
    Seconds,
};
use crate::platform::{
    ControllerError, MediaController, NativeLiveness, NativeOutcome, SessionModel, TargetOs,
};
use vstd::prelude::*;

verus! {

pub const KEY_TITLE: &'static str = "MPMediaItemPropertyTitle";

pub const KEY_ARTIST: &'static str = "MPMediaItemPropertyArtist";

pub const KEY_ALBUM_TITLE: &'static str = "MPMediaItemPropertyAlbumTitle";

pub const KEY_ALBUM_ARTIST: &'static str = "MPMediaItemPropertyAlbumArtist";

pub const KEY_DURATION: &'static str = "MPMediaItemPropertyPlaybackDuration";

pub const KEY_ELAPSED: &'static str = "MPNowPlayingInfoPropertyElapsedPlaybackTime";

pub const KEY_RATE: &'static str = "MPNowPlayingInfoPropertyPlaybackRate";

/// A value of the now-playing info dictionary.
#[derive(Debug, Clone, PartialEq, Eq)]
pub enum InfoValue {
    Text(String),
    Time(Seconds),
    Speed(Rate),
}

pub enum InfoValueView {
    Text(Seq<char>),
    Time(Seconds),
    Speed(Rate),
}

impl View for InfoValue {
    type V = InfoValueView;

    open spec fn view(&self) -> InfoValueView {
        match self {
            InfoValue::Text(t) => InfoValueView::Text(t@),
            InfoValue::Time(t) => InfoValueView::Time(*t),
            InfoValue::Speed(r) => InfoValueView::Speed(*r),
        }
    }
}

/// A now-playing info dictionary as mathematics.
pub type InfoMap = Map<Seq<char>, InfoValueView>;

/// A remote command of the command center.
#[derive(Debug, Clone, Copy, PartialEq, Eq, Structural)]
pub enum RemoteCommand {
    Play,
    Pause,
    Stop,
    NextTrack,
    PreviousTrack,
    TogglePlayPause,
    ChangePlaybackPosition,
}

/// The commands a session enables, whatever its content supports.
pub open spec fn enabled_commands() -> Seq<RemoteCommand> {
    seq![
        RemoteCommand::Play,
        RemoteCommand::Pause,
        RemoteCommand::Stop,
        RemoteCommand::NextTrack,
        RemoteCommand::PreviousTrack,
        RemoteCommand::TogglePlayPause,
        RemoteCommand::ChangePlaybackPosition,
    ]
}

/// What the host does to the now-playing info dictionary.
pub enum NowPlayingWrite {
    /// Nothing: there is no dictionary to update.
    Leave,
    /// Remove the dictionary.
    Clear,
    /// Put this dictionary in place of the one there.
    Replace(Dictionary<InfoValue>),
}

pub enum NowPlayingWriteView {
    Leave,
    Clear,
    Replace(InfoMap),
}

impl View for NowPlayingWrite {
    type V = NowPlayingWriteView;

    open spec fn view(&self) -> NowPlayingWriteView {
        match self {
            NowPlayingWrite::Leave => NowPlayingWriteView::Leave,
            NowPlayingWrite::Clear => NowPlayingWriteView::Clear,
            NowPlayingWrite::Replace(d) => NowPlayingWriteView::Replace(d@),
        }
    }
}

/// `map` with `key` set to `value` where there is a value.
pub open spec fn with_info(map: InfoMap, key: Seq<char>, value: Option<InfoValueView>) -> InfoMap {
    match value {
        Some(v) => map.insert(key, v),
        None => map,
    }
}

/// The dictionary of a track: its title, and artist, album, album artist
/// and duration where the track has them. Artwork does not reach it.
pub open spec fn track_info(metadata: MetadataView) -> InfoMap {
    let base = Map::<Seq<char>, InfoValueView>::empty().insert(
        KEY_TITLE@,
        InfoValueView::Text(metadata.title),
    );
    let a = with_info(
        base,
        KEY_ARTIST@,
        match metadata.artist {
            Some(t) => Some(InfoValueView::Text(t)),
            None => None,
        },
    );
    let b = with_info(
        a,
        KEY_ALBUM_TITLE@,
        match metadata.album {
            Some(t) => Some(InfoValueView::Text(t)),
            None => None,
        },
    );
    let c = with_info(
        b,
        KEY_ALBUM_ARTIST@,
        match metadata.album_artist {
            Some(t) => Some(InfoValueView::Text(t)),
            None => None,
        },
    );
    with_info(
        c,
        KEY_DURATION@,
        match metadata.duration {
            Some(t) => Some(InfoValueView::Time(t)),
            None => None,
        },
    )
}

/// The rate shown for playback information: the given rate while playing,
/// and standstill in every other status, whatever rate was given.
pub open spec fn shown_rate(info: PlaybackInfo) -> Rate {
    if info.status == PlaybackStatus::Playing {
        info.playback_rate
    } else {
        Rate { permille: 0 }
    }
}

/// A dictionary with elapsed time and rate of `info` merged in. Every
/// other entry stays.
pub open spec fn with_playback(current: InfoMap, info: PlaybackInfo) -> InfoMap {
    current.insert(KEY_ELAPSED@, InfoValueView::Time(info.position)).insert(
        KEY_RATE@,
        InfoValueView::Speed(shown_rate(info)),
    )
}

/// What a merging setter writes: nothing where there is no dictionary,
/// and the merged dictionary where there is one.
pub open spec fn merge_write(current: Option<InfoMap>, merged: spec_fn(InfoMap) -> InfoMap)
    -> NowPlayingWriteView {
    match current {
        Some(map) => NowPlayingWriteView::Replace(merged(map)),
        None => NowPlayingWriteView::Leave,
    }
}

/// The view of the dictionary the host read, if it read one.
pub open spec fn info_view(current: Option<Dictionary<InfoValue>>) -> Option<InfoMap> {
    match current {
        Some(d) => Some(d@),
        None => None,
    }
}

/// The rate shown for playback information.
pub fn rate_to_show(info: &PlaybackInfo) -> (r: Rate)
    ensures
        r == shown_rate(*info),
{
    match info.status {
        PlaybackStatus::Playing => info.playback_rate,
        _ => Rate::zero(),
    }
}

/// The backend for the now-playing info center.
pub struct MacOSMediaController<H> {
    initialized: bool,
    event_handler: Option<H>,
    metadata: Option<MediaMetadata>,
    playback_info: Option<PlaybackInfo>,
}

impl<H> MacOSMediaController<H> {
    /// Whether the session was opened.
    pub closed spec fn is_initialized(&self) -> bool {
        self.initialized
    }

    /// The cached metadata.
    pub closed spec fn spec_metadata(&self) -> Option<MetadataView> {
        metadata_view(self.metadata)
    }

    /// The cached playback information.
    pub closed spec fn spec_playback(&self) -> Option<PlaybackInfo> {
        self.playback_info
    }

    /// The registered event handler.
    pub closed spec fn spec_handler(&self) -> Option<H> {
        self.event_handler
    }

    /// A backend that was not opened, with nothing cached and no handler.
    pub fn new() -> (r: Self)
        ensures
            !r.is_initialized(),
            r.spec_metadata() is None,
            r.spec_playback() is None,
            r.spec_handler() is None,
    {
        MacOSMediaController {
            initialized: false,
            event_handler: None,
            metadata: None,
            playback_info: None,
        }
    }

    /// The registered event handler.
    pub fn handler(&self) -> (r: Option<&H>)
        ensures
            match r {
                Some(h) => self.spec_handler() == Some(*h),
                None => self.spec_handler() is None,
            },
    {
        self.event_handler.as_ref()
    }

    /// What `initialize_session` enables on the command center: all seven
    /// remote commands, whether or not the content supports them.
    pub fn setup_command_handlers() -> (r: Vec<RemoteCommand>)
        ensures
            r@ == enabled_commands(),
    {
        let mut commands: Vec<RemoteCommand> = Vec::new();
        commands.push(RemoteCommand::Play);
        commands.push(RemoteCommand::Pause);
        commands.push(RemoteCommand::Stop);
        commands.push(RemoteCommand::NextTrack);
        commands.push(RemoteCommand::PreviousTrack);
        commands.push(RemoteCommand::TogglePlayPause);
        commands.push(RemoteCommand::ChangePlaybackPosition);
        commands
    }

    /// What `set_metadata` writes: the dictionary of the track, in place
    /// of the whole dictionary there. Nothing of the old dictionary stays.
    pub fn set_metadata_request(metadata: &MediaMetadata) -> (r: NowPlayingWrite)
        ensures
            r@ == NowPlayingWriteView::Replace(track_info(metadata@)),
    {
        let mut info: Dictionary<InfoValue> = Dictionary::new();
        info.set(KEY_TITLE.to_owned(), InfoValue::Text(metadata.title.clone()));
        if let Some(artist) = &metadata.artist {
            info.set(KEY_ARTIST.to_owned(), InfoValue::Text(artist.clone()));
        }
        if let Some(album) = &metadata.album {
            info.set(KEY_ALBUM_TITLE.to_owned(), InfoValue::Text(album.clone()));
        }
        if let Some(album_artist) = &metadata.album_artist {
            info.set(KEY_ALBUM_ARTIST.to_owned(), InfoValue::Text(album_artist.clone()));
        }
        if let Some(duration) = &metadata.duration {
            info.set(KEY_DURATION.to_owned(), InfoValue::Time(*duration));
        }
        NowPlayingWrite::Replace(info)
    }

    /// What `set_playback_info` writes: the dictionary the host read, with
    /// elapsed time and shown rate merged in. Without a dictionary nothing
    /// is written.
    pub fn set_playback_info_request(info: &PlaybackInfo, current: Option<Dictionary<InfoValue>>)
        -> (r: NowPlayingWrite)
        ensures
            r@ == merge_write(info_view(current), |map: InfoMap| with_playback(map, *info)),
    {
        match current {
            Some(mut dict) => {
                dict.set(KEY_ELAPSED.to_owned(), InfoValue::Time(info.position));
                dict.set(KEY_RATE.to_owned(), InfoValue::Speed(rate_to_show(info)));
                NowPlayingWrite::Replace(dict)
            },
            None => NowPlayingWrite::Leave,
        }
    }

    /// What `set_playback_status` writes: what `set_playback_info` writes
    /// for the cached playback information with the new status, so the
    /// cached rate is shown when the status becomes `Playing`. Without
    /// cached playback information nothing is written.
    pub fn set_playback_status_request(
        &self,
        status: PlaybackStatus,
        current: Option<Dictionary<InfoValue>>,
    ) -> (r: NowPlayingWrite)
        ensures
            r@ == match self.spec_playback() {
                Some(cached) => merge_write(
                    info_view(current),
                    |map: InfoMap| with_playback(map, PlaybackInfo { status, ..cached }),
                ),
                None => NowPlayingWriteView::Leave,
            },
    {
        match self.playback_info {
            Some(cached) => Self::set_playback_info_request(
                &PlaybackInfo { status, ..cached },
                current,
            ),
            None => NowPlayingWrite::Leave,
        }
    }

    /// What `set_position` writes: what `set_playback_info` writes for the
    /// cached playback information with the new position. Without cached
    /// playback information nothing is written.
    pub fn set_position_request(
        &self,
        position: Seconds,
        current: Option<Dictionary<InfoValue>>,
    ) -> (r: NowPlayingWrite)
        ensures
            r@ == match self.spec_playback() {
                Some(cached) => merge_write(
                    info_view(current),
                    |map: InfoMap| with_playback(map, PlaybackInfo { position, ..cached }),
                ),
                None => NowPlayingWriteView::Leave,
            },
    {
        match self.playback_info {
            Some(cached) => Self::set_playback_info_request(
                &PlaybackInfo { position, ..cached },
                current,
            ),
            None => NowPlayingWrite::Leave,
        }
    }

    /// What `clear_metadata` writes: the dictionary is removed.
    pub fn clear_metadata_request() -> (r: NowPlayingWrite)
        ensures
            r@ == NowPlayingWriteView::Clear,
    {
        NowPlayingWrite::Clear
    }
}

impl<H> MediaController<H> for MacOSMediaController<H> {
    open spec fn model(&self) -> SessionModel<H> {
        SessionModel {
            target: TargetOs::MacOS,
            app_id: Seq::empty(),
            app_name: Seq::empty(),
            bound: self.is_initialized(),
            metadata: self.spec_metadata(),
            playback: self.spec_playback(),
            handler: self.spec_handler(),
        }
    }

    /// Opens the session. Enabling the commands cannot fail, so the call
    /// succeeds whatever the outcome says. The identity is not used by
    /// this backend.
    fn initialize_session(&mut self, app_id: String, app_name: String, native: NativeOutcome) -> (r:
        Result<(), ControllerError>)
        ensures
            r is Ok,
            final(self).is_initialized(),
    {
        self.initialized = true;
        Ok(())
    }

    /// Caches the metadata. Writing the dictionary cannot fail.
    fn set_metadata(&mut self, metadata: MediaMetadata, native: NativeOutcome) -> (r: Result<
        (),
        ControllerError,
    >)
        ensures
            r is Ok,
            final(self).spec_metadata() == Some(metadata@),
    {
        self.metadata = Some(metadata);
        Ok(())
    }

    /// Caches the playback information.
    fn set_playback_info(&mut self, info: PlaybackInfo, native: NativeOutcome) -> (r: Result<
        (),
        ControllerError,
    >)
        ensures
            r is Ok,
            final(self).spec_playback() == Some(info),
    {
        self.playback_info = Some(info);
        Ok(())
    }

    /// Sets the status through `set_playback_info`, on the cached playback
    /// information. Without cached playback information nothing changes.
    fn set_playback_status(&mut self, status: PlaybackStatus, native: NativeOutcome) -> (r: Result<
        (),
        ControllerError,
    >)
        ensures
            r is Ok,
            final(self).spec_playback() == (match old(self).spec_playback() {
                Some(cached) => Some(PlaybackInfo { status, ..cached }),
                None => None,
            }),
    {
        if let Some(cached) = self.playback_info {
            self.playback_info = Some(PlaybackInfo { status, ..cached });
        }
        Ok(())
    }

    /// Sets the position through `set_playback_info`, on the cached
    /// playback information. Without cached playback information nothing
    /// changes.
    fn set_position(&mut self, position: Seconds, native: NativeOutcome) -> (r: Result<
        (),
        ControllerError,
    >)
        ensures
            r is Ok,
            final(self).spec_playback() == (match old(self).spec_playback() {
                Some(cached) => Some(PlaybackInfo { position, ..cached }),
                None => None,
            }),
    {
        if let Some(cached) = self.playback_info {
            self.playback_info = Some(PlaybackInfo { position, ..cached });
        }
        Ok(())
    }

    /// Empties the cached metadata.
    fn clear_metadata(&mut self, native: NativeOutcome) -> (r: Result<(), ControllerError>)
        ensures
            r is Ok,
            final(self).spec_metadata() is None,
    {
        self.metadata = None;
        Ok(())
    }

    /// Keeps the handler. No native callback is wired to it anew.
    fn set_event_handler(&mut self, handler: H) -> (rewire: bool)
        ensures
            !rewire,
            final(self).spec_handler() == Some(handler),
    {
        self.event_handler = Some(handler);
        false
    }

    /// The cached metadata. No live query is consulted.
    fn get_metadata(&self, live: Option<MediaMetadata>) -> (r: Result<
        Option<MediaMetadata>,
        ControllerError,
    >)
        ensures
            r matches Ok(found) && metadata_view(found) == self.spec_metadata(),
    {
        Ok(clone_metadata(&self.metadata))
    }

    /// The cached playback information. No live query is consulted.
    fn get_playback_info(&self, live: Option<PlaybackInfo>) -> (r: Result<
        Option<PlaybackInfo>,
        ControllerError,
    >)
        ensures
            r matches Ok(found) && found == self.spec_playback(),
    {
        Ok(self.playback_info)
    }

    /// The cached status, `Stopped` where nothing is cached.
    fn get_playback_status(&self, live: Option<PlaybackStatus>) -> (r: Result<
        PlaybackStatus,
        ControllerError,
    >)
        ensures
            r matches Ok(found) && found == (match self.spec_playback() {
                Some(cached) => cached.status,
                None => PlaybackStatus::Stopped,
            }),
    {
        match self.playback_info {
            Some(info) => Ok(info.status),
            None => Ok(PlaybackStatus::Stopped),
        }
    }

    /// The cached position, zero where nothing is cached.
    fn get_position(&self, live: Option<Seconds>) -> (r: Result<Seconds, ControllerError>)
        ensures
            r matches Ok(found) && found == (match self.spec_playback() {
                Some(cached) => cached.position,
                None => Seconds { nanos: 0 },
            }),
    {
        match self.playback_info {
            Some(info) => Ok(info.position),
            None => Ok(Seconds::zero()),
        }
    }

    /// Whether the session was opened.
    fn is_enabled(&self, live: NativeLiveness) -> (r: Result<bool, ControllerError>)
        ensures
            r matches Ok(found) && found == self.is_initialized(),
    {
        Ok(self.initialized)
    }
}

} // verus!
