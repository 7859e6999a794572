//! The D-Bus backend: the session as an MPRIS player object on the session
//! bus. This module decides what is published there and what is read back
//! from other players; the host owns the bus connection.

use crate::dictionary::Dictionary;
use crate::models::{
    clone_metadata, metadata_view, text_view, MediaMetadata, MetadataView, PlaybackInfo,
    PlaybackStatus, Seconds,
};
use crate::platform::{
    reported, ControllerError, MediaController, NativeLiveness, NativeOutcome, SessionModel,
    TargetOs,
};
use vstd::prelude::*;

pub mod mpris;
pub mod scan;

pub use mpris::{
    artwork_plan, bus_name, create_metadata_dict, create_player_properties,
    create_playback_properties, create_root_properties, loop_name, method_arguments, method_name,
    status_name, ArtworkPlan, BusQuery, MetadataValue, MprisRegistration, PlayerMethod,
    PropertiesChanged, PropertyValue, PLAYER_INTERFACE, PLAYER_NAME_PREFIX, PLAYER_OBJECT_PATH,
    ROOT_INTERFACE,
};
pub use scan::{find_other_player, other_player, parse_player_metadata, PlayerScan, ScanStep};

use mpris::{
    artwork_file_name, metadata_change, metadata_map, needs_artwork_file, notifies,
    player_methods, player_properties, playback_properties, root_properties, texts_view,
    writable_properties, PropertyValueView,
};
use scan::next_other_player;

verus! {

/// Whether there is a cached track whose artwork reaches the bus through
/// a temporary file.
pub open spec fn cached_needs_file(metadata: Option<MetadataView>) -> bool {
    match metadata {
        Some(m) => needs_artwork_file(m),
        None => false,
    }
}

/// The backend for the D-Bus session bus.
pub struct LinuxMediaController<H> {
    connected: bool,
    event_handler: Option<H>,
    metadata: Option<MediaMetadata>,
    playback_info: Option<PlaybackInfo>,
    app_id: String,
    app_name: String,
}

impl<H> LinuxMediaController<H> {
    /// Whether the session is bound to the bus: the name is claimed and
    /// the object is published.
    pub closed spec fn is_bound(&self) -> bool {
        self.connected
    }

    /// The application id the session was last opened with.
    pub closed spec fn spec_app_id(&self) -> Seq<char> {
        self.app_id@
    }

    /// The display name the session was last opened with.
    pub closed spec fn spec_app_name(&self) -> Seq<char> {
        self.app_name@
    }

    /// The cached metadata.
    pub closed spec fn spec_metadata(&self) -> Option<MetadataView> {
        metadata_view(self.metadata)
    }

    /// The cached playback information.
    pub closed spec fn spec_playback(&self) -> Option<PlaybackInfo> {
        self.playback_info
    }

    /// The registered event handler.
    pub closed spec fn spec_handler(&self) -> Option<H> {
        self.event_handler
    }

    /// A backend that is not bound, with nothing cached and no identity.
    pub fn new() -> (r: Self)
        ensures
            !r.is_bound(),
            r.spec_app_id() == Seq::<char>::empty(),
            r.spec_app_name() == Seq::<char>::empty(),
            r.spec_metadata() is None,
            r.spec_playback() is None,
            r.spec_handler() is None,
    {
        LinuxMediaController {
            connected: false,
            event_handler: None,
            metadata: None,
            playback_info: None,
            app_id: String::new(),
            app_name: String::new(),
        }
    }

    /// The application id the session was last opened with.
    pub fn app_id(&self) -> (r: &String)
        ensures
            r@ == self.spec_app_id(),
    {
        &self.app_id
    }

    /// The cached metadata.
    pub fn metadata(&self) -> (r: &Option<MediaMetadata>)
        ensures
            metadata_view(*r) == self.spec_metadata(),
    {
        &self.metadata
    }

    /// The registered event handler.
    pub fn handler(&self) -> (r: Option<&H>)
        ensures
            match r {
                Some(h) => self.spec_handler() == Some(*h),
                None => self.spec_handler() is None,
            },
    {
        self.event_handler.as_ref()
    }

    /// The registration that opens the session under `app_id` and
    /// `app_name`: the bus name is the player namespace followed by the
    /// id, and the property values are those of the state cached now.
    /// `written` is the path of the temporary artwork file where the host
    /// wrote one for the cached metadata.
    pub fn setup_mpris(&self, app_id: &str, app_name: &str, written: &Option<String>) -> (r:
        MprisRegistration)
        ensures
            r.bus_name@ == PLAYER_NAME_PREFIX@ + app_id@,
            r.object_path@ == PLAYER_OBJECT_PATH@,
            r.root@ == root_properties(app_name@),
            r.player@ == player_properties(
                self.spec_playback(),
                metadata_map(self.spec_metadata(), text_view(*written)),
            ),
            texts_view(r.writable) == writable_properties(),
            r.methods@ == player_methods(),
    {
        let mut writable: Vec<String> = Vec::new();
        writable.push("LoopStatus".to_owned());
        writable.push("Rate".to_owned());
        writable.push("Shuffle".to_owned());
        writable.push("Volume".to_owned());
        let mut methods: Vec<PlayerMethod> = Vec::new();
        methods.push(PlayerMethod::Play);
        methods.push(PlayerMethod::Pause);
        methods.push(PlayerMethod::PlayPause);
        methods.push(PlayerMethod::Stop);
        methods.push(PlayerMethod::Next);
        methods.push(PlayerMethod::Previous);
        methods.push(PlayerMethod::Seek);
        methods.push(PlayerMethod::SetPosition);
        MprisRegistration {
            bus_name: bus_name(app_id),
            object_path: PLAYER_OBJECT_PATH.to_owned(),
            root: create_root_properties(app_name),
            player: create_player_properties(
                &self.playback_info,
                create_metadata_dict(&self.metadata, written),
            ),
            writable,
            methods,
        }
    }

    /// The temporary file to write before the session is opened under
    /// `app_id`: the name of the artwork file of that application, where
    /// the cached track has raw artwork bytes and no artwork URL. The
    /// host writes the bytes once it holds the bus name, and hands the
    /// path of the file to `setup_mpris`.
    pub fn setup_artwork(&self, app_id: &str) -> (r: Option<String>)
        ensures
            match r {
                Some(name) => cached_needs_file(self.spec_metadata()) && name@
                    == artwork_file_name(app_id@),
                None => !cached_needs_file(self.spec_metadata()),
            },
    {
        match &self.metadata {
            Some(metadata) => match artwork_plan(metadata, app_id) {
                ArtworkPlan::WriteFile(name) => Some(name),
                _ => None,
            },
            None => None,
        }
    }

    /// The temporary file to write before `metadata` is announced: the
    /// name of this application's artwork file, where the session is
    /// bound and the track has raw artwork bytes and no artwork URL. An
    /// unbound session announces nothing and writes nothing.
    pub fn set_metadata_artwork(&self, metadata: &MediaMetadata) -> (r: Option<String>)
        ensures
            match r {
                Some(name) => self.is_bound() && needs_artwork_file(metadata@) && name@
                    == artwork_file_name(self.spec_app_id()),
                None => !(self.is_bound() && needs_artwork_file(metadata@)),
            },
    {
        if self.connected {
            match artwork_plan(metadata, self.app_id.as_str()) {
                ArtworkPlan::WriteFile(name) => Some(name),
                _ => None,
            }
        } else {
            None
        }
    }

    /// What `set_metadata` pushes: once bound, the notification that the
    /// metadata property became the dictionary of `metadata`.
    pub fn set_metadata_request(&self, metadata: &MediaMetadata, written: &Option<String>) -> (r:
        Option<PropertiesChanged>)
        ensures
            notifies(
                r,
                self.is_bound(),
                metadata_change(metadata_map(Some(metadata@), text_view(*written))),
            ),
    {
        if self.connected {
            let mut changed: Dictionary<PropertyValue> = Dictionary::new();
            let shown = Some(metadata.clone());
            changed.set(
                "Metadata".to_owned(),
                PropertyValue::Metadata(create_metadata_dict(&shown, written)),
            );
            Some(PropertiesChanged::of(changed))
        } else {
            None
        }
    }

    /// What `set_playback_info` pushes: once bound, the notification of
    /// the playback properties of `info`.
    pub fn set_playback_info_request(&self, info: &PlaybackInfo) -> (r: Option<PropertiesChanged>)
        ensures
            notifies(r, self.is_bound(), playback_properties(*info)),
    {
        if self.connected {
            Some(PropertiesChanged::of(create_playback_properties(info)))
        } else {
            None
        }
    }

    /// What `set_playback_status` pushes: the playback notification of the
    /// cached information with the new status. Nothing is pushed where no
    /// playback information is cached.
    pub fn set_playback_status_request(&self, status: PlaybackStatus) -> (r: Option<
        PropertiesChanged,
    >)
        ensures
            match self.spec_playback() {
                Some(cached) => notifies(
                    r,
                    self.is_bound(),
                    playback_properties(PlaybackInfo { status, ..cached }),
                ),
                None => r is None,
            },
    {
        match self.playback_info {
            Some(cached) => {
                let info = PlaybackInfo { status, ..cached };
                self.set_playback_info_request(&info)
            },
            None => None,
        }
    }

    /// What `set_position` pushes: the playback notification of the cached
    /// information with the new position. Nothing is pushed where no
    /// playback information is cached.
    pub fn set_position_request(&self, position: Seconds) -> (r: Option<PropertiesChanged>)
        ensures
            match self.spec_playback() {
                Some(cached) => notifies(
                    r,
                    self.is_bound(),
                    playback_properties(PlaybackInfo { position, ..cached }),
                ),
                None => r is None,
            },
    {
        match self.playback_info {
            Some(cached) => {
                let info = PlaybackInfo { position, ..cached };
                self.set_playback_info_request(&info)
            },
            None => None,
        }
    }

    /// What `clear_metadata` pushes: once bound, the notification that the
    /// metadata property became the empty dictionary.
    pub fn clear_metadata_request(&self) -> (r: Option<PropertiesChanged>)
        ensures
            notifies(r, self.is_bound(), metadata_change(Map::empty())),
    {
        if self.connected {
            let mut changed: Dictionary<PropertyValue> = Dictionary::new();
            changed.set("Metadata".to_owned(), PropertyValue::Metadata(Dictionary::new()));
            Some(PropertiesChanged::of(changed))
        } else {
            None
        }
    }

    /// What a setter answers for its push: once bound, a failed push is
    /// the error of the call; before that nothing was pushed.
    fn pushed(&self, native: NativeOutcome) -> (r: Result<(), ControllerError>)
        ensures
            reported(r, self.is_bound() && native is Err, native),
    {
        match native {
            Err(message) if self.connected => Err(ControllerError::NativeOperationFailed(message)),
            _ => Ok(()),
        }
    }

    /// The first read of the live metadata query: once bound, the call
    /// that lists the names on the bus. An unbound session reads nothing.
    pub fn list_names_request(&self) -> (r: Option<BusQuery>)
        ensures
            match r {
                Some(query) => self.is_bound() && query.lists_names(),
                None => !self.is_bound(),
            },
    {
        if self.connected {
            Some(BusQuery::list_names())
        } else {
            None
        }
    }

    /// Starts the live metadata query over the bus names the host listed.
    /// A backend that is not bound scans nothing.
    pub fn scan_players(&self, names: Vec<String>) -> (r: (PlayerScan, ScanStep))
        ensures
            r.0.app_id() == self.spec_app_id(),
            r.0.step_at(r.1),
            self.is_bound() ==> r.0.names() == texts_view(names) && r.0.current()
                == next_other_player(texts_view(names), self.spec_app_id(), 0),
            !self.is_bound() ==> r.0.names().len() == 0 && r.1 is Exhausted,
    {
        if self.connected {
            PlayerScan::start(names, self.app_id.clone())
        } else {
            let none: Vec<String> = Vec::new();
            PlayerScan::start(none, self.app_id.clone())
        }
    }
}

impl<H> MediaController<H> for LinuxMediaController<H> {
    open spec fn model(&self) -> SessionModel<H> {
        SessionModel {
            target: TargetOs::Linux,
            app_id: self.spec_app_id(),
            app_name: self.spec_app_name(),
            bound: self.is_bound(),
            metadata: self.spec_metadata(),
            playback: self.spec_playback(),
            handler: self.spec_handler(),
        }
    }

    /// Takes the identity, whatever the outcome, and binds the session
    /// where the registration succeeded. A failed registration is the
    /// error of the call and leaves the binding as it was.
    fn initialize_session(&mut self, app_id: String, app_name: String, native: NativeOutcome) -> (r:
        Result<(), ControllerError>)
        ensures
            r is Err <==> native is Err,
            final(self).spec_app_id() == app_id@,
            final(self).spec_app_name() == app_name@,
            final(self).is_bound() == (old(self).is_bound() || native is Ok),
    {
        self.app_id = app_id;
        self.app_name = app_name;
        match native {
            Ok(_) => {
                self.connected = true;
                Ok(())
            },
            Err(message) => Err(ControllerError::NativeOperationFailed(message)),
        }
    }

    /// Caches the metadata, then answers for the push: on a bound session
    /// a failed notification is the error of the call. The metadata is
    /// cached before it is announced, so it is cached either way.
    fn set_metadata(&mut self, metadata: MediaMetadata, native: NativeOutcome) -> (r: Result<
        (),
        ControllerError,
    >)
        ensures
            r is Err <==> old(self).is_bound() && native is Err,
            final(self).spec_metadata() == Some(metadata@),
    {
        self.metadata = Some(metadata);
        self.pushed(native)
    }

    /// Caches the playback information, then answers for the push: on a
    /// bound session a failed notification is the error of the call.
    fn set_playback_info(&mut self, info: PlaybackInfo, native: NativeOutcome) -> (r: Result<
        (),
        ControllerError,
    >)
        ensures
            r is Err <==> old(self).is_bound() && native is Err,
            final(self).spec_playback() == Some(info),
    {
        self.playback_info = Some(info);
        self.pushed(native)
    }

    /// Sets the status through `set_playback_info`, on the cached playback
    /// information. Without cached playback information nothing is pushed,
    /// nothing changes and the call succeeds.
    fn set_playback_status(&mut self, status: PlaybackStatus, native: NativeOutcome) -> (r: Result<
        (),
        ControllerError,
    >)
        ensures
            r is Err <==> old(self).is_bound() && old(self).spec_playback() is Some
                && native is Err,
            final(self).spec_playback() == (match old(self).spec_playback() {
                Some(cached) => Some(PlaybackInfo { status, ..cached }),
                None => None,
            }),
    {
        if let Some(cached) = self.playback_info {
            let info = PlaybackInfo { status, ..cached };
            self.set_playback_info(info, native)
        } else {
            Ok(())
        }
    }

    /// Sets the position through `set_playback_info`, on the cached
    /// playback information. Without cached playback information nothing
    /// is pushed, nothing changes and the call succeeds.
    fn set_position(&mut self, position: Seconds, native: NativeOutcome) -> (r: Result<
        (),
        ControllerError,
    >)
        ensures
            r is Err <==> old(self).is_bound() && old(self).spec_playback() is Some
                && native is Err,
            final(self).spec_playback() == (match old(self).spec_playback() {
                Some(cached) => Some(PlaybackInfo { position, ..cached }),
                None => None,
            }),
    {
        if let Some(cached) = self.playback_info {
            let info = PlaybackInfo { position, ..cached };
            self.set_playback_info(info, native)
        } else {
            Ok(())
        }
    }

    /// Empties the cached metadata, then answers for the push: on a bound
    /// session a failed notification is the error of the call.
    fn clear_metadata(&mut self, native: NativeOutcome) -> (r: Result<(), ControllerError>)
        ensures
            r is Err <==> old(self).is_bound() && native is Err,
            final(self).spec_metadata() is None,
    {
        self.metadata = None;
        self.pushed(native)
    }

    /// Keeps the handler. No native callback is wired to it anew.
    fn set_event_handler(&mut self, handler: H) -> (rewire: bool)
        ensures
            !rewire,
            final(self).spec_handler() == Some(handler),
    {
        self.event_handler = Some(handler);
        false
    }

    /// The track of the first other player on the bus that has one to
    /// show, where the session is bound and the scan found one; the cached
    /// metadata otherwise.
    fn get_metadata(&self, live: Option<MediaMetadata>) -> (r: Result<
        Option<MediaMetadata>,
        ControllerError,
    >)
        ensures
            r matches Ok(found) && metadata_view(found) == (if self.is_bound() && live is Some {
                metadata_view(live)
            } else {
                self.spec_metadata()
            }),
    {
        if self.connected && live.is_some() {
            Ok(live)
        } else {
            Ok(clone_metadata(&self.metadata))
        }
    }

    /// The cached playback information. No live query is consulted.
    fn get_playback_info(&self, live: Option<PlaybackInfo>) -> (r: Result<
        Option<PlaybackInfo>,
        ControllerError,
    >)
        ensures
            r matches Ok(found) && found == self.spec_playback(),
    {
        Ok(self.playback_info)
    }

    /// The cached status, `Stopped` where nothing is cached.
    fn get_playback_status(&self, live: Option<PlaybackStatus>) -> (r: Result<
        PlaybackStatus,
        ControllerError,
    >)
        ensures
            r matches Ok(found) && found == (match self.spec_playback() {
                Some(cached) => cached.status,
                None => PlaybackStatus::Stopped,
            }),
    {
        match self.playback_info {
            Some(info) => Ok(info.status),
            None => Ok(PlaybackStatus::Stopped),
        }
    }

    /// The cached position, zero where nothing is cached.
    fn get_position(&self, live: Option<Seconds>) -> (r: Result<Seconds, ControllerError>)
        ensures
            r matches Ok(found) && found == (match self.spec_playback() {
                Some(cached) => cached.position,
                None => Seconds { nanos: 0 },
            }),
    {
        match self.playback_info {
            Some(info) => Ok(info.position),
            None => Ok(Seconds::zero()),
        }
    }

    /// Whether the session is bound to the bus.
    fn is_enabled(&self, live: NativeLiveness) -> (r: Result<bool, ControllerError>)
        ensures
            r matches Ok(found) && found == self.is_bound(),
    {
        Ok(self.connected)
    }
}

} // verus!
