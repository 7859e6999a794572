//! The controller contract that every backend implements, the rules the
//! backends share, and the choice of a backend.
//!
//! A backend never touches the native surface itself. Each mutating
//! operation comes in two parts: a request function, which says what the
//! host has to carry out on the native surface, and the operation proper,
//! which takes the outcome of that request and settles the cached state.
//! Each getter takes what a live query of the native surface yielded, with
//! `None` for a query that found nothing or failed.

use crate::models::{
    metadata_view, MediaMetadata, MetadataView, PlaybackInfo, PlaybackStatus, Seconds,
};
use crate::platform::linux::LinuxMediaController;
use crate::platform::macos::MacOSMediaController;
use crate::platform::windows::WindowsMediaController;
use vstd::prelude::*;

pub mod linux;
pub mod macos;
pub mod windows;

verus! {

/// The one kind of failure a controller reports: the native surface refused
/// or failed an operation, with the native description of what went wrong.
#[derive(Debug, PartialEq, Eq)]
pub enum ControllerError {
    NativeOperationFailed(String),
}

impl ControllerError {
    /// The native description the error carries.
    pub open spec fn spec_message(self) -> Seq<char> {
        match self {
            ControllerError::NativeOperationFailed(message) => message@,
        }
    }

    /// The native description the error carries.
    pub fn message(&self) -> (r: &String)
        ensures
            r@ == self.spec_message(),
    {
        match self {
            ControllerError::NativeOperationFailed(message) => message,
        }
    }
}

/// The outcome of carrying out a request on the native surface: done, or
/// failed with the native description of the failure.
pub type NativeOutcome = Result<(), String>;

/// The error a native outcome stands for, if it is a failure.
pub open spec fn failure_of(native: NativeOutcome) -> Option<Seq<char>> {
    match native {
        Ok(_) => None,
        Err(message) => Some(message@),
    }
}

/// The operating systems for which a backend exists.
#[derive(Debug, Clone, Copy, PartialEq, Eq, Structural)]
pub enum TargetOs {
    Linux,
    MacOS,
    Windows,
}

/// What a liveness probe of the native surface found: whether the system
/// has an active media session of any application, and whether this
/// process's own transport controls report themselves enabled (`None` where
/// there are no such controls or they did not answer).
#[derive(Debug, Clone, Copy, PartialEq, Eq, Structural)]
pub struct NativeLiveness {
    pub session_active: bool,
    pub controls_enabled: Option<bool>,
}

/// What a backend remembers of its session, as mathematics. The rules of
/// every operation are functions on this model; each backend shows that
/// its operations follow them.
pub struct SessionModel<H> {
    /// The operating system the backend serves.
    pub target: TargetOs,
    /// The application id the session was opened with. Only the D-Bus
    /// backend keeps it; it is empty elsewhere and before the first opening.
    pub app_id: Seq<char>,
    /// The display name the session was opened with, kept like the id.
    pub app_name: Seq<char>,
    /// Whether the backend holds a binding to the native surface that
    /// opening the session gave it. The session-manager backend holds
    /// none: it asks the native surface each time.
    pub bound: bool,
    /// The metadata last set and not cleared since.
    pub metadata: Option<MetadataView>,
    /// The playback information last set.
    pub playback: Option<PlaybackInfo>,
    /// The registered event handler.
    pub handler: Option<H>,
}

impl<H> SessionModel<H> {
    /// The session of a backend that was just created.
    pub open spec fn fresh(target: TargetOs) -> Self {
        SessionModel {
            target,
            app_id: Seq::empty(),
            app_name: Seq::empty(),
            bound: false,
            metadata: None,
            playback: None,
            handler: None,
        }
    }

    /// Whether opening the session fails on this native outcome. Enabling
    /// the remote commands of the now-playing backend cannot fail.
    pub open spec fn initialize_fails(self, native_ok: bool) -> bool {
        !native_ok && !(self.target is MacOS)
    }

    /// The session after `initialize_session`. The D-Bus backend takes the
    /// identity whatever the outcome and is bound once a registration
    /// succeeded; the now-playing backend is bound; the session-manager
    /// backend keeps nothing.
    pub open spec fn initialize_session(
        self,
        app_id: Seq<char>,
        app_name: Seq<char>,
        native_ok: bool,
    ) -> Self {
        match self.target {
            TargetOs::Linux => SessionModel {
                app_id,
                app_name,
                bound: self.bound || native_ok,
                ..self
            },
            TargetOs::MacOS => SessionModel { bound: true, ..self },
            TargetOs::Windows => self,
        }
    }

    /// Whether a push to the native surface that ends in this outcome is
    /// a failure of the setter. A failed push surfaces wherever there is a
    /// native surface to push to and the push can fail: always on the
    /// session-manager backend, once bound on the D-Bus backend, never on
    /// the now-playing backend, whose writes cannot fail.
    pub open spec fn push_fails(self, native_ok: bool) -> bool {
        match self.target {
            TargetOs::Linux => self.bound && !native_ok,
            TargetOs::MacOS => false,
            TargetOs::Windows => !native_ok,
        }
    }

    /// Whether a failed push leaves the cache as it was. The
    /// session-manager backend pushes first and caches what was pushed;
    /// the D-Bus backend caches first, so what it failed to announce is
    /// cached all the same.
    pub open spec fn push_reverts(self, native_ok: bool) -> bool {
        self.target is Windows && !native_ok
    }

    /// Whether `set_playback_status` and `set_position` fail on this
    /// native outcome. Both go through `set_playback_info` on the cached
    /// playback information; without cached playback information they
    /// push nothing and cannot fail.
    pub open spec fn narrowing_fails(self, native_ok: bool) -> bool {
        self.playback is Some && self.push_fails(native_ok)
    }

    /// The session after `set_metadata`: the metadata replaces what was
    /// cached, unless a failed push leaves the cache as it was.
    pub open spec fn set_metadata(self, metadata: MetadataView, native_ok: bool) -> Self {
        if self.push_reverts(native_ok) {
            self
        } else {
            SessionModel { metadata: Some(metadata), ..self }
        }
    }

    /// The session after `set_playback_info`.
    pub open spec fn set_playback_info(self, info: PlaybackInfo, native_ok: bool) -> Self {
        if self.push_reverts(native_ok) {
            self
        } else {
            SessionModel { playback: Some(info), ..self }
        }
    }

    /// The session after `set_playback_status`: that after
    /// `set_playback_info` with the cached playback information and the
    /// new status. Without cached playback information the call is a
    /// silent no-op.
    pub open spec fn set_playback_status(self, status: PlaybackStatus, native_ok: bool) -> Self {
        match self.playback {
            Some(info) => self.set_playback_info(PlaybackInfo { status, ..info }, native_ok),
            None => self,
        }
    }

    /// The session after `set_position`: that after `set_playback_info`
    /// with the cached playback information and the new position. Without
    /// cached playback information the call is a silent no-op.
    pub open spec fn set_position(self, position: Seconds, native_ok: bool) -> Self {
        match self.playback {
            Some(info) => self.set_playback_info(PlaybackInfo { position, ..info }, native_ok),
            None => self,
        }
    }

    /// The session after `clear_metadata`.
    pub open spec fn clear_metadata(self, native_ok: bool) -> Self {
        if self.push_reverts(native_ok) {
            self
        } else {
            SessionModel { metadata: None, ..self }
        }
    }

    /// The session after `set_event_handler`: the handler takes the place
    /// of any handler registered before.
    pub open spec fn set_event_handler(self, handler: H) -> Self {
        SessionModel { handler: Some(handler), ..self }
    }

    /// Whether registering a handler has the native callbacks wired anew.
    pub open spec fn rewires(self) -> bool {
        self.target is Windows
    }

    /// Whether `get_metadata` consults the live query: always on the
    /// session-manager backend, once bound on the D-Bus backend, never on
    /// the now-playing backend.
    pub open spec fn consults_live_metadata(self) -> bool {
        match self.target {
            TargetOs::Linux => self.bound,
            TargetOs::MacOS => false,
            TargetOs::Windows => true,
        }
    }

    /// Whether the playback getters consult the live query: only on the
    /// session-manager backend.
    pub open spec fn consults_live_playback(self) -> bool {
        self.target is Windows
    }

    /// What `get_metadata` answers: the two-stage lookup of every hybrid
    /// getter. What the live query yielded is the answer where the backend
    /// consults it and it yielded something; the cached value otherwise.
    pub open spec fn get_metadata(self, live: Option<MetadataView>) -> Option<MetadataView> {
        if self.consults_live_metadata() && live is Some {
            live
        } else {
            self.metadata
        }
    }

    /// What `get_playback_info` answers.
    pub open spec fn get_playback_info(self, live: Option<PlaybackInfo>) -> Option<PlaybackInfo> {
        if self.consults_live_playback() && live is Some {
            live
        } else {
            self.playback
        }
    }

    /// What `get_playback_status` answers: `Stopped` where neither the
    /// live query nor the cache knows a status.
    pub open spec fn get_playback_status(self, live: Option<PlaybackStatus>) -> PlaybackStatus {
        match live {
            Some(status) if self.consults_live_playback() => status,
            _ => match self.playback {
                Some(info) => info.status,
                None => PlaybackStatus::Stopped,
            },
        }
    }

    /// What `get_position` answers: the start of the timeline where
    /// neither the live query nor the cache knows a position.
    pub open spec fn get_position(self, live: Option<Seconds>) -> Seconds {
        match live {
            Some(position) if self.consults_live_playback() => position,
            _ => match self.playback {
                Some(info) => info.position,
                None => Seconds { nanos: 0 },
            },
        }
    }

    /// What `is_enabled` answers: whether the backend is bound, and on the
    /// session-manager backend whether the system has an active session or
    /// this process's own controls report themselves enabled.
    pub open spec fn is_enabled(self, live: NativeLiveness) -> bool {
        match self.target {
            TargetOs::Windows => live.session_active || live.controls_enabled == Some(true),
            _ => self.bound,
        }
    }
}

/// How an operation reports a native outcome: where the operation fails,
/// with the native description of the failure; else with success.
pub open spec fn reported(r: Result<(), ControllerError>, fails: bool, native: NativeOutcome)
    -> bool {
    if fails {
        r matches Err(e) && failure_of(native) == Some(e.spec_message())
    } else {
        r is Ok
    }
}

/// The capability interface of a backend. `H` is the type of the event
/// handler the embedding application registers.
pub trait MediaController<H> {
    /// The session this backend holds.
    spec fn model(&self) -> SessionModel<H>;

    /// Opens the session. `native` is the outcome of the setup that the
    /// backend's setup request asked for.
    fn initialize_session(&mut self, app_id: String, app_name: String, native: NativeOutcome) -> (r:
        Result<(), ControllerError>)
        ensures
            final(self).model() == old(self).model().initialize_session(
                app_id@,
                app_name@,
                native is Ok,
            ),
            reported(r, old(self).model().initialize_fails(native is Ok), native),
    ;

    /// Replaces the cached metadata. `native` is the outcome of pushing
    /// the metadata request to the native surface.
    fn set_metadata(&mut self, metadata: MediaMetadata, native: NativeOutcome) -> (r: Result<
        (),
        ControllerError,
    >)
        ensures
            final(self).model() == old(self).model().set_metadata(metadata@, native is Ok),
            reported(r, old(self).model().push_fails(native is Ok), native),
    ;

    /// Replaces the cached playback information. `native` is the outcome
    /// of pushing the playback request to the native surface.
    fn set_playback_info(&mut self, info: PlaybackInfo, native: NativeOutcome) -> (r: Result<
        (),
        ControllerError,
    >)
        ensures
            final(self).model() == old(self).model().set_playback_info(info, native is Ok),
            reported(r, old(self).model().push_fails(native is Ok), native),
    ;

    /// Sets the status through the full `set_playback_info` path, on the
    /// cached playback information. Without cached playback information
    /// the call is a silent no-op. `native` is the outcome of pushing the
    /// status request; where the request was to push nothing, it is unread.
    fn set_playback_status(&mut self, status: PlaybackStatus, native: NativeOutcome) -> (r: Result<
        (),
        ControllerError,
    >)
        ensures
            final(self).model() == old(self).model().set_playback_status(status, native is Ok),
            reported(r, old(self).model().narrowing_fails(native is Ok), native),
    ;

    /// Sets the position through the full `set_playback_info` path, on the
    /// cached playback information. Without cached playback information
    /// the call is a silent no-op. `native` is the outcome of pushing the
    /// position request; where the request was to push nothing, it is unread.
    fn set_position(&mut self, position: Seconds, native: NativeOutcome) -> (r: Result<
        (),
        ControllerError,
    >)
        ensures
            final(self).model() == old(self).model().set_position(position, native is Ok),
            reported(r, old(self).model().narrowing_fails(native is Ok), native),
    ;

    /// Empties the cached metadata.
    fn clear_metadata(&mut self, native: NativeOutcome) -> (r: Result<(), ControllerError>)
        ensures
            final(self).model() == old(self).model().clear_metadata(native is Ok),
            reported(r, old(self).model().push_fails(native is Ok), native),
    ;

    /// Registers `handler` in place of any handler registered before. The
    /// result says whether the host has to wire the native callbacks anew:
    /// where it does, the host drops every wiring it made for an earlier
    /// handler and wires this handler alone, as the backend's wiring
    /// request says, so that an event reaches the handler registered last
    /// and no other.
    fn set_event_handler(&mut self, handler: H) -> (rewire: bool)
        ensures
            final(self).model() == old(self).model().set_event_handler(handler),
            rewire == old(self).model().rewires(),
    ;

    /// The metadata of the session. `live` is what a live query of the
    /// native surface yielded, `None` where it found nothing or failed.
    fn get_metadata(&self, live: Option<MediaMetadata>) -> (r: Result<
        Option<MediaMetadata>,
        ControllerError,
    >)
        ensures
            r matches Ok(found) && metadata_view(found) == self.model().get_metadata(
                metadata_view(live),
            ),
    ;

    /// The playback information of the session.
    fn get_playback_info(&self, live: Option<PlaybackInfo>) -> (r: Result<
        Option<PlaybackInfo>,
        ControllerError,
    >)
        ensures
            r matches Ok(found) && found == self.model().get_playback_info(live),
    ;

    /// The playback status of the session.
    fn get_playback_status(&self, live: Option<PlaybackStatus>) -> (r: Result<
        PlaybackStatus,
        ControllerError,
    >)
        ensures
            r matches Ok(found) && found == self.model().get_playback_status(live),
    ;

    /// The playback position of the session.
    fn get_position(&self, live: Option<Seconds>) -> (r: Result<Seconds, ControllerError>)
        ensures
            r matches Ok(found) && found == self.model().get_position(live),
    ;

    /// Whether the backend believes it has a live binding to the native surface.
    fn is_enabled(&self, live: NativeLiveness) -> (r: Result<bool, ControllerError>)
        ensures
            r matches Ok(found) && found == self.model().is_enabled(live),
    ;
}

/// The one backend of a process, whichever operating system it serves.
pub enum Controller<H> {
    Linux(LinuxMediaController<H>),
    MacOS(MacOSMediaController<H>),
    Windows(WindowsMediaController<H>),
}

impl<H> MediaController<H> for Controller<H> {
    open spec fn model(&self) -> SessionModel<H> {
        match self {
            Controller::Linux(c) => c.model(),
            Controller::MacOS(c) => c.model(),
            Controller::Windows(c) => c.model(),
        }
    }

    fn initialize_session(&mut self, app_id: String, app_name: String, native: NativeOutcome) -> (r:
        Result<(), ControllerError>) {
        match self {
            Controller::Linux(c) => c.initialize_session(app_id, app_name, native),
            Controller::MacOS(c) => c.initialize_session(app_id, app_name, native),
            Controller::Windows(c) => c.initialize_session(app_id, app_name, native),
        }
    }

    fn set_metadata(&mut self, metadata: MediaMetadata, native: NativeOutcome) -> (r: Result<
        (),
        ControllerError,
    >) {
        match self {
            Controller::Linux(c) => c.set_metadata(metadata, native),
            Controller::MacOS(c) => c.set_metadata(metadata, native),
            Controller::Windows(c) => c.set_metadata(metadata, native),
        }
    }

    fn set_playback_info(&mut self, info: PlaybackInfo, native: NativeOutcome) -> (r: Result<
        (),
        ControllerError,
    >) {
        match self {
            Controller::Linux(c) => c.set_playback_info(info, native),
            Controller::MacOS(c) => c.set_playback_info(info, native),
            Controller::Windows(c) => c.set_playback_info(info, native),
        }
    }

    fn set_playback_status(&mut self, status: PlaybackStatus, native: NativeOutcome) -> (r: Result<
        (),
        ControllerError,
    >) {
        match self {
            Controller::Linux(c) => c.set_playback_status(status, native),
            Controller::MacOS(c) => c.set_playback_status(status, native),
            Controller::Windows(c) => c.set_playback_status(status, native),
        }
    }

    fn set_position(&mut self, position: Seconds, native: NativeOutcome) -> (r: Result<
        (),
        ControllerError,
    >) {
        match self {
            Controller::Linux(c) => c.set_position(position, native),
            Controller::MacOS(c) => c.set_position(position, native),
            Controller::Windows(c) => c.set_position(position, native),
        }
    }

    fn clear_metadata(&mut self, native: NativeOutcome) -> (r: Result<(), ControllerError>) {
        match self {
            Controller::Linux(c) => c.clear_metadata(native),
            Controller::MacOS(c) => c.clear_metadata(native),
            Controller::Windows(c) => c.clear_metadata(native),
        }
    }

    fn set_event_handler(&mut self, handler: H) -> (rewire: bool) {
        match self {
            Controller::Linux(c) => c.set_event_handler(handler),
            Controller::MacOS(c) => c.set_event_handler(handler),
            Controller::Windows(c) => c.set_event_handler(handler),
        }
    }

    fn get_metadata(&self, live: Option<MediaMetadata>) -> (r: Result<
        Option<MediaMetadata>,
        ControllerError,
    >) {
        match self {
            Controller::Linux(c) => c.get_metadata(live),
            Controller::MacOS(c) => c.get_metadata(live),
            Controller::Windows(c) => c.get_metadata(live),
        }
    }

    fn get_playback_info(&self, live: Option<PlaybackInfo>) -> (r: Result<
        Option<PlaybackInfo>,
        ControllerError,
    >) {
        match self {
            Controller::Linux(c) => c.get_playback_info(live),
            Controller::MacOS(c) => c.get_playback_info(live),
            Controller::Windows(c) => c.get_playback_info(live),
        }
    }

    fn get_playback_status(&self, live: Option<PlaybackStatus>) -> (r: Result<
        PlaybackStatus,
        ControllerError,
    >) {
        match self {
            Controller::Linux(c) => c.get_playback_status(live),
            Controller::MacOS(c) => c.get_playback_status(live),
            Controller::Windows(c) => c.get_playback_status(live),
        }
    }

    fn get_position(&self, live: Option<Seconds>) -> (r: Result<Seconds, ControllerError>) {
        match self {
            Controller::Linux(c) => c.get_position(live),
            Controller::MacOS(c) => c.get_position(live),
            Controller::Windows(c) => c.get_position(live),
        }
    }

    fn is_enabled(&self, live: NativeLiveness) -> (r: Result<bool, ControllerError>) {
        match self {
            Controller::Linux(c) => c.is_enabled(live),
            Controller::MacOS(c) => c.is_enabled(live),
            Controller::Windows(c) => c.is_enabled(live),
        }
    }
}

/// Creates the backend for `target`: exactly one, with a fresh session.
pub fn create_media_controller<H>(target: TargetOs) -> (r: Controller<H>)
    ensures
        r.model() == SessionModel::<H>::fresh(target),
        match target {
            TargetOs::Linux => r is Linux,
            TargetOs::MacOS => r is MacOS,
            TargetOs::Windows => r is Windows,
        },
{
    match target {
        TargetOs::Linux => Controller::Linux(LinuxMediaController::new()),
        TargetOs::MacOS => Controller::MacOS(MacOSMediaController::new()),
        TargetOs::Windows => Controller::Windows(WindowsMediaController::new()),
    }
}

} // verus!
