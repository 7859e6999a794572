//! The facade the embedding application talks to: it owns the one backend
//! of the process and hands every failure on as its description. The host
//! keeps the facade behind its lock, so that one operation runs at a time.

use crate::models::{
    metadata_view, InitializeMediaSessionRequest, MediaMetadata, PlaybackInfo, PlaybackStatus,
    Seconds,
};
use crate::platform::{
    create_media_controller, failure_of, Controller, ControllerError, MediaController,
    NativeLiveness, NativeOutcome, SessionModel, TargetOs,
};
use vstd::prelude::*;

verus! {

/// How the facade reports a native outcome: where the operation fails,
/// with the native description of the failure; else with success.
pub open spec fn answered(r: Result<(), String>, fails: bool, native: NativeOutcome) -> bool {
    if fails {
        r matches Err(message) && failure_of(native) == Some(message@)
    } else {
        r is Ok
    }
}

/// A controller's result with its error turned into the description it carries.
pub fn described<T>(r: Result<T, ControllerError>) -> (out: Result<T, String>)
    ensures
        match r {
            Ok(value) => out == Ok::<T, String>(value),
            Err(e) => out matches Err(message) && message@ == e.spec_message(),
        },
{
    match r {
        Ok(value) => Ok(value),
        Err(ControllerError::NativeOperationFailed(message)) => Err(message),
    }
}

/// Access to the media session of the process.
pub struct Media<H> {
    controller: Controller<H>,
}

/// Creates the facade with the backend for `target`.
pub fn init<H>(target: TargetOs) -> (r: Media<H>)
    ensures
        r.model() == SessionModel::<H>::fresh(target),
{
    Media { controller: create_media_controller(target) }
}

impl<H> Media<H> {
    /// The session the backend holds.
    pub closed spec fn model(&self) -> SessionModel<H> {
        self.controller.model()
    }

    /// The backend, for the host to ask it for its requests.
    pub fn controller(&self) -> (r: &Controller<H>)
        ensures
            r.model() == self.model(),
    {
        &self.controller
    }

    pub fn initialize_session(
        &mut self,
        request: InitializeMediaSessionRequest,
        native: NativeOutcome,
    ) -> (r: Result<(), String>)
        ensures
            final(self).model() == old(self).model().initialize_session(
                request.app_id@,
                request.app_name@,
                native is Ok,
            ),
            answered(r, old(self).model().initialize_fails(native is Ok), native),
    {
        described(self.controller.initialize_session(request.app_id, request.app_name, native))
    }

    pub fn set_metadata(&mut self, metadata: MediaMetadata, native: NativeOutcome) -> (r: Result<
        (),
        String,
    >)
        ensures
            final(self).model() == old(self).model().set_metadata(metadata@, native is Ok),
            answered(r, old(self).model().push_fails(native is Ok), native),
    {
        described(self.controller.set_metadata(metadata, native))
    }

    pub fn set_playback_info(&mut self, info: PlaybackInfo, native: NativeOutcome) -> (r: Result<
        (),
        String,
    >)
        ensures
            final(self).model() == old(self).model().set_playback_info(info, native is Ok),
            answered(r, old(self).model().push_fails(native is Ok), native),
    {
        described(self.controller.set_playback_info(info, native))
    }

    pub fn set_playback_status(&mut self, status: PlaybackStatus, native: NativeOutcome) -> (r:
        Result<(), String>)
        ensures
            final(self).model() == old(self).model().set_playback_status(status, native is Ok),
            answered(r, old(self).model().narrowing_fails(native is Ok), native),
    {
        described(self.controller.set_playback_status(status, native))
    }

    pub fn set_position(&mut self, position: Seconds, native: NativeOutcome) -> (r: Result<
        (),
        String,
    >)
        ensures
            final(self).model() == old(self).model().set_position(position, native is Ok),
            answered(r, old(self).model().narrowing_fails(native is Ok), native),
    {
        described(self.controller.set_position(position, native))
    }

    pub fn clear_metadata(&mut self, native: NativeOutcome) -> (r: Result<(), String>)
        ensures
            final(self).model() == old(self).model().clear_metadata(native is Ok),
            answered(r, old(self).model().push_fails(native is Ok), native),
    {
        described(self.controller.clear_metadata(native))
    }

    pub fn set_event_handler(&mut self, handler: H) -> (rewire: bool)
        ensures
            final(self).model() == old(self).model().set_event_handler(handler),
            rewire == old(self).model().rewires(),
    {
        self.controller.set_event_handler(handler)
    }

    pub fn get_metadata(&self, live: Option<MediaMetadata>) -> (r: Result<
        Option<MediaMetadata>,
        String,
    >)
        ensures
            r matches Ok(found) && metadata_view(found) == self.model().get_metadata(
                metadata_view(live),
            ),
    {
        described(self.controller.get_metadata(live))
    }

    pub fn get_playback_info(&self, live: Option<PlaybackInfo>) -> (r: Result<
        Option<PlaybackInfo>,
        String,
    >)
        ensures
            r matches Ok(found) && found == self.model().get_playback_info(live),
    {
        described(self.controller.get_playback_info(live))
    }

    pub fn get_playback_status(&self, live: Option<PlaybackStatus>) -> (r: Result<
        PlaybackStatus,
        String,
    >)
        ensures
            r matches Ok(found) && found == self.model().get_playback_status(live),
    {
        described(self.controller.get_playback_status(live))
    }

    pub fn get_position(&self, live: Option<Seconds>) -> (r: Result<Seconds, String>)
        ensures
            r matches Ok(found) && found == self.model().get_position(live),
    {
        described(self.controller.get_position(live))
    }

    pub fn is_enabled(&self, live: NativeLiveness) -> (r: Result<bool, String>)
        ensures
            r matches Ok(found) && found == self.model().is_enabled(live),
    {
        described(self.controller.is_enabled(live))
    }
}

} // verus!
