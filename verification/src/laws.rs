//! What holds of the session rules for every state and every input.

use crate::models::{MetadataView, PlaybackInfo, PlaybackStatus, Rate, Seconds, NANOS_PER_TICK};
use crate::platform::linux::mpris::{
    metadata_map, resolved_art_url, KEY_ALBUM, KEY_ALBUM_ARTIST, KEY_ARTIST, KEY_ART_URL,
    KEY_LENGTH, KEY_TITLE, KEY_TRACK_ID,
};
use crate::platform::linux::scan::{is_other_player, next_other_player, player_metadata};
use crate::platform::macos::{
    shown_rate, track_info, with_playback, InfoMap, InfoValueView, KEY_ELAPSED,
    KEY_RATE,
};
use crate::platform::SessionModel;
use vstd::prelude::*;

verus! {

/// Metadata that was set is the metadata that is read back, field for
/// field and artwork bytes included, as long as no failed push left the
/// cache as it was and no live query answers in its place.
pub proof fn law_metadata_read_back<H>(
    session: SessionModel<H>,
    metadata: MetadataView,
    native_ok: bool,
)
    requires
        !session.push_reverts(native_ok),
    ensures
        session.set_metadata(metadata, native_ok).get_metadata(None) == Some(metadata),
{
}

/// The keys of a metadata dictionary differ from one another.
pub proof fn lemma_metadata_keys_differ()
    ensures
        KEY_TRACK_ID@ != KEY_TITLE@,
        KEY_TRACK_ID@ != KEY_ARTIST@,
        KEY_TRACK_ID@ != KEY_ALBUM@,
        KEY_TRACK_ID@ != KEY_ALBUM_ARTIST@,
        KEY_TRACK_ID@ != KEY_LENGTH@,
        KEY_TRACK_ID@ != KEY_ART_URL@,
        KEY_TITLE@ != KEY_ARTIST@,
        KEY_TITLE@ != KEY_ALBUM@,
        KEY_TITLE@ != KEY_ALBUM_ARTIST@,
        KEY_TITLE@ != KEY_LENGTH@,
        KEY_TITLE@ != KEY_ART_URL@,
        KEY_ARTIST@ != KEY_ALBUM@,
        KEY_ARTIST@ != KEY_ALBUM_ARTIST@,
        KEY_ARTIST@ != KEY_LENGTH@,
        KEY_ARTIST@ != KEY_ART_URL@,
        KEY_ALBUM@ != KEY_ALBUM_ARTIST@,
        KEY_ALBUM@ != KEY_LENGTH@,
        KEY_ALBUM@ != KEY_ART_URL@,
        KEY_ALBUM_ARTIST@ != KEY_LENGTH@,
        KEY_ALBUM_ARTIST@ != KEY_ART_URL@,
        KEY_LENGTH@ != KEY_ART_URL@,
{
    reveal_strlit("mpris:trackid");
    reveal_strlit("xesam:title");
    reveal_strlit("xesam:artist");
    reveal_strlit("xesam:album");
    reveal_strlit("xesam:albumArtist");
    reveal_strlit("mpris:length");
    reveal_strlit("mpris:artUrl");
    assert(KEY_TRACK_ID@.len() == 13);
    assert(KEY_TITLE@.len() == 11);
    assert(KEY_ARTIST@.len() == 12);
    assert(KEY_ALBUM@.len() == 11);
    assert(KEY_ALBUM_ARTIST@.len() == 17);
    assert(KEY_LENGTH@.len() == 12);
    assert(KEY_ART_URL@.len() == 12);
    assert(KEY_TITLE@[6] != KEY_ALBUM@[6]);
    assert(KEY_ARTIST@[0] != KEY_LENGTH@[0]);
    assert(KEY_ARTIST@[0] != KEY_ART_URL@[0]);
    assert(KEY_LENGTH@[6] != KEY_ART_URL@[6]);
}

/// What another player reads of a track over the bus: title, artist,
/// album, and the artwork as a URL. Raw artwork bytes arrive as the URL of
/// the temporary file, never as bytes; album artist and duration are not
/// read back.
pub proof fn law_bus_round_trip(metadata: MetadataView, written: Option<Seq<char>>)
    ensures
        player_metadata(metadata_map(Some(metadata), written)) == Some(
            MetadataView {
                title: metadata.title,
                artist: metadata.artist,
                album: metadata.album,
                album_artist: None,
                duration: None,
                artwork_url: resolved_art_url(metadata, written),
                artwork_data: None,
            },
        ),
{
    lemma_metadata_keys_differ();
}

/// The live metadata query asks the first other player at or after the
/// place where it stands: the name it picks belongs to another player,
/// never to this application, and no name it passed over does.
pub proof fn law_scan_picks_first_other_player(
    names: Seq<Seq<char>>,
    app_id: Seq<char>,
    from: int,
)
    requires
        0 <= from,
    ensures
        from <= next_other_player(names, app_id, from) || next_other_player(names, app_id, from)
            == names.len(),
        next_other_player(names, app_id, from) <= names.len(),
        next_other_player(names, app_id, from) < names.len() ==> is_other_player(
            names[next_other_player(names, app_id, from)],
            app_id,
        ),
        forall|j: int|
            from <= j < next_other_player(names, app_id, from) ==> !is_other_player(
                #[trigger] names[j],
                app_id,
            ),
    decreases names.len() - from,
{
    if from < names.len() && !is_other_player(names[from], app_id) {
        law_scan_picks_first_other_player(names, app_id, from + 1);
    }
}

/// While the status is not `Playing`, the rate written to the now-playing
/// dictionary is standstill, whatever rate the playback information
/// carries and whatever the dictionary held.
pub proof fn law_standstill_unless_playing(current: InfoMap, info: PlaybackInfo)
    requires
        info.status != PlaybackStatus::Playing,
    ensures
        shown_rate(info) == (Rate { permille: 0 }),
        with_playback(current, info)[KEY_RATE@] == InfoValueView::Speed(Rate { permille: 0 }),
{
}

/// Merging playback information into the dictionary of a track keeps
/// every entry of the track: elapsed time and rate are keys of their own.
pub proof fn law_playback_merge_keeps_track(metadata: MetadataView, info: PlaybackInfo)
    ensures
        !track_info(metadata).contains_key(KEY_ELAPSED@),
        !track_info(metadata).contains_key(KEY_RATE@),
        forall|key: Seq<char>| #[trigger]
            track_info(metadata).contains_key(key) ==> with_playback(
                track_info(metadata),
                info,
            ).contains_key(key) && with_playback(track_info(metadata), info)[key] == track_info(
                metadata,
            )[key],
{
    reveal_strlit("MPMediaItemPropertyTitle");
    reveal_strlit("MPMediaItemPropertyArtist");
    reveal_strlit("MPMediaItemPropertyAlbumTitle");
    reveal_strlit("MPMediaItemPropertyAlbumArtist");
    reveal_strlit("MPMediaItemPropertyPlaybackDuration");
    reveal_strlit("MPNowPlayingInfoPropertyElapsedPlaybackTime");
    reveal_strlit("MPNowPlayingInfoPropertyPlaybackRate");
    assert(KEY_ELAPSED@[2] != crate::platform::macos::KEY_DURATION@[2]);
    assert(KEY_RATE@[2] != crate::platform::macos::KEY_DURATION@[2]);
}

/// A position set before any playback information is no position at all:
/// the call succeeds whatever the native outcome, the session stays as it
/// was, and the position read back is the start of the timeline.
pub proof fn law_position_needs_playback_info<H>(
    session: SessionModel<H>,
    position: Seconds,
    native_ok: bool,
)
    requires
        session.playback is None,
    ensures
        !session.narrowing_fails(native_ok),
        session.set_position(position, native_ok) == session,
        session.set_position(position, native_ok).get_position(None) == (Seconds { nanos: 0 }),
{
}

/// A status set before any playback information is no status at all.
pub proof fn law_status_needs_playback_info<H>(
    session: SessionModel<H>,
    status: PlaybackStatus,
    native_ok: bool,
)
    requires
        session.playback is None,
    ensures
        !session.narrowing_fails(native_ok),
        session.set_playback_status(status, native_ok) == session,
        session.set_playback_status(status, native_ok).get_playback_status(None)
            == PlaybackStatus::Stopped,
{
}

/// Converting a time span to ticks and back moves it by less than one
/// tick, toward zero, and not at all where it is a whole number of ticks.
pub proof fn law_ticks_round_trip(span: Seconds)
    ensures
        span.nanos >= 0 ==> 0 <= span.nanos - Seconds::of_ticks(span.ticks()).nanos
            < NANOS_PER_TICK,
        span.nanos <= 0 ==> 0 <= Seconds::of_ticks(span.ticks()).nanos - span.nanos
            < NANOS_PER_TICK,
        span.nanos % 100 == 0 ==> Seconds::of_ticks(span.ticks()) == span,
{
}

/// Converting ticks to a time span and back gives the same ticks, for
/// every count that a time span can hold.
pub proof fn law_ticks_are_kept(ticks: int)
    requires
        i64::MIN <= ticks * NANOS_PER_TICK <= i64::MAX,
    ensures
        Seconds::of_ticks(ticks).ticks() == ticks,
{
}

/// After `clear_metadata` no metadata is read back, and clearing again
/// changes nothing more.
pub proof fn law_clear_metadata<H>(session: SessionModel<H>, native_ok: bool, again_ok: bool)
    requires
        !session.push_reverts(native_ok),
    ensures
        session.clear_metadata(native_ok).get_metadata(None) is None,
        session.clear_metadata(native_ok).clear_metadata(again_ok) == session.clear_metadata(
            native_ok,
        ),
        session.clear_metadata(native_ok).clear_metadata(again_ok).get_metadata(None) is None,
{
}

/// Playback information with its status replaced and every other field kept.
pub open spec fn with_status(info: PlaybackInfo, status: PlaybackStatus) -> PlaybackInfo {
    PlaybackInfo { status, ..info }
}

/// The session after a run of `set_playback_status` calls, each with the
/// outcome of its push, in the order in which they ran.
pub open spec fn after_statuses<H>(
    session: SessionModel<H>,
    calls: Seq<(PlaybackStatus, bool)>,
) -> SessionModel<H>
    decreases calls.len(),
{
    if calls.len() == 0 {
        session
    } else {
        after_statuses(session, calls.drop_last()).set_playback_status(
            calls.last().0,
            calls.last().1,
        )
    }
}

/// In whatever order a run of `set_playback_status` calls is carried out
/// one after the other, the status read back afterwards is the status of
/// one of the calls, whole: that of the last call whose push did not
/// leave the cache as it was. Nothing but the status differs from the
/// playback information cached before the run.
pub proof fn law_one_status_wins<H>(session: SessionModel<H>, calls: Seq<(PlaybackStatus, bool)>)
    requires
        session.playback is Some,
        exists|i: int| 0 <= i < calls.len() && !session.push_reverts(#[trigger] calls[i].1),
    ensures
        exists|i: int|
            0 <= i < calls.len() && !session.push_reverts(#[trigger] calls[i].1)
                && after_statuses(session, calls).playback == Some(
                PlaybackInfo { status: calls[i].0, ..session.playback->0 },
            ) && after_statuses(session, calls).get_playback_status(None) == calls[i].0
                && (forall|j: int|
                i < j < calls.len() ==> session.push_reverts(#[trigger] calls[j].1)),
    decreases calls.len(),
{
    lemma_statuses_keep_rest(session, calls);
    let last = calls.len() - 1;
    let rest = calls.drop_last();
    lemma_statuses_keep_rest(session, rest);
    if session.push_reverts(calls[last].1) {
        let w = choose|i: int| 0 <= i < calls.len() && !session.push_reverts(#[trigger] calls[i].1);
        assert(rest[w] == calls[w]);
        law_one_status_wins(session, rest);
        let i = choose|i: int|
            0 <= i < rest.len() && !session.push_reverts(#[trigger] rest[i].1) && after_statuses(
                session,
                rest,
            ).playback == Some(PlaybackInfo { status: rest[i].0, ..session.playback->0 })
                && after_statuses(session, rest).get_playback_status(None) == rest[i].0
                && (forall|j: int|
                i < j < rest.len() ==> session.push_reverts(#[trigger] rest[j].1));
        assert(calls[i] == rest[i]);
        assert forall|j: int| i < j < calls.len() implies session.push_reverts(
            #[trigger] calls[j].1,
        ) by {
            if j < last {
                assert(rest[j] == calls[j]);
            }
        }
    }
}

/// A run of `set_playback_status` calls changes nothing but the status of
/// the cached playback information: identity, binding, metadata and
/// handler stay, and so do position, shuffle, repeat mode and rate.
pub proof fn lemma_statuses_keep_rest<H>(
    session: SessionModel<H>,
    calls: Seq<(PlaybackStatus, bool)>,
)
    ensures
        after_statuses(session, calls) == (SessionModel {
            playback: after_statuses(session, calls).playback,
            ..session
        }),
        match session.playback {
            Some(before) => {
                let after = after_statuses(session, calls).playback;
                after is Some && after == Some(with_status(before, after->0.status))
            },
            None => after_statuses(session, calls).playback is None,
        },
    decreases calls.len(),
{
    if calls.len() > 0 {
        lemma_statuses_keep_rest(session, calls.drop_last());
    }
}

} // verus!
