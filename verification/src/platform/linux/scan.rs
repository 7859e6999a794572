//! What is read from other players on the bus: which bus names are other
//! players, what a player's metadata dictionary says of its track, and the
//! walk over the names until one of them has a track to show.

use crate::dictionary::Dictionary;
use crate::models::{clone_text, metadata_view, text_view, MediaMetadata, MetadataView};
use crate::platform::linux::mpris::{
    bus_name, texts_view, BusQuery, MetadataMap, MetadataValue, MetadataValueView, KEY_ALBUM,
    KEY_ARTIST, KEY_ART_URL, KEY_TITLE, PLAYER_NAME_PREFIX, UNKNOWN_TITLE,
};
use crate::text::{has_prefix, starts_with};
use vstd::prelude::*;

verus! {

/// The text entry of `map` at `key`, if the key is present with a text value.
pub open spec fn text_entry(map: MetadataMap, key: Seq<char>) -> Option<Seq<char>> {
    if map.contains_key(key) {
        match map[key] {
            MetadataValueView::Text(t) => Some(t),
            _ => None,
        }
    } else {
        None
    }
}

/// The first item of the list entry of `map` at `key`, if the key is
/// present with a list value whose first item is a text. Later items are
/// not read.
pub open spec fn first_text_entry(map: MetadataMap, key: Seq<char>) -> Option<Seq<char>> {
    if map.contains_key(key) {
        match map[key] {
            MetadataValueView::List(l) => if l.len() > 0 {
                l[0]
            } else {
                None
            },
            _ => None,
        }
    } else {
        None
    }
}

/// What another player's metadata dictionary says of its track: title,
/// first artist, album and artwork URL. A dictionary that names neither a
/// title nor an artist describes no track; one that names an artist only
/// gets the title `Unknown`.
pub open spec fn player_metadata(map: MetadataMap) -> Option<MetadataView> {
    let title = text_entry(map, KEY_TITLE@);
    let artist = first_text_entry(map, KEY_ARTIST@);
    if title is Some || artist is Some {
        Some(
            MetadataView {
                title: match title {
                    Some(t) => t,
                    None => UNKNOWN_TITLE@,
                },
                artist,
                album: text_entry(map, KEY_ALBUM@),
                album_artist: None,
                duration: None,
                artwork_url: text_entry(map, KEY_ART_URL@),
                artwork_data: None,
            },
        )
    } else {
        None
    }
}

/// The text entry of `dict` at `key`.
pub fn read_text(dict: &Dictionary<MetadataValue>, key: &str) -> (r: Option<String>)
    ensures
        text_view(r) == text_entry(dict@, key@),
{
    match dict.get(key) {
        Some(MetadataValue::Text(t)) => Some(t.clone()),
        _ => None,
    }
}

/// The first text of the list entry of `dict` at `key`.
pub fn read_first_text(dict: &Dictionary<MetadataValue>, key: &str) -> (r: Option<String>)
    ensures
        text_view(r) == first_text_entry(dict@, key@),
{
    match dict.get(key) {
        Some(MetadataValue::List(l)) => {
            if l.len() > 0 {
                clone_text(&l[0])
            } else {
                None
            }
        },
        _ => None,
    }
}

/// Reads a track description out of another player's metadata dictionary.
pub fn parse_player_metadata(dict: &Dictionary<MetadataValue>) -> (r: Option<MediaMetadata>)
    ensures
        metadata_view(r) == player_metadata(dict@),
{
    let title = read_text(dict, KEY_TITLE);
    let artist = read_first_text(dict, KEY_ARTIST);
    if title.is_some() || artist.is_some() {
        let album = read_text(dict, KEY_ALBUM);
        let artwork_url = read_text(dict, KEY_ART_URL);
        Some(
            MediaMetadata {
                title: match title {
                    Some(t) => t,
                    None => UNKNOWN_TITLE.to_owned(),
                },
                artist,
                album,
                album_artist: None,
                duration: None,
                artwork_url,
                artwork_data: None,
            },
        )
    } else {
        None
    }
}

/// A bus name belongs to another player: it is in the player namespace
/// and is not this application's own bus name. The names of other
/// applications count, whether or not they contain this application's id.
pub open spec fn is_other_player(name: Seq<char>, app_id: Seq<char>) -> bool {
    has_prefix(name, PLAYER_NAME_PREFIX@) && name != PLAYER_NAME_PREFIX@ + app_id
}

/// The index of the first other player at or after `from`, or the length of
/// `names` where there is none.
pub open spec fn next_other_player(names: Seq<Seq<char>>, app_id: Seq<char>, from: int) -> int
    decreases names.len() - from,
{
    if from < 0 || from >= names.len() {
        names.len() as int
    } else if is_other_player(names[from], app_id) {
        from
    } else {
        next_other_player(names, app_id, from + 1)
    }
}

/// Whether a bus name belongs to another player.
pub fn other_player(name: &str, app_id: &str) -> (r: bool)
    ensures
        r == is_other_player(name@, app_id@),
{
    let own = bus_name(app_id);
    starts_with(name, PLAYER_NAME_PREFIX) && !(name.to_owned() == own)
}

/// The index of the first other player at or after `from`.
pub fn find_other_player(names: &Vec<String>, app_id: &str, from: usize) -> (r: usize)
    ensures
        r == next_other_player(texts_view(*names), app_id@, from as int),
        r <= names.len(),
{
    let mut at: usize = from;
    while at < names.len()
        invariant
            from <= at,
            next_other_player(texts_view(*names), app_id@, at as int) == next_other_player(
                texts_view(*names),
                app_id@,
                from as int,
            ),
        decreases names.len() - at,
    {
        if other_player(names[at].as_str(), app_id) {
            return at;
        }
        at += 1;
    }
    names.len()
}

/// The walk over the bus names in search of another player that has a
/// track to show. The host lists the names, asks each player the scan
/// names for its metadata, and hands the reply back.
pub struct PlayerScan {
    names: Vec<String>,
    app_id: String,
    current: usize,
}

/// What the host does next in a scan.
#[derive(Debug, PartialEq, Eq)]
pub enum ScanStep {
    /// Make this read on the bus and hand the reply to `resume`.
    Query(BusQuery),
    /// The scan ends with this track.
    Found(MediaMetadata),
    /// The scan ends without a track.
    Exhausted,
}

impl PlayerScan {
    /// The bus names under scan.
    pub closed spec fn names(&self) -> Seq<Seq<char>> {
        texts_view(self.names)
    }

    /// The id of the application that scans.
    pub closed spec fn app_id(&self) -> Seq<char> {
        self.app_id@
    }

    /// The index of the name whose reply the scan awaits; the number of
    /// names once the scan has ended.
    pub closed spec fn current(&self) -> int {
        self.current as int
    }

    /// Whether the scan has ended: no name is under query.
    pub open spec fn ended(&self) -> bool {
        self.current() >= self.names().len()
    }

    /// The step that goes with a position in the list of names.
    pub open spec fn step_at(&self, step: ScanStep) -> bool {
        if !self.ended() {
            step matches ScanStep::Query(query) && query.asks_metadata_of(
                self.names()[self.current()],
            )
        } else {
            step is Exhausted
        }
    }

    /// Starts a scan over `names` at the first other player.
    pub fn start(names: Vec<String>, app_id: String) -> (r: (PlayerScan, ScanStep))
        ensures
            r.0.names() == texts_view(names),
            r.0.app_id() == app_id@,
            r.0.current() == next_other_player(texts_view(names), app_id@, 0),
            r.0.step_at(r.1),
    {
        let current = find_other_player(&names, app_id.as_str(), 0);
        let step = if current < names.len() {
            ScanStep::Query(BusQuery::metadata_of(&names[current]))
        } else {
            ScanStep::Exhausted
        };
        (PlayerScan { names, app_id, current }, step)
    }

    /// Takes the reply of the player under query, `None` where the query
    /// failed. A reply that describes a track ends the scan with that
    /// track; any other moves the scan to the next other player.
    pub fn resume(&mut self, reply: Option<Dictionary<MetadataValue>>) -> (step: ScanStep)
        ensures
            final(self).names() == old(self).names(),
            final(self).app_id() == old(self).app_id(),
            old(self).ended() ==> step is Exhausted && final(self).ended(),
            !old(self).ended() ==> match reply {
                Some(dict) if player_metadata(dict@) is Some => {
                    &&& step matches ScanStep::Found(m)
                    &&& Some(m@) == player_metadata(dict@)
                    &&& final(self).current() == old(self).names().len()
                },
                _ => {
                    &&& final(self).current() == next_other_player(
                        old(self).names(),
                        old(self).app_id(),
                        old(self).current() + 1,
                    )
                    &&& final(self).step_at(step)
                },
            },
    {
        if self.current >= self.names.len() {
            return ScanStep::Exhausted;
        }
        if let Some(dict) = reply {
            if let Some(found) = parse_player_metadata(&dict) {
                self.current = self.names.len();
                return ScanStep::Found(found);
            }
        }
        let next = find_other_player(&self.names, self.app_id.as_str(), self.current + 1);
        self.current = next;
        if next < self.names.len() {
            ScanStep::Query(BusQuery::metadata_of(&self.names[next]))
        } else {
            ScanStep::Exhausted
        }
    }
}

} // verus!
