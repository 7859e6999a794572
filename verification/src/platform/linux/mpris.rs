//! What a player publishes on the bus: the metadata dictionary of a track,
//! the properties of the player object, and the notifications of their change.

use crate::dictionary::Dictionary;
use crate::models::{
    metadata_view, text_view, MediaMetadata, MetadataView, PlaybackInfo, PlaybackStatus, Rate,
    RepeatMode, Seconds,
};
use crate::text::join;
use vstd::prelude::*;

verus! {


/// The prefix of every MPRIS player's well-known bus name.
pub const PLAYER_NAME_PREFIX: &'static str = "org.mpris.MediaPlayer2.";

/// The object path at which a player publishes itself.
pub const PLAYER_OBJECT_PATH: &'static str = "/org/mpris/MediaPlayer2";

/// The root interface of a player.
pub const ROOT_INTERFACE: &'static str = "org.mpris.MediaPlayer2";

/// The player interface, to which every property-change notification is scoped.
pub const PLAYER_INTERFACE: &'static str = "org.mpris.MediaPlayer2.Player";

/// The interface that carries property reads and change notifications.
pub const PROPERTIES_INTERFACE: &'static str = "org.freedesktop.DBus.Properties";

/// The signal that announces changed properties.
pub const PROPERTIES_CHANGED: &'static str = "PropertiesChanged";

/// The property of the player interface that holds the metadata dictionary.
pub const METADATA_PROPERTY: &'static str = "Metadata";

/// The bus name of the bus itself, which is also the interface it answers on.
pub const BUS_NAME: &'static str = "org.freedesktop.DBus";

/// The object path at which the bus is asked for the names on it.
pub const BUS_OBJECT_PATH: &'static str = "/";

/// The method of the bus that lists the names on it.
pub const LIST_NAMES: &'static str = "ListNames";

/// How long a read on the bus may take, in milliseconds.
pub const QUERY_TIMEOUT_MILLIS: u64 = 500;

/// The name of the argument of `Seek`.
pub const ARG_OFFSET: &'static str = "offset";

/// The name of the first argument of `SetPosition`.
pub const ARG_TRACK_ID: &'static str = "track_id";

/// The name of the second argument of `SetPosition`.
pub const ARG_POSITION: &'static str = "position";

/// The track id published with every metadata dictionary.
pub const TRACK_ID: &'static str = "/org/mpris/MediaPlayer2/Track/1";

/// The title reported for another player's track that names an artist but no title.
pub const UNKNOWN_TITLE: &'static str = "Unknown";

pub const KEY_TRACK_ID: &'static str = "mpris:trackid";

pub const KEY_TITLE: &'static str = "xesam:title";

pub const KEY_ARTIST: &'static str = "xesam:artist";

pub const KEY_ALBUM: &'static str = "xesam:album";

pub const KEY_ALBUM_ARTIST: &'static str = "xesam:albumArtist";

pub const KEY_LENGTH: &'static str = "mpris:length";

pub const KEY_ART_URL: &'static str = "mpris:artUrl";

/// The views of the texts of a list.
pub open spec fn texts_view(texts: Vec<String>) -> Seq<Seq<char>> {
    Seq::new(texts@.len(), |i: int| texts@[i]@)
}

/// The views of the items of a list.
pub open spec fn items_view(items: Vec<Option<String>>) -> Seq<Option<Seq<char>>> {
    Seq::new(items@.len(), |i: int| text_view(items@[i]))
}

/// A value of a metadata dictionary.
#[derive(Debug, Clone, PartialEq, Eq)]
pub enum MetadataValue {
    Text(String),
    /// A list. An item that is a text is `Some`; an item of any other
    /// type is `None`.
    List(Vec<Option<String>>),
    Int64(i64),
    /// A value of any other type; nothing is read from it.
    Other,
}

pub enum MetadataValueView {
    Text(Seq<char>),
    List(Seq<Option<Seq<char>>>),
    Int64(i64),
    Other,
}

impl View for MetadataValue {
    type V = MetadataValueView;

    open spec fn view(&self) -> MetadataValueView {
        match self {
            MetadataValue::Text(t) => MetadataValueView::Text(t@),
            MetadataValue::List(l) => MetadataValueView::List(items_view(*l)),
            MetadataValue::Int64(n) => MetadataValueView::Int64(*n),
            MetadataValue::Other => MetadataValueView::Other,
        }
    }
}

/// A metadata dictionary as mathematics.
pub type MetadataMap = Map<Seq<char>, MetadataValueView>;

/// The value of a property of the player object.
pub enum PropertyValue {
    Flag(bool),
    Text(String),
    TextList(Vec<String>),
    Int64(i64),
    Number(Rate),
    Metadata(Dictionary<MetadataValue>),
}

pub enum PropertyValueView {
    Flag(bool),
    Text(Seq<char>),
    TextList(Seq<Seq<char>>),
    Int64(i64),
    Number(Rate),
    Metadata(MetadataMap),
}

impl View for PropertyValue {
    type V = PropertyValueView;

    open spec fn view(&self) -> PropertyValueView {
        match self {
            PropertyValue::Flag(b) => PropertyValueView::Flag(*b),
            PropertyValue::Text(t) => PropertyValueView::Text(t@),
            PropertyValue::TextList(l) => PropertyValueView::TextList(texts_view(*l)),
            PropertyValue::Int64(n) => PropertyValueView::Int64(*n),
            PropertyValue::Number(r) => PropertyValueView::Number(*r),
            PropertyValue::Metadata(d) => PropertyValueView::Metadata(d@),
        }
    }
}

/// A property dictionary as mathematics.
pub type PropertyMap = Map<Seq<char>, PropertyValueView>;

/// How a playback status is written on the bus.
pub open spec fn status_text(status: PlaybackStatus) -> Seq<char> {
    match status {
        PlaybackStatus::Playing => "Playing"@,
        PlaybackStatus::Paused => "Paused"@,
        PlaybackStatus::Stopped => "Stopped"@,
    }
}

/// How a repeat mode is written on the bus.
pub open spec fn loop_text(mode: RepeatMode) -> Seq<char> {
    match mode {
        RepeatMode::Off => "None"@,
        RepeatMode::Track => "Track"@,
        RepeatMode::List => "Playlist"@,
    }
}

/// How a playback status is written on the bus.
pub fn status_name(status: PlaybackStatus) -> (r: String)
    ensures
        r@ == status_text(status),
{
    match status {
        PlaybackStatus::Playing => "Playing".to_owned(),
        PlaybackStatus::Paused => "Paused".to_owned(),
        PlaybackStatus::Stopped => "Stopped".to_owned(),
    }
}

/// How a repeat mode is written on the bus.
pub fn loop_name(mode: RepeatMode) -> (r: String)
    ensures
        r@ == loop_text(mode),
{
    match mode {
        RepeatMode::Off => "None".to_owned(),
        RepeatMode::Track => "Track".to_owned(),
        RepeatMode::List => "Playlist".to_owned(),
    }
}

/// A list that holds the text `text` alone.
pub fn single_item(text: &String) -> (r: Vec<Option<String>>)
    ensures
        items_view(r) == seq![Some(text@)],
{
    let mut list: Vec<Option<String>> = Vec::new();
    list.push(Some(text.clone()));
    assert(items_view(list) =~= seq![Some(text@)]);
    list
}

/// The URL under which artwork is published: an explicit URL where the
/// metadata has one; else, where it has raw bytes and the host wrote them
/// to the file at `written`, the URL of that file; else none.
pub open spec fn resolved_art_url(metadata: MetadataView, written: Option<Seq<char>>) -> Option<
    Seq<char>,
> {
    match metadata.artwork_url {
        Some(url) => Some(url),
        None => match (metadata.artwork_data, written) {
            (Some(_), Some(path)) => Some("file://"@ + path),
            _ => None,
        },
    }
}

/// `map` with `key` set to `value` where there is a value.
pub open spec fn with_entry(map: MetadataMap, key: Seq<char>, value: Option<MetadataValueView>)
    -> MetadataMap {
    match value {
        Some(v) => map.insert(key, v),
        None => map,
    }
}

/// The metadata dictionary of a track: track id and title always, every
/// other entry where the metadata has the field. The length is in
/// microseconds; artist and album artist are lists of one.
pub open spec fn metadata_map(metadata: Option<MetadataView>, written: Option<Seq<char>>)
    -> MetadataMap {
    match metadata {
        None => Map::empty(),
        Some(m) => {
            let base = Map::<Seq<char>, MetadataValueView>::empty().insert(
                KEY_TRACK_ID@,
                MetadataValueView::Text(TRACK_ID@),
            ).insert(KEY_TITLE@, MetadataValueView::Text(m.title));
            let a = with_entry(
                base,
                KEY_ARTIST@,
                match m.artist {
                    Some(t) => Some(MetadataValueView::List(seq![Some(t)])),
                    None => None,
                },
            );
            let b = with_entry(
                a,
                KEY_ALBUM@,
                match m.album {
                    Some(t) => Some(MetadataValueView::Text(t)),
                    None => None,
                },
            );
            let c = with_entry(
                b,
                KEY_ALBUM_ARTIST@,
                match m.album_artist {
                    Some(t) => Some(MetadataValueView::List(seq![Some(t)])),
                    None => None,
                },
            );
            let d = with_entry(
                c,
                KEY_LENGTH@,
                match m.duration {
                    Some(t) => Some(MetadataValueView::Int64(t.micros() as i64)),
                    None => None,
                },
            );
            with_entry(
                d,
                KEY_ART_URL@,
                match resolved_art_url(m, written) {
                    Some(url) => Some(MetadataValueView::Text(url)),
                    None => None,
                },
            )
        },
    }
}

/// What has to happen to a track's artwork before its metadata is published.
#[derive(Debug, PartialEq, Eq)]
pub enum ArtworkPlan {
    /// The metadata names a URL: it is published as it is.
    Url,
    /// The metadata holds raw bytes only: the host writes them to a file of
    /// this name in the temporary directory and reports the file's path.
    WriteFile(String),
    /// The metadata has no artwork.
    Absent,
}

/// Whether the artwork of a track reaches the bus through a temporary
/// file: it has raw bytes and no URL.
pub open spec fn needs_artwork_file(metadata: MetadataView) -> bool {
    metadata.artwork_url is None && metadata.artwork_data is Some
}

/// The name of the temporary artwork file of the application `app_id`.
pub open spec fn artwork_file_name(app_id: Seq<char>) -> Seq<char> {
    "mpris_artwork_"@ + app_id + ".jpg"@
}

/// Decides how the artwork of `metadata` reaches the bus: a URL takes
/// precedence over raw bytes, and raw bytes go through a temporary file.
pub fn artwork_plan(metadata: &MediaMetadata, app_id: &str) -> (r: ArtworkPlan)
    ensures
        match r {
            ArtworkPlan::Url => metadata.artwork_url is Some,
            ArtworkPlan::WriteFile(name) => needs_artwork_file(metadata@) && name@
                == artwork_file_name(app_id@),
            ArtworkPlan::Absent => metadata.artwork_url is None && metadata.artwork_data is None,
        },
{
    if metadata.artwork_url.is_some() {
        ArtworkPlan::Url
    } else if metadata.artwork_data.is_some() {
        let head = join("mpris_artwork_", app_id);
        ArtworkPlan::WriteFile(join(head.as_str(), ".jpg"))
    } else {
        ArtworkPlan::Absent
    }
}

/// Builds the metadata dictionary of `metadata`. `written` is the path of
/// the temporary artwork file where the host wrote one.
pub fn create_metadata_dict(metadata: &Option<MediaMetadata>, written: &Option<String>) -> (r:
    Dictionary<MetadataValue>)
    ensures
        r@ == metadata_map(metadata_view(*metadata), text_view(*written)),
{
    let mut dict: Dictionary<MetadataValue> = Dictionary::new();
    if let Some(meta) = metadata {
        dict.set(KEY_TRACK_ID.to_owned(), MetadataValue::Text(TRACK_ID.to_owned()));
        dict.set(KEY_TITLE.to_owned(), MetadataValue::Text(meta.title.clone()));
        if let Some(artist) = &meta.artist {
            dict.set(KEY_ARTIST.to_owned(), MetadataValue::List(single_item(artist)));
        }
        if let Some(album) = &meta.album {
            dict.set(KEY_ALBUM.to_owned(), MetadataValue::Text(album.clone()));
        }
        if let Some(album_artist) = &meta.album_artist {
            dict.set(
                KEY_ALBUM_ARTIST.to_owned(),
                MetadataValue::List(single_item(album_artist)),
            );
        }
        if let Some(duration) = &meta.duration {
            dict.set(KEY_LENGTH.to_owned(), MetadataValue::Int64(duration.to_micros()));
        }
        if let Some(url) = &meta.artwork_url {
            dict.set(KEY_ART_URL.to_owned(), MetadataValue::Text(url.clone()));
        } else if meta.artwork_data.is_some() {
            if let Some(path) = written {
                dict.set(
                    KEY_ART_URL.to_owned(),
                    MetadataValue::Text(join("file://", path.as_str())),
                );
            }
        }
    }
    dict
}

/// The properties of the root interface: the player cannot quit or be
/// raised, has no track list, and is known by the application's name.
pub open spec fn root_properties(app_name: Seq<char>) -> PropertyMap {
    Map::<Seq<char>, PropertyValueView>::empty().insert(
        "CanQuit"@,
        PropertyValueView::Flag(false),
    ).insert("CanRaise"@, PropertyValueView::Flag(false)).insert(
        "HasTrackList"@,
        PropertyValueView::Flag(false),
    ).insert("Identity"@, PropertyValueView::Text(app_name)).insert(
        "SupportedUriSchemes"@,
        PropertyValueView::TextList(seq!["file"@, "http"@, "https"@]),
    ).insert(
        "SupportedMimeTypes"@,
        PropertyValueView::TextList(seq!["audio/mpeg"@, "audio/mp4"@, "audio/ogg"@]),
    )
}

/// The properties that change with the playback information: status,
/// position in microseconds, rate, shuffle and loop status.
pub open spec fn playback_properties(info: PlaybackInfo) -> PropertyMap {
    Map::<Seq<char>, PropertyValueView>::empty().insert(
        "PlaybackStatus"@,
        PropertyValueView::Text(status_text(info.status)),
    ).insert("Position"@, PropertyValueView::Int64(info.position.micros() as i64)).insert(
        "Rate"@,
        PropertyValueView::Number(info.playback_rate),
    ).insert("Shuffle"@, PropertyValueView::Flag(info.shuffle)).insert(
        "LoopStatus"@,
        PropertyValueView::Text(loop_text(info.repeat_mode)),
    )
}

/// The playback information a player shows before any was set: stopped at
/// the start, at normal speed, without shuffle or repeat.
pub open spec fn idle_playback() -> PlaybackInfo {
    PlaybackInfo {
        status: PlaybackStatus::Stopped,
        position: Seconds { nanos: 0 },
        shuffle: false,
        repeat_mode: RepeatMode::Off,
        playback_rate: Rate { permille: 1000 },
    }
}

/// The properties of the player interface at registration: the playback
/// properties of the cached information (of an idle player where none is
/// cached), the metadata dictionary, full volume, a fixed rate range, and
/// every transport capability.
pub open spec fn player_properties(playback: Option<PlaybackInfo>, metadata: MetadataMap)
    -> PropertyMap {
    playback_properties(
        match playback {
            Some(info) => info,
            None => idle_playback(),
        },
    ).insert("Metadata"@, PropertyValueView::Metadata(metadata)).insert(
        "Volume"@,
        PropertyValueView::Number(Rate { permille: 1000 }),
    ).insert("MinimumRate"@, PropertyValueView::Number(Rate { permille: 1000 })).insert(
        "MaximumRate"@,
        PropertyValueView::Number(Rate { permille: 1000 }),
    ).insert("CanGoNext"@, PropertyValueView::Flag(true)).insert(
        "CanGoPrevious"@,
        PropertyValueView::Flag(true),
    ).insert("CanPlay"@, PropertyValueView::Flag(true)).insert(
        "CanPause"@,
        PropertyValueView::Flag(true),
    ).insert("CanSeek"@, PropertyValueView::Flag(true)).insert(
        "CanControl"@,
        PropertyValueView::Flag(true),
    )
}

/// A list of three texts.
pub fn text_list3(a: &str, b: &str, c: &str) -> (r: Vec<String>)
    ensures
        texts_view(r) == seq![a@, b@, c@],
{
    let mut list: Vec<String> = Vec::new();
    list.push(a.to_owned());
    list.push(b.to_owned());
    list.push(c.to_owned());
    list
}

/// Builds the properties of the root interface.
pub fn create_root_properties(app_name: &str) -> (r: Dictionary<PropertyValue>)
    ensures
        r@ == root_properties(app_name@),
{
    let mut dict: Dictionary<PropertyValue> = Dictionary::new();
    dict.set("CanQuit".to_owned(), PropertyValue::Flag(false));
    dict.set("CanRaise".to_owned(), PropertyValue::Flag(false));
    dict.set("HasTrackList".to_owned(), PropertyValue::Flag(false));
    dict.set("Identity".to_owned(), PropertyValue::Text(app_name.to_owned()));
    dict.set(
        "SupportedUriSchemes".to_owned(),
        PropertyValue::TextList(text_list3("file", "http", "https")),
    );
    dict.set(
        "SupportedMimeTypes".to_owned(),
        PropertyValue::TextList(text_list3("audio/mpeg", "audio/mp4", "audio/ogg")),
    );
    dict
}

/// Builds the properties that change with the playback information.
pub fn create_playback_properties(info: &PlaybackInfo) -> (r: Dictionary<PropertyValue>)
    ensures
        r@ == playback_properties(*info),
{
    let mut dict: Dictionary<PropertyValue> = Dictionary::new();
    dict.set("PlaybackStatus".to_owned(), PropertyValue::Text(status_name(info.status)));
    dict.set("Position".to_owned(), PropertyValue::Int64(info.position.to_micros()));
    dict.set("Rate".to_owned(), PropertyValue::Number(info.playback_rate));
    dict.set("Shuffle".to_owned(), PropertyValue::Flag(info.shuffle));
    dict.set("LoopStatus".to_owned(), PropertyValue::Text(loop_name(info.repeat_mode)));
    dict
}

/// Builds the properties of the player interface at registration.
pub fn create_player_properties(
    playback: &Option<PlaybackInfo>,
    metadata: Dictionary<MetadataValue>,
) -> (r: Dictionary<PropertyValue>)
    ensures
        r@ == player_properties(*playback, metadata@),
{
    let shown = match playback {
        Some(info) => *info,
        None => PlaybackInfo {
            status: PlaybackStatus::Stopped,
            position: Seconds::zero(),
            shuffle: false,
            repeat_mode: RepeatMode::Off,
            playback_rate: Rate::normal(),
        },
    };
    let mut dict = create_playback_properties(&shown);
    dict.set("Metadata".to_owned(), PropertyValue::Metadata(metadata));
    dict.set("Volume".to_owned(), PropertyValue::Number(Rate::normal()));
    dict.set("MinimumRate".to_owned(), PropertyValue::Number(Rate::normal()));
    dict.set("MaximumRate".to_owned(), PropertyValue::Number(Rate::normal()));
    dict.set("CanGoNext".to_owned(), PropertyValue::Flag(true));
    dict.set("CanGoPrevious".to_owned(), PropertyValue::Flag(true));
    dict.set("CanPlay".to_owned(), PropertyValue::Flag(true));
    dict.set("CanPause".to_owned(), PropertyValue::Flag(true));
    dict.set("CanSeek".to_owned(), PropertyValue::Flag(true));
    dict.set("CanControl".to_owned(), PropertyValue::Flag(true));
    dict
}

/// The well-known bus name of the application `app_id`: the player
/// namespace followed by the id.
pub fn bus_name(app_id: &str) -> (r: String)
    ensures
        r@ == PLAYER_NAME_PREFIX@ + app_id@,
{
    join(PLAYER_NAME_PREFIX, app_id)
}

/// A method of the player interface. The player accepts each and does
/// nothing on it.
#[derive(Debug, Clone, Copy, PartialEq, Eq, Structural)]
pub enum PlayerMethod {
    Play,
    Pause,
    PlayPause,
    Stop,
    Next,
    Previous,
    /// Takes an offset in microseconds.
    Seek,
    /// Takes a track id and a position in microseconds.
    SetPosition,
}

/// The name under which a method is registered.
pub open spec fn method_text(method: PlayerMethod) -> Seq<char> {
    match method {
        PlayerMethod::Play => "Play"@,
        PlayerMethod::Pause => "Pause"@,
        PlayerMethod::PlayPause => "PlayPause"@,
        PlayerMethod::Stop => "Stop"@,
        PlayerMethod::Next => "Next"@,
        PlayerMethod::Previous => "Previous"@,
        PlayerMethod::Seek => "Seek"@,
        PlayerMethod::SetPosition => "SetPosition"@,
    }
}

/// The names of the arguments a method takes, in order. `Seek` takes an
/// offset, `SetPosition` a track id and a position, both times in
/// microseconds as 64-bit integers and the track id as a text; every
/// other method takes none.
pub open spec fn method_argument_texts(method: PlayerMethod) -> Seq<Seq<char>> {
    match method {
        PlayerMethod::Seek => seq![ARG_OFFSET@],
        PlayerMethod::SetPosition => seq![ARG_TRACK_ID@, ARG_POSITION@],
        _ => seq![],
    }
}

/// The name under which a method is registered.
pub fn method_name(method: PlayerMethod) -> (r: String)
    ensures
        r@ == method_text(method),
{
    match method {
        PlayerMethod::Play => "Play".to_owned(),
        PlayerMethod::Pause => "Pause".to_owned(),
        PlayerMethod::PlayPause => "PlayPause".to_owned(),
        PlayerMethod::Stop => "Stop".to_owned(),
        PlayerMethod::Next => "Next".to_owned(),
        PlayerMethod::Previous => "Previous".to_owned(),
        PlayerMethod::Seek => "Seek".to_owned(),
        PlayerMethod::SetPosition => "SetPosition".to_owned(),
    }
}

/// The names of the arguments a method takes, in order.
pub fn method_arguments(method: PlayerMethod) -> (r: Vec<&'static str>)
    ensures
        r@.len() == method_argument_texts(method).len(),
        forall|i: int| 0 <= i < r@.len() ==> r@[i]@ == method_argument_texts(method)[i],
{
    let mut names: Vec<&'static str> = Vec::new();
    match method {
        PlayerMethod::Seek => {
            names.push(ARG_OFFSET);
        },
        PlayerMethod::SetPosition => {
            names.push(ARG_TRACK_ID);
            names.push(ARG_POSITION);
        },
        _ => {},
    }
    names
}

/// The methods of the player interface, in the order of their registration.
pub open spec fn player_methods() -> Seq<PlayerMethod> {
    seq![
        PlayerMethod::Play,
        PlayerMethod::Pause,
        PlayerMethod::PlayPause,
        PlayerMethod::Stop,
        PlayerMethod::Next,
        PlayerMethod::Previous,
        PlayerMethod::Seek,
        PlayerMethod::SetPosition,
    ]
}

/// The properties of the player interface that a client may write. The
/// player accepts each write and announces the written value; what it
/// answers to a later read stays as registered.
pub open spec fn writable_properties() -> Seq<Seq<char>> {
    seq!["LoopStatus"@, "Rate"@, "Shuffle"@, "Volume"@]
}

/// What the host registers on the session bus to open the session: the
/// well-known name to claim, and the object to publish with the property
/// values its two interfaces answer with from then on.
pub struct MprisRegistration {
    pub bus_name: String,
    pub object_path: String,
    pub root: Dictionary<PropertyValue>,
    pub player: Dictionary<PropertyValue>,
    pub writable: Vec<String>,
    pub methods: Vec<PlayerMethod>,
}

/// A notification that properties of the player interface changed: the
/// signal to emit, the object that emits it, and what it carries.
pub struct PropertiesChanged {
    pub object_path: String,
    pub signal_interface: String,
    pub signal_name: String,
    pub interface: String,
    pub changed: Dictionary<PropertyValue>,
    pub invalidated: Vec<String>,
}

impl PropertiesChanged {
    /// The notification is the properties-changed signal of the player
    /// object, scoped to the player interface: it names no invalidated
    /// property and carries `changed`.
    pub open spec fn announces(self, changed: PropertyMap) -> bool {
        &&& self.object_path@ == PLAYER_OBJECT_PATH@
        &&& self.signal_interface@ == PROPERTIES_INTERFACE@
        &&& self.signal_name@ == PROPERTIES_CHANGED@
        &&& self.interface@ == PLAYER_INTERFACE@
        &&& self.changed@ == changed
        &&& self.invalidated@.len() == 0
    }

    /// A notification of `changed` on the player interface.
    pub fn of(changed: Dictionary<PropertyValue>) -> (r: PropertiesChanged)
        ensures
            r.announces(changed@),
    {
        PropertiesChanged {
            object_path: PLAYER_OBJECT_PATH.to_owned(),
            signal_interface: PROPERTIES_INTERFACE.to_owned(),
            signal_name: PROPERTIES_CHANGED.to_owned(),
            interface: PLAYER_INTERFACE.to_owned(),
            changed,
            invalidated: Vec::new(),
        }
    }
}

/// A read the host makes on the bus: the call of a method, or the read of
/// a property through the properties interface.
#[derive(Debug, PartialEq, Eq)]
pub struct BusQuery {
    pub destination: String,
    pub object_path: String,
    pub interface: String,
    pub member: String,
    pub timeout_millis: u64,
}

impl BusQuery {
    /// The query asks the bus for the names on it.
    pub open spec fn lists_names(self) -> bool {
        &&& self.destination@ == BUS_NAME@
        &&& self.object_path@ == BUS_OBJECT_PATH@
        &&& self.interface@ == BUS_NAME@
        &&& self.member@ == LIST_NAMES@
        &&& self.timeout_millis == QUERY_TIMEOUT_MILLIS
    }

    /// The query asks the player of the bus name `name` for its metadata property.
    pub open spec fn asks_metadata_of(self, name: Seq<char>) -> bool {
        &&& self.destination@ == name
        &&& self.object_path@ == PLAYER_OBJECT_PATH@
        &&& self.interface@ == PLAYER_INTERFACE@
        &&& self.member@ == METADATA_PROPERTY@
        &&& self.timeout_millis == QUERY_TIMEOUT_MILLIS
    }

    /// The call that lists the names on the bus.
    pub fn list_names() -> (r: BusQuery)
        ensures
            r.lists_names(),
    {
        BusQuery {
            destination: BUS_NAME.to_owned(),
            object_path: BUS_OBJECT_PATH.to_owned(),
            interface: BUS_NAME.to_owned(),
            member: LIST_NAMES.to_owned(),
            timeout_millis: QUERY_TIMEOUT_MILLIS,
        }
    }

    /// The read of the metadata property of the player `name`.
    pub fn metadata_of(name: &String) -> (r: BusQuery)
        ensures
            r.asks_metadata_of(name@),
    {
        BusQuery {
            destination: name.clone(),
            object_path: PLAYER_OBJECT_PATH.to_owned(),
            interface: PLAYER_INTERFACE.to_owned(),
            member: METADATA_PROPERTY.to_owned(),
            timeout_millis: QUERY_TIMEOUT_MILLIS,
        }
    }
}

/// What a setter's request is: nothing while the session is not bound to
/// the bus, and the notification of `changed` once it is.
pub open spec fn notifies(request: Option<PropertiesChanged>, bound: bool, changed: PropertyMap)
    -> bool {
    match request {
        Some(signal) => bound && signal.announces(changed),
        None => !bound,
    }
}

/// The change a metadata push announces.
pub open spec fn metadata_change(metadata: MetadataMap) -> PropertyMap {
    Map::<Seq<char>, PropertyValueView>::empty().insert(
        "Metadata"@,
        PropertyValueView::Metadata(metadata),
    )
}

} // verus!
