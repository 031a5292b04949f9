//! The player protocol of libmpv: which events matter, which properties are
//! watched, what the backend calls look like as libmpv requests, and how raw
//! property readings become playback values.
use vstd::prelude::*;

use crate::command::AppCommand;
use crate::controller::{calls_of, BackendCall};
use crate::models::{MediaInfo, Track, TrackKind};
use crate::path::{contains_str, contains_text, same_text};
use crate::text::{push_signed_decimal, shortest_fixed, shortest_fixed_string, signed_decimal};

verus! {

/// Property value formats of libmpv.
pub const MPV_FORMAT_STRING: i32 = 1;
pub const MPV_FORMAT_FLAG: i32 = 3;
pub const MPV_FORMAT_INT64: i32 = 4;
pub const MPV_FORMAT_DOUBLE: i32 = 5;

/// Event identifiers of libmpv.
pub const MPV_EVENT_NONE: i32 = 0;
pub const MPV_EVENT_SHUTDOWN: i32 = 1;
pub const MPV_EVENT_END_FILE: i32 = 7;
pub const MPV_EVENT_FILE_LOADED: i32 = 8;
pub const MPV_EVENT_PLAYBACK_RESTART: i32 = 21;
pub const MPV_EVENT_PROPERTY_CHANGE: i32 = 22;

/// Reply tags of the properties the player watches.
pub const OBSERVED_PATH_PROPERTY: u64 = 1;
pub const OBSERVED_PAUSE_PROPERTY: u64 = 2;
pub const OBSERVED_POSITION_PROPERTY: u64 = 3;
pub const OBSERVED_DURATION_PROPERTY: u64 = 4;
pub const OBSERVED_VOLUME_PROPERTY: u64 = 5;
pub const OBSERVED_AUDIO_TRACK_PROPERTY: u64 = 6;
pub const OBSERVED_SUBTITLE_TRACK_PROPERTY: u64 = 7;
pub const OBSERVED_TRACK_COUNT_PROPERTY: u64 = 8;

/// The render-update flag that announces a new video frame.
pub const MPV_RENDER_UPDATE_FRAME: u64 = 1;

/// The reply tags of every watched property, in registration order.
pub open spec fn observed_ids() -> Seq<u64> {
    seq![
        OBSERVED_PATH_PROPERTY,
        OBSERVED_PAUSE_PROPERTY,
        OBSERVED_POSITION_PROPERTY,
        OBSERVED_DURATION_PROPERTY,
        OBSERVED_VOLUME_PROPERTY,
        OBSERVED_AUDIO_TRACK_PROPERTY,
        OBSERVED_SUBTITLE_TRACK_PROPERTY,
        OBSERVED_TRACK_COUNT_PROPERTY,
    ]
}

/// The reply tags of every watched property.
pub fn observed_property_reply_ids() -> (ids: [u64; 8])
    ensures
        ids@ == observed_ids(),
{
    let ids = [
        OBSERVED_PATH_PROPERTY,
        OBSERVED_PAUSE_PROPERTY,
        OBSERVED_POSITION_PROPERTY,
        OBSERVED_DURATION_PROPERTY,
        OBSERVED_VOLUME_PROPERTY,
        OBSERVED_AUDIO_TRACK_PROPERTY,
        OBSERVED_SUBTITLE_TRACK_PROPERTY,
        OBSERVED_TRACK_COUNT_PROPERTY,
    ];
    assert(ids@ =~= observed_ids());
    ids
}

/// A watched property: its reply tag, its name and the format it is read in.
pub struct ObservedProperty {
    pub reply_userdata: u64,
    pub name: &'static str,
    pub format: i32,
}

/// The properties the player watches, each with its reply tag and format.
pub fn observed_playback_properties() -> (props: Vec<ObservedProperty>)
    ensures
        props@.len() == 8,
        forall|i: int| 0 <= i < 8 ==> #[trigger] props@[i].reply_userdata == observed_ids()[i],
        props@[0].name@ == "path"@ && props@[0].format == MPV_FORMAT_STRING,
        props@[1].name@ == "pause"@ && props@[1].format == MPV_FORMAT_FLAG,
        props@[2].name@ == "time-pos"@ && props@[2].format == MPV_FORMAT_DOUBLE,
        props@[3].name@ == "duration"@ && props@[3].format == MPV_FORMAT_DOUBLE,
        props@[4].name@ == "volume"@ && props@[4].format == MPV_FORMAT_DOUBLE,
        props@[5].name@ == "aid"@ && props@[5].format == MPV_FORMAT_INT64,
        props@[6].name@ == "sid"@ && props@[6].format == MPV_FORMAT_INT64,
        props@[7].name@ == "track-list/count"@ && props@[7].format == MPV_FORMAT_INT64,
{
    vec![
        ObservedProperty { reply_userdata: OBSERVED_PATH_PROPERTY, name: "path", format: MPV_FORMAT_STRING },
        ObservedProperty { reply_userdata: OBSERVED_PAUSE_PROPERTY, name: "pause", format: MPV_FORMAT_FLAG },
        ObservedProperty {
            reply_userdata: OBSERVED_POSITION_PROPERTY,
            name: "time-pos",
            format: MPV_FORMAT_DOUBLE,
        },
        ObservedProperty {
            reply_userdata: OBSERVED_DURATION_PROPERTY,
            name: "duration",
            format: MPV_FORMAT_DOUBLE,
        },
        ObservedProperty { reply_userdata: OBSERVED_VOLUME_PROPERTY, name: "volume", format: MPV_FORMAT_DOUBLE },
        ObservedProperty { reply_userdata: OBSERVED_AUDIO_TRACK_PROPERTY, name: "aid", format: MPV_FORMAT_INT64 },
        ObservedProperty {
            reply_userdata: OBSERVED_SUBTITLE_TRACK_PROPERTY,
            name: "sid",
            format: MPV_FORMAT_INT64,
        },
        ObservedProperty {
            reply_userdata: OBSERVED_TRACK_COUNT_PROPERTY,
            name: "track-list/count",
            format: MPV_FORMAT_INT64,
        },
    ]
}

/// Whether a property-change reply belongs to a watched property.
pub fn is_observed_property_reply(reply_userdata: u64) -> (r: bool)
    ensures
        r == observed_ids().contains(reply_userdata),
{
    let ids = observed_property_reply_ids();
    let mut i: usize = 0;
    while i < 8
        invariant
            i <= 8,
            ids@ == observed_ids(),
            forall|j: int| 0 <= j < i ==> observed_ids()[j] != reply_userdata,
        decreases 8 - i,
    {
        if ids[i] == reply_userdata {
            assert(observed_ids()[i as int] == reply_userdata);
            return true;
        }
        i = i + 1;
    }
    false
}

/// Whether a libmpv event may change the playback state.
pub open spec fn requires_refresh(event_id: i32, reply_userdata: u64) -> bool {
    if event_id == MPV_EVENT_SHUTDOWN || event_id == MPV_EVENT_END_FILE || event_id
        == MPV_EVENT_FILE_LOADED || event_id == MPV_EVENT_PLAYBACK_RESTART {
        true
    } else if event_id == MPV_EVENT_PROPERTY_CHANGE {
        observed_ids().contains(reply_userdata)
    } else {
        false
    }
}

/// Whether a libmpv event calls for a refresh of the playback state: the
/// file-lifecycle events do, and so does a change of a watched property.
pub fn event_requires_refresh(event_id: i32, reply_userdata: u64) -> (r: bool)
    ensures
        r == requires_refresh(event_id, reply_userdata),
{
    if event_id == MPV_EVENT_SHUTDOWN || event_id == MPV_EVENT_END_FILE || event_id
        == MPV_EVENT_FILE_LOADED || event_id == MPV_EVENT_PLAYBACK_RESTART {
        true
    } else if event_id == MPV_EVENT_PROPERTY_CHANGE {
        is_observed_property_reply(reply_userdata)
    } else {
        false
    }
}

/// Whether the events libmpv queued, taken as `(event id, reply tag)` up to the
/// first empty event, call for a refresh: one of them does.
pub open spec fn refresh_needed(events: Seq<(i32, u64)>) -> bool
    decreases events.len(),
{
    if events.len() == 0 || events[0].0 == MPV_EVENT_NONE {
        false
    } else {
        requires_refresh(events[0].0, events[0].1) || refresh_needed(events.drop_first())
    }
}

/// Whether a drained event queue calls for a refresh (see [`refresh_needed`]).
pub fn drain_needs_refresh(events: &Vec<(i32, u64)>) -> (r: bool)
    ensures
        r == refresh_needed(events@),
{
    let n = events.len();
    let mut needed = false;
    let mut i: usize = 0;
    assert(events@.subrange(0, n as int) =~= events@);
    while i < n && events[i].0 != MPV_EVENT_NONE
        invariant
            i <= n == events@.len(),
            refresh_needed(events@) == (needed || refresh_needed(events@.subrange(i as int, n as int))),
        decreases n - i,
    {
        let ghost rest = events@.subrange(i as int, n as int);
        assert(rest[0] == events@[i as int]);
        assert(rest.drop_first() =~= events@.subrange(i + 1, n as int));
        if event_requires_refresh(events[i].0, events[i].1) {
            needed = true;
        }
        i = i + 1;
    }
    proof {
        if i < n {
            assert(events@.subrange(i as int, n as int)[0] == events@[i as int]);
        }
    }
    needed
}

/// Whether render-update flags announce a new frame.
pub fn render_update_has_frame(update_flags: u64) -> (r: bool)
    ensures
        r == (update_flags & MPV_RENDER_UPDATE_FRAME != 0),
{
    update_flags & MPV_RENDER_UPDATE_FRAME != 0
}

/// `a * b`, held within the range of `i32`.
pub open spec fn saturating_product(a: i32, b: i32) -> i32 {
    let p = a * b;
    if p > i32::MAX {
        i32::MAX
    } else if p < i32::MIN {
        i32::MIN
    } else {
        p as i32
    }
}

/// `a * b` saturated at the bounds of `i32`.
pub fn saturating_mul_i32(a: i32, b: i32) -> (r: i32)
    ensures
        r == saturating_product(a, b),
{
    proof {
        assert(-4611686018427387904 <= (a as int) * (b as int) <= 4611686018427387904)
            by (nonlinear_arith)
            requires
                -2147483648 <= a <= 2147483647,
                -2147483648 <= b <= 2147483647,
        ;
    }
    let p = (a as i64) * (b as i64);
    if p > i32::MAX as i64 {
        i32::MAX
    } else if p < i32::MIN as i64 {
        i32::MIN
    } else {
        p as i32
    }
}

/// The pixel size to render a widget of `width` x `height` logical pixels
/// at `scale_factor`; none for an empty widget or a non-positive scale.
pub fn scaled_render_size(width: i32, height: i32, scale_factor: i32) -> (r: Option<(i32, i32)>)
    ensures
        (width <= 0 || height <= 0 || scale_factor <= 0) ==> r is None,
        !(width <= 0 || height <= 0 || scale_factor <= 0) ==> r == Some(
            (saturating_product(width, scale_factor), saturating_product(height, scale_factor)),
        ),
{
    if width <= 0 || height <= 0 || scale_factor <= 0 {
        return None;
    }
    Some((saturating_mul_i32(width, scale_factor), saturating_mul_i32(height, scale_factor)))
}

/// The text that libmpv puts in errors of properties that do not exist yet.
pub open spec fn unavailable_text() -> Seq<char> {
    "property unavailable"@
}

/// Whether an error message says that a property is unavailable.
pub fn is_unavailable(error: &String) -> (r: bool)
    ensures
        r == contains_text(error@, unavailable_text()),
{
    contains_str(error.as_str(), "property unavailable")
}

/// An optional text property (the media path, the media title): empty text
/// and an unavailable property both mean none; other errors stay errors.
pub open spec fn optional_text_of(raw: Result<String, String>) -> Result<Option<String>, String> {
    match raw {
        Ok(t) => if t@.len() == 0 {
            Ok(None)
        } else {
            Ok(Some(t))
        },
        Err(e) => if contains_text(e@, unavailable_text()) {
            Ok(None)
        } else {
            Err(e)
        },
    }
}

/// Reads an optional text property from its raw reading.
pub fn optional_text(raw: Result<String, String>) -> (r: Result<Option<String>, String>)
    ensures
        r == optional_text_of(raw),
{
    match raw {
        Ok(t) => if t.as_str().unicode_len() == 0 {
            Ok(None)
        } else {
            Ok(Some(t))
        },
        Err(e) => if is_unavailable(&e) {
            Ok(None)
        } else {
            Err(e)
        },
    }
}

/// A codec name: empty text and any error mean none.
pub fn codec_name(raw: Result<String, String>) -> (r: Option<String>)
    ensures
        r == match raw {
            Ok(t) => if t@.len() == 0 {
                None
            } else {
                Some(t)
            },
            Err(_) => None,
        },
{
    match raw {
        Ok(t) => if t.as_str().unicode_len() == 0 {
            None
        } else {
            Some(t)
        },
        Err(_) => None,
    }
}

/// A video dimension: a positive reading, else none.
pub fn video_dimension(raw: Result<i64, String>) -> (r: Option<i64>)
    ensures
        r == match raw {
            Ok(v) => if v > 0 {
                Some(v)
            } else {
                None
            },
            Err(_) => None,
        },
{
    match raw {
        Ok(v) => if v > 0 {
            Some(v)
        } else {
            None
        },
        Err(_) => None,
    }
}

/// A track selection: a non-negative identifier, none for a negative one or an
/// unavailable property; other errors stay errors.
pub fn optional_track_id(raw: Result<i64, String>) -> (r: Result<Option<i64>, String>)
    ensures
        r == match raw {
            Ok(v) => if v >= 0 {
                Ok(Some(v))
            } else {
                Ok(None)
            },
            Err(e) => if contains_text(e@, unavailable_text()) {
                Ok(None)
            } else {
                Err(e)
            },
        },
{
    match raw {
        Ok(v) => if v >= 0 {
            Ok(Some(v))
        } else {
            Ok(None)
        },
        Err(e) => if is_unavailable(&e) {
            Ok(None)
        } else {
            Err(e)
        },
    }
}

/// Media information from the readings of its properties; a failed reading
/// leaves its field empty.
pub fn media_info_from(
    media_title: Result<Option<String>, String>,
    video_codec: Option<String>,
    audio_codec: Option<String>,
    video_width: Option<i64>,
    video_height: Option<i64>,
) -> (info: MediaInfo)
    ensures
        info.media_title == match media_title {
            Ok(t) => t,
            Err(_) => None,
        },
        info.video_codec == video_codec,
        info.audio_codec == audio_codec,
        info.video_width == video_width,
        info.video_height == video_height,
{
    MediaInfo {
        media_title: match media_title {
            Ok(t) => t,
            Err(_) => None,
        },
        video_codec,
        audio_codec,
        video_width,
        video_height,
    }
}

/// The message of a libmpv error code, with libmpv's own text where it has one.
pub fn error_message(status: i32, text: Option<String>) -> (message: String)
    ensures
        message@ == match text {
            Some(t) => "libmpv error ("@ + signed_decimal(status as int) + "): "@ + t@,
            None => "libmpv error code "@ + signed_decimal(status as int),
        },
{
    match text {
        Some(t) => {
            let mut message = "libmpv error (".to_string();
            push_signed_decimal(&mut message, status as i64);
            message.append("): ");
            message.append(t.as_str());
            message
        },
        None => {
            let mut message = "libmpv error code ".to_string();
            push_signed_decimal(&mut message, status as i64);
            message
        },
    }
}

/// The raw readings of one entry of the track list.
#[derive(Debug)]
pub struct TrackEntry {
    pub kind: Result<String, String>,
    pub id: Result<i64, String>,
    pub title: Result<String, String>,
    pub lang: Result<String, String>,
    pub selected: Result<bool, String>,
}

/// The kind of a track-list entry, from its type text.
pub open spec fn entry_kind(entry: TrackEntry) -> Option<TrackKind> {
    match entry.kind {
        Ok(t) => if t@ == "audio"@ {
            Some(TrackKind::Audio)
        } else if t@ == "sub"@ {
            Some(TrackKind::Subtitle)
        } else {
            None
        },
        Err(_) => None,
    }
}

/// A reading of non-empty text.
pub open spec fn nonempty(raw: Result<String, String>) -> Option<Seq<char>> {
    match raw {
        Ok(t) => if t@.len() > 0 {
            Some(t@)
        } else {
            None
        },
        Err(_) => None,
    }
}

/// The label of a track: its title, else its language, else a name made of its
/// kind and identifier.
pub open spec fn track_label(entry: TrackEntry, kind: TrackKind, id: i64) -> Seq<char> {
    match nonempty(entry.title) {
        Some(t) => t,
        None => match nonempty(entry.lang) {
            Some(l) => l,
            None => match kind {
                TrackKind::Audio => "音轨 "@ + signed_decimal(id as int),
                TrackKind::Subtitle => "字幕 "@ + signed_decimal(id as int),
            },
        },
    }
}

/// `track` is what the entry describes: an audio or subtitle entry with an
/// identifier.
pub open spec fn track_of_entry(entry: TrackEntry, track: Track) -> bool {
    &&& entry_kind(entry) == Some(track.kind)
    &&& entry.id == Ok::<i64, String>(track.id)
    &&& track.label@ == track_label(entry, track.kind, track.id)
    &&& track.selected == match entry.selected {
        Ok(b) => b,
        Err(_) => false,
    }
}

/// Whether an entry describes a usable track of `kind`.
pub open spec fn usable(entry: TrackEntry, kind: TrackKind) -> bool {
    entry_kind(entry) == Some(kind) && entry.id is Ok
}

/// The entries of `entries` that describe usable tracks of `kind`, in order.
pub open spec fn usable_entries(entries: Seq<TrackEntry>, kind: TrackKind) -> Seq<TrackEntry>
    decreases entries.len(),
{
    if entries.len() == 0 {
        Seq::empty()
    } else if usable(entries.last(), kind) {
        usable_entries(entries.drop_last(), kind).push(entries.last())
    } else {
        usable_entries(entries.drop_last(), kind)
    }
}

/// `tracks` are the tracks that the usable entries of `kind` describe, in order.
pub open spec fn tracks_of(entries: Seq<TrackEntry>, kind: TrackKind, tracks: Seq<Track>) -> bool {
    let chosen = usable_entries(entries, kind);
    &&& tracks.len() == chosen.len()
    &&& forall|i: int| 0 <= i < tracks.len() ==> #[trigger] track_of_entry(chosen[i], tracks[i])
}

/// The track that an entry describes, if it describes one.
fn track_from_entry(entry: &TrackEntry) -> (r: Option<Track>)
    ensures
        match r {
            Some(t) => track_of_entry(*entry, t),
            None => entry_kind(*entry) is None || entry.id is Err,
        },
{
    proof {
        reveal_strlit("audio");
        reveal_strlit("sub");
    }
    let kind = match &entry.kind {
        Ok(t) => {
            if same_text(t.as_str(), "audio") {
                TrackKind::Audio
            } else if same_text(t.as_str(), "sub") {
                TrackKind::Subtitle
            } else {
                return None;
            }
        },
        Err(_) => {
            return None;
        },
    };
    let id = match &entry.id {
        Ok(id) => *id,
        Err(_) => {
            return None;
        },
    };
    let label = match &entry.title {
        Ok(t) if t.as_str().unicode_len() > 0 => t.clone(),
        _ => match &entry.lang {
            Ok(l) if l.as_str().unicode_len() > 0 => l.clone(),
            _ => {
                let mut name = match kind {
                    TrackKind::Audio => "音轨 ".to_string(),
                    TrackKind::Subtitle => "字幕 ".to_string(),
                };
                push_signed_decimal(&mut name, id);
                name
            },
        },
    };
    let selected = match &entry.selected {
        Ok(b) => *b,
        Err(_) => false,
    };
    Some(Track { id, label, kind, selected })
}

/// The audio and subtitle tracks that a track list describes, each list in
/// the order of the entries; entries of another kind or without an identifier
/// are left out.
pub fn tracks_from_entries(entries: &Vec<TrackEntry>) -> (r: (Vec<Track>, Vec<Track>))
    ensures
        tracks_of(entries@, TrackKind::Audio, r.0@),
        tracks_of(entries@, TrackKind::Subtitle, r.1@),
{
    let mut audio: Vec<Track> = Vec::new();
    let mut subtitles: Vec<Track> = Vec::new();
    let mut i: usize = 0;
    while i < entries.len()
        invariant
            i <= entries@.len(),
            tracks_of(entries@.subrange(0, i as int), TrackKind::Audio, audio@),
            tracks_of(entries@.subrange(0, i as int), TrackKind::Subtitle, subtitles@),
        decreases entries@.len() - i,
    {
        let ghost prefix = entries@.subrange(0, i as int);
        let ghost next = entries@.subrange(0, i + 1);
        assert(next.drop_last() =~= prefix);
        assert(next.last() == entries@[i as int]);
        let found = track_from_entry(&entries[i]);
        match found {
            Some(t) => {
                if t.kind == TrackKind::Audio {
                    audio.push(t);
                    assert(usable_entries(next, TrackKind::Audio) == usable_entries(prefix, TrackKind::Audio).push(entries@[i as int]));
                    assert(usable_entries(next, TrackKind::Subtitle) == usable_entries(prefix, TrackKind::Subtitle));
                } else {
                    subtitles.push(t);
                    assert(usable_entries(next, TrackKind::Subtitle) == usable_entries(prefix, TrackKind::Subtitle).push(entries@[i as int]));
                    assert(usable_entries(next, TrackKind::Audio) == usable_entries(prefix, TrackKind::Audio));
                }
            },
            None => {
                assert(usable_entries(next, TrackKind::Audio) == usable_entries(prefix, TrackKind::Audio));
                assert(usable_entries(next, TrackKind::Subtitle) == usable_entries(prefix, TrackKind::Subtitle));
            },
        }
        i = i + 1;
    }
    assert(entries@.subrange(0, entries@.len() as int) =~= entries@);
    (audio, subtitles)
}

/// A request to libmpv: a command, or a property set to a number.
#[derive(Debug)]
pub enum MpvRequest {
    /// A command given as its words.
    Command(Vec<String>),
    /// A floating-point property set to `milli / 1000`.
    SetDouble { name: &'static str, milli: i64 },
    /// An integer property.
    SetInt { name: &'static str, value: i64 },
}

/// The words of a command request, if `request` is one.
pub open spec fn command_words(request: MpvRequest) -> Seq<Seq<char>> {
    match request {
        MpvRequest::Command(words) => words@.map_values(|w: String| w@),
        _ => Seq::empty(),
    }
}

/// `request` is the command made of `words`.
pub open spec fn is_command(request: MpvRequest, words: Seq<Seq<char>>) -> bool {
    request is Command && command_words(request) == words
}

/// `request` sets the floating-point property `name` to `milli / 1000`.
pub open spec fn is_set_double(request: MpvRequest, name: Seq<char>, milli: i64) -> bool {
    request matches MpvRequest::SetDouble { name: n, milli: m } && n@ == name && m == milli
}

/// `request` sets the integer property `name` to `value`.
pub open spec fn is_set_int(request: MpvRequest, name: Seq<char>, value: i64) -> bool {
    request matches MpvRequest::SetInt { name: n, value: v } && n@ == name && v == value
}

/// The libmpv request that carries out a backend call.
pub open spec fn request_for(call: BackendCall, request: MpvRequest) -> bool {
    match call {
        BackendCall::LoadFile(p) => is_command(request, seq!["loadfile"@, p@, "replace"@]),
        BackendCall::TogglePause => is_command(request, seq!["cycle"@, "pause"@]),
        BackendCall::SeekRelative(s) => is_command(
            request,
            seq!["seek"@, shortest_fixed(s as int), "relative"@],
        ),
        BackendCall::SeekAbsolute(s) => is_command(
            request,
            seq!["seek"@, shortest_fixed(s as int), "absolute"@],
        ),
        BackendCall::SetVolume(v) => is_set_double(request, "volume"@, v),
        BackendCall::SetSubtitleTrack(id) => is_set_int(request, "sid"@, id),
        BackendCall::SetAudioTrack(id) => is_set_int(request, "aid"@, id),
        BackendCall::LoadSubtitle(p) => is_command(request, seq!["sub-add"@, p@]),
        BackendCall::Stop => is_command(request, seq!["stop"@]),
        BackendCall::SetSpeed(s) => is_set_double(request, "speed"@, s),
        BackendCall::SetSubtitleDelay(d) => is_set_double(request, "sub-delay"@, d),
        BackendCall::SetAudioDelay(d) => is_set_double(request, "audio-delay"@, d),
        BackendCall::Screenshot => is_command(request, seq!["screenshot"@, "video"@]),
        BackendCall::SetAbLoopA(Some(p)) => is_set_double(request, "ab-loop-a"@, p),
        BackendCall::SetAbLoopA(None) => is_command(request, seq!["set"@, "ab-loop-a"@, "no"@]),
        BackendCall::SetAbLoopB(Some(p)) => is_set_double(request, "ab-loop-b"@, p),
        BackendCall::SetAbLoopB(None) => is_command(request, seq!["set"@, "ab-loop-b"@, "no"@]),
        BackendCall::SetMute(on) => is_command(
            request,
            seq![
                "set"@,
                "mute"@,
                if on {
                    "yes"@
                } else {
                    "no"@
                },
            ],
        ),
    }
}

/// What each request of the user asks of libmpv: every libmpv request that
/// carries out one of the command's backend calls is the one listed here.
/// Selecting a subtitle sets `sid`, selecting audio sets `aid`, each to the
/// chosen track; the numeric settings set their own property to the value
/// asked for; a mute toggle sets `mute` to the opposite of what libmpv
/// reported (`no` when it was muted); the A-B loop sets point A, then point B;
/// fullscreen and a refresh ask nothing of libmpv.
pub proof fn lemma_command_requests(
    command: AppCommand,
    muted_before: Result<bool, String>,
    i: int,
    r: MpvRequest,
)
    requires
        0 <= i < calls_of(command, muted_before).len(),
        request_for(calls_of(command, muted_before)[i], r),
    ensures
        match command {
            AppCommand::OpenFile(p) => command_words(r) == seq!["loadfile"@, p@, "replace"@],
            AppCommand::TogglePause => command_words(r) == seq!["cycle"@, "pause"@],
            AppCommand::SeekRelative(ms) => command_words(r) == seq![
                "seek"@,
                shortest_fixed(ms as int),
                "relative"@,
            ],
            AppCommand::SeekAbsolute(ms) => command_words(r) == seq![
                "seek"@,
                shortest_fixed(ms as int),
                "absolute"@,
            ],
            AppCommand::SetVolume(v) => r matches MpvRequest::SetDouble { name, milli } && name@
                == "volume"@ && milli == v,
            AppCommand::SelectSubtitle(id) => r matches MpvRequest::SetInt { name, value } && name@ == "sid"@
                && value == id,
            AppCommand::SelectAudio(id) => r matches MpvRequest::SetInt { name, value } && name@ == "aid"@
                && value == id,
            AppCommand::LoadExternalSubtitle(p) => command_words(r) == seq!["sub-add"@, p@],
            AppCommand::Stop => command_words(r) == seq!["stop"@],
            AppCommand::SetSpeed(v) => r matches MpvRequest::SetDouble { name, milli } && name@
                == "speed"@ && milli == v,
            AppCommand::SetSubtitleDelay(v) => r matches MpvRequest::SetDouble { name, milli } && name@
                == "sub-delay"@ && milli == v,
            AppCommand::SetAudioDelay(v) => r matches MpvRequest::SetDouble { name, milli } && name@
                == "audio-delay"@ && milli == v,
            AppCommand::Screenshot => command_words(r) == seq!["screenshot"@, "video"@],
            AppCommand::SetABLoop { a, b } => {
                let (point, pos) = if i == 0 {
                    ("ab-loop-a"@, a)
                } else {
                    ("ab-loop-b"@, b)
                };
                match pos {
                    Some(x) => r matches MpvRequest::SetDouble { name, milli } && name@ == point && milli == x,
                    None => command_words(r) == seq!["set"@, point, "no"@],
                }
            },
            AppCommand::ToggleMute => command_words(r) == seq![
                "set"@,
                "mute"@,
                if muted_before == Ok::<bool, String>(true) {
                    "no"@
                } else {
                    "yes"@
                },
            ],
            AppCommand::SetFullscreen(_) => false,
            AppCommand::RefreshState => false,
        },
        command is SelectSubtitle || command is SelectAudio || command is ToggleMute
            ==> calls_of(command, muted_before).len() == 1,
{
}

/// A request to mute and a request to unmute differ: unmuting sends `no`,
/// muting sends `yes`.
pub proof fn lemma_mute_requests_differ(on: MpvRequest, off: MpvRequest)
    requires
        request_for(BackendCall::SetMute(true), on),
        request_for(BackendCall::SetMute(false), off),
    ensures
        command_words(on) == seq!["set"@, "mute"@, "yes"@],
        command_words(off) == seq!["set"@, "mute"@, "no"@],
        command_words(on) != command_words(off),
{
    reveal_strlit("yes");
    reveal_strlit("no");
    assert("yes"@[0] != "no"@[0]);
    assert(command_words(on)[2] != command_words(off)[2]);
}

/// A command request made of literal words and texts.
fn command_of(words: Vec<String>) -> (r: MpvRequest)
    ensures
        r == MpvRequest::Command(words),
{
    MpvRequest::Command(words)
}

/// The libmpv request that carries out `call`.
pub fn mpv_request(call: &BackendCall) -> (r: MpvRequest)
    ensures
        request_for(*call, r),
{
    let r = match call {
        BackendCall::LoadFile(p) => command_of(vec!["loadfile".to_string(), p.clone(), "replace".to_string()]),
        BackendCall::TogglePause => command_of(vec!["cycle".to_string(), "pause".to_string()]),
        BackendCall::SeekRelative(s) => command_of(
            vec!["seek".to_string(), shortest_fixed_string(*s), "relative".to_string()],
        ),
        BackendCall::SeekAbsolute(s) => command_of(
            vec!["seek".to_string(), shortest_fixed_string(*s), "absolute".to_string()],
        ),
        BackendCall::SetVolume(v) => MpvRequest::SetDouble { name: "volume", milli: *v },
        BackendCall::SetSubtitleTrack(id) => MpvRequest::SetInt { name: "sid", value: *id },
        BackendCall::SetAudioTrack(id) => MpvRequest::SetInt { name: "aid", value: *id },
        BackendCall::LoadSubtitle(p) => command_of(vec!["sub-add".to_string(), p.clone()]),
        BackendCall::Stop => command_of(vec!["stop".to_string()]),
        BackendCall::SetSpeed(s) => MpvRequest::SetDouble { name: "speed", milli: *s },
        BackendCall::SetSubtitleDelay(d) => MpvRequest::SetDouble { name: "sub-delay", milli: *d },
        BackendCall::SetAudioDelay(d) => MpvRequest::SetDouble { name: "audio-delay", milli: *d },
        BackendCall::Screenshot => command_of(vec!["screenshot".to_string(), "video".to_string()]),
        BackendCall::SetAbLoopA(Some(p)) => MpvRequest::SetDouble { name: "ab-loop-a", milli: *p },
        BackendCall::SetAbLoopA(None) => command_of(
            vec!["set".to_string(), "ab-loop-a".to_string(), "no".to_string()],
        ),
        BackendCall::SetAbLoopB(Some(p)) => MpvRequest::SetDouble { name: "ab-loop-b", milli: *p },
        BackendCall::SetAbLoopB(None) => command_of(
            vec!["set".to_string(), "ab-loop-b".to_string(), "no".to_string()],
        ),
        BackendCall::SetMute(on) => {
            let value = if *on {
                "yes"
            } else {
                "no"
            };
            command_of(vec!["set".to_string(), "mute".to_string(), value.to_string()])
        },
    };
    assert(request_for(*call, r)) by {
        match *call {
            BackendCall::LoadFile(p) => {
                assert(command_words(r) =~= seq!["loadfile"@, p@, "replace"@]);
            },
            BackendCall::TogglePause => {
                assert(command_words(r) =~= seq!["cycle"@, "pause"@]);
            },
            BackendCall::SeekRelative(s) => {
                assert(command_words(r) =~= seq!["seek"@, shortest_fixed(s as int), "relative"@]);
            },
            BackendCall::SeekAbsolute(s) => {
                assert(command_words(r) =~= seq!["seek"@, shortest_fixed(s as int), "absolute"@]);
            },
            BackendCall::LoadSubtitle(p) => {
                assert(command_words(r) =~= seq!["sub-add"@, p@]);
            },
            BackendCall::Stop => {
                assert(command_words(r) =~= seq!["stop"@]);
            },
            BackendCall::Screenshot => {
                assert(command_words(r) =~= seq!["screenshot"@, "video"@]);
            },
            BackendCall::SetAbLoopA(None) => {
                assert(command_words(r) =~= seq!["set"@, "ab-loop-a"@, "no"@]);
            },
            BackendCall::SetAbLoopB(None) => {
                assert(command_words(r) =~= seq!["set"@, "ab-loop-b"@, "no"@]);
            },
            BackendCall::SetMute(on) => {
                assert(command_words(r) =~= seq![
                    "set"@,
                    "mute"@,
                    if on {
                        "yes"@
                    } else {
                        "no"@
                    },
                ]);
            },
            _ => {},
        }
    }
    r
}

} // verus!
