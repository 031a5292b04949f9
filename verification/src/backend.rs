//! What the playback backend reports, and the backend's own view of playback.
//!
//! Times are in milliseconds; volume in thousandths of a percent point (full
//! volume is `100_000`), speed in thousandths (`1_000` is normal speed).
use vstd::prelude::*;

use crate::event::AppEvent;
use crate::models::{MediaSource, Track};
use crate::state::{AppState, DEFAULT_VOLUME_MILLI, NORMAL_SPEED_MILLI};

verus! {

/// A change observed in the playback backend.
#[derive(Debug)]
pub enum BackendEvent {
    Loaded(MediaSource),
    Unloaded,
    Ended,
    Error(String),
    PauseChanged(bool),
    PositionChanged { position_ms: i64, duration_ms: i64 },
    VolumeChanged(i64),
    MuteChanged(bool),
    SpeedChanged(i64),
    FullscreenChanged(bool),
    TracksChanged { audio: Vec<Track>, subtitles: Vec<Track> },
    MediaInfoChanged {
        media_title: Option<String>,
        video_codec: Option<String>,
        audio_codec: Option<String>,
        video_width: Option<i64>,
        video_height: Option<i64>,
    },
    ScreenshotTaken(String),
    SubtitleDelayChanged(i64),
    AudioDelayChanged(i64),
    ABLoopChanged { a: Option<i64>, b: Option<i64> },
    Status(String),
}

/// The application event that reports a backend change: each backend change
/// becomes the event of the same meaning, carrying the same values.
pub open spec fn app_event_of(value: BackendEvent) -> AppEvent {
    match value {
        BackendEvent::Loaded(media) => AppEvent::PlaybackLoaded { media },
        BackendEvent::Unloaded => AppEvent::PlaybackUnloaded,
        BackendEvent::Ended => AppEvent::PlaybackEnded,
        BackendEvent::Error(message) => AppEvent::Error(message),
        BackendEvent::PauseChanged(is_paused) => AppEvent::PlaybackPaused(is_paused),
        BackendEvent::PositionChanged { position_ms, duration_ms } => AppEvent::PositionUpdated {
            position_ms,
            duration_ms,
        },
        BackendEvent::VolumeChanged(volume) => AppEvent::VolumeUpdated(volume),
        BackendEvent::MuteChanged(is_muted) => AppEvent::MuteChanged(is_muted),
        BackendEvent::SpeedChanged(speed) => AppEvent::SpeedChanged(speed),
        BackendEvent::FullscreenChanged(is_fullscreen) => AppEvent::FullscreenChanged(is_fullscreen),
        BackendEvent::TracksChanged { audio, subtitles } => AppEvent::TracksUpdated { audio, subtitles },
        BackendEvent::MediaInfoChanged {
            media_title,
            video_codec,
            audio_codec,
            video_width,
            video_height,
        } => AppEvent::MediaInfoAvailable {
            media_title,
            video_codec,
            audio_codec,
            video_width,
            video_height,
        },
        BackendEvent::ScreenshotTaken(path) => AppEvent::ScreenshotTaken(path),
        BackendEvent::SubtitleDelayChanged(delay) => AppEvent::SubtitleDelayChanged(delay),
        BackendEvent::AudioDelayChanged(delay) => AppEvent::AudioDelayChanged(delay),
        BackendEvent::ABLoopChanged { a, b } => AppEvent::ABLoopChanged { a, b },
        BackendEvent::Status(message) => AppEvent::StatusMessage(message),
    }
}

/// A backend change, once turned into an application event and taken in,
/// shows in the application state with the value the backend reported: the
/// pause flag (and playback runs only with media loaded and not paused), the
/// position and duration, volume, mute setting, speed, fullscreen, delays,
/// A-B loop, tracks, media information, the loaded media, an unload, a
/// message or an error.
pub proof fn lemma_backend_changes_reach_state(before: AppState, event: BackendEvent, after: AppState)
    requires
        AppState::event_effect(before, app_event_of(event), after),
    ensures
        event matches BackendEvent::PauseChanged(b) ==> after.playback.is_paused == b
            && after.playback.is_playing == (before.playback.current_media is Some && !b),
        event matches BackendEvent::PositionChanged { position_ms, duration_ms } ==> after.playback.position_ms
            == position_ms && after.playback.duration_ms == duration_ms,
        event matches BackendEvent::VolumeChanged(v) ==> after.playback.volume_milli == v,
        event matches BackendEvent::MuteChanged(m) ==> after.playback.is_muted == m,
        event matches BackendEvent::SpeedChanged(v) ==> after.playback.speed_milli == v,
        event matches BackendEvent::FullscreenChanged(f) ==> after.playback.is_fullscreen == f,
        event matches BackendEvent::SubtitleDelayChanged(d) ==> after.playback.subtitle_delay_ms == d,
        event matches BackendEvent::AudioDelayChanged(d) ==> after.playback.audio_delay_ms == d,
        event matches BackendEvent::ABLoopChanged { a, b } ==> after.playback.ab_loop_a_ms == a
            && after.playback.ab_loop_b_ms == b,
        event matches BackendEvent::TracksChanged { audio, subtitles } ==> after.playback.audio_tracks@
            == audio@ && after.playback.subtitle_tracks@ == subtitles@,
        event matches BackendEvent::MediaInfoChanged {
            media_title,
            video_codec,
            audio_codec,
            video_width,
            video_height,
        } ==> after.playback.media_info.media_title == media_title && after.playback.media_info.video_codec
            == video_codec && after.playback.media_info.audio_codec == audio_codec
            && after.playback.media_info.video_width == video_width && after.playback.media_info.video_height
            == video_height,
        event matches BackendEvent::Loaded(media) ==> after.playback.current_media == Some(media)
            && !after.playback.is_paused,
        event is Unloaded ==> after.playback.current_media is None && after.playback.volume_milli
            == before.playback.volume_milli && after.playback.is_muted == before.playback.is_muted,
        event is Ended ==> !after.playback.is_playing && after.playback.current_media
            == before.playback.current_media,
        event matches BackendEvent::Status(m) ==> after.status_line == m && after.last_error is None,
        event matches BackendEvent::Error(m) ==> after.status_line == m && after.last_error == Some(m),
        event matches BackendEvent::ScreenshotTaken(p) ==> after.playback == before.playback,
{
}

impl From<BackendEvent> for AppEvent {
    fn from(value: BackendEvent) -> (event: Self) {
        match value {
            BackendEvent::Loaded(media) => AppEvent::PlaybackLoaded { media },
            BackendEvent::Unloaded => AppEvent::PlaybackUnloaded,
            BackendEvent::Ended => AppEvent::PlaybackEnded,
            BackendEvent::Error(message) => AppEvent::Error(message),
            BackendEvent::PauseChanged(is_paused) => AppEvent::PlaybackPaused(is_paused),
            BackendEvent::PositionChanged { position_ms, duration_ms } => AppEvent::PositionUpdated {
                position_ms,
                duration_ms,
            },
            BackendEvent::VolumeChanged(volume) => AppEvent::VolumeUpdated(volume),
            BackendEvent::MuteChanged(is_muted) => AppEvent::MuteChanged(is_muted),
            BackendEvent::SpeedChanged(speed) => AppEvent::SpeedChanged(speed),
            BackendEvent::FullscreenChanged(is_fullscreen) => AppEvent::FullscreenChanged(
                is_fullscreen,
            ),
            BackendEvent::TracksChanged { audio, subtitles } => AppEvent::TracksUpdated {
                audio,
                subtitles,
            },
            BackendEvent::MediaInfoChanged {
                media_title,
                video_codec,
                audio_codec,
                video_width,
                video_height,
            } => AppEvent::MediaInfoAvailable {
                media_title,
                video_codec,
                audio_codec,
                video_width,
                video_height,
            },
            BackendEvent::ScreenshotTaken(path) => AppEvent::ScreenshotTaken(path),
            BackendEvent::SubtitleDelayChanged(delay) => AppEvent::SubtitleDelayChanged(delay),
            BackendEvent::AudioDelayChanged(delay) => AppEvent::AudioDelayChanged(delay),
            BackendEvent::ABLoopChanged { a, b } => AppEvent::ABLoopChanged { a, b },
            BackendEvent::Status(message) => AppEvent::StatusMessage(message),
        }
    }
}

impl vstd::std_specs::convert::FromSpecImpl<BackendEvent> for AppEvent {
    open spec fn obeys_from_spec() -> bool {
        true
    }

    open spec fn from_spec(v: BackendEvent) -> AppEvent {
        app_event_of(v)
    }
}

/// The application events that report a list of backend changes, in order.
pub fn app_events_of(events: Vec<BackendEvent>) -> (out: Vec<AppEvent>)
    ensures
        out@.len() == events@.len(),
        forall|i: int| 0 <= i < events@.len() ==> #[trigger] out@[i] == app_event_of(events@[i]),
{
    let mut out: Vec<AppEvent> = Vec::new();
    let mut rest = events;
    let ghost all = rest@;
    // Take the events from the back, then put them in order.
    let mut reversed: Vec<AppEvent> = Vec::new();
    while rest.len() > 0
        invariant
            rest@ == all.subrange(0, all.len() - reversed@.len()),
            reversed@.len() <= all.len(),
            forall|i: int|
                0 <= i < reversed@.len() ==> #[trigger] reversed@[i] == app_event_of(
                    all[all.len() - 1 - i],
                ),
        decreases rest@.len(),
    {
        let last = rest.pop().unwrap();
        reversed.push(AppEvent::from(last));
    }
    while reversed.len() > 0
        invariant
            reversed@.len() + out@.len() == all.len(),
            forall|i: int|
                0 <= i < reversed@.len() ==> #[trigger] reversed@[i] == app_event_of(
                    all[all.len() - 1 - i],
                ),
            forall|i: int| 0 <= i < out@.len() ==> #[trigger] out@[i] == app_event_of(all[i]),
        decreases reversed@.len(),
    {
        let next = reversed.pop().unwrap();
        out.push(next);
    }
    out
}

/// The backend's own account of playback, which it refreshes from the player.
///
/// `loading_started_at_ms` is a reading of a monotonic clock in milliseconds.
#[derive(Debug)]
pub struct BackendPlaybackState {
    pub current_media: Option<MediaSource>,
    pub is_loading_media: bool,
    pub loading_started_at_ms: Option<u64>,
    pub is_playing: bool,
    pub is_paused: bool,
    pub position_ms: i64,
    pub duration_ms: i64,
    pub volume_milli: i64,
    pub is_muted: bool,
    pub speed_milli: i64,
    pub is_fullscreen: bool,
    pub audio_tracks: Vec<Track>,
    pub subtitle_tracks: Vec<Track>,
    pub active_audio_track: Option<i64>,
    pub active_subtitle_track: Option<i64>,
    pub subtitle_delay_ms: i64,
    pub audio_delay_ms: i64,
    pub ab_loop_a_ms: Option<i64>,
    pub ab_loop_b_ms: Option<i64>,
}

impl BackendPlaybackState {
    /// Nothing loaded or loading, and every setting at its start value.
    pub open spec fn is_initial(self) -> bool {
        &&& self.current_media is None
        &&& !self.is_loading_media
        &&& self.loading_started_at_ms is None
        &&& !self.is_playing
        &&& !self.is_paused
        &&& self.position_ms == 0
        &&& self.duration_ms == 0
        &&& self.volume_milli == DEFAULT_VOLUME_MILLI
        &&& !self.is_muted
        &&& self.speed_milli == NORMAL_SPEED_MILLI
        &&& !self.is_fullscreen
        &&& self.audio_tracks@.len() == 0
        &&& self.subtitle_tracks@.len() == 0
        &&& self.active_audio_track is None
        &&& self.active_subtitle_track is None
        &&& self.subtitle_delay_ms == 0
        &&& self.audio_delay_ms == 0
        &&& self.ab_loop_a_ms is None
        &&& self.ab_loop_b_ms is None
    }
}

impl Default for BackendPlaybackState {
    fn default() -> (state: Self)
        ensures
            state.is_initial(),
    {
        BackendPlaybackState {
            current_media: None,
            is_loading_media: false,
            loading_started_at_ms: None,
            is_playing: false,
            is_paused: false,
            position_ms: 0,
            duration_ms: 0,
            volume_milli: DEFAULT_VOLUME_MILLI,
            is_muted: false,
            speed_milli: NORMAL_SPEED_MILLI,
            is_fullscreen: false,
            audio_tracks: Vec::new(),
            subtitle_tracks: Vec::new(),
            active_audio_track: None,
            active_subtitle_track: None,
            subtitle_delay_ms: 0,
            audio_delay_ms: 0,
            ab_loop_a_ms: None,
            ab_loop_b_ms: None,
        }
    }
}

} // verus!
