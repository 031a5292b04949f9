//! The application state that the user interface shows, and how each event
//! changes it.
use vstd::prelude::*;

use crate::event::AppEvent;
use crate::models::{copy_text, copy_tracks, MediaInfo, MediaSource, Track};

verus! {

/// What the player is doing, as the interface shows it.
///
/// Times are in milliseconds.  Volume is in thousandths of a percent point
/// (full volume is `100_000`, the fraction 0.0-1.0 times `100_000`); speed is
/// in thousandths (`1_000` is normal speed).
#[derive(Debug)]
pub struct PlaybackState {
    pub current_media: Option<MediaSource>,
    pub is_playing: bool,
    pub is_paused: bool,
    pub position_ms: i64,
    pub duration_ms: i64,
    pub volume_milli: i64,
    pub is_muted: bool,
    pub speed_milli: i64,
    pub is_fullscreen: bool,
    pub audio_tracks: Vec<Track>,
    pub subtitle_tracks: Vec<Track>,
    pub active_audio_track: Option<i64>,
    pub active_subtitle_track: Option<i64>,
    pub media_info: MediaInfo,
    pub subtitle_delay_ms: i64,
    pub audio_delay_ms: i64,
    pub ab_loop_a_ms: Option<i64>,
    pub ab_loop_b_ms: Option<i64>,
}

/// The volume the player starts with: fifty percent.
pub const DEFAULT_VOLUME_MILLI: i64 = 50_000;

/// Normal playback speed.
pub const NORMAL_SPEED_MILLI: i64 = 1_000;

impl PlaybackState {
    /// Nothing is loaded and every setting is at its start value, except the
    /// given volume and mute setting.
    pub open spec fn is_idle_with(self, volume_milli: i64, is_muted: bool) -> bool {
        &&& self.current_media is None
        &&& !self.is_playing
        &&& !self.is_paused
        &&& self.position_ms == 0
        &&& self.duration_ms == 0
        &&& self.volume_milli == volume_milli
        &&& self.is_muted == is_muted
        &&& self.speed_milli == NORMAL_SPEED_MILLI
        &&& !self.is_fullscreen
        &&& self.audio_tracks@.len() == 0
        &&& self.subtitle_tracks@.len() == 0
        &&& self.active_audio_track is None
        &&& self.active_subtitle_track is None
        &&& self.media_info == MediaInfo::unknown()
        &&& self.subtitle_delay_ms == 0
        &&& self.audio_delay_ms == 0
        &&& self.ab_loop_a_ms is None
        &&& self.ab_loop_b_ms is None
    }

    /// Playing implies that media is loaded and not paused.
    pub open spec fn playing_consistent(self) -> bool {
        self.is_playing ==> (self.current_media is Some && !self.is_paused)
    }
}

impl Default for PlaybackState {
    fn default() -> (state: Self)
        ensures
            state.is_idle_with(DEFAULT_VOLUME_MILLI, false),
    {
        PlaybackState {
            current_media: None,
            is_playing: false,
            is_paused: false,
            position_ms: 0,
            duration_ms: 0,
            volume_milli: DEFAULT_VOLUME_MILLI,
            is_muted: false,
            speed_milli: NORMAL_SPEED_MILLI,
            is_fullscreen: false,
            audio_tracks: Vec::new(),
            subtitle_tracks: Vec::new(),
            active_audio_track: None,
            active_subtitle_track: None,
            media_info: MediaInfo::default(),
            subtitle_delay_ms: 0,
            audio_delay_ms: 0,
            ab_loop_a_ms: None,
            ab_loop_b_ms: None,
        }
    }
}

/// The identifier of the first selected track of `tracks`.
pub open spec fn first_selected(tracks: Seq<Track>) -> Option<i64>
    decreases tracks.len(),
{
    if tracks.len() == 0 {
        None
    } else if tracks[0].selected {
        Some(tracks[0].id)
    } else {
        first_selected(tracks.drop_first())
    }
}

/// The identifier of the first selected track.
pub fn find_selected(tracks: &Vec<Track>) -> (id: Option<i64>)
    ensures
        id == first_selected(tracks@),
{
    let mut i: usize = 0;
    assert(tracks@.subrange(0, tracks@.len() as int) =~= tracks@);
    while i < tracks.len()
        invariant
            i <= tracks@.len(),
            first_selected(tracks@) == first_selected(tracks@.subrange(i as int, tracks@.len() as int)),
        decreases tracks@.len() - i,
    {
        let ghost rest = tracks@.subrange(i as int, tracks@.len() as int);
        if tracks[i].selected {
            return Some(tracks[i].id);
        }
        assert(rest.drop_first() =~= tracks@.subrange(i + 1, tracks@.len() as int));
        i = i + 1;
    }
    None
}

/// The whole state of the application.
#[derive(Debug)]
pub struct AppState {
    pub playback: PlaybackState,
    pub status_line: String,
    pub last_error: Option<String>,
}

impl AppState {
    /// How `event` turns the state `before` into `after`.
    pub open spec fn event_effect(before: AppState, event: AppEvent, after: AppState) -> bool {
        let p = before.playback;
        match event {
            AppEvent::PlaybackLoaded { media } => {
                &&& after.playback == (PlaybackState {
                    current_media: Some(media),
                    is_playing: true,
                    is_paused: false,
                    media_info: MediaInfo::unknown(),
                    ..p
                })
                &&& after.status_line@ == "已载入 "@ + media.display_name@
                &&& after.last_error is None
            },
            AppEvent::PlaybackUnloaded => {
                &&& after.playback.is_idle_with(p.volume_milli, p.is_muted)
                &&& after.status_line@ == "当前没有正在播放的媒体。"@
                &&& after.last_error is None
            },
            AppEvent::PlaybackPaused(paused) => after == (AppState {
                playback: PlaybackState {
                    is_paused: paused,
                    is_playing: p.current_media is Some && !paused,
                    ..p
                },
                ..before
            }),
            AppEvent::PlaybackEnded => {
                &&& after.playback == (PlaybackState { is_playing: false, is_paused: false, ..p })
                &&& after.status_line@ == "播放完毕。"@
                &&& after.last_error == before.last_error
            },
            AppEvent::PositionUpdated { position_ms, duration_ms } => after == (AppState {
                playback: PlaybackState { position_ms, duration_ms, ..p },
                ..before
            }),
            AppEvent::VolumeUpdated(volume) => after == (AppState {
                playback: PlaybackState { volume_milli: volume, ..p },
                ..before
            }),
            AppEvent::MuteChanged(muted) => after == (AppState {
                playback: PlaybackState { is_muted: muted, ..p },
                ..before
            }),
            AppEvent::FullscreenChanged(fullscreen) => after == (AppState {
                playback: PlaybackState { is_fullscreen: fullscreen, ..p },
                ..before
            }),
            AppEvent::SpeedChanged(speed) => after == (AppState {
                playback: PlaybackState { speed_milli: speed, ..p },
                ..before
            }),
            AppEvent::TracksUpdated { audio, subtitles } => {
                &&& after.playback == (PlaybackState {
                    audio_tracks: after.playback.audio_tracks,
                    subtitle_tracks: after.playback.subtitle_tracks,
                    active_audio_track: first_selected(audio@),
                    active_subtitle_track: first_selected(subtitles@),
                    ..p
                })
                &&& after.playback.audio_tracks@ == audio@
                &&& after.playback.subtitle_tracks@ == subtitles@
                &&& after.status_line == before.status_line
                &&& after.last_error == before.last_error
            },
            AppEvent::MediaInfoAvailable {
                media_title,
                video_codec,
                audio_codec,
                video_width,
                video_height,
            } => after == (AppState {
                playback: PlaybackState {
                    media_info: MediaInfo {
                        media_title,
                        video_codec,
                        audio_codec,
                        video_width,
                        video_height,
                    },
                    ..p
                },
                ..before
            }),
            AppEvent::ScreenshotTaken(path) => {
                &&& after.playback == p
                &&& after.status_line@ == "截图已保存："@ + path@
                &&& after.last_error == before.last_error
            },
            AppEvent::SubtitleDelayChanged(delay) => after == (AppState {
                playback: PlaybackState { subtitle_delay_ms: delay, ..p },
                ..before
            }),
            AppEvent::AudioDelayChanged(delay) => after == (AppState {
                playback: PlaybackState { audio_delay_ms: delay, ..p },
                ..before
            }),
            AppEvent::ABLoopChanged { a, b } => after == (AppState {
                playback: PlaybackState { ab_loop_a_ms: a, ab_loop_b_ms: b, ..p },
                ..before
            }),
            AppEvent::StatusMessage(message) => after == (AppState {
                status_line: message,
                last_error: None,
                ..before
            }),
            AppEvent::Error(message) => after == (AppState {
                status_line: message,
                last_error: Some(message),
                ..before
            }),
        }
    }

    /// Takes in one event.
    pub fn apply_event(&mut self, event: &AppEvent)
        ensures
            AppState::event_effect(*old(self), *event, *final(self)),
    {
        match event {
            AppEvent::PlaybackLoaded { media } => {
                self.playback.current_media = Some(media.clone());
                self.playback.is_playing = true;
                self.playback.is_paused = false;
                self.playback.media_info = MediaInfo::default();
                let mut status = "已载入 ".to_string();
                status.append(media.display_name.as_str());
                self.status_line = status;
                self.last_error = None;
            },
            AppEvent::PlaybackUnloaded => {
                let mut fresh = PlaybackState::default();
                fresh.volume_milli = self.playback.volume_milli;
                fresh.is_muted = self.playback.is_muted;
                fresh.speed_milli = NORMAL_SPEED_MILLI;
                self.playback = fresh;
                self.status_line = "当前没有正在播放的媒体。".to_string();
                self.last_error = None;
            },
            AppEvent::PlaybackPaused(is_paused) => {
                self.playback.is_paused = *is_paused;
                self.playback.is_playing = self.playback.current_media.is_some() && !*is_paused;
            },
            AppEvent::PlaybackEnded => {
                self.playback.is_playing = false;
                self.playback.is_paused = false;
                self.status_line = "播放完毕。".to_string();
            },
            AppEvent::PositionUpdated { position_ms, duration_ms } => {
                self.playback.position_ms = *position_ms;
                self.playback.duration_ms = *duration_ms;
            },
            AppEvent::VolumeUpdated(volume) => {
                self.playback.volume_milli = *volume;
            },
            AppEvent::MuteChanged(is_muted) => {
                self.playback.is_muted = *is_muted;
            },
            AppEvent::FullscreenChanged(is_fullscreen) => {
                self.playback.is_fullscreen = *is_fullscreen;
            },
            AppEvent::SpeedChanged(speed) => {
                self.playback.speed_milli = *speed;
            },
            AppEvent::TracksUpdated { audio, subtitles } => {
                self.playback.audio_tracks = copy_tracks(audio);
                self.playback.subtitle_tracks = copy_tracks(subtitles);
                self.playback.active_audio_track = find_selected(audio);
                self.playback.active_subtitle_track = find_selected(subtitles);
            },
            AppEvent::MediaInfoAvailable {
                media_title,
                video_codec,
                audio_codec,
                video_width,
                video_height,
            } => {
                self.playback.media_info = MediaInfo {
                    media_title: copy_text(media_title),
                    video_codec: copy_text(video_codec),
                    audio_codec: copy_text(audio_codec),
                    video_width: *video_width,
                    video_height: *video_height,
                };
            },
            AppEvent::ScreenshotTaken(path) => {
                let mut status = "截图已保存：".to_string();
                status.append(path.as_str());
                self.status_line = status;
            },
            AppEvent::SubtitleDelayChanged(delay) => {
                self.playback.subtitle_delay_ms = *delay;
            },
            AppEvent::AudioDelayChanged(delay) => {
                self.playback.audio_delay_ms = *delay;
            },
            AppEvent::ABLoopChanged { a, b } => {
                self.playback.ab_loop_a_ms = *a;
                self.playback.ab_loop_b_ms = *b;
            },
            AppEvent::StatusMessage(message) => {
                self.status_line = message.clone();
                self.last_error = None;
            },
            AppEvent::Error(message) => {
                self.status_line = message.clone();
                self.last_error = Some(message.clone());
            },
        }
    }

    /// Takes in a list of events, in order.
    pub fn apply_events(&mut self, events: &Vec<AppEvent>)
        ensures
            AppState::events_effect(*old(self), events@, *final(self)),
    {
        let ghost start = *self;
        let mut i: usize = 0;
        while i < events.len()
            invariant
                i <= events@.len(),
                AppState::events_effect(start, events@.subrange(0, i as int), *self),
            decreases events@.len() - i,
        {
            let ghost mid = *self;
            self.apply_event(&events[i]);
            proof {
                AppState::lemma_events_effect_push(start, events@.subrange(0, i as int), mid, events@[i as int], *self);
                assert(events@.subrange(0, i as int).push(events@[i as int]) =~= events@.subrange(0, i + 1));
            }
            i = i + 1;
        }
        assert(events@.subrange(0, events@.len() as int) =~= events@);
    }

    /// How a list of events, taken in order, turns `before` into `after`.
    pub open spec fn events_effect(before: AppState, events: Seq<AppEvent>, after: AppState) -> bool
        decreases events.len(),
    {
        if events.len() == 0 {
            after == before
        } else {
            exists|mid: AppState|
                AppState::events_effect(before, events.drop_last(), mid)
                    && #[trigger] AppState::event_effect(mid, events.last(), after)
        }
    }

    proof fn lemma_events_effect_push(
        before: AppState,
        events: Seq<AppEvent>,
        mid: AppState,
        event: AppEvent,
        after: AppState,
    )
        requires
            AppState::events_effect(before, events, mid),
            AppState::event_effect(mid, event, after),
        ensures
            AppState::events_effect(before, events.push(event), after),
    {
        let pushed = events.push(event);
        assert(pushed.drop_last() =~= events);
        assert(pushed.last() == event);
        assert(AppState::events_effect(before, pushed.drop_last(), mid));
        assert(AppState::event_effect(mid, pushed.last(), after));
    }
}

impl Default for AppState {
    fn default() -> (state: Self)
        ensures
            state.playback.is_idle_with(DEFAULT_VOLUME_MILLI, false),
            state.status_line@ == "打开一个本地媒体文件开始播放。"@,
            state.last_error is None,
    {
        AppState {
            playback: PlaybackState::default(),
            status_line: "打开一个本地媒体文件开始播放。".to_string(),
            last_error: None,
        }
    }
}

/// Every event keeps "playing" tied to loaded, unpaused media.
pub proof fn lemma_event_keeps_playing_consistent(before: AppState, event: AppEvent, after: AppState)
    requires
        before.playback.playing_consistent(),
        AppState::event_effect(before, event, after),
    ensures
        after.playback.playing_consistent(),
{
}

/// Unloading media keeps the volume and mute setting and resets all else.
pub proof fn lemma_unload_keeps_volume_and_mute(before: AppState, after: AppState)
    requires
        AppState::event_effect(before, AppEvent::PlaybackUnloaded, after),
    ensures
        after.playback.volume_milli == before.playback.volume_milli,
        after.playback.is_muted == before.playback.is_muted,
        after.playback.current_media is None,
        !after.playback.is_playing,
{
}

} // verus!
