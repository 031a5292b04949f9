//! The decisions of the playback controller.
//!
//! The controller turns commands into backend calls and turns what the backend
//! reports into events.  The backend itself lives outside this library: the
//! caller makes the calls that [`ControllerCore::backend_calls`] lists, reads the
//! backend, and hands what it read to the functions here.
use vstd::prelude::*;

use crate::backend::{BackendEvent, BackendPlaybackState};
use crate::command::AppCommand;
use crate::event::AppEvent;
use crate::models::{copy_text, copy_tracks, MediaInfo, MediaSource, Track};
use crate::path::{same_path, same_path_text};
use crate::text::{fixed0, fixed1, push_fixed0, push_fixed1, push_signed_decimal, signed_decimal};

verus! {

/// How long a file may take to load before the controller gives up on it.
pub const MEDIA_LOAD_TIMEOUT_MS: u64 = 10_000;

/// What the backend reported when the controller read it.  Each reading may
/// have failed; a failed reading leaves the controller's own value in place.
#[derive(Debug)]
pub struct BackendReadings {
    pub paused: Result<bool, String>,
    pub position_ms: Result<i64, String>,
    pub duration_ms: Result<i64, String>,
    pub volume_milli: Result<i64, String>,
    pub speed_milli: Result<i64, String>,
    pub muted: Result<bool, String>,
    pub tracks: Result<(Vec<Track>, Vec<Track>), String>,
    pub active_audio_track: Result<Option<i64>, String>,
    pub active_subtitle_track: Result<Option<i64>, String>,
}

/// The value read, or `fallback` where the reading failed.
pub open spec fn read_or<T>(reading: Result<T, String>, fallback: T) -> T {
    match reading {
        Ok(v) => v,
        Err(_) => fallback,
    }
}

/// How a refresh treats what the backend reports.
#[derive(Debug, Clone, Copy, PartialEq, Eq, Structural)]
pub enum RefreshCase {
    /// The backend plays the media the controller expects: take its readings.
    Confirmed,
    /// A load took too long: forget the media.
    TimedOut,
    /// A load is still under way: keep the controller's own values.
    StillLoading,
    /// Nothing is loaded and nothing is loading: clear the media.
    Gone,
}

/// Message of a load that failed or was dropped.
pub open spec fn load_failed_text() -> Seq<char> {
    "媒体加载失败或已被卸载。"@
}

/// Whether a load started at least [`MEDIA_LOAD_TIMEOUT_MS`] before `now_ms`.
pub open spec fn load_timed_out(s: BackendPlaybackState, now_ms: u64) -> bool {
    s.is_loading_media && match s.loading_started_at_ms {
        Some(t) => (if now_ms >= t {
            now_ms - t
        } else {
            0
        }) >= MEDIA_LOAD_TIMEOUT_MS,
        None => false,
    }
}

/// Whether the controller waits for a file other than the one at `path`.
pub open spec fn loading_other_media(s: BackendPlaybackState, path: Seq<char>) -> bool {
    s.is_loading_media && match s.current_media {
        Some(m) => !same_path(m.path@, path),
        None => false,
    }
}

/// How a refresh that finds `media_path` in the backend treats it.
pub open spec fn refresh_case(s: BackendPlaybackState, media_path: Option<String>, now_ms: u64) -> RefreshCase {
    match media_path {
        Some(p) => if !loading_other_media(s, p@) {
            RefreshCase::Confirmed
        } else if load_timed_out(s, now_ms) {
            RefreshCase::TimedOut
        } else {
            RefreshCase::StillLoading
        },
        None => if !s.is_loading_media {
            RefreshCase::Gone
        } else if load_timed_out(s, now_ms) {
            RefreshCase::TimedOut
        } else {
            RefreshCase::StillLoading
        },
    }
}

/// Whether a refresh that finds `media_path` announces it as newly loaded.
pub open spec fn announces_load(s: BackendPlaybackState, media_path: Option<String>) -> bool {
    match media_path {
        Some(p) => !loading_other_media(s, p@) && (s.is_loading_media || !match s.current_media {
            Some(m) => same_path(m.path@, p@),
            None => false,
        }),
        None => false,
    }
}

/// Paused state after a refresh.
pub open spec fn refreshed_paused(s: BackendPlaybackState, case: RefreshCase, r: BackendReadings) -> bool {
    match case {
        RefreshCase::Confirmed => read_or(r.paused, s.is_paused),
        RefreshCase::StillLoading => s.is_paused,
        _ => false,
    }
}

/// Position after a refresh.
pub open spec fn refreshed_position(s: BackendPlaybackState, case: RefreshCase, r: BackendReadings) -> i64 {
    match case {
        RefreshCase::Confirmed => read_or(r.position_ms, s.position_ms),
        RefreshCase::StillLoading => s.position_ms,
        _ => 0,
    }
}

/// Duration after a refresh.
pub open spec fn refreshed_duration(s: BackendPlaybackState, case: RefreshCase, r: BackendReadings) -> i64 {
    match case {
        RefreshCase::Confirmed => read_or(r.duration_ms, s.duration_ms),
        RefreshCase::StillLoading => s.duration_ms,
        _ => 0,
    }
}

/// Audio tracks after a refresh.
pub open spec fn refreshed_audio(s: BackendPlaybackState, case: RefreshCase, r: BackendReadings) -> Seq<Track> {
    match case {
        RefreshCase::Confirmed => match r.tracks {
            Ok(t) => t.0@,
            Err(_) => s.audio_tracks@,
        },
        RefreshCase::StillLoading => s.audio_tracks@,
        _ => Seq::empty(),
    }
}

/// Subtitle tracks after a refresh.
pub open spec fn refreshed_subtitles(s: BackendPlaybackState, case: RefreshCase, r: BackendReadings) -> Seq<Track> {
    match case {
        RefreshCase::Confirmed => match r.tracks {
            Ok(t) => t.1@,
            Err(_) => s.subtitle_tracks@,
        },
        RefreshCase::StillLoading => s.subtitle_tracks@,
        _ => Seq::empty(),
    }
}

/// Active audio track after a refresh.
pub open spec fn refreshed_active_audio(s: BackendPlaybackState, case: RefreshCase, r: BackendReadings) -> Option<i64> {
    match case {
        RefreshCase::Confirmed => read_or(r.active_audio_track, s.active_audio_track),
        RefreshCase::StillLoading => s.active_audio_track,
        _ => None,
    }
}

/// Active subtitle track after a refresh.
pub open spec fn refreshed_active_subtitle(s: BackendPlaybackState, case: RefreshCase, r: BackendReadings) -> Option<i64> {
    match case {
        RefreshCase::Confirmed => read_or(r.active_subtitle_track, s.active_subtitle_track),
        RefreshCase::StillLoading => s.active_subtitle_track,
        _ => None,
    }
}

/// `events[start..]` are the seven events that report the state `after`.
pub open spec fn reports_state(events: Seq<BackendEvent>, start: int, after: BackendPlaybackState) -> bool {
    &&& events.len() == start + 7
    &&& events[start] == BackendEvent::PauseChanged(after.is_paused)
    &&& events[start + 1] == (BackendEvent::PositionChanged {
        position_ms: after.position_ms,
        duration_ms: after.duration_ms,
    })
    &&& events[start + 2] == BackendEvent::VolumeChanged(after.volume_milli)
    &&& events[start + 3] == BackendEvent::SpeedChanged(after.speed_milli)
    &&& events[start + 4] == BackendEvent::MuteChanged(after.is_muted)
    &&& events[start + 5] == BackendEvent::FullscreenChanged(after.is_fullscreen)
    &&& events[start + 6] matches BackendEvent::TracksChanged { audio, subtitles }
    &&& events[start + 6]->audio@ == after.audio_tracks@
    &&& events[start + 6]->subtitles@ == after.subtitle_tracks@
}

/// A refresh of `before` that read `media_path`, `r` and `info` at `now_ms`
/// leads to `after` and reports `events`.
pub open spec fn refresh_effect(
    before: BackendPlaybackState,
    media_path: Option<String>,
    r: BackendReadings,
    info: MediaInfo,
    now_ms: u64,
    after: BackendPlaybackState,
    events: Seq<BackendEvent>,
) -> bool {
    let case = refresh_case(before, media_path, now_ms);
    let paused = refreshed_paused(before, case, r);
    &&& match case {
        RefreshCase::Confirmed => {
            &&& after.current_media matches Some(m)
            &&& media_path == Some(after.current_media->0.path)
            &&& after.current_media->0.display_name@ == MediaSource::display_name_of(
                after.current_media->0.path@,
            )
            &&& !after.is_loading_media
            &&& after.loading_started_at_ms is None
        },
        RefreshCase::TimedOut => {
            &&& after.current_media is None
            &&& !after.is_loading_media
            &&& after.loading_started_at_ms is None
        },
        RefreshCase::StillLoading => {
            &&& after.current_media == before.current_media
            &&& after.is_loading_media == before.is_loading_media
            &&& after.loading_started_at_ms == before.loading_started_at_ms
        },
        RefreshCase::Gone => {
            &&& after.current_media is None
            &&& after.is_loading_media == before.is_loading_media
            &&& after.loading_started_at_ms is None
        },
    }
    &&& after.is_paused == paused
    &&& after.is_playing == (after.current_media is Some && !paused)
    &&& after.position_ms == refreshed_position(before, case, r)
    &&& after.duration_ms == refreshed_duration(before, case, r)
    &&& after.volume_milli == read_or(r.volume_milli, before.volume_milli)
    &&& after.speed_milli == read_or(r.speed_milli, before.speed_milli)
    &&& after.is_muted == read_or(r.muted, before.is_muted)
    &&& after.is_fullscreen == before.is_fullscreen
    &&& after.audio_tracks@ == refreshed_audio(before, case, r)
    &&& after.subtitle_tracks@ == refreshed_subtitles(before, case, r)
    &&& after.active_audio_track == refreshed_active_audio(before, case, r)
    &&& after.active_subtitle_track == refreshed_active_subtitle(before, case, r)
    &&& after.subtitle_delay_ms == before.subtitle_delay_ms
    &&& after.audio_delay_ms == before.audio_delay_ms
    &&& after.ab_loop_a_ms == before.ab_loop_a_ms
    &&& after.ab_loop_b_ms == before.ab_loop_b_ms
    &&& if case == RefreshCase::Confirmed && announces_load(before, media_path) {
        &&& events[0] == BackendEvent::Loaded(after.current_media->0)
        &&& events[1] == (BackendEvent::MediaInfoChanged {
            media_title: info.media_title,
            video_codec: info.video_codec,
            audio_codec: info.audio_codec,
            video_width: info.video_width,
            video_height: info.video_height,
        })
        &&& reports_state(events, 2, after)
    } else if case == RefreshCase::TimedOut {
        &&& events[0] == BackendEvent::Unloaded
        &&& events[1] matches BackendEvent::Error(m)
        &&& events[1]->Error_0@ == load_failed_text()
        &&& reports_state(events, 2, after)
    } else if case == RefreshCase::Gone && before.current_media is Some {
        &&& events[0] == BackendEvent::Unloaded
        &&& reports_state(events, 1, after)
    } else {
        reports_state(events, 0, after)
    }
}


/// A load that libmpv then reports playing the same file is confirmed: the
/// file is the current media, no load is pending any more, and the refresh
/// announces it as loaded, with its media information, before anything else.
pub proof fn lemma_confirmed_load_is_announced(
    s0: BackendPlaybackState,
    path: String,
    started_ms: u64,
    s1: BackendPlaybackState,
    reported: String,
    r: BackendReadings,
    info: MediaInfo,
    now_ms: u64,
    s2: BackendPlaybackState,
    events: Seq<BackendEvent>,
)
    requires
        load_started(s0, path, started_ms, s1),
        same_path(path@, reported@),
        refresh_effect(s1, Some(reported), r, info, now_ms, s2, events),
    ensures
        s2.current_media matches Some(m) && m.path == reported,
        !s2.is_loading_media,
        events[0] == BackendEvent::Loaded(s2.current_media->0),
        events[1] == (BackendEvent::MediaInfoChanged {
            media_title: info.media_title,
            video_codec: info.video_codec,
            audio_codec: info.audio_codec,
            video_width: info.video_width,
            video_height: info.video_height,
        }),
{
    assert(!loading_other_media(s1, reported@));
    assert(refresh_case(s1, Some(reported), now_ms) == RefreshCase::Confirmed);
    assert(announces_load(s1, Some(reported)));
}

/// A load that libmpv has not confirmed after [`MEDIA_LOAD_TIMEOUT_MS`] is
/// given up: the media is dropped, and the refresh reports it unloaded, then
/// the failure.  Before that time the load goes on untouched.
pub proof fn lemma_unconfirmed_load_times_out(
    s0: BackendPlaybackState,
    path: String,
    started_ms: u64,
    s1: BackendPlaybackState,
    r: BackendReadings,
    info: MediaInfo,
    now_ms: u64,
    s2: BackendPlaybackState,
    events: Seq<BackendEvent>,
)
    requires
        load_started(s0, path, started_ms, s1),
        refresh_effect(s1, None, r, info, now_ms, s2, events),
    ensures
        now_ms >= started_ms + MEDIA_LOAD_TIMEOUT_MS ==> {
            &&& s2.current_media is None
            &&& !s2.is_loading_media
            &&& events[0] == BackendEvent::Unloaded
            &&& events[1] matches BackendEvent::Error(m) && m@ == load_failed_text()
        },
        now_ms < started_ms + MEDIA_LOAD_TIMEOUT_MS ==> {
            &&& s2.current_media == s1.current_media
            &&& s2.is_loading_media
            &&& s2.loading_started_at_ms == Some(started_ms)
        },
{
    if now_ms >= started_ms + MEDIA_LOAD_TIMEOUT_MS {
        assert(load_timed_out(s1, now_ms));
        assert(refresh_case(s1, None, now_ms) == RefreshCase::TimedOut);
    } else {
        assert(!load_timed_out(s1, now_ms));
        assert(refresh_case(s1, None, now_ms) == RefreshCase::StillLoading);
    }
}

/// A refresh that finds libmpv playing the media the controller expects (none
/// loading, or the loading one) takes every reading that succeeded: the state
/// it leaves holds the paused flag, position, duration, volume, speed, mute
/// setting, tracks and active tracks libmpv reported, playback runs exactly
/// when media is loaded and not paused, and the seven closing events report
/// those values.  A reading that failed keeps the controller's own value.
pub proof fn lemma_refresh_takes_readings(
    before: BackendPlaybackState,
    path: String,
    r: BackendReadings,
    info: MediaInfo,
    now_ms: u64,
    after: BackendPlaybackState,
    events: Seq<BackendEvent>,
)
    requires
        refresh_effect(before, Some(path), r, info, now_ms, after, events),
        !before.is_loading_media || (before.current_media matches Some(m) && same_path(m.path@, path@)),
    ensures
        after.current_media matches Some(m) && m.path == path,
        !after.is_loading_media,
        r.paused matches Ok(b) ==> after.is_paused == b && after.is_playing == !b,
        r.paused is Err ==> after.is_paused == before.is_paused,
        r.position_ms matches Ok(x) ==> after.position_ms == x,
        r.duration_ms matches Ok(x) ==> after.duration_ms == x,
        r.volume_milli matches Ok(x) ==> after.volume_milli == x,
        r.volume_milli is Err ==> after.volume_milli == before.volume_milli,
        r.speed_milli matches Ok(x) ==> after.speed_milli == x,
        r.muted matches Ok(b) ==> after.is_muted == b,
        r.tracks matches Ok(t) ==> after.audio_tracks@ == t.0@ && after.subtitle_tracks@ == t.1@,
        r.active_audio_track matches Ok(x) ==> after.active_audio_track == x,
        r.active_subtitle_track matches Ok(x) ==> after.active_subtitle_track == x,
        events.len() >= 7,
        r.paused matches Ok(b) ==> events[events.len() - 7] == BackendEvent::PauseChanged(b),
        r.position_ms matches Ok(x) ==> events[events.len() - 6] matches BackendEvent::PositionChanged {
            position_ms,
            ..
        } && position_ms == x,
        r.volume_milli matches Ok(x) ==> events[events.len() - 5] == BackendEvent::VolumeChanged(x),
        r.speed_milli matches Ok(x) ==> events[events.len() - 4] == BackendEvent::SpeedChanged(x),
        r.muted matches Ok(b) ==> events[events.len() - 3] == BackendEvent::MuteChanged(b),
        events[events.len() - 2] == BackendEvent::FullscreenChanged(before.is_fullscreen),
{
    assert(!loading_other_media(before, path@));
    assert(refresh_case(before, Some(path), now_ms) == RefreshCase::Confirmed);
    if announces_load(before, Some(path)) {
        assert(reports_state(events, 2, after));
    } else {
        assert(reports_state(events, 0, after));
    }
}

/// Which requests wait for loaded media: the ones that act on the media being
/// played (pause, seeks, track choices, an external subtitle, delays, a
/// screenshot, the A-B loop) do, and they run only once the media is loaded
/// and done loading; opening, stopping, the volume, speed, mute and fullscreen
/// settings and a refresh do not.
pub proof fn lemma_media_bound_requests(command: AppCommand, s: BackendPlaybackState)
    ensures
        (media_error(s) is None) == (s.current_media is Some && !s.is_loading_media),
        command is OpenFile || command is Stop || command is SetVolume || command is SetSpeed
            || command is ToggleMute || command is SetFullscreen || command is RefreshState ==> !needs_media(
            command,
        ),
        command is TogglePause || command is SeekRelative || command is SeekAbsolute
            || command is SelectSubtitle || command is SelectAudio || command is LoadExternalSubtitle
            || command is SetSubtitleDelay || command is SetAudioDelay || command is Screenshot
            || command is SetABLoop ==> needs_media(command),
{
}

/// A call that the controller makes on the backend.
#[derive(Debug)]
pub enum BackendCall {
    LoadFile(String),
    TogglePause,
    SeekRelative(i64),
    SeekAbsolute(i64),
    SetVolume(i64),
    SetSubtitleTrack(i64),
    SetAudioTrack(i64),
    LoadSubtitle(String),
    Stop,
    SetSpeed(i64),
    SetSubtitleDelay(i64),
    SetAudioDelay(i64),
    Screenshot,
    SetAbLoopA(Option<i64>),
    SetAbLoopB(Option<i64>),
    SetMute(bool),
}

/// Whether a command only makes sense with media loaded.
pub open spec fn needs_media(command: AppCommand) -> bool {
    match command {
        AppCommand::TogglePause | AppCommand::SeekRelative(_) | AppCommand::SeekAbsolute(_)
        | AppCommand::SelectSubtitle(_) | AppCommand::SelectAudio(_)
        | AppCommand::LoadExternalSubtitle(_) | AppCommand::SetSubtitleDelay(_)
        | AppCommand::SetAudioDelay(_) | AppCommand::Screenshot | AppCommand::SetABLoop {
            ..
        } => true,
        _ => false,
    }
}

/// Why media-bound commands cannot run now, if they cannot.
pub open spec fn media_error(s: BackendPlaybackState) -> Option<Seq<char>> {
    if s.current_media is None {
        Some("请先打开一个本地媒体文件。"@)
    } else if s.is_loading_media {
        Some("请等待媒体加载完成。"@)
    } else {
        None
    }
}

/// The mute setting that toggling sets, given the mute setting read before.
pub open spec fn mute_target(muted_before: Result<bool, String>) -> bool {
    !read_or(muted_before, false)
}

/// The backend calls a command makes, in order.
pub open spec fn calls_of(command: AppCommand, muted_before: Result<bool, String>) -> Seq<BackendCall> {
    match command {
        AppCommand::OpenFile(p) => seq![BackendCall::LoadFile(p)],
        AppCommand::TogglePause => seq![BackendCall::TogglePause],
        AppCommand::SeekRelative(s) => seq![BackendCall::SeekRelative(s)],
        AppCommand::SeekAbsolute(s) => seq![BackendCall::SeekAbsolute(s)],
        AppCommand::SetVolume(v) => seq![BackendCall::SetVolume(v)],
        AppCommand::SelectSubtitle(id) => seq![BackendCall::SetSubtitleTrack(id)],
        AppCommand::SelectAudio(id) => seq![BackendCall::SetAudioTrack(id)],
        AppCommand::SetFullscreen(_) => Seq::empty(),
        AppCommand::LoadExternalSubtitle(p) => seq![BackendCall::LoadSubtitle(p)],
        AppCommand::Stop => seq![BackendCall::Stop],
        AppCommand::RefreshState => Seq::empty(),
        AppCommand::SetSpeed(s) => seq![BackendCall::SetSpeed(s)],
        AppCommand::SetSubtitleDelay(d) => seq![BackendCall::SetSubtitleDelay(d)],
        AppCommand::SetAudioDelay(d) => seq![BackendCall::SetAudioDelay(d)],
        AppCommand::Screenshot => seq![BackendCall::Screenshot],
        AppCommand::SetABLoop { a, b } => seq![BackendCall::SetAbLoopA(a), BackendCall::SetAbLoopB(b)],
        AppCommand::ToggleMute => seq![BackendCall::SetMute(mute_target(muted_before))],
    }
}

/// `e` is a status event with text `text`.
pub open spec fn is_status(e: BackendEvent, text: Seq<char>) -> bool {
    e matches BackendEvent::Status(m) && m@ == text
}

/// `after` is `before` with `path` loading since `now_ms` and the playback of
/// the previous media cleared.
pub open spec fn load_started(
    before: BackendPlaybackState,
    path: String,
    now_ms: u64,
    after: BackendPlaybackState,
) -> bool {
    &&& after.current_media matches Some(m)
    &&& after.current_media->0.path == path
    &&& after.current_media->0.display_name@ == MediaSource::display_name_of(path@)
    &&& after.is_loading_media
    &&& after.loading_started_at_ms == Some(now_ms)
    &&& cleared_playback(before, after)
}

/// `after` is `before` with the playback position, tracks and play state
/// cleared and every setting kept.
pub open spec fn cleared_playback(before: BackendPlaybackState, after: BackendPlaybackState) -> bool {
    &&& !after.is_playing
    &&& !after.is_paused
    &&& after.position_ms == 0
    &&& after.duration_ms == 0
    &&& after.audio_tracks@.len() == 0
    &&& after.subtitle_tracks@.len() == 0
    &&& after.active_audio_track is None
    &&& after.active_subtitle_track is None
    &&& after.volume_milli == before.volume_milli
    &&& after.is_muted == before.is_muted
    &&& after.speed_milli == before.speed_milli
    &&& after.is_fullscreen == before.is_fullscreen
    &&& after.subtitle_delay_ms == before.subtitle_delay_ms
    &&& after.audio_delay_ms == before.audio_delay_ms
    &&& after.ab_loop_a_ms == before.ab_loop_a_ms
    &&& after.ab_loop_b_ms == before.ab_loop_b_ms
}

/// The events that report the start of a load of `media`.
pub open spec fn load_events(events: Seq<BackendEvent>, media: MediaSource) -> bool {
    &&& events.len() == 5
    &&& events[0] == BackendEvent::Unloaded
    &&& events[1] == BackendEvent::PauseChanged(false)
    &&& events[2] == (BackendEvent::PositionChanged { position_ms: 0, duration_ms: 0 })
    &&& events[3] matches BackendEvent::TracksChanged { audio, subtitles }
    &&& events[3]->audio@.len() == 0
    &&& events[3]->subtitles@.len() == 0
    &&& is_status(events[4], "正在加载 "@ + media.display_name@)
}

/// The status text of the A-B loop points `a` and `b`.
pub open spec fn ab_loop_text(a: Option<i64>, b: Option<i64>) -> Seq<char> {
    match (a, b) {
        (Some(a), Some(b)) => "A-B 循环: "@ + fixed1(a as int) + "s - "@ + fixed1(b as int) + "s"@,
        (Some(a), None) => "A-B 循环: A="@ + fixed1(a as int) + "s (等待 B 点)"@,
        _ => "A-B 循环已清除。"@,
    }
}

/// Number of events a refreshing command adds after the refresh.
pub open spec fn tail_len(command: AppCommand) -> int {
    match command {
        AppCommand::RefreshState | AppCommand::OpenFile(_) | AppCommand::Stop => 0,
        AppCommand::SetSpeed(_) | AppCommand::SetSubtitleDelay(_) | AppCommand::SetAudioDelay(_)
        | AppCommand::SetABLoop { .. } | AppCommand::ToggleMute => 2,
        _ => 1,
    }
}

/// The events a command adds after the refresh that left the state `after`.
pub open spec fn tail_events(
    command: AppCommand,
    after: BackendPlaybackState,
    paused_after: Result<bool, String>,
    muted_before: Result<bool, String>,
    tail: Seq<BackendEvent>,
) -> bool {
    &&& tail.len() == tail_len(command)
    &&& match command {
        AppCommand::TogglePause => is_status(
            tail[0],
            if read_or(paused_after, false) {
                "已暂停（libmpv）"@
            } else {
                "已继续（libmpv）"@
            },
        ),
        AppCommand::SeekRelative(s) => is_status(tail[0], "跳转 "@ + fixed0(s as int) + " 秒（libmpv）。"@),
        AppCommand::SeekAbsolute(s) => is_status(tail[0], "跳转到 "@ + fixed0(s as int) + " 秒。"@),
        AppCommand::SetVolume(_) => is_status(tail[0], "音量 "@ + fixed0(after.volume_milli as int) + "%"@),
        AppCommand::SelectSubtitle(id) => is_status(tail[0], "已切换字幕轨 "@ + signed_decimal(id as int)),
        AppCommand::SelectAudio(id) => is_status(tail[0], "已切换音轨 "@ + signed_decimal(id as int)),
        AppCommand::SetFullscreen(on) => is_status(
            tail[0],
            if on {
                "已进入全屏"@
            } else {
                "已退出全屏"@
            },
        ),
        AppCommand::LoadExternalSubtitle(p) => is_status(tail[0], "已加载外挂字幕："@ + p@),
        AppCommand::SetSpeed(s) => {
            &&& tail[0] == BackendEvent::SpeedChanged(s)
            &&& is_status(tail[1], fixed1(s as int) + "x 倍速"@)
        },
        AppCommand::SetSubtitleDelay(d) => {
            &&& tail[0] == BackendEvent::SubtitleDelayChanged(d)
            &&& is_status(tail[1], "字幕延迟 "@ + fixed1(d as int) + "s"@)
        },
        AppCommand::SetAudioDelay(d) => {
            &&& tail[0] == BackendEvent::AudioDelayChanged(d)
            &&& is_status(tail[1], "音频延迟 "@ + fixed1(d as int) + "s"@)
        },
        AppCommand::Screenshot => is_status(tail[0], "截图已保存。"@),
        AppCommand::SetABLoop { a, b } => {
            &&& tail[0] == (BackendEvent::ABLoopChanged { a, b })
            &&& is_status(tail[1], ab_loop_text(a, b))
        },
        AppCommand::ToggleMute => {
            &&& tail[0] == BackendEvent::MuteChanged(mute_target(muted_before))
            &&& is_status(
                tail[1],
                if mute_target(muted_before) {
                    "已静音"@
                } else {
                    "已取消静音"@
                },
            )
        },
        _ => true,
    }
}

/// The error that ends a command after its backend calls succeeded, if any:
/// a failed read of the pause state after toggling it, or a failed read of
/// the media path.
pub open spec fn finish_error(
    command: AppCommand,
    paused_after: Result<bool, String>,
    media_path: Result<Option<String>, String>,
) -> Option<String> {
    if command is TogglePause && paused_after is Err {
        Some(paused_after->Err_0)
    } else if media_path is Err {
        Some(media_path->Err_0)
    } else {
        None
    }
}

/// Whether a state refresh finds nothing to do: nothing loaded, nothing
/// loading, and no media in the backend.
pub open spec fn skips_refresh(
    s: BackendPlaybackState,
    command: AppCommand,
    media_path: Result<Option<String>, String>,
) -> bool {
    command is RefreshState && s.current_media is None && !s.is_loading_media && media_path
        == Ok::<Option<String>, String>(None)
}

/// The controller's decision state: its account of playback, and why the
/// backend is missing if it is.
#[derive(Debug)]
pub struct ControllerCore {
    pub state: BackendPlaybackState,
    pub backend_error: Option<String>,
}

impl ControllerCore {
    /// A controller over a backend that started, or that failed to start with
    /// `backend_error`.
    pub fn new(backend_error: Option<String>) -> (core: Self)
        ensures
            core.state.is_initial(),
            core.backend_error == backend_error,
    {
        ControllerCore { state: BackendPlaybackState::default(), backend_error }
    }

    /// Refuses media-bound commands while no media is ready.
    pub fn require_media(&self) -> (r: Result<(), String>)
        ensures
            match r {
                Ok(()) => media_error(self.state) is None,
                Err(e) => media_error(self.state) == Some(e@),
            },
    {
        if self.state.current_media.is_none() {
            proof {
                reveal_strlit("请先打开一个本地媒体文件。");
            }
            Err("请先打开一个本地媒体文件。".to_string())
        } else if self.state.is_loading_media {
            proof {
                reveal_strlit("请等待媒体加载完成。");
            }
            Err("请等待媒体加载完成。".to_string())
        } else {
            Ok(())
        }
    }

    /// Decides whether `command` may run.  A fullscreen request records the
    /// new setting first, whatever follows.
    pub fn accept_command(&mut self, command: &AppCommand) -> (r: Result<(), String>)
        ensures
            final(self).backend_error == old(self).backend_error,
            final(self).state == match *command {
                AppCommand::SetFullscreen(on) => BackendPlaybackState { is_fullscreen: on, ..old(self).state },
                _ => old(self).state,
            },
            match r {
                Ok(()) => !(needs_media(*command) && media_error(old(self).state) is Some)
                    && old(self).backend_error is None,
                Err(e) => if needs_media(*command) && media_error(old(self).state) is Some {
                    Some(e@) == media_error(old(self).state)
                } else {
                    old(self).backend_error == Some(e)
                },
            },
    {
        if let AppCommand::SetFullscreen(on) = command {
            self.state.is_fullscreen = *on;
        }
        let media_bound = match command {
            AppCommand::TogglePause | AppCommand::SeekRelative(_) | AppCommand::SeekAbsolute(_)
            | AppCommand::SelectSubtitle(_) | AppCommand::SelectAudio(_)
            | AppCommand::LoadExternalSubtitle(_) | AppCommand::SetSubtitleDelay(_)
            | AppCommand::SetAudioDelay(_) | AppCommand::Screenshot | AppCommand::SetABLoop {
                ..
            } => true,
            _ => false,
        };
        if media_bound {
            if let Err(e) = self.require_media() {
                return Err(e);
            }
        }
        match &self.backend_error {
            Some(e) => Err(e.clone()),
            None => Ok(()),
        }
    }

    /// Whether `command` reads the mute setting before its calls.
    pub fn reads_mute_first(command: &AppCommand) -> (r: bool)
        ensures
            r == (*command is ToggleMute),
    {
        matches!(command, AppCommand::ToggleMute)
    }

    /// The backend calls `command` makes, in order.
    pub fn backend_calls(command: &AppCommand, muted_before: &Result<bool, String>) -> (calls: Vec<
        BackendCall,
    >)
        ensures
            calls@ == calls_of(*command, *muted_before),
    {
        let calls = match command {
            AppCommand::OpenFile(p) => vec![BackendCall::LoadFile(p.clone())],
            AppCommand::TogglePause => vec![BackendCall::TogglePause],
            AppCommand::SeekRelative(s) => vec![BackendCall::SeekRelative(*s)],
            AppCommand::SeekAbsolute(s) => vec![BackendCall::SeekAbsolute(*s)],
            AppCommand::SetVolume(v) => vec![BackendCall::SetVolume(*v)],
            AppCommand::SelectSubtitle(id) => vec![BackendCall::SetSubtitleTrack(*id)],
            AppCommand::SelectAudio(id) => vec![BackendCall::SetAudioTrack(*id)],
            AppCommand::SetFullscreen(_) => Vec::new(),
            AppCommand::LoadExternalSubtitle(p) => vec![BackendCall::LoadSubtitle(p.clone())],
            AppCommand::Stop => vec![BackendCall::Stop],
            AppCommand::RefreshState => Vec::new(),
            AppCommand::SetSpeed(s) => vec![BackendCall::SetSpeed(*s)],
            AppCommand::SetSubtitleDelay(d) => vec![BackendCall::SetSubtitleDelay(*d)],
            AppCommand::SetAudioDelay(d) => vec![BackendCall::SetAudioDelay(*d)],
            AppCommand::Screenshot => vec![BackendCall::Screenshot],
            AppCommand::SetABLoop { a, b } => vec![
                BackendCall::SetAbLoopA(*a),
                BackendCall::SetAbLoopB(*b),
            ],
            AppCommand::ToggleMute => {
                let muted = match muted_before {
                    Ok(m) => *m,
                    Err(_) => false,
                };
                vec![BackendCall::SetMute(!muted)]
            },
        };
        assert(calls@ =~= calls_of(*command, *muted_before));
        calls
    }

    /// Clears the playback of the current media, keeping every setting.
    fn clear_playback(&mut self)
        ensures
            cleared_playback(old(self).state, final(self).state),
            final(self).state.current_media == old(self).state.current_media,
            final(self).state.is_loading_media == old(self).state.is_loading_media,
            final(self).state.loading_started_at_ms == old(self).state.loading_started_at_ms,
            final(self).backend_error == old(self).backend_error,
    {
        self.state.is_playing = false;
        self.state.is_paused = false;
        self.state.position_ms = 0;
        self.state.duration_ms = 0;
        self.state.audio_tracks = Vec::new();
        self.state.subtitle_tracks = Vec::new();
        self.state.active_audio_track = None;
        self.state.active_subtitle_track = None;
    }

    /// Records what the backend calls of `command` changed, after they all
    /// succeeded.  A load or a stop ends here, with the events it reports;
    /// every other command goes on to a refresh.
    pub fn commit(&mut self, command: &AppCommand, muted_before: &Result<bool, String>, now_ms: u64) -> (done:
        Option<Vec<BackendEvent>>)
        ensures
            final(self).backend_error == old(self).backend_error,
            match *command {
                AppCommand::OpenFile(p) => {
                    &&& done matches Some(events)
                    &&& load_started(old(self).state, p, now_ms, final(self).state)
                    &&& load_events(done->0@, final(self).state.current_media->0)
                },
                AppCommand::Stop => {
                    &&& done matches Some(events)
                    &&& final(self).state.current_media is None
                    &&& !final(self).state.is_loading_media
                    &&& final(self).state.loading_started_at_ms is None
                    &&& cleared_playback(old(self).state, final(self).state)
                    &&& done->0@.len() == 2
                    &&& done->0@[0] == BackendEvent::Unloaded
                    &&& is_status(done->0@[1], "播放已停止。"@)
                },
                AppCommand::SetSpeed(s) => done is None && final(self).state == (BackendPlaybackState {
                    speed_milli: s,
                    ..old(self).state
                }),
                AppCommand::SetSubtitleDelay(d) => done is None && final(self).state == (
                BackendPlaybackState { subtitle_delay_ms: d, ..old(self).state }),
                AppCommand::SetAudioDelay(d) => done is None && final(self).state == (BackendPlaybackState {
                    audio_delay_ms: d,
                    ..old(self).state
                }),
                AppCommand::SetABLoop { a, b } => done is None && final(self).state == (
                BackendPlaybackState { ab_loop_a_ms: a, ab_loop_b_ms: b, ..old(self).state }),
                AppCommand::ToggleMute => done is None && final(self).state == (BackendPlaybackState {
                    is_muted: mute_target(*muted_before),
                    ..old(self).state
                }),
                _ => done is None && final(self).state == old(self).state,
            },
    {
        match command {
            AppCommand::OpenFile(path) => {
                let media = MediaSource::from_path(path.clone());
                let mut status = "正在加载 ".to_string();
                status.append(media.display_name.as_str());
                self.state.current_media = Some(media);
                self.state.is_loading_media = true;
                self.state.loading_started_at_ms = Some(now_ms);
                self.clear_playback();
                let events = vec![
                    BackendEvent::Unloaded,
                    BackendEvent::PauseChanged(false),
                    BackendEvent::PositionChanged { position_ms: 0, duration_ms: 0 },
                    BackendEvent::TracksChanged { audio: Vec::new(), subtitles: Vec::new() },
                    BackendEvent::Status(status),
                ];
                Some(events)
            },
            AppCommand::Stop => {
                self.state.current_media = None;
                self.state.is_loading_media = false;
                self.state.loading_started_at_ms = None;
                self.clear_playback();
                proof {
                    reveal_strlit("播放已停止。");
                }
                Some(vec![BackendEvent::Unloaded, BackendEvent::Status("播放已停止。".to_string())])
            },
            AppCommand::SetSpeed(s) => {
                self.state.speed_milli = *s;
                None
            },
            AppCommand::SetSubtitleDelay(d) => {
                self.state.subtitle_delay_ms = *d;
                None
            },
            AppCommand::SetAudioDelay(d) => {
                self.state.audio_delay_ms = *d;
                None
            },
            AppCommand::SetABLoop { a, b } => {
                self.state.ab_loop_a_ms = *a;
                self.state.ab_loop_b_ms = *b;
                None
            },
            AppCommand::ToggleMute => {
                let muted = match muted_before {
                    Ok(m) => *m,
                    Err(_) => false,
                };
                self.state.is_muted = !muted;
                None
            },
            _ => None,
        }
    }

    /// The events a command adds after its refresh.
    fn command_tail(
        &self,
        command: &AppCommand,
        paused_after: &Result<bool, String>,
        muted_before: &Result<bool, String>,
    ) -> (tail: Vec<BackendEvent>)
        ensures
            tail_events(*command, self.state, *paused_after, *muted_before, tail@),
    {
        let mut tail: Vec<BackendEvent> = Vec::new();
        match command {
            AppCommand::TogglePause => {
                let paused = match paused_after {
                    Ok(p) => *p,
                    Err(_) => false,
                };
                proof {
                    reveal_strlit("已暂停（libmpv）");
                    reveal_strlit("已继续（libmpv）");
                }
                let text = if paused {
                    "已暂停（libmpv）"
                } else {
                    "已继续（libmpv）"
                };
                tail.push(BackendEvent::Status(text.to_string()));
            },
            AppCommand::SeekRelative(s) => {
                let mut text = "跳转 ".to_string();
                push_fixed0(&mut text, *s);
                text.append(" 秒（libmpv）。");
                tail.push(BackendEvent::Status(text));
            },
            AppCommand::SeekAbsolute(s) => {
                let mut text = "跳转到 ".to_string();
                push_fixed0(&mut text, *s);
                text.append(" 秒。");
                tail.push(BackendEvent::Status(text));
            },
            AppCommand::SetVolume(_) => {
                let mut text = "音量 ".to_string();
                push_fixed0(&mut text, self.state.volume_milli);
                text.append("%");
                tail.push(BackendEvent::Status(text));
            },
            AppCommand::SelectSubtitle(id) => {
                let mut text = "已切换字幕轨 ".to_string();
                push_signed_decimal(&mut text, *id);
                tail.push(BackendEvent::Status(text));
            },
            AppCommand::SelectAudio(id) => {
                let mut text = "已切换音轨 ".to_string();
                push_signed_decimal(&mut text, *id);
                tail.push(BackendEvent::Status(text));
            },
            AppCommand::SetFullscreen(on) => {
                let text = if *on {
                    "已进入全屏"
                } else {
                    "已退出全屏"
                };
                tail.push(BackendEvent::Status(text.to_string()));
            },
            AppCommand::LoadExternalSubtitle(p) => {
                let mut text = "已加载外挂字幕：".to_string();
                text.append(p.as_str());
                tail.push(BackendEvent::Status(text));
            },
            AppCommand::SetSpeed(s) => {
                tail.push(BackendEvent::SpeedChanged(*s));
                let mut text = String::new();
                push_fixed1(&mut text, *s);
                text.append("x 倍速");
                tail.push(BackendEvent::Status(text));
            },
            AppCommand::SetSubtitleDelay(d) => {
                tail.push(BackendEvent::SubtitleDelayChanged(*d));
                let mut text = "字幕延迟 ".to_string();
                push_fixed1(&mut text, *d);
                text.append("s");
                tail.push(BackendEvent::Status(text));
            },
            AppCommand::SetAudioDelay(d) => {
                tail.push(BackendEvent::AudioDelayChanged(*d));
                let mut text = "音频延迟 ".to_string();
                push_fixed1(&mut text, *d);
                text.append("s");
                tail.push(BackendEvent::Status(text));
            },
            AppCommand::Screenshot => {
                tail.push(BackendEvent::Status("截图已保存。".to_string()));
            },
            AppCommand::SetABLoop { a, b } => {
                tail.push(BackendEvent::ABLoopChanged { a: *a, b: *b });
                let text = match (a, b) {
                    (Some(a), Some(b)) => {
                        let mut text = "A-B 循环: ".to_string();
                        push_fixed1(&mut text, *a);
                        text.append("s - ");
                        push_fixed1(&mut text, *b);
                        text.append("s");
                        text
                    },
                    (Some(a), None) => {
                        let mut text = "A-B 循环: A=".to_string();
                        push_fixed1(&mut text, *a);
                        text.append("s (等待 B 点)");
                        text
                    },
                    _ => "A-B 循环已清除。".to_string(),
                };
                tail.push(BackendEvent::Status(text));
            },
            AppCommand::ToggleMute => {
                let muted = match muted_before {
                    Ok(m) => *m,
                    Err(_) => false,
                };
                let now_muted = !muted;
                tail.push(BackendEvent::MuteChanged(now_muted));
                let text = if now_muted {
                    "已静音"
                } else {
                    "已取消静音"
                };
                tail.push(BackendEvent::Status(text.to_string()));
            },
            _ => {},
        }
        tail
    }

    /// Ends a command whose backend calls succeeded and which goes on to a
    /// refresh: checks the readings taken after the calls, refreshes, and lists
    /// the events to report.  `paused_after` is the pause state read after the
    /// calls (a pause toggle needs it), `media_path` the media path read then.
    pub fn finish(
        &mut self,
        command: &AppCommand,
        muted_before: &Result<bool, String>,
        paused_after: Result<bool, String>,
        media_path: Result<Option<String>, String>,
        readings: BackendReadings,
        info: MediaInfo,
        now_ms: u64,
    ) -> (r: Result<Vec<BackendEvent>, String>)
        ensures
            final(self).backend_error == old(self).backend_error,
            match finish_error(*command, paused_after, media_path) {
                Some(e) => r == Err::<Vec<BackendEvent>, String>(e) && final(self).state == old(self).state,
                None => if skips_refresh(old(self).state, *command, media_path) {
                    &&& r matches Ok(events)
                    &&& r->Ok_0@.len() == 0
                    &&& final(self).state == old(self).state
                } else {
                    &&& r matches Ok(events)
                    &&& r->Ok_0@.len() >= tail_len(*command)
                    &&& refresh_effect(
                        old(self).state,
                        media_path->Ok_0,
                        readings,
                        info,
                        now_ms,
                        final(self).state,
                        r->Ok_0@.subrange(0, r->Ok_0@.len() - tail_len(*command)),
                    )
                    &&& tail_events(
                        *command,
                        final(self).state,
                        paused_after,
                        *muted_before,
                        r->Ok_0@.subrange(r->Ok_0@.len() - tail_len(*command), r->Ok_0@.len() as int),
                    )
                },
            },
    {
        if let AppCommand::TogglePause = command {
            if let Err(e) = paused_after {
                return Err(e);
            }
        }
        let path = match media_path {
            Ok(p) => p,
            Err(e) => {
                return Err(e);
            },
        };
        if let AppCommand::RefreshState = command {
            if self.state.current_media.is_none() && !self.state.is_loading_media && path.is_none() {
                return Ok(Vec::new());
            }
        }
        let mut events = self.refresh_state_events(path, readings, info, now_ms);
        let ghost refreshed = events@;
        let mut tail = self.command_tail(command, &paused_after, muted_before);
        let ghost tail_view = tail@;
        events.append(&mut tail);
        assert(events@.subrange(0, events@.len() - tail_len(*command)) =~= refreshed);
        assert(events@.subrange(events@.len() - tail_len(*command), events@.len() as int) =~= tail_view);
        Ok(events)
    }

    /// The events that report that `command` failed with `error`.  A failed
    /// background refresh reports nothing.
    pub fn failure_events(command: &AppCommand, error: String) -> (events: Vec<AppEvent>)
        ensures
            *command is RefreshState ==> events@.len() == 0,
            !(*command is RefreshState) ==> events@ == seq![AppEvent::Error(error)],
    {
        if let AppCommand::RefreshState = command {
            Vec::new()
        } else {
            vec![AppEvent::Error(error)]
        }
    }

    /// Whether a tick of the event loop has to look at the backend: a load is
    /// under way or the backend signalled news.
    pub fn should_poll(&self, wakeup_pending: bool) -> (r: bool)
        ensures
            r == (self.state.is_loading_media || wakeup_pending),
    {
        self.state.is_loading_media || wakeup_pending
    }

    /// Whether draining the backend's event queue calls for a refresh: the
    /// queue held state changes, or a load is under way.
    pub fn refresh_after_drain(&self, drained_changes: bool) -> (r: bool)
        ensures
            r == (drained_changes || self.state.is_loading_media),
    {
        drained_changes || self.state.is_loading_media
    }

    /// Whether a load has been under way for [`MEDIA_LOAD_TIMEOUT_MS`] at `now_ms`.
    pub fn media_load_timed_out(&self, now_ms: u64) -> (r: bool)
        ensures
            r == load_timed_out(self.state, now_ms),
    {
        if !self.state.is_loading_media {
            return false;
        }
        match self.state.loading_started_at_ms {
            Some(started) => {
                let elapsed = if now_ms >= started {
                    now_ms - started
                } else {
                    0
                };
                elapsed >= MEDIA_LOAD_TIMEOUT_MS
            },
            None => false,
        }
    }

    /// Whether the controller waits for a file other than the one at `path`.
    fn loading_other(&self, path: &String) -> (r: bool)
        ensures
            r == loading_other_media(self.state, path@),
    {
        if !self.state.is_loading_media {
            return false;
        }
        match &self.state.current_media {
            Some(m) => !same_path_text(m.path.as_str(), path.as_str()),
            None => false,
        }
    }

    /// Whether a refresh that finds `media_path` announces it as newly loaded,
    /// and so needs the media information.
    pub fn reports_loaded(&self, media_path: &Option<String>) -> (r: bool)
        ensures
            r == announces_load(self.state, *media_path),
    {
        match media_path {
            Some(p) => {
                if self.loading_other(p) {
                    return false;
                }
                let same = match &self.state.current_media {
                    Some(m) => same_path_text(m.path.as_str(), p.as_str()),
                    None => false,
                };
                self.state.is_loading_media || !same
            },
            None => false,
        }
    }

    /// Brings the controller's account up to date with what the backend
    /// reported, and lists the events that report the result.
    pub fn refresh_state_events(
        &mut self,
        media_path: Option<String>,
        readings: BackendReadings,
        info: MediaInfo,
        now_ms: u64,
    ) -> (events: Vec<BackendEvent>)
        ensures
            refresh_effect(old(self).state, media_path, readings, info, now_ms, final(self).state, events@),
            final(self).backend_error == old(self).backend_error,
    {
        let ghost before = self.state;
        let ghost case = refresh_case(before, media_path, now_ms);
        let ghost announce = announces_load(before, media_path);
        let announce_loaded = self.reports_loaded(&media_path);
        let timed_out = self.media_load_timed_out(now_ms);
        let mut events: Vec<BackendEvent> = Vec::new();
        let mut paused = match &readings.paused {
            Ok(v) => *v,
            Err(_) => self.state.is_paused,
        };
        let mut position_ms = match &readings.position_ms {
            Ok(v) => *v,
            Err(_) => self.state.position_ms,
        };
        let mut duration_ms = match &readings.duration_ms {
            Ok(v) => *v,
            Err(_) => self.state.duration_ms,
        };
        let volume_milli = match &readings.volume_milli {
            Ok(v) => *v,
            Err(_) => self.state.volume_milli,
        };
        let speed_milli = match &readings.speed_milli {
            Ok(v) => *v,
            Err(_) => self.state.speed_milli,
        };
        let is_muted = match &readings.muted {
            Ok(v) => *v,
            Err(_) => self.state.is_muted,
        };
        let is_fullscreen = self.state.is_fullscreen;
        let (mut audio_tracks, mut subtitle_tracks) = match &readings.tracks {
            Ok(t) => (copy_tracks(&t.0), copy_tracks(&t.1)),
            Err(_) => (copy_tracks(&self.state.audio_tracks), copy_tracks(&self.state.subtitle_tracks)),
        };
        let mut active_audio_track = match &readings.active_audio_track {
            Ok(v) => *v,
            Err(_) => self.state.active_audio_track,
        };
        let mut active_subtitle_track = match &readings.active_subtitle_track {
            Ok(v) => *v,
            Err(_) => self.state.active_subtitle_track,
        };
        let keep_own = match &media_path {
            Some(p) => self.loading_other(p) && !timed_out,
            None => self.state.is_loading_media && !timed_out,
        };
        let clear = match &media_path {
            Some(p) => self.loading_other(p) && timed_out,
            None => !self.state.is_loading_media || timed_out,
        };
        assert(keep_own <==> case == RefreshCase::StillLoading);
        assert(clear <==> (case == RefreshCase::TimedOut || case == RefreshCase::Gone));
        match media_path {
            Some(path) => {
                if !self.loading_other(&path) {
                    let confirmed = MediaSource::from_path(path);
                    if announce_loaded {
                        events.push(BackendEvent::Loaded(confirmed.clone()));
                        events.push(
                            BackendEvent::MediaInfoChanged {
                                media_title: copy_text(&info.media_title),
                                video_codec: copy_text(&info.video_codec),
                                audio_codec: copy_text(&info.audio_codec),
                                video_width: info.video_width,
                                video_height: info.video_height,
                            },
                        );
                    }
                    self.state.current_media = Some(confirmed);
                    self.state.is_loading_media = false;
                    self.state.loading_started_at_ms = None;
                } else if timed_out {
                    events.push(BackendEvent::Unloaded);
                    events.push(BackendEvent::Error("媒体加载失败或已被卸载。".to_string()));
                    self.state.current_media = None;
                    self.state.is_loading_media = false;
                    self.state.loading_started_at_ms = None;
                }
            },
            None => {
                if !self.state.is_loading_media {
                    if self.state.current_media.is_some() {
                        events.push(BackendEvent::Unloaded);
                    }
                    self.state.current_media = None;
                    self.state.loading_started_at_ms = None;
                } else if timed_out {
                    events.push(BackendEvent::Unloaded);
                    events.push(BackendEvent::Error("媒体加载失败或已被卸载。".to_string()));
                    self.state.current_media = None;
                    self.state.is_loading_media = false;
                    self.state.loading_started_at_ms = None;
                }
            },
        }
        if clear {
            paused = false;
            position_ms = 0;
            duration_ms = 0;
            audio_tracks = Vec::new();
            subtitle_tracks = Vec::new();
            active_audio_track = None;
            active_subtitle_track = None;
        } else if keep_own {
            paused = self.state.is_paused;
            position_ms = self.state.position_ms;
            duration_ms = self.state.duration_ms;
            audio_tracks = copy_tracks(&self.state.audio_tracks);
            subtitle_tracks = copy_tracks(&self.state.subtitle_tracks);
            active_audio_track = self.state.active_audio_track;
            active_subtitle_track = self.state.active_subtitle_track;
        }
        let ghost prefix_len = events@.len();
        self.state.is_paused = paused;
        self.state.is_playing = self.state.current_media.is_some() && !paused;
        self.state.position_ms = position_ms;
        self.state.duration_ms = duration_ms;
        self.state.volume_milli = volume_milli;
        self.state.speed_milli = speed_milli;
        self.state.is_muted = is_muted;
        self.state.is_fullscreen = is_fullscreen;
        self.state.audio_tracks = copy_tracks(&audio_tracks);
        self.state.subtitle_tracks = copy_tracks(&subtitle_tracks);
        self.state.active_audio_track = active_audio_track;
        self.state.active_subtitle_track = active_subtitle_track;
        events.push(BackendEvent::PauseChanged(paused));
        events.push(BackendEvent::PositionChanged { position_ms, duration_ms });
        events.push(BackendEvent::VolumeChanged(volume_milli));
        events.push(BackendEvent::SpeedChanged(speed_milli));
        events.push(BackendEvent::MuteChanged(is_muted));
        events.push(BackendEvent::FullscreenChanged(is_fullscreen));
        events.push(BackendEvent::TracksChanged { audio: audio_tracks, subtitles: subtitle_tracks });
        proof {
            reveal_strlit("媒体加载失败或已被卸载。");
        }
        events
    }
}

} // verus!
