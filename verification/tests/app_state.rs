use vmedia::backend::BackendEvent;
use vmedia::event::AppEvent;
use vmedia::models::{MediaInfo, MediaSource, Track, TrackKind};
use vmedia::state::AppState;

fn track(id: i64, kind: TrackKind, selected: bool) -> Track {
    Track { id, label: format!("t{id}"), kind, selected }
}

#[test]
fn media_source_is_named_after_its_file() {
    let media = MediaSource::from_path("/videos/movie.mkv".to_string());
    assert_eq!(media.path, "/videos/movie.mkv");
    assert_eq!(media.display_name, "movie.mkv");
    let odd = MediaSource::from_path("/videos/..".to_string());
    assert_eq!(odd.display_name, "/videos/..");
}

#[test]
fn default_state_is_idle() {
    let state = AppState::default();
    assert!(state.playback.current_media.is_none());
    assert_eq!(state.playback.volume_milli, 50_000);
    assert_eq!(state.playback.speed_milli, 1_000);
    assert_eq!(state.status_line, "打开一个本地媒体文件开始播放。");
    assert!(state.last_error.is_none());
}

#[test]
fn loading_starts_playback() {
    let mut state = AppState::default();
    state.apply_event(&AppEvent::Error("boom".to_string()));
    state.apply_event(&AppEvent::PlaybackLoaded { media: MediaSource::from_path("/v/a.mp4".to_string()) });
    assert!(state.playback.is_playing);
    assert!(!state.playback.is_paused);
    assert_eq!(state.status_line, "已载入 a.mp4");
    assert!(state.last_error.is_none());
}

#[test]
fn pausing_tracks_media() {
    let mut state = AppState::default();
    state.apply_event(&AppEvent::PlaybackPaused(false));
    assert!(!state.playback.is_playing);
    state.apply_event(&AppEvent::PlaybackLoaded { media: MediaSource::from_path("/v/a.mp4".to_string()) });
    state.apply_event(&AppEvent::PlaybackPaused(true));
    assert!(!state.playback.is_playing);
    assert!(state.playback.is_paused);
    state.apply_event(&AppEvent::PlaybackPaused(false));
    assert!(state.playback.is_playing);
}

#[test]
fn unloading_keeps_volume_and_mute() {
    let mut state = AppState::default();
    state.apply_event(&AppEvent::PlaybackLoaded { media: MediaSource::from_path("/v/a.mp4".to_string()) });
    state.apply_event(&AppEvent::VolumeUpdated(80_000));
    state.apply_event(&AppEvent::MuteChanged(true));
    state.apply_event(&AppEvent::SpeedChanged(2_000));
    state.apply_event(&AppEvent::PositionUpdated { position_ms: 12_000, duration_ms: 60_000 });
    state.apply_event(&AppEvent::PlaybackUnloaded);
    assert!(state.playback.current_media.is_none());
    assert_eq!(state.playback.volume_milli, 80_000);
    assert!(state.playback.is_muted);
    assert_eq!(state.playback.speed_milli, 1_000);
    assert_eq!(state.playback.position_ms, 0);
    assert_eq!(state.status_line, "当前没有正在播放的媒体。");
}

#[test]
fn tracks_pick_the_first_selected() {
    let mut state = AppState::default();
    state.apply_event(&AppEvent::TracksUpdated {
        audio: vec![track(1, TrackKind::Audio, false), track(2, TrackKind::Audio, true), track(3, TrackKind::Audio, true)],
        subtitles: vec![track(5, TrackKind::Subtitle, false)],
    });
    assert_eq!(state.playback.active_audio_track, Some(2));
    assert_eq!(state.playback.active_subtitle_track, None);
    assert_eq!(state.playback.audio_tracks.len(), 3);
}

#[test]
fn errors_and_status_messages() {
    let mut state = AppState::default();
    state.apply_event(&AppEvent::Error("坏了".to_string()));
    assert_eq!(state.status_line, "坏了");
    assert_eq!(state.last_error.as_deref(), Some("坏了"));
    state.apply_event(&AppEvent::StatusMessage("好了".to_string()));
    assert_eq!(state.status_line, "好了");
    assert!(state.last_error.is_none());
    state.apply_event(&AppEvent::ScreenshotTaken("/tmp/s.png".to_string()));
    assert_eq!(state.status_line, "截图已保存：/tmp/s.png");
    state.apply_event(&AppEvent::PlaybackEnded);
    assert_eq!(state.status_line, "播放完毕。");
}

#[test]
fn settings_events_are_recorded() {
    let mut state = AppState::default();
    state.apply_events(&vec![
        AppEvent::FullscreenChanged(true),
        AppEvent::SubtitleDelayChanged(-500),
        AppEvent::AudioDelayChanged(250),
        AppEvent::ABLoopChanged { a: Some(1_000), b: None },
        AppEvent::MediaInfoAvailable {
            media_title: Some("T".to_string()),
            video_codec: None,
            audio_codec: Some("aac".to_string()),
            video_width: Some(1920),
            video_height: Some(1080),
        },
    ]);
    assert!(state.playback.is_fullscreen);
    assert_eq!(state.playback.subtitle_delay_ms, -500);
    assert_eq!(state.playback.audio_delay_ms, 250);
    assert_eq!(state.playback.ab_loop_a_ms, Some(1_000));
    assert_eq!(state.playback.ab_loop_b_ms, None);
    assert_eq!(state.playback.media_info.media_title.as_deref(), Some("T"));
    assert_eq!(state.playback.media_info.video_width, Some(1920));
    let info = MediaInfo::default();
    assert!(info.media_title.is_none());
}

#[test]
fn backend_events_map_to_app_events() {
    let events = vmedia::backend::app_events_of(vec![
        BackendEvent::Unloaded,
        BackendEvent::PauseChanged(true),
        BackendEvent::Status("s".to_string()),
        BackendEvent::Error("e".to_string()),
        BackendEvent::Ended,
    ]);
    assert!(matches!(events[0], AppEvent::PlaybackUnloaded));
    assert!(matches!(events[1], AppEvent::PlaybackPaused(true)));
    assert!(matches!(&events[2], AppEvent::StatusMessage(m) if m == "s"));
    assert!(matches!(&events[3], AppEvent::Error(m) if m == "e"));
    assert!(matches!(events[4], AppEvent::PlaybackEnded));
    let single: AppEvent = BackendEvent::SpeedChanged(1_500).into();
    assert!(matches!(single, AppEvent::SpeedChanged(1_500)));
}
