use vmedia::backend::BackendEvent;
use vmedia::command::AppCommand;
use vmedia::controller::{BackendCall, BackendReadings, ControllerCore};
use vmedia::event::AppEvent;
use vmedia::models::{MediaInfo, Track, TrackKind};

fn readings(paused: bool, position_ms: i64, duration_ms: i64) -> BackendReadings {
    BackendReadings {
        paused: Ok(paused),
        position_ms: Ok(position_ms),
        duration_ms: Ok(duration_ms),
        volume_milli: Ok(70_000),
        speed_milli: Ok(1_000),
        muted: Ok(false),
        tracks: Ok((
            vec![Track { id: 1, label: "en".to_string(), kind: TrackKind::Audio, selected: true }],
            Vec::new(),
        )),
        active_audio_track: Ok(Some(1)),
        active_subtitle_track: Ok(None),
    }
}

fn failed_readings() -> BackendReadings {
    BackendReadings {
        paused: Err("x".to_string()),
        position_ms: Err("x".to_string()),
        duration_ms: Err("x".to_string()),
        volume_milli: Err("x".to_string()),
        speed_milli: Err("x".to_string()),
        muted: Err("x".to_string()),
        tracks: Err("x".to_string()),
        active_audio_track: Err("x".to_string()),
        active_subtitle_track: Err("x".to_string()),
    }
}

fn status_of(event: &BackendEvent) -> &str {
    match event {
        BackendEvent::Status(m) => m.as_str(),
        other => panic!("not a status: {other:?}"),
    }
}

fn loaded_core(path: &str) -> ControllerCore {
    let mut core = ControllerCore::new(None);
    let command = AppCommand::OpenFile(path.to_string());
    assert!(core.accept_command(&command).is_ok());
    let done = core.commit(&command, &Ok(false), 1_000).expect("load ends at once");
    assert_eq!(done.len(), 5);
    let events = core.refresh_state_events(
        Some(path.to_string()),
        readings(false, 0, 60_000),
        MediaInfo::default(),
        2_000,
    );
    assert!(matches!(events[0], BackendEvent::Loaded(_)));
    core
}

#[test]
fn media_commands_need_media() {
    let mut core = ControllerCore::new(None);
    assert_eq!(
        core.accept_command(&AppCommand::SeekRelative(5_000)),
        Err("请先打开一个本地媒体文件。".to_string())
    );
    assert!(core.accept_command(&AppCommand::SetVolume(10_000)).is_ok());
    core.commit(&AppCommand::OpenFile("/v/a.mp4".to_string()), &Ok(false), 0);
    assert_eq!(
        core.accept_command(&AppCommand::Screenshot),
        Err("请等待媒体加载完成。".to_string())
    );
}

#[test]
fn missing_backend_refuses_commands_but_records_fullscreen() {
    let mut core = ControllerCore::new(Some("Failed to create libmpv handle.".to_string()));
    assert_eq!(
        core.accept_command(&AppCommand::SetVolume(10_000)),
        Err("Failed to create libmpv handle.".to_string())
    );
    assert!(core.accept_command(&AppCommand::SetFullscreen(true)).is_err());
    assert!(core.state.is_fullscreen);
}

#[test]
fn opening_a_file_reports_loading() {
    let mut core = ControllerCore::new(None);
    let command = AppCommand::OpenFile("/v/片.mkv".to_string());
    let calls = ControllerCore::backend_calls(&command, &Ok(false));
    assert!(matches!(&calls[..], [BackendCall::LoadFile(p)] if p == "/v/片.mkv"));
    let events = core.commit(&command, &Ok(false), 42).unwrap();
    assert!(matches!(events[0], BackendEvent::Unloaded));
    assert!(matches!(events[1], BackendEvent::PauseChanged(false)));
    assert_eq!(status_of(&events[4]), "正在加载 片.mkv");
    assert!(core.state.is_loading_media);
    assert_eq!(core.state.loading_started_at_ms, Some(42));
}

#[test]
fn refresh_confirms_a_load() {
    let mut core = ControllerCore::new(None);
    core.commit(&AppCommand::OpenFile("/v/a.mp4".to_string()), &Ok(false), 0);
    assert!(core.reports_loaded(&Some("/v/./a.mp4".to_string())));
    let info = MediaInfo {
        media_title: Some("A".to_string()),
        video_codec: None,
        audio_codec: None,
        video_width: Some(640),
        video_height: Some(480),
    };
    let events = core.refresh_state_events(Some("/v/./a.mp4".to_string()), readings(false, 1_500, 9_000), info, 100);
    assert_eq!(events.len(), 9);
    assert!(matches!(&events[0], BackendEvent::Loaded(m) if m.path == "/v/./a.mp4" && m.display_name == "a.mp4"));
    assert!(matches!(&events[1], BackendEvent::MediaInfoChanged { media_title: Some(t), .. } if t == "A"));
    assert!(matches!(events[2], BackendEvent::PauseChanged(false)));
    assert!(matches!(events[3], BackendEvent::PositionChanged { position_ms: 1_500, duration_ms: 9_000 }));
    assert!(matches!(events[4], BackendEvent::VolumeChanged(70_000)));
    assert!(!core.state.is_loading_media);
    assert!(core.state.is_playing);
    assert_eq!(core.state.active_audio_track, Some(1));
}

#[test]
fn refresh_waits_for_a_slow_load_then_gives_up() {
    let mut core = ControllerCore::new(None);
    core.commit(&AppCommand::OpenFile("/v/new.mp4".to_string()), &Ok(false), 1_000);
    let events = core.refresh_state_events(Some("/v/old.mp4".to_string()), readings(true, 7_000, 9_000), MediaInfo::default(), 5_000);
    assert_eq!(events.len(), 7);
    assert!(matches!(events[0], BackendEvent::PauseChanged(false)));
    assert!(matches!(events[1], BackendEvent::PositionChanged { position_ms: 0, duration_ms: 0 }));
    assert!(core.state.is_loading_media);
    assert!(!core.reports_loaded(&Some("/v/old.mp4".to_string())));
    let events = core.refresh_state_events(None, readings(true, 7_000, 9_000), MediaInfo::default(), 11_000);
    assert_eq!(events.len(), 9);
    assert!(matches!(events[0], BackendEvent::Unloaded));
    assert!(matches!(&events[1], BackendEvent::Error(m) if m == "媒体加载失败或已被卸载。"));
    assert!(core.state.current_media.is_none());
    assert!(!core.state.is_loading_media);
}

#[test]
fn refresh_notices_media_gone() {
    let mut core = loaded_core("/v/a.mp4");
    let events = core.refresh_state_events(None, readings(false, 3_000, 9_000), MediaInfo::default(), 3_000);
    assert_eq!(events.len(), 8);
    assert!(matches!(events[0], BackendEvent::Unloaded));
    assert!(core.state.current_media.is_none());
    assert_eq!(core.state.position_ms, 0);
}

#[test]
fn failed_readings_keep_own_values() {
    let mut core = loaded_core("/v/a.mp4");
    let before_volume = core.state.volume_milli;
    let events = core.refresh_state_events(Some("/v/a.mp4".to_string()), failed_readings(), MediaInfo::default(), 3_000);
    assert_eq!(events.len(), 7);
    assert_eq!(core.state.volume_milli, before_volume);
    assert_eq!(core.state.audio_tracks.len(), 1);
}

#[test]
fn command_tails_report_what_happened() {
    let mut core = loaded_core("/v/a.mp4");
    let command = AppCommand::SetSpeed(1_500);
    assert!(core.accept_command(&command).is_ok());
    assert!(core.commit(&command, &Ok(false), 0).is_none());
    let events = core
        .finish(&command, &Ok(false), Ok(false), Ok(Some("/v/a.mp4".to_string())), readings(false, 0, 9_000), MediaInfo::default(), 0)
        .unwrap();
    assert!(matches!(events[events.len() - 2], BackendEvent::SpeedChanged(1_500)));
    assert_eq!(status_of(&events[events.len() - 1]), "1.5x 倍速");

    let command = AppCommand::SeekRelative(-5_000);
    let events = core
        .finish(&command, &Ok(false), Ok(false), Ok(Some("/v/a.mp4".to_string())), readings(false, 0, 9_000), MediaInfo::default(), 0)
        .unwrap();
    assert_eq!(status_of(events.last().unwrap()), "跳转 -5 秒（libmpv）。");

    let command = AppCommand::SetABLoop { a: Some(1_250), b: Some(3_000) };
    let events = core
        .finish(&command, &Ok(false), Ok(false), Ok(Some("/v/a.mp4".to_string())), readings(false, 0, 9_000), MediaInfo::default(), 0)
        .unwrap();
    assert_eq!(status_of(events.last().unwrap()), "A-B 循环: 1.2s - 3.0s");

    let command = AppCommand::SetVolume(33_000);
    let events = core
        .finish(&command, &Ok(false), Ok(false), Ok(Some("/v/a.mp4".to_string())), readings(false, 0, 9_000), MediaInfo::default(), 0)
        .unwrap();
    assert_eq!(status_of(events.last().unwrap()), "音量 70%");

    let command = AppCommand::SelectAudio(2);
    let events = core
        .finish(&command, &Ok(false), Ok(false), Ok(Some("/v/a.mp4".to_string())), readings(false, 0, 9_000), MediaInfo::default(), 0)
        .unwrap();
    assert_eq!(status_of(events.last().unwrap()), "已切换音轨 2");
}

#[test]
fn toggling_mute_uses_the_reading_before() {
    let mut core = loaded_core("/v/a.mp4");
    let command = AppCommand::ToggleMute;
    assert!(ControllerCore::reads_mute_first(&command));
    let calls = ControllerCore::backend_calls(&command, &Ok(true));
    assert!(matches!(calls[..], [BackendCall::SetMute(false)]));
    let calls = ControllerCore::backend_calls(&command, &Err("x".to_string()));
    assert!(matches!(calls[..], [BackendCall::SetMute(true)]));
    core.commit(&command, &Ok(false), 0);
    assert!(core.state.is_muted);
    let events = core
        .finish(&command, &Ok(false), Ok(false), Ok(Some("/v/a.mp4".to_string())), readings(false, 0, 9_000), MediaInfo::default(), 0)
        .unwrap();
    assert_eq!(status_of(events.last().unwrap()), "已静音");
}

#[test]
fn finishing_reports_read_failures() {
    let mut core = loaded_core("/v/a.mp4");
    let result = core.finish(&AppCommand::TogglePause, &Ok(false), Err("pause?".to_string()), Ok(None), readings(false, 0, 0), MediaInfo::default(), 0);
    assert_eq!(result.unwrap_err(), "pause?");
    let result = core.finish(&AppCommand::Screenshot, &Ok(false), Ok(false), Err("path?".to_string()), readings(false, 0, 0), MediaInfo::default(), 0);
    assert_eq!(result.unwrap_err(), "path?");
    let events = core
        .finish(&AppCommand::TogglePause, &Ok(false), Ok(true), Ok(Some("/v/a.mp4".to_string())), readings(true, 0, 0), MediaInfo::default(), 0)
        .unwrap();
    assert_eq!(status_of(events.last().unwrap()), "已暂停（libmpv）");
}

#[test]
fn background_refresh_with_nothing_loaded_does_nothing() {
    let mut core = ControllerCore::new(None);
    let events = core
        .finish(&AppCommand::RefreshState, &Ok(false), Ok(false), Ok(None), readings(false, 0, 0), MediaInfo::default(), 0)
        .unwrap();
    assert!(events.is_empty());
    assert!(ControllerCore::failure_events(&AppCommand::RefreshState, "e".to_string()).is_empty());
    let failed = ControllerCore::failure_events(&AppCommand::Stop, "e".to_string());
    assert!(matches!(&failed[..], [AppEvent::Error(m)] if m == "e"));
}

#[test]
fn stopping_clears_playback() {
    let mut core = loaded_core("/v/a.mp4");
    let events = core.commit(&AppCommand::Stop, &Ok(false), 0).unwrap();
    assert!(matches!(events[0], BackendEvent::Unloaded));
    assert_eq!(status_of(&events[1]), "播放已停止。");
    assert!(core.state.current_media.is_none());
    assert!(core.state.audio_tracks.is_empty());
    assert_eq!(core.state.volume_milli, 70_000);
}

#[test]
fn polling_decisions() {
    let core = ControllerCore::new(None);
    assert!(!core.should_poll(false));
    assert!(core.should_poll(true));
    assert!(!core.refresh_after_drain(false));
    assert!(core.refresh_after_drain(true));
    assert!(!core.media_load_timed_out(100_000));
}
