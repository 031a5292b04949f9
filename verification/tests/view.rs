use vmedia::command::AppCommand;
use vmedia::config::AppConfig;
use vmedia::event::AppEvent;
use vmedia::models::MediaSource;
use vmedia::shortcuts::ShortcutAction;
use vmedia::state::AppState;
use vmedia::view::{
    active_render_error, fullscreen_icon_name, next_speed_step, placeholder_for,
    play_pause_icon_name, player_layout, scroll_volume, seek_bar_model, shortcut_response,
    speed_label, sync_media_session, time_labels, volume_icon_name, window_title, Placeholder,
    SeekBarModel, ShortcutResponse,
};

#[test]
fn volume_icon_has_five_states() {
    assert_eq!(volume_icon_name(80_000, true), "audio-volume-muted-symbolic");
    assert_eq!(volume_icon_name(0, false), "audio-volume-muted-symbolic");
    assert_eq!(volume_icon_name(25_000, false), "audio-volume-low-symbolic");
    assert_eq!(volume_icon_name(50_000, false), "audio-volume-medium-symbolic");
    assert_eq!(volume_icon_name(75_000, false), "audio-volume-high-symbolic");
    assert_eq!(volume_icon_name(75_001, false), "audio-volume-overamplified-symbolic");
}

#[test]
fn window_shows_the_file_name() {
    let mut state = AppState::default();
    assert_eq!(window_title(&state), "VMedia");
    assert_eq!(play_pause_icon_name(&state), "media-playback-start-symbolic");
    state.apply_event(&AppEvent::PlaybackLoaded { media: MediaSource::from_path("/v/clip.webm".to_string()) });
    assert_eq!(window_title(&state), "clip.webm");
    assert_eq!(play_pause_icon_name(&state), "media-playback-pause-symbolic");
    assert_eq!(fullscreen_icon_name(true), "view-restore-symbolic");
    assert_eq!(fullscreen_icon_name(false), "view-fullscreen-symbolic");
    assert_eq!(speed_label(1_250), "1.2x");
    assert_eq!(speed_label(1_000), "1.0x");
}

#[test]
fn seek_bar_and_time_labels() {
    assert_eq!(seek_bar_model(5_000, 0), SeekBarModel { upper_ms: 1_000, value_ms: 1_000, sensitive: false });
    assert_eq!(seek_bar_model(-3, 60_000), SeekBarModel { upper_ms: 60_000, value_ms: 0, sensitive: true });
    assert_eq!(time_labels(65_000, 125_000), ("1:05".to_string(), "-1:00".to_string()));
    assert_eq!(time_labels(10_000, 0), ("0:10".to_string(), "-0:00".to_string()));
}

#[test]
fn placeholders() {
    let fatal = "fatal".to_string();
    let media = "media".to_string();
    assert_eq!(active_render_error(Some(&fatal), Some(&media)), Some("fatal".to_string()));
    assert_eq!(active_render_error(None, Some(&media)), Some("media".to_string()));
    assert!(matches!(placeholder_for(true, Some("e".to_string()), true), Placeholder::Problem(m) if m == "e"));
    assert!(matches!(placeholder_for(true, None, false), Placeholder::Preparing));
    assert!(matches!(placeholder_for(true, None, true), Placeholder::Hidden));
    assert!(matches!(placeholder_for(false, None, true), Placeholder::Welcome));
}

#[test]
fn media_session_changes() {
    let mut last = None;
    let a = "/v/a.mp4".to_string();
    assert!(sync_media_session(&mut last, Some(&a)));
    assert!(!sync_media_session(&mut last, Some(&"/v//a.mp4".to_string())));
    assert!(sync_media_session(&mut last, None));
    assert_eq!(last, None);
    assert!(!sync_media_session(&mut last, None));
}

#[test]
fn layout_widths() {
    assert_eq!(player_layout(100), None);
    assert_eq!(player_layout(1280), Some((460, 600)));
    assert_eq!(player_layout(600), Some((320, 360)));
    assert_eq!(player_layout(300), Some((320, 180)));
    assert_eq!(player_layout(3000), Some((720, 600)));
    for width in 101i32..4000 {
        let expected_panel = ((width as f64 * 0.36).clamp(360.0, 720.0) as i32).min(width.saturating_sub(440).max(320));
        let expected_controls = ((width as f64 * 0.6) as i32).min(600);
        assert_eq!(player_layout(width), Some((expected_panel, expected_controls)), "{width}");
    }
}

#[test]
fn shortcut_responses() {
    assert!(matches!(shortcut_response(ShortcutAction::SeekBackward, 0, 1_000, false), ShortcutResponse::Send(AppCommand::SeekRelative(-5_000))));
    assert!(matches!(shortcut_response(ShortcutAction::VolumeUp, 98_000, 1_000, false), ShortcutResponse::AdjustVolume(100_000)));
    assert!(matches!(shortcut_response(ShortcutAction::VolumeDown, 3_000, 1_000, false), ShortcutResponse::AdjustVolume(0)));
    assert!(matches!(shortcut_response(ShortcutAction::SpeedDown, 0, 400, false), ShortcutResponse::AdjustSpeed(250)));
    assert!(matches!(shortcut_response(ShortcutAction::SpeedUp, 0, 2_900, false), ShortcutResponse::AdjustSpeed(3_000)));
    assert!(matches!(shortcut_response(ShortcutAction::SpeedUp, 0, 1_000, false), ShortcutResponse::AdjustSpeed(1_250)));
    assert!(matches!(shortcut_response(ShortcutAction::ToggleFullscreen, 0, 1_000, true), ShortcutResponse::Send(AppCommand::SetFullscreen(false))));
    assert!(matches!(shortcut_response(ShortcutAction::OpenSettings, 0, 1_000, true), ShortcutResponse::OpenSettings));
    assert_eq!(scroll_volume(true, 50_000), 55_000);
    assert_eq!(scroll_volume(false, 50_000), 45_000);
    assert_eq!(scroll_volume(true, 98_000), 100_000);
    assert_eq!(scroll_volume(false, 3_000), 0);
    assert_eq!(scroll_volume(true, 20_000), 25_000);
}

#[test]
fn speed_button_cycles() {
    assert_eq!(next_speed_step(2), (3, 1_250));
    assert_eq!(next_speed_step(5), (0, 500));
}

#[test]
fn window_config() {
    let config = AppConfig::default();
    assert_eq!(config.app_id, "io.vmedia.native-player");
    assert_eq!(config.window_title, "VMedia Native Player");
    assert_eq!((config.default_width, config.default_height), (1280, 800));
}
