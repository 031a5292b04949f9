use vmedia::mpv::{
    event_requires_refresh, observed_property_reply_ids, render_update_has_frame,
    scaled_render_size, MPV_EVENT_END_FILE, MPV_EVENT_FILE_LOADED, MPV_EVENT_NONE,
    MPV_EVENT_PLAYBACK_RESTART, MPV_EVENT_PROPERTY_CHANGE, MPV_EVENT_SHUTDOWN,
    MPV_RENDER_UPDATE_FRAME, OBSERVED_AUDIO_TRACK_PROPERTY, OBSERVED_DURATION_PROPERTY,
    OBSERVED_PATH_PROPERTY, OBSERVED_PAUSE_PROPERTY, OBSERVED_POSITION_PROPERTY,
    OBSERVED_SUBTITLE_TRACK_PROPERTY, OBSERVED_TRACK_COUNT_PROPERTY, OBSERVED_VOLUME_PROPERTY,
};

#[test]
fn scaled_render_size_returns_none_for_non_positive_values() {
    assert_eq!(scaled_render_size(0, 720, 1), None);
    assert_eq!(scaled_render_size(1280, -1, 1), None);
    assert_eq!(scaled_render_size(1280, 720, 0), None);
}

#[test]
fn scaled_render_size_applies_scale_factor() {
    assert_eq!(scaled_render_size(640, 360, 2), Some((1280, 720)));
}

#[test]
fn scaled_render_size_saturates() {
    assert_eq!(scaled_render_size(i32::MAX, 2, 3), Some((i32::MAX, 6)));
    assert_eq!(
        scaled_render_size(1 << 20, 1 << 20, 1 << 12),
        Some((i32::MAX, i32::MAX))
    );
}

#[test]
fn observed_property_reply_ids_cover_playback_state_sync() {
    assert_eq!(
        observed_property_reply_ids(),
        [
            OBSERVED_PATH_PROPERTY,
            OBSERVED_PAUSE_PROPERTY,
            OBSERVED_POSITION_PROPERTY,
            OBSERVED_DURATION_PROPERTY,
            OBSERVED_VOLUME_PROPERTY,
            OBSERVED_AUDIO_TRACK_PROPERTY,
            OBSERVED_SUBTITLE_TRACK_PROPERTY,
            OBSERVED_TRACK_COUNT_PROPERTY,
        ]
    );
}

#[test]
fn event_requires_refresh_for_state_driving_events() {
    assert!(event_requires_refresh(MPV_EVENT_FILE_LOADED, 0));
    assert!(event_requires_refresh(MPV_EVENT_END_FILE, 0));
    assert!(event_requires_refresh(MPV_EVENT_PLAYBACK_RESTART, 0));
    assert!(event_requires_refresh(
        MPV_EVENT_PROPERTY_CHANGE,
        OBSERVED_PAUSE_PROPERTY,
    ));
    assert!(!event_requires_refresh(MPV_EVENT_PROPERTY_CHANGE, 999));
    assert!(!event_requires_refresh(MPV_EVENT_NONE, 0));
}

#[test]
fn shutdown_and_every_watched_property_require_refresh() {
    assert!(event_requires_refresh(MPV_EVENT_SHUTDOWN, 0));
    for id in observed_property_reply_ids() {
        assert!(event_requires_refresh(MPV_EVENT_PROPERTY_CHANGE, id));
    }
    assert!(!event_requires_refresh(MPV_EVENT_PROPERTY_CHANGE, 0));
    assert!(!event_requires_refresh(MPV_EVENT_PROPERTY_CHANGE, 9));
    assert!(!event_requires_refresh(2, OBSERVED_PATH_PROPERTY));
}

#[test]
fn render_update_has_frame_only_for_frame_bit() {
    assert!(render_update_has_frame(MPV_RENDER_UPDATE_FRAME));
    assert!(render_update_has_frame(MPV_RENDER_UPDATE_FRAME | 2));
    assert!(!render_update_has_frame(0));
    assert!(!render_update_has_frame(2));
}
