use vmedia::controller::BackendCall;
use vmedia::models::TrackKind;
use vmedia::mpv::{
    codec_name, error_message, media_info_from, mpv_request, observed_playback_properties,
    optional_text, optional_track_id, tracks_from_entries, video_dimension, MpvRequest, TrackEntry,
};

fn words(request: &MpvRequest) -> Vec<String> {
    match request {
        MpvRequest::Command(words) => words.clone(),
        other => panic!("not a command: {other:?}"),
    }
}

#[test]
fn calls_become_mpv_requests() {
    assert_eq!(words(&mpv_request(&BackendCall::LoadFile("/v/a.mp4".to_string()))), ["loadfile", "/v/a.mp4", "replace"]);
    assert_eq!(words(&mpv_request(&BackendCall::SeekRelative(-5_000))), ["seek", "-5", "relative"]);
    assert_eq!(words(&mpv_request(&BackendCall::SeekAbsolute(12_345))), ["seek", "12.345", "absolute"]);
    assert_eq!(words(&mpv_request(&BackendCall::TogglePause)), ["cycle", "pause"]);
    assert_eq!(words(&mpv_request(&BackendCall::SetMute(true))), ["set", "mute", "yes"]);
    assert_eq!(words(&mpv_request(&BackendCall::SetAbLoopB(None))), ["set", "ab-loop-b", "no"]);
    assert_eq!(words(&mpv_request(&BackendCall::Screenshot)), ["screenshot", "video"]);
    assert!(matches!(mpv_request(&BackendCall::SetVolume(55_000)), MpvRequest::SetDouble { name: "volume", milli: 55_000 }));
    assert!(matches!(mpv_request(&BackendCall::SetAudioTrack(3)), MpvRequest::SetInt { name: "aid", value: 3 }));
    assert!(matches!(mpv_request(&BackendCall::SetAbLoopA(Some(1_000))), MpvRequest::SetDouble { name: "ab-loop-a", milli: 1_000 }));
}

#[test]
fn property_readings_become_values() {
    assert_eq!(optional_text(Ok(String::new())), Ok(None));
    assert_eq!(optional_text(Ok("/v/a.mp4".to_string())), Ok(Some("/v/a.mp4".to_string())));
    assert_eq!(optional_text(Err("libmpv error (-10): property unavailable".to_string())), Ok(None));
    assert_eq!(optional_text(Err("libmpv error (-8): property not found".to_string())), Err("libmpv error (-8): property not found".to_string()));
    assert_eq!(codec_name(Err("x".to_string())), None);
    assert_eq!(codec_name(Ok("h264".to_string())), Some("h264".to_string()));
    assert_eq!(video_dimension(Ok(0)), None);
    assert_eq!(video_dimension(Ok(720)), Some(720));
    assert_eq!(optional_track_id(Ok(-1)), Ok(None));
    assert_eq!(optional_track_id(Ok(2)), Ok(Some(2)));
    assert_eq!(optional_track_id(Err("boom".to_string())), Err("boom".to_string()));
    let info = media_info_from(Err("x".to_string()), None, Some("aac".to_string()), Some(1), None);
    assert!(info.media_title.is_none());
    assert_eq!(info.audio_codec.as_deref(), Some("aac"));
}

#[test]
fn error_messages() {
    assert_eq!(error_message(-10, Some("property unavailable".to_string())), "libmpv error (-10): property unavailable");
    assert_eq!(error_message(-3, None), "libmpv error code -3");
}

fn entry(kind: &str, id: Result<i64, String>, title: &str, lang: &str, selected: bool) -> TrackEntry {
    TrackEntry {
        kind: Ok(kind.to_string()),
        id,
        title: Ok(title.to_string()),
        lang: Ok(lang.to_string()),
        selected: Ok(selected),
    }
}

#[test]
fn track_list_entries_become_tracks() {
    let entries = vec![
        entry("video", Ok(1), "", "", true),
        entry("audio", Ok(1), "Director", "en", true),
        entry("audio", Ok(2), "", "ja", false),
        entry("sub", Ok(1), "", "", false),
        entry("sub", Err("gone".to_string()), "x", "", false),
        TrackEntry { kind: Err("x".to_string()), id: Ok(9), title: Ok(String::new()), lang: Ok(String::new()), selected: Ok(true) },
        TrackEntry { kind: Ok("audio".to_string()), id: Ok(3), title: Err("x".to_string()), lang: Err("x".to_string()), selected: Err("x".to_string()) },
    ];
    let (audio, subtitles) = tracks_from_entries(&entries);
    assert_eq!(audio.len(), 3);
    assert_eq!(audio[0].label, "Director");
    assert!(audio[0].selected);
    assert_eq!(audio[1].label, "ja");
    assert_eq!(audio[2].label, "音轨 3");
    assert!(!audio[2].selected);
    assert_eq!(subtitles.len(), 1);
    assert_eq!(subtitles[0].label, "字幕 1");
    assert_eq!(subtitles[0].kind, TrackKind::Subtitle);
}

#[test]
fn watched_properties() {
    let props = observed_playback_properties();
    let names: Vec<&str> = props.iter().map(|p| p.name).collect();
    assert_eq!(names, ["path", "pause", "time-pos", "duration", "volume", "aid", "sid", "track-list/count"]);
    let ids: Vec<u64> = props.iter().map(|p| p.reply_userdata).collect();
    assert_eq!(ids, [1, 2, 3, 4, 5, 6, 7, 8]);
}

#[test]
fn drained_events_call_for_a_refresh_up_to_the_empty_event() {
    assert!(!vmedia::mpv::drain_needs_refresh(&vec![]));
    assert!(!vmedia::mpv::drain_needs_refresh(&vec![(vmedia::mpv::MPV_EVENT_NONE, 0)]));
    assert!(vmedia::mpv::drain_needs_refresh(&vec![(vmedia::mpv::MPV_EVENT_FILE_LOADED, 0), (vmedia::mpv::MPV_EVENT_NONE, 0)]));
    assert!(!vmedia::mpv::drain_needs_refresh(&vec![(vmedia::mpv::MPV_EVENT_PROPERTY_CHANGE, 999), (vmedia::mpv::MPV_EVENT_NONE, 0)]));
    assert!(vmedia::mpv::drain_needs_refresh(&vec![
        (vmedia::mpv::MPV_EVENT_PROPERTY_CHANGE, 999),
        (vmedia::mpv::MPV_EVENT_PROPERTY_CHANGE, vmedia::mpv::OBSERVED_PAUSE_PROPERTY),
        (vmedia::mpv::MPV_EVENT_NONE, 0),
    ]));
    assert!(!vmedia::mpv::drain_needs_refresh(&vec![(vmedia::mpv::MPV_EVENT_NONE, 0), (vmedia::mpv::MPV_EVENT_FILE_LOADED, 0)]));
}
