use vmedia::event::AppEvent;
use vmedia::history::{history_file_path, PlaybackHistory};
use vmedia::models::MediaSource;
use vmedia::command::AppCommand;
use vmedia::session::{before_open, position_to_save, startup_plan, PeriodicSave, ResumeSession};
use vmedia::state::AppState;
use vmedia::xdg::XdgPaths;

#[test]
fn saved_positions_resume_beyond_two_seconds() {
    let mut history = PlaybackHistory::empty("/tmp/h.json".to_string());
    assert!(history.save_position("/v/a.mp4", 90_500));
    assert_eq!(history.get_position("/v/a.mp4"), Some(90_500));
    assert!(!history.save_position("/v/b.mp4", 1_999));
    assert_eq!(history.get_position("/v/b.mp4"), None);
    assert!(!history.save_position("/v/b.mp4", 2_000));
    assert_eq!(history.get_position("/v/b.mp4"), None);
    assert!(history.save_position("/v/b.mp4", 2_001));
    assert_eq!(history.get_position("/v/b.mp4"), Some(2_001));
    assert!(history.save_position("/v/a.mp4", 10_000));
    assert_eq!(history.get_position("/v/a.mp4"), Some(10_000));
    assert_eq!(history.records().len(), 2);
    assert!(history.records().iter().all(|(_, ms)| *ms > 2_000));
}

#[test]
fn removing_a_position_forgets_it() {
    let mut history = PlaybackHistory::from_records(
        "/tmp/h.json".to_string(),
        vec![("/v/a.mp4".to_string(), 5_000), ("/v/b.mp4".to_string(), 6_000), ("/v/a.mp4".to_string(), 7_000)],
        Some("/v/b.mp4".to_string()),
    );
    assert_eq!(history.get_position("/v/a.mp4"), Some(7_000));
    assert!(history.remove_position("/v/a.mp4"));
    assert!(!history.remove_position("/v/a.mp4"));
    assert_eq!(history.get_position("/v/a.mp4"), None);
    assert_eq!(history.get_position("/v/b.mp4"), Some(6_000));
    assert_eq!(history.last_media().map(|s| s.as_str()), Some("/v/b.mp4"));
    history.set_last_media("/v/c.mp4");
    assert_eq!(history.last_media().map(|s| s.as_str()), Some("/v/c.mp4"));
    assert_eq!(history.data_path(), "/tmp/h.json");
}

#[test]
fn history_file_location() {
    assert_eq!(history_file_path(Some("/data".to_string()), Some("/home/u".to_string())), "/data/vmedia/playback_history.json");
    assert_eq!(history_file_path(None, Some("/home/u".to_string())), "/home/u/.local/share/vmedia/playback_history.json");
    assert_eq!(history_file_path(None, None), "/tmp/vmedia/playback_history.json");
}

#[test]
fn xdg_directories() {
    let paths = XdgPaths::new(Some("/home/u".to_string()), Some("/cfg/".to_string()), None, None);
    assert_eq!(paths.config_dir, "/cfg/vmedia");
    assert_eq!(paths.data_dir, "/home/u/.local/share/vmedia");
    assert_eq!(paths.cache_dir, "/home/u/.cache/vmedia");
    assert_eq!(paths.database_path(), "/home/u/.local/share/vmedia/vmedia.db");
    assert_eq!(paths.screenshot_dir(), "/home/u/.cache/vmedia/screenshots");
    assert_eq!(paths.poster_cache_dir(), "/home/u/.cache/vmedia/posters");
    let bare = XdgPaths::new(None, None, None, None);
    assert_eq!(bare.config_dir, "/tmp/.config/vmedia");
}

fn playing(path: &str, position_ms: i64) -> AppState {
    let mut state = AppState::default();
    state.apply_event(&AppEvent::PlaybackLoaded { media: MediaSource::from_path(path.to_string()) });
    state.apply_event(&AppEvent::PositionUpdated { position_ms, duration_ms: 600_000 });
    state
}

#[test]
fn opening_saves_the_previous_position() {
    let state = playing("/v/a.mp4", 30_000);
    let plan = before_open(&state, &"/v/b.mp4".to_string());
    assert!(!plan.skip);
    assert_eq!(plan.save, Some(("/v/a.mp4".to_string(), 30_000)));
    let again = before_open(&state, &"/v/./a.mp4".to_string());
    assert!(again.skip);
    assert_eq!(again.save, None);
    let early = playing("/v/a.mp4", 1_000);
    assert_eq!(before_open(&early, &"/v/b.mp4".to_string()).save, None);
    assert_eq!(position_to_save(&AppState::default()), None);
}

#[test]
fn periodic_save_every_five_seconds() {
    let mut saver = PeriodicSave::new();
    assert_eq!(saver.periodic_save(&playing("/v/a.mp4", 0)), None);
    assert_eq!(saver.periodic_save(&playing("/v/a.mp4", 2_050)), None);
    assert_eq!(saver.periodic_save(&playing("/v/a.mp4", 4_990)), None);
    // The first save falls at the five-second mark, even where a tick skips its start.
    assert_eq!(saver.periodic_save(&playing("/v/a.mp4", 5_060)), Some(("/v/a.mp4".to_string(), 5_060)));
    assert_eq!(saver.periodic_save(&playing("/v/a.mp4", 5_100)), None);
    assert_eq!(saver.periodic_save(&playing("/v/a.mp4", 9_990)), None);
    assert_eq!(saver.periodic_save(&playing("/v/a.mp4", 10_040)), Some(("/v/a.mp4".to_string(), 10_040)));
    // Other media saves at its own five-second mark.
    assert_eq!(saver.periodic_save(&playing("/v/b.mp4", 3_000)), None);
    assert_eq!(saver.periodic_save(&playing("/v/b.mp4", 10_060)), Some(("/v/b.mp4".to_string(), 10_060)));
    // A seek back into an earlier period saves too, from five seconds on.
    assert_eq!(saver.periodic_save(&playing("/v/b.mp4", 6_000)), Some(("/v/b.mp4".to_string(), 6_000)));
    assert_eq!(saver.periodic_save(&playing("/v/b.mp4", 3_000)), None);
    let mut paused = playing("/v/b.mp4", 20_000);
    paused.apply_event(&AppEvent::PlaybackPaused(true));
    assert_eq!(saver.periodic_save(&paused), None);
}

#[test]
fn ticks_every_fifty_ms_save_within_every_five_seconds() {
    let mut saver = PeriodicSave::new();
    let mut last_save = None;
    let mut position = 2_013;
    while position < 60_000 {
        if let Some((_, at)) = saver.periodic_save(&playing("/v/a.mp4", position)) {
            last_save = Some(at);
        }
        if position < 5_000 {
            assert_eq!(last_save, None);
        } else {
            let at = last_save.expect("saved at the five-second mark");
            assert!(position - at < 5_000, "{position} {at}");
        }
        position += 50;
    }
}

fn loaded(path: &str) -> AppEvent {
    AppEvent::PlaybackLoaded { media: MediaSource::from_path(path.to_string()) }
}

#[test]
fn loaded_media_resumes_at_its_saved_position() {
    let mut history = PlaybackHistory::empty("/tmp/h.json".to_string());
    history.save_position("/v/a.mp4", 42_000);
    let mut session = ResumeSession::new();
    let paths = session.note_loaded(&vec![AppEvent::PlaybackPaused(false), loaded("/v/a.mp4")]);
    assert_eq!(paths, vec!["/v/a.mp4".to_string()]);
    let cmds = session.resume_commands(&history);
    assert_eq!(cmds.len(), 1);
    assert!(matches!(cmds[0], AppCommand::SeekAbsolute(42_000)));
    assert!(session.resume_commands(&history).is_empty());
}

#[test]
fn startup_restore_resumes_then_pauses_once() {
    let mut history = PlaybackHistory::empty("/tmp/h.json".to_string());
    history.save_position("/v/a.mp4", 42_000);
    let mut session = ResumeSession::new();
    session.restore_paused();
    session.note_loaded(&vec![loaded("/v/a.mp4")]);
    let cmds = session.resume_commands(&history);
    assert_eq!(cmds.len(), 2);
    assert!(matches!(cmds[0], AppCommand::SeekAbsolute(42_000)));
    assert!(matches!(cmds[1], AppCommand::TogglePause));
    session.note_loaded(&vec![loaded("/v/b.mp4")]);
    let later = session.resume_commands(&history);
    assert!(later.is_empty());
}

#[test]
fn the_last_load_of_a_tick_is_resumed() {
    let mut history = PlaybackHistory::empty("/tmp/h.json".to_string());
    history.save_position("/v/b.mp4", 9_000);
    let mut session = ResumeSession::new();
    let paths = session.note_loaded(&vec![loaded("/v/a.mp4"), loaded("/v/b.mp4")]);
    assert_eq!(paths.len(), 2);
    assert_eq!(session.pending.as_deref(), Some("/v/b.mp4"));
    let cmds = session.resume_commands(&history);
    assert!(matches!(cmds[..], [AppCommand::SeekAbsolute(9_000)]));
}

#[test]
fn startup_opens_the_command_line_file_or_restores_the_last_one() {
    let plan = startup_plan(Some("/v/x.mp4".to_string()), Some("/v/a.mp4".to_string()), true);
    assert_eq!(plan.open.as_deref(), Some("/v/x.mp4"));
    assert!(!plan.restore);
    let plan = startup_plan(None, Some("/v/a.mp4".to_string()), true);
    assert_eq!(plan.open.as_deref(), Some("/v/a.mp4"));
    assert!(plan.restore);
    let plan = startup_plan(None, Some("/v/a.mp4".to_string()), false);
    assert!(plan.open.is_none() && !plan.restore);
    let plan = startup_plan(None, None, true);
    assert!(plan.open.is_none() && !plan.restore);
}

#[test]
fn records_round_trip_keeps_positions() {
    let mut history = PlaybackHistory::empty("/tmp/h.json".to_string());
    history.save_position("/v/a.mp4", 12_345);
    history.save_position("/v/b.mp4", 60_000);
    history.set_last_media("/v/b.mp4");
    let rebuilt = PlaybackHistory::from_records(
        history.data_path().clone(),
        history.records(),
        history.last_media().cloned(),
    );
    assert_eq!(rebuilt.get_position("/v/a.mp4"), Some(12_345));
    assert_eq!(rebuilt.get_position("/v/b.mp4"), Some(60_000));
    assert_eq!(rebuilt.last_media().map(String::as_str), Some("/v/b.mp4"));
}
