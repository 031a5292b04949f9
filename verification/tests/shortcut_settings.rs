use vmedia::shortcuts::{ShortcutAction, ShortcutSettings};
use vmedia::xdg::XdgPaths;

#[test]
fn defaults_cover_every_action_without_conflicts() {
    let settings = ShortcutSettings::default();
    let mut bindings = std::collections::BTreeSet::new();

    for action in ShortcutAction::ALL {
        let binding = settings.binding(action).expect("default binding");
        assert!(bindings.insert(binding));
    }
}

#[test]
fn disabled_binding_reads_back_as_none() {
    let mut settings = ShortcutSettings::default();
    settings.set_binding(ShortcutAction::Screenshot, None);
    assert_eq!(settings.binding(ShortcutAction::Screenshot), None);
    assert_eq!(settings.binding(ShortcutAction::Stop), Some("q"));
}

#[test]
fn recorded_bindings_round_trip_through_entries() {
    let mut settings = ShortcutSettings::default();
    settings.set_binding(ShortcutAction::Screenshot, None);
    settings.set_binding(ShortcutAction::OpenFile, Some("<Control>l".to_string()));
    let restored = ShortcutSettings::from_entries(settings.entries());
    assert_eq!(restored.binding(ShortcutAction::Screenshot), None);
    assert_eq!(restored.binding(ShortcutAction::OpenFile), Some("<Control>l"));
    assert_eq!(restored.binding(ShortcutAction::TogglePause), Some("space"));
}

#[test]
fn set_binding_reads_back_and_leaves_others() {
    let mut settings = ShortcutSettings::default();
    settings.set_binding(ShortcutAction::TogglePause, Some("k".to_string()));
    assert_eq!(settings.binding(ShortcutAction::TogglePause), Some("k"));
    for action in ShortcutAction::ALL {
        if action != ShortcutAction::TogglePause {
            assert_eq!(settings.binding(action), Some(action.default_accelerator()));
        }
    }
}

#[test]
fn reset_restores_every_default() {
    let mut settings = ShortcutSettings::default();
    settings.set_binding(ShortcutAction::VolumeUp, None);
    settings.set_binding(ShortcutAction::SpeedUp, Some("plus".to_string()));
    settings.reset();
    for action in ShortcutAction::ALL {
        assert_eq!(settings.binding(action), Some(action.default_accelerator()));
    }
}

#[test]
fn fill_missing_defaults_keeps_recorded_bindings() {
    let mut settings = ShortcutSettings::from_entries(vec![
        (ShortcutAction::Stop, None),
        (ShortcutAction::OpenFile, Some("o".to_string())),
        (ShortcutAction::OpenFile, Some("<Control>p".to_string())),
    ]);
    assert_eq!(settings.binding(ShortcutAction::TogglePause), None);
    settings.fill_missing_defaults();
    assert_eq!(settings.binding(ShortcutAction::Stop), None);
    assert_eq!(settings.binding(ShortcutAction::OpenFile), Some("<Control>p"));
    assert_eq!(settings.binding(ShortcutAction::TogglePause), Some("space"));
    assert_eq!(settings.binding(ShortcutAction::OpenSettings), Some("<Control>comma"));
}

#[test]
fn empty_settings_bind_nothing() {
    let settings = ShortcutSettings::empty();
    for action in ShortcutAction::ALL {
        assert_eq!(settings.binding(action), None);
    }
}

#[test]
fn entries_are_ordered_like_all() {
    let settings = ShortcutSettings::default();
    let entries = settings.entries();
    assert_eq!(entries.len(), 14);
    for (i, (action, binding)) in entries.iter().enumerate() {
        assert_eq!(*action, ShortcutAction::ALL[i]);
        assert_eq!(binding.as_deref(), Some(action.default_accelerator()));
    }
}

#[test]
fn labels_and_ordinals() {
    assert_eq!(ShortcutAction::TogglePause.label(), "播放 / 暂停");
    assert_eq!(ShortcutAction::OpenSettings.label(), "打开快捷键设置");
    assert_eq!(ShortcutAction::SeekBackward.default_accelerator(), "Left");
    for (i, action) in ShortcutAction::ALL.iter().enumerate() {
        assert_eq!(action.ordinal_of() as usize, i);
        assert_eq!(ShortcutAction::from_ordinal(i as u8), *action);
    }
}

#[test]
fn shortcuts_live_in_the_config_dir() {
    let paths = XdgPaths::new(Some("/home/a".to_string()), None, None, None);
    assert_eq!(ShortcutSettings::path(&paths), "/home/a/.config/vmedia/shortcuts.json");
}

#[test]
fn action_for_keys_takes_the_first_matching_action() {
    let mut matches = vec![false; 14];
    assert_eq!(vmedia::shortcuts::action_for_keys(&matches), None);
    matches[5] = true;
    matches[9] = true;
    assert_eq!(
        vmedia::shortcuts::action_for_keys(&matches),
        Some(ShortcutAction::ALL[5])
    );
    assert_eq!(vmedia::shortcuts::action_for_keys(&Vec::new()), None);
}

#[test]
fn conflicting_action_skips_the_action_itself() {
    let own = ShortcutAction::ALL[3];
    let mut same = vec![false; 14];
    same[3] = true;
    assert_eq!(vmedia::shortcuts::conflicting_action(own, &same), None);
    same[7] = true;
    assert_eq!(
        vmedia::shortcuts::conflicting_action(own, &same),
        Some(ShortcutAction::ALL[7])
    );
}

fn stored_name(action: ShortcutAction) -> &'static str {
    match action {
        ShortcutAction::TogglePause => "toggle_pause",
        ShortcutAction::SeekBackward => "seek_backward",
        ShortcutAction::SeekForward => "seek_forward",
        ShortcutAction::VolumeUp => "volume_up",
        ShortcutAction::VolumeDown => "volume_down",
        ShortcutAction::ToggleFullscreen => "toggle_fullscreen",
        ShortcutAction::ToggleMute => "toggle_mute",
        ShortcutAction::Screenshot => "screenshot",
        ShortcutAction::Stop => "stop",
        ShortcutAction::SpeedDown => "speed_down",
        ShortcutAction::SpeedUp => "speed_up",
        ShortcutAction::OpenFile => "open_file",
        ShortcutAction::TogglePlaylist => "toggle_playlist",
        ShortcutAction::OpenSettings => "open_settings",
    }
}

#[test]
fn serialized_settings_preserve_disabled_bindings() {
    let mut settings = ShortcutSettings::default();
    settings.set_binding(ShortcutAction::Screenshot, None);

    let mut bindings = serde_json::Map::new();
    for (action, binding) in settings.entries() {
        let value = match binding {
            Some(text) => serde_json::Value::String(text),
            None => serde_json::Value::Null,
        };
        bindings.insert(stored_name(action).to_string(), value);
    }
    let mut root = serde_json::Map::new();
    root.insert("bindings".to_string(), serde_json::Value::Object(bindings));
    let json = serde_json::to_string(&serde_json::Value::Object(root)).expect("serialize settings");

    let parsed: serde_json::Value = serde_json::from_str(&json).expect("restore settings");
    let stored = parsed.get("bindings").and_then(|b| b.as_object()).expect("bindings");
    let mut entries = Vec::new();
    for action in ShortcutAction::ALL {
        if let Some(value) = stored.get(stored_name(action)) {
            entries.push((action, value.as_str().map(|s| s.to_string())));
        }
    }
    let mut restored = ShortcutSettings::from_entries(entries);
    restored.fill_missing_defaults();

    assert_eq!(restored.binding(ShortcutAction::Screenshot), None);
}

#[test]
fn default_keys_follow_the_documented_table() {
    let settings = ShortcutSettings::default();
    assert_eq!(settings.binding(ShortcutAction::TogglePause), Some("space"));
    assert_eq!(settings.binding(ShortcutAction::SeekBackward), Some("Left"));
    assert_eq!(settings.binding(ShortcutAction::SeekForward), Some("Right"));
    assert_eq!(settings.binding(ShortcutAction::VolumeUp), Some("Up"));
    assert_eq!(settings.binding(ShortcutAction::VolumeDown), Some("Down"));
    assert_eq!(settings.binding(ShortcutAction::ToggleMute), Some("m"));
    assert_eq!(settings.binding(ShortcutAction::ToggleFullscreen), Some("f"));
    assert_eq!(settings.binding(ShortcutAction::OpenFile), Some("o"));
    assert_eq!(settings.binding(ShortcutAction::TogglePlaylist), Some("l"));
}
