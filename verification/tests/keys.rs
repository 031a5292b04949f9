use vmedia::command::AppCommand;
use vmedia::keys::{
    accelerator_matches_event, accelerators_equal, capture_heading, capture_outcome,
    conflict_message, is_modifier_key, key_press_response, normalized_modifiers, row_visible,
    shortcut_row_visible,
    shortcut_display_text, CaptureOutcome, KeyCombo, KEY_BACKSPACE, KEY_ESCAPE, KEY_F11, KEY_LEFT,
    KEY_RIGHT, KEY_SHIFT_L, SHIFT_MASK,
};
use vmedia::shortcuts::ShortcutAction;
use vmedia::view::ShortcutResponse;

const MASK: u32 = 0b1000_1101;

#[test]
fn modifier_keys_are_recognised() {
    for key in [
        0xffe1, 0xffe2, 0xffe3, 0xffe4, 0xffe9, 0xffea, 0xffeb, 0xffec, 0xffe7, 0xffe8, 0xfe03,
        0xffe5, 0xff7f,
    ] {
        assert!(is_modifier_key(key), "{key:#x}");
    }
    assert!(!is_modifier_key(0x61));
    assert!(!is_modifier_key(KEY_ESCAPE));
    assert!(!is_modifier_key(0xffe6));
}

#[test]
fn modifiers_outside_the_mask_do_not_count() {
    assert_eq!(normalized_modifiers(0b1111_0001, MASK), 0b1000_0001);
    let plain = KeyCombo { key: 0x61, modifiers: 0b0100_0100 };
    let same = KeyCombo { key: 0x61, modifiers: 0b0000_0100 };
    let other_key = KeyCombo { key: 0x62, modifiers: 0b0000_0100 };
    assert!(accelerators_equal(Some(plain), Some(same), MASK));
    assert!(!accelerators_equal(Some(plain), Some(other_key), MASK));
    assert!(!accelerators_equal(None, Some(same), MASK));
    assert!(!accelerators_equal(Some(same), None, MASK));
}

#[test]
fn pressed_keys_match_recorded_combinations() {
    let ctrl_o = KeyCombo { key: 0x6f, modifiers: 0b0000_0100 };
    assert!(accelerator_matches_event(Some(ctrl_o), 0x6f, 0b0000_0100, MASK));
    assert!(!accelerator_matches_event(Some(ctrl_o), 0x6f, 0, MASK));
    assert!(!accelerator_matches_event(Some(ctrl_o), 0x70, 0b0000_0100, MASK));
    assert!(!accelerator_matches_event(None, 0x6f, 0b0000_0100, MASK));
}

#[test]
fn display_text_falls_back_to_unset() {
    assert_eq!(shortcut_display_text(Some("Ctrl+O".to_string())), "Ctrl+O");
    assert_eq!(shortcut_display_text(Some(String::new())), "未设置");
    assert_eq!(shortcut_display_text(None), "未设置");
}

#[test]
fn capture_outcomes() {
    assert_eq!(capture_outcome(KEY_ESCAPE, Some(ShortcutAction::Stop)), CaptureOutcome::Cancel);
    assert_eq!(capture_outcome(KEY_BACKSPACE, None), CaptureOutcome::Clear);
    assert_eq!(capture_outcome(KEY_SHIFT_L, None), CaptureOutcome::NeedKey);
    assert_eq!(
        capture_outcome(0x6b, Some(ShortcutAction::Stop)),
        CaptureOutcome::Conflict(ShortcutAction::Stop)
    );
    assert_eq!(capture_outcome(0x6b, None), CaptureOutcome::Bind);
}

#[test]
fn capture_texts_name_the_action() {
    let label = ShortcutAction::Stop.label();
    assert_eq!(capture_heading(ShortcutAction::Stop), format!("设置“{label}”快捷键"));
    assert_eq!(
        conflict_message(ShortcutAction::Stop),
        format!("该快捷键已被“{label}”使用，请选择其他按键。")
    );
}

#[test]
fn key_presses_in_the_player_window() {
    assert!(key_press_response(true, KEY_ESCAPE, 0, true, Some(ShortcutAction::Stop), 0, 1000).is_none());
    assert!(matches!(
        key_press_response(false, KEY_ESCAPE, 0, true, Some(ShortcutAction::Stop), 0, 1000),
        Some(ShortcutResponse::Send(AppCommand::SetFullscreen(false)))
    ));
    assert!(matches!(
        key_press_response(false, KEY_ESCAPE, 0, false, Some(ShortcutAction::Stop), 0, 1000),
        Some(ShortcutResponse::Send(AppCommand::Stop))
    ));
    assert!(key_press_response(false, 0x61, 0, false, None, 0, 1000).is_none());
    assert!(matches!(
        key_press_response(false, 0x61, 0, false, Some(ShortcutAction::VolumeUp), 50_000, 1000),
        Some(ShortcutResponse::AdjustVolume(55_000))
    ));
}

#[test]
fn rows_show_for_matching_searches() {
    assert!(row_visible("提高音量", ""));
    assert!(row_visible("提高音量", "音量"));
    assert!(!row_visible("提高音量", "全屏"));
    assert!(shortcut_row_visible(ShortcutAction::VolumeUp, "  音量 "));
    assert!(shortcut_row_visible(ShortcutAction::VolumeUp, "   "));
    assert!(!shortcut_row_visible(ShortcutAction::VolumeUp, "全屏"));
    assert!(shortcut_row_visible(ShortcutAction::SeekForward, "5 秒"));
}

#[test]
fn unbound_f11_and_shifted_arrows() {
    assert!(matches!(
        key_press_response(false, KEY_F11, 0, false, None, 0, 1000),
        Some(ShortcutResponse::Send(AppCommand::SetFullscreen(true)))
    ));
    assert!(matches!(
        key_press_response(false, KEY_F11, 0, true, None, 0, 1000),
        Some(ShortcutResponse::Send(AppCommand::SetFullscreen(false)))
    ));
    assert!(matches!(
        key_press_response(false, KEY_LEFT, SHIFT_MASK, false, None, 0, 1000),
        Some(ShortcutResponse::Send(AppCommand::SeekRelative(-30_000)))
    ));
    assert!(matches!(
        key_press_response(false, KEY_RIGHT, SHIFT_MASK, false, None, 0, 1000),
        Some(ShortcutResponse::Send(AppCommand::SeekRelative(30_000)))
    ));
    assert!(key_press_response(false, KEY_LEFT, 0, false, None, 0, 1000).is_none());
    assert!(matches!(
        key_press_response(false, KEY_LEFT, SHIFT_MASK, false, Some(ShortcutAction::Stop), 0, 1000),
        Some(ShortcutResponse::Send(AppCommand::Stop))
    ));
    assert!(key_press_response(true, KEY_F11, 0, false, None, 0, 1000).is_none());
}
