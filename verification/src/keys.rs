//! Key presses as the shortcut handling reads them: key values (the X11 key
//! symbols that GDK uses), modifier masks, and the rules that match a pressed
//! combination against a recorded one.
use vstd::prelude::*;
use crate::shortcuts::ShortcutAction;
use crate::text::{lowercase, push_text, to_lowercase, trim_text, trim_white_space};
use crate::path::{contains_str, contains_text};
use crate::view::{response_to, shortcut_response, ShortcutResponse};
use crate::command::AppCommand;

verus! {

pub const KEY_BACKSPACE: u32 = 0xff08;
pub const KEY_ESCAPE: u32 = 0xff1b;
pub const KEY_NUM_LOCK: u32 = 0xff7f;
pub const KEY_ISO_LEVEL3_SHIFT: u32 = 0xfe03;
pub const KEY_SHIFT_L: u32 = 0xffe1;
pub const KEY_SHIFT_R: u32 = 0xffe2;
pub const KEY_CONTROL_L: u32 = 0xffe3;
pub const KEY_CONTROL_R: u32 = 0xffe4;
pub const KEY_CAPS_LOCK: u32 = 0xffe5;
pub const KEY_META_L: u32 = 0xffe7;
pub const KEY_META_R: u32 = 0xffe8;
pub const KEY_ALT_L: u32 = 0xffe9;
pub const KEY_ALT_R: u32 = 0xffea;
pub const KEY_SUPER_L: u32 = 0xffeb;
pub const KEY_SUPER_R: u32 = 0xffec;
pub const KEY_LEFT: u32 = 0xff51;
pub const KEY_RIGHT: u32 = 0xff53;
pub const KEY_F11: u32 = 0xffc8;

/// The modifier bit of the shift keys.
pub const SHIFT_MASK: u32 = 1;

/// The keys that only modify others: shift, control, alt, super, meta, the
/// third-level shift, and the lock keys.
pub open spec fn modifier_keyval(key: u32) -> bool {
    ||| key == KEY_SHIFT_L
    ||| key == KEY_SHIFT_R
    ||| key == KEY_CONTROL_L
    ||| key == KEY_CONTROL_R
    ||| key == KEY_ALT_L
    ||| key == KEY_ALT_R
    ||| key == KEY_SUPER_L
    ||| key == KEY_SUPER_R
    ||| key == KEY_META_L
    ||| key == KEY_META_R
    ||| key == KEY_ISO_LEVEL3_SHIFT
    ||| key == KEY_CAPS_LOCK
    ||| key == KEY_NUM_LOCK
}

/// Whether `key` only modifies others.
pub fn is_modifier_key(key: u32) -> (r: bool)
    ensures
        r == modifier_keyval(key),
{
    key == KEY_SHIFT_L || key == KEY_SHIFT_R || key == KEY_CONTROL_L || key == KEY_CONTROL_R
        || key == KEY_ALT_L || key == KEY_ALT_R || key == KEY_SUPER_L || key == KEY_SUPER_R
        || key == KEY_META_L || key == KEY_META_R || key == KEY_ISO_LEVEL3_SHIFT
        || key == KEY_CAPS_LOCK || key == KEY_NUM_LOCK
}

/// A key combination: a key value, already in lower case, and its modifier
/// bits.
#[derive(Clone, Copy, Debug, PartialEq, Eq, Structural)]
pub struct KeyCombo {
    pub key: u32,
    pub modifiers: u32,
}

/// The modifier bits that count for shortcuts: those of `mask`, the default
/// modifier mask.
pub fn normalized_modifiers(modifiers: u32, mask: u32) -> (r: u32)
    ensures
        r == modifiers & mask,
{
    modifiers & mask
}

/// Whether two recorded combinations are the same shortcut: same key and same
/// modifiers within `mask`.  A combination that could not be read matches
/// nothing.
pub fn accelerators_equal(left: Option<KeyCombo>, right: Option<KeyCombo>, mask: u32) -> (r: bool)
    ensures
        r == match (left, right) {
            (Some(l), Some(rt)) => l.key == rt.key && l.modifiers & mask == rt.modifiers & mask,
            _ => false,
        },
{
    match (left, right) {
        (Some(l), Some(rt)) => l.key == rt.key && normalized_modifiers(l.modifiers, mask)
            == normalized_modifiers(rt.modifiers, mask),
        _ => false,
    }
}

/// Whether a recorded combination matches a pressed key (in lower case) with
/// `modifiers`, already limited to `mask`.
pub fn accelerator_matches_event(shortcut: Option<KeyCombo>, key: u32, modifiers: u32, mask: u32) -> (r:
    bool)
    ensures
        r == match shortcut {
            Some(s) => s.key == key && s.modifiers & mask == modifiers,
            None => false,
        },
{
    match shortcut {
        Some(s) => s.key == key && normalized_modifiers(s.modifiers, mask) == modifiers,
        None => false,
    }
}

/// The text a shortcut row shows: the readable label of its combination, or
/// "未设置" when there is none or it reads as empty.
pub fn shortcut_display_text(label: Option<String>) -> (s: String)
    ensures
        s@ == match label {
            Some(l) => if l@.len() > 0 {
                l@
            } else {
                "未设置"@
            },
            None => "未设置"@,
        },
{
    match label {
        Some(l) => {
            if l.unicode_len() > 0 {
                l
            } else {
                "未设置".to_string()
            }
        },
        None => "未设置".to_string(),
    }
}

/// What a key pressed while recording a shortcut does.
#[derive(Clone, Copy, Debug, PartialEq, Eq, Structural)]
pub enum CaptureOutcome {
    /// Escape: leave the binding as it is.
    Cancel,
    /// Backspace: remove the binding.
    Clear,
    /// A modifier alone: wait for a key to go with it.
    NeedKey,
    /// The combination already belongs to another action.
    Conflict(ShortcutAction),
    /// Record the combination.
    Bind,
}

/// What pressing `key` does while recording a shortcut, `conflict` being the
/// other action that already uses the pressed combination, if any.
pub fn capture_outcome(key: u32, conflict: Option<ShortcutAction>) -> (o: CaptureOutcome)
    ensures
        o == if key == KEY_ESCAPE {
            CaptureOutcome::Cancel
        } else if key == KEY_BACKSPACE {
            CaptureOutcome::Clear
        } else if modifier_keyval(key) {
            CaptureOutcome::NeedKey
        } else {
            match conflict {
                Some(a) => CaptureOutcome::Conflict(a),
                None => CaptureOutcome::Bind,
            }
        },
{
    if key == KEY_ESCAPE {
        CaptureOutcome::Cancel
    } else if key == KEY_BACKSPACE {
        CaptureOutcome::Clear
    } else if is_modifier_key(key) {
        CaptureOutcome::NeedKey
    } else {
        match conflict {
            Some(a) => CaptureOutcome::Conflict(a),
            None => CaptureOutcome::Bind,
        }
    }
}

/// The heading of the dialog that records a shortcut for `action`.
pub fn capture_heading(action: ShortcutAction) -> (s: String)
    ensures
        s@ == "设置“"@ + action.label_text() + "”快捷键"@,
{
    let mut s = String::new();
    push_text(&mut s, "设置“");
    push_text(&mut s, action.label());
    push_text(&mut s, "”快捷键");
    s
}

/// The message that says a combination already belongs to `other`.
pub fn conflict_message(other: ShortcutAction) -> (s: String)
    ensures
        s@ == "该快捷键已被“"@ + other.label_text() + "”使用，请选择其他按键。"@,
{
    let mut s = String::new();
    push_text(&mut s, "该快捷键已被“");
    push_text(&mut s, other.label());
    push_text(&mut s, "”使用，请选择其他按键。");
    s
}

/// What a key press in the player window does, for `key` with `modifiers`
/// (limited to the default modifier mask) and `action`, the action whose
/// binding the press matches, if any.  Nothing happens while a slider has the
/// focus; Escape always leaves fullscreen; otherwise the bound action responds.
/// Without one, F11 switches fullscreen and shift with the left or right arrow
/// seeks thirty seconds back or forth.
pub open spec fn key_response(
    slider_focused: bool,
    key: u32,
    modifiers: u32,
    is_fullscreen: bool,
    action: Option<ShortcutAction>,
    volume_milli: i64,
    speed_milli: i64,
) -> Option<ShortcutResponse> {
    if slider_focused {
        None
    } else if key == KEY_ESCAPE && is_fullscreen {
        Some(ShortcutResponse::Send(AppCommand::SetFullscreen(false)))
    } else {
        match action {
            Some(a) => Some(response_to(a, volume_milli, speed_milli, is_fullscreen)),
            None => if key == KEY_F11 && modifiers == 0 {
                Some(ShortcutResponse::Send(AppCommand::SetFullscreen(!is_fullscreen)))
            } else if key == KEY_LEFT && modifiers == SHIFT_MASK {
                Some(ShortcutResponse::Send(AppCommand::SeekRelative(-30_000i64)))
            } else if key == KEY_RIGHT && modifiers == SHIFT_MASK {
                Some(ShortcutResponse::Send(AppCommand::SeekRelative(30_000i64)))
            } else {
                None
            },
        }
    }
}

/// The keys that work without a binding: in fullscreen, Escape leaves it; F11
/// switches to the other fullscreen setting; shift with the left arrow seeks
/// thirty seconds back and with the right arrow thirty seconds forward.  A
/// focused slider keeps every key to itself.
pub proof fn lemma_fixed_keys(modifiers: u32, is_fullscreen: bool, volume_milli: i64, speed_milli: i64)
    ensures
        key_response(false, KEY_ESCAPE, modifiers, true, None, volume_milli, speed_milli) == Some(
            ShortcutResponse::Send(AppCommand::SetFullscreen(false)),
        ),
        key_response(false, KEY_F11, 0, is_fullscreen, None, volume_milli, speed_milli) matches Some(
            ShortcutResponse::Send(AppCommand::SetFullscreen(on)),
        ) && on != is_fullscreen,
        key_response(false, KEY_LEFT, SHIFT_MASK, is_fullscreen, None, volume_milli, speed_milli) == Some(
            ShortcutResponse::Send(AppCommand::SeekRelative(-30_000i64)),
        ),
        key_response(false, KEY_RIGHT, SHIFT_MASK, is_fullscreen, None, volume_milli, speed_milli) == Some(
            ShortcutResponse::Send(AppCommand::SeekRelative(30_000i64)),
        ),
        forall|key: u32, a: Option<ShortcutAction>|
            key_response(true, key, modifiers, is_fullscreen, a, volume_milli, speed_milli) is None,
{
}

/// What a key press in the player window does (see [`key_response`]).
pub fn key_press_response(
    slider_focused: bool,
    key: u32,
    modifiers: u32,
    is_fullscreen: bool,
    action: Option<ShortcutAction>,
    volume_milli: i64,
    speed_milli: i64,
) -> (r: Option<ShortcutResponse>)
    ensures
        r == key_response(slider_focused, key, modifiers, is_fullscreen, action, volume_milli, speed_milli),
{
    if slider_focused {
        return None;
    }
    if key == KEY_ESCAPE && is_fullscreen {
        return Some(ShortcutResponse::Send(AppCommand::SetFullscreen(false)));
    }
    match action {
        Some(a) => Some(shortcut_response(a, volume_milli, speed_milli, is_fullscreen)),
        None => if key == KEY_F11 && modifiers == 0 {
            Some(ShortcutResponse::Send(AppCommand::SetFullscreen(!is_fullscreen)))
        } else if key == KEY_LEFT && modifiers == SHIFT_MASK {
            Some(ShortcutResponse::Send(AppCommand::SeekRelative(-30_000)))
        } else if key == KEY_RIGHT && modifiers == SHIFT_MASK {
            Some(ShortcutResponse::Send(AppCommand::SeekRelative(30_000)))
        } else {
            None
        },
    }
}

/// Whether a shortcut row with the lower-case label `label` shows for the
/// lower-case, trimmed search `query`: every row shows for an empty search,
/// otherwise the rows whose label contains it.
pub fn row_visible(label: &str, query: &str) -> (r: bool)
    ensures
        r == (query@.len() == 0 || contains_text(label@, query@)),
{
    query.unicode_len() == 0 || contains_str(label, query)
}

/// Whether the shortcut row of `action` shows while the search field holds
/// `search`: the search is trimmed, and both it and the label are taken in
/// lower case.
pub fn shortcut_row_visible(action: ShortcutAction, search: &str) -> (r: bool)
    ensures
        r == ({
            let q = lowercase(trim_white_space(search@));
            q.len() == 0 || contains_text(lowercase(action.label_text()), q)
        }),
{
    let trimmed = trim_text(search);
    let query = to_lowercase(trimmed.as_str());
    let label = to_lowercase(action.label());
    row_visible(label.as_str(), query.as_str())
}

} // verus!
