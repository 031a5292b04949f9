//! What the player window shows for a state, and how user input becomes
//! commands.
use vstd::prelude::*;

use crate::command::AppCommand;
use crate::path::{file_name, file_name_of, same_path, same_path_text};
use crate::shortcuts::ShortcutAction;
use crate::state::AppState;
use crate::text::{clock_text, fixed1, format_time, push_fixed1, push_text, whole_seconds};

verus! {

/// The volume icon for a volume (in thousandths of a percent) and mute setting.
pub open spec fn volume_icon(volume_milli: i64, is_muted: bool) -> Seq<char> {
    if is_muted || volume_milli <= 0 {
        "audio-volume-muted-symbolic"@
    } else if volume_milli <= 25_000 {
        "audio-volume-low-symbolic"@
    } else if volume_milli <= 50_000 {
        "audio-volume-medium-symbolic"@
    } else if volume_milli <= 75_000 {
        "audio-volume-high-symbolic"@
    } else {
        "audio-volume-overamplified-symbolic"@
    }
}

/// The volume icon: muted, then one of four steps of a quarter each.
pub fn volume_icon_name(volume_milli: i64, is_muted: bool) -> (icon: &'static str)
    ensures
        icon@ == volume_icon(volume_milli, is_muted),
{
    if is_muted || volume_milli <= 0 {
        "audio-volume-muted-symbolic"
    } else if volume_milli <= 25_000 {
        "audio-volume-low-symbolic"
    } else if volume_milli <= 50_000 {
        "audio-volume-medium-symbolic"
    } else if volume_milli <= 75_000 {
        "audio-volume-high-symbolic"
    } else {
        "audio-volume-overamplified-symbolic"
    }
}

/// The play button shows "pause" while media plays unpaused, else "play".
pub fn play_pause_icon_name(state: &AppState) -> (icon: &'static str)
    ensures
        icon@ == if state.playback.current_media is Some && !state.playback.is_paused {
            "media-playback-pause-symbolic"@
        } else {
            "media-playback-start-symbolic"@
        },
{
    if state.playback.current_media.is_some() && !state.playback.is_paused {
        "media-playback-pause-symbolic"
    } else {
        "media-playback-start-symbolic"
    }
}

/// The fullscreen button shows "restore" in fullscreen, else "fullscreen".
pub fn fullscreen_icon_name(is_fullscreen: bool) -> (icon: &'static str)
    ensures
        icon@ == if is_fullscreen {
            "view-restore-symbolic"@
        } else {
            "view-fullscreen-symbolic"@
        },
{
    if is_fullscreen {
        "view-restore-symbolic"
    } else {
        "view-fullscreen-symbolic"
    }
}

/// The speed label: the speed with one decimal and an `x`.
pub fn speed_label(speed_milli: i64) -> (label: String)
    ensures
        label@ == fixed1(speed_milli as int) + "x"@,
{
    let mut label = String::new();
    push_fixed1(&mut label, speed_milli);
    push_text(&mut label, "x");
    label
}

/// The window title: the file name of the current media, else the player's name.
pub open spec fn title_of(state: AppState) -> Seq<char> {
    match state.playback.current_media {
        Some(m) => match file_name(m.path@) {
            Some(n) => n,
            None => "VMedia"@,
        },
        None => "VMedia"@,
    }
}

/// The window title for a state.
pub fn window_title(state: &AppState) -> (title: String)
    ensures
        title@ == title_of(*state),
{
    match &state.playback.current_media {
        Some(media) => match file_name_of(media.path.as_str()) {
            Some(name) => name,
            None => "VMedia".to_string(),
        },
        None => "VMedia".to_string(),
    }
}

/// What the seek bar shows: its upper end, where its knob stands, and whether
/// it takes input.
#[derive(Debug, Clone, Copy, PartialEq, Eq, Structural)]
pub struct SeekBarModel {
    pub upper_ms: i64,
    pub value_ms: i64,
    pub sensitive: bool,
}

/// The seek bar for a position and duration: the bar spans at least one
/// second, the knob stays on the bar, and the bar takes input only for media
/// of known length.
pub fn seek_bar_model(position_ms: i64, duration_ms: i64) -> (m: SeekBarModel)
    ensures
        m.upper_ms == if duration_ms > 1000 {
            duration_ms
        } else {
            1000
        },
        m.value_ms == if position_ms < 0 {
            0
        } else if position_ms > m.upper_ms {
            m.upper_ms
        } else {
            position_ms
        },
        m.sensitive == (duration_ms > 0),
{
    let upper = if duration_ms > 1000 {
        duration_ms
    } else {
        1000
    };
    let value = if position_ms < 0 {
        0
    } else if position_ms > upper {
        upper
    } else {
        position_ms
    };
    SeekBarModel { upper_ms: upper, value_ms: value, sensitive: duration_ms > 0 }
}

/// `a - b`, held within the range of `i64`.
pub open spec fn clamped_difference(a: i64, b: i64) -> int {
    let d = a - b;
    if d > i64::MAX {
        i64::MAX as int
    } else if d < i64::MIN {
        i64::MIN as int
    } else {
        d
    }
}

/// The two time labels beside the seek bar: time played, and time left with a
/// minus sign.
pub fn time_labels(position_ms: i64, duration_ms: i64) -> (labels: (String, String))
    ensures
        labels.0@ == clock_text(whole_seconds(position_ms as int)),
        labels.1@ == seq!['-'] + clock_text(whole_seconds(clamped_difference(duration_ms, position_ms))),
{
    let elapsed = format_time(position_ms);
    let wide = (duration_ms as i128) - (position_ms as i128);
    let left: i64 = if wide > i64::MAX as i128 {
        i64::MAX
    } else if wide < i64::MIN as i128 {
        i64::MIN
    } else {
        wide as i64
    };
    let mut remaining = "-".to_string();
    let left_text = format_time(left);
    remaining.append(left_text.as_str());
    proof {
        reveal_strlit("-");
        assert("-"@ =~= seq!['-']);
    }
    (elapsed, remaining)
}

/// What the area behind the controls shows.
#[derive(Debug)]
pub enum Placeholder {
    /// Rendering failed: the message, with the open button.
    Problem(String),
    /// Media is loaded but no frame is shown yet: a spinner.
    Preparing,
    /// A frame is shown: nothing in front of it.
    Hidden,
    /// No media: the welcome card with the open button and shortcut hints.
    Welcome,
}

/// The render error to show: a fatal one before one of the current media.
pub fn active_render_error(fatal: Option<&String>, media: Option<&String>) -> (r: Option<String>)
    ensures
        r == match fatal {
            Some(f) => Some(*f),
            None => match media {
                Some(m) => Some(*m),
                None => None,
            },
        },
{
    match fatal {
        Some(f) => Some(f.clone()),
        None => match media {
            Some(m) => Some(m.clone()),
            None => None,
        },
    }
}

/// What to show behind the controls: a render error wins; with media, a
/// spinner until the first frame, then nothing; without media, the welcome card.
pub fn placeholder_for(has_media: bool, render_error: Option<String>, has_rendered_frame: bool) -> (p:
    Placeholder)
    ensures
        render_error is Some ==> p == Placeholder::Problem(render_error->0),
        render_error is None && has_media && !has_rendered_frame ==> p == Placeholder::Preparing,
        render_error is None && has_media && has_rendered_frame ==> p == Placeholder::Hidden,
        render_error is None && !has_media ==> p == Placeholder::Welcome,
{
    match render_error {
        Some(e) => Placeholder::Problem(e),
        None => if has_media {
            if has_rendered_frame {
                Placeholder::Hidden
            } else {
                Placeholder::Preparing
            }
        } else {
            Placeholder::Welcome
        },
    }
}

/// Remembers the path of the media shown last; says whether it changed.
pub fn sync_media_session(last: &mut Option<String>, current: Option<&String>) -> (changed: bool)
    ensures
        changed == !match (*old(last), current) {
            (Some(a), Some(b)) => same_path(a@, b@),
            (None, None) => true,
            _ => false,
        },
        changed ==> *final(last) == match current {
            Some(c) => Some(*c),
            None => None,
        },
        !changed ==> *final(last) == *old(last),
{
    let same = match (&*last, current) {
        (Some(a), Some(b)) => same_path_text(a.as_str(), b.as_str()),
        (None, None) => true,
        _ => false,
    };
    if same {
        return false;
    }
    *last = match current {
        Some(c) => Some(c.clone()),
        None => None,
    };
    true
}

/// The widths of the playlist drawer and of the controls for an overlay
/// `overlay_width` pixels wide; none for an overlay too narrow to lay out.
pub open spec fn layout_widths(overlay_width: i32) -> Option<(int, int)> {
    if overlay_width <= 100 {
        None
    } else {
        let preferred_panel = clamp(overlay_width * 36 / 100, 360, 720);
        let panel = min(preferred_panel, max(overlay_width - 440, 320));
        let controls = min(overlay_width * 60 / 100, 600);
        Some((panel, controls))
    }
}

/// `x` held between `lo` and `hi`.
pub open spec fn clamp(x: int, lo: int, hi: int) -> int {
    if x < lo {
        lo
    } else if x > hi {
        hi
    } else {
        x
    }
}

/// The smaller of two values.
pub open spec fn min(a: int, b: int) -> int {
    if a < b {
        a
    } else {
        b
    }
}

/// The larger of two values.
pub open spec fn max(a: int, b: int) -> int {
    if a > b {
        a
    } else {
        b
    }
}

/// The playlist drawer takes 36% of the overlay (between 360 and 720 pixels,
/// leaving 440 pixels but keeping at least 320); the controls take 60% of it,
/// at most 600 pixels.
pub fn player_layout(overlay_width: i32) -> (r: Option<(i32, i32)>)
    ensures
        match layout_widths(overlay_width) {
            Some((panel, controls)) => r == Some((panel as i32, controls as i32)),
            None => r is None,
        },
{
    if overlay_width <= 100 {
        return None;
    }
    let ow = overlay_width as i64;
    let preferred = ow * 36 / 100;
    let preferred = if preferred < 360 {
        360
    } else if preferred > 720 {
        720
    } else {
        preferred
    };
    let room = if ow - 440 > 320 {
        ow - 440
    } else {
        320
    };
    let panel = if preferred < room {
        preferred
    } else {
        room
    };
    let wanted = ow * 60 / 100;
    let controls = if wanted < 600 {
        wanted
    } else {
        600
    };
    Some((panel as i32, controls as i32))
}

/// The speeds the speed button steps through, in thousandths.
pub open spec fn speed_steps() -> Seq<i64> {
    seq![500, 750, 1000, 1250, 1500, 2000]
}

/// The position in the speed steps of normal speed, where the button starts.
pub const NORMAL_SPEED_STEP: usize = 2;

/// The next speed step after `index`, wrapping round, and its speed.
pub fn next_speed_step(index: usize) -> (r: (usize, i64))
    requires
        index < 6,
    ensures
        r.0 == (index + 1) % 6,
        r.1 == speed_steps()[r.0 as int],
{
    let steps: [i64; 6] = [500, 750, 1000, 1250, 1500, 2000];
    let next = (index + 1) % 6;
    assert(steps@ =~= speed_steps());
    (next, steps[next])
}

/// What a keyboard shortcut does.
#[derive(Debug)]
pub enum ShortcutResponse {
    /// Send a command to the player.
    Send(AppCommand),
    /// Move the volume slider to this volume and send it to the player.
    AdjustVolume(i64),
    /// Remember this speed and send it to the player.
    AdjustSpeed(i64),
    /// Open the file chooser.
    OpenFile,
    /// Show or hide the playlist.
    TogglePlaylist,
    /// Open the shortcut settings.
    OpenSettings,
}

/// The largest speed the speed keys reach, and the smallest.
pub const MAX_KEY_SPEED_MILLI: i64 = 3_000;
pub const MIN_KEY_SPEED_MILLI: i64 = 250;

/// What `action` does, given the volume slider's value, the speed the speed
/// keys last set, and whether the window is in fullscreen: seeking moves five
/// seconds, the volume keys move the slider five points within 0-100, the speed
/// keys move a quarter within 0.25x-3x.
pub open spec fn response_to(action: ShortcutAction, volume_milli: i64, speed_milli: i64, is_fullscreen: bool) -> ShortcutResponse {
    match action {
        ShortcutAction::TogglePause => ShortcutResponse::Send(AppCommand::TogglePause),
        ShortcutAction::SeekBackward => ShortcutResponse::Send(AppCommand::SeekRelative(-5000i64)),
        ShortcutAction::SeekForward => ShortcutResponse::Send(AppCommand::SeekRelative(5000i64)),
        ShortcutAction::VolumeUp => ShortcutResponse::AdjustVolume(
            clamp(volume_milli + 5000, 0, 100_000) as i64,
        ),
        ShortcutAction::VolumeDown => ShortcutResponse::AdjustVolume(
            clamp(volume_milli - 5000, 0, 100_000) as i64,
        ),
        ShortcutAction::ToggleFullscreen => ShortcutResponse::Send(AppCommand::SetFullscreen(!is_fullscreen)),
        ShortcutAction::ToggleMute => ShortcutResponse::Send(AppCommand::ToggleMute),
        ShortcutAction::Screenshot => ShortcutResponse::Send(AppCommand::Screenshot),
        ShortcutAction::Stop => ShortcutResponse::Send(AppCommand::Stop),
        ShortcutAction::SpeedDown => ShortcutResponse::AdjustSpeed(
            max(speed_milli - 250, MIN_KEY_SPEED_MILLI as int) as i64,
        ),
        ShortcutAction::SpeedUp => ShortcutResponse::AdjustSpeed(
            min(speed_milli + 250, MAX_KEY_SPEED_MILLI as int) as i64,
        ),
        ShortcutAction::OpenFile => ShortcutResponse::OpenFile,
        ShortcutAction::TogglePlaylist => ShortcutResponse::TogglePlaylist,
        ShortcutAction::OpenSettings => ShortcutResponse::OpenSettings,
    }
}

/// What `action` does (see [`response_to`]).
pub fn shortcut_response(action: ShortcutAction, volume_milli: i64, speed_milli: i64, is_fullscreen: bool) -> (r:
    ShortcutResponse)
    ensures
        r == response_to(action, volume_milli, speed_milli, is_fullscreen),
{
    match action {
        ShortcutAction::TogglePause => ShortcutResponse::Send(AppCommand::TogglePause),
        ShortcutAction::SeekBackward => ShortcutResponse::Send(AppCommand::SeekRelative(-5000)),
        ShortcutAction::SeekForward => ShortcutResponse::Send(AppCommand::SeekRelative(5000)),
        ShortcutAction::VolumeUp => ShortcutResponse::AdjustVolume(
            if volume_milli >= 95_000 {
                100_000
            } else if volume_milli < -5_000 {
                0
            } else {
                volume_milli + 5000
            },
        ),
        ShortcutAction::VolumeDown => ShortcutResponse::AdjustVolume(
            if volume_milli <= 5_000 {
                0
            } else if volume_milli > 105_000 {
                100_000
            } else {
                volume_milli - 5000
            },
        ),
        ShortcutAction::ToggleFullscreen => ShortcutResponse::Send(AppCommand::SetFullscreen(!is_fullscreen)),
        ShortcutAction::ToggleMute => ShortcutResponse::Send(AppCommand::ToggleMute),
        ShortcutAction::Screenshot => ShortcutResponse::Send(AppCommand::Screenshot),
        ShortcutAction::Stop => ShortcutResponse::Send(AppCommand::Stop),
        ShortcutAction::SpeedDown => ShortcutResponse::AdjustSpeed(
            if speed_milli <= MIN_KEY_SPEED_MILLI + 250 {
                MIN_KEY_SPEED_MILLI
            } else {
                speed_milli - 250
            },
        ),
        ShortcutAction::SpeedUp => ShortcutResponse::AdjustSpeed(
            if speed_milli >= MAX_KEY_SPEED_MILLI - 250 {
                MAX_KEY_SPEED_MILLI
            } else {
                speed_milli + 250
            },
        ),
        ShortcutAction::OpenFile => ShortcutResponse::OpenFile,
        ShortcutAction::TogglePlaylist => ShortcutResponse::TogglePlaylist,
        ShortcutAction::OpenSettings => ShortcutResponse::OpenSettings,
    }
}

/// The volume a scroll over the video asks for: five points above or below
/// the volume slider's value, within 0-100.
pub fn scroll_volume(scrolled_up: bool, volume_milli: i64) -> (v: i64)
    ensures
        v == if scrolled_up {
            clamp(volume_milli + 5000, 0, 100_000)
        } else {
            clamp(volume_milli - 5000, 0, 100_000)
        },
{
    if scrolled_up {
        if volume_milli >= 95_000 {
            100_000
        } else if volume_milli < -5_000 {
            0
        } else {
            volume_milli + 5000
        }
    } else {
        if volume_milli <= 5_000 {
            0
        } else if volume_milli > 105_000 {
            100_000
        } else {
            volume_milli - 5000
        }
    }
}

/// The seek keys move by five seconds, forward for seek-forward and back for
/// seek-backward, by the same distance in opposite directions; the volume keys
/// raise and lower the volume; the speed keys speed up and slow down; the
/// fullscreen key switches to the other fullscreen setting.
pub proof fn lemma_shortcut_directions(volume_milli: i64, speed_milli: i64, is_fullscreen: bool)
    ensures
        ({
            let fwd = response_to(ShortcutAction::SeekForward, volume_milli, speed_milli, is_fullscreen);
            let back = response_to(ShortcutAction::SeekBackward, volume_milli, speed_milli, is_fullscreen);
            &&& fwd == ShortcutResponse::Send(AppCommand::SeekRelative(5000i64))
            &&& back == ShortcutResponse::Send(AppCommand::SeekRelative(-5000i64))
        }),
        0 <= volume_milli < 100_000 ==> ({
            let r = response_to(ShortcutAction::VolumeUp, volume_milli, speed_milli, is_fullscreen);
            r matches ShortcutResponse::AdjustVolume(v) && volume_milli < v <= volume_milli + 5000
        }),
        0 < volume_milli <= 100_000 ==> ({
            let r = response_to(ShortcutAction::VolumeDown, volume_milli, speed_milli, is_fullscreen);
            r matches ShortcutResponse::AdjustVolume(v) && volume_milli - 5000 <= v < volume_milli
        }),
        MIN_KEY_SPEED_MILLI <= speed_milli < MAX_KEY_SPEED_MILLI ==> ({
            let r = response_to(ShortcutAction::SpeedUp, volume_milli, speed_milli, is_fullscreen);
            r matches ShortcutResponse::AdjustSpeed(v) && speed_milli < v <= speed_milli + 250
        }),
        MIN_KEY_SPEED_MILLI < speed_milli <= MAX_KEY_SPEED_MILLI ==> ({
            let r = response_to(ShortcutAction::SpeedDown, volume_milli, speed_milli, is_fullscreen);
            r matches ShortcutResponse::AdjustSpeed(v) && speed_milli - 250 <= v < speed_milli
        }),
        ({
            let r = response_to(ShortcutAction::ToggleFullscreen, volume_milli, speed_milli, is_fullscreen);
            r matches ShortcutResponse::Send(AppCommand::SetFullscreen(on)) && on != is_fullscreen
        }),
{
}

/// The volume keys and the speed keys keep their values in range: a volume
/// within 0-100 and a speed within 0.25x-3x stay there.
pub proof fn lemma_keys_stay_in_range(action: ShortcutAction, volume_milli: i64, speed_milli: i64, is_fullscreen: bool)
    requires
        0 <= volume_milli <= 100_000,
        MIN_KEY_SPEED_MILLI <= speed_milli <= MAX_KEY_SPEED_MILLI,
    ensures
        response_to(action, volume_milli, speed_milli, is_fullscreen) matches ShortcutResponse::AdjustVolume(v)
            ==> 0 <= v <= 100_000,
        response_to(action, volume_milli, speed_milli, is_fullscreen) matches ShortcutResponse::AdjustSpeed(s)
            ==> MIN_KEY_SPEED_MILLI <= s <= MAX_KEY_SPEED_MILLI,
{
}

} // verus!
