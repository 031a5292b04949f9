//! Requests that the user interface sends to the player.
//!
//! Times are in milliseconds, volume and speed in thousandths (a volume of
//! `50_000` is fifty percent, a speed of `1_000` is normal speed).
use vstd::prelude::*;

verus! {

/// A request to the player.
#[derive(Debug)]
pub enum AppCommand {
    OpenFile(String),
    TogglePause,
    SeekRelative(i64),
    SeekAbsolute(i64),
    SetVolume(i64),
    SelectSubtitle(i64),
    SelectAudio(i64),
    SetFullscreen(bool),
    LoadExternalSubtitle(String),
    Stop,
    RefreshState,
    SetSpeed(i64),
    SetSubtitleDelay(i64),
    SetAudioDelay(i64),
    Screenshot,
    SetABLoop { a: Option<i64>, b: Option<i64> },
    ToggleMute,
}

} // verus!
