//! Notifications of what happened in the player.
//!
//! Times are in milliseconds; volume in thousandths of a percent point (full
//! volume is `100_000`), speed in thousandths (`1_000` is normal speed).
use vstd::prelude::*;

use crate::models::{MediaSource, Track};

verus! {

/// A change that the application state takes in.
#[derive(Debug)]
pub enum AppEvent {
    PlaybackLoaded { media: MediaSource },
    PlaybackUnloaded,
    PlaybackPaused(bool),
    PlaybackEnded,
    PositionUpdated { position_ms: i64, duration_ms: i64 },
    VolumeUpdated(i64),
    MuteChanged(bool),
    FullscreenChanged(bool),
    SpeedChanged(i64),
    TracksUpdated { audio: Vec<Track>, subtitles: Vec<Track> },
    MediaInfoAvailable {
        media_title: Option<String>,
        video_codec: Option<String>,
        audio_codec: Option<String>,
        video_width: Option<i64>,
        video_height: Option<i64>,
    },
    ScreenshotTaken(String),
    SubtitleDelayChanged(i64),
    AudioDelayChanged(i64),
    ABLoopChanged { a: Option<i64>, b: Option<i64> },
    StatusMessage(String),
    Error(String),
}

} // verus!
