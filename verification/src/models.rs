//! The media the player handles: a source file, its tracks, and what the
//! decoder reports about it.
use vstd::prelude::*;

use crate::path::{file_name, file_name_of};

verus! {

/// A media file opened by the player, with the name shown for it.
#[derive(Debug)]
pub struct MediaSource {
    pub path: String,
    pub display_name: String,
}

impl MediaSource {
    /// The name shown for a file: its file name, or the whole path where the
    /// path names no file.
    pub open spec fn display_name_of(path: Seq<char>) -> Seq<char> {
        match file_name(path) {
            Some(name) => name,
            None => path,
        }
    }

    /// A media source for `path`, named after the file it points to.
    pub fn from_path(path: String) -> (media: Self)
        ensures
            media.path == path,
            media.display_name@ == Self::display_name_of(path@),
    {
        let display_name = match file_name_of(path.as_str()) {
            Some(name) => name,
            None => path.clone(),
        };
        MediaSource { path, display_name }
    }
}

impl Clone for MediaSource {
    fn clone(&self) -> (copy: Self)
        ensures
            copy == *self,
    {
        MediaSource { path: self.path.clone(), display_name: self.display_name.clone() }
    }
}

/// The kind of a selectable stream.
#[derive(Debug, Clone, Copy, PartialEq, Eq, Structural)]
pub enum TrackKind {
    Audio,
    Subtitle,
}

/// A selectable audio or subtitle stream of the loaded media.
#[derive(Debug)]
pub struct Track {
    pub id: i64,
    pub label: String,
    pub kind: TrackKind,
    pub selected: bool,
}

impl Clone for Track {
    fn clone(&self) -> (copy: Self)
        ensures
            copy == *self,
    {
        Track { id: self.id, label: self.label.clone(), kind: self.kind, selected: self.selected }
    }
}

/// A copy of a list of tracks.
pub fn copy_tracks(tracks: &Vec<Track>) -> (copy: Vec<Track>)
    ensures
        copy@ == tracks@,
{
    let copy = tracks.clone();
    assert(copy@ =~= tracks@);
    copy
}

/// Media information reported by the player backend.
#[derive(Debug)]
pub struct MediaInfo {
    pub media_title: Option<String>,
    pub video_codec: Option<String>,
    pub audio_codec: Option<String>,
    pub video_width: Option<i64>,
    pub video_height: Option<i64>,
}

impl MediaInfo {
    /// Information that says nothing: every field absent.
    pub open spec fn unknown() -> MediaInfo {
        MediaInfo {
            media_title: None,
            video_codec: None,
            audio_codec: None,
            video_width: None,
            video_height: None,
        }
    }
}

impl Default for MediaInfo {
    fn default() -> (info: Self)
        ensures
            info == MediaInfo::unknown(),
    {
        MediaInfo {
            media_title: None,
            video_codec: None,
            audio_codec: None,
            video_width: None,
            video_height: None,
        }
    }
}

/// A copy of an optional text.
pub fn copy_text(text: &Option<String>) -> (copy: Option<String>)
    ensures
        copy == *text,
{
    match text {
        Some(t) => Some(t.clone()),
        None => None,
    }
}

impl Clone for MediaInfo {
    fn clone(&self) -> (copy: Self)
        ensures
            copy == *self,
    {
        MediaInfo {
            media_title: copy_text(&self.media_title),
            video_codec: copy_text(&self.video_codec),
            audio_codec: copy_text(&self.audio_codec),
            video_width: self.video_width,
            video_height: self.video_height,
        }
    }
}

} // verus!
