use std::path::Path;

use vmedia::path::parent_of;
use vmedia::playlist::{
    extension_of, is_media_extension, is_media_name, playlist_files, stable_sort_order,
    text_less, ListedEntry, Playlist,
};

fn entry(name: &str, is_file: bool) -> ListedEntry {
    ListedEntry { name: name.to_string(), is_file }
}

#[test]
fn parent_matches_std_path_parent() {
    let cases = [
        "", "/", "//", "/.", "/a", "/a/", "/a/b.mp4", "a", "a/b", "a//b", "a/./b", "a/b/",
        "a/.", ".", "./", "./a", ".//a", "..", "../a", "a/..", "/a//b/./", "x/y/z.mkv",
    ];
    for case in cases {
        let expected = Path::new(case)
            .parent()
            .map(|p| p.to_str().unwrap().to_string());
        assert_eq!(parent_of(case), expected, "parent of {case:?}");
    }
}

#[test]
fn extension_matches_std_path_extension() {
    let cases = [
        "movie.mp4", "a.tar.gz", ".bashrc", "..mp4", "noext", "trailing.", "..", ".a.b",
        "Clip.MKV",
    ];
    for case in cases {
        let expected = Path::new(case)
            .extension()
            .map(|e| e.to_str().unwrap().to_string());
        assert_eq!(extension_of(case), expected, "extension of {case:?}");
    }
}

#[test]
fn media_extensions_are_recognised_in_lower_case_only() {
    for ext in [
        "mp4", "mkv", "avi", "mov", "wmv", "flv", "webm", "m4v", "ts", "mpg", "mpeg", "mp3",
        "flac", "wav", "ogg", "m4a", "aac", "wma",
    ] {
        assert!(is_media_extension(ext), "{ext}");
    }
    assert!(!is_media_extension("MP4"));
    assert!(!is_media_extension("txt"));
    assert!(!is_media_extension(""));
}

#[test]
fn media_names_ignore_case_of_the_extension() {
    assert!(is_media_name("Movie.MP4"));
    assert!(is_media_name("song.Flac"));
    assert!(is_media_name("a.b.mkv"));
    assert!(!is_media_name(".mp4"));
    assert!(!is_media_name("notes.txt"));
    assert!(!is_media_name("mp4"));
}

#[test]
fn text_order_matches_str_order() {
    let words = ["", "a", "b", "ab", "abc", "B", "é", "z", "aa", "a b", "Ä"];
    for a in words {
        for b in words {
            assert_eq!(text_less(a, b), a < b, "{a:?} < {b:?}");
        }
    }
}

#[test]
fn sort_order_is_stable() {
    let keys: Vec<String> = ["b", "a", "c", "a", "b"].iter().map(|s| s.to_string()).collect();
    assert_eq!(stable_sort_order(&keys), vec![1, 3, 0, 4, 2]);
    assert_eq!(stable_sort_order(&Vec::new()), Vec::<usize>::new());
}

#[test]
fn playlist_lists_media_files_sorted_without_case() {
    let entries = vec![
        entry("b.mkv", true),
        entry("notes.txt", true),
        entry("A.mp4", true),
        entry("folder.mp4", false),
        entry("c.MP3", true),
        entry("a.mp4", true),
    ];
    let files = playlist_files("/media", &entries);
    assert_eq!(
        files,
        vec![
            "/media/A.mp4".to_string(),
            "/media/a.mp4".to_string(),
            "/media/b.mkv".to_string(),
            "/media/c.MP3".to_string(),
        ]
    );
    assert_eq!(playlist_files("/media", &Vec::new()), Vec::<String>::new());
}

#[test]
fn following_the_playing_file_rescans_only_a_new_directory() {
    let mut playlist = Playlist::new();
    let first = playlist.update_for_media("/media/a.mp4");
    assert_eq!(first.rescan.as_deref(), Some("/media"));
    assert!(first.highlight);
    playlist.set_files(vec!["/media/a.mp4".to_string(), "/media/b.mkv".to_string()]);

    let again = playlist.update_for_media("/media/a.mp4");
    assert_eq!(again.rescan, None);
    assert!(!again.highlight);

    let same_dir = playlist.update_for_media("/media//b.mkv");
    assert_eq!(same_dir.rescan, None);
    assert!(same_dir.highlight);
    assert_eq!(playlist.current_file.as_deref(), Some("/media//b.mkv"));

    let other = playlist.update_for_media("/other/c.mp4");
    assert_eq!(other.rescan.as_deref(), Some("/other"));
    assert!(other.highlight);

    let root = playlist.update_for_media("/");
    assert_eq!(root.rescan, None);
    assert!(!root.highlight);
    assert_eq!(playlist.current_dir.as_deref(), Some("/other"));
}

#[test]
fn marks_follow_path_components() {
    let mut playlist = Playlist::new();
    playlist.set_files(vec![
        "/m/a.mp4".to_string(),
        "/m/b.mp4".to_string(),
        "/m/./a.mp4".to_string(),
    ]);
    assert_eq!(playlist.marks("/m//a.mp4"), vec![true, false, true]);
    assert_eq!(playlist.marks("/m/c.mp4"), vec![false, false, false]);
}

#[test]
fn duration_label_goes_to_the_first_listed_row() {
    let mut playlist = Playlist::new();
    playlist.set_files(vec!["/m/a.mp4".to_string(), "/m/b.mp4".to_string()]);
    assert_eq!(
        playlist.duration_label("/m/b.mp4", 3_725_400),
        Some((1, "1:02:05".to_string()))
    );
    assert_eq!(
        playlist.duration_label("/m/a.mp4", 59_999),
        Some((0, "00:59".to_string()))
    );
    assert_eq!(playlist.duration_label("/m/a.mp4", 0), None);
    assert_eq!(playlist.duration_label("/m/a.mp4", -5), None);
    assert_eq!(playlist.duration_label("/m/z.mp4", 1000), None);
}

#[test]
fn count_label_shows_the_number_of_rows() {
    let mut playlist = Playlist::new();
    assert_eq!(playlist.count_label(), "共 0 项");
    playlist.set_files(vec!["/m/a.mp4".to_string(), "/m/b.mp4".to_string()]);
    assert_eq!(playlist.count_label(), "共 2 项");
}
