//! The playlist beside the player: the media files of the directory that holds
//! the playing file, sorted by name without regard to case, with the playing one
//! marked.
use vstd::prelude::*;
use crate::path::{join, join_path, parent, parent_of, same_path, same_path_text, same_text};
use crate::text::{duration_text, format_duration, lowercase, to_lowercase, whole_seconds};

verus! {

/// The order of texts character by character, by code point, a proper prefix
/// coming first (the order of `str`).
pub open spec fn text_lt(a: Seq<char>, b: Seq<char>) -> bool
    decreases a.len(),
{
    if a.len() == 0 {
        b.len() > 0
    } else if b.len() == 0 {
        false
    } else if a[0] != b[0] {
        (a[0] as int) < (b[0] as int)
    } else {
        text_lt(a.drop_first(), b.drop_first())
    }
}

/// No text comes before itself.
pub proof fn lemma_text_lt_irreflexive(a: Seq<char>)
    ensures
        !text_lt(a, a),
    decreases a.len(),
{
    if a.len() > 0 {
        lemma_text_lt_irreflexive(a.drop_first());
    }
}

/// The order of texts is transitive.
pub proof fn lemma_text_lt_transitive(a: Seq<char>, b: Seq<char>, c: Seq<char>)
    requires
        text_lt(a, b),
        text_lt(b, c),
    ensures
        text_lt(a, c),
    decreases a.len(),
{
    if a.len() > 0 && b.len() > 0 && c.len() > 0 && a[0] == b[0] && b[0] == c[0] {
        lemma_text_lt_transitive(a.drop_first(), b.drop_first(), c.drop_first());
    }
}

/// Of two different texts one comes before the other.
pub proof fn lemma_text_lt_total(a: Seq<char>, b: Seq<char>)
    requires
        a != b,
    ensures
        text_lt(a, b) || text_lt(b, a),
    decreases a.len(),
{
    if a.len() > 0 && b.len() > 0 && a[0] == b[0] {
        if a.drop_first() == b.drop_first() {
            assert(a =~= seq![a[0]] + a.drop_first());
            assert(b =~= seq![b[0]] + b.drop_first());
        }
        lemma_text_lt_total(a.drop_first(), b.drop_first());
    } else if a.len() > 0 && b.len() > 0 {
        assert((a[0] as int) != (b[0] as int));
    } else if a.len() == 0 && b.len() == 0 {
        assert(a =~= b);
    }
}

/// Whether `a` comes before `b` in the order of texts.
pub fn text_less(a: &str, b: &str) -> (r: bool)
    ensures
        r == text_lt(a@, b@),
{
    let na = a.unicode_len();
    let nb = b.unicode_len();
    let mut i: usize = 0;
    assert(a@.subrange(0, na as int) =~= a@);
    assert(b@.subrange(0, nb as int) =~= b@);
    while i < na && i < nb
        invariant
            na == a@.len(),
            nb == b@.len(),
            i <= na,
            i <= nb,
            text_lt(a@, b@) == text_lt(
                a@.subrange(i as int, na as int),
                b@.subrange(i as int, nb as int),
            ),
        decreases na - i,
    {
        let ca = a.get_char(i);
        let cb = b.get_char(i);
        let ghost sa = a@.subrange(i as int, na as int);
        let ghost sb = b@.subrange(i as int, nb as int);
        assert(sa[0] == ca && sb[0] == cb);
        if ca != cb {
            assert((ca as u32) as int == ca as int && (cb as u32) as int == cb as int);
            return (ca as u32) < (cb as u32);
        }
        assert(sa.drop_first() =~= a@.subrange(i + 1, na as int));
        assert(sb.drop_first() =~= b@.subrange(i + 1, nb as int));
        i = i + 1;
    }
    i == na && i < nb
}

/// Whether entry `i` goes before entry `j` when entries are sorted by `keys`,
/// equal keys keeping their first order.
pub open spec fn stable_before(keys: Seq<Seq<char>>, i: int, j: int) -> bool {
    text_lt(keys[i], keys[j]) || (keys[i] == keys[j] && i < j)
}

/// Whether `order` lists the entries of `keys` sorted by key, equal keys in
/// their first order: each index once, in that order.
pub open spec fn is_stable_order(keys: Seq<Seq<char>>, order: Seq<usize>) -> bool {
    &&& order.len() == keys.len()
    &&& forall|i: int| 0 <= i < order.len() ==> #[trigger] order[i] < keys.len()
    &&& forall|i: int, j: int|
        0 <= i < j < order.len() ==> stable_before(keys, #[trigger] order[i] as int, #[trigger] order[j] as int)
}

/// The texts of `v`.
pub open spec fn texts(v: Seq<String>) -> Seq<Seq<char>> {
    v.map_values(|s: String| s@)
}

/// The indices of `keys` sorted by key, equal keys in their first order (a
/// stable sort).
pub fn stable_sort_order(keys: &Vec<String>) -> (order: Vec<usize>)
    ensures
        is_stable_order(texts(keys@), order@),
{
    let ghost ks = texts(keys@);
    let mut order: Vec<usize> = Vec::new();
    let mut k: usize = 0;
    while k < keys.len()
        invariant
            k <= keys.len(),
            ks == texts(keys@),
            order.len() == k,
            forall|i: int| 0 <= i < order.len() ==> #[trigger] order@[i] < k,
            forall|i: int, j: int|
                0 <= i < j < order.len() ==> stable_before(
                    ks,
                    #[trigger] order@[i] as int,
                    #[trigger] order@[j] as int,
                ),
        decreases keys.len() - k,
    {
        let mut p: usize = 0;
        while p < order.len()
            invariant
                k < keys.len(),
                ks == texts(keys@),
                order.len() == k,
                p <= order.len(),
                forall|i: int| 0 <= i < order.len() ==> #[trigger] order@[i] < k,
                forall|q: int| 0 <= q < p ==> !text_lt(ks[k as int], #[trigger] ks[order@[q] as int]),
            ensures
                p <= order.len(),
                forall|q: int| 0 <= q < p ==> !text_lt(ks[k as int], #[trigger] ks[order@[q] as int]),
                p < order.len() ==> text_lt(ks[k as int], ks[order@[p as int] as int]),
            decreases order.len() - p,
        {
            if text_less(&keys[k], &keys[order[p]]) {
                assert(ks[k as int] == keys@[k as int]@);
                break;
            }
            p = p + 1;
        }
        let ghost old_order = order@;
        proof {
            assert(ks[k as int] == keys@[k as int]@);
            if p < order.len() {
                assert(text_lt(ks[k as int], ks[old_order[p as int] as int]));
            }
        }
        order.insert(p, k);
        proof {
            assert forall|i: int| 0 <= i < order.len() implies #[trigger] order@[i] < k + 1 by {
                if i < p {
                    assert(order@[i] == old_order[i]);
                } else if i > p {
                    assert(order@[i] == old_order[i - 1]);
                }
            }
            assert forall|i: int, j: int| 0 <= i < j < order.len() implies stable_before(
                ks,
                #[trigger] order@[i] as int,
                #[trigger] order@[j] as int,
            ) by {
                let kk = k as int;
                if j < p {
                    assert(order@[i] == old_order[i] && order@[j] == old_order[j]);
                } else if j == p {
                    let oi = old_order[i] as int;
                    assert(order@[i] == old_order[i]);
                    assert(!text_lt(ks[kk], ks[oi]));
                    if ks[oi] != ks[kk] {
                        lemma_text_lt_total(ks[oi], ks[kk]);
                    }
                } else if i == p {
                    let oj = old_order[j - 1] as int;
                    let op = old_order[p as int] as int;
                    assert(order@[j] == old_order[j - 1]);
                    assert(text_lt(ks[kk], ks[op]));
                    if j - 1 > p {
                        assert(stable_before(ks, op, oj));
                        if text_lt(ks[op], ks[oj]) {
                            lemma_text_lt_transitive(ks[kk], ks[op], ks[oj]);
                        }
                    }
                } else if i < p {
                    assert(order@[i] == old_order[i] && order@[j] == old_order[j - 1]);
                } else {
                    assert(order@[i] == old_order[i - 1] && order@[j] == old_order[j - 1]);
                }
            }
        }
        k = k + 1;
    }
    order
}

/// Position of the last `.` in `p`, if there is one.
pub open spec fn last_dot(p: Seq<char>) -> Option<int>
    decreases p.len(),
{
    if p.len() == 0 {
        None
    } else if p.last() == '.' {
        Some(p.len() - 1)
    } else {
        last_dot(p.drop_last())
    }
}

proof fn lemma_last_dot_bounds(p: Seq<char>)
    ensures
        match last_dot(p) {
            Some(k) => 0 <= k < p.len() && p[k] == '.' && forall|j: int| k < j < p.len() ==> p[j] != '.',
            None => forall|j: int| 0 <= j < p.len() ==> p[j] != '.',
        },
    decreases p.len(),
{
    if p.len() > 0 && p.last() != '.' {
        lemma_last_dot_bounds(p.drop_last());
        assert forall|j: int| 0 <= j < p.len() - 1 implies p.drop_last()[j] == p[j] by {}
    }
}

/// The extension of a file name: what follows its last `.`, unless the name
/// has no `.` but a leading one, or is `..`.
pub open spec fn extension(name: Seq<char>) -> Option<Seq<char>> {
    if name == seq!['.', '.'] {
        None
    } else {
        match last_dot(name) {
            Some(k) => if k == 0 {
                None
            } else {
                Some(name.subrange(k + 1, name.len() as int))
            },
            None => None,
        }
    }
}

/// The extension of the file name `name` (see [`extension`]).
pub fn extension_of(name: &str) -> (r: Option<String>)
    ensures
        match r {
            Some(e) => extension(name@) == Some(e@),
            None => extension(name@) is None,
        },
{
    proof {
        reveal_strlit("..");
        assert(".."@ =~= seq!['.', '.']);
        lemma_last_dot_bounds(name@);
    }
    if same_text(name, "..") {
        return None;
    }
    let n = name.unicode_len();
    let mut i = n;
    while i > 0
        invariant
            i <= n == name@.len(),
            name@ != seq!['.', '.'],
            forall|j: int| i <= j < n ==> name@[j] != '.',
        decreases i,
    {
        if name.get_char(i - 1) == '.' {
            proof {
                lemma_last_dot_bounds(name@);
                match last_dot(name@) {
                    Some(k) => {
                        if k < i - 1 {
                            assert(name@[i - 1] != '.');
                        }
                    },
                    None => {
                        assert(name@[i - 1] != '.');
                    },
                }
            }
            if i - 1 == 0 {
                return None;
            }
            let ext = name.substring_char(i, n).to_string();
            proof {
                assert(name@ != seq!['.', '.']);
                assert(last_dot(name@) == Some((i - 1) as int));
                assert(ext@ == name@.subrange(i as int, n as int));
            }
            return Some(ext);
        }
        i = i - 1;
    }
    proof {
        lemma_last_dot_bounds(name@);
        match last_dot(name@) {
            Some(k) => {
                assert(name@[k] != '.');
            },
            None => {},
        }
    }
    None
}

/// The extensions that mark a media file, in lower case.
pub open spec fn media_extension(e: Seq<char>) -> bool {
    ||| e == "mp4"@
    ||| e == "mkv"@
    ||| e == "avi"@
    ||| e == "mov"@
    ||| e == "wmv"@
    ||| e == "flv"@
    ||| e == "webm"@
    ||| e == "m4v"@
    ||| e == "ts"@
    ||| e == "mpg"@
    ||| e == "mpeg"@
    ||| e == "mp3"@
    ||| e == "flac"@
    ||| e == "wav"@
    ||| e == "ogg"@
    ||| e == "m4a"@
    ||| e == "aac"@
    ||| e == "wma"@
}

/// Whether a lower-case extension marks a media file.
pub fn is_media_extension(e: &str) -> (r: bool)
    ensures
        r == media_extension(e@),
{
    same_text(e, "mp4") || same_text(e, "mkv") || same_text(e, "avi") || same_text(e, "mov")
        || same_text(e, "wmv") || same_text(e, "flv") || same_text(e, "webm") || same_text(
        e,
        "m4v",
    ) || same_text(e, "ts") || same_text(e, "mpg") || same_text(e, "mpeg") || same_text(e, "mp3")
        || same_text(e, "flac") || same_text(e, "wav") || same_text(e, "ogg") || same_text(e, "m4a")
        || same_text(e, "aac") || same_text(e, "wma")
}

/// Whether a file name names a media file: its extension, in lower case, is
/// one of the media extensions.
pub open spec fn media_name(name: Seq<char>) -> bool {
    match extension(name) {
        Some(e) => media_extension(lowercase(e)),
        None => false,
    }
}

/// Whether the file name `name` names a media file.
pub fn is_media_name(name: &str) -> (r: bool)
    ensures
        r == media_name(name@),
{
    match extension_of(name) {
        Some(e) => {
            let lower = to_lowercase(e.as_str());
            is_media_extension(lower.as_str())
        },
        None => false,
    }
}

/// An entry of a directory listing: its name (one component) and whether it is
/// a regular file.
pub struct ListedEntry {
    pub name: String,
    pub is_file: bool,
}

/// The names of the entries that are media files, in listing order.
pub open spec fn kept_names(entries: Seq<ListedEntry>) -> Seq<Seq<char>>
    decreases entries.len(),
{
    if entries.len() == 0 {
        Seq::empty()
    } else {
        let rest = kept_names(entries.drop_last());
        let e = entries.last();
        if e.is_file && media_name(e.name@) {
            rest.push(e.name@)
        } else {
            rest
        }
    }
}

/// The sort keys of names: each in lower case.
pub open spec fn lowered(names: Seq<Seq<char>>) -> Seq<Seq<char>> {
    names.map_values(|n: Seq<char>| lowercase(n))
}

/// The playlist of directory `dir`: the paths of the media files among
/// `entries`, sorted by lower-case name, equal keys in listing order.
pub open spec fn is_listing(dir: Seq<char>, entries: Seq<ListedEntry>, files: Seq<Seq<char>>) -> bool {
    let names = kept_names(entries);
    exists|order: Seq<usize>|
        {
            &&& is_stable_order(lowered(names), order)
            &&& files.len() == order.len()
            &&& forall|i: int| 0 <= i < files.len() ==> #[trigger] files[i] == join(dir, names[order[i] as int])
        }
}

/// The media files of directory `dir` from its listing `entries`, sorted by
/// name without regard to case.
pub fn playlist_files(dir: &str, entries: &Vec<ListedEntry>) -> (files: Vec<String>)
    ensures
        is_listing(dir@, entries@, texts(files@)),
{
    let mut kept: Vec<String> = Vec::new();
    let mut keys: Vec<String> = Vec::new();
    let mut i: usize = 0;
    while i < entries.len()
        invariant
            i <= entries.len(),
            texts(kept@) == kept_names(entries@.subrange(0, i as int)),
            texts(keys@) == lowered(texts(kept@)),
        decreases entries.len() - i,
    {
        let e = &entries[i];
        let ghost before = entries@.subrange(0, i as int);
        assert(entries@.subrange(0, i + 1).drop_last() =~= before);
        if e.is_file && is_media_name(e.name.as_str()) {
            let lower = to_lowercase(e.name.as_str());
            let ghost old_kept = texts(kept@);
            let ghost old_keys = texts(keys@);
            kept.push(e.name.clone());
            keys.push(lower);
            assert(texts(kept@) =~= old_kept.push(e.name@));
            assert(texts(keys@) =~= old_keys.push(lowercase(e.name@)));
            assert(texts(kept@) =~= kept_names(before).push(e.name@));
            assert(texts(keys@) =~= lowered(texts(kept@)));
        } else {
            assert(texts(kept@) =~= kept_names(entries@.subrange(0, i + 1)));
        }
        i = i + 1;
    }
    assert(entries@.subrange(0, entries.len() as int) =~= entries@);
    let order = stable_sort_order(&keys);
    let ghost names = kept_names(entries@);
    let mut files: Vec<String> = Vec::new();
    let mut j: usize = 0;
    while j < order.len()
        invariant
            j <= order.len(),
            order.len() == kept.len(),
            texts(kept@) == names,
            is_stable_order(texts(keys@), order@),
            files.len() == j,
            forall|q: int| 0 <= q < j ==> #[trigger] files@[q]@ == join(dir@, names[order@[q] as int]),
        decreases order.len() - j,
    {
        let idx = order[j];
        assert(order@[j as int] < texts(keys@).len());
        let path = join_path(dir, kept[idx].as_str());
        files.push(path);
        j = j + 1;
    }
    proof {
        assert(texts(keys@) == lowered(names));
        let fs = texts(files@);
        assert forall|q: int| 0 <= q < fs.len() implies #[trigger] fs[q] == join(dir@, names[order@[q] as int]) by {
            assert(fs[q] == files@[q]@);
        }
        assert(is_listing(dir@, entries@, fs));
    }
    files
}

/// Whether `current` holds a path with the same components as `p`.
pub open spec fn holds_path(current: Option<String>, p: Seq<char>) -> bool {
    match current {
        Some(c) => same_path(c@, p),
        None => false,
    }
}

/// Whether an optional path holds one with the same components as `p`.
fn holds_path_text(current: &Option<String>, p: &str) -> (r: bool)
    ensures
        r == holds_path(*current, p@),
{
    match current {
        Some(c) => same_path_text(c.as_str(), p),
        None => false,
    }
}

/// The first position of a path with the same components as `p` in `files`.
pub open spec fn first_index_of(files: Seq<Seq<char>>, p: Seq<char>) -> Option<int> {
    if exists|i: int| 0 <= i < files.len() && same_path(#[trigger] files[i], p) {
        Some(
            choose|i: int|
                0 <= i < files.len() && same_path(#[trigger] files[i], p) && forall|j: int|
                    0 <= j < i ==> !same_path(#[trigger] files[j], p),
        )
    } else {
        None
    }
}

/// What the player has to do after the playing file changed: read the listing
/// of a new directory, and move the mark to the playing file.
pub struct MediaUpdate {
    pub rescan: Option<String>,
    pub highlight: bool,
}

/// The playlist: the directory it lists, the file it marks as playing, and the
/// paths it lists.
pub struct Playlist {
    pub current_dir: Option<String>,
    pub current_file: Option<String>,
    pub files: Vec<String>,
}

/// How following the playing file to `media_path` changes playlist `before`
/// into `after`, with `u` saying what is left to do.
pub open spec fn media_update_effect(
    before: Playlist,
    media_path: Seq<char>,
    u: MediaUpdate,
    after: Playlist,
) -> bool {
    &&& after.files == before.files
    &&& match parent(media_path) {
        None => u.rescan is None && !u.highlight && after == before,
        Some(dir) => {
            &&& (u.rescan is Some) == !holds_path(before.current_dir, dir)
            &&& u.rescan is Some ==> {
                &&& u.rescan->0@ == dir
                &&& after.current_dir == u.rescan
            }
            &&& u.rescan is None ==> after.current_dir == before.current_dir
            &&& u.highlight == !holds_path(before.current_file, media_path)
            &&& u.highlight ==> after.current_file is Some && after.current_file->0@ == media_path
            &&& !u.highlight ==> after.current_file == before.current_file
        },
    }
}

/// Following the same playing file twice asks nothing the second time: no new
/// listing, no move of the mark, and the playlist stays as it is.
pub proof fn lemma_update_for_media_settles(
    p0: Playlist,
    media_path: Seq<char>,
    u1: MediaUpdate,
    p1: Playlist,
    u2: MediaUpdate,
    p2: Playlist,
)
    requires
        media_update_effect(p0, media_path, u1, p1),
        media_update_effect(p1, media_path, u2, p2),
    ensures
        u2.rescan is None,
        !u2.highlight,
        p2 == p1,
{
}

impl Playlist {
    /// An empty playlist that lists no directory.
    pub fn new() -> (p: Self)
        ensures
            p.current_dir is None,
            p.current_file is None,
            p.files@.len() == 0,
    {
        Playlist { current_dir: None, current_file: None, files: Vec::new() }
    }

    /// Follows the playing file to `media_path`: the directory that holds it is
    /// to be read again when it differs from the listed one, and the mark is to
    /// move when the file differs from the marked one.  A path with no parent
    /// changes nothing.
    pub fn update_for_media(&mut self, media_path: &str) -> (u: MediaUpdate)
        ensures
            media_update_effect(*old(self), media_path@, u, *final(self)),
    {
        let dir = match parent_of(media_path) {
            Some(d) => d,
            None => {
                return MediaUpdate { rescan: None, highlight: false };
            },
        };
        let dir_changed = !holds_path_text(&self.current_dir, dir.as_str());
        let rescan = if dir_changed {
            self.current_dir = Some(dir.clone());
            Some(dir)
        } else {
            None
        };
        let file_changed = !holds_path_text(&self.current_file, media_path);
        if file_changed {
            self.current_file = Some(media_path.to_string());
        }
        MediaUpdate { rescan, highlight: file_changed }
    }

    /// Replaces the listed paths with `files`, read from the listed directory.
    pub fn set_files(&mut self, files: Vec<String>)
        ensures
            final(self).files == files,
            final(self).current_dir == old(self).current_dir,
            final(self).current_file == old(self).current_file,
    {
        self.files = files;
    }

    /// For each listed path, whether it is `path`: the rows to mark as playing.
    pub fn marks(&self, path: &str) -> (m: Vec<bool>)
        ensures
            m@.len() == self.files@.len(),
            forall|i: int| 0 <= i < m@.len() ==> #[trigger] m@[i] == same_path(self.files@[i]@, path@),
    {
        let mut m: Vec<bool> = Vec::new();
        let mut i: usize = 0;
        while i < self.files.len()
            invariant
                i <= self.files@.len(),
                m@.len() == i,
                forall|q: int| 0 <= q < i ==> #[trigger] m@[q] == same_path(self.files@[q]@, path@),
            decreases self.files@.len() - i,
        {
            m.push(same_path_text(self.files[i].as_str(), path));
            i = i + 1;
        }
        m
    }

    /// Where the playlist shows the duration of `path`: the first row that
    /// lists it, with the duration as text.  A duration that is not positive,
    /// or a path that is not listed, shows nothing.
    pub fn duration_label(&self, path: &str, duration_ms: i64) -> (r: Option<(usize, String)>)
        ensures
            duration_ms <= 0 ==> r is None,
            duration_ms > 0 ==> match (first_index_of(texts(self.files@), path@), r) {
                (Some(i), Some((row, text))) => row == i && text@ == duration_text(
                    whole_seconds(duration_ms as int),
                ),
                (None, None) => true,
                _ => false,
            },
    {
        if duration_ms <= 0 {
            return None;
        }
        let ghost fs = texts(self.files@);
        let mut i: usize = 0;
        while i < self.files.len()
            invariant
                i <= self.files@.len(),
                duration_ms > 0,
                fs == texts(self.files@),
                forall|q: int| 0 <= q < i ==> !same_path(#[trigger] fs[q], path@),
            decreases self.files@.len() - i,
        {
            if same_path_text(self.files[i].as_str(), path) {
                proof {
                    assert(fs[i as int] == self.files@[i as int]@);
                    let w = choose|k: int|
                        0 <= k < fs.len() && same_path(#[trigger] fs[k], path@) && forall|j: int|
                            0 <= j < k ==> !same_path(#[trigger] fs[j], path@);
                    assert(0 <= i < fs.len() && same_path(fs[i as int], path@) && forall|j: int|
                        0 <= j < i ==> !same_path(#[trigger] fs[j], path@));
                    if w < i {
                        assert(!same_path(fs[w], path@));
                    } else if w > i {
                        assert(!same_path(fs[i as int], path@));
                    }
                }
                return Some((i, format_duration(duration_ms)));
            }
            assert(fs[i as int] == self.files@[i as int]@);
            i = i + 1;
        }
        None
    }

    /// The count of listed paths as the playlist footer shows it.
    pub fn count_label(&self) -> (s: String)
        ensures
            s@ == "共 "@ + crate::text::decimal(self.files@.len()) + " 项"@,
    {
        let mut s = String::new();
        s.append("共 ");
        crate::text::push_decimal(&mut s, self.files.len() as u64);
        s.append(" 项");
        s
    }
}

} // verus!
