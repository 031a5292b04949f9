//! Playback history: the position reached in each file, and the file played
//! last.  Positions are in milliseconds, keyed by the file's path text.
//!
//! The history decides; the caller persists.  Every change tells whether the
//! stored history has to be written out again.
use vstd::prelude::*;

use crate::path::{join, join_path, same_text};

verus! {

/// Positions closer to the start than this are not worth resuming.
pub const RESUME_THRESHOLD_MS: i64 = 2_000;

/// The position recorded for `key` in `entries`, the last record counting.
pub open spec fn position_in(entries: Seq<(String, i64)>, key: Seq<char>) -> Option<i64>
    decreases entries.len(),
{
    if entries.len() == 0 {
        None
    } else if entries.last().0@ == key {
        Some(entries.last().1)
    } else {
        position_in(entries.drop_last(), key)
    }
}

/// No key is recorded twice.
pub open spec fn distinct_keys(entries: Seq<(String, i64)>) -> bool {
    forall|i: int, j: int|
        0 <= i < j < entries.len() ==> #[trigger] entries[i].0@ != #[trigger] entries[j].0@
}

proof fn lemma_position_at(entries: Seq<(String, i64)>, key: Seq<char>)
    requires
        distinct_keys(entries),
    ensures
        forall|i: int|
            0 <= i < entries.len() && entries[i].0@ == key ==> position_in(entries, key) == Some(
                #[trigger] entries[i].1,
            ),
        (forall|i: int| 0 <= i < entries.len() ==> #[trigger] entries[i].0@ != key) ==> position_in(
            entries,
            key,
        ) is None,
    decreases entries.len(),
{
    if entries.len() > 0 {
        let rest = entries.drop_last();
        assert(distinct_keys(rest)) by {
            assert forall|i: int, j: int| 0 <= i < j < rest.len() implies #[trigger] rest[i].0@
                != #[trigger] rest[j].0@ by {
                assert(rest[i] == entries[i]);
                assert(rest[j] == entries[j]);
            }
        }
        lemma_position_at(rest, key);
        assert forall|i: int| 0 <= i < entries.len() && entries[i].0@ == key implies position_in(
            entries,
            key,
        ) == Some(#[trigger] entries[i].1) by {
            if i < entries.len() - 1 {
                assert(rest[i] == entries[i]);
            }
        }
        if forall|i: int| 0 <= i < entries.len() ==> #[trigger] entries[i].0@ != key {
            assert(entries[entries.len() - 1].0@ != key);
            assert forall|i: int| 0 <= i < rest.len() implies #[trigger] rest[i].0@ != key by {
                assert(rest[i] == entries[i]);
            }
        }
    }
}

/// The playback history.
#[derive(Debug)]
pub struct PlaybackHistory {
    data_path: String,
    positions: Vec<(String, i64)>,
    last_media: Option<String>,
}

impl PlaybackHistory {
    #[verifier::type_invariant]
    spec fn keys_distinct(self) -> bool {
        distinct_keys(self.positions@)
    }

    /// The position recorded for the file at `path`.
    pub closed spec fn saved(self, path: Seq<char>) -> Option<i64> {
        position_in(self.positions@, path)
    }

    /// The position to resume the file at `path` from.
    pub open spec fn resume_position(self, path: Seq<char>) -> Option<i64> {
        match self.saved(path) {
            Some(p) => if p > RESUME_THRESHOLD_MS {
                Some(p)
            } else {
                None
            },
            None => None,
        }
    }

    /// How saving `position_ms` for `path` turns `before` into `after`.
    pub open spec fn save_effect(before: PlaybackHistory, path: Seq<char>, position_ms: i64, after: PlaybackHistory) -> bool {
        &&& position_ms > RESUME_THRESHOLD_MS ==> after.saved(path) == Some(position_ms)
        &&& position_ms <= RESUME_THRESHOLD_MS ==> after.saved(path) == before.saved(path)
        &&& forall|p: Seq<char>| p != path ==> #[trigger] after.saved(p) == before.saved(p)
        &&& after.last() == before.last()
        &&& after.file() == before.file()
    }

    /// How forgetting the position of `path` turns `before` into `after`.
    pub open spec fn remove_effect(before: PlaybackHistory, path: Seq<char>, after: PlaybackHistory) -> bool {
        &&& after.saved(path) is None
        &&& forall|p: Seq<char>| p != path ==> #[trigger] after.saved(p) == before.saved(p)
        &&& after.last() == before.last()
        &&& after.file() == before.file()
    }

    /// The file played last.
    pub closed spec fn last(self) -> Option<String> {
        self.last_media
    }

    /// Where the history is stored.
    pub closed spec fn file(self) -> String {
        self.data_path
    }

    /// An empty history stored at `data_path`.
    pub fn empty(data_path: String) -> (h: Self)
        ensures
            forall|p: Seq<char>| #[trigger] h.saved(p) is None,
            h.last() is None,
            h.file() == data_path,
    {
        PlaybackHistory { data_path, positions: Vec::new(), last_media: None }
    }

    /// A history stored at `data_path` that holds the given records; a later
    /// record of a path replaces an earlier one.
    pub fn from_records(data_path: String, records: Vec<(String, i64)>, last_media: Option<String>) -> (h:
        Self)
        ensures
            forall|p: Seq<char>| #[trigger] h.saved(p) == position_in(records@, p),
            h.last() == last_media,
            h.file() == data_path,
    {
        let mut h = PlaybackHistory::empty(data_path);
        let ghost all = records@;
        let mut i: usize = 0;
        while i < records.len()
            invariant
                i <= all.len(),
                records@ == all,
                h.last() is None,
                forall|p: Seq<char>| #[trigger] h.saved(p) == position_in(all.subrange(0, i as int), p),
                h.file() == data_path,
            decreases all.len() - i,
        {
            let key = records[i].0.clone();
            let value = records[i].1;
            let ghost prefix = all.subrange(0, i as int);
            h.record(key, value);
            proof {
                let longer = all.subrange(0, i + 1);
                assert(longer.drop_last() =~= prefix);
                assert(longer.last() == all[i as int]);
            }
            i = i + 1;
        }
        assert(all.subrange(0, all.len() as int) =~= all);
        proof {
            use_type_invariant(&h);
        }
        let ghost filled = h;
        h.last_media = last_media;
        assert forall|p: Seq<char>| #[trigger] h.saved(p) == position_in(records@, p) by {
            assert(h.saved(p) == filled.saved(p));
            assert(filled.saved(p) == position_in(all.subrange(0, all.len() as int), p));
        }
        h
    }

    /// Index of the record of `key`, if there is one.
    fn find(&self, key: &str) -> (r: Option<usize>)
        ensures
            match r {
                Some(i) => i < self.positions@.len() && self.positions@[i as int].0@ == key@ && self.saved(
                    key@,
                ) == Some(self.positions@[i as int].1),
                None => self.saved(key@) is None,
            },
    {
        proof {
            use_type_invariant(self);
            lemma_position_at(self.positions@, key@);
        }
        let mut i: usize = 0;
        while i < self.positions.len()
            invariant
                i <= self.positions@.len(),
                forall|j: int| 0 <= j < i ==> #[trigger] self.positions@[j].0@ != key@,
            decreases self.positions@.len() - i,
        {
            if same_text(self.positions[i].0.as_str(), key) {
                proof {
                    use_type_invariant(self);
                    lemma_position_at(self.positions@, key@);
                    assert(position_in(self.positions@, key@) == Some(self.positions@[i as int].1));
                }
                return Some(i);
            }
            i = i + 1;
        }
        None
    }

    /// Records `position_ms` for `key`, whatever its value.
    fn record(&mut self, key: String, position_ms: i64)
        ensures
            final(self).saved(key@) == Some(position_ms),
            forall|p: Seq<char>| p != key@ ==> #[trigger] final(self).saved(p) == old(self).saved(p),
            final(self).last() == old(self).last(),
            final(self).file() == old(self).file(),
    {
        proof {
            use_type_invariant(&*self);
        }
        let ghost before = self.positions@;
        let ghost k = key@;
        let found = self.find(key.as_str());
        let mut list: Vec<(String, i64)> = Vec::new();
        std::mem::swap(&mut list, &mut self.positions);
        let ghost idx: int = match found {
            Some(i) => i as int,
            None => before.len() as int,
        };
        match found {
            Some(i) => {
                list.set(i, (key, position_ms));
            },
            None => {
                proof {
                    lemma_position_at(before, k);
                }
                list.push((key, position_ms));
            },
        }
        let ghost after = list@;
        proof {
            lemma_position_at(before, k);
            assert forall|x: int, y: int| 0 <= x < y < after.len() implies #[trigger] after[x].0@
                != #[trigger] after[y].0@ by {
                if x != idx && y != idx {
                    assert(after[x] == before[x] && after[y] == before[y]);
                } else if x == idx {
                    assert(after[y] == before[y]);
                    if after[y].0@ == k && found is None {
                        assert(position_in(before, k) == Some(before[y].1));
                    }
                } else {
                    assert(after[x] == before[x]);
                    if found is None && before[x].0@ == k {
                        assert(position_in(before, k) == Some(before[x].1));
                    }
                }
            }
            lemma_position_at(after, k);
            assert(after[idx].1 == position_ms);
            assert forall|p: Seq<char>| p != k implies position_in(after, p) == position_in(before, p) by {
                lemma_position_at(before, p);
                lemma_position_at(after, p);
                if exists|j: int| 0 <= j < before.len() && before[j].0@ == p {
                    let j = choose|j: int| 0 <= j < before.len() && before[j].0@ == p;
                    assert(position_in(before, p) == Some(before[j].1));
                    assert(j != idx);
                    assert(after[j] == before[j]);
                    assert(after[j].1 == before[j].1);
                } else {
                    assert forall|j: int| 0 <= j < after.len() implies #[trigger] after[j].0@ != p by {
                        if j != idx {
                            assert(after[j] == before[j]);
                        }
                    }
                }
            }
        }
        self.positions = list;
    }

    /// The position to resume the file at `path` from: its recorded position,
    /// if that lies beyond [`RESUME_THRESHOLD_MS`].
    pub fn get_position(&self, path: &str) -> (r: Option<i64>)
        ensures
            r == self.resume_position(path@),
    {
        match self.find(path) {
            Some(i) => {
                let p = self.positions[i].1;
                if p > RESUME_THRESHOLD_MS {
                    Some(p)
                } else {
                    None
                }
            },
            None => None,
        }
    }

    /// Records the position reached in the file at `path`, where it lies
    /// beyond [`RESUME_THRESHOLD_MS`]; says whether the history changed and has
    /// to be stored.
    pub fn save_position(&mut self, path: &str, position_ms: i64) -> (changed: bool)
        ensures
            changed == (position_ms > RESUME_THRESHOLD_MS),
            PlaybackHistory::save_effect(*old(self), path@, position_ms, *final(self)),
    {
        if position_ms <= RESUME_THRESHOLD_MS {
            return false;
        }
        self.record(path.to_string(), position_ms);
        true
    }

    /// Forgets the position of the file at `path` (when it was played to the
    /// end); says whether there was one, so that the history has to be stored.
    pub fn remove_position(&mut self, path: &str) -> (changed: bool)
        ensures
            changed == old(self).saved(path@) is Some,
            PlaybackHistory::remove_effect(*old(self), path@, *final(self)),
    {
        proof {
            use_type_invariant(&*self);
        }
        let ghost before = self.positions@;
        match self.find(path) {
            None => false,
            Some(i) => {
                let mut list: Vec<(String, i64)> = Vec::new();
                std::mem::swap(&mut list, &mut self.positions);
                let _removed = list.remove(i);
                let ghost after = list@;
                proof {
                    lemma_position_at(before, path@);
                    assert forall|x: int, y: int| 0 <= x < y < after.len() implies #[trigger] after[x].0@
                        != #[trigger] after[y].0@ by {
                        let bx = if x < i { x } else { x + 1 };
                        let by_ = if y < i { y } else { y + 1 };
                        assert(after[x] == before[bx]);
                        assert(after[y] == before[by_]);
                    }
                    assert forall|j: int| 0 <= j < after.len() implies #[trigger] after[j].0@ != path@ by {
                        let bj = if j < i { j } else { j + 1 };
                        assert(after[j] == before[bj]);
                    }
                    lemma_position_at(after, path@);
                    assert forall|p: Seq<char>| p != path@ implies position_in(after, p) == position_in(before, p) by {
                        lemma_position_at(before, p);
                        lemma_position_at(after, p);
                        if exists|j: int| 0 <= j < before.len() && before[j].0@ == p {
                            let j = choose|j: int| 0 <= j < before.len() && before[j].0@ == p;
                            assert(position_in(before, p) == Some(before[j].1));
                            assert(j != i);
                            let aj = if j < i { j } else { j - 1 };
                            assert(after[aj] == before[j]);
                            assert(after[aj].1 == before[j].1);
                        } else {
                            assert forall|j: int| 0 <= j < after.len() implies #[trigger] after[j].0@ != p by {
                                let bj = if j < i { j } else { j + 1 };
                                assert(after[j] == before[bj]);
                            }
                        }
                    }
                }
                self.positions = list;
                true
            },
        }
    }

    /// Records the file played last.  The history always has to be stored
    /// afterwards.
    pub fn set_last_media(&mut self, path: &str)
        ensures
            final(self).last() matches Some(p) && p@ == path@,
            forall|p: Seq<char>| #[trigger] final(self).saved(p) == old(self).saved(p),
            final(self).file() == old(self).file(),
    {
        proof {
            use_type_invariant(&*self);
        }
        self.last_media = Some(path.to_string());
    }

    /// The file played last.
    pub fn last_media(&self) -> (r: Option<&String>)
        ensures
            match r {
                Some(p) => self.last() == Some(*p),
                None => self.last() is None,
            },
    {
        self.last_media.as_ref()
    }

    /// Where the history is stored.
    pub fn data_path(&self) -> (p: &String)
        ensures
            *p == self.file(),
    {
        &self.data_path
    }

    /// The recorded positions, for storing.
    pub fn records(&self) -> (list: Vec<(String, i64)>)
        ensures
            forall|p: Seq<char>| #[trigger] position_in(list@, p) == self.saved(p),
    {
        let mut list: Vec<(String, i64)> = Vec::new();
        let mut i: usize = 0;
        while i < self.positions.len()
            invariant
                i <= self.positions@.len(),
                list@.len() == i,
                forall|j: int| 0 <= j < i ==> #[trigger] list@[j] == self.positions@[j],
            decreases self.positions@.len() - i,
        {
            list.push((self.positions[i].0.clone(), self.positions[i].1));
            i = i + 1;
        }
        assert(list@ =~= self.positions@);
        list
    }
}

/// The directory the history lives in: `$XDG_DATA_HOME`, else
/// `$HOME/.local/share`, else `/tmp`.
pub open spec fn data_root(data_home: Option<String>, home: Option<String>) -> Seq<char> {
    match data_home {
        Some(d) => d@,
        None => match home {
            Some(h) => join(h@, ".local/share"@),
            None => "/tmp"@,
        },
    }
}

/// The file the history is stored in, for the given values of
/// `XDG_DATA_HOME` and `HOME` (none where a variable is unset).
pub fn history_file_path(data_home: Option<String>, home: Option<String>) -> (p: String)
    ensures
        p@ == join(join(data_root(data_home, home), "vmedia"@), "playback_history.json"@),
{
    let root = match data_home {
        Some(d) => d,
        None => match home {
            Some(h) => join_path(h.as_str(), ".local/share"),
            None => "/tmp".to_string(),
        },
    };
    let dir = join_path(root.as_str(), "vmedia");
    join_path(dir.as_str(), "playback_history.json")
}

/// A position saved beyond the resume threshold is the position that file
/// resumes from, and saving it leaves every other file's position alone.
pub proof fn lemma_saved_position_is_resumed(
    before: PlaybackHistory,
    after: PlaybackHistory,
    path: Seq<char>,
    position_ms: i64,
    other: Seq<char>,
)
    requires
        PlaybackHistory::save_effect(before, path, position_ms, after),
        position_ms > RESUME_THRESHOLD_MS,
        other != path,
    ensures
        after.resume_position(path) == Some(position_ms),
        after.resume_position(other) == before.resume_position(other),
{
    assert(after.saved(other) == before.saved(other));
}

/// A position forgotten is not resumed from.
pub proof fn lemma_removed_position_is_not_resumed(
    before: PlaybackHistory,
    after: PlaybackHistory,
    path: Seq<char>,
)
    requires
        PlaybackHistory::remove_effect(before, path, after),
    ensures
        after.resume_position(path) is None,
{
}

/// A history rebuilt from its records and its last media resumes every file
/// where the history did, and remembers the same last media.
pub proof fn lemma_records_round_trip(
    history: PlaybackHistory,
    list: Seq<(String, i64)>,
    rebuilt: PlaybackHistory,
)
    requires
        forall|p: Seq<char>| #[trigger] position_in(list, p) == history.saved(p),
        forall|p: Seq<char>| #[trigger] rebuilt.saved(p) == position_in(list, p),
        rebuilt.last() == history.last(),
    ensures
        forall|p: Seq<char>| #[trigger] rebuilt.resume_position(p) == history.resume_position(p),
        rebuilt.last() == history.last(),
{
    assert forall|p: Seq<char>| #[trigger] rebuilt.resume_position(p) == history.resume_position(p) by {
        assert(rebuilt.saved(p) == position_in(list, p));
    }
}

/// A call that changes a history: a save, a removal, or the record of the
/// file played last.
pub enum HistoryStep {
    Save(String, i64),
    Remove(String),
    SetLast(String),
}

/// How one call turns `before` into `after`, as the calls' contracts say.
pub open spec fn step_effect(before: PlaybackHistory, step: HistoryStep, after: PlaybackHistory) -> bool {
    match step {
        HistoryStep::Save(p, pos) => PlaybackHistory::save_effect(before, p@, pos, after),
        HistoryStep::Remove(p) => PlaybackHistory::remove_effect(before, p@, after),
        HistoryStep::SetLast(p) => {
            &&& after.last() matches Some(q) && q@ == p@
            &&& forall|x: Seq<char>| #[trigger] after.saved(x) == before.saved(x)
            &&& after.file() == before.file()
        },
    }
}

/// Whether a call changes the position of `path`: a removal of it, or a save
/// of it beyond the resume threshold.
pub open spec fn touches(step: HistoryStep, path: Seq<char>) -> bool {
    match step {
        HistoryStep::Save(p, pos) => p@ == path && pos > RESUME_THRESHOLD_MS,
        HistoryStep::Remove(p) => p@ == path,
        HistoryStep::SetLast(_) => false,
    }
}

/// `states` follow one another by `steps`.
pub open spec fn follows(states: Seq<PlaybackHistory>, steps: Seq<HistoryStep>) -> bool {
    &&& states.len() == steps.len() + 1
    &&& forall|i: int| 0 <= i < steps.len() ==> step_effect(states[i], #[trigger] steps[i], states[i + 1])
}

proof fn lemma_steps_keep(states: Seq<PlaybackHistory>, steps: Seq<HistoryStep>, path: Seq<char>)
    requires
        follows(states, steps),
    ensures
        (forall|i: int| 0 <= i < steps.len() ==> !touches(#[trigger] steps[i], path)) ==> states.last().saved(
            path,
        ) == states[0].saved(path),
        (forall|i: int| 0 <= i < steps.len() ==> !(#[trigger] steps[i] is SetLast)) ==> states.last().last()
            == states[0].last(),
    decreases steps.len(),
{
    if steps.len() > 0 {
        let n = steps.len() as int;
        let ss = states.drop_last();
        let ps = steps.drop_last();
        assert forall|i: int| 0 <= i < ps.len() implies step_effect(ss[i], #[trigger] ps[i], ss[i + 1]) by {
            assert(ps[i] == steps[i]);
            assert(step_effect(states[i], steps[i], states[i + 1]));
        }
        lemma_steps_keep(ss, ps, path);
        assert(step_effect(states[n - 1], steps[n - 1], states[n]));
        if forall|i: int| 0 <= i < steps.len() ==> !touches(#[trigger] steps[i], path) {
            assert forall|i: int| 0 <= i < ps.len() implies !touches(#[trigger] ps[i], path) by {
                assert(ps[i] == steps[i]);
                assert(!touches(steps[i], path));
            }
            assert(!touches(steps[n - 1], path));
        }
        if forall|i: int| 0 <= i < steps.len() ==> !(#[trigger] steps[i] is SetLast) {
            assert forall|i: int| 0 <= i < ps.len() implies !(#[trigger] ps[i] is SetLast) by {
                assert(ps[i] == steps[i]);
                assert(!(steps[i] is SetLast));
            }
            assert(!(steps[n - 1] is SetLast));
        }
    }
}

/// A position saved beyond the resume threshold is resumed after any later
/// calls that leave that file alone, and every position a history resumes from
/// lies beyond the threshold.
pub proof fn lemma_saved_position_survives(
    before: PlaybackHistory,
    path: Seq<char>,
    position_ms: i64,
    states: Seq<PlaybackHistory>,
    steps: Seq<HistoryStep>,
)
    requires
        PlaybackHistory::save_effect(before, path, position_ms, states[0]),
        position_ms > RESUME_THRESHOLD_MS,
        follows(states, steps),
        forall|i: int| 0 <= i < steps.len() ==> !touches(#[trigger] steps[i], path),
    ensures
        states.last().resume_position(path) == Some(position_ms),
        forall|q: Seq<char>| #[trigger] states.last().resume_position(q) matches Some(v) ==> v
            > RESUME_THRESHOLD_MS,
{
    lemma_steps_keep(states, steps, path);
}

/// The file recorded as played last (by `set_last_media`, which leaves
/// `states[0]`) stays the last media through any later saves and removals.
pub proof fn lemma_last_media_survives(
    path: Seq<char>,
    states: Seq<PlaybackHistory>,
    steps: Seq<HistoryStep>,
)
    requires
        states[0].last() matches Some(q) && q@ == path,
        follows(states, steps),
        forall|i: int| 0 <= i < steps.len() ==> !(#[trigger] steps[i] is SetLast),
    ensures
        states.last().last() matches Some(q) && q@ == path,
{
    lemma_steps_keep(states, steps, path);
}

} // verus!
