//! Paths held as text, with the component rules of Unix paths.
//!
//! A path is a sequence of components separated by `/`.  Empty components and
//! `.` components (other than a leading one) carry no name; a final `..` or a
//! path made only of separators and dots has no file name.
use vstd::prelude::*;

verus! {

/// Position of the last `/` in `p`, if there is one.
pub open spec fn last_separator(p: Seq<char>) -> Option<int>
    decreases p.len(),
{
    if p.len() == 0 {
        None
    } else if p.last() == '/' {
        Some(p.len() - 1)
    } else {
        last_separator(p.drop_last())
    }
}

/// The final component of `p`, what follows its last `/`.
pub open spec fn tail_component(p: Seq<char>) -> Seq<char> {
    match last_separator(p) {
        Some(k) => p.subrange(k + 1, p.len() as int),
        None => p,
    }
}

/// The name of the last component of `p` that names something, if any.
pub open spec fn file_name(p: Seq<char>) -> Option<Seq<char>>
    decreases p.len(),
{
    let last = tail_component(p);
    if last.len() == 0 || last == seq!['.'] {
        match last_separator(p) {
            Some(k) => if 0 <= k < p.len() {
                file_name(p.subrange(0, k))
            } else {
                None
            },
            None => None,
        }
    } else if last == seq!['.', '.'] {
        None
    } else {
        Some(last)
    }
}

/// `rel` appended to `base`: an absolute `rel` replaces `base`, otherwise one `/`
/// separates them unless `base` is empty or already ends in `/`.
pub open spec fn join(base: Seq<char>, rel: Seq<char>) -> Seq<char> {
    if rel.len() > 0 && rel[0] == '/' {
        rel
    } else if base.len() > 0 && base.last() != '/' {
        base + seq!['/'] + rel
    } else {
        base + rel
    }
}

/// The named components of `p`, in order: every piece between separators
/// except empty pieces and `.`.
pub open spec fn components(p: Seq<char>) -> Seq<Seq<char>>
    decreases p.len(),
{
    match last_separator(p) {
        Some(k) => if 0 <= k < p.len() {
            let last = p.subrange(k + 1, p.len() as int);
            let before = components(p.subrange(0, k));
            if last.len() == 0 || last == seq!['.'] {
                before
            } else {
                before.push(last)
            }
        } else {
            Seq::empty()
        },
        None => if p.len() == 0 || p == seq!['.'] {
            Seq::empty()
        } else {
            seq![p]
        },
    }
}

/// Whether `p` starts at the root.
pub open spec fn has_root(p: Seq<char>) -> bool {
    p.len() > 0 && p[0] == '/'
}

/// Whether `p` starts with a `.` component that the path keeps.
pub open spec fn has_cur_dir(p: Seq<char>) -> bool {
    !has_root(p) && (p == seq!['.'] || (p.len() >= 2 && p[0] == '.' && p[1] == '/'))
}

/// The pieces of `names`, each followed by `/`.
pub open spec fn joined_with_slashes(names: Seq<Seq<char>>) -> Seq<char>
    decreases names.len(),
{
    if names.len() == 0 {
        Seq::empty()
    } else {
        joined_with_slashes(names.drop_last()) + names.last() + seq!['/']
    }
}

/// A text that two paths share exactly when they have the same components.
pub open spec fn normal_form(p: Seq<char>) -> Seq<char> {
    let prefix = if has_root(p) {
        seq!['/']
    } else if has_cur_dir(p) {
        seq!['.', '/']
    } else {
        Seq::<char>::empty()
    };
    prefix + joined_with_slashes(components(p))
}

/// `p` without its trailing pieces that name nothing (empty pieces and `.`),
/// keeping a lone root.
pub open spec fn trim_end(p: Seq<char>) -> Seq<char>
    decreases p.len(),
{
    match last_separator(p) {
        Some(k) => if 0 <= k < p.len() {
            let tail = p.subrange(k + 1, p.len() as int);
            if tail.len() == 0 || tail == seq!['.'] {
                if k == 0 {
                    seq!['/']
                } else {
                    trim_end(p.subrange(0, k))
                }
            } else {
                p
            }
        } else {
            p
        },
        None => p,
    }
}

/// The path that contains `p`: `p` without its last component, or `None` when
/// `p` is empty or is the root alone.
pub open spec fn parent(p: Seq<char>) -> Option<Seq<char>> {
    let t = trim_end(p);
    if t.len() == 0 || t == seq!['/'] {
        None
    } else {
        match last_separator(t) {
            Some(k) => if k == 0 {
                Some(seq!['/'])
            } else {
                Some(trim_end(t.subrange(0, k)))
            },
            None => Some(Seq::empty()),
        }
    }
}

/// Two paths are the same when their components are.
pub open spec fn same_path(a: Seq<char>, b: Seq<char>) -> bool {
    normal_form(a) == normal_form(b)
}

/// Whether `pattern` occurs in `s` as a contiguous piece.
pub open spec fn contains_text(s: Seq<char>, pattern: Seq<char>) -> bool {
    exists|i: int|
        0 <= i && i + pattern.len() <= s.len() && #[trigger] s.subrange(i, i + pattern.len())
            == pattern
}

proof fn lemma_last_separator_bounds(p: Seq<char>)
    ensures
        match last_separator(p) {
            Some(k) => 0 <= k < p.len() && p[k] == '/' && forall|j: int|
                k < j < p.len() ==> p[j] != '/',
            None => forall|j: int| 0 <= j < p.len() ==> p[j] != '/',
        },
    decreases p.len(),
{
    if p.len() > 0 && p.last() != '/' {
        lemma_last_separator_bounds(p.drop_last());
        assert forall|j: int| 0 <= j < p.len() - 1 implies p.drop_last()[j] == p[j] by {}
    }
}

/// Index of the last `/` at or before `end - 1`, scanning the text.
fn find_last_separator(s: &str, end: usize) -> (r: Option<usize>)
    requires
        end <= s@.len(),
    ensures
        r == match last_separator(s@.subrange(0, end as int)) {
            Some(k) => Some(k as usize),
            None => None::<usize>,
        },
{
    let mut i = end;
    while i > 0
        invariant
            i <= end <= s@.len(),
            last_separator(s@.subrange(0, end as int)) == last_separator(
                s@.subrange(0, i as int),
            ),
        decreases i,
    {
        let c = s.get_char(i - 1);
        if c == '/' {
            assert(s@.subrange(0, i as int).last() == '/');
            return Some(i - 1);
        }
        assert(s@.subrange(0, i as int).drop_last() =~= s@.subrange(0, i - 1));
        i = i - 1;
    }
    None
}

/// Whether `s[from..to]` is exactly the text `lit`.
fn piece_equals(s: &str, from: usize, to: usize, lit: &str) -> (b: bool)
    requires
        from <= to <= s@.len(),
    ensures
        b == (s@.subrange(from as int, to as int) == lit@),
{
    let n = lit.unicode_len();
    if to - from != n {
        return false;
    }
    let mut i: usize = 0;
    while i < n
        invariant
            from <= to <= s@.len(),
            n == lit@.len(),
            to - from == n,
            i <= n,
            forall|j: int| 0 <= j < i ==> s@[from + j] == lit@[j],
        decreases n - i,
    {
        if s.get_char(from + i) != lit.get_char(i) {
            assert(s@.subrange(from as int, to as int)[i as int] != lit@[i as int]);
            return false;
        }
        i = i + 1;
    }
    assert(s@.subrange(from as int, to as int) =~= lit@);
    true
}

/// Whether two texts are equal.
pub fn same_text(a: &str, b: &str) -> (r: bool)
    ensures
        r == (a@ == b@),
{
    let n = a.unicode_len();
    let r = piece_equals(a, 0, n, b);
    assert(a@.subrange(0, n as int) =~= a@);
    r
}

/// The file name of `path`: its last component that names something.
pub fn file_name_of(path: &str) -> (r: Option<String>)
    ensures
        match r {
            Some(name) => file_name(path@) == Some(name@),
            None => file_name(path@) is None,
        },
{
    proof {
        reveal_strlit(".");
        reveal_strlit("..");
    }
    let len = path.unicode_len();
    let mut end = len;
    assert(path@.subrange(0, len as int) =~= path@);
    loop
        invariant
            end <= len == path@.len(),
            file_name(path@) == file_name(path@.subrange(0, end as int)),
        decreases end,
    {
        let ghost p = path@.subrange(0, end as int);
        proof {
            reveal_strlit(".");
            reveal_strlit("..");
            assert("."@ =~= seq!['.']);
            assert(".."@ =~= seq!['.', '.']);
            lemma_last_separator_bounds(p);
        }
        let sep = find_last_separator(path, end);
        let start: usize = match sep {
            Some(k) => k + 1,
            None => 0,
        };
        proof {
            assert(tail_component(p) =~= path@.subrange(start as int, end as int));
        }
        let is_empty = start == end;
        let is_dot = piece_equals(path, start, end, ".");
        if is_empty || is_dot {
            proof {
                if is_empty {
                    assert(tail_component(p).len() == 0);
                } else {
                    assert(tail_component(p) == seq!['.']);
                }
            }
            match sep {
                Some(k) => {
                    assert(p.subrange(0, k as int) =~= path@.subrange(0, k as int));
                    end = k;
                },
                None => {
                    assert(file_name(p) is None);
                    return None;
                },
            }
        } else if piece_equals(path, start, end, "..") {
            assert(tail_component(p) == seq!['.', '.']);
            assert(file_name(p) is None);
            return None;
        } else {
            let piece = path.substring_char(start, end);
            let name = piece.to_string();
            proof {
                assert(tail_component(p).len() != 0);
                assert(tail_component(p) != seq!['.']);
                assert(tail_component(p) != seq!['.', '.']);
                assert(file_name(p) == Some(tail_component(p)));
                assert(name@ == piece@);
            }
            return Some(name);
        }
    }
}

/// The component text of `path` (see [`normal_form`]).
pub fn normalize_path(path: &str) -> (r: String)
    ensures
        r@ == normal_form(path@),
{
    proof {
        reveal_strlit(".");
        reveal_strlit("/");
        reveal_strlit("./");
        assert("."@ =~= seq!['.']);
        assert("/"@ =~= seq!['/']);
        assert("./"@ =~= seq!['.', '/']);
    }
    let len = path.unicode_len();
    // The components after `end`, last one first.
    let mut found: Vec<String> = Vec::new();
    let mut end = len;
    let ghost mut found_names: Seq<Seq<char>> = Seq::empty();
    assert(path@.subrange(0, len as int) =~= path@);
    loop
        invariant
            end <= len == path@.len(),
            found@.len() == found_names.len(),
            forall|i: int| 0 <= i < found@.len() ==> #[trigger] found@[i]@ == found_names[i],
            components(path@) == components(path@.subrange(0, end as int)) + found_names.reverse(),
        ensures
            found@.len() == found_names.len(),
            forall|i: int| 0 <= i < found@.len() ==> #[trigger] found@[i]@ == found_names[i],
            components(path@) == found_names.reverse(),
        decreases end,
    {
        let ghost p = path@.subrange(0, end as int);
        proof {
            reveal_strlit(".");
            assert("."@ =~= seq!['.']);
            lemma_last_separator_bounds(p);
        }
        let sep = find_last_separator(path, end);
        match sep {
            Some(k) => {
                let is_skipped = k + 1 == end || piece_equals(path, k + 1, end, ".");
                let ghost last = p.subrange(k + 1, p.len() as int);
                assert(last =~= path@.subrange(k + 1, end as int));
                assert(p.subrange(0, k as int) =~= path@.subrange(0, k as int));
                if !is_skipped {
                    let name = path.substring_char(k + 1, end).to_string();
                    found.push(name);
                    proof {
                        let old_names = found_names;
                        found_names = found_names.push(last);
                        assert(found_names.reverse() =~= seq![last] + old_names.reverse());
                        assert(components(p) == components(p.subrange(0, k as int)).push(last));
                        assert(components(p.subrange(0, k as int)).push(last) + old_names.reverse()
                            =~= components(p.subrange(0, k as int)) + found_names.reverse());
                    }
                }
                end = k;
            },
            None => {
                let is_skipped = end == 0 || piece_equals(path, 0, end, ".");
                assert(p =~= path@.subrange(0, end as int));
                if !is_skipped {
                    let name = path.substring_char(0, end).to_string();
                    found.push(name);
                    proof {
                        let old_names = found_names;
                        found_names = found_names.push(p);
                        assert(found_names.reverse() =~= seq![p] + old_names.reverse());
                        assert(path@.subrange(0, 0) =~= Seq::<char>::empty());
                    }
                } else {
                    assert(path@.subrange(0, 0) =~= Seq::<char>::empty());
                }
                end = 0;
                assert(components(path@.subrange(0, 0)) =~= Seq::<Seq<char>>::empty());
                assert(components(path@) =~= found_names.reverse());
                break;
            },
        }
    }
    let root = len > 0 && path.get_char(0) == '/';
    let cur_dir = !root && ((len == 1 && path.get_char(0) == '.') || (len >= 2 && path.get_char(0)
        == '.' && path.get_char(1) == '/'));
    let mut out = String::new();
    if root {
        out.append("/");
    } else if cur_dir {
        assert(len == 1 ==> path@ =~= seq!['.']);
        out.append("./");
    } else {
        assert(path@ != seq!['.']);
    }
    let ghost prefix = out@;
    let mut i = found.len();
    while i > 0
        invariant
            i <= found@.len() == found_names.len(),
            forall|j: int| 0 <= j < found@.len() ==> #[trigger] found@[j]@ == found_names[j],
            out@ == prefix + joined_with_slashes(
                found_names.reverse().subrange(0, (found_names.len() - i) as int),
            ),
        decreases i,
    {
        let ghost done = found_names.reverse().subrange(0, (found_names.len() - i) as int);
        out.append(found[i - 1].as_str());
        out.append("/");
        proof {
            reveal_strlit("/");
            assert("/"@ =~= seq!['/']);
            let next = found_names.reverse().subrange(0, (found_names.len() - i + 1) as int);
            assert(next.drop_last() =~= done);
            assert(next.last() == found_names[i - 1]);
            assert(out@ =~= prefix + joined_with_slashes(next));
        }
        i = i - 1;
    }
    assert(found_names.reverse().subrange(0, found_names.len() as int) =~= found_names.reverse());
    out
}

/// Length of the prefix of `s[..end]` that [`trim_end`] keeps.
fn trimmed_len(s: &str, end: usize) -> (r: usize)
    requires
        end <= s@.len(),
    ensures
        r <= end,
        s@.subrange(0, r as int) == trim_end(s@.subrange(0, end as int)),
{
    let mut e = end;
    loop
        invariant
            e <= end <= s@.len(),
            trim_end(s@.subrange(0, end as int)) == trim_end(s@.subrange(0, e as int)),
        decreases e,
    {
        let ghost p = s@.subrange(0, e as int);
        proof {
            lemma_last_separator_bounds(p);
            reveal_strlit(".");
            assert("."@ =~= seq!['.']);
        }
        match find_last_separator(s, e) {
            Some(k) => {
                let empty = k + 1 == e;
                let dot = piece_equals(s, k + 1, e, ".");
                proof {
                    assert(p.subrange(k + 1, p.len() as int) =~= s@.subrange(k + 1, e as int));
                }
                if empty || dot {
                    if k == 0 {
                        assert(s@.subrange(0, 1) =~= seq!['/']);
                        return 1;
                    }
                    assert(p.subrange(0, k as int) =~= s@.subrange(0, k as int));
                    e = k;
                } else {
                    return e;
                }
            },
            None => {
                return e;
            },
        }
    }
}

/// The path that contains `path` (see [`parent`]).
pub fn parent_of(path: &str) -> (r: Option<String>)
    ensures
        match r {
            Some(dir) => parent(path@) == Some(dir@),
            None => parent(path@) is None,
        },
{
    let len = path.unicode_len();
    assert(path@.subrange(0, len as int) =~= path@);
    let t = trimmed_len(path, len);
    let ghost tp = path@.subrange(0, t as int);
    if t == 0 {
        return None;
    }
    if t == 1 && path.get_char(0) == '/' {
        assert(tp =~= seq!['/']);
        return None;
    }
    assert(tp != seq!['/']);
    proof {
        lemma_last_separator_bounds(tp);
    }
    match find_last_separator(path, t) {
        Some(k) => {
            if k == 0 {
                let root = path.substring_char(0, 1).to_string();
                assert(root@ =~= seq!['/']);
                Some(root)
            } else {
                let r = trimmed_len(path, k);
                assert(tp.subrange(0, k as int) =~= path@.subrange(0, k as int));
                let dir = path.substring_char(0, r).to_string();
                Some(dir)
            }
        },
        None => {
            let dir = String::new();
            assert(dir@ =~= Seq::<char>::empty());
            Some(dir)
        },
    }
}

/// Whether two paths have the same components.
pub fn same_path_text(a: &str, b: &str) -> (r: bool)
    ensures
        r == same_path(a@, b@),
{
    let na = normalize_path(a);
    let nb = normalize_path(b);
    na == nb
}

/// `rel` appended to `base` with the separator rules of [`join`].
pub fn join_path(base: &str, rel: &str) -> (r: String)
    ensures
        r@ == join(base@, rel@),
{
    proof {
        reveal_strlit("/");
    }
    let rel_len = rel.unicode_len();
    if rel_len > 0 && rel.get_char(0) == '/' {
        return rel.to_string();
    }
    let base_len = base.unicode_len();
    let mut out = base.to_string();
    if base_len > 0 && base.get_char(base_len - 1) != '/' {
        out.append("/");
    }
    out.append(rel);
    assert(out@ =~= join(base@, rel@));
    out
}

/// Whether `pattern` occurs in `s`.
pub fn contains_str(s: &str, pattern: &str) -> (b: bool)
    ensures
        b == contains_text(s@, pattern@),
{
    let n = s.unicode_len();
    let m = pattern.unicode_len();
    if m == 0 {
        assert(s@.subrange(0, 0int + pattern@.len()) =~= pattern@);
        return true;
    }
    if m > n {
        assert forall|i: int| 0 <= i && i + pattern@.len() <= s@.len() implies #[trigger] s@.subrange(
            i,
            i + pattern@.len(),
        ) != pattern@ by {}
        return false;
    }
    let mut i: usize = 0;
    while i <= n - m
        invariant
            n == s@.len(),
            m == pattern@.len(),
            1 <= m <= n,
            i <= n - m + 1,
            forall|j: int| 0 <= j < i ==> #[trigger] s@.subrange(j, j + m) != pattern@,
        decreases n - m + 1 - i,
    {
        if piece_equals(s, i, i + m, pattern) {
            return true;
        }
        i = i + 1;
    }
    assert forall|j: int| 0 <= j && j + pattern@.len() <= s@.len() implies #[trigger] s@.subrange(
        j,
        j + pattern@.len(),
    ) != pattern@ by {
        assert(j < i);
    }
    false
}

} // verus!
