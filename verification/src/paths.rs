//! Paths as text: components divided by `/`.
//!
//! A path is a sequence of characters. Separators at its end do not count,
//! except that a path made of separators alone is the root. Nothing here
//! touches a file system.

use vstd::prelude::*;

verus! {

/// The character that divides the components of a path.
pub const SEPARATOR: char = '/';

/// Length of `path` without the separators at its end. The last character
/// stays in any case, so that the root keeps its one separator.
pub open spec fn trimmed_len(path: Seq<char>) -> nat
    decreases path.len(),
{
    if path.len() > 1 && path.last() == SEPARATOR {
        trimmed_len(path.drop_last())
    } else {
        path.len()
    }
}

/// `path` without the separators at its end.
pub open spec fn trimmed(path: Seq<char>) -> Seq<char> {
    path.take(trimmed_len(path) as int)
}

/// Index of the last separator in `path`, or -1 where it holds none.
pub open spec fn last_separator(path: Seq<char>) -> int
    decreases path.len(),
{
    if path.len() == 0 {
        -1
    } else if path.last() == SEPARATOR {
        path.len() - 1
    } else {
        last_separator(path.drop_last())
    }
}

/// The final component of `path`: what follows the last separator of the
/// trimmed path. It is empty for the root and for the empty path.
pub open spec fn spec_file_name(path: Seq<char>) -> Seq<char> {
    let t = trimmed(path);
    t.skip(last_separator(t) + 1)
}

/// Whether the final component of `path` starts with a dot.
pub open spec fn spec_is_hidden(path: Seq<char>) -> bool {
    spec_file_name(path).len() > 0 && spec_file_name(path)[0] == '.'
}

/// The directory that holds `path`: the trimmed path up to its last
/// separator, trimmed again. The root, the empty path and a single component
/// have none.
pub open spec fn spec_parent(path: Seq<char>) -> Option<Seq<char>> {
    let t = trimmed(path);
    let k = last_separator(t);
    if k < 0 || t.len() == 1 {
        None
    } else {
        Some(trimmed(t.take(k + 1)))
    }
}

/// `name` seen from `dir`: `name` itself where it starts at the root, else
/// `dir` and `name` with exactly one separator put between them unless `dir`
/// is empty or brings its own.
pub open spec fn spec_join(dir: Seq<char>, name: Seq<char>) -> Seq<char> {
    if name.len() > 0 && name[0] == SEPARATOR {
        name
    } else if dir.len() == 0 || dir.last() == SEPARATOR {
        dir + name
    } else {
        dir + seq![SEPARATOR] + name
    }
}

/// Whether `a` comes before `b`, or is `b`, in the order of a dictionary:
/// the first character in which they differ decides, by its code point, and
/// a path comes before those that it starts.
pub open spec fn spec_precedes(a: Seq<char>, b: Seq<char>) -> bool
    decreases a.len(),
{
    if a.len() == 0 {
        true
    } else if b.len() == 0 {
        false
    } else if a[0] != b[0] {
        a[0] < b[0]
    } else {
        spec_precedes(a.drop_first(), b.drop_first())
    }
}

/// How two paths stand to each other in the order of a dictionary.
#[derive(Clone, Copy, Debug, PartialEq, Eq, Structural)]
pub enum Rank {
    Before,
    Same,
    After,
}

/// The rank of `a` with respect to `b`: the same, or before it, or after it.
pub open spec fn spec_rank(a: Seq<char>, b: Seq<char>) -> Rank {
    if a == b {
        Rank::Same
    } else if spec_precedes(a, b) {
        Rank::Before
    } else {
        Rank::After
    }
}

/// Trimming leaves a front part of the path that does not end in a
/// separator unless it is one character long, and only separators are cut.
pub proof fn lemma_trimmed_len(path: Seq<char>)
    ensures
        trimmed_len(path) <= path.len(),
        path.len() > 0 ==> trimmed_len(path) >= 1,
        trimmed_len(path) > 1 ==> path[trimmed_len(path) - 1] != SEPARATOR,
        forall|i: int| trimmed_len(path) <= i < path.len() ==> path[i] == SEPARATOR,
        trimmed_len(trimmed(path)) == trimmed_len(path),
    decreases path.len(),
{
    if path.len() > 1 && path.last() == SEPARATOR {
        let shorter = path.drop_last();
        lemma_trimmed_len(shorter);
        assert forall|i: int| trimmed_len(path) <= i < path.len() implies path[i]
            == SEPARATOR by {
            if i < shorter.len() {
                assert(shorter[i] == path[i]);
            }
        }
    }
}

/// The last separator is a separator, and none follows it.
pub proof fn lemma_last_separator(path: Seq<char>)
    ensures
        -1 <= last_separator(path) < path.len(),
        last_separator(path) >= 0 ==> path[last_separator(path)] == SEPARATOR,
        forall|i: int| last_separator(path) < i < path.len() ==> path[i] != SEPARATOR,
    decreases path.len(),
{
    if path.len() > 0 && path.last() != SEPARATOR {
        let shorter = path.drop_last();
        lemma_last_separator(shorter);
        assert forall|i: int| last_separator(path) < i < path.len() implies path[i]
            != SEPARATOR by {
            if i < shorter.len() {
                assert(shorter[i] == path[i]);
            }
        }
    }
}

/// A final component holds no separator, unless the path is the root.
pub proof fn lemma_file_name_is_one_component(path: Seq<char>)
    ensures
        forall|i: int| 0 <= i < spec_file_name(path).len() ==> spec_file_name(path)[i] != SEPARATOR,
        spec_file_name(path).len() <= path.len(),
{
    lemma_trimmed_len(path);
    lemma_last_separator(trimmed(path));
}

/// A parent is shorter than its path: going up comes to an end.
pub proof fn lemma_parent_is_shorter(path: Seq<char>)
    ensures
        spec_parent(path) matches Some(p) ==> 0 < p.len() < path.len(),
        spec_parent(path) matches Some(p) ==> trimmed(p) == p,
{
    let t = trimmed(path);
    let k = last_separator(t);
    lemma_trimmed_len(path);
    lemma_last_separator(t);
    if k >= 0 && t.len() != 1 {
        lemma_trimmed_len(t.take(k + 1));
    }
}

/// Joining a name that holds no separator to a directory gives a path whose
/// final component is that name and, for a trimmed directory, whose parent is
/// that directory.
pub proof fn lemma_join_then_split(dir: Seq<char>, name: Seq<char>)
    requires
        name.len() > 0,
        forall|i: int| 0 <= i < name.len() ==> name[i] != SEPARATOR,
    ensures
        spec_file_name(spec_join(dir, name)) == name,
        dir.len() > 0 && trimmed(dir) == dir ==> spec_parent(spec_join(dir, name)) == Some(dir),
{
    let joined = spec_join(dir, name);
    let head = if dir.len() == 0 || dir.last() == SEPARATOR {
        dir
    } else {
        dir + seq![SEPARATOR]
    };
    assert(trimmed(joined) =~= joined);
    lemma_separator_before_suffix(head, name);
    if dir.len() > 0 && trimmed(dir) == dir {
        lemma_trimmed_len(dir);
        assert(joined.take(head.len() as int) =~= head);
        if dir.last() != SEPARATOR {
            assert(head.drop_last() =~= dir);
        }
    }
}

/// Behind a head that is empty or ends in a separator, a tail without
/// separators leaves the last separator at the head's end.
proof fn lemma_separator_before_suffix(head: Seq<char>, tail: Seq<char>)
    requires
        head.len() == 0 || head.last() == SEPARATOR,
        forall|i: int| 0 <= i < tail.len() ==> tail[i] != SEPARATOR,
    ensures
        last_separator(head + tail) == head.len() - 1,
    decreases tail.len(),
{
    if tail.len() > 0 {
        assert((head + tail).drop_last() =~= head + tail.drop_last());
        lemma_separator_before_suffix(head, tail.drop_last());
    }
}

/// Every path precedes itself.
pub proof fn lemma_precedes_reflexive(a: Seq<char>)
    ensures
        spec_precedes(a, a),
    decreases a.len(),
{
    if a.len() > 0 {
        lemma_precedes_reflexive(a.drop_first());
    }
}

/// Of two paths one precedes the other.
pub proof fn lemma_precedes_total(a: Seq<char>, b: Seq<char>)
    ensures
        spec_precedes(a, b) || spec_precedes(b, a),
    decreases a.len(),
{
    if a.len() > 0 && b.len() > 0 {
        if a[0] == b[0] {
            lemma_precedes_total(a.drop_first(), b.drop_first());
        }
    }
}

/// Two paths that precede each other are the same path.
pub proof fn lemma_precedes_antisymmetric(a: Seq<char>, b: Seq<char>)
    requires
        spec_precedes(a, b),
        spec_precedes(b, a),
    ensures
        a == b,
    decreases a.len(),
{
    if a.len() > 0 && b.len() > 0 {
        lemma_precedes_antisymmetric(a.drop_first(), b.drop_first());
        assert(a =~= seq![a[0]] + a.drop_first());
    }
}

/// What precedes a path precedes all that the path precedes.
pub proof fn lemma_precedes_transitive(a: Seq<char>, b: Seq<char>, c: Seq<char>)
    requires
        spec_precedes(a, b),
        spec_precedes(b, c),
    ensures
        spec_precedes(a, c),
    decreases a.len(),
{
    if a.len() > 0 && b.len() > 0 && c.len() > 0 && a[0] == b[0] && b[0] == c[0] {
        lemma_precedes_transitive(a.drop_first(), b.drop_first(), c.drop_first());
    }
}

/// Two paths that agree in their first `n` characters are ordered as what
/// follows those characters.
pub proof fn lemma_precedes_after_common_prefix(a: Seq<char>, b: Seq<char>, n: int)
    requires
        0 <= n <= a.len(),
        n <= b.len(),
        forall|i: int| 0 <= i < n ==> a[i] == b[i],
    ensures
        spec_precedes(a, b) == spec_precedes(a.skip(n), b.skip(n)),
    decreases n,
{
    if n == 0 {
        assert(a.skip(0) =~= a);
        assert(b.skip(0) =~= b);
    } else {
        lemma_precedes_after_common_prefix(a.drop_first(), b.drop_first(), n - 1);
        assert(a.drop_first().skip(n - 1) =~= a.skip(n));
        assert(b.drop_first().skip(n - 1) =~= b.skip(n));
    }
}

/// Computes `trimmed_len`: where the trimmed path ends.
pub fn trimmed_end(path: &str) -> (end: usize)
    ensures
        end == trimmed_len(path@),
        end <= path@.len(),
{
    let mut end: usize = path.unicode_len();
    assert(path@.take(end as int) =~= path@);
    while end > 1 && path.get_char(end - 1) == SEPARATOR
        invariant
            end <= path@.len(),
            trimmed_len(path@.take(end as int)) == trimmed_len(path@),
        decreases end,
    {
        assert(path@.take(end as int).drop_last() =~= path@.take(end - 1));
        end = end - 1;
    }
    end
}

/// Finds the last separator among the first `end` characters of `path`.
pub fn last_separator_before(path: &str, end: usize) -> (found: Option<usize>)
    requires
        end <= path@.len(),
    ensures
        match found {
            Some(k) => k == last_separator(path@.take(end as int)) && k < end,
            None => last_separator(path@.take(end as int)) == -1,
        },
{
    let mut at: usize = end;
    while at > 0 && path.get_char(at - 1) != SEPARATOR
        invariant
            at <= end <= path@.len(),
            last_separator(path@.take(at as int)) == last_separator(path@.take(end as int)),
        decreases at,
    {
        assert(path@.take(at as int).drop_last() =~= path@.take(at - 1));
        at = at - 1;
    }
    if at == 0 {
        None
    } else {
        Some(at - 1)
    }
}

/// Where the final component of `path` starts and ends.
fn final_component(path: &str) -> (bounds: (usize, usize))
    ensures
        bounds.0 <= bounds.1 <= path@.len(),
        path@.subrange(bounds.0 as int, bounds.1 as int) == spec_file_name(path@),
{
    let end = trimmed_end(path);
    let start: usize = match last_separator_before(path, end) {
        Some(k) => k + 1,
        None => 0,
    };
    proof {
        lemma_last_separator(trimmed(path@));
    }
    (start, end)
}

/// The final component of `path`.
pub fn file_name(path: &str) -> (name: String)
    ensures
        name@ == spec_file_name(path@),
{
    let (start, end) = final_component(path);
    String::from_str(path.substring_char(start, end))
}

/// Whether the final component of `path` starts with a dot.
pub fn is_hidden(path: &str) -> (hidden: bool)
    ensures
        hidden == spec_is_hidden(path@),
{
    let (start, end) = final_component(path);
    start < end && path.get_char(start) == '.'
}

/// The directory that holds `path`, if it has one.
pub fn parent(path: &str) -> (up: Option<String>)
    ensures
        match up {
            Some(dir) => spec_parent(path@) == Some(dir@),
            None => spec_parent(path@) is None,
        },
{
    let end = trimmed_end(path);
    match last_separator_before(path, end) {
        None => None,
        Some(k) => {
            if end == 1 {
                None
            } else {
                proof {
                    lemma_last_separator(trimmed(path@));
                }
                let head = path.substring_char(0, k + 1);
                assert(head@ =~= trimmed(path@).take(k + 1));
                let cut = trimmed_end(head);
                Some(String::from_str(path.substring_char(0, cut)))
            }
        },
    }
}

/// `name` seen from `dir`.
pub fn join(dir: &str, name: &str) -> (path: String)
    ensures
        path@ == spec_join(dir@, name@),
{
    if name.unicode_len() > 0 && name.get_char(0) == SEPARATOR {
        return String::from_str(name);
    }
    let len = dir.unicode_len();
    let base = String::from_str(dir);
    if len == 0 || dir.get_char(len - 1) == SEPARATOR {
        base.concat(name)
    } else {
        proof {
            reveal_strlit("/");
        }
        base.concat("/").concat(name)
    }
}

/// Ranks `a` with respect to `b` in the order of a dictionary.
pub fn rank(a: &str, b: &str) -> (r: Rank)
    ensures
        r == spec_rank(a@, b@),
{
    let a_len = a.unicode_len();
    let b_len = b.unicode_len();
    let mut at: usize = 0;
    while at < a_len && at < b_len && a.get_char(at) == b.get_char(at)
        invariant
            at <= a_len == a@.len(),
            at <= b_len == b@.len(),
            forall|i: int| 0 <= i < at ==> a@[i] == b@[i],
        decreases a_len - at,
    {
        at = at + 1;
    }
    proof {
        lemma_precedes_after_common_prefix(a@, b@, at as int);
    }
    if at == a_len {
        if at == b_len {
            assert(a@ =~= b@);
            Rank::Same
        } else {
            Rank::Before
        }
    } else if at == b_len {
        Rank::After
    } else if a.get_char(at) < b.get_char(at) {
        Rank::Before
    } else {
        Rank::After
    }
}

/// Whether `a` comes before `b`, or is `b`, in the order of a dictionary.
pub fn precedes(a: &str, b: &str) -> (before: bool)
    ensures
        before == spec_precedes(a@, b@),
{
    proof {
        lemma_precedes_reflexive(a@);
    }
    match rank(a, b) {
        Rank::Before => true,
        Rank::Same => true,
        Rank::After => false,
    }
}

} // verus!
