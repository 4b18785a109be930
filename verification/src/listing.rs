//! The listing of a directory: which of its entries a dialog shows, and in
//! which order.

use crate::paths::{
    is_hidden, lemma_precedes_antisymmetric, lemma_precedes_reflexive, lemma_precedes_total,
    lemma_precedes_transitive, rank, spec_is_hidden, spec_precedes, Rank,
};
use crate::select::Mode;
use vstd::prelude::*;
use vstd::seq_lib::{
    lemma_multiset_commutative, to_multiset_build, to_multiset_contains, to_multiset_insert,
    to_multiset_len, to_multiset_remove,
};

verus! {

/// One entry of a directory: its path, and whether it is a directory.
#[derive(Clone, Debug, PartialEq, Eq)]
pub struct Entry {
    pub path: String,
    pub is_dir: bool,
}

/// What an `Entry` stands for.
pub struct EntryView {
    pub path: Seq<char>,
    pub is_dir: bool,
}

impl View for Entry {
    type V = EntryView;

    open spec fn view(&self) -> EntryView {
        EntryView { path: self.path@, is_dir: self.is_dir }
    }
}

/// What each of `entries` stands for, in the same order.
pub open spec fn views(entries: Seq<Entry>) -> Seq<EntryView> {
    entries.map_values(|e: Entry| e@)
}

/// The order of a listing: the path of `a` comes before that of `b`, or is
/// it, in the order of a dictionary. Whether an entry is a directory plays no
/// part.
pub open spec fn entry_le(a: EntryView, b: EntryView) -> bool {
    spec_precedes(a.path, b.path)
}

/// Whether the entries of `s` stand in the order of their paths.
pub open spec fn sorted(s: Seq<EntryView>) -> bool {
    forall|i: int, j: int| 0 <= i < j < s.len() ==> entry_le(s[i], s[j])
}

/// Whether a dialog in `mode` shows `entry`: a directory always, a file
/// where files are shown, and neither where hidden entries are filtered and
/// its name starts with a dot.
pub open spec fn keeps(entry: EntryView, mode: Mode, filter_hidden: bool) -> bool {
    &&& entry.is_dir || mode.spec_show_files()
    &&& !(filter_hidden && spec_is_hidden(entry.path))
}

/// The entries of `raw` that a dialog in `mode` shows, in the order read.
pub open spec fn kept(raw: Seq<EntryView>, mode: Mode, filter_hidden: bool) -> Seq<EntryView> {
    raw.filter(|e: EntryView| keeps(e, mode, filter_hidden))
}

/// The test for having the path `path`.
pub open spec fn with_path(path: Seq<char>) -> spec_fn(EntryView) -> bool {
    |e: EntryView| e.path == path
}

/// The entries of `s` that have the path `path`, in the order in which they
/// stand in `s`.
pub open spec fn group(s: Seq<EntryView>, path: Seq<char>) -> Seq<EntryView> {
    s.filter(with_path(path))
}

/// Whether `listing` is what a dialog in `mode` shows of the entries `raw`:
/// the entries that it keeps, each as often as it was read, in the order of
/// their paths, and those of one path in the order read.
pub open spec fn is_listing_of(
    listing: Seq<EntryView>,
    raw: Seq<EntryView>,
    mode: Mode,
    filter_hidden: bool,
) -> bool {
    &&& sorted(listing)
    &&& listing.to_multiset() == kept(raw, mode, filter_hidden).to_multiset()
    &&& forall|path: Seq<char>| #[trigger]
        group(listing, path) == group(kept(raw, mode, filter_hidden), path)
}

/// Whether `listing` could be shown by a dialog in `mode`: it is in order
/// and holds only entries that such a dialog keeps.
pub open spec fn fits(listing: Seq<EntryView>, mode: Mode, filter_hidden: bool) -> bool {
    &&& sorted(listing)
    &&& forall|i: int| 0 <= i < listing.len() ==> keeps(#[trigger] listing[i], mode, filter_hidden)
}

/// Of two entries one stands before the other, and each stands before
/// itself.
pub proof fn lemma_entry_le_total(a: EntryView, b: EntryView)
    ensures
        entry_le(a, b) || entry_le(b, a),
        entry_le(a, a),
{
    lemma_precedes_total(a.path, b.path);
    lemma_precedes_reflexive(a.path);
}

/// Two entries that stand before each other have one path.
pub proof fn lemma_entry_le_antisymmetric(a: EntryView, b: EntryView)
    requires
        entry_le(a, b),
        entry_le(b, a),
    ensures
        a.path == b.path,
{
    lemma_precedes_antisymmetric(a.path, b.path);
}

/// What stands before an entry stands before all that the entry stands
/// before.
pub proof fn lemma_entry_le_transitive(a: EntryView, b: EntryView, c: EntryView)
    requires
        entry_le(a, b),
        entry_le(b, c),
    ensures
        entry_le(a, c),
{
    lemma_precedes_transitive(a.path, b.path, c.path);
}

/// A listing in order stays in order when an entry is put where all before
/// it stand before it and it stands before all behind it.
pub proof fn lemma_insert_keeps_order(s: Seq<EntryView>, at: int, e: EntryView)
    requires
        sorted(s),
        0 <= at <= s.len(),
        forall|i: int| 0 <= i < at ==> entry_le(s[i], e),
        forall|i: int| at <= i < s.len() ==> entry_le(e, s[i]),
    ensures
        sorted(s.insert(at, e)),
{
}

/// An entry added at the end joins the group of its path, at its end, and
/// no other group.
pub proof fn lemma_group_push(s: Seq<EntryView>, e: EntryView, path: Seq<char>)
    ensures
        group(s.push(e), path) == if e.path == path {
            group(s, path).push(e)
        } else {
            group(s, path)
        },
{
    s.lemma_filter_push(e, with_path(path));
}

/// Entries of which none has the path `path` have no group of that path.
pub proof fn lemma_group_of_other_paths(s: Seq<EntryView>, path: Seq<char>)
    requires
        forall|i: int| 0 <= i < s.len() ==> s[i].path != path,
    ensures
        group(s, path) == Seq::<EntryView>::empty(),
    decreases s.len(),
{
    reveal(Seq::filter);
    if s.len() > 0 {
        lemma_group_of_other_paths(s.drop_last(), path);
    }
}

/// An entry put before all entries of its path joins the group of its path,
/// at its front, and no other group.
pub proof fn lemma_group_insert(s: Seq<EntryView>, at: int, e: EntryView, path: Seq<char>)
    requires
        0 <= at <= s.len(),
        forall|i: int| 0 <= i < at ==> s[i].path != e.path,
    ensures
        group(s.insert(at, e), path) == if e.path == path {
            seq![e] + group(s, path)
        } else {
            group(s, path)
        },
{
    let front = s.take(at);
    let back = s.skip(at);
    let test = with_path(path);
    assert(s =~= front + back);
    assert(s.insert(at, e) =~= front + (seq![e] + back));
    Seq::filter_distributes_over_add(front, back, test);
    Seq::filter_distributes_over_add(front, seq![e] + back, test);
    back.lemma_filter_prepend(e, test);
    if e.path == path {
        lemma_group_of_other_paths(front, path);
        assert(Seq::<EntryView>::empty() + (seq![e] + back.filter(test)) =~= seq![e] + back.filter(
            test,
        ));
    }
}

/// Two listings in order that hold the same entries, each as often, and
/// those of each path in the same order, are the same listing: what a dialog
/// shows of a directory is determined.
pub proof fn lemma_listing_is_unique(a: Seq<EntryView>, b: Seq<EntryView>)
    requires
        sorted(a),
        sorted(b),
        a.to_multiset() == b.to_multiset(),
        forall|path: Seq<char>| #[trigger] group(a, path) == group(b, path),
    ensures
        a == b,
    decreases a.len(),
{
    to_multiset_len(a);
    to_multiset_len(b);
    if a.len() > 0 {
        let x = a.last();
        let y = b.last();
        let a0 = a.drop_last();
        let b0 = b.drop_last();
        assert(a =~= a0.push(x));
        assert(b =~= b0.push(y));
        // Each of the two last entries stands somewhere in the other listing,
        // and so before its last entry: the two have one path.
        to_multiset_contains(a, x);
        to_multiset_contains(b, x);
        to_multiset_contains(a, y);
        to_multiset_contains(b, y);
        let i = choose|i: int| 0 <= i < b.len() && b[i] == x;
        let j = choose|j: int| 0 <= j < a.len() && a[j] == y;
        lemma_entry_le_total(x, y);
        assert(entry_le(b[i], y));
        assert(entry_le(a[j], x));
        lemma_entry_le_antisymmetric(x, y);
        // They end the same group, so they are one entry; and without them
        // the groups still agree.
        let p = x.path;
        lemma_group_push(a0, x, p);
        lemma_group_push(b0, y, p);
        assert(group(a0, p).push(x).last() == x);
        assert forall|path: Seq<char>| #[trigger] group(a0, path) == group(b0, path) by {
            lemma_group_push(a0, x, path);
            lemma_group_push(b0, y, path);
            if path == p {
                assert(group(a0, path) =~= group(a0, path).push(x).drop_last());
            }
        }
        to_multiset_remove(a, a.len() - 1);
        to_multiset_remove(b, b.len() - 1);
        lemma_listing_is_unique(a0, b0);
    }
}

/// A listing of some entries holds as many entries as are kept of them, and
/// each of its entries is one of those kept.
pub proof fn lemma_listing_holds_the_kept(
    listing: Seq<EntryView>,
    raw: Seq<EntryView>,
    mode: Mode,
    filter_hidden: bool,
)
    requires
        is_listing_of(listing, raw, mode, filter_hidden),
    ensures
        listing.len() == kept(raw, mode, filter_hidden).len(),
        listing.len() <= raw.len(),
        fits(listing, mode, filter_hidden),
        forall|i: int| 0 <= i < listing.len() ==> raw.contains(#[trigger] listing[i]),
        forall|i: int|
            0 <= i < raw.len() && keeps(raw[i], mode, filter_hidden) ==> listing.contains(
                #[trigger] raw[i],
            ),
{
    let pred = |e: EntryView| keeps(e, mode, filter_hidden);
    let chosen = kept(raw, mode, filter_hidden);
    to_multiset_len(listing);
    to_multiset_len(chosen);
    raw.lemma_filter_len(pred);
    assert forall|i: int| 0 <= i < listing.len() implies keeps(
        #[trigger] listing[i],
        mode,
        filter_hidden,
    ) && raw.contains(listing[i]) by {
        let e = listing[i];
        to_multiset_contains(listing, e);
        to_multiset_contains(chosen, e);
        let k = choose|k: int| 0 <= k < chosen.len() && chosen[k] == e;
        raw.lemma_filter_pred(pred, k);
        raw.lemma_filter_contains_rev(pred, e);
    }
    assert forall|i: int|
        0 <= i < raw.len() && keeps(raw[i], mode, filter_hidden) implies listing.contains(
        #[trigger] raw[i],
    ) by {
        raw.lemma_filter_contains(pred, i);
        to_multiset_contains(listing, raw[i]);
        to_multiset_contains(chosen, raw[i]);
    }
}

impl Entry {
    /// An entry with the path and kind given.
    pub fn new(path: String, is_dir: bool) -> (entry: Entry)
        ensures
            entry@ == (EntryView { path: path@, is_dir }),
    {
        Entry { path, is_dir }
    }

    /// A copy of this entry.
    pub fn duplicate(&self) -> (copy: Entry)
        ensures
            copy@ == self@,
    {
        Entry { path: self.path.clone(), is_dir: self.is_dir }
    }

    /// Whether this entry stands before `other` in a listing, or has the
    /// same path.
    pub fn stands_before(&self, other: &Entry) -> (before: bool)
        ensures
            before == entry_le(self@, other@),
    {
        proof {
            lemma_precedes_reflexive(self@.path);
        }
        match rank(self.path.as_str(), other.path.as_str()) {
            Rank::Before => true,
            Rank::Same => true,
            Rank::After => false,
        }
    }

    /// Whether a dialog in `mode` shows this entry.
    pub fn is_kept(&self, mode: Mode, filter_hidden: bool) -> (kept: bool)
        ensures
            kept == keeps(self@, mode, filter_hidden),
    {
        (self.is_dir || mode.show_files()) && !(filter_hidden && is_hidden(self.path.as_str()))
    }
}

/// Finds where `entry` goes in a listing in order: behind all whose path
/// comes before its own, and before all others.
fn insertion_point(listing: &Vec<Entry>, entry: &Entry) -> (at: usize)
    requires
        sorted(views(listing@)),
    ensures
        at <= listing.len(),
        forall|i: int| 0 <= i < at ==> !entry_le(entry@, views(listing@)[i]),
        forall|i: int| at <= i < listing.len() ==> entry_le(entry@, views(listing@)[i]),
{
    let ghost s = views(listing@);
    let mut low: usize = 0;
    let mut high: usize = listing.len();
    while low < high
        invariant
            low <= high <= listing.len(),
            s == views(listing@),
            s.len() == listing.len(),
            sorted(s),
            forall|i: int| 0 <= i < low ==> !entry_le(entry@, s[i]),
            forall|i: int| high <= i < s.len() ==> entry_le(entry@, s[i]),
        decreases high - low,
    {
        let mid: usize = low + (high - low) / 2;
        if entry.stands_before(&listing[mid]) {
            assert forall|i: int| mid <= i < s.len() implies entry_le(entry@, s[i]) by {
                if mid < i {
                    lemma_entry_le_transitive(entry@, s[mid as int], s[i]);
                }
            }
            high = mid;
        } else {
            assert forall|i: int| 0 <= i < mid + 1 implies !entry_le(entry@, s[i]) by {
                if i < mid && entry_le(entry@, s[i]) {
                    lemma_entry_le_transitive(entry@, s[i], s[mid as int]);
                }
            }
            low = mid + 1;
        }
    }
    low
}

/// An entry put before others adds itself to what they hold.
proof fn lemma_prepend_to_multiset(e: EntryView, tail: Seq<EntryView>)
    ensures
        (seq![e] + tail).to_multiset() == tail.to_multiset().insert(e),
{
    broadcast use vstd::multiset::group_multiset_axioms;

    lemma_multiset_commutative(seq![e], tail);
    lemma_multiset_commutative(tail, seq![e]);
    assert(tail + seq![e] =~= tail.push(e));
    to_multiset_build(tail, e);
    assert(seq![e].to_multiset().add(tail.to_multiset()) =~= tail.to_multiset().add(
        seq![e].to_multiset(),
    ));
}

/// What a dialog in `mode` shows of the entries `raw` read from a directory:
/// the directories, the files too unless a folder is to be chosen, none whose
/// name starts with a dot where `filter_hidden` is set; in the order of their
/// paths, directories and files mixed, and entries of one path in the order
/// read.
pub fn list(raw: Vec<Entry>, mode: Mode, filter_hidden: bool) -> (listing: Vec<Entry>)
    ensures
        is_listing_of(views(listing@), views(raw@), mode, filter_hidden),
        fits(views(listing@), mode, filter_hidden),
        listing.len() <= raw.len(),
{
    let ghost all = views(raw@);
    let ghost pred = |e: EntryView| keeps(e, mode, filter_hidden);
    let mut rest = raw;
    let mut listing: Vec<Entry> = Vec::new();
    assert(all.take(rest.len() as int) =~= all);
    assert(all.skip(rest.len() as int) =~= Seq::<EntryView>::empty());
    assert(views(listing@) =~= Seq::<EntryView>::empty());
    proof {
        reveal(Seq::filter);
    }
    while rest.len() > 0
        invariant
            all == views(raw@),
            pred == (|e: EntryView| keeps(e, mode, filter_hidden)),
            rest.len() <= all.len(),
            views(rest@) == all.take(rest.len() as int),
            sorted(views(listing@)),
            views(listing@).to_multiset() == all.skip(rest.len() as int).filter(
                pred,
            ).to_multiset(),
            forall|path: Seq<char>| #[trigger]
                group(views(listing@), path) == group(
                    all.skip(rest.len() as int).filter(pred),
                    path,
                ),
        decreases rest.len(),
    {
        let ghost before = rest@;
        let ghost shown = views(listing@);
        let ghost n = rest.len() as int;
        let entry = rest.pop().unwrap();
        let ghost e = entry@;
        let ghost tail = all.skip(n).filter(pred);
        proof {
            assert(e == views(before)[n - 1]);
            assert(all.skip(n - 1) =~= seq![e] + all.skip(n));
            all.skip(n).lemma_filter_prepend(e, pred);
        }
        if entry.is_kept(mode, filter_hidden) {
            let at = insertion_point(&listing, &entry);
            listing.insert(at, entry);
            proof {
                assert(views(listing@) =~= shown.insert(at as int, e));
                assert forall|i: int| 0 <= i < at implies entry_le(shown[i], e) && shown[i].path
                    != e.path by {
                    lemma_entry_le_total(shown[i], e);
                }
                lemma_insert_keeps_order(shown, at as int, e);
                to_multiset_insert(shown, at as int, e);
                lemma_prepend_to_multiset(e, tail);
                assert forall|path: Seq<char>| #[trigger]
                    group(shown.insert(at as int, e), path) == group(seq![e] + tail, path) by {
                    lemma_group_insert(shown, at as int, e, path);
                    tail.lemma_filter_prepend(e, with_path(path));
                }
            }
        }
    }
    proof {
        lemma_listing_holds_the_kept(views(listing@), all, mode, filter_hidden);
    }
    listing
}

} // verus!
