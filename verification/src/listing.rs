//! What one look into a directory found, and the order in which its files
//! are handed out: ascending by path, character by character.

use vstd::prelude::*;
use vstd::relations::*;
use vstd::seq_lib::*;
use vstd::std_specs::iter::IteratorSpec;

verus! {

/// One child of a directory, as the caller's scan reported it.
#[derive(Debug, Clone, PartialEq, Eq)]
pub struct Entry {
    /// The child's path.
    pub path: String,
    /// Whether the child is a regular file.
    pub regular: bool,
}

/// `a` comes before `b`, or is `b`: the first character that differs
/// decides, and a prefix comes before what it is a prefix of.
pub open spec fn lex_le(a: Seq<char>, b: Seq<char>) -> bool
    decreases a.len(),
{
    if a.len() == 0 {
        true
    } else if b.len() == 0 {
        false
    } else if a[0] != b[0] {
        a[0] < b[0]
    } else {
        lex_le(a.drop_first(), b.drop_first())
    }
}

/// [`lex_le`] as a relation.
pub open spec fn lex_order() -> spec_fn(Seq<char>, Seq<char>) -> bool {
    |a: Seq<char>, b: Seq<char>| lex_le(a, b)
}

/// The text of each string of `v`.
pub open spec fn texts(v: Seq<String>) -> Seq<Seq<char>> {
    Seq::new(v.len(), |i: int| v[i]@)
}

/// The paths of the regular files among `listing`, in its order.
pub open spec fn regular_paths(listing: Seq<Entry>) -> Seq<Seq<char>>
    decreases listing.len(),
{
    if listing.len() == 0 {
        Seq::empty()
    } else {
        let before = regular_paths(listing.drop_last());
        if listing.last().regular {
            before.push(listing.last().path@)
        } else {
            before
        }
    }
}

/// The paths of the regular files among `listing`, ascending.
pub open spec fn sorted_files(listing: Seq<Entry>) -> Seq<Seq<char>> {
    regular_paths(listing).sort_by(lex_order())
}

/// Every text is at or before itself.
pub proof fn lemma_lex_reflexive(a: Seq<char>)
    ensures
        lex_le(a, a),
    decreases a.len(),
{
    if a.len() > 0 {
        lemma_lex_reflexive(a.drop_first());
    }
}

/// Two texts that are each at or before the other are one text.
pub proof fn lemma_lex_antisymmetric(a: Seq<char>, b: Seq<char>)
    requires
        lex_le(a, b),
        lex_le(b, a),
    ensures
        a == b,
    decreases a.len(),
{
    if a.len() == 0 || b.len() == 0 {
        assert(a =~= b);
    } else {
        lemma_lex_antisymmetric(a.drop_first(), b.drop_first());
        assert(a =~= seq![a[0]] + a.drop_first());
        assert(b =~= seq![b[0]] + b.drop_first());
    }
}

/// What is at or before a text is at or before all that the text is at or
/// before.
pub proof fn lemma_lex_transitive(a: Seq<char>, b: Seq<char>, c: Seq<char>)
    requires
        lex_le(a, b),
        lex_le(b, c),
    ensures
        lex_le(a, c),
    decreases a.len(),
{
    if a.len() > 0 && a[0] == b[0] && b[0] == c[0] {
        lemma_lex_transitive(a.drop_first(), b.drop_first(), c.drop_first());
    }
}

/// Of two texts, one is at or before the other.
pub proof fn lemma_lex_total(a: Seq<char>, b: Seq<char>)
    ensures
        lex_le(a, b) || lex_le(b, a),
    decreases a.len(),
{
    if a.len() > 0 && b.len() > 0 && a[0] == b[0] {
        lemma_lex_total(a.drop_first(), b.drop_first());
    }
}

/// The order of paths is a total order.
pub proof fn lemma_lex_order()
    ensures
        total_ordering(lex_order()),
{
    let r = lex_order();
    assert forall|x: Seq<char>| #[trigger] r(x, x) by {
        lemma_lex_reflexive(x);
    }
    assert forall|x: Seq<char>, y: Seq<char>| #[trigger] r(x, y) && #[trigger] r(y, x) implies x
        == y by {
        lemma_lex_antisymmetric(x, y);
    }
    assert forall|x: Seq<char>, y: Seq<char>, z: Seq<char>| #[trigger]
        r(x, y) && #[trigger] r(y, z) implies r(x, z) by {
        lemma_lex_transitive(x, y, z);
    }
    assert forall|x: Seq<char>, y: Seq<char>| #[trigger] r(x, y) || #[trigger] r(y, x) by {
        lemma_lex_total(x, y);
    }
}

/// A common prefix does not change the order of what follows it.
pub proof fn lemma_lex_prefix(prefix: Seq<char>, a: Seq<char>, b: Seq<char>)
    ensures
        lex_le(prefix + a, prefix + b) == lex_le(a, b),
    decreases prefix.len(),
{
    if prefix.len() == 0 {
        assert(prefix + a =~= a);
        assert(prefix + b =~= b);
    } else {
        let rest = prefix.drop_first();
        assert((prefix + a).drop_first() =~= rest + a);
        assert((prefix + b).drop_first() =~= rest + b);
        lemma_lex_prefix(rest, a, b);
    }
}

/// What [`regular_paths`] holds: the paths of the regular entries, and
/// nothing else.
pub proof fn lemma_regular_paths(listing: Seq<Entry>, path: Seq<char>)
    ensures
        regular_paths(listing).contains(path) <==> exists|i: int|
            0 <= i < listing.len() && (#[trigger] listing[i]).regular && listing[i].path@ == path,
    decreases listing.len(),
{
    if listing.len() > 0 {
        let front = listing.drop_last();
        let last = listing.last();
        lemma_regular_paths(front, path);
        let before = regular_paths(front);
        if regular_paths(listing).contains(path) {
            if before.contains(path) {
                let i = choose|i: int|
                    0 <= i < front.len() && (#[trigger] front[i]).regular && front[i].path@ == path;
                assert(listing[i].regular && listing[i].path@ == path);
            } else {
                let k = choose|k: int|
                    0 <= k < regular_paths(listing).len() && regular_paths(listing)[k] == path;
                assert(last.regular);
                if k < before.len() {
                    assert(before[k] == path);
                }
                assert(listing[listing.len() - 1].regular && last.path@ == path);
            }
        }
        if exists|i: int|
            0 <= i < listing.len() && (#[trigger] listing[i]).regular && listing[i].path@ == path {
            let i = choose|i: int|
                0 <= i < listing.len() && (#[trigger] listing[i]).regular && listing[i].path@
                    == path;
            if i < front.len() {
                assert(front[i].regular && front[i].path@ == path);
                assert(before.contains(path));
                let k = choose|k: int| 0 <= k < before.len() && before[k] == path;
                if last.regular {
                    assert(before.push(last.path@)[k] == path);
                }
            } else {
                assert(before.push(path).last() == path);
            }
        }
    }
}

/// Whether `a` comes before `b`, or is `b`.
pub fn text_le(a: &str, b: &str) -> (le: bool)
    ensures
        le == lex_le(a@, b@),
{
    broadcast use vstd::string::group_string_axioms;

    let mut xs = a.chars();
    let mut ys = b.chars();
    loop
        invariant
            lex_le(a@, b@) == lex_le(xs.remaining(), ys.remaining()),
            xs.decrease() is Some,
        decreases xs.decrease()->0,
    {
        let x: char = match xs.next() {
            Some(x) => x,
            None => {
                return true;
            },
        };
        let y: char = match ys.next() {
            Some(y) => y,
            None => {
                return false;
            },
        };
        if x != y {
            return x < y;
        }
    }
}

/// The paths of the regular files among `listing`, ascending.
pub fn sort_files(listing: &Vec<Entry>) -> (files: Vec<String>)
    ensures
        texts(files@) == sorted_files(listing@),
{
    let mut files: Vec<String> = Vec::new();
    let mut k: usize = 0;
    assert(texts(files@) =~= regular_paths(listing@.take(0)));
    while k < listing.len()
        invariant
            k <= listing.len(),
            sorted_by(texts(files@), lex_order()),
            texts(files@).to_multiset() == regular_paths(listing@.take(k as int)).to_multiset(),
        decreases listing.len() - k,
    {
        assert(listing@.take(k + 1).drop_last() =~= listing@.take(k as int));
        if listing[k].regular {
            let path: String = listing[k].path.clone();
            let mut at: usize = 0;
            while at < files.len()
                invariant
                    at <= files.len(),
                    forall|j: int| 0 <= j < at ==> lex_le(#[trigger] files@[j]@, path@),
                ensures
                    at <= files.len(),
                    forall|j: int| 0 <= j < at ==> lex_le(#[trigger] files@[j]@, path@),
                    at == files.len() || !lex_le(files@[at as int]@, path@),
                decreases files.len() - at,
            {
                if !text_le(files[at].as_str(), path.as_str()) {
                    break;
                }
                at = at + 1;
            }
            let ghost before = texts(files@);
            files.insert(at, path);
            proof {
                let after = texts(files@);
                assert(after =~= before.insert(at as int, path@));
                to_multiset_insert(before, at as int, path@);
                to_multiset_build(regular_paths(listing@.take(k as int)), path@);
                assert forall|i: int, j: int| 0 <= i < j < after.len() implies lex_le(
                    after[i],
                    after[j],
                ) by {
                    if j == at {
                        assert(after[i] == before[i]);
                    } else if i == at {
                        lemma_lex_total(before[at as int], path@);
                        if j - 1 > at {
                            assert(lex_order()(before[at as int], before[j - 1]));
                        } else {
                            lemma_lex_reflexive(before[at as int]);
                        }
                        lemma_lex_transitive(path@, before[at as int], before[j - 1]);
                    } else {
                        let i0 = if i < at { i } else { i - 1 };
                        let j0 = if j < at { j } else { j - 1 };
                        assert(lex_order()(before[i0], before[j0]));
                    }
                }
            }
        }
        k = k + 1;
    }
    proof {
        assert(listing@.take(k as int) =~= listing@);
        lemma_lex_order();
        regular_paths(listing@).lemma_sort_by_ensures(lex_order());
        lemma_sorted_unique(texts(files@), sorted_files(listing@), lex_order());
    }
    files
}

} // verus!
