//! Lists of names: their order, and the names that occur more than
//! once.

use vstd::prelude::*;
use itertools::Itertools;
use crate::text::strings_view;

verus! {

/// The order of strings: character by character from the front, by the
/// code points of the characters, a string before each of its
/// extensions.
pub open spec fn lex_le(a: Seq<char>, b: Seq<char>) -> bool
    decreases a.len(),
{
    if a.len() == 0 {
        true
    } else if b.len() == 0 {
        false
    } else if a[0] != b[0] {
        a[0] < b[0]
    } else {
        lex_le(a.subrange(1, a.len() as int), b.subrange(1, b.len() as int))
    }
}

/// Two strings, each before or equal to the other, are equal.
pub proof fn lemma_lex_antisymmetric(a: Seq<char>, b: Seq<char>)
    requires
        lex_le(a, b),
        lex_le(b, a),
    ensures
        a == b,
    decreases a.len(),
{
    if a.len() == 0 || b.len() == 0 {
        assert(a =~= b);
    } else {
        let ta = a.subrange(1, a.len() as int);
        let tb = b.subrange(1, b.len() as int);
        lemma_lex_antisymmetric(ta, tb);
        assert(a =~= seq![a[0]] + ta);
        assert(b =~= seq![b[0]] + tb);
    }
}

/// Whether each of the strings `s` is before or equal to those that
/// follow it.
pub open spec fn sorted(s: Seq<Seq<char>>) -> bool {
    forall|i: int, j: int| 0 <= i <= j < s.len() ==> lex_le(#[trigger] s[i], #[trigger] s[j])
}

/// Sorted strings of which no two neighbours are equal are all
/// different.
pub proof fn lemma_sorted_distinct(s: Seq<Seq<char>>)
    requires
        sorted(s),
        forall|i: int| 0 <= i < s.len() - 1 ==> #[trigger] s[i] != s[i + 1],
    ensures
        s.no_duplicates(),
{
    assert forall|i: int, j: int| 0 <= i < s.len() && 0 <= j < s.len() && i != j implies s[i]
        != s[j] by {
        let a = if i < j {
            i
        } else {
            j
        };
        let b = if i < j {
            j
        } else {
            i
        };
        if s[a] == s[b] {
            assert(lex_le(s[a], s[a + 1]));
            assert(lex_le(s[a + 1], s[b]));
            lemma_lex_antisymmetric(s[a], s[a + 1]);
        }
    }
}

/// Sorts `names`.
///
/// Trusted: the sort of the standard library puts the strings in the
/// order of `Ord` for strings, which is the order of their code points
/// from the front, and keeps each string as often as it occurs.
#[verifier::external_body]
fn sort_names(names: &mut Vec<String>)
    ensures
        sorted(strings_view(final(names)@)),
        strings_view(final(names)@).to_multiset() == strings_view(old(names)@).to_multiset(),
{
    names.sort()
}

/// The number of strings from index `i` of `s` on that are equal to the
/// one at `i`, without a different one between them.
pub open spec fn run_len(s: Seq<Seq<char>>, i: int) -> int
    decreases s.len() - i,
{
    if i < 0 || i >= s.len() {
        0
    } else if i + 1 < s.len() && s[i + 1] == s[i] {
        1 + run_len(s, i + 1)
    } else {
        1
    }
}

/// A run holds at least one string and ends with the strings; it
/// holds two or more exactly when the next string is the same.
pub proof fn lemma_run_len_positive(s: Seq<Seq<char>>, i: int)
    requires
        0 <= i < s.len(),
    ensures
        1 <= run_len(s, i) <= s.len() - i,
        run_len(s, i) >= 2 ==> s[i + 1] == s[i],
        run_len(s, i) == 1 && i + 1 < s.len() ==> s[i + 1] != s[i],
    decreases s.len() - i,
{
    if i + 1 < s.len() && s[i + 1] == s[i] {
        lemma_run_len_positive(s, i + 1);
    }
}

/// The runs of `s` from index `i` on: each string that differs from
/// the one before it, with the number of times it is repeated. (A run
/// is never empty; the test keeps the definition well founded.)
pub open spec fn runs(s: Seq<Seq<char>>, i: int) -> Seq<(int, Seq<char>)>
    decreases s.len() - i,
{
    if i < 0 || i >= s.len() || run_len(s, i) <= 0 || i + run_len(s, i) > s.len() {
        Seq::empty()
    } else {
        seq![(run_len(s, i), s[i])] + runs(s, i + run_len(s, i))
    }
}

/// The contents of a sequence of counted strings.
pub open spec fn counted_view(v: Seq<(usize, String)>) -> Seq<(int, Seq<char>)> {
    Seq::new(v.len(), |i: int| (v[i].0 as int, v[i].1@))
}

/// Whether two names are the same.
pub fn same_name(a: &String, b: &String) -> (r: bool)
    ensures
        r == (a@ == b@),
{
    *a == *b
}

/// The runs of equal names in `names`, each with its length.
///
/// Trusted: `Itertools::dedup_by_with_count` keeps the first item of
/// each run of items that the closure holds to be the same, and counts
/// the items of the run.
#[verifier::external_body]
fn dedup_with_count(names: &Vec<String>) -> (r: Vec<(usize, String)>)
    ensures
        counted_view(r@) == runs(strings_view(names@), 0),
{
    names.iter().dedup_by_with_count(|a, b| same_name(a, b)).map(|(n, s)| (n, s.clone())).collect()
}

/// Where a string stands at two neighbouring places, it occurs at least
/// twice.
pub proof fn lemma_twice(s: Seq<Seq<char>>, i: int)
    requires
        0 <= i < s.len() - 1,
        s[i] == s[i + 1],
    ensures
        s.to_multiset().count(s[i]) >= 2,
{
    broadcast use vstd::multiset::group_multiset_axioms;

    let rest = s.remove(i);
    vstd::seq_lib::to_multiset_remove(s, i);
    assert(rest[i] == s[i + 1]);
    rest.to_multiset_ensures();
    assert(rest.contains(rest[i]));
    assert(rest.to_multiset().count(s[i]) > 0);
}

/// Among sorted strings of which the first `k` have no equal
/// neighbours, a string that occurs at least twice is not before the
/// string at `k`.
pub proof fn lemma_least_duplicate(s: Seq<Seq<char>>, k: int, n: Seq<char>)
    requires
        sorted(s),
        0 <= k < s.len(),
        forall|j: int| 0 <= j < k ==> #[trigger] s[j] != s[j + 1],
        s.to_multiset().count(n) >= 2,
    ensures
        lex_le(s[k], n),
{
    broadcast use vstd::multiset::group_multiset_axioms;

    if !lex_le(s[k], n) {
        let head = s.subrange(0, k);
        let tail = s.subrange(k, s.len() as int);
        assert(s =~= head + tail);
        vstd::seq_lib::lemma_multiset_commutative(head, tail);
        assert forall|i: int| 0 <= i < tail.len() implies tail[i] != n by {
            assert(lex_le(s[k], s[k + i]));
        }
        tail.to_multiset_ensures();
        assert(!tail.contains(n));
        assert(sorted(head)) by {
            assert forall|i: int, j: int| 0 <= i <= j < head.len() implies lex_le(
                #[trigger] head[i],
                #[trigger] head[j],
            ) by {
                assert(lex_le(s[i], s[j]));
            }
        }
        assert forall|i: int| 0 <= i < head.len() - 1 implies #[trigger] head[i] != head[i
            + 1] by {
            assert(s[i] != s[i + 1]);
        }
        lemma_sorted_distinct(head);
        head.lemma_multiset_has_no_duplicates();
        assert(head.to_multiset().count(n) <= 1);
    }
}

/// The names `names` in order, each once; or, if a name occurs more
/// than once, the first such name in the order of strings.
pub fn unique_sorted(names: Vec<String>) -> (r: Result<Vec<String>, String>)
    ensures
        match r {
            Ok(sorted_names) => {
                &&& strings_view(names@).no_duplicates()
                &&& sorted(strings_view(sorted_names@))
                &&& strings_view(sorted_names@).to_multiset() == strings_view(
                    names@,
                ).to_multiset()
            },
            Err(name) => {
                &&& !strings_view(names@).no_duplicates()
                &&& strings_view(names@).to_multiset().count(name@) >= 2
                &&& forall|n: Seq<char>|
                    strings_view(names@).to_multiset().count(n) >= 2 ==> lex_le(name@, n)
            },
        },
{
    let ghost given = strings_view(names@);
    let mut list = names;
    sort_names(&mut list);
    let ghost s = strings_view(list@);
    let counted = dedup_with_count(&list);
    let mut out: Vec<String> = Vec::new();
    let mut k: usize = 0;
    assert(counted_view(counted@).subrange(0, counted.len() as int) =~= counted_view(counted@));
    while k < counted.len()
        invariant
            k <= counted.len(),
            k <= s.len(),
            given == strings_view(names@),
            sorted(s),
            s.to_multiset() == given.to_multiset(),
            counted_view(counted@).subrange(k as int, counted.len() as int) == runs(s, k as int),
            out.len() == k,
            forall|j: int| 0 <= j < k ==> (#[trigger] out@[j])@ == s[j],
            forall|j: int| 0 <= j < k && j + 1 < s.len() ==> #[trigger] s[j] != s[j + 1],
        decreases counted.len() - k,
    {
        let ghost rest = counted_view(counted@).subrange(k as int, counted.len() as int);
        assert(rest.len() > 0);
        assert(rest[0] == counted_view(counted@)[k as int]);
        assert(k < s.len());
        proof {
            lemma_run_len_positive(s, k as int);
        }
        let count = counted[k].0;
        let name = counted[k].1.clone();
        assert(count == run_len(s, k as int));
        assert(name@ == s[k as int]);
        if count != 1 {
            proof {
                broadcast use vstd::multiset::group_multiset_axioms;

                assert(s[k + 1] == s[k as int]);
                lemma_twice(s, k as int);
                assert(given.to_multiset().count(name@) >= 2);
                if given.no_duplicates() {
                    given.lemma_multiset_has_no_duplicates();
                    assert(given.to_multiset().contains(name@));
                }
                assert forall|n: Seq<char>| given.to_multiset().count(n) >= 2 implies lex_le(
                    name@,
                    n,
                ) by {
                    lemma_least_duplicate(s, k as int, n);
                }
            }
            return Err(name);
        }
        assert(counted_view(counted@).subrange(k + 1, counted.len() as int) =~= rest.subrange(
            1,
            rest.len() as int,
        ));
        assert(rest.subrange(1, rest.len() as int) =~= runs(s, k + 1));
        out.push(name);
        k = k + 1;
    }
    proof {
        assert(runs(s, k as int).len() == 0);
        if k < s.len() {
            lemma_run_len_positive(s, k as int);
        }
        assert(strings_view(out@) =~= s);
        lemma_sorted_distinct(s);
        s.lemma_multiset_has_no_duplicates();
        given.lemma_multiset_has_no_duplicates_conv();
    }
    Ok(out)
}

} // verus!
