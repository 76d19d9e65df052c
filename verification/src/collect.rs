//! Collecting results: a sequence is mapped item by item, each item
//! gives a value, nothing or an error, and the first error ends it.

use vstd::prelude::*;

verus! {

/// The values that `f` gives for the items of `s`, in the order of the
/// items and without the items for which it gives none, or the error
/// of the first item for which it gives one.
pub open spec fn try_collect<A, B, E>(s: Seq<A>, f: spec_fn(A) -> Result<Option<B>, E>) -> Result<
    Seq<B>,
    E,
>
    decreases s.len(),
{
    if s.len() == 0 {
        Ok(Seq::empty())
    } else {
        match try_collect(s.drop_last(), f) {
            Ok(r) => match f(s.last()) {
                Ok(Some(b)) => Ok(r.push(b)),
                Ok(None) => Ok(r),
                Err(e) => Err(e),
            },
            Err(e) => Err(e),
        }
    }
}

/// An error among the first `k` items is the error of all the items.
pub proof fn lemma_try_collect_error<A, B, E>(
    s: Seq<A>,
    f: spec_fn(A) -> Result<Option<B>, E>,
    k: int,
)
    requires
        0 <= k <= s.len(),
        try_collect(s.subrange(0, k), f) is Err,
    ensures
        try_collect(s, f) == try_collect(s.subrange(0, k), f),
    decreases s.len() - k,
{
    if k == s.len() {
        assert(s.subrange(0, k) =~= s);
    } else {
        assert(s.subrange(0, k + 1).drop_last() =~= s.subrange(0, k));
        lemma_try_collect_error(s, f, k + 1);
    }
}

/// One more item: what the first `k + 1` items give follows from what
/// the first `k` give and from the item at `k`.
pub proof fn lemma_try_collect_step<A, B, E>(
    s: Seq<A>,
    f: spec_fn(A) -> Result<Option<B>, E>,
    k: int,
)
    requires
        0 <= k < s.len(),
    ensures
        try_collect(s.subrange(0, k + 1), f) == (match try_collect(s.subrange(0, k), f) {
            Ok(r) => match f(s[k]) {
                Ok(Some(b)) => Ok(r.push(b)),
                Ok(None) => Ok(r),
                Err(e) => Err(e),
            },
            Err(e) => Err(e),
        }),
{
    assert(s.subrange(0, k + 1).drop_last() =~= s.subrange(0, k));
    assert(s.subrange(0, k + 1).last() == s[k]);
}

/// The set of the contents of the strings of `list`.
pub open spec fn names_of(list: Seq<String>) -> Set<Seq<char>> {
    Set::new(|name: Seq<char>| exists|i: int| 0 <= i < list.len() && (#[trigger] list[i])@ == name)
}

/// Whether a string of `list` has the content of `name`.
pub fn contains_name(list: &Vec<String>, name: &str) -> (b: bool)
    ensures
        b == names_of(list@).contains(name@),
{
    let mut i: usize = 0;
    while i < list.len()
        invariant
            i <= list.len(),
            forall|k: int| 0 <= k < i ==> (#[trigger] list@[k])@ != name@,
        decreases list.len() - i,
    {
        let wanted = String::from_str(name);
        if wanted == list[i] {
            return true;
        }
        i = i + 1;
    }
    false
}

/// What `f` gives for the items of `s`, one after the other.
pub open spec fn concat_map<A, B>(s: Seq<A>, f: spec_fn(A) -> Seq<B>) -> Seq<B>
    decreases s.len(),
{
    if s.len() == 0 {
        Seq::empty()
    } else {
        concat_map(s.drop_last(), f) + f(s.last())
    }
}

/// One more item: what the first `k + 1` items give is what the first
/// `k` give and then what the item at `k` gives.
pub proof fn lemma_concat_map_step<A, B>(s: Seq<A>, f: spec_fn(A) -> Seq<B>, k: int)
    requires
        0 <= k < s.len(),
    ensures
        concat_map(s.subrange(0, k + 1), f) == concat_map(s.subrange(0, k), f) + f(s[k]),
        concat_map(s.subrange(0, 0), f) == Seq::<B>::empty(),
        concat_map(s.subrange(0, s.len() as int), f) == concat_map(s, f),
{
    assert(s.subrange(0, k + 1).drop_last() =~= s.subrange(0, k));
    assert(s.subrange(0, k + 1).last() == s[k]);
    assert(s.subrange(0, s.len() as int) =~= s);
}

} // verus!
