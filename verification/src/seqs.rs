//! Sequences: the first element with a property, and how filtering and
//! mapping move along a sequence one element at a time.
use vstd::prelude::*;

verus! {

/// The position of the first element of `s` that satisfies `p`, or the length
/// of `s` where none does.
pub open spec fn first_where<T>(s: Seq<T>, p: spec_fn(T) -> bool) -> int
    decreases s.len(),
{
    if s.len() == 0 || p(s[0]) {
        0
    } else {
        1 + first_where(s.drop_first(), p)
    }
}

/// A position before which nothing satisfies `p`, and at which something
/// does or the sequence ends, is `first_where`.
pub proof fn lemma_first_where_is<T>(s: Seq<T>, p: spec_fn(T) -> bool, i: int)
    requires
        0 <= i <= s.len(),
        forall|j: int| 0 <= j < i ==> !p(#[trigger] s[j]),
        i < s.len() ==> p(s[i]),
    ensures
        first_where(s, p) == i,
    decreases s.len(),
{
    if s.len() == 0 || p(s[0]) {
    } else {
        let t = s.drop_first();
        assert forall|j: int| 0 <= j < i - 1 implies !p(#[trigger] t[j]) by {
            assert(t[j] == s[j + 1]);
        }
        lemma_first_where_is(t, p, i - 1);
    }
}

/// `first_where` lies within the sequence, nothing before it satisfies `p`,
/// and the element at it does.
pub proof fn lemma_first_where<T>(s: Seq<T>, p: spec_fn(T) -> bool)
    ensures
        0 <= first_where(s, p) <= s.len(),
        forall|j: int| 0 <= j < first_where(s, p) ==> !p(#[trigger] s[j]),
        first_where(s, p) < s.len() ==> p(s[first_where(s, p)]),
    decreases s.len(),
{
    if s.len() == 0 || p(s[0]) {
    } else {
        let t = s.drop_first();
        lemma_first_where(t, p);
        let k = first_where(t, p);
        assert forall|j: int| 0 <= j < k + 1 implies !p(#[trigger] s[j]) by {
            if j > 0 {
                assert(s[j] == t[j - 1]);
            }
        }
        if k < t.len() {
            assert(s[k + 1] == t[k]);
        }
    }
}

/// Filtering one element further either appends that element or changes
/// nothing.
pub proof fn lemma_filter_next<T>(s: Seq<T>, p: spec_fn(T) -> bool, i: int)
    requires
        0 <= i < s.len(),
    ensures
        s.take(i + 1).filter(p) == if p(s[i]) {
            s.take(i).filter(p).push(s[i])
        } else {
            s.take(i).filter(p)
        },
        s.take(0).filter(p) == Seq::<T>::empty(),
        s.take(s.len() as int) == s,
{
    assert(s.take(i + 1) =~= s.take(i).push(s[i]));
    s.take(i).lemma_filter_push(s[i], p);
    reveal(Seq::filter);
    assert(s.take(0) =~= Seq::<T>::empty());
    assert(s.take(s.len() as int) =~= s);
}

/// Mapping one element further appends its image.
pub proof fn lemma_map_next<T, U>(s: Seq<T>, f: spec_fn(T) -> U, i: int)
    requires
        0 <= i < s.len(),
    ensures
        s.take(i + 1).map_values(f) == s.take(i).map_values(f).push(f(s[i])),
{
    assert(s.take(i + 1).map_values(f) =~= s.take(i).map_values(f).push(f(s[i])));
}

/// The property of not satisfying `p`.
pub open spec fn not<T>(p: spec_fn(T) -> bool) -> spec_fn(T) -> bool {
    |x: T| !p(x)
}

/// The greatest key among the elements of `s`; the least `i32` where `s` is
/// empty.
pub open spec fn max_key<T>(s: Seq<T>, key: spec_fn(T) -> i32) -> int
    decreases s.len(),
{
    if s.len() == 0 {
        i32::MIN as int
    } else {
        let m = max_key(s.drop_last(), key);
        if key(s.last()) > m {
            key(s.last()) as int
        } else {
            m
        }
    }
}

/// The key that the next element gets: one more than the greatest key, and 1
/// in an empty sequence.
pub open spec fn next_key<T>(s: Seq<T>, key: spec_fn(T) -> i32) -> int {
    if s.len() == 0 {
        1
    } else {
        max_key(s, key) + 1
    }
}

/// The greatest key one element further is the greater of that element's key
/// and the greatest so far.
pub proof fn lemma_max_key_next<T>(s: Seq<T>, key: spec_fn(T) -> i32, i: int)
    requires
        0 <= i < s.len(),
    ensures
        max_key(s.take(i + 1), key) == if key(s[i]) > max_key(s.take(i), key) {
            key(s[i]) as int
        } else {
            max_key(s.take(i), key)
        },
        max_key(s.take(0), key) == i32::MIN,
        s.take(s.len() as int) == s,
{
    assert(s.take(i + 1).drop_last() =~= s.take(i));
    assert(s.take(s.len() as int) =~= s);
}

} // verus!
