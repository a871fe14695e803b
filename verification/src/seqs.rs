//! Sequence helpers used by the specifications.

use vstd::prelude::*;

verus! {

/// The elements of `s` that satisfy `f`, in order.
pub open spec fn keep<A>(s: Seq<A>, f: spec_fn(A) -> bool) -> Seq<A>
    decreases s.len(),
{
    if s.len() == 0 {
        Seq::empty()
    } else if f(s.last()) {
        keep(s.drop_last(), f).push(s.last())
    } else {
        keep(s.drop_last(), f)
    }
}

/// Taking one more element of `s` extends `keep` by that element when it
/// satisfies `f`.
pub proof fn lemma_keep_step<A>(s: Seq<A>, f: spec_fn(A) -> bool, i: int)
    requires
        0 <= i < s.len(),
    ensures
        keep(s.take(i + 1), f) == if f(s[i]) {
            keep(s.take(i), f).push(s[i])
        } else {
            keep(s.take(i), f)
        },
{
    let t = s.take(i + 1);
    assert(t.drop_last() =~= s.take(i));
    assert(t.last() == s[i]);
}

/// Every element kept satisfies `f`, and `keep` is no longer than `s`.
pub proof fn lemma_keep_sound<A>(s: Seq<A>, f: spec_fn(A) -> bool)
    ensures
        keep(s, f).len() <= s.len(),
        forall|i: int| 0 <= i < keep(s, f).len() ==> f(#[trigger] keep(s, f)[i]),
    decreases s.len(),
{
    if s.len() > 0 {
        lemma_keep_sound(s.drop_last(), f);
    }
}


/// `keep` depends only on the values of `f` on the elements of `s`.
pub proof fn lemma_keep_ext<A>(s: Seq<A>, f: spec_fn(A) -> bool, g: spec_fn(A) -> bool)
    requires
        forall|i: int| 0 <= i < s.len() ==> f(#[trigger] s[i]) == g(s[i]),
    ensures
        keep(s, f) == keep(s, g),
    decreases s.len(),
{
    if s.len() > 0 {
        let p = s.drop_last();
        assert forall|i: int| 0 <= i < p.len() implies f(#[trigger] p[i]) == g(p[i]) by {
            assert(p[i] == s[i]);
        }
        lemma_keep_ext(p, f, g);
        assert(f(s[s.len() - 1]) == g(s[s.len() - 1]));
    }
}

/// Filtering by `f` and then by `g` is filtering by both.
pub proof fn lemma_keep_keep<A>(s: Seq<A>, f: spec_fn(A) -> bool, g: spec_fn(A) -> bool)
    ensures
        keep(keep(s, f), g) == keep(s, |x: A| f(x) && g(x)),
    decreases s.len(),
{
    if s.len() > 0 {
        let p = s.drop_last();
        lemma_keep_keep(p, f, g);
        if f(s.last()) {
            let kp = keep(p, f);
            assert(keep(s, f) == kp.push(s.last()));
            assert(kp.push(s.last()).drop_last() =~= kp);
        }
    }
}

/// The elements kept by `f` and those it drops together number as many as
/// the elements of `s`.
pub proof fn lemma_keep_partition<A>(s: Seq<A>, f: spec_fn(A) -> bool)
    ensures
        keep(s, f).len() + keep(s, |x: A| !f(x)).len() == s.len(),
    decreases s.len(),
{
    if s.len() > 0 {
        lemma_keep_partition(s.drop_last(), f);
    }
}

/// Appending an element extends the kept elements by it exactly when it
/// satisfies `f`.
pub proof fn lemma_keep_push<A>(s: Seq<A>, x: A, f: spec_fn(A) -> bool)
    ensures
        keep(s.push(x), f) == if f(x) {
            keep(s, f).push(x)
        } else {
            keep(s, f)
        },
{
    assert(s.push(x).drop_last() =~= s);
    assert(s.push(x).last() == x);
}

} // verus!
