//! Sequence combinators the evaluation is stated with.
use vstd::prelude::*;
use crate::error::ErrorView;

verus! {

/// The position of the first element of `s` that satisfies `p`.
pub open spec fn first_index<A>(s: Seq<A>, p: spec_fn(A) -> bool) -> Option<int>
    decreases s.len(),
{
    if s.len() == 0 {
        None
    } else if p(s[0]) {
        Some(0)
    } else {
        match first_index(s.drop_first(), p) {
            Some(i) => Some(i + 1),
            None => None,
        }
    }
}

/// Where no element before `i` satisfies `p`, the first that does is at `i`
/// when `s[i]` does, and there is none when `i` is the end.
pub proof fn lemma_first_index<A>(s: Seq<A>, p: spec_fn(A) -> bool, i: int)
    requires
        0 <= i <= s.len(),
        forall|k: int| 0 <= k < i ==> !p(#[trigger] s[k]),
        i < s.len() ==> p(s[i]),
    ensures
        first_index(s, p) == (if i < s.len() {
            Some(i)
        } else {
            None::<int>
        }),
    decreases i,
{
    if i > 0 {
        let t = s.drop_first();
        assert(!p(s[0]));
        assert forall|k: int| 0 <= k < i - 1 implies !p(#[trigger] t[k]) by {
            assert(t[k] == s[k + 1]);
        }
        if i < s.len() {
            assert(t[i - 1] == s[i]);
        }
        lemma_first_index(t, p, i - 1);
    }
}

/// `f` applied to each element in order, collecting the results; the first
/// error stops the collection and is the outcome.
pub open spec fn eval_all<A, B>(xs: Seq<A>, f: spec_fn(A) -> Result<B, ErrorView>) -> Result<
    Seq<B>,
    ErrorView,
>
    decreases xs.len(),
{
    if xs.len() == 0 {
        Ok(Seq::empty())
    } else {
        match eval_all(xs.drop_last(), f) {
            Err(e) => Err(e),
            Ok(bs) => match f(xs.last()) {
                Ok(b) => Ok(bs.push(b)),
                Err(e) => Err(e),
            },
        }
    }
}

/// One more element collected: the prefix of length `i + 1` from the prefix
/// of length `i`.
pub proof fn lemma_eval_all_step<A, B>(
    xs: Seq<A>,
    f: spec_fn(A) -> Result<B, ErrorView>,
    i: int,
)
    requires
        0 <= i < xs.len(),
    ensures
        eval_all(xs.subrange(0, i + 1), f) == (match eval_all(xs.subrange(0, i), f) {
            Err(e) => Err(e),
            Ok(bs) => match f(xs[i]) {
                Ok(b) => Ok(bs.push(b)),
                Err(e) => Err(e),
            },
        }),
{
    assert(xs.subrange(0, i + 1).drop_last() =~= xs.subrange(0, i));
}

/// Once a prefix fails, the whole sequence fails with the same error.
pub proof fn lemma_eval_all_error<A, B>(
    xs: Seq<A>,
    f: spec_fn(A) -> Result<B, ErrorView>,
    i: int,
)
    requires
        0 <= i <= xs.len(),
        eval_all(xs.subrange(0, i), f) is Err,
    ensures
        eval_all(xs, f) == eval_all(xs.subrange(0, i), f),
    decreases xs.len() - i,
{
    if i < xs.len() {
        lemma_eval_all_step(xs, f, i);
        lemma_eval_all_error(xs, f, i + 1);
    } else {
        assert(xs.subrange(0, i) =~= xs);
    }
}

/// The whole sequence is its own longest prefix.
pub proof fn lemma_eval_all_full<A, B>(xs: Seq<A>, f: spec_fn(A) -> Result<B, ErrorView>)
    ensures
        eval_all(xs, f) == eval_all(xs.subrange(0, xs.len() as int), f),
{
    assert(xs.subrange(0, xs.len() as int) =~= xs);
}

/// Two functions that agree on every element collect the same outcome.
pub proof fn lemma_eval_all_agree<A, B>(
    xs: Seq<A>,
    f: spec_fn(A) -> Result<B, ErrorView>,
    g: spec_fn(A) -> Result<B, ErrorView>,
)
    requires
        forall|k: int| 0 <= k < xs.len() ==> f(#[trigger] xs[k]) == g(xs[k]),
    ensures
        eval_all(xs, f) == eval_all(xs, g),
    decreases xs.len(),
{
    if xs.len() > 0 {
        let t = xs.drop_last();
        assert forall|k: int| 0 <= k < t.len() implies f(#[trigger] t[k]) == g(t[k]) by {
            assert(t[k] == xs[k]);
        }
        lemma_eval_all_agree(t, f, g);
        assert(f(xs[xs.len() - 1]) == g(xs[xs.len() - 1]));
    }
}

/// A collection that succeeds has one result per element.
pub proof fn lemma_eval_all_len<A, B>(xs: Seq<A>, f: spec_fn(A) -> Result<B, ErrorView>)
    ensures
        eval_all(xs, f) matches Ok(bs) ==> bs.len() == xs.len(),
    decreases xs.len(),
{
    if xs.len() > 0 {
        lemma_eval_all_len(xs.drop_last(), f);
    }
}

} // verus!
