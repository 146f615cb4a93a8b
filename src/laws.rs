use vstd::prelude::*;

use crate::stack::{Stack, StackError};

verus! {

/// Pushing `vals` one by one on an empty stack with room for all of them:
/// every push succeeds, after `k` pushes the stack holds `k` elements, and its
/// top is the value pushed last.
pub proof fn lemma_pushes_count_and_top<T>(
    states: Seq<Stack<T>>,
    vals: Seq<T>,
    results: Seq<Result<(), StackError>>,
)
    requires
        states.len() == vals.len() + 1,
        results.len() == vals.len(),
        states[0].wf(),
        states[0]@.len() == 0,
        vals.len() <= states[0].cap(),
        forall|i: int|
            0 <= i < vals.len() ==> Stack::push_post(
                #[trigger] states[i],
                vals[i],
                states[i + 1],
                results[i],
            ),
    ensures
        forall|k: int| 0 <= k <= vals.len() ==> (#[trigger] states[k])@ == vals.subrange(0, k),
        forall|k: int| 0 <= k <= vals.len() ==> (#[trigger] states[k])@.len() == k,
        forall|k: int| 0 < k <= vals.len() ==> (#[trigger] states[k]).spec_top() == Some(vals[k - 1]),
        forall|k: int| 0 <= k < vals.len() ==> (#[trigger] results[k]) is Ok,
    decreases vals.len(),
{
    if vals.len() > 0 {
        let n = vals.len() - 1;
        lemma_pushes_count_and_top(states.take(n + 1), vals.take(n), results.take(n));
        assert(states.take(n + 1)[n] == states[n]);
        assert(states[n].cap() == states[0].cap()) by {
            assert forall|k: int| 0 <= k <= n implies (#[trigger] states[k]).cap() == states[0].cap() by {
                lemma_caps_kept(states, vals, results, k);
            }
        }
        assert(Stack::push_post(states[n], vals[n], states[n + 1], results[n]));
        assert(vals.subrange(0, n + 1) =~= vals.subrange(0, n).push(vals[n]));
        assert forall|k: int| 0 <= k <= vals.len() implies (#[trigger] states[k])@ == vals.subrange(0, k) by {
            if k <= n {
                assert(states.take(n + 1)[k] == states[k]);
                assert(vals.take(n).subrange(0, k) =~= vals.subrange(0, k));
            }
        }
        assert forall|k: int| 0 <= k < vals.len() implies (#[trigger] results[k]) is Ok by {
            if k < n {
                assert(results.take(n)[k] == results[k]);
                assert(states.take(n + 1)[k] == states[k]);
            }
        }
    } else {
        assert(vals.subrange(0, 0) =~= Seq::<T>::empty());
    }
}

proof fn lemma_caps_kept<T>(
    states: Seq<Stack<T>>,
    vals: Seq<T>,
    results: Seq<Result<(), StackError>>,
    k: int,
)
    requires
        states.len() == vals.len() + 1,
        results.len() == vals.len(),
        0 <= k <= vals.len(),
        forall|i: int|
            0 <= i < vals.len() ==> Stack::push_post(
                #[trigger] states[i],
                vals[i],
                states[i + 1],
                results[i],
            ),
    ensures
        states[k].cap() == states[0].cap(),
    decreases k,
{
    if k > 0 {
        lemma_caps_kept(states, vals, results, k - 1);
        assert(Stack::push_post(states[k - 1], vals[k - 1], states[k], results[k - 1]));
    }
}

/// A push on a full stack fails with `Overflow` and keeps the size and the
/// top as they were.
pub proof fn lemma_push_full_overflows<T>(
    pre: Stack<T>,
    value: T,
    post: Stack<T>,
    r: Result<(), StackError>,
)
    requires
        pre.wf(),
        pre@.len() == pre.cap(),
        Stack::push_post(pre, value, post, r),
    ensures
        r == Err::<(), StackError>(StackError::Overflow),
        post@.len() == pre@.len(),
        post.spec_top() == pre.spec_top(),
{
}

/// A pop on an empty stack fails with `Underflow` and changes nothing.
pub proof fn lemma_pop_empty_underflows<T>(pre: Stack<T>, post: Stack<T>, r: Result<T, StackError>)
    requires
        pre.wf(),
        pre@.len() == 0,
        Stack::pop_post(pre, post, r),
    ensures
        r == Err::<T, StackError>(StackError::Underflow),
        post@ == pre@,
        post.cap() == pre.cap(),
{
}

/// A pop right after a successful push of `value` hands `value` back and
/// restores the size and the top from before the push.
pub proof fn lemma_pop_undoes_push<T>(
    s0: Stack<T>,
    value: T,
    s1: Stack<T>,
    r1: Result<(), StackError>,
    s2: Stack<T>,
    r2: Result<T, StackError>,
)
    requires
        s0.wf(),
        s0@.len() < s0.cap(),
        Stack::push_post(s0, value, s1, r1),
        Stack::pop_post(s1, s2, r2),
    ensures
        r1 is Ok,
        r2 == Ok::<T, StackError>(value),
        s2@ == s0@,
        s2@.len() == s0@.len(),
        s2.spec_top() == s0.spec_top(),
{
    assert(s1@.drop_last() =~= s0@);
}

} // verus!
