//! Bounded repetition of a fallible step.

use vstd::prelude::*;

verus! {

/// The number of attempts that every retried step of the broker gets.
pub const RETRY_LIMIT: i32 = 3;

/// What a bounded retry yields when its successive attempts would give
/// `outcomes`: the first success among the first `times` of them.
pub open spec fn retry_spec<T>(times: int, outcomes: Seq<Option<T>>) -> Option<T>
    decreases outcomes.len(),
{
    if times <= 0 || outcomes.len() == 0 {
        None
    } else if outcomes[0] is Some {
        outcomes[0]
    } else {
        retry_spec(times - 1, outcomes.drop_first())
    }
}

/// Every one of `outcomes` is something that a call of `func` may return.
pub open spec fn attempts_of<T, F: Fn() -> Option<T>>(func: F, outcomes: Seq<Option<T>>) -> bool {
    forall|i: int| 0 <= i < outcomes.len() ==> call_ensures(func, (), #[trigger] outcomes[i])
}

/// `outcomes` are the attempts of one bounded retry: at most `times` of
/// them, none after a success, and all `times` of them where none succeeded.
pub open spec fn stops_at_success<T>(times: int, outcomes: Seq<Option<T>>) -> bool {
    &&& outcomes.len() <= times || outcomes.len() == 0
    &&& forall|i: int| 0 <= i < outcomes.len() - 1 ==> #[trigger] outcomes[i] is None
    &&& outcomes.len() == 0 || outcomes.last() is Some || outcomes.len() == times
}

/// Calls `func` until it succeeds, at most `times` times, with no delay
/// between the calls, and returns the first success, or `None` when every
/// attempt failed.
pub fn retry<T>(times: i32, func: impl Fn() -> Option<T>) -> (res: Option<T>)
    requires
        times > 0 ==> call_requires(func, ()),
    ensures
        times <= 0 ==> res is None,
        res is Some ==> call_ensures(func, (), res),
        res is None && times > 0 ==> call_ensures(func, (), None::<T>),
        exists|outcomes: Seq<Option<T>>|
            {
                &&& #[trigger] attempts_of(func, outcomes)
                &&& stops_at_success(times as int, outcomes)
                &&& res == retry_spec(times as int, outcomes)
            },
{
    let mut retry_count: i32 = 0;
    let ghost mut outcomes: Seq<Option<T>> = Seq::empty();
    while retry_count < times
        invariant
            0 <= retry_count,
            retry_count <= times || retry_count == 0,
            times > 0 ==> call_requires(func, ()),
            outcomes.len() == retry_count,
            attempts_of(func, outcomes),
            forall|i: int| 0 <= i < outcomes.len() ==> #[trigger] outcomes[i] is None,
        decreases times - retry_count,
    {
        let attempt = func();
        proof {
            outcomes = outcomes.push(attempt);
            assert(attempts_of(func, outcomes));
        }
        match attempt {
            Some(res) => {
                proof {
                    lemma_retry_spec_first_success(times as int, outcomes, retry_count as int);
                    assert(outcomes.last() == Some(res));
                    assert(stops_at_success(times as int, outcomes));
                }
                return Some(res);
            },
            None => {
                retry_count += 1;
            },
        }
    }
    proof {
        lemma_retry_spec_all_failed(times as int, outcomes);
    }
    None
}

/// A retry whose attempts fail up to the `at`-th, which succeeds within the
/// bound, yields that success.
pub proof fn lemma_retry_spec_first_success<T>(times: int, outcomes: Seq<Option<T>>, at: int)
    requires
        0 <= at < outcomes.len(),
        at < times,
        outcomes[at] is Some,
        forall|i: int| 0 <= i < at ==> #[trigger] outcomes[i] is None,
    ensures
        retry_spec(times, outcomes) == outcomes[at],
    decreases at,
{
    if at > 0 {
        lemma_retry_spec_first_success(times - 1, outcomes.drop_first(), at - 1);
    }
}

/// A retry with no success among its first `times` attempts yields `None`.
pub proof fn lemma_retry_spec_all_failed<T>(times: int, outcomes: Seq<Option<T>>)
    requires
        forall|i: int| 0 <= i < outcomes.len() && i < times ==> #[trigger] outcomes[i] is None,
    ensures
        retry_spec(times, outcomes) is None,
    decreases outcomes.len(),
{
    if times > 0 && outcomes.len() > 0 {
        lemma_retry_spec_all_failed(times - 1, outcomes.drop_first());
    }
}

/// What a retry yields is the outcome of one of its first `times` attempts,
/// and no attempt before that one succeeded.
pub proof fn lemma_retry_spec_is_first<T>(times: int, outcomes: Seq<Option<T>>)
    ensures
        retry_spec(times, outcomes) is Some ==> exists|at: int|
            {
                &&& 0 <= at < outcomes.len()
                &&& at < times
                &&& #[trigger] outcomes[at] == retry_spec(times, outcomes)
                &&& forall|i: int| 0 <= i < at ==> #[trigger] outcomes[i] is None
            },
        retry_spec(times, outcomes) is None ==> forall|i: int|
            0 <= i < outcomes.len() && i < times ==> #[trigger] outcomes[i] is None,
    decreases outcomes.len(),
{
    if times > 0 && outcomes.len() > 0 {
        if outcomes[0] is Some {
            assert(outcomes[0] == retry_spec(times, outcomes));
        } else {
            let rest = outcomes.drop_first();
            lemma_retry_spec_is_first(times - 1, rest);
            if retry_spec(times, outcomes) is Some {
                let at = choose|at: int|
                    {
                        &&& 0 <= at < rest.len()
                        &&& at < times - 1
                        &&& #[trigger] rest[at] == retry_spec(times - 1, rest)
                        &&& forall|i: int| 0 <= i < at ==> #[trigger] rest[i] is None
                    };
                assert(outcomes[at + 1] == rest[at]);
                assert forall|i: int| 0 <= i < at + 1 implies #[trigger] outcomes[i] is None by {
                    if i > 0 {
                        assert(outcomes[i] == rest[i - 1]);
                    }
                }
            } else {
                assert forall|i: int| 0 <= i < outcomes.len() && i < times implies
                    #[trigger] outcomes[i] is None by {
                    if i > 0 {
                        assert(outcomes[i] == rest[i - 1]);
                    }
                }
            }
        }
    }
}

/// A bound above the number of attempts that it takes to succeed changes
/// nothing: what succeeded within `times` attempts succeeds within more.
pub proof fn lemma_retry_spec_monotonic<T>(times: int, more: int, outcomes: Seq<Option<T>>)
    requires
        times <= more,
        retry_spec(times, outcomes) is Some,
    ensures
        retry_spec(more, outcomes) == retry_spec(times, outcomes),
    decreases outcomes.len(),
{
    if times > 0 && outcomes.len() > 0 && outcomes[0] is None {
        lemma_retry_spec_monotonic(times - 1, more - 1, outcomes.drop_first());
    }
}

} // verus!
