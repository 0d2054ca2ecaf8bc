use vstd::prelude::*;
use crate::argument::ArgumentKind;

verus! {

/// Where a call takes an argument's value from.
#[derive(Clone, Copy, Debug, PartialEq, Eq, Structural)]
pub enum ArgumentSource {
    /// The value passed at the argument's slot.
    Positional,
    /// The argument's key in the hash passed at its slot.
    KeywordHash,
    /// The argument's default.
    Default,
    /// None: the call fails with a missing-argument error.
    Missing,
}

/// The source of an argument's value: `given` says whether the call passed
/// a value at the argument's slot, `given_is_hash` whether that value is a
/// hash, and `has_default` whether the argument has a default. A keyword
/// argument is read from the hash at its slot; without one it falls back to
/// its default.
pub open spec fn source_of(
    kind: ArgumentKind,
    given: bool,
    given_is_hash: bool,
    has_default: bool,
) -> ArgumentSource {
    match kind {
        ArgumentKind::Arg => if given {
            ArgumentSource::Positional
        } else {
            ArgumentSource::Missing
        },
        ArgumentKind::DArg => if given {
            ArgumentSource::Positional
        } else if has_default {
            ArgumentSource::Default
        } else {
            ArgumentSource::Missing
        },
        ArgumentKind::KwArg => if given && given_is_hash {
            ArgumentSource::KeywordHash
        } else if has_default {
            ArgumentSource::Default
        } else {
            ArgumentSource::Missing
        },
    }
}

/// Chooses where an argument's value comes from at call time.
pub fn argument_source(
    kind: ArgumentKind,
    given: bool,
    given_is_hash: bool,
    has_default: bool,
) -> (r: ArgumentSource)
    ensures
        r == source_of(kind, given, given_is_hash, has_default),
{
    match kind {
        ArgumentKind::Arg => if given {
            ArgumentSource::Positional
        } else {
            ArgumentSource::Missing
        },
        ArgumentKind::DArg => if given {
            ArgumentSource::Positional
        } else if has_default {
            ArgumentSource::Default
        } else {
            ArgumentSource::Missing
        },
        ArgumentKind::KwArg => if given && given_is_hash {
            ArgumentSource::KeywordHash
        } else if has_default {
            ArgumentSource::Default
        } else {
            ArgumentSource::Missing
        },
    }
}

/// The position of the first failed conversion, in declaration order.
pub open spec fn first_failure_of<T, E>(results: Seq<Result<T, E>>) -> Option<int>
    decreases results.len(),
{
    if results.len() == 0 {
        None
    } else {
        match first_failure_of(results.drop_last()) {
            Some(i) => Some(i),
            None => if results.last() is Err {
                Some(results.len() - 1)
            } else {
                None
            },
        }
    }
}

/// The conversion whose error a call reports: the first that failed, in
/// declaration order, whatever the others hold.
pub fn first_failure<T, E>(results: &[Result<T, E>]) -> (r: Option<usize>)
    ensures
        match r {
            Some(i) => first_failure_of(results@) == Some(i as int),
            None => first_failure_of(results@) is None,
        },
{
    let mut i: usize = 0;
    while i < results.len()
        invariant
            i <= results@.len(),
            first_failure_of(results@.take(i as int)) is None,
        decreases results@.len() - i,
    {
        proof {
            assert(results@.take(i + 1).drop_last() =~= results@.take(i as int));
        }
        if results[i].is_err() {
            proof {
                lemma_first_failure_prefix(results@, i as int + 1);
            }
            return Some(i);
        }
        i = i + 1;
    }
    assert(results@.take(i as int) =~= results@);
    None
}

proof fn lemma_first_failure_prefix<T, E>(results: Seq<Result<T, E>>, n: int)
    requires
        0 <= n <= results.len(),
        first_failure_of(results.take(n)) is Some,
    ensures
        first_failure_of(results) == first_failure_of(results.take(n)),
    decreases results.len() - n,
{
    if n < results.len() {
        assert(results.take(n + 1).drop_last() =~= results.take(n));
        lemma_first_failure_prefix(results, n + 1);
    } else {
        assert(results.take(n) =~= results);
    }
}

proof fn lemma_first_failure_bounds<T, E>(results: Seq<Result<T, E>>)
    ensures
        match first_failure_of(results) {
            Some(i) => 0 <= i < results.len() && results[i] is Err && forall|k: int|
                0 <= k < i ==> (#[trigger] results[k]) is Ok,
            None => forall|k: int| 0 <= k < results.len() ==> (#[trigger] results[k]) is Ok,
        },
    decreases results.len(),
{
    if results.len() > 0 {
        let init = results.drop_last();
        lemma_first_failure_bounds(init);
        assert forall|k: int| 0 <= k < init.len() implies #[trigger] results[k] == init[k] by {}
    }
}

/// Of two failed conversions, the one declared first is reported, never
/// the later one; and no conversion before the reported one failed.
pub proof fn lemma_fail_fast<T, E>(results: Seq<Result<T, E>>, i: int, j: int)
    requires
        0 <= i < j < results.len(),
        results[i] is Err,
        results[j] is Err,
    ensures
        first_failure_of(results) != Some(j),
        first_failure_of(results) matches Some(k) && k <= i,
        forall|k: int|
            0 <= k < results.len() && first_failure_of(results) == Some(k) ==> forall|m: int|
                0 <= m < k ==> (#[trigger] results[m]) is Ok,
{
    lemma_first_failure_bounds(results);
}

} // verus!
