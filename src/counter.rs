//! The process-wide invocation counter.
use vstd::prelude::*;

verus! {

/// The value that one invocation moves a counter at `value` to.
///
/// Overflow saturates: a counter that has reached `u64::MAX` stays there, so
/// the value never decreases over the life of the process.
pub open spec fn next_value(value: u64) -> u64 {
    if value < u64::MAX {
        (value + 1) as u64
    } else {
        u64::MAX
    }
}

/// Counts the successful invocations of the exported operation.
///
/// The stored value is private: the only way to change it is
/// [`Counter::increment_and_read`].
pub struct Counter {
    value: u64,
}

impl View for Counter {
    type V = u64;

    closed spec fn view(&self) -> u64 {
        self.value
    }
}

impl Counter {
    /// A counter at zero, as at process start.
    pub fn new() -> (r: Counter)
        ensures
            r@ == 0,
    {
        Counter { value: 0 }
    }

    /// Adds one to the counter and returns the new value.
    pub fn increment_and_read(&mut self) -> (r: u64)
        ensures
            r == next_value(old(self)@),
            final(self)@ == r,
    {
        if self.value < u64::MAX {
            self.value = self.value + 1;
        }
        self.value
    }
}

/// The counter's value after `n` invocations, starting from zero.
pub open spec fn value_after_calls(n: nat) -> u64
    decreases n,
{
    if n == 0 {
        0
    } else {
        next_value(value_after_calls((n - 1) as nat))
    }
}

/// What the invocation that follows `i` earlier ones returns.
pub open spec fn returned_by_call(i: nat) -> u64 {
    next_value(value_after_calls(i))
}

/// Below the saturation point, `n` invocations leave the counter at `n`.
pub proof fn lemma_value_after_calls(n: nat)
    requires
        n <= u64::MAX,
    ensures
        value_after_calls(n) == n,
    decreases n,
{
    if n > 0 {
        lemma_value_after_calls((n - 1) as nat);
    }
}

/// The `n`-th invocation since process start returns exactly `n`, for every
/// `n` that a `u64` can hold.
pub proof fn lemma_nth_call_returns_n(n: nat)
    requires
        1 <= n <= u64::MAX,
    ensures
        returned_by_call((n - 1) as nat) == n,
{
    lemma_value_after_calls((n - 1) as nat);
}

/// Two invocations in a row return two different values, the second one
/// greater by one, unless the first has already reached `u64::MAX`.
pub proof fn lemma_repeated_call_differs(value: u64)
    requires
        next_value(value) < u64::MAX,
    ensures
        next_value(next_value(value)) == next_value(value) + 1,
        next_value(next_value(value)) != next_value(value),
{
}

/// The values that `k` invocations return, in the order in which they take
/// their turn on the counter.
pub open spec fn returned_by_calls(k: nat) -> Seq<int> {
    Seq::new(k, |i: int| returned_by_call(i as nat) as int)
}

/// When `k` invocations take turns on the counter, whatever order they
/// arrive in, the values handed out are pairwise distinct, and as a
/// multiset they are exactly `1` to `k`.
pub proof fn lemma_serialized_calls_return_one_to_k(k: nat)
    requires
        k <= u64::MAX,
    ensures
        forall|i: int, j: int|
            0 <= i < k && 0 <= j < k && i != j ==> returned_by_calls(k)[i] != returned_by_calls(k)[j],
        returned_by_calls(k).to_multiset() == Seq::new(k, |i: int| i + 1).to_multiset(),
{
    assert forall|i: int| 0 <= i < k implies returned_by_calls(k)[i] == i + 1 by {
        lemma_nth_call_returns_n((i + 1) as nat);
    }
    assert(returned_by_calls(k) =~= Seq::new(k, |i: int| i + 1));
}

} // verus!
