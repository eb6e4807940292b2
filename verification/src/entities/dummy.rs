use vstd::prelude::*;

verus! {

/// The swings left in a training dummy's wobble after a hit.
pub struct ShakeCounter {
    /// The swing in progress counts down to zero.
    pub current_count: i32,
}

impl ShakeCounter {
    /// A dummy at rest.
    pub fn new() -> (c: Self)
        ensures
            c.current_count == 0,
    {
        ShakeCounter { current_count: 0 }
    }

    /// A hit starts a wobble of `shake_count` swings after the first.
    pub fn start(&mut self, shake_count: i32)
        ensures
            final(self).current_count == shake_count,
    {
        self.current_count = shake_count;
    }

    /// A swing finished: counts it off and tells whether another swing
    /// follows; when none does the dummy comes to rest at zero.
    pub fn next_shake(&mut self) -> (more: bool)
        requires
            old(self).current_count > i32::MIN,
        ensures
            (more, final(self).current_count) == spec_next_shake(old(self).current_count),
            more == (old(self).current_count - 1 >= 0),
            more ==> final(self).current_count == old(self).current_count - 1,
            !more ==> final(self).current_count == 0,
    {
        self.current_count = self.current_count - 1;
        if self.current_count >= 0 {
            true
        } else {
            self.current_count = 0;
            false
        }
    }
}

/// What one finished swing does to a counter at `count`: whether another
/// swing follows, and the count afterwards.
pub open spec fn spec_next_shake(count: i32) -> (bool, i32) {
    if count - 1 >= 0 {
        (true, (count - 1) as i32)
    } else {
        (false, 0)
    }
}

/// The counter after `calls` finished swings of a wobble started at
/// `count`, with whether the last of them started another swing (`true`
/// before any swing has finished).
pub open spec fn spec_shakes(count: i32, calls: nat) -> (bool, i32)
    decreases calls,
{
    if calls == 0 {
        (true, count)
    } else {
        spec_next_shake(spec_shakes(count, (calls - 1) as nat).1)
    }
}

/// A wobble started with `k >= 0` swings keeps going through the first `k`
/// finished swings, counting down, and stops at the `k + 1`-th, at rest at zero.
pub proof fn lemma_wobble_length(k: i32, j: nat)
    requires
        k >= 0,
        j <= k,
    ensures
        spec_shakes(k, j) == (true, (k - j) as i32),
        spec_shakes(k, (k + 1) as nat) == (false, 0i32),
{
    lemma_wobble_counts_down(k, j);
    lemma_wobble_counts_down(k, k as nat);
}

/// The first `j <= k` finished swings of a wobble started at `k` count down.
proof fn lemma_wobble_counts_down(k: i32, j: nat)
    requires
        k >= 0,
        j <= k,
    ensures
        spec_shakes(k, j) == (true, (k - j) as i32),
    decreases j,
{
    if j > 0 {
        lemma_wobble_counts_down(k, (j - 1) as nat);
    }
}

} // verus!
