use vstd::prelude::*;

verus! {

/// Amount added to the counter by every frame, in hundredths.
pub const COUNTER_STEP: u32 = 5;

/// A counter strictly above this value is reset before the next step.
pub const COUNTER_RESET_ABOVE: u32 = 100;

/// The counter after one frame, starting from `c`: reset to zero when it is
/// strictly above the threshold, then advanced by one step.
pub open spec fn next_counter(c: u32) -> u32 {
    if c > COUNTER_RESET_ABOVE {
        COUNTER_STEP
    } else {
        (c + COUNTER_STEP) as u32
    }
}

/// The counter after `n` frames from a fresh state.
pub open spec fn counter_after(n: nat) -> u32
    decreases n,
{
    if n == 0 {
        0
    } else {
        next_counter(counter_after((n - 1) as nat))
    }
}

/// Every value the counter can take: a multiple of the step, at most one step
/// above the reset threshold.
pub open spec fn counter_in_range(c: u32) -> bool {
    c <= COUNTER_RESET_ABOVE + COUNTER_STEP && c % COUNTER_STEP == 0
}

/// The scalar that drives the red channel of the drawn colour.
pub struct AnimationState {
    counter: u32,
}

impl AnimationState {
    #[verifier::type_invariant]
    spec fn counter_stays_in_range(&self) -> bool {
        counter_in_range(self.counter)
    }
}

impl View for AnimationState {
    type V = u32;

    closed spec fn view(&self) -> u32 {
        self.counter
    }
}

impl AnimationState {
    pub fn new() -> (r: AnimationState)
        ensures
            r@ == 0,
    {
        AnimationState { counter: 0 }
    }

    /// The current counter, in hundredths.
    pub fn value(&self) -> (r: u32)
        ensures
            r == self@,
            counter_in_range(r),
    {
        proof {
            use_type_invariant(self);
        }
        self.counter
    }

    /// Moves the counter on by one frame.
    pub fn advance(&mut self)
        ensures
            final(self)@ == next_counter(old(self)@),
            counter_in_range(final(self)@),
    {
        proof {
            use_type_invariant(&*self);
        }
        if self.counter > COUNTER_RESET_ABOVE {
            self.counter = 0;
        }
        self.counter = self.counter + COUNTER_STEP;
    }
}

/// The counter stays within its range from one frame to the next.
pub proof fn lemma_next_counter_in_range(c: u32)
    requires
        counter_in_range(c),
    ensures
        counter_in_range(next_counter(c)),
{
}

/// Every state reached from a fresh counter is within range.
pub proof fn lemma_counter_after_in_range(n: nat)
    ensures
        counter_in_range(counter_after(n)),
    decreases n,
{
    if n > 0 {
        lemma_counter_after_in_range((n - 1) as nat);
    }
}

/// After `n > 0` frames the counter is one step more than `(n - 1) mod 21`
/// steps: it climbs to one step past the threshold and only then wraps, so
/// after a positive multiple of 21 frames it sits at `105`.
pub proof fn lemma_counter_after_closed_form(n: nat)
    ensures
        counter_after(n) == (if n == 0 { 0 } else { 5 * (((n - 1) as int % 21) + 1) }),
    decreases n,
{
    if n == 1 {
        assert(counter_after(0) == 0);
    } else if n > 1 {
        lemma_counter_after_closed_form((n - 1) as nat);
        let k = (n - 2) as int;
        assert(((k + 1) % 21 == 0 && k % 21 == 20) || ((k + 1) % 21 == k % 21 + 1 && k % 21
            < 20)) by (nonlinear_arith)
            requires
                k >= 0,
        ;
        assert(0 <= k % 21 < 21);
    }
}

/// After `n` frames the counter equals `5 n mod 105` (that is, `0.05 n mod
/// 1.05`), except after a positive multiple of 21 frames, where it sits at
/// `105` for one frame instead of `0`.
pub proof fn lemma_counter_after_modulus(n: nat)
    requires
        n == 0 || n % 21 != 0,
    ensures
        counter_after(n) == (5 * n) % 105,
{
    lemma_counter_after_closed_form(n);
    if n > 0 {
        assert(5 * (((n - 1) as int % 21) + 1) == (5 * n) % 105) by (nonlinear_arith)
            requires n % 21 != 0, n > 0;
    }
}

} // verus!
