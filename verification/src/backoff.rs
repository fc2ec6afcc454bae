//! A delay source for reconnect attempts: it grows with every failure, never
//! passes its cap, and starts over when reset.

use vstd::prelude::*;

verus! {

/// What a `Backoff` stands for: how many delays were handed out since the
/// last reset, and the two durations it was made with, in nanoseconds.
pub struct BackoffView {
    pub failures: nat,
    pub base: nat,
    pub cap: nat,
}

/// The delay after `failures` failures: `base` times the number of failures,
/// held down to `cap`.
pub open spec fn delay_after(base: nat, cap: nat, failures: nat) -> nat {
    if base * failures <= cap {
        base * failures
    } else {
        cap
    }
}

/// A capped, resettable delay source. Durations are whole nanoseconds.
pub struct Backoff {
    count: Ghost<nat>,
    counted: u128,
    base_duration: u128,
    max_duration: u128,
}

impl View for Backoff {
    type V = BackoffView;

    closed spec fn view(&self) -> BackoffView {
        BackoffView {
            failures: self.count@,
            base: self.base_duration as nat,
            cap: self.max_duration as nat,
        }
    }
}

impl Backoff {
    /// The stored counter follows the number of failures as far as it can.
    #[verifier::type_invariant]
    spec fn counter_follows(self) -> bool {
        self.counted == if self.count@ <= u128::MAX {
            self.count@
        } else {
            u128::MAX as nat
        }
    }

    /// A delay source with no failures yet.
    pub fn new(base_duration: u128, max_duration: u128) -> (b: Self)
        ensures
            b@ == (BackoffView {
                failures: 0,
                base: base_duration as nat,
                cap: max_duration as nat,
            }),
    {
        Backoff { count: Ghost(0), counted: 0, base_duration, max_duration }
    }

    /// Counts one more failure and returns the delay to wait before the next
    /// attempt.
    pub fn next(&mut self) -> (d: u128)
        ensures
            final(self)@ == (BackoffView { failures: old(self)@.failures + 1, ..old(self)@ }),
            d == delay_after(old(self)@.base, old(self)@.cap, old(self)@.failures + 1),
            d <= old(self)@.cap,
            d >= delay_after(old(self)@.base, old(self)@.cap, old(self)@.failures),
    {
        proof {
            use_type_invariant(&*self);
            lemma_delay_monotonic(
                self@.base,
                self@.cap,
                self@.failures,
                self@.failures + 1,
            );
        }
        let ghost count = self.count@ + 1;
        let counted = if self.counted < u128::MAX {
            self.counted + 1
        } else {
            self.counted
        };
        let base = self.base_duration;
        let cap = self.max_duration;
        *self = Backoff {
            count: Ghost(count),
            counted,
            base_duration: base,
            max_duration: cap,
        };
        let delay = match base.checked_mul(counted) {
            Some(product) => if product < cap {
                product
            } else {
                cap
            },
            None => cap,
        };
        proof {
            if count > u128::MAX && base >= 1 {
                assert(base * count >= count) by (nonlinear_arith)
                    requires
                        base >= 1,
                        count >= 0,
                ;
            }
            if base == 0 {
                assert(base * count == 0) by (nonlinear_arith)
                    requires
                        base == 0,
                ;
            }
        }
        delay
    }

    /// Forgets the failures counted so far.
    pub fn reset(&mut self)
        ensures
            final(self)@ == (BackoffView { failures: 0, ..old(self)@ }),
    {
        let base = self.base_duration;
        let cap = self.max_duration;
        *self = Backoff { count: Ghost(0), counted: 0, base_duration: base, max_duration: cap };
    }
}

/// The delay never shrinks as failures add up.
pub proof fn lemma_delay_monotonic(base: nat, cap: nat, fewer: nat, more: nat)
    requires
        fewer <= more,
    ensures
        delay_after(base, cap, fewer) <= delay_after(base, cap, more),
{
    assert(base * fewer <= base * more) by (nonlinear_arith)
        requires
            fewer <= more,
    ;
}

/// The delay never passes the cap.
pub proof fn lemma_delay_capped(base: nat, cap: nat, failures: nat)
    ensures
        delay_after(base, cap, failures) <= cap,
{
}

/// The first delay after construction or a reset is the base duration,
/// provided the base does not itself pass the cap.
pub proof fn lemma_first_delay_is_base(base: nat, cap: nat)
    requires
        base <= cap,
    ensures
        delay_after(base, cap, 1) == base,
{
}

} // verus!
