//! Small utilities: an iteration stepper and the default index name.

use crate::errors::{CommonError, FabrixError};
use crate::text::{debug_string, decimal_string, decimal_text, str_debug};
use vstd::prelude::*;

verus! {

/// The abstract state of a [`Stepper`]: how many items there are and
/// how many steps have been taken.
pub struct StepperView {
    pub len: nat,
    pub step: nat,
}

impl StepperView {
    /// A stepper over `len` items that has not stepped yet.
    pub open spec fn fresh(len: nat) -> StepperView {
        StepperView { len, step: 0 }
    }

    /// The state after one more step.
    pub open spec fn forwarded(self) -> StepperView {
        StepperView { len: self.len, step: self.step + 1 }
    }

    /// A stepper is exhausted when it has taken exactly `len` steps.
    pub open spec fn is_exhausted(self) -> bool {
        self.step == self.len
    }

    /// The state after `k` steps from `self`.
    pub open spec fn forwarded_by(self, k: nat) -> StepperView
        decreases k,
    {
        if k == 0 {
            self
        } else {
            self.forwarded_by((k - 1) as nat).forwarded()
        }
    }
}

/// Used for counting iteration and determining when to stop yielding.
pub struct Stepper {
    pub(crate) len: usize,
    pub(crate) step: usize,
}

impl View for Stepper {
    type V = StepperView;

    closed spec fn view(&self) -> StepperView {
        StepperView { len: self.len as nat, step: self.step as nat }
    }
}

impl Stepper {
    /// Creates a stepper over `len` items.
    pub fn new(len: usize) -> (s: Self)
        ensures
            s@ == StepperView::fresh(len as nat),
    {
        Stepper { len, step: 0 }
    }

    /// Whether the stepper has taken exactly as many steps as it has items.
    pub fn exhausted(&self) -> (b: bool)
        ensures
            b == self@.is_exhausted(),
    {
        if self.len == self.step {
            true
        } else {
            false
        }
    }

    /// Takes one step.
    pub fn forward(&mut self)
        requires
            old(self)@.step < usize::MAX,
        ensures
            final(self)@ == old(self)@.forwarded(),
    {
        self.step += 1;
    }
}

/// A fresh stepper over `n` items, moved forward `k <= n` times, is
/// exhausted exactly when `k == n`: it stops after as many steps as it has
/// items, and not before.
pub proof fn lemma_stepper_exhausted_after_len_steps(n: nat, k: nat)
    requires
        k <= n,
    ensures
        StepperView::fresh(n).forwarded_by(k).step == k,
        StepperView::fresh(n).forwarded_by(k).len == n,
        StepperView::fresh(n).forwarded_by(k).is_exhausted() <==> k == n,
    decreases k,
{
    if k > 0 {
        lemma_stepper_exhausted_after_len_steps(n, (k - 1) as nat);
    }
}

/// A general naming for a default dataframe index.
pub const IDX: &'static str = "index";

} // verus!

verus! {

/// The out-of-boundary error: `length` is beyond the boundary `len`.
pub fn oob_err(length: usize, len: usize) -> (res: FabrixError)
    ensures
        res matches FabrixError::Common(CommonError::String(m)) && m@ == "length "@ + decimal_text(
            length as int,
        ) + " out of len "@ + decimal_text(len as int) + " boundary"@,
{
    let mut msg = String::from_str("length ");
    let a = decimal_string(length as i128);
    msg.append(a.as_str());
    msg.append(" out of len ");
    let b = decimal_string(len as i128);
    msg.append(b.as_str());
    msg.append(" boundary");
    FabrixError::new_common_error(msg)
}

/// The content-is-empty error for the content called `name`.
pub fn cis_err(name: &str) -> (res: FabrixError)
    ensures
        res matches FabrixError::Common(CommonError::String(m)) && m@ == str_debug(name@)
            + " is empty"@,
{
    let mut msg = debug_string(name);
    msg.append(" is empty");
    FabrixError::new_common_error(msg)
}

} // verus!
