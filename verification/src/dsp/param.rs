//! Range-clamped parameter cells.
//!
//! A handle holds one scalar that the control side writes and the render
//! side reads.  Writes clamp to the handle's range; there is no queue and no
//! smoothing, so of two writes the later one wins.

use vstd::prelude::*;
use crate::fixed::{clamp, clamp_spec};

verus! {

/// A parameter cell as the contracts see it.
pub struct ParamView {
    pub name: Seq<char>,
    pub min: i64,
    pub max: i64,
    pub value: i64,
}

impl ParamView {
    /// The cell's range is not empty and its value lies within it.
    pub open spec fn wf(self) -> bool {
        self.min <= self.value <= self.max
    }

    /// The cell after `value` has been written to it.
    pub open spec fn set(self, value: i64) -> ParamView {
        ParamView { value: clamp_spec(value as int, self.min as int, self.max as int) as i64, ..self }
    }
}

/// A named scalar cell with a fixed range.
pub struct ParamHandle {
    name: &'static str,
    min: i64,
    max: i64,
    value: i64,
}

impl View for ParamHandle {
    type V = ParamView;

    closed spec fn view(&self) -> ParamView {
        ParamView { name: self.name@, min: self.min, max: self.max, value: self.value }
    }
}

impl ParamHandle {
    #[verifier::type_invariant]
    spec fn in_bounds(self) -> bool {
        self.min <= self.value <= self.max
    }

    /// A cell named `name` with range `[min, max]`, holding `initial` clamped to that range.
    pub fn new(name: &'static str, initial: i64, min: i64, max: i64) -> (r: Self)
        requires
            min <= max,
        ensures
            r@ == (ParamView {
                name: name@,
                min,
                max,
                value: clamp_spec(initial as int, min as int, max as int) as i64,
            }),
            r@.wf(),
    {
        ParamHandle { name, min, max, value: clamp(initial, min, max) }
    }

    /// Writes `value`, clamped to the cell's range.
    pub fn set(&mut self, value: i64)
        ensures
            final(self)@ == old(self)@.set(value),
            final(self)@.wf(),
    {
        proof {
            use_type_invariant(&*self);
        }
        self.value = clamp(value, self.min, self.max);
    }

    /// The value last written, or the initial one.
    pub fn get(&self) -> (r: i64)
        ensures
            r == self@.value,
            self@.wf(),
    {
        proof {
            use_type_invariant(self);
        }
        self.value
    }

    /// The cell's name.
    pub fn name(&self) -> (r: &'static str)
        ensures
            r@ == self@.name,
    {
        self.name
    }

    /// The lower end of the cell's range.
    pub fn min(&self) -> (r: i64)
        ensures
            r == self@.min,
    {
        self.min
    }

    /// The upper end of the cell's range.
    pub fn max(&self) -> (r: i64)
        ensures
            r == self@.max,
    {
        self.max
    }
}

/// A write followed by a read yields the written value clamped to the
/// cell's range, whatever the cell held before.
pub proof fn lemma_set_then_get(cell: ParamView, value: i64)
    requires
        cell.min <= cell.max,
    ensures
        cell.set(value).value == clamp_spec(value as int, cell.min as int, cell.max as int),
        cell.set(value).wf(),
        cell.set(value).min == cell.min,
        cell.set(value).max == cell.max,
{
}

/// Of two writes the later one wins: the earlier leaves no trace.
pub proof fn lemma_last_write_wins(cell: ParamView, first: i64, second: i64)
    requires
        cell.min <= cell.max,
    ensures
        cell.set(first).set(second) == cell.set(second),
{
}

/// Writing a value that lies within the range stores it unchanged.
pub proof fn lemma_set_in_range(cell: ParamView, value: i64)
    requires
        cell.min <= value <= cell.max,
    ensures
        cell.set(value).value == value,
{
}

} // verus!
