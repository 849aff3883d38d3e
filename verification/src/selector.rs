//! The weighted selector and its selection algorithm.

use vstd::prelude::*;
use crate::fbits::{
    mag, is_neg, is_nan_bits, is_finite_bits, is_zero_bits, key, flt, sum_bits,
    POS_ZERO, INF_MAG, abs_bits, nan_bits, zero_bits, lt_bits, add_bits,
};

verus! {

/// One weighted alternative: the caller's weight, as an IEEE 754 binary64 bit
/// pattern, and the owned payload.
#[derive(Clone)]
struct Choice<T> {
    weight: u64,
    value: T,
}

/// A selector allowing to randomly select a value from a set of choices, each
/// with an associated weight.
///
/// Weights are IEEE 754 binary64 bit patterns.  Each added choice contributes
/// the magnitude of its weight to the total selectable mass; mass can also be
/// reserved for the "no selection" outcome, or the total can be overridden
/// outright.  A draw in `[0, total)` then selects the first choice whose
/// cumulative raw (signed) weight it falls strictly below, or no choice at
/// all if it reaches none.
#[derive(Clone)]
pub struct RandomSelector<T> {
    choices: Vec<Choice<T>>,
    total: u64,
}

/// The cumulative signed sum of the first `k` weights, as IEEE 754 binary64
/// addition computes it starting from +0.0.  Raw weights are summed here —
/// their signs count — while the total mass is built from magnitudes.
pub open spec fn cum_bits(ws: Seq<u64>, k: int) -> u64
    decreases k,
{
    if k <= 0 {
        POS_ZERO
    } else {
        sum_bits(cum_bits(ws, k - 1), ws[k - 1])
    }
}

/// The first position at or after `i` whose cumulative sum the draw `x` falls
/// strictly below, if any.
pub open spec fn first_hit_from(ws: Seq<u64>, x: u64, i: int) -> Option<int>
    decreases ws.len() - i,
{
    if i < 0 || i >= ws.len() {
        None
    } else if flt(x, cum_bits(ws, i + 1)) {
        Some(i)
    } else {
        first_hit_from(ws, x, i + 1)
    }
}

/// The index of the choice that the draw `x` selects from the weights `ws`
/// under the total mass `total`: none when the total equals zero, otherwise
/// the first choice whose cumulative sum `x` falls strictly below.
pub open spec fn selection_spec(ws: Seq<u64>, total: u64, x: u64) -> Option<int> {
    if is_zero_bits(total) {
        None
    } else {
        first_hit_from(ws, x, 0)
    }
}

/// A draw that lies in the half-open interval `[0, total)`.
pub open spec fn in_range_draw(x: u64, total: u64) -> bool {
    !is_nan_bits(x) && 0 <= key(x) && key(x) < key(total)
}

/// A total mass that a uniform draw over `[0, total)` can be asked for:
/// positive and finite.
pub open spec fn drawable(total: u64) -> bool {
    !is_neg(total) && !is_zero_bits(total) && is_finite_bits(total)
}

/// A source of uniform random draws over a half-open interval `[0, total)`,
/// in bit-pattern form.  Implementations wrap whatever generator the caller
/// prefers; the selector itself never produces randomness.
pub trait UniformSource {
    /// Produce one draw `x` with `0 <= x < total` (by value, not bit pattern).
    fn draw(&mut self, total: u64) -> (x: u64)
        requires
            drawable(total),
        ensures
            in_range_draw(x, total),
    ;
}

impl<T> Default for RandomSelector<T> {
    /// The empty selector: no choices, total mass +0.0.
    fn default() -> (s: Self)
        ensures
            s.weights() =~= Seq::<u64>::empty(),
            s.total_bits() == POS_ZERO,
            s.wf(),
    {
        RandomSelector { choices: Vec::new(), total: POS_ZERO }
    }
}

impl<T> RandomSelector<T> {
    /// The bit patterns of the added weights, in insertion order.
    pub closed spec fn weights(&self) -> Seq<u64> {
        self.choices@.map_values(|c: Choice<T>| c.weight)
    }

    /// The payload of the choice at position `i`.
    pub closed spec fn value_at(&self, i: int) -> T {
        self.choices@[i].value
    }

    /// The total selectable mass, as an IEEE 754 binary64 bit pattern.
    pub closed spec fn total_bits(&self) -> u64 {
        self.total
    }

    /// Well-formedness: the total mass never has its sign bit set, since it
    /// only ever accumulates from magnitudes or is overridden by one.  Every
    /// constructor establishes this and every method preserves it.
    pub open spec fn wf(&self) -> bool {
        !is_neg(self.total_bits())
    }

    /// How the result of a selection relates to a draw `x`: no value when `x`
    /// selects no choice, and a reference to the selected choice's payload
    /// otherwise.
    pub open spec fn reflects_draw(&self, r: Option<&T>, x: u64) -> bool {
        match selection_spec(self.weights(), self.total_bits(), x) {
            None => r is None,
            Some(i) => r is Some && *r->Some_0 == self.value_at(i),
        }
    }

    /// Append a choice.  The weight's magnitude joins the total mass; its raw
    /// signed value is what the selection scan will accumulate.
    pub fn with(self, weight: u64, value: T) -> (s: Self)
        ensures
            s.weights() =~= self.weights().push(weight),
            forall|i: int| 0 <= i < self.weights().len() ==> s.value_at(i) == self.value_at(i),
            s.value_at(self.weights().len() as int) == value,
            s.total_bits() == sum_bits(self.total_bits(), mag(weight)),
            self.total_bits() == POS_ZERO && !is_nan_bits(weight) ==> s.total_bits() == mag(
                weight,
            ),
            self.wf() ==> s.wf(),
    {
        let mut s = self;
        s.total = add_bits(s.total, abs_bits(weight));
        s.choices.push(Choice { weight, value });
        s
    }

    /// Reserve mass for the "no selection" outcome: the weight's magnitude
    /// joins the total mass, and no choice is added.
    pub fn with_none(self, weight: u64) -> (s: Self)
        ensures
            s.weights() == self.weights(),
            forall|i: int| 0 <= i < self.weights().len() ==> s.value_at(i) == self.value_at(i),
            s.total_bits() == sum_bits(self.total_bits(), mag(weight)),
            self.total_bits() == POS_ZERO && !is_nan_bits(weight) ==> s.total_bits() == mag(
                weight,
            ),
            self.wf() ==> s.wf(),
    {
        let mut s = self;
        s.total = add_bits(s.total, abs_bits(weight));
        s
    }

    /// Override the total mass with the magnitude of the given weight,
    /// discarding whatever had accumulated.  Convenient when the choice
    /// weights are already normalized; whether the new total covers the
    /// accumulated choice weights is the caller's responsibility.
    pub fn with_none_up_to(self, total_weight: u64) -> (s: Self)
        ensures
            s.weights() == self.weights(),
            forall|i: int| 0 <= i < self.weights().len() ==> s.value_at(i) == self.value_at(i),
            s.total_bits() == mag(total_weight),
            s.wf(),
    {
        let mut s = self;
        s.total = abs_bits(total_weight);
        s
    }

    /// Select a value for the given draw: the first choice whose cumulative
    /// signed weight the draw falls strictly below, scanning in insertion
    /// order; no value when the total mass is zero or the scan reaches no
    /// choice.  The result is a function of the selector and the draw alone,
    /// so a reproduced draw reproduces the selection.
    ///
    /// The final clause is the certain single choice: one choice, with a
    /// non-negative weight that is the whole total, is selected by every draw
    /// in range.
    pub fn select_with_draw(&self, x: u64) -> (r: Option<&T>)
        ensures
            self.reflects_draw(r, x),
            ({
                &&& self.weights().len() == 1
                &&& !is_nan_bits(self.weights()[0])
                &&& !is_neg(self.weights()[0])
                &&& self.total_bits() == self.weights()[0]
                &&& in_range_draw(x, self.total_bits())
            }) ==> r is Some,
    {
        if zero_bits(self.total) {
            return None;
        }
        let ghost ws = self.weights();
        let mut cum: u64 = POS_ZERO;
        let mut i: usize = 0;
        while i < self.choices.len()
            invariant
                0 <= i <= self.choices.len(),
                ws == self.weights(),
                ws.len() == self.choices.len(),
                !is_zero_bits(self.total_bits()),
                cum == cum_bits(ws, i as int),
                first_hit_from(ws, x, 0) == first_hit_from(ws, x, i as int),
                forall|j: int| 0 <= j < i ==> !flt(x, #[trigger] cum_bits(ws, j + 1)),
                (ws.len() == 1 && !is_nan_bits(ws[0]) && !is_neg(ws[0]) && i > 0) ==> cum_bits(
                    ws,
                    1,
                ) == ws[0],
            decreases self.choices.len() - i,
        {
            let c = add_bits(cum, self.choices[i].weight);
            cum = c;
            if lt_bits(x, cum) {
                return Some(&self.choices[i].value);
            }
            i = i + 1;
        }
        None
    }

    /// Select a value using one draw from the given source, uniform over
    /// `[0, total)`.  A zero total mass selects no value, and so does a total
    /// that no draw can be taken over (an infinity or a NaN, which only
    /// non-finite weights produce).
    pub fn select_with_rng<S: UniformSource>(&self, source: &mut S) -> (r: Option<&T>)
        ensures
            !drawable(self.total_bits()) ==> r is None,
            drawable(self.total_bits()) ==> exists|x: u64|
                #[trigger] in_range_draw(x, self.total_bits()) && self.reflects_draw(r, x),
    {
        if !(0 < self.total && self.total < INF_MAG) {
            return None;
        }
        let x = source.draw(self.total);
        let r = self.select_with_draw(x);
        r
    }

    /// The accumulated total mass, as an IEEE 754 binary64 bit pattern.
    pub fn total_weight_bits(&self) -> (t: u64)
        ensures
            t == self.total_bits(),
    {
        self.total
    }

    /// How many choices have been added.
    pub fn choice_count(&self) -> (n: usize)
        ensures
            n == self.weights().len(),
    {
        self.choices.len()
    }
}

/// A deterministic draw source: hands out a fixed script of draws in order.
/// A scripted draw that does not lie in `[0, total)` — and every draw once
/// the script is exhausted — is replaced by +0.0, which always does.
pub struct FixedSource {
    script: Vec<u64>,
    at: usize,
}

impl FixedSource {
    /// The scripted draws.
    pub closed spec fn script(&self) -> Seq<u64> {
        self.script@
    }

    /// How many draws have been handed out.
    pub closed spec fn position(&self) -> int {
        self.at as int
    }

    /// A source that will hand out the given draws in order.
    pub fn new(script: Vec<u64>) -> (s: Self)
        ensures
            s.script() == script@,
            s.position() == 0,
    {
        FixedSource { script, at: 0 }
    }
}

impl UniformSource for FixedSource {
    fn draw(&mut self, total: u64) -> (x: u64) {
        let candidate: u64 = if self.at < self.script.len() {
            let c = self.script[self.at];
            self.at = self.at + 1;
            c
        } else {
            POS_ZERO
        };
        if candidate < 0x8000_0000_0000_0000 && !nan_bits(candidate) && lt_bits(candidate, total) {
            candidate
        } else {
            POS_ZERO
        }
    }
}

} // verus!
