//! How the steps of a bounded integer fit together: stepping back undoes
//! stepping forward, and `boundary` steps forward come full circle.
use vstd::prelude::*;
use vstd::arithmetic::div_mod::lemma_mod_sub_multiples_vanish;
use vstd::arithmetic::div_mod::lemma_small_mod;
use vstd::arithmetic::div_mod::lemma_mod_self_0;
use vstd::arithmetic::div_mod::lemma_add_mod_noop_right;
use vstd::arithmetic::div_mod::lemma_mod_add_multiples_vanish;
use crate::bounded::BintView;

verus! {

/// Stepping back, case by case: 0 wraps to `boundary - 1`, and any other
/// value goes to `(value - 1) mod boundary`.
pub proof fn lemma_down_cases(b: BintView)
    requires
        b.boundary > 0,
    ensures
        b.value == 0 ==> b.down().value == b.boundary - 1,
        b.value > 0 ==> b.down().value == ((b.value - 1) as nat) % b.boundary,
        b.down().boundary == b.boundary,
{
    if b.value == 0 {
        let d = b.boundary as int;
        lemma_mod_sub_multiples_vanish(d - 1, d);
        lemma_small_mod((d - 1) as nat, d as nat);
    }
}

/// A step forward and then a step back lead to where one started, for a
/// value in range.
pub proof fn lemma_up_then_down(b: BintView)
    requires
        b.in_range(),
    ensures
        b.up().down() == b,
{
    let d = b.boundary as int;
    if b.value + 1 < d {
        lemma_small_mod(b.value + 1, b.boundary);
        lemma_small_mod(b.value, b.boundary);
    } else {
        lemma_mod_self_0(d);
        lemma_down_cases(b.up());
    }
}

/// A step back and then a step forward lead to where one started, for a
/// value in range.
pub proof fn lemma_down_then_up(b: BintView)
    requires
        b.in_range(),
    ensures
        b.down().up() == b,
{
    let d = b.boundary as int;
    lemma_down_cases(b);
    if b.value == 0 {
        lemma_mod_self_0(d);
    } else {
        lemma_small_mod((b.value - 1) as nat, b.boundary);
        lemma_small_mod(b.value, b.boundary);
    }
}

/// `steps` steps forward add `steps` to the value, modulo the boundary. With
/// no step taken, a value out of range stays as it is.
pub proof fn lemma_up_by_adds(b: BintView, steps: nat)
    requires
        b.boundary > 0,
    ensures
        b.up_by(steps).boundary == b.boundary,
        steps > 0 || b.in_range() ==> b.up_by(steps).value == (b.value + steps) % b.boundary,
        steps == 0 ==> b.up_by(steps) == b,
    decreases steps,
{
    if steps == 0 {
        if b.in_range() {
            lemma_small_mod(b.value, b.boundary);
        }
    } else {
        let before = (steps - 1) as nat;
        lemma_up_by_adds(b, before);
        if before > 0 {
            lemma_add_mod_noop_right(1, (b.value + before) as int, b.boundary as int);
        }
    }
}

/// As many steps forward as the boundary says lead once round and back to
/// where one started, for a value in range.
pub proof fn lemma_up_by_boundary(b: BintView)
    requires
        b.in_range(),
    ensures
        b.up_by(b.boundary) == b,
{
    lemma_up_by_adds(b, b.boundary);
    lemma_mod_add_multiples_vanish(b.value as int, b.boundary as int);
    lemma_small_mod(b.value, b.boundary);
}

} // verus!
