//! The bounded integer and its mathematical model.
use vstd::prelude::*;
use crate::cycle::lemma_down_cases;
use crate::decimal::decimal_text;
use crate::decimal::u8_to_decimal;

verus! {

/// A bounded integer over the natural numbers: what a [`Bint`] stands for.
pub struct BintView {
    pub value: nat,
    pub boundary: nat,
}

impl BintView {
    /// The value lies below the boundary. This implies a positive boundary.
    pub open spec fn in_range(self) -> bool {
        self.value < self.boundary
    }

    /// One step forward: `(value + 1) mod boundary`.
    ///
    /// Meaningful for a positive boundary only.
    pub open spec fn up(self) -> BintView
        recommends
            self.boundary > 0,
    {
        BintView {
            value: (self.value + 1) % self.boundary,
            boundary: self.boundary,
        }
    }

    /// One step back: `(value - 1) mod boundary`, where `mod` takes -1 to
    /// `boundary - 1`, so that 0 wraps to the top.
    ///
    /// Meaningful for a positive boundary only.
    pub open spec fn down(self) -> BintView
        recommends
            self.boundary > 0,
    {
        BintView {
            value: ((self.value - 1) % (self.boundary as int)) as nat,
            boundary: self.boundary,
        }
    }

    /// `steps` steps forward, one after the other.
    pub open spec fn up_by(self, steps: nat) -> BintView
        recommends
            self.boundary > 0,
        decreases steps,
    {
        if steps == 0 {
            self
        } else {
            self.up_by((steps - 1) as nat).up()
        }
    }
}

/// An unsigned integer together with the boundary at which it wraps to 0.
///
/// Both fields are public and nothing is checked when one is built directly,
/// so `value` may lie at or above `boundary`, and `boundary` may be 0. The
/// operations reduce such a value modulo the boundary; see
/// [`BintView::in_range`] for the values that a working counter holds.
#[derive(Clone, Copy, Debug, PartialEq, Eq, Structural)]
pub struct Bint {
    pub value: u8,
    pub boundary: u8,
}

impl View for Bint {
    type V = BintView;

    open spec fn view(&self) -> BintView {
        BintView { value: self.value as nat, boundary: self.boundary as nat }
    }
}

impl Bint {
    /// A bounded integer at 0 with the given boundary.
    ///
    /// A boundary of 0 is accepted, though no operation can step the result.
    pub fn new(boundary: u8) -> (b: Bint)
        ensures
            b.value == 0,
            b.boundary == boundary,
            b@.in_range() <==> boundary > 0,
    {
        Bint { value: 0, boundary }
    }

    /// A bounded integer at `value`, if `value` lies below `boundary`.
    ///
    /// To hold a value out of range, write the fields directly.
    pub fn with_value(value: u8, boundary: u8) -> (b: Option<Bint>)
        ensures
            b.is_some() <==> value < boundary,
            b matches Some(inner) ==> inner.value == value && inner.boundary == boundary,
    {
        if value < boundary {
            Some(Bint { value, boundary })
        } else {
            None
        }
    }

    /// The next bounded integer: `(value + 1) mod boundary`, with the boundary
    /// kept.
    ///
    /// The sum is taken in 16 bits, so a value of 255 is stepped like any
    /// other. A value at or above the boundary is reduced modulo the boundary;
    /// the result is in range whatever the value was.
    pub fn up(&self) -> (next: Bint)
        requires
            self.boundary > 0,
        ensures
            next@ == self@.up(),
            next@.in_range(),
    {
        let sum: u16 = self.value as u16 + 1;
        let wrapped: u16 = sum % (self.boundary as u16);
        Bint { value: wrapped as u8, boundary: self.boundary }
    }

    /// The previous bounded integer: `boundary - 1` from 0, else
    /// `(value - 1) mod boundary`, with the boundary kept.
    ///
    /// A value at or above the boundary is reduced modulo the boundary; the
    /// result is in range whatever the value was.
    pub fn down(&self) -> (prev: Bint)
        requires
            self.boundary > 0,
        ensures
            prev@ == self@.down(),
            prev@.in_range(),
    {
        proof {
            lemma_down_cases(self@);
        }
        if self.value == 0 {
            Bint { value: self.boundary - 1, boundary: self.boundary }
        } else {
            Bint { value: (self.value - 1) % self.boundary, boundary: self.boundary }
        }
    }

    /// The value in decimal. The boundary is not part of the text.
    pub fn to_string(&self) -> (text: String)
        ensures
            text@ == decimal_text(self.value as nat),
    {
        u8_to_decimal(self.value)
    }
}

} // verus!
