//! Byte values confined to an inclusive range that is part of the type.

use core::cmp::Ordering;
use vstd::prelude::*;
use vstd::std_specs::cmp::{PartialEqSpecImpl, PartialOrdSpecImpl};

verus! {

/// Why a raw byte was refused by [`RangedU8::new`].
#[derive(Clone, Copy, Debug, PartialEq, Eq, Structural)]
pub struct OutOfRange {
    /// The value that was offered.
    pub value: u8,
    /// Smallest value the target type admits.
    pub low: u8,
    /// Largest value the target type admits.
    pub high: u8,
}

/// A byte known to lie in `LOW..=HIGH`.
///
/// Values are only made by [`RangedU8::new`], which refuses anything outside
/// the range; nothing is ever clamped.
#[derive(Clone, Copy, Debug, Eq, Ord, Hash)]
pub struct RangedU8<const LOW: u8, const HIGH: u8> {
    value: u8,
}

impl<const LOW: u8, const HIGH: u8> View for RangedU8<LOW, HIGH> {
    type V = u8;

    /// The wrapped byte.
    closed spec fn view(&self) -> u8 {
        self.value
    }
}

impl<const LOW: u8, const HIGH: u8> PartialEq for RangedU8<LOW, HIGH> {
    /// Two values are equal exactly if the wrapped bytes are.
    fn eq(&self, other: &Self) -> (r: bool) {
        self.value == other.value
    }
}

impl<const LOW: u8, const HIGH: u8> PartialEqSpecImpl for RangedU8<LOW, HIGH> {
    open spec fn obeys_eq_spec() -> bool {
        true
    }

    open spec fn eq_spec(&self, other: &Self) -> bool {
        self@ == other@
    }
}

impl<const LOW: u8, const HIGH: u8> PartialOrd for RangedU8<LOW, HIGH> {
    /// Values are ordered as the wrapped bytes are.
    fn partial_cmp(&self, other: &Self) -> (r: Option<Ordering>) {
        if self.value < other.value {
            Some(Ordering::Less)
        } else if self.value == other.value {
            Some(Ordering::Equal)
        } else {
            Some(Ordering::Greater)
        }
    }
}

impl<const LOW: u8, const HIGH: u8> PartialOrdSpecImpl for RangedU8<LOW, HIGH> {
    open spec fn obeys_partial_cmp_spec() -> bool {
        true
    }

    open spec fn partial_cmp_spec(&self, other: &Self) -> Option<Ordering> {
        if self@ < other@ {
            Some(Ordering::Less)
        } else if self@ == other@ {
            Some(Ordering::Equal)
        } else {
            Some(Ordering::Greater)
        }
    }
}

impl<const LOW: u8, const HIGH: u8> RangedU8<LOW, HIGH> {
    #[verifier::type_invariant]
    spec fn in_range(self) -> bool {
        LOW <= self.value <= HIGH
    }

    /// Whether `value` lies in `LOW..=HIGH`.
    pub open spec fn admits(value: u8) -> bool {
        LOW <= value <= HIGH
    }

    /// What [`RangedU8::new`] gives for `value`.
    pub closed spec fn spec_new(value: u8) -> Result<Self, OutOfRange> {
        if Self::admits(value) {
            Ok(RangedU8 { value })
        } else {
            Err(OutOfRange { value, low: LOW, high: HIGH })
        }
    }

    /// Wraps `value` if it lies in `LOW..=HIGH`, and reports it otherwise.
    #[verifier::when_used_as_spec(spec_new)]
    pub fn new(value: u8) -> (r: Result<Self, OutOfRange>)
        ensures
            r == Self::spec_new(value),
            Self::admits(value) ==> r.is_ok() && r.unwrap()@ == value,
            !Self::admits(value) ==> r == Err::<Self, OutOfRange>(
                (OutOfRange { value, low: LOW, high: HIGH }),
            ),
    {
        if LOW <= value && value <= HIGH {
            Ok(RangedU8 { value })
        } else {
            Err(OutOfRange { value, low: LOW, high: HIGH })
        }
    }

    /// Construction fails for every byte outside `LOW..=HIGH`, naming the
    /// byte and the range; for every byte inside it succeeds, and the value
    /// made wraps that very byte.
    pub proof fn lemma_new_succeeds_exactly_in_range(value: u8)
        ensures
            Self::spec_new(value).is_ok() <==> LOW <= value <= HIGH,
            Self::spec_new(value).is_ok() ==> Self::spec_new(value).unwrap()@ == value,
            Self::spec_new(value).is_err() ==> Self::spec_new(value).unwrap_err() == (OutOfRange {
                value,
                low: LOW,
                high: HIGH,
            }),
    {
    }

    /// Two values that wrap the same byte are the same value.
    pub proof fn lemma_view_injective(a: Self, b: Self)
        requires
            a@ == b@,
        ensures
            a == b,
    {
    }

    /// The wrapped byte.
    pub fn as_u8(&self) -> (r: u8)
        ensures
            r == self@,
            Self::admits(r),
    {
        proof {
            use_type_invariant(self);
        }
        self.value
    }
}

} // verus!
