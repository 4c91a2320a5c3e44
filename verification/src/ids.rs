//! Handles into the three collections of a module.
//!
//! Each kind of collection has a handle type of its own, so that a pattern
//! handle cannot be used to look up a sample. All of them wrap one byte.

use vstd::prelude::*;

verus! {

/// Names a pattern by its position in a module's pattern collection.
#[derive(Clone, Copy, Debug, PartialEq, Eq, Structural, Hash)]
pub struct PatternId {
    raw: u8,
}

/// Names an instrument by its position in a module's instrument collection.
#[derive(Clone, Copy, Debug, PartialEq, Eq, Structural, Hash)]
pub struct InstrumentId {
    raw: u8,
}

/// Names a sample by its position in a module's sample collection.
#[derive(Clone, Copy, Debug, PartialEq, Eq, Structural, Hash)]
pub struct SampleId {
    raw: u8,
}

impl View for PatternId {
    type V = u8;

    /// The position the handle names.
    closed spec fn view(&self) -> u8 {
        self.raw
    }
}

impl View for InstrumentId {
    type V = u8;

    /// The position the handle names.
    closed spec fn view(&self) -> u8 {
        self.raw
    }
}

impl View for SampleId {
    type V = u8;

    /// The position the handle names.
    closed spec fn view(&self) -> u8 {
        self.raw
    }
}

impl PatternId {
    /// The handle for position `raw`.
    pub fn new(raw: u8) -> (id: Self)
        ensures
            id@ == raw,
    {
        PatternId { raw }
    }

    /// The position this handle names.
    pub fn as_u8(&self) -> (raw: u8)
        ensures
            raw == self@,
    {
        self.raw
    }

    /// Two handles that name the same position are the same handle.
    pub proof fn lemma_view_injective(a: Self, b: Self)
        requires
            a@ == b@,
        ensures
            a == b,
    {
    }
}

impl InstrumentId {
    /// The handle for position `raw`.
    pub fn new(raw: u8) -> (id: Self)
        ensures
            id@ == raw,
    {
        InstrumentId { raw }
    }

    /// The position this handle names.
    pub fn as_u8(&self) -> (raw: u8)
        ensures
            raw == self@,
    {
        self.raw
    }

    /// Two handles that name the same position are the same handle.
    pub proof fn lemma_view_injective(a: Self, b: Self)
        requires
            a@ == b@,
        ensures
            a == b,
    {
    }
}

impl SampleId {
    /// The handle for position `raw`.
    pub fn new(raw: u8) -> (id: Self)
        ensures
            id@ == raw,
    {
        SampleId { raw }
    }

    /// The position this handle names.
    pub fn as_u8(&self) -> (raw: u8)
        ensures
            raw == self@,
    {
        self.raw
    }

    /// Two handles that name the same position are the same handle.
    pub proof fn lemma_view_injective(a: Self, b: Self)
        requires
            a@ == b@,
        ensures
            a == b,
    {
    }
}

} // verus!
