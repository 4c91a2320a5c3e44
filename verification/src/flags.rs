//! The capability set of a module.
//!
//! The file format stores two 16-bit words, the general flags and the special
//! flags. Here both live in one 32-bit set, the special word moved up by
//! sixteen bits. The bit positions are part of the format.

use vstd::prelude::*;

verus! {

/// How far the special word is moved up inside the combined set.
pub const SPECIAL_SHIFT: u32 = 16;

/// Every bit that stands for a flag. No other bit is ever set in a
/// [`ModuleFlags`].
pub const KNOWN_BITS: u32 = 0x0009_00ff;

/// One capability of a module.
#[derive(Clone, Copy, Debug, PartialEq, Eq, Structural, Hash)]
pub enum ModuleFlag {
    /// Stereo output rather than mono.
    Stereo,
    /// No mixing takes place while the volume at mixing time is zero.
    Vol0MixOptimizations,
    /// The module plays instruments rather than bare samples.
    UseInstruments,
    /// Linear slides rather than Amiga slides.
    LinearSlides,
    /// Old effects rather than Impulse Tracker effects.
    OldEffects,
    /// The memory of effect G is linked with that of effects E and F.
    LinkGEEffects,
    /// A MIDI pitch controller is used, its depth given by the pitch wheel
    /// depth of the module.
    UseMidiPitch,
    /// An embedded MIDI configuration is asked for.
    RequestMidiConfigEmbedded,
    /// A song message is attached.
    MessageAttached,
    /// A MIDI configuration is embedded.
    MidiConfigEmbedded,
}

impl ModuleFlag {
    /// The single bit that stands for this flag in the combined set.
    pub open spec fn spec_mask(self) -> u32 {
        match self {
            ModuleFlag::Stereo => 0x0000_0001,
            ModuleFlag::Vol0MixOptimizations => 0x0000_0002,
            ModuleFlag::UseInstruments => 0x0000_0004,
            ModuleFlag::LinearSlides => 0x0000_0008,
            ModuleFlag::OldEffects => 0x0000_0010,
            ModuleFlag::LinkGEEffects => 0x0000_0020,
            ModuleFlag::UseMidiPitch => 0x0000_0040,
            ModuleFlag::RequestMidiConfigEmbedded => 0x0000_0080,
            ModuleFlag::MessageAttached => 0x0001_0000,
            ModuleFlag::MidiConfigEmbedded => 0x0008_0000,
        }
    }

    /// Whether the flag words of a file header hold this flag: the general
    /// word `flags` for the first eight flags, the special word `special`
    /// for the last two.
    pub open spec fn set_in(self, flags: u16, special: u16) -> bool {
        match self {
            ModuleFlag::Stereo => flags & 0x0001 != 0,
            ModuleFlag::Vol0MixOptimizations => flags & 0x0002 != 0,
            ModuleFlag::UseInstruments => flags & 0x0004 != 0,
            ModuleFlag::LinearSlides => flags & 0x0008 != 0,
            ModuleFlag::OldEffects => flags & 0x0010 != 0,
            ModuleFlag::LinkGEEffects => flags & 0x0020 != 0,
            ModuleFlag::UseMidiPitch => flags & 0x0040 != 0,
            ModuleFlag::RequestMidiConfigEmbedded => flags & 0x0080 != 0,
            ModuleFlag::MessageAttached => special & 0x0001 != 0,
            ModuleFlag::MidiConfigEmbedded => special & 0x0008 != 0,
        }
    }

    /// The single bit that stands for this flag in the combined set.
    #[verifier::when_used_as_spec(spec_mask)]
    pub fn mask(self) -> (m: u32)
        ensures
            m == self.spec_mask(),
    {
        match self {
            ModuleFlag::Stereo => 0x0000_0001,
            ModuleFlag::Vol0MixOptimizations => 0x0000_0002,
            ModuleFlag::UseInstruments => 0x0000_0004,
            ModuleFlag::LinearSlides => 0x0000_0008,
            ModuleFlag::OldEffects => 0x0000_0010,
            ModuleFlag::LinkGEEffects => 0x0000_0020,
            ModuleFlag::UseMidiPitch => 0x0000_0040,
            ModuleFlag::RequestMidiConfigEmbedded => 0x0000_0080,
            ModuleFlag::MessageAttached => 0x0001_0000,
            ModuleFlag::MidiConfigEmbedded => 0x0008_0000,
        }
    }
}

/// The bits that `flags` and `special` give when the special word is moved
/// up behind the general word, unknown bits included.
pub open spec fn merged_words(flags: u16, special: u16) -> u32 {
    (flags as u32) | ((special as u32) << SPECIAL_SHIFT)
}

/// A set of [`ModuleFlag`]s, held as a bit pattern in which no bit outside
/// [`KNOWN_BITS`] is ever set.
#[derive(Clone, Copy, Debug, PartialEq, Eq, Structural, Hash)]
pub struct ModuleFlags {
    bits: u32,
}

impl View for ModuleFlags {
    type V = u32;

    /// The bit pattern of the set.
    closed spec fn view(&self) -> u32 {
        self.bits
    }
}

impl ModuleFlags {
    #[verifier::type_invariant]
    spec fn only_known_bits(self) -> bool {
        self.bits & !KNOWN_BITS == 0
    }

    /// Whether `flag` is in the set.
    pub open spec fn has(self, flag: ModuleFlag) -> bool {
        self@ & flag.spec_mask() != 0
    }

    /// The set without any flag.
    pub closed spec fn spec_empty() -> Self {
        ModuleFlags { bits: 0 }
    }

    /// The set without any flag.
    #[verifier::when_used_as_spec(spec_empty)]
    pub fn empty() -> (r: Self)
        ensures
            r == Self::spec_empty(),
            r@ == 0,
            forall|flag: ModuleFlag| !r.has(flag),
    {
        proof {
            Self::lemma_empty_has_none();
        }
        ModuleFlags { bits: 0 }
    }

    /// The set of every flag.
    pub fn all() -> (r: Self)
        ensures
            r@ == KNOWN_BITS,
            forall|flag: ModuleFlag| r.has(flag),
    {
        assert(KNOWN_BITS & !KNOWN_BITS == 0) by (bit_vector);
        proof {
            assert forall|flag: ModuleFlag| KNOWN_BITS & flag.spec_mask() != 0 by {
                let m = flag.spec_mask();
                Self::lemma_masks(flag);
                assert(0x0009_00ffu32 & m != 0) by (bit_vector)
                    requires
                        m == 0x1 || m == 0x2 || m == 0x4 || m == 0x8 || m == 0x10 || m == 0x20
                            || m == 0x40 || m == 0x80 || m == 0x1_0000 || m == 0x8_0000,
                ;
            }
        }
        ModuleFlags { bits: KNOWN_BITS }
    }

    /// The bit pattern of the set. No bit outside [`KNOWN_BITS`] is set in it.
    pub fn bits(&self) -> (r: u32)
        ensures
            r == self@,
            r & !KNOWN_BITS == 0,
    {
        proof {
            use_type_invariant(self);
        }
        self.bits
    }

    /// The set that `bits` stands for, unless a bit outside [`KNOWN_BITS`]
    /// is set in it.
    pub fn from_bits(bits: u32) -> (r: Option<Self>)
        ensures
            bits & !KNOWN_BITS == 0 ==> r.is_some() && r.unwrap()@ == bits,
            bits & !KNOWN_BITS != 0 ==> r.is_none(),
    {
        if bits & !KNOWN_BITS == 0 {
            Some(ModuleFlags { bits })
        } else {
            None
        }
    }

    /// The set that `bits` stands for once every bit outside [`KNOWN_BITS`]
    /// has been dropped.
    pub fn from_bits_truncate(bits: u32) -> (r: Self)
        ensures
            r@ == bits & KNOWN_BITS,
    {
        assert((bits & KNOWN_BITS) & !KNOWN_BITS == 0) by (bit_vector);
        ModuleFlags { bits: bits & KNOWN_BITS }
    }

    /// The set that the two flag words of a file header stand for.
    ///
    /// The special word is moved up by [`SPECIAL_SHIFT`] bits behind the
    /// general word, and every bit outside [`KNOWN_BITS`] is dropped without
    /// notice. So a flag is in the set exactly if its bit is set in the word
    /// it belongs to.
    pub fn from_parts(flags: u16, special: u16) -> (r: Self)
        ensures
            r@ == merged_words(flags, special) & KNOWN_BITS,
            r@ & !KNOWN_BITS == 0,
            forall|flag: ModuleFlag| r.has(flag) <==> flag.set_in(flags, special),
    {
        let low: u32 = flags as u32;
        let high: u32 = special as u32;
        let bits: u32 = low | (high << SPECIAL_SHIFT);
        let r = ModuleFlags::from_bits_truncate(bits);
        proof {
            let kept = bits & KNOWN_BITS;
            assert(kept & !KNOWN_BITS == 0) by (bit_vector)
                requires
                    kept == bits & KNOWN_BITS,
            ;
            assert({
                &&& (kept & 0x0000_0001 != 0) == (flags & 0x0001 != 0)
                &&& (kept & 0x0000_0002 != 0) == (flags & 0x0002 != 0)
                &&& (kept & 0x0000_0004 != 0) == (flags & 0x0004 != 0)
                &&& (kept & 0x0000_0008 != 0) == (flags & 0x0008 != 0)
                &&& (kept & 0x0000_0010 != 0) == (flags & 0x0010 != 0)
                &&& (kept & 0x0000_0020 != 0) == (flags & 0x0020 != 0)
                &&& (kept & 0x0000_0040 != 0) == (flags & 0x0040 != 0)
                &&& (kept & 0x0000_0080 != 0) == (flags & 0x0080 != 0)
                &&& (kept & 0x0001_0000 != 0) == (special & 0x0001 != 0)
                &&& (kept & 0x0008_0000 != 0) == (special & 0x0008 != 0)
            }) by (bit_vector)
                requires
                    kept == ((flags as u32) | ((special as u32) << 16)) & 0x0009_00ffu32,
            ;
            assert forall|flag: ModuleFlag| r.has(flag) <==> flag.set_in(flags, special) by {
                assert(r@ == kept);
            }
        }
        r
    }

    /// The set that holds `flag` and nothing else.
    pub fn from_flag(flag: ModuleFlag) -> (r: Self)
        ensures
            r@ == flag.spec_mask(),
            forall|other: ModuleFlag| r.has(other) <==> other == flag,
    {
        let bits = flag.mask();
        proof {
            Self::lemma_masks(flag);
            assert forall|other: ModuleFlag| (bits & other.spec_mask() != 0) <==> other
                == flag by {
                Self::lemma_masks(other);
                Self::lemma_distinct_masks(flag, other);
            }
        }
        ModuleFlags { bits }
    }

    /// Whether no flag is in the set.
    pub fn is_empty(&self) -> (r: bool)
        ensures
            r <==> self@ == 0,
            r <==> forall|flag: ModuleFlag| !self.has(flag),
    {
        proof {
            use_type_invariant(self);
            Self::lemma_empty_has_none();
            Self::lemma_determined_by_flags(*self, Self::spec_empty());
        }
        self.bits == 0
    }

    /// Whether `flag` is in the set.
    pub fn contains(&self, flag: ModuleFlag) -> (r: bool)
        ensures
            r == self.has(flag),
    {
        self.bits & flag.mask() != 0
    }

    /// Whether every flag of `other` is in the set.
    pub fn contains_all(&self, other: ModuleFlags) -> (r: bool)
        ensures
            r <==> self@ & other@ == other@,
            r <==> forall|flag: ModuleFlag| other.has(flag) ==> self.has(flag),
    {
        proof {
            use_type_invariant(self);
            use_type_invariant(&other);
            Self::lemma_subset_by_flags(*self, other);
        }
        self.bits & other.bits == other.bits
    }

    /// The set of the flags that are in `self`, in `other` or in both.
    pub fn union(self, other: ModuleFlags) -> (r: Self)
        ensures
            r@ == self@ | other@,
            forall|flag: ModuleFlag| r.has(flag) <==> self.has(flag) || other.has(flag),
    {
        let a = self.bits;
        let b = other.bits;
        proof {
            use_type_invariant(&self);
            use_type_invariant(&other);
            assert((a | b) & !KNOWN_BITS == 0) by (bit_vector)
                requires
                    a & !KNOWN_BITS == 0,
                    b & !KNOWN_BITS == 0,
            ;
            assert forall|flag: ModuleFlag|
                ((a | b) & flag.spec_mask() != 0) <==> (a & flag.spec_mask() != 0) || (b
                    & flag.spec_mask() != 0) by {
                let m = flag.spec_mask();
                assert(((a | b) & m != 0) <==> (a & m != 0) || (b & m != 0)) by (bit_vector);
            }
        }
        ModuleFlags { bits: a | b }
    }

    /// The set of the flags that are in both `self` and `other`.
    pub fn intersection(self, other: ModuleFlags) -> (r: Self)
        ensures
            r@ == self@ & other@,
            forall|flag: ModuleFlag| r.has(flag) <==> self.has(flag) && other.has(flag),
    {
        let a = self.bits;
        let b = other.bits;
        proof {
            use_type_invariant(&self);
            assert((a & b) & !KNOWN_BITS == 0) by (bit_vector)
                requires
                    a & !KNOWN_BITS == 0,
            ;
            assert forall|flag: ModuleFlag|
                ((a & b) & flag.spec_mask() != 0) <==> (a & flag.spec_mask() != 0) && (b
                    & flag.spec_mask() != 0) by {
                let m = flag.spec_mask();
                Self::lemma_masks(flag);
                assert(((a & b) & m != 0) <==> (a & m != 0) && (b & m != 0)) by (bit_vector)
                    requires
                        m == 0x1 || m == 0x2 || m == 0x4 || m == 0x8 || m == 0x10 || m == 0x20
                            || m == 0x40 || m == 0x80 || m == 0x1_0000 || m == 0x8_0000,
                ;
            }
        }
        ModuleFlags { bits: a & b }
    }

    /// The mask of a flag is one of the ten single bits of [`KNOWN_BITS`].
    pub proof fn lemma_masks(flag: ModuleFlag)
        ensures
            ({
                let m = flag.spec_mask();
                m == 0x1 || m == 0x2 || m == 0x4 || m == 0x8 || m == 0x10 || m == 0x20 || m
                    == 0x40 || m == 0x80 || m == 0x1_0000 || m == 0x8_0000
            }),
            flag.spec_mask() & !KNOWN_BITS == 0,
            flag.spec_mask() != 0,
    {
        let m = flag.spec_mask();
        assert(m & !KNOWN_BITS == 0) by (bit_vector)
            requires
                m == 0x1 || m == 0x2 || m == 0x4 || m == 0x8 || m == 0x10 || m == 0x20 || m
                    == 0x40 || m == 0x80 || m == 0x1_0000 || m == 0x8_0000,
        ;
    }

    /// Two flags share a bit only if they are the same flag.
    pub proof fn lemma_distinct_masks(a: ModuleFlag, b: ModuleFlag)
        ensures
            (a.spec_mask() & b.spec_mask() != 0) <==> a == b,
    {
        let m = a.spec_mask();
        let n = b.spec_mask();
        Self::lemma_masks(a);
        Self::lemma_masks(b);
        assert((m & n != 0) <==> m == n) by (bit_vector)
            requires
                m == 0x1 || m == 0x2 || m == 0x4 || m == 0x8 || m == 0x10 || m == 0x20 || m
                    == 0x40 || m == 0x80 || m == 0x1_0000 || m == 0x8_0000,
                n == 0x1 || n == 0x2 || n == 0x4 || n == 0x8 || n == 0x10 || n == 0x20 || n
                    == 0x40 || n == 0x80 || n == 0x1_0000 || n == 0x8_0000,
        ;
    }

    /// No flag is in the empty set.
    pub proof fn lemma_empty_has_none()
        ensures
            Self::spec_empty()@ == 0,
            Self::spec_empty()@ & !KNOWN_BITS == 0,
            forall|flag: ModuleFlag| !Self::spec_empty().has(flag),
    {
        assert(0u32 & !KNOWN_BITS == 0) by (bit_vector);
        assert forall|flag: ModuleFlag| !Self::spec_empty().has(flag) by {
            let m = flag.spec_mask();
            assert(0u32 & m == 0) by (bit_vector);
        }
    }

    /// Among bit patterns without a bit outside [`KNOWN_BITS`], one holds
    /// every flag of another exactly if it covers the other's bits.
    pub proof fn lemma_subset_by_flags(a: Self, b: Self)
        requires
            a@ & !KNOWN_BITS == 0,
            b@ & !KNOWN_BITS == 0,
        ensures
            (a@ & b@ == b@) <==> forall|flag: ModuleFlag| b.has(flag) ==> a.has(flag),
    {
        let x = a@;
        let y = b@;
        if x & y == y {
            assert forall|flag: ModuleFlag| b.has(flag) implies a.has(flag) by {
                let m = flag.spec_mask();
                assert(y & m != 0 ==> x & m != 0) by (bit_vector)
                    requires
                        x & y == y,
                ;
            }
        }
        if forall|flag: ModuleFlag| b.has(flag) ==> a.has(flag) {
            assert(b.has(ModuleFlag::Stereo) ==> a.has(ModuleFlag::Stereo));
            assert(b.has(ModuleFlag::Vol0MixOptimizations) ==> a.has(
                ModuleFlag::Vol0MixOptimizations,
            ));
            assert(b.has(ModuleFlag::UseInstruments) ==> a.has(ModuleFlag::UseInstruments));
            assert(b.has(ModuleFlag::LinearSlides) ==> a.has(ModuleFlag::LinearSlides));
            assert(b.has(ModuleFlag::OldEffects) ==> a.has(ModuleFlag::OldEffects));
            assert(b.has(ModuleFlag::LinkGEEffects) ==> a.has(ModuleFlag::LinkGEEffects));
            assert(b.has(ModuleFlag::UseMidiPitch) ==> a.has(ModuleFlag::UseMidiPitch));
            assert(b.has(ModuleFlag::RequestMidiConfigEmbedded) ==> a.has(
                ModuleFlag::RequestMidiConfigEmbedded,
            ));
            assert(b.has(ModuleFlag::MessageAttached) ==> a.has(ModuleFlag::MessageAttached));
            assert(b.has(ModuleFlag::MidiConfigEmbedded) ==> a.has(
                ModuleFlag::MidiConfigEmbedded,
            ));
            assert(x & y == y) by (bit_vector)
                requires
                    x & !0x0009_00ffu32 == 0,
                    y & !0x0009_00ffu32 == 0,
                    y & 0x1 != 0 ==> x & 0x1 != 0,
                    y & 0x2 != 0 ==> x & 0x2 != 0,
                    y & 0x4 != 0 ==> x & 0x4 != 0,
                    y & 0x8 != 0 ==> x & 0x8 != 0,
                    y & 0x10 != 0 ==> x & 0x10 != 0,
                    y & 0x20 != 0 ==> x & 0x20 != 0,
                    y & 0x40 != 0 ==> x & 0x40 != 0,
                    y & 0x80 != 0 ==> x & 0x80 != 0,
                    y & 0x1_0000 != 0 ==> x & 0x1_0000 != 0,
                    y & 0x8_0000 != 0 ==> x & 0x8_0000 != 0,
            ;
        }
    }

    /// Two sets without a bit outside [`KNOWN_BITS`] that hold the same
    /// flags are the same set.
    pub proof fn lemma_determined_by_flags(a: Self, b: Self)
        requires
            a@ & !KNOWN_BITS == 0,
            b@ & !KNOWN_BITS == 0,
        ensures
            a == b <==> forall|flag: ModuleFlag| a.has(flag) == b.has(flag),
    {
        if forall|flag: ModuleFlag| a.has(flag) == b.has(flag) {
            Self::lemma_subset_by_flags(a, b);
            Self::lemma_subset_by_flags(b, a);
            let x = a@;
            let y = b@;
            assert(x == y) by (bit_vector)
                requires
                    x & y == y,
                    y & x == x,
            ;
        }
    }
}

} // verus!
