//! Which of the channels of a module carry note data.

use vstd::prelude::*;

verus! {

/// The number of channel slots of a module. Channels are numbered from zero.
pub const CHANNEL_COUNT: u8 = 64;

/// Whether bit `channel` of `bits` is set. No bit stands for a channel
/// number of [`CHANNEL_COUNT`] or more.
pub open spec fn bit_is_set(bits: u64, channel: u8) -> bool {
    channel < CHANNEL_COUNT && (bits >> (channel as u64)) & 1 == 1
}

/// A set of channel numbers below [`CHANNEL_COUNT`], held as a bit pattern:
/// bit `c` stands for channel `c`.
#[derive(Clone, Copy, Debug, PartialEq, Eq, Structural, Hash)]
pub struct ActiveChannels {
    bits: u64,
}

impl View for ActiveChannels {
    type V = u64;

    /// The bit pattern of the set.
    closed spec fn view(&self) -> u64 {
        self.bits
    }
}

impl ActiveChannels {
    /// Whether `channel` is in the set. No channel of [`CHANNEL_COUNT`] or
    /// more ever is.
    pub open spec fn has(self, channel: u8) -> bool {
        bit_is_set(self@, channel)
    }

    /// The set without any channel.
    pub closed spec fn spec_empty() -> Self {
        ActiveChannels { bits: 0 }
    }

    /// The set of the channels that are in `self`, in `other` or in both.
    pub closed spec fn spec_union(self, other: Self) -> Self {
        ActiveChannels { bits: self.bits | other.bits }
    }

    /// The set without any channel.
    #[verifier::when_used_as_spec(spec_empty)]
    pub fn empty() -> (r: Self)
        ensures
            r == Self::spec_empty(),
            r@ == 0,
            forall|c: u8| !r.has(c),
    {
        proof {
            Self::lemma_empty_has_none();
        }
        ActiveChannels { bits: 0 }
    }

    /// The set of all [`CHANNEL_COUNT`] channels.
    pub fn all() -> (r: Self)
        ensures
            r@ == u64::MAX,
            forall|c: u8| r.has(c) <==> c < CHANNEL_COUNT,
    {
        assert forall|c: u8| c < CHANNEL_COUNT implies bit_is_set(u64::MAX, c) by {
            let i = c as u64;
            assert((0xffff_ffff_ffff_ffffu64 >> i) & 1 == 1) by (bit_vector)
                requires
                    i < 64,
            ;
        }
        ActiveChannels { bits: u64::MAX }
    }

    /// The set whose bit pattern is `bits`.
    pub fn from_bits(bits: u64) -> (r: Self)
        ensures
            r@ == bits,
    {
        ActiveChannels { bits }
    }

    /// The bit pattern of the set.
    pub fn bits(&self) -> (r: u64)
        ensures
            r == self@,
    {
        self.bits
    }

    /// Whether no channel is in the set.
    pub fn is_empty(&self) -> (r: bool)
        ensures
            r <==> self@ == 0,
            r <==> *self == Self::spec_empty(),
            r <==> forall|c: u8| !self.has(c),
    {
        proof {
            Self::lemma_empty_has_none();
            if forall|c: u8| !self.has(c) {
                assert forall|c: u8| c < CHANNEL_COUNT implies bit_is_set(self@, c) == bit_is_set(
                    0,
                    c,
                ) by {
                    assert(!self.has(c));
                    assert(!Self::spec_empty().has(c));
                }
                lemma_bits_determined_by_channels(self@, 0);
            }
        }
        self.bits == 0
    }

    /// Whether `channel` is in the set.
    pub fn contains(&self, channel: u8) -> (r: bool)
        ensures
            r == self.has(channel),
    {
        channel < CHANNEL_COUNT && (self.bits >> (channel as u64)) & 1 == 1
    }

    /// Puts `channel` into the set and says whether it could: a channel
    /// number of [`CHANNEL_COUNT`] or more names no channel, and leaves the
    /// set as it was.
    pub fn insert(&mut self, channel: u8) -> (accepted: bool)
        ensures
            accepted <==> channel < CHANNEL_COUNT,
            accepted ==> final(self)@ == old(self)@ | (1u64 << (channel as u64)),
            !accepted ==> *final(self) == *old(self),
            forall|c: u8| final(self).has(c) <==> old(self).has(c) || (accepted && c == channel),
    {
        if channel < CHANNEL_COUNT {
            let ghost before = self.bits;
            let shift: u64 = channel as u64;
            self.bits = self.bits | (1u64 << shift);
            proof {
                let after = self.bits;
                assert forall|c: u8| bit_is_set(after, c) <==> bit_is_set(before, c) || c
                    == channel by {
                    if c < CHANNEL_COUNT {
                        let i = c as u64;
                        assert(((before | (1u64 << shift)) >> i) & 1 == 1 <==> (before >> i) & 1
                            == 1 || i == shift) by (bit_vector)
                            requires
                                i < 64,
                                shift < 64,
                        ;
                    }
                }
            }
            true
        } else {
            false
        }
    }

    /// The set of the channels that are in `self`, in `other` or in both.
    #[verifier::when_used_as_spec(spec_union)]
    pub fn union(self, other: Self) -> (r: Self)
        ensures
            r == self.spec_union(other),
            r@ == self@ | other@,
            forall|c: u8| r.has(c) <==> self.has(c) || other.has(c),
    {
        proof {
            Self::lemma_union_has(self, other);
        }
        ActiveChannels { bits: self.bits | other.bits }
    }

    /// No channel is in the empty set.
    pub proof fn lemma_empty_has_none()
        ensures
            Self::spec_empty()@ == 0,
            forall|c: u8| !Self::spec_empty().has(c),
    {
        assert forall|c: u8| !bit_is_set(0, c) by {
            let i = c as u64;
            assert((0u64 >> i) & 1 == 0) by (bit_vector);
        }
    }

    /// A channel is in a union exactly if it is in one of the two sets.
    pub proof fn lemma_union_has(a: Self, b: Self)
        ensures
            a.spec_union(b)@ == a@ | b@,
            forall|c: u8| a.spec_union(b).has(c) <==> a.has(c) || b.has(c),
    {
        let x = a@;
        let y = b@;
        assert forall|c: u8| bit_is_set(x | y, c) <==> bit_is_set(x, c) || bit_is_set(y, c) by {
            let i = c as u64;
            assert(((x | y) >> i) & 1 == 1 <==> (x >> i) & 1 == 1 || (y >> i) & 1 == 1)
                by (bit_vector);
        }
    }

    /// Two sets that hold the same channels are the same set.
    pub proof fn lemma_equal_by_channels(a: Self, b: Self)
        requires
            forall|c: u8| c < CHANNEL_COUNT ==> a.has(c) == b.has(c),
        ensures
            a == b,
    {
        assert forall|c: u8| c < CHANNEL_COUNT implies bit_is_set(a@, c) == bit_is_set(b@, c) by {
            assert(a.has(c) == b.has(c));
        }
        lemma_bits_determined_by_channels(a@, b@);
    }
}

impl core::ops::BitOr for ActiveChannels {
    type Output = ActiveChannels;

    /// The same as [`ActiveChannels::union`].
    fn bitor(self, rhs: ActiveChannels) -> (r: ActiveChannels)
        ensures
            r@ == self@ | rhs@,
            forall|c: u8| r.has(c) <==> self.has(c) || rhs.has(c),
    {
        self.union(rhs)
    }
}

impl vstd::std_specs::ops::BitOrSpecImpl for ActiveChannels {
    open spec fn obeys_bitor_spec() -> bool {
        true
    }

    open spec fn bitor_req(self, rhs: ActiveChannels) -> bool {
        true
    }

    open spec fn bitor_spec(self, rhs: ActiveChannels) -> ActiveChannels {
        self.spec_union(rhs)
    }
}

/// The number of the lowest bit that is set in `x`, for an `x` other than
/// zero.
spec fn lowest_set_bit(x: u64) -> u64 {
    let s5: u64 = if x & 0xffff_ffff == 0 { 32 } else { 0 };
    let x5: u64 = x >> s5;
    let s4: u64 = if x5 & 0xffff == 0 { 16 } else { 0 };
    let x4: u64 = x5 >> s4;
    let s3: u64 = if x4 & 0xff == 0 { 8 } else { 0 };
    let x3: u64 = x4 >> s3;
    let s2: u64 = if x3 & 0xf == 0 { 4 } else { 0 };
    let x2: u64 = x3 >> s2;
    let s1: u64 = if x2 & 0x3 == 0 { 2 } else { 0 };
    let x1: u64 = x2 >> s1;
    let s0: u64 = if x1 & 0x1 == 0 { 1 } else { 0 };
    s5 | s4 | s3 | s2 | s1 | s0
}

proof fn lemma_lowest_set_bit(x: u64)
    by (bit_vector)
    requires
        x != 0,
    ensures
        lowest_set_bit(x) < 64,
        (x >> lowest_set_bit(x)) & 1 == 1,
{
}

/// Two bit patterns that agree on every channel are the same pattern.
pub proof fn lemma_bits_determined_by_channels(a: u64, b: u64)
    requires
        forall|c: u8| c < CHANNEL_COUNT ==> bit_is_set(a, c) == bit_is_set(b, c),
    ensures
        a == b,
{
    let x = a ^ b;
    if x != 0 {
        lemma_lowest_set_bit(x);
        let i = lowest_set_bit(x);
        let c = i as u8;
        assert(bit_is_set(a, c) == bit_is_set(b, c));
        assert(c as u64 == i);
        assert(false) by (bit_vector)
            requires
                x == a ^ b,
                i < 64,
                (x >> i) & 1 == 1,
                ((a >> i) & 1 == 1) == ((b >> i) & 1 == 1),
        ;
    }
    assert(a == b) by (bit_vector)
        requires
            a ^ b == 0,
    ;
}

} // verus!
