//! Names of songs, instruments and samples.

use vstd::prelude::*;

verus! {

/// The number of bytes a [`Name`] has room for.
pub const NAME_CAPACITY: usize = 26;

/// A short text of at most [`NAME_CAPACITY`] bytes.
///
/// The length is kept beside the bytes, so a zero byte in the middle of a
/// name is a byte like any other and does not end it.
#[derive(Clone, Copy, Debug, PartialEq, Eq, Hash)]
pub struct Name {
    bytes: [u8; 26],
    len: usize,
}

impl View for Name {
    type V = Seq<u8>;

    /// The bytes of the name, without the unused rest of the buffer.
    closed spec fn view(&self) -> Seq<u8> {
        self.bytes@.take(self.len as int)
    }
}

impl Name {
    #[verifier::type_invariant]
    spec fn well_formed(self) -> bool {
        &&& self.len <= NAME_CAPACITY
        &&& forall|i: int| self.len <= i < NAME_CAPACITY ==> self.bytes@[i] == 0
    }

    /// The name without any byte.
    pub fn empty() -> (r: Self)
        ensures
            r@ == Seq::<u8>::empty(),
    {
        Name { bytes: [0u8; 26], len: 0 }
    }

    /// The name made of the bytes of `text`, zero bytes included, unless
    /// there are more of them than [`NAME_CAPACITY`].
    pub fn new(text: &[u8]) -> (r: Option<Self>)
        ensures
            text@.len() <= NAME_CAPACITY ==> r.is_some() && r.unwrap()@ == text@,
            text@.len() > NAME_CAPACITY ==> r.is_none(),
    {
        if text.len() > NAME_CAPACITY {
            return None;
        }
        let mut bytes: [u8; 26] = [0u8; 26];
        let mut i: usize = 0;
        while i < text.len()
            invariant
                i <= text@.len() <= NAME_CAPACITY,
                forall|k: int| 0 <= k < i ==> bytes@[k] == text@[k],
                forall|k: int| i <= k < NAME_CAPACITY ==> bytes@[k] == 0,
            decreases text@.len() - i,
        {
            bytes[i] = text[i];
            i += 1;
        }
        let name = Name { bytes, len: i };
        assert(name@ =~= text@);
        Some(name)
    }

    /// The number of bytes in the name.
    pub fn len(&self) -> (n: usize)
        ensures
            n == self@.len(),
            n <= NAME_CAPACITY,
    {
        proof {
            use_type_invariant(self);
        }
        self.len
    }

    /// The bytes of the name.
    pub fn as_bytes(&self) -> (r: Vec<u8>)
        ensures
            r@ == self@,
    {
        proof {
            use_type_invariant(self);
        }
        let mut out: Vec<u8> = Vec::new();
        let mut i: usize = 0;
        while i < self.len
            invariant
                i <= self.len <= NAME_CAPACITY,
                out@ == self.bytes@.take(i as int),
            decreases self.len - i,
        {
            out.push(self.bytes[i]);
            assert(self.bytes@.take(i + 1) =~= self.bytes@.take(i as int).push(self.bytes@[i as int]));
            i += 1;
        }
        out
    }
}

} // verus!
