//! The 32-byte identities by which the host names accounts and programs.

use vstd::prelude::*;

verus! {

/// A 32-byte identity of an account or of a program.
#[derive(Debug, Clone, Copy, Eq)]
pub struct Pubkey {
    pub bytes: [u8; 32],
}

impl View for Pubkey {
    type V = Seq<u8>;

    open spec fn view(&self) -> Seq<u8> {
        self.bytes@
    }
}

impl DeepView for Pubkey {
    type V = Seq<u8>;

    open spec fn deep_view(&self) -> Seq<u8> {
        self@
    }
}

impl PartialEq for Pubkey {
    fn eq(&self, other: &Pubkey) -> (r: bool) {
        let mut i: usize = 0;
        while i < 32
            invariant
                i <= 32,
                forall|j: int| 0 <= j < i ==> self.bytes[j] == other.bytes[j],
            decreases 32 - i,
        {
            if self.bytes[i] != other.bytes[i] {
                return false;
            }
            i += 1;
        }
        assert(self.bytes =~= other.bytes);
        true
    }
}

impl vstd::std_specs::cmp::PartialEqSpecImpl for Pubkey {
    open spec fn obeys_eq_spec() -> bool {
        true
    }

    open spec fn eq_spec(&self, other: &Pubkey) -> bool {
        self@ == other@
    }
}

impl Pubkey {
    /// The identity made of the given bytes.
    pub fn new_from_array(bytes: [u8; 32]) -> (key: Pubkey)
        ensures
            key@ == bytes@,
    {
        Pubkey { bytes }
    }

    /// The bytes of this identity.
    pub fn to_bytes(&self) -> (bytes: [u8; 32])
        ensures
            bytes@ == self@,
    {
        self.bytes
    }

    /// The identity in the 32 bytes of `src` that start at `at`.
    pub fn read(src: &[u8], at: usize) -> (key: Pubkey)
        requires
            at + 32 <= src@.len(),
        ensures
            key@ == src@.subrange(at as int, at + 32),
    {
        let len: usize = src.len();
        let mut bytes: [u8; 32] = [0u8; 32];
        let mut i: usize = 0;
        while i < 32
            invariant
                i <= 32,
                len == src@.len(),
                at + 32 <= len,
                forall|j: int| 0 <= j < i ==> bytes@[j] == src@[at + j],
            decreases 32 - i,
        {
            bytes[i] = src[at + i];
            i += 1;
        }
        Pubkey { bytes }
    }

    /// Appends the 32 bytes of this identity to `out`.
    pub fn write(&self, out: &mut Vec<u8>)
        ensures
            final(out)@ == old(out)@ + self@,
    {
        let mut i: usize = 0;
        while i < 32
            invariant
                i <= 32,
                out@ == old(out)@ + self@.subrange(0, i as int),
            decreases 32 - i,
        {
            out.push(self.bytes[i]);
            i += 1;
        }
    }
}

/// Two identities are the same as soon as their bytes agree, and an
/// identity always has 32 bytes.
pub proof fn lemma_pubkey_bytes_decide(a: Pubkey, b: Pubkey)
    ensures
        a == b <==> a@ == b@,
        a@.len() == 32,
{
    if a@ == b@ {
        assert(a.bytes =~= b.bytes);
    }
}

} // verus!
