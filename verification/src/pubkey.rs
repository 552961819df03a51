use vstd::prelude::*;

verus! {

/// Number of bytes in an identity.
pub const PUBKEY_BYTES: usize = 32;

/// An identity on the ledger: an account's address, a signer, a program.
#[derive(Clone, Copy, Debug)]
pub struct Pubkey {
    pub bytes: [u8; 32],
}

impl View for Pubkey {
    type V = Seq<u8>;

    open spec fn view(&self) -> Seq<u8> {
        self.bytes@
    }
}

impl Pubkey {
    /// The identity whose bytes are the first 32 of `s`.
    pub open spec fn from_seq(s: Seq<u8>) -> Pubkey
        recommends
            s.len() == 32,
    {
        Pubkey {
            bytes: [
                s[0], s[1], s[2], s[3], s[4], s[5], s[6], s[7],
                s[8], s[9], s[10], s[11], s[12], s[13], s[14], s[15],
                s[16], s[17], s[18], s[19], s[20], s[21], s[22], s[23],
                s[24], s[25], s[26], s[27], s[28], s[29], s[30], s[31],
            ],
        }
    }

    /// An identity is its 32 bytes: taking it from them gives it again.
    pub proof fn lemma_from_seq_of_view(p: Pubkey)
        ensures
            p@.len() == 32,
            Pubkey::from_seq(p@) == p,
    {
        assert(Pubkey::from_seq(p@).bytes =~= p.bytes);
    }

    /// Every 32 bytes are the bytes of one identity.
    pub proof fn lemma_view_of_from_seq(s: Seq<u8>)
        requires
            s.len() == 32,
        ensures
            Pubkey::from_seq(s)@ == s,
    {
        assert(Pubkey::from_seq(s)@ =~= s);
    }

    /// Two identities are the same exactly when their bytes are.
    pub proof fn lemma_view_injective(a: Pubkey, b: Pubkey)
        ensures
            a@ == b@ <==> a == b,
    {
        if a@ == b@ {
            assert(a.bytes =~= b.bytes);
        }
    }

    /// The identity with the given bytes.
    pub fn new_from_array(bytes: [u8; 32]) -> (r: Pubkey)
        ensures
            r.bytes == bytes,
    {
        Pubkey { bytes }
    }

    /// The bytes of the identity.
    pub fn to_bytes(&self) -> (r: [u8; 32])
        ensures
            r == self.bytes,
    {
        self.bytes
    }

    /// Reads the identity that starts at `at`.
    pub fn read(bytes: &[u8], at: usize) -> (r: Pubkey)
        requires
            at + 32 <= bytes.len(),
        ensures
            r == Pubkey::from_seq(bytes@.subrange(at as int, at + 32)),
    {
        let mut a: [u8; 32] = [0u8; 32];
        let mut i: usize = 0;
        while i < 32
            invariant
                i <= 32,
                at + 32 <= bytes.len(),
                forall|j: int| 0 <= j < i ==> a[j] == bytes@[at + j],
            decreases 32 - i,
        {
            a[i] = bytes[at + i];
            i += 1;
        }
        let r = Pubkey { bytes: a };
        proof {
            assert(r.bytes =~= Pubkey::from_seq(bytes@.subrange(at as int, at + 32)).bytes);
        }
        r
    }

    /// Appends the 32 bytes of the identity.
    pub fn write(&self, out: &mut Vec<u8>)
        ensures
            final(out)@ == old(out)@ + self@,
    {
        let mut i: usize = 0;
        while i < 32
            invariant
                i <= 32,
                out@ == old(out)@ + self@.subrange(0, i as int),
            decreases 32 - i,
        {
            out.push(self.bytes[i]);
            assert(out@ =~= old(out)@ + self@.subrange(0, i + 1));
            i += 1;
        }
        assert(self@.subrange(0, 32) =~= self@);
    }
}

impl PartialEq for Pubkey {
    fn eq(&self, other: &Pubkey) -> (r: bool) {
        let mut i: usize = 0;
        while i < 32
            invariant
                i <= 32,
                forall|j: int| 0 <= j < i ==> self.bytes[j] == other.bytes[j],
            decreases 32 - i,
        {
            if self.bytes[i] != other.bytes[i] {
                return false;
            }
            i += 1;
        }
        proof {
            assert(self.bytes =~= other.bytes);
        }
        true
    }
}

impl Eq for Pubkey {

}

impl vstd::std_specs::cmp::PartialEqSpecImpl for Pubkey {
    open spec fn obeys_eq_spec() -> bool {
        true
    }

    open spec fn eq_spec(&self, other: &Pubkey) -> bool {
        *self == *other
    }
}

impl Default for Pubkey {
    /// The identity of 32 zero bytes.
    fn default() -> (r: Pubkey)
        ensures
            r@ == Seq::new(32, |i: int| 0u8),
    {
        let r = Pubkey { bytes: [0u8; 32] };
        assert(r@ =~= Seq::new(32, |i: int| 0u8));
        r
    }
}

} // verus!
