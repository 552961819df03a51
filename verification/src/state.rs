use vstd::prelude::*;
use crate::pubkey::Pubkey;

verus! {

/// Number of bytes in an encoded configuration record.
pub const STATE_SIZE: usize = 64;

/// The configuration record of the ledger. There is one per program, at the
/// address derived for the program, and it does not change once it exists.
#[derive(Clone, Copy, Debug, PartialEq, Eq)]
pub struct State {
    /// The administrator: the identity that may create vesting schedules.
    pub owner: Pubkey,
    /// The token that the ledger vests.
    pub token: Pubkey,
}

impl State {
    /// The 64 bytes of a record: the administrator, then the token.
    pub open spec fn spec_encode(self) -> Seq<u8> {
        self.owner@ + self.token@
    }

    /// The record that bytes stand for: exactly 64 bytes are one record,
    /// anything else is none.
    pub open spec fn spec_decode(s: Seq<u8>) -> Option<State> {
        if s.len() == 64 {
            Some(
                State {
                    owner: Pubkey::from_seq(s.subrange(0, 32)),
                    token: Pubkey::from_seq(s.subrange(32, 64)),
                },
            )
        } else {
            None
        }
    }

    /// Decoding the encoding of a record gives the record.
    pub proof fn lemma_round_trip(v: State)
        ensures
            v.spec_encode().len() == 64,
            State::spec_decode(v.spec_encode()) == Some(v),
    {
        let s = v.spec_encode();
        Pubkey::lemma_from_seq_of_view(v.owner);
        Pubkey::lemma_from_seq_of_view(v.token);
        assert(s.subrange(0, 32) =~= v.owner@);
        assert(s.subrange(32, 64) =~= v.token@);
    }

    /// Bytes that decode are the encoding of what they decode to.
    pub proof fn lemma_canonical(s: Seq<u8>)
        requires
            s.len() == 64,
        ensures
            State::spec_decode(s) matches Some(v) && v.spec_encode() == s,
    {
        Pubkey::lemma_view_of_from_seq(s.subrange(0, 32));
        Pubkey::lemma_view_of_from_seq(s.subrange(32, 64));
        assert(s =~= s.subrange(0, 32) + s.subrange(32, 64));
    }

    /// The encoding of the record.
    pub fn encode(&self) -> (r: Vec<u8>)
        ensures
            r@ == self.spec_encode(),
    {
        let mut out: Vec<u8> = Vec::new();
        self.owner.write(&mut out);
        self.token.write(&mut out);
        assert(out@ =~= self.spec_encode());
        out
    }

    /// The record that `bytes` stand for, if they are one.
    pub fn decode(bytes: &[u8]) -> (r: Option<State>)
        ensures
            r == State::spec_decode(bytes@),
    {
        if bytes.len() != 64 {
            return None;
        }
        Some(State { owner: Pubkey::read(bytes, 0), token: Pubkey::read(bytes, 32) })
    }
}

} // verus!
