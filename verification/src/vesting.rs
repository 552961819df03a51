use vstd::prelude::*;
use crate::bytes::{lemma_u64_le_canonical, lemma_u64_le_round_trip, read_u64, u64_from_le, u64_to_le, write_u64};

verus! {

/// Number of bytes in an encoded vesting schedule.
pub const VESTING_SIZE: usize = 32;

/// The linear unlock of a fixed amount of tokens for one beneficiary.
///
/// A storage account holds at most one schedule. A start date of zero marks a
/// slot that has not been used.
#[derive(Clone, Copy, Debug, PartialEq, Eq, Structural)]
pub struct Vesting {
    /// Span over which `amount` accrues, in seconds.
    pub duration: u64,
    /// Tokens subject to vesting, in base units.
    pub amount: u64,
    /// Span after `start_date` before which nothing is unlockable.
    pub cliff: u64,
    /// Instant at which accrual begins, in seconds since the epoch.
    pub start_date: u64,
}

impl Vesting {
    /// The 32 bytes of a schedule: duration, amount, cliff and start date,
    /// eight bytes each, least significant byte first.
    pub open spec fn spec_encode(self) -> Seq<u8> {
        u64_to_le(self.duration) + u64_to_le(self.amount) + u64_to_le(self.cliff) + u64_to_le(
            self.start_date,
        )
    }

    /// The schedule that bytes stand for: exactly 32 bytes are one schedule,
    /// anything else is none.
    pub open spec fn spec_decode(s: Seq<u8>) -> Option<Vesting> {
        if s.len() == 32 {
            Some(
                Vesting {
                    duration: u64_from_le(s.subrange(0, 8)),
                    amount: u64_from_le(s.subrange(8, 16)),
                    cliff: u64_from_le(s.subrange(16, 24)),
                    start_date: u64_from_le(s.subrange(24, 32)),
                },
            )
        } else {
            None
        }
    }

    /// Whether a schedule has been written: the start date is no longer the
    /// zero that marks an unused slot.
    pub open spec fn spec_is_occupied(self) -> bool {
        self.start_date != 0
    }

    /// Decoding the encoding of a schedule gives the schedule.
    pub proof fn lemma_round_trip(v: Vesting)
        ensures
            v.spec_encode().len() == 32,
            Vesting::spec_decode(v.spec_encode()) == Some(v),
    {
        let s = v.spec_encode();
        lemma_u64_le_round_trip(v.duration);
        lemma_u64_le_round_trip(v.amount);
        lemma_u64_le_round_trip(v.cliff);
        lemma_u64_le_round_trip(v.start_date);
        assert(s.subrange(0, 8) =~= u64_to_le(v.duration));
        assert(s.subrange(8, 16) =~= u64_to_le(v.amount));
        assert(s.subrange(16, 24) =~= u64_to_le(v.cliff));
        assert(s.subrange(24, 32) =~= u64_to_le(v.start_date));
    }

    /// Bytes that decode are the encoding of what they decode to.
    pub proof fn lemma_canonical(s: Seq<u8>)
        requires
            s.len() == 32,
        ensures
            Vesting::spec_decode(s) matches Some(v) && v.spec_encode() == s,
    {
        lemma_u64_le_canonical(s.subrange(0, 8));
        lemma_u64_le_canonical(s.subrange(8, 16));
        lemma_u64_le_canonical(s.subrange(16, 24));
        lemma_u64_le_canonical(s.subrange(24, 32));
        assert(s =~= s.subrange(0, 8) + s.subrange(8, 16) + s.subrange(16, 24) + s.subrange(
            24,
            32,
        ));
    }

    /// Whether a schedule has been written.
    pub fn is_occupied(&self) -> (r: bool)
        ensures
            r == self.spec_is_occupied(),
    {
        self.start_date != 0
    }

    /// Appends the encoding of the schedule.
    pub fn write(&self, out: &mut Vec<u8>)
        ensures
            final(out)@ == old(out)@ + self.spec_encode(),
    {
        write_u64(out, self.duration);
        write_u64(out, self.amount);
        write_u64(out, self.cliff);
        write_u64(out, self.start_date);
        assert(out@ =~= old(out)@ + self.spec_encode());
    }

    /// The encoding of the schedule.
    pub fn encode(&self) -> (r: Vec<u8>)
        ensures
            r@ == self.spec_encode(),
    {
        let mut out: Vec<u8> = Vec::new();
        self.write(&mut out);
        assert(out@ =~= self.spec_encode());
        out
    }

    /// The schedule that `bytes` stand for, if they are one.
    pub fn decode(bytes: &[u8]) -> (r: Option<Vesting>)
        ensures
            r == Vesting::spec_decode(bytes@),
    {
        if bytes.len() != 32 {
            return None;
        }
        Some(
            Vesting {
                duration: read_u64(bytes, 0),
                amount: read_u64(bytes, 8),
                cliff: read_u64(bytes, 16),
                start_date: read_u64(bytes, 24),
            },
        )
    }
}

} // verus!
