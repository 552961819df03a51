use vstd::prelude::*;
use crate::bytes::{lemma_u64_le_canonical, lemma_u64_le_round_trip, read_u64, u64_from_le, u64_to_le, write_u64};
use crate::error::LedgerError;
use crate::pubkey::Pubkey;

verus! {

/// Tag byte of `Initialize`.
pub const TAG_INITIALIZE: u8 = 0;

/// Tag byte of `CreateVestingSchedule`.
pub const TAG_CREATE_VESTING_SCHEDULE: u8 = 1;

/// An operation that the ledger is asked to carry out.
#[derive(Clone, Copy, Debug, PartialEq, Eq)]
pub enum VestingInstruction {
    /// Allocate and fund the configuration record. `owner` pays for it.
    Initialize { owner: Pubkey },
    /// Write the schedule of `user` into a storage account.
    CreateVestingSchedule { user: Pubkey, amount: u64, start_date: u64, cliff: u64, duration: u64 },
}

impl VestingInstruction {
    /// The bytes of an instruction: its tag, then its fields in the order of
    /// their declaration, identities as their 32 bytes and integers as eight
    /// bytes with the least significant first.
    pub open spec fn spec_encode(self) -> Seq<u8> {
        match self {
            VestingInstruction::Initialize { owner } => seq![TAG_INITIALIZE] + owner@,
            VestingInstruction::CreateVestingSchedule {
                user,
                amount,
                start_date,
                cliff,
                duration,
            } => seq![TAG_CREATE_VESTING_SCHEDULE] + user@ + u64_to_le(amount) + u64_to_le(
                start_date,
            ) + u64_to_le(cliff) + u64_to_le(duration),
        }
    }

    /// The instruction that bytes stand for. The first byte selects the
    /// operation and fixes the length: 33 bytes for `Initialize`, 65 for
    /// `CreateVestingSchedule`. An empty buffer, another tag or another length
    /// is malformed.
    pub open spec fn spec_decode(s: Seq<u8>) -> Result<VestingInstruction, LedgerError> {
        if s.len() == 33 && s[0] == TAG_INITIALIZE {
            Ok(VestingInstruction::Initialize { owner: Pubkey::from_seq(s.subrange(1, 33)) })
        } else if s.len() == 65 && s[0] == TAG_CREATE_VESTING_SCHEDULE {
            Ok(
                VestingInstruction::CreateVestingSchedule {
                    user: Pubkey::from_seq(s.subrange(1, 33)),
                    amount: u64_from_le(s.subrange(33, 41)),
                    start_date: u64_from_le(s.subrange(41, 49)),
                    cliff: u64_from_le(s.subrange(49, 57)),
                    duration: u64_from_le(s.subrange(57, 65)),
                },
            )
        } else {
            Err(LedgerError::MalformedInstruction)
        }
    }

    /// Decoding the encoding of an instruction gives the instruction.
    pub proof fn lemma_round_trip(v: VestingInstruction)
        ensures
            VestingInstruction::spec_decode(v.spec_encode()) == Ok::<_, LedgerError>(v),
    {
        let s = v.spec_encode();
        match v {
            VestingInstruction::Initialize { owner } => {
                Pubkey::lemma_from_seq_of_view(owner);
                assert(s.subrange(1, 33) =~= owner@);
            },
            VestingInstruction::CreateVestingSchedule {
                user,
                amount,
                start_date,
                cliff,
                duration,
            } => {
                Pubkey::lemma_from_seq_of_view(user);
                lemma_u64_le_round_trip(amount);
                lemma_u64_le_round_trip(start_date);
                lemma_u64_le_round_trip(cliff);
                lemma_u64_le_round_trip(duration);
                assert(s.subrange(1, 33) =~= user@);
                assert(s.subrange(33, 41) =~= u64_to_le(amount));
                assert(s.subrange(41, 49) =~= u64_to_le(start_date));
                assert(s.subrange(49, 57) =~= u64_to_le(cliff));
                assert(s.subrange(57, 65) =~= u64_to_le(duration));
            },
        }
    }

    /// Bytes that decode are the encoding of what they decode to.
    pub proof fn lemma_canonical(s: Seq<u8>)
        ensures
            VestingInstruction::spec_decode(s) matches Ok(v) ==> v.spec_encode() == s,
    {
        if s.len() == 33 && s[0] == TAG_INITIALIZE {
            Pubkey::lemma_view_of_from_seq(s.subrange(1, 33));
            assert(s =~= seq![TAG_INITIALIZE] + s.subrange(1, 33));
        } else if s.len() == 65 && s[0] == TAG_CREATE_VESTING_SCHEDULE {
            Pubkey::lemma_view_of_from_seq(s.subrange(1, 33));
            lemma_u64_le_canonical(s.subrange(33, 41));
            lemma_u64_le_canonical(s.subrange(41, 49));
            lemma_u64_le_canonical(s.subrange(49, 57));
            lemma_u64_le_canonical(s.subrange(57, 65));
            assert(s =~= seq![TAG_CREATE_VESTING_SCHEDULE] + s.subrange(1, 33) + s.subrange(33, 41)
                + s.subrange(41, 49) + s.subrange(49, 57) + s.subrange(57, 65));
        }
    }

    /// The encoding of the instruction.
    pub fn encode(&self) -> (r: Vec<u8>)
        ensures
            r@ == self.spec_encode(),
    {
        let mut out: Vec<u8> = Vec::new();
        match self {
            VestingInstruction::Initialize { owner } => {
                out.push(TAG_INITIALIZE);
                owner.write(&mut out);
            },
            VestingInstruction::CreateVestingSchedule {
                user,
                amount,
                start_date,
                cliff,
                duration,
            } => {
                out.push(TAG_CREATE_VESTING_SCHEDULE);
                user.write(&mut out);
                write_u64(&mut out, *amount);
                write_u64(&mut out, *start_date);
                write_u64(&mut out, *cliff);
                write_u64(&mut out, *duration);
            },
        }
        assert(out@ =~= self.spec_encode());
        out
    }

    /// The instruction that `bytes` stand for, or `MalformedInstruction`.
    pub fn decode(bytes: &[u8]) -> (r: Result<VestingInstruction, LedgerError>)
        ensures
            r == VestingInstruction::spec_decode(bytes@),
    {
        if bytes.len() == 33 && bytes[0] == TAG_INITIALIZE {
            Ok(VestingInstruction::Initialize { owner: Pubkey::read(bytes, 1) })
        } else if bytes.len() == 65 && bytes[0] == TAG_CREATE_VESTING_SCHEDULE {
            Ok(
                VestingInstruction::CreateVestingSchedule {
                    user: Pubkey::read(bytes, 1),
                    amount: read_u64(bytes, 33),
                    start_date: read_u64(bytes, 41),
                    cliff: read_u64(bytes, 49),
                    duration: read_u64(bytes, 57),
                },
            )
        } else {
            Err(LedgerError::MalformedInstruction)
        }
    }
}

} // verus!
