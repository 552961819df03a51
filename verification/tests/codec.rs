use borsh::{BorshDeserialize, BorshSerialize};
use token_vesting::bytes::{read_u64, write_u64};
use token_vesting::{LedgerError, Pubkey, State, Vesting, VestingInstruction};

fn key_of(fill: u8) -> Pubkey {
    let mut bytes = [0u8; 32];
    for (i, b) in bytes.iter_mut().enumerate() {
        *b = fill.wrapping_add(i as u8);
    }
    Pubkey::new_from_array(bytes)
}

#[test]
fn u64_is_little_endian() {
    let mut out = Vec::new();
    write_u64(&mut out, 0x0102_0304_0506_0708);
    assert_eq!(out, vec![8, 7, 6, 5, 4, 3, 2, 1]);
    assert_eq!(read_u64(&out, 0), 0x0102_0304_0506_0708);
}

#[test]
fn u64_extremes_round_trip() {
    for v in [0u64, 1, 255, 256, 1_234_567_890, u64::MAX - 1, u64::MAX] {
        let mut out = vec![0xaa];
        write_u64(&mut out, v);
        assert_eq!(out.len(), 9);
        assert_eq!(out[0], 0xaa);
        assert_eq!(&out[1..], &v.to_le_bytes()[..]);
        assert_eq!(read_u64(&out, 1), v);
    }
}

#[test]
fn read_u64_reads_at_offset() {
    let bytes = [9u8, 9, 0xd2, 0x02, 0x96, 0x49, 0, 0, 0, 0, 9];
    assert_eq!(read_u64(&bytes, 2), 1_234_567_890);
}

#[test]
fn pubkey_reads_and_writes_its_bytes() {
    let key = key_of(7);
    let mut out = vec![1u8, 2];
    key.write(&mut out);
    assert_eq!(out.len(), 34);
    assert_eq!(&out[2..], &key.to_bytes()[..]);
    assert_eq!(Pubkey::read(&out, 2), key);
    assert_ne!(Pubkey::read(&out, 1), key);
}

#[test]
fn pubkey_equality_is_by_bytes() {
    let a = key_of(1);
    let mut bytes = a.to_bytes();
    assert_eq!(Pubkey::new_from_array(bytes), a);
    bytes[31] ^= 1;
    assert_ne!(Pubkey::new_from_array(bytes), a);
    assert_eq!(Pubkey::default().to_bytes(), [0u8; 32]);
}

#[test]
fn vesting_encoding_is_exact() {
    let v = Vesting { duration: 86400, amount: 1000, cliff: 3600, start_date: 1_234_567_890 };
    let expected: Vec<u8> = vec![
        0x80, 0x51, 0x01, 0, 0, 0, 0, 0, 0xe8, 0x03, 0, 0, 0, 0, 0, 0, 0x10, 0x0e, 0, 0, 0, 0, 0,
        0, 0xd2, 0x02, 0x96, 0x49, 0, 0, 0, 0,
    ];
    assert_eq!(v.encode(), expected);
    assert_eq!(Vesting::decode(&expected), Some(v));
}

#[test]
fn vesting_round_trip() {
    let values = [
        Vesting { duration: 0, amount: 0, cliff: 0, start_date: 0 },
        Vesting { duration: 86400, amount: 1000, cliff: 3600, start_date: 1_234_567_890 },
        Vesting { duration: u64::MAX, amount: u64::MAX, cliff: u64::MAX, start_date: u64::MAX },
        Vesting { duration: 1, amount: 1 << 63, cliff: 0x0102_0304_0506_0708, start_date: 255 },
    ];
    for v in values {
        let bytes = v.encode();
        assert_eq!(bytes.len(), 32);
        assert_eq!(Vesting::decode(&bytes), Some(v));
    }
}

#[test]
fn vesting_matches_borsh() {
    let v = Vesting { duration: 86400, amount: 1000, cliff: 3600, start_date: 1_234_567_890 };
    let by_borsh = (v.duration, v.amount, v.cliff, v.start_date).try_to_vec().unwrap();
    assert_eq!(v.encode(), by_borsh);
    let back = <(u64, u64, u64, u64)>::try_from_slice(&v.encode()).unwrap();
    assert_eq!(back, (86400, 1000, 3600, 1_234_567_890));
}

#[test]
fn vesting_decode_wants_exactly_32_bytes() {
    assert_eq!(Vesting::decode(&[]), None);
    assert_eq!(Vesting::decode(&[0u8; 31]), None);
    assert_eq!(Vesting::decode(&[0u8; 33]), None);
    let empty = Vesting::decode(&[0u8; 32]).unwrap();
    assert_eq!(empty, Vesting { duration: 0, amount: 0, cliff: 0, start_date: 0 });
    assert!(!empty.is_occupied());
}

#[test]
fn vesting_is_occupied_by_start_date() {
    assert!(Vesting { duration: 0, amount: 0, cliff: 0, start_date: 1 }.is_occupied());
    assert!(!Vesting { duration: 9, amount: 9, cliff: 9, start_date: 0 }.is_occupied());
}

#[test]
fn vesting_write_appends() {
    let v = Vesting { duration: 1, amount: 2, cliff: 3, start_date: 4 };
    let mut out = vec![0xffu8];
    v.write(&mut out);
    assert_eq!(out.len(), 33);
    assert_eq!(out[0], 0xff);
    assert_eq!(&out[1..], &v.encode()[..]);
}

#[test]
fn state_encoding_is_owner_then_token() {
    let state = State { owner: key_of(1), token: key_of(100) };
    let bytes = state.encode();
    assert_eq!(bytes.len(), 64);
    assert_eq!(bytes.len(), std::mem::size_of::<State>());
    assert_eq!(&bytes[..32], &key_of(1).to_bytes()[..]);
    assert_eq!(&bytes[32..], &key_of(100).to_bytes()[..]);
    assert_eq!(State::decode(&bytes), Some(state));
}

#[test]
fn state_matches_borsh() {
    let state = State { owner: key_of(3), token: key_of(200) };
    let by_borsh = (state.owner.to_bytes(), state.token.to_bytes()).try_to_vec().unwrap();
    assert_eq!(state.encode(), by_borsh);
}

#[test]
fn state_decode_wants_exactly_64_bytes() {
    assert_eq!(State::decode(&[]), None);
    assert_eq!(State::decode(&[0u8; 63]), None);
    assert_eq!(State::decode(&[0u8; 65]), None);
    assert_eq!(
        State::decode(&[0u8; 64]),
        Some(State { owner: Pubkey::default(), token: Pubkey::default() })
    );
}

#[test]
fn instruction_initialize_layout() {
    let owner = key_of(5);
    let bytes = VestingInstruction::Initialize { owner }.encode();
    assert_eq!(bytes.len(), 33);
    assert_eq!(bytes[0], 0);
    assert_eq!(&bytes[1..], &owner.to_bytes()[..]);
    assert_eq!(bytes, (0u8, owner.to_bytes()).try_to_vec().unwrap());
    assert_eq!(VestingInstruction::decode(&bytes), Ok(VestingInstruction::Initialize { owner }));
}

#[test]
fn instruction_create_layout() {
    let user = key_of(9);
    let instruction = VestingInstruction::CreateVestingSchedule {
        user,
        amount: 1000,
        start_date: 1_234_567_890,
        cliff: 3600,
        duration: 86400,
    };
    let bytes = instruction.encode();
    assert_eq!(bytes.len(), 65);
    assert_eq!(bytes[0], 1);
    assert_eq!(&bytes[1..33], &user.to_bytes()[..]);
    assert_eq!(&bytes[33..41], &1000u64.to_le_bytes()[..]);
    assert_eq!(&bytes[41..49], &1_234_567_890u64.to_le_bytes()[..]);
    assert_eq!(&bytes[49..57], &3600u64.to_le_bytes()[..]);
    assert_eq!(&bytes[57..65], &86400u64.to_le_bytes()[..]);
    let by_borsh =
        (1u8, user.to_bytes(), 1000u64, 1_234_567_890u64, 3600u64, 86400u64).try_to_vec().unwrap();
    assert_eq!(bytes, by_borsh);
    assert_eq!(VestingInstruction::decode(&bytes), Ok(instruction));
}

#[test]
fn instruction_decode_rejects_malformed() {
    let malformed = Err(LedgerError::MalformedInstruction);
    assert_eq!(VestingInstruction::decode(&[]), malformed);
    assert_eq!(VestingInstruction::decode(&[0]), malformed);
    assert_eq!(VestingInstruction::decode(&[1]), malformed);
    // Unknown tag, with either known length.
    let mut bytes = vec![2u8];
    bytes.extend_from_slice(&[0u8; 32]);
    assert_eq!(VestingInstruction::decode(&bytes), malformed);
    bytes.extend_from_slice(&[0u8; 32]);
    assert_eq!(VestingInstruction::decode(&bytes), malformed);
    // Known tags with the other one's length, one byte short, one byte over.
    let initialize = VestingInstruction::Initialize { owner: key_of(1) }.encode();
    let create = VestingInstruction::CreateVestingSchedule {
        user: key_of(1),
        amount: 1,
        start_date: 2,
        cliff: 3,
        duration: 4,
    }
    .encode();
    let mut swapped = initialize.clone();
    swapped[0] = 1;
    assert_eq!(VestingInstruction::decode(&swapped), malformed);
    let mut swapped = create.clone();
    swapped[0] = 0;
    assert_eq!(VestingInstruction::decode(&swapped), malformed);
    assert_eq!(VestingInstruction::decode(&initialize[..32]), malformed);
    assert_eq!(VestingInstruction::decode(&create[..64]), malformed);
    let mut over = initialize.clone();
    over.push(0);
    assert_eq!(VestingInstruction::decode(&over), malformed);
    let mut over = create.clone();
    over.push(0);
    assert_eq!(VestingInstruction::decode(&over), malformed);
}

#[test]
fn instruction_round_trip() {
    let values = [
        VestingInstruction::Initialize { owner: Pubkey::default() },
        VestingInstruction::Initialize { owner: key_of(250) },
        VestingInstruction::CreateVestingSchedule {
            user: key_of(17),
            amount: u64::MAX,
            start_date: 0,
            cliff: 1,
            duration: 1 << 40,
        },
    ];
    for v in values {
        assert_eq!(VestingInstruction::decode(&v.encode()), Ok(v));
    }
}
