use vstd::prelude::*;
use crate::account::{account_views, Account, AccountView};
use crate::address::DerivedAddress;
use crate::error::LedgerError;
use crate::instruction::VestingInstruction;
use crate::pubkey::Pubkey;
use crate::state::{State, STATE_SIZE};
use crate::vesting::{Vesting, VESTING_SIZE};

verus! {

/// A request to the host: create the configuration account. The program
/// authorizes it for the address with the configuration seed and `bump`.
#[derive(Clone, Copy, Debug, PartialEq, Eq)]
pub struct AccountCreation {
    /// Who funds the account.
    pub payer: Pubkey,
    /// Where the account is created.
    pub address: Pubkey,
    /// The bump that completes the seeds of `address`.
    pub bump: u8,
    /// The balance to give the account.
    pub lamports: u64,
    /// The capacity of the account, in bytes.
    pub space: u64,
    /// The program that is to own the account.
    pub owner: Pubkey,
}

/// What an accepted instruction leaves to be done.
#[derive(Clone, Copy, Debug, PartialEq, Eq)]
pub enum Outcome {
    /// The host is to create the configuration account.
    CreateAccount(AccountCreation),
    /// The schedule stands in the storage account; nothing is left to do.
    ScheduleWritten,
}

/// Position of the funding account in the accounts of `Initialize`.
pub const INITIALIZE_PAYER: usize = 0;

/// Position of the configuration account in the accounts of `Initialize`.
pub const INITIALIZE_CONFIG: usize = 1;

/// Position of the configuration account in the accounts of
/// `CreateVestingSchedule`.
pub const CREATE_CONFIG: usize = 0;

/// Position of the storage account in the accounts of
/// `CreateVestingSchedule`.
pub const CREATE_STORAGE: usize = 1;

/// Position of the administrator in the accounts of `CreateVestingSchedule`.
pub const CREATE_ADMINISTRATOR: usize = 2;

/// What `Initialize` comes to. The configuration account must stand at the
/// derived address and have no capacity yet; the account to create is funded
/// with the rent-exempt minimum by `owner`, holds one configuration record
/// and belongs to the program.
pub open spec fn spec_initialize(
    derived: Option<DerivedAddress>,
    program_id: Pubkey,
    owner: Pubkey,
    accounts: Seq<AccountView>,
    rent_minimum: Option<u64>,
) -> Result<AccountCreation, LedgerError> {
    if accounts.len() < 2 {
        Err(LedgerError::NotEnoughAccountKeys)
    } else if derived is None || derived.unwrap().address != accounts[1].key {
        Err(LedgerError::InvalidConfigurationAddress)
    } else if accounts[1].data.len() != 0 {
        Err(LedgerError::AlreadyInitialized)
    } else if rent_minimum is None {
        Err(LedgerError::RentLookupFailed)
    } else {
        Ok(
            AccountCreation {
                payer: owner,
                address: derived.unwrap().address,
                bump: derived.unwrap().bump,
                lamports: rent_minimum.unwrap(),
                space: 64,
                owner: program_id,
            },
        )
    }
}

/// Whether the administrator of the ledger stands behind a request: the
/// configuration account belongs to the program, its record decodes, and the
/// administrator it names is the account that signed.
pub open spec fn spec_authorize(program_id: Pubkey, accounts: Seq<AccountView>) -> Result<
    (),
    LedgerError,
> {
    if accounts.len() < 3 {
        Err(LedgerError::NotEnoughAccountKeys)
    } else if accounts[0].owner != program_id || !accounts[2].is_signer {
        Err(LedgerError::Unauthorized)
    } else {
        match State::spec_decode(accounts[0].data) {
            None => Err(LedgerError::InvalidConfigurationData),
            Some(state) => if state.owner != accounts[2].key {
                Err(LedgerError::Unauthorized)
            } else {
                Ok(())
            },
        }
    }
}

/// Whether a storage account can take a schedule. One that the program owns
/// must hold an unused slot; any must have room for a schedule.
pub open spec fn spec_slot(program_id: Pubkey, storage: AccountView) -> Result<(), LedgerError> {
    if storage.owner == program_id {
        match Vesting::spec_decode(storage.data) {
            None => Err(LedgerError::InvalidAccountData),
            Some(existing) => if existing.spec_is_occupied() {
                Err(LedgerError::ScheduleAlreadyExists)
            } else {
                Ok(())
            },
        }
    } else if storage.data.len() < 32 {
        Err(LedgerError::InvalidAccountData)
    } else {
        Ok(())
    }
}

/// What `CreateVestingSchedule` comes to: the accounts as they stand
/// afterwards. Only the bytes of the storage account change, and only where
/// the schedule is written.
pub open spec fn spec_create_vesting_schedule(
    program_id: Pubkey,
    accounts: Seq<AccountView>,
    schedule: Vesting,
) -> Result<Seq<AccountView>, LedgerError> {
    match spec_authorize(program_id, accounts) {
        Err(e) => Err(e),
        Ok(_) => match spec_slot(program_id, accounts[1]) {
            Err(e) => Err(e),
            Ok(_) => Ok(accounts.update(1, accounts[1].with_prefix(schedule.spec_encode()))),
        },
    }
}

/// What an invocation comes to: what is left to be done, and the accounts
/// as they stand afterwards.
pub open spec fn spec_process_instruction(
    derived: Option<DerivedAddress>,
    program_id: Pubkey,
    accounts: Seq<AccountView>,
    instruction_data: Seq<u8>,
    rent_minimum: Option<u64>,
) -> Result<(Outcome, Seq<AccountView>), LedgerError> {
    match VestingInstruction::spec_decode(instruction_data) {
        Err(e) => Err(e),
        Ok(VestingInstruction::Initialize { owner }) => match spec_initialize(
            derived,
            program_id,
            owner,
            accounts,
            rent_minimum,
        ) {
            Err(e) => Err(e),
            Ok(creation) => Ok((Outcome::CreateAccount(creation), accounts)),
        },
        Ok(VestingInstruction::CreateVestingSchedule { user, amount, start_date, cliff, duration }) =>
            match spec_create_vesting_schedule(
            program_id,
            accounts,
            Vesting { duration, amount, cliff, start_date },
        ) {
            Err(e) => Err(e),
            Ok(after) => Ok((Outcome::ScheduleWritten, after)),
        },
    }
}

/// `Initialize`, for a configuration address that has been derived already.
pub fn initialize_at(
    derived: Option<DerivedAddress>,
    program_id: &Pubkey,
    owner: Pubkey,
    accounts: &Vec<Account>,
    rent_minimum: Option<u64>,
) -> (r: Result<AccountCreation, LedgerError>)
    ensures
        r == spec_initialize(derived, *program_id, owner, account_views(accounts@), rent_minimum),
{
    if accounts.len() < 2 {
        return Err(LedgerError::NotEnoughAccountKeys);
    }
    let config = &accounts[INITIALIZE_CONFIG];
    let root = match derived {
        Some(root) => root,
        None => {
            return Err(LedgerError::InvalidConfigurationAddress);
        },
    };
    if root.address != config.key {
        return Err(LedgerError::InvalidConfigurationAddress);
    }
    if config.data.len() != 0 {
        return Err(LedgerError::AlreadyInitialized);
    }
    let lamports = match rent_minimum {
        Some(lamports) => lamports,
        None => {
            return Err(LedgerError::RentLookupFailed);
        },
    };
    Ok(
        AccountCreation {
            payer: owner,
            address: root.address,
            bump: root.bump,
            lamports,
            space: STATE_SIZE as u64,
            owner: *program_id,
        },
    )
}

/// `Initialize`: asks for the configuration account of the program to be
/// created. `rent_minimum` is the balance that exempts an account of
/// `STATE_SIZE` bytes from rent, or `None` if the host could not tell.
pub fn initialize(
    program_id: &Pubkey,
    owner: Pubkey,
    accounts: &Vec<Account>,
    rent_minimum: Option<u64>,
) -> (r: Result<AccountCreation, LedgerError>)
    ensures
        r == spec_initialize(
            DerivedAddress::spec_config(*program_id),
            *program_id,
            owner,
            account_views(accounts@),
            rent_minimum,
        ),
{
    let derived = DerivedAddress::config(program_id);
    initialize_at(derived, program_id, owner, accounts, rent_minimum)
}

/// `CreateVestingSchedule`: writes the schedule of `user` into the storage
/// account, once, on the administrator's word. A rejected request writes
/// nothing; one whose signer is not the administrator that the configuration
/// record names is rejected as unauthorized.
#[allow(unused_variables)]
pub fn create_vesting_schedule(
    program_id: &Pubkey,
    accounts: &mut Vec<Account>,
    user: Pubkey,
    amount: u64,
    start_date: u64,
    cliff: u64,
    duration: u64,
) -> (r: Result<(), LedgerError>)
    ensures
        match r {
            Ok(_) => spec_create_vesting_schedule(
                *program_id,
                account_views(old(accounts)@),
                Vesting { duration, amount, cliff, start_date },
            ) == Ok::<_, LedgerError>(account_views(final(accounts)@)),
            Err(e) => spec_create_vesting_schedule(
                *program_id,
                account_views(old(accounts)@),
                Vesting { duration, amount, cliff, start_date },
            ) == Err::<Seq<AccountView>, _>(e) && *final(accounts) == *old(accounts),
        },
        old(accounts)@.len() >= 3 && (State::spec_decode(old(accounts)@[0]@.data) matches Some(
            state,
        ) && state.owner != old(accounts)@[2].key) ==> r == Err::<(), _>(LedgerError::Unauthorized)
            && *final(accounts) == *old(accounts),
{
    if accounts.len() < 3 {
        return Err(LedgerError::NotEnoughAccountKeys);
    }
    if accounts[CREATE_CONFIG].owner != *program_id || !accounts[CREATE_ADMINISTRATOR].is_signer {
        return Err(LedgerError::Unauthorized);
    }
    let state = match State::decode(accounts[CREATE_CONFIG].data.as_slice()) {
        Some(state) => state,
        None => {
            return Err(LedgerError::InvalidConfigurationData);
        },
    };
    if state.owner != accounts[CREATE_ADMINISTRATOR].key {
        return Err(LedgerError::Unauthorized);
    }
    if accounts[CREATE_STORAGE].owner == *program_id {
        match Vesting::decode(accounts[CREATE_STORAGE].data.as_slice()) {
            Some(existing) => {
                if existing.is_occupied() {
                    return Err(LedgerError::ScheduleAlreadyExists);
                }
            },
            None => {
                return Err(LedgerError::InvalidAccountData);
            },
        }
    }
    if accounts[CREATE_STORAGE].data.len() < VESTING_SIZE {
        return Err(LedgerError::InvalidAccountData);
    }
    let schedule = Vesting { duration, amount, cliff, start_date };
    let encoded = schedule.encode();
    proof {
        Vesting::lemma_round_trip(schedule);
    }
    accounts[CREATE_STORAGE].write_prefix(encoded.as_slice());
    assert(account_views(accounts@) =~= account_views(old(accounts)@).update(
        1,
        old(accounts)@[1]@.with_prefix(schedule.spec_encode()),
    ));
    Ok(())
}

/// Carries out one invocation of the program `program_id`: decodes the
/// instruction and performs the operation that it selects on `accounts`,
/// whose roles go by position. `rent_minimum` is the balance that exempts an
/// account of `STATE_SIZE` bytes from rent, or `None` if the host could not
/// tell; only `Initialize` looks at it. A rejected invocation leaves the
/// accounts as they were.
pub fn process_instruction(
    program_id: &Pubkey,
    accounts: &mut Vec<Account>,
    instruction_data: &[u8],
    rent_minimum: Option<u64>,
) -> (r: Result<Outcome, LedgerError>)
    ensures
        match r {
            Ok(outcome) => spec_process_instruction(
                DerivedAddress::spec_config(*program_id),
                *program_id,
                account_views(old(accounts)@),
                instruction_data@,
                rent_minimum,
            ) == Ok::<_, LedgerError>((outcome, account_views(final(accounts)@))),
            Err(e) => spec_process_instruction(
                DerivedAddress::spec_config(*program_id),
                *program_id,
                account_views(old(accounts)@),
                instruction_data@,
                rent_minimum,
            ) == Err::<(Outcome, Seq<AccountView>), _>(e) && *final(accounts) == *old(accounts),
        },
{
    let instruction = match VestingInstruction::decode(instruction_data) {
        Ok(instruction) => instruction,
        Err(e) => {
            return Err(e);
        },
    };
    match instruction {
        VestingInstruction::Initialize { owner } => {
            match initialize(program_id, owner, accounts, rent_minimum) {
                Ok(creation) => Ok(Outcome::CreateAccount(creation)),
                Err(e) => Err(e),
            }
        },
        VestingInstruction::CreateVestingSchedule { user, amount, start_date, cliff, duration } => {
            match create_vesting_schedule(
                program_id,
                accounts,
                user,
                amount,
                start_date,
                cliff,
                duration,
            ) {
                Ok(_) => Ok(Outcome::ScheduleWritten),
                Err(e) => Err(e),
            }
        },
    }
}

impl Outcome {
    /// How the invocation ends once the host has answered: a creation that
    /// the host could not carry out fails the invocation.
    pub open spec fn spec_conclude(self, host_succeeded: bool) -> Result<(), LedgerError> {
        match self {
            Outcome::CreateAccount(_) => if host_succeeded {
                Ok(())
            } else {
                Err(LedgerError::AccountCreationFailed)
            },
            Outcome::ScheduleWritten => Ok(()),
        }
    }

    /// Ends the invocation. `host_succeeded` says whether the host carried
    /// out what was asked of it; where nothing was asked, it does not count.
    pub fn conclude(&self, host_succeeded: bool) -> (r: Result<(), LedgerError>)
        ensures
            r == self.spec_conclude(host_succeeded),
    {
        match self {
            Outcome::CreateAccount(_) => {
                if host_succeeded {
                    Ok(())
                } else {
                    Err(LedgerError::AccountCreationFailed)
                }
            },
            Outcome::ScheduleWritten => Ok(()),
        }
    }
}

} // verus!
