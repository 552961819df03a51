use vstd::prelude::*;
use crate::account::AccountView;
use crate::address::DerivedAddress;
use crate::error::LedgerError;
use crate::processor::{
    spec_authorize, spec_create_vesting_schedule, spec_initialize, AccountCreation,
};
use crate::pubkey::Pubkey;
use crate::state::State;
use crate::vesting::Vesting;

verus! {

/// A storage account takes one schedule. Once a schedule with a start date
/// has been written into a storage account of the program, no later request
/// on that account is accepted, whatever schedule it carries and whatever
/// accounts stand beside it: where the administrator stands behind the
/// request it is rejected as a duplicate, and so is the same request made
/// again on the accounts as the first left them.
pub proof fn lemma_slot_written_once(
    program_id: Pubkey,
    accounts: Seq<AccountView>,
    first: Vesting,
    later: Seq<AccountView>,
    second: Vesting,
)
    requires
        accounts[1].owner == program_id,
        first.spec_is_occupied(),
        spec_create_vesting_schedule(program_id, accounts, first) matches Ok(after) && later[1]
            == after[1],
    ensures
        spec_create_vesting_schedule(program_id, later, second) is Err,
        spec_authorize(program_id, later) is Ok ==> spec_create_vesting_schedule(
            program_id,
            later,
            second,
        ) == Err::<Seq<AccountView>, _>(LedgerError::ScheduleAlreadyExists),
        spec_create_vesting_schedule(program_id, accounts, first) matches Ok(after)
            && spec_create_vesting_schedule(program_id, after, second) == Err::<
            Seq<AccountView>,
            _,
        >(LedgerError::ScheduleAlreadyExists),
{
    let after = spec_create_vesting_schedule(program_id, accounts, first).unwrap();
    Vesting::lemma_round_trip(first);
    assert(after[1].data =~= first.spec_encode());
}

/// Only the administrator creates schedules. Where the account in the
/// administrator's place is not the administrator that the configuration
/// record names, the request is rejected as unauthorized.
pub proof fn lemma_other_signer_unauthorized(
    program_id: Pubkey,
    accounts: Seq<AccountView>,
    schedule: Vesting,
)
    requires
        accounts.len() >= 3,
        State::spec_decode(accounts[0].data) matches Some(state) && state.owner != accounts[2].key,
    ensures
        spec_create_vesting_schedule(program_id, accounts, schedule) == Err::<Seq<AccountView>, _>(
            LedgerError::Unauthorized,
        ),
{
}

/// An accepted request changes the storage account's bytes and nothing
/// else, and the schedule reads back from where it was written.
pub proof fn lemma_schedule_reads_back(
    program_id: Pubkey,
    accounts: Seq<AccountView>,
    schedule: Vesting,
)
    requires
        spec_create_vesting_schedule(program_id, accounts, schedule) is Ok,
    ensures
        spec_create_vesting_schedule(program_id, accounts, schedule) matches Ok(after) && {
            &&& after.len() == accounts.len()
            &&& forall|i: int| 0 <= i < accounts.len() && i != 1 ==> after[i] == accounts[i]
            &&& after[1] == AccountView { data: after[1].data, ..accounts[1] }
            &&& after[1].data.len() == accounts[1].data.len()
            &&& Vesting::spec_decode(after[1].data.subrange(0, 32)) == Some(schedule)
            &&& after[1].data.subrange(32, after[1].data.len() as int)
                == accounts[1].data.subrange(32, accounts[1].data.len() as int)
        },
{
    let after = spec_create_vesting_schedule(program_id, accounts, schedule).unwrap();
    Vesting::lemma_round_trip(schedule);
    assert(after[1].data.subrange(0, 32) =~= schedule.spec_encode());
    assert(after[1].data.subrange(32, after[1].data.len() as int) =~= accounts[1].data.subrange(
        32,
        accounts[1].data.len() as int,
    ));
}

/// The configuration account is created once. The account that an accepted
/// `Initialize` asks for stands at the derived address, belongs to the
/// program, holds one configuration record and is funded with the
/// rent-exempt minimum; once an account with that capacity stands there,
/// `Initialize` is rejected.
pub proof fn lemma_initialize_once(
    derived: Option<DerivedAddress>,
    program_id: Pubkey,
    owner: Pubkey,
    accounts: Seq<AccountView>,
    rent_minimum: Option<u64>,
    later_owner: Pubkey,
    later: Seq<AccountView>,
    later_rent_minimum: Option<u64>,
)
    requires
        spec_initialize(derived, program_id, owner, accounts, rent_minimum) matches Ok(creation)
            && later.len() >= 2 && later[1].key == creation.address && later[1].data.len()
            == creation.space,
    ensures
        spec_initialize(derived, program_id, owner, accounts, rent_minimum) matches Ok(creation) && {
            &&& derived matches Some(root) && creation.address == root.address && creation.bump
                == root.bump
            &&& creation.address == accounts[1].key
            &&& creation.owner == program_id
            &&& creation.payer == owner
            &&& creation.space == 64
            &&& rent_minimum == Some(creation.lamports)
        },
        spec_initialize(derived, program_id, later_owner, later, later_rent_minimum) == Err::<
            AccountCreation,
            _,
        >(LedgerError::AlreadyInitialized),
{
}

} // verus!
