use vstd::prelude::*;

verus! {

/// Why an invocation was rejected. An invocation fails with exactly one kind.
#[derive(Clone, Copy, Debug, PartialEq, Eq, Structural)]
pub enum LedgerError {
    /// The instruction bytes do not follow the tag-plus-fields layout.
    MalformedInstruction,
    /// The account list is shorter than the operation's roles.
    NotEnoughAccountKeys,
    /// The administrator did not sign, or is not the stored administrator.
    Unauthorized,
    /// The storage account for the configuration is not at the derived address.
    InvalidConfigurationAddress,
    /// The configuration account's bytes are not a configuration record.
    InvalidConfigurationData,
    /// The storage account's bytes are not a vesting schedule.
    InvalidAccountData,
    /// The configuration account has been allocated before.
    AlreadyInitialized,
    /// The storage account already holds a schedule.
    ScheduleAlreadyExists,
    /// The host could not create the configuration account.
    AccountCreationFailed,
    /// The host could not say what a rent-exempt balance is.
    RentLookupFailed,
}

} // verus!
