//! Authorization and bookkeeping core of a token-vesting ledger.
//!
//! One administrator-controlled configuration record lives at an address
//! derived from the program's identity; each beneficiary's linear vesting
//! schedule lives in a storage account of its own. Every rule of the ledger
//! is a verified function over plain values: the host hands in the accounts
//! of an invocation and carries out what comes back.

pub mod account;
pub mod address;
pub mod bytes;
pub mod error;
pub mod instruction;
pub mod laws;
pub mod processor;
pub mod pubkey;
pub mod state;
pub mod vesting;

pub use account::Account;
pub use address::DerivedAddress;
pub use error::LedgerError;
pub use instruction::VestingInstruction;
pub use processor::{
    create_vesting_schedule, initialize, initialize_at, process_instruction, AccountCreation,
    Outcome,
};
pub use pubkey::Pubkey;
pub use state::State;
pub use vesting::Vesting;
