//! Resource payloads exchanged with callers: profile and mandate records
//! together with their embedded address, creditor and bank-account parts,
//! and the field-level validation applied before any write is attempted.
pub mod address;
pub mod bank_account;
pub mod creditor;
pub mod mandate;
pub mod status;
pub mod user_profile;
pub mod validation;

pub use address::Address;
pub use bank_account::BankAccount;
pub use creditor::Creditor;
pub use mandate::Mandate;
pub use status::Status;
pub use user_profile::UserProfile;
pub use validation::ValidationErrors;
