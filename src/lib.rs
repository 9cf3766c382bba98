//! Initialization of custodial vault records: the record's binary layout,
//! the ordered validation of an initialization request, and the effect of a
//! successful one on the accounts it names.

pub mod pubkey;
pub mod vault;
pub mod account;
pub mod initialize;

pub use account::{system_program_id, AccountInfo};
pub use initialize::{initialize_vault, plan_reservation, InitializeVault, VaultError};
pub use pubkey::Pubkey;
pub use vault::{discriminator, LayoutError, Vault, DISCRIMINATOR_SIZE, INIT_SPACE, VAULT_SPACE};
