use vstd::prelude::*;
use crate::account::{system_program_id, system_program_key, AccountInfo, AccountView};
use crate::pubkey::Pubkey;
use crate::vault::{has_vault_header, Vault, DISCRIMINATOR_SIZE, INIT_SPACE, VAULT_SPACE};

verus! {

/// The accounts named by a vault initialization request.
///
/// `vault` is the slot that becomes the record, `token_account` the
/// token-holding account whose identity is recorded, `authority` the signer
/// recorded as the vault's authority, and `payer` the signer whose balance
/// funds the storage. Only `vault` and `payer` are written.
#[derive(Debug)]
pub struct InitializeVault {
    pub vault: AccountInfo,
    pub token_account: AccountInfo,
    pub authority: AccountInfo,
    pub payer: AccountInfo,
}

/// The mathematical value of an [`InitializeVault`].
pub struct InitializeVaultView {
    pub vault: AccountView,
    pub token_account: AccountView,
    pub authority: AccountView,
    pub payer: AccountView,
}

impl View for InitializeVault {
    type V = InitializeVaultView;

    open spec fn view(&self) -> InitializeVaultView {
        InitializeVaultView {
            vault: self.vault@,
            token_account: self.token_account@,
            authority: self.authority@,
            payer: self.payer@,
        }
    }
}

/// Why an initialization request was rejected. Every rejection leaves the
/// accounts as they were.
#[derive(Clone, Copy, Debug, PartialEq, Eq, Structural)]
pub enum VaultError {
    /// The slot already holds a vault record of this program.
    AlreadyInitialized,
    /// The authority or the payer did not sign the request.
    MissingSignature,
    /// The slot or the payer was not handed in as writable.
    AccountNotWritable,
    /// The payer cannot fund the storage.
    InsufficientFunds,
    /// The slot's address is in use by other data or by the payer.
    AddressCollision,
}

/// Whether `acc` holds a vault record owned by `program_id`.
pub open spec fn is_vault_record(acc: AccountView, program_id: Pubkey) -> bool {
    acc.owner@ == program_id@ && has_vault_header(acc.data)
}

/// What the payer must move to the slot so that it holds `rent_minimum`:
/// nothing when the slot already holds at least that much.
pub open spec fn reservation_cost(vault_lamports: u64, rent_minimum: u64) -> u64 {
    if rent_minimum > vault_lamports {
        (rent_minimum - vault_lamports) as u64
    } else {
        0
    }
}

/// Whether the slot's address cannot be allocated: it is the payer's own
/// address, or it already holds data or belongs to a program.
pub open spec fn is_occupied(vault: AccountView, payer: AccountView) -> bool {
    ||| vault.key@ == payer.key@
    ||| vault.data.len() > 0
    ||| vault.owner@ != system_program_key()
}

/// The outcome of validating a request, checked in this order; on success,
/// the amount the payer funds.
pub open spec fn validation(
    program_id: Pubkey,
    ix: InitializeVaultView,
    rent_minimum: u64,
) -> Result<u64, VaultError> {
    let cost = reservation_cost(ix.vault.lamports, rent_minimum);
    if is_vault_record(ix.vault, program_id) {
        Err(VaultError::AlreadyInitialized)
    } else if !ix.authority.is_signer || !ix.payer.is_signer {
        Err(VaultError::MissingSignature)
    } else if !ix.vault.is_writable || !ix.payer.is_writable {
        Err(VaultError::AccountNotWritable)
    } else if ix.payer.lamports < cost {
        Err(VaultError::InsufficientFunds)
    } else if is_occupied(ix.vault, ix.payer) {
        Err(VaultError::AddressCollision)
    } else {
        Ok(cost)
    }
}

/// The record that a request stores.
pub open spec fn requested_record(ix: InitializeVaultView) -> Vault {
    Vault { token_account: ix.token_account.key, authority: ix.authority.key }
}

/// The accounts after a successful request: the slot is funded up to
/// `rent_minimum` from the payer, owned by `program_id`, and holds exactly
/// the stored form of the requested record.
pub open spec fn initialized(
    program_id: Pubkey,
    ix: InitializeVaultView,
    rent_minimum: u64,
) -> InitializeVaultView {
    let cost = reservation_cost(ix.vault.lamports, rent_minimum);
    InitializeVaultView {
        vault: AccountView {
            owner: program_id,
            lamports: (ix.vault.lamports + cost) as u64,
            data: requested_record(ix).spec_bytes(),
            ..ix.vault
        },
        payer: AccountView { lamports: (ix.payer.lamports - cost) as u64, ..ix.payer },
        ..ix
    }
}

/// Validates a request without changing anything. On success returns the
/// amount that the payer must move to the slot, which is then allocated with
/// [`VAULT_SPACE`] bytes and assigned to `program_id`.
pub fn plan_reservation(
    program_id: &Pubkey,
    accounts: &InitializeVault,
    rent_minimum: u64,
) -> (r: Result<u64, VaultError>)
    ensures
        r == validation(*program_id, accounts@, rent_minimum),
{
    let vault = &accounts.vault;
    let payer = &accounts.payer;
    if vault.owner == *program_id && holds_vault_header(&vault.data) {
        return Err(VaultError::AlreadyInitialized);
    }
    if !accounts.authority.is_signer || !payer.is_signer {
        return Err(VaultError::MissingSignature);
    }
    if !vault.is_writable || !payer.is_writable {
        return Err(VaultError::AccountNotWritable);
    }
    let cost: u64 = if rent_minimum > vault.lamports {
        rent_minimum - vault.lamports
    } else {
        0
    };
    if payer.lamports < cost {
        return Err(VaultError::InsufficientFunds);
    }
    let system = system_program_id();
    if vault.key == payer.key || vault.data.len() > 0 || vault.owner != system {
        return Err(VaultError::AddressCollision);
    }
    Ok(cost)
}

/// Whether `data` starts with the vault header.
fn holds_vault_header(data: &Vec<u8>) -> (r: bool)
    ensures
        r == has_vault_header(data@),
{
    match Vault::try_deserialize(data.as_slice()) {
        Ok(_) => true,
        Err(e) => e == crate::vault::LayoutError::DidNotDeserialize,
    }
}

/// Creates the vault record at `accounts.vault`: validates the request, moves
/// the reservation cost from the payer to the slot, assigns the slot to
/// `program_id` and stores the record of `token_account` and `authority` in
/// it. A rejected request changes nothing.
pub fn initialize_vault(
    program_id: &Pubkey,
    accounts: &mut InitializeVault,
    rent_minimum: u64,
) -> (r: Result<(), VaultError>)
    ensures
        match validation(*program_id, old(accounts)@, rent_minimum) {
            Ok(_) => r is Ok && final(accounts)@ == initialized(
                *program_id,
                old(accounts)@,
                rent_minimum,
            ),
            Err(e) => r == Err::<(), VaultError>(e) && final(accounts)@ == old(accounts)@,
        },
{
    let cost = match plan_reservation(program_id, accounts, rent_minimum) {
        Ok(c) => c,
        Err(e) => return Err(e),
    };
    let record = Vault { token_account: accounts.token_account.key, authority: accounts.authority.key };
    accounts.payer.lamports = accounts.payer.lamports - cost;
    accounts.vault.lamports = accounts.vault.lamports + cost;
    accounts.vault.owner = *program_id;
    accounts.vault.data = record.try_serialize();
    Ok(())
}

/// A slot that one request has initialized rejects every later request for
/// it with `AlreadyInitialized`, whatever the other accounts and the rent of
/// that later request are.
pub proof fn lemma_initialize_once(
    program_id: Pubkey,
    first: InitializeVaultView,
    rent_minimum: u64,
    second: InitializeVaultView,
    second_rent_minimum: u64,
)
    requires
        validation(program_id, first, rent_minimum) is Ok,
        second.vault == initialized(program_id, first, rent_minimum).vault,
    ensures
        validation(program_id, second, second_rent_minimum) == Err::<u64, VaultError>(
            VaultError::AlreadyInitialized,
        ),
{
    crate::vault::lemma_parse_bytes(requested_record(first));
}

/// After a successful request the slot reads back as the record of the
/// token account and the authority that were handed in, and holds nothing
/// beyond that record.
pub proof fn lemma_field_fidelity(program_id: Pubkey, ix: InitializeVaultView, rent_minimum: u64)
    requires
        validation(program_id, ix, rent_minimum) is Ok,
    ensures
        Vault::spec_parse(initialized(program_id, ix, rent_minimum).vault.data) == Ok::<
            (Seq<u8>, Seq<u8>),
            crate::vault::LayoutError,
        >((ix.token_account.key@, ix.authority.key@)),
        initialized(program_id, ix, rent_minimum).vault.data.len() == VAULT_SPACE,
{
    crate::vault::lemma_parse_bytes(requested_record(ix));
}

/// A request that the authority or the payer did not sign is rejected, so it
/// stores no record.
pub proof fn lemma_signatures_required(
    program_id: Pubkey,
    ix: InitializeVaultView,
    rent_minimum: u64,
)
    requires
        !ix.authority.is_signer || !ix.payer.is_signer,
    ensures
        validation(program_id, ix, rent_minimum) is Err,
        !is_vault_record(ix.vault, program_id) ==> validation(program_id, ix, rent_minimum)
            == Err::<u64, VaultError>(VaultError::MissingSignature),
{
}

/// The storage of a new record is exactly the header and the two identity
/// fields.
pub proof fn lemma_exact_sizing(program_id: Pubkey, ix: InitializeVaultView, rent_minimum: u64)
    requires
        validation(program_id, ix, rent_minimum) is Ok,
    ensures
        initialized(program_id, ix, rent_minimum).vault.data.len() == DISCRIMINATOR_SIZE
            + INIT_SPACE,
        VAULT_SPACE == DISCRIMINATOR_SIZE + INIT_SPACE,
        INIT_SPACE == 2 * crate::pubkey::PUBKEY_BYTES,
{
    crate::vault::lemma_parse_bytes(requested_record(ix));
}

/// A request whose payer holds less than the reservation cost is rejected
/// with `InsufficientFunds` once the slot is free of a record and the
/// request is signed and writable as required.
pub proof fn lemma_funding_gate(program_id: Pubkey, ix: InitializeVaultView, rent_minimum: u64)
    requires
        !is_vault_record(ix.vault, program_id),
        ix.authority.is_signer,
        ix.payer.is_signer,
        ix.vault.is_writable,
        ix.payer.is_writable,
        ix.payer.lamports < reservation_cost(ix.vault.lamports, rent_minimum),
    ensures
        validation(program_id, ix, rent_minimum) == Err::<u64, VaultError>(
            VaultError::InsufficientFunds,
        ),
{
}

} // verus!
