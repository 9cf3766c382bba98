use clone_vault::{
    discriminator, initialize_vault, plan_reservation, system_program_id, AccountInfo,
    InitializeVault, LayoutError, Pubkey, Vault, VaultError, DISCRIMINATOR_SIZE, INIT_SPACE,
    VAULT_SPACE,
};

const RENT: u64 = 1_461_600;

fn key(b: u8) -> Pubkey {
    Pubkey::new_from_array([b; 32])
}

fn program() -> Pubkey {
    key(0xAA)
}

fn account(k: Pubkey, lamports: u64, signer: bool, writable: bool) -> AccountInfo {
    AccountInfo {
        key: k,
        owner: system_program_id(),
        lamports,
        data: Vec::new(),
        is_signer: signer,
        is_writable: writable,
    }
}

fn fresh_request(vault: u8, token: u8, authority: u8, payer_funds: u64) -> InitializeVault {
    InitializeVault {
        vault: account(key(vault), 0, true, true),
        token_account: account(key(token), 2_039_280, false, false),
        authority: account(key(authority), payer_funds, true, true),
        payer: account(key(authority), payer_funds, true, true),
    }
}

fn snapshot(a: &AccountInfo) -> (Pubkey, Pubkey, u64, Vec<u8>, bool, bool) {
    (a.key, a.owner, a.lamports, a.data.clone(), a.is_signer, a.is_writable)
}

#[test]
fn layout_sizes() {
    assert_eq!(DISCRIMINATOR_SIZE, 8);
    assert_eq!(INIT_SPACE, 64);
    assert_eq!(VAULT_SPACE, 72);
    assert_eq!(VAULT_SPACE, DISCRIMINATOR_SIZE + INIT_SPACE);
}

#[test]
fn discriminator_is_hash_of_account_name() {
    let digest = anchor_lang::solana_program::hash::hash(b"account:Vault").to_bytes();
    assert_eq!(discriminator().to_vec(), digest[..8].to_vec());
}

#[test]
fn serialize_writes_header_then_fields() {
    let v = Vault { token_account: key(1), authority: key(2) };
    let bytes = v.try_serialize();
    assert_eq!(bytes.len(), 72);
    assert_eq!(bytes[..8].to_vec(), discriminator().to_vec());
    assert!(bytes[8..40].iter().all(|b| *b == 1));
    assert!(bytes[40..72].iter().all(|b| *b == 2));
}

#[test]
fn deserialize_round_trip_ignores_trailing_bytes() {
    let v = Vault { token_account: key(3), authority: key(4) };
    let mut bytes = v.try_serialize();
    let back = Vault::try_deserialize(&bytes).unwrap();
    assert_eq!(back.token_account, key(3));
    assert_eq!(back.authority, key(4));
    bytes.extend_from_slice(&[9, 9, 9]);
    let again = Vault::try_deserialize(&bytes).unwrap();
    assert_eq!(again.token_account, key(3));
    assert_eq!(again.authority, key(4));
}

#[test]
fn deserialize_errors() {
    assert_eq!(Vault::try_deserialize(&[]).unwrap_err(), LayoutError::DiscriminatorNotFound);
    assert_eq!(
        Vault::try_deserialize(&discriminator()[..7]).unwrap_err(),
        LayoutError::DiscriminatorNotFound
    );
    let mut wrong = Vault { token_account: key(1), authority: key(2) }.try_serialize();
    wrong[3] ^= 1;
    assert_eq!(Vault::try_deserialize(&wrong).unwrap_err(), LayoutError::DiscriminatorMismatch);
    let mut short = discriminator().to_vec();
    short.extend_from_slice(&[0u8; 63]);
    assert_eq!(Vault::try_deserialize(&short).unwrap_err(), LayoutError::DidNotDeserialize);
}

#[test]
fn pubkey_equality_and_bytes() {
    assert_eq!(key(5), key(5));
    assert_ne!(key(5), key(6));
    let mut b = [5u8; 32];
    b[31] = 6;
    assert_ne!(Pubkey::new_from_array(b), key(5));
    assert_eq!(Pubkey::new_from_array(b).to_bytes(), b);
    assert_eq!(system_program_id().to_bytes(), [0u8; 32]);
}

#[test]
fn scenario_initialize_once_then_already_initialized() {
    let mut ix = fresh_request(0x56, 0x54, 0x41, 10_000_000);
    assert_eq!(initialize_vault(&program(), &mut ix, RENT), Ok(()));
    let stored = Vault::try_deserialize(&ix.vault.data).unwrap();
    assert_eq!(stored.token_account, key(0x54));
    assert_eq!(stored.authority, key(0x41));
    assert_eq!(ix.vault.data.len(), 72);
    assert_eq!(ix.vault.owner, program());
    assert_eq!(ix.vault.lamports, RENT);
    assert_eq!(ix.payer.lamports, 10_000_000 - RENT);

    let before = snapshot(&ix.vault);
    ix.token_account = account(key(0x99), 0, false, false);
    assert_eq!(initialize_vault(&program(), &mut ix, RENT), Err(VaultError::AlreadyInitialized));
    assert_eq!(snapshot(&ix.vault), before);
    let still = Vault::try_deserialize(&ix.vault.data).unwrap();
    assert_eq!(still.token_account, key(0x54));
    assert_eq!(still.authority, key(0x41));
}

#[test]
fn already_initialized_comes_before_every_other_check() {
    let mut ix = fresh_request(1, 2, 3, 10_000_000);
    initialize_vault(&program(), &mut ix, RENT).unwrap();
    ix.authority.is_signer = false;
    ix.payer.is_signer = false;
    ix.payer.lamports = 0;
    assert_eq!(initialize_vault(&program(), &mut ix, u64::MAX), Err(VaultError::AlreadyInitialized));
}

#[test]
fn missing_authority_signature_is_rejected() {
    let mut ix = fresh_request(1, 2, 3, 10_000_000);
    ix.authority.is_signer = false;
    let before = (snapshot(&ix.vault), snapshot(&ix.payer));
    assert_eq!(initialize_vault(&program(), &mut ix, RENT), Err(VaultError::MissingSignature));
    assert_eq!((snapshot(&ix.vault), snapshot(&ix.payer)), before);
}

#[test]
fn missing_payer_signature_is_rejected() {
    let mut ix = fresh_request(1, 2, 3, 10_000_000);
    ix.payer = account(key(4), 10_000_000, false, true);
    let before = (snapshot(&ix.vault), snapshot(&ix.payer));
    assert_eq!(initialize_vault(&program(), &mut ix, RENT), Err(VaultError::MissingSignature));
    assert_eq!((snapshot(&ix.vault), snapshot(&ix.payer)), before);
}

#[test]
fn read_only_payer_or_slot_is_rejected() {
    let mut ix = fresh_request(1, 2, 3, 10_000_000);
    ix.payer.is_writable = false;
    assert_eq!(initialize_vault(&program(), &mut ix, RENT), Err(VaultError::AccountNotWritable));
    let mut iy = fresh_request(1, 2, 3, 10_000_000);
    iy.vault.is_writable = false;
    assert_eq!(initialize_vault(&program(), &mut iy, RENT), Err(VaultError::AccountNotWritable));
}

#[test]
fn underfunded_payer_is_rejected() {
    let mut ix = fresh_request(1, 2, 3, RENT - 1);
    let before = (snapshot(&ix.vault), snapshot(&ix.payer));
    assert_eq!(initialize_vault(&program(), &mut ix, RENT), Err(VaultError::InsufficientFunds));
    assert_eq!((snapshot(&ix.vault), snapshot(&ix.payer)), before);
    assert!(ix.vault.data.is_empty());
}

#[test]
fn exactly_funded_payer_is_emptied() {
    let mut ix = fresh_request(1, 2, 3, RENT);
    assert_eq!(initialize_vault(&program(), &mut ix, RENT), Ok(()));
    assert_eq!(ix.payer.lamports, 0);
    assert_eq!(ix.vault.lamports, RENT);
}

#[test]
fn prefunded_slot_costs_only_the_difference() {
    let mut ix = fresh_request(1, 2, 3, 1_000);
    ix.vault.lamports = 400;
    assert_eq!(plan_reservation(&program(), &ix, 1_000), Ok(600));
    assert_eq!(initialize_vault(&program(), &mut ix, 1_000), Ok(()));
    assert_eq!(ix.payer.lamports, 400);
    assert_eq!(ix.vault.lamports, 1_000);

    let mut rich = fresh_request(1, 2, 3, 0);
    rich.vault.lamports = 5_000;
    assert_eq!(plan_reservation(&program(), &rich, 1_000), Ok(0));
    assert_eq!(initialize_vault(&program(), &mut rich, 1_000), Ok(()));
    assert_eq!(rich.vault.lamports, 5_000);
    assert_eq!(rich.payer.lamports, 0);
}

#[test]
fn plan_reservation_changes_nothing() {
    let ix = fresh_request(1, 2, 3, 10_000_000);
    assert_eq!(plan_reservation(&program(), &ix, RENT), Ok(RENT));
    assert!(ix.vault.data.is_empty());
    assert_eq!(ix.payer.lamports, 10_000_000);
}

#[test]
fn occupied_address_is_a_collision() {
    let mut with_data = fresh_request(1, 2, 3, 10_000_000);
    with_data.vault.data = vec![1, 2, 3];
    assert_eq!(initialize_vault(&program(), &mut with_data, RENT), Err(VaultError::AddressCollision));
    assert_eq!(with_data.vault.data, vec![1, 2, 3]);

    let mut foreign = fresh_request(1, 2, 3, 10_000_000);
    foreign.vault.owner = key(0x77);
    assert_eq!(initialize_vault(&program(), &mut foreign, RENT), Err(VaultError::AddressCollision));

    let mut payer_slot = fresh_request(3, 2, 3, 10_000_000);
    payer_slot.vault.lamports = 10_000_000;
    assert_eq!(initialize_vault(&program(), &mut payer_slot, RENT), Err(VaultError::AddressCollision));
}

#[test]
fn record_of_another_program_is_a_collision() {
    let mut ix = fresh_request(1, 2, 3, 10_000_000);
    ix.vault.owner = key(0x77);
    ix.vault.data = Vault { token_account: key(8), authority: key(9) }.try_serialize();
    assert_eq!(initialize_vault(&program(), &mut ix, RENT), Err(VaultError::AddressCollision));
}

#[test]
fn separate_payer_funds_the_record_of_the_authority() {
    let mut ix = fresh_request(1, 2, 3, 0);
    ix.authority.lamports = 0;
    ix.payer = account(key(4), 2 * RENT, true, true);
    assert_eq!(initialize_vault(&program(), &mut ix, RENT), Ok(()));
    let stored = Vault::try_deserialize(&ix.vault.data).unwrap();
    assert_eq!(stored.authority, key(3));
    assert_eq!(stored.token_account, key(2));
    assert_eq!(ix.payer.lamports, RENT);
    assert_eq!(ix.authority.lamports, 0);
}
