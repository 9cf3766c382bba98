use vstd::prelude::*;
use crate::pubkey::{Pubkey, PUBKEY_BYTES};

verus! {

/// An account as handed to a request: its address, the program that owns it,
/// its balance, its stored bytes, and whether the request is signed by it and
/// may write to it.
#[derive(Debug)]
pub struct AccountInfo {
    pub key: Pubkey,
    pub owner: Pubkey,
    pub lamports: u64,
    pub data: Vec<u8>,
    pub is_signer: bool,
    pub is_writable: bool,
}

/// The mathematical value of an [`AccountInfo`].
pub struct AccountView {
    pub key: Pubkey,
    pub owner: Pubkey,
    pub lamports: u64,
    pub data: Seq<u8>,
    pub is_signer: bool,
    pub is_writable: bool,
}

impl View for AccountInfo {
    type V = AccountView;

    open spec fn view(&self) -> AccountView {
        AccountView {
            key: self.key,
            owner: self.owner,
            lamports: self.lamports,
            data: self.data@,
            is_signer: self.is_signer,
            is_writable: self.is_writable,
        }
    }
}

/// The identity of the system program, the owner of every unallocated
/// account: all bytes zero.
pub open spec fn system_program_key() -> Seq<u8> {
    Seq::new(PUBKEY_BYTES as nat, |_i: int| 0u8)
}

/// The identity of the system program.
pub fn system_program_id() -> (r: Pubkey)
    ensures
        r@ == system_program_key(),
{
    let bytes: [u8; 32] = [0u8; 32];
    let r = Pubkey::new_from_array(bytes);
    assert(r@ =~= system_program_key());
    r
}

} // verus!
