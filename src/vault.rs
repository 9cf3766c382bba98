use vstd::prelude::*;
use crate::pubkey::{Pubkey, PUBKEY_BYTES};

verus! {

/// Width in bytes of the record header that identifies its format.
pub const DISCRIMINATOR_SIZE: usize = 8;

/// Width in bytes of a vault record's fields, after the header.
pub const INIT_SPACE: usize = 64;

/// Storage reserved for a vault record: the header and both identity fields.
pub const VAULT_SPACE: usize = 72;

/// The header that marks a stored vault record.
pub open spec fn vault_discriminator() -> Seq<u8> {
    seq![211u8, 8u8, 232u8, 43u8, 2u8, 152u8, 117u8, 119u8]
}

/// The header that marks a stored vault record.
pub fn discriminator() -> (r: [u8; 8])
    ensures
        r@ == vault_discriminator(),
{
    let r: [u8; 8] = [211u8, 8u8, 232u8, 43u8, 2u8, 152u8, 117u8, 119u8];
    assert(r@ =~= vault_discriminator());
    r
}

/// The persistent record binding a token-holding account to its authority.
#[derive(Clone, Copy, Debug)]
pub struct Vault {
    pub token_account: Pubkey,
    pub authority: Pubkey,
}

/// Why stored bytes could not be read as a vault record.
#[derive(Clone, Copy, Debug, PartialEq, Eq, Structural)]
pub enum LayoutError {
    /// Fewer bytes than the header.
    DiscriminatorNotFound,
    /// The header is not the vault header.
    DiscriminatorMismatch,
    /// The header is right but the fields do not fit in the bytes.
    DidNotDeserialize,
}

/// Whether `data` starts with the vault header.
pub open spec fn has_vault_header(data: Seq<u8>) -> bool {
    data.len() >= DISCRIMINATOR_SIZE && data.subrange(0, DISCRIMINATOR_SIZE as int)
        == vault_discriminator()
}

impl Vault {
    /// The stored form: header, then `token_account`, then `authority`.
    pub open spec fn spec_bytes(self) -> Seq<u8> {
        vault_discriminator() + self.token_account@ + self.authority@
    }

    /// What reading `data` as a vault record gives. Bytes after the record
    /// are ignored.
    pub open spec fn spec_parse(data: Seq<u8>) -> Result<(Seq<u8>, Seq<u8>), LayoutError> {
        if data.len() < DISCRIMINATOR_SIZE {
            Err(LayoutError::DiscriminatorNotFound)
        } else if !has_vault_header(data) {
            Err(LayoutError::DiscriminatorMismatch)
        } else if data.len() < VAULT_SPACE {
            Err(LayoutError::DidNotDeserialize)
        } else {
            Ok((data.subrange(8, 40), data.subrange(40, 72)))
        }
    }

    /// The stored form of this record.
    pub fn try_serialize(&self) -> (r: Vec<u8>)
        ensures
            r@ == self.spec_bytes(),
            r@.len() == VAULT_SPACE,
    {
        let header = discriminator();
        let mut out: Vec<u8> = Vec::with_capacity(VAULT_SPACE);
        let mut i: usize = 0;
        while i < DISCRIMINATOR_SIZE
            invariant
                i <= DISCRIMINATOR_SIZE,
                header@ == vault_discriminator(),
                out@ == header@.subrange(0, i as int),
            decreases DISCRIMINATOR_SIZE - i,
        {
            out.push(header[i]);
            i = i + 1;
        }
        assert(out@ =~= vault_discriminator());
        let mut j: usize = 0;
        while j < PUBKEY_BYTES
            invariant
                j <= PUBKEY_BYTES,
                self.token_account@.len() == PUBKEY_BYTES,
                out@ == vault_discriminator() + self.token_account@.subrange(0, j as int),
            decreases PUBKEY_BYTES - j,
        {
            out.push(self.token_account.bytes[j]);
            j = j + 1;
        }
        assert(self.token_account@.subrange(0, 32) =~= self.token_account@);
        let mut k: usize = 0;
        while k < PUBKEY_BYTES
            invariant
                k <= PUBKEY_BYTES,
                self.authority@.len() == PUBKEY_BYTES,
                out@ == vault_discriminator() + self.token_account@ + self.authority@.subrange(
                    0,
                    k as int,
                ),
            decreases PUBKEY_BYTES - k,
        {
            out.push(self.authority.bytes[k]);
            k = k + 1;
        }
        assert(self.authority@.subrange(0, 32) =~= self.authority@);
        out
    }

    /// Reads a vault record from stored bytes.
    pub fn try_deserialize(data: &[u8]) -> (r: Result<Vault, LayoutError>)
        ensures
            match Vault::spec_parse(data@) {
                Ok((t, a)) => r matches Ok(v) && v.token_account@ == t && v.authority@ == a,
                Err(e) => r == Err::<Vault, LayoutError>(e),
            },
    {
        if data.len() < DISCRIMINATOR_SIZE {
            return Err(LayoutError::DiscriminatorNotFound);
        }
        let header = discriminator();
        let mut i: usize = 0;
        while i < DISCRIMINATOR_SIZE
            invariant
                i <= DISCRIMINATOR_SIZE,
                data@.len() >= DISCRIMINATOR_SIZE,
                header@ == vault_discriminator(),
                forall|m: int| 0 <= m < i ==> data@[m] == header@[m],
            decreases DISCRIMINATOR_SIZE - i,
        {
            if data[i] != header[i] {
                assert(data@.subrange(0, 8)[i as int] != vault_discriminator()[i as int]);
                return Err(LayoutError::DiscriminatorMismatch);
            }
            i = i + 1;
        }
        assert(data@.subrange(0, 8) =~= vault_discriminator());
        if data.len() < VAULT_SPACE {
            return Err(LayoutError::DidNotDeserialize);
        }
        let token_account = read_pubkey(data, DISCRIMINATOR_SIZE);
        let authority = read_pubkey(data, DISCRIMINATOR_SIZE + PUBKEY_BYTES);
        Ok(Vault { token_account, authority })
    }
}

/// The identity stored in `data` at `start`.
fn read_pubkey(data: &[u8], start: usize) -> (r: Pubkey)
    requires
        start <= VAULT_SPACE,
        start + PUBKEY_BYTES <= data@.len(),
    ensures
        r@ == data@.subrange(start as int, start + PUBKEY_BYTES),
{
    let mut bytes: [u8; 32] = [0u8; 32];
    let mut i: usize = 0;
    while i < PUBKEY_BYTES
        invariant
            i <= PUBKEY_BYTES,
            start <= VAULT_SPACE,
            start + PUBKEY_BYTES <= data@.len(),
            bytes@.len() == PUBKEY_BYTES,
            forall|m: int| 0 <= m < i ==> bytes@[m] == data@[start + m],
        decreases PUBKEY_BYTES - i,
    {
        bytes[i] = data[start + i];
        i = i + 1;
    }
    assert(bytes@ =~= data@.subrange(start as int, start + PUBKEY_BYTES));
    Pubkey { bytes }
}

/// A record read back from its stored form is the record that was stored.
pub proof fn lemma_parse_bytes(v: Vault)
    ensures
        Vault::spec_parse(v.spec_bytes()) == Ok::<(Seq<u8>, Seq<u8>), LayoutError>(
            (v.token_account@, v.authority@),
        ),
        v.spec_bytes().len() == DISCRIMINATOR_SIZE + INIT_SPACE,
{
    let b = v.spec_bytes();
    assert(b.subrange(0, 8) =~= vault_discriminator());
    assert(b.subrange(8, 40) =~= v.token_account@);
    assert(b.subrange(40, 72) =~= v.authority@);
}

} // verus!
