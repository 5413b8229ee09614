use vstd::prelude::*;

verus! {

/// Number of bytes in an identity key.
pub const KEY_LEN: usize = 32;

/// An identity on the ledger: a signer, an owner or a record address.
#[derive(Clone, Copy, Debug)]
pub struct Pubkey {
    pub bytes: [u8; 32],
}

impl View for Pubkey {
    type V = Seq<u8>;

    open spec fn view(&self) -> Seq<u8> {
        self.bytes@
    }
}

impl Pubkey {
    /// The identity whose key bytes are `bytes`.
    pub fn new_from_array(bytes: [u8; 32]) -> (r: Pubkey)
        ensures
            r.bytes == bytes,
    {
        Pubkey { bytes }
    }

    /// Whether two identities hold the same key bytes.
    pub fn same_as(&self, other: &Pubkey) -> (r: bool)
        ensures
            r == (self@ == other@),
    {
        let mut i: usize = 0;
        while i < KEY_LEN
            invariant
                i <= KEY_LEN,
                self@.len() == KEY_LEN,
                other@.len() == KEY_LEN,
                forall|j: int| 0 <= j < i ==> self@[j] == other@[j],
            decreases KEY_LEN - i,
        {
            if self.bytes[i] != other.bytes[i] {
                return false;
            }
            i = i + 1;
        }
        assert(self@ =~= other@);
        true
    }
}

/// An encrypted payload. The ledger stores and forwards it, and never reads it.
#[derive(Clone, Debug)]
pub struct EncryptedData {
    pub ciphertext: Vec<u8>,
}

impl View for EncryptedData {
    type V = Seq<u8>;

    open spec fn view(&self) -> Seq<u8> {
        self.ciphertext@
    }
}

impl EncryptedData {
    /// Wraps the given ciphertext bytes.
    pub fn new(ciphertext: Vec<u8>) -> (r: EncryptedData)
        ensures
            r@ == ciphertext@,
    {
        EncryptedData { ciphertext }
    }
}

} // verus!
