//! Ledger addresses: 32-byte identities of accounts, tokens and programs.

use anchor_lang::prelude::Pubkey;
use vstd::prelude::*;

verus! {

/// Number of bytes in an address.
pub const ADDRESS_BYTES: usize = 32;

/// A 32-byte address on the ledger.
#[derive(Clone, Copy, Debug, PartialEq, Eq, Hash)]
pub struct Address {
    pub bytes: [u8; 32],
}

impl View for Address {
    type V = Seq<u8>;

    open spec fn view(&self) -> Seq<u8> {
        self.bytes@
    }
}

impl Address {
    /// The address made of the given bytes.
    pub fn new(bytes: [u8; 32]) -> (address: Address)
        ensures
            address.bytes == bytes,
            address@ == bytes@,
    {
        Address { bytes }
    }

    /// The bytes of the address.
    pub fn to_bytes(&self) -> (bytes: [u8; 32])
        ensures
            bytes == self.bytes,
            bytes@ == self@,
    {
        self.bytes
    }

    /// Whether two addresses hold the same bytes.
    pub fn same(&self, other: &Address) -> (equal: bool)
        ensures
            equal == (self@ == other@),
            equal == (*self == *other),
    {
        let mut i: usize = 0;
        while i < ADDRESS_BYTES
            invariant
                i <= ADDRESS_BYTES,
                forall|j: int| 0 <= j < i ==> self.bytes@[j] == other.bytes@[j],
            decreases ADDRESS_BYTES - i,
        {
            if self.bytes[i] != other.bytes[i] {
                return false;
            }
            i += 1;
        }
        assert(self.bytes@ =~= other.bytes@);
        assert(self.bytes =~= other.bytes);
        true
    }
}

impl Address {
    /// The address that a base58 string stands for. `None` where the string
    /// is no base58 encoding of 32 bytes.
    pub fn from_base58(text: &str) -> (decoded: Option<Address>)
        ensures
            match decoded {
                Some(address) => base58_address(text@) == Some(address@),
                None => base58_address(text@) is None,
            },
    {
        decode_base58(text)
    }
}

/// Two addresses with the same bytes are the same address.
pub proof fn lemma_view_injective(a: Address, b: Address)
    ensures
        (a@ == b@) == (a == b),
{
    if a@ == b@ {
        assert(a.bytes =~= b.bytes);
    }
}

/// What `Pubkey::from_str` makes of a string: the 32 bytes that it decodes
/// to, or `None` where the string is no base58 encoding of 32 bytes.
pub uninterp spec fn base58_address(text: Seq<char>) -> Option<Seq<u8>>;

/// Decodes a base58 string with `Pubkey::from_str`, the `FromStr` impl of
/// the `Pubkey` that `anchor_lang` hands on from `solana_program`. The
/// contract only names the outcome: what the decoder returns for a given
/// string is not proved here.
#[verifier::external_body]
pub(crate) fn decode_base58(text: &str) -> (decoded: Option<Address>)
    ensures
        match decoded {
            Some(address) => base58_address(text@) == Some(address@),
            None => base58_address(text@) is None,
        },
{
    match text.parse::<Pubkey>() {
        Ok(key) => Some(Address { bytes: key.to_bytes() }),
        Err(_) => None,
    }
}

} // verus!
