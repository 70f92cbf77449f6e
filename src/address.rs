use vstd::prelude::*;

use crate::error::CreateError;
use crate::text::{append_hex_bytes, hex_of};

verus! {

/// The scheme byte that follows an Ed25519 public key in an authentication key.
pub const ED25519_SCHEME: u8 = 0;

/// What SHA3-256 gives for `data`.
pub uninterp spec fn sha3_256_of(data: Seq<u8>) -> Seq<u8>;

/// Whether Ed25519 accepts `key` as the compressed form of a curve point.
pub uninterp spec fn ed25519_point_accepted(key: Seq<u8>) -> bool;

/// The Ed25519 public key that belongs to the secret key `secret`.
pub uninterp spec fn ed25519_public_of(secret: Seq<u8>) -> Seq<u8>;

/// Relies on `sha3::Sha3_256::digest`: a 32-byte digest of `data`.
#[verifier::external_body]
fn sha3_256(data: &[u8]) -> (r: [u8; 32])
    ensures
        r@ == sha3_256_of(data@),
{
    <sha3::Sha3_256 as sha3::Digest>::digest(data).into()
}

/// Relies on `ed25519_dalek::VerifyingKey::from_bytes`: it succeeds exactly
/// when the bytes decompress to a point.
#[verifier::external_body]
fn point_accepted(key: &[u8; 32]) -> (r: bool)
    ensures
        r == ed25519_point_accepted(key@),
{
    ed25519_dalek::VerifyingKey::from_bytes(key).is_ok()
}

/// Relies on `ed25519_dalek::SigningKey::from_bytes` and `verifying_key`:
/// every 32 bytes are a secret key, and its public key is 32 bytes.
#[verifier::external_body]
pub(crate) fn public_key_of(secret: &[u8; 32]) -> (r: [u8; 32])
    ensures
        r@ == ed25519_public_of(secret@),
{
    ed25519_dalek::SigningKey::from_bytes(secret).verifying_key().to_bytes()
}

/// A 32-byte account address on the ledger.
#[derive(Debug, Clone, Copy, PartialEq, Eq)]
pub struct AccountAddress {
    pub bytes: [u8; 32],
}

/// The address of the account whose Ed25519 public key is `public_key`:
/// the SHA3-256 digest of the key followed by the scheme byte.
pub open spec fn address_of_key(public_key: Seq<u8>) -> Seq<u8> {
    sha3_256_of(public_key.push(ED25519_SCHEME))
}

/// Whether `public_key` can be read as an Ed25519 public key.
pub open spec fn key_decodes(public_key: Seq<u8>) -> bool {
    public_key.len() == 32 && ed25519_point_accepted(public_key)
}

/// Copies 32 bytes into an array.
pub fn key_array(key: &[u8]) -> (r: [u8; 32])
    requires
        key@.len() == 32,
    ensures
        r@ == key@,
{
    let mut r: [u8; 32] = [0u8; 32];
    let mut i: usize = 0;
    while i < 32
        invariant
            i <= 32,
            key@.len() == 32,
            r@.len() == 32,
            forall|j: int| 0 <= j < i ==> r@[j] == key@[j],
        decreases 32 - i,
    {
        r[i] = key[i];
        i = i + 1;
    }
    assert(r@ =~= key@);
    r
}

impl AccountAddress {
    pub open spec fn view(&self) -> Seq<u8> {
        self.bytes@
    }

    /// The address of the account with the given Ed25519 public key, which
    /// is not itself checked.
    pub fn from_key(public_key: &[u8; 32]) -> (r: AccountAddress)
        ensures
            r.view() == address_of_key(public_key@),
    {
        let mut data: Vec<u8> = Vec::new();
        let mut i: usize = 0;
        while i < 32
            invariant
                i <= 32,
                public_key@.len() == 32,
                data@ == public_key@.subrange(0, i as int),
            decreases 32 - i,
        {
            data.push(public_key[i]);
            i = i + 1;
            assert(data@ =~= public_key@.subrange(0, i as int));
        }
        data.push(ED25519_SCHEME);
        assert(data@ =~= public_key@.push(ED25519_SCHEME));
        AccountAddress { bytes: sha3_256(data.as_slice()) }
    }

    /// Derives the address of the account with the given public key, or
    /// fails when the bytes are not an Ed25519 public key.
    pub fn derive(public_key: &[u8]) -> (r: Result<AccountAddress, CreateError>)
        ensures
            r is Ok <==> key_decodes(public_key@),
            r is Ok ==> r->Ok_0.view() == address_of_key(public_key@),
            r is Err ==> r->Err_0 == CreateError::InvalidPublicKey,
    {
        if public_key.len() != 32 {
            return Err(CreateError::InvalidPublicKey);
        }
        let key = key_array(public_key);
        if !point_accepted(&key) {
            return Err(CreateError::InvalidPublicKey);
        }
        Ok(AccountAddress::from_key(&key))
    }

    /// The address as 64 lower-case hexadecimal digits.
    pub fn to_hex(&self) -> (r: String)
        ensures
            r@ == hex_of(self.view()),
    {
        let mut r = String::new();
        append_hex_bytes(&mut r, &self.bytes);
        r
    }
}

/// Deriving an address is deterministic: equal public keys are accepted or
/// refused alike, and accepted ones give equal addresses.
pub proof fn derivation_is_deterministic(a: Seq<u8>, b: Seq<u8>)
    requires
        a == b,
    ensures
        key_decodes(a) == key_decodes(b),
        address_of_key(a) == address_of_key(b),
{
}

} // verus!
