//! Key material of a feed, held as plain bytes.

use vstd::prelude::*;

verus! {

/// Length in bytes of a verifying key and of a signing key.
pub const KEY_LENGTH: usize = 32;

/// The error of `ed25519_dalek`, taken as it is: nothing is read from it.
#[verifier::external_type_specification]
#[verifier::external_body]
pub struct ExSignatureError(ed25519_dalek::SignatureError);

/// Calls `ed25519_dalek::SecretKey::from_bytes` and hands back the bytes of
/// the key it derived. The call is trusted to accept exactly the inputs of
/// `KEY_LENGTH` bytes and to keep every byte of an input it accepts.
#[verifier::external_body]
fn derive_secret_key(bytes: &[u8]) -> (r: Result<[u8; 32], ed25519_dalek::SignatureError>)
    ensures
        r.is_ok() <==> bytes@.len() == KEY_LENGTH,
        r matches Ok(key) ==> key@ == bytes@,
{
    ed25519_dalek::SecretKey::from_bytes(bytes).map(|key| key.to_bytes())
}

/// Validates raw signing-key bytes by deriving the key from them.
/// `Some` holds the accepted key; `None` means the bytes are no signing key.
pub fn accept_secret_key(bytes: &Vec<u8>) -> (r: Option<[u8; 32]>)
    ensures
        r.is_some() <==> bytes@.len() == KEY_LENGTH,
        r matches Some(key) ==> key@ == bytes@,
{
    match derive_secret_key(bytes.as_slice()) {
        Ok(key) => Some(key),
        Err(_) => None,
    }
}

} // verus!
