use aes_gcm::aead::generic_array::GenericArray;
use aes_gcm::aead::Aead;
use aes_gcm::{Aes256Gcm, KeyInit};
use vstd::prelude::*;

verus! {

/// Length in bytes of an AES-256 key.
pub const KEY_LEN: usize = 32;

/// Length in bytes of the GCM nonce.
pub const NONCE_LEN: usize = 12;

/// Length in bytes of the GCM authentication tag that ends a sealed message.
pub const TAG_LEN: usize = 16;

/// Longest plaintext, in bytes, that AES-GCM accepts.
pub const PLAIN_MAX: u64 = 0x10_0000_0000;

/// What `Aes256Gcm::decrypt` returns for a key, a nonce and a sealed message
/// (ciphertext followed by its tag), with no associated data: the plaintext,
/// or `None` where the tag does not authenticate the ciphertext.
pub uninterp spec fn gcm_open(key: Seq<u8>, nonce: Seq<u8>, sealed: Seq<u8>) -> Option<Seq<u8>>;

/// What `Aes256Gcm::encrypt` returns for a key, a nonce and a plaintext, with
/// no associated data: the ciphertext followed by its tag.
pub uninterp spec fn gcm_seal(key: Seq<u8>, nonce: Seq<u8>, plain: Seq<u8>) -> Seq<u8>;

/// Two sealed messages that carry the same ciphertext and differ, if at all,
/// in their trailing tags only.
pub open spec fn same_ciphertext(a: Seq<u8>, b: Seq<u8>) -> bool {
    &&& a.len() == b.len()
    &&& a.len() >= TAG_LEN
    &&& a.subrange(0, a.len() - TAG_LEN) == b.subrange(0, b.len() - TAG_LEN)
}

/// `Aes256Gcm::new(key).decrypt(nonce, sealed)`.
///
/// The contract names the result, and adds what the cipher's source shows:
/// an input shorter than one tag is rejected, and the tag is recomputed from
/// key, nonce and ciphertext and compared with the one supplied, so of all
/// sealed messages with one ciphertext at most one opens. Key and nonce must
/// have their exact lengths, since the cipher panics on any other.
#[verifier::external_body]
pub(crate) fn aes256_gcm_open(key: &[u8], nonce: &[u8], sealed: &[u8]) -> (plain: Option<Vec<u8>>)
    requires
        key@.len() == KEY_LEN,
        nonce@.len() == NONCE_LEN,
    ensures
        match plain {
            Some(p) => gcm_open(key@, nonce@, sealed@) == Some(p@),
            None => gcm_open(key@, nonce@, sealed@) is None,
        },
        sealed@.len() < TAG_LEN ==> plain is None,
        plain is Some ==> forall|other: Seq<u8>|
            same_ciphertext(sealed@, other) && other != sealed@ ==> #[trigger] gcm_open(
                key@,
                nonce@,
                other,
            ) is None,
{
    let cipher = Aes256Gcm::new(GenericArray::from_slice(key));
    cipher.decrypt(GenericArray::from_slice(nonce), sealed).ok()
}

/// `Aes256Gcm::new(key).encrypt(nonce, plain)`.
///
/// The contract names the result, and adds what the cipher's source shows:
/// the call succeeds unless the plaintext is over the cipher's limit, the
/// output is one tag longer than the input, and opening it under the same key
/// and nonce gives the plaintext back.
#[verifier::external_body]
pub(crate) fn aes256_gcm_seal(key: &[u8], nonce: &[u8], plain: &[u8]) -> (sealed: Option<Vec<u8>>)
    requires
        key@.len() == KEY_LEN,
        nonce@.len() == NONCE_LEN,
    ensures
        plain@.len() <= PLAIN_MAX ==> sealed is Some,
        match sealed {
            Some(s) => {
                &&& s@ == gcm_seal(key@, nonce@, plain@)
                &&& s@.len() == plain@.len() + TAG_LEN
                &&& gcm_open(key@, nonce@, s@) == Some(plain@)
            },
            None => true,
        },
{
    let cipher = Aes256Gcm::new(GenericArray::from_slice(key));
    cipher.encrypt(GenericArray::from_slice(nonce), plain).ok()
}

} // verus!
