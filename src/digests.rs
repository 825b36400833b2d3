//! Hash functions, HMAC, SASLprep and randomness, each taken from its
//! outside crate. What a digest is on given bytes is not stated here: the
//! names below stand for it, and the wrappers say that the crates compute it.

use vstd::prelude::*;

verus! {

/// The MD5 digest of `data`.
pub uninterp spec fn md5_digest(data: Seq<u8>) -> Seq<u8>;

/// The SHA-256 digest of `data`.
pub uninterp spec fn sha256_digest(data: Seq<u8>) -> Seq<u8>;

/// HMAC-SHA-256 of `message` under `key`.
pub uninterp spec fn hmac_sha256(key: Seq<u8>, message: Seq<u8>) -> Seq<u8>;

/// SASLprep (RFC 4013) of `s`, or `None` where a character is prohibited.
pub uninterp spec fn saslprep_of(s: Seq<char>) -> Option<Seq<char>>;

/// Relies on `md5::Md5::digest` (`digest::Digest`): the MD5 digest of the
/// data, 16 bytes long.
#[verifier::external_body]
pub(crate) fn md5_of(data: &[u8]) -> (r: Vec<u8>)
    ensures
        r@ == md5_digest(data@),
        r@.len() == 16,
{
    <md5::Md5 as md5::Digest>::digest(data).to_vec()
}

/// Relies on `sha2::Sha256::digest` (`digest::Digest`): the SHA-256 digest
/// of the data, 32 bytes long.
#[verifier::external_body]
pub(crate) fn sha256_of(data: &[u8]) -> (r: Vec<u8>)
    ensures
        r@ == sha256_digest(data@),
        r@.len() == 32,
{
    <sha2::Sha256 as sha2::Digest>::digest(data).to_vec()
}

/// Relies on `hmac::Hmac<Sha256>`: `new_from_slice` accepts a key of any
/// length, and `finalize` gives the 32-byte tag of the message.
#[verifier::external_body]
pub(crate) fn hmac_sha256_of(key: &[u8], message: &[u8]) -> (r: Vec<u8>)
    ensures
        r@ == hmac_sha256(key@, message@),
        r@.len() == 32,
{
    let mut mac = <hmac::Hmac<sha2::Sha256> as hmac::Mac>::new_from_slice(key)
        .expect("HMAC accepts keys of any length");
    hmac::Mac::update(&mut mac, message);
    hmac::Mac::finalize(mac).into_bytes().to_vec()
}

/// Relies on `stringprep::saslprep`: the prepared string, or an error
/// where the input holds a prohibited character.
#[verifier::external_body]
pub(crate) fn saslprep(s: &str) -> (r: Option<String>)
    ensures
        r is Some <==> saslprep_of(s@) is Some,
        r matches Some(p) ==> p@ == saslprep_of(s@)->0,
{
    match stringprep::saslprep(s) {
        Ok(p) => Some(p.into_owned()),
        Err(_) => None,
    }
}

/// Relies on `std::str::from_utf8`: the text the bytes encode, or `None`
/// where they are not valid UTF-8.
#[verifier::external_body]
pub(crate) fn utf8_text(bytes: &[u8]) -> (r: Option<&str>)
    ensures
        r is Some <==> vstd::utf8::valid_utf8(bytes@),
        r matches Some(s) ==> vstd::utf8::encode_utf8(s@) == bytes@,
{
    std::str::from_utf8(bytes).ok()
}

/// Relies on `rand::thread_rng` and `RngCore::fill_bytes`: 16 bytes from
/// a cryptographically secure generator. Nothing is known of their values.
#[verifier::external_body]
pub(crate) fn random_salt() -> (r: [u8; 16]) {
    let mut salt = [0u8; 16];
    rand::RngCore::fill_bytes(&mut rand::thread_rng(), &mut salt);
    salt
}

} // verus!
