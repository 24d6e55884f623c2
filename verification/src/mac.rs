//! Keyed authentication of message payloads.
//!
//! The log signs every payload with HMAC-SHA256 under a per-log secret key and
//! checks the tag again on every read. The primitive itself is supplied by the
//! `ring` crate; this module wraps the few calls the log makes and gives the
//! tag a name, `mac_of`, that the contracts of `write` and `read` share.

use vstd::prelude::*;

verus! {

/// How many bytes of secure randomness seed the signing key.
pub const KEY_LEN: usize = 48;

/// The digest underlying the tag accepts no more than this many input bytes;
/// beyond it the primitive aborts instead of returning a tag.
pub const MAX_MAC_INPUT: u64 = 0x0fff_ffff_ffff_ffff;

/// The HMAC-SHA256 tag of `data` under the key bytes `key`. The tag is a pure
/// function of the two arguments; nothing more is assumed of it, so whether a
/// given pair of payload and tag match can only be learned by calling
/// `mac_sign` or `mac_verify`.
pub uninterp spec fn mac_of(key: Seq<u8>, data: Seq<u8>) -> Seq<u8>;

/// Relies on `ring::rand::SystemRandom` and `SecureRandom::fill`: draws
/// `KEY_LEN` bytes from the system's secure source. The outcome depends on
/// that source, so only the length is promised; where the source fails, the
/// bytes are left zeroed, as the buffer was first written.
#[verifier::external_body]
pub(crate) fn fresh_key_bytes() -> (r: Vec<u8>)
    ensures
        r@.len() == KEY_LEN,
{
    let mut buf = [0u8; 48];
    let rng = ring::rand::SystemRandom::new();
    let _ = ring::rand::SecureRandom::fill(&rng, &mut buf);
    buf.to_vec()
}

/// Relies on `ring::hmac::Key::new` and `ring::hmac::sign`: the returned tag
/// is HMAC-SHA256 of `data` under `key`, a function of the two alone. The
/// bounds on the lengths keep both calls below the digest's input limit, under
/// which neither aborts.
#[verifier::external_body]
pub(crate) fn mac_sign(key: &Vec<u8>, data: &[u8]) -> (r: Vec<u8>)
    requires
        key@.len() == KEY_LEN,
        data@.len() <= MAX_MAC_INPUT as nat,
    ensures
        r@ == mac_of(key@, data@),
{
    let k = ring::hmac::Key::new(ring::hmac::HMAC_SHA256, key.as_slice());
    ring::hmac::sign(&k, data).as_ref().to_vec()
}

/// Relies on `ring::hmac::verify`: it recomputes HMAC-SHA256 of `data` under
/// `key` and reports, in constant time, whether the result equals `tag`.
#[verifier::external_body]
pub(crate) fn mac_verify(key: &Vec<u8>, data: &Vec<u8>, tag: &Vec<u8>) -> (r: bool)
    requires
        key@.len() == KEY_LEN,
        data@.len() <= MAX_MAC_INPUT as nat,
    ensures
        r == (tag@ == mac_of(key@, data@)),
{
    let k = ring::hmac::Key::new(ring::hmac::HMAC_SHA256, key.as_slice());
    ring::hmac::verify(&k, data.as_slice(), tag.as_slice()).is_ok()
}

} // verus!
