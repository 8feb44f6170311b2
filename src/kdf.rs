//! Turning a password into the 32-byte pre-shared key of the handshake.
use vstd::prelude::*;

verus! {

/// Length of the pre-shared key, in bytes.
pub const PSK_LEN: usize = 32;

/// Length of the fixed salt (all zero bytes).
pub const SALT_LEN: usize = 16;

/// Fixed iteration count of the derivation.
pub const PBKDF2_ITERATIONS: u32 = 100;

/// Upper bound (exclusive) on the length of a password: far beyond any real
/// input, below the limit of what SHA-256 can digest.
pub open spec fn max_password_len() -> int {
    0x1000_0000_0000_0000
}

/// The `len`-byte output of PBKDF2 with HMAC-SHA256 over `iterations`
/// rounds, for the given salt and secret.
pub uninterp spec fn pbkdf2_hmac_sha256(iterations: nat, salt: Seq<u8>, secret: Seq<u8>, len: nat) -> Seq<u8>;

/// The fixed salt: `SALT_LEN` zero bytes.
pub open spec fn fixed_salt() -> Seq<u8> {
    Seq::new(SALT_LEN as nat, |i: int| 0u8)
}

/// The pre-shared key that a password gives.
pub open spec fn psk_of(password: Seq<u8>) -> Seq<u8> {
    pbkdf2_hmac_sha256(PBKDF2_ITERATIONS as nat, fixed_salt(), password, PSK_LEN as nat)
}

/// Relies on ring::pbkdf2::derive with PBKDF2_HMAC_SHA256: it overwrites
/// all of `out` with the derived key, a function of the iteration count,
/// salt, secret and output length alone. It panics only on a zero iteration
/// count (not representable there), on an output longer than 2^32 - 1
/// digests, or on a salt or secret too long for SHA-256.
#[verifier::external_body]
fn ring_pbkdf2_hmac_sha256(iterations: u32, salt: &[u8], secret: &[u8], out: &mut Vec<u8>)
    requires
        iterations > 0,
        old(out)@.len() <= 0xffff_ffffusize * 32,
        salt@.len() < max_password_len(),
        secret@.len() < max_password_len(),
    ensures
        final(out)@ == pbkdf2_hmac_sha256(iterations as nat, salt@, secret@, old(out)@.len()),
        final(out)@.len() == old(out)@.len(),
{
    let iterations = std::num::NonZeroU32::new(iterations).unwrap();
    ring::pbkdf2::derive(ring::pbkdf2::PBKDF2_HMAC_SHA256, iterations, salt, secret, out.as_mut_slice())
}

/// Derives the pre-shared key from a password, with the fixed salt and
/// iteration count: the same password always gives the same key.
pub fn derive_psk(password: &[u8]) -> (r: Vec<u8>)
    requires
        password@.len() < max_password_len(),
    ensures
        r@ == psk_of(password@),
        r@.len() == PSK_LEN,
{
    let salt: Vec<u8> = vec![0u8; SALT_LEN];
    assert(salt@ =~= fixed_salt());
    let mut out: Vec<u8> = vec![0u8; PSK_LEN];
    ring_pbkdf2_hmac_sha256(PBKDF2_ITERATIONS, salt.as_slice(), password, &mut out);
    out
}

/// Derivation is deterministic: equal passwords give equal 32-byte keys.
pub proof fn lemma_psk_deterministic(p: Seq<u8>, q: Seq<u8>)
    requires
        p == q,
    ensures
        psk_of(p) == psk_of(q),
{
}

} // verus!
