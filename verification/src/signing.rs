//! Transaction signing: intent message assembly, hashing, Ed25519
//! signatures in the venue's serialized form, and the encodings around
//! them.

use vstd::prelude::*;
use crate::errors::AggrError;
use base64::engine::general_purpose::STANDARD_NO_PAD;
use base64::Engine;
use blake2::digest::Digest;
use ed25519_dalek::Signer;

verus! {

/// Whether `c` is an ASCII hex digit.
pub open spec fn is_hex_digit(c: char) -> bool {
    (48 <= c as int && c as int <= 57)  // '0'..='9'
    || (97 <= c as int && c as int <= 102)  // 'a'..='f'
    || (65 <= c as int && c as int <= 70)  // 'A'..='F'
}

/// The value of an ASCII hex digit.
pub open spec fn hex_val(c: char) -> int {
    if 48 <= c as int && c as int <= 57 {
        c as int - 48
    } else if 97 <= c as int && c as int <= 102 {
        c as int - 87
    } else {
        c as int - 55
    }
}

/// Whether every character of `s` is a hex digit.
pub open spec fn is_hex_seq(s: Seq<char>) -> bool {
    forall|i: int| 0 <= i < s.len() ==> is_hex_digit(#[trigger] s[i])
}

/// The bytes a hex string of even length decodes to.
pub open spec fn hex_decode_spec(s: Seq<char>) -> Seq<u8> {
    Seq::new((s.len() / 2) as nat, |i: int| (hex_val(s[2 * i]) * 16 + hex_val(s[2 * i + 1])) as u8)
}

/// The lowercase hex digit for a value below 16.
pub open spec fn hex_digit_lower(v: int) -> char {
    if v == 0 {
        '0'
    } else if v == 1 {
        '1'
    } else if v == 2 {
        '2'
    } else if v == 3 {
        '3'
    } else if v == 4 {
        '4'
    } else if v == 5 {
        '5'
    } else if v == 6 {
        '6'
    } else if v == 7 {
        '7'
    } else if v == 8 {
        '8'
    } else if v == 9 {
        '9'
    } else if v == 10 {
        'a'
    } else if v == 11 {
        'b'
    } else if v == 12 {
        'c'
    } else if v == 13 {
        'd'
    } else if v == 14 {
        'e'
    } else {
        'f'
    }
}

/// The lowercase hex encoding of a byte string: two digits per byte.
pub open spec fn hex_lower_spec(b: Seq<u8>) -> Seq<char> {
    Seq::new(
        (2 * b.len()) as nat,
        |i: int|
            if i % 2 == 0 {
                hex_digit_lower(b[i / 2] as int / 16)
            } else {
                hex_digit_lower(b[i / 2] as int % 16)
            },
    )
}

/// The 64-byte Blake2b-512 digest of a byte string.
pub uninterp spec fn blake2b512_of(data: Seq<u8>) -> Seq<u8>;

/// The Ed25519 signature of a message under a 32-byte signing key.
pub uninterp spec fn ed25519_sign_of(key: Seq<u8>, msg: Seq<u8>) -> Seq<u8>;

/// The 32-byte Ed25519 public key derived from a 32-byte signing key.
pub uninterp spec fn ed25519_public_of(key: Seq<u8>) -> Seq<u8>;

/// Whether `sig` verifies for `msg` under the public key `pk`.
pub uninterp spec fn ed25519_verifies(pk: Seq<u8>, msg: Seq<u8>, sig: Seq<u8>) -> bool;

/// The base64 encoding (standard alphabet, no padding) of a byte string.
pub uninterp spec fn b64_nopad_of(b: Seq<u8>) -> Seq<char>;

/// The signing intent message: the three-byte intent header
/// `{scope = 0, version = 0, app id = 0}` followed by the canonical
/// transaction bytes.
pub open spec fn intent_message(tx: Seq<u8>) -> Seq<u8> {
    seq![0u8, 0u8, 0u8] + tx
}

/// The 32-byte signing pre-image: Blake2b-512 of the intent message,
/// truncated to 32 bytes.
pub open spec fn signing_digest(tx: Seq<u8>) -> Seq<u8> {
    blake2b512_of(intent_message(tx)).take(32)
}

/// The serialized signature: `flag 0x00 || 64-byte signature || 32-byte
/// public key`, the signature taken over the signing pre-image.
pub open spec fn serialized_signature_spec(key_hex: Seq<char>, tx: Seq<u8>) -> Seq<u8> {
    let key = hex_decode_spec(key_hex);
    seq![0u8] + ed25519_sign_of(key, signing_digest(tx)) + ed25519_public_of(key)
}

/// Whether a hex string decodes to a 32-byte signing key.
pub open spec fn valid_key_hex(s: Seq<char>) -> bool {
    s.len() == 64 && is_hex_seq(s)
}

/// Relies on `blake2::Blake2b512` (`Digest::new`/`update`/`finalize`):
/// the 64-byte Blake2b-512 digest, a function of the input alone.
#[verifier::external_body]
pub(crate) fn blake2b512(data: &Vec<u8>) -> (r: Vec<u8>)
    ensures
        r@ == blake2b512_of(data@),
        r@.len() == 64,
{
    let mut h = blake2::Blake2b512::new();
    h.update(data.as_slice());
    h.finalize().as_slice().to_vec()
}

/// Relies on `ed25519_dalek::SigningKey::{from_bytes, sign}`: the
/// deterministic Ed25519 signature of the message under the key, which
/// verifies under the signer's public key.
#[verifier::external_body]
fn ed25519_sign(key: &Vec<u8>, msg: &Vec<u8>) -> (r: Vec<u8>)
    requires
        key@.len() == 32,
    ensures
        r@ == ed25519_sign_of(key@, msg@),
        r@.len() == 64,
        ed25519_verifies(ed25519_public_of(key@), msg@, r@),
{
    let kb: [u8; 32] = key.as_slice().try_into().unwrap();
    let sk = ed25519_dalek::SigningKey::from_bytes(&kb);
    sk.sign(msg.as_slice()).to_bytes().to_vec()
}

/// Relies on `ed25519_dalek::SigningKey::verifying_key`: the public key
/// derived from the signing key, a function of the key alone.
#[verifier::external_body]
fn ed25519_public_key(key: &Vec<u8>) -> (r: Vec<u8>)
    requires
        key@.len() == 32,
    ensures
        r@ == ed25519_public_of(key@),
        r@.len() == 32,
{
    let kb: [u8; 32] = key.as_slice().try_into().unwrap();
    let sk = ed25519_dalek::SigningKey::from_bytes(&kb);
    sk.verifying_key().to_bytes().to_vec()
}

/// Relies on `hex::decode`: succeeds exactly on even-length hex input,
/// yielding the decoded bytes.
#[verifier::external_body]
fn hex_decode(s: &str) -> (r: Result<Vec<u8>, AggrError>)
    ensures
        r is Ok <==> (s@.len() % 2 == 0 && is_hex_seq(s@)),
        (r matches Ok(v) ==> v@ == hex_decode_spec(s@)),
        r is Err ==> r->Err_0 == AggrError::Signing,
{
    hex::decode(s).map_err(|_| AggrError::Signing)
}

/// Relies on `hex::encode`: the lowercase hex encoding, two digits per
/// byte.
#[verifier::external_body]
pub(crate) fn hex_encode(b: &Vec<u8>) -> (r: String)
    ensures
        r@ == hex_lower_spec(b@),
{
    hex::encode(b.as_slice())
}

/// Base64 (standard alphabet, no padding) of a serialized signature, as
/// submitted over JSON-RPC.
///
/// Relies on `base64`'s `STANDARD_NO_PAD` engine: four output characters
/// for every three input bytes, the last group unpadded.
#[verifier::external_body]
pub fn serialize_signature_b64(sig_ser: &[u8]) -> (r: String)
    ensures
        r@ == b64_nopad_of(sig_ser@),
        r@.len() == (sig_ser@.len() * 4 + 2) / 3,
        sig_ser@.len() == 0 ==> r@.len() == 0,
{
    STANDARD_NO_PAD.encode(sig_ser)
}

/// Append every byte of `src` to `dst`.
pub(crate) fn push_bytes(dst: &mut Vec<u8>, src: &[u8])
    ensures
        final(dst)@ == old(dst)@ + src@,
{
    let mut i: usize = 0;
    proof {
        assert(dst@ =~= old(dst)@ + src@.take(0));
    }
    while i < src.len()
        invariant
            i <= src@.len(),
            dst@ == old(dst)@ + src@.take(i as int),
        decreases src@.len() - i,
    {
        dst.push(src[i]);
        proof {
            assert(old(dst)@ + src@.take(i as int) + seq![src@[i as int]] =~= old(dst)@
                + src@.take(i + 1));
        }
        i = i + 1;
    }
    proof {
        assert(old(dst)@ + src@.take(src@.len() as int) =~= old(dst)@ + src@);
    }
}

/// The first `n` bytes of `src` as a fresh vector.
pub(crate) fn take_bytes(src: &Vec<u8>, n: usize) -> (r: Vec<u8>)
    requires
        n <= src@.len(),
    ensures
        r@ == src@.take(n as int),
{
    let mut r: Vec<u8> = Vec::new();
    let mut i: usize = 0;
    proof {
        assert(r@ =~= src@.take(0));
    }
    while i < n
        invariant
            i <= n <= src@.len(),
            r@ == src@.take(i as int),
        decreases n - i,
    {
        r.push(src[i]);
        proof {
            assert(src@.take(i as int).push(src@[i as int]) =~= src@.take(i + 1));
        }
        i = i + 1;
    }
    r
}

/// Compose the intent message for canonical transaction bytes.
fn build_intent_message(tx_bcs: &[u8]) -> (r: Vec<u8>)
    ensures
        r@ == intent_message(tx_bcs@),
{
    let mut intent: Vec<u8> = Vec::new();
    intent.push(0u8);
    intent.push(0u8);
    intent.push(0u8);
    proof {
        assert(intent@ =~= seq![0u8, 0u8, 0u8]);
    }
    push_bytes(&mut intent, tx_bcs);
    intent
}

/// Sign canonical transaction bytes with a hex-encoded Ed25519 key.
///
/// The pre-image is the three-byte intent header followed by the
/// transaction bytes, hashed with Blake2b-512 and truncated to 32 bytes.
/// Returns the serialized signature `flag 0x00 || signature || public
/// key` and the 32-byte public key. Fails with `Signing` exactly when
/// the key is not 64 hex digits.
pub fn sign_tx_bcs_ed25519_to_serialized_signature(tx_bcs: &[u8], secret_hex: &str) -> (r: Result<
    (Vec<u8>, Vec<u8>),
    AggrError,
>)
    ensures
        r is Ok <==> valid_key_hex(secret_hex@),
        (r matches Ok(p) ==> p.0@ == serialized_signature_spec(secret_hex@, tx_bcs@) && p.1@
            == ed25519_public_of(hex_decode_spec(secret_hex@)) && p.0@.len() == 97),
        (r matches Ok(p) ==> ed25519_verifies(p.1@, signing_digest(tx_bcs@), p.0@.subrange(1, 65))),
        r is Err ==> r->Err_0 == AggrError::Signing,
{
    let key = match hex_decode(secret_hex) {
        Ok(k) => k,
        Err(e) => {
            return Err(e);
        },
    };
    if key.len() != 32 {
        return Err(AggrError::Signing);
    }
    let intent = build_intent_message(tx_bcs);
    let hash = blake2b512(&intent);
    let digest = take_bytes(&hash, 32);
    let sig = ed25519_sign(&key, &digest);
    let pk = ed25519_public_key(&key);

    let mut serialized: Vec<u8> = Vec::new();
    serialized.push(0u8);
    push_bytes(&mut serialized, sig.as_slice());
    push_bytes(&mut serialized, pk.as_slice());
    proof {
        assert(seq![0u8] + sig@ + pk@ =~= serialized@);
        assert(serialized@.subrange(1, 65) =~= sig@);
    }
    Ok((serialized, pk))
}

/// Sign the same transaction bytes with several keys in order, as a
/// user-plus-sponsor signing set. Fails with `Signing` exactly when some
/// key is not 64 hex digits.
pub fn sign_tx_bcs_multi_ed25519(tx_bcs: &[u8], secret_keys_hex: &Vec<String>) -> (r: Result<
    Vec<Vec<u8>>,
    AggrError,
>)
    ensures
        r is Ok <==> (forall|i: int|
            0 <= i < secret_keys_hex@.len() ==> valid_key_hex(
                (#[trigger] secret_keys_hex@[i])@,
            )),
        (r matches Ok(sigs) ==> sigs@.len() == secret_keys_hex@.len() && forall|i: int|
            0 <= i < sigs@.len() ==> (#[trigger] sigs@[i])@ == serialized_signature_spec(
                secret_keys_hex@[i]@,
                tx_bcs@,
            )),
        r is Err ==> r->Err_0 == AggrError::Signing,
{
    let mut signatures: Vec<Vec<u8>> = Vec::new();
    let mut i: usize = 0;
    while i < secret_keys_hex.len()
        invariant
            i <= secret_keys_hex@.len(),
            signatures@.len() == i,
            forall|j: int|
                0 <= j < i ==> valid_key_hex((#[trigger] secret_keys_hex@[j])@),
            forall|j: int|
                0 <= j < i ==> (#[trigger] signatures@[j])@ == serialized_signature_spec(
                    secret_keys_hex@[j]@,
                    tx_bcs@,
                ),
        decreases secret_keys_hex@.len() - i,
    {
        match sign_tx_bcs_ed25519_to_serialized_signature(
            tx_bcs,
            secret_keys_hex[i].as_str(),
        ) {
            Ok((sig, _)) => {
                signatures.push(sig);
            },
            Err(e) => {
                return Err(e);
            },
        }
        i = i + 1;
    }
    Ok(signatures)
}

} // verus!
