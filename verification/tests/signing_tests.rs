use base64::engine::general_purpose::STANDARD_NO_PAD;
use base64::Engine;
use blake2::digest::Digest;
use ed25519_dalek::{Signature, Verifier, VerifyingKey};
use ultra_aggr::errors::AggrError;
use ultra_aggr::signing::{
    serialize_signature_b64, sign_tx_bcs_ed25519_to_serialized_signature,
    sign_tx_bcs_multi_ed25519,
};

const KEY_HEX: &str = "9bf49a6a0755f953811fce125f2683d50429c3bb49e074147e0089a52eae155f";

fn signing_pre_image(tx: &[u8]) -> [u8; 32] {
    let mut intent = vec![0u8, 0u8, 0u8];
    intent.extend_from_slice(tx);
    let mut h = blake2::Blake2b512::new();
    h.update(&intent);
    let mut digest = [0u8; 32];
    digest.copy_from_slice(&h.finalize()[..32]);
    digest
}

#[test]
fn serialized_signature_has_flag_sig_pubkey_layout() {
    let tx = b"tx bytes";
    let (ser, pk) = sign_tx_bcs_ed25519_to_serialized_signature(tx, KEY_HEX).unwrap();
    assert_eq!(ser.len(), 1 + 64 + 32);
    assert_eq!(ser[0], 0x00);
    assert_eq!(&ser[65..], pk.as_slice());
    let key_bytes: [u8; 32] = hex::decode(KEY_HEX).unwrap().try_into().unwrap();
    let expected_pk = ed25519_dalek::SigningKey::from_bytes(&key_bytes)
        .verifying_key()
        .to_bytes();
    assert_eq!(pk.as_slice(), expected_pk.as_slice());
}

#[test]
fn signature_verifies_over_intent_hash() {
    // Serialize, hash, sign; the signature verifies under the signer's
    // public key.
    let tx = b"any transaction bytes";
    let (ser, pk) = sign_tx_bcs_ed25519_to_serialized_signature(tx, KEY_HEX).unwrap();
    let digest = signing_pre_image(tx);
    let vk = VerifyingKey::from_bytes(&pk.as_slice().try_into().unwrap()).unwrap();
    let sig = Signature::from_bytes(&ser[1..65].try_into().unwrap());
    assert!(vk.verify(&digest, &sig).is_ok());
    // It does not verify for different bytes.
    let other = signing_pre_image(b"other transaction");
    assert!(vk.verify(&other, &sig).is_err());
}

#[test]
fn bad_keys_fail_with_signing_error() {
    assert_eq!(
        sign_tx_bcs_ed25519_to_serialized_signature(b"tx", "not-hex"),
        Err(AggrError::Signing)
    );
    // Wrong length.
    assert_eq!(
        sign_tx_bcs_ed25519_to_serialized_signature(b"tx", "abcd"),
        Err(AggrError::Signing)
    );
    // Odd length.
    assert_eq!(
        sign_tx_bcs_ed25519_to_serialized_signature(b"tx", &KEY_HEX[..63]),
        Err(AggrError::Signing)
    );
}

#[test]
fn multi_sign_returns_one_signature_per_key() {
    let keys = vec![KEY_HEX.to_string(), "cd".repeat(32)];
    let sigs = sign_tx_bcs_multi_ed25519(b"tx", &keys).unwrap();
    assert_eq!(sigs.len(), 2);
    assert_ne!(sigs[0], sigs[1]);
    for s in &sigs {
        assert_eq!(s.len(), 97);
        assert_eq!(s[0], 0x00);
    }
    let bad = vec![KEY_HEX.to_string(), "zz".to_string()];
    assert_eq!(sign_tx_bcs_multi_ed25519(b"tx", &bad), Err(AggrError::Signing));
}

#[test]
fn signature_base64_matches_engine_without_padding() {
    let payload = [1u8, 2, 3, 4, 5];
    let b64 = serialize_signature_b64(&payload);
    assert_eq!(b64, STANDARD_NO_PAD.encode(payload));
    assert_eq!(b64.len(), (payload.len() * 4 + 2) / 3);
    assert!(!b64.ends_with('='));
    assert_eq!(serialize_signature_b64(&[]), "");
}
