use blake2::Digest;
use sponsor_signer::{
    signing_message_of, verify_signature, Intent, IntentMessage, SidecarTxSigner, Signature,
    SignatureScheme, SigningError, SuiAddress, SuiKeyPair, TestTxSigner, TransactionData, TxSigner,
};

fn hex(s: &str) -> Vec<u8> {
    (0..s.len())
        .step_by(2)
        .map(|i| u8::from_str_radix(&s[i..i + 2], 16).unwrap())
        .collect()
}

const RFC8032_SECRET: &str = "9d61b19deffd5a60ba844af492ec2cc44449c5697b326919703bac031cae7f60";
const RFC8032_PUBLIC: &str = "d75a980182b10ab7d54bfed3c964073a0ee172f3daa62325af021a68f707511a";

fn keypair(seed_byte: u8) -> SuiKeyPair {
    SuiKeyPair::from_seed(vec![seed_byte; 32]).unwrap()
}

fn sample_tx() -> TransactionData {
    TransactionData::from_bcs_bytes(vec![7, 1, 2, 3, 250, 0, 42])
}

fn ed25519_bytes(fill: u8) -> Vec<u8> {
    let mut b = vec![0u8];
    b.extend(vec![fill; 64]);
    b.extend(vec![fill.wrapping_add(1); 32]);
    b
}

fn json_array(bytes: &[u8]) -> Vec<u8> {
    serde_json::to_vec(&bytes.to_vec()).unwrap()
}

#[test]
fn intent_message_prefixes_intent_bytes() {
    let tx = TransactionData::from_bcs_bytes(vec![9, 8, 7]);
    let intent = Intent { scope: 3, version: 0, app_id: 1 };
    assert_eq!(IntentMessage::new(intent, &tx).to_bytes(), vec![3, 0, 1, 9, 8, 7]);
    assert_eq!(signing_message_of(&tx), vec![0, 0, 0, 9, 8, 7]);
}

#[test]
fn signing_message_of_empty_payload_is_intent_only() {
    let tx = TransactionData::from_bcs_bytes(vec![]);
    assert_eq!(signing_message_of(&tx), vec![0, 0, 0]);
}

#[test]
fn encoding_is_deterministic() {
    let a = signing_message_of(&sample_tx());
    let b = signing_message_of(&sample_tx());
    assert_eq!(a, b);
}

#[test]
fn signature_round_trip_ed25519() {
    let bytes = ed25519_bytes(5);
    let sig = Signature::from_bytes(&bytes).unwrap();
    assert_eq!(sig.scheme(), SignatureScheme::Ed25519);
    assert_eq!(sig.signature_bytes(), &vec![5u8; 64]);
    assert_eq!(sig.public_key_bytes(), &vec![6u8; 32]);
    assert_eq!(sig.to_bytes(), bytes);
    assert_eq!(Signature::from_bytes(&sig.to_bytes()).unwrap(), sig);
}

#[test]
fn signature_round_trip_secp256k1_and_r1() {
    for (flag, scheme) in [(1u8, SignatureScheme::Secp256k1), (2u8, SignatureScheme::Secp256r1)] {
        let mut bytes = vec![flag];
        bytes.extend(vec![3u8; 64]);
        bytes.extend(vec![4u8; 33]);
        let sig = Signature::from_bytes(&bytes).unwrap();
        assert_eq!(sig.scheme(), scheme);
        assert_eq!(sig.to_bytes(), bytes);
    }
}

#[test]
fn signature_new_encodes_parts() {
    let sig = Signature::new(SignatureScheme::Secp256r1, vec![1; 64], vec![2; 33]);
    let bytes = sig.to_bytes();
    assert_eq!(bytes.len(), 98);
    assert_eq!(bytes[0], 2);
    assert_eq!(bytes[1], 1);
    assert_eq!(bytes[97], 2);
}

#[test]
fn signature_from_bytes_rejects_bad_input() {
    assert_eq!(Signature::from_bytes(&[]), Err(SigningError::InvalidSignatureEncoding));
    let mut short = ed25519_bytes(1);
    short.pop();
    assert_eq!(Signature::from_bytes(&short), Err(SigningError::InvalidSignatureEncoding));
    let mut long = ed25519_bytes(1);
    long.push(0);
    assert_eq!(Signature::from_bytes(&long), Err(SigningError::InvalidSignatureEncoding));
    let mut unknown = ed25519_bytes(1);
    unknown[0] = 5;
    assert_eq!(Signature::from_bytes(&unknown), Err(SigningError::InvalidSignatureEncoding));
    let mut secp_short = vec![1u8];
    secp_short.extend(vec![0u8; 96]);
    assert_eq!(Signature::from_bytes(&secp_short), Err(SigningError::InvalidSignatureEncoding));
}

#[test]
fn scheme_flags() {
    assert_eq!(SignatureScheme::Ed25519.flag(), 0);
    assert_eq!(SignatureScheme::Secp256k1.flag(), 1);
    assert_eq!(SignatureScheme::Secp256r1.flag(), 2);
    assert_eq!(SignatureScheme::from_flag_byte(1), Some(SignatureScheme::Secp256k1));
    assert_eq!(SignatureScheme::from_flag_byte(3), None);
    assert_eq!(SignatureScheme::Secp256k1.public_key_length(), 33);
}

#[test]
fn address_from_bytes_checks_length() {
    assert!(SuiAddress::from_bytes(vec![1; 31]).is_none());
    assert!(SuiAddress::from_bytes(vec![1; 33]).is_none());
    let a = SuiAddress::from_bytes(vec![1; 32]).unwrap();
    assert_eq!(a.as_bytes(), &[1u8; 32][..]);
}

#[test]
fn address_is_blake2b_of_flag_and_key() {
    let pk = hex(RFC8032_PUBLIC);
    let addr = SuiAddress::from_public_key(0, &pk);
    let mut data = vec![0u8];
    data.extend(&pk);
    let expected = blake2::Blake2b::<blake2::digest::consts::U32>::digest(&data).to_vec();
    assert_eq!(addr.as_bytes(), &expected[..]);
    assert_ne!(addr.as_bytes(), &pk[..]);
    assert_ne!(SuiAddress::from_public_key(1, &pk), addr);
}

#[test]
fn keypair_public_key_matches_rfc8032() {
    let kp = SuiKeyPair::from_seed(hex(RFC8032_SECRET)).unwrap();
    assert_eq!(kp.public(), &hex(RFC8032_PUBLIC)[..]);
    assert!(SuiKeyPair::from_seed(vec![0; 31]).is_none());
}

#[test]
fn test_signer_address_derives_from_public_key() {
    let kp = SuiKeyPair::from_seed(hex(RFC8032_SECRET)).unwrap();
    let signer = TestTxSigner::new(kp);
    let expected = SuiAddress::from_public_key(0, &hex(RFC8032_PUBLIC));
    assert_eq!(signer.get_address(), expected);
}

#[test]
fn is_valid_address_is_exact_match() {
    let signer = TestTxSigner::new(keypair(3));
    let addr = signer.get_address();
    assert!(signer.is_valid_address(&addr));
    let mut other = addr.as_bytes().to_vec();
    other[31] ^= 1;
    assert!(!signer.is_valid_address(&SuiAddress::from_bytes(other).unwrap()));
    let sidecar = SidecarTxSigner::new(addr.copy(), "http://localhost:3000/sign".to_string());
    assert!(sidecar.is_valid_address(&addr));
    assert!(!sidecar.is_valid_address(&TestTxSigner::new(keypair(4)).get_address()));
}

#[test]
fn local_signature_verifies_against_own_address_only() {
    let signer = TestTxSigner::new(keypair(11));
    let tx = sample_tx();
    let sig = signer.sign_transaction(&tx).unwrap();
    assert_eq!(sig.scheme(), SignatureScheme::Ed25519);
    assert_eq!(sig.to_bytes().len(), 97);
    let msg = signing_message_of(&tx);
    let addr = signer.get_address();
    assert!(verify_signature(&sig, &addr, &msg));
    let other = TestTxSigner::new(keypair(12)).get_address();
    assert!(!verify_signature(&sig, &other, &msg));
    let other_msg = signing_message_of(&TransactionData::from_bcs_bytes(vec![7, 1, 2]));
    assert!(!verify_signature(&sig, &addr, &other_msg));
    assert!(!verify_signature(&sig, &addr, tx.as_bytes()));
}

#[test]
fn local_signature_is_deterministic() {
    let signer = TestTxSigner::new(keypair(2));
    let a = signer.sign_transaction(&sample_tx()).unwrap();
    let b = signer.sign_transaction(&sample_tx()).unwrap();
    assert_eq!(a, b);
}

#[test]
fn local_signature_passes_remote_response_path() {
    let signer = TestTxSigner::new(keypair(21));
    let tx = sample_tx();
    let sig = signer.sign_transaction(&tx).unwrap();
    let body = json_array(&sig.to_bytes());
    let parsed = SidecarTxSigner::signature_from_response(200, &body).unwrap();
    assert_eq!(parsed, sig);
    assert!(verify_signature(&parsed, &signer.get_address(), &signing_message_of(&tx)));
}

#[test]
fn verify_rejects_other_schemes() {
    let sig = Signature::new(SignatureScheme::Secp256k1, vec![1; 64], vec![2; 33]);
    let addr = SuiAddress::from_public_key(1, &[2; 33]);
    assert!(!verify_signature(&sig, &addr, &[0, 0, 0]));
}

#[test]
fn sidecar_request_body_carries_tx_bytes() {
    let signer = SidecarTxSigner::new(
        SuiAddress::from_bytes(vec![9; 32]).unwrap(),
        "http://signer:8080/sign".to_string(),
    );
    let tx = TransactionData::from_bcs_bytes(vec![1, 2, 255]);
    let body = signer.request_body(&tx);
    assert_eq!(String::from_utf8(body).unwrap(), "{\"txBytes\":[0,0,0,1,2,255]}");
    assert_eq!(signer.sidecar_url(), "http://signer:8080/sign");
    assert_eq!(signer.get_address().as_bytes(), &[9u8; 32][..]);
}

#[test]
fn sidecar_echoed_signature_is_parsed() {
    let bytes0 = ed25519_bytes(77);
    let body = json_array(&bytes0);
    let sig = SidecarTxSigner::signature_from_response(200, &body).unwrap();
    assert_eq!(sig, Signature::from_bytes(&bytes0).unwrap());
    let spaced = b" [0, 1, 2 ] ".to_vec();
    assert_eq!(
        SidecarTxSigner::signature_from_response(200, &spaced),
        Err(SigningError::InvalidSignatureEncoding)
    );
}

#[test]
fn sidecar_malformed_response_is_invalid_encoding() {
    let mut bad_len = ed25519_bytes(1);
    bad_len.truncate(60);
    assert_eq!(
        SidecarTxSigner::signature_from_response(200, &json_array(&bad_len)),
        Err(SigningError::InvalidSignatureEncoding)
    );
    let mut bad_tag = ed25519_bytes(1);
    bad_tag[0] = 9;
    assert_eq!(
        SidecarTxSigner::signature_from_response(200, &json_array(&bad_tag)),
        Err(SigningError::InvalidSignatureEncoding)
    );
    assert_eq!(
        SidecarTxSigner::signature_from_response(200, b"{\"sig\":1}"),
        Err(SigningError::InvalidSignatureEncoding)
    );
    assert_eq!(
        SidecarTxSigner::signature_from_response(200, b"[0, 256]"),
        Err(SigningError::InvalidSignatureEncoding)
    );
}

#[test]
fn sidecar_error_status_is_network_error() {
    let body = json_array(&ed25519_bytes(1));
    assert_eq!(SidecarTxSigner::signature_from_response(500, &body), Err(SigningError::NetworkError));
    assert_eq!(SidecarTxSigner::signature_from_response(404, &body), Err(SigningError::NetworkError));
    assert_eq!(SidecarTxSigner::signature_from_response(199, &body), Err(SigningError::NetworkError));
    assert!(SidecarTxSigner::signature_from_response(299, &body).is_ok());
}

#[test]
fn rfc_key_signs_and_verifies_only_for_its_address() {
    let kp = SuiKeyPair::from_seed(hex(RFC8032_SECRET)).unwrap();
    let signer = TestTxSigner::new(kp);
    let a = signer.get_address();
    let t = TransactionData::from_bcs_bytes(vec![0, 1, 2, 3, 4, 5, 6, 7]);
    let s = signer.sign_transaction(&t).unwrap();
    assert_eq!(s.public_key_bytes(), &hex(RFC8032_PUBLIC));
    assert!(verify_signature(&s, &a, &signing_message_of(&t)));
    let a2 = SuiAddress::from_bytes(vec![0; 32]).unwrap();
    assert!(!verify_signature(&s, &a2, &signing_message_of(&t)));
}

#[test]
fn sidecar_echoed_bytes_give_from_bytes_result() {
    let a = SuiAddress::from_bytes(vec![4; 32]).unwrap();
    let signer = SidecarTxSigner::new(a, "http://127.0.0.1:9/sign".to_string());
    let mut bytes0 = vec![1u8];
    bytes0.extend(vec![8u8; 64]);
    bytes0.extend(vec![2u8; 33]);
    let t = sample_tx();
    let _request = signer.request_body(&t);
    let got = SidecarTxSigner::signature_from_response(200, &json_array(&bytes0));
    assert_eq!(got, Signature::from_bytes(&bytes0));
    assert!(got.is_ok());
}
