//! WebAuthn assertion verification with real secp256r1 signatures: the
//! host interface is implemented on top of the p256 crate, aborting
//! (panicking) on an invalid signature as the chain's primitive would,
//! while the challenge comparison stays a recoverable, typed failure.

use p256::ecdsa::signature::hazmat::PrehashVerifier;
use p256::ecdsa::signature::Signer as _;
use p256::ecdsa::{Signature, SigningKey, VerifyingKey};
use sha2::Digest as _;
use smart_account::account::SmartAccount;
use smart_account::error::Error;
use smart_account::host::{
    Address, Context, ContractContext, HostEnv, SmartAccountPlugin, SmartAccountPolicy,
};
use smart_account::policy::SignerRole;
use smart_account::proofs::{Secp256r1Signature, SignatureProofs, SignerProof};
use smart_account::signer::{Secp256r1Signer, Signer, SignerKey};
use smart_account::webauthn::{b64url_encode, extract_challenge};

struct P256Host;

impl HostEnv for P256Host {
    fn require_auth(&self, _source: &Address) {}

    fn sha256(&self, data: &Vec<u8>) -> Vec<u8> {
        sha2::Sha256::digest(data.as_slice()).to_vec()
    }

    fn ed25519_verify(&self, _public_key: &Vec<u8>, _message: &Vec<u8>, _signature: &Vec<u8>) {
        unreachable!()
    }

    fn secp256r1_verify(&self, public_key: &Vec<u8>, digest: &Vec<u8>, signature: &Vec<u8>) {
        let vk = VerifyingKey::from_sec1_bytes(public_key.as_slice()).expect("valid key");
        let sig = Signature::from_slice(signature.as_slice()).expect("sig length");
        vk.verify_prehash(digest.as_slice(), &sig).expect("invalid secp256r1 signature");
    }

    fn update_current_contract_wasm(&self, _new_wasm_hash: &Vec<u8>) {}
}

impl SmartAccountPolicy for P256Host {
    fn on_add(&mut self, _policy: &Address, _source: &Address) -> bool {
        true
    }

    fn on_revoke(&mut self, _policy: &Address, _source: &Address) -> bool {
        true
    }

    fn is_authorized(&mut self, _policy: &Address, _source: &Address, _contexts: &Vec<Context>) -> bool {
        true
    }
}

impl SmartAccountPlugin for P256Host {
    fn on_install(&mut self, _plugin: &Address, _source: &Address) -> bool {
        true
    }

    fn on_uninstall(&mut self, _plugin: &Address, _source: &Address) -> bool {
        true
    }

    fn on_auth(&mut self, _plugin: &Address, _source: &Address, _contexts: &Vec<Context>) -> bool {
        true
    }
}

struct WebAuthnTestData {
    signer: Secp256r1Signer,
    signature_payload: Vec<u8>,
    valid_proof: SignerProof,
    signing_key: SigningKey,
}

fn sha256(data: &[u8]) -> Vec<u8> {
    sha2::Sha256::digest(data).to_vec()
}

fn b64url_string(bytes: &[u8]) -> String {
    <base64ct::Base64UrlUnpadded as base64ct::Encoding>::encode_string(bytes)
}

fn make_proof(test_data_key: &SigningKey, client_data_json: Vec<u8>) -> SignerProof {
    let mut authenticator_data = sha256(b"example.com");
    authenticator_data.push(0x01);
    authenticator_data.extend_from_slice(&42u32.to_be_bytes());

    let mut signed_data = authenticator_data.clone();
    signed_data.extend_from_slice(&sha256(&client_data_json));
    let signature: Signature = test_data_key.sign(&signed_data);

    SignerProof::Secp256r1(Secp256r1Signature {
        authenticator_data,
        client_data_json,
        signature: signature.to_bytes().to_vec(),
    })
}

fn create_webauthn_test_data() -> WebAuthnTestData {
    let sk_bytes = [1u8; 32];
    let signing_key = SigningKey::from_bytes(&sk_bytes.into()).expect("signing key");
    let verifying_key = VerifyingKey::from(&signing_key);
    let pk_bytes = verifying_key.to_encoded_point(false).as_bytes().to_vec();

    let signer = Secp256r1Signer::new(b"test_credential_id".to_vec(), pk_bytes);

    let signature_payload = vec![0xAB; 32];
    let challenge_b64 = b64url_string(&signature_payload);
    let client_data_json = format!(
        "{{\"type\":\"webauthn.get\",\"challenge\":\"{}\",\"origin\":\"https://example.com\"}}",
        challenge_b64
    )
    .into_bytes();

    let valid_proof = make_proof(&signing_key, client_data_json);

    WebAuthnTestData { signer, signature_payload, valid_proof, signing_key }
}

fn create_wrong_challenge_proof(test_data: &WebAuthnTestData) -> SignerProof {
    let correct = b64url_string(&test_data.signature_payload);
    let wrong_challenge = format!("{}X", &correct[..correct.len() - 1]);
    let client_data_json = format!(
        "{{\"type\":\"webauthn.get\",\"challenge\":\"{}\",\"origin\":\"https://example.com\"}}",
        wrong_challenge
    )
    .into_bytes();
    make_proof(&test_data.signing_key, client_data_json)
}

fn create_invalid_signature_proof(test_data: &WebAuthnTestData) -> SignerProof {
    if let SignerProof::Secp256r1(valid_sig) = &test_data.valid_proof {
        let mut bad_sig_bytes = valid_sig.signature.clone();
        bad_sig_bytes[0] ^= 0x01;
        SignerProof::Secp256r1(Secp256r1Signature {
            authenticator_data: valid_sig.authenticator_data.clone(),
            client_data_json: valid_sig.client_data_json.clone(),
            signature: bad_sig_bytes,
        })
    } else {
        panic!("Expected Secp256r1 proof");
    }
}

#[test]
fn test_secp256r1_webauthn_valid_signature_passes() {
    let host = P256Host;
    let test_data = create_webauthn_test_data();

    test_data
        .signer
        .verify(&host, &test_data.signature_payload, &test_data.valid_proof)
        .unwrap();
}

#[test]
fn test_secp256r1_webauthn_wrong_challenge_rejected() {
    let host = P256Host;
    let test_data = create_webauthn_test_data();
    let wrong_proof = create_wrong_challenge_proof(&test_data);

    let result = test_data.signer.verify(&host, &test_data.signature_payload, &wrong_proof);
    assert!(matches!(result, Err(Error::ClientDataJsonIncorrectChallenge)));
}

#[test]
#[should_panic]
fn test_secp256r1_webauthn_invalid_signature_panics() {
    let host = P256Host;
    let test_data = create_webauthn_test_data();
    let invalid_proof = create_invalid_signature_proof(&test_data);

    let _ = test_data.signer.verify(&host, &test_data.signature_payload, &invalid_proof);
}

#[test]
fn test_secp256r1_end_to_end_smart_account_auth() {
    let mut host = P256Host;
    let test_data = create_webauthn_test_data();

    let signer = Signer::Secp256r1(
        Secp256r1Signer::new(
            test_data.signer.key_id.clone(),
            test_data.signer.public_key.clone(),
        ),
        SignerRole::Admin,
    );
    let account = SmartAccount::__constructor(
        &mut host,
        Address { id: 900 },
        vec![signer],
        Vec::new(),
        0,
    )
    .unwrap();

    let signer_key = SignerKey::Secp256r1(test_data.signer.key_id.clone());
    let bundle = SignatureProofs(vec![(signer_key, test_data.valid_proof)]);
    let context = Context::Contract(ContractContext {
        contract: Address { id: 7777 },
        fn_name: b"transfer".to_vec(),
        args: Vec::new(),
    });

    match account.__check_auth(&mut host, &test_data.signature_payload, &bundle, &vec![context], 0)
    {
        Ok(()) => {},
        Err(e) => {
            panic!("Authentication failed: {:?}", e);
        },
    }
}

#[test]
fn test_wrong_proof_variant_is_rejected() {
    let host = P256Host;
    let test_data = create_webauthn_test_data();

    let ed_proof = SignerProof::Ed25519(vec![0u8; 64]);
    let result = test_data.signer.verify(&host, &test_data.signature_payload, &ed_proof);
    assert!(matches!(result, Err(Error::InvalidProofType)));
}

#[test]
fn test_oversized_client_data_rejected() {
    let host = P256Host;
    let test_data = create_webauthn_test_data();

    let mut padded = format!(
        "{{\"type\":\"webauthn.get\",\"challenge\":\"{}\",\"origin\":\"https://example.com\"",
        b64url_string(&test_data.signature_payload)
    );
    padded.push_str(&"x".repeat(1100));
    padded.push('}');
    let oversized_proof = make_proof(&test_data.signing_key, padded.into_bytes());

    let result = test_data.signer.verify(&host, &test_data.signature_payload, &oversized_proof);
    assert!(matches!(result, Err(Error::InvalidWebauthnClientDataJson)));
}

#[test]
fn test_extract_challenge_finds_member() {
    let json = b"{\"type\":\"webauthn.get\",\"challenge\":\"abc-_123\",\"origin\":\"x\"}".to_vec();
    let challenge = extract_challenge(&json).unwrap();
    assert_eq!(challenge, b"abc-_123".to_vec());

    let missing = b"{\"type\":\"webauthn.get\",\"origin\":\"x\"}".to_vec();
    assert!(extract_challenge(&missing).is_none());

    let unterminated = b"{\"challenge\":\"abc".to_vec();
    assert!(extract_challenge(&unterminated).is_none());
}

#[test]
fn test_extract_challenge_accepts_json_whitespace() {
    let spaced = b"{ \"type\": \"webauthn.get\", \"challenge\" : \"abc-_123\" }".to_vec();
    assert_eq!(extract_challenge(&spaced).unwrap(), b"abc-_123".to_vec());

    let newline = b"{\n  \"challenge\"\t:\r\n \"zz9\"\n}".to_vec();
    assert_eq!(extract_challenge(&newline).unwrap(), b"zz9".to_vec());
}

#[test]
fn test_extract_challenge_rejects_escaped_value() {
    let escaped = b"{\"challenge\":\"ab\\ncd\"}".to_vec();
    assert!(extract_challenge(&escaped).is_none());
}

#[test]
fn test_client_data_with_whitespace_verifies() {
    let host = P256Host;
    let test_data = create_webauthn_test_data();

    let challenge_b64 = b64url_string(&test_data.signature_payload);
    let spaced_client_data = format!(
        "{{\"type\": \"webauthn.get\", \"challenge\": \"{}\", \"origin\": \"https://example.com\"}}",
        challenge_b64
    )
    .into_bytes();
    let proof = make_proof(&test_data.signing_key, spaced_client_data);

    test_data.signer.verify(&host, &test_data.signature_payload, &proof).unwrap();
}

#[test]
fn test_client_data_with_escaped_challenge_is_malformed() {
    let host = P256Host;
    let test_data = create_webauthn_test_data();

    let client_data = b"{\"type\":\"webauthn.get\",\"challenge\":\"ab\\ncd\"}".to_vec();
    let proof = make_proof(&test_data.signing_key, client_data);

    let result = test_data.signer.verify(&host, &test_data.signature_payload, &proof);
    assert!(matches!(result, Err(Error::InvalidWebauthnClientDataJson)));
}

#[test]
fn test_b64url_encode_known_vector() {
    let zeros = vec![0u8; 32];
    let encoded = b64url_encode(&zeros);
    assert_eq!(encoded, "A".repeat(43).into_bytes());

    let payload = vec![0xAB; 32];
    assert_eq!(b64url_encode(&payload), b64url_string(&payload).into_bytes());
}
