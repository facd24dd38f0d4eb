use p256::pkcs8::EncodePublicKey;
use tls_proof_verifier::bytes::{bytes_eq, push_bytes, push_le64};
use tls_proof_verifier::header::{header_bytes, SessionHeader};
use tls_proof_verifier::notary::{notary_key_from_pem, InfoResponse, notary_key_from_info};
use tls_proof_verifier::errors::VerifyError;
use tls_proof_verifier::substrings::{opening_bytes, Direction, SubstringsOpening};
use tls_proof_verifier::transcript::RedactedTranscript;

#[test]
fn le64_layout() {
    let mut v: Vec<u8> = Vec::new();
    push_le64(&mut v, 0x0102030405060708);
    assert_eq!(v, vec![0x08, 0x07, 0x06, 0x05, 0x04, 0x03, 0x02, 0x01]);
    let mut w: Vec<u8> = Vec::new();
    push_le64(&mut w, 0);
    assert_eq!(w, vec![0; 8]);
}

#[test]
fn push_bytes_appends() {
    let mut v: Vec<u8> = vec![1, 2];
    push_bytes(&mut v, &vec![3, 4, 5]);
    assert_eq!(v, vec![1, 2, 3, 4, 5]);
}

#[test]
fn bytes_eq_by_contents() {
    assert!(bytes_eq(&vec![1, 2, 3], &vec![1, 2, 3]));
    assert!(!bytes_eq(&vec![1, 2, 3], &vec![1, 2, 4]));
    assert!(!bytes_eq(&vec![1, 2, 3], &vec![1, 2]));
    assert!(bytes_eq(&Vec::new(), &Vec::new()));
}

#[test]
fn header_bytes_layout() {
    let h = SessionHeader {
        merkle_root: vec![0xaa; 32],
        nonce: vec![0xbb; 32],
        time: 2,
        sent_len: 3,
        recv_len: 4,
    };
    let b = header_bytes(&h);
    assert_eq!(b.len(), 88);
    assert_eq!(&b[0..32], &[0xaa; 32]);
    assert_eq!(&b[32..64], &[0xbb; 32]);
    assert_eq!(&b[64..72], &[2, 0, 0, 0, 0, 0, 0, 0]);
    assert_eq!(&b[72..80], &[3, 0, 0, 0, 0, 0, 0, 0]);
    assert_eq!(&b[80..88], &[4, 0, 0, 0, 0, 0, 0, 0]);
}

#[test]
fn opening_bytes_layout() {
    let o = SubstringsOpening {
        leaf_index: 9,
        direction: Direction::Received,
        start: 5,
        data: vec![0xde, 0xad],
        blinder: vec![0xcc; 3],
    };
    let b = opening_bytes(&o);
    let mut expected: Vec<u8> = vec![1];
    expected.extend([5, 0, 0, 0, 0, 0, 0, 0]);
    expected.extend([2, 0, 0, 0, 0, 0, 0, 0]);
    expected.extend([0xde, 0xad]);
    expected.extend([3, 0, 0, 0, 0, 0, 0, 0]);
    expected.extend([0xcc, 0xcc, 0xcc]);
    assert_eq!(b, expected);
    let sent = SubstringsOpening {
        leaf_index: 0,
        direction: Direction::Sent,
        start: 0,
        data: Vec::new(),
        blinder: Vec::new(),
    };
    assert_eq!(opening_bytes(&sent)[0], 0);
}

#[test]
fn set_redacted_replaces_only_undisclosed() {
    let mut t = RedactedTranscript {
        data: vec![10, 20, 30, 40],
        disclosed: vec![true, false, true, false],
    };
    t.set_redacted(b'X');
    assert_eq!(t.data, vec![10, b'X', 30, b'X']);
    assert_eq!(t.disclosed, vec![true, false, true, false]);
    assert_eq!(t.data().as_slice(), &[10, b'X', 30, b'X']);
}

#[test]
fn pem_key_round_trip() {
    let sk = p256::ecdsa::SigningKey::from_slice(&[7; 32]).unwrap();
    let pk = p256::PublicKey::from(sk.verifying_key());
    let pem = pk.to_public_key_pem(p256::pkcs8::LineEnding::LF).unwrap();
    let key = notary_key_from_pem(&pem).unwrap();
    assert_eq!(key.bytes, pk.to_sec1_bytes().to_vec());
    assert_eq!(key.bytes.len(), 65);
    assert_eq!(key.bytes[0], 4);
}

#[test]
fn bad_pem_is_resolution_failure() {
    let r = notary_key_from_pem(&"not a pem".to_string());
    assert_eq!(r.err(), Some(VerifyError::KeyResolutionFailed));
    let empty = notary_key_from_info(&InfoResponse {
        version: "0".to_string(),
        public_key: String::new(),
        git_commit_hash: String::new(),
        git_commit_timestamp: String::new(),
    });
    assert_eq!(empty.err(), Some(VerifyError::KeyResolutionFailed));
}

#[test]
fn info_response_key_parses() {
    let sk = p256::ecdsa::SigningKey::from_slice(&[9; 32]).unwrap();
    let pk = p256::PublicKey::from(sk.verifying_key());
    let info = InfoResponse {
        version: "1.0".to_string(),
        public_key: pk.to_public_key_pem(p256::pkcs8::LineEnding::LF).unwrap(),
        git_commit_hash: "0".to_string(),
        git_commit_timestamp: "0".to_string(),
    };
    let key = notary_key_from_info(&info).unwrap();
    assert_eq!(key.bytes, pk.to_sec1_bytes().to_vec());
}
