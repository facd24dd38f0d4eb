use p256::ecdsa::signature::Signer;
use sha2::Digest;
use tls_proof_verifier::errors::VerifyError;
use tls_proof_verifier::header::{header_bytes, SessionHeader};
use tls_proof_verifier::identity::SessionInfo;
use tls_proof_verifier::notary::NotaryKey;
use tls_proof_verifier::substrings::{
    concat_leaves, opening_bytes, Direction, SubstringsOpening, SubstringsProof,
};
use tls_proof_verifier::tls_proof::{verify_tls_proof, SessionProof, TlsProof};

const TIME: u64 = 1_700_000_000;

fn digest32(v: &Vec<u8>) -> Vec<u8> {
    sha2::Sha256::digest(v.as_slice()).to_vec()
}

fn commit(o: &SubstringsOpening) -> Vec<u8> {
    digest32(&opening_bytes(o))
}

fn signing_key(seed: u8) -> p256::ecdsa::SigningKey {
    p256::ecdsa::SigningKey::from_slice(&[seed; 32]).unwrap()
}

fn key_of(sk: &p256::ecdsa::SigningKey) -> NotaryKey {
    let pk = p256::PublicKey::from(sk.verifying_key());
    NotaryKey { bytes: pk.to_sec1_bytes().to_vec() }
}

/// A fresh root certificate and a leaf certificate valid for `cert_name`.
fn make_certs(cert_name: &str) -> (Vec<u8>, Vec<u8>) {
    let ca_key = rcgen::KeyPair::generate().unwrap();
    let mut ca_params = rcgen::CertificateParams::new(Vec::<String>::new()).unwrap();
    ca_params.is_ca = rcgen::IsCa::Ca(rcgen::BasicConstraints::Unconstrained);
    let ca_cert = ca_params.self_signed(&ca_key).unwrap();
    let ca_der = ca_cert.der().as_ref().to_vec();
    let leaf_key = rcgen::KeyPair::generate().unwrap();
    let leaf_params = rcgen::CertificateParams::new(vec![cert_name.to_string()]).unwrap();
    let issuer = rcgen::Issuer::from_params(&ca_params, ca_key);
    let leaf_cert = leaf_params.signed_by(&leaf_key, &issuer).unwrap();
    (ca_der, leaf_cert.der().as_ref().to_vec())
}

fn sign_header(header: &SessionHeader, sk: &p256::ecdsa::SigningKey) -> Vec<u8> {
    let msg = header_bytes(header);
    let sig: p256::ecdsa::Signature = sk.sign(msg.as_slice());
    sig.to_bytes().to_vec()
}

/// A complete artifact over the given openings, with the leaf commitments
/// computed for them, the header signed by key seed 7, and a certificate
/// chain for `cert_name`.
fn build_proof(
    openings: Vec<SubstringsOpening>,
    extra_leaves: Vec<Vec<u8>>,
    sent_len: u64,
    recv_len: u64,
    server_name: &str,
    cert_name: &str,
) -> (TlsProof, NotaryKey, Vec<Vec<u8>>) {
    let mut leaves: Vec<Vec<u8>> = openings.iter().map(|o| commit(o)).collect();
    leaves.extend(extra_leaves);
    let root = digest32(&concat_leaves(&leaves));
    let header = SessionHeader {
        merkle_root: root,
        nonce: vec![9u8; 32],
        time: TIME,
        sent_len,
        recv_len,
    };
    let sk = signing_key(7);
    let signature = sign_header(&header, &sk);
    let (root_der, leaf_der) = make_certs(cert_name);
    let session_info = SessionInfo {
        server_name: server_name.to_string(),
        end_entity_cert: leaf_der,
        intermediate_certs: Vec::new(),
    };
    let session = SessionProof { header, signature, session_info };
    let substrings = SubstringsProof { leaves, openings };
    (TlsProof { session, substrings }, key_of(&sk), vec![root_der])
}

fn opening(leaf_index: usize, direction: Direction, start: u64, data: Vec<u8>) -> SubstringsOpening {
    SubstringsOpening { leaf_index, direction, start, data, blinder: vec![3u8; 32] }
}

#[test]
fn full_disclosure_sent_redacted_recv() {
    let request = b"GET /secret HTTP/1.1".to_vec();
    let o = opening(0, Direction::Sent, 0, request.clone());
    let (proof, key, roots) =
        build_proof(vec![o], vec![], 20, 30, "api.example.com", "api.example.com");
    let r = verify_tls_proof(&proof, &key, &roots, b'X').unwrap();
    assert_eq!(r.server_name, "api.example.com");
    assert_eq!(r.time, TIME);
    assert_eq!(r.sent.data().as_slice(), request.as_slice());
    assert_eq!(r.recv.data().len(), 30);
    assert!(r.recv.data().iter().all(|b| *b == b'X'));
}

#[test]
fn correct_key_accepts_wrong_key_rejects() {
    let o = opening(0, Direction::Sent, 0, b"hello".to_vec());
    let (proof, key, roots) = build_proof(vec![o], vec![], 5, 0, "api.example.com", "api.example.com");
    assert!(verify_tls_proof(&proof, &key, &roots, b'X').is_ok());
    let other = key_of(&signing_key(8));
    assert_eq!(
        verify_tls_proof(&proof, &other, &roots, b'X').err(),
        Some(VerifyError::InvalidSignature)
    );
}

#[test]
fn overlapping_ranges_rejected() {
    let a = opening(0, Direction::Sent, 0, b"0123456789".to_vec());
    let b = opening(1, Direction::Sent, 5, b"56789abcde".to_vec());
    let (proof, key, roots) =
        build_proof(vec![a, b], vec![], 20, 0, "api.example.com", "api.example.com");
    assert_eq!(
        verify_tls_proof(&proof, &key, &roots, b'X').err(),
        Some(VerifyError::OverlappingRanges)
    );
}

#[test]
fn overlap_in_other_direction_is_fine() {
    let a = opening(0, Direction::Sent, 0, b"0123456789".to_vec());
    let b = opening(1, Direction::Received, 5, b"56789abcde".to_vec());
    let (proof, key, roots) =
        build_proof(vec![a, b], vec![], 20, 20, "api.example.com", "api.example.com");
    let r = verify_tls_proof(&proof, &key, &roots, b'X').unwrap();
    assert_eq!(r.sent.data().as_slice(), b"0123456789XXXXXXXXXX");
    assert_eq!(r.recv.data().as_slice(), b"XXXXX56789abcdeXXXXX");
}

#[test]
fn zero_length_ranges_never_overlap() {
    let a = opening(0, Direction::Sent, 2, Vec::new());
    let b = opening(1, Direction::Sent, 2, Vec::new());
    let c = opening(2, Direction::Sent, 0, b"abcde".to_vec());
    let (proof, key, roots) =
        build_proof(vec![a, b, c], vec![], 5, 0, "api.example.com", "api.example.com");
    let r = verify_tls_proof(&proof, &key, &roots, b'X').unwrap();
    assert_eq!(r.sent.data().as_slice(), b"abcde");
}

#[test]
fn zero_length_range_at_end_in_bounds() {
    let z = opening(0, Direction::Sent, 4, Vec::new());
    let (proof, key, roots) =
        build_proof(vec![z], vec![], 4, 0, "api.example.com", "api.example.com");
    let r = verify_tls_proof(&proof, &key, &roots, b'X').unwrap();
    assert_eq!(r.sent.data().as_slice(), b"XXXX");
    let beyond = opening(0, Direction::Sent, 5, Vec::new());
    let (proof2, key2, roots2) =
        build_proof(vec![beyond], vec![], 4, 0, "api.example.com", "api.example.com");
    assert_eq!(
        verify_tls_proof(&proof2, &key2, &roots2, b'X').err(),
        Some(VerifyError::RangeOutOfBounds)
    );
}

#[test]
fn out_of_bounds_rejected() {
    let o = opening(0, Direction::Sent, 95, b"0123456789".to_vec());
    let (proof, key, roots) =
        build_proof(vec![o], vec![], 100, 0, "api.example.com", "api.example.com");
    assert_eq!(
        verify_tls_proof(&proof, &key, &roots, b'X').err(),
        Some(VerifyError::RangeOutOfBounds)
    );
}

#[test]
fn verify_twice_identical() {
    let o = opening(0, Direction::Sent, 3, b"abcdef".to_vec());
    let (proof, key, roots) =
        build_proof(vec![o], vec![], 12, 4, "api.example.com", "api.example.com");
    let r1 = verify_tls_proof(&proof, &key, &roots, b'X').unwrap();
    let r2 = verify_tls_proof(&proof, &key, &roots, b'X').unwrap();
    assert_eq!(r1.server_name, r2.server_name);
    assert_eq!(r1.time, r2.time);
    assert_eq!(r1.sent.data(), r2.sent.data());
    assert_eq!(r1.recv.data(), r2.recv.data());
    assert_eq!(r1.sent.disclosed, r2.sent.disclosed);
    assert_eq!(r1.recv.disclosed, r2.recv.disclosed);
}

#[test]
fn zero_length_range_accepted() {
    let z = opening(0, Direction::Sent, 5, Vec::new());
    let a = opening(1, Direction::Sent, 0, b"abc".to_vec());
    let (proof, key, roots) =
        build_proof(vec![z, a], vec![], 10, 0, "api.example.com", "api.example.com");
    let r = verify_tls_proof(&proof, &key, &roots, b'X').unwrap();
    assert_eq!(r.sent.data().as_slice(), b"abcXXXXXXX");
}

#[test]
fn adjacent_ranges_no_gap_no_overlap() {
    let a = opening(0, Direction::Sent, 0, b"0123456789".to_vec());
    let b = opening(1, Direction::Sent, 10, b"ABCDEFGHIJ".to_vec());
    let (proof, key, roots) =
        build_proof(vec![a, b], vec![], 100, 0, "api.example.com", "api.example.com");
    let r = verify_tls_proof(&proof, &key, &roots, b'X').unwrap();
    assert_eq!(&r.sent.data()[0..20], b"0123456789ABCDEFGHIJ");
    assert!(r.sent.data()[20..100].iter().all(|b| *b == b'X'));
    assert_eq!(r.sent.data().len(), 100);
}

#[test]
fn hostname_mismatch_rejected() {
    let o = opening(0, Direction::Sent, 0, b"x".to_vec());
    let (proof, key, roots) =
        build_proof(vec![o], vec![], 1, 0, "api.example.com", "other.example.com");
    assert_eq!(
        verify_tls_proof(&proof, &key, &roots, b'X').err(),
        Some(VerifyError::HostnameMismatch)
    );
}

#[test]
fn untrusted_chain_rejected() {
    let o = opening(0, Direction::Sent, 0, b"x".to_vec());
    let (proof, key, _roots) =
        build_proof(vec![o], vec![], 1, 0, "api.example.com", "api.example.com");
    let (unrelated_root, _) = make_certs("api.example.com");
    assert_eq!(
        verify_tls_proof(&proof, &key, &vec![unrelated_root], b'X').err(),
        Some(VerifyError::InvalidCertificateChain)
    );
    assert_eq!(
        verify_tls_proof(&proof, &key, &Vec::new(), b'X').err(),
        Some(VerifyError::InvalidCertificateChain)
    );
}

#[test]
fn chain_judged_at_attested_time() {
    // The rcgen defaults are valid around TIME; a timestamp far outside
    // any plausible validity window must fail even though nothing else
    // changed, because validity is bound to the attested time.
    let o = opening(0, Direction::Sent, 0, b"x".to_vec());
    let (mut proof, _key, roots) =
        build_proof(vec![o], vec![], 1, 0, "api.example.com", "api.example.com");
    proof.session.header.time = 100; // the year 1970
    let sk = signing_key(7);
    proof.session.signature = sign_header(&proof.session.header, &sk);
    assert_eq!(
        verify_tls_proof(&proof, &key_of(&sk), &roots, b'X').err(),
        Some(VerifyError::InvalidCertificateChain)
    );
}

#[test]
fn tamper_header_any_bit_fails() {
    let o = opening(0, Direction::Sent, 0, b"hello".to_vec());
    let (proof, key, roots) = build_proof(vec![o], vec![], 5, 0, "api.example.com", "api.example.com");
    for byte in 0..32 {
        for bit in 0..8 {
            let mut tampered_root = proof.session.header.merkle_root.clone();
            tampered_root[byte] ^= 1u8 << bit;
            let mut p = TlsProof {
                session: SessionProof {
                    header: SessionHeader {
                        merkle_root: tampered_root,
                        nonce: proof.session.header.nonce.clone(),
                        time: proof.session.header.time,
                        sent_len: proof.session.header.sent_len,
                        recv_len: proof.session.header.recv_len,
                    },
                    signature: proof.session.signature.clone(),
                    session_info: SessionInfo {
                        server_name: proof.session.session_info.server_name.clone(),
                        end_entity_cert: proof.session.session_info.end_entity_cert.clone(),
                        intermediate_certs: Vec::new(),
                    },
                },
                substrings: SubstringsProof {
                    leaves: proof.substrings.leaves.clone(),
                    openings: vec![opening(0, Direction::Sent, 0, b"hello".to_vec())],
                },
            };
            assert_eq!(
                verify_tls_proof(&p, &key, &roots, b'X').err(),
                Some(VerifyError::InvalidSignature)
            );
            // Flipping a timestamp bit breaks the signature too.
            p.session.header.merkle_root = proof.session.header.merkle_root.clone();
            p.session.header.time ^= 1;
            assert_eq!(
                verify_tls_proof(&p, &key, &roots, b'X').err(),
                Some(VerifyError::InvalidSignature)
            );
        }
    }
}

#[test]
fn tamper_disclosed_byte_any_bit_fails() {
    let data = b"hello world".to_vec();
    for byte in 0..data.len() {
        for bit in 0..8 {
            let mut tampered = data.clone();
            tampered[byte] ^= 1u8 << bit;
            let honest = opening(0, Direction::Sent, 0, data.clone());
            let (mut proof, key, roots) =
                build_proof(vec![honest], vec![], 11, 0, "api.example.com", "api.example.com");
            proof.substrings.openings[0].data = tampered;
            assert_eq!(
                verify_tls_proof(&proof, &key, &roots, b'X').err(),
                Some(VerifyError::CommitmentMismatch)
            );
        }
    }
}

#[test]
fn tamper_opening_blinder_fails() {
    for bit in 0..16 {
        let honest = opening(0, Direction::Sent, 0, b"hello".to_vec());
        let (mut proof, key, roots) =
            build_proof(vec![honest], vec![], 5, 0, "api.example.com", "api.example.com");
        proof.substrings.openings[0].blinder[bit / 8] ^= 1u8 << (bit % 8);
        assert_eq!(
            verify_tls_proof(&proof, &key, &roots, b'X').err(),
            Some(VerifyError::CommitmentMismatch)
        );
    }
}

#[test]
fn tamper_signature_any_bit_fails() {
    let o = opening(0, Direction::Sent, 0, b"hello".to_vec());
    let (proof, key, roots) = build_proof(vec![o], vec![], 5, 0, "api.example.com", "api.example.com");
    for byte in 0..proof.session.signature.len() {
        for bit in 0..8 {
            let mut p = TlsProof {
                session: SessionProof {
                    header: SessionHeader {
                        merkle_root: proof.session.header.merkle_root.clone(),
                        nonce: proof.session.header.nonce.clone(),
                        time: proof.session.header.time,
                        sent_len: proof.session.header.sent_len,
                        recv_len: proof.session.header.recv_len,
                    },
                    signature: proof.session.signature.clone(),
                    session_info: SessionInfo {
                        server_name: proof.session.session_info.server_name.clone(),
                        end_entity_cert: proof.session.session_info.end_entity_cert.clone(),
                        intermediate_certs: Vec::new(),
                    },
                },
                substrings: SubstringsProof {
                    leaves: proof.substrings.leaves.clone(),
                    openings: vec![opening(0, Direction::Sent, 0, b"hello".to_vec())],
                },
            };
            p.session.signature[byte] ^= 1u8 << bit;
            assert_eq!(
                verify_tls_proof(&p, &key, &roots, b'X').err(),
                Some(VerifyError::InvalidSignature)
            );
        }
    }
}

#[test]
fn malformed_header_root_rejected() {
    let o = opening(0, Direction::Sent, 0, b"x".to_vec());
    let (mut proof, key, roots) =
        build_proof(vec![o], vec![], 1, 0, "api.example.com", "api.example.com");
    proof.session.header.merkle_root.pop();
    assert_eq!(
        verify_tls_proof(&proof, &key, &roots, b'X').err(),
        Some(VerifyError::MalformedProof)
    );
}

#[test]
fn malformed_leaf_rejected() {
    let o = opening(0, Direction::Sent, 0, b"x".to_vec());
    let (proof, key, roots) =
        build_proof(vec![o], vec![vec![0u8; 31]], 1, 0, "api.example.com", "api.example.com");
    assert_eq!(
        verify_tls_proof(&proof, &key, &roots, b'X').err(),
        Some(VerifyError::MalformedProof)
    );
}

#[test]
fn unhashed_leaf_rejected() {
    // A leaf that holds the opening's encoding itself rather than its
    // digest must not open: the commitment is the hash, not the encoding.
    let o = opening(0, Direction::Sent, 0, b"hi".to_vec());
    let mut fake_leaf = opening_bytes(&o);
    fake_leaf.truncate(32);
    let sk = signing_key(7);
    let leaves = vec![fake_leaf];
    let root = digest32(&concat_leaves(&leaves));
    let header = SessionHeader {
        merkle_root: root,
        nonce: vec![9u8; 32],
        time: TIME,
        sent_len: 2,
        recv_len: 0,
    };
    let signature = sign_header(&header, &sk);
    let (root_der, leaf_der) = make_certs("api.example.com");
    let proof = TlsProof {
        session: SessionProof {
            header,
            signature,
            session_info: SessionInfo {
                server_name: "api.example.com".to_string(),
                end_entity_cert: leaf_der,
                intermediate_certs: Vec::new(),
            },
        },
        substrings: SubstringsProof { leaves, openings: vec![o] },
    };
    assert_eq!(
        verify_tls_proof(&proof, &key_of(&sk), &vec![root_der], b'X').err(),
        Some(VerifyError::CommitmentMismatch)
    );
}

#[test]
fn wrong_leaf_index_rejected() {
    let o = opening(1, Direction::Sent, 0, b"x".to_vec());
    let mut fixed = o;
    fixed.leaf_index = 1;
    let (proof, key, roots) = build_proof(
        vec![fixed],
        vec![vec![0u8; 32]],
        1,
        0,
        "api.example.com",
        "api.example.com",
    );
    // The opening's commitment sits at slot 0, but it claims slot 1.
    assert_eq!(
        verify_tls_proof(&proof, &key, &roots, b'X').err(),
        Some(VerifyError::CommitmentMismatch)
    );
}

#[test]
fn leaf_index_out_of_range_rejected() {
    let o = opening(5, Direction::Sent, 0, b"x".to_vec());
    let mut leaves: Vec<Vec<u8>> = vec![commit(&o)];
    let root = digest32(&concat_leaves(&leaves));
    let sk = signing_key(7);
    let header = SessionHeader {
        merkle_root: root,
        nonce: vec![9u8; 32],
        time: TIME,
        sent_len: 1,
        recv_len: 0,
    };
    let signature = sign_header(&header, &sk);
    let (root_der, leaf_der) = make_certs("api.example.com");
    leaves.truncate(1);
    let proof = TlsProof {
        session: SessionProof {
            header,
            signature,
            session_info: SessionInfo {
                server_name: "api.example.com".to_string(),
                end_entity_cert: leaf_der,
                intermediate_certs: Vec::new(),
            },
        },
        substrings: SubstringsProof { leaves, openings: vec![o] },
    };
    assert_eq!(
        verify_tls_proof(&proof, &key_of(&sk), &vec![root_der], b'X').err(),
        Some(VerifyError::CommitmentMismatch)
    );
}
