use ssh_at_home::ca::{
    generate_random_private_key, validity_end, CaError, CertField, SshCa,
    VALIDITY_WINDOW_SECONDS,
};
use ssh_at_home::openssh::{CertKind, KeyAlgorithm};
use ssh_key::certificate::CertType;
use ssh_key::{Algorithm, Certificate, PublicKey};

fn subject_key() -> PublicKey {
    let private = generate_random_private_key(KeyAlgorithm::Ed25519).unwrap();
    private.public_key().clone()
}

fn names(cert: &Certificate) -> Vec<String> {
    let mut v: Vec<String> = cert.valid_principals().to_vec();
    v.sort();
    v
}

fn check_host_cert(principals: &[&str]) {
    let ca = SshCa::with_new_keypair(KeyAlgorithm::Ed25519).unwrap();
    let subject = subject_key();
    let cert = ca.sign_host_cert(&subject, principals).unwrap();
    let mut expected: Vec<String> = principals.iter().map(|p| p.to_string()).collect();
    expected.sort();
    assert_eq!(names(&cert), expected);
    assert_eq!(cert.valid_principals().len(), principals.len());
    assert_eq!(cert.valid_before() - cert.valid_after(), 259200);
    assert_eq!(cert.cert_type(), CertType::Host);
    assert_eq!(cert.serial(), 0);
    assert_eq!(cert.key_id(), "test-key-id");
    assert_eq!(cert.comment(), "");
    assert_eq!(cert.public_key(), subject.key_data());
    assert_eq!(cert.signature_key(), ca.public_key().key_data());
    assert!(cert.critical_options().is_empty());
    assert!(cert.extensions().is_empty());
}

#[test]
fn window_is_three_days() {
    assert_eq!(VALIDITY_WINDOW_SECONDS, 259200);
    assert_eq!(validity_end(10), 259210);
    assert_eq!(validity_end(u64::MAX - 5), u64::MAX);
}

#[test]
fn generated_key_derives_its_public_key() {
    let private = generate_random_private_key(KeyAlgorithm::Ed25519).unwrap();
    let public = private.public_key().clone();
    assert_eq!(public.algorithm(), Algorithm::Ed25519);
    let ca = SshCa::new(private.clone(), public.clone());
    assert_eq!(ca.public_key(), &public);
    let fresh = SshCa::with_new_keypair(KeyAlgorithm::Ed25519).unwrap();
    let cert = fresh.sign_host_cert(&public, &["nixos"]).unwrap();
    assert_eq!(cert.signature_key(), fresh.public_key().key_data());
    assert_eq!(fresh.algorithm(), Some(KeyAlgorithm::Ed25519));
    assert_eq!(fresh.public_key().algorithm(), Algorithm::Ed25519);
    assert_eq!(cert.nonce().len(), 16);
}

#[test]
fn window_within_portable_range_is_accepted() {
    let ca = SshCa::with_new_keypair(KeyAlgorithm::Ed25519).unwrap();
    let subject = subject_key();
    let start = 1_000_000_000_000 - VALIDITY_WINDOW_SECONDS;
    let cert = ca.sign_at(&subject, 0, "id", CertKind::Host, &["web"], "", start).unwrap();
    assert_eq!(cert.valid_before(), 1_000_000_000_000);
}

#[test]
fn unsupported_algorithm_is_a_key_generation_error() {
    let r = generate_random_private_key(KeyAlgorithm::Dsa);
    assert!(matches!(r, Err(CaError::KeyGeneration(_))));
    let r = generate_random_private_key(KeyAlgorithm::EcdsaP256);
    assert!(matches!(r, Err(CaError::KeyGeneration(_))));
    let r = generate_random_private_key(KeyAlgorithm::Rsa);
    assert!(matches!(r, Err(CaError::KeyGeneration(_))));
    let ca = SshCa::with_new_keypair(KeyAlgorithm::Dsa);
    assert!(matches!(ca, Err(CaError::KeyGeneration(_))));
}

#[test]
fn host_cert_one_principal() {
    check_host_cert(&["nixos"]);
}

#[test]
fn host_cert_two_principals() {
    check_host_cert(&["alice", "bob"]);
}

#[test]
fn host_cert_ten_principals() {
    check_host_cert(&[
        "host0", "host1", "host2", "host3", "host4", "host5", "host6", "host7", "host8",
        "host9",
    ]);
}

#[test]
fn resigning_changes_only_nonce_and_window() {
    let ca = SshCa::with_new_keypair(KeyAlgorithm::Ed25519).unwrap();
    let subject = subject_key();
    let a = ca.sign_host_cert(&subject, &["alice", "bob"]).unwrap();
    let b = ca.sign_host_cert(&subject, &["alice", "bob"]).unwrap();
    assert_ne!(a.nonce(), b.nonce());
    assert_ne!(a.to_openssh().unwrap(), b.to_openssh().unwrap());
    assert_eq!(a.valid_principals(), b.valid_principals());
    assert_eq!(a.cert_type(), b.cert_type());
    assert_eq!(a.serial(), b.serial());
    assert_eq!(a.key_id(), b.key_id());
    assert_eq!(a.comment(), b.comment());
    assert_eq!(a.public_key(), b.public_key());
    assert_eq!(a.valid_before() - a.valid_after(), b.valid_before() - b.valid_after());
}

#[test]
fn text_round_trip_keeps_fields() {
    let ca = SshCa::with_new_keypair(KeyAlgorithm::Ed25519).unwrap();
    let subject = subject_key();
    let cert = ca.sign_host_cert(&subject, &["alice", "bob"]).unwrap();
    let text = cert.to_openssh().unwrap();
    let back = Certificate::from_openssh(&text).unwrap();
    assert_eq!(back.valid_principals(), cert.valid_principals());
    assert_eq!(back.valid_after(), cert.valid_after());
    assert_eq!(back.valid_before(), cert.valid_before());
    assert_eq!(back.cert_type(), CertType::Host);
    assert_eq!(back.public_key(), subject.key_data());
}

#[test]
fn empty_principals_are_refused() {
    let ca = SshCa::with_new_keypair(KeyAlgorithm::Ed25519).unwrap();
    let subject = subject_key();
    let r = ca.sign_host_cert(&subject, &[]);
    assert!(matches!(r, Err(CaError::CertField(CertField::ValidPrincipals, _))));
}

#[test]
fn sign_at_fixed_time() {
    let ca = SshCa::with_new_keypair(KeyAlgorithm::Ed25519).unwrap();
    let subject = subject_key();
    let cert = ca
        .sign_at(&subject, 42, "ops", CertKind::User, &["carol"], "carol@example.com", 1_000_000)
        .unwrap();
    assert_eq!(cert.valid_after(), 1_000_000);
    assert_eq!(cert.valid_before(), 1_259_200);
    assert_eq!(cert.cert_type(), CertType::User);
    assert_eq!(cert.serial(), 42);
    assert_eq!(cert.key_id(), "ops");
    assert_eq!(cert.comment(), "carol@example.com");
    assert_eq!(cert.valid_principals(), &["carol".to_string()]);
}

#[test]
fn sign_general_host() {
    let ca = SshCa::with_new_keypair(KeyAlgorithm::Ed25519).unwrap();
    let subject = subject_key();
    let cert = ca.sign(&subject, 7, "id", CertKind::Host, &["web"], "c").unwrap();
    assert_eq!(cert.cert_type(), CertType::Host);
    assert!(!cert.cert_type().is_user());
    assert_eq!(cert.serial(), 7);
    assert_eq!(cert.valid_before() - cert.valid_after(), 259200);
}

#[test]
fn window_past_largest_time_is_refused() {
    let ca = SshCa::with_new_keypair(KeyAlgorithm::Ed25519).unwrap();
    let subject = subject_key();
    let late = i64::MAX as u64 - 100;
    let r = ca.sign_at(&subject, 0, "id", CertKind::Host, &["web"], "", late);
    assert!(matches!(r, Err(CaError::CertField(CertField::ValidityWindow, _))));
    let r = ca.sign_at(&subject, 0, "id", CertKind::Host, &["web"], "", u64::MAX);
    assert!(matches!(r, Err(CaError::CertField(CertField::ValidityWindow, _))));
}
