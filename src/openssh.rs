//! The parts of `ssh_key` that the certificate authority relies on, with the
//! contracts that the crate's source gives them.

use vstd::prelude::*;

use ssh_key::certificate::{Builder, CertType};
use ssh_key::public::KeyData;
use ssh_key::{Algorithm, Certificate, EcdsaCurve, PrivateKey, PublicKey};

verus! {

#[verifier::external_type_specification]
#[verifier::external_body]
pub struct ExPrivateKey(PrivateKey);

#[verifier::external_type_specification]
#[verifier::external_body]
pub struct ExPublicKey(PublicKey);

#[verifier::external_type_specification]
#[verifier::external_body]
pub struct ExKeyData(KeyData);

#[verifier::external_type_specification]
#[verifier::external_body]
pub struct ExCertificate(Certificate);

#[verifier::external_type_specification]
#[verifier::external_body]
pub struct ExBuilder(Builder);

#[verifier::external_type_specification]
#[verifier::external_body]
pub struct ExSshKeyError(ssh_key::Error);

/// The two kinds of OpenSSH certificate.
#[derive(Clone, Copy, Debug, PartialEq, Eq, Structural)]
pub enum CertKind {
    /// Identifies a client to a server.
    User,
    /// Identifies a server to a client.
    Host,
}

/// The key algorithms that `ssh_key` can generate keys for.
#[derive(Clone, Copy, Debug, PartialEq, Eq, Structural)]
pub enum KeyAlgorithm {
    Dsa,
    EcdsaP256,
    EcdsaP384,
    EcdsaP521,
    Ed25519,
    Rsa,
}

/// The public key that `PrivateKey::public_key` returns for a private key.
pub uninterp spec fn public_key_of(k: PrivateKey) -> PublicKey;

/// Relies on `PrivateKey::public_key`: the public half stored with the
/// private key, which the key alone determines.
#[verifier::external_body]
pub(crate) fn derive_public_key(k: &PrivateKey) -> (r: PublicKey)
    ensures
        r == public_key_of(*k),
{
    k.public_key().clone()
}

/// The fields of a signed certificate, as its getters return them.
pub struct CertFields {
    pub nonce: Seq<u8>,
    pub subject: KeyData,
    pub serial: u64,
    pub key_id: Seq<char>,
    pub cert_type: CertKind,
    pub principals: Seq<Seq<char>>,
    pub valid_after: u64,
    pub valid_before: u64,
    pub comment: Seq<char>,
    pub critical_options: Map<Seq<char>, Seq<char>>,
    pub extensions: Map<Seq<char>, Seq<char>>,
    pub signature_key: KeyData,
}

/// The fields that a certificate builder holds; `None` for one not set yet.
pub struct BuilderFields {
    pub nonce: Seq<u8>,
    pub subject: KeyData,
    pub valid_after: u64,
    pub valid_before: u64,
    pub serial: Option<u64>,
    pub key_id: Option<Seq<char>>,
    pub cert_type: Option<CertKind>,
    pub comment: Option<Seq<char>>,
    pub principals: Option<Seq<Seq<char>>>,
    pub critical_options: Map<Seq<char>, Seq<char>>,
    pub extensions: Map<Seq<char>, Seq<char>>,
}

/// Largest Unix time that an OpenSSH certificate holds (`i64::MAX`).
pub const MAX_UNIX_SECS: u64 = 0x7fff_ffff_ffff_ffff;

/// A Unix time that `SystemTime` holds on every target (the narrowest,
/// Windows, reaches past 1.8e12 seconds).
pub const PORTABLE_UNIX_SECS: u64 = 1_000_000_000_000;

/// Bytes of the random nonce that a new builder draws
/// (`Builder::RECOMMENDED_NONCE_SIZE`).
pub const NONCE_LEN: usize = 16;

/// The key data that `PublicKey::key_data` returns.
pub uninterp spec fn key_data_of(p: PublicKey) -> KeyData;

/// What a certificate holds: the values of `Certificate::nonce`, `public_key`,
/// `serial`, `key_id`, `cert_type`, `valid_principals`, `valid_after`,
/// `valid_before`, `comment`, `critical_options`, `extensions` and
/// `signature_key`.
pub uninterp spec fn cert_fields(c: Certificate) -> CertFields;

/// What a certificate builder holds.
pub uninterp spec fn builder_fields(b: Builder) -> BuilderFields;

/// Whether `PrivateKey::try_sign` succeeds with this key, which depends on
/// the key alone (it fails, for one, on an encrypted key).
pub uninterp spec fn can_sign(k: PrivateKey) -> bool;

/// The algorithm that `PrivateKey::algorithm` returns, where it is one of
/// `KeyAlgorithm` (any RSA hash counts as `Rsa`), else `None`.
pub uninterp spec fn algorithm_of(k: PrivateKey) -> Option<KeyAlgorithm>;

/// Relies on `PrivateKey::algorithm`.
#[verifier::external_body]
pub(crate) fn private_key_algorithm(k: &PrivateKey) -> (r: Option<KeyAlgorithm>)
    ensures
        r == algorithm_of(*k),
{
    match k.algorithm() {
        Algorithm::Dsa => Some(KeyAlgorithm::Dsa),
        Algorithm::Ecdsa { curve: EcdsaCurve::NistP256 } => Some(KeyAlgorithm::EcdsaP256),
        Algorithm::Ecdsa { curve: EcdsaCurve::NistP384 } => Some(KeyAlgorithm::EcdsaP384),
        Algorithm::Ecdsa { curve: EcdsaCurve::NistP521 } => Some(KeyAlgorithm::EcdsaP521),
        Algorithm::Ed25519 => Some(KeyAlgorithm::Ed25519),
        Algorithm::Rsa { .. } => Some(KeyAlgorithm::Rsa),
        _ => None,
    }
}

/// Relies on `PrivateKey::random` with the operating system's random source:
/// a fresh, unencrypted key of the requested algorithm, or `AlgorithmUnknown`
/// for one whose feature is not compiled in. This crate enables `ed25519`
/// alone among ssh-key's algorithm features, so only Ed25519 succeeds.
#[verifier::external_body]
pub(crate) fn random_private_key(alg: KeyAlgorithm) -> (r: Result<PrivateKey, ssh_key::Error>)
    ensures
        r is Ok <==> alg == KeyAlgorithm::Ed25519,
        r matches Ok(k) ==> can_sign(k) && algorithm_of(k) == Some(alg),
{
    let alg = match alg {
        KeyAlgorithm::Dsa => Algorithm::Dsa,
        KeyAlgorithm::EcdsaP256 => Algorithm::Ecdsa { curve: EcdsaCurve::NistP256 },
        KeyAlgorithm::EcdsaP384 => Algorithm::Ecdsa { curve: EcdsaCurve::NistP384 },
        KeyAlgorithm::EcdsaP521 => Algorithm::Ecdsa { curve: EcdsaCurve::NistP521 },
        KeyAlgorithm::Ed25519 => Algorithm::Ed25519,
        KeyAlgorithm::Rsa => Algorithm::Rsa { hash: None },
    };
    PrivateKey::random(&mut ssh_key::rand_core::OsRng, alg)
}

/// Relies on `Builder::new_with_random_nonce`: a random 16-byte nonce, the
/// subject's key data, the two times, no options, and nothing else set. It
/// fails when a time is past `i64::MAX` or the window runs backwards, and
/// succeeds for any window that lies within what `SystemTime` holds on every
/// target.
#[verifier::external_body]
pub(crate) fn new_builder(subject: &PublicKey, valid_after: u64, valid_before: u64) -> (r: Result<
    Builder,
    ssh_key::Error,
>)
    ensures
        valid_after > MAX_UNIX_SECS || valid_before > MAX_UNIX_SECS || valid_before < valid_after
            ==> r is Err,
        valid_before <= PORTABLE_UNIX_SECS && valid_after <= valid_before ==> r is Ok,
        r matches Ok(b) ==> builder_fields(b).nonce.len() == NONCE_LEN && builder_fields(b) == (
        BuilderFields {
            nonce: builder_fields(b).nonce,
            subject: key_data_of(*subject),
            valid_after,
            valid_before,
            serial: None,
            key_id: None,
            cert_type: None,
            comment: None,
            principals: None,
            critical_options: Map::empty(),
            extensions: Map::empty(),
        }),
{
    Builder::new_with_random_nonce(&mut ssh_key::rand_core::OsRng, subject, valid_after, valid_before)
}

/// Relies on `Builder::serial`: it sets the serial once and fails if it is set.
#[verifier::external_body]
pub(crate) fn set_serial(b: &mut Builder, serial: u64) -> (r: Result<(), ssh_key::Error>)
    ensures
        r is Ok <==> builder_fields(*old(b)).serial is None,
        r is Ok ==> builder_fields(*final(b)) == (BuilderFields {
            serial: Some(serial),
            ..builder_fields(*old(b))
        }),
        r is Err ==> *final(b) == *old(b),
{
    match b.serial(serial) {
        Ok(_) => Ok(()),
        Err(e) => Err(e),
    }
}

/// Relies on `Builder::key_id`: it sets the key id once and fails if it is set.
#[verifier::external_body]
pub(crate) fn set_key_id(b: &mut Builder, key_id: &str) -> (r: Result<(), ssh_key::Error>)
    ensures
        r is Ok <==> builder_fields(*old(b)).key_id is None,
        r is Ok ==> builder_fields(*final(b)) == (BuilderFields {
            key_id: Some(key_id@),
            ..builder_fields(*old(b))
        }),
        r is Err ==> *final(b) == *old(b),
{
    match b.key_id(key_id) {
        Ok(_) => Ok(()),
        Err(e) => Err(e),
    }
}

/// Relies on `Builder::cert_type`: it sets the type once and fails if it is set.
#[verifier::external_body]
pub(crate) fn set_cert_type(b: &mut Builder, kind: CertKind) -> (r: Result<(), ssh_key::Error>)
    ensures
        r is Ok <==> builder_fields(*old(b)).cert_type is None,
        r is Ok ==> builder_fields(*final(b)) == (BuilderFields {
            cert_type: Some(kind),
            ..builder_fields(*old(b))
        }),
        r is Err ==> *final(b) == *old(b),
{
    let t = match kind {
        CertKind::User => CertType::User,
        CertKind::Host => CertType::Host,
    };
    match b.cert_type(t) {
        Ok(_) => Ok(()),
        Err(e) => Err(e),
    }
}

/// Relies on `Builder::comment`: it sets the comment once and fails if it is set.
#[verifier::external_body]
pub(crate) fn set_comment(b: &mut Builder, comment: &str) -> (r: Result<(), ssh_key::Error>)
    ensures
        r is Ok <==> builder_fields(*old(b)).comment is None,
        r is Ok ==> builder_fields(*final(b)) == (BuilderFields {
            comment: Some(comment@),
            ..builder_fields(*old(b))
        }),
        r is Err ==> *final(b) == *old(b),
{
    match b.comment(comment) {
        Ok(_) => Ok(()),
        Err(e) => Err(e),
    }
}

/// The principal list after one more name is added.
pub open spec fn with_principal(p: Option<Seq<Seq<char>>>, name: Seq<char>) -> Option<
    Seq<Seq<char>>,
> {
    match p {
        Some(names) => Some(names.push(name)),
        None => Some(seq![name]),
    }
}

/// Relies on `Builder::valid_principal`: it appends the name and never fails.
#[verifier::external_body]
pub(crate) fn add_principal(b: &mut Builder, principal: &str) -> (r: Result<(), ssh_key::Error>)
    ensures
        r is Ok,
        builder_fields(*final(b)) == (BuilderFields {
            principals: with_principal(builder_fields(*old(b)).principals, principal@),
            ..builder_fields(*old(b))
        }),
{
    match b.valid_principal(principal) {
        Ok(_) => Ok(()),
        Err(e) => Err(e),
    }
}

/// Relies on `Builder::sign`: it fails when no principal was added; it
/// succeeds when principals were added, the window is not empty (debug builds
/// validate the certificate at `valid_after`) and the key can sign; a
/// certificate holds the builder's fields (serial 0, empty key id and
/// comment, and a user certificate where unset) and the signer's public key
/// data.
#[verifier::external_body]
pub(crate) fn sign_builder(b: Builder, signer: &PrivateKey) -> (r: Result<Certificate, ssh_key::Error>)
    ensures
        builder_fields(b).principals is None ==> r is Err,
        builder_fields(b).principals is Some && builder_fields(b).valid_after < builder_fields(
            b,
        ).valid_before && can_sign(*signer) ==> r is Ok,
        r is Ok ==> can_sign(*signer),
        r matches Ok(c) ==> ({
            let f = builder_fields(b);
            &&& f.principals is Some
            &&& cert_fields(c) == (CertFields {
                nonce: f.nonce,
                subject: f.subject,
                serial: match f.serial { Some(s) => s, None => 0 },
                key_id: match f.key_id { Some(k) => k, None => Seq::empty() },
                cert_type: match f.cert_type { Some(t) => t, None => CertKind::User },
                principals: f.principals.unwrap(),
                valid_after: f.valid_after,
                valid_before: f.valid_before,
                comment: match f.comment { Some(k) => k, None => Seq::empty() },
                critical_options: f.critical_options,
                extensions: f.extensions,
                signature_key: key_data_of(public_key_of(*signer)),
            })
        }),
{
    b.sign(signer)
}

} // verus!
