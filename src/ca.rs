//! The certificate authority: key generation and certificate issuance.

use vstd::prelude::*;

use std::time::SystemTimeError;

use ssh_key::{Certificate, PrivateKey, PublicKey};

use crate::clock::{since_unix_epoch, system_now, whole_seconds};
use crate::openssh::{
    add_principal, builder_fields, cert_fields, derive_public_key, key_data_of, new_builder,
    public_key_of, random_private_key, set_cert_type, set_comment, set_key_id, set_serial,
    sign_builder, with_principal, can_sign, algorithm_of, private_key_algorithm, KeyAlgorithm,
    PORTABLE_UNIX_SECS, BuilderFields, CertKind, MAX_UNIX_SECS,
};

verus! {

/// Seconds in a day.
pub const SECONDS_PER_DAY: u64 = 86400;

/// Days that an issued certificate stays valid.
pub const CERT_VALIDITY_WINDOW_DAYS: u64 = 3;

/// Seconds between `valid_after` and `valid_before` of an issued certificate.
pub const VALIDITY_WINDOW_SECONDS: u64 = CERT_VALIDITY_WINDOW_DAYS * SECONDS_PER_DAY;

/// Serial number of the certificates that `sign_host_cert` issues.
pub const HOST_CERT_SERIAL: u64 = 0;

/// The certificate field that the encoding layer refused.
#[derive(Clone, Copy, Debug, PartialEq, Eq, Structural)]
pub enum CertField {
    ValidityWindow,
    Serial,
    KeyId,
    CertType,
    Comment,
    ValidPrincipals,
}

/// Why a key could not be made or a certificate could not be issued.
#[derive(Debug)]
pub enum CaError {
    /// The random source or the algorithm failed while making a key.
    KeyGeneration(ssh_key::Error),
    /// The system clock reads a time before the Unix epoch.
    Clock(SystemTimeError),
    /// A certificate field was refused, with the field.
    CertField(CertField, ssh_key::Error),
    /// Encoding or signing the assembled certificate failed.
    Signing(ssh_key::Error),
}

/// Makes a fresh private key of the given algorithm from the operating
/// system's random source. The key has the requested algorithm and can
/// sign; Ed25519 is the algorithm that this build generates.
pub fn generate_random_private_key(alg: KeyAlgorithm) -> (r: Result<PrivateKey, CaError>)
    ensures
        r is Ok <==> alg == KeyAlgorithm::Ed25519,
        match r {
            Ok(k) => can_sign(k) && algorithm_of(k) == Some(alg),
            Err(e) => e is KeyGeneration,
        },
{
    match random_private_key(alg) {
        Ok(k) => Ok(k),
        Err(e) => Err(CaError::KeyGeneration(e)),
    }
}

/// The names of a principal list, as character sequences.
pub open spec fn principal_names(p: Seq<&str>) -> Seq<Seq<char>> {
    p.map_values(|s: &str| s@)
}

/// `valid_before` for a certificate valid from `valid_after`, capped at the
/// largest `u64` (a time that no certificate can hold).
pub open spec fn window_end(valid_after: u64) -> u64 {
    if valid_after + VALIDITY_WINDOW_SECONDS <= u64::MAX {
        (valid_after + VALIDITY_WINDOW_SECONDS) as u64
    } else {
        u64::MAX
    }
}

/// Computes `valid_before` from `valid_after`.
pub fn validity_end(valid_after: u64) -> (r: u64)
    ensures
        r == window_end(valid_after),
{
    valid_after.saturating_add(VALIDITY_WINDOW_SECONDS)
}

/// A certificate authority: one signing keypair, fixed once built.
#[derive(Debug)]
pub struct SshCa {
    private: PrivateKey,
    public: PublicKey,
}

impl SshCa {
    /// The key that signs every certificate of this authority.
    pub closed spec fn signing_key(&self) -> PrivateKey {
        self.private
    }

    /// The public key kept beside the signing key.
    pub closed spec fn verifying_key(&self) -> PublicKey {
        self.public
    }

    /// Certificate `c` holds exactly the given request and no options, was
    /// signed by this authority, and is valid for `VALIDITY_WINDOW_SECONDS` from its
    /// `valid_after`.
    pub open spec fn issued(
        &self,
        subject: PublicKey,
        serial: u64,
        key_id: Seq<char>,
        kind: CertKind,
        principals: Seq<Seq<char>>,
        comment: Seq<char>,
        c: Certificate,
    ) -> bool {
        let f = cert_fields(c);
        &&& f.subject == key_data_of(subject)
        &&& f.serial == serial
        &&& f.key_id == key_id
        &&& f.cert_type == kind
        &&& f.principals == principals
        &&& f.comment == comment
        &&& f.critical_options == Map::<Seq<char>, Seq<char>>::empty()
        &&& f.extensions == Map::<Seq<char>, Seq<char>>::empty()
        &&& f.valid_after + VALIDITY_WINDOW_SECONDS <= MAX_UNIX_SECS
        &&& f.valid_before == f.valid_after + VALIDITY_WINDOW_SECONDS
        &&& f.signature_key == key_data_of(public_key_of(self.signing_key()))
    }

    /// What an issuance that reads the clock returns: a certificate that
    /// holds the request, or an error that names its cause. No principal
    /// means no certificate, and a signing failure comes only with a
    /// non-empty list and a key that cannot sign.
    pub open spec fn issue_outcome(
        &self,
        subject: PublicKey,
        serial: u64,
        key_id: Seq<char>,
        kind: CertKind,
        principals: Seq<Seq<char>>,
        comment: Seq<char>,
        r: Result<Certificate, CaError>,
    ) -> bool {
        &&& match r {
            Ok(c) => principals.len() > 0 && can_sign(self.signing_key()) && self.issued(
                subject,
                serial,
                key_id,
                kind,
                principals,
                comment,
                c,
            ),
            Err(CaError::Clock(_)) => true,
            Err(CaError::CertField(f, _)) => f == CertField::ValidityWindow || (f
                == CertField::ValidPrincipals && principals.len() == 0),
            Err(CaError::Signing(_)) => principals.len() > 0 && !can_sign(self.signing_key()),
            Err(CaError::KeyGeneration(_)) => false,
        }
        &&& principals.len() == 0 ==> r is Err
    }

    /// Wraps an existing keypair as the authority's identity.
    pub fn new(private: PrivateKey, public: PublicKey) -> (r: Self)
        ensures
            r.signing_key() == private,
            r.verifying_key() == public,
    {
        Self { private, public }
    }

    /// Makes an authority with a fresh keypair of the given algorithm; its
    /// public key is the one derived from the private key, and its key has
    /// the requested algorithm and can sign.
    pub fn with_new_keypair(alg: KeyAlgorithm) -> (r: Result<Self, CaError>)
        ensures
            r is Ok <==> alg == KeyAlgorithm::Ed25519,
            match r {
                Ok(ca) => {
                    &&& ca.verifying_key() == public_key_of(ca.signing_key())
                    &&& algorithm_of(ca.signing_key()) == Some(alg)
                    &&& can_sign(ca.signing_key())
                },
                Err(e) => e is KeyGeneration,
            },
    {
        let private = generate_random_private_key(alg)?;
        let public = derive_public_key(&private);
        Ok(Self { private, public })
    }

    /// The algorithm of the signing key.
    pub fn algorithm(&self) -> (r: Option<KeyAlgorithm>)
        ensures
            r == algorithm_of(self.signing_key()),
    {
        private_key_algorithm(&self.private)
    }

    /// The public key kept beside the signing key, for export.
    pub fn public_key(&self) -> (r: &PublicKey)
        ensures
            *r == self.verifying_key(),
    {
        &self.public
    }

    /// Issues a host certificate for `public`: serial 0, key id
    /// `test-key-id`, empty comment, valid for three days from now.
    pub fn sign_host_cert(&self, public: &PublicKey, principals: &[&str]) -> (r: Result<
        Certificate,
        CaError,
    >)
        ensures
            self.issue_outcome(
                *public,
                HOST_CERT_SERIAL,
                "test-key-id"@,
                CertKind::Host,
                principal_names(principals@),
                ""@,
                r,
            ),
    {
        self.sign(public, HOST_CERT_SERIAL, "test-key-id", CertKind::Host, principals, "")
    }

    /// Issues a certificate valid from the current system time.
    pub fn sign(
        &self,
        public: &PublicKey,
        serial: u64,
        key_id: &str,
        cert_type: CertKind,
        principals: &[&str],
        comment: &str,
    ) -> (r: Result<Certificate, CaError>)
        ensures
            self.issue_outcome(
                *public,
                serial,
                key_id@,
                cert_type,
                principal_names(principals@),
                comment@,
                r,
            ),
    {
        let now = system_now();
        let valid_after = match since_unix_epoch(&now) {
            Ok(d) => whole_seconds(&d),
            Err(e) => return Err(CaError::Clock(e)),
        };
        self.sign_at(public, serial, key_id, cert_type, principals, comment, valid_after)
    }

    /// Issues a certificate valid from `valid_after` for
    /// `VALIDITY_WINDOW_SECONDS`. It fails on the validity window when that
    /// window ends past `i64::MAX`, and may where it ends past what
    /// `SystemTime` holds on every target; otherwise it fails on the
    /// principals exactly when the list is empty, on signing exactly when the
    /// key cannot sign, and else returns the certificate.
    pub fn sign_at(
        &self,
        public: &PublicKey,
        serial: u64,
        key_id: &str,
        cert_type: CertKind,
        principals: &[&str],
        comment: &str,
        valid_after: u64,
    ) -> (r: Result<Certificate, CaError>)
        ensures
            ({
                let fits = valid_after + VALIDITY_WINDOW_SECONDS <= MAX_UNIX_SECS;
                let listed = principals@.len() > 0;
                match r {
                    Ok(c) => fits && listed && can_sign(self.signing_key()) && cert_fields(
                        c,
                    ).valid_after == valid_after && self.issued(
                        *public,
                        serial,
                        key_id@,
                        cert_type,
                        principal_names(principals@),
                        comment@,
                        c,
                    ),
                    Err(CaError::CertField(CertField::ValidityWindow, _)) => valid_after
                        + VALIDITY_WINDOW_SECONDS > PORTABLE_UNIX_SECS,
                    Err(CaError::CertField(CertField::ValidPrincipals, _)) => fits && !listed,
                    Err(CaError::Signing(_)) => fits && listed && !can_sign(self.signing_key()),
                    Err(_) => false,
                }
            }),
            valid_after + VALIDITY_WINDOW_SECONDS > MAX_UNIX_SECS ==> r matches Err(
                CaError::CertField(CertField::ValidityWindow, _),
            ),
    {
        let valid_before = validity_end(valid_after);
        let mut builder = match new_builder(public, valid_after, valid_before) {
            Ok(b) => b,
            Err(e) => return Err(CaError::CertField(CertField::ValidityWindow, e)),
        };
        match set_serial(&mut builder, serial) {
            Ok(()) => {},
            Err(e) => return Err(CaError::CertField(CertField::Serial, e)),
        }
        match set_key_id(&mut builder, key_id) {
            Ok(()) => {},
            Err(e) => return Err(CaError::CertField(CertField::KeyId, e)),
        }
        match set_cert_type(&mut builder, cert_type) {
            Ok(()) => {},
            Err(e) => return Err(CaError::CertField(CertField::CertType, e)),
        }
        match set_comment(&mut builder, comment) {
            Ok(()) => {},
            Err(e) => return Err(CaError::CertField(CertField::Comment, e)),
        }
        let ghost set = builder_fields(builder);
        let mut i: usize = 0;
        while i < principals.len()
            invariant
                i <= principals@.len(),
                builder_fields(builder) == (BuilderFields {
                    principals: if i == 0 {
                        None
                    } else {
                        Some(principal_names(principals@).take(i as int))
                    },
                    ..set
                }),
                set.principals is None,
            decreases principals@.len() - i,
        {
            match add_principal(&mut builder, principals[i]) {
                Ok(()) => {},
                Err(e) => return Err(CaError::CertField(CertField::ValidPrincipals, e)),
            }
            proof {
                let names = principal_names(principals@);
                assert(names.take(i + 1) =~= with_principal(
                    if i == 0 { None } else { Some(names.take(i as int)) },
                    principals@[i as int]@,
                ).unwrap());
            }
            i = i + 1;
        }
        proof {
            if principals@.len() > 0 {
                assert(principal_names(principals@).take(principals@.len() as int) =~= principal_names(principals@));
            }
        }
        match sign_builder(builder, &self.private) {
            Ok(c) => Ok(c),
            Err(e) => {
                if principals.len() == 0 {
                    Err(CaError::CertField(CertField::ValidPrincipals, e))
                } else {
                    Err(CaError::Signing(e))
                }
            },
        }
    }
}

/// Two certificates that one authority issued for the same request hold the
/// same subject, serial, key id, type, principals, comment and signer, and
/// windows of the same length; only where the windows start may differ.
pub proof fn lemma_reissue_keeps_fields(
    ca: SshCa,
    subject: PublicKey,
    serial: u64,
    key_id: Seq<char>,
    kind: CertKind,
    principals: Seq<Seq<char>>,
    comment: Seq<char>,
    c1: Certificate,
    c2: Certificate,
)
    requires
        ca.issued(subject, serial, key_id, kind, principals, comment, c1),
        ca.issued(subject, serial, key_id, kind, principals, comment, c2),
    ensures
        ({
            let (f1, f2) = (cert_fields(c1), cert_fields(c2));
            &&& f1.subject == f2.subject
            &&& f1.serial == f2.serial
            &&& f1.key_id == f2.key_id
            &&& f1.cert_type == f2.cert_type
            &&& f1.principals == f2.principals
            &&& f1.comment == f2.comment
            &&& f1.signature_key == f2.signature_key
            &&& f1.valid_before - f1.valid_after == f2.valid_before - f2.valid_after
        }),
{
}

/// A certificate issued as a host certificate is never a user certificate.
pub proof fn lemma_host_cert_not_user(
    ca: SshCa,
    subject: PublicKey,
    serial: u64,
    key_id: Seq<char>,
    principals: Seq<Seq<char>>,
    comment: Seq<char>,
    c: Certificate,
)
    requires
        ca.issued(subject, serial, key_id, CertKind::Host, principals, comment, c),
    ensures
        cert_fields(c).cert_type != CertKind::User,
{
}

} // verus!
