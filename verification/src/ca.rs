//! The local certificate authority: it owns the root key material and signs
//! per-domain leaf certificates for TLS interception.
//!
//! The root certificate and key are persisted as two PEM files by the caller
//! that does the disk I/O; this module decides when to load and when to
//! generate, reconstructs the signing context from the stored key, and signs
//! fresh leaves.  All cryptography is rcgen's, behind trusted wrappers.

use vstd::prelude::*;
use std::sync::Arc;

verus! {

#[verifier::external_type_specification]
#[verifier::external_body]
pub struct ExCertificateParams(rcgen::CertificateParams);

#[verifier::external_type_specification]
#[verifier::external_body]
pub struct ExKeyPair(rcgen::KeyPair);

#[verifier::external_type_specification]
#[verifier::external_body]
pub struct ExCertificate(rcgen::Certificate);

/// Relies on rcgen::CertificateParams::default and the field setters: builds
/// the parameters of a CA root certificate (CA:true, unconstrained path
/// length, key usages certSign and crlSign, the given subject, validity from
/// `back_days` days before now to `days` days after now).
#[verifier::external_body]
fn ca_params(cn: &str, org: &str, country: &str, back_days: i64, days: i64) -> (r:
    rcgen::CertificateParams)
    requires
        0 <= back_days <= 36500,
        0 <= days <= 36500,
{
    let mut params = rcgen::CertificateParams::default();
    params.is_ca = rcgen::IsCa::Ca(rcgen::BasicConstraints::Unconstrained);
    params.key_usages = vec![
        rcgen::KeyUsagePurpose::KeyCertSign,
        rcgen::KeyUsagePurpose::CrlSign,
    ];
    params.distinguished_name.push(rcgen::DnType::CommonName, cn);
    params.distinguished_name.push(rcgen::DnType::OrganizationName, org);
    params.distinguished_name.push(rcgen::DnType::CountryName, country);
    params.not_before = time::OffsetDateTime::now_utc() - time::Duration::days(back_days);
    params.not_after = time::OffsetDateTime::now_utc() + time::Duration::days(days);
    params
}

/// Relies on rcgen::CertificateParams::new and rcgen::Ia5String::try_from:
/// both accept exactly ASCII input, so the leaf parameters are built if and
/// only if the domain is ASCII.  The leaf carries the domain as its sole
/// subject alternative name, key usages digitalSignature and
/// keyEncipherment, extended key usage serverAuth, and validity from now to
/// `days` days after now.
#[verifier::external_body]
fn leaf_params(domain: &str, days: i64) -> (r: Result<rcgen::CertificateParams, String>)
    requires
        0 <= days <= 36500,
    ensures
        r is Ok <==> vstd::string::is_ascii(domain),
{
    let mut params = rcgen::CertificateParams::new(vec![domain.to_string()]).map_err(
        |e| e.to_string(),
    )?;
    params.distinguished_name.push(rcgen::DnType::CommonName, domain);
    let name = rcgen::Ia5String::try_from(domain).map_err(|e| e.to_string())?;
    params.subject_alt_names = vec![rcgen::SanType::DnsName(name)];
    params.key_usages = vec![
        rcgen::KeyUsagePurpose::DigitalSignature,
        rcgen::KeyUsagePurpose::KeyEncipherment,
    ];
    params.extended_key_usages = vec![rcgen::ExtendedKeyUsagePurpose::ServerAuth];
    params.not_before = time::OffsetDateTime::now_utc();
    params.not_after = time::OffsetDateTime::now_utc() + time::Duration::days(days);
    Ok(params)
}

/// Relies on rcgen::KeyPair::generate: a fresh random key pair.
#[verifier::external_body]
fn generate_key() -> (r: Result<rcgen::KeyPair, String>) {
    rcgen::KeyPair::generate().map_err(|e| e.to_string())
}

/// Relies on rcgen::KeyPair::from_pem: parses the stored CA key.
#[verifier::external_body]
fn key_from_pem(pem: &str) -> (r: Result<rcgen::KeyPair, String>) {
    rcgen::KeyPair::from_pem(pem).map_err(|e| e.to_string())
}

/// Relies on rcgen::CertificateParams::self_signed.
#[verifier::external_body]
fn self_sign_cert(params: rcgen::CertificateParams, key: &rcgen::KeyPair) -> (r: Result<
    rcgen::Certificate,
    String,
>) {
    params.self_signed(key).map_err(|e| e.to_string())
}

/// Relies on rcgen::CertificateParams::signed_by: signs the leaf parameters
/// with the issuer certificate and key.
#[verifier::external_body]
fn sign_params_by(
    params: rcgen::CertificateParams,
    public_key: &rcgen::KeyPair,
    issuer: &rcgen::Certificate,
    issuer_key: &rcgen::KeyPair,
) -> (r: Result<rcgen::Certificate, String>) {
    params.signed_by(public_key, issuer, issuer_key).map_err(|e| e.to_string())
}

/// Relies on rcgen::Certificate::pem: the PEM encoding of the certificate.
#[verifier::external_body]
fn cert_to_pem(cert: &rcgen::Certificate) -> (r: String) {
    cert.pem()
}

/// Relies on rcgen::KeyPair::serialize_pem: the PEM encoding of the key.
#[verifier::external_body]
fn key_to_pem(key: &rcgen::KeyPair) -> (r: String) {
    key.serialize_pem()
}

/// Mathematical model of the CA manager.
pub ghost struct CaView {
    pub ca_cert_pem: Seq<char>,
    pub ca_key_pem: Seq<char>,
    pub cert_dir: Seq<char>,
}

/// The certificate authority: root certificate and key PEM, read-only once
/// loaded, and the directory their files live in.
pub struct CaManager {
    ca_cert_pem: String,
    ca_key_pem: String,
    cert_dir: String,
}

impl View for CaManager {
    type V = CaView;

    closed spec fn view(&self) -> CaView {
        CaView {
            ca_cert_pem: self.ca_cert_pem@,
            ca_key_pem: self.ca_key_pem@,
            cert_dir: self.cert_dir@,
        }
    }
}

/// The directory the CA files live in, under the application data
/// directory.
pub fn ca_cert_dir(app_data_dir: &str) -> (r: String)
    ensures
        r@ == app_data_dir@ + "/certificates"@,
{
    let mut s = app_data_dir.to_owned();
    s.append("/certificates");
    s
}

/// The path of the CA certificate file inside its directory.
pub fn ca_cert_file(cert_dir: &str) -> (r: String)
    ensures
        r@ == cert_dir@ + "/ca.crt"@,
{
    let mut s = cert_dir.to_owned();
    s.append("/ca.crt");
    s
}

/// The path of the CA key file inside its directory.
pub fn ca_key_file(cert_dir: &str) -> (r: String)
    ensures
        r@ == cert_dir@ + "/ca.key"@,
{
    let mut s = cert_dir.to_owned();
    s.append("/ca.key");
    s
}

impl CaManager {
    /// Build the manager from an already persisted pair of PEM files: the
    /// stored bytes are kept verbatim and nothing is regenerated.
    pub fn from_loaded(cert_dir: String, ca_cert_pem: String, ca_key_pem: String) -> (r:
        CaManager)
        ensures
            r@.ca_cert_pem == ca_cert_pem@,
            r@.ca_key_pem == ca_key_pem@,
            r@.cert_dir == cert_dir@,
    {
        CaManager { ca_cert_pem, ca_key_pem, cert_dir }
    }

    /// Initialize the certificate authority.  When a stored pair is handed
    /// in, it is used verbatim and nothing is returned for persisting: a
    /// second initialization against the same storage returns byte-identical
    /// PEM.  Only when no pair exists is a fresh self-signed root generated
    /// (validity ten years), and that pair is returned so the caller can
    /// persist it.
    pub fn new(cert_dir: String, loaded: Option<(String, String)>) -> (r: Result<
        (CaManager, Option<(String, String)>),
        String,
    >)
        ensures
            loaded is Some ==> r is Ok,
            loaded is Some ==> {
                let (m, persist) = r.unwrap();
                &&& m@.ca_cert_pem == loaded.unwrap().0@
                &&& m@.ca_key_pem == loaded.unwrap().1@
                &&& m@.cert_dir == cert_dir@
                &&& persist is None
            },
            r is Ok && loaded is None ==> {
                let (m, persist) = r.unwrap();
                &&& persist is Some
                &&& m@.ca_cert_pem == persist.unwrap().0@
                &&& m@.ca_key_pem == persist.unwrap().1@
                &&& m@.cert_dir == cert_dir@
            },
    {
        match loaded {
            Some((cert_pem, key_pem)) => {
                let manager = CaManager::from_loaded(cert_dir, cert_pem, key_pem);
                Ok((manager, None))
            },
            None => {
                let params = ca_params("Cavin Tools Local CA", "Cavin Tools", "CN", 0, 3650);
                let key = match generate_key() {
                    Ok(k) => k,
                    Err(e) => {
                        let mut msg = "Failed to generate key: ".to_owned();
                        msg.append(e.as_str());
                        return Err(msg);
                    },
                };
                let cert = match self_sign_cert(params, &key) {
                    Ok(c) => c,
                    Err(e) => {
                        let mut msg = "Failed to self-sign CA: ".to_owned();
                        msg.append(e.as_str());
                        return Err(msg);
                    },
                };
                let cert_pem = cert_to_pem(&cert);
                let key_pem = key_to_pem(&key);
                let persist_cert = cert_pem.clone();
                let persist_key = key_pem.clone();
                let manager = CaManager::from_loaded(cert_dir, cert_pem, key_pem);
                Ok((manager, Some((persist_cert, persist_key))))
            },
        }
    }

    /// Sign a fresh leaf certificate for the domain: the signing context is
    /// reconstructed from the stored key, a single-use key pair is
    /// generated, and the leaf carries the domain as its only subject
    /// alternative name with one year of validity.  A domain that cannot be
    /// encoded as a DNS name is always rejected.
    pub fn sign_cert_for_domain(&self, domain: &str) -> (r: Result<(String, String), String>)
        ensures
            !vstd::string::is_ascii(domain) ==> r is Err,
    {
        let ca_key = match key_from_pem(self.ca_key_pem.as_str()) {
            Ok(k) => k,
            Err(e) => {
                let mut msg = "Invalid CA key: ".to_owned();
                msg.append(e.as_str());
                return Err(msg);
            },
        };
        let ca_cert_params = ca_params("Cavin Tools Local CA", "Cavin Tools", "CN", 1, 3650);
        let ca_cert = match self_sign_cert(ca_cert_params, &ca_key) {
            Ok(c) => c,
            Err(e) => {
                let mut msg = "Failed to recreate CA: ".to_owned();
                msg.append(e.as_str());
                return Err(msg);
            },
        };
        let params = match leaf_params(domain, 365) {
            Ok(p) => p,
            Err(e) => {
                let mut msg = "Invalid domain: ".to_owned();
                msg.append(e.as_str());
                return Err(msg);
            },
        };
        let leaf_key = match generate_key() {
            Ok(k) => k,
            Err(e) => {
                let mut msg = "Failed to generate domain key: ".to_owned();
                msg.append(e.as_str());
                return Err(msg);
            },
        };
        let cert = match sign_params_by(params, &leaf_key, &ca_cert, &ca_key) {
            Ok(c) => c,
            Err(e) => {
                let mut msg = "Failed to sign domain cert: ".to_owned();
                msg.append(e.as_str());
                return Err(msg);
            },
        };
        Ok((cert_to_pem(&cert), key_to_pem(&leaf_key)))
    }

    /// Where the CA certificate file lives.
    pub fn get_ca_cert_path(&self) -> (r: String)
        ensures
            r@ == self@.cert_dir + "/ca.crt"@,
    {
        ca_cert_file(self.cert_dir.as_str())
    }

    /// The root certificate PEM, exactly as loaded or generated.
    pub fn get_ca_cert_pem(&self) -> (r: String)
        ensures
            r@ == self@.ca_cert_pem,
    {
        self.ca_cert_pem.clone()
    }

    /// Copy this manager; the copy has the same model.
    pub fn duplicate(&self) -> (r: CaManager)
        ensures
            r@ == self@,
    {
        let r = CaManager {
            ca_cert_pem: self.ca_cert_pem.clone(),
            ca_key_pem: self.ca_key_pem.clone(),
            cert_dir: self.cert_dir.clone(),
        };
        assert(r@ == self@);
        r
    }

    /// A shared handle on a copy of the key material, for the concurrent
    /// readers of the connection handlers.
    pub fn clone_arc(&self) -> (r: Arc<CaManager>)
        ensures
            r@ == self@,
    {
        Arc::new(self.duplicate())
    }
}

} // verus!
