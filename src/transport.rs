//! Transport set-up: whether the connection is encrypted, and the endpoint
//! that the connection attempts use.

use vstd::prelude::*;
use crate::text::{is_prefix_ignoring_ascii_case, starts_with_ignoring_ascii_case};
use tonic::transport::{Certificate, ClientTlsConfig, Endpoint};

verus! {

#[verifier::external_type_specification]
#[verifier::external_body]
pub struct ExEndpoint(tonic::transport::Endpoint);

#[verifier::external_type_specification]
#[verifier::external_body]
pub struct ExTransportError(tonic::transport::Error);


/// Seconds the transport waits for a keep-alive answer before it gives up.
pub const KEEP_ALIVE_TIMEOUT_SECS: u64 = 30;

/// The address prefix that asks for an encrypted transport.
pub const SECURE_SCHEME: &'static str = "https://";

/// Whether an address names the encrypted scheme (URI schemes ignore case).
pub open spec fn secure_scheme(address: Seq<char>) -> bool {
    is_prefix_ignoring_ascii_case(SECURE_SCHEME@, address)
}

/// Encryption is on when the address asks for it or a CA certificate is given.
pub open spec fn encryption_required(address: Seq<char>, has_ca_cert: bool) -> bool {
    secure_scheme(address) || has_ca_cert
}

/// Whether the transport's URI parser accepts an address.
pub uninterp spec fn uri_accepted(address: Seq<char>) -> bool;

/// Whether the TLS layer accepts the settings for an address: the CA
/// certificate text, if any, and the server name, if any (else the host of
/// the address).
pub uninterp spec fn tls_accepted(address: Seq<char>, ca_pem: Option<Seq<char>>, domain: Option<Seq<char>>) -> bool;

/// The characters of an optional text.
pub open spec fn opt_chars(o: Option<String>) -> Option<Seq<char>> {
    match o {
        Some(s) => Some(s@),
        None => None,
    }
}

/// Decides whether the transport to `address` is encrypted.
pub fn uses_encryption(address: &str, ca_cert_path: &Option<String>) -> (r: bool)
    ensures
        r == encryption_required(address@, ca_cert_path.is_some()),
{
    starts_with_ignoring_ascii_case(address, SECURE_SCHEME) || ca_cert_path.is_some()
}

/// Where to connect and how.
pub struct TransportPlan {
    pub address: String,
    pub encrypted: bool,
    pub ca_cert_path: Option<String>,
    pub domain: Option<String>,
}

impl TransportPlan {
    /// The plan's encryption flag agrees with its address and certificate.
    pub open spec fn wf(&self) -> bool {
        self.encrypted == encryption_required(self.address@, self.ca_cert_path.is_some())
    }

    pub fn new(address: String, ca_cert_path: Option<String>, domain: Option<String>) -> (r: Self)
        ensures
            r.address == address,
            r.ca_cert_path == ca_cert_path,
            r.domain == domain,
            r.wf(),
    {
        let encrypted = uses_encryption(address.as_str(), &ca_cert_path);
        TransportPlan { address, encrypted, ca_cert_path, domain }
    }
}

/// The CA certificate text, as reading it turned out.
#[derive(Debug, Clone, PartialEq, Eq)]
pub enum CaCertificate {
    /// No certificate was given.
    NotGiven,
    /// The PEM text that was read.
    Read(String),
    /// The file could not be read, for this reason.
    Unreadable(String),
}

/// The certificate text handed to the TLS layer.
pub open spec fn pem_of(ca: CaCertificate) -> Option<Seq<char>> {
    match ca {
        CaCertificate::Read(pem) => Some(pem@),
        _ => None,
    }
}

/// Why no endpoint could be built from a plan.
#[derive(Debug, Clone, PartialEq, Eq)]
pub enum SetupError {
    /// The address is not a URI that the transport takes.
    InvalidAddress,
    /// The CA certificate file could not be read.
    UnreadableCertificate(String),
    /// The TLS settings (certificate or server name) were refused.
    InvalidTls,
}

/// Relies on `Endpoint::from_shared`: it returns `Ok` exactly when the
/// address parses as a URI, which depends on the text alone.
#[verifier::external_body]
fn endpoint_from_address(address: String) -> (r: Result<Endpoint, tonic::transport::Error>)
    ensures
        r.is_ok() == uri_accepted(address@),
{
    Endpoint::from_shared(address)
}

/// Relies on `Endpoint::keep_alive_while_idle`, which only records the flag.
#[verifier::external_body]
fn keep_alive_while_idle(endpoint: Endpoint, enabled: bool) -> Endpoint {
    endpoint.keep_alive_while_idle(enabled)
}

/// Relies on `Endpoint::keep_alive_timeout`, which only records the duration.
#[verifier::external_body]
fn keep_alive_timeout(endpoint: Endpoint, secs: u64) -> Endpoint {
    endpoint.keep_alive_timeout(std::time::Duration::from_secs(secs))
}

/// Relies on `Endpoint::from_shared` and `Endpoint::tls_config`, with the
/// settings made by `ClientTlsConfig::new`, `ca_certificates` and
/// `domain_name` (which only record them; `Certificate::from_pem` only stores
/// the bytes). `tls_config` parses the certificate text and the server name
/// (the address's host when none is given) and fails if either is refused;
/// with no native roots enabled it reads nothing else.
#[verifier::external_body]
fn endpoint_with_tls(address: String, ca_pem: Option<String>, domain: Option<String>) -> (r: Result<Endpoint, tonic::transport::Error>)
    ensures
        r.is_ok() == (uri_accepted(address@) && tls_accepted(address@, opt_chars(ca_pem), opt_chars(domain))),
{
    let mut config = ClientTlsConfig::new().ca_certificates(ca_pem.map(Certificate::from_pem));
    if let Some(domain) = domain {
        config = config.domain_name(domain);
    }
    Endpoint::from_shared(address)?.tls_config(config)
}

/// Builds the endpoint for a plan: keep-alive probes while idle with a fixed
/// timeout, and TLS (with the given CA certificate text and server name) when
/// the plan is encrypted. A CA certificate that could not be read, or that
/// the TLS layer refuses, stops it.
pub fn build_endpoint(plan: &TransportPlan, ca: CaCertificate) -> (r: Result<Endpoint, SetupError>)
    requires
        plan.wf(),
    ensures
        (r == Err::<Endpoint, SetupError>(SetupError::InvalidAddress)) == !uri_accepted(plan.address@),
        uri_accepted(plan.address@) && !plan.encrypted ==> r.is_ok(),
        uri_accepted(plan.address@) && plan.encrypted ==> match ca {
            CaCertificate::Unreadable(e) => r == Err::<Endpoint, SetupError>(SetupError::UnreadableCertificate(e)),
            _ => {
                &&& r.is_ok() == tls_accepted(plan.address@, pem_of(ca), opt_chars(plan.domain))
                &&& r.is_err() ==> r == Err::<Endpoint, SetupError>(SetupError::InvalidTls)
            },
        },
{
    let endpoint = match endpoint_from_address(plan.address.clone()) {
        Ok(e) => e,
        Err(_) => return Err(SetupError::InvalidAddress),
    };
    let endpoint = if plan.encrypted {
        let pem = match ca {
            CaCertificate::NotGiven => None,
            CaCertificate::Read(pem) => Some(pem),
            CaCertificate::Unreadable(e) => return Err(SetupError::UnreadableCertificate(e)),
        };
        match endpoint_with_tls(plan.address.clone(), pem, plan.domain.clone()) {
            Ok(e) => e,
            Err(_) => return Err(SetupError::InvalidTls),
        }
    } else {
        endpoint
    };
    let endpoint = keep_alive_while_idle(endpoint, true);
    Ok(keep_alive_timeout(endpoint, KEEP_ALIVE_TIMEOUT_SECS))
}

} // verus!
