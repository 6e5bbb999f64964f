//! Public-client TLS termination for the HTTPS ingress.

use rustls::pki_types::PrivateKeyDer;
use rustls::ServerConfig;
use vstd::prelude::*;
use vstd::string::*;

use crate::bytes::{copy_of, views};
use crate::clock::Duration;

verus! {

pub const PUBLIC_HTTP1_ALPN: &'static str = "http/1.1";

pub const PUBLIC_HTTP2_ALPN: &'static str = "h2";

pub const RELOAD_PUBLIC_CERTIFICATE: &'static str = "public_server_certificate";

pub const RELOAD_PUBLIC_PRIVATE_KEY: &'static str = "public_server_private_key";

/// The finished configuration of a TLS server, of the crate `rustls`. It is carried
/// through and never looked into.
#[verifier::external_type_specification]
#[verifier::external_body]
pub struct ExServerConfig(ServerConfig);

/// How the bytes of a private key are to be read.
#[derive(Debug, Clone, Copy, PartialEq, Eq, Structural)]
pub enum PrivateKeyEncoding {
    Pkcs1,
    Sec1,
    Pkcs8,
}

/// A private key: its bytes, and how they are to be read.
pub struct PrivateKey {
    pub encoding: PrivateKeyEncoding,
    pub der: Vec<u8>,
}

/// The certificates that `rustls_pemfile::certs` reads from a text, or that it
/// fails on some section of it.
pub uninterp spec fn pem_certificates(pem: Seq<u8>) -> Option<Seq<Seq<u8>>>;

/// The key that `rustls_pemfile::private_key` reads from a text, by its encoding and
/// its bytes, or that there is none, or that it fails on some section of the text.
pub uninterp spec fn pem_private_key(pem: Seq<u8>) -> Option<
    Option<(PrivateKeyEncoding, Seq<u8>)>,
>;

/// Calls `rustls_pemfile::certs`, which yields the certificate sections of a PEM
/// text in their order and passes over other sections. The claim is only that what
/// it yields is fixed by the text; nothing comes back where it fails on a section.
#[verifier::external_body]
fn read_certificates(pem: &[u8]) -> (certificates: Option<Vec<Vec<u8>>>)
    ensures
        match certificates {
            Some(list) => pem_certificates(pem@) == Some(views(list@)),
            None => pem_certificates(pem@) is None,
        },
{
    let mut reader = pem;
    rustls_pemfile::certs(&mut reader).map(
        |certificate| certificate.ok().map(|der| der.as_ref().to_vec()),
    ).collect()
}

/// Calls `rustls_pemfile::private_key`, which yields the first private key of a PEM
/// text, in one of three encodings. The claim is only that the text alone fixes the
/// key's encoding and bytes, whether there is one, and whether the text can be read; no
/// key comes back where it fails on a section.
#[verifier::external_body]
fn read_private_key(pem: &[u8]) -> (key: Option<Option<PrivateKey>>)
    ensures
        (match key {
            Some(Some(key)) => Some(Some((key.encoding, key.der@))),
            Some(None) => Some(None),
            None => None,
        }) == pem_private_key(pem@),
{
    let mut reader = pem;
    match rustls_pemfile::private_key(&mut reader).ok()? {
        Some(key) => {
            let encoding = match &key {
                PrivateKeyDer::Pkcs1(_) => PrivateKeyEncoding::Pkcs1,
                PrivateKeyDer::Sec1(_) => PrivateKeyEncoding::Sec1,
                PrivateKeyDer::Pkcs8(_) => PrivateKeyEncoding::Pkcs8,
                _ => return None,
            };
            Some(Some(PrivateKey { encoding, der: key.secret_der().to_vec() }))
        },
        None => Some(None),
    }
}

/// Calls `with_single_cert` of a `rustls::ServerConfig` builder that asks clients
/// for no certificate and computes with the `ring` provider, and sets the protocols
/// that the configuration offers. It fails where the key cannot be loaded or does not
/// belong to the first certificate. Loading some keys draws on the system's
/// randomness, so nothing is claimed of the result.
#[verifier::external_body]
fn single_identity(material: IdentityMaterial) -> (identity: Option<ServerConfig>) {
    let provider = std::sync::Arc::new(rustls::crypto::ring::default_provider());
    let builder = ServerConfig::builder_with_provider(
        provider,
    ).with_safe_default_protocol_versions().ok()?.with_no_client_auth();
    let chain = material.certificates.into_iter().map(|der| der.into()).collect();
    let key = match material.key.encoding {
        PrivateKeyEncoding::Pkcs1 => PrivateKeyDer::Pkcs1(material.key.der.into()),
        PrivateKeyEncoding::Sec1 => PrivateKeyDer::Sec1(material.key.der.into()),
        PrivateKeyEncoding::Pkcs8 => PrivateKeyDer::Pkcs8(material.key.der.into()),
    };
    let mut config = builder.with_single_cert(chain, key).ok()?;
    config.alpn_protocols = material.protocols;
    Some(config)
}

/// Which HTTP protocols TLS offers to clients.
#[derive(Debug, Clone, Copy, PartialEq, Eq, Structural)]
pub enum PublicHttpProtocolPolicy {
    Http1Only,
    Http1AndHttp2,
}

impl PublicHttpProtocolPolicy {
    /// The names by which the protocols are offered, the preferred one first.
    pub open spec fn offered(self) -> Seq<Seq<u8>> {
        match self {
            PublicHttpProtocolPolicy::Http1Only => seq![PUBLIC_HTTP1_ALPN.spec_bytes()],
            PublicHttpProtocolPolicy::Http1AndHttp2 => seq![
                PUBLIC_HTTP2_ALPN.spec_bytes(),
                PUBLIC_HTTP1_ALPN.spec_bytes(),
            ],
        }
    }

    /// The names by which the protocols are offered, the preferred one first.
    pub fn alpn_protocols(self) -> (names: Vec<Vec<u8>>)
        ensures
            views(names@) == self.offered(),
    {
        let mut names: Vec<Vec<u8>> = Vec::new();
        if self == PublicHttpProtocolPolicy::Http1AndHttp2 {
            names.push(copy_of(PUBLIC_HTTP2_ALPN.as_bytes()));
        }
        names.push(copy_of(PUBLIC_HTTP1_ALPN.as_bytes()));
        assert(views(names@) =~= self.offered());
        names
    }
}

/// How the ingress ends TLS: the protocols it offers, and how long a handshake
/// may take.
#[derive(Debug, Clone, Copy, PartialEq, Eq, Structural)]
pub struct PublicTlsConfig {
    pub protocols: PublicHttpProtocolPolicy,
    pub handshake_timeout: Duration,
}

/// What the reader of validity periods says of the first certificate.
#[derive(Debug, Clone, Copy, PartialEq, Eq, Structural)]
pub enum CertificateStanding {
    /// Its validity period cannot be read.
    Unreadable,
    /// It is not valid now.
    Inactive,
    Active,
}

/// Why a certificate and a key make no TLS configuration.
#[derive(Debug, Clone, Copy, PartialEq, Eq, Structural)]
pub enum PublicTlsConfigError {
    ZeroHandshakeTimeout,
    MissingServerCertificate,
    InvalidServerCertificate,
    MissingServerPrivateKey,
    InvalidServerPrivateKey,
    InvalidServerIdentity,
    InvalidCertificateValidity,
}

impl PublicTlsConfigError {
    /// The text shown to an operator.
    pub open spec fn text(self) -> Seq<char> {
        match self {
            PublicTlsConfigError::ZeroHandshakeTimeout =>
                "public TLS handshake timeout must be greater than zero"@,
            PublicTlsConfigError::MissingServerCertificate =>
                "public TLS certificate bundle is empty"@,
            PublicTlsConfigError::InvalidServerCertificate =>
                "public TLS certificate bundle is invalid"@,
            PublicTlsConfigError::MissingServerPrivateKey => "public TLS private key is missing"@,
            PublicTlsConfigError::InvalidServerPrivateKey => "public TLS private key is invalid"@,
            PublicTlsConfigError::InvalidServerIdentity =>
                "public TLS server certificate and private key are incompatible"@,
            PublicTlsConfigError::InvalidCertificateValidity =>
                "public TLS server certificate validity is invalid or not currently active"@,
        }
    }

    /// The text shown to an operator.
    pub fn message(self) -> (message: &'static str)
        ensures
            message@ == self.text(),
    {
        match self {
            PublicTlsConfigError::ZeroHandshakeTimeout =>
                "public TLS handshake timeout must be greater than zero",
            PublicTlsConfigError::MissingServerCertificate =>
                "public TLS certificate bundle is empty",
            PublicTlsConfigError::InvalidServerCertificate =>
                "public TLS certificate bundle is invalid",
            PublicTlsConfigError::MissingServerPrivateKey => "public TLS private key is missing",
            PublicTlsConfigError::InvalidServerPrivateKey => "public TLS private key is invalid",
            PublicTlsConfigError::InvalidServerIdentity =>
                "public TLS server certificate and private key are incompatible",
            PublicTlsConfigError::InvalidCertificateValidity =>
                "public TLS server certificate validity is invalid or not currently active",
        }
    }
}

/// What is made of the certificates that were read.
pub open spec fn certificates_result(read: Option<Seq<Seq<u8>>>) -> Result<
    Seq<Seq<u8>>,
    PublicTlsConfigError,
> {
    match read {
        None => Err(PublicTlsConfigError::InvalidServerCertificate),
        Some(list) => if list.len() == 0 {
            Err(PublicTlsConfigError::MissingServerCertificate)
        } else {
            Ok(list)
        },
    }
}

/// Takes certificates that were read: some are needed.
pub fn some_certificates(read: Option<Vec<Vec<u8>>>) -> (result: Result<
    Vec<Vec<u8>>,
    PublicTlsConfigError,
>)
    ensures
        (match result {
            Ok(list) => Ok(views(list@)),
            Err(error) => Err(error),
        }) == certificates_result(
            match read {
                Some(list) => Some(views(list@)),
                None => None,
            },
        ),
{
    match read {
        None => Err(PublicTlsConfigError::InvalidServerCertificate),
        Some(list) => if list.len() == 0 {
            Err(PublicTlsConfigError::MissingServerCertificate)
        } else {
            Ok(list)
        },
    }
}

/// The certificates of a PEM text, of which there is at least one.
pub fn parse_certificates(pem: &[u8]) -> (result: Result<Vec<Vec<u8>>, PublicTlsConfigError>)
    ensures
        (match result {
            Ok(list) => Ok(views(list@)),
            Err(error) => Err(error),
        }) == certificates_result(pem_certificates(pem@)),
{
    some_certificates(read_certificates(pem))
}

/// Whether a PEM text holds a private key, where the text can be read.
pub open spec fn pem_has_private_key(pem: Seq<u8>) -> Option<bool> {
    match pem_private_key(pem) {
        Some(found) => Some(found is Some),
        None => None,
    }
}

/// What is wrong with a private key of which only that is known.
pub open spec fn private_key_fault(found: Option<bool>) -> Option<PublicTlsConfigError> {
    match found {
        None => Some(PublicTlsConfigError::InvalidServerPrivateKey),
        Some(false) => Some(PublicTlsConfigError::MissingServerPrivateKey),
        Some(true) => None,
    }
}

/// The first private key of a PEM text.
pub fn parse_private_key(pem: &[u8]) -> (result: Result<PrivateKey, PublicTlsConfigError>)
    ensures
        match result {
            Ok(key) => pem_private_key(pem@) == Some(Some((key.encoding, key.der@))),
            Err(error) => private_key_fault(pem_has_private_key(pem@)) == Some(error),
        },
{
    match read_private_key(pem) {
        None => Err(PublicTlsConfigError::InvalidServerPrivateKey),
        Some(None) => Err(PublicTlsConfigError::MissingServerPrivateKey),
        Some(Some(key)) => Ok(key),
    }
}

/// What is wrong with an identity before its two parts are held together: the
/// certificates, then the period in which the first is valid, then the key.
pub open spec fn identity_fault(
    certificates: Option<Seq<Seq<u8>>>,
    standing: CertificateStanding,
    key: Option<bool>,
) -> Option<PublicTlsConfigError> {
    match certificates_result(certificates) {
        Err(error) => Some(error),
        Ok(_) => if standing is Unreadable {
            Some(PublicTlsConfigError::InvalidCertificateValidity)
        } else {
            private_key_fault(key)
        },
    }
}

/// What a server's configuration is made of: its certificates, the key of the first,
/// and the names of the protocols that it offers.
pub struct IdentityMaterial {
    pub certificates: Vec<Vec<u8>>,
    pub key: PrivateKey,
    pub protocols: Vec<Vec<u8>>,
}

/// Reads what a server's configuration is made of: every certificate of the one text,
/// in its order, the key of the other, and the protocols in the order of preference.
pub fn identity_material(
    server_cert_pem: &[u8],
    server_key_pem: &[u8],
    standing: CertificateStanding,
    protocols: PublicHttpProtocolPolicy,
) -> (result: Result<IdentityMaterial, PublicTlsConfigError>)
    ensures
        match identity_fault(
            pem_certificates(server_cert_pem@),
            standing,
            pem_has_private_key(server_key_pem@),
        ) {
            Some(fault) => result == Err::<IdentityMaterial, PublicTlsConfigError>(fault),
            None => result matches Ok(material) && pem_certificates(server_cert_pem@) == Some(
                views(material.certificates@),
            ) && pem_private_key(server_key_pem@) == Some(
                Some((material.key.encoding, material.key.der@)),
            ) && views(material.protocols@) == protocols.offered(),
        },
{
    let certificates: Vec<Vec<u8>> = match parse_certificates(server_cert_pem) {
        Ok(list) => list,
        Err(error) => return Err(error),
    };
    if standing == CertificateStanding::Unreadable {
        return Err(PublicTlsConfigError::InvalidCertificateValidity);
    }
    let key: PrivateKey = match parse_private_key(server_key_pem) {
        Ok(key) => key,
        Err(error) => return Err(error),
    };
    Ok(IdentityMaterial { certificates, key, protocols: protocols.alpn_protocols() })
}

/// Joins certificates and a key into a server's configuration that offers those
/// protocols, where the two belong together.
pub fn build_server_config(
    server_cert_pem: &[u8],
    server_key_pem: &[u8],
    standing: CertificateStanding,
    protocols: PublicHttpProtocolPolicy,
) -> (result: Result<ServerConfig, PublicTlsConfigError>)
    ensures
        match identity_fault(
            pem_certificates(server_cert_pem@),
            standing,
            pem_has_private_key(server_key_pem@),
        ) {
            Some(fault) => result == Err::<ServerConfig, PublicTlsConfigError>(fault),
            None => result is Ok || result->Err_0 is InvalidServerIdentity,
        },
{
    let material: IdentityMaterial = match identity_material(
        server_cert_pem,
        server_key_pem,
        standing,
        protocols,
    ) {
        Ok(material) => material,
        Err(error) => return Err(error),
    };
    match single_identity(material) {
        Some(config) => Ok(config),
        None => Err(PublicTlsConfigError::InvalidServerIdentity),
    }
}

/// What comes of a server's configuration: it is used where its certificate is
/// valid now.
pub fn activate<C>(
    built: Result<C, PublicTlsConfigError>,
    standing: CertificateStanding,
    protocols: PublicHttpProtocolPolicy,
    handshake_timeout: Duration,
) -> (result: Result<(PublicTlsConfig, C), PublicTlsConfigError>)
    ensures
        result == (match built {
            Err(error) => Err(error),
            Ok(config) => if standing is Active {
                Ok((PublicTlsConfig { protocols, handshake_timeout }, config))
            } else {
                Err(PublicTlsConfigError::InvalidCertificateValidity)
            },
        }),
{
    match built {
        Err(error) => Err(error),
        Ok(config) => if standing == CertificateStanding::Active {
            Ok((PublicTlsConfig { protocols, handshake_timeout }, config))
        } else {
            Err(PublicTlsConfigError::InvalidCertificateValidity)
        },
    }
}

/// What is wrong with the inputs of `from_pem` on their own.
pub open spec fn tls_fault(
    certificates: Option<Seq<Seq<u8>>>,
    standing: CertificateStanding,
    key: Option<bool>,
    handshake_timeout: Duration,
) -> Option<PublicTlsConfigError> {
    if handshake_timeout.nanos == 0 {
        Some(PublicTlsConfigError::ZeroHandshakeTimeout)
    } else {
        identity_fault(certificates, standing, key)
    }
}

impl PublicTlsConfig {
    /// A configuration that offers HTTP/1.1 only.
    pub fn from_pem(
        server_cert_pem: &[u8],
        server_key_pem: &[u8],
        standing: CertificateStanding,
        handshake_timeout: Duration,
    ) -> (result: Result<(PublicTlsConfig, ServerConfig), PublicTlsConfigError>)
        ensures
            match tls_fault(
                pem_certificates(server_cert_pem@),
                standing,
                pem_has_private_key(server_key_pem@),
                handshake_timeout,
            ) {
                Some(fault) => result == Err::<(PublicTlsConfig, ServerConfig), _>(fault),
                None => match result {
                    Ok((tls, _)) => standing is Active && tls == (PublicTlsConfig {
                        protocols: PublicHttpProtocolPolicy::Http1Only,
                        handshake_timeout,
                    }),
                    Err(error) => error is InvalidServerIdentity || (!(standing is Active)
                        && error is InvalidCertificateValidity),
                },
            },
    {
        PublicTlsConfig::from_pem_with_protocols(
            server_cert_pem,
            server_key_pem,
            standing,
            handshake_timeout,
            PublicHttpProtocolPolicy::Http1Only,
        )
    }

    /// A configuration that offers those protocols. Whether certificate and key
    /// belong together is decided last but for the certificate's period.
    pub fn from_pem_with_protocols(
        server_cert_pem: &[u8],
        server_key_pem: &[u8],
        standing: CertificateStanding,
        handshake_timeout: Duration,
        protocols: PublicHttpProtocolPolicy,
    ) -> (result: Result<(PublicTlsConfig, ServerConfig), PublicTlsConfigError>)
        ensures
            match tls_fault(
                pem_certificates(server_cert_pem@),
                standing,
                pem_has_private_key(server_key_pem@),
                handshake_timeout,
            ) {
                Some(fault) => result == Err::<(PublicTlsConfig, ServerConfig), _>(fault),
                None => match result {
                    Ok((tls, _)) => standing is Active && tls == (PublicTlsConfig {
                        protocols,
                        handshake_timeout,
                    }),
                    Err(error) => error is InvalidServerIdentity || (!(standing is Active)
                        && error is InvalidCertificateValidity),
                },
            },
    {
        if handshake_timeout.is_zero() {
            return Err(PublicTlsConfigError::ZeroHandshakeTimeout);
        }
        let built: Result<ServerConfig, PublicTlsConfigError> = build_server_config(
            server_cert_pem,
            server_key_pem,
            standing,
            protocols,
        );
        activate(built, standing, protocols, handshake_timeout)
    }

    /// How long a handshake may take.
    pub fn handshake_timeout(&self) -> (timeout: Duration)
        ensures
            timeout == self.handshake_timeout,
    {
        self.handshake_timeout
    }
}

/// Where the identity is reloaded from, and how often.
#[derive(Debug, PartialEq, Eq)]
pub struct PublicTlsReloadConfig {
    pub manifest_path: String,
    pub server_certificate_path: String,
    pub server_private_key_path: String,
    pub poll_interval: Duration,
    pub expiry_warning: Duration,
}

/// A file that a reload reads, by the name that the manifest has for it.
#[derive(Debug, PartialEq, Eq)]
pub struct TlsReloadFile {
    pub name: &'static str,
    pub path: String,
}

/// What a reload reads, and how often.
#[derive(Debug, PartialEq, Eq)]
pub struct TlsReloadRuntimeConfig {
    pub manifest_path: String,
    pub files: Vec<TlsReloadFile>,
    pub poll_interval: Duration,
    pub expiry_warning: Duration,
}

impl PublicTlsReloadConfig {
    /// The manifest and the two files that a reload reads.
    pub fn runtime_config(&self) -> (config: TlsReloadRuntimeConfig)
        ensures
            config.manifest_path == self.manifest_path,
            config.poll_interval == self.poll_interval,
            config.expiry_warning == self.expiry_warning,
            config.files@.len() == 2,
            config.files@[0].name@ == RELOAD_PUBLIC_CERTIFICATE@,
            config.files@[0].path == self.server_certificate_path,
            config.files@[1].name@ == RELOAD_PUBLIC_PRIVATE_KEY@,
            config.files@[1].path == self.server_private_key_path,
    {
        let mut files: Vec<TlsReloadFile> = Vec::new();
        files.push(
            TlsReloadFile {
                name: RELOAD_PUBLIC_CERTIFICATE,
                path: self.server_certificate_path.clone(),
            },
        );
        files.push(
            TlsReloadFile {
                name: RELOAD_PUBLIC_PRIVATE_KEY,
                path: self.server_private_key_path.clone(),
            },
        );
        TlsReloadRuntimeConfig {
            manifest_path: self.manifest_path.clone(),
            files,
            poll_interval: self.poll_interval,
            expiry_warning: self.expiry_warning,
        }
    }
}

/// Why no first identity could be loaded; failures outside of it by their text.
#[derive(Debug)]
pub enum PublicTlsReloadBootstrapError {
    Load(String),
    Tls(PublicTlsConfigError),
    Generation(String),
    Runtime(String),
    Candidate,
}

impl PublicTlsReloadBootstrapError {
    /// The text shown to an operator.
    pub open spec fn text(self) -> Seq<char> {
        match self {
            PublicTlsReloadBootstrapError::Load(error) => error@,
            PublicTlsReloadBootstrapError::Tls(error) => error.text(),
            PublicTlsReloadBootstrapError::Generation(error) => error@,
            PublicTlsReloadBootstrapError::Runtime(error) => error@,
            PublicTlsReloadBootstrapError::Candidate =>
                "public TLS reload generation contains invalid credentials"@,
        }
    }

    /// The text shown to an operator.
    pub fn message(&self) -> (message: String)
        ensures
            message@ == self.text(),
    {
        match self {
            PublicTlsReloadBootstrapError::Load(error) => error.clone(),
            PublicTlsReloadBootstrapError::Tls(error) => error.message().to_owned(),
            PublicTlsReloadBootstrapError::Generation(error) => error.clone(),
            PublicTlsReloadBootstrapError::Runtime(error) => error.clone(),
            PublicTlsReloadBootstrapError::Candidate =>
                "public TLS reload generation contains invalid credentials".to_owned(),
        }
    }
}

/// A stage at which the loading of a first identity failed; the stages follow one
/// another in this order.
#[derive(Debug)]
pub enum ReloadFailure {
    Config(String),
    Load(String),
    Candidate(PublicTlsConfigError),
    Generation(String),
    Runtime(String),
}

/// What comes of loading a first identity that is to be reloaded, where `failure`
/// is the first stage that failed, if one did. Nothing is loaded for a handshake
/// timeout of zero.
pub fn reload_bootstrap(
    handshake_timeout: Duration,
    protocols: PublicHttpProtocolPolicy,
    failure: Option<ReloadFailure>,
) -> (result: Result<PublicTlsConfig, PublicTlsReloadBootstrapError>)
    ensures
        result == (if handshake_timeout.nanos == 0 {
            Err(PublicTlsReloadBootstrapError::Tls(PublicTlsConfigError::ZeroHandshakeTimeout))
        } else {
            match failure {
                None => Ok(PublicTlsConfig { protocols, handshake_timeout }),
                Some(ReloadFailure::Config(error)) => Err(
                    PublicTlsReloadBootstrapError::Runtime(error),
                ),
                Some(ReloadFailure::Load(error)) => Err(PublicTlsReloadBootstrapError::Load(error)),
                Some(ReloadFailure::Candidate(_)) => Err(PublicTlsReloadBootstrapError::Candidate),
                Some(ReloadFailure::Generation(error)) => Err(
                    PublicTlsReloadBootstrapError::Generation(error),
                ),
                Some(ReloadFailure::Runtime(error)) => Err(
                    PublicTlsReloadBootstrapError::Runtime(error),
                ),
            }
        }),
{
    if handshake_timeout.is_zero() {
        return Err(
            PublicTlsReloadBootstrapError::Tls(PublicTlsConfigError::ZeroHandshakeTimeout),
        );
    }
    match failure {
        None => Ok(PublicTlsConfig { protocols, handshake_timeout }),
        Some(ReloadFailure::Config(error)) => Err(PublicTlsReloadBootstrapError::Runtime(error)),
        Some(ReloadFailure::Load(error)) => Err(PublicTlsReloadBootstrapError::Load(error)),
        Some(ReloadFailure::Candidate(_)) => Err(PublicTlsReloadBootstrapError::Candidate),
        Some(ReloadFailure::Generation(error)) => Err(
            PublicTlsReloadBootstrapError::Generation(error),
        ),
        Some(ReloadFailure::Runtime(error)) => Err(PublicTlsReloadBootstrapError::Runtime(error)),
    }
}

/// TLS offers HTTP/1.1 always, and HTTP/2 before it just where that is enabled.
pub proof fn protocols_are_offered_in_order(policy: PublicHttpProtocolPolicy)
    ensures
        policy is Http1Only ==> policy.offered() == seq!["http/1.1".spec_bytes()],
        policy is Http1AndHttp2 ==> policy.offered() == seq![
            "h2".spec_bytes(),
            "http/1.1".spec_bytes(),
        ],
{
}

/// An identity is whole just where there is a certificate, its period can be read, and
/// there is a key; what is missing is named in that order.
pub proof fn identities_are_whole(
    certificates: Option<Seq<Seq<u8>>>,
    standing: CertificateStanding,
    key: Option<bool>,
)
    ensures
        identity_fault(certificates, standing, key) is None <==> certificates is Some
            && certificates->0.len() > 0 && !(standing is Unreadable) && key == Some(true),
        certificates is None ==> identity_fault(certificates, standing, key) == Some(
            PublicTlsConfigError::InvalidServerCertificate,
        ),
        certificates is Some && certificates->0.len() == 0 ==> identity_fault(
            certificates,
            standing,
            key,
        ) == Some(PublicTlsConfigError::MissingServerCertificate),
        certificates is Some && certificates->0.len() > 0 && standing is Unreadable
            ==> identity_fault(certificates, standing, key) == Some(
            PublicTlsConfigError::InvalidCertificateValidity,
        ),
        certificates is Some && certificates->0.len() > 0 && !(standing is Unreadable) && key
            is None ==> identity_fault(certificates, standing, key) == Some(
            PublicTlsConfigError::InvalidServerPrivateKey,
        ),
        certificates is Some && certificates->0.len() > 0 && !(standing is Unreadable) && key
            == Some(false) ==> identity_fault(certificates, standing, key) == Some(
            PublicTlsConfigError::MissingServerPrivateKey,
        ),
{
}

} // verus!
