//! Socket-facing half of the transport layer: the security configuration,
//! the dual-mode transport variant and the resilient connection state
//! machine.
//!
//! Certificate and identity material is validated eagerly, when the
//! configuration is built, so a malformed bundle fails at configuration time
//! and never at first handshake. The validation itself is the business of an
//! outside TLS implementation; its verdicts are named and trusted at the
//! interface, and the configuration's invariant records that every stored
//! bundle was accepted.

use vstd::prelude::*;

use crate::error::NatsError;

pub mod connection;
pub mod connection_inner;

verus! {

#[verifier::external_type_specification]
#[verifier::external_body]
pub struct ExIdentity(native_tls::Identity);

#[verifier::external_type_specification]
#[verifier::external_body]
pub struct ExCertificate(native_tls::Certificate);

#[verifier::external_type_specification]
#[verifier::external_body]
pub struct ExTlsConnector(native_tls::TlsConnector);

#[verifier::external_type_specification]
#[verifier::external_body]
pub struct ExTlsConnectorBuilder(native_tls::TlsConnectorBuilder);

#[verifier::external_type_specification]
#[verifier::external_body]
pub struct ExTlsError(native_tls::Error);

/// Whether the outside TLS implementation accepts these bytes as a
/// DER-formatted PKCS #12 archive decrypted by this password.
pub uninterp spec fn pkcs12_accepted(der: Seq<u8>, password: Seq<char>) -> bool;

/// Whether the outside TLS implementation accepts these bytes as a
/// DER-formatted X509 certificate.
pub uninterp spec fn cert_der_accepted(der: Seq<u8>) -> bool;

/// The archive bytes and password an `Identity` was parsed from.
pub uninterp spec fn identity_material(i: native_tls::Identity) -> (Seq<u8>, Seq<char>);

/// The DER bytes a `Certificate` was parsed from.
pub uninterp spec fn cert_material(c: native_tls::Certificate) -> Seq<u8>;

/// The client identity a connector builder holds, by its material.
pub uninterp spec fn builder_identity_slot(b: native_tls::TlsConnectorBuilder) -> Option<
    (Seq<u8>, Seq<char>),
>;

/// The extra trusted roots a connector builder holds, in order, by their
/// material.
pub uninterp spec fn builder_roots(b: native_tls::TlsConnectorBuilder) -> Seq<Seq<u8>>;

/// The client identity a built connector offers during handshakes.
pub uninterp spec fn connector_identity_slot(t: native_tls::TlsConnector) -> Option<
    (Seq<u8>, Seq<char>),
>;

/// The extra trusted roots a built connector verifies servers against.
pub uninterp spec fn connector_roots(t: native_tls::TlsConnector) -> Seq<Seq<u8>>;

/// Relies on `native_tls::Identity::from_pkcs12`: parses a DER-formatted
/// PKCS #12 archive, decrypting it with the password; acceptance is a
/// function of the bytes and the password alone.
#[verifier::external_body]
fn identity_from_pkcs12(der: &[u8], password: &str) -> (r: Result<
    native_tls::Identity,
    native_tls::Error,
>)
    ensures
        r is Ok <==> pkcs12_accepted(der@, password@),
        r matches Ok(i) ==> identity_material(i) == (der@, password@),
{
    native_tls::Identity::from_pkcs12(der, password)
}

/// Relies on `native_tls::Certificate::from_der`: parses a DER-formatted
/// X509 certificate; acceptance is a function of the bytes alone.
#[verifier::external_body]
fn certificate_from_der(der: &[u8]) -> (r: Result<native_tls::Certificate, native_tls::Error>)
    ensures
        r is Ok <==> cert_der_accepted(der@),
        r matches Ok(c) ==> cert_material(c) == der@,
{
    native_tls::Certificate::from_der(der)
}

/// Relies on `native_tls::TlsConnector::builder`: a builder with no identity
/// and no extra root certificates yet.
#[verifier::external_body]
fn tls_connector_builder() -> (r: native_tls::TlsConnectorBuilder)
    ensures
        builder_identity_slot(r) is None,
        builder_roots(r) == Seq::<Seq<u8>>::empty(),
{
    native_tls::TlsConnector::builder()
}

/// Relies on `native_tls::TlsConnectorBuilder::identity`: sets the client
/// identity offered during handshakes, touching nothing else.
#[verifier::external_body]
fn builder_identity(b: &mut native_tls::TlsConnectorBuilder, i: native_tls::Identity)
    ensures
        builder_identity_slot(*final(b)) == Some(identity_material(i)),
        builder_roots(*final(b)) == builder_roots(*old(b)),
{
    b.identity(i);
}

/// Relies on `native_tls::TlsConnectorBuilder::add_root_certificate`: appends
/// one trusted root for server verification, touching nothing else.
#[verifier::external_body]
fn builder_add_root_certificate(
    b: &mut native_tls::TlsConnectorBuilder,
    c: native_tls::Certificate,
)
    ensures
        builder_roots(*final(b)) == builder_roots(*old(b)).push(cert_material(c)),
        builder_identity_slot(*final(b)) == builder_identity_slot(*old(b)),
{
    b.add_root_certificate(c);
}

/// Relies on `native_tls::TlsConnectorBuilder::build`: assembles the
/// connector that performs encrypted handshakes. On success the connector
/// carries exactly the builder's client identity and extra trusted roots;
/// whether assembly succeeds also depends on trust stores probed from disk,
/// so success is not promised.
#[verifier::external_body]
fn builder_build(b: &native_tls::TlsConnectorBuilder) -> (r: Result<
    native_tls::TlsConnector,
    native_tls::Error,
>)
    ensures
        r matches Ok(t) ==> connector_identity_slot(t) == builder_identity_slot(*b)
            && connector_roots(t) == builder_roots(*b),
{
    b.build()
}

/// TLS configuration for the client: an optional client identity (a
/// password-protected key and certificate bundle) and an optional trusted
/// root certificate, both validated when they are set. The configuration is
/// built once and then shared across reconnections.
pub struct NatsClientTlsConfig {
    identity: Option<(Vec<u8>, String)>,
    root_cert: Option<Vec<u8>>,
}

impl NatsClientTlsConfig {
    /// Everything this configuration stores was accepted by the outside TLS
    /// implementation when it was stored: validation is eager, so use cannot
    /// fail later.
    #[verifier::type_invariant]
    pub closed spec fn wf(&self) -> bool {
        &&& match self.identity {
            Some((der, pass)) => pkcs12_accepted(der@, pass@),
            None => true,
        }
        &&& match self.root_cert {
            Some(der) => cert_der_accepted(der@),
            None => true,
        }
    }

    /// The stored identity material, as contracts speak of it.
    pub closed spec fn identity_view(&self) -> Option<(Seq<u8>, Seq<char>)> {
        match self.identity {
            Some((der, pass)) => Some((der@, pass@)),
            None => None,
        }
    }

    /// The stored trusted-root material, as contracts speak of it.
    pub closed spec fn root_cert_view(&self) -> Option<Seq<u8>> {
        match self.root_cert {
            Some(der) => Some(der@),
            None => None,
        }
    }

    /// Whether a client identity has been configured.
    pub fn identity_exists(&self) -> (r: bool)
        ensures
            r == (self.identity_view() is Some),
    {
        self.identity.is_some()
    }

    /// Whether a trusted root certificate has been configured.
    pub fn root_cert_exists(&self) -> (r: bool)
        ensures
            r == (self.root_cert_view() is Some),
    {
        self.root_cert.is_some()
    }

    /// Set the identity from a DER-formatted PKCS #12 archive, using the
    /// given password to decrypt the key. The archive is validated here,
    /// eagerly: a rejected bundle surfaces now and is not stored.
    pub fn pkcs12_identity(self, der_bytes: Vec<u8>, password: String) -> (r: Result<
        Self,
        NatsError,
    >)
        ensures
            r is Ok <==> pkcs12_accepted(der_bytes@, password@),
            r matches Ok(c) ==> c.identity_view() == Some((der_bytes@, password@))
                && c.root_cert_view() == self.root_cert_view(),
            r matches Err(e) ==> e == NatsError::TlsError,
    {
        proof {
            use_type_invariant(&self);
        }
        match identity_from_pkcs12(der_bytes.as_slice(), password.as_str()) {
            Ok(_) => Ok(
                NatsClientTlsConfig {
                    identity: Some((der_bytes, password)),
                    root_cert: self.root_cert,
                },
            ),
            Err(_) => Err(NatsError::TlsError),
        }
    }

    /// Set the trusted root certificate, in DER format. The certificate is
    /// validated here, eagerly: a rejected one surfaces now and is not
    /// stored.
    pub fn root_cert_der(self, der_bytes: Vec<u8>) -> (r: Result<Self, NatsError>)
        ensures
            r is Ok <==> cert_der_accepted(der_bytes@),
            r matches Ok(c) ==> c.root_cert_view() == Some(der_bytes@) && c.identity_view()
                == self.identity_view(),
            r matches Err(e) ==> e == NatsError::TlsError,
    {
        proof {
            use_type_invariant(&self);
        }
        match certificate_from_der(der_bytes.as_slice()) {
            Ok(_) => Ok(
                NatsClientTlsConfig { identity: self.identity, root_cert: Some(der_bytes) },
            ),
            Err(_) => Err(NatsError::TlsError),
        }
    }

    /// The configured client identity, rebuilt for use in a handshake.
    /// Because validation was eager, this never fails; the rebuilt value
    /// carries exactly the stored archive bytes and password.
    pub fn identity(&self) -> (r: Result<Option<native_tls::Identity>, NatsError>)
        ensures
            r is Ok,
            r matches Ok(o) ==> (o is Some <==> self.identity_view() is Some),
            r matches Ok(Some(i)) ==> Some(identity_material(i)) == self.identity_view(),
    {
        proof {
            use_type_invariant(self);
        }
        match &self.identity {
            Some((der, pass)) => match identity_from_pkcs12(der.as_slice(), pass.as_str()) {
                Ok(i) => Ok(Some(i)),
                Err(_) => vstd::pervasive::unreached(),
            },
            None => Ok(None),
        }
    }

    /// The configured trusted root, rebuilt for use in a handshake. Because
    /// validation was eager, this never fails; the rebuilt value carries
    /// exactly the stored DER bytes.
    pub fn root_cert(&self) -> (r: Result<Option<native_tls::Certificate>, NatsError>)
        ensures
            r is Ok,
            r matches Ok(o) ==> (o is Some <==> self.root_cert_view() is Some),
            r matches Ok(Some(c)) ==> Some(cert_material(c)) == self.root_cert_view(),
    {
        proof {
            use_type_invariant(self);
        }
        match &self.root_cert {
            Some(der) => match certificate_from_der(der.as_slice()) {
                Ok(c) => Ok(Some(c)),
                Err(_) => vstd::pervasive::unreached(),
            },
            None => Ok(None),
        }
    }
}

impl Default for NatsClientTlsConfig {
    /// An empty configuration: no client identity, no extra trusted root.
    fn default() -> (r: Self)
        ensures
            r.identity_view() is None,
            r.root_cert_view() is None,
    {
        NatsClientTlsConfig { identity: None, root_cert: None }
    }
}

/// What a connector built from this configuration must carry: the configured
/// client identity in its identity slot, and the configured trusted root —
/// and nothing else — among its extra roots.
pub open spec fn connector_matches_config(
    t: native_tls::TlsConnector,
    config: NatsClientTlsConfig,
) -> bool {
    &&& connector_identity_slot(t) == config.identity_view()
    &&& connector_roots(t) == match config.root_cert_view() {
        Some(der) => seq![der],
        None => Seq::<Seq<u8>>::empty(),
    }
}

/// Assemble the encrypted-handshake connector from a configuration: the
/// computation half of the plaintext-to-encrypted upgrade. The configured
/// identity and trusted root are rebuilt and installed — on success the
/// connector carries exactly them. Because the configuration validated its
/// material eagerly, the rebuilding cannot fail; the only error left is the
/// outside builder refusing to assemble, surfaced as a
/// handshake-configuration failure.
pub fn build_tls_connector(config: &NatsClientTlsConfig) -> (r: Result<
    native_tls::TlsConnector,
    NatsError,
>)
    ensures
        r matches Ok(t) ==> connector_matches_config(t, *config),
        r matches Err(e) ==> e == NatsError::TlsError,
{
    let maybe_identity = match config.identity() {
        Ok(o) => o,
        Err(_) => vstd::pervasive::unreached(),
    };
    let maybe_root = match config.root_cert() {
        Ok(o) => o,
        Err(_) => vstd::pervasive::unreached(),
    };
    let mut builder = tls_connector_builder();
    if let Some(i) = maybe_identity {
        builder_identity(&mut builder, i);
    }
    if let Some(c) = maybe_root {
        builder_add_root_certificate(&mut builder, c);
    }
    match builder_build(&builder) {
        Ok(t) => Ok(t),
        Err(_) => Err(NatsError::TlsError),
    }
}

} // verus!
