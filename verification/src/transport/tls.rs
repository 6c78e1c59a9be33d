//! TLS: certificates, keys and the settings of a connection.

use super::sip_addr::{SipAddr, SipAddrView};
use crate::error;
use crate::error::{Error, ErrorView};
use crate::sip::basic::Transport;
use crate::sip::message::copy_bytes;
use crate::sip::uri::{Host, HostView, HostWithPort};
use vstd::prelude::*;
use vstd::string::*;

verus! {

/// The settings of TLS connections. Certificates and keys are in PEM form.
#[derive(Debug)]
pub struct TlsConfig {
    pub cert: Option<Vec<u8>>,
    pub key: Option<Vec<u8>>,
    pub client_cert: Option<Vec<u8>>,
    pub client_key: Option<Vec<u8>>,
    pub ca_certs: Option<Vec<u8>>,
    /// The name to ask the server for, in the place of its host.
    pub sni_hostname: Option<String>,
}

#[verifier::ext_equal]
pub struct TlsConfigView {
    pub cert: Option<Seq<u8>>,
    pub key: Option<Seq<u8>>,
    pub client_cert: Option<Seq<u8>>,
    pub client_key: Option<Seq<u8>>,
    pub ca_certs: Option<Seq<u8>>,
    pub sni_hostname: Option<Seq<char>>,
}

pub open spec fn bytes_view(v: Option<Vec<u8>>) -> Option<Seq<u8>> {
    match v {
        Some(v) => Some(v@),
        None => None,
    }
}

impl DeepView for TlsConfig {
    type V = TlsConfigView;

    open spec fn deep_view(&self) -> TlsConfigView {
        TlsConfigView {
            cert: bytes_view(self.cert),
            key: bytes_view(self.key),
            client_cert: bytes_view(self.client_cert),
            client_key: bytes_view(self.client_key),
            ca_certs: bytes_view(self.ca_certs),
            sni_hostname: self.sni_hostname.deep_view(),
        }
    }
}

impl View for TlsConfig {
    type V = TlsConfigView;

    open spec fn view(&self) -> TlsConfigView {
        self.deep_view()
    }
}

/// The settings that name nothing.
pub open spec fn default_config() -> TlsConfigView {
    TlsConfigView {
        cert: None,
        key: None,
        client_cert: None,
        client_key: None,
        ca_certs: None,
        sni_hostname: None,
    }
}

impl Default for TlsConfig {
    fn default() -> (r: Self)
        ensures
            r@ == default_config(),
    {
        TlsConfig {
            cert: None,
            key: None,
            client_cert: None,
            client_key: None,
            ca_certs: None,
            sni_hostname: None,
        }
    }
}

fn copy_optional(v: &Option<Vec<u8>>) -> (r: Option<Vec<u8>>)
    ensures
        bytes_view(r) == bytes_view(*v),
{
    match v {
        Some(v) => Some(copy_bytes(v)),
        None => None,
    }
}

impl Clone for TlsConfig {
    fn clone(&self) -> (r: Self)
        ensures
            r.deep_view() == self.deep_view(),
    {
        TlsConfig {
            cert: copy_optional(&self.cert),
            key: copy_optional(&self.key),
            client_cert: copy_optional(&self.client_cert),
            client_key: copy_optional(&self.client_key),
            ca_certs: copy_optional(&self.ca_certs),
            sni_hostname: self.sni_hostname.clone(),
        }
    }
}

/// The port of SIP over TLS.
pub const TLS_PORT: u16 = 5061;

/// The certificates in a PEM file, or the text of the error: what
/// `rustls::pki_types::CertificateDer::pem_slice_iter` gives, up to the first
/// error.
pub uninterp spec fn certificates_in(pem: Seq<u8>) -> Result<Seq<Seq<u8>>, Seq<char>>;

/// The PKCS#8 keys in a PEM file, or the text of the error: what
/// `rustls::pki_types::PrivatePkcs8KeyDer::pem_slice_iter` gives, up to the first
/// error.
pub uninterp spec fn pkcs8_keys_in(pem: Seq<u8>) -> Result<Seq<Seq<u8>>, Seq<char>>;

/// The PKCS#1 keys in a PEM file, or the text of the error: what
/// `rustls::pki_types::PrivatePkcs1KeyDer::pem_slice_iter` gives, up to the first
/// error.
pub uninterp spec fn pkcs1_keys_in(pem: Seq<u8>) -> Result<Seq<Seq<u8>>, Seq<char>>;

/// What a PEM file holds, or the text of the error.
pub open spec fn sections(r: Result<Vec<Vec<u8>>, String>) -> Result<Seq<Seq<u8>>, Seq<char>> {
    match r {
        Ok(v) => Ok(v.deep_view()),
        Err(e) => Err(e@),
    }
}

/// Reads certificates: `rustls::pki_types::CertificateDer::pem_slice_iter`,
/// collected up to the first error.
///
/// What is believed: the certificates, or the text of the error, depend on the
/// bytes alone.
#[verifier::external_body]
fn read_certificates(pem: &Vec<u8>) -> (r: Result<Vec<Vec<u8>>, String>)
    ensures
        sections(r) == certificates_in(pem@),
{
    let found: Result<Vec<rustls::pki_types::CertificateDer<'static>>, _> =
        rustls::pki_types::pem::PemObject::pem_slice_iter(pem).collect();
    match found {
        Ok(v) => Ok(v.iter().map(|c| c.as_ref().to_vec()).collect()),
        Err(e) => Err(e.to_string()),
    }
}

/// Reads PKCS#8 keys: `rustls::pki_types::PrivatePkcs8KeyDer::pem_slice_iter`,
/// collected up to the first error.
///
/// What is believed: the keys, or the text of the error, depend on the bytes
/// alone.
#[verifier::external_body]
fn read_pkcs8_keys(pem: &Vec<u8>) -> (r: Result<Vec<Vec<u8>>, String>)
    ensures
        sections(r) == pkcs8_keys_in(pem@),
{
    let found: Result<Vec<rustls::pki_types::PrivatePkcs8KeyDer<'static>>, _> =
        rustls::pki_types::pem::PemObject::pem_slice_iter(pem).collect();
    match found {
        Ok(v) => Ok(v.iter().map(|k| k.secret_pkcs8_der().to_vec()).collect()),
        Err(e) => Err(e.to_string()),
    }
}

/// Reads PKCS#1 keys: `rustls::pki_types::PrivatePkcs1KeyDer::pem_slice_iter`,
/// collected up to the first error.
///
/// What is believed: the keys, or the text of the error, depend on the bytes
/// alone.
#[verifier::external_body]
fn read_pkcs1_keys(pem: &Vec<u8>) -> (r: Result<Vec<Vec<u8>>, String>)
    ensures
        sections(r) == pkcs1_keys_in(pem@),
{
    let found: Result<Vec<rustls::pki_types::PrivatePkcs1KeyDer<'static>>, _> =
        rustls::pki_types::pem::PemObject::pem_slice_iter(pem).collect();
    match found {
        Ok(v) => Ok(v.iter().map(|k| k.secret_pkcs1_der().to_vec()).collect()),
        Err(e) => Err(e.to_string()),
    }
}

/// A private key, by the form that it is written in.
pub enum PrivateKey {
    Pkcs8(Vec<u8>),
    Pkcs1(Vec<u8>),
}

#[verifier::ext_equal]
pub enum PrivateKeyView {
    Pkcs8(Seq<u8>),
    Pkcs1(Seq<u8>),
}

impl DeepView for PrivateKey {
    type V = PrivateKeyView;

    open spec fn deep_view(&self) -> PrivateKeyView {
        match self {
            PrivateKey::Pkcs8(k) => PrivateKeyView::Pkcs8(k@),
            PrivateKey::Pkcs1(k) => PrivateKeyView::Pkcs1(k@),
        }
    }
}

/// The key to use: the first PKCS#8 key, or else the first PKCS#1 key.
pub open spec fn chosen_key(
    pkcs8: Result<Seq<Seq<u8>>, Seq<char>>,
    pkcs1: Result<Seq<Seq<u8>>, Seq<char>>,
) -> Result<PrivateKeyView, ErrorView> {
    match (pkcs8, pkcs1) {
        (Err(e), _) => Err(ErrorView::Error("Failed to parse PKCS8 key: "@ + e)),
        (Ok(a), b) => if a.len() > 0 {
            Ok(PrivateKeyView::Pkcs8(a[0]))
        } else {
            match b {
                Err(e) => Err(ErrorView::Error("Failed to parse RSA key: "@ + e)),
                Ok(b) => if b.len() > 0 {
                    Ok(PrivateKeyView::Pkcs1(b[0]))
                } else {
                    Err(ErrorView::Error("No valid private key found"@))
                },
            }
        },
    }
}

/// The key in a PEM file.
pub open spec fn key_in(pem: Seq<u8>) -> Result<PrivateKeyView, ErrorView> {
    chosen_key(pkcs8_keys_in(pem), pkcs1_keys_in(pem))
}

/// The certificates in a PEM file, or the error that starts with `what`.
pub open spec fn certificates_or(
    found: Result<Seq<Seq<u8>>, Seq<char>>,
    what: Seq<char>,
) -> Result<Seq<Seq<u8>>, ErrorView> {
    match found {
        Ok(v) => Ok(v),
        Err(e) => Err(ErrorView::Error(what + e)),
    }
}

/// The certificates and the key of one end.
pub open spec fn identity_of(
    certs: Result<Seq<Seq<u8>>, ErrorView>,
    key: Result<PrivateKeyView, ErrorView>,
) -> Result<(Seq<Seq<u8>>, PrivateKeyView), ErrorView> {
    match (certs, key) {
        (Err(e), _) => Err(e),
        (_, Err(e)) => Err(e),
        (Ok(c), Ok(k)) => Ok((c, k)),
    }
}

fn with_text(what: &str, e: &String) -> (r: Error)
    ensures
        r@ == ErrorView::Error(what@ + e@),
{
    let mut s = what.to_owned();
    s.append(e.as_str());
    Error::Error(s)
}

fn first_section(v: &Vec<Vec<u8>>) -> (r: Option<Vec<u8>>)
    ensures
        match r {
            Some(b) => v.len() > 0 && b@ == v.deep_view()[0],
            None => v.len() == 0,
        },
{
    if v.len() == 0 {
        return None;
    }
    let b = copy_bytes(&v[0]);
    assert(v.deep_view()[0] == v[0].deep_view());
    assert(v[0].deep_view() == v[0]@);
    Some(b)
}

/// Chooses the key among those of a PEM file.
pub fn choose_key(
    pkcs8: Result<Vec<Vec<u8>>, String>,
    pkcs1: Result<Vec<Vec<u8>>, String>,
) -> (r: Result<PrivateKey, Error>)
    ensures
        error::result_view(r) == chosen_key(sections(pkcs8), sections(pkcs1)),
{
    match pkcs8 {
        Err(e) => Err(with_text("Failed to parse PKCS8 key: ", &e)),
        Ok(a) => match first_section(&a) {
            Some(k) => Ok(PrivateKey::Pkcs8(k)),
            None => match pkcs1 {
                Err(e) => Err(with_text("Failed to parse RSA key: ", &e)),
                Ok(b) => match first_section(&b) {
                    Some(k) => Ok(PrivateKey::Pkcs1(k)),
                    None => Err(Error::Error("No valid private key found".to_owned())),
                },
            },
        },
    }
}

/// Reads the key of a PEM file.
pub fn parse_private_key(key_data: &Vec<u8>) -> (r: Result<PrivateKey, Error>)
    ensures
        error::result_view(r) == key_in(key_data@),
{
    choose_key(read_pkcs8_keys(key_data), read_pkcs1_keys(key_data))
}

/// Passes certificates on, or the error that starts with `what`.
pub fn certificates_with(found: Result<Vec<Vec<u8>>, String>, what: &str) -> (r: Result<
    Vec<Vec<u8>>,
    Error,
>)
    ensures
        error::result_view(r) == certificates_or(sections(found), what@),
{
    match found {
        Ok(v) => Ok(v),
        Err(e) => Err(with_text(what, &e)),
    }
}

fn identity(certs: Result<Vec<Vec<u8>>, Error>, key: Result<PrivateKey, Error>) -> (r: Result<
    (Vec<Vec<u8>>, PrivateKey),
    Error,
>)
    ensures
        error::result_view(r) == identity_of(error::result_view(certs), error::result_view(key)),
{
    match (certs, key) {
        (Err(e), _) => Err(e),
        (_, Err(e)) => Err(e),
        (Ok(c), Ok(k)) => Ok((c, k)),
    }
}

/// Reads the certificates and the key that a server shows.
pub fn read_identity(cert_data: &Vec<u8>, key_data: &Vec<u8>) -> (r: Result<
    (Vec<Vec<u8>>, PrivateKey),
    Error,
>)
    ensures
        error::result_view(r) == identity_of(
            certificates_or(certificates_in(cert_data@), "Failed to parse certificate: "@),
            key_in(key_data@),
        ),
{
    identity(
        certificates_with(read_certificates(cert_data), "Failed to parse certificate: "),
        parse_private_key(key_data),
    )
}

/// The certificates and the key of a server, where its settings have both.
pub open spec fn server_identity(config: TlsConfigView) -> Result<
    (Seq<Seq<u8>>, PrivateKeyView),
    ErrorView,
> {
    match (config.cert, config.key) {
        (None, _) => Err(ErrorView::Error("No certificate provided"@)),
        (_, None) => Err(ErrorView::Error("No private key provided"@)),
        (Some(cert), Some(key)) => identity_of(
            certificates_or(certificates_in(cert), "Failed to parse certificate: "@),
            key_in(key),
        ),
    }
}

/// The certificates and the key of a client, where its settings have both.
pub open spec fn client_identity(config: Option<TlsConfigView>) -> Result<
    Option<(Seq<Seq<u8>>, PrivateKeyView)>,
    ErrorView,
> {
    match config {
        Some(TlsConfigView { client_cert: Some(cert), client_key: Some(key), .. }) => {
            match identity_of(
                certificates_or(certificates_in(cert), "Failed to parse client certificate: "@),
                key_in(key),
            ) {
                Ok(i) => Ok(Some(i)),
                Err(e) => Err(e),
            }
        },
        _ => Ok(None),
    }
}

/// The certificates of the authorities that a client trusts.
pub open spec fn trusted_certificates(config: Option<TlsConfigView>) -> Result<
    Seq<Seq<u8>>,
    ErrorView,
> {
    match config {
        Some(TlsConfigView { ca_certs: Some(data), .. }) => certificates_or(
            certificates_in(data),
            "Failed to parse CA certificates: "@,
        ),
        _ => Ok(Seq::empty()),
    }
}

/// The name to ask the server for: the one in the settings, or else the host.
pub open spec fn name_to_ask(
    config: Option<TlsConfigView>,
    host: HostView,
    ip_text: Seq<char>,
) -> Seq<char> {
    match config {
        Some(TlsConfigView { sni_hostname: Some(name), .. }) => name,
        _ => match host {
            HostView::Domain(d) => d,
            HostView::IpAddr(_) => ip_text,
        },
    }
}

impl TlsConfig {
    /// Reads the certificates and the key of a server.
    pub fn server_identity(&self) -> (r: Result<(Vec<Vec<u8>>, PrivateKey), Error>)
        ensures
            error::result_view(r) == server_identity(self@),
    {
        let Some(cert) = &self.cert else {
            return Err(Error::Error("No certificate provided".to_owned()));
        };
        let Some(key) = &self.key else {
            return Err(Error::Error("No private key provided".to_owned()));
        };
        read_identity(cert, key)
    }
}

pub open spec fn config_of(config: Option<&TlsConfig>) -> Option<TlsConfigView> {
    match config {
        Some(c) => Some(c@),
        None => None,
    }
}

/// Reads the certificates and the key of a client.
pub fn read_client_identity(config: Option<&TlsConfig>) -> (r: Result<
    Option<(Vec<Vec<u8>>, PrivateKey)>,
    Error,
>)
    ensures
        error::result_view(r) == client_identity(config_of(config)),
{
    match config {
        Some(TlsConfig { client_cert: Some(cert), client_key: Some(key), .. }) => match identity(
            certificates_with(read_certificates(cert), "Failed to parse client certificate: "),
            parse_private_key(key),
        ) {
            Ok(i) => Ok(Some(i)),
            Err(e) => Err(e),
        },
        _ => Ok(None),
    }
}

/// Reads the certificates of the authorities that a client trusts.
pub fn read_trusted_certificates(config: Option<&TlsConfig>) -> (r: Result<Vec<Vec<u8>>, Error>)
    ensures
        error::result_view(r) == trusted_certificates(config_of(config)),
{
    match config {
        Some(TlsConfig { ca_certs: Some(data), .. }) => certificates_with(
            read_certificates(data),
            "Failed to parse CA certificates: ",
        ),
        _ => {
            let none: Vec<Vec<u8>> = Vec::new();
            assert(none.deep_view() == Seq::<Seq<u8>>::empty());
            Ok(none)
        },
    }
}

/// The name to ask the server for. `ip_text` is the host written out where it is
/// an IP address.
pub fn server_name(config: Option<&TlsConfig>, remote: &SipAddr, ip_text: String) -> (s: String)
    ensures
        s@ == name_to_ask(config_of(config), remote@.addr.host, ip_text@),
{
    if let Some(TlsConfig { sni_hostname: Some(name), .. }) = config {
        return name.clone();
    }
    match &remote.addr.host {
        Host::Domain(d) => d.clone(),
        Host::IpAddr(_) => ip_text,
    }
}

/// The port to connect to.
pub fn connect_port(remote: &SipAddr) -> (port: u16)
    ensures
        port == (match remote@.addr.port {
            Some(p) => p,
            None => TLS_PORT,
        }),
{
    match remote.addr.port {
        Some(p) => p,
        None => TLS_PORT,
    }
}

/// A listener for TLS connections.
pub struct TlsListenerConnection {
    pub local_addr: SipAddr,
    pub external: Option<SipAddr>,
    pub config: TlsConfig,
}

impl TlsListenerConnection {
    pub fn new(local: HostWithPort, external: Option<HostWithPort>, config: TlsConfig) -> (r:
        TlsListenerConnection)
        ensures
            r.local_addr@ == (SipAddrView {
                transport: Some(Transport::Tls),
                addr: local.deep_view(),
            }),
            r.external.deep_view() == (match external {
                Some(e) => Some(
                    SipAddrView { transport: Some(Transport::Tls), addr: e.deep_view() },
                ),
                None => None,
            }),
            r.config@ == config@,
    {
        TlsListenerConnection {
            local_addr: SipAddr { transport: Some(Transport::Tls), addr: local },
            external: match external {
                Some(e) => Some(SipAddr { transport: Some(Transport::Tls), addr: e }),
                None => None,
            },
            config,
        }
    }

    /// The address by which the listener is known: the external one, if there is
    /// one.
    pub fn get_addr(&self) -> (r: &SipAddr)
        ensures
            r@ == (match self.external.deep_view() {
                Some(e) => e,
                None => self.local_addr@,
            }),
    {
        match &self.external {
            Some(e) => e,
            None => &self.local_addr,
        }
    }
}

}
