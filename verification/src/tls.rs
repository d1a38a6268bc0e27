use std::sync::Arc;
use tokio_rustls::rustls::pki_types::{CertificateDer, InvalidDnsNameError, ServerName};
use tokio_rustls::rustls::{ClientConfig, Error as RustlsError, RootCertStore};
use vstd::prelude::*;

use crate::cipher::{build_provider, codes_named, is_suite_name, refused_at, ring_suite_codes, RingProvider};
use crate::error::{Error, ErrorKind};
use crate::pem::{load_cert, pem_certs};

verus! {

/// rustls's client-side TLS configuration.
#[verifier::external_type_specification]
#[verifier::external_body]
pub struct ExClientConfig(ClientConfig);

/// rustls's set of trust anchors that server certificates are verified against.
#[verifier::external_type_specification]
#[verifier::external_body]
pub struct ExRootCertStore(RootCertStore);

/// rustls's error type.
#[verifier::external_type_specification]
#[verifier::external_body]
pub struct ExRustlsError(RustlsError);

/// The name a TLS client sends and verifies the server's certificate against.
#[verifier::external_type_specification]
#[verifier::external_body]
pub struct ExServerName<'a>(ServerName<'a>);

/// The error rustls-pki-types reports for a string that is neither a DNS name nor an IP address.
#[verifier::external_type_specification]
#[verifier::external_body]
pub struct ExInvalidDnsNameError(InvalidDnsNameError);

/// The subjects of the trust anchors `store` holds, in order.
pub uninterp spec fn root_store_subjects(store: RootCertStore) -> Seq<Seq<u8>>;

/// The subject of the trust anchor that webpki derives from the DER
/// certificate `der` (`anchor_from_trusted_cert`); where it refuses `der`, the
/// text of the error `RootCertStore::add` reports.
pub uninterp spec fn trusted_cert_subject(der: Seq<u8>) -> Result<Seq<u8>, Seq<char>>;

/// The text rustls's error `e` displays.
pub uninterp spec fn rustls_error_text(e: RustlsError) -> Seq<char>;

/// The text of the error rustls's configuration builder reports for a
/// provider that offers no cipher suite.
pub open spec fn no_suites_message() -> Seq<char> {
    "unexpected error: no usable cipher suites configured"@
}

/// The text of the error rustls-pki-types reports for an invalid server name.
pub open spec fn invalid_name_message() -> Seq<char> {
    "invalid dns name"@
}

/// The cipher suites a client configuration offers, by IANA code, in order.
pub uninterp spec fn client_config_suites(config: ClientConfig) -> Seq<u16>;

/// The subjects of the trust anchors a client configuration verifies server
/// certificates against, in order.
pub uninterp spec fn client_config_anchors(config: ClientConfig) -> Seq<Seq<u8>>;

/// The protocol versions a client configuration enables, by wire code.
pub uninterp spec fn client_config_versions(config: ClientConfig) -> Set<u16>;

/// A client configuration has a certificate to present when a server asks for one.
pub uninterp spec fn client_config_sends_client_cert(config: ClientConfig) -> bool;

/// A client configuration verifies the server's certificate chain and name
/// with rustls's webpki verifier over the anchors of `client_config_anchors`.
pub uninterp spec fn client_config_webpki_verified(config: ClientConfig) -> bool;

/// The server name `ServerName::try_from` makes of `name`: a DNS name or an IP
/// address; `None` where `name` is neither.
pub uninterp spec fn server_name_of(name: Seq<char>) -> Option<ServerName<'static>>;

/// The subject of entry `i` of webpki-roots' `TLS_SERVER_ROOTS`.
pub uninterp spec fn webpki_root_subject(i: int) -> Seq<u8>;

/// The subjects of webpki-roots' `TLS_SERVER_ROOTS`, in order.
pub open spec fn webpki_root_subjects() -> Seq<Seq<u8>> {
    Seq::new(webpki_root_count(), |i: int| webpki_root_subject(i))
}

/// The number of trust anchors in webpki-roots' `TLS_SERVER_ROOTS`.
pub open spec fn webpki_root_count() -> nat {
    120
}

/// rustls's `Display` of its error type, through `ToString::to_string`: the
/// contract claims the text is `rustls_error_text(e)`.
#[verifier::external_body]
fn rustls_error_message(e: &RustlsError) -> (text: String)
    ensures
        text@ == rustls_error_text(*e),
{
    e.to_string()
}

/// rustls-pki-types' `Display` of `InvalidDnsNameError`, through
/// `ToString::to_string`: the contract claims the text is `"invalid dns name"`.
#[verifier::external_body]
fn dns_error_message(e: &InvalidDnsNameError) -> (text: String)
    ensures
        text@ == invalid_name_message(),
{
    e.to_string()
}

/// rustls's `RootCertStore::empty`: the contract claims it holds no anchor.
#[verifier::external_body]
fn root_store_empty() -> (store: RootCertStore)
    ensures
        root_store_subjects(store) == Seq::<Seq<u8>>::empty(),
{
    RootCertStore::empty()
}

/// rustls's `RootCertStore::add` of the DER certificate `der`: the contract
/// claims it appends the anchor derived from `der` where webpki derives one,
/// and otherwise fails with the error `trusted_cert_subject` gives the text
/// of, and leaves the store as it was.
#[verifier::external_body]
fn root_store_add(store: &mut RootCertStore, der: &Vec<u8>) -> (res: Result<(), RustlsError>)
    ensures
        match res {
            Ok(_) => trusted_cert_subject(der@) matches Ok(subject)
                && root_store_subjects(*final(store)) == root_store_subjects(*old(store)).push(subject),
            Err(e) => trusted_cert_subject(der@) == Err::<Seq<u8>, Seq<char>>(rustls_error_text(e))
                && root_store_subjects(*final(store)) == root_store_subjects(*old(store)),
        },
{
    store.add(CertificateDer::from(der.clone()))
}

/// rustls's `RootCertStore::extend` with webpki-roots' `TLS_SERVER_ROOTS`:
/// the contract claims it appends those anchors, in order, after the ones before.
#[verifier::external_body]
fn root_store_add_webpki(store: &mut RootCertStore)
    ensures
        root_store_subjects(*final(store)) == root_store_subjects(*old(store))
            + Seq::new(webpki_root_count(), |i: int| webpki_root_subject(i)),
{
    store.extend(webpki_roots::TLS_SERVER_ROOTS.iter().cloned())
}

/// rustls's `ClientConfig::builder_with_provider(..)
/// .with_safe_default_protocol_versions()`, then `.with_root_certificates(roots)
/// .with_no_client_auth()`: the contract claims it fails exactly when the
/// provider offers no cipher suite, with the general error
/// `no usable cipher suites configured`. (The ring provider's key exchange groups
/// cover every ring suite, and both TLS 1.2 and 1.3 are enabled.) The
/// configuration keeps the provider's suites, enables TLS 1.2 and 1.3 (wire
/// codes 0x0303 and 0x0304) only, verifies servers with the webpki verifier
/// over `roots`, and presents no client certificate.
#[verifier::external_body]
fn ring_client_config(provider: &RingProvider, roots: RootCertStore) -> (res: Result<ClientConfig, RustlsError>)
    requires
        provider.well_formed(),
    ensures
        res is Ok <==> provider.suite_codes().len() > 0,
        res matches Err(e) ==> rustls_error_text(e) == no_suites_message(),
        res matches Ok(config) ==> {
            &&& client_config_suites(config) == provider.suite_codes()
            &&& client_config_anchors(config) == root_store_subjects(roots)
            &&& client_config_versions(config) == set![0x0303u16, 0x0304u16]
            &&& client_config_webpki_verified(config)
            &&& !client_config_sends_client_cert(config)
        },
{
    Ok(ClientConfig::builder_with_provider(provider.provider.clone())
        .with_safe_default_protocol_versions()?
        .with_root_certificates(roots)
        .with_no_client_auth())
}

/// rustls-pki-types' `ServerName::try_from(String)`: the contract claims it
/// returns `server_name_of(name)`, and fails where that is `None`.
#[verifier::external_body]
fn parse_server_name(name: String) -> (res: Result<ServerName<'static>, InvalidDnsNameError>)
    ensures
        match res {
            Ok(parsed) => server_name_of(name@) == Some(parsed),
            Err(_) => server_name_of(name@) is None,
        },
{
    ServerName::try_from(name)
}

/// The error that reports a value rustls refused.
fn invalid_input(message: String) -> (e: Error)
    ensures
        e.kind == ErrorKind::InvalidInput,
        e.message == message,
{
    Error { kind: ErrorKind::InvalidInput, message }
}

/// Settings of the TLS connection to the proxy server.
pub struct TrojanTlsConnectorConfig {
    /// Address of the server, `host:port`.
    pub addr: String,
    /// The server name sent in the handshake and checked against the certificate.
    pub sni: String,
    /// Names of the cipher suites to offer; all of the ring provider's when absent.
    pub cipher: Option<Vec<String>>,
    /// Path of a PEM file whose certificates are the only ones trusted;
    /// webpki-roots' set is trusted when absent.
    pub cert: Option<String>,
}

/// The names of `cipher` as character sequences.
pub open spec fn cipher_names(cipher: Option<Vec<String>>) -> Option<Seq<Seq<char>>> {
    match cipher {
        Some(names) => Some(names.deep_view()),
        None => None,
    }
}

/// The certificate stage accepts the trusted-certificate PEM `pem`: there is
/// none, or it parses and each of its certificates yields a trust anchor.
pub open spec fn certs_accepted(pem: Option<Seq<u8>>) -> bool {
    match pem {
        None => true,
        Some(text) => pem_certs(text) matches Ok(ders)
            && forall|i: int| 0 <= i < ders.len() ==> (#[trigger] trusted_cert_subject(ders[i])) is Ok,
    }
}

/// `ders[i]` is the first of `ders` that yields no trust anchor, refused with
/// the error text `text`.
pub open spec fn first_refused_cert(ders: Seq<Seq<u8>>, i: int, text: Seq<char>) -> bool {
    &&& 0 <= i < ders.len()
    &&& forall|j: int| 0 <= j < i ==> (#[trigger] trusted_cert_subject(ders[j])) is Ok
    &&& trusted_cert_subject(ders[i]) == Err::<Seq<u8>, Seq<char>>(text)
}

/// The PEM text `pem` parses, and one of its certificates yields no trust
/// anchor: the first such is refused with the error text `text`.
pub open spec fn cert_refused(pem: Seq<u8>, text: Seq<char>) -> bool {
    pem_certs(pem) matches Ok(ders) && exists|i: int| #[trigger] first_refused_cert(ders, i, text)
}

/// The cipher stage accepts `names`: each one is the name of a ring suite.
pub open spec fn ciphers_accepted(names: Option<Seq<Seq<char>>>) -> bool {
    match names {
        None => true,
        Some(list) => forall|k: int| 0 <= k < list.len() ==> is_suite_name(#[trigger] list[k]),
    }
}

/// How many suites `names` select.
pub open spec fn ciphers_selected(names: Option<Seq<Seq<char>>>) -> nat {
    match names {
        None => ring_suite_codes().len(),
        Some(list) => list.len(),
    }
}

/// The subjects of the anchors derived from `ders`, where each yields one.
pub open spec fn anchor_subjects(ders: Seq<Seq<u8>>) -> Seq<Seq<u8>> {
    ders.map_values(|der: Seq<u8>| trusted_cert_subject(der)->Ok_0)
}

/// A trust store holding the anchors derived from `ders`, in order; the first
/// certificate that yields none is refused.
fn trust_store_from(ders: &Vec<Vec<u8>>) -> (res: Result<RootCertStore, Error>)
    ensures
        match res {
            Ok(store) => (forall|i: int| 0 <= i < ders.len()
                    ==> (#[trigger] trusted_cert_subject(ders.deep_view()[i])) is Ok)
                && root_store_subjects(store) == anchor_subjects(ders.deep_view()),
            Err(e) => e.kind == ErrorKind::InvalidInput
                && exists|i: int| #[trigger] first_refused_cert(ders.deep_view(), i, e.message@),
        },
{
    let ghost all = ders.deep_view();
    let mut store = root_store_empty();
    let mut i: usize = 0;
    while i < ders.len()
        invariant
            all == ders.deep_view(),
            all.len() == ders.len(),
            i <= ders.len(),
            forall|j: int| 0 <= j < i ==> (#[trigger] trusted_cert_subject(all[j])) is Ok,
            root_store_subjects(store) == anchor_subjects(all.take(i as int)),
        decreases ders.len() - i,
    {
        assert(all[i as int] == ders[i as int]@);
        match root_store_add(&mut store, &ders[i]) {
            Ok(_) => {},
            Err(e) => {
                let refused = invalid_input(rustls_error_message(&e));
                assert(first_refused_cert(all, i as int, refused.message@));
                return Err(refused);
            },
        }
        assert(all.take(i + 1) == all.take(i as int).push(all[i as int]));
        assert(anchor_subjects(all.take(i + 1)) =~= anchor_subjects(all.take(i as int)).push(
            trusted_cert_subject(all[i as int])->Ok_0));
        i = i + 1;
    }
    assert(all.take(ders.len() as int) == all);
    Ok(store)
}

/// A copy of the configured cipher names.
fn copy_cipher_names(cipher: &Option<Vec<String>>) -> (copy: Option<Vec<String>>)
    ensures
        cipher_names(copy) == cipher_names(*cipher),
{
    match cipher {
        None => None,
        Some(names) => {
            let mut out: Vec<String> = Vec::new();
            let mut i: usize = 0;
            while i < names.len()
                invariant
                    i <= names.len(),
                    out.len() == i,
                    forall|j: int| 0 <= j < i ==> #[trigger] out[j]@ == names[j]@,
                decreases names.len() - i,
            {
                out.push(names[i].clone());
                i = i + 1;
            }
            assert(out.deep_view() =~= names.deep_view());
            Some(out)
        },
    }
}

/// The client side of the TLS tunnel to the proxy server.
pub struct TrojanTlsConnector {
    sni: String,
    server_addr: String,
    tls_config: Arc<ClientConfig>,
}

impl TrojanTlsConnector {
    /// The server name the connector sends.
    pub closed spec fn sni_spec(&self) -> Seq<char> {
        self.sni@
    }

    /// The server address the connector dials.
    pub closed spec fn server_addr_spec(&self) -> Seq<char> {
        self.server_addr@
    }

    /// The cipher suites the connector offers, by IANA code, in order.
    pub closed spec fn offered_suites(&self) -> Seq<u16> {
        client_config_suites(*self.tls_config)
    }

    /// The subjects of the trust anchors the connector verifies the server against.
    pub closed spec fn trusted_subjects(&self) -> Seq<Seq<u8>> {
        client_config_anchors(*self.tls_config)
    }

    /// The protocol versions the connector enables, by wire code.
    pub closed spec fn versions(&self) -> Set<u16> {
        client_config_versions(*self.tls_config)
    }

    /// The connector verifies the server with the webpki verifier over its
    /// trust anchors, and presents no client certificate.
    pub closed spec fn verifies_server_only(&self) -> bool {
        client_config_webpki_verified(*self.tls_config) && !client_config_sends_client_cert(*self.tls_config)
    }

    /// Builds the connector from its settings. `cert_pem` is the content of
    /// the file that `config.cert` names, when it names one. The trust store
    /// holds the anchors of that file's certificates, or webpki-roots' set;
    /// the provider offers the suites that `config.cipher` selects.
    /// Refused, in this order: PEM that does not parse (with the PEM
    /// reader's message), a certificate that yields no trust anchor (with
    /// rustls's message for the first such one), an unknown cipher name, and a
    /// selection of no suite at all (with rustls's message for it).
    pub fn new(config: &TrojanTlsConnectorConfig, cert_pem: Option<&[u8]>) -> (res: Result<Self, Error>)
        requires
            cert_pem is Some <==> config.cert is Some,
        ensures
            ({
                let pem = match cert_pem {
                    Some(text) => Some(text@),
                    None => None,
                };
                let names = cipher_names(config.cipher);
                match res {
                    Ok(connector) => {
                        &&& certs_accepted(pem)
                        &&& ciphers_accepted(names)
                        &&& ciphers_selected(names) > 0
                        &&& connector.sni_spec() == config.sni@
                        &&& connector.server_addr_spec() == config.addr@
                        &&& match names {
                            None => connector.offered_suites() == ring_suite_codes(),
                            Some(list) => codes_named(list, connector.offered_suites()),
                        }
                        &&& match pem {
                            Some(text) => pem_certs(text) matches Ok(ders)
                                && connector.trusted_subjects() == anchor_subjects(ders),
                            None => connector.trusted_subjects() == webpki_root_subjects(),
                        }
                        &&& connector.versions() == set![0x0303u16, 0x0304u16]
                        &&& connector.verifies_server_only()
                    },
                    Err(e) => {
                        ||| (pem matches Some(text)
                            && pem_certs(text) == Err::<Seq<Seq<u8>>, Seq<char>>(e.message@))
                            && e.kind == ErrorKind::Io
                        ||| (pem matches Some(text) && cert_refused(text, e.message@))
                            && e.kind == ErrorKind::InvalidInput
                        ||| certs_accepted(pem) && (names matches Some(list)
                            && exists|k: int| #[trigger] refused_at(list, k, e))
                        ||| certs_accepted(pem) && ciphers_accepted(names) && ciphers_selected(names) == 0
                            && e.kind == ErrorKind::InvalidInput && e.message@ == no_suites_message()
                    },
                }
            }),
    {
        let root_store = match cert_pem {
            Some(text) => {
                let ders = load_cert(text)?;
                match trust_store_from(&ders) {
                    Ok(store) => store,
                    Err(e) => {
                        assert(cert_refused(text@, e.message@));
                        return Err(e);
                    },
                }
            },
            None => {
                let mut store = root_store_empty();
                root_store_add_webpki(&mut store);
                store
            },
        };
        let provider = build_provider(copy_cipher_names(&config.cipher))?;
        let tls_config = match ring_client_config(&provider, root_store) {
            Ok(c) => c,
            Err(e) => {
                return Err(invalid_input(rustls_error_message(&e)));
            },
        };
        Ok(TrojanTlsConnector {
            sni: config.sni.clone(),
            server_addr: config.addr.clone(),
            tls_config: Arc::new(tls_config),
        })
    }

    /// The name to send in the handshake; refused where it is neither a DNS
    /// name nor an IP address.
    pub fn server_name(&self) -> (res: Result<ServerName<'static>, Error>)
        ensures
            match res {
                Ok(name) => server_name_of(self.sni_spec()) == Some(name),
                Err(e) => server_name_of(self.sni_spec()) is None && e.kind == ErrorKind::InvalidInput
                    && e.message@ == invalid_name_message(),
            },
    {
        match parse_server_name(self.sni.clone()) {
            Ok(name) => Ok(name),
            Err(e) => Err(invalid_input(dns_error_message(&e))),
        }
    }

    /// The address of the proxy server.
    pub fn server_addr(&self) -> (addr: &str)
        ensures
            addr@ == self.server_addr_spec(),
    {
        self.server_addr.as_str()
    }

    /// The TLS configuration connections are made with.
    pub fn tls_config(&self) -> (config: &Arc<ClientConfig>)
        ensures
            client_config_suites(**config) == self.offered_suites(),
            client_config_anchors(**config) == self.trusted_subjects(),
            client_config_versions(**config) == self.versions(),
            client_config_webpki_verified(**config) && !client_config_sends_client_cert(**config)
                <==> self.verifies_server_only(),
    {
        &self.tls_config
    }
}

} // verus!
