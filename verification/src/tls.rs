use crate::error::{Error, ErrorView};
use crate::jws::openssl_error;
use crate::watchdog::{expires_in, validity_left};
use openssl::error::ErrorStack;
use openssl::pkey::{PKey, Private};
use openssl::ssl::{SslAcceptor, SslAcceptorBuilder};
use openssl::x509::X509;
use vstd::prelude::*;
use vstd::utf8::encode_utf8;

verus! {

/// The time that a TLS handshake may take, in seconds.
pub const TLS_HANDSHAKE_TIMEOUT_SECS: u64 = 60;

/// The longest input that OpenSSL takes in one piece, in bytes.
pub const MAX_INPUT_LEN: usize = 0x7fff_ffff;

/// A key of OpenSSL.
#[verifier::external_type_specification]
#[verifier::external_body]
#[verifier::reject_recursive_types(T)]
pub struct ExPKey<T>(PKey<T>);

/// A certificate of OpenSSL.
#[verifier::external_type_specification]
#[verifier::external_body]
pub struct ExX509(X509);

/// A TLS acceptor of OpenSSL: the configuration with which handshakes are
/// answered.
#[verifier::external_type_specification]
#[verifier::external_body]
pub struct ExSslAcceptor(SslAcceptor);

/// Reads a private key in PEM format.
///
/// Trusted: calls `openssl::pkey::PKey::private_key_from_pem`. Nothing is
/// promised of the key. An input longer than a C `int` can count is left
/// out, because OpenSSL's memory buffer panics on it.
#[verifier::external_body]
fn private_key_from_pem(pem: &[u8]) -> (key: Result<PKey<Private>, ErrorStack>)
    requires
        pem@.len() <= MAX_INPUT_LEN,
{
    PKey::private_key_from_pem(pem)
}

/// Reads the certificates of a chain in PEM format, in order.
///
/// Trusted: calls `openssl::x509::X509::stack_from_pem`. Nothing is promised
/// of the certificates. An input longer than a C `int` can count is left
/// out, because OpenSSL's memory buffer panics on it.
#[verifier::external_body]
fn certificates_from_pem(pem: &[u8]) -> (certificates: Result<Vec<X509>, ErrorStack>)
    requires
        pem@.len() <= MAX_INPUT_LEN,
{
    X509::stack_from_pem(pem)
}

/// The builder of a TLS acceptor of OpenSSL.
#[verifier::external_type_specification]
#[verifier::external_body]
pub struct ExSslAcceptorBuilder(SslAcceptorBuilder);

/// Begins the acceptor for a key and its certificate.
///
/// Trusted: calls `SslAcceptor::mozilla_intermediate` for `SslMethod::tls`,
/// switches the session cache off, sets TLS 1.2 as the oldest version, then
/// the key and the certificate. Nothing is promised of the builder.
#[verifier::external_body]
fn begin_acceptor(key: &PKey<Private>, cert: &X509) -> (builder: Result<
    SslAcceptorBuilder,
    ErrorStack,
>) {
    let mut builder = SslAcceptor::mozilla_intermediate(openssl::ssl::SslMethod::tls())?;
    builder.set_session_cache_mode(openssl::ssl::SslSessionCacheMode::OFF);
    builder.set_min_proto_version(Some(openssl::ssl::SslVersion::TLS1_2))?;
    builder.set_private_key(key)?;
    builder.set_certificate(cert)?;
    Ok(builder)
}

/// Adds a certificate of the chain to an acceptor that is being built.
///
/// Trusted: calls `SslContextBuilder::add_extra_chain_cert` with a copy of
/// the certificate. Nothing is promised of the builder.
#[verifier::external_body]
fn add_chain_certificate(builder: &mut SslAcceptorBuilder, cert: &X509) -> (added: Result<
    (),
    ErrorStack,
>) {
    builder.add_extra_chain_cert(cert.to_owned())
}

/// Ends the building of an acceptor.
///
/// Trusted: calls `SslAcceptorBuilder::build`. Nothing is promised of the
/// acceptor.
#[verifier::external_body]
fn finish_acceptor(builder: SslAcceptorBuilder) -> (acceptor: SslAcceptor) {
    builder.build()
}

/// Builds the acceptor for an identity: for its key and certificate, with
/// every certificate of the chain added in order. The first step that
/// fails ends the building.
fn build_acceptor(key: &PKey<Private>, cert: &X509, chain: &Vec<X509>) -> (acceptor: Result<
    SslAcceptor,
    ErrorStack,
>) {
    let mut builder = match begin_acceptor(key, cert) {
        Ok(builder) => builder,
        Err(err) => { return Err(err); },
    };
    let mut i: usize = 0;
    while i < chain.len()
        invariant
            i <= chain@.len(),
        decreases chain@.len() - i,
    {
        match add_chain_certificate(&mut builder, &chain[i]) {
            Ok(()) => {},
            Err(err) => { return Err(err); },
        }
        i += 1;
    }
    Ok(finish_acceptor(builder))
}

/// Another handle to the same acceptor.
///
/// Trusted: calls `SslAcceptor::clone`, which shares the configuration.
#[verifier::external_body]
fn share_acceptor(acceptor: &SslAcceptor) -> (shared: SslAcceptor)
    ensures
        shared == *acceptor,
{
    acceptor.clone()
}

/// Makes a new key on the curve P-384.
///
/// Trusted: calls `EcGroup::from_curve_name`, `EcKey::generate` and
/// `PKey::from_ec_key` of the crate `openssl`. The key is random, so nothing
/// is promised of it.
#[verifier::external_body]
fn generate_p384() -> (key: Result<PKey<Private>, ErrorStack>) {
    let group = openssl::ec::EcGroup::from_curve_name(openssl::nid::Nid::SECP384R1)?;
    let key = openssl::ec::EcKey::generate(&group)?;
    PKey::from_ec_key(key)
}

/// Writes a private key in PEM format, as PKCS#8.
///
/// Trusted: calls `PKeyRef::private_key_to_pem_pkcs8`. Nothing is promised
/// of the bytes.
#[verifier::external_body]
fn private_key_to_pem(key: &PKey<Private>) -> (pem: Result<Vec<u8>, ErrorStack>) {
    key.private_key_to_pem_pkcs8()
}

/// Makes a certificate signing request for a host name, in DER format.
///
/// Trusted: builds the subject name with `X509NameBuilder`, the request with
/// `X509ReqBuilder` (version 1, the subject, the public key), signs it with
/// the key and SHA-256, and calls `X509Req::to_der`. The signature depends
/// on a random number, so nothing is promised of the bytes. A host name
/// longer than a C `int` can count is left out, because
/// `append_entry_by_nid` panics on it.
#[verifier::external_body]
fn request_der(key: &PKey<Private>, hostname: &str) -> (der: Result<Vec<u8>, ErrorStack>)
    requires
        encode_utf8(hostname@).len() <= MAX_INPUT_LEN,
{
    let mut name = openssl::x509::X509NameBuilder::new()?;
    name.append_entry_by_nid(openssl::nid::Nid::COMMONNAME, hostname)?;
    let name = name.build();
    let mut request = openssl::x509::X509ReqBuilder::new()?;
    request.set_version(1)?;
    request.set_subject_name(&name)?;
    request.set_pubkey(key)?;
    request.sign(key, openssl::hash::MessageDigest::sha256())?;
    request.build().to_der()
}

/// The days and seconds by which the end of a certificate's validity lies
/// ahead of now.
///
/// Trusted: calls `Asn1Time::days_from_now(0)` and `Asn1TimeRef::diff` with
/// `X509Ref::not_after`. The result depends on the time, so nothing is
/// promised of it.
#[verifier::external_body]
fn time_left(cert: &X509) -> (left: Result<(i32, i32), ErrorStack>) {
    let now = openssl::asn1::Asn1Time::days_from_now(0)?;
    let diff = now.diff(cert.not_after())?;
    Ok((diff.days, diff.secs))
}

/// A new key for TLS.
pub fn generate_tls_key() -> (key: Result<PKey<Private>, Error>)
    ensures
        key matches Err(e) ==> e@.msg == "OpenSSL"@,
{
    match generate_p384() {
        Ok(key) => Ok(key),
        Err(err) => Err(openssl_error(&err)),
    }
}

/// The error of an input that is too long for OpenSSL.
pub open spec fn too_long() -> ErrorView {
    ErrorView { msg: "input too long"@, cause: None }
}

/// The error of a certificate whose validity has ended.
pub open spec fn expired() -> ErrorView {
    ErrorView { msg: "received expired certificate"@, cause: None }
}

/// The messages of the errors of this module differ from each other.
pub proof fn lemma_messages_differ()
    ensures
        "OpenSSL"@ != "input too long"@,
        "OpenSSL"@ != "empty certificate chain"@,
        "OpenSSL"@ != "received expired certificate"@,
        "input too long"@ != "empty certificate chain"@,
        "input too long"@ != "received expired certificate"@,
        "empty certificate chain"@ != "received expired certificate"@,
{
    reveal_strlit("OpenSSL");
    reveal_strlit("input too long");
    reveal_strlit("empty certificate chain");
    reveal_strlit("received expired certificate");
    assert("OpenSSL"@.len() == 7);
    assert("input too long"@.len() == 14);
    assert("empty certificate chain"@.len() == 23);
    assert("received expired certificate"@.len() == 28);
}

/// A certificate signing request of `key` for `hostname`, in DER format.
///
/// A host name that is too long for OpenSSL gives no request, and only such
/// a host name fails in this way; any other failure is an error of OpenSSL.
pub fn create_csr(key: &PKey<Private>, hostname: &str) -> (csr: Result<Vec<u8>, Error>)
    ensures
        (csr matches Err(e) && e@ == too_long()) <==> encode_utf8(hostname@).len() > MAX_INPUT_LEN,
        csr matches Err(e) ==> e@ == too_long() || e@.msg == "OpenSSL"@,
{
    proof {
        lemma_messages_differ();
    }
    if hostname.as_bytes().len() > MAX_INPUT_LEN {
        return Err(Error::from_static_msg("input too long"));
    }
    match request_der(key, hostname) {
        Ok(der) => Ok(der),
        Err(err) => Err(openssl_error(&err)),
    }
}

/// A TLS identity: a private key, its certificate, and the rest of the
/// certificate chain.
pub struct Identity {
    key: PKey<Private>,
    cert: X509,
    chain: Vec<X509>,
}

impl Identity {
    /// The private key.
    pub closed spec fn key(&self) -> PKey<Private> {
        self.key
    }

    /// The certificate of the key.
    pub closed spec fn cert(&self) -> X509 {
        self.cert
    }

    /// The certificates that follow the first in the chain.
    pub closed spec fn chain(&self) -> Seq<X509> {
        self.chain@
    }

    /// The identity made of a key and what reading the chain gave: the
    /// first certificate of the chain is that of the key. A chain that
    /// could not be read, or that is empty, gives no identity.
    pub fn assemble(key: PKey<Private>, certificates: Result<Vec<X509>, ErrorStack>) -> (identity:
        Result<Self, Error>)
        ensures
            match certificates {
                Ok(certs) => if certs@.len() > 0 {
                    identity matches Ok(i) && i.key() == key && i.cert() == certs@[0] && i.chain()
                        == certs@.subrange(1, certs@.len() as int)
                } else {
                    identity matches Err(e) && e@ == (ErrorView {
                        msg: "empty certificate chain"@,
                        cause: None,
                    })
                },
                Err(_) => identity matches Err(e) && e@.msg == "OpenSSL"@,
            },
    {
        let mut chain = match certificates {
            Ok(certs) => certs,
            Err(err) => { return Err(openssl_error(&err)); },
        };
        if chain.len() == 0 {
            return Err(Error::from_static_msg("empty certificate chain"));
        }
        let ghost all = chain@;
        let cert = chain.remove(0);
        assert(chain@ =~= all.subrange(1, all.len() as int));
        Ok(Identity { key, cert, chain })
    }

    /// The identity of a certificate chain and a private key, both in PEM
    /// format.
    ///
    /// The key is read first. An input that is too long for OpenSSL gives no
    /// identity, and only such an input fails in this way; an input that
    /// OpenSSL cannot read gives none either, and neither does an empty
    /// chain.
    pub fn from_pkcs8(chain: &[u8], key: &[u8]) -> (identity: Result<Self, Error>)
        ensures
            (identity matches Err(e) && e@ == too_long()) <==> (key@.len() > MAX_INPUT_LEN
                || chain@.len() > MAX_INPUT_LEN),
            identity matches Err(e) ==> e@ == too_long() || e@.msg == "OpenSSL"@ || e@.msg
                == "empty certificate chain"@,
    {
        proof {
            lemma_messages_differ();
        }
        if key.len() > MAX_INPUT_LEN || chain.len() > MAX_INPUT_LEN {
            return Err(Error::from_static_msg("input too long"));
        }
        let key = match private_key_from_pem(key) {
            Ok(key) => key,
            Err(err) => { return Err(openssl_error(&err)); },
        };
        Self::assemble(key, certificates_from_pem(chain))
    }

    /// The seconds of validity that the certificate has left, from the days
    /// and seconds by which its end lies ahead, or the error of asking for
    /// them.
    pub fn validity(left: Result<(i32, i32), ErrorStack>) -> (secs: Result<u64, Error>)
        ensures
            match left {
                Ok((days, seconds)) => match secs {
                    Ok(s) => validity_left(days, seconds) > 0 && s == validity_left(days, seconds),
                    Err(e) => validity_left(days, seconds) <= 0 && e@ == (ErrorView {
                        msg: "received expired certificate"@,
                        cause: None,
                    }),
                },
                Err(_) => secs matches Err(e) && e@.msg == "OpenSSL"@,
            },
    {
        match left {
            Ok((days, seconds)) => expires_in(days, seconds),
            Err(err) => Err(openssl_error(&err)),
        }
    }

    /// The seconds of validity that the certificate has left.
    ///
    /// The time is asked of OpenSSL, which may fail; a certificate whose
    /// validity has ended is refused.
    pub fn expires_in(&self) -> (secs: Result<u64, Error>)
        ensures
            secs matches Ok(s) ==> s > 0,
            secs matches Err(e) ==> e@.msg == "OpenSSL"@ || e@ == expired(),
    {
        Self::validity(time_left(&self.cert))
    }
}

/// How the proxy comes by its TLS identity.
pub enum TlsMode {
    /// It serves no TLS.
    Disabled,
    /// It has been given an identity.
    Simple(Identity),
    /// It has certificates issued by Let's Encrypt.
    LetsEncrypt,
}

/// Why a TLS connection is not accepted.
#[derive(Clone, Copy, PartialEq, Eq, Structural, Debug)]
pub enum AcceptError {
    /// No identity is installed yet.
    ConnectionRefused,
}

/// The acceptor of TLS connections, whose identity can be replaced while it
/// is in use.
pub struct TlsAcceptor {
    inner: Option<SslAcceptor>,
}

impl TlsAcceptor {
    /// The acceptor that answers handshakes at the moment, if an identity
    /// is installed.
    pub closed spec fn installed(&self) -> Option<SslAcceptor> {
        self.inner
    }

    /// An acceptor without identity, which refuses every connection.
    pub fn dummy() -> (acceptor: Self)
        ensures
            acceptor.installed() is None,
    {
        TlsAcceptor { inner: None }
    }

    /// An acceptor with the given identity.
    pub fn new(identity: &Identity) -> (acceptor: Result<Self, Error>)
        ensures
            acceptor matches Ok(a) ==> a.installed() is Some,
            acceptor matches Err(e) ==> e@.msg == "OpenSSL"@,
    {
        let mut acceptor = Self::dummy();
        match acceptor.set_identity(identity) {
            Ok(()) => Ok(acceptor),
            Err(e) => Err(e),
        }
    }

    /// Puts `built` in the place of the installed acceptor, where building
    /// it has succeeded; otherwise the installed one stays.
    pub fn install(&mut self, built: Result<SslAcceptor, ErrorStack>) -> (done: Result<(), Error>)
        ensures
            match built {
                Ok(acceptor) => done is Ok && final(self).installed() == Some(acceptor),
                Err(_) => final(self).installed() == old(self).installed() && (done matches Err(
                    e,
                ) && e@.msg == "OpenSSL"@),
            },
    {
        match built {
            Ok(acceptor) => {
                self.inner = Some(acceptor);
                Ok(())
            },
            Err(err) => Err(openssl_error(&err)),
        }
    }

    /// Replaces the identity of the acceptor.
    ///
    /// Where the acceptor for the new identity cannot be built, the old one
    /// stays in place.
    pub fn set_identity(&mut self, identity: &Identity) -> (done: Result<(), Error>)
        ensures
            done is Ok ==> final(self).installed() is Some,
            done matches Err(e) ==> final(self).installed() == old(self).installed() && e@.msg
                == "OpenSSL"@,
    {
        self.install(build_acceptor(&identity.key, &identity.cert, &identity.chain))
    }

    /// The acceptor for one handshake: the one that is installed at this
    /// moment. A later change of identity does not touch it. Without an
    /// identity the connection is refused.
    pub fn accept(&self) -> (acceptor: Result<SslAcceptor, AcceptError>)
        ensures
            match acceptor {
                Ok(a) => self.installed() == Some(a),
                Err(e) => self.installed() is None && e == AcceptError::ConnectionRefused,
            },
    {
        match &self.inner {
            Some(acceptor) => Ok(share_acceptor(acceptor)),
            None => Err(AcceptError::ConnectionRefused),
        }
    }
}

impl TlsMode {
    /// Whether certificates are issued by a certificate authority, so that
    /// an account with it is needed.
    pub fn needs_acme_account(&self) -> (needed: bool)
        ensures
            needed == (*self is LetsEncrypt),
    {
        match self {
            TlsMode::LetsEncrypt => true,
            _ => false,
        }
    }

    /// The TLS acceptor of the proxy: none without TLS, one with the given
    /// identity, or one without identity that refuses connections until the
    /// first certificate has been issued.
    pub fn create_tls_acceptor(&self) -> (acceptor: Result<Option<TlsAcceptor>, Error>)
        ensures
            match self {
                TlsMode::Disabled => acceptor matches Ok(None),
                TlsMode::Simple(_) => match acceptor {
                    Ok(Some(a)) => a.installed() is Some,
                    Ok(None) => false,
                    Err(e) => e@.msg == "OpenSSL"@,
                },
                TlsMode::LetsEncrypt => acceptor matches Ok(Some(a)) && a.installed() is None,
            },
    {
        match self {
            TlsMode::Disabled => Ok(None),
            TlsMode::Simple(identity) => match TlsAcceptor::new(identity) {
                Ok(acceptor) => Ok(Some(acceptor)),
                Err(e) => Err(e),
            },
            TlsMode::LetsEncrypt => Ok(Some(TlsAcceptor::dummy())),
        }
    }
}

/// What the watchdog keeps between renewals: the key of the certificates,
/// the same key in PEM format, and the host name.
pub struct Watchdog {
    key: PKey<Private>,
    key_pem: Vec<u8>,
    hostname: String,
}

impl Watchdog {
    #[verifier::type_invariant]
    spec fn inv(self) -> bool {
        self.key_pem@.len() <= MAX_INPUT_LEN
    }

    /// The host name that certificates are issued for.
    pub closed spec fn host(&self) -> Seq<char> {
        self.hostname@
    }

    /// The key of the certificates.
    pub closed spec fn key(&self) -> PKey<Private> {
        self.key
    }

    /// The key of the certificates in PEM format.
    pub closed spec fn pem(&self) -> Seq<u8> {
        self.key_pem@
    }

    /// The watchdog made of a key and what writing it in PEM format gave.
    ///
    /// A key that could not be written gives no watchdog, and neither does
    /// one whose PEM is too long for OpenSSL to read back.
    pub fn with_key(key: PKey<Private>, pem: Result<Vec<u8>, ErrorStack>, hostname: &str) -> (watchdog:
        Result<Self, Error>)
        ensures
            match pem {
                Ok(p) => if p@.len() > MAX_INPUT_LEN {
                    watchdog matches Err(e) && e@ == too_long()
                } else {
                    watchdog matches Ok(w) && w.host() == hostname@ && w.key() == key && w.pem()
                        == p@
                },
                Err(_) => watchdog matches Err(e) && e@.msg == "OpenSSL"@,
            },
    {
        match pem {
            Ok(key_pem) => {
                if key_pem.len() > MAX_INPUT_LEN {
                    Err(Error::from_static_msg("input too long"))
                } else {
                    Ok(Watchdog { key, key_pem, hostname: hostname.to_owned() })
                }
            },
            Err(err) => Err(openssl_error(&err)),
        }
    }

    /// A watchdog for `hostname`, with a new key.
    pub fn new(hostname: &str) -> (watchdog: Result<Self, Error>)
        ensures
            watchdog matches Ok(w) ==> w.host() == hostname@ && w.pem().len() <= MAX_INPUT_LEN,
            watchdog matches Err(e) ==> e@.msg == "OpenSSL"@ || e@ == too_long(),
    {
        let key = match generate_tls_key() {
            Ok(key) => key,
            Err(e) => { return Err(e); },
        };
        let pem = private_key_to_pem(&key);
        Self::with_key(key, pem, hostname)
    }

    /// The host name that certificates are issued for.
    pub fn hostname(&self) -> (hostname: &str)
        ensures
            hostname@ == self.host(),
    {
        self.hostname.as_str()
    }

    /// The certificate signing request for the next certificate: a request
    /// of the watchdog's key for its host name.
    ///
    /// A host name that is too long for OpenSSL gives no request, and only
    /// such a host name fails in this way; any other failure is an error of
    /// OpenSSL.
    pub fn create_csr(&self) -> (csr: Result<Vec<u8>, Error>)
        ensures
            (csr matches Err(e) && e@ == too_long()) <==> encode_utf8(self.host()).len()
                > MAX_INPUT_LEN,
            csr matches Err(e) ==> e@ == too_long() || e@.msg == "OpenSSL"@,
    {
        create_csr(&self.key, self.hostname.as_str())
    }

    /// Installs a certificate chain that has been issued and tells how many
    /// seconds of validity it has left.
    ///
    /// The chain and the watchdog's key are made an identity, the validity
    /// of its certificate is asked for, and only then the identity is
    /// installed. Whatever fails, the acceptor stays as it is: a chain that
    /// is too long for OpenSSL (and only such a chain fails in this way),
    /// that OpenSSL cannot read or that holds no certificate, a certificate
    /// whose validity has ended, and an acceptor that cannot be built.
    pub fn install(&self, acceptor: &mut TlsAcceptor, chain: &[u8]) -> (expires: Result<u64, Error>)
        ensures
            (expires matches Err(e) && e@ == too_long()) <==> chain@.len() > MAX_INPUT_LEN,
            expires matches Ok(secs) ==> secs > 0 && final(acceptor).installed() is Some,
            expires is Err ==> final(acceptor).installed() == old(acceptor).installed(),
            expires matches Err(e) ==> e@ == too_long() || e@.msg == "OpenSSL"@ || e@.msg
                == "empty certificate chain"@ || e@ == expired(),
    {
        proof {
            use_type_invariant(self);
            lemma_messages_differ();
        }
        let identity = match Identity::from_pkcs8(chain, self.key_pem.as_slice()) {
            Ok(identity) => identity,
            Err(e) => { return Err(e); },
        };
        let secs = match identity.expires_in() {
            Ok(secs) => secs,
            Err(e) => { return Err(e); },
        };
        match acceptor.set_identity(&identity) {
            Ok(()) => Ok(secs),
            Err(e) => Err(e),
        }
    }
}

} // verus!
