use crate::common::error::Error;
use crate::common::socket::ConnectionRole;
use openssl::asn1::Asn1Time;
use openssl::error::ErrorStack;
use openssl::hash::MessageDigest;
use openssl::pkey::{PKey, Private};
use openssl::ssl::Error as SslError;
use openssl::ssl::{Ssl, SslContext, SslContextBuilder, SslMethod, SslStream, SslVerifyMode};
use openssl::x509::{X509Builder, X509};
use std::io::{Read, Write};
use vstd::prelude::*;

verus! {

// The openssl types that the TLS setup passes from call to call. Each is
// carried through unopened; the structs below hold them together with what
// the library asked of them.
#[verifier::external_type_specification]
#[verifier::external_body]
#[verifier::reject_recursive_types(S)]
pub struct ExSslStream<S>(SslStream<S>);

#[verifier::external_type_specification]
#[verifier::external_body]
pub struct ExSslContextBuilder(SslContextBuilder);

#[verifier::external_type_specification]
#[verifier::external_body]
pub struct ExSslContext(SslContext);

#[verifier::external_type_specification]
#[verifier::external_body]
pub struct ExSsl(Ssl);

#[verifier::external_type_specification]
#[verifier::external_body]
pub struct ExSslMethod(SslMethod);

#[verifier::external_type_specification]
#[verifier::external_body]
pub struct ExSslVerifyMode(SslVerifyMode);

#[verifier::external_type_specification]
#[verifier::external_body]
#[verifier::reject_recursive_types(T)]
pub struct ExPKey<T>(PKey<T>);

#[verifier::external_type_specification]
#[verifier::external_body]
pub struct ExPrivate(Private);

#[verifier::external_type_specification]
#[verifier::external_body]
pub struct ExX509(X509);

#[verifier::external_type_specification]
#[verifier::external_body]
pub struct ExX509Builder(X509Builder);

#[verifier::external_type_specification]
#[verifier::external_body]
pub struct ExAsn1Time(Asn1Time);

#[verifier::external_type_specification]
#[verifier::external_body]
pub struct ExMessageDigest(MessageDigest);

#[verifier::external_type_specification]
#[verifier::external_body]
pub struct ExErrorStack(ErrorStack);

#[verifier::external_type_specification]
#[verifier::external_body]
pub struct ExSslError(SslError);

/// A moment for a certificate's validity, with the number of days from the
/// time it was taken that it was asked for.
pub struct TimeModel {
    pub time: Asn1Time,
    pub days_from_now: u32,
}

/// What the library set on a certificate: its public key, the key it was
/// signed with and whether without a digest, and its validity bounds.
pub struct CertModel {
    pub public_key: Option<PKey<Private>>,
    pub signed_with: Option<PKey<Private>>,
    pub null_digest: bool,
    pub not_before: Option<TimeModel>,
    pub not_after: Option<TimeModel>,
}

/// What the library set on a TLS context, session or stream: the side it is
/// for, the TLS 1.3 cipher suites, the private key, whether the peer's
/// certificate goes unverified, and the certificate presented. `None` and
/// `false` stand for what was not set, left at openssl's default.
pub struct ContextModel {
    pub role: ConnectionRole,
    pub ciphersuites: Option<Seq<char>>,
    pub private_key: Option<PKey<Private>>,
    pub verify_none_set: bool,
    pub certificate: Option<CertModel>,
}

/// A certificate with nothing set.
pub open spec fn empty_cert() -> CertModel {
    CertModel {
        public_key: None,
        signed_with: None,
        null_digest: false,
        not_before: None,
        not_after: None,
    }
}

/// A context for `role` with nothing set.
pub open spec fn fresh_context(role: ConnectionRole) -> ContextModel {
    ContextModel {
        role,
        ciphersuites: None,
        private_key: None,
        verify_none_set: false,
        certificate: None,
    }
}

/// A key pair, with whether it is an Ed25519 key.
pub struct KeyPair {
    inner: PKey<Private>,
    ed25519: Ghost<bool>,
}

impl KeyPair {
    pub closed spec fn key(&self) -> PKey<Private> {
        self.inner
    }

    pub closed spec fn is_ed25519(&self) -> bool {
        self.ed25519@
    }
}

/// A TLS method, with the side it is for.
pub struct TlsMethod {
    inner: SslMethod,
    role: Ghost<ConnectionRole>,
}

impl TlsMethod {
    pub closed spec fn role(&self) -> ConnectionRole {
        self.role@
    }
}

/// A verification mode, with whether it is `NONE`.
pub struct VerifyMode {
    inner: SslVerifyMode,
    none: Ghost<bool>,
}

impl VerifyMode {
    pub closed spec fn is_none(&self) -> bool {
        self.none@
    }
}

/// A message digest, with whether it is the null digest.
pub struct Digest {
    inner: MessageDigest,
    null: Ghost<bool>,
}

impl Digest {
    pub closed spec fn is_null(&self) -> bool {
        self.null@
    }
}

/// A moment for a certificate's validity.
pub struct ValidityTime {
    inner: Asn1Time,
    days: Ghost<u32>,
}

impl ValidityTime {
    pub closed spec fn model(&self) -> TimeModel {
        TimeModel { time: self.inner, days_from_now: self.days@ }
    }
}

/// A certificate being built, with what was set on it.
pub struct CertBuilder {
    inner: X509Builder,
    model: Ghost<CertModel>,
}

impl CertBuilder {
    pub closed spec fn model(&self) -> CertModel {
        self.model@
    }
}

/// A finished certificate, with what was set on it.
pub struct Certificate {
    inner: X509,
    model: Ghost<CertModel>,
}

impl Certificate {
    pub closed spec fn model(&self) -> CertModel {
        self.model@
    }
}

/// A TLS context being built, with what was set on it.
pub struct ContextBuilder {
    inner: SslContextBuilder,
    model: Ghost<ContextModel>,
}

impl ContextBuilder {
    pub closed spec fn model(&self) -> ContextModel {
        self.model@
    }
}

/// A finished TLS context, with what was set on it.
pub struct Context {
    inner: SslContext,
    model: Ghost<ContextModel>,
}

impl Context {
    pub closed spec fn model(&self) -> ContextModel {
        self.model@
    }
}

/// A TLS session, with the context it was made from.
pub struct Session {
    inner: Ssl,
    model: Ghost<ContextModel>,
}

impl Session {
    pub closed spec fn model(&self) -> ContextModel {
        self.model@
    }
}

/// A TLS session over a stream: the context it was made from, the stream it
/// was set over, and the side of the handshake completed on it, if any.
#[verifier::reject_recursive_types(S)]
pub struct TlsStream<S> {
    inner: SslStream<S>,
    model: Ghost<ContextModel>,
    made_over: Ghost<S>,
    handshake: Ghost<Option<ConnectionRole>>,
}

impl<S> TlsStream<S> {
    pub closed spec fn model(&self) -> ContextModel {
        self.model@
    }

    pub closed spec fn made_over(&self) -> S {
        self.made_over@
    }

    pub closed spec fn handshake(&self) -> Option<ConnectionRole> {
        self.handshake@
    }

    /// The openssl stream, to read and write through.
    pub fn into_ssl_stream(self) -> (r: SslStream<S>) {
        self.inner
    }
}

/// `PKey::generate_ed25519`: a fresh Ed25519 key pair.
///
/// Trusted: on success the key is an Ed25519 key. Which key it is (random)
/// and whether the call succeeds openssl decides.
#[verifier::external_body]
fn generate_ed25519() -> (r: Result<KeyPair, ErrorStack>)
    ensures
        r matches Ok(k) ==> k.is_ed25519(),
{
    match PKey::generate_ed25519() {
        Ok(inner) => Ok(KeyPair { inner, ed25519: Ghost(true) }),
        Err(e) => Err(e),
    }
}

/// `SslMethod::tls_client`: the TLS method for the connecting side.
///
/// Trusted: the method is the client's.
#[verifier::external_body]
fn tls_client_method() -> (r: TlsMethod)
    ensures
        r.role() == ConnectionRole::Client,
{
    TlsMethod { inner: SslMethod::tls_client(), role: Ghost(ConnectionRole::Client) }
}

/// `SslMethod::tls_server`: the TLS method for the accepting side.
///
/// Trusted: the method is the server's.
#[verifier::external_body]
fn tls_server_method() -> (r: TlsMethod)
    ensures
        r.role() == ConnectionRole::Server,
{
    TlsMethod { inner: SslMethod::tls_server(), role: Ghost(ConnectionRole::Server) }
}

/// `SslContext::builder`: a context builder for the method.
///
/// Trusted: on success, a builder for the method's side with nothing set.
/// Whether it succeeds openssl decides.
#[verifier::external_body]
fn context_builder(method: TlsMethod) -> (r: Result<ContextBuilder, ErrorStack>)
    ensures
        r matches Ok(b) ==> b.model() == fresh_context(method.role()),
{
    match SslContext::builder(method.inner) {
        Ok(inner) => Ok(ContextBuilder { inner, model: Ghost(fresh_context(method.role@)) }),
        Err(e) => Err(e),
    }
}

/// `SslContextBuilder::set_ciphersuites`, which hands the list to openssl as
/// a C string (and so requires it to hold no NUL).
///
/// Trusted: on success the TLS 1.3 suites are the list and nothing else
/// changed. Whether it succeeds openssl decides.
#[verifier::external_body]
fn set_ciphersuites(b: &mut ContextBuilder, cipher_list: &str) -> (r: Result<(), ErrorStack>)
    requires
        forall|i: int| 0 <= i < cipher_list@.len() ==> cipher_list@[i] != '\0',
    ensures
        r is Ok ==> final(b).model() == (ContextModel {
            ciphersuites: Some(cipher_list@),
            ..old(b).model()
        }),
{
    b.inner.set_ciphersuites(cipher_list)
}

/// `SslContextBuilder::set_private_key`.
///
/// Trusted: on success the private key is `key` and nothing else changed.
/// Whether it succeeds openssl decides.
#[verifier::external_body]
fn set_private_key(b: &mut ContextBuilder, key: &KeyPair) -> (r: Result<(), ErrorStack>)
    ensures
        r is Ok ==> final(b).model() == (ContextModel {
            private_key: Some(key.key()),
            ..old(b).model()
        }),
{
    b.inner.set_private_key(&key.inner)
}

/// `SslVerifyMode::NONE`: the peer's certificate is not verified.
///
/// Trusted: the mode is `NONE`.
#[verifier::external_body]
fn verify_mode_none() -> (r: VerifyMode)
    ensures
        r.is_none(),
{
    VerifyMode { inner: SslVerifyMode::NONE, none: Ghost(true) }
}

/// `SslContextBuilder::set_verify`, which cannot fail.
///
/// Trusted: the verification mode is `mode` and nothing else changed.
#[verifier::external_body]
fn set_verify(b: &mut ContextBuilder, mode: VerifyMode)
    ensures
        final(b).model() == (ContextModel { verify_none_set: mode.is_none(), ..old(b).model() }),
{
    b.inner.set_verify(mode.inner)
}

/// `SslContextBuilder::set_certificate`.
///
/// Trusted, for a certificate of the context's own private key (openssl
/// drops a private key that does not match the new certificate): on success
/// the certificate presented is `cert` and nothing else changed. Whether it
/// succeeds openssl decides.
#[verifier::external_body]
fn set_certificate(b: &mut ContextBuilder, cert: &Certificate) -> (r: Result<(), ErrorStack>)
    requires
        old(b).model().private_key is Some,
        cert.model().public_key == old(b).model().private_key,
    ensures
        r is Ok ==> final(b).model() == (ContextModel {
            certificate: Some(cert.model()),
            ..old(b).model()
        }),
{
    b.inner.set_certificate(&cert.inner)
}

/// `SslContextBuilder::build`, which cannot fail.
///
/// Trusted: the context holds what was set on the builder.
#[verifier::external_body]
fn build_context(b: ContextBuilder) -> (r: Context)
    ensures
        r.model() == b.model(),
{
    Context { inner: b.inner.build(), model: Ghost(b.model@) }
}

/// `Ssl::new`: a TLS session on the context.
///
/// Trusted: on success the session is of that context. Whether it succeeds
/// openssl decides.
#[verifier::external_body]
fn ssl_new(ctx: &Context) -> (r: Result<Session, ErrorStack>)
    ensures
        r matches Ok(s) ==> s.model() == ctx.model(),
{
    match Ssl::new(&ctx.inner) {
        Ok(inner) => Ok(Session { inner, model: Ghost(ctx.model@) }),
        Err(e) => Err(e),
    }
}

/// `SslStream::new`: the session set over the stream, with no I/O yet.
///
/// Trusted: on success the stream is of the session's context, set over
/// `stream`, with no handshake done. Whether it succeeds openssl decides.
#[verifier::external_body]
fn ssl_stream_new<S: Read + Write>(ssl: Session, stream: S) -> (r: Result<TlsStream<S>, ErrorStack>)
    ensures
        r matches Ok(s) ==> s.model() == ssl.model() && s.made_over() == stream && s.handshake()
            is None,
{
    let model = Ghost(ssl.model@);
    let made_over = Ghost(stream);
    match SslStream::new(ssl.inner, stream) {
        Ok(inner) => Ok(TlsStream { inner, model, made_over, handshake: Ghost(None) }),
        Err(e) => Err(e),
    }
}

/// `SslStream::connect`: the client side of the handshake, over the network.
///
/// Trusted: the session and its stream stay the same, and the client's
/// handshake is done exactly when the call succeeds. Whether it succeeds
/// the peer and the network decide.
#[verifier::external_body]
fn tls_connect<S: Read + Write>(s: &mut TlsStream<S>) -> (r: Result<(), SslError>)
    ensures
        final(s).model() == old(s).model(),
        final(s).made_over() == old(s).made_over(),
        final(s).handshake() == if r is Ok {
            Some(ConnectionRole::Client)
        } else {
            None::<ConnectionRole>
        },
{
    s.inner.connect()
}

/// `SslStream::accept`: the server side of the handshake, over the network.
///
/// Trusted: the session and its stream stay the same, and the server's
/// handshake is done exactly when the call succeeds. Whether it succeeds
/// the peer and the network decide.
#[verifier::external_body]
fn tls_accept<S: Read + Write>(s: &mut TlsStream<S>) -> (r: Result<(), SslError>)
    ensures
        final(s).model() == old(s).model(),
        final(s).made_over() == old(s).made_over(),
        final(s).handshake() == if r is Ok {
            Some(ConnectionRole::Server)
        } else {
            None::<ConnectionRole>
        },
{
    s.inner.accept()
}

/// `ToString::to_string` on an `openssl::ssl::Error`: its text.
///
/// Trusted, with no contract: the text is openssl's.
#[verifier::external_body]
fn ssl_error_text(e: &SslError) -> (r: String) {
    e.to_string()
}

/// `Asn1Time::days_from_now`.
///
/// Trusted, for a number of days whose seconds fit in 32 bits (openssl
/// multiplies them as a C `long`, 32 bits wide on some targets): on success a
/// moment asked for `days` days from now (the clock decides which). Whether
/// it succeeds openssl decides.
#[verifier::external_body]
fn asn1_days_from_now(days: u32) -> (r: Result<ValidityTime, ErrorStack>)
    requires
        days <= 24855,
    ensures
        r matches Ok(t) ==> t.model().days_from_now == days,
{
    match Asn1Time::days_from_now(days) {
        Ok(inner) => Ok(ValidityTime { inner, days: Ghost(days) }),
        Err(e) => Err(e),
    }
}

/// `X509Builder::new`.
///
/// Trusted: on success a certificate with nothing set. Whether it succeeds
/// openssl decides.
#[verifier::external_body]
fn x509_builder_new() -> (r: Result<CertBuilder, ErrorStack>)
    ensures
        r matches Ok(b) ==> b.model() == empty_cert(),
{
    match X509Builder::new() {
        Ok(inner) => Ok(CertBuilder { inner, model: Ghost(empty_cert()) }),
        Err(e) => Err(e),
    }
}

/// `X509Builder::set_pubkey`.
///
/// Trusted: on success the public key is `key`'s and nothing else changed.
/// Whether it succeeds openssl decides.
#[verifier::external_body]
fn x509_set_pubkey(b: &mut CertBuilder, key: &KeyPair) -> (r: Result<(), ErrorStack>)
    ensures
        r is Ok ==> final(b).model() == (CertModel { public_key: Some(key.key()), ..old(b).model() }),
{
    b.inner.set_pubkey(&key.inner)
}

/// `MessageDigest::null`: no digest, as Ed25519 signs without one.
///
/// Trusted: the digest is the null digest.
#[verifier::external_body]
fn digest_null() -> (r: Digest)
    ensures
        r.is_null(),
{
    Digest { inner: MessageDigest::null(), null: Ghost(true) }
}

/// `X509Builder::sign`.
///
/// Trusted: on success the certificate is signed with `key`, with the null
/// digest exactly when `hash` is it, and nothing else changed. Whether it
/// succeeds openssl decides.
#[verifier::external_body]
fn x509_sign(b: &mut CertBuilder, key: &KeyPair, hash: Digest) -> (r: Result<
    (),
    ErrorStack,
>)
    ensures
        r is Ok ==> final(b).model() == (CertModel {
            signed_with: Some(key.key()),
            null_digest: hash.is_null(),
            ..old(b).model()
        }),
{
    b.inner.sign(&key.inner, hash.inner)
}

/// `X509Builder::set_not_before`.
///
/// Trusted: on success the start of validity is `t` and nothing else
/// changed. Whether it succeeds openssl decides.
#[verifier::external_body]
fn x509_set_not_before(b: &mut CertBuilder, t: &ValidityTime) -> (r: Result<(), ErrorStack>)
    ensures
        r is Ok ==> final(b).model() == (CertModel { not_before: Some(t.model()), ..old(b).model() }),
{
    b.inner.set_not_before(&t.inner)
}

/// `X509Builder::set_not_after`.
///
/// Trusted: on success the end of validity is `t` and nothing else changed.
/// Whether it succeeds openssl decides.
#[verifier::external_body]
fn x509_set_not_after(b: &mut CertBuilder, t: &ValidityTime) -> (r: Result<(), ErrorStack>)
    ensures
        r is Ok ==> final(b).model() == (CertModel { not_after: Some(t.model()), ..old(b).model() }),
{
    b.inner.set_not_after(&t.inner)
}

/// `X509Builder::build`, which cannot fail.
///
/// Trusted: the certificate holds what was set on the builder.
#[verifier::external_body]
fn x509_build(b: CertBuilder) -> (r: Certificate)
    ensures
        r.model() == b.model(),
{
    Certificate { inner: b.inner.build(), model: Ghost(b.model@) }
}

/// The cipher suite of every connection.
pub const CIPHER: &'static str = "TLS_AES_128_GCM_SHA256";

/// The context a session is set up with before the side's own additions:
/// the one cipher suite, the given private key, and no verification of the
/// peer's certificate.
pub open spec fn base_context(role: ConnectionRole, key: PKey<Private>) -> ContextModel {
    ContextModel {
        role,
        ciphersuites: Some(CIPHER@),
        private_key: Some(key),
        verify_none_set: true,
        certificate: None,
    }
}

/// A certificate of `key`, signed with it without a digest, valid from `t`
/// to `t`.
pub open spec fn self_signed(key: PKey<Private>, t: TimeModel) -> CertModel {
    CertModel {
        public_key: Some(key),
        signed_with: Some(key),
        null_digest: true,
        not_before: Some(t),
        not_after: Some(t),
    }
}

/// The errors that setting up a session can end in, one for each step that
/// can fail.
pub open spec fn is_session_error(e: Error) -> bool {
    match e {
        Error::OtherError(m) => m == "Failed to generate new private key" || m
            == "Failed to create SslContext Builder" || m == "Failed to set ciphers" || m
            == "Failed to set private key" || m == "Failed to create Ssl from Context" || m
            == "Failed to create SslStream",
        _ => false,
    }
}

/// The errors that making the server's certificate can end in, one for each
/// step that can fail.
pub open spec fn is_certificate_error(e: Error) -> bool {
    match e {
        Error::OtherError(m) => m == "Failed to create Asn1Time" || m
            == "Failed to construct x509 builder" || m == "Failed to set pubkey for x509" || m
            == "Failed to sign x509 with privkey" || m == "Failed to set not_before" || m
            == "Failed to set not_after" || m == "Failed to set certificate for connection",
        _ => false,
    }
}

/// The errors that setting up a TLS session can end in, before any byte is
/// exchanged with the peer.
pub open spec fn is_setup_error(e: Error) -> bool {
    is_session_error(e) || is_certificate_error(e)
}

impl From<SslError> for Error {
    /// A failed handshake, with the text openssl gives of it.
    fn from(e: SslError) -> (r: Self)
        ensures
            r is MiscError,
    {
        Error::MiscError(ssl_error_text(&e))
    }
}

impl vstd::std_specs::convert::FromSpecImpl<SslError> for Error {
    /// The text comes from openssl; `from` states the variant.
    open spec fn obeys_from_spec() -> bool {
        false
    }

    open spec fn from_spec(v: SslError) -> Error {
        arbitrary()
    }
}

/// Sets up a TLS session over `stream` as the client and performs the
/// handshake with the server. On success the session is set over `stream`
/// with the one cipher suite, a fresh Ed25519 private key, no verification of the
/// server's certificate and no certificate of its own, and the client's
/// handshake is done. A failed setup step gives its own error; a failed
/// handshake gives `MiscError` with openssl's text.
pub fn ssl_start_client<T: Read + Write>(stream: T) -> (r: Result<TlsStream<T>, Error>)
    ensures
        r matches Ok(s) ==> {
            &&& exists|k: KeyPair|
                k.is_ed25519() && s.model() == base_context(ConnectionRole::Client, #[trigger] k.key())
            &&& s.made_over() == stream
            &&& s.handshake() == Some(ConnectionRole::Client)
        },
        r matches Err(e) ==> is_session_error(e) || e is MiscError,
{
    let mut s = ssl_start(stream, tls_client_method(), no_extras)?;
    proof {
        let (k, b1, b2) = choose|k: KeyPair, b1: ContextBuilder, b2: ContextBuilder|
            #[trigger] call_ensures(no_extras, (b1, &k), Ok::<ContextBuilder, Error>(b2))
                && k.is_ed25519() && b1.model() == base_context(ConnectionRole::Client, k.key())
                && s.model() == b2.model();
        assert(s.model() == base_context(ConnectionRole::Client, k.key()));
    }
    match tls_connect(&mut s) {
        Ok(()) => Ok(s),
        Err(e) => Err(Error::from(e)),
    }
}

/// Sets up a TLS session over `stream` as the server and performs the
/// handshake with the client. On success the session is set over `stream`
/// with the one cipher suite, a fresh Ed25519 private key, no verification of the
/// client, and a certificate of that key, signed with it and valid from the
/// moment it was made to that same moment; the server's handshake is done.
/// A failed setup step gives its own error; a failed handshake gives
/// `MiscError` with openssl's text.
pub fn ssl_start_server<T: Read + Write>(stream: T) -> (r: Result<TlsStream<T>, Error>)
    ensures
        r matches Ok(s) ==> {
            &&& exists|k: KeyPair, t: TimeModel|
                k.is_ed25519() && t.days_from_now == 0 && s.model() == (ContextModel {
                    certificate: Some(#[trigger] self_signed(k.key(), t)),
                    ..base_context(ConnectionRole::Server, k.key())
                })
            &&& s.made_over() == stream
            &&& s.handshake() == Some(ConnectionRole::Server)
        },
        r matches Err(e) ==> is_setup_error(e) || e is MiscError,
{
    let mut s = ssl_start(stream, tls_server_method(), add_certificate)?;
    proof {
        let (k, b1, b2) = choose|k: KeyPair, b1: ContextBuilder, b2: ContextBuilder|
            #[trigger] call_ensures(add_certificate, (b1, &k), Ok::<ContextBuilder, Error>(b2))
                && k.is_ed25519() && b1.model() == base_context(ConnectionRole::Server, k.key())
                && s.model() == b2.model();
        let t = choose|t: TimeModel|
            t.days_from_now == 0 && b2.model() == (ContextModel {
                certificate: Some(self_signed(k.key(), t)),
                ..b1.model()
            });
        assert(s.model() == (ContextModel {
            certificate: Some(self_signed(k.key(), t)),
            ..base_context(ConnectionRole::Server, k.key())
        }));
    }
    match tls_accept(&mut s) {
        Ok(()) => Ok(s),
        Err(e) => Err(Error::from(e)),
    }
}

/// Sets up a TLS session over `stream`: a fresh Ed25519 key, the one cipher suite,
/// no verification of the peer (the aim is encryption, not authentication),
/// and then, once, what `extra_builder` adds for the side this end plays.
/// On success the session is set over `stream` with what `extra_builder`
/// returned, and no handshake is done yet. A failed step gives its own
/// error; a failure of `extra_builder` gives its error.
fn ssl_start<T: Read + Write, F>(stream: T, method: TlsMethod, extra_builder: F) -> (r: Result<
    TlsStream<T>,
    Error,
>) where F: FnOnce(ContextBuilder, &KeyPair) -> Result<ContextBuilder, Error>
    requires
        forall|b: ContextBuilder, k: &KeyPair|
            b.model().private_key == Some(k.key()) ==> extra_builder.requires((b, k)),
    ensures
        r matches Ok(s) ==> {
            &&& exists|k: KeyPair, b1: ContextBuilder, b2: ContextBuilder|
                #[trigger] call_ensures(extra_builder, (b1, &k), Ok::<ContextBuilder, Error>(b2))
                    && k.is_ed25519() && b1.model() == base_context(method.role(), k.key())
                    && s.model() == b2.model()
            &&& s.made_over() == stream
            &&& s.handshake() is None
        },
        r matches Err(e) ==> is_session_error(e) || exists|k: KeyPair, b1: ContextBuilder|
            #[trigger] call_ensures(extra_builder, (b1, &k), Err::<ContextBuilder, Error>(e)),
{
    let pkey = match generate_ed25519() {
        Ok(k) => k,
        Err(_) => return Err(Error::OtherError("Failed to generate new private key")),
    };
    let mut b = match context_builder(method) {
        Ok(b) => b,
        Err(_) => return Err(Error::OtherError("Failed to create SslContext Builder")),
    };
    proof {
        reveal_strlit("TLS_AES_128_GCM_SHA256");
    }
    assert(forall|i: int| 0 <= i < CIPHER@.len() ==> CIPHER@[i] != '\0');
    if set_ciphersuites(&mut b, CIPHER).is_err() {
        return Err(Error::OtherError("Failed to set ciphers"));
    }
    if set_private_key(&mut b, &pkey).is_err() {
        return Err(Error::OtherError("Failed to set private key"));
    }
    // we are primarily interested in encryption, not authentication
    set_verify(&mut b, verify_mode_none());
    let ghost b1 = b;
    assert(b1.model() == base_context(method.role(), pkey.key()));

    let b = match extra_builder(b, &pkey) {
        Ok(b2) => b2,
        Err(e) => return Err(e),
    };
    let ghost b2 = b;

    let ctx = build_context(b);
    let ssl = match ssl_new(&ctx) {
        Ok(ssl) => ssl,
        Err(_) => return Err(Error::OtherError("Failed to create Ssl from Context")),
    };
    match ssl_stream_new(ssl, stream) {
        Ok(s) => {
            assert(call_ensures(extra_builder, (b1, &pkey), Ok::<ContextBuilder, Error>(b2)));
            Ok(s)
        },
        Err(_) => Err(Error::OtherError("Failed to create SslStream")),
    }
}

/// The client side adds nothing to the context.
fn no_extras(b: ContextBuilder, _pkey: &KeyPair) -> (r: Result<ContextBuilder, Error>)
    ensures
        r == Ok::<ContextBuilder, Error>(b),
{
    Ok(b)
}

/// The server side presents a certificate of its key, signed with it (Ed25519
/// signs without a digest) and valid from now to now, as asked of openssl
/// (the client does not verify it); nothing else of the context changes. A
/// failed step gives its own error.
fn add_certificate(b: ContextBuilder, pkey: &KeyPair) -> (r: Result<ContextBuilder, Error>)
    requires
        b.model().private_key == Some(pkey.key()),
    ensures
        r matches Ok(b2) ==> exists|t: TimeModel|
            t.days_from_now == 0 && b2.model() == (ContextModel {
                certificate: Some(#[trigger] self_signed(pkey.key(), t)),
                ..b.model()
            }),
        r matches Err(e) ==> is_certificate_error(e),
{
    let mut b = b;
    let asn1_time = match asn1_days_from_now(0) {
        Ok(t) => t,
        Err(_) => return Err(Error::OtherError("Failed to create Asn1Time")),
    };
    let mut x509_b = match x509_builder_new() {
        Ok(x) => x,
        Err(_) => return Err(Error::OtherError("Failed to construct x509 builder")),
    };
    if x509_set_pubkey(&mut x509_b, pkey).is_err() {
        return Err(Error::OtherError("Failed to set pubkey for x509"));
    }
    // Ed25519 signs without a separate digest
    if x509_sign(&mut x509_b, pkey, digest_null()).is_err() {
        return Err(Error::OtherError("Failed to sign x509 with privkey"));
    }
    if x509_set_not_before(&mut x509_b, &asn1_time).is_err() {
        return Err(Error::OtherError("Failed to set not_before"));
    }
    if x509_set_not_after(&mut x509_b, &asn1_time).is_err() {
        return Err(Error::OtherError("Failed to set not_after"));
    }
    let cert = x509_build(x509_b);
    assert(cert.model() == self_signed(pkey.key(), asn1_time.model()));
    if set_certificate(&mut b, &cert).is_err() {
        return Err(Error::OtherError("Failed to set certificate for connection"));
    }
    Ok(b)
}

} // verus!
