use crate::error::{Error, ErrorView};
use crate::json::{json_string, member, write_string, write_text_member};
use crate::text::push_char;
use openssl::ec::EcKey;
use openssl::error::ErrorStack;
use openssl::pkey::Private;
use vstd::prelude::*;
use vstd::utf8::encode_utf8;

verus! {

/// The text that stands for `data` in URL-safe Base64 without padding.
pub uninterp spec fn base64url_text(data: Seq<u8>) -> Seq<char>;

/// Encodes `data` in URL-safe Base64 without padding.
///
/// Trusted: calls `base64::Engine::encode` of the engine
/// `base64::prelude::BASE64_URL_SAFE_NO_PAD`. The text that it gives depends
/// on the data alone; it is named [`base64url_text`] here.
#[verifier::external_body]
pub fn base64url(data: &[u8]) -> (text: String)
    ensures
        text@ == base64url_text(data@),
{
    base64::Engine::encode(&base64::prelude::BASE64_URL_SAFE_NO_PAD, data)
}

/// An elliptic-curve key pair of OpenSSL.
#[verifier::external_type_specification]
#[verifier::external_body]
#[verifier::reject_recursive_types(T)]
pub struct ExEcKey<T>(EcKey<T>);

/// The mark of a key that holds its private part.
#[verifier::external_type_specification]
#[verifier::external_body]
pub struct ExPrivate(Private);

/// The errors that OpenSSL has reported.
#[verifier::external_type_specification]
#[verifier::external_body]
pub struct ExErrorStack(ErrorStack);

/// The SHA-256 digest of `data`.
pub uninterp spec fn sha256_digest(data: Seq<u8>) -> Seq<u8>;

/// Makes a new key pair on the curve P-256 and hands it out with the affine
/// coordinates of its public point, each as big-endian bytes.
///
/// Trusted: calls `EcGroup::from_curve_name`, `EcKey::generate`,
/// `EcPointRef::affine_coordinates` and `BigNumRef::to_vec` of the crate
/// `openssl`. The key is random, so nothing is promised of the result.
#[verifier::external_body]
fn generate_p256() -> (generated: Result<(EcKey<Private>, Vec<u8>, Vec<u8>), ErrorStack>) {
    let group = openssl::ec::EcGroup::from_curve_name(openssl::nid::Nid::X9_62_PRIME256V1)?;
    let key = EcKey::generate(&group)?;
    let mut context = openssl::bn::BigNumContext::new()?;
    let mut x = openssl::bn::BigNum::new()?;
    let mut y = openssl::bn::BigNum::new()?;
    key.public_key().affine_coordinates(&group, &mut x, &mut y, &mut context)?;
    Ok((key, x.to_vec(), y.to_vec()))
}

/// Computes the SHA-256 digest of `data`.
///
/// Trusted: feeds the data to an `openssl::hash::Hasher` for
/// `MessageDigest::sha256` and hands out what `finish` gives. Where OpenSSL
/// reports no error, that is the digest of the data, named
/// [`sha256_digest`] here.
#[verifier::external_body]
fn sha256(data: &[u8]) -> (digest: Result<Vec<u8>, ErrorStack>)
    ensures
        digest matches Ok(d) ==> d@ == sha256_digest(data@),
{
    let mut hasher = openssl::hash::Hasher::new(openssl::hash::MessageDigest::sha256())?;
    hasher.update(data)?;
    Ok(hasher.finish()?.to_vec())
}

/// Signs a digest and hands out the two numbers of the signature, each as
/// big-endian bytes.
///
/// Trusted: calls `openssl::ecdsa::EcdsaSig::sign`, then `r`, `s` and
/// `BigNumRef::to_vec`. The signature depends on a random number, so nothing
/// is promised of it. A digest longer than a C `int` can count is left out,
/// because `sign` panics on it.
#[verifier::external_body]
fn ecdsa_sign(digest: &[u8], key: &EcKey<Private>) -> (signature: Result<
    (Vec<u8>, Vec<u8>),
    ErrorStack,
>)
    requires
        digest@.len() <= 0x7fff_ffff,
{
    let signature = openssl::ecdsa::EcdsaSig::sign(digest, key)?;
    Ok((signature.r().to_vec(), signature.s().to_vec()))
}

/// The description of what OpenSSL has reported.
///
/// Trusted: formats the error stack as `Display` writes it. Nothing is
/// promised of the text.
#[verifier::external_body]
fn error_stack_text(err: &ErrorStack) -> (text: String) {
    format!("{}", err)
}

/// The error of this library that stands for an error of OpenSSL.
pub fn openssl_error(err: &ErrorStack) -> (error: Error)
    ensures
        error@.msg == "OpenSSL"@,
        error@.cause is Some,
{
    let text = error_stack_text(err);
    Error::from_static_msg_and_cause("OpenSSL", text.as_str())
}

/// The parameters of an elliptic-curve key: the name of the curve and the
/// two coordinates of the public point, each in URL-safe Base64.
#[derive(Clone)]
pub struct EllipticCurveParams {
    crv: String,
    x: String,
    y: String,
}

/// What the parameters of an elliptic-curve key amount to.
pub struct CurveView {
    pub crv: Seq<char>,
    pub x: Seq<char>,
    pub y: Seq<char>,
}

impl View for EllipticCurveParams {
    type V = CurveView;

    closed spec fn view(&self) -> CurveView {
        CurveView { crv: self.crv@, x: self.x@, y: self.y@ }
    }
}

impl CurveView {
    /// The parameters as a JSON Web Key.
    pub open spec fn json(self) -> Seq<char> {
        seq!['{'] + member("kty"@, json_string("EC"@)) + seq![','] + member(
            "crv"@,
            json_string(self.crv),
        ) + seq![','] + member("x"@, json_string(self.x)) + seq![','] + member(
            "y"@,
            json_string(self.y),
        ) + seq!['}']
    }

    /// The text whose digest is the thumbprint of the key: the members of
    /// the key in the order of their names, the values written as they are.
    pub open spec fn thumbprint_input(self) -> Seq<char> {
        "{\"crv\":\""@ + self.crv + "\",\"kty\":\"EC\",\"x\":\""@ + self.x + "\",\"y\":\""@
            + self.y + "\"}"@
    }

    /// The thumbprint of the key.
    pub open spec fn thumbprint(self) -> Seq<char> {
        base64url_text(sha256_digest(encode_utf8(self.thumbprint_input())))
    }
}

impl EllipticCurveParams {
    /// The parameters of a key on the curve `crv` with the given coordinates.
    pub fn new(crv: &str, x: &str, y: &str) -> (params: Self)
        ensures
            params@ == (CurveView { crv: crv@, x: x@, y: y@ }),
    {
        EllipticCurveParams { crv: crv.to_owned(), x: x.to_owned(), y: y.to_owned() }
    }

    /// A copy of the parameters.
    pub fn duplicate(&self) -> (copy: Self)
        ensures
            copy@ == self@,
    {
        EllipticCurveParams { crv: self.crv.clone(), x: self.x.clone(), y: self.y.clone() }
    }

    /// Appends the parameters to `out` as a JSON Web Key.
    pub fn write_json(&self, out: &mut String)
        ensures
            final(out)@ == old(out)@ + self@.json(),
    {
        push_char(out, '{');
        write_text_member(out, "kty", "EC");
        push_char(out, ',');
        write_text_member(out, "crv", self.crv.as_str());
        push_char(out, ',');
        write_text_member(out, "x", self.x.as_str());
        push_char(out, ',');
        write_text_member(out, "y", self.y.as_str());
        push_char(out, '}');
        assert(out@ =~= old(out)@ + self@.json());
    }

    /// The text whose digest is the thumbprint of the key.
    pub fn thumbprint_input(&self) -> (text: String)
        ensures
            text@ == self@.thumbprint_input(),
    {
        let mut text = "{\"crv\":\"".to_owned();
        text.append(self.crv.as_str());
        text.append("\",\"kty\":\"EC\",\"x\":\"");
        text.append(self.x.as_str());
        text.append("\",\"y\":\"");
        text.append(self.y.as_str());
        text.append("\"}");
        text
    }
}

enum InternalParams {
    EllipticCurve(EllipticCurveParams),
}

/// The parameters of a JSON Web Key.
pub struct Params {
    internal: InternalParams,
}

impl View for Params {
    type V = CurveView;

    closed spec fn view(&self) -> CurveView {
        match self.internal {
            InternalParams::EllipticCurve(params) => params@,
        }
    }
}

impl Params {
    /// The parameters of an elliptic-curve key.
    pub fn new(params: EllipticCurveParams) -> (made: Self)
        ensures
            made@ == params@,
    {
        Params { internal: InternalParams::EllipticCurve(params) }
    }

    /// Appends the parameters to `out` as a JSON Web Key.
    pub fn write_json(&self, out: &mut String)
        ensures
            final(out)@ == old(out)@ + self@.json(),
    {
        match &self.internal {
            InternalParams::EllipticCurve(params) => params.write_json(out),
        }
    }
}

/// A key that signs JSON Web Signature messages.
pub trait Key {
    /// The name of the algorithm of the key.
    spec fn algorithm_name(&self) -> Seq<char>;

    /// The parameters of the key.
    spec fn key_params(&self) -> CurveView;

    /// The thumbprint of the key.
    spec fn key_thumbprint(&self) -> Seq<char>;

    /// The name of the algorithm.
    fn algorithm(&self) -> (name: &str)
        ensures
            name@ == self.algorithm_name(),
    ;

    /// The parameters of the key.
    fn params(&self) -> (params: &Params)
        ensures
            params@ == self.key_params(),
    ;

    /// The thumbprint of the key.
    fn thumbprint(&self) -> (thumbprint: &str)
        ensures
            thumbprint@ == self.key_thumbprint(),
    ;

    /// Whether `outcome` is something that signing the given header and
    /// payload with this key may give.
    spec fn signs(&self, header: Seq<char>, payload: Seq<char>, outcome: Result<Vec<u8>, Error>) -> bool;

    /// Signs the header and the payload of a message, each as it stands in
    /// the message.
    fn sign(&self, header: &str, payload: &str) -> (outcome: Result<Vec<u8>, Error>)
        ensures
            self.signs(header@, payload@, outcome),
    ;
}

/// An ECDSA key on the curve P-256, which signs SHA-256 digests.
pub struct ES256 {
    key: EcKey<Private>,
    params: Params,
    thumbprint: String,
}

impl ES256 {
    /// The key pair that signs.
    pub closed spec fn key_pair(&self) -> EcKey<Private> {
        self.key
    }

    /// The signing key made of a key pair and the coordinates of its public
    /// point. `digest` is the SHA-256 digest of the thumbprint input of
    /// these parameters, or the error that computing it gave.
    pub fn with_digest(
        key: EcKey<Private>,
        params: EllipticCurveParams,
        digest: Result<Vec<u8>, ErrorStack>,
    ) -> (made: Result<Self, Error>)
        ensures
            match digest {
                Ok(d) => made matches Ok(k) && k.key_pair() == key && k.key_params() == params@
                    && k.key_thumbprint() == base64url_text(d@),
                Err(_) => made matches Err(e) && e@.msg == "OpenSSL"@,
            },
    {
        match digest {
            Ok(d) => {
                let thumbprint = base64url(d.as_slice());
                Ok(ES256 { key, params: Params::new(params), thumbprint })
            },
            Err(err) => Err(openssl_error(&err)),
        }
    }

    /// The signing key made of a key pair and the coordinates of its public
    /// point, each given as big-endian bytes.
    pub fn with_key(key: EcKey<Private>, x: &[u8], y: &[u8]) -> (made: Result<Self, Error>)
        ensures
            made matches Ok(k) ==> k.key_pair() == key && k.key_params() == (CurveView {
                crv: "P-256"@,
                x: base64url_text(x@),
                y: base64url_text(y@),
            }) && k.key_thumbprint() == k.key_params().thumbprint(),
            made matches Err(e) ==> e@.msg == "OpenSSL"@,
    {
        let x = base64url(x);
        let y = base64url(y);
        let params = EllipticCurveParams::new("P-256", x.as_str(), y.as_str());
        let input = params.thumbprint_input();
        let digest = sha256(input.as_str().as_bytes());
        Self::with_digest(key, params, digest)
    }

    /// A new signing key.
    pub fn new() -> (made: Result<Self, Error>)
        ensures
            made matches Ok(k) ==> k.key_params().crv == "P-256"@ && k.key_thumbprint()
                == k.key_params().thumbprint(),
            made matches Err(e) ==> e@.msg == "OpenSSL"@,
    {
        match generate_p256() {
            Ok((key, x, y)) => Self::with_key(key, x.as_slice(), y.as_slice()),
            Err(err) => Err(openssl_error(&err)),
        }
    }

    /// The signature made of the two numbers that signing gave: the bytes of
    /// the first followed by those of the second.
    pub fn join_signature(parts: Result<(Vec<u8>, Vec<u8>), ErrorStack>) -> (signature: Result<
        Vec<u8>,
        Error,
    >)
        ensures
            match parts {
                Ok((r, s)) => signature matches Ok(joined) && joined@ == r@ + s@,
                Err(_) => signature matches Err(e) && e@.msg == "OpenSSL"@,
            },
    {
        match parts {
            Ok((r, s)) => {
                let mut joined = r;
                let mut i: usize = 0;
                while i < s.len()
                    invariant
                        i <= s@.len(),
                        joined@ == r@ + s@.subrange(0, i as int),
                    decreases s@.len() - i,
                {
                    joined.push(s[i]);
                    i += 1;
                    assert(joined@ =~= r@ + s@.subrange(0, i as int));
                }
                assert(s@.subrange(0, i as int) =~= s@);
                Ok(joined)
            },
            Err(err) => Err(openssl_error(&err)),
        }
    }
}

/// The text that is signed: the header, a full stop, the payload.
pub open spec fn signing_input(header: Seq<char>, payload: Seq<char>) -> Seq<char> {
    header + "."@ + payload
}

/// The error of a digest that is too long to be signed.
pub open spec fn digest_too_long() -> ErrorView {
    ErrorView { msg: "digest too long"@, cause: None }
}

/// The text that is signed for a header and a payload.
pub fn signing_text(header: &str, payload: &str) -> (text: String)
    ensures
        text@ == signing_input(header@, payload@),
{
    let mut text = header.to_owned();
    text.append(".");
    text.append(payload);
    text
}

impl ES256 {
    /// The signature over what computing a digest gave.
    ///
    /// A digest that could not be computed, or that is longer than OpenSSL
    /// can sign, gives no signature. Otherwise the digest is signed, and a
    /// failure of signing is an error of OpenSSL.
    pub fn sign_digest(&self, digest: Result<Vec<u8>, ErrorStack>) -> (signature: Result<
        Vec<u8>,
        Error,
    >)
        ensures
            match digest {
                Ok(d) => if d@.len() > 0x7fff_ffff {
                    signature matches Err(e) && e@ == digest_too_long()
                } else {
                    signature matches Err(e) ==> e@.msg == "OpenSSL"@
                },
                Err(_) => signature matches Err(e) && e@.msg == "OpenSSL"@,
            },
    {
        let digest = match digest {
            Ok(d) => d,
            Err(err) => { return Err(openssl_error(&err)); },
        };
        if digest.len() > 0x7fff_ffff {
            return Err(Error::from_static_msg("digest too long"));
        }
        Self::join_signature(ecdsa_sign(digest.as_slice(), &self.key))
    }
}

impl Key for ES256 {
    open spec fn algorithm_name(&self) -> Seq<char> {
        "ES256"@
    }

    closed spec fn key_params(&self) -> CurveView {
        self.params@
    }

    closed spec fn key_thumbprint(&self) -> Seq<char> {
        self.thumbprint@
    }

    fn algorithm(&self) -> (name: &str) {
        "ES256"
    }

    fn params(&self) -> (params: &Params) {
        &self.params
    }

    fn thumbprint(&self) -> (thumbprint: &str) {
        self.thumbprint.as_str()
    }

    /// Signing with this key either gives a signature, or fails with an
    /// error of OpenSSL or because the digest is too long to be signed.
    open spec fn signs(&self, header: Seq<char>, payload: Seq<char>, outcome: Result<Vec<u8>, Error>) -> bool {
        outcome matches Err(e) ==> e@.msg == "OpenSSL"@ || e@ == digest_too_long()
    }

    fn sign(&self, header: &str, payload: &str) -> (outcome: Result<Vec<u8>, Error>) {
        let input = signing_text(header, payload);
        self.sign_digest(sha256(input.as_str().as_bytes()))
    }
}

/// What can be the payload of a message.
pub trait Payload {
    /// The JSON text of the payload, where it has one.
    spec fn json(&self) -> Option<Seq<char>>;

    /// Writes the payload as JSON.
    fn to_json(&self) -> (text: Result<String, Error>)
        ensures
            match text {
                Ok(t) => self.json() == Some(t@),
                Err(_) => self.json() is None,
            },
    ;
}

/// The payload that says nothing.
pub struct Empty;

impl Payload for Empty {
    open spec fn json(&self) -> Option<Seq<char>> {
        Some("null"@)
    }

    fn to_json(&self) -> (text: Result<String, Error>) {
        Ok("null".to_owned())
    }
}

/// The header of a message.
pub struct HeaderView {
    pub alg: Seq<char>,
    pub nonce: Seq<char>,
    pub url: Seq<char>,
    pub jwk: Option<CurveView>,
    pub kid: Option<Seq<char>>,
}

impl HeaderView {
    /// The header as JSON: algorithm, nonce and URL, then the key or the key
    /// identifier where there is one.
    pub open spec fn json(self) -> Seq<char> {
        seq!['{'] + member("alg"@, json_string(self.alg)) + seq![','] + member(
            "nonce"@,
            json_string(self.nonce),
        ) + seq![','] + member("url"@, json_string(self.url)) + (match self.jwk {
            Some(jwk) => seq![','] + member("jwk"@, jwk.json()),
            None => Seq::empty(),
        }) + (match self.kid {
            Some(kid) => seq![','] + member("kid"@, json_string(kid)),
            None => Seq::empty(),
        }) + seq!['}']
    }
}

/// Writes the header of a message as JSON.
pub fn header_json(alg: &str, nonce: &str, url: &str, jwk: Option<&Params>, kid: Option<&str>) -> (text:
    String)
    ensures
        text@ == (HeaderView {
            alg: alg@,
            nonce: nonce@,
            url: url@,
            jwk: match jwk {
                Some(p) => Some(p@),
                None => None,
            },
            kid: match kid {
                Some(k) => Some(k@),
                None => None,
            },
        }).json(),
{
    let mut text = String::new();
    push_char(&mut text, '{');
    write_text_member(&mut text, "alg", alg);
    push_char(&mut text, ',');
    write_text_member(&mut text, "nonce", nonce);
    push_char(&mut text, ',');
    write_text_member(&mut text, "url", url);
    let ghost fixed = text@;
    let ghost with_jwk = fixed;
    match jwk {
        Some(params) => {
            push_char(&mut text, ',');
            write_string(&mut text, "jwk");
            push_char(&mut text, ':');
            params.write_json(&mut text);
            proof {
                with_jwk = text@;
                assert(with_jwk =~= fixed + (seq![','] + member("jwk"@, params@.json())));
            }
        },
        None => {
            assert(with_jwk =~= fixed + Seq::<char>::empty());
        },
    }
    let ghost with_kid = text@;
    match kid {
        Some(kid) => {
            push_char(&mut text, ',');
            write_text_member(&mut text, "kid", kid);
            proof {
                with_kid = text@;
                assert(with_kid =~= with_jwk + (seq![','] + member("kid"@, json_string(kid@))));
            }
        },
        None => {
            assert(with_kid =~= with_jwk + Seq::<char>::empty());
        },
    }
    push_char(&mut text, '}');
    assert(fixed =~= seq!['{'] + member("alg"@, json_string(alg@)) + seq![','] + member(
        "nonce"@,
        json_string(nonce@),
    ) + seq![','] + member("url"@, json_string(url@)));
    text
}

/// A signed message: header, payload and signature, each in URL-safe Base64.
pub struct Message {
    protected: String,
    payload: String,
    signature: String,
}

/// What a message amounts to.
pub struct MessageView {
    pub protected: Seq<char>,
    pub payload: Seq<char>,
    pub signature: Seq<char>,
}

impl MessageView {
    /// The message as JSON.
    pub open spec fn json(self) -> Seq<char> {
        seq!['{'] + member("protected"@, json_string(self.protected)) + seq![','] + member(
            "payload"@,
            json_string(self.payload),
        ) + seq![','] + member("signature"@, json_string(self.signature)) + seq!['}']
    }
}

impl View for Message {
    type V = MessageView;

    closed spec fn view(&self) -> MessageView {
        MessageView {
            protected: self.protected@,
            payload: self.payload@,
            signature: self.signature@,
        }
    }
}

/// Whether `message` is the message made of an encoded header, an encoded
/// payload, and what signing them gave: the signature is encoded, an error
/// is passed on.
pub open spec fn assembled(
    protected: Seq<char>,
    payload: Seq<char>,
    signature: Result<Vec<u8>, Error>,
    message: Result<Message, Error>,
) -> bool {
    match signature {
        Ok(s) => message matches Ok(m) && m@ == (MessageView {
            protected,
            payload,
            signature: base64url_text(s@),
        }),
        Err(err) => message matches Err(e) && e == err,
    }
}

impl Message {
    /// The message made of an encoded header, an encoded payload, and what
    /// signing them gave: the signature is encoded, an error is passed on.
    pub fn assemble(protected: String, payload: String, signature: Result<Vec<u8>, Error>) -> (message:
        Result<Self, Error>)
        ensures
            assembled(protected@, payload@, signature, message),
    {
        match signature {
            Ok(s) => {
                let signature = base64url(s.as_slice());
                Ok(Message { protected, payload, signature })
            },
            Err(err) => Err(err),
        }
    }

    /// The encoded header.
    pub fn protected(&self) -> (text: &str)
        ensures
            text@ == self@.protected,
    {
        self.protected.as_str()
    }

    /// The encoded payload.
    pub fn payload(&self) -> (text: &str)
        ensures
            text@ == self@.payload,
    {
        self.payload.as_str()
    }

    /// The encoded signature.
    pub fn signature(&self) -> (text: &str)
        ensures
            text@ == self@.signature,
    {
        self.signature.as_str()
    }

    /// The message as JSON, as it is sent.
    pub fn to_json(&self) -> (text: String)
        ensures
            text@ == self@.json(),
    {
        let mut text = String::new();
        push_char(&mut text, '{');
        write_text_member(&mut text, "protected", self.protected.as_str());
        push_char(&mut text, ',');
        write_text_member(&mut text, "payload", self.payload.as_str());
        push_char(&mut text, ',');
        write_text_member(&mut text, "signature", self.signature.as_str());
        push_char(&mut text, '}');
        assert(text@ =~= self@.json());
        text
    }
}

/// Builds signed messages for one key.
pub struct MessageBuilder<'a, K, P> {
    key: &'a K,
    payload: Option<&'a P>,
}

impl<'a, K> MessageBuilder<'a, K, Empty> {
    /// A builder of messages without payload that are signed with `key`.
    pub fn new(key: &'a K) -> (builder: Self)
        ensures
            builder.key() == key,
            builder.payload() is None,
    {
        MessageBuilder { key, payload: None }
    }
}

impl<'a, K, P> MessageBuilder<'a, K, P> {
    /// The key that signs.
    pub closed spec fn key(&self) -> &'a K {
        self.key
    }

    /// The payload of the messages.
    pub closed spec fn payload(&self) -> Option<&'a P> {
        self.payload
    }

    /// A builder of messages with the given payload.
    pub fn with_payload<T>(self, payload: &'a T) -> (builder: MessageBuilder<'a, K, T>)
        ensures
            builder.key() == self.key(),
            builder.payload() == Some(payload),
    {
        MessageBuilder { key: self.key, payload: Some(payload) }
    }
}

/// The JSON text of the payload of a message: that of the payload, the empty
/// text where the message has no payload.
pub open spec fn payload_text<P: Payload>(payload: Option<&P>) -> Option<Seq<char>> {
    match payload {
        Some(p) => p.json(),
        None => Some(Seq::empty()),
    }
}

/// The text that stands in a message for `text`: its UTF-8 bytes in
/// URL-safe Base64.
pub open spec fn encoded(text: Seq<char>) -> Seq<char> {
    base64url_text(encode_utf8(text))
}

/// Whether `message` is the message with the header `header` and the
/// payload `text` that `key` has signed: the key signs the encoded header
/// and the encoded payload, and the message is made of the two and of what
/// signing gave, the encoded signature or the error of signing.
pub open spec fn signed<K: Key>(
    key: &K,
    header: Seq<char>,
    text: Seq<char>,
    message: Result<Message, Error>,
) -> bool {
    exists|signature: Result<Vec<u8>, Error>|
        #[trigger] key.signs(encoded(header), encoded(text), signature) && assembled(
            encoded(header),
            encoded(text),
            signature,
            message,
        )
}

/// Whether `message` is what building a message with the header `header`
/// gives for a key and the JSON text of a payload: a payload that cannot be
/// written fails the message, any other is signed.
pub open spec fn built<K: Key>(
    key: &K,
    payload: Option<Seq<char>>,
    header: Seq<char>,
    message: Result<Message, Error>,
) -> bool {
    match payload {
        None => message matches Err(e) && e@.msg == "unable to serialize a given payload"@
            && e@.cause is Some,
        Some(text) => signed(key, header, text, message),
    }
}

impl<'a, K: Key, P: Payload> MessageBuilder<'a, K, P> {
    /// A message whose header carries the key itself.
    ///
    /// A payload that cannot be written fails the message. Otherwise header
    /// and payload of the message are the encodings of their JSON texts, the
    /// key signs the two, and the message carries the encoded signature or
    /// fails with the error of signing.
    pub fn build_with_jwk_header(&self, url: &str, nonce: &str) -> (message: Result<Message, Error>)
        ensures
            built(
                self.key(),
                payload_text(self.payload()),
                (HeaderView {
                    alg: self.key().algorithm_name(),
                    nonce: nonce@,
                    url: url@,
                    jwk: Some(self.key().key_params()),
                    kid: None,
                }).json(),
                message,
            ),
    {
        let header = header_json(
            self.key.algorithm(),
            nonce,
            url,
            Some(self.key.params()),
            None,
        );
        self.build(header)
    }

    /// A message whose header names the key by the identifier `kid`.
    ///
    /// A payload that cannot be written fails the message. Otherwise header
    /// and payload of the message are the encodings of their JSON texts, the
    /// key signs the two, and the message carries the encoded signature or
    /// fails with the error of signing.
    pub fn build_with_kid_header(&self, kid: &str, url: &str, nonce: &str) -> (message: Result<
        Message,
        Error,
    >)
        ensures
            built(
                self.key(),
                payload_text(self.payload()),
                (HeaderView {
                    alg: self.key().algorithm_name(),
                    nonce: nonce@,
                    url: url@,
                    jwk: None,
                    kid: Some(kid@),
                }).json(),
                message,
            ),
    {
        let header = header_json(self.key.algorithm(), nonce, url, None, Some(kid));
        self.build(header)
    }

    /// A message with the given header.
    fn build(&self, header: String) -> (message: Result<Message, Error>)
        ensures
            built(self.key(), payload_text(self.payload()), header@, message),
    {
        let protected = base64url(header.as_str().as_bytes());
        let text: String = match self.payload {
            Some(payload) => match payload.to_json() {
                Ok(t) => t,
                Err(err) => {
                    return Err(Error::caused_by("unable to serialize a given payload", &err));
                },
            },
            None => String::new(),
        };
        let payload = base64url(text.as_str().as_bytes());
        let signature = self.key.sign(protected.as_str(), payload.as_str());
        let message = Message::assemble(protected, payload, signature);
        proof {
            assert(payload_text(self.payload()) == Some(text@));
            assert(self.key().signs(encoded(header@), encoded(text@), signature) && assembled(
                encoded(header@),
                encoded(text@),
                signature,
                message,
            ));
            assert(signed(self.key(), header@, text@, message));
        }
        message
    }
}

} // verus!
