use crate::headers::{
    all_tokens, contains_token, has_token, is_upgrade, strip_hop_by_hop, text_of, value_text,
    values_of, without, HeaderMap,
};
use crate::text::{chars_of, find_char, first_index, str_eq, string_of, strip_prefix};
use vstd::prelude::*;
use vstd::utf8::{decode_utf8, encode_utf8};

verus! {

broadcast use vstd::utf8::group_utf8_lib;

/// The token that a device names in its `upgrade` header when it registers.
pub open spec fn device_protocol() -> Seq<char> {
    "goodcam-device-proxy"@
}

/// The path under which challenge tokens are served.
pub open spec fn challenge_prefix() -> Seq<char> {
    "/.well-known/acme-challenge/"@
}

/// The version of HTTP that a message was sent in.
#[derive(Clone, Copy, PartialEq, Eq, Structural, Debug)]
pub enum Version {
    Http09,
    Http10,
    Http11,
    Http2,
    Http3,
}

impl Version {
    /// The place of the version in the order of HTTP versions.
    pub open spec fn rank(self) -> int {
        match self {
            Version::Http09 => 0,
            Version::Http10 => 1,
            Version::Http11 => 2,
            Version::Http2 => 3,
            Version::Http3 => 4,
        }
    }

    /// Whether the version is older than HTTP/2.
    pub fn is_before_http2(self) -> (older: bool)
        ensures
            older == (self.rank() < Version::Http2.rank()),
    {
        match self {
            Version::Http09 | Version::Http10 | Version::Http11 => true,
            Version::Http2 | Version::Http3 => false,
        }
    }
}

/// The parts of a request target.
pub struct Uri {
    pub scheme: Option<String>,
    pub authority: Option<String>,
    pub path_and_query: Option<String>,
}

/// What a request target amounts to.
pub struct UriView {
    pub scheme: Option<Seq<char>>,
    pub authority: Option<Seq<char>>,
    pub path_and_query: Option<Seq<char>>,
}

/// The text of an optional string.
pub open spec fn text_view(text: Option<String>) -> Option<Seq<char>> {
    match text {
        Some(t) => Some(t@),
        None => None,
    }
}

impl View for Uri {
    type V = UriView;

    open spec fn view(&self) -> UriView {
        UriView {
            scheme: text_view(self.scheme),
            authority: text_view(self.authority),
            path_and_query: text_view(self.path_and_query),
        }
    }
}

impl UriView {
    /// The path of the target: what stands before the first `?`. A target
    /// with a scheme, or with anything in its path and query, has the path
    /// `/` where that part is empty; any other target has the empty path.
    pub open spec fn path(self) -> Seq<char> {
        let data = match self.path_and_query {
            Some(d) => d,
            None => Seq::empty(),
        };
        if data.len() > 0 || self.scheme is Some {
            let p = data.subrange(0, first_index(data, '?'));
            if p.len() == 0 {
                "/"@
            } else {
                p
            }
        } else {
            Seq::empty()
        }
    }

    /// The challenge token that the target asks for, if its path lies under
    /// the challenge prefix.
    pub open spec fn challenge_token(self) -> Option<Seq<char>> {
        if challenge_prefix().is_prefix_of(self.path()) {
            Some(self.path().subrange(challenge_prefix().len() as int, self.path().len() as int))
        } else {
            None
        }
    }
}

/// A copy of an optional string.
pub fn copy_text(text: &Option<String>) -> (copy: Option<String>)
    ensures
        text_view(copy) == text_view(*text),
{
    match text {
        Some(t) => Some(t.clone()),
        None => None,
    }
}

impl Uri {
    /// The path of the target.
    pub fn path(&self) -> (path: String)
        ensures
            path@ == self@.path(),
    {
        let data: Vec<char> = match &self.path_and_query {
            Some(d) => chars_of(d.as_str()),
            None => Vec::new(),
        };
        if data.len() > 0 || self.scheme.is_some() {
            let end = find_char(&data, 0, data.len(), '?');
            assert(data@.subrange(0, data@.len() as int) =~= data@);
            if end == 0 {
                assert(data@.subrange(0, 0).len() == 0);
                "/".to_owned()
            } else {
                string_of(&data, 0, end)
            }
        } else {
            String::new()
        }
    }

    /// A copy of the target.
    pub fn duplicate(&self) -> (copy: Self)
        ensures
            copy@ == self@,
    {
        Uri {
            scheme: copy_text(&self.scheme),
            authority: copy_text(&self.authority),
            path_and_query: copy_text(&self.path_and_query),
        }
    }
}

/// What is known of the connection that a request came in on.
pub struct ConnectionInfo {
    local_addr: String,
    remote_addr: String,
    is_https: bool,
}

/// What a [`ConnectionInfo`] amounts to.
pub struct InfoView {
    pub local_addr: Seq<char>,
    pub remote_addr: Seq<char>,
    pub is_https: bool,
}

impl View for ConnectionInfo {
    type V = InfoView;

    closed spec fn view(&self) -> InfoView {
        InfoView {
            local_addr: self.local_addr@,
            remote_addr: self.remote_addr@,
            is_https: self.is_https,
        }
    }
}

impl ConnectionInfo {
    /// The description of a connection between two socket addresses, each
    /// written as text.
    pub fn new(local_addr: &str, remote_addr: &str, is_https: bool) -> (info: Self)
        ensures
            info@ == (InfoView { local_addr: local_addr@, remote_addr: remote_addr@, is_https }),
    {
        ConnectionInfo {
            local_addr: local_addr.to_owned(),
            remote_addr: remote_addr.to_owned(),
            is_https,
        }
    }

    /// The local address that the socket is bound to.
    pub fn local_addr(&self) -> (addr: &str)
        ensures
            addr@ == self@.local_addr,
    {
        self.local_addr.as_str()
    }

    /// The address of the remote peer.
    pub fn remote_addr(&self) -> (addr: &str)
        ensures
            addr@ == self@.remote_addr,
    {
        self.remote_addr.as_str()
    }

    /// Whether the connection is an HTTPS connection.
    pub fn is_https(&self) -> (https: bool)
        ensures
            https == self@.is_https,
    {
        self.is_https
    }
}

/// The view of an optional connection description.
pub open spec fn info_view(info: Option<ConnectionInfo>) -> Option<InfoView> {
    match info {
        Some(i) => Some(i@),
        None => None,
    }
}

/// A request without its body.
pub struct RequestHead {
    pub method: String,
    pub uri: Uri,
    pub version: Version,
    pub headers: HeaderMap,
    /// The protocol that an extended CONNECT asks for.
    pub protocol: Option<String>,
    pub info: Option<ConnectionInfo>,
}

/// What a request head amounts to.
pub struct RequestView {
    pub method: Seq<char>,
    pub uri: UriView,
    pub version: Version,
    pub headers: Seq<(Seq<char>, Seq<u8>)>,
    pub protocol: Option<Seq<char>>,
    pub info: Option<InfoView>,
}

impl View for RequestHead {
    type V = RequestView;

    open spec fn view(&self) -> RequestView {
        RequestView {
            method: self.method@,
            uri: self.uri@,
            version: self.version,
            headers: self.headers@,
            protocol: text_view(self.protocol),
            info: info_view(self.info),
        }
    }
}

/// Whether `bytes` are accepted as the authority of a URI.
pub uninterp spec fn is_authority(bytes: Seq<u8>) -> bool;

/// The authority that `bytes` spell, where they spell one.
pub open spec fn authority_of(bytes: Seq<u8>) -> Option<Seq<char>> {
    if is_authority(bytes) {
        Some(decode_utf8(bytes))
    } else {
        None
    }
}

/// Reads `bytes` as the authority of a URI.
///
/// Trusted: calls `http::uri::Authority::try_from` on the bytes and hands out
/// the text of the authority it built. That function accepts the bytes or
/// not by its own rules, named [`is_authority`] here, and an authority it
/// accepts holds the very bytes it was given.
#[verifier::external_body]
fn authority_from_bytes(bytes: &[u8]) -> (authority: Option<String>)
    ensures
        authority is Some == is_authority(bytes@),
        authority matches Some(a) ==> encode_utf8(a@) == bytes@,
{
    match http::uri::Authority::try_from(bytes) {
        Ok(authority) => Some(authority.as_str().to_owned()),
        Err(_) => None,
    }
}

/// The authority that `bytes` spell, if they spell one.
pub fn parse_authority(bytes: &[u8]) -> (authority: Option<String>)
    ensures
        text_view(authority) == authority_of(bytes@),
{
    let authority = authority_from_bytes(bytes);
    proof {
        if authority is Some {
            assert(decode_utf8(encode_utf8(authority->0@)) == authority->0@);
        }
    }
    authority
}

impl RequestView {
    /// Whether a device registers with this request: an HTTP/1.1 `GET /`
    /// that asks for an upgrade of the connection to the device protocol.
    pub open spec fn is_device_request(self) -> bool {
        &&& self.version == Version::Http11
        &&& self.method == "GET"@
        &&& self.uri.path() == "/"@
        &&& is_upgrade(self.headers)
        &&& has_token(all_tokens(self.headers, "upgrade"@), device_protocol())
    }

    /// The scheme of the full URL: that of the target, or else the one that
    /// the connection was made with, `http` where nothing is known of it.
    pub open spec fn url_scheme(self) -> Seq<char> {
        match self.uri.scheme {
            Some(s) => s,
            None => if self.info matches Some(info) && info.is_https {
                "https"@
            } else {
                "http"@
            },
        }
    }

    /// The authority that the `host` header gives, if it gives one.
    pub open spec fn host_authority(self) -> Option<Seq<char>> {
        if values_of(self.headers, "host"@).len() > 0 {
            authority_of(values_of(self.headers, "host"@)[0])
        } else {
            None
        }
    }

    /// The authority of the full URL: that of the target, or else that of
    /// the `host` header, or else the address of the peer, or else
    /// `localhost`.
    pub open spec fn url_authority(self) -> Seq<char> {
        match self.uri.authority {
            Some(a) => a,
            None => match self.host_authority() {
                Some(a) => a,
                None => match self.info {
                    Some(info) => if is_authority(encode_utf8(info.remote_addr)) {
                        info.remote_addr
                    } else {
                        "localhost"@
                    },
                    None => "localhost"@,
                },
            },
        }
    }

    /// The full URL of the request, with scheme and authority.
    pub open spec fn url(self) -> UriView {
        UriView {
            scheme: Some(self.url_scheme()),
            authority: Some(self.url_authority()),
            path_and_query: self.uri.path_and_query,
        }
    }

    /// The protocol named by the first `upgrade` header: its text, or the
    /// empty text where there is no such header or its value is no text.
    pub open spec fn upgrade_protocol(self) -> Seq<char> {
        if values_of(self.headers, "upgrade"@).len() > 0 {
            match text_of(values_of(self.headers, "upgrade"@)[0]) {
                Some(t) => t,
                None => Seq::empty(),
            }
        } else {
            Seq::empty()
        }
    }

    /// The HTTP/2 request that carries this request to a device.
    ///
    /// A request for a connection upgrade becomes an extended CONNECT for
    /// the protocol that its `upgrade` header names. The hop-by-hop headers
    /// and `host` are left out.
    pub open spec fn h2_request(self) -> RequestView {
        RequestView {
            method: if is_upgrade(self.headers) {
                "CONNECT"@
            } else {
                self.method
            },
            uri: self.url(),
            version: Version::Http2,
            headers: without(strip_hop_by_hop(self.headers), "host"@),
            protocol: if is_upgrade(self.headers) {
                Some(self.upgrade_protocol())
            } else {
                self.protocol
            },
            info: None,
        }
    }
}

impl RequestHead {
    /// Whether a device registers with this request.
    pub fn is_device_request(&self) -> (device: bool)
        ensures
            device == self@.is_device_request(),
    {
        if !(self.version == Version::Http11) {
            return false;
        }
        if !str_eq(self.method.as_str(), "GET") {
            return false;
        }
        let path = self.uri.path();
        if !str_eq(path.as_str(), "/") {
            return false;
        }
        if !self.headers.is_connection_upgrade() {
            return false;
        }
        let tokens = self.headers.get_all_tokens("upgrade");
        contains_token(&tokens, "goodcam-device-proxy")
    }

    /// The challenge token that the request asks for, if its path lies under
    /// the challenge prefix.
    pub fn get_acme_challenge_token(&self) -> (token: Option<String>)
        ensures
            text_view(token) == self@.uri.challenge_token(),
    {
        let path = self.uri.path();
        strip_prefix(path.as_str(), "/.well-known/acme-challenge/")
    }

    /// The full URL of the request, with scheme and authority.
    ///
    /// A target without scheme and without path, as a CONNECT in authority
    /// form has it, cannot be completed to a URL: such a request is left out.
    pub fn get_url(&self) -> (url: Uri)
        requires
            self@.uri.path_and_query is Some,
        ensures
            url@ == self@.url(),
    {
        let scheme: String = match &self.uri.scheme {
            Some(s) => s.clone(),
            None => {
                let https = match &self.info {
                    Some(info) => info.is_https(),
                    None => false,
                };
                if https {
                    "https".to_owned()
                } else {
                    "http".to_owned()
                }
            },
        };
        let authority: String = match &self.uri.authority {
            Some(a) => a.clone(),
            None => {
                let from_host: Option<String> = match self.headers.get_named("host") {
                    Some(value) => parse_authority(value.as_slice()),
                    None => None,
                };
                match from_host {
                    Some(a) => a,
                    None => match &self.info {
                        Some(info) => {
                            match parse_authority(info.remote_addr().as_bytes()) {
                                Some(a) => {
                                    assert(decode_utf8(encode_utf8(info@.remote_addr))
                                        == info@.remote_addr);
                                    a
                                },
                                None => "localhost".to_owned(),
                            }
                        },
                        None => "localhost".to_owned(),
                    },
                }
            },
        };
        Uri {
            scheme: Some(scheme),
            authority: Some(authority),
            path_and_query: copy_text(&self.uri.path_and_query),
        }
    }

    /// The HTTP/2 request that carries this request to a device.
    pub fn to_h2_request(&self) -> (request: RequestHead)
        requires
            self@.uri.path_and_query is Some,
        ensures
            request@ == self@.h2_request(),
    {
        let upgrade = self.headers.is_connection_upgrade();
        let method: String = if upgrade {
            "CONNECT".to_owned()
        } else {
            self.method.clone()
        };
        let protocol: Option<String> = if upgrade {
            let named: Vec<char> = match self.headers.get_named("upgrade") {
                Some(value) => match value_text(value) {
                    Some(text) => text,
                    None => Vec::new(),
                },
                None => Vec::new(),
            };
            let text = string_of(&named, 0, named.len());
            assert(named@.subrange(0, named@.len() as int) =~= named@);
            Some(text)
        } else {
            copy_text(&self.protocol)
        };
        let mut headers = self.headers.duplicate();
        headers.remove_hop_by_hop_headers();
        headers.remove_named("host");
        RequestHead {
            method,
            uri: self.get_url(),
            version: Version::Http2,
            headers,
            protocol,
            info: None,
        }
    }
}

/// The body of a message: nothing, bytes that are at hand, or a stream that
/// delivers them.
pub enum Body<S> {
    Empty,
    Full(Vec<u8>),
    Stream(S),
}

/// A request with its body.
pub struct Request<S> {
    pub head: RequestHead,
    pub body: Body<S>,
}

/// A response without its body.
pub struct ResponseHead {
    pub status: u16,
    pub version: Version,
    pub headers: HeaderMap,
}

/// What a response head amounts to.
pub struct ResponseView {
    pub status: u16,
    pub version: Version,
    pub headers: Seq<(Seq<char>, Seq<u8>)>,
}

impl View for ResponseHead {
    type V = ResponseView;

    open spec fn view(&self) -> ResponseView {
        ResponseView { status: self.status, version: self.version, headers: self.headers@ }
    }
}

/// A response with its body.
pub struct Response<S> {
    pub head: ResponseHead,
    pub body: Body<S>,
}

} // verus!
