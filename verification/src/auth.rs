use crate::text::{
    chars_of, eq_ignore_case, eq_ignore_case_range, find_ascii_whitespace, find_char,
    first_ascii_whitespace, first_index, string_from_utf8, string_of, trim, trim_range,
};
use vstd::prelude::*;
use vstd::utf8::{decode_utf8, encode_utf8, valid_utf8};

verus! {

/// The error of an authorization header that is no Basic authorization.
#[derive(Debug, Copy, Clone)]
pub struct InvalidAuthorizationHeader;

impl InvalidAuthorizationHeader {
    /// The text that describes the error.
    pub fn message(&self) -> (text: String)
        ensures
            text@ == "invalid authorization header"@,
    {
        "invalid authorization header".to_owned()
    }
}

/// The credentials of a Basic authorization header.
pub struct BasicAuthorization {
    username: String,
    password: String,
}

impl View for BasicAuthorization {
    type V = (Seq<char>, Seq<char>);

    closed spec fn view(&self) -> (Seq<char>, Seq<char>) {
        (self.username@, self.password@)
    }
}

/// The bytes that `text` stands for in standard Base64 with padding, where
/// it is such an encoding.
pub uninterp spec fn base64_standard(text: Seq<u8>) -> Option<Seq<u8>>;

/// The view of optional bytes.
pub open spec fn bytes_view(bytes: Option<Vec<u8>>) -> Option<Seq<u8>> {
    match bytes {
        Some(b) => Some(b@),
        None => None,
    }
}

/// Decodes standard Base64.
///
/// Trusted: calls `base64::Engine::decode` of the engine
/// `base64::prelude::BASE64_STANDARD` and turns its error into `None`. What
/// the engine decodes a text to depends on the text alone; it is named
/// [`base64_standard`] here.
#[verifier::external_body]
fn decode_standard(text: &[u8]) -> (bytes: Option<Vec<u8>>)
    ensures
        bytes_view(bytes) == base64_standard(text@),
{
    base64::Engine::decode(&base64::prelude::BASE64_STANDARD, text).ok()
}

/// The credentials that the text of a colon-separated pair holds: what
/// stands before the first colon and what stands behind it.
pub open spec fn split_credentials(text: Seq<char>) -> Option<(Seq<char>, Seq<char>)> {
    let colon = first_index(text, ':');
    if 0 <= colon < text.len() {
        Some((text.subrange(0, colon), text.subrange(colon + 1, text.len() as int)))
    } else {
        None
    }
}

/// The credentials that decoded bytes hold, where they are UTF-8 text with a
/// colon in it.
pub open spec fn credentials_of(decoded: Option<Seq<u8>>) -> Option<(Seq<char>, Seq<char>)> {
    match decoded {
        Some(bytes) => if valid_utf8(bytes) {
            split_credentials(decode_utf8(bytes))
        } else {
            None
        },
        None => None,
    }
}

/// Where the name of the scheme ends in a header: at the first ASCII
/// whitespace, or at the start where there is none.
pub open spec fn scheme_end(header: Seq<char>) -> int {
    if first_ascii_whitespace(header) < header.len() {
        first_ascii_whitespace(header)
    } else {
        0
    }
}

/// The Base64 text of a Basic authorization header: what follows the scheme
/// `basic`, written in any case, without the whitespace around it. Nothing
/// where the header names another scheme or none.
pub open spec fn basic_payload(header: Seq<char>) -> Option<Seq<char>> {
    let end = scheme_end(header);
    if eq_ignore_case(header.subrange(0, end), "basic"@) {
        Some(trim(header.subrange(end, header.len() as int)))
    } else {
        None
    }
}

/// The credentials that an authorization header holds, if it is a Basic
/// authorization with a user name and a password.
pub open spec fn parse_basic(header: Seq<char>) -> Option<(Seq<char>, Seq<char>)> {
    match basic_payload(header) {
        Some(payload) => credentials_of(base64_standard(encode_utf8(payload))),
        None => None,
    }
}

impl BasicAuthorization {
    /// Credentials with the given user name and password.
    pub fn new(username: &str, password: &str) -> (auth: Self)
        ensures
            auth@ == (username@, password@),
    {
        BasicAuthorization { username: username.to_owned(), password: password.to_owned() }
    }

    /// The user name.
    pub fn username(&self) -> (username: &str)
        ensures
            username@ == self@.0,
    {
        self.username.as_str()
    }

    /// The password.
    pub fn password(&self) -> (password: &str)
        ensures
            password@ == self@.1,
    {
        self.password.as_str()
    }

    /// The credentials that decoded bytes hold: user name and password are
    /// what stands before and behind the first colon of their text.
    pub fn from_decoded(decoded: Option<Vec<u8>>) -> (auth: Result<Self, InvalidAuthorizationHeader>)
        ensures
            match auth {
                Ok(a) => credentials_of(bytes_view(decoded)) == Some(a@),
                Err(_) => credentials_of(bytes_view(decoded)) is None,
            },
    {
        let bytes = match decoded {
            Some(b) => b,
            None => { return Err(InvalidAuthorizationHeader); },
        };
        let text = match string_from_utf8(bytes) {
            Some(t) => t,
            None => { return Err(InvalidAuthorizationHeader); },
        };
        let chars = chars_of(text.as_str());
        let colon = find_char(&chars, 0, chars.len(), ':');
        assert(chars@.subrange(0, chars@.len() as int) =~= chars@);
        if colon < chars.len() {
            let username = string_of(&chars, 0, colon);
            let password = string_of(&chars, colon + 1, chars.len());
            Ok(BasicAuthorization { username, password })
        } else {
            Err(InvalidAuthorizationHeader)
        }
    }

    /// Reads the value of an authorization header.
    ///
    /// The header is accepted where it names the scheme `basic`, in any
    /// case, followed by whitespace and the standard Base64 encoding of
    /// UTF-8 text with a colon in it.
    pub fn from_str(s: &str) -> (auth: Result<Self, InvalidAuthorizationHeader>)
        ensures
            match auth {
                Ok(a) => parse_basic(s@) == Some(a@),
                Err(_) => parse_basic(s@) is None,
            },
    {
        let chars = chars_of(s);
        let found = find_ascii_whitespace(&chars);
        let end: usize = if found < chars.len() {
            found
        } else {
            0
        };
        if !eq_ignore_case_range(&chars, 0, end, "basic") {
            return Err(InvalidAuthorizationHeader);
        }
        let (a, b) = trim_range(&chars, end, chars.len());
        let payload = string_of(&chars, a, b);
        let decoded = decode_standard(payload.as_str().as_bytes());
        Self::from_decoded(decoded)
    }
}

} // verus!
