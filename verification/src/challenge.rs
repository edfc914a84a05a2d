use crate::message::{Body, Response, ResponseHead, ResponseView, Version};
use crate::headers::HeaderMap;
use crate::table::Table;
use vstd::prelude::*;
use vstd::utf8::encode_utf8;

verus! {

/// An HTTP-01 challenge: the token that the certificate authority will ask
/// for, and the key authorization that answers it.
pub struct Challenge {
    token: String,
    key_authorization: String,
}

impl View for Challenge {
    type V = (Seq<char>, Seq<char>);

    closed spec fn view(&self) -> (Seq<char>, Seq<char>) {
        (self.token@, self.key_authorization@)
    }
}

impl Challenge {
    /// A challenge with the given token and key authorization.
    pub fn new(token: &str, key_authorization: &str) -> (challenge: Self)
        ensures
            challenge@ == (token@, key_authorization@),
    {
        Challenge { token: token.to_owned(), key_authorization: key_authorization.to_owned() }
    }

    /// The token, which identifies the challenge.
    pub fn token(&self) -> (token: &str)
        ensures
            token@ == self@.0,
    {
        self.token.as_str()
    }

    /// The key authorization, which answers the challenge.
    pub fn key_authorization(&self) -> (key_authorization: &str)
        ensures
            key_authorization@ == self@.1,
    {
        self.key_authorization.as_str()
    }
}

/// One registered challenge.
pub struct ChallengeRegistration {
    key_authorization: String,
    waiting: bool,
}

/// What a registered challenge amounts to: the answer, and whether the
/// issuance attempt still waits for the first fetch.
pub struct RegistrationView {
    pub key_authorization: Seq<char>,
    pub waiting: bool,
}

impl View for ChallengeRegistration {
    type V = RegistrationView;

    closed spec fn view(&self) -> RegistrationView {
        RegistrationView { key_authorization: self.key_authorization@, waiting: self.waiting }
    }
}

/// The head of the response to a challenge.
pub open spec fn challenge_head() -> ResponseView {
    ResponseView {
        status: 200,
        version: Version::Http11,
        headers: seq![("content-type"@, encode_utf8("application/octet-stream"@))],
    }
}

/// The registrations after `challenge` was registered.
pub open spec fn registered(
    registrations: Map<Seq<char>, RegistrationView>,
    challenge: (Seq<char>, Seq<char>),
) -> Map<Seq<char>, RegistrationView> {
    registrations.insert(
        challenge.0,
        RegistrationView { key_authorization: challenge.1, waiting: true },
    )
}

/// The body that answers a request for `token`, if the token is registered.
pub open spec fn answer(registrations: Map<Seq<char>, RegistrationView>, token: Seq<char>) -> Option<
    Seq<u8>,
> {
    if registrations.contains_key(token) {
        Some(encode_utf8(registrations[token].key_authorization))
    } else {
        None
    }
}

/// The registrations after a request for `token` was answered: the
/// registration of the token, if there is one, waits no longer.
pub open spec fn answered(registrations: Map<Seq<char>, RegistrationView>, token: Seq<char>) -> Map<
    Seq<char>,
    RegistrationView,
> {
    if registrations.contains_key(token) {
        registrations.insert(
            token,
            RegistrationView {
                key_authorization: registrations[token].key_authorization,
                waiting: false,
            },
        )
    } else {
        registrations
    }
}

/// The registrations after `token` was deregistered.
pub open spec fn deregistered(
    registrations: Map<Seq<char>, RegistrationView>,
    token: Seq<char>,
) -> Map<Seq<char>, RegistrationView> {
    registrations.remove(token)
}

/// The answer to a challenge request.
pub struct ChallengeResponse<S> {
    /// The response for the certificate authority.
    pub response: Response<S>,
    /// Whether this is the first answer for the token: once the response has
    /// been delivered, the waiting issuance attempt is to be told.
    pub first: bool,
}

/// The challenges that are registered at the moment, by token.
pub struct ChallengeRegistrations {
    inner: Table<ChallengeRegistration>,
}

impl View for ChallengeRegistrations {
    type V = Map<Seq<char>, RegistrationView>;

    closed spec fn view(&self) -> Map<Seq<char>, RegistrationView> {
        self.inner@.map_values(|r: ChallengeRegistration| r@)
    }
}

impl ChallengeRegistrations {
    /// No registrations.
    pub fn new() -> (registrations: Self)
        ensures
            registrations@ == Map::<Seq<char>, RegistrationView>::empty(),
    {
        let registrations = ChallengeRegistrations { inner: Table::new() };
        assert(registrations@ =~= Map::<Seq<char>, RegistrationView>::empty());
        registrations
    }

    /// Registers `challenge`, in the place of any registration of its token.
    pub fn register(&mut self, challenge: &Challenge)
        ensures
            final(self)@ == registered(old(self)@, challenge@),
    {
        let registration = ChallengeRegistration {
            key_authorization: challenge.key_authorization().to_owned(),
            waiting: true,
        };
        self.inner.insert(challenge.token(), registration);
        assert(self@ =~= registered(old(self)@, challenge@));
    }

    /// The response to a request for `token`, or nothing where the token is
    /// not registered.
    pub fn create_response<S>(&mut self, token: &str) -> (made: Option<ChallengeResponse<S>>)
        ensures
            final(self)@ == answered(old(self)@, token@),
            match made {
                Some(m) => {
                    &&& old(self)@.contains_key(token@)
                    &&& m.first == old(self)@[token@].waiting
                    &&& m.response.head@ == challenge_head()
                    &&& m.response.body matches Body::Full(bytes) && Some(bytes@) == answer(
                        old(self)@,
                        token@,
                    )
                },
                None => !old(self)@.contains_key(token@),
            },
    {
        match self.inner.remove(token) {
            Some(registration) => {
                let first = registration.waiting;
                let body = registration.key_authorization.as_str().as_bytes_vec();
                let served = ChallengeRegistration {
                    key_authorization: registration.key_authorization,
                    waiting: false,
                };
                self.inner.insert(token, served);
                assert(self@ =~= answered(old(self)@, token@));
                let mut headers = HeaderMap::new();
                headers.push_named("content-type", "application/octet-stream".as_bytes_vec());
                let response = Response {
                    head: ResponseHead { status: 200, version: Version::Http11, headers },
                    body: Body::Full(body),
                };
                Some(ChallengeResponse { response, first })
            },
            None => {
                assert(self@ =~= old(self)@);
                None
            },
        }
    }

    /// Whether the challenge of `token` is registered and has been fetched.
    pub fn is_authorized(&self, token: &str) -> (fetched: bool)
        ensures
            fetched == (self@.contains_key(token@) && !self@[token@].waiting),
    {
        match self.inner.get(token) {
            Some(registration) => !registration.waiting,
            None => false,
        }
    }

    /// Removes the registration of `token`.
    pub fn deregister(&mut self, token: &str)
        ensures
            final(self)@ == deregistered(old(self)@, token@),
    {
        self.inner.remove(token);
        assert(self@ =~= deregistered(old(self)@, token@));
    }
}

/// A registered challenge is answered with its key authorization, on every
/// request and whatever else is registered; once it is deregistered there is
/// no answer any more.
pub proof fn law_challenge_round_trip(
    registrations: Map<Seq<char>, RegistrationView>,
    challenge: (Seq<char>, Seq<char>),
)
    ensures
        answer(registered(registrations, challenge), challenge.0) == Some(
            encode_utf8(challenge.1),
        ),
        answer(answered(registered(registrations, challenge), challenge.0), challenge.0) == Some(
            encode_utf8(challenge.1),
        ),
        answer(deregistered(registered(registrations, challenge), challenge.0), challenge.0)
            is None,
        answer(
            deregistered(answered(registered(registrations, challenge), challenge.0), challenge.0),
            challenge.0,
        ) is None,
{
}

/// Only the first answer for a registered token finds the issuance attempt
/// waiting.
pub proof fn law_first_fetch_signals_once(
    registrations: Map<Seq<char>, RegistrationView>,
    challenge: (Seq<char>, Seq<char>),
)
    ensures
        registered(registrations, challenge)[challenge.0].waiting,
        !answered(registered(registrations, challenge), challenge.0)[challenge.0].waiting,
        !answered(
            answered(registered(registrations, challenge), challenge.0),
            challenge.0,
        )[challenge.0].waiting,
{
}

} // verus!
