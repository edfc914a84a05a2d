use crate::challenge::{deregistered, registered, Challenge, ChallengeRegistrations};
use crate::error::{Error, ErrorView};
use crate::json::{json_string, member, write_string, write_text_member};
use crate::jws::{base64url, base64url_text, Payload};
use crate::text::{push_char, str_eq};
use vstd::prelude::*;

verus! {

/// The directory of Let's Encrypt.
pub const LETS_ENCRYPT_DIRECTORY: &'static str = "https://acme-v02.api.letsencrypt.org/directory";

/// The time between two looks at an authorization, in seconds.
pub const POLL_INTERVAL_SECS: u64 = 1;

/// The payload that asks for a new account.
pub struct NewAccountPayload {
    pub contact: Option<String>,
}

impl Payload for NewAccountPayload {
    open spec fn json(&self) -> Option<Seq<char>> {
        Some(
            "{\"termsOfServiceAgreed\":true,\"contact\":["@ + (match self.contact {
                Some(c) => json_string(c@),
                None => Seq::empty(),
            }) + "]}"@,
        )
    }

    fn to_json(&self) -> (text: Result<String, Error>) {
        let mut text = "{\"termsOfServiceAgreed\":true,\"contact\":[".to_owned();
        let ghost start = text@;
        match &self.contact {
            Some(c) => {
                write_string(&mut text, c.as_str());
            },
            None => {
                assert(text@ =~= start + Seq::<char>::empty());
            },
        }
        text.append("]}");
        Ok(text)
    }
}

/// The payload that orders a certificate for a host name.
pub struct NewOrderPayload {
    pub hostname: String,
}

impl Payload for NewOrderPayload {
    open spec fn json(&self) -> Option<Seq<char>> {
        Some(
            "{\"identifiers\":[{\"type\":\"dns\",\"value\":"@ + json_string(self.hostname@)
                + "}]}"@,
        )
    }

    fn to_json(&self) -> (text: Result<String, Error>) {
        let mut text = "{\"identifiers\":[{\"type\":\"dns\",\"value\":".to_owned();
        write_string(&mut text, self.hostname.as_str());
        text.append("}]}");
        Ok(text)
    }
}

/// The payload that is an object without members.
pub struct EmptyObject;

impl Payload for EmptyObject {
    open spec fn json(&self) -> Option<Seq<char>> {
        Some("{}"@)
    }

    fn to_json(&self) -> (text: Result<String, Error>) {
        Ok("{}".to_owned())
    }
}

/// The payload that finalizes an order with a certificate signing request.
pub struct FinalizePayload {
    pub csr: Vec<u8>,
}

impl Payload for FinalizePayload {
    open spec fn json(&self) -> Option<Seq<char>> {
        Some(seq!['{'] + member("csr"@, json_string(base64url_text(self.csr@))) + seq!['}'])
    }

    fn to_json(&self) -> (text: Result<String, Error>) {
        let encoded = base64url(self.csr.as_slice());
        let mut text = String::new();
        push_char(&mut text, '{');
        write_text_member(&mut text, "csr", encoded.as_str());
        push_char(&mut text, '}');
        assert(text@ =~= self.json()->0);
        Ok(text)
    }
}

/// The answer to a request for a new account.
pub struct NewAccountResponse {
    pub status: String,
}

/// The answer to a new order.
pub struct NewOrderResponse {
    pub authorizations: Vec<String>,
    pub finalize: String,
}

/// The state of an order.
pub struct OrderStatusResponse {
    pub status: String,
    pub certificate: Option<String>,
}

/// One challenge of an authorization.
pub struct ChallengeEntry {
    pub kind: String,
    pub url: String,
    pub token: String,
}

/// The state of an authorization.
pub struct AuthorizationResponse {
    pub status: String,
    pub challenges: Vec<ChallengeEntry>,
}

/// An ACME directory: where accounts and orders are made.
pub struct Directory {
    new_account_url: String,
    new_order_url: String,
}

/// An ACME account: where it lives, where its orders are made, and the
/// thumbprint of its key.
pub struct Account {
    account_url: String,
    new_order_url: String,
    thumbprint: String,
}

/// What an account amounts to.
pub struct AccountView {
    pub account_url: Seq<char>,
    pub new_order_url: Seq<char>,
    pub thumbprint: Seq<char>,
}

impl View for Account {
    type V = AccountView;

    closed spec fn view(&self) -> AccountView {
        AccountView {
            account_url: self.account_url@,
            new_order_url: self.new_order_url@,
            thumbprint: self.thumbprint@,
        }
    }
}

impl View for Directory {
    type V = (Seq<char>, Seq<char>);

    closed spec fn view(&self) -> (Seq<char>, Seq<char>) {
        (self.new_account_url@, self.new_order_url@)
    }
}

/// An order that has been placed and waits for its authorization.
pub struct PendingOrder {
    pub order_url: String,
    pub authorization_url: String,
    pub finalize_url: String,
}

/// An order with the challenge that authorizes it.
pub struct Order {
    http_challenge: Challenge,
    order_url: String,
    authorization_url: String,
    challenge_url: String,
    finalize_url: String,
}

/// What an order amounts to.
pub struct OrderView {
    pub challenge: (Seq<char>, Seq<char>),
    pub order_url: Seq<char>,
    pub authorization_url: Seq<char>,
    pub challenge_url: Seq<char>,
    pub finalize_url: Seq<char>,
}

impl View for Order {
    type V = OrderView;

    closed spec fn view(&self) -> OrderView {
        OrderView {
            challenge: self.http_challenge@,
            order_url: self.order_url@,
            authorization_url: self.authorization_url@,
            challenge_url: self.challenge_url@,
            finalize_url: self.finalize_url@,
        }
    }
}

/// The error with the message `msg` and no cause.
pub open spec fn failure(msg: Seq<char>) -> ErrorView {
    ErrorView { msg, cause: None }
}

impl Directory {
    /// The directory with the given URLs for new accounts and new orders.
    pub fn new(new_account_url: &str, new_order_url: &str) -> (directory: Self)
        ensures
            directory@ == (new_account_url@, new_order_url@),
    {
        Directory {
            new_account_url: new_account_url.to_owned(),
            new_order_url: new_order_url.to_owned(),
        }
    }

    /// Where a new account is asked for.
    pub fn new_account_url(&self) -> (url: &str)
        ensures
            url@ == self@.0,
    {
        self.new_account_url.as_str()
    }

    /// The payload that asks for a new account of the owner with the given
    /// contact URI.
    pub fn new_account_payload(contact: Option<&str>) -> (payload: NewAccountPayload)
        ensures
            match contact {
                Some(c) => payload.contact matches Some(p) && p@ == c@,
                None => payload.contact is None,
            },
    {
        NewAccountPayload {
            contact: match contact {
                Some(c) => Some(c.to_owned()),
                None => None,
            },
        }
    }

    /// The account that the directory has answered with.
    ///
    /// `location` is the location that the answer names, `answer` what its
    /// body says, or the error of reading it. The account is missing its
    /// URL without a location; an answer that cannot be read is passed on;
    /// an account whose status is not `valid` is refused.
    pub fn new_account(
        &self,
        location: Option<String>,
        answer: Result<NewAccountResponse, Error>,
        thumbprint: &str,
    ) -> (account: Result<Account, Error>)
        ensures
            match (location, answer) {
                (None, _) => account matches Err(e) && e@ == failure("missing account URL"@),
                (Some(_), Err(err)) => account matches Err(e) && e == err,
                (Some(url), Ok(a)) => if a.status@ == "valid"@ {
                    account matches Ok(acc) && acc@ == (AccountView {
                        account_url: url@,
                        new_order_url: self@.1,
                        thumbprint: thumbprint@,
                    })
                } else {
                    account matches Err(e) && e@ == failure("ACME account status: "@ + a.status@)
                },
            },
    {
        let account_url = match location {
            Some(url) => url,
            None => { return Err(Error::from_static_msg("missing account URL")); },
        };
        let answer = match answer {
            Ok(a) => a,
            Err(err) => { return Err(err); },
        };
        if !str_eq(answer.status.as_str(), "valid") {
            let mut msg = "ACME account status: ".to_owned();
            msg.append(answer.status.as_str());
            return Err(Error::from_msg(msg.as_str()));
        }
        Ok(
            Account {
                account_url,
                new_order_url: self.new_order_url.clone(),
                thumbprint: thumbprint.to_owned(),
            },
        )
    }
}

/// The key authorization of a challenge: its token, a full stop, and the
/// thumbprint of the account's key.
pub open spec fn key_authorization(token: Seq<char>, thumbprint: Seq<char>) -> Seq<char> {
    token + "."@ + thumbprint
}

/// Whether the challenge at place `i` is the first HTTP-01 challenge.
pub open spec fn is_first_http01(challenges: Seq<ChallengeEntry>, i: int) -> bool {
    &&& 0 <= i < challenges.len()
    &&& challenges[i].kind@ == "http-01"@
    &&& forall|j: int| 0 <= j < i ==> (#[trigger] challenges[j]).kind@ != "http-01"@
}

impl Account {
    /// The URL of the account, which identifies its key in messages.
    pub fn account_url(&self) -> (url: &str)
        ensures
            url@ == self@.account_url,
    {
        self.account_url.as_str()
    }

    /// Where new orders are placed.
    pub fn new_order_url(&self) -> (url: &str)
        ensures
            url@ == self@.new_order_url,
    {
        self.new_order_url.as_str()
    }

    /// The payload that orders a certificate for `hostname`.
    pub fn new_order_payload(hostname: &str) -> (payload: NewOrderPayload)
        ensures
            payload.hostname@ == hostname@,
    {
        NewOrderPayload { hostname: hostname.to_owned() }
    }

    /// The order that the server has answered a new order with.
    ///
    /// The order is missing its URL without a location; an answer that
    /// cannot be read is passed on; the first authorization of the answer is
    /// the one to be fulfilled, and an answer without any is refused.
    pub fn placed_order(location: Option<String>, answer: Result<NewOrderResponse, Error>) -> (placed:
        Result<PendingOrder, Error>)
        ensures
            match (location, answer) {
                (None, _) => placed matches Err(e) && e@ == failure("missing order URL"@),
                (Some(_), Err(err)) => placed matches Err(e) && e == err,
                (Some(url), Ok(a)) => if a.authorizations@.len() > 0 {
                    placed matches Ok(p) && p.order_url@ == url@ && p.authorization_url@
                        == a.authorizations@[0]@ && p.finalize_url@ == a.finalize@
                } else {
                    placed matches Err(e) && e@ == failure(
                        "no authorizations in the new-order response"@,
                    )
                },
            },
    {
        let order_url = match location {
            Some(url) => url,
            None => { return Err(Error::from_static_msg("missing order URL")); },
        };
        let answer = match answer {
            Ok(a) => a,
            Err(err) => { return Err(err); },
        };
        if answer.authorizations.len() == 0 {
            return Err(Error::from_static_msg("no authorizations in the new-order response"));
        }
        let authorization_url = answer.authorizations[0].clone();
        Ok(PendingOrder { order_url, authorization_url, finalize_url: answer.finalize })
    }

    /// The order with the challenge that authorizes it.
    ///
    /// The challenge is the first HTTP-01 challenge of the authorization,
    /// and its key authorization is made with the thumbprint of the
    /// account's key. An authorization without such a challenge is refused.
    pub fn new_order(&self, placed: PendingOrder, authorization: AuthorizationResponse) -> (order:
        Result<Order, Error>)
        ensures
            match order {
                Ok(o) => exists|i: int|
                    is_first_http01(authorization.challenges@, i) && o@ == (OrderView {
                        challenge: (
                            authorization.challenges@[i].token@,
                            key_authorization(
                                authorization.challenges@[i].token@,
                                self@.thumbprint,
                            ),
                        ),
                        order_url: placed.order_url@,
                        authorization_url: placed.authorization_url@,
                        challenge_url: authorization.challenges@[i].url@,
                        finalize_url: placed.finalize_url@,
                    }),
                Err(e) => e@ == failure("no HTTP challenge"@) && forall|j: int|
                    0 <= j < authorization.challenges@.len() ==> (
                    #[trigger] authorization.challenges@[j]).kind@ != "http-01"@,
            },
    {
        let mut i: usize = 0;
        while i < authorization.challenges.len()
            invariant
                i <= authorization.challenges@.len(),
                forall|j: int| 0 <= j < i ==> (#[trigger] authorization.challenges@[j]).kind@
                    != "http-01"@,
            decreases authorization.challenges@.len() - i,
        {
            let entry = &authorization.challenges[i];
            if str_eq(entry.kind.as_str(), "http-01") {
                let mut key_authorization = entry.token.clone();
                key_authorization.append(".");
                key_authorization.append(self.thumbprint.as_str());
                let http_challenge = Challenge::new(
                    entry.token.as_str(),
                    key_authorization.as_str(),
                );
                let order = Order {
                    http_challenge,
                    order_url: placed.order_url,
                    authorization_url: placed.authorization_url,
                    challenge_url: entry.url.clone(),
                    finalize_url: placed.finalize_url,
                };
                assert(is_first_http01(authorization.challenges@, i as int));
                return Ok(order);
            }
            i += 1;
        }
        Err(Error::from_static_msg("no HTTP challenge"))
    }
}

impl Order {
    /// The HTTP-01 challenge of the order.
    pub fn challenge(&self) -> (challenge: &Challenge)
        ensures
            challenge@ == self@.challenge,
    {
        &self.http_challenge
    }

    /// Where the order can be looked at.
    pub fn order_url(&self) -> (url: &str)
        ensures
            url@ == self@.order_url,
    {
        self.order_url.as_str()
    }

    /// Where the authorization can be looked at.
    pub fn authorization_url(&self) -> (url: &str)
        ensures
            url@ == self@.authorization_url,
    {
        self.authorization_url.as_str()
    }

    /// Where the server is told to validate the challenge.
    pub fn challenge_url(&self) -> (url: &str)
        ensures
            url@ == self@.challenge_url,
    {
        self.challenge_url.as_str()
    }

    /// Where the order is finalized.
    pub fn finalize_url(&self) -> (url: &str)
        ensures
            url@ == self@.finalize_url,
    {
        self.finalize_url.as_str()
    }
}

/// How far an issuance attempt has come.
#[derive(Clone, Copy, PartialEq, Eq, Structural, Debug)]
pub enum IssuanceState {
    /// The challenge is registered and the certificate signing request is
    /// being made.
    AwaitingRequest,
    /// The server is being told to validate the challenge.
    Confirming,
    /// The attempt waits until the server has fetched the challenge.
    AwaitingFetch,
    /// The authorization is looked at until it is valid.
    PollingAuthorization,
    /// The order is looked at until it is valid.
    PollingOrder,
    /// The certificate is being downloaded.
    Downloading,
    /// The attempt has ended.
    Finished,
}

/// What an issuance attempt learns.
pub enum IssuanceEvent {
    /// The certificate signing request has been made.
    Request(Vec<u8>),
    /// The server has taken the request to validate the challenge.
    Confirmed,
    /// The server has fetched the challenge.
    Fetched,
    /// The authorization has this status.
    Authorization(String),
    /// The order has this state.
    OrderStatus(OrderStatusResponse),
    /// The certificate chain has arrived.
    Certificate(Vec<u8>),
    /// A request has failed.
    Failed(Error),
}

/// What an issuance attempt does next.
pub enum IssuanceAction {
    /// It makes the certificate signing request.
    CreateRequest,
    /// It posts an empty object to the URL of the challenge.
    ConfirmChallenge(String),
    /// It waits until the challenge has been fetched.
    AwaitFetch,
    /// It looks at the authorization, after a wait of so many seconds.
    GetAuthorization(String, u64),
    /// It posts the certificate signing request to the finalize URL.
    Finalize(String, FinalizePayload),
    /// It looks at the order.
    GetOrder(String),
    /// It downloads the certificate from this URL.
    Download(String),
    /// It has ended with this certificate chain.
    Done(Vec<u8>),
    /// It has ended with this error.
    Fail(Error),
}

/// One attempt to have a certificate issued for an order.
pub struct Issuance {
    order: Order,
    csr: Vec<u8>,
    state: IssuanceState,
}

impl Issuance {
    /// The order of the attempt.
    pub closed spec fn order(&self) -> OrderView {
        self.order@
    }

    /// The certificate signing request of the attempt.
    pub closed spec fn csr(&self) -> Seq<u8> {
        self.csr@
    }

    /// How far the attempt has come.
    pub closed spec fn state(&self) -> IssuanceState {
        self.state
    }

    /// How far the attempt has come.
    pub fn current_state(&self) -> (state: IssuanceState)
        ensures
            state == self.state(),
    {
        self.state
    }

    /// Begins an attempt: the challenge of the order is registered, and the
    /// certificate signing request is to be made.
    pub fn start(order: Order, challenges: &mut ChallengeRegistrations) -> (begun: (
        Self,
        IssuanceAction,
    ))
        ensures
            final(challenges)@ == registered(old(challenges)@, order@.challenge),
            begun.0.order() == order@,
            begun.0.csr() == Seq::<u8>::empty(),
            begun.0.state() == IssuanceState::AwaitingRequest,
            begun.1 is CreateRequest,
    {
        challenges.register(order.challenge());
        (
            Issuance { order, csr: Vec::new(), state: IssuanceState::AwaitingRequest },
            IssuanceAction::CreateRequest,
        )
    }

    /// Ends the attempt with `action`: the challenge is deregistered.
    fn finish(&mut self, challenges: &mut ChallengeRegistrations, action: IssuanceAction) -> (done:
        IssuanceAction)
        ensures
            done == action,
            final(self).order() == old(self).order(),
            final(self).csr() == old(self).csr(),
            final(self).state() == IssuanceState::Finished,
            final(challenges)@ == deregistered(old(challenges)@, old(self).order().challenge.0),
    {
        challenges.deregister(self.order.challenge().token());
        self.state = IssuanceState::Finished;
        action
    }

    /// Takes the attempt one step further.
    ///
    /// With the certificate signing request at hand the server is told to
    /// validate the challenge. After that the attempt waits for the
    /// fetch of the challenge and then looks at the authorization, once a
    /// second while it is pending; a status other than `pending` and `valid`
    /// is fatal. With a valid authorization the order is finalized and
    /// looked at while it is processing; a status other than `processing`
    /// and `valid` is fatal, and so is a valid order without a certificate
    /// URL. The certificate is downloaded last. A failed request, or an
    /// event that does not belong to the state of the attempt, ends it.
    /// Whenever the attempt ends, the challenge is deregistered; until then
    /// the registrations stay as they are.
    pub fn step(&mut self, challenges: &mut ChallengeRegistrations, event: IssuanceEvent) -> (action:
        IssuanceAction)
        ensures
            final(self).order() == old(self).order(),
            !(old(self).state() == IssuanceState::AwaitingRequest && event is Request) ==> final(self).csr() == old(self).csr(),
            action is Done || action is Fail <==> final(self).state() == IssuanceState::Finished,
            final(self).state() == IssuanceState::Finished ==> final(challenges)@ == deregistered(
                old(challenges)@,
                old(self).order().challenge.0,
            ),
            final(self).state() != IssuanceState::Finished ==> final(challenges)@ == old(challenges)@,
            match (old(self).state(), event) {
                (_, IssuanceEvent::Failed(err)) => action matches IssuanceAction::Fail(e) && e
                    == err,
                (IssuanceState::AwaitingRequest, IssuanceEvent::Request(csr)) => action
                    matches IssuanceAction::ConfirmChallenge(url) && url@ == old(self).order().challenge_url && final(self).csr() == csr@ && final(self).state()
                    == IssuanceState::Confirming,
                (IssuanceState::Confirming, IssuanceEvent::Confirmed) => action is AwaitFetch
                    && final(self).state() == IssuanceState::AwaitingFetch,
                (IssuanceState::AwaitingFetch, IssuanceEvent::Fetched) => action
                    matches IssuanceAction::GetAuthorization(url, wait) && url@ == old(self).order().authorization_url && wait == 0 && final(self).state()
                    == IssuanceState::PollingAuthorization,
                (IssuanceState::PollingAuthorization, IssuanceEvent::Authorization(status)) => if status@
                    == "pending"@ {
                    action matches IssuanceAction::GetAuthorization(url, wait) && url@ == old(self).order().authorization_url && wait == POLL_INTERVAL_SECS && final(self).state() == IssuanceState::PollingAuthorization
                } else if status@ == "valid"@ {
                    action matches IssuanceAction::Finalize(url, payload) && url@ == old(self).order().finalize_url && payload.csr@ == old(self).csr() && final(self).state() == IssuanceState::PollingOrder
                } else {
                    action matches IssuanceAction::Fail(e) && e@ == failure(
                        "invalid authorization"@,
                    )
                },
                (IssuanceState::PollingOrder, IssuanceEvent::OrderStatus(order)) => if order.status@
                    == "processing"@ {
                    action matches IssuanceAction::GetOrder(url) && url@ == old(self).order().order_url && final(self).state() == IssuanceState::PollingOrder
                } else if order.status@ == "valid"@ {
                    match order.certificate {
                        Some(certificate) => action matches IssuanceAction::Download(url) && url
                            == certificate && final(self).state() == IssuanceState::Downloading,
                        None => action matches IssuanceAction::Fail(e) && e@ == failure(
                            "missing certificate URL"@,
                        ),
                    }
                } else {
                    action matches IssuanceAction::Fail(e) && e@ == failure("invalid order"@)
                },
                (IssuanceState::Downloading, IssuanceEvent::Certificate(chain)) => action
                    == IssuanceAction::Done(chain),
                _ => action matches IssuanceAction::Fail(e) && e@ == failure("unexpected event"@),
            },
    {
        let state = self.state;
        match event {
            IssuanceEvent::Failed(err) => self.finish(challenges, IssuanceAction::Fail(err)),
            IssuanceEvent::Request(csr) => {
                if state == IssuanceState::AwaitingRequest {
                    self.csr = csr;
                    self.state = IssuanceState::Confirming;
                    IssuanceAction::ConfirmChallenge(self.order.challenge_url().to_owned())
                } else {
                    self.unexpected(challenges)
                }
            },
            IssuanceEvent::Confirmed => {
                if state == IssuanceState::Confirming {
                    self.state = IssuanceState::AwaitingFetch;
                    IssuanceAction::AwaitFetch
                } else {
                    self.unexpected(challenges)
                }
            },
            IssuanceEvent::Fetched => {
                if state == IssuanceState::AwaitingFetch {
                    self.state = IssuanceState::PollingAuthorization;
                    IssuanceAction::GetAuthorization(self.order.authorization_url().to_owned(), 0)
                } else {
                    self.unexpected(challenges)
                }
            },
            IssuanceEvent::Authorization(status) => {
                if state == IssuanceState::PollingAuthorization {
                    if str_eq(status.as_str(), "pending") {
                        IssuanceAction::GetAuthorization(
                            self.order.authorization_url().to_owned(),
                            POLL_INTERVAL_SECS,
                        )
                    } else if str_eq(status.as_str(), "valid") {
                        self.state = IssuanceState::PollingOrder;
                        IssuanceAction::Finalize(
                            self.order.finalize_url().to_owned(),
                            FinalizePayload { csr: crate::headers::copy_bytes(&self.csr) },
                        )
                    } else {
                        self.finish(
                            challenges,
                            IssuanceAction::Fail(Error::from_static_msg("invalid authorization")),
                        )
                    }
                } else {
                    self.unexpected(challenges)
                }
            },
            IssuanceEvent::OrderStatus(order) => {
                if state == IssuanceState::PollingOrder {
                    if str_eq(order.status.as_str(), "processing") {
                        IssuanceAction::GetOrder(self.order.order_url().to_owned())
                    } else if str_eq(order.status.as_str(), "valid") {
                        match order.certificate {
                            Some(certificate) => {
                                self.state = IssuanceState::Downloading;
                                IssuanceAction::Download(certificate)
                            },
                            None => self.finish(
                                challenges,
                                IssuanceAction::Fail(
                                    Error::from_static_msg("missing certificate URL"),
                                ),
                            ),
                        }
                    } else {
                        self.finish(
                            challenges,
                            IssuanceAction::Fail(Error::from_static_msg("invalid order")),
                        )
                    }
                } else {
                    self.unexpected(challenges)
                }
            },
            IssuanceEvent::Certificate(chain) => {
                if state == IssuanceState::Downloading {
                    self.finish(challenges, IssuanceAction::Done(chain))
                } else {
                    self.unexpected(challenges)
                }
            },
        }
    }

    /// Ends the attempt because of an event that does not belong to its state.
    fn unexpected(&mut self, challenges: &mut ChallengeRegistrations) -> (action: IssuanceAction)
        ensures
            action matches IssuanceAction::Fail(e) && e@ == failure("unexpected event"@),
            final(self).order() == old(self).order(),
            final(self).csr() == old(self).csr(),
            final(self).state() == IssuanceState::Finished,
            final(challenges)@ == deregistered(old(challenges)@, old(self).order().challenge.0),
    {
        self.finish(challenges, IssuanceAction::Fail(Error::from_static_msg("unexpected event")))
    }
}

} // verus!
