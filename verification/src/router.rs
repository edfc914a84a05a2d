use crate::auth::{parse_basic, BasicAuthorization};
use crate::challenge::{answer, answered, challenge_head, ChallengeRegistrations, RegistrationView};
use crate::device::{random_session_id, DeviceManager, EntryState};
use crate::error::{Error, ErrorView, HttpError, HttpErrorKind};
use crate::headers::{text_of, value_text, values_of, HeaderMap};
use crate::message::{
    Body, Request, RequestHead, RequestView, Response, ResponseHead, ResponseView, Version,
};
use crate::response::{
    bad_gateway, empty_head, internal_server_error, is_location, redirect_head, temporary_redirect,
    unauthorized,
};
use crate::text::string_of;
use vstd::prelude::*;
use vstd::utf8::encode_utf8;

verus! {

/// The time that a device has for its handshake after the upgrade, in seconds.
pub const DEVICE_HANDSHAKE_TIMEOUT_SECS: u64 = 60;

/// What the device handler decides about a device that wants to connect.
pub enum DeviceHandlerResult {
    /// The device may connect.
    Accept,
    /// The device is turned away.
    Unauthorized,
    /// The device is sent to another location.
    Redirect(String),
}

impl DeviceHandlerResult {
    /// The device may connect.
    pub fn accept() -> (result: Self)
        ensures
            result is Accept,
    {
        DeviceHandlerResult::Accept
    }

    /// The device is turned away.
    pub fn unauthorized() -> (result: Self)
        ensures
            result is Unauthorized,
    {
        DeviceHandlerResult::Unauthorized
    }

    /// The device is sent to `location`.
    pub fn redirect(location: &str) -> (result: Self)
        ensures
            result matches DeviceHandlerResult::Redirect(l) && l@ == location@,
    {
        DeviceHandlerResult::Redirect(location.to_owned())
    }
}

/// What the client handler decides about a client request.
pub enum ClientHandlerResult<S> {
    /// The request goes to the device with the given identifier.
    Forward(String, Request<S>),
    /// The request is not forwarded; the client gets the given response.
    Block(Response<S>),
}

impl<S> ClientHandlerResult<S> {
    /// The request goes to the device `device_id`.
    pub fn forward(device_id: &str, request: Request<S>) -> (result: Self)
        ensures
            result matches ClientHandlerResult::Forward(id, r) && id@ == device_id@ && r
                == request,
    {
        ClientHandlerResult::Forward(device_id.to_owned(), request)
    }

    /// The request is not forwarded; the client gets `response`.
    pub fn block(response: Response<S>) -> (result: Self)
        ensures
            result == ClientHandlerResult::Block(response),
    {
        ClientHandlerResult::Block(response)
    }
}

/// The decisions that the proxy leaves to its user: which devices may
/// connect, and where client requests go.
pub trait BlockingRequestHandler<S> {
    /// Decides about a device that wants to connect with the given
    /// credentials.
    fn handle_device_request(&self, authorization: BasicAuthorization) -> Result<
        DeviceHandlerResult,
        Error,
    >;

    /// Decides about a client request.
    fn handle_client_request(&self, request: Request<S>) -> Result<ClientHandlerResult<S>, Error>;
}

/// A request handler in the form in which the router calls it.
pub struct RequestHandlerAdapter<T> {
    inner: T,
}

impl<T> RequestHandlerAdapter<T> {
    /// The adapter of `handler`.
    pub fn new(handler: T) -> (adapter: Self)
        ensures
            adapter.handler() == handler,
    {
        RequestHandlerAdapter { inner: handler }
    }

    /// The handler that the adapter calls.
    pub closed spec fn handler(self) -> T {
        self.inner
    }

    /// Asks the handler about a device: the verdict is the one that the
    /// handler gives for these credentials.
    pub fn handle_device_request<S>(&self, authorization: BasicAuthorization) -> (verdict: Result<
        DeviceHandlerResult,
        Error,
    >) where T: BlockingRequestHandler<S>
        ensures
            call_ensures(
                <T as BlockingRequestHandler<S>>::handle_device_request,
                (&self.handler(), authorization),
                verdict,
            ),
    {
        self.inner.handle_device_request(authorization)
    }

    /// Asks the handler about a client request: the verdict is the one that
    /// the handler gives for this request.
    pub fn handle_client_request<S>(&self, request: Request<S>) -> (verdict: Result<
        ClientHandlerResult<S>,
        Error,
    >) where T: BlockingRequestHandler<S>
        ensures
            call_ensures(
                <T as BlockingRequestHandler<S>>::handle_client_request,
                (&self.handler(), request),
                verdict,
            ),
    {
        self.inner.handle_client_request(request)
    }
}

/// What is to be done about a request.
pub enum Routed<S> {
    /// The client gets this response.
    Respond(Response<S>),
    /// The certificate authority gets this response to its challenge. Once
    /// the first response for a token has been delivered, the issuance
    /// attempt that waits for it is told.
    Challenge { response: Response<S>, token: String, first: bool },
    /// The device gets this response, and its connection becomes the tunnel
    /// of the given session.
    Upgrade { response: Response<S>, device_id: String, session_id: u128, request: Request<S> },
    /// The request goes to the given device, which was connected when the
    /// decision was made.
    Forward { device_id: String, request: Request<S> },
}

/// The kinds of request that the router tells apart.
pub enum RequestKind {
    /// A request for the challenge with this token, which is registered.
    Challenge(Seq<char>),
    /// A device that wants to connect.
    Device,
    /// Anything else: a request of a client.
    Client,
}

/// The kind of a request, given the challenges that are registered.
pub open spec fn kind_of(request: RequestView, challenges: Map<Seq<char>, RegistrationView>) -> RequestKind {
    if request.uri.challenge_token() is Some && challenges.contains_key(
        request.uri.challenge_token()->0,
    ) {
        RequestKind::Challenge(request.uri.challenge_token()->0)
    } else if request.is_device_request() {
        RequestKind::Device
    } else {
        RequestKind::Client
    }
}

/// The credentials that a request carries: those of its first
/// `authorization` header, where that is text and a Basic authorization.
pub open spec fn credentials(request: RequestView) -> Option<(Seq<char>, Seq<char>)> {
    if values_of(request.headers, "authorization"@).len() > 0 {
        match text_of(values_of(request.headers, "authorization"@)[0]) {
            Some(text) => parse_basic(text),
            None => None,
        }
    } else {
        None
    }
}

/// The head of the response that accepts a device.
pub open spec fn switching_head() -> ResponseView {
    ResponseView {
        status: 101,
        version: Version::Http11,
        headers: seq![("upgrade"@, encode_utf8("goodcam-device-proxy"@))],
    }
}

/// The credentials that a request carries.
///
/// A request without an `authorization` header, or with one that is no
/// Basic authorization, is unauthorized.
pub fn device_authorization(request: &RequestHead) -> (auth: Result<BasicAuthorization, HttpError>)
    ensures
        match auth {
            Ok(a) => credentials(request@) == Some(a@),
            Err(e) => credentials(request@) is None && e@ == HttpErrorKind::Unauthorized,
        },
{
    let value = match request.headers.get_named("authorization") {
        Some(v) => v,
        None => { return Err(HttpError::unauthorized()); },
    };
    let chars = match value_text(value) {
        Some(c) => c,
        None => { return Err(HttpError::unauthorized()); },
    };
    let text = string_of(&chars, 0, chars.len());
    assert(chars@.subrange(0, chars@.len() as int) =~= chars@);
    match BasicAuthorization::from_str(text.as_str()) {
        Ok(a) => Ok(a),
        Err(_) => Err(HttpError::unauthorized()),
    }
}

/// What the verdict of the device handler means for the device: whether
/// `routed` is what follows from `verdict`.
///
/// An accepted device gets 101 and its connection becomes a tunnel; one
/// that is turned away gets 401; one that is redirected gets 307 with the
/// location. An error of the handler is passed on, and a location that
/// cannot stand in a header is an error too.
pub open spec fn device_decided<S>(
    verdict: Result<DeviceHandlerResult, Error>,
    device_id: String,
    session_id: u128,
    request: Request<S>,
    routed: Result<Routed<S>, Error>,
) -> bool {
    match verdict {
        Ok(DeviceHandlerResult::Accept) => routed matches Ok(
            Routed::Upgrade { response, device_id: id, session_id: session, request: r },
        ) && response.head@ == switching_head() && response.body is Empty && id == device_id
            && session == session_id && r == request,
        Ok(DeviceHandlerResult::Unauthorized) => routed matches Ok(Routed::Respond(response))
            && response.head@ == empty_head(401) && response.body is Empty,
        Ok(DeviceHandlerResult::Redirect(location)) => if crate::headers::is_value(
            encode_utf8(location@),
        ) {
            routed matches Ok(Routed::Respond(response)) && response.head@ == redirect_head(
                location@,
            ) && response.body is Empty
        } else {
            routed matches Err(e) && e@ == (ErrorView {
                msg: "invalid redirect location"@,
                cause: None,
            })
        },
        Err(err) => routed matches Err(e) && e == err,
    }
}

/// What the verdict of the client handler means for the request: whether
/// `routed` is what follows from `verdict` when `devices` are connected.
///
/// A blocked request is answered as the handler says. A request for a
/// device that is connected is forwarded to it; one for a device that is
/// not connected is answered with 502. An error of the handler is passed on.
pub open spec fn client_decided<S, R>(
    devices: Map<Seq<char>, EntryState<R>>,
    verdict: Result<ClientHandlerResult<S>, Error>,
    routed: Result<Routed<S>, Error>,
) -> bool {
    match verdict {
        Ok(ClientHandlerResult::Block(response)) => routed == Ok::<Routed<S>, Error>(
            Routed::Respond(response),
        ),
        Ok(ClientHandlerResult::Forward(device_id, request)) => if devices.contains_key(
            device_id@,
        ) {
            routed == Ok::<Routed<S>, Error>(Routed::Forward { device_id, request })
        } else {
            routed matches Ok(Routed::Respond(response)) && response.head@ == empty_head(502)
                && response.body is Empty
        },
        Err(err) => routed matches Err(e) && e == err,
    }
}

/// Whether `outcome` is `decided` with its error turned into an error of
/// request handling that has no response of its own.
pub open spec fn lifted<S>(
    decided: Result<Routed<S>, Error>,
    outcome: Result<Routed<S>, HttpError>,
) -> bool {
    match decided {
        Ok(routed) => outcome == Ok::<Routed<S>, HttpError>(routed),
        Err(err) => outcome matches Err(e) && e@ == HttpErrorKind::Other(err@),
    }
}

/// Whether `routed` is what is done about a request whose handling gave
/// `outcome`: an error is answered with the response that it knows, or else
/// with 500.
pub open spec fn settled<S>(outcome: Result<Routed<S>, HttpError>, routed: Routed<S>) -> bool {
    match outcome {
        Ok(r) => routed == r,
        Err(e) => routed matches Routed::Respond(response) && response.body is Empty
            && response.head@ == empty_head(
            match e@.status() {
                Some(status) => status,
                None => 500,
            },
        ),
    }
}

/// Whether `verdict` is a verdict that `handler` gives about a device with
/// the credentials `auth`.
pub open spec fn device_verdict<T: BlockingRequestHandler<S>, S>(
    handler: T,
    auth: (Seq<char>, Seq<char>),
    verdict: Result<DeviceHandlerResult, Error>,
) -> bool {
    exists|authorization: BasicAuthorization|
        authorization@ == auth && #[trigger] call_ensures(
            <T as BlockingRequestHandler<S>>::handle_device_request,
            (&handler, authorization),
            verdict,
        )
}

/// Whether `verdict` is a verdict that `handler` gives about the client
/// request `request`.
pub open spec fn client_verdict<T: BlockingRequestHandler<S>, S>(
    handler: T,
    request: Request<S>,
    verdict: Result<ClientHandlerResult<S>, Error>,
) -> bool {
    call_ensures(
        <T as BlockingRequestHandler<S>>::handle_client_request,
        (&handler, request),
        verdict,
    )
}

/// Whether `outcome` is what handling a device request with the
/// credentials `auth` gives: what follows from the verdict that `handler`
/// gives about these credentials, for a device with the user name as its
/// identifier and for some session.
pub open spec fn device_routed<T: BlockingRequestHandler<S>, S>(
    handler: T,
    auth: (Seq<char>, Seq<char>),
    request: Request<S>,
    outcome: Result<Routed<S>, HttpError>,
) -> bool {
    exists|
        verdict: Result<DeviceHandlerResult, Error>,
        device_id: String,
        session_id: u128,
        decided: Result<Routed<S>, Error>,
    |
        device_verdict(handler, auth, verdict) && device_id@ == auth.0
            && #[trigger] device_decided(verdict, device_id, session_id, request, decided)
            && lifted(decided, outcome)
}

/// Whether `outcome` is what handling the client request `request` gives
/// when `devices` are connected: what follows from the verdict that
/// `handler` gives about the request.
pub open spec fn client_routed<T: BlockingRequestHandler<S>, S, R>(
    handler: T,
    devices: Map<Seq<char>, EntryState<R>>,
    request: Request<S>,
    outcome: Result<Routed<S>, HttpError>,
) -> bool {
    exists|verdict: Result<ClientHandlerResult<S>, Error>, decided: Result<Routed<S>, Error>|
        client_verdict(handler, request, verdict) && #[trigger] client_decided(
            devices,
            verdict,
            decided,
        ) && lifted(decided, outcome)
}

/// What the verdict of the device handler means for the device.
pub fn device_decision<S>(
    verdict: Result<DeviceHandlerResult, Error>,
    device_id: String,
    session_id: u128,
    request: Request<S>,
) -> (routed: Result<Routed<S>, Error>)
    ensures
        device_decided(verdict, device_id, session_id, request, routed),
{
    match verdict {
        Ok(DeviceHandlerResult::Accept) => {
            let mut headers = HeaderMap::new();
            headers.push_named("upgrade", "goodcam-device-proxy".as_bytes_vec());
            let response = Response {
                head: ResponseHead { status: 101, version: Version::Http11, headers },
                body: Body::Empty,
            };
            Ok(Routed::Upgrade { response, device_id, session_id, request })
        },
        Ok(DeviceHandlerResult::Unauthorized) => Ok(Routed::Respond(unauthorized())),
        Ok(DeviceHandlerResult::Redirect(location)) => {
            if is_location(location.as_str()) {
                Ok(Routed::Respond(temporary_redirect(location.as_str())))
            } else {
                Err(Error::from_static_msg("invalid redirect location"))
            }
        },
        Err(err) => Err(err),
    }
}

/// What the verdict of the client handler means for the request.
pub fn client_decision<S, R>(
    devices: &DeviceManager<R>,
    verdict: Result<ClientHandlerResult<S>, Error>,
) -> (routed: Result<Routed<S>, Error>)
    ensures
        client_decided(devices@, verdict, routed),
{
    match verdict {
        Ok(ClientHandlerResult::Block(response)) => Ok(Routed::Respond(response)),
        Ok(ClientHandlerResult::Forward(device_id, request)) => {
            if devices.get(device_id.as_str()).is_some() {
                Ok(Routed::Forward { device_id, request })
            } else {
                Ok(Routed::Respond(bad_gateway()))
            }
        },
        Err(err) => Err(err),
    }
}

/// The response that the client gets once forwarding has ended: that of the
/// device, or 502 where forwarding failed.
pub fn forward_response<S>(outcome: Result<Response<S>, Error>) -> (response: Response<S>)
    ensures
        match outcome {
            Ok(r) => response == r,
            Err(_) => response.head@ == empty_head(502) && response.body is Empty,
        },
{
    match outcome {
        Ok(response) => response,
        Err(_) => bad_gateway(),
    }
}

/// The response for an error of request handling: the one that the error
/// knows, or else 500.
pub fn error_response<S>(err: &HttpError) -> (response: Response<S>)
    ensures
        response.body is Empty,
        response.head@ == empty_head(
            match err@.status() {
                Some(status) => status,
                None => 500,
            },
        ),
{
    match err.to_response() {
        Some(response) => response,
        None => internal_server_error(),
    }
}

/// The router of the proxy: it knows the registered challenges and the
/// connected devices, and asks the user's handler for the rest.
pub struct InternalRequestHandler<T, R> {
    pub acme_challenges: ChallengeRegistrations,
    pub devices: DeviceManager<R>,
    pub handler: RequestHandlerAdapter<T>,
}

impl<T, R> InternalRequestHandler<T, R> {
    /// A router without challenges and devices.
    pub fn new(handler: T) -> (router: Self)
        ensures
            router.acme_challenges@ == Map::<Seq<char>, RegistrationView>::empty(),
            router.devices@ == Map::<Seq<char>, EntryState<R>>::empty(),
            router.handler.handler() == handler,
    {
        InternalRequestHandler {
            acme_challenges: ChallengeRegistrations::new(),
            devices: DeviceManager::new(),
            handler: RequestHandlerAdapter::new(handler),
        }
    }

    /// Decides what is to be done about `request`.
    ///
    /// A request for a registered challenge is answered from the
    /// registration. A device that wants to connect is answered with 401
    /// where it carries no valid credentials; otherwise the handler decides.
    /// Any other request is a client request, which the handler decides
    /// about. An error is answered with the response that it knows, or else
    /// with 500. The registry of devices stays as it is.
    pub fn handle_request<S>(&mut self, request: Request<S>) -> (routed: Routed<S>) where
        T: BlockingRequestHandler<S>,

        ensures
            final(self).devices@ == old(self).devices@,
            final(self).handler == old(self).handler,
            match kind_of(request.head@, old(self).acme_challenges@) {
                RequestKind::Challenge(token) => {
                    &&& final(self).acme_challenges@ == answered(old(self).acme_challenges@, token)
                    &&& routed matches Routed::Challenge { response, token: t, first }
                    &&& t@ == token
                    &&& first == old(self).acme_challenges@[token].waiting
                    &&& response.head@ == challenge_head()
                    &&& response.body matches Body::Full(bytes) && Some(bytes@) == answer(
                        old(self).acme_challenges@,
                        token,
                    )
                },
                RequestKind::Device => {
                    &&& final(self).acme_challenges@ == old(self).acme_challenges@
                    &&& match credentials(request.head@) {
                        None => routed matches Routed::Respond(response) && response.head@
                            == empty_head(401) && response.body is Empty,
                        Some(auth) => exists|outcome: Result<Routed<S>, HttpError>|
                            #[trigger] device_routed(
                                old(self).handler.handler(),
                                auth,
                                request,
                                outcome,
                            ) && settled(outcome, routed),
                    }
                },
                RequestKind::Client => {
                    &&& final(self).acme_challenges@ == old(self).acme_challenges@
                    &&& exists|outcome: Result<Routed<S>, HttpError>|
                        #[trigger] client_routed(
                            old(self).handler.handler(),
                            old(self).devices@,
                            request,
                            outcome,
                        ) && settled(outcome, routed)
                },
            },
    {
        let outcome = self.handle_request_inner(request);
        let ghost given = outcome;
        let routed = match outcome {
            Ok(routed) => routed,
            Err(err) => Routed::Respond(error_response(&err)),
        };
        assert(settled(given, routed));
        routed
    }

    /// Decides what is to be done about `request`, or fails.
    fn handle_request_inner<S>(&mut self, request: Request<S>) -> (routed: Result<
        Routed<S>,
        HttpError,
    >) where T: BlockingRequestHandler<S>
        ensures
            final(self).devices@ == old(self).devices@,
            final(self).handler == old(self).handler,
            match kind_of(request.head@, old(self).acme_challenges@) {
                RequestKind::Challenge(token) => {
                    &&& final(self).acme_challenges@ == answered(old(self).acme_challenges@, token)
                    &&& routed matches Ok(Routed::Challenge { response, token: t, first })
                    &&& t@ == token
                    &&& first == old(self).acme_challenges@[token].waiting
                    &&& response.head@ == challenge_head()
                    &&& response.body matches Body::Full(bytes) && Some(bytes@) == answer(
                        old(self).acme_challenges@,
                        token,
                    )
                },
                RequestKind::Device => {
                    &&& final(self).acme_challenges@ == old(self).acme_challenges@
                    &&& match credentials(request.head@) {
                        None => routed matches Err(e) && e@ == HttpErrorKind::Unauthorized,
                        Some(auth) => device_routed(
                            old(self).handler.handler(),
                            auth,
                            request,
                            routed,
                        ),
                    }
                },
                RequestKind::Client => {
                    &&& final(self).acme_challenges@ == old(self).acme_challenges@
                    &&& client_routed(
                        old(self).handler.handler(),
                        old(self).devices@,
                        request,
                        routed,
                    )
                },
            },
    {
        if let Some(token) = request.head.get_acme_challenge_token() {
            if let Some(made) = self.acme_challenges.create_response(token.as_str()) {
                return Ok(
                    Routed::Challenge { response: made.response, token, first: made.first },
                );
            }
        }
        if request.head.is_device_request() {
            self.handle_device_request(request)
        } else {
            self.handle_client_request(request)
        }
    }

    /// Decides about a device that wants to connect.
    fn handle_device_request<S>(&self, request: Request<S>) -> (routed: Result<
        Routed<S>,
        HttpError,
    >) where T: BlockingRequestHandler<S>
        ensures
            match credentials(request.head@) {
                None => routed matches Err(e) && e@ == HttpErrorKind::Unauthorized,
                Some(auth) => device_routed(self.handler.handler(), auth, request, routed),
            },
    {
        let session_id = random_session_id();
        let authorization = match device_authorization(&request.head) {
            Ok(a) => a,
            Err(e) => { return Err(e); },
        };
        let device_id = authorization.username().to_owned();
        let ghost asked = authorization;
        let verdict = self.handler.handle_device_request::<S>(authorization);
        proof {
            assert(call_ensures(
                <T as BlockingRequestHandler<S>>::handle_device_request,
                (&self.handler.handler(), asked),
                verdict,
            ));
            assert(device_verdict(self.handler.handler(), asked@, verdict));
        }
        let decided = device_decision(verdict, device_id, session_id, request);
        let ghost given = decided;
        let routed = match decided {
            Ok(routed) => Ok(routed),
            Err(err) => Err(HttpError::from_error(err)),
        };
        proof {
            assert(device_decided(verdict, device_id, session_id, request, given));
            assert(lifted(given, routed));
        }
        routed
    }

    /// Decides about a client request.
    fn handle_client_request<S>(&self, request: Request<S>) -> (routed: Result<
        Routed<S>,
        HttpError,
    >) where T: BlockingRequestHandler<S>
        ensures
            client_routed(self.handler.handler(), self.devices@, request, routed),
    {
        let verdict = self.handler.handle_client_request(request);
        assert(client_verdict(self.handler.handler(), request, verdict));
        let decided = client_decision(&self.devices, verdict);
        let ghost given = decided;
        let routed = match decided {
            Ok(routed) => Ok(routed),
            Err(err) => Err(HttpError::from_error(err)),
        };
        proof {
            assert(client_decided(self.devices@, verdict, given));
            assert(lifted(given, routed));
        }
        routed
    }
}

} // verus!
