use gcdevproxy::auth::BasicAuthorization;
use gcdevproxy::challenge::Challenge;
use gcdevproxy::error::{Error, HttpError};
use gcdevproxy::forward::{plan_forward, relay_response, ForwardPlan};
use gcdevproxy::headers::HeaderMap;
use gcdevproxy::message::{Body, Request, RequestHead, Response, ResponseHead, Uri, Version};
use gcdevproxy::router::{
    client_decision, device_authorization, device_decision, error_response, forward_response,
    BlockingRequestHandler, ClientHandlerResult, DeviceHandlerResult, InternalRequestHandler,
    Routed,
};

struct Handler {
    device_key: &'static str,
    redirect: Option<&'static str>,
    fail: bool,
}

impl Handler {
    fn new() -> Self {
        Handler { device_key: "secret", redirect: None, fail: false }
    }
}

impl BlockingRequestHandler<()> for Handler {
    fn handle_device_request(
        &self,
        authorization: BasicAuthorization,
    ) -> Result<DeviceHandlerResult, Error> {
        if self.fail {
            return Err(Error::from_msg("database down"));
        }
        if let Some(location) = self.redirect {
            return Ok(DeviceHandlerResult::redirect(location));
        }
        if authorization.password() == self.device_key {
            Ok(DeviceHandlerResult::accept())
        } else {
            Ok(DeviceHandlerResult::unauthorized())
        }
    }

    fn handle_client_request(&self, request: Request<()>) -> Result<ClientHandlerResult<()>, Error> {
        if self.fail {
            return Err(Error::from_msg("database down"));
        }
        let device = request.head.headers.get("x-device").cloned();
        match device {
            Some(id) => Ok(ClientHandlerResult::forward(
                std::str::from_utf8(&id).unwrap(),
                request,
            )),
            None => {
                let mut headers = HeaderMap::new();
                headers.append("x-reason", b"no device".to_vec());
                Ok(ClientHandlerResult::block(Response {
                    head: ResponseHead { status: 403, version: Version::Http11, headers },
                    body: Body::Empty,
                }))
            }
        }
    }
}

fn request(method: &str, path: &str, headers: &[(&str, &str)]) -> Request<()> {
    let mut map = HeaderMap::new();
    for (name, value) in headers {
        assert!(map.append(name, value.as_bytes().to_vec()));
    }
    Request {
        head: RequestHead {
            method: method.to_string(),
            uri: Uri { scheme: None, authority: None, path_and_query: Some(path.to_string()) },
            version: Version::Http11,
            headers: map,
            protocol: None,
            info: None,
        },
        body: Body::Empty,
    }
}

fn device_request(authorization: Option<&str>) -> Request<()> {
    let mut headers = vec![("connection", "Upgrade"), ("upgrade", "goodcam-device-proxy")];
    if let Some(value) = authorization {
        headers.push(("authorization", value));
    }
    request("GET", "/", &headers)
}

fn header_list(map: &HeaderMap) -> Vec<(String, Vec<u8>)> {
    let mut list = Vec::new();
    for i in 0..map.len() {
        list.push((map.name_at(i).to_string(), map.value_at(i).clone()));
    }
    list
}

fn status_of(routed: Routed<()>) -> u16 {
    match routed {
        Routed::Respond(response) => {
            assert!(matches!(response.body, Body::Empty));
            response.head.status
        }
        _ => panic!("a response is expected"),
    }
}

#[test]
fn a_client_request_for_a_connected_device_is_forwarded_and_answered() {
    let mut router: InternalRequestHandler<Handler, Request<()>> =
        InternalRequestHandler::new(Handler::new());
    router.devices.connect("cam1", 1);

    let incoming = request(
        "GET",
        "/foo",
        &[("x-device", "cam1"), ("host", "proxy.example.com"), ("connection", "keep-alive")],
    );
    let (device_id, forwarded) = match router.handle_request(incoming) {
        Routed::Forward { device_id, request } => (device_id, request),
        _ => panic!("the request is forwarded"),
    };
    assert_eq!(device_id, "cam1");

    // The request waits in the queue of the device until its task takes it.
    let version = forwarded.head.version;
    assert!(router.devices.send_request(&device_id, forwarded).is_ok());
    let taken = router.devices.next_request("cam1", 1).unwrap();
    let h2 = match plan_forward(&taken.head, false) {
        Ok(ForwardPlan::Standard(h2)) => h2,
        _ => panic!("a GET is a standard request"),
    };
    assert_eq!(h2.method, "GET");
    assert_eq!(h2.uri.path_and_query, Some("/foo".to_string()));
    assert_eq!(h2.uri.authority, Some("proxy.example.com".to_string()));
    assert_eq!(header_list(&h2.headers), vec![("x-device".to_string(), b"cam1".to_vec())]);

    // The device answers 200 "ok" with a hop-by-hop header.
    let mut headers = HeaderMap::new();
    headers.append("content-type", b"text/plain".to_vec());
    headers.append("connection", b"close".to_vec());
    let device_head = ResponseHead { status: 200, version: Version::Http2, headers };
    let answer: Response<()> = Response {
        head: relay_response(device_head, version),
        body: Body::Full(b"ok".to_vec()),
    };
    let response = forward_response(Ok(answer));
    assert_eq!(response.head.status, 200);
    assert_eq!(response.head.version, Version::Http11);
    assert_eq!(
        header_list(&response.head.headers),
        vec![("content-type".to_string(), b"text/plain".to_vec())]
    );
    match response.body {
        Body::Full(bytes) => assert_eq!(bytes, b"ok".to_vec()),
        _ => panic!("the body of the device is relayed"),
    }
}

#[test]
fn a_client_request_for_an_unknown_device_gets_502() {
    let mut router: InternalRequestHandler<Handler, Request<()>> =
        InternalRequestHandler::new(Handler::new());
    let incoming = request("GET", "/foo", &[("x-device", "cam1")]);
    assert_eq!(status_of(router.handle_request(incoming)), 502);
    assert_eq!(router.devices.len(), 0);
}

#[test]
fn a_failed_forwarding_gets_502() {
    let failed: Response<()> = forward_response(Err(Error::from_msg("device disconnected")));
    assert_eq!(failed.head.status, 502);
    assert!(matches!(failed.body, Body::Empty));
}

#[test]
fn a_device_without_authorization_gets_401_and_is_not_registered() {
    let mut router: InternalRequestHandler<Handler, Request<()>> =
        InternalRequestHandler::new(Handler::new());
    assert_eq!(status_of(router.handle_request(device_request(None))), 401);
    assert_eq!(status_of(router.handle_request(device_request(Some("Bearer abc")))), 401);
    assert_eq!(status_of(router.handle_request(device_request(Some("Basic ####")))), 401);
    assert_eq!(router.devices.len(), 0);
    assert!(router.devices.get("cam1").is_none());
}

#[test]
fn an_accepted_device_is_upgraded() {
    let mut router: InternalRequestHandler<Handler, Request<()>> =
        InternalRequestHandler::new(Handler::new());
    // cam1:secret
    match router.handle_request(device_request(Some("Basic Y2FtMTpzZWNyZXQ="))) {
        Routed::Upgrade { response, device_id, session_id, request } => {
            assert_eq!(response.head.status, 101);
            assert_eq!(
                header_list(&response.head.headers),
                vec![("upgrade".to_string(), b"goodcam-device-proxy".to_vec())]
            );
            assert!(matches!(response.body, Body::Empty));
            assert_eq!(device_id, "cam1");
            // A random UUID of version 4.
            assert_eq!((session_id >> 76) & 0xf, 4);
            assert_eq!((session_id >> 62) & 0x3, 2);
            assert_eq!(request.head.method, "GET");
        }
        _ => panic!("the device is accepted"),
    }
    // The registry changes only when the tunnel stands.
    assert_eq!(router.devices.len(), 0);
}

#[test]
fn sessions_differ() {
    let mut router: InternalRequestHandler<Handler, Request<()>> =
        InternalRequestHandler::new(Handler::new());
    let mut sessions = Vec::new();
    for _ in 0..3 {
        match router.handle_request(device_request(Some("Basic Y2FtMTpzZWNyZXQ="))) {
            Routed::Upgrade { session_id, .. } => sessions.push(session_id),
            _ => panic!("the device is accepted"),
        }
    }
    assert_ne!(sessions[0], sessions[1]);
    assert_ne!(sessions[1], sessions[2]);
    assert_ne!(sessions[0], sessions[2]);
}

#[test]
fn a_device_with_a_wrong_key_gets_401() {
    let mut router: InternalRequestHandler<Handler, Request<()>> =
        InternalRequestHandler::new(Handler::new());
    // cam1:wrong
    assert_eq!(status_of(router.handle_request(device_request(Some("Basic Y2FtMTp3cm9uZw==")))), 401);
}

#[test]
fn a_redirected_device_gets_307_with_the_location() {
    let mut handler = Handler::new();
    handler.redirect = Some("https://other.example.com/");
    let mut router: InternalRequestHandler<Handler, Request<()>> =
        InternalRequestHandler::new(handler);
    match router.handle_request(device_request(Some("Basic Y2FtMTpzZWNyZXQ="))) {
        Routed::Respond(response) => {
            assert_eq!(response.head.status, 307);
            assert_eq!(
                header_list(&response.head.headers),
                vec![("location".to_string(), b"https://other.example.com/".to_vec())]
            );
        }
        _ => panic!("the device is redirected"),
    }
}

#[test]
fn an_error_of_the_handler_gets_500() {
    let mut handler = Handler::new();
    handler.fail = true;
    let mut router: InternalRequestHandler<Handler, Request<()>> =
        InternalRequestHandler::new(handler);
    assert_eq!(status_of(router.handle_request(device_request(Some("Basic Y2FtMTpzZWNyZXQ=")))), 500);
    assert_eq!(status_of(router.handle_request(request("GET", "/foo", &[]))), 500);
}

#[test]
fn a_blocked_client_request_gets_the_response_of_the_handler() {
    let mut router: InternalRequestHandler<Handler, Request<()>> =
        InternalRequestHandler::new(Handler::new());
    match router.handle_request(request("GET", "/foo", &[])) {
        Routed::Respond(response) => {
            assert_eq!(response.head.status, 403);
            assert_eq!(
                header_list(&response.head.headers),
                vec![("x-reason".to_string(), b"no device".to_vec())]
            );
        }
        _ => panic!("the request is blocked"),
    }
}

#[test]
fn a_registered_challenge_is_answered_before_anything_else() {
    let mut router: InternalRequestHandler<Handler, Request<()>> =
        InternalRequestHandler::new(Handler::new());
    router.acme_challenges.register(&Challenge::new("tok", "tok.print"));
    match router.handle_request(request("GET", "/.well-known/acme-challenge/tok", &[])) {
        Routed::Challenge { response, token, first } => {
            assert_eq!(token, "tok");
            assert!(first);
            assert_eq!(response.head.status, 200);
            match response.body {
                Body::Full(bytes) => assert_eq!(bytes, b"tok.print".to_vec()),
                _ => panic!("the answer carries the key authorization"),
            }
        }
        _ => panic!("the challenge is answered"),
    }
    // An unregistered token falls through to the client handler.
    assert_eq!(
        status_of(router.handle_request(request("GET", "/.well-known/acme-challenge/other", &[]))),
        403
    );
}

#[test]
fn the_decisions_follow_the_verdicts() {
    let head = device_request(Some("Basic Y2FtMTpzZWNyZXQ="));
    let auth = device_authorization(&head.head).ok().unwrap();
    assert_eq!(auth.username(), "cam1");
    assert_eq!(auth.password(), "secret");
    let missing = device_authorization(&device_request(None).head).err().unwrap();
    assert_eq!(missing.message(), "unauthorized");

    let bad = device_decision(
        Ok(DeviceHandlerResult::redirect("bad\nlocation")),
        "cam1".to_string(),
        1,
        device_request(None),
    );
    assert_eq!(bad.err().unwrap().message(), "invalid redirect location");

    let devices: gcdevproxy::device::DeviceManager<u8> = gcdevproxy::device::DeviceManager::new();
    let failed = client_decision::<(), u8>(&devices, Err(Error::from_msg("no")));
    assert_eq!(failed.err().unwrap().message(), "no");
}

#[test]
fn errors_know_their_responses() {
    let response: Response<()> = error_response(&HttpError::unauthorized());
    assert_eq!(response.head.status, 401);
    let response: Response<()> = error_response(&HttpError::bad_gateway());
    assert_eq!(response.head.status, 502);
    let response: Response<()> = error_response(&HttpError::from_error(Error::from_msg("x")));
    assert_eq!(response.head.status, 500);
    assert!(HttpError::from_error(Error::from_msg("x")).to_response::<()>().is_none());
    assert_eq!(HttpError::bad_gateway().message(), "bad gateway");
}
