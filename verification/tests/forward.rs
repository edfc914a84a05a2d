use gcdevproxy::error::Error;
use gcdevproxy::forward::{
    connection_result, end_of_body_fails, ends_received_body, is_tunnel_request, keep_alive_step,
    plan_forward, race_outcome, relay_response, response_outcome, split_chunk, tunnel_request,
    tunnel_response, ForwardPlan, KeepAliveStep, Pong, Race, Side, StreamFault, TunnelOutcome,
};
use gcdevproxy::headers::HeaderMap;
use gcdevproxy::message::{RequestHead, ResponseHead, Uri, Version};

fn request(method: &str, path: Option<&str>, headers: &[(&str, &str)]) -> RequestHead {
    let mut map = HeaderMap::new();
    for (name, value) in headers {
        assert!(map.append(name, value.as_bytes().to_vec()));
    }
    RequestHead {
        method: method.to_string(),
        uri: Uri {
            scheme: None,
            authority: None,
            path_and_query: path.map(|p| p.to_string()),
        },
        version: Version::Http11,
        headers: map,
        protocol: None,
        info: None,
    }
}

fn response(status: u16, headers: &[(&str, &str)]) -> ResponseHead {
    let mut map = HeaderMap::new();
    for (name, value) in headers {
        assert!(map.append(name, value.as_bytes().to_vec()));
    }
    ResponseHead { status, version: Version::Http2, headers: map }
}

fn header_list(map: &HeaderMap) -> Vec<(String, Vec<u8>)> {
    let mut list = Vec::new();
    for i in 0..map.len() {
        list.push((map.name_at(i).to_string(), map.value_at(i).clone()));
    }
    list
}

const UPGRADE: [(&str, &str); 2] = [("connection", "upgrade"), ("upgrade", "websocket")];

#[test]
fn an_upgrade_to_a_device_without_extended_connect_fails_before_anything_is_sent() {
    let head = request("GET", Some("/ws"), &UPGRADE);
    assert!(is_tunnel_request(&head));
    let failed = tunnel_request(&head, false).err().unwrap();
    assert_eq!(failed.message(), "device does not support connection upgrades");
    let failed = plan_forward(&head, false).err().unwrap();
    assert_eq!(failed.message(), "device does not support connection upgrades");
}

#[test]
fn an_upgrade_to_a_device_with_extended_connect_opens_a_tunnel() {
    let head = request("GET", Some("/ws"), &UPGRADE);
    match plan_forward(&head, true) {
        Ok(ForwardPlan::Tunnel(h2)) => {
            assert_eq!(h2.method, "CONNECT");
            assert_eq!(h2.protocol, Some("websocket".to_string()));
        }
        _ => panic!("the upgrade opens a tunnel"),
    }
}

#[test]
fn a_plain_connect_needs_extended_connect_too() {
    let head = request("CONNECT", Some("/"), &[]);
    assert!(is_tunnel_request(&head));
    let failed = plan_forward(&head, false).err().unwrap();
    assert_eq!(failed.message(), "device does not support connection upgrades");
    let failed = tunnel_request(&head, false).err().unwrap();
    assert_eq!(failed.message(), "device does not support connection upgrades");
    // The error comes before the target is looked at.
    let no_path = request("CONNECT", None, &[]);
    let failed = plan_forward(&no_path, false).err().unwrap();
    assert_eq!(failed.message(), "device does not support connection upgrades");
    match plan_forward(&head, true) {
        Ok(ForwardPlan::Tunnel(h2)) => {
            assert_eq!(h2.method, "CONNECT");
            assert_eq!(h2.protocol, None);
        }
        _ => panic!("a CONNECT opens a tunnel on a device that takes it"),
    }
}

#[test]
fn other_requests_are_forwarded_as_they_are() {
    let head = request("GET", Some("/foo"), &[("x-device", "cam1")]);
    assert!(!is_tunnel_request(&head));
    match plan_forward(&head, false) {
        Ok(ForwardPlan::Standard(h2)) => {
            assert_eq!(h2.method, "GET");
            assert_eq!(h2.version, Version::Http2);
        }
        _ => panic!("a GET is a standard request"),
    }
    let no_path = request("CONNECT", None, &[]);
    assert_eq!(plan_forward(&no_path, true).err().unwrap().message(), "invalid URL");
}

#[test]
fn the_response_of_a_device_is_relayed_without_hop_by_hop_headers() {
    let device = response(
        200,
        &[("content-type", "text/plain"), ("connection", "close"), ("keep-alive", "1")],
    );
    let relayed = relay_response(device, Version::Http11);
    assert_eq!(relayed.status, 200);
    assert_eq!(relayed.version, Version::Http11);
    assert_eq!(
        header_list(&relayed.headers),
        vec![("content-type".to_string(), b"text/plain".to_vec())]
    );
}

#[test]
fn an_accepted_tunnel_switches_protocols_for_old_clients() {
    let device = response(200, &[("server", "cam")]);
    match tunnel_response(device, Version::Http11, Some("websocket")) {
        Ok(TunnelOutcome::Open(head)) => {
            assert_eq!(head.status, 101);
            assert_eq!(head.version, Version::Http11);
            assert_eq!(
                header_list(&head.headers),
                vec![
                    ("server".to_string(), b"cam".to_vec()),
                    ("connection".to_string(), b"upgrade".to_vec()),
                    ("upgrade".to_string(), b"websocket".to_vec()),
                ]
            );
        }
        _ => panic!("the tunnel is open"),
    }
    match tunnel_response(response(204, &[]), Version::Http2, Some("websocket")) {
        Ok(TunnelOutcome::Open(head)) => assert_eq!(head.status, 204),
        _ => panic!("the tunnel is open"),
    }
    match tunnel_response(response(200, &[]), Version::Http11, None) {
        Ok(TunnelOutcome::Open(head)) => {
            assert_eq!(head.status, 200);
            assert_eq!(head.headers.len(), 0);
        }
        _ => panic!("the tunnel is open"),
    }
}

#[test]
fn a_refused_tunnel_relays_the_answer_of_the_device() {
    match tunnel_response(response(403, &[("te", "x")]), Version::Http11, Some("websocket")) {
        Ok(TunnelOutcome::Refused(head)) => {
            assert_eq!(head.status, 403);
            assert_eq!(head.headers.len(), 0);
        }
        _ => panic!("the tunnel is refused"),
    }
    let failed = tunnel_response(response(200, &[]), Version::Http11, Some("bad\nname"));
    assert_eq!(failed.err().unwrap().message(), "invalid protocol");
}

#[test]
fn the_keep_alive_task_ends_on_failures_only() {
    assert!(matches!(keep_alive_step(Pong::Received), KeepAliveStep::Continue));
    assert!(matches!(keep_alive_step(Pong::BrokenPipe), KeepAliveStep::Finished(Ok(()))));
    match keep_alive_step(Pong::TimedOut) {
        KeepAliveStep::Finished(Err(e)) => assert_eq!(e.message(), "connection timeout"),
        _ => panic!("a missing pong ends the tunnel"),
    }
    match keep_alive_step(Pong::Failed(Error::from_cause("protocol error"))) {
        KeepAliveStep::Finished(Err(e)) => assert_eq!(e.message(), "protocol error"),
        _ => panic!("a failed ping ends the tunnel"),
    }
}

#[test]
fn the_first_failure_decides_the_outcome_of_a_tunnel() {
    assert!(matches!(race_outcome(Side::Connection, Ok(())), Race::Finished(Ok(()))));
    match race_outcome(Side::Connection, Err(Error::from_msg("reset"))) {
        Race::Finished(Err(e)) => assert_eq!(e.message(), "reset"),
        _ => panic!("the connection has failed"),
    }
    match race_outcome(Side::KeepAlive, Err(Error::from_msg("connection timeout"))) {
        Race::Finished(Err(e)) => assert_eq!(e.message(), "connection timeout"),
        _ => panic!("the keep-alive task has failed"),
    }
    assert!(matches!(race_outcome(Side::KeepAlive, Ok(())), Race::AwaitConnection));
    assert!(connection_result(None).is_ok());
    assert!(connection_result(Some(Ok(()))).is_ok());
    assert!(connection_result(Some(Err(Error::from_msg("x")))).is_err());
}

#[test]
fn a_lost_forwarding_task_means_that_the_device_disconnected() {
    assert_eq!(response_outcome(Some(Ok(5))).ok(), Some(5));
    let lost = response_outcome::<u8>(None).err().unwrap();
    assert_eq!(lost.message(), "device disconnected");
}

#[test]
fn a_chunk_is_split_at_the_capacity_of_the_stream() {
    let sent = split_chunk(vec![1, 2, 3, 4, 5], 2);
    assert_eq!(sent.now, vec![1, 2]);
    assert_eq!(sent.later, Some(vec![3, 4, 5]));
    let sent = split_chunk(vec![1, 2, 3], 3);
    assert_eq!(sent.now, vec![1, 2, 3]);
    assert_eq!(sent.later, None);
    let sent = split_chunk(vec![1, 2, 3], 10);
    assert_eq!(sent.now, vec![1, 2, 3]);
    assert_eq!(sent.later, None);
    let sent = split_chunk(vec![1], 0);
    assert!(sent.now.is_empty());
    assert_eq!(sent.later, Some(vec![1]));
}

#[test]
fn a_closed_stream_is_no_error_at_the_end_of_a_body() {
    let fault = |reset, go_away, reason, io, remote| StreamFault { reset, go_away, reason, io, remote };
    assert!(!end_of_body_fails(&fault(true, false, true, false, true)));
    assert!(!end_of_body_fails(&fault(false, true, true, true, true)));
    assert!(end_of_body_fails(&fault(false, false, true, false, false)));
    assert!(end_of_body_fails(&fault(false, false, false, true, false)));
    assert!(end_of_body_fails(&fault(false, false, false, false, true)));
    assert!(!end_of_body_fails(&fault(false, false, false, false, false)));
    assert!(ends_received_body(&fault(true, false, false, false, false)));
    assert!(ends_received_body(&fault(false, true, false, false, false)));
    assert!(!ends_received_body(&fault(false, false, true, true, true)));
}
