use crate::error::{Error, ErrorView};
use crate::headers::{is_upgrade, is_value, is_value_exec, strip_hop_by_hop, without};
use crate::message::{RequestHead, RequestView, ResponseHead, ResponseView, Version};
use crate::text::str_eq;
use vstd::prelude::*;
use vstd::utf8::encode_utf8;

verus! {

/// The time between two pings on a device tunnel, in seconds.
pub const PING_INTERVAL_SECS: u64 = 10;

/// The time that a device has to answer a ping, in seconds.
pub const PONG_TIMEOUT_SECS: u64 = 20;

/// Whether a request is forwarded as a tunnel: it is a CONNECT, or it asks
/// for a connection upgrade.
pub open spec fn wants_tunnel(request: RequestView) -> bool {
    request.method == "CONNECT"@ || is_upgrade(request.headers)
}

/// Whether a request is forwarded as a tunnel.
pub fn is_tunnel_request(request: &RequestHead) -> (tunnel: bool)
    ensures
        tunnel == wants_tunnel(request@),
{
    str_eq(request.method.as_str(), "CONNECT") || request.headers.is_connection_upgrade()
}

/// The error of a tunnel request to a device that cannot take one.
pub open spec fn no_upgrade_support() -> ErrorView {
    ErrorView { msg: "device does not support connection upgrades"@, cause: None }
}

/// The HTTP/2 request that opens a tunnel to a device.
///
/// A tunnel needs a device that has announced that it takes extended
/// CONNECT requests. For any other device there is no such request: the
/// tunnel fails before anything is sent to the device.
pub fn tunnel_request(request: &RequestHead, extended_connect: bool) -> (opened: Result<
    RequestHead,
    Error,
>)
    requires
        request@.uri.path_and_query is Some,
    ensures
        match opened {
            Ok(h2) => extended_connect && h2@ == request@.h2_request(),
            Err(e) => !extended_connect && e@ == no_upgrade_support(),
        },
{
    if !extended_connect {
        Err(Error::from_static_msg("device does not support connection upgrades"))
    } else {
        Ok(request.to_h2_request())
    }
}

/// What is forwarded to a device for a request.
pub enum ForwardPlan {
    /// A tunnel is opened with this HTTP/2 request.
    Tunnel(RequestHead),
    /// This HTTP/2 request is sent, and the body of the request behind it.
    Standard(RequestHead),
}

/// What is forwarded to a device for `request`.
///
/// A tunnel request to a device that has not announced that it takes
/// extended CONNECT requests cannot be forwarded: nothing is sent to the
/// device. Neither can a request whose target has no path.
pub fn plan_forward(request: &RequestHead, extended_connect: bool) -> (plan: Result<
    ForwardPlan,
    Error,
>)
    ensures
        planned(request@, extended_connect, plan),
{
    let tunnel = is_tunnel_request(request);
    if tunnel && !extended_connect {
        return Err(Error::from_static_msg("device does not support connection upgrades"));
    }
    if request.uri.path_and_query.is_none() {
        return Err(Error::from_static_msg("invalid URL"));
    }
    if tunnel {
        match tunnel_request(request, extended_connect) {
            Ok(h2) => Ok(ForwardPlan::Tunnel(h2)),
            Err(e) => Err(e),
        }
    } else {
        Ok(ForwardPlan::Standard(request.to_h2_request()))
    }
}

/// A tunnel request to a device that has not announced that it takes
/// extended CONNECT requests fails with the error of a device without
/// upgrade support, whatever else the request holds; no HTTP/2 request is
/// made for it, so nothing is opened and no byte flows.
pub proof fn law_no_tunnel_without_extended_connect(
    request: RequestView,
    plan: Result<ForwardPlan, Error>,
)
    requires
        wants_tunnel(request),
        planned(request, false, plan),
    ensures
        plan matches Err(e) && e@ == no_upgrade_support(),
{
}

/// Whether `plan` is what is forwarded to a device for `request`.
pub open spec fn planned(
    request: RequestView,
    extended_connect: bool,
    plan: Result<ForwardPlan, Error>,
) -> bool {
    match plan {
        Ok(ForwardPlan::Tunnel(h2)) => wants_tunnel(request) && extended_connect
            && request.uri.path_and_query is Some && h2@ == request.h2_request(),
        Ok(ForwardPlan::Standard(h2)) => !wants_tunnel(request)
            && request.uri.path_and_query is Some && h2@ == request.h2_request(),
        Err(e) => if wants_tunnel(request) && !extended_connect {
            e@ == no_upgrade_support()
        } else {
            request.uri.path_and_query is None && e@ == (ErrorView {
                msg: "invalid URL"@,
                cause: None,
            })
        },
    }
}

/// Whether `status` is one of the success codes, 200 to 299.
pub open spec fn is_success(status: u16) -> bool {
    200 <= status < 300
}

/// The head of the response that the client gets for what the device
/// answered to a standard request: the same in the version of the client's
/// request, without the hop-by-hop headers.
pub open spec fn relayed(device: ResponseView, version: Version) -> ResponseView {
    ResponseView { status: device.status, version, headers: strip_hop_by_hop(device.headers) }
}

/// Whether the client is told that protocols are switched: the device has
/// accepted the tunnel, the client speaks a version before HTTP/2, and the
/// tunnel is for a named protocol.
pub open spec fn switches(device: ResponseView, version: Version, protocol: Option<Seq<char>>) -> bool {
    is_success(device.status) && version.rank() < Version::Http2.rank() && protocol is Some
}

/// The head of the response that the client gets for what the device
/// answered to a tunnel request.
pub open spec fn tunnel_relayed(
    device: ResponseView,
    version: Version,
    protocol: Option<Seq<char>>,
) -> ResponseView {
    if switches(device, version, protocol) {
        ResponseView {
            status: 101,
            version,
            headers: without(
                without(strip_hop_by_hop(device.headers), "connection"@).push(
                    ("connection"@, encode_utf8("upgrade"@)),
                ),
                "upgrade"@,
            ).push(("upgrade"@, encode_utf8(protocol->0))),
        }
    } else {
        relayed(device, version)
    }
}

/// The head of the response that the client gets for what the device
/// answered to a standard request.
pub fn relay_response(device: ResponseHead, version: Version) -> (response: ResponseHead)
    ensures
        response@ == relayed(device@, version),
{
    let mut response = device;
    response.version = version;
    response.headers.remove_hop_by_hop_headers();
    response
}

/// What happens to a tunnel after the device has answered.
pub enum TunnelOutcome {
    /// The device has accepted: the client gets this response without a
    /// body, and bytes are passed on in both directions.
    Open(ResponseHead),
    /// The device has refused: the client gets this response with the body
    /// that the device sends.
    Refused(ResponseHead),
}

/// Whether a tunnel fails after the device has answered: the client would
/// be told that protocols are switched, and the name of the protocol cannot
/// stand in a header.
pub open spec fn tunnel_fails(device: ResponseView, version: Version, protocol: Option<Seq<char>>) -> bool {
    switches(device, version, protocol) && !is_value(encode_utf8(protocol->0))
}

/// The text of an optional string slice.
pub open spec fn name_view(name: Option<&str>) -> Option<Seq<char>> {
    match name {
        Some(n) => Some(n@),
        None => None,
    }
}

/// What happens to a tunnel after the device has answered.
///
/// A protocol name that cannot stand in a header fails the tunnel where the
/// client is to be told about the switch. Otherwise a device that has
/// accepted opens the tunnel, and one that has refused has its answer
/// relayed.
pub fn tunnel_response(device: ResponseHead, version: Version, protocol: Option<&str>) -> (outcome:
    Result<TunnelOutcome, Error>)
    ensures
        match outcome {
            Ok(TunnelOutcome::Open(response)) => !tunnel_fails(
                device@,
                version,
                name_view(protocol),
            ) && is_success(device@.status) && response@ == tunnel_relayed(
                device@,
                version,
                name_view(protocol),
            ),
            Ok(TunnelOutcome::Refused(response)) => !is_success(device@.status) && response@
                == relayed(device@, version),
            Err(e) => tunnel_fails(device@, version, name_view(protocol)) && e@ == (ErrorView {
                msg: "invalid protocol"@,
                cause: None,
            }),
        },
{
    let success = 200 <= device.status && device.status < 300;
    let mut response = relay_response(device, version);
    if !success {
        return Ok(TunnelOutcome::Refused(response));
    }
    if version.is_before_http2() {
        if let Some(name) = protocol {
            let value = name.as_bytes_vec();
            if !is_value_exec(&value) {
                return Err(Error::from_static_msg("invalid protocol"));
            }
            response.status = 101;
            response.headers.insert_named("connection", "upgrade".as_bytes_vec());
            response.headers.insert_named("upgrade", value);
        }
    }
    Ok(TunnelOutcome::Open(response))
}

/// How a ping on a device tunnel ended.
pub enum Pong {
    /// The device has answered in time.
    Received,
    /// The peer has closed the connection in the ordinary way.
    BrokenPipe,
    /// The ping failed for another reason.
    Failed(Error),
    /// The device has not answered in time.
    TimedOut,
}

/// What the keep-alive task does after a ping.
pub enum KeepAliveStep {
    /// It waits for the next interval and pings again.
    Continue,
    /// It ends with this result.
    Finished(Result<(), Error>),
}

/// What the keep-alive task does after a ping: it goes on after an answer,
/// ends without an error where the peer has closed the connection, and ends
/// with an error otherwise.
pub fn keep_alive_step(pong: Pong) -> (step: KeepAliveStep)
    ensures
        match pong {
            Pong::Received => step is Continue,
            Pong::BrokenPipe => step matches KeepAliveStep::Finished(Ok(_)),
            Pong::Failed(err) => step matches KeepAliveStep::Finished(Err(e)) && e == err,
            Pong::TimedOut => step matches KeepAliveStep::Finished(Err(e)) && e@ == (ErrorView {
                msg: "connection timeout"@,
                cause: None,
            }),
        },
{
    match pong {
        Pong::Received => KeepAliveStep::Continue,
        Pong::BrokenPipe => KeepAliveStep::Finished(Ok(())),
        Pong::Failed(err) => KeepAliveStep::Finished(Err(err)),
        Pong::TimedOut => KeepAliveStep::Finished(Err(Error::from_static_msg("connection timeout"))),
    }
}

/// The two tasks of a device tunnel.
pub enum Side {
    /// The task that drives the HTTP/2 connection.
    Connection,
    /// The task that pings the device.
    KeepAlive,
}

/// What follows when one of the two tasks of a tunnel has ended.
pub enum Race {
    /// The tunnel has ended with this result.
    Finished(Result<(), Error>),
    /// The connection is driven to its end, which gives the result.
    AwaitConnection,
}

/// What follows when the task `first` has ended before the other with
/// `result`: the end of the connection ends the tunnel, and so does a
/// failure of the keep-alive task; after an ordinary end of the keep-alive
/// task the connection is driven to its end.
pub fn race_outcome(first: Side, result: Result<(), Error>) -> (race: Race)
    ensures
        match (first, result) {
            (Side::Connection, r) => race == Race::Finished(r),
            (Side::KeepAlive, Err(e)) => race == Race::Finished(Err(e)),
            (Side::KeepAlive, Ok(_)) => race is AwaitConnection,
        },
{
    match first {
        Side::Connection => Race::Finished(result),
        Side::KeepAlive => match result {
            Err(e) => Race::Finished(Err(e)),
            Ok(_) => Race::AwaitConnection,
        },
    }
}

/// The result of a tunnel: that of its tasks, or success where the tunnel
/// was closed by its handle before they ended.
pub fn connection_result(ended: Option<Result<(), Error>>) -> (result: Result<(), Error>)
    ensures
        match ended {
            Some(r) => result == r,
            None => result is Ok,
        },
{
    match ended {
        Some(r) => r,
        None => Ok(()),
    }
}

/// What the caller of a forwarded request gets: the answer of the
/// forwarding task, or an error where that task is gone.
pub fn response_outcome<T>(answer: Option<Result<T, Error>>) -> (outcome: Result<T, Error>)
    ensures
        match answer {
            Some(r) => outcome == r,
            None => outcome matches Err(e) && e@ == (ErrorView {
                msg: "device disconnected"@,
                cause: None,
            }),
        },
{
    match answer {
        Some(r) => r,
        None => Err(Error::from_static_msg("device disconnected")),
    }
}

/// What is done with a chunk of a body when the stream to the device has
/// `capacity` bytes to spare.
pub struct Sent {
    /// The bytes that are sent now.
    pub now: Vec<u8>,
    /// The bytes that wait for more capacity.
    pub later: Option<Vec<u8>>,
}

/// Splits a chunk into what the stream can take now and what has to wait:
/// as many bytes as there is capacity for are sent, the rest is kept, and
/// nothing is kept where nothing is left.
pub fn split_chunk(chunk: Vec<u8>, capacity: usize) -> (sent: Sent)
    ensures
        sent.now@ == chunk@.subrange(0, if capacity < chunk@.len() {
            capacity as int
        } else {
            chunk@.len() as int
        }),
        match sent.later {
            Some(rest) => capacity < chunk@.len() && rest@ == chunk@.subrange(
                capacity as int,
                chunk@.len() as int,
            ),
            None => capacity >= chunk@.len(),
        },
{
    let take: usize = if capacity < chunk.len() {
        capacity
    } else {
        chunk.len()
    };
    let mut now: Vec<u8> = Vec::new();
    let mut i: usize = 0;
    while i < take
        invariant
            i <= take <= chunk@.len(),
            now@ == chunk@.subrange(0, i as int),
        decreases take - i,
    {
        now.push(chunk[i]);
        i += 1;
        assert(now@ =~= chunk@.subrange(0, i as int));
    }
    if take < chunk.len() {
        let mut rest: Vec<u8> = Vec::new();
        let mut j: usize = take;
        while j < chunk.len()
            invariant
                take <= j <= chunk@.len(),
                rest@ == chunk@.subrange(take as int, j as int),
            decreases chunk@.len() - j,
        {
            rest.push(chunk[j]);
            j += 1;
            assert(rest@ =~= chunk@.subrange(take as int, j as int));
        }
        Sent { now, later: Some(rest) }
    } else {
        Sent { now, later: None }
    }
}

/// Splitting a chunk loses and repeats nothing: what is sent now, followed
/// by what waits, is the chunk.
pub proof fn law_split_keeps_every_byte(chunk: Seq<u8>, capacity: int)
    requires
        0 <= capacity,
    ensures
        ({
            let take = if capacity < chunk.len() {
                capacity
            } else {
                chunk.len() as int
            };
            chunk.subrange(0, take) + chunk.subrange(take, chunk.len() as int) == chunk
        }),
{
    let take = if capacity < chunk.len() {
        capacity
    } else {
        chunk.len() as int
    };
    assert(chunk.subrange(0, take) + chunk.subrange(take, chunk.len() as int) =~= chunk);
}

/// What is known of an error on an HTTP/2 stream.
pub struct StreamFault {
    /// The stream was reset.
    pub reset: bool,
    /// The peer is going away.
    pub go_away: bool,
    /// The error carries an HTTP/2 reason.
    pub reason: bool,
    /// The error came from the connection's I/O.
    pub io: bool,
    /// The error was reported by the peer.
    pub remote: bool,
}

/// Whether a fault ends the stream in the ordinary way.
pub open spec fn ends_stream(fault: StreamFault) -> bool {
    fault.reset || fault.go_away
}

/// Whether a fault at the end of a body is an error: a stream that was
/// closed under the sender is none; otherwise a fault with a reason, from
/// the I/O or from the peer is one.
pub open spec fn fails_send(fault: StreamFault) -> bool {
    !ends_stream(fault) && (fault.reason || fault.io || fault.remote)
}

/// Whether a fault at the end of a body is an error.
pub fn end_of_body_fails(fault: &StreamFault) -> (fails: bool)
    ensures
        fails == fails_send(*fault),
{
    if fault.reset || fault.go_away {
        false
    } else {
        fault.reason || fault.io || fault.remote
    }
}

/// Whether a fault while a body is received only ends the body.
pub fn ends_received_body(fault: &StreamFault) -> (ends: bool)
    ensures
        ends == ends_stream(*fault),
{
    fault.reset || fault.go_away
}

} // verus!
