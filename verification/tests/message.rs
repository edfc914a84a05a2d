use gcdevproxy::headers::HeaderMap;
use gcdevproxy::message::{parse_authority, ConnectionInfo, RequestHead, Uri, Version};

fn uri(scheme: Option<&str>, authority: Option<&str>, path_and_query: Option<&str>) -> Uri {
    Uri {
        scheme: scheme.map(|s| s.to_string()),
        authority: authority.map(|s| s.to_string()),
        path_and_query: path_and_query.map(|s| s.to_string()),
    }
}

fn request(method: &str, target: Uri, version: Version, headers: &[(&str, &str)]) -> RequestHead {
    let mut map = HeaderMap::new();
    for (name, value) in headers {
        assert!(map.append(name, value.as_bytes().to_vec()));
    }
    RequestHead {
        method: method.to_string(),
        uri: target,
        version,
        headers: map,
        protocol: None,
        info: None,
    }
}

fn header_list(map: &HeaderMap) -> Vec<(String, Vec<u8>)> {
    let mut list = Vec::new();
    for i in 0..map.len() {
        list.push((map.name_at(i).to_string(), map.value_at(i).clone()));
    }
    list
}

#[test]
fn the_path_is_what_stands_before_the_query() {
    assert_eq!(uri(None, None, Some("/foo/bar?x=1")).path(), "/foo/bar");
    assert_eq!(uri(None, None, Some("/foo")).path(), "/foo");
    assert_eq!(uri(None, None, Some("*")).path(), "*");
    assert_eq!(uri(None, None, Some("?x=1")).path(), "/");
    assert_eq!(uri(Some("http"), Some("example.com"), None).path(), "/");
    assert_eq!(uri(None, Some("example.com:443"), None).path(), "");
}

#[test]
fn a_device_request_is_an_http11_get_of_the_root_with_the_upgrade() {
    let headers = [("connection", "Upgrade"), ("upgrade", "GoodCam-Device-Proxy")];
    let device = request("GET", uri(None, None, Some("/")), Version::Http11, &headers);
    assert!(device.is_device_request());

    let other = request("POST", uri(None, None, Some("/")), Version::Http11, &headers);
    assert!(!other.is_device_request());
    let other = request("GET", uri(None, None, Some("/x")), Version::Http11, &headers);
    assert!(!other.is_device_request());
    let other = request("GET", uri(None, None, Some("/")), Version::Http2, &headers);
    assert!(!other.is_device_request());
    let other = request("GET", uri(None, None, Some("/")), Version::Http10, &headers);
    assert!(!other.is_device_request());
    let websocket = [("connection", "upgrade"), ("upgrade", "websocket")];
    let other = request("GET", uri(None, None, Some("/")), Version::Http11, &websocket);
    assert!(!other.is_device_request());
    let no_option = [("connection", "close"), ("upgrade", "goodcam-device-proxy")];
    let other = request("GET", uri(None, None, Some("/")), Version::Http11, &no_option);
    assert!(!other.is_device_request());
}

#[test]
fn the_challenge_token_follows_the_well_known_prefix() {
    let target = uri(None, None, Some("/.well-known/acme-challenge/abc?x=1"));
    let head = request("GET", target, Version::Http11, &[]);
    assert_eq!(head.get_acme_challenge_token(), Some("abc".to_string()));
    let target = uri(None, None, Some("/.well-known/acme-challenge/"));
    let head = request("GET", target, Version::Http11, &[]);
    assert_eq!(head.get_acme_challenge_token(), Some("".to_string()));
    let target = uri(None, None, Some("/.well-known/acme-challenge"));
    let head = request("GET", target, Version::Http11, &[]);
    assert_eq!(head.get_acme_challenge_token(), None);
    let head = request("GET", uri(None, None, Some("/foo")), Version::Http11, &[]);
    assert_eq!(head.get_acme_challenge_token(), None);
}

#[test]
fn authorities_are_checked_by_the_uri_parser() {
    assert_eq!(parse_authority(b"example.com:8080"), Some("example.com:8080".to_string()));
    assert_eq!(parse_authority(b"[::1]:80"), Some("[::1]:80".to_string()));
    assert_eq!(parse_authority(b""), None);
    assert_eq!(parse_authority(b"exa mple"), None);
    assert_eq!(parse_authority(b"host:1:2"), None);
    assert_eq!(parse_authority(b"host/path"), None);
}

#[test]
fn the_url_is_completed_from_the_host_header() {
    let head = request(
        "GET",
        uri(None, None, Some("/foo?a=b")),
        Version::Http11,
        &[("host", "cam.example.com")],
    );
    let url = head.get_url();
    assert_eq!(url.scheme, Some("http".to_string()));
    assert_eq!(url.authority, Some("cam.example.com".to_string()));
    assert_eq!(url.path_and_query, Some("/foo?a=b".to_string()));
}

#[test]
fn the_url_falls_back_to_the_peer_and_to_localhost() {
    let mut head = request(
        "GET",
        uri(None, None, Some("/")),
        Version::Http11,
        &[("host", "not an authority")],
    );
    assert_eq!(head.get_url().authority, Some("localhost".to_string()));
    assert_eq!(head.get_url().scheme, Some("http".to_string()));

    head.info = Some(ConnectionInfo::new("0.0.0.0:443", "192.0.2.7:5000", true));
    let url = head.get_url();
    assert_eq!(url.scheme, Some("https".to_string()));
    assert_eq!(url.authority, Some("192.0.2.7:5000".to_string()));

    head.info = Some(ConnectionInfo::new("0.0.0.0:80", "no address", false));
    let url = head.get_url();
    assert_eq!(url.scheme, Some("http".to_string()));
    assert_eq!(url.authority, Some("localhost".to_string()));

    let absolute = request(
        "GET",
        uri(Some("ws"), Some("given.example"), Some("/x")),
        Version::Http11,
        &[("host", "other.example")],
    );
    let url = absolute.get_url();
    assert_eq!(url.scheme, Some("ws".to_string()));
    assert_eq!(url.authority, Some("given.example".to_string()));
}

#[test]
fn connection_info_keeps_what_it_was_made_of() {
    let info = ConnectionInfo::new("127.0.0.1:80", "10.0.0.1:1234", true);
    assert_eq!(info.local_addr(), "127.0.0.1:80");
    assert_eq!(info.remote_addr(), "10.0.0.1:1234");
    assert!(info.is_https());
}

#[test]
fn a_standard_request_is_translated_to_http2() {
    let head = request(
        "POST",
        uri(None, None, Some("/api")),
        Version::Http11,
        &[
            ("Host", "cam.example.com"),
            ("Connection", "keep-alive, x-hop"),
            ("X-Hop", "1"),
            ("Keep-Alive", "timeout=5"),
            ("Content-Type", "application/json"),
        ],
    );
    let h2 = head.to_h2_request();
    assert_eq!(h2.method, "POST");
    assert_eq!(h2.version, Version::Http2);
    assert_eq!(h2.protocol, None);
    assert!(h2.info.is_none());
    assert_eq!(h2.uri.scheme, Some("http".to_string()));
    assert_eq!(h2.uri.authority, Some("cam.example.com".to_string()));
    assert_eq!(h2.uri.path_and_query, Some("/api".to_string()));
    assert_eq!(
        header_list(&h2.headers),
        vec![("content-type".to_string(), b"application/json".to_vec())]
    );
}

#[test]
fn an_upgrade_is_translated_to_an_extended_connect() {
    let head = request(
        "GET",
        uri(None, None, Some("/ws")),
        Version::Http11,
        &[
            ("host", "cam.example.com"),
            ("connection", "Upgrade"),
            ("upgrade", "websocket"),
            ("sec-websocket-key", "abc"),
        ],
    );
    let h2 = head.to_h2_request();
    assert_eq!(h2.method, "CONNECT");
    assert_eq!(h2.protocol, Some("websocket".to_string()));
    assert_eq!(
        header_list(&h2.headers),
        vec![("sec-websocket-key".to_string(), b"abc".to_vec())]
    );

    let no_name = request(
        "GET",
        uri(None, None, Some("/ws")),
        Version::Http11,
        &[("connection", "upgrade")],
    );
    assert_eq!(no_name.to_h2_request().protocol, Some("".to_string()));
}

#[test]
fn versions_are_ordered() {
    assert!(Version::Http09.is_before_http2());
    assert!(Version::Http10.is_before_http2());
    assert!(Version::Http11.is_before_http2());
    assert!(!Version::Http2.is_before_http2());
    assert!(!Version::Http3.is_before_http2());
}
