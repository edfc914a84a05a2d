use gcdevproxy::headers::{normalize_name, value_text, HeaderMap};

fn names(map: &HeaderMap) -> Vec<String> {
    let mut names = Vec::new();
    for i in 0..map.len() {
        names.push(map.name_at(i).to_string());
    }
    names
}

#[test]
fn header_names_are_normalized() {
    assert_eq!(normalize_name("Content-Type"), Some("content-type".to_string()));
    assert_eq!(normalize_name("x-device"), Some("x-device".to_string()));
    assert_eq!(normalize_name(""), None);
    assert_eq!(normalize_name("two words"), None);
    assert_eq!(normalize_name("colon:"), None);
    assert_eq!(normalize_name("\u{e9}"), None);
}

#[test]
fn headers_are_appended_inserted_and_removed() {
    let mut map = HeaderMap::new();
    assert!(map.append("Accept", b"text/html".to_vec()));
    assert!(map.append("accept", b"text/plain".to_vec()));
    assert!(map.append("Host", b"example.com".to_vec()));
    assert!(!map.append("bad name", b"x".to_vec()));
    assert!(!map.append("x-bad", b"line\nbreak".to_vec()));
    assert_eq!(map.len(), 3);
    assert_eq!(map.get("ACCEPT"), Some(&b"text/html".to_vec()));
    assert_eq!(map.get("missing"), None);
    assert_eq!(map.value_at(2), &b"example.com".to_vec());

    assert!(map.insert("Accept", b"*/*".to_vec()));
    assert_eq!(names(&map), vec!["host", "accept"]);
    assert_eq!(map.get("accept"), Some(&b"*/*".to_vec()));

    map.remove("HOST");
    map.remove("not a name");
    assert_eq!(names(&map), vec!["accept"]);
    assert_eq!(map.duplicate().len(), 1);
}

#[test]
fn tokens_are_split_trimmed_and_filtered() {
    let mut map = HeaderMap::new();
    map.append("connection", b" keep-alive ,, Upgrade\t,".to_vec());
    map.append("upgrade", b"websocket".to_vec());
    map.append("connection", b"x-private".to_vec());
    map.append("connection", vec![0xff, b',', b'a']);
    assert_eq!(map.get_all_tokens("connection"), vec!["keep-alive", "Upgrade", "x-private"]);
    assert_eq!(map.get_all_tokens("upgrade"), vec!["websocket"]);
    assert!(map.get_all_tokens("te").is_empty());
    assert!(map.is_connection_upgrade());
    assert_eq!(value_text(&b"a b".to_vec()), Some(vec!['a', ' ', 'b']));
    assert_eq!(value_text(&vec![0x80]), None);
}

#[test]
fn a_connection_without_the_upgrade_option_is_no_upgrade() {
    let mut map = HeaderMap::new();
    assert!(!map.is_connection_upgrade());
    map.append("connection", b"keep-alive".to_vec());
    map.append("upgrade", b"websocket".to_vec());
    assert!(!map.is_connection_upgrade());
    map.append("connection", b"close, UPGRADE".to_vec());
    assert!(map.is_connection_upgrade());
}

#[test]
fn hop_by_hop_headers_are_stripped() {
    let mut map = HeaderMap::new();
    map.append("content-type", b"text/plain".to_vec());
    map.append("connection", b"close, X-Private, not a name".to_vec());
    map.append("x-private", b"1".to_vec());
    map.append("keep-alive", b"timeout=5".to_vec());
    map.append("proxy-connection", b"keep-alive".to_vec());
    map.append("te", b"trailers".to_vec());
    map.append("transfer-encoding", b"chunked".to_vec());
    map.append("upgrade", b"websocket".to_vec());
    map.append("x-kept", b"2".to_vec());
    map.append("x-private", b"3".to_vec());
    map.remove_hop_by_hop_headers();
    assert_eq!(names(&map), vec!["content-type", "x-kept"]);
}
