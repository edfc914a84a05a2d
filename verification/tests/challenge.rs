use gcdevproxy::challenge::{Challenge, ChallengeRegistrations};
use gcdevproxy::message::Body;

#[test]
fn a_registered_challenge_is_answered_with_its_key_authorization() {
    let mut registrations = ChallengeRegistrations::new();
    let challenge = Challenge::new("token-1", "token-1.thumb");
    assert_eq!(challenge.token(), "token-1");
    assert_eq!(challenge.key_authorization(), "token-1.thumb");
    registrations.register(&challenge);

    let made = registrations.create_response::<()>("token-1").unwrap();
    assert!(made.first);
    assert_eq!(made.response.head.status, 200);
    assert_eq!(
        made.response.head.headers.get("Content-Type"),
        Some(&b"application/octet-stream".to_vec())
    );
    match made.response.body {
        Body::Full(bytes) => assert_eq!(bytes, b"token-1.thumb".to_vec()),
        _ => panic!("the answer carries the key authorization"),
    }
    assert!(registrations.is_authorized("token-1"));

    let again = registrations.create_response::<()>("token-1").unwrap();
    assert!(!again.first);

    registrations.deregister("token-1");
    assert!(registrations.create_response::<()>("token-1").is_none());
    assert!(!registrations.is_authorized("token-1"));
}

#[test]
fn an_unknown_token_has_no_answer() {
    let mut registrations = ChallengeRegistrations::new();
    assert!(registrations.create_response::<()>("nobody").is_none());
    registrations.register(&Challenge::new("a", "a.k"));
    assert!(registrations.create_response::<()>("b").is_none());
    assert!(!registrations.is_authorized("a"));
    registrations.deregister("b");
    assert!(registrations.create_response::<()>("a").is_some());
}
