use gcdevproxy::acme::{
    Account, AuthorizationResponse, ChallengeEntry, Directory, EmptyObject, FinalizePayload,
    Issuance, IssuanceAction, IssuanceEvent, IssuanceState, NewAccountResponse, NewOrderResponse,
    Order, OrderStatusResponse, LETS_ENCRYPT_DIRECTORY,
};
use gcdevproxy::challenge::ChallengeRegistrations;
use gcdevproxy::error::Error;
use gcdevproxy::jws::Payload;

fn entry(kind: &str, url: &str, token: &str) -> ChallengeEntry {
    ChallengeEntry { kind: kind.to_string(), url: url.to_string(), token: token.to_string() }
}

fn account() -> Account {
    Directory::new("https://acme/new-acct", "https://acme/new-order")
        .new_account(
            Some("https://acme/acct/1".to_string()),
            Ok(NewAccountResponse { status: "valid".to_string() }),
            "thumb",
        )
        .ok()
        .unwrap()
}

fn order() -> Order {
    let placed = Account::placed_order(
        Some("https://acme/order/1".to_string()),
        Ok(NewOrderResponse {
            authorizations: vec!["https://acme/authz/1".to_string(), "https://acme/authz/2".to_string()],
            finalize: "https://acme/finalize/1".to_string(),
        }),
    )
    .ok()
    .unwrap();
    let authorization = AuthorizationResponse {
        status: "pending".to_string(),
        challenges: vec![
            entry("dns-01", "https://acme/chall/dns", "tok-dns"),
            entry("http-01", "https://acme/chall/http", "tok-http"),
            entry("http-01", "https://acme/chall/http2", "tok-http2"),
        ],
    };
    account().new_order(placed, authorization).ok().unwrap()
}

#[test]
fn the_directory_is_lets_encrypt() {
    assert_eq!(LETS_ENCRYPT_DIRECTORY, "https://acme-v02.api.letsencrypt.org/directory");
    let directory = Directory::new("a", "b");
    assert_eq!(directory.new_account_url(), "a");
}

#[test]
fn payloads_are_written_as_json() {
    assert_eq!(
        Directory::new_account_payload(None).to_json().ok().unwrap(),
        "{\"termsOfServiceAgreed\":true,\"contact\":[]}"
    );
    assert_eq!(
        Directory::new_account_payload(Some("mailto:a@b.c")).to_json().ok().unwrap(),
        "{\"termsOfServiceAgreed\":true,\"contact\":[\"mailto:a@b.c\"]}"
    );
    assert_eq!(
        Account::new_order_payload("cam.example.com").to_json().ok().unwrap(),
        "{\"identifiers\":[{\"type\":\"dns\",\"value\":\"cam.example.com\"}]}"
    );
    assert_eq!(EmptyObject.to_json().ok().unwrap(), "{}");
    assert_eq!(
        FinalizePayload { csr: vec![0xfb, 0xff] }.to_json().ok().unwrap(),
        "{\"csr\":\"-_8\"}"
    );
}

#[test]
fn an_account_needs_a_location_and_a_valid_status() {
    let directory = Directory::new("https://acme/new-acct", "https://acme/new-order");
    let account = account();
    assert_eq!(account.account_url(), "https://acme/acct/1");
    assert_eq!(account.new_order_url(), "https://acme/new-order");

    let failed = directory
        .new_account(None, Ok(NewAccountResponse { status: "valid".to_string() }), "t")
        .err()
        .unwrap();
    assert_eq!(failed.message(), "missing account URL");
    let failed = directory
        .new_account(
            Some("u".to_string()),
            Ok(NewAccountResponse { status: "deactivated".to_string() }),
            "t",
        )
        .err()
        .unwrap();
    assert_eq!(failed.message(), "ACME account status: deactivated");
    let failed = directory
        .new_account(Some("u".to_string()), Err(Error::from_msg("bad json")), "t")
        .err()
        .unwrap();
    assert_eq!(failed.message(), "bad json");
}

#[test]
fn an_order_takes_the_first_authorization_and_the_first_http_challenge() {
    let order = order();
    assert_eq!(order.order_url(), "https://acme/order/1");
    assert_eq!(order.authorization_url(), "https://acme/authz/1");
    assert_eq!(order.finalize_url(), "https://acme/finalize/1");
    assert_eq!(order.challenge_url(), "https://acme/chall/http");
    assert_eq!(order.challenge().token(), "tok-http");
    assert_eq!(order.challenge().key_authorization(), "tok-http.thumb");
}

#[test]
fn an_order_without_location_authorization_or_challenge_is_refused() {
    let answer = || NewOrderResponse { authorizations: vec!["a".to_string()], finalize: "f".to_string() };
    let failed = Account::placed_order(None, Ok(answer())).err().unwrap();
    assert_eq!(failed.message(), "missing order URL");
    let failed = Account::placed_order(
        Some("o".to_string()),
        Ok(NewOrderResponse { authorizations: vec![], finalize: "f".to_string() }),
    )
    .err()
    .unwrap();
    assert_eq!(failed.message(), "no authorizations in the new-order response");
    let failed = Account::placed_order(Some("o".to_string()), Err(Error::from_msg("x"))).err().unwrap();
    assert_eq!(failed.message(), "x");

    let placed = Account::placed_order(Some("o".to_string()), Ok(answer())).ok().unwrap();
    let authorization = AuthorizationResponse {
        status: "pending".to_string(),
        challenges: vec![entry("dns-01", "u", "t"), entry("tls-alpn-01", "u", "t")],
    };
    let failed = account().new_order(placed, authorization).err().unwrap();
    assert_eq!(failed.message(), "no HTTP challenge");
}

#[test]
fn an_issuance_runs_from_the_challenge_to_the_certificate() {
    let mut challenges = ChallengeRegistrations::new();
    let (mut issuance, action) = Issuance::start(order(), &mut challenges);
    // The challenge is registered before the signing request is made.
    assert!(matches!(action, IssuanceAction::CreateRequest));
    assert_eq!(issuance.current_state(), IssuanceState::AwaitingRequest);
    assert!(challenges.create_response::<()>("tok-http").is_some());
    let action = issuance.step(&mut challenges, IssuanceEvent::Request(vec![1, 2, 3]));
    assert!(matches!(action, IssuanceAction::ConfirmChallenge(url) if url == "https://acme/chall/http"));
    assert_eq!(issuance.current_state(), IssuanceState::Confirming);

    let action = issuance.step(&mut challenges, IssuanceEvent::Confirmed);
    assert!(matches!(action, IssuanceAction::AwaitFetch));
    let action = issuance.step(&mut challenges, IssuanceEvent::Fetched);
    assert!(matches!(action, IssuanceAction::GetAuthorization(url, 0) if url == "https://acme/authz/1"));
    let action = issuance.step(&mut challenges, IssuanceEvent::Authorization("pending".to_string()));
    assert!(matches!(action, IssuanceAction::GetAuthorization(url, 1) if url == "https://acme/authz/1"));
    let action = issuance.step(&mut challenges, IssuanceEvent::Authorization("valid".to_string()));
    match action {
        IssuanceAction::Finalize(url, payload) => {
            assert_eq!(url, "https://acme/finalize/1");
            assert_eq!(payload.csr, vec![1, 2, 3]);
        }
        _ => panic!("the order is finalized"),
    }
    let processing = OrderStatusResponse { status: "processing".to_string(), certificate: None };
    let action = issuance.step(&mut challenges, IssuanceEvent::OrderStatus(processing));
    assert!(matches!(action, IssuanceAction::GetOrder(url) if url == "https://acme/order/1"));
    let valid = OrderStatusResponse {
        status: "valid".to_string(),
        certificate: Some("https://acme/cert/1".to_string()),
    };
    let action = issuance.step(&mut challenges, IssuanceEvent::OrderStatus(valid));
    assert!(matches!(action, IssuanceAction::Download(url) if url == "https://acme/cert/1"));
    assert_eq!(issuance.current_state(), IssuanceState::Downloading);
    assert!(challenges.create_response::<()>("tok-http").is_some());

    let action = issuance.step(&mut challenges, IssuanceEvent::Certificate(b"PEM".to_vec()));
    assert!(matches!(action, IssuanceAction::Done(chain) if chain == b"PEM".to_vec()));
    assert_eq!(issuance.current_state(), IssuanceState::Finished);
    assert!(challenges.create_response::<()>("tok-http").is_none());
}

fn failure_of(events: Vec<IssuanceEvent>) -> String {
    let mut challenges = ChallengeRegistrations::new();
    let (mut issuance, _) = Issuance::start(order(), &mut challenges);
    let mut last = None;
    for event in events {
        last = Some(issuance.step(&mut challenges, event));
    }
    assert_eq!(issuance.current_state(), IssuanceState::Finished);
    // The registration is gone on every exit.
    assert!(challenges.create_response::<()>("tok-http").is_none());
    match last {
        Some(IssuanceAction::Fail(e)) => e.message(),
        _ => panic!("the issuance fails"),
    }
}

#[test]
fn an_issuance_fails_on_any_other_status() {
    assert_eq!(
        failure_of(vec![
            IssuanceEvent::Request(vec![]),
            IssuanceEvent::Confirmed,
            IssuanceEvent::Fetched,
            IssuanceEvent::Authorization("invalid".to_string()),
        ]),
        "invalid authorization"
    );
    assert_eq!(
        failure_of(vec![
            IssuanceEvent::Request(vec![]),
            IssuanceEvent::Confirmed,
            IssuanceEvent::Fetched,
            IssuanceEvent::Authorization("valid".to_string()),
            IssuanceEvent::OrderStatus(OrderStatusResponse {
                status: "invalid".to_string(),
                certificate: None,
            }),
        ]),
        "invalid order"
    );
    assert_eq!(
        failure_of(vec![
            IssuanceEvent::Request(vec![]),
            IssuanceEvent::Confirmed,
            IssuanceEvent::Fetched,
            IssuanceEvent::Authorization("valid".to_string()),
            IssuanceEvent::OrderStatus(OrderStatusResponse {
                status: "valid".to_string(),
                certificate: None,
            }),
        ]),
        "missing certificate URL"
    );
}

#[test]
fn an_issuance_fails_on_errors_and_on_events_out_of_turn() {
    assert_eq!(failure_of(vec![IssuanceEvent::Failed(Error::from_msg("HTTP 500"))]), "HTTP 500");
    assert_eq!(
        failure_of(vec![
            IssuanceEvent::Request(vec![]),
            IssuanceEvent::Confirmed,
            IssuanceEvent::Failed(Error::from_msg("renew timeout")),
        ]),
        "renew timeout"
    );
    assert_eq!(failure_of(vec![IssuanceEvent::Fetched]), "unexpected event");
    assert_eq!(
        failure_of(vec![
            IssuanceEvent::Request(vec![]),
            IssuanceEvent::Confirmed,
            IssuanceEvent::Certificate(vec![]),
        ]),
        "unexpected event"
    );
    assert_eq!(failure_of(vec![IssuanceEvent::Confirmed]), "unexpected event");
    assert_eq!(
        failure_of(vec![IssuanceEvent::Request(vec![]), IssuanceEvent::Request(vec![])]),
        "unexpected event"
    );
    assert_eq!(
        failure_of(vec![IssuanceEvent::Authorization("valid".to_string())]),
        "unexpected event"
    );
}
