use base64::Engine;
use gcdevproxy::error::Error;
use gcdevproxy::json::{write_string, write_text_member};
use gcdevproxy::acme::{Account, EmptyObject};
use gcdevproxy::jws::{
    base64url, header_json, signing_text, EllipticCurveParams, Empty, Key, Message,
    MessageBuilder, Params, ES256,
};

fn decode(text: &str) -> Vec<u8> {
    base64::prelude::BASE64_URL_SAFE_NO_PAD.decode(text).unwrap()
}

#[test]
fn base64url_is_url_safe_and_unpadded() {
    assert_eq!(base64url(b"hello"), "aGVsbG8");
    assert_eq!(base64url(&[0xfb, 0xff]), "-_8");
    assert_eq!(base64url(b""), "");
}

#[test]
fn json_strings_are_escaped() {
    let mut out = String::new();
    write_string(&mut out, "a\"b\\c\n\t\r\u{8}\u{c}\u{1}\u{1f}\u{7f}\u{e9}/");
    assert_eq!(out, "\"a\\\"b\\\\c\\n\\t\\r\\b\\f\\u0001\\u001f\u{7f}\u{e9}/\"");
    let mut out = String::from("{");
    write_text_member(&mut out, "k", "v");
    assert_eq!(out, "{\"k\":\"v\"");
    // The writer agrees with serde_json on what it writes.
    let text = "quote\" slash\\ control\u{0}\u{b} unicode\u{2028}";
    let mut out = String::new();
    write_string(&mut out, text);
    assert_eq!(out, serde_json::to_string(text).unwrap());
}

#[test]
fn the_header_names_the_key_or_its_identifier() {
    let params = Params::new(EllipticCurveParams::new("P-256", "eHg", "eXk"));
    assert_eq!(
        header_json("ES256", "n1", "https://acme/new", Some(&params), None),
        "{\"alg\":\"ES256\",\"nonce\":\"n1\",\"url\":\"https://acme/new\",\"jwk\":{\"kty\":\"EC\",\"crv\":\"P-256\",\"x\":\"eHg\",\"y\":\"eXk\"}}"
    );
    assert_eq!(
        header_json("ES256", "n\"2", "u", None, Some("https://acme/acct/1")),
        "{\"alg\":\"ES256\",\"nonce\":\"n\\\"2\",\"url\":\"u\",\"kid\":\"https://acme/acct/1\"}"
    );
    assert_eq!(header_json("a", "b", "c", None, None), "{\"alg\":\"a\",\"nonce\":\"b\",\"url\":\"c\"}");
    assert_eq!(
        EllipticCurveParams::new("P-256", "eHg", "eXk").thumbprint_input(),
        "{\"crv\":\"P-256\",\"kty\":\"EC\",\"x\":\"eHg\",\"y\":\"eXk\"}"
    );
}

#[test]
fn a_message_holds_the_encoded_header_payload_and_signature() {
    let key = ES256::new().ok().unwrap();
    let payload = Account::new_order_payload("cam.example.com");
    let message = MessageBuilder::new(&key)
        .with_payload(&payload)
        .build_with_kid_header("kid-1", "https://acme/order", "nonce-1")
        .ok()
        .unwrap();
    assert_eq!(
        decode(message.protected()),
        b"{\"alg\":\"ES256\",\"nonce\":\"nonce-1\",\"url\":\"https://acme/order\",\"kid\":\"kid-1\"}".to_vec()
    );
    assert_eq!(
        decode(message.payload()),
        b"{\"identifiers\":[{\"type\":\"dns\",\"value\":\"cam.example.com\"}]}".to_vec()
    );
    assert!(!decode(message.signature()).is_empty());
    assert_eq!(
        message.to_json(),
        format!(
            "{{\"protected\":\"{}\",\"payload\":\"{}\",\"signature\":\"{}\"}}",
            message.protected(),
            message.payload(),
            message.signature()
        )
    );
    let parsed: serde_json::Value = serde_json::from_str(&message.to_json()).unwrap();
    assert_eq!(parsed["protected"], message.protected());
}

#[test]
fn a_message_without_payload_has_an_empty_payload() {
    let key = ES256::new().ok().unwrap();
    let message = MessageBuilder::new(&key)
        .build_with_jwk_header("https://acme/new-acct", "n")
        .ok()
        .unwrap();
    assert_eq!(message.payload(), "");
    let mut jwk = String::new();
    key.params().write_json(&mut jwk);
    assert_eq!(
        decode(message.protected()),
        format!(
            "{{\"alg\":\"ES256\",\"nonce\":\"n\",\"url\":\"https://acme/new-acct\",\"jwk\":{}}}",
            jwk
        )
        .into_bytes()
    );
    let null = MessageBuilder::new(&key)
        .with_payload(&Empty)
        .build_with_jwk_header("u", "n")
        .ok()
        .unwrap();
    assert_eq!(decode(null.payload()), b"null".to_vec());
    let object = MessageBuilder::new(&key)
        .with_payload(&EmptyObject)
        .build_with_kid_header("k", "u", "n")
        .ok()
        .unwrap();
    assert_eq!(decode(object.payload()), b"{}".to_vec());
}

#[test]
fn header_and_payload_are_signed_with_a_full_stop_between_them() {
    assert_eq!(signing_text("aGVhZGVy", "cGF5bG9hZA"), "aGVhZGVy.cGF5bG9hZA");
    assert_eq!(signing_text("", ""), ".");
}

#[test]
fn a_message_fails_with_its_signature() {
    let failed = Message::assemble("h".to_string(), "p".to_string(), Err(Error::from_msg("no signature")))
        .err()
        .unwrap();
    assert_eq!(failed.message(), "no signature");
    assert_eq!(
        Message::assemble("h".to_string(), "p".to_string(), Ok(vec![0xfb, 0xff]))
            .ok()
            .unwrap()
            .signature(),
        "-_8"
    );
}

#[test]
fn a_new_key_signs_what_its_public_point_verifies() {
    let key = ES256::new().ok().unwrap();
    assert_eq!(key.algorithm(), "ES256");

    let mut json = String::new();
    key.params().write_json(&mut json);
    let jwk: serde_json::Value = serde_json::from_str(&json).unwrap();
    assert_eq!(jwk["kty"], "EC");
    assert_eq!(jwk["crv"], "P-256");
    let x = decode(jwk["x"].as_str().unwrap());
    let y = decode(jwk["y"].as_str().unwrap());

    // The thumbprint is the digest of the key's members in the order of
    // their names.
    let input = format!(
        "{{\"crv\":\"P-256\",\"kty\":\"EC\",\"x\":\"{}\",\"y\":\"{}\"}}",
        jwk["x"].as_str().unwrap(),
        jwk["y"].as_str().unwrap()
    );
    let digest = openssl::hash::hash(openssl::hash::MessageDigest::sha256(), input.as_bytes()).unwrap();
    assert_eq!(key.thumbprint(), base64url(&digest));

    let signature = key.sign("header", "payload").ok().unwrap();
    assert!(signature.len() <= 64);
    let again = key.sign("header", "payload").ok().unwrap();
    assert_ne!(signature, again);

    // The signature verifies under the public point.
    let group = openssl::ec::EcGroup::from_curve_name(openssl::nid::Nid::X9_62_PRIME256V1).unwrap();
    let x = openssl::bn::BigNum::from_slice(&x).unwrap();
    let y = openssl::bn::BigNum::from_slice(&y).unwrap();
    let public = openssl::ec::EcKey::from_public_key_affine_coordinates(&group, &x, &y).unwrap();
    let other = ES256::new().ok().unwrap();
    let mut verified = false;
    // The two numbers are written without leading zeros, so the place where
    // the first ends is not marked: try every split.
    for split in 0..=signature.len() {
        let r = openssl::bn::BigNum::from_slice(&signature[..split]).unwrap();
        let s = openssl::bn::BigNum::from_slice(&signature[split..]).unwrap();
        let candidate = openssl::ecdsa::EcdsaSig::from_private_components(r, s).unwrap();
        let digest = openssl::hash::hash(openssl::hash::MessageDigest::sha256(), b"header.payload").unwrap();
        if candidate.verify(&digest, &public).unwrap_or(false) {
            verified = true;
        }
    }
    assert!(verified);
    assert_ne!(other.thumbprint(), key.thumbprint());
}
