use gcdevproxy::tls::{
    create_csr, generate_tls_key, AcceptError, Identity, TlsAcceptor, TlsMode, Watchdog,
};
use openssl::asn1::Asn1Time;
use openssl::hash::MessageDigest;
use openssl::pkey::{PKey, Private};
use openssl::x509::{X509NameBuilder, X509Req, X509};

fn certificate(key: &PKey<Private>, name: &str, days: u32) -> Vec<u8> {
    let mut subject = X509NameBuilder::new().unwrap();
    subject.append_entry_by_text("CN", name).unwrap();
    let subject = subject.build();
    let mut builder = X509::builder().unwrap();
    builder.set_version(2).unwrap();
    builder.set_subject_name(&subject).unwrap();
    builder.set_issuer_name(&subject).unwrap();
    builder.set_pubkey(key).unwrap();
    builder.set_not_before(&Asn1Time::days_from_now(0).unwrap()).unwrap();
    builder.set_not_after(&Asn1Time::days_from_now(days).unwrap()).unwrap();
    builder.sign(key, MessageDigest::sha256()).unwrap();
    builder.build().to_pem().unwrap()
}

#[test]
fn an_identity_needs_a_key_and_a_certificate() {
    let key = generate_tls_key().ok().unwrap();
    let key_pem = key.private_key_to_pem_pkcs8().unwrap();
    let mut chain = certificate(&key, "cam.example.com", 30);
    chain.extend(certificate(&key, "ca.example.com", 300));

    let identity = Identity::from_pkcs8(&chain, &key_pem).ok().unwrap();
    let left = identity.expires_in().ok().unwrap();
    assert!(left > 29 * 86_400 && left <= 30 * 86_400);

    let failed = Identity::from_pkcs8(b"", &key_pem).err().unwrap();
    assert_eq!(failed.message(), "empty certificate chain");
    let failed = Identity::from_pkcs8(&chain, b"no key").err().unwrap();
    assert!(failed.message().starts_with("OpenSSL"));
}

#[test]
fn an_acceptor_without_identity_refuses_connections() {
    let mut acceptor = TlsAcceptor::dummy();
    assert_eq!(acceptor.accept().err(), Some(AcceptError::ConnectionRefused));

    let key = generate_tls_key().ok().unwrap();
    let key_pem = key.private_key_to_pem_pkcs8().unwrap();
    let chain = certificate(&key, "cam.example.com", 30);
    let identity = Identity::from_pkcs8(&chain, &key_pem).ok().unwrap();
    assert!(acceptor.set_identity(&identity).is_ok());
    assert!(acceptor.accept().is_ok());

    // A new identity takes the place of the old one.
    let other = generate_tls_key().ok().unwrap();
    let other_pem = other.private_key_to_pem_pkcs8().unwrap();
    let renewed = Identity::from_pkcs8(&certificate(&other, "cam.example.com", 60), &other_pem)
        .ok()
        .unwrap();
    assert!(acceptor.set_identity(&renewed).is_ok());
    assert!(acceptor.accept().is_ok());
    assert!(TlsAcceptor::new(&identity).is_ok());
}

#[test]
fn the_tls_mode_decides_about_the_acceptor() {
    assert!(matches!(TlsMode::Disabled.create_tls_acceptor(), Ok(None)));
    assert!(!TlsMode::Disabled.needs_acme_account());
    match TlsMode::LetsEncrypt.create_tls_acceptor() {
        Ok(Some(acceptor)) => assert!(acceptor.accept().is_err()),
        _ => panic!("a dummy acceptor is made"),
    }
    assert!(TlsMode::LetsEncrypt.needs_acme_account());

    let key = generate_tls_key().ok().unwrap();
    let key_pem = key.private_key_to_pem_pkcs8().unwrap();
    let chain = certificate(&key, "cam.example.com", 30);
    let mode = TlsMode::Simple(Identity::from_pkcs8(&chain, &key_pem).ok().unwrap());
    assert!(!mode.needs_acme_account());
    match mode.create_tls_acceptor() {
        Ok(Some(acceptor)) => assert!(acceptor.accept().is_ok()),
        _ => panic!("an acceptor is made"),
    }
}

#[test]
fn a_signing_request_names_the_host() {
    let key = generate_tls_key().ok().unwrap();
    let der = create_csr(&key, "cam.example.com").ok().unwrap();
    let request = X509Req::from_der(&der).unwrap();
    assert!(request.verify(&key).unwrap());
    let name = request.subject_name().entries().next().unwrap();
    assert_eq!(name.data().as_utf8().unwrap().to_string(), "cam.example.com");
    assert_eq!(request.version(), 1);
}

#[test]
fn the_watchdog_installs_what_was_issued() {
    let watchdog = Watchdog::new("cam.example.com").ok().unwrap();
    assert_eq!(watchdog.hostname(), "cam.example.com");
    let der = watchdog.create_csr().ok().unwrap();
    let request = X509Req::from_der(&der).unwrap();

    // Issue a certificate for the key of the request.
    let ca = generate_tls_key().ok().unwrap();
    let mut subject = X509NameBuilder::new().unwrap();
    subject.append_entry_by_text("CN", "cam.example.com").unwrap();
    let subject = subject.build();
    let mut builder = X509::builder().unwrap();
    builder.set_version(2).unwrap();
    builder.set_subject_name(&subject).unwrap();
    builder.set_issuer_name(&subject).unwrap();
    builder.set_pubkey(&request.public_key().unwrap()).unwrap();
    builder.set_not_before(&Asn1Time::days_from_now(0).unwrap()).unwrap();
    builder.set_not_after(&Asn1Time::days_from_now(90).unwrap()).unwrap();
    builder.sign(&ca, MessageDigest::sha256()).unwrap();
    let chain = builder.build().to_pem().unwrap();

    let mut acceptor = TlsAcceptor::dummy();
    let left = watchdog.install(&mut acceptor, &chain).ok().unwrap();
    assert!(left > 89 * 86_400 && left <= 90 * 86_400);
    assert!(acceptor.accept().is_ok());

    let mut other = TlsAcceptor::dummy();
    assert!(watchdog.install(&mut other, b"").is_err());
    assert!(other.accept().is_err());
}

#[test]
fn an_expired_certificate_is_not_installed() {
    let watchdog = Watchdog::new("cam.example.com").ok().unwrap();
    let request = X509Req::from_der(&watchdog.create_csr().ok().unwrap()).unwrap();
    let ca = generate_tls_key().ok().unwrap();
    let mut subject = X509NameBuilder::new().unwrap();
    subject.append_entry_by_text("CN", "cam.example.com").unwrap();
    let subject = subject.build();
    let mut builder = X509::builder().unwrap();
    builder.set_version(2).unwrap();
    builder.set_subject_name(&subject).unwrap();
    builder.set_issuer_name(&subject).unwrap();
    builder.set_pubkey(&request.public_key().unwrap()).unwrap();
    builder.set_not_before(&Asn1Time::from_unix(0).unwrap()).unwrap();
    builder.set_not_after(&Asn1Time::from_unix(86_400).unwrap()).unwrap();
    builder.sign(&ca, MessageDigest::sha256()).unwrap();
    let chain = builder.build().to_pem().unwrap();

    let mut acceptor = TlsAcceptor::dummy();
    let refused = watchdog.install(&mut acceptor, &chain).err().unwrap();
    assert_eq!(refused.message(), "received expired certificate");
    // The acceptor keeps what it had: nothing.
    assert!(acceptor.accept().is_err());
}
