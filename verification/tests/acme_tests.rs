use aigw_console::acme::{
    account_field, account_key, account_key_field, new_account_key, stored_account_bytes,
    check_account, check_challenge, check_domains, AccountStatus, IssueError, ServerError,
    authorization_awaits_done, challenge_awaits_done, jwk_json, jws, jws_signing_input, jws_with_signature, key_authorization, mail_contact,
    next_poll, order_awaits_done, order_awaits_ready, request_payload, retry_after_error,
    AccountRequest, AcmeError, Authorization, AuthorizationStatus, Challenge, ChallengeStatus, Identifier,
    Jwk, OrderRequest, OrderStatus, PollStep,
};
use base64::Engine;
use ring::signature::KeyPair;
use sha::utils::{Digest, DigestExt};

fn challenge(t: &str, token: Option<&str>) -> Challenge {
    Challenge {
        challenge_type: t.to_string(),
        url: format!("https://acme/{}", t),
        status: ChallengeStatus::Pending,
        validated: None,
        error: None,
        token: token.map(|s| s.to_string()),
    }
}

#[test]
fn get_challenge_returns_first_of_type() {
    let auth = Authorization {
        url: "u".to_string(),
        identifier: Identifier { id_type: "dns".to_string(), value: "a.com".to_string() },
        status: AuthorizationStatus::Pending,
        expires: None,
        challenges: vec![challenge("dns-01", Some("t0")), challenge("http-01", Some("t1")), challenge("http-01", Some("t2"))],
        wildcard: None,
    };
    let c = auth.get_challenge("http-01").expect("challenge");
    assert_eq!(c.token.as_deref(), Some("t1"));
    assert!(auth.get_challenge("tls-alpn-01").is_none());
}

#[test]
fn waits_poll_at_most_attempts_times() {
    assert_eq!(next_poll(false, 0, 3), PollStep::Finished);
    assert_eq!(next_poll(true, 0, 3), PollStep::Poll);
    assert_eq!(next_poll(true, 2, 3), PollStep::Poll);
    assert_eq!(next_poll(true, 3, 3), PollStep::GaveUp);
    let mut polls = 0;
    while next_poll(true, polls, 6) == PollStep::Poll {
        polls += 1;
    }
    assert_eq!(polls, 6);
}

#[test]
fn states_that_keep_a_wait_going() {
    assert!(order_awaits_ready(OrderStatus::Pending));
    assert!(!order_awaits_ready(OrderStatus::Ready));
    assert!(order_awaits_done(OrderStatus::Ready));
    assert!(order_awaits_done(OrderStatus::Processing));
    assert!(!order_awaits_done(OrderStatus::Valid));
    assert!(!order_awaits_done(OrderStatus::Invalid));
    assert!(authorization_awaits_done(AuthorizationStatus::Pending));
    assert!(!authorization_awaits_done(AuthorizationStatus::Valid));
    assert!(challenge_awaits_done(ChallengeStatus::Processing));
    assert!(!challenge_awaits_done(ChallengeStatus::Invalid));
}

#[test]
fn bad_nonce_is_retried_three_times() {
    let bad = Some("urn:ietf:params:acme:error:badNonce".to_string());
    assert!(retry_after_error(&bad, 1));
    assert!(retry_after_error(&bad, 3));
    assert!(!retry_after_error(&bad, 4));
    assert!(!retry_after_error(&Some("urn:ietf:params:acme:error:malformed".to_string()), 1));
    assert!(!retry_after_error(&None, 1));
}

#[test]
fn empty_json_string_payload_is_empty_body() {
    assert_eq!(request_payload("\"\"".to_string()), "");
    assert_eq!(request_payload("{}".to_string()), "{}");
}

#[test]
fn builders_and_contact() {
    let mut a = AccountRequest::new();
    a.contact(vec![mail_contact("me@x.org")]);
    a.terms_of_service_agreed(true);
    a.only_return_existing(false);
    assert_eq!(a.contact, Some(vec!["mailto:me@x.org".to_string()]));
    assert_eq!(a.terms_of_service_agreed, Some(true));
    assert_eq!(a.only_return_existing, Some(false));
    let mut o = OrderRequest::new();
    o.add_dns_identifier("a.com".to_string());
    o.add_dns_identifier("b.com".to_string());
    assert_eq!(o.identifiers.len(), 2);
    assert_eq!(o.identifiers[1].id_type, "dns");
    assert_eq!(o.identifiers[1].value, "b.com");
}

fn b64(d: &[u8]) -> String {
    base64::prelude::BASE64_URL_SAFE_NO_PAD.encode(d)
}

#[test]
fn jwk_from_public_point() {
    let mut pk = vec![4u8];
    pk.extend((1..=64).map(|i| i as u8));
    let k = Jwk::new(&pk);
    assert_eq!(k.kty, "EC");
    assert_eq!(k.crv, "P-256");
    assert_eq!(k.x, b64(&pk[1..33]));
    assert_eq!(k.y, b64(&pk[33..65]));
    let json = jwk_json(&k);
    assert_eq!(json, format!("{{\"crv\":\"P-256\",\"kty\":\"EC\",\"x\":\"{}\",\"y\":\"{}\"}}", k.x, k.y));
}

#[test]
fn base64_of_known_bytes() {
    let k = Jwk::new(&[0u8; 65]);
    assert_eq!(k.x, "AAAAAAAAAAAAAAAAAAAAAAAAAAAAAAAAAAAAAAAAAAA");
}

fn test_key() -> Vec<u8> {
    let rng = ring::rand::SystemRandom::new();
    ring::signature::EcdsaKeyPair::generate_pkcs8(&ring::signature::ECDSA_P256_SHA256_FIXED_SIGNING, &rng)
        .expect("key")
        .as_ref()
        .to_vec()
}

fn public_key(pkcs8: &[u8]) -> Vec<u8> {
    let rng = ring::rand::SystemRandom::new();
    let k = ring::signature::EcdsaKeyPair::from_pkcs8(&ring::signature::ECDSA_P256_SHA256_FIXED_SIGNING, pkcs8, &rng)
        .expect("key");
    k.public_key().as_ref().to_vec()
}

fn sha256(data: &[u8]) -> Vec<u8> {
    let mut h = sha::sha256::Sha256::default();
    h.digest(data);
    h.to_bytes()
}

#[test]
fn key_authorization_is_token_and_key_thumbprint() {
    let key = test_key();
    let pk = public_key(&key);
    let k = Jwk::new(&pk);
    let expected = format!("tok.{}", b64(&sha256(jwk_json(&k).as_bytes())));
    let got = key_authorization(&Some("tok".to_string()), &key).expect("ok");
    assert_eq!(got, Some(expected));
    assert_eq!(key_authorization(&None, &key).expect("ok"), None);
    assert!(matches!(key_authorization(&Some("t".to_string()), &[1, 2, 3]), Err(AcmeError::KeyRejected)));
}

#[test]
fn sha256_of_empty_input() {
    // the digest that the key authorization is built from
    assert_eq!(
        hex::encode(sha256(b"")),
        "e3b0c44298fc1c149afbf4c8996fb92427ae41e4649b934ca495991b7852b855"
    );
}

#[test]
fn jws_carries_header_payload_and_valid_signature() {
    let key = test_key();
    let pk = public_key(&key);
    let body = jws("https://acme/new", "n0nce", "{\"a\":1}", &key, &Some("acct".to_string())).expect("signed");
    let v: serde_json::Value = serde_json::from_str(&body).expect("json");
    let protected = v["protected"].as_str().unwrap();
    let payload = v["payload"].as_str().unwrap();
    let signature = v["signature"].as_str().unwrap();
    let header = base64::prelude::BASE64_URL_SAFE_NO_PAD.decode(protected).unwrap();
    assert_eq!(
        String::from_utf8(header).unwrap(),
        "{\"nonce\":\"n0nce\",\"alg\":\"ES256\",\"url\":\"https://acme/new\",\"kid\":\"acct\"}"
    );
    assert_eq!(payload, b64(b"{\"a\":1}"));
    assert!(body.starts_with("{\"payload\":"));
    let sig = base64::prelude::BASE64_URL_SAFE_NO_PAD.decode(signature).unwrap();
    let verifier = ring::signature::UnparsedPublicKey::new(&ring::signature::ECDSA_P256_SHA256_FIXED, &pk);
    let input = format!("{}.{}", protected, payload);
    assert!(verifier.verify(input.as_bytes(), &sig).is_ok());
    assert_eq!(sig.len(), 64);
    let acct = Some("acct".to_string());
    assert_eq!(jws_signing_input("https://acme/new", "n0nce", "{\"a\":1}", &pk, &acct), input);
    assert_eq!(jws_with_signature("https://acme/new", "n0nce", "{\"a\":1}", &pk, &acct, &sig), body);
}

#[test]
fn jws_parts_on_known_values() {
    let pk = [0u8; 65];
    let acct = Some("a".to_string());
    let protected = b64(b"{\"nonce\":\"n\",\"alg\":\"ES256\",\"url\":\"u\",\"kid\":\"a\"}");
    assert_eq!(jws_signing_input("u", "n", "p", &pk, &acct), format!("{}.{}", protected, b64(b"p")));
    assert_eq!(
        jws_with_signature("u", "n", "p", &pk, &acct, &[1, 2, 3]),
        format!("{{\"payload\":\"{}\",\"protected\":\"{}\",\"signature\":\"AQID\"}}", b64(b"p"), protected)
    );
}

#[test]
fn jws_without_account_carries_the_key() {
    let key = test_key();
    let pk = public_key(&key);
    let body = jws("u", "n", "", &key, &None).expect("signed");
    let v: serde_json::Value = serde_json::from_str(&body).expect("json");
    let header = base64::prelude::BASE64_URL_SAFE_NO_PAD.decode(v["protected"].as_str().unwrap()).unwrap();
    let expected = format!("{{\"nonce\":\"n\",\"alg\":\"ES256\",\"url\":\"u\",\"jwk\":{}}}", jwk_json(&Jwk::new(&pk)));
    assert_eq!(String::from_utf8(header).unwrap(), expected);
    assert_eq!(v["payload"].as_str().unwrap(), "");
    assert!(matches!(jws("u", "n", "", &[0u8; 4], &None), Err(AcmeError::KeyRejected)));
}

#[test]
fn issuance_checks() {
    assert!(matches!(check_domains(&vec![]), Err(IssueError::DomainBlank)));
    assert!(check_domains(&vec!["a.com".to_string()]).is_ok());
    assert!(check_account(AccountStatus::Valid).is_ok());
    assert!(matches!(check_account(AccountStatus::Revoked), Err(IssueError::AccountInvalid)));
    let mut c = challenge("http-01", Some("t"));
    assert!(check_challenge(&c).is_ok());
    c.error = Some(ServerError { error_type: None, title: None, status: Some(400), detail: None });
    assert!(matches!(check_challenge(&c), Err(IssueError::ChallengeFailed)));
}

#[test]
fn jws_header_escapes_like_serde_json() {
    let pk = [0u8; 65];
    let nonce = "a\"b\\c\n\u{1}\u{7f}é";
    let url = "u\t\r\u{8}\u{c}";
    let acct = Some("k\"".to_string());
    let expected = format!(
        "{{\"nonce\":{},\"alg\":\"ES256\",\"url\":{},\"kid\":{}}}",
        serde_json::to_string(nonce).unwrap(),
        serde_json::to_string(url).unwrap(),
        serde_json::to_string("k\"").unwrap()
    );
    assert_eq!(expected, "{\"nonce\":\"a\\\"b\\\\c\\n\\u0001\u{7f}é\",\"alg\":\"ES256\",\"url\":\"u\\t\\r\\b\\f\",\"kid\":\"k\\\"\"}");
    let input = jws_signing_input(url, nonce, "", &pk, &acct);
    assert_eq!(input, format!("{}.", b64(expected.as_bytes())));
}

#[test]
fn certificate_request_names_the_order() {
    // whether the crypto backend can make an RSA key depends on its build
    if let Some((key, csr)) = aigw_console::acme::certificate_request(&vec!["a.com".to_string(), "b.com".to_string()]) {
        assert!(key.contains("PRIVATE KEY"));
        let der = base64::prelude::BASE64_URL_SAFE_NO_PAD.decode(&csr).unwrap();
        assert!(der.windows(5).any(|w| w == b"a.com"));
        assert!(der.windows(5).any(|w| w == b"b.com"));
    }
}

#[test]
fn stored_account_round_trips_through_standard_base64() {
    let json = "{\"id\":\"x\"}";
    let field = account_field(json);
    assert_eq!(field, base64::prelude::BASE64_STANDARD.encode(json));
    assert_eq!(stored_account_bytes(&field), Some(json.as_bytes().to_vec()));
    assert_eq!(stored_account_bytes("not base64!"), None);
    assert_eq!(account_key_field(&[1, 2]), "AQI=");
    assert_eq!(account_key("AQI="), Some(vec![1, 2]));
    assert_eq!(account_key_field(&[1]), "AQ==");
    let (k, f) = new_account_key().expect("ring makes P-256 keys");
    assert_eq!(account_key(&f), Some(k.clone()));
    let rng = ring::rand::SystemRandom::new();
    assert!(ring::signature::EcdsaKeyPair::from_pkcs8(&ring::signature::ECDSA_P256_SHA256_FIXED_SIGNING, &k, &rng).is_ok());
}

#[test]
fn jwk_members_are_json_strings() {
    let k = Jwk { crv: "a\"b".to_string(), kty: "\\".to_string(), x: "\n".to_string(), y: "y".to_string() };
    let expected = format!(
        "{{\"crv\":{},\"kty\":{},\"x\":{},\"y\":{}}}",
        serde_json::to_string("a\"b").unwrap(),
        serde_json::to_string("\\").unwrap(),
        serde_json::to_string("\n").unwrap(),
        serde_json::to_string("y").unwrap()
    );
    assert_eq!(jwk_json(&k), expected);
}
