use ngt_access::arbiter::acl::{AclDatabase, AclEntry, AclParameters};
use ngt_access::arbiter::request::{ControlTokenRequest, RequestType, Response};
use ngt_access::arbiter::state::{
    control_token_claims, get_control_token, get_control_token_at, process_at, MintError, State,
};
use ngt_access::cid::ComponentId;
use ngt_access::coap::ResponseCode;
use ngt_access::token::{decode_jwt, sign_claims, JwtClaims, TokenError, TOKEN_LIFETIME_SECS};

const ARBITER: &str = "aaaaaaaa-aaaa-aaaa-aaaa-aaaaaaaaaaaa";
const CONTROLLER: &str = "cccccccc-cccc-cccc-cccc-cccccccccccc";
const DEVICE_A: &str = "11111111-1111-1111-1111-111111111111";
const DEVICE_B: &str = "22222222-2222-2222-2222-222222222222";

fn id(text: &str) -> ComponentId {
    ComponentId::parse(text).unwrap()
}

fn mint_keys() -> (jsonwebtoken::EncodingKey, jsonwebtoken::DecodingKey) {
    let pair = rcgen::KeyPair::generate(&rcgen::PKCS_ECDSA_P256_SHA256).unwrap();
    let signing = jsonwebtoken::EncodingKey::from_ec_der(&pair.serialize_der());
    let verifying = jsonwebtoken::DecodingKey::from_ec_pem(pair.public_key_pem().as_bytes()).unwrap();
    (signing, verifying)
}

fn mint_acl() -> AclDatabase {
    AclDatabase {
        entries: vec![AclEntry {
            controller_cids: vec![id(CONTROLLER)],
            device_cids: vec![id(DEVICE_A), id(DEVICE_B)],
            parameters: AclParameters {
                read: vec!["speed".to_string(), "temperature".to_string()],
                write: vec!["speed".to_string()],
            },
        }],
    }
}

fn mint_request(devices: &[&str], read: &[&str], write: &[&str]) -> ControlTokenRequest {
    ControlTokenRequest {
        cid: id(CONTROLLER),
        devices: devices.iter().map(|d| id(d)).collect(),
        params_read: read.iter().map(|p| p.to_string()).collect(),
        params_write: write.iter().map(|p| p.to_string()).collect(),
    }
}

fn now_secs() -> u64 {
    ngt_access::clock::unix_time()
}

fn raw_claims(token: &str, key: &jsonwebtoken::DecodingKey, audience: &str) -> serde_json::Value {
    let mut validation = jsonwebtoken::Validation::new(jsonwebtoken::Algorithm::ES256);
    validation.set_audience(&[audience]);
    jsonwebtoken::decode::<serde_json::Value>(token, key, &validation).unwrap().claims
}

#[test]
fn token_lifetime_is_6000_seconds() {
    assert_eq!(TOKEN_LIFETIME_SECS, 6000);
}

#[test]
fn claims_bind_issuer_subject_audience_and_expiry() {
    let request = mint_request(&[DEVICE_A, DEVICE_B], &["speed"], &["speed"]);
    let claims = control_token_claims(&request, id(DEVICE_B), &id(ARBITER), 1_000_000);
    assert_eq!(claims.iss, ARBITER);
    assert_eq!(claims.sub, CONTROLLER);
    assert_eq!(claims.aud, DEVICE_B);
    assert_eq!(claims.exp, 1_006_000);
    assert_eq!(claims.params_read, vec!["speed".to_string()]);
    assert_eq!(claims.params_write, vec!["speed".to_string()]);
}

#[test]
fn one_token_is_minted_for_each_device() {
    let (signing, verifying) = mint_keys();
    let request = mint_request(&[DEVICE_A, DEVICE_B], &["speed", "temperature"], &[]);
    let now = now_secs();
    let response =
        get_control_token_at(&request, &mint_acl(), &signing, &id(ARBITER), now).unwrap();
    assert_eq!(response.tokens.len(), 2);
    for device in [DEVICE_A, DEVICE_B] {
        let token = response.tokens.get(&id(device).value).unwrap();
        let claims = raw_claims(token, &verifying, device);
        assert_eq!(claims.get("iss").unwrap().as_str(), Some(ARBITER));
        assert_eq!(claims.get("sub").unwrap().as_str(), Some(CONTROLLER));
        assert_eq!(claims.get("aud").unwrap().as_str(), Some(device));
        assert_eq!(claims.get("exp").unwrap().as_u64(), Some(now + 6000));
        let read: Vec<&str> = claims
            .get("params_read")
            .unwrap()
            .as_array()
            .unwrap()
            .iter()
            .map(|p| p.as_str().unwrap())
            .collect();
        assert_eq!(read, vec!["speed", "temperature"]);
        assert!(claims.get("params_write").unwrap().as_array().unwrap().is_empty());
        assert_eq!(claims.as_object().unwrap().len(), 6);
    }
}

#[test]
fn minted_token_has_an_es256_header() {
    let (signing, _) = mint_keys();
    let request = mint_request(&[DEVICE_A], &["speed"], &[]);
    let response =
        get_control_token_at(&request, &mint_acl(), &signing, &id(ARBITER), now_secs()).unwrap();
    let token = response.tokens.get(&id(DEVICE_A).value).unwrap();
    let header = jsonwebtoken::decode_header(token).unwrap();
    assert_eq!(header.alg, jsonwebtoken::Algorithm::ES256);
    assert_eq!(header.typ.as_deref(), Some("JWT"));
    assert_eq!(token.split('.').count(), 3);
}

#[test]
fn decoding_a_minted_token_yields_the_claims_it_was_minted_with() {
    let (signing, verifying) = mint_keys();
    let exp = now_secs() + 6000;
    let claims = JwtClaims {
        iss: ARBITER.to_string(),
        sub: CONTROLLER.to_string(),
        aud: DEVICE_A.to_string(),
        exp,
        params_read: vec!["speed".to_string(), "a \"quoted\" name".to_string()],
        params_write: vec!["pressure".to_string()],
    };
    let token = sign_claims(&claims, &signing).unwrap();
    let decoded = decode_jwt(&token, &verifying, DEVICE_A).unwrap();
    assert_eq!(decoded.iss, ARBITER);
    assert_eq!(decoded.sub, CONTROLLER);
    assert_eq!(decoded.aud, DEVICE_A);
    assert_eq!(decoded.exp, exp);
    assert_eq!(decoded.params_read, vec!["speed".to_string(), "a \"quoted\" name".to_string()]);
    assert_eq!(decoded.params_write, vec!["pressure".to_string()]);
}

#[test]
fn token_does_not_verify_under_another_key() {
    let (signing, _) = mint_keys();
    let (_, other) = mint_keys();
    let request = mint_request(&[DEVICE_A], &["speed"], &[]);
    let response =
        get_control_token_at(&request, &mint_acl(), &signing, &id(ARBITER), now_secs()).unwrap();
    let token = response.tokens.get(&id(DEVICE_A).value).unwrap();
    assert_eq!(decode_jwt(token, &other, DEVICE_A).err(), Some(TokenError::Invalid));
}

#[test]
fn a_device_named_twice_gets_one_token() {
    let (signing, _) = mint_keys();
    let request = mint_request(&[DEVICE_A, DEVICE_A], &["speed"], &[]);
    let response =
        get_control_token_at(&request, &mint_acl(), &signing, &id(ARBITER), now_secs()).unwrap();
    assert_eq!(response.tokens.len(), 1);
    assert!(response.tokens.contains_key(&id(DEVICE_A).value));
}

#[test]
fn request_without_devices_is_refused() {
    let (signing, _) = mint_keys();
    let request = mint_request(&[], &["speed"], &[]);
    let r = get_control_token_at(&request, &mint_acl(), &signing, &id(ARBITER), 10);
    assert_eq!(r.err(), Some(MintError::NoDevices));
}

#[test]
fn empty_devices_array_is_a_bad_request() {
    let (signing, _) = mint_keys();
    let mut state = State::new();
    let request = RequestType::ControlToken(mint_request(&[], &[], &[]));
    let reply = process_at(&mut state, &mint_acl(), &signing, &id(ARBITER), &request, 10)
        .into_coap_response();
    assert_eq!(reply.code, ResponseCode::BadRequest);
    assert_eq!(reply.code.number(), (4, 0));
    assert_eq!(String::from_utf8(reply.payload).unwrap(), "No devices requested");
}

#[test]
fn unauthorized_request_gets_no_token_at_all() {
    let (signing, _) = mint_keys();
    let acl = mint_acl();
    let arbiter = id(ARBITER);
    let other_device = "33333333-3333-3333-3333-333333333333";
    let refused = [
        mint_request(&[DEVICE_A], &[], &["temperature"]),
        mint_request(&[DEVICE_A], &["pressure"], &[]),
        mint_request(&[DEVICE_A, other_device], &["speed"], &[]),
        mint_request(&[DEVICE_A, DEVICE_B], &["speed"], &["speed", "temperature"]),
    ];
    for request in refused.iter() {
        let r = get_control_token_at(request, &acl, &signing, &arbiter, now_secs());
        assert_eq!(r.err(), Some(MintError::Forbidden));
    }
    let mut stranger = mint_request(&[DEVICE_A], &["speed"], &[]);
    stranger.cid = id(other_device);
    let r = get_control_token_at(&stranger, &acl, &signing, &arbiter, now_secs());
    assert_eq!(r.err(), Some(MintError::Forbidden));
}

#[test]
fn acl_denied_mint_scenario() {
    let (signing, _) = mint_keys();
    let mut state = State::new();
    let request = RequestType::ControlToken(mint_request(&[DEVICE_A], &[], &["brightness"]));
    let response = process_at(&mut state, &mint_acl(), &signing, &id(ARBITER), &request, now_secs());
    assert!(matches!(response, Response::Error(_)));
    assert!(response.document().is_none());
    let reply = response.into_coap_response();
    assert_eq!(reply.code, ResponseCode::Forbidden);
    assert_eq!(reply.code.number(), (4, 3));
    let body = String::from_utf8(reply.payload).unwrap();
    assert_eq!(body, "Not authorized for the requested parameters");
    assert!(!body.contains("tokens"));
}

#[test]
fn expiry_beyond_the_clock_is_an_internal_error() {
    let (signing, _) = mint_keys();
    let request = mint_request(&[DEVICE_A], &["speed"], &[]);
    let arbiter = id(ARBITER);
    let r = get_control_token_at(&request, &mint_acl(), &signing, &arbiter, u64::MAX - 5999);
    assert_eq!(r.err(), Some(MintError::ClockOutOfRange));
    let r = get_control_token_at(&request, &mint_acl(), &signing, &arbiter, u64::MAX - 6000);
    assert!(r.is_ok());
    let mut state = State::new();
    let reply = process_at(
        &mut state,
        &mint_acl(),
        &signing,
        &arbiter,
        &RequestType::ControlToken(request),
        u64::MAX,
    )
    .into_coap_response();
    assert_eq!(reply.code, ResponseCode::InternalServerError);
    assert_eq!(reply.code.number(), (5, 0));
}

#[test]
fn signing_failure_is_an_internal_error() {
    let broken = jsonwebtoken::EncodingKey::from_ec_der(&[1u8, 2, 3]);
    let request = mint_request(&[DEVICE_A], &["speed"], &[]);
    let r = get_control_token_at(&request, &mint_acl(), &broken, &id(ARBITER), now_secs());
    assert_eq!(r.err(), Some(MintError::Signing));
    let mut state = State::new();
    let reply = process_at(
        &mut state,
        &mint_acl(),
        &broken,
        &id(ARBITER),
        &RequestType::ControlToken(request),
        now_secs(),
    )
    .into_coap_response();
    assert_eq!(reply.code, ResponseCode::InternalServerError);
    assert_eq!(String::from_utf8(reply.payload).unwrap(), "Could not issue the tokens");
}

#[test]
fn signing_with_a_key_of_another_family_fails() {
    let hmac = jsonwebtoken::EncodingKey::from_secret(b"secret");
    let claims = JwtClaims {
        iss: ARBITER.to_string(),
        sub: CONTROLLER.to_string(),
        aud: DEVICE_A.to_string(),
        exp: 1,
        params_read: vec![],
        params_write: vec![],
    };
    assert_eq!(sign_claims(&claims, &hmac).err(), Some(TokenError::Signing));
}

#[test]
fn tokens_at_the_present_instant() {
    let (signing, verifying) = mint_keys();
    let request = mint_request(&[DEVICE_A], &["speed"], &[]);
    let before = now_secs();
    let response = get_control_token(&request, &mint_acl(), &signing, &id(ARBITER)).unwrap();
    let after = now_secs();
    let token = response.tokens.get(&id(DEVICE_A).value).unwrap();
    let claims = decode_jwt(token, &verifying, DEVICE_A).unwrap();
    assert!(before + 6000 <= claims.exp && claims.exp <= after + 6000);
    let denied = mint_request(&[DEVICE_A], &["pressure"], &[]);
    assert_eq!(
        get_control_token(&denied, &mint_acl(), &signing, &id(ARBITER)).err(),
        Some(MintError::Forbidden)
    );
}

#[test]
fn token_response_lists_each_token_under_its_device() {
    let (signing, _) = mint_keys();
    let request = mint_request(&[DEVICE_A, DEVICE_B], &["speed"], &[]);
    let mut state = State::new();
    let response = process_at(
        &mut state,
        &mint_acl(),
        &signing,
        &id(ARBITER),
        &RequestType::ControlToken(request),
        now_secs(),
    );
    let tokens = match &response {
        Response::ControlTokenResponse(r) => r.tokens.clone(),
        _ => panic!("tokens were expected"),
    };
    let reply = response.into_coap_response();
    assert_eq!(reply.code, ResponseCode::Content);
    assert_eq!(reply.code.number(), (2, 5));
    let body: serde_json::Value = serde_json::from_slice(&reply.payload).unwrap();
    let top = body.as_object().unwrap();
    assert_eq!(top.len(), 1);
    let listed = top.get("tokens").unwrap().as_object().unwrap();
    assert_eq!(listed.len(), 2);
    for device in [DEVICE_A, DEVICE_B] {
        assert_eq!(
            listed.get(device).unwrap().as_str().unwrap(),
            tokens.get(&id(device).value).unwrap()
        );
    }
}

#[test]
fn empty_devices_array_on_the_wire_is_answered_with_4_00() {
    let (signing, _) = mint_keys();
    let mut state = State::new();
    let body = b"{\"cid\":\"cccccccc-cccc-cccc-cccc-cccccccccccc\",\"devices\":[],\"paramsRead\":[\"speed\"],\"paramsWrite\":[]}";
    let path = vec!["controlToken".to_string()];
    let request = ngt_access::arbiter::request_handler::parse_request(
        ngt_access::coap::Method::Get,
        &path,
        body,
    )
    .unwrap();
    let reply = process_at(&mut state, &mint_acl(), &signing, &id(ARBITER), &request, now_secs())
        .into_coap_response();
    assert_eq!(reply.code.number(), (4, 0));
}

#[test]
fn arbiter_serves_bytes_from_registration_to_token() {
    let (signing, verifying) = mint_keys();
    let mut state = State::new();
    let acl = mint_acl();
    let arbiter = id(ARBITER);
    let now = now_secs();

    let put = vec!["devices".to_string(), DEVICE_A.to_string()];
    let body = b"{\"label\":\"D\",\"manufacturer\":\"Acme\",\"model\":\"One\",\"port\":40001,\"ttl\":3600}";
    let request =
        ngt_access::arbiter::request_handler::parse_request(ngt_access::coap::Method::Put, &put, body)
            .unwrap();
    let reply = process_at(&mut state, &acl, &signing, &arbiter, &request, now).into_coap_response();
    assert_eq!(reply.code.number(), (2, 4));

    let get = vec!["devices".to_string()];
    let request =
        ngt_access::arbiter::request_handler::parse_request(ngt_access::coap::Method::Get, &get, b"")
            .unwrap();
    let reply =
        process_at(&mut state, &acl, &signing, &arbiter, &request, now + 600).into_coap_response();
    assert_eq!(reply.code.number(), (2, 5));
    assert_eq!(
        String::from_utf8(reply.payload).unwrap(),
        "[{\"cid\":\"11111111-1111-1111-1111-111111111111\",\"label\":\"D\",\"manufacturer\":\"Acme\",\"model\":\"One\",\"port\":40001,\"ttl\":3000}]"
    );

    let ask = vec!["controlToken".to_string()];
    let body = b"{\"cid\":\"cccccccc-cccc-cccc-cccc-cccccccccccc\",\"devices\":[\"11111111-1111-1111-1111-111111111111\"],\"paramsRead\":[\"speed\"],\"paramsWrite\":[]}";
    let request =
        ngt_access::arbiter::request_handler::parse_request(ngt_access::coap::Method::Get, &ask, body)
            .unwrap();
    let reply = process_at(&mut state, &acl, &signing, &arbiter, &request, now).into_coap_response();
    assert_eq!(reply.code.number(), (2, 5));
    let doc: serde_json::Value = serde_json::from_slice(&reply.payload).unwrap();
    let token = ngt_access::arbiter::request::token_for(&doc, id(DEVICE_A)).unwrap();
    let claims = decode_jwt(&token, &verifying, DEVICE_A).unwrap();
    assert_eq!(claims.iss, ARBITER);
    assert_eq!(claims.sub, CONTROLLER);
    assert_eq!(claims.aud, DEVICE_A);
    assert_eq!(claims.exp, now + 6000);
    assert_eq!(claims.params_read, vec!["speed".to_string()]);
    assert!(claims.params_write.is_empty());
}

#[test]
fn signed_token_carries_the_header_and_the_claims() {
    let (signing, _) = mint_keys();
    let claims = JwtClaims {
        iss: ARBITER.to_string(),
        sub: CONTROLLER.to_string(),
        aud: DEVICE_A.to_string(),
        exp: 77,
        params_read: vec!["speed".to_string()],
        params_write: vec![],
    };
    let token = sign_claims(&claims, &signing).unwrap();
    let (header, body, signature) = ngt_access::token::split_compact(&token).unwrap();
    assert_eq!(header, "eyJ0eXAiOiJKV1QiLCJhbGciOiJFUzI1NiJ9");
    let engine = base64::engine::general_purpose::URL_SAFE_NO_PAD;
    assert_eq!(
        base64::Engine::decode(&engine, &header).unwrap(),
        b"{\"typ\":\"JWT\",\"alg\":\"ES256\"}".to_vec()
    );
    assert_eq!(header, base64::Engine::encode(&engine, b"{\"typ\":\"JWT\",\"alg\":\"ES256\"}"));
    assert_eq!(
        body,
        base64::Engine::encode(&engine, serde_json::to_vec(&claims.to_json()).unwrap())
    );
    assert_eq!(
        base64::Engine::decode(&engine, &body).unwrap(),
        b"{\"aud\":\"11111111-1111-1111-1111-111111111111\",\"exp\":77,\"iss\":\"aaaaaaaa-aaaa-aaaa-aaaa-aaaaaaaaaaaa\",\"params_read\":[\"speed\"],\"params_write\":[],\"sub\":\"cccccccc-cccc-cccc-cccc-cccccccccccc\"}".to_vec()
    );
    assert!(!signature.is_empty());
    assert!(!signature.contains('.'));
    assert_eq!(base64::Engine::decode(&engine, &signature).unwrap().len(), 64);
}

#[test]
fn each_minted_token_carries_the_claims_for_its_device() {
    let (signing, _) = mint_keys();
    let request = mint_request(&[DEVICE_A, DEVICE_B], &["speed"], &["speed"]);
    let response =
        get_control_token_at(&request, &mint_acl(), &signing, &id(ARBITER), 1_000).unwrap();
    let engine = base64::engine::general_purpose::URL_SAFE_NO_PAD;
    for device in [DEVICE_A, DEVICE_B] {
        let token = response.tokens.get(&id(device).value).unwrap();
        let (header, body, _) = ngt_access::token::split_compact(token).unwrap();
        assert_eq!(header, "eyJ0eXAiOiJKV1QiLCJhbGciOiJFUzI1NiJ9");
        let expected = control_token_claims(&request, id(device), &id(ARBITER), 1_000);
        assert_eq!(
            body,
            base64::Engine::encode(&engine, serde_json::to_vec(&expected.to_json()).unwrap())
        );
    }
}
