use ngt_access::arbiter::request::{
    ApiDevice, ControlTokenRequest, ControlTokenResponse, ListResponse, Request,
    RequestType, Response,
};
use ngt_access::arbiter::request_handler::{
    parse_registration, parse_request, parse_token_request, PutDevicePayload,
};
use ngt_access::cid::{parse_cids, ComponentId};
use ngt_access::coap::{HandlingError, Method, ResponseCode};
use ngt_access::json::{get_number, get_text, get_texts, texts_to_json};
use ngt_access::text::{clone_texts, contains_text, is_text};
use ngt_access::token::{claims_from_document, JwtClaims, TokenError};

const DEVICE_A: &str = "11111111-1111-1111-1111-111111111111";

fn segments(path: &[&str]) -> Vec<String> {
    path.iter().map(|s| s.to_string()).collect()
}

fn sample_device() -> ApiDevice {
    ApiDevice {
        cid: ComponentId::parse(DEVICE_A).unwrap(),
        label: "Stage \"left\" \u{1F4A1}".to_string(),
        manufacturer: "Acme".to_string(),
        model: "Dimmer\n3".to_string(),
        port: 65535,
        ttl: u64::MAX,
    }
}

fn same_device(a: &ApiDevice, b: &ApiDevice) -> bool {
    a.cid == b.cid
        && a.label == b.label
        && a.manufacturer == b.manufacturer
        && a.model == b.model
        && a.port == b.port
        && a.ttl == b.ttl
}

#[test]
fn identifier_has_the_canonical_text() {
    let cid = ComponentId { value: 0xa1a2a3a4b1b2c1c2d1d2d3d4d5d6d7d8 };
    assert_eq!(cid.to_string(), "a1a2a3a4-b1b2-c1c2-d1d2-d3d4d5d6d7d8");
    assert_eq!(ComponentId { value: 0 }.to_string(), "00000000-0000-0000-0000-000000000000");
    assert_eq!(ComponentId { value: 15 }.to_string(), "00000000-0000-0000-0000-00000000000f");
    assert_eq!(
        ComponentId { value: u128::MAX }.to_string(),
        "ffffffff-ffff-ffff-ffff-ffffffffffff"
    );
    assert_eq!(
        ComponentId { value: 0x0123456789abcdef0123456789abcdef }.to_string(),
        "01234567-89ab-cdef-0123-456789abcdef"
    );
}

#[test]
fn identifier_is_read_from_text() {
    assert_eq!(
        ComponentId::parse("a1a2a3a4-b1b2-c1c2-d1d2-d3d4d5d6d7d8"),
        Some(ComponentId { value: 0xa1a2a3a4b1b2c1c2d1d2d3d4d5d6d7d8 })
    );
    assert_eq!(
        ComponentId::parse("A1A2A3A4-B1B2-C1C2-D1D2-D3D4D5D6D7D8"),
        Some(ComponentId { value: 0xa1a2a3a4b1b2c1c2d1d2d3d4d5d6d7d8 })
    );
    assert_eq!(
        ComponentId::parse("a1a2a3a4b1b2c1c2d1d2d3d4d5d6d7d8"),
        Some(ComponentId { value: 0xa1a2a3a4b1b2c1c2d1d2d3d4d5d6d7d8 })
    );
    assert_eq!(ComponentId::parse(""), None);
    assert_eq!(ComponentId::parse("a1a2a3a4-b1b2-c1c2-d1d2-d3d4d5d6d7d"), None);
    assert_eq!(ComponentId::parse("g1a2a3a4-b1b2-c1c2-d1d2-d3d4d5d6d7d8"), None);
    assert_eq!(ComponentId::parse("not an identifier"), None);
}

#[test]
fn identifier_text_reads_back() {
    for value in [0u128, 1, 0xdeadbeef, u128::MAX, 0x11111111111111111111111111111111] {
        let cid = ComponentId { value };
        assert_eq!(ComponentId::parse(&cid.to_string()), Some(cid));
    }
}

#[test]
fn device_record_survives_the_wire() {
    let device = sample_device();
    let bytes = serde_json::to_vec(&device.to_json()).unwrap();
    let doc: serde_json::Value = serde_json::from_slice(&bytes).unwrap();
    let back = ApiDevice::from_json(&doc).unwrap();
    assert!(same_device(&device, &back));
}

#[test]
fn device_record_has_the_documented_members() {
    let doc = sample_device().to_json();
    let object = doc.as_object().unwrap();
    assert_eq!(object.len(), 6);
    assert_eq!(object.get("cid").unwrap().as_str(), Some(DEVICE_A));
    assert_eq!(object.get("label").unwrap().as_str(), Some("Stage \"left\" \u{1F4A1}"));
    assert_eq!(object.get("manufacturer").unwrap().as_str(), Some("Acme"));
    assert_eq!(object.get("model").unwrap().as_str(), Some("Dimmer\n3"));
    assert_eq!(object.get("port").unwrap().as_u64(), Some(65535));
    assert_eq!(object.get("ttl").unwrap().as_u64(), Some(u64::MAX));
}

#[test]
fn device_record_is_not_read_from_a_wrong_document() {
    let wrong: [&str; 7] = [
        "{}",
        "[]",
        "{\"cid\":\"11111111-1111-1111-1111-111111111111\",\"label\":\"a\",\"manufacturer\":\"b\",\"model\":\"c\",\"port\":1}",
        "{\"cid\":\"nope\",\"label\":\"a\",\"manufacturer\":\"b\",\"model\":\"c\",\"port\":1,\"ttl\":2}",
        "{\"cid\":\"11111111-1111-1111-1111-111111111111\",\"label\":\"a\",\"manufacturer\":\"b\",\"model\":\"c\",\"port\":65536,\"ttl\":2}",
        "{\"cid\":\"11111111-1111-1111-1111-111111111111\",\"label\":\"a\",\"manufacturer\":\"b\",\"model\":\"c\",\"port\":-1,\"ttl\":2}",
        "{\"cid\":\"11111111-1111-1111-1111-111111111111\",\"label\":\"a\",\"manufacturer\":\"b\",\"model\":\"c\",\"port\":1,\"ttl\":2.5}",
    ];
    for text in wrong {
        let doc: serde_json::Value = serde_json::from_str(text).unwrap();
        assert!(ApiDevice::from_json(&doc).is_none());
    }
    let right: serde_json::Value = serde_json::from_str(
        "{\"cid\":\"11111111-1111-1111-1111-111111111111\",\"label\":\"a\",\"manufacturer\":\"b\",\"model\":\"c\",\"port\":1,\"ttl\":2,\"extra\":true}",
    )
    .unwrap();
    let device = ApiDevice::from_json(&right).unwrap();
    assert_eq!(device.port, 1);
    assert_eq!(device.ttl, 2);
    assert_eq!(device.label, "a");
}

#[test]
fn device_list_survives_the_wire() {
    let mut second = sample_device();
    second.cid = ComponentId { value: 7 };
    second.label = "second".to_string();
    let list = ListResponse { devices: vec![sample_device(), second] };
    let reply = Response::ListResponse(list).into_coap_response();
    assert_eq!(reply.code, ResponseCode::Content);
    let doc: serde_json::Value = serde_json::from_slice(&reply.payload).unwrap();
    assert_eq!(doc.as_array().unwrap().len(), 2);
    let back = ListResponse::from_json(&doc).unwrap();
    assert_eq!(back.devices.len(), 2);
    assert!(same_device(&back.devices[0], &sample_device()));
    assert_eq!(back.devices[1].label, "second");
    assert_eq!(back.devices[1].cid, ComponentId { value: 7 });
}

#[test]
fn empty_device_list_is_an_empty_array() {
    let reply = Response::ListResponse(ListResponse { devices: vec![] }).into_coap_response();
    assert_eq!(reply.code, ResponseCode::Content);
    assert_eq!(reply.payload, b"[]".to_vec());
    let doc: serde_json::Value = serde_json::from_slice(b"[]").unwrap();
    assert!(ListResponse::from_json(&doc).unwrap().devices.is_empty());
    let doc: serde_json::Value = serde_json::from_slice(b"[{}]").unwrap();
    assert!(ListResponse::from_json(&doc).is_none());
    let doc: serde_json::Value = serde_json::from_slice(b"{}").unwrap();
    assert!(ListResponse::from_json(&doc).is_none());
}

#[test]
fn registration_survives_the_wire() {
    let payload = PutDevicePayload {
        label: "l".to_string(),
        manufacturer: "m".to_string(),
        model: "o".to_string(),
        port: 5683,
        ttl: 3600,
    };
    let bytes = serde_json::to_vec(&payload.to_json()).unwrap();
    assert_eq!(
        String::from_utf8(bytes.clone()).unwrap(),
        "{\"label\":\"l\",\"manufacturer\":\"m\",\"model\":\"o\",\"port\":5683,\"ttl\":3600}"
    );
    let doc: serde_json::Value = serde_json::from_slice(&bytes).unwrap();
    let back = PutDevicePayload::from_json(&doc).unwrap();
    assert_eq!(back.label, "l");
    assert_eq!(back.manufacturer, "m");
    assert_eq!(back.model, "o");
    assert_eq!(back.port, 5683);
    assert_eq!(back.ttl, 3600);
    let device = back.into_device(ComponentId { value: 3 });
    assert_eq!(device.cid, ComponentId { value: 3 });
    assert_eq!(device.port, 5683);
    assert_eq!(device.ttl, 3600);
    assert_eq!(device.label, "l");
}

#[test]
fn claims_have_snake_case_members() {
    let claims = JwtClaims {
        iss: "i".to_string(),
        sub: "s".to_string(),
        aud: "a".to_string(),
        exp: 9,
        params_read: vec!["r".to_string()],
        params_write: vec!["w".to_string(), "x".to_string()],
    };
    let text = String::from_utf8(serde_json::to_vec(&claims.to_json()).unwrap()).unwrap();
    assert_eq!(
        text,
        "{\"aud\":\"a\",\"exp\":9,\"iss\":\"i\",\"params_read\":[\"r\"],\"params_write\":[\"w\",\"x\"],\"sub\":\"s\"}"
    );
    let doc: serde_json::Value = serde_json::from_str(&text).unwrap();
    let back = JwtClaims::from_json(&doc).unwrap();
    assert_eq!(back.iss, "i");
    assert_eq!(back.sub, "s");
    assert_eq!(back.aud, "a");
    assert_eq!(back.exp, 9);
    assert_eq!(back.params_read, vec!["r".to_string()]);
    assert_eq!(back.params_write, vec!["w".to_string(), "x".to_string()]);
}

#[test]
fn claims_need_every_member() {
    let camel: serde_json::Value = serde_json::from_str(
        "{\"aud\":\"a\",\"exp\":9,\"iss\":\"i\",\"paramsRead\":[],\"paramsWrite\":[],\"sub\":\"s\"}",
    )
    .unwrap();
    assert!(JwtClaims::from_json(&camel).is_none());
    assert_eq!(claims_from_document(&camel).err(), Some(TokenError::MalformedClaims));
    let mixed: serde_json::Value = serde_json::from_str(
        "{\"aud\":\"a\",\"exp\":9,\"iss\":\"i\",\"params_read\":[\"a\",1],\"params_write\":[],\"sub\":\"s\"}",
    )
    .unwrap();
    assert!(JwtClaims::from_json(&mixed).is_none());
    let good: serde_json::Value = serde_json::from_str(
        "{\"aud\":\"a\",\"exp\":9,\"iss\":\"i\",\"params_read\":[],\"params_write\":[],\"sub\":\"s\"}",
    )
    .unwrap();
    assert_eq!(claims_from_document(&good).unwrap().exp, 9);
}

#[test]
fn token_request_has_camel_case_members() {
    let doc: serde_json::Value = serde_json::from_str(
        "{\"cid\":\"cccccccc-cccc-cccc-cccc-cccccccccccc\",\"devices\":[\"11111111-1111-1111-1111-111111111111\",\"00000000-0000-0000-0000-000000000002\"],\"paramsRead\":[\"speed\"],\"paramsWrite\":[]}",
    )
    .unwrap();
    let request = ControlTokenRequest::from_json(&doc).unwrap();
    assert_eq!(request.cid.to_string(), "cccccccc-cccc-cccc-cccc-cccccccccccc");
    assert_eq!(
        request.devices,
        vec![ComponentId::parse(DEVICE_A).unwrap(), ComponentId { value: 2 }]
    );
    assert_eq!(request.params_read, vec!["speed".to_string()]);
    assert!(request.params_write.is_empty());

    let snake: serde_json::Value = serde_json::from_str(
        "{\"cid\":\"cccccccc-cccc-cccc-cccc-cccccccccccc\",\"devices\":[],\"params_read\":[],\"params_write\":[]}",
    )
    .unwrap();
    assert!(ControlTokenRequest::from_json(&snake).is_none());
    let bad_device: serde_json::Value = serde_json::from_str(
        "{\"cid\":\"cccccccc-cccc-cccc-cccc-cccccccccccc\",\"devices\":[\"x\"],\"paramsRead\":[],\"paramsWrite\":[]}",
    )
    .unwrap();
    assert!(ControlTokenRequest::from_json(&bad_device).is_none());
}

#[test]
fn token_response_holds_tokens_under_device_text() {
    let mut tokens = std::collections::HashMap::new();
    tokens.insert(ComponentId::parse(DEVICE_A).unwrap().value, "t1".to_string());
    tokens.insert(2u128, "t2".to_string());
    let doc = ControlTokenResponse { tokens }.to_json();
    let text = String::from_utf8(serde_json::to_vec(&doc).unwrap()).unwrap();
    assert_eq!(
        text,
        "{\"tokens\":{\"00000000-0000-0000-0000-000000000002\":\"t2\",\"11111111-1111-1111-1111-111111111111\":\"t1\"}}"
    );
    let empty = ControlTokenResponse { tokens: std::collections::HashMap::new() }.to_json();
    assert_eq!(serde_json::to_vec(&empty).unwrap(), b"{\"tokens\":{}}".to_vec());
}

#[test]
fn routing_table_of_the_arbiter() {
    assert!(matches!(parse_request(Method::Get, &segments(&["devices"]), b""), Ok(RequestType::List)));
    assert!(matches!(
        parse_request(Method::Get, &segments(&["devices"]), b"ignored"),
        Ok(RequestType::List)
    ));

    let body = b"{\"label\":\"l\",\"manufacturer\":\"m\",\"model\":\"o\",\"port\":40001,\"ttl\":3600}";
    match parse_request(Method::Put, &segments(&["devices", DEVICE_A]), body) {
        Ok(RequestType::Register(device)) => {
            assert_eq!(device.cid.to_string(), DEVICE_A);
            assert_eq!(device.label, "l");
            assert_eq!(device.manufacturer, "m");
            assert_eq!(device.model, "o");
            assert_eq!(device.port, 40001);
            assert_eq!(device.ttl, 3600);
        }
        _ => panic!("a registration was expected"),
    }

    let body = b"{\"cid\":\"cccccccc-cccc-cccc-cccc-cccccccccccc\",\"devices\":[\"11111111-1111-1111-1111-111111111111\"],\"paramsRead\":[\"speed\"],\"paramsWrite\":[\"gain\"]}";
    match parse_request(Method::Get, &segments(&["controlToken"]), body) {
        Ok(RequestType::ControlToken(request)) => {
            assert_eq!(request.devices.len(), 1);
            assert_eq!(request.params_read, vec!["speed".to_string()]);
            assert_eq!(request.params_write, vec!["gain".to_string()]);
        }
        _ => panic!("a token request was expected"),
    }
}

#[test]
fn unknown_combinations_are_not_found() {
    let unknown: [(Method, Vec<String>); 9] = [
        (Method::Post, segments(&["devices"])),
        (Method::Put, segments(&["devices"])),
        (Method::Delete, segments(&["devices", DEVICE_A])),
        (Method::Get, segments(&["devices", DEVICE_A])),
        (Method::Put, segments(&["devices", DEVICE_A, "x"])),
        (Method::Put, segments(&["controlToken"])),
        (Method::Get, segments(&[])),
        (Method::Get, segments(&["Devices"])),
        (Method::Other, segments(&["speed"])),
    ];
    for (method, path) in unknown.iter() {
        let e = parse_request(*method, path, b"{}").err().unwrap();
        assert_eq!(e.code, ResponseCode::NotFound);
        assert_eq!(e.message, "Not found");
        assert_eq!(e.code.number(), (4, 4));
    }
}

#[test]
fn malformed_payloads_are_bad_requests() {
    let put = segments(&["devices", DEVICE_A]);
    let bad: [&[u8]; 5] = [
        b"",
        b"{",
        b"{\"label\":\"l\"}",
        b"{\"label\":\"l\",\"manufacturer\":\"m\",\"model\":\"o\",\"port\":70000,\"ttl\":1}",
        b"{\"label\":\"l\",\"manufacturer\":\"m\",\"model\":\"o\",\"port\":\"1\",\"ttl\":1}",
    ];
    for body in bad {
        let e = parse_request(Method::Put, &put, body).err().unwrap();
        assert_eq!(e.code, ResponseCode::BadRequest);
    }
    let good = b"{\"label\":\"l\",\"manufacturer\":\"m\",\"model\":\"o\",\"port\":1,\"ttl\":1}";
    let e = parse_request(Method::Put, &segments(&["devices", "no-cid"]), good).err().unwrap();
    assert_eq!(e.code, ResponseCode::BadRequest);
    assert_eq!(e.message, "Couldn't parse the device identifier");
    let e = parse_registration(&"zz".to_string(), good).err().unwrap();
    assert_eq!(e.code, ResponseCode::BadRequest);

    let e = parse_request(Method::Get, &segments(&["controlToken"]), b"{}").err().unwrap();
    assert_eq!(e.code, ResponseCode::BadRequest);
    let e = parse_token_request(b"nonsense").err().unwrap();
    assert_eq!(e.code, ResponseCode::BadRequest);
}

#[test]
fn response_codes_and_replies() {
    assert_eq!(ResponseCode::Changed.number(), (2, 4));
    assert_eq!(ResponseCode::Content.number(), (2, 5));
    assert_eq!(ResponseCode::BadRequest.number(), (4, 0));
    assert_eq!(ResponseCode::Forbidden.number(), (4, 3));
    assert_eq!(ResponseCode::NotFound.number(), (4, 4));
    assert_eq!(ResponseCode::InternalServerError.number(), (5, 0));
    assert!(ResponseCode::Changed.is_success());
    assert!(ResponseCode::Content.is_success());
    assert!(!ResponseCode::BadRequest.is_success());
    assert!(!ResponseCode::InternalServerError.is_success());

    let e = HandlingError::with_code(ResponseCode::Forbidden, "caf\u{e9}");
    assert_eq!(e.message, "caf\u{e9}");
    let reply = e.into_reply();
    assert_eq!(reply.code, ResponseCode::Forbidden);
    assert_eq!(reply.payload, vec![b'c', b'a', b'f', 0xc3, 0xa9]);
    assert_eq!(HandlingError::bad_request("x").code, ResponseCode::BadRequest);
    assert_eq!(HandlingError::forbidden("x").code, ResponseCode::Forbidden);
    assert_eq!(HandlingError::internal("x").code, ResponseCode::InternalServerError);
    assert_eq!(HandlingError::not_found().code, ResponseCode::NotFound);

    let reply = Response::Done.into_coap_response();
    assert_eq!(reply.code, ResponseCode::Changed);
    assert!(reply.payload.is_empty());
    let reply = Response::Error(HandlingError::bad_request("why")).into_coap_response();
    assert_eq!(reply.code, ResponseCode::BadRequest);
    assert_eq!(reply.payload, b"why".to_vec());
    assert!(Response::Done.document().is_none());
}

#[test]
fn request_pairs_the_answer_with_its_slot() {
    let request = Request::synchronous(RequestType::List, 42u8);
    assert!(matches!(request.get_type(), RequestType::List));
    match request.respond(Response::Done) {
        Ok((slot, Response::Done)) => assert_eq!(slot, 42),
        _ => panic!("the answer was expected with its slot"),
    }
    let request: Request<u8> = Request::asynchronous(RequestType::Shutdown);
    assert!(matches!(request.get_type(), RequestType::Shutdown));
    assert!(matches!(request.respond(Response::Done), Err(Response::Done)));
}

#[test]
fn members_are_read_by_type() {
    let doc: serde_json::Value = serde_json::from_str(
        "{\"t\":\"text\",\"n\":18446744073709551615,\"neg\":-1,\"f\":1.5,\"l\":[\"a\",\"b\"],\"m\":[\"a\",2],\"e\":[]}",
    )
    .unwrap();
    assert_eq!(get_text(&doc, "t"), Some("text".to_string()));
    assert_eq!(get_text(&doc, "n"), None);
    assert_eq!(get_text(&doc, "missing"), None);
    assert_eq!(get_number(&doc, "n"), Some(u64::MAX));
    assert_eq!(get_number(&doc, "neg"), None);
    assert_eq!(get_number(&doc, "f"), None);
    assert_eq!(get_number(&doc, "t"), None);
    assert_eq!(get_texts(&doc, "l"), Some(vec!["a".to_string(), "b".to_string()]));
    assert_eq!(get_texts(&doc, "m"), None);
    assert_eq!(get_texts(&doc, "e"), Some(vec![]));
    assert_eq!(get_texts(&doc, "t"), None);
    let array: serde_json::Value = serde_json::from_str("[1]").unwrap();
    assert_eq!(get_text(&array, "t"), None);
    let built = texts_to_json(&vec!["x".to_string(), "y".to_string()]);
    assert_eq!(serde_json::to_vec(&built).unwrap(), b"[\"x\",\"y\"]".to_vec());
}

#[test]
fn identifiers_are_read_all_or_none() {
    let good = vec![DEVICE_A.to_string(), "00000000-0000-0000-0000-000000000002".to_string()];
    assert_eq!(
        parse_cids(&good),
        Some(vec![ComponentId::parse(DEVICE_A).unwrap(), ComponentId { value: 2 }])
    );
    let bad = vec![DEVICE_A.to_string(), "2".to_string()];
    assert_eq!(parse_cids(&bad), None);
    assert_eq!(parse_cids(&vec![]), Some(vec![]));
}

#[test]
fn strings_are_compared_by_their_characters() {
    let names = vec!["speed".to_string(), "gain".to_string()];
    assert!(contains_text(&names, &"gain".to_string()));
    assert!(!contains_text(&names, &"Gain".to_string()));
    assert!(!contains_text(&vec![], &"gain".to_string()));
    assert_eq!(clone_texts(&names), names);
    assert!(is_text(&"devices".to_string(), "devices"));
    assert!(!is_text(&"device".to_string(), "devices"));
}

#[test]
fn token_request_survives_the_wire() {
    let request = ControlTokenRequest {
        cid: ComponentId::parse("cccccccc-cccc-cccc-cccc-cccccccccccc").unwrap(),
        devices: vec![ComponentId::parse(DEVICE_A).unwrap(), ComponentId { value: 2 }],
        params_read: vec!["speed".to_string()],
        params_write: vec![],
    };
    let bytes = serde_json::to_vec(&request.to_json()).unwrap();
    assert_eq!(
        String::from_utf8(bytes.clone()).unwrap(),
        "{\"cid\":\"cccccccc-cccc-cccc-cccc-cccccccccccc\",\"devices\":[\"11111111-1111-1111-1111-111111111111\",\"00000000-0000-0000-0000-000000000002\"],\"paramsRead\":[\"speed\"],\"paramsWrite\":[]}"
    );
    match parse_token_request(&bytes) {
        Ok(RequestType::ControlToken(back)) => {
            assert_eq!(back.cid, request.cid);
            assert_eq!(back.devices, request.devices);
            assert_eq!(back.params_read, request.params_read);
            assert_eq!(back.params_write, request.params_write);
        }
        _ => panic!("a token request was expected"),
    }
}

#[test]
fn token_is_found_in_a_token_response() {
    let mut tokens = std::collections::HashMap::new();
    tokens.insert(ComponentId::parse(DEVICE_A).unwrap().value, "t1".to_string());
    let doc = ControlTokenResponse { tokens }.to_json();
    assert_eq!(
        ngt_access::arbiter::request::token_for(&doc, ComponentId::parse(DEVICE_A).unwrap()),
        Some("t1".to_string())
    );
    assert_eq!(ngt_access::arbiter::request::token_for(&doc, ComponentId { value: 2 }), None);
    let other: serde_json::Value = serde_json::from_str("{\"tokens\":[]}").unwrap();
    assert_eq!(ngt_access::arbiter::request::token_for(&other, ComponentId { value: 2 }), None);
}

#[test]
fn only_shutdown_stops_the_service() {
    assert!(RequestType::Shutdown.is_shutdown());
    assert!(!RequestType::List.is_shutdown());
    assert!(!RequestType::Register(sample_device()).is_shutdown());
}

#[test]
fn bodies_of_reads_and_writes() {
    let read = ngt_access::device::read_body("abc");
    assert_eq!(serde_json::to_vec(&read).unwrap(), b"{\"token\":\"abc\"}".to_vec());
    let write = ngt_access::device::write_body("abc", "7");
    assert_eq!(
        serde_json::to_vec(&write).unwrap(),
        b"{\"token\":\"abc\",\"value\":\"7\"}".to_vec()
    );
}

#[test]
fn queue_holds_a_thousand_requests() {
    assert_eq!(ngt_access::arbiter::request::QUEUE_CAPACITY, 1000);
}

#[test]
fn commands_stand_for_accesses() {
    let get = ngt_access::controller::tui::RequestType::from_letter("g").unwrap();
    let put = ngt_access::controller::tui::RequestType::from_letter("s").unwrap();
    assert_eq!(get, ngt_access::controller::tui::RequestType::Get);
    assert_eq!(put, ngt_access::controller::tui::RequestType::Put);
    assert_eq!(ngt_access::controller::tui::RequestType::from_letter("f"), None);
    assert_eq!(ngt_access::controller::tui::RequestType::from_letter(""), None);
    assert_eq!(get.method(), Method::Get);
    assert_eq!(put.method(), Method::Put);
    assert_eq!(get.access(), ngt_access::arbiter::acl::Access::Read);
    assert_eq!(put.access(), ngt_access::arbiter::acl::Access::Write);
    assert_eq!(get.name(), "GET");
    assert_eq!(put.name(), "PUT");
}

#[test]
fn command_asks_for_one_token_for_one_parameter() {
    let controller = ComponentId { value: 1 };
    let device = ComponentId { value: 2 };
    let read = ngt_access::controller::tui::token_request(
        controller,
        device,
        ngt_access::arbiter::acl::Access::Read,
        "speed",
    );
    assert_eq!(read.cid, controller);
    assert_eq!(read.devices, vec![device]);
    assert_eq!(read.params_read, vec!["speed".to_string()]);
    assert!(read.params_write.is_empty());
    let write = ngt_access::controller::tui::token_request(
        controller,
        device,
        ngt_access::arbiter::acl::Access::Write,
        "speed",
    );
    assert!(write.params_read.is_empty());
    assert_eq!(write.params_write, vec!["speed".to_string()]);
}

#[test]
fn device_is_selected_by_its_place_in_the_list() {
    let devices = vec![sample_device()];
    assert!(ngt_access::controller::tui::select_device(&devices, 0).is_some());
    assert!(ngt_access::controller::tui::select_device(&devices, 1).is_none());
    assert!(ngt_access::controller::tui::select_device(&vec![], 0).is_none());
}
