//! The arbiter's routing table: from the method, path and payload of a CoAP
//! request to the request that the state is asked to answer.
use vstd::prelude::*;
use crate::arbiter::request::{
    ApiDevice, ApiDeviceView, ControlTokenRequest, RequestType, RequestTypeView,
    token_request_of_json,
};
use crate::cid::ComponentId;
use crate::coap::{HandlingError, Method, ResponseCode};
use crate::json::{
    empty_object, from_number, from_text, get_number, get_text, json_model, json_parse,
    number_member, parse, text_member, with_member, Json,
};
use crate::text::{is_text, texts};

verus! {

/// What a device submits to register: everything but its identifier, which
/// stands in the path.
#[derive(Debug)]
pub struct PutDevicePayload {
    pub label: String,
    pub manufacturer: String,
    pub model: String,
    pub port: u16,
    /// The time to live of the registration, in seconds.
    pub ttl: u64,
}

/// The mathematical value of a [`PutDevicePayload`].
pub struct PutDevicePayloadView {
    pub label: Seq<char>,
    pub manufacturer: Seq<char>,
    pub model: Seq<char>,
    pub port: u16,
    pub ttl: u64,
}

impl View for PutDevicePayload {
    type V = PutDevicePayloadView;

    open spec fn view(&self) -> PutDevicePayloadView {
        PutDevicePayloadView {
            label: self.label@,
            manufacturer: self.manufacturer@,
            model: self.model@,
            port: self.port,
            ttl: self.ttl,
        }
    }
}

/// The wire form of a registration: an object with the members `label`,
/// `manufacturer`, `model`, `port` and `ttl`.
pub open spec fn registration_json(p: PutDevicePayloadView) -> Json {
    Json::Object(
        Map::empty().insert("label"@, Json::Text(p.label)).insert(
            "manufacturer"@,
            Json::Text(p.manufacturer),
        ).insert("model"@, Json::Text(p.model)).insert(
            "port"@,
            Json::unsigned(p.port as u64),
        ).insert("ttl"@, Json::unsigned(p.ttl)),
    )
}

/// The registration that a document holds: every member must be present and
/// of its type, and the port must fit 16 bits. Members beyond the five are
/// ignored.
pub open spec fn registration_of_json(doc: Json) -> Option<PutDevicePayloadView> {
    match (
        text_member(doc, "label"@),
        text_member(doc, "manufacturer"@),
        text_member(doc, "model"@),
        number_member(doc, "port"@),
        number_member(doc, "ttl"@),
    ) {
        (Some(label), Some(manufacturer), Some(model), Some(port), Some(ttl)) => if port
            <= u16::MAX {
            Some(PutDevicePayloadView { label, manufacturer, model, port: port as u16, ttl })
        } else {
            None
        },
        _ => None,
    }
}

/// The member names of a registration are pairwise different.
proof fn registration_keys_differ()
    ensures
        "label"@ != "manufacturer"@,
        "label"@ != "model"@,
        "label"@ != "port"@,
        "label"@ != "ttl"@,
        "manufacturer"@ != "model"@,
        "manufacturer"@ != "port"@,
        "manufacturer"@ != "ttl"@,
        "model"@ != "port"@,
        "model"@ != "ttl"@,
        "port"@ != "ttl"@,
{
    reveal_strlit("label");
    reveal_strlit("manufacturer");
    reveal_strlit("model");
    reveal_strlit("port");
    reveal_strlit("ttl");
    assert("ttl"@.len() == 3 && "port"@.len() == 4);
    assert("label"@.len() == 5 && "model"@.len() == 5 && "manufacturer"@.len() == 12);
    assert("label"@[0] != "model"@[0]);
}

/// A registration reads back from its wire form unchanged.
pub proof fn registration_json_reads_back(p: PutDevicePayloadView)
    ensures
        registration_of_json(registration_json(p)) == Some(p),
{
    registration_keys_differ();
}

impl PutDevicePayload {
    /// The wire form of the registration. Reading it back gives the same
    /// registration.
    pub fn to_json(&self) -> (doc: serde_json::Value)
        ensures
            json_model(doc) == registration_json(self@),
            registration_of_json(json_model(doc)) == Some(self@),
    {
        proof {
            registration_json_reads_back(self@);
        }
        let doc = empty_object();
        let doc = with_member(doc, "label", from_text(self.label.as_str()));
        let doc = with_member(doc, "manufacturer", from_text(self.manufacturer.as_str()));
        let doc = with_member(doc, "model", from_text(self.model.as_str()));
        let doc = with_member(doc, "port", from_number(self.port as u64));
        let doc = with_member(doc, "ttl", from_number(self.ttl));
        doc
    }

    /// Reads a registration from its wire form.
    pub fn from_json(doc: &serde_json::Value) -> (r: Option<PutDevicePayload>)
        ensures
            match r {
                Some(p) => registration_of_json(json_model(*doc)) == Some(p@),
                None => registration_of_json(json_model(*doc)).is_none(),
            },
    {
        let label = get_text(doc, "label");
        let manufacturer = get_text(doc, "manufacturer");
        let model = get_text(doc, "model");
        let port = get_number(doc, "port");
        let ttl = get_number(doc, "ttl");
        match (label, manufacturer, model, port, ttl) {
            (Some(label), Some(manufacturer), Some(model), Some(port), Some(ttl)) => if port
                <= u16::MAX as u64 {
                Some(PutDevicePayload { label, manufacturer, model, port: port as u16, ttl })
            } else {
                None
            },
            _ => None,
        }
    }

    /// The device that registers with this payload under `cid`.
    pub fn into_device(self, cid: ComponentId) -> (device: ApiDevice)
        ensures
            device@ == registered_device(cid, self@),
    {
        ApiDevice {
            cid,
            label: self.label,
            manufacturer: self.manufacturer,
            model: self.model,
            port: self.port,
            ttl: self.ttl,
        }
    }
}

/// The device that registers with the payload `p` under `cid`.
pub open spec fn registered_device(cid: ComponentId, p: PutDevicePayloadView) -> ApiDeviceView {
    ApiDeviceView {
        cid,
        label: p.label,
        manufacturer: p.manufacturer,
        model: p.model,
        port: p.port,
        ttl: p.ttl,
    }
}

/// A refusal to route: the code to answer with and the message.
pub type Refusal = (ResponseCode, Seq<char>);

/// The registration that a `PUT devices/{id}` asks for: the payload must be
/// a JSON document that holds a registration, and `id` an identifier.
/// Otherwise the request is refused with 4.00 and a message that names the
/// first of these that fails.
pub open spec fn routed_registration(id: Seq<char>, payload: Seq<u8>) -> Result<
    RequestTypeView,
    Refusal,
> {
    match json_parse(payload) {
        None => Err(
            (ResponseCode::BadRequest, "Couldn't parse payload of PUT /devices: not JSON"@),
        ),
        Some(doc) => match registration_of_json(doc) {
            None => Err(
                (
                    ResponseCode::BadRequest,
                    "Couldn't parse payload of PUT /devices: not a registration"@,
                ),
            ),
            Some(p) => match ComponentId::parsed(id) {
                None => Err((ResponseCode::BadRequest, "Couldn't parse the device identifier"@)),
                Some(cid) => Ok(RequestTypeView::Register(registered_device(cid, p))),
            },
        },
    }
}

/// The request for tokens that a `GET controlToken` makes: the payload must
/// be a JSON document that holds one. Otherwise the request is refused with
/// 4.00 and a message that says which of the two fails.
pub open spec fn routed_token_request(payload: Seq<u8>) -> Result<RequestTypeView, Refusal> {
    match json_parse(payload) {
        None => Err(
            (ResponseCode::BadRequest, "Couldn't parse payload of GET /controlToken: not JSON"@),
        ),
        Some(doc) => match token_request_of_json(doc) {
            None => Err(
                (
                    ResponseCode::BadRequest,
                    "Couldn't parse payload of GET /controlToken: not a token request"@,
                ),
            ),
            Some(request) => Ok(RequestTypeView::ControlToken(request)),
        },
    }
}

/// The routing table of the arbiter.
///
/// `GET devices` lists, `PUT devices/{id}` registers, `GET controlToken`
/// mints. A payload that does not hold what the target needs is answered
/// with 4.00, and so is an `id` that is no identifier. Every other
/// combination of method and path is answered with 4.04 and the message
/// "Not found".
pub open spec fn route(method: Method, path: Seq<Seq<char>>, payload: Seq<u8>) -> Result<
    RequestTypeView,
    Refusal,
> {
    if method == Method::Get && path == seq!["devices"@] {
        Ok(RequestTypeView::List)
    } else if method == Method::Put && path.len() == 2 && path[0] == "devices"@ {
        routed_registration(path[1], payload)
    } else if method == Method::Get && path == seq!["controlToken"@] {
        routed_token_request(payload)
    } else {
        Err((ResponseCode::NotFound, "Not found"@))
    }
}

/// Whether `r` is the request `routed`, or the failure that reports the
/// refusal `routed`.
pub open spec fn is_routed(
    r: Result<RequestType, HandlingError>,
    routed: Result<RequestTypeView, Refusal>,
) -> bool {
    match routed {
        Ok(request) => r matches Ok(found) && found@ == request,
        Err(refusal) => r matches Err(e) && (e.code, e.message@) == refusal,
    }
}

/// Reads the registration of `PUT devices/{id}`.
pub fn parse_registration(id: &String, payload: &[u8]) -> (r: Result<RequestType, HandlingError>)
    ensures
        is_routed(r, routed_registration(id@, payload@)),
{
    let doc = match parse(payload) {
        Ok(doc) => doc,
        Err(_) => {
            return Err(
                HandlingError::bad_request("Couldn't parse payload of PUT /devices: not JSON"),
            );
        },
    };
    let registration = match PutDevicePayload::from_json(&doc) {
        Some(registration) => registration,
        None => {
            return Err(
                HandlingError::bad_request(
                    "Couldn't parse payload of PUT /devices: not a registration",
                ),
            );
        },
    };
    match ComponentId::parse(id.as_str()) {
        Some(cid) => Ok(RequestType::Register(registration.into_device(cid))),
        None => Err(HandlingError::bad_request("Couldn't parse the device identifier")),
    }
}

/// Reads the request of `GET controlToken`.
pub fn parse_token_request(payload: &[u8]) -> (r: Result<RequestType, HandlingError>)
    ensures
        is_routed(r, routed_token_request(payload@)),
{
    let doc = match parse(payload) {
        Ok(doc) => doc,
        Err(_) => {
            return Err(
                HandlingError::bad_request("Couldn't parse payload of GET /controlToken: not JSON"),
            );
        },
    };
    match ControlTokenRequest::from_json(&doc) {
        Some(request) => Ok(RequestType::ControlToken(request)),
        None => Err(
            HandlingError::bad_request(
                "Couldn't parse payload of GET /controlToken: not a token request",
            ),
        ),
    }
}

/// A path is the one segment `name` when it has one segment, which is `name`.
proof fn single_segment(path: Seq<Seq<char>>, name: Seq<char>)
    ensures
        (path == seq![name]) <==> (path.len() == 1 && path[0] == name),
{
    if path.len() == 1 && path[0] == name {
        assert(path =~= seq![name]);
    }
    if path == seq![name] {
        assert(seq![name].len() == 1 && seq![name][0] == name);
    }
}

/// Finds out what a CoAP request asks of the arbiter; see [`route`].
pub fn parse_request(method: Method, path: &Vec<String>, payload: &[u8]) -> (r: Result<
    RequestType,
    HandlingError,
>)
    ensures
        is_routed(r, route(method, texts(path@), payload@)),
{
    proof {
        single_segment(texts(path@), "devices"@);
        single_segment(texts(path@), "controlToken"@);
        if path@.len() > 0 {
            assert(texts(path@)[0] == path@[0]@);
        }
        if path@.len() > 1 {
            assert(texts(path@)[1] == path@[1]@);
        }
    }
    if method == Method::Get && path.len() == 1 && is_text(&path[0], "devices") {
        Ok(RequestType::List)
    } else if method == Method::Put && path.len() == 2 && is_text(&path[0], "devices") {
        parse_registration(&path[1], payload)
    } else if method == Method::Get && path.len() == 1 && is_text(&path[0], "controlToken") {
        parse_token_request(payload)
    } else {
        Err(HandlingError::not_found())
    }
}

} // verus!
