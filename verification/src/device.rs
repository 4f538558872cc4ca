//! The device: validation of control tokens and the parameter endpoints.
pub mod config;

use vstd::prelude::*;
use vstd::string::StrSliceExecFns;
use vstd::string::StringExecFns;
use crate::arbiter::acl::Access;
use crate::arbiter::request_handler::PutDevicePayload;
use crate::cid::{canonical_text, ComponentId};
use crate::clock::unix_time;
use crate::coap::{HandlingError, Method, Reply, ResponseCode};
use crate::device::config::Config;
use crate::json::{
    empty_object, from_text, get_text, json_model, json_parse, parse, text_member, with_member, Json,
};
use crate::token::{
    claims_of_json, claims_view, decode_jwt_at, found_in, header_names_es256, jwt_verified,
    token_claims, AuthzError, JwtClaims, JwtClaimsView, TokenError,
};

verus! {

/// The time to live, in seconds, with which a device registers.
pub const REGISTRATION_TTL_SECS: u64 = 3600;

/// Serves the parameters of one device.
pub struct RequestHandler {
    /// The public key of the arbiter, under which tokens are verified.
    pub jwt_decoder: jsonwebtoken::DecodingKey,
    /// The identifier of this device.
    pub my_cid: ComponentId,
}

/// The direction of the access that a method stands for: `GET` reads, `PUT`
/// writes, and no other method is served.
pub open spec fn access_of(method: Method) -> Option<Access> {
    match method {
        Method::Get => Some(Access::Read),
        Method::Put => Some(Access::Write),
        _ => None,
    }
}

/// The token that a document carries for an access: a read needs the member
/// `token`, a write the members `token` and `value`.
pub open spec fn token_of_json(doc: Json, access: Access) -> Option<Seq<char>> {
    match access {
        Access::Read => text_member(doc, "token"@),
        Access::Write => match text_member(doc, "value"@) {
            Some(_) => text_member(doc, "token"@),
            None => None,
        },
    }
}

/// The token that a payload carries for an access, if it is a JSON document
/// that carries one.
pub open spec fn token_of_payload(payload: Seq<u8>, access: Access) -> Option<Seq<char>> {
    match json_parse(payload) {
        Some(doc) => token_of_json(doc, access),
        None => None,
    }
}

/// The message that reports why a token is not accepted. It names the
/// category of the failure and nothing of the token.
pub open spec fn token_error_message(e: TokenError) -> Seq<char> {
    match e {
        TokenError::Expired => "Token expired"@,
        TokenError::WrongAudience => "Token issued for another device"@,
        TokenError::MalformedClaims => "Invalid token claims"@,
        _ => "Invalid token"@,
    }
}

/// The message that reports why an access is refused.
pub open spec fn refusal_message(e: AuthzError) -> Seq<char> {
    match e {
        AuthzError::Expired => "Token expired"@,
        AuthzError::WrongAudience => "Token issued for another device"@,
        AuthzError::NoPermission => "No permission for parameter"@,
    }
}

/// The payload of a successful read: the two ASCII characters `42`.
pub open spec fn parameter_value() -> Seq<u8> {
    seq![0x34u8, 0x32u8]
}

/// What a device `device` replies, at the instant `now`, to an access to
/// `parameter` for which the verifier found `claims`.
///
/// Without claims the reply is 4.03. With claims it is 4.03 unless their
/// [`verdict`](JwtClaimsView::verdict) allows the access; an allowed read is
/// answered with 2.05 and the value, an allowed write with 2.04 and an
/// empty payload.
pub open spec fn reply_to(
    claims: Result<JwtClaimsView, TokenError>,
    device: ComponentId,
    now: u64,
    parameter: Seq<char>,
    access: Access,
) -> (ResponseCode, Seq<u8>) {
    match claims {
        Err(e) => (ResponseCode::Forbidden, vstd::utf8::encode_utf8(token_error_message(e))),
        Ok(c) => match c.verdict(device, now, parameter, access) {
            Err(e) => (ResponseCode::Forbidden, vstd::utf8::encode_utf8(refusal_message(e))),
            Ok(()) => match access {
                Access::Read => (ResponseCode::Content, parameter_value()),
                Access::Write => (ResponseCode::Changed, Seq::<u8>::empty()),
            },
        },
    }
}

/// The failure that reports why a token is not accepted.
pub fn token_failure(e: TokenError) -> (failure: HandlingError)
    ensures
        failure.code == ResponseCode::Forbidden,
        failure.message@ == token_error_message(e),
{
    match e {
        TokenError::Expired => HandlingError::forbidden("Token expired"),
        TokenError::WrongAudience => HandlingError::forbidden("Token issued for another device"),
        TokenError::MalformedClaims => HandlingError::forbidden("Invalid token claims"),
        _ => HandlingError::forbidden("Invalid token"),
    }
}

/// The failure that reports why an access is refused.
pub fn refusal(e: AuthzError) -> (failure: HandlingError)
    ensures
        failure.code == ResponseCode::Forbidden,
        failure.message@ == refusal_message(e),
{
    match e {
        AuthzError::Expired => HandlingError::forbidden("Token expired"),
        AuthzError::WrongAudience => HandlingError::forbidden("Token issued for another device"),
        AuthzError::NoPermission => HandlingError::forbidden("No permission for parameter"),
    }
}

/// Decides on an access for which the verifier found `claims`; see
/// [`reply_to`].
pub fn respond(
    claims: &Result<JwtClaims, TokenError>,
    device: ComponentId,
    now: u64,
    parameter: &String,
    access: Access,
) -> (reply: Reply)
    ensures
        (reply.code, reply.payload@) == reply_to(
            claims_view(*claims),
            device,
            now,
            parameter@,
            access,
        ),
{
    match claims {
        Err(e) => token_failure(*e).into_reply(),
        Ok(c) => match c.check(device, now, parameter, access) {
            Err(e) => refusal(e).into_reply(),
            Ok(()) => match access {
                Access::Read => {
                    let payload: Vec<u8> = vec![0x34u8, 0x32u8];
                    assert(payload@ =~= parameter_value());
                    Reply { code: ResponseCode::Content, payload }
                },
                Access::Write => Reply { code: ResponseCode::Changed, payload: Vec::new() },
            },
        },
    }
}

/// Reads the token that a payload carries for an access.
pub fn read_token(payload: &[u8], access: Access) -> (token: Option<String>)
    ensures
        crate::json::text_of(token) == token_of_payload(payload@, access),
{
    let doc = match parse(payload) {
        Ok(doc) => doc,
        Err(_) => { return None; },
    };
    match access {
        Access::Read => get_text(&doc, "token"),
        Access::Write => match get_text(&doc, "value") {
            Some(_) => get_text(&doc, "token"),
            None => None,
        },
    }
}

/// The body of a read: an object with the member `token`.
pub open spec fn read_body_json(token: Seq<char>) -> Json {
    Json::Object(Map::empty().insert("token"@, Json::Text(token)))
}

/// The body of a write: an object with the members `token` and `value`.
pub open spec fn write_body_json(token: Seq<char>, value: Seq<char>) -> Json {
    Json::Object(
        Map::empty().insert("token"@, Json::Text(token)).insert("value"@, Json::Text(value)),
    )
}

/// Builds the body of a read. The device reads the token back from it.
pub fn read_body(token: &str) -> (doc: serde_json::Value)
    ensures
        json_model(doc) == read_body_json(token@),
        token_of_json(json_model(doc), Access::Read) == Some(token@),
{
    with_member(empty_object(), "token", from_text(token))
}

/// Builds the body of a write. The device reads the token back from it.
pub fn write_body(token: &str, value: &str) -> (doc: serde_json::Value)
    ensures
        json_model(doc) == write_body_json(token@, value@),
        token_of_json(json_model(doc), Access::Write) == Some(token@),
{
    proof {
        reveal_strlit("token");
        reveal_strlit("value");
        assert("token"@[0] != "value"@[0]);
    }
    let doc = with_member(empty_object(), "token", from_text(token));
    with_member(doc, "value", from_text(value))
}

/// The token that a request carries, if its method stands for an access
/// and its payload carries a token for that access.
pub open spec fn request_token(method: Method, payload: Seq<u8>) -> Option<Seq<char>> {
    match access_of(method) {
        Some(access) => token_of_payload(payload, access),
        None => None,
    }
}

/// Whether `reply` is what a device `device` that verifies under `key`
/// replies at the instant `now` to an access under `token`.
///
/// A token whose header does not name ES256 is refused as invalid, whatever
/// its signature. A token that the verifier refuses is refused with 4.03, as
/// invalid or as issued for another device. A token that the verifier
/// accepts is answered as [`reply_to`] says for what [`found_in`] finds in
/// its document at `now`.
pub open spec fn answers_token(
    token: Seq<char>,
    key: jsonwebtoken::DecodingKey,
    device: ComponentId,
    now: u64,
    parameter: Seq<char>,
    access: Access,
    reply: (ResponseCode, Seq<u8>),
) -> bool {
    if header_names_es256(token) != Some(true) {
        reply == reply_to(Err(TokenError::Invalid), device, now, parameter, access)
    } else {
        match jwt_verified(token, key, canonical_text(device.value)) {
            Some(doc) => reply == reply_to(found_in(doc, now), device, now, parameter, access),
            None => reply == reply_to(Err(TokenError::Invalid), device, now, parameter, access)
                || reply == reply_to(
                Err(TokenError::WrongAudience),
                device,
                now,
                parameter,
                access,
            ),
        }
    }
}

/// Whether `reply` is what a device `device` that verifies under `key`
/// replies to a request at the instant `now`.
///
/// A method other than `GET` and `PUT` is answered with 4.04, and a payload
/// that does not carry what the access needs with 4.00; the token does not
/// matter then. Every other request is answered as [`answers_token`] says
/// for the token that it carries.
pub open spec fn serves(
    method: Method,
    parameter: Seq<char>,
    payload: Seq<u8>,
    key: jsonwebtoken::DecodingKey,
    device: ComponentId,
    now: u64,
    reply: (ResponseCode, Seq<u8>),
) -> bool {
    match access_of(method) {
        None => reply == (ResponseCode::NotFound, vstd::utf8::encode_utf8("Not found"@)),
        Some(access) => match token_of_payload(payload, access) {
            None => reply == (
                ResponseCode::BadRequest,
                vstd::utf8::encode_utf8("Couldn't parse the payload"@),
            ),
            Some(token) => answers_token(token, key, device, now, parameter, access, reply),
        },
    }
}

impl RequestHandler {
    /// A handler for the device `my_cid` that verifies tokens under
    /// `jwt_decoder`.
    pub fn new(jwt_decoder: jsonwebtoken::DecodingKey, my_cid: ComponentId) -> (handler: Self)
        ensures
            handler.my_cid == my_cid,
            handler.jwt_decoder == jwt_decoder,
    {
        RequestHandler { jwt_decoder, my_cid }
    }

    /// Serves one request at the instant `now`; see [`serves`]. An access
    /// succeeds only where the claims that the token itself holds allow it.
    pub fn handle_request_at(&self, method: Method, parameter: &str, payload: &[u8], now: u64) -> (reply:
        Reply)
        ensures
            serves(
                method,
                parameter@,
                payload@,
                self.jwt_decoder,
                self.my_cid,
                now,
                (reply.code, reply.payload@),
            ),
            reply.code.success() ==> (access_of(method) matches Some(access) && token_of_payload(
                payload@,
                access,
            ) matches Some(token) && token_claims(token) matches Some(held) && held.verdict(
                self.my_cid,
                now,
                parameter@,
                access,
            ) is Ok),
    {
        let access = match method {
            Method::Get => Access::Read,
            Method::Put => Access::Write,
            _ => { return HandlingError::not_found().into_reply(); },
        };
        let token = match read_token(payload, access) {
            Some(token) => token,
            None => {
                return HandlingError::bad_request("Couldn't parse the payload").into_reply();
            },
        };
        let me = self.my_cid.to_string();
        let claims = decode_jwt_at(token.as_str(), &self.jwt_decoder, me.as_str(), now);
        let parameter = parameter.to_owned();
        respond(&claims, self.my_cid, now, &parameter, access)
    }

    /// Serves one request at the present instant: as
    /// [`RequestHandler::handle_request_at`] does for the instant that the
    /// clock shows.
    pub fn handle_request(&self, method: Method, parameter: &str, payload: &[u8]) -> (reply: Reply)
        ensures
            exists|now: u64| #[trigger]
                serves(
                    method,
                    parameter@,
                    payload@,
                    self.jwt_decoder,
                    self.my_cid,
                    now,
                    (reply.code, reply.payload@),
                ),
            reply.code.success() ==> (access_of(method) matches Some(access) && token_of_payload(
                payload@,
                access,
            ) matches Some(token) && token_claims(token) matches Some(held) && exists|now: u64|
                #[trigger] held.verdict(self.my_cid, now, parameter@, access) is Ok),
    {
        let now = unix_time();
        let reply = self.handle_request_at(method, parameter, payload, now);
        proof {
            assert(serves(
                method,
                parameter@,
                payload@,
                self.jwt_decoder,
                self.my_cid,
                now,
                (reply.code, reply.payload@),
            ));
            if reply.code.success() {
                let access = access_of(method)->Some_0;
                let token = token_of_payload(payload@, access)->Some_0;
                let held = token_claims(token)->Some_0;
                assert(held.verdict(self.my_cid, now, parameter@, access) is Ok);
            }
        }
        reply
    }
}

/// The registration that a device with the configuration `config` submits
/// when it listens on `port`: its label, manufacturer and model, the port,
/// and a time to live of 3600 seconds.
pub fn registration(config: &Config, port: u16) -> (payload: PutDevicePayload)
    ensures
        payload.label@ == config.label@,
        payload.manufacturer@ == config.manufacturer@,
        payload.model@ == config.model@,
        payload.port == port,
        payload.ttl == REGISTRATION_TTL_SECS,
{
    PutDevicePayload {
        label: config.label.clone(),
        manufacturer: config.manufacturer.clone(),
        model: config.model.clone(),
        port,
        ttl: REGISTRATION_TTL_SECS,
    }
}

/// The path under which the device `cid` registers: `/devices/` and the
/// canonical text of the identifier.
pub fn registration_path(cid: ComponentId) -> (path: String)
    ensures
        path@ == "/devices/"@ + canonical_text(cid.value),
{
    let text = cid.to_string();
    String::from_str("/devices/").concat(text.as_str())
}

/// An access succeeds only under claims for this very device that grant the
/// parameter in the direction of the access and expire after the present
/// instant.
pub proof fn success_needs_audience_and_grant(
    claims: Result<JwtClaimsView, TokenError>,
    device: ComponentId,
    now: u64,
    parameter: Seq<char>,
    access: Access,
)
    requires
        reply_to(claims, device, now, parameter, access).0.success(),
    ensures
        claims matches Ok(c) && c.aud == canonical_text(device.value) && c.grants(
            parameter,
            access,
        ) && c.exp > now,
{
}

/// A token that expires at the present instant is refused with 4.03,
/// whatever else it holds.
pub proof fn token_expiring_now_is_refused(
    c: JwtClaimsView,
    device: ComponentId,
    parameter: Seq<char>,
    access: Access,
)
    ensures
        reply_to(Ok(c), device, c.exp, parameter, access) == (
            ResponseCode::Forbidden,
            vstd::utf8::encode_utf8("Token expired"@),
        ),
{
}

/// A token whose header names another algorithm than ES256, or none, is
/// refused with 4.03, whatever its signature and whatever else it holds.
pub proof fn other_algorithm_is_refused(
    method: Method,
    parameter: Seq<char>,
    payload: Seq<u8>,
    key: jsonwebtoken::DecodingKey,
    device: ComponentId,
    now: u64,
    reply: (ResponseCode, Seq<u8>),
)
    requires
        serves(method, parameter, payload, key, device, now, reply),
        request_token(method, payload) matches Some(token) && header_names_es256(token) != Some(
            true,
        ),
    ensures
        reply == (ResponseCode::Forbidden, vstd::utf8::encode_utf8("Invalid token"@)),
{
}

/// A token that the verifier refuses is refused by the device: one that was
/// signed with another key, one that was changed after it was signed, one
/// whose audience was rewritten. The reply is 4.03 and names the token
/// invalid or issued for another device.
pub proof fn what_the_verifier_refuses_is_refused(
    method: Method,
    parameter: Seq<char>,
    payload: Seq<u8>,
    key: jsonwebtoken::DecodingKey,
    device: ComponentId,
    now: u64,
    reply: (ResponseCode, Seq<u8>),
)
    requires
        serves(method, parameter, payload, key, device, now, reply),
        request_token(method, payload) matches Some(token) && jwt_verified(
            token,
            key,
            canonical_text(device.value),
        ).is_none(),
    ensures
        reply.0 == ResponseCode::Forbidden,
        reply.1 == vstd::utf8::encode_utf8("Invalid token"@) || reply.1 == vstd::utf8::encode_utf8(
            "Token issued for another device"@,
        ),
{
}

/// An access succeeds only under a token with an ES256 header that the
/// verifier accepts and whose claims allow the access at `now`: they have
/// not expired, name this device and grant the parameter in the direction
/// of the access. A read then gets 2.05 with the value, a write 2.04 with
/// an empty payload.
pub proof fn success_needs_an_accepted_token(
    method: Method,
    parameter: Seq<char>,
    payload: Seq<u8>,
    key: jsonwebtoken::DecodingKey,
    device: ComponentId,
    now: u64,
    reply: (ResponseCode, Seq<u8>),
)
    requires
        serves(method, parameter, payload, key, device, now, reply),
        reply.0.success(),
    ensures
        ({
            let token = request_token(method, payload);
            let doc = jwt_verified(token->Some_0, key, canonical_text(device.value));
            let claims = claims_of_json(doc->Some_0);
            &&& access_of(method) is Some
            &&& token is Some
            &&& header_names_es256(token->Some_0) == Some(true)
            &&& doc is Some
            &&& claims is Some
            &&& claims->Some_0.verdict(device, now, parameter, access_of(method)->Some_0) is Ok
            &&& reply == match access_of(method)->Some_0 {
                Access::Read => (ResponseCode::Content, parameter_value()),
                Access::Write => (ResponseCode::Changed, Seq::<u8>::empty()),
            }
        }),
{
}

/// What a token that the verifier accepts is answered with, by what its
/// claims say at `now`. Claims that allow the access get the success of the
/// access: 2.05 with the value for a read, 2.04 with an empty payload for a
/// write. Expired claims get 4.03 "Token expired"; unexpired claims for
/// another device 4.03 "Token issued for another device"; unexpired claims
/// for this device that do not grant the parameter in the direction of the
/// access 4.03 "No permission for parameter"; a document without claims
/// 4.03 "Invalid token claims".
pub proof fn accepted_token_is_answered_by_its_claims(
    method: Method,
    parameter: Seq<char>,
    payload: Seq<u8>,
    key: jsonwebtoken::DecodingKey,
    device: ComponentId,
    now: u64,
    reply: (ResponseCode, Seq<u8>),
)
    requires
        serves(method, parameter, payload, key, device, now, reply),
        request_token(method, payload) matches Some(token) && header_names_es256(token) == Some(
            true,
        ) && jwt_verified(token, key, canonical_text(device.value)) is Some,
    ensures
        ({
            let access = access_of(method)->Some_0;
            let token = request_token(method, payload)->Some_0;
            let doc = jwt_verified(token, key, canonical_text(device.value))->Some_0;
            match claims_of_json(doc) {
                None => reply == (
                    ResponseCode::Forbidden,
                    vstd::utf8::encode_utf8("Invalid token claims"@),
                ),
                Some(c) => match c.verdict(device, now, parameter, access) {
                    Ok(()) => reply == match access {
                        Access::Read => (ResponseCode::Content, parameter_value()),
                        Access::Write => (ResponseCode::Changed, Seq::<u8>::empty()),
                    },
                    Err(AuthzError::Expired) => reply == (
                        ResponseCode::Forbidden,
                        vstd::utf8::encode_utf8("Token expired"@),
                    ),
                    Err(AuthzError::WrongAudience) => reply == (
                        ResponseCode::Forbidden,
                        vstd::utf8::encode_utf8("Token issued for another device"@),
                    ),
                    Err(AuthzError::NoPermission) => reply == (
                        ResponseCode::Forbidden,
                        vstd::utf8::encode_utf8("No permission for parameter"@),
                    ),
                },
            }
        }),
{
}

} // verus!
