//! Control tokens: their claims, the JSON form of the claims, and the bridge
//! to `jsonwebtoken`, which signs and verifies them.
use vstd::prelude::*;
use vstd::string::StrSliceExecFns;
use crate::arbiter::acl::Access;
use crate::base64url::{base64url_decode, base64url_encode};
use crate::cid::{canonical_text, ComponentId};
use crate::json::{
    all_texts_of_text_array, empty_object, from_number, from_text, get_number, get_text, get_texts,
    is_flat, json_model, json_parse, json_print, number_member, text_array, text_member,
    texts_member, texts_to_json, with_member, Json,
};
use crate::text::{contains_text, texts};

verus! {

/// The number of seconds for which a control token is valid.
pub const TOKEN_LIFETIME_SECS: u64 = 6000;

/// The claims of a control token.
#[derive(Debug)]
pub struct JwtClaims {
    /// The arbiter that issued the token.
    pub iss: String,
    /// The controller that asked for it.
    pub sub: String,
    /// The one device that it is good for.
    pub aud: String,
    /// The instant at which it expires, in seconds since the Unix epoch.
    pub exp: u64,
    /// The parameters that it lets its bearer read.
    pub params_read: Vec<String>,
    /// The parameters that it lets its bearer write.
    pub params_write: Vec<String>,
}

/// The mathematical value of [`JwtClaims`].
pub struct JwtClaimsView {
    pub iss: Seq<char>,
    pub sub: Seq<char>,
    pub aud: Seq<char>,
    pub exp: u64,
    pub params_read: Seq<Seq<char>>,
    pub params_write: Seq<Seq<char>>,
}

impl View for JwtClaims {
    type V = JwtClaimsView;

    open spec fn view(&self) -> JwtClaimsView {
        JwtClaimsView {
            iss: self.iss@,
            sub: self.sub@,
            aud: self.aud@,
            exp: self.exp,
            params_read: texts(self.params_read@),
            params_write: texts(self.params_write@),
        }
    }
}

/// The JSON form of claims: an object with exactly the members `iss`, `sub`,
/// `aud`, `exp`, `params_read` and `params_write`.
pub open spec fn claims_json(c: JwtClaimsView) -> Json {
    Json::Object(
        Map::empty().insert("iss"@, Json::Text(c.iss)).insert("sub"@, Json::Text(c.sub)).insert(
            "aud"@,
            Json::Text(c.aud),
        ).insert("exp"@, Json::unsigned(c.exp)).insert(
            "params_read"@,
            text_array(c.params_read),
        ).insert("params_write"@, text_array(c.params_write)),
    )
}

/// The claims that a document holds: each of the six members must be present
/// and of its type. Members beyond the six are ignored.
pub open spec fn claims_of_json(doc: Json) -> Option<JwtClaimsView> {
    match (
        text_member(doc, "iss"@),
        text_member(doc, "sub"@),
        text_member(doc, "aud"@),
        number_member(doc, "exp"@),
        texts_member(doc, "params_read"@),
        texts_member(doc, "params_write"@),
    ) {
        (Some(iss), Some(sub), Some(aud), Some(exp), Some(params_read), Some(params_write)) => Some(
            JwtClaimsView { iss, sub, aud, exp, params_read, params_write },
        ),
        _ => None,
    }
}

/// The member names of claims are pairwise different.
proof fn claim_keys_differ()
    ensures
        "iss"@ != "sub"@,
        "iss"@ != "aud"@,
        "iss"@ != "exp"@,
        "iss"@ != "params_read"@,
        "iss"@ != "params_write"@,
        "sub"@ != "aud"@,
        "sub"@ != "exp"@,
        "sub"@ != "params_read"@,
        "sub"@ != "params_write"@,
        "aud"@ != "exp"@,
        "aud"@ != "params_read"@,
        "aud"@ != "params_write"@,
        "exp"@ != "params_read"@,
        "exp"@ != "params_write"@,
        "params_read"@ != "params_write"@,
{
    reveal_strlit("iss");
    reveal_strlit("sub");
    reveal_strlit("aud");
    reveal_strlit("exp");
    reveal_strlit("params_read");
    reveal_strlit("params_write");
    assert("iss"@.len() == 3 && "sub"@.len() == 3 && "aud"@.len() == 3 && "exp"@.len() == 3);
    assert("params_read"@.len() == 11 && "params_write"@.len() == 12);
    assert("iss"@[0] == 'i' && "sub"@[0] == 's' && "aud"@[0] == 'a' && "exp"@[0] == 'e');
}

/// The JSON form of claims is a document of one level.
pub proof fn claims_json_is_flat(c: JwtClaimsView)
    ensures
        is_flat(claims_json(c)),
{
    let members = claims_json(c)->Object_0;
    assert forall|key: Seq<char>| #[trigger] members.contains_key(key) implies crate::json::is_simple(
        members[key],
    ) by {
        claim_keys_differ();
        assert(text_array(c.params_read)->Array_0.len() == c.params_read.len());
        assert(text_array(c.params_write)->Array_0.len() == c.params_write.len());
    }
}

/// Claims read back from their JSON form unchanged.
pub proof fn claims_json_reads_back(c: JwtClaimsView)
    ensures
        claims_of_json(claims_json(c)) == Some(c),
{
    claim_keys_differ();
    all_texts_of_text_array(c.params_read);
    all_texts_of_text_array(c.params_write);
}

impl JwtClaims {
    /// The JSON form of the claims. Reading it back gives the same claims.
    pub fn to_json(&self) -> (doc: serde_json::Value)
        ensures
            json_model(doc) == claims_json(self@),
            claims_of_json(json_model(doc)) == Some(self@),
    {
        proof {
            claims_json_reads_back(self@);
        }
        let doc = empty_object();
        let doc = with_member(doc, "iss", from_text(self.iss.as_str()));
        let doc = with_member(doc, "sub", from_text(self.sub.as_str()));
        let doc = with_member(doc, "aud", from_text(self.aud.as_str()));
        let doc = with_member(doc, "exp", from_number(self.exp));
        let doc = with_member(doc, "params_read", texts_to_json(&self.params_read));
        let doc = with_member(doc, "params_write", texts_to_json(&self.params_write));
        doc
    }

    /// Reads claims from their JSON form.
    pub fn from_json(doc: &serde_json::Value) -> (r: Option<JwtClaims>)
        ensures
            match r {
                Some(c) => claims_of_json(json_model(*doc)) == Some(c@),
                None => claims_of_json(json_model(*doc)).is_none(),
            },
    {
        let iss = get_text(doc, "iss");
        let sub = get_text(doc, "sub");
        let aud = get_text(doc, "aud");
        let exp = get_number(doc, "exp");
        let params_read = get_texts(doc, "params_read");
        let params_write = get_texts(doc, "params_write");
        match (iss, sub, aud, exp, params_read, params_write) {
            (
                Some(iss),
                Some(sub),
                Some(aud),
                Some(exp),
                Some(params_read),
                Some(params_write),
            ) => Some(JwtClaims { iss, sub, aud, exp, params_read, params_write }),
            _ => None,
        }
    }
}

/// Why a token operation on a device is refused.
#[derive(Clone, Copy, Debug, PartialEq, Eq, Structural)]
pub enum AuthzError {
    /// The token has expired: its `exp` is not after the present instant.
    Expired,
    /// The token was issued for another device.
    WrongAudience,
    /// The token does not grant the parameter in the direction asked for.
    NoPermission,
}

impl JwtClaimsView {
    /// Whether the claims grant `parameter` in the direction `access`.
    pub open spec fn grants(self, parameter: Seq<char>, access: Access) -> bool {
        match access {
            Access::Read => self.params_read.contains(parameter),
            Access::Write => self.params_write.contains(parameter),
        }
    }

    /// What a device `device` decides, at the instant `now`, on an access to
    /// `parameter` under these claims. The token must not have expired, must
    /// name this device as its audience, and must grant the parameter in the
    /// direction of the access; the first of these that fails is reported.
    pub open spec fn verdict(
        self,
        device: ComponentId,
        now: u64,
        parameter: Seq<char>,
        access: Access,
    ) -> Result<(), AuthzError> {
        if self.exp <= now {
            Err(AuthzError::Expired)
        } else if self.aud != canonical_text(device.value) {
            Err(AuthzError::WrongAudience)
        } else if !self.grants(parameter, access) {
            Err(AuthzError::NoPermission)
        } else {
            Ok(())
        }
    }
}

impl JwtClaims {
    /// Decides [`JwtClaimsView::verdict`].
    pub fn check(&self, device: ComponentId, now: u64, parameter: &String, access: Access) -> (r:
        Result<(), AuthzError>)
        ensures
            r == self@.verdict(device, now, parameter@, access),
    {
        if self.exp <= now {
            return Err(AuthzError::Expired);
        }
        let me = device.to_string();
        if self.aud != me {
            return Err(AuthzError::WrongAudience);
        }
        let granted = match access {
            Access::Read => contains_text(&self.params_read, parameter),
            Access::Write => contains_text(&self.params_write, parameter),
        };
        if !granted {
            return Err(AuthzError::NoPermission);
        }
        Ok(())
    }
}

/// An access is allowed only under a token for this very device that grants
/// the parameter in the direction of the access and has not expired.
pub proof fn allowed_only_for_audience_and_grant(
    c: JwtClaimsView,
    device: ComponentId,
    now: u64,
    parameter: Seq<char>,
    access: Access,
)
    requires
        c.verdict(device, now, parameter, access) is Ok,
    ensures
        c.aud == canonical_text(device.value),
        c.grants(parameter, access),
        c.exp > now,
{
}

/// A token whose expiry is the present instant is refused as expired.
pub proof fn expiring_now_is_refused(
    c: JwtClaimsView,
    device: ComponentId,
    parameter: Seq<char>,
    access: Access,
)
    ensures
        c.verdict(device, c.exp, parameter, access) == Err::<(), AuthzError>(AuthzError::Expired),
{
}

#[verifier::external_type_specification]
#[verifier::external_body]
pub struct ExEncodingKey(jsonwebtoken::EncodingKey);

#[verifier::external_type_specification]
#[verifier::external_body]
pub struct ExDecodingKey(jsonwebtoken::DecodingKey);

#[verifier::external_type_specification]
#[verifier::external_body]
pub struct ExJwtError(jsonwebtoken::errors::Error);

/// Why a token is not accepted, or could not be made.
#[derive(Clone, Copy, Debug, PartialEq, Eq, Structural)]
pub enum TokenError {
    /// The token is not a well-formed ES256 token signed by the arbiter.
    Invalid,
    /// The token has expired: its `exp` is not after the present instant.
    Expired,
    /// The verifier found the token issued for another audience.
    WrongAudience,
    /// The token is genuine, but its claims are not those of a control token.
    MalformedClaims,
    /// The signer failed.
    Signing,
}

/// The JSON text of the header that every control token has: the type `JWT`
/// and the algorithm `ES256`.
pub open spec fn header_json() -> Seq<char> {
    "{\"typ\":\"JWT\",\"alg\":\"ES256\"}"@
}

/// A token in compact form carries a claims document when it has exactly
/// two dots, what stands before the first is the encoded header, and what
/// stands between them is the encoding of the printed document. What stands
/// after the second dot is the signature.
pub open spec fn carries(token: Seq<char>, claims: Json) -> bool {
    &&& compact_parts(token) matches Some(parts)
    &&& parts.0 == base64url_encode(vstd::utf8::encode_utf8(header_json()))
    &&& parts.1 == base64url_encode(json_print(claims))
}

/// `jsonwebtoken::encode` with an ES256 header. Where it succeeds, the token
/// is the header, the claims and the signature, each in base64url and joined
/// by dots: the header as [`header_json`] spells it, the claims as
/// `serde_json::to_vec` prints them. Decoding undoes encoding, and what is
/// printed of a document of one level parses as that document, so that the
/// token then holds that very document. The signature differs from call to
/// call, and nothing is claimed of it but that it holds no dot.
#[verifier::external_body]
fn jwt_encode(claims: &serde_json::Value, key: &jsonwebtoken::EncodingKey) -> (r: Result<
    String,
    jsonwebtoken::errors::Error,
>)
    ensures
        r matches Ok(token) ==> carries(token@, json_model(*claims)),
        r matches Ok(token) ==> (is_flat(json_model(*claims)) ==> token_document(token@) == Some(
            json_model(*claims),
        )),
{
    let header = jsonwebtoken::Header::new(jsonwebtoken::Algorithm::ES256);
    jsonwebtoken::encode(&header, claims, key)
}

/// Whether the header of `token`, as `jsonwebtoken::decode_header` reads it,
/// names ES256 as the algorithm; `None` where it reads no header.
pub uninterp spec fn header_names_es256(token: Seq<char>) -> Option<bool>;

/// `jsonwebtoken::decode_header`: the result depends on the token alone. Of
/// the header only this is kept: whether its algorithm is ES256.
#[verifier::external_body]
fn jwt_header_names_es256(token: &str) -> (r: Option<bool>)
    ensures
        r == header_names_es256(token@),
{
    match jsonwebtoken::decode_header(token) {
        Ok(header) => Some(matches!(header.alg, jsonwebtoken::Algorithm::ES256)),
        Err(_) => None,
    }
}

/// The document that a token in compact form holds: what its middle part
/// decodes to, read as JSON. `None` for a text that has not exactly two
/// dots, or whose middle part is no base64url, or decodes to no JSON.
pub open spec fn token_document(token: Seq<char>) -> Option<Json> {
    match compact_parts(token) {
        Some(parts) => match base64url_decode(parts.1) {
            Some(bytes) => json_parse(bytes),
            None => None,
        },
        None => None,
    }
}

/// The claims that a token in compact form holds, if its document holds
/// claims.
pub open spec fn token_claims(token: Seq<char>) -> Option<JwtClaimsView> {
    match token_document(token) {
        Some(doc) => claims_of_json(doc),
        None => None,
    }
}

/// The claims document that `jsonwebtoken::decode` gives for a token, a key
/// and an audience, under a validation that admits ES256 alone and that one
/// audience and leaves the expiry to the caller; `None` where it refuses
/// the token.
pub uninterp spec fn jwt_verified(
    token: Seq<char>,
    key: jsonwebtoken::DecodingKey,
    audience: Seq<char>,
) -> Option<Json>;

/// `jsonwebtoken::decode` with a validation that admits ES256 alone and the
/// one audience given, and that leaves the expiry to the caller, so that
/// the verifier reads no clock: the result depends on the token, the key
/// and the audience alone. Where it succeeds, the token is well formed and
/// signed under `key`; the document returned is the one that the token
/// holds; and where that document names one audience as a string, it is the
/// audience given.
#[verifier::external_body]
fn jwt_decode(token: &str, key: &jsonwebtoken::DecodingKey, audience: &str) -> (r: Result<
    serde_json::Value,
    jsonwebtoken::errors::Error,
>)
    ensures
        match r {
            Ok(doc) => jwt_verified(token@, *key, audience@) == Some(json_model(doc)),
            Err(_) => jwt_verified(token@, *key, audience@).is_none(),
        },
        r matches Ok(doc) ==> token_document(token@) == Some(json_model(doc)),
        r matches Ok(doc) ==> (json_model(doc).member("aud"@) matches Some(Json::Text(named))
            ==> named == audience@),
{
    let mut validation = jsonwebtoken::Validation::new(jsonwebtoken::Algorithm::ES256);
    validation.set_audience(&[audience]);
    validation.validate_exp = false;
    jsonwebtoken::decode::<serde_json::Value>(token, key, &validation).map(|data| data.claims)
}

/// `jsonwebtoken::errors::Error::kind`, told apart as far as the replies of
/// a device differ: a refusal for the audience, and every other.
#[verifier::external_body]
fn jwt_fault(error: &jsonwebtoken::errors::Error) -> (fault: TokenError)
    ensures
        fault == TokenError::Invalid || fault == TokenError::WrongAudience,
{
    match error.kind() {
        jsonwebtoken::errors::ErrorKind::InvalidAudience => TokenError::WrongAudience,
        _ => TokenError::Invalid,
    }
}

/// The view of a result that holds claims.
pub open spec fn claims_view(r: Result<JwtClaims, TokenError>) -> Result<JwtClaimsView, TokenError> {
    match r {
        Ok(c) => Ok(c@),
        Err(e) => Err(e),
    }
}

/// Turns the claims document of a verified token into claims.
pub fn claims_from_document(doc: &serde_json::Value) -> (r: Result<JwtClaims, TokenError>)
    ensures
        claims_view(r) == match claims_of_json(json_model(*doc)) {
            Some(c) => Ok::<JwtClaimsView, TokenError>(c),
            None => Err::<JwtClaimsView, TokenError>(TokenError::MalformedClaims),
        },
{
    match JwtClaims::from_json(doc) {
        Some(c) => Ok(c),
        None => Err(TokenError::MalformedClaims),
    }
}

/// Signs `claims` with the arbiter's private key and returns the token in
/// compact form: one that [`carries`] the JSON form of the claims under the
/// ES256 header, and that holds exactly these claims. Fails with
/// [`TokenError::Signing`], and with nothing else, where the signer does.
pub fn sign_claims(claims: &JwtClaims, key: &jsonwebtoken::EncodingKey) -> (r: Result<
    String,
    TokenError,
>)
    ensures
        match r {
            Ok(token) => carries(token@, claims_json(claims@)) && token_claims(token@) == Some(
                claims@,
            ),
            Err(e) => e == TokenError::Signing,
        },
{
    proof {
        claims_json_is_flat(claims@);
    }
    let doc = claims.to_json();
    match jwt_encode(&doc, key) {
        Ok(token) => Ok(token),
        Err(_) => Err(TokenError::Signing),
    }
}

/// What is found, at the instant `now`, in the claims document of a token
/// that the verifier accepted: the claims that the document holds, unless
/// it holds none or they have expired.
pub open spec fn found_in(doc: Json, now: u64) -> Result<JwtClaimsView, TokenError> {
    match claims_of_json(doc) {
        None => Err(TokenError::MalformedClaims),
        Some(c) => if c.exp <= now {
            Err(TokenError::Expired)
        } else {
            Ok(c)
        },
    }
}

/// Whether `found` is what decoding `token` under `key` for `audience` at
/// the instant `now` gives.
///
/// A token whose header does not name ES256 is refused as invalid, whatever
/// the verifier would say of it. A token that the verifier refuses is
/// refused, as invalid or for its audience. A token that the verifier
/// accepts gives what [`found_in`] finds in its document.
pub open spec fn decoded(
    token: Seq<char>,
    key: jsonwebtoken::DecodingKey,
    audience: Seq<char>,
    now: u64,
    found: Result<JwtClaimsView, TokenError>,
) -> bool {
    if header_names_es256(token) != Some(true) {
        found == Err::<JwtClaimsView, TokenError>(TokenError::Invalid)
    } else {
        match jwt_verified(token, key, audience) {
            Some(doc) => found == found_in(doc, now),
            None => found == Err::<JwtClaimsView, TokenError>(TokenError::Invalid) || found
                == Err::<JwtClaimsView, TokenError>(TokenError::WrongAudience),
        }
    }
}

/// Verifies `token` under the arbiter's public key as an ES256 token for the
/// audience `my_cid` that has not expired at the instant `now`, and reads
/// its claims; see [`decoded`]. A token is accepted only where the verifier
/// accepts it; the claims of an accepted token are those that the token
/// holds, their audience is `my_cid` and their expiry lies after `now`.
pub fn decode_jwt_at(
    token: &str,
    decoder: &jsonwebtoken::DecodingKey,
    my_cid: &str,
    now: u64,
) -> (r: Result<JwtClaims, TokenError>)
    ensures
        decoded(token@, *decoder, my_cid@, now, claims_view(r)),
        r matches Ok(c) ==> token_claims(token@) == Some(c@) && c@.aud == my_cid@ && c@.exp > now,
{
    match jwt_header_names_es256(token) {
        Some(true) => {},
        _ => { return Err(TokenError::Invalid); },
    }
    let claims = match jwt_decode(token, decoder, my_cid) {
        Ok(doc) => match claims_from_document(&doc) {
            Ok(claims) => claims,
            Err(e) => { return Err(e); },
        },
        Err(e) => { return Err(jwt_fault(&e)); },
    };
    if claims.exp <= now {
        return Err(TokenError::Expired);
    }
    Ok(claims)
}

/// Verifies `token` as [`decode_jwt_at`] does, at the instant that the clock
/// shows.
pub fn decode_jwt(token: &str, decoder: &jsonwebtoken::DecodingKey, my_cid: &str) -> (r: Result<
    JwtClaims,
    TokenError,
>)
    ensures
        exists|now: u64| #[trigger] decoded(token@, *decoder, my_cid@, now, claims_view(r)),
        r matches Ok(c) ==> token_claims(token@) == Some(c@) && c@.aud == my_cid@,
{
    let now = crate::clock::unix_time();
    let r = decode_jwt_at(token, decoder, my_cid, now);
    assert(decoded(token@, *decoder, my_cid@, now, claims_view(r)));
    r
}

/// The place of the first dot of `text` at or after `from`, or the length of
/// `text` where there is none.
pub open spec fn next_dot(text: Seq<char>, from: int) -> int
    decreases text.len() - from,
{
    if from >= text.len() {
        text.len() as int
    } else if text[from] == '.' {
        from
    } else {
        next_dot(text, from + 1)
    }
}

/// The three parts of a token in compact form: the texts before, between
/// and after its two dots. `None` for a text that has not exactly two dots.
pub open spec fn compact_parts(token: Seq<char>) -> Option<(Seq<char>, Seq<char>, Seq<char>)> {
    let first = next_dot(token, 0);
    let second = next_dot(token, first + 1);
    if first < token.len() && second < token.len() && next_dot(token, second + 1) == token.len() {
        Some(
            (
                token.subrange(0, first),
                token.subrange(first + 1, second),
                token.subrange(second + 1, token.len() as int),
            ),
        )
    } else {
        None
    }
}

/// Finds the first dot of `text` at or after `from`.
pub fn find_dot(text: &str, from: usize) -> (place: usize)
    ensures
        place == next_dot(text@, from as int),
        place <= text@.len(),
        from <= text@.len() ==> from <= place,
{
    let n = text.unicode_len();
    if from >= n {
        return n;
    }
    let mut i: usize = from;
    while i < n
        invariant
            from <= i <= n,
            n == text@.len(),
            next_dot(text@, from as int) == next_dot(text@, i as int),
        decreases n - i,
    {
        if text.get_char(i) == '.' {
            return i;
        }
        i += 1;
    }
    i
}

/// Splits a token in compact form into its three parts.
pub fn split_compact(token: &str) -> (parts: Option<(String, String, String)>)
    ensures
        match parts {
            Some(p) => compact_parts(token@) == Some((p.0@, p.1@, p.2@)),
            None => compact_parts(token@).is_none(),
        },
{
    let n = token.unicode_len();
    let first = find_dot(token, 0);
    if first >= n {
        return None;
    }
    let second = find_dot(token, first + 1);
    if second >= n {
        return None;
    }
    if find_dot(token, second + 1) != n {
        return None;
    }
    Some(
        (
            token.substring_char(0, first).to_owned(),
            token.substring_char(first + 1, second).to_owned(),
            token.substring_char(second + 1, n).to_owned(),
        ),
    )
}

} // verus!
