//! The arbiter's state: the registry of devices and the token mint.
use vstd::prelude::*;
use std::collections::HashMap;
use vstd::std_specs::iter::IteratorSpec;
use crate::arbiter::acl::{Access, AclDatabase};
use crate::arbiter::request::{
    device_views, ApiDevice, ApiDeviceView, ControlTokenRequest, ControlTokenRequestView,
    ControlTokenResponse, ListResponse, RequestType, RequestTypeView, Response,
};
use crate::cid::{canonical_text, ComponentId};
use crate::clock::unix_time;
use crate::coap::{HandlingError, ResponseCode};
use crate::text::clone_texts;
use crate::token::{
    carries, claims_json, sign_claims, token_claims, JwtClaims, JwtClaimsView,
    TOKEN_LIFETIME_SECS,
};

verus! {

broadcast use vstd::std_specs::hash::group_hash_axioms;

/// What the registry keeps of a device.
#[derive(Debug)]
pub struct Device {
    pub label: String,
    pub manufacturer: String,
    pub model: String,
    /// The UDP port on which the device listens.
    pub port: u16,
    /// The instant until which the registration is valid, in seconds since
    /// the Unix epoch.
    pub valid_until: u64,
}

/// The mathematical value of a [`Device`].
pub struct DeviceView {
    pub label: Seq<char>,
    pub manufacturer: Seq<char>,
    pub model: Seq<char>,
    pub port: u16,
    pub valid_until: u64,
}

impl View for Device {
    type V = DeviceView;

    open spec fn view(&self) -> DeviceView {
        DeviceView {
            label: self.label@,
            manufacturer: self.manufacturer@,
            model: self.model@,
            port: self.port,
            valid_until: self.valid_until,
        }
    }
}

/// The registry: at most one record for each identifier.
#[derive(Debug)]
pub struct State {
    pub devices: HashMap<u128, Device>,
}

impl View for State {
    type V = Map<u128, DeviceView>;

    open spec fn view(&self) -> Map<u128, DeviceView> {
        Map::new(|cid: u128| self.devices@.contains_key(cid), |cid: u128| self.devices@[cid]@)
    }
}

/// Why a registration is refused.
#[derive(Clone, Copy, Debug, PartialEq, Eq, Structural)]
pub enum RegisterError {
    /// A device with this identifier is registered already.
    AlreadyRegistered,
    /// The instant `now + ttl` lies beyond the range of the clock.
    TtlOutOfRange,
}

/// The record that a registration submitted at `now` creates.
pub open spec fn record_of(device: ApiDeviceView, now: u64) -> DeviceView
    recommends
        now + device.ttl <= u64::MAX,
{
    DeviceView {
        label: device.label,
        manufacturer: device.manufacturer,
        model: device.model,
        port: device.port,
        valid_until: (now + device.ttl) as u64,
    }
}

/// The seconds for which a registration is still valid at `now`: the time
/// left until `valid_until`, and zero from then on.
pub open spec fn remaining(valid_until: u64, now: u64) -> u64 {
    if valid_until > now {
        (valid_until - now) as u64
    } else {
        0
    }
}

/// How the record of `cid` is listed at `now`.
pub open spec fn listed(cid: u128, record: DeviceView, now: u64) -> ApiDeviceView {
    ApiDeviceView {
        cid: ComponentId { value: cid },
        label: record.label,
        manufacturer: record.manufacturer,
        model: record.model,
        port: record.port,
        ttl: remaining(record.valid_until, now),
    }
}

/// How a registration of `device` at `now` ends when the registry is
/// `before`: an identifier that is registered already is refused, and so is
/// a time to live that leads beyond the range of the clock.
pub open spec fn register_outcome(before: Map<u128, DeviceView>, device: ApiDeviceView, now: u64) -> Result<
    (),
    RegisterError,
> {
    if before.contains_key(device.cid.value) {
        Err(RegisterError::AlreadyRegistered)
    } else if now + device.ttl > u64::MAX {
        Err(RegisterError::TtlOutOfRange)
    } else {
        Ok(())
    }
}

/// The registry that a registration of `device` at `now` leaves: with a new
/// record where it succeeds, unchanged where it is refused.
pub open spec fn register_effect(before: Map<u128, DeviceView>, device: ApiDeviceView, now: u64) -> Map<
    u128,
    DeviceView,
> {
    if register_outcome(before, device, now) is Ok {
        before.insert(device.cid.value, record_of(device, now))
    } else {
        before
    }
}

impl State {
    /// The empty registry.
    pub fn new() -> (state: State)
        ensures
            state@ == Map::<u128, DeviceView>::empty(),
    {
        let state = State { devices: HashMap::new() };
        assert(state@ =~= Map::<u128, DeviceView>::empty());
        state
    }
}

/// Registers `device` at the instant `now`. A new identifier gets a record
/// that is valid until `now + ttl`; a registered one is refused, and so is a
/// time to live that leads beyond the range of the clock. A refusal leaves
/// the registry unchanged.
pub fn register_device_at(state: &mut State, device: &ApiDevice, now: u64) -> (r: Result<
    (),
    RegisterError,
>)
    ensures
        r == register_outcome(old(state)@, device@, now),
        final(state)@ == register_effect(old(state)@, device@, now),
{
    if state.devices.contains_key(&device.cid.value) {
        return Err(RegisterError::AlreadyRegistered);
    }
    if device.ttl > u64::MAX - now {
        return Err(RegisterError::TtlOutOfRange);
    }
    let record = Device {
        label: device.label.clone(),
        manufacturer: device.manufacturer.clone(),
        model: device.model.clone(),
        port: device.port,
        valid_until: now + device.ttl,
    };
    state.devices.insert(device.cid.value, record);
    assert(state@ =~= old(state)@.insert(device.cid.value, record_of(device@, now)));
    Ok(())
}

/// A sequence lists a registry at `now` when it holds each registered device
/// once, as [`listed`] shows it, and nothing else. The order is left open.
pub open spec fn lists(devices: Seq<ApiDeviceView>, registry: Map<u128, DeviceView>, now: u64) -> bool {
    &&& devices.len() == registry.dom().len()
    &&& forall|i: int|
        0 <= i < devices.len() ==> {
            let cid = (#[trigger] devices[i]).cid.value;
            registry.contains_key(cid) && devices[i] == listed(cid, registry[cid], now)
        }
    &&& forall|cid: u128| #[trigger]
        registry.contains_key(cid) ==> exists|i: int|
            0 <= i < devices.len() && (#[trigger] devices[i]).cid.value == cid
    &&& forall|i: int, j: int|
        0 <= i < j < devices.len() ==> (#[trigger] devices[i]).cid != (#[trigger] devices[j]).cid
}

/// Lists the registry at the instant `now`: every registered device once,
/// with the seconds for which its registration is still valid.
pub fn list_devices_at(state: &State, now: u64) -> (response: ListResponse)
    ensures
        lists(device_views(response.devices@), state@, now),
{
    let mut out: Vec<ApiDevice> = Vec::new();
    let entries = state.devices.iter();
    let ghost all = entries.remaining();
    for entry in it: entries
        invariant
            it.seq() == all,
            out@.len() == it.index(),
            forall|j: int|
                0 <= j < out@.len() ==> (#[trigger] out@[j])@ == listed(
                    *it.seq()[j].0,
                    (*it.seq()[j].1)@,
                    now,
                ),
    {
        let (cid, record) = entry;
        let ttl = if record.valid_until > now {
            record.valid_until - now
        } else {
            0
        };
        out.push(
            ApiDevice {
                cid: ComponentId { value: *cid },
                label: record.label.clone(),
                manufacturer: record.manufacturer.clone(),
                model: record.model.clone(),
                port: record.port,
                ttl,
            },
        );
    }
    proof {
        let devices = device_views(out@);
        let registry = state@;
        assert(registry.dom() =~= state.devices@.dom());
        assert forall|i: int| 0 <= i < devices.len() implies {
            let cid = (#[trigger] devices[i]).cid.value;
            registry.contains_key(cid) && devices[i] == listed(cid, registry[cid], now)
        } by {
            assert(devices[i] == out@[i]@);
            assert(state.devices@.contains_key(*all[i].0));
        }
        assert forall|cid: u128| #[trigger] registry.contains_key(cid) implies exists|i: int|
            0 <= i < devices.len() && (#[trigger] devices[i]).cid.value == cid by {
            let entry = (&cid, &state.devices@[cid]);
            assert(all.contains(entry));
            let i = choose|i: int| 0 <= i < all.len() && all[i] == entry;
            assert(devices[i] == out@[i]@);
        }
        assert forall|i: int, j: int| 0 <= i < j < devices.len() implies (#[trigger] devices[i]).cid
            != (#[trigger] devices[j]).cid by {
            assert(devices[i] == out@[i]@);
            assert(devices[j] == out@[j]@);
            assert(state.devices@.contains_key(*all[i].0));
            assert(state.devices@.contains_key(*all[j].0));
            if devices[i].cid == devices[j].cid {
                assert(all[i] == all[j]);
            }
        }
    }
    ListResponse { devices: out }
}

/// Why no tokens are minted.
#[derive(Clone, Copy, Debug, PartialEq, Eq, Structural)]
pub enum MintError {
    /// The request names no device.
    NoDevices,
    /// The access-control list does not permit everything that is asked for.
    Forbidden,
    /// The expiry `now + 6000` lies beyond the range of the clock.
    ClockOutOfRange,
    /// The signer failed.
    Signing,
}

/// The claims of the token that `request` gets for `device` from the arbiter
/// `arbiter` at `now`: issued by the arbiter to the requesting controller for
/// this one device, valid for 6000 seconds, granting what was asked for.
pub open spec fn claims_for(
    request: ControlTokenRequestView,
    device: ComponentId,
    arbiter: ComponentId,
    now: u64,
) -> JwtClaimsView
    recommends
        now + TOKEN_LIFETIME_SECS <= u64::MAX,
{
    JwtClaimsView {
        iss: canonical_text(arbiter.value),
        sub: canonical_text(request.cid.value),
        aud: canonical_text(device.value),
        exp: (now + TOKEN_LIFETIME_SECS) as u64,
        params_read: request.params_read,
        params_write: request.params_write,
    }
}

/// Builds [`claims_for`].
pub fn control_token_claims(
    request: &ControlTokenRequest,
    device: ComponentId,
    arb_cid: &ComponentId,
    now: u64,
) -> (claims: JwtClaims)
    requires
        now + TOKEN_LIFETIME_SECS <= u64::MAX,
    ensures
        claims@ == claims_for(request@, device, *arb_cid, now),
{
    JwtClaims {
        iss: arb_cid.to_string(),
        sub: request.cid.to_string(),
        aud: device.to_string(),
        exp: now + TOKEN_LIFETIME_SECS,
        params_read: clone_texts(&request.params_read),
        params_write: clone_texts(&request.params_write),
    }
}

/// Why a request for tokens is refused before anything is signed, if it is:
/// it names no device, or the access-control list does not authorize all of
/// it, or the expiry cannot be represented.
pub open spec fn mint_refusal(acl: AclDatabase, request: ControlTokenRequestView, now: u64) -> Option<
    MintError,
> {
    if request.devices.len() == 0 {
        Some(MintError::NoDevices)
    } else if !acl.authorizes(
        request.cid,
        request.devices,
        request.params_read,
        request.params_write,
    ) {
        Some(MintError::Forbidden)
    } else if now + TOKEN_LIFETIME_SECS > u64::MAX {
        Some(MintError::ClockOutOfRange)
    } else {
        None
    }
}

/// A response holds a token for each of `devices` and for nothing else.
pub open spec fn tokens_cover(tokens: Map<u128, Seq<char>>, devices: Seq<ComponentId>) -> bool {
    forall|cid: u128| #[trigger]
        tokens.contains_key(cid) <==> devices.contains(ComponentId { value: cid })
}

/// Each token of a response carries the claims that the request gets for
/// the device under which the token stands, and holds exactly these: see
/// [`claims_for`], [`carries`] and [`token_claims`].
pub open spec fn tokens_carry(
    tokens: Map<u128, Seq<char>>,
    request: ControlTokenRequestView,
    arbiter: ComponentId,
    now: u64,
) -> bool {
    forall|cid: u128| #[trigger]
        tokens.contains_key(cid) ==> {
            let claims = claims_for(request, ComponentId { value: cid }, arbiter, now);
            carries(tokens[cid], claims_json(claims)) && token_claims(tokens[cid]) == Some(claims)
        }
}

/// Mints the tokens that `request` asks for, at the instant `now`.
///
/// Nothing is signed unless the request names a device and the
/// access-control list authorizes every parameter on every device named: a
/// request that is refused yields no token at all. A request that passes
/// gets one token for each device, signed with `jwt_key` and carrying
/// [`claims_for`] that device, unless the signer fails.
pub fn get_control_token_at(
    request: &ControlTokenRequest,
    acl: &AclDatabase,
    jwt_key: &jsonwebtoken::EncodingKey,
    arb_cid: &ComponentId,
    now: u64,
) -> (r: Result<ControlTokenResponse, MintError>)
    ensures
        minted(*acl, request@, *arb_cid, now, r),
{
    if request.devices.len() == 0 {
        return Err(MintError::NoDevices);
    }
    if !acl.is_authorized(request.cid, &request.devices, &request.params_read, &request.params_write) {
        return Err(MintError::Forbidden);
    }
    if now > u64::MAX - TOKEN_LIFETIME_SECS {
        return Err(MintError::ClockOutOfRange);
    }
    let mut response = ControlTokenResponse { tokens: HashMap::new() };
    let mut i: usize = 0;
    while i < request.devices.len()
        invariant
            i <= request.devices.len(),
            now + TOKEN_LIFETIME_SECS <= u64::MAX,
            mint_refusal(*acl, request@, now).is_none(),
            forall|cid: u128| #[trigger]
                response@.contains_key(cid) <==> request.devices@.subrange(0, i as int).contains(
                    ComponentId { value: cid },
                ),
            tokens_carry(response@, request@, *arb_cid, now),
        decreases request.devices.len() - i,
    {
        let device = request.devices[i];
        let claims = control_token_claims(request, device, arb_cid, now);
        let token = match sign_claims(&claims, jwt_key) {
            Ok(token) => token,
            Err(_) => { return Err(MintError::Signing); },
        };
        let ghost before = response@;
        let ghost signed = token@;
        response.tokens.insert(device.value, token);
        proof {
            assert(response@ =~= before.insert(device.value, signed));
            assert(device == ComponentId { value: device.value });
            let earlier = request.devices@.subrange(0, i as int);
            let later = request.devices@.subrange(0, i as int + 1);
            assert(later =~= earlier.push(device));
            assert forall|cid: u128| #[trigger]
                response@.contains_key(cid) <==> later.contains(ComponentId { value: cid }) by {
                let c = ComponentId { value: cid };
                if cid == device.value {
                    assert(later[i as int] == c);
                } else {
                    assert(response@.contains_key(cid) == before.contains_key(cid));
                    if earlier.contains(c) {
                        let j = choose|j: int| 0 <= j < earlier.len() && earlier[j] == c;
                        assert(later[j] == c);
                    }
                    if later.contains(c) {
                        let j = choose|j: int| 0 <= j < later.len() && later[j] == c;
                        assert(j < i);
                        assert(earlier[j] == c);
                    }
                }
            }
        }
        i += 1;
    }
    proof {
        assert(request.devices@.subrange(0, i as int) =~= request.devices@);
    }
    Ok(response)
}

impl RegisterError {
    /// The code under which the refusal is reported: 4.00 in both cases.
    pub open spec fn code(self) -> ResponseCode {
        ResponseCode::BadRequest
    }

    /// The message that reports the refusal.
    pub open spec fn message(self) -> Seq<char> {
        match self {
            RegisterError::AlreadyRegistered => "A device with this CID already exists"@,
            RegisterError::TtlOutOfRange => "The time to live is out of range"@,
        }
    }

    /// The refusal as a failure to handle the request.
    pub fn into_handling_error(self) -> (e: HandlingError)
        ensures
            e.code == self.code(),
            e.message@ == self.message(),
    {
        match self {
            RegisterError::AlreadyRegistered => HandlingError::bad_request(
                "A device with this CID already exists",
            ),
            RegisterError::TtlOutOfRange => HandlingError::bad_request(
                "The time to live is out of range",
            ),
        }
    }
}

impl MintError {
    /// The code under which the failure is reported: 4.00 for a request
    /// without devices, 4.03 for one that the access-control list refuses,
    /// 5.00 for what went wrong inside the arbiter.
    pub open spec fn code(self) -> ResponseCode {
        match self {
            MintError::NoDevices => ResponseCode::BadRequest,
            MintError::Forbidden => ResponseCode::Forbidden,
            MintError::ClockOutOfRange => ResponseCode::InternalServerError,
            MintError::Signing => ResponseCode::InternalServerError,
        }
    }

    /// The message that reports the failure.
    pub open spec fn message(self) -> Seq<char> {
        match self {
            MintError::NoDevices => "No devices requested"@,
            MintError::Forbidden => "Not authorized for the requested parameters"@,
            MintError::ClockOutOfRange => "Could not issue the tokens"@,
            MintError::Signing => "Could not issue the tokens"@,
        }
    }

    /// The failure as a failure to handle the request.
    pub fn into_handling_error(self) -> (e: HandlingError)
        ensures
            e.code == self.code(),
            e.message@ == self.message(),
    {
        match self {
            MintError::NoDevices => HandlingError::bad_request("No devices requested"),
            MintError::Forbidden => HandlingError::forbidden(
                "Not authorized for the requested parameters",
            ),
            MintError::ClockOutOfRange => HandlingError::internal("Could not issue the tokens"),
            MintError::Signing => HandlingError::internal("Could not issue the tokens"),
        }
    }
}

/// Whether `response` reports the failure `code` with `message`.
pub open spec fn is_error(response: Response, code: ResponseCode, message: Seq<char>) -> bool {
    response matches Response::Error(e) && e.code == code && e.message@ == message
}

/// Whether `response` is what the state of the arbiter `arbiter` answers to
/// `request` at `now`, and `after` the registry that it leaves, when the
/// registry was `before`.
///
/// A registration leaves the registry that [`register_effect`] gives and is
/// answered with success, or with the refusal as 4.00. Nothing else changes
/// the registry. A listing is answered with a list
/// that [`lists`] the registry. A request for tokens that [`mint_refusal`]
/// refuses is answered with the refusal; one that passes is answered with a
/// token for each device, which carries the claims for that device, or with
/// 5.00 where the signer failed.
pub open spec fn answers(
    before: Map<u128, DeviceView>,
    acl: AclDatabase,
    arbiter: ComponentId,
    request: RequestTypeView,
    now: u64,
    after: Map<u128, DeviceView>,
    response: Response,
) -> bool {
    match request {
        RequestTypeView::Register(device) => {
            &&& after == register_effect(before, device, now)
            &&& match register_outcome(before, device, now) {
                Ok(()) => response is Done,
                Err(e) => is_error(response, e.code(), e.message()),
            }
        },
        RequestTypeView::List => {
            &&& after == before
            &&& response matches Response::ListResponse(list)
            &&& lists(device_views(list.devices@), before, now)
        },
        RequestTypeView::ControlToken(request) => {
            &&& after == before
            &&& match mint_refusal(acl, request, now) {
                Some(e) => is_error(response, e.code(), e.message()),
                None => {
                    ||| response matches Response::ControlTokenResponse(tokens) && tokens_cover(
                        tokens@,
                        request.devices,
                    ) && tokens_carry(tokens@, request, arbiter, now)
                    ||| is_error(response, MintError::Signing.code(), MintError::Signing.message())
                },
            }
        },
        RequestTypeView::Shutdown => response is Done && after == before,
    }
}

/// Answers one request at the instant `now`; see [`answers`].
pub fn process_at(
    state: &mut State,
    acl: &AclDatabase,
    jwt_key: &jsonwebtoken::EncodingKey,
    my_cid: &ComponentId,
    request: &RequestType,
    now: u64,
) -> (response: Response)
    ensures
        answers(old(state)@, *acl, *my_cid, request@, now, final(state)@, response),
{
    match request {
        RequestType::Register(device) => match register_device_at(state, device, now) {
            Ok(()) => Response::Done,
            Err(e) => Response::Error(e.into_handling_error()),
        },
        RequestType::List => Response::ListResponse(list_devices_at(state, now)),
        RequestType::ControlToken(request) => match get_control_token_at(
            request,
            acl,
            jwt_key,
            my_cid,
            now,
        ) {
            Ok(tokens) => Response::ControlTokenResponse(tokens),
            Err(e) => Response::Error(e.into_handling_error()),
        },
        RequestType::Shutdown => Response::Done,
    }
}

/// Answers one request at the present instant: as [`answers`] says for the
/// instant that the clock shows. A request to stop is answered without a
/// look at the clock.
pub fn process(
    state: &mut State,
    acl: &AclDatabase,
    jwt_key: &jsonwebtoken::EncodingKey,
    my_cid: &ComponentId,
    request: &RequestType,
) -> (response: Response)
    ensures
        exists|now: u64| #[trigger]
            answers(old(state)@, *acl, *my_cid, request@, now, final(state)@, response),
{
    match request {
        RequestType::Shutdown => {
            assert(answers(old(state)@, *acl, *my_cid, request@, 0, state@, Response::Done));
            Response::Done
        },
        _ => {
            let now = unix_time();
            let response = process_at(state, acl, jwt_key, my_cid, request, now);
            assert(answers(old(state)@, *acl, *my_cid, request@, now, state@, response));
            response
        },
    }
}

/// Registers `device` at the present instant: with the outcome and the
/// effect that [`register_device_at`] has for the instant that the clock
/// shows. A new identifier is refused only where that instant and the time
/// to live lead beyond the range of the clock; a registered one is refused
/// always; a refusal changes nothing.
pub fn register_device(state: &mut State, device: &ApiDevice) -> (r: Result<(), RegisterError>)
    ensures
        exists|now: u64|
            r == #[trigger] register_outcome(old(state)@, device@, now) && final(state)@
                == register_effect(old(state)@, device@, now),
{
    let now = unix_time();
    let r = register_device_at(state, device, now);
    assert(r == register_outcome(old(state)@, device@, now) && state@ == register_effect(
        old(state)@,
        device@,
        now,
    ));
    r
}

/// Lists the registry at the present instant: every registered device
/// once, as [`list_devices_at`] lists it for the instant that the clock
/// shows.
pub fn list_devices(state: &State) -> (list: ListResponse)
    ensures
        exists|now: u64| #[trigger] lists(device_views(list.devices@), state@, now),
{
    let now = unix_time();
    let list = list_devices_at(state, now);
    assert(lists(device_views(list.devices@), state@, now));
    list
}

/// What minting for `request` by the arbiter `arbiter` at `now` may give:
/// the refusal that [`mint_refusal`] names, or else a token for each device,
/// which carries the claims for that device, unless the signer fails.
pub open spec fn minted(
    acl: AclDatabase,
    request: ControlTokenRequestView,
    arbiter: ComponentId,
    now: u64,
    r: Result<ControlTokenResponse, MintError>,
) -> bool {
    match mint_refusal(acl, request, now) {
        Some(e) => r == Err::<ControlTokenResponse, MintError>(e),
        None => match r {
            Ok(response) => {
                &&& tokens_cover(response@, request.devices)
                &&& tokens_carry(response@, request, arbiter, now)
            },
            Err(e) => e == MintError::Signing,
        },
    }
}

/// Mints tokens at the present instant: what [`get_control_token_at`]
/// gives for the instant that the clock shows. A request without devices
/// and one that the access-control list does not authorize get no token,
/// whatever the instant; every other request gets a token for each device,
/// unless the expiry leaves the range of the clock or the signer fails.
pub fn get_control_token(
    request: &ControlTokenRequest,
    acl: &AclDatabase,
    jwt_key: &jsonwebtoken::EncodingKey,
    arb_cid: &ComponentId,
) -> (r: Result<ControlTokenResponse, MintError>)
    ensures
        exists|now: u64| #[trigger] minted(*acl, request@, *arb_cid, now, r),
{
    let now = unix_time();
    let r = get_control_token_at(request, acl, jwt_key, arb_cid, now);
    assert(minted(*acl, request@, *arb_cid, now, r));
    r
}

/// A device that is listed at or after the instant of its registration is
/// listed with its own description and with a time to live that does not
/// exceed the one it submitted; and while that time to live is positive,
/// the deadline of the registration has not passed.
pub proof fn listing_after_registration(
    before: Map<u128, DeviceView>,
    device: ApiDeviceView,
    registered_at: u64,
    devices: Seq<ApiDeviceView>,
    now: u64,
)
    requires
        register_outcome(before, device, registered_at) is Ok,
        lists(devices, register_effect(before, device, registered_at), now),
        registered_at <= now,
    ensures
        exists|i: int|
            0 <= i < devices.len() && {
                let entry = #[trigger] devices[i];
                &&& entry.cid == device.cid
                &&& entry.label == device.label
                &&& entry.manufacturer == device.manufacturer
                &&& entry.model == device.model
                &&& entry.port == device.port
                &&& entry.ttl <= device.ttl
                &&& entry.ttl > 0 ==> now < registered_at + device.ttl
            },
{
    let after = register_effect(before, device, registered_at);
    assert(after.contains_key(device.cid.value));
    let i = choose|i: int| 0 <= i < devices.len() && (#[trigger] devices[i]).cid.value == device.cid.value;
    assert(devices[i] == listed(device.cid.value, after[device.cid.value], now));
}

/// A second registration under an identifier is refused, whatever it
/// describes and whenever it comes, and the record of the first stays as it
/// was made.
pub proof fn second_registration_is_refused(
    before: Map<u128, DeviceView>,
    first: ApiDeviceView,
    first_at: u64,
    second: ApiDeviceView,
    second_at: u64,
)
    requires
        register_outcome(before, first, first_at) is Ok,
        second.cid == first.cid,
    ensures
        ({
            let between = register_effect(before, first, first_at);
            &&& register_outcome(between, second, second_at) == Err::<(), RegisterError>(
                RegisterError::AlreadyRegistered,
            )
            &&& register_effect(between, second, second_at) == between
            &&& between[first.cid.value] == record_of(first, first_at)
        }),
{
}

/// A registration with a time to live of zero makes a record that is listed
/// as expired from the instant of the registration on.
pub proof fn zero_ttl_is_listed_as_expired(device: ApiDeviceView, registered_at: u64, now: u64)
    requires
        device.ttl == 0,
        registered_at <= now,
    ensures
        listed(device.cid.value, record_of(device, registered_at), now).ttl == 0,
{
}

/// Denial is atomic: where the access-control list does not permit one
/// parameter in one direction on one of the devices asked for, the whole
/// request is refused and no token is minted, for that device or any other.
pub proof fn denial_is_atomic(
    acl: AclDatabase,
    request: ControlTokenRequestView,
    now: u64,
    device: int,
    parameter: int,
    access: Access,
)
    requires
        0 <= device < request.devices.len(),
        access == Access::Read ==> 0 <= parameter < request.params_read.len() && !acl.permits(
            request.cid,
            request.devices[device],
            request.params_read[parameter],
            Access::Read,
        ),
        access == Access::Write ==> 0 <= parameter < request.params_write.len() && !acl.permits(
            request.cid,
            request.devices[device],
            request.params_write[parameter],
            Access::Write,
        ),
    ensures
        mint_refusal(acl, request, now) == Some(MintError::Forbidden),
        MintError::Forbidden.code() == ResponseCode::Forbidden,
{
}

/// A request for tokens that names no device is refused with 4.00.
pub proof fn request_without_devices_is_bad(
    acl: AclDatabase,
    request: ControlTokenRequestView,
    now: u64,
)
    requires
        request.devices.len() == 0,
    ensures
        mint_refusal(acl, request, now) == Some(MintError::NoDevices),
        MintError::NoDevices.code() == ResponseCode::BadRequest,
{
}

/// The claims of every token minted for a request name the arbiter as the
/// issuer, the requesting controller as the subject and one of the devices
/// asked for as the audience, expire 6000 seconds after the minting, and
/// grant exactly what was asked for.
pub proof fn minted_claims_are_bound(
    request: ControlTokenRequestView,
    device: int,
    arbiter: ComponentId,
    now: u64,
)
    requires
        0 <= device < request.devices.len(),
        now + TOKEN_LIFETIME_SECS <= u64::MAX,
    ensures
        ({
            let claims = claims_for(request, request.devices[device], arbiter, now);
            &&& claims.iss == canonical_text(arbiter.value)
            &&& claims.sub == canonical_text(request.cid.value)
            &&& exists|k: int|
                0 <= k < request.devices.len() && claims.aud == canonical_text(
                    (#[trigger] request.devices[k]).value,
                )
            &&& claims.exp == now + 6000
            &&& claims.params_read == request.params_read
            &&& claims.params_write == request.params_write
        }),
{
    let claims = claims_for(request, request.devices[device], arbiter, now);
    assert(claims.aud == canonical_text(request.devices[device].value));
}

/// A registration under a new identifier, whose deadline the clock can
/// hold, is answered with 2.04 and an empty payload, and the registry has
/// the record from then on. One under an identifier that is registered
/// already is answered with 4.00 and the message that a device with this
/// CID already exists, whatever it describes, and changes nothing.
pub proof fn registration_is_answered(
    before: Map<u128, DeviceView>,
    acl: AclDatabase,
    arbiter: ComponentId,
    device: ApiDeviceView,
    now: u64,
    after: Map<u128, DeviceView>,
    response: Response,
)
    requires
        answers(before, acl, arbiter, RequestTypeView::Register(device), now, after, response),
    ensures
        !before.contains_key(device.cid.value) && now + device.ttl <= u64::MAX ==> response.reply()
            == (ResponseCode::Changed, Seq::<u8>::empty()) && after == before.insert(
            device.cid.value,
            record_of(device, now),
        ),
        before.contains_key(device.cid.value) ==> response.reply() == (
            ResponseCode::BadRequest,
            vstd::utf8::encode_utf8("A device with this CID already exists"@),
        ) && after == before,
{
}

/// A request for tokens that is refused is answered with the code of the
/// refusal and carries no document: 4.00 where it names no device, 4.03
/// where the access-control list does not authorize all of it.
pub proof fn refused_mint_is_answered(
    before: Map<u128, DeviceView>,
    acl: AclDatabase,
    arbiter: ComponentId,
    request: ControlTokenRequestView,
    now: u64,
    after: Map<u128, DeviceView>,
    response: Response,
)
    requires
        answers(before, acl, arbiter, RequestTypeView::ControlToken(request), now, after, response),
        mint_refusal(acl, request, now) matches Some(refusal),
    ensures
        response.json().is_none(),
        response.reply() == (
            mint_refusal(acl, request, now)->Some_0.code(),
            vstd::utf8::encode_utf8(mint_refusal(acl, request, now)->Some_0.message()),
        ),
        request.devices.len() == 0 ==> response.reply().0 == ResponseCode::BadRequest,
        request.devices.len() > 0 && !acl.authorizes(
            request.cid,
            request.devices,
            request.params_read,
            request.params_write,
        ) ==> response.reply().0 == ResponseCode::Forbidden,
{
}

/// A listing is answered with 2.05 and the printed list of the registry.
pub proof fn listing_is_answered(
    before: Map<u128, DeviceView>,
    acl: AclDatabase,
    arbiter: ComponentId,
    now: u64,
    after: Map<u128, DeviceView>,
    response: Response,
)
    requires
        answers(before, acl, arbiter, RequestTypeView::List, now, after, response),
    ensures
        response matches Response::ListResponse(list) && lists(
            device_views(list.devices@),
            before,
            now,
        ) && response.reply() == (
            ResponseCode::Content,
            crate::json::json_print(
                crate::arbiter::request::device_list_json(device_views(list.devices@)),
            ),
        ),
        after == before,
{
}

} // verus!
