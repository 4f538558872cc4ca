//! The requests that the arbiter serves and the responses it gives, with
//! their JSON wire forms.
use vstd::prelude::*;
use std::collections::HashMap;
use vstd::std_specs::iter::IteratorSpec;
use crate::cid::{all_cids, canonical_text, cid_texts, cids_to_texts, parse_cids, ComponentId};
use crate::coap::{HandlingError, Reply, ResponseCode};
use crate::json::{
    all_texts_of_text_array, empty_object, from_items, from_number, from_text, get_number,
    get_text, get_texts, items, json_model, json_models, json_print, member, number_member, print, text_array,
    text_member, texts_member, texts_to_json, with_member, Json,
};
use crate::text::texts;

verus! {

broadcast use vstd::std_specs::hash::group_hash_axioms;

/// A device as the arbiter lists it, and as a registration describes it.
#[derive(Debug)]
pub struct ApiDevice {
    pub cid: ComponentId,
    pub label: String,
    pub manufacturer: String,
    pub model: String,
    pub port: u16,
    pub ttl: u64,
}

/// The mathematical value of an [`ApiDevice`].
pub struct ApiDeviceView {
    pub cid: ComponentId,
    pub label: Seq<char>,
    pub manufacturer: Seq<char>,
    pub model: Seq<char>,
    pub port: u16,
    pub ttl: u64,
}

impl View for ApiDevice {
    type V = ApiDeviceView;

    open spec fn view(&self) -> ApiDeviceView {
        ApiDeviceView {
            cid: self.cid,
            label: self.label@,
            manufacturer: self.manufacturer@,
            model: self.model@,
            port: self.port,
            ttl: self.ttl,
        }
    }
}

/// The wire form of a device: an object with the members `cid` (canonical
/// text), `label`, `manufacturer`, `model`, `port` and `ttl`.
pub open spec fn device_json(d: ApiDeviceView) -> Json {
    Json::Object(
        Map::empty().insert("cid"@, Json::Text(canonical_text(d.cid.value))).insert(
            "label"@,
            Json::Text(d.label),
        ).insert("manufacturer"@, Json::Text(d.manufacturer)).insert(
            "model"@,
            Json::Text(d.model),
        ).insert("port"@, Json::unsigned(d.port as u64)).insert(
            "ttl"@,
            Json::unsigned(d.ttl),
        ),
    )
}

/// The device that a document describes: every member must be present and of
/// its type, the identifier must parse and the port must fit 16 bits. Members
/// beyond the six are ignored.
pub open spec fn device_of_json(doc: Json) -> Option<ApiDeviceView> {
    match (
        text_member(doc, "cid"@),
        text_member(doc, "label"@),
        text_member(doc, "manufacturer"@),
        text_member(doc, "model"@),
        number_member(doc, "port"@),
        number_member(doc, "ttl"@),
    ) {
        (Some(cid), Some(label), Some(manufacturer), Some(model), Some(port), Some(ttl)) => {
            match ComponentId::parsed(cid) {
                Some(cid) => if port <= u16::MAX {
                    Some(ApiDeviceView { cid, label, manufacturer, model, port: port as u16, ttl })
                } else {
                    None
                },
                None => None,
            }
        },
        _ => None,
    }
}

/// The member names of a device are pairwise different.
proof fn device_keys_differ()
    ensures
        "cid"@ != "label"@,
        "cid"@ != "manufacturer"@,
        "cid"@ != "model"@,
        "cid"@ != "port"@,
        "cid"@ != "ttl"@,
        "label"@ != "manufacturer"@,
        "label"@ != "model"@,
        "label"@ != "port"@,
        "label"@ != "ttl"@,
        "manufacturer"@ != "model"@,
        "manufacturer"@ != "port"@,
        "manufacturer"@ != "ttl"@,
        "model"@ != "port"@,
        "model"@ != "ttl"@,
        "port"@ != "ttl"@,
{
    reveal_strlit("cid");
    reveal_strlit("label");
    reveal_strlit("manufacturer");
    reveal_strlit("model");
    reveal_strlit("port");
    reveal_strlit("ttl");
    assert("cid"@.len() == 3 && "ttl"@.len() == 3 && "port"@.len() == 4);
    assert("label"@.len() == 5 && "model"@.len() == 5 && "manufacturer"@.len() == 12);
    assert("cid"@[0] != "ttl"@[0]);
    assert("label"@[0] != "model"@[0]);
}

/// A device whose identifier reads back from its canonical text reads back
/// from its wire form.
proof fn device_json_reads_back(d: ApiDeviceView)
    requires
        ComponentId::parsed(canonical_text(d.cid.value)) == Some(d.cid),
    ensures
        device_of_json(device_json(d)) == Some(d),
{
    device_keys_differ();
}

impl ApiDevice {
    /// The wire form of the device. Reading it back gives the same device.
    pub fn to_json(&self) -> (doc: serde_json::Value)
        ensures
            json_model(doc) == device_json(self@),
            device_of_json(json_model(doc)) == Some(self@),
    {
        let cid = self.cid.to_string();
        let doc = empty_object();
        let doc = with_member(doc, "cid", from_text(cid.as_str()));
        let doc = with_member(doc, "label", from_text(self.label.as_str()));
        let doc = with_member(doc, "manufacturer", from_text(self.manufacturer.as_str()));
        let doc = with_member(doc, "model", from_text(self.model.as_str()));
        let doc = with_member(doc, "port", from_number(self.port as u64));
        let doc = with_member(doc, "ttl", from_number(self.ttl));
        proof {
            device_json_reads_back(self@);
        }
        doc
    }

    /// Reads a device from its wire form.
    pub fn from_json(doc: &serde_json::Value) -> (r: Option<ApiDevice>)
        ensures
            match r {
                Some(d) => device_of_json(json_model(*doc)) == Some(d@),
                None => device_of_json(json_model(*doc)).is_none(),
            },
    {
        let cid = get_text(doc, "cid");
        let label = get_text(doc, "label");
        let manufacturer = get_text(doc, "manufacturer");
        let model = get_text(doc, "model");
        let port = get_number(doc, "port");
        let ttl = get_number(doc, "ttl");
        match (cid, label, manufacturer, model, port, ttl) {
            (Some(cid), Some(label), Some(manufacturer), Some(model), Some(port), Some(ttl)) => {
                match ComponentId::parse(cid.as_str()) {
                    Some(cid) => if port <= u16::MAX as u64 {
                        Some(ApiDevice { cid, label, manufacturer, model, port: port as u16, ttl })
                    } else {
                        None
                    },
                    None => None,
                }
            },
            _ => None,
        }
    }
}

/// The answer to a request for the list of devices.
#[derive(Debug)]
pub struct ListResponse {
    pub devices: Vec<ApiDevice>,
}

/// The views of a sequence of devices.
pub open spec fn device_views(devices: Seq<ApiDevice>) -> Seq<ApiDeviceView> {
    devices.map_values(|d: ApiDevice| d@)
}

/// The wire form of a list of devices: the array of their wire forms.
pub open spec fn device_list_json(devices: Seq<ApiDeviceView>) -> Json {
    Json::Array(devices.map_values(|d: ApiDeviceView| device_json(d)))
}

/// The devices that an array describes, if it describes one with each of its
/// elements.
pub open spec fn device_list_of_json(doc: Json) -> Option<Seq<ApiDeviceView>> {
    match doc {
        Json::Array(elements) => if forall|i: int|
            0 <= i < elements.len() ==> device_of_json(#[trigger] elements[i]) is Some {
            Some(elements.map_values(|e: Json| device_of_json(e)->Some_0))
        } else {
            None
        },
        _ => None,
    }
}

impl ListResponse {
    /// The wire form of the list. Reading it back gives the same devices in
    /// the same order.
    pub fn to_json(&self) -> (doc: serde_json::Value)
        ensures
            json_model(doc) == device_list_json(device_views(self.devices@)),
            device_list_of_json(json_model(doc)) == Some(device_views(self.devices@)),
    {
        let mut values: Vec<serde_json::Value> = Vec::new();
        let mut i: usize = 0;
        while i < self.devices.len()
            invariant
                i <= self.devices.len(),
                values@.len() == i,
                forall|j: int|
                    0 <= j < i ==> json_model(#[trigger] values@[j]) == device_json(
                        self.devices@[j]@,
                    ),
                forall|j: int|
                    0 <= j < i ==> device_of_json(json_model(#[trigger] values@[j])) == Some(
                        self.devices@[j]@,
                    ),
            decreases self.devices.len() - i,
        {
            values.push(self.devices[i].to_json());
            i += 1;
        }
        proof {
            let views = device_views(self.devices@);
            let elements = json_models(values@);
            assert(elements =~= device_list_json(views)->Array_0);
            assert forall|j: int| 0 <= j < elements.len() implies device_of_json(
                #[trigger] elements[j],
            ) is Some by {
                assert(elements[j] == json_model(values@[j]));
            }
            assert(elements.map_values(|e: Json| device_of_json(e)->Some_0) =~= views) by {
                assert forall|j: int| 0 <= j < elements.len() implies device_of_json(
                    #[trigger] elements[j],
                )->Some_0 == views[j] by {
                    assert(elements[j] == json_model(values@[j]));
                }
            }
        }
        from_items(values)
    }

    /// Reads a list of devices from its wire form.
    pub fn from_json(doc: &serde_json::Value) -> (r: Option<ListResponse>)
        ensures
            match r {
                Some(list) => device_list_of_json(json_model(*doc)) == Some(
                    device_views(list.devices@),
                ),
                None => device_list_of_json(json_model(*doc)).is_none(),
            },
    {
        let values = match items(doc) {
            Some(values) => values,
            None => { return None; },
        };
        let ghost elements = json_models(values@);
        let mut devices: Vec<ApiDevice> = Vec::new();
        let mut i: usize = 0;
        while i < values.len()
            invariant
                i <= values.len(),
                elements == json_models(values@),
                json_model(*doc) == Json::Array(elements),
                devices@.len() == i,
                forall|j: int|
                    0 <= j < i ==> device_of_json(#[trigger] elements[j]) == Some(devices@[j]@),
            decreases values.len() - i,
        {
            match ApiDevice::from_json(&values[i]) {
                Some(d) => {
                    assert(elements[i as int] == json_model(values@[i as int]));
                    devices.push(d);
                },
                None => {
                    assert(elements[i as int] == json_model(values@[i as int]));
                    return None;
                },
            }
            i += 1;
        }
        proof {
            assert(elements.map_values(|e: Json| device_of_json(e)->Some_0) =~= device_views(
                devices@,
            ));
        }
        Some(ListResponse { devices })
    }
}

/// A controller's request for control tokens.
#[derive(Debug)]
pub struct ControlTokenRequest {
    /// The controller that asks.
    pub cid: ComponentId,
    /// The devices for which it asks, one token each.
    pub devices: Vec<ComponentId>,
    /// The parameters that it wants to read.
    pub params_read: Vec<String>,
    /// The parameters that it wants to write.
    pub params_write: Vec<String>,
}

/// The mathematical value of a [`ControlTokenRequest`].
pub struct ControlTokenRequestView {
    pub cid: ComponentId,
    pub devices: Seq<ComponentId>,
    pub params_read: Seq<Seq<char>>,
    pub params_write: Seq<Seq<char>>,
}

impl View for ControlTokenRequest {
    type V = ControlTokenRequestView;

    open spec fn view(&self) -> ControlTokenRequestView {
        ControlTokenRequestView {
            cid: self.cid,
            devices: self.devices@,
            params_read: texts(self.params_read@),
            params_write: texts(self.params_write@),
        }
    }
}

/// The request that a document holds: the members `cid`, `devices`,
/// `paramsRead` and `paramsWrite` must be present and of their types, and
/// every identifier must parse. Members beyond the four are ignored.
pub open spec fn token_request_of_json(doc: Json) -> Option<ControlTokenRequestView> {
    match (
        text_member(doc, "cid"@),
        texts_member(doc, "devices"@),
        texts_member(doc, "paramsRead"@),
        texts_member(doc, "paramsWrite"@),
    ) {
        (Some(cid), Some(devices), Some(params_read), Some(params_write)) => match (
            ComponentId::parsed(cid),
            all_cids(devices),
        ) {
            (Some(cid), Some(devices)) => Some(
                ControlTokenRequestView { cid, devices, params_read, params_write },
            ),
            _ => None,
        },
        _ => None,
    }
}

impl ControlTokenRequest {
    /// Reads a request for control tokens from its wire form.
    pub fn from_json(doc: &serde_json::Value) -> (r: Option<ControlTokenRequest>)
        ensures
            match r {
                Some(request) => token_request_of_json(json_model(*doc)) == Some(request@),
                None => token_request_of_json(json_model(*doc)).is_none(),
            },
    {
        let cid = get_text(doc, "cid");
        let devices = get_texts(doc, "devices");
        let params_read = get_texts(doc, "paramsRead");
        let params_write = get_texts(doc, "paramsWrite");
        match (cid, devices, params_read, params_write) {
            (Some(cid), Some(devices), Some(params_read), Some(params_write)) => {
                match (ComponentId::parse(cid.as_str()), parse_cids(&devices)) {
                    (Some(cid), Some(devices)) => Some(
                        ControlTokenRequest { cid, devices, params_read, params_write },
                    ),
                    _ => None,
                }
            },
            _ => None,
        }
    }
}

/// The wire form of a request for tokens: an object with the members `cid`,
/// `devices`, `paramsRead` and `paramsWrite`.
pub open spec fn token_request_json(request: ControlTokenRequestView) -> Json {
    Json::Object(
        Map::empty().insert("cid"@, Json::Text(canonical_text(request.cid.value))).insert(
            "devices"@,
            text_array(cid_texts(request.devices)),
        ).insert("paramsRead"@, text_array(request.params_read)).insert(
            "paramsWrite"@,
            text_array(request.params_write),
        ),
    )
}

/// The member names of a request for tokens are pairwise different.
proof fn token_request_keys_differ()
    ensures
        "cid"@ != "devices"@,
        "cid"@ != "paramsRead"@,
        "cid"@ != "paramsWrite"@,
        "devices"@ != "paramsRead"@,
        "devices"@ != "paramsWrite"@,
        "paramsRead"@ != "paramsWrite"@,
{
    reveal_strlit("cid");
    reveal_strlit("devices");
    reveal_strlit("paramsRead");
    reveal_strlit("paramsWrite");
    assert("cid"@.len() == 3 && "devices"@.len() == 7);
    assert("paramsRead"@.len() == 10 && "paramsWrite"@.len() == 11);
}

impl ControlTokenRequest {
    /// The wire form of the request. Reading it back gives the same request.
    pub fn to_json(&self) -> (doc: serde_json::Value)
        ensures
            json_model(doc) == token_request_json(self@),
            token_request_of_json(json_model(doc)) == Some(self@),
    {
        let cid = self.cid.to_string();
        let devices = cids_to_texts(&self.devices);
        let doc = empty_object();
        let doc = with_member(doc, "cid", from_text(cid.as_str()));
        let doc = with_member(doc, "devices", texts_to_json(&devices));
        let doc = with_member(doc, "paramsRead", texts_to_json(&self.params_read));
        let doc = with_member(doc, "paramsWrite", texts_to_json(&self.params_write));
        proof {
            token_request_keys_differ();
            all_texts_of_text_array(cid_texts(self.devices@));
            all_texts_of_text_array(self@.params_read);
            all_texts_of_text_array(self@.params_write);
        }
        doc
    }
}

/// The tokens minted for a request: one for each device, under the device's
/// identifier.
#[derive(Debug)]
pub struct ControlTokenResponse {
    pub tokens: HashMap<u128, String>,
}

impl View for ControlTokenResponse {
    type V = Map<u128, Seq<char>>;

    open spec fn view(&self) -> Map<u128, Seq<char>> {
        Map::new(|cid: u128| self.tokens@.contains_key(cid), |cid: u128| self.tokens@[cid]@)
    }
}

/// The members of the `tokens` object: each token under the canonical text
/// of its device, and nothing else.
pub open spec fn token_members(tokens: Map<u128, Seq<char>>) -> Map<Seq<char>, Json> {
    Map::new(
        |name: Seq<char>|
            exists|cid: u128| #[trigger] tokens.contains_key(cid) && name == canonical_text(cid),
        |name: Seq<char>|
            Json::Text(
                tokens[choose|cid: u128| #[trigger]
                    tokens.contains_key(cid) && name == canonical_text(cid)],
            ),
    )
}

/// The wire form of a token response: an object whose one member `tokens`
/// is an object that holds each token under the text of its device.
pub open spec fn token_response_json(tokens: Map<u128, Seq<char>>) -> Json {
    Json::Object(Map::empty().insert("tokens"@, Json::Object(token_members(tokens))))
}

/// The token that a token response holds for `device`: the string stored
/// under the canonical text of the device in the member `tokens`.
pub open spec fn token_in_json(doc: Json, device: ComponentId) -> Option<Seq<char>> {
    match doc.member("tokens"@) {
        Some(tokens) => text_member(tokens, canonical_text(device.value)),
        None => None,
    }
}

/// Reads from a token response the token for `device`.
pub fn token_for(doc: &serde_json::Value, device: ComponentId) -> (token: Option<String>)
    ensures
        crate::json::text_of(token) == token_in_json(json_model(*doc), device),
{
    let name = device.to_string();
    match member(doc, "tokens") {
        Some(tokens) => get_text(tokens, name.as_str()),
        None => None,
    }
}

impl ControlTokenResponse {
    /// The wire form of the response. The token of each device is found in
    /// it under the device.
    pub fn to_json(&self) -> (doc: serde_json::Value)
        ensures
            json_model(doc) == token_response_json(self@),
            forall|cid: u128| #[trigger]
                self@.contains_key(cid) ==> token_in_json(
                    json_model(doc),
                    ComponentId { value: cid },
                ) == Some(self@[cid]),
    {
        let mut object = empty_object();
        let entries = self.tokens.iter();
        let ghost all = entries.remaining();
        for entry in it: entries
            invariant
                it.seq() == all,
                all.no_duplicates(),
                forall|j: int|
                    0 <= j < all.len() ==> self.tokens@.contains_key(*(#[trigger] all[j]).0)
                        && self.tokens@[*all[j].0] == *all[j].1,
                json_model(object) is Object,
                forall|j: int|
                    0 <= j < it.index() ==> ComponentId::parsed(
                        canonical_text(*(#[trigger] all[j]).0),
                    ) == Some(ComponentId { value: *all[j].0 }),
                forall|j: int|
                    0 <= j < it.index() ==> {
                        let name = canonical_text(*(#[trigger] all[j]).0);
                        json_model(object)->Object_0.contains_key(name) && json_model(
                            object,
                        )->Object_0[name] == Json::Text((*all[j].1)@)
                    },
                forall|name: Seq<char>| #[trigger]
                    json_model(object)->Object_0.contains_key(name) ==> exists|j: int|
                        0 <= j < it.index() && name == canonical_text(*(#[trigger] all[j]).0),
        {
            let (cid, token) = entry;
            let ghost before = json_model(object)->Object_0;
            let ghost index = it.index();
            let name = (ComponentId { value: *cid }).to_string();
            object = with_member(object, name.as_str(), from_text(token.as_str()));
            proof {
                let after = json_model(object)->Object_0;
                assert(after == before.insert(name@, Json::Text(token@)));
                assert forall|j: int| 0 <= j < index + 1 implies {
                    let earlier = canonical_text(*(#[trigger] all[j]).0);
                    after.contains_key(earlier) && after[earlier] == Json::Text((*all[j].1)@)
                } by {
                    if j < index {
                        let earlier = canonical_text(*all[j].0);
                        if earlier == name@ {
                            assert(*all[j].0 == *cid);
                            assert(self.tokens@.contains_key(*all[j].0));
                            assert(self.tokens@.contains_key(*all[index].0));
                            assert(all[j] == all[index]);
                        }
                    }
                }
                assert forall|other: Seq<char>| #[trigger] after.contains_key(other) implies exists|
                    j: int,
                |
                    0 <= j < index + 1 && other == canonical_text(*(#[trigger] all[j]).0) by {
                    if other == name@ {
                        assert(other == canonical_text(*all[index].0));
                    } else {
                        assert(before.contains_key(other));
                        let j = choose|j: int|
                            0 <= j < index && other == canonical_text(*(#[trigger] all[j]).0);
                        assert(0 <= j < index + 1 && other == canonical_text(*all[j].0));
                    }
                }
            }
        }
        proof {
            let members = json_model(object)->Object_0;
            let tokens = self@;
            assert forall|j: int| 0 <= j < all.len() implies tokens.contains_key(
                *(#[trigger] all[j]).0,
            ) && tokens[*all[j].0] == (*all[j].1)@ by {
                assert(self.tokens@.contains_key(*all[j].0));
            }
            assert forall|cid: u128| #[trigger] tokens.contains_key(cid) implies exists|j: int|
                0 <= j < all.len() && *(#[trigger] all[j]).0 == cid by {
                let entry = (&cid, &self.tokens@[cid]);
                assert(all.contains(entry));
                let j = choose|j: int| 0 <= j < all.len() && all[j] == entry;
                assert(*all[j].0 == cid);
            }
            assert forall|name: Seq<char>| members.contains_key(name) <==> token_members(
                tokens,
            ).contains_key(name) by {
                if members.contains_key(name) {
                    let j = choose|j: int|
                        0 <= j < all.len() && name == canonical_text(*(#[trigger] all[j]).0);
                    assert(tokens.contains_key(*all[j].0));
                }
                if token_members(tokens).contains_key(name) {
                    let cid = choose|cid: u128| #[trigger]
                        tokens.contains_key(cid) && name == canonical_text(cid);
                    let j = choose|j: int| 0 <= j < all.len() && *(#[trigger] all[j]).0 == cid;
                    assert(members.contains_key(canonical_text(*all[j].0)));
                }
            }
            assert forall|name: Seq<char>| #[trigger] members.contains_key(name) implies members[name]
                == token_members(tokens)[name] by {
                let j = choose|j: int|
                    0 <= j < all.len() && name == canonical_text(*(#[trigger] all[j]).0);
                assert(tokens.contains_key(*all[j].0));
                let cid = choose|cid: u128| #[trigger]
                    tokens.contains_key(cid) && name == canonical_text(cid);
                let i = choose|i: int| 0 <= i < all.len() && *(#[trigger] all[i]).0 == cid;
                assert(ComponentId::parsed(canonical_text(*all[i].0)) == Some(
                    ComponentId { value: *all[i].0 },
                ));
                assert(ComponentId::parsed(canonical_text(*all[j].0)) == Some(
                    ComponentId { value: *all[j].0 },
                ));
                assert(cid == *all[j].0);
            }
            assert(members =~= token_members(tokens));
            assert forall|cid: u128| #[trigger] tokens.contains_key(cid) implies members.contains_key(
                canonical_text(cid),
            ) && members[canonical_text(cid)] == Json::Text(tokens[cid]) by {
                let j = choose|j: int| 0 <= j < all.len() && *(#[trigger] all[j]).0 == cid;
                assert(members.contains_key(canonical_text(*all[j].0)));
            }
        }
        with_member(empty_object(), "tokens", object)
    }
}

/// What the arbiter is asked to do.
#[derive(Debug)]
pub enum RequestType {
    /// Register the device described.
    Register(ApiDevice),
    /// List the registered devices.
    List,
    /// Mint control tokens.
    ControlToken(ControlTokenRequest),
    /// Stop serving.
    Shutdown,
}

/// The mathematical value of a [`RequestType`].
pub enum RequestTypeView {
    Register(ApiDeviceView),
    List,
    ControlToken(ControlTokenRequestView),
    Shutdown,
}

impl View for RequestType {
    type V = RequestTypeView;

    open spec fn view(&self) -> RequestTypeView {
        match self {
            RequestType::Register(device) => RequestTypeView::Register(device@),
            RequestType::List => RequestTypeView::List,
            RequestType::ControlToken(request) => RequestTypeView::ControlToken(request@),
            RequestType::Shutdown => RequestTypeView::Shutdown,
        }
    }
}

impl RequestType {
    /// Whether the request asks the state to stop serving.
    pub fn is_shutdown(&self) -> (stop: bool)
        ensures
            stop == (self@ is Shutdown),
    {
        match self {
            RequestType::Shutdown => true,
            _ => false,
        }
    }
}

/// The number of requests that the queue in front of the state holds before
/// a sender has to wait.
pub const QUEUE_CAPACITY: usize = 1000;

/// A request on its way to the state, with the slot through which the answer
/// goes back, if one is expected.
#[derive(Debug)]
pub struct Request<N> {
    pub ty: RequestType,
    pub notify: Option<N>,
}

impl<N> Request<N> {
    /// A request whose answer goes back through `notify`.
    pub fn synchronous(ty: RequestType, notify: N) -> (request: Self)
        ensures
            request.ty == ty,
            request.notify == Some(notify),
    {
        Request { ty, notify: Some(notify) }
    }

    /// A request to which nobody awaits the answer.
    pub fn asynchronous(ty: RequestType) -> (request: Self)
        ensures
            request.ty == ty,
            request.notify.is_none(),
    {
        Request { ty, notify: None }
    }

    /// What is asked.
    pub fn get_type(&self) -> (ty: &RequestType)
        ensures
            *ty == self.ty,
    {
        &self.ty
    }

    /// Pairs the answer with the slot through which it is to be sent, or
    /// hands it back where nobody awaits it.
    pub fn respond(self, response: Response) -> (r: Result<(N, Response), Response>)
        ensures
            match self.notify {
                Some(notify) => r == Ok::<(N, Response), Response>((notify, response)),
                None => r == Err::<(N, Response), Response>(response),
            },
    {
        match self.notify {
            Some(notify) => Ok((notify, response)),
            None => Err(response),
        }
    }
}

/// What the arbiter answers.
#[derive(Debug)]
pub enum Response {
    /// The request was carried out and there is nothing to report.
    Done,
    /// The list of devices.
    ListResponse(ListResponse),
    /// The tokens minted.
    ControlTokenResponse(ControlTokenResponse),
    /// The request was refused or failed.
    Error(HandlingError),
}

impl Response {
    /// The JSON document that the answer carries, if it carries one: a
    /// list of devices, or the tokens minted.
    pub open spec fn json(&self) -> Option<Json> {
        match self {
            Response::ListResponse(list) => Some(device_list_json(device_views(list.devices@))),
            Response::ControlTokenResponse(tokens) => Some(token_response_json(tokens@)),
            _ => None,
        }
    }

    /// Builds [`Response::json`].
    pub fn document(&self) -> (doc: Option<serde_json::Value>)
        ensures
            match self.json() {
                Some(json) => doc matches Some(d) && json_model(d) == json,
                None => doc is None,
            },
    {
        match self {
            Response::ListResponse(list) => Some(list.to_json()),
            Response::ControlTokenResponse(tokens) => Some(tokens.to_json()),
            _ => None,
        }
    }

    /// The reply that carries the answer. Success without a document is 2.04
    /// with an empty payload; a document goes out as 2.05 with its printed
    /// form as the payload; an error goes out under its own code with its
    /// message as the payload.
    pub open spec fn reply(&self) -> (ResponseCode, Seq<u8>) {
        match self {
            Response::Done => (ResponseCode::Changed, Seq::<u8>::empty()),
            Response::Error(e) => (e.code, vstd::utf8::encode_utf8(e.message@)),
            Response::ListResponse(list) => (
                ResponseCode::Content,
                json_print(device_list_json(device_views(list.devices@))),
            ),
            Response::ControlTokenResponse(tokens) => (
                ResponseCode::Content,
                json_print(token_response_json(tokens@)),
            ),
        }
    }

    /// Builds [`Response::reply`].
    pub fn into_coap_response(self) -> (reply: Reply)
        ensures
            (reply.code, reply.payload@) == self.reply(),
    {
        let doc = self.document();
        match self {
            Response::Done => {
                let payload: Vec<u8> = Vec::new();
                assert(payload@ =~= Seq::<u8>::empty());
                Reply { code: ResponseCode::Changed, payload }
            },
            Response::Error(e) => e.into_reply(),
            _ => match doc {
                Some(doc) => document_reply(&doc),
                None => HandlingError::internal("Could not encode the response").into_reply(),
            },
        }
    }
}

/// The reply that carries a document: 2.05 with the printed form of the
/// document as its payload.
pub fn document_reply(doc: &serde_json::Value) -> (reply: Reply)
    ensures
        reply.code == ResponseCode::Content,
        reply.payload@ == json_print(json_model(*doc)),
{
    match print(doc) {
        Ok(payload) => Reply { code: ResponseCode::Content, payload },
        Err(_) => HandlingError::internal("Could not encode the response").into_reply(),
    }
}

} // verus!
