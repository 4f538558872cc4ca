//! The arbiter's access-control list: who may read or write which parameter
//! of which device.
use vstd::prelude::*;
use crate::cid::{cids_member, get_cids, ComponentId};
use crate::json::{get_texts, items, json_model, json_models, member, texts_member, Json};
use crate::text::{contains_text, texts};

verus! {

/// The direction of an access to a parameter.
#[derive(Clone, Copy, Debug, PartialEq, Eq, Structural)]
pub enum Access {
    Read,
    Write,
}

/// The list of all entries, in the order in which they were configured.
#[derive(Debug)]
pub struct AclDatabase {
    pub entries: Vec<AclEntry>,
}

/// One entry: a set of controllers, a set of devices, and the parameters that
/// the former may read and write on the latter.
#[derive(Debug)]
pub struct AclEntry {
    pub controller_cids: Vec<ComponentId>,
    pub device_cids: Vec<ComponentId>,
    pub parameters: AclParameters,
}

/// The parameters that an entry grants, by direction.
#[derive(Debug)]
pub struct AclParameters {
    pub read: Vec<String>,
    pub write: Vec<String>,
}

/// Whether `cid` is one of `cids`.
pub fn contains_cid(cids: &Vec<ComponentId>, cid: ComponentId) -> (found: bool)
    ensures
        found == cids@.contains(cid),
{
    let mut i: usize = 0;
    while i < cids.len()
        invariant
            i <= cids.len(),
            forall|j: int| 0 <= j < i ==> cids@[j] != cid,
        decreases cids.len() - i,
    {
        if cids[i] == cid {
            return true;
        }
        i += 1;
    }
    false
}

impl AclParameters {
    /// Whether `parameter` is granted in the direction `access`.
    pub open spec fn grants(&self, parameter: Seq<char>, access: Access) -> bool {
        match access {
            Access::Read => texts(self.read@).contains(parameter),
            Access::Write => texts(self.write@).contains(parameter),
        }
    }

    /// Decides [`AclParameters::grants`].
    pub fn is_granted(&self, parameter: &String, access: Access) -> (granted: bool)
        ensures
            granted == self.grants(parameter@, access),
    {
        match access {
            Access::Read => contains_text(&self.read, parameter),
            Access::Write => contains_text(&self.write, parameter),
        }
    }
}

impl AclEntry {
    /// An entry matches a request when it names the controller, names the
    /// device, and grants the parameter in the direction asked for.
    pub open spec fn matches(
        &self,
        controller: ComponentId,
        device: ComponentId,
        parameter: Seq<char>,
        access: Access,
    ) -> bool {
        &&& self.controller_cids@.contains(controller)
        &&& self.device_cids@.contains(device)
        &&& self.parameters.grants(parameter, access)
    }

    /// Decides [`AclEntry::matches`].
    pub fn is_match(
        &self,
        controller: ComponentId,
        device: ComponentId,
        parameter: &String,
        access: Access,
    ) -> (matched: bool)
        ensures
            matched == self.matches(controller, device, parameter@, access),
    {
        contains_cid(&self.controller_cids, controller) && contains_cid(&self.device_cids, device)
            && self.parameters.is_granted(parameter, access)
    }
}

impl AclDatabase {
    /// The database permits an access when one of its entries matches it.
    pub open spec fn permits(
        &self,
        controller: ComponentId,
        device: ComponentId,
        parameter: Seq<char>,
        access: Access,
    ) -> bool {
        exists|i: int|
            0 <= i < self.entries@.len() && #[trigger] self.entries@[i].matches(
                controller,
                device,
                parameter,
                access,
            )
    }

    /// The database permits every one of `parameters` in the direction `access`.
    pub open spec fn permits_all(
        &self,
        controller: ComponentId,
        device: ComponentId,
        parameters: Seq<Seq<char>>,
        access: Access,
    ) -> bool {
        forall|j: int|
            0 <= j < parameters.len() ==> self.permits(
                controller,
                device,
                #[trigger] parameters[j],
                access,
            )
    }

    /// The database authorizes a request for tokens when, on every device
    /// asked for, it permits every parameter to be read and every parameter
    /// to be written that the request names.
    pub open spec fn authorizes(
        &self,
        controller: ComponentId,
        devices: Seq<ComponentId>,
        read: Seq<Seq<char>>,
        write: Seq<Seq<char>>,
    ) -> bool {
        forall|k: int|
            0 <= k < devices.len() ==> {
                &&& self.permits_all(controller, #[trigger] devices[k], read, Access::Read)
                &&& self.permits_all(controller, devices[k], write, Access::Write)
            }
    }

    /// Decides [`AclDatabase::permits`].
    pub fn is_permitted(
        &self,
        controller: ComponentId,
        device: ComponentId,
        parameter: &String,
        access: Access,
    ) -> (permitted: bool)
        ensures
            permitted == self.permits(controller, device, parameter@, access),
    {
        let mut i: usize = 0;
        while i < self.entries.len()
            invariant
                i <= self.entries.len(),
                forall|j: int|
                    0 <= j < i ==> !(#[trigger] self.entries@[j].matches(
                        controller,
                        device,
                        parameter@,
                        access,
                    )),
            decreases self.entries.len() - i,
        {
            if self.entries[i].is_match(controller, device, parameter, access) {
                return true;
            }
            i += 1;
        }
        false
    }

    /// Decides [`AclDatabase::permits_all`].
    pub fn is_permitted_all(
        &self,
        controller: ComponentId,
        device: ComponentId,
        parameters: &Vec<String>,
        access: Access,
    ) -> (permitted: bool)
        ensures
            permitted == self.permits_all(controller, device, texts(parameters@), access),
    {
        let mut j: usize = 0;
        while j < parameters.len()
            invariant
                j <= parameters.len(),
                forall|k: int|
                    0 <= k < j ==> self.permits(
                        controller,
                        device,
                        #[trigger] texts(parameters@)[k],
                        access,
                    ),
            decreases parameters.len() - j,
        {
            if !self.is_permitted(controller, device, &parameters[j], access) {
                assert(texts(parameters@)[j as int] == parameters@[j as int]@);
                return false;
            }
            assert(texts(parameters@)[j as int] == parameters@[j as int]@);
            j += 1;
        }
        true
    }

    /// Decides [`AclDatabase::authorizes`].
    pub fn is_authorized(
        &self,
        controller: ComponentId,
        devices: &Vec<ComponentId>,
        read: &Vec<String>,
        write: &Vec<String>,
    ) -> (authorized: bool)
        ensures
            authorized == self.authorizes(controller, devices@, texts(read@), texts(write@)),
    {
        let mut k: usize = 0;
        while k < devices.len()
            invariant
                k <= devices.len(),
                forall|d: int|
                    0 <= d < k ==> {
                        &&& self.permits_all(
                            controller,
                            #[trigger] devices@[d],
                            texts(read@),
                            Access::Read,
                        )
                        &&& self.permits_all(controller, devices@[d], texts(write@), Access::Write)
                    },
            decreases devices.len() - k,
        {
            let device = devices[k];
            if !self.is_permitted_all(controller, device, read, Access::Read) {
                return false;
            }
            if !self.is_permitted_all(controller, device, write, Access::Write) {
                return false;
            }
            k += 1;
        }
        true
    }
}

impl Default for AclDatabase {
    /// The database without entries, which permits nothing.
    fn default() -> (db: AclDatabase)
        ensures
            db.entries@.len() == 0,
    {
        AclDatabase { entries: Vec::new() }
    }
}

/// The mathematical value of [`AclParameters`].
pub struct AclParametersView {
    pub read: Seq<Seq<char>>,
    pub write: Seq<Seq<char>>,
}

impl View for AclParameters {
    type V = AclParametersView;

    open spec fn view(&self) -> AclParametersView {
        AclParametersView { read: texts(self.read@), write: texts(self.write@) }
    }
}

/// The mathematical value of an [`AclEntry`].
pub struct AclEntryView {
    pub controller_cids: Seq<ComponentId>,
    pub device_cids: Seq<ComponentId>,
    pub parameters: AclParametersView,
}

impl View for AclEntry {
    type V = AclEntryView;

    open spec fn view(&self) -> AclEntryView {
        AclEntryView {
            controller_cids: self.controller_cids@,
            device_cids: self.device_cids@,
            parameters: self.parameters@,
        }
    }
}

impl View for AclDatabase {
    type V = Seq<AclEntryView>;

    open spec fn view(&self) -> Seq<AclEntryView> {
        self.entries@.map_values(|e: AclEntry| e@)
    }
}

/// The parameters that a document grants: the members `read` and `write`
/// must be arrays of strings.
pub open spec fn parameters_of_json(doc: Json) -> Option<AclParametersView> {
    match (texts_member(doc, "read"@), texts_member(doc, "write"@)) {
        (Some(read), Some(write)) => Some(AclParametersView { read, write }),
        _ => None,
    }
}

/// The entry that a document holds: the members `controllerCids` and
/// `deviceCids` must be arrays of identifiers, and the member `parameters`
/// must hold parameters.
pub open spec fn entry_of_json(doc: Json) -> Option<AclEntryView> {
    match (cids_member(doc, "controllerCids"@), cids_member(doc, "deviceCids"@), doc.member(
        "parameters"@,
    )) {
        (Some(controller_cids), Some(device_cids), Some(p)) => match parameters_of_json(p) {
            Some(parameters) => Some(AclEntryView { controller_cids, device_cids, parameters }),
            None => None,
        },
        _ => None,
    }
}

/// The database that a document holds: an array whose every element holds
/// an entry, in the order of the array.
pub open spec fn database_of_json(doc: Json) -> Option<Seq<AclEntryView>> {
    match doc {
        Json::Array(elements) => if forall|i: int|
            0 <= i < elements.len() ==> entry_of_json(#[trigger] elements[i]) is Some {
            Some(elements.map_values(|e: Json| entry_of_json(e)->Some_0))
        } else {
            None
        },
        _ => None,
    }
}

impl AclParameters {
    /// Reads parameters from their configured form.
    pub fn from_json(doc: &serde_json::Value) -> (r: Option<AclParameters>)
        ensures
            match r {
                Some(p) => parameters_of_json(json_model(*doc)) == Some(p@),
                None => parameters_of_json(json_model(*doc)).is_none(),
            },
    {
        match (get_texts(doc, "read"), get_texts(doc, "write")) {
            (Some(read), Some(write)) => Some(AclParameters { read, write }),
            _ => None,
        }
    }
}

impl AclEntry {
    /// Reads an entry from its configured form.
    pub fn from_json(doc: &serde_json::Value) -> (r: Option<AclEntry>)
        ensures
            match r {
                Some(e) => entry_of_json(json_model(*doc)) == Some(e@),
                None => entry_of_json(json_model(*doc)).is_none(),
            },
    {
        let controller_cids = get_cids(doc, "controllerCids");
        let device_cids = get_cids(doc, "deviceCids");
        let parameters = match member(doc, "parameters") {
            Some(p) => AclParameters::from_json(p),
            None => None,
        };
        match (controller_cids, device_cids, parameters) {
            (Some(controller_cids), Some(device_cids), Some(parameters)) => Some(
                AclEntry { controller_cids, device_cids, parameters },
            ),
            _ => None,
        }
    }
}

impl AclDatabase {
    /// Reads a database from its configured form.
    pub fn from_json(doc: &serde_json::Value) -> (r: Option<AclDatabase>)
        ensures
            match r {
                Some(db) => database_of_json(json_model(*doc)) == Some(db@),
                None => database_of_json(json_model(*doc)).is_none(),
            },
    {
        let values = match items(doc) {
            Some(values) => values,
            None => { return None; },
        };
        let ghost elements = json_models(values@);
        let mut entries: Vec<AclEntry> = Vec::new();
        let mut i: usize = 0;
        while i < values.len()
            invariant
                i <= values.len(),
                elements == json_models(values@),
                json_model(*doc) == Json::Array(elements),
                entries@.len() == i,
                forall|j: int|
                    0 <= j < i ==> entry_of_json(#[trigger] elements[j]) == Some(entries@[j]@),
            decreases values.len() - i,
        {
            match AclEntry::from_json(&values[i]) {
                Some(e) => {
                    assert(elements[i as int] == json_model(values@[i as int]));
                    entries.push(e);
                },
                None => {
                    assert(elements[i as int] == json_model(values@[i as int]));
                    return None;
                },
            }
            i += 1;
        }
        let db = AclDatabase { entries };
        proof {
            assert(elements.map_values(|e: Json| entry_of_json(e)->Some_0) =~= db@);
        }
        Some(db)
    }
}

} // verus!
