//! Component identifiers: the 128-bit names of arbiters, devices and controllers.
use vstd::prelude::*;
use crate::json::{get_texts, json_model, texts_member, Json};
use crate::text::texts;

verus! {

/// A universally unique 128-bit identifier of one party on the bus.
#[derive(Clone, Copy, Debug, PartialEq, Eq, Structural)]
pub struct ComponentId {
    pub value: u128,
}

/// Sixteen to the power `k`.
pub open spec fn pow16(k: nat) -> int
    decreases k,
{
    if k == 0 {
        1
    } else {
        16 * pow16((k - 1) as nat)
    }
}

/// The lower-case hexadecimal digit that stands for `n`.
pub open spec fn hex_digit(n: int) -> char
    recommends
        0 <= n < 16,
{
    seq!['0', '1', '2', '3', '4', '5', '6', '7', '8', '9', 'a', 'b', 'c', 'd', 'e', 'f'][n]
}

/// Whether position `i` of the canonical form holds a hyphen.
pub open spec fn is_hyphen_position(i: int) -> bool {
    i == 8 || i == 13 || i == 18 || i == 23
}

/// The number of hyphens that stand before position `i` of the canonical form.
pub open spec fn hyphens_before(i: int) -> int {
    if i < 8 {
        0
    } else if i < 13 {
        1
    } else if i < 18 {
        2
    } else if i < 23 {
        3
    } else {
        4
    }
}

/// The canonical 8-4-4-4-12 form of an identifier: its 32 hexadecimal digits,
/// most significant first and in lower case, in five groups joined by hyphens.
pub open spec fn canonical_text(value: u128) -> Seq<char> {
    Seq::new(
        36,
        |i: int|
            if is_hyphen_position(i) {
                '-'
            } else {
                hex_digit((value as int / pow16((31 - (i - hyphens_before(i))) as nat)) % 16)
            },
    )
}

#[verifier::external_type_specification]
#[verifier::external_body]
pub struct ExUuidError(uuid::Error);

/// The identifier that `uuid::Uuid::parse_str` reads from `text`, as a 128-bit
/// number, or `None` where it reports an error.
pub uninterp spec fn uuid_parse(text: Seq<char>) -> Option<u128>;

/// `uuid::Uuid::parse_str`: the result depends on the text alone.
#[verifier::external_body]
fn uuid_parse_str(text: &str) -> (r: Result<u128, uuid::Error>)
    ensures
        match r {
            Ok(value) => uuid_parse(text@) == Some(value),
            Err(_) => uuid_parse(text@).is_none(),
        },
{
    uuid::Uuid::parse_str(text).map(|id| id.as_u128())
}

/// `Display` of `uuid::Uuid`: the hyphenated lower-case form, which
/// `uuid::Uuid::parse_str` reads back as the same identifier.
#[verifier::external_body]
fn uuid_to_string(value: u128) -> (text: String)
    ensures
        text@ == canonical_text(value),
        uuid_parse(text@) == Some(value),
{
    uuid::Uuid::from_u128(value).to_string()
}

impl ComponentId {
    /// The identifier that `text` denotes, if it denotes one.
    pub open spec fn parsed(text: Seq<char>) -> Option<ComponentId> {
        match uuid_parse(text) {
            Some(value) => Some(ComponentId { value }),
            None => None,
        }
    }

    /// Reads an identifier from its textual form.
    pub fn parse(text: &str) -> (r: Option<ComponentId>)
        ensures
            r == Self::parsed(text@),
    {
        match uuid_parse_str(text) {
            Ok(value) => Some(ComponentId { value }),
            Err(_) => None,
        }
    }

    /// The canonical textual form, which [`ComponentId::parse`] reads back.
    pub fn to_string(&self) -> (text: String)
        ensures
            text@ == canonical_text(self.value),
            Self::parsed(text@) == Some(*self),
    {
        uuid_to_string(self.value)
    }
}

/// The identifiers that `names` denote, if every one of them denotes one.
pub open spec fn all_cids(names: Seq<Seq<char>>) -> Option<Seq<ComponentId>> {
    if forall|i: int| 0 <= i < names.len() ==> ComponentId::parsed(#[trigger] names[i]) is Some {
        Some(names.map_values(|name: Seq<char>| ComponentId::parsed(name)->Some_0))
    } else {
        None
    }
}

/// Reads every one of `names` as an identifier.
pub fn parse_cids(names: &Vec<String>) -> (r: Option<Vec<ComponentId>>)
    ensures
        match r {
            Some(cids) => all_cids(texts(names@)) == Some(cids@),
            None => all_cids(texts(names@)).is_none(),
        },
{
    let mut cids: Vec<ComponentId> = Vec::new();
    let mut i: usize = 0;
    while i < names.len()
        invariant
            i <= names.len(),
            cids@.len() == i,
            forall|j: int|
                0 <= j < i ==> ComponentId::parsed(#[trigger] texts(names@)[j]) == Some(cids@[j]),
        decreases names.len() - i,
    {
        match ComponentId::parse(names[i].as_str()) {
            Some(cid) => {
                assert(texts(names@)[i as int] == names@[i as int]@);
                cids.push(cid);
            },
            None => {
                assert(texts(names@)[i as int] == names@[i as int]@);
                return None;
            },
        }
        i += 1;
    }
    proof {
        assert(texts(names@).map_values(|name: Seq<char>| ComponentId::parsed(name)->Some_0)
            =~= cids@);
    }
    Some(cids)
}

/// The canonical texts of a sequence of identifiers.
pub open spec fn cid_texts(cids: Seq<ComponentId>) -> Seq<Seq<char>> {
    cids.map_values(|cid: ComponentId| canonical_text(cid.value))
}

/// The canonical texts of identifiers, each of which reads back.
pub fn cids_to_texts(cids: &Vec<ComponentId>) -> (names: Vec<String>)
    ensures
        texts(names@) == cid_texts(cids@),
        all_cids(texts(names@)) == Some(cids@),
{
    let mut names: Vec<String> = Vec::new();
    let mut i: usize = 0;
    while i < cids.len()
        invariant
            i <= cids.len(),
            names@.len() == i,
            forall|j: int| 0 <= j < i ==> (#[trigger] names@[j])@ == canonical_text(cids@[j].value),
            forall|j: int|
                0 <= j < i ==> ComponentId::parsed(canonical_text(#[trigger] cids@[j].value))
                    == Some(cids@[j]),
        decreases cids.len() - i,
    {
        names.push(cids[i].to_string());
        i += 1;
    }
    proof {
        let t = texts(names@);
        assert(t =~= cid_texts(cids@));
        assert forall|j: int| 0 <= j < t.len() implies ComponentId::parsed(#[trigger] t[j])
            == Some(cids@[j]) by {
            assert(t[j] == canonical_text(cids@[j].value));
        }
        assert(t.map_values(|name: Seq<char>| ComponentId::parsed(name)->Some_0) =~= cids@);
    }
    names
}

/// The identifiers stored under `key` as an array of strings.
pub open spec fn cids_member(doc: Json, key: Seq<char>) -> Option<Seq<ComponentId>> {
    match texts_member(doc, key) {
        Some(names) => all_cids(names),
        None => None,
    }
}

/// Reads the identifiers stored under `key`.
pub fn get_cids(doc: &serde_json::Value, key: &str) -> (r: Option<Vec<ComponentId>>)
    ensures
        match r {
            Some(cids) => cids_member(json_model(*doc), key@) == Some(cids@),
            None => cids_member(json_model(*doc), key@).is_none(),
        },
{
    match get_texts(doc, key) {
        Some(names) => parse_cids(&names),
        None => None,
    }
}

} // verus!
