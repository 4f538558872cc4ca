use ngt_access::arbiter::acl::{contains_cid, Access, AclDatabase, AclEntry, AclParameters};
use ngt_access::cid::ComponentId;

fn cid(n: u128) -> ComponentId {
    ComponentId { value: n }
}

fn sample_acl() -> AclDatabase {
    AclDatabase {
        entries: vec![
            AclEntry {
                controller_cids: vec![cid(1), cid(2)],
                device_cids: vec![cid(10)],
                parameters: AclParameters {
                    read: vec!["speed".to_string(), "temperature".to_string()],
                    write: vec!["speed".to_string()],
                },
            },
            AclEntry {
                controller_cids: vec![cid(2)],
                device_cids: vec![cid(10), cid(11)],
                parameters: AclParameters {
                    read: vec!["pressure".to_string()],
                    write: vec![],
                },
            },
        ],
    }
}

#[test]
fn default_acl_is_empty_and_permits_nothing() {
    let acl = AclDatabase::default();
    assert!(acl.entries.is_empty());
    assert!(!acl.is_permitted(cid(1), cid(10), &"speed".to_string(), Access::Read));
}

#[test]
fn entry_matches_controller_device_and_parameter() {
    let acl = sample_acl();
    let e = &acl.entries[0];
    assert!(e.is_match(cid(1), cid(10), &"speed".to_string(), Access::Read));
    assert!(e.is_match(cid(2), cid(10), &"speed".to_string(), Access::Write));
    assert!(e.is_match(cid(1), cid(10), &"temperature".to_string(), Access::Read));
    assert!(!e.is_match(cid(1), cid(10), &"temperature".to_string(), Access::Write));
    assert!(!e.is_match(cid(3), cid(10), &"speed".to_string(), Access::Read));
    assert!(!e.is_match(cid(1), cid(11), &"speed".to_string(), Access::Read));
    assert!(!e.is_match(cid(1), cid(10), &"Speed".to_string(), Access::Read));
}

#[test]
fn parameters_are_granted_by_direction() {
    let p = AclParameters { read: vec!["a".to_string()], write: vec!["b".to_string()] };
    assert!(p.is_granted(&"a".to_string(), Access::Read));
    assert!(!p.is_granted(&"a".to_string(), Access::Write));
    assert!(p.is_granted(&"b".to_string(), Access::Write));
    assert!(!p.is_granted(&"b".to_string(), Access::Read));
    assert!(!p.is_granted(&"".to_string(), Access::Read));
}

#[test]
fn database_permits_what_some_entry_matches() {
    let acl = sample_acl();
    assert!(acl.is_permitted(cid(2), cid(11), &"pressure".to_string(), Access::Read));
    assert!(acl.is_permitted(cid(2), cid(10), &"pressure".to_string(), Access::Read));
    assert!(!acl.is_permitted(cid(1), cid(10), &"pressure".to_string(), Access::Read));
    assert!(!acl.is_permitted(cid(2), cid(11), &"speed".to_string(), Access::Read));
}

#[test]
fn parameters_may_be_permitted_by_different_entries() {
    let acl = sample_acl();
    let both = vec!["speed".to_string(), "pressure".to_string()];
    assert!(acl.is_permitted_all(cid(2), cid(10), &both, Access::Read));
    assert!(!acl.is_permitted_all(cid(1), cid(10), &both, Access::Read));
    assert!(acl.is_permitted_all(cid(1), cid(10), &vec![], Access::Write));
}

#[test]
fn request_is_authorized_only_as_a_whole() {
    let acl = sample_acl();
    let read = vec!["pressure".to_string()];
    let none: Vec<String> = vec![];
    assert!(acl.is_authorized(cid(2), &vec![cid(10), cid(11)], &read, &none));
    assert!(!acl.is_authorized(cid(2), &vec![cid(10), cid(12)], &read, &none));
    let write = vec!["speed".to_string()];
    assert!(acl.is_authorized(cid(2), &vec![cid(10)], &read, &write));
    assert!(!acl.is_authorized(cid(2), &vec![cid(10), cid(11)], &read, &write));
    assert!(acl.is_authorized(cid(9), &vec![], &read, &write));
    assert!(acl.is_authorized(cid(9), &vec![cid(10)], &none, &none));
}

#[test]
fn identifier_is_found_among_identifiers() {
    assert!(contains_cid(&vec![cid(5), cid(6)], cid(6)));
    assert!(!contains_cid(&vec![cid(5), cid(6)], cid(7)));
    assert!(!contains_cid(&vec![], cid(7)));
}
