use rdap::decode::{read_items, read_links, same_text};
use rdap::json::{
    get_present, read_optional_text, read_optional_unsigned, read_required_text, read_text,
    read_texts, read_unsigned,
};
use rdap::model::{
    Entity, Event, IpVersion, Link, Nameserver, Notice, ObjectClassType, PublicID, RegistryRecord,
};

fn json(text: &str) -> serde_json::Value {
    serde_json::from_str(text).unwrap()
}

const MINIMAL_RECORD: &str = r#"{
    "objectClassName": "entity",
    "handle": "H",
    "notices": [],
    "remarks": [],
    "events": [],
    "entities": []
}"#;

fn without(record: &str, key: &str) -> serde_json::Value {
    let mut value = json(record);
    value.as_object_mut().unwrap().remove(key).unwrap();
    value
}

fn with(record: &str, key: &str, member: &str) -> serde_json::Value {
    let mut value = json(record);
    value.as_object_mut().unwrap().insert(key.to_string(), json(member));
    value
}

#[test]
fn texts_are_compared_letter_by_letter() {
    assert!(same_text("domain", "domain"));
    assert!(!same_text("domain", "Domain"));
    assert!(!same_text("domain", "domain "));
    assert!(same_text("", ""));
}

#[test]
fn members_are_found_by_name() {
    let value = json(r#"{"a": "x", "b": null, "c": 7}"#);
    assert_eq!(read_required_text(&value, "a"), Some(String::from("x")));
    assert_eq!(read_required_text(&value, "b"), None);
    assert_eq!(read_required_text(&value, "c"), None);
    assert_eq!(read_required_text(&value, "d"), None);
    assert_eq!(read_optional_text(&value, "a"), Some(Some(String::from("x"))));
    assert_eq!(read_optional_text(&value, "b"), Some(None));
    assert_eq!(read_optional_text(&value, "c"), None);
    assert_eq!(read_optional_text(&value, "d"), Some(None));
    assert!(get_present(&value, "a").is_some());
    assert!(get_present(&value, "b").is_none());
    assert!(get_present(&value, "d").is_none());
    assert!(get_present(&json("[1]"), "a").is_none());
}

#[test]
fn strings_and_arrays_of_strings() {
    assert_eq!(read_text(&json(r#""whois.ripe.net""#)), Some(String::from("whois.ripe.net")));
    assert_eq!(read_text(&json("1")), None);
    assert_eq!(read_text(&json("null")), None);
    assert_eq!(read_texts(&json("[]")), Some(vec![]));
    assert_eq!(
        read_texts(&json(r#"["a", "b"]"#)),
        Some(vec![String::from("a"), String::from("b")])
    );
    assert_eq!(read_texts(&json(r#"["a", 1]"#)), None);
    assert_eq!(read_texts(&json(r#""a""#)), None);
}

#[test]
fn numbers_that_fit_32_bits() {
    assert_eq!(read_unsigned(&json("0")), Some(0));
    assert_eq!(read_unsigned(&json("64512")), Some(64512));
    assert_eq!(read_unsigned(&json("4294967295")), Some(4294967295));
    assert_eq!(read_unsigned(&json("4294967296")), None);
    assert_eq!(read_unsigned(&json("-1")), None);
    assert_eq!(read_unsigned(&json("1.0")), None);
    assert_eq!(read_unsigned(&json(r#""1""#)), None);
    let value = json(r#"{"startAutnum": 64512, "endAutnum": null, "bad": 1.5}"#);
    assert_eq!(read_optional_unsigned(&value, "startAutnum"), Some(Some(64512)));
    assert_eq!(read_optional_unsigned(&value, "endAutnum"), Some(None));
    assert_eq!(read_optional_unsigned(&value, "absent"), Some(None));
    assert_eq!(read_optional_unsigned(&value, "bad"), None);
}

#[test]
fn object_class_literals() {
    assert_eq!(ObjectClassType::from_literal("domain"), Some(ObjectClassType::Domain));
    assert_eq!(ObjectClassType::from_literal("ip network"), Some(ObjectClassType::IpNetwork));
    assert_eq!(ObjectClassType::from_literal("autnum"), Some(ObjectClassType::AutonomousSystem));
    assert_eq!(ObjectClassType::from_literal("entity"), Some(ObjectClassType::Entity));
    assert_eq!(ObjectClassType::from_literal("nameserver"), Some(ObjectClassType::Nameserver));
    assert_eq!(ObjectClassType::from_literal("Domain"), None);
    assert_eq!(ObjectClassType::from_literal("ip_network"), None);
    assert_eq!(ObjectClassType::from_literal("autonomous_system"), None);
    assert_eq!(ObjectClassType::from_literal(""), None);
    assert_eq!(ObjectClassType::from_json(&json(r#""autnum""#)), Some(ObjectClassType::AutonomousSystem));
    assert_eq!(ObjectClassType::from_json(&json("7")), None);
}

#[test]
fn ip_version_literals() {
    assert_eq!(IpVersion::from_literal("v4"), Some(IpVersion::V4));
    assert_eq!(IpVersion::from_literal("v6"), Some(IpVersion::V6));
    assert_eq!(IpVersion::from_literal("V4"), None);
    assert_eq!(IpVersion::from_literal("4"), None);
    assert_eq!(IpVersion::from_json(&json(r#""v6""#)), Some(IpVersion::V6));
    assert_eq!(IpVersion::from_json(&json("6")), None);
}

#[test]
fn a_link_needs_only_its_href() {
    let link = Link::from_json(&json(r#"{"href": "https://example.net"}"#)).unwrap();
    assert_eq!(link.href, "https://example.net");
    assert_eq!(link.value, None);
    assert_eq!(link.rel, None);
    assert_eq!(link.hreflang, None);
    assert_eq!(link.title, None);
    assert_eq!(link.link_type, None);
    assert!(Link::from_json(&json(r#"{"rel": "self"}"#)).is_none());
    assert!(Link::from_json(&json(r#"{"href": null}"#)).is_none());
    assert!(Link::from_json(&json(r#"["https://example.net"]"#)).is_none());
    assert!(Link::from_json(&json(r#""https://example.net""#)).is_none());
}

#[test]
fn a_link_with_all_its_members() {
    let link = Link::from_json(&json(
        r#"{"value": "v", "rel": "self", "href": "h", "hreflang": "en", "title": "t",
            "type": "application/rdap+json", "media": "screen"}"#,
    ))
    .unwrap();
    assert_eq!(link.value.as_deref(), Some("v"));
    assert_eq!(link.rel.as_deref(), Some("self"));
    assert_eq!(link.href, "h");
    assert_eq!(link.hreflang.as_deref(), Some("en"));
    assert_eq!(link.title.as_deref(), Some("t"));
    assert_eq!(link.link_type.as_deref(), Some("application/rdap+json"));
    assert!(Link::from_json(&json(r#"{"href": "h", "title": 1}"#)).is_none());
}

#[test]
fn arrays_of_links() {
    let links = read_links(&json(r#"[{"href": "a"}, {"href": "b", "rel": "up"}]"#)).unwrap();
    assert_eq!(links.len(), 2);
    assert_eq!(links[0].href, "a");
    assert_eq!(links[1].href, "b");
    assert_eq!(links[1].rel.as_deref(), Some("up"));
    assert_eq!(read_links(&json("[]")).unwrap().len(), 0);
    assert!(read_links(&json(r#"[{"href": "a"}, {"rel": "up"}]"#)).is_none());
    assert!(read_links(&json(r#"{"href": "a"}"#)).is_none());
}

#[test]
fn an_event_under_its_wire_names() {
    let event = Event::from_json(&json(
        r#"{"eventAction": "registration", "eventActor": "RIPE", "eventDate": "2002-08-19T10:13:54Z",
            "links": [{"href": "h"}]}"#,
    ))
    .unwrap();
    assert_eq!(event.action, "registration");
    assert_eq!(event.actor.as_deref(), Some("RIPE"));
    assert_eq!(event.date, "2002-08-19T10:13:54Z");
    assert_eq!(event.links.unwrap()[0].href, "h");
    let bare = Event::from_json(&json(r#"{"eventAction": "a", "eventDate": "d"}"#)).unwrap();
    assert_eq!(bare.actor, None);
    assert!(bare.links.is_none());
    assert!(Event::from_json(&json(r#"{"eventDate": "d"}"#)).is_none());
    assert!(Event::from_json(&json(r#"{"eventAction": "a"}"#)).is_none());
    assert!(Event::from_json(&json(r#"{"action": "a", "date": "d"}"#)).is_none());
    assert!(Event::from_json(&json(r#"{"eventAction": "a", "eventDate": "d", "links": [{}]}"#))
        .is_none());
}

#[test]
fn a_notice_needs_its_description() {
    let notice = Notice::from_json(&json(
        r#"{"title": "Terms", "type": "result set truncated", "description": ["one", "two"],
            "links": []}"#,
    ))
    .unwrap();
    assert_eq!(notice.title.as_deref(), Some("Terms"));
    assert_eq!(notice.notice_type.as_deref(), Some("result set truncated"));
    assert_eq!(notice.description, vec!["one", "two"]);
    assert_eq!(notice.links.unwrap().len(), 0);
    let empty = Notice::from_json(&json(r#"{"description": []}"#)).unwrap();
    assert!(empty.description.is_empty());
    assert!(Notice::from_json(&json(r#"{"title": "Terms"}"#)).is_none());
    assert!(Notice::from_json(&json(r#"{"description": null}"#)).is_none());
    assert!(Notice::from_json(&json(r#"{"description": "one"}"#)).is_none());
}

#[test]
fn a_public_id_needs_both_members() {
    let id = PublicID::from_json(&json(r#"{"type": "IANA Registrar ID", "identifier": "1"}"#))
        .unwrap();
    assert_eq!(id.id_type, "IANA Registrar ID");
    assert_eq!(id.identifier, "1");
    assert!(PublicID::from_json(&json(r#"{"type": "IANA Registrar ID"}"#)).is_none());
    assert!(PublicID::from_json(&json(r#"{"identifier": "1"}"#)).is_none());
}

#[test]
fn a_nameserver_needs_its_name_and_class() {
    let server = Nameserver::from_json(&json(
        r#"{"ldhName": "ns1.example.net", "objectClassName": "nameserver"}"#,
    ))
    .unwrap();
    assert_eq!(server.ldh_name, "ns1.example.net");
    assert_eq!(server.nameserver_type, ObjectClassType::Nameserver);
    let other = Nameserver::from_json(&json(
        r#"{"ldhName": "ns1.example.net", "objectClassName": "entity"}"#,
    ))
    .unwrap();
    assert_eq!(other.nameserver_type, ObjectClassType::Entity);
    assert!(Nameserver::from_json(&json(r#"{"ldhName": "ns1.example.net"}"#)).is_none());
    assert!(Nameserver::from_json(&json(r#"{"objectClassName": "nameserver"}"#)).is_none());
    assert!(Nameserver::from_json(&json(
        r#"{"ldhName": "ns1.example.net", "objectClassName": "server"}"#
    ))
    .is_none());
}

#[test]
fn an_entity_keeps_its_card_as_it_came() {
    let entity = Entity::from_json(&json(
        r#"{"objectClassType": "entity", "handle": "FHK-MNT",
            "vcardArray": ["vcard", [["version", {}, "text", "4.0"], ["n", {}, "x", 1.5]]],
            "roles": ["registrant", "technical"], "links": [{"href": "h"}],
            "events": [{"eventAction": "a", "eventDate": "d"}], "status": ["active"],
            "port43": "whois.ripe.net"}"#,
    ))
    .unwrap();
    assert_eq!(entity.entity_type, Some(ObjectClassType::Entity));
    assert_eq!(entity.handle, "FHK-MNT");
    assert_eq!(
        entity.vcard_array,
        Some(vec![
            json(r#""vcard""#),
            json(r#"[["version", {}, "text", "4.0"], ["n", {}, "x", 1.5]]"#)
        ])
    );
    assert_eq!(entity.roles, vec!["registrant", "technical"]);
    assert_eq!(entity.links.unwrap().len(), 1);
    assert_eq!(entity.events.unwrap()[0].action, "a");
    assert_eq!(entity.status, Some(vec![String::from("active")]));
    assert_eq!(entity.port43.as_deref(), Some("whois.ripe.net"));
}

#[test]
fn an_entity_needs_its_handle_and_roles() {
    let bare = Entity::from_json(&json(r#"{"handle": "H", "roles": []}"#)).unwrap();
    assert_eq!(bare.entity_type, None);
    assert!(bare.vcard_array.is_none());
    assert!(bare.roles.is_empty());
    assert!(bare.links.is_none() && bare.events.is_none() && bare.status.is_none());
    assert_eq!(bare.port43, None);
    assert!(Entity::from_json(&json(r#"{"roles": []}"#)).is_none());
    assert!(Entity::from_json(&json(r#"{"handle": "H"}"#)).is_none());
    assert!(Entity::from_json(&json(r#"{"handle": "H", "roles": [], "vcardArray": {}}"#)).is_none());
    assert!(Entity::from_json(&json(
        r#"{"handle": "H", "roles": [], "objectClassType": "person"}"#
    ))
    .is_none());
}

#[test]
fn the_items_of_an_array_are_copied() {
    assert_eq!(
        read_items(&json(r#"[1, "a", [true], {"k": null}]"#)),
        Some(vec![json("1"), json(r#""a""#), json("[true]"), json(r#"{"k": null}"#)])
    );
    assert_eq!(read_items(&json(r#"{"k": []}"#)), None);
}

#[test]
fn a_record_needs_few_members() {
    let record = RegistryRecord::from_json(&json(MINIMAL_RECORD)).unwrap();
    assert_eq!(record.record_type, ObjectClassType::Entity);
    assert_eq!(record.handle, "H");
    assert!(record.notices.is_empty() && record.remarks.is_empty());
    assert!(record.events.is_empty() && record.entities.is_empty());
    assert!(record.rdap_conformance.is_none());
    assert!(record.lang.is_none());
    assert!(record.network.is_none());
    assert!(record.start_address.is_none() && record.end_address.is_none());
    assert!(record.ldh_name.is_none());
    assert!(record.nameservers.is_none());
    assert!(record.start_autnum.is_none() && record.end_autnum.is_none());
    assert!(record.ip_version.is_none());
    assert!(record.name.is_none());
    assert!(record.parent_handle.is_none());
    assert!(record.country.is_none());
    assert!(record.public_ids.is_none());
    assert!(record.port43.is_none());
}

#[test]
fn a_record_without_a_member_it_must_carry_is_not_read() {
    for key in ["objectClassName", "handle", "notices", "remarks", "events", "entities"] {
        assert!(RegistryRecord::from_json(&without(MINIMAL_RECORD, key)).is_none(), "{}", key);
        assert!(RegistryRecord::from_json(&with(MINIMAL_RECORD, key, "null")).is_none(), "{}", key);
    }
    assert!(RegistryRecord::from_json(&json("[]")).is_none());
    assert!(RegistryRecord::from_json(&json("null")).is_none());
}

#[test]
fn a_record_with_a_class_that_is_not_known_is_not_read() {
    assert!(RegistryRecord::from_json(&with(MINIMAL_RECORD, "objectClassName", r#""help""#))
        .is_none());
    assert!(RegistryRecord::from_json(&with(MINIMAL_RECORD, "objectClassName", "1")).is_none());
}

#[test]
fn a_record_with_a_member_of_the_wrong_kind_is_not_read() {
    for (key, member) in [
        ("rdapConformance", r#""rdap_level_0""#),
        ("lang", "1"),
        ("network", r#""193.0.0.0""#),
        ("network", r#"{"handle": "N"}"#),
        ("startAddress", "1"),
        ("endAddress", "[]"),
        ("ldhName", "{}"),
        ("nameServers", "{}"),
        ("nameServers", r#"[{"ldhName": "a"}]"#),
        ("startAutnum", r#""1""#),
        ("endAutnum", "-1"),
        ("ipVersion", r#""v5""#),
        ("name", "true"),
        ("parentHandle", "0"),
        ("country", "[]"),
        ("publicIds", r#"[{"type": "t"}]"#),
        ("port43", "43"),
        ("notices", r#"[{"title": "t"}]"#),
        ("events", r#"[{"eventAction": "a"}]"#),
        ("entities", r#"[{"handle": "H"}]"#),
    ] {
        assert!(
            RegistryRecord::from_json(&with(MINIMAL_RECORD, key, member)).is_none(),
            "{} {}",
            key,
            member
        );
    }
}

#[test]
fn a_record_under_its_wire_names() {
    let record = RegistryRecord::from_json(&json(
        r#"{
        "rdapConformance": ["rdap_level_0"],
        "notices": [{"description": ["n"]}],
        "lang": "en",
        "objectClassName": "autnum",
        "startAddress": "193.0.0.0",
        "endAddress": "193.0.7.255",
        "handle": "AS3333",
        "ldhName": "example.net",
        "nameServers": [{"ldhName": "ns1.example.net", "objectClassName": "nameserver"}],
        "startAutnum": 3333,
        "endAutnum": 3334,
        "ipVersion": "v6",
        "name": "RIPE-NCC-AS",
        "parentHandle": "P",
        "remarks": [{"description": ["r"]}],
        "events": [{"eventAction": "a", "eventDate": "d"}],
        "country": "NL",
        "publicIds": [{"type": "t", "identifier": "i"}],
        "entities": [{"handle": "E", "roles": ["abuse"]}],
        "port43": "whois.ripe.net",
        "unknown": {"any": "thing"}
    }"#,
    ))
    .unwrap();
    assert_eq!(record.rdap_conformance, Some(vec![String::from("rdap_level_0")]));
    assert_eq!(record.notices[0].description, vec!["n"]);
    assert_eq!(record.lang.as_deref(), Some("en"));
    assert_eq!(record.record_type, ObjectClassType::AutonomousSystem);
    assert_eq!(record.start_address.as_deref(), Some("193.0.0.0"));
    assert_eq!(record.end_address.as_deref(), Some("193.0.7.255"));
    assert_eq!(record.handle, "AS3333");
    assert_eq!(record.ldh_name.as_deref(), Some("example.net"));
    assert_eq!(record.nameservers.unwrap()[0].ldh_name, "ns1.example.net");
    assert_eq!(record.start_autnum, Some(3333));
    assert_eq!(record.end_autnum, Some(3334));
    assert_eq!(record.ip_version, Some(IpVersion::V6));
    assert_eq!(record.name.as_deref(), Some("RIPE-NCC-AS"));
    assert_eq!(record.parent_handle.as_deref(), Some("P"));
    assert_eq!(record.remarks[0].description, vec!["r"]);
    assert_eq!(record.events[0].date, "d");
    assert_eq!(record.country.as_deref(), Some("NL"));
    assert_eq!(record.public_ids.unwrap()[0].identifier, "i");
    assert_eq!(record.entities[0].roles, vec!["abuse"]);
    assert_eq!(record.port43.as_deref(), Some("whois.ripe.net"));
}

#[test]
fn the_semantic_names_are_not_wire_names() {
    let value = with(
        &with(MINIMAL_RECORD, "record_type", r#""domain""#).to_string(),
        "nameservers",
        r#"[{"ldhName": "ns1.example.net", "objectClassName": "nameserver"}]"#,
    );
    let record = RegistryRecord::from_json(&value).unwrap();
    assert_eq!(record.record_type, ObjectClassType::Entity);
    assert!(record.nameservers.is_none());
}

#[test]
fn records_nest_to_any_depth() {
    let inner = with(MINIMAL_RECORD, "handle", r#""inner""#);
    let middle = with(
        &with(MINIMAL_RECORD, "network", &inner.to_string()).to_string(),
        "handle",
        r#""middle""#,
    );
    let outer = with(MINIMAL_RECORD, "network", &middle.to_string());
    let record = RegistryRecord::from_json(&outer).unwrap();
    assert_eq!(record.handle, "H");
    let middle = record.network.unwrap();
    assert_eq!(middle.handle, "middle");
    let inner = middle.network.unwrap();
    assert_eq!(inner.handle, "inner");
    assert!(inner.network.is_none());
    let broken = with(
        MINIMAL_RECORD,
        "network",
        &with(MINIMAL_RECORD, "network", r#"{"handle": "no class"}"#).to_string(),
    );
    assert!(RegistryRecord::from_json(&broken).is_none());
}
