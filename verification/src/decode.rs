//! Reading the wire model from JSON documents.
//!
//! Each record is read from a JSON object. A member that the record must carry has to be
//! there and to hold a value of its kind. A member that it may lack counts as absent where the
//! object has none of that name or holds `null` under it; where it is there, it has to hold a
//! value of its kind. Members that the model does not know are passed over. A document that
//! breaks one of these rules, anywhere inside it, is not read at all.

use vstd::prelude::*;
use crate::json::{
    as_items, as_text, clone_value, get_member, get_present, json_view, json_views, member,
    optional, optional_text, optional_texts, optional_unsigned, present, read_optional_text,
    read_optional_texts, read_optional_unsigned, read_required_text, read_required_texts,
    required, required_text, required_texts, Json,
};
use crate::model::{
    Entity, EntityView, Event, EventView, IpVersion, Link, LinkView, Nameserver, NameserverView,
    Notice, NoticeView, ObjectClassType, PublicID, PublicIDView, RegistryRecord,
    RegistryRecordView,
};

verus! {

/// The object class that a literal names.
pub open spec fn object_class_of(text: Seq<char>) -> Option<ObjectClassType> {
    if text == "domain"@ {
        Some(ObjectClassType::Domain)
    } else if text == "ip network"@ {
        Some(ObjectClassType::IpNetwork)
    } else if text == "autnum"@ {
        Some(ObjectClassType::AutonomousSystem)
    } else if text == "entity"@ {
        Some(ObjectClassType::Entity)
    } else if text == "nameserver"@ {
        Some(ObjectClassType::Nameserver)
    } else {
        None
    }
}

/// The IP version that a literal names.
pub open spec fn ip_version_of(text: Seq<char>) -> Option<IpVersion> {
    if text == "v4"@ {
        Some(IpVersion::V4)
    } else if text == "v6"@ {
        Some(IpVersion::V6)
    } else {
        None
    }
}

/// The object class that a document names: a string that holds one of the five literals.
pub open spec fn class_of(json: Json) -> Option<ObjectClassType> {
    match json {
        Json::Text(text) => object_class_of(text),
        _ => None,
    }
}

/// The IP version that a document names: a string that holds one of the two literals.
pub open spec fn version_of(json: Json) -> Option<IpVersion> {
    match json {
        Json::Text(text) => ip_version_of(text),
        _ => None,
    }
}

/// The items of an array, as they are.
pub open spec fn items_of(json: Json) -> Option<Seq<Json>> {
    match json {
        Json::Array(items) => Some(items),
        _ => None,
    }
}

/// Whether two texts are the same.
pub fn same_text(left: &str, right: &str) -> (same: bool)
    ensures
        same == (left@ == right@),
{
    left.to_owned() == right.to_owned()
}

impl ObjectClassType {
    /// Reads the literal that names an object class.
    pub fn from_literal(text: &str) -> (class: Option<ObjectClassType>)
        ensures
            class == object_class_of(text@),
    {
        if same_text(text, "domain") {
            Some(ObjectClassType::Domain)
        } else if same_text(text, "ip network") {
            Some(ObjectClassType::IpNetwork)
        } else if same_text(text, "autnum") {
            Some(ObjectClassType::AutonomousSystem)
        } else if same_text(text, "entity") {
            Some(ObjectClassType::Entity)
        } else if same_text(text, "nameserver") {
            Some(ObjectClassType::Nameserver)
        } else {
            None
        }
    }

    pub fn from_json(value: &serde_json::Value) -> (class: Option<ObjectClassType>)
        ensures
            class == class_of(json_view(*value)),
    {
        match as_text(value) {
            Some(text) => ObjectClassType::from_literal(text),
            None => None,
        }
    }
}

impl IpVersion {
    /// Reads the literal that names an IP version.
    pub fn from_literal(text: &str) -> (version: Option<IpVersion>)
        ensures
            version == ip_version_of(text@),
    {
        if same_text(text, "v4") {
            Some(IpVersion::V4)
        } else if same_text(text, "v6") {
            Some(IpVersion::V6)
        } else {
            None
        }
    }

    pub fn from_json(value: &serde_json::Value) -> (version: Option<IpVersion>)
        ensures
            version == version_of(json_view(*value)),
    {
        match as_text(value) {
            Some(text) => IpVersion::from_literal(text),
            None => None,
        }
    }
}

/// Reads the items of an array, each as it is.
pub fn read_items(value: &serde_json::Value) -> (items: Option<Vec<serde_json::Value>>)
    ensures
        match items {
            Some(items) => items_of(json_view(*value)) == Some(json_views(items@)),
            None => items_of(json_view(*value)) is None,
        },
{
    let found = match as_items(value) {
        Some(found) => found,
        None => {
            return None;
        },
    };
    let mut items: Vec<serde_json::Value> = Vec::new();
    let mut i: usize = 0;
    while i < found.len()
        invariant
            i <= found.len(),
            json_views(items@) == json_views(found@).take(i as int),
        decreases found.len() - i,
    {
        let ghost before = items@;
        items.push(clone_value(&found[i]));
        assert(json_views(items@) == json_views(before).push(json_view(found@[i as int])));
        i += 1;
    }
    assert(json_views(found@).take(i as int) == json_views(found@));
    Some(items)
}

/// A web link, read from its object.
pub open spec fn link_of(json: Json) -> Option<LinkView> {
    let value = optional_text(json, "value"@);
    let rel = optional_text(json, "rel"@);
    let href = required_text(json, "href"@);
    let hreflang = optional_text(json, "hreflang"@);
    let title = optional_text(json, "title"@);
    let link_type = optional_text(json, "type"@);
    if value is Some && rel is Some && href is Some && hreflang is Some && title is Some && link_type is Some {
        Some(LinkView {
            value: value->0,
            rel: rel->0,
            href: href->0,
            hreflang: hreflang->0,
            title: title->0,
            link_type: link_type->0,
        })
    } else {
        None
    }
}

/// The links of an array.
pub open spec fn links_of(json: Json) -> Option<Seq<LinkView>> {
    match json {
        Json::Array(items) => if forall|i: int|
            0 <= i < items.len() ==> link_of(#[trigger] items[i]) is Some {
            Some(Seq::new(items.len(), |i: int| link_of(items[i])->0))
        } else {
            None
        },
        _ => None,
    }
}

/// An event, read from its object.
pub open spec fn event_of(json: Json) -> Option<EventView> {
    let action = required_text(json, "eventAction"@);
    let actor = optional_text(json, "eventActor"@);
    let date = required_text(json, "eventDate"@);
    let links = optional(present(json, "links"@), links_of(present(json, "links"@)->0));
    if action is Some && actor is Some && date is Some && links is Some {
        Some(EventView {
            action: action->0,
            actor: actor->0,
            date: date->0,
            links: links->0,
        })
    } else {
        None
    }
}

/// The events of an array.
pub open spec fn events_of(json: Json) -> Option<Seq<EventView>> {
    match json {
        Json::Array(items) => if forall|i: int|
            0 <= i < items.len() ==> event_of(#[trigger] items[i]) is Some {
            Some(Seq::new(items.len(), |i: int| event_of(items[i])->0))
        } else {
            None
        },
        _ => None,
    }
}

/// A notice or a remark, read from its object.
pub open spec fn notice_of(json: Json) -> Option<NoticeView> {
    let title = optional_text(json, "title"@);
    let notice_type = optional_text(json, "type"@);
    let description = required_texts(json, "description"@);
    let links = optional(present(json, "links"@), links_of(present(json, "links"@)->0));
    if title is Some && notice_type is Some && description is Some && links is Some {
        Some(NoticeView {
            title: title->0,
            notice_type: notice_type->0,
            description: description->0,
            links: links->0,
        })
    } else {
        None
    }
}

/// The notices of an array.
pub open spec fn notices_of(json: Json) -> Option<Seq<NoticeView>> {
    match json {
        Json::Array(items) => if forall|i: int|
            0 <= i < items.len() ==> notice_of(#[trigger] items[i]) is Some {
            Some(Seq::new(items.len(), |i: int| notice_of(items[i])->0))
        } else {
            None
        },
        _ => None,
    }
}

/// A public identifier, read from its object.
pub open spec fn public_id_of(json: Json) -> Option<PublicIDView> {
    let id_type = required_text(json, "type"@);
    let identifier = required_text(json, "identifier"@);
    if id_type is Some && identifier is Some {
        Some(PublicIDView {
            id_type: id_type->0,
            identifier: identifier->0,
        })
    } else {
        None
    }
}

/// The public identifiers of an array.
pub open spec fn public_ids_of(json: Json) -> Option<Seq<PublicIDView>> {
    match json {
        Json::Array(items) => if forall|i: int|
            0 <= i < items.len() ==> public_id_of(#[trigger] items[i]) is Some {
            Some(Seq::new(items.len(), |i: int| public_id_of(items[i])->0))
        } else {
            None
        },
        _ => None,
    }
}

/// An entity, read from its object.
pub open spec fn entity_of(json: Json) -> Option<EntityView> {
    let entity_type = optional(present(json, "objectClassType"@), class_of(present(json, "objectClassType"@)->0));
    let handle = required_text(json, "handle"@);
    let vcard_array = optional(present(json, "vcardArray"@), items_of(present(json, "vcardArray"@)->0));
    let roles = required_texts(json, "roles"@);
    let links = optional(present(json, "links"@), links_of(present(json, "links"@)->0));
    let events = optional(present(json, "events"@), events_of(present(json, "events"@)->0));
    let status = optional_texts(json, "status"@);
    let port43 = optional_text(json, "port43"@);
    if entity_type is Some && handle is Some && vcard_array is Some && roles is Some && links is Some && events is Some && status is Some && port43 is Some {
        Some(EntityView {
            entity_type: entity_type->0,
            handle: handle->0,
            vcard_array: vcard_array->0,
            roles: roles->0,
            links: links->0,
            events: events->0,
            status: status->0,
            port43: port43->0,
        })
    } else {
        None
    }
}

/// The entities of an array.
pub open spec fn entities_of(json: Json) -> Option<Seq<EntityView>> {
    match json {
        Json::Array(items) => if forall|i: int|
            0 <= i < items.len() ==> entity_of(#[trigger] items[i]) is Some {
            Some(Seq::new(items.len(), |i: int| entity_of(items[i])->0))
        } else {
            None
        },
        _ => None,
    }
}

/// A name server, read from its object.
pub open spec fn nameserver_of(json: Json) -> Option<NameserverView> {
    let ldh_name = required_text(json, "ldhName"@);
    let nameserver_type = required(member(json, "objectClassName"@), class_of(member(json, "objectClassName"@)->0));
    if ldh_name is Some && nameserver_type is Some {
        Some(NameserverView {
            ldh_name: ldh_name->0,
            nameserver_type: nameserver_type->0,
        })
    } else {
        None
    }
}

/// The name servers of an array.
pub open spec fn nameservers_of(json: Json) -> Option<Seq<NameserverView>> {
    match json {
        Json::Array(items) => if forall|i: int|
            0 <= i < items.len() ==> nameserver_of(#[trigger] items[i]) is Some {
            Some(Seq::new(items.len(), |i: int| nameserver_of(items[i])->0))
        } else {
            None
        },
        _ => None,
    }
}

/// Reads the object class that an object must hold under `key`.
pub fn read_required_class(value: &serde_json::Value, key: &str) -> (class: Option<
    ObjectClassType,
>)
    ensures
        class == required(
            member(json_view(*value), key@),
            class_of(member(json_view(*value), key@)->0),
        ),
{
    match get_member(value, key) {
        Some(inner) => ObjectClassType::from_json(inner),
        None => None,
    }
}

/// Reads the object class that an object may hold under `key`.
pub fn read_optional_class(value: &serde_json::Value, key: &str) -> (class: Option<
    Option<ObjectClassType>,
>)
    ensures
        class == optional(
            present(json_view(*value), key@),
            class_of(present(json_view(*value), key@)->0),
        ),
{
    match get_present(value, key) {
        Some(inner) => match ObjectClassType::from_json(inner) {
            Some(class) => Some(Some(class)),
            None => None,
        },
        None => Some(None),
    }
}

/// Reads the IP version that an object may hold under `key`.
pub fn read_optional_version(value: &serde_json::Value, key: &str) -> (version: Option<
    Option<IpVersion>,
>)
    ensures
        version == optional(
            present(json_view(*value), key@),
            version_of(present(json_view(*value), key@)->0),
        ),
{
    match get_present(value, key) {
        Some(inner) => match IpVersion::from_json(inner) {
            Some(version) => Some(Some(version)),
            None => None,
        },
        None => Some(None),
    }
}

/// Reads the array that an object may hold under `key`, each item as it is.
pub fn read_optional_items(value: &serde_json::Value, key: &str) -> (items: Option<
    Option<Vec<serde_json::Value>>,
>)
    ensures
        match items {
            Some(Some(items)) => optional(
                present(json_view(*value), key@),
                items_of(present(json_view(*value), key@)->0),
            ) == Some(Some(json_views(items@))),
            Some(None) => optional(
                present(json_view(*value), key@),
                items_of(present(json_view(*value), key@)->0),
            ) == Some(None::<Seq<Json>>),
            None => optional(
                present(json_view(*value), key@),
                items_of(present(json_view(*value), key@)->0),
            ) is None,
        },
{
    match get_present(value, key) {
        Some(inner) => match read_items(inner) {
            Some(items) => Some(Some(items)),
            None => None,
        },
        None => Some(None),
    }
}

impl Link {
    pub fn from_json(source: &serde_json::Value) -> (read: Option<Link>)
        ensures
            read.deep_view() == link_of(json_view(*source)),
    {
        let value = read_optional_text(source, "value")?;
        let rel = read_optional_text(source, "rel")?;
        let href = read_required_text(source, "href")?;
        let hreflang = read_optional_text(source, "hreflang")?;
        let title = read_optional_text(source, "title")?;
        let link_type = read_optional_text(source, "type")?;
        Some(Link { value, rel, href, hreflang, title, link_type })
    }
}

/// Reads an array of links.
pub fn read_links(value: &serde_json::Value) -> (links: Option<Vec<Link>>)
    ensures
        links.deep_view() == links_of(json_view(*value)),
{
    let items = match as_items(value) {
        Some(items) => items,
        None => {
            return None;
        },
    };
    let ghost documents = json_views(items@);
    let mut links: Vec<Link> = Vec::new();
    let mut i: usize = 0;
    while i < items.len()
        invariant
            i <= items.len(),
            documents == json_views(items@),
            json_view(*value) == Json::Array(documents),
            links@.len() == i,
            forall|j: int|
                0 <= j < i ==> link_of(#[trigger] documents[j]) == Some(links@[j].deep_view()),
        decreases items.len() - i,
    {
        assert(documents[i as int] == json_view(items@[i as int]));
        match Link::from_json(&items[i]) {
            Some(item) => {
                links.push(item);
            },
            None => {
                assert(link_of(documents[i as int]) is None);
                return None;
            },
        }
        i += 1;
    }
    assert(links.deep_view() == Seq::new(documents.len(), |i: int| link_of(documents[i])->0));
    Some(links)
}

/// Reads the links that an object may hold under `key`.
pub fn read_optional_links(value: &serde_json::Value, key: &str) -> (found: Option<Option<Vec<Link>>>)
    ensures
        found.deep_view() == optional(
            present(json_view(*value), key@),
            links_of(present(json_view(*value), key@)->0),
        ),
{
    match get_present(value, key) {
        Some(inner) => match read_links(inner) {
            Some(read) => Some(Some(read)),
            None => None,
        },
        None => Some(None),
    }
}

impl Event {
    pub fn from_json(source: &serde_json::Value) -> (read: Option<Event>)
        ensures
            read.deep_view() == event_of(json_view(*source)),
    {
        let action = read_required_text(source, "eventAction")?;
        let actor = read_optional_text(source, "eventActor")?;
        let date = read_required_text(source, "eventDate")?;
        let links = read_optional_links(source, "links")?;
        Some(Event { action, actor, date, links })
    }
}

/// Reads an array of events.
pub fn read_events(value: &serde_json::Value) -> (events: Option<Vec<Event>>)
    ensures
        events.deep_view() == events_of(json_view(*value)),
{
    let items = match as_items(value) {
        Some(items) => items,
        None => {
            return None;
        },
    };
    let ghost documents = json_views(items@);
    let mut events: Vec<Event> = Vec::new();
    let mut i: usize = 0;
    while i < items.len()
        invariant
            i <= items.len(),
            documents == json_views(items@),
            json_view(*value) == Json::Array(documents),
            events@.len() == i,
            forall|j: int|
                0 <= j < i ==> event_of(#[trigger] documents[j]) == Some(events@[j].deep_view()),
        decreases items.len() - i,
    {
        assert(documents[i as int] == json_view(items@[i as int]));
        match Event::from_json(&items[i]) {
            Some(item) => {
                events.push(item);
            },
            None => {
                assert(event_of(documents[i as int]) is None);
                return None;
            },
        }
        i += 1;
    }
    assert(events.deep_view() == Seq::new(documents.len(), |i: int| event_of(documents[i])->0));
    Some(events)
}

/// Reads the events that an object may hold under `key`.
pub fn read_optional_events(value: &serde_json::Value, key: &str) -> (found: Option<Option<Vec<Event>>>)
    ensures
        found.deep_view() == optional(
            present(json_view(*value), key@),
            events_of(present(json_view(*value), key@)->0),
        ),
{
    match get_present(value, key) {
        Some(inner) => match read_events(inner) {
            Some(read) => Some(Some(read)),
            None => None,
        },
        None => Some(None),
    }
}

/// Reads the events that an object must hold under `key`.
pub fn read_required_events(value: &serde_json::Value, key: &str) -> (found: Option<Vec<Event>>)
    ensures
        found.deep_view() == required(
            member(json_view(*value), key@),
            events_of(member(json_view(*value), key@)->0),
        ),
{
    match get_member(value, key) {
        Some(inner) => read_events(inner),
        None => None,
    }
}

impl Notice {
    pub fn from_json(source: &serde_json::Value) -> (read: Option<Notice>)
        ensures
            read.deep_view() == notice_of(json_view(*source)),
    {
        let title = read_optional_text(source, "title")?;
        let notice_type = read_optional_text(source, "type")?;
        let description = read_required_texts(source, "description")?;
        let links = read_optional_links(source, "links")?;
        Some(Notice { title, notice_type, description, links })
    }
}

/// Reads an array of notices.
pub fn read_notices(value: &serde_json::Value) -> (notices: Option<Vec<Notice>>)
    ensures
        notices.deep_view() == notices_of(json_view(*value)),
{
    let items = match as_items(value) {
        Some(items) => items,
        None => {
            return None;
        },
    };
    let ghost documents = json_views(items@);
    let mut notices: Vec<Notice> = Vec::new();
    let mut i: usize = 0;
    while i < items.len()
        invariant
            i <= items.len(),
            documents == json_views(items@),
            json_view(*value) == Json::Array(documents),
            notices@.len() == i,
            forall|j: int|
                0 <= j < i ==> notice_of(#[trigger] documents[j]) == Some(notices@[j].deep_view()),
        decreases items.len() - i,
    {
        assert(documents[i as int] == json_view(items@[i as int]));
        match Notice::from_json(&items[i]) {
            Some(item) => {
                notices.push(item);
            },
            None => {
                assert(notice_of(documents[i as int]) is None);
                return None;
            },
        }
        i += 1;
    }
    assert(notices.deep_view() == Seq::new(documents.len(), |i: int| notice_of(documents[i])->0));
    Some(notices)
}

/// Reads the notices that an object must hold under `key`.
pub fn read_required_notices(value: &serde_json::Value, key: &str) -> (found: Option<Vec<Notice>>)
    ensures
        found.deep_view() == required(
            member(json_view(*value), key@),
            notices_of(member(json_view(*value), key@)->0),
        ),
{
    match get_member(value, key) {
        Some(inner) => read_notices(inner),
        None => None,
    }
}

impl PublicID {
    pub fn from_json(source: &serde_json::Value) -> (read: Option<PublicID>)
        ensures
            read.deep_view() == public_id_of(json_view(*source)),
    {
        let id_type = read_required_text(source, "type")?;
        let identifier = read_required_text(source, "identifier")?;
        Some(PublicID { id_type, identifier })
    }
}

/// Reads an array of public identifiers.
pub fn read_public_ids(value: &serde_json::Value) -> (identifiers: Option<Vec<PublicID>>)
    ensures
        identifiers.deep_view() == public_ids_of(json_view(*value)),
{
    let items = match as_items(value) {
        Some(items) => items,
        None => {
            return None;
        },
    };
    let ghost documents = json_views(items@);
    let mut identifiers: Vec<PublicID> = Vec::new();
    let mut i: usize = 0;
    while i < items.len()
        invariant
            i <= items.len(),
            documents == json_views(items@),
            json_view(*value) == Json::Array(documents),
            identifiers@.len() == i,
            forall|j: int|
                0 <= j < i ==> public_id_of(#[trigger] documents[j]) == Some(identifiers@[j].deep_view()),
        decreases items.len() - i,
    {
        assert(documents[i as int] == json_view(items@[i as int]));
        match PublicID::from_json(&items[i]) {
            Some(item) => {
                identifiers.push(item);
            },
            None => {
                assert(public_id_of(documents[i as int]) is None);
                return None;
            },
        }
        i += 1;
    }
    assert(identifiers.deep_view() == Seq::new(documents.len(), |i: int| public_id_of(documents[i])->0));
    Some(identifiers)
}

/// Reads the public identifiers that an object may hold under `key`.
pub fn read_optional_public_ids(value: &serde_json::Value, key: &str) -> (found: Option<Option<Vec<PublicID>>>)
    ensures
        found.deep_view() == optional(
            present(json_view(*value), key@),
            public_ids_of(present(json_view(*value), key@)->0),
        ),
{
    match get_present(value, key) {
        Some(inner) => match read_public_ids(inner) {
            Some(read) => Some(Some(read)),
            None => None,
        },
        None => Some(None),
    }
}

impl Entity {
    pub fn from_json(source: &serde_json::Value) -> (read: Option<Entity>)
        ensures
            read.deep_view() == entity_of(json_view(*source)),
    {
        let entity_type = read_optional_class(source, "objectClassType")?;
        let handle = read_required_text(source, "handle")?;
        let vcard_array = read_optional_items(source, "vcardArray")?;
        let roles = read_required_texts(source, "roles")?;
        let links = read_optional_links(source, "links")?;
        let events = read_optional_events(source, "events")?;
        let status = read_optional_texts(source, "status")?;
        let port43 = read_optional_text(source, "port43")?;
        Some(Entity { entity_type, handle, vcard_array, roles, links, events, status, port43 })
    }
}

/// Reads an array of entities.
pub fn read_entities(value: &serde_json::Value) -> (entities: Option<Vec<Entity>>)
    ensures
        entities.deep_view() == entities_of(json_view(*value)),
{
    let items = match as_items(value) {
        Some(items) => items,
        None => {
            return None;
        },
    };
    let ghost documents = json_views(items@);
    let mut entities: Vec<Entity> = Vec::new();
    let mut i: usize = 0;
    while i < items.len()
        invariant
            i <= items.len(),
            documents == json_views(items@),
            json_view(*value) == Json::Array(documents),
            entities@.len() == i,
            forall|j: int|
                0 <= j < i ==> entity_of(#[trigger] documents[j]) == Some(entities@[j].deep_view()),
        decreases items.len() - i,
    {
        assert(documents[i as int] == json_view(items@[i as int]));
        match Entity::from_json(&items[i]) {
            Some(item) => {
                entities.push(item);
            },
            None => {
                assert(entity_of(documents[i as int]) is None);
                return None;
            },
        }
        i += 1;
    }
    assert(entities.deep_view() == Seq::new(documents.len(), |i: int| entity_of(documents[i])->0));
    Some(entities)
}

/// Reads the entities that an object must hold under `key`.
pub fn read_required_entities(value: &serde_json::Value, key: &str) -> (found: Option<Vec<Entity>>)
    ensures
        found.deep_view() == required(
            member(json_view(*value), key@),
            entities_of(member(json_view(*value), key@)->0),
        ),
{
    match get_member(value, key) {
        Some(inner) => read_entities(inner),
        None => None,
    }
}

impl Nameserver {
    pub fn from_json(source: &serde_json::Value) -> (read: Option<Nameserver>)
        ensures
            read.deep_view() == nameserver_of(json_view(*source)),
    {
        let ldh_name = read_required_text(source, "ldhName")?;
        let nameserver_type = read_required_class(source, "objectClassName")?;
        Some(Nameserver { ldh_name, nameserver_type })
    }
}

/// Reads an array of name servers.
pub fn read_nameservers(value: &serde_json::Value) -> (nameservers: Option<Vec<Nameserver>>)
    ensures
        nameservers.deep_view() == nameservers_of(json_view(*value)),
{
    let items = match as_items(value) {
        Some(items) => items,
        None => {
            return None;
        },
    };
    let ghost documents = json_views(items@);
    let mut nameservers: Vec<Nameserver> = Vec::new();
    let mut i: usize = 0;
    while i < items.len()
        invariant
            i <= items.len(),
            documents == json_views(items@),
            json_view(*value) == Json::Array(documents),
            nameservers@.len() == i,
            forall|j: int|
                0 <= j < i ==> nameserver_of(#[trigger] documents[j]) == Some(nameservers@[j].deep_view()),
        decreases items.len() - i,
    {
        assert(documents[i as int] == json_view(items@[i as int]));
        match Nameserver::from_json(&items[i]) {
            Some(item) => {
                nameservers.push(item);
            },
            None => {
                assert(nameserver_of(documents[i as int]) is None);
                return None;
            },
        }
        i += 1;
    }
    assert(nameservers.deep_view() == Seq::new(documents.len(), |i: int| nameserver_of(documents[i])->0));
    Some(nameservers)
}

/// Reads the name servers that an object may hold under `key`.
pub fn read_optional_nameservers(value: &serde_json::Value, key: &str) -> (found: Option<Option<Vec<Nameserver>>>)
    ensures
        found.deep_view() == optional(
            present(json_view(*value), key@),
            nameservers_of(present(json_view(*value), key@)->0),
        ),
{
    match get_present(value, key) {
        Some(inner) => match read_nameservers(inner) {
            Some(read) => Some(Some(read)),
            None => None,
        },
        None => Some(None),
    }
}

/// A registry record, read from its object; the record nested under `network` is read by
/// the same rules.
pub open spec fn record_of(json: Json) -> Option<RegistryRecordView>
    decreases json,
{
    let rdap_conformance = optional_texts(json, "rdapConformance"@);
    let notices = required(member(json, "notices"@), notices_of(member(json, "notices"@)->0));
    let lang = optional_text(json, "lang"@);
    let network = match present(json, "network"@) {
        Some(inner) => match record_of(inner) {
            Some(record) => Some(Some(Box::new(record))),
            None => None,
        },
        None => Some(None),
    };
    let record_type = required(member(json, "objectClassName"@), class_of(member(json, "objectClassName"@)->0));
    let start_address = optional_text(json, "startAddress"@);
    let end_address = optional_text(json, "endAddress"@);
    let handle = required_text(json, "handle"@);
    let ldh_name = optional_text(json, "ldhName"@);
    let nameservers = optional(present(json, "nameServers"@), nameservers_of(present(json, "nameServers"@)->0));
    let start_autnum = optional_unsigned(json, "startAutnum"@);
    let end_autnum = optional_unsigned(json, "endAutnum"@);
    let ip_version = optional(present(json, "ipVersion"@), version_of(present(json, "ipVersion"@)->0));
    let name = optional_text(json, "name"@);
    let parent_handle = optional_text(json, "parentHandle"@);
    let remarks = required(member(json, "remarks"@), notices_of(member(json, "remarks"@)->0));
    let events = required(member(json, "events"@), events_of(member(json, "events"@)->0));
    let country = optional_text(json, "country"@);
    let public_ids = optional(present(json, "publicIds"@), public_ids_of(present(json, "publicIds"@)->0));
    let entities = required(member(json, "entities"@), entities_of(member(json, "entities"@)->0));
    let port43 = optional_text(json, "port43"@);
    if rdap_conformance is Some
        && notices is Some
        && lang is Some
        && network is Some
        && record_type is Some
        && start_address is Some
        && end_address is Some
        && handle is Some
        && ldh_name is Some
        && nameservers is Some
        && start_autnum is Some
        && end_autnum is Some
        && ip_version is Some
        && name is Some
        && parent_handle is Some
        && remarks is Some
        && events is Some
        && country is Some
        && public_ids is Some
        && entities is Some
        && port43 is Some {
        Some(RegistryRecordView {
            rdap_conformance: rdap_conformance->0,
            notices: notices->0,
            lang: lang->0,
            network: network->0,
            record_type: record_type->0,
            start_address: start_address->0,
            end_address: end_address->0,
            handle: handle->0,
            ldh_name: ldh_name->0,
            nameservers: nameservers->0,
            start_autnum: start_autnum->0,
            end_autnum: end_autnum->0,
            ip_version: ip_version->0,
            name: name->0,
            parent_handle: parent_handle->0,
            remarks: remarks->0,
            events: events->0,
            country: country->0,
            public_ids: public_ids->0,
            entities: entities->0,
            port43: port43->0,
        })
    } else {
        None
    }
}

impl RegistryRecord {
    pub fn from_json(source: &serde_json::Value) -> (read: Option<RegistryRecord>)
        ensures
            read.deep_view() == record_of(json_view(*source)),
        decreases json_view(*source),
    {
        let rdap_conformance = read_optional_texts(source, "rdapConformance")?;
        let notices = read_required_notices(source, "notices")?;
        let lang = read_optional_text(source, "lang")?;
        let network = match get_present(source, "network") {
            Some(inner) => Some(Box::new(RegistryRecord::from_json(inner)?)),
            None => None,
        };
        let record_type = read_required_class(source, "objectClassName")?;
        let start_address = read_optional_text(source, "startAddress")?;
        let end_address = read_optional_text(source, "endAddress")?;
        let handle = read_required_text(source, "handle")?;
        let ldh_name = read_optional_text(source, "ldhName")?;
        let nameservers = read_optional_nameservers(source, "nameServers")?;
        let start_autnum = read_optional_unsigned(source, "startAutnum")?;
        let end_autnum = read_optional_unsigned(source, "endAutnum")?;
        let ip_version = read_optional_version(source, "ipVersion")?;
        let name = read_optional_text(source, "name")?;
        let parent_handle = read_optional_text(source, "parentHandle")?;
        let remarks = read_required_notices(source, "remarks")?;
        let events = read_required_events(source, "events")?;
        let country = read_optional_text(source, "country")?;
        let public_ids = read_optional_public_ids(source, "publicIds")?;
        let entities = read_required_entities(source, "entities")?;
        let port43 = read_optional_text(source, "port43")?;
        Some(RegistryRecord {
            rdap_conformance,
            notices,
            lang,
            network,
            record_type,
            start_address,
            end_address,
            handle,
            ldh_name,
            nameservers,
            start_autnum,
            end_autnum,
            ip_version,
            name,
            parent_handle,
            remarks,
            events,
            country,
            public_ids,
            entities,
            port43,
        })
    }
}

} // verus!
