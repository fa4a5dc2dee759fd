//! The wire model of RFC 7483: the records that a registry answers with, and how each of them
//! is read from a JSON document.

use vstd::prelude::*;
use crate::json::{json_view, Json};

verus! {

pub type Links = Vec<Link>;

pub type Events = Vec<Event>;

pub type Notices = Vec<Notice>;

pub type PublicIDs = Vec<PublicID>;

/// A web link (section 4.2). Only `href` is always there.
#[derive(Debug, Clone)]
pub struct Link {
    pub value: Option<String>,
    pub rel: Option<String>,
    pub href: String,
    pub hreflang: Option<String>,
    pub title: Option<String>,
    pub link_type: Option<String>,
}

pub struct LinkView {
    pub value: Option<Seq<char>>,
    pub rel: Option<Seq<char>>,
    pub href: Seq<char>,
    pub hreflang: Option<Seq<char>>,
    pub title: Option<Seq<char>>,
    pub link_type: Option<Seq<char>>,
}

impl DeepView for Link {
    type V = LinkView;

    open spec fn deep_view(&self) -> LinkView {
        LinkView {
            value: self.value.deep_view(),
            rel: self.rel.deep_view(),
            href: self.href.deep_view(),
            hreflang: self.hreflang.deep_view(),
            title: self.title.deep_view(),
            link_type: self.link_type.deep_view(),
        }
    }
}

/// Something that happened to an object (section 4.5).
#[derive(Debug, Clone)]
pub struct Event {
    /// Why the event happened.
    pub action: String,
    /// Who is responsible for it.
    pub actor: Option<String>,
    /// When it happened.
    pub date: String,
    pub links: Option<Links>,
}

pub struct EventView {
    pub action: Seq<char>,
    pub actor: Option<Seq<char>>,
    pub date: Seq<char>,
    pub links: Option<Seq<LinkView>>,
}

impl DeepView for Event {
    type V = EventView;

    open spec fn deep_view(&self) -> EventView {
        EventView {
            action: self.action.deep_view(),
            actor: self.actor.deep_view(),
            date: self.date.deep_view(),
            links: self.links.deep_view(),
        }
    }
}

/// The class of an object (section 5): it tells which members a record carries.
#[derive(Debug, Clone, Copy, PartialEq, Eq, PartialOrd, Ord, Structural)]
pub enum ObjectClassType {
    Domain,
    IpNetwork,
    AutonomousSystem,
    Entity,
    Nameserver,
}

impl DeepView for ObjectClassType {
    type V = ObjectClassType;

    open spec fn deep_view(&self) -> ObjectClassType {
        *self
    }
}

#[derive(Debug, Clone)]
pub struct Notice {
    pub title: Option<String>,
    pub notice_type: Option<String>,
    pub description: Vec<String>,
    pub links: Option<Links>,
}

pub struct NoticeView {
    pub title: Option<Seq<char>>,
    pub notice_type: Option<Seq<char>>,
    pub description: Seq<Seq<char>>,
    pub links: Option<Seq<LinkView>>,
}

impl DeepView for Notice {
    type V = NoticeView;

    open spec fn deep_view(&self) -> NoticeView {
        NoticeView {
            title: self.title.deep_view(),
            notice_type: self.notice_type.deep_view(),
            description: self.description.deep_view(),
            links: self.links.deep_view(),
        }
    }
}

#[derive(Debug, Clone)]
pub struct PublicID {
    pub id_type: String,
    pub identifier: String,
}

pub struct PublicIDView {
    pub id_type: Seq<char>,
    pub identifier: Seq<char>,
}

impl DeepView for PublicID {
    type V = PublicIDView;

    open spec fn deep_view(&self) -> PublicIDView {
        PublicIDView {
            id_type: self.id_type.deep_view(),
            identifier: self.identifier.deep_view(),
        }
    }
}

#[derive(Debug, Clone, Copy, PartialEq, Eq, Structural)]
pub enum IpVersion {
    V4,
    V6,
}

impl DeepView for IpVersion {
    type V = IpVersion;

    open spec fn deep_view(&self) -> IpVersion {
        *self
    }
}

#[derive(Debug, Clone)]
pub struct Entity {
    pub entity_type: Option<ObjectClassType>,
    pub handle: String,
    /// The contact card, kept as the registry sent it.
    pub vcard_array: Option<Vec<serde_json::Value>>,
    pub roles: Vec<String>,
    pub links: Option<Links>,
    pub events: Option<Events>,
    pub status: Option<Vec<String>>,
    pub port43: Option<String>,
}

pub struct EntityView {
    pub entity_type: Option<ObjectClassType>,
    pub handle: Seq<char>,
    pub vcard_array: Option<Seq<Json>>,
    pub roles: Seq<Seq<char>>,
    pub links: Option<Seq<LinkView>>,
    pub events: Option<Seq<EventView>>,
    pub status: Option<Seq<Seq<char>>>,
    pub port43: Option<Seq<char>>,
}

impl DeepView for Entity {
    type V = EntityView;

    open spec fn deep_view(&self) -> EntityView {
        EntityView {
            entity_type: self.entity_type,
            handle: self.handle.deep_view(),
            vcard_array: match self.vcard_array {
                Some(card) => Some(card@.map_values(|item: serde_json::Value| json_view(item))),
                None => None,
            },
            roles: self.roles.deep_view(),
            links: self.links.deep_view(),
            events: self.events.deep_view(),
            status: self.status.deep_view(),
            port43: self.port43.deep_view(),
        }
    }
}

#[derive(Debug, Clone)]
pub struct Nameserver {
    pub ldh_name: String,
    pub nameserver_type: ObjectClassType,
}

pub struct NameserverView {
    pub ldh_name: Seq<char>,
    pub nameserver_type: ObjectClassType,
}

impl DeepView for Nameserver {
    type V = NameserverView;

    open spec fn deep_view(&self) -> NameserverView {
        NameserverView {
            ldh_name: self.ldh_name.deep_view(),
            nameserver_type: self.nameserver_type,
        }
    }
}

/// What a registry answers with; `network` holds a record of the same kind.
#[derive(Debug)]
pub struct RegistryRecord {
    /// Hints at the specifications that the answer follows (section 4.1).
    pub rdap_conformance: Option<Vec<String>>,
    pub notices: Notices,
    pub lang: Option<String>,
    pub network: Option<Box<RegistryRecord>>,
    pub record_type: ObjectClassType,
    pub start_address: Option<String>,
    pub end_address: Option<String>,
    pub handle: String,
    pub ldh_name: Option<String>,
    pub nameservers: Option<Vec<Nameserver>>,
    pub start_autnum: Option<u32>,
    pub end_autnum: Option<u32>,
    pub ip_version: Option<IpVersion>,
    pub name: Option<String>,
    pub parent_handle: Option<String>,
    pub remarks: Vec<Notice>,
    pub events: Events,
    pub country: Option<String>,
    pub public_ids: Option<PublicIDs>,
    pub entities: Vec<Entity>,
    pub port43: Option<String>,
}

pub struct RegistryRecordView {
    pub rdap_conformance: Option<Seq<Seq<char>>>,
    pub notices: Seq<NoticeView>,
    pub lang: Option<Seq<char>>,
    pub network: Option<Box<RegistryRecordView>>,
    pub record_type: ObjectClassType,
    pub start_address: Option<Seq<char>>,
    pub end_address: Option<Seq<char>>,
    pub handle: Seq<char>,
    pub ldh_name: Option<Seq<char>>,
    pub nameservers: Option<Seq<NameserverView>>,
    pub start_autnum: Option<u32>,
    pub end_autnum: Option<u32>,
    pub ip_version: Option<IpVersion>,
    pub name: Option<Seq<char>>,
    pub parent_handle: Option<Seq<char>>,
    pub remarks: Seq<NoticeView>,
    pub events: Seq<EventView>,
    pub country: Option<Seq<char>>,
    pub public_ids: Option<Seq<PublicIDView>>,
    pub entities: Seq<EntityView>,
    pub port43: Option<Seq<char>>,
}

impl Clone for RegistryRecord {
    fn clone(&self) -> (copy: RegistryRecord)
        decreases self,
    {
        RegistryRecord {
            rdap_conformance: self.rdap_conformance.clone(),
            notices: self.notices.clone(),
            lang: self.lang.clone(),
            network: match &self.network {
                Some(inner) => Some(Box::new((**inner).clone())),
                None => None,
            },
            record_type: self.record_type,
            start_address: self.start_address.clone(),
            end_address: self.end_address.clone(),
            handle: self.handle.clone(),
            ldh_name: self.ldh_name.clone(),
            nameservers: self.nameservers.clone(),
            start_autnum: self.start_autnum,
            end_autnum: self.end_autnum,
            ip_version: self.ip_version,
            name: self.name.clone(),
            parent_handle: self.parent_handle.clone(),
            remarks: self.remarks.clone(),
            events: self.events.clone(),
            country: self.country.clone(),
            public_ids: self.public_ids.clone(),
            entities: self.entities.clone(),
            port43: self.port43.clone(),
        }
    }
}

/// The view of a record, with that of the record nested in it.
pub open spec fn record_view(record: RegistryRecord) -> RegistryRecordView
    decreases record,
{
    RegistryRecordView {
        rdap_conformance: record.rdap_conformance.deep_view(),
        notices: record.notices.deep_view(),
        lang: record.lang.deep_view(),
        network: match record.network {
            Some(inner) => Some(Box::new(record_view(*inner))),
            None => None,
        },
        record_type: record.record_type,
        start_address: record.start_address.deep_view(),
        end_address: record.end_address.deep_view(),
        handle: record.handle.deep_view(),
        ldh_name: record.ldh_name.deep_view(),
        nameservers: record.nameservers.deep_view(),
        start_autnum: record.start_autnum,
        end_autnum: record.end_autnum,
        ip_version: record.ip_version,
        name: record.name.deep_view(),
        parent_handle: record.parent_handle.deep_view(),
        remarks: record.remarks.deep_view(),
        events: record.events.deep_view(),
        country: record.country.deep_view(),
        public_ids: record.public_ids.deep_view(),
        entities: record.entities.deep_view(),
        port43: record.port43.deep_view(),
    }
}

impl DeepView for RegistryRecord {
    type V = RegistryRecordView;

    open spec fn deep_view(&self) -> RegistryRecordView {
        record_view(*self)
    }
}

} // verus!
