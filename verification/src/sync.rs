//! The client of a registry: where a lookup is sent, and how the answer is read.

use vstd::prelude::*;
use vstd::string::StringExecFns;
use crate::decode::record_of;
use crate::domain::{normalized, resolved_country, Domain, DomainView};
use crate::json::{json_document, json_view, parse_document, Json};
use crate::model::{ObjectClassType, RegistryRecord, RegistryRecordView};
use crate::result::{outcome, Error};

verus! {

/// The paths under which a registry serves each kind of query.
pub struct Endpoints {
    pub domain: String,
    pub autnum: String,
}

pub struct EndpointsView {
    pub domain: Seq<char>,
    pub autnum: Seq<char>,
}

impl DeepView for Endpoints {
    type V = EndpointsView;

    open spec fn deep_view(&self) -> EndpointsView {
        EndpointsView { domain: self.domain@, autnum: self.autnum@ }
    }
}

/// A registry to query: its host and its endpoints.
pub struct Registry {
    domain: String,
    endpoints: Endpoints,
}

pub struct RegistryView {
    pub host: Seq<char>,
    pub endpoints: EndpointsView,
}

impl DeepView for Registry {
    type V = RegistryView;

    closed spec fn deep_view(&self) -> RegistryView {
        RegistryView { host: self.domain@, endpoints: self.endpoints.deep_view() }
    }
}

/// The address that a domain lookup is sent to.
pub open spec fn domain_url_of(registry: RegistryView, name: Seq<char>) -> Seq<char> {
    "https://"@ + registry.host + registry.endpoints.domain + "/"@ + name
}

impl Registry {
    pub fn connect(domain: &str, endpoints: Endpoints) -> (registry: Registry)
        ensures
            registry.deep_view() == (RegistryView {
                host: domain@,
                endpoints: endpoints.deep_view(),
            }),
    {
        Registry { domain: domain.to_owned(), endpoints }
    }

    /// The registry of the RIPE NCC.
    pub fn ripe() -> (registry: Registry)
        ensures
            registry.deep_view() == (RegistryView {
                host: "rdap.db.ripe.net"@,
                endpoints: EndpointsView { domain: "/domain"@, autnum: "/autnum"@ },
            }),
    {
        Registry::connect(
            "rdap.db.ripe.net",
            Endpoints { domain: "/domain".to_owned(), autnum: "/autnum".to_owned() },
        )
    }

    /// The address to fetch for a lookup of `domain_name`.
    pub fn domain_url(&self, domain_name: &str) -> (url: String)
        ensures
            url@ == domain_url_of(self.deep_view(), domain_name@),
    {
        let mut url = "https://".to_owned();
        url.append(self.domain.as_str());
        url.append(self.endpoints.domain.as_str());
        url.append("/");
        url.append(domain_name);
        url
    }
}

/// The domain that a decoded record describes: a record of another class describes none.
pub open spec fn domain_of_record(record: RegistryRecordView) -> Result<DomainView, Error> {
    if record.record_type == ObjectClassType::Domain {
        normalized(record, resolved_country(record))
    } else {
        Err(Error::NotDomain)
    }
}

/// The domain that a JSON document describes: the document must be a record.
pub open spec fn domain_of_document(document: Json) -> Result<DomainView, Error> {
    match record_of(document) {
        Some(record) => domain_of_record(record),
        None => Err(Error::Decode),
    }
}

/// The domain that the body of an answer describes: the body must be a JSON document.
pub open spec fn domain_of_response(body: Seq<u8>) -> Result<DomainView, Error> {
    match json_document(body) {
        Some(document) => domain_of_document(document),
        None => Err(Error::Decode),
    }
}

/// Reads a decoded record as a domain. A record whose class is not `domain` is refused
/// before anything is made of it.
pub fn domain_from_record(record: RegistryRecord) -> (domain: Result<Domain, Error>)
    ensures
        outcome(domain) == domain_of_record(record.deep_view()),
        record.record_type != ObjectClassType::Domain ==> domain == Err::<Domain, Error>(
            Error::NotDomain,
        ),
        domain matches Ok(found) ==> found.deep_view().wf(),
{
    if record.record_type == ObjectClassType::Domain {
        Domain::from(record)
    } else {
        Err(Error::NotDomain)
    }
}

/// Reads a JSON document as the record of a domain.
pub fn domain_from_document(document: &serde_json::Value) -> (domain: Result<Domain, Error>)
    ensures
        outcome(domain) == domain_of_document(json_view(*document)),
        domain matches Ok(found) ==> found.deep_view().wf(),
{
    match RegistryRecord::from_json(document) {
        Some(record) => domain_from_record(record),
        None => Err(Error::Decode),
    }
}

/// Reads the body of a registry's answer to a domain lookup.
pub fn domain_from_response(body: &[u8]) -> (domain: Result<Domain, Error>)
    ensures
        outcome(domain) == domain_of_response(body@),
        domain matches Ok(found) ==> found.deep_view().wf(),
{
    match parse_document(body) {
        Some(document) => domain_from_document(&document),
        None => Err(Error::Decode),
    }
}

} // verus!
