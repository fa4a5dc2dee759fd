//! The aggregate that describes a domain, and the reduction of a registry record to it.

use vstd::prelude::*;
use vstd::utf8::encode_utf8;
use crate::address::{address_of, parse_address, IpAddress};
use crate::model::{
    Entity, EntityView, Event, EventView, IpVersion, Nameserver, NameserverView, ObjectClassType,
    RegistryRecord, RegistryRecordView,
};
use crate::result::{outcome, Error};

verus! {

/// The English short name that ISO 3166-1 gives the country with this alpha-2 code, where it
/// lists the code.
pub uninterp spec fn country_name(code: Seq<char>) -> Option<Seq<char>>;

/// `iso3166_1::alpha2` walks the crate's table of countries for the entry whose alpha-2 code
/// equals `code`, letter for letter. This hands back the name of that entry, and `None` where
/// the table has no such entry: the answer depends on `code` alone.
#[verifier::external_body]
fn lookup_country_name(code: &str) -> (name: Option<String>)
    ensures
        name.deep_view() == country_name(code@),
{
    iso3166_1::alpha2(code).map(|country| country.name.to_string())
}

/// A country: its alpha-2 code and its name.
#[derive(Debug, Clone)]
pub struct Country {
    pub code: String,
    pub name: String,
}

pub struct CountryView {
    pub code: Seq<char>,
    pub name: Seq<char>,
}

impl CountryView {
    /// The name is the one on record for the code.
    pub open spec fn wf(self) -> bool {
        country_name(self.code) == Some(self.name)
    }
}

impl DeepView for Country {
    type V = CountryView;

    open spec fn deep_view(&self) -> CountryView {
        CountryView { code: self.code@, name: self.name@ }
    }
}

/// The country with the given code, once its name has been looked up.
pub open spec fn country_of(code: Seq<char>, name: Option<Seq<char>>) -> Result<
    CountryView,
    Error,
> {
    match name {
        Some(name) => Ok(CountryView { code, name }),
        None => Err(Error::UnknownCountry),
    }
}

impl Country {
    /// The country with the given code, where `name` is what the lookup of the code gave.
    pub fn resolved(code: &str, name: Option<String>) -> (country: Result<Country, Error>)
        ensures
            outcome(country) == country_of(code@, name.deep_view()),
    {
        match name {
            Some(name) => Ok(Country { code: code.to_owned(), name }),
            None => Err(Error::UnknownCountry),
        }
    }

    /// Looks the code up; an unknown code is an error.
    pub fn from_alpha2_code(code: &str) -> (country: Result<Country, Error>)
        ensures
            outcome(country) == country_of(code@, country_name(code@)),
            country matches Ok(known) ==> known.deep_view().wf(),
    {
        Country::resolved(code, lookup_country_name(code))
    }
}

/// The block of addresses that a domain belongs to.
#[derive(Debug, Clone)]
pub struct Network {
    pub start_address: IpAddress,
    pub end_address: IpAddress,
    pub ip_version: IpVersion,
    pub name: String,
}

pub struct NetworkView {
    pub start_address: IpAddress,
    pub end_address: IpAddress,
    pub ip_version: IpVersion,
    pub name: Seq<char>,
}

impl NetworkView {
    /// Both addresses are of the version that the block states.
    pub open spec fn wf(self) -> bool {
        self.start_address.version() == self.ip_version && self.end_address.version()
            == self.ip_version
    }
}

impl DeepView for Network {
    type V = NetworkView;

    open spec fn deep_view(&self) -> NetworkView {
        NetworkView {
            start_address: self.start_address,
            end_address: self.end_address,
            ip_version: self.ip_version,
            name: self.name@,
        }
    }
}

/// What a registry knows of a domain.
#[derive(Debug, Clone)]
pub struct Domain {
    /// The handle that the registry gave the record.
    pub name: String,
    pub country: Country,
    pub network: Network,
    /// The host names of the name servers, in the order of the record.
    pub nameservers: Vec<String>,
    pub events: Vec<Event>,
    pub entities: Vec<Entity>,
    /// The WHOIS server that the record refers to.
    pub rir_domain: String,
}

pub struct DomainView {
    pub name: Seq<char>,
    pub country: CountryView,
    pub network: NetworkView,
    pub nameservers: Seq<Seq<char>>,
    pub events: Seq<EventView>,
    pub entities: Seq<EntityView>,
    pub rir_domain: Seq<char>,
}

impl DomainView {
    pub open spec fn wf(self) -> bool {
        self.country.wf() && self.network.wf()
    }
}

impl DeepView for Domain {
    type V = DomainView;

    open spec fn deep_view(&self) -> DomainView {
        DomainView {
            name: self.name@,
            country: self.country.deep_view(),
            network: self.network.deep_view(),
            nameservers: self.nameservers.deep_view(),
            events: self.events.deep_view(),
            entities: self.entities.deep_view(),
            rir_domain: self.rir_domain@,
        }
    }
}

/// The address that `text` denotes as a literal of the given version, read as UTF-8.
pub open spec fn address_of_text(version: IpVersion, text: Seq<char>) -> Option<IpAddress> {
    address_of(version, encode_utf8(text))
}

/// Whether an entry of a record's name servers is of class `nameserver`.
pub open spec fn is_nameserver(entry: NameserverView) -> bool {
    entry.nameserver_type == ObjectClassType::Nameserver
}

/// The host names of the entries of class `nameserver`, in their order.
pub open spec fn hostnames(nameservers: Seq<NameserverView>) -> Seq<Seq<char>> {
    nameservers.filter(|entry: NameserverView| is_nameserver(entry)).map_values(
        |entry: NameserverView| entry.ldh_name,
    )
}

/// The network of a domain, from what the block nested in its record holds: the block must
/// state its version and hold both addresses as literals of that version.
pub open spec fn network_of(
    ip_version: Option<IpVersion>,
    start_address: Option<Seq<char>>,
    end_address: Option<Seq<char>>,
    name: Seq<char>,
) -> Option<NetworkView> {
    match (ip_version, start_address, end_address) {
        (Some(version), Some(start), Some(end)) => match (
            address_of_text(version, start),
            address_of_text(version, end),
        ) {
            (Some(start_address), Some(end_address)) => Some(
                NetworkView { start_address, end_address, ip_version: version, name },
            ),
            _ => None,
        },
        _ => None,
    }
}

/// The network that a block with a name describes.
pub open spec fn block_network(block: RegistryRecordView) -> Option<NetworkView> {
    network_of(block.ip_version, block.start_address, block.end_address, block.name->0)
}

/// What the lookup of the country of a record's network answers: nothing where the record
/// has no network, or the network names no country.
pub open spec fn resolved_country(record: RegistryRecordView) -> Option<Seq<char>> {
    match record.network {
        Some(block) => match block.country {
            Some(code) => country_name(code),
            None => None,
        },
        None => None,
    }
}

/// The domain that a record describes, where `country` is the name that the lookup gave for
/// the country code of the record's network.
///
/// The record must hold a network block with a name, else the network is missing. The block
/// must name a country that the lookup knew, else the country is unknown. It must state its
/// version and two literals of it, else an address is malformed. The record itself must list
/// its name servers and name its WHOIS server, else it does not conform.
pub open spec fn normalized(record: RegistryRecordView, country: Option<Seq<char>>) -> Result<
    DomainView,
    Error,
> {
    if record.network is None || record.network->0.name is None {
        Err(Error::MissingNetwork)
    } else {
        let block = *record.network->0;
        if block.country is None || country is None {
            Err(Error::UnknownCountry)
        } else if block_network(block) is None {
            Err(Error::MalformedAddress)
        } else if record.nameservers is None || record.port43 is None {
            Err(Error::Decode)
        } else {
            Ok(
                DomainView {
                    name: record.handle,
                    country: CountryView { code: block.country->0, name: country->0 },
                    network: block_network(block)->0,
                    nameservers: hostnames(record.nameservers->0),
                    events: record.events,
                    entities: record.entities,
                    rir_domain: record.port43->0,
                },
            )
        }
    }
}

/// Adding an entry to a list of name servers adds its host name where it is a name server,
/// and nothing otherwise.
pub proof fn lemma_hostnames_push(nameservers: Seq<NameserverView>, entry: NameserverView)
    ensures
        hostnames(nameservers.push(entry)) == if is_nameserver(entry) {
            hostnames(nameservers).push(entry.ldh_name)
        } else {
            hostnames(nameservers)
        },
{
    let wanted = |entry: NameserverView| is_nameserver(entry);
    nameservers.lemma_filter_push(entry, wanted);
    assert(nameservers.filter(wanted).push(entry).map_values(
        |entry: NameserverView| entry.ldh_name,
    ) == nameservers.filter(wanted).map_values(|entry: NameserverView| entry.ldh_name).push(
        entry.ldh_name,
    ));
}

/// Keeps the entries of class `nameserver` and hands out their host names.
pub fn nameserver_hostnames(nameservers: &Vec<Nameserver>) -> (names: Vec<String>)
    ensures
        names.deep_view() == hostnames(nameservers.deep_view()),
{
    let ghost all = nameservers.deep_view();
    let mut names: Vec<String> = Vec::new();
    let mut i: usize = 0;
    assert(all.take(0) == Seq::<NameserverView>::empty());
    assert(hostnames(all.take(0)) == Seq::<Seq<char>>::empty()) by {
        reveal(Seq::filter);
    }
    while i < nameservers.len()
        invariant
            i <= nameservers.len(),
            all == nameservers.deep_view(),
            names.deep_view() == hostnames(all.take(i as int)),
        decreases nameservers.len() - i,
    {
        let entry = &nameservers[i];
        proof {
            assert(all.take(i + 1) == all.take(i as int).push(entry.deep_view()));
            lemma_hostnames_push(all.take(i as int), entry.deep_view());
        }
        if entry.nameserver_type == ObjectClassType::Nameserver {
            let ghost before = names.deep_view();
            names.push(entry.ldh_name.clone());
            assert(names.deep_view() == before.push(entry.ldh_name@));
        }
        i += 1;
    }
    assert(all.take(i as int) == all);
    names
}

impl Network {
    /// The network with the given name, from the version and the two literals of a block.
    pub fn from_literals(
        ip_version: Option<IpVersion>,
        start_address: Option<String>,
        end_address: Option<String>,
        name: String,
    ) -> (network: Option<Network>)
        ensures
            network.deep_view() == network_of(
                ip_version,
                start_address.deep_view(),
                end_address.deep_view(),
                name@,
            ),
            network matches Some(found) ==> found.deep_view().wf(),
    {
        match (ip_version, start_address, end_address) {
            (Some(version), Some(start), Some(end)) => match (
                parse_address(version, start.as_str().as_bytes()),
                parse_address(version, end.as_str().as_bytes()),
            ) {
                (Some(start_address), Some(end_address)) => Some(
                    Network { start_address, end_address, ip_version: version, name },
                ),
                _ => None,
            },
            _ => None,
        }
    }
}

impl Domain {
    /// Reduces a record to the domain it describes, given the name that the lookup of the
    /// country code of its network gave.
    pub fn from_resolved(record: RegistryRecord, country: Option<String>) -> (domain: Result<
        Domain,
        Error,
    >)
        ensures
            outcome(domain) == normalized(record.deep_view(), country.deep_view()),
            domain matches Ok(found) ==> found.deep_view().network.wf(),
    {
        let ghost whole = record.deep_view();
        let RegistryRecord { network, handle, nameservers, events, entities, port43, .. } = record;
        let block = match network {
            Some(block) => *block,
            None => {
                return Err(Error::MissingNetwork);
            },
        };
        let ghost inner = block.deep_view();
        assert(whole.network == Some(Box::new(inner)));
        let RegistryRecord {
            country: code,
            start_address,
            end_address,
            ip_version,
            name: network_name,
            ..
        } = block;
        let network_name = match network_name {
            Some(name) => name,
            None => {
                return Err(Error::MissingNetwork);
            },
        };
        let country = match (code, country) {
            (Some(code), Some(name)) => Country { code, name },
            _ => {
                return Err(Error::UnknownCountry);
            },
        };
        let network = match Network::from_literals(
            ip_version,
            start_address,
            end_address,
            network_name,
        ) {
            Some(network) => network,
            None => {
                return Err(Error::MalformedAddress);
            },
        };
        let (nameservers, rir_domain) = match (nameservers, port43) {
            (Some(nameservers), Some(port43)) => (nameserver_hostnames(&nameservers), port43),
            _ => {
                return Err(Error::Decode);
            },
        };
        Ok(Domain { name: handle, country, network, nameservers, events, entities, rir_domain })
    }

    /// Reduces a record of class `domain` to the domain it describes.
    pub fn from(record: RegistryRecord) -> (domain: Result<Domain, Error>)
        requires
            record.record_type == ObjectClassType::Domain,
        ensures
            outcome(domain) == normalized(
                record.deep_view(),
                resolved_country(record.deep_view()),
            ),
            domain matches Ok(found) ==> found.deep_view().wf(),
    {
        let ghost whole = record.deep_view();
        let country = match &record.network {
            Some(block) => {
                assert(whole.network == Some(Box::new(block.deep_view())));
                match &block.country {
                    Some(code) => lookup_country_name(code.as_str()),
                    None => None,
                }
            },
            None => None,
        };
        assert(country.deep_view() == resolved_country(whole));
        Domain::from_resolved(record, country)
    }
}

} // verus!
