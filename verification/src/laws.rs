//! What holds of every record and every answer.

use vstd::prelude::*;
use crate::domain::{
    block_network, country_name, hostnames, is_nameserver, lemma_hostnames_push, normalized,
    Domain, DomainView,
};
use crate::decode::record_of;
use crate::json::{json_document, Json};
use crate::model::{NameserverView, ObjectClassType, RegistryRecordView};
use crate::result::{outcome, Error};
use crate::sync::{domain_of_record, domain_of_response};

verus! {

/// A record that holds all that a domain is made of: a network block with a name, a country
/// code, a version and two literals of that version, and, on the record itself, the list
/// of name servers and the WHOIS server.
pub open spec fn describes_domain(record: RegistryRecordView) -> bool {
    &&& record.network is Some
    &&& record.network->0.name is Some
    &&& record.network->0.country is Some
    &&& block_network(*record.network->0) is Some
    &&& record.nameservers is Some
    &&& record.port43 is Some
}

/// A record of class `domain` that holds all that a domain is made of, and whose network
/// names a country that the lookup knows, is read as a domain; the domain carries the code of
/// the network, and the name that the lookup gives for that code.
pub proof fn law_country_is_resolved(record: RegistryRecordView)
    requires
        record.record_type == ObjectClassType::Domain,
        describes_domain(record),
        country_name(record.network->0.country->0) is Some,
    ensures
        domain_of_record(record) is Ok,
        domain_of_record(record)->Ok_0.country.code == record.network->0.country->0,
        Some(domain_of_record(record)->Ok_0.country.name) == country_name(
            domain_of_record(record)->Ok_0.country.code,
        ),
        domain_of_record(record)->Ok_0.wf(),
{
}

/// An answer whose body is the JSON of such a record is read as a domain with that country.
pub proof fn law_answer_with_known_country_is_read(
    body: Seq<u8>,
    document: Json,
    record: RegistryRecordView,
)
    requires
        json_document(body) == Some(document),
        record_of(document) == Some(record),
        record.record_type == ObjectClassType::Domain,
        describes_domain(record),
        country_name(record.network->0.country->0) is Some,
    ensures
        domain_of_response(body) is Ok,
        Some(domain_of_response(body)->Ok_0.country.name) == country_name(
            domain_of_response(body)->Ok_0.country.code,
        ),
{
    law_country_is_resolved(record);
}

/// A record of any other class than `domain` is refused as such, whatever else it holds.
pub proof fn law_other_classes_are_refused(record: RegistryRecordView)
    requires
        record.record_type != ObjectClassType::Domain,
    ensures
        domain_of_record(record) == Err::<DomainView, Error>(Error::NotDomain),
{
}

/// A record without a network block is not reduced to a domain: the network is reported
/// missing, whatever the lookup of a country would answer.
pub proof fn law_network_is_needed(record: RegistryRecordView, country: Option<Seq<char>>)
    requires
        record.network is None,
    ensures
        normalized(record, country) == Err::<DomainView, Error>(Error::MissingNetwork),
        record.record_type == ObjectClassType::Domain ==> domain_of_record(record) == Err::<
            DomainView,
            Error,
        >(Error::MissingNetwork),
{
}

/// Whether `picked` lists, in rising order, the positions of exactly those entries that are
/// of class `nameserver`.
pub open spec fn picks_nameservers(nameservers: Seq<NameserverView>, picked: Seq<int>) -> bool {
    &&& forall|k: int|
        0 <= k < picked.len() ==> 0 <= #[trigger] picked[k] < nameservers.len() && is_nameserver(
            nameservers[picked[k]],
        )
    &&& forall|k: int, l: int| 0 <= k < l < picked.len() ==> picked[k] < picked[l]
    &&& forall|i: int|
        0 <= i < nameservers.len() && is_nameserver(#[trigger] nameservers[i])
            ==> picked.contains(i)
}

/// The host names of a list of name servers are those of the entries of class `nameserver`:
/// each such entry gives one name, no other entry gives any, and the names stand in the
/// order of their entries. The positions of those entries are handed back.
pub proof fn law_hostnames_are_the_nameservers(nameservers: Seq<NameserverView>) -> (picked: Seq<
    int,
>)
    ensures
        picks_nameservers(nameservers, picked),
        hostnames(nameservers).len() == picked.len(),
        forall|k: int|
            0 <= k < picked.len() ==> #[trigger] hostnames(nameservers)[k]
                == nameservers[picked[k]].ldh_name,
    decreases nameservers.len(),
{
    if nameservers.len() == 0 {
        assert(hostnames(nameservers) == Seq::<Seq<char>>::empty()) by {
            reveal(Seq::filter);
        }
        Seq::empty()
    } else {
        let front = nameservers.drop_last();
        let last = nameservers.last();
        let before = law_hostnames_are_the_nameservers(front);
        assert(nameservers == front.push(last));
        lemma_hostnames_push(front, last);
        if is_nameserver(last) {
            let picked = before.push(nameservers.len() - 1);
            assert forall|i: int|
                0 <= i < nameservers.len() && is_nameserver(
                    #[trigger] nameservers[i],
                ) implies picked.contains(i) by {
                if i < front.len() {
                    assert(is_nameserver(front[i]));
                    let k = choose|k: int| 0 <= k < before.len() && before[k] == i;
                    assert(picked[k] == i);
                } else {
                    assert(picked[before.len() as int] == i);
                }
            }
            picked
        } else {
            assert forall|i: int|
                0 <= i < nameservers.len() && is_nameserver(
                    #[trigger] nameservers[i],
                ) implies before.contains(i) by {
                assert(is_nameserver(front[i]));
            }
            before
        }
    }
}

/// Reading is a function of the answer: two readings of one body give the same error, or
/// domains that are equal in every part.
pub proof fn law_same_answer_same_domain(
    body: Seq<u8>,
    first: Result<Domain, Error>,
    second: Result<Domain, Error>,
)
    requires
        outcome(first) == domain_of_response(body),
        outcome(second) == domain_of_response(body),
    ensures
        outcome(first) == outcome(second),
        first is Ok ==> second is Ok && first->Ok_0.deep_view() == second->Ok_0.deep_view(),
        first is Err ==> second == first,
{
}

} // verus!
