//! The service locator: from the records of a service lookup and the
//! addresses of a host lookup to the endpoint of a shard.

use crate::error::DiscoveryError;
use crate::random::choose_one;
use crate::text::decimal_digits;
use crate::text::decimal_string;
use vstd::prelude::*;

verus! {

/// One record of a service lookup: where an instance of the service listens.
pub struct SrvRecord {
    pub priority: u16,
    pub weight: u16,
    pub port: u16,
    pub target: String,
}

/// The mathematical content of a [`SrvRecord`].
pub struct SrvRecordView {
    pub priority: u16,
    pub weight: u16,
    pub port: u16,
    pub target: Seq<char>,
}

impl View for SrvRecord {
    type V = SrvRecordView;

    open spec fn view(&self) -> SrvRecordView {
        SrvRecordView {
            priority: self.priority,
            weight: self.weight,
            port: self.port,
            target: self.target@,
        }
    }
}

impl Clone for SrvRecord {
    fn clone(&self) -> (copy: Self)
        ensures
            copy@ == self@,
    {
        SrvRecord {
            priority: self.priority,
            weight: self.weight,
            port: self.port,
            target: self.target.clone(),
        }
    }
}

/// An IP address: the 32 bits of a version 4 address or the 128 bits of a
/// version 6 address, most significant byte first.
#[derive(Clone, Copy, PartialEq, Eq, Structural, Debug)]
pub enum IpAddress {
    V4(u32),
    V6(u128),
}

/// The network address of a shard of the store.
#[derive(Clone, Copy, PartialEq, Eq, Structural, Debug)]
pub struct Endpoint {
    pub ip: IpAddress,
    pub port: u16,
}

/// The name under which the records of a service are looked up.
pub open spec fn query_name(svc: Seq<char>, proto: Seq<char>, host: Seq<char>) -> Seq<char> {
    svc + "."@ + proto + "."@ + host
}

/// The domain name of a shard of the store within `domain`.
pub open spec fn shard_domain(shard: nat, domain: Seq<char>) -> Seq<char> {
    decimal_digits(shard) + ".moray."@ + domain
}

/// Joins the service, protocol and domain labels into the name to look up.
pub fn srv_query_name(svc: &str, proto: &str, host: &str) -> (query: String)
    ensures
        query@ == query_name(svc@, proto@, host@),
{
    let mut query = svc.to_owned();
    query.append(".");
    query.append(proto);
    query.append(".");
    query.append(host);
    query
}

/// The name under which the store's service records are looked up for `host`.
pub fn moray_query_name(host: &str) -> (query: String)
    ensures
        query@ == query_name("_moray"@, "_tcp"@, host@),
{
    srv_query_name("_moray", "_tcp", host)
}

/// The fully qualified domain name of shard number `shard`.
pub fn shard_domain_name(shard: u32, domain: &str) -> (name: String)
    ensures
        name@ == shard_domain(shard as nat, domain@),
{
    let mut name = decimal_string(shard as u64);
    name.append(".moray.");
    name.append(domain);
    name
}

/// Turns the outcome of the choice among the records found for `query` into
/// the record to use, or into the failure to report when there was none to
/// choose from.
pub fn candidate_or_error(choice: Option<&SrvRecord>, query: &str) -> (result: Result<
    SrvRecord,
    DiscoveryError,
>)
    ensures
        match choice {
            Some(record) => result matches Ok(chosen) && chosen@ == record@,
            None => result matches Err(DiscoveryError::NoCandidates { query: q }) && q@ == query@,
        },
{
    match choice {
        Some(record) => Ok(record.clone()),
        None => Err(DiscoveryError::NoCandidates { query: query.to_owned() }),
    }
}

/// Picks one of the records found for `query`, each with the same chance and
/// without regard to priority or weight. Fails when there is none.
pub fn get_srv_record(query: &str, candidates: &Vec<SrvRecord>) -> (result: Result<
    SrvRecord,
    DiscoveryError,
>)
    ensures
        result is Err <==> candidates.len() == 0,
        result matches Err(error) ==> (error matches DiscoveryError::NoCandidates { query: q }
            && q@ == query@),
        result matches Ok(chosen) ==> exists|i: int|
            0 <= i < candidates.len() && (#[trigger] candidates[i])@ == chosen@,
{
    candidate_or_error(choose_one(candidates), query)
}

/// The address to use for `host`: the first of those its lookup returned.
/// Fails when the lookup returned none.
pub fn lookup_ip(host: &str, addresses: &Vec<IpAddress>) -> (result: Result<
    IpAddress,
    DiscoveryError,
>)
    ensures
        match result {
            Ok(ip) => addresses.len() > 0 && ip == addresses[0],
            Err(DiscoveryError::UnresolvableHost { host: h }) => addresses.len() == 0 && h@
                == host@,
            Err(_) => false,
        },
{
    if addresses.len() > 0 {
        Ok(addresses[0])
    } else {
        Err(DiscoveryError::UnresolvableHost { host: host.to_owned() })
    }
}

/// The endpoint that `record` stands for: the first address of its target
/// host and its port. Fails when the target host has no address.
pub fn get_moray_srv_sockaddr(record: &SrvRecord, addresses: &Vec<IpAddress>) -> (result: Result<
    Endpoint,
    DiscoveryError,
>)
    ensures
        match result {
            Ok(endpoint) => addresses.len() > 0 && endpoint == (Endpoint {
                ip: addresses[0],
                port: record.port,
            }),
            Err(DiscoveryError::UnresolvableHost { host: h }) => addresses.len() == 0 && h@
                == record.target@,
            Err(_) => false,
        },
{
    match lookup_ip(record.target.as_str(), addresses) {
        Ok(ip) => Ok(Endpoint { ip, port: record.port }),
        Err(error) => Err(error),
    }
}

} // verus!
