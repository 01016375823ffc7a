use vstd::prelude::*;

use crate::geo::{
    classify, nearest_region, spec_classify, spec_nearest_region, IpAddress, LeaderGeo,
    ZelaServerRegion,
};
use crate::leader::LocateError;

verus! {

/// An address and port on which a participant can be reached.
#[derive(Clone, Copy, PartialEq, Eq, Structural, Debug)]
pub struct SocketAddress {
    pub ip: IpAddress,
    pub port: u16,
}

/// A participant's published addresses, one optional entry per channel.
#[derive(Clone, Debug)]
pub struct ContactInfo {
    pub pubkey: String,
    pub gossip: Option<SocketAddress>,
    pub rpc: Option<SocketAddress>,
    pub tvu: Option<SocketAddress>,
    pub tpu: Option<SocketAddress>,
}

/// The first present address among gossip, rpc, tvu and tpu.
pub open spec fn spec_contact_address(c: ContactInfo) -> Option<SocketAddress> {
    if c.gossip is Some {
        c.gossip
    } else if c.rpc is Some {
        c.rpc
    } else if c.tvu is Some {
        c.tvu
    } else {
        c.tpu
    }
}

/// The first record of `contacts` whose key is `key`.
pub open spec fn contact_for(contacts: Seq<ContactInfo>, key: Seq<char>) -> Option<ContactInfo>
    decreases contacts.len(),
{
    if contacts.len() == 0 {
        None
    } else if contacts[0].pubkey@ == key {
        Some(contacts[0])
    } else {
        contact_for(contacts.drop_first(), key)
    }
}

/// The address to locate a participant by: gossip when present, else rpc,
/// else tvu, else tpu; `None` when no channel has one.
pub fn get_ip_from_contact_info(contact_info: &ContactInfo) -> (r: Option<SocketAddress>)
    ensures
        r == spec_contact_address(*contact_info),
        contact_info.gossip is Some ==> r == contact_info.gossip,
        contact_info.gossip is None && contact_info.rpc is None && contact_info.tvu is None ==> r
            == contact_info.tpu,
        r is None <==> (contact_info.gossip is None && contact_info.rpc is None
            && contact_info.tvu is None && contact_info.tpu is None),
{
    if let Some(addr) = contact_info.gossip {
        return Some(addr);
    }
    if let Some(addr) = contact_info.rpc {
        return Some(addr);
    }
    if let Some(addr) = contact_info.tvu {
        return Some(addr);
    }
    if let Some(addr) = contact_info.tpu {
        return Some(addr);
    }
    None
}

/// The position of the first record of `contacts` whose key is `key`.
pub fn find_contact(contacts: &Vec<ContactInfo>, key: &String) -> (r: Option<usize>)
    ensures
        match r {
            Some(i) => i < contacts@.len() && contact_for(contacts@, key@) == Some(
                contacts@[i as int],
            ),
            None => contact_for(contacts@, key@) is None,
        },
{
    let mut i: usize = 0;
    assert(contacts@.subrange(0, contacts@.len() as int) =~= contacts@);
    while i < contacts.len()
        invariant
            i <= contacts@.len(),
            contact_for(contacts@.subrange(i as int, contacts@.len() as int), key@) == contact_for(
                contacts@,
                key@,
            ),
        decreases contacts@.len() - i,
    {
        assert(contacts@.subrange(i as int, contacts@.len() as int).drop_first()
            =~= contacts@.subrange(i + 1, contacts@.len() as int));
        if contacts[i].pubkey == *key {
            return Some(i);
        }
        i += 1;
    }
    None
}

/// The region nearest to a participant and the bucket of its address, from
/// the address that `get_ip_from_contact_info` picks; fails with
/// `NoAddressAvailable` when the record lists none.
pub fn get_closest_zela_server_region(contact_info: &ContactInfo, slot: u64) -> (r: Result<
    (ZelaServerRegion, LeaderGeo),
    LocateError,
>)
    ensures
        match spec_contact_address(*contact_info) {
            None => r == Err::<(ZelaServerRegion, LeaderGeo), LocateError>(
                LocateError::NoAddressAvailable { slot },
            ),
            Some(addr) => r == Ok::<(ZelaServerRegion, LeaderGeo), LocateError>(
                (spec_nearest_region(spec_classify(addr.ip)), spec_classify(addr.ip)),
            ),
        },
{
    match get_ip_from_contact_info(contact_info) {
        None => Err(LocateError::NoAddressAvailable { slot }),
        Some(addr) => {
            let leader_geo = classify(&addr.ip);
            let region = nearest_region(leader_geo);
            Ok((region, leader_geo))
        },
    }
}

} // verus!
