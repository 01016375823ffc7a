use vstd::prelude::*;

use crate::contact::{
    contact_for, find_contact, get_closest_zela_server_region, spec_contact_address, ContactInfo,
};
use crate::geo::{spec_classify, spec_nearest_region};
use crate::leader::{probable_index, select_probable_leader, LocateError};

verus! {

/// Length of a slot on the reference network, in milliseconds.
pub const SLOT_DURATION_MILLIS: u64 = 400;

/// Locates the probable leader of a slot and the service region nearest to it.
#[derive(Clone, Copy, PartialEq, Eq, Structural, Debug)]
pub struct LeaderLocator {
    /// Length of a slot on the network served, in milliseconds.
    pub slot_duration_millis: u64,
}

/// What a located leader is reported as.
#[derive(Clone, Debug)]
pub struct Output {
    pub slot: u64,
    /// Key of the probable leader.
    pub leader: String,
    /// Display text of the leader's continental bucket.
    pub leader_geo: String,
    /// Display text of the service region nearest to the leader.
    pub closest_region: String,
}

impl LeaderLocator {
    /// A locator for a network whose slots last `slot_duration_millis`.
    pub fn new(slot_duration_millis: u64) -> (r: LeaderLocator)
        ensures
            r.slot_duration_millis == slot_duration_millis,
    {
        LeaderLocator { slot_duration_millis }
    }

    /// A locator for the reference network's slot length.
    pub fn reference() -> (r: LeaderLocator)
        ensures
            r.slot_duration_millis == SLOT_DURATION_MILLIS,
    {
        LeaderLocator { slot_duration_millis: SLOT_DURATION_MILLIS }
    }

    /// From the current `slot`, its rotation list, the milliseconds its fetch
    /// took and the cluster's contact directory: the probable leader, the
    /// bucket of the address picked from its first contact record, and the
    /// service region nearest to that bucket.
    pub fn locate(
        &self,
        slot: u64,
        rotation: &Vec<String>,
        elapsed_millis: i64,
        contacts: &Vec<ContactInfo>,
    ) -> (r: Result<Output, LocateError>)
        ensures
            rotation@.len() == 0 ==> r == Err::<Output, LocateError>(LocateError::EmptyRotation),
            rotation@.len() > 0 ==> {
                let leader = rotation@[probable_index(
                    rotation@.len(),
                    elapsed_millis,
                    self.slot_duration_millis,
                )];
                match contact_for(contacts@, leader@) {
                    None => r == Err::<Output, LocateError>(LocateError::ContactNotFound),
                    Some(c) => match spec_contact_address(c) {
                        None => r == Err::<Output, LocateError>(
                            LocateError::NoAddressAvailable { slot },
                        ),
                        Some(addr) => r is Ok && r->Ok_0.slot == slot && r->Ok_0.leader == leader
                            && r->Ok_0.leader_geo@ == spec_classify(addr.ip).spec_label()
                            && r->Ok_0.closest_region@ == spec_nearest_region(
                            spec_classify(addr.ip),
                        ).spec_label(),
                    },
                }
            },
    {
        let leader = match select_probable_leader(rotation, elapsed_millis, self.slot_duration_millis) {
            Ok(l) => l,
            Err(e) => return Err(e),
        };
        let index = match find_contact(contacts, &leader) {
            Some(i) => i,
            None => return Err(LocateError::ContactNotFound),
        };
        let (region, geo) = match get_closest_zela_server_region(&contacts[index], slot) {
            Ok(found) => found,
            Err(e) => return Err(e),
        };
        Ok(Output { slot, leader, leader_geo: geo.label(), closest_region: region.label() })
    }
}

} // verus!
