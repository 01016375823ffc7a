use vstd::prelude::*;

verus! {

/// Why a leader could not be located.
#[derive(Clone, Copy, PartialEq, Eq, Structural, Debug)]
pub enum LocateError {
    /// The rotation list for the slot was empty.
    EmptyRotation,
    /// No contact record carries the selected leader's key.
    ContactNotFound,
    /// The contact record of the leader for `slot` lists no address on any channel.
    NoAddressAvailable { slot: u64 },
}

/// Whether less than half a slot has elapsed; a negative `elapsed_millis`
/// (clock skew) counts as no time at all.
pub open spec fn within_half_slot(elapsed_millis: i64, slot_duration_millis: u64) -> bool {
    (elapsed_millis as int) < (slot_duration_millis as int) / 2
}

/// The rotation index of the probable leader in a list of `len` entries.
pub open spec fn probable_index(len: nat, elapsed_millis: i64, slot_duration_millis: u64) -> int {
    if within_half_slot(elapsed_millis, slot_duration_millis) || len < 2 {
        0
    } else {
        1
    }
}

/// The leader most likely producing the slot, given the rotation list for it
/// and the time its fetch took: entry 0 while less than half a slot has
/// elapsed, entry 1 after that, and entry 0 again when there is no entry 1.
pub fn select_probable_leader(
    rotation: &Vec<String>,
    elapsed_millis: i64,
    slot_duration_millis: u64,
) -> (r: Result<String, LocateError>)
    ensures
        rotation@.len() == 0 ==> r == Err::<String, LocateError>(LocateError::EmptyRotation),
        rotation@.len() > 0 ==> r == Ok::<String, LocateError>(
            rotation@[probable_index(rotation@.len(), elapsed_millis, slot_duration_millis)],
        ),
        rotation@.len() > 0 && within_half_slot(elapsed_millis, slot_duration_millis) ==> r
            == Ok::<String, LocateError>(rotation@[0]),
        rotation@.len() >= 2 && !within_half_slot(elapsed_millis, slot_duration_millis) ==> r
            == Ok::<String, LocateError>(rotation@[1]),
        rotation@.len() == 1 && !within_half_slot(elapsed_millis, slot_duration_millis) ==> r
            == Ok::<String, LocateError>(rotation@[0]),
{
    if rotation.len() == 0 {
        return Err(LocateError::EmptyRotation);
    }
    let half: u64 = slot_duration_millis / 2;
    let early = elapsed_millis < 0 || (elapsed_millis as u64) < half;
    if early || rotation.len() < 2 {
        Ok(rotation[0].clone())
    } else {
        Ok(rotation[1].clone())
    }
}

} // verus!
