//! What the service loop reads of the LCDs that it drives, and how it finds one.

use vstd::prelude::*;

verus! {

/// An LCD target at the moment it was looked at.
#[derive(Debug, PartialEq, Eq)]
pub struct LcdTarget {
    /// The slot that the target occupies.
    pub index: usize,
    /// The id of the device in that slot.
    pub device_identity: String,
    pub initialized: bool,
    pub initializing: bool,
    /// Whether it is driven over HID.
    pub hid: bool,
    /// Whether it is driven over the very attachment that was asked about.
    pub attached: bool,
}

/// The first target with that device id.
pub open spec fn target_by_identity(targets: Seq<LcdTarget>, device_id: Seq<char>) -> Option<
    LcdTarget,
>
    decreases targets.len(),
{
    if targets.len() == 0 {
        None
    } else if targets[0].device_identity@ == device_id {
        Some(targets[0])
    } else {
        target_by_identity(targets.skip(1), device_id)
    }
}

/// The slot of the first target with that device id which is driven over the HID attachment that
/// was asked about.
pub open spec fn attached_index(targets: Seq<LcdTarget>, device_id: Seq<char>) -> Option<usize>
    decreases targets.len(),
{
    if targets.len() == 0 {
        None
    } else if targets[0].device_identity@ == device_id && targets[0].hid && targets[0].attached {
        Some(targets[0].index)
    } else {
        attached_index(targets.skip(1), device_id)
    }
}

/// The position of the first target with that device id.
pub fn find_target(targets: &Vec<LcdTarget>, device_id: &String) -> (position: Option<usize>)
    ensures
        position is Some <==> target_by_identity(targets@, device_id@) is Some,
        position matches Some(i) ==> i < targets@.len() && target_by_identity(
            targets@,
            device_id@,
        ) == Some(targets@[i as int]),
{
    let mut i: usize = 0;
    assert(targets@.skip(0) =~= targets@);
    while i < targets.len()
        invariant
            i <= targets@.len(),
            target_by_identity(targets@, device_id@) == target_by_identity(
                targets@.skip(i as int),
                device_id@,
            ),
        decreases targets.len() - i,
    {
        assert(targets@.skip(i as int)[0] == targets@[i as int]);
        assert(targets@.skip(i as int).skip(1) =~= targets@.skip(i + 1));
        if targets[i].device_identity == *device_id {
            return Some(i);
        }
        i = i + 1;
    }
    None
}

/// The slot of the first target with that device id which is driven over the HID attachment that
/// was asked about.
pub fn find_attached(targets: &Vec<LcdTarget>, device_id: &String) -> (index: Option<usize>)
    ensures
        index == attached_index(targets@, device_id@),
{
    let mut i: usize = 0;
    assert(targets@.skip(0) =~= targets@);
    while i < targets.len()
        invariant
            i <= targets@.len(),
            attached_index(targets@, device_id@) == attached_index(
                targets@.skip(i as int),
                device_id@,
            ),
        decreases targets.len() - i,
    {
        assert(targets@.skip(i as int)[0] == targets@[i as int]);
        assert(targets@.skip(i as int).skip(1) =~= targets@.skip(i + 1));
        if targets[i].device_identity == *device_id && targets[i].hid && targets[i].attached {
            return Some(targets[i].index);
        }
        i = i + 1;
    }
    None
}

} // verus!
