use vstd::prelude::*;
use std::collections::HashSet;
use vstd::std_specs::iter::IteratorSpec;
use crate::vulkan::physical_device::QueueFamilyIndices;

verus! {

broadcast use vstd::std_specs::hash::group_hash_axioms;

/// The distinct queue families to create queues for: graphics and present
/// may be the same family, which then gets a single queue. The families are
/// deduplicated through a set, so their order is the set's.
pub fn unique_queue_families(indices: QueueFamilyIndices) -> (families: Vec<u32>)
    ensures
        families@.to_set() == set![indices.graphics, indices.present],
        families@.no_duplicates(),
        families@.len() == (if indices.graphics == indices.present { 1int } else { 2int }),
{
    let mut unique: HashSet<u32> = HashSet::new();
    unique.insert(indices.graphics);
    unique.insert(indices.present);
    let ghost set = unique@;
    assert(set =~= set![indices.graphics, indices.present]);
    let ghost full = vstd::std_specs::hash::spec_hash_keys_iter(&unique).remaining().unref();
    assert(full.to_set() == set && full.no_duplicates() && full.len() == set.len());
    let mut families: Vec<u32> = Vec::new();
    for family in it: unique.iter()
        invariant
            full.to_set() == set,
            full.no_duplicates(),
            full.len() == set.len(),
            it.seq().unref() == full,
            families@ == full.take(it.index()),
    {
        families.push(*family);
        proof {
            assert(full.take(it.index() + 1) =~= full.take(it.index() as int).push(*family));
        }
    }
    assert(families@ =~= full);
    families
}

} // verus!
