//! The table of relayed devices: a slab, whose keys are the device slots.
use vstd::prelude::*;

use crate::guid::Guid;

verus! {

/// What the relay remembers of a device that it has handed to the guest.
#[derive(Copy, Clone, Debug, PartialEq, Eq, Structural)]
pub struct RelayedDevice {
    /// The instance ID of the bus that the device came on.
    pub bus_instance_id: Guid,
    /// Whether the host has asked for the device back.
    pub ready_to_remove: bool,
}

/// `slab::Slab`, carried as an opaque value.
#[verifier::external_type_specification]
#[verifier::external_body]
#[verifier::reject_recursive_types(T)]
pub struct ExSlab<T>(slab::Slab<T>);

/// The values that a slab holds, by key.
pub uninterp spec fn slab_entries(table: slab::Slab<RelayedDevice>) -> Map<usize, RelayedDevice>;

/// The keys that a slab has given up and not used again, the one given up last
/// at the end.
pub uninterp spec fn slab_vacated(table: slab::Slab<RelayedDevice>) -> Seq<usize>;

/// The key that the next insertion takes: the one given up last, or the first
/// that was never used.
pub open spec fn vacant_slot(entries: Map<usize, RelayedDevice>, vacated: Seq<usize>) -> nat {
    if vacated.len() == 0 {
        entries.dom().len()
    } else {
        vacated.last() as nat
    }
}

/// The vacated keys that are left once the next insertion has taken its key.
pub open spec fn vacated_after_insert(vacated: Seq<usize>) -> Seq<usize> {
    if vacated.len() == 0 {
        vacated
    } else {
        vacated.drop_last()
    }
}

/// `slab::Slab::new`: the slab holds nothing and has given up nothing.
#[verifier::external_body]
pub(crate) fn slab_new() -> (table: slab::Slab<RelayedDevice>)
    ensures
        slab_entries(table).dom() == Set::<usize>::empty(),
        slab_vacated(table) == Seq::<usize>::empty(),
{
    slab::Slab::new()
}

/// `slab::Slab::vacant_key`: the key that the next insertion takes.
#[verifier::external_body]
pub(crate) fn slab_vacant_key(table: &slab::Slab<RelayedDevice>) -> (key: usize)
    ensures
        key == vacant_slot(slab_entries(*table), slab_vacated(*table)),
{
    table.vacant_key()
}

/// `slab::Slab::insert`: puts the value under the vacant key and returns that
/// key. Every other key keeps its value. Like `Vec::push` it may allocate; that
/// memory is there is taken for granted.
#[verifier::external_body]
pub(crate) fn slab_insert(table: &mut slab::Slab<RelayedDevice>, device: RelayedDevice) -> (key: usize)
    ensures
        key == vacant_slot(slab_entries(*old(table)), slab_vacated(*old(table))),
        slab_entries(*final(table)) == slab_entries(*old(table)).insert(key, device),
        slab_vacated(*final(table)) == vacated_after_insert(slab_vacated(*old(table))),
{
    table.insert(device)
}

/// `slab::Slab::remove`: takes the value under an occupied key out and gives the
/// key up. It panics on a vacant key, which `requires` leaves out.
#[verifier::external_body]
pub(crate) fn slab_remove(table: &mut slab::Slab<RelayedDevice>, key: usize) -> (device: RelayedDevice)
    requires
        slab_entries(*old(table)).contains_key(key),
    ensures
        device == slab_entries(*old(table))[key],
        slab_entries(*final(table)) == slab_entries(*old(table)).remove(key),
        slab_vacated(*final(table)) == slab_vacated(*old(table)).push(key),
{
    table.remove(key)
}

/// `slab::Slab`'s `Index`: the value under an occupied key. It panics on a
/// vacant key, which `requires` leaves out.
#[verifier::external_body]
pub(crate) fn slab_index(table: &slab::Slab<RelayedDevice>, key: usize) -> (device: RelayedDevice)
    requires
        slab_entries(*table).contains_key(key),
    ensures
        device == slab_entries(*table)[key],
{
    table[key]
}

/// `slab::Slab::get`: the value under a key, where the key is occupied.
#[verifier::external_body]
pub(crate) fn slab_get(table: &slab::Slab<RelayedDevice>, key: usize) -> (device: Option<RelayedDevice>)
    ensures
        match device {
            Some(found) => slab_entries(*table).contains_key(key) && found == slab_entries(
                *table,
            )[key],
            None => !slab_entries(*table).contains_key(key),
        },
{
    table.get(key).copied()
}

/// `slab::Slab`'s `IndexMut`: puts another value under an occupied key. It panics
/// on a vacant key, which `requires` leaves out.
#[verifier::external_body]
pub(crate) fn slab_replace(table: &mut slab::Slab<RelayedDevice>, key: usize, device: RelayedDevice)
    requires
        slab_entries(*old(table)).contains_key(key),
    ensures
        slab_entries(*final(table)) == slab_entries(*old(table)).insert(key, device),
        slab_vacated(*final(table)) == slab_vacated(*old(table)),
{
    table[key] = device;
}

/// `slab::Slab::iter`, each item mapped to its key: the occupied keys, each once,
/// in ascending order.
#[verifier::external_body]
pub(crate) fn slab_keys(table: &slab::Slab<RelayedDevice>) -> (keys: Vec<usize>)
    ensures
        forall|i: int, j: int| 0 <= i < j < keys@.len() ==> keys@[i] < keys@[j],
        forall|key: usize| keys@.contains(key) <==> slab_entries(*table).contains_key(key),
{
    table.iter().map(|(key, _)| key).collect()
}

/// How many slots have ever been used.
pub open spec fn slots_used(entries: Map<usize, RelayedDevice>, vacated: Seq<usize>) -> nat {
    entries.dom().len() + vacated.len()
}

/// The slots in use and the slots given up are, between them and without
/// overlap, the first slots of all.
pub open spec fn slots_wf(entries: Map<usize, RelayedDevice>, vacated: Seq<usize>) -> bool {
    &&& entries.dom().finite()
    &&& vacated.no_duplicates()
    &&& forall|slot: usize| #[trigger]
        entries.contains_key(slot) ==> !vacated.contains(slot) && slot < slots_used(
            entries,
            vacated,
        )
    &&& forall|slot: usize| #[trigger]
        vacated.contains(slot) ==> slot < slots_used(entries, vacated)
}

/// The vacant slot is not in use.
pub proof fn lemma_vacant_slot_is_free(entries: Map<usize, RelayedDevice>, vacated: Seq<usize>)
    requires
        slots_wf(entries, vacated),
    ensures
        forall|slot: usize| slot == vacant_slot(entries, vacated) ==> !entries.contains_key(slot),
{
    if vacated.len() > 0 {
        assert(vacated.contains(vacated.last()));
    }
}

/// An insertion under the vacant slot keeps `slots_wf`, and uses a new slot only
/// where none was given up.
pub proof fn lemma_insert_keeps_slots(
    entries: Map<usize, RelayedDevice>,
    vacated: Seq<usize>,
    slot: usize,
    device: RelayedDevice,
)
    requires
        slots_wf(entries, vacated),
        slot == vacant_slot(entries, vacated),
    ensures
        slots_wf(entries.insert(slot, device), vacated_after_insert(vacated)),
        slots_used(entries.insert(slot, device), vacated_after_insert(vacated)) == if vacated.len()
            == 0 {
            slots_used(entries, vacated) + 1
        } else {
            slots_used(entries, vacated)
        },
{
    lemma_vacant_slot_is_free(entries, vacated);
    let after = vacated_after_insert(vacated);
    assert(entries.insert(slot, device).dom() =~= entries.dom().insert(slot));
    assert forall|s: usize| #[trigger] after.contains(s) implies vacated.contains(s) && s != slot by {
        let i = choose|i: int| 0 <= i < after.len() && after[i] == s;
        assert(vacated[i] == s);
    }
    if vacated.len() > 0 {
        assert(vacated.contains(slot));
    }
    assert forall|s: usize| #[trigger] entries.insert(slot, device).contains_key(s) implies
        !after.contains(s) && s < slots_used(entries.insert(slot, device), after) by {
        if s != slot {
            assert(entries.contains_key(s));
        }
    }
}

/// Giving an occupied slot up keeps `slots_wf`, and uses no new slot.
pub proof fn lemma_remove_keeps_slots(
    entries: Map<usize, RelayedDevice>,
    vacated: Seq<usize>,
    slot: usize,
)
    requires
        slots_wf(entries, vacated),
        entries.contains_key(slot),
    ensures
        slots_wf(entries.remove(slot), vacated.push(slot)),
        slots_used(entries.remove(slot), vacated.push(slot)) == slots_used(entries, vacated),
{
    let after = vacated.push(slot);
    assert(entries.remove(slot).dom() =~= entries.dom().remove(slot));
    assert forall|s: usize| #[trigger] after.contains(s) implies vacated.contains(s) || s == slot by {
        let i = choose|i: int| 0 <= i < after.len() && after[i] == s;
        if i < vacated.len() {
            assert(vacated[i] == s);
        }
    }
    assert forall|s: usize| #[trigger] entries.remove(slot).contains_key(s) implies !after.contains(
        s,
    ) && s < slots_used(entries.remove(slot), after) by {
        assert(entries.contains_key(s));
    }
}

/// Putting another value under an occupied slot keeps `slots_wf`, and uses no new
/// slot.
pub proof fn lemma_replace_keeps_slots(
    entries: Map<usize, RelayedDevice>,
    vacated: Seq<usize>,
    slot: usize,
    device: RelayedDevice,
)
    requires
        slots_wf(entries, vacated),
        entries.contains_key(slot),
    ensures
        slots_wf(entries.insert(slot, device), vacated),
        slots_used(entries.insert(slot, device), vacated) == slots_used(entries, vacated),
{
    assert(entries.insert(slot, device).dom() =~= entries.dom());
    assert forall|s: usize| #[trigger] entries.insert(slot, device).contains_key(s) implies
        !vacated.contains(s) && s < slots_used(entries.insert(slot, device), vacated) by {
        assert(entries.contains_key(s));
    }
}

} // verus!
