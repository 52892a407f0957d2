use vstd::prelude::*;

use crate::discovery::{
    identity_of, is_trancevibe, locates, open_target, position_of, trancevibe_entries,
    trancevibes_in, first_located, DeviceEntry, DeviceScan, TranceVibeDeviceInfo,
};
use crate::error::OpenError;

verus! {

/// Some TranceVibrator of the device list is attached at `info`.
pub open spec fn attached_trancevibe(entries: Seq<DeviceEntry>, info: TranceVibeDeviceInfo) -> bool {
    exists|i: int| locates(entries, info, i)
}

/// Enumeration returns one handle per TranceVibrator in the device list, each
/// with that device's bus number and address, and no handle for any other
/// device.
pub proof fn lemma_enumeration_finds_exactly_trancevibes(entries: Seq<DeviceEntry>)
    ensures
        trancevibes_in(entries).len() == trancevibe_entries(entries).len(),
        forall|k: int|
            0 <= k < trancevibes_in(entries).len() ==> attached_trancevibe(
                entries,
                #[trigger] trancevibes_in(entries)[k],
            ),
        forall|i: int|
            0 <= i < entries.len() && is_trancevibe(#[trigger] entries[i]) ==> trancevibes_in(
                entries,
            ).contains(identity_of(entries[i])),
{
    let pred = |e: DeviceEntry| is_trancevibe(e);
    let kept = trancevibe_entries(entries);
    entries.filter_lemma(pred);
    assert forall|k: int| 0 <= k < trancevibes_in(entries).len() implies attached_trancevibe(
        entries,
        #[trigger] trancevibes_in(entries)[k],
    ) by {
        assert(pred(kept[k]));
        assert(kept.contains(kept[k]));
        entries.lemma_filter_contains_rev(pred, kept[k]);
        let i = choose|i: int| 0 <= i < entries.len() && entries[i] == kept[k];
        assert(locates(entries, trancevibes_in(entries)[k], i));
    }
    assert forall|i: int|
        0 <= i < entries.len() && is_trancevibe(#[trigger] entries[i]) implies trancevibes_in(
            entries,
        ).contains(identity_of(entries[i])) by {
        assert(pred(entries[i]));
        assert(kept.contains(entries[i]));
        let k = choose|k: int| 0 <= k < kept.len() && kept[k] == entries[i];
        assert(trancevibes_in(entries)[k] == identity_of(entries[i]));
    }
}

/// A device whose descriptor cannot be read is skipped, wherever it stands in
/// the list: the TranceVibrators found are those of the list without it.
pub proof fn lemma_unreadable_device_skipped(
    before: Seq<DeviceEntry>,
    unreadable: DeviceEntry,
    after: Seq<DeviceEntry>,
)
    requires
        unreadable.descriptor is None,
    ensures
        trancevibes_in(before + seq![unreadable] + after) == trancevibes_in(before + after),
{
    let pred = |e: DeviceEntry| is_trancevibe(e);
    Seq::filter_distributes_over_add(before + seq![unreadable], after, pred);
    Seq::filter_distributes_over_add(before, seq![unreadable], pred);
    Seq::filter_distributes_over_add(before, after, pred);
    reveal_with_fuel(Seq::filter, 2);
    assert(seq![unreadable].drop_last() =~= Seq::<DeviceEntry>::empty());
    assert(seq![unreadable].filter(pred) =~= Seq::<DeviceEntry>::empty());
    assert(trancevibe_entries(before + seq![unreadable] + after) =~= trancevibe_entries(
        before + after,
    ));
}

/// Where no device is attached any more at a handle's bus number and address
/// (it was unplugged), opening the handle fails with `DeviceNotFound`.
pub proof fn lemma_removed_device_not_found(info: TranceVibeDeviceInfo, entries: Vec<DeviceEntry>)
    requires
        forall|i: int| 0 <= i < entries@.len() ==> identity_of(#[trigger] entries@[i]) != info,
    ensures
        open_target(info, DeviceScan::Listed(entries)) == Err::<int, OpenError>(
            OpenError::DeviceNotFound,
        ),
{
    assert(!exists|i: int| first_located(entries@, info, i));
}

/// Every TranceVibrator that enumeration lists is found again by opening it
/// against the same device list, at a position that holds it.
pub proof fn lemma_enumerated_device_can_be_located(entries: Seq<DeviceEntry>, k: int)
    requires
        0 <= k < trancevibes_in(entries).len(),
    ensures
        position_of(entries, trancevibes_in(entries)[k]) matches Some(i) && locates(
            entries,
            trancevibes_in(entries)[k],
            i,
        ),
{
    let info = trancevibes_in(entries)[k];
    lemma_enumeration_finds_exactly_trancevibes(entries);
    let i = choose|i: int| locates(entries, info, i);
    lemma_first_location_exists(entries, info, i);
}

proof fn lemma_first_location_exists(entries: Seq<DeviceEntry>, info: TranceVibeDeviceInfo, i: int)
    requires
        locates(entries, info, i),
    ensures
        exists|f: int| first_located(entries, info, f),
    decreases i,
{
    if exists|j: int| 0 <= j < i && locates(entries, info, j) {
        let j = choose|j: int| 0 <= j < i && locates(entries, info, j);
        lemma_first_location_exists(entries, info, j);
    } else {
        assert(first_located(entries, info, i));
    }
}

} // verus!
