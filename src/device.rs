//! Identifying the adapter among the enumerated USB devices.
use vstd::prelude::*;

use crate::text::{hex_text, push_hex};

verus! {

/// Vendor identifier of the adapter.
pub const ADAPTER_VENDOR_ID: u16 = 0x057E;

/// Product identifier of the adapter.
pub const ADAPTER_PRODUCT_ID: u16 = 0x0337;

/// The vendor and product identifiers read from a device's descriptor.
#[derive(Clone, Copy, Debug, PartialEq, Eq, Structural)]
pub struct DeviceId {
    pub vendor_id: u16,
    pub product_id: u16,
}

/// Whether `id` identifies the adapter.
pub open spec fn is_adapter(id: DeviceId) -> bool {
    id.vendor_id == ADAPTER_VENDOR_ID && id.product_id == ADAPTER_PRODUCT_ID
}

/// Whether an enumerated device, described by its descriptor if that could
/// be read, is the adapter.
pub open spec fn entry_is_adapter(entry: Option<DeviceId>) -> bool {
    entry matches Some(id) && is_adapter(id)
}

/// Index of the last entry of `entries` that is the adapter, if any.
pub open spec fn last_match(entries: Seq<Option<DeviceId>>) -> Option<int>
    decreases entries.len(),
{
    if entries.len() == 0 {
        None
    } else if entry_is_adapter(entries.last()) {
        Some(entries.len() - 1)
    } else {
        last_match(entries.drop_last())
    }
}

/// The readable descriptors of `entries`, in order, that are not the adapter.
pub open spec fn unknown_of(entries: Seq<Option<DeviceId>>) -> Seq<DeviceId>
    decreases entries.len(),
{
    if entries.len() == 0 {
        Seq::empty()
    } else {
        let rest = unknown_of(entries.drop_last());
        match entries.last() {
            Some(id) => if is_adapter(id) {
                rest
            } else {
                rest.push(id)
            },
            None => rest,
        }
    }
}

/// What `last_match` returns, stated directly.
pub proof fn lemma_last_match(entries: Seq<Option<DeviceId>>)
    ensures
        match last_match(entries) {
            Some(i) => 0 <= i < entries.len() && entry_is_adapter(entries[i]) && forall|j: int|
                i < j < entries.len() ==> !entry_is_adapter(#[trigger] entries[j]),
            None => forall|j: int| 0 <= j < entries.len() ==> !entry_is_adapter(#[trigger] entries[j]),
        },
    decreases entries.len(),
{
    if entries.len() > 0 {
        let rest = entries.drop_last();
        lemma_last_match(rest);
        let n = entries.len() - 1;
        assert forall|j: int| 0 <= j < n implies entries[j] == #[trigger] rest[j] by {}
        if !entry_is_adapter(entries[n]) {
            match last_match(rest) {
                Some(i) => {
                    assert forall|j: int| i < j < entries.len() implies !entry_is_adapter(
                        #[trigger] entries[j],
                    ) by {
                        if j < n {
                            assert(entries[j] == rest[j]);
                        }
                    }
                },
                None => {
                    assert forall|j: int| 0 <= j < entries.len() implies !entry_is_adapter(
                        #[trigger] entries[j],
                    ) by {
                        if j < n {
                            assert(entries[j] == rest[j]);
                        }
                    }
                },
            }
        }
    }
}

/// A device whose descriptor cannot be read changes nothing in a scan: with
/// one such device inserted at any position, the same readable devices are
/// reported as unknown, and the adapter is found exactly when it was before,
/// as the same device (its index shifted past the inserted one).
pub proof fn lemma_unreadable_skipped(entries: Seq<Option<DeviceId>>, k: int)
    requires
        0 <= k <= entries.len(),
    ensures
        unknown_of(entries.insert(k, None)) == unknown_of(entries),
        last_match(entries.insert(k, None)) == match last_match(entries) {
            Some(i) => Some(if i < k { i } else { i + 1 }),
            None => None::<int>,
        },
    decreases entries.len(),
{
    let with = entries.insert(k, None);
    lemma_last_match(entries);
    if k == entries.len() {
        assert(with.drop_last() =~= entries);
    } else {
        let rest = entries.drop_last();
        lemma_unreadable_skipped(rest, k);
        assert(with.drop_last() =~= rest.insert(k, None));
        assert(with.last() == entries.last());
    }
}

/// The outcome of scanning the enumerated devices.
pub struct Scan {
    /// Index of the adapter among the devices, if one was found.
    pub selected: Option<usize>,
    /// The devices with a readable descriptor that are not the adapter.
    pub unknown: Vec<DeviceId>,
}

/// Scans the enumerated devices. `entries[i]` is the descriptor of device
/// `i`, or `None` where it could not be read; such devices are skipped. When
/// several devices are the adapter, the last one is selected.
pub fn scan_devices(entries: &Vec<Option<DeviceId>>) -> (r: Scan)
    ensures
        r.selected matches Some(i) ==> last_match(entries@) == Some(i as int),
        r.selected is None ==> last_match(entries@) is None,
        r.unknown@ == unknown_of(entries@),
        match r.selected {
            Some(i) => i < entries@.len() && entry_is_adapter(entries@[i as int]) && forall|j: int|
                i < j < entries@.len() ==> !entry_is_adapter(#[trigger] entries@[j]),
            None => forall|j: int|
                0 <= j < entries@.len() ==> !entry_is_adapter(#[trigger] entries@[j]),
        },
{
    let mut selected: Option<usize> = None;
    let mut unknown: Vec<DeviceId> = Vec::new();
    let mut i: usize = 0;
    while i < entries.len()
        invariant
            i <= entries@.len(),
            selected matches Some(k) ==> last_match(entries@.subrange(0, i as int)) == Some(
                k as int,
            ),
            selected is None ==> last_match(entries@.subrange(0, i as int)) is None,
            unknown@ == unknown_of(entries@.subrange(0, i as int)),
        decreases entries@.len() - i,
    {
        assert(entries@.subrange(0, i + 1).drop_last() =~= entries@.subrange(0, i as int));
        match entries[i] {
            Some(id) => {
                if id.vendor_id == ADAPTER_VENDOR_ID && id.product_id == ADAPTER_PRODUCT_ID {
                    selected = Some(i);
                } else {
                    unknown.push(id);
                }
            },
            None => {},
        }
        i = i + 1;
    }
    assert(entries@.subrange(0, entries@.len() as int) =~= entries@);
    proof {
        lemma_last_match(entries@);
    }
    Scan { selected, unknown }
}

/// The line that reports a device that is not the adapter.
pub open spec fn unknown_line_text(id: DeviceId) -> Seq<char> {
    "Unknown usb device with vendor_id 0x"@ + hex_text(id.vendor_id as nat) + " and product_id 0x"@
        + hex_text(id.product_id as nat)
}

/// The line that reports a device that is not the adapter, its identifiers
/// in lowercase hexadecimal.
pub fn unknown_line(id: DeviceId) -> (r: String)
    ensures
        r@ == unknown_line_text(id),
{
    let mut s = String::from_str("Unknown usb device with vendor_id 0x");
    push_hex(&mut s, id.vendor_id);
    s.append(" and product_id 0x");
    push_hex(&mut s, id.product_id);
    s
}

} // verus!
