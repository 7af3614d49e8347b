//! Pure device-relevance rules.
//!
//! Decide which registry changes warrant a kanata re-sync restart: keyboards
//! only, excluding the Karabiner virtual device and kanata's own outputs, to
//! avoid restart feedback loops. The daemon reads the IOKit registry (presence
//! only, no key events) and feeds descriptors here.

use vstd::prelude::*;

use crate::text::{self, contains, to_ascii_lowercase};
use crate::vhidd;

verus! {

/// Whether a device was added to or removed from the registry.
#[derive(Debug, Clone, Copy, PartialEq, Eq, Structural)]
pub enum DeviceChange {
    /// A device appeared (matched notification).
    Added,
    /// A device was removed (terminated notification).
    Removed,
}

/// Registry facts about a device (presence only). Numeric fields are optional
/// because they may be unreadable on termination.
#[derive(Debug, Clone, PartialEq, Eq, Default)]
pub struct DeviceDescriptor {
    /// Device "Product" name.
    pub name: String,
    /// USB/HID vendor id.
    pub vendor_id: Option<u32>,
    /// HID primary usage page.
    pub usage_page: Option<u32>,
    /// HID primary usage.
    pub usage: Option<u32>,
}

/// HID Generic Desktop usage page (USB HID Usage Tables).
pub const USAGE_PAGE_GENERIC_DESKTOP: u32 = 0x01;

/// HID Keyboard usage.
pub const USAGE_KEYBOARD: u32 = 0x06;

/// Karabiner VirtualHIDDevice vendor id.
pub const KARABINER_VENDOR_ID: u32 = 0x16C0;

/// A usage pair that identifies a keyboard.
pub open spec fn keyboard_usage(usage_page: u32, usage: u32) -> bool {
    usage_page == USAGE_PAGE_GENERIC_DESKTOP && usage == USAGE_KEYBOARD
}

/// A Karabiner virtual device, by name or by vendor.
pub open spec fn karabiner_virtual(name: Seq<char>, vendor_id: Option<u32>) -> bool {
    ||| text::occurs(text::lower(name), "karabiner"@)
    ||| text::occurs(text::lower(name), "virtualhid"@)
    ||| vendor_id == Some(KARABINER_VENDOR_ID)
}

/// A change that warrants a re-sync: never of the virtual device; of a device
/// with known usage only if it is a keyboard; of one with unknown usage only
/// its removal.
pub open spec fn resync_relevant(change: DeviceChange, desc: DeviceDescriptor) -> bool {
    &&& !karabiner_virtual(desc.name@, desc.vendor_id)
    &&& if desc.usage_page is Some && desc.usage is Some {
        keyboard_usage(desc.usage_page->0, desc.usage->0)
    } else {
        change == DeviceChange::Removed
    }
}

/// Whether a HID usage-page/usage pair identifies a keyboard.
pub fn is_keyboard(usage_page: u32, usage: u32) -> (r: bool)
    ensures
        r == keyboard_usage(usage_page, usage),
{
    usage_page == USAGE_PAGE_GENERIC_DESKTOP && usage == USAGE_KEYBOARD
}

/// The Karabiner virtual keyboard, which is also how kanata's own output
/// appears, matched by name or vendor. Filtered to avoid restart feedback loops.
pub fn is_karabiner_virtual(name: &str, vendor_id: Option<u32>) -> (r: bool)
    ensures
        r == karabiner_virtual(name@, vendor_id),
{
    let lower = to_ascii_lowercase(name);
    contains(lower.as_str(), "karabiner") || contains(lower.as_str(), "virtualhid") || matches!(
        vendor_id,
        Some(KARABINER_VENDOR_ID)
    )
}

/// Whether a registry change should trigger a debounced re-sync restart.
///
/// Excludes the Karabiner virtual device always. A device with known usage
/// counts only if it is a keyboard. When the usage is unknown (common on
/// termination), only a removal counts, so unplugging a keyboard still
/// re-syncs, but an unclassifiable *addition* is ignored to avoid thrash.
pub fn is_resync_relevant(change: DeviceChange, desc: &DeviceDescriptor) -> (r: bool)
    ensures
        r == resync_relevant(change, *desc),
{
    if is_karabiner_virtual(desc.name.as_str(), desc.vendor_id) {
        return false;
    }
    match (desc.usage_page, desc.usage) {
        (Some(page), Some(usage)) => is_keyboard(page, usage),
        _ => matches!(change, DeviceChange::Removed),
    }
}

/// No feedback loop: a change of the Karabiner virtual device, which kanata's
/// own output also appears as, never triggers a re-sync.
pub proof fn virtual_device_never_resyncs(change: DeviceChange, desc: DeviceDescriptor)
    requires
        karabiner_virtual(desc.name@, desc.vendor_id),
    ensures
        !resync_relevant(change, desc),
{
}

/// Every removal of a physical keyboard re-syncs, whether or not its usage can
/// still be read.
pub proof fn keyboard_removal_resyncs(desc: DeviceDescriptor)
    requires
        !karabiner_virtual(desc.name@, desc.vendor_id),
        desc.usage_page is Some && desc.usage is Some ==> keyboard_usage(
            desc.usage_page->0,
            desc.usage->0,
        ),
    ensures
        resync_relevant(DeviceChange::Removed, desc),
{
}

/// A device is Karabiner's virtual one where its name spells Karabiner, in
/// whatever case, or holds `virtualhid`, or its vendor is the one that Karabiner
/// registers; a keyboard is usage 6 of page 1, and nothing else.
pub proof fn devices_are_what_they_report(
    name: Seq<char>,
    vendor_id: Option<u32>,
    usage_page: u32,
    usage: u32,
)
    ensures
        karabiner_virtual(name, vendor_id) <==> (exists|at: int|
            vhidd::names_karabiner_at(name, at)) || text::occurs(text::lower(name), "virtualhid"@)
            || vendor_id == Some(5824u32),
        keyboard_usage(usage_page, usage) <==> usage_page == 1 && usage == 6,
{
    let small = text::lower(name);
    if exists|at: int| vhidd::names_karabiner_at(name, at) {
        let at = choose|at: int| vhidd::names_karabiner_at(name, at);
        vhidd::name_by_letters(name, at);
        assert(text::occurs_at(small, "karabiner"@, at));
    }
    if text::occurs(small, "karabiner"@) {
        let at = choose|at: int| text::occurs_at(small, "karabiner"@, at);
        vhidd::name_by_letters(name, at);
    }
}

/// A re-sync is due for a physical device only: where its usage is known, exactly
/// for a keyboard, come or gone; where it is not, exactly when it is gone.
pub proof fn resyncs_are_for_keyboards(change: DeviceChange, desc: DeviceDescriptor)
    requires
        !karabiner_virtual(desc.name@, desc.vendor_id),
    ensures
        desc.usage_page == Some(1u32) && desc.usage == Some(6u32) ==> resync_relevant(change, desc),
        desc.usage_page is Some && desc.usage is Some && !(desc.usage_page == Some(1u32)
            && desc.usage == Some(6u32)) ==> !resync_relevant(change, desc),
        desc.usage_page is None || desc.usage is None ==> (resync_relevant(change, desc) <==> change
            == DeviceChange::Removed),
{
}

} // verus!
