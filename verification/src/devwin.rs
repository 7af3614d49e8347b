//! Devices-window view-model.
//!
//! Display-free: a device list in, a [`DevicesView`] out. The GUI shell
//! serializes it and pushes it into the page, whose script inserts every string
//! as text, so nothing here needs to know about HTML escaping.

use vstd::prelude::*;

use crate::ipc::DeviceInfo;
use crate::text::number::{self, push_decimal};
use crate::text::order::{self, comes_before};

verus! {

broadcast use vstd::string::group_string_axioms;

/// Everything the devices page renders, in display order.
#[derive(Debug, Clone, PartialEq, Eq)]
pub struct DevicesView {
    /// One-line summary shown under the title ("3 devices · 1 matched").
    pub summary: String,
    /// Fetch failure to display instead of rows, when the daemon call failed.
    pub error: Option<String>,
    /// Device rows, matched first, then case-insensitively by name.
    pub rows: Vec<DeviceRow>,
}

/// One device row.
#[derive(Debug, Clone, PartialEq, Eq)]
pub struct DeviceRow {
    /// Display name: the device's own, or `DeviceInfo::UNNAMED` when the device
    /// reported no product string (real HID devices can be nameless).
    pub name: String,
    /// Whether kanata is currently matching/grabbing it.
    pub matched: bool,
    /// True when `name` is the placeholder (the page dims these rows).
    pub unnamed: bool,
}

/// The lower-case form of a text, by Unicode's case mapping.
pub uninterp spec fn lowercase_of(s: Seq<char>) -> Seq<char>;

/// `str::to_lowercase`: the result depends on the text alone. What it is, letter
/// by letter, is Unicode's mapping and is left unsaid here.
#[verifier::external_body]
fn to_lowercase(s: &str) -> (r: String)
    ensures
        r@ == lowercase_of(s@),
{
    s.to_lowercase()
}

/// What a device is sorted by: matched first, then named before unnamed, then
/// by lower-case name.
pub struct SortKey {
    pub unmatched: bool,
    pub unnamed: bool,
    pub name: Seq<char>,
}

/// A device's sort key, with the lower-case form of the name shown for it.
pub open spec fn key_of(device: DeviceInfo, lower: Seq<char>) -> SortKey {
    SortKey { unmatched: !device.matched, unnamed: device.unnamed(), name: lower }
}

/// The lower-case forms of the names shown for the devices.
pub open spec fn lowered(devices: Seq<DeviceInfo>) -> Seq<Seq<char>> {
    devices.map_values(|d: DeviceInfo| lowercase_of(d.shown()))
}

/// The key comes strictly before the other.
pub open spec fn key_less(a: SortKey, b: SortKey) -> bool {
    if a.unmatched != b.unmatched {
        b.unmatched
    } else if a.unnamed != b.unnamed {
        b.unnamed
    } else {
        order::precedes(a.name, b.name)
    }
}

/// Keys that come neither before nor after one another are the same.
proof fn key_total(a: SortKey, b: SortKey)
    ensures
        a == b || key_less(a, b) || key_less(b, a),
{
    order::precedes_total(a.name, b.name);
}

proof fn key_transitive(a: SortKey, b: SortKey, c: SortKey)
    requires
        key_less(a, b),
        key_less(b, c),
    ensures
        key_less(a, c),
{
    if a.unmatched == b.unmatched && b.unmatched == c.unmatched && a.unnamed == b.unnamed
        && b.unnamed == c.unnamed {
        order::precedes_transitive(a.name, b.name, c.name);
    }
}

proof fn key_irreflexive(a: SortKey)
    ensures
        !key_less(a, a),
{
    order::precedes_irreflexive(a.name);
}

/// Device `i` is shown before device `j`: by key, and where the keys are the
/// same, in the order in which the daemon reported them. `lower` holds the
/// devices' lower-case names.
pub open spec fn shown_before(
    devices: Seq<DeviceInfo>,
    lower: Seq<Seq<char>>,
    i: int,
    j: int,
) -> bool {
    ||| key_less(key_of(devices[i], lower[i]), key_of(devices[j], lower[j]))
    ||| key_of(devices[i], lower[i]) == key_of(devices[j], lower[j]) && i < j
}

proof fn shown_before_transitive(
    devices: Seq<DeviceInfo>,
    lower: Seq<Seq<char>>,
    i: int,
    j: int,
    k: int,
)
    requires
        shown_before(devices, lower, i, j),
        shown_before(devices, lower, j, k),
    ensures
        shown_before(devices, lower, i, k),
{
    let (a, b, c) = (
        key_of(devices[i], lower[i]),
        key_of(devices[j], lower[j]),
        key_of(devices[k], lower[k]),
    );
    if key_less(a, b) && key_less(b, c) {
        key_transitive(a, b, c);
    }
}

/// A list of device indices in display order.
pub open spec fn in_order(
    devices: Seq<DeviceInfo>,
    lower: Seq<Seq<char>>,
    order: Seq<usize>,
) -> bool {
    forall|a: int, b: int|
        0 <= a < b < order.len() ==> shown_before(
            devices,
            lower,
            #[trigger] order[a] as int,
            #[trigger] order[b] as int,
        )
}

/// The indices are exactly those of the first `n` devices, each once (that none
/// occurs twice follows from their being in order).
pub open spec fn covers(order: Seq<usize>, n: nat) -> bool {
    &&& order.len() == n
    &&& forall|a: int| 0 <= a < order.len() ==> (#[trigger] order[a]) < n
    &&& forall|i: usize| i < n ==> #[trigger] order.contains(i)
}

/// The row shows the device.
pub open spec fn is_row(row: DeviceRow, device: DeviceInfo) -> bool {
    &&& row.name@ == device.shown()
    &&& row.matched == device.matched
    &&& row.unnamed == device.unnamed()
}

/// The rows show every device once, in display order.
pub open spec fn shows_all(
    rows: Seq<DeviceRow>,
    devices: Seq<DeviceInfo>,
    lower: Seq<Seq<char>>,
    order: Seq<usize>,
) -> bool {
    &&& covers(order, devices.len())
    &&& in_order(devices, lower, order)
    &&& rows.len() == devices.len()
    &&& forall|k: int| 0 <= k < rows.len() ==> is_row(#[trigger] rows[k], devices[order[k] as int])
}

/// How many of the devices are matched.
pub open spec fn matched_count(devices: Seq<DeviceInfo>) -> nat
    decreases devices.len(),
{
    if devices.len() == 0 {
        0
    } else {
        matched_count(devices.drop_last()) + (if devices.last().matched {
            1nat
        } else {
            0
        })
    }
}

/// The summary under the title.
pub open spec fn summary_of(devices: nat, matched: nat) -> Seq<char> {
    if devices == 0 {
        "No input devices visible"@
    } else {
        let count = if devices == 1 {
            "1 device"@
        } else {
            number::decimal(devices) + " devices"@
        };
        if matched == 0 {
            count + " · none matched"@
        } else {
            count + " · "@ + number::decimal(matched) + " matched"@
        }
    }
}

/// Whether device `i` is shown before device `j`, given their lower-case names.
fn comes_first(
    devices: &[DeviceInfo],
    lower: &Vec<String>,
    i: usize,
    j: usize,
) -> (r: bool)
    requires
        i < devices@.len(),
        j < devices@.len(),
        lower@.len() == devices@.len(),
    ensures
        r == shown_before(devices@, lower.deep_view(), i as int, j as int),
{
    let a = &devices[i];
    let b = &devices[j];
    let ghost x = key_of(*a, lower.deep_view()[i as int]);
    let ghost y = key_of(*b, lower.deep_view()[j as int]);
    assert(x.name == lower@[i as int]@ && y.name == lower@[j as int]@);
    if a.matched != b.matched {
        return a.matched;
    }
    let a_unnamed = a.is_unnamed();
    let b_unnamed = b.is_unnamed();
    if a_unnamed != b_unnamed {
        return b_unnamed;
    }
    if comes_before(lower[i].as_str(), lower[j].as_str()) {
        return true;
    }
    proof {
        key_total(x, y);
        key_irreflexive(x);
    }
    if comes_before(lower[j].as_str(), lower[i].as_str()) {
        proof {
            if x == y {
                key_irreflexive(y);
            }
        }
        return false;
    }
    i < j
}

/// The display order of the devices, given their lower-case names.
fn display_order(devices: &[DeviceInfo], lower: &Vec<String>) -> (r: Vec<usize>)
    requires
        lower@.len() == devices@.len(),
    ensures
        covers(r@, devices@.len()),
        in_order(devices@, lower.deep_view(), r@),
{
    let n: usize = devices.len();
    let mut sorted: Vec<usize> = Vec::new();
    let mut next: usize = 0;
    while next < n
        invariant
            next <= n,
            n == devices@.len(),
            lower@.len() == n,
            covers(sorted@, next as nat),
            in_order(devices@, lower.deep_view(), sorted@),
        decreases n - next,
    {
        // Walk up from the end past every device that comes after this one.
        let mut at: usize = sorted.len();
        while at > 0 && comes_first(devices, lower, next, sorted[at - 1])
            invariant
                at <= sorted@.len(),
                next < n,
                n == devices@.len(),
                lower@.len() == n,
                forall|a: int| 0 <= a < sorted@.len() ==> (#[trigger] sorted@[a]) < next,
                forall|a: int|
                    at <= a < sorted@.len() ==> shown_before(
                        devices@,
                        lower.deep_view(),
                        next as int,
                        #[trigger] sorted@[a] as int,
                    ),
            ensures
                at <= sorted@.len(),
                forall|a: int|
                    at <= a < sorted@.len() ==> shown_before(
                        devices@,
                        lower.deep_view(),
                        next as int,
                        #[trigger] sorted@[a] as int,
                    ),
                at > 0 ==> !shown_before(
                    devices@,
                    lower.deep_view(),
                    next as int,
                    sorted@[at - 1] as int,
                ),
            decreases at,
        {
            at -= 1;
        }
        let ghost before = sorted@;
        sorted.insert(at, next);
        proof {
            inserted_in_order(devices@, lower.deep_view(), before, next, at as int);
            inserted_covers(before, next, at as int);
            assert(sorted@ =~= before.insert(at as int, next));
        }
        next += 1;
    }
    sorted
}

proof fn inserted_in_order(
    devices: Seq<DeviceInfo>,
    lower: Seq<Seq<char>>,
    order: Seq<usize>,
    next: usize,
    at: int,
)
    requires
        in_order(devices, lower, order),
        0 <= at <= order.len(),
        forall|a: int| 0 <= a < order.len() ==> (#[trigger] order[a]) < next,
        forall|a: int|
            at <= a < order.len() ==> shown_before(
                devices,
                lower,
                next as int,
                #[trigger] order[a] as int,
            ),
        at > 0 ==> !shown_before(devices, lower, next as int, order[at - 1] as int),
    ensures
        in_order(devices, lower, order.insert(at, next)),
{
    let new = order.insert(at, next);
    // Everything before the insertion point comes before the new device.
    assert forall|a: int| 0 <= a < at implies shown_before(
        devices,
        lower,
        #[trigger] order[a] as int,
        next as int,
    ) by {
        let last = order[at - 1] as int;
        key_total(
            key_of(devices[last], lower[last]),
            key_of(devices[next as int], lower[next as int]),
        );
        assert(shown_before(devices, lower, last, next as int));
        if a < at - 1 {
            assert(shown_before(devices, lower, order[a] as int, order[at - 1] as int));
            shown_before_transitive(devices, lower, order[a] as int, last, next as int);
        }
    }
    assert forall|a: int, b: int| 0 <= a < b < new.len() implies shown_before(
        devices,
        lower,
        #[trigger] new[a] as int,
        #[trigger] new[b] as int,
    ) by {
        if b < at {
            assert(new[a] == order[a] && new[b] == order[b]);
        } else if b == at {
            assert(new[a] == order[a]);
        } else if a < at {
            assert(new[a] == order[a] && new[b] == order[b - 1]);
        } else if a == at {
            assert(new[b] == order[b - 1]);
        } else {
            assert(new[a] == order[a - 1] && new[b] == order[b - 1]);
        }
    }
}

proof fn inserted_covers(order: Seq<usize>, next: usize, at: int)
    requires
        covers(order, next as nat),
        0 <= at <= order.len(),
    ensures
        covers(order.insert(at, next), next as nat + 1),
{
    let new = order.insert(at, next);
    assert forall|a: int| 0 <= a < new.len() implies (#[trigger] new[a]) < next as nat + 1 by {
        if a < at {
            assert(new[a] == order[a]);
        } else if a > at {
            assert(new[a] == order[a - 1]);
        }
    }
    assert forall|i: usize| i < next as nat + 1 implies #[trigger] new.contains(i) by {
        if i == next {
            assert(new[at] == next);
        } else {
            assert(order.contains(i));
            let a = choose|a: int| 0 <= a < order.len() && order[a] == i;
            if a < at {
                assert(new[a] == i);
            } else {
                assert(new[a + 1] == i);
            }
        }
    }
}

fn count_matched(devices: &[DeviceInfo]) -> (r: usize)
    ensures
        r == matched_count(devices@),
        r <= devices@.len(),
{
    let mut count: usize = 0;
    let mut i: usize = 0;
    while i < devices.len()
        invariant
            i <= devices@.len(),
            count == matched_count(devices@.take(i as int)),
            count <= i,
        decreases devices@.len() - i,
    {
        assert(devices@.take(i + 1).drop_last() =~= devices@.take(i as int));
        if devices[i].matched {
            count += 1;
        }
        i += 1;
    }
    assert(devices@.take(i as int) =~= devices@);
    count
}

/// Build the view for a fetched device list. Matched devices sort first (they
/// are what the user opened the window to confirm), then named devices
/// case-insensitively, then unnamed ones; the sort is stable so equal keys
/// keep daemon order.
pub fn view(devices: &[DeviceInfo]) -> (r: DevicesView)
    ensures
        r.summary@ == summary_of(devices@.len(), matched_count(devices@)),
        r.error is None,
        exists|order: Seq<usize>| shows_all(r.rows@, devices@, lowered(devices@), order),
{
    let mut lower: Vec<String> = Vec::new();
    let mut i: usize = 0;
    while i < devices.len()
        invariant
            i <= devices@.len(),
            lower@.len() == i,
            forall|k: int| 0 <= k < i ==> (#[trigger] lower@[k])@ == lowered(devices@)[k],
        decreases devices@.len() - i,
    {
        lower.push(to_lowercase(devices[i].display_name()));
        i += 1;
    }
    assert(lower.deep_view() =~= lowered(devices@));
    view_with(devices, &lower)
}

/// The view for a device list, given the lower-case forms of the names shown.
pub fn view_with(devices: &[DeviceInfo], lower: &Vec<String>) -> (r: DevicesView)
    requires
        lower@.len() == devices@.len(),
    ensures
        r.summary@ == summary_of(devices@.len(), matched_count(devices@)),
        r.error is None,
        exists|order: Seq<usize>| shows_all(r.rows@, devices@, lower.deep_view(), order),
{
    let sorted = display_order(devices, lower);
    let mut rows: Vec<DeviceRow> = Vec::new();
    let mut i: usize = 0;
    while i < sorted.len()
        invariant
            i <= sorted@.len(),
            covers(sorted@, devices@.len()),
            rows@.len() == i,
            forall|k: int|
                0 <= k < i ==> is_row(#[trigger] rows@[k], devices@[sorted@[k] as int]),
        decreases sorted@.len() - i,
    {
        let device = &devices[sorted[i]];
        rows.push(
            DeviceRow {
                name: device.display_name().to_owned(),
                matched: device.matched,
                unnamed: device.is_unnamed(),
            },
        );
        i += 1;
    }
    let matched: usize = count_matched(devices);
    let r = DevicesView { summary: summary(devices.len(), matched), error: None, rows };
    assert(shows_all(r.rows@, devices@, lower.deep_view(), sorted@));
    r
}

/// Build the view for a failed fetch (daemon unreachable / request rejected).
pub fn error(message: &str) -> (r: DevicesView)
    ensures
        r.summary@ == "Device list unavailable"@,
        r.error.deep_view() == Some(message@),
        r.rows@.len() == 0,
{
    DevicesView {
        summary: "Device list unavailable".to_owned(),
        error: Some(message.to_owned()),
        rows: Vec::new(),
    }
}

fn summary(devices: usize, matched: usize) -> (r: String)
    ensures
        r@ == summary_of(devices as nat, matched as nat),
{
    if devices == 0 {
        return "No input devices visible".to_owned();
    }
    let mut r = String::new();
    if devices == 1 {
        r.append("1 device");
    } else {
        push_decimal(&mut r, devices as u64);
        r.append(" devices");
    }
    if matched == 0 {
        r.append(" · none matched");
    } else {
        r.append(" · ");
        push_decimal(&mut r, matched as u64);
        r.append(" matched");
    }
    assert(r@ =~= summary_of(devices as nat, matched as nat));
    r
}

/// Matched devices lead: no unmatched device is shown before a matched one, and
/// among devices alike in that, no unnamed one before a named one.
pub proof fn matched_lead_and_unnamed_trail(
    rows: Seq<DeviceRow>,
    devices: Seq<DeviceInfo>,
    lower: Seq<Seq<char>>,
    order: Seq<usize>,
    a: int,
    b: int,
)
    requires
        shows_all(rows, devices, lower, order),
        0 <= a < b < rows.len(),
    ensures
        rows[b].matched ==> rows[a].matched,
        rows[a].matched == rows[b].matched && rows[a].unnamed ==> rows[b].unnamed,
{
    assert(is_row(rows[a], devices[order[a] as int]));
    assert(is_row(rows[b], devices[order[b] as int]));
    assert(shown_before(devices, lower, order[a] as int, order[b] as int));
}

/// The display order is the only one: two lists that show all devices in order
/// show them in the same order.
pub proof fn display_order_is_unique(
    devices: Seq<DeviceInfo>,
    lower: Seq<Seq<char>>,
    first: Seq<usize>,
    second: Seq<usize>,
)
    requires
        covers(first, devices.len()),
        in_order(devices, lower, first),
        covers(second, devices.len()),
        in_order(devices, lower, second),
    ensures
        first == second,
{
    assert forall|k: int| 0 <= k < first.len() implies first[k] == second[k] by {
        same_up_to(devices, lower, first, second, k + 1);
    }
    assert(first =~= second);
}

proof fn same_up_to(
    devices: Seq<DeviceInfo>,
    lower: Seq<Seq<char>>,
    first: Seq<usize>,
    second: Seq<usize>,
    n: int,
)
    requires
        covers(first, devices.len()),
        in_order(devices, lower, first),
        covers(second, devices.len()),
        in_order(devices, lower, second),
        0 <= n <= first.len(),
    ensures
        forall|k: int| 0 <= k < n ==> first[k] == second[k],
    decreases n,
{
    if n > 0 {
        same_up_to(devices, lower, first, second, n - 1);
        let x = first[n - 1];
        let y = second[n - 1];
        if x != y {
            assert(second.contains(x));
            let p = choose|p: int| 0 <= p < second.len() && second[p] == x;
            assert(first.contains(y));
            let q = choose|q: int| 0 <= q < first.len() && first[q] == y;
            // Neither can stand among the places on which both agree.
            if p < n - 1 {
                assert(first[p] == second[p]);
                assert(shown_before(devices, lower, first[p] as int, first[n - 1] as int));
                never_before_itself(devices, lower, x as int);
            }
            if q < n - 1 {
                assert(first[q] == second[q]);
                assert(shown_before(devices, lower, second[q] as int, second[n - 1] as int));
                never_before_itself(devices, lower, y as int);
            }
            assert(shown_before(devices, lower, second[n - 1] as int, second[p] as int));
            assert(shown_before(devices, lower, first[n - 1] as int, first[q] as int));
            shown_before_transitive(devices, lower, x as int, y as int, x as int);
            never_before_itself(devices, lower, x as int);
        }
    }
}

proof fn never_before_itself(devices: Seq<DeviceInfo>, lower: Seq<Seq<char>>, i: int)
    ensures
        !shown_before(devices, lower, i, i),
{
    key_irreflexive(key_of(devices[i], lower[i]));
}

/// The summary counts the devices, and of them those that are matched.
pub proof fn the_summary_counts_devices(devices: Seq<DeviceInfo>)
    ensures
        matched_count(devices) == devices.filter(|d: DeviceInfo| d.matched).len(),
        devices.len() == 0 ==> summary_of(devices.len(), matched_count(devices))
            == "No input devices visible"@,
        devices.len() > 1 && matched_count(devices) > 0 ==> summary_of(
            devices.len(),
            matched_count(devices),
        ) == number::decimal(devices.len()) + " devices"@ + " · "@ + number::decimal(
            devices.filter(|d: DeviceInfo| d.matched).len(),
        ) + " matched"@,
        devices.len() > 1 && matched_count(devices) == 0 ==> summary_of(
            devices.len(),
            matched_count(devices),
        ) == number::decimal(devices.len()) + " devices"@ + " · none matched"@,
    decreases devices.len(),
{
    reveal(Seq::filter);
    if devices.len() > 0 {
        the_summary_counts_devices(devices.drop_last());
    }
}

/// What comes first in the list: a matched device before one that is not, among
/// those a named one before an unnamed one, and among those the one whose name in
/// small letters comes first; devices that tie keep their order.
pub proof fn what_comes_first(
    devices: Seq<DeviceInfo>,
    lower: Seq<Seq<char>>,
    i: int,
    j: int,
)
    ensures
        devices[i].matched && !devices[j].matched ==> shown_before(devices, lower, i, j),
        devices[i].matched == devices[j].matched && !devices[i].unnamed() && devices[j].unnamed()
            ==> shown_before(devices, lower, i, j),
        devices[i].matched == devices[j].matched && devices[i].unnamed() == devices[j].unnamed()
            && order::precedes(lower[i], lower[j]) ==> shown_before(devices, lower, i, j),
        devices[i].matched == devices[j].matched && devices[i].unnamed() == devices[j].unnamed()
            && lower[i] == lower[j] && i < j ==> shown_before(devices, lower, i, j),
        shown_before(devices, lower, i, j) ==> !shown_before(devices, lower, j, i),
{
    if shown_before(devices, lower, i, j) && shown_before(devices, lower, j, i) {
        if order::precedes(lower[i], lower[j]) && order::precedes(lower[j], lower[i]) {
            order::precedes_transitive(lower[i], lower[j], lower[i]);
        }
        order::precedes_irreflexive(lower[i]);
        order::precedes_irreflexive(lower[j]);
    }
}

} // verus!
