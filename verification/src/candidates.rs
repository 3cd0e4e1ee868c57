//! Which listed devices are offered to run on, and in what order: Android
//! devices before emulators, simulators of one Apple platform, each group by
//! name.

use vstd::prelude::*;
use crate::devices::{apple_display_name, apple_platform_display_name, apple_simulator_platform_id, simulator_platform_id, DeviceInfo, DeviceKind, PlatformKind};
use crate::run::AutoSelectionReason;
use crate::text::{chars_of, str_eq};

verus! {

/// Strict lexicographic order of texts, character by character, a proper
/// prefix first. On UTF-8 strings this is the order `str` compares by.
pub open spec fn text_lt(a: Seq<char>, b: Seq<char>) -> bool
    decreases a.len(),
{
    if a.len() == 0 {
        b.len() > 0
    } else if b.len() == 0 {
        false
    } else if a[0] != b[0] {
        a[0] < b[0]
    } else {
        text_lt(a.skip(1), b.skip(1))
    }
}

proof fn lemma_text_lt_asymmetric(a: Seq<char>, b: Seq<char>)
    ensures
        text_lt(a, b) ==> !text_lt(b, a),
    decreases a.len(),
{
    if a.len() > 0 && b.len() > 0 && a[0] == b[0] {
        lemma_text_lt_asymmetric(a.skip(1), b.skip(1));
    }
}

proof fn lemma_text_lt_total(a: Seq<char>, b: Seq<char>)
    ensures
        a != b ==> text_lt(a, b) || text_lt(b, a),
    decreases a.len(),
{
    if a.len() > 0 && b.len() > 0 && a[0] == b[0] {
        if a != b {
            assert(a.skip(1) != b.skip(1)) by {
                if a.skip(1) == b.skip(1) {
                    assert(a =~= seq![a[0]] + a.skip(1));
                    assert(b =~= seq![b[0]] + b.skip(1));
                }
            }
        }
        lemma_text_lt_total(a.skip(1), b.skip(1));
    } else if a.len() == 0 && b.len() == 0 {
        assert(a =~= b);
    }
}

proof fn lemma_text_lt_transitive(a: Seq<char>, b: Seq<char>, c: Seq<char>)
    requires
        text_lt(a, b),
        text_lt(b, c),
    ensures
        text_lt(a, c),
    decreases a.len(),
{
    if a.len() > 0 && b.len() > 0 && c.len() > 0 && a[0] == b[0] && b[0] == c[0] {
        lemma_text_lt_transitive(a.skip(1), b.skip(1), c.skip(1));
    }
}

/// With a common prefix of length `i`, the order is decided by what follows.
proof fn lemma_text_lt_after_prefix(a: Seq<char>, b: Seq<char>, i: int)
    requires
        0 <= i <= a.len(),
        i <= b.len(),
        a.take(i) == b.take(i),
    ensures
        text_lt(a, b) == text_lt(a.skip(i), b.skip(i)),
    decreases i,
{
    if i > 0 {
        assert(a[0] == a.take(i)[0]);
        assert(b[0] == b.take(i)[0]);
        assert(a.skip(1).take(i - 1) =~= a.take(i).skip(1));
        assert(b.skip(1).take(i - 1) =~= b.take(i).skip(1));
        lemma_text_lt_after_prefix(a.skip(1), b.skip(1), i - 1);
        assert(a.skip(1).skip(i - 1) =~= a.skip(i));
        assert(b.skip(1).skip(i - 1) =~= b.skip(i));
    } else {
        assert(a.skip(0) =~= a);
        assert(b.skip(0) =~= b);
    }
}

/// Compares two texts in [`text_lt`] order.
pub fn text_less(a: &str, b: &str) -> (r: bool)
    ensures
        r == text_lt(a@, b@),
{
    let x = chars_of(a);
    let y = chars_of(b);
    let mut i: usize = 0;
    while i < x.len() && i < y.len() && x[i] == y[i]
        invariant
            i <= x@.len(),
            i <= y@.len(),
            x@.take(i as int) == y@.take(i as int),
        decreases x@.len() - i,
    {
        assert(x@.take(i + 1) =~= x@.take(i as int).push(x@[i as int]));
        assert(y@.take(i + 1) =~= y@.take(i as int).push(y@[i as int]));
        i += 1;
    }
    proof {
        lemma_text_lt_after_prefix(x@, y@, i as int);
    }
    if i == x.len() {
        proof {
            assert(x@.skip(i as int).len() == 0);
        }
        i < y.len()
    } else if i == y.len() {
        false
    } else {
        proof {
            assert(x@.skip(i as int)[0] == x@[i as int]);
            assert(y@.skip(i as int)[0] == y@[i as int]);
        }
        x[i] < y[i]
    }
}

/// The place of a device kind in the Android listing: devices, then
/// emulators, then simulators.
pub open spec fn kind_rank(k: DeviceKind) -> int {
    match k {
        DeviceKind::Device => 0,
        DeviceKind::Emulator => 1,
        DeviceKind::Simulator => 2,
    }
}

/// Whether the `i`-th listed device is offered before the `j`-th: by kind
/// when `by_kind`, then by name, then in the order they were listed (the
/// sort is stable).
pub open spec fn offered_before(devs: Seq<DeviceInfo>, by_kind: bool, i: int, j: int) -> bool {
    let ri = if by_kind { kind_rank(devs[i].kind) } else { 0 };
    let rj = if by_kind { kind_rank(devs[j].kind) } else { 0 };
    ri < rj || (ri == rj && (text_lt(devs[i].name@, devs[j].name@) || (devs[i].name@ == devs[j].name@ && i < j)))
}

/// Whether positions are in offering order, each before every later one.
pub open spec fn in_offer_order(devs: Seq<DeviceInfo>, by_kind: bool, order: Seq<usize>) -> bool {
    forall|a: int, b: int| 0 <= a < b < order.len() ==> offered_before(devs, by_kind, #[trigger] order[a] as int, #[trigger] order[b] as int)
}

proof fn lemma_offered_total(devs: Seq<DeviceInfo>, by_kind: bool, i: int, j: int)
    requires
        i != j,
    ensures
        offered_before(devs, by_kind, i, j) || offered_before(devs, by_kind, j, i),
{
    lemma_text_lt_total(devs[i].name@, devs[j].name@);
}

proof fn lemma_offered_transitive(devs: Seq<DeviceInfo>, by_kind: bool, i: int, j: int, k: int)
    requires
        offered_before(devs, by_kind, i, j),
        offered_before(devs, by_kind, j, k),
    ensures
        offered_before(devs, by_kind, i, k),
{
    let (a, b, c) = (devs[i].name@, devs[j].name@, devs[k].name@);
    if text_lt(a, b) && text_lt(b, c) {
        lemma_text_lt_transitive(a, b, c);
    }
}

fn rank(k: DeviceKind, by_kind: bool) -> (r: u8)
    ensures
        r as int == (if by_kind { kind_rank(k) } else { 0 }),
{
    if !by_kind {
        0
    } else {
        match k {
            DeviceKind::Device => 0,
            DeviceKind::Emulator => 1,
            DeviceKind::Simulator => 2,
        }
    }
}

fn goes_before(devs: &Vec<DeviceInfo>, by_kind: bool, i: usize, j: usize) -> (r: bool)
    requires
        i < devs@.len(),
        j < devs@.len(),
    ensures
        r == offered_before(devs@, by_kind, i as int, j as int),
{
    let ri = rank(devs[i].kind, by_kind);
    let rj = rank(devs[j].kind, by_kind);
    if ri != rj {
        return ri < rj;
    }
    let a = devs[i].name.as_str();
    let b = devs[j].name.as_str();
    if text_less(a, b) {
        return true;
    }
    str_eq(a, b) && i < j
}

/// Inserts position `x` into positions kept in offering order.
fn insert_in_order(devs: &Vec<DeviceInfo>, by_kind: bool, order: &mut Vec<usize>, x: usize)
    requires
        x < devs@.len(),
        forall|m: int| 0 <= m < old(order)@.len() ==> #[trigger] old(order)@[m] < devs@.len() && old(order)@[m] != x,
        in_offer_order(devs@, by_kind, old(order)@),
    ensures
        in_offer_order(devs@, by_kind, final(order)@),
        final(order)@.to_multiset() == old(order)@.to_multiset().insert(x),
        forall|m: int| 0 <= m < final(order)@.len() ==> #[trigger] final(order)@[m] < devs@.len(),
{
    let ghost s = order@;
    let mut k: usize = order.len();
    while k > 0 && goes_before(devs, by_kind, x, order[k - 1])
        invariant
            order@ == s,
            x < devs@.len(),
            k <= s.len(),
            forall|m: int| 0 <= m < s.len() ==> #[trigger] s[m] < devs@.len() && s[m] != x,
            forall|m: int| k <= m < s.len() ==> offered_before(devs@, by_kind, x as int, #[trigger] s[m] as int),
        decreases k,
    {
        k -= 1;
    }
    proof {
        if k > 0 {
            lemma_offered_total(devs@, by_kind, x as int, s[k - 1] as int);
        }
    }
    order.insert(k, x);
    proof {
        let t = order@;
        assert(t =~= s.take(k as int) + seq![x] + s.skip(k as int));
        assert forall|a: int, b: int| 0 <= a < b < t.len() implies offered_before(devs@, by_kind, #[trigger] t[a] as int, #[trigger] t[b] as int) by {
            if b < k {
                assert(t[a] == s[a] && t[b] == s[b]);
            } else if b == k {
                assert(t[a] == s[a]);
                if a < k - 1 {
                    lemma_offered_transitive(devs@, by_kind, s[a] as int, s[k - 1] as int, x as int);
                }
            } else if a < k {
                assert(t[a] == s[a] && t[b] == s[b - 1]);
                if k > 0 && a < k - 1 {
                    lemma_offered_transitive(devs@, by_kind, s[a] as int, s[k - 1] as int, x as int);
                }
                lemma_offered_transitive(devs@, by_kind, s[a] as int, x as int, s[b - 1] as int);
            } else if a == k {
                assert(t[b] == s[b - 1]);
            } else {
                assert(t[a] == s[a - 1] && t[b] == s[b - 1]);
            }
        }
        assert(s =~= s.take(k as int) + s.skip(k as int));
        vstd::seq_lib::lemma_multiset_commutative(s.take(k as int), seq![x] + s.skip(k as int));
        vstd::seq_lib::lemma_multiset_commutative(seq![x], s.skip(k as int));
        vstd::seq_lib::lemma_multiset_commutative(s.take(k as int), s.skip(k as int));
        assert((s.take(k as int) + seq![x]) + s.skip(k as int) =~= s.take(k as int) + (seq![x] + s.skip(k as int)));
        assert(seq![x].to_multiset() =~= vstd::multiset::Multiset::<usize>::empty().insert(x)) by {
            broadcast use vstd::seq_lib::group_seq_properties;
        }
        assert(t.to_multiset() =~= s.to_multiset().insert(x)) by {
            broadcast use vstd::multiset::group_multiset_axioms;
        }
        assert forall|m: int| 0 <= m < t.len() implies #[trigger] t[m] < devs@.len() by {
            if m < k {
                assert(t[m] == s[m]);
            } else if m > k {
                assert(t[m] == s[m - 1]);
            }
        }
    }
}

/// The positions of the devices that pass `keep`, in offering order.
fn offer_order(devs: &Vec<DeviceInfo>, by_kind: bool, keep: &Vec<bool>) -> (r: Vec<usize>)
    requires
        keep@.len() == devs@.len(),
    ensures
        in_offer_order(devs@, by_kind, r@),
        r@.to_multiset() == kept_positions(keep@).to_multiset(),
        forall|m: int| 0 <= m < r@.len() ==> #[trigger] r@[m] < devs@.len(),
{
    let mut order: Vec<usize> = Vec::new();
    let mut i: usize = 0;
    proof {
        assert(kept_positions(keep@.take(0)) =~= Seq::<usize>::empty());
    }
    while i < devs.len()
        invariant
            keep@.len() == devs@.len(),
            i <= devs@.len(),
            in_offer_order(devs@, by_kind, order@),
            order@.to_multiset() == kept_positions(keep@.take(i as int)).to_multiset(),
            forall|m: int| 0 <= m < order@.len() ==> #[trigger] order@[m] < i,
        decreases devs@.len() - i,
    {
        proof {
            assert(keep@.take(i + 1).drop_last() =~= keep@.take(i as int));
            assert(keep@.take(i + 1).last() == keep@[i as int]);
        }
        if keep[i] {
            proof {
                vstd::seq_lib::lemma_multiset_commutative(kept_positions(keep@.take(i as int)), seq![i]);
                assert(kept_positions(keep@.take(i + 1)) == kept_positions(keep@.take(i as int)).push(i));
                assert(kept_positions(keep@.take(i as int)).push(i) =~= kept_positions(keep@.take(i as int)) + seq![i]);
                assert(seq![i].to_multiset() =~= vstd::multiset::Multiset::<usize>::empty().insert(i)) by {
                    broadcast use vstd::seq_lib::group_seq_properties;
                }
                assert forall|m: int| 0 <= m < order@.len() implies #[trigger] order@[m] < devs@.len() && order@[m] != i by {}
            }
            insert_in_order(devs, by_kind, &mut order, i);
            proof {
                assert(order@.to_multiset() =~= kept_positions(keep@.take(i + 1)).to_multiset()) by {
                    broadcast use vstd::multiset::group_multiset_axioms;
                }
                assert forall|m: int| 0 <= m < order@.len() implies #[trigger] order@[m] < i + 1 by {
                    let v = order@[m];
                    assert(order@.to_multiset().count(v) > 0) by {
                        broadcast use vstd::seq_lib::group_seq_properties;
                        assert(order@.contains(v));
                    }
                    assert(kept_positions(keep@.take(i + 1)).to_multiset().count(v) > 0);
                    assert(kept_positions(keep@.take(i + 1)).contains(v)) by {
                        broadcast use vstd::seq_lib::group_seq_properties;
                    }
                    lemma_kept_positions_below(keep@.take(i + 1));
                }
            }
        } else {
            proof {
                assert(kept_positions(keep@.take(i + 1)) == kept_positions(keep@.take(i as int)));
            }
        }
        i += 1;
    }
    proof {
        assert(keep@.take(i as int) =~= keep@);
    }
    order
}

/// The positions whose flag is set, in order.
pub open spec fn kept_positions(keep: Seq<bool>) -> Seq<usize>
    decreases keep.len(),
{
    if keep.len() == 0 {
        Seq::empty()
    } else if keep.last() {
        kept_positions(keep.drop_last()).push((keep.len() - 1) as usize)
    } else {
        kept_positions(keep.drop_last())
    }
}

proof fn lemma_kept_positions_below(keep: Seq<bool>)
    ensures
        forall|m: int| 0 <= m < kept_positions(keep).len() ==> (#[trigger] kept_positions(keep)[m]) < keep.len(),
    decreases keep.len(),
{
    if keep.len() > 0 {
        let prev = kept_positions(keep.drop_last());
        lemma_kept_positions_below(keep.drop_last());
        assert forall|m: int| 0 <= m < kept_positions(keep).len() implies (#[trigger] kept_positions(keep)[m]) < keep.len() by {
            if keep.last() {
                if m < prev.len() {
                    assert(kept_positions(keep)[m] == prev[m]);
                }
            } else {
                assert(kept_positions(keep)[m] == prev[m]);
            }
        }
    }
}

proof fn lemma_kept_positions_contains(keep: Seq<bool>, i: int)
    requires
        0 <= i < keep.len(),
        keep.len() <= usize::MAX,
    ensures
        kept_positions(keep).contains(i as usize) <==> keep[i],
    decreases keep.len(),
{
    let rest = keep.drop_last();
    let prev = kept_positions(rest);
    lemma_kept_positions_below(rest);
    if i == keep.len() - 1 {
        if keep.last() {
            assert(kept_positions(keep)[prev.len() as int] == i as usize);
        } else {
            if prev.contains(i as usize) {
                let m = choose|m: int| 0 <= m < prev.len() && prev[m] == i as usize;
                assert(prev[m] < rest.len());
            }
        }
    } else {
        lemma_kept_positions_contains(rest, i);
        assert(rest[i] == keep[i]);
        if keep.last() {
            let p = kept_positions(keep);
            if prev.contains(i as usize) {
                let m = choose|m: int| 0 <= m < prev.len() && prev[m] == i as usize;
                assert(p[m] == i as usize);
            }
            if p.contains(i as usize) {
                let m = choose|m: int| 0 <= m < p.len() && p[m] == i as usize;
                if m < prev.len() {
                    assert(prev[m] == i as usize);
                }
            }
        }
    }
}

/// Whether a device is a simulator listed under the given platform
/// identifier of `simctl`.
pub open spec fn listed_under(d: DeviceInfo, id: Seq<char>) -> bool {
    d.kind == DeviceKind::Simulator && (d.raw_platform matches Some(p) && p@ == id)
}

/// The simulators offered for each Apple platform are exactly those that
/// `simctl` lists under that platform's simulator runtime: iPhone
/// simulators for iOS and iPadOS, watch simulators for watchOS, Apple TV
/// simulators for tvOS and visionOS simulators for visionOS. A simulator of
/// one of these families is never offered for another family.
pub proof fn lemma_simulators_offered(devices: Seq<DeviceInfo>, i: int)
    requires
        0 <= i < devices.len(),
        devices.len() <= usize::MAX,
    ensures
        kept_positions(devices.map_values(|d: DeviceInfo| simulator_listed(d, simulator_platform_id(PlatformKind::Watchos)))).contains(i as usize)
            <==> listed_under(devices[i], "com.apple.platform.watchsimulator"@),
        kept_positions(devices.map_values(|d: DeviceInfo| simulator_listed(d, simulator_platform_id(PlatformKind::Tvos)))).contains(i as usize)
            <==> listed_under(devices[i], "com.apple.platform.appletvsimulator"@),
        kept_positions(devices.map_values(|d: DeviceInfo| simulator_listed(d, simulator_platform_id(PlatformKind::Ios)))).contains(i as usize)
            <==> listed_under(devices[i], "com.apple.platform.iphonesimulator"@),
        kept_positions(devices.map_values(|d: DeviceInfo| simulator_listed(d, simulator_platform_id(PlatformKind::Ipados)))).contains(i as usize)
            <==> listed_under(devices[i], "com.apple.platform.iphonesimulator"@),
        kept_positions(devices.map_values(|d: DeviceInfo| simulator_listed(d, simulator_platform_id(PlatformKind::Visionos)))).contains(i as usize)
            <==> listed_under(devices[i], "com.apple.platform.visionossimulator"@),
        simulator_platform_id(PlatformKind::Watchos) != simulator_platform_id(PlatformKind::Tvos),
        simulator_platform_id(PlatformKind::Watchos) != simulator_platform_id(PlatformKind::Ios),
        simulator_platform_id(PlatformKind::Watchos) != simulator_platform_id(PlatformKind::Visionos),
        simulator_platform_id(PlatformKind::Tvos) != simulator_platform_id(PlatformKind::Ios),
        simulator_platform_id(PlatformKind::Tvos) != simulator_platform_id(PlatformKind::Visionos),
        simulator_platform_id(PlatformKind::Ios) != simulator_platform_id(PlatformKind::Visionos),
{
    reveal_strlit("com.apple.platform.watchsimulator");
    reveal_strlit("com.apple.platform.appletvsimulator");
    reveal_strlit("com.apple.platform.iphonesimulator");
    reveal_strlit("com.apple.platform.visionossimulator");
    assert("com.apple.platform.watchsimulator"@[19] != "com.apple.platform.appletvsimulator"@[19]);
    assert("com.apple.platform.watchsimulator"@[19] != "com.apple.platform.iphonesimulator"@[19]);
    assert("com.apple.platform.watchsimulator"@[19] != "com.apple.platform.visionossimulator"@[19]);
    assert("com.apple.platform.appletvsimulator"@[19] != "com.apple.platform.iphonesimulator"@[19]);
    assert("com.apple.platform.appletvsimulator"@[19] != "com.apple.platform.visionossimulator"@[19]);
    assert("com.apple.platform.iphonesimulator"@[19] != "com.apple.platform.visionossimulator"@[19]);
    let w = devices.map_values(|d: DeviceInfo| simulator_listed(d, simulator_platform_id(PlatformKind::Watchos)));
    let t = devices.map_values(|d: DeviceInfo| simulator_listed(d, simulator_platform_id(PlatformKind::Tvos)));
    let p = devices.map_values(|d: DeviceInfo| simulator_listed(d, simulator_platform_id(PlatformKind::Ios)));
    let q = devices.map_values(|d: DeviceInfo| simulator_listed(d, simulator_platform_id(PlatformKind::Ipados)));
    let v = devices.map_values(|d: DeviceInfo| simulator_listed(d, simulator_platform_id(PlatformKind::Visionos)));
    lemma_kept_positions_contains(w, i);
    lemma_kept_positions_contains(t, i);
    lemma_kept_positions_contains(p, i);
    lemma_kept_positions_contains(q, i);
    lemma_kept_positions_contains(v, i);
}

/// Whether a device is offered for Android runs: listed as an Android device
/// or emulator.
pub open spec fn android_listed(d: DeviceInfo) -> bool {
    d.raw_platform matches Some(p) && (p@ == "android-device"@ || p@ == "android-emulator"@)
}

fn is_android_listed(d: &DeviceInfo) -> (r: bool)
    ensures
        r == android_listed(*d),
{
    match &d.raw_platform {
        Some(p) => str_eq(p.as_str(), "android-device") || str_eq(p.as_str(), "android-emulator"),
        None => false,
    }
}

/// The Android devices and emulators to offer, by position in the listing:
/// devices first, then emulators, each by name; an error when there are none.
pub fn android_candidate_order(devices: &Vec<DeviceInfo>) -> (r: Result<Vec<usize>, String>)
    ensures
        r is Err <==> forall|i: int| 0 <= i < devices@.len() ==> !android_listed(#[trigger] devices@[i]),
        r matches Err(m) ==> m@ == "No Android devices or emulators detected. Connect a device or create an AVD."@,
        r matches Ok(order) ==> in_offer_order(devices@, true, order@)
            && order@.to_multiset() == kept_positions(devices@.map_values(|d: DeviceInfo| android_listed(d))).to_multiset(),
{
    let mut keep: Vec<bool> = Vec::new();
    let mut any = false;
    let mut i: usize = 0;
    while i < devices.len()
        invariant
            i <= devices@.len(),
            keep@ == devices@.take(i as int).map_values(|d: DeviceInfo| android_listed(d)),
            any <==> exists|j: int| 0 <= j < i && android_listed(#[trigger] devices@[j]),
        decreases devices@.len() - i,
    {
        let k = is_android_listed(&devices[i]);
        keep.push(k);
        if k {
            any = true;
        }
        i += 1;
        assert(keep@ =~= devices@.take(i as int).map_values(|d: DeviceInfo| android_listed(d)));
    }
    assert(devices@.take(i as int) =~= devices@);
    if !any {
        return Err(String::from_str("No Android devices or emulators detected. Connect a device or create an AVD."));
    }
    let order = offer_order(devices, true, &keep);
    Ok(order)
}

/// Whether a device is a simulator listed under the given simulator
/// platform identifier.
pub open spec fn simulator_listed(d: DeviceInfo, id: Seq<char>) -> bool {
    d.kind == DeviceKind::Simulator && (d.raw_platform matches Some(p) && p@ == id)
}

/// The simulators to offer for an Apple platform, by position in the
/// listing and by name: none for platforms without simulators, an error
/// when the platform has none installed.
pub fn simulator_candidate_order(devices: &Vec<DeviceInfo>, platform: PlatformKind) -> (r: Result<Vec<usize>, String>)
    ensures
        simulator_platform_id(platform).len() == 0 ==> (r matches Ok(order) && order@.len() == 0),
        simulator_platform_id(platform).len() > 0 ==> {
            &&& (r is Err <==> forall|i: int| 0 <= i < devices@.len() ==> !simulator_listed(#[trigger] devices@[i], simulator_platform_id(platform)))
            &&& (r matches Err(m) ==> m@ == "No simulators found for "@ + apple_display_name(platform) + ". Install one using Xcode's Devices window."@)
            &&& (r matches Ok(order) ==> in_offer_order(devices@, false, order@)
                && order@.to_multiset() == kept_positions(devices@.map_values(|d: DeviceInfo| simulator_listed(d, simulator_platform_id(platform)))).to_multiset())
        },
{
    let id = apple_simulator_platform_id(platform);
    if id.unicode_len() == 0 {
        return Ok(Vec::new());
    }
    let mut keep: Vec<bool> = Vec::new();
    let mut any = false;
    let mut i: usize = 0;
    while i < devices.len()
        invariant
            i <= devices@.len(),
            id@ == simulator_platform_id(platform),
            keep@ == devices@.take(i as int).map_values(|d: DeviceInfo| simulator_listed(d, id@)),
            any <==> exists|j: int| 0 <= j < i && simulator_listed(#[trigger] devices@[j], id@),
        decreases devices@.len() - i,
    {
        let k = devices[i].kind == DeviceKind::Simulator && match &devices[i].raw_platform {
            Some(p) => str_eq(p.as_str(), id),
            None => false,
        };
        keep.push(k);
        if k {
            any = true;
        }
        i += 1;
        assert(keep@ =~= devices@.take(i as int).map_values(|d: DeviceInfo| simulator_listed(d, id@)));
    }
    assert(devices@.take(i as int) =~= devices@);
    if !any {
        let mut m = String::from_str("No simulators found for ");
        m.append(apple_platform_display_name(platform));
        m.append(". Install one using Xcode's Devices window.");
        return Err(m);
    }
    Ok(offer_order(devices, false, &keep))
}

/// Whether a device is picked without asking: when it is the only one, or
/// when there is no terminal to ask in; otherwise the user is asked.
pub fn auto_choice(candidates: usize, interactive: bool) -> (r: Option<AutoSelectionReason>)
    requires
        candidates > 0,
    ensures
        candidates == 1 ==> r == Some(AutoSelectionReason::SingleCandidate),
        candidates > 1 && !interactive ==> r == Some(AutoSelectionReason::NonInteractive),
        candidates > 1 && interactive ==> r is None,
{
    if candidates == 1 {
        Some(AutoSelectionReason::SingleCandidate)
    } else if !interactive {
        Some(AutoSelectionReason::NonInteractive)
    } else {
        None
    }
}

} // verus!
