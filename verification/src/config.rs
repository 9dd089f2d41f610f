//! What a configuration asks for: the settings that hold by default, those of
//! single fans, which of the known devices are controlled, and the devices
//! that are put together from inputs of any kind.

use crate::conf::Conf;
use crate::settings::defaults;
use crate::settings::settings_with;
use crate::settings::typed;
use crate::settings::Settings;
use crate::settings::SettingsView;
use crate::device::Device;
use crate::text::same_text;
use std::collections::HashMap;
use std::collections::HashSet;
use vstd::prelude::*;

verus! {

broadcast use vstd::std_specs::hash::group_hash_axioms;

/// The items of the array that a table holds under `key`; none where it
/// holds no array there.
pub open spec fn blocks_of(tconf: Conf, key: Seq<char>) -> Seq<Conf> {
    match tconf.field(key) {
        Some(v) => v.items(),
        None => Seq::empty(),
    }
}

/// The integers among the items, each cut to `i32`.
pub open spec fn id_set(items: Seq<Conf>) -> Set<i32>
    decreases items.len(),
{
    if items.len() == 0 {
        Set::empty()
    } else {
        match items.last() {
            Conf::Int(i) => id_set(items.drop_last()).insert(i as i32),
            _ => id_set(items.drop_last()),
        }
    }
}

/// A block describes a device of its own: it is a table that holds an array
/// of temperature files or one of accelerator indexes.
pub open spec fn describes_device(c: Conf) -> bool {
    &&& c is Table
    &&& (c.field("sys_temp_input"@) matches Some(v) && v is List) || (c.field("nv_temp_input"@)
        matches Some(v) && v is List)
}

/// The blocks that describe a device of their own, in their order.
pub open spec fn device_blocks(blocks: Seq<Conf>) -> Seq<Conf>
    decreases blocks.len(),
{
    if blocks.len() == 0 {
        Seq::empty()
    } else if describes_device(blocks.last()) {
        device_blocks(blocks.drop_last()).push(blocks.last())
    } else {
        device_blocks(blocks.drop_last())
    }
}

/// Every block that describes a device of its own sets integers only where
/// numbers are set.
pub open spec fn devices_typed(tconf: Conf) -> bool {
    forall|i: int|
        0 <= i < blocks_of(tconf, "devices"@).len() && describes_device(
            #[trigger] blocks_of(tconf, "devices"@)[i],
        ) ==> typed(blocks_of(tconf, "devices"@)[i])
}

/// An integer cut to `i32`.
fn id_of(i: i64) -> (r: i32)
    ensures
        r == i as i32,
{
    #[verifier::truncate]
    (i as i32)
}

/// A count cut to `i32`.
fn count_id(n: usize) -> (r: i32)
    ensures
        r == n as i32,
{
    #[verifier::truncate]
    (n as i32)
}

/// The items of the array that a table holds under `key`.
fn blocks<'a>(tconf: &'a Conf, key: &str) -> (r: Option<&'a Vec<Conf>>)
    ensures
        match r {
            Some(items) => items@ == blocks_of(*tconf, key@),
            None => blocks_of(*tconf, key@).len() == 0,
        },
{
    match tconf.get(key) {
        Some(Conf::List(items)) => Some(items),
        _ => None,
    }
}

/// The settings that hold for every device that sets none of its own: those
/// of the table of the document, or the defaults where the document is none.
pub fn settings_default(tconf: &Conf) -> (r: Settings)
    requires
        typed(*tconf),
    ensures
        r@ == settings_with(*tconf, defaults()),
{
    if tconf.is_table() {
        Settings::from(tconf)
    } else {
        let none = Conf::Flag(false);
        Settings::from(&none)
    }
}

/// The indexes that the document allows under `property_name`.
pub fn extract_ids(tconf: &Conf, property_name: &str) -> (r: HashSet<i32>)
    ensures
        r@ == id_set(blocks_of(*tconf, property_name@)),
{
    let mut out: HashSet<i32> = HashSet::new();
    match blocks(tconf, property_name) {
        Some(items) => {
            let mut i: usize = 0;
            while i < items.len()
                invariant
                    i <= items.len(),
                    out@ == id_set(items@.take(i as int)),
                decreases items.len() - i,
            {
                assert(items@.take(i + 1).drop_last() =~= items@.take(i as int));
                match &items[i] {
                    Conf::Int(v) => {
                        out.insert(id_of(*v));
                    },
                    _ => {},
                }
                i += 1;
            }
            assert(items@.take(items.len() as int) =~= items@);
        },
        None => {},
    }
    out
}

/// Whether a block describes a device of its own.
pub fn is_device_block(c: &Conf) -> (r: bool)
    ensures
        r == describes_device(*c),
{
    if !c.is_table() {
        return false;
    }
    let has_sys: bool = match c.get("sys_temp_input") {
        Some(v) => v.is_array(),
        None => false,
    };
    let has_nv: bool = match c.get("nv_temp_input") {
        Some(v) => v.is_array(),
        None => false,
    };
    has_sys || has_nv
}

/// Whether every block that describes a device of its own sets integers only
/// where numbers are set.
pub fn are_devices_typed(tconf: &Conf) -> (r: bool)
    ensures
        r == devices_typed(*tconf),
{
    match blocks(tconf, "devices") {
        Some(items) => {
            let mut i: usize = 0;
            while i < items.len()
                invariant
                    i <= items.len(),
                    items@ == blocks_of(*tconf, "devices"@),
                    forall|k: int|
                        0 <= k < i && describes_device(#[trigger] items@[k]) ==> typed(items@[k]),
                decreases items.len() - i,
            {
                if is_device_block(&items[i]) && !Settings::is_typed(&items[i]) {
                    return false;
                }
                i += 1;
            }
            true
        },
        None => true,
    }
}

/// The devices of their own that the document describes under `devices`, in
/// their order: each with its number, counted from 0, and its settings over
/// `set_def`.
pub fn init_devices(tconf: &Conf, set_def: &Settings) -> (r: Vec<(i32, Settings)>)
    requires
        devices_typed(*tconf),
    ensures
        r@.len() == device_blocks(blocks_of(*tconf, "devices"@)).len(),
        forall|k: int|
            0 <= k < r@.len() ==> (#[trigger] r@[k]).0 == k as i32 && r@[k].1@ == settings_with(
                device_blocks(blocks_of(*tconf, "devices"@))[k],
                set_def@,
            ),
{
    let mut devices: Vec<(i32, Settings)> = Vec::new();
    match blocks(tconf, "devices") {
        Some(dcfg) => {
            let mut i: usize = 0;
            while i < dcfg.len()
                invariant
                    i <= dcfg.len(),
                    dcfg@ == blocks_of(*tconf, "devices"@),
                    devices_typed(*tconf),
                    devices@.len() == device_blocks(dcfg@.take(i as int)).len(),
                    forall|k: int|
                        0 <= k < devices@.len() ==> (#[trigger] devices@[k]).0 == k as i32
                            && devices@[k].1@ == settings_with(
                            device_blocks(dcfg@.take(i as int))[k],
                            set_def@,
                        ),
                decreases dcfg.len() - i,
            {
                assert(dcfg@.take(i + 1).drop_last() =~= dcfg@.take(i as int));
                if is_device_block(&dcfg[i]) {
                    let dev_set: Settings = Settings::from_with(&dcfg[i], set_def);
                    let id: i32 = count_id(devices.len());
                    devices.push((id, dev_set));
                }
                i += 1;
            }
            assert(dcfg@.take(dcfg.len() as int) =~= dcfg@);
        },
        None => {},
    }
    devices
}

/// The integers among the items that are not negative, in their order, each
/// cut to `i32`.
pub open spec fn ids_of(items: Seq<Conf>) -> Seq<i32>
    decreases items.len(),
{
    if items.len() == 0 {
        Seq::empty()
    } else {
        match items.last() {
            Conf::Int(i) => if i >= 0 {
                ids_of(items.drop_last()).push(i as i32)
            } else {
                ids_of(items.drop_last())
            },
            _ => ids_of(items.drop_last()),
        }
    }
}

/// The indexes of the fans that a block sets: those of its array `idx`.
pub open spec fn block_ids(c: Conf) -> Seq<i32> {
    match c.field("idx"@) {
        Some(v) => ids_of(v.items()),
        None => Seq::empty(),
    }
}

/// The settings of every index of `ids` replaced, in `m`, by `set`.
pub open spec fn with_ids(m: Map<i32, SettingsView>, ids: Seq<i32>, set: SettingsView) -> Map<
    i32,
    SettingsView,
>
    decreases ids.len(),
{
    if ids.len() == 0 {
        m
    } else {
        with_ids(m, ids.drop_last(), set).insert(ids.last(), set)
    }
}

/// The settings of single fans that the blocks give over `setdef`: each block
/// sets those of the indexes it names, a later block over an earlier one.
/// With `nv` these are the fans of the accelerators, which are set by the
/// blocks of the kind `nv`; without it those of all other blocks.
pub open spec fn propellers(blocks: Seq<Conf>, setdef: SettingsView, nv: bool) -> Map<
    i32,
    SettingsView,
>
    decreases blocks.len(),
{
    if blocks.len() == 0 {
        Map::empty()
    } else {
        let before = propellers(blocks.drop_last(), setdef, nv);
        let set = settings_with(blocks.last(), setdef);
        if (set.dev_type == "nv"@) == nv {
            with_ids(before, block_ids(blocks.last()), set)
        } else {
            before
        }
    }
}

/// Every block that names a fan sets integers only where numbers are set.
pub open spec fn propellers_typed(tconf: Conf) -> bool {
    forall|i: int|
        0 <= i < blocks_of(tconf, "propellers"@).len() && block_ids(
            #[trigger] blocks_of(tconf, "propellers"@)[i],
        ).len() > 0 ==> typed(blocks_of(tconf, "propellers"@)[i])
}

/// What the settings of a map hold.
pub open spec fn views(m: Map<i32, Settings>) -> Map<i32, SettingsView> {
    Map::new(|k: i32| m.contains_key(k), |k: i32| m[k]@)
}

/// The device is one of those that the document allows: an accelerator
/// whose index is under `nv_idx`, or another device whose index is under
/// `idx`.
pub open spec fn allowed(d: Device, tconf: Conf) -> bool {
    if d.dev_type@ == "nv"@ {
        id_set(blocks_of(tconf, "nv_idx"@)).contains(d.id)
    } else {
        id_set(blocks_of(tconf, "idx"@)).contains(d.id)
    }
}

/// The settings of a device: those that a block gives to its fan, else
/// `set_def`.
pub open spec fn settings_of(d: Device, tconf: Conf, set_def: SettingsView) -> SettingsView {
    let set = propellers(blocks_of(tconf, "propellers"@), set_def, d.dev_type@ == "nv"@);
    if set.contains_key(d.id) {
        set[d.id]
    } else {
        set_def
    }
}

/// The devices, of `devs`, that the document allows, in their order.
pub open spec fn allowed_devices(devs: Seq<Device>, tconf: Conf) -> Seq<Device>
    decreases devs.len(),
{
    if devs.len() == 0 {
        devs
    } else if allowed(devs.last(), tconf) {
        allowed_devices(devs.drop_last(), tconf).push(devs.last())
    } else {
        allowed_devices(devs.drop_last(), tconf)
    }
}

/// The integers among the items that are not negative.
fn ids(items: &Vec<Conf>) -> (r: Vec<i32>)
    ensures
        r@ == ids_of(items@),
{
    let mut out: Vec<i32> = Vec::new();
    let mut i: usize = 0;
    while i < items.len()
        invariant
            i <= items.len(),
            out@ == ids_of(items@.take(i as int)),
        decreases items.len() - i,
    {
        assert(items@.take(i + 1).drop_last() =~= items@.take(i as int));
        match &items[i] {
            Conf::Int(v) => {
                if *v >= 0 {
                    out.push(id_of(*v));
                }
            },
            _ => {},
        }
        i += 1;
    }
    assert(items@.take(items.len() as int) =~= items@);
    out
}

/// The indexes of the fans that a block sets.
fn fan_ids(c: &Conf) -> (r: Vec<i32>)
    ensures
        r@ == block_ids(*c),
{
    match c.get("idx") {
        Some(Conf::List(items)) => ids(items),
        _ => Vec::new(),
    }
}

/// Whether every block that names a fan sets integers only where numbers
/// are set.
pub fn are_propellers_typed(tconf: &Conf) -> (r: bool)
    ensures
        r == propellers_typed(*tconf),
{
    match blocks(tconf, "propellers") {
        Some(items) => {
            let mut i: usize = 0;
            while i < items.len()
                invariant
                    i <= items.len(),
                    items@ == blocks_of(*tconf, "propellers"@),
                    forall|k: int|
                        0 <= k < i && block_ids(#[trigger] items@[k]).len() > 0 ==> typed(
                            items@[k],
                        ),
                decreases items.len() - i,
            {
                let named: Vec<i32> = fan_ids(&items[i]);
                if named.len() > 0 && !Settings::is_typed(&items[i]) {
                    return false;
                }
                i += 1;
            }
            true
        },
        None => true,
    }
}

/// The settings of single fans that the document gives under `propellers`
/// over `setdef`: first those of the fans of sensor directories, then those
/// of the fans of accelerators.
pub fn settings_propellers(tconf: &Conf, setdef: &Settings) -> (r: (
    HashMap<i32, Settings>,
    HashMap<i32, Settings>,
))
    requires
        propellers_typed(*tconf),
    ensures
        views(r.0@) == propellers(blocks_of(*tconf, "propellers"@), setdef@, false),
        views(r.1@) == propellers(blocks_of(*tconf, "propellers"@), setdef@, true),
{
    let mut scfg: HashMap<i32, Settings> = HashMap::new();
    let mut nvcfg: HashMap<i32, Settings> = HashMap::new();
    match blocks(tconf, "propellers") {
        Some(ccfg) => {
            let mut i: usize = 0;
            while i < ccfg.len()
                invariant
                    i <= ccfg.len(),
                    ccfg@ == blocks_of(*tconf, "propellers"@),
                    propellers_typed(*tconf),
                    views(scfg@) == propellers(ccfg@.take(i as int), setdef@, false),
                    views(nvcfg@) == propellers(ccfg@.take(i as int), setdef@, true),
                decreases ccfg.len() - i,
            {
                let c: &Conf = &ccfg[i];
                let named: Vec<i32> = fan_ids(c);
                let ghost set = settings_with(*c, setdef@);
                let ghost sys_before = views(scfg@);
                let ghost nv_before = views(nvcfg@);
                assert(ccfg@.take(i + 1).drop_last() =~= ccfg@.take(i as int));
                let mut j: usize = 0;
                while j < named.len()
                    invariant
                        j <= named.len(),
                        named@ == block_ids(*c),
                        named@.len() > 0 ==> typed(*c),
                        set == settings_with(*c, setdef@),
                        views(scfg@) == if set.dev_type == "nv"@ {
                            sys_before
                        } else {
                            with_ids(sys_before, named@.take(j as int), set)
                        },
                        views(nvcfg@) == if set.dev_type == "nv"@ {
                            with_ids(nv_before, named@.take(j as int), set)
                        } else {
                            nv_before
                        },
                    decreases named.len() - j,
                {
                    let dev_set: Settings = Settings::from_with(c, setdef);
                    let id: i32 = named[j];
                    assert(named@.take(j + 1).drop_last() =~= named@.take(j as int));
                    if same_text(dev_set.dev_type.as_str(), "nv") {
                        nvcfg.insert(id, dev_set);
                    } else {
                        scfg.insert(id, dev_set);
                    }
                    j += 1;
                }
                assert(named@.take(named.len() as int) =~= named@);
                i += 1;
            }
            assert(ccfg@.take(ccfg.len() as int) =~= ccfg@);
        },
        None => {},
    }
    (scfg, nvcfg)
}

/// The devices, of the known ones, that the document asks to control, in
/// their order, each with the settings that hold for it.
pub fn init_karlsons(tconf: &Conf, set_def: &Settings, devs: Vec<Device>) -> (r: Vec<
    (Device, Settings),
>)
    requires
        propellers_typed(*tconf),
    ensures
        r@.len() == allowed_devices(devs@, *tconf).len(),
        forall|k: int|
            0 <= k < r@.len() ==> (#[trigger] r@[k]).0 == allowed_devices(devs@, *tconf)[k]
                && r@[k].1@ == settings_of(r@[k].0, *tconf, set_def@),
{
    let (sys_set, nv_set) = settings_propellers(tconf, set_def);
    let sys_ids: HashSet<i32> = extract_ids(tconf, "idx");
    let nv_ids: HashSet<i32> = extract_ids(tconf, "nv_idx");
    let mut rest: Vec<Device> = devs;
    let mut karlsons: Vec<(Device, Settings)> = Vec::new();
    let ghost mut done: int = 0;
    while rest.len() > 0
        invariant
            0 <= done <= devs@.len(),
            rest@ == devs@.subrange(done, devs@.len() as int),
            sys_ids@ == id_set(blocks_of(*tconf, "idx"@)),
            nv_ids@ == id_set(blocks_of(*tconf, "nv_idx"@)),
            views(sys_set@) == propellers(blocks_of(*tconf, "propellers"@), set_def@, false),
            views(nv_set@) == propellers(blocks_of(*tconf, "propellers"@), set_def@, true),
            karlsons@.len() == allowed_devices(devs@.take(done), *tconf).len(),
            forall|k: int|
                0 <= k < karlsons@.len() ==> (#[trigger] karlsons@[k]).0 == allowed_devices(
                    devs@.take(done),
                    *tconf,
                )[k] && karlsons@[k].1@ == settings_of(karlsons@[k].0, *tconf, set_def@),
        decreases rest.len(),
    {
        let d: Device = rest.remove(0);
        proof {
            assert(devs@.take(done + 1).drop_last() =~= devs@.take(done));
            done = done + 1;
        }
        let nv: bool = same_text(d.dev_type.as_str(), "nv");
        let skipit: bool = if nv {
            !nv_ids.contains(&d.id)
        } else {
            !sys_ids.contains(&d.id)
        };
        if !skipit {
            let found: Option<&Settings> = if nv {
                nv_set.get(&d.id)
            } else {
                sys_set.get(&d.id)
            };
            let ns: Settings = match found {
                Some(s) => s.duplicate(),
                None => set_def.duplicate(),
            };
            karlsons.push((d, ns));
        }
    }
    assert(devs@.take(devs@.len() as int) =~= devs@);
    karlsons
}

} // verus!
