//! Devices of the sensor directories under `/sys/class/hwmon`: what their
//! files are called, what the texts in them mean, and how a fan is limited.
//! Reading and writing the files is left to the caller.

use crate::device::limit_level;
use crate::device::limited;
use crate::device::read_file_val_or;
use crate::device::Device;
use crate::device::Propeller;
use crate::settings::Settings;
use crate::device::Thermometer;
use crate::pattern::captures;
use crate::pattern::compile;
use crate::pattern::groups_text;
use crate::pattern::regex_captures;
use crate::pattern::regex_compiles;
use crate::text::file_name;
use crate::text::i32_of;
use crate::text::join_path;
use crate::text::joined;
use crate::text::parse_i32;
use crate::text::path_file_name;
use crate::text::same_text;
use crate::text::signed_decimal;
use crate::text::signed_text;
use crate::text::texts;
use crate::text::trim;
use crate::text::trimmed;
use crate::text::usize_of;
use vstd::prelude::*;
use vstd::string::StringExecFns;

verus! {

/// The directory that holds one directory for each sensor chip, where the
/// system keeps it.
pub const DIR_DEVICES: &'static str = "/sys/class/hwmon";

/// Temperature files hold thousandths of a degree.
pub const TEMP_SCALE: usize = 1000;

/// The index of a directory whose path shows none.
pub const NO_ID: i32 = -1;

/// How the path of a sensor directory ends: in its index.
pub const HWMON_PATTERN: &'static str = r"hwmon(\d+)[/\s]*$";

/// A fan that is driven through a file.
#[derive(Debug, PartialEq, Eq)]
pub struct PropellerSys {
    pub pfile: String,
    pub min: usize,
    pub max: usize,
}

/// A temperature input that is read from a file.
#[derive(Debug, PartialEq, Eq)]
pub struct ThermometerSys {
    pub temp_file: String,
}

/// The index that the capture groups of a directory's path give: the number
/// in the first group, `-1` where there is none.
pub open spec fn hwmon_id(found: Option<Seq<Option<Seq<char>>>>) -> i32 {
    match found {
        Some(groups) => if groups.len() > 1 && groups[1] is Some {
            match i32_of(groups[1]->0) {
                Some(id) => id,
                None => NO_ID,
            }
        } else {
            NO_ID
        },
        None => NO_ID,
    }
}

/// The index of the sensor directory at the path `dir`; `NO_ID` where the path
/// shows none.
pub open spec fn directory_id(dir: Seq<char>) -> i32 {
    if regex_compiles(HWMON_PATTERN@) {
        hwmon_id(regex_captures(HWMON_PATTERN@, dir))
    } else {
        NO_ID
    }
}

/// What a sensor directory is listed as: the last name of its path, `ERR`
/// where it has none, and in brackets the text of its `name` file, trimmed,
/// or `?!?` where that could not be read.
pub open spec fn directory_name(dir: Seq<char>, name_file: Option<String>) -> Seq<char> {
    (match file_name(dir) {
        Some(n) => n,
        None => "ERR"@,
    }) + "("@ + trimmed(
        match name_file {
            Some(t) => t@,
            None => "?!?"@,
        },
    ) + ")"@
}

/// `d` is the device that a sensor directory is listed as: no fan and no
/// inputs are known of it yet.
pub open spec fn lists(d: Device, dir: Seq<char>, name_file: Option<String>) -> bool {
    &&& d.id == directory_id(dir)
    &&& d.dev_type@ == "sys"@
    &&& d.name@ == directory_name(dir, name_file)
    &&& d.termometers@.len() == 0
    &&& d.propeller is None
}

/// The index that the capture groups of a directory's path give.
pub fn device_id(found: &Option<Vec<Option<String>>>) -> (id: i32)
    ensures
        id == hwmon_id(
            match *found {
                Some(groups) => Some(groups_text(groups@)),
                None => None,
            },
        ),
{
    match found {
        Some(groups) => {
            if groups.len() > 1 {
                match &groups[1] {
                    Some(ts) => match parse_i32(ts.as_str()) {
                        Some(id) => id,
                        None => NO_ID,
                    },
                    None => NO_ID,
                }
            } else {
                NO_ID
            }
        },
        None => NO_ID,
    }
}

/// The device that the sensor directory at `dir` is listed as. `name_file` is
/// the text of its `name` file, where that could be read.
pub fn create_device(dir: &str, name_file: Option<String>) -> (d: Device)
    ensures
        lists(d, dir@, name_file),
{
    let id: i32 = match compile(HWMON_PATTERN) {
        Some(re) => {
            let co = captures(&re, dir);
            device_id(&co)
        },
        None => NO_ID,
    };
    let mut dn: String = match path_file_name(dir) {
        Some(n) => n,
        None => "ERR".to_owned(),
    };
    dn.append("(");
    match &name_file {
        Some(fval) => {
            dn.append(trim(fval.as_str()));
        },
        None => {
            dn.append(trim("?!?"));
        },
    }
    dn.append(")");
    Device {
        id: id,
        dev_type: "sys".to_owned(),
        name: dn,
        termometers: Vec::new(),
        propeller: None,
    }
}

/// The temperature input at the path `p`, where the file exists.
pub fn sys_termometer_from(p: &str, exists: bool) -> (r: Result<ThermometerSys, String>)
    ensures
        exists ==> r is Ok && r->Ok_0.temp_file@ == p@,
        !exists ==> r is Err && r->Err_0@ == "ERROR! TEMP file does not exist "@ + p@,
{
    if exists {
        Ok(ThermometerSys { temp_file: p.to_owned() })
    } else {
        let mut msg: String = "ERROR! TEMP file does not exist ".to_owned();
        msg.append(p);
        Err(msg)
    }
}

/// The fan at the path `p`, where the file exists: limited to the levels from
/// `pwm_min` of the settings to 100.
pub fn sys_propeller_from(p: &str, exists: bool, set: &Settings) -> (r: Result<
    PropellerSys,
    String,
>)
    ensures
        exists ==> r is Ok && r->Ok_0.pfile@ == p@ && r->Ok_0.min == set.pwm_min && r->Ok_0.max
            == 100,
        !exists ==> r is Err && r->Err_0@ == "PWM file does not exist "@ + p@,
{
    if !exists {
        let mut msg: String = "PWM file does not exist ".to_owned();
        msg.append(p);
        return Err(msg);
    }
    Ok(PropellerSys { pfile: p.to_owned(), min: set.pwm_min, max: 100 })
}

impl PropellerSys {
    /// The level, in percent, that the fan is driven at when asked for `val`.
    pub fn pwm_set(&self, val: usize) -> (r: usize)
        ensures
            r == limited(val, self.min, self.max),
    {
        limit_level(val, self.min, self.max)
    }

    /// Takes over the lowest level of new settings.
    pub fn configure(&mut self, set: &Settings)
        ensures
            final(self).min == set.pwm_min,
            final(self).max == old(self).max,
            final(self).pfile == old(self).pfile,
    {
        self.min = set.pwm_min;
    }
}

impl ThermometerSys {
    /// The temperature, in degrees, that the text of the file gives; `0`
    /// where the file could not be read or holds no number.
    pub fn temp(&self, file: Result<String, String>) -> (r: usize)
        ensures
            r == match file {
                Ok(v) => match usize_of(trimmed(v@)) {
                    Some(n) => n / TEMP_SCALE,
                    None => 0,
                },
                Err(_) => 0,
            },
    {
        read_file_val_or(file, 0) / TEMP_SCALE
    }
}

/// The indexes of the devices do not fall along the sequence.
pub open spec fn sorted_by_id(s: Seq<Device>) -> bool {
    forall|i: int, j: int| 0 <= i < j < s.len() ==> s[i].id <= s[j].id
}

/// Where a device with the index `id` goes in a sequence: before the first
/// device with a higher index.
pub open spec fn slot(s: Seq<Device>, id: i32) -> int
    decreases s.len(),
{
    if s.len() == 0 || s[0].id > id {
        0
    } else {
        1 + slot(s.drop_first(), id)
    }
}

/// The devices in the order of their indexes, those of one index in the
/// order in which they came.
pub open spec fn ordered(made: Seq<Device>) -> Seq<Device>
    decreases made.len(),
{
    if made.len() == 0 {
        made
    } else {
        let front = ordered(made.drop_last());
        front.insert(slot(front, made.last().id), made.last())
    }
}

/// In a sorted sequence the slot of an index parts the devices with an
/// index up to it from those with a higher one.
proof fn lemma_slot_parts(s: Seq<Device>, id: i32)
    ensures
        0 <= slot(s, id) <= s.len(),
        forall|i: int| 0 <= i < slot(s, id) ==> (#[trigger] s[i]).id <= id,
        sorted_by_id(s) ==> forall|i: int| slot(s, id) <= i < s.len() ==> (#[trigger] s[i]).id > id,
    decreases s.len(),
{
    if s.len() > 0 && s[0].id <= id {
        let rest = s.drop_first();
        lemma_slot_parts(rest, id);
        assert forall|i: int| 0 <= i < slot(s, id) implies (#[trigger] s[i]).id <= id by {
            if i > 0 {
                assert(rest[i - 1] == s[i]);
            }
        }
        if sorted_by_id(s) {
            assert forall|i: int| slot(s, id) <= i < s.len() implies (#[trigger] s[i]).id > id by {
                assert(rest[i - 1] == s[i]);
            }
        }
    }
}

/// Ordering keeps every device, as often as it came, and leaves the indexes
/// sorted.
pub proof fn law_ordered_is_sorted(made: Seq<Device>)
    ensures
        ordered(made).len() == made.len(),
        ordered(made).to_multiset() == made.to_multiset(),
        sorted_by_id(ordered(made)),
    decreases made.len(),
{
    broadcast use vstd::seq_lib::group_to_multiset_ensures;

    if made.len() > 0 {
        let front = ordered(made.drop_last());
        let d = made.last();
        let k = slot(front, d.id);
        law_ordered_is_sorted(made.drop_last());
        lemma_slot_parts(front, d.id);
        vstd::seq_lib::to_multiset_insert(front, k, d);
        assert(made.drop_last().push(d) =~= made);
    }
}

/// Tells the devices with the index `id`.
pub open spec fn has_id(id: i32) -> spec_fn(Device) -> bool {
    |d: Device| d.id == id
}

/// The devices with the index `id`, in their order.
pub open spec fn of_id(s: Seq<Device>, id: i32) -> Seq<Device> {
    s.filter(has_id(id))
}

/// A sequence without a device of the index `id` gives none.
proof fn lemma_of_id_none(s: Seq<Device>, id: i32)
    requires
        forall|i: int| 0 <= i < s.len() ==> (#[trigger] s[i]).id != id,
    ensures
        of_id(s, id) == Seq::<Device>::empty(),
    decreases s.len(),
{
    reveal_with_fuel(Seq::filter, 2);
    if s.len() > 0 {
        lemma_of_id_none(s.drop_last(), id);
    }
}

/// Ordering keeps the devices of one index in the order in which they came.
pub proof fn law_ordered_is_stable(made: Seq<Device>, id: i32)
    ensures
        of_id(ordered(made), id) == of_id(made, id),
    decreases made.len(),
{
    reveal_with_fuel(Seq::filter, 2);
    if made.len() > 0 {
        let rest = made.drop_last();
        let d = made.last();
        let front = ordered(rest);
        let k = slot(front, d.id);
        law_ordered_is_stable(rest, id);
        law_ordered_is_sorted(rest);
        lemma_slot_parts(front, d.id);
        let a = front.take(k);
        let b = front.skip(k);
        let one = seq![d];
        assert(front.insert(k, d) =~= a + one + b);
        assert(front =~= a + b);
        Seq::filter_distributes_over_add(a, b, has_id(id));
        Seq::filter_distributes_over_add(a + one, b, has_id(id));
        Seq::filter_distributes_over_add(a, one, has_id(id));
        if d.id == id {
            lemma_of_id_none(b, id);
        }
    }
}

/// Where a device with the index `id` goes among sorted devices.
fn place(out: &Vec<Device>, id: i32) -> (k: usize)
    ensures
        k == slot(out@, id),
        k <= out.len(),
{
    let mut k: usize = 0;
    assert(out@.subrange(0, out@.len() as int) =~= out@);
    while k < out.len() && out[k].id <= id
        invariant
            k <= out.len(),
            slot(out@, id) == k + slot(out@.subrange(k as int, out@.len() as int), id),
        decreases out.len() - k,
    {
        assert(out@.subrange(k as int, out@.len() as int).drop_first() =~= out@.subrange(
            k + 1,
            out@.len() as int,
        ));
        k += 1;
    }
    k
}

/// Puts the devices in the order of their indexes, those of one index in the
/// order in which they came.
pub fn sort_by_id(devices: Vec<Device>) -> (r: Vec<Device>)
    ensures
        r@ == ordered(devices@),
{
    let ghost made = devices@;
    let mut rest: Vec<Device> = devices;
    let mut out: Vec<Device> = Vec::new();
    let ghost mut done: int = 0;
    while rest.len() > 0
        invariant
            0 <= done <= made.len(),
            rest@ == made.subrange(done, made.len() as int),
            out@ == ordered(made.take(done)),
        decreases rest.len(),
    {
        let d: Device = rest.remove(0);
        let k: usize = place(&out, d.id);
        proof {
            assert(made.take(done + 1).drop_last() =~= made.take(done));
            done = done + 1;
        }
        out.insert(k, d);
    }
    assert(made.take(made.len() as int) =~= made);
    out
}

/// The devices of the sensor directories, in the order of their indexes.
/// Each entry holds the path of one directory and the text of its `name`
/// file, where that could be read.
pub fn sys_devices(entries: Vec<(String, Option<String>)>) -> (r: Vec<Device>)
    ensures
        exists|made: Seq<Device>|
            {
                &&& made.len() == entries@.len()
                &&& forall|i: int|
                    0 <= i < made.len() ==> lists(#[trigger] made[i], entries@[i].0@, entries@[i].1)
                &&& r@ == ordered(made)
            },
{
    let mut rest: Vec<(String, Option<String>)> = entries;
    let mut paths: Vec<Device> = Vec::new();
    let ghost mut done: int = 0;
    while rest.len() > 0
        invariant
            0 <= done <= entries@.len(),
            rest@ == entries@.subrange(done, entries@.len() as int),
            paths@.len() == done,
            forall|i: int|
                0 <= i < done ==> lists(#[trigger] paths@[i], entries@[i].0@, entries@[i].1),
        decreases rest.len(),
    {
        let (dir, name_file) = rest.remove(0);
        let d: Device = create_device(dir.as_str(), name_file);
        paths.push(d);
        proof {
            done = done + 1;
        }
    }
    sort_by_id(paths)
}

/// The path of the sensor directory with the index `id` under the
/// directory `root`.
pub open spec fn directory_path(root: Seq<char>, id: i32) -> Seq<char> {
    joined(root, "hwmon"@ + signed_text(id as int))
}

/// `exist` says of the file at the place `i` that it was found.
pub open spec fn found_at(exist: Seq<bool>, i: int) -> bool {
    0 <= i < exist.len() && exist[i]
}

/// The files, of `files`, that were found, in their order.
pub open spec fn found_files(files: Seq<Seq<char>>, exist: Seq<bool>) -> Seq<Seq<char>>
    decreases files.len(),
{
    if files.len() == 0 {
        files
    } else if found_at(exist, files.len() - 1) {
        found_files(files.drop_last(), exist).push(files.last())
    } else {
        found_files(files.drop_last(), exist)
    }
}

/// The files that a run of inputs is read from.
pub open spec fn temp_files(inputs: Seq<ThermometerSys>) -> Seq<Seq<char>> {
    Seq::new(inputs.len(), |i: int| inputs[i].temp_file@)
}

/// The temperature files of the sensor directory `id` that the settings name.
pub open spec fn wanted_temp_files(root: Seq<char>, id: i32, set: Settings) -> Seq<Seq<char>> {
    Seq::new(
        set.sys_temp_files@.len(),
        |i: int| joined(directory_path(root, id), set.sys_temp_files@[i]@),
    )
}

/// Whether a device is one of the sensor directories.
pub fn is_sys(d: &Device) -> (r: bool)
    ensures
        r == (d.dev_type@ == "sys"@),
{
    same_text(d.dev_type.as_str(), "sys")
}

/// The path of the sensor directory with the index `id` under the
/// directory `root`.
pub fn sys_device_dir(root: &str, id: i32) -> (r: String)
    ensures
        r@ == directory_path(root@, id),
{
    let mut name: String = "hwmon".to_owned();
    let digits: String = signed_decimal(id);
    name.append(digits.as_str());
    join_path(root, name.as_str())
}

/// The files of the sensor directory `id` that the settings name: its fan
/// file, and its temperature files in their order.
pub fn sys_device_files(root: &str, id: i32, set: &Settings) -> (r: (String, Vec<String>))
    ensures
        r.0@ == joined(directory_path(root@, id), set.sys_pwm_file@),
        texts(r.1@) == wanted_temp_files(root@, id, *set),
{
    let pd: String = sys_device_dir(root, id);
    let p: String = join_path(pd.as_str(), set.sys_pwm_file.as_str());
    let mut temps: Vec<String> = Vec::new();
    let mut i: usize = 0;
    while i < set.sys_temp_files.len()
        invariant
            i <= set.sys_temp_files.len(),
            pd@ == directory_path(root@, id),
            temps@.len() == i,
            forall|j: int|
                0 <= j < i ==> (#[trigger] temps@[j])@ == joined(
                    directory_path(root@, id),
                    set.sys_temp_files@[j]@,
                ),
        decreases set.sys_temp_files.len() - i,
    {
        temps.push(join_path(pd.as_str(), set.sys_temp_files[i].as_str()));
        i += 1;
    }
    (p, temps)
}

/// The fan and the inputs of the sensor directory `id` under the settings:
/// the fan where its file was found, and an input for each temperature file
/// that was found. `temps_exist` says of each temperature file, in the order
/// of the settings, whether it was found.
pub fn sys_device_backends(
    root: &str,
    id: i32,
    set: &Settings,
    pwm_exists: bool,
    temps_exist: &Vec<bool>,
) -> (r: (Result<PropellerSys, String>, Vec<ThermometerSys>))
    ensures
        pwm_exists ==> r.0 is Ok && r.0->Ok_0.pfile@ == joined(
            directory_path(root@, id),
            set.sys_pwm_file@,
        ) && r.0->Ok_0.min == set.pwm_min && r.0->Ok_0.max == 100,
        !pwm_exists ==> r.0 is Err && r.0->Err_0@ == "PWM file does not exist "@ + joined(
            directory_path(root@, id),
            set.sys_pwm_file@,
        ),
        temp_files(r.1@) == found_files(wanted_temp_files(root@, id, *set), temps_exist@),
{
    let (p, files) = sys_device_files(root, id, set);
    let propeller = sys_propeller_from(p.as_str(), pwm_exists, set);
    let mut inputs: Vec<ThermometerSys> = Vec::new();
    let mut i: usize = 0;
    let ghost wanted = wanted_temp_files(root@, id, *set);
    while i < files.len()
        invariant
            i <= files.len(),
            texts(files@) == wanted,
            temp_files(inputs@) == found_files(wanted.take(i as int), temps_exist@),
        decreases files.len() - i,
    {
        let exists: bool = i < temps_exist.len() && temps_exist[i];
        assert(wanted.take(i + 1).drop_last() =~= wanted.take(i as int));
        assert(wanted.take(i + 1).last() == files@[i as int]@);
        match sys_termometer_from(files[i].as_str(), exists) {
            Ok(t) => {
                inputs.push(t);
            },
            Err(_) => {},
        }
        i += 1;
    }
    assert(wanted.take(files.len() as int) =~= wanted);
    (propeller, inputs)
}

/// A device with its fan and inputs set anew: the fan only where one was
/// found.
pub fn sys_device_update(
    d: Device,
    propeller: Option<Box<dyn Propeller>>,
    termometers: Vec<Box<dyn Thermometer>>,
) -> (dd: Device)
    ensures
        dd.id == d.id,
        dd.dev_type == d.dev_type,
        dd.name == d.name,
        dd.propeller == if propeller is Some {
            propeller
        } else {
            d.propeller
        },
        dd.termometers == termometers,
{
    let Device { id, dev_type, name, propeller: known, termometers: _ } = d;
    let fan: Option<Box<dyn Propeller>> = if propeller.is_some() {
        propeller
    } else {
        known
    };
    Device { id: id, dev_type: dev_type, name: name, propeller: fan, termometers: termometers }
}

} // verus!
