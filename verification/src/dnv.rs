//! Accelerators that are read and driven through the vendor's tools: which
//! commands are run, and what the texts they print mean. Running the commands
//! is left to the caller.

use crate::device::limit_level;
use crate::device::limited;
use crate::device::Device;
use crate::pattern::captures_iter;
use crate::pattern::compile;
use crate::pattern::matches_text;
use crate::pattern::regex_captures_iter;
use crate::pattern::regex_compiles;
use crate::text::chars_of;
use crate::text::contains;
use crate::text::contains_text;
use crate::text::decimal;
use crate::text::decimal_text;
use crate::text::i32_of;
use crate::text::parse_i32;
use crate::text::parse_trimmed_usize;
use crate::text::remove_char;
use crate::text::signed_decimal;
use crate::text::signed_text;
use crate::text::texts;
use crate::text::trim_bounds;
use crate::text::trimmed;
use crate::text::usize_in;
use crate::text::usize_of;
use crate::text::without;
use vstd::prelude::*;
use vstd::string::StringExecFns;

verus! {

/// The tool that lists the accelerators and reads them.
pub const NVIDIA_SMI: &'static str = "nvidia-smi";

/// The tool that drives the fans.
pub const NVIDIA_SETTINGS: &'static str = "nvidia-settings";

/// The index of an accelerator whose line shows none.
pub const NO_ID: i32 = -1;

/// A line of the list of accelerators: its index, and its name without the
/// brand.
pub const GPU_PATTERN: &'static str =
    r"(?m)^\s*GPU\s+(?P<id>\d+):\s+(GeForce\s+)*(?P<name>.+\S+)\s*\(UUID:.+$";

/// The fan of an accelerator.
#[derive(Debug, PartialEq, Eq)]
pub struct PropellerNv {
    pub id: i32,
    pub min: usize,
    pub max: usize,
}

/// The temperature input of an accelerator.
#[derive(Debug, PartialEq, Eq)]
pub struct ThermometerNv {
    pub id: i32,
}

/// What a command gave that ran to its end.
#[derive(Debug, PartialEq, Eq)]
pub struct Ran {
    /// It reported success.
    pub success: bool,
    /// What it printed.
    pub stdout: String,
    /// What it printed as errors.
    pub stderr: String,
}

/// How far a request to a fan has come.
#[derive(Debug, Clone, Copy, PartialEq, Eq)]
pub enum NvStage {
    /// The state of the fan control was asked for.
    FanState,
    /// The level was written.
    Write,
    /// The level was asked for.
    ReadBack,
}

/// What a request to a fan needs next.
#[derive(Debug, PartialEq, Eq)]
pub enum NvNext {
    /// The program is to be run with the arguments, and what it gave handed
    /// back with the stage `then`.
    Run { program: String, args: Vec<String>, then: NvStage },
    /// The request is done.
    Done(Result<usize, String>),
}

/// The index that the capture groups of a line give: the number in the first
/// group, `-1` where there is none.
pub open spec fn gpu_id(groups: Seq<Option<Seq<char>>>) -> i32 {
    if groups.len() > 1 && groups[1] is Some {
        match i32_of(groups[1]->0) {
            Some(id) => id,
            None => NO_ID,
        }
    } else {
        NO_ID
    }
}

/// The name that the capture groups of a line give: the text of the third
/// group, empty where there is none.
pub open spec fn gpu_name(groups: Seq<Option<Seq<char>>>) -> Seq<char> {
    if groups.len() > 3 && groups[3] is Some {
        groups[3]->0
    } else {
        Seq::empty()
    }
}

/// `d` is the accelerator with the index `id` and the name `name`, as it is
/// listed: no fan and no inputs are attached to it yet.
pub open spec fn lists(d: Device, id: i32, name: Seq<char>) -> bool {
    &&& d.id == id
    &&& d.dev_type@ == "nv"@
    &&& d.name@ == name
    &&& d.termometers@.len() == 0
    &&& d.propeller is None
}

/// The arguments that ask for the temperature of the accelerator `id`.
pub open spec fn temp_query(id: i32) -> Seq<Seq<char>> {
    seq![
        "--query-gpu=temperature.gpu"@,
        "--format=csv,noheader"@,
        "-i"@,
        signed_text(id as int),
    ]
}

/// The arguments that ask for the fan level of the accelerator `id`.
pub open spec fn pwm_query(id: i32) -> Seq<Seq<char>> {
    seq!["--query-gpu=fan.speed"@, "--format=csv,noheader"@, "-i"@, signed_text(id as int)]
}

/// The arguments that ask whether the fan of the accelerator `id` is under
/// control.
pub open spec fn fan_state_query(id: i32) -> Seq<Seq<char>> {
    seq!["-q"@, "[gpu:"@ + signed_text(id as int) + "]/GPUFanControlState"@]
}

/// What the answer holds where the fan of the accelerator `id` is under
/// control.
pub open spec fn fan_state_mark(id: i32) -> Seq<char> {
    "[gpu:"@ + signed_text(id as int) + "]): 1"@
}

/// The arguments that set the fan of the accelerator `id` to `nval`, taking
/// it under control first where it is not.
pub open spec fn pwm_set_command(id: i32, nval: usize, fan_state: bool) -> Seq<Seq<char>> {
    let set = seq![
        "-a"@,
        "[fan:"@ + signed_text(id as int) + "]/GPUTargetFanSpeed="@ + decimal_text(nval as nat),
    ];
    if fan_state {
        set
    } else {
        seq!["-a"@, "[gpu:"@ + signed_text(id as int) + "]/GPUFanControlState=1"@] + set
    }
}

/// The fan level that a printed answer gives: its number, any `%` and the
/// white space around it apart.
pub open spec fn printed_level(out: Seq<char>) -> Option<usize> {
    usize_of(trimmed(without(out, '%')))
}

/// The temperature input of the accelerator `id`.
pub fn nv_termometer_from(id: i32) -> (r: Result<ThermometerNv, String>)
    ensures
        r is Ok,
        r->Ok_0.id == id,
{
    Ok(ThermometerNv { id: id })
}

/// The accelerator with the index `nv_id` as it is listed, with its
/// temperature input and its fan, which takes any level up to 100.
pub fn create_device(nv_id: i32, name: String) -> (r: (Device, ThermometerNv, PropellerNv))
    ensures
        lists(r.0, nv_id, name@),
        r.1.id == nv_id,
        r.2.id == nv_id,
        r.2.min == 0,
        r.2.max == 100,
{
    (
        Device {
            dev_type: "nv".to_owned(),
            id: nv_id,
            name: name,
            termometers: Vec::new(),
            propeller: None,
        },
        ThermometerNv { id: nv_id },
        PropellerNv { id: nv_id, min: 0, max: 100 },
    )
}

/// The index that the capture groups of a line give.
pub fn device_id(groups: &Vec<Option<String>>) -> (id: i32)
    ensures
        id == gpu_id(crate::pattern::groups_text(groups@)),
{
    if groups.len() > 1 {
        match &groups[1] {
            Some(ts) => match parse_i32(ts.as_str()) {
                Some(id) => id,
                None => NO_ID,
            },
            None => NO_ID,
        }
    } else {
        NO_ID
    }
}

/// The name that the capture groups of a line give.
pub fn device_name(groups: &Vec<Option<String>>) -> (name: String)
    ensures
        name@ == gpu_name(crate::pattern::groups_text(groups@)),
{
    if groups.len() > 3 {
        match &groups[3] {
            Some(n) => n.clone(),
            None => String::new(),
        }
    } else {
        String::new()
    }
}

/// The accelerators that the lines matched in a list show, in their order.
pub fn devices_from(found: &Vec<Vec<Option<String>>>) -> (r: Vec<(Device, ThermometerNv, PropellerNv)>)
    ensures
        r@.len() == found@.len(),
        forall|i: int|
            0 <= i < r@.len() ==> {
                let groups = matches_text(found@)[i];
                &&& lists((#[trigger] r@[i]).0, gpu_id(groups), gpu_name(groups))
                &&& r@[i].1.id == gpu_id(groups)
                &&& r@[i].2.id == gpu_id(groups)
                &&& r@[i].2.min == 0
                &&& r@[i].2.max == 100
            },
{
    let mut out: Vec<(Device, ThermometerNv, PropellerNv)> = Vec::new();
    let mut i: usize = 0;
    while i < found.len()
        invariant
            i <= found.len(),
            out@.len() == i,
            forall|k: int|
                0 <= k < i ==> {
                    let groups = matches_text(found@)[k];
                    &&& lists((#[trigger] out@[k]).0, gpu_id(groups), gpu_name(groups))
                    &&& out@[k].1.id == gpu_id(groups)
                    &&& out@[k].2.id == gpu_id(groups)
                    &&& out@[k].2.min == 0
                    &&& out@[k].2.max == 100
                },
        decreases found.len() - i,
    {
        let id: i32 = device_id(&found[i]);
        let name: String = device_name(&found[i]);
        out.push(create_device(id, name));
        i += 1;
    }
    out
}

/// The accelerators that the list `nvout`, as the tool prints it, shows.
pub fn create_devices(nvout: &str) -> (r: Vec<(Device, ThermometerNv, PropellerNv)>)
    ensures
        !regex_compiles(GPU_PATTERN@) ==> r@.len() == 0,
        regex_compiles(GPU_PATTERN@) ==> {
            let found = regex_captures_iter(GPU_PATTERN@, nvout@);
            &&& r@.len() == found.len()
            &&& forall|i: int|
                0 <= i < r@.len() ==> {
                    &&& lists((#[trigger] r@[i]).0, gpu_id(found[i]), gpu_name(found[i]))
                    &&& r@[i].1.id == gpu_id(found[i])
                    &&& r@[i].2.id == gpu_id(found[i])
                    &&& r@[i].2.min == 0
                    &&& r@[i].2.max == 100
                }
        },
{
    match compile(GPU_PATTERN) {
        Some(re) => {
            let found = captures_iter(&re, nvout);
            devices_from(&found)
        },
        None => Vec::new(),
    }
}

/// The arguments for the tool that ask for the list of the accelerators.
pub fn list_query() -> (r: Vec<String>)
    ensures
        texts(r@) == seq!["--list-gpus"@],
{
    let mut args: Vec<String> = Vec::new();
    args.push("--list-gpus".to_owned());
    args
}

/// The accelerators that the tool lists: those that its answer shows, none
/// where it could not be run.
pub fn nv_devices(ran: &Result<Ran, String>) -> (r: Vec<(Device, ThermometerNv, PropellerNv)>)
    ensures
        match *ran {
            Ok(o) => {
                &&& !regex_compiles(GPU_PATTERN@) ==> r@.len() == 0
                &&& regex_compiles(GPU_PATTERN@) ==> {
                    let found = regex_captures_iter(GPU_PATTERN@, o.stdout@);
                    &&& r@.len() == found.len()
                    &&& forall|i: int|
                        0 <= i < r@.len() ==> {
                            &&& lists((#[trigger] r@[i]).0, gpu_id(found[i]), gpu_name(found[i]))
                            &&& r@[i].1.id == gpu_id(found[i])
                            &&& r@[i].2.id == gpu_id(found[i])
                            &&& r@[i].2.min == 0
                            &&& r@[i].2.max == 100
                        }
                }
            },
            Err(_) => r@.len() == 0,
        },
{
    match ran {
        Ok(o) => create_devices(o.stdout.as_str()),
        Err(_) => Vec::new(),
    }
}

/// The arguments `--query-gpu=<what>`, `--format=csv,noheader`, `-i` and the
/// index.
fn query(what: &str, id: i32) -> (r: Vec<String>)
    ensures
        texts(r@) == seq![what@, "--format=csv,noheader"@, "-i"@, signed_text(id as int)],
{
    let mut args: Vec<String> = Vec::new();
    args.push(what.to_owned());
    args.push("--format=csv,noheader".to_owned());
    args.push("-i".to_owned());
    args.push(signed_decimal(id));
    args
}

/// The text `head`, the index `id` and `tail`.
fn tagged(head: &str, id: i32, tail: &str) -> (r: String)
    ensures
        r@ == head@ + signed_text(id as int) + tail@,
{
    let mut out: String = head.to_owned();
    let digits: String = signed_decimal(id);
    out.append(digits.as_str());
    out.append(tail);
    out
}

impl ThermometerNv {
    /// The arguments for the tool that ask for the temperature.
    pub fn query(&self) -> (r: Vec<String>)
        ensures
            texts(r@) == temp_query(self.id),
    {
        query("--query-gpu=temperature.gpu", self.id)
    }

    /// The temperature that the tool printed; `0` where it could not be run
    /// or printed no number.
    pub fn temp(&self, ran: Result<Ran, String>) -> (r: usize)
        ensures
            r == match ran {
                Ok(o) => match usize_of(trimmed(o.stdout@)) {
                    Some(t) => t,
                    None => 0,
                },
                Err(_) => 0,
            },
    {
        match ran {
            Ok(o) => match parse_trimmed_usize(o.stdout.as_str()) {
                Some(t) => t,
                None => 0,
            },
            Err(_) => 0,
        }
    }
}

impl PropellerNv {
    /// The arguments for the tool that ask whether the fan is under control.
    pub fn fan_state_query(&self) -> (r: Vec<String>)
        ensures
            texts(r@) == fan_state_query(self.id),
    {
        let mut args: Vec<String> = Vec::new();
        args.push("-q".to_owned());
        args.push(tagged("[gpu:", self.id, "]/GPUFanControlState"));
        args
    }

    /// Whether the fan is under control: the answer says so of this
    /// accelerator.
    pub fn fan_state(&self, ran: &Result<Ran, String>) -> (r: bool)
        ensures
            r == match *ran {
                Ok(o) => contains_text(o.stdout@, fan_state_mark(self.id)),
                Err(_) => false,
            },
    {
        match ran {
            Ok(o) => {
                let ss: String = tagged("[gpu:", self.id, "]): 1");
                let hay: Vec<char> = chars_of(o.stdout.as_str());
                let needle: Vec<char> = chars_of(ss.as_str());
                contains(&hay, &needle)
            },
            Err(_) => false,
        }
    }

    /// The arguments for the tool that ask for the level of the fan.
    pub fn pwm_query(&self) -> (r: Vec<String>)
        ensures
            texts(r@) == pwm_query(self.id),
    {
        query("--query-gpu=fan.speed", self.id)
    }

    /// The level of the fan that the tool printed.
    pub fn pwm(&self, ran: Result<Ran, String>) -> (r: Result<usize, String>)
        ensures
            match ran {
                Ok(o) => match printed_level(o.stdout@) {
                    Some(v) => r == Ok::<usize, String>(v),
                    None => r is Err && r->Err_0@ == "NV#"@ + signed_text(self.id as int)
                        + " Can not read  fan speed"@,
                },
                Err(e) => r is Err && r->Err_0@ == "NV#"@ + signed_text(self.id as int)
                    + " Can not read pwm speed. "@ + e@,
            },
    {
        match ran {
            Ok(o) => {
                let all: Vec<char> = chars_of(o.stdout.as_str());
                let plain: Vec<char> = remove_char(&all, '%');
                let (lo, hi) = trim_bounds(&plain);
                match usize_in(&plain, lo, hi) {
                    Some(v) => Ok(v),
                    None => Err(tagged("NV#", self.id, " Can not read  fan speed")),
                }
            },
            Err(e) => {
                let mut msg: String = tagged("NV#", self.id, " Can not read pwm speed. ");
                msg.append(e.as_str());
                Err(msg)
            },
        }
    }

    /// The level that the fan is driven at when asked for `val`.
    pub fn level(&self, val: usize) -> (r: usize)
        ensures
            r == limited(val, self.min, self.max),
    {
        limit_level(val, self.min, self.max)
    }

    /// The arguments for the tool that set the fan to the level for `val`.
    pub fn pwm_set_command(&self, val: usize, fan_state: bool) -> (r: Vec<String>)
        ensures
            texts(r@) == pwm_set_command(self.id, limited(val, self.min, self.max), fan_state),
    {
        let nval: usize = self.level(val);
        let mut args: Vec<String> = Vec::new();
        if !fan_state {
            args.push("-a".to_owned());
            args.push(tagged("[gpu:", self.id, "]/GPUFanControlState=1"));
        }
        args.push("-a".to_owned());
        let mut target: String = tagged("[fan:", self.id, "]/GPUTargetFanSpeed=");
        let digits: String = decimal(nval);
        target.append(digits.as_str());
        args.push(target);
        args
    }

    /// A request for the level `val` begins by asking whether the fan is
    /// under control.
    pub fn pwm_set(&self, val: usize) -> (r: NvNext)
        ensures
            r matches NvNext::Run { program, args, then } && program@ == NVIDIA_SETTINGS@ && texts(
                args@,
            ) == fan_state_query(self.id) && then is FanState,
    {
        NvNext::Run {
            program: NVIDIA_SETTINGS.to_owned(),
            args: self.fan_state_query(),
            then: NvStage::FanState,
        }
    }

    /// How a request for the level `val` goes on after the command of the
    /// stage `stage` gave `ran`: the level is written once the state of the
    /// fan control is known, taking the fan under control where it is not;
    /// it is read back once it was written with success; and what is read
    /// back ends the request, as a failed write does.
    pub fn pwm_set_next(&self, val: usize, stage: NvStage, ran: Result<Ran, String>) -> (r: NvNext)
        ensures
            match stage {
                NvStage::FanState => r matches NvNext::Run { program, args, then } && program@
                    == NVIDIA_SETTINGS@ && texts(args@) == pwm_set_command(
                    self.id,
                    limited(val, self.min, self.max),
                    match ran {
                        Ok(o) => contains_text(o.stdout@, fan_state_mark(self.id)),
                        Err(_) => false,
                    },
                ) && then is Write,
                NvStage::Write => match ran {
                    Ok(o) => if o.success {
                        r matches NvNext::Run { program, args, then } && program@ == NVIDIA_SMI@
                            && texts(args@) == pwm_query(self.id) && then is ReadBack
                    } else {
                        r matches NvNext::Done(Err(msg)) && msg@ == "NV#"@ + signed_text(
                            self.id as int,
                        ) + " Change fan fail. "@ + o.stderr@
                    },
                    Err(e) => r matches NvNext::Done(Err(msg)) && msg@ == "NV#"@ + signed_text(
                        self.id as int,
                    ) + " Can not chage fan to "@ + decimal_text(
                        limited(val, self.min, self.max) as nat,
                    ) + " "@ + e@,
                },
                NvStage::ReadBack => match ran {
                    Ok(o) => match printed_level(o.stdout@) {
                        Some(v) => r matches NvNext::Done(Ok(p)) && p == v,
                        None => r matches NvNext::Done(Err(msg)) && msg@ == "NV#"@ + signed_text(
                            self.id as int,
                        ) + " Can not read  fan speed"@,
                    },
                    Err(e) => r matches NvNext::Done(Err(msg)) && msg@ == "NV#"@ + signed_text(
                        self.id as int,
                    ) + " Can not read pwm speed. "@ + e@,
                },
            },
    {
        match stage {
            NvStage::FanState => {
                let on: bool = self.fan_state(&ran);
                NvNext::Run {
                    program: NVIDIA_SETTINGS.to_owned(),
                    args: self.pwm_set_command(val, on),
                    then: NvStage::Write,
                }
            },
            NvStage::Write => match ran {
                Ok(o) => {
                    if o.success {
                        NvNext::Run {
                            program: NVIDIA_SMI.to_owned(),
                            args: self.pwm_query(),
                            then: NvStage::ReadBack,
                        }
                    } else {
                        let mut msg: String = tagged("NV#", self.id, " Change fan fail. ");
                        msg.append(o.stderr.as_str());
                        NvNext::Done(Err(msg))
                    }
                },
                Err(e) => {
                    let mut msg: String = tagged("NV#", self.id, " Can not chage fan to ");
                    let digits: String = decimal(self.level(val));
                    msg.append(digits.as_str());
                    msg.append(" ");
                    msg.append(e.as_str());
                    NvNext::Done(Err(msg))
                },
            },
            NvStage::ReadBack => NvNext::Done(self.pwm(ran)),
        }
    }

    /// Takes over new settings: the limits of this fan do not depend on them.
    pub fn configure(&mut self, set: &crate::settings::Settings)
        ensures
            *final(self) == *old(self),
    {
    }
}

} // verus!
