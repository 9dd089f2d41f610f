//! The controller of one device: it keeps the window of samples and the known
//! fan level, and turns each cycle's readings into requests to the fan.

use crate::device::Device;
use crate::device::Propeller;
use crate::device::Thermometer;
use crate::history::capacity;
use crate::history::capacity_for;
use crate::history::highest;
use crate::history::peak;
use crate::history::record;
use crate::history::sampled;
use crate::history::window_highest;
use crate::policy::clamped;
use crate::policy::Jam;
use crate::settings::Settings;
use crate::text::decimal;
use crate::text::decimal_text;
use crate::text::signed_decimal;
use crate::text::signed_text;
use crate::text::texts;
use std::collections::VecDeque;
use std::time::SystemTime;
use vstd::prelude::*;
use vstd::string::StringExecFns;

verus! {

/// `std::time::SystemTime`: an instant of the system clock, carried as it is.
#[verifier::external_type_specification]
#[verifier::external_body]
pub struct ExSystemTime(SystemTime);

/// Reads the system clock with `SystemTime::now`. Nothing is claimed of the
/// instant that it returns.
#[verifier::external_body]
fn clock_now() -> SystemTime {
    SystemTime::now()
}

/// What became of one level that a cycle asked for.
#[derive(Debug, PartialEq, Eq)]
pub enum Shift {
    /// The level asked for is the level known: nothing went to the fan.
    Kept,
    /// The device has no fan.
    NoPropeller,
    /// The fan took the request and reports the level `applied`.
    Moved { up: bool, requested: usize, applied: usize, temp: usize },
    /// The fan did not take the request.
    WriteFailure { requested: usize, reason: String },
}

/// What one cycle did.
#[derive(Debug, PartialEq, Eq)]
pub enum Spin {
    /// The device has no fan: nothing was read.
    NoPropeller,
    /// The level of the fan could not be read: nothing was sampled.
    ReadFailure { reason: String },
    /// The readings `temps` were sampled and none was usable: nothing was
    /// decided.
    Idle { level: usize, temps: Vec<usize> },
    /// The readings `temps` were sampled and the levels decided on were asked
    /// for, with the outcomes `shifts`.
    Active { level: usize, temps: Vec<usize>, shifts: Vec<Shift> },
}

impl Shift {
    /// A request went to the fan.
    pub open spec fn wrote(self) -> bool {
        self is Moved || self is WriteFailure
    }

    /// The level known after this outcome, where `level` was known before.
    pub open spec fn after(self, level: usize) -> usize {
        match self {
            Shift::Moved { applied, .. } => applied,
            _ => level,
        }
    }

    /// This is an outcome of asking a fan for `request` at the reading `temp`
    /// while `level` was known: nothing is written where the two levels are
    /// equal, else `request` itself is written, and a change is reported as a
    /// rise unless it goes down.
    pub open spec fn answers(self, level: usize, request: usize, temp: usize) -> bool {
        match self {
            Shift::Kept => request == level,
            Shift::NoPropeller => false,
            Shift::Moved { up, requested, applied, temp: t } => {
                &&& request != level
                &&& requested == request
                &&& up == !(level > request)
                &&& t == temp
            },
            Shift::WriteFailure { requested, .. } => request != level && requested == request,
        }
    }
}

/// The level known after a run of outcomes, where `level` was known before.
pub open spec fn settled(level: usize, shifts: Seq<Shift>) -> usize
    decreases shifts.len(),
{
    if shifts.len() == 0 {
        level
    } else {
        shifts.last().after(settled(level, shifts.drop_last()))
    }
}

/// `shifts` are the outcomes of asking for `moves` one after the other: each
/// against the level known when its turn came.
pub open spec fn follows(level: usize, moves: Seq<usize>, shifts: Seq<Shift>, temp: usize) -> bool
    decreases moves.len(),
{
    &&& moves.len() == shifts.len()
    &&& moves.len() > 0 ==> {
        &&& follows(level, moves.drop_last(), shifts.drop_last(), temp)
        &&& shifts.last().answers(settled(level, shifts.drop_last()), moves.last(), temp)
    }
}

/// Some outcome of the run is a change of level.
pub open spec fn any_moved(shifts: Seq<Shift>) -> bool {
    exists|i: int| 0 <= i < shifts.len() && #[trigger] shifts[i] is Moved
}

/// Every outcome of the run is that of a fan that takes a request and applies
/// just that level.
pub open spec fn obedient(shifts: Seq<Shift>) -> bool {
    forall|i: int|
        0 <= i < shifts.len() ==> match #[trigger] shifts[i] {
            Shift::Kept => true,
            Shift::Moved { requested, applied, .. } => applied == requested,
            _ => false,
        }
}

/// Where every level asked for is the level known, nothing goes to the fan
/// and the level stays.
pub proof fn law_settled_writes_nothing(
    level: usize,
    moves: Seq<usize>,
    shifts: Seq<Shift>,
    temp: usize,
)
    requires
        follows(level, moves, shifts, temp),
        forall|i: int| 0 <= i < moves.len() ==> #[trigger] moves[i] == level,
    ensures
        forall|i: int| 0 <= i < shifts.len() ==> !(#[trigger] shifts[i]).wrote(),
        forall|i: int| 0 <= i < shifts.len() ==> #[trigger] shifts[i] is Kept,
        settled(level, shifts) == level,
    decreases moves.len(),
{
    if moves.len() > 0 {
        let front = shifts.drop_last();
        law_settled_writes_nothing(level, moves.drop_last(), front, temp);
        assert forall|i: int| 0 <= i < shifts.len() implies #[trigger] shifts[i] is Kept by {
            if i < front.len() {
                assert(front[i] == shifts[i]);
            }
        }
    }
}

/// A request goes to the fan exactly where the level asked for differs from
/// the level known when its turn comes.
pub proof fn law_writes_where_levels_differ(
    level: usize,
    moves: Seq<usize>,
    shifts: Seq<Shift>,
    temp: usize,
    i: int,
)
    requires
        follows(level, moves, shifts, temp),
        0 <= i < shifts.len(),
    ensures
        shifts[i].wrote() <==> moves[i] != settled(level, shifts.take(i)),
        shifts[i].wrote() ==> moves[i] == match shifts[i] {
            Shift::Moved { requested, .. } => requested,
            Shift::WriteFailure { requested, .. } => requested,
            _ => moves[i],
        },
    decreases moves.len(),
{
    if i == shifts.len() - 1 {
    } else {
        law_writes_where_levels_differ(level, moves.drop_last(), shifts.drop_last(), temp, i);
        assert(shifts.drop_last().take(i) =~= shifts.take(i));
    }
}

/// Over `temp_crit` the last level asked for is 100, whatever the other rules
/// asked before it: the level known after the cycle is 100 where it was known
/// to be so in the end, and else what the fan reports to have applied.
pub proof fn law_critical_asks_last(
    jam: Jam,
    level: usize,
    tmax: usize,
    wmax: usize,
    shifts: Seq<Shift>,
)
    requires
        tmax > jam.temp_crit,
        follows(level, jam.planned(level, tmax, wmax), shifts, tmax),
    ensures
        shifts.len() > 0,
        match shifts.last() {
            Shift::Kept => settled(level, shifts) == 100,
            Shift::Moved { requested, applied, .. } => requested == 100 && settled(level, shifts)
                == applied,
            Shift::WriteFailure { requested, .. } => requested == 100,
            Shift::NoPropeller => false,
        },
{
    jam.law_critical_asks_maximum(level, tmax, wmax);
}

/// Over `temp_crit`, with a fan that applies what it is asked for, the level
/// after the cycle is exactly 100.
pub proof fn law_critical_override(
    jam: Jam,
    level: usize,
    tmax: usize,
    wmax: usize,
    shifts: Seq<Shift>,
)
    requires
        tmax > jam.temp_crit,
        follows(level, jam.planned(level, tmax, wmax), shifts, tmax),
        obedient(shifts),
    ensures
        settled(level, shifts) == 100,
{
    law_critical_asks_last(jam, level, tmax, wmax, shifts);
}

/// Without a usable reading nothing is asked for.
pub proof fn law_idle_skip(jam: Jam, level: usize, wmax: usize, shifts: Seq<Shift>)
    requires
        follows(level, jam.planned(level, 0, wmax), shifts, 0),
    ensures
        shifts.len() == 0,
        settled(level, shifts) == level,
{
}

/// How a device is named in a line: its kind, `#` and its index.
pub open spec fn tag(dev: Device) -> Seq<char> {
    dev.dev_type@ + "#"@ + signed_text(dev.id as int)
}

/// The line that tells of one outcome, where it is worth one: a change of
/// level with its direction, the level asked for and the reading, or a
/// failure with its reason.
pub open spec fn shift_line(dev: Device, shift: Shift) -> Option<Seq<char>> {
    match shift {
        Shift::Kept => None,
        Shift::NoPropeller => Some(
            "ERROR can not file propeller for device #"@ + signed_text(dev.id as int) + " "@
                + dev.name@,
        ),
        Shift::Moved { up, requested, temp, .. } => Some(
            tag(dev) + " PWM "@ + (if up {
                "UP"@
            } else {
                "DOWN"@
            }) + " to "@ + decimal_text(requested as nat) + "% temp "@ + decimal_text(temp as nat)
                + "C -> "@ + dev.name@,
        ),
        Shift::WriteFailure { reason, .. } => Some("ERROR "@ + reason@),
    }
}

/// The lines that tell of a run of outcomes, in their order.
pub open spec fn shift_lines(dev: Device, shifts: Seq<Shift>) -> Seq<Seq<char>>
    decreases shifts.len(),
{
    if shifts.len() == 0 {
        Seq::empty()
    } else {
        match shift_line(dev, shifts.last()) {
            Some(line) => shift_lines(dev, shifts.drop_last()).push(line),
            None => shift_lines(dev, shifts.drop_last()),
        }
    }
}

/// The lines that tell of one cycle: none of an idle one.
pub open spec fn spin_lines(dev: Device, spin: Spin) -> Seq<Seq<char>> {
    match spin {
        Spin::NoPropeller => seq![
            "ERROR! Can not find propeller for device "@ + tag(dev) + " "@ + dev.name@,
        ],
        Spin::ReadFailure { reason } => seq![
            "ERROR! Can not read PWM speed for device "@ + tag(dev) + " "@ + dev.name@ + " -> "@
                + reason@,
        ],
        Spin::Idle { .. } => Seq::empty(),
        Spin::Active { shifts, .. } => shift_lines(dev, shifts@),
    }
}

/// A cycle in which the fan is asked for nothing is told of in no line.
pub proof fn law_quiet_cycle_has_no_line(dev: Device, shifts: Seq<Shift>)
    requires
        forall|i: int| 0 <= i < shifts.len() ==> #[trigger] shifts[i] is Kept,
    ensures
        shift_lines(dev, shifts) == Seq::<Seq<char>>::empty(),
    decreases shifts.len(),
{
    if shifts.len() > 0 {
        law_quiet_cycle_has_no_line(dev, shifts.drop_last());
    }
}

/// The policy that settings ask for.
pub open spec fn jam_of(s: Settings) -> Jam {
    Jam {
        pwm_ok: s.pwm_ok,
        temp_ok: s.temp_ok,
        temp_hot: s.temp_hot,
        temp_crit: s.temp_crit,
        pwm_up: s.pwm_step_up,
        pwm_down: s.pwm_step_down,
    }
}

/// What a controller is, to its contracts.
pub struct KarlsonView {
    pub dev: Device,
    pub jam: Jam,
    /// The level that the fan is known to run at.
    pub pwm_speed: usize,
    /// The window of samples, newest first.
    pub tlog: Seq<usize>,
    /// The number of samples that the window keeps.
    pub tlog_size: usize,
    /// When the fan last took a request.
    pub updated: SystemTime,
}

/// The controller of one device: the device, its policy, the level that its
/// fan is known to run at, and the window of its latest samples, which never
/// holds more than `tlog_size` of them.
pub struct Karlson {
    dev: Device,
    jam: Jam,
    pwm_speed: usize,
    tlog: VecDeque<usize>,
    tlog_size: usize,
    updated: SystemTime,
}

impl View for Karlson {
    type V = KarlsonView;

    closed spec fn view(&self) -> KarlsonView {
        KarlsonView {
            dev: self.dev,
            jam: self.jam,
            pwm_speed: self.pwm_speed,
            tlog: self.tlog@,
            tlog_size: self.tlog_size,
            updated: self.updated,
        }
    }
}

/// All known devices: those of the sensor directories first, then the
/// accelerators.
pub fn list_devices(sys: Vec<Device>, nv: Vec<Device>) -> (res: Vec<Device>)
    ensures
        res@ == sys@ + nv@,
{
    let mut res: Vec<Device> = sys;
    let mut rest: Vec<Device> = nv;
    res.append(&mut rest);
    res
}

impl Karlson {
    #[verifier::type_invariant]
    spec fn window_bounded(&self) -> bool {
        self.tlog@.len() <= self.tlog_size
    }

    /// The level to start from: the one the fan reports after the first
    /// request; the one read before it where that request failed; `0` where
    /// both failed.
    pub fn startup_level(read: Result<usize, String>, written: Result<usize, String>) -> (r: usize)
        ensures
            r == match written {
                Ok(p) => p,
                Err(_) => match read {
                    Ok(speed) => speed,
                    Err(_) => 0,
                },
            },
    {
        match written {
            Ok(p) => p,
            Err(_) => match read {
                Ok(speed) => speed,
                Err(_) => 0,
            },
        }
    }

    /// The level that a new controller asks its fan for: `pwm_ok`, at most
    /// 100.
    pub fn startup_request(s: &Settings) -> (r: usize)
        ensures
            r == clamped(s.pwm_ok as int),
            r <= 100,
    {
        Jam::clamp(s.pwm_ok as i128)
    }

    /// A controller for a device, with an empty window. A fan is read and then
    /// asked for the level of `startup_request`; `startup_level` tells the
    /// level to start from for each pair of answers.
    pub fn new(dev: Device, s: &Settings) -> (r: Karlson)
        ensures
            r@.dev == dev,
            r@.jam == jam_of(*s),
            r@.tlog == Seq::<usize>::empty(),
            r@.tlog_size == capacity_for(s.queue_size, dev.termometers@.len()),
            dev.propeller is None ==> r@.pwm_speed == 0,
    {
        let speed: usize = match &dev.propeller {
            None => 0,
            Some(p) => {
                let read = p.pwm();
                let written = p.pwm_set(Karlson::startup_request(s));
                Karlson::startup_level(read, written)
            },
        };
        let size: usize = capacity(s.queue_size, dev.termometers.len());
        Karlson {
            dev: dev,
            jam: Jam {
                pwm_ok: s.pwm_ok,
                temp_ok: s.temp_ok,
                temp_hot: s.temp_hot,
                temp_crit: s.temp_crit,
                pwm_up: s.pwm_step_up,
                pwm_down: s.pwm_step_down,
            },
            pwm_speed: speed,
            tlog: VecDeque::new(),
            tlog_size: size,
            updated: clock_now(),
        }
    }

    /// A controller for a device put together from inputs of any kind and a
    /// fan of its own.
    pub fn new_device(
        id: i32,
        s: &Settings,
        propeller: Option<Box<dyn Propeller>>,
        termometers: Vec<Box<dyn Thermometer>>,
    ) -> (r: Karlson)
        ensures
            r@.dev.id == id,
            r@.dev.dev_type@ == "dev"@,
            r@.dev.name@ == match s.name {
                Some(n) => n@,
                None => Seq::<char>::empty(),
            },
            r@.dev.propeller == propeller,
            r@.dev.termometers == termometers,
            r@.jam == jam_of(*s),
            r@.tlog == Seq::<usize>::empty(),
            r@.tlog_size == capacity_for(s.queue_size, termometers@.len()),
            propeller is None ==> r@.pwm_speed == 0,
    {
        let name: String = match &s.name {
            Some(n) => n.clone(),
            None => String::new(),
        };
        Karlson::new(
            Device {
                id: id,
                dev_type: "dev".to_owned(),
                name: name,
                termometers: termometers,
                propeller: propeller,
            },
            s,
        )
    }

    /// The device that is controlled.
    pub fn dev(&self) -> (r: &Device)
        ensures
            *r == self@.dev,
    {
        &self.dev
    }

    /// The policy that is followed.
    pub fn jam(&self) -> (r: Jam)
        ensures
            r == self@.jam,
    {
        self.jam
    }

    /// The level that the fan is known to run at.
    pub fn pwm_speed(&self) -> (r: usize)
        ensures
            r == self@.pwm_speed,
    {
        self.pwm_speed
    }

    /// The number of samples that the window keeps.
    pub fn tlog_size(&self) -> (r: usize)
        ensures
            r == self@.tlog_size,
            self@.tlog.len() <= r,
    {
        proof {
            use_type_invariant(self);
        }
        self.tlog_size
    }

    /// The samples of the window, newest first.
    pub fn tlog(&self) -> (r: Vec<usize>)
        ensures
            r@ == self@.tlog,
            r@.len() <= self@.tlog_size,
    {
        proof {
            use_type_invariant(self);
        }
        let mut out: Vec<usize> = Vec::new();
        let mut i: usize = 0;
        while i < self.tlog.len()
            invariant
                i <= self.tlog.len(),
                out@ == self.tlog@.take(i as int),
            decreases self.tlog.len() - i,
        {
            out.push(self.tlog[i]);
            i += 1;
        }
        out
    }

    /// When the fan last took a request.
    pub fn updated(&self) -> (r: SystemTime)
        ensures
            r == self@.updated,
    {
        self.updated
    }

    /// How the device is named in a line.
    fn tag(&self) -> (r: String)
        ensures
            r@ == tag(self@.dev),
    {
        let mut out: String = self.dev.dev_type.clone();
        out.append("#");
        let digits: String = signed_decimal(self.dev.id);
        out.append(digits.as_str());
        out
    }

    /// The line that tells of one outcome, where it is worth one.
    pub fn shift_line(&self, shift: &Shift) -> (r: Option<String>)
        ensures
            match r {
                Some(line) => shift_line(self@.dev, *shift) == Some(line@),
                None => shift_line(self@.dev, *shift) is None,
            },
    {
        match shift {
            Shift::Kept => None,
            Shift::NoPropeller => {
                let mut out: String = "ERROR can not file propeller for device #".to_owned();
                let digits: String = signed_decimal(self.dev.id);
                out.append(digits.as_str());
                out.append(" ");
                out.append(self.dev.name.as_str());
                Some(out)
            },
            Shift::Moved { up, requested, applied: _, temp } => {
                let mut out: String = self.tag();
                out.append(" PWM ");
                if *up {
                    out.append("UP");
                } else {
                    out.append("DOWN");
                }
                out.append(" to ");
                let level: String = decimal(*requested);
                out.append(level.as_str());
                out.append("% temp ");
                let reading: String = decimal(*temp);
                out.append(reading.as_str());
                out.append("C -> ");
                out.append(self.dev.name.as_str());
                Some(out)
            },
            Shift::WriteFailure { requested: _, reason } => {
                let mut out: String = "ERROR ".to_owned();
                out.append(reason.as_str());
                Some(out)
            },
        }
    }

    /// The lines that tell of one cycle: what went wrong, and each change of
    /// the level.
    pub fn spin_lines(&self, spin: &Spin) -> (r: Vec<String>)
        ensures
            texts(r@) == spin_lines(self@.dev, *spin),
    {
        let mut lines: Vec<String> = Vec::new();
        match spin {
            Spin::NoPropeller => {
                let mut out: String = "ERROR! Can not find propeller for device ".to_owned();
                let tag: String = self.tag();
                out.append(tag.as_str());
                out.append(" ");
                out.append(self.dev.name.as_str());
                lines.push(out);
            },
            Spin::ReadFailure { reason } => {
                let mut out: String = "ERROR! Can not read PWM speed for device ".to_owned();
                let tag: String = self.tag();
                out.append(tag.as_str());
                out.append(" ");
                out.append(self.dev.name.as_str());
                out.append(" -> ");
                out.append(reason.as_str());
                lines.push(out);
            },
            Spin::Idle { .. } => {
            },
            Spin::Active { level: _, temps: _, shifts } => {
                let mut i: usize = 0;
                while i < shifts.len()
                    invariant
                        i <= shifts.len(),
                        texts(lines@) == shift_lines(self@.dev, shifts@.take(i as int)),
                    decreases shifts.len() - i,
                {
                    assert(shifts@.take(i + 1).drop_last() =~= shifts@.take(i as int));
                    match self.shift_line(&shifts[i]) {
                        Some(line) => {
                            lines.push(line);
                        },
                        None => {},
                    }
                    i += 1;
                }
                assert(shifts@.take(shifts.len() as int) =~= shifts@);
            },
        }
        lines
    }

    /// One reading of every input, in their order.
    fn read_temps(&self) -> (temps: Vec<usize>)
        ensures
            temps@.len() == self@.dev.termometers@.len(),
    {
        let mut temps: Vec<usize> = Vec::new();
        let mut i: usize = 0;
        while i < self.dev.termometers.len()
            invariant
                i <= self.dev.termometers.len(),
                temps@.len() == i,
            decreases self.dev.termometers.len() - i,
        {
            temps.push(self.dev.termometers[i].temp());
            i += 1;
        }
        temps
    }

    /// Takes the readings of one cycle into the window. Returns the highest
    /// reading and the highest sample that the window then holds.
    pub fn load_temp(&mut self, temps: &Vec<usize>) -> (r: (usize, usize))
        ensures
            final(self)@ == (KarlsonView {
                tlog: sampled(old(self)@.tlog, temps@, old(self)@.tlog_size),
                ..old(self)@
            }),
            final(self)@.tlog.len() <= final(self)@.tlog_size,
            r.0 == peak(temps@),
            r.1 == peak(final(self)@.tlog),
    {
        proof {
            use_type_invariant(&*self);
        }
        let mut log: VecDeque<usize> = VecDeque::new();
        std::mem::swap(&mut self.tlog, &mut log);
        record(&mut log, temps, self.tlog_size);
        self.tlog = log;
        (highest(temps), window_highest(&self.tlog))
    }

    /// Where the known level stands against the band `[val, val + delta_up)`:
    /// `-1` below it, `0` within it, `1` at or above its end.
    pub fn pwm_near(&self, val: usize, delta_up: isize) -> (r: isize)
        ensures
            r == crate::policy::near(self@.pwm_speed as int, val as int, delta_up as int),
    {
        Jam::pwm_near(self.pwm_speed, val, delta_up)
    }

    /// Takes note that the fan, asked for `requested` at the reading `temp`,
    /// reports the level `applied` at the instant `now`.
    pub fn moved(&mut self, requested: usize, applied: usize, now: SystemTime, temp: usize) -> (r:
        Shift)
        ensures
            r == (Shift::Moved {
                up: !(old(self)@.pwm_speed > requested),
                requested: requested,
                applied: applied,
                temp: temp,
            }),
            final(self)@ == (KarlsonView { pwm_speed: applied, updated: now, ..old(self)@ }),
    {
        proof {
            use_type_invariant(&*self);
        }
        let up: bool = !(self.pwm_speed > requested);
        self.updated = now;
        self.pwm_speed = applied;
        Shift::Moved { up: up, requested: requested, applied: applied, temp: temp }
    }

    /// Asks the fan for the level `pwm`, brought into `[0, 100]`, unless that
    /// is the level known.
    fn pwm_update(&mut self, pwm: isize, temp: usize) -> (r: Shift)
        ensures
            r is NoPropeller <==> old(self)@.dev.propeller is None,
            !(r is NoPropeller) ==> r.answers(old(self)@.pwm_speed, clamped(pwm as int), temp),
            final(self)@ == (KarlsonView {
                pwm_speed: r.after(old(self)@.pwm_speed),
                updated: final(self)@.updated,
                ..old(self)@
            }),
            r is Moved || final(self)@.updated == old(self)@.updated,
    {
        let pwm_val: usize = Jam::clamp(pwm as i128);
        let answer: Result<usize, String> = match &self.dev.propeller {
            None => {
                return Shift::NoPropeller;
            },
            Some(prop) => {
                if pwm_val == self.pwm_speed {
                    return Shift::Kept;
                }
                prop.pwm_set(pwm_val)
            },
        };
        match answer {
            Ok(p) => {
                let now: SystemTime = clock_now();
                self.moved(pwm_val, p, now, temp)
            },
            Err(e) => Shift::WriteFailure { requested: pwm_val, reason: e },
        }
    }

    /// Asks the fan for the levels that the policy gives for the highest
    /// reading `tmax` and the highest sample `tlog_max`, one after the other.
    fn adjust_pwm(&mut self, tmax: usize, tlog_max: usize) -> (r: Vec<Shift>)
        requires
            old(self)@.dev.propeller is Some,
        ensures
            follows(
                old(self)@.pwm_speed,
                old(self)@.jam.planned(old(self)@.pwm_speed, tmax, tlog_max),
                r@,
                tmax,
            ),
            final(self)@ == (KarlsonView {
                pwm_speed: settled(old(self)@.pwm_speed, r@),
                updated: final(self)@.updated,
                ..old(self)@
            }),
            any_moved(r@) || final(self)@.updated == old(self)@.updated,
    {
        let ghost start = self@;
        let moves: Vec<usize> = self.jam.plan(self.pwm_speed, tmax, tlog_max);
        proof {
            self.jam.law_planned_in_range(self.pwm_speed, tmax, tlog_max);
        }
        let mut shifts: Vec<Shift> = Vec::new();
        let mut i: usize = 0;
        while i < moves.len()
            invariant
                i <= moves.len(),
                shifts@.len() == i,
                start.dev.propeller is Some,
                forall|k: int| 0 <= k < moves@.len() ==> #[trigger] moves@[k] <= 100,
                follows(start.pwm_speed, moves@.take(i as int), shifts@, tmax),
                self@ == (KarlsonView {
                    pwm_speed: settled(start.pwm_speed, shifts@),
                    updated: self@.updated,
                    ..start
                }),
                any_moved(shifts@) || self@.updated == start.updated,
            decreases moves.len() - i,
        {
            let ghost before = shifts@;
            let shift: Shift = self.pwm_update(moves[i] as isize, tmax);
            shifts.push(shift);
            proof {
                assert(shifts@.drop_last() =~= before);
                assert(moves@.take(i + 1).drop_last() =~= moves@.take(i as int));
                if any_moved(before) {
                    let k = choose|k: int| 0 <= k < before.len() && #[trigger] before[k] is Moved;
                    assert(shifts@[k] is Moved);
                }
                if shift is Moved {
                    assert(shifts@[i as int] is Moved);
                }
            }
            i += 1;
        }
        assert(moves@.take(moves.len() as int) =~= moves@);
        shifts
    }

    /// One cycle: reads the level of the fan, samples every input, and asks
    /// the fan for what the policy decides. What the fan and the inputs
    /// answered is handed back, and the state after the cycle is stated over
    /// it: without a fan, or where its level cannot be read, nothing changes;
    /// else the level read becomes the level known and the readings go into
    /// the window; and unless no reading is usable, the levels that the
    /// policy plans are asked for in turn.
    pub fn spin(&mut self) -> (r: Spin)
        ensures
            final(self)@.dev == old(self)@.dev,
            final(self)@.jam == old(self)@.jam,
            final(self)@.tlog_size == old(self)@.tlog_size,
            final(self)@.tlog.len() <= final(self)@.tlog_size,
            match r {
                Spin::NoPropeller => old(self)@.dev.propeller is None && final(self)@ == old(
                    self,
                )@,
                Spin::ReadFailure { .. } => old(self)@.dev.propeller is Some && final(self)@
                    == old(self)@,
                Spin::Idle { level, temps } => {
                    &&& old(self)@.dev.propeller is Some
                    &&& temps@.len() == old(self)@.dev.termometers@.len()
                    &&& peak(temps@) == 0
                    &&& final(self)@ == (KarlsonView {
                        pwm_speed: level,
                        tlog: sampled(old(self)@.tlog, temps@, old(self)@.tlog_size),
                        ..old(self)@
                    })
                },
                Spin::Active { level, temps, shifts } => {
                    &&& old(self)@.dev.propeller is Some
                    &&& temps@.len() == old(self)@.dev.termometers@.len()
                    &&& peak(temps@) > 0
                    &&& follows(
                        level,
                        old(self)@.jam.planned(level, peak(temps@), peak(final(self)@.tlog)),
                        shifts@,
                        peak(temps@),
                    )
                    &&& final(self)@ == (KarlsonView {
                        pwm_speed: settled(level, shifts@),
                        tlog: sampled(old(self)@.tlog, temps@, old(self)@.tlog_size),
                        updated: final(self)@.updated,
                        ..old(self)@
                    })
                    &&& any_moved(shifts@) || final(self)@.updated == old(self)@.updated
                },
            },
    {
        proof {
            use_type_invariant(&*self);
        }
        let read: Result<usize, String> = match &self.dev.propeller {
            None => {
                return Spin::NoPropeller;
            },
            Some(prop) => prop.pwm(),
        };
        let level: usize = match read {
            Ok(speed) => speed,
            Err(e) => {
                return Spin::ReadFailure { reason: e };
            },
        };
        self.pwm_speed = level;
        let temps: Vec<usize> = self.read_temps();
        let (tmax, tlog_max) = self.load_temp(&temps);
        if tmax == 0 {
            return Spin::Idle { level: level, temps: temps };
        }
        let shifts: Vec<Shift> = self.adjust_pwm(tmax, tlog_max);
        Spin::Active { level: level, temps: temps, shifts: shifts }
    }
}

} // verus!
