//! The settings of a device, and how a configuration table sets them.

use crate::conf::Conf;
use crate::text::texts;
use vstd::prelude::*;

verus! {

/// What a device is configured with: its kind, the fan levels and steps, the
/// temperature thresholds, the length of the sample window, and where its
/// inputs and its fan are found.
#[derive(Debug, PartialEq, Eq)]
pub struct Settings {
    pub name: Option<String>,
    /// Device type: `sys` or `nv`.
    pub dev_type: String,
    /// Lowest fan level, in percent, that the fan is driven at.
    pub pwm_min: usize,
    /// Normal fan level in percent.
    pub pwm_ok: usize,
    /// Fan step up in percent.
    pub pwm_step_up: isize,
    /// Fan step down in percent.
    pub pwm_step_down: isize,
    pub temp_ok: usize,
    pub temp_hot: usize,
    pub temp_crit: usize,
    /// Samples kept per temperature input.
    pub queue_size: usize,
    /// Indexes of the accelerators whose temperature is read.
    pub nv_temp_ids: Vec<usize>,
    /// Names of the temperature files of a sensor directory.
    pub sys_temp_files: Vec<String>,
    /// Name of the fan file of a sensor directory.
    pub sys_pwm_file: String,
}

/// What settings hold, to their contracts.
pub struct SettingsView {
    pub name: Option<Seq<char>>,
    pub dev_type: Seq<char>,
    pub pwm_min: usize,
    pub pwm_ok: usize,
    pub pwm_step_up: isize,
    pub pwm_step_down: isize,
    pub temp_ok: usize,
    pub temp_hot: usize,
    pub temp_crit: usize,
    pub queue_size: usize,
    pub nv_temp_ids: Seq<usize>,
    pub sys_temp_files: Seq<Seq<char>>,
    pub sys_pwm_file: Seq<char>,
}

impl View for Settings {
    type V = SettingsView;

    open spec fn view(&self) -> SettingsView {
        SettingsView {
            name: match self.name {
                Some(n) => Some(n@),
                None => None,
            },
            dev_type: self.dev_type@,
            pwm_min: self.pwm_min,
            pwm_ok: self.pwm_ok,
            pwm_step_up: self.pwm_step_up,
            pwm_step_down: self.pwm_step_down,
            temp_ok: self.temp_ok,
            temp_hot: self.temp_hot,
            temp_crit: self.temp_crit,
            queue_size: self.queue_size,
            nv_temp_ids: self.nv_temp_ids@,
            sys_temp_files: texts(self.sys_temp_files@),
            sys_pwm_file: self.sys_pwm_file@,
        }
    }
}

/// The step up, in percent, of every configured device.
pub const PWM_STEP_UP: isize = 5;

/// The step down, in percent, of every configured device.
pub const PWM_STEP_DOWN: isize = 2;

/// The strings among the items, in their order.
pub open spec fn strings_of(items: Seq<Conf>) -> Seq<Seq<char>>
    decreases items.len(),
{
    if items.len() == 0 {
        Seq::empty()
    } else {
        match items.last() {
            Conf::Str(s) => strings_of(items.drop_last()).push(s@),
            _ => strings_of(items.drop_last()),
        }
    }
}

/// The integers among the items, in their order, each cut to `usize`.
pub open spec fn indexes_of(items: Seq<Conf>) -> Seq<usize>
    decreases items.len(),
{
    if items.len() == 0 {
        Seq::empty()
    } else {
        match items.last() {
            Conf::Int(i) => indexes_of(items.drop_last()).push(i as usize),
            _ => indexes_of(items.drop_last()),
        }
    }
}

/// The table holds nothing but an integer under `key`.
pub open spec fn numeric(cfg: Conf, key: Seq<char>) -> bool {
    match cfg.field(key) {
        Some(v) => v is Int,
        None => true,
    }
}

/// The number that the table sets under `key`, cut to `usize`; `def` where
/// it sets none.
pub open spec fn number(cfg: Conf, key: Seq<char>, def: usize) -> usize {
    match cfg.field(key) {
        Some(Conf::Int(i)) => i as usize,
        _ => def,
    }
}

/// Every level, threshold and length that the table sets is an integer.
pub open spec fn typed(cfg: Conf) -> bool {
    &&& numeric(cfg, "pwm_ok"@)
    &&& numeric(cfg, "pwm_min"@)
    &&& numeric(cfg, "temp_ok"@)
    &&& numeric(cfg, "temp_hot"@)
    &&& numeric(cfg, "temp_crit"@)
    &&& numeric(cfg, "queue_size"@)
}

/// The settings that a table gives over the settings `s`: what the table
/// sets is taken from it, the rest from `s`; the kind is `sys` unless the
/// table names one, and the two steps are always 5 and 2. A value that is no
/// table sets nothing.
pub open spec fn settings_with(cfg: Conf, s: SettingsView) -> SettingsView {
    SettingsView {
        name: match cfg.field("name"@) {
            Some(Conf::Str(n)) => Some(n@),
            Some(_) => None,
            None => s.name,
        },
        dev_type: match cfg.field("type"@) {
            Some(Conf::Str(t)) => t@,
            _ => "sys"@,
        },
        pwm_ok: number(cfg, "pwm_ok"@, s.pwm_ok),
        pwm_min: number(cfg, "pwm_min"@, s.pwm_min),
        pwm_step_up: PWM_STEP_UP,
        pwm_step_down: PWM_STEP_DOWN,
        temp_ok: number(cfg, "temp_ok"@, s.temp_ok),
        temp_hot: number(cfg, "temp_hot"@, s.temp_hot),
        temp_crit: number(cfg, "temp_crit"@, s.temp_crit),
        queue_size: number(cfg, "queue_size"@, s.queue_size),
        sys_pwm_file: match cfg.field("pwm_file"@) {
            Some(Conf::Str(f)) => f@,
            _ => s.sys_pwm_file,
        },
        sys_temp_files: match cfg.field("sys_temp_input"@) {
            Some(v) => strings_of(v.items()),
            None => s.sys_temp_files,
        },
        nv_temp_ids: match cfg.field("nv_temp_input"@) {
            Some(v) => indexes_of(v.items()),
            None => s.nv_temp_ids,
        },
    }
}

/// The settings that hold where nothing is configured.
pub open spec fn defaults() -> SettingsView {
    SettingsView {
        name: None,
        dev_type: "sys"@,
        pwm_ok: 60,
        pwm_min: 0,
        pwm_step_up: 2,
        pwm_step_down: 1,
        temp_ok: 65,
        temp_hot: 75,
        temp_crit: 80,
        queue_size: 15,
        sys_pwm_file: "pwm1"@,
        sys_temp_files: seq!["temp1_input"@],
        nv_temp_ids: Seq::empty(),
    }
}

/// An integer cut to `usize`.
fn index_of(i: i64) -> (r: usize)
    ensures
        r == i as usize,
{
    #[verifier::truncate]
    (i as usize)
}

/// Whether the table holds nothing but an integer under `key`.
fn is_numeric(cfg: &Conf, key: &str) -> (r: bool)
    ensures
        r == numeric(*cfg, key@),
{
    match cfg.get(key) {
        Some(v) => v.is_integer(),
        None => true,
    }
}

/// The number that the table sets under `key`.
fn number_of(cfg: &Conf, key: &str, def: usize) -> (r: usize)
    ensures
        r == number(*cfg, key@, def),
{
    match cfg.get(key) {
        Some(Conf::Int(i)) => index_of(*i),
        _ => def,
    }
}

/// The strings among the items.
fn strings(items: &Vec<Conf>) -> (r: Vec<String>)
    ensures
        texts(r@) == strings_of(items@),
{
    let mut out: Vec<String> = Vec::new();
    let mut i: usize = 0;
    while i < items.len()
        invariant
            i <= items.len(),
            texts(out@) == strings_of(items@.take(i as int)),
        decreases items.len() - i,
    {
        assert(items@.take(i + 1).drop_last() =~= items@.take(i as int));
        match &items[i] {
            Conf::Str(s) => {
                out.push(s.clone());
            },
            _ => {},
        }
        i += 1;
    }
    assert(items@.take(items.len() as int) =~= items@);
    out
}

/// The integers among the items.
fn indexes(items: &Vec<Conf>) -> (r: Vec<usize>)
    ensures
        r@ == indexes_of(items@),
{
    let mut out: Vec<usize> = Vec::new();
    let mut i: usize = 0;
    while i < items.len()
        invariant
            i <= items.len(),
            out@ == indexes_of(items@.take(i as int)),
        decreases items.len() - i,
    {
        assert(items@.take(i + 1).drop_last() =~= items@.take(i as int));
        match &items[i] {
            Conf::Int(v) => {
                out.push(index_of(*v));
            },
            _ => {},
        }
        i += 1;
    }
    assert(items@.take(items.len() as int) =~= items@);
    out
}

/// A copy of a run of strings.
fn copy_texts(run: &Vec<String>) -> (r: Vec<String>)
    ensures
        texts(r@) == texts(run@),
{
    let mut out: Vec<String> = Vec::new();
    let mut i: usize = 0;
    while i < run.len()
        invariant
            i <= run.len(),
            out@.len() == i,
            forall|k: int| 0 <= k < i ==> (#[trigger] out@[k])@ == run@[k]@,
        decreases run.len() - i,
    {
        out.push(run[i].clone());
        i += 1;
    }
    out
}

/// A copy of a run of numbers.
fn copy_numbers(run: &Vec<usize>) -> (r: Vec<usize>)
    ensures
        r@ == run@,
{
    let mut out: Vec<usize> = Vec::new();
    let mut i: usize = 0;
    while i < run.len()
        invariant
            i <= run.len(),
            out@ == run@.take(i as int),
        decreases run.len() - i,
    {
        out.push(run[i]);
        i += 1;
    }
    out
}

impl Settings {
    /// Whether every level, threshold and length that the table sets is an
    /// integer.
    pub fn is_typed(cfg: &Conf) -> (r: bool)
        ensures
            r == typed(*cfg),
    {
        is_numeric(cfg, "pwm_ok") && is_numeric(cfg, "pwm_min") && is_numeric(cfg, "temp_ok")
            && is_numeric(cfg, "temp_hot") && is_numeric(cfg, "temp_crit") && is_numeric(
            cfg,
            "queue_size",
        )
    }

    /// Settings with the same values.
    pub fn duplicate(&self) -> (r: Settings)
        ensures
            r@ == self@,
    {
        Settings {
            name: match &self.name {
                Some(n) => Some(n.clone()),
                None => None,
            },
            dev_type: self.dev_type.clone(),
            pwm_min: self.pwm_min,
            pwm_ok: self.pwm_ok,
            pwm_step_up: self.pwm_step_up,
            pwm_step_down: self.pwm_step_down,
            temp_ok: self.temp_ok,
            temp_hot: self.temp_hot,
            temp_crit: self.temp_crit,
            queue_size: self.queue_size,
            nv_temp_ids: copy_numbers(&self.nv_temp_ids),
            sys_temp_files: copy_texts(&self.sys_temp_files),
            sys_pwm_file: self.sys_pwm_file.clone(),
        }
    }

    /// The settings that a table gives over those that hold where nothing is
    /// configured.
    pub fn from(cfg: &Conf) -> (r: Settings)
        requires
            typed(*cfg),
        ensures
            r@ == settings_with(*cfg, defaults()),
    {
        let mut files: Vec<String> = Vec::new();
        files.push("temp1_input".to_owned());
        let s = Settings {
            name: None,
            dev_type: "sys".to_owned(),
            pwm_ok: 60,
            pwm_min: 0,
            pwm_step_up: 2,
            pwm_step_down: 1,
            temp_ok: 65,
            temp_hot: 75,
            temp_crit: 80,
            queue_size: 15,
            sys_pwm_file: "pwm1".to_owned(),
            sys_temp_files: files,
            nv_temp_ids: Vec::new(),
        };
        assert(s@ =~= defaults()) by {
            assert(texts(s.sys_temp_files@) =~= seq!["temp1_input"@]);
        }
        Settings::from_with(cfg, &s)
    }

    /// The settings that a table gives over the settings `s`.
    pub fn from_with(cfg: &Conf, s: &Settings) -> (r: Settings)
        requires
            typed(*cfg),
        ensures
            r@ == settings_with(*cfg, s@),
    {
        let name: Option<String> = match cfg.get("name") {
            Some(Conf::Str(n)) => Some(n.clone()),
            Some(_) => None,
            None => match &s.name {
                Some(n) => Some(n.clone()),
                None => None,
            },
        };
        let dev_type: String = match cfg.get("type") {
            Some(Conf::Str(t)) => t.clone(),
            _ => "sys".to_owned(),
        };
        let sys_pwm_file: String = match cfg.get("pwm_file") {
            Some(Conf::Str(f)) => f.clone(),
            _ => s.sys_pwm_file.clone(),
        };
        let sys_temp_files: Vec<String> = match cfg.get("sys_temp_input") {
            Some(Conf::List(items)) => strings(items),
            Some(_) => Vec::new(),
            None => copy_texts(&s.sys_temp_files),
        };
        let nv_temp_ids: Vec<usize> = match cfg.get("nv_temp_input") {
            Some(Conf::List(items)) => indexes(items),
            Some(_) => Vec::new(),
            None => copy_numbers(&s.nv_temp_ids),
        };
        proof {
            assert(texts(Seq::<String>::empty()) =~= Seq::<Seq<char>>::empty());
        }
        let r = Settings {
            name: name,
            dev_type: dev_type,
            pwm_ok: number_of(cfg, "pwm_ok", s.pwm_ok),
            pwm_min: number_of(cfg, "pwm_min", s.pwm_min),
            pwm_step_up: PWM_STEP_UP,
            pwm_step_down: PWM_STEP_DOWN,
            temp_ok: number_of(cfg, "temp_ok", s.temp_ok),
            temp_hot: number_of(cfg, "temp_hot", s.temp_hot),
            temp_crit: number_of(cfg, "temp_crit", s.temp_crit),
            queue_size: number_of(cfg, "queue_size", s.queue_size),
            sys_pwm_file: sys_pwm_file,
            sys_temp_files: sys_temp_files,
            nv_temp_ids: nv_temp_ids,
        };
        r
    }
}

} // verus!
