//! The capabilities that a controller consumes, the record that describes a
//! device, and what the text of a file that holds a number means.

use crate::settings::Settings;
use crate::text::parse_trimmed_usize;
use crate::text::trimmed;
use crate::text::usize_of;
use vstd::prelude::*;
use vstd::string::StringExecFns;

verus! {

/// A temperature sensor.
pub trait Thermometer {
    /// The temperature now, in degrees; `0` where none can be had.
    fn temp(&self) -> usize;
}

/// A fan actuator, driven in percent.
pub trait Propeller {
    /// The level the fan runs at.
    fn pwm(&self) -> Result<usize, String>;

    /// Asks for a level, of at most 100, and reports the level that was
    /// applied.
    fn pwm_set(&self, val: usize) -> Result<usize, String>
        requires
            val <= 100,
    ;

    /// Takes over the limits of new settings.
    fn configure(&mut self, set: &Settings);
}

/// A fan with the sensors that steer it.
pub struct Device {
    pub id: i32,
    pub dev_type: String,
    pub name: String,
    pub propeller: Option<Box<dyn Propeller>>,
    pub termometers: Vec<Box<dyn Thermometer>>,
}

/// The level that a fan with the limits `min` and `max` is driven at when
/// asked for `val`: `min` under it, `max` over it or over 100.
pub open spec fn limited(val: usize, min: usize, max: usize) -> usize {
    if val < min {
        min
    } else if val > 100 || val > max {
        max
    } else {
        val
    }
}

/// The level that a fan with the limits `min` and `max` is driven at when
/// asked for `val`.
pub fn limit_level(val: usize, min: usize, max: usize) -> (r: usize)
    ensures
        r == limited(val, min, max),
{
    let mut nval: usize = val;
    if val > 100 || val > max {
        nval = max;
    }
    if val < min {
        nval = min;
    }
    nval
}

/// The number that a file holds, white space around it apart. `file` is what
/// reading the file gave: its text, or why it could not be read.
pub fn read_file_val(file: Result<String, String>) -> (r: Result<usize, String>)
    ensures
        match file {
            Ok(v) => match usize_of(trimmed(v@)) {
                Some(n) => r == Ok::<usize, String>(n),
                None => r is Err && r->Err_0@ == "Can not parse value "@ + v@,
            },
            Err(e) => r == Err::<usize, String>(e),
        },
{
    match file {
        Ok(v) => match parse_trimmed_usize(v.as_str()) {
            Some(n) => Ok(n),
            None => {
                let mut msg: String = "Can not parse value ".to_owned();
                msg.append(v.as_str());
                Err(msg)
            },
        },
        Err(e) => Err(e),
    }
}

/// The number that a file holds, or `def` where it could not be read or holds
/// none.
pub fn read_file_val_or(file: Result<String, String>, def: usize) -> (r: usize)
    ensures
        r == match file {
            Ok(v) => match usize_of(trimmed(v@)) {
                Some(n) => n,
                None => def,
            },
            Err(_) => def,
        },
{
    match file {
        Ok(v) => match parse_trimmed_usize(v.as_str()) {
            Some(n) => n,
            None => def,
        },
        Err(_) => def,
    }
}

} // verus!
