use vstd::prelude::*;

use crate::parse::{parse_signed, parse_signed_text, parse_unsigned, parse_unsigned_text};
use crate::Error;

verus! {

/// `v` restricted to `[0, max]`: first lowered to `max`, then raised to 0.
pub open spec fn clamp(v: int, max: int) -> int {
    if v > max {
        max
    } else if v < 0 {
        0
    } else {
        v
    }
}

/// A requested brightness change: an absolute target, or a delta from the
/// device's current brightness.
#[derive(Debug, Clone, Copy, PartialEq, Eq, Structural)]
pub struct Update {
    pub relative: bool,
    pub value: i64,
}

/// What `Update::new` makes of `s` with the number's sign multiplied by `sign`.
pub open spec fn requested(relative: bool, sign: int, s: Seq<char>) -> Result<Update, Error> {
    match parse_signed(s) {
        Some(v) => Ok(Update { relative, value: (sign * v) as i64 }),
        None => Err(Error::Parse),
    }
}

/// The device reading of an attribute file's contents.
pub open spec fn reading(s: Seq<char>) -> Result<u32, Error> {
    match parse_unsigned(s) {
        Some(v) => Ok(v as u32),
        None => Err(Error::Parse),
    }
}

impl Update {
    /// The brightness before clamping.
    pub open spec fn raw_target(self, current: nat) -> int {
        if self.relative {
            current + self.value
        } else {
            self.value as int
        }
    }

    /// The brightness written to a device at `current` whose maximum is `max`.
    pub open spec fn target(self, current: nat, max: nat) -> nat {
        clamp(self.raw_target(current), max as int) as nat
    }

    /// An absolute request for the number in `valstr`.
    pub fn set(valstr: &str) -> (r: Result<Update, Error>)
        ensures
            r == requested(false, 1, valstr@),
    {
        Update::new(false, valstr)
    }

    /// A request to raise the brightness by the number in `valstr`.
    pub fn inc(valstr: &str) -> (r: Result<Update, Error>)
        ensures
            r == requested(true, 1, valstr@),
    {
        Update::new(true, valstr)
    }

    /// A request to lower the brightness by the number in `valstr`.
    pub fn dec(valstr: &str) -> (r: Result<Update, Error>)
        ensures
            r == requested(true, -1, valstr@),
    {
        let mut res = Update::new(true, valstr)?;
        res.value = -res.value;
        Ok(res)
    }

    /// A request for the number in `valstr`, absolute or relative.
    pub fn new(relative: bool, valstr: &str) -> (r: Result<Update, Error>)
        ensures
            r == requested(relative, 1, valstr@),
    {
        match parse_signed_text(valstr) {
            Some(v) => Ok(Update { relative, value: v as i64 }),
            None => Err(Error::Parse),
        }
    }

    /// The brightness to write to a device whose brightness is `current` and
    /// whose maximum is `max`.
    pub fn apply(&self, current: u32, max: u32) -> (r: u32)
        ensures
            r as nat == self.target(current as nat, max as nat),
    {
        let mut value: i128 = if self.relative {
            current as i128 + self.value as i128
        } else {
            self.value as i128
        };
        if value > max as i128 {
            value = max as i128;
        }
        if value < 0 {
            value = 0;
        }
        value as u32
    }
}

/// A backlight device, known by its sysfs directory.
pub struct Backlight {
    pub root: String,
}

impl Backlight {
    pub fn new(path: &str) -> (r: Backlight)
        ensures
            r.root@ == path@,
    {
        Backlight { root: path.to_owned() }
    }

    /// The maximum brightness, from the contents of the `max_brightness` file.
    pub fn get_max_brightness(&self, contents: &str) -> (r: Result<u32, Error>)
        ensures
            r == reading(contents@),
    {
        read_value(contents)
    }

    /// The current brightness, from the contents of the `brightness` file.
    pub fn get_brightness(&self, contents: &str) -> (r: Result<u32, Error>)
        ensures
            r == reading(contents@),
    {
        read_value(contents)
    }
}

/// Reads an attribute's contents as a non-negative integer.
pub fn read_value(contents: &str) -> (r: Result<u32, Error>)
    ensures
        r == reading(contents@),
{
    match parse_unsigned_text(contents) {
        Some(v) => Ok(v),
        None => Err(Error::Parse),
    }
}

} // verus!
