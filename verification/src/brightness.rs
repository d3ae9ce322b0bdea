//! The backlight reading that is saved before the screen is dimmed and
//! written back when the user returns.

use crate::text::{decimal, decimal_string, parse_number, parse_unsigned, trim, trimmed};
use vstd::prelude::*;

verus! {

/// Brightness of one backlight device as its raw value, not a percentage.
#[derive(Debug)]
pub struct BrightnessState {
    pub value: u32,
    pub device: String,
}

pub struct BrightnessView {
    pub value: u32,
    pub device: Seq<char>,
}

impl View for BrightnessState {
    type V = BrightnessView;

    open spec fn view(&self) -> BrightnessView {
        BrightnessView { value: self.value, device: self.device@ }
    }
}

impl DeepView for BrightnessState {
    type V = BrightnessView;

    open spec fn deep_view(&self) -> BrightnessView {
        self@
    }
}

impl Clone for BrightnessState {
    fn clone(&self) -> (r: Self)
        ensures
            r == *self,
    {
        BrightnessState { value: self.value, device: self.device.clone() }
    }
}

/// The view of an optional reading.
pub open spec fn option_brightness(b: Option<BrightnessState>) -> Option<BrightnessView> {
    match b {
        Some(b) => Some(b@),
        None => None,
    }
}

pub fn clone_brightness(b: &Option<BrightnessState>) -> (r: Option<BrightnessState>)
    ensures
        r == *b,
{
    match b {
        Some(b) => Some(b.clone()),
        None => None,
    }
}

/// Directory under which the kernel lists the backlight devices.
pub open spec fn backlight_dir() -> Seq<char> {
    "/sys/class/backlight"@
}

/// The file that holds the raw brightness of `device`.
pub open spec fn brightness_file(device: Seq<char>) -> Seq<char> {
    backlight_dir() + "/"@ + device + "/brightness"@
}

/// What the contents of a device's brightness file mean: the number that is
/// left after trimming, if it is one and fits 32 bits.
pub open spec fn reading_of(device: Seq<char>, contents: Seq<char>) -> Option<BrightnessView> {
    match parse_unsigned(trimmed(contents), u32::MAX as nat) {
        Some(n) => Some(BrightnessView { value: n as u32, device }),
        None => None,
    }
}

/// Path of the file that holds the raw brightness of `device`.
pub fn brightness_path(device: &str) -> (path: String)
    ensures
        path@ == brightness_file(device@),
{
    let mut path = String::from_str("/sys/class/backlight");
    path.append("/");
    path.append(device);
    path.append("/brightness");
    path
}

/// Interprets the contents of the brightness file of `device`.
pub fn parse_brightness(device: String, contents: &str) -> (r: Option<BrightnessState>)
    ensures
        option_brightness(r) == reading_of(device@, contents@),
{
    let t = trim(contents);
    match parse_number(t.as_str(), 0xffff_ffff) {
        Some(n) => Some(BrightnessState { value: n as u32, device }),
        None => None,
    }
}

/// The text that restores `state` when written to its brightness file.
pub fn brightness_text(state: &BrightnessState) -> (s: String)
    ensures
        s@ == decimal(state.value as nat),
{
    decimal_string(state.value as u64)
}

} // verus!
