//! Which power source the machine runs on, decided from what the kernel's
//! power-supply enumeration holds.

use crate::config::model::option_text;
use crate::text::{starts_with, str_eq, trim, trimmed};
use vstd::prelude::*;

verus! {

/// One entry of the power-supply enumeration: its name and the contents of
/// its `type` and `online` files, where they could be read.
#[derive(Debug)]
pub struct PowerSupply {
    pub name: String,
    pub kind: Option<String>,
    pub online: Option<String>,
}

pub struct PowerSupplyView {
    pub name: Seq<char>,
    pub kind: Option<Seq<char>>,
    pub online: Option<Seq<char>>,
}

impl View for PowerSupply {
    type V = PowerSupplyView;

    open spec fn view(&self) -> PowerSupplyView {
        PowerSupplyView {
            name: self.name@,
            kind: option_text(self.kind),
            online: option_text(self.online),
        }
    }
}

impl DeepView for PowerSupply {
    type V = PowerSupplyView;

    open spec fn deep_view(&self) -> PowerSupplyView {
        self@
    }
}

/// The names that AC adapters went by before supplies declared their type.
pub open spec fn legacy_adapter_name(name: Seq<char>) -> bool {
    ||| "AC"@.is_prefix_of(name)
    ||| "ADP"@.is_prefix_of(name)
    ||| "ACAD"@.is_prefix_of(name)
    ||| "AC0"@.is_prefix_of(name)
    ||| "ADP0"@.is_prefix_of(name)
}

/// Whether a file's contents are, after trimming, exactly `word`.
pub open spec fn reads_as(contents: Option<Seq<char>>, word: Seq<char>) -> bool {
    match contents {
        Some(c) => trimmed(c) == word,
        None => false,
    }
}

/// Whether a supply shows that the machine is on AC: it is online and is
/// either of type `Mains` or named like an adapter.
pub open spec fn supplies_ac(s: PowerSupplyView) -> bool {
    reads_as(s.online, "1"@) && (reads_as(s.kind, "Mains"@) || legacy_adapter_name(s.name))
}

/// Whether the machine is on AC power: a desktop always is, a laptop when
/// one of its supplies shows it.
pub open spec fn on_ac_power(is_laptop: bool, supplies: Seq<PowerSupplyView>) -> bool {
    !is_laptop || exists|i: int| 0 <= i < supplies.len() && supplies_ac(#[trigger] supplies[i])
}

fn file_reads_as(contents: &Option<String>, word: &str) -> (r: bool)
    ensures
        r == reads_as(option_text(*contents), word@),
{
    match contents {
        Some(c) => {
            let t = trim(c.as_str());
            str_eq(t.as_str(), word)
        },
        None => false,
    }
}

fn is_legacy_adapter(name: &str) -> (r: bool)
    ensures
        r == legacy_adapter_name(name@),
{
    starts_with(name, "AC") || starts_with(name, "ADP") || starts_with(name, "ACAD") || starts_with(
        name,
        "AC0",
    ) || starts_with(name, "ADP0")
}

/// Whether the system is currently on AC power.
pub fn is_on_ac_power(is_laptop: bool, supplies: &Vec<PowerSupply>) -> (r: bool)
    ensures
        r == on_ac_power(is_laptop, supplies.deep_view()),
{
    if !is_laptop {
        return true;
    }
    let mut i: usize = 0;
    while i < supplies.len()
        invariant
            i <= supplies.len(),
            forall|j: int| 0 <= j < i ==> !supplies_ac(#[trigger] supplies.deep_view()[j]),
        decreases supplies.len() - i,
    {
        let s = &supplies[i];
        assert(supplies.deep_view()[i as int] == s@);
        if file_reads_as(&s.online, "1") && (file_reads_as(&s.kind, "Mains") || is_legacy_adapter(
            s.name.as_str(),
        )) {
            return true;
        }
        i += 1;
    }
    false
}

/// The power source at startup: AC for a desktop, else what the supplies show.
pub fn detect_initial_power_state(is_laptop: bool, supplies: &Vec<PowerSupply>) -> (r: bool)
    ensures
        r == on_ac_power(is_laptop, supplies.deep_view()),
{
    if !is_laptop {
        return true;
    }
    is_on_ac_power(is_laptop, supplies)
}

} // verus!
