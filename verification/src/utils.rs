//! Small helpers: chassis classification and the display of durations.

use crate::text::{decimal, push_decimal, str_eq, trim, trimmed};
use vstd::prelude::*;

verus! {

/// The DMI chassis types of machines that run on a battery: 8 is portable,
/// 9 notebook, 10 handheld.
pub open spec fn laptop_chassis(chassis_type: Seq<char>) -> bool {
    chassis_type == "8"@ || chassis_type == "9"@ || chassis_type == "10"@
}

/// Whether the machine is a laptop, by the contents of its DMI chassis
/// type. A machine whose chassis type cannot be read counts as a desktop.
pub fn is_laptop(chassis_type: Option<&str>) -> (r: bool)
    ensures
        r == match chassis_type {
            Some(c) => laptop_chassis(trimmed(c@)),
            None => false,
        },
{
    match chassis_type {
        Some(c) => {
            let t = trim(c);
            str_eq(t.as_str(), "8") || str_eq(t.as_str(), "9") || str_eq(t.as_str(), "10")
        },
        None => false,
    }
}

/// A duration of `secs` seconds as it is shown to the user: seconds below a
/// minute, minutes and seconds below an hour, hours and minutes from there.
pub open spec fn duration_text(secs: nat) -> Seq<char> {
    if secs < 60 {
        decimal(secs) + "s"@
    } else if secs < 3600 {
        decimal(secs / 60) + "m "@ + decimal(secs % 60) + "s"@
    } else {
        decimal(secs / 3600) + "h "@ + decimal((secs % 3600) / 60) + "m"@
    }
}

/// Formats a duration given in whole seconds.
pub fn format_duration(secs: u64) -> (s: String)
    ensures
        s@ == duration_text(secs as nat),
{
    let mut s = String::new();
    if secs < 60 {
        push_decimal(&mut s, secs);
        s.append("s");
    } else if secs < 3600 {
        push_decimal(&mut s, secs / 60);
        s.append("m ");
        push_decimal(&mut s, secs % 60);
        s.append("s");
    } else {
        push_decimal(&mut s, secs / 3600);
        s.append("h ");
        push_decimal(&mut s, (secs % 3600) / 60);
        s.append("m");
    }
    assert(s@ =~= duration_text(secs as nat));
    s
}


/// `rest` below the directory `base`: a separator is put between the two
/// unless the base is empty or ends with one.
pub open spec fn path_below(base: Seq<char>, rest: Seq<char>) -> Seq<char> {
    if base.len() == 0 || base.last() == '/' {
        base + rest
    } else {
        base + "/"@ + rest
    }
}

/// Where the configuration of the whole system lies.
pub open spec fn system_config() -> Seq<char> {
    "/etc/stasis/stasis.rune"@
}

/// Where the configuration of a user lies, below the home directory.
pub open spec fn user_config(home: Seq<char>) -> Seq<char> {
    path_below(home, ".config/stasis/stasis.rune"@)
}

/// The places where the configuration is looked for, in order: that of the
/// user, if the home directory is known, then that of the system.
pub open spec fn candidate_paths(home: Option<Seq<char>>) -> Seq<Seq<char>> {
    match home {
        Some(h) => seq![user_config(h), system_config()],
        None => seq![system_config()],
    }
}

pub fn config_candidates(home: Option<&str>) -> (paths: Vec<String>)
    ensures
        crate::app_inhibit::texts(paths@) == candidate_paths(
            match home {
                Some(h) => Some(h@),
                None => None,
            },
        ),
{
    let mut paths: Vec<String> = Vec::new();
    match home {
        Some(h) => {
            let mut p = String::from_str(h);
            let v = crate::text::to_chars(h);
            if v.len() > 0 && v[v.len() - 1] != '/' {
                p.append("/");
            }
            p.append(".config/stasis/stasis.rune");
            assert(p@ =~= user_config(h@));
            paths.push(p);
        },
        None => {},
    }
    paths.push(String::from_str("/etc/stasis/stasis.rune"));
    assert(crate::app_inhibit::texts(paths@) =~= candidate_paths(
        match home {
            Some(h) => Some(h@),
            None => None,
        },
    ));
    paths
}

/// The first candidate that exists, if one does. `exists[i]` says whether
/// the candidate `i` exists; a candidate that nothing is said of counts as
/// missing.
pub fn first_existing(candidates: &Vec<String>, exists: &Vec<bool>) -> (r: Option<usize>)
    ensures
        match r {
            Some(i) => i < candidates.len() && i < exists.len() && exists@[i as int] && forall|
                j: int,
            |
                0 <= j < i ==> !exists@[j],
            None => forall|j: int| 0 <= j < candidates.len() && j < exists.len() ==> !exists@[j],
        },
{
    let mut i: usize = 0;
    while i < candidates.len() && i < exists.len()
        invariant
            forall|j: int| 0 <= j < i ==> !exists@[j],
            i <= candidates.len(),
            i <= exists.len(),
        decreases candidates.len() - i,
    {
        if exists[i] {
            return Some(i);
        }
        i += 1;
    }
    None
}

} // verus!
