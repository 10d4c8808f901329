//! The machine record and how it is read off a JSON object: id, name,
//! operating system, difficulty, address, and the derived home directory.

use vstd::prelude::*;
use vstd::string::StringExecFns;

use crate::jsonv::{at_key, json_get, scalar_string, scalar_text, Json};
use crate::text::{dec_u64, lower_of, lowercase, parse_dec_u64, str_eq};

verus! {

#[derive(Copy, Clone, Debug, PartialEq, Eq, Structural)]
pub enum OperatingSystem {
    Linux,
    Windows,
}

/// The operating system a label names, if any.
pub open spec fn os_of(s: Seq<char>) -> Option<OperatingSystem> {
    if s == "Linux"@ {
        Some(OperatingSystem::Linux)
    } else if s == "Windows"@ {
        Some(OperatingSystem::Windows)
    } else {
        None
    }
}

impl OperatingSystem {
    /// Reads an operating-system label; an unrecognized one is refused.
    pub fn from_str(s: &str) -> (r: Option<Self>)
        ensures
            r == os_of(s@),
    {
        if str_eq(s, "Linux") {
            Some(OperatingSystem::Linux)
        } else if str_eq(s, "Windows") {
            Some(OperatingSystem::Windows)
        } else {
            None
        }
    }
}

#[derive(Copy, Clone, Debug, PartialEq, Eq, Structural)]
pub enum Difficulty {
    Easy,
    VeryEasy,
    Medium,
    Hard,
    Insane,
}

/// The difficulty a label names, if any. The remote service writes the
/// easiest tier as `VeryEase`.
pub open spec fn difficulty_of(s: Seq<char>) -> Option<Difficulty> {
    if s == "Easy"@ {
        Some(Difficulty::Easy)
    } else if s == "VeryEase"@ {
        Some(Difficulty::VeryEasy)
    } else if s == "Medium"@ {
        Some(Difficulty::Medium)
    } else if s == "Hard"@ {
        Some(Difficulty::Hard)
    } else if s == "Insane"@ {
        Some(Difficulty::Insane)
    } else {
        None
    }
}

impl Difficulty {
    /// Reads a difficulty label; an unrecognized one is refused.
    pub fn from_str(s: &str) -> (r: Option<Self>)
        ensures
            r == difficulty_of(s@),
    {
        if str_eq(s, "Easy") {
            Some(Difficulty::Easy)
        } else if str_eq(s, "VeryEase") {
            Some(Difficulty::VeryEasy)
        } else if str_eq(s, "Medium") {
            Some(Difficulty::Medium)
        } else if str_eq(s, "Hard") {
            Some(Difficulty::Hard)
        } else if str_eq(s, "Insane") {
            Some(Difficulty::Insane)
        } else {
            None
        }
    }
}

/// A remote machine, as one record of the listing describes it.
#[derive(Debug, Clone)]
pub struct Machine {
    pub id: u64,
    pub name: String,
    pub os: OperatingSystem,
    pub difficulty: Difficulty,
    pub ip: String,
    pub home: String,
}

/// The home directory derived for a machine: the base directory, the fixed
/// `htb/lab` segments, and the lowercased machine name.
pub open spec fn home_text(base: Seq<char>, name: Seq<char>) -> Seq<char> {
    base + "/htb/lab/"@ + lower_of(name)
}

/// The text a field of `info` reads as; a missing key reads as `null`.
pub open spec fn field_text(info: Json, key: Seq<char>) -> Option<Seq<char>> {
    scalar_text(at_key(info, key))
}

/// The machine id `info` carries: its `id` field must be a number whose
/// text denotes a `u64`.
pub open spec fn id_of(info: Json) -> Option<u64> {
    match at_key(info, "id"@) {
        Json::Num(t) => dec_u64(t@),
        _ => None,
    }
}

/// The operating system the `os` field of `info` names.
pub open spec fn os_field(info: Json) -> Option<OperatingSystem> {
    match field_text(info, "os"@) {
        Some(t) => os_of(t),
        None => None,
    }
}

/// The difficulty the `difficultyText` field of `info` names.
pub open spec fn difficulty_field(info: Json) -> Option<Difficulty> {
    match field_text(info, "difficultyText"@) {
        Some(t) => difficulty_of(t),
        None => None,
    }
}

/// Every field a machine is read from is present and well formed.
pub open spec fn machine_fields_ok(info: Json) -> bool {
    &&& id_of(info) is Some
    &&& field_text(info, "name"@) is Some
    &&& field_text(info, "ip"@) is Some
    &&& os_field(info) is Some
    &&& difficulty_field(info) is Some
}

/// `m` is exactly the machine that `info` describes, with its home under
/// `base`.
pub open spec fn machine_matches(m: Machine, info: Json, base: Seq<char>) -> bool {
    &&& Some(m.id) == id_of(info)
    &&& Some(m.name@) == field_text(info, "name"@)
    &&& Some(m.os) == os_field(info)
    &&& Some(m.difficulty) == difficulty_field(info)
    &&& Some(m.ip@) == field_text(info, "ip"@)
    &&& m.home@ == home_text(base, m.name@)
}

/// The text a field of `info` reads as, a missing key reading as `null`.
fn field_string(info: &Json, key: &str) -> (r: Option<String>)
    ensures
        match r {
            Some(s) => field_text(*info, key@) == Some(s@),
            None => field_text(*info, key@) is None,
        },
{
    match json_get(info, key) {
        Some(w) => scalar_string(w),
        None => Some(String::from_str("null")),
    }
}

/// Reads a machine off the JSON object `info`: `Some` exactly when every
/// field is present and well formed, and then each field of the result
/// matches the input.
pub fn machine_from_json(info: &Json, base: &str) -> (r: Option<Machine>)
    ensures
        r is Some <==> machine_fields_ok(*info),
        r matches Some(m) ==> machine_matches(m, *info, base@),
{
    let id = match json_get(info, "id") {
        Some(w) => match w {
            Json::Num(t) => match parse_dec_u64(t.as_str()) {
                Some(x) => x,
                None => {
                    return None;
                },
            },
            _ => {
                return None;
            },
        },
        None => {
            return None;
        },
    };
    let name = match field_string(info, "name") {
        Some(s) => s,
        None => {
            return None;
        },
    };
    let os = match field_string(info, "os") {
        Some(s) => match OperatingSystem::from_str(s.as_str()) {
            Some(o) => o,
            None => {
                return None;
            },
        },
        None => {
            return None;
        },
    };
    let difficulty = match field_string(info, "difficultyText") {
        Some(s) => match Difficulty::from_str(s.as_str()) {
            Some(d) => d,
            None => {
                return None;
            },
        },
        None => {
            return None;
        },
    };
    let ip = match field_string(info, "ip") {
        Some(s) => s,
        None => {
            return None;
        },
    };
    let lower = lowercase(name.as_str());
    let mut home = String::from_str(base);
    home.append("/htb/lab/");
    home.append(lower.as_str());
    Some(Machine { id, name, os, difficulty, ip, home })
}

} // verus!
