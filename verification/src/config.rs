//! The program's settings and their defaults.
use vstd::prelude::*;
use crate::paths::{path_join, std_path_join};
use crate::text::{chars_of, owned, parse_uint, parse_uint_spec};

verus! {

/// The refresh interval in seconds: the setting read as a decimal `u64`,
/// 5 when it is missing or not such a number.
pub fn refresh_interval(setting: Option<&str>) -> (res: u64)
    ensures
        res as int == match setting {
            Some(s) => match parse_uint_spec(s@, 10, u64::MAX as int) {
                Some(n) => n,
                None => 5,
            },
            None => 5,
        },
{
    match setting {
        Some(s) => match parse_uint(&chars_of(s), 10, u64::MAX) {
            Some(n) => n,
            None => 5,
        },
        None => 5,
    }
}

/// The `vmrun` executable: the setting, or Fusion's own.
pub fn vmrun_path(setting: Option<&str>) -> (res: String)
    ensures
        res@ == match setting {
            Some(s) => s@,
            None => "/Applications/VMware Fusion.app/Contents/Library/vmrun"@,
        },
{
    match setting {
        Some(s) => owned(s),
        None => owned("/Applications/VMware Fusion.app/Contents/Library/vmrun"),
    }
}

/// The directory of the machines: the setting, or `Virtual
/// Machines.localized` in the home directory (`/` when it is unknown).
pub fn vm_dir(setting: Option<&str>, home: Option<&str>) -> (res: String)
    ensures
        res@ == match setting {
            Some(s) => s@,
            None => std_path_join(
                match home {
                    Some(h) => h@,
                    None => "/"@,
                },
                "Virtual Machines.localized"@,
            ),
        },
{
    match setting {
        Some(s) => owned(s),
        None => match home {
            Some(h) => path_join(h, "Virtual Machines.localized"),
            None => path_join("/", "Virtual Machines.localized"),
        },
    }
}

/// The logo file to read: the setting, when it is not empty.
pub fn logo_path(setting: Option<&str>) -> (res: Option<String>)
    ensures
        match setting {
            Some(s) => if s@.len() > 0 {
                res matches Some(p) && p@ == s@
            } else {
                res is None
            },
            None => res is None,
        },
{
    match setting {
        Some(s) => if s.is_empty() {
            None
        } else {
            Some(owned(s))
        },
        None => None,
    }
}

} // verus!
