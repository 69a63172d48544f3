//! Boot flags, one file each.

use crate::action::{Action, ActionView};
use crate::text::{concat2, concat3, join, same, slash, trim, trimmed};
use vstd::prelude::*;

verus! {

pub const FLAGS_DIR: &'static str = "flags/";

#[allow(non_camel_case_types)]
#[derive(Debug, Clone, Copy, PartialEq, Eq, Structural)]
pub enum Flag {
    FIRST_BOOT_DONE,
    SYSTEMD_TARGETS_TOTAL,
}

/// The file name of a flag.
pub open spec fn flag_name(flag: Flag) -> Seq<char> {
    match flag {
        Flag::FIRST_BOOT_DONE => "FIRST_BOOT_DONE"@,
        Flag::SYSTEMD_TARGETS_TOTAL => "SYSTEMD_TARGETS_TOTAL"@,
    }
}

/// Model of [`get_flag_path`].
pub open spec fn flag_path(flag: Flag) -> Seq<char> {
    slash(slash(slash(crate::DATA_PART_MOUNTPOINT@, crate::BOOT_DIR@), FLAGS_DIR@), flag_name(flag))
}

/// Creates the directory of the flags.
pub fn create_flags_dir() -> (action: Action)
    ensures
        action@ == crate::action::create_dir_all(
            crate::DATA_PART_MOUNTPOINT@ + crate::BOOT_DIR@ + FLAGS_DIR@,
        ),
{
    Action::mkdir(concat3(crate::DATA_PART_MOUNTPOINT, crate::BOOT_DIR, FLAGS_DIR))
}

/// Path of the file of `flag`.
pub fn get_flag_path(flag: Flag) -> (path: String)
    ensures
        path@ == flag_path(flag),
{
    let name = match flag {
        Flag::FIRST_BOOT_DONE => "FIRST_BOOT_DONE",
        Flag::SYSTEMD_TARGETS_TOTAL => "SYSTEMD_TARGETS_TOTAL",
    };
    let boot = join(crate::DATA_PART_MOUNTPOINT, crate::BOOT_DIR);
    let flags = join(boot.as_str(), FLAGS_DIR);
    join(flags.as_str(), name)
}

/// Model of the contents of a flag's file, `None` for a file that is not
/// there.
pub open spec fn contents_view(contents: Option<&str>) -> Option<Seq<char>> {
    match contents {
        Some(c) => Some(c@),
        None => None,
    }
}

/// The value of a boolean flag whose file holds `contents`: true only for
/// a file that says `true`.
pub fn read_bool(contents: Option<&str>) -> (value: bool)
    ensures
        value == match contents_view(contents) {
            Some(c) => trimmed(c) == "true"@,
            None => false,
        },
{
    match contents {
        Some(c) => same(trim(c), "true"),
        None => false,
    }
}

/// Sets a boolean flag.
pub fn write_bool(flag: Flag, value: bool) -> (action: Action)
    ensures
        action@ == (ActionView::WriteFile {
            path: flag_path(flag),
            contents: if value {
                "true\n"@
            } else {
                "false\n"@
            },
        }),
{
    let contents = if value {
        "true\n"
    } else {
        "false\n"
    };
    Action::WriteFile { path: get_flag_path(flag), contents: String::from_str(contents) }
}

/// The flag has no file.
#[derive(Debug, Clone, Copy, PartialEq, Eq, Structural)]
pub struct MissingFlag;

/// The text of a flag whose file holds `contents`, without the white space
/// around it.
pub fn read_string(contents: Option<&str>) -> (value: Result<String, MissingFlag>)
    ensures
        match value {
            Ok(text) => contents_view(contents) matches Some(c) && text@ == trimmed(c),
            Err(_) => contents is None,
        },
{
    match contents {
        Some(c) => Ok(String::from_str(trim(c))),
        None => Err(MissingFlag),
    }
}

/// Sets the text of a flag.
pub fn write_string(flag: Flag, contents: &str) -> (action: Action)
    ensures
        action@ == (ActionView::WriteFile {
            path: flag_path(flag),
            contents: contents@ + "\n"@,
        }),
{
    Action::WriteFile { path: get_flag_path(flag), contents: concat2(contents, "\n") }
}

/// Whether a flag is set: its file is there and not empty.
pub fn is_set(contents: Option<&str>) -> (set: bool)
    ensures
        set == match contents_view(contents) {
            Some(c) => c.len() > 0,
            None => false,
        },
{
    match contents {
        Some(c) => !c.is_empty(),
        None => false,
    }
}

} // verus!
