//! Boot flags, all in one file.

use crate::text::{join, slash};
use vstd::prelude::*;

verus! {

pub const FLAGS_FILE: &'static str = "flags.ron";

#[derive(Debug, Clone, Copy, PartialEq, Eq, Structural)]
pub struct Flags {
    pub first_boot_done: bool,
    pub systemd_targets_total: Option<i32>,
}

/// What was found at the path of the flags file.
#[derive(Debug, Clone, Copy, PartialEq, Eq, Structural)]
pub enum StoredFlags {
    /// There is no file, or it cannot be read.
    Missing,
    /// The file holds these flags.
    Valid(Flags),
    /// The file holds something else.
    Invalid,
}

/// A write of the flags file.
#[derive(Debug, Clone, PartialEq, Eq)]
pub struct FlagsWrite {
    pub path: String,
    pub flags: Flags,
}

impl Flags {
    /// The flags of a device that has never booted.
    pub fn default_flags() -> (flags: Flags)
        ensures
            flags == (Flags { first_boot_done: false, systemd_targets_total: None }),
    {
        Flags { first_boot_done: false, systemd_targets_total: None }
    }

    /// Model of [`Flags::get_flags_file_path`].
    pub open spec fn flags_path() -> Seq<char> {
        slash(slash(crate::DATA_PART_MOUNTPOINT@, crate::BOOT_DIR@), FLAGS_FILE@)
    }

    /// Path of the flags file.
    pub fn get_flags_file_path() -> (path: String)
        ensures
            path@ == Self::flags_path(),
    {
        let boot = join(crate::DATA_PART_MOUNTPOINT, crate::BOOT_DIR);
        join(boot.as_str(), FLAGS_FILE)
    }

    /// The flags to boot with. A damaged file means that the device has
    /// booted before.
    pub fn read(stored: StoredFlags) -> (flags: Flags)
        ensures
            flags == match stored {
                StoredFlags::Missing => Flags {
                    first_boot_done: false,
                    systemd_targets_total: None,
                },
                StoredFlags::Valid(found) => found,
                StoredFlags::Invalid => Flags { first_boot_done: true, systemd_targets_total: None },
            },
    {
        match stored {
            StoredFlags::Missing => Self::default_flags(),
            StoredFlags::Valid(found) => found,
            StoredFlags::Invalid => {
                let mut flags = Self::default_flags();
                flags.first_boot_done = true;
                flags
            },
        }
    }

    /// The write that stores `flags`.
    pub fn write(flags: &Flags) -> (stored: FlagsWrite)
        ensures
            stored.path@ == Self::flags_path(),
            stored.flags == *flags,
    {
        FlagsWrite { path: Self::get_flags_file_path(), flags: *flags }
    }
}

} // verus!
