//! Boot orchestration logic of a two-stage init for an e-ink tablet.
//!
//! The crate decides; it never acts. Every routine takes plain values that
//! the caller has read from the machine and returns plain values: a verdict,
//! a next state, or a list of [`action::Action`]s to carry out.

use vstd::prelude::*;

pub mod action;
pub mod battery;
pub mod boot_config;
pub mod brightness;
pub mod debug;
pub mod eink;
pub mod encoding;
pub mod flag;
pub mod flags;
pub mod gui;
pub mod logging;
pub mod networking;
pub mod orchestrator;
pub mod pattern;
pub mod recovery;
pub mod rootfs;
pub mod rootfs_socket;
pub mod signing;
pub mod socket;
pub mod splash;
pub mod storage_encryption;
pub mod system;
pub mod systemd;
pub mod text;
pub mod wifi;

verus! {

/// Block device of the boot partition.
pub const BOOT_PART: &'static str = "/dev/mmcblk0p7";

/// Block device of the main partition.
pub const MAIN_PART: &'static str = "/dev/mmcblk0p9";

/// Block device of the data partition.
pub const DATA_PART: &'static str = "/dev/mmcblk0p6";

/// Mountpoint of the boot partition.
pub const BOOT_PART_MOUNTPOINT: &'static str = "/boot/";

/// Mountpoint of the main partition.
pub const MAIN_PART_MOUNTPOINT: &'static str = "/main/";

/// Mountpoint of the data partition.
pub const DATA_PART_MOUNTPOINT: &'static str = "/data/";

pub const BOOT_DIR: &'static str = "boot/";

pub const SYSTEM_DIR: &'static str = "system/";

pub const ROOTFS_DIR: &'static str = "rootfs/";

pub const SYSTEM_HOME_DIR: &'static str = "home/";

pub const DEFAULT_MOUNTPOINT: &'static str = "/mnt/";

/// Suffix of the detached signature that accompanies a checked file.
pub const GENERIC_DIGEST_EXT: &'static str = ".dgst";

pub const HOME_DIR: &'static str = "/root/";

/// File name of the root filesystem image.
pub const ROOTFS_FILE: &'static str = "rootfs.squashfs";

/// Memory-backed scratch area of the overlay.
pub const OVERLAY_WORKDIR: &'static str = "/.overlay/";

/// Where the assembled root filesystem appears.
pub const OVERLAY_MOUNTPOINT: &'static str = "/overlay/";

pub const OPENRC_WORKDIR: &'static str = "/run/openrc";

} // verus!
