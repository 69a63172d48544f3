//! Recovery options of the boot menu.

use crate::action::{remove_dir_all, Action};
use vstd::prelude::*;

verus! {

/// Resets the system to the state of its image: everything that was
/// written to the durable upper layer is removed.
pub fn soft_reset() -> (action: Action)
    ensures
        action@ == remove_dir_all(
            crate::MAIN_PART_MOUNTPOINT@ + crate::SYSTEM_DIR@ + crate::ROOTFS_DIR@,
        ),
{
    let path = crate::text::concat3(
        crate::MAIN_PART_MOUNTPOINT,
        crate::SYSTEM_DIR,
        crate::ROOTFS_DIR,
    );
    crate::system::rm_dir_all(path.as_str())
}

} // verus!
