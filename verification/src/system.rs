//! Mounts, commands and the shutdown coordinator.

use crate::action::{
    create_dir_all, detach, extend, mount, push_action, run, Action, ActionView, Command,
};
use crate::boot_config::BootConfig;
use crate::pattern::PatternError;
use crate::signing::{accepts, bytes_view, check_signature, PublicKey};
use crate::text::{join, same, slash};
use vstd::prelude::*;
use vstd::string::StringSliceAdditionalSpecFns;

verus! {

pub const MODULES_DIR_PATH: &'static str = "/lib/modules";

pub const MODULES_ARCHIVE: &'static str = "modules.squashfs";

pub const FIRMWARE_DIR_PATH: &'static str = "/lib/firmware";

pub const FIRMWARE_ARCHIVE: &'static str = "firmware.squashfs";

pub const WAVEFORM_DIR_PATH: &'static str = "/lib/firmware/rockchip/";

pub const QINIT_BINARIES_ARCHIVE: &'static str = "qinit_binaries.squashfs";

pub const QINIT_BINARIES_DIR_PATH: &'static str = "/qinit_binaries/";

pub const REBOOT_BINARY_PATH: &'static str = "/sbin/reboot";

pub const POWER_OFF_BINARY_PATH: &'static str = "/sbin/poweroff";

/// Model of [`sync_disks`].
pub open spec fn sync_action() -> ActionView {
    run("/bin/sync"@, seq![])
}

/// Flushes what is cached for durable storage.
pub fn sync_disks() -> (action: Action)
    ensures
        action@ == sync_action(),
{
    Action::run_command(Command::new("/bin/sync"))
}

/// Model of [`bind_mount`].
pub open spec fn bind_action(source: Seq<char>, mountpoint: Seq<char>) -> ActionView {
    run("mount"@, seq!["--rbind"@, source, mountpoint])
}

/// Makes the tree at `source` visible at `mountpoint` as well.
pub fn bind_mount(source: &str, mountpoint: &str) -> (action: Action)
    ensures
        action@ == bind_action(source@, mountpoint@),
{
    let mut command = Command::new("mount");
    command.arg("--rbind");
    command.arg(source);
    command.arg(mountpoint);
    assert(command@.args =~= seq!["--rbind"@, source@, mountpoint@]);
    Action::run_command(command)
}

/// Model of [`mount_image`].
pub open spec fn image_mount_action(image: Seq<char>, mountpoint: Seq<char>) -> ActionView {
    run("/bin/mount"@, seq![image, mountpoint])
}

/// Mounts a filesystem image through the system's `mount` program, which
/// sets up the loop device.
pub fn mount_image(image: &str, mountpoint: &str) -> (action: Action)
    ensures
        action@ == image_mount_action(image@, mountpoint@),
{
    let mut command = Command::new("/bin/mount");
    command.arg(image);
    command.arg(mountpoint);
    assert(command@.args =~= seq![image@, mountpoint@]);
    Action::run_command(command)
}

/// Model of [`bulletproof_unmount`].
pub open spec fn bulletproof_unmount_plan(path: Seq<char>) -> Seq<ActionView> {
    seq![sync_action(), detach(path)]
}

/// Unmounts `path` in a way that cannot leave it behind: durable storage is
/// flushed first, then the mount is detached by force even if it is busy.
pub fn bulletproof_unmount(path: &str) -> (plan: Vec<Action>)
    ensures
        plan.deep_view() == bulletproof_unmount_plan(path@),
{
    let mut plan: Vec<Action> = Vec::new();
    push_action(&mut plan, sync_disks());
    push_action(&mut plan, Action::force_unmount(String::from_str(path)));
    assert(plan.deep_view() =~= bulletproof_unmount_plan(path@));
    plan
}

/// Removes the directory tree at `path` if there is one.
pub fn rm_dir_all(path: &str) -> (action: Action)
    ensures
        action@ == crate::action::remove_dir_all(path@),
{
    Action::RemoveDirAll { path: String::from_str(path) }
}

/// The characters that a generated password is made of.
pub open spec fn is_alphanumeric(c: char) -> bool {
    ('A' <= c && c <= 'Z') || ('a' <= c && c <= 'z') || ('0' <= c && c <= '9')
}

/// Draws one character from `rand::distr::Alphanumeric` with the thread's
/// generator, through `rand::Rng::sample`. Trusted: the distribution yields
/// ASCII letters and digits only. Which one comes is left open.
#[verifier::external_body]
fn sample_alphanumeric() -> (c: char)
    ensures
        is_alphanumeric(c),
{
    rand::Rng::sample(&mut rand::rng(), rand::distr::Alphanumeric) as char
}

/// A random string of `length` letters and digits, empty for a length that
/// is not positive.
pub fn generate_random_string(length: i32) -> (chars: String)
    ensures
        chars@.len() == if length > 0 { length as int } else { 0 },
        forall|i: int| 0 <= i < chars@.len() ==> is_alphanumeric(#[trigger] chars@[i]),
{
    let mut chars = String::new();
    let mut drawn: i32 = 0;
    while drawn < length
        invariant
            0 <= drawn,
            length <= 0 ==> drawn == 0,
            length > 0 ==> drawn <= length,
            chars@.len() == drawn,
            forall|i: int| 0 <= i < chars@.len() ==> is_alphanumeric(#[trigger] chars@[i]),
        decreases length - drawn,
    {
        chars.push(sample_alphanumeric());
        drawn = drawn + 1;
    }
    chars
}

/// What the boot menu asks the orchestrator to do.
#[derive(Debug, Clone, Copy, PartialEq, Eq, Structural)]
pub enum BootCommand {
    PowerOff,
    /// Power off by way of the assembled tree.
    PowerOffRootFS,
    Reboot,
    /// Reboot by way of the assembled tree.
    RebootRootFS,
    NormalBoot,
    BootFinished,
}

/// A [`BootCommand`] as it is sent, with a note of whether a shutdown flag
/// travels with it. The flag itself, a value shared between threads, stays
/// with the sender and the receiver.
#[derive(Debug, Clone, Copy, PartialEq, Eq, Structural)]
pub struct BootCommandForm {
    pub command: BootCommand,
    pub can_shut_down: bool,
}

/// From where the machine is powered down.
#[derive(Debug, Clone, Copy, PartialEq, Eq, Structural)]
pub enum PowerDownMode {
    /// From the init ramdisk, where the partitions have to be unmounted
    /// first.
    Normal,
    /// From inside the assembled tree, whose own shutdown does the rest.
    RootFS,
}

/// The kinds of shutdown.
#[derive(Debug, Clone, Copy, PartialEq, Eq, Structural)]
pub enum PrimitiveShutDownType {
    PowerOff,
    Reboot,
    Sleep,
}

/// Model of [`mount_base_filesystems`].
pub open spec fn base_filesystems_plan() -> Seq<ActionView> {
    seq![
        mount("proc"@, "proc"@, "/proc"@),
        mount("sysfs"@, "sysfs"@, "/sys"@),
        mount("devtmpfs"@, "devtmpfs"@, "/dev"@),
        create_dir_all("/dev/pts"@),
        mount("devpts"@, "devpts"@, "/dev/pts"@),
        mount("tmpfs"@, "tmpfs"@, "/tmp"@),
        mount("tmpfs"@, "tmpfs"@, "/run"@),
    ]
}

/// Mounts the pseudo-filesystems of the init ramdisk.
pub fn mount_base_filesystems() -> (plan: Vec<Action>)
    ensures
        plan.deep_view() == base_filesystems_plan(),
{
    let mut plan: Vec<Action> = Vec::new();
    push_action(&mut plan, Action::mount_fs("proc", "proc", String::from_str("/proc")));
    push_action(&mut plan, Action::mount_fs("sysfs", "sysfs", String::from_str("/sys")));
    push_action(&mut plan, Action::mount_fs("devtmpfs", "devtmpfs", String::from_str("/dev")));
    push_action(&mut plan, Action::mkdir(String::from_str("/dev/pts")));
    push_action(&mut plan, Action::mount_fs("devpts", "devpts", String::from_str("/dev/pts")));
    push_action(&mut plan, Action::mount_fs("tmpfs", "tmpfs", String::from_str("/tmp")));
    push_action(&mut plan, Action::mount_fs("tmpfs", "tmpfs", String::from_str("/run")));
    assert(plan.deep_view() =~= base_filesystems_plan());
    plan
}

/// The pattern that finds the value of `property` on a kernel command line.
pub open spec fn cmdline_pattern(property: Seq<char>) -> Seq<char> {
    crate::pattern::regex_escaped(property) + "=(\\w+)"@
}

/// Whether `value` switches a property on.
pub open spec fn is_true_value(value: Option<Seq<char>>) -> bool {
    match value {
        Some(v) => v == "1"@ || v == "true"@,
        None => false,
    }
}

/// Whether `value` switches a property on: `1` and `true` do, anything else
/// and no value at all do not.
pub fn value_is_true(value: Option<&str>) -> (on: bool)
    ensures
        on == is_true_value(
            match value {
                Some(v) => Some(v@),
                None => None,
            },
        ),
{
    match value {
        Some(v) => same(v, "1") || same(v, "true"),
        None => false,
    }
}

/// The pattern that finds the value of `property` on a kernel command line:
/// the name, taken literally, an equals sign, and the word that follows.
pub fn property_pattern(property: &str) -> (pattern: String)
    ensures
        pattern@ == cmdline_pattern(property@),
{
    let mut pattern = crate::pattern::escape(property);
    pattern.append("=(\\w+)");
    pattern
}

/// Whether the kernel command line `cmdline` switches `property` on. A
/// property that is not there is off.
pub fn get_cmdline_bool(cmdline: &str, property: &str) -> (on: Result<bool, PatternError>)
    ensures
        match crate::pattern::regex_capture(cmdline_pattern(property@), cmdline@, 1) {
            Some(value) => on == Ok::<bool, PatternError>(is_true_value(value)),
            None => on is Err,
        },
{
    let pattern = property_pattern(property);
    match crate::pattern::capture(pattern.as_str(), cmdline, 1) {
        Ok(Some(value)) => Ok(value_is_true(Some(value.as_str()))),
        Ok(None) => Ok(value_is_true(None)),
        Err(_) => Err(PatternError),
    }
}

/// Changes the working directory.
pub fn set_workdir(path: &str) -> (action: Action)
    ensures
        action@ == (ActionView::SetWorkdir { path: path@ }),
{
    Action::SetWorkdir { path: String::from_str(path) }
}

/// Waits until `path` exists, without a time limit: a device whose disk
/// never appears does not boot.
pub fn wait_for_path(path: &str) -> (action: Action)
    ensures
        action@ == (ActionView::WaitForPath { path: path@ }),
{
    Action::WaitForPath { path: String::from_str(path) }
}

/// Runs `command` with `args`.
pub fn run_command(command: &str, args: &Vec<String>) -> (action: Action)
    ensures
        action@ == run(command@, args.deep_view()),
{
    let mut built = Command::new(command);
    built.args(args);
    assert(built@.args =~= args.deep_view());
    Action::run_command(built)
}

/// Loads or unloads kernel modules: `args` go to `modprobe` as they are.
pub fn modprobe(args: &Vec<String>) -> (action: Action)
    ensures
        action@ == run("/sbin/modprobe"@, args.deep_view()),
{
    run_command("/sbin/modprobe", args)
}

/// Model of mounting an ext4 partition for reading and writing.
pub open spec fn partition_mount(device: Seq<char>, mountpoint: Seq<char>) -> ActionView {
    ActionView::Mount { fstype: "ext4"@, source: device, target: mountpoint, data: Some("rw"@) }
}

fn mount_partition(device: &str, mountpoint: &str) -> (action: Action)
    ensures
        action@ == partition_mount(device@, mountpoint@),
{
    Action::Mount {
        fstype: String::from_str("ext4"),
        source: String::from_str(device),
        target: String::from_str(mountpoint),
        data: Some(String::from_str("rw")),
    }
}

/// Model of [`mount_base_partitions`].
pub open spec fn base_partitions_plan() -> Seq<ActionView> {
    seq![
        create_dir_all(crate::BOOT_PART_MOUNTPOINT@),
        ActionView::WaitForPath { path: crate::BOOT_PART@ },
        partition_mount(crate::BOOT_PART@, crate::BOOT_PART_MOUNTPOINT@),
        create_dir_all(crate::MAIN_PART_MOUNTPOINT@),
        ActionView::WaitForPath { path: crate::MAIN_PART@ },
        partition_mount(crate::MAIN_PART@, crate::MAIN_PART_MOUNTPOINT@),
        create_dir_all(slash(crate::MAIN_PART_MOUNTPOINT@, crate::SYSTEM_DIR@)),
        create_dir_all(slash(crate::MAIN_PART_MOUNTPOINT@, crate::SYSTEM_HOME_DIR@)),
    ]
}

/// Mounts the boot and the main partition, each as soon as its device has
/// appeared, and creates the directories that the system keeps on the main
/// partition.
pub fn mount_base_partitions() -> (plan: Vec<Action>)
    ensures
        plan.deep_view() == base_partitions_plan(),
{
    let mut plan: Vec<Action> = Vec::new();
    push_action(&mut plan, Action::mkdir(String::from_str(crate::BOOT_PART_MOUNTPOINT)));
    push_action(&mut plan, wait_for_path(crate::BOOT_PART));
    push_action(&mut plan, mount_partition(crate::BOOT_PART, crate::BOOT_PART_MOUNTPOINT));
    push_action(&mut plan, Action::mkdir(String::from_str(crate::MAIN_PART_MOUNTPOINT)));
    push_action(&mut plan, wait_for_path(crate::MAIN_PART));
    push_action(&mut plan, mount_partition(crate::MAIN_PART, crate::MAIN_PART_MOUNTPOINT));
    push_action(&mut plan, Action::mkdir(join(crate::MAIN_PART_MOUNTPOINT, crate::SYSTEM_DIR)));
    push_action(
        &mut plan,
        Action::mkdir(join(crate::MAIN_PART_MOUNTPOINT, crate::SYSTEM_HOME_DIR)),
    );
    assert(plan.deep_view() =~= base_partitions_plan());
    plan
}

/// Model of [`mount_data_partition`].
pub open spec fn data_partition_plan() -> Seq<ActionView> {
    seq![
        create_dir_all(crate::DATA_PART_MOUNTPOINT@),
        ActionView::WaitForPath { path: crate::DATA_PART@ },
        partition_mount(crate::DATA_PART@, crate::DATA_PART_MOUNTPOINT@),
    ]
}

/// Mounts the data partition as soon as its device has appeared.
pub fn mount_data_partition() -> (plan: Vec<Action>)
    ensures
        plan.deep_view() == data_partition_plan(),
{
    let mut plan: Vec<Action> = Vec::new();
    push_action(&mut plan, Action::mkdir(String::from_str(crate::DATA_PART_MOUNTPOINT)));
    push_action(&mut plan, wait_for_path(crate::DATA_PART));
    push_action(&mut plan, mount_partition(crate::DATA_PART, crate::DATA_PART_MOUNTPOINT));
    assert(plan.deep_view() =~= data_partition_plan());
    plan
}

/// Model of [`mount_modules`].
pub open spec fn modules_plan() -> Seq<ActionView> {
    seq![
        create_dir_all(MODULES_DIR_PATH@),
        image_mount_action("/lib/"@ + MODULES_ARCHIVE@, MODULES_DIR_PATH@),
    ]
}

/// Mounts the archive of kernel modules that ships on the init ramdisk.
pub fn mount_modules() -> (plan: Vec<Action>)
    ensures
        plan.deep_view() == modules_plan(),
{
    let mut plan: Vec<Action> = Vec::new();
    push_action(&mut plan, Action::mkdir(String::from_str(MODULES_DIR_PATH)));
    let archive = crate::text::concat2("/lib/", MODULES_ARCHIVE);
    push_action(&mut plan, mount_image(archive.as_str(), MODULES_DIR_PATH));
    assert(plan.deep_view() =~= modules_plan());
    plan
}

/// Path of the firmware archive on the boot partition.
pub open spec fn firmware_archive_path() -> Seq<char> {
    slash(crate::BOOT_PART_MOUNTPOINT@, FIRMWARE_ARCHIVE@)
}

/// Steps that mount a firmware archive, and a small memory-backed
/// filesystem over the directory that receives the waveform files.
pub open spec fn firmware_plan() -> Seq<ActionView> {
    seq![
        image_mount_action(firmware_archive_path(), FIRMWARE_DIR_PATH@),
        ActionView::Mount {
            fstype: "tmpfs"@,
            source: "tmpfs"@,
            target: WAVEFORM_DIR_PATH@,
            data: Some("size=32M"@),
        },
    ]
}

/// Why the firmware was not mounted.
#[derive(Debug, Clone, Copy, PartialEq, Eq, Structural)]
pub enum FirmwareError {
    /// There is no firmware archive.
    ArchiveNotFound,
    /// The archive's signature was not accepted.
    InvalidSignature,
}

/// Verifies the firmware archive and gives the steps that mount it.
///
/// `archive` holds the bytes of the archive, `None` if it does not exist;
/// `signature` those of its detached signature. A rejected archive is never
/// mounted.
pub fn mount_firmware<const FREE_ROAM: bool>(
    pubkey: &PublicKey,
    archive: Option<&[u8]>,
    signature: Option<&[u8]>,
) -> (result: Result<Vec<Action>, FirmwareError>)
    ensures
        match result {
            Ok(plan) => archive matches Some(data) && (FREE_ROAM || accepts(
                pubkey.pem(),
                data@,
                bytes_view(signature),
            )) && plan.deep_view() == firmware_plan(),
            Err(FirmwareError::ArchiveNotFound) => archive is None,
            Err(FirmwareError::InvalidSignature) => archive matches Some(data) && !(FREE_ROAM
                || accepts(pubkey.pem(), data@, bytes_view(signature))),
        },
{
    match archive {
        None => Err(FirmwareError::ArchiveNotFound),
        Some(data) => {
            if check_signature::<FREE_ROAM>(pubkey, data, signature) {
                let mut plan: Vec<Action> = Vec::new();
                let path = join(crate::BOOT_PART_MOUNTPOINT, FIRMWARE_ARCHIVE);
                push_action(&mut plan, mount_image(path.as_str(), FIRMWARE_DIR_PATH));
                push_action(
                    &mut plan,
                    Action::Mount {
                        fstype: String::from_str("tmpfs"),
                        source: String::from_str("tmpfs"),
                        target: String::from_str(WAVEFORM_DIR_PATH),
                        data: Some(String::from_str("size=32M")),
                    },
                );
                assert(plan.deep_view() =~= firmware_plan());
                Ok(plan)
            } else {
                Err(FirmwareError::InvalidSignature)
            }
        },
    }
}

/// Model of [`unmount_base_partitions`].
pub open spec fn unmount_base_partitions_plan() -> Seq<ActionView> {
    seq![sync_action()] + bulletproof_unmount_plan(crate::MAIN_PART_MOUNTPOINT@)
        + bulletproof_unmount_plan(crate::BOOT_PART_MOUNTPOINT@)
}

/// Flushes durable storage and detaches the main and the boot partition.
pub fn unmount_base_partitions() -> (plan: Vec<Action>)
    ensures
        plan.deep_view() == unmount_base_partitions_plan(),
{
    let mut plan: Vec<Action> = Vec::new();
    push_action(&mut plan, sync_disks());
    assert(plan.deep_view() =~= seq![sync_action()]);
    extend(&mut plan, bulletproof_unmount(crate::MAIN_PART_MOUNTPOINT));
    extend(&mut plan, bulletproof_unmount(crate::BOOT_PART_MOUNTPOINT));
    plan
}

/// Model of a request to the service manager of the init ramdisk.
pub open spec fn service_action(service: Seq<char>, verb: Seq<char>) -> ActionView {
    run("/sbin/rc-service"@, seq![service, verb])
}

fn service(name: &str, verb: &str) -> (action: Action)
    ensures
        action@ == service_action(name@, verb@),
{
    let mut command = Command::new("/sbin/rc-service");
    command.arg(name);
    command.arg(verb);
    assert(command@.args =~= seq![name@, verb@]);
    Action::run_command(command)
}

pub fn start_service(name: &str) -> (action: Action)
    ensures
        action@ == service_action(name@, "start"@),
{
    service(name, "start")
}

pub fn stop_service(name: &str) -> (action: Action)
    ensures
        action@ == service_action(name@, "stop"@),
{
    service(name, "stop")
}

pub fn restart_service(name: &str) -> (action: Action)
    ensures
        action@ == service_action(name@, "restart"@),
{
    service(name, "restart")
}

/// The program that carries out a shutdown of the given kind, if there is
/// one.
pub open spec fn power_binary(shut_down_type: PrimitiveShutDownType) -> Option<Seq<char>> {
    match shut_down_type {
        PrimitiveShutDownType::PowerOff => Some(POWER_OFF_BINARY_PATH@),
        PrimitiveShutDownType::Reboot => Some(REBOOT_BINARY_PATH@),
        PrimitiveShutDownType::Sleep => None,
    }
}

/// Model of [`real_shut_down`].
pub open spec fn shut_down_plan(
    shut_down_type: PrimitiveShutDownType,
    mode: PowerDownMode,
) -> Seq<ActionView> {
    match mode {
        PowerDownMode::Normal => unmount_base_partitions_plan() + match power_binary(
            shut_down_type,
        ) {
            Some(binary) => seq![run(binary, seq!["-f"@])],
            None => seq![],
        },
        PowerDownMode::RootFS => match power_binary(shut_down_type) {
            Some(binary) => seq![crate::rootfs::chroot_action(seq![binary])],
            None => seq![],
        },
    }
}

/// The steps of a shutdown.
///
/// From the init ramdisk the partitions are flushed and detached before the
/// machine is powered down by force; past the first unmount nothing can be
/// undone. From inside the assembled tree the shutdown is handed to the
/// tree's own program.
///
/// The steps are carried out to the last, whether or not one of them fails:
/// [`after_shut_down_step`] gives the step that follows each.
pub fn real_shut_down(shut_down_type: PrimitiveShutDownType, mode: PowerDownMode) -> (plan: Vec<
    Action,
>)
    ensures
        plan.deep_view() == shut_down_plan(shut_down_type, mode),
{
    let binary: Option<&'static str> = match shut_down_type {
        PrimitiveShutDownType::PowerOff => Some(POWER_OFF_BINARY_PATH),
        PrimitiveShutDownType::Reboot => Some(REBOOT_BINARY_PATH),
        PrimitiveShutDownType::Sleep => None,
    };
    match mode {
        PowerDownMode::Normal => {
            let mut plan = unmount_base_partitions();
            match binary {
                Some(binary) => {
                    let mut command = Command::new(binary);
                    command.arg("-f");
                    assert(command@.args =~= seq!["-f"@]);
                    push_action(&mut plan, Action::run_command(command));
                    assert(plan.deep_view() =~= shut_down_plan(shut_down_type, mode));
                },
                None => {
                    assert(plan.deep_view() =~= shut_down_plan(shut_down_type, mode));
                },
            }
            plan
        },
        PowerDownMode::RootFS => {
            let mut plan: Vec<Action> = Vec::new();
            match binary {
                Some(binary) => {
                    let mut command: Vec<String> = Vec::new();
                    command.push(String::from_str(binary));
                    assert(command.deep_view() =~= seq![binary@]);
                    push_action(&mut plan, crate::rootfs::run_chroot_command(&command));
                    assert(plan.deep_view() =~= shut_down_plan(shut_down_type, mode));
                },
                None => {
                    assert(plan.deep_view() =~= shut_down_plan(shut_down_type, mode));
                },
            }
            plan
        },
    }
}

/// How long to wait before the shutdown flag is looked at again.
pub const SHUT_DOWN_POLL_MILLIS: u64 = 100;

/// What the shutdown coordinator does next.
#[derive(Debug, Clone, PartialEq, Eq)]
pub enum ShutDownStep {
    /// The flag is not raised: wait this long, then look again.
    Wait { millis: u64 },
    /// The flag is raised: lower it, then carry out the steps, each one
    /// followed by the one that [`after_shut_down_step`] gives.
    Proceed { plan: Vec<Action> },
}

/// One turn of the shutdown coordinator.
///
/// `can_shut_down` is the present value of the shutdown flag, which is
/// raised once the splash has been drawn. Nothing that harms is done before
/// the flag is up.
pub fn shut_down(
    shut_down_type: PrimitiveShutDownType,
    mode: PowerDownMode,
    can_shut_down: bool,
) -> (step: ShutDownStep)
    ensures
        match step {
            ShutDownStep::Wait { millis } => !can_shut_down && millis == SHUT_DOWN_POLL_MILLIS,
            ShutDownStep::Proceed { plan } => can_shut_down && plan.deep_view() == shut_down_plan(
                shut_down_type,
                mode,
            ),
        },
{
    if can_shut_down {
        ShutDownStep::Proceed { plan: real_shut_down(shut_down_type, mode) }
    } else {
        ShutDownStep::Wait { millis: SHUT_DOWN_POLL_MILLIS }
    }
}

/// Model of [`after_shut_down_step`].
pub open spec fn shut_down_step_after(len: int, index: int, succeeded: bool) -> Option<int> {
    if index + 1 < len {
        Some(index + 1)
    } else {
        None
    }
}

/// The step that follows step `index` of a shutdown plan of `len` steps.
///
/// Past the first unmount nothing can be undone, so a shutdown is not
/// stopped by a step that fails: the failure is logged and the next step
/// follows all the same.
pub fn after_shut_down_step(len: usize, index: usize, succeeded: bool) -> (next: Option<usize>)
    requires
        index < len,
    ensures
        next == if index + 1 < len {
            Some((index + 1) as usize)
        } else {
            None::<usize>
        },
        match next {
            Some(following) => shut_down_step_after(len as int, index as int, succeeded) == Some(
                following as int,
            ),
            None => shut_down_step_after(len as int, index as int, succeeded) is None,
        },
{
    if index + 1 < len {
        Some(index + 1)
    } else {
        None
    }
}

/// The step that is carried out in turn number `turn`, counted from zero,
/// of a shutdown plan of `len` steps whose steps end as `outcomes` say;
/// `None` once the plan has come to its end.
pub open spec fn shut_down_step_in_turn(len: int, outcomes: Seq<bool>, turn: int) -> Option<int>
    decreases turn,
{
    if turn <= 0 {
        if len > 0 {
            Some(0)
        } else {
            None
        }
    } else {
        match shut_down_step_in_turn(len, outcomes, turn - 1) {
            Some(index) => shut_down_step_after(len, index, outcomes[index]),
            None => None,
        }
    }
}

/// A shutdown plan is carried to its end: whatever the outcomes of its
/// steps, every step has its turn, in order.
pub proof fn lemma_shut_down_runs_to_its_end(len: int, outcomes: Seq<bool>, turn: int)
    requires
        0 <= turn < len,
    ensures
        shut_down_step_in_turn(len, outcomes, turn) == Some(turn),
    decreases turn,
{
    if turn > 0 {
        lemma_shut_down_runs_to_its_end(len, outcomes, turn - 1);
    }
}

/// A shutdown from the init ramdisk ends with the power program, and the
/// power program is run whatever became of the flush and the unmounts
/// before it.
pub proof fn lemma_power_program_is_reached(
    shut_down_type: PrimitiveShutDownType,
    outcomes: Seq<bool>,
)
    requires
        shut_down_type == PrimitiveShutDownType::PowerOff || shut_down_type
            == PrimitiveShutDownType::Reboot,
    ensures
        shut_down_plan(shut_down_type, PowerDownMode::Normal).len() == 6,
        shut_down_plan(shut_down_type, PowerDownMode::Normal).last() == run(
            if shut_down_type == PrimitiveShutDownType::PowerOff {
                POWER_OFF_BINARY_PATH@
            } else {
                REBOOT_BINARY_PATH@
            },
            seq!["-f"@],
        ),
        shut_down_plan(shut_down_type, PowerDownMode::Normal).subrange(0, 5) == seq![
            sync_action(),
            sync_action(),
            detach(crate::MAIN_PART_MOUNTPOINT@),
            sync_action(),
            detach(crate::BOOT_PART_MOUNTPOINT@),
        ],
        shut_down_step_in_turn(6, outcomes, 5) == Some(5int),
{
    let plan = shut_down_plan(shut_down_type, PowerDownMode::Normal);
    assert(unmount_base_partitions_plan().len() == 5);
    assert(plan.subrange(0, 5) =~= seq![
        sync_action(),
        sync_action(),
        detach(crate::MAIN_PART_MOUNTPOINT@),
        sync_action(),
        detach(crate::BOOT_PART_MOUNTPOINT@),
    ]);
    lemma_shut_down_runs_to_its_end(6, outcomes, 5);
}

/// Model of [`generate_version_string`].
pub open spec fn version_string(
    free_roam: bool,
    debug: bool,
    recovery_features: bool,
    qinit_commit: Seq<char>,
    kernel_commit: Seq<char>,
) -> Seq<char> {
    "Kernel commit: "@ + kernel_commit + "\nGUI commit: "@ + qinit_commit + "\n"@ + (
    if recovery_features {
        "Recovery features: enabled"@
    } else {
        "Recovery features: disabled"@
    }) + "\n"@ + (if free_roam {
        "Package signing protection: disabled"@
    } else {
        "Package signing protection: enabled"@
    }) + "\n"@ + (if debug {
        "Debug mode: enabled"@
    } else {
        "Debug mode: disabled"@
    })
}

/// What the device says of itself: the commits it was built from, whether
/// the recovery features are on, and how it was compiled.
pub fn generate_version_string<const FREE_ROAM: bool, const DEBUG: bool>(
    boot_config: &BootConfig,
    qinit_commit: &str,
    kernel_commit: &str,
) -> (version: String)
    ensures
        version@ == version_string(
            FREE_ROAM,
            DEBUG,
            boot_config.system.recovery_features,
            qinit_commit@,
            kernel_commit@,
        ),
{
    let mut version = crate::text::concat2("Kernel commit: ", kernel_commit);
    version.append("\nGUI commit: ");
    version.append(qinit_commit);
    version.append("\n");
    if boot_config.system.recovery_features {
        version.append("Recovery features: enabled");
    } else {
        version.append("Recovery features: disabled");
    }
    version.append("\n");
    if FREE_ROAM {
        version.append("Package signing protection: disabled");
    } else {
        version.append("Package signing protection: enabled");
    }
    version.append("\n");
    if DEBUG {
        version.append("Debug mode: enabled");
    } else {
        version.append("Debug mode: disabled");
    }
    version
}

/// The two-line form of the version.
pub fn generate_short_version_string(kernel_commit: &str, kernel_version: &str) -> (version: String)
    ensures
        version@ == "Quill OS, kernel commit "@ + kernel_commit@ + "\n"@ + kernel_version@,
{
    let mut version = crate::text::concat2("Quill OS, kernel commit ", kernel_commit);
    version.append("\n");
    version.append(kernel_version);
    version
}

/// Model of [`clean_copy_dir_recursively`].
pub open spec fn clean_copy_plan(source: Seq<char>, target: Seq<char>) -> Seq<ActionView> {
    seq![crate::action::remove_dir_all(target), run("/bin/cp"@, seq!["-r"@, source, target])]
}

/// Replaces the tree at `target` by a copy of the tree at `source`.
pub fn clean_copy_dir_recursively(source: &str, target: &str) -> (plan: Vec<Action>)
    ensures
        plan.deep_view() == clean_copy_plan(source@, target@),
{
    let mut plan: Vec<Action> = Vec::new();
    push_action(&mut plan, rm_dir_all(target));
    let mut command = Command::new("/bin/cp");
    command.arg("-r");
    command.arg(source);
    command.arg(target);
    assert(command@.args =~= seq!["-r"@, source@, target@]);
    push_action(&mut plan, Action::run_command(command));
    assert(plan.deep_view() =~= clean_copy_plan(source@, target@));
    plan
}

/// Model of [`sync_time`].
pub open spec fn sync_time_plan() -> Seq<ActionView> {
    seq![
        run("/bin/busybox"@, seq!["ntpd"@, "-q"@, "-n"@, "-p"@, "pool.ntp.org"@]),
        run("/sbin/hwclock"@, seq!["--systohc"@]),
    ]
}

/// Sets the clock from the network and writes it to the hardware clock.
pub fn sync_time() -> (plan: Vec<Action>)
    ensures
        plan.deep_view() == sync_time_plan(),
{
    let mut plan: Vec<Action> = Vec::new();
    let mut ntpd = Command::new("/bin/busybox");
    ntpd.arg("ntpd");
    ntpd.arg("-q");
    ntpd.arg("-n");
    ntpd.arg("-p");
    ntpd.arg("pool.ntp.org");
    assert(ntpd@.args =~= seq!["ntpd"@, "-q"@, "-n"@, "-p"@, "pool.ntp.org"@]);
    push_action(&mut plan, Action::run_command(ntpd));
    let mut hwclock = Command::new("/sbin/hwclock");
    hwclock.arg("--systohc");
    assert(hwclock@.args =~= seq!["--systohc"@]);
    push_action(&mut plan, Action::run_command(hwclock));
    assert(plan.deep_view() =~= sync_time_plan());
    plan
}

/// Where the data of `timezone` lies.
pub open spec fn timezone_data(timezone: Seq<char>) -> Seq<char> {
    "/usr/share/zoneinfo/"@ + timezone
}

/// Path of the data of `timezone`, whose existence decides what
/// [`set_timezone`] does.
pub fn timezone_data_path(timezone: &str) -> (path: String)
    ensures
        path@ == timezone_data(timezone@),
{
    crate::text::concat2("/usr/share/zoneinfo/", timezone)
}

/// Selects `timezone` if the system knows it. Nothing is done for an
/// unknown one: without a selection the system keeps universal time.
pub fn set_timezone(timezone: &str, data_exists: bool) -> (action: Option<Action>)
    ensures
        match action {
            Some(a) => data_exists && a@ == (ActionView::Symlink {
                original: timezone_data(timezone@),
                link: "/etc/localtime"@,
            }),
            None => !data_exists,
        },
{
    if data_exists {
        Some(
            Action::Symlink {
                original: timezone_data_path(timezone),
                link: String::from_str("/etc/localtime"),
            },
        )
    } else {
        None
    }
}

/// The probe that tells whether `path` is a mountpoint: it succeeds for a
/// mountpoint and fails for anything else.
pub fn is_mountpoint(path: &str) -> (probe: Command)
    ensures
        probe@.program == "/bin/mountpoint"@,
        probe@.args == seq![path@],
{
    let mut probe = Command::new("/bin/mountpoint");
    probe.arg(path);
    assert(probe@.args =~= seq![path@]);
    probe
}

/// Steps that mount the archive of helper programs.
pub open spec fn qinit_binaries_plan(mounted: bool) -> Seq<ActionView> {
    if mounted {
        seq![]
    } else {
        seq![
            create_dir_all(QINIT_BINARIES_DIR_PATH@),
            image_mount_action(
                crate::BOOT_PART_MOUNTPOINT@ + QINIT_BINARIES_ARCHIVE@,
                QINIT_BINARIES_DIR_PATH@,
            ),
        ]
    }
}

/// Mounts the archive of helper programs unless it is `mounted` already.
pub fn mount_qinit_binaries(mounted: bool) -> (plan: Vec<Action>)
    ensures
        plan.deep_view() == qinit_binaries_plan(mounted),
{
    let mut plan: Vec<Action> = Vec::new();
    if !mounted {
        push_action(&mut plan, Action::mkdir(String::from_str(QINIT_BINARIES_DIR_PATH)));
        let archive = crate::text::concat2(crate::BOOT_PART_MOUNTPOINT, QINIT_BINARIES_ARCHIVE);
        push_action(&mut plan, mount_image(archive.as_str(), QINIT_BINARIES_DIR_PATH));
    }
    assert(plan.deep_view() =~= qinit_binaries_plan(mounted));
    plan
}

/// Runs the settings program, mounting the helper programs first unless
/// they are `mounted` already.
pub fn run_core_settings(mounted: bool) -> (plan: Vec<Action>)
    ensures
        plan.deep_view() == qinit_binaries_plan(mounted).push(
            run(slash(QINIT_BINARIES_DIR_PATH@, "core_settings"@), seq![]),
        ),
{
    let mut plan = mount_qinit_binaries(mounted);
    let program = join(QINIT_BINARIES_DIR_PATH, "core_settings");
    push_action(&mut plan, Action::run_command(Command::new(program.as_str())));
    plan
}

/// Waits until `file` exists.
pub fn wait_for_file(file: &str) -> (action: Action)
    ensures
        action@ == (ActionView::WaitForPath { path: file@ }),
{
    wait_for_path(file)
}

/// Path of the file that holds the checksum of the file at `path`.
pub fn checksum_file_path(path: &str) -> (checksum_path: String)
    ensures
        checksum_path@ == path@ + ".sha256"@,
{
    crate::text::concat2(path, ".sha256")
}

/// Whether the checksum on record is the checksum of the file.
pub open spec fn checksum_matches(checksum: Seq<char>, recorded: Option<Seq<char>>) -> bool {
    match recorded {
        Some(r) => crate::text::trimmed(r) == checksum,
        None => false,
    }
}

/// Compares `checksum`, the digest of a file, with what is `recorded` for
/// it, `None` standing for no record. The white space around a record does
/// not count.
pub fn checksum_agrees(checksum: &str, recorded: Option<&str>) -> (agrees: bool)
    ensures
        agrees == checksum_matches(checksum@, crate::flag::contents_view(recorded)),
{
    match recorded {
        Some(r) => same(crate::text::trim(r), checksum),
        None => false,
    }
}

/// Compares the SHA-256 digest of the file at `path`, which holds
/// `contents`, with the checksum that is `recorded` for it.
///
/// Where they differ and `write_new_checksum` is set, the digest of the file
/// as it is takes the place of the record.
pub fn sha256_match(
    path: &str,
    contents: &[u8],
    recorded: Option<&str>,
    write_new_checksum: bool,
) -> (outcome: (bool, Option<Action>))
    ensures
        outcome.0 == checksum_matches(
            crate::encoding::sha256_hex(contents@),
            crate::flag::contents_view(recorded),
        ),
        match outcome.1 {
            Some(action) => !outcome.0 && write_new_checksum && action@ == (ActionView::WriteFile {
                path: path@ + ".sha256"@,
                contents: crate::encoding::sha256_hex(contents@),
            }),
            None => outcome.0 || !write_new_checksum,
        },
{
    let checksum = crate::encoding::digest(contents);
    if checksum_agrees(checksum.as_str(), recorded) {
        (true, None)
    } else if write_new_checksum {
        (false, Some(Action::WriteFile { path: checksum_file_path(path), contents: checksum }))
    } else {
        (false, None)
    }
}

/// The kernel log as one text, one entry to a line.
pub fn read_kernel_buffer_singleshot(entries: &Vec<String>) -> (kernel_buffer: String)
    ensures
        kernel_buffer@ == crate::text::join_lines(entries.deep_view()),
{
    crate::text::join_entries(entries)
}

/// The last `lines_to_keep` lines of `string`, with a line feed between each
/// two of them.
pub fn keep_last_lines(string: &str, lines_to_keep: usize) -> (kept: String)
    ensures
        kept@ == crate::text::join_lines(
            crate::text::last_of(crate::text::lines_of(string@), lines_to_keep as nat),
        ),
{
    crate::text::keep_last_lines(string, lines_to_keep)
}

/// The shell line that turns the base64 text `encoded` back into bytes and
/// compresses them.
pub open spec fn xz_line(encoded: Seq<char>) -> Seq<char> {
    "printf '"@ + encoded + "' | base64 -d | xz -9 -e"@
}

/// The command that compresses text given in base64: what it prints is the
/// compressed text.
pub fn xz_command(encoded: &str) -> (command: Command)
    ensures
        command@.program == "/bin/sh"@,
        command@.args == seq!["-c"@, xz_line(encoded@)],
{
    let mut line = crate::text::concat2("printf '", encoded);
    line.append("' | base64 -d | xz -9 -e");
    let mut command = Command::new("/bin/sh");
    command.arg("-c");
    command.arg(line.as_str());
    assert(command@.args =~= seq!["-c"@, xz_line(encoded@)]);
    command
}

/// The command that compresses `string`, `None` for a string too long to
/// encode. The string travels in base64, which no shell can misread.
pub fn compress_string_to_xz(string: &str) -> (command: Option<Command>)
    ensures
        match command {
            Some(c) => string.spec_bytes().len() <= crate::encoding::MAX_ENCODE_LEN && c@.program
                == "/bin/sh"@ && c@.args == seq![
                "-c"@,
                xz_line(crate::encoding::base64_encoded(string.spec_bytes())),
            ],
            None => string.spec_bytes().len() > crate::encoding::MAX_ENCODE_LEN,
        },
{
    let bytes = string.as_bytes();
    if bytes.len() > crate::encoding::MAX_ENCODE_LEN {
        return None;
    }
    let encoded = crate::encoding::encode(bytes);
    Some(xz_command(encoded.as_str()))
}

/// Archive of libraries too large for the init ramdisk.
pub const LIBARCHIVE_FILE: &'static str = "pkgs.sqsh";

/// Path of the archive of external libraries.
pub open spec fn libarchive_path() -> Seq<char> {
    crate::DATA_PART_MOUNTPOINT@ + crate::BOOT_DIR@ + LIBARCHIVE_FILE@
}

/// Steps that install the packages of the archive of external libraries.
pub open spec fn install_plan() -> Seq<ActionView> {
    seq![
        ActionView::Mount {
            fstype: "squashfs"@,
            source: libarchive_path(),
            target: crate::DEFAULT_MOUNTPOINT@,
            data: Some(""@),
        },
        run(
            "sh"@,
            seq![
                "-c"@,
                "apk add --repositories-file=/dev/null "@ + crate::DEFAULT_MOUNTPOINT@ + "*"@,
            ],
        ),
        ActionView::Unmount { target: crate::DEFAULT_MOUNTPOINT@, detach: false, force: false },
    ]
}

/// Installs the external libraries if their archive is there and its
/// signature is accepted. Without an archive, or with one that is rejected,
/// nothing is installed and the boot goes on.
pub fn install_external_libraries<const FREE_ROAM: bool>(
    pubkey: &PublicKey,
    archive: Option<&[u8]>,
    signature: Option<&[u8]>,
) -> (plan: Vec<Action>)
    ensures
        plan.deep_view() == if crate::rootfs::image_admitted(
            FREE_ROAM,
            pubkey.pem(),
            bytes_view(archive),
            bytes_view(signature),
        ) {
            install_plan()
        } else {
            seq![]
        },
{
    let mut plan: Vec<Action> = Vec::new();
    let admitted = match archive {
        Some(data) => check_signature::<FREE_ROAM>(pubkey, data, signature),
        None => false,
    };
    if admitted {
        push_action(
            &mut plan,
            Action::Mount {
                fstype: String::from_str("squashfs"),
                source: crate::text::concat3(
                    crate::DATA_PART_MOUNTPOINT,
                    crate::BOOT_DIR,
                    LIBARCHIVE_FILE,
                ),
                target: String::from_str(crate::DEFAULT_MOUNTPOINT),
                data: Some(String::from_str("")),
            },
        );
        let line = crate::text::concat3(
            "apk add --repositories-file=/dev/null ",
            crate::DEFAULT_MOUNTPOINT,
            "*",
        );
        let mut shell = Command::new("sh");
        shell.arg("-c");
        shell.arg(line.as_str());
        assert(shell@.args =~= seq![
            "-c"@,
            "apk add --repositories-file=/dev/null "@ + crate::DEFAULT_MOUNTPOINT@ + "*"@,
        ]);
        push_action(&mut plan, Action::run_command(shell));
        push_action(
            &mut plan,
            Action::Unmount {
                target: String::from_str(crate::DEFAULT_MOUNTPOINT),
                detach: false,
                force: false,
            },
        );
        assert(plan.deep_view() =~= install_plan());
    } else {
        assert(plan.deep_view() =~= Seq::<ActionView>::empty());
    }
    plan
}

} // verus!
