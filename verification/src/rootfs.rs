//! Assembly of the root filesystem overlay.
//!
//! The system runs from a merged tree: a read-only, signature-checked image
//! below, a writable layer above. [`setup`] gives the steps that build the
//! tree, [`tear_down`] the steps that take it apart again, and
//! [`Assembler`] follows an assembly step by step.

use crate::action::{
    create_dir_all, detach, extend, mount, push_action, remove_dir_all, run, Action, ActionView,
    Command,
};
use crate::signing::{accepts, bytes_view, check_signature, PublicKey};
use crate::system::{
    bind_action, bind_mount, bulletproof_unmount, bulletproof_unmount_plan, image_mount_action,
    mount_image, rm_dir_all, sync_action, FIRMWARE_DIR_PATH, MODULES_DIR_PATH,
};
use crate::boot_config::BootConfig;
use crate::text::{concat2, concat3, join, same, slash};
use crate::{
    BOOT_DIR, BOOT_PART_MOUNTPOINT, MAIN_PART_MOUNTPOINT, OVERLAY_MOUNTPOINT, OVERLAY_WORKDIR,
    ROOTFS_DIR, ROOTFS_FILE, SYSTEM_DIR, SYSTEM_HOME_DIR,
};
use vstd::prelude::*;

verus! {

/// Lower mountpoint, inside the scratch area.
pub const RO_DIR: &'static str = "read/";

/// Durable upper directory that receives writes.
pub const RW_WRITE_DIR: &'static str = "write/";

/// Durable upper directory that the overlay works in.
pub const RW_WORK_DIR: &'static str = "work/";

/// The four places of an overlay.
#[derive(Debug, Clone, PartialEq, Eq)]
pub struct MountPlan {
    /// Where the read-only image is mounted.
    pub lower: String,
    /// Where writes land.
    pub upper_write: String,
    /// Working directory of the overlay, on the same filesystem as
    /// `upper_write`.
    pub upper_work: String,
    /// Where the merged tree appears.
    pub target: String,
}

/// Mathematical model of a [`MountPlan`].
pub struct MountPlanView {
    pub lower: Seq<char>,
    pub upper_write: Seq<char>,
    pub upper_work: Seq<char>,
    pub target: Seq<char>,
}

impl View for MountPlan {
    type V = MountPlanView;

    open spec fn view(&self) -> MountPlanView {
        MountPlanView {
            lower: self.lower@,
            upper_write: self.upper_write@,
            upper_work: self.upper_work@,
            target: self.target@,
        }
    }
}

/// Path of the root filesystem image on the main partition.
pub open spec fn image_path() -> Seq<char> {
    slash(slash(MAIN_PART_MOUNTPOINT@, SYSTEM_DIR@), ROOTFS_FILE@)
}

/// Path of the upper directory `dir` on durable storage.
pub open spec fn durable(dir: Seq<char>) -> Seq<char> {
    slash(slash(slash(MAIN_PART_MOUNTPOINT@, SYSTEM_DIR@), ROOTFS_DIR@), dir)
}

/// The overlay of a persistent or an ephemeral system. The upper layer lies
/// on durable storage in the first case and inside the memory-backed scratch
/// area in the second, where it is lost with the next reboot.
pub open spec fn mount_plan(persistent: bool) -> MountPlanView {
    MountPlanView {
        lower: slash(OVERLAY_WORKDIR@, RO_DIR@),
        upper_write: if persistent {
            durable(RW_WRITE_DIR@)
        } else {
            slash(OVERLAY_WORKDIR@, "write"@)
        },
        upper_work: if persistent {
            durable(RW_WORK_DIR@)
        } else {
            slash(OVERLAY_WORKDIR@, "work"@)
        },
        target: OVERLAY_MOUNTPOINT@,
    }
}

/// Path of the root filesystem image on the main partition.
pub fn rootfs_file_path() -> (path: String)
    ensures
        path@ == image_path(),
{
    let system = join(MAIN_PART_MOUNTPOINT, SYSTEM_DIR);
    join(system.as_str(), ROOTFS_FILE)
}

fn durable_dir(dir: &str) -> (path: String)
    ensures
        path@ == durable(dir@),
{
    let system = join(MAIN_PART_MOUNTPOINT, SYSTEM_DIR);
    let rootfs = join(system.as_str(), ROOTFS_DIR);
    join(rootfs.as_str(), dir)
}

impl MountPlan {
    /// Chooses the places of the overlay, once per assembly.
    pub fn select(persistent: bool) -> (plan: MountPlan)
        ensures
            plan@ == mount_plan(persistent),
    {
        let lower = join(OVERLAY_WORKDIR, RO_DIR);
        let target = String::from_str(OVERLAY_MOUNTPOINT);
        if persistent {
            MountPlan {
                lower,
                upper_write: durable_dir(RW_WRITE_DIR),
                upper_work: durable_dir(RW_WORK_DIR),
                target,
            }
        } else {
            MountPlan {
                lower,
                upper_write: join(OVERLAY_WORKDIR, "write"),
                upper_work: join(OVERLAY_WORKDIR, "work"),
                target,
            }
        }
    }
}

/// How far an assembly has come.
#[derive(Debug, Clone, Copy, PartialEq, Eq, Structural)]
pub enum AssemblyState {
    /// Nothing is known of the image yet.
    Unverified,
    /// The image passed the signature gate.
    Verified,
    /// The image is mounted read-only in the scratch area.
    LowerMounted,
    /// The upper directories exist.
    UpperPrepared,
    /// The merged tree is mounted at the target.
    OverlayComposited,
    /// Modules, firmware, boot partition and home are bound into the tree.
    AuxMountsBound,
    /// The pseudo-filesystems are mounted: the tree can be entered.
    Ready,
    /// The tree was taken apart.
    TornDown,
}

/// Steps from a verified image to a mounted lower layer.
pub open spec fn lower_steps(p: MountPlanView) -> Seq<ActionView> {
    seq![
        create_dir_all(OVERLAY_WORKDIR@),
        mount("tmpfs"@, "tmpfs"@, OVERLAY_WORKDIR@),
        create_dir_all(p.lower),
        image_mount_action(image_path(), p.lower),
    ]
}

/// Steps that create the upper directories. Existing ones are kept with
/// what they hold.
pub open spec fn upper_steps(p: MountPlanView) -> Seq<ActionView> {
    seq![create_dir_all(p.upper_write), create_dir_all(p.upper_work)]
}

/// Options handed to the overlay program.
pub open spec fn overlay_options(p: MountPlanView) -> Seq<char> {
    "allow_other,lowerdir="@ + p.lower + ",upperdir="@ + p.upper_write + ",workdir="@
        + p.upper_work
}

/// Steps that merge lower and upper layer at the target. There is one
/// compositing step and no second attempt by other means.
pub open spec fn composite_steps(p: MountPlanView) -> Seq<ActionView> {
    seq![
        create_dir_all(p.target),
        run("/usr/bin/fuse-overlayfs"@, seq!["-o"@, overlay_options(p), p.target]),
    ]
}

/// Steps that bind what the tree needs from outside into it: kernel
/// modules, firmware, the boot partition and the home directories.
pub open spec fn aux_steps(p: MountPlanView) -> Seq<ActionView> {
    seq![
        bind_action(MODULES_DIR_PATH@, slash(p.target, MODULES_DIR_PATH@)),
        bind_action(FIRMWARE_DIR_PATH@, slash(p.target, FIRMWARE_DIR_PATH@)),
        bind_action(BOOT_PART_MOUNTPOINT@, slash(p.target, BOOT_DIR@)),
        bind_action(
            slash(MAIN_PART_MOUNTPOINT@, SYSTEM_HOME_DIR@),
            slash(p.target, SYSTEM_HOME_DIR@),
        ),
    ]
}

/// Steps that mount the pseudo-filesystems inside the tree.
pub open spec fn pseudo_steps(p: MountPlanView) -> Seq<ActionView> {
    seq![
        mount("proc"@, "proc"@, slash(p.target, "proc"@)),
        mount("sysfs"@, "sysfs"@, slash(p.target, "sys"@)),
        mount("devtmpfs"@, "devtmpfs"@, slash(p.target, "dev"@)),
        mount("tmpfs"@, "tmpfs"@, slash(p.target, "tmp"@)),
        mount("tmpfs"@, "tmpfs"@, slash(p.target, "run"@)),
    ]
}

/// Everything that is mounted inside the merged tree.
pub open spec fn inner_mounts(p: MountPlanView) -> Seq<ActionView> {
    aux_steps(p) + pseudo_steps(p)
}

/// All steps of an assembly, in order.
pub open spec fn setup_plan(persistent: bool) -> Seq<ActionView> {
    let p = mount_plan(persistent);
    lower_steps(p) + upper_steps(p) + composite_steps(p) + inner_mounts(p)
}

/// Number of steps of an assembly.
pub const SETUP_STEPS: usize = 17;

/// The state of an assembly whose image is verified and whose first
/// `completed` steps have succeeded.
pub open spec fn state_after(completed: int) -> AssemblyState {
    if completed < 4 {
        AssemblyState::Verified
    } else if completed < 6 {
        AssemblyState::LowerMounted
    } else if completed < 8 {
        AssemblyState::UpperPrepared
    } else if completed < 12 {
        AssemblyState::OverlayComposited
    } else if completed < 17 {
        AssemblyState::AuxMountsBound
    } else {
        AssemblyState::Ready
    }
}

fn lower(p: &MountPlan) -> (plan: Vec<Action>)
    ensures
        plan.deep_view() == lower_steps(p@),
{
    let mut plan: Vec<Action> = Vec::new();
    push_action(&mut plan, Action::mkdir(String::from_str(OVERLAY_WORKDIR)));
    push_action(&mut plan, Action::mount_fs("tmpfs", "tmpfs", String::from_str(OVERLAY_WORKDIR)));
    push_action(&mut plan, Action::mkdir(p.lower.clone()));
    let image = rootfs_file_path();
    push_action(&mut plan, mount_image(image.as_str(), p.lower.as_str()));
    assert(plan.deep_view() =~= lower_steps(p@));
    plan
}

fn upper(p: &MountPlan) -> (plan: Vec<Action>)
    ensures
        plan.deep_view() == upper_steps(p@),
{
    let mut plan: Vec<Action> = Vec::new();
    push_action(&mut plan, Action::mkdir(p.upper_write.clone()));
    push_action(&mut plan, Action::mkdir(p.upper_work.clone()));
    assert(plan.deep_view() =~= upper_steps(p@));
    plan
}

fn composite(p: &MountPlan) -> (plan: Vec<Action>)
    ensures
        plan.deep_view() == composite_steps(p@),
{
    let mut plan: Vec<Action> = Vec::new();
    push_action(&mut plan, Action::mkdir(p.target.clone()));
    let mut options = concat2("allow_other,lowerdir=", p.lower.as_str());
    options.append(",upperdir=");
    options.append(p.upper_write.as_str());
    options.append(",workdir=");
    options.append(p.upper_work.as_str());
    let mut command = Command::new("/usr/bin/fuse-overlayfs");
    command.arg("-o");
    command.arg(options.as_str());
    command.arg(p.target.as_str());
    assert(command@.args =~= seq!["-o"@, overlay_options(p@), p@.target]);
    push_action(&mut plan, Action::run_command(command));
    assert(plan.deep_view() =~= composite_steps(p@));
    plan
}

fn inner(p: &MountPlan) -> (plan: Vec<Action>)
    ensures
        plan.deep_view() == inner_mounts(p@),
{
    let target = p.target.as_str();
    let mut plan: Vec<Action> = Vec::new();
    push_action(&mut plan, bind_mount(MODULES_DIR_PATH, join(target, MODULES_DIR_PATH).as_str()));
    push_action(
        &mut plan,
        bind_mount(FIRMWARE_DIR_PATH, join(target, FIRMWARE_DIR_PATH).as_str()),
    );
    push_action(&mut plan, bind_mount(BOOT_PART_MOUNTPOINT, join(target, BOOT_DIR).as_str()));
    push_action(
        &mut plan,
        bind_mount(
            join(MAIN_PART_MOUNTPOINT, SYSTEM_HOME_DIR).as_str(),
            join(target, SYSTEM_HOME_DIR).as_str(),
        ),
    );
    push_action(&mut plan, Action::mount_fs("proc", "proc", join(target, "proc")));
    push_action(&mut plan, Action::mount_fs("sysfs", "sysfs", join(target, "sys")));
    push_action(&mut plan, Action::mount_fs("devtmpfs", "devtmpfs", join(target, "dev")));
    push_action(&mut plan, Action::mount_fs("tmpfs", "tmpfs", join(target, "tmp")));
    push_action(&mut plan, Action::mount_fs("tmpfs", "tmpfs", join(target, "run")));
    assert(plan.deep_view() =~= inner_mounts(p@));
    plan
}

/// The mounts inside the merged tree: the bound outside directories, then
/// the pseudo-filesystems.
pub fn setup_mounts() -> (plan: Vec<Action>)
    ensures
        plan.deep_view() == inner_mounts(mount_plan(true)),
        plan.deep_view() == inner_mounts(mount_plan(false)),
{
    inner(&MountPlan::select(true))
}

fn steps(persistent: bool) -> (plan: Vec<Action>)
    ensures
        plan.deep_view() == setup_plan(persistent),
        plan.len() == SETUP_STEPS,
{
    let p = MountPlan::select(persistent);
    let mut plan = lower(&p);
    extend(&mut plan, upper(&p));
    extend(&mut plan, composite(&p));
    extend(&mut plan, inner(&p));
    assert(plan.deep_view().len() == 17);
    plan
}

/// Why an assembly did not start.
#[derive(Debug, Clone, Copy, PartialEq, Eq, Structural)]
pub enum SetupError {
    /// There is no root filesystem image.
    ImageNotFound,
    /// The image did not pass the signature gate.
    InvalidSignature,
}

/// Whether the root filesystem image may be used: it exists and its
/// signature is accepted.
pub open spec fn image_admitted(
    free_roam: bool,
    pem: Seq<u8>,
    image: Option<Seq<u8>>,
    signature: Option<Seq<u8>>,
) -> bool {
    match image {
        Some(data) => free_roam || accepts(pem, data, signature),
        None => false,
    }
}

/// Verifies the root filesystem image and gives the steps that assemble the
/// overlay from it.
///
/// `image` holds the bytes of the image, `None` if it does not exist;
/// `signature` those of its detached signature. No step is handed out for an
/// image that is rejected. The steps are to be carried out in order; a
/// step that fails ends the assembly where it stands, with nothing undone.
pub fn setup<const FREE_ROAM: bool>(
    pubkey: &PublicKey,
    image: Option<&[u8]>,
    signature: Option<&[u8]>,
    persistent: bool,
) -> (result: Result<Vec<Action>, SetupError>)
    ensures
        match result {
            Ok(plan) => image_admitted(
                FREE_ROAM,
                pubkey.pem(),
                bytes_view(image),
                bytes_view(signature),
            ) && plan.deep_view() == setup_plan(persistent),
            Err(SetupError::ImageNotFound) => image is None,
            Err(SetupError::InvalidSignature) => image is Some && !image_admitted(
                FREE_ROAM,
                pubkey.pem(),
                bytes_view(image),
                bytes_view(signature),
            ),
        },
{
    match image {
        None => Err(SetupError::ImageNotFound),
        Some(data) => {
            if check_signature::<FREE_ROAM>(pubkey, data, signature) {
                Ok(steps(persistent))
            } else {
                Err(SetupError::InvalidSignature)
            }
        },
    }
}

/// Whether `program` mounts what its last argument names.
pub open spec fn is_mount_program(program: Seq<char>) -> bool {
    program == "mount"@ || program == "/bin/mount"@ || program == "/usr/bin/fuse-overlayfs"@
}

/// The mountpoint that `action` brings into being, if it mounts anything.
pub open spec fn mountpoint_of(action: ActionView) -> Option<Seq<char>> {
    match action {
        ActionView::Mount { target, .. } => Some(target),
        ActionView::Run { command } => if is_mount_program(command.program) && command.args.len()
            > 0 {
            Some(command.args.last())
        } else {
            None
        },
        _ => None,
    }
}

/// The mountpoint that `action` brings into being, if it mounts anything.
pub fn mountpoint(action: &Action) -> (target: Option<String>)
    ensures
        crate::boot_config::opt_view(target) == mountpoint_of(action@),
{
    match action {
        Action::Mount { target, .. } => Some(target.clone()),
        Action::Run { command } => {
            let program = command.program.as_str();
            let mounts = same(program, "mount") || same(program, "/bin/mount") || same(
                program,
                "/usr/bin/fuse-overlayfs",
            );
            if mounts && command.args.len() > 0 {
                let last = command.args.len() - 1;
                assert(command@.args.last() == command.args[last as int]@);
                Some(command.args[last].clone())
            } else {
                None
            }
        },
        _ => None,
    }
}

/// The unmounts that undo the mounts of `actions`, latest mount first, each
/// of them flushed and forced.
pub open spec fn unmounts_for(actions: Seq<ActionView>) -> Seq<ActionView>
    decreases actions.len(),
{
    if actions.len() == 0 {
        seq![]
    } else {
        let earlier = unmounts_for(actions.drop_last());
        match mountpoint_of(actions.last()) {
            Some(target) => bulletproof_unmount_plan(target) + earlier,
            None => earlier,
        }
    }
}

/// Removal of the two directories that an assembly creates at the root.
pub open spec fn cleanup() -> Seq<ActionView> {
    seq![remove_dir_all(OVERLAY_MOUNTPOINT@), remove_dir_all(OVERLAY_WORKDIR@)]
}

/// Steps that take apart an assembly of which the first `completed` steps
/// were carried out.
pub open spec fn tear_down_plan(persistent: bool, completed: int) -> Seq<ActionView> {
    unmounts_for(setup_plan(persistent).take(completed)) + cleanup()
}

fn unmounts(plan: &Vec<Action>, completed: usize) -> (undo: Vec<Action>)
    requires
        completed <= plan.len(),
    ensures
        undo.deep_view() == unmounts_for(plan.deep_view().take(completed as int)),
{
    let ghost all = plan.deep_view().take(completed as int);
    let mut undo: Vec<Action> = Vec::new();
    let mut i: usize = completed;
    assert(all.take(i as int) =~= all);
    while i > 0
        invariant
            i <= completed <= plan.len(),
            all == plan.deep_view().take(completed as int),
            undo.deep_view() + unmounts_for(all.take(i as int)) == unmounts_for(all),
        decreases i,
    {
        let ghost before = undo.deep_view();
        proof {
            assert(all.take(i as int).drop_last() =~= all.take(i - 1));
            assert(all.take(i as int).last() == plan[i - 1]@);
        }
        match mountpoint(&plan[i - 1]) {
            Some(target) => {
                extend(&mut undo, bulletproof_unmount(target.as_str()));
                assert(before + (bulletproof_unmount_plan(target@) + unmounts_for(
                    all.take(i - 1),
                )) =~= before + bulletproof_unmount_plan(target@) + unmounts_for(all.take(i - 1)));
            },
            None => {},
        }
        i -= 1;
    }
    assert(undo.deep_view() + unmounts_for(all.take(0)) =~= undo.deep_view());
    undo
}

fn tear_down_steps(plan: &Vec<Action>, completed: usize) -> (undo: Vec<Action>)
    requires
        completed <= plan.len(),
    ensures
        undo.deep_view() == unmounts_for(plan.deep_view().take(completed as int)) + cleanup(),
{
    let mut undo = unmounts(plan, completed);
    let ghost unmounted = undo.deep_view();
    push_action(&mut undo, rm_dir_all(OVERLAY_MOUNTPOINT));
    push_action(&mut undo, rm_dir_all(OVERLAY_WORKDIR));
    assert(undo.deep_view() =~= unmounted + cleanup());
    undo
}

/// Takes a finished assembly apart: every mount is flushed and detached by
/// force, in the reverse of the order in which [`setup`] made them, then the
/// directories at the root are removed. What lies in the durable upper
/// directories stays.
pub fn tear_down() -> (plan: Vec<Action>)
    ensures
        plan.deep_view() == tear_down_plan(true, SETUP_STEPS as int),
        plan.deep_view() == tear_down_plan(false, SETUP_STEPS as int),
{
    let built = steps(false);
    proof {
        lemma_same_mounts(SETUP_STEPS as int);
    }
    tear_down_steps(&built, SETUP_STEPS)
}

/// The mount table as a stack of mountpoints. A mount puts its mountpoint on
/// top; an unmount takes the top away if that is the mountpoint it names and
/// leaves the table alone otherwise.
pub open spec fn table_step(table: Seq<Seq<char>>, action: ActionView) -> Seq<Seq<char>> {
    match action {
        ActionView::Unmount { target, .. } => if table.len() > 0 && table.last() == target {
            table.drop_last()
        } else {
            table
        },
        _ => match mountpoint_of(action) {
            Some(target) => table.push(target),
            None => table,
        },
    }
}

/// The mount table after `actions` were carried out on `table`.
pub open spec fn table_after(table: Seq<Seq<char>>, actions: Seq<ActionView>) -> Seq<Seq<char>>
    decreases actions.len(),
{
    if actions.len() == 0 {
        table
    } else {
        table_step(table_after(table, actions.drop_last()), actions.last())
    }
}

proof fn lemma_table_concat(table: Seq<Seq<char>>, a: Seq<ActionView>, b: Seq<ActionView>)
    ensures
        table_after(table, a + b) == table_after(table_after(table, a), b),
    decreases b.len(),
{
    if b.len() == 0 {
        assert(a + b =~= a);
    } else {
        lemma_table_concat(table, a, b.drop_last());
        assert((a + b).drop_last() =~= a + b.drop_last());
        assert((a + b).last() == b.last());
    }
}

proof fn lemma_table_single(table: Seq<Seq<char>>, action: ActionView)
    ensures
        table_after(table, seq![action]) == table_step(table, action),
{
    reveal_with_fuel(table_after, 2);
    assert(seq![action].drop_last() =~= Seq::<ActionView>::empty());
}

proof fn lemma_table_pair(table: Seq<Seq<char>>, first: ActionView, second: ActionView)
    ensures
        table_after(table, seq![first, second]) == table_step(table_step(table, first), second),
{
    lemma_table_single(table, first);
    assert(seq![first, second].drop_last() =~= seq![first]);
}

proof fn lemma_sync_mounts_nothing()
    ensures
        mountpoint_of(sync_action()) is None,
{
    reveal_strlit("/bin/sync");
    reveal_strlit("mount");
    reveal_strlit("/bin/mount");
    reveal_strlit("/usr/bin/fuse-overlayfs");
    assert("/bin/sync"@.len() == 9);
    assert("mount"@.len() == 5);
    assert("/bin/mount"@.len() == 10);
    assert("/usr/bin/fuse-overlayfs"@.len() == 23);
}

/// Undoing in reverse restores the mount table: after `actions`, none of
/// which unmounts, and the unmounts that [`unmounts_for`] derives from them,
/// the table is what it was before.
pub proof fn lemma_unmounts_restore(table: Seq<Seq<char>>, actions: Seq<ActionView>)
    requires
        forall|i: int| 0 <= i < actions.len() ==> !(#[trigger] actions[i] is Unmount),
    ensures
        table_after(table_after(table, actions), unmounts_for(actions)) == table,
    decreases actions.len(),
{
    if actions.len() > 0 {
        let earlier = actions.drop_last();
        let last = actions.last();
        let mounted = table_after(table, earlier);
        assert(!(actions[actions.len() - 1] is Unmount));
        lemma_unmounts_restore(table, earlier);
        match mountpoint_of(last) {
            Some(target) => {
                let top = mounted.push(target);
                assert(table_after(table, actions) == top);
                lemma_table_concat(top, bulletproof_unmount_plan(target), unmounts_for(earlier));
                lemma_sync_mounts_nothing();
                lemma_table_pair(top, sync_action(), detach(target));
                assert(top.drop_last() =~= mounted);
            },
            None => {},
        }
    }
}

proof fn lemma_setup_never_unmounts(persistent: bool)
    ensures
        setup_plan(persistent).len() == SETUP_STEPS,
        forall|i: int|
            0 <= i < setup_plan(persistent).len() ==> !(#[trigger] setup_plan(persistent)[i]
                is Unmount),
{
}

proof fn lemma_mountpoints_agree(a: Seq<ActionView>, b: Seq<ActionView>)
    requires
        a.len() == b.len(),
        forall|i: int| 0 <= i < a.len() ==> mountpoint_of(#[trigger] a[i]) == mountpoint_of(b[i]),
    ensures
        unmounts_for(a) == unmounts_for(b),
    decreases a.len(),
{
    if a.len() > 0 {
        assert(mountpoint_of(a[a.len() - 1]) == mountpoint_of(b[a.len() - 1]));
        lemma_mountpoints_agree(a.drop_last(), b.drop_last());
    }
}

/// What is mounted does not depend on where the upper layer lies: both kinds
/// of system are taken apart by the same steps.
pub proof fn lemma_same_mounts(completed: int)
    requires
        0 <= completed <= SETUP_STEPS,
    ensures
        tear_down_plan(true, completed) == tear_down_plan(false, completed),
{
    lemma_setup_never_unmounts(true);
    lemma_setup_never_unmounts(false);
    let a = setup_plan(true).take(completed);
    let b = setup_plan(false).take(completed);
    assert forall|i: int| 0 <= i < a.len() implies mountpoint_of(#[trigger] a[i]) == mountpoint_of(
        b[i],
    ) by {
        assert(a[i] == setup_plan(true)[i]);
        assert(b[i] == setup_plan(false)[i]);
    }
    lemma_mountpoints_agree(a, b);
}

/// Taking an assembly apart leaves no mount behind, however far the assembly
/// had come: after the first `completed` steps of [`setup`] and the steps of
/// the matching tear-down, the mount table is what it was before the
/// assembly began.
pub proof fn lemma_tear_down_restores_mount_table(
    table: Seq<Seq<char>>,
    persistent: bool,
    completed: int,
)
    requires
        0 <= completed <= SETUP_STEPS,
    ensures
        table_after(
            table,
            setup_plan(persistent).take(completed) + tear_down_plan(persistent, completed),
        ) == table,
{
    lemma_setup_never_unmounts(persistent);
    let done = setup_plan(persistent).take(completed);
    let undo = unmounts_for(done);
    lemma_unmounts_restore(table, done);
    lemma_table_concat(table, done, tear_down_plan(persistent, completed));
    let mounted = table_after(table, done);
    lemma_table_concat(mounted, undo, cleanup());
    lemma_table_pair(table, remove_dir_all(OVERLAY_MOUNTPOINT@), remove_dir_all(OVERLAY_WORKDIR@));
}

/// An assembly in progress.
///
/// The assembler hands out one step at a time and keeps count of the steps
/// that succeeded. It never goes back: a step that fails leaves the
/// assembler where it stands, and the only way on from there is
/// [`Assembler::tear_down`], which undoes what was done so far.
#[derive(Debug)]
pub struct Assembler {
    persistent: bool,
    verified: bool,
    torn_down: bool,
    completed: usize,
    plan: Vec<Action>,
}

impl Assembler {
    #[verifier::type_invariant]
    spec fn consistent(&self) -> bool {
        &&& self.plan.deep_view() == setup_plan(self.persistent)
        &&& self.plan.len() == SETUP_STEPS
        &&& self.completed <= SETUP_STEPS
        &&& !self.verified ==> self.completed == 0
    }

    /// Whether the upper layer lies on durable storage.
    pub closed spec fn persistent(&self) -> bool {
        self.persistent
    }

    /// Number of steps that have succeeded.
    pub closed spec fn completed(&self) -> int {
        self.completed as int
    }

    /// How far the assembly has come.
    pub closed spec fn state(&self) -> AssemblyState {
        if self.torn_down {
            AssemblyState::TornDown
        } else if !self.verified {
            AssemblyState::Unverified
        } else {
            state_after(self.completed as int)
        }
    }

    /// The step to carry out next, if the assembly is under way.
    pub open spec fn pending(&self) -> Option<ActionView> {
        if self.state() != AssemblyState::Unverified && self.state() != AssemblyState::TornDown
            && self.state() != AssemblyState::Ready {
            Some(setup_plan(self.persistent())[self.completed()])
        } else {
            None
        }
    }

    /// An assembly that has not begun.
    pub fn new(persistent: bool) -> (assembler: Assembler)
        ensures
            assembler.state() == AssemblyState::Unverified,
            assembler.persistent() == persistent,
            assembler.completed() == 0,
    {
        Assembler {
            persistent,
            verified: false,
            torn_down: false,
            completed: 0,
            plan: steps(persistent),
        }
    }

    /// How far the assembly has come.
    pub fn current_state(&self) -> (state: AssemblyState)
        ensures
            state == self.state(),
    {
        proof {
            use_type_invariant(self);
        }
        if self.torn_down {
            AssemblyState::TornDown
        } else if !self.verified {
            AssemblyState::Unverified
        } else if self.completed < 4 {
            AssemblyState::Verified
        } else if self.completed < 6 {
            AssemblyState::LowerMounted
        } else if self.completed < 8 {
            AssemblyState::UpperPrepared
        } else if self.completed < 12 {
            AssemblyState::OverlayComposited
        } else if self.completed < 17 {
            AssemblyState::AuxMountsBound
        } else {
            AssemblyState::Ready
        }
    }

    /// Puts the root filesystem image before the signature gate. An
    /// unverified assembly whose image passes becomes verified; in every
    /// other case nothing changes.
    pub fn verify<const FREE_ROAM: bool>(
        &mut self,
        pubkey: &PublicKey,
        image: Option<&[u8]>,
        signature: Option<&[u8]>,
    ) -> (result: Result<(), SetupError>)
        ensures
            final(self).persistent() == old(self).persistent(),
            final(self).completed() == old(self).completed(),
            match result {
                Ok(_) => image_admitted(
                    FREE_ROAM,
                    pubkey.pem(),
                    bytes_view(image),
                    bytes_view(signature),
                ) && final(self).state() == (if old(self).state() == AssemblyState::Unverified {
                    AssemblyState::Verified
                } else {
                    old(self).state()
                }),
                Err(SetupError::ImageNotFound) => image is None && final(self).state() == old(
                    self,
                ).state(),
                Err(SetupError::InvalidSignature) => image is Some && !image_admitted(
                    FREE_ROAM,
                    pubkey.pem(),
                    bytes_view(image),
                    bytes_view(signature),
                ) && final(self).state() == old(self).state(),
            },
    {
        proof {
            use_type_invariant(&*self);
        }
        match image {
            None => Err(SetupError::ImageNotFound),
            Some(data) => {
                if check_signature::<FREE_ROAM>(pubkey, data, signature) {
                    self.verified = true;
                    Ok(())
                } else {
                    Err(SetupError::InvalidSignature)
                }
            },
        }
    }

    /// The step to carry out next: `None` before the image is verified, once
    /// the tree is ready, and after a tear-down.
    pub fn next_action(&self) -> (action: Option<&Action>)
        ensures
            match action {
                Some(a) => self.pending() == Some(a@),
                None => self.pending() is None,
            },
    {
        proof {
            use_type_invariant(self);
        }
        if self.verified && !self.torn_down && self.completed < SETUP_STEPS {
            assert(self.plan.deep_view()[self.completed as int] == self.plan[self.completed as int]@);
            Some(&self.plan[self.completed])
        } else {
            None
        }
    }

    /// Records that the pending step has succeeded. Without a pending step
    /// nothing changes.
    pub fn complete(&mut self)
        ensures
            final(self).persistent() == old(self).persistent(),
            old(self).pending() is Some ==> final(self).completed() == old(self).completed() + 1
                && final(self).state() == state_after(old(self).completed() + 1),
            old(self).pending() is None ==> final(self).completed() == old(self).completed()
                && final(self).state() == old(self).state(),
    {
        proof {
            use_type_invariant(&*self);
        }
        if self.verified && !self.torn_down && self.completed < SETUP_STEPS {
            self.completed = self.completed + 1;
        }
    }

    /// Ends the assembly, from whatever state, and gives the steps that undo
    /// what was done so far. A second call gives the same steps again.
    pub fn tear_down(&mut self) -> (undo: Vec<Action>)
        ensures
            final(self).state() == AssemblyState::TornDown,
            final(self).persistent() == old(self).persistent(),
            final(self).completed() == old(self).completed(),
            undo.deep_view() == tear_down_plan(old(self).persistent(), old(self).completed()),
    {
        proof {
            use_type_invariant(&*self);
        }
        self.torn_down = true;
        tear_down_steps(&self.plan, self.completed)
    }
}

/// The state of an assembly never moves backwards while steps complete.
pub proof fn lemma_state_monotone(earlier: int, later: int)
    requires
        0 <= earlier <= later,
    ensures
        state_rank(state_after(earlier)) <= state_rank(state_after(later)),
        later >= SETUP_STEPS <==> state_after(later) == AssemblyState::Ready,
{
}

/// Position of a state in the life of an assembly.
pub open spec fn state_rank(state: AssemblyState) -> int {
    match state {
        AssemblyState::Unverified => 0,
        AssemblyState::Verified => 1,
        AssemblyState::LowerMounted => 2,
        AssemblyState::UpperPrepared => 3,
        AssemblyState::OverlayComposited => 4,
        AssemblyState::AuxMountsBound => 5,
        AssemblyState::Ready => 6,
        AssemblyState::TornDown => 7,
    }
}

/// Records that the first boot has been set up.
pub fn setup_misc(boot_config: &mut BootConfig)
    ensures
        final(boot_config).flags.first_boot_done,
        final(boot_config).rootfs == old(boot_config).rootfs,
        final(boot_config).system == old(boot_config).system,
        final(boot_config).debug == old(boot_config).debug,
{
    let first_boot_done = boot_config.flags.first_boot_done;
    if !first_boot_done {
        boot_config.flags.first_boot_done = true;
    }
}

/// Model of [`run_chroot_command`].
pub open spec fn chroot_action(command: Seq<Seq<char>>) -> ActionView {
    run("/usr/sbin/chroot"@, seq![OVERLAY_MOUNTPOINT@] + command)
}

/// Runs `command`, a program followed by its arguments, inside the
/// assembled tree.
pub fn run_chroot_command(command: &Vec<String>) -> (action: Action)
    ensures
        action@ == chroot_action(command.deep_view()),
{
    let mut chroot = Command::new("/usr/sbin/chroot");
    chroot.arg(OVERLAY_MOUNTPOINT);
    chroot.args(command);
    assert(chroot@.args =~= seq![OVERLAY_MOUNTPOINT@] + command.deep_view());
    Action::run_command(chroot)
}

/// The program that changes passwords inside the tree.
pub const PASSWD_PATH: &'static str = "/usr/bin/passwd";

/// Shell line that feeds `lines` to the password program for `user`.
pub open spec fn passwd_line(lines: Seq<char>, user: Seq<char>) -> Seq<char> {
    "printf '"@ + lines + "' | "@ + PASSWD_PATH@ + " "@ + user
}

/// Model of [`change_user_password_chroot_command`].
pub open spec fn password_action(
    chroot_path: Seq<char>,
    user: Seq<char>,
    old_password: Seq<char>,
    new_password: Seq<char>,
    verify: bool,
) -> ActionView {
    if verify {
        run(
            "/usr/sbin/chroot"@,
            seq![
                chroot_path,
                "/bin/su"@,
                "-s"@,
                "/bin/sh"@,
                "-c"@,
                passwd_line(
                    old_password + "\n"@ + new_password + "\n"@ + new_password,
                    user,
                ),
                user,
            ],
        )
    } else {
        run(
            "/usr/sbin/chroot"@,
            seq![
                chroot_path,
                "/bin/sh"@,
                "-c"@,
                passwd_line(new_password + "\n"@ + new_password, user),
            ],
        )
    }
}

fn passwd_shell_line(lines: String, user: &str) -> (line: String)
    ensures
        line@ == passwd_line(lines@, user@),
{
    let mut line = concat2("printf '", lines.as_str());
    line.append("' | ");
    line.append(PASSWD_PATH);
    line.append(" ");
    line.append(user);
    line
}

/// The command that sets the password of `user` inside the tree at
/// `chroot_path`. With `verify` the change is made as the user, so that it
/// goes through only if `old_password` is right; without, it is made as the
/// superuser and `old_password` is not looked at.
pub fn change_user_password_chroot_command(
    chroot_path: &str,
    user: &str,
    old_password: &str,
    new_password: &str,
    verify: bool,
) -> (action: Action)
    ensures
        action@ == password_action(chroot_path@, user@, old_password@, new_password@, verify),
{
    let mut command = Command::new("/usr/sbin/chroot");
    command.arg(chroot_path);
    if verify {
        let mut lines = concat3(old_password, "\n", new_password);
        lines.append("\n");
        lines.append(new_password);
        let line = passwd_shell_line(lines, user);
        command.arg("/bin/su");
        command.arg("-s");
        command.arg("/bin/sh");
        command.arg("-c");
        command.arg(line.as_str());
        command.arg(user);
        assert(command@.args =~= seq![
            chroot_path@,
            "/bin/su"@,
            "-s"@,
            "/bin/sh"@,
            "-c"@,
            passwd_line(old_password@ + "\n"@ + new_password@ + "\n"@ + new_password@, user@),
            user@,
        ]);
    } else {
        let lines = concat3(new_password, "\n", new_password);
        let line = passwd_shell_line(lines, user);
        command.arg("/bin/sh");
        command.arg("-c");
        command.arg(line.as_str());
        assert(command@.args =~= seq![
            chroot_path@,
            "/bin/sh"@,
            "-c"@,
            passwd_line(new_password@ + "\n"@ + new_password@, user@),
        ]);
    }
    Action::run_command(command)
}

/// Length of the temporary password of a password change.
pub const TEMPORARY_PASSWORD_LENGTH: i32 = 128;

/// The four parts of a password change.
///
/// `assemble` builds a persistent overlay. `verify` then replaces the old
/// password by a temporary one, acting as the user: it fails if the old
/// password is wrong. Only if it succeeded, `set` replaces the temporary
/// password by the new one. `tear_down` is carried out whatever happened
/// before. The change has failed if `verify` or `set` failed.
#[derive(Debug)]
pub struct PasswordChange {
    pub assemble: Vec<Action>,
    pub temporary_password: String,
    pub verify: Action,
    pub set: Action,
    pub tear_down: Vec<Action>,
}

/// Plans a change of the password of `user`, to be made while no overlay is
/// mounted. The root filesystem image goes through the signature gate as it
/// does for a boot.
pub fn change_user_password<const FREE_ROAM: bool>(
    pubkey: &PublicKey,
    image: Option<&[u8]>,
    signature: Option<&[u8]>,
    user: &str,
    old_password: &str,
    new_password: &str,
) -> (result: Result<PasswordChange, SetupError>)
    ensures
        match result {
            Ok(change) => {
                &&& image_admitted(
                    FREE_ROAM,
                    pubkey.pem(),
                    bytes_view(image),
                    bytes_view(signature),
                )
                &&& change.assemble.deep_view() == setup_plan(true)
                &&& change.temporary_password@.len() == TEMPORARY_PASSWORD_LENGTH
                &&& forall|i: int|
                    0 <= i < change.temporary_password@.len() ==> crate::system::is_alphanumeric(
                        #[trigger] change.temporary_password@[i],
                    )
                &&& change.verify@ == password_action(
                    OVERLAY_MOUNTPOINT@,
                    user@,
                    old_password@,
                    change.temporary_password@,
                    true,
                )
                &&& change.set@ == password_action(
                    OVERLAY_MOUNTPOINT@,
                    user@,
                    change.temporary_password@,
                    new_password@,
                    false,
                )
                &&& change.tear_down.deep_view() == tear_down_plan(true, SETUP_STEPS as int)
            },
            Err(SetupError::ImageNotFound) => image is None,
            Err(SetupError::InvalidSignature) => image is Some && !image_admitted(
                FREE_ROAM,
                pubkey.pem(),
                bytes_view(image),
                bytes_view(signature),
            ),
        },
{
    let assemble = match setup::<FREE_ROAM>(pubkey, image, signature, true) {
        Ok(plan) => plan,
        Err(e) => {
            return Err(e);
        },
    };
    let temporary_password = crate::system::generate_random_string(TEMPORARY_PASSWORD_LENGTH);
    let verify = change_user_password_chroot_command(
        OVERLAY_MOUNTPOINT,
        user,
        old_password,
        temporary_password.as_str(),
        true,
    );
    let set = change_user_password_chroot_command(
        OVERLAY_MOUNTPOINT,
        user,
        temporary_password.as_str(),
        new_password,
        false,
    );
    Ok(PasswordChange { assemble, temporary_password, verify, set, tear_down: tear_down() })
}

} // verus!
