//! The order of a boot, and what each failure means for it.

use crate::action::{push_action, Action, ActionView, Command, CommandView};
use crate::boot_config::{write_plan, BootConfig, RootFS, StoreAction, StoreActionView};
use crate::rootfs::AssemblyState;
use crate::socket::ErrorDetails;
use crate::system::BootCommand;
use crate::text::{concat2, concat3, join, slash};
use vstd::prelude::*;

verus! {

/// The socket through which the second stage reports to the first.
pub const BOOT_SOCKET_PATH: &'static str = "/qinit.sock";

/// The second stage.
pub const QINIT_PATH: &'static str = "/etc/init.d/qinit";

pub const QINIT_LOG_DIR: &'static str = "/var/log";

pub const QINIT_LOG_FILE: &'static str = "qinit.log";

/// File name of the socket on which fatal errors are reported from inside
/// the tree.
pub const QINIT_SOCKET: &'static str = "qinit.sock";

/// The init of the assembled tree.
pub const INIT_PATH: &'static str = "/sbin/init";

/// How long a notice stays on the screen, in milliseconds.
pub const TOAST_DURATION_MILLIS: u64 = 5000;

/// The total that stands for "not known".
pub const SYSTEMD_NO_TARGETS: i32 = -1;

/// The one message of the stage handoff.
#[derive(Debug, Clone, Copy, PartialEq, Eq, Structural)]
pub struct OverlayStatus {
    pub ready: bool,
}

/// The parts of a boot, in order.
#[derive(Debug, Clone, Copy, PartialEq, Eq, Structural)]
pub enum BootPhase {
    /// Pseudo-filesystems of the init ramdisk and the host name.
    BaseSystem,
    /// The loopback network device.
    Network,
    /// The device's public key.
    PublicKey,
    /// Boot and main partition.
    Partitions,
    /// The firmware archive.
    Firmware,
    /// The boot configuration.
    Configuration,
    /// The debug framework, on devices that have one.
    DebugFramework,
    /// Waveform, display modules and touchscreen.
    Display,
    /// The boot menu, up to the command that it sends.
    Menu,
    /// The root filesystem overlay.
    Assembly,
    /// The message to the first stage.
    Handoff,
    /// The readiness tracker.
    Tracking,
    /// The last write of the configuration.
    Commit,
    /// Unmounting and cleaning up on the way down.
    Shutdown,
}

/// What a failure means for the boot.
#[derive(Debug, Clone, Copy, PartialEq, Eq, Structural)]
pub enum Severity {
    /// The boot cannot go on.
    Fatal,
    /// The boot goes on without what failed, and says so.
    Degraded,
    /// Nothing can be done about it.
    BestEffort,
}

/// What a failure in `phase` means for the boot.
pub open spec fn severity_of(phase: BootPhase) -> Severity {
    match phase {
        BootPhase::Network | BootPhase::Firmware | BootPhase::DebugFramework
        | BootPhase::Tracking => Severity::Degraded,
        BootPhase::Shutdown => Severity::BestEffort,
        _ => Severity::Fatal,
    }
}

/// What a failure in `phase` means for the boot. The phase alone decides.
pub fn severity(phase: BootPhase) -> (severity: Severity)
    ensures
        severity == severity_of(phase),
{
    match phase {
        BootPhase::Network | BootPhase::Firmware | BootPhase::DebugFramework
        | BootPhase::Tracking => Severity::Degraded,
        BootPhase::Shutdown => Severity::BestEffort,
        _ => Severity::Fatal,
    }
}

/// The phase that follows `phase` in a boot that goes on.
pub open spec fn successor(phase: BootPhase) -> Option<BootPhase> {
    match phase {
        BootPhase::BaseSystem => Some(BootPhase::Network),
        BootPhase::Network => Some(BootPhase::PublicKey),
        BootPhase::PublicKey => Some(BootPhase::Partitions),
        BootPhase::Partitions => Some(BootPhase::Firmware),
        BootPhase::Firmware => Some(BootPhase::Configuration),
        BootPhase::Configuration => Some(BootPhase::DebugFramework),
        BootPhase::DebugFramework => Some(BootPhase::Display),
        BootPhase::Display => Some(BootPhase::Menu),
        BootPhase::Menu => Some(BootPhase::Assembly),
        BootPhase::Assembly => Some(BootPhase::Handoff),
        BootPhase::Handoff => Some(BootPhase::Tracking),
        BootPhase::Tracking => Some(BootPhase::Commit),
        BootPhase::Commit => None,
        BootPhase::Shutdown => None,
    }
}

/// Where a boot goes after one of its phases.
#[derive(Debug, Clone, Copy, PartialEq, Eq, Structural)]
pub enum Transition {
    /// Go on with `next`, or rest if there is none. With `notice` set, tell
    /// the user that `failed` did not work.
    Continue { next: Option<BootPhase>, notice: bool },
    /// Stop and show the error screen. The machine is not restarted on its
    /// own.
    Halt { failed: BootPhase },
}

/// Model of [`after_phase`].
pub open spec fn transition(phase: BootPhase, succeeded: bool) -> Transition {
    if succeeded {
        Transition::Continue { next: successor(phase), notice: false }
    } else {
        match severity_of(phase) {
            Severity::Fatal => Transition::Halt { failed: phase },
            Severity::Degraded => Transition::Continue { next: successor(phase), notice: true },
            Severity::BestEffort => Transition::Continue { next: successor(phase), notice: false },
        }
    }
}

/// Where the boot goes after `phase` has `succeeded` or failed.
pub fn after_phase(phase: BootPhase, succeeded: bool) -> (next: Transition)
    ensures
        next == transition(phase, succeeded),
        phase == BootPhase::Assembly && !succeeded ==> next is Halt,
{
    let following = match phase {
        BootPhase::BaseSystem => Some(BootPhase::Network),
        BootPhase::Network => Some(BootPhase::PublicKey),
        BootPhase::PublicKey => Some(BootPhase::Partitions),
        BootPhase::Partitions => Some(BootPhase::Firmware),
        BootPhase::Firmware => Some(BootPhase::Configuration),
        BootPhase::Configuration => Some(BootPhase::DebugFramework),
        BootPhase::DebugFramework => Some(BootPhase::Display),
        BootPhase::Display => Some(BootPhase::Menu),
        BootPhase::Menu => Some(BootPhase::Assembly),
        BootPhase::Assembly => Some(BootPhase::Handoff),
        BootPhase::Handoff => Some(BootPhase::Tracking),
        BootPhase::Tracking => Some(BootPhase::Commit),
        BootPhase::Commit => None,
        BootPhase::Shutdown => None,
    };
    if succeeded {
        Transition::Continue { next: following, notice: false }
    } else {
        match severity(phase) {
            Severity::Fatal => Transition::Halt { failed: phase },
            Severity::Degraded => Transition::Continue { next: following, notice: true },
            Severity::BestEffort => Transition::Continue { next: following, notice: false },
        }
    }
}

/// Position of a phase in a boot.
pub open spec fn phase_rank(phase: BootPhase) -> int {
    match phase {
        BootPhase::BaseSystem => 0,
        BootPhase::Network => 1,
        BootPhase::PublicKey => 2,
        BootPhase::Partitions => 3,
        BootPhase::Firmware => 4,
        BootPhase::Configuration => 5,
        BootPhase::DebugFramework => 6,
        BootPhase::Display => 7,
        BootPhase::Menu => 8,
        BootPhase::Assembly => 9,
        BootPhase::Handoff => 10,
        BootPhase::Tracking => 11,
        BootPhase::Commit => 12,
        BootPhase::Shutdown => 13,
    }
}

/// The phase in which a boot stands once the phases `from`, its successor
/// and so on have ended as `outcomes` say, `None` when the boot has halted
/// or come to rest.
pub open spec fn phase_after(from: BootPhase, outcomes: Seq<bool>) -> Option<BootPhase>
    decreases outcomes.len(),
{
    if outcomes.len() == 0 {
        Some(from)
    } else {
        match transition(from, outcomes.first()) {
            Transition::Continue { next: Some(next), .. } => phase_after(
                next,
                outcomes.drop_first(),
            ),
            _ => None,
        }
    }
}

/// The handoff is not reached past a failed assembly: in every boot that
/// comes to the handoff, the assembly before it has succeeded. The same
/// holds of every other phase whose failure is fatal.
pub proof fn lemma_no_handoff_without_assembly(from: BootPhase, outcomes: Seq<bool>)
    requires
        phase_rank(from) <= phase_rank(BootPhase::Assembly),
        phase_after(from, outcomes) == Some(BootPhase::Handoff),
    ensures
        outcomes.len() == phase_rank(BootPhase::Handoff) - phase_rank(from),
        outcomes[phase_rank(BootPhase::Assembly) - phase_rank(from)],
        forall|i: int|
            0 <= i < outcomes.len() && !outcomes[i] ==> phase_rank(from) + i == phase_rank(
                BootPhase::Network,
            ) || phase_rank(from) + i == phase_rank(BootPhase::Firmware) || phase_rank(from) + i
                == phase_rank(BootPhase::DebugFramework),
    decreases outcomes.len(),
{
    if outcomes.len() > 0 {
        match transition(from, outcomes.first()) {
            Transition::Continue { next: Some(next), .. } => {
                if phase_rank(next) <= phase_rank(BootPhase::Assembly) {
                    lemma_no_handoff_without_assembly(next, outcomes.drop_first());
                    assert forall|i: int| 0 <= i < outcomes.len() && !outcomes[i] implies phase_rank(
                        from,
                    ) + i == phase_rank(BootPhase::Network) || phase_rank(from) + i == phase_rank(
                        BootPhase::Firmware,
                    ) || phase_rank(from) + i == phase_rank(BootPhase::DebugFramework) by {
                        if i > 0 {
                            assert(outcomes[i] == outcomes.drop_first()[i - 1]);
                        }
                    }
                    assert(outcomes[phase_rank(BootPhase::Assembly) - phase_rank(from)]
                        == outcomes.drop_first()[phase_rank(BootPhase::Assembly) - phase_rank(
                        next,
                    )]);
                } else {
                    lemma_handoff_is_not_revisited(next, outcomes.drop_first());
                }
            },
            _ => {},
        }
    }
}

proof fn lemma_handoff_is_not_revisited(from: BootPhase, outcomes: Seq<bool>)
    requires
        phase_rank(from) >= phase_rank(BootPhase::Handoff),
        phase_after(from, outcomes) == Some(BootPhase::Handoff),
    ensures
        from == BootPhase::Handoff,
        outcomes.len() == 0,
    decreases outcomes.len(),
{
    if outcomes.len() > 0 {
        match transition(from, outcomes.first()) {
            Transition::Continue { next: Some(next), .. } => {
                lemma_handoff_is_not_revisited(next, outcomes.drop_first());
            },
            _ => {},
        }
    }
}

/// What follows the boot menu.
#[derive(Debug, Clone, Copy, PartialEq, Eq, Structural)]
pub enum Course {
    /// Assemble the root filesystem and start the system.
    ResumeBoot,
    PowerOff,
    Reboot,
}

/// What the orchestrator does once the boot menu has sent its command.
#[derive(Debug, Clone, PartialEq, Eq)]
pub struct MenuDecision {
    /// The configuration to go on with.
    pub boot_config: BootConfig,
    /// The command to act on.
    pub command: BootCommand,
    /// A notice to show first, for as long as notices are shown.
    pub toast: Option<String>,
    /// Whether to show the boot splash now.
    pub show_splash: bool,
    /// What to do to the configuration files before anything else.
    pub store: Vec<StoreAction>,
    pub course: Course,
}

/// Whether the menu changed where the upper layer lies. Such a change takes
/// a reboot to apply.
pub open spec fn storage_changed(original: BootConfig, current: BootConfig) -> bool {
    current.rootfs.persistent_storage != original.rootfs.persistent_storage
}

/// The command that is acted on: a normal boot turns into a reboot when the
/// change to the configuration needs one.
pub open spec fn effective_command(
    original: BootConfig,
    current: BootConfig,
    command: BootCommand,
) -> BootCommand {
    if storage_changed(original, current) && command == BootCommand::NormalBoot {
        BootCommand::Reboot
    } else {
        command
    }
}

/// The configuration that is gone on with: a total that was counted for the
/// other kind of storage is forgotten.
pub open spec fn effective_config(original: BootConfig, current: BootConfig) -> BootConfig {
    if storage_changed(original, current) {
        BootConfig { rootfs: RootFS { systemd_targets_total: None, ..current.rootfs }, ..current }
    } else {
        current
    }
}

/// What is done to the configuration files: a boot that does not go on
/// commits what the menu changed.
pub open spec fn menu_store(
    original: BootConfig,
    current: BootConfig,
    command: BootCommand,
) -> Seq<StoreActionView> {
    if effective_command(original, current, command) != BootCommand::NormalBoot
        && effective_config(original, current)@ != original@ {
        write_plan(effective_config(original, current)@, false)
    } else {
        seq![]
    }
}

/// The course that a command sets.
pub open spec fn course_of(command: BootCommand) -> Course {
    match command {
        BootCommand::PowerOff => Course::PowerOff,
        BootCommand::Reboot => Course::Reboot,
        _ => Course::ResumeBoot,
    }
}

/// Decides how the boot goes on after the menu.
///
/// `original` is the configuration as it was read, `boot_config` as the
/// menu left it, `command` what the menu sent.
pub fn after_menu(original: &BootConfig, boot_config: BootConfig, command: BootCommand) -> (decision:
    MenuDecision)
    ensures
        decision.boot_config == effective_config(*original, boot_config),
        decision.command == effective_command(*original, boot_config, command),
        decision.toast is Some <==> storage_changed(*original, boot_config) && command
            == BootCommand::NormalBoot,
        decision.toast matches Some(text) ==> text@ == "Applying changes"@,
        decision.show_splash <==> !storage_changed(*original, boot_config) && command
            == BootCommand::NormalBoot,
        decision.store.deep_view() == menu_store(*original, boot_config, command),
        decision.course == course_of(decision.command),
{
    let mut boot_config = boot_config;
    let mut command = command;
    let mut toast: Option<String> = None;
    let mut show_splash = false;
    let changed = boot_config.rootfs.persistent_storage != original.rootfs.persistent_storage;
    if changed {
        boot_config.rootfs.systemd_targets_total = None;
        if command == BootCommand::NormalBoot {
            command = BootCommand::Reboot;
            toast = Some(String::from_str("Applying changes"));
        }
    } else if command == BootCommand::NormalBoot {
        show_splash = true;
    }
    let store = if command != BootCommand::NormalBoot && !boot_config.same(original) {
        BootConfig::write(&boot_config, false)
    } else {
        let none: Vec<StoreAction> = Vec::new();
        assert(none.deep_view() =~= Seq::<StoreActionView>::empty());
        none
    };
    let course = match command {
        BootCommand::PowerOff => Course::PowerOff,
        BootCommand::Reboot => Course::Reboot,
        _ => Course::ResumeBoot,
    };
    MenuDecision { boot_config, command, toast, show_splash, store, course }
}

/// What is done to the configuration files at the end of a boot: the
/// configuration is committed if the boot changed it.
pub fn commit_if_changed(original: &BootConfig, boot_config: &BootConfig) -> (store: Vec<
    StoreAction,
>)
    ensures
        store.deep_view() == if boot_config@ != original@ {
            write_plan(boot_config@, false)
        } else {
            seq![]
        },
{
    if !boot_config.same(original) {
        BootConfig::write(boot_config, false)
    } else {
        let none: Vec<StoreAction> = Vec::new();
        assert(none.deep_view() =~= Seq::<StoreActionView>::empty());
        none
    }
}

/// How the readiness tracker runs.
#[derive(Debug, Clone, Copy, PartialEq, Eq, Structural)]
pub enum Tracking {
    /// No total is known: count, and show a bar that tells nothing.
    Learning,
    /// Show progress against this total, and count again in the background.
    Following { targets_total: i32 },
}

/// Chooses how the readiness tracker runs, given the total that the
/// configuration vouches for.
pub fn tracking_mode(targets_total: Option<i32>) -> (mode: Tracking)
    ensures
        mode == match targets_total {
            Some(total) if total != SYSTEMD_NO_TARGETS => Tracking::Following {
                targets_total: total,
            },
            _ => Tracking::Learning,
        },
{
    match targets_total {
        Some(total) => {
            if total != SYSTEMD_NO_TARGETS {
                Tracking::Following { targets_total: total }
            } else {
                Tracking::Learning
            }
        },
        None => Tracking::Learning,
    }
}

/// The message that the second stage sends to the first: none before the
/// assembly is complete.
pub fn handoff_status(state: AssemblyState) -> (status: Option<OverlayStatus>)
    ensures
        status == if state == AssemblyState::Ready {
            Some(OverlayStatus { ready: true })
        } else {
            None
        },
{
    if state == AssemblyState::Ready {
        Some(OverlayStatus { ready: true })
    } else {
        None
    }
}

/// The shell line that starts the second stage and keeps what it prints.
pub open spec fn second_stage_line() -> Seq<char> {
    QINIT_PATH@ + " 2>&1 | tee -a "@ + slash(QINIT_LOG_DIR@, QINIT_LOG_FILE@)
}

/// Model of [`first_stage`].
pub open spec fn first_stage_plan() -> Seq<ActionView> {
    crate::socket::bind_plan(BOOT_SOCKET_PATH@) + seq![
        crate::action::create_dir_all(QINIT_LOG_DIR@),
        ActionView::Spawn {
            command: CommandView { program: "/bin/sh"@, args: seq!["-c"@, second_stage_line()] },
        },
    ]
}

/// What the first stage does before it waits: it binds the handoff socket
/// and starts the second stage.
pub fn first_stage() -> (plan: Vec<Action>)
    ensures
        plan.deep_view() == first_stage_plan(),
{
    let mut plan = crate::socket::bind(BOOT_SOCKET_PATH);
    let ghost bound = plan.deep_view();
    push_action(&mut plan, Action::mkdir(String::from_str(QINIT_LOG_DIR)));
    let log = join(QINIT_LOG_DIR, QINIT_LOG_FILE);
    let line = concat3(QINIT_PATH, " 2>&1 | tee -a ", log.as_str());
    let mut shell = Command::new("/bin/sh");
    shell.arg("-c");
    shell.arg(line.as_str());
    assert(shell@.args =~= seq!["-c"@, second_stage_line()]);
    push_action(&mut plan, Action::Spawn { command: shell });
    assert(plan.deep_view() =~= first_stage_plan());
    plan
}

/// Model of [`first_stage_handoff`].
pub open spec fn handoff_plan(status: OverlayStatus) -> Seq<ActionView> {
    if status.ready {
        seq![
            ActionView::RemoveFile { path: BOOT_SOCKET_PATH@ },
            ActionView::Chroot { path: crate::OVERLAY_MOUNTPOINT@ },
            ActionView::SetWorkdir { path: "/"@ },
            ActionView::Exec { program: INIT_PATH@ },
        ]
    } else {
        seq![]
    }
}

/// What the first stage does on the message of the second: if the message
/// says ready, it removes the socket, enters the tree and turns into the
/// tree's init, for good.
///
/// The first stage has the word of the second stage and nothing else. It
/// acts on a message that says ready whether or not a tree stands at the
/// mountpoint.
pub fn first_stage_handoff(status: OverlayStatus) -> (plan: Vec<Action>)
    ensures
        plan.deep_view() == handoff_plan(status),
{
    let mut plan: Vec<Action> = Vec::new();
    if status.ready {
        push_action(&mut plan, Action::RemoveFile { path: String::from_str(BOOT_SOCKET_PATH) });
        push_action(&mut plan, Action::Chroot { path: String::from_str(crate::OVERLAY_MOUNTPOINT) });
        push_action(&mut plan, Action::SetWorkdir { path: String::from_str("/") });
        push_action(&mut plan, Action::Exec { program: String::from_str(INIT_PATH) });
    }
    assert(plan.deep_view() =~= handoff_plan(status));
    plan
}

/// Path of the socket on which fatal errors are reported, as seen from
/// outside the tree.
pub fn fatal_error_socket_path() -> (path: String)
    ensures
        path@ == slash(crate::OVERLAY_MOUNTPOINT@ + "/run"@, QINIT_SOCKET@),
{
    let run = concat2(crate::OVERLAY_MOUNTPOINT, "/run");
    join(run.as_str(), QINIT_SOCKET)
}

/// What to do about the one report that is taken from the fatal error
/// socket: the reason to show, and the removal of the socket. Bytes that are
/// no report (`None`) are passed over and the socket stays.
pub fn on_fatal_error_report(details: Option<ErrorDetails>) -> (shown: Option<(String, Action)>)
    ensures
        match details {
            Some(d) => shown matches Some((reason, cleanup)) && reason@ == d@ && cleanup@ == (
            ActionView::RemoveFile {
                path: slash(crate::OVERLAY_MOUNTPOINT@ + "/run"@, QINIT_SOCKET@),
            }),
            None => shown is None,
        },
{
    match details {
        Some(d) => Some((d.error_reason, Action::RemoveFile { path: fatal_error_socket_path() })),
        None => None,
    }
}

/// All of `parts` in a row.
pub open spec fn concat_all(parts: Seq<Seq<char>>) -> Seq<char>
    decreases parts.len(),
{
    if parts.len() == 0 {
        seq![]
    } else {
        concat_all(parts.drop_last()) + parts.last()
    }
}

/// Model of [`error_string`].
pub open spec fn error_report(reason: Seq<char>, causes: Seq<Seq<char>>) -> Seq<char> {
    if concat_all(causes).len() == 0 {
        "Reason: "@ + reason
    } else {
        "Reason: "@ + reason + "\nCaused by: "@ + concat_all(causes)
    }
}

/// The description of a fatal error that goes to the error screen: the
/// reason, followed by the chain of its causes if it has any.
pub fn error_string(reason: &str, causes: &Vec<String>) -> (report: String)
    ensures
        report@ == error_report(reason@, causes.deep_view()),
{
    let mut chain = String::new();
    let mut i: usize = 0;
    assert(causes.deep_view().take(0) =~= Seq::<Seq<char>>::empty());
    while i < causes.len()
        invariant
            i <= causes.len(),
            chain@ == concat_all(causes.deep_view().take(i as int)),
        decreases causes.len() - i,
    {
        proof {
            assert(causes.deep_view().take(i + 1).drop_last() =~= causes.deep_view().take(
                i as int,
            ));
            assert(causes.deep_view().take(i + 1).last() == causes[i as int]@);
        }
        chain.append(causes[i].as_str());
        i += 1;
    }
    assert(causes.deep_view().take(causes.len() as int) =~= causes.deep_view());
    let mut report = concat2("Reason: ", reason);
    if !chain.as_str().is_empty() {
        report.append("\nCaused by: ");
        report.append(chain.as_str());
    }
    report
}

} // verus!
