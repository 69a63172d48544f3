//! What the boot menu decides. How it looks is not decided here.

use crate::action::Action;
use crate::boot_config::BootConfig;
use crate::eink::ScreenRotation;
use crate::rootfs_socket::LoginForm;
use crate::storage_encryption::{mount_storage_action, DISABLED_MODE_PASSWORD};
use crate::system::{BootCommand, BootCommandForm, PowerDownMode, PrimitiveShutDownType};
use crate::systemd::Progress;
use crate::text::{join_lines, last_of, lines_of};
use vstd::prelude::*;

verus! {

/// How long a notice stays, in milliseconds.
pub const TOAST_DURATION_MILLIS: i32 = 5000;

/// How often the age of a notice is looked at, in milliseconds.
pub const TOAST_TICK_MILLIS: i32 = 100;

pub const NOT_AVAILABLE: &'static str = "(Not currently available)";

pub const HELP_URI: &'static str =
    "https://github.com/PorQ-Pine/docs/blob/main/troubleshooting/fatal-errors.md";

/// Lines of each log that the error screen shows.
pub const LINES_TO_KEEP_UI: usize = 150;

/// Lines of each log that the diagnostic code starts out with.
pub const LINES_TO_KEEP_QR: usize = 100;

/// Most bytes that the diagnostic code holds at its size.
pub const IDEAL_SIZE: usize = 2563;

/// How long the splash is given to settle before the screen is refreshed for
/// the last time, in milliseconds.
pub const SPLASH_SETTLE_MILLIS: u64 = 2000;

/// The pages of the menu.
#[derive(Debug, Clone, Copy, PartialEq, Eq, Structural)]
pub enum Page {
    Blank,
    QuillBoot,
    BootSplash,
    UserLogin,
    ShutDownSplash,
    InvalidBootConfig,
    Error,
}

/// The shutdown that the running system has asked for.
#[derive(Debug, Clone, Copy, PartialEq, Eq, Structural)]
pub enum RootFsShutDownCommand {
    Nothing,
    PowerOff,
    Reboot,
}

/// The page that is shown after a request for `requested` while `current`
/// is shown: the error page is never left.
pub fn page_after(current: Page, requested: Page) -> (shown: Page)
    ensures
        shown == if current == Page::Error {
            Page::Error
        } else {
            requested
        },
{
    if current == Page::Error {
        Page::Error
    } else {
        requested
    }
}

/// How the menu opens.
#[derive(Debug, Clone, Copy, PartialEq, Eq, Structural)]
pub enum Opening {
    /// The configuration was damaged: say so and wait.
    InvalidBootConfig,
    /// The recovery menu was asked for: show it, at half brightness.
    QuillBoot,
    /// Boot without further ado.
    NormalBoot,
}

/// How the menu opens, given whether the configuration could be used and
/// whether the kernel command line asks for the recovery menu.
pub fn opening(boot_config_valid: bool, quill_recovery: bool) -> (opening: Opening)
    ensures
        opening == if !boot_config_valid {
            Opening::InvalidBootConfig
        } else if quill_recovery {
            Opening::QuillBoot
        } else {
            Opening::NormalBoot
        },
{
    if !boot_config_valid {
        Opening::InvalidBootConfig
    } else if quill_recovery {
        Opening::QuillBoot
    } else {
        Opening::NormalBoot
    }
}

/// How a normal boot goes on in the menu.
#[derive(Debug, Clone, PartialEq, Eq)]
pub enum NormalBoot {
    /// The first boot: send the boot command and start the set-up.
    FirstBoot,
    /// Show the login page and send the boot command.
    WaitForLogin,
    /// Send the boot command, mount the home directory of the default user
    /// and hand on the credentials.
    AutoLogin { mount: Action, login: LoginForm },
}

/// Whether `user` is among `users`.
pub open spec fn is_among(users: Seq<Seq<char>>, user: Seq<char>) -> bool {
    exists|i: int| 0 <= i < users.len() && users[i] == user
}

/// Whether the boot waits for someone to log in: it does when the default
/// user's home directory is encrypted in earnest, and when there is no
/// default user.
pub open spec fn waits_for_login(
    default_user: Seq<char>,
    encryption_users: Seq<Seq<char>>,
    default_user_encrypted: bool,
) -> bool {
    (is_among(encryption_users, default_user) && default_user_encrypted) || default_user.len()
        == 0
}

fn among(users: &Vec<String>, user: &str) -> (found: bool)
    ensures
        found == is_among(users.deep_view(), user@),
{
    let mut i: usize = 0;
    while i < users.len()
        invariant
            i <= users.len(),
            forall|k: int| 0 <= k < i ==> users.deep_view()[k] != user@,
        decreases users.len() - i,
    {
        if crate::text::same(users[i].as_str(), user) {
            assert(users.deep_view()[i as int] == user@);
            return true;
        }
        i += 1;
    }
    false
}

/// Decides how a normal boot goes on.
///
/// `encryption_users` are the users with an encrypted home directory,
/// `default_user_encrypted` tells whether that of the default user is
/// encrypted in earnest.
pub fn boot_normal(
    default_user: &str,
    first_boot_done: bool,
    encryption_users: &Vec<String>,
    default_user_encrypted: bool,
) -> (plan: NormalBoot)
    ensures
        !first_boot_done ==> plan == NormalBoot::FirstBoot,
        first_boot_done && waits_for_login(
            default_user@,
            encryption_users.deep_view(),
            default_user_encrypted,
        ) ==> plan == NormalBoot::WaitForLogin,
        first_boot_done && !waits_for_login(
            default_user@,
            encryption_users.deep_view(),
            default_user_encrypted,
        ) ==> (plan matches NormalBoot::AutoLogin { mount, login } && mount@
            == mount_storage_action(default_user@, DISABLED_MODE_PASSWORD@) && login@ == (
            default_user@,
            DISABLED_MODE_PASSWORD@,
        )),
{
    if !first_boot_done {
        return NormalBoot::FirstBoot;
    }
    if (among(encryption_users, default_user) && default_user_encrypted)
        || default_user.is_empty() {
        return NormalBoot::WaitForLogin;
    }
    NormalBoot::AutoLogin {
        mount: crate::storage_encryption::storage_mount(default_user, DISABLED_MODE_PASSWORD),
        login: LoginForm {
            username: String::from_str(default_user),
            password: String::from_str(DISABLED_MODE_PASSWORD),
        },
    }
}

/// From where the machine is powered down: from inside the assembled tree
/// once the running system has asked for a shutdown.
pub fn determine_power_down_mode(shutdown_command: RootFsShutDownCommand) -> (mode: PowerDownMode)
    ensures
        mode == if shutdown_command == RootFsShutDownCommand::Nothing {
            PowerDownMode::Normal
        } else {
            PowerDownMode::RootFS
        },
{
    if shutdown_command == RootFsShutDownCommand::Nothing {
        PowerDownMode::Normal
    } else {
        PowerDownMode::RootFS
    }
}

/// What the menu sends to the orchestrator when `progress` is reported:
/// nothing before start-up is complete; then the shutdown that the running
/// system has asked for in the meantime, or the news that the boot has
/// finished. A shutdown flag travels with the command.
pub fn on_progress(progress: &Progress, shutdown_command: RootFsShutDownCommand) -> (form: Option<
    BootCommandForm,
>)
    ensures
        form == if progress.complete() {
            Some(
                BootCommandForm {
                    command: match shutdown_command {
                        RootFsShutDownCommand::PowerOff => BootCommand::PowerOffRootFS,
                        RootFsShutDownCommand::Reboot => BootCommand::RebootRootFS,
                        RootFsShutDownCommand::Nothing => BootCommand::BootFinished,
                    },
                    can_shut_down: true,
                },
            )
        } else {
            None
        },
{
    if progress.is_complete() {
        let command = match shutdown_command {
            RootFsShutDownCommand::PowerOff => BootCommand::PowerOffRootFS,
            RootFsShutDownCommand::Reboot => BootCommand::RebootRootFS,
            RootFsShutDownCommand::Nothing => BootCommand::BootFinished,
        };
        Some(BootCommandForm { command, can_shut_down: true })
    } else {
        None
    }
}

/// The age of a notice after one more tick, `None` when the notice is to
/// go. A sticky notice does not age.
pub fn toast_tick(sticky: bool, millis_count: i32) -> (next: Option<i32>)
    ensures
        next == if sticky {
            Some(millis_count)
        } else if millis_count + TOAST_TICK_MILLIS > TOAST_DURATION_MILLIS {
            None
        } else {
            Some((millis_count + TOAST_TICK_MILLIS) as i32)
        },
{
    if sticky {
        Some(millis_count)
    } else if millis_count > TOAST_DURATION_MILLIS - TOAST_TICK_MILLIS {
        None
    } else {
        Some(millis_count + TOAST_TICK_MILLIS)
    }
}

/// What the splash says.
pub open spec fn splash_text(shut_down_type: PrimitiveShutDownType) -> Seq<char> {
    match shut_down_type {
        PrimitiveShutDownType::PowerOff => "Powered off"@,
        PrimitiveShutDownType::Reboot => "Rebooting"@,
        PrimitiveShutDownType::Sleep => "Sleeping"@,
    }
}

/// What the splash says, and whether it shows the date, for a screen that
/// stays as it is for long, rather than the time of day.
pub fn set_wallpaper_splash_text(shut_down_type: &PrimitiveShutDownType) -> (shown: (String, bool))
    ensures
        shown.0@ == splash_text(*shut_down_type),
        shown.1 == (*shut_down_type == PrimitiveShutDownType::PowerOff),
{
    match shut_down_type {
        PrimitiveShutDownType::PowerOff => (String::from_str("Powered off"), true),
        PrimitiveShutDownType::Reboot => (String::from_str("Rebooting"), false),
        PrimitiveShutDownType::Sleep => (String::from_str("Sleeping"), false),
    }
}

/// How the screen is refreshed.
#[derive(Debug, Clone, Copy, PartialEq, Eq, Structural)]
pub struct Refresh {
    /// How long to wait first, in milliseconds.
    pub settle_millis: u64,
    /// Whether to raise the shutdown flag once the refresh is done.
    pub raise_flag: bool,
    /// Whether the refresh runs beside the menu rather than within it.
    pub in_background: bool,
}

/// How the screen is refreshed. Before a shutdown the splash is given time
/// to settle, and the shutdown flag is raised only after the refresh.
pub fn handle_screen_refresh(prepare_shut_down: bool) -> (refresh: Refresh)
    ensures
        refresh == if prepare_shut_down {
            Refresh { settle_millis: SPLASH_SETTLE_MILLIS, raise_flag: true, in_background: true }
        } else {
            Refresh { settle_millis: 0, raise_flag: false, in_background: false }
        },
{
    if prepare_shut_down {
        Refresh { settle_millis: SPLASH_SETTLE_MILLIS, raise_flag: true, in_background: true }
    } else {
        Refresh { settle_millis: 0, raise_flag: false, in_background: false }
    }
}

/// The default user of the configuration, as the menu shows it.
pub fn set_default_user_from_boot_config(boot_config: &BootConfig) -> (user: Option<String>)
    ensures
        crate::boot_config::opt_view(user) == crate::boot_config::opt_view(
            boot_config.system.default_user,
        ),
{
    match &boot_config.system.default_user {
        Some(user) => Some(user.clone()),
        None => None,
    }
}

/// Position of a rotation in the menu's list.
pub open spec fn rotation_position(rotation: ScreenRotation) -> int {
    match rotation {
        ScreenRotation::Cw0 => 0,
        ScreenRotation::Cw90 => 1,
        ScreenRotation::Cw180 => 2,
        ScreenRotation::Cw270 => 3,
    }
}

/// The rotation at a position of the menu's list; the last one for a
/// position outside the list.
pub open spec fn rotation_for(index: int) -> ScreenRotation {
    if index == 0 {
        ScreenRotation::Cw0
    } else if index == 1 {
        ScreenRotation::Cw90
    } else if index == 2 {
        ScreenRotation::Cw180
    } else {
        ScreenRotation::Cw270
    }
}

/// Position of a rotation in the menu's list.
pub fn rotation_index(rotation: ScreenRotation) -> (index: i32)
    ensures
        index == rotation_position(rotation),
{
    match rotation {
        ScreenRotation::Cw0 => 0,
        ScreenRotation::Cw90 => 1,
        ScreenRotation::Cw180 => 2,
        ScreenRotation::Cw270 => 3,
    }
}

/// The rotation at a position of the menu's list.
pub fn rotation_at(index: i32) -> (rotation: ScreenRotation)
    ensures
        rotation == rotation_for(index as int),
{
    if index == 0 {
        ScreenRotation::Cw0
    } else if index == 1 {
        ScreenRotation::Cw90
    } else if index == 2 {
        ScreenRotation::Cw180
    } else {
        ScreenRotation::Cw270
    }
}

/// The rotation at the position of a rotation is that rotation.
pub proof fn lemma_rotation_round_trip(rotation: ScreenRotation)
    ensures
        rotation_for(rotation_position(rotation)) == rotation,
{
}

/// Model of [`diagnostic_text`].
pub open spec fn diagnostics(
    error_reason: Seq<char>,
    program_output: Seq<char>,
    kernel_buffer: Seq<char>,
    lines_to_keep: nat,
) -> Seq<char> {
    error_reason + "\n\n"@ + join_lines(last_of(lines_of(program_output), lines_to_keep))
        + "\n\n"@ + join_lines(last_of(lines_of(kernel_buffer), lines_to_keep))
}

/// The text of the diagnostic code: the reason of the error, then the last
/// `lines_to_keep` lines of what init has printed and of the kernel log.
pub fn diagnostic_text(
    error_reason: &str,
    program_output: &str,
    kernel_buffer: &str,
    lines_to_keep: usize,
) -> (text: String)
    ensures
        text@ == diagnostics(
            error_reason@,
            program_output@,
            kernel_buffer@,
            lines_to_keep as nat,
        ),
{
    let mut text = crate::text::concat2(error_reason, "\n\n");
    text.append(crate::text::keep_last_lines(program_output, lines_to_keep).as_str());
    text.append("\n\n");
    text.append(crate::text::keep_last_lines(kernel_buffer, lines_to_keep).as_str());
    text
}

/// What follows an attempt to fit the diagnostic text into the code.
#[derive(Debug, Clone, Copy, PartialEq, Eq, Structural)]
pub enum Trim {
    /// The compressed text fits: show it.
    Fits,
    /// It does not fit: try again with this many lines of each log.
    Again { lines_to_keep: usize },
    /// No code can be shown.
    NotAvailable,
}

/// What follows an attempt with `lines_to_keep` lines. `compressed_size` is
/// the size of the compressed text in bytes, `None` if the text could not
/// be compressed. The text is cut down line by line until it fits; when
/// nothing is left to cut, there is no code.
pub fn after_compression(lines_to_keep: usize, compressed_size: Option<usize>) -> (next: Trim)
    ensures
        next == match compressed_size {
            None => Trim::NotAvailable,
            Some(size) => if size <= IDEAL_SIZE {
                Trim::Fits
            } else if lines_to_keep > 0 {
                Trim::Again { lines_to_keep: (lines_to_keep - 1) as usize }
            } else {
                Trim::NotAvailable
            },
        },
        next matches Trim::Again { lines_to_keep: fewer } ==> fewer < lines_to_keep,
{
    match compressed_size {
        None => Trim::NotAvailable,
        Some(size) => {
            if size <= IDEAL_SIZE {
                Trim::Fits
            } else if lines_to_keep > 0 {
                Trim::Again { lines_to_keep: lines_to_keep - 1 }
            } else {
                Trim::NotAvailable
            }
        },
    }
}

/// The brightness in percent of the greatest, for the sliders.
pub fn brightness_percent(level: i32) -> (percent: i64)
    ensures
        percent == crate::battery::scaled(
            level as int,
            100,
            crate::brightness::MAX_BRIGHTNESS as int,
        ),
{
    crate::battery::scale(level, 100, crate::brightness::MAX_BRIGHTNESS as u16)
}

/// The brightness that a slider at `percent` stands for.
pub fn brightness_level(percent: i32) -> (level: i64)
    ensures
        level == crate::battery::scaled(
            percent as int,
            crate::brightness::MAX_BRIGHTNESS as int,
            100,
        ),
{
    crate::battery::scale(percent, crate::brightness::MAX_BRIGHTNESS as u16, 100)
}

} // verus!
