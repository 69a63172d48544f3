//! The e-ink panel: rotation, kernel modules, waveform files.

use crate::action::{push_action, run, Action, ActionView, Command};
use crate::boot_config::BootConfig;
use crate::text::{join, slash};
use vstd::prelude::*;

verus! {

/// Rotation of the screen at start-up, clockwise, in degrees.
#[derive(Debug, Clone, Copy, PartialEq, Eq, Structural)]
pub enum ScreenRotation {
    Cw0,
    Cw90,
    Cw180,
    Cw270,
}

impl Default for ScreenRotation {
    fn default() -> (rotation: ScreenRotation)
        ensures
            rotation == ScreenRotation::Cw270,
    {
        ScreenRotation::Cw270
    }
}

/// The partition that holds the panel's waveform.
pub const WAVEFORM_PART: &'static str = "/dev/mmcblk0p2";

pub const WAVEFORM_FILE: &'static str = "ebc.wbf";

pub const CUSTOMWF_FILE: &'static str = "custom_wf.bin";

/// Directory of the waveform backup on the boot partition.
pub const FIRMWARE_DIR: &'static str = "waveform/";

pub const UDEV_RULES_PATH: &'static str = "/etc/udev/rules.d/";

pub const PYTHON_SCRIPTS_PATH: &'static str = "/etc/init.d/ebc/";

pub const LIBINPUT_CW_0: &'static str = r#"ENV{LIBINPUT_CALIBRATION_MATRIX}="-1 0 1 0 -1 1""#;

pub const LIBINPUT_CW_90: &'static str = r#"ENV{LIBINPUT_CALIBRATION_MATRIX}="0 -1 1 1 0 0""#;

pub const LIBINPUT_CW_180: &'static str = r#"ENV{LIBINPUT_CALIBRATION_MATRIX}="1 0 0 0 1 0""#;

pub const LIBINPUT_CW_270: &'static str = r#"ENV{LIBINPUT_CALIBRATION_MATRIX}="0 1 0 -1 0 1""#;

/// Model of loading one kernel module.
pub open spec fn module_action(module: Seq<char>) -> ActionView {
    run("/sbin/modprobe"@, seq![module])
}

fn load_module(module: &str) -> (action: Action)
    ensures
        action@ == module_action(module@),
{
    let mut args: Vec<String> = Vec::new();
    args.push(String::from_str(module));
    assert(args.deep_view() =~= seq![module@]);
    crate::system::modprobe(&args)
}

/// Model of [`load_modules`].
pub open spec fn modules_plan() -> Seq<ActionView> {
    seq![
        module_action("tps65185_regulator"@),
        module_action("industrialio_triggered_event"@),
        module_action("industrialio"@),
        module_action("panel_simple"@),
        module_action("rockchip_ebc"@),
    ]
}

/// Loads the modules of the display, the controller last.
pub fn load_modules() -> (plan: Vec<Action>)
    ensures
        plan.deep_view() == modules_plan(),
{
    let mut plan: Vec<Action> = Vec::new();
    push_action(&mut plan, load_module("tps65185_regulator"));
    push_action(&mut plan, load_module("industrialio_triggered_event"));
    push_action(&mut plan, load_module("industrialio"));
    push_action(&mut plan, load_module("panel_simple"));
    push_action(&mut plan, load_module("rockchip_ebc"));
    assert(plan.deep_view() =~= modules_plan());
    plan
}

/// Directory of the waveform backup.
pub open spec fn backup_dir() -> Seq<char> {
    slash(crate::BOOT_PART_MOUNTPOINT@, FIRMWARE_DIR@)
}

/// Directory of the waveform backup.
pub fn waveform_backup_dir_path() -> (path: String)
    ensures
        path@ == backup_dir(),
{
    join(crate::BOOT_PART_MOUNTPOINT, FIRMWARE_DIR)
}

/// Path of the file `name` in the waveform backup.
pub fn waveform_backup_path(name: &str) -> (path: String)
    ensures
        path@ == slash(backup_dir(), name@),
{
    join(waveform_backup_dir_path().as_str(), name)
}

/// Steps that bring the two backed-up waveform files into the live system.
pub open spec fn waveform_copies() -> Seq<ActionView> {
    seq![
        ActionView::CopyFile {
            from: slash(backup_dir(), WAVEFORM_FILE@),
            to: slash(crate::system::WAVEFORM_DIR_PATH@, WAVEFORM_FILE@),
        },
        ActionView::CopyFile {
            from: slash(backup_dir(), CUSTOMWF_FILE@),
            to: slash(crate::system::WAVEFORM_DIR_PATH@, CUSTOMWF_FILE@),
        },
    ]
}

/// How the waveform is loaded.
#[derive(Debug, Clone, PartialEq, Eq)]
pub struct WaveformLoad {
    /// Whether the waveform has to be read from its partition and backed up
    /// first; see [`backup_waveform_files`].
    pub backup_first: bool,
    /// The copies into the live system.
    pub copies: Vec<Action>,
}

/// Plans the loading of the waveform. The backup is made anew unless both
/// of its files exist.
pub fn load_waveform(waveform_backed_up: bool, custom_waveform_backed_up: bool) -> (load:
    WaveformLoad)
    ensures
        load.backup_first == !(waveform_backed_up && custom_waveform_backed_up),
        load.copies.deep_view() == waveform_copies(),
{
    let mut copies: Vec<Action> = Vec::new();
    push_action(
        &mut copies,
        Action::CopyFile {
            from: waveform_backup_path(WAVEFORM_FILE),
            to: join(crate::system::WAVEFORM_DIR_PATH, WAVEFORM_FILE),
        },
    );
    push_action(
        &mut copies,
        Action::CopyFile {
            from: waveform_backup_path(CUSTOMWF_FILE),
            to: join(crate::system::WAVEFORM_DIR_PATH, CUSTOMWF_FILE),
        },
    );
    assert(copies.deep_view() =~= waveform_copies());
    WaveformLoad { backup_first: !waveform_backed_up || !custom_waveform_backed_up, copies }
}

/// The second way to read the waveform, for when a plain read of the
/// partition has given nothing: the program whose output is the waveform.
pub fn waveform_fallback(waveform: &[u8]) -> (fallback: Option<Command>)
    ensures
        match fallback {
            Some(command) => waveform@.len() == 0 && command@.program == "/bin/dd"@
                && command@.args == seq!["if="@ + WAVEFORM_PART@],
            None => waveform@.len() > 0,
        },
{
    if waveform.len() == 0 {
        let mut command = Command::new("/bin/dd");
        command.arg(crate::text::concat2("if=", WAVEFORM_PART).as_str());
        assert(command@.args =~= seq!["if="@ + WAVEFORM_PART@]);
        Some(command)
    } else {
        None
    }
}

/// The waveform partition gave no data.
#[derive(Debug, Clone, Copy, PartialEq, Eq, Structural)]
pub struct EmptyWaveform;

/// Model of [`backup_waveform_files`].
pub open spec fn waveform_backup_plan(dir: Seq<char>, path: Seq<char>, waveform: Seq<u8>) -> Seq<
    ActionView,
> {
    seq![
        crate::action::create_dir_all(dir),
        ActionView::WriteBytes { path, contents: waveform },
    ]
}

/// Backs up the `waveform` that was read from its partition. An empty
/// waveform is not backed up.
pub fn backup_waveform_files(
    waveform_backup_dir_path: &str,
    waveform_backup_ebcwbf_path: &str,
    waveform: Vec<u8>,
) -> (result: Result<Vec<Action>, EmptyWaveform>)
    ensures
        match result {
            Ok(plan) => waveform@.len() > 0 && plan.deep_view() == waveform_backup_plan(
                waveform_backup_dir_path@,
                waveform_backup_ebcwbf_path@,
                waveform@,
            ),
            Err(_) => waveform@.len() == 0,
        },
{
    if waveform.len() == 0 {
        return Err(EmptyWaveform);
    }
    let mut plan: Vec<Action> = Vec::new();
    push_action(&mut plan, Action::mkdir(String::from_str(waveform_backup_dir_path)));
    push_action(
        &mut plan,
        Action::WriteBytes {
            path: String::from_str(waveform_backup_ebcwbf_path),
            contents: waveform,
        },
    );
    assert(plan.deep_view() =~= waveform_backup_plan(
        waveform_backup_dir_path@,
        waveform_backup_ebcwbf_path@,
        waveform@,
    ));
    Ok(plan)
}

/// Model of [`create_custom_waveform`].
pub open spec fn custom_waveform_plan(waveform_path: Seq<char>, workdir: Seq<char>) -> Seq<
    ActionView,
> {
    seq![
        ActionView::SetWorkdir { path: workdir },
        run("python3"@, seq![PYTHON_SCRIPTS_PATH@ + "wbf_to_custom.py"@, waveform_path]),
        ActionView::SetWorkdir { path: "/"@ },
    ]
}

/// Derives the custom waveform from the one at `waveform_path`, working in
/// `workdir`.
pub fn create_custom_waveform(waveform_path: &str, workdir: &str) -> (plan: Vec<Action>)
    ensures
        plan.deep_view() == custom_waveform_plan(waveform_path@, workdir@),
{
    let mut plan: Vec<Action> = Vec::new();
    push_action(&mut plan, crate::system::set_workdir(workdir));
    let mut command = Command::new("python3");
    command.arg(crate::text::concat2(PYTHON_SCRIPTS_PATH, "wbf_to_custom.py").as_str());
    command.arg(waveform_path);
    assert(command@.args =~= seq![PYTHON_SCRIPTS_PATH@ + "wbf_to_custom.py"@, waveform_path@]);
    push_action(&mut plan, Action::run_command(command));
    push_action(&mut plan, crate::system::set_workdir("/"));
    assert(plan.deep_view() =~= custom_waveform_plan(waveform_path@, workdir@));
    plan
}

/// The calibration rule of the touchscreen for a rotation of the screen.
pub open spec fn calibration(rotation: ScreenRotation) -> Seq<char> {
    match rotation {
        ScreenRotation::Cw0 => LIBINPUT_CW_0@,
        ScreenRotation::Cw90 => LIBINPUT_CW_90@,
        ScreenRotation::Cw180 => LIBINPUT_CW_180@,
        ScreenRotation::Cw270 => LIBINPUT_CW_270@,
    }
}

/// Model of [`setup_touchscreen`].
pub open spec fn touchscreen_plan(rotation: ScreenRotation) -> Seq<ActionView> {
    seq![
        crate::action::create_dir_all(UDEV_RULES_PATH@),
        ActionView::WriteFile {
            path: slash(UDEV_RULES_PATH@, "libinput.rules"@),
            contents: calibration(rotation),
        },
        run("/sbin/openrc"@, seq![]),
        ActionView::CreateFile { path: "/run/openrc/softlevel"@ },
        crate::system::service_action("udev"@, "start"@),
        crate::system::service_action("udev-trigger"@, "start"@),
        crate::system::service_action("udev-settle"@, "start"@),
    ]
}

/// Sets up touch input for the rotation that the configuration asks for and
/// starts the device manager.
pub fn setup_touchscreen(boot_config: &BootConfig) -> (plan: Vec<Action>)
    ensures
        plan.deep_view() == touchscreen_plan(boot_config.system.initial_screen_rotation),
{
    let rule = match boot_config.system.initial_screen_rotation {
        ScreenRotation::Cw0 => LIBINPUT_CW_0,
        ScreenRotation::Cw90 => LIBINPUT_CW_90,
        ScreenRotation::Cw180 => LIBINPUT_CW_180,
        ScreenRotation::Cw270 => LIBINPUT_CW_270,
    };
    let mut plan: Vec<Action> = Vec::new();
    push_action(&mut plan, Action::mkdir(String::from_str(UDEV_RULES_PATH)));
    push_action(
        &mut plan,
        Action::WriteFile {
            path: join(UDEV_RULES_PATH, "libinput.rules"),
            contents: String::from_str(rule),
        },
    );
    push_action(&mut plan, Action::run_command(Command::new("/sbin/openrc")));
    push_action(&mut plan, Action::CreateFile { path: String::from_str("/run/openrc/softlevel") });
    push_action(&mut plan, crate::system::start_service("udev"));
    push_action(&mut plan, crate::system::start_service("udev-trigger"));
    push_action(&mut plan, crate::system::start_service("udev-settle"));
    assert(plan.deep_view() =~= touchscreen_plan(boot_config.system.initial_screen_rotation));
    plan
}

/// How long the panel is given to finish a full refresh, in milliseconds.
pub const REFRESH_SETTLE_MILLIS: u64 = 1000;

} // verus!
