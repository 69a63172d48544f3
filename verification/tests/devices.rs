use libqinit::action::{Action, Command};
use libqinit::battery::{charger_plugged_in, generate_svg_from_level, get_level, scale};
use libqinit::boot_config::BootConfig;
use libqinit::brightness::{brightness_node, get_brightness, set_brightness, set_brightness_, Mode};
use libqinit::eink::{
    backup_waveform_files, create_custom_waveform, load_modules, load_waveform, setup_touchscreen,
    waveform_backup_dir_path, waveform_backup_path, waveform_fallback, EmptyWaveform,
    ScreenRotation,
};
use libqinit::flag::{
    create_flags_dir, get_flag_path, is_set, read_bool, read_string, write_bool, write_string,
    Flag, MissingFlag,
};
use libqinit::flags::{Flags, StoredFlags};
use libqinit::logging::{info, MessageType};
use libqinit::networking::get_if_ip_address;
use libqinit::recovery::soft_reset;

fn strings(of: &[&str]) -> Vec<String> {
    of.iter().map(|s| s.to_string()).collect()
}

fn run(program: &str, args: &[&str]) -> Action {
    Action::Run { command: Command { program: program.to_string(), args: strings(args) } }
}

const ICON_START: &str = r##"<svg xmlns="http://www.w3.org/2000/svg" height="24px" viewBox="0 -960 960 960" width="24px" fill="#000000"><path d="M160-240q-50 0-85-35t-35-85v-240q0-50 35-85t85-35h540q50 0 85 35t35 85v240q0 50-35 85t-85 35H160Zm0-80h540q17 0 28.5-11.5T740-360v-240q0-17-11.5-28.5T700-640H160q-17 0-28.5 11.5T120-600v240q0 17 11.5 28.5T160-320Zm700-60v-200h20q17 0 28.5 11.5T920-540v120q0 17-11.5 28.5T880-380h-20Zm-700 20v-240h"##;
const ICON_END: &str = r##"v240h-80Z"/></svg>"##;

#[test]
fn battery_icon_shows_the_level_as_a_bar() {
    for (level, width) in [(0, "0"), (1, "5"), (50, "270"), (99, "534"), (100, "540"), (-1, "-5"), (3, "16")] {
        assert_eq!(generate_svg_from_level(level), format!("{}{}{}", ICON_START, width, ICON_END));
    }
    for level in [-1000, -101, -7, 0, 7, 33, 100, 1000, 3_900_000] {
        assert_eq!(
            generate_svg_from_level(level),
            format!("{}{}{}", ICON_START, level * 540 / 100, ICON_END)
        );
    }
}

#[test]
fn shares_are_rounded_towards_zero() {
    assert_eq!(scale(7, 540, 100), 37);
    assert_eq!(scale(-7, 540, 100), -37);
    assert_eq!(scale(i32::MAX, 540, 100), i32::MAX as i64 * 540 / 100);
    assert_eq!(scale(i32::MIN, 65535, 1), i32::MIN as i64 * 65535);
    assert_eq!(scale(5, 0, 3), 0);
}

#[test]
fn battery_reports_are_read() {
    assert_eq!(get_level("87\n"), Some(87));
    assert_eq!(get_level("  100  "), Some(100));
    assert_eq!(get_level("-3"), Some(-3));
    assert_eq!(get_level("full"), None);
    assert_eq!(get_level(""), None);
    assert_eq!(get_level("99999999999"), None);
    assert!(charger_plugged_in("1\n"));
    assert!(!charger_plugged_in("0\n"));
    assert!(!charger_plugged_in(""));
}

#[test]
fn brightness_is_set_and_read() {
    assert_eq!(
        set_brightness_(128, &Mode::Cool),
        Action::WriteFile {
            path: "/sys/class/backlight/backlight_cool/brightness".to_string(),
            contents: "128".to_string(),
        }
    );
    assert_eq!(
        set_brightness_(0, &Mode::Warm),
        Action::WriteFile {
            path: "/sys/class/backlight/backlight_warm/brightness".to_string(),
            contents: "0".to_string(),
        }
    );
    assert_eq!(brightness_node(&Mode::Cool), "/sys/class/backlight/backlight_cool/actual_brightness");
    assert_eq!(brightness_node(&Mode::Warm), "/sys/class/backlight/backlight_warm/actual_brightness");
    assert_eq!(get_brightness("255\n"), Some(255));
    assert_eq!(get_brightness("bright"), None);
}

#[test]
fn brightness_changes_step_by_step() {
    assert_eq!(set_brightness(10, &Mode::Cool, 10), None);
    assert_eq!(set_brightness(10, &Mode::Cool, 7), Some((8, set_brightness_(8, &Mode::Cool))));
    assert_eq!(set_brightness(10, &Mode::Warm, 12), Some((11, set_brightness_(11, &Mode::Warm))));
    assert_eq!(
        set_brightness(i32::MIN, &Mode::Warm, i32::MAX).map(|s| s.0),
        Some(i32::MAX - 1)
    );
    let mut level = 3;
    let mut written = Vec::new();
    while let Some((next, _)) = set_brightness(0, &Mode::Cool, level) {
        written.push(next);
        level = next;
    }
    assert_eq!(written, vec![2, 1, 0]);
}

#[test]
fn display_modules_are_loaded_in_order() {
    assert_eq!(
        load_modules(),
        vec![
            run("/sbin/modprobe", &["tps65185_regulator"]),
            run("/sbin/modprobe", &["industrialio_triggered_event"]),
            run("/sbin/modprobe", &["industrialio"]),
            run("/sbin/modprobe", &["panel_simple"]),
            run("/sbin/modprobe", &["rockchip_ebc"]),
        ]
    );
}

#[test]
fn waveform_is_backed_up_unless_both_files_exist() {
    assert!(!load_waveform(true, true).backup_first);
    assert!(load_waveform(true, false).backup_first);
    assert!(load_waveform(false, true).backup_first);
    assert!(load_waveform(false, false).backup_first);
    assert_eq!(
        load_waveform(true, true).copies,
        vec![
            Action::CopyFile {
                from: "/boot//waveform//ebc.wbf".to_string(),
                to: "/lib/firmware/rockchip//ebc.wbf".to_string(),
            },
            Action::CopyFile {
                from: "/boot//waveform//custom_wf.bin".to_string(),
                to: "/lib/firmware/rockchip//custom_wf.bin".to_string(),
            },
        ]
    );
    assert_eq!(waveform_backup_dir_path(), "/boot//waveform/");
    assert_eq!(waveform_backup_path("ebc.wbf"), "/boot//waveform//ebc.wbf");
}

#[test]
fn empty_waveform_is_read_again_and_never_backed_up() {
    assert_eq!(
        waveform_fallback(&[]),
        Some(Command { program: "/bin/dd".to_string(), args: strings(&["if=/dev/mmcblk0p2"]) })
    );
    assert_eq!(waveform_fallback(&[1]), None);
    assert_eq!(backup_waveform_files("/d", "/d/ebc.wbf", Vec::new()), Err(EmptyWaveform));
    assert_eq!(
        backup_waveform_files("/d", "/d/ebc.wbf", vec![7, 8]),
        Ok(vec![
            Action::CreateDirAll { path: "/d".to_string() },
            Action::WriteBytes { path: "/d/ebc.wbf".to_string(), contents: vec![7, 8] },
        ])
    );
}

#[test]
fn custom_waveform_is_made_in_its_directory() {
    assert_eq!(
        create_custom_waveform("/w/ebc.wbf", "/w"),
        vec![
            Action::SetWorkdir { path: "/w".to_string() },
            run("python3", &["/etc/init.d/ebc/wbf_to_custom.py", "/w/ebc.wbf"]),
            Action::SetWorkdir { path: "/".to_string() },
        ]
    );
}

#[test]
fn touchscreen_is_calibrated_for_the_rotation() {
    let rules = [
        (ScreenRotation::Cw0, r#"ENV{LIBINPUT_CALIBRATION_MATRIX}="-1 0 1 0 -1 1""#),
        (ScreenRotation::Cw90, r#"ENV{LIBINPUT_CALIBRATION_MATRIX}="0 -1 1 1 0 0""#),
        (ScreenRotation::Cw180, r#"ENV{LIBINPUT_CALIBRATION_MATRIX}="1 0 0 0 1 0""#),
        (ScreenRotation::Cw270, r#"ENV{LIBINPUT_CALIBRATION_MATRIX}="0 1 0 -1 0 1""#),
    ];
    for (rotation, rule) in rules {
        let mut config = BootConfig::default_boot_config();
        config.system.initial_screen_rotation = rotation;
        assert_eq!(
            setup_touchscreen(&config),
            vec![
                Action::CreateDirAll { path: "/etc/udev/rules.d/".to_string() },
                Action::WriteFile {
                    path: "/etc/udev/rules.d//libinput.rules".to_string(),
                    contents: rule.to_string(),
                },
                run("/sbin/openrc", &[]),
                Action::CreateFile { path: "/run/openrc/softlevel".to_string() },
                run("/sbin/rc-service", &["udev", "start"]),
                run("/sbin/rc-service", &["udev-trigger", "start"]),
                run("/sbin/rc-service", &["udev-settle", "start"]),
            ]
        );
    }
    assert_eq!(ScreenRotation::default(), ScreenRotation::Cw270);
}

#[test]
fn flags_have_one_file_each() {
    assert_eq!(get_flag_path(Flag::FIRST_BOOT_DONE), "/data//boot//flags//FIRST_BOOT_DONE");
    assert_eq!(
        get_flag_path(Flag::SYSTEMD_TARGETS_TOTAL),
        "/data//boot//flags//SYSTEMD_TARGETS_TOTAL"
    );
    assert_eq!(create_flags_dir(), Action::CreateDirAll { path: "/data/boot/flags/".to_string() });
}

#[test]
fn flags_are_read_and_written() {
    assert!(read_bool(Some("true\n")));
    assert!(read_bool(Some("  true  ")));
    assert!(!read_bool(Some("false\n")));
    assert!(!read_bool(Some("True")));
    assert!(!read_bool(Some("")));
    assert!(!read_bool(None));
    assert_eq!(
        write_bool(Flag::FIRST_BOOT_DONE, true),
        Action::WriteFile {
            path: "/data//boot//flags//FIRST_BOOT_DONE".to_string(),
            contents: "true\n".to_string(),
        }
    );
    assert_eq!(
        write_bool(Flag::FIRST_BOOT_DONE, false),
        Action::WriteFile {
            path: "/data//boot//flags//FIRST_BOOT_DONE".to_string(),
            contents: "false\n".to_string(),
        }
    );
    assert_eq!(read_string(Some(" 42\n")), Ok("42".to_string()));
    assert_eq!(read_string(None), Err(MissingFlag));
    assert_eq!(
        write_string(Flag::SYSTEMD_TARGETS_TOTAL, "42"),
        Action::WriteFile {
            path: "/data//boot//flags//SYSTEMD_TARGETS_TOTAL".to_string(),
            contents: "42\n".to_string(),
        }
    );
    assert!(is_set(Some("x")));
    assert!(is_set(Some("\n")));
    assert!(!is_set(Some("")));
    assert!(!is_set(None));
}

#[test]
fn flags_file_recovers_from_damage() {
    assert_eq!(Flags::get_flags_file_path(), "/data//boot//flags.ron");
    let none = Flags { first_boot_done: false, systemd_targets_total: None };
    assert_eq!(Flags::default_flags(), none);
    assert_eq!(Flags::read(StoredFlags::Missing), none);
    assert_eq!(
        Flags::read(StoredFlags::Invalid),
        Flags { first_boot_done: true, systemd_targets_total: None }
    );
    let stored = Flags { first_boot_done: true, systemd_targets_total: Some(9) };
    assert_eq!(Flags::read(StoredFlags::Valid(stored)), stored);
    let written = Flags::write(&stored);
    assert_eq!(written.path, "/data//boot//flags.ron");
    assert_eq!(written.flags, stored);
}

#[test]
fn console_messages_are_coloured_by_kind() {
    assert_eq!(info("ok", &MessageType::Info), "\x1b[0;32m * \x1b[0mok");
    assert_eq!(info("hm", &MessageType::Warning), "\x1b[0;33m * \x1b[0mhm");
    assert_eq!(info("no", &MessageType::Error), "\x1b[0;31m * \x1b[0mno");
}

#[test]
fn address_of_an_interface_is_looked_up() {
    let interfaces = vec![
        ("lo".to_string(), "127.0.0.1".to_string()),
        ("wlan0".to_string(), "192.168.1.20".to_string()),
        ("wlan0".to_string(), "fe80::1".to_string()),
    ];
    assert_eq!(get_if_ip_address("wlan0", &interfaces), "192.168.1.20");
    assert_eq!(get_if_ip_address("lo", &interfaces), "127.0.0.1");
    assert_eq!(get_if_ip_address("usb0", &interfaces), "Not found");
    assert_eq!(get_if_ip_address("wlan0", &Vec::new()), "Not found");
}

#[test]
fn soft_reset_removes_the_durable_upper_layer() {
    assert_eq!(soft_reset(), Action::RemoveDirAll { path: "/main/system/rootfs/".to_string() });
}
