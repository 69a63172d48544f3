use libqinit::action::{Action, Command};
use libqinit::boot_config::BootConfig;
use libqinit::debug::{
    boot_file_path, mac_generate_command, prepare_script_login, record_addresses, start_sshd,
    start_usbnet, usb_interface, usbnet_address, usbnet_addresses, usbnet_modules, usbnet_serve,
};
use libqinit::eink::ScreenRotation;
use libqinit::gui::{
    after_compression, boot_normal, brightness_level, brightness_percent,
    determine_power_down_mode, diagnostic_text, handle_screen_refresh, on_progress, opening,
    page_after, rotation_at, rotation_index, set_default_user_from_boot_config,
    set_wallpaper_splash_text, toast_tick, NormalBoot, Opening, Page, Refresh,
    RootFsShutDownCommand, Trim,
};
use libqinit::rootfs::{
    change_user_password, change_user_password_chroot_command, mountpoint, run_chroot_command,
    setup, setup_misc, tear_down, SetupError,
};
use libqinit::rootfs_socket::LoginForm;
use libqinit::signing::{read_public_key, PublicKey};
use libqinit::splash::{
    after_generation, choose_model, generate_wallpaper, particles_amount, wallpaper_command,
    wallpaper_models_list, Generation,
};
use libqinit::storage_encryption::{
    disabled_mode_path, encryption_config_path, get_encryption_user_details,
    get_user_storage_encryption_status, get_users_using_storage_encryption, home_base_path,
    home_mountpoint_path, mount_storage, system_home_path, unmount_storage, user_details,
    AlreadyMounted, HomeEntry, MalformedConfig, UserDetails,
};
use libqinit::system::{BootCommand, BootCommandForm, PowerDownMode, PrimitiveShutDownType};
use libqinit::systemd::Progress;

fn strings(of: &[&str]) -> Vec<String> {
    of.iter().map(|s| s.to_string()).collect()
}

fn run(program: &str, args: &[&str]) -> Action {
    Action::Run { command: Command { program: program.to_string(), args: strings(args) } }
}

fn signed(data: &[u8]) -> (PublicKey, Vec<u8>) {
    let group = openssl::ec::EcGroup::from_curve_name(openssl::nid::Nid::X9_62_PRIME256V1).unwrap();
    let key = openssl::ec::EcKey::generate(&group).unwrap();
    let pkey = openssl::pkey::PKey::from_ec_key(key).unwrap();
    let mut signer =
        openssl::sign::Signer::new(openssl::hash::MessageDigest::sha256(), &pkey).unwrap();
    signer.update(data).unwrap();
    let signature = signer.sign_to_vec().unwrap();
    (read_public_key(pkey.public_key_to_pem().unwrap()).unwrap(), signature)
}

#[test]
fn command_is_run_inside_the_tree() {
    assert_eq!(
        run_chroot_command(&strings(&["/sbin/poweroff", "-f"])),
        run("/usr/sbin/chroot", &["/overlay/", "/sbin/poweroff", "-f"])
    );
    assert_eq!(run_chroot_command(&Vec::new()), run("/usr/sbin/chroot", &["/overlay/"]));
}

#[test]
fn first_boot_is_marked_as_done() {
    let mut config = BootConfig::default_boot_config();
    setup_misc(&mut config);
    let mut expected = BootConfig::default_boot_config();
    expected.flags.first_boot_done = true;
    assert_eq!(config, expected);
    setup_misc(&mut config);
    assert_eq!(config, expected);
}

#[test]
fn password_commands() {
    assert_eq!(
        change_user_password_chroot_command("/overlay/", "alice", "old", "new", true),
        run(
            "/usr/sbin/chroot",
            &[
                "/overlay/",
                "/bin/su",
                "-s",
                "/bin/sh",
                "-c",
                "printf 'old\nnew\nnew' | /usr/bin/passwd alice",
                "alice",
            ]
        )
    );
    assert_eq!(
        change_user_password_chroot_command("/overlay/", "alice", "old", "new", false),
        run(
            "/usr/sbin/chroot",
            &["/overlay/", "/bin/sh", "-c", "printf 'new\nnew' | /usr/bin/passwd alice"]
        )
    );
}

#[test]
fn password_change_goes_through_a_temporary_password() {
    let image = b"image".to_vec();
    let (key, signature) = signed(&image);
    let change =
        change_user_password::<false>(&key, Some(&image), Some(&signature), "alice", "old", "new")
            .unwrap();
    assert_eq!(change.assemble, setup::<false>(&key, Some(&image), Some(&signature), true).unwrap());
    assert_eq!(change.temporary_password.len(), 128);
    assert!(change.temporary_password.chars().all(|c| c.is_ascii_alphanumeric()));
    assert_eq!(
        change.verify,
        change_user_password_chroot_command("/overlay/", "alice", "old", &change.temporary_password, true)
    );
    assert_eq!(
        change.set,
        change_user_password_chroot_command("/overlay/", "alice", &change.temporary_password, "new", false)
    );
    assert_eq!(change.tear_down, tear_down());
    assert_eq!(
        change_user_password::<false>(&key, Some(&image), None, "alice", "old", "new").err(),
        Some(SetupError::InvalidSignature)
    );
    assert_eq!(
        change_user_password::<false>(&key, None, None, "alice", "old", "new").err(),
        Some(SetupError::ImageNotFound)
    );
}

#[test]
fn mountpoints_are_recognised() {
    assert_eq!(mountpoint(&run("mount", &["--rbind", "/a", "/b"])), Some("/b".to_string()));
    assert_eq!(mountpoint(&run("/bin/mount", &["/i.squashfs", "/m"])), Some("/m".to_string()));
    assert_eq!(mountpoint(&run("/usr/bin/fuse-overlayfs", &["-o", "x", "/o"])), Some("/o".to_string()));
    assert_eq!(mountpoint(&run("/bin/sync", &[])), None);
    assert_eq!(mountpoint(&run("/bin/mount", &[])), None);
    assert_eq!(mountpoint(&run("/bin/umount", &["/m"])), None);
    assert_eq!(mountpoint(&Action::CreateDirAll { path: "/m".to_string() }), None);
    assert_eq!(
        mountpoint(&Action::Mount {
            fstype: "proc".to_string(),
            source: "proc".to_string(),
            target: "/proc".to_string(),
            data: None,
        }),
        Some("/proc".to_string())
    );
}

#[test]
fn users_with_encrypted_homes_are_listed() {
    let entry = |name: &str, is_dir: bool, configured: bool| HomeEntry {
        file_name: name.to_string(),
        is_dir,
        configured,
    };
    let entries = vec![
        entry(".alice", true, true),
        entry("alice", true, false),
        entry(".bob", true, true),
        entry(".carol", false, true),
        entry("", true, true),
        entry(".é", true, true),
    ];
    assert_eq!(get_users_using_storage_encryption(&entries), strings(&["alice", "bob", "", "é"]));
    assert_eq!(get_users_using_storage_encryption(&Vec::new()), Vec::<String>::new());
}

#[test]
fn encryption_paths() {
    assert_eq!(system_home_path(), "/main//home/");
    assert_eq!(disabled_mode_path("alice"), "/main//home//.alice/encryption_disabled");
    assert_eq!(encryption_config_path("alice"), "/main//home//.alice/gocryptfs.conf");
    assert_eq!(home_base_path(), "/overlay//home/");
    assert_eq!(home_mountpoint_path("alice"), "/overlay//home//alice");
    assert!(get_user_storage_encryption_status(false));
    assert!(!get_user_storage_encryption_status(true));
}

#[test]
fn encryption_details_are_read_from_the_configuration() {
    let config = r#"{"Creator":"gocryptfs","EncryptedKey":"a2V5","ScryptObject":{"Salt":"c2FsdA==","N":65536},"Version":2}"#;
    assert_eq!(
        get_encryption_user_details(config, true),
        Ok(UserDetails {
            encryption_enabled: true,
            encrypted_key: "a2V5".to_string(),
            salt: "c2FsdA==".to_string(),
        })
    );
    let not_found = |enabled| UserDetails {
        encryption_enabled: enabled,
        encrypted_key: "Not found".to_string(),
        salt: "Not found".to_string(),
    };
    for partial in [
        r#"{"EncryptedKey":"a2V5"}"#,
        r#"{"ScryptObject":{"Salt":"c2FsdA=="}}"#,
        r#"{"EncryptedKey":7,"ScryptObject":{"Salt":"c2FsdA=="}}"#,
        r#"{"EncryptedKey":"a2V5","ScryptObject":{"Salt":null}}"#,
        r#"{"EncryptedKey":"a2V5","ScryptObject":"Salt"}"#,
        r#"[]"#,
        r#"null"#,
    ] {
        assert_eq!(get_encryption_user_details(partial, false), Ok(not_found(false)), "{}", partial);
    }
    assert_eq!(get_encryption_user_details("{", true), Err(MalformedConfig));
    assert_eq!(get_encryption_user_details("", true), Err(MalformedConfig));
    assert_eq!(user_details(true, Some("k".to_string()), None), not_found(true));
}

#[test]
fn encrypted_home_is_mounted_once() {
    assert_eq!(
        mount_storage("alice", "secret", false),
        Ok(run(
            "/bin/sh",
            &[
                "-c",
                "printf 'secret' | /usr/bin/gocryptfs -allow_other /overlay//home//.alice /overlay//home//alice",
            ]
        ))
    );
    assert_eq!(mount_storage("alice", "secret", true), Err(AlreadyMounted));
    assert_eq!(
        unmount_storage("alice"),
        vec![
            run("/bin/sync", &[]),
            Action::Unmount { target: "/overlay//home//alice".to_string(), detach: true, force: true },
        ]
    );
}

#[test]
fn wallpaper_models() {
    assert_eq!(
        wallpaper_models_list(),
        strings(&[
            "flow", "clouds", "islands", "lightning", "nearestpoint", "tangles", "cellularone",
            "squares", "squares2", "nearestgradient", "random",
        ])
    );
    let amounts = [
        ("flow", 5000), ("clouds", 3000), ("islands", 3000), ("lightning", 5000),
        ("nearestpoint", 5000), ("tangles", 5000), ("cellularone", 1000), ("squares", 5000),
        ("squares2", 5000), ("nearestgradient", 1000), ("random", 5000), ("pattern", 1000),
        ("", 1000),
    ];
    for (model, amount) in amounts {
        assert_eq!(particles_amount(model), amount, "{}", model);
    }
}

#[test]
fn configured_model_is_used_and_random_is_drawn_from_the_concrete_ones() {
    assert_eq!(choose_model(Some("clouds")), "clouds");
    assert_eq!(choose_model(Some("made up")), "made up");
    let concrete = &wallpaper_models_list()[..10];
    let mut seen = std::collections::HashSet::new();
    for _ in 0..200 {
        let drawn = choose_model(Some("random"));
        assert!(concrete.contains(&drawn), "{}", drawn);
        seen.insert(drawn);
        assert!(concrete.contains(&choose_model(None)));
    }
    assert!(seen.len() > 1);
}

#[test]
fn wallpaper_generator_command() {
    assert_eq!(
        wallpaper_command("clouds", 1872, 1404, -17),
        Command {
            program: "/qinit_binaries//procedural_wallpapers".to_string(),
            args: strings(&[
                "--mode", "clouds", "--output", "/tmp/splash_wallpaper.png", "-w", "1872", "-h",
                "1404", "-s", "-17", "-f", "3000",
            ]),
        }
    );
    let (seed, command) = generate_wallpaper("flow", 1872, 1404);
    assert_eq!(command, wallpaper_command("flow", 1872, 1404, seed));
    let seeds: std::collections::HashSet<i32> =
        (0..20).map(|_| generate_wallpaper("flow", 1, 1).0).collect();
    assert!(seeds.len() > 1);
}

#[test]
fn generator_is_run_three_times_at_most() {
    assert_eq!(after_generation(0, true), Generation::Done);
    assert_eq!(after_generation(0, false), Generation::Again);
    assert_eq!(after_generation(1, false), Generation::Again);
    assert_eq!(after_generation(2, false), Generation::Failed);
    assert_eq!(after_generation(2, true), Generation::Done);
    assert_eq!(after_generation(255, false), Generation::Failed);
}

#[test]
fn mac_addresses_come_from_the_configuration_or_are_generated() {
    let mut config = BootConfig::default_boot_config();
    assert_eq!(usbnet_addresses(&config), None);
    config.debug = Some(libqinit::boot_config::Debug {
        usbnet_host_mac_address: Some("02:aa".to_string()),
        usbnet_dev_mac_address: None,
    });
    assert_eq!(usbnet_addresses(&config), None);
    config.debug = Some(libqinit::boot_config::Debug {
        usbnet_host_mac_address: Some("02:aa".to_string()),
        usbnet_dev_mac_address: Some(String::new()),
    });
    assert_eq!(usbnet_addresses(&config), None);
    let addresses = record_addresses(&mut config, " 02:11:22:33:44:55\n", "06:11:22:33:44:55 \n");
    assert_eq!(addresses, ("02:11:22:33:44:55".to_string(), "06:11:22:33:44:55".to_string()));
    assert_eq!(usbnet_addresses(&config), Some(addresses));
    assert_eq!(mac_generate_command().program, "/bin/sh");
    assert_eq!(mac_generate_command().args[0], "-c");
    assert!(mac_generate_command().args[1].contains("/dev/urandom"));
}

#[test]
fn usb_network_modules_and_interface() {
    assert_eq!(
        usbnet_modules("02:aa", "06:bb"),
        vec![
            run("/sbin/modprobe", &["phy-rockchip-inno-usb2"]),
            run("/sbin/modprobe", &["g_ether", "host_addr=02:aa", "dev_addr=06:bb"]),
        ]
    );
    assert_eq!(usb_interface(&strings(&["lo", "wlan0", "usb0", "usb1"])), Some("usb0".to_string()));
    assert_eq!(usb_interface(&strings(&["lo", "us", "ausb0"])), None);
    assert_eq!(usb_interface(&Vec::new()), None);
}

#[test]
fn user_configuration_of_the_address_server_needs_a_signature() {
    let conf = b"start 10.0.0.2\nend 10.0.0.9\ninterface usb0\n".to_vec();
    let (key, signature) = signed(&conf);
    let up = run("/sbin/ifconfig", &["usb0", "up"]);
    let default = Action::WriteFile {
        path: "/etc/udhcpd.conf".to_string(),
        contents: "start 192.168.2.2\nend 192.168.2.254\ninterface usb0\n".to_string(),
    };
    let copy = Action::CopyFile {
        from: "/data//boot//udhcpd.conf".to_string(),
        to: "/etc/udhcpd.conf".to_string(),
    };
    assert_eq!(
        start_usbnet::<false>(&key, "usb0", Some(&conf), Some(&signature)),
        vec![up.clone(), copy.clone()]
    );
    assert_eq!(start_usbnet::<false>(&key, "usb0", Some(&conf), None), vec![up.clone(), default.clone()]);
    assert_eq!(
        start_usbnet::<false>(&key, "usb0", Some(b"start 6.6.6.6"), Some(&signature)),
        vec![up.clone(), default.clone()]
    );
    assert_eq!(start_usbnet::<false>(&key, "usb0", None, None), vec![up.clone(), default]);
    assert_eq!(start_usbnet::<true>(&key, "usb0", Some(&conf), None), vec![up, copy]);
}

#[test]
fn usb_interface_gets_the_first_address_of_the_configuration() {
    let serve = run("/usr/sbin/udhcpd", &["/etc/udhcpd.conf"]);
    assert_eq!(
        usbnet_address("usb0", "start 10.0.0.2\nend 10.0.0.9\n"),
        Ok(vec![run("/sbin/ifconfig", &["usb0", "10.0.0.2"]), serve.clone()])
    );
    assert_eq!(
        usbnet_address("usb0", "interface usb0\n"),
        Ok(vec![run("/sbin/ifconfig", &["usb0", "192.168.2.2"]), serve.clone()])
    );
    assert_eq!(
        usbnet_address("usb0", "start 1.2.3\nend 1234.1.1.1 x9.9.9.9 8.8.8.8"),
        Ok(vec![run("/sbin/ifconfig", &["usb0", "8.8.8.8"]), serve.clone()])
    );
    assert_eq!(usbnet_serve("usb0", None), vec![run("/sbin/ifconfig", &["usb0", "192.168.2.2"]), serve]);
}

#[test]
fn shell_server_keeps_its_host_key() {
    let serve = run("/usr/sbin/dropbear", &["-p", "2222", "-r", "/data//boot//rsa_hkey", "-B"]);
    assert_eq!(start_sshd(true), vec![serve.clone()]);
    assert_eq!(
        start_sshd(false),
        vec![run("/usr/bin/dropbearkey", &["-t", "rsa", "-f", "/data//boot//rsa_hkey"]), serve]
    );
    assert_eq!(boot_file_path("x"), "/data//boot//x");
}

#[test]
fn login_script_needs_a_signature() {
    let script = b"#!/bin/sh\necho hello\n".to_vec();
    let (key, signature) = signed(&script);
    let copy = Action::CopyFile {
        from: "/data//boot//debug-setup.sh".to_string(),
        to: "/root//.profile".to_string(),
    };
    assert_eq!(prepare_script_login::<false>(&key, Some(&script), Some(&signature)), Some(copy.clone()));
    assert_eq!(prepare_script_login::<false>(&key, Some(&script), None), None);
    assert_eq!(prepare_script_login::<false>(&key, Some(b"rm -rf /"), Some(&signature)), None);
    assert_eq!(prepare_script_login::<false>(&key, None, Some(&signature)), None);
    assert_eq!(prepare_script_login::<true>(&key, Some(&script), None), Some(copy));
}

#[test]
fn error_page_is_never_left() {
    assert_eq!(page_after(Page::Error, Page::BootSplash), Page::Error);
    assert_eq!(page_after(Page::BootSplash, Page::Error), Page::Error);
    assert_eq!(page_after(Page::QuillBoot, Page::UserLogin), Page::UserLogin);
    assert_eq!(page_after(Page::Blank, Page::Blank), Page::Blank);
}

#[test]
fn menu_opens_by_the_state_of_the_configuration() {
    assert_eq!(opening(false, false), Opening::InvalidBootConfig);
    assert_eq!(opening(false, true), Opening::InvalidBootConfig);
    assert_eq!(opening(true, true), Opening::QuillBoot);
    assert_eq!(opening(true, false), Opening::NormalBoot);
}

#[test]
fn normal_boot_in_the_menu() {
    let users = strings(&["alice", "bob"]);
    assert_eq!(boot_normal("alice", false, &users, true), NormalBoot::FirstBoot);
    assert_eq!(boot_normal("alice", true, &users, true), NormalBoot::WaitForLogin);
    assert_eq!(boot_normal("", true, &users, false), NormalBoot::WaitForLogin);
    assert_eq!(boot_normal("", true, &Vec::new(), true), NormalBoot::WaitForLogin);
    let auto = NormalBoot::AutoLogin {
        mount: mount_storage("alice", "ENCRYPTION DISABLED", false).unwrap(),
        login: LoginForm {
            username: "alice".to_string(),
            password: "ENCRYPTION DISABLED".to_string(),
        },
    };
    assert_eq!(boot_normal("alice", true, &users, false), auto);
    assert_eq!(boot_normal("alice", true, &Vec::new(), true), auto);
    assert_eq!(boot_normal("alice", true, &strings(&["bob"]), true), auto);
}

#[test]
fn power_down_mode_and_boot_commands() {
    assert_eq!(determine_power_down_mode(RootFsShutDownCommand::Nothing), PowerDownMode::Normal);
    assert_eq!(determine_power_down_mode(RootFsShutDownCommand::PowerOff), PowerDownMode::RootFS);
    assert_eq!(determine_power_down_mode(RootFsShutDownCommand::Reboot), PowerDownMode::RootFS);
    assert_eq!(on_progress(&Progress::baseline(), RootFsShutDownCommand::PowerOff), None);
    assert_eq!(on_progress(&Progress::after(3, 4), RootFsShutDownCommand::Nothing), None);
    let form = |command| Some(BootCommandForm { command, can_shut_down: true });
    assert_eq!(on_progress(&Progress::ready(), RootFsShutDownCommand::Nothing), form(BootCommand::BootFinished));
    assert_eq!(on_progress(&Progress::after(4, 4), RootFsShutDownCommand::PowerOff), form(BootCommand::PowerOffRootFS));
    assert_eq!(on_progress(&Progress::ready(), RootFsShutDownCommand::Reboot), form(BootCommand::RebootRootFS));
}

#[test]
fn notices_age_and_go() {
    assert_eq!(toast_tick(false, 0), Some(100));
    assert_eq!(toast_tick(false, 4900), Some(5000));
    assert_eq!(toast_tick(false, 4901), None);
    assert_eq!(toast_tick(false, 5000), None);
    assert_eq!(toast_tick(false, i32::MAX), None);
    assert_eq!(toast_tick(false, i32::MIN), Some(i32::MIN + 100));
    assert_eq!(toast_tick(true, 4950), Some(4950));
}

#[test]
fn splash_texts_and_refresh() {
    assert_eq!(set_wallpaper_splash_text(&PrimitiveShutDownType::PowerOff), ("Powered off".to_string(), true));
    assert_eq!(set_wallpaper_splash_text(&PrimitiveShutDownType::Reboot), ("Rebooting".to_string(), false));
    assert_eq!(set_wallpaper_splash_text(&PrimitiveShutDownType::Sleep), ("Sleeping".to_string(), false));
    assert_eq!(
        handle_screen_refresh(true),
        Refresh { settle_millis: 2000, raise_flag: true, in_background: true }
    );
    assert_eq!(
        handle_screen_refresh(false),
        Refresh { settle_millis: 0, raise_flag: false, in_background: false }
    );
}

#[test]
fn menu_lists_and_sliders() {
    let mut config = BootConfig::default_boot_config();
    assert_eq!(set_default_user_from_boot_config(&config), None);
    config.system.default_user = Some("alice".to_string());
    assert_eq!(set_default_user_from_boot_config(&config), Some("alice".to_string()));
    let rotations =
        [ScreenRotation::Cw0, ScreenRotation::Cw90, ScreenRotation::Cw180, ScreenRotation::Cw270];
    for (index, rotation) in rotations.iter().enumerate() {
        assert_eq!(rotation_index(*rotation), index as i32);
        assert_eq!(rotation_at(index as i32), *rotation);
    }
    assert_eq!(rotation_at(-1), ScreenRotation::Cw270);
    assert_eq!(rotation_at(4), ScreenRotation::Cw270);
    assert_eq!(brightness_percent(255), 100);
    assert_eq!(brightness_percent(128), 50);
    assert_eq!(brightness_percent(0), 0);
    assert_eq!(brightness_level(100), 255);
    assert_eq!(brightness_level(50), 127);
    assert_eq!(brightness_level(1), 2);
}

#[test]
fn diagnostic_text_holds_the_reason_and_the_ends_of_both_logs() {
    assert_eq!(
        diagnostic_text("Reason: x", "a\nb\nc\n", "k1\nk2", 2),
        "Reason: x\n\nb\nc\n\nk1\nk2"
    );
    assert_eq!(diagnostic_text("r", "a\nb", "c", 0), "r\n\n\n\n");
}

#[test]
fn diagnostic_text_is_cut_down_until_it_fits() {
    assert_eq!(after_compression(100, Some(2563)), Trim::Fits);
    assert_eq!(after_compression(100, Some(0)), Trim::Fits);
    assert_eq!(after_compression(100, Some(2564)), Trim::Again { lines_to_keep: 99 });
    assert_eq!(after_compression(1, Some(9999)), Trim::Again { lines_to_keep: 0 });
    assert_eq!(after_compression(0, Some(9999)), Trim::NotAvailable);
    assert_eq!(after_compression(0, Some(10)), Trim::Fits);
    assert_eq!(after_compression(100, None), Trim::NotAvailable);
    let mut lines = 100;
    let mut attempts = 0;
    loop {
        attempts += 1;
        match after_compression(lines, Some(2000 + 10 * lines)) {
            Trim::Again { lines_to_keep } => lines = lines_to_keep,
            other => {
                assert_eq!(other, Trim::Fits);
                break;
            }
        }
    }
    assert_eq!((lines, attempts), (56, 45));
}
