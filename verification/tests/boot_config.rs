use libqinit::boot_config::{
    BootConfig, BootFlags, ReadOutcome, RootFS, StoreAction, Stored, System,
};
use libqinit::eink::ScreenRotation;
use std::collections::HashMap;

#[derive(Clone, Debug, PartialEq)]
enum File {
    Record(BootConfig),
    Damaged(Vec<u8>),
}

type Disk = HashMap<String, File>;

const COMMITTED: &str = "/boot//boot_config.ron";
const PENDING: &str = "/boot//boot_config.ron.new";
const BACKUP: &str = "/boot//boot_config.ron.bak";

fn found(disk: &Disk) -> Stored {
    match disk.get(COMMITTED) {
        None => Stored::Missing,
        Some(File::Record(config)) => Stored::Valid(config.clone()),
        Some(File::Damaged(_)) => Stored::Invalid,
    }
}

fn carry_out(disk: &mut Disk, actions: &[StoreAction]) {
    for action in actions {
        match action {
            StoreAction::RemoveFile { path } => {
                disk.remove(path);
            }
            StoreAction::BackUp { from, to } => {
                if let Some(file) = disk.get(from).cloned() {
                    disk.insert(to.clone(), file);
                }
            }
            StoreAction::Write { path, config } => {
                disk.insert(path.clone(), File::Record(config.clone()));
            }
        }
    }
}

fn read(disk: &mut Disk) -> (BootConfig, bool) {
    let ReadOutcome { config, valid, actions } = BootConfig::read(found(disk));
    carry_out(disk, &actions);
    (config, valid)
}

fn sample() -> BootConfig {
    BootConfig {
        flags: BootFlags { first_boot_done: true },
        rootfs: RootFS {
            systemd_targets_total: Some(42),
            timestamp: 1_700_000_000,
            persistent_storage: false,
        },
        system: System {
            default_user: Some("nicolas".to_string()),
            timezone: "America/Toronto".to_string(),
            recovery_features: false,
            initial_screen_rotation: ScreenRotation::Cw90,
            splash_wallpaper: "clouds".to_string(),
        },
        debug: Some(libqinit::boot_config::Debug {
            usbnet_host_mac_address: Some("02:00:00:00:00:01".to_string()),
            usbnet_dev_mac_address: None,
        }),
    }
}

#[test]
fn defaults_are_those_of_a_new_device() {
    let config = BootConfig::default_boot_config();
    assert!(!config.flags.first_boot_done);
    assert!(config.rootfs.persistent_storage);
    assert_eq!(config.rootfs.timestamp, 0);
    assert_eq!(config.rootfs.systemd_targets_total, None);
    assert_eq!(config.system.default_user, None);
    assert_eq!(config.system.timezone, "UTC");
    assert!(config.system.recovery_features);
    assert_eq!(config.system.initial_screen_rotation, ScreenRotation::Cw270);
    assert_eq!(config.system.splash_wallpaper, "flow");
    assert_eq!(config.debug, None);
}

#[test]
fn configuration_paths_are_fixed() {
    assert_eq!(BootConfig::get_boot_config_path(false), COMMITTED);
    assert_eq!(BootConfig::get_boot_config_path(true), PENDING);
}

#[test]
fn two_reads_without_a_write_return_the_same_configuration() {
    let mut starts: Vec<Disk> = vec![Disk::new(), Disk::new(), Disk::new()];
    starts[1].insert(COMMITTED.to_string(), File::Record(sample()));
    starts[2].insert(COMMITTED.to_string(), File::Damaged(b"(flags: (".to_vec()));
    for mut disk in starts {
        let (first, _) = read(&mut disk);
        let after_first = disk.clone();
        let (second, valid) = read(&mut disk);
        assert_eq!(first, second);
        assert!(valid);
        assert_eq!(disk, after_first);
    }
}

#[test]
fn missing_record_yields_committed_defaults() {
    let mut disk = Disk::new();
    disk.insert(PENDING.to_string(), File::Record(sample()));
    let (config, valid) = read(&mut disk);
    assert!(valid);
    assert_eq!(config, BootConfig::default_boot_config());
    assert_eq!(disk.get(COMMITTED), Some(&File::Record(BootConfig::default_boot_config())));
    assert_eq!(disk.get(PENDING), None);
}

#[test]
fn damaged_record_is_backed_up_and_replaced_by_defaults_with_first_boot_done() {
    let damaged = File::Damaged(b"(flags: (first_boot_done: tru".to_vec());
    let mut disk = Disk::new();
    disk.insert(COMMITTED.to_string(), damaged.clone());
    let outcome = BootConfig::read(found(&disk));
    assert!(!outcome.valid);
    let mut expected = BootConfig::default_boot_config();
    expected.flags.first_boot_done = true;
    assert_eq!(outcome.config, expected);
    assert_eq!(
        outcome.actions,
        vec![
            StoreAction::BackUp { from: COMMITTED.to_string(), to: BACKUP.to_string() },
            StoreAction::RemoveFile { path: PENDING.to_string() },
            StoreAction::Write { path: COMMITTED.to_string(), config: expected.clone() },
        ]
    );
    carry_out(&mut disk, &outcome.actions);
    assert_eq!(disk.get(BACKUP), Some(&damaged));
    assert_eq!(disk.get(COMMITTED), Some(&File::Record(expected)));
}

#[test]
fn sound_record_is_used_as_it_is() {
    let outcome = BootConfig::read(Stored::Valid(sample()));
    assert!(outcome.valid);
    assert_eq!(outcome.config, sample());
    assert!(outcome.actions.is_empty());
}

#[test]
fn write_then_read_returns_every_field() {
    for config in [sample(), BootConfig::default_boot_config()] {
        let mut disk = Disk::new();
        disk.insert(COMMITTED.to_string(), File::Damaged(Vec::new()));
        disk.insert(PENDING.to_string(), File::Record(BootConfig::default_boot_config()));
        carry_out(&mut disk, &BootConfig::write(&config, false));
        assert_eq!(disk.get(PENDING), None);
        let (back, valid) = read(&mut disk);
        assert!(valid);
        assert_eq!(back, config);
    }
}

#[test]
fn pending_write_leaves_the_committed_record_alone() {
    let mut disk = Disk::new();
    disk.insert(COMMITTED.to_string(), File::Record(sample()));
    let actions = BootConfig::write(&BootConfig::default_boot_config(), true);
    assert_eq!(
        actions,
        vec![StoreAction::Write {
            path: PENDING.to_string(),
            config: BootConfig::default_boot_config(),
        }]
    );
    carry_out(&mut disk, &actions);
    assert_eq!(disk.get(COMMITTED), Some(&File::Record(sample())));
    assert_eq!(disk.get(PENDING), Some(&File::Record(BootConfig::default_boot_config())));
}

#[test]
fn duplicate_and_same_agree_with_equality() {
    let config = sample();
    let copy = config.duplicate();
    assert_eq!(copy, config);
    assert!(copy.same(&config));
    let mut other = sample();
    other.system.timezone = "UTC".to_string();
    assert!(!other.same(&config));
    let mut other = sample();
    other.debug = None;
    assert!(!other.same(&config));
    let mut other = sample();
    other.system.default_user = None;
    assert!(!other.same(&config));
    let mut other = sample();
    other.rootfs.timestamp += 1;
    assert!(!other.same(&config));
}
