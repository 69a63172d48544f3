use libqinit::action::{Action, Command};
use libqinit::boot_config::{BootConfig, StoreAction};
use libqinit::orchestrator::{
    after_menu, after_phase, commit_if_changed, error_string, fatal_error_socket_path,
    first_stage, first_stage_handoff, handoff_status, on_fatal_error_report, severity,
    tracking_mode, BootPhase, Course, OverlayStatus, Severity, Tracking, Transition,
};
use libqinit::rootfs::{Assembler, AssemblyState};
use libqinit::signing::read_public_key;
use libqinit::socket::ErrorDetails;
use libqinit::system::BootCommand;

const PHASES: [BootPhase; 13] = [
    BootPhase::BaseSystem,
    BootPhase::Network,
    BootPhase::PublicKey,
    BootPhase::Partitions,
    BootPhase::Firmware,
    BootPhase::Configuration,
    BootPhase::DebugFramework,
    BootPhase::Display,
    BootPhase::Menu,
    BootPhase::Assembly,
    BootPhase::Handoff,
    BootPhase::Tracking,
    BootPhase::Commit,
];

#[test]
fn failures_are_weighed_by_their_phase() {
    assert_eq!(severity(BootPhase::Assembly), Severity::Fatal);
    assert_eq!(severity(BootPhase::Partitions), Severity::Fatal);
    assert_eq!(severity(BootPhase::Configuration), Severity::Fatal);
    assert_eq!(severity(BootPhase::Firmware), Severity::Degraded);
    assert_eq!(severity(BootPhase::Tracking), Severity::Degraded);
    assert_eq!(severity(BootPhase::Network), Severity::Degraded);
    assert_eq!(severity(BootPhase::DebugFramework), Severity::Degraded);
    assert_eq!(severity(BootPhase::Shutdown), Severity::BestEffort);
}

#[test]
fn a_boot_without_failures_goes_through_every_phase() {
    let mut phase = BootPhase::BaseSystem;
    let mut seen = vec![phase];
    loop {
        match after_phase(phase, true) {
            Transition::Continue { next: Some(next), notice } => {
                assert!(!notice);
                phase = next;
                seen.push(phase);
            }
            Transition::Continue { next: None, .. } => break,
            Transition::Halt { .. } => panic!("halted after success"),
        }
    }
    assert_eq!(seen, PHASES.to_vec());
}

#[test]
fn fatal_failure_halts_and_degraded_failure_goes_on_with_a_notice() {
    assert_eq!(
        after_phase(BootPhase::Assembly, false),
        Transition::Halt { failed: BootPhase::Assembly }
    );
    assert_eq!(
        after_phase(BootPhase::Firmware, false),
        Transition::Continue { next: Some(BootPhase::Configuration), notice: true }
    );
    assert_eq!(
        after_phase(BootPhase::Tracking, false),
        Transition::Continue { next: Some(BootPhase::Commit), notice: true }
    );
    assert_eq!(
        after_phase(BootPhase::Shutdown, false),
        Transition::Continue { next: None, notice: false }
    );
    for phase in PHASES {
        let halts = matches!(after_phase(phase, false), Transition::Halt { .. });
        assert_eq!(halts, severity(phase) == Severity::Fatal);
    }
}

#[test]
fn normal_boot_without_changes_shows_the_splash_and_resumes() {
    let original = BootConfig::default_boot_config();
    let decision = after_menu(&original, original.clone(), BootCommand::NormalBoot);
    assert_eq!(decision.boot_config, original);
    assert_eq!(decision.command, BootCommand::NormalBoot);
    assert_eq!(decision.toast, None);
    assert!(decision.show_splash);
    assert!(decision.store.is_empty());
    assert_eq!(decision.course, Course::ResumeBoot);
}

#[test]
fn change_of_storage_turns_a_normal_boot_into_a_reboot() {
    let mut original = BootConfig::default_boot_config();
    original.rootfs.systemd_targets_total = Some(30);
    let mut changed = original.clone();
    changed.rootfs.persistent_storage = false;
    let decision = after_menu(&original, changed.clone(), BootCommand::NormalBoot);
    let mut expected = changed.clone();
    expected.rootfs.systemd_targets_total = None;
    assert_eq!(decision.boot_config, expected);
    assert_eq!(decision.command, BootCommand::Reboot);
    assert_eq!(decision.toast, Some("Applying changes".to_string()));
    assert!(!decision.show_splash);
    assert_eq!(decision.store, BootConfig::write(&expected, false));
    assert_eq!(decision.course, Course::Reboot);
}

#[test]
fn power_off_commits_what_the_menu_changed() {
    let original = BootConfig::default_boot_config();
    let mut changed = original.clone();
    changed.system.recovery_features = false;
    let decision = after_menu(&original, changed.clone(), BootCommand::PowerOff);
    assert_eq!(decision.course, Course::PowerOff);
    assert_eq!(decision.toast, None);
    assert!(!decision.show_splash);
    assert_eq!(
        decision.store,
        vec![
            StoreAction::RemoveFile { path: "/boot//boot_config.ron.new".to_string() },
            StoreAction::Write { path: "/boot//boot_config.ron".to_string(), config: changed },
        ]
    );
    let unchanged = after_menu(&original, original.clone(), BootCommand::Reboot);
    assert!(unchanged.store.is_empty());
    assert_eq!(unchanged.course, Course::Reboot);
}

#[test]
fn normal_boot_with_other_changes_writes_nothing_yet() {
    let original = BootConfig::default_boot_config();
    let mut changed = original.clone();
    changed.system.timezone = "Europe/Paris".to_string();
    let decision = after_menu(&original, changed.clone(), BootCommand::NormalBoot);
    assert!(decision.store.is_empty());
    assert!(decision.show_splash);
    assert_eq!(decision.course, Course::ResumeBoot);
    assert_eq!(commit_if_changed(&original, &changed), BootConfig::write(&changed, false));
    assert_eq!(commit_if_changed(&original, &original), vec![]);
}

#[test]
fn tracker_learns_without_a_total() {
    assert_eq!(tracking_mode(None), Tracking::Learning);
    assert_eq!(tracking_mode(Some(-1)), Tracking::Learning);
    assert_eq!(tracking_mode(Some(0)), Tracking::Following { targets_total: 0 });
    assert_eq!(tracking_mode(Some(31)), Tracking::Following { targets_total: 31 });
}

#[test]
fn second_stage_reports_ready_only_for_a_complete_assembly() {
    for state in [
        AssemblyState::Unverified,
        AssemblyState::Verified,
        AssemblyState::LowerMounted,
        AssemblyState::UpperPrepared,
        AssemblyState::OverlayComposited,
        AssemblyState::AuxMountsBound,
        AssemblyState::TornDown,
    ] {
        assert_eq!(handoff_status(state), None);
    }
    assert_eq!(handoff_status(AssemblyState::Ready), Some(OverlayStatus { ready: true }));
}

#[test]
fn first_stage_binds_the_socket_and_starts_the_second_stage() {
    assert_eq!(
        first_stage(),
        vec![
            Action::RemoveFile { path: "/qinit.sock".to_string() },
            Action::SocketBind { path: "/qinit.sock".to_string() },
            Action::CreateDirAll { path: "/var/log".to_string() },
            Action::Spawn {
                command: Command {
                    program: "/bin/sh".to_string(),
                    args: vec![
                        "-c".to_string(),
                        "/etc/init.d/qinit 2>&1 | tee -a /var/log/qinit.log".to_string(),
                    ],
                },
            },
        ]
    );
}

#[test]
fn first_stage_enters_the_tree_on_a_ready_message_even_if_assembly_is_incomplete() {
    let group = openssl::ec::EcGroup::from_curve_name(openssl::nid::Nid::X9_62_PRIME256V1).unwrap();
    let pkey = openssl::pkey::PKey::from_ec_key(openssl::ec::EcKey::generate(&group).unwrap()).unwrap();
    let key = read_public_key(pkey.public_key_to_pem().unwrap()).unwrap();
    let mut assembler = Assembler::new(false);
    assert!(assembler.verify::<true>(&key, Some(b"image"), None).is_ok());
    for _ in 0..5 {
        assembler.complete();
    }
    assert_eq!(assembler.current_state(), AssemblyState::LowerMounted);
    assert_eq!(handoff_status(assembler.current_state()), None);

    // A second stage that does not keep to the protocol sends the message anyway.
    let premature = OverlayStatus { ready: true };
    assert_eq!(
        first_stage_handoff(premature),
        vec![
            Action::RemoveFile { path: "/qinit.sock".to_string() },
            Action::Chroot { path: "/overlay/".to_string() },
            Action::SetWorkdir { path: "/".to_string() },
            Action::Exec { program: "/sbin/init".to_string() },
        ]
    );
}

#[test]
fn first_stage_stays_where_it_is_without_a_ready_message() {
    assert_eq!(first_stage_handoff(OverlayStatus { ready: false }), vec![]);
}

#[test]
fn fatal_error_report_is_shown_and_the_socket_removed() {
    assert_eq!(fatal_error_socket_path(), "/overlay//run/qinit.sock");
    assert_eq!(
        on_fatal_error_report(Some(ErrorDetails { error_reason: "disk full".to_string() })),
        Some((
            "disk full".to_string(),
            Action::RemoveFile { path: "/overlay//run/qinit.sock".to_string() }
        ))
    );
    assert_eq!(on_fatal_error_report(None), None);
}

#[test]
fn error_description_chains_the_causes() {
    let causes = |c: &[&str]| c.iter().map(|s| s.to_string()).collect::<Vec<_>>();
    assert_eq!(error_string("Failed to mount", &causes(&[])), "Reason: Failed to mount");
    assert_eq!(
        error_string("Failed to mount", &causes(&["No such device"])),
        "Reason: Failed to mount\nCaused by: No such device"
    );
    assert_eq!(
        error_string("a", &causes(&["b", "c"])),
        "Reason: a\nCaused by: bc"
    );
    assert_eq!(error_string("a", &causes(&["", ""])), "Reason: a");
    assert_eq!(error_string("", &causes(&[])), "Reason: ");
}
