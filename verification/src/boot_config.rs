//! The persisted boot configuration.

use crate::eink::ScreenRotation;
use vstd::prelude::*;

verus! {

/// File name of the boot configuration on the boot partition.
pub const BOOT_CONFIG_FILE: &'static str = "boot_config.ron";

/// Suffix of the pending default record.
pub const DEFAULT_BOOT_CONFIG_SUFFIX: &'static str = ".new";

/// Suffix of the copy that is kept of a corrupt record.
pub const BACKUP_SUFFIX: &'static str = ".bak";

#[derive(Debug, Clone, Copy, PartialEq, Eq, Structural)]
pub struct BootFlags {
    pub first_boot_done: bool,
}

#[derive(Debug, Clone, Copy, PartialEq, Eq, Structural)]
pub struct RootFS {
    /// Number of start-up targets counted on an earlier boot of this image.
    pub systemd_targets_total: Option<i32>,
    /// Modification time of the root filesystem image, its fingerprint.
    pub timestamp: i64,
    pub persistent_storage: bool,
}

#[derive(Debug, Clone, PartialEq, Eq)]
pub struct System {
    pub default_user: Option<String>,
    pub timezone: String,
    /// When disabled, the recovery options are hidden from the boot menu.
    pub recovery_features: bool,
    pub initial_screen_rotation: ScreenRotation,
    pub splash_wallpaper: String,
}

/// Settings of the debug framework.
#[derive(Debug, Clone, PartialEq, Eq)]
pub struct Debug {
    pub usbnet_host_mac_address: Option<String>,
    pub usbnet_dev_mac_address: Option<String>,
}

#[derive(Debug, Clone, PartialEq, Eq)]
pub struct BootConfig {
    pub flags: BootFlags,
    pub rootfs: RootFS,
    pub system: System,
    /// Present on devices with the debug framework.
    pub debug: Option<Debug>,
}

/// Model of an optional string.
pub open spec fn opt_view(s: Option<String>) -> Option<Seq<char>> {
    match s {
        Some(s) => Some(s@),
        None => None,
    }
}

/// Mathematical model of [`System`].
pub struct SystemView {
    pub default_user: Option<Seq<char>>,
    pub timezone: Seq<char>,
    pub recovery_features: bool,
    pub initial_screen_rotation: ScreenRotation,
    pub splash_wallpaper: Seq<char>,
}

/// Mathematical model of [`Debug`].
pub struct DebugView {
    pub usbnet_host_mac_address: Option<Seq<char>>,
    pub usbnet_dev_mac_address: Option<Seq<char>>,
}

/// Mathematical model of [`BootConfig`]: the value of every field.
pub struct BootConfigView {
    pub flags: BootFlags,
    pub rootfs: RootFS,
    pub system: SystemView,
    pub debug: Option<DebugView>,
}

impl View for System {
    type V = SystemView;

    open spec fn view(&self) -> SystemView {
        SystemView {
            default_user: opt_view(self.default_user),
            timezone: self.timezone@,
            recovery_features: self.recovery_features,
            initial_screen_rotation: self.initial_screen_rotation,
            splash_wallpaper: self.splash_wallpaper@,
        }
    }
}

impl View for Debug {
    type V = DebugView;

    open spec fn view(&self) -> DebugView {
        DebugView {
            usbnet_host_mac_address: opt_view(self.usbnet_host_mac_address),
            usbnet_dev_mac_address: opt_view(self.usbnet_dev_mac_address),
        }
    }
}

impl View for BootConfig {
    type V = BootConfigView;

    open spec fn view(&self) -> BootConfigView {
        BootConfigView {
            flags: self.flags,
            rootfs: self.rootfs,
            system: self.system@,
            debug: match self.debug {
                Some(d) => Some(d@),
                None => None,
            },
        }
    }
}

/// The configuration of a device that has never booted.
pub open spec fn default_config() -> BootConfigView {
    BootConfigView {
        flags: BootFlags { first_boot_done: false },
        rootfs: RootFS { systemd_targets_total: None, timestamp: 0, persistent_storage: true },
        system: SystemView {
            default_user: None,
            timezone: "UTC"@,
            recovery_features: true,
            initial_screen_rotation: ScreenRotation::Cw270,
            splash_wallpaper: "flow"@,
        },
        debug: None,
    }
}

impl BootConfig {
    /// The configuration of a device that has never booted.
    pub fn default_boot_config() -> (boot_config: BootConfig)
        ensures
            boot_config@ == default_config(),
    {
        BootConfig {
            flags: BootFlags { first_boot_done: false },
            rootfs: RootFS { systemd_targets_total: None, timestamp: 0, persistent_storage: true },
            system: System {
                default_user: None,
                timezone: String::from_str("UTC"),
                recovery_features: true,
                initial_screen_rotation: ScreenRotation::default(),
                splash_wallpaper: String::from_str("flow"),
            },
            debug: None,
        }
    }

    /// Model of [`BootConfig::get_boot_config_path`].
    pub open spec fn config_path(slated_for_restoration: bool) -> Seq<char> {
        let committed = crate::text::slash(crate::BOOT_PART_MOUNTPOINT@, BOOT_CONFIG_FILE@);
        if slated_for_restoration {
            committed + DEFAULT_BOOT_CONFIG_SUFFIX@
        } else {
            committed
        }
    }

    /// Path of the committed record, or of the pending default record when
    /// `slated_for_restoration` is set.
    pub fn get_boot_config_path(slated_for_restoration: bool) -> (path: String)
        ensures
            path@ == Self::config_path(slated_for_restoration),
    {
        let mut path = crate::text::join(crate::BOOT_PART_MOUNTPOINT, BOOT_CONFIG_FILE);
        if slated_for_restoration {
            path.append(DEFAULT_BOOT_CONFIG_SUFFIX);
        }
        path
    }
}

fn duplicate_text(text: &Option<String>) -> (copy: Option<String>)
    ensures
        opt_view(copy) == opt_view(*text),
{
    match text {
        Some(t) => Some(t.clone()),
        None => None,
    }
}

impl BootConfig {
    /// A copy that is equal in every field.
    pub fn duplicate(&self) -> (copy: BootConfig)
        ensures
            copy@ == self@,
    {
        BootConfig {
            flags: self.flags,
            rootfs: self.rootfs,
            system: System {
                default_user: duplicate_text(&self.system.default_user),
                timezone: self.system.timezone.clone(),
                recovery_features: self.system.recovery_features,
                initial_screen_rotation: self.system.initial_screen_rotation,
                splash_wallpaper: self.system.splash_wallpaper.clone(),
            },
            debug: match &self.debug {
                Some(d) => Some(
                    Debug {
                        usbnet_host_mac_address: duplicate_text(&d.usbnet_host_mac_address),
                        usbnet_dev_mac_address: duplicate_text(&d.usbnet_dev_mac_address),
                    },
                ),
                None => None,
            },
        }
    }
}

/// What was found at the path of the committed record.
#[derive(Debug, Clone, PartialEq, Eq)]
pub enum Stored {
    /// There is no file.
    Missing,
    /// The file holds this configuration.
    Valid(BootConfig),
    /// The file holds something else: it is damaged or incomplete.
    Invalid,
}

/// Mathematical model of [`Stored`].
pub enum StoredView {
    Missing,
    Valid(BootConfigView),
    Invalid,
}

impl View for Stored {
    type V = StoredView;

    open spec fn view(&self) -> StoredView {
        match self {
            Stored::Missing => StoredView::Missing,
            Stored::Valid(config) => StoredView::Valid(config@),
            Stored::Invalid => StoredView::Invalid,
        }
    }
}

/// One change to the files that hold the configuration.
#[derive(Debug, Clone, PartialEq, Eq)]
pub enum StoreAction {
    /// Remove the file if it exists.
    RemoveFile { path: String },
    /// Copy `from` over `to`. A copy that fails is reported and the sequence
    /// goes on.
    BackUp { from: String, to: String },
    /// Replace the record at `path` by `config`, in one step: a reader sees
    /// the old record or the new one.
    Write { path: String, config: BootConfig },
}

/// Mathematical model of a [`StoreAction`].
pub enum StoreActionView {
    RemoveFile { path: Seq<char> },
    BackUp { from: Seq<char>, to: Seq<char> },
    Write { path: Seq<char>, config: BootConfigView },
}

impl View for StoreAction {
    type V = StoreActionView;

    open spec fn view(&self) -> StoreActionView {
        match self {
            StoreAction::RemoveFile { path } => StoreActionView::RemoveFile { path: path@ },
            StoreAction::BackUp { from, to } => StoreActionView::BackUp { from: from@, to: to@ },
            StoreAction::Write { path, config } => StoreActionView::Write {
                path: path@,
                config: config@,
            },
        }
    }
}

impl DeepView for StoreAction {
    type V = StoreActionView;

    open spec fn deep_view(&self) -> StoreActionView {
        self@
    }
}

/// What a read returns and asks for.
#[derive(Debug, Clone, PartialEq, Eq)]
pub struct ReadOutcome {
    /// The configuration to boot with.
    pub config: BootConfig,
    /// Whether the stored record could be used. A missing record counts as
    /// usable: the device has not booted before.
    pub valid: bool,
    /// What to do to the files, at once and in order.
    pub actions: Vec<StoreAction>,
}

/// The default configuration with the first boot marked as done. A device
/// whose record is damaged has booted before.
pub open spec fn recovered_config() -> BootConfigView {
    BootConfigView { flags: BootFlags { first_boot_done: true }, ..default_config() }
}

/// Path of the copy that is kept of a damaged record.
pub open spec fn backup_path() -> Seq<char> {
    BootConfig::config_path(false) + BACKUP_SUFFIX@
}

/// Model of [`BootConfig::write`].
pub open spec fn write_plan(config: BootConfigView, slated_for_restoration: bool) -> Seq<
    StoreActionView,
> {
    if slated_for_restoration {
        seq![StoreActionView::Write { path: BootConfig::config_path(true), config }]
    } else {
        seq![
            StoreActionView::RemoveFile { path: BootConfig::config_path(true) },
            StoreActionView::Write { path: BootConfig::config_path(false), config },
        ]
    }
}

/// The configuration that a read returns.
pub open spec fn read_config(stored: StoredView) -> BootConfigView {
    match stored {
        StoredView::Missing => default_config(),
        StoredView::Valid(config) => config,
        StoredView::Invalid => recovered_config(),
    }
}

/// Whether a read reports the stored record as usable.
pub open spec fn read_valid(stored: StoredView) -> bool {
    !(stored is Invalid)
}

/// What a read asks to be done to the files.
pub open spec fn read_actions(stored: StoredView) -> Seq<StoreActionView> {
    match stored {
        StoredView::Missing => write_plan(default_config(), false),
        StoredView::Valid(_) => seq![],
        StoredView::Invalid => seq![
            StoreActionView::BackUp { from: BootConfig::config_path(false), to: backup_path() },
        ] + write_plan(recovered_config(), false),
    }
}

impl BootConfig {
    /// Decides what to boot with, given what was found at the committed
    /// path.
    ///
    /// A record that is there and sound is used as it is. Where there is
    /// none, the defaults are used and committed. A damaged record is copied
    /// aside, and the defaults are used with the first boot marked as done;
    /// they are committed at once, so that a crash right after does not lose
    /// the mark.
    pub fn read(stored: Stored) -> (outcome: ReadOutcome)
        ensures
            outcome.config@ == read_config(stored@),
            outcome.valid == read_valid(stored@),
            outcome.actions.deep_view() == read_actions(stored@),
    {
        match stored {
            Stored::Valid(config) => {
                let actions: Vec<StoreAction> = Vec::new();
                assert(actions.deep_view() =~= Seq::<StoreActionView>::empty());
                ReadOutcome { config, valid: true, actions }
            },
            Stored::Missing => {
                let config = Self::default_boot_config();
                let actions = Self::write(&config, false);
                ReadOutcome { config, valid: true, actions }
            },
            Stored::Invalid => {
                let mut config = Self::default_boot_config();
                config.flags.first_boot_done = true;
                let from = Self::get_boot_config_path(false);
                let to = crate::text::concat2(from.as_str(), BACKUP_SUFFIX);
                let mut actions: Vec<StoreAction> = Vec::new();
                actions.push(StoreAction::BackUp { from, to });
                let ghost backed_up = actions.deep_view();
                let mut write = Self::write(&config, false);
                let ghost written = write.deep_view();
                actions.append(&mut write);
                assert(actions.deep_view() =~= backed_up + written);
                assert(backed_up =~= seq![
                    StoreActionView::BackUp {
                        from: BootConfig::config_path(false),
                        to: backup_path(),
                    },
                ]);
                ReadOutcome { config, valid: false, actions }
            },
        }
    }

    /// The changes that store `boot_config`.
    ///
    /// A record that is `slated_for_restoration` goes to the pending path
    /// and leaves the committed record alone. Any other write first removes
    /// a pending record that may be left, then replaces the committed
    /// record.
    pub fn write(boot_config: &BootConfig, slated_for_restoration: bool) -> (actions: Vec<
        StoreAction,
    >)
        ensures
            actions.deep_view() == write_plan(boot_config@, slated_for_restoration),
    {
        let mut actions: Vec<StoreAction> = Vec::new();
        if !slated_for_restoration {
            actions.push(StoreAction::RemoveFile { path: Self::get_boot_config_path(true) });
        }
        actions.push(
            StoreAction::Write {
                path: Self::get_boot_config_path(slated_for_restoration),
                config: boot_config.duplicate(),
            },
        );
        assert(actions.deep_view() =~= write_plan(boot_config@, slated_for_restoration));
        actions
    }
}

/// What a file holds, as the reader of the configuration sees it.
pub enum FileView {
    /// A record that reads as this configuration.
    Record(BootConfigView),
    /// Anything else, told apart by `id`.
    Damaged { id: int },
}

/// The files by path.
pub type Disk = Map<Seq<char>, FileView>;

/// The files after one change.
pub open spec fn disk_step(disk: Disk, action: StoreActionView) -> Disk {
    match action {
        StoreActionView::RemoveFile { path } => disk.remove(path),
        StoreActionView::BackUp { from, to } => if disk.contains_key(from) {
            disk.insert(to, disk[from])
        } else {
            disk
        },
        StoreActionView::Write { path, config } => disk.insert(path, FileView::Record(config)),
    }
}

/// The files after `actions`, carried out in order.
pub open spec fn disk_after(disk: Disk, actions: Seq<StoreActionView>) -> Disk
    decreases actions.len(),
{
    if actions.len() == 0 {
        disk
    } else {
        disk_step(disk_after(disk, actions.drop_last()), actions.last())
    }
}

/// What a reader finds at the committed path.
pub open spec fn found(disk: Disk) -> StoredView {
    if !disk.contains_key(BootConfig::config_path(false)) {
        StoredView::Missing
    } else {
        match disk[BootConfig::config_path(false)] {
            FileView::Record(config) => StoredView::Valid(config),
            FileView::Damaged { .. } => StoredView::Invalid,
        }
    }
}

/// The files after a read, with what the read asked for carried out.
pub open spec fn disk_after_read(disk: Disk) -> Disk {
    disk_after(disk, read_actions(found(disk)))
}

proof fn lemma_disk_after_one(disk: Disk, a: StoreActionView)
    ensures
        disk_after(disk, seq![a]) == disk_step(disk, a),
{
    reveal_with_fuel(disk_after, 2);
    assert(seq![a].drop_last() =~= Seq::<StoreActionView>::empty());
}

proof fn lemma_disk_after_two(disk: Disk, a: StoreActionView, b: StoreActionView)
    ensures
        disk_after(disk, seq![a, b]) == disk_step(disk_step(disk, a), b),
{
    lemma_disk_after_one(disk, a);
    assert(seq![a, b].drop_last() =~= seq![a]);
}

proof fn lemma_disk_after_three(
    disk: Disk,
    a: StoreActionView,
    b: StoreActionView,
    c: StoreActionView,
)
    ensures
        disk_after(disk, seq![a] + seq![b, c]) == disk_step(disk_step(disk_step(disk, a), b), c),
{
    lemma_disk_after_two(disk, a, b);
    assert((seq![a] + seq![b, c]).drop_last() =~= seq![a, b]);
}

proof fn lemma_paths_differ()
    ensures
        backup_path() != BootConfig::config_path(false),
        backup_path() != BootConfig::config_path(true),
        BootConfig::config_path(true) != BootConfig::config_path(false),
{
    reveal_strlit(".bak");
    reveal_strlit(".new");
    let committed = BootConfig::config_path(false);
    let backup = backup_path();
    let pending = BootConfig::config_path(true);
    assert(backup.len() == committed.len() + 4);
    assert(pending.len() == committed.len() + 4);
    assert(backup[committed.len() as int + 1] == 'b');
    assert(pending[committed.len() as int + 1] == 'n');
}

/// A non-pending write followed by a read returns what was written, equal
/// in every field, and reports it as valid; no pending record is left.
pub proof fn lemma_write_then_read(disk: Disk, config: BootConfigView)
    ensures
        read_config(found(disk_after(disk, write_plan(config, false)))) == config,
        read_valid(found(disk_after(disk, write_plan(config, false)))),
        !disk_after(disk, write_plan(config, false)).contains_key(BootConfig::config_path(true)),
{
    lemma_paths_differ();
    lemma_disk_after_two(
        disk,
        StoreActionView::RemoveFile { path: BootConfig::config_path(true) },
        StoreActionView::Write { path: BootConfig::config_path(false), config },
    );
}

/// A pending write leaves the committed record as it is.
pub proof fn lemma_pending_write_keeps_committed(disk: Disk, config: BootConfigView)
    ensures
        found(disk_after(disk, write_plan(config, true))) == found(disk),
{
    lemma_paths_differ();
    lemma_disk_after_one(
        disk,
        StoreActionView::Write { path: BootConfig::config_path(true), config },
    );
}

/// Two reads with no write between them return the same configuration, and
/// the second finds the files as the first left them.
pub proof fn lemma_read_is_idempotent(disk: Disk)
    ensures
        read_config(found(disk_after_read(disk))) == read_config(found(disk)),
        read_valid(found(disk_after_read(disk))),
        disk_after_read(disk_after_read(disk)) == disk_after_read(disk),
{
    lemma_paths_differ();
    match found(disk) {
        StoredView::Missing => {
            lemma_write_then_read(disk, default_config());
        },
        StoredView::Valid(_) => {},
        StoredView::Invalid => {
            lemma_disk_after_three(
                disk,
                StoreActionView::BackUp { from: BootConfig::config_path(false), to: backup_path() },
                StoreActionView::RemoveFile { path: BootConfig::config_path(true) },
                StoreActionView::Write {
                    path: BootConfig::config_path(false),
                    config: recovered_config(),
                },
            );
            assert(write_plan(recovered_config(), false) =~= seq![
                StoreActionView::RemoveFile { path: BootConfig::config_path(true) },
                StoreActionView::Write {
                    path: BootConfig::config_path(false),
                    config: recovered_config(),
                },
            ]);
        },
    }
}

/// Recovery from a damaged record: the read returns the defaults with the
/// first boot marked as done and reports the record as invalid; afterwards a
/// copy of the damaged file lies at the backup path and the committed path
/// holds the returned configuration.
pub proof fn lemma_corruption_recovery(disk: Disk)
    requires
        found(disk) is Invalid,
    ensures
        read_config(found(disk)) == recovered_config(),
        read_config(found(disk)).flags.first_boot_done,
        !read_valid(found(disk)),
        disk_after_read(disk).contains_key(backup_path()),
        disk_after_read(disk)[backup_path()] == disk[BootConfig::config_path(false)],
        found(disk_after_read(disk)) == StoredView::Valid(recovered_config()),
{
    lemma_paths_differ();
    lemma_disk_after_three(
        disk,
        StoreActionView::BackUp { from: BootConfig::config_path(false), to: backup_path() },
        StoreActionView::RemoveFile { path: BootConfig::config_path(true) },
        StoreActionView::Write { path: BootConfig::config_path(false), config: recovered_config() },
    );
    assert(write_plan(recovered_config(), false) =~= seq![
        StoreActionView::RemoveFile { path: BootConfig::config_path(true) },
        StoreActionView::Write { path: BootConfig::config_path(false), config: recovered_config() },
    ]);
}

fn same_text(a: &Option<String>, b: &Option<String>) -> (equal: bool)
    ensures
        equal == (opt_view(*a) == opt_view(*b)),
{
    match (a, b) {
        (Some(x), Some(y)) => crate::text::same(x.as_str(), y.as_str()),
        (None, None) => true,
        _ => false,
    }
}

fn same_debug(a: &Option<Debug>, b: &Option<Debug>) -> (equal: bool)
    ensures
        equal == (match (*a, *b) {
            (Some(x), Some(y)) => x@ == y@,
            (None, None) => true,
            _ => false,
        }),
{
    match (a, b) {
        (Some(x), Some(y)) => same_text(&x.usbnet_host_mac_address, &y.usbnet_host_mac_address)
            && same_text(&x.usbnet_dev_mac_address, &y.usbnet_dev_mac_address),
        (None, None) => true,
        _ => false,
    }
}

impl BootConfig {
    /// Whether two configurations are equal in every field.
    pub fn same(&self, other: &BootConfig) -> (equal: bool)
        ensures
            equal == (self@ == other@),
    {
        self.flags == other.flags && self.rootfs == other.rootfs && same_text(
            &self.system.default_user,
            &other.system.default_user,
        ) && crate::text::same(self.system.timezone.as_str(), other.system.timezone.as_str())
            && self.system.recovery_features == other.system.recovery_features
            && self.system.initial_screen_rotation == other.system.initial_screen_rotation
            && crate::text::same(
            self.system.splash_wallpaper.as_str(),
            other.system.splash_wallpaper.as_str(),
        ) && same_debug(&self.debug, &other.debug)
    }
}

} // verus!
