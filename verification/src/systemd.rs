//! The readiness tracker: start-up progress as read from the kernel log.
//!
//! The service manager writes one line to the kernel log for every target
//! that it reaches, and one when start-up has finished. Counting the former
//! on a first boot tells how many to expect on the next.

use crate::boot_config::{BootConfig, RootFS};
use crate::text::{contains, str_contains};
use vstd::prelude::*;

verus! {

/// What marks a line that reports a reached target.
pub const REACHED_TARGET_MAGIC: &'static str = "systemd[1]: Reached target";

/// What marks the line that reports the end of start-up.
pub const STARTUP_COMPLETE_MAGIC: &'static str = "systemd[1]: Startup finished in";

/// What a line of the kernel log says about start-up.
#[derive(Debug, Clone, Copy, PartialEq, Eq, Structural)]
pub enum Marker {
    ReachedTarget,
    StartupFinished,
    Other,
}

/// What `line` says about start-up. A line that holds both marks counts as a
/// reached target.
pub open spec fn marker_of(line: Seq<char>) -> Marker {
    if contains(line, REACHED_TARGET_MAGIC@) {
        Marker::ReachedTarget
    } else if contains(line, STARTUP_COMPLETE_MAGIC@) {
        Marker::StartupFinished
    } else {
        Marker::Other
    }
}

/// What `line` says about start-up.
pub fn classify(line: &str) -> (marker: Marker)
    ensures
        marker == marker_of(line@),
{
    if str_contains(line, REACHED_TARGET_MAGIC) {
        Marker::ReachedTarget
    } else if str_contains(line, STARTUP_COMPLETE_MAGIC) {
        Marker::StartupFinished
    } else {
        Marker::Other
    }
}

/// Number of reached targets that `lines` report before the first line that
/// reports the end of start-up.
pub open spec fn targets_counted(lines: Seq<Seq<char>>) -> nat
    decreases lines.len(),
{
    if lines.len() == 0 {
        0
    } else {
        match marker_of(lines.first()) {
            Marker::ReachedTarget => 1 + targets_counted(lines.drop_first()),
            Marker::StartupFinished => 0,
            Marker::Other => targets_counted(lines.drop_first()),
        }
    }
}

/// Number of reached targets that `lines` report.
pub open spec fn targets_reached(lines: Seq<Seq<char>>) -> nat
    decreases lines.len(),
{
    if lines.len() == 0 {
        0
    } else {
        targets_reached(lines.drop_last()) + if marker_of(lines.last()) == Marker::ReachedTarget {
            1nat
        } else {
            0nat
        }
    }
}

/// Progress of start-up as an exact fraction between zero and one.
#[derive(Debug, Clone, Copy, PartialEq, Eq)]
pub struct Progress {
    numerator: u64,
    denominator: u64,
}

/// The value of `baseline + (seen / total) * (1 - baseline)` with a baseline
/// of one tenth, held between the baseline and one, as numerator and
/// denominator. Without an expected total the first reached target already
/// fills the bar; a negative total never moves it.
pub open spec fn progress_fraction(seen: nat, total: int) -> (nat, nat) {
    if total > 0 {
        (
            if total + 9 * seen < 10 * total {
                (total + 9 * seen) as nat
            } else {
                (10 * total) as nat
            },
            (10 * total) as nat,
        )
    } else if total == 0 && seen > 0 {
        (1, 1)
    } else {
        (1, 10)
    }
}

/// Whether the fraction `a` is at most the fraction `b`.
pub open spec fn fraction_le(a: (nat, nat), b: (nat, nat)) -> bool {
    a.0 * b.1 <= b.0 * a.1
}

impl Progress {
    #[verifier::type_invariant]
    spec fn proper(&self) -> bool {
        0 < self.denominator && self.numerator <= self.denominator
    }

    /// Numerator and denominator.
    pub closed spec fn fraction(&self) -> (nat, nat) {
        (self.numerator as nat, self.denominator as nat)
    }

    /// Whether this is exactly one: start-up is complete.
    pub open spec fn complete(&self) -> bool {
        self.fraction().0 == self.fraction().1
    }

    pub fn numerator(&self) -> (n: u64)
        ensures
            n == self.fraction().0,
    {
        self.numerator
    }

    pub fn denominator(&self) -> (d: u64)
        ensures
            d == self.fraction().1,
            d > 0,
            self.fraction().0 <= d,
    {
        proof {
            use_type_invariant(self);
        }
        self.denominator
    }

    /// Nothing yet: the sign to show the boot splash.
    pub fn zero() -> (p: Progress)
        ensures
            p.fraction() == (0nat, 1nat),
    {
        Progress { numerator: 0, denominator: 1 }
    }

    /// The overlay is mounted; nothing finer is known yet.
    pub fn baseline() -> (p: Progress)
        ensures
            p.fraction() == (1nat, 10nat),
    {
        Progress { numerator: 1, denominator: 10 }
    }

    /// Start-up is complete.
    pub fn ready() -> (p: Progress)
        ensures
            p.fraction() == (1nat, 1nat),
            p.complete(),
    {
        Progress { numerator: 1, denominator: 1 }
    }

    /// Progress once `seen` of `targets_total` expected targets are reached.
    pub fn after(seen: u64, targets_total: i32) -> (p: Progress)
        ensures
            p.fraction() == progress_fraction(seen as nat, targets_total as int),
    {
        if targets_total > 0 {
            let total: u64 = targets_total as u64;
            let full: u64 = 10 * total;
            if seen < total {
                Progress { numerator: total + 9 * seen, denominator: full }
            } else {
                Progress { numerator: full, denominator: full }
            }
        } else if targets_total == 0 && seen > 0 {
            Progress::ready()
        } else {
            Progress::baseline()
        }
    }

    /// Whether this is exactly one.
    pub fn is_complete(&self) -> (complete: bool)
        ensures
            complete == self.complete(),
    {
        self.numerator == self.denominator
    }
}

/// Progress never goes back while targets are reached, and stays between
/// the baseline and one.
pub proof fn lemma_progress_monotone(earlier: nat, later: nat, total: int)
    requires
        earlier <= later,
    ensures
        fraction_le(progress_fraction(earlier, total), progress_fraction(later, total)),
        fraction_le((1, 10), progress_fraction(earlier, total)),
        fraction_le(progress_fraction(later, total), (1, 1)),
        progress_fraction(later, total).1 > 0,
{
    let e = progress_fraction(earlier, total);
    let l = progress_fraction(later, total);
    if total > 0 {
        assert(e.1 == l.1);
        assert(e.0 <= l.0);
        assert(e.0 * l.1 <= l.0 * e.1) by (nonlinear_arith)
            requires
                e.0 <= l.0,
                e.1 == l.1,
        ;
        assert(1 * e.1 <= e.0 * 10) by (nonlinear_arith)
            requires
                e.0 >= total,
                e.1 == 10 * total,
        ;
        assert(l.0 * 1 <= 1 * l.1) by (nonlinear_arith)
            requires
                l.0 <= l.1,
        ;
    } else {
        assert(e.0 * l.1 <= l.0 * e.1) by (nonlinear_arith)
            requires
                e.0 == 1,
                l.0 == 1,
                l.1 <= e.1,
        ;
        assert(1 * e.1 <= e.0 * 10) by (nonlinear_arith)
            requires
                e.0 == 1,
                e.1 <= 10,
        ;
        assert(l.0 * 1 <= 1 * l.1) by (nonlinear_arith)
            requires
                l.0 <= l.1,
        ;
    }
}

/// The fraction is the formula's value: for a positive total that is not
/// yet exceeded, `numerator / denominator` is one tenth plus nine tenths of
/// `seen / total`, which is `(total + 9 * seen) / (10 * total)`; once the
/// total is met or exceeded it is exactly one.
pub proof fn lemma_progress_formula(seen: nat, total: int)
    requires
        total > 0,
    ensures
        seen < total ==> progress_fraction(seen, total).0 * (10 * total) == progress_fraction(
            seen,
            total,
        ).1 * (total + 9 * seen),
        seen >= total ==> progress_fraction(seen, total).0 == progress_fraction(seen, total).1,
        seen == 0 ==> progress_fraction(seen, total).0 * 10 == progress_fraction(seen, total).1,
{
    let f = progress_fraction(seen, total);
    if seen < total {
        assert(f.0 * (10 * total) == f.1 * (total + 9 * seen)) by (nonlinear_arith)
            requires
                f.0 == total + 9 * seen,
                f.1 == 10 * total,
        ;
    }
}

/// Counts reached targets in a stream of kernel log lines until start-up
/// has finished.
#[derive(Debug)]
pub struct TargetCounter {
    count: i32,
    finished: bool,
}

impl TargetCounter {
    #[verifier::type_invariant]
    spec fn counted(&self) -> bool {
        self.count >= 0
    }

    /// Number of reached targets seen.
    pub closed spec fn count(&self) -> int {
        self.count as int
    }

    /// Whether the end of start-up was seen.
    pub closed spec fn finished(&self) -> bool {
        self.finished
    }

    pub fn new() -> (counter: TargetCounter)
        ensures
            counter.count() == 0,
            !counter.finished(),
    {
        TargetCounter { count: 0, finished: false }
    }

    /// Takes note of the next line. Lines after the end of start-up are
    /// ignored.
    pub fn observe(&mut self, line: &str)
        requires
            old(self).count() < i32::MAX,
        ensures
            0 <= final(self).count(),
            old(self).finished() ==> final(self).finished() && final(self).count() == old(
                self,
            ).count(),
            !old(self).finished() ==> match marker_of(line@) {
                Marker::ReachedTarget => !final(self).finished() && final(self).count() == old(
                    self,
                ).count() + 1,
                Marker::StartupFinished => final(self).finished() && final(self).count() == old(
                    self,
                ).count(),
                Marker::Other => !final(self).finished() && final(self).count() == old(
                    self,
                ).count(),
            },
    {
        proof {
            use_type_invariant(&*self);
        }
        if !self.finished {
            match classify(line) {
                Marker::ReachedTarget => {
                    self.count = self.count + 1;
                },
                Marker::StartupFinished => {
                    self.finished = true;
                },
                Marker::Other => {},
            }
        }
    }

    /// Number of reached targets seen.
    pub fn targets(&self) -> (count: i32)
        ensures
            count == self.count(),
            count >= 0,
    {
        proof {
            use_type_invariant(self);
        }
        self.count
    }

    /// Whether the end of start-up was seen.
    pub fn is_finished(&self) -> (finished: bool)
        ensures
            finished == self.finished(),
    {
        self.finished
    }
}

/// Most lines that one count takes.
pub const MAX_LINES: usize = 0x7fff_fffe;

/// Counts the reached targets that `lines` report up to the end of start-up.
///
/// On a `learning` boot, one without a recorded total, the count is recorded
/// in `boot_config` for the next boot and progress is reported as complete.
/// Otherwise `boot_config` is left alone and nothing is reported.
pub fn wait_and_count_targets(
    lines: &Vec<String>,
    boot_config: &mut BootConfig,
    learning: bool,
) -> (outcome: (i32, Option<Progress>))
    requires
        lines.len() <= MAX_LINES,
    ensures
        outcome.0 == targets_counted(lines.deep_view()),
        final(boot_config).flags == old(boot_config).flags,
        final(boot_config).system == old(boot_config).system,
        final(boot_config).debug == old(boot_config).debug,
        final(boot_config).rootfs.timestamp == old(boot_config).rootfs.timestamp,
        final(boot_config).rootfs.persistent_storage == old(boot_config).rootfs.persistent_storage,
        learning ==> final(boot_config).rootfs.systemd_targets_total == Some(outcome.0),
        learning ==> (outcome.1 matches Some(p) && p.complete()),
        !learning ==> final(boot_config).rootfs.systemd_targets_total == old(
            boot_config,
        ).rootfs.systemd_targets_total && outcome.1 is None,
{
    let ghost all = lines.deep_view();
    let mut counter = TargetCounter::new();
    let mut i: usize = 0;
    assert(all.skip(0) =~= all);
    while i < lines.len() && !counter.is_finished()
        invariant
            i <= lines.len() <= MAX_LINES,
            all == lines.deep_view(),
            0 <= counter.count() <= i,
            counter.finished() ==> counter.count() == targets_counted(all),
            !counter.finished() ==> counter.count() + targets_counted(all.skip(i as int))
                == targets_counted(all),
        decreases lines.len() - i,
    {
        proof {
            assert(all.skip(i as int).first() == lines[i as int]@);
            assert(all.skip(i as int).drop_first() =~= all.skip(i + 1));
        }
        counter.observe(lines[i].as_str());
        i += 1;
    }
    let count = counter.targets();
    if learning {
        boot_config.rootfs.systemd_targets_total = Some(count);
        (count, Some(Progress::ready()))
    } else {
        (count, None)
    }
}

/// Follows start-up against an expected number of targets.
#[derive(Debug)]
pub struct ProgressTracker {
    targets_total: i32,
    seen: u64,
}

impl ProgressTracker {
    /// Number of targets expected.
    pub closed spec fn targets_total(&self) -> int {
        self.targets_total as int
    }

    /// Number of reached targets seen.
    pub closed spec fn seen(&self) -> nat {
        self.seen as nat
    }

    pub fn new(targets_total: i32) -> (tracker: ProgressTracker)
        ensures
            tracker.targets_total() == targets_total,
            tracker.seen() == 0,
    {
        ProgressTracker { targets_total, seen: 0 }
    }

    /// Number of reached targets seen.
    pub fn targets_seen(&self) -> (seen: u64)
        ensures
            seen == self.seen(),
    {
        self.seen
    }

    /// Takes note of the next line and gives the progress to report if the
    /// line reports a reached target. The end-of-start-up line is not acted
    /// on here: the expected total may be out of date, so the tracker runs
    /// until it is told that the recount has finished.
    pub fn on_line(&mut self, line: &str) -> (report: Option<Progress>)
        requires
            old(self).seen() < u64::MAX,
        ensures
            final(self).targets_total() == old(self).targets_total(),
            marker_of(line@) == Marker::ReachedTarget ==> final(self).seen() == old(self).seen()
                + 1,
            marker_of(line@) == Marker::ReachedTarget ==> (report matches Some(p) && p.fraction()
                == progress_fraction(final(self).seen(), final(self).targets_total())),
            marker_of(line@) != Marker::ReachedTarget ==> final(self).seen() == old(self).seen()
                && report is None,
    {
        match classify(line) {
            Marker::ReachedTarget => {
                self.seen = self.seen + 1;
                Some(Progress::after(self.seen, self.targets_total))
            },
            _ => None,
        }
    }

    /// Ends the tracking once the recount has finished with
    /// `fresh_targets_count`. A recorded total that the recount contradicts
    /// is replaced. The last report is complete progress, whatever was seen.
    pub fn finish(self, boot_config: &mut BootConfig, fresh_targets_count: i32) -> (last: Progress)
        ensures
            last.complete(),
            last.fraction() == (1nat, 1nat),
            *final(boot_config) == reconciled(*old(boot_config), fresh_targets_count),
    {
        reconcile(boot_config, fresh_targets_count);
        Progress::ready()
    }
}

/// `boot_config` after a recount: a recorded total gives way to the fresh
/// count; where none was recorded, none is.
pub open spec fn reconciled(boot_config: BootConfig, fresh_targets_count: i32) -> BootConfig {
    match boot_config.rootfs.systemd_targets_total {
        Some(_) => BootConfig {
            rootfs: RootFS {
                systemd_targets_total: Some(fresh_targets_count),
                ..boot_config.rootfs
            },
            ..boot_config
        },
        None => boot_config,
    }
}

/// Replaces a recorded total that a recount contradicts.
pub fn reconcile(boot_config: &mut BootConfig, fresh_targets_count: i32)
    ensures
        *final(boot_config) == reconciled(*old(boot_config), fresh_targets_count),
{
    if let Some(old_targets_count) = boot_config.rootfs.systemd_targets_total {
        if fresh_targets_count != old_targets_count {
            boot_config.rootfs.systemd_targets_total = Some(fresh_targets_count);
        }
    }
}

/// Reports of a start-up during which `reached` targets were reached:
/// one after each target, then complete progress.
pub open spec fn reports_for(reached: nat, total: int) -> Seq<(nat, nat)> {
    Seq::new(
        reached + 1,
        |k: int|
            if k < reached {
                progress_fraction((k + 1) as nat, total)
            } else {
                (1nat, 1nat)
            },
    )
}

/// The reports of a start-up never go back, each one after a reached
/// target is the value of the formula for the targets reached so far, and
/// the last one is exactly one, whether fewer targets were reached than
/// expected, as many, or more.
pub proof fn lemma_reports_never_go_back(reached: nat, total: int)
    ensures
        reports_for(reached, total).len() == reached + 1,
        forall|k: int|
            0 <= k < reached ==> #[trigger] reports_for(reached, total)[k] == progress_fraction(
                (k + 1) as nat,
                total,
            ),
        reports_for(reached, total).last() == (1nat, 1nat),
        forall|i: int, j: int|
            0 <= i <= j <= reached ==> fraction_le(
                #[trigger] reports_for(reached, total)[i],
                #[trigger] reports_for(reached, total)[j],
            ),
        forall|k: int|
            0 <= k <= reached ==> fraction_le((1, 10), #[trigger] reports_for(reached, total)[k])
                && fraction_le(reports_for(reached, total)[k], (1, 1)),
{
    let reports = reports_for(reached, total);
    assert forall|i: int, j: int| 0 <= i <= j <= reached implies fraction_le(
        #[trigger] reports[i],
        #[trigger] reports[j],
    ) by {
        if j < reached {
            lemma_progress_monotone((i + 1) as nat, (j + 1) as nat, total);
        } else if i < reached {
            lemma_progress_monotone((i + 1) as nat, (i + 1) as nat, total);
        }
    }
    assert forall|k: int| 0 <= k <= reached implies fraction_le((1, 10), #[trigger] reports[k])
        && fraction_le(reports[k], (1, 1)) by {
        if k < reached {
            lemma_progress_monotone((k + 1) as nat, (k + 1) as nat, total);
        }
    }
}

/// The fractions of `reports`.
pub open spec fn fractions(reports: Seq<Progress>) -> Seq<(nat, nat)> {
    Seq::new(reports.len(), |k: int| reports[k].fraction())
}

/// Follows a start-up for which `targets_total` targets are expected.
///
/// `lines` are the kernel log lines that came in until the recount had
/// finished, `fresh_targets_count` what the recount found. Gives the progress
/// reports in order: one after each reached target, computed against the
/// expected total, and complete progress at the end, whether or not the
/// expected total was met. The reports never go back.
pub fn wait_for_targets(
    boot_config: &mut BootConfig,
    targets_total: i32,
    lines: &Vec<String>,
    fresh_targets_count: i32,
) -> (reports: Vec<Progress>)
    ensures
        fractions(reports@) == reports_for(
            targets_reached(lines.deep_view()),
            targets_total as int,
        ),
        reports@.last().complete(),
        forall|i: int, j: int|
            0 <= i <= j < reports.len() ==> fraction_le(
                #[trigger] reports[i].fraction(),
                #[trigger] reports[j].fraction(),
            ),
        *final(boot_config) == reconciled(*old(boot_config), fresh_targets_count),
{
    let ghost all = lines.deep_view();
    let mut tracker = ProgressTracker::new(targets_total);
    let mut reports: Vec<Progress> = Vec::new();
    let mut i: usize = 0;
    assert(all.take(0) =~= Seq::<Seq<char>>::empty());
    while i < lines.len()
        invariant
            i <= lines.len(),
            all == lines.deep_view(),
            tracker.targets_total() == targets_total,
            tracker.seen() == targets_reached(all.take(i as int)),
            tracker.seen() <= i,
            reports.len() == tracker.seen(),
            forall|k: int|
                0 <= k < reports.len() ==> (#[trigger] reports[k]).fraction() == progress_fraction(
                    (k + 1) as nat,
                    targets_total as int,
                ),
        decreases lines.len() - i,
    {
        proof {
            assert(all.take(i + 1).drop_last() =~= all.take(i as int));
            assert(all.take(i + 1).last() == lines[i as int]@);
        }
        match tracker.on_line(lines[i].as_str()) {
            Some(report) => {
                reports.push(report);
            },
            None => {},
        }
        i += 1;
    }
    assert(all.take(lines.len() as int) =~= all);
    let ghost reached = tracker.seen();
    let last = tracker.finish(boot_config, fresh_targets_count);
    reports.push(last);
    proof {
        assert(fractions(reports@) =~= reports_for(reached, targets_total as int));
        assert forall|i: int, j: int| 0 <= i <= j < reports.len() implies fraction_le(
            #[trigger] reports[i].fraction(),
            #[trigger] reports[j].fraction(),
        ) by {
            if j < reached {
                lemma_progress_monotone((i + 1) as nat, (j + 1) as nat, targets_total as int);
            } else if i < reached {
                lemma_progress_monotone((i + 1) as nat, (i + 1) as nat, targets_total as int);
            }
        }
    }
    reports
}

/// The expected number of targets, if the record can be relied on.
///
/// `current_rootfs_timestamp` is the modification time of the root
/// filesystem image, `None` if there is no image. A total that was counted
/// for another image says nothing about this one: when the fingerprints
/// differ the answer is `None` even if a total is recorded, and the new
/// fingerprint is recorded for the next boot.
pub fn get_targets_total(boot_config: &mut BootConfig, current_rootfs_timestamp: Option<i64>) -> (total:
    Option<i32>)
    ensures
        match current_rootfs_timestamp {
            Some(current) if current == old(boot_config).rootfs.timestamp => {
                &&& total == old(boot_config).rootfs.systemd_targets_total
                &&& *final(boot_config) == *old(boot_config)
            },
            Some(current) => {
                &&& total is None
                &&& *final(boot_config) == (BootConfig {
                    rootfs: RootFS { timestamp: current, ..old(boot_config).rootfs },
                    ..*old(boot_config)
                })
            },
            None => total is None && *final(boot_config) == *old(boot_config),
        },
{
    match current_rootfs_timestamp {
        Some(current) => {
            if current == boot_config.rootfs.timestamp {
                boot_config.rootfs.systemd_targets_total
            } else {
                boot_config.rootfs.timestamp = current;
                None
            }
        },
        None => None,
    }
}

} // verus!
