//! The durable state of a robot and its reconciliation: a fresh reading is
//! merged in whole, while the first sighting, the time of the last boot and
//! the number of boots carry the robot's continuity across ticks and
//! restarts.

use crate::clock::{utc_now, Timestamp};
use crate::telemetry::{DynamicInfo, DynamicInfoView, SystemInfo, SystemInfoView};
use vstd::prelude::*;

verus! {

/// The durable record of a robot.
#[derive(Clone, Debug, PartialEq, Eq)]
pub struct RobotState {
    pub system_info: SystemInfo,
    pub dynamic_info: DynamicInfo,
    /// When the robot was first seen. Set once, never changed.
    pub first_seen: Timestamp,
    /// When the last reboot was noticed.
    pub last_boot: Timestamp,
    /// Number of boots noticed, the first sighting included.
    pub boot_count: u32,
}

/// Mathematical content of a [`RobotState`].
pub struct RobotStateView {
    pub system_info: SystemInfoView,
    pub dynamic_info: DynamicInfoView,
    pub first_seen: Timestamp,
    pub last_boot: Timestamp,
    pub boot_count: nat,
}

impl View for RobotState {
    type V = RobotStateView;

    open spec fn view(&self) -> RobotStateView {
        RobotStateView {
            system_info: self.system_info@,
            dynamic_info: self.dynamic_info@,
            first_seen: self.first_seen,
            last_boot: self.last_boot,
            boot_count: self.boot_count as nat,
        }
    }
}

/// The content of an optional state.
pub open spec fn state_of(stored: Option<RobotState>) -> Option<RobotStateView> {
    match stored {
        Some(s) => Some(s@),
        None => None,
    }
}

impl RobotStateView {
    /// Whether `reading` was taken under another boot than the snapshot
    /// that the state holds.
    pub open spec fn rebooted(self, reading: DynamicInfoView) -> bool {
        self.dynamic_info.boot_id != reading.boot_id
    }

    /// The state after a reading taken at `now` is merged in. The snapshot
    /// is replaced whole. Where the boot identifier has changed, one more
    /// boot is counted and dated `now`; otherwise count and date stay.
    pub open spec fn merged(self, reading: DynamicInfoView, now: Timestamp) -> RobotStateView {
        if self.rebooted(reading) {
            RobotStateView {
                dynamic_info: reading,
                last_boot: now,
                boot_count: self.boot_count + 1,
                ..self
            }
        } else {
            RobotStateView { dynamic_info: reading, ..self }
        }
    }

    /// Whether the count of boots can take the reading in without leaving
    /// its 32 bits.
    pub open spec fn can_merge(self, reading: DynamicInfoView) -> bool {
        self.rebooted(reading) ==> self.boot_count < u32::MAX
    }
}

/// The state of a robot seen for the first time at `now`.
pub open spec fn created(
    system_info: SystemInfoView,
    dynamic_info: DynamicInfoView,
    now: Timestamp,
) -> RobotStateView {
    RobotStateView { system_info, dynamic_info, first_seen: now, last_boot: now, boot_count: 1 }
}

/// The state with which an agent starts at `now`: the stored record, if
/// there is one, with the fresh profile and the fresh snapshot merged in;
/// a new record otherwise.
pub open spec fn reconciled(
    stored: Option<RobotStateView>,
    system_info: SystemInfoView,
    dynamic_info: DynamicInfoView,
    now: Timestamp,
) -> RobotStateView {
    match stored {
        Some(record) => RobotStateView { system_info, ..record.merged(dynamic_info, now) },
        None => created(system_info, dynamic_info, now),
    }
}

impl RobotState {
    /// Makes the record of a robot seen for the first time at `now`.
    pub fn new(system_info: SystemInfo, dynamic_info: DynamicInfo, now: Timestamp) -> (state:
        RobotState)
        ensures
            state@ == created(system_info@, dynamic_info@, now),
    {
        RobotState { system_info, dynamic_info, first_seen: now, last_boot: now, boot_count: 1 }
    }

    /// Merges the reading of one tick, taken at `now`, into this state.
    pub fn absorb(&mut self, new_dynamic: DynamicInfo, now: Timestamp)
        requires
            old(self)@.can_merge(new_dynamic@),
        ensures
            final(self)@ == old(self)@.merged(new_dynamic@, now),
    {
        if self.dynamic_info.boot_id != new_dynamic.boot_id {
            self.last_boot = now;
            self.boot_count = self.boot_count + 1;
        }
        self.dynamic_info = new_dynamic;
    }

    /// Decides whether `reading` can be merged in: it can unless it counts
    /// a boot that the 32-bit count cannot hold.
    pub fn accepts(&self, reading: &DynamicInfo) -> (ok: bool)
        ensures
            ok == self@.can_merge(reading@),
    {
        self.dynamic_info.boot_id == reading.boot_id || self.boot_count < u32::MAX
    }
}

/// Merges the reading of one tick, taken at `now`, into the state.
pub fn merge_tick(current: RobotState, new_dynamic: DynamicInfo, now: Timestamp) -> (next:
    RobotState)
    requires
        current@.can_merge(new_dynamic@),
    ensures
        next@ == current@.merged(new_dynamic@, now),
{
    let mut next = current;
    next.absorb(new_dynamic, now);
    next
}

/// Makes the state with which an agent starts at `now`. A stored record
/// keeps its first sighting and has the fresh profile and snapshot merged
/// in, a boot being counted where the boot identifier has changed since
/// the record was written. Without a record the robot is new.
pub fn reconcile(
    stored: Option<RobotState>,
    system_info: SystemInfo,
    dynamic_info: DynamicInfo,
    now: Timestamp,
) -> (state: RobotState)
    requires
        stored matches Some(record) ==> record@.can_merge(dynamic_info@),
    ensures
        state@ == reconciled(state_of(stored), system_info@, dynamic_info@, now),
{
    match stored {
        Some(record) => {
            let mut state = merge_tick(record, dynamic_info, now);
            state.system_info = system_info;
            state
        },
        None => RobotState::new(system_info, dynamic_info, now),
    }
}

/// Makes the state with which an agent starts, dated by the system clock.
/// Whatever the clock reads, the state is the reconciliation at some
/// instant that is not before the epoch.
pub fn load_or_create_state(
    stored: Option<RobotState>,
    system_info: SystemInfo,
    dynamic_info: DynamicInfo,
) -> (state: RobotState)
    requires
        stored matches Some(record) ==> record@.can_merge(dynamic_info@),
    ensures
        exists|now: Timestamp|
            now.secs >= 0 && now.nanos < 1_000_000_000 && state@ == #[trigger] reconciled(
                state_of(stored),
                system_info@,
                dynamic_info@,
                now,
            ),
{
    let now = utc_now();
    reconcile(stored, system_info, dynamic_info, now)
}

/// One tick as the state sees it: the reading and the instant at which it
/// is merged.
pub struct Tick {
    pub reading: DynamicInfoView,
    pub at: Timestamp,
}

/// The state after a run of ticks, merged one after the other.
pub open spec fn after_ticks(start: RobotStateView, ticks: Seq<Tick>) -> RobotStateView
    decreases ticks.len(),
{
    if ticks.len() == 0 {
        start
    } else {
        after_ticks(start, ticks.drop_last()).merged(ticks.last().reading, ticks.last().at)
    }
}

/// While the boot identifier stays what it was, the number of boots and the
/// time of the last boot stay too, after every tick, and the state holds
/// the snapshot of the latest tick.
pub proof fn lemma_steady_boot_keeps_count(start: RobotStateView, ticks: Seq<Tick>, k: int)
    requires
        0 <= k <= ticks.len(),
        forall|i: int|
            0 <= i < ticks.len() ==> (#[trigger] ticks[i]).reading.boot_id
                == start.dynamic_info.boot_id,
    ensures
        after_ticks(start, ticks.take(k)).boot_count == start.boot_count,
        after_ticks(start, ticks.take(k)).last_boot == start.last_boot,
        k > 0 ==> after_ticks(start, ticks.take(k)).dynamic_info == ticks[k - 1].reading,
    decreases k,
{
    if k > 0 {
        lemma_steady_boot_keeps_count(start, ticks, k - 1);
        assert(ticks.take(k).drop_last() =~= ticks.take(k - 1));
        assert(ticks.take(k).last() == ticks[k - 1]);
        if k > 1 {
            assert(ticks[k - 2].reading.boot_id == start.dynamic_info.boot_id);
        }
    }
}

/// A tick whose boot identifier differs from the one before it counts
/// exactly one more boot and dates it at the instant of the merge.
pub proof fn lemma_boot_change_counts_once(start: RobotStateView, ticks: Seq<Tick>, i: int)
    requires
        0 <= i < ticks.len(),
        after_ticks(start, ticks.take(i)).rebooted(ticks[i].reading),
    ensures
        after_ticks(start, ticks.take(i + 1)).boot_count == after_ticks(
            start,
            ticks.take(i),
        ).boot_count + 1,
        after_ticks(start, ticks.take(i + 1)).last_boot == ticks[i].at,
{
    assert(ticks.take(i + 1).drop_last() =~= ticks.take(i));
    assert(ticks.take(i + 1).last() == ticks[i]);
}

/// Where a tick changes the boot identifier and is merged at an instant
/// later than the last boot on record, the time of the last boot grows
/// strictly.
pub proof fn lemma_boot_change_advances_last_boot(
    start: RobotStateView,
    ticks: Seq<Tick>,
    i: int,
)
    requires
        0 <= i < ticks.len(),
        after_ticks(start, ticks.take(i)).rebooted(ticks[i].reading),
        ticks[i].at.is_after(after_ticks(start, ticks.take(i)).last_boot),
    ensures
        after_ticks(start, ticks.take(i + 1)).last_boot.is_after(
            after_ticks(start, ticks.take(i)).last_boot,
        ),
{
    lemma_boot_change_counts_once(start, ticks, i);
}

/// The first sighting never changes, however many ticks are merged and
/// whatever they hold; nor does the static profile.
pub proof fn lemma_first_seen_is_constant(start: RobotStateView, ticks: Seq<Tick>)
    ensures
        after_ticks(start, ticks).first_seen == start.first_seen,
        after_ticks(start, ticks).system_info == start.system_info,
    decreases ticks.len(),
{
    if ticks.len() > 0 {
        lemma_first_seen_is_constant(start, ticks.drop_last());
    }
}

/// A restart on a stored record keeps the record's first sighting, and
/// counts and dates boots exactly as a tick does.
pub proof fn lemma_reload_keeps_first_seen(
    record: RobotStateView,
    system_info: SystemInfoView,
    dynamic_info: DynamicInfoView,
    now: Timestamp,
)
    ensures
        reconciled(Some(record), system_info, dynamic_info, now).first_seen == record.first_seen,
        reconciled(Some(record), system_info, dynamic_info, now).boot_count == record.merged(
            dynamic_info,
            now,
        ).boot_count,
        reconciled(Some(record), system_info, dynamic_info, now).last_boot == record.merged(
            dynamic_info,
            now,
        ).last_boot,
{
}

} // verus!
