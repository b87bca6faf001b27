//! The monitoring loop as a state machine. The loop itself waits, samples,
//! writes and sends outside this library; what it does next, and what
//! becomes of the state, is decided here, one event at a time.
//!
//! The state changes in one step only, the one that takes a sample, and
//! there it is replaced as a whole. A reader that looks at the monitor
//! between two steps therefore sees the state of the previous tick or of
//! the current one, never a mixture.

use crate::clock::{utc_now, Timestamp};
use crate::parse::{
    find_line, first_line_with, parse_usize, parsed_usize, second_word, second_word_of,
};
use crate::robot_type::RobotType;
use crate::state::{RobotState, RobotStateView};
use crate::telemetry::{DynamicInfo, DynamicInfoView};
use crate::text::{chars_of, text_of};
use vstd::prelude::*;
use vstd::string::StringExecFns;

verus! {

/// Time between two ticks, in milliseconds.
pub const POLL_INTERVAL_MS: u64 = 5000;

/// Resident memory, in mebibytes, above which the agent warns about
/// itself.
pub const MAX_MEMORY_MB: usize = 50;

/// Time after which a report is given up, in seconds.
pub const REPORT_TIMEOUT_SECS: u64 = 5;

/// Path of the collector's endpoint, below the server's address.
pub const HEARTBEAT_PATH: &'static str = "/heartbeat";

/// Name of the field of the process status that holds the resident set
/// size in kibibytes.
pub const RESIDENT_FIELD: &'static str = "VmRSS:";

/// The address to which reports for `server` are sent.
pub fn heartbeat_url(server: &str) -> (url: String)
    ensures
        url@ == server@ + HEARTBEAT_PATH@,
{
    let url = String::from_str(server);
    url.concat(HEARTBEAT_PATH)
}

/// The resident set size in kibibytes that a process status text states:
/// the second word of the first line that begins with the field's name,
/// read as a number; zero where any of this is missing.
pub open spec fn resident_kb(status: Seq<char>) -> nat {
    match find_line(status, RESIDENT_FIELD@) {
        Some(line) => match second_word(line) {
            Some(word) => match parsed_usize(word) {
                Some(n) => n as nat,
                None => 0,
            },
            None => 0,
        },
        None => 0,
    }
}

/// The resident memory in whole mebibytes that a process status states;
/// zero where the status could not be read.
pub open spec fn resident_mb(status: Option<Seq<char>>) -> nat {
    match status {
        Some(text) => resident_kb(text) / 1024,
        None => 0,
    }
}

/// Reads the resident memory of the process, in whole mebibytes, out of
/// its status text.
pub fn resident_memory_mb(status: &Option<String>) -> (mb: usize)
    ensures
        mb == resident_mb(text_of(*status)),
{
    let text = match status {
        Some(t) => chars_of(t.as_str()),
        None => {
            return 0;
        },
    };
    let field = chars_of(RESIDENT_FIELD);
    let kb = match first_line_with(&text, &field) {
        Some(line) => match second_word_of(&line) {
            Some(word) => match parse_usize(&word) {
                Some(n) => n,
                None => 0,
            },
            None => 0,
        },
        None => 0,
    };
    kb / 1024
}

/// Where the loop stands within a tick.
#[derive(Clone, Copy, Debug, PartialEq, Eq, Structural)]
pub enum Phase {
    /// Waiting for the period to elapse.
    AwaitingTick,
    /// A sample of the host is being taken.
    Sampling,
    /// The state is being written to the durable record.
    Persisting,
    /// The state is being sent to the collector.
    Reporting,
    /// The agent's own memory use is being read.
    CheckingMemory,
}

/// What the loop is to do next.
#[derive(Clone, Copy, Debug, PartialEq, Eq, Structural)]
pub enum Action {
    /// Wait until the period has elapsed.
    AwaitTick,
    /// Take a sample of the host, for a robot of this variant.
    Sample(RobotType),
    /// Write the state to the durable record.
    Persist,
    /// Send the state to the collector, once, within the timeout.
    Report,
    /// Read the status of the agent's own process.
    ReadMemory,
}

/// What has happened outside since the last step.
#[derive(Clone, Debug, PartialEq, Eq)]
pub enum Event {
    /// The period has elapsed.
    TickElapsed,
    /// A sample has been taken.
    Sampled(DynamicInfo),
    /// Writing the durable record has ended, well or not.
    Persisted { ok: bool },
    /// Sending the report has ended, well or not.
    Reported { ok: bool },
    /// The status of the agent's own process, if it could be read.
    MemoryRead(Option<String>),
}

/// Mathematical content of an [`Event`].
pub enum EventView {
    TickElapsed,
    Sampled(DynamicInfoView),
    Persisted { ok: bool },
    Reported { ok: bool },
    MemoryRead(Option<Seq<char>>),
}

impl View for Event {
    type V = EventView;

    open spec fn view(&self) -> EventView {
        match *self {
            Event::TickElapsed => EventView::TickElapsed,
            Event::Sampled(reading) => EventView::Sampled(reading@),
            Event::Persisted { ok } => EventView::Persisted { ok },
            Event::Reported { ok } => EventView::Reported { ok },
            Event::MemoryRead(status) => EventView::MemoryRead(text_of(status)),
        }
    }
}

/// Something worth a line in the log. None of these stops the loop.
#[derive(Clone, Copy, Debug, PartialEq, Eq, Structural)]
pub enum Notice {
    /// A reboot was noticed; the count of boots is now this.
    Rebooted { boot_count: u32 },
    /// The durable record could not be written. The state in memory stands.
    PersistFailed,
    /// The report could not be sent. It is dropped, not sent again.
    ReportFailed,
    /// The agent holds more resident memory than its budget.
    MemoryOverBudget { used_mb: usize },
}

/// The outcome of one step.
#[derive(Clone, Copy, Debug, PartialEq, Eq, Structural)]
pub struct Step {
    pub action: Action,
    pub notice: Option<Notice>,
}

/// The monitoring loop's memory: the state of the robot and the phase of
/// the tick. It is the only writer of the state.
#[derive(Clone, Debug, PartialEq, Eq)]
pub struct Monitor {
    state: RobotState,
    phase: Phase,
}

/// Mathematical content of a [`Monitor`].
pub struct MonitorView {
    pub state: RobotStateView,
    pub phase: Phase,
}

impl View for Monitor {
    type V = MonitorView;

    closed spec fn view(&self) -> MonitorView {
        MonitorView { state: self.state@, phase: self.phase }
    }
}

impl MonitorView {
    /// The action that the loop is on in this phase.
    pub open spec fn awaited(self) -> Action {
        match self.phase {
            Phase::AwaitingTick => Action::AwaitTick,
            Phase::Sampling => Action::Sample(self.state.system_info.robot_type),
            Phase::Persisting => Action::Persist,
            Phase::Reporting => Action::Report,
            Phase::CheckingMemory => Action::ReadMemory,
        }
    }

    /// Whether `event` is the one that ends the current phase.
    pub open spec fn expects(self, event: EventView) -> bool {
        match (self.phase, event) {
            (Phase::AwaitingTick, EventView::TickElapsed) => true,
            (Phase::Sampling, EventView::Sampled(_)) => true,
            (Phase::Persisting, EventView::Persisted { .. }) => true,
            (Phase::Reporting, EventView::Reported { .. }) => true,
            (Phase::CheckingMemory, EventView::MemoryRead(_)) => true,
            _ => false,
        }
    }

    /// Whether the step on `event` stays within the 32 bits of the count of
    /// boots.
    pub open spec fn can_take(self, event: EventView) -> bool {
        match (self.phase, event) {
            (Phase::Sampling, EventView::Sampled(reading)) => self.state.can_merge(reading),
            _ => true,
        }
    }

    /// The monitor after `event`, taken at `now`. The expected event moves
    /// the loop to the next phase, whether it reports success or failure;
    /// a sample is merged into the state on the way. Any other event
    /// changes nothing.
    pub open spec fn next(self, event: EventView, now: Timestamp) -> MonitorView {
        match (self.phase, event) {
            (Phase::AwaitingTick, EventView::TickElapsed) => MonitorView {
                phase: Phase::Sampling,
                ..self
            },
            (Phase::Sampling, EventView::Sampled(reading)) => MonitorView {
                state: self.state.merged(reading, now),
                phase: Phase::Persisting,
            },
            (Phase::Persisting, EventView::Persisted { .. }) => MonitorView {
                phase: Phase::Reporting,
                ..self
            },
            (Phase::Reporting, EventView::Reported { .. }) => MonitorView {
                phase: Phase::CheckingMemory,
                ..self
            },
            (Phase::CheckingMemory, EventView::MemoryRead(_)) => MonitorView {
                phase: Phase::AwaitingTick,
                ..self
            },
            _ => self,
        }
    }

    /// What the step on `event` has to say, if anything.
    pub open spec fn notice(self, event: EventView) -> Option<Notice> {
        match (self.phase, event) {
            (Phase::Sampling, EventView::Sampled(reading)) => if self.state.rebooted(reading) {
                Some(Notice::Rebooted { boot_count: (self.state.boot_count + 1) as u32 })
            } else {
                None
            },
            (Phase::Persisting, EventView::Persisted { ok }) => if ok {
                None
            } else {
                Some(Notice::PersistFailed)
            },
            (Phase::Reporting, EventView::Reported { ok }) => if ok {
                None
            } else {
                Some(Notice::ReportFailed)
            },
            (Phase::CheckingMemory, EventView::MemoryRead(status)) => if resident_mb(status)
                > MAX_MEMORY_MB {
                Some(Notice::MemoryOverBudget { used_mb: resident_mb(status) as usize })
            } else {
                None
            },
            _ => None,
        }
    }
}

impl Monitor {
    /// Starts a loop on `state`, waiting for its first tick.
    pub fn new(state: RobotState) -> (monitor: Monitor)
        ensures
            monitor@ == (MonitorView { state: state@, phase: Phase::AwaitingTick }),
    {
        Monitor { state, phase: Phase::AwaitingTick }
    }

    /// The state of the robot as of the last merge.
    pub fn state(&self) -> (state: &RobotState)
        ensures
            state@ == self@.state,
    {
        &self.state
    }

    /// The phase in which the loop stands.
    pub fn phase(&self) -> (phase: Phase)
        ensures
            phase == self@.phase,
    {
        self.phase
    }

    /// The action that the loop is on.
    pub fn awaited(&self) -> (action: Action)
        ensures
            action == self@.awaited(),
    {
        match self.phase {
            Phase::AwaitingTick => Action::AwaitTick,
            Phase::Sampling => Action::Sample(self.state.system_info.robot_type),
            Phase::Persisting => Action::Persist,
            Phase::Reporting => Action::Report,
            Phase::CheckingMemory => Action::ReadMemory,
        }
    }

    /// Decides whether the step on `event` stays within the 32 bits of the
    /// count of boots.
    pub fn accepts(&self, event: &Event) -> (ok: bool)
        ensures
            ok == self@.can_take(event@),
    {
        match (self.phase, event) {
            (Phase::Sampling, Event::Sampled(reading)) => self.state.accepts(reading),
            _ => true,
        }
    }

    /// Takes `event`, which happened at `now`, and says what the loop is
    /// to do next.
    pub fn step_at(&mut self, event: Event, now: Timestamp) -> (out: Step)
        requires
            old(self)@.can_take(event@),
        ensures
            final(self)@ == old(self)@.next(event@, now),
            out.action == final(self)@.awaited(),
            out.notice == old(self)@.notice(event@),
    {
        let mut notice: Option<Notice> = None;
        match (self.phase, event) {
            (Phase::AwaitingTick, Event::TickElapsed) => {
                self.phase = Phase::Sampling;
            },
            (Phase::Sampling, Event::Sampled(reading)) => {
                let before = self.state.boot_count;
                self.state.absorb(reading, now);
                if self.state.boot_count != before {
                    notice = Some(Notice::Rebooted { boot_count: self.state.boot_count });
                }
                self.phase = Phase::Persisting;
            },
            (Phase::Persisting, Event::Persisted { ok }) => {
                if !ok {
                    notice = Some(Notice::PersistFailed);
                }
                self.phase = Phase::Reporting;
            },
            (Phase::Reporting, Event::Reported { ok }) => {
                if !ok {
                    notice = Some(Notice::ReportFailed);
                }
                self.phase = Phase::CheckingMemory;
            },
            (Phase::CheckingMemory, Event::MemoryRead(status)) => {
                let used_mb = resident_memory_mb(&status);
                if used_mb > MAX_MEMORY_MB {
                    notice = Some(Notice::MemoryOverBudget { used_mb });
                }
                self.phase = Phase::AwaitingTick;
            },
            _ => {},
        }
        Step { action: self.awaited(), notice }
    }

    /// Takes `event`, dated by the system clock, and says what the loop is
    /// to do next. Whatever the clock reads, the step is the one at some
    /// instant that is not before the epoch.
    pub fn step(&mut self, event: Event) -> (out: Step)
        requires
            old(self)@.can_take(event@),
        ensures
            exists|now: Timestamp|
                now.secs >= 0 && now.nanos < 1_000_000_000 && final(self)@ == #[trigger] old(
                    self,
                )@.next(event@, now),
            out.action == final(self)@.awaited(),
            out.notice == old(self)@.notice(event@),
    {
        let now = utc_now();
        self.step_at(event, now)
    }
}

/// A failure to write or to send changes nothing in the state and does not
/// hold the loop up: the step is the same as on success.
pub proof fn lemma_failures_are_not_fatal(monitor: MonitorView, ok: bool, now: Timestamp)
    ensures
        monitor.next(EventView::Persisted { ok }, now) == monitor.next(
            EventView::Persisted { ok: true },
            now,
        ),
        monitor.next(EventView::Reported { ok }, now) == monitor.next(
            EventView::Reported { ok: true },
            now,
        ),
        monitor.next(EventView::Persisted { ok }, now).state == monitor.state,
        monitor.next(EventView::Reported { ok }, now).state == monitor.state,
{
}

/// No step changes the first sighting or the static profile, whatever
/// the event and whenever it comes.
pub proof fn lemma_step_keeps_identity(monitor: MonitorView, event: EventView, now: Timestamp)
    ensures
        monitor.next(event, now).state.first_seen == monitor.state.first_seen,
        monitor.next(event, now).state.system_info == monitor.state.system_info,
{
}

/// After any step the state holds one whole snapshot: the one it held
/// before, or the one that the event brought. The time of a reading and
/// its boot identifier are never those of two different readings.
pub proof fn lemma_snapshot_is_never_torn(monitor: MonitorView, event: EventView, now: Timestamp)
    ensures
        monitor.next(event, now).state.dynamic_info == monitor.state.dynamic_info || (
        event matches EventView::Sampled(reading) && monitor.next(event, now).state.dynamic_info
            == reading),
{
}

/// A whole tick, from one wait to the next, merges the sample into the
/// state and does nothing else to it, whether the record was written and
/// the report sent or not.
pub proof fn lemma_tick_merges_sample(
    monitor: MonitorView,
    reading: DynamicInfoView,
    persisted: bool,
    reported: bool,
    status: Option<Seq<char>>,
    now: Timestamp,
)
    requires
        monitor.phase == Phase::AwaitingTick,
    ensures
        monitor.next(EventView::TickElapsed, now).next(EventView::Sampled(reading), now).next(
            EventView::Persisted { ok: persisted },
            now,
        ).next(EventView::Reported { ok: reported }, now).next(
            EventView::MemoryRead(status),
            now,
        ) == (MonitorView {
            state: monitor.state.merged(reading, now),
            phase: Phase::AwaitingTick,
        }),
{
}

} // verus!
