//! The probe as a step machine: the caller performs each requested USB
//! action and hands back its result, and the prober decides what comes next.
use vstd::prelude::*;

use crate::device::{entry_is_adapter, last_match, lemma_last_match, scan_devices, unknown_line, unknown_line_text, unknown_of, DeviceId};
use crate::error::{classify_open_error, open_failure, Platform, ProbeError, UsbError};
use crate::report::{decode_report, decode_spec, PortStates, REPORT_LEN};

verus! {

/// The interface of the adapter that is claimed.
pub const INTERFACE: u8 = 0;

/// The endpoint that the activation command is written to.
pub const OUT_ENDPOINT: u8 = 0x02;

/// The endpoint that status reports are read from.
pub const IN_ENDPOINT: u8 = 0x81;

/// The one-byte command that makes the adapter start reporting.
pub const ACTIVATE_COMMAND: u8 = 0x13;

/// Timeout of each write and read, in seconds.
pub const TIMEOUT_SECS: u64 = 1;

/// Number of reports read; the adapter may still hold reports from before
/// the probe, so all but the last are thrown away.
pub const REPORT_READS: u32 = 100;

/// Where a probe stands.
#[derive(Debug)]
pub enum Stage {
    CreatingContext,
    ListingDevices,
    /// Opening the device at this index of the enumeration.
    Opening { device: usize },
    QueryingDriver,
    Detaching,
    Claiming,
    Activating,
    /// Reading reports; `done` have been read so far.
    Reading { done: u32 },
    Finished(Result<PortStates, ProbeError>),
}

/// The result of a USB action, handed back to the prober.
pub enum Event {
    ContextCreated(Result<(), UsbError>),
    /// The descriptor of each enumerated device, `None` where it could not
    /// be read.
    DevicesListed(Result<Vec<Option<DeviceId>>, UsbError>),
    Opened(Result<(), UsbError>),
    /// Whether a kernel driver is bound to the interface.
    DriverQueried(Result<bool, UsbError>),
    Detached(Result<(), UsbError>),
    Claimed(Result<(), UsbError>),
    Written(Result<(), UsbError>),
    /// The report buffer after a read.
    ReportRead(Result<[u8; 37], UsbError>),
}

/// The USB action that the prober asks for next.
#[derive(Clone, Copy, Debug, PartialEq, Eq, Structural)]
pub enum Action {
    CreateContext,
    ListDevices,
    Open { device: usize },
    QueryKernelDriver { interface: u8 },
    DetachKernelDriver { interface: u8 },
    ClaimInterface { interface: u8 },
    WriteInterrupt { endpoint: u8, command: u8, timeout_secs: u64 },
    ReadInterrupt { endpoint: u8, len: usize, timeout_secs: u64 },
    /// The probe is over; its outcome is ready.
    Finish,
}

/// The stage that follows `stage` on `event`. An event that does not answer
/// the stage's action leaves the stage as it is.
pub open spec fn next_stage(platform: Platform, stage: Stage, event: Event) -> Stage {
    match (stage, event) {
        (Stage::CreatingContext, Event::ContextCreated(Ok(()))) => Stage::ListingDevices,
        (Stage::CreatingContext, Event::ContextCreated(Err(e))) => Stage::Finished(
            Err(ProbeError::ContextError(e)),
        ),
        (Stage::ListingDevices, Event::DevicesListed(Ok(list))) => match last_match(list@) {
            Some(i) => Stage::Opening { device: i as usize },
            None => Stage::Finished(Err(ProbeError::DeviceNotFound)),
        },
        (Stage::ListingDevices, Event::DevicesListed(Err(e))) => Stage::Finished(
            Err(ProbeError::EnumerationError(e)),
        ),
        (Stage::Opening { .. }, Event::Opened(Ok(()))) => Stage::QueryingDriver,
        (Stage::Opening { .. }, Event::Opened(Err(e))) => Stage::Finished(
            Err(open_failure(e, platform)),
        ),
        (Stage::QueryingDriver, Event::DriverQueried(Ok(true))) => Stage::Detaching,
        (Stage::QueryingDriver, Event::DriverQueried(_)) => Stage::Claiming,
        (Stage::Detaching, Event::Detached(Ok(()))) => Stage::Claiming,
        (Stage::Detaching, Event::Detached(Err(e))) => Stage::Finished(
            Err(ProbeError::DetachError(e)),
        ),
        (Stage::Claiming, Event::Claimed(Ok(()))) => Stage::Activating,
        (Stage::Claiming, Event::Claimed(Err(e))) => Stage::Finished(
            Err(ProbeError::ClaimError(e)),
        ),
        (Stage::Activating, Event::Written(Ok(()))) => Stage::Reading { done: 0 },
        (Stage::Activating, Event::Written(Err(e))) => Stage::Finished(
            Err(ProbeError::InitError(e)),
        ),
        (Stage::Reading { done }, Event::ReportRead(Ok(report))) => if done + 1 >= REPORT_READS {
            Stage::Finished(Ok(decode_spec(report)))
        } else {
            Stage::Reading { done: (done + 1) as u32 }
        },
        (Stage::Reading { .. }, Event::ReportRead(Err(e))) => Stage::Finished(
            Err(ProbeError::ReadError(e)),
        ),
        (s, _) => s,
    }
}

/// The action that `stage` asks for.
pub open spec fn action_of(stage: Stage) -> Action {
    match stage {
        Stage::CreatingContext => Action::CreateContext,
        Stage::ListingDevices => Action::ListDevices,
        Stage::Opening { device } => Action::Open { device },
        Stage::QueryingDriver => Action::QueryKernelDriver { interface: INTERFACE },
        Stage::Detaching => Action::DetachKernelDriver { interface: INTERFACE },
        Stage::Claiming => Action::ClaimInterface { interface: INTERFACE },
        Stage::Activating => Action::WriteInterrupt {
            endpoint: OUT_ENDPOINT,
            command: ACTIVATE_COMMAND,
            timeout_secs: TIMEOUT_SECS,
        },
        Stage::Reading { .. } => Action::ReadInterrupt {
            endpoint: IN_ENDPOINT,
            len: REPORT_LEN,
            timeout_secs: TIMEOUT_SECS,
        },
        Stage::Finished(_) => Action::Finish,
    }
}

/// The lines that a step from `stage` on `event` reports: one for each
/// enumerated device that is not the adapter.
pub open spec fn step_lines(stage: Stage, event: Event) -> Seq<Seq<char>> {
    match (stage, event) {
        (Stage::ListingDevices, Event::DevicesListed(Ok(list))) => unknown_of(list@).map_values(
            |id: DeviceId| unknown_line_text(id),
        ),
        _ => Seq::empty(),
    }
}

/// The stage reached from `stage` after `events`, in order.
pub open spec fn run(platform: Platform, stage: Stage, events: Seq<Event>) -> Stage
    decreases events.len(),
{
    if events.len() == 0 {
        stage
    } else {
        run(platform, next_stage(platform, stage, events[0]), events.drop_first())
    }
}

/// The events of successful reads that left `reports` in the buffer, in order.
pub open spec fn reads_ok(reports: Seq<[u8; 37]>) -> Seq<Event> {
    reports.map_values(|r: [u8; 37]| Event::ReportRead(Ok(r)))
}

/// When the device list arrives, the probe goes on to open the last listed
/// device that is the adapter; where none is, it fails with
/// `DeviceNotFound`.
pub proof fn lemma_selects_last_adapter(platform: Platform, list: Vec<Option<DeviceId>>)
    requires
        list@.len() <= usize::MAX,
    ensures
        match next_stage(platform, Stage::ListingDevices, Event::DevicesListed(Ok(list))) {
            Stage::Opening { device } => device < list@.len() && entry_is_adapter(
                list@[device as int],
            ) && forall|j: int|
                device < j < list@.len() ==> !entry_is_adapter(#[trigger] list@[j]),
            Stage::Finished(Err(ProbeError::DeviceNotFound)) => forall|j: int|
                0 <= j < list@.len() ==> !entry_is_adapter(#[trigger] list@[j]),
            _ => false,
        },
{
    lemma_last_match(list@);
}

/// A finished probe stays finished, with the same outcome, whatever
/// events follow.
pub proof fn lemma_finished_stays(
    platform: Platform,
    outcome: Result<PortStates, ProbeError>,
    events: Seq<Event>,
)
    ensures
        run(platform, Stage::Finished(outcome), events) == Stage::Finished(outcome),
    decreases events.len(),
{
    if events.len() > 0 {
        lemma_finished_stays(platform, outcome, events.drop_first());
    }
}

/// A failed write of the activation command ends the probe with an
/// initialisation failure: whatever events follow, no read is asked for.
pub proof fn lemma_write_failure_ends(platform: Platform, e: UsbError, later: Seq<Event>)
    ensures
        run(platform, Stage::Activating, seq![Event::Written(Err(e))] + later) == Stage::Finished(
            Err(ProbeError::InitError(e)),
        ),
        action_of(run(platform, Stage::Activating, seq![Event::Written(Err(e))] + later))
            == Action::Finish,
{
    let events = seq![Event::Written(Err(e))] + later;
    assert(events.drop_first() =~= later);
    lemma_finished_stays(platform, Err(ProbeError::InitError(e)), later);
}

/// A failed read, whichever of the reads it is, ends the probe with a read
/// failure: whatever events follow, no further read is asked for.
pub proof fn lemma_read_failure_ends(
    platform: Platform,
    done: u32,
    e: UsbError,
    later: Seq<Event>,
)
    ensures
        run(platform, Stage::Reading { done }, seq![Event::ReportRead(Err(e))] + later)
            == Stage::Finished(Err(ProbeError::ReadError(e))),
        action_of(run(platform, Stage::Reading { done }, seq![Event::ReportRead(Err(e))] + later))
            == Action::Finish,
{
    let events = seq![Event::ReportRead(Err(e))] + later;
    assert(events.drop_first() =~= later);
    lemma_finished_stays(platform, Err(ProbeError::ReadError(e)), later);
}

/// Successful reads from `done` on: reading continues until the last of the
/// reads, whose report alone gives the port states.
proof fn lemma_reads_from(platform: Platform, done: u32, reports: Seq<[u8; 37]>)
    requires
        done < REPORT_READS,
        done + reports.len() <= REPORT_READS,
    ensures
        run(platform, Stage::Reading { done }, reads_ok(reports)) == if done
            + reports.len() < REPORT_READS {
            Stage::Reading { done: (done + reports.len()) as u32 }
        } else {
            Stage::Finished(Ok(decode_spec(reports.last())))
        },
    decreases reports.len(),
{
    let events = reads_ok(reports);
    if reports.len() > 0 {
        let rest = reports.drop_first();
        assert(events.drop_first() =~= reads_ok(rest));
        assert(events[0] == Event::ReportRead(Ok(reports[0])));
        if done + 1 < REPORT_READS {
            lemma_reads_from(platform, (done + 1) as u32, rest);
            if rest.len() > 0 {
                assert(rest.last() == reports.last());
            }
        } else {
            assert(rest.len() == 0);
            assert(reports.last() == reports[0]);
            lemma_finished_stays(platform, Ok(decode_spec(reports[0])), reads_ok(rest));
        }
    }
}

/// Once the activation command is written, the probe reads a report a
/// hundred times: after fewer successful reads it asks for another read, and
/// after the hundredth its outcome is the port states of the last report,
/// the earlier ones thrown away.
pub proof fn lemma_last_of_reads_counts(platform: Platform, reports: Seq<[u8; 37]>)
    requires
        reports.len() == REPORT_READS,
    ensures
        forall|k: int|
            0 <= k < REPORT_READS ==> action_of(
                #[trigger] run(
                    platform,
                    Stage::Reading { done: 0 },
                    reads_ok(reports.take(k)),
                ),
            ) == (Action::ReadInterrupt {
                endpoint: IN_ENDPOINT,
                len: REPORT_LEN,
                timeout_secs: TIMEOUT_SECS,
            }),
        run(platform, Stage::Reading { done: 0 }, reads_ok(reports))
            == Stage::Finished(Ok(decode_spec(reports[REPORT_READS - 1]))),
{
    assert forall|k: int| 0 <= k < REPORT_READS implies action_of(
        #[trigger] run(
            platform,
            Stage::Reading { done: 0 },
            reads_ok(reports.take(k)),
        ),
    ) == (Action::ReadInterrupt {
        endpoint: IN_ENDPOINT,
        len: REPORT_LEN,
        timeout_secs: TIMEOUT_SECS,
    }) by {
        lemma_reads_from(platform, 0, reports.take(k));
    }
    lemma_reads_from(platform, 0, reports);
}

/// A probe of the adapter in progress.
#[derive(Debug)]
pub struct Prober {
    pub platform: Platform,
    pub stage: Stage,
}

impl Prober {
    /// A probe that has not started; its first action creates the USB context.
    pub fn new(platform: Platform) -> (r: Prober)
        ensures
            r.platform == platform,
            r.stage == Stage::CreatingContext,
    {
        Prober { platform, stage: Stage::CreatingContext }
    }

    /// The action that the probe asks for next.
    pub fn action(&self) -> (r: Action)
        ensures
            r == action_of(self.stage),
    {
        match &self.stage {
            Stage::CreatingContext => Action::CreateContext,
            Stage::ListingDevices => Action::ListDevices,
            Stage::Opening { device } => Action::Open { device: *device },
            Stage::QueryingDriver => Action::QueryKernelDriver { interface: INTERFACE },
            Stage::Detaching => Action::DetachKernelDriver { interface: INTERFACE },
            Stage::Claiming => Action::ClaimInterface { interface: INTERFACE },
            Stage::Activating => Action::WriteInterrupt {
                endpoint: OUT_ENDPOINT,
                command: ACTIVATE_COMMAND,
                timeout_secs: TIMEOUT_SECS,
            },
            Stage::Reading { .. } => Action::ReadInterrupt {
                endpoint: IN_ENDPOINT,
                len: REPORT_LEN,
                timeout_secs: TIMEOUT_SECS,
            },
            Stage::Finished(_) => Action::Finish,
        }
    }

    /// Takes the result of the last action and moves to the next stage.
    /// Returns the lines to report to the user: one for each enumerated
    /// device that is not the adapter, when the device list arrives.
    pub fn step(&mut self, event: Event) -> (lines: Vec<String>)
        ensures
            final(self).platform == old(self).platform,
            final(self).stage == next_stage(old(self).platform, old(self).stage, event),
            lines@.map_values(|l: String| l@) == step_lines(old(self).stage, event),
    {
        let mut lines: Vec<String> = Vec::new();
        match event {
            Event::ContextCreated(res) => {
                if let Stage::CreatingContext = self.stage {
                    match res {
                        Ok(()) => self.stage = Stage::ListingDevices,
                        Err(e) => self.stage = Stage::Finished(Err(ProbeError::ContextError(e))),
                    }
                }
            },
            Event::DevicesListed(res) => {
                if let Stage::ListingDevices = self.stage {
                    match res {
                        Ok(list) => {
                            let scan = scan_devices(&list);
                            lines = unknown_lines(&scan.unknown);
                            match scan.selected {
                                Some(i) => self.stage = Stage::Opening { device: i },
                                None => self.stage = Stage::Finished(
                                    Err(ProbeError::DeviceNotFound),
                                ),
                            }
                        },
                        Err(e) => self.stage = Stage::Finished(
                            Err(ProbeError::EnumerationError(e)),
                        ),
                    }
                }
            },
            Event::Opened(res) => {
                if let Stage::Opening { .. } = self.stage {
                    match res {
                        Ok(()) => self.stage = Stage::QueryingDriver,
                        Err(e) => self.stage = Stage::Finished(
                            Err(classify_open_error(e, self.platform)),
                        ),
                    }
                }
            },
            Event::DriverQueried(res) => {
                if let Stage::QueryingDriver = self.stage {
                    match res {
                        Ok(true) => self.stage = Stage::Detaching,
                        _ => self.stage = Stage::Claiming,
                    }
                }
            },
            Event::Detached(res) => {
                if let Stage::Detaching = self.stage {
                    match res {
                        Ok(()) => self.stage = Stage::Claiming,
                        Err(e) => self.stage = Stage::Finished(Err(ProbeError::DetachError(e))),
                    }
                }
            },
            Event::Claimed(res) => {
                if let Stage::Claiming = self.stage {
                    match res {
                        Ok(()) => self.stage = Stage::Activating,
                        Err(e) => self.stage = Stage::Finished(Err(ProbeError::ClaimError(e))),
                    }
                }
            },
            Event::Written(res) => {
                if let Stage::Activating = self.stage {
                    match res {
                        Ok(()) => self.stage = Stage::Reading { done: 0 },
                        Err(e) => self.stage = Stage::Finished(Err(ProbeError::InitError(e))),
                    }
                }
            },
            Event::ReportRead(res) => {
                if let Stage::Reading { done } = self.stage {
                    match res {
                        Ok(report) => {
                            if done >= REPORT_READS - 1 {
                                self.stage = Stage::Finished(Ok(decode_report(&report)));
                            } else {
                                self.stage = Stage::Reading { done: done + 1 };
                            }
                        },
                        Err(e) => self.stage = Stage::Finished(Err(ProbeError::ReadError(e))),
                    }
                }
            },
        }
        lines
    }

    /// The outcome of the probe, once it is over.
    pub fn finish(self) -> (r: Option<Result<PortStates, ProbeError>>)
        ensures
            r == match self.stage {
                Stage::Finished(outcome) => Some(outcome),
                _ => None,
            },
    {
        match self.stage {
            Stage::Finished(outcome) => Some(outcome),
            _ => None,
        }
    }
}

/// One line for each device that is not the adapter.
fn unknown_lines(unknown: &Vec<DeviceId>) -> (r: Vec<String>)
    ensures
        r@.map_values(|l: String| l@) == unknown@.map_values(|id: DeviceId| unknown_line_text(id)),
{
    let mut r: Vec<String> = Vec::new();
    let mut i: usize = 0;
    while i < unknown.len()
        invariant
            i <= unknown@.len(),
            r@.len() == i,
            forall|j: int| 0 <= j < i ==> #[trigger] r@[j]@ == unknown_line_text(unknown@[j]),
        decreases unknown@.len() - i,
    {
        r.push(unknown_line(unknown[i]));
        i = i + 1;
    }
    assert(r@.map_values(|l: String| l@) =~= unknown@.map_values(
        |id: DeviceId| unknown_line_text(id),
    ));
    r
}

} // verus!
