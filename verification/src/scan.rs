//! The scan orchestrator.
//!
//! A single-page scan is a fixed sequence of subsystem calls — connect
//! to the device by identifier, write the document-handling-select
//! property, locate the first child item, transfer to a file — with a
//! decision after each call. The sequence is modeled as an explicit
//! state machine: the session names the next action to perform, the
//! caller performs it against the imaging subsystem and reports the
//! event, and the session decides the next phase. The decisions are:
//! a failed mode write is a warning, not an abort; a device with no
//! child item is "nothing to scan", a successful no-op; any other
//! failure aborts with the status code it carries.
use vstd::prelude::*;
use crate::capability::FEEDER_BIT;
use crate::capability::FLATBED_BIT;

verus! {

/// One scan attempt, fixed at construction.
#[derive(Debug, Clone, PartialEq, Eq)]
pub struct ScanRequest {
    /// Opaque token that reconnects to the chosen device.
    pub device_identifier: String,
    /// Scan from the document feeder rather than the flatbed.
    pub use_feeder: bool,
    /// Where the transfer writes the scanned page.
    pub output_path: String,
}

/// How a finished session ended.
#[derive(Clone, Copy, Debug, PartialEq, Eq, Structural)]
pub enum ScanOutcome {
    /// The transfer succeeded and the output file was written.
    Completed,
    /// No child item was found: a successful no-op, no file written.
    NothingToScan,
    /// A subsystem call failed with this status code.
    Failed(u32),
}

/// Where a session stands in the fixed sequence of subsystem calls.
#[derive(Clone, Copy, Debug, PartialEq, Eq, Structural)]
pub enum ScanPhase {
    /// About to reconnect to the device by identifier.
    Connecting,
    /// About to write the document-handling-select property.
    SettingMode,
    /// About to enumerate child items and take the first.
    Locating,
    /// About to transfer the located item to the output file.
    Transferring,
    Finished(ScanOutcome),
}

/// What the caller reports after performing the pending action.
#[derive(Clone, Copy, Debug, PartialEq, Eq, Structural)]
pub enum ScanEvent {
    Succeeded,
    /// The call failed with this subsystem status code.
    Failed(u32),
    /// Child-item enumeration yielded a first item.
    ItemFound,
    /// Child-item enumeration yielded no item.
    NoItemFound,
}

/// The subsystem call a phase asks the caller to perform.
#[derive(Clone, Copy, Debug, PartialEq, Eq, Structural)]
pub enum ScanAction {
    /// Reconnect to the device named by the request's identifier.
    ConnectDevice,
    /// Write this value to the document-handling-select property of the
    /// device-scope store.
    WriteHandlingMode(i32),
    /// Enumerate the device's child items and take the first, if any.
    FetchFirstItem,
    /// Transfer the located item to the request's output path, as a
    /// file-based transfer.
    TransferToFile,
}

/// Which events can answer which phase: connect, mode write and
/// transfer either succeed or fail; locating reports an item, no item,
/// or a failure; a finished session takes no further event.
pub open spec fn event_fits(phase: ScanPhase, event: ScanEvent) -> bool {
    match (phase, event) {
        (ScanPhase::Connecting, ScanEvent::Succeeded) => true,
        (ScanPhase::Connecting, ScanEvent::Failed(_)) => true,
        (ScanPhase::SettingMode, ScanEvent::Succeeded) => true,
        (ScanPhase::SettingMode, ScanEvent::Failed(_)) => true,
        (ScanPhase::Locating, ScanEvent::ItemFound) => true,
        (ScanPhase::Locating, ScanEvent::NoItemFound) => true,
        (ScanPhase::Locating, ScanEvent::Failed(_)) => true,
        (ScanPhase::Transferring, ScanEvent::Succeeded) => true,
        (ScanPhase::Transferring, ScanEvent::Failed(_)) => true,
        _ => false,
    }
}

/// The phase an event moves a session to. Connect, locate and transfer
/// fail fast, keeping the status code; a failed mode write is absorbed
/// (some devices accept a single mode only and reject redundant
/// writes, so the session optimistically continues); no child item
/// ends the session as a successful no-op.
pub open spec fn stepped(phase: ScanPhase, event: ScanEvent) -> ScanPhase {
    match (phase, event) {
        (ScanPhase::Connecting, ScanEvent::Succeeded) => ScanPhase::SettingMode,
        (ScanPhase::Connecting, ScanEvent::Failed(status)) => ScanPhase::Finished(
            ScanOutcome::Failed(status),
        ),
        (ScanPhase::SettingMode, _) => ScanPhase::Locating,
        (ScanPhase::Locating, ScanEvent::ItemFound) => ScanPhase::Transferring,
        (ScanPhase::Locating, ScanEvent::NoItemFound) => ScanPhase::Finished(
            ScanOutcome::NothingToScan,
        ),
        (ScanPhase::Locating, ScanEvent::Failed(status)) => ScanPhase::Finished(
            ScanOutcome::Failed(status),
        ),
        (ScanPhase::Transferring, ScanEvent::Succeeded) => ScanPhase::Finished(
            ScanOutcome::Completed,
        ),
        (ScanPhase::Transferring, ScanEvent::Failed(status)) => ScanPhase::Finished(
            ScanOutcome::Failed(status),
        ),
        _ => phase,
    }
}

/// The subsystem call each unfinished phase asks for; the mode write
/// carries the feeder or flatbed constant the request selects.
pub open spec fn action_for(phase: ScanPhase, use_feeder: bool) -> ScanAction {
    match phase {
        ScanPhase::Connecting => ScanAction::ConnectDevice,
        ScanPhase::SettingMode => ScanAction::WriteHandlingMode(
            if use_feeder {
                FEEDER_BIT
            } else {
                FLATBED_BIT
            },
        ),
        ScanPhase::Locating => ScanAction::FetchFirstItem,
        _ => ScanAction::TransferToFile,
    }
}

/// One scan attempt in progress: the request it serves and the phase it
/// stands in.
pub struct ScanSession {
    request: ScanRequest,
    phase: ScanPhase,
}

impl ScanSession {
    /// The request this session serves.
    pub closed spec fn request_spec(&self) -> ScanRequest {
        self.request
    }

    /// The phase this session stands in.
    pub closed spec fn phase_spec(&self) -> ScanPhase {
        self.phase
    }

    /// Opens a session for one request, ready to connect.
    pub fn begin(request: ScanRequest) -> (session: ScanSession)
        ensures
            session.phase_spec() == ScanPhase::Connecting,
            session.request_spec() == request,
    {
        ScanSession { request, phase: ScanPhase::Connecting }
    }

    pub fn phase(&self) -> (p: ScanPhase)
        ensures
            p == self.phase_spec(),
    {
        self.phase
    }

    pub fn request(&self) -> (r: &ScanRequest)
        ensures
            *r == self.request_spec(),
    {
        &self.request
    }

    /// The subsystem call to perform next.
    pub fn next_action(&self) -> (action: ScanAction)
        requires
            !(self.phase_spec() matches ScanPhase::Finished(_)),
        ensures
            action == action_for(self.phase_spec(), self.request_spec().use_feeder),
    {
        match self.phase {
            ScanPhase::Connecting => ScanAction::ConnectDevice,
            ScanPhase::SettingMode => ScanAction::WriteHandlingMode(
                if self.request.use_feeder {
                    FEEDER_BIT
                } else {
                    FLATBED_BIT
                },
            ),
            ScanPhase::Locating => ScanAction::FetchFirstItem,
            _ => ScanAction::TransferToFile,
        }
    }

    /// Moves the session on by the event the pending action came back
    /// with.
    pub fn advance(&mut self, event: ScanEvent)
        requires
            event_fits(old(self).phase_spec(), event),
        ensures
            final(self).phase_spec() == stepped(old(self).phase_spec(), event),
            final(self).request_spec() == old(self).request_spec(),
    {
        let next = match (self.phase, event) {
            (ScanPhase::Connecting, ScanEvent::Succeeded) => ScanPhase::SettingMode,
            (ScanPhase::Connecting, ScanEvent::Failed(status)) => ScanPhase::Finished(
                ScanOutcome::Failed(status),
            ),
            (ScanPhase::SettingMode, _) => ScanPhase::Locating,
            (ScanPhase::Locating, ScanEvent::ItemFound) => ScanPhase::Transferring,
            (ScanPhase::Locating, ScanEvent::NoItemFound) => ScanPhase::Finished(
                ScanOutcome::NothingToScan,
            ),
            (ScanPhase::Locating, ScanEvent::Failed(status)) => ScanPhase::Finished(
                ScanOutcome::Failed(status),
            ),
            (ScanPhase::Transferring, ScanEvent::Succeeded) => ScanPhase::Finished(
                ScanOutcome::Completed,
            ),
            (ScanPhase::Transferring, ScanEvent::Failed(status)) => ScanPhase::Finished(
                ScanOutcome::Failed(status),
            ),
            _ => self.phase,
        };
        self.phase = next;
    }

    /// `Some` once the session has finished, with its outcome.
    pub fn outcome(&self) -> (r: Option<ScanOutcome>)
        ensures
            match self.phase_spec() {
                ScanPhase::Finished(o) => r == Some(o),
                _ => r is None,
            },
    {
        match self.phase {
            ScanPhase::Finished(o) => Some(o),
            _ => None,
        }
    }
}

/// How many subsystem calls a session can still make before it is
/// finished.
pub open spec fn phase_rank(phase: ScanPhase) -> nat {
    match phase {
        ScanPhase::Connecting => 4,
        ScanPhase::SettingMode => 3,
        ScanPhase::Locating => 2,
        ScanPhase::Transferring => 1,
        ScanPhase::Finished(_) => 0,
    }
}

/// Every event that fits a phase moves the session strictly closer to
/// the end: a session finishes after at most four subsystem calls, and
/// nothing in the orchestrator ever retries one.
pub proof fn lemma_session_progress(phase: ScanPhase, event: ScanEvent)
    requires
        event_fits(phase, event),
    ensures
        phase_rank(stepped(phase, event)) < phase_rank(phase),
{
}

/// A failed document-handling-mode write never ends the session: every
/// event that can answer the mode-write phase moves the session on to
/// locating the scan item.
pub proof fn lemma_mode_write_failure_nonfatal(event: ScanEvent)
    requires
        event_fits(ScanPhase::SettingMode, event),
    ensures
        stepped(ScanPhase::SettingMode, event) == ScanPhase::Locating,
{
}

/// A connect, locate or transfer failure ends the session at once, and
/// the outcome carries the very status code the subsystem reported.
pub proof fn lemma_failure_carries_status(phase: ScanPhase, status: u32)
    requires
        phase == ScanPhase::Connecting || phase == ScanPhase::Locating || phase
            == ScanPhase::Transferring,
    ensures
        stepped(phase, ScanEvent::Failed(status)) == ScanPhase::Finished(
            ScanOutcome::Failed(status),
        ),
{
}

} // verus!
