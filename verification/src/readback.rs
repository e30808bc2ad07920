use vstd::prelude::*;
use crate::error::PipelineError;

verus! {

/// Where a single readback stands. Device work completes asynchronously, and
/// mapping host-visible memory is a second asynchronous operation layered on
/// top, so the protocol passes these states strictly in order; the two
/// `Failed` causes are the only exits from the straight line.
#[derive(Clone, Copy, Debug, PartialEq, Eq, Structural)]
pub enum GateState {
    /// The command sequence is queued; completion is not yet confirmed.
    Submitted,
    /// The first progress-forcing call returned: all submitted work is done.
    WorkComplete,
    /// The asynchronous map request against the staging buffer is issued.
    MapRequested,
    /// The second progress-forcing call returned, so the one-shot completion
    /// signal can now be delivered; the host may suspend on it.
    SignalWait,
    /// The signal fired with success: the mapped view is available.
    MappedReady,
    /// The view's bytes are copied into host-owned storage.
    ViewCaptured,
    /// The view is released and the buffer is device-owned again.
    Complete,
    /// The signal reported a denial, or can never fire: terminal.
    Failed(PipelineError),
}

/// What the one-shot completion signal delivered, as the host observed it.
#[derive(Clone, Copy, Debug, PartialEq, Eq, Structural)]
pub enum MapOutcome {
    /// The signal fired with success: the staging buffer is mapped.
    Granted,
    /// The signal fired with a denial.
    Denied,
    /// The signal can never fire: the device disappeared mid-operation.
    Lost,
}

/// The next outside step the protocol asks for, as a function of the state.
#[derive(Clone, Copy, Debug, PartialEq, Eq, Structural)]
pub enum GateAction {
    /// Force the device to make progress until pending work has completed.
    PollDevice,
    /// Issue the asynchronous read-mapping request against the staging buffer.
    RequestMap,
    /// Suspend on the one-shot completion signal.
    AwaitSignal,
    /// Copy the mapped view's bytes into host-owned storage.
    CaptureView,
    /// Release the view, returning the buffer to device-exclusive ownership.
    ReleaseView,
    /// The readback is done; the captured bytes may be taken.
    Finish,
    /// The readback failed terminally with this cause.
    Abort(PipelineError),
}

/// One readback of one submitted command sequence, driven step by step
/// through the strictly sequential map-and-read protocol. The caller performs
/// each requested outside step and reports it back; the protocol decides what
/// comes next, and it keeps the resulting bytes.
#[derive(Clone, Debug)]
pub struct ReadbackGate {
    pub state: GateState,
    pub data: Option<Vec<u8>>,
}

impl ReadbackGate {
    /// Bytes are held exactly while the protocol has captured them.
    pub open spec fn inv(self) -> bool {
        self.data is Some <==> (self.state == GateState::ViewCaptured || self.state
            == GateState::Complete)
    }

    /// Start a readback of a just-submitted command sequence. Submission does
    /// not block and guarantees nothing yet: the first obligation is to force
    /// device progress.
    pub fn begin() -> (gate: ReadbackGate)
        ensures
            gate.state == GateState::Submitted,
            gate.inv(),
    {
        ReadbackGate { state: GateState::Submitted, data: None }
    }

    /// The outside step the caller must perform next.
    pub fn next_action(&self) -> (action: GateAction)
        ensures
            action == match self.state {
                GateState::Submitted => GateAction::PollDevice,
                GateState::WorkComplete => GateAction::RequestMap,
                GateState::MapRequested => GateAction::PollDevice,
                GateState::SignalWait => GateAction::AwaitSignal,
                GateState::MappedReady => GateAction::CaptureView,
                GateState::ViewCaptured => GateAction::ReleaseView,
                GateState::Complete => GateAction::Finish,
                GateState::Failed(e) => GateAction::Abort(e),
            },
    {
        match self.state {
            GateState::Submitted => GateAction::PollDevice,
            GateState::WorkComplete => GateAction::RequestMap,
            GateState::MapRequested => GateAction::PollDevice,
            GateState::SignalWait => GateAction::AwaitSignal,
            GateState::MappedReady => GateAction::CaptureView,
            GateState::ViewCaptured => GateAction::ReleaseView,
            GateState::Complete => GateAction::Finish,
            GateState::Failed(e) => GateAction::Abort(e),
        }
    }

    /// The first progress-forcing call returned: the dispatch and the copy
    /// have completed, so the staging buffer is safe to map.
    pub fn work_polled(&mut self)
        requires
            old(self).state == GateState::Submitted,
            old(self).inv(),
        ensures
            final(self).state == GateState::WorkComplete,
            final(self).inv(),
            final(self).data == old(self).data,
    {
        self.state = GateState::WorkComplete;
    }

    /// The asynchronous map request is issued. It does not complete with the
    /// call: its completion arrives only through the one-shot signal, and only
    /// once device progress is forced again.
    pub fn map_requested(&mut self)
        requires
            old(self).state == GateState::WorkComplete,
            old(self).inv(),
        ensures
            final(self).state == GateState::MapRequested,
            final(self).inv(),
            final(self).data == old(self).data,
    {
        self.state = GateState::MapRequested;
    }

    /// The second progress-forcing call returned: pending callbacks have been
    /// processed, so the one-shot signal is now deliverable.
    pub fn callbacks_polled(&mut self)
        requires
            old(self).state == GateState::MapRequested,
            old(self).inv(),
        ensures
            final(self).state == GateState::SignalWait,
            final(self).inv(),
            final(self).data == old(self).data,
    {
        self.state = GateState::SignalWait;
    }

    /// The suspension on the one-shot signal ended with `outcome`. Success
    /// makes the mapped view available; a denial is fatal as `MapDenied`; a
    /// signal that can never fire is fatal as `DeviceLost`.
    pub fn signal_received(&mut self, outcome: MapOutcome)
        requires
            old(self).state == GateState::SignalWait,
            old(self).inv(),
        ensures
            final(self).state == match outcome {
                MapOutcome::Granted => GateState::MappedReady,
                MapOutcome::Denied => GateState::Failed(PipelineError::MapDenied),
                MapOutcome::Lost => GateState::Failed(PipelineError::DeviceLost),
            },
            final(self).inv(),
            final(self).data == old(self).data,
    {
        match outcome {
            MapOutcome::Granted => {
                self.state = GateState::MappedReady;
            },
            MapOutcome::Denied => {
                self.state = GateState::Failed(PipelineError::MapDenied);
            },
            MapOutcome::Lost => {
                self.state = GateState::Failed(PipelineError::DeviceLost);
            },
        }
    }

    /// The readback takes the view's bytes in host-owned storage and returns
    /// exactly these bytes at the end: capture first, release afterwards,
    /// never hold the view and defer the copy.
    pub fn capture(&mut self, view_bytes: Vec<u8>)
        requires
            old(self).state == GateState::MappedReady,
            old(self).inv(),
        ensures
            final(self).state == GateState::ViewCaptured,
            final(self).inv(),
            final(self).data == Some(view_bytes),
    {
        self.state = GateState::ViewCaptured;
        self.data = Some(view_bytes);
    }

    /// The view is released, before the staging buffer can be reused or
    /// destroyed; the bytes remain with the readback.
    pub fn view_released(&mut self)
        requires
            old(self).state == GateState::ViewCaptured,
            old(self).inv(),
        ensures
            final(self).state == GateState::Complete,
            final(self).inv(),
            final(self).data == old(self).data,
    {
        self.state = GateState::Complete;
    }

    /// Take the bytes a completed readback captured.
    pub fn take_bytes(self) -> (r: Vec<u8>)
        requires
            self.state == GateState::Complete,
            self.inv(),
        ensures
            Some(r) == self.data,
    {
        match self.data {
            Some(bytes) => bytes,
            None => Vec::new(),
        }
    }
}

/// Readback is idempotent in content: the captured bytes are a function of the
/// staging buffer's content alone, so reading the same staging buffer twice
/// without an intervening dispatch captures identical bytes.
pub proof fn lemma_readback_idempotent(
    staging: Seq<u8>,
    first: ReadbackGate,
    second: ReadbackGate,
    b1: Vec<u8>,
    b2: Vec<u8>,
)
    requires
        first.data == Some(b1),
        b1@ == staging,
        second.data == Some(b2),
        b2@ == staging,
    ensures
        b1@ == b2@,
{
}

} // verus!
