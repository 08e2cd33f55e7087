//! The capture worker: every decision of the capture loop, as a state
//! machine that the worker thread drives.
//!
//! The thread performs the action the worker names (open the device, read a
//! frame, release the device) and reports what happened as an event; the
//! worker answers with the next action. Frames are normalised and published
//! inside the step, so the channel is touched nowhere else on the producing
//! side.

use crate::channel::{AttemptView, ChannelView, FrameChannel};
use crate::error::{CaptureError, ConversionError};
use crate::frame::{
    conversion, convert, lemma_partial_pixel_is_rejected, FrameView, RawFrame, RawFrameView,
};
use crate::source::{DeviceSelector, SelectorView};
use vstd::prelude::*;

verus! {

/// Where the worker stands.
#[derive(Debug, Clone, Copy, PartialEq, Eq, Structural)]
pub enum Phase {
    /// The device has not been opened yet.
    Opening,
    /// The device is open and frames are being read.
    Capturing,
    /// The worker was stopped on request and has let go of the device.
    Released,
    /// The worker stopped for good because of the given condition.
    Failed(CaptureError),
}

/// What the worker thread does next.
#[derive(Debug, Clone, Copy, PartialEq, Eq, Structural)]
pub enum CaptureAction {
    /// Open the device that the worker's selector names.
    OpenDevice,
    /// Read the next raw frame, waiting for it as long as it takes.
    ReadFrame,
    /// Release the device, if one is open, and end the thread.
    Release,
}

/// What happened while the worker thread carried out an action.
#[derive(Debug)]
pub enum CaptureEvent {
    /// The device is open.
    DeviceOpened,
    /// The device could not be opened.
    DeviceOpenFailed,
    /// The device delivered a frame.
    FrameRead(RawFrame),
    /// Reading from the device failed.
    ReadFailed,
    /// The owner of the worker asked it to stop.
    StopRequested,
}

/// Mathematical content of a [`CaptureEvent`].
pub enum EventView {
    DeviceOpened,
    DeviceOpenFailed,
    FrameRead(RawFrameView),
    ReadFailed,
    StopRequested,
}

impl View for CaptureEvent {
    type V = EventView;

    open spec fn view(&self) -> EventView {
        match self {
            CaptureEvent::DeviceOpened => EventView::DeviceOpened,
            CaptureEvent::DeviceOpenFailed => EventView::DeviceOpenFailed,
            CaptureEvent::FrameRead(raw) => EventView::FrameRead(raw@),
            CaptureEvent::ReadFailed => EventView::ReadFailed,
            CaptureEvent::StopRequested => EventView::StopRequested,
        }
    }
}

/// The worker's answer to an event.
#[derive(Debug, Clone, Copy, PartialEq, Eq, Structural)]
pub struct StepReport {
    /// What the worker thread does next.
    pub action: CaptureAction,
    /// Set when the event was a frame that could not be normalised and was
    /// skipped.
    pub skipped: Option<ConversionError>,
}

/// The outcome of one step: the worker's phase and the channel after it,
/// and the report handed back.
pub struct Transition {
    pub phase: Phase,
    pub channel: ChannelView,
    pub report: StepReport,
}

impl Phase {
    /// Whether the worker has stopped for good.
    pub open spec fn stopped(self) -> bool {
        self is Released || self is Failed
    }

    /// The action that a worker in this phase is waiting on.
    pub open spec fn pending_action(self) -> CaptureAction {
        match self {
            Phase::Opening => CaptureAction::OpenDevice,
            Phase::Capturing => CaptureAction::ReadFrame,
            _ => CaptureAction::Release,
        }
    }
}

/// The step that changes nothing: the worker stays in `phase` and asks
/// again for the action it is waiting on.
pub open spec fn stay(phase: Phase, channel: ChannelView) -> Transition {
    Transition {
        phase,
        channel,
        report: StepReport { action: phase.pending_action(), skipped: None },
    }
}

/// The step that ends the worker in `phase`: the channel closes and the
/// device is released.
pub open spec fn halt(phase: Phase, channel: ChannelView) -> Transition {
    Transition {
        phase,
        channel: channel.close(),
        report: StepReport { action: CaptureAction::Release, skipped: None },
    }
}

/// What the arrival of a raw frame does to a capturing worker.
///
/// A frame that cannot be normalised is skipped: the channel is left as it
/// is and the worker reads on. A normalised frame is published, replacing
/// whatever was pending; if the channel was closed behind the worker's back,
/// the worker stops.
pub open spec fn on_frame(raw: RawFrameView, channel: ChannelView) -> Transition {
    match conversion(raw) {
        Err(reason) => Transition {
            phase: Phase::Capturing,
            channel,
            report: StepReport { action: CaptureAction::ReadFrame, skipped: Some(reason) },
        },
        Ok(frame) => if channel.closed {
            halt(Phase::Failed(CaptureError::SourceClosed), channel)
        } else {
            Transition {
                phase: Phase::Capturing,
                channel: channel.publish(frame),
                report: StepReport { action: CaptureAction::ReadFrame, skipped: None },
            }
        },
    }
}

/// The worker's transition function.
///
/// While opening, the worker waits to hear whether the device opened; a
/// failure to open is final. While capturing, each frame is handled as
/// [`on_frame`] says and a failed read is final. A stop request ends the
/// worker in either phase. A stopped worker stays stopped and keeps the
/// channel closed. An event that does not answer the action the worker is
/// waiting on changes nothing.
pub open spec fn transition(phase: Phase, event: EventView, channel: ChannelView) -> Transition {
    match phase {
        Phase::Opening => match event {
            EventView::DeviceOpened => Transition {
                phase: Phase::Capturing,
                channel,
                report: StepReport { action: CaptureAction::ReadFrame, skipped: None },
            },
            EventView::DeviceOpenFailed => halt(
                Phase::Failed(CaptureError::DeviceOpenFailure),
                channel,
            ),
            EventView::StopRequested => halt(Phase::Released, channel),
            _ => stay(phase, channel),
        },
        Phase::Capturing => match event {
            EventView::FrameRead(raw) => on_frame(raw, channel),
            EventView::ReadFailed => halt(Phase::Failed(CaptureError::ReadFailure), channel),
            EventView::StopRequested => halt(Phase::Released, channel),
            _ => stay(phase, channel),
        },
        _ => halt(phase, channel),
    }
}

/// The producing side of the pipeline: it knows which device to capture
/// from and where the capture loop stands.
#[derive(Debug)]
pub struct CaptureWorker {
    selector: DeviceSelector,
    phase: Phase,
}

impl CaptureWorker {
    /// The device that this worker captures from.
    pub closed spec fn spec_selector(&self) -> SelectorView {
        self.selector@
    }

    /// Where this worker stands.
    pub closed spec fn spec_phase(&self) -> Phase {
        self.phase
    }

    /// A worker for the given device. Its first action is to open the
    /// device.
    pub fn start(selector: DeviceSelector) -> (worker: CaptureWorker)
        ensures
            worker.spec_selector() == selector@,
            worker.spec_phase() == Phase::Opening,
    {
        CaptureWorker { selector, phase: Phase::Opening }
    }

    /// The device that this worker captures from.
    pub fn selector(&self) -> (selector: &DeviceSelector)
        ensures
            selector@ == self.spec_selector(),
    {
        &self.selector
    }

    /// Where this worker stands.
    pub fn phase(&self) -> (phase: Phase)
        ensures
            phase == self.spec_phase(),
    {
        self.phase
    }

    /// Whether the worker has stopped for good.
    pub fn is_stopped(&self) -> (stopped: bool)
        ensures
            stopped == self.spec_phase().stopped(),
    {
        match self.phase {
            Phase::Released => true,
            Phase::Failed(_) => true,
            _ => false,
        }
    }

    /// The condition that stopped the worker, if a failure did.
    pub fn failure(&self) -> (failure: Option<CaptureError>)
        ensures
            failure == match self.spec_phase() {
                Phase::Failed(reason) => Some(reason),
                _ => None,
            },
    {
        match self.phase {
            Phase::Failed(reason) => Some(reason),
            _ => None,
        }
    }

    /// The action that the worker is waiting on.
    pub fn next_action(&self) -> (action: CaptureAction)
        ensures
            action == self.spec_phase().pending_action(),
    {
        match self.phase {
            Phase::Opening => CaptureAction::OpenDevice,
            Phase::Capturing => CaptureAction::ReadFrame,
            _ => CaptureAction::Release,
        }
    }

    /// Takes one event and says what to do next, as [`transition`] defines.
    ///
    /// The step never waits and never fails: a frame that cannot be
    /// normalised is reported and skipped without touching the channel, and
    /// whenever the worker is stopped afterwards, the channel is closed.
    pub fn step(&mut self, event: CaptureEvent, channel: &mut FrameChannel) -> (report: StepReport)
        ensures
            final(self).spec_selector() == old(self).spec_selector(),
            final(self).spec_phase() == transition(
                old(self).spec_phase(),
                event@,
                old(channel)@,
            ).phase,
            final(channel)@ == transition(old(self).spec_phase(), event@, old(channel)@).channel,
            report == transition(old(self).spec_phase(), event@, old(channel)@).report,
            final(self).spec_phase().stopped() ==> final(channel)@.closed,
            report.skipped is Some ==> final(channel)@ == old(channel)@,
    {
        match self.phase {
            Phase::Opening => match event {
                CaptureEvent::DeviceOpened => {
                    self.phase = Phase::Capturing;
                    StepReport { action: CaptureAction::ReadFrame, skipped: None }
                },
                CaptureEvent::DeviceOpenFailed => self.halt(
                    Phase::Failed(CaptureError::DeviceOpenFailure),
                    channel,
                ),
                CaptureEvent::StopRequested => self.halt(Phase::Released, channel),
                _ => StepReport { action: CaptureAction::OpenDevice, skipped: None },
            },
            Phase::Capturing => match event {
                CaptureEvent::FrameRead(raw) => match convert(&raw) {
                    Err(reason) => StepReport {
                        action: CaptureAction::ReadFrame,
                        skipped: Some(reason),
                    },
                    Ok(frame) => match channel.publish(frame) {
                        Ok(()) => StepReport { action: CaptureAction::ReadFrame, skipped: None },
                        Err(_) => self.halt(Phase::Failed(CaptureError::SourceClosed), channel),
                    },
                },
                CaptureEvent::ReadFailed => self.halt(
                    Phase::Failed(CaptureError::ReadFailure),
                    channel,
                ),
                CaptureEvent::StopRequested => self.halt(Phase::Released, channel),
                _ => StepReport { action: CaptureAction::ReadFrame, skipped: None },
            },
            stopped => self.halt(stopped, channel),
        }
    }

    /// Asks the worker to stop: the channel closes and the device is to be
    /// released.
    pub fn stop(&mut self, channel: &mut FrameChannel) -> (report: StepReport)
        ensures
            final(self).spec_selector() == old(self).spec_selector(),
            final(self).spec_phase() == transition(
                old(self).spec_phase(),
                EventView::StopRequested,
                old(channel)@,
            ).phase,
            final(self).spec_phase().stopped(),
            final(channel)@ == old(channel)@.close(),
            report == (StepReport { action: CaptureAction::Release, skipped: None }),
    {
        self.step(CaptureEvent::StopRequested, channel)
    }

    fn halt(&mut self, phase: Phase, channel: &mut FrameChannel) -> (report: StepReport)
        ensures
            final(self).spec_selector() == old(self).spec_selector(),
            final(self).spec_phase() == phase,
            final(channel)@ == old(channel)@.close(),
            report == halt(phase, old(channel)@).report,
    {
        self.phase = phase;
        channel.close();
        StepReport { action: CaptureAction::Release, skipped: None }
    }
}

/// A frame that cannot be normalised never disturbs the channel: while the
/// worker captures, such a frame is reported with the reason and skipped;
/// the pending frame, if any, stays exactly as it was and the worker reads
/// on.
pub proof fn lemma_rejected_frame_is_skipped(raw: RawFrameView, channel: ChannelView)
    requires
        conversion(raw) matches Err(_),
    ensures
        transition(Phase::Capturing, EventView::FrameRead(raw), channel) == (Transition {
            phase: Phase::Capturing,
            channel,
            report: StepReport {
                action: CaptureAction::ReadFrame,
                skipped: Some(conversion(raw)->Err_0),
            },
        }),
{
}

/// A raw frame whose byte count is not a multiple of three yields a
/// conversion error for that frame alone: the worker keeps capturing, and
/// the channel, with whatever frame is pending in it, is left untouched.
pub proof fn lemma_malformed_frame_is_skipped(raw: RawFrameView, channel: ChannelView)
    requires
        raw.bytes.len() % 3 != 0,
    ensures
        conversion(raw) is Err,
        transition(Phase::Capturing, EventView::FrameRead(raw), channel).report.skipped == Some(
            conversion(raw)->Err_0,
        ),
        transition(Phase::Capturing, EventView::FrameRead(raw), channel).report.action
            == CaptureAction::ReadFrame,
        transition(Phase::Capturing, EventView::FrameRead(raw), channel).phase == Phase::Capturing,
        transition(Phase::Capturing, EventView::FrameRead(raw), channel).channel == channel,
        transition(Phase::Capturing, EventView::FrameRead(raw), channel).channel.pending
            == channel.pending,
{
    lemma_partial_pixel_is_rejected(raw);
}

/// Once the worker has stopped, whatever stopped it, the channel is closed:
/// every later query reports the closed condition instead of waiting, and
/// no further event brings the worker or the channel back.
pub proof fn lemma_stopped_worker_closes_channel(
    phase: Phase,
    event: EventView,
    later: EventView,
    channel: ChannelView,
)
    requires
        transition(phase, event, channel).phase.stopped(),
    ensures
        transition(phase, event, channel).channel.closed,
        transition(phase, event, channel).channel.latest() == Err::<
            Option<FrameView>,
            CaptureError,
        >(CaptureError::SourceClosed),
        transition(phase, event, channel).channel.attempt() == AttemptView::Closed,
        transition(
            transition(phase, event, channel).phase,
            later,
            transition(phase, event, channel).channel,
        ).phase == transition(phase, event, channel).phase,
        transition(
            transition(phase, event, channel).phase,
            later,
            transition(phase, event, channel).channel,
        ).channel == transition(phase, event, channel).channel,
{
}

/// The worker stops only when it must: a worker that is opening or
/// capturing keeps going unless the device fails to open, a read fails, a
/// stop is requested, or the channel was closed from outside.
pub proof fn lemma_worker_stops_only_when_it_must(
    phase: Phase,
    event: EventView,
    channel: ChannelView,
)
    requires
        !phase.stopped(),
        !channel.closed,
        transition(phase, event, channel).phase.stopped(),
    ensures
        event is DeviceOpenFailed || event is ReadFailed || event is StopRequested,
{
}

} // verus!
