//! The latest-wins mailbox between the capture worker and its consumer.

use crate::error::CaptureError;
use crate::frame::{ConvertedFrame, FrameView};
use vstd::prelude::*;

verus! {

/// Mathematical content of a [`FrameChannel`]: the frame that awaits
/// retrieval, if any, and whether the source has closed.
pub struct ChannelView {
    pub pending: Option<FrameView>,
    pub closed: bool,
}

/// What one attempt of a blocking retrieval finds, as a mathematical value.
pub enum AttemptView {
    Ready(FrameView),
    Wait,
    Closed,
}

impl ChannelView {
    /// An open channel on which nothing was published yet.
    pub open spec fn fresh() -> ChannelView {
        ChannelView { pending: None, closed: false }
    }

    /// The channel after the worker published `frame`: on an open channel the
    /// frame takes the slot, whatever was in it; a closed channel stays as
    /// it is.
    pub open spec fn publish(self, frame: FrameView) -> ChannelView {
        if self.closed {
            self
        } else {
            ChannelView { pending: Some(frame), closed: false }
        }
    }

    /// The channel after the worker published `frames` one after the other.
    pub open spec fn publish_all(self, frames: Seq<FrameView>) -> ChannelView
        decreases frames.len(),
    {
        if frames.len() == 0 {
            self
        } else {
            self.publish_all(frames.drop_last()).publish(frames.last())
        }
    }

    /// What a retrieval hands out: the pending frame of an open channel, if
    /// there is one, and the closed condition on a closed channel.
    pub open spec fn latest(self) -> Result<Option<FrameView>, CaptureError> {
        if self.closed {
            Err(CaptureError::SourceClosed)
        } else {
            Ok(self.pending)
        }
    }

    /// The channel after a retrieval: the slot of an open channel is empty; a
    /// closed channel stays as it is.
    pub open spec fn after_retrieval(self) -> ChannelView {
        if self.closed {
            self
        } else {
            ChannelView { pending: None, closed: false }
        }
    }

    /// What one attempt of a blocking retrieval finds.
    pub open spec fn attempt(self) -> AttemptView {
        if self.closed {
            AttemptView::Closed
        } else {
            match self.pending {
                Some(frame) => AttemptView::Ready(frame),
                None => AttemptView::Wait,
            }
        }
    }

    /// The channel after the source closed: nothing is pending any more.
    pub open spec fn close(self) -> ChannelView {
        ChannelView { pending: None, closed: true }
    }
}

/// What one attempt of a blocking retrieval found.
#[derive(Debug, PartialEq, Eq)]
pub enum Attempt {
    /// A frame was pending; here it is.
    Ready(ConvertedFrame),
    /// Nothing is pending on an open channel: the caller parks until the
    /// next publication or closure wakes it, then attempts again.
    Wait,
    /// The source has closed; waiting would never end.
    Closed,
}

impl View for Attempt {
    type V = AttemptView;

    open spec fn view(&self) -> AttemptView {
        match self {
            Attempt::Ready(frame) => AttemptView::Ready(frame@),
            Attempt::Wait => AttemptView::Wait,
            Attempt::Closed => AttemptView::Closed,
        }
    }
}

/// The mathematical value of what a retrieval returned.
pub open spec fn retrieved(res: Result<Option<ConvertedFrame>, CaptureError>) -> Result<
    Option<FrameView>,
    CaptureError,
> {
    match res {
        Ok(Some(frame)) => Ok(Some(frame@)),
        Ok(None) => Ok(None),
        Err(e) => Err(e),
    }
}

/// A single-slot mailbox with latest-wins semantics.
///
/// The worker publishes into it and never waits; a frame that was not
/// retrieved before the next one arrives is dropped. The consumer retrieves
/// the freshest frame, at most once each. Once the source has closed, every
/// retrieval reports so.
#[derive(Debug)]
pub struct FrameChannel {
    pending: Option<ConvertedFrame>,
    closed: bool,
}

impl View for FrameChannel {
    type V = ChannelView;

    closed spec fn view(&self) -> ChannelView {
        ChannelView {
            pending: match self.pending {
                Some(frame) => Some(frame@),
                None => None,
            },
            closed: self.closed,
        }
    }
}

impl FrameChannel {
    /// An open channel with nothing pending.
    pub fn new() -> (channel: FrameChannel)
        ensures
            channel@ == ChannelView::fresh(),
    {
        FrameChannel { pending: None, closed: false }
    }

    /// Publishes a frame without waiting. On an open channel the frame
    /// replaces whatever was pending; a closed channel refuses it and stays
    /// as it is.
    pub fn publish(&mut self, frame: ConvertedFrame) -> (res: Result<(), CaptureError>)
        ensures
            final(self)@ == old(self)@.publish(frame@),
            old(self)@.closed ==> res == Err::<(), CaptureError>(CaptureError::SourceClosed),
            !old(self)@.closed ==> res == Ok::<(), CaptureError>(()),
    {
        if self.closed {
            Err(CaptureError::SourceClosed)
        } else {
            self.pending = Some(frame);
            Ok(())
        }
    }

    /// Retrieves the most recently published frame that was not retrieved
    /// yet, or nothing if none is pending. Never waits. On a closed channel
    /// the answer is the closed condition.
    pub fn try_get_latest(&mut self) -> (res: Result<Option<ConvertedFrame>, CaptureError>)
        ensures
            retrieved(res) == old(self)@.latest(),
            final(self)@ == old(self)@.after_retrieval(),
    {
        if self.closed {
            Err(CaptureError::SourceClosed)
        } else {
            Ok(self.pending.take())
        }
    }

    /// One attempt of a blocking retrieval: hands out the pending frame, or
    /// tells the caller to wait for the next publication, or reports that
    /// the source has closed. The caller that is told to wait parks its
    /// thread and attempts again when woken.
    pub fn attempt_blocking_get(&mut self) -> (res: Attempt)
        ensures
            res@ == old(self)@.attempt(),
            final(self)@ == old(self)@.after_retrieval(),
    {
        if self.closed {
            Attempt::Closed
        } else {
            match self.pending.take() {
                Some(frame) => Attempt::Ready(frame),
                None => Attempt::Wait,
            }
        }
    }

    /// Marks the source as closed and drops the pending frame. From now on
    /// every retrieval and every publication reports the closed condition.
    pub fn close(&mut self)
        ensures
            final(self)@ == old(self)@.close(),
    {
        self.pending = None;
        self.closed = true;
    }

    /// Whether the source has closed.
    pub fn is_closed(&self) -> (closed: bool)
        ensures
            closed == self@.closed,
    {
        self.closed
    }

    /// Whether a frame awaits retrieval.
    pub fn has_pending(&self) -> (pending: bool)
        ensures
            pending == self@.pending is Some,
    {
        self.pending.is_some()
    }
}

/// Latest wins: when two frames are published to an open channel before any
/// retrieval, the first retrieval hands out the second frame, and the
/// retrieval after it, with no publication in between, hands out nothing.
pub proof fn lemma_latest_wins(channel: ChannelView, first: FrameView, second: FrameView)
    requires
        !channel.closed,
    ensures
        channel.publish(first).publish(second).latest() == Ok::<Option<FrameView>, CaptureError>(
            Some(second),
        ),
        channel.publish(first).publish(second).after_retrieval().latest() == Ok::<
            Option<FrameView>,
            CaptureError,
        >(None),
{
}

/// However many frames are published to an open channel between two
/// retrievals, only the last of them is delivered: the frames before it are
/// dropped, and the channel stays open throughout.
pub proof fn lemma_only_the_last_publication_is_delivered(
    channel: ChannelView,
    frames: Seq<FrameView>,
)
    requires
        !channel.closed,
        frames.len() > 0,
    ensures
        !channel.publish_all(frames).closed,
        channel.publish_all(frames).latest() == Ok::<Option<FrameView>, CaptureError>(
            Some(frames.last()),
        ),
        channel.publish_all(frames).after_retrieval().latest() == Ok::<
            Option<FrameView>,
            CaptureError,
        >(None),
    decreases frames.len(),
{
    if frames.len() > 1 {
        lemma_only_the_last_publication_is_delivered(channel, frames.drop_last());
    } else {
        assert(channel.publish_all(frames.drop_last()) == channel);
    }
}

/// At most one frame is ever pending, and publishing to an open channel
/// always succeeds in placing the frame: the slot then holds exactly the
/// frame just published.
pub proof fn lemma_publish_replaces(channel: ChannelView, frame: FrameView)
    requires
        !channel.closed,
    ensures
        channel.publish(frame).pending == Some(frame),
        !channel.publish(frame).closed,
{
}

/// A blocking retrieval that starts on an open channel with nothing pending
/// is told to wait, and waiting changes nothing; after the worker has
/// published one frame, the next attempt hands out exactly that frame and
/// leaves nothing pending.
pub proof fn lemma_blocking_get_waits_for_publication(channel: ChannelView, frame: FrameView)
    requires
        !channel.closed,
        channel.pending is None,
    ensures
        channel.attempt() == AttemptView::Wait,
        channel.after_retrieval() == channel,
        channel.after_retrieval().publish(frame).attempt() == AttemptView::Ready(frame),
        channel.after_retrieval().publish(frame).after_retrieval().attempt() == AttemptView::Wait,
{
}

/// Once the source has closed, every query reports the closed condition and
/// no operation reopens the channel: it stays closed through retrievals,
/// publications and further closures.
pub proof fn lemma_closed_stays_closed(channel: ChannelView, frame: FrameView)
    ensures
        channel.close().closed,
        channel.close().latest() == Err::<Option<FrameView>, CaptureError>(
            CaptureError::SourceClosed,
        ),
        channel.close().attempt() == AttemptView::Closed,
        channel.close().after_retrieval() == channel.close(),
        channel.close().publish(frame) == channel.close(),
        channel.close().close() == channel.close(),
{
}

} // verus!
