//! The failure conditions of the acquisition pipeline.

use vstd::prelude::*;

verus! {

/// Why a raw frame could not be normalised.
///
/// A conversion failure concerns one frame only: the frame is skipped and the
/// worker carries on.
#[derive(Debug, Clone, Copy, PartialEq, Eq, Structural)]
pub enum ConversionError {
    /// The device reported a channel count other than three.
    UnsupportedLayout,
    /// The buffer does not hold exactly three bytes for each of the
    /// `width * height` pixels.
    SizeMismatch,
}

/// The conditions that end a capture session.
#[derive(Debug, Clone, Copy, PartialEq, Eq, Structural)]
pub enum CaptureError {
    /// The capture device could not be opened, so no frame source exists.
    DeviceOpenFailure,
    /// Reading a frame from the opened device failed.
    ReadFailure,
    /// The worker has stopped; the channel will never carry another frame.
    SourceClosed,
}

impl ConversionError {
    /// The text of [`ConversionError::message`].
    pub open spec fn message_text(self) -> Seq<char> {
        match self {
            ConversionError::UnsupportedLayout => "raw frame does not have three channels"@,
            ConversionError::SizeMismatch => "raw frame buffer does not match its geometry"@,
        }
    }

    /// A short description for logs and error reports.
    pub fn message(&self) -> (text: &'static str)
        ensures
            text@ == self.message_text(),
    {
        match self {
            ConversionError::UnsupportedLayout => "raw frame does not have three channels",
            ConversionError::SizeMismatch => "raw frame buffer does not match its geometry",
        }
    }
}

impl CaptureError {
    /// The text of [`CaptureError::message`].
    pub open spec fn message_text(self) -> Seq<char> {
        match self {
            CaptureError::DeviceOpenFailure => "capture device could not be opened"@,
            CaptureError::ReadFailure => "reading a frame from the capture device failed"@,
            CaptureError::SourceClosed => "capture source is closed"@,
        }
    }

    /// A short description for logs and error reports.
    pub fn message(&self) -> (text: &'static str)
        ensures
            text@ == self.message_text(),
    {
        match self {
            CaptureError::DeviceOpenFailure => "capture device could not be opened",
            CaptureError::ReadFailure => "reading a frame from the capture device failed",
            CaptureError::SourceClosed => "capture source is closed",
        }
    }
}

} // verus!
