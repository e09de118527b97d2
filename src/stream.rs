//! Locating the capture stream that portal absolute motion is addressed to.
//!
//! The stream's own loop runs elsewhere; it reports state changes here, and the
//! waiting caller is released by one readiness signal.

use vstd::prelude::*;
use crate::error::InputError;
use crate::output::{extent_x, extent_y, Outputs};

verus! {

/// Lowest frame rate that the capture stream accepts, in frames per second.
pub const MIN_FRAMERATE: u32 = 1;

/// Highest frame rate that the capture stream accepts, in frames per second.
pub const MAX_FRAMERATE: u32 = 1000;

/// The states that a capture stream reports.
#[derive(Clone, Copy, Debug, PartialEq, Eq, Structural)]
pub enum StreamStatus {
    Error,
    Unconnected,
    Connecting,
    Paused,
    Streaming,
}

/// The RGB-family pixel formats that the capture stream accepts.
#[derive(Clone, Copy, Debug, PartialEq, Eq, Structural)]
pub enum PixelFormat {
    Rgb,
    Rgba,
    Rgbx,
    Bgrx,
    Bgra,
}

/// The accepted pixel formats, the preferred one first.
pub fn capture_formats() -> (r: Vec<PixelFormat>)
    ensures
        r@ == seq![PixelFormat::Rgb, PixelFormat::Rgba, PixelFormat::Rgbx, PixelFormat::Bgrx, PixelFormat::Bgra],
{
    let r = vec![PixelFormat::Rgb, PixelFormat::Rgba, PixelFormat::Rgbx, PixelFormat::Bgrx, PixelFormat::Bgra];
    assert(r@ =~= seq![PixelFormat::Rgb, PixelFormat::Rgba, PixelFormat::Rgbx, PixelFormat::Bgrx, PixelFormat::Bgra]);
    r
}

/// The range of video formats that the capture stream declares: any size up to
/// the bounding extent of all displays, and a frame rate between the two bounds.
#[derive(Clone, Copy, Debug, PartialEq, Eq, Structural)]
pub struct CaptureEnvelope {
    pub max_width: u32,
    pub max_height: u32,
    pub min_framerate: u32,
    pub max_framerate: u32,
}

/// The format range for a capture of all of `outputs`.
pub fn capture_envelope(outputs: &Outputs) -> (r: CaptureEnvelope)
    ensures
        r.max_width == extent_x(outputs@),
        r.max_height == extent_y(outputs@),
        r.min_framerate == MIN_FRAMERATE,
        r.max_framerate == MAX_FRAMERATE,
{
    let (w, h) = outputs.dimensions();
    CaptureEnvelope { max_width: w, max_height: h, min_framerate: MIN_FRAMERATE, max_framerate: MAX_FRAMERATE }
}

/// Watches the state changes of one negotiation and says when to raise the
/// readiness signal: the first time the stream is streaming, and never again.
pub struct StreamWatch {
    pub signaled: bool,
}

impl StreamWatch {
    pub fn new() -> (r: StreamWatch)
        ensures
            !r.signaled,
    {
        StreamWatch { signaled: false }
    }

    /// Whether to raise the signal now.
    pub fn on_state_changed(&mut self, status: StreamStatus) -> (r: bool)
        ensures
            r == (status == StreamStatus::Streaming && !old(self).signaled),
            final(self).signaled == (old(self).signaled || r),
    {
        if status == StreamStatus::Streaming && !self.signaled {
            self.signaled = true;
            true
        } else {
            false
        }
    }
}

/// The outcome of a negotiation: the stream's node identifier once it reached the
/// streaming state and reported one, `CaptureNegotiationFailed` otherwise (an
/// expired wait included).
pub fn negotiation_outcome(reached_streaming: bool, node_id: Option<u32>) -> (r: Result<u32, InputError>)
    ensures
        r == (match node_id {
            Some(id) if reached_streaming => Ok::<u32, InputError>(id),
            _ => Err(InputError::CaptureNegotiationFailed),
        }),
{
    match node_id {
        Some(id) if reached_streaming => Ok(id),
        _ => Err(InputError::CaptureNegotiationFailed),
    }
}

} // verus!
