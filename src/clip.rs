//! Decoded sound: interleaved 16-bit frames of one or two channels.
use vstd::prelude::*;

verus! {

/// A decoded sound held in memory. Voices read it through cursors of their
/// own, so one clip serves any number of simultaneous plays.
pub struct Clip {
    /// 1 (mono) or 2 (stereo)
    pub channels: usize,
    /// frames per second
    pub sample_rate: u32,
    /// interleaved samples, `channels` per frame
    pub samples: Vec<i16>,
}

/// Why a decoded sound cannot be played on the configured output.
#[derive(Clone, Copy, Debug, PartialEq, Eq, Structural)]
pub enum ClipError {
    /// its channel count is neither 1 nor 2
    ChannelCount,
    /// its sample count is not a whole number of frames
    PartialFrame,
    /// its sample rate differs from the output's
    SampleRate,
}

impl Clip {
    /// The clip holds whole frames of one or two channels.
    pub open spec fn wf(&self) -> bool {
        &&& (self.channels == 1 || self.channels == 2)
        &&& self.samples@.len() % (self.channels as nat) == 0
    }

    /// Its length in frames.
    pub open spec fn frames(&self) -> nat {
        self.samples@.len() / (self.channels as nat)
    }

    /// The error `validate` reports for a clip of these properties, if any.
    pub open spec fn defect(channels: usize, sample_rate: u32, len: nat, output_rate: u32) -> Option<ClipError> {
        if channels != 1 && channels != 2 {
            Some(ClipError::ChannelCount)
        } else if len % (channels as nat) != 0 {
            Some(ClipError::PartialFrame)
        } else if sample_rate != output_rate {
            Some(ClipError::SampleRate)
        } else {
            None
        }
    }

    /// Why the clip cannot be played at `output_rate`, if it cannot.
    pub fn validate(&self, output_rate: u32) -> (r: Option<ClipError>)
        ensures
            r == Clip::defect(self.channels, self.sample_rate, self.samples@.len(), output_rate),
            r is None ==> self.wf(),
    {
        if self.channels != 1 && self.channels != 2 {
            Some(ClipError::ChannelCount)
        } else if self.samples.len() % self.channels != 0 {
            Some(ClipError::PartialFrame)
        } else if self.sample_rate != output_rate {
            Some(ClipError::SampleRate)
        } else {
            None
        }
    }

    /// Its length in frames.
    pub fn frame_count(&self) -> (r: usize)
        requires
            self.wf(),
        ensures
            r == self.frames(),
    {
        self.samples.len() / self.channels
    }
}

} // verus!
