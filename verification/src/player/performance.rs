//! Player errors and audio performance statistics.

use vstd::prelude::*;
use std::time::Duration;
use crate::text::{concat, decimal, u64_to_string};

verus! {

/// Player errors.
#[derive(Debug, Clone)]
pub enum PlayerError {
    AudioInit(String),
    Decode(String),
    ChannelClosed,
    UnsupportedFormat(String),
    FileNotFound(String),
}

/// The message describing a player error.
pub open spec fn player_error_text(e: PlayerError) -> Seq<char> {
    match e {
        PlayerError::AudioInit(s) => "Audio output initialization failed: "@ + s@,
        PlayerError::Decode(s) => "Failed to decode audio: "@ + s@,
        PlayerError::ChannelClosed => "Audio channel closed"@,
        PlayerError::UnsupportedFormat(s) => "Unsupported audio format: "@ + s@,
        PlayerError::FileNotFound(s) => "File not found: "@ + s@,
    }
}

impl PlayerError {
    /// The message describing this error.
    pub fn message(&self) -> (r: String)
        ensures
            r@ == player_error_text(*self),
    {
        match self {
            PlayerError::AudioInit(s) => concat("Audio output initialization failed: ", s.as_str()),
            PlayerError::Decode(s) => concat("Failed to decode audio: ", s.as_str()),
            PlayerError::ChannelClosed => crate::text::owned("Audio channel closed"),
            PlayerError::UnsupportedFormat(s) => concat("Unsupported audio format: ", s.as_str()),
            PlayerError::FileNotFound(s) => concat("File not found: ", s.as_str()),
        }
    }
}

/// Audio performance statistics for monitoring.
#[derive(Debug, Clone)]
pub struct AudioPerformanceStats {
    /// Number of audio callbacks processed
    pub callback_count: u64,
    /// Total samples processed
    pub samples_processed: u64,
    /// Peak callback duration in microseconds
    pub peak_callback_us: u32,
    /// Number of buffer underruns
    pub underruns: u32,
    /// Current buffer fill percentage (0-100)
    pub buffer_fill_percent: u32,
    /// SIMD acceleration level in use
    pub simd_level: &'static str,
}

/// The health rating of playback statistics.
pub open spec fn health_rating_of(underruns: u32, peak_us: u32) -> Seq<char> {
    if underruns == 0 && peak_us < 1000 {
        "Excellent"@
    } else if underruns == 0 && peak_us < 5000 {
        "Good"@
    } else if underruns < 5 {
        "Fair"@
    } else {
        "Poor"@
    }
}

impl AudioPerformanceStats {
    /// Check if audio is performing well (no underruns, callbacks under 5 ms).
    pub fn is_healthy(&self) -> (r: bool)
        ensures
            r == (self.underruns == 0 && self.peak_callback_us < 5000),
    {
        self.underruns == 0 && self.peak_callback_us < 5000
    }

    /// Get a health rating.
    pub fn health_rating(&self) -> (r: &'static str)
        ensures
            r@ == health_rating_of(self.underruns, self.peak_callback_us),
    {
        if self.underruns == 0 && self.peak_callback_us < 1000 {
            "Excellent"
        } else if self.underruns == 0 && self.peak_callback_us < 5000 {
            "Good"
        } else if self.underruns < 5 {
            "Fair"
        } else {
            "Poor"
        }
    }

    /// The peak callback time when it is below a millisecond, in
    /// microseconds ("{n}µs peak"); longer peaks are shown in milliseconds
    /// with a fraction, which is no integer text.
    pub fn callback_timing_micros(&self) -> (r: Option<String>)
        ensures
            (r is Some) == (self.peak_callback_us < 1000),
            r matches Some(t) ==> t@ == decimal(self.peak_callback_us as nat) + "µs peak"@,
    {
        if self.peak_callback_us < 1000 {
            let n = u64_to_string(self.peak_callback_us as u64);
            Some(concat(n.as_str(), "µs peak"))
        } else {
            None
        }
    }
}

/// Law: healthy statistics rate as good or excellent, and statistics that
/// rate excellent or good are healthy.
pub proof fn healthy_means_good_rating(underruns: u32, peak_us: u32)
    ensures
        (underruns == 0 && peak_us < 5000) <==> (health_rating_of(underruns, peak_us) == "Excellent"@
            || health_rating_of(underruns, peak_us) == "Good"@),
{
    reveal_strlit("Excellent");
    reveal_strlit("Good");
    reveal_strlit("Fair");
    reveal_strlit("Poor");
    assert("Fair"@.len() == 4);
    assert("Poor"@.len() == 4);
    assert("Good"@.len() == 4);
    assert("Excellent"@.len() == 9);
    assert("Fair"@ != "Good"@) by {
        assert("Fair"@[0] != "Good"@[0]);
    }
    assert("Poor"@ != "Good"@) by {
        assert("Poor"@[0] != "Good"@[0]);
    }
}

/// Information about a decoded frame.
#[derive(Debug, Clone)]
pub struct DecodedFrame {
    /// Number of samples (per channel) decoded
    pub samples: usize,
    /// Timestamp of this frame
    pub timestamp: Duration,
}

/// Visualization mode.
#[derive(Debug, Clone, Copy, PartialEq, Eq, Structural)]
pub enum VisualizationMode {
    /// No visualization
    Off,
    /// Spectrum analyzer bars
    Spectrum,
    /// VU meter (peak levels)
    VuMeter,
    /// Waveform oscilloscope
    Waveform,
}

impl Default for VisualizationMode {
    fn default() -> (r: VisualizationMode)
        ensures
            r == VisualizationMode::Off,
    {
        VisualizationMode::Off
    }
}

}
