//! Player state types: playback status, track display info and duration text.

use vstd::prelude::*;
use std::sync::Arc;
use std::sync::atomic::{AtomicBool, AtomicU32, AtomicU64};
use std::sync::atomic::Ordering;
use std::time::Duration;
use crate::paths::{file_stem, path_file_stem};
use crate::text::{decimal, decimal_pad2, owned, push_char, push_decimal};
use crate::time::{duration_as_nanos, duration_nanos};

verus! {

/// The bit pattern of the `f32` value `1.0`, the initial volume.
pub const UNITY_VOLUME_BITS: u32 = 0x3f80_0000;

/// The duration of a whole number of nanoseconds (`Duration::from_nanos`).
pub uninterp spec fn nanos_duration(nanos: u64) -> Duration;


/// `Duration::from_nanos`.
///
/// Trusted: the result is `nanos_duration` of the argument, a duration of
/// exactly that many nanoseconds; the call does not panic for any `u64`.
#[verifier::external_body]
fn duration_from_nanos(nanos: u64) -> (r: Duration)
    ensures
        r == nanos_duration(nanos),
        duration_nanos(r) == nanos,
{
    Duration::from_nanos(nanos)
}

/// The low 64 bits of a 128-bit count, as the position counter keeps it.
fn low_64_bits(x: u128) -> (r: u64)
    ensures
        r == x as u64,
{
    #[verifier::truncate] (x as u64)
}

fn widen(x: u32) -> (r: u64)
    ensures
        r == x,
{
    x as u64
}

/// Lock-free shared state for the audio callback.
///
/// Every field is an atomic so the real-time audio thread never blocks.
/// Values read back may have been written by any thread, so no reader
/// function claims what it returns.
#[derive(Debug)]
pub struct AudioSharedState {
    /// Volume as f32 bits
    volume_bits: AtomicU32,
    /// Whether playback is active
    is_playing: AtomicBool,
    /// Whether the buffer is being flushed (drain old samples, output silence)
    is_flushing: AtomicBool,
    /// Current position in nanoseconds
    position_nanos: AtomicU64,
    /// Buffer underrun count
    underruns: AtomicU32,
    /// Callback invocation count (for latency calculation)
    callback_count: AtomicU64,
    /// Total samples processed
    samples_processed: AtomicU64,
    /// Peak callback duration in microseconds
    peak_callback_us: AtomicU32,
    /// Ring buffer fill level (0-100)
    buffer_fill_percent: AtomicU32,
}

/// The fill level that `set_buffer_fill` stores: the percentage capped at 100.
pub open spec fn capped_fill(percent: u32) -> u32 {
    if percent < 100 { percent } else { 100 }
}

/// The fill level that `set_buffer_fill` stores.
pub fn cap_fill_percent(percent: u32) -> (r: u32)
    ensures
        r == capped_fill(percent),
{
    if percent < 100 { percent } else { 100 }
}

impl AudioSharedState {
    /// The initial state: unity volume, stopped, all counters zero.
    pub fn initial() -> AudioSharedState {
        AudioSharedState {
            volume_bits: AtomicU32::new(UNITY_VOLUME_BITS),
            is_playing: AtomicBool::new(false),
            is_flushing: AtomicBool::new(false),
            position_nanos: AtomicU64::new(0),
            underruns: AtomicU32::new(0),
            callback_count: AtomicU64::new(0),
            samples_processed: AtomicU64::new(0),
            peak_callback_us: AtomicU32::new(0),
            buffer_fill_percent: AtomicU32::new(0),
        }
    }

    /// Create a new audio shared state wrapped in Arc.
    pub fn new() -> Arc<AudioSharedState> {
        Arc::new(AudioSharedState::initial())
    }

    /// Check if playback is active.
    pub fn is_playing(&self) -> bool {
        self.is_playing.load(Ordering::Relaxed)
    }

    /// Set the playing state.
    pub fn set_playing(&self, playing: bool) {
        self.is_playing.store(playing, Ordering::Relaxed);
    }

    /// Check if buffer is being flushed.
    pub fn is_flushing(&self) -> bool {
        self.is_flushing.load(Ordering::Acquire)
    }

    /// Start flushing - audio callback will drain buffer and output silence.
    pub fn start_flush(&self) {
        self.is_flushing.store(true, Ordering::Release);
    }

    /// Stop flushing - audio callback resumes normal operation.
    pub fn stop_flush(&self) {
        self.is_flushing.store(false, Ordering::Release);
    }

    /// Get the current position as Duration: the position counter, a
    /// whole number of nanoseconds, read as a duration.
    pub fn position(&self) -> (r: Duration)
        ensures
            exists|nanos: u64| r == nanos_duration(nanos),
    {
        let nanos = self.position_nanos.load(Ordering::Relaxed);
        let d = duration_from_nanos(nanos);
        assert(d == nanos_duration(nanos));
        d
    }

    /// Set the current position.
    pub fn set_position(&self, position: Duration) {
        let nanos = low_64_bits(duration_as_nanos(position));
        self.position_nanos.store(nanos, Ordering::Relaxed);
    }

    /// Get the underrun count.
    pub fn underruns(&self) -> u32 {
        self.underruns.load(Ordering::Relaxed)
    }

    /// Increment the underrun count (returns new value).
    pub fn increment_underruns(&self) -> u32 {
        let previous = self.underruns.fetch_add(1, Ordering::Relaxed);
        previous.wrapping_add(1)
    }

    /// Record a callback completion with timing.
    ///
    /// The peak callback duration becomes the larger of the stored peak and
    /// `duration_us`.
    pub fn record_callback(&self, samples: u32, duration_us: u32) {
        self.callback_count.fetch_add(1, Ordering::Relaxed);
        self.samples_processed.fetch_add(widen(samples), Ordering::Relaxed);
        self.peak_callback_us.fetch_max(duration_us, Ordering::Relaxed);
    }

    /// Set the buffer fill percentage (0-100).
    pub fn set_buffer_fill(&self, percent: u32) {
        self.buffer_fill_percent.store(cap_fill_percent(percent), Ordering::Relaxed);
    }

    /// Get the buffer fill percentage.
    pub fn buffer_fill(&self) -> u32 {
        self.buffer_fill_percent.load(Ordering::Relaxed)
    }

    /// Get the callback count.
    pub fn callback_count(&self) -> u64 {
        self.callback_count.load(Ordering::Relaxed)
    }

    /// Get total samples processed.
    pub fn samples_processed(&self) -> u64 {
        self.samples_processed.load(Ordering::Relaxed)
    }

    /// Get peak callback duration in microseconds.
    pub fn peak_callback_us(&self) -> u32 {
        self.peak_callback_us.load(Ordering::Relaxed)
    }

    /// Reset performance counters.
    pub fn reset_stats(&self) {
        self.underruns.store(0, Ordering::Relaxed);
        self.callback_count.store(0, Ordering::Relaxed);
        self.samples_processed.store(0, Ordering::Relaxed);
        self.peak_callback_us.store(0, Ordering::Relaxed);
    }
}

/// Current playback status.
#[derive(Debug, Clone, Copy, PartialEq, Eq, Structural)]
pub enum PlaybackStatus {
    Stopped,
    Loading,
    Playing,
    Paused,
}

/// The `M:SS` or `H:MM:SS` text for a number of seconds.
pub open spec fn duration_text(secs: nat) -> Seq<char> {
    let hours = secs / 3600;
    let mins = (secs % 3600) / 60;
    let s = secs % 60;
    if hours > 0 {
        decimal(hours) + seq![':'] + decimal_pad2(mins) + seq![':'] + decimal_pad2(s)
    } else {
        decimal(mins) + seq![':'] + decimal_pad2(s)
    }
}

fn push_pad2(out: &mut String, n: u64)
    ensures
        final(out)@ == old(out)@ + decimal_pad2(n as nat),
{
    if n < 10 {
        push_char(out, '0');
        push_decimal(out, n);
        assert(old(out)@.push('0') + decimal(n as nat) == old(out)@ + (seq!['0'] + decimal(n as nat)));
    } else {
        push_decimal(out, n);
    }
}

/// Format a duration given in whole seconds as `M:SS`, or `H:MM:SS` from one
/// hour on.
pub fn format_duration(secs: u64) -> (r: String)
    ensures
        r@ == duration_text(secs as nat),
{
    let hours = secs / 3600;
    let mins = (secs % 3600) / 60;
    let s = secs % 60;
    let mut out = String::new();
    if hours > 0 {
        push_decimal(&mut out, hours);
        push_char(&mut out, ':');
        push_pad2(&mut out, mins);
        push_char(&mut out, ':');
        push_pad2(&mut out, s);
        assert(out@ =~= duration_text(secs as nat));
    } else {
        push_decimal(&mut out, mins);
        push_char(&mut out, ':');
        push_pad2(&mut out, s);
        assert(out@ =~= duration_text(secs as nat));
    }
    out
}

/// The quality label of a source: hi-res lossless from 24 bits at 96 kHz,
/// lossless 24-bit, lossless, or lossy.
pub open spec fn quality_label_of(is_lossless: bool, bit_depth: u16, source_sample_rate: u32) -> Seq<char> {
    if is_lossless && bit_depth >= 24 && source_sample_rate >= 96000 {
        "Hi-Res Lossless"@
    } else if is_lossless && bit_depth >= 24 {
        "Lossless 24-bit"@
    } else if is_lossless {
        "Lossless"@
    } else {
        "Lossy"@
    }
}

/// The human-readable quality of a source.
pub fn quality_label(is_lossless: bool, bit_depth: u16, source_sample_rate: u32) -> (r: &'static str)
    ensures
        r@ == quality_label_of(is_lossless, bit_depth, source_sample_rate),
{
    if is_lossless && bit_depth >= 24 && source_sample_rate >= 96000 {
        "Hi-Res Lossless"
    } else if is_lossless && bit_depth >= 24 {
        "Lossless 24-bit"
    } else if is_lossless {
        "Lossless"
    } else {
        "Lossy"
    }
}

/// The quality emoji of a source: hi-res, CD quality or lossy.
pub fn quality_emoji(is_lossless: bool, bit_depth: u16) -> (r: &'static str)
    ensures
        r@ == (if is_lossless && bit_depth >= 24 {
            "🎵"@
        } else if is_lossless {
            "💿"@
        } else {
            "🎧"@
        }),
{
    if is_lossless && bit_depth >= 24 {
        "🎵"
    } else if is_lossless {
        "💿"
    } else {
        "🎧"
    }
}

/// The format line shown for a playing track:
/// `<format> • <rate>Hz / <channels>ch / <bits>bit • Lossless|Lossy`.
pub open spec fn format_info_text(format: Seq<char>, sample_rate: u32, channels: u16, bits: u16, is_lossless: bool) -> Seq<char> {
    format + " • "@ + decimal(sample_rate as nat) + "Hz / "@ + decimal(channels as nat) + "ch / "@ + decimal(
        bits as nat,
    ) + "bit • "@ + (if is_lossless { "Lossless"@ } else { "Lossy"@ })
}

/// Builds the format line shown for a playing track.
pub fn format_info(format: &str, sample_rate: u32, channels: u16, bits: u16, is_lossless: bool) -> (r: String)
    ensures
        r@ == format_info_text(format@, sample_rate, channels, bits, is_lossless),
{
    let mut out = owned(format);
    crate::text::push_str(&mut out, " • ");
    push_decimal(&mut out, sample_rate as u64);
    crate::text::push_str(&mut out, "Hz / ");
    push_decimal(&mut out, channels as u64);
    crate::text::push_str(&mut out, "ch / ");
    push_decimal(&mut out, bits as u64);
    crate::text::push_str(&mut out, "bit • ");
    crate::text::push_str(&mut out, if is_lossless { "Lossless" } else { "Lossy" });
    out
}

/// The name of a playback status.
pub open spec fn status_text(s: PlaybackStatus) -> Seq<char> {
    match s {
        PlaybackStatus::Stopped => "Stopped"@,
        PlaybackStatus::Playing => "Playing"@,
        PlaybackStatus::Paused => "Paused"@,
        PlaybackStatus::Loading => "Loading"@,
    }
}

/// A compact summary for logs: `Status@Position/Duration`, e.g.
/// `Playing@1:23/4:56`.
pub fn debug_summary(status: PlaybackStatus, position_secs: u64, duration_secs: u64) -> (r: String)
    ensures
        r@ == status_text(status) + "@"@ + duration_text(position_secs as nat) + "/"@ + duration_text(
            duration_secs as nat,
        ),
{
    let name = match status {
        PlaybackStatus::Stopped => "Stopped",
        PlaybackStatus::Playing => "Playing",
        PlaybackStatus::Paused => "Paused",
        PlaybackStatus::Loading => "Loading",
    };
    let mut out = owned(name);
    crate::text::push_str(&mut out, "@");
    let p = format_duration(position_secs);
    crate::text::push_str(&mut out, p.as_str());
    crate::text::push_str(&mut out, "/");
    let d = format_duration(duration_secs);
    crate::text::push_str(&mut out, d.as_str());
    out
}

/// Track metadata for display.
#[derive(Debug, Clone, Default)]
pub struct TrackInfo {
    pub title: Option<String>,
    pub artist: Option<String>,
    pub album: Option<String>,
    pub track_number: Option<u32>,
    pub year: Option<i32>,
    pub genre: Option<String>,
}

/// The file stem of a path, or `"Unknown"` when it has none.
pub open spec fn stem_or_unknown(path: Seq<char>) -> Seq<char> {
    match path_file_stem(path) {
        Some(s) => s,
        None => "Unknown"@,
    }
}

/// The file stem of a path, or `"Unknown"` when it has none.
pub fn stem_or_unknown_string(path: &str) -> (r: String)
    ensures
        r@ == stem_or_unknown(path@),
{
    match file_stem(path) {
        Some(s) => s,
        None => owned("Unknown"),
    }
}

impl TrackInfo {
    /// Get display title (filename if no title tag).
    pub fn display_title(&self, path: &str) -> (r: String)
        ensures
            r@ == (match self.title {
                Some(t) => t@,
                None => stem_or_unknown(path@),
            }),
    {
        match &self.title {
            Some(t) => t.clone(),
            None => stem_or_unknown_string(path),
        }
    }

    /// Get display artist.
    pub fn display_artist(&self) -> (r: &str)
        ensures
            r@ == (match self.artist {
                Some(a) => a@,
                None => "Unknown Artist"@,
            }),
    {
        match &self.artist {
            Some(a) => a.as_str(),
            None => "Unknown Artist",
        }
    }

    /// Get display album.
    pub fn display_album(&self) -> (r: &str)
        ensures
            r@ == (match self.album {
                Some(a) => a@,
                None => "Unknown Album"@,
            }),
    {
        match &self.album {
            Some(a) => a.as_str(),
            None => "Unknown Album",
        }
    }
}

}
