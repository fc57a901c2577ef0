//! System diagnostics for audio work: the checks, how they are rated, and
//! the readings of audio devices, the power plan and the timer resolution.
//!
//! Querying the operating system is the caller's work; the rules that turn
//! readings into checks and a rating are here.

use vstd::prelude::*;
use crate::player::simd::SimdLevel;
use crate::text::{
    chars_of, concat, contains_chars, contains_seq, find_chars, find_spec, first_line, first_line_spec,
    owned, rfind_char, rfind_spec, slice_chars, str_eq, string_from_chars, to_lowercase, trim_chars,
    trim_spec, u64_to_string, unicode_lowercase, occurs_at, replace_all, lines, text_lines,
    char_vecs_view, push_str,
};

verus! {

/// Overall system readiness rating for audio work
#[derive(Debug, Clone, Copy, PartialEq, Eq, Structural)]
pub enum AudioReadiness {
    /// System is well-configured for low-latency audio
    Excellent,
    /// System should handle audio fine
    Good,
    /// Some issues detected, may have occasional glitches
    Fair,
    /// Significant issues detected, likely to have audio problems
    Poor,
}

impl AudioReadiness {
    pub fn as_str(&self) -> (r: &'static str)
        ensures
            r@ == (match self {
                AudioReadiness::Excellent => "Excellent"@,
                AudioReadiness::Good => "Good"@,
                AudioReadiness::Fair => "Fair"@,
                AudioReadiness::Poor => "Poor"@,
            }),
    {
        match self {
            AudioReadiness::Excellent => "Excellent",
            AudioReadiness::Good => "Good",
            AudioReadiness::Fair => "Fair",
            AudioReadiness::Poor => "Poor",
        }
    }

    pub fn emoji(&self) -> (r: &'static str)
        ensures
            r@ == (match self {
                AudioReadiness::Excellent => "🟢"@,
                AudioReadiness::Good => "🟡"@,
                AudioReadiness::Fair => "🟠"@,
                AudioReadiness::Poor => "🔴"@,
            }),
    {
        match self {
            AudioReadiness::Excellent => "🟢",
            AudioReadiness::Good => "🟡",
            AudioReadiness::Fair => "🟠",
            AudioReadiness::Poor => "🔴",
        }
    }

    pub fn description(&self) -> (r: &'static str)
        ensures
            r@ == (match self {
                AudioReadiness::Excellent => "System is optimally configured for low-latency audio"@,
                AudioReadiness::Good => "System should handle audio playback without issues"@,
                AudioReadiness::Fair => "Some configuration issues detected; occasional glitches possible"@,
                AudioReadiness::Poor => "Significant issues detected; audio problems likely"@,
            }),
    {
        match self {
            AudioReadiness::Excellent => "System is optimally configured for low-latency audio",
            AudioReadiness::Good => "System should handle audio playback without issues",
            AudioReadiness::Fair => "Some configuration issues detected; occasional glitches possible",
            AudioReadiness::Poor => "Significant issues detected; audio problems likely",
        }
    }
}

/// A single diagnostic check result
#[derive(Debug, Clone)]
pub struct DiagnosticCheck {
    pub name: String,
    pub category: String,
    pub status: CheckStatus,
    pub value: String,
    pub recommendation: Option<String>,
}

/// Status of a diagnostic check
#[derive(Debug, Clone, Copy, PartialEq, Eq, Structural)]
pub enum CheckStatus {
    Pass,
    Warning,
    Fail,
    Info,
}

impl CheckStatus {
    pub fn emoji(&self) -> (r: &'static str)
        ensures
            r@ == (match self {
                CheckStatus::Pass => "✓"@,
                CheckStatus::Warning => "⚠"@,
                CheckStatus::Fail => "✗"@,
                CheckStatus::Info => "ℹ"@,
            }),
    {
        match self {
            CheckStatus::Pass => "✓",
            CheckStatus::Warning => "⚠",
            CheckStatus::Fail => "✗",
            CheckStatus::Info => "ℹ",
        }
    }
}

/// How many checks have the given status.
pub open spec fn count_status(checks: Seq<DiagnosticCheck>, s: CheckStatus) -> nat
    decreases checks.len(),
{
    if checks.len() == 0 {
        0
    } else {
        count_status(checks.drop_last(), s) + (if checks.last().status == s { 1nat } else { 0nat })
    }
}

/// The overall rating of a set of checks: poor with two failures or more,
/// fair with one failure or three warnings or more, good with any warning,
/// else excellent.
pub open spec fn rating_of(checks: Seq<DiagnosticCheck>) -> AudioReadiness {
    let fails = count_status(checks, CheckStatus::Fail);
    let warnings = count_status(checks, CheckStatus::Warning);
    if fails >= 2 {
        AudioReadiness::Poor
    } else if fails == 1 || warnings >= 3 {
        AudioReadiness::Fair
    } else if warnings >= 1 {
        AudioReadiness::Good
    } else {
        AudioReadiness::Excellent
    }
}

/// Rates a set of checks.
pub fn calculate_rating(checks: &[DiagnosticCheck]) -> (r: AudioReadiness)
    ensures
        r == rating_of(checks@),
{
    let mut fails: usize = 0;
    let mut warnings: usize = 0;
    let mut i: usize = 0;
    while i < checks.len()
        invariant
            i <= checks@.len(),
            fails == count_status(checks@.subrange(0, i as int), CheckStatus::Fail),
            warnings == count_status(checks@.subrange(0, i as int), CheckStatus::Warning),
            fails <= i,
            warnings <= i,
        decreases checks@.len() - i,
    {
        assert(checks@.subrange(0, i + 1).drop_last() =~= checks@.subrange(0, i as int));
        if checks[i].status == CheckStatus::Fail {
            fails = fails + 1;
        } else if checks[i].status == CheckStatus::Warning {
            warnings = warnings + 1;
        }
        i += 1;
    }
    assert(checks@.subrange(0, checks@.len() as int) =~= checks@);
    if fails >= 2 {
        AudioReadiness::Poor
    } else if fails == 1 || warnings >= 3 {
        AudioReadiness::Fair
    } else if warnings >= 1 {
        AudioReadiness::Good
    } else {
        AudioReadiness::Excellent
    }
}

/// Whether a check reports an issue (a warning or a failure).
pub open spec fn is_issue(c: DiagnosticCheck) -> bool {
    c.status == CheckStatus::Warning || c.status == CheckStatus::Fail
}

/// The checks that report issues, in order.
pub open spec fn issues_in(checks: Seq<DiagnosticCheck>) -> Seq<DiagnosticCheck> {
    checks.filter(|c: DiagnosticCheck| is_issue(c))
}

/// Get only checks with issues (warnings or failures)
pub fn issues(checks: &[DiagnosticCheck]) -> (r: Vec<&DiagnosticCheck>)
    ensures
        r@.map_values(|c: &DiagnosticCheck| *c) == issues_in(checks@),
{
    let mut out: Vec<&DiagnosticCheck> = Vec::new();
    let mut i: usize = 0;
    while i < checks.len()
        invariant
            i <= checks@.len(),
            out@.map_values(|c: &DiagnosticCheck| *c) == issues_in(checks@.subrange(0, i as int)),
        decreases checks@.len() - i,
    {
        let ghost pre = checks@.subrange(0, i as int);
        let ghost post = checks@.subrange(0, i + 1);
        assert(post.drop_last() =~= pre);
        proof {
            pre.lemma_filter_push(checks@[i as int], |c: DiagnosticCheck| is_issue(c));
            assert(post =~= pre.push(checks@[i as int]));
        }
        let c = &checks[i];
        if c.status == CheckStatus::Warning || c.status == CheckStatus::Fail {
            out.push(c);
        }
        assert(out@.map_values(|c: &DiagnosticCheck| *c) =~= issues_in(post));
        i += 1;
    }
    assert(checks@.subrange(0, checks@.len() as int) =~= checks@);
    out
}

/// The check reporting which SIMD instructions audio processing uses.
pub fn simd_check(level: SimdLevel) -> (c: DiagnosticCheck)
    ensures
        c.name@ == "SIMD Acceleration"@,
        c.category@ == "CPU"@,
        c.status == (if level == SimdLevel::Scalar { CheckStatus::Warning } else { CheckStatus::Pass }),
        c.value@ == crate::player::simd::simd_name(level),
        (c.recommendation is Some) == (level == SimdLevel::Scalar),
        c.recommendation matches Some(r) ==> r@ == "Audio processing will use scalar code (slower)"@,
{
    let scalar = level == SimdLevel::Scalar;
    DiagnosticCheck {
        name: owned("SIMD Acceleration"),
        category: owned("CPU"),
        status: if scalar { CheckStatus::Warning } else { CheckStatus::Pass },
        value: owned(level.name()),
        recommendation: if scalar {
            Some(owned("Audio processing will use scalar code (slower)"))
        } else {
            None
        },
    }
}

/// The check reporting the audio devices found; none when there are none.
pub fn audio_devices_check(count: usize) -> (c: Option<DiagnosticCheck>)
    ensures
        (c is Some) == (count > 0),
        c matches Some(k) ==> {
            &&& k.name@ == "Audio Devices"@
            &&& k.category@ == "Audio"@
            &&& k.status == CheckStatus::Info
            &&& k.value@ == crate::text::decimal(count as nat) + " device(s) found"@
            &&& k.recommendation is None
        },
{
    if count == 0 {
        return None;
    }
    let n = u64_to_string(count as u64);
    Some(DiagnosticCheck {
        name: owned("Audio Devices"),
        category: owned("Audio"),
        status: CheckStatus::Info,
        value: concat(n.as_str(), " device(s) found"),
        recommendation: None,
    })
}

/// Audio device information
#[derive(Debug, Clone)]
pub struct AudioDeviceInfo {
    /// Device name
    pub name: String,
    /// Device type (output, input)
    pub device_type: AudioDeviceType,
    /// Is this the default device?
    pub is_default: bool,
    /// Supported sample rates (if known)
    pub sample_rates: Vec<u32>,
    /// Number of channels
    pub channels: Option<u32>,
}

#[derive(Debug, Clone, Copy, PartialEq, Eq, Structural)]
pub enum AudioDeviceType {
    Output,
    Input,
}

impl AudioDeviceInfo {
    /// The audio devices this library can list: none. Listing them means
    /// reading the Windows multimedia device tables, which this function
    /// does not do; it gives the outcome of a build without them.
    pub fn enumerate() -> (r: Vec<AudioDeviceInfo>)
        ensures
            r@.len() == 0,
    {
        Vec::new()
    }
}

/// Whether any bit of `mask` is set in `formats`.
pub open spec fn any_bit(formats: u32, mask: u32) -> bool {
    formats & mask != 0
}

/// The sample rates a device's format flags announce, lowest first: each
/// rate is announced by any of its four flags (mono/stereo, 8/16 bit).
pub open spec fn wave_rates(formats: u32) -> Seq<u32> {
    (if any_bit(formats, 0xF) { seq![11025u32] } else { Seq::empty() })
    + (if any_bit(formats, 0xF0) { seq![22050u32] } else { Seq::empty() })
    + (if any_bit(formats, 0xF00) { seq![44100u32] } else { Seq::empty() })
    + (if any_bit(formats, 0xF000) { seq![48000u32] } else { Seq::empty() })
    + (if any_bit(formats, 0xF0000) { seq![96000u32] } else { Seq::empty() })
}

/// Reads the supported sample rates from a device's format flags.
pub fn parse_wave_formats(formats: u32) -> (r: Vec<u32>)
    ensures
        r@ == wave_rates(formats),
{
    let mut rates: Vec<u32> = Vec::new();
    let f1 = formats & 0x1 != 0 || formats & 0x2 != 0 || formats & 0x4 != 0 || formats & 0x8 != 0;
    assert(f1 == any_bit(formats, 0xF)) by (bit_vector)
        requires
            f1 == (formats & 0x1 != 0 || formats & 0x2 != 0 || formats & 0x4 != 0 || formats & 0x8 != 0),
    ;
    if f1 {
        rates.push(11025);
    }
    let f2 = formats & 0x10 != 0 || formats & 0x20 != 0 || formats & 0x40 != 0 || formats & 0x80 != 0;
    assert(f2 == any_bit(formats, 0xF0)) by (bit_vector)
        requires
            f2 == (formats & 0x10 != 0 || formats & 0x20 != 0 || formats & 0x40 != 0 || formats & 0x80 != 0),
    ;
    if f2 {
        rates.push(22050);
    }
    let f3 = formats & 0x100 != 0 || formats & 0x200 != 0 || formats & 0x400 != 0 || formats & 0x800 != 0;
    assert(f3 == any_bit(formats, 0xF00)) by (bit_vector)
        requires
            f3 == (formats & 0x100 != 0 || formats & 0x200 != 0 || formats & 0x400 != 0 || formats & 0x800
                != 0),
    ;
    if f3 {
        rates.push(44100);
    }
    let f4 = formats & 0x1000 != 0 || formats & 0x2000 != 0 || formats & 0x4000 != 0 || formats & 0x8000 != 0;
    assert(f4 == any_bit(formats, 0xF000)) by (bit_vector)
        requires
            f4 == (formats & 0x1000 != 0 || formats & 0x2000 != 0 || formats & 0x4000 != 0 || formats
                & 0x8000 != 0),
    ;
    if f4 {
        rates.push(48000);
    }
    let f5 = formats & 0x10000 != 0 || formats & 0x20000 != 0 || formats & 0x40000 != 0 || formats & 0x80000
        != 0;
    assert(f5 == any_bit(formats, 0xF0000)) by (bit_vector)
        requires
            f5 == (formats & 0x10000 != 0 || formats & 0x20000 != 0 || formats & 0x40000 != 0 || formats
                & 0x80000 != 0),
    ;
    if f5 {
        rates.push(96000);
    }
    assert(rates@ =~= wave_rates(formats));
    rates
}

/// Whether `i` is the first default output device.
pub open spec fn first_default_output_at(ds: Seq<AudioDeviceInfo>, i: int) -> bool {
    &&& 0 <= i < ds.len()
    &&& ds[i].device_type == AudioDeviceType::Output && ds[i].is_default
    &&& forall|j: int| 0 <= j < i ==> !((#[trigger] ds[j]).device_type == AudioDeviceType::Output && ds[j].is_default)
}

/// The name of the first default output device, if any.
pub open spec fn default_output_name(ds: Seq<AudioDeviceInfo>) -> Option<Seq<char>> {
    if exists|i: int| first_default_output_at(ds, i) {
        Some(ds[choose|i: int| first_default_output_at(ds, i)].name@)
    } else {
        None
    }
}

/// Finds the default output device's name among listed devices.
pub fn default_output_device(devices: &[AudioDeviceInfo]) -> (r: Option<String>)
    ensures
        crate::text::opt_view(r) == default_output_name(devices@),
{
    let ghost ds = devices@;
    let mut i: usize = 0;
    while i < devices.len()
        invariant
            ds == devices@,
            i <= ds.len(),
            forall|j: int| 0 <= j < i ==> !((#[trigger] ds[j]).device_type == AudioDeviceType::Output && ds[j].is_default),
        decreases ds.len() - i,
    {
        let d = &devices[i];
        if d.device_type == AudioDeviceType::Output && d.is_default {
            assert(first_default_output_at(ds, i as int));
            proof {
                let c = choose|k: int| first_default_output_at(ds, k);
                assert(first_default_output_at(ds, c));
                if c < i {
                    assert(!(ds[c].device_type == AudioDeviceType::Output && ds[c].is_default));
                }
                if c > i {
                    assert(!(ds[i as int].device_type == AudioDeviceType::Output && ds[i as int].is_default));
                }
            }
            return Some(d.name.clone());
        }
        i += 1;
    }
    assert(!exists|k: int| first_default_output_at(ds, k));
    None
}

/// The default audio output device name among the devices `enumerate`
/// lists; as that lists none, there is none.
pub fn get_default_output_device() -> (r: Option<String>)
    ensures
        r is None,
{
    let devices = AudioDeviceInfo::enumerate();
    default_output_device(devices.as_slice())
}

/// Timer resolution information
#[derive(Debug, Clone)]
pub struct TimerInfo {
    /// Best (smallest) supported timer resolution in microseconds (~500us)
    pub best_resolution_us: u32,
    /// Worst (largest) supported timer resolution in microseconds (~15625us)
    pub worst_resolution_us: u32,
    /// Current timer resolution in microseconds
    pub current_resolution_us: u32,
}

/// The status of the timer resolution: at most 1 ms passes, at most 2 ms
/// warns, anything coarser fails.
pub open spec fn timer_status_of(current_us: u32) -> CheckStatus {
    if current_us <= 1000 {
        CheckStatus::Pass
    } else if current_us <= 2000 {
        CheckStatus::Warning
    } else {
        CheckStatus::Fail
    }
}

impl TimerInfo {
    /// The system timer resolution, where this library can read it: never.
    /// Reading it means querying a Windows kernel counter, which this
    /// function does not do; it gives the outcome of a build without it.
    /// A caller that reads the counter itself converts the reading with
    /// `from_100ns_units` and rates it with `to_check`.
    pub fn query() -> (r: Option<TimerInfo>)
        ensures
            r is None,
    {
        None
    }

    /// The readings of the Windows kernel timer query, which counts in units
    /// of 100 ns, in whole microseconds (each rounded down).
    pub fn from_100ns_units(worst: u32, best: u32, current: u32) -> (r: TimerInfo)
        ensures
            r.worst_resolution_us == worst / 10,
            r.best_resolution_us == best / 10,
            r.current_resolution_us == current / 10,
    {
        TimerInfo { best_resolution_us: best / 10, worst_resolution_us: worst / 10, current_resolution_us: current / 10 }
    }

    /// The status a timer resolution check reports.
    pub fn status(&self) -> (r: CheckStatus)
        ensures
            r == timer_status_of(self.current_resolution_us),
    {
        if self.current_resolution_us <= 1000 {
            CheckStatus::Pass
        } else if self.current_resolution_us <= 2000 {
            CheckStatus::Warning
        } else {
            CheckStatus::Fail
        }
    }

    /// Convert to a diagnostic check. The readings appear in milliseconds
    /// with fractions, as `texts` gives them.
    pub fn to_check(&self, texts: &TimerMillis) -> (c: DiagnosticCheck)
        ensures
            c.name@ == "Timer Resolution"@,
            c.category@ == "System"@,
            c.status == timer_status_of(self.current_resolution_us),
            c.value@ == timer_value_text(*texts),
            c.recommendation is None <==> c.status == CheckStatus::Pass,
            c.status == CheckStatus::Warning ==> (c.recommendation matches Some(r) && r@
                == TIMER_WARNING_ADVICE@),
            c.status == CheckStatus::Fail ==> (c.recommendation matches Some(r) && r@
                == timer_fail_advice(*texts)),
    {
        let status = self.status();
        let recommendation = match status {
            CheckStatus::Pass => None,
            CheckStatus::Warning => Some(owned(TIMER_WARNING_ADVICE)),
            _ => {
                let mut r = owned("Timer resolution is ");
                push_str(&mut r, texts.current_tenths.as_str());
                push_str(&mut r, "ms (default). For audio work, ");
                push_str(&mut r, texts.best_tenths.as_str());
                push_str(&mut r, "ms is available. Audio applications should request higher resolution automatically.");
                Some(r)
            },
        };
        let mut value = owned(texts.current.as_str());
        push_str(&mut value, "ms (best: ");
        push_str(&mut value, texts.best.as_str());
        push_str(&mut value, "ms, worst: ");
        push_str(&mut value, texts.worst.as_str());
        push_str(&mut value, "ms)");
        DiagnosticCheck {
            name: owned("Timer Resolution"),
            category: owned("System"),
            status,
            value,
            recommendation,
        }
    }
}

/// The advice given when the timer resolution is slightly coarse.
pub const TIMER_WARNING_ADVICE: &'static str =
    "Timer resolution is slightly high. Some application may need to request higher resolution.";

/// The timer readings in milliseconds as text, written by the caller from
/// the microsecond readings: with two decimals, and the current and best
/// readings also with one decimal.
#[derive(Debug, Clone)]
pub struct TimerMillis {
    pub current: String,
    pub best: String,
    pub worst: String,
    pub current_tenths: String,
    pub best_tenths: String,
}

/// The value a timer check shows: the current, best and worst resolution.
pub open spec fn timer_value_text(t: TimerMillis) -> Seq<char> {
    t.current@ + "ms (best: "@ + t.best@ + "ms, worst: "@ + t.worst@ + "ms)"@
}

/// The advice given when the timer resolution is coarse.
pub open spec fn timer_fail_advice(t: TimerMillis) -> Seq<char> {
    "Timer resolution is "@ + t.current_tenths@ + "ms (default). For audio work, "@ + t.best_tenths@
        + "ms is available. Audio applications should request higher resolution automatically."@
}

/// Request high timer resolution for the duration of this guard
pub struct HighResolutionTimer {
    _private: (),
}


/// The identifier of the built-in "High performance" power scheme.
pub const HIGH_PERFORMANCE_GUID: &'static str = "8c5e7fda-e8bf-4a96-9a85-a6e23a8c635c";

/// The identifier of the built-in "Ultimate performance" power scheme.
pub const ULTIMATE_PERFORMANCE_GUID: &'static str = "e9a42b02-d5df-448d-aa00-03f14749eb61";

/// Power plan information
#[derive(Debug, Clone)]
pub struct PowerInfo {
    /// Active power scheme GUID
    pub scheme_guid: String,
    /// Friendly name of the power scheme
    pub scheme_name: String,
    /// Whether this is considered optimal for audio
    pub is_high_performance: bool,
}

/// Whether a line's last `(` comes before its last `)` when both occur, so
/// that the name between them can be cut out.
pub open spec fn scheme_line_sliceable(line: Seq<char>) -> bool {
    match (rfind_spec(line, '('), rfind_spec(line, ')')) {
        (Some(a), Some(b)) => a + 1 <= b,
        _ => true,
    }
}

/// The scheme identifier of a `powercfg` line: after `GUID: `, up to the
/// next space, trimmed.
pub open spec fn scheme_guid_of(line: Seq<char>, marker_at: int) -> Seq<char> {
    let gs = marker_at + 6;
    let rest = line.subrange(gs, line.len() as int);
    let ge = match find_spec(rest, seq![' ']) {
        Some(k) => gs + k,
        None => line.len() as int,
    };
    trim_spec(line.subrange(gs, ge))
}

/// The scheme name of a `powercfg` line: between its last `(` and last
/// `)`, else "Unknown".
pub open spec fn scheme_name_of(line: Seq<char>) -> Seq<char> {
    match (rfind_spec(line, '('), rfind_spec(line, ')')) {
        (Some(a), Some(b)) => line.subrange(a + 1, b),
        _ => "Unknown"@,
    }
}

/// Whether a scheme suits audio work: its name mentions high performance
/// or ultimate (in any case), or it is one of the two built-in schemes.
pub open spec fn high_performance(guid: Seq<char>, name: Seq<char>) -> bool {
    contains_seq(unicode_lowercase(name), "high performance"@) || contains_seq(
        unicode_lowercase(name),
        "ultimate"@,
    ) || guid == HIGH_PERFORMANCE_GUID@ || guid == ULTIMATE_PERFORMANCE_GUID@
}

/// The power plan that `powercfg /getactivescheme` output describes, read
/// from its first line ("Power Scheme GUID: <guid>  (<name>)").
pub open spec fn active_scheme_of(output: Seq<char>) -> Option<(Seq<char>, Seq<char>, bool)> {
    match first_line_spec(output) {
        None => None,
        Some(line) => match find_spec(line, "GUID: "@) {
            None => None,
            Some(f) => {
                let guid = scheme_guid_of(line, f);
                let name = scheme_name_of(line);
                Some((guid, name, high_performance(guid, name)))
            },
        },
    }
}

fn text_contains(hay: &str, needle: &str) -> (r: bool)
    ensures
        r == contains_seq(hay@, needle@),
{
    let h = chars_of(hay);
    let n = chars_of(needle);
    contains_chars(h.as_slice(), n.as_slice())
}

/// Whether a scheme suits audio work.
pub fn is_high_performance_scheme(guid: &str, name: &str) -> (r: bool)
    ensures
        r == high_performance(guid@, name@),
{
    let lower = to_lowercase(name);
    text_contains(lower.as_str(), "high performance") || text_contains(lower.as_str(), "ultimate")
        || str_eq(guid, HIGH_PERFORMANCE_GUID) || str_eq(guid, ULTIMATE_PERFORMANCE_GUID)
}

/// Reads the active power plan from `powercfg /getactivescheme` output.
pub fn parse_active_scheme(output: &str) -> (r: Option<PowerInfo>)
    requires
        first_line_spec(output@) matches Some(line) ==> scheme_line_sliceable(line),
    ensures
        match active_scheme_of(output@) {
            Some((g, n, hp)) => r matches Some(p) && p.scheme_guid@ == g && p.scheme_name@ == n
                && p.is_high_performance == hp,
            None => r is None,
        },
{
    proof {
        reveal_strlit("GUID: ");
        reveal_strlit("Unknown");
    }
    let cs = chars_of(output);
    let line = match first_line(cs.as_slice()) {
        Some(l) => l,
        None => return None,
    };
    let marker = chars_of("GUID: ");
    let f = match find_chars(line.as_slice(), marker.as_slice()) {
        Some(f) => f,
        None => return None,
    };
    assert(occurs_at(line@, marker@, f as int));
    assert(marker@.len() == 6);
    let n = line.len();
    assert(f + 6 <= n);
    let gs = f + 6;
    let rest = slice_chars(line.as_slice(), gs, line.len());
    let space = vec![' '];
    assert(space@ =~= seq![' ']);
    let ge = match find_chars(rest.as_slice(), space.as_slice()) {
        Some(k) => {
            assert(occurs_at(rest@, space@, k as int));
            gs + k
        },
        None => line.len(),
    };
    let guid_chars = slice_chars(line.as_slice(), gs, ge);
    let guid_trimmed = trim_chars(guid_chars.as_slice());
    let guid = string_from_chars(guid_trimmed.as_slice());
    let name = match (rfind_char(line.as_slice(), '('), rfind_char(line.as_slice(), ')')) {
        (Some(a), Some(b)) => {
            let part = slice_chars(line.as_slice(), a + 1, b);
            string_from_chars(part.as_slice())
        },
        _ => owned("Unknown"),
    };
    let hp = is_high_performance_scheme(guid.as_str(), name.as_str());
    Some(PowerInfo { scheme_guid: guid, scheme_name: name, is_high_performance: hp })
}

/// The scheme a line of `powercfg /list` output names: the identifier after
/// `GUID: ` up to the next space, trimmed, and the name between the last
/// `(` and the last `)` after it; none where a part is missing.
pub open spec fn listed_scheme(line: Seq<char>) -> Option<(Seq<char>, Seq<char>)> {
    match find_spec(line, "GUID: "@) {
        None => None,
        Some(f) => {
            let rest = line.subrange(f + 6, line.len() as int);
            match find_spec(rest, seq![' ']) {
                None => None,
                Some(ge) => match (rfind_spec(rest, '('), rfind_spec(rest, ')')) {
                    (Some(a), Some(b)) => Some((trim_spec(rest.subrange(0, ge)), rest.subrange(a + 1, b))),
                    _ => None,
                },
            }
        },
    }
}

/// Whether the name of a listed scheme can be cut out of its line: where
/// the part after `GUID: ` holds a space, its last `(` comes before its last
/// `)`.
pub open spec fn listed_line_sliceable(line: Seq<char>) -> bool {
    match find_spec(line, "GUID: "@) {
        None => true,
        Some(f) => {
            let rest = line.subrange(f + 6, line.len() as int);
            find_spec(rest, seq![' ']) is Some ==> scheme_line_sliceable(rest)
        },
    }
}

/// The schemes that lines name, in their order.
pub open spec fn listed_schemes(ls: Seq<Seq<char>>) -> Seq<(Seq<char>, Seq<char>)>
    decreases ls.len(),
{
    if ls.len() == 0 {
        Seq::empty()
    } else {
        (match listed_scheme(ls[0]) {
            Some(p) => seq![p],
            None => Seq::empty(),
        }) + listed_schemes(ls.drop_first())
    }
}

/// The views of pairs of texts.
pub open spec fn text_pairs_view(v: Seq<(String, String)>) -> Seq<(Seq<char>, Seq<char>)> {
    v.map_values(|p: (String, String)| (p.0@, p.1@))
}

fn listed_scheme_of(line: &[char]) -> (r: Option<(String, String)>)
    requires
        listed_line_sliceable(line@),
    ensures
        match listed_scheme(line@) {
            Some((g, n)) => r matches Some(p) && p.0@ == g && p.1@ == n,
            None => r is None,
        },
{
    proof {
        reveal_strlit("GUID: ");
    }
    let marker = chars_of("GUID: ");
    let f = match find_chars(line, marker.as_slice()) {
        Some(f) => f,
        None => return None,
    };
    assert(occurs_at(line@, marker@, f as int));
    assert(marker@.len() == 6);
    let n = line.len();
    assert(f + 6 <= n);
    let rest = slice_chars(line, f + 6, n);
    let space = vec![' '];
    assert(space@ =~= seq![' ']);
    let ge = match find_chars(rest.as_slice(), space.as_slice()) {
        Some(k) => {
            assert(occurs_at(rest@, space@, k as int));
            k
        },
        None => return None,
    };
    match (rfind_char(rest.as_slice(), '('), rfind_char(rest.as_slice(), ')')) {
        (Some(a), Some(b)) => {
            let guid_chars = slice_chars(rest.as_slice(), 0, ge);
            let guid_trimmed = trim_chars(guid_chars.as_slice());
            let part = slice_chars(rest.as_slice(), a + 1, b);
            Some((string_from_chars(guid_trimmed.as_slice()), string_from_chars(part.as_slice())))
        },
        _ => None,
    }
}

/// Reads the power schemes that `powercfg /list` output names, as pairs of
/// identifier and name.
pub fn parse_power_schemes(output: &str) -> (r: Vec<(String, String)>)
    requires
        forall|i: int| 0 <= i < text_lines(output@).len() ==> listed_line_sliceable(#[trigger] text_lines(output@)[i]),
    ensures
        text_pairs_view(r@) == listed_schemes(text_lines(output@)),
{
    let cs = chars_of(output);
    let ls = lines(cs.as_slice());
    let ghost lv = char_vecs_view(ls@);
    let mut out: Vec<(String, String)> = Vec::new();
    let mut i: usize = 0;
    assert(lv.skip(0) =~= lv);
    assert(text_pairs_view(out@) + listed_schemes(lv) =~= listed_schemes(lv));
    while i < ls.len()
        invariant
            i <= ls@.len(),
            lv == char_vecs_view(ls@),
            lv == text_lines(output@),
            forall|j: int| 0 <= j < lv.len() ==> listed_line_sliceable(#[trigger] lv[j]),
            text_pairs_view(out@) + listed_schemes(lv.skip(i as int)) == listed_schemes(lv),
        decreases ls@.len() - i,
    {
        let ghost before = out@;
        assert(ls[i as int]@ == lv[i as int]);
        let found = listed_scheme_of(ls[i].as_slice());
        proof {
            assert(lv.skip(i as int).drop_first() =~= lv.skip(i + 1));
            assert(lv.skip(i as int)[0] == lv[i as int]);
        }
        match found {
            Some(p) => {
                out.push(p);
                proof {
                    assert(text_pairs_view(out@) =~= text_pairs_view(before).push((p.0@, p.1@)));
                    assert(text_pairs_view(out@) + listed_schemes(lv.skip(i + 1)) =~= text_pairs_view(before)
                        + listed_schemes(lv.skip(i as int)));
                }
            },
            None => {
                proof {
                    assert(text_pairs_view(out@) + listed_schemes(lv.skip(i + 1)) =~= text_pairs_view(before)
                        + listed_schemes(lv.skip(i as int)));
                }
            },
        }
        i += 1;
    }
    assert(lv.skip(i as int) =~= Seq::<Seq<char>>::empty());
    assert(text_pairs_view(out@) =~= text_pairs_view(out@) + listed_schemes(Seq::<Seq<char>>::empty()));
    out
}

/// The status of a power plan check: pass for a high-performance plan,
/// warn for a balanced one, fail otherwise.
pub open spec fn power_status_of(p: PowerInfo) -> CheckStatus {
    if p.is_high_performance {
        CheckStatus::Pass
    } else if contains_seq(unicode_lowercase(p.scheme_name@), "balanced"@) {
        CheckStatus::Warning
    } else {
        CheckStatus::Fail
    }
}

impl PowerInfo {
    /// The active power plan, where this library can read it: never.
    /// Reading it means running the Windows `powercfg` tool, which this
    /// function does not do; it gives the outcome of a build without it. A
    /// caller that runs the tool reads its output with
    /// `parse_active_scheme`.
    pub fn query() -> (r: Option<PowerInfo>)
        ensures
            r is None,
    {
        None
    }

    /// Convert to a diagnostic check
    pub fn to_check(&self) -> (c: DiagnosticCheck)
        ensures
            c.name@ == "Power Plan"@,
            c.category@ == "System"@,
            c.status == power_status_of(*self),
            c.value@ == self.scheme_name@,
            c.recommendation is None <==> c.status == CheckStatus::Pass,
            c.status == CheckStatus::Warning ==> (c.recommendation matches Some(r) && r@
                == "Consider switching to 'High Performance' power plan for lower latency.\nRun: powercfg /setactive 8c5e7fda-e8bf-4a96-9a85-a6e23a8c635c"@),
            c.status == CheckStatus::Fail ==> (c.recommendation matches Some(r) && r@
                == "Power saving mode may cause CPU throttling and audio glitches.\nSwitch to 'High Performance': powercfg /setactive 8c5e7fda-e8bf-4a96-9a85-a6e23a8c635c"@),
    {
        let (status, recommendation) = if self.is_high_performance {
            (CheckStatus::Pass, None)
        } else {
            let lower = to_lowercase(self.scheme_name.as_str());
            if text_contains(lower.as_str(), "balanced") {
                (
                    CheckStatus::Warning,
                    Some(owned("Consider switching to 'High Performance' power plan for lower latency.\nRun: powercfg /setactive 8c5e7fda-e8bf-4a96-9a85-a6e23a8c635c")),
                )
            } else {
                (
                    CheckStatus::Fail,
                    Some(owned("Power saving mode may cause CPU throttling and audio glitches.\nSwitch to 'High Performance': powercfg /setactive 8c5e7fda-e8bf-4a96-9a85-a6e23a8c635c")),
                )
            }
        };
        DiagnosticCheck {
            name: owned("Power Plan"),
            category: owned("System"),
            status,
            value: self.scheme_name.clone(),
            recommendation,
        }
    }
}


/// The check naming the processor: `<name> (<cores> cores, <threads> threads)`.
pub fn processor_check(name: &str, physical_cores: u32, logical_cores: u32) -> (c: DiagnosticCheck)
    ensures
        c.name@ == "Processor"@,
        c.category@ == "CPU"@,
        c.status == CheckStatus::Info,
        c.value@ == name@ + " ("@ + crate::text::decimal(physical_cores as nat) + " cores, "@
            + crate::text::decimal(logical_cores as nat) + " threads)"@,
        c.recommendation is None,
{
    let mut v = owned(name);
    crate::text::push_str(&mut v, " (");
    crate::text::push_decimal(&mut v, physical_cores as u64);
    crate::text::push_str(&mut v, " cores, ");
    crate::text::push_decimal(&mut v, logical_cores as u64);
    crate::text::push_str(&mut v, " threads)");
    DiagnosticCheck {
        name: owned("Processor"),
        category: owned("CPU"),
        status: CheckStatus::Info,
        value: v,
        recommendation: None,
    }
}

/// The status of a processor's top frequency: at least 2 GHz passes, at
/// least 1 GHz warns, slower fails.
pub open spec fn frequency_status_of(mhz: u32) -> CheckStatus {
    if mhz >= 2000 {
        CheckStatus::Pass
    } else if mhz >= 1000 {
        CheckStatus::Warning
    } else {
        CheckStatus::Fail
    }
}

/// The frequency check; none when the frequency is unknown (zero).
pub fn frequency_check(max_frequency_mhz: u32) -> (c: Option<DiagnosticCheck>)
    ensures
        (c is Some) == (max_frequency_mhz > 0),
        c matches Some(k) ==> {
            &&& k.name@ == "CPU Frequency"@
            &&& k.category@ == "CPU"@
            &&& k.status == frequency_status_of(max_frequency_mhz)
            &&& k.value@ == crate::text::decimal(max_frequency_mhz as nat) + " MHz"@
            &&& (k.recommendation is None) == (k.status == CheckStatus::Pass)
        },
{
    if max_frequency_mhz == 0 {
        return None;
    }
    let (status, recommendation) = if max_frequency_mhz >= 2000 {
        (CheckStatus::Pass, None)
    } else if max_frequency_mhz >= 1000 {
        (
            CheckStatus::Warning,
            Some(owned("CPU frequency is relatively low. May struggle with complex audio processing.")),
        )
    } else {
        (CheckStatus::Fail, Some(owned("CPU frequency is very low. Audio glitches likely under load.")))
    };
    let n = u64_to_string(max_frequency_mhz as u64);
    Some(DiagnosticCheck {
        name: owned("CPU Frequency"),
        category: owned("CPU"),
        status,
        value: concat(n.as_str(), " MHz"),
        recommendation,
    })
}

/// The status of the core count: four or more pass, two or three warn, one
/// fails.
pub open spec fn cores_status_of(logical: u32) -> CheckStatus {
    if logical >= 4 {
        CheckStatus::Pass
    } else if logical >= 2 {
        CheckStatus::Warning
    } else {
        CheckStatus::Fail
    }
}

/// The core count check.
pub fn cores_check(logical_cores: u32) -> (c: DiagnosticCheck)
    ensures
        c.name@ == "CPU Cores"@,
        c.category@ == "CPU"@,
        c.status == cores_status_of(logical_cores),
        c.value@ == crate::text::decimal(logical_cores as nat) + " logical cores"@,
        (c.recommendation is None) == (c.status == CheckStatus::Pass),
{
    let (status, recommendation) = if logical_cores >= 4 {
        (CheckStatus::Pass, None)
    } else if logical_cores >= 2 {
        (
            CheckStatus::Warning,
            Some(owned("Limited CPU cores. Heavy audio processing may compete with system tasks.")),
        )
    } else {
        (CheckStatus::Fail, Some(owned("Single-core system. Audio processing will compete with all other tasks.")))
    };
    let n = u64_to_string(logical_cores as u64);
    DiagnosticCheck {
        name: owned("CPU Cores"),
        category: owned("CPU"),
        status,
        value: concat(n.as_str(), " logical cores"),
        recommendation,
    }
}


/// The name of a readiness rating (`AudioReadiness::as_str`).
pub open spec fn readiness_name(r: AudioReadiness) -> Seq<char> {
    match r {
        AudioReadiness::Excellent => "Excellent"@,
        AudioReadiness::Good => "Good"@,
        AudioReadiness::Fair => "Fair"@,
        AudioReadiness::Poor => "Poor"@,
    }
}

/// The emoji of a readiness rating (`AudioReadiness::emoji`).
pub open spec fn readiness_emoji(r: AudioReadiness) -> Seq<char> {
    match r {
        AudioReadiness::Excellent => "🟢"@,
        AudioReadiness::Good => "🟡"@,
        AudioReadiness::Fair => "🟠"@,
        AudioReadiness::Poor => "🔴"@,
    }
}

/// The one-line summary of a report: its rating and how many issues it
/// found.
pub open spec fn summary_text(rating: AudioReadiness, issue_count: nat) -> Seq<char> {
    readiness_emoji(rating) + " "@ + readiness_name(rating) + if issue_count == 0 {
        " - No issues detected"@
    } else {
        " - "@ + crate::text::decimal(issue_count) + " issue(s) found"@
    }
}

/// Builds the one-line summary of a report.
pub fn report_summary(rating: AudioReadiness, checks: &[DiagnosticCheck]) -> (r: String)
    ensures
        r@ == summary_text(rating, issues_in(checks@).len()),
{
    let found = issues(checks);
    proof {
        assert(found@.map_values(|c: &DiagnosticCheck| *c).len() == found@.len());
    }
    let mut out = owned(rating.emoji());
    crate::text::push_str(&mut out, " ");
    crate::text::push_str(&mut out, rating.as_str());
    if found.len() == 0 {
        crate::text::push_str(&mut out, " - No issues detected");
    } else {
        crate::text::push_str(&mut out, " - ");
        crate::text::push_decimal(&mut out, found.len() as u64);
        crate::text::push_str(&mut out, " issue(s) found");
    }
    out
}

/// A text with each double quote escaped by a backslash.
pub open spec fn quote_escaped(s: Seq<char>) -> Seq<char> {
    replace_all(s, seq!['"'], seq!['\\', '"'])
}

/// The word a check status is written as in a report.
pub open spec fn status_word(s: CheckStatus) -> Seq<char> {
    match s {
        CheckStatus::Pass => "pass"@,
        CheckStatus::Warning => "warning"@,
        CheckStatus::Fail => "fail"@,
        CheckStatus::Info => "info"@,
    }
}

/// A check as a line of the JSON report.
pub open spec fn check_json(c: DiagnosticCheck) -> Seq<char> {
    "    {\"name\": \""@ + c.name@ + "\", \"category\": \""@ + c.category@ + "\", \"status\": \""@
        + status_word(c.status) + "\", \"value\": \""@ + quote_escaped(c.value@) + "\"}"@
}

/// A device as a line of the JSON report.
pub open spec fn device_json(d: AudioDeviceInfo) -> Seq<char> {
    "    {\"name\": \""@ + quote_escaped(d.name@) + "\", \"type\": \""@ + (match d.device_type {
        AudioDeviceType::Output => "output"@,
        AudioDeviceType::Input => "input"@,
    }) + "\", \"default\": "@ + (if d.is_default { "true"@ } else { "false"@ }) + "}"@
}

/// One line of a JSON array: the item, a comma unless it is the last, and
/// a line break.
pub open spec fn json_item(lines: Seq<Seq<char>>, i: int) -> Seq<char> {
    lines[i] + (if i < lines.len() - 1 { seq![','] } else { Seq::<char>::empty() }) + seq!['\n']
}

/// The first `k` lines of a JSON array.
pub open spec fn json_lines_upto(lines: Seq<Seq<char>>, k: nat) -> Seq<char>
    decreases k,
{
    if k == 0 {
        Seq::empty()
    } else {
        json_lines_upto(lines, (k - 1) as nat) + json_item(lines, k - 1)
    }
}

/// The lines of a JSON array.
pub open spec fn json_lines(lines: Seq<Seq<char>>) -> Seq<char> {
    json_lines_upto(lines, lines.len())
}

/// The JSON report: its time stamp, rating, checks and audio devices.
pub open spec fn report_json_text(
    timestamp: Seq<char>,
    rating: AudioReadiness,
    checks: Seq<DiagnosticCheck>,
    devices: Seq<AudioDeviceInfo>,
) -> Seq<char> {
    "{\n"@ + "  \"timestamp\": \""@ + timestamp + "\",\n"@ + "  \"rating\": \""@ + readiness_name(rating)
        + "\",\n"@ + "  \"checks\": [\n"@ + json_lines(checks.map_values(|c: DiagnosticCheck| check_json(c)))
        + "  ],\n"@ + "  \"audio_devices\": [\n"@ + json_lines(
        devices.map_values(|d: AudioDeviceInfo| device_json(d)),
    ) + "  ]\n"@ + "}"@
}

fn escape_quotes(s: &str) -> (r: String)
    ensures
        r@ == quote_escaped(s@),
{
    proof {
        reveal_strlit("\"");
        reveal_strlit("\\\"");
        assert("\""@ =~= seq!['"']);
        assert("\\\""@ =~= seq!['\\', '"']);
    }
    crate::text::replace_str(s, "\"", "\\\"")
}

fn status_name(s: CheckStatus) -> (r: &'static str)
    ensures
        r@ == status_word(s),
{
    match s {
        CheckStatus::Pass => "pass",
        CheckStatus::Warning => "warning",
        CheckStatus::Fail => "fail",
        CheckStatus::Info => "info",
    }
}

fn check_line(c: &DiagnosticCheck) -> (r: String)
    ensures
        r@ == check_json(*c),
{
    let mut out = owned("    {\"name\": \"");
    crate::text::push_str(&mut out, c.name.as_str());
    crate::text::push_str(&mut out, "\", \"category\": \"");
    crate::text::push_str(&mut out, c.category.as_str());
    crate::text::push_str(&mut out, "\", \"status\": \"");
    crate::text::push_str(&mut out, status_name(c.status));
    crate::text::push_str(&mut out, "\", \"value\": \"");
    let v = escape_quotes(c.value.as_str());
    crate::text::push_str(&mut out, v.as_str());
    crate::text::push_str(&mut out, "\"}");
    out
}

fn device_line(d: &AudioDeviceInfo) -> (r: String)
    ensures
        r@ == device_json(*d),
{
    let mut out = owned("    {\"name\": \"");
    let n = escape_quotes(d.name.as_str());
    crate::text::push_str(&mut out, n.as_str());
    crate::text::push_str(&mut out, "\", \"type\": \"");
    crate::text::push_str(&mut out, match d.device_type {
        AudioDeviceType::Output => "output",
        AudioDeviceType::Input => "input",
    });
    crate::text::push_str(&mut out, "\", \"default\": ");
    crate::text::push_str(&mut out, if d.is_default { "true" } else { "false" });
    crate::text::push_str(&mut out, "}");
    out
}

fn push_json_lines(out: &mut String, lines: &[String])
    ensures
        final(out)@ == old(out)@ + json_lines(crate::text::strings_view(lines@)),
{
    let ghost ls = crate::text::strings_view(lines@);
    let mut i: usize = 0;
    while i < lines.len()
        invariant
            i <= lines@.len(),
            ls == crate::text::strings_view(lines@),
            out@ == old(out)@ + json_lines_upto(ls, i as nat),
        decreases lines@.len() - i,
    {
        crate::text::push_str(out, lines[i].as_str());
        if i < lines.len() - 1 {
            crate::text::push_char(out, ',');
        }
        crate::text::push_char(out, '\n');
        assert(out@ =~= old(out)@ + json_lines_upto(ls, (i + 1) as nat));
        i += 1;
    }
}

/// Writes a report as JSON.
pub fn report_json(
    timestamp: &str,
    rating: AudioReadiness,
    checks: &[DiagnosticCheck],
    devices: &[AudioDeviceInfo],
) -> (r: String)
    ensures
        r@ == report_json_text(timestamp@, rating, checks@, devices@),
{
    let mut check_lines: Vec<String> = Vec::new();
    let mut i: usize = 0;
    while i < checks.len()
        invariant
            i <= checks@.len(),
            crate::text::strings_view(check_lines@) == checks@.subrange(0, i as int).map_values(
                |c: DiagnosticCheck| check_json(c),
            ),
        decreases checks@.len() - i,
    {
        let line = check_line(&checks[i]);
        assert(line@ == check_json(checks@[i as int]));
        let ghost before = check_lines@;
        check_lines.push(line);
        assert(crate::text::strings_view(check_lines@) =~= crate::text::strings_view(before).push(line@));
        assert(checks@.subrange(0, i + 1).map_values(|c: DiagnosticCheck| check_json(c)) =~= checks@.subrange(
            0,
            i as int,
        ).map_values(|c: DiagnosticCheck| check_json(c)).push(check_json(checks@[i as int])));
        assert(checks@.subrange(0, i + 1) =~= checks@.subrange(0, i as int).push(checks@[i as int]));
        assert(crate::text::strings_view(check_lines@) =~= checks@.subrange(0, i + 1).map_values(
            |c: DiagnosticCheck| check_json(c),
        ));
        i += 1;
    }
    assert(checks@.subrange(0, checks@.len() as int) =~= checks@);
    let mut device_lines: Vec<String> = Vec::new();
    let mut j: usize = 0;
    while j < devices.len()
        invariant
            j <= devices@.len(),
            crate::text::strings_view(device_lines@) == devices@.subrange(0, j as int).map_values(
                |d: AudioDeviceInfo| device_json(d),
            ),
        decreases devices@.len() - j,
    {
        let line = device_line(&devices[j]);
        assert(line@ == device_json(devices@[j as int]));
        let ghost before = device_lines@;
        device_lines.push(line);
        assert(crate::text::strings_view(device_lines@) =~= crate::text::strings_view(before).push(line@));
        assert(devices@.subrange(0, j + 1).map_values(|d: AudioDeviceInfo| device_json(d)) =~= devices@.subrange(
            0,
            j as int,
        ).map_values(|d: AudioDeviceInfo| device_json(d)).push(device_json(devices@[j as int])));
        assert(devices@.subrange(0, j + 1) =~= devices@.subrange(0, j as int).push(devices@[j as int]));
        assert(crate::text::strings_view(device_lines@) =~= devices@.subrange(0, j + 1).map_values(
            |d: AudioDeviceInfo| device_json(d),
        ));
        j += 1;
    }
    assert(devices@.subrange(0, devices@.len() as int) =~= devices@);
    let mut out = owned("{\n");
    crate::text::push_str(&mut out, "  \"timestamp\": \"");
    crate::text::push_str(&mut out, timestamp);
    crate::text::push_str(&mut out, "\",\n");
    crate::text::push_str(&mut out, "  \"rating\": \"");
    crate::text::push_str(&mut out, rating.as_str());
    crate::text::push_str(&mut out, "\",\n");
    crate::text::push_str(&mut out, "  \"checks\": [\n");
    push_json_lines(&mut out, check_lines.as_slice());
    crate::text::push_str(&mut out, "  ],\n");
    crate::text::push_str(&mut out, "  \"audio_devices\": [\n");
    push_json_lines(&mut out, device_lines.as_slice());
    crate::text::push_str(&mut out, "  ]\n");
    crate::text::push_str(&mut out, "}");
    out
}

}
