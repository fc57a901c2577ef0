//! The SIMD instruction level used for audio processing.
//!
//! Which level the processor offers is read at run time by the caller; the
//! choice among the levels is made here.

use vstd::prelude::*;

verus! {

/// CPU feature level detected at runtime.
#[derive(Debug, Clone, Copy, PartialEq, Eq, Structural)]
pub enum SimdLevel {
    /// No SIMD available, use scalar fallback
    Scalar,
    /// SSE4.1 available (128-bit vectors, 4 f32 at a time)
    Sse41,
    /// AVX2 available (256-bit vectors, 8 f32 at a time)
    Avx2,
    /// AVX-512 available (512-bit vectors, 16 f32 at a time)
    Avx512,
}

/// The human-readable name of a level.
pub open spec fn simd_name(l: SimdLevel) -> Seq<char> {
    match l {
        SimdLevel::Scalar => "Scalar (no SIMD)"@,
        SimdLevel::Sse41 => "SSE4.1 (128-bit)"@,
        SimdLevel::Avx2 => "AVX2 (256-bit)"@,
        SimdLevel::Avx512 => "AVX-512 (512-bit)"@,
    }
}

impl SimdLevel {
    /// Human-readable name for logging.
    pub fn name(&self) -> (r: &'static str)
        ensures
            r@ == simd_name(*self),
    {
        match self {
            SimdLevel::Scalar => "Scalar (no SIMD)",
            SimdLevel::Sse41 => "SSE4.1 (128-bit)",
            SimdLevel::Avx2 => "AVX2 (256-bit)",
            SimdLevel::Avx512 => "AVX-512 (512-bit)",
        }
    }
}

/// The level used given the features the processor offers: AVX2 when
/// present, else SSE4.1, else scalar code.
pub fn simd_level_for(has_avx2: bool, has_sse41: bool) -> (r: SimdLevel)
    ensures
        r == (if has_avx2 {
            SimdLevel::Avx2
        } else if has_sse41 {
            SimdLevel::Sse41
        } else {
            SimdLevel::Scalar
        }),
{
    if has_avx2 {
        SimdLevel::Avx2
    } else if has_sse41 {
        SimdLevel::Sse41
    } else {
        SimdLevel::Scalar
    }
}


/// A benchmark's time per 1024 samples: the mean time of one run over a
/// buffer, scaled from the buffer's length to 1024 samples, each division
/// rounding down.
pub open spec fn per_1024_samples(total_nanos: int, runs: int, samples: int) -> int {
    (total_nanos / runs) * 1024 / samples
}

/// The time per 1024 samples of a benchmark that took `total_nanos` for
/// `runs` runs over a buffer of `samples` samples.
pub fn ns_per_1024_samples(total_nanos: u64, runs: u64, samples: u64) -> (r: u64)
    requires
        runs > 0,
        samples > 0,
        (total_nanos / runs) * 1024 <= u64::MAX,
    ensures
        r == per_1024_samples(total_nanos as int, runs as int, samples as int),
{
    (total_nanos / runs) * 1024 / samples
}

}
