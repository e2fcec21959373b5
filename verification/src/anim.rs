//! Animation functions: a closed, fixed enumeration of pure time-to-value
//! mappings, one of which may drive a parameter's value each frame.
//!
//! Each variant carries its numeric coefficients as opaque 32-bit scalar
//! encodings (IEEE 754 single precision bit patterns). The core only stores
//! and routes these descriptors; the presentation layer evaluates them with
//! real arithmetic. Because a descriptor is plain immutable data, the mapping
//! it denotes is deterministic by construction: the same descriptor and the
//! same time always name the same evaluation.

use vstd::prelude::*;

verus! {

/// A pure animation function `time -> value`, as data.
///
/// With `t` the time in seconds and the coefficients decoded from their bit
/// patterns, the two families are:
///
/// - `PhaseWrap { rate }`: `(t * rate) mod tau`, wrapped into `[0, tau)`
///   (a phase that advances linearly and wraps each full turn);
/// - `SineOsc { baseline, spread, rate, phase }`:
///   `baseline + spread * sin(t * rate + phase)`
///   (an oscillation of amplitude `spread` around `baseline`).
#[derive(Clone, Copy, PartialEq, Eq, Structural, Debug)]
pub enum AnimFn {
    /// `(t * rate) mod tau`, wrapped into `[0, tau)`.
    PhaseWrap { rate: u32 },
    /// `baseline + spread * sin(t * rate + phase)`.
    SineOsc { baseline: u32, spread: u32, rate: u32, phase: u32 },
}

} // verus!
