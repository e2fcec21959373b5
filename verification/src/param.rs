//! A single named, bounded, optionally self-animating scalar parameter.
//!
//! The scalar fields (`value`, `min`, `max`) are opaque 32-bit encodings of
//! single-precision floats. The core never interprets them numerically: it
//! stores and forwards them bit-exactly. In particular the value is *not*
//! clamped to `[min, max]` here — the bounds only describe the editable range
//! that the presentation layer offers for manual edits, and an animation
//! function may legally drive the value outside of them.

use vstd::prelude::*;

use crate::anim::AnimFn;

verus! {

/// A named scalar with an editable range and an optional animation function.
///
/// The full ordered set of these is built once at startup; afterwards only
/// `value` and `animated` ever change (the registry's methods enforce this).
pub struct RangedValue {
    /// Display name, immutable after creation.
    pub name: String,
    /// Current scalar, as an opaque 32-bit float encoding.
    pub value: u32,
    /// Lower end of the editable range (same encoding). The bounds are
    /// advisory for the UI; the core never compares or clamps against them.
    pub min: u32,
    /// Upper end of the editable range (same encoding).
    pub max: u32,
    /// Whether the parameter is shown in the UI. Invisible parameters are
    /// still packed into the uniform buffer.
    pub visible: bool,
    /// Whether the animation function currently drives `value` each frame.
    pub animated: bool,
    /// Optional pure function `time -> value`; absent means purely manual.
    pub animation_func: Option<AnimFn>,
    /// Presentation hint only: draw a separator after this parameter.
    pub needs_separator: bool,
}

/// `p` with its current value replaced by `v` and every other field kept.
pub open spec fn with_value(p: RangedValue, v: u32) -> RangedValue {
    RangedValue { value: v, ..p }
}

/// `p` with its animated flag set to `on` and every other field kept.
pub open spec fn with_animated(p: RangedValue, on: bool) -> RangedValue {
    RangedValue { animated: on, ..p }
}

impl RangedValue {
    /// A visible, non-animated parameter named `name` with editable range
    /// `[min, max]` and starting value `initial`.
    ///
    /// The starting value is conventionally the midpoint of the range;
    /// averaging two encoded scalars is floating-point arithmetic, so the
    /// caller computes it and hands the encoding in.
    pub fn new(name: &str, min: u32, max: u32, initial: u32) -> (r: RangedValue)
        ensures
            r.name@ == name@,
            r.value == initial,
            r.min == min,
            r.max == max,
            r.visible,
            !r.animated,
            r.animation_func is None,
            !r.needs_separator,
    {
        RangedValue {
            name: name.to_owned(),
            value: initial,
            min,
            max,
            visible: true,
            animated: false,
            animation_func: None,
            needs_separator: false,
        }
    }

    /// The same parameter with its starting value replaced by `default`.
    pub fn with_default(self, default: u32) -> (r: RangedValue)
        ensures
            r == with_value(self, default),
    {
        RangedValue { value: default, ..self }
    }

    /// The same parameter, hidden from the UI (but still packed).
    pub fn invisible(self) -> (r: RangedValue)
        ensures
            r == (RangedValue { visible: false, ..self }),
    {
        RangedValue { visible: false, ..self }
    }

    /// The same parameter, with a separator drawn after it in the UI.
    pub fn separator(self) -> (r: RangedValue)
        ensures
            r == (RangedValue { needs_separator: true, ..self }),
    {
        RangedValue { needs_separator: true, ..self }
    }

    /// The same parameter with `func` attached as its animation function.
    /// The function is inert until `animated` is also set: "available but
    /// paused" is distinct from "not animatable at all".
    pub fn anim_fn(self, func: AnimFn) -> (r: RangedValue)
        ensures
            r == (RangedValue { animation_func: Some(func), ..self }),
    {
        RangedValue { animation_func: Some(func), ..self }
    }

    /// The same parameter with its animation initially enabled.
    pub fn animated(self) -> (r: RangedValue)
        ensures
            r == (RangedValue { animated: true, ..self }),
    {
        RangedValue { animated: true, ..self }
    }
}

} // verus!
