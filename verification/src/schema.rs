//! The parameter manifest: the one place that fixes the registry's order,
//! names, ranges, defaults and animation functions.
//!
//! Because the shader's uniform block is bound to the registry purely by
//! position, this list and the shader's declared fields must agree slot for
//! slot. Keeping the whole schema in a single ordered list — and exporting
//! the slot indices the render loop needs — makes that pairing explicit
//! instead of scattering it across construction code.
//!
//! All scalars are IEEE 754 single precision bit patterns. Each constant's
//! comment gives the decoded number.

use vstd::prelude::*;

use crate::anim::AnimFn;
use crate::param::RangedValue;
use crate::registry::ParameterRegistry;

verus! {

/// Bit pattern of zero.
pub const F32_ZERO: u32 = 0x0000_0000;

/// Bit pattern of one.
pub const F32_ONE: u32 = 0x3F80_0000;

/// Bit pattern of one half.
pub const F32_HALF: u32 = 0x3F00_0000;

/// Bit pattern of three quarters (midpoint of the decay range).
pub const F32_THREE_QUARTERS: u32 = 0x3F40_0000;

/// Bit pattern of three tenths.
pub const F32_POINT_THREE: u32 = 0x3E99_999A;

/// Bit pattern of one fifth.
pub const F32_POINT_TWO: u32 = 0x3E4C_CCCD;

/// Bit pattern of pi.
pub const F32_PI: u32 = 0x4049_0FDB;

/// Bit pattern of tau (two pi).
pub const F32_TAU: u32 = 0x40C9_0FDB;

/// Bit pattern of half pi.
pub const F32_HALF_PI: u32 = 0x3FC9_0FDB;

/// Bit pattern of three tenths of tau.
pub const F32_TAU_TENTHS_3: u32 = 0x3FF1_463B;

/// Bit pattern of the slow rotation rate (about four thirty-firsts).
pub const F32_ROT_RATE: u32 = 0x3E25_7860;

/// Bit pattern of the negated slow rotation rate.
pub const F32_ROT_RATE_NEG: u32 = 0xBE25_7860;

/// Bit pattern of three thousand and one (least drawable point count).
pub const F32_MIN_POINTS: u32 = 0x453B_9000;

/// Bit pattern of one million (greatest point count).
pub const F32_MAX_POINTS: u32 = 0x4974_2400;

/// Bit pattern of two hundred thousand (default point count).
pub const F32_DEFAULT_POINTS: u32 = 0x4843_5000;

/// Bit pattern of the point-count range midpoint.
pub const F32_MID_POINTS: u32 = 0x48F4_DF90;

/// Bit pattern of one tenth (least zoom).
pub const F32_MIN_ZOOM: u32 = 0x3DCC_CCCD;

/// Bit pattern of three (greatest zoom).
pub const F32_MAX_ZOOM: u32 = 0x4040_0000;

/// Bit pattern of the zoom range midpoint.
pub const F32_MID_ZOOM: u32 = 0x3FC6_6666;

/// Bit pattern of five ten-thousandths (least line thickness).
pub const F32_MIN_THICKNESS: u32 = 0x3A03_126F;

/// Bit pattern of one hundredth (greatest line thickness).
pub const F32_MAX_THICKNESS: u32 = 0x3C23_D70A;

/// Bit pattern of the thickness range midpoint.
pub const F32_MID_THICKNESS: u32 = 0x3BAC_0831;

/// Bit pattern of seven ten-thousandths (default line thickness).
pub const F32_DEFAULT_THICKNESS: u32 = 0x3A37_8034;

/// Bit pattern of ninety-seven hundredths (default amplitude decay).
pub const F32_DEFAULT_DECAY: u32 = 0x3F78_51EC;

/// Bit pattern of one hundred (greatest cycle count).
pub const F32_MAX_CYCLES: u32 = 0x42C8_0000;

/// Bit pattern of fifty (cycle-count range midpoint).
pub const F32_MID_CYCLES: u32 = 0x4248_0000;

/// Bit pattern of twenty (default cycle count of the second arm).
pub const F32_DEFAULT_CYCLES_1: u32 = 0x41A0_0000;

/// Number of parameters, and therefore of scalars in the uniform block.
pub const PARAM_COUNT: usize = 18;

/// Slot of the drawn vertex count. (The viewport aspect ratio lives in
/// [`crate::registry::ASPECT_SLOT`].)
pub const SLOT_POINT_COUNT: usize = 1;

/// One slot of the manifest: all fields of the parameter at that position.
pub open spec fn slot_is(
    p: RangedValue,
    name: Seq<char>,
    value: u32,
    min: u32,
    max: u32,
    visible: bool,
    animated: bool,
    func: Option<AnimFn>,
    sep: bool,
) -> bool {
    &&& p.name@ == name
    &&& p.value == value
    &&& p.min == min
    &&& p.max == max
    &&& p.visible == visible
    &&& p.animated == animated
    &&& p.animation_func == func
    &&& p.needs_separator == sep
}

/// The whole manifest, slot by slot: the registry the process starts with.
pub open spec fn default_layout_ok(ps: Seq<RangedValue>) -> bool {
    &&& ps.len() == PARAM_COUNT
    &&& slot_is(ps[0], "ar"@, F32_ZERO, F32_ZERO, F32_ZERO, false, false, None, false)
    &&& slot_is(
        ps[1],
        "Point Count"@,
        F32_DEFAULT_POINTS,
        F32_MIN_POINTS,
        F32_MAX_POINTS,
        true,
        false,
        None,
        false,
    )
    &&& slot_is(ps[2], "Zoom"@, F32_ONE, F32_MIN_ZOOM, F32_MAX_ZOOM, true, false, None, false)
    &&& slot_is(
        ps[3],
        "Line Thickness"@,
        F32_DEFAULT_THICKNESS,
        F32_MIN_THICKNESS,
        F32_MAX_THICKNESS,
        true,
        false,
        None,
        true,
    )
    &&& slot_is(
        ps[4],
        "Radius 0"@,
        F32_HALF,
        F32_ZERO,
        F32_ONE,
        true,
        false,
        Some(
            AnimFn::SineOsc {
                baseline: F32_HALF,
                spread: F32_POINT_THREE,
                rate: F32_ONE,
                phase: F32_ZERO,
            },
        ),
        false,
    )
    &&& slot_is(
        ps[5],
        "Initial Phase 0"@,
        F32_PI,
        F32_ZERO,
        F32_TAU,
        true,
        true,
        Some(AnimFn::PhaseWrap { rate: F32_POINT_THREE }),
        false,
    )
    &&& slot_is(
        ps[6],
        "Cycle Count 0"@,
        F32_MID_CYCLES,
        F32_ZERO,
        F32_MAX_CYCLES,
        true,
        false,
        None,
        false,
    )
    &&& slot_is(
        ps[7],
        "Fractional Cycles 0"@,
        F32_HALF,
        F32_ZERO,
        F32_ONE,
        true,
        false,
        None,
        false,
    )
    &&& slot_is(
        ps[8],
        "Initial Amplitude 0"@,
        F32_PI,
        F32_ZERO,
        F32_TAU,
        true,
        false,
        Some(
            AnimFn::SineOsc {
                baseline: F32_PI,
                spread: F32_PI,
                rate: F32_POINT_TWO,
                phase: F32_ZERO,
            },
        ),
        false,
    )
    &&& slot_is(
        ps[9],
        "Amplitude Decay 0"@,
        F32_DEFAULT_DECAY,
        F32_HALF,
        F32_ONE,
        true,
        false,
        None,
        false,
    )
    &&& slot_is(
        ps[10],
        "Rotation 0"@,
        F32_PI,
        F32_ZERO,
        F32_TAU,
        true,
        true,
        Some(AnimFn::PhaseWrap { rate: F32_ROT_RATE }),
        false,
    )
    &&& slot_is(
        ps[11],
        "Radius 1"@,
        F32_POINT_THREE,
        F32_ZERO,
        F32_ONE,
        true,
        false,
        Some(
            AnimFn::SineOsc {
                baseline: F32_HALF,
                spread: F32_POINT_THREE,
                rate: F32_ONE,
                phase: F32_PI,
            },
        ),
        false,
    )
    &&& slot_is(
        ps[12],
        "Initial Phase 1"@,
        F32_PI,
        F32_ZERO,
        F32_TAU,
        true,
        true,
        Some(AnimFn::PhaseWrap { rate: F32_POINT_THREE }),
        false,
    )
    &&& slot_is(
        ps[13],
        "Cycle Count 1"@,
        F32_DEFAULT_CYCLES_1,
        F32_ZERO,
        F32_MAX_CYCLES,
        true,
        false,
        None,
        false,
    )
    &&& slot_is(
        ps[14],
        "Fractional Cycles 1"@,
        F32_HALF,
        F32_ZERO,
        F32_ONE,
        true,
        false,
        None,
        false,
    )
    &&& slot_is(
        ps[15],
        "Initial Amplitude 1"@,
        F32_PI,
        F32_ZERO,
        F32_TAU,
        true,
        false,
        Some(
            AnimFn::SineOsc {
                baseline: F32_PI,
                spread: F32_TAU_TENTHS_3,
                rate: F32_POINT_TWO,
                phase: F32_HALF_PI,
            },
        ),
        false,
    )
    &&& slot_is(
        ps[16],
        "Amplitude Decay 1"@,
        F32_DEFAULT_DECAY,
        F32_HALF,
        F32_ONE,
        true,
        false,
        None,
        false,
    )
    &&& slot_is(
        ps[17],
        "Rotation 1"@,
        F32_PI,
        F32_ZERO,
        F32_TAU,
        true,
        true,
        Some(AnimFn::PhaseWrap { rate: F32_ROT_RATE_NEG }),
        false,
    )
}

/// Build the registry the process starts with, slot for slot as
/// [`default_layout_ok`] states. Parameters without an explicit default
/// start at the midpoint of their range (precomputed here, since averaging
/// two encoded scalars is floating-point work).
pub fn default_registry() -> (r: ParameterRegistry)
    ensures
        default_layout_ok(r@),
{
    let mut ps: Vec<RangedValue> = Vec::new();
    ps.push(RangedValue::new("ar", F32_ZERO, F32_ZERO, F32_ZERO).invisible());
    ps.push(
        RangedValue::new(
            "Point Count",
            F32_MIN_POINTS,
            F32_MAX_POINTS,
            F32_MID_POINTS,
        ).with_default(F32_DEFAULT_POINTS),
    );
    ps.push(
        RangedValue::new("Zoom", F32_MIN_ZOOM, F32_MAX_ZOOM, F32_MID_ZOOM).with_default(F32_ONE),
    );
    ps.push(
        RangedValue::new(
            "Line Thickness",
            F32_MIN_THICKNESS,
            F32_MAX_THICKNESS,
            F32_MID_THICKNESS,
        ).with_default(F32_DEFAULT_THICKNESS).separator(),
    );
    ps.push(
        RangedValue::new("Radius 0", F32_ZERO, F32_ONE, F32_HALF).anim_fn(
            AnimFn::SineOsc {
                baseline: F32_HALF,
                spread: F32_POINT_THREE,
                rate: F32_ONE,
                phase: F32_ZERO,
            },
        ),
    );
    ps.push(
        RangedValue::new("Initial Phase 0", F32_ZERO, F32_TAU, F32_PI).anim_fn(
            AnimFn::PhaseWrap { rate: F32_POINT_THREE },
        ).animated(),
    );
    ps.push(RangedValue::new("Cycle Count 0", F32_ZERO, F32_MAX_CYCLES, F32_MID_CYCLES));
    ps.push(RangedValue::new("Fractional Cycles 0", F32_ZERO, F32_ONE, F32_HALF));
    ps.push(
        RangedValue::new("Initial Amplitude 0", F32_ZERO, F32_TAU, F32_PI).anim_fn(
            AnimFn::SineOsc {
                baseline: F32_PI,
                spread: F32_PI,
                rate: F32_POINT_TWO,
                phase: F32_ZERO,
            },
        ),
    );
    ps.push(
        RangedValue::new(
            "Amplitude Decay 0",
            F32_HALF,
            F32_ONE,
            F32_THREE_QUARTERS,
        ).with_default(F32_DEFAULT_DECAY),
    );
    ps.push(
        RangedValue::new("Rotation 0", F32_ZERO, F32_TAU, F32_PI).anim_fn(
            AnimFn::PhaseWrap { rate: F32_ROT_RATE },
        ).animated(),
    );
    ps.push(
        RangedValue::new("Radius 1", F32_ZERO, F32_ONE, F32_HALF).with_default(
            F32_POINT_THREE,
        ).anim_fn(
            AnimFn::SineOsc {
                baseline: F32_HALF,
                spread: F32_POINT_THREE,
                rate: F32_ONE,
                phase: F32_PI,
            },
        ),
    );
    ps.push(
        RangedValue::new("Initial Phase 1", F32_ZERO, F32_TAU, F32_PI).anim_fn(
            AnimFn::PhaseWrap { rate: F32_POINT_THREE },
        ).animated(),
    );
    ps.push(
        RangedValue::new(
            "Cycle Count 1",
            F32_ZERO,
            F32_MAX_CYCLES,
            F32_MID_CYCLES,
        ).with_default(F32_DEFAULT_CYCLES_1),
    );
    ps.push(RangedValue::new("Fractional Cycles 1", F32_ZERO, F32_ONE, F32_HALF));
    ps.push(
        RangedValue::new("Initial Amplitude 1", F32_ZERO, F32_TAU, F32_PI).anim_fn(
            AnimFn::SineOsc {
                baseline: F32_PI,
                spread: F32_TAU_TENTHS_3,
                rate: F32_POINT_TWO,
                phase: F32_HALF_PI,
            },
        ),
    );
    ps.push(
        RangedValue::new(
            "Amplitude Decay 1",
            F32_HALF,
            F32_ONE,
            F32_THREE_QUARTERS,
        ).with_default(F32_DEFAULT_DECAY),
    );
    ps.push(
        RangedValue::new("Rotation 1", F32_ZERO, F32_TAU, F32_PI).anim_fn(
            AnimFn::PhaseWrap { rate: F32_ROT_RATE_NEG },
        ).animated(),
    );
    ParameterRegistry::new(ps)
}

} // verus!
