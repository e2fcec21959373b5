//! Behavioural tests for the parameter registry, the uniform packer, the
//! animation plumbing and the shader hot-reload state machine.

use pendulum_core::anim::AnimFn;
use pendulum_core::clock::AnimationClock;
use pendulum_core::packer::UniformPacker;
use pendulum_core::param::RangedValue;
use pendulum_core::registry::{ParameterRegistry, ASPECT_SLOT};
use pendulum_core::reload::{PipelineError, ReloadScheduler, ShaderProgram, ShaderSlot};
use pendulum_core::render::RenderLoop;
use pendulum_core::schema::{self, default_registry, PARAM_COUNT, SLOT_POINT_COUNT};
use std::f32::consts::{PI, TAU};

/// Reference evaluation of an animation descriptor, as the presentation
/// layer performs it: decode the coefficients and apply the documented
/// formula.
fn eval(f: &AnimFn, t: f32) -> f32 {
    match *f {
        AnimFn::PhaseWrap { rate } => (t * f32::from_bits(rate)).rem_euclid(TAU),
        AnimFn::SineOsc { baseline, spread, rate, phase } => {
            f32::from_bits(baseline)
                + f32::from_bits(spread) * (t * f32::from_bits(rate) + f32::from_bits(phase)).sin()
        }
    }
}

fn small_registry() -> ParameterRegistry {
    let mut ps: Vec<RangedValue> = Vec::new();
    ps.push(RangedValue::new("ar", 0, 0, 0).invisible());
    ps.push(RangedValue::new("a", 1.0f32.to_bits(), 3.0f32.to_bits(), 2.0f32.to_bits()));
    ps.push(
        RangedValue::new("b", 0.0f32.to_bits(), 1.0f32.to_bits(), 0.5f32.to_bits())
            .anim_fn(AnimFn::PhaseWrap { rate: 1.0f32.to_bits() })
            .animated(),
    );
    ParameterRegistry::new(ps)
}

#[test]
fn builders_set_every_field() {
    let p = RangedValue::new("Zoom", 0.1f32.to_bits(), 3.0f32.to_bits(), 1.55f32.to_bits());
    assert_eq!(p.name, "Zoom");
    assert_eq!(p.min, 0.1f32.to_bits());
    assert_eq!(p.max, 3.0f32.to_bits());
    assert_eq!(p.value, 1.55f32.to_bits());
    assert!(p.visible);
    assert!(!p.animated);
    assert!(p.animation_func.is_none());
    assert!(!p.needs_separator);

    let p = p.with_default(1.0f32.to_bits());
    assert_eq!(p.value, 1.0f32.to_bits());

    let p = p.invisible();
    assert!(!p.visible);

    let p = p.separator();
    assert!(p.needs_separator);

    let f = AnimFn::SineOsc {
        baseline: 0.5f32.to_bits(),
        spread: 0.3f32.to_bits(),
        rate: 1.0f32.to_bits(),
        phase: 0.0f32.to_bits(),
    };
    let p = p.anim_fn(f);
    assert_eq!(p.animation_func, Some(f));
    assert!(!p.animated);

    let p = p.animated();
    assert!(p.animated);
}

#[test]
fn pack_called_twice_is_identical() {
    let reg = small_registry();
    let a = UniformPacker::pack(&reg);
    let b = UniformPacker::pack(&reg);
    assert_eq!(a, b);
    assert_eq!(a.len(), reg.len());
}

#[test]
fn pack_preserves_order_and_ignores_visibility() {
    let reg = small_registry();
    let packed = UniformPacker::pack(&reg);
    assert_eq!(packed.len(), 3);
    // The invisible aspect parameter is still packed, at its slot.
    assert_eq!(packed[0], 0);
    assert_eq!(packed[1], 2.0f32.to_bits());
    assert_eq!(packed[2], 0.5f32.to_bits());
}

#[test]
fn set_value_stores_bit_exactly() {
    let mut reg = small_registry();
    reg.set_value(1, 2.75f32.to_bits());
    assert_eq!(reg.param_at(1).value, 2.75f32.to_bits());
    // Other fields and parameters untouched.
    assert_eq!(reg.param_at(1).name, "a");
    assert_eq!(reg.param_at(2).value, 0.5f32.to_bits());
}

#[test]
fn aspect_slot_is_overwritten() {
    let mut reg = small_registry();
    let ar = (1280.0f32 / 720.0f32).to_bits();
    reg.set_aspect(ar);
    assert_eq!(reg.param_at(ASPECT_SLOT).value, ar);
    let packed = UniformPacker::pack(&reg);
    assert_eq!(packed[ASPECT_SLOT], ar);
}

#[test]
fn animation_range_escape_is_unclamped() {
    // A parameter bounded to [0, 1] whose animation returns 5.0: the value
    // must propagate to the packed buffer unclamped.
    let escape = AnimFn::SineOsc {
        baseline: 5.0f32.to_bits(),
        spread: 0.0f32.to_bits(),
        rate: 1.0f32.to_bits(),
        phase: 0.0f32.to_bits(),
    };
    let mut ps: Vec<RangedValue> = Vec::new();
    ps.push(
        RangedValue::new("r", 0.0f32.to_bits(), 1.0f32.to_bits(), 0.5f32.to_bits())
            .anim_fn(escape)
            .animated(),
    );
    let mut reg = ParameterRegistry::new(ps);

    let t = 0.25f32;
    let v = eval(&reg.param_at(0).animation_func.unwrap(), t);
    assert_eq!(v, 5.0f32);
    assert!(reg.apply_animation(0, v.to_bits()));
    let packed = UniformPacker::pack(&reg);
    assert_eq!(packed[0], 5.0f32.to_bits());
    assert_eq!(f32::from_bits(packed[0]), 5.0f32);
}

#[test]
fn apply_animation_only_drives_active_parameters() {
    let mut reg = small_registry();
    // Slot 1 has no animation function: nothing applied, nothing changed.
    assert!(!reg.apply_animation(1, 9.0f32.to_bits()));
    assert_eq!(reg.param_at(1).value, 2.0f32.to_bits());
    // Out of range: nothing applied.
    assert!(!reg.apply_animation(17, 0));
    // Slot 2 is animated with a function present.
    assert!(reg.apply_animation(2, 0.125f32.to_bits()));
    assert_eq!(reg.param_at(2).value, 0.125f32.to_bits());
}

#[test]
fn animation_toggle_needs_a_function() {
    let mut reg = small_registry();
    assert!(!reg.set_animated(1, true));
    assert!(!reg.param_at(1).animated);
    assert!(reg.set_animated(2, false));
    assert!(!reg.param_at(2).animated);
    assert!(!reg.has_active_animation());
    assert!(reg.set_animated(2, true));
    assert!(reg.has_active_animation());
}

#[test]
fn animation_jobs_lists_active_parameters_in_order() {
    let mut reg = small_registry();
    let jobs = reg.animation_jobs();
    assert_eq!(jobs.len(), 1);
    assert_eq!(jobs[0].0, 2);
    assert_eq!(jobs[0].1, AnimFn::PhaseWrap { rate: 1.0f32.to_bits() });
    reg.set_animated(2, false);
    assert!(reg.animation_jobs().is_empty());
}

#[test]
fn animation_evaluation_is_deterministic() {
    // A fixed descriptor evaluated at a fixed time gives a bit-identical
    // float, however often it is evaluated.
    let reg = default_registry();
    for (_, f) in reg.animation_jobs() {
        for t in [0.0f32, 0.5, 1.0, 17.25, 1024.125] {
            let a = eval(&f, t);
            let b = eval(&f, t);
            assert_eq!(a.to_bits(), b.to_bits());
        }
    }
}

#[test]
fn clock_counts_one_per_tick() {
    let mut clock = AnimationClock::new();
    assert_eq!(clock.current_frame(), 0);
    for i in 0..100u64 {
        clock.tick();
        assert_eq!(clock.current_frame(), i + 1);
    }
}

#[test]
fn scheduler_fires_once_per_boundary() {
    let mut sched = ReloadScheduler::new(3);
    let mut fired: Vec<u64> = Vec::new();
    for frame in 0..9u64 {
        sched.observe_frame(frame);
        if sched.take_request() {
            fired.push(frame);
        }
    }
    assert_eq!(fired, vec![0, 3, 6]);
}

#[test]
fn reload_cadence_180_frames() {
    // 180 simulated frames with a period of 60: exactly three reload
    // attempts, at frames 0, 60 and 120.
    let rl = RenderLoop::new(default_registry(), 60, Ok(ShaderProgram { id: 1 }));
    let mut rl = rl.ok().unwrap();
    let mut fired: Vec<u64> = Vec::new();
    for frame in 0..180u64 {
        assert_eq!(rl.clock.current_frame(), frame);
        rl.update_step();
        if rl.scheduler.take_request() {
            fired.push(frame);
        }
    }
    assert_eq!(fired, vec![0, 60, 120]);
}

#[test]
fn reload_failure_keeps_the_program() {
    let mut slot = ShaderSlot::initial(Ok(ShaderProgram { id: 1 })).ok().unwrap();
    assert_eq!(slot.current, ShaderProgram { id: 1 });

    let failed = slot.commit_reload(Err(PipelineError::Compile(String::from("bad shader"))));
    assert!(!failed);
    assert_eq!(slot.current, ShaderProgram { id: 1 });

    let replaced = slot.commit_reload(Ok(ShaderProgram { id: 2 }));
    assert!(replaced);
    assert_eq!(slot.current, ShaderProgram { id: 2 });
}

#[test]
fn startup_failure_is_fatal() {
    let r = ShaderSlot::initial(Err(PipelineError::SourceRead(String::from("no such file"))));
    assert!(r.is_err());
    match r {
        Err(PipelineError::SourceRead(m)) => assert_eq!(m, "no such file"),
        _ => panic!("expected the startup error to pass through"),
    }

    let rl = RenderLoop::new(
        default_registry(),
        60,
        Err(PipelineError::Compile(String::from("syntax error"))),
    );
    match rl {
        Err(PipelineError::Compile(m)) => assert_eq!(m, "syntax error"),
        _ => panic!("expected a fatal startup compile error"),
    }
}

#[test]
fn error_messages_carry_through() {
    let e = PipelineError::SourceRead(String::from("missing"));
    assert_eq!(e.message().as_str(), "missing");
    let e = PipelineError::Compile(String::from("rejected"));
    assert_eq!(e.message().as_str(), "rejected");
    let e = PipelineError::BufferBuild(String::from("no memory"));
    assert_eq!(e.message().as_str(), "no memory");
}

#[test]
fn default_registry_matches_the_manifest() {
    let reg = default_registry();
    assert_eq!(reg.len(), PARAM_COUNT);
    assert_eq!(reg.len(), 18);

    let names: Vec<&str> = (0..reg.len()).map(|i| reg.param_at(i).name.as_str()).collect();
    assert_eq!(
        names,
        vec![
            "ar",
            "Point Count",
            "Zoom",
            "Line Thickness",
            "Radius 0",
            "Initial Phase 0",
            "Cycle Count 0",
            "Fractional Cycles 0",
            "Initial Amplitude 0",
            "Amplitude Decay 0",
            "Rotation 0",
            "Radius 1",
            "Initial Phase 1",
            "Cycle Count 1",
            "Fractional Cycles 1",
            "Initial Amplitude 1",
            "Amplitude Decay 1",
            "Rotation 1",
        ]
    );

    // Only the aspect slot is hidden; it is still packed.
    for i in 0..reg.len() {
        assert_eq!(reg.param_at(i).visible, i != 0);
    }

    // The bit-pattern constants decode to the intended numbers.
    assert_eq!(reg.param_at(SLOT_POINT_COUNT).value, 200_000.0f32.to_bits());
    assert_eq!(reg.param_at(SLOT_POINT_COUNT).min, 3001.0f32.to_bits());
    assert_eq!(reg.param_at(SLOT_POINT_COUNT).max, 1_000_000.0f32.to_bits());
    assert_eq!(reg.param_at(2).value, 1.0f32.to_bits());
    assert_eq!(reg.param_at(3).value, 0.0007f32.to_bits());
    assert!(reg.param_at(3).needs_separator);
    assert_eq!(reg.param_at(4).value, 0.5f32.to_bits());
    assert_eq!(reg.param_at(6).value, 50.0f32.to_bits());
    assert_eq!(reg.param_at(9).value, 0.97f32.to_bits());
    assert_eq!(reg.param_at(11).value, 0.3f32.to_bits());
    assert_eq!(reg.param_at(13).value, 20.0f32.to_bits());
    assert_eq!(reg.param_at(5).value, PI.to_bits());
    assert_eq!(reg.param_at(5).max, TAU.to_bits());
    assert_eq!(schema::F32_TAU_TENTHS_3, (TAU * 0.3f32).to_bits());
    assert_eq!(schema::F32_HALF_PI, (PI * 0.5f32).to_bits());
    assert_eq!(schema::F32_ROT_RATE, 0.161592f32.to_bits());
    assert_eq!(schema::F32_ROT_RATE_NEG, (-0.161592f32).to_bits());

    // Exactly the two phases and two rotations start out animated.
    for i in 0..reg.len() {
        assert_eq!(reg.param_at(i).animated, matches!(i, 5 | 10 | 12 | 17));
    }
    // Animation functions exist exactly where the manifest places them.
    for i in 0..reg.len() {
        assert_eq!(
            reg.param_at(i).animation_func.is_some(),
            matches!(i, 4 | 5 | 8 | 10 | 11 | 12 | 15 | 17)
        );
    }
}

#[test]
fn end_to_end_first_frame() {
    // Registry: aspect (invisible), point count 200000, zoom 1.0,
    // thickness 0.0007, radius 0.4 animated by 0.5 + 0.3 * sin(t).
    let radius_fn = AnimFn::SineOsc {
        baseline: 0.5f32.to_bits(),
        spread: 0.3f32.to_bits(),
        rate: 1.0f32.to_bits(),
        phase: 0.0f32.to_bits(),
    };
    let mut ps: Vec<RangedValue> = Vec::new();
    ps.push(RangedValue::new("ar", 0, 0, 0).invisible());
    ps.push(
        RangedValue::new(
            "Point Count",
            3001.0f32.to_bits(),
            1_000_000.0f32.to_bits(),
            501_500.5f32.to_bits(),
        )
        .with_default(200_000.0f32.to_bits()),
    );
    ps.push(
        RangedValue::new("Zoom", 0.1f32.to_bits(), 3.0f32.to_bits(), 1.55f32.to_bits())
            .with_default(1.0f32.to_bits()),
    );
    ps.push(
        RangedValue::new(
            "Line Thickness",
            0.0005f32.to_bits(),
            0.01f32.to_bits(),
            0.00525f32.to_bits(),
        )
        .with_default(0.0007f32.to_bits()),
    );
    ps.push(
        RangedValue::new("Radius 0", 0.0f32.to_bits(), 1.0f32.to_bits(), 0.4f32.to_bits())
            .anim_fn(radius_fn)
            .animated(),
    );
    let reg = ParameterRegistry::new(ps);

    let mut rl = RenderLoop::new(reg, 60, Ok(ShaderProgram { id: 1 })).ok().unwrap();

    // Frame 0: overwrite the aspect slot, evaluate animations at t = 0,
    // pack.
    let ar = 1920.0f32 / 1080.0f32;
    rl.registry.set_aspect(ar.to_bits());
    let t = rl.clock.current_frame() as f32 / 60.0;
    assert_eq!(t, 0.0);
    let mut any = false;
    for (i, f) in rl.registry.animation_jobs() {
        let v = eval(&f, t);
        any |= rl.registry.apply_animation(i, v.to_bits());
    }
    assert!(any);
    assert!(rl.registry.has_active_animation());

    let packed = UniformPacker::pack(&rl.registry);
    let floats: Vec<f32> = packed.iter().map(|b| f32::from_bits(*b)).collect();
    assert_eq!(floats, vec![ar, 200_000.0, 1.0, 0.0007, 0.5]);
}
