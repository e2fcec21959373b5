//! The parameter registry: the fixed, ordered collection of all parameters.
//!
//! Its iteration order is the sole contract between application state and the
//! GPU-visible uniform layout: the Nth parameter corresponds exactly to the
//! Nth scalar field of the shader's uniform block. There is no name-based
//! binding. Every method therefore preserves the length and order of the
//! collection — after construction only a parameter's `value` and `animated`
//! flag ever change.
//!
//! The aspect-ratio parameter lives in a designated slot (index zero) and is
//! overwritten once per frame from the current viewport dimensions.

use vstd::prelude::*;

use crate::anim::AnimFn;
use crate::param::{with_animated, with_value, RangedValue};

verus! {

/// Index of the designated aspect-ratio slot.
pub const ASPECT_SLOT: usize = 0;

/// Whether the animation function of `p` currently drives its value: the
/// parameter is marked animated and actually has a function to run.
pub open spec fn is_active(p: RangedValue) -> bool {
    p.animated && p.animation_func is Some
}

/// Whether any parameter's value is currently driven by an animation.
pub open spec fn has_active_anim(ps: Seq<RangedValue>) -> bool {
    exists|i: int| 0 <= i < ps.len() && is_active(ps[i])
}

/// The animation work of one frame: for each active parameter, in registry
/// order, its index paired with its animation function.
pub open spec fn jobs_of(ps: Seq<RangedValue>) -> Seq<(usize, AnimFn)>
    decreases ps.len(),
{
    if ps.len() == 0 {
        Seq::empty()
    } else {
        let prefix = jobs_of(ps.drop_last());
        let last = ps[ps.len() - 1];
        if is_active(last) {
            prefix.push((((ps.len() - 1) as usize), last.animation_func.unwrap()))
        } else {
            prefix
        }
    }
}

/// The animation jobs of a frame name exactly the active parameters: every
/// listed pair is an in-range index whose parameter is active and carries
/// that function, and every active parameter is listed.
pub proof fn lemma_jobs_characterize(ps: Seq<RangedValue>)
    requires
        ps.len() <= usize::MAX,
    ensures
        forall|k: int|
            0 <= k < jobs_of(ps).len() ==> {
                let j = #[trigger] jobs_of(ps)[k];
                &&& 0 <= j.0 < ps.len()
                &&& is_active(ps[j.0 as int])
                &&& ps[j.0 as int].animation_func == Some(j.1)
            },
        forall|i: int|
            0 <= i < ps.len() && #[trigger] is_active(ps[i]) ==> exists|k: int|
                0 <= k < jobs_of(ps).len() && jobs_of(ps)[k].0 == i,
    decreases ps.len(),
{
    if ps.len() > 0 {
        lemma_jobs_characterize(ps.drop_last());
        let last = ps[ps.len() - 1];
        assert forall|i: int| 0 <= i < ps.len() && #[trigger] is_active(ps[i]) implies exists|k: int|
            0 <= k < jobs_of(ps).len() && jobs_of(ps)[k].0 == i by {
            if i < ps.len() - 1 {
                assert(ps.drop_last()[i] == ps[i]);
                let k = choose|k: int|
                    0 <= k < jobs_of(ps.drop_last()).len() && jobs_of(ps.drop_last())[k].0 == i;
                assert(jobs_of(ps)[k].0 == i);
            } else {
                let prefix = jobs_of(ps.drop_last());
                assert(jobs_of(ps) == prefix.push(
                    (((ps.len() - 1) as usize), last.animation_func.unwrap()),
                ));
                assert(jobs_of(ps)[prefix.len() as int].0 == i);
            }
        }
    }
}

/// There is animation work exactly when some parameter is active.
pub proof fn lemma_jobs_nonempty_iff_active(ps: Seq<RangedValue>)
    ensures
        jobs_of(ps).len() > 0 <==> has_active_anim(ps),
    decreases ps.len(),
{
    if ps.len() > 0 {
        lemma_jobs_nonempty_iff_active(ps.drop_last());
        let last = ps[ps.len() - 1];
        if is_active(last) {
        } else {
            assert(forall|i: int|
                0 <= i < ps.len() - 1 ==> ps.drop_last()[i] == ps[i]);
            if has_active_anim(ps) {
                let i = choose|i: int| 0 <= i < ps.len() && is_active(ps[i]);
                assert(i < ps.len() - 1);
                assert(is_active(ps.drop_last()[i]));
                assert(has_active_anim(ps.drop_last()));
            }
            if has_active_anim(ps.drop_last()) {
                let i = choose|i: int| 0 <= i < ps.drop_last().len() && is_active(ps.drop_last()[i]);
                assert(is_active(ps[i]));
            }
        }
    }
}

/// The ordered, fixed-size sequence of all parameters.
pub struct ParameterRegistry {
    params: Vec<RangedValue>,
}

impl View for ParameterRegistry {
    type V = Seq<RangedValue>;

    closed spec fn view(&self) -> Seq<RangedValue> {
        self.params@
    }
}

impl ParameterRegistry {
    /// Wrap the full ordered set of parameters, built once at startup. The
    /// registry offers no way to add, remove or reorder entries afterwards.
    pub fn new(params: Vec<RangedValue>) -> (r: ParameterRegistry)
        ensures
            r@ == params@,
    {
        ParameterRegistry { params }
    }

    /// Number of parameters; constant for the life of the registry.
    pub fn len(&self) -> (r: usize)
        ensures
            r == self@.len(),
    {
        self.params.len()
    }

    /// The parameter at position `i`.
    pub fn param_at(&self, i: usize) -> (r: &RangedValue)
        requires
            i < self@.len(),
        ensures
            *r == self@[i as int],
    {
        &self.params[i]
    }

    /// Store `v` as the current value of parameter `i`, bit-exactly: no
    /// clamping against `[min, max]` and no other field touched. Manual edits
    /// arrive here already constrained to the range by the UI; the registry
    /// itself never re-clamps.
    pub fn set_value(&mut self, i: usize, v: u32)
        requires
            i < old(self)@.len(),
        ensures
            final(self)@ == old(self)@.update(i as int, with_value(old(self)@[i as int], v)),
    {
        self.params[i].value = v;
    }

    /// Overwrite the designated aspect-ratio slot with the encoding of the
    /// viewport ratio computed by the presentation layer this frame.
    pub fn set_aspect(&mut self, v: u32)
        requires
            old(self)@.len() > 0,
        ensures
            final(self)@ == old(self)@.update(
                ASPECT_SLOT as int,
                with_value(old(self)@[ASPECT_SLOT as int], v),
            ),
    {
        self.params[ASPECT_SLOT].value = v;
    }

    /// Store the evaluated animation value `v` for parameter `i`, if that
    /// parameter is currently animation-driven; report whether it was.
    ///
    /// The value is stored bit-exactly even when it lies outside
    /// `[min, max]`: an animation function may legally escape the editable
    /// range and the registry must propagate what it returned.
    pub fn apply_animation(&mut self, i: usize, v: u32) -> (applied: bool)
        ensures
            applied == (i < old(self)@.len() && is_active(old(self)@[i as int])),
            applied ==> final(self)@ == old(self)@.update(
                i as int,
                with_value(old(self)@[i as int], v),
            ),
            !applied ==> final(self)@ == old(self)@,
    {
        if i < self.params.len() {
            let active = self.params[i].animated && self.params[i].animation_func.is_some();
            if active {
                self.params[i].value = v;
                return true;
            }
        }
        false
    }

    /// Enable or disable the animation of parameter `i`; report whether the
    /// toggle applied. It applies only where an animation function is
    /// present: a parameter without one is not animatable at all.
    pub fn set_animated(&mut self, i: usize, on: bool) -> (changed: bool)
        ensures
            changed == (i < old(self)@.len() && old(self)@[i as int].animation_func is Some),
            changed ==> final(self)@ == old(self)@.update(
                i as int,
                with_animated(old(self)@[i as int], on),
            ),
            !changed ==> final(self)@ == old(self)@,
    {
        if i < self.params.len() {
            if self.params[i].animation_func.is_some() {
                self.params[i].animated = on;
                return true;
            }
        }
        false
    }

    /// Whether at least one parameter is currently animation-driven — the
    /// signal that the presentation layer must schedule another frame even
    /// under an otherwise idle, event-driven loop.
    pub fn has_active_animation(&self) -> (r: bool)
        ensures
            r == has_active_anim(self@),
    {
        let n = self.params.len();
        let mut i: usize = 0;
        while i < n
            invariant
                n == self@.len(),
                i <= n,
                forall|j: int| 0 <= j < i ==> !is_active(self@[j]),
            decreases n - i,
        {
            if self.params[i].animated && self.params[i].animation_func.is_some() {
                return true;
            }
            i = i + 1;
        }
        false
    }

    /// The animation work of this frame: each active parameter's index and
    /// function, in registry order. The presentation layer evaluates each
    /// function at the current time and hands the results back through
    /// [`Self::apply_animation`].
    pub fn animation_jobs(&self) -> (r: Vec<(usize, AnimFn)>)
        ensures
            r@ == jobs_of(self@),
    {
        let n = self.params.len();
        let mut jobs: Vec<(usize, AnimFn)> = Vec::new();
        let mut i: usize = 0;
        while i < n
            invariant
                n == self@.len(),
                i <= n,
                jobs@ == jobs_of(self@.take(i as int)),
            decreases n - i,
        {
            proof {
                assert(self@.take(i + 1 as int).drop_last() =~= self@.take(i as int));
                assert(self@.take(i + 1 as int)[i as int] == self@[i as int]);
            }
            match self.params[i].animation_func {
                Some(f) => {
                    if self.params[i].animated {
                        jobs.push((i, f));
                    }
                }
                None => {}
            }
            i = i + 1;
        }
        proof {
            assert(self@.take(n as int) =~= self@);
        }
        jobs
    }
}

} // verus!
