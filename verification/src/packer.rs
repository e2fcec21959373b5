//! The uniform packer: flattens the registry's current values, in registry
//! order, into the scalar sequence that is uploaded verbatim as the shader's
//! uniform block.
//!
//! Packing is a pure transform. For every parameter, in order, the current
//! value is appended bit-exactly — visibility is ignored, nothing is clamped,
//! padded, aligned or converted. The result has exactly one scalar per
//! parameter, so its length is fixed for the life of the process.

use vstd::prelude::*;

use crate::param::{with_value, RangedValue};
use crate::registry::ParameterRegistry;

verus! {

/// The packed image of a parameter sequence: the value of each parameter,
/// in the same order.
pub open spec fn packed_of(ps: Seq<RangedValue>) -> Seq<u32> {
    ps.map_values(|p: RangedValue| p.value)
}

/// Converts the registry's current values into the flat scalar buffer whose
/// layout the compiled shader expects.
pub struct UniformPacker;

impl UniformPacker {
    /// Pack every parameter's current value, in registry order.
    ///
    /// The result is exactly `packed_of(registry@)`: one scalar per
    /// parameter, position `i` holding the value of parameter `i`
    /// bit-exactly, whether or not that parameter is visible.
    pub fn pack(registry: &ParameterRegistry) -> (r: Vec<u32>)
        ensures
            r@ == packed_of(registry@),
            r@.len() == registry@.len(),
            forall|i: int| 0 <= i < registry@.len() ==> r@[i] == registry@[i].value,
    {
        let n = registry.len();
        let mut out: Vec<u32> = Vec::new();
        let mut i: usize = 0;
        while i < n
            invariant
                n == registry@.len(),
                i <= n,
                out@.len() == i,
                forall|j: int| 0 <= j < i ==> out@[j] == registry@[j].value,
            decreases n - i,
        {
            out.push(registry.param_at(i).value);
            i = i + 1;
        }
        proof {
            assert(out@ =~= packed_of(registry@));
        }
        out
    }
}

/// Order stability: packing is a function of the parameter sequence alone,
/// so two packs of the same registry state yield identical buffers, and the
/// buffer length always equals the parameter count.
pub proof fn lemma_pack_order_stable(ps: Seq<RangedValue>, a: Seq<u32>, b: Seq<u32>)
    requires
        a == packed_of(ps),
        b == packed_of(ps),
    ensures
        a == b,
        a.len() == ps.len(),
{
}

/// Pack fidelity: the packed scalar at index `i` is the value of parameter
/// `i` at pack time — independent of the parameter's visibility or any other
/// field.
pub proof fn lemma_pack_fidelity(ps: Seq<RangedValue>, i: int)
    requires
        0 <= i < ps.len(),
    ensures
        packed_of(ps)[i] == ps[i].value,
{
}

/// Range escape: a value written into a parameter propagates into the packed
/// buffer bit-exactly, whatever the parameter's `[min, max]` bounds are. The
/// registry and packer never re-clamp, so an animation result outside the
/// editable range reaches the shader unchanged.
pub proof fn lemma_pack_propagates_unclamped(ps: Seq<RangedValue>, i: int, v: u32)
    requires
        0 <= i < ps.len(),
    ensures
        packed_of(ps.update(i, with_value(ps[i], v)))[i] == v,
{
}

} // verus!
