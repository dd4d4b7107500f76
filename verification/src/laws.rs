//! The laws of the pass, stated over the resolver's and the emitter's
//! models and proved once for every registry.

use vstd::prelude::*;
use crate::catalog::closed_registry;
use crate::content::Content;
use crate::emit::write_frags;
use crate::registry::Builtins;
use crate::registry::Includes;
use crate::resolve::resolved_flags;
use crate::resolve::resolved_includes;

verus! {

/// Pointwise order on flag registries: every flag set in `a` is set in `b`.
pub open spec fn flags_le(a: Builtins, b: Builtins) -> bool {
    &&& a.panic ==> b.panic
    &&& a.rust_string ==> b.rust_string
    &&& a.rust_str ==> b.rust_str
    &&& a.rust_slice ==> b.rust_slice
    &&& a.rust_box ==> b.rust_box
    &&& a.rust_vec ==> b.rust_vec
    &&& a.rust_fn ==> b.rust_fn
    &&& a.rust_isize ==> b.rust_isize
    &&& a.opaque ==> b.opaque
    &&& a.layout ==> b.layout
    &&& a.unsafe_bitcopy ==> b.unsafe_bitcopy
    &&& a.rust_error ==> b.rust_error
    &&& a.manually_drop ==> b.manually_drop
    &&& a.maybe_uninit ==> b.maybe_uninit
    &&& a.trycatch ==> b.trycatch
    &&& a.ptr_len ==> b.ptr_len
    &&& a.exception ==> b.exception
    &&& a.relocatable ==> b.relocatable
    &&& a.friend_impl ==> b.friend_impl
    &&& a.is_complete ==> b.is_complete
    &&& a.deleter_if ==> b.deleter_if
}

/// Pointwise order on header registries: every header needed by `a` is
/// needed by `b`.
pub open spec fn includes_le(a: Includes, b: Includes) -> bool {
    &&& a.algorithm ==> b.algorithm
    &&& a.array ==> b.array
    &&& a.basetsd ==> b.basetsd
    &&& a.cstddef ==> b.cstddef
    &&& a.cstdint ==> b.cstdint
    &&& a.exception ==> b.exception
    &&& a.initializer_list ==> b.initializer_list
    &&& a.iterator ==> b.iterator
    &&& a.new ==> b.new
    &&& a.string ==> b.string
    &&& a.sys_types ==> b.sys_types
    &&& a.type_traits ==> b.type_traits
    &&& a.utility ==> b.utility
}

/// Resolution is idempotent: resolving an already resolved pair of
/// registries changes neither of them.
pub proof fn lemma_resolve_idempotent(b: Builtins, h: Includes)
    ensures
        resolved_flags(resolved_flags(b)) == resolved_flags(b),
        resolved_includes(resolved_flags(b), resolved_includes(b, h)) == resolved_includes(b, h),
{
}

/// Closure completeness: after resolution, every flag and header that a set
/// flag directly implies is itself set.  The closed pair satisfies every
/// edge of the catalog at once, so chains of implications of any length are
/// satisfied as well, edge by edge.
pub proof fn lemma_resolve_complete(b: Builtins, h: Includes)
    ensures
        closed_registry(resolved_flags(b), resolved_includes(b, h)),
{
}

/// Resolution only adds: every flag and header that was set stays set.
pub proof fn lemma_resolve_extensive(b: Builtins, h: Includes)
    ensures
        flags_le(b, resolved_flags(b)),
        includes_le(h, resolved_includes(b, h)),
{
}

/// Resolution is monotone: setting an additional flag before resolution
/// never causes a previously set flag or header to come out unset.
pub proof fn lemma_resolve_monotone(b1: Builtins, h1: Includes, b2: Builtins, h2: Includes)
    requires
        flags_le(b1, b2),
        includes_le(h1, h2),
    ensures
        flags_le(resolved_flags(b1), resolved_flags(b2)),
        includes_le(resolved_includes(b1, h1), resolved_includes(b2, h2)),
{
}

/// Resolution adds nothing beyond the closure: any registry pair that is
/// closed under the catalog and covers the input also covers the resolved
/// result.  Together with the completeness and extensivity laws this pins
/// resolution down as exactly the transitive closure.
pub proof fn lemma_resolve_least(b: Builtins, h: Includes, bc: Builtins, hc: Includes)
    requires
        flags_le(b, bc),
        includes_le(h, hc),
        closed_registry(bc, hc),
    ensures
        flags_le(resolved_flags(b), bc),
        includes_le(resolved_includes(b, h), hc),
{
}

/// Emission is deterministic: what a full pass appends depends only on the
/// flag registry and on the break state of the buffer it is appended to —
/// never on the buffer's prior text.  Two passes over the same requested
/// constructs therefore append structurally identical fragment sequences to
/// two independent buffers: the same constructs, in the same order, each
/// guard appearing exactly as often in one buffer as in the other.
pub proof fn lemma_pass_deterministic(b: Builtins, c1: Content, c2: Content)
    requires
        c1.pending() == c2.pending(),
        (c1.text().len() > 0) == (c2.text().len() > 0),
    ensures
        write_frags(b, c1) == write_frags(b, c2),
{
}

} // verus!
