//! The dependency resolver: expands a flag registry to its transitive
//! closure under the catalog's implication edges, and records every header
//! the closed registry depends on.

use vstd::prelude::*;
use crate::registry::Builtins;
use crate::registry::Includes;

verus! {

/// The transitive closure of a flag registry under the catalog's implication
/// edges, written out flag by flag: a derived flag is set exactly when it was
/// already set or some construct that implies it (directly or through a
/// chain) is requested.
pub open spec fn resolved_flags(b: Builtins) -> Builtins {
    Builtins {
        panic: b.panic || b.rust_vec || b.rust_slice,
        rust_string: b.rust_string,
        rust_str: b.rust_str,
        rust_slice: b.rust_slice || b.rust_vec,
        rust_box: b.rust_box,
        rust_vec: b.rust_vec,
        rust_fn: b.rust_fn,
        rust_isize: b.rust_isize,
        opaque: b.opaque,
        layout: b.layout || b.rust_slice || b.rust_vec,
        unsafe_bitcopy: b.unsafe_bitcopy || b.rust_vec,
        rust_error: b.rust_error,
        manually_drop: b.manually_drop,
        maybe_uninit: b.maybe_uninit,
        trycatch: b.trycatch,
        ptr_len: b.ptr_len,
        exception: b.exception,
        relocatable: b.relocatable,
        friend_impl: b.friend_impl || b.rust_str || b.rust_slice || b.rust_vec || b.rust_error,
        is_complete: b.is_complete || b.layout || b.rust_slice || b.rust_vec,
        deleter_if: b.deleter_if,
    }
}

/// The headers that a registry's set flags contribute, joined onto a header
/// registry.  The flag registry is read as it stands: the resolver applies
/// this to an already closed registry.
pub open spec fn contributed_includes(r: Builtins, h: Includes) -> Includes {
    Includes {
        algorithm: h.algorithm || r.rust_vec,
        array: h.array || r.rust_string || r.rust_vec,
        basetsd: h.basetsd || r.rust_isize,
        cstddef: h.cstddef || r.rust_vec || r.rust_slice || r.layout || r.is_complete
            || r.maybe_uninit || r.ptr_len || r.exception,
        cstdint: h.cstdint || r.rust_string || r.rust_str,
        exception: h.exception || r.rust_error || r.trycatch,
        initializer_list: h.initializer_list || r.rust_vec,
        iterator: h.iterator || r.rust_vec || r.rust_slice,
        new: h.new || r.rust_vec || r.rust_box || r.maybe_uninit,
        string: h.string || r.rust_string || r.rust_str,
        sys_types: h.sys_types || r.rust_isize,
        type_traits: h.type_traits || r.rust_vec || r.rust_slice || r.rust_box
            || r.relocatable || r.layout || r.is_complete || r.trycatch,
        utility: h.utility || r.rust_vec || r.rust_box || r.rust_fn || r.manually_drop
            || r.trycatch,
    }
}

/// The header registry after resolution: a header is needed exactly when it
/// was already needed or some flag of the closed registry contributes it.
pub open spec fn resolved_includes(b: Builtins, h: Includes) -> Includes {
    contributed_includes(resolved_flags(b), h)
}

/// One linear pass over the flag-implication edges, in an order consistent
/// with the implication graph (a composite construct is processed before the
/// primitive constructs it implies, so a later check of a primitive flag
/// already sees it set).  The postcondition proves that this single pass
/// reaches the full transitive closure: no fixpoint iteration is needed.
#[verifier::rlimit(100)]
fn propagate_flags(b: &mut Builtins)
    ensures
        *final(b) == resolved_flags(*old(b)),
{
    if b.rust_str {
        b.friend_impl = true;
    }

    if b.rust_vec {
        b.panic = true;
        b.rust_slice = true;
        b.unsafe_bitcopy = true;
    }

    if b.rust_slice {
        b.friend_impl = true;
        b.layout = true;
        b.panic = true;
    }

    if b.rust_error {
        b.friend_impl = true;
    }

    if b.layout {
        b.is_complete = true;
    }
}

/// The headers contributed by the buffer-like constructs at the front of the
/// catalog: the string, buffer, box, function-pointer, error and
/// machine-word constructs.
pub open spec fn front_includes(r: Builtins, h: Includes) -> Includes {
    Includes {
        algorithm: h.algorithm || r.rust_vec,
        array: h.array || r.rust_string || r.rust_vec,
        basetsd: h.basetsd || r.rust_isize,
        cstddef: h.cstddef || r.rust_vec || r.rust_slice,
        cstdint: h.cstdint || r.rust_string || r.rust_str,
        exception: h.exception || r.rust_error,
        initializer_list: h.initializer_list || r.rust_vec,
        iterator: h.iterator || r.rust_vec || r.rust_slice,
        new: h.new || r.rust_vec || r.rust_box,
        string: h.string || r.rust_string || r.rust_str,
        sys_types: h.sys_types || r.rust_isize,
        type_traits: h.type_traits || r.rust_vec || r.rust_slice || r.rust_box,
        utility: h.utility || r.rust_vec || r.rust_box || r.rust_fn,
    }
}

/// The headers contributed by the helper constructs at the back of the
/// catalog: layout introspection, relocatability, placement construction,
/// pointer-length pairs and exception translation.
pub open spec fn back_includes(r: Builtins, h: Includes) -> Includes {
    Includes {
        algorithm: h.algorithm,
        array: h.array,
        basetsd: h.basetsd,
        cstddef: h.cstddef || r.layout || r.is_complete || r.maybe_uninit || r.ptr_len
            || r.exception,
        cstdint: h.cstdint,
        exception: h.exception || r.trycatch,
        initializer_list: h.initializer_list,
        iterator: h.iterator,
        new: h.new || r.maybe_uninit,
        string: h.string,
        sys_types: h.sys_types,
        type_traits: h.type_traits || r.relocatable || r.layout || r.is_complete
            || r.trycatch,
        utility: h.utility || r.manually_drop || r.trycatch,
    }
}

/// Marks the headers that the front half of the catalog's constructs depend
/// on.
#[verifier::rlimit(100)]
fn gather_front(b: &Builtins, h: &mut Includes)
    ensures
        *final(h) == front_includes(*b, *old(h)),
{
    if b.rust_string {
        h.array = true;
        h.cstdint = true;
        h.string = true;
    }

    if b.rust_str {
        h.cstdint = true;
        h.string = true;
    }

    if b.rust_vec {
        h.algorithm = true;
        h.array = true;
        h.cstddef = true;
        h.initializer_list = true;
        h.iterator = true;
        h.new = true;
        h.type_traits = true;
        h.utility = true;
    }

    if b.rust_slice {
        h.cstddef = true;
        h.iterator = true;
        h.type_traits = true;
    }

    if b.rust_box {
        h.new = true;
        h.type_traits = true;
        h.utility = true;
    }

    if b.rust_fn {
        h.utility = true;
    }

    if b.rust_error {
        h.exception = true;
    }

    if b.rust_isize {
        h.basetsd = true;
        h.sys_types = true;
    }
}

/// Marks the headers that the back half of the catalog's constructs depend
/// on.
#[verifier::rlimit(100)]
fn gather_back(b: &Builtins, h: &mut Includes)
    ensures
        *final(h) == back_includes(*b, *old(h)),
{
    if b.relocatable {
        h.type_traits = true;
    }

    if b.layout {
        h.type_traits = true;
        h.cstddef = true;
    }

    if b.is_complete {
        h.cstddef = true;
        h.type_traits = true;
    }

    if b.maybe_uninit {
        h.cstddef = true;
        h.new = true;
    }

    if b.manually_drop {
        h.utility = true;
    }

    if b.ptr_len {
        h.cstddef = true;
    }

    if b.trycatch {
        h.exception = true;
        h.type_traits = true;
        h.utility = true;
    }

    if b.exception {
        h.cstddef = true;
    }
}

/// Resolves the registries in place: propagates the flag-implication edges
/// to their transitive closure, then records every header the closed
/// registry depends on.
pub fn resolve(b: &mut Builtins, h: &mut Includes)
    ensures
        *final(b) == resolved_flags(*old(b)),
        *final(h) == resolved_includes(*old(b), *old(h)),
{
    propagate_flags(b);
    gather_front(b, h);
    gather_back(b, h);
}

} // verus!
