//! The two registries of the pass: which interop constructs an artifact
//! requires, and which headers its supporting code depends on.

use vstd::prelude::*;

verus! {

/// The flag registry: one boolean per built-in interop construct.
///
/// The generator sets flags directly (each such write is idempotent) while it
/// walks the user's declarations; a few flags — `friend_impl`, and at times
/// `panic`, `rust_slice`, `layout`, `is_complete`, `unsafe_bitcopy` — are
/// derived, set only while the registry is resolved against the catalog's
/// dependency edges.  Flags only ever move from unset to set; there is no
/// removal operation.
#[derive(Clone, Copy, PartialEq, Eq, Structural, Debug)]
pub struct Builtins {
    pub panic: bool,
    pub rust_string: bool,
    pub rust_str: bool,
    pub rust_slice: bool,
    pub rust_box: bool,
    pub rust_vec: bool,
    pub rust_fn: bool,
    pub rust_isize: bool,
    pub opaque: bool,
    pub layout: bool,
    pub unsafe_bitcopy: bool,
    pub rust_error: bool,
    pub manually_drop: bool,
    pub maybe_uninit: bool,
    pub trycatch: bool,
    pub ptr_len: bool,
    pub exception: bool,
    pub relocatable: bool,
    pub friend_impl: bool,
    pub is_complete: bool,
    pub deleter_if: bool,
}

impl Builtins {
    /// The distinguished "nothing requested" registry: every flag unset.
    pub open spec fn cleared() -> Builtins {
        Builtins {
            panic: false,
            rust_string: false,
            rust_str: false,
            rust_slice: false,
            rust_box: false,
            rust_vec: false,
            rust_fn: false,
            rust_isize: false,
            opaque: false,
            layout: false,
            unsafe_bitcopy: false,
            rust_error: false,
            manually_drop: false,
            maybe_uninit: false,
            trycatch: false,
            ptr_len: false,
            exception: false,
            relocatable: false,
            friend_impl: false,
            is_complete: false,
            deleter_if: false,
        }
    }

    /// Creates a registry with every flag unset.
    pub fn new() -> (b: Builtins)
        ensures
            b == Builtins::cleared(),
    {
        Builtins {
            panic: false,
            rust_string: false,
            rust_str: false,
            rust_slice: false,
            rust_box: false,
            rust_vec: false,
            rust_fn: false,
            rust_isize: false,
            opaque: false,
            layout: false,
            unsafe_bitcopy: false,
            rust_error: false,
            manually_drop: false,
            maybe_uninit: false,
            trycatch: false,
            ptr_len: false,
            exception: false,
            relocatable: false,
            friend_impl: false,
            is_complete: false,
            deleter_if: false,
        }
    }
}

impl Default for Builtins {
    /// Same as [`Builtins::new`]: every flag unset.
    fn default() -> (b: Builtins)
        ensures
            b == Builtins::cleared(),
    {
        Builtins::new()
    }
}

/// The header registry: one boolean per header the supporting code may depend
/// on.  It is populated only as a side effect of resolving the flag registry,
/// and is read by the (out-of-scope) stage that writes header directives at
/// the top of the artifact.
#[derive(Clone, Copy, PartialEq, Eq, Structural, Debug)]
pub struct Includes {
    pub algorithm: bool,
    pub array: bool,
    pub basetsd: bool,
    pub cstddef: bool,
    pub cstdint: bool,
    pub exception: bool,
    pub initializer_list: bool,
    pub iterator: bool,
    pub new: bool,
    pub string: bool,
    pub sys_types: bool,
    pub type_traits: bool,
    pub utility: bool,
}

impl Includes {
    /// The distinguished "no header needed" registry: every flag unset.
    pub open spec fn cleared() -> Includes {
        Includes {
            algorithm: false,
            array: false,
            basetsd: false,
            cstddef: false,
            cstdint: false,
            exception: false,
            initializer_list: false,
            iterator: false,
            new: false,
            string: false,
            sys_types: false,
            type_traits: false,
            utility: false,
        }
    }

    /// Creates a header registry with every flag unset.
    pub fn new() -> (h: Includes)
        ensures
            h == Includes::cleared(),
    {
        Includes {
            algorithm: false,
            array: false,
            basetsd: false,
            cstddef: false,
            cstdint: false,
            exception: false,
            initializer_list: false,
            iterator: false,
            new: false,
            string: false,
            sys_types: false,
            type_traits: false,
            utility: false,
        }
    }
}

impl Default for Includes {
    /// Same as [`Includes::new`]: every flag unset.
    fn default() -> (h: Includes)
        ensures
            h == Includes::cleared(),
    {
        Includes::new()
    }
}

} // verus!
