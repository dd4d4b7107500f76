//! The structural scopes the emitter can open: namespace-like groupings and
//! the linkage block, each with its literal opening and closing syntax.

use vstd::prelude::*;

verus! {

/// One kind of structural scope.  The catalog is fixed, so the scopes the
/// pass can open are fixed too: the outer `rust` namespace, the inline
/// versioning namespace nested in it (whose symbols are callable without
/// qualification), the `detail`, `repr` and `behavior` namespaces, the
/// anonymous namespace (which gives internal linkage to everything inside),
/// and the C-linkage block (which disables name decoration for contained
/// declarations).
#[derive(Clone, Copy, PartialEq, Eq, Structural, Debug)]
pub enum Block {
    RustNamespace,
    InlineNamespace,
    DetailNamespace,
    ReprNamespace,
    BehaviorNamespace,
    AnonymousNamespace,
    ExternC,
}

/// The line that opens a scope of the given kind.
pub open spec fn open_line(b: Block) -> Seq<char> {
    match b {
        Block::RustNamespace => "namespace rust {"@,
        Block::InlineNamespace => "inline namespace cxxbridge1 {"@,
        Block::DetailNamespace => "namespace detail {"@,
        Block::ReprNamespace => "namespace repr {"@,
        Block::BehaviorNamespace => "namespace behavior {"@,
        Block::AnonymousNamespace => "namespace {"@,
        Block::ExternC => "extern \"C\" {"@,
    }
}

/// The line that closes a scope of the given kind.
pub open spec fn close_line(b: Block) -> Seq<char> {
    match b {
        Block::RustNamespace => "} // namespace rust"@,
        Block::InlineNamespace => "} // namespace cxxbridge1"@,
        Block::DetailNamespace => "} // namespace detail"@,
        Block::ReprNamespace => "} // namespace repr"@,
        Block::BehaviorNamespace => "} // namespace behavior"@,
        Block::AnonymousNamespace => "} // namespace"@,
        Block::ExternC => "} // extern \"C\""@,
    }
}

/// The opening syntax of a scope, as a value the buffer can hold.
pub fn open_text(b: Block) -> (s: &'static str)
    ensures
        s@ == open_line(b),
{
    match b {
        Block::RustNamespace => "namespace rust {",
        Block::InlineNamespace => "inline namespace cxxbridge1 {",
        Block::DetailNamespace => "namespace detail {",
        Block::ReprNamespace => "namespace repr {",
        Block::BehaviorNamespace => "namespace behavior {",
        Block::AnonymousNamespace => "namespace {",
        Block::ExternC => "extern \"C\" {",
    }
}

/// The closing syntax of a scope, as a value the buffer can hold.
pub fn close_text(b: Block) -> (s: &'static str)
    ensures
        s@ == close_line(b),
{
    match b {
        Block::RustNamespace => "} // namespace rust",
        Block::InlineNamespace => "} // namespace cxxbridge1",
        Block::DetailNamespace => "} // namespace detail",
        Block::ReprNamespace => "} // namespace repr",
        Block::BehaviorNamespace => "} // namespace behavior",
        Block::AnonymousNamespace => "} // namespace",
        Block::ExternC => "} // extern \"C\"",
    }
}

} // verus!
