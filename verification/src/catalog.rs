//! The construct catalog: the dependency edges between constructs, and the
//! guarded literal templates each construct contributes to the output.
//!
//! Every optional construct is wrapped in a conditional-definition guard
//! keyed by a unique per-construct name, so a consumer that already defines
//! the construct elsewhere can suppress the generated copy, and two
//! independently generated artifacts can be combined without collisions.

use vstd::prelude::*;
use crate::content::Content;
use crate::content::break_frags;
use crate::registry::Builtins;
use crate::registry::Includes;

verus! {

/// Which flags and headers every set flag of a registry demands: one
/// conjunct per direct implication edge of the catalog.  A registry pair
/// that satisfies this predicate is closed under the catalog — and then,
/// edge by edge, under every chain of implications the catalog contains.
pub open spec fn closed_registry(b: Builtins, h: Includes) -> bool {
    &&& b.rust_string ==> h.array && h.cstdint && h.string
    &&& b.rust_str ==> h.cstdint && h.string && b.friend_impl
    &&& b.rust_vec ==> h.algorithm && h.array && h.cstddef && h.initializer_list
        && h.iterator && h.new && h.type_traits && h.utility && b.panic && b.rust_slice
        && b.unsafe_bitcopy
    &&& b.rust_slice ==> h.cstddef && h.iterator && h.type_traits && b.friend_impl
        && b.layout && b.panic
    &&& b.rust_box ==> h.new && h.type_traits && h.utility
    &&& b.rust_fn ==> h.utility
    &&& b.rust_error ==> h.exception && b.friend_impl
    &&& b.rust_isize ==> h.basetsd && h.sys_types
    &&& b.relocatable ==> h.type_traits
    &&& b.layout ==> h.type_traits && h.cstddef && b.is_complete
    &&& b.is_complete ==> h.cstddef && h.type_traits
    &&& b.maybe_uninit ==> h.cstddef && h.new
    &&& b.manually_drop ==> h.utility
    &&& b.ptr_len ==> h.cstddef
    &&& b.trycatch ==> h.exception && h.type_traits && h.utility
    &&& b.exception ==> h.cstddef
}

/// The guarded constructs, in the fixed order their guard blocks are
/// emitted.  The order is part of the catalog: it respects every dependency
/// between the templates, so a template never references a symbol that a
/// later guard block would declare.
#[derive(Clone, Copy, PartialEq, Eq, Structural, Debug)]
pub enum GuardId {
    Panic,
    RustString,
    RustStr,
    RustSlice,
    RustBox,
    Bitcopy,
    RustVec,
    RustFn,
    RustError,
    RustIsize,
    Opaque,
    IsComplete,
    Layout,
    Relocatable,
}

/// The literal template of one guarded construct: the opening and closing
/// guard directives around the construct's fixed declaration text.
pub open spec fn guard_lines(g: GuardId) -> Seq<Seq<char>> {
    match g {
        GuardId::Panic => seq![
            "#ifndef CXXBRIDGE1_PANIC"@,
            "#define CXXBRIDGE1_PANIC"@,
            "template <typename Exception>"@,
            "void panic [[noreturn]] (const char *msg);"@,
            "#endif // CXXBRIDGE1_PANIC"@,
        ],
        GuardId::RustString => seq![
            "#ifndef CXXBRIDGE1_RUST_STRING"@,
            "#define CXXBRIDGE1_RUST_STRING"@,
            "class String final {"@,
            "public:"@,
            "  String() noexcept;"@,
            "  String(const char *, ::std::size_t);"@,
            "  const char *data() const noexcept;"@,
            "  ::std::size_t size() const noexcept;"@,
            "};"@,
            "#endif // CXXBRIDGE1_RUST_STRING"@,
        ],
        GuardId::RustStr => seq![
            "#ifndef CXXBRIDGE1_RUST_STR"@,
            "#define CXXBRIDGE1_RUST_STR"@,
            "class Str final {"@,
            "public:"@,
            "  Str() noexcept;"@,
            "  const char *data() const noexcept;"@,
            "  ::std::size_t size() const noexcept;"@,
            "};"@,
            "#endif // CXXBRIDGE1_RUST_STR"@,
        ],
        GuardId::RustSlice => seq![
            "#ifndef CXXBRIDGE1_RUST_SLICE"@,
            "#define CXXBRIDGE1_RUST_SLICE"@,
            "template <typename T>"@,
            "class Slice final {"@,
            "public:"@,
            "  T *data() const noexcept;"@,
            "  ::std::size_t size() const noexcept;"@,
            "};"@,
            "#endif // CXXBRIDGE1_RUST_SLICE"@,
        ],
        GuardId::RustBox => seq![
            "#ifndef CXXBRIDGE1_RUST_BOX"@,
            "#define CXXBRIDGE1_RUST_BOX"@,
            "template <typename T>"@,
            "class Box final {"@,
            "public:"@,
            "  static Box from_raw(T *) noexcept;"@,
            "  T *into_raw() noexcept;"@,
            "};"@,
            "#endif // CXXBRIDGE1_RUST_BOX"@,
        ],
        GuardId::Bitcopy => seq![
            "#ifndef CXXBRIDGE1_RUST_BITCOPY"@,
            "#define CXXBRIDGE1_RUST_BITCOPY"@,
            "struct unsafe_bitcopy_t final {"@,
            "  explicit unsafe_bitcopy_t() = default;"@,
            "};"@,
            "#endif // CXXBRIDGE1_RUST_BITCOPY"@,
        ],
        GuardId::RustVec => seq![
            "#ifndef CXXBRIDGE1_RUST_VEC"@,
            "#define CXXBRIDGE1_RUST_VEC"@,
            "template <typename T>"@,
            "class Vec final {"@,
            "public:"@,
            "  ::std::size_t size() const noexcept;"@,
            "  void reserve_total(::std::size_t) noexcept;"@,
            "};"@,
            "#endif // CXXBRIDGE1_RUST_VEC"@,
        ],
        GuardId::RustFn => seq![
            "#ifndef CXXBRIDGE1_RUST_FN"@,
            "#define CXXBRIDGE1_RUST_FN"@,
            "template <typename Signature>"@,
            "class Fn;"@,
            "#endif // CXXBRIDGE1_RUST_FN"@,
        ],
        GuardId::RustError => seq![
            "#ifndef CXXBRIDGE1_RUST_ERROR"@,
            "#define CXXBRIDGE1_RUST_ERROR"@,
            "class Error final : public ::std::exception {"@,
            "public:"@,
            "  const char *what() const noexcept override;"@,
            "private:"@,
            "  const char *msg;"@,
            "  ::std::size_t len;"@,
            "  friend impl<Error>;"@,
            "};"@,
            "#endif // CXXBRIDGE1_RUST_ERROR"@,
        ],
        GuardId::RustIsize => seq![
            "#ifndef CXXBRIDGE1_RUST_ISIZE"@,
            "#define CXXBRIDGE1_RUST_ISIZE"@,
            "using isize = ssize_t;"@,
            "#endif // CXXBRIDGE1_RUST_ISIZE"@,
        ],
        GuardId::Opaque => seq![
            "#ifndef CXXBRIDGE1_RUST_OPAQUE"@,
            "#define CXXBRIDGE1_RUST_OPAQUE"@,
            "class Opaque {"@,
            "public:"@,
            "  Opaque() = delete;"@,
            "  Opaque(const Opaque &) = delete;"@,
            "  ~Opaque() = delete;"@,
            "};"@,
            "#endif // CXXBRIDGE1_RUST_OPAQUE"@,
        ],
        GuardId::IsComplete => seq![
            "#ifndef CXXBRIDGE1_IS_COMPLETE"@,
            "#define CXXBRIDGE1_IS_COMPLETE"@,
            "template <typename T, typename = ::std::size_t>"@,
            "struct is_complete : ::std::false_type {};"@,
            "template <typename T>"@,
            "struct is_complete<T, decltype(sizeof(T))> : ::std::true_type {};"@,
            "#endif // CXXBRIDGE1_IS_COMPLETE"@,
        ],
        GuardId::Layout => seq![
            "#ifndef CXXBRIDGE1_LAYOUT"@,
            "#define CXXBRIDGE1_LAYOUT"@,
            "class layout {"@,
            "  template <typename T>"@,
            "  friend ::std::size_t size_of();"@,
            "  template <typename T>"@,
            "  friend ::std::size_t align_of();"@,
            "};"@,
            "#endif // CXXBRIDGE1_LAYOUT"@,
        ],
        GuardId::Relocatable => seq![
            "#ifndef CXXBRIDGE1_RELOCATABLE"@,
            "#define CXXBRIDGE1_RELOCATABLE"@,
            "template <typename T>"@,
            "struct IsRelocatable"@,
            "    : ::std::is_trivially_move_constructible<T> {};"@,
            "#endif // CXXBRIDGE1_RELOCATABLE"@,
        ],
    }
}

/// What one guarded construct appends: its own section break and template
/// when the construct is needed, nothing otherwise.
pub open spec fn guard_frags(needed: bool, g: GuardId) -> Seq<Seq<char>> {
    if needed {
        break_frags() + guard_lines(g)
    } else {
        Seq::<Seq<char>>::empty()
    }
}

/// Appends one guarded construct's template, in its own section, if the
/// construct is needed.  The guard is written exactly when resolution has
/// determined the construct is needed, never otherwise.
pub fn emit_guard(c: &mut Content, needed: bool, g: GuardId)
    requires
        old(c).text().len() > 0,
    ensures
        final(c).text() == old(c).text() + guard_frags(needed, g),
        final(c).scope_stack() == old(c).scope_stack(),
        !needed ==> *final(c) == *old(c),
{
    if !needed {
        proof {
            assert(c.text() =~= c.text() + guard_frags(false, g));
        }
        return;
    }
    let ghost t0 = c.text();
    c.next_section();
    match g {
        GuardId::Panic => {
            c.push_line("#ifndef CXXBRIDGE1_PANIC");
            c.push_line("#define CXXBRIDGE1_PANIC");
            c.push_line("template <typename Exception>");
            c.push_line("void panic [[noreturn]] (const char *msg);");
            c.push_line("#endif // CXXBRIDGE1_PANIC");
        }
        GuardId::RustString => {
            c.push_line("#ifndef CXXBRIDGE1_RUST_STRING");
            c.push_line("#define CXXBRIDGE1_RUST_STRING");
            c.push_line("class String final {");
            c.push_line("public:");
            c.push_line("  String() noexcept;");
            c.push_line("  String(const char *, ::std::size_t);");
            c.push_line("  const char *data() const noexcept;");
            c.push_line("  ::std::size_t size() const noexcept;");
            c.push_line("};");
            c.push_line("#endif // CXXBRIDGE1_RUST_STRING");
        }
        GuardId::RustStr => {
            c.push_line("#ifndef CXXBRIDGE1_RUST_STR");
            c.push_line("#define CXXBRIDGE1_RUST_STR");
            c.push_line("class Str final {");
            c.push_line("public:");
            c.push_line("  Str() noexcept;");
            c.push_line("  const char *data() const noexcept;");
            c.push_line("  ::std::size_t size() const noexcept;");
            c.push_line("};");
            c.push_line("#endif // CXXBRIDGE1_RUST_STR");
        }
        GuardId::RustSlice => {
            c.push_line("#ifndef CXXBRIDGE1_RUST_SLICE");
            c.push_line("#define CXXBRIDGE1_RUST_SLICE");
            c.push_line("template <typename T>");
            c.push_line("class Slice final {");
            c.push_line("public:");
            c.push_line("  T *data() const noexcept;");
            c.push_line("  ::std::size_t size() const noexcept;");
            c.push_line("};");
            c.push_line("#endif // CXXBRIDGE1_RUST_SLICE");
        }
        GuardId::RustBox => {
            c.push_line("#ifndef CXXBRIDGE1_RUST_BOX");
            c.push_line("#define CXXBRIDGE1_RUST_BOX");
            c.push_line("template <typename T>");
            c.push_line("class Box final {");
            c.push_line("public:");
            c.push_line("  static Box from_raw(T *) noexcept;");
            c.push_line("  T *into_raw() noexcept;");
            c.push_line("};");
            c.push_line("#endif // CXXBRIDGE1_RUST_BOX");
        }
        GuardId::Bitcopy => {
            c.push_line("#ifndef CXXBRIDGE1_RUST_BITCOPY");
            c.push_line("#define CXXBRIDGE1_RUST_BITCOPY");
            c.push_line("struct unsafe_bitcopy_t final {");
            c.push_line("  explicit unsafe_bitcopy_t() = default;");
            c.push_line("};");
            c.push_line("#endif // CXXBRIDGE1_RUST_BITCOPY");
        }
        GuardId::RustVec => {
            c.push_line("#ifndef CXXBRIDGE1_RUST_VEC");
            c.push_line("#define CXXBRIDGE1_RUST_VEC");
            c.push_line("template <typename T>");
            c.push_line("class Vec final {");
            c.push_line("public:");
            c.push_line("  ::std::size_t size() const noexcept;");
            c.push_line("  void reserve_total(::std::size_t) noexcept;");
            c.push_line("};");
            c.push_line("#endif // CXXBRIDGE1_RUST_VEC");
        }
        GuardId::RustFn => {
            c.push_line("#ifndef CXXBRIDGE1_RUST_FN");
            c.push_line("#define CXXBRIDGE1_RUST_FN");
            c.push_line("template <typename Signature>");
            c.push_line("class Fn;");
            c.push_line("#endif // CXXBRIDGE1_RUST_FN");
        }
        GuardId::RustError => {
            c.push_line("#ifndef CXXBRIDGE1_RUST_ERROR");
            c.push_line("#define CXXBRIDGE1_RUST_ERROR");
            c.push_line("class Error final : public ::std::exception {");
            c.push_line("public:");
            c.push_line("  const char *what() const noexcept override;");
            c.push_line("private:");
            c.push_line("  const char *msg;");
            c.push_line("  ::std::size_t len;");
            c.push_line("  friend impl<Error>;");
            c.push_line("};");
            c.push_line("#endif // CXXBRIDGE1_RUST_ERROR");
        }
        GuardId::RustIsize => {
            c.push_line("#ifndef CXXBRIDGE1_RUST_ISIZE");
            c.push_line("#define CXXBRIDGE1_RUST_ISIZE");
            c.push_line("using isize = ssize_t;");
            c.push_line("#endif // CXXBRIDGE1_RUST_ISIZE");
        }
        GuardId::Opaque => {
            c.push_line("#ifndef CXXBRIDGE1_RUST_OPAQUE");
            c.push_line("#define CXXBRIDGE1_RUST_OPAQUE");
            c.push_line("class Opaque {");
            c.push_line("public:");
            c.push_line("  Opaque() = delete;");
            c.push_line("  Opaque(const Opaque &) = delete;");
            c.push_line("  ~Opaque() = delete;");
            c.push_line("};");
            c.push_line("#endif // CXXBRIDGE1_RUST_OPAQUE");
        }
        GuardId::IsComplete => {
            c.push_line("#ifndef CXXBRIDGE1_IS_COMPLETE");
            c.push_line("#define CXXBRIDGE1_IS_COMPLETE");
            c.push_line("template <typename T, typename = ::std::size_t>");
            c.push_line("struct is_complete : ::std::false_type {};");
            c.push_line("template <typename T>");
            c.push_line("struct is_complete<T, decltype(sizeof(T))> : ::std::true_type {};");
            c.push_line("#endif // CXXBRIDGE1_IS_COMPLETE");
        }
        GuardId::Layout => {
            c.push_line("#ifndef CXXBRIDGE1_LAYOUT");
            c.push_line("#define CXXBRIDGE1_LAYOUT");
            c.push_line("class layout {");
            c.push_line("  template <typename T>");
            c.push_line("  friend ::std::size_t size_of();");
            c.push_line("  template <typename T>");
            c.push_line("  friend ::std::size_t align_of();");
            c.push_line("};");
            c.push_line("#endif // CXXBRIDGE1_LAYOUT");
        }
        GuardId::Relocatable => {
            c.push_line("#ifndef CXXBRIDGE1_RELOCATABLE");
            c.push_line("#define CXXBRIDGE1_RELOCATABLE");
            c.push_line("template <typename T>");
            c.push_line("struct IsRelocatable");
            c.push_line("    : ::std::is_trivially_move_constructible<T> {};");
            c.push_line("#endif // CXXBRIDGE1_RELOCATABLE");
        }
    }
    proof {
        assert(c.text() =~= t0 + guard_frags(true, g));
    }
}

} // verus!
