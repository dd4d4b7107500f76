//! The emission pass: opens the fixed outer scopes, appends every required
//! construct's text exactly once in catalog order, and closes every scope it
//! opened.  [`write`] is the single entry point: resolve, then emit.

use vstd::prelude::*;
use crate::block::Block;
use crate::block::close_line;
use crate::block::open_line;
use crate::catalog::GuardId;
use crate::catalog::emit_guard;
use crate::catalog::guard_frags;
use crate::content::Content;
use crate::content::break_frags;
use crate::content::sep_frags;
use crate::registry::Builtins;
use crate::registry::Includes;
use crate::resolve::resolve;
use crate::resolve::resolved_flags;
use crate::resolve::resolved_includes;

verus! {

/// One output artifact's combined state: its flag registry, its header
/// registry, and the buffer the supporting declarations are appended to.
/// Each artifact owns an independent set of the three; nothing is shared
/// between artifacts.
pub struct OutFile {
    pub builtin: Builtins,
    pub includes: Includes,
    pub content: Content,
}

impl OutFile {
    /// A fresh artifact: nothing requested, no header needed, empty buffer.
    pub fn new() -> (o: OutFile)
        ensures
            o.builtin == Builtins::cleared(),
            o.includes == Includes::cleared(),
            o.content.text() == Seq::<Seq<char>>::empty(),
            o.content.scope_stack() == Seq::<Block>::empty(),
            !o.content.pending(),
    {
        OutFile { builtin: Builtins::new(), includes: Includes::new(), content: Content::new() }
    }
}

/// The fixed prelude: the outer `rust` namespace, the inline versioning
/// namespace, and the header-reference comment.
pub open spec fn prelude_frags() -> Seq<Seq<char>> {
    seq![
        open_line(Block::RustNamespace),
        open_line(Block::InlineNamespace),
        "// #include \"rust/cxx.h\""@,
    ]
}

/// Forward declaration of the bitwise-copy marker type, which the owning
/// string's constructors reference.
pub open spec fn bitcopy_fwd_frags(b: Builtins) -> Seq<Seq<char>> {
    if b.rust_string {
        break_frags() + seq!["struct unsafe_bitcopy_t;"@]
    } else {
        Seq::<Seq<char>>::empty()
    }
}

/// Forward declaration of the private-implementation-access template, with
/// internal linkage, for the constructs that befriend it.
pub open spec fn impl_fwd_frags(b: Builtins) -> Seq<Seq<char>> {
    if b.friend_impl {
        break_frags() + seq![
            open_line(Block::AnonymousNamespace),
            "template <typename T>"@,
            "class impl;"@,
            close_line(Block::AnonymousNamespace),
        ]
    } else {
        Seq::<Seq<char>>::empty()
    }
}

/// Forward declarations for types that later templates reference but whose
/// full definition is not independently emitted in the same pass.
pub open spec fn class_fwd_frags(b: Builtins) -> Seq<Seq<char>> {
    if (b.rust_str && !b.rust_string) || (b.layout && !b.opaque) {
        break_frags() + (if b.rust_str && !b.rust_string {
            seq!["class String;"@]
        } else {
            Seq::<Seq<char>>::empty()
        }) + (if b.layout && !b.opaque {
            seq!["class Opaque;"@]
        } else {
            Seq::<Seq<char>>::empty()
        })
    } else {
        Seq::<Seq<char>>::empty()
    }
}

/// The size and alignment query templates, needed while slice support is
/// active.
pub open spec fn size_query_frags(b: Builtins) -> Seq<Seq<char>> {
    if b.rust_slice {
        break_frags() + seq![
            "template <typename T>"@,
            "::std::size_t size_of();"@,
            "template <typename T>"@,
            "::std::size_t align_of();"@,
        ]
    } else {
        Seq::<Seq<char>>::empty()
    }
}

/// Everything between the prelude and the guard blocks: the panic guard and
/// the forward declarations.
pub open spec fn decls_frags(b: Builtins) -> Seq<Seq<char>> {
    guard_frags(b.panic, GuardId::Panic) + bitcopy_fwd_frags(b) + impl_fwd_frags(b)
        + class_fwd_frags(b) + size_query_frags(b)
}

/// The guard blocks of every requested construct, in fixed catalog order —
/// never in the order the flags happened to be set.
pub open spec fn guards_frags(b: Builtins) -> Seq<Seq<char>> {
    guard_frags(b.rust_string, GuardId::RustString)
        + guard_frags(b.rust_str, GuardId::RustStr)
        + guard_frags(b.rust_slice, GuardId::RustSlice)
        + guard_frags(b.rust_box, GuardId::RustBox)
        + guard_frags(b.unsafe_bitcopy, GuardId::Bitcopy)
        + guard_frags(b.rust_vec, GuardId::RustVec)
        + guard_frags(b.rust_fn, GuardId::RustFn)
        + guard_frags(b.rust_error, GuardId::RustError)
        + guard_frags(b.rust_isize, GuardId::RustIsize)
        + guard_frags(b.opaque, GuardId::Opaque)
        + guard_frags(b.is_complete, GuardId::IsComplete)
        + guard_frags(b.layout, GuardId::Layout)
        + guard_frags(b.relocatable, GuardId::Relocatable)
}

/// The placement-construction helper templates, in their own nested scope
/// that is opened only when at least one of them is needed.
pub open spec fn operator_new_frags(b: Builtins) -> Seq<Seq<char>> {
    if b.maybe_uninit {
        break_frags() + seq![
            open_line(Block::DetailNamespace),
            "template <typename T, typename = void *>"@,
            "struct operator_new {"@,
            "  void *operator()(::std::size_t sz) { return ::operator new(sz); }"@,
            "};"@,
        ] + break_frags() + seq![
            "template <typename T>"@,
            "struct operator_new<T, decltype(T::operator new(sizeof(T)))> {"@,
            "  void *operator()(::std::size_t sz) { return T::operator new(sz); }"@,
            "};"@,
            close_line(Block::DetailNamespace),
        ]
    } else {
        Seq::<Seq<char>>::empty()
    }
}

/// The manual-drop union template.
pub open spec fn manually_drop_frags(b: Builtins) -> Seq<Seq<char>> {
    if b.manually_drop {
        break_frags() + seq![
            "template <typename T>"@,
            "union ManuallyDrop {"@,
            "  T value;"@,
            "  ManuallyDrop(T &&value) : value(::std::move(value)) {}"@,
            "  ~ManuallyDrop() {}"@,
            "};"@,
        ]
    } else {
        Seq::<Seq<char>>::empty()
    }
}

/// The deferred-initialisation union template.
pub open spec fn maybe_uninit_frags(b: Builtins) -> Seq<Seq<char>> {
    if b.maybe_uninit {
        break_frags() + seq![
            "template <typename T>"@,
            "union MaybeUninit {"@,
            "  T value;"@,
            "  void *operator new(::std::size_t sz) { return detail::operator_new<T>{}(sz); }"@,
            "  MaybeUninit() {}"@,
            "  ~MaybeUninit() {}"@,
            "};"@,
        ]
    } else {
        Seq::<Seq<char>>::empty()
    }
}

/// The helper templates that guarded constructs use internally.
pub open spec fn detail_frags(b: Builtins) -> Seq<Seq<char>> {
    operator_new_frags(b) + manually_drop_frags(b) + maybe_uninit_frags(b)
}

/// The pointer-length pair, in its own nested scope.
pub open spec fn ptr_len_frags(b: Builtins) -> Seq<Seq<char>> {
    if b.ptr_len {
        seq![
            open_line(Block::ReprNamespace),
            "struct PtrLen final {"@,
            "  void *ptr;"@,
            "  ::std::size_t len;"@,
            "};"@,
            close_line(Block::ReprNamespace),
        ]
    } else {
        Seq::<Seq<char>>::empty()
    }
}

/// The result-carrier translation helper.
pub open spec fn error_impl_frags(b: Builtins) -> Seq<Seq<char>> {
    if b.rust_error {
        break_frags() + seq![
            "template <>"@,
            "class impl<Error> final {"@,
            "public:"@,
            "  static Error error(repr::PtrLen repr) noexcept {"@,
            "    Error error;"@,
            "    error.msg = static_cast<const char *>(repr.ptr);"@,
            "    error.len = repr.len;"@,
            "    return error;"@,
            "  }"@,
            "};"@,
        ]
    } else {
        Seq::<Seq<char>>::empty()
    }
}

/// The conditional-deleter helper templates.
pub open spec fn deleter_frags(b: Builtins) -> Seq<Seq<char>> {
    if b.deleter_if {
        break_frags() + seq![
            "template <bool> struct deleter_if {"@,
            "  template <typename T> void operator()(T *) {}"@,
            "};"@,
        ] + break_frags() + seq![
            "template <> struct deleter_if<true> {"@,
            "  template <typename T> void operator()(T *ptr) { ptr->~T(); }"@,
            "};"@,
        ]
    } else {
        Seq::<Seq<char>>::empty()
    }
}

/// The constructs that need internal linkage, inside one shared anonymous
/// namespace opened once and closed once — and only when one of them is
/// needed.
pub open spec fn private_frags(b: Builtins) -> Seq<Seq<char>> {
    if b.ptr_len || b.rust_error || b.deleter_if {
        break_frags() + seq![open_line(Block::AnonymousNamespace)] + ptr_len_frags(b)
            + error_impl_frags(b) + deleter_frags(b)
            + seq![close_line(Block::AnonymousNamespace)]
    } else {
        Seq::<Seq<char>>::empty()
    }
}

/// The exception-translation helpers, in their reserved namespace.
pub open spec fn behavior_frags(b: Builtins) -> Seq<Seq<char>> {
    if b.trycatch {
        break_frags() + seq![
            open_line(Block::BehaviorNamespace),
            "class missing {};"@,
            "missing trycatch(...);"@,
        ] + break_frags() + seq![
            "template <typename Try, typename Fail>"@,
            "static typename ::std::enable_if<"@,
            "    ::std::is_same<decltype(trycatch(::std::declval<Try>(), ::std::declval<Fail>())),"@,
            "                 missing>::value>::type"@,
            "trycatch(Try &&func, Fail &&fail) noexcept try {"@,
            "  func();"@,
            "} catch (const ::std::exception &e) {"@,
            "  fail(e.what());"@,
            "}"@,
            close_line(Block::BehaviorNamespace),
        ]
    } else {
        Seq::<Seq<char>>::empty()
    }
}

/// The cross-boundary exception bridge declaration, in a linkage block.
pub open spec fn bridge_frags(b: Builtins) -> Seq<Seq<char>> {
    if b.exception {
        break_frags() + seq![
            open_line(Block::ExternC),
            "const char *cxxbridge1$exception(const char *, ::std::size_t);"@,
            close_line(Block::ExternC),
        ]
    } else {
        Seq::<Seq<char>>::empty()
    }
}

/// Everything from the close of the inline namespace to the end of the
/// pass.
pub open spec fn tail_frags(b: Builtins) -> Seq<Seq<char>> {
    seq![close_line(Block::InlineNamespace)] + behavior_frags(b)
        + seq![close_line(Block::RustNamespace)] + bridge_frags(b)
}

/// The full fragment sequence a pass appends for a resolved registry: a
/// function of the flags alone, so two passes over equal registries append
/// identical text.
pub open spec fn emission(b: Builtins) -> Seq<Seq<char>> {
    prelude_frags() + decls_frags(b) + guards_frags(b) + detail_frags(b) + private_frags(b)
        + tail_frags(b)
}

/// What [`write`] appends: nothing at all for the all-false registry, else
/// the emission of the resolved registry (preceded by a section break if one
/// was pending in a non-empty buffer).
pub open spec fn write_frags(b: Builtins, c: Content) -> Seq<Seq<char>> {
    if b == Builtins::cleared() {
        Seq::<Seq<char>>::empty()
    } else {
        sep_frags(c) + emission(resolved_flags(b))
    }
}

/// Concatenation of fragment sequences associates: rebalances the parse of
/// a chain of appends.
proof fn lemma_concat_assoc(a: Seq<Seq<char>>, b: Seq<Seq<char>>, c: Seq<Seq<char>>)
    ensures
        (a + b) + c == a + (b + c),
{
    assert((a + b) + c =~= a + (b + c));
}

/// Opens the two fixed outer scopes and writes the header-reference
/// comment.
fn emit_prelude(c: &mut Content)
    ensures
        final(c).text() == old(c).text() + sep_frags(*old(c)) + prelude_frags(),
        final(c).scope_stack() == old(c).scope_stack().push(Block::RustNamespace).push(
            Block::InlineNamespace,
        ),
        final(c).text().len() > 0,
{
    let ghost t0 = c.text();
    let ghost c0 = *c;
    c.begin_block(Block::RustNamespace);
    c.begin_block(Block::InlineNamespace);
    c.push_line("// #include \"rust/cxx.h\"");
    proof {
        assert(c.text() =~= t0 + sep_frags(c0) + prelude_frags());
    }
}

/// The panic guard and the forward declarations that later templates
/// reference.
#[verifier::rlimit(100)]
fn emit_decls(c: &mut Content, b: &Builtins)
    requires
        old(c).text().len() > 0,
    ensures
        final(c).text() == old(c).text() + decls_frags(*b),
        final(c).scope_stack() == old(c).scope_stack(),
        final(c).text().len() > 0,
{
    let ghost t0 = c.text();
    let ghost s0 = c.scope_stack();
    emit_guard(c, b.panic, GuardId::Panic);
    let ghost mut acc = guard_frags(b.panic, GuardId::Panic);
    let ghost t1 = c.text();
    if b.rust_string {
        c.next_section();
        c.push_line("struct unsafe_bitcopy_t;");
    }
    proof {
        assert(c.text() =~= t1 + bitcopy_fwd_frags(*b));
        lemma_concat_assoc(t0, acc, bitcopy_fwd_frags(*b));
        acc = acc + bitcopy_fwd_frags(*b);
    }
    let ghost t2 = c.text();
    if b.friend_impl {
        c.next_section();
        c.begin_block(Block::AnonymousNamespace);
        c.push_line("template <typename T>");
        c.push_line("class impl;");
        c.end_block(Block::AnonymousNamespace);
    }
    proof {
        assert(c.text() =~= t2 + impl_fwd_frags(*b));
        lemma_concat_assoc(t0, acc, impl_fwd_frags(*b));
        acc = acc + impl_fwd_frags(*b);
        assert(c.scope_stack() =~= s0);
    }
    let ghost t3 = c.text();
    if (b.rust_str && !b.rust_string) || (b.layout && !b.opaque) {
        c.next_section();
        if b.rust_str && !b.rust_string {
            c.push_line("class String;");
        }
        if b.layout && !b.opaque {
            c.push_line("class Opaque;");
        }
    }
    proof {
        assert(c.text() =~= t3 + class_fwd_frags(*b));
        lemma_concat_assoc(t0, acc, class_fwd_frags(*b));
        acc = acc + class_fwd_frags(*b);
    }
    let ghost t4 = c.text();
    if b.rust_slice {
        c.next_section();
        c.push_line("template <typename T>");
        c.push_line("::std::size_t size_of();");
        c.push_line("template <typename T>");
        c.push_line("::std::size_t align_of();");
    }
    proof {
        assert(c.text() =~= t4 + size_query_frags(*b));
        lemma_concat_assoc(t0, acc, size_query_frags(*b));
        acc = acc + size_query_frags(*b);
        assert(c.text() == t0 + decls_frags(*b));
    }
}

/// The guard block of every requested construct, in catalog order.
#[verifier::rlimit(100)]
fn emit_guards(c: &mut Content, b: &Builtins)
    requires
        old(c).text().len() > 0,
    ensures
        final(c).text() == old(c).text() + guards_frags(*b),
        final(c).scope_stack() == old(c).scope_stack(),
        final(c).text().len() > 0,
{
    let ghost t0 = c.text();
    emit_guard(c, b.rust_string, GuardId::RustString);
    let ghost mut acc = guard_frags(b.rust_string, GuardId::RustString);
    emit_guard(c, b.rust_str, GuardId::RustStr);
    proof {
        lemma_concat_assoc(t0, acc, guard_frags(b.rust_str, GuardId::RustStr));
        acc = acc + guard_frags(b.rust_str, GuardId::RustStr);
    }
    emit_guard(c, b.rust_slice, GuardId::RustSlice);
    proof {
        lemma_concat_assoc(t0, acc, guard_frags(b.rust_slice, GuardId::RustSlice));
        acc = acc + guard_frags(b.rust_slice, GuardId::RustSlice);
    }
    emit_guard(c, b.rust_box, GuardId::RustBox);
    proof {
        lemma_concat_assoc(t0, acc, guard_frags(b.rust_box, GuardId::RustBox));
        acc = acc + guard_frags(b.rust_box, GuardId::RustBox);
    }
    emit_guard(c, b.unsafe_bitcopy, GuardId::Bitcopy);
    proof {
        lemma_concat_assoc(t0, acc, guard_frags(b.unsafe_bitcopy, GuardId::Bitcopy));
        acc = acc + guard_frags(b.unsafe_bitcopy, GuardId::Bitcopy);
    }
    emit_guard(c, b.rust_vec, GuardId::RustVec);
    proof {
        lemma_concat_assoc(t0, acc, guard_frags(b.rust_vec, GuardId::RustVec));
        acc = acc + guard_frags(b.rust_vec, GuardId::RustVec);
    }
    emit_guard(c, b.rust_fn, GuardId::RustFn);
    proof {
        lemma_concat_assoc(t0, acc, guard_frags(b.rust_fn, GuardId::RustFn));
        acc = acc + guard_frags(b.rust_fn, GuardId::RustFn);
    }
    emit_guard(c, b.rust_error, GuardId::RustError);
    proof {
        lemma_concat_assoc(t0, acc, guard_frags(b.rust_error, GuardId::RustError));
        acc = acc + guard_frags(b.rust_error, GuardId::RustError);
    }
    emit_guard(c, b.rust_isize, GuardId::RustIsize);
    proof {
        lemma_concat_assoc(t0, acc, guard_frags(b.rust_isize, GuardId::RustIsize));
        acc = acc + guard_frags(b.rust_isize, GuardId::RustIsize);
    }
    emit_guard(c, b.opaque, GuardId::Opaque);
    proof {
        lemma_concat_assoc(t0, acc, guard_frags(b.opaque, GuardId::Opaque));
        acc = acc + guard_frags(b.opaque, GuardId::Opaque);
    }
    emit_guard(c, b.is_complete, GuardId::IsComplete);
    proof {
        lemma_concat_assoc(t0, acc, guard_frags(b.is_complete, GuardId::IsComplete));
        acc = acc + guard_frags(b.is_complete, GuardId::IsComplete);
    }
    emit_guard(c, b.layout, GuardId::Layout);
    proof {
        lemma_concat_assoc(t0, acc, guard_frags(b.layout, GuardId::Layout));
        acc = acc + guard_frags(b.layout, GuardId::Layout);
    }
    emit_guard(c, b.relocatable, GuardId::Relocatable);
    proof {
        lemma_concat_assoc(t0, acc, guard_frags(b.relocatable, GuardId::Relocatable));
        acc = acc + guard_frags(b.relocatable, GuardId::Relocatable);
        assert(c.text() == t0 + guards_frags(*b));
    }
}

/// The helper templates guarded constructs use internally, with the nested
/// scope for the placement-construction helpers.
fn emit_detail(c: &mut Content, b: &Builtins)
    requires
        old(c).text().len() > 0,
    ensures
        final(c).text() == old(c).text() + detail_frags(*b),
        final(c).scope_stack() == old(c).scope_stack(),
        final(c).text().len() > 0,
{
    let ghost t0 = c.text();
    let ghost s0 = c.scope_stack();
    if b.maybe_uninit {
        c.next_section();
        c.begin_block(Block::DetailNamespace);
        c.push_line("template <typename T, typename = void *>");
        c.push_line("struct operator_new {");
        c.push_line("  void *operator()(::std::size_t sz) { return ::operator new(sz); }");
        c.push_line("};");
        c.next_section();
        c.push_line("template <typename T>");
        c.push_line("struct operator_new<T, decltype(T::operator new(sizeof(T)))> {");
        c.push_line("  void *operator()(::std::size_t sz) { return T::operator new(sz); }");
        c.push_line("};");
        c.end_block(Block::DetailNamespace);
    }
    let ghost t1 = c.text();
    proof {
        assert(t1 =~= t0 + operator_new_frags(*b));
        assert(c.scope_stack() =~= s0);
    }
    if b.manually_drop {
        c.next_section();
        c.push_line("template <typename T>");
        c.push_line("union ManuallyDrop {");
        c.push_line("  T value;");
        c.push_line("  ManuallyDrop(T &&value) : value(::std::move(value)) {}");
        c.push_line("  ~ManuallyDrop() {}");
        c.push_line("};");
    }
    let ghost t2 = c.text();
    proof {
        assert(t2 =~= t1 + manually_drop_frags(*b));
    }
    if b.maybe_uninit {
        c.next_section();
        c.push_line("template <typename T>");
        c.push_line("union MaybeUninit {");
        c.push_line("  T value;");
        c.push_line("  void *operator new(::std::size_t sz) { return detail::operator_new<T>{}(sz); }");
        c.push_line("  MaybeUninit() {}");
        c.push_line("  ~MaybeUninit() {}");
        c.push_line("};");
    }
    proof {
        assert(c.text() =~= t2 + maybe_uninit_frags(*b));
        assert(c.text() =~= t0 + detail_frags(*b));
    }
}

/// The internal-linkage constructs, inside one shared anonymous namespace.
fn emit_private(c: &mut Content, b: &Builtins)
    requires
        old(c).text().len() > 0,
    ensures
        final(c).text() == old(c).text() + private_frags(*b),
        final(c).scope_stack() == old(c).scope_stack(),
        final(c).text().len() > 0,
{
    let ghost t0 = c.text();
    let ghost s0 = c.scope_stack();
    if b.ptr_len || b.rust_error || b.deleter_if {
        c.next_section();
        c.begin_block(Block::AnonymousNamespace);
        let ghost ta = c.text();
        if b.ptr_len {
            c.begin_block(Block::ReprNamespace);
            c.push_line("struct PtrLen final {");
            c.push_line("  void *ptr;");
            c.push_line("  ::std::size_t len;");
            c.push_line("};");
            c.end_block(Block::ReprNamespace);
        }
        let ghost tb = c.text();
        proof {
            assert(tb =~= ta + ptr_len_frags(*b));
        }
        if b.rust_error {
            c.next_section();
            c.push_line("template <>");
            c.push_line("class impl<Error> final {");
            c.push_line("public:");
            c.push_line("  static Error error(repr::PtrLen repr) noexcept {");
            c.push_line("    Error error;");
            c.push_line("    error.msg = static_cast<const char *>(repr.ptr);");
            c.push_line("    error.len = repr.len;");
            c.push_line("    return error;");
            c.push_line("  }");
            c.push_line("};");
        }
        let ghost tc = c.text();
        proof {
            assert(tc =~= tb + error_impl_frags(*b));
        }
        if b.deleter_if {
            c.next_section();
            c.push_line("template <bool> struct deleter_if {");
            c.push_line("  template <typename T> void operator()(T *) {}");
            c.push_line("};");
            c.next_section();
            c.push_line("template <> struct deleter_if<true> {");
            c.push_line("  template <typename T> void operator()(T *ptr) { ptr->~T(); }");
            c.push_line("};");
        }
        let ghost td = c.text();
        proof {
            assert(td =~= tc + deleter_frags(*b));
        }
        c.end_block(Block::AnonymousNamespace);
    }
    proof {
        assert(c.text() =~= t0 + private_frags(*b));
        assert(c.scope_stack() =~= s0);
    }
}

/// Closes the inline namespace, emits the exception-translation namespace
/// and the linkage block where needed, and closes the outer namespace.
fn emit_tail(c: &mut Content, b: &Builtins)
    requires
        old(c).text().len() > 0,
        old(c).scope_stack().len() >= 2,
        old(c).scope_stack().last() == Block::InlineNamespace,
        old(c).scope_stack()[old(c).scope_stack().len() - 2] == Block::RustNamespace,
    ensures
        final(c).text() == old(c).text() + tail_frags(*b),
        final(c).scope_stack() == old(c).scope_stack().drop_last().drop_last(),
        final(c).pending(),
{
    let ghost t0 = c.text();
    let ghost s0 = c.scope_stack();
    c.end_block(Block::InlineNamespace);
    let ghost t1 = c.text();
    if b.trycatch {
        c.begin_block(Block::BehaviorNamespace);
        c.push_line("class missing {};");
        c.push_line("missing trycatch(...);");
        c.next_section();
        c.push_line("template <typename Try, typename Fail>");
        c.push_line("static typename ::std::enable_if<");
        c.push_line("    ::std::is_same<decltype(trycatch(::std::declval<Try>(), ::std::declval<Fail>())),");
        c.push_line("                 missing>::value>::type");
        c.push_line("trycatch(Try &&func, Fail &&fail) noexcept try {");
        c.push_line("  func();");
        c.push_line("} catch (const ::std::exception &e) {");
        c.push_line("  fail(e.what());");
        c.push_line("}");
        c.end_block(Block::BehaviorNamespace);
    }
    let ghost t2 = c.text();
    proof {
        assert(t2 =~= t1 + behavior_frags(*b));
    }
    c.end_block(Block::RustNamespace);
    let ghost t3 = c.text();
    if b.exception {
        c.begin_block(Block::ExternC);
        c.push_line("const char *cxxbridge1$exception(const char *, ::std::size_t);");
        c.end_block(Block::ExternC);
    }
    proof {
        assert(c.text() =~= t3 + bridge_frags(*b));
        assert(c.text() =~= t0 + tail_frags(*b));
        assert(c.scope_stack() =~= s0.drop_last().drop_last());
    }
}

/// One full emission pass over a resolved registry.  Every scope it opens
/// it also closes: the scope stack is exactly what it was.
#[verifier::rlimit(100)]
fn emit_pass(c: &mut Content, b: &Builtins)
    ensures
        final(c).text() == old(c).text() + sep_frags(*old(c)) + emission(*b),
        final(c).scope_stack() == old(c).scope_stack(),
        final(c).pending(),
{
    let ghost c0 = *c;
    let ghost t0 = c.text();
    let ghost s0 = c.scope_stack();
    let ghost e0 = t0 + sep_frags(c0);
    emit_prelude(c);
    let ghost mut acc = prelude_frags();
    emit_decls(c, b);
    proof {
        lemma_concat_assoc(e0, acc, decls_frags(*b));
        acc = acc + decls_frags(*b);
    }
    emit_guards(c, b);
    proof {
        lemma_concat_assoc(e0, acc, guards_frags(*b));
        acc = acc + guards_frags(*b);
    }
    emit_detail(c, b);
    proof {
        lemma_concat_assoc(e0, acc, detail_frags(*b));
        acc = acc + detail_frags(*b);
    }
    emit_private(c, b);
    proof {
        lemma_concat_assoc(e0, acc, private_frags(*b));
        acc = acc + private_frags(*b);
    }
    emit_tail(c, b);
    proof {
        lemma_concat_assoc(e0, acc, tail_frags(*b));
        acc = acc + tail_frags(*b);
        assert(c.text() == e0 + emission(*b));
        assert(c.scope_stack() =~= s0);
    }
}

/// The single entry point of the subsystem: resolves the artifact's
/// registries, then appends the supporting declarations for every required
/// construct, exactly once and in the fixed catalog order.  An entirely
/// unset registry short-circuits: nothing is appended, no header is marked,
/// and no scope is ever opened.
pub fn write(out: &mut OutFile)
    ensures
        final(out).builtin == resolved_flags(old(out).builtin),
        final(out).includes == resolved_includes(old(out).builtin, old(out).includes),
        final(out).content.text() == old(out).content.text() + write_frags(
            old(out).builtin,
            old(out).content,
        ),
        final(out).content.scope_stack() == old(out).content.scope_stack(),
        old(out).builtin == Builtins::cleared() ==> *final(out) == *old(out),
        old(out).builtin != Builtins::cleared() ==> final(out).content.pending(),
{
    let ghost b0 = out.builtin;
    let ghost c0 = out.content;
    let cleared = Builtins::new();
    if out.builtin == cleared {
        proof {
            assert(out.content.text() =~= c0.text() + write_frags(b0, c0));
        }
        return;
    }
    resolve(&mut out.builtin, &mut out.includes);
    emit_pass(&mut out.content, &out.builtin);
    proof {
        assert(out.content.text() =~= c0.text() + write_frags(b0, c0));
    }
}

} // verus!
