use builtins::emit::OutFile;

fn lines(out: &OutFile) -> Vec<&'static str> {
    let mut v = Vec::new();
    let n = out.content.num_frags();
    let mut i = 0;
    while i < n {
        v.push(out.content.frag_at(i));
        i += 1;
    }
    v
}

fn position(v: &[&'static str], needle: &str) -> Option<usize> {
    let mut i = 0;
    while i < v.len() {
        if v[i] == needle {
            return Some(i);
        }
        i += 1;
    }
    None
}

fn count(v: &[&'static str], needle: &str) -> usize {
    let mut n = 0;
    let mut i = 0;
    while i < v.len() {
        if v[i] == needle {
            n += 1;
        }
        i += 1;
    }
    n
}

#[test]
fn empty_registry_appends_nothing() {
    let mut out = OutFile::new();
    builtins::emit::write(&mut out);
    assert_eq!(out.content.num_frags(), 0);
    assert_eq!(out.content.scope_depth(), 0);
    assert_eq!(out.includes, builtins::registry::Includes::new());
    assert_eq!(out.builtin, builtins::registry::Builtins::new());
}

#[test]
fn scopes_balance_after_a_full_pass() {
    let mut out = OutFile::new();
    out.builtin.rust_vec = true;
    out.builtin.rust_error = true;
    out.builtin.maybe_uninit = true;
    out.builtin.manually_drop = true;
    out.builtin.trycatch = true;
    out.builtin.exception = true;
    out.builtin.ptr_len = true;
    out.builtin.deleter_if = true;
    builtins::emit::write(&mut out);
    assert!(out.content.num_frags() > 0);
    assert_eq!(out.content.scope_depth(), 0);
}

#[test]
fn growable_buffer_emits_slice_guard_first() {
    let mut out = OutFile::new();
    out.builtin.rust_vec = true;
    builtins::emit::write(&mut out);
    let v = lines(&out);
    let slice_at = position(&v, "#ifndef CXXBRIDGE1_RUST_SLICE").unwrap();
    let vec_at = position(&v, "#ifndef CXXBRIDGE1_RUST_VEC").unwrap();
    assert!(slice_at < vec_at);
    assert!(position(&v, "#ifndef CXXBRIDGE1_PANIC").is_some());
    assert!(position(&v, "#ifndef CXXBRIDGE1_RUST_BITCOPY").is_some());
    assert!(position(&v, "#ifndef CXXBRIDGE1_LAYOUT").is_some());
    assert!(position(&v, "#ifndef CXXBRIDGE1_IS_COMPLETE").is_some());
}

#[test]
fn result_carrier_emits_one_marker_and_one_helper() {
    let mut out = OutFile::new();
    out.builtin.rust_error = true;
    builtins::emit::write(&mut out);
    assert!(out.builtin.friend_impl);
    assert!(out.includes.exception);
    let v = lines(&out);
    assert_eq!(count(&v, "class impl;"), 1);
    assert_eq!(count(&v, "class impl<Error> final {"), 1);
    // The translation helper sits inside the shared anonymous namespace.
    let helper_at = position(&v, "class impl<Error> final {").unwrap();
    let marker_close = position(&v, "} // namespace").unwrap();
    assert!(marker_close < helper_at);
    assert_eq!(count(&v, "namespace {"), 2);
    assert_eq!(count(&v, "} // namespace"), 2);
    let second_open = v
        .iter()
        .enumerate()
        .filter(|(_, s)| **s == "namespace {")
        .map(|(i, _)| i)
        .nth(1)
        .unwrap();
    let second_close = v
        .iter()
        .enumerate()
        .filter(|(_, s)| **s == "} // namespace")
        .map(|(i, _)| i)
        .nth(1)
        .unwrap();
    assert!(second_open < helper_at && helper_at < second_close);
}

#[test]
fn string_view_forward_declares_owning_string() {
    let mut out = OutFile::new();
    out.builtin.rust_str = true;
    builtins::emit::write(&mut out);
    let v = lines(&out);
    assert_eq!(count(&v, "class String;"), 1);
    assert!(position(&v, "#ifndef CXXBRIDGE1_RUST_STR").is_some());
    assert!(position(&v, "#ifndef CXXBRIDGE1_RUST_STRING").is_none());
    assert!(out.includes.cstdint && out.includes.string);
}

#[test]
fn owning_string_suppresses_the_forward_declaration() {
    let mut out = OutFile::new();
    out.builtin.rust_str = true;
    out.builtin.rust_string = true;
    builtins::emit::write(&mut out);
    let v = lines(&out);
    assert_eq!(count(&v, "class String;"), 0);
    assert!(position(&v, "#ifndef CXXBRIDGE1_RUST_STRING").is_some());
    assert_eq!(count(&v, "struct unsafe_bitcopy_t;"), 1);
}

#[test]
fn two_passes_append_identical_buffers() {
    let mut first = OutFile::new();
    first.builtin.rust_vec = true;
    first.builtin.rust_error = true;
    first.builtin.trycatch = true;
    builtins::emit::write(&mut first);

    let mut second = OutFile::new();
    second.builtin.rust_vec = true;
    second.builtin.rust_error = true;
    second.builtin.trycatch = true;
    builtins::emit::write(&mut second);

    let a = lines(&first);
    let b = lines(&second);
    assert_eq!(a, b);
    for guard in [
        "#ifndef CXXBRIDGE1_PANIC",
        "#ifndef CXXBRIDGE1_RUST_SLICE",
        "#ifndef CXXBRIDGE1_RUST_VEC",
        "#ifndef CXXBRIDGE1_RUST_ERROR",
        "#ifndef CXXBRIDGE1_LAYOUT",
    ] {
        assert_eq!(count(&a, guard), 1);
    }
}

#[test]
fn guard_blocks_come_in_catalog_order() {
    let mut out = OutFile::new();
    out.builtin.rust_string = true;
    out.builtin.rust_str = true;
    out.builtin.rust_vec = true;
    out.builtin.rust_box = true;
    out.builtin.rust_fn = true;
    out.builtin.rust_error = true;
    out.builtin.rust_isize = true;
    out.builtin.opaque = true;
    out.builtin.relocatable = true;
    builtins::emit::write(&mut out);
    let v = lines(&out);
    let order = [
        "#ifndef CXXBRIDGE1_PANIC",
        "#ifndef CXXBRIDGE1_RUST_STRING",
        "#ifndef CXXBRIDGE1_RUST_STR",
        "#ifndef CXXBRIDGE1_RUST_SLICE",
        "#ifndef CXXBRIDGE1_RUST_BOX",
        "#ifndef CXXBRIDGE1_RUST_BITCOPY",
        "#ifndef CXXBRIDGE1_RUST_VEC",
        "#ifndef CXXBRIDGE1_RUST_FN",
        "#ifndef CXXBRIDGE1_RUST_ERROR",
        "#ifndef CXXBRIDGE1_RUST_ISIZE",
        "#ifndef CXXBRIDGE1_RUST_OPAQUE",
        "#ifndef CXXBRIDGE1_IS_COMPLETE",
        "#ifndef CXXBRIDGE1_LAYOUT",
        "#ifndef CXXBRIDGE1_RELOCATABLE",
    ];
    let mut last = 0;
    for guard in order {
        let at = position(&v, guard).unwrap();
        assert!(at >= last);
        assert_eq!(count(&v, guard), 1);
        last = at;
    }
}

#[test]
fn pass_opens_and_closes_the_fixed_outer_scopes() {
    let mut out = OutFile::new();
    out.builtin.rust_fn = true;
    builtins::emit::write(&mut out);
    let v = lines(&out);
    assert_eq!(v[0], "namespace rust {");
    assert_eq!(v[1], "inline namespace cxxbridge1 {");
    assert_eq!(v[2], "// #include \"rust/cxx.h\"");
    assert_eq!(*v.last().unwrap(), "} // namespace rust");
    assert_eq!(count(&v, "} // namespace cxxbridge1"), 1);
}

#[test]
fn placement_helpers_open_the_detail_scope_once() {
    let mut out = OutFile::new();
    out.builtin.maybe_uninit = true;
    builtins::emit::write(&mut out);
    let v = lines(&out);
    assert_eq!(count(&v, "namespace detail {"), 1);
    assert_eq!(count(&v, "} // namespace detail"), 1);
    assert_eq!(count(&v, "union MaybeUninit {"), 1);
    assert!(out.includes.cstddef && out.includes.new);
}

#[test]
fn no_helpers_means_no_detail_scope() {
    let mut out = OutFile::new();
    out.builtin.rust_box = true;
    builtins::emit::write(&mut out);
    let v = lines(&out);
    assert_eq!(count(&v, "namespace detail {"), 0);
    assert_eq!(count(&v, "namespace {"), 0);
}

#[test]
fn exception_bridge_sits_outside_the_rust_namespace() {
    let mut out = OutFile::new();
    out.builtin.exception = true;
    builtins::emit::write(&mut out);
    let v = lines(&out);
    let rust_close = position(&v, "} // namespace rust").unwrap();
    let bridge_open = position(&v, "extern \"C\" {").unwrap();
    assert!(rust_close < bridge_open);
    assert_eq!(
        count(&v, "const char *cxxbridge1$exception(const char *, ::std::size_t);"),
        1,
    );
    assert_eq!(*v.last().unwrap(), "} // extern \"C\"");
}

#[test]
fn trycatch_opens_the_behavior_namespace_inside_rust() {
    let mut out = OutFile::new();
    out.builtin.trycatch = true;
    builtins::emit::write(&mut out);
    let v = lines(&out);
    let bridge_close = position(&v, "} // namespace cxxbridge1").unwrap();
    let behavior_open = position(&v, "namespace behavior {").unwrap();
    let rust_close = position(&v, "} // namespace rust").unwrap();
    assert!(bridge_close < behavior_open && behavior_open < rust_close);
    assert!(out.includes.exception && out.includes.type_traits && out.includes.utility);
}

#[test]
fn breaks_never_lead_double_or_trail() {
    let mut out = OutFile::new();
    out.builtin.rust_vec = true;
    out.builtin.rust_error = true;
    out.builtin.maybe_uninit = true;
    out.builtin.trycatch = true;
    out.builtin.exception = true;
    builtins::emit::write(&mut out);
    let v = lines(&out);
    assert!(!v[0].is_empty());
    assert!(!v.last().unwrap().is_empty());
    let mut i = 1;
    while i < v.len() {
        assert!(!(v[i - 1].is_empty() && v[i].is_empty()));
        i += 1;
    }
}
