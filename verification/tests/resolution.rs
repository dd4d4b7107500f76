use builtins::registry::Builtins;
use builtins::registry::Includes;
use builtins::resolve::resolve;

#[test]
fn nothing_requested_resolves_to_nothing() {
    let mut b = Builtins::new();
    let mut h = Includes::new();
    resolve(&mut b, &mut h);
    assert_eq!(b, Builtins::new());
    assert_eq!(h, Includes::new());
}

#[test]
fn resolving_twice_changes_nothing() {
    let mut b = Builtins::new();
    b.rust_vec = true;
    b.rust_error = true;
    b.maybe_uninit = true;
    let mut h = Includes::new();
    resolve(&mut b, &mut h);
    let b_once = b;
    let h_once = h;
    resolve(&mut b, &mut h);
    assert_eq!(b, b_once);
    assert_eq!(h, h_once);
}

#[test]
fn growable_buffer_implies_its_closure() {
    let mut b = Builtins::new();
    b.rust_vec = true;
    let mut h = Includes::new();
    resolve(&mut b, &mut h);
    assert!(b.rust_slice);
    assert!(b.panic);
    assert!(b.unsafe_bitcopy);
    assert!(b.layout);
    assert!(b.is_complete);
    assert!(b.friend_impl);
    assert!(h.algorithm);
    assert!(h.array);
    assert!(h.cstddef);
    assert!(h.initializer_list);
    assert!(h.iterator);
    assert!(h.new);
    assert!(h.type_traits);
    assert!(h.utility);
}

#[test]
fn slice_implies_layout_chain() {
    let mut b = Builtins::new();
    b.rust_slice = true;
    let mut h = Includes::new();
    resolve(&mut b, &mut h);
    assert!(b.layout);
    assert!(b.is_complete);
    assert!(b.panic);
    assert!(b.friend_impl);
    assert!(h.cstddef);
    assert!(h.iterator);
    assert!(h.type_traits);
    assert!(!b.rust_vec);
    assert!(!h.algorithm);
}

#[test]
fn result_carrier_implies_marker_and_header() {
    let mut b = Builtins::new();
    b.rust_error = true;
    let mut h = Includes::new();
    resolve(&mut b, &mut h);
    assert!(b.friend_impl);
    assert!(h.exception);
    assert!(!b.panic);
    assert!(!h.string);
}

#[test]
fn machine_word_int_implies_platform_headers() {
    let mut b = Builtins::new();
    b.rust_isize = true;
    let mut h = Includes::new();
    resolve(&mut b, &mut h);
    assert!(h.basetsd);
    assert!(h.sys_types);
}

#[test]
fn an_extra_flag_never_unsets_anything() {
    let mut smaller = Builtins::new();
    smaller.rust_slice = true;
    let mut h_smaller = Includes::new();
    resolve(&mut smaller, &mut h_smaller);

    let mut larger = Builtins::new();
    larger.rust_slice = true;
    larger.rust_error = true;
    let mut h_larger = Includes::new();
    resolve(&mut larger, &mut h_larger);

    assert!(larger.rust_slice && larger.layout && larger.is_complete);
    assert!(larger.panic && larger.friend_impl);
    assert!(h_larger.cstddef && h_larger.iterator && h_larger.type_traits);
    assert!(h_larger.exception);
}

#[test]
fn headers_already_marked_stay_marked() {
    let mut b = Builtins::new();
    let mut h = Includes::new();
    h.string = true;
    resolve(&mut b, &mut h);
    assert!(h.string);
}
