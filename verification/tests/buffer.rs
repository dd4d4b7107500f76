use builtins::block::Block;
use builtins::content::Content;

#[test]
fn lines_append_in_order() {
    let mut c = Content::new();
    assert_eq!(c.num_frags(), 0);
    c.push_line("one");
    c.push_line("two");
    assert_eq!(c.num_frags(), 2);
    assert_eq!(c.frag_at(0), "one");
    assert_eq!(c.frag_at(1), "two");
}

#[test]
fn a_break_on_an_empty_buffer_is_never_materialised() {
    let mut c = Content::new();
    c.next_section();
    c.push_line("first");
    assert_eq!(c.num_frags(), 1);
    assert_eq!(c.frag_at(0), "first");
}

#[test]
fn repeated_breaks_collapse_into_one() {
    let mut c = Content::new();
    c.push_line("first");
    c.next_section();
    c.next_section();
    c.push_line("second");
    assert_eq!(c.num_frags(), 3);
    assert_eq!(c.frag_at(1), "");
    assert_eq!(c.frag_at(2), "second");
}

#[test]
fn a_trailing_break_request_contributes_nothing() {
    let mut c = Content::new();
    c.push_line("only");
    c.next_section();
    assert_eq!(c.num_frags(), 1);
}

#[test]
fn blocks_write_their_syntax_and_balance() {
    let mut c = Content::new();
    c.begin_block(Block::RustNamespace);
    assert_eq!(c.scope_depth(), 1);
    c.push_line("int x;");
    c.end_block(Block::RustNamespace);
    assert_eq!(c.scope_depth(), 0);
    assert_eq!(c.frag_at(0), "namespace rust {");
    assert_eq!(c.frag_at(1), "int x;");
    assert_eq!(c.frag_at(2), "} // namespace rust");
}

#[test]
fn nested_blocks_close_in_reverse_order() {
    let mut c = Content::new();
    c.begin_block(Block::AnonymousNamespace);
    c.begin_block(Block::ReprNamespace);
    c.push_line("struct T;");
    c.end_block(Block::ReprNamespace);
    c.end_block(Block::AnonymousNamespace);
    assert_eq!(c.scope_depth(), 0);
    assert_eq!(c.frag_at(0), "namespace {");
    assert_eq!(c.frag_at(1), "namespace repr {");
    assert_eq!(c.frag_at(3), "} // namespace repr");
    assert_eq!(c.frag_at(4), "} // namespace");
}
