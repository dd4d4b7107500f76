//! The scoped emitter: an append-only buffer of text fragments and
//! section-break markers, together with the stack of open structural scopes.

use vstd::prelude::*;
use crate::block::Block;
use crate::block::close_line;
use crate::block::close_text;
use crate::block::open_line;
use crate::block::open_text;

verus! {

/// An append-only sequence of output lines, plus bookkeeping for section
/// breaks and for the structural scopes that are currently open.
///
/// The buffer is modelled as the sequence of its fragments' character
/// sequences ([`Content::text`]); a section break appears in the model as an
/// empty fragment.  A requested break is pending until the next fragment is
/// appended, so breaks never double up and never trail the buffer; a break
/// is materialised only when the buffer is non-empty, so none ever leads it.
pub struct Content {
    frags: Vec<&'static str>,
    scopes: Vec<Block>,
    section_pending: bool,
}

/// One materialised section break: a single empty fragment.
pub open spec fn break_frags() -> Seq<Seq<char>> {
    seq![Seq::<char>::empty()]
}

/// The fragments a single pending section break contributes when the next
/// line is appended to the buffer: one empty fragment, unless the buffer is
/// still empty or no break is pending.
pub open spec fn sep_frags(c: Content) -> Seq<Seq<char>> {
    if c.pending() && c.text().len() > 0 {
        break_frags()
    } else {
        Seq::<Seq<char>>::empty()
    }
}

impl Content {
    /// The buffer's contents: one character sequence per appended fragment,
    /// in order.  A section break is the empty sequence.
    pub closed spec fn text(self) -> Seq<Seq<char>> {
        self.frags@.map(|i: int, s: &'static str| s@)
    }

    /// The stack of currently open scopes, outermost first.
    pub closed spec fn scope_stack(self) -> Seq<Block> {
        self.scopes@
    }

    /// Whether a section break is pending.
    pub closed spec fn pending(self) -> bool {
        self.section_pending
    }

    /// Creates an empty buffer with no open scope and no pending break.
    pub fn new() -> (c: Content)
        ensures
            c.text() == Seq::<Seq<char>>::empty(),
            c.scope_stack() == Seq::<Block>::empty(),
            !c.pending(),
    {
        let c = Content { frags: Vec::new(), scopes: Vec::new(), section_pending: false };
        proof {
            assert(c.text() =~= Seq::<Seq<char>>::empty());
        }
        c
    }

    /// Appends one line, preceded by a section break if one is pending and
    /// the buffer is non-empty.
    pub fn push_line(&mut self, s: &'static str)
        ensures
            final(self).text() == old(self).text() + sep_frags(*old(self)) + seq![s@],
            final(self).scope_stack() == old(self).scope_stack(),
            !final(self).pending(),
    {
        let ghost c0 = *self;
        if self.section_pending && self.frags.len() > 0 {
            self.frags.push("");
        }
        self.frags.push(s);
        self.section_pending = false;
        proof {
            reveal_strlit("");
            assert(""@ =~= Seq::<char>::empty());
            assert(self.text() =~= c0.text() + sep_frags(c0) + seq![s@]);
        }
    }

    /// Requests a section break before whatever is appended next.  Repeated
    /// requests collapse into one break, and a request that nothing follows
    /// contributes nothing, so blank sections never double up.
    pub fn next_section(&mut self)
        ensures
            final(self).text() == old(self).text(),
            final(self).scope_stack() == old(self).scope_stack(),
            final(self).pending(),
    {
        self.section_pending = true;
    }

    /// Opens a scope: appends its opening syntax (preceded by a pending
    /// section break, as for any line) and pushes it on the scope stack.
    pub fn begin_block(&mut self, b: Block)
        ensures
            final(self).text() == old(self).text() + sep_frags(*old(self)) + seq![open_line(b)],
            final(self).scope_stack() == old(self).scope_stack().push(b),
            !final(self).pending(),
    {
        let s = open_text(b);
        self.push_line(s);
        self.scopes.push(b);
    }

    /// Closes the innermost open scope, which must be the given one: appends
    /// its closing syntax, pops it, and requests a section break so that
    /// whatever follows the closed scope stands apart from it.
    pub fn end_block(&mut self, b: Block)
        requires
            old(self).scope_stack().len() > 0,
            old(self).scope_stack().last() == b,
        ensures
            final(self).text() == old(self).text() + seq![close_line(b)],
            final(self).scope_stack() == old(self).scope_stack().drop_last(),
            final(self).pending(),
    {
        let ghost c0 = *self;
        let s = close_text(b);
        self.frags.push(s);
        let _ = self.scopes.pop();
        self.section_pending = true;
        proof {
            assert(self.text() =~= c0.text() + seq![close_line(b)]);
            assert(self.scopes@ =~= c0.scopes@.drop_last());
        }
    }

    /// The number of fragments in the buffer.
    pub fn num_frags(&self) -> (n: usize)
        ensures
            n == self.text().len(),
    {
        self.frags.len()
    }

    /// The fragment at the given position.
    pub fn frag_at(&self, i: usize) -> (s: &'static str)
        requires
            i < self.text().len(),
        ensures
            s@ == self.text()[i as int],
    {
        self.frags[i]
    }

    /// How many scopes are currently open.
    pub fn scope_depth(&self) -> (n: usize)
        ensures
            n == self.scope_stack().len(),
    {
        self.scopes.len()
    }
}

} // verus!
