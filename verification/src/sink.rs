use vstd::prelude::*;

verus! {

use vstd::string::StringExecFns;

/// One indentation step, as written before a line's content.
pub open spec fn spec_indent_unit() -> Seq<char> {
    "    "@
}

/// The blank that ends every emitted line.
pub open spec fn spec_nl() -> Seq<char> {
    "\n"@
}

/// The indentation prefix for a line at depth `d`.
pub open spec fn spec_indent(d: nat) -> Seq<char>
    decreases d,
{
    if d == 0 {
        Seq::empty()
    } else {
        spec_indent((d - 1) as nat) + spec_indent_unit()
    }
}

/// One full output line: indentation, content, line end.
pub open spec fn spec_line(d: nat, s: Seq<char>) -> Seq<char> {
    spec_indent(d) + s + spec_nl()
}

/// The output sink: an append-only text buffer together with the current
/// indentation depth, scoped to one generation run.
pub struct IndentWriter {
    buf: String,
    depth: usize,
}

impl IndentWriter {
    /// Everything appended so far.
    pub closed spec fn out(self) -> Seq<char> {
        self.buf@
    }

    /// The current indentation depth.
    pub closed spec fn depth(self) -> nat {
        self.depth as nat
    }

    /// A fresh sink: empty output at depth zero.
    pub fn new() -> (w: IndentWriter)
        ensures
            w.out() == Seq::<char>::empty(),
            w.depth() == 0,
    {
        IndentWriter { buf: String::new(), depth: 0 }
    }

    /// Hands the accumulated text out.
    pub fn into_string(self) -> (s: String)
        ensures
            s@ == self.out(),
    {
        self.buf
    }

    /// One more indentation level for the lines that follow.
    pub fn indent(&mut self)
        requires
            old(self).depth() < usize::MAX,
        ensures
            final(self).out() == old(self).out(),
            final(self).depth() == old(self).depth() + 1,
    {
        self.depth = self.depth + 1;
    }

    /// Back one indentation level.
    pub fn unindent(&mut self)
        requires
            old(self).depth() > 0,
        ensures
            final(self).out() == old(self).out(),
            final(self).depth() == old(self).depth() - 1,
    {
        self.depth = self.depth - 1;
    }

    /// A bare line end, with no indentation.
    pub fn newline(&mut self)
        ensures
            final(self).out() == old(self).out() + spec_nl(),
            final(self).depth() == old(self).depth(),
    {
        self.buf.append("\n");
    }

    fn push_indent(&mut self, levels: usize)
        ensures
            final(self).buf@ == old(self).buf@ + spec_indent(levels as nat),
            final(self).depth == old(self).depth,
    {
        let mut i: usize = 0;
        while i < levels
            invariant
                i <= levels,
                self.buf@ == old(self).buf@ + spec_indent(i as nat),
                self.depth == old(self).depth,
            decreases levels - i,
        {
            self.buf.append("    ");
            i = i + 1;
        }
    }

    /// One line of content at the current depth.
    pub fn indented(&mut self, s: &str)
        ensures
            final(self).out() == old(self).out() + spec_line(old(self).depth(), s@),
            final(self).depth() == old(self).depth(),
    {
        let levels = self.depth;
        self.push_indent(levels);
        self.buf.append(s);
        self.buf.append("\n");
    }

    /// One line of content, indented one level deeper than the current
    /// depth, which stays as it is.
    pub fn indented_extra(&mut self, s: &str)
        requires
            old(self).depth() < usize::MAX,
        ensures
            final(self).out() == old(self).out() + spec_line(old(self).depth() + 1, s@),
            final(self).depth() == old(self).depth(),
    {
        let levels = self.depth + 1;
        self.push_indent(levels);
        self.buf.append(s);
        self.buf.append("\n");
    }
}

} // verus!
