//! Code generation utilities: indentation styles, configuration and the
//! buffer that builds generated source text.

use vstd::prelude::*;
use vstd::string::*;
use crate::text::push_char;

verus! {

/// A character repeated `n` times.
pub open spec fn repeat_char(c: char, n: nat) -> Seq<char>
    decreases n,
{
    if n == 0 {
        Seq::empty()
    } else {
        repeat_char(c, (n - 1) as nat).push(c)
    }
}

/// Indentation style.
#[derive(Debug, Clone, Copy, PartialEq, Eq, Structural)]
pub enum IndentStyle {
    /// The given number of spaces per level.
    Spaces(usize),
    /// One tab per level.
    Tabs,
}

/// The characters that indent to `level`: spaces or tabs. A space count
/// beyond the machine limit saturates at `usize::MAX`.
pub open spec fn indent_chars(style: IndentStyle, level: nat) -> Seq<char> {
    match style {
        IndentStyle::Spaces(n) => repeat_char(
            ' ',
            if level * (n as nat) <= usize::MAX {
                level * (n as nat)
            } else {
                usize::MAX as nat
            },
        ),
        IndentStyle::Tabs => repeat_char('\t', level),
    }
}

fn push_repeated(out: &mut String, c: char, n: usize)
    ensures
        final(out)@ == old(out)@ + repeat_char(c, n as nat),
{
    let mut i: usize = 0;
    proof {
        assert(old(out)@ + repeat_char(c, 0) =~= old(out)@);
    }
    while i < n
        invariant
            0 <= i <= n,
            out@ == old(out)@ + repeat_char(c, i as nat),
        decreases n - i,
    {
        push_char(out, c);
        proof {
            assert(out@ =~= old(out)@ + repeat_char(c, (i + 1) as nat));
        }
        i += 1;
    }
}

impl IndentStyle {
    /// The indentation for the given level, as a string.
    pub fn to_string(&self, level: usize) -> (r: String)
        ensures
            r@ == indent_chars(*self, level as nat),
    {
        let mut out = String::new();
        match self {
            IndentStyle::Spaces(n) => {
                let total = match level.checked_mul(*n) {
                    Some(t) => t,
                    None => usize::MAX,
                };
                push_repeated(&mut out, ' ', total);
            },
            IndentStyle::Tabs => {
                push_repeated(&mut out, '\t', level);
            },
        }
        proof {
            assert(out@ =~= indent_chars(*self, level as nat));
        }
        out
    }
}

/// Code generator configuration.
#[derive(Debug, Clone, Copy)]
pub struct CodegenConfig {
    /// Indentation style.
    pub indent: IndentStyle,
    /// Include type annotations.
    pub types: bool,
    /// Include comments.
    pub comments: bool,
    /// Pretty print.
    pub pretty: bool,
    /// Line width for pretty printing.
    pub line_width: usize,
}

impl CodegenConfig {
    /// The default configuration: four spaces, everything on, width 100.
    pub fn standard() -> (c: CodegenConfig)
        ensures
            c.indent == IndentStyle::Spaces(4usize),
            c.types,
            c.comments,
            c.pretty,
            c.line_width == 100,
    {
        CodegenConfig {
            indent: IndentStyle::Spaces(4),
            types: true,
            comments: true,
            pretty: true,
            line_width: 100,
        }
    }
}

impl Default for CodegenConfig {
    fn default() -> (c: CodegenConfig)
        ensures
            c.indent == IndentStyle::Spaces(4usize),
            c.types,
            c.comments,
            c.pretty,
            c.line_width == 100,
    {
        CodegenConfig::standard()
    }
}

/// A buffer for building code output, with an indentation level that
/// saturates rather than overflowing.
#[derive(Debug)]
pub struct CodeBuffer {
    buf: String,
    indent_level: usize,
    indent: IndentStyle,
}

impl CodeBuffer {
    /// The text built so far.
    pub closed spec fn spec_buf(&self) -> Seq<char> {
        self.buf@
    }

    /// The current indentation level.
    pub closed spec fn spec_level(&self) -> nat {
        self.indent_level as nat
    }

    /// The indentation style.
    pub closed spec fn spec_indent(&self) -> IndentStyle {
        self.indent
    }

    /// An empty buffer with the given indentation style.
    pub fn new(indent: IndentStyle) -> (b: CodeBuffer)
        ensures
            b.spec_buf() =~= Seq::<char>::empty(),
            b.spec_level() == 0,
            b.spec_indent() == indent,
    {
        CodeBuffer { buf: String::new(), indent_level: 0, indent }
    }

    /// Appends text without indentation.
    pub fn push(&mut self, s: &str)
        ensures
            final(self).spec_buf() == old(self).spec_buf() + s@,
            final(self).spec_level() == old(self).spec_level(),
            final(self).spec_indent() == old(self).spec_indent(),
    {
        self.buf.append(s);
    }

    /// Appends one line: the current indentation, the text, a newline.
    pub fn push_line(&mut self, s: &str)
        ensures
            final(self).spec_buf() == old(self).spec_buf() + indent_chars(
                old(self).spec_indent(),
                old(self).spec_level(),
            ) + s@ + seq!['\n'],
            final(self).spec_level() == old(self).spec_level(),
            final(self).spec_indent() == old(self).spec_indent(),
    {
        let ind = self.indent.to_string(self.indent_level);
        self.buf.append(ind.as_str());
        self.buf.append(s);
        push_char(&mut self.buf, '\n');
        proof {
            assert(self.buf@ =~= old(self).spec_buf() + indent_chars(
                old(self).spec_indent(),
                old(self).spec_level(),
            ) + s@ + seq!['\n']);
        }
    }

    /// Raises the indentation level by one (saturating at the machine
    /// limit).
    pub fn indent(&mut self)
        ensures
            final(self).spec_level() == (if old(self).spec_level() < usize::MAX {
                old(self).spec_level() + 1
            } else {
                old(self).spec_level()
            }),
            final(self).spec_buf() == old(self).spec_buf(),
            final(self).spec_indent() == old(self).spec_indent(),
    {
        if self.indent_level < usize::MAX {
            self.indent_level = self.indent_level + 1;
        }
    }

    /// Lowers the indentation level by one, never below zero.
    pub fn dedent(&mut self)
        ensures
            final(self).spec_level() == (if old(self).spec_level() > 0 {
                (old(self).spec_level() - 1) as nat
            } else {
                0nat
            }),
            final(self).spec_buf() == old(self).spec_buf(),
            final(self).spec_indent() == old(self).spec_indent(),
    {
        if self.indent_level > 0 {
            self.indent_level = self.indent_level - 1;
        }
    }

    /// The finished text.
    pub fn finish(self) -> (r: String)
        ensures
            r@ == self.spec_buf(),
    {
        self.buf
    }
}

} // verus!
