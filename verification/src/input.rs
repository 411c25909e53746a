//! Input buffering: hands the scanner one positioned codepoint at a time.
//!
//! The reader owns the whole source text as a vector of codepoints.  A
//! missing final line terminator is appended on construction, so that
//! line-termination logic is uniform.  Once the text is exhausted (or an
//! embedded end-of-input sentinel is reached, mirroring a terminal ^D),
//! every further call returns the sentinel at the position one past the
//! last line.

use crate::chars::END_OF_INPUT;
use vstd::prelude::*;

verus! {

/// One codepoint of the source, tagged with its position.
#[derive(Clone, Copy, Debug)]
pub struct SourceChar {
    pub ch: char,
    /// 1-based source line.
    pub line: usize,
    /// 0-based codepoint offset within the line.
    pub col: usize,
}

/// The line on which the character at offset `i` of `s` stands: one more
/// than the number of line terminators before it.
pub open spec fn line_at(s: Seq<char>, i: int) -> nat
    decreases i,
{
    if i <= 0 {
        1
    } else {
        line_at(s, i - 1) + if s[i - 1] == '\n' {
            1nat
        } else {
            0nat
        }
    }
}

/// The column of the character at offset `i` of `s`: its distance from the
/// start of its line.
pub open spec fn col_at(s: Seq<char>, i: int) -> nat
    decreases i,
{
    if i <= 0 {
        0
    } else if s[i - 1] == '\n' {
        0
    } else {
        col_at(s, i - 1) + 1
    }
}

/// The source as the reader sees it: a line terminator is appended when
/// the text is nonempty and does not already end in one.
pub open spec fn padded(text: Seq<char>) -> Seq<char> {
    if text.len() > 0 && text[text.len() - 1] != '\n' {
        text.push('\n')
    } else {
        text
    }
}

pub proof fn lemma_position_bounds(s: Seq<char>, i: int)
    requires
        0 <= i,
    ensures
        1 <= line_at(s, i) <= i + 1,
        col_at(s, i) <= i,
    decreases i,
{
    if i > 0 {
        lemma_position_bounds(s, i - 1);
    }
}

pub struct Input {
    text: Vec<char>,
    pos: usize,
    line: usize,
    col: usize,
}

impl Input {
    /// The full source text, after line padding.
    pub closed spec fn src(self) -> Seq<char> {
        self.text@
    }

    /// Offset of the next unread codepoint.
    pub closed spec fn at(self) -> int {
        self.pos as int
    }

    pub closed spec fn wf(self) -> bool {
        &&& 0 <= self.pos <= self.text@.len()
        &&& self.text@.len() < usize::MAX
        &&& self.line == line_at(self.text@, self.pos as int)
        &&& self.col == col_at(self.text@, self.pos as int)
    }

    pub fn new(text: Vec<char>) -> (r: Input)
        requires
            text@.len() < usize::MAX - 1,
        ensures
            r.wf(),
            r.src() == padded(text@),
            r.at() == 0,
    {
        let mut text = text;
        if text.len() > 0 && text[text.len() - 1] != '\n' {
            text.push('\n');
        }
        Input { text, pos: 0, line: 1, col: 0 }
    }

    /// Return the next codepoint with its position.  Past the end of the
    /// text — or at an embedded end-of-input sentinel, which is never
    /// stepped over — the sentinel is returned forever, positioned just
    /// after the last line.
    pub fn getc(&mut self) -> (r: SourceChar)
        requires
            old(self).wf(),
        ensures
            final(self).wf(),
            final(self).src() == old(self).src(),
            r.ch == if old(self).at() < old(self).src().len() {
                old(self).src()[old(self).at()]
            } else {
                END_OF_INPUT
            },
            r.line == line_at(old(self).src(), old(self).at()),
            r.col == col_at(old(self).src(), old(self).at()),
            final(self).at() == if old(self).at() < old(self).src().len() && old(self).src()[old(
                self,
            ).at()] != END_OF_INPUT {
                old(self).at() + 1
            } else {
                old(self).at()
            },
    {
        if self.pos < self.text.len() {
            let ch = self.text[self.pos];
            let line = self.line;
            let col = self.col;
            if ch != END_OF_INPUT {
                proof {
                    lemma_position_bounds(self.text@, self.pos as int);
                }
                self.pos = self.pos + 1;
                if ch == '\n' {
                    self.line = self.line + 1;
                    self.col = 0;
                } else {
                    self.col = self.col + 1;
                }
            }
            SourceChar { ch, line, col }
        } else {
            SourceChar { ch: END_OF_INPUT, line: self.line, col: self.col }
        }
    }
}

} // verus!
