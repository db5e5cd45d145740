//! A cursor over the source text with one-character lookahead and 1-based
//! line/column bookkeeping.

use vstd::prelude::*;
use vstd::string::StrSliceExecFns;

verus! {

/// Increments a counter, stopping at the largest representable value instead
/// of wrapping.
pub open spec fn sat_inc(x: u32) -> u32 {
    if x < u32::MAX {
        (x + 1) as u32
    } else {
        x
    }
}

/// The (line, column) pair reached after consuming the characters of `s`,
/// starting from `(line, col)`: a newline moves to the start of the next
/// line, any other character moves one column to the right.
pub open spec fn advance_pos(line: u32, col: u32, s: Seq<char>) -> (u32, u32)
    decreases s.len(),
{
    if s.len() == 0 {
        (line, col)
    } else if s[0] == '\n' {
        advance_pos(sat_inc(line), 1u32, s.skip(1))
    } else {
        advance_pos(line, sat_inc(col), s.skip(1))
    }
}

/// Position bookkeeping distributes over concatenation of consumed text.
pub proof fn lemma_advance_pos_concat(line: u32, col: u32, a: Seq<char>, b: Seq<char>)
    ensures
        advance_pos(line, col, a + b) == advance_pos(
            advance_pos(line, col, a).0,
            advance_pos(line, col, a).1,
            b,
        ),
    decreases a.len(),
{
    if a.len() == 0 {
        assert(a + b =~= b);
    } else {
        assert((a + b).skip(1) =~= a.skip(1) + b);
        if a[0] == '\n' {
            lemma_advance_pos_concat(sat_inc(line), 1u32, a.skip(1), b);
        } else {
            lemma_advance_pos_concat(line, sat_inc(col), a.skip(1), b);
        }
    }
}

/// Consuming one more character steps the position by that character alone.
pub proof fn lemma_advance_pos_snoc(line: u32, col: u32, s: Seq<char>, c: char)
    ensures
        advance_pos(line, col, s.push(c)) == (if c == '\n' {
            (sat_inc(advance_pos(line, col, s).0), 1u32)
        } else {
            (advance_pos(line, col, s).0, sat_inc(advance_pos(line, col, s).1))
        }),
{
    reveal_with_fuel(advance_pos, 3);
    assert(s.push(c) =~= s + seq![c]);
    lemma_advance_pos_concat(line, col, s, seq![c]);
    assert(seq![c].skip(1) =~= Seq::<char>::empty());
}

/// Wraps the full source text and exposes a cursor with one-character
/// lookahead. Consuming a `'\n'` increments the line and resets the column to
/// 1; consuming any other character increments the column. Running past the
/// end simply yields `None` forever.
pub struct InputStream {
    /// The complete source text.
    pub text: String,
    /// The number of characters in `text`, cached at construction.
    pub char_len: usize,
    /// How many characters have been consumed so far.
    pub pos: usize,
    /// Current 1-based line, reflecting the characters already consumed.
    pub line: u32,
    /// Current 1-based column, reflecting the characters already consumed.
    pub col: u32,
}

impl InputStream {
    /// The characters already consumed, in order.
    pub open spec fn consumed(&self) -> Seq<char> {
        self.text@.take(self.pos as int)
    }

    /// The characters not yet consumed, in order.
    pub open spec fn remaining(&self) -> Seq<char> {
        self.text@.skip(self.pos as int)
    }

    /// The cursor is inside the text, the cached length is the text's char
    /// count, and line/column agree with the consumed prefix.
    pub open spec fn wf(&self) -> bool {
        &&& self.char_len == self.text@.len()
        &&& self.pos <= self.char_len
        &&& (self.line, self.col) == advance_pos(1u32, 1u32, self.consumed())
    }

    /// Builds a stream positioned at the start of `d`, at line 1, column 1.
    pub fn from_string(d: &String) -> (r: InputStream)
        ensures
            r.wf(),
            r.text@ == d@,
            r.pos == 0,
            r.line == 1,
            r.col == 1,
    {
        let text = d.clone();
        let char_len = text.as_str().unicode_len();
        let r = InputStream { text, char_len, pos: 0, line: 1, col: 1 };
        proof {
            assert(r.consumed() =~= Seq::<char>::empty());
        }
        r
    }

    /// Current 1-based line.
    pub fn get_line(&self) -> (l: u32)
        ensures
            l == self.line,
    {
        self.line
    }

    /// Current 1-based column.
    pub fn get_col(&self) -> (c: u32)
        ensures
            c == self.col,
    {
        self.col
    }

    /// Consumes and returns the next character, or `None` at end of input.
    pub fn next(&mut self) -> (r: Option<char>)
        requires
            old(self).wf(),
        ensures
            final(self).wf(),
            final(self).text == old(self).text,
            final(self).char_len == old(self).char_len,
            match r {
                Some(c) => {
                    &&& old(self).remaining().len() > 0
                    &&& c == old(self).remaining()[0]
                    &&& final(self).pos == old(self).pos + 1
                    &&& final(self).line == (if c == '\n' {
                        sat_inc(old(self).line)
                    } else {
                        old(self).line
                    })
                    &&& final(self).col == (if c == '\n' {
                        1u32
                    } else {
                        sat_inc(old(self).col)
                    })
                },
                None => {
                    &&& old(self).remaining().len() == 0
                    &&& *final(self) == *old(self)
                },
            },
    {
        if self.pos < self.char_len {
            let c = self.text.as_str().get_char(self.pos);
            self.pos = self.pos + 1;
            if c == '\n' {
                self.line = if self.line < u32::MAX {
                    self.line + 1
                } else {
                    self.line
                };
                self.col = 1;
            } else {
                self.col = if self.col < u32::MAX {
                    self.col + 1
                } else {
                    self.col
                };
            }
            proof {
                assert(self.consumed() =~= old(self).consumed().push(c));
                lemma_advance_pos_snoc(1u32, 1u32, old(self).consumed(), c);
            }
            Some(c)
        } else {
            None
        }
    }

    /// Returns the next character without consuming it; stable across
    /// repeated calls until `next` is called.
    pub fn peek(&self) -> (r: Option<char>)
        requires
            self.wf(),
        ensures
            r == (if self.remaining().len() > 0 {
                Some(self.remaining()[0])
            } else {
                None::<char>
            }),
    {
        if self.pos < self.char_len {
            Some(self.text.as_str().get_char(self.pos))
        } else {
            None
        }
    }

    /// True exactly when `peek` would return `None`.
    pub fn is_eof(&self) -> (r: bool)
        requires
            self.wf(),
        ensures
            r == (self.remaining().len() == 0),
    {
        self.pos >= self.char_len
    }
}

} // verus!
