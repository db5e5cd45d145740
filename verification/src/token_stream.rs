//! The tokenizer: classifies the lookahead character into one of six lexeme
//! families and scans one complete lexeme per call, producing a token, an
//! end-of-stream signal, or a fatal diagnostic.

use vstd::prelude::*;
use vstd::string::StrSliceExecFns;
use vstd::string::StringExecFns;

use crate::input_stream::InputStream;
use crate::input_stream::advance_pos;
use crate::input_stream::lemma_advance_pos_concat;
use crate::lexicon::Identifier;
use crate::lexicon::IdentifierSymbol;
use crate::lexicon::IntoToken;
use crate::lexicon::Keyword;
use crate::lexicon::KeywordSymbol;
use crate::lexicon::Operator;
use crate::lexicon::OperatorSymbol;
use crate::lexicon::Separator;
use crate::lexicon::SeparatorSymbol;
use crate::lexicon::spec_keyword_of;
use crate::lexicon::spec_operator_of;
use crate::lexicon::spec_separator_of;
use crate::scan::CharClass;
use crate::scan::class_allows;
use crate::scan::is_comment_body_char;
use crate::scan::is_comment_start_char;
use crate::scan::is_digit_char;
use crate::scan::is_fatal_char;
use crate::scan::is_identifier_char;
use crate::scan::is_letter_char;
use crate::scan::is_number_char;
use crate::scan::is_operator_char;
use crate::scan::is_separator_char;
use crate::scan::is_string_start_char;
use crate::scan::is_whitespace_char;
use crate::scan::lemma_string_body_prefix;
use crate::scan::string_body;
use crate::scan::take_class;

verus! {

/// The payload of a token: one of the four closed categories, each carrying
/// its own subkind enumeration and its owned lexeme.
#[derive(Debug)]
pub enum TokenData {
    /// A comment, string, number or variable.
    Identifier(Identifier),
    /// A reserved word.
    Keyword(Keyword),
    /// An operator form.
    Operator(Operator),
    /// A separator character.
    Separator(Separator),
}

impl IntoToken for TokenData {
    open spec fn spec_symbol(&self) -> Seq<char> {
        match self {
            TokenData::Identifier(x) => x.spec_symbol(),
            TokenData::Keyword(x) => x.spec_symbol(),
            TokenData::Operator(x) => x.spec_symbol(),
            TokenData::Separator(x) => x.spec_symbol(),
        }
    }

    open spec fn spec_value(&self) -> Seq<char> {
        match self {
            TokenData::Identifier(x) => x.spec_value(),
            TokenData::Keyword(x) => x.spec_value(),
            TokenData::Operator(x) => x.spec_value(),
            TokenData::Separator(x) => x.spec_value(),
        }
    }

    fn get_symbol(&self) -> (s: String) {
        match self {
            TokenData::Identifier(x) => x.get_symbol(),
            TokenData::Keyword(x) => x.get_symbol(),
            TokenData::Operator(x) => x.get_symbol(),
            TokenData::Separator(x) => x.get_symbol(),
        }
    }

    fn get_value(&self) -> (v: &String) {
        match self {
            TokenData::Identifier(x) => x.get_value(),
            TokenData::Keyword(x) => x.get_value(),
            TokenData::Operator(x) => x.get_value(),
            TokenData::Separator(x) => x.get_value(),
        }
    }
}

/// A classified lexeme together with the 1-based line and column at which it
/// starts. The token owns its lexeme text outright.
#[derive(Debug)]
pub struct Token {
    /// 1-based line of the token's first character.
    pub line: u32,
    /// 1-based column of the token's first character.
    pub col: u32,
    /// The classified payload.
    pub data: TokenData,
}

/// The structured diagnostic of the fatal condition: a lookahead character
/// that matches none of the six lexical families, with its code point and
/// position.
#[derive(Clone, Copy, Debug, PartialEq, Eq, Structural)]
pub struct LexError {
    /// The unclassifiable character's code point.
    pub code: u32,
    /// 1-based line of the character.
    pub line: u32,
    /// 1-based column of the character.
    pub col: u32,
}

/// The lexeme text of the token that starts at the head of `r`: the maximal
/// run of the dispatched family. For a string token the delimiting quotes
/// are not part of the value.
pub open spec fn lexeme_of(r: Seq<char>) -> Seq<char>
    recommends
        r.len() > 0,
{
    let c = r[0];
    if is_comment_start_char(c) {
        take_class(CharClass::CommentBody, r)
    } else if is_string_start_char(c) {
        string_body(r.skip(1))
    } else if is_digit_char(c) {
        take_class(CharClass::NumberPart, r)
    } else if is_letter_char(c) {
        take_class(CharClass::IdentifierPart, r)
    } else if is_operator_char(c) {
        take_class(CharClass::OperatorPart, r)
    } else {
        r.take(1)
    }
}

/// How many characters the token starting at the head of `r` consumes: its
/// lexeme, plus, for a string token, the opening quote and the closing quote
/// where the text still has one.
pub open spec fn consumed_of(r: Seq<char>) -> nat
    recommends
        r.len() > 0,
{
    if is_string_start_char(r[0]) {
        let b = string_body(r.skip(1)).len();
        if 1 + b < r.len() {
            b + 2
        } else {
            b + 1
        }
    } else {
        lexeme_of(r).len()
    }
}

/// What scanning the head of `r` must produce: the family dispatched on the
/// first character, the maximal-munch lexeme as the stored value, and the
/// subkind the table lookup of the scanned text yields. An unrecognized word
/// is a variable; an unrecognized one-character operator run is reclassified
/// as a separator; other unrecognized runs carry the `ILLEGAL` subkind of
/// their family.
pub open spec fn token_data_matches(d: TokenData, r: Seq<char>) -> bool
    recommends
        r.len() > 0,
{
    let c = r[0];
    let lx = lexeme_of(r);
    if is_comment_start_char(c) {
        &&& d matches TokenData::Identifier(id)
        &&& id.symbol == IdentifierSymbol::COMMENT
        &&& id.value@ == lx
    } else if is_string_start_char(c) {
        &&& d matches TokenData::Identifier(id)
        &&& id.symbol == IdentifierSymbol::STRING
        &&& id.value@ == lx
    } else if is_digit_char(c) {
        &&& d matches TokenData::Identifier(id)
        &&& id.symbol == (if lx.contains('.') {
            IdentifierSymbol::FLOAT
        } else {
            IdentifierSymbol::INT
        })
        &&& id.value@ == lx
    } else if is_letter_char(c) {
        if spec_keyword_of(lx) == KeywordSymbol::ILLEGAL {
            &&& d matches TokenData::Identifier(id)
            &&& id.symbol == IdentifierSymbol::VARIABLE
            &&& id.value@ == lx
        } else {
            &&& d matches TokenData::Keyword(kw)
            &&& kw.symbol == spec_keyword_of(lx)
            &&& kw.value@ == lx
        }
    } else if is_operator_char(c) {
        if spec_operator_of(lx) == OperatorSymbol::ILLEGAL && lx.len() == 1 {
            &&& d matches TokenData::Separator(sp)
            &&& sp.symbol == spec_separator_of(lx)
            &&& sp.value@ == lx
        } else {
            &&& d matches TokenData::Operator(op)
            &&& op.symbol == spec_operator_of(lx)
            &&& op.value@ == lx
        }
    } else {
        &&& d matches TokenData::Separator(sp)
        &&& sp.symbol == spec_separator_of(lx)
        &&& sp.value@ == lx
    }
}

/// Pulls characters from an [`InputStream`] and produces one classified
/// token per call. The stream holds no state besides the cursor: each call
/// is a self-contained dispatch-then-scan run.
pub struct TokenStream {
    /// The character source, owned exclusively for the whole tokenization.
    pub input_stream: InputStream,
}

impl TokenStream {
    /// The characters not yet consumed.
    pub open spec fn remaining(&self) -> Seq<char> {
        self.input_stream.remaining()
    }

    /// The underlying cursor's bookkeeping is consistent.
    pub open spec fn wf(&self) -> bool {
        self.input_stream.wf()
    }

    /// Takes exclusive ownership of the character source.
    pub fn create(is: InputStream) -> (r: TokenStream)
        ensures
            r.input_stream == is,
    {
        TokenStream { input_stream: is }
    }

    fn is_comment_start(c: char) -> (b: bool)
        ensures
            b == is_comment_start_char(c),
    {
        c == '#'
    }

    fn is_string_start(c: char) -> (b: bool)
        ensures
            b == is_string_start_char(c),
    {
        c == '"'
    }

    fn is_number_start(c: char) -> (b: bool)
        ensures
            b == is_digit_char(c),
    {
        '0' <= c && c <= '9'
    }

    fn is_identifier_start(c: char) -> (b: bool)
        ensures
            b == is_letter_char(c),
    {
        ('A' <= c && c <= 'Z') || ('a' <= c && c <= 'z')
    }

    fn is_operator_start(c: char) -> (b: bool)
        ensures
            b == is_operator_char(c),
    {
        c == '.' || c == '+' || c == '-' || c == '*' || c == '/' || c == '%' || c == '='
            || c == '&' || c == '|' || c == '<' || c == '>' || c == '!' || c == '~' || c == ':'
    }

    fn is_separator_start(c: char) -> (b: bool)
        ensures
            b == is_separator_char(c),
    {
        c == ',' || c == ';' || c == ':' || c == '|' || c == '(' || c == ')' || c == '{'
            || c == '}' || c == '[' || c == ']'
    }

    fn is_whitespace(c: char) -> (b: bool)
        ensures
            b == is_whitespace_char(c),
    {
        c == ' ' || c == '\t' || c == '\n' || c == '\r'
    }

    fn is_comment(c: char) -> (b: bool)
        ensures
            b == is_comment_body_char(c),
    {
        c != '\n' && c != '\r'
    }

    fn is_number(c: char) -> (b: bool)
        ensures
            b == is_number_char(c),
    {
        ('0' <= c && c <= '9') || c == '.'
    }

    fn is_identifier(c: char) -> (b: bool)
        ensures
            b == is_identifier_char(c),
    {
        ('A' <= c && c <= 'Z') || ('a' <= c && c <= 'z') || ('0' <= c && c <= '9') || c == '?'
            || c == '!' || c == '_'
    }

    fn is_operator(c: char) -> (b: bool)
        ensures
            b == is_operator_char(c),
    {
        Self::is_operator_start(c)
    }

    /// Whether `c` belongs to the class `k`; the executable face of the
    /// classification tables.
    fn char_in_class(k: CharClass, c: char) -> (b: bool)
        ensures
            b == class_allows(k, c),
    {
        match k {
            CharClass::Whitespace => Self::is_whitespace(c),
            CharClass::CommentBody => Self::is_comment(c),
            CharClass::NumberPart => Self::is_number(c),
            CharClass::IdentifierPart => Self::is_identifier(c),
            CharClass::OperatorPart => Self::is_operator(c),
        }
    }

    /// Consumes the maximal run of characters of class `k` and returns it.
    fn read_while(&mut self, k: CharClass) -> (v: String)
        requires
            old(self).wf(),
        ensures
            final(self).wf(),
            final(self).input_stream.text == old(self).input_stream.text,
            final(self).input_stream.char_len == old(self).input_stream.char_len,
            v@ == take_class(k, old(self).remaining()),
            final(self).input_stream.pos == old(self).input_stream.pos + v@.len(),
            final(self).remaining() == old(self).remaining().skip(v@.len() as int),
            (final(self).input_stream.line, final(self).input_stream.col) == advance_pos(
                old(self).input_stream.line,
                old(self).input_stream.col,
                v@,
            ),
    {
        let ghost text0 = self.input_stream.text@;
        let ghost pos0 = self.input_stream.pos;
        let ghost rem0 = self.remaining();
        let start: usize = self.input_stream.pos;
        let mut more: bool = match self.input_stream.peek() {
            Some(c) => Self::char_in_class(k, c),
            None => false,
        };
        while more
            invariant
                self.wf(),
                self.input_stream.text == old(self).input_stream.text,
                self.input_stream.text@ == text0,
                self.input_stream.char_len == old(self).input_stream.char_len,
                pos0 <= self.input_stream.pos,
                rem0 == text0.skip(pos0 as int),
                more == (self.remaining().len() > 0 && class_allows(k, self.remaining()[0])),
                take_class(k, rem0) == rem0.take(self.input_stream.pos - pos0) + take_class(
                    k,
                    self.remaining(),
                ),
            decreases self.remaining().len(),
        {
            let ghost rem_before = self.remaining();
            let ghost n = self.input_stream.pos - pos0;
            self.input_stream.next();
            proof {
                assert(rem_before =~= rem0.skip(n));
                assert(self.remaining() =~= rem_before.skip(1));
                assert(rem0.take(n + 1) =~= rem0.take(n).push(rem_before[0]));
                assert(rem0.take(n).push(rem_before[0]) + take_class(k, rem_before.skip(1))
                    =~= rem0.take(n) + (seq![rem_before[0]] + take_class(
                    k,
                    rem_before.skip(1),
                )));
            }
            more = match self.input_stream.peek() {
                Some(c) => Self::char_in_class(k, c),
                None => false,
            };
        }
        proof {
            let n = self.input_stream.pos - pos0;
            assert(self.remaining() =~= rem0.skip(n));
            assert(take_class(k, self.remaining()) =~= Seq::<char>::empty());
            assert(take_class(k, rem0) =~= rem0.take(n));
        }
        let end: usize = self.input_stream.pos;
        let v = String::from_str(self.input_stream.text.as_str().substring_char(start, end));
        proof {
            assert(v@ =~= rem0.take(end - pos0));
            assert(final(self).remaining() =~= rem0.skip(v@.len() as int));
            let consumed0 = text0.take(pos0 as int);
            assert(text0.take(end as int) =~= consumed0 + v@);
            lemma_advance_pos_concat(1u32, 1u32, consumed0, v@);
        }
        v
    }

    /// Consumes a string body: characters copied verbatim until an unescaped
    /// closing quote or the end of input; a backslash escapes exactly the
    /// character after it.
    fn read_while_string(&mut self) -> (v: String)
        requires
            old(self).wf(),
        ensures
            final(self).wf(),
            final(self).input_stream.text == old(self).input_stream.text,
            final(self).input_stream.char_len == old(self).input_stream.char_len,
            v@ == string_body(old(self).remaining()),
            final(self).input_stream.pos == old(self).input_stream.pos + v@.len(),
            final(self).remaining() == old(self).remaining().skip(v@.len() as int),
    {
        let ghost text0 = self.input_stream.text@;
        let ghost pos0 = self.input_stream.pos;
        let ghost rem0 = self.remaining();
        let start: usize = self.input_stream.pos;
        let mut escaped: bool = false;
        let mut more: bool = match self.input_stream.peek() {
            Some(c) => escaped || c != '"',
            None => false,
        };
        while more
            invariant
                self.wf(),
                self.input_stream.text == old(self).input_stream.text,
                self.input_stream.text@ == text0,
                self.input_stream.char_len == old(self).input_stream.char_len,
                pos0 <= self.input_stream.pos,
                rem0 == text0.skip(pos0 as int),
                more == (self.remaining().len() > 0 && (escaped || self.remaining()[0] != '"')),
                !escaped ==> string_body(rem0) == rem0.take(self.input_stream.pos - pos0)
                    + string_body(self.remaining()),
                escaped ==> string_body(rem0) == rem0.take(self.input_stream.pos - pos0) + (
                if self.remaining().len() > 0 {
                    seq![self.remaining()[0]] + string_body(self.remaining().skip(1))
                } else {
                    Seq::<char>::empty()
                }),
            decreases self.remaining().len(),
        {
            let ghost rem_before = self.remaining();
            let ghost n = self.input_stream.pos - pos0;
            let copt = self.input_stream.next();
            let c = copt.unwrap();
            proof {
                assert(rem_before =~= rem0.skip(n));
                assert(self.remaining() =~= rem_before.skip(1));
                assert(rem0.take(n + 1) =~= rem0.take(n).push(rem_before[0]));
                if !escaped && rem_before[0] == '\\' && rem_before.len() >= 2 {
                    assert(seq![rem_before[0], rem_before[1]] + string_body(rem_before.skip(2))
                        =~= seq![rem_before[0]] + (seq![rem_before[1]] + string_body(
                        rem_before.skip(2),
                    )));
                }
                assert(rem0.take(n).push(rem_before[0]) + string_body(rem_before.skip(1))
                    =~= rem0.take(n) + (seq![rem_before[0]] + string_body(rem_before.skip(1))));
                if rem_before.len() >= 2 {
                    assert(rem0.take(n).push(rem_before[0]) + (seq![rem_before[1]]
                        + string_body(rem_before.skip(2))) =~= rem0.take(n) + (seq![
                        rem_before[0],
                        rem_before[1],
                    ] + string_body(rem_before.skip(2))));
                    assert(rem_before.skip(1)[0] == rem_before[1]);
                    assert(rem_before.skip(1).skip(1) =~= rem_before.skip(2));
                }
            }
            escaped = if escaped {
                false
            } else {
                c == '\\'
            };
            more = match self.input_stream.peek() {
                Some(c2) => escaped || c2 != '"',
                None => false,
            };
        }
        proof {
            let n = self.input_stream.pos - pos0;
            assert(self.remaining() =~= rem0.skip(n));
            assert(string_body(rem0) =~= rem0.take(n));
        }
        let end: usize = self.input_stream.pos;
        let v = String::from_str(self.input_stream.text.as_str().substring_char(start, end));
        proof {
            assert(v@ =~= rem0.take(end - pos0));
            assert(final(self).remaining() =~= rem0.skip(v@.len() as int));
        }
        v
    }

    /// Reads a comment: the maximal run up to the line end, the `#` marker
    /// included; the terminating newline is left for the next call to skip.
    fn read_comment(&mut self) -> (t: Token)
        requires
            old(self).wf(),
            old(self).remaining().len() > 0,
            is_comment_start_char(old(self).remaining()[0]),
        ensures
            final(self).wf(),
            final(self).input_stream.text == old(self).input_stream.text,
            t.line == old(self).input_stream.line,
            t.col == old(self).input_stream.col,
            token_data_matches(t.data, old(self).remaining()),
            final(self).remaining() == old(self).remaining().skip(
                consumed_of(old(self).remaining()) as int,
            ),
    {
        let line: u32 = self.input_stream.get_line();
        let col: u32 = self.input_stream.get_col();
        let v = self.read_while(CharClass::CommentBody);
        Token {
            line,
            col,
            data: TokenData::Identifier(Identifier::create(IdentifierSymbol::COMMENT, v)),
        }
    }

    /// Reads a string: consumes the opening quote, the body, and the closing
    /// quote where the text has one; the stored value excludes the quotes.
    fn read_string(&mut self) -> (t: Token)
        requires
            old(self).wf(),
            old(self).remaining().len() > 0,
            is_string_start_char(old(self).remaining()[0]),
        ensures
            final(self).wf(),
            final(self).input_stream.text == old(self).input_stream.text,
            t.line == old(self).input_stream.line,
            t.col == old(self).input_stream.col,
            token_data_matches(t.data, old(self).remaining()),
            final(self).remaining() == old(self).remaining().skip(
                consumed_of(old(self).remaining()) as int,
            ),
    {
        let ghost rem0 = old(self).remaining();
        let line: u32 = self.input_stream.get_line();
        let col: u32 = self.input_stream.get_col();
        self.input_stream.next();
        proof {
            assert(self.remaining() =~= rem0.skip(1));
        }
        let v = self.read_while_string();
        proof {
            lemma_string_body_prefix(rem0.skip(1));
            assert(self.remaining() =~= rem0.skip(1 + v@.len() as int));
        }
        self.input_stream.next();
        proof {
            assert(final(self).remaining() =~= rem0.skip(consumed_of(rem0) as int));
        }
        Token {
            line,
            col,
            data: TokenData::Identifier(Identifier::create(IdentifierSymbol::STRING, v)),
        }
    }

    /// Reads a number: the maximal run of digits and dots, with no
    /// validation; any dot makes it a float, otherwise an integer.
    fn read_number(&mut self) -> (t: Token)
        requires
            old(self).wf(),
            old(self).remaining().len() > 0,
            is_digit_char(old(self).remaining()[0]),
        ensures
            final(self).wf(),
            final(self).input_stream.text == old(self).input_stream.text,
            t.line == old(self).input_stream.line,
            t.col == old(self).input_stream.col,
            token_data_matches(t.data, old(self).remaining()),
            final(self).remaining() == old(self).remaining().skip(
                consumed_of(old(self).remaining()) as int,
            ),
    {
        let line: u32 = self.input_stream.get_line();
        let col: u32 = self.input_stream.get_col();
        let v = self.read_while(CharClass::NumberPart);
        if contains_char(&v, '.') {
            Token {
                line,
                col,
                data: TokenData::Identifier(Identifier::create(IdentifierSymbol::FLOAT, v)),
            }
        } else {
            Token {
                line,
                col,
                data: TokenData::Identifier(Identifier::create(IdentifierSymbol::INT, v)),
            }
        }
    }

    /// Reads a word: the maximal run of letters, digits and `? ! _`; an
    /// exact match in the keyword table yields a keyword token, any other
    /// word is a variable.
    fn read_identifier(&mut self) -> (t: Token)
        requires
            old(self).wf(),
            old(self).remaining().len() > 0,
            is_letter_char(old(self).remaining()[0]),
        ensures
            final(self).wf(),
            final(self).input_stream.text == old(self).input_stream.text,
            t.line == old(self).input_stream.line,
            t.col == old(self).input_stream.col,
            token_data_matches(t.data, old(self).remaining()),
            final(self).remaining() == old(self).remaining().skip(
                consumed_of(old(self).remaining()) as int,
            ),
    {
        let line: u32 = self.input_stream.get_line();
        let col: u32 = self.input_stream.get_col();
        let v = self.read_while(CharClass::IdentifierPart);
        let sym = KeywordSymbol::from_string(&v);
        match sym {
            KeywordSymbol::ILLEGAL => Token {
                line,
                col,
                data: TokenData::Identifier(Identifier::create(IdentifierSymbol::VARIABLE, v)),
            },
            _ => Token { line, col, data: TokenData::Keyword(Keyword::create(sym, v)) },
        }
    }

    /// Reads an operator: the maximal run of operator characters, never
    /// backtracked. A run missing from the operator table is reclassified as
    /// a separator when it is a single character, and kept as an `ILLEGAL`
    /// operator otherwise.
    fn read_operator(&mut self) -> (t: Token)
        requires
            old(self).wf(),
            old(self).remaining().len() > 0,
            !is_comment_start_char(old(self).remaining()[0]),
            !is_string_start_char(old(self).remaining()[0]),
            !is_digit_char(old(self).remaining()[0]),
            !is_letter_char(old(self).remaining()[0]),
            is_operator_char(old(self).remaining()[0]),
        ensures
            final(self).wf(),
            final(self).input_stream.text == old(self).input_stream.text,
            t.line == old(self).input_stream.line,
            t.col == old(self).input_stream.col,
            token_data_matches(t.data, old(self).remaining()),
            final(self).remaining() == old(self).remaining().skip(
                consumed_of(old(self).remaining()) as int,
            ),
    {
        let line: u32 = self.input_stream.get_line();
        let col: u32 = self.input_stream.get_col();
        let v = self.read_while(CharClass::OperatorPart);
        let sym = OperatorSymbol::from_string(&v);
        match sym {
            OperatorSymbol::ILLEGAL => {
                if v.as_str().unicode_len() == 1 {
                    let sep = SeparatorSymbol::from_string(&v);
                    Token { line, col, data: TokenData::Separator(Separator::create(sep, v)) }
                } else {
                    Token { line, col, data: TokenData::Operator(Operator::create(sym, v)) }
                }
            },
            _ => Token { line, col, data: TokenData::Operator(Operator::create(sym, v)) },
        }
    }

    /// Reads a separator: consumes exactly one character and looks it up in
    /// the separator table; an unmatched character still yields a separator
    /// token tagged `ILLEGAL`.
    fn read_separator(&mut self) -> (t: Token)
        requires
            old(self).wf(),
            old(self).remaining().len() > 0,
            !is_comment_start_char(old(self).remaining()[0]),
            !is_string_start_char(old(self).remaining()[0]),
            !is_digit_char(old(self).remaining()[0]),
            !is_letter_char(old(self).remaining()[0]),
            !is_operator_char(old(self).remaining()[0]),
        ensures
            final(self).wf(),
            final(self).input_stream.text == old(self).input_stream.text,
            t.line == old(self).input_stream.line,
            t.col == old(self).input_stream.col,
            token_data_matches(t.data, old(self).remaining()),
            final(self).remaining() == old(self).remaining().skip(
                consumed_of(old(self).remaining()) as int,
            ),
    {
        let ghost rem0 = old(self).remaining();
        let line: u32 = self.input_stream.get_line();
        let col: u32 = self.input_stream.get_col();
        let start: usize = self.input_stream.pos;
        self.input_stream.next();
        let v = String::from_str(self.input_stream.text.as_str().substring_char(start, start + 1));
        proof {
            assert(v@ =~= rem0.take(1));
            assert(final(self).remaining() =~= rem0.skip(1));
        }
        let sym = SeparatorSymbol::from_string(&v);
        Token { line, col, data: TokenData::Separator(Separator::create(sym, v)) }
    }

    /// Produces the next token, the end-of-stream signal `Ok(None)`, or the
    /// fatal diagnostic for an unclassifiable leading character.
    ///
    /// A maximal run of whitespace is skipped first. If the source is then
    /// exhausted, the stream ends. Otherwise the lookahead character is
    /// dispatched, in fixed priority order, to the first matching family:
    /// comment start, string start, digit, letter, operator character,
    /// separator character; when none matches, the run aborts with a
    /// diagnostic carrying the character's code point and position.
    pub fn read_next(&mut self) -> (r: Result<Option<Token>, LexError>)
        requires
            old(self).wf(),
        ensures
            final(self).wf(),
            final(self).input_stream.text == old(self).input_stream.text,
            ({
                let rem0 = old(self).remaining();
                let ws = take_class(CharClass::Whitespace, rem0);
                let r1 = rem0.skip(ws.len() as int);
                let start = advance_pos(
                    old(self).input_stream.line,
                    old(self).input_stream.col,
                    ws,
                );
                match r {
                    Ok(Some(t)) => {
                        &&& r1.len() > 0
                        &&& !is_fatal_char(r1[0])
                        &&& t.line == start.0
                        &&& t.col == start.1
                        &&& token_data_matches(t.data, r1)
                        &&& final(self).remaining() == r1.skip(consumed_of(r1) as int)
                    },
                    Ok(None) => {
                        &&& r1.len() == 0
                        &&& final(self).remaining() == Seq::<char>::empty()
                    },
                    Err(e) => {
                        &&& r1.len() > 0
                        &&& is_fatal_char(r1[0])
                        &&& e.code == r1[0] as u32
                        &&& e.line == start.0
                        &&& e.col == start.1
                        &&& final(self).remaining() == r1
                    },
                }
            }),
    {
        let _ws = self.read_while(CharClass::Whitespace);
        if self.input_stream.is_eof() {
            proof {
                assert(final(self).remaining() =~= Seq::<char>::empty());
            }
            return Ok(None);
        }
        let c = self.input_stream.peek().unwrap();
        if Self::is_comment_start(c) {
            return Ok(Some(self.read_comment()));
        }
        if Self::is_string_start(c) {
            return Ok(Some(self.read_string()));
        }
        if Self::is_number_start(c) {
            return Ok(Some(self.read_number()));
        }
        if Self::is_identifier_start(c) {
            return Ok(Some(self.read_identifier()));
        }
        if Self::is_operator_start(c) {
            return Ok(Some(self.read_operator()));
        }
        if Self::is_separator_start(c) {
            return Ok(Some(self.read_separator()));
        }
        Err(
            LexError {
                code: c as u32,
                line: self.input_stream.get_line(),
                col: self.input_stream.get_col(),
            },
        )
    }
}

/// Whether the text of `s` holds the character `c` anywhere.
fn contains_char(s: &String, c: char) -> (b: bool)
    ensures
        b == s@.contains(c),
{
    let st = s.as_str();
    let n: usize = st.unicode_len();
    let mut i: usize = 0;
    while i < n
        invariant
            st@ == s@,
            n == st@.len(),
            i <= n,
            forall|j: int| 0 <= j < i ==> st@[j] != c,
        decreases n - i,
    {
        if st.get_char(i) == c {
            return true;
        }
        i = i + 1;
    }
    false
}

} // verus!
