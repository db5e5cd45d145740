//! The fixed character classification tables and the scanning model: maximal
//! runs over a character class, and the escape-aware string body.

use vstd::prelude::*;

verus! {

/// Whitespace skipped between tokens: space, tab, newline, carriage return.
pub open spec fn is_whitespace_char(c: char) -> bool {
    c == ' ' || c == '\t' || c == '\n' || c == '\r'
}

/// The comment marker.
pub open spec fn is_comment_start_char(c: char) -> bool {
    c == '#'
}

/// The string delimiter.
pub open spec fn is_string_start_char(c: char) -> bool {
    c == '"'
}

/// Decimal digits.
pub open spec fn is_digit_char(c: char) -> bool {
    '0' <= c && c <= '9'
}

/// ASCII letters, either case.
pub open spec fn is_letter_char(c: char) -> bool {
    ('A' <= c && c <= 'Z') || ('a' <= c && c <= 'z')
}

/// The characters operator forms are made of: every character that occurs
/// in an entry of the operator table, so that each entry is reachable by
/// one maximal run.
pub open spec fn is_operator_char(c: char) -> bool {
    ||| c == '.'
    ||| c == '+'
    ||| c == '-'
    ||| c == '*'
    ||| c == '/'
    ||| c == '%'
    ||| c == '='
    ||| c == '&'
    ||| c == '|'
    ||| c == '<'
    ||| c == '>'
    ||| c == '!'
    ||| c == '~'
    ||| c == ':'
}

/// The characters of the separator table.
pub open spec fn is_separator_char(c: char) -> bool {
    ||| c == ','
    ||| c == ';'
    ||| c == ':'
    ||| c == '|'
    ||| c == '('
    ||| c == ')'
    ||| c == '{'
    ||| c == '}'
    ||| c == '['
    ||| c == ']'
}

/// The characters a comment body may hold: everything up to the line end.
pub open spec fn is_comment_body_char(c: char) -> bool {
    c != '\n' && c != '\r'
}

/// The characters a number lexeme is made of: digits and dots, with no
/// further validation.
pub open spec fn is_number_char(c: char) -> bool {
    is_digit_char(c) || c == '.'
}

/// The characters an identifier may continue with after its leading letter.
pub open spec fn is_identifier_char(c: char) -> bool {
    is_letter_char(c) || is_digit_char(c) || c == '?' || c == '!' || c == '_'
}

/// A character that starts none of the six lexical families. Meeting one at
/// the head of a lexeme is the fatal, unrecoverable condition.
pub open spec fn is_fatal_char(c: char) -> bool {
    &&& !is_comment_start_char(c)
    &&& !is_string_start_char(c)
    &&& !is_digit_char(c)
    &&& !is_letter_char(c)
    &&& !is_operator_char(c)
    &&& !is_separator_char(c)
}

/// The character classes over which the family readers take maximal runs.
#[derive(Clone, Copy, Debug, PartialEq, Eq, Structural)]
pub enum CharClass {
    /// Whitespace between tokens.
    Whitespace,
    /// A comment body: everything but the line end.
    CommentBody,
    /// Digits and dots.
    NumberPart,
    /// Letters, digits and `?`, `!`, `_`.
    IdentifierPart,
    /// Operator characters.
    OperatorPart,
}

/// Whether `c` belongs to the class `k`.
pub open spec fn class_allows(k: CharClass, c: char) -> bool {
    match k {
        CharClass::Whitespace => is_whitespace_char(c),
        CharClass::CommentBody => is_comment_body_char(c),
        CharClass::NumberPart => is_number_char(c),
        CharClass::IdentifierPart => is_identifier_char(c),
        CharClass::OperatorPart => is_operator_char(c),
    }
}

/// The maximal prefix of `s` whose characters all lie in class `k`: the
/// "maximal munch" a family reader consumes.
pub open spec fn take_class(k: CharClass, s: Seq<char>) -> Seq<char>
    decreases s.len(),
{
    if s.len() == 0 || !class_allows(k, s[0]) {
        Seq::empty()
    } else {
        seq![s[0]] + take_class(k, s.skip(1))
    }
}

/// The maximal run is a prefix of the text, all its characters lie in the
/// class, and it stops only at the end of the text or at the first character
/// outside the class.
pub proof fn lemma_take_class_prefix(k: CharClass, s: Seq<char>)
    ensures
        take_class(k, s).len() <= s.len(),
        take_class(k, s) == s.take(take_class(k, s).len() as int),
        forall|i: int| 0 <= i < take_class(k, s).len() ==> class_allows(k, s[i]),
        take_class(k, s).len() < s.len() ==> !class_allows(
            k,
            s[take_class(k, s).len() as int],
        ),
    decreases s.len(),
{
    if s.len() == 0 || !class_allows(k, s[0]) {
        assert(take_class(k, s) =~= s.take(0));
    } else {
        lemma_take_class_prefix(k, s.skip(1));
        let t = take_class(k, s.skip(1));
        assert(take_class(k, s) =~= s.take(t.len() as int + 1));
        assert forall|i: int| 0 <= i < t.len() + 1 implies class_allows(k, s[i]) by {
            if i > 0 {
                assert(class_allows(k, s.skip(1)[i - 1]));
            }
        }
    }
}

/// A text that lies entirely inside a class is its own maximal run.
pub proof fn lemma_take_class_all(k: CharClass, s: Seq<char>)
    requires
        forall|i: int| 0 <= i < s.len() ==> class_allows(k, s[i]),
    ensures
        take_class(k, s) == s,
{
    lemma_take_class_prefix(k, s);
    assert(take_class(k, s) =~= s);
}

/// The value of a string lexeme read from `s`, the text just after the
/// opening quote: characters are copied verbatim until an unescaped closing
/// quote or the end of the text; a backslash escapes exactly the character
/// after it and is itself kept, so escape sequences are stored in their
/// two-character source form.
pub open spec fn string_body(s: Seq<char>) -> Seq<char>
    decreases s.len(),
{
    if s.len() == 0 {
        Seq::empty()
    } else if s[0] == '\\' {
        if s.len() == 1 {
            seq!['\\']
        } else {
            seq![s[0], s[1]] + string_body(s.skip(2))
        }
    } else if s[0] == '"' {
        Seq::empty()
    } else {
        seq![s[0]] + string_body(s.skip(1))
    }
}

/// The scanned body is a verbatim prefix of the text it was read from, and
/// it stops only at the end of the text or at an unescaped quote.
pub proof fn lemma_string_body_prefix(s: Seq<char>)
    ensures
        string_body(s).len() <= s.len(),
        string_body(s) == s.take(string_body(s).len() as int),
        string_body(s).len() < s.len() ==> s[string_body(s).len() as int] == '"',
    decreases s.len(),
{
    if s.len() == 0 {
        assert(string_body(s) =~= s.take(0));
    } else if s[0] == '\\' {
        if s.len() == 1 {
            assert(string_body(s) =~= s.take(1));
        } else {
            lemma_string_body_prefix(s.skip(2));
            let t = string_body(s.skip(2));
            assert(string_body(s) =~= s.take(t.len() as int + 2));
        }
    } else if s[0] == '"' {
        assert(string_body(s) =~= s.take(0));
    } else {
        lemma_string_body_prefix(s.skip(1));
        let t = string_body(s.skip(1));
        assert(string_body(s) =~= s.take(t.len() as int + 1));
    }
}

} // verus!
