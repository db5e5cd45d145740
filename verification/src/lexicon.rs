//! The token classification model: four closed token categories, each with a
//! fixed enumeration of recognized lexical forms and a bidirectional mapping
//! between enumerators and canonical strings.

use vstd::prelude::*;
use vstd::string::StrSliceExecFns;
use vstd::string::StringExecFns;

verus! {

broadcast use vstd::string::group_string_axioms;

/// A value that can be observed as a token: a two-part category string of the
/// form `"<family>::<subkind>"` and the raw lexeme text exactly as scanned.
pub trait IntoToken {
    /// The category string the value presents itself under.
    spec fn spec_symbol(&self) -> Seq<char>;

    /// The raw lexeme text the value carries.
    spec fn spec_value(&self) -> Seq<char>;

    /// The category string, e.g. `"keyword::if"` or `"identifier::variable"`.
    fn get_symbol(&self) -> (s: String)
        ensures
            s@ == self.spec_symbol(),
    ;

    /// The raw lexeme text exactly as scanned.
    fn get_value(&self) -> (v: &String)
        ensures
            v@ == self.spec_value(),
    ;
}

/// String comparison, stated over the views.
fn text_is(s: &String, lit: &str) -> (r: bool)
    ensures
        r == (s@ == lit@),
{
    s.eq(&lit.to_owned())
}

/// The structural forms an identifier token can take. These subkinds have no
/// canonical string of their own: the lexeme is free-form text.
#[allow(non_camel_case_types)]
#[derive(Clone, Copy, Debug, PartialEq, Eq, Structural)]
pub enum IdentifierSymbol {
    /// A `#` comment, marker included, up to the end of the line.
    COMMENT,
    /// A quoted string, quotes excluded, escapes kept verbatim.
    STRING,
    /// A run of digits with no dot.
    INT,
    /// A run of digits and dots containing at least one dot.
    FLOAT,
    /// A word that is not in the keyword table.
    VARIABLE,
}

/// The subkind name of each identifier form.
pub open spec fn spec_identifier_symbol_str(sym: IdentifierSymbol) -> Seq<char> {
    match sym {
        IdentifierSymbol::COMMENT => "comment"@,
        IdentifierSymbol::STRING => "string"@,
        IdentifierSymbol::INT => "integer"@,
        IdentifierSymbol::FLOAT => "float"@,
        IdentifierSymbol::VARIABLE => "variable"@,
    }
}

impl IdentifierSymbol {
    /// The subkind name used in the category string.
    pub fn to_str(&self) -> (r: &str)
        ensures
            r@ == spec_identifier_symbol_str(*self),
    {
        match *self {
            IdentifierSymbol::COMMENT => "comment",
            IdentifierSymbol::STRING => "string",
            IdentifierSymbol::INT => "integer",
            IdentifierSymbol::FLOAT => "float",
            IdentifierSymbol::VARIABLE => "variable",
        }
    }
}

/// An identifier token: a structural subkind and the scanned lexeme.
#[derive(Debug)]
pub struct Identifier {
    /// The structural form of the lexeme.
    pub symbol: IdentifierSymbol,
    /// The lexeme text.
    pub value: String,
}

impl Identifier {
    /// Packs a subkind and a lexeme into an identifier token.
    pub fn create(sym: IdentifierSymbol, val: String) -> (r: Identifier)
        ensures
            r.symbol == sym,
            r.value == val,
    {
        Identifier { symbol: sym, value: val }
    }
}

impl IntoToken for Identifier {
    open spec fn spec_symbol(&self) -> Seq<char> {
        "identifier::"@ + spec_identifier_symbol_str(self.symbol)
    }

    open spec fn spec_value(&self) -> Seq<char> {
        self.value@
    }

    fn get_symbol(&self) -> (s: String) {
        String::from_str("identifier::").concat(self.symbol.to_str())
    }

    fn get_value(&self) -> (v: &String) {
        &self.value
    }
}

/// The fixed reserved words, plus an `ILLEGAL` sentinel for a word that is
/// not reserved.
#[allow(non_camel_case_types)]
#[derive(Clone, Copy, Debug, PartialEq, Eq, Structural)]
pub enum KeywordSymbol {
    END,
    ELSE,
    CASE,
    ENSURE,
    MODULE,
    ELSIF,
    DEF,
    RESCUE,
    NOT,
    THEN,
    YIELD,
    FOR,
    SELF,
    FALSE,
    RETRY,
    RETURN,
    TRUE,
    IF,
    DEFINED_P,
    SUPER,
    UNDEF,
    BREAK,
    IN,
    DO,
    NIL,
    UNTIL,
    UNLESS,
    OR,
    NEXT,
    WHEN,
    REDO,
    AND,
    BEGIN,
    __LINE__,
    CLASS,
    __FILE__,
    LEND,
    LBEGIN,
    WHILE,
    ALIAS,
    __ENCODING__,
    ILLEGAL,
}

/// The keyword that a word maps to: an exact, case-sensitive lookup in the
/// reserved-word table, `ILLEGAL` when the word is not reserved.
pub open spec fn spec_keyword_of(s: Seq<char>) -> KeywordSymbol {
    if s == "end"@ {
        KeywordSymbol::END
    } else if s == "else"@ {
        KeywordSymbol::ELSE
    } else if s == "case"@ {
        KeywordSymbol::CASE
    } else if s == "ensure"@ {
        KeywordSymbol::ENSURE
    } else if s == "module"@ {
        KeywordSymbol::MODULE
    } else if s == "elsif"@ {
        KeywordSymbol::ELSIF
    } else if s == "def"@ {
        KeywordSymbol::DEF
    } else if s == "rescue"@ {
        KeywordSymbol::RESCUE
    } else if s == "not"@ {
        KeywordSymbol::NOT
    } else if s == "then"@ {
        KeywordSymbol::THEN
    } else if s == "yield"@ {
        KeywordSymbol::YIELD
    } else if s == "for"@ {
        KeywordSymbol::FOR
    } else if s == "self"@ {
        KeywordSymbol::SELF
    } else if s == "false"@ {
        KeywordSymbol::FALSE
    } else if s == "retry"@ {
        KeywordSymbol::RETRY
    } else if s == "return"@ {
        KeywordSymbol::RETURN
    } else if s == "true"@ {
        KeywordSymbol::TRUE
    } else if s == "if"@ {
        KeywordSymbol::IF
    } else if s == "defined?"@ {
        KeywordSymbol::DEFINED_P
    } else if s == "super"@ {
        KeywordSymbol::SUPER
    } else if s == "undef"@ {
        KeywordSymbol::UNDEF
    } else if s == "break"@ {
        KeywordSymbol::BREAK
    } else if s == "in"@ {
        KeywordSymbol::IN
    } else if s == "do"@ {
        KeywordSymbol::DO
    } else if s == "nil"@ {
        KeywordSymbol::NIL
    } else if s == "until"@ {
        KeywordSymbol::UNTIL
    } else if s == "unless"@ {
        KeywordSymbol::UNLESS
    } else if s == "or"@ {
        KeywordSymbol::OR
    } else if s == "next"@ {
        KeywordSymbol::NEXT
    } else if s == "when"@ {
        KeywordSymbol::WHEN
    } else if s == "redo"@ {
        KeywordSymbol::REDO
    } else if s == "and"@ {
        KeywordSymbol::AND
    } else if s == "begin"@ {
        KeywordSymbol::BEGIN
    } else if s == "__LINE__"@ {
        KeywordSymbol::__LINE__
    } else if s == "class"@ {
        KeywordSymbol::CLASS
    } else if s == "__FILE__"@ {
        KeywordSymbol::__FILE__
    } else if s == "END"@ {
        KeywordSymbol::LEND
    } else if s == "BEGIN"@ {
        KeywordSymbol::LBEGIN
    } else if s == "while"@ {
        KeywordSymbol::WHILE
    } else if s == "alias"@ {
        KeywordSymbol::ALIAS
    } else if s == "__ENCODING__"@ {
        KeywordSymbol::__ENCODING__
    } else {
        KeywordSymbol::ILLEGAL
    }
}

/// The canonical string of each keyword; the sentinel presents as
/// `"ILLEGAL"`.
pub open spec fn spec_keyword_str(sym: KeywordSymbol) -> Seq<char> {
    match sym {
        KeywordSymbol::END => "end"@,
        KeywordSymbol::ELSE => "else"@,
        KeywordSymbol::CASE => "case"@,
        KeywordSymbol::ENSURE => "ensure"@,
        KeywordSymbol::MODULE => "module"@,
        KeywordSymbol::ELSIF => "elsif"@,
        KeywordSymbol::DEF => "def"@,
        KeywordSymbol::RESCUE => "rescue"@,
        KeywordSymbol::NOT => "not"@,
        KeywordSymbol::THEN => "then"@,
        KeywordSymbol::YIELD => "yield"@,
        KeywordSymbol::FOR => "for"@,
        KeywordSymbol::SELF => "self"@,
        KeywordSymbol::FALSE => "false"@,
        KeywordSymbol::RETRY => "retry"@,
        KeywordSymbol::RETURN => "return"@,
        KeywordSymbol::TRUE => "true"@,
        KeywordSymbol::IF => "if"@,
        KeywordSymbol::DEFINED_P => "defined?"@,
        KeywordSymbol::SUPER => "super"@,
        KeywordSymbol::UNDEF => "undef"@,
        KeywordSymbol::BREAK => "break"@,
        KeywordSymbol::IN => "in"@,
        KeywordSymbol::DO => "do"@,
        KeywordSymbol::NIL => "nil"@,
        KeywordSymbol::UNTIL => "until"@,
        KeywordSymbol::UNLESS => "unless"@,
        KeywordSymbol::OR => "or"@,
        KeywordSymbol::NEXT => "next"@,
        KeywordSymbol::WHEN => "when"@,
        KeywordSymbol::REDO => "redo"@,
        KeywordSymbol::AND => "and"@,
        KeywordSymbol::BEGIN => "begin"@,
        KeywordSymbol::__LINE__ => "__LINE__"@,
        KeywordSymbol::CLASS => "class"@,
        KeywordSymbol::__FILE__ => "__FILE__"@,
        KeywordSymbol::LEND => "END"@,
        KeywordSymbol::LBEGIN => "BEGIN"@,
        KeywordSymbol::WHILE => "while"@,
        KeywordSymbol::ALIAS => "alias"@,
        KeywordSymbol::__ENCODING__ => "__ENCODING__"@,
        KeywordSymbol::ILLEGAL => "ILLEGAL"@,
    }
}

impl KeywordSymbol {
    /// Looks a word up in the reserved-word table.
    pub fn from_string(s: &String) -> (r: KeywordSymbol)
        ensures
            r == spec_keyword_of(s@),
    {
        if text_is(s, "end") {
            KeywordSymbol::END
        } else if text_is(s, "else") {
            KeywordSymbol::ELSE
        } else if text_is(s, "case") {
            KeywordSymbol::CASE
        } else if text_is(s, "ensure") {
            KeywordSymbol::ENSURE
        } else if text_is(s, "module") {
            KeywordSymbol::MODULE
        } else if text_is(s, "elsif") {
            KeywordSymbol::ELSIF
        } else if text_is(s, "def") {
            KeywordSymbol::DEF
        } else if text_is(s, "rescue") {
            KeywordSymbol::RESCUE
        } else if text_is(s, "not") {
            KeywordSymbol::NOT
        } else if text_is(s, "then") {
            KeywordSymbol::THEN
        } else if text_is(s, "yield") {
            KeywordSymbol::YIELD
        } else if text_is(s, "for") {
            KeywordSymbol::FOR
        } else if text_is(s, "self") {
            KeywordSymbol::SELF
        } else if text_is(s, "false") {
            KeywordSymbol::FALSE
        } else if text_is(s, "retry") {
            KeywordSymbol::RETRY
        } else if text_is(s, "return") {
            KeywordSymbol::RETURN
        } else if text_is(s, "true") {
            KeywordSymbol::TRUE
        } else if text_is(s, "if") {
            KeywordSymbol::IF
        } else if text_is(s, "defined?") {
            KeywordSymbol::DEFINED_P
        } else if text_is(s, "super") {
            KeywordSymbol::SUPER
        } else if text_is(s, "undef") {
            KeywordSymbol::UNDEF
        } else if text_is(s, "break") {
            KeywordSymbol::BREAK
        } else if text_is(s, "in") {
            KeywordSymbol::IN
        } else if text_is(s, "do") {
            KeywordSymbol::DO
        } else if text_is(s, "nil") {
            KeywordSymbol::NIL
        } else if text_is(s, "until") {
            KeywordSymbol::UNTIL
        } else if text_is(s, "unless") {
            KeywordSymbol::UNLESS
        } else if text_is(s, "or") {
            KeywordSymbol::OR
        } else if text_is(s, "next") {
            KeywordSymbol::NEXT
        } else if text_is(s, "when") {
            KeywordSymbol::WHEN
        } else if text_is(s, "redo") {
            KeywordSymbol::REDO
        } else if text_is(s, "and") {
            KeywordSymbol::AND
        } else if text_is(s, "begin") {
            KeywordSymbol::BEGIN
        } else if text_is(s, "__LINE__") {
            KeywordSymbol::__LINE__
        } else if text_is(s, "class") {
            KeywordSymbol::CLASS
        } else if text_is(s, "__FILE__") {
            KeywordSymbol::__FILE__
        } else if text_is(s, "END") {
            KeywordSymbol::LEND
        } else if text_is(s, "BEGIN") {
            KeywordSymbol::LBEGIN
        } else if text_is(s, "while") {
            KeywordSymbol::WHILE
        } else if text_is(s, "alias") {
            KeywordSymbol::ALIAS
        } else if text_is(s, "__ENCODING__") {
            KeywordSymbol::__ENCODING__
        } else {
            KeywordSymbol::ILLEGAL
        }
    }

    /// The canonical string of the keyword.
    pub fn to_str(&self) -> (r: &str)
        ensures
            r@ == spec_keyword_str(*self),
    {
        match *self {
            KeywordSymbol::END => "end",
            KeywordSymbol::ELSE => "else",
            KeywordSymbol::CASE => "case",
            KeywordSymbol::ENSURE => "ensure",
            KeywordSymbol::MODULE => "module",
            KeywordSymbol::ELSIF => "elsif",
            KeywordSymbol::DEF => "def",
            KeywordSymbol::RESCUE => "rescue",
            KeywordSymbol::NOT => "not",
            KeywordSymbol::THEN => "then",
            KeywordSymbol::YIELD => "yield",
            KeywordSymbol::FOR => "for",
            KeywordSymbol::SELF => "self",
            KeywordSymbol::FALSE => "false",
            KeywordSymbol::RETRY => "retry",
            KeywordSymbol::RETURN => "return",
            KeywordSymbol::TRUE => "true",
            KeywordSymbol::IF => "if",
            KeywordSymbol::DEFINED_P => "defined?",
            KeywordSymbol::SUPER => "super",
            KeywordSymbol::UNDEF => "undef",
            KeywordSymbol::BREAK => "break",
            KeywordSymbol::IN => "in",
            KeywordSymbol::DO => "do",
            KeywordSymbol::NIL => "nil",
            KeywordSymbol::UNTIL => "until",
            KeywordSymbol::UNLESS => "unless",
            KeywordSymbol::OR => "or",
            KeywordSymbol::NEXT => "next",
            KeywordSymbol::WHEN => "when",
            KeywordSymbol::REDO => "redo",
            KeywordSymbol::AND => "and",
            KeywordSymbol::BEGIN => "begin",
            KeywordSymbol::__LINE__ => "__LINE__",
            KeywordSymbol::CLASS => "class",
            KeywordSymbol::__FILE__ => "__FILE__",
            KeywordSymbol::LEND => "END",
            KeywordSymbol::LBEGIN => "BEGIN",
            KeywordSymbol::WHILE => "while",
            KeywordSymbol::ALIAS => "alias",
            KeywordSymbol::__ENCODING__ => "__ENCODING__",
            KeywordSymbol::ILLEGAL => "ILLEGAL",
        }
    }
}

/// A keyword token: a reserved-word subkind and the scanned lexeme.
#[derive(Debug)]
pub struct Keyword {
    /// The reserved word, or `ILLEGAL`.
    pub symbol: KeywordSymbol,
    /// The lexeme text.
    pub value: String,
}

impl Keyword {
    /// Packs a subkind and a lexeme into a keyword token.
    pub fn create(sym: KeywordSymbol, val: String) -> (r: Keyword)
        ensures
            r.symbol == sym,
            r.value == val,
    {
        Keyword { symbol: sym, value: val }
    }
}

impl IntoToken for Keyword {
    open spec fn spec_symbol(&self) -> Seq<char> {
        "keyword::"@ + spec_keyword_str(self.symbol)
    }

    open spec fn spec_value(&self) -> Seq<char> {
        self.value@
    }

    fn get_symbol(&self) -> (s: String) {
        String::from_str("keyword::").concat(self.symbol.to_str())
    }

    fn get_value(&self) -> (v: &String) {
        &self.value
    }
}

/// The fixed operator forms, plus an `ILLEGAL` sentinel for an
/// operator-character run that matches no form.
#[allow(non_camel_case_types)]
#[derive(Clone, Copy, Debug, PartialEq, Eq, Structural)]
pub enum OperatorSymbol {
    ASSIGN,
    PLUS,
    PLUS_EQ,
    MINUS,
    MINUS_EQ,
    BANG,
    ASTERISK,
    POW,
    SLASH,
    DOT,
    AND,
    OR,
    OR_EQ,
    MODULO,
    MATCH,
    LT,
    LTE,
    GT,
    GTE,
    COMP,
    EQ,
    NOT_EQ,
    RANGE,
    RESOLUTION,
    ILLEGAL,
}

/// The operator that a run maps to: an exact lookup in the operator table,
/// `ILLEGAL` when the run matches no form.
pub open spec fn spec_operator_of(s: Seq<char>) -> OperatorSymbol {
    if s == "="@ {
        OperatorSymbol::ASSIGN
    } else if s == "+"@ {
        OperatorSymbol::PLUS
    } else if s == "+="@ {
        OperatorSymbol::PLUS_EQ
    } else if s == "-"@ {
        OperatorSymbol::MINUS
    } else if s == "-="@ {
        OperatorSymbol::MINUS_EQ
    } else if s == "!"@ {
        OperatorSymbol::BANG
    } else if s == "*"@ {
        OperatorSymbol::ASTERISK
    } else if s == "**"@ {
        OperatorSymbol::POW
    } else if s == "/"@ {
        OperatorSymbol::SLASH
    } else if s == "."@ {
        OperatorSymbol::DOT
    } else if s == "&&"@ {
        OperatorSymbol::AND
    } else if s == "||"@ {
        OperatorSymbol::OR
    } else if s == "||="@ {
        OperatorSymbol::OR_EQ
    } else if s == "%"@ {
        OperatorSymbol::MODULO
    } else if s == "=~"@ {
        OperatorSymbol::MATCH
    } else if s == "<"@ {
        OperatorSymbol::LT
    } else if s == "<="@ {
        OperatorSymbol::LTE
    } else if s == ">"@ {
        OperatorSymbol::GT
    } else if s == ">="@ {
        OperatorSymbol::GTE
    } else if s == "<=>"@ {
        OperatorSymbol::COMP
    } else if s == "=="@ {
        OperatorSymbol::EQ
    } else if s == "!="@ {
        OperatorSymbol::NOT_EQ
    } else if s == ".."@ {
        OperatorSymbol::RANGE
    } else if s == "::"@ {
        OperatorSymbol::RESOLUTION
    } else {
        OperatorSymbol::ILLEGAL
    }
}

/// The canonical string of each operator; the sentinel presents as
/// `"ILLEGAL"`.
pub open spec fn spec_operator_str(sym: OperatorSymbol) -> Seq<char> {
    match sym {
        OperatorSymbol::ASSIGN => "="@,
        OperatorSymbol::PLUS => "+"@,
        OperatorSymbol::PLUS_EQ => "+="@,
        OperatorSymbol::MINUS => "-"@,
        OperatorSymbol::MINUS_EQ => "-="@,
        OperatorSymbol::BANG => "!"@,
        OperatorSymbol::ASTERISK => "*"@,
        OperatorSymbol::POW => "**"@,
        OperatorSymbol::SLASH => "/"@,
        OperatorSymbol::DOT => "."@,
        OperatorSymbol::AND => "&&"@,
        OperatorSymbol::OR => "||"@,
        OperatorSymbol::OR_EQ => "||="@,
        OperatorSymbol::MODULO => "%"@,
        OperatorSymbol::MATCH => "=~"@,
        OperatorSymbol::LT => "<"@,
        OperatorSymbol::LTE => "<="@,
        OperatorSymbol::GT => ">"@,
        OperatorSymbol::GTE => ">="@,
        OperatorSymbol::COMP => "<=>"@,
        OperatorSymbol::EQ => "=="@,
        OperatorSymbol::NOT_EQ => "!="@,
        OperatorSymbol::RANGE => ".."@,
        OperatorSymbol::RESOLUTION => "::"@,
        OperatorSymbol::ILLEGAL => "ILLEGAL"@,
    }
}

impl OperatorSymbol {
    /// Looks an operator-character run up in the operator table.
    pub fn from_string(s: &String) -> (r: OperatorSymbol)
        ensures
            r == spec_operator_of(s@),
    {
        if text_is(s, "=") {
            OperatorSymbol::ASSIGN
        } else if text_is(s, "+") {
            OperatorSymbol::PLUS
        } else if text_is(s, "+=") {
            OperatorSymbol::PLUS_EQ
        } else if text_is(s, "-") {
            OperatorSymbol::MINUS
        } else if text_is(s, "-=") {
            OperatorSymbol::MINUS_EQ
        } else if text_is(s, "!") {
            OperatorSymbol::BANG
        } else if text_is(s, "*") {
            OperatorSymbol::ASTERISK
        } else if text_is(s, "**") {
            OperatorSymbol::POW
        } else if text_is(s, "/") {
            OperatorSymbol::SLASH
        } else if text_is(s, ".") {
            OperatorSymbol::DOT
        } else if text_is(s, "&&") {
            OperatorSymbol::AND
        } else if text_is(s, "||") {
            OperatorSymbol::OR
        } else if text_is(s, "||=") {
            OperatorSymbol::OR_EQ
        } else if text_is(s, "%") {
            OperatorSymbol::MODULO
        } else if text_is(s, "=~") {
            OperatorSymbol::MATCH
        } else if text_is(s, "<") {
            OperatorSymbol::LT
        } else if text_is(s, "<=") {
            OperatorSymbol::LTE
        } else if text_is(s, ">") {
            OperatorSymbol::GT
        } else if text_is(s, ">=") {
            OperatorSymbol::GTE
        } else if text_is(s, "<=>") {
            OperatorSymbol::COMP
        } else if text_is(s, "==") {
            OperatorSymbol::EQ
        } else if text_is(s, "!=") {
            OperatorSymbol::NOT_EQ
        } else if text_is(s, "..") {
            OperatorSymbol::RANGE
        } else if text_is(s, "::") {
            OperatorSymbol::RESOLUTION
        } else {
            OperatorSymbol::ILLEGAL
        }
    }

    /// The canonical string of the operator.
    pub fn to_str(&self) -> (r: &str)
        ensures
            r@ == spec_operator_str(*self),
    {
        match *self {
            OperatorSymbol::ASSIGN => "=",
            OperatorSymbol::PLUS => "+",
            OperatorSymbol::PLUS_EQ => "+=",
            OperatorSymbol::MINUS => "-",
            OperatorSymbol::MINUS_EQ => "-=",
            OperatorSymbol::BANG => "!",
            OperatorSymbol::ASTERISK => "*",
            OperatorSymbol::POW => "**",
            OperatorSymbol::SLASH => "/",
            OperatorSymbol::DOT => ".",
            OperatorSymbol::AND => "&&",
            OperatorSymbol::OR => "||",
            OperatorSymbol::OR_EQ => "||=",
            OperatorSymbol::MODULO => "%",
            OperatorSymbol::MATCH => "=~",
            OperatorSymbol::LT => "<",
            OperatorSymbol::LTE => "<=",
            OperatorSymbol::GT => ">",
            OperatorSymbol::GTE => ">=",
            OperatorSymbol::COMP => "<=>",
            OperatorSymbol::EQ => "==",
            OperatorSymbol::NOT_EQ => "!=",
            OperatorSymbol::RANGE => "..",
            OperatorSymbol::RESOLUTION => "::",
            OperatorSymbol::ILLEGAL => "ILLEGAL",
        }
    }
}

/// An operator token: an operator subkind and the scanned lexeme.
#[derive(Debug)]
pub struct Operator {
    /// The operator form, or `ILLEGAL`.
    pub symbol: OperatorSymbol,
    /// The lexeme text.
    pub value: String,
}

impl Operator {
    /// Packs a subkind and a lexeme into an operator token.
    pub fn create(sym: OperatorSymbol, val: String) -> (r: Operator)
        ensures
            r.symbol == sym,
            r.value == val,
    {
        Operator { symbol: sym, value: val }
    }
}

impl IntoToken for Operator {
    open spec fn spec_symbol(&self) -> Seq<char> {
        "operator::"@ + spec_operator_str(self.symbol)
    }

    open spec fn spec_value(&self) -> Seq<char> {
        self.value@
    }

    fn get_symbol(&self) -> (s: String) {
        String::from_str("operator::").concat(self.symbol.to_str())
    }

    fn get_value(&self) -> (v: &String) {
        &self.value
    }
}

/// The fixed separator characters, plus an `ILLEGAL` sentinel for a character
/// that matches none of them.
#[allow(non_camel_case_types)]
#[derive(Clone, Copy, Debug, PartialEq, Eq, Structural)]
pub enum SeparatorSymbol {
    COMMA,
    SEMICOLON,
    COLON,
    BAR,
    L_PAREN,
    R_PAREN,
    L_BRACE,
    R_BRACE,
    L_BRACKET,
    R_BRACKET,
    ILLEGAL,
}

/// The separator that a character maps to: an exact lookup in the separator
/// table, `ILLEGAL` when the text matches no form.
pub open spec fn spec_separator_of(s: Seq<char>) -> SeparatorSymbol {
    if s == ","@ {
        SeparatorSymbol::COMMA
    } else if s == ";"@ {
        SeparatorSymbol::SEMICOLON
    } else if s == ":"@ {
        SeparatorSymbol::COLON
    } else if s == "|"@ {
        SeparatorSymbol::BAR
    } else if s == "("@ {
        SeparatorSymbol::L_PAREN
    } else if s == ")"@ {
        SeparatorSymbol::R_PAREN
    } else if s == "{"@ {
        SeparatorSymbol::L_BRACE
    } else if s == "}"@ {
        SeparatorSymbol::R_BRACE
    } else if s == "["@ {
        SeparatorSymbol::L_BRACKET
    } else if s == "]"@ {
        SeparatorSymbol::R_BRACKET
    } else {
        SeparatorSymbol::ILLEGAL
    }
}

/// The canonical string of each separator; the sentinel presents as
/// `"ILLEGAL"`.
pub open spec fn spec_separator_str(sym: SeparatorSymbol) -> Seq<char> {
    match sym {
        SeparatorSymbol::COMMA => ","@,
        SeparatorSymbol::SEMICOLON => ";"@,
        SeparatorSymbol::COLON => ":"@,
        SeparatorSymbol::BAR => "|"@,
        SeparatorSymbol::L_PAREN => "("@,
        SeparatorSymbol::R_PAREN => ")"@,
        SeparatorSymbol::L_BRACE => "{"@,
        SeparatorSymbol::R_BRACE => "}"@,
        SeparatorSymbol::L_BRACKET => "["@,
        SeparatorSymbol::R_BRACKET => "]"@,
        SeparatorSymbol::ILLEGAL => "ILLEGAL"@,
    }
}

impl SeparatorSymbol {
    /// Looks a separator character up in the separator table.
    pub fn from_string(s: &String) -> (r: SeparatorSymbol)
        ensures
            r == spec_separator_of(s@),
    {
        if text_is(s, ",") {
            SeparatorSymbol::COMMA
        } else if text_is(s, ";") {
            SeparatorSymbol::SEMICOLON
        } else if text_is(s, ":") {
            SeparatorSymbol::COLON
        } else if text_is(s, "|") {
            SeparatorSymbol::BAR
        } else if text_is(s, "(") {
            SeparatorSymbol::L_PAREN
        } else if text_is(s, ")") {
            SeparatorSymbol::R_PAREN
        } else if text_is(s, "{") {
            SeparatorSymbol::L_BRACE
        } else if text_is(s, "}") {
            SeparatorSymbol::R_BRACE
        } else if text_is(s, "[") {
            SeparatorSymbol::L_BRACKET
        } else if text_is(s, "]") {
            SeparatorSymbol::R_BRACKET
        } else {
            SeparatorSymbol::ILLEGAL
        }
    }

    /// The canonical string of the separator.
    pub fn to_str(&self) -> (r: &str)
        ensures
            r@ == spec_separator_str(*self),
    {
        match *self {
            SeparatorSymbol::COMMA => ",",
            SeparatorSymbol::SEMICOLON => ";",
            SeparatorSymbol::COLON => ":",
            SeparatorSymbol::BAR => "|",
            SeparatorSymbol::L_PAREN => "(",
            SeparatorSymbol::R_PAREN => ")",
            SeparatorSymbol::L_BRACE => "{",
            SeparatorSymbol::R_BRACE => "}",
            SeparatorSymbol::L_BRACKET => "[",
            SeparatorSymbol::R_BRACKET => "]",
            SeparatorSymbol::ILLEGAL => "ILLEGAL",
        }
    }
}

/// A separator token: a separator subkind and the scanned lexeme.
#[derive(Debug)]
pub struct Separator {
    /// The separator form, or `ILLEGAL`.
    pub symbol: SeparatorSymbol,
    /// The lexeme text.
    pub value: String,
}

impl Separator {
    /// Packs a subkind and a lexeme into a separator token.
    pub fn create(sym: SeparatorSymbol, val: String) -> (r: Separator)
        ensures
            r.symbol == sym,
            r.value == val,
    {
        Separator { symbol: sym, value: val }
    }
}

impl IntoToken for Separator {
    open spec fn spec_symbol(&self) -> Seq<char> {
        "separator::"@ + spec_separator_str(self.symbol)
    }

    open spec fn spec_value(&self) -> Seq<char> {
        self.value@
    }

    fn get_symbol(&self) -> (s: String) {
        String::from_str("separator::").concat(self.symbol.to_str())
    }

    fn get_value(&self) -> (v: &String) {
        &self.value
    }
}

/// Law: looking a keyword's canonical string back up in the table yields the
/// same keyword; the reserved-word mapping is bidirectional.
pub proof fn lemma_keyword_round_trip(sym: KeywordSymbol)
    requires
        sym != KeywordSymbol::ILLEGAL,
    ensures
        spec_keyword_of(spec_keyword_str(sym)) == sym,
{
    reveal_strlit("end");
    reveal_strlit("else");
    reveal_strlit("case");
    reveal_strlit("ensure");
    reveal_strlit("module");
    reveal_strlit("elsif");
    reveal_strlit("def");
    reveal_strlit("rescue");
    reveal_strlit("not");
    reveal_strlit("then");
    reveal_strlit("yield");
    reveal_strlit("for");
    reveal_strlit("self");
    reveal_strlit("false");
    reveal_strlit("retry");
    reveal_strlit("return");
    reveal_strlit("true");
    reveal_strlit("if");
    reveal_strlit("defined?");
    reveal_strlit("super");
    reveal_strlit("undef");
    reveal_strlit("break");
    reveal_strlit("in");
    reveal_strlit("do");
    reveal_strlit("nil");
    reveal_strlit("until");
    reveal_strlit("unless");
    reveal_strlit("or");
    reveal_strlit("next");
    reveal_strlit("when");
    reveal_strlit("redo");
    reveal_strlit("and");
    reveal_strlit("begin");
    reveal_strlit("__LINE__");
    reveal_strlit("class");
    reveal_strlit("__FILE__");
    reveal_strlit("END");
    reveal_strlit("BEGIN");
    reveal_strlit("while");
    reveal_strlit("alias");
    reveal_strlit("__ENCODING__");
    assert("end"@.len() == 3);
    assert("end"@[0] == 'e');
    assert("end"@[1] == 'n');
    assert("end"@[2] == 'd');
    assert("else"@.len() == 4);
    assert("else"@[0] == 'e');
    assert("else"@[1] == 'l');
    assert("else"@[2] == 's');
    assert("else"@[3] == 'e');
    assert("case"@.len() == 4);
    assert("case"@[0] == 'c');
    assert("case"@[1] == 'a');
    assert("case"@[2] == 's');
    assert("case"@[3] == 'e');
    assert("ensure"@.len() == 6);
    assert("ensure"@[0] == 'e');
    assert("ensure"@[1] == 'n');
    assert("ensure"@[2] == 's');
    assert("ensure"@[3] == 'u');
    assert("ensure"@[4] == 'r');
    assert("ensure"@[5] == 'e');
    assert("module"@.len() == 6);
    assert("module"@[0] == 'm');
    assert("module"@[1] == 'o');
    assert("module"@[2] == 'd');
    assert("module"@[3] == 'u');
    assert("module"@[4] == 'l');
    assert("module"@[5] == 'e');
    assert("elsif"@.len() == 5);
    assert("elsif"@[0] == 'e');
    assert("elsif"@[1] == 'l');
    assert("elsif"@[2] == 's');
    assert("elsif"@[3] == 'i');
    assert("elsif"@[4] == 'f');
    assert("def"@.len() == 3);
    assert("def"@[0] == 'd');
    assert("def"@[1] == 'e');
    assert("def"@[2] == 'f');
    assert("rescue"@.len() == 6);
    assert("rescue"@[0] == 'r');
    assert("rescue"@[1] == 'e');
    assert("rescue"@[2] == 's');
    assert("rescue"@[3] == 'c');
    assert("rescue"@[4] == 'u');
    assert("rescue"@[5] == 'e');
    assert("not"@.len() == 3);
    assert("not"@[0] == 'n');
    assert("not"@[1] == 'o');
    assert("not"@[2] == 't');
    assert("then"@.len() == 4);
    assert("then"@[0] == 't');
    assert("then"@[1] == 'h');
    assert("then"@[2] == 'e');
    assert("then"@[3] == 'n');
    assert("yield"@.len() == 5);
    assert("yield"@[0] == 'y');
    assert("yield"@[1] == 'i');
    assert("yield"@[2] == 'e');
    assert("yield"@[3] == 'l');
    assert("yield"@[4] == 'd');
    assert("for"@.len() == 3);
    assert("for"@[0] == 'f');
    assert("for"@[1] == 'o');
    assert("for"@[2] == 'r');
    assert("self"@.len() == 4);
    assert("self"@[0] == 's');
    assert("self"@[1] == 'e');
    assert("self"@[2] == 'l');
    assert("self"@[3] == 'f');
    assert("false"@.len() == 5);
    assert("false"@[0] == 'f');
    assert("false"@[1] == 'a');
    assert("false"@[2] == 'l');
    assert("false"@[3] == 's');
    assert("false"@[4] == 'e');
    assert("retry"@.len() == 5);
    assert("retry"@[0] == 'r');
    assert("retry"@[1] == 'e');
    assert("retry"@[2] == 't');
    assert("retry"@[3] == 'r');
    assert("retry"@[4] == 'y');
    assert("return"@.len() == 6);
    assert("return"@[0] == 'r');
    assert("return"@[1] == 'e');
    assert("return"@[2] == 't');
    assert("return"@[3] == 'u');
    assert("return"@[4] == 'r');
    assert("return"@[5] == 'n');
    assert("true"@.len() == 4);
    assert("true"@[0] == 't');
    assert("true"@[1] == 'r');
    assert("true"@[2] == 'u');
    assert("true"@[3] == 'e');
    assert("if"@.len() == 2);
    assert("if"@[0] == 'i');
    assert("if"@[1] == 'f');
    assert("defined?"@.len() == 8);
    assert("defined?"@[0] == 'd');
    assert("defined?"@[1] == 'e');
    assert("defined?"@[2] == 'f');
    assert("defined?"@[3] == 'i');
    assert("defined?"@[4] == 'n');
    assert("defined?"@[5] == 'e');
    assert("defined?"@[6] == 'd');
    assert("defined?"@[7] == '?');
    assert("super"@.len() == 5);
    assert("super"@[0] == 's');
    assert("super"@[1] == 'u');
    assert("super"@[2] == 'p');
    assert("super"@[3] == 'e');
    assert("super"@[4] == 'r');
    assert("undef"@.len() == 5);
    assert("undef"@[0] == 'u');
    assert("undef"@[1] == 'n');
    assert("undef"@[2] == 'd');
    assert("undef"@[3] == 'e');
    assert("undef"@[4] == 'f');
    assert("break"@.len() == 5);
    assert("break"@[0] == 'b');
    assert("break"@[1] == 'r');
    assert("break"@[2] == 'e');
    assert("break"@[3] == 'a');
    assert("break"@[4] == 'k');
    assert("in"@.len() == 2);
    assert("in"@[0] == 'i');
    assert("in"@[1] == 'n');
    assert("do"@.len() == 2);
    assert("do"@[0] == 'd');
    assert("do"@[1] == 'o');
    assert("nil"@.len() == 3);
    assert("nil"@[0] == 'n');
    assert("nil"@[1] == 'i');
    assert("nil"@[2] == 'l');
    assert("until"@.len() == 5);
    assert("until"@[0] == 'u');
    assert("until"@[1] == 'n');
    assert("until"@[2] == 't');
    assert("until"@[3] == 'i');
    assert("until"@[4] == 'l');
    assert("unless"@.len() == 6);
    assert("unless"@[0] == 'u');
    assert("unless"@[1] == 'n');
    assert("unless"@[2] == 'l');
    assert("unless"@[3] == 'e');
    assert("unless"@[4] == 's');
    assert("unless"@[5] == 's');
    assert("or"@.len() == 2);
    assert("or"@[0] == 'o');
    assert("or"@[1] == 'r');
    assert("next"@.len() == 4);
    assert("next"@[0] == 'n');
    assert("next"@[1] == 'e');
    assert("next"@[2] == 'x');
    assert("next"@[3] == 't');
    assert("when"@.len() == 4);
    assert("when"@[0] == 'w');
    assert("when"@[1] == 'h');
    assert("when"@[2] == 'e');
    assert("when"@[3] == 'n');
    assert("redo"@.len() == 4);
    assert("redo"@[0] == 'r');
    assert("redo"@[1] == 'e');
    assert("redo"@[2] == 'd');
    assert("redo"@[3] == 'o');
    assert("and"@.len() == 3);
    assert("and"@[0] == 'a');
    assert("and"@[1] == 'n');
    assert("and"@[2] == 'd');
    assert("begin"@.len() == 5);
    assert("begin"@[0] == 'b');
    assert("begin"@[1] == 'e');
    assert("begin"@[2] == 'g');
    assert("begin"@[3] == 'i');
    assert("begin"@[4] == 'n');
    assert("__LINE__"@.len() == 8);
    assert("__LINE__"@[0] == '_');
    assert("__LINE__"@[1] == '_');
    assert("__LINE__"@[2] == 'L');
    assert("__LINE__"@[3] == 'I');
    assert("__LINE__"@[4] == 'N');
    assert("__LINE__"@[5] == 'E');
    assert("__LINE__"@[6] == '_');
    assert("__LINE__"@[7] == '_');
    assert("class"@.len() == 5);
    assert("class"@[0] == 'c');
    assert("class"@[1] == 'l');
    assert("class"@[2] == 'a');
    assert("class"@[3] == 's');
    assert("class"@[4] == 's');
    assert("__FILE__"@.len() == 8);
    assert("__FILE__"@[0] == '_');
    assert("__FILE__"@[1] == '_');
    assert("__FILE__"@[2] == 'F');
    assert("__FILE__"@[3] == 'I');
    assert("__FILE__"@[4] == 'L');
    assert("__FILE__"@[5] == 'E');
    assert("__FILE__"@[6] == '_');
    assert("__FILE__"@[7] == '_');
    assert("END"@.len() == 3);
    assert("END"@[0] == 'E');
    assert("END"@[1] == 'N');
    assert("END"@[2] == 'D');
    assert("BEGIN"@.len() == 5);
    assert("BEGIN"@[0] == 'B');
    assert("BEGIN"@[1] == 'E');
    assert("BEGIN"@[2] == 'G');
    assert("BEGIN"@[3] == 'I');
    assert("BEGIN"@[4] == 'N');
    assert("while"@.len() == 5);
    assert("while"@[0] == 'w');
    assert("while"@[1] == 'h');
    assert("while"@[2] == 'i');
    assert("while"@[3] == 'l');
    assert("while"@[4] == 'e');
    assert("alias"@.len() == 5);
    assert("alias"@[0] == 'a');
    assert("alias"@[1] == 'l');
    assert("alias"@[2] == 'i');
    assert("alias"@[3] == 'a');
    assert("alias"@[4] == 's');
    assert("__ENCODING__"@.len() == 12);
    assert("__ENCODING__"@[0] == '_');
    assert("__ENCODING__"@[1] == '_');
    assert("__ENCODING__"@[2] == 'E');
    assert("__ENCODING__"@[3] == 'N');
    assert("__ENCODING__"@[4] == 'C');
    assert("__ENCODING__"@[5] == 'O');
    assert("__ENCODING__"@[6] == 'D');
    assert("__ENCODING__"@[7] == 'I');
    assert("__ENCODING__"@[8] == 'N');
    assert("__ENCODING__"@[9] == 'G');
    assert("__ENCODING__"@[10] == '_');
    assert("__ENCODING__"@[11] == '_');
}

/// Law: a word that the table recognizes is the canonical string of the
/// keyword it maps to; a recognized lexeme is stored exactly as written.
pub proof fn lemma_keyword_of_inverse(s: Seq<char>)
    requires
        spec_keyword_of(s) != KeywordSymbol::ILLEGAL,
    ensures
        spec_keyword_str(spec_keyword_of(s)) == s,
{
}

/// Law: looking an operator's canonical string back up in the table yields
/// the same operator; the operator mapping is bidirectional.
pub proof fn lemma_operator_round_trip(sym: OperatorSymbol)
    requires
        sym != OperatorSymbol::ILLEGAL,
    ensures
        spec_operator_of(spec_operator_str(sym)) == sym,
{
    reveal_strlit("=");
    reveal_strlit("+");
    reveal_strlit("+=");
    reveal_strlit("-");
    reveal_strlit("-=");
    reveal_strlit("!");
    reveal_strlit("*");
    reveal_strlit("**");
    reveal_strlit("/");
    reveal_strlit(".");
    reveal_strlit("&&");
    reveal_strlit("||");
    reveal_strlit("||=");
    reveal_strlit("%");
    reveal_strlit("=~");
    reveal_strlit("<");
    reveal_strlit("<=");
    reveal_strlit(">");
    reveal_strlit(">=");
    reveal_strlit("<=>");
    reveal_strlit("==");
    reveal_strlit("!=");
    reveal_strlit("..");
    reveal_strlit("::");
    assert("="@.len() == 1);
    assert("="@[0] == '=');
    assert("+"@.len() == 1);
    assert("+"@[0] == '+');
    assert("+="@.len() == 2);
    assert("+="@[0] == '+');
    assert("+="@[1] == '=');
    assert("-"@.len() == 1);
    assert("-"@[0] == '-');
    assert("-="@.len() == 2);
    assert("-="@[0] == '-');
    assert("-="@[1] == '=');
    assert("!"@.len() == 1);
    assert("!"@[0] == '!');
    assert("*"@.len() == 1);
    assert("*"@[0] == '*');
    assert("**"@.len() == 2);
    assert("**"@[0] == '*');
    assert("**"@[1] == '*');
    assert("/"@.len() == 1);
    assert("/"@[0] == '/');
    assert("."@.len() == 1);
    assert("."@[0] == '.');
    assert("&&"@.len() == 2);
    assert("&&"@[0] == '&');
    assert("&&"@[1] == '&');
    assert("||"@.len() == 2);
    assert("||"@[0] == '|');
    assert("||"@[1] == '|');
    assert("||="@.len() == 3);
    assert("||="@[0] == '|');
    assert("||="@[1] == '|');
    assert("||="@[2] == '=');
    assert("%"@.len() == 1);
    assert("%"@[0] == '%');
    assert("=~"@.len() == 2);
    assert("=~"@[0] == '=');
    assert("=~"@[1] == '~');
    assert("<"@.len() == 1);
    assert("<"@[0] == '<');
    assert("<="@.len() == 2);
    assert("<="@[0] == '<');
    assert("<="@[1] == '=');
    assert(">"@.len() == 1);
    assert(">"@[0] == '>');
    assert(">="@.len() == 2);
    assert(">="@[0] == '>');
    assert(">="@[1] == '=');
    assert("<=>"@.len() == 3);
    assert("<=>"@[0] == '<');
    assert("<=>"@[1] == '=');
    assert("<=>"@[2] == '>');
    assert("=="@.len() == 2);
    assert("=="@[0] == '=');
    assert("=="@[1] == '=');
    assert("!="@.len() == 2);
    assert("!="@[0] == '!');
    assert("!="@[1] == '=');
    assert(".."@.len() == 2);
    assert(".."@[0] == '.');
    assert(".."@[1] == '.');
    assert("::"@.len() == 2);
    assert("::"@[0] == ':');
    assert("::"@[1] == ':');
}

/// Law: an operator run that the table recognizes is the canonical string of
/// the operator it maps to.
pub proof fn lemma_operator_of_inverse(s: Seq<char>)
    requires
        spec_operator_of(s) != OperatorSymbol::ILLEGAL,
    ensures
        spec_operator_str(spec_operator_of(s)) == s,
{
}

/// Law: looking a separator's canonical string back up in the table yields
/// the same separator; the separator mapping is bidirectional.
pub proof fn lemma_separator_round_trip(sym: SeparatorSymbol)
    requires
        sym != SeparatorSymbol::ILLEGAL,
    ensures
        spec_separator_of(spec_separator_str(sym)) == sym,
{
    reveal_strlit(",");
    reveal_strlit(";");
    reveal_strlit(":");
    reveal_strlit("|");
    reveal_strlit("(");
    reveal_strlit(")");
    reveal_strlit("{");
    reveal_strlit("}");
    reveal_strlit("[");
    reveal_strlit("]");
    assert(","@.len() == 1);
    assert(","@[0] == ',');
    assert(";"@.len() == 1);
    assert(";"@[0] == ';');
    assert(":"@.len() == 1);
    assert(":"@[0] == ':');
    assert("|"@.len() == 1);
    assert("|"@[0] == '|');
    assert("("@.len() == 1);
    assert("("@[0] == '(');
    assert(")"@.len() == 1);
    assert(")"@[0] == ')');
    assert("{"@.len() == 1);
    assert("{"@[0] == '{');
    assert("}"@.len() == 1);
    assert("}"@[0] == '}');
    assert("["@.len() == 1);
    assert("["@[0] == '[');
    assert("]"@.len() == 1);
    assert("]"@[0] == ']');
}

/// Law: a character that the table recognizes is the canonical string of the
/// separator it maps to.
pub proof fn lemma_separator_of_inverse(s: Seq<char>)
    requires
        spec_separator_of(s) != SeparatorSymbol::ILLEGAL,
    ensures
        spec_separator_str(spec_separator_of(s)) == s,
{
}

} // verus!
