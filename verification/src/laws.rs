//! The laws the tokenizer obeys, stated over the same specification
//! functions that the contracts of [`crate::token_stream`] use: what a
//! single table entry tokenizes to, what whitespace-only input does, and
//! that scanning partitions the source text without dropping or duplicating
//! a character.

use vstd::prelude::*;

use crate::lexicon::KeywordSymbol;
use crate::lexicon::OperatorSymbol;
use crate::lexicon::SeparatorSymbol;
use crate::lexicon::lemma_keyword_of_inverse;
use crate::lexicon::lemma_keyword_round_trip;
use crate::lexicon::lemma_operator_of_inverse;
use crate::lexicon::lemma_operator_round_trip;
use crate::lexicon::lemma_separator_of_inverse;
use crate::lexicon::lemma_separator_round_trip;
use crate::lexicon::spec_keyword_str;
use crate::lexicon::spec_operator_str;
use crate::lexicon::spec_separator_str;
use crate::scan::CharClass;
use crate::scan::is_fatal_char;
use crate::scan::is_identifier_char;
use crate::scan::is_letter_char;
use crate::scan::is_operator_char;
use crate::scan::is_string_start_char;
use crate::scan::is_whitespace_char;
use crate::scan::lemma_string_body_prefix;
use crate::scan::lemma_take_class_all;
use crate::scan::lemma_take_class_prefix;
use crate::scan::string_body;
use crate::scan::take_class;
use crate::token_stream::TokenData;
use crate::token_stream::consumed_of;
use crate::token_stream::lexeme_of;
use crate::token_stream::token_data_matches;

verus! {

/// Law: whitespace-only (or empty) input is skipped whole and leaves
/// nothing: together with `read_next`'s contract, such input produces zero
/// tokens and the immediate end-of-stream signal.
pub proof fn lemma_whitespace_only_ends_stream(s: Seq<char>)
    requires
        forall|i: int| 0 <= i < s.len() ==> is_whitespace_char(s[i]),
    ensures
        take_class(CharClass::Whitespace, s) == s,
        s.skip(take_class(CharClass::Whitespace, s).len() as int) == Seq::<char>::empty(),
{
    lemma_take_class_all(CharClass::Whitespace, s);
    assert(s.skip(s.len() as int) =~= Seq::<char>::empty());
}

/// Law: any reserved word that begins with a letter, given to the tokenizer
/// alone, scans as exactly one keyword token whose subkind is that keyword
/// and whose lexeme is the word itself, consuming the whole input. (The
/// three reserved words that begin with an underscore never reach the
/// keyword reader: an underscore starts no lexical family, so a text
/// beginning with one is fatal.)
pub proof fn lemma_keyword_alone_tokenizes(sym: KeywordSymbol)
    requires
        sym != KeywordSymbol::ILLEGAL,
        is_letter_char(spec_keyword_str(sym)[0]),
    ensures
        ({
            let s = spec_keyword_str(sym);
            &&& s.len() > 0
            &&& take_class(CharClass::Whitespace, s) == Seq::<char>::empty()
            &&& !is_fatal_char(s[0])
            &&& lexeme_of(s) == s
            &&& consumed_of(s) == s.len()
            &&& forall|d: TokenData|
                #[trigger] token_data_matches(d, s) ==> (d matches TokenData::Keyword(kw)
                    && kw.symbol == sym && kw.value@ == s)
        }),
{
    let s = spec_keyword_str(sym);
    reveal_strlit("end");
    reveal_strlit("else");
    reveal_strlit("case");
    reveal_strlit("ensure");
    reveal_strlit("module");
    reveal_strlit("elsif");
    reveal_strlit("def");
    reveal_strlit("rescue");
    reveal_strlit("not");
    reveal_strlit("then");
    reveal_strlit("yield");
    reveal_strlit("for");
    reveal_strlit("self");
    reveal_strlit("false");
    reveal_strlit("retry");
    reveal_strlit("return");
    reveal_strlit("true");
    reveal_strlit("if");
    reveal_strlit("defined?");
    reveal_strlit("super");
    reveal_strlit("undef");
    reveal_strlit("break");
    reveal_strlit("in");
    reveal_strlit("do");
    reveal_strlit("nil");
    reveal_strlit("until");
    reveal_strlit("unless");
    reveal_strlit("or");
    reveal_strlit("next");
    reveal_strlit("when");
    reveal_strlit("redo");
    reveal_strlit("and");
    reveal_strlit("begin");
    reveal_strlit("__LINE__");
    reveal_strlit("class");
    reveal_strlit("__FILE__");
    reveal_strlit("END");
    reveal_strlit("BEGIN");
    reveal_strlit("while");
    reveal_strlit("alias");
    reveal_strlit("__ENCODING__");
    assert("end"@ =~= seq!['e', 'n', 'd']);
    assert(forall|i: int| 0 <= i < "end"@.len() ==> is_identifier_char(#[trigger] "end"@[i]));
    assert("else"@ =~= seq!['e', 'l', 's', 'e']);
    assert(forall|i: int| 0 <= i < "else"@.len() ==> is_identifier_char(#[trigger] "else"@[i]));
    assert("case"@ =~= seq!['c', 'a', 's', 'e']);
    assert(forall|i: int| 0 <= i < "case"@.len() ==> is_identifier_char(#[trigger] "case"@[i]));
    assert("ensure"@ =~= seq!['e', 'n', 's', 'u', 'r', 'e']);
    assert(forall|i: int| 0 <= i < "ensure"@.len() ==> is_identifier_char(#[trigger] "ensure"@[i]));
    assert("module"@ =~= seq!['m', 'o', 'd', 'u', 'l', 'e']);
    assert(forall|i: int| 0 <= i < "module"@.len() ==> is_identifier_char(#[trigger] "module"@[i]));
    assert("elsif"@ =~= seq!['e', 'l', 's', 'i', 'f']);
    assert(forall|i: int| 0 <= i < "elsif"@.len() ==> is_identifier_char(#[trigger] "elsif"@[i]));
    assert("def"@ =~= seq!['d', 'e', 'f']);
    assert(forall|i: int| 0 <= i < "def"@.len() ==> is_identifier_char(#[trigger] "def"@[i]));
    assert("rescue"@ =~= seq!['r', 'e', 's', 'c', 'u', 'e']);
    assert(forall|i: int| 0 <= i < "rescue"@.len() ==> is_identifier_char(#[trigger] "rescue"@[i]));
    assert("not"@ =~= seq!['n', 'o', 't']);
    assert(forall|i: int| 0 <= i < "not"@.len() ==> is_identifier_char(#[trigger] "not"@[i]));
    assert("then"@ =~= seq!['t', 'h', 'e', 'n']);
    assert(forall|i: int| 0 <= i < "then"@.len() ==> is_identifier_char(#[trigger] "then"@[i]));
    assert("yield"@ =~= seq!['y', 'i', 'e', 'l', 'd']);
    assert(forall|i: int| 0 <= i < "yield"@.len() ==> is_identifier_char(#[trigger] "yield"@[i]));
    assert("for"@ =~= seq!['f', 'o', 'r']);
    assert(forall|i: int| 0 <= i < "for"@.len() ==> is_identifier_char(#[trigger] "for"@[i]));
    assert("self"@ =~= seq!['s', 'e', 'l', 'f']);
    assert(forall|i: int| 0 <= i < "self"@.len() ==> is_identifier_char(#[trigger] "self"@[i]));
    assert("false"@ =~= seq!['f', 'a', 'l', 's', 'e']);
    assert(forall|i: int| 0 <= i < "false"@.len() ==> is_identifier_char(#[trigger] "false"@[i]));
    assert("retry"@ =~= seq!['r', 'e', 't', 'r', 'y']);
    assert(forall|i: int| 0 <= i < "retry"@.len() ==> is_identifier_char(#[trigger] "retry"@[i]));
    assert("return"@ =~= seq!['r', 'e', 't', 'u', 'r', 'n']);
    assert(forall|i: int| 0 <= i < "return"@.len() ==> is_identifier_char(#[trigger] "return"@[i]));
    assert("true"@ =~= seq!['t', 'r', 'u', 'e']);
    assert(forall|i: int| 0 <= i < "true"@.len() ==> is_identifier_char(#[trigger] "true"@[i]));
    assert("if"@ =~= seq!['i', 'f']);
    assert(forall|i: int| 0 <= i < "if"@.len() ==> is_identifier_char(#[trigger] "if"@[i]));
    assert("defined?"@ =~= seq!['d', 'e', 'f', 'i', 'n', 'e', 'd', '?']);
    assert(forall|i: int| 0 <= i < "defined?"@.len() ==> is_identifier_char(#[trigger] "defined?"@[i]));
    assert("super"@ =~= seq!['s', 'u', 'p', 'e', 'r']);
    assert(forall|i: int| 0 <= i < "super"@.len() ==> is_identifier_char(#[trigger] "super"@[i]));
    assert("undef"@ =~= seq!['u', 'n', 'd', 'e', 'f']);
    assert(forall|i: int| 0 <= i < "undef"@.len() ==> is_identifier_char(#[trigger] "undef"@[i]));
    assert("break"@ =~= seq!['b', 'r', 'e', 'a', 'k']);
    assert(forall|i: int| 0 <= i < "break"@.len() ==> is_identifier_char(#[trigger] "break"@[i]));
    assert("in"@ =~= seq!['i', 'n']);
    assert(forall|i: int| 0 <= i < "in"@.len() ==> is_identifier_char(#[trigger] "in"@[i]));
    assert("do"@ =~= seq!['d', 'o']);
    assert(forall|i: int| 0 <= i < "do"@.len() ==> is_identifier_char(#[trigger] "do"@[i]));
    assert("nil"@ =~= seq!['n', 'i', 'l']);
    assert(forall|i: int| 0 <= i < "nil"@.len() ==> is_identifier_char(#[trigger] "nil"@[i]));
    assert("until"@ =~= seq!['u', 'n', 't', 'i', 'l']);
    assert(forall|i: int| 0 <= i < "until"@.len() ==> is_identifier_char(#[trigger] "until"@[i]));
    assert("unless"@ =~= seq!['u', 'n', 'l', 'e', 's', 's']);
    assert(forall|i: int| 0 <= i < "unless"@.len() ==> is_identifier_char(#[trigger] "unless"@[i]));
    assert("or"@ =~= seq!['o', 'r']);
    assert(forall|i: int| 0 <= i < "or"@.len() ==> is_identifier_char(#[trigger] "or"@[i]));
    assert("next"@ =~= seq!['n', 'e', 'x', 't']);
    assert(forall|i: int| 0 <= i < "next"@.len() ==> is_identifier_char(#[trigger] "next"@[i]));
    assert("when"@ =~= seq!['w', 'h', 'e', 'n']);
    assert(forall|i: int| 0 <= i < "when"@.len() ==> is_identifier_char(#[trigger] "when"@[i]));
    assert("redo"@ =~= seq!['r', 'e', 'd', 'o']);
    assert(forall|i: int| 0 <= i < "redo"@.len() ==> is_identifier_char(#[trigger] "redo"@[i]));
    assert("and"@ =~= seq!['a', 'n', 'd']);
    assert(forall|i: int| 0 <= i < "and"@.len() ==> is_identifier_char(#[trigger] "and"@[i]));
    assert("begin"@ =~= seq!['b', 'e', 'g', 'i', 'n']);
    assert(forall|i: int| 0 <= i < "begin"@.len() ==> is_identifier_char(#[trigger] "begin"@[i]));
    assert("__LINE__"@ =~= seq!['_', '_', 'L', 'I', 'N', 'E', '_', '_']);
    assert(forall|i: int| 0 <= i < "__LINE__"@.len() ==> is_identifier_char(#[trigger] "__LINE__"@[i]));
    assert("class"@ =~= seq!['c', 'l', 'a', 's', 's']);
    assert(forall|i: int| 0 <= i < "class"@.len() ==> is_identifier_char(#[trigger] "class"@[i]));
    assert("__FILE__"@ =~= seq!['_', '_', 'F', 'I', 'L', 'E', '_', '_']);
    assert(forall|i: int| 0 <= i < "__FILE__"@.len() ==> is_identifier_char(#[trigger] "__FILE__"@[i]));
    assert("END"@ =~= seq!['E', 'N', 'D']);
    assert(forall|i: int| 0 <= i < "END"@.len() ==> is_identifier_char(#[trigger] "END"@[i]));
    assert("BEGIN"@ =~= seq!['B', 'E', 'G', 'I', 'N']);
    assert(forall|i: int| 0 <= i < "BEGIN"@.len() ==> is_identifier_char(#[trigger] "BEGIN"@[i]));
    assert("while"@ =~= seq!['w', 'h', 'i', 'l', 'e']);
    assert(forall|i: int| 0 <= i < "while"@.len() ==> is_identifier_char(#[trigger] "while"@[i]));
    assert("alias"@ =~= seq!['a', 'l', 'i', 'a', 's']);
    assert(forall|i: int| 0 <= i < "alias"@.len() ==> is_identifier_char(#[trigger] "alias"@[i]));
    assert("__ENCODING__"@ =~= seq!['_', '_', 'E', 'N', 'C', 'O', 'D', 'I', 'N', 'G', '_', '_']);
    assert(forall|i: int| 0 <= i < "__ENCODING__"@.len() ==> is_identifier_char(#[trigger] "__ENCODING__"@[i]));
    lemma_take_class_all(CharClass::IdentifierPart, s);
    lemma_keyword_round_trip(sym);
}

/// Law: any operator form, given to the tokenizer alone, scans by maximal
/// munch as exactly one operator token whose subkind is that form and whose
/// lexeme is the form itself, consuming the whole input; a two-character
/// form is never split into two shorter tokens.
pub proof fn lemma_operator_alone_tokenizes(sym: OperatorSymbol)
    requires
        sym != OperatorSymbol::ILLEGAL,
    ensures
        ({
            let s = spec_operator_str(sym);
            &&& s.len() > 0
            &&& take_class(CharClass::Whitespace, s) == Seq::<char>::empty()
            &&& !is_fatal_char(s[0])
            &&& lexeme_of(s) == s
            &&& consumed_of(s) == s.len()
            &&& forall|d: TokenData|
                #[trigger] token_data_matches(d, s) ==> (d matches TokenData::Operator(op)
                    && op.symbol == sym && op.value@ == s)
        }),
{
    let s = spec_operator_str(sym);
    reveal_strlit("=");
    reveal_strlit("+");
    reveal_strlit("+=");
    reveal_strlit("-");
    reveal_strlit("-=");
    reveal_strlit("!");
    reveal_strlit("*");
    reveal_strlit("**");
    reveal_strlit("/");
    reveal_strlit(".");
    reveal_strlit("&&");
    reveal_strlit("||");
    reveal_strlit("||=");
    reveal_strlit("%");
    reveal_strlit("=~");
    reveal_strlit("<");
    reveal_strlit("<=");
    reveal_strlit(">");
    reveal_strlit(">=");
    reveal_strlit("<=>");
    reveal_strlit("==");
    reveal_strlit("!=");
    reveal_strlit("..");
    reveal_strlit("::");
    assert("="@ =~= seq!['=']);
    assert(forall|i: int| 0 <= i < "="@.len() ==> is_operator_char(#[trigger] "="@[i]));
    assert("+"@ =~= seq!['+']);
    assert(forall|i: int| 0 <= i < "+"@.len() ==> is_operator_char(#[trigger] "+"@[i]));
    assert("+="@ =~= seq!['+', '=']);
    assert(forall|i: int| 0 <= i < "+="@.len() ==> is_operator_char(#[trigger] "+="@[i]));
    assert("-"@ =~= seq!['-']);
    assert(forall|i: int| 0 <= i < "-"@.len() ==> is_operator_char(#[trigger] "-"@[i]));
    assert("-="@ =~= seq!['-', '=']);
    assert(forall|i: int| 0 <= i < "-="@.len() ==> is_operator_char(#[trigger] "-="@[i]));
    assert("!"@ =~= seq!['!']);
    assert(forall|i: int| 0 <= i < "!"@.len() ==> is_operator_char(#[trigger] "!"@[i]));
    assert("*"@ =~= seq!['*']);
    assert(forall|i: int| 0 <= i < "*"@.len() ==> is_operator_char(#[trigger] "*"@[i]));
    assert("**"@ =~= seq!['*', '*']);
    assert(forall|i: int| 0 <= i < "**"@.len() ==> is_operator_char(#[trigger] "**"@[i]));
    assert("/"@ =~= seq!['/']);
    assert(forall|i: int| 0 <= i < "/"@.len() ==> is_operator_char(#[trigger] "/"@[i]));
    assert("."@ =~= seq!['.']);
    assert(forall|i: int| 0 <= i < "."@.len() ==> is_operator_char(#[trigger] "."@[i]));
    assert("&&"@ =~= seq!['&', '&']);
    assert(forall|i: int| 0 <= i < "&&"@.len() ==> is_operator_char(#[trigger] "&&"@[i]));
    assert("||"@ =~= seq!['|', '|']);
    assert(forall|i: int| 0 <= i < "||"@.len() ==> is_operator_char(#[trigger] "||"@[i]));
    assert("||="@ =~= seq!['|', '|', '=']);
    assert(forall|i: int| 0 <= i < "||="@.len() ==> is_operator_char(#[trigger] "||="@[i]));
    assert("%"@ =~= seq!['%']);
    assert(forall|i: int| 0 <= i < "%"@.len() ==> is_operator_char(#[trigger] "%"@[i]));
    assert("=~"@ =~= seq!['=', '~']);
    assert(forall|i: int| 0 <= i < "=~"@.len() ==> is_operator_char(#[trigger] "=~"@[i]));
    assert("<"@ =~= seq!['<']);
    assert(forall|i: int| 0 <= i < "<"@.len() ==> is_operator_char(#[trigger] "<"@[i]));
    assert("<="@ =~= seq!['<', '=']);
    assert(forall|i: int| 0 <= i < "<="@.len() ==> is_operator_char(#[trigger] "<="@[i]));
    assert(">"@ =~= seq!['>']);
    assert(forall|i: int| 0 <= i < ">"@.len() ==> is_operator_char(#[trigger] ">"@[i]));
    assert(">="@ =~= seq!['>', '=']);
    assert(forall|i: int| 0 <= i < ">="@.len() ==> is_operator_char(#[trigger] ">="@[i]));
    assert("<=>"@ =~= seq!['<', '=', '>']);
    assert(forall|i: int| 0 <= i < "<=>"@.len() ==> is_operator_char(#[trigger] "<=>"@[i]));
    assert("=="@ =~= seq!['=', '=']);
    assert(forall|i: int| 0 <= i < "=="@.len() ==> is_operator_char(#[trigger] "=="@[i]));
    assert("!="@ =~= seq!['!', '=']);
    assert(forall|i: int| 0 <= i < "!="@.len() ==> is_operator_char(#[trigger] "!="@[i]));
    assert(".."@ =~= seq!['.', '.']);
    assert(forall|i: int| 0 <= i < ".."@.len() ==> is_operator_char(#[trigger] ".."@[i]));
    assert("::"@ =~= seq![':', ':']);
    assert(forall|i: int| 0 <= i < "::"@.len() ==> is_operator_char(#[trigger] "::"@[i]));
    lemma_take_class_all(CharClass::OperatorPart, s);
    lemma_operator_round_trip(sym);
}

/// Law: any separator of the table, given to the tokenizer alone, scans as
/// exactly one separator token whose subkind is that separator, consuming
/// the whole input. The bar and the colon, which are also operator
/// characters, reach this result through the operator reader and its
/// one-character reclassification; every other separator character is read
/// directly.
pub proof fn lemma_separator_alone_tokenizes(sym: SeparatorSymbol)
    requires
        sym != SeparatorSymbol::ILLEGAL,
    ensures
        ({
            let s = spec_separator_str(sym);
            &&& s.len() > 0
            &&& take_class(CharClass::Whitespace, s) == Seq::<char>::empty()
            &&& !is_fatal_char(s[0])
            &&& lexeme_of(s) == s
            &&& consumed_of(s) == s.len()
            &&& forall|d: TokenData|
                #[trigger] token_data_matches(d, s) ==> (d matches TokenData::Separator(sp)
                    && sp.symbol == sym && sp.value@ == s)
        }),
{
    let s = spec_separator_str(sym);
    reveal_strlit(",");
    reveal_strlit(";");
    reveal_strlit(":");
    reveal_strlit("|");
    reveal_strlit("(");
    reveal_strlit(")");
    reveal_strlit("{");
    reveal_strlit("}");
    reveal_strlit("[");
    reveal_strlit("]");
    assert(","@ =~= seq![',']);
    assert(";"@ =~= seq![';']);
    assert(":"@ =~= seq![':']);
    assert("|"@ =~= seq!['|']);
    assert("("@ =~= seq!['(']);
    assert(")"@ =~= seq![')']);
    assert("{"@ =~= seq!['{']);
    assert("}"@ =~= seq!['}']);
    assert("["@ =~= seq!['[']);
    assert("]"@ =~= seq![']']);
    reveal_strlit("=");
    reveal_strlit("+");
    reveal_strlit("+=");
    reveal_strlit("-");
    reveal_strlit("-=");
    reveal_strlit("!");
    reveal_strlit("*");
    reveal_strlit("**");
    reveal_strlit("/");
    reveal_strlit(".");
    reveal_strlit("&&");
    reveal_strlit("||");
    reveal_strlit("||=");
    reveal_strlit("%");
    reveal_strlit("=~");
    reveal_strlit("<");
    reveal_strlit("<=");
    reveal_strlit(">");
    reveal_strlit(">=");
    reveal_strlit("<=>");
    reveal_strlit("==");
    reveal_strlit("!=");
    reveal_strlit("..");
    reveal_strlit("::");
    assert("="@ =~= seq!['=']);
    assert("+"@ =~= seq!['+']);
    assert("+="@ =~= seq!['+', '=']);
    assert("-"@ =~= seq!['-']);
    assert("-="@ =~= seq!['-', '=']);
    assert("!"@ =~= seq!['!']);
    assert("*"@ =~= seq!['*']);
    assert("**"@ =~= seq!['*', '*']);
    assert("/"@ =~= seq!['/']);
    assert("."@ =~= seq!['.']);
    assert("&&"@ =~= seq!['&', '&']);
    assert("||"@ =~= seq!['|', '|']);
    assert("||="@ =~= seq!['|', '|', '=']);
    assert("%"@ =~= seq!['%']);
    assert("=~"@ =~= seq!['=', '~']);
    assert("<"@ =~= seq!['<']);
    assert("<="@ =~= seq!['<', '=']);
    assert(">"@ =~= seq!['>']);
    assert(">="@ =~= seq!['>', '=']);
    assert("<=>"@ =~= seq!['<', '=', '>']);
    assert("=="@ =~= seq!['=', '=']);
    assert("!="@ =~= seq!['!', '=']);
    assert(".."@ =~= seq!['.', '.']);
    assert("::"@ =~= seq![':', ':']);

    lemma_separator_round_trip(sym);
    if sym == SeparatorSymbol::BAR || sym == SeparatorSymbol::COLON {
        lemma_take_class_all(CharClass::OperatorPart, s);
    } else {
        assert(lexeme_of(s) =~= s);
    }
}

/// Law: the source extent a token consumes reconstructs from its lexeme:
/// for a string token the extent is the opening quote, the lexeme, and the
/// closing quote where the text still has one; for every other token the
/// extent is the lexeme itself. The extent never runs past the text and is
/// never empty.
pub proof fn lemma_extent_reconstructs(r: Seq<char>)
    requires
        r.len() > 0,
        !is_fatal_char(r[0]),
    ensures
        1 <= consumed_of(r) <= r.len(),
        is_string_start_char(r[0]) ==> r.take(consumed_of(r) as int) == seq!['"'] + lexeme_of(r)
            + (if 1 + string_body(r.skip(1)).len() < r.len() {
            seq!['"']
        } else {
            Seq::<char>::empty()
        }),
        !is_string_start_char(r[0]) ==> r.take(consumed_of(r) as int) == lexeme_of(r),
{
    if is_string_start_char(r[0]) {
        lemma_string_body_prefix(r.skip(1));
        let b = string_body(r.skip(1)).len();
        if 1 + b < r.len() {
            assert(r.take(consumed_of(r) as int) =~= seq!['"'] + lexeme_of(r) + seq!['"']);
        } else {
            assert(r.take(consumed_of(r) as int) =~= seq!['"'] + lexeme_of(r)
                + Seq::<char>::empty());
        }
    } else {
        lemma_take_class_prefix(CharClass::CommentBody, r);
        lemma_take_class_prefix(CharClass::NumberPart, r);
        lemma_take_class_prefix(CharClass::IdentifierPart, r);
        lemma_take_class_prefix(CharClass::OperatorPart, r);
        assert(r.take(consumed_of(r) as int) =~= lexeme_of(r));
    }
}

/// The source text carved into the pieces that successive `read_next` calls
/// consume: a run of skipped whitespace, then the extent of the token read,
/// alternating until the rest of the text is whitespace only or its first
/// significant character is fatal.
pub open spec fn lex_chunks(s: Seq<char>) -> Seq<Seq<char>>
    decreases s.len(),
    via lex_chunks_decreases
{
    let ws = take_class(CharClass::Whitespace, s);
    let r1 = s.skip(ws.len() as int);
    if r1.len() == 0 || is_fatal_char(r1[0]) {
        seq![ws]
    } else {
        seq![ws, r1.take(consumed_of(r1) as int)] + lex_chunks(r1.skip(consumed_of(r1) as int))
    }
}

#[via_fn]
proof fn lex_chunks_decreases(s: Seq<char>) {
    lemma_take_class_prefix(CharClass::Whitespace, s);
    let ws = take_class(CharClass::Whitespace, s);
    let r1 = s.skip(ws.len() as int);
    if !(r1.len() == 0 || is_fatal_char(r1[0])) {
        lemma_extent_reconstructs(r1);
    }
}

/// The pieces of a carved text, put back together in order.
pub open spec fn concat_chunks(cs: Seq<Seq<char>>) -> Seq<char>
    decreases cs.len(),
{
    if cs.len() == 0 {
        Seq::<char>::empty()
    } else {
        cs[0] + concat_chunks(cs.skip(1))
    }
}

/// Law: for source text in which no character is fatal, the whitespace runs
/// and token extents that successive `read_next` calls consume partition
/// the text exactly: concatenated in order they rebuild it, so no character
/// is ever dropped or duplicated between whitespace skipping and lexeme
/// reading.
pub proof fn lemma_lexemes_partition_text(s: Seq<char>)
    requires
        forall|i: int| 0 <= i < s.len() ==> !is_fatal_char(s[i]),
    ensures
        concat_chunks(lex_chunks(s)) == s,
    decreases s.len(),
{
    reveal_with_fuel(concat_chunks, 4);
    lemma_take_class_prefix(CharClass::Whitespace, s);
    let ws = take_class(CharClass::Whitespace, s);
    let r1 = s.skip(ws.len() as int);
    if r1.len() == 0 {
        assert(concat_chunks(lex_chunks(s)) =~= ws);
        assert(ws =~= s);
    } else {
        assert(r1[0] == s[ws.len() as int]);
        lemma_extent_reconstructs(r1);
        let c = consumed_of(r1);
        let ext = r1.take(c as int);
        let rest = r1.skip(c as int);
        assert forall|i: int| 0 <= i < rest.len() implies !is_fatal_char(rest[i]) by {
            assert(rest[i] == s[ws.len() + c + i]);
        }
        lemma_lexemes_partition_text(rest);
        let chunks = lex_chunks(s);
        assert(chunks == seq![ws, ext] + lex_chunks(rest));
        assert(chunks[0] == ws);
        assert(chunks.skip(1) =~= seq![ext] + lex_chunks(rest));
        assert((seq![ext] + lex_chunks(rest)).skip(1) =~= lex_chunks(rest));
        assert(concat_chunks(chunks) == ws + (ext + concat_chunks(lex_chunks(rest))));
        assert(ws + (ext + rest) =~= s);
    }
}

/// Law: in every token the tokenizer can produce, a keyword, operator or
/// separator subkind other than `ILLEGAL` string-maps back to exactly the
/// stored lexeme; an `ILLEGAL` subkind leaves the lexeme preserved verbatim
/// by the same clauses of `token_data_matches`.
pub proof fn lemma_token_subkind_maps_back(d: TokenData, r: Seq<char>)
    requires
        r.len() > 0,
        token_data_matches(d, r),
    ensures
        d matches TokenData::Keyword(kw) ==> (kw.symbol != KeywordSymbol::ILLEGAL
            ==> spec_keyword_str(kw.symbol) == kw.value@),
        d matches TokenData::Operator(op) ==> (op.symbol != OperatorSymbol::ILLEGAL
            ==> spec_operator_str(op.symbol) == op.value@),
        d matches TokenData::Separator(sp) ==> (sp.symbol != SeparatorSymbol::ILLEGAL
            ==> spec_separator_str(sp.symbol) == sp.value@),
{
    let lx = lexeme_of(r);
    match d {
        TokenData::Keyword(kw) => {
            if kw.symbol != KeywordSymbol::ILLEGAL {
                lemma_keyword_of_inverse(lx);
            }
        },
        TokenData::Operator(op) => {
            if op.symbol != OperatorSymbol::ILLEGAL {
                lemma_operator_of_inverse(lx);
            }
        },
        TokenData::Separator(sp) => {
            if sp.symbol != SeparatorSymbol::ILLEGAL {
                lemma_separator_of_inverse(lx);
            }
        },
        TokenData::Identifier(_) => {
        },
    }
}

} // verus!
