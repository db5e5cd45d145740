use lexer::input_stream::InputStream;
use lexer::lexicon::IntoToken;
use lexer::lexicon::KeywordSymbol;
use lexer::lexicon::OperatorSymbol;
use lexer::lexicon::SeparatorSymbol;
use lexer::token_stream::TokenStream;

fn single(src: &str) -> (String, String) {
    let text = String::from(src);
    let is = InputStream::from_string(&text);
    let mut ts = TokenStream::create(is);
    let tok = ts.read_next().unwrap().expect("expected a token");
    assert!(ts.read_next().unwrap().is_none(), "expected exactly one token for {:?}", src);
    (tok.data.get_symbol(), tok.data.get_value().clone())
}

const KEYWORDS: [&str; 38] = [
    "end", "else", "case", "ensure", "module", "elsif", "def", "rescue", "not", "then",
    "yield", "for", "self", "false", "retry", "return", "true", "if", "defined?", "super",
    "undef", "break", "in", "do", "nil", "until", "unless", "or", "next", "when", "redo",
    "and", "begin", "class", "END", "BEGIN", "while", "alias",
];

#[test]
fn every_letter_keyword_tokenizes_to_itself() {
    for kw in KEYWORDS.iter() {
        let (sym, val) = single(kw);
        assert_eq!(sym, format!("keyword::{}", kw), "for keyword {:?}", kw);
        assert_eq!(val, *kw);
    }
}

#[test]
fn underscore_keywords_never_start_a_lexeme() {
    // the three reserved words beginning with an underscore are in the
    // table, but an underscore starts no lexical family, so text beginning
    // with one aborts
    for kw in ["__LINE__", "__FILE__", "__ENCODING__"].iter() {
        let text = String::from(*kw);
        let is = InputStream::from_string(&text);
        let mut ts = TokenStream::create(is);
        let err = ts.read_next().unwrap_err();
        assert_eq!(err.code, '_' as u32);
    }
}

#[test]
fn keyword_table_lookup_is_bidirectional() {
    for kw in ["end", "defined?", "__LINE__", "__FILE__", "__ENCODING__", "END", "BEGIN"].iter() {
        let sym = KeywordSymbol::from_string(&String::from(*kw));
        assert_ne!(sym, KeywordSymbol::ILLEGAL, "for keyword {:?}", kw);
        assert_eq!(sym.to_str(), *kw);
    }
    assert_eq!(
        KeywordSymbol::from_string(&String::from("nilly")),
        KeywordSymbol::ILLEGAL
    );
}

const OPERATORS: [&str; 24] = [
    "=", "+", "+=", "-", "-=", "!", "*", "**", "/", ".", "&&", "||", "||=", "%", "=~", "<",
    "<=", ">", ">=", "<=>", "==", "!=", "..", "::",
];

#[test]
fn every_operator_tokenizes_to_itself() {
    for op in OPERATORS.iter() {
        let (sym, val) = single(op);
        assert_eq!(sym, format!("operator::{}", op), "for operator {:?}", op);
        assert_eq!(val, *op);
    }
}

#[test]
fn operator_table_lookup_is_bidirectional() {
    for op in OPERATORS.iter() {
        let sym = OperatorSymbol::from_string(&String::from(*op));
        assert_ne!(sym, OperatorSymbol::ILLEGAL, "for operator {:?}", op);
        assert_eq!(sym.to_str(), *op);
    }
    assert_eq!(
        OperatorSymbol::from_string(&String::from("&")),
        OperatorSymbol::ILLEGAL
    );
}

const SEPARATORS: [&str; 10] = [",", ";", ":", "|", "(", ")", "{", "}", "[", "]"];

#[test]
fn every_separator_tokenizes_to_itself() {
    for sp in SEPARATORS.iter() {
        let (sym, val) = single(sp);
        assert_eq!(sym, format!("separator::{}", sp), "for separator {:?}", sp);
        assert_eq!(val, *sp);
    }
}

#[test]
fn separator_table_lookup_is_bidirectional() {
    for sp in SEPARATORS.iter() {
        let sym = SeparatorSymbol::from_string(&String::from(*sp));
        assert_ne!(sym, SeparatorSymbol::ILLEGAL, "for separator {:?}", sp);
        assert_eq!(sym.to_str(), *sp);
    }
    assert_eq!(
        SeparatorSymbol::from_string(&String::from("&")),
        SeparatorSymbol::ILLEGAL
    );
}

#[test]
fn illegal_symbols_present_as_illegal() {
    assert_eq!(KeywordSymbol::ILLEGAL.to_str(), "ILLEGAL");
    assert_eq!(OperatorSymbol::ILLEGAL.to_str(), "ILLEGAL");
    assert_eq!(SeparatorSymbol::ILLEGAL.to_str(), "ILLEGAL");
}

#[test]
fn category_strings_carry_family_and_subkind() {
    let (sym, _) = single("# c");
    assert_eq!(sym, "identifier::comment");
    let (sym, _) = single("\"s\"");
    assert_eq!(sym, "identifier::string");
    let (sym, _) = single("7");
    assert_eq!(sym, "identifier::integer");
    let (sym, _) = single("7.0");
    assert_eq!(sym, "identifier::float");
    let (sym, _) = single("x");
    assert_eq!(sym, "identifier::variable");
}
