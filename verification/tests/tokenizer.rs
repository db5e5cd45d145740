use lexer::input_stream::InputStream;
use lexer::lexicon::IntoToken;
use lexer::token_stream::Token;
use lexer::token_stream::TokenStream;

/// Collects every token of `src` as (category string, lexeme, line, col),
/// panicking if the run hits the fatal condition.
fn tokens_of(src: &str) -> Vec<(String, String, u32, u32)> {
    let text = String::from(src);
    let is = InputStream::from_string(&text);
    let mut ts = TokenStream::create(is);
    let mut out: Vec<(String, String, u32, u32)> = Vec::new();
    loop {
        match ts.read_next() {
            Ok(Some(t)) => {
                let sym = t.data.get_symbol();
                let val = t.data.get_value().clone();
                out.push((sym, val, t.line, t.col));
            }
            Ok(None) => break,
            Err(e) => panic!("unexpected fatal character {} at {}:{}", e.code, e.line, e.col),
        }
    }
    out
}

fn single(src: &str) -> (String, String) {
    let toks = tokens_of(src);
    assert_eq!(toks.len(), 1, "expected one token for {:?}, got {:?}", src, toks);
    (toks[0].0.clone(), toks[0].1.clone())
}

#[test]
fn empty_input_ends_immediately() {
    assert_eq!(tokens_of("").len(), 0);
}

#[test]
fn whitespace_only_input_yields_no_tokens() {
    assert_eq!(tokens_of(" \t\r\n  \n").len(), 0);
}

#[test]
fn comment_token_keeps_marker_and_stops_at_newline() {
    let toks = tokens_of("# hi\nfoo");
    assert_eq!(toks.len(), 2);
    assert_eq!(toks[0].0, "identifier::comment");
    assert_eq!(toks[0].1, "# hi");
    assert_eq!(toks[1].0, "identifier::variable");
    assert_eq!(toks[1].1, "foo");
}

#[test]
fn string_token_keeps_escapes_verbatim() {
    let (sym, val) = single("\"a\\\"b\"");
    assert_eq!(sym, "identifier::string");
    assert_eq!(val, "a\\\"b");
}

#[test]
fn string_token_excludes_quotes() {
    let (sym, val) = single("\"hello\"");
    assert_eq!(sym, "identifier::string");
    assert_eq!(val, "hello");
}

#[test]
fn unterminated_string_runs_to_end_of_input() {
    let (sym, val) = single("\"abc");
    assert_eq!(sym, "identifier::string");
    assert_eq!(val, "abc");
}

#[test]
fn string_with_trailing_backslash_keeps_it() {
    let (sym, val) = single("\"a\\");
    assert_eq!(sym, "identifier::string");
    assert_eq!(val, "a\\");
}

#[test]
fn empty_string_literal() {
    let (sym, val) = single("\"\"");
    assert_eq!(sym, "identifier::string");
    assert_eq!(val, "");
}

#[test]
fn integer_token() {
    let (sym, val) = single("123");
    assert_eq!(sym, "identifier::integer");
    assert_eq!(val, "123");
}

#[test]
fn float_token() {
    let (sym, val) = single("1.5");
    assert_eq!(sym, "identifier::float");
    assert_eq!(val, "1.5");
}

#[test]
fn lenient_number_scanning_keeps_extra_dots() {
    let (sym, val) = single("1.2.3");
    assert_eq!(sym, "identifier::float");
    assert_eq!(val, "1.2.3");
}

#[test]
fn unknown_word_is_a_variable() {
    let (sym, val) = single("iffy");
    assert_eq!(sym, "identifier::variable");
    assert_eq!(val, "iffy");
}

#[test]
fn word_lookup_is_exact_not_prefix() {
    let toks = tokens_of("enda end");
    assert_eq!(toks[0].0, "identifier::variable");
    assert_eq!(toks[0].1, "enda");
    assert_eq!(toks[1].0, "keyword::end");
}

#[test]
fn identifier_may_hold_digits_and_special_chars() {
    let (sym, val) = single("ab1_c?");
    assert_eq!(sym, "identifier::variable");
    assert_eq!(val, "ab1_c?");
}

#[test]
fn maximal_munch_prefers_longest_operator() {
    let (sym, val) = single("<=");
    assert_eq!(sym, "operator::<=");
    assert_eq!(val, "<=");
}

#[test]
fn maximal_munch_between_variables() {
    let toks = tokens_of("a<=b");
    let kinds: Vec<&str> = toks.iter().map(|t| t.0.as_str()).collect();
    assert_eq!(
        kinds,
        vec!["identifier::variable", "operator::<=", "identifier::variable"]
    );
    assert_eq!(toks[1].1, "<=");
}

#[test]
fn unrecognized_multi_character_run_is_an_illegal_operator() {
    let (sym, val) = single("+!");
    assert_eq!(sym, "operator::ILLEGAL");
    assert_eq!(val, "+!");
}

#[test]
fn unrecognized_single_operator_character_becomes_illegal_separator() {
    let (sym, val) = single("&");
    assert_eq!(sym, "separator::ILLEGAL");
    assert_eq!(val, "&");
}

#[test]
fn bar_alone_reclassifies_as_separator() {
    let (sym, val) = single("|");
    assert_eq!(sym, "separator::|");
    assert_eq!(val, "|");
}

#[test]
fn colon_alone_is_a_separator_and_double_colon_an_operator() {
    let (sym, val) = single(":");
    assert_eq!(sym, "separator:::");
    assert_eq!(val, ":");
    let (sym2, val2) = single("::");
    assert_eq!(sym2, "operator::::");
    assert_eq!(val2, "::");
}

#[test]
fn match_operator_scans_as_one_run() {
    let (sym, val) = single("=~");
    assert_eq!(sym, "operator::=~");
    assert_eq!(val, "=~");
}

#[test]
fn fatal_character_aborts_with_code_and_position() {
    let text = String::from("foo @");
    let is = InputStream::from_string(&text);
    let mut ts = TokenStream::create(is);
    let first = ts.read_next().unwrap().unwrap();
    assert_eq!(first.data.get_value(), "foo");
    let err = ts.read_next().unwrap_err();
    assert_eq!(err.code, '@' as u32);
    assert_eq!(err.line, 1);
    assert_eq!(err.col, 5);
}

#[test]
fn control_character_is_fatal() {
    let text = String::from("\u{1}");
    let is = InputStream::from_string(&text);
    let mut ts = TokenStream::create(is);
    let err = ts.read_next().unwrap_err();
    assert_eq!(err.code, 1);
    assert_eq!(err.line, 1);
    assert_eq!(err.col, 1);
}

#[test]
fn leading_underscore_is_fatal() {
    let text = String::from("__LINE__");
    let is = InputStream::from_string(&text);
    let mut ts = TokenStream::create(is);
    let err = ts.read_next().unwrap_err();
    assert_eq!(err.code, '_' as u32);
}

#[test]
fn end_of_stream_signal_repeats() {
    let text = String::from("x");
    let is = InputStream::from_string(&text);
    let mut ts = TokenStream::create(is);
    assert!(ts.read_next().unwrap().is_some());
    assert!(ts.read_next().unwrap().is_none());
    assert!(ts.read_next().unwrap().is_none());
}

#[test]
fn token_positions_track_lines_and_columns() {
    let toks = tokens_of("if x\n  y = 1\n\"s\"");
    let pos: Vec<(u32, u32)> = toks.iter().map(|t| (t.2, t.3)).collect();
    assert_eq!(pos, vec![(1, 1), (1, 4), (2, 3), (2, 5), (2, 7), (3, 1)]);
}

#[test]
fn lexemes_and_whitespace_partition_the_source() {
    let src = "# note\ndef add(a, b)\n  a + b\nend\n\"x\\\"y\" 1.5 ..";
    let text = String::from(src);
    let is = InputStream::from_string(&text);
    let mut ts = TokenStream::create(is);
    let mut rebuilt = String::new();
    let mut consumed_chars = 0usize;
    let all: Vec<char> = src.chars().collect();
    loop {
        match ts.read_next() {
            Ok(Some(t)) => {
                let val = t.data.get_value();
                // locate the lexeme in the source, skipping the whitespace
                // run (and, for strings, the quotes) that precede it
                let val_chars: Vec<char> = val.chars().collect();
                while consumed_chars < all.len()
                    && all[consumed_chars..].iter().take(val_chars.len()).cloned().collect::<Vec<char>>()
                        != val_chars
                {
                    rebuilt.push(all[consumed_chars]);
                    consumed_chars += 1;
                }
                rebuilt.push_str(val);
                consumed_chars += val_chars.len();
            }
            Ok(None) => break,
            Err(e) => panic!("unexpected fatal character {}", e.code),
        }
    }
    while consumed_chars < all.len() {
        rebuilt.push(all[consumed_chars]);
        consumed_chars += 1;
    }
    assert_eq!(rebuilt, src);
}

#[test]
fn a_small_program_tokenizes_as_expected() {
    let toks = tokens_of("def f(a)\n  return a * 2\nend");
    let kinds: Vec<(&str, &str)> = toks.iter().map(|t| (t.0.as_str(), t.1.as_str())).collect();
    assert_eq!(
        kinds,
        vec![
            ("keyword::def", "def"),
            ("identifier::variable", "f"),
            ("separator::(", "("),
            ("identifier::variable", "a"),
            ("separator::)", ")"),
            ("keyword::return", "return"),
            ("identifier::variable", "a"),
            ("operator::*", "*"),
            ("identifier::integer", "2"),
            ("keyword::end", "end"),
        ]
    );
}

#[test]
fn token_owns_its_lexeme() {
    let tok: Token;
    {
        let text = String::from("value");
        let is = InputStream::from_string(&text);
        let mut ts = TokenStream::create(is);
        tok = ts.read_next().unwrap().unwrap();
    }
    assert_eq!(tok.data.get_value(), "value");
}
