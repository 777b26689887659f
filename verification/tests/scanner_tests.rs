use rugen::scanner::Scanner;

#[test]
fn new_scanner_starts_at_line_one_col_one() {
    let s = Scanner::new("abc");
    assert_eq!(s.pos(), 0);
    assert_eq!(s.line_num(), 1);
    assert_eq!(s.col_num(), 1);
    assert!(!s.is_done());
    assert_eq!(s.remaining(), "abc");
}

#[test]
fn advance_tracks_lines_and_columns() {
    let mut s = Scanner::new("ab\ncd");
    assert_eq!(s.advance(), Some('a'));
    assert_eq!(s.col_num(), 2);
    assert_eq!(s.advance(), Some('b'));
    assert_eq!(s.col_num(), 3);
    assert_eq!(s.advance(), Some('\n'));
    assert_eq!(s.line_num(), 2);
    assert_eq!(s.col_num(), 1);
    assert_eq!(s.pos(), 3);
    assert_eq!(s.advance(), Some('c'));
    assert_eq!(s.advance(), Some('d'));
    assert!(s.is_done());
    assert_eq!(s.advance(), None);
    assert_eq!(s.pos(), 5);
    assert_eq!(s.line_num(), 2);
    assert_eq!(s.col_num(), 3);
}

#[test]
fn empty_input_is_done() {
    let mut s = Scanner::new("");
    assert!(s.is_done());
    assert_eq!(s.peek(), None);
    assert_eq!(s.advance(), None);
    assert_eq!(s.remaining(), "");
    assert_eq!(s.read_ident(), "");
}

#[test]
fn peek_and_peek_str_do_not_move() {
    let s = Scanner::new("hello");
    assert_eq!(s.peek(), Some('h'));
    assert_eq!(s.peek_str(2), "he");
    assert_eq!(s.peek_str(0), "");
    assert_eq!(s.peek_str(100), "hello");
    assert_eq!(s.peek_str(-1), "hello");
    assert_eq!(s.pos(), 0);
}

#[test]
fn match_and_consume_str() {
    let mut s = Scanner::new("hello");
    assert!(s.match_str("he"));
    assert!(s.match_str(""));
    assert!(!s.match_str("hex"));
    assert!(!s.match_str("hello world"));
    assert_eq!(s.pos(), 0);
    assert!(!s.consume_str("x"));
    assert_eq!(s.pos(), 0);
    assert!(s.consume_str("hel"));
    assert_eq!(s.pos(), 3);
    assert_eq!(s.remaining(), "lo");
}

#[test]
fn expect_str_ok_and_error_message() {
    let mut s = Scanner::new("let x");
    assert_eq!(s.expect_str("let"), Ok(()));
    assert_eq!(s.pos(), 3);
    let err = s.expect_str("=").unwrap_err();
    assert_eq!(err, "expected \"=\" but found \" \" at line 1 col 4");
    assert_eq!(s.pos(), 3);
}

#[test]
fn expect_str_error_near_end_of_input() {
    let mut s = Scanner::new("a\nb");
    s.advance();
    s.advance();
    let err = s.expect_str("bcd").unwrap_err();
    assert_eq!(err, "expected \"bcd\" but found \"b\" at line 2 col 1");
}

#[test]
fn character_predicates() {
    let s = Scanner::new("_");
    assert!(s.is_alpha());
    assert!(s.is_alphanumeric());
    assert!(!s.is_digit());
    let s = Scanner::new("7");
    assert!(!s.is_alpha());
    assert!(s.is_alphanumeric());
    assert!(s.is_digit());
    let s = Scanner::new("\t");
    assert!(s.is_whitespace());
    let s = Scanner::new("é");
    assert!(!s.is_alpha());
    assert!(!s.is_alphanumeric());
    let s = Scanner::new("");
    assert!(!s.is_alpha() && !s.is_digit() && !s.is_whitespace() && !s.is_alphanumeric());
}

#[test]
fn skip_whitespace_crosses_lines() {
    let mut s = Scanner::new("  \t\n x");
    s.skip_whitespace();
    assert_eq!(s.peek(), Some('x'));
    assert_eq!(s.pos(), 5);
    assert_eq!(s.line_num(), 2);
    assert_eq!(s.col_num(), 2);
}

#[test]
fn skip_whitespace_inline_stops_at_newline() {
    let mut s = Scanner::new(" \t\r\nx");
    s.skip_whitespace_inline();
    assert_eq!(s.peek(), Some('\r'));
    assert_eq!(s.pos(), 2);
    assert_eq!(s.remaining(), "\r\nx");
    assert_eq!(s.line_num(), 1);
    let mut t = Scanner::new("\t  \nx");
    t.skip_whitespace_inline();
    assert_eq!(t.remaining(), "\nx");
}

#[test]
fn skip_line_comment_stops_before_newline() {
    let mut s = Scanner::new("// note\nnext");
    assert!(!s.skip_line_comment("#"));
    assert_eq!(s.pos(), 0);
    assert!(s.skip_line_comment("//"));
    assert_eq!(s.peek(), Some('\n'));
    assert_eq!(s.pos(), 7);
    let mut t = Scanner::new("# to the end");
    assert!(t.skip_line_comment("#"));
    assert!(t.is_done());
}

#[test]
fn skip_block_comment_consumes_close() {
    let mut s = Scanner::new("/* a\n b */c");
    assert!(!s.skip_block_comment("(*", "*)"));
    assert!(s.skip_block_comment("/*", "*/"));
    assert_eq!(s.remaining(), "c");
    assert_eq!(s.line_num(), 2);
    assert_eq!(s.col_num(), 6);
}

#[test]
fn skip_block_comment_is_not_nested() {
    let mut s = Scanner::new("/* /* x */ y */");
    assert!(s.skip_block_comment("/*", "*/"));
    assert_eq!(s.remaining(), " y */");
}

#[test]
fn skip_block_comment_unterminated_runs_to_end() {
    let mut s = Scanner::new("/* never closed");
    assert!(s.skip_block_comment("/*", "*/"));
    assert!(s.is_done());
}

#[test]
fn read_ident_reads_identifier() {
    let mut s = Scanner::new("foo_1 bar");
    assert_eq!(s.read_ident(), "foo_1");
    assert_eq!(s.peek(), Some(' '));
    let mut t = Scanner::new("1abc");
    assert_eq!(t.read_ident(), "");
    assert_eq!(t.pos(), 0);
    let mut u = Scanner::new("_x9");
    assert_eq!(u.read_ident(), "_x9");
    assert!(u.is_done());
}

#[test]
fn read_digits_reads_run() {
    let mut s = Scanner::new("123abc");
    assert_eq!(s.read_digits(), "123");
    assert_eq!(s.remaining(), "abc");
    assert_eq!(s.read_digits(), "");
}

#[test]
fn read_number_with_fraction() {
    let mut s = Scanner::new("3.14x");
    assert_eq!(s.read_number(), "3.14");
    assert_eq!(s.remaining(), "x");
}

#[test]
fn read_number_leaves_range_operator() {
    let mut s = Scanner::new("1..2");
    assert_eq!(s.read_number(), "1");
    assert_eq!(s.remaining(), "..2");
    let mut t = Scanner::new("7.");
    assert_eq!(t.read_number(), "7");
    assert_eq!(t.remaining(), ".");
}

#[test]
fn read_number_needs_leading_digits() {
    let mut s = Scanner::new(".5");
    assert_eq!(s.read_number(), "");
    assert_eq!(s.pos(), 0);
    let mut t = Scanner::new("1.2.3");
    assert_eq!(t.read_number(), "1.2");
    assert_eq!(t.remaining(), ".3");
    let mut u = Scanner::new("x1");
    assert_eq!(u.read_number(), "");
}

#[test]
fn read_line_stops_before_newline() {
    let mut s = Scanner::new("abc\ndef");
    assert_eq!(s.read_line(), "abc");
    assert_eq!(s.peek(), Some('\n'));
    s.advance();
    assert_eq!(s.read_line(), "def");
    assert!(s.is_done());
}

#[test]
fn read_until_str_leaves_terminator() {
    let mut s = Scanner::new("abc*/d");
    assert_eq!(s.read_until_str("*/"), "abc");
    assert_eq!(s.remaining(), "*/d");
    let mut t = Scanner::new("no end");
    assert_eq!(t.read_until_str("*/"), "no end");
    assert!(t.is_done());
    let mut u = Scanner::new("xyz");
    assert_eq!(u.read_until_str(""), "");
    assert_eq!(u.pos(), 0);
}

#[test]
fn read_quoted_handles_escapes() {
    let mut s = Scanner::new("\"a\\nb\\\"c\\\\\" rest");
    assert_eq!(s.read_quoted('"'), "a\nb\"c\\");
    assert_eq!(s.remaining(), " rest");
}

#[test]
fn read_quoted_unknown_escape_and_other_delimiter() {
    let mut s = Scanner::new("'x\\qy\\'z' t");
    assert_eq!(s.read_quoted('\''), "xqy'z");
    assert_eq!(s.remaining(), " t");
    let mut t = Scanner::new("'\\t\\r'");
    assert_eq!(t.read_quoted('\''), "\t\r");
    assert!(t.is_done());
}

#[test]
fn read_quoted_unterminated() {
    let mut s = Scanner::new("\"abc");
    assert_eq!(s.read_quoted('"'), "abc");
    assert!(s.is_done());
    let mut t = Scanner::new("\"ab\\");
    assert_eq!(t.read_quoted('"'), "ab");
    assert!(t.is_done());
}

#[test]
fn read_quoted_without_opening_delimiter() {
    let mut s = Scanner::new("ab\"c");
    assert_eq!(s.read_quoted('"'), "ab");
    assert_eq!(s.remaining(), "c");
}

#[test]
fn spans_record_position() {
    let mut s = Scanner::new("ab\ncd");
    let start = s.pos();
    let (l, c) = (s.line_num(), s.col_num());
    s.advance();
    s.advance();
    s.advance();
    let cur = s.current_span();
    assert_eq!((cur.start, cur.end, cur.line, cur.col), (3, 3, 2, 1));
    let sp = s.span_from(start, l, c);
    assert_eq!((sp.start, sp.end, sp.line, sp.col), (0, 3, 1, 1));
}

#[test]
fn multibyte_characters_count_as_one() {
    let mut s = Scanner::new("héllo");
    assert_eq!(s.advance(), Some('h'));
    assert_eq!(s.advance(), Some('é'));
    assert_eq!(s.pos(), 2);
    assert_eq!(s.col_num(), 3);
    assert_eq!(s.remaining(), "llo");
}

#[test]
fn consume_splits_rest_example() {
    let mut s = Scanner::new("keyword rest");
    let before = s.remaining();
    assert!(s.consume_str("keyword"));
    assert_eq!(format!("keyword{}", s.remaining()), before);
}

#[test]
fn plain_quoted_string_reads_back() {
    let mut s = Scanner::new("'plain text' after");
    assert_eq!(s.read_quoted('\''), "plain text");
    assert_eq!(s.pos(), 12);
    assert_eq!(s.remaining(), " after");
}

#[test]
fn backslash_as_delimiter_escapes() {
    let mut s = Scanner::new("\\ab\\");
    assert_eq!(s.read_quoted('\\'), "ab");
    assert!(s.is_done());
}

#[test]
fn escaped_quoted_string_round_trip() {
    // 'a\'b\\c' quotes the text a'b\c with single quotes.
    let mut s = Scanner::new("'a\\'b\\\\c' rest");
    assert_eq!(s.read_quoted('\''), "a'b\\c");
    assert_eq!(s.remaining(), " rest");
    let mut t = Scanner::new("\"say \\\"hi\\\"\"\n");
    assert_eq!(t.read_quoted('"'), "say \"hi\"");
    assert_eq!(t.remaining(), "\n");
}
