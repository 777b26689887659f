//! A stateful, forward-only scanner over a Unicode text input.
//!
//! The scanner's abstract state is the decoded text and a position in it; the
//! line and column it reports are functions of that position (`line_at`, `col_at`).
use vstd::prelude::*;

use crate::ast_types::Span;
use crate::text::{
    ascii_digit, ascii_whitespace, debug_escaped, debug_quote, decimal, ident_continue, ident_start,
    inline_space, is_ascii_digit, is_ascii_whitespace, is_ident_continue, is_ident_start,
    is_inline_space, push_char, push_decimal, push_str, str_chars, string_of,
};

verus! {

/// 1-based line number at character offset `k`: one more than the number of line
/// feeds before `k`.
pub open spec fn line_at(text: Seq<char>, k: int) -> int
    decreases k,
{
    if k <= 0 {
        1
    } else {
        line_at(text, k - 1) + if text[k - 1] == '\n' {
            1int
        } else {
            0int
        }
    }
}

/// 1-based column number at character offset `k`: one more than the number of
/// characters since the last line feed before `k` (or since the start).
pub open spec fn col_at(text: Seq<char>, k: int) -> int
    decreases k,
{
    if k <= 0 {
        1
    } else if text[k - 1] == '\n' {
        1
    } else {
        col_at(text, k - 1) + 1
    }
}

/// `s` occurs in `text` starting at offset `p`.
pub open spec fn matches_at(text: Seq<char>, p: int, s: Seq<char>) -> bool {
    0 <= p && p + s.len() <= text.len() && text.subrange(p, p + s.len()) == s
}

/// The classes of characters that the scanner skips or reads runs of.
#[derive(Clone, Copy, PartialEq, Eq, Debug)]
pub enum CharClass {
    Whitespace,
    InlineSpace,
    Digit,
    IdentContinue,
    NotNewline,
}

pub open spec fn in_class(cls: CharClass, c: char) -> bool {
    match cls {
        CharClass::Whitespace => is_ascii_whitespace(c),
        CharClass::InlineSpace => is_inline_space(c),
        CharClass::Digit => is_ascii_digit(c),
        CharClass::IdentContinue => is_ident_continue(c),
        CharClass::NotNewline => c != '\n',
    }
}

/// The end of the longest run of characters of class `cls` starting at `from`.
pub open spec fn run_end(text: Seq<char>, from: int, cls: CharClass) -> int
    decreases text.len() - from,
{
    if from < 0 || from >= text.len() || !in_class(cls, text[from]) {
        from
    } else {
        run_end(text, from + 1, cls)
    }
}

/// The first offset at or after `from` (and before the end) where `pat` occurs,
/// or the end of the text if there is none.
pub open spec fn find_from(text: Seq<char>, from: int, pat: Seq<char>) -> int
    decreases text.len() - from,
{
    if from < 0 || from >= text.len() {
        text.len() as int
    } else if matches_at(text, from, pat) {
        from
    } else {
        find_from(text, from + 1, pat)
    }
}

/// The character an escape sequence `\c` stands for.
pub open spec fn unescape(c: char) -> char {
    if c == 'n' {
        '\n'
    } else if c == 't' {
        '\t'
    } else if c == 'r' {
        '\r'
    } else {
        c
    }
}

/// Reading the body of a quoted string from offset `q` up to and including the closing
/// `delim`: the decoded characters and the offset just past what is consumed.
/// A backslash escapes the next character; the text may end unterminated.
pub open spec fn quoted_body(text: Seq<char>, q: int, delim: char) -> (Seq<char>, int)
    decreases text.len() - q,
{
    if q < 0 || q >= text.len() {
        (Seq::empty(), q)
    } else if text[q] == '\\' {
        if q + 1 >= text.len() {
            (Seq::empty(), q + 1)
        } else {
            let rest = quoted_body(text, q + 2, delim);
            (seq![unescape(text[q + 1])] + rest.0, rest.1)
        }
    } else if text[q] == delim {
        (Seq::empty(), q + 1)
    } else {
        let rest = quoted_body(text, q + 1, delim);
        (seq![text[q]] + rest.0, rest.1)
    }
}

/// The message `expect_str` fails with.
pub open spec fn expect_message(expected: Seq<char>, found: Seq<char>, line: int, col: int) -> Seq<
    char,
> {
    "expected "@ + debug_escaped(expected) + " but found "@ + debug_escaped(found)
        + " at line "@ + decimal(line as nat) + " col "@ + decimal(col as nat)
}

/// `b` is a later state of the same scan as `a`: same text, offset not moved back,
/// and still within the text.
pub open spec fn moved_forward(a: ScannerView, b: ScannerView) -> bool {
    &&& b.text == a.text
    &&& a.pos <= b.pos <= a.text.len()
}

/// The abstract state of a scanner: the whole input and the current offset into it.
pub ghost struct ScannerView {
    pub text: Seq<char>,
    pub pos: int,
}

impl ScannerView {
    pub open spec fn len(self) -> int {
        self.text.len() as int
    }

    pub open spec fn done(self) -> bool {
        self.pos >= self.text.len()
    }

    /// The current character, if any.
    pub open spec fn current(self) -> Option<char> {
        if 0 <= self.pos < self.text.len() {
            Some(self.text[self.pos])
        } else {
            None
        }
    }

    pub open spec fn rest(self) -> Seq<char> {
        self.text.subrange(self.pos, self.text.len() as int)
    }

    /// The next `n` characters, or fewer if fewer remain.
    pub open spec fn ahead(self, n: int) -> Seq<char> {
        let k = if n < self.len() - self.pos {
            n
        } else {
            self.len() - self.pos
        };
        self.text.subrange(self.pos, self.pos + k)
    }

    pub open spec fn line(self) -> int {
        line_at(self.text, self.pos)
    }

    pub open spec fn col(self) -> int {
        col_at(self.text, self.pos)
    }

    /// The current character exists and belongs to `cls`.
    pub open spec fn current_in(self, cls: CharClass) -> bool {
        self.current() matches Some(c) && in_class(cls, c)
    }

    /// Where `read_number` stops: a run of digits, then, if that run is not empty and a
    /// `.` follows it with a digit after the `.`, the `.` and a second run of digits.
    pub open spec fn number_end(self) -> int {
        let d = run_end(self.text, self.pos, CharClass::Digit);
        if self.pos < d && d + 1 < self.text.len() && self.text[d] == '.' && is_ascii_digit(
            self.text[d + 1],
        ) {
            run_end(self.text, d + 1, CharClass::Digit)
        } else {
            d
        }
    }

    /// Where `skip_block_comment` stops once past the opening delimiter at `q`.
    pub open spec fn block_end(self, q: int, close: Seq<char>) -> int {
        let e = find_from(self.text, q, close);
        if e < self.text.len() {
            e + close.len()
        } else {
            e
        }
    }

    /// Where the body of a quoted string starts: past the opening delimiter if the
    /// current character is one.
    pub open spec fn quote_start(self, delim: char) -> int {
        if self.current() == Some(delim) {
            self.pos + 1
        } else {
            self.pos
        }
    }
}

/// Stepping over one character moves to the start of the next line after a line feed,
/// and one column to the right otherwise.
pub proof fn law_line_col_step(text: Seq<char>, k: int)
    requires
        0 <= k < text.len(),
    ensures
        text[k] == '\n' ==> line_at(text, k + 1) == line_at(text, k) + 1 && col_at(text, k + 1)
            == 1,
        text[k] != '\n' ==> line_at(text, k + 1) == line_at(text, k) && col_at(text, k + 1)
            == col_at(text, k) + 1,
{
}

/// When `s` occurs at the current position, the rest of the input is `s` followed by
/// the rest after consuming `s`.
pub proof fn law_consume_splits_rest(v: ScannerView, s: Seq<char>)
    requires
        matches_at(v.text, v.pos, s),
    ensures
        v.rest() == s + (ScannerView { text: v.text, pos: v.pos + s.len() }).rest(),
{
    assert(v.rest() =~= s + (ScannerView { text: v.text, pos: v.pos + s.len() }).rest());
}

/// What `read_ident` reads when an identifier starts at `p` has the shape
/// `[A-Za-z_][A-Za-z0-9_]*` and cannot be extended.
pub proof fn law_ident_shape(text: Seq<char>, p: int)
    requires
        0 <= p < text.len(),
        is_ident_start(text[p]),
    ensures
        p < run_end(text, p + 1, CharClass::IdentContinue) <= text.len(),
        forall|i: int|
            p < i < run_end(text, p + 1, CharClass::IdentContinue) ==> is_ident_continue(
                #[trigger] text[i],
            ),
        run_end(text, p + 1, CharClass::IdentContinue) < text.len() ==> !is_ident_continue(
            text[run_end(text, p + 1, CharClass::IdentContinue)],
        ),
{
    lemma_run_end(text, p + 1, CharClass::IdentContinue);
}

/// What `read_number` reads has the shape `[0-9]+(\.[0-9]+)?`, or is empty when no digit
/// is current: a `.` is taken only between digits, and the number cannot be extended
/// by a further digit.
pub proof fn law_number_shape(v: ScannerView)
    requires
        0 <= v.pos <= v.text.len(),
    ensures
        v.pos <= v.number_end() <= v.text.len(),
        v.number_end() > v.pos ==> is_ascii_digit(v.text[v.pos]),
        forall|i: int|
            v.pos <= i < v.number_end() ==> is_ascii_digit(#[trigger] v.text[i]) || (v.text[i]
                == '.' && i == run_end(v.text, v.pos, CharClass::Digit) && v.pos < i && i + 1
                < v.number_end() && is_ascii_digit(v.text[i + 1])),
        v.number_end() < v.text.len() ==> !is_ascii_digit(v.text[v.number_end()]),
{
    let d = run_end(v.text, v.pos, CharClass::Digit);
    lemma_run_end(v.text, v.pos, CharClass::Digit);
    if v.pos < d && d + 1 < v.text.len() && v.text[d] == '.' && is_ascii_digit(v.text[d + 1]) {
        lemma_run_end(v.text, d + 1, CharClass::Digit);
    }
}

/// A body written for `delim`: each backslash and each `delim` preceded by a backslash,
/// every other character as it is.
pub open spec fn escape_body(t: Seq<char>, delim: char) -> Seq<char>
    decreases t.len(),
{
    if t.len() == 0 {
        Seq::empty()
    } else {
        (if t[0] == '\\' || t[0] == delim {
            seq!['\\', t[0]]
        } else {
            seq![t[0]]
        }) + escape_body(t.drop_first(), delim)
    }
}

proof fn lemma_quoted_escaped(text: Seq<char>, q: int, delim: char, t: Seq<char>)
    requires
        0 <= q,
        delim != '\\',
        unescape(delim) != delim ==> !t.contains(delim),
        q + escape_body(t, delim).len() < text.len(),
        text.subrange(q, q + escape_body(t, delim).len()) == escape_body(t, delim),
        text[q + escape_body(t, delim).len()] == delim,
    ensures
        quoted_body(text, q, delim) == (t, q + escape_body(t, delim).len() + 1),
    decreases t.len(),
{
    let e = escape_body(t, delim);
    if t.len() == 0 {
        assert(text[q] == delim);
        assert(quoted_body(text, q, delim).0 =~= t);
    } else {
        let c = t[0];
        let u = t.drop_first();
        let eu = escape_body(u, delim);
        assert(unescape(delim) != delim ==> !u.contains(delim)) by {
            if unescape(delim) != delim && u.contains(delim) {
                let k = choose|k: int| 0 <= k < u.len() && u[k] == delim;
                assert(t[k + 1] == delim);
            }
        }
        if c == '\\' || c == delim {
            assert(c == delim ==> unescape(c) == c) by {
                if c == delim && unescape(delim) != delim {
                    assert(t[0] == delim);
                }
            }
            assert(e =~= seq!['\\', c] + eu);
            assert(text[q] == e[0]);
            assert(text[q + 1] == e[1]);
            assert(text.subrange(q + 2, q + 2 + eu.len()) =~= eu) by {
                assert forall|i: int| 0 <= i < eu.len() implies text.subrange(
                    q + 2,
                    q + 2 + eu.len(),
                )[i] == eu[i] by {
                    assert(text[q + 2 + i] == e[2 + i]);
                }
            }
            lemma_quoted_escaped(text, q + 2, delim, u);
            assert(quoted_body(text, q, delim).0 == seq![unescape(c)] + quoted_body(
                text,
                q + 2,
                delim,
            ).0);
            assert(seq![c] + u =~= t);
        } else {
            assert(e =~= seq![c] + eu);
            assert(text[q] == e[0]);
            assert(text.subrange(q + 1, q + 1 + eu.len()) =~= eu) by {
                assert forall|i: int| 0 <= i < eu.len() implies text.subrange(
                    q + 1,
                    q + 1 + eu.len(),
                )[i] == eu[i] by {
                    assert(text[q + 1 + i] == e[1 + i]);
                }
            }
            lemma_quoted_escaped(text, q + 1, delim, u);
            assert(quoted_body(text, q, delim).0 == seq![c] + quoted_body(text, q + 1, delim).0);
            assert(seq![c] + u =~= t);
        }
        assert(quoted_body(text, q, delim).0 =~= t);
    }
}

/// Reading a quoted string gives back what was quoted: when the rest of the input is
/// `delim`, the escaped body of `t`, `delim` and then `rest`, `read_quoted(delim)` returns
/// `t` and leaves exactly `rest`. The delimiter may not be a backslash, and when it is
/// `n`, `t` or `r` (whose escapes stand for control characters) `t` may not contain it.
pub proof fn law_quoted_round_trip(v: ScannerView, delim: char, t: Seq<char>, rest: Seq<char>)
    requires
        0 <= v.pos <= v.text.len(),
        delim != '\\',
        unescape(delim) != delim ==> !t.contains(delim),
        v.rest() == seq![delim] + escape_body(t, delim) + seq![delim] + rest,
    ensures
        quoted_body(v.text, v.quote_start(delim), delim).0 == t,
        (ScannerView {
            text: v.text,
            pos: quoted_body(v.text, v.quote_start(delim), delim).1,
        }).rest() == rest,
{
    let e = escape_body(t, delim);
    let whole = seq![delim] + e + seq![delim] + rest;
    assert(whole.len() == e.len() + rest.len() + 2);
    assert(v.rest().len() == v.text.len() - v.pos);
    assert(v.rest() == whole);
    assert(whole[0] == delim);
    assert(v.rest()[0] == delim);
    assert(v.text[v.pos] == v.rest()[0]);
    let q = v.pos + 1;
    assert(v.text.subrange(q, q + e.len()) =~= e) by {
        assert forall|i: int| 0 <= i < e.len() implies v.text.subrange(q, q + e.len())[i]
            == e[i] by {
            assert(v.text[q + i] == v.rest()[1 + i]);
            assert(whole[1 + i] == e[i]);
        }
    }
    assert(v.text[q + e.len()] == v.rest()[1 + e.len() as int]);
    lemma_quoted_escaped(v.text, q, delim, t);
    let end = q + e.len() + 1;
    assert((ScannerView { text: v.text, pos: end }).rest() =~= rest) by {
        assert forall|i: int| 0 <= i < rest.len() implies (ScannerView {
            text: v.text,
            pos: end,
        }).rest()[i] == rest[i] by {
            assert(v.text[end + i] == v.rest()[e.len() as int + 2 + i]);
            assert(whole[e.len() as int + 2 + i] == rest[i]);
        }
    }
}

// ── What the scanner reads, stated over the shape of the input ───────────────

/// The same text, looked at from offset `p`.
pub open spec fn at(v: ScannerView, p: int) -> ScannerView {
    ScannerView { text: v.text, pos: p }
}

/// When the rest of the input is `a` followed by `b`, the text holds `a` at the
/// current offset, `b` right after it, and the rest after `a` is `b`.
pub proof fn lemma_rest_split(v: ScannerView, a: Seq<char>, b: Seq<char>)
    requires
        0 <= v.pos <= v.text.len(),
        v.rest() == a + b,
    ensures
        v.pos + a.len() + b.len() == v.text.len(),
        forall|i: int| 0 <= i < a.len() ==> v.text[v.pos + i] == #[trigger] a[i],
        forall|j: int| 0 <= j < b.len() ==> v.text[v.pos + a.len() + j] == #[trigger] b[j],
        at(v, v.pos + a.len()).rest() == b,
{
    assert(v.rest().len() == a.len() + b.len());
    assert forall|i: int| 0 <= i < a.len() implies v.text[v.pos + i] == #[trigger] a[i] by {
        assert(v.rest()[i] == (a + b)[i]);
    }
    assert forall|j: int| 0 <= j < b.len() implies v.text[v.pos + a.len() + j] == #[trigger] b[j] by {
        assert(v.rest()[a.len() + j] == (a + b)[a.len() + j]);
    }
    assert(at(v, v.pos + a.len()).rest() =~= b);
}

/// A run of `k` characters of class `cls` at `from`, ended by the end of the text or
/// by a character outside the class, ends at `from + k`.
pub proof fn lemma_run_end_exact(text: Seq<char>, from: int, k: int, cls: CharClass)
    requires
        0 <= from,
        0 <= k,
        from + k <= text.len(),
        forall|i: int| from <= i < from + k ==> in_class(cls, #[trigger] text[i]),
        from + k < text.len() ==> !in_class(cls, text[from + k]),
    ensures
        run_end(text, from, cls) == from + k,
    decreases k,
{
    if k > 0 {
        assert(in_class(cls, text[from]));
        lemma_run_end_exact(text, from + 1, k - 1, cls);
    }
}

/// The first occurrence of `pat` at or after `from` is at `from + k` when it occurs there
/// and nowhere in between.
pub proof fn lemma_find_from_exact(text: Seq<char>, from: int, k: int, pat: Seq<char>)
    requires
        0 <= from,
        0 <= k,
        matches_at(text, from + k, pat),
        forall|j: int| from <= j < from + k ==> !#[trigger] matches_at(text, j, pat),
    ensures
        find_from(text, from, pat) == from + k,
    decreases k,
{
    if k > 0 {
        assert(!matches_at(text, from, pat));
        lemma_find_from_exact(text, from + 1, k - 1, pat);
    } else if from >= text.len() {
        assert(pat.len() == 0);
    }
}

/// Matching is complete: whenever the rest of the input starts with `s`, `match_str(s)`,
/// `consume_str(s)` and `expect_str(s)` succeed, and consuming `s` leaves exactly what
/// followed it — the end of the input when nothing did.
pub proof fn law_match_complete(v: ScannerView, s: Seq<char>, rest: Seq<char>)
    requires
        0 <= v.pos <= v.text.len(),
        v.rest() == s + rest,
    ensures
        matches_at(v.text, v.pos, s),
        at(v, v.pos + s.len()).rest() == rest,
        rest.len() == 0 ==> at(v, v.pos + s.len()).done(),
{
    lemma_rest_split(v, s, rest);
    assert(v.text.subrange(v.pos, v.pos + s.len()) =~= s);
}

/// `skip_whitespace` skips exactly the characters space, tab, line feed, form feed and
/// carriage return: over a run `w` of them followed by `rest` that does not start with
/// one, it stops at `rest`.
pub proof fn law_skip_whitespace_exact(v: ScannerView, w: Seq<char>, rest: Seq<char>)
    requires
        0 <= v.pos <= v.text.len(),
        v.rest() == w + rest,
        forall|i: int|
            0 <= i < w.len() ==> {
                let c = #[trigger] w[i];
                c == ' ' || c == '\t' || c == '\n' || c == '\x0C' || c == '\r'
            },
        rest.len() > 0 ==> !(rest[0] == ' ' || rest[0] == '\t' || rest[0] == '\n' || rest[0]
            == '\x0C' || rest[0] == '\r'),
    ensures
        run_end(v.text, v.pos, CharClass::Whitespace) == v.pos + w.len(),
        at(v, run_end(v.text, v.pos, CharClass::Whitespace)).rest() == rest,
{
    lemma_rest_split(v, w, rest);
    assert forall|i: int| v.pos <= i < v.pos + w.len() implies in_class(
        CharClass::Whitespace,
        #[trigger] v.text[i],
    ) by {
        assert(v.text[v.pos + (i - v.pos)] == w[i - v.pos]);
    }
    if rest.len() > 0 {
        assert(v.text[v.pos + w.len() + 0] == rest[0]);
    }
    lemma_run_end_exact(v.text, v.pos, w.len() as int, CharClass::Whitespace);
}

/// `skip_whitespace_inline` skips exactly spaces and tabs: over a run `w` of them followed
/// by `rest` that does not start with one, it stops at `rest`.
pub proof fn law_skip_inline_space_exact(v: ScannerView, w: Seq<char>, rest: Seq<char>)
    requires
        0 <= v.pos <= v.text.len(),
        v.rest() == w + rest,
        forall|i: int| 0 <= i < w.len() ==> #[trigger] w[i] == ' ' || w[i] == '\t',
        rest.len() > 0 ==> !(rest[0] == ' ' || rest[0] == '\t'),
    ensures
        run_end(v.text, v.pos, CharClass::InlineSpace) == v.pos + w.len(),
        at(v, run_end(v.text, v.pos, CharClass::InlineSpace)).rest() == rest,
{
    lemma_rest_split(v, w, rest);
    assert forall|i: int| v.pos <= i < v.pos + w.len() implies in_class(
        CharClass::InlineSpace,
        #[trigger] v.text[i],
    ) by {
        assert(v.text[v.pos + (i - v.pos)] == w[i - v.pos]);
    }
    if rest.len() > 0 {
        assert(v.text[v.pos + w.len() + 0] == rest[0]);
    }
    lemma_run_end_exact(v.text, v.pos, w.len() as int, CharClass::InlineSpace);
}

/// `read_ident` reads exactly an identifier `[A-Za-z_][A-Za-z0-9_]*`: when the rest of
/// the input is such an identifier `id` followed by `rest` that does not start with an
/// ASCII letter, digit or `_`, it reads `id` and stops at `rest`.
pub proof fn law_read_ident_exact(v: ScannerView, id: Seq<char>, rest: Seq<char>)
    requires
        0 <= v.pos <= v.text.len(),
        v.rest() == id + rest,
        id.len() > 0,
        ('a' <= id[0] <= 'z') || ('A' <= id[0] <= 'Z') || id[0] == '_',
        forall|i: int|
            1 <= i < id.len() ==> {
                let c = #[trigger] id[i];
                ('a' <= c <= 'z') || ('A' <= c <= 'Z') || ('0' <= c <= '9') || c == '_'
            },
        rest.len() > 0 ==> !(('a' <= rest[0] <= 'z') || ('A' <= rest[0] <= 'Z') || ('0'
            <= rest[0] <= '9') || rest[0] == '_'),
    ensures
        v.current() matches Some(c) && is_ident_start(c),
        run_end(v.text, v.pos + 1, CharClass::IdentContinue) == v.pos + id.len(),
        v.text.subrange(v.pos, v.pos + id.len()) == id,
        at(v, v.pos + id.len()).rest() == rest,
{
    lemma_rest_split(v, id, rest);
    assert(v.text[v.pos + 0] == id[0]);
    assert forall|i: int| v.pos + 1 <= i < v.pos + 1 + (id.len() - 1) implies in_class(
        CharClass::IdentContinue,
        #[trigger] v.text[i],
    ) by {
        assert(v.text[v.pos + (i - v.pos)] == id[i - v.pos]);
    }
    if rest.len() > 0 {
        assert(v.text[v.pos + id.len() + 0] == rest[0]);
    }
    lemma_run_end_exact(v.text, v.pos + 1, id.len() - 1, CharClass::IdentContinue);
    assert(v.text.subrange(v.pos, v.pos + id.len()) =~= id);
}

/// `read_number` reads a whole decimal literal: when the rest of the input is a run of
/// digits `d`, a `.`, a run of digits `f` and then `rest` that does not start with a
/// digit (or is empty), it reads `d`, the `.` and `f`, and stops at `rest`.
pub proof fn law_read_number_fraction(v: ScannerView, d: Seq<char>, f: Seq<char>, rest: Seq<char>)
    requires
        0 <= v.pos <= v.text.len(),
        v.rest() == d + seq!['.'] + f + rest,
        d.len() > 0,
        f.len() > 0,
        forall|i: int| 0 <= i < d.len() ==> '0' <= #[trigger] d[i] <= '9',
        forall|i: int| 0 <= i < f.len() ==> '0' <= #[trigger] f[i] <= '9',
        rest.len() > 0 ==> !('0' <= rest[0] <= '9'),
    ensures
        v.number_end() == v.pos + d.len() + 1 + f.len(),
        v.text.subrange(v.pos, v.number_end()) == d + seq!['.'] + f,
        at(v, v.number_end()).rest() == rest,
{
    let dot = seq!['.'];
    assert(v.rest() =~= d + (dot + (f + rest)));
    lemma_rest_split(v, d, dot + (f + rest));
    let v1 = at(v, v.pos + d.len());
    lemma_rest_split(v1, dot, f + rest);
    let v2 = at(v, v.pos + d.len() + 1);
    lemma_rest_split(v2, f, rest);
    let p = v.pos;
    let e = p + d.len();
    assert forall|i: int| p <= i < p + d.len() implies in_class(
        CharClass::Digit,
        #[trigger] v.text[i],
    ) by {
        assert(v.text[p + (i - p)] == d[i - p]);
    }
    assert(v.text[e] == dot[0]);
    lemma_run_end_exact(v.text, p, d.len() as int, CharClass::Digit);
    assert(v.text[e + 1 + 0] == f[0]);
    assert forall|i: int| e + 1 <= i < e + 1 + f.len() implies in_class(
        CharClass::Digit,
        #[trigger] v.text[i],
    ) by {
        assert(v.text[e + 1 + (i - e - 1)] == f[i - e - 1]);
    }
    if rest.len() > 0 {
        assert(v.text[e + 1 + f.len() + 0] == rest[0]);
    }
    lemma_run_end_exact(v.text, e + 1, f.len() as int, CharClass::Digit);
    assert(v.text.subrange(p, v.number_end()) =~= d + dot + f) by {
        assert forall|i: int| 0 <= i < d.len() + 1 + f.len() implies v.text.subrange(
            p,
            v.number_end(),
        )[i] == (d + dot + f)[i] by {
            if i < d.len() {
                assert(v.text[p + i] == d[i]);
            } else if i == d.len() {
            } else {
                assert(v.text[e + 1 + (i - d.len() - 1)] == f[i - d.len() - 1]);
            }
        }
    }
}

/// `read_number` reads only the digits when no digit follows a `.` after them, so that a
/// range operator such as `1..2` or a method call such as `1.max(2)` is left alone: when
/// the rest of the input is a run of digits `d` followed by `rest` that does not start
/// with a digit, nor with a `.` followed by a digit, it reads `d` and stops at `rest`.
pub proof fn law_read_number_integer(v: ScannerView, d: Seq<char>, rest: Seq<char>)
    requires
        0 <= v.pos <= v.text.len(),
        v.rest() == d + rest,
        forall|i: int| 0 <= i < d.len() ==> '0' <= #[trigger] d[i] <= '9',
        rest.len() > 0 ==> !('0' <= rest[0] <= '9'),
        rest.len() > 1 && rest[0] == '.' ==> !('0' <= rest[1] <= '9'),
    ensures
        v.number_end() == v.pos + d.len(),
        v.text.subrange(v.pos, v.number_end()) == d,
        at(v, v.number_end()).rest() == rest,
{
    lemma_rest_split(v, d, rest);
    let p = v.pos;
    assert forall|i: int| p <= i < p + d.len() implies in_class(
        CharClass::Digit,
        #[trigger] v.text[i],
    ) by {
        assert(v.text[p + (i - p)] == d[i - p]);
    }
    if rest.len() > 0 {
        assert(v.text[p + d.len() + 0] == rest[0]);
    }
    if rest.len() > 1 {
        assert(v.text[p + d.len() + 1] == rest[1]);
    }
    lemma_run_end_exact(v.text, p, d.len() as int, CharClass::Digit);
    assert(v.text.subrange(p, p + d.len()) =~= d);
}

/// `skip_block_comment` ends just past the first close delimiter after the opening one:
/// when the rest of the input is `open`, `body`, `close` and `rest`, and `close` does not
/// begin anywhere inside `body`, the scan (which starts right after `open`) stops exactly
/// at `rest` — also when `rest` is empty.
pub proof fn law_block_comment_exact(
    v: ScannerView,
    open: Seq<char>,
    body: Seq<char>,
    close: Seq<char>,
    rest: Seq<char>,
)
    requires
        0 <= v.pos <= v.text.len(),
        v.rest() == open + body + close + rest,
        forall|j: int|
            0 <= j < body.len() ==> #[trigger] (body + close).subrange(j, j + close.len()) != close,
    ensures
        matches_at(v.text, v.pos, open),
        v.block_end(v.pos + open.len(), close) == v.pos + open.len() + body.len() + close.len(),
        at(v, v.block_end(v.pos + open.len(), close)).rest() == rest,
{
    let bc = body + close;
    assert(v.rest() =~= open + (body + (close + rest)));
    lemma_rest_split(v, open, body + (close + rest));
    assert(v.text.subrange(v.pos, v.pos + open.len()) =~= open);
    let q = v.pos + open.len();
    let v1 = at(v, q);
    lemma_rest_split(v1, body, close + rest);
    let v2 = at(v, q + body.len());
    lemma_rest_split(v2, close, rest);
    let e = q + body.len();
    assert(v.text.subrange(e, e + close.len()) =~= close);
    assert forall|j: int| q <= j < q + body.len() implies !#[trigger] matches_at(
        v.text,
        j,
        close,
    ) by {
        if matches_at(v.text, j, close) {
            let k = j - q;
            assert(bc.subrange(k, k + close.len()) =~= close) by {
                assert forall|i: int| 0 <= i < close.len() implies bc.subrange(
                    k,
                    k + close.len(),
                )[i] == close[i] by {
                    assert(v.text.subrange(j, j + close.len())[i] == close[i]);
                    if k + i < body.len() {
                        assert(v.text[q + (k + i)] == body[k + i]);
                    } else {
                        assert(v.text[e + (k + i - body.len())] == close[k + i - body.len()]);
                    }
                }
            }
        }
    }
    lemma_find_from_exact(v.text, q, body.len() as int, close);
}

/// `read_ident` reads nothing, and `is_alpha` is false, when the current character is not
/// an ASCII letter or `_` (or there is none).
pub proof fn law_read_ident_none(v: ScannerView)
    requires
        !(v.current() matches Some(c) && (('a' <= c <= 'z') || ('A' <= c <= 'Z') || c == '_')),
    ensures
        !(v.current() matches Some(c) && is_ident_start(c)),
{
}

/// `skip_line_comment` skips its prefix and the rest of the line up to (not including)
/// the line feed; with an empty prefix this is what `read_line` reads: when the rest of
/// the input is `prefix`, a `line` without line feeds and then `rest` that is empty or
/// starts with a line feed, the scan stops at `rest`.
pub proof fn law_line_comment_exact(
    v: ScannerView,
    prefix: Seq<char>,
    line: Seq<char>,
    rest: Seq<char>,
)
    requires
        0 <= v.pos <= v.text.len(),
        v.rest() == prefix + line + rest,
        forall|i: int| 0 <= i < line.len() ==> #[trigger] line[i] != '\n',
        rest.len() > 0 ==> rest[0] == '\n',
    ensures
        matches_at(v.text, v.pos, prefix),
        run_end(v.text, v.pos + prefix.len(), CharClass::NotNewline) == v.pos + prefix.len()
            + line.len(),
        at(v, v.pos + prefix.len() + line.len()).rest() == rest,
{
    assert(v.rest() =~= prefix + (line + rest));
    lemma_rest_split(v, prefix, line + rest);
    assert(v.text.subrange(v.pos, v.pos + prefix.len()) =~= prefix);
    let q = v.pos + prefix.len();
    lemma_rest_split(at(v, q), line, rest);
    assert forall|i: int| q <= i < q + line.len() implies in_class(
        CharClass::NotNewline,
        #[trigger] v.text[i],
    ) by {
        assert(v.text[q + (i - q)] == line[i - q]);
    }
    if rest.len() > 0 {
        assert(v.text[q + line.len() + 0] == rest[0]);
    }
    lemma_run_end_exact(v.text, q, line.len() as int, CharClass::NotNewline);
}

/// `read_until_str(end)` stops at the first occurrence of `end`: when the rest of the
/// input is `before`, `end` and `after`, and `end` does not begin anywhere inside
/// `before`, it reads `before` and leaves `end` and `after` unread.
pub proof fn law_read_until_exact(
    v: ScannerView,
    before: Seq<char>,
    end: Seq<char>,
    after: Seq<char>,
)
    requires
        0 <= v.pos <= v.text.len(),
        v.rest() == before + end + after,
        forall|j: int|
            0 <= j < before.len() ==> #[trigger] (before + end).subrange(j, j + end.len()) != end,
    ensures
        find_from(v.text, v.pos, end) == v.pos + before.len(),
        v.text.subrange(v.pos, v.pos + before.len()) == before,
        at(v, v.pos + before.len()).rest() == end + after,
{
    let be = before + end;
    assert(v.rest() =~= before + (end + after));
    lemma_rest_split(v, before, end + after);
    let p = v.pos;
    let e = p + before.len();
    lemma_rest_split(at(v, e), end, after);
    assert(v.text.subrange(e, e + end.len()) =~= end);
    assert forall|j: int| p <= j < p + before.len() implies !#[trigger] matches_at(
        v.text,
        j,
        end,
    ) by {
        if matches_at(v.text, j, end) {
            let k = j - p;
            assert(be.subrange(k, k + end.len()) =~= end) by {
                assert forall|i: int| 0 <= i < end.len() implies be.subrange(
                    k,
                    k + end.len(),
                )[i] == end[i] by {
                    assert(v.text.subrange(j, j + end.len())[i] == end[i]);
                    if k + i < before.len() {
                        assert(v.text[p + (k + i)] == before[k + i]);
                    } else {
                        assert(v.text[e + (k + i - before.len())] == end[k + i - before.len()]);
                    }
                }
            }
        }
    }
    lemma_find_from_exact(v.text, p, before.len() as int, end);
    assert(v.text.subrange(p, e) =~= before);
}

/// The escapes `read_quoted` understands: a quoted string holding only a backslash and
/// `c` reads as a line feed for `n`, a tab for `t`, a carriage return for `r`, and as
/// `c` itself for any other character (so `\\` is a backslash and `\"` a quote), and the
/// scan stops just past the closing delimiter.
pub proof fn law_quoted_escapes(v: ScannerView, delim: char, c: char, rest: Seq<char>)
    requires
        0 <= v.pos <= v.text.len(),
        delim != '\\',
        v.rest() == seq![delim, '\\', c, delim] + rest,
    ensures
        quoted_body(v.text, v.quote_start(delim), delim).0 == seq![
            if c == 'n' {
                '\n'
            } else if c == 't' {
                '\t'
            } else if c == 'r' {
                '\r'
            } else {
                c
            },
        ],
        at(v, quoted_body(v.text, v.quote_start(delim), delim).1).rest() == rest,
{
    let head = seq![delim, '\\', c, delim];
    lemma_rest_split(v, head, rest);
    let p = v.pos;
    assert(v.text[p + 0] == head[0]);
    assert(v.text[p + 1] == head[1]);
    assert(v.text[p + 2] == head[2]);
    assert(v.text[p + 3] == head[3]);
    assert(quoted_body(v.text, p + 3, delim) == (Seq::<char>::empty(), p + 4));
    assert(quoted_body(v.text, p + 1, delim).0 =~= seq![unescape(c)]);
}

#[derive(Debug)]
struct Cursor {
    pos: usize,
    line: u64,
    col: u64,
}

/// A stateful, forward-only scanner over a Unicode text input.
///
/// It is a purely ephemeral helper used by parser scripts while they build an
/// `AstNode` tree.
#[derive(Debug)]
pub struct Scanner {
    chars: Vec<char>,
    cur: Cursor,
}

impl View for Scanner {
    type V = ScannerView;

    closed spec fn view(&self) -> ScannerView {
        ScannerView { text: self.chars@, pos: self.cur.pos as int }
    }
}

/// Line and column numbers stay within one more than the offset.
pub proof fn lemma_line_col_bounds(text: Seq<char>, k: int)
    requires
        0 <= k,
    ensures
        1 <= line_at(text, k) <= k + 1,
        1 <= col_at(text, k) <= k + 1,
    decreases k,
{
    if k > 0 {
        lemma_line_col_bounds(text, k - 1);
    }
}

/// Every character between `from` and the end of its run belongs to the class, and the
/// character that ends the run, if any, does not.
pub proof fn lemma_run_end(text: Seq<char>, from: int, cls: CharClass)
    requires
        0 <= from <= text.len(),
    ensures
        from <= run_end(text, from, cls) <= text.len(),
        forall|i: int| from <= i < run_end(text, from, cls) ==> in_class(cls, #[trigger] text[i]),
        run_end(text, from, cls) < text.len() ==> !in_class(cls, text[run_end(text, from, cls)]),
    decreases text.len() - from,
{
    if from < text.len() && in_class(cls, text[from]) {
        lemma_run_end(text, from + 1, cls);
    }
}

/// `find_from` is the first occurrence at or after `from`, or the end of the text.
pub proof fn lemma_find_from(text: Seq<char>, from: int, pat: Seq<char>)
    requires
        0 <= from <= text.len(),
    ensures
        from <= find_from(text, from, pat) <= text.len(),
        forall|j: int| from <= j < find_from(text, from, pat) ==> !matches_at(text, j, pat),
        find_from(text, from, pat) < text.len() ==> matches_at(
            text,
            find_from(text, from, pat),
            pat,
        ),
    decreases text.len() - from,
{
    if from < text.len() && !matches_at(text, from, pat) {
        lemma_find_from(text, from + 1, pat);
    }
}

/// A quoted body never ends before it starts nor after one past the end of the text.
pub proof fn lemma_quoted_body_bounds(text: Seq<char>, q: int, delim: char)
    requires
        0 <= q <= text.len(),
    ensures
        q <= quoted_body(text, q, delim).1 <= text.len(),
    decreases text.len() - q,
{
    if q < text.len() {
        if text[q] == '\\' {
            if q + 1 < text.len() {
                lemma_quoted_body_bounds(text, q + 2, delim);
            }
        } else if text[q] != delim {
            lemma_quoted_body_bounds(text, q + 1, delim);
        }
    }
}

impl Scanner {
    #[verifier::type_invariant]
    closed spec fn inv(self) -> bool {
        &&& self.cur.pos <= self.chars@.len()
        &&& self.chars@.len() < usize::MAX
        &&& self.cur.line == line_at(self.chars@, self.cur.pos as int)
        &&& self.cur.col == col_at(self.chars@, self.cur.pos as int)
    }

    /// Create a new scanner positioned at the start of `input`.
    pub fn new(input: &str) -> (s: Self)
        requires
            input@.len() < usize::MAX,
        ensures
            s@.text == input@,
            s@.pos == 0,
    {
        let chars = str_chars(input);
        Scanner { chars, cur: Cursor { pos: 0, line: 1, col: 1 } }
    }

    /// Advance by exactly one character, updating line/column tracking.
    fn step(&mut self)
        ensures
            moved_forward(old(self)@, final(self)@),
            final(self)@.pos == if old(self)@.done() {
                old(self)@.pos
            } else {
                old(self)@.pos + 1
            },
    {
        proof {
            use_type_invariant(&*self);
            lemma_line_col_bounds(self.chars@, self.cur.pos as int);
        }
        if self.cur.pos < self.chars.len() {
            let pos = self.cur.pos;
            let (line, col) = if self.chars[pos] == '\n' {
                (self.cur.line + 1, 1u64)
            } else {
                (self.cur.line, self.cur.col + 1)
            };
            self.cur = Cursor { pos: pos + 1, line, col };
        }
    }

    /// Advance by `n` characters, all of which are there.
    fn step_n(&mut self, n: usize)
        requires
            old(self)@.pos + n <= old(self)@.text.len(),
        ensures
            moved_forward(old(self)@, final(self)@),
            final(self)@.pos == old(self)@.pos + n,
    {
        let mut i: usize = 0;
        while i < n
            invariant
                i <= n,
                self@.text == old(self)@.text,
                self@.pos == old(self)@.pos + i,
                old(self)@.pos + n <= old(self)@.text.len(),
            decreases n - i,
        {
            self.step();
            i += 1;
        }
    }

    /// Advance to the end of the run of `cls` characters that starts here.
    fn advance_while(&mut self, cls: CharClass) -> (start: usize)
        ensures
            moved_forward(old(self)@, final(self)@),
            final(self)@.pos == run_end(old(self)@.text, old(self)@.pos, cls),
            start == old(self)@.pos,
    {
        proof {
            use_type_invariant(&*self);
        }
        let start = self.cur.pos;
        while self.cur.pos < self.chars.len() && Self::class_has(cls, self.chars[self.cur.pos])
            invariant
                self@.text == old(self)@.text,
                old(self)@.pos <= self@.pos <= self@.text.len(),
                run_end(self@.text, self@.pos, cls) == run_end(
                    old(self)@.text,
                    old(self)@.pos,
                    cls,
                ),
            decreases self@.text.len() - self@.pos,
        {
            self.step();
            proof {
                use_type_invariant(&*self);
            }
        }
        start
    }

    fn class_has(cls: CharClass, c: char) -> (r: bool)
        ensures
            r == in_class(cls, c),
    {
        match cls {
            CharClass::Whitespace => ascii_whitespace(c),
            CharClass::InlineSpace => inline_space(c),
            CharClass::Digit => ascii_digit(c),
            CharClass::IdentContinue => ident_continue(c),
            CharClass::NotNewline => c != '\n',
        }
    }

    /// Whether `needle` occurs at the current position.
    fn matches_here(&self, needle: &Vec<char>) -> (r: bool)
        ensures
            r == matches_at(self@.text, self@.pos, needle@),
    {
        proof {
            use_type_invariant(self);
        }
        let pos = self.cur.pos;
        if needle.len() > self.chars.len() - pos {
            return false;
        }
        let mut i: usize = 0;
        while i < needle.len()
            invariant
                pos == self@.pos,
                0 <= pos <= self@.text.len(),
                pos + needle@.len() <= self@.text.len(),
                pos + needle@.len() <= self.chars@.len(),
                self.chars@.len() <= usize::MAX,
                self@.text == self.chars@,
                i <= needle@.len(),
                forall|j: int| 0 <= j < i ==> self@.text[pos + j] == needle@[j],
            decreases needle@.len() - i,
        {
            if self.chars[pos + i] != needle[i] {
                assert(self@.text.subrange(pos as int, pos + needle@.len())[i as int]
                    != needle@[i as int]);
                return false;
            }
            i += 1;
        }
        assert(self@.text.subrange(pos as int, pos + needle@.len()) =~= needle@);
        true
    }

    /// Advance to the first occurrence of `pat` at or after the current position, or to
    /// the end.
    fn advance_until(&mut self, pat: &Vec<char>) -> (start: usize)
        ensures
            moved_forward(old(self)@, final(self)@),
            final(self)@.pos == find_from(old(self)@.text, old(self)@.pos, pat@),
            start == old(self)@.pos,
    {
        proof {
            use_type_invariant(&*self);
        }
        let start = self.cur.pos;
        while self.cur.pos < self.chars.len() && !self.matches_here(pat)
            invariant
                self@.text == old(self)@.text,
                old(self)@.pos <= self@.pos <= self@.text.len(),
                find_from(self@.text, self@.pos, pat@) == find_from(
                    old(self)@.text,
                    old(self)@.pos,
                    pat@,
                ),
            decreases self@.text.len() - self@.pos,
        {
            self.step();
            proof {
                use_type_invariant(&*self);
            }
        }
        start
    }

    // ── Position / state ──────────────────────────────────────────────────
    /// `true` when all input has been consumed.
    pub fn is_done(&self) -> (r: bool)
        ensures
            r == self@.done(),
    {
        self.cur.pos >= self.chars.len()
    }

    /// Current character offset.
    pub fn pos(&self) -> (r: u64)
        ensures
            r == self@.pos,
            0 <= self@.pos <= self@.text.len(),
    {
        proof {
            use_type_invariant(self);
        }
        self.cur.pos as u64
    }

    /// Current 1-based line number.
    pub fn line_num(&self) -> (r: u64)
        ensures
            r == self@.line(),
    {
        proof {
            use_type_invariant(self);
        }
        self.cur.line
    }

    /// Current 1-based column number.
    pub fn col_num(&self) -> (r: u64)
        ensures
            r == self@.col(),
    {
        proof {
            use_type_invariant(self);
        }
        self.cur.col
    }

    /// Everything from the current position to the end as a `String`.
    pub fn remaining(&self) -> (r: String)
        ensures
            r@ == self@.rest(),
    {
        proof {
            use_type_invariant(self);
        }
        string_of(&self.chars, self.cur.pos, self.chars.len())
    }

    // ── Peeking ───────────────────────────────────────────────────────────
    /// Return the current character without consuming it, or `None` at EOF.
    pub fn peek(&self) -> (r: Option<char>)
        ensures
            r == self@.current(),
    {
        if self.cur.pos < self.chars.len() {
            Some(self.chars[self.cur.pos])
        } else {
            None
        }
    }

    /// The next `n` characters (fewer if fewer remain) as a `String`.
    fn ahead(&self, n: usize) -> (r: String)
        ensures
            r@ == self@.ahead(n as int),
    {
        proof {
            use_type_invariant(self);
        }
        let left = self.chars.len() - self.cur.pos;
        let k = if n < left {
            n
        } else {
            left
        };
        string_of(&self.chars, self.cur.pos, self.cur.pos + k)
    }

    /// Return the next `n` characters as a `String` without consuming them.
    /// Returns fewer characters if fewer remain; `n` is taken as a `usize`, so a
    /// negative count reads as a very large one.
    pub fn peek_str(&self, n: i64) -> (r: String)
        ensures
            r@ == self@.ahead((n as usize) as int),
    {
        self.ahead(n as usize)
    }

    /// `true` if the upcoming characters exactly match `s` (without consuming).
    pub fn match_str(&self, s: &str) -> (r: bool)
        ensures
            r == matches_at(self@.text, self@.pos, s@),
    {
        let needle = str_chars(s);
        self.matches_here(&needle)
    }

    // ── Predicates on the current character ──────────────────────────────
    /// `true` if the current character is an ASCII letter or `_`.
    pub fn is_alpha(&self) -> (r: bool)
        ensures
            r == (self@.current() matches Some(c) && is_ident_start(c)),
    {
        match self.peek() {
            Some(c) => ident_start(c),
            None => false,
        }
    }

    /// `true` if the current character is an ASCII digit.
    pub fn is_digit(&self) -> (r: bool)
        ensures
            r == self@.current_in(CharClass::Digit),
    {
        match self.peek() {
            Some(c) => ascii_digit(c),
            None => false,
        }
    }

    /// `true` if the current character is an ASCII letter, digit, or `_`.
    pub fn is_alphanumeric(&self) -> (r: bool)
        ensures
            r == self@.current_in(CharClass::IdentContinue),
    {
        match self.peek() {
            Some(c) => ident_continue(c),
            None => false,
        }
    }

    /// `true` if the current character is ASCII whitespace.
    pub fn is_whitespace(&self) -> (r: bool)
        ensures
            r == self@.current_in(CharClass::Whitespace),
    {
        match self.peek() {
            Some(c) => ascii_whitespace(c),
            None => false,
        }
    }

    // ── Consuming ─────────────────────────────────────────────────────────
    /// Consume and return one character, or `None` at EOF.
    pub fn advance(&mut self) -> (r: Option<char>)
        ensures
            r == old(self)@.current(),
            moved_forward(old(self)@, final(self)@),
            final(self)@.pos == if old(self)@.done() {
                old(self)@.pos
            } else {
                old(self)@.pos + 1
            },
    {
        proof {
            use_type_invariant(&*self);
        }
        let c = self.peek();
        if c.is_some() {
            self.step();
        }
        c
    }

    /// If the upcoming characters match `s`, consume them and return `true`.
    /// Otherwise return `false` without moving.
    pub fn consume_str(&mut self, s: &str) -> (r: bool)
        ensures
            r == matches_at(old(self)@.text, old(self)@.pos, s@),
            moved_forward(old(self)@, final(self)@),
            final(self)@.pos == if r {
                old(self)@.pos + s@.len()
            } else {
                old(self)@.pos
            },
    {
        proof {
            use_type_invariant(&*self);
        }
        let needle = str_chars(s);
        if self.matches_here(&needle) {
            self.step_n(needle.len());
            true
        } else {
            false
        }
    }

    /// Consume `s` and return `Ok(())`, or return `Err(message)` if it doesn't match.
    pub fn expect_str(&mut self, s: &str) -> (r: Result<(), String>)
        ensures
            moved_forward(old(self)@, final(self)@),
            r is Ok <==> matches_at(old(self)@.text, old(self)@.pos, s@),
            r is Ok ==> final(self)@.pos == old(self)@.pos + s@.len(),
            r matches Err(msg) ==> {
                &&& final(self)@.pos == old(self)@.pos
                &&& msg@ == expect_message(
                    s@,
                    old(self)@.ahead(s@.len() as int),
                    old(self)@.line(),
                    old(self)@.col(),
                )
            },
    {
        proof {
            use_type_invariant(&*self);
        }
        let needle = str_chars(s);
        if self.matches_here(&needle) {
            self.step_n(needle.len());
            Ok(())
        } else {
            let got = self.ahead(needle.len());
            let mut msg = String::new();
            push_str(&mut msg, "expected ");
            let q1 = debug_quote(s);
            push_str(&mut msg, q1.as_str());
            push_str(&mut msg, " but found ");
            let q2 = debug_quote(got.as_str());
            push_str(&mut msg, q2.as_str());
            push_str(&mut msg, " at line ");
            push_decimal(&mut msg, self.line_num());
            push_str(&mut msg, " col ");
            push_decimal(&mut msg, self.col_num());
            assert(msg@ =~= expect_message(
                s@,
                old(self)@.ahead(s@.len() as int),
                old(self)@.line(),
                old(self)@.col(),
            ));
            Err(msg)
        }
    }

    // ── Skipping ─────────────────────────────────────────────────────────
    /// Skip any number of whitespace characters (spaces, tabs, newlines, …).
    pub fn skip_whitespace(&mut self)
        ensures
            moved_forward(old(self)@, final(self)@),
            final(self)@.pos == run_end(old(self)@.text, old(self)@.pos, CharClass::Whitespace),
    {
        self.advance_while(CharClass::Whitespace);
    }

    /// Skip horizontal whitespace only — spaces and tabs, but **not** newlines.
    pub fn skip_whitespace_inline(&mut self)
        ensures
            moved_forward(old(self)@, final(self)@),
            final(self)@.pos == run_end(old(self)@.text, old(self)@.pos, CharClass::InlineSpace),
    {
        self.advance_while(CharClass::InlineSpace);
    }

    /// If the current position starts a line comment (beginning with `prefix`),
    /// skip to the end of the line and return `true`. Otherwise return `false`.
    pub fn skip_line_comment(&mut self, prefix: &str) -> (r: bool)
        ensures
            r == matches_at(old(self)@.text, old(self)@.pos, prefix@),
            moved_forward(old(self)@, final(self)@),
            final(self)@.pos == if r {
                run_end(old(self)@.text, old(self)@.pos + prefix@.len(), CharClass::NotNewline)
            } else {
                old(self)@.pos
            },
    {
        proof {
            use_type_invariant(&*self);
        }
        let needle = str_chars(prefix);
        if !self.matches_here(&needle) {
            return false;
        }
        self.step_n(needle.len());
        self.advance_while(CharClass::NotNewline);
        true
    }

    /// If the current position starts a block comment delimited by `open` and
    /// `close`, consume until the matching close delimiter and return `true`.
    /// Returns `false` (and does not move) if `open` doesn't match.
    /// Note: does **not** handle nested block comments.
    pub fn skip_block_comment(&mut self, open: &str, close: &str) -> (r: bool)
        ensures
            r == matches_at(old(self)@.text, old(self)@.pos, open@),
            moved_forward(old(self)@, final(self)@),
            final(self)@.pos == if r {
                old(self)@.block_end(old(self)@.pos + open@.len(), close@)
            } else {
                old(self)@.pos
            },
    {
        proof {
            use_type_invariant(&*self);
        }
        let needle = str_chars(open);
        if !self.matches_here(&needle) {
            return false;
        }
        self.step_n(needle.len());
        let close_chars = str_chars(close);
        let ghost q = self@.pos;
        self.advance_until(&close_chars);
        proof {
            use_type_invariant(&*self);
            lemma_find_from(self@.text, q, close@);
        }
        if !self.is_done() {
            self.step_n(close_chars.len());
        }
        true
    }

    // ── Reading structured tokens ─────────────────────────────────────────
    /// Read and return an identifier: `[A-Za-z_][A-Za-z0-9_]*`.
    /// Returns an empty string if the current character does not start one.
    pub fn read_ident(&mut self) -> (r: String)
        ensures
            moved_forward(old(self)@, final(self)@),
            final(self)@.pos == if old(self)@.current() matches Some(c) && is_ident_start(c) {
                run_end(old(self)@.text, old(self)@.pos + 1, CharClass::IdentContinue)
            } else {
                old(self)@.pos
            },
            r@ == old(self)@.text.subrange(old(self)@.pos, final(self)@.pos),
    {
        proof {
            use_type_invariant(&*self);
        }
        let start = self.cur.pos;
        if self.is_alpha() {
            self.step();
            self.advance_while(CharClass::IdentContinue);
            proof {
                lemma_run_end(old(self)@.text, old(self)@.pos + 1, CharClass::IdentContinue);
            }
        }
        proof {
            use_type_invariant(&*self);
        }
        string_of(&self.chars, start, self.cur.pos)
    }

    /// Read and return a sequence of ASCII digits.
    /// Returns an empty string if the current character is not a digit.
    pub fn read_digits(&mut self) -> (r: String)
        ensures
            moved_forward(old(self)@, final(self)@),
            final(self)@.pos == run_end(old(self)@.text, old(self)@.pos, CharClass::Digit),
            r@ == old(self)@.text.subrange(old(self)@.pos, final(self)@.pos),
    {
        let start = self.advance_while(CharClass::Digit);
        proof {
            use_type_invariant(&*self);
            lemma_run_end(old(self)@.text, old(self)@.pos, CharClass::Digit);
        }
        string_of(&self.chars, start, self.cur.pos)
    }

    /// Read an integer or floating-point literal: `[0-9]+(.[0-9]+)?`.
    /// Returns an empty string if the current character is not a digit. A `.` is only
    /// taken when a digit follows it, so that a range operator like `1..` is left alone.
    pub fn read_number(&mut self) -> (r: String)
        ensures
            moved_forward(old(self)@, final(self)@),
            final(self)@.pos == old(self)@.number_end(),
            r@ == old(self)@.text.subrange(old(self)@.pos, final(self)@.pos),
    {
        proof {
            use_type_invariant(&*self);
        }
        let start = self.advance_while(CharClass::Digit);
        proof {
            use_type_invariant(&*self);
            lemma_run_end(old(self)@.text, old(self)@.pos, CharClass::Digit);
        }
        let p = self.cur.pos;
        if start < p && p < self.chars.len() && self.chars[p] == '.' {
            if p + 1 < self.chars.len() && ascii_digit(self.chars[p + 1]) {
                self.step();
                self.advance_while(CharClass::Digit);
                proof {
                    lemma_run_end(old(self)@.text, p + 1, CharClass::Digit);
                }
            }
        }
        proof {
            use_type_invariant(&*self);
        }
        string_of(&self.chars, start, self.cur.pos)
    }

    /// Read and return all characters up to (but not including) the next newline.
    pub fn read_line(&mut self) -> (r: String)
        ensures
            moved_forward(old(self)@, final(self)@),
            final(self)@.pos == run_end(old(self)@.text, old(self)@.pos, CharClass::NotNewline),
            r@ == old(self)@.text.subrange(old(self)@.pos, final(self)@.pos),
    {
        let start = self.advance_while(CharClass::NotNewline);
        proof {
            use_type_invariant(&*self);
            lemma_run_end(old(self)@.text, old(self)@.pos, CharClass::NotNewline);
        }
        string_of(&self.chars, start, self.cur.pos)
    }

    /// Read and return characters until the substring `end` is found.
    /// The `end` string itself is **not** consumed.
    pub fn read_until_str(&mut self, end: &str) -> (r: String)
        ensures
            moved_forward(old(self)@, final(self)@),
            final(self)@.pos == find_from(old(self)@.text, old(self)@.pos, end@),
            r@ == old(self)@.text.subrange(old(self)@.pos, final(self)@.pos),
    {
        proof {
            use_type_invariant(&*self);
        }
        let pat = str_chars(end);
        let start = self.advance_until(&pat);
        proof {
            use_type_invariant(&*self);
            lemma_find_from(old(self)@.text, old(self)@.pos, end@);
        }
        string_of(&self.chars, start, self.cur.pos)
    }

    /// Read a quoted string delimited by `delim` (e.g. `'"'` or `'\''`),
    /// handling `\`-escape sequences.  The opening delimiter must already be
    /// the current character; it is consumed together with the closing one.
    ///
    /// Recognised escapes: `\n`, `\t`, `\r`, `\\`, `\"`, `\'`, and `\<delim>`.
    /// Any other `\x` is returned as the literal character `x`.
    pub fn read_quoted(&mut self, delim: char) -> (r: String)
        ensures
            moved_forward(old(self)@, final(self)@),
            r@ == quoted_body(old(self)@.text, old(self)@.quote_start(delim), delim).0,
            final(self)@.pos == quoted_body(
                old(self)@.text,
                old(self)@.quote_start(delim),
                delim,
            ).1,
    {
        proof {
            use_type_invariant(&*self);
        }
        if self.peek() == Some(delim) {
            self.step();
        }
        proof {
            use_type_invariant(&*self);
        }
        let ghost start = self@.pos;
        let ghost text = self@.text;
        let mut out = String::new();
        loop
            invariant_except_break
                self@.text == text,
                0 <= self@.pos <= text.len(),
                out@ + quoted_body(text, self@.pos, delim).0 == quoted_body(text, start, delim).0,
                quoted_body(text, self@.pos, delim).1 == quoted_body(text, start, delim).1,
            ensures
                self@.text == text,
                out@ == quoted_body(text, start, delim).0,
                self@.pos == quoted_body(text, start, delim).1,
            decreases text.len() - self@.pos,
        {
            proof {
                use_type_invariant(&*self);
            }
            let ghost q = self@.pos;
            match self.peek() {
                None => {
                    assert(out@ =~= out@ + quoted_body(text, q, delim).0);
                    break ;
                },
                Some(c) => {
                    if c == '\\' {
                        self.step();
                        match self.peek() {
                            None => {
                                assert(out@ =~= out@ + quoted_body(text, q, delim).0);
                                break ;
                            },
                            Some(e) => {
                                let escaped = if e == 'n' {
                                    '\n'
                                } else if e == 't' {
                                    '\t'
                                } else if e == 'r' {
                                    '\r'
                                } else {
                                    e
                                };
                                push_char(&mut out, escaped);
                                self.step();
                                assert(out@ + quoted_body(text, self@.pos, delim).0 =~= quoted_body(
                                    text,
                                    start,
                                    delim,
                                ).0);
                            },
                        }
                    } else if c == delim {
                        self.step();
                        assert(out@ =~= out@ + quoted_body(text, q, delim).0);
                        break ;
                    } else {
                        push_char(&mut out, c);
                        self.step();
                        assert(out@ + quoted_body(text, self@.pos, delim).0 =~= quoted_body(
                            text,
                            start,
                            delim,
                        ).0);
                    }
                },
            }
        }
        proof {
            lemma_quoted_body_bounds(text, start, delim);
        }
        out
    }

    // ── Span helpers ──────────────────────────────────────────────────────
    /// Return a zero-length span at the current position.
    pub fn current_span(&self) -> (r: Span)
        ensures
            r.start == self@.pos,
            r.end == self@.pos,
            r.line == self@.line(),
            r.col == self@.col(),
    {
        proof {
            use_type_invariant(self);
        }
        Span {
            start: self.cur.pos as u64,
            end: self.cur.pos as u64,
            line: self.cur.line,
            col: self.cur.col,
        }
    }

    /// Return a span from offset `start` up to the current position.
    /// The `line` and `col` fields record the position at *`start`* — callers
    /// should capture them with `line_num()` / `col_num()` before parsing.
    pub fn span_from(&self, start: u64, start_line: u64, start_col: u64) -> (r: Span)
        ensures
            r.start == start,
            r.end == self@.pos,
            r.line == start_line,
            r.col == start_col,
    {
        proof {
            use_type_invariant(self);
        }
        Span { start, end: self.cur.pos as u64, line: start_line, col: start_col }
    }
}

} // verus!
