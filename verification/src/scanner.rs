//! Lexical scanner: groups positioned codepoints into classified tokens.
//!
//! The scanner keeps exactly one already-fetched lookahead character.  A
//! call to [`Scanner::scan`] discards white space, records the position of
//! the first significant character, and consumes a maximal run for words
//! and numbers or one or two characters for operators.  `spec_scan` is the
//! mathematical model: it says, for a source text and the offset of the
//! current lookahead character, exactly which token (or lexical error)
//! the next call produces and where the lookahead stands afterwards.

use crate::chars;
use crate::chars::END_OF_INPUT;
use crate::input::col_at;
use crate::input::line_at;
use crate::input::Input;
use crate::input::SourceChar;
use crate::input::padded;
use vstd::prelude::*;

verus! {

/// Token categories.  `Begin` is the dummy that primes the parser's
/// lookahead and never comes out of `scan`; `End` is the permanent
/// end-of-stream category.
#[derive(Clone, Copy, Debug, PartialEq, Eq, Structural)]
pub enum TokTp {
    Begin,
    Read,
    Write,
    Ident,
    ILit,
    RLit,
    Gets,
    Greater,
    Lesser,
    EqualTo,
    NEqualTo,
    GreaterEq,
    LesserEq,
    If,
    Fi,
    Do,
    Od,
    Check,
    Int,
    Real,
    Trunc,
    Float,
    Plus,
    Minus,
    Times,
    DivBy,
    LParen,
    RParen,
    End,
}

/// A scanned token: category, exact matched text, and the position of its
/// first character.
#[derive(Clone, Debug, PartialEq, Eq)]
pub struct Token {
    pub tp: TokTp,
    pub text: Vec<char>,
    /// 1-based source line of the first character.
    pub line: usize,
    /// 0-based codepoint column of the first character.
    pub col: usize,
}

/// A fatal scanning failure.
#[derive(Clone, Copy, Debug, PartialEq, Eq, Structural)]
pub enum LexErr {
    /// `:`, `=` or `!` was scanned and the mandatory following `=` was
    /// absent: `after` is the operator character, `got` what stood next.
    MissingEq { after: char, got: char },
    /// A character that cannot start any token.
    Unexpected { got: char },
}

/// What one call to `scan` yields, in the model: a token together with the
/// offset of the lookahead character left behind, or a lexical error.
pub ghost enum ScanOut {
    Tok { tp: TokTp, text: Seq<char>, next: int },
    Fail { e: LexErr },
}

/// A character that may continue an identifier or keyword.
pub open spec fn is_word_char(c: char) -> bool {
    c == '_' || chars::is_letter_or_digit(c)
}

/// A character that may continue a numeric literal.  A decimal point is
/// consumed into the run without changing the category.
pub open spec fn is_number_char(c: char) -> bool {
    chars::is_digit(c) || c == '.'
}

/// The first offset at or after `j` holding something other than white
/// space, or the end of the text.
pub open spec fn skip_space(s: Seq<char>, j: int) -> int
    decreases s.len() - j,
        when 0 <= j <= s.len()
{
    if j == s.len() {
        j
    } else if chars::is_space(s[j]) {
        skip_space(s, j + 1)
    } else {
        j
    }
}

/// The first offset at or after `i` that cannot continue a word, or the
/// end of the text.
pub open spec fn word_end(s: Seq<char>, i: int) -> int
    decreases s.len() - i,
        when 0 <= i <= s.len()
{
    if i == s.len() {
        i
    } else if is_word_char(s[i]) {
        word_end(s, i + 1)
    } else {
        i
    }
}

/// The first offset at or after `i` that cannot continue a number, or the
/// end of the text.
pub open spec fn number_end(s: Seq<char>, i: int) -> int
    decreases s.len() - i,
        when 0 <= i <= s.len()
{
    if i == s.len() {
        i
    } else if is_number_char(s[i]) {
        number_end(s, i + 1)
    } else {
        i
    }
}

/// The keyword table: the category of an alphabetic word.
pub open spec fn keyword_tp(text: Seq<char>) -> TokTp {
    if text == "read"@ {
        TokTp::Read
    } else if text == "write"@ {
        TokTp::Write
    } else if text == "if"@ {
        TokTp::If
    } else if text == "fi"@ {
        TokTp::Fi
    } else if text == "do"@ {
        TokTp::Do
    } else if text == "od"@ {
        TokTp::Od
    } else if text == "int"@ {
        TokTp::Int
    } else if text == "real"@ {
        TokTp::Real
    } else if text == "trunc"@ {
        TokTp::Trunc
    } else if text == "float"@ {
        TokTp::Float
    } else if text == "check"@ {
        TokTp::Check
    } else {
        TokTp::Ident
    }
}

/// The lookahead character standing at offset `k`: the text's character
/// there, or the end-of-input sentinel beyond the text.
pub open spec fn peek_at(s: Seq<char>, k: int) -> char {
    if 0 <= k < s.len() {
        s[k]
    } else {
        END_OF_INPUT
    }
}

/// The model of one `scan` call, starting with the lookahead character at
/// offset `j`.
pub open spec fn spec_scan(s: Seq<char>, j: int) -> ScanOut
    recommends
        0 <= j <= s.len(),
{
    let t = skip_space(s, j);
    if t == s.len() || s[t] == END_OF_INPUT {
        ScanOut::Tok { tp: TokTp::End, text: Seq::empty(), next: t }
    } else if chars::is_letter(s[t]) {
        let e = word_end(s, t + 1);
        ScanOut::Tok { tp: keyword_tp(s.subrange(t, e)), text: s.subrange(t, e), next: e }
    } else if chars::is_digit(s[t]) {
        let e = number_end(s, t + 1);
        ScanOut::Tok { tp: TokTp::ILit, text: s.subrange(t, e), next: e }
    } else if s[t] == '(' {
        ScanOut::Tok { tp: TokTp::LParen, text: seq![s[t]], next: t + 1 }
    } else if s[t] == ')' {
        ScanOut::Tok { tp: TokTp::RParen, text: seq![s[t]], next: t + 1 }
    } else if s[t] == '+' {
        ScanOut::Tok { tp: TokTp::Plus, text: seq![s[t]], next: t + 1 }
    } else if s[t] == '-' {
        ScanOut::Tok { tp: TokTp::Minus, text: seq![s[t]], next: t + 1 }
    } else if s[t] == '*' {
        ScanOut::Tok { tp: TokTp::Times, text: seq![s[t]], next: t + 1 }
    } else if s[t] == '/' {
        ScanOut::Tok { tp: TokTp::DivBy, text: seq![s[t]], next: t + 1 }
    } else if s[t] == ':' || s[t] == '=' || s[t] == '!' {
        if peek_at(s, t + 1) == '=' {
            ScanOut::Tok {
                tp: if s[t] == ':' {
                    TokTp::Gets
                } else if s[t] == '=' {
                    TokTp::EqualTo
                } else {
                    TokTp::NEqualTo
                },
                text: seq![s[t], '='],
                next: t + 2,
            }
        } else {
            ScanOut::Fail { e: LexErr::MissingEq { after: s[t], got: peek_at(s, t + 1) } }
        }
    } else if s[t] == '<' || s[t] == '>' {
        if peek_at(s, t + 1) == '=' {
            ScanOut::Tok {
                tp: if s[t] == '<' {
                    TokTp::LesserEq
                } else {
                    TokTp::GreaterEq
                },
                text: seq![s[t], '='],
                next: t + 2,
            }
        } else {
            ScanOut::Tok {
                tp: if s[t] == '<' {
                    TokTp::Lesser
                } else {
                    TokTp::Greater
                },
                text: seq![s[t]],
                next: t + 1,
            }
        }
    } else {
        ScanOut::Fail { e: LexErr::Unexpected { got: s[t] } }
    }
}

/// Whether scanning at `j` succeeds.
pub open spec fn scan_ok(s: Seq<char>, j: int) -> bool {
    spec_scan(s, j) is Tok
}

pub open spec fn tok_tp(s: Seq<char>, j: int) -> TokTp {
    match spec_scan(s, j) {
        ScanOut::Tok { tp, .. } => tp,
        ScanOut::Fail { .. } => TokTp::Begin,
    }
}

pub open spec fn tok_text(s: Seq<char>, j: int) -> Seq<char> {
    match spec_scan(s, j) {
        ScanOut::Tok { text, .. } => text,
        ScanOut::Fail { .. } => Seq::empty(),
    }
}

pub open spec fn tok_next(s: Seq<char>, j: int) -> int {
    match spec_scan(s, j) {
        ScanOut::Tok { next, .. } => next,
        ScanOut::Fail { .. } => j,
    }
}

pub open spec fn lex_err(s: Seq<char>, j: int) -> LexErr {
    match spec_scan(s, j) {
        ScanOut::Tok { .. } => LexErr::Unexpected { got: ' ' },
        ScanOut::Fail { e } => e,
    }
}

/// The 1-based line of the token scanned at `j`: the line of its first
/// character (of the end-of-input position for the end token).
pub open spec fn tok_line(s: Seq<char>, j: int) -> nat {
    line_at(s, skip_space(s, j))
}

pub open spec fn tok_col(s: Seq<char>, j: int) -> nat {
    col_at(s, skip_space(s, j))
}

pub proof fn lemma_skip_space_range(s: Seq<char>, j: int)
    requires
        0 <= j <= s.len(),
    ensures
        j <= skip_space(s, j) <= s.len(),
        skip_space(s, j) < s.len() ==> !chars::is_space(s[skip_space(s, j)]),
    decreases s.len() - j,
{
    if j < s.len() && chars::is_space(s[j]) {
        lemma_skip_space_range(s, j + 1);
    }
}

proof fn lemma_skip_space_is(s: Seq<char>, j: int, k: int)
    requires
        0 <= j <= k <= s.len(),
        forall|m: int| j <= m < k ==> chars::is_space(#[trigger] s[m]),
        k == s.len() || !chars::is_space(s[k]),
    ensures
        skip_space(s, j) == k,
    decreases k - j,
{
    if j < k {
        lemma_skip_space_is(s, j + 1, k);
    }
}

pub proof fn lemma_word_end_range(s: Seq<char>, i: int)
    requires
        0 <= i <= s.len(),
    ensures
        i <= word_end(s, i) <= s.len(),
        forall|m: int| i <= m < word_end(s, i) ==> is_word_char(#[trigger] s[m]),
    decreases s.len() - i,
{
    if i < s.len() && is_word_char(s[i]) {
        lemma_word_end_range(s, i + 1);
    }
}

proof fn lemma_word_end_is(s: Seq<char>, i: int, k: int)
    requires
        0 <= i <= k <= s.len(),
        forall|m: int| i <= m < k ==> is_word_char(#[trigger] s[m]),
        k == s.len() || !is_word_char(s[k]),
    ensures
        word_end(s, i) == k,
    decreases k - i,
{
    if i < k {
        lemma_word_end_is(s, i + 1, k);
    }
}

pub proof fn lemma_number_end_range(s: Seq<char>, i: int)
    requires
        0 <= i <= s.len(),
    ensures
        i <= number_end(s, i) <= s.len(),
        forall|m: int| i <= m < number_end(s, i) ==> is_number_char(#[trigger] s[m]),
    decreases s.len() - i,
{
    if i < s.len() && is_number_char(s[i]) {
        lemma_number_end_range(s, i + 1);
    }
}

proof fn lemma_number_end_is(s: Seq<char>, i: int, k: int)
    requires
        0 <= i <= k <= s.len(),
        forall|m: int| i <= m < k ==> is_number_char(#[trigger] s[m]),
        k == s.len() || !is_number_char(s[k]),
    ensures
        number_end(s, i) == k,
    decreases k - i,
{
    if i < k {
        lemma_number_end_is(s, i + 1, k);
    }
}

/// Scanning at a successful token's `next` offset starts at or after that
/// offset; the end token leaves the lookahead where it stood.
pub proof fn lemma_tok_next_range(s: Seq<char>, j: int)
    requires
        0 <= j <= s.len(),
        scan_ok(s, j),
    ensures
        j <= tok_next(s, j) <= s.len(),
        tok_tp(s, j) != TokTp::End ==> skip_space(s, j) < tok_next(s, j),
        tok_tp(s, j) == TokTp::End ==> tok_next(s, j) == skip_space(s, j),
{
    lemma_skip_space_range(s, j);
    let t = skip_space(s, j);
    if !(t == s.len() || s[t] == END_OF_INPUT) {
        if chars::is_letter(s[t]) {
            lemma_word_end_range(s, t + 1);
        } else if chars::is_digit(s[t]) {
            lemma_number_end_range(s, t + 1);
        }
    }
}

/// No token's text contains a line terminator or a blank: every
/// white-space character — the line terminator included — ends the token
/// in progress, so no token spans a line boundary and no white space
/// between tokens survives into a token's text.
pub proof fn lemma_token_text_no_line_break(s: Seq<char>, j: int)
    requires
        0 <= j <= s.len(),
        scan_ok(s, j),
    ensures
        forall|i: int| 0 <= i < tok_text(s, j).len() ==> #[trigger] tok_text(s, j)[i] != '\n',
        forall|i: int| 0 <= i < tok_text(s, j).len() ==> #[trigger] tok_text(s, j)[i] != ' ',
{
    lemma_skip_space_range(s, j);
    let t = skip_space(s, j);
    if !(t == s.len() || s[t] == END_OF_INPUT) {
        if chars::is_letter(s[t]) {
            lemma_word_end_range(s, t + 1);
        } else if chars::is_digit(s[t]) {
            lemma_number_end_range(s, t + 1);
        }
    }
}

/// A character that may begin a token (or end the stream).  Everything
/// else is rejected the moment it becomes the significant lookahead.
pub open spec fn starts_token(c: char) -> bool {
    ||| c == END_OF_INPUT
    ||| chars::is_letter(c)
    ||| chars::is_digit(c)
    ||| c == '(' || c == ')' || c == '+' || c == '-' || c == '*' || c == '/'
    ||| c == ':' || c == '=' || c == '!' || c == '<' || c == '>'
}

/// The two lexical failures, exactly when they strike: a scan fails on an
/// unrecognized character, and on `:`, `=` or `!` whose mandatory second
/// `=` is absent — nothing else ever fails, and no token comes out of a
/// failing scan.
pub proof fn lemma_lexical_failure(s: Seq<char>, j: int)
    requires
        0 <= j <= s.len(),
    ensures
        ({
            let t = skip_space(s, j);
            &&& (t < s.len() && !starts_token(s[t]) ==> spec_scan(s, j) == (ScanOut::Fail {
                e: LexErr::Unexpected { got: s[t] },
            }))
            &&& (t < s.len() && (s[t] == ':' || s[t] == '=' || s[t] == '!') && peek_at(s, t + 1)
                != '=' ==> spec_scan(s, j) == (ScanOut::Fail {
                e: LexErr::MissingEq { after: s[t], got: peek_at(s, t + 1) },
            }))
            &&& (scan_ok(s, j) || spec_scan(s, j) == (ScanOut::Fail { e: lex_err(s, j) }))
        }),
{
    lemma_skip_space_range(s, j);
}

pub struct Scanner {
    input: Input,
    next_char: SourceChar,
}

impl Scanner {
    /// The source text being scanned.
    pub closed spec fn src(self) -> Seq<char> {
        self.input.src()
    }

    /// Freshly constructed: the lookahead is still the dummy blank that
    /// primes the first white-space skip.
    pub closed spec fn fresh(self) -> bool {
        self.input.at() == 0 && self.next_char.ch != END_OF_INPUT
    }

    /// Offset of the lookahead character.
    pub closed spec fn at(self) -> int {
        if self.next_char.ch == END_OF_INPUT {
            self.input.at()
        } else if self.input.at() == 0 {
            0
        } else {
            self.input.at() - 1
        }
    }

    pub closed spec fn wf(self) -> bool {
        &&& self.input.wf()
        &&& 0 <= self.at() <= self.src().len()
        &&& if self.fresh() {
            self.next_char.ch == ' '
        } else {
            &&& self.next_char.ch == peek_at(self.src(), self.at())
            &&& self.next_char.line == line_at(self.src(), self.at())
            &&& self.next_char.col == col_at(self.src(), self.at())
            &&& self.input.at() == if self.at() < self.src().len() && self.src()[self.at()]
                != END_OF_INPUT {
                self.at() + 1
            } else {
                self.at()
            }
        }
    }

    pub fn new(text: Vec<char>) -> (r: Scanner)
        requires
            text@.len() < usize::MAX - 1,
        ensures
            r.wf(),
            r.fresh(),
            r.src() == padded(text@),
            r.at() == 0,
    {
        Scanner { input: Input::new(text), next_char: SourceChar { ch: ' ', line: 0, col: 0 } }
    }

    /// Fetch one character, keeping the lookahead relation: the new
    /// lookahead stands one offset further (or at the permanent end).
    fn bump(&mut self)
        requires
            old(self).wf(),
        ensures
            final(self).wf(),
            !final(self).fresh(),
            final(self).src() == old(self).src(),
            final(self).at() == if old(self).fresh() {
                0int
            } else if old(self).at() < old(self).src().len() && old(self).src()[old(self).at()]
                != END_OF_INPUT {
                old(self).at() + 1
            } else {
                old(self).at()
            },
    {
        self.next_char = self.input.getc();
    }

    /// Scan the next token.  The result and the new lookahead offset are
    /// exactly those of `spec_scan` at the old lookahead offset; the
    /// token's position is that of its first character.
    pub fn scan(&mut self) -> (r: Result<Token, LexErr>)
        requires
            old(self).wf(),
        ensures
            final(self).src() == old(self).src(),
            match r {
                Ok(t) => {
                    &&& final(self).wf()
                    &&& !final(self).fresh()
                    &&& spec_scan(old(self).src(), old(self).at()) == (ScanOut::Tok {
                        tp: t.tp,
                        text: t.text@,
                        next: final(self).at(),
                    })
                    &&& t.line == tok_line(old(self).src(), old(self).at())
                    &&& t.col == tok_col(old(self).src(), old(self).at())
                    &&& old(self).at() <= final(self).at() <= final(self).src().len()
                    &&& (t.tp != TokTp::End ==> old(self).at() < final(self).at())
                },
                Err(e) => spec_scan(old(self).src(), old(self).at()) == (ScanOut::Fail { e }),
            },
    {
        let ghost s = self.src();
        let ghost j0 = self.at();

        // Discard white space; the dummy blank of a fresh scanner is
        // discarded like any other blank.
        let mut ws = chars::whitespace(self.next_char.ch);
        while ws
            invariant
                self.wf(),
                self.src() == s,
                0 <= j0 <= self.at() <= s.len(),
                ws == chars::is_space(
                    if self.fresh() {
                        ' '
                    } else {
                        peek_at(s, self.at())
                    },
                ),
                self.fresh() ==> self.at() == 0,
                skip_space(s, j0) == skip_space(s, self.at()),
                !ws ==> !self.fresh(),
            decreases s.len() - self.at(), if self.fresh() {
                1int
            } else {
                0int
            },
        {
            proof {
                if !self.fresh() && self.at() < s.len() {
                    assert(chars::is_space(s[self.at()]));
                }
            }
            self.bump();
            ws = chars::whitespace(self.next_char.ch);
        }
        proof {
            lemma_skip_space_range(s, self.at());
            if self.at() < s.len() && s[self.at()] != END_OF_INPUT {
                assert(skip_space(s, self.at()) == self.at());
            }
        }
        let ghost t = skip_space(s, j0);
        let line = self.next_char.line;
        let col = self.next_char.col;

        if self.next_char.ch == END_OF_INPUT {
            // Permanent end of stream: the lookahead stays put.
            return Ok(Token { tp: TokTp::End, text: Vec::new(), line, col });
        }
        assert(self.at() == t && t < s.len() && s[t] == self.next_char.ch);

        if chars::alphabetic(self.next_char.ch) {
            // Maximal run of word characters: identifier or keyword.
            let mut text: Vec<char> = Vec::new();
            text.push(self.next_char.ch);
            self.bump();
            proof {
                assert(text@ =~= s.subrange(t, t + 1));
            }
            let mut more = word_continue(self.next_char.ch);
            while more
                invariant
                    self.wf(),
                    !self.fresh(),
                    self.src() == s,
                    0 <= t && t + 1 <= self.at() <= s.len(),
                    more == is_word_char(peek_at(s, self.at())),
                    text@ == s.subrange(t, self.at()),
                    forall|m: int| t + 1 <= m < self.at() ==> is_word_char(#[trigger] s[m]),
                decreases s.len() - self.at(),
            {
                let ghost k = self.at();
                proof {
                    assert(self.next_char.ch == s[k]);
                }
                text.push(self.next_char.ch);
                proof {
                    assert(text@ =~= s.subrange(t, k + 1));
                }
                self.bump();
                more = word_continue(self.next_char.ch);
            }
            proof {
                lemma_word_end_is(s, t + 1, self.at());
            }
            let tp = classify_word(&text);
            return Ok(Token { tp, text, line, col });
        }

        if chars::digit(self.next_char.ch) {
            // Maximal run of digits; a decimal point joins the run but the
            // category stays integer literal.
            let mut text: Vec<char> = Vec::new();
            text.push(self.next_char.ch);
            self.bump();
            proof {
                assert(text@ =~= s.subrange(t, t + 1));
            }
            let mut more = number_continue(self.next_char.ch);
            while more
                invariant
                    self.wf(),
                    !self.fresh(),
                    self.src() == s,
                    0 <= t && t + 1 <= self.at() <= s.len(),
                    more == is_number_char(peek_at(s, self.at())),
                    text@ == s.subrange(t, self.at()),
                    forall|m: int| t + 1 <= m < self.at() ==> is_number_char(#[trigger] s[m]),
                decreases s.len() - self.at(),
            {
                let ghost k = self.at();
                proof {
                    assert(self.next_char.ch == s[k]);
                }
                text.push(self.next_char.ch);
                proof {
                    assert(text@ =~= s.subrange(t, k + 1));
                }
                self.bump();
                more = number_continue(self.next_char.ch);
            }
            proof {
                lemma_number_end_is(s, t + 1, self.at());
            }
            return Ok(Token { tp: TokTp::ILit, text, line, col });
        }

        // Operators and punctuation: one character, with a possible
        // compound second `=`.
        let c = self.next_char.ch;
        let mut text: Vec<char> = Vec::new();
        text.push(c);
        self.bump();
        proof {
            assert(text@ =~= seq![s[t]]);
        }
        match c {
            '(' => Ok(Token { tp: TokTp::LParen, text, line, col }),
            ')' => Ok(Token { tp: TokTp::RParen, text, line, col }),
            '+' => Ok(Token { tp: TokTp::Plus, text, line, col }),
            '-' => Ok(Token { tp: TokTp::Minus, text, line, col }),
            '*' => Ok(Token { tp: TokTp::Times, text, line, col }),
            '/' => Ok(Token { tp: TokTp::DivBy, text, line, col }),
            ':' | '=' | '!' => {
                if self.next_char.ch == '=' {
                    text.push('=');
                    self.bump();
                    proof {
                        assert(text@ =~= seq![s[t], '=']);
                    }
                    let tp = if c == ':' {
                        TokTp::Gets
                    } else if c == '=' {
                        TokTp::EqualTo
                    } else {
                        TokTp::NEqualTo
                    };
                    Ok(Token { tp, text, line, col })
                } else {
                    Err(LexErr::MissingEq { after: c, got: self.next_char.ch })
                }
            },
            '<' | '>' => {
                if self.next_char.ch == '=' {
                    text.push('=');
                    self.bump();
                    proof {
                        assert(text@ =~= seq![s[t], '=']);
                    }
                    let tp = if c == '<' {
                        TokTp::LesserEq
                    } else {
                        TokTp::GreaterEq
                    };
                    Ok(Token { tp, text, line, col })
                } else {
                    let tp = if c == '<' {
                        TokTp::Lesser
                    } else {
                        TokTp::Greater
                    };
                    Ok(Token { tp, text, line, col })
                }
            },
            _ => Err(LexErr::Unexpected { got: c }),
        }
    }
}

/// A character that may continue a word, decided over the lookahead.
fn word_continue(c: char) -> (r: bool)
    ensures
        r == is_word_char(c),
{
    c == '_' || chars::alphanumeric(c)
}

/// A character that may continue a number.
fn number_continue(c: char) -> (r: bool)
    ensures
        r == is_number_char(c),
{
    chars::digit(c) || c == '.'
}

/// Keyword table lookup over the accumulated word.
fn classify_word(text: &Vec<char>) -> (tp: TokTp)
    ensures
        tp == keyword_tp(text@),
{
    proof {
        reveal_strlit("read");
        reveal_strlit("write");
        reveal_strlit("if");
        reveal_strlit("fi");
        reveal_strlit("do");
        reveal_strlit("od");
        reveal_strlit("int");
        reveal_strlit("real");
        reveal_strlit("trunc");
        reveal_strlit("float");
        reveal_strlit("check");
    }
    let n = text.len();
    if n == 2 {
        if text[0] == 'i' && text[1] == 'f' {
            proof {
                assert(text@ =~= "if"@);
            }
            return TokTp::If;
        }
        if text[0] == 'f' && text[1] == 'i' {
            proof {
                assert(text@ =~= "fi"@);
            }
            return TokTp::Fi;
        }
        if text[0] == 'd' && text[1] == 'o' {
            proof {
                assert(text@ =~= "do"@);
            }
            return TokTp::Do;
        }
        if text[0] == 'o' && text[1] == 'd' {
            proof {
                assert(text@ =~= "od"@);
            }
            return TokTp::Od;
        }
    } else if n == 3 {
        if text[0] == 'i' && text[1] == 'n' && text[2] == 't' {
            proof {
                assert(text@ =~= "int"@);
            }
            return TokTp::Int;
        }
    } else if n == 4 {
        if text[0] == 'r' && text[1] == 'e' && text[2] == 'a' && text[3] == 'd' {
            proof {
                assert(text@ =~= "read"@);
            }
            return TokTp::Read;
        }
        if text[0] == 'r' && text[1] == 'e' && text[2] == 'a' && text[3] == 'l' {
            proof {
                assert(text@ =~= "real"@);
            }
            return TokTp::Real;
        }
    } else if n == 5 {
        if text[0] == 'w' && text[1] == 'r' && text[2] == 'i' && text[3] == 't' && text[4] == 'e' {
            proof {
                assert(text@ =~= "write"@);
            }
            return TokTp::Write;
        }
        if text[0] == 't' && text[1] == 'r' && text[2] == 'u' && text[3] == 'n' && text[4] == 'c' {
            proof {
                assert(text@ =~= "trunc"@);
            }
            return TokTp::Trunc;
        }
        if text[0] == 'f' && text[1] == 'l' && text[2] == 'o' && text[3] == 'a' && text[4] == 't' {
            proof {
                assert(text@ =~= "float"@);
            }
            return TokTp::Float;
        }
        if text[0] == 'c' && text[1] == 'h' && text[2] == 'e' && text[3] == 'c' && text[4] == 'k' {
            proof {
                assert(text@ =~= "check"@);
            }
            return TokTp::Check;
        }
    }
    proof {
        assert(text@ != "read"@ && text@ != "write"@ && text@ != "if"@ && text@ != "fi"@ && text@
            != "do"@ && text@ != "od"@ && text@ != "int"@ && text@ != "real"@ && text@ != "trunc"@
            && text@ != "float"@ && text@ != "check"@);
    }
    TokTp::Ident
}

} // verus!
