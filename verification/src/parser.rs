//! Predictive parser: recursive descent over the calculator grammar.
//!
//! Every nonterminal is a method that inspects the single lookahead token,
//! selects a production by membership in that production's FIRST set — or,
//! for a nullable nonterminal, in its FOLLOW set — records the chosen
//! production in the trace, and drives the child nonterminals and terminal
//! matches left to right.  The first mismatch anywhere ends the run: a
//! lexical error from the scanner, or a syntax error carrying the source
//! line of the offending lookahead token.
//!
//! The grammar:
//! ```text
//! program    --> stmt_list $$
//! stmt_list  --> stmt stmt_list | epsilon
//! type       --> int | real | epsilon
//! stmt       --> ident ':=' expr | read type ident | write expr
//!              | if comp stmt_list fi | do stmt_list od | check comp
//!              | int ident ':=' expr | real ident ':=' expr
//! comp       --> expr comp_op expr
//! expr       --> term term_tail
//! term       --> factor factor_tail
//! term_tail  --> add_op term term_tail | epsilon
//! factor     --> ident | i_lit | r_lit | '(' expr ')'
//! factor_tail--> mul_op factor factor_tail | epsilon
//! comp_op    --> '>' | '<' | '==' | '!=' | '>=' | '<='
//! add_op     --> '+' | '-'
//! mul_op     --> '*' | '/'
//! ```
//!
//! The `sp_` spec functions are the mathematical model: for a source text
//! and the offset the current lookahead token was scanned from, they give
//! the outcome of each nonterminal — the offset the parse continues from,
//! or the exact error.  Epsilon productions are selected by the true
//! FOLLOW sets of the grammar above.

use crate::scanner::lex_err;
use crate::scanner::scan_ok;
use crate::scanner::tok_line;
use crate::scanner::tok_next;
use crate::scanner::tok_text;
use crate::scanner::tok_tp;
use crate::scanner::LexErr;
use crate::scanner::Scanner;
use crate::scanner::TokTp;
use crate::scanner::Token;
use crate::input::padded;
use crate::trace::event_ok;
use crate::trace::grows;
use crate::trace::grows_no_end;
use crate::trace::is_end_match;
use crate::trace::lemma_grows_no_end_trans;
use crate::trace::lemma_grows_trans;
use crate::trace::lemma_predicts_grows;
use crate::trace::predicts;
use crate::trace::Prod;
use crate::trace::TraceEvent;
use vstd::prelude::*;

verus! {

broadcast use lemma_grows_trans, lemma_grows_no_end_trans, lemma_predicts_grows;

/// A fatal parsing failure: the scanner's error passed through, or a
/// grammar mismatch with the 1-based source line of the offending token.
#[derive(Clone, Copy, Debug, PartialEq, Eq, Structural)]
pub enum PErr {
    Lex { e: LexErr },
    Syntax { line: usize },
}

/// Outcome of a nonterminal in the model: the offset the lookahead token
/// is scanned from afterwards, or the error that ends the run.
pub ghost enum Step {
    Next { next: int },
    Fail { e: PErr },
}

// ---------------------------------------------------------------------
// FIRST and FOLLOW sets.

/// FIRST(stmt).
pub open spec fn in_first_stmt(tp: TokTp) -> bool {
    ||| tp == TokTp::Ident
    ||| tp == TokTp::Read
    ||| tp == TokTp::Write
    ||| tp == TokTp::If
    ||| tp == TokTp::Do
    ||| tp == TokTp::Check
    ||| tp == TokTp::Int
    ||| tp == TokTp::Real
}

/// FIRST(expr) == FIRST(term) == FIRST(factor) == FIRST(comp).
pub open spec fn in_first_expr(tp: TokTp) -> bool {
    tp == TokTp::Ident || tp == TokTp::ILit || tp == TokTp::RLit || tp == TokTp::LParen
}

/// FOLLOW(stmt_list): end of stream, `fi`, `od`.
pub open spec fn in_follow_stmt_list(tp: TokTp) -> bool {
    tp == TokTp::End || tp == TokTp::Fi || tp == TokTp::Od
}

/// FIRST(comp_op): the six comparison operators.
pub open spec fn is_comp_op_tp(tp: TokTp) -> bool {
    ||| tp == TokTp::Greater
    ||| tp == TokTp::Lesser
    ||| tp == TokTp::EqualTo
    ||| tp == TokTp::NEqualTo
    ||| tp == TokTp::GreaterEq
    ||| tp == TokTp::LesserEq
}

/// FOLLOW(term_tail) == FOLLOW(expr): a comparison operator, a closing
/// parenthesis, or anything that may follow a statement.
pub open spec fn in_follow_term_tail(tp: TokTp) -> bool {
    is_comp_op_tp(tp) || tp == TokTp::RParen || in_first_stmt(tp) || in_follow_stmt_list(tp)
}

/// FOLLOW(factor_tail) == FOLLOW(term): FOLLOW(term_tail) plus the adding
/// operators.
pub open spec fn in_follow_factor_tail(tp: TokTp) -> bool {
    tp == TokTp::Plus || tp == TokTp::Minus || in_follow_term_tail(tp)
}

// ---------------------------------------------------------------------
// Which production a lookahead category selects, for the nonterminals
// with more than one.  Each nonterminal's first trace event is pinned to
// the production its lookahead selects.

pub open spec fn stmt_prod(tp: TokTp) -> Prod
    recommends
        in_first_stmt(tp),
{
    if tp == TokTp::Ident {
        Prod::StmtAssign
    } else if tp == TokTp::Read {
        Prod::StmtRead
    } else if tp == TokTp::Write {
        Prod::StmtWrite
    } else if tp == TokTp::If {
        Prod::StmtIf
    } else if tp == TokTp::Do {
        Prod::StmtDo
    } else if tp == TokTp::Check {
        Prod::StmtCheck
    } else if tp == TokTp::Int {
        Prod::StmtIntDecl
    } else {
        Prod::StmtRealDecl
    }
}

pub open spec fn stmt_list_prod(tp: TokTp) -> Prod {
    if in_first_stmt(tp) {
        Prod::StmtListStmt
    } else {
        Prod::StmtListEpsilon
    }
}

pub open spec fn types_prod(tp: TokTp) -> Prod {
    if tp == TokTp::Int {
        Prod::TypeInt
    } else if tp == TokTp::Real {
        Prod::TypeReal
    } else {
        Prod::TypeEpsilon
    }
}

pub open spec fn term_tail_prod(tp: TokTp) -> Prod {
    if tp == TokTp::Plus || tp == TokTp::Minus {
        Prod::TermTailMore
    } else {
        Prod::TermTailEpsilon
    }
}

pub open spec fn factor_tail_prod(tp: TokTp) -> Prod {
    if tp == TokTp::Times || tp == TokTp::DivBy {
        Prod::FactorTailMore
    } else {
        Prod::FactorTailEpsilon
    }
}

pub open spec fn factor_prod(tp: TokTp) -> Prod
    recommends
        in_first_expr(tp),
{
    if tp == TokTp::Ident {
        Prod::FactorIdent
    } else if tp == TokTp::ILit {
        Prod::FactorILit
    } else if tp == TokTp::RLit {
        Prod::FactorRLit
    } else {
        Prod::FactorParen
    }
}

pub open spec fn comp_op_prod(tp: TokTp) -> Prod
    recommends
        is_comp_op_tp(tp),
{
    if tp == TokTp::Greater {
        Prod::CompOpGreater
    } else if tp == TokTp::Lesser {
        Prod::CompOpLesser
    } else if tp == TokTp::EqualTo {
        Prod::CompOpEqualTo
    } else if tp == TokTp::NEqualTo {
        Prod::CompOpNEqualTo
    } else if tp == TokTp::GreaterEq {
        Prod::CompOpGreaterEq
    } else {
        Prod::CompOpLesserEq
    }
}

pub open spec fn add_op_prod(tp: TokTp) -> Prod {
    if tp == TokTp::Plus {
        Prod::AddOpPlus
    } else {
        Prod::AddOpMinus
    }
}

pub open spec fn mul_op_prod(tp: TokTp) -> Prod {
    if tp == TokTp::Times {
        Prod::MulOpTimes
    } else {
        Prod::MulOpDivBy
    }
}

// ---------------------------------------------------------------------
// The model.

/// The source line of the token scanned at `j`, as reported in a syntax
/// error.
pub open spec fn tok_line_num(s: Seq<char>, j: int) -> usize {
    tok_line(s, j) as usize
}

/// A syntax error on the line of the lookahead token scanned at `j`.
pub open spec fn sp_syntax(s: Seq<char>, j: int) -> Step {
    Step::Fail { e: PErr::Syntax { line: tok_line_num(s, j) } }
}

/// Matching one terminal.  The lookahead token was scanned at `j`; a
/// category mismatch is a syntax error on its line.  On a match the next
/// lookahead is scanned eagerly, so a lexical error there surfaces here.
pub open spec fn sp_eat(s: Seq<char>, j: int, expected: TokTp) -> Step {
    if tok_tp(s, j) != expected {
        sp_syntax(s, j)
    } else if !scan_ok(s, tok_next(s, j)) {
        Step::Fail { e: PErr::Lex { e: lex_err(s, tok_next(s, j)) } }
    } else {
        Step::Next { next: tok_next(s, j) }
    }
}

/// Matching one terminal after an earlier step, if that step succeeded.
pub open spec fn sp_then_eat(s: Seq<char>, st: Step, expected: TokTp) -> Step {
    match st {
        Step::Next { next } => sp_eat(s, next, expected),
        Step::Fail { e } => Step::Fail { e },
    }
}

/// type --> int | real | epsilon, the epsilon production selected on
/// FOLLOW(type) == { ident }.
pub open spec fn sp_types(s: Seq<char>, j: int) -> Step {
    let tp = tok_tp(s, j);
    if tp == TokTp::Int {
        sp_eat(s, j, TokTp::Int)
    } else if tp == TokTp::Real {
        sp_eat(s, j, TokTp::Real)
    } else if tp == TokTp::Ident {
        Step::Next { next: j }
    } else {
        sp_syntax(s, j)
    }
}

/// comp_op --> one of the six comparison operators.
pub open spec fn sp_comp_op(s: Seq<char>, j: int) -> Step {
    let tp = tok_tp(s, j);
    if is_comp_op_tp(tp) {
        sp_eat(s, j, tp)
    } else {
        sp_syntax(s, j)
    }
}

/// add_op --> '+' | '-'.
pub open spec fn sp_add_op(s: Seq<char>, j: int) -> Step {
    let tp = tok_tp(s, j);
    if tp == TokTp::Plus || tp == TokTp::Minus {
        sp_eat(s, j, tp)
    } else {
        sp_syntax(s, j)
    }
}

/// mul_op --> '*' | '/'.
pub open spec fn sp_mul_op(s: Seq<char>, j: int) -> Step {
    let tp = tok_tp(s, j);
    if tp == TokTp::Times || tp == TokTp::DivBy {
        sp_eat(s, j, tp)
    } else {
        sp_syntax(s, j)
    }
}

// The mutually recursive nonterminals.  Termination is by the offset the
// parse has reached, lexicographically with a rank for the calls that
// leave the offset unchanged.  A recursive call made after input was
// consumed is guarded by the offset having grown; the guards always hold
// of the model's own results, which the executable methods prove.

/// stmt_list --> stmt stmt_list | epsilon.
pub open spec fn sp_stmt_list(s: Seq<char>, j: int) -> Step
    decreases s.len() - j, 5int,
        when 0 <= j <= s.len()
{
    let tp = tok_tp(s, j);
    if in_first_stmt(tp) {
        match sp_stmt(s, j) {
            Step::Next { next } => if j < next <= s.len() {
                sp_stmt_list(s, next)
            } else {
                Step::Next { next }
            },
            Step::Fail { e } => Step::Fail { e },
        }
    } else if in_follow_stmt_list(tp) {
        Step::Next { next: j }
    } else {
        sp_syntax(s, j)
    }
}

/// stmt --> ident ':=' expr | read type ident | write expr
///        | if comp stmt_list fi | do stmt_list od | check comp
///        | int ident ':=' expr | real ident ':=' expr.
pub open spec fn sp_stmt(s: Seq<char>, j: int) -> Step
    decreases s.len() - j, 4int,
        when 0 <= j <= s.len()
{
    let tp = tok_tp(s, j);
    if tp == TokTp::Ident {
        match sp_then_eat(s, sp_eat(s, j, TokTp::Ident), TokTp::Gets) {
            Step::Next { next } => if j < next <= s.len() {
                sp_expr(s, next)
            } else {
                Step::Next { next }
            },
            Step::Fail { e } => Step::Fail { e },
        }
    } else if tp == TokTp::Read {
        match sp_eat(s, j, TokTp::Read) {
            Step::Next { next } => sp_then_eat(s, sp_types(s, next), TokTp::Ident),
            Step::Fail { e } => Step::Fail { e },
        }
    } else if tp == TokTp::Write {
        match sp_eat(s, j, TokTp::Write) {
            Step::Next { next } => if j < next <= s.len() {
                sp_expr(s, next)
            } else {
                Step::Next { next }
            },
            Step::Fail { e } => Step::Fail { e },
        }
    } else if tp == TokTp::If {
        match sp_eat(s, j, TokTp::If) {
            Step::Next { next } => if j < next <= s.len() {
                match sp_comp(s, next) {
                    Step::Next { next: n2 } => if j < n2 <= s.len() {
                        sp_then_eat(s, sp_stmt_list(s, n2), TokTp::Fi)
                    } else {
                        Step::Next { next: n2 }
                    },
                    Step::Fail { e } => Step::Fail { e },
                }
            } else {
                Step::Next { next }
            },
            Step::Fail { e } => Step::Fail { e },
        }
    } else if tp == TokTp::Do {
        match sp_eat(s, j, TokTp::Do) {
            Step::Next { next } => if j < next <= s.len() {
                sp_then_eat(s, sp_stmt_list(s, next), TokTp::Od)
            } else {
                Step::Next { next }
            },
            Step::Fail { e } => Step::Fail { e },
        }
    } else if tp == TokTp::Check {
        match sp_eat(s, j, TokTp::Check) {
            Step::Next { next } => if j < next <= s.len() {
                sp_comp(s, next)
            } else {
                Step::Next { next }
            },
            Step::Fail { e } => Step::Fail { e },
        }
    } else if tp == TokTp::Int || tp == TokTp::Real {
        match sp_then_eat(s, sp_then_eat(s, sp_eat(s, j, tp), TokTp::Ident), TokTp::Gets) {
            Step::Next { next } => if j < next <= s.len() {
                sp_expr(s, next)
            } else {
                Step::Next { next }
            },
            Step::Fail { e } => Step::Fail { e },
        }
    } else {
        sp_syntax(s, j)
    }
}

/// comp --> expr comp_op expr.
pub open spec fn sp_comp(s: Seq<char>, j: int) -> Step
    decreases s.len() - j, 3int,
        when 0 <= j <= s.len()
{
    if in_first_expr(tok_tp(s, j)) {
        match sp_expr(s, j) {
            Step::Next { next } => match sp_comp_op(s, next) {
                Step::Next { next: n2 } => if j < n2 <= s.len() {
                    sp_expr(s, n2)
                } else {
                    Step::Next { next: n2 }
                },
                Step::Fail { e } => Step::Fail { e },
            },
            Step::Fail { e } => Step::Fail { e },
        }
    } else {
        sp_syntax(s, j)
    }
}

/// expr --> term term_tail.
pub open spec fn sp_expr(s: Seq<char>, j: int) -> Step
    decreases s.len() - j, 2int,
        when 0 <= j <= s.len()
{
    if in_first_expr(tok_tp(s, j)) {
        match sp_term(s, j) {
            Step::Next { next } => if j < next <= s.len() {
                sp_term_tail(s, next)
            } else {
                Step::Next { next }
            },
            Step::Fail { e } => Step::Fail { e },
        }
    } else {
        sp_syntax(s, j)
    }
}

/// term --> factor factor_tail.
pub open spec fn sp_term(s: Seq<char>, j: int) -> Step
    decreases s.len() - j, 1int,
        when 0 <= j <= s.len()
{
    if in_first_expr(tok_tp(s, j)) {
        match sp_factor(s, j) {
            Step::Next { next } => if j < next <= s.len() {
                sp_factor_tail(s, next)
            } else {
                Step::Next { next }
            },
            Step::Fail { e } => Step::Fail { e },
        }
    } else {
        sp_syntax(s, j)
    }
}

/// term_tail --> add_op term term_tail | epsilon.
pub open spec fn sp_term_tail(s: Seq<char>, j: int) -> Step
    decreases s.len() - j, 0int,
        when 0 <= j <= s.len()
{
    let tp = tok_tp(s, j);
    if tp == TokTp::Plus || tp == TokTp::Minus {
        match sp_add_op(s, j) {
            Step::Next { next } => if j < next <= s.len() {
                match sp_term(s, next) {
                    Step::Next { next: n2 } => if j < n2 <= s.len() {
                        sp_term_tail(s, n2)
                    } else {
                        Step::Next { next: n2 }
                    },
                    Step::Fail { e } => Step::Fail { e },
                }
            } else {
                Step::Next { next }
            },
            Step::Fail { e } => Step::Fail { e },
        }
    } else if in_follow_term_tail(tp) {
        Step::Next { next: j }
    } else {
        sp_syntax(s, j)
    }
}

/// factor --> ident | i_lit | r_lit | '(' expr ')'.
pub open spec fn sp_factor(s: Seq<char>, j: int) -> Step
    decreases s.len() - j, 0int,
        when 0 <= j <= s.len()
{
    let tp = tok_tp(s, j);
    if tp == TokTp::Ident || tp == TokTp::ILit || tp == TokTp::RLit {
        sp_eat(s, j, tp)
    } else if tp == TokTp::LParen {
        match sp_eat(s, j, TokTp::LParen) {
            Step::Next { next } => if j < next <= s.len() {
                sp_then_eat(s, sp_expr(s, next), TokTp::RParen)
            } else {
                Step::Next { next }
            },
            Step::Fail { e } => Step::Fail { e },
        }
    } else {
        sp_syntax(s, j)
    }
}

/// factor_tail --> mul_op factor factor_tail | epsilon.
pub open spec fn sp_factor_tail(s: Seq<char>, j: int) -> Step
    decreases s.len() - j, 0int,
        when 0 <= j <= s.len()
{
    let tp = tok_tp(s, j);
    if tp == TokTp::Times || tp == TokTp::DivBy {
        match sp_mul_op(s, j) {
            Step::Next { next } => if j < next <= s.len() {
                match sp_factor(s, next) {
                    Step::Next { next: n2 } => if j < n2 <= s.len() {
                        sp_factor_tail(s, n2)
                    } else {
                        Step::Next { next: n2 }
                    },
                    Step::Fail { e } => Step::Fail { e },
                }
            } else {
                Step::Next { next }
            },
            Step::Fail { e } => Step::Fail { e },
        }
    } else if in_follow_factor_tail(tp) {
        Step::Next { next: j }
    } else {
        sp_syntax(s, j)
    }
}

/// program --> stmt_list $$.
pub open spec fn sp_program(s: Seq<char>, j: int) -> Step
    recommends
        0 <= j <= s.len(),
{
    let tp = tok_tp(s, j);
    if in_first_stmt(tp) || tp == TokTp::End {
        sp_then_eat(s, sp_stmt_list(s, j), TokTp::End)
    } else {
        sp_syntax(s, j)
    }
}

/// The whole run: prime the lookahead by scanning at offset 0, then parse
/// `program`.
pub open spec fn sp_parse(s: Seq<char>) -> Step {
    if scan_ok(s, 0) {
        sp_program(s, 0)
    } else {
        Step::Fail { e: PErr::Lex { e: lex_err(s, 0) } }
    }
}

/// A lookahead token that selects no production of the current
/// nonterminal — by membership neither in any production's FIRST set nor,
/// for the nullable nonterminals, in the FOLLOW set — fails that
/// nonterminal at once with a syntax error whose reported line is the
/// source line of that very token: the first unconsumed offending one.
pub proof fn lemma_prediction_failure(s: Seq<char>, j: int)
    requires
        0 <= j <= s.len(),
    ensures
        ({
            let tp = tok_tp(s, j);
            &&& (!(in_first_stmt(tp) || tp == TokTp::End) ==> sp_program(s, j) == sp_syntax(s, j))
            &&& (!(in_first_stmt(tp) || in_follow_stmt_list(tp)) ==> sp_stmt_list(s, j)
                == sp_syntax(s, j))
            &&& (!in_first_stmt(tp) ==> sp_stmt(s, j) == sp_syntax(s, j))
            &&& (!(tp == TokTp::Int || tp == TokTp::Real || tp == TokTp::Ident) ==> sp_types(s, j)
                == sp_syntax(s, j))
            &&& (!in_first_expr(tp) ==> sp_comp(s, j) == sp_syntax(s, j))
            &&& (!in_first_expr(tp) ==> sp_expr(s, j) == sp_syntax(s, j))
            &&& (!in_first_expr(tp) ==> sp_term(s, j) == sp_syntax(s, j))
            &&& (!in_first_expr(tp) ==> sp_factor(s, j) == sp_syntax(s, j))
            &&& (!(tp == TokTp::Plus || tp == TokTp::Minus || in_follow_term_tail(tp))
                ==> sp_term_tail(s, j) == sp_syntax(s, j))
            &&& (!(tp == TokTp::Times || tp == TokTp::DivBy || in_follow_factor_tail(tp))
                ==> sp_factor_tail(s, j) == sp_syntax(s, j))
            &&& (!is_comp_op_tp(tp) ==> sp_comp_op(s, j) == sp_syntax(s, j))
            &&& (!(tp == TokTp::Plus || tp == TokTp::Minus) ==> sp_add_op(s, j) == sp_syntax(s, j))
            &&& (!(tp == TokTp::Times || tp == TokTp::DivBy) ==> sp_mul_op(s, j) == sp_syntax(
                s,
                j,
            ))
            &&& (forall|expected: TokTp|
                tp != expected ==> #[trigger] sp_eat(s, j, expected) == sp_syntax(s, j))
        }),
{
}

// ---------------------------------------------------------------------
// The parser.

pub struct Parser {
    scanner: Scanner,
    next_tok: Token,
    trace: Vec<TraceEvent>,
    /// Offset the current lookahead token was scanned from.
    origin: Ghost<int>,
}

impl Parser {
    /// The source text being parsed.
    pub closed spec fn src(self) -> Seq<char> {
        self.scanner.src()
    }

    /// Offset the current lookahead token was scanned from.
    pub closed spec fn at(self) -> int {
        self.origin@
    }

    /// The trace so far.
    pub closed spec fn events(self) -> Seq<TraceEvent> {
        self.trace@
    }

    /// Freshly constructed: nothing scanned, nothing traced, the dummy
    /// start token in the lookahead.
    pub closed spec fn fresh(self) -> bool {
        &&& self.scanner.wf()
        &&& self.scanner.fresh()
        &&& self.scanner.at() == 0
        &&& self.trace@.len() == 0
    }

    /// The lookahead invariant: the lookahead token is exactly the one
    /// scanned at offset `at()`, and the scanner stands at its end.
    pub closed spec fn wf(self) -> bool {
        &&& self.scanner.wf()
        &&& !self.scanner.fresh()
        &&& 0 <= self.at() <= self.src().len()
        &&& scan_ok(self.src(), self.at())
        &&& self.next_tok.tp == tok_tp(self.src(), self.at())
        &&& self.next_tok.text@ == tok_text(self.src(), self.at())
        &&& self.next_tok.line == tok_line(self.src(), self.at())
        &&& self.scanner.at() == tok_next(self.src(), self.at())
    }

    pub fn new(text: Vec<char>) -> (r: Parser)
        requires
            text@.len() < usize::MAX - 1,
        ensures
            r.fresh(),
            r.src() == padded(text@),
            r.events() == Seq::<TraceEvent>::empty(),
    {
        let r = Parser {
            scanner: Scanner::new(text),
            next_tok: Token { tp: TokTp::Begin, text: Vec::new(), line: 0, col: 0 },
            trace: Vec::new(),
            origin: Ghost(0),
        };
        proof {
            assert(r.events() =~= Seq::<TraceEvent>::empty());
        }
        r
    }

    /// The trace of predicted productions and matched terminals, in the
    /// order they were emitted.  Valid after `parse`, also when parsing
    /// failed: everything emitted before the failure remains.
    pub fn trace(&self) -> (r: &Vec<TraceEvent>)
        ensures
            r@ == self.events(),
    {
        &self.trace
    }

    /// Match one terminal.  On a match the event is recorded and the next
    /// token scanned; on a mismatch the run ends with a syntax error on
    /// the lookahead's line, recording nothing.
    fn eat(&mut self, expected: TokTp) -> (r: Result<(), PErr>)
        requires
            old(self).wf(),
        ensures
            final(self).src() == old(self).src(),
            grows(old(self).src(), old(self).events(), final(self).events()),
            expected != TokTp::End ==> grows_no_end(
                old(self).src(),
                old(self).events(),
                final(self).events(),
            ),
            match r {
                Ok(()) => {
                    &&& final(self).wf()
                    &&& sp_eat(old(self).src(), old(self).at(), expected) == (Step::Next {
                        next: final(self).at(),
                    })
                    &&& old(self).at() <= final(self).at() <= old(self).src().len()
                    &&& (expected != TokTp::End ==> old(self).at() < final(self).at())
                    &&& final(self).events().len() == old(self).events().len() + 1
                    &&& (final(self).events().last() matches TraceEvent::Matched { tp, text }
                        && tp == expected && text@ == tok_text(old(self).src(), old(self).at()))
                },
                Err(e) => sp_eat(old(self).src(), old(self).at(), expected) == (Step::Fail { e }),
            },
    {
        let ghost s = self.src();
        let ghost j0 = self.at();
        if self.next_tok.tp == expected {
            let mut prev = Token { tp: expected, text: Vec::new(), line: 0, col: 0 };
            core::mem::swap(&mut self.next_tok, &mut prev);
            self.trace.push(TraceEvent::Matched { tp: expected, text: prev.text });
            proof {
                assert(scan_ok(s, j0) && tok_tp(s, j0) == expected);
                assert(event_ok(s, self.trace@.last()));
            }
            let ghost j1 = self.scanner.at();
            match self.scanner.scan() {
                Ok(t) => {
                    self.next_tok = t;
                    self.origin = Ghost(j1);
                    proof {
                        crate::scanner::lemma_tok_next_range(s, j0);
                        crate::scanner::lemma_skip_space_range(s, j0);
                    }
                    Ok(())
                },
                Err(e) => Err(PErr::Lex { e }),
            }
        } else {
            Err(PErr::Syntax { line: self.next_tok.line })
        }
    }

    // -----------------------------------------------------------------
    // Nonterminals.  Each method's result and new offset are exactly its
    // model's; the trace grows by the production predicted and whatever
    // the children emit, all of it honest and none of it matching the
    // end of stream.

    fn stmt_list(&mut self) -> (r: Result<(), PErr>)
        requires
            old(self).wf(),
        ensures
            final(self).src() == old(self).src(),
            grows_no_end(old(self).src(), old(self).events(), final(self).events()),
            ({
                let tp = tok_tp(old(self).src(), old(self).at());
                (in_first_stmt(tp) || in_follow_stmt_list(tp)) ==> predicts(old(self).events(), final(self).events(), stmt_list_prod(tp))
            }),
            match r {
                Ok(()) => {
                    &&& final(self).wf()
                    &&& old(self).at() <= final(self).at() <= old(self).src().len()
                    &&& sp_stmt_list(old(self).src(), old(self).at()) == (Step::Next {
                        next: final(self).at(),
                    })
                },
                Err(e) => sp_stmt_list(old(self).src(), old(self).at()) == (Step::Fail { e }),
            },
        decreases self.src().len() - self.at(), 5int,
    {
        match self.next_tok.tp {
            TokTp::Ident | TokTp::Read | TokTp::Write | TokTp::Int | TokTp::Real | TokTp::If
                | TokTp::Do | TokTp::Check => {
                self.push_predict(Prod::StmtListStmt);
                match self.stmt() {
                    Err(e) => return Err(e),
                    Ok(()) => {},
                }
                match self.stmt_list() {
                    Err(e) => return Err(e),
                    Ok(()) => {},
                }
                Ok(())
            },
            TokTp::End | TokTp::Fi | TokTp::Od => {
                self.push_predict(Prod::StmtListEpsilon);
                Ok(())
            },
            _ => Err(PErr::Syntax { line: self.next_tok.line }),
        }
    }

    fn stmt(&mut self) -> (r: Result<(), PErr>)
        requires
            old(self).wf(),
        ensures
            final(self).src() == old(self).src(),
            grows_no_end(old(self).src(), old(self).events(), final(self).events()),
            ({
                let tp = tok_tp(old(self).src(), old(self).at());
                (in_first_stmt(tp)) ==> predicts(old(self).events(), final(self).events(), stmt_prod(tp))
            }),
            match r {
                Ok(()) => {
                    &&& final(self).wf()
                    &&& old(self).at() < final(self).at() <= old(self).src().len()
                    &&& sp_stmt(old(self).src(), old(self).at()) == (Step::Next {
                        next: final(self).at(),
                    })
                },
                Err(e) => sp_stmt(old(self).src(), old(self).at()) == (Step::Fail { e }),
            },
        decreases self.src().len() - self.at(), 4int,
    {
        match self.next_tok.tp {
            TokTp::Ident => {
                self.push_predict(Prod::StmtAssign);
                match self.eat(TokTp::Ident) {
                    Err(e) => return Err(e),
                    Ok(()) => {},
                }
                match self.eat(TokTp::Gets) {
                    Err(e) => return Err(e),
                    Ok(()) => {},
                }
                match self.expr() {
                    Err(e) => return Err(e),
                    Ok(()) => {},
                }
                Ok(())
            },
            TokTp::Read => {
                self.push_predict(Prod::StmtRead);
                match self.eat(TokTp::Read) {
                    Err(e) => return Err(e),
                    Ok(()) => {},
                }
                match self.types() {
                    Err(e) => return Err(e),
                    Ok(()) => {},
                }
                match self.eat(TokTp::Ident) {
                    Err(e) => return Err(e),
                    Ok(()) => {},
                }
                Ok(())
            },
            TokTp::Write => {
                self.push_predict(Prod::StmtWrite);
                match self.eat(TokTp::Write) {
                    Err(e) => return Err(e),
                    Ok(()) => {},
                }
                match self.expr() {
                    Err(e) => return Err(e),
                    Ok(()) => {},
                }
                Ok(())
            },
            TokTp::If => {
                self.push_predict(Prod::StmtIf);
                match self.eat(TokTp::If) {
                    Err(e) => return Err(e),
                    Ok(()) => {},
                }
                match self.comp() {
                    Err(e) => return Err(e),
                    Ok(()) => {},
                }
                match self.stmt_list() {
                    Err(e) => return Err(e),
                    Ok(()) => {},
                }
                match self.eat(TokTp::Fi) {
                    Err(e) => return Err(e),
                    Ok(()) => {},
                }
                Ok(())
            },
            TokTp::Do => {
                self.push_predict(Prod::StmtDo);
                match self.eat(TokTp::Do) {
                    Err(e) => return Err(e),
                    Ok(()) => {},
                }
                match self.stmt_list() {
                    Err(e) => return Err(e),
                    Ok(()) => {},
                }
                match self.eat(TokTp::Od) {
                    Err(e) => return Err(e),
                    Ok(()) => {},
                }
                Ok(())
            },
            TokTp::Check => {
                self.push_predict(Prod::StmtCheck);
                match self.eat(TokTp::Check) {
                    Err(e) => return Err(e),
                    Ok(()) => {},
                }
                match self.comp() {
                    Err(e) => return Err(e),
                    Ok(()) => {},
                }
                Ok(())
            },
            TokTp::Int => {
                self.push_predict(Prod::StmtIntDecl);
                match self.eat(TokTp::Int) {
                    Err(e) => return Err(e),
                    Ok(()) => {},
                }
                match self.eat(TokTp::Ident) {
                    Err(e) => return Err(e),
                    Ok(()) => {},
                }
                match self.eat(TokTp::Gets) {
                    Err(e) => return Err(e),
                    Ok(()) => {},
                }
                match self.expr() {
                    Err(e) => return Err(e),
                    Ok(()) => {},
                }
                Ok(())
            },
            TokTp::Real => {
                self.push_predict(Prod::StmtRealDecl);
                match self.eat(TokTp::Real) {
                    Err(e) => return Err(e),
                    Ok(()) => {},
                }
                match self.eat(TokTp::Ident) {
                    Err(e) => return Err(e),
                    Ok(()) => {},
                }
                match self.eat(TokTp::Gets) {
                    Err(e) => return Err(e),
                    Ok(()) => {},
                }
                match self.expr() {
                    Err(e) => return Err(e),
                    Ok(()) => {},
                }
                Ok(())
            },
            _ => Err(PErr::Syntax { line: self.next_tok.line }),
        }
    }

    fn types(&mut self) -> (r: Result<(), PErr>)
        requires
            old(self).wf(),
        ensures
            final(self).src() == old(self).src(),
            grows_no_end(old(self).src(), old(self).events(), final(self).events()),
            ({
                let tp = tok_tp(old(self).src(), old(self).at());
                (tp == TokTp::Int || tp == TokTp::Real || tp == TokTp::Ident) ==> predicts(old(self).events(), final(self).events(), types_prod(tp))
            }),
            match r {
                Ok(()) => {
                    &&& final(self).wf()
                    &&& old(self).at() <= final(self).at() <= old(self).src().len()
                    &&& sp_types(old(self).src(), old(self).at()) == (Step::Next {
                        next: final(self).at(),
                    })
                },
                Err(e) => sp_types(old(self).src(), old(self).at()) == (Step::Fail { e }),
            },
    {
        match self.next_tok.tp {
            TokTp::Int => {
                self.push_predict(Prod::TypeInt);
                self.eat(TokTp::Int)
            },
            TokTp::Real => {
                self.push_predict(Prod::TypeReal);
                self.eat(TokTp::Real)
            },
            TokTp::Ident => {
                self.push_predict(Prod::TypeEpsilon);
                Ok(())
            },
            _ => Err(PErr::Syntax { line: self.next_tok.line }),
        }
    }

    fn comp(&mut self) -> (r: Result<(), PErr>)
        requires
            old(self).wf(),
        ensures
            final(self).src() == old(self).src(),
            grows_no_end(old(self).src(), old(self).events(), final(self).events()),
            ({
                let tp = tok_tp(old(self).src(), old(self).at());
                (in_first_expr(tp)) ==> predicts(old(self).events(), final(self).events(), Prod::Comparison)
            }),
            match r {
                Ok(()) => {
                    &&& final(self).wf()
                    &&& old(self).at() < final(self).at() <= old(self).src().len()
                    &&& sp_comp(old(self).src(), old(self).at()) == (Step::Next {
                        next: final(self).at(),
                    })
                },
                Err(e) => sp_comp(old(self).src(), old(self).at()) == (Step::Fail { e }),
            },
        decreases self.src().len() - self.at(), 3int,
    {
        match self.next_tok.tp {
            TokTp::Ident | TokTp::ILit | TokTp::RLit | TokTp::LParen => {
                self.push_predict(Prod::Comparison);
                match self.expr() {
                    Err(e) => return Err(e),
                    Ok(()) => {},
                }
                match self.comp_op() {
                    Err(e) => return Err(e),
                    Ok(()) => {},
                }
                match self.expr() {
                    Err(e) => return Err(e),
                    Ok(()) => {},
                }
                Ok(())
            },
            _ => Err(PErr::Syntax { line: self.next_tok.line }),
        }
    }

    fn expr(&mut self) -> (r: Result<(), PErr>)
        requires
            old(self).wf(),
        ensures
            final(self).src() == old(self).src(),
            grows_no_end(old(self).src(), old(self).events(), final(self).events()),
            ({
                let tp = tok_tp(old(self).src(), old(self).at());
                (in_first_expr(tp)) ==> predicts(old(self).events(), final(self).events(), Prod::ExprTerms)
            }),
            match r {
                Ok(()) => {
                    &&& final(self).wf()
                    &&& old(self).at() < final(self).at() <= old(self).src().len()
                    &&& sp_expr(old(self).src(), old(self).at()) == (Step::Next {
                        next: final(self).at(),
                    })
                },
                Err(e) => sp_expr(old(self).src(), old(self).at()) == (Step::Fail { e }),
            },
        decreases self.src().len() - self.at(), 2int,
    {
        match self.next_tok.tp {
            TokTp::Ident | TokTp::ILit | TokTp::RLit | TokTp::LParen => {
                self.push_predict(Prod::ExprTerms);
                match self.term() {
                    Err(e) => return Err(e),
                    Ok(()) => {},
                }
                match self.term_tail() {
                    Err(e) => return Err(e),
                    Ok(()) => {},
                }
                Ok(())
            },
            _ => Err(PErr::Syntax { line: self.next_tok.line }),
        }
    }

    fn term(&mut self) -> (r: Result<(), PErr>)
        requires
            old(self).wf(),
        ensures
            final(self).src() == old(self).src(),
            grows_no_end(old(self).src(), old(self).events(), final(self).events()),
            ({
                let tp = tok_tp(old(self).src(), old(self).at());
                (in_first_expr(tp)) ==> predicts(old(self).events(), final(self).events(), Prod::TermFactors)
            }),
            match r {
                Ok(()) => {
                    &&& final(self).wf()
                    &&& old(self).at() < final(self).at() <= old(self).src().len()
                    &&& sp_term(old(self).src(), old(self).at()) == (Step::Next {
                        next: final(self).at(),
                    })
                },
                Err(e) => sp_term(old(self).src(), old(self).at()) == (Step::Fail { e }),
            },
        decreases self.src().len() - self.at(), 1int,
    {
        match self.next_tok.tp {
            TokTp::Ident | TokTp::ILit | TokTp::RLit | TokTp::LParen => {
                self.push_predict(Prod::TermFactors);
                match self.factor() {
                    Err(e) => return Err(e),
                    Ok(()) => {},
                }
                match self.factor_tail() {
                    Err(e) => return Err(e),
                    Ok(()) => {},
                }
                Ok(())
            },
            _ => Err(PErr::Syntax { line: self.next_tok.line }),
        }
    }

    fn term_tail(&mut self) -> (r: Result<(), PErr>)
        requires
            old(self).wf(),
        ensures
            final(self).src() == old(self).src(),
            grows_no_end(old(self).src(), old(self).events(), final(self).events()),
            ({
                let tp = tok_tp(old(self).src(), old(self).at());
                (tp == TokTp::Plus || tp == TokTp::Minus || in_follow_term_tail(tp)) ==> predicts(old(self).events(), final(self).events(), term_tail_prod(tp))
            }),
            match r {
                Ok(()) => {
                    &&& final(self).wf()
                    &&& old(self).at() <= final(self).at() <= old(self).src().len()
                    &&& sp_term_tail(old(self).src(), old(self).at()) == (Step::Next {
                        next: final(self).at(),
                    })
                },
                Err(e) => sp_term_tail(old(self).src(), old(self).at()) == (Step::Fail { e }),
            },
        decreases self.src().len() - self.at(), 0int,
    {
        match self.next_tok.tp {
            TokTp::Plus | TokTp::Minus => {
                self.push_predict(Prod::TermTailMore);
                match self.add_op() {
                    Err(e) => return Err(e),
                    Ok(()) => {},
                }
                match self.term() {
                    Err(e) => return Err(e),
                    Ok(()) => {},
                }
                match self.term_tail() {
                    Err(e) => return Err(e),
                    Ok(()) => {},
                }
                Ok(())
            },
            TokTp::Greater | TokTp::Lesser | TokTp::EqualTo | TokTp::NEqualTo | TokTp::GreaterEq
                | TokTp::LesserEq | TokTp::RParen | TokTp::Ident | TokTp::Read | TokTp::Write
                | TokTp::If | TokTp::Do | TokTp::Check | TokTp::Int | TokTp::Real | TokTp::Fi
                | TokTp::Od | TokTp::End => {
                self.push_predict(Prod::TermTailEpsilon);
                Ok(())
            },
            _ => Err(PErr::Syntax { line: self.next_tok.line }),
        }
    }

    fn factor(&mut self) -> (r: Result<(), PErr>)
        requires
            old(self).wf(),
        ensures
            final(self).src() == old(self).src(),
            grows_no_end(old(self).src(), old(self).events(), final(self).events()),
            ({
                let tp = tok_tp(old(self).src(), old(self).at());
                (in_first_expr(tp)) ==> predicts(old(self).events(), final(self).events(), factor_prod(tp))
            }),
            match r {
                Ok(()) => {
                    &&& final(self).wf()
                    &&& old(self).at() < final(self).at() <= old(self).src().len()
                    &&& sp_factor(old(self).src(), old(self).at()) == (Step::Next {
                        next: final(self).at(),
                    })
                },
                Err(e) => sp_factor(old(self).src(), old(self).at()) == (Step::Fail { e }),
            },
        decreases self.src().len() - self.at(), 0int,
    {
        match self.next_tok.tp {
            TokTp::Ident => {
                self.push_predict(Prod::FactorIdent);
                self.eat(TokTp::Ident)
            },
            TokTp::ILit => {
                self.push_predict(Prod::FactorILit);
                self.eat(TokTp::ILit)
            },
            TokTp::RLit => {
                self.push_predict(Prod::FactorRLit);
                self.eat(TokTp::RLit)
            },
            TokTp::LParen => {
                self.push_predict(Prod::FactorParen);
                match self.eat(TokTp::LParen) {
                    Err(e) => return Err(e),
                    Ok(()) => {},
                }
                match self.expr() {
                    Err(e) => return Err(e),
                    Ok(()) => {},
                }
                match self.eat(TokTp::RParen) {
                    Err(e) => return Err(e),
                    Ok(()) => {},
                }
                Ok(())
            },
            _ => Err(PErr::Syntax { line: self.next_tok.line }),
        }
    }

    fn factor_tail(&mut self) -> (r: Result<(), PErr>)
        requires
            old(self).wf(),
        ensures
            final(self).src() == old(self).src(),
            grows_no_end(old(self).src(), old(self).events(), final(self).events()),
            ({
                let tp = tok_tp(old(self).src(), old(self).at());
                (tp == TokTp::Times || tp == TokTp::DivBy || in_follow_factor_tail(tp)) ==> predicts(old(self).events(), final(self).events(), factor_tail_prod(tp))
            }),
            match r {
                Ok(()) => {
                    &&& final(self).wf()
                    &&& old(self).at() <= final(self).at() <= old(self).src().len()
                    &&& sp_factor_tail(old(self).src(), old(self).at()) == (Step::Next {
                        next: final(self).at(),
                    })
                },
                Err(e) => sp_factor_tail(old(self).src(), old(self).at()) == (Step::Fail { e }),
            },
        decreases self.src().len() - self.at(), 0int,
    {
        match self.next_tok.tp {
            TokTp::Times | TokTp::DivBy => {
                self.push_predict(Prod::FactorTailMore);
                match self.mul_op() {
                    Err(e) => return Err(e),
                    Ok(()) => {},
                }
                match self.factor() {
                    Err(e) => return Err(e),
                    Ok(()) => {},
                }
                match self.factor_tail() {
                    Err(e) => return Err(e),
                    Ok(()) => {},
                }
                Ok(())
            },
            TokTp::Plus | TokTp::Minus | TokTp::Greater | TokTp::Lesser | TokTp::EqualTo
                | TokTp::NEqualTo | TokTp::GreaterEq | TokTp::LesserEq | TokTp::RParen
                | TokTp::Ident | TokTp::Read | TokTp::Write | TokTp::If | TokTp::Do | TokTp::Check
                | TokTp::Int | TokTp::Real | TokTp::Fi | TokTp::Od | TokTp::End => {
                self.push_predict(Prod::FactorTailEpsilon);
                Ok(())
            },
            _ => Err(PErr::Syntax { line: self.next_tok.line }),
        }
    }

    fn comp_op(&mut self) -> (r: Result<(), PErr>)
        requires
            old(self).wf(),
        ensures
            final(self).src() == old(self).src(),
            grows_no_end(old(self).src(), old(self).events(), final(self).events()),
            ({
                let tp = tok_tp(old(self).src(), old(self).at());
                (is_comp_op_tp(tp)) ==> predicts(old(self).events(), final(self).events(), comp_op_prod(tp))
            }),
            match r {
                Ok(()) => {
                    &&& final(self).wf()
                    &&& old(self).at() < final(self).at() <= old(self).src().len()
                    &&& sp_comp_op(old(self).src(), old(self).at()) == (Step::Next {
                        next: final(self).at(),
                    })
                },
                Err(e) => sp_comp_op(old(self).src(), old(self).at()) == (Step::Fail { e }),
            },
    {
        match self.next_tok.tp {
            TokTp::Greater => {
                self.push_predict(Prod::CompOpGreater);
                self.eat(TokTp::Greater)
            },
            TokTp::Lesser => {
                self.push_predict(Prod::CompOpLesser);
                self.eat(TokTp::Lesser)
            },
            TokTp::EqualTo => {
                self.push_predict(Prod::CompOpEqualTo);
                self.eat(TokTp::EqualTo)
            },
            TokTp::NEqualTo => {
                self.push_predict(Prod::CompOpNEqualTo);
                self.eat(TokTp::NEqualTo)
            },
            TokTp::GreaterEq => {
                self.push_predict(Prod::CompOpGreaterEq);
                self.eat(TokTp::GreaterEq)
            },
            TokTp::LesserEq => {
                self.push_predict(Prod::CompOpLesserEq);
                self.eat(TokTp::LesserEq)
            },
            _ => Err(PErr::Syntax { line: self.next_tok.line }),
        }
    }

    fn add_op(&mut self) -> (r: Result<(), PErr>)
        requires
            old(self).wf(),
        ensures
            final(self).src() == old(self).src(),
            grows_no_end(old(self).src(), old(self).events(), final(self).events()),
            ({
                let tp = tok_tp(old(self).src(), old(self).at());
                (tp == TokTp::Plus || tp == TokTp::Minus) ==> predicts(old(self).events(), final(self).events(), add_op_prod(tp))
            }),
            match r {
                Ok(()) => {
                    &&& final(self).wf()
                    &&& old(self).at() < final(self).at() <= old(self).src().len()
                    &&& sp_add_op(old(self).src(), old(self).at()) == (Step::Next {
                        next: final(self).at(),
                    })
                },
                Err(e) => sp_add_op(old(self).src(), old(self).at()) == (Step::Fail { e }),
            },
    {
        match self.next_tok.tp {
            TokTp::Plus => {
                self.push_predict(Prod::AddOpPlus);
                self.eat(TokTp::Plus)
            },
            TokTp::Minus => {
                self.push_predict(Prod::AddOpMinus);
                self.eat(TokTp::Minus)
            },
            _ => Err(PErr::Syntax { line: self.next_tok.line }),
        }
    }

    fn mul_op(&mut self) -> (r: Result<(), PErr>)
        requires
            old(self).wf(),
        ensures
            final(self).src() == old(self).src(),
            grows_no_end(old(self).src(), old(self).events(), final(self).events()),
            ({
                let tp = tok_tp(old(self).src(), old(self).at());
                (tp == TokTp::Times || tp == TokTp::DivBy) ==> predicts(old(self).events(), final(self).events(), mul_op_prod(tp))
            }),
            match r {
                Ok(()) => {
                    &&& final(self).wf()
                    &&& old(self).at() < final(self).at() <= old(self).src().len()
                    &&& sp_mul_op(old(self).src(), old(self).at()) == (Step::Next {
                        next: final(self).at(),
                    })
                },
                Err(e) => sp_mul_op(old(self).src(), old(self).at()) == (Step::Fail { e }),
            },
    {
        match self.next_tok.tp {
            TokTp::Times => {
                self.push_predict(Prod::MulOpTimes);
                self.eat(TokTp::Times)
            },
            TokTp::DivBy => {
                self.push_predict(Prod::MulOpDivBy);
                self.eat(TokTp::DivBy)
            },
            _ => Err(PErr::Syntax { line: self.next_tok.line }),
        }
    }

    fn program(&mut self) -> (r: Result<(), PErr>)
        requires
            old(self).wf(),
        ensures
            final(self).src() == old(self).src(),
            grows(old(self).src(), old(self).events(), final(self).events()),
            ({
                let tp = tok_tp(old(self).src(), old(self).at());
                (in_first_stmt(tp) || tp == TokTp::End) ==> predicts(old(self).events(), final(self).events(), Prod::ProgramStmts)
            }),
            match r {
                Ok(()) => {
                    &&& final(self).wf()
                    &&& sp_program(old(self).src(), old(self).at()) == (Step::Next {
                        next: final(self).at(),
                    })
                    &&& old(self).events().len() < final(self).events().len()
                    &&& is_end_match(final(self).events().last())
                    &&& (forall|i: int|
                        old(self).events().len() <= i < final(self).events().len() - 1
                            ==> !is_end_match(#[trigger] final(self).events()[i]))
                },
                Err(e) => sp_program(old(self).src(), old(self).at()) == (Step::Fail { e }),
            },
    {
        let ghost s = self.src();
        let ghost tr0 = self.trace@;
        match self.next_tok.tp {
            TokTp::Ident | TokTp::Read | TokTp::Write | TokTp::End | TokTp::Int | TokTp::Real
                | TokTp::If | TokTp::Do | TokTp::Check => {
                self.push_predict(Prod::ProgramStmts);
                match self.stmt_list() {
                    Err(e) => return Err(e),
                    Ok(()) => {},
                }
                let ghost tr2 = self.trace@;
                match self.eat(TokTp::End) {
                    Err(e) => return Err(e),
                    Ok(()) => {},
                }
                proof {
                    assert forall|i: int| tr0.len() <= i < self.trace@.len() - 1 implies
                        !is_end_match(#[trigger] self.trace@[i]) by {
                        assert(self.trace@[i] == tr2[i]);
                    }
                }
                Ok(())
            },
            _ => Err(PErr::Syntax { line: self.next_tok.line }),
        }
    }

    /// Record a predicted production.
    fn push_predict(&mut self, prod: Prod)
        requires
            old(self).wf(),
        ensures
            final(self).wf(),
            final(self).src() == old(self).src(),
            final(self).at() == old(self).at(),
            final(self).next_tok == old(self).next_tok,
            final(self).events() == old(self).events().push(TraceEvent::Predict { prod }),
            predicts(old(self).events(), final(self).events(), prod),
            grows_no_end(old(self).src(), old(self).events(), final(self).events()),
    {
        self.trace.push(TraceEvent::Predict { prod });
    }

    /// Run the whole pipeline: prime the lookahead with the first scanned
    /// token, then parse `program`.  The result is exactly the model's
    /// verdict on the source; the trace holds only honest events, and on
    /// success its one and only end-of-stream match is the final event.
    pub fn parse(&mut self) -> (r: Result<(), PErr>)
        requires
            old(self).fresh(),
        ensures
            final(self).src() == old(self).src(),
            match r {
                Ok(()) => sp_parse(old(self).src()) == (Step::Next { next: final(self).at() }),
                Err(e) => sp_parse(old(self).src()) == (Step::Fail { e }),
            },
            forall|i: int|
                0 <= i < final(self).events().len() ==> event_ok(
                    old(self).src(),
                    #[trigger] final(self).events()[i],
                ),
            r is Ok ==> {
                &&& final(self).events().len() >= 1
                &&& predicts(
                    Seq::<TraceEvent>::empty(),
                    final(self).events(),
                    Prod::ProgramStmts,
                )
                &&& is_end_match(final(self).events().last())
                &&& (forall|i: int|
                    0 <= i < final(self).events().len() - 1 ==> !is_end_match(
                        #[trigger] final(self).events()[i],
                    ))
            },
    {
        let ghost s = self.src();
        let ghost tr0 = self.trace@;
        match self.scanner.scan() {
            Ok(t) => {
                self.next_tok = t;
                self.origin = Ghost(0);
            },
            Err(e) => {
                return Err(PErr::Lex { e });
            },
        }
        let outcome = self.program();
        proof {
            if outcome is Ok {
                lemma_prediction_failure(s, 0);
                assert(tr0 =~= Seq::<TraceEvent>::empty());
            }
        }
        outcome
    }
}

} // verus!
