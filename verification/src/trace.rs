//! The trace and its properties.
//!
//! The parser's sole output is a sequence of trace events: predicted
//! productions and matched terminals.  `grows` says a call extended the
//! trace without rewriting history and that every added `Matched` event
//! echoes, character for character, the text of a token the scanner
//! produces on this source; `grows_no_end` adds that no added event
//! matches the end of stream, which makes the final end-of-stream match
//! of a successful parse unique.

use crate::scanner::scan_ok;
use crate::scanner::tok_text;
use crate::scanner::tok_tp;
use crate::scanner::TokTp;
use vstd::prelude::*;

verus! {

/// One grammar production, as named in the trace.
#[derive(Clone, Copy, Debug, PartialEq, Eq, Structural)]
pub enum Prod {
    ProgramStmts,
    StmtListStmt,
    StmtListEpsilon,
    TypeInt,
    TypeReal,
    TypeEpsilon,
    StmtAssign,
    StmtRead,
    StmtWrite,
    StmtIf,
    StmtDo,
    StmtCheck,
    StmtIntDecl,
    StmtRealDecl,
    Comparison,
    ExprTerms,
    TermFactors,
    TermTailMore,
    TermTailEpsilon,
    FactorIdent,
    FactorILit,
    FactorRLit,
    FactorParen,
    FactorTailMore,
    FactorTailEpsilon,
    CompOpGreater,
    CompOpLesser,
    CompOpEqualTo,
    CompOpNEqualTo,
    CompOpGreaterEq,
    CompOpLesserEq,
    AddOpPlus,
    AddOpMinus,
    MulOpTimes,
    MulOpDivBy,
}

/// One line of the trace: a predicted production, or a matched terminal
/// with the exact text the scanner read for it.
#[derive(Clone, Debug, PartialEq, Eq)]
pub enum TraceEvent {
    Predict { prod: Prod },
    Matched { tp: TokTp, text: Vec<char> },
}

/// A matched trace event is honest: it echoes, character for character,
/// the text of a token the scanner produces somewhere on this source.
pub open spec fn event_ok(s: Seq<char>, ev: TraceEvent) -> bool {
    match ev {
        TraceEvent::Matched { tp, text } => exists|j: int|
            0 <= j <= s.len() && #[trigger] scan_ok(s, j) && tok_tp(s, j) == tp && tok_text(s, j)
                == text@,
        TraceEvent::Predict { .. } => true,
    }
}

pub open spec fn is_end_match(ev: TraceEvent) -> bool {
    ev matches TraceEvent::Matched { tp: TokTp::End, .. }
}

/// `post` extends `pre` without touching it, and every added event is
/// honest.
pub open spec fn grows(s: Seq<char>, pre: Seq<TraceEvent>, post: Seq<TraceEvent>) -> bool {
    &&& pre.len() <= post.len()
    &&& (forall|i: int| 0 <= i < pre.len() ==> post[i] == #[trigger] pre[i])
    &&& (forall|i: int| pre.len() <= i < post.len() ==> event_ok(s, #[trigger] post[i]))
}

/// As `grows`, and no added event matches the end of stream.
pub open spec fn grows_no_end(s: Seq<char>, pre: Seq<TraceEvent>, post: Seq<TraceEvent>) -> bool {
    &&& grows(s, pre, post)
    &&& (forall|i: int| pre.len() <= i < post.len() ==> !is_end_match(#[trigger] post[i]))
}

/// No matched trace line's text holds a line terminator or a blank: white
/// space — the line terminator included — ends every token, so a token
/// never spans a line boundary, and the white space discarded between
/// tokens never shows up in an echoed text.
pub proof fn lemma_trace_text_no_line_break(s: Seq<char>, ev: TraceEvent)
    requires
        event_ok(s, ev),
    ensures
        ev matches TraceEvent::Matched { text, .. } ==> forall|i: int|
            0 <= i < text@.len() ==> #[trigger] text@[i] != '\n' && #[trigger] text@[i] != ' ',
{
    match ev {
        TraceEvent::Matched { tp, text } => {
            let j = choose|j: int|
                0 <= j <= s.len() && #[trigger] scan_ok(s, j) && tok_tp(s, j) == tp && tok_text(
                    s,
                    j,
                ) == text@;
            crate::scanner::lemma_token_text_no_line_break(s, j);
        },
        TraceEvent::Predict { .. } => {},
    }
}

/// The first event a nonterminal emits when its lookahead selects a
/// production: that production, predicted at the old end of the trace.
pub open spec fn predicts(pre: Seq<TraceEvent>, post: Seq<TraceEvent>, prod: Prod) -> bool {
    &&& post.len() > pre.len()
    &&& post[pre.len() as int] == (TraceEvent::Predict { prod })
}

/// A recorded prediction survives everything recorded after it.
pub broadcast proof fn lemma_predicts_grows(
    s: Seq<char>,
    a: Seq<TraceEvent>,
    b: Seq<TraceEvent>,
    c: Seq<TraceEvent>,
    prod: Prod,
)
    requires
        #[trigger] predicts(a, b, prod),
        #[trigger] grows(s, b, c),
    ensures
        predicts(a, c, prod),
{
    assert(c[a.len() as int] == b[a.len() as int]);
}

pub broadcast proof fn lemma_grows_trans(
    s: Seq<char>,
    a: Seq<TraceEvent>,
    b: Seq<TraceEvent>,
    c: Seq<TraceEvent>,
)
    requires
        #[trigger] grows(s, a, b),
        #[trigger] grows(s, b, c),
    ensures
        grows(s, a, c),
{
    assert forall|i: int| 0 <= i < a.len() implies c[i] == #[trigger] a[i] by {
        assert(b[i] == a[i]);
        assert(c[i] == b[i]);
    }
    assert forall|i: int| a.len() <= i < c.len() implies event_ok(s, #[trigger] c[i]) by {
        if i < b.len() {
            assert(c[i] == b[i]);
            assert(event_ok(s, b[i]));
        }
    }
}

pub broadcast proof fn lemma_grows_no_end_trans(
    s: Seq<char>,
    a: Seq<TraceEvent>,
    b: Seq<TraceEvent>,
    c: Seq<TraceEvent>,
)
    requires
        #[trigger] grows_no_end(s, a, b),
        #[trigger] grows_no_end(s, b, c),
    ensures
        grows_no_end(s, a, c),
{
    assert forall|i: int| 0 <= i < a.len() implies c[i] == #[trigger] a[i] by {
        assert(b[i] == a[i]);
        assert(c[i] == b[i]);
    }
    assert forall|i: int| a.len() <= i < c.len() implies event_ok(s, #[trigger] c[i]) by {
        if i < b.len() {
            assert(c[i] == b[i]);
            assert(event_ok(s, b[i]));
        }
    }
    assert forall|i: int| a.len() <= i < c.len() implies !is_end_match(#[trigger] c[i]) by {
        if i < b.len() {
            assert(c[i] == b[i]);
        }
    }
}

} // verus!
