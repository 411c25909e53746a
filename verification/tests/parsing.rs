use llparse::parser::Parser;
use llparse::parser::PErr;
use llparse::scanner::LexErr;
use llparse::scanner::TokTp;
use llparse::trace::Prod;
use llparse::trace::TraceEvent;

fn predict(prod: Prod) -> TraceEvent {
    TraceEvent::Predict { prod }
}

fn matched(tp: TokTp, text: &str) -> TraceEvent {
    TraceEvent::Matched { tp, text: text.chars().collect() }
}

fn run(src: &str) -> (Result<(), PErr>, Vec<TraceEvent>) {
    let mut parser = Parser::new(src.chars().collect());
    let outcome = parser.parse();
    (outcome, parser.trace().clone())
}

#[test]
fn parses_declaration_then_write() {
    let (outcome, trace) = run("int x := 3 write x");
    assert_eq!(outcome, Ok(()));
    let expected = vec![
        predict(Prod::ProgramStmts),
        predict(Prod::StmtListStmt),
        predict(Prod::StmtIntDecl),
        matched(TokTp::Int, "int"),
        matched(TokTp::Ident, "x"),
        matched(TokTp::Gets, ":="),
        predict(Prod::ExprTerms),
        predict(Prod::TermFactors),
        predict(Prod::FactorILit),
        matched(TokTp::ILit, "3"),
        predict(Prod::FactorTailEpsilon),
        predict(Prod::TermTailEpsilon),
        predict(Prod::StmtListStmt),
        predict(Prod::StmtWrite),
        matched(TokTp::Write, "write"),
        predict(Prod::ExprTerms),
        predict(Prod::TermFactors),
        predict(Prod::FactorIdent),
        matched(TokTp::Ident, "x"),
        predict(Prod::FactorTailEpsilon),
        predict(Prod::TermTailEpsilon),
        predict(Prod::StmtListEpsilon),
        matched(TokTp::End, ""),
    ];
    assert_eq!(trace, expected);
}

#[test]
fn parses_whitespace_only_input_as_empty_program() {
    let (outcome, trace) = run(" \n\n  \t\n");
    assert_eq!(outcome, Ok(()));
    let expected = vec![
        predict(Prod::ProgramStmts),
        predict(Prod::StmtListEpsilon),
        matched(TokTp::End, ""),
    ];
    assert_eq!(trace, expected);
}

#[test]
fn parses_empty_input_as_empty_program() {
    let (outcome, trace) = run("");
    assert_eq!(outcome, Ok(()));
    assert_eq!(trace.len(), 3);
    assert_eq!(trace[2], matched(TokTp::End, ""));
}

#[test]
fn lexical_failure_stops_the_run() {
    let (outcome, trace) = run("x : y");
    assert_eq!(outcome, Err(PErr::Lex { e: LexErr::MissingEq { after: ':', got: ' ' } }));
    // everything emitted before the failure remains
    let expected = vec![
        predict(Prod::ProgramStmts),
        predict(Prod::StmtListStmt),
        predict(Prod::StmtAssign),
        matched(TokTp::Ident, "x"),
    ];
    assert_eq!(trace, expected);
}

#[test]
fn unexpected_character_fails_before_any_token() {
    let (outcome, trace) = run("@");
    assert_eq!(outcome, Err(PErr::Lex { e: LexErr::Unexpected { got: '@' } }));
    assert!(trace.is_empty());
}

#[test]
fn missing_comparison_fails_inside_comp() {
    let (outcome, trace) = run("if x fi");
    // `x` alone cannot start comp_op's required second expr; the
    // diagnostic cites the line of the offending lookahead, `fi`
    assert_eq!(outcome, Err(PErr::Syntax { line: 1 }));
    let expected = vec![
        predict(Prod::ProgramStmts),
        predict(Prod::StmtListStmt),
        predict(Prod::StmtIf),
        matched(TokTp::If, "if"),
        predict(Prod::Comparison),
        predict(Prod::ExprTerms),
        predict(Prod::TermFactors),
        predict(Prod::FactorIdent),
        matched(TokTp::Ident, "x"),
        predict(Prod::FactorTailEpsilon),
        predict(Prod::TermTailEpsilon),
    ];
    assert_eq!(trace, expected);
}

#[test]
fn syntax_error_reports_the_offending_token_line() {
    let (outcome, _) = run("x := y\nz +");
    assert_eq!(outcome, Err(PErr::Syntax { line: 2 }));
}

#[test]
fn parses_nested_do_if() {
    let (outcome, trace) = run("do if x == y write x fi od");
    assert_eq!(outcome, Ok(()));
    assert!(trace.contains(&predict(Prod::StmtDo)));
    assert!(trace.contains(&predict(Prod::StmtIf)));
    assert!(trace.contains(&predict(Prod::Comparison)));
    assert!(trace.contains(&predict(Prod::CompOpEqualTo)));
    assert!(trace.contains(&predict(Prod::StmtWrite)));
    assert_eq!(trace.last(), Some(&matched(TokTp::End, "")));
    // exactly one end-of-stream match, and it is the final line
    let ends = trace
        .iter()
        .filter(|ev| matches!(ev, TraceEvent::Matched { tp: TokTp::End, .. }))
        .count();
    assert_eq!(ends, 1);
}

#[test]
fn parses_read_with_and_without_type() {
    let (outcome, trace) = run("read int x read y");
    assert_eq!(outcome, Ok(()));
    assert!(trace.contains(&predict(Prod::TypeInt)));
    assert!(trace.contains(&predict(Prod::TypeEpsilon)));

    let (outcome, trace) = run("read real r");
    assert_eq!(outcome, Ok(()));
    assert!(trace.contains(&predict(Prod::TypeReal)));
}

#[test]
fn read_at_end_of_input_is_a_syntax_error() {
    let (outcome, _) = run("read");
    // the lookahead is the end of stream, on the line after the input
    assert_eq!(outcome, Err(PErr::Syntax { line: 2 }));
}

#[test]
fn parses_check_with_each_comparison() {
    let (outcome, trace) = run("check a < b check a > b check a <= b check a >= b check a != b");
    assert_eq!(outcome, Ok(()));
    assert!(trace.contains(&predict(Prod::CompOpLesser)));
    assert!(trace.contains(&predict(Prod::CompOpGreater)));
    assert!(trace.contains(&predict(Prod::CompOpLesserEq)));
    assert!(trace.contains(&predict(Prod::CompOpGreaterEq)));
    assert!(trace.contains(&predict(Prod::CompOpNEqualTo)));
}

#[test]
fn parses_parenthesised_arithmetic() {
    let (outcome, trace) = run("x := (1 + 2) * y / 3 - 4");
    assert_eq!(outcome, Ok(()));
    assert!(trace.contains(&predict(Prod::FactorParen)));
    assert!(trace.contains(&predict(Prod::AddOpPlus)));
    assert!(trace.contains(&predict(Prod::AddOpMinus)));
    assert!(trace.contains(&predict(Prod::MulOpTimes)));
    assert!(trace.contains(&predict(Prod::MulOpDivBy)));
    assert_eq!(trace.last(), Some(&matched(TokTp::End, "")));
}

#[test]
fn keyword_without_production_is_a_syntax_error() {
    let (outcome, trace) = run("trunc");
    assert_eq!(outcome, Err(PErr::Syntax { line: 1 }));
    assert!(trace.is_empty());

    let (outcome, _) = run("float");
    assert_eq!(outcome, Err(PErr::Syntax { line: 1 }));
}

#[test]
fn unbalanced_fi_is_a_syntax_error() {
    let (outcome, trace) = run("fi");
    assert_eq!(outcome, Err(PErr::Syntax { line: 1 }));
    assert!(trace.is_empty());
}

#[test]
fn missing_right_hand_side_is_a_syntax_error() {
    let (outcome, _) = run("x :=");
    assert_eq!(outcome, Err(PErr::Syntax { line: 2 }));
}

#[test]
fn decimal_literal_is_echoed_verbatim_as_integer_literal() {
    let (outcome, trace) = run("real r := 2.5");
    assert_eq!(outcome, Ok(()));
    // the scanner consumes the decimal point but never produces the
    // real-literal category: the token stays an integer literal
    assert!(trace.contains(&matched(TokTp::ILit, "2.5")));
    assert!(trace.contains(&predict(Prod::FactorILit)));
    assert!(!trace.contains(&predict(Prod::FactorRLit)));
}

#[test]
fn multi_line_program_parses() {
    let (outcome, trace) = run("int n := 0\ndo\n  n := n + 1\n  check n <= 10\nod\nwrite n\n");
    assert_eq!(outcome, Ok(()));
    assert_eq!(trace.last(), Some(&matched(TokTp::End, "")));
}
