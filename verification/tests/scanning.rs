use llparse::scanner::LexErr;
use llparse::scanner::Scanner;
use llparse::scanner::TokTp;

#[test]
fn scan_identifier_and_literal_texts_are_verbatim() {
    let mut sc = Scanner::new("count_2 99.5x".chars().collect());
    let t = sc.scan().unwrap();
    assert_eq!(t.tp, TokTp::Ident);
    assert_eq!(t.text, "count_2".chars().collect::<Vec<char>>());
    // a decimal point joins the digit run, but the category stays ILit
    let t = sc.scan().unwrap();
    assert_eq!(t.tp, TokTp::ILit);
    assert_eq!(t.text, "99.5".chars().collect::<Vec<char>>());
    let t = sc.scan().unwrap();
    assert_eq!(t.tp, TokTp::Ident);
    assert_eq!(t.text, "x".chars().collect::<Vec<char>>());
    assert_eq!(sc.scan().unwrap().tp, TokTp::End);
}

#[test]
fn scan_keywords() {
    let mut sc = Scanner::new(
        "read write if fi do od int real trunc float check reader".chars().collect(),
    );
    let expected = [
        TokTp::Read,
        TokTp::Write,
        TokTp::If,
        TokTp::Fi,
        TokTp::Do,
        TokTp::Od,
        TokTp::Int,
        TokTp::Real,
        TokTp::Trunc,
        TokTp::Float,
        TokTp::Check,
        TokTp::Ident, // "reader" is a word, not the keyword "read"
    ];
    for tp in expected {
        assert_eq!(sc.scan().unwrap().tp, tp);
    }
    assert_eq!(sc.scan().unwrap().tp, TokTp::End);
}

#[test]
fn scan_operators() {
    let mut sc = Scanner::new("( ) + - * / := == != <= >= < > =="
        .chars()
        .collect());
    let expected = [
        TokTp::LParen,
        TokTp::RParen,
        TokTp::Plus,
        TokTp::Minus,
        TokTp::Times,
        TokTp::DivBy,
        TokTp::Gets,
        TokTp::EqualTo,
        TokTp::NEqualTo,
        TokTp::LesserEq,
        TokTp::GreaterEq,
        TokTp::Lesser,
        TokTp::Greater,
        TokTp::EqualTo,
    ];
    for tp in expected {
        assert_eq!(sc.scan().unwrap().tp, tp);
    }
    assert_eq!(sc.scan().unwrap().tp, TokTp::End);
}

#[test]
fn scan_positions_and_whitespace_discarded() {
    let mut sc = Scanner::new("x\n\t y".chars().collect());
    let x = sc.scan().unwrap();
    assert_eq!((x.tp, x.line, x.col), (TokTp::Ident, 1, 0));
    let y = sc.scan().unwrap();
    assert_eq!((y.tp, y.line, y.col), (TokTp::Ident, 2, 2));
    let end = sc.scan().unwrap();
    assert_eq!((end.tp, end.line, end.col), (TokTp::End, 3, 0));
    assert!(end.text.is_empty());
}

#[test]
fn scan_missing_eq_after_colon() {
    let mut sc = Scanner::new("x : y".chars().collect());
    assert_eq!(sc.scan().unwrap().tp, TokTp::Ident);
    assert_eq!(sc.scan(), Err(LexErr::MissingEq { after: ':', got: ' ' }));
}

#[test]
fn scan_missing_eq_after_bang_at_line_end() {
    let mut sc = Scanner::new("!".chars().collect());
    assert_eq!(sc.scan(), Err(LexErr::MissingEq { after: '!', got: '\n' }));
}

#[test]
fn scan_missing_eq_after_lone_eq() {
    let mut sc = Scanner::new("a = b".chars().collect());
    assert_eq!(sc.scan().unwrap().tp, TokTp::Ident);
    assert_eq!(sc.scan(), Err(LexErr::MissingEq { after: '=', got: ' ' }));
}

#[test]
fn scan_unexpected_character() {
    let mut sc = Scanner::new("@".chars().collect());
    assert_eq!(sc.scan(), Err(LexErr::Unexpected { got: '@' }));
}

#[test]
fn scan_lone_decimal_point_is_unexpected() {
    let mut sc = Scanner::new(". 5".chars().collect());
    assert_eq!(sc.scan(), Err(LexErr::Unexpected { got: '.' }));
}

#[test]
fn scan_empty_input_is_permanent_end() {
    let mut sc = Scanner::new(Vec::new());
    let end = sc.scan().unwrap();
    assert_eq!((end.tp, end.line, end.col), (TokTp::End, 1, 0));
    let end = sc.scan().unwrap();
    assert_eq!((end.tp, end.line, end.col), (TokTp::End, 1, 0));
}

#[test]
fn scan_underscore_continues_but_does_not_start_a_word() {
    let mut sc = Scanner::new("a_b _x".chars().collect());
    let t = sc.scan().unwrap();
    assert_eq!(t.tp, TokTp::Ident);
    assert_eq!(t.text, "a_b".chars().collect::<Vec<char>>());
    assert_eq!(sc.scan(), Err(LexErr::Unexpected { got: '_' }));
}
