use llparse::chars::END_OF_INPUT;
use llparse::input::Input;

#[test]
fn getc_positions_and_final_padding() {
    let mut inp = Input::new("ab".chars().collect());
    let a = inp.getc();
    assert_eq!(a.ch, 'a');
    assert_eq!(a.line, 1);
    assert_eq!(a.col, 0);
    let b = inp.getc();
    assert_eq!(b.ch, 'b');
    assert_eq!(b.line, 1);
    assert_eq!(b.col, 1);
    // the missing line terminator was appended
    let nl = inp.getc();
    assert_eq!(nl.ch, '\n');
    assert_eq!(nl.line, 1);
    assert_eq!(nl.col, 2);
    // the sentinel sits one past the last line, forever
    let end = inp.getc();
    assert_eq!(end.ch, END_OF_INPUT);
    assert_eq!(end.line, 2);
    assert_eq!(end.col, 0);
    let again = inp.getc();
    assert_eq!(again.ch, END_OF_INPUT);
    assert_eq!(again.line, 2);
    assert_eq!(again.col, 0);
}

#[test]
fn getc_empty_input_is_end_at_line_one() {
    let mut inp = Input::new(Vec::new());
    for _ in 0..3 {
        let c = inp.getc();
        assert_eq!(c.ch, END_OF_INPUT);
        assert_eq!(c.line, 1);
        assert_eq!(c.col, 0);
    }
}

#[test]
fn getc_terminated_input_gets_no_extra_line() {
    let mut inp = Input::new("x\n".chars().collect());
    assert_eq!(inp.getc().ch, 'x');
    assert_eq!(inp.getc().ch, '\n');
    let end = inp.getc();
    assert_eq!(end.ch, END_OF_INPUT);
    assert_eq!(end.line, 2);
}

#[test]
fn getc_embedded_sentinel_ends_the_stream() {
    let mut inp = Input::new("a\u{4}b".chars().collect());
    assert_eq!(inp.getc().ch, 'a');
    // the embedded sentinel is never stepped over: 'b' is unreachable
    for _ in 0..3 {
        let c = inp.getc();
        assert_eq!(c.ch, END_OF_INPUT);
        assert_eq!(c.line, 1);
        assert_eq!(c.col, 1);
    }
}

#[test]
fn getc_counts_lines() {
    let mut inp = Input::new("a\nbc\n\nd".chars().collect());
    let a = inp.getc();
    assert_eq!((a.ch, a.line, a.col), ('a', 1, 0));
    inp.getc(); // '\n'
    let b = inp.getc();
    assert_eq!((b.ch, b.line, b.col), ('b', 2, 0));
    let c = inp.getc();
    assert_eq!((c.ch, c.line, c.col), ('c', 2, 1));
    inp.getc(); // '\n'
    let blank = inp.getc();
    assert_eq!((blank.ch, blank.line, blank.col), ('\n', 3, 0));
    let d = inp.getc();
    assert_eq!((d.ch, d.line, d.col), ('d', 4, 0));
}
