use lightning_console::{dispatch, strip_line_terminator, Dispatch, ParsedInput};

const INVOICE: &str = "lnbc1pvjluezpp5qqqsyqcyq5rqwzqfqqqsyqcyq5rqwzqfqqqsyqcyq5rqwzqfqypqdpl2pkx2ctnv5sxxmmwwd5kgetjypeh2ursdae8g6twvus8g6rfwvs8qun0dfjkxaq8rkx3yf5tcsyz3d73gafnh3cax9rn449d9p5uxz9ezhhypd0elx87sjle52x86fux2ypatgddc6k63n7erqz25le42c4u4ecky03ylcqca784w";

#[test]
fn invoice_is_paid_without_override() {
    let d = dispatch(ParsedInput::Bolt11 { bolt11: INVOICE.to_string() });
    assert_eq!(d, Dispatch::Pay { bolt11: INVOICE.to_string(), amount_msat: None });
}

#[test]
fn not_an_invoice_is_rejected() {
    let d = dispatch(ParsedInput::Unparsed { message: "not an invoice: unknown format".to_string() });
    assert_eq!(d, Dispatch::Reject { detail: Some("not an invoice: unknown format".to_string()) });
}

#[test]
fn other_input_is_rejected() {
    assert_eq!(dispatch(ParsedInput::Other), Dispatch::Reject { detail: None });
}

#[test]
fn strips_one_terminator() {
    assert_eq!(strip_line_terminator("abc\r\n"), "abc");
    assert_eq!(strip_line_terminator("abc\n"), "abc");
    assert_eq!(strip_line_terminator("abc"), "abc");
    assert_eq!(strip_line_terminator("abc\n\n"), "abc\n");
    assert_eq!(strip_line_terminator("abc\r"), "abc\r");
    assert_eq!(strip_line_terminator(""), "");
    assert_eq!(strip_line_terminator("\r\n"), "");
}
