use vstd::prelude::*;

verus! {

/// Whether `s` ends with `suffix`.
pub open spec fn ends_with(s: Seq<char>, suffix: Seq<char>) -> bool {
    suffix.len() <= s.len() && s.subrange(s.len() - suffix.len(), s.len() as int) == suffix
}

/// A line read from the console without its terminator: one trailing `"\r\n"`
/// or, failing that, one trailing `"\n"` is removed.
pub open spec fn line_content(s: Seq<char>) -> Seq<char> {
    if ends_with(s, seq!['\r', '\n']) {
        s.subrange(0, s.len() - 2)
    } else if ends_with(s, seq!['\n']) {
        s.subrange(0, s.len() - 1)
    } else {
        s
    }
}

/// Relies on `str::strip_suffix`: the text before `suffix` when `s` ends with it.
#[verifier::external_body]
fn strip_suffix<'a>(s: &'a str, suffix: &str) -> (r: Option<&'a str>)
    ensures
        r is Some <==> ends_with(s@, suffix@),
        r matches Some(p) ==> p@ == s@.subrange(0, s@.len() - suffix@.len()),
{
    s.strip_suffix(suffix)
}

/// Removes one trailing line terminator, `"\r\n"` or `"\n"`, from a console line.
pub fn strip_line_terminator(line: &str) -> (r: String)
    ensures
        r@ == line_content(line@),
{
    proof {
        reveal_strlit("\r\n");
        reveal_strlit("\n");
    }
    assert("\r\n"@ =~= seq!['\r', '\n']);
    assert("\n"@ =~= seq!['\n']);
    match strip_suffix(line, "\r\n") {
        Some(p) => p.to_owned(),
        None => match strip_suffix(line, "\n") {
            Some(p) => p.to_owned(),
            None => line.to_owned(),
        },
    }
}

/// What the service's input parser made of a line.
#[derive(Debug, Clone, PartialEq, Eq)]
pub enum ParsedInput {
    /// A Lightning invoice, with its encoded form.
    Bolt11 { bolt11: String },
    /// Some other kind of input (an address, a URL, a node id, ...).
    Other,
    /// The parser refused the line, with its message.
    Unparsed { message: String },
}

/// What the dispatch loop does with one line.
#[derive(Debug, Clone, PartialEq, Eq)]
pub enum Dispatch {
    /// Submit this invoice for payment; `amount_msat` overrides the invoice's
    /// amount when set.
    Pay { bolt11: String, amount_msat: Option<u64> },
    /// Tell the operator that the line is not an invoice, with the parser's
    /// message when there is one, and read the next line.
    Reject { detail: Option<String> },
}

/// The dispatch decision for a parsed line.
pub open spec fn dispatch_of(parsed: ParsedInput) -> Dispatch {
    match parsed {
        ParsedInput::Bolt11 { bolt11 } => Dispatch::Pay { bolt11, amount_msat: None },
        ParsedInput::Other => Dispatch::Reject { detail: None },
        ParsedInput::Unparsed { message } => Dispatch::Reject { detail: Some(message) },
    }
}

/// An invoice is paid as it stands, with no amount override; anything else is
/// rejected and the loop goes on.
pub fn dispatch(parsed: ParsedInput) -> (r: Dispatch)
    ensures
        r == dispatch_of(parsed),
{
    match parsed {
        ParsedInput::Bolt11 { bolt11 } => Dispatch::Pay { bolt11, amount_msat: None },
        ParsedInput::Other => Dispatch::Reject { detail: None },
        ParsedInput::Unparsed { message } => Dispatch::Reject { detail: Some(message) },
    }
}

} // verus!
