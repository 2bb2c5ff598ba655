//! The lines written to standard error while messages are forwarded.

use vstd::prelude::*;

verus! {

/// The character for a digit below ten.
pub open spec fn digit(d: nat) -> char {
    if d == 0 {
        '0'
    } else if d == 1 {
        '1'
    } else if d == 2 {
        '2'
    } else if d == 3 {
        '3'
    } else if d == 4 {
        '4'
    } else if d == 5 {
        '5'
    } else if d == 6 {
        '6'
    } else if d == 7 {
        '7'
    } else if d == 8 {
        '8'
    } else {
        '9'
    }
}

/// A number in decimal notation, without leading zeros.
pub open spec fn decimal(n: nat) -> Seq<char>
    decreases n,
{
    if n < 10 {
        seq![digit(n)]
    } else {
        decimal(n / 10).push(digit(n % 10))
    }
}

fn digit_str(d: u16) -> (text: &'static str)
    requires
        d < 10,
    ensures
        text@ == seq![digit(d as nat)],
{
    proof {
        reveal_strlit("0");
        reveal_strlit("1");
        reveal_strlit("2");
        reveal_strlit("3");
        reveal_strlit("4");
        reveal_strlit("5");
        reveal_strlit("6");
        reveal_strlit("7");
        reveal_strlit("8");
        reveal_strlit("9");
    }
    let text = if d == 0 {
        "0"
    } else if d == 1 {
        "1"
    } else if d == 2 {
        "2"
    } else if d == 3 {
        "3"
    } else if d == 4 {
        "4"
    } else if d == 5 {
        "5"
    } else if d == 6 {
        "6"
    } else if d == 7 {
        "7"
    } else if d == 8 {
        "8"
    } else {
        "9"
    };
    assert(text@ =~= seq![digit(d as nat)]);
    text
}

/// Writes `n` in decimal notation.
pub fn decimal_string(n: u16) -> (text: String)
    ensures
        text@ == decimal(n as nat),
    decreases n,
{
    if n < 10 {
        String::from_str(digit_str(n))
    } else {
        let mut text = decimal_string(n / 10);
        text.append(digit_str(n % 10));
        assert(text@ =~= decimal(n as nat));
        text
    }
}

/// The diagnostic for input that could not be read.
pub open spec fn read_failure(detail: Seq<char>) -> Seq<char> {
    "Failed to read input ("@ + detail + ")."@
}

/// The diagnostic for a message that could not be sent.
pub open spec fn send_failure(detail: Seq<char>) -> Seq<char> {
    "Failed to send message ("@ + detail + ")"@
}

/// What is said of a response that does not acknowledge the message.
pub open spec fn status_detail(status: u16) -> Seq<char> {
    "HTTP status "@ + decimal(status as nat)
}

/// The line that reports a failure to read input.
pub fn read_failure_message(detail: &str) -> (message: String)
    ensures
        message@ == read_failure(detail@),
{
    let mut message = String::from_str("Failed to read input (");
    message.append(detail);
    message.append(").");
    message
}

/// The line that reports a failure to send a message.
pub fn send_failure_message(detail: &str) -> (message: String)
    ensures
        message@ == send_failure(detail@),
{
    let mut message = String::from_str("Failed to send message (");
    message.append(detail);
    message.append(")");
    message
}

/// The line that reports a response whose status is no acknowledgement.
pub fn status_failure_message(status: u16) -> (message: String)
    ensures
        message@ == send_failure(status_detail(status)),
{
    let mut detail = String::from_str("HTTP status ");
    detail.append(decimal_string(status).as_str());
    send_failure_message(detail.as_str())
}

} // verus!
