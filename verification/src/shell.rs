//! What the desktop shell knows of the backend: its port and its address.

use vstd::prelude::*;
use vstd::string::*;

verus! {

/// The port of a backend that was started without one being named.
pub const DEFAULT_PORT: u16 = 8000;

/// The character of a decimal digit.
pub open spec fn digit_char(digit: nat) -> char {
    if digit == 0 {
        '0'
    } else if digit == 1 {
        '1'
    } else if digit == 2 {
        '2'
    } else if digit == 3 {
        '3'
    } else if digit == 4 {
        '4'
    } else if digit == 5 {
        '5'
    } else if digit == 6 {
        '6'
    } else if digit == 7 {
        '7'
    } else if digit == 8 {
        '8'
    } else {
        '9'
    }
}

/// The decimal digits of a number, without leading zeros.
pub open spec fn decimal(n: nat) -> Seq<char>
    decreases n,
{
    if n < 10 {
        seq![digit_char(n)]
    } else {
        decimal(n / 10).push(digit_char(n % 10))
    }
}

/// The address of the backend at a port.
pub open spec fn url_of(port: nat) -> Seq<char> {
    "http://127.0.0.1:"@ + decimal(port)
}

/// The port that is known of the backend after a start.
pub open spec fn port_after_start(port: Option<u16>, development: bool) -> Option<u16> {
    match port {
        Some(known) => Some(known),
        None => if development {
            Some(DEFAULT_PORT)
        } else {
            None
        },
    }
}

/// The message of a start.
pub open spec fn start_text(port: Option<u16>, development: bool) -> Seq<char> {
    if port is Some {
        "Backend already running"@
    } else if development {
        "Backend started (dev mode)"@
    } else {
        "Backend started"@
    }
}

/// The text of a decimal digit.
fn digit_text(digit: u16) -> (text: &'static str)
    requires
        digit < 10,
    ensures
        text@ == seq![digit_char(digit as nat)],
{
    proof {
        reveal_strlit("0");
        reveal_strlit("1");
        reveal_strlit("2");
        reveal_strlit("3");
        reveal_strlit("4");
        reveal_strlit("5");
        reveal_strlit("6");
        reveal_strlit("7");
        reveal_strlit("8");
        reveal_strlit("9");
    }
    let text = if digit == 0 {
        "0"
    } else if digit == 1 {
        "1"
    } else if digit == 2 {
        "2"
    } else if digit == 3 {
        "3"
    } else if digit == 4 {
        "4"
    } else if digit == 5 {
        "5"
    } else if digit == 6 {
        "6"
    } else if digit == 7 {
        "7"
    } else if digit == 8 {
        "8"
    } else {
        "9"
    };
    proof {
        assert(text@ =~= seq![digit_char(digit as nat)]);
    }
    text
}

/// Appends the decimal digits of a number to a text.
fn append_decimal(text: &mut String, n: u16)
    ensures
        final(text)@ == old(text)@ + decimal(n as nat),
    decreases n,
{
    if n < 10 {
        text.append(digit_text(n));
    } else {
        let ghost before = text@;
        append_decimal(text, n / 10);
        text.append(digit_text(n % 10));
        proof {
            assert(text@ =~= before + decimal(n as nat));
        }
    }
}

/// The address of the backend: at the known port, or at the default one.
pub fn get_backend_url(port: Option<u16>) -> (url: String)
    ensures
        url@ == url_of(
            match port {
                Some(known) => known as nat,
                None => DEFAULT_PORT as nat,
            },
        ),
{
    let known: u16 = match port {
        Some(known) => known,
        None => DEFAULT_PORT,
    };
    let mut url = String::from_str("http://127.0.0.1:");
    append_decimal(&mut url, known);
    url
}

/// Starts the backend as far as the shell does: a backend whose port is
/// known is left alone; in development the backend is taken to listen at
/// the default port; else nothing is recorded.
pub fn start_backend(port: &mut Option<u16>, development: bool) -> (message: String)
    ensures
        *final(port) == port_after_start(*old(port), development),
        message@ == start_text(*old(port), development),
{
    if port.is_some() {
        return String::from_str("Backend already running");
    }
    if development {
        *port = Some(DEFAULT_PORT);
        return String::from_str("Backend started (dev mode)");
    }
    String::from_str("Backend started")
}

} // verus!
