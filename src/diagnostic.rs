use vstd::prelude::*;
use vstd::string::StringExecFns;

verus! {

/// The decimal digit character for `d`.
pub open spec fn digit_char(d: nat) -> char {
    if d < 10 {
        ((d + 48) as u8) as char
    } else {
        '?'
    }
}

/// The decimal notation of `n`, without leading zeros.
pub open spec fn decimal_spec(n: nat) -> Seq<char>
    decreases n,
{
    if n < 10 {
        seq![digit_char(n)]
    } else {
        decimal_spec(n / 10).push(digit_char(n % 10))
    }
}

fn digit_str(d: u32) -> (r: &'static str)
    requires
        d < 10,
    ensures
        r@ == seq![digit_char(d as nat)],
{
    proof {
        reveal_strlit("0");
        reveal_strlit("1");
        reveal_strlit("2");
        reveal_strlit("3");
        reveal_strlit("4");
        reveal_strlit("5");
        reveal_strlit("6");
        reveal_strlit("7");
        reveal_strlit("8");
        reveal_strlit("9");
    }
    let r = match d {
        0 => "0",
        1 => "1",
        2 => "2",
        3 => "3",
        4 => "4",
        5 => "5",
        6 => "6",
        7 => "7",
        8 => "8",
        _ => "9",
    };
    assert(r@ =~= seq![digit_char(d as nat)]);
    r
}

/// The decimal notation of `n`.
pub fn decimal(n: u32) -> (r: String)
    ensures
        r@ == decimal_spec(n as nat),
    decreases n,
{
    if n < 10 {
        String::from_str(digit_str(n))
    } else {
        let mut s = decimal(n / 10);
        s.append(digit_str(n % 10));
        s
    }
}

/// Where a fatal failure was raised.
#[derive(Clone, Debug, PartialEq, Eq)]
pub struct SourceLocation {
    pub file: String,
    pub line: u32,
    pub column: u32,
}

/// `file:line:column`, or `unknown location` where there is none.
pub open spec fn location_text(loc: Option<SourceLocation>) -> Seq<char> {
    match loc {
        Some(l) => l.file@ + seq![':'] + decimal_spec(l.line as nat) + seq![':'] + decimal_spec(
            l.column as nat,
        ),
        None => "unknown location"@,
    }
}

/// The diagnostic line logged for a fatal failure.
pub open spec fn panic_line_spec(message: Seq<char>, loc: Option<SourceLocation>) -> Seq<char> {
    "PANIC occurred at "@ + location_text(loc) + ": "@ + message
}

/// Formats a fatal failure's message and location into one diagnostic line.
pub fn panic_line(message: &str, location: &Option<SourceLocation>) -> (r: String)
    ensures
        r@ == panic_line_spec(message@, *location),
{
    let mut out = String::from_str("PANIC occurred at ");
    match location {
        Some(l) => {
            out.append(l.file.as_str());
            out.append(":");
            let line = decimal(l.line);
            out.append(line.as_str());
            out.append(":");
            let column = decimal(l.column);
            out.append(column.as_str());
            proof {
                reveal_strlit(":");
            }
        },
        None => {
            out.append("unknown location");
        },
    }
    out.append(": ");
    out.append(message);
    proof {
        match location {
            Some(l) => {
                assert(location_text(*location) == l.file@ + seq![':'] + decimal_spec(l.line as nat)
                    + seq![':'] + decimal_spec(l.column as nat));
            },
            None => {},
        }
    }
    assert(out@ =~= panic_line_spec(message@, *location));
    out
}

} // verus!
