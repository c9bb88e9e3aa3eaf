//! Text derived from a server's host and port: the address it binds to and
//! the one-line description it prints of itself.
use vstd::prelude::*;

verus! {

/// The decimal digit for `d`.
pub open spec fn digit_char(d: nat) -> char
    recommends
        d < 10,
{
    ((d + '0' as nat) as u8) as char
}

/// Decimal digits of `n`, most significant first, without leading zeros.
pub open spec fn digits(n: nat) -> Seq<char>
    decreases n,
{
    if n < 10 {
        seq![digit_char(n)]
    } else {
        digits(n / 10).push(digit_char(n % 10))
    }
}

/// Decimal notation of `n`, with a leading `-` when it is negative.
pub open spec fn decimal(n: int) -> Seq<char> {
    if n < 0 {
        seq!['-'] + digits((-n) as nat)
    } else {
        digits(n as nat)
    }
}

/// The address `host:port` that the server binds its listener to.
pub open spec fn bind_address_text(host: Seq<char>, port: int) -> Seq<char> {
    host + seq![':'] + decimal(port)
}

/// The text `TcpServer { host: <host>, port: <port> }`.
pub open spec fn description_text(host: Seq<char>, port: int) -> Seq<char> {
    "TcpServer { host: "@ + host + ", port: "@ + decimal(port) + " }"@
}

fn digit_str(d: u32) -> (s: &'static str)
    requires
        d < 10,
    ensures
        s@ == seq![digit_char(d as nat)],
{
    proof {
        reveal_strlit("0");
        reveal_strlit("1");
        reveal_strlit("2");
        reveal_strlit("3");
        reveal_strlit("4");
        reveal_strlit("5");
        reveal_strlit("6");
        reveal_strlit("7");
        reveal_strlit("8");
        reveal_strlit("9");
    }
    match d {
        0 => "0",
        1 => "1",
        2 => "2",
        3 => "3",
        4 => "4",
        5 => "5",
        6 => "6",
        7 => "7",
        8 => "8",
        _ => "9",
    }
}

fn push_digits(s: &mut String, n: u32)
    ensures
        final(s)@ == old(s)@ + digits(n as nat),
    decreases n,
{
    if n >= 10 {
        push_digits(s, n / 10);
    }
    s.append(digit_str(n % 10));
    proof {
        if n >= 10 {
            assert(old(s)@ + digits(n as nat) =~= old(s)@ + digits((n / 10) as nat) + seq![
                digit_char((n % 10) as nat),
            ]);
        } else {
            assert(digits(n as nat) == seq![digit_char(n as nat)]);
        }
    }
}

/// Appends the decimal notation of `n` to `s`.
pub fn push_decimal(s: &mut String, n: i32)
    ensures
        final(s)@ == old(s)@ + decimal(n as int),
{
    if n < 0 {
        proof {
            reveal_strlit("-");
        }
        s.append("-");
        let magnitude: u32 = (-(n as i64)) as u32;
        push_digits(s, magnitude);
        assert(final(s)@ =~= old(s)@ + decimal(n as int));
    } else {
        push_digits(s, n as u32);
    }
}

/// The address `host:port` that the server binds its listener to.
pub fn bind_address(host: &str, port: i32) -> (addr: String)
    ensures
        addr@ == bind_address_text(host@, port as int),
{
    let mut addr = String::from_str(host);
    proof {
        reveal_strlit(":");
    }
    addr.append(":");
    push_decimal(&mut addr, port);
    assert(addr@ =~= bind_address_text(host@, port as int));
    addr
}

/// The one-line description of a server listening on `host` and `port`.
pub fn describe(host: &str, port: i32) -> (text: String)
    ensures
        text@ == description_text(host@, port as int),
{
    let mut text = String::from_str("TcpServer { host: ");
    text.append(host);
    text.append(", port: ");
    push_decimal(&mut text, port);
    text.append(" }");
    assert(text@ =~= description_text(host@, port as int));
    text
}

} // verus!
