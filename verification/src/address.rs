//! Socket addresses in the form `host:port`.

use vstd::prelude::*;
use vstd::string::StringExecFns;

verus! {

/// The character of a decimal digit.
pub open spec fn digit(d: int) -> char {
    if d == 0 {
        '0'
    } else if d == 1 {
        '1'
    } else if d == 2 {
        '2'
    } else if d == 3 {
        '3'
    } else if d == 4 {
        '4'
    } else if d == 5 {
        '5'
    } else if d == 6 {
        '6'
    } else if d == 7 {
        '7'
    } else if d == 8 {
        '8'
    } else {
        '9'
    }
}

/// A natural number in decimal, without leading zeros.
pub open spec fn decimal(n: nat) -> Seq<char>
    decreases n,
{
    if n < 10 {
        seq![digit(n as int)]
    } else {
        decimal(n / 10).push(digit((n % 10) as int))
    }
}

/// An integer in decimal, with a minus sign if it is negative.
pub open spec fn signed_decimal(n: int) -> Seq<char> {
    if n < 0 {
        seq!['-'] + decimal((-n) as nat)
    } else {
        decimal(n as nat)
    }
}

/// The address of the port on the host: the host, a colon, the port in
/// decimal.
pub open spec fn address_of(host: Seq<char>, port: int) -> Seq<char> {
    host + seq![':'] + signed_decimal(port)
}

fn digit_str(d: u32) -> (s: &'static str)
    requires
        d < 10,
    ensures
        s@ == seq![digit(d as int)],
{
    proof {
        reveal_strlit("0");
        reveal_strlit("1");
        reveal_strlit("2");
        reveal_strlit("3");
        reveal_strlit("4");
        reveal_strlit("5");
        reveal_strlit("6");
        reveal_strlit("7");
        reveal_strlit("8");
        reveal_strlit("9");
    }
    let s = match d {
        0 => "0",
        1 => "1",
        2 => "2",
        3 => "3",
        4 => "4",
        5 => "5",
        6 => "6",
        7 => "7",
        8 => "8",
        _ => "9",
    };
    assert(s@ =~= seq![digit(d as int)]);
    s
}

fn push_decimal(out: &mut String, n: u32)
    ensures
        final(out)@ == old(out)@ + decimal(n as nat),
    decreases n,
{
    if n >= 10 {
        push_decimal(out, n / 10);
    }
    out.append(digit_str(n % 10));
    assert(out@ =~= old(out)@ + decimal(n as nat));
}

/// Whether the number is a TCP port that a proxy can be asked to listen on:
/// 1 to 65535.
pub open spec fn is_port(port: int) -> bool {
    1 <= port <= 65535
}

/// Whether the number is a TCP port, 1 to 65535. Callers of the control
/// handle turn away what is not; the handle itself passes any number on.
pub fn port_in_range(port: i32) -> (valid: bool)
    ensures
        valid == is_port(port as int),
{
    1 <= port && port <= 65535
}

/// Appends an integer in decimal.
pub fn push_signed_decimal(out: &mut String, n: i32)
    ensures
        final(out)@ == old(out)@ + signed_decimal(n as int),
{
    if n < 0 {
        proof {
            reveal_strlit("-");
        }
        out.append("-");
        let magnitude: u32 = (-(n as i64)) as u32;
        push_decimal(out, magnitude);
        assert(out@ =~= old(out)@ + signed_decimal(n as int));
    } else {
        push_decimal(out, n as u32);
    }
}

/// The address `host:port`, as it is handed to the resolver. The port is
/// written as it is, in range or not.
pub fn socket_address(host: &str, port: i32) -> (address: String)
    ensures
        address@ == address_of(host@, port as int),
{
    let mut address = String::from_str(host);
    proof {
        reveal_strlit(":");
    }
    address.append(":");
    push_signed_decimal(&mut address, port);
    assert(address@ =~= address_of(host@, port as int));
    address
}

} // verus!
