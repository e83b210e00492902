//! Decimal rendering of integers and the socket addresses built from them.
use vstd::prelude::*;
use vstd::string::*;
use vstd::utf8::*;

verus! {

/// The ten decimal digits, in order.
pub open spec fn digit_chars() -> Seq<char> {
    seq!['0', '1', '2', '3', '4', '5', '6', '7', '8', '9']
}

/// The decimal representation of `n`, without sign or leading zeros.
pub open spec fn decimal(n: nat) -> Seq<char>
    decreases n,
{
    if n < 10 {
        seq![digit_chars()[n as int]]
    } else {
        decimal(n / 10).push(digit_chars()[(n % 10) as int])
    }
}

/// The value of a decimal digit character.
pub open spec fn digit_value(c: char) -> int {
    (c as int) - ('0' as int)
}

/// The number that the digit characters `s` denote in base 10, most
/// significant digit first.
pub open spec fn numeral_value(s: Seq<char>) -> int
    decreases s.len(),
{
    if s.len() == 0 {
        0
    } else {
        10 * numeral_value(s.drop_last()) + digit_value(s.last())
    }
}

/// `decimal(n)` is the standard base-10 numeral of `n`: it consists of the
/// characters `0` to `9`, read in base 10 it denotes `n`, and it has no
/// leading zero (the numeral of 0 is the single digit `0`).
pub proof fn lemma_decimal_is_numeral(n: nat)
    ensures
        decimal(n).len() >= 1,
        forall|i: int| 0 <= i < decimal(n).len() ==> '0' <= #[trigger] decimal(n)[i] <= '9',
        numeral_value(decimal(n)) == n,
        decimal(n)[0] == '0' ==> n == 0 && decimal(n).len() == 1,
    decreases n,
{
    let d = digit_chars();
    assert(d[0] == '0' && d[1] == '1' && d[2] == '2' && d[3] == '3' && d[4] == '4');
    assert(d[5] == '5' && d[6] == '6' && d[7] == '7' && d[8] == '8' && d[9] == '9');
    if n < 10 {
        assert(decimal(n) == seq![d[n as int]]);
        assert(decimal(n).drop_last() =~= Seq::<char>::empty());
        assert(numeral_value(decimal(n).drop_last()) == 0);
        assert(digit_value(d[n as int]) == n) by {
            if n == 0 {} else if n == 1 {} else if n == 2 {} else if n == 3 {} else if n == 4 {
            } else if n == 5 {} else if n == 6 {} else if n == 7 {} else if n == 8 {} else {}
        }
    } else {
        lemma_decimal_is_numeral(n / 10);
        let s = decimal(n);
        assert(s == decimal(n / 10).push(d[(n % 10) as int]));
        assert(s.drop_last() =~= decimal(n / 10));
        let r = n % 10;
        assert(digit_value(d[r as int]) == r) by {
            if r == 0 {} else if r == 1 {} else if r == 2 {} else if r == 3 {} else if r == 4 {
            } else if r == 5 {} else if r == 6 {} else if r == 7 {} else if r == 8 {} else {}
        }
        assert(digit_value(s.last()) == n % 10);
        assert(10 * (n / 10) + n % 10 == n);
        assert forall|i: int| 0 <= i < s.len() implies '0' <= #[trigger] s[i] <= '9' by {
            if i < s.len() - 1 {
                assert(s[i] == decimal(n / 10)[i]);
            }
        }
        assert(s[0] == decimal(n / 10)[0]);
    }
}

fn digit_text(d: u64) -> (s: &'static str)
    requires
        d < 10,
    ensures
        s@ == seq![digit_chars()[d as int]],
{
    match d {
        0 => {
            proof { reveal_strlit("0"); }
            "0"
        },
        1 => {
            proof { reveal_strlit("1"); }
            "1"
        },
        2 => {
            proof { reveal_strlit("2"); }
            "2"
        },
        3 => {
            proof { reveal_strlit("3"); }
            "3"
        },
        4 => {
            proof { reveal_strlit("4"); }
            "4"
        },
        5 => {
            proof { reveal_strlit("5"); }
            "5"
        },
        6 => {
            proof { reveal_strlit("6"); }
            "6"
        },
        7 => {
            proof { reveal_strlit("7"); }
            "7"
        },
        8 => {
            proof { reveal_strlit("8"); }
            "8"
        },
        _ => {
            proof { reveal_strlit("9"); }
            "9"
        },
    }
}

/// Renders `n` in decimal.
pub fn decimal_string(n: u64) -> (s: String)
    ensures
        s@ == decimal(n as nat),
    decreases n,
{
    if n < 10 {
        String::from_str(digit_text(n))
    } else {
        let mut s = decimal_string(n / 10);
        s.append(digit_text(n % 10));
        s
    }
}

/// The address the server binds its UDP socket to: every interface, `port`.
pub open spec fn server_bind_address_spec(port: u16) -> Seq<char> {
    seq!['0', '.', '0', '.', '0', '.', '0', ':'] + decimal(port as nat)
}

/// Renders the server's bind address, `0.0.0.0:<port>`.
pub fn server_bind_address(port: u16) -> (s: String)
    ensures
        s@ == server_bind_address_spec(port),
{
    let mut s = String::from_str("0.0.0.0:");
    proof { reveal_strlit("0.0.0.0:"); }
    let p = decimal_string(port as u64);
    s.append(p.as_str());
    s
}

/// An IPv4 address in dotted-quad notation followed by `:` and a port.
pub open spec fn ipv4_socket_address(octets: Seq<u8>, port: u16) -> Seq<char>
    recommends
        octets.len() == 4,
{
    decimal(octets[0] as nat) + seq!['.'] + decimal(octets[1] as nat) + seq!['.']
        + decimal(octets[2] as nat) + seq!['.'] + decimal(octets[3] as nat) + seq![':']
        + decimal(port as nat)
}

/// Renders the address the client binds its UDP socket to.
pub fn client_bind_address(octets: [u8; 4], port: u16) -> (s: String)
    ensures
        s@ == ipv4_socket_address(octets@, port),
{
    proof {
        reveal_strlit(".");
        reveal_strlit(":");
    }
    let mut s = decimal_string(octets[0] as u64);
    s.append(".");
    s.append(decimal_string(octets[1] as u64).as_str());
    s.append(".");
    s.append(decimal_string(octets[2] as u64).as_str());
    s.append(".");
    s.append(decimal_string(octets[3] as u64).as_str());
    s.append(":");
    s.append(decimal_string(port as u64).as_str());
    s
}

/// Calls `std::str::from_utf8` and copies the text it accepts into a
/// `String`.  As std documents, the bytes are accepted exactly when they are
/// well-formed UTF-8, and the text is what they encode.
#[verifier::external_body]
pub(crate) fn utf8_text(bytes: &[u8]) -> (text: Option<String>)
    ensures
        text is Some <==> valid_utf8(bytes@),
        text matches Some(t) ==> t@ == decode_utf8(bytes@),
{
    std::str::from_utf8(bytes).ok().map(|t| t.to_string())
}

} // verus!
