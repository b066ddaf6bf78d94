//! HTTP URL rendering for the sidecar's local and LAN addresses.
//!
//! The launcher shows two URLs: one on the loopback address and one on the
//! auto-detected LAN address.  Both follow one rule: port 80 is the HTTP
//! default and is omitted; every other port appears in decimal after a
//! colon.

use vstd::prelude::*;

verus! {

/// The decimal digit character for a value below ten.
pub open spec fn digit_char(d: nat) -> char {
    if d == 0 {
        '0'
    } else if d == 1 {
        '1'
    } else if d == 2 {
        '2'
    } else if d == 3 {
        '3'
    } else if d == 4 {
        '4'
    } else if d == 5 {
        '5'
    } else if d == 6 {
        '6'
    } else if d == 7 {
        '7'
    } else if d == 8 {
        '8'
    } else {
        '9'
    }
}

/// The decimal rendering of a natural number, most significant digit first,
/// with no leading zeros (zero itself renders as "0").
pub open spec fn decimal_digits(n: nat) -> Seq<char>
    decreases n,
{
    if n < 10 {
        seq![digit_char(n)]
    } else {
        decimal_digits(n / 10).push(digit_char(n % 10))
    }
}

fn digit_str(d: u16) -> (r: &'static str)
    requires
        d < 10,
    ensures
        r@ == seq![digit_char(d as nat)],
{
    proof {
        reveal_strlit("0");
        reveal_strlit("1");
        reveal_strlit("2");
        reveal_strlit("3");
        reveal_strlit("4");
        reveal_strlit("5");
        reveal_strlit("6");
        reveal_strlit("7");
        reveal_strlit("8");
        reveal_strlit("9");
    }
    let r: &'static str = if d == 0 {
        "0"
    } else if d == 1 {
        "1"
    } else if d == 2 {
        "2"
    } else if d == 3 {
        "3"
    } else if d == 4 {
        "4"
    } else if d == 5 {
        "5"
    } else if d == 6 {
        "6"
    } else if d == 7 {
        "7"
    } else if d == 8 {
        "8"
    } else {
        "9"
    };
    proof {
        assert(r@ =~= seq![digit_char(d as nat)]);
    }
    r
}

/// Renders a port (or any 16-bit value) in decimal.
pub fn u16_to_string(n: u16) -> (r: String)
    ensures
        r@ == decimal_digits(n as nat),
    decreases n,
{
    if n < 10 {
        let r = String::from_str(digit_str(n));
        proof {
            assert(r@ =~= decimal_digits(n as nat));
        }
        r
    } else {
        let mut r = u16_to_string(n / 10);
        r.append(digit_str(n % 10));
        proof {
            assert(r@ =~= decimal_digits(n as nat));
        }
        r
    }
}

/// What `format_http_url` returns: `http://{host}` when the port is the
/// HTTP default 80, `http://{host}:{port}` otherwise.
pub open spec fn spec_http_url(host: Seq<char>, port: u16) -> Seq<char> {
    if port == 80 {
        "http://"@ + host
    } else {
        "http://"@ + host + ":"@ + decimal_digits(port as nat)
    }
}

/// Renders the URL under which the sidecar is reachable on `host`.
pub fn format_http_url(host: &str, port: u16) -> (r: String)
    ensures
        r@ == spec_http_url(host@, port),
{
    let mut r = String::from_str("http://");
    r.append(host);
    if port != 80 {
        r.append(":");
        let digits = u16_to_string(port);
        r.append(digits.as_str());
    }
    proof {
        assert(r@ =~= spec_http_url(host@, port));
    }
    r
}

/// Law: for every host, the URL for port 80 omits the port suffix, and the
/// URL for any other port carries that port in decimal after a colon.
pub proof fn lemma_http_url_port_rule(host: Seq<char>, port: u16)
    ensures
        port == 80 ==> spec_http_url(host, port) == "http://"@ + host,
        port != 80 ==> spec_http_url(host, port) == "http://"@ + host + ":"@ + decimal_digits(
            port as nat,
        ),
{
}

} // verus!
