//! Runtime configuration: the listening port, how it is read from text and how the
//! listen address is written.

use vstd::prelude::*;

use crate::text::{chars_of, extend_chars, string_of};

verus! {

/// The port used where none is configured, or the configured one is not a port.
pub const DEFAULT_PORT: u16 = 3000;

/// Minimal runtime config from process environment (v1).
#[derive(Debug, Clone, Copy, PartialEq, Eq, Structural)]
pub struct RezisConfig {
    pub port: u16,
}

/// The decimal digit character for `d` (`0 <= d < 10`).
pub open spec fn digit_char(d: int) -> char {
    if d == 0 {
        '0'
    } else if d == 1 {
        '1'
    } else if d == 2 {
        '2'
    } else if d == 3 {
        '3'
    } else if d == 4 {
        '4'
    } else if d == 5 {
        '5'
    } else if d == 6 {
        '6'
    } else if d == 7 {
        '7'
    } else if d == 8 {
        '8'
    } else {
        '9'
    }
}

/// An ASCII decimal digit.
pub open spec fn is_digit(c: char) -> bool {
    '0' <= c && c <= '9'
}

/// The value of the decimal digit `c`.
pub open spec fn digit_value(c: char) -> int {
    (c as int) - ('0' as int)
}

/// The decimal numeral of `n`, without leading zeros.
pub open spec fn decimal(n: nat) -> Seq<char>
    decreases n,
{
    if n < 10 {
        seq![digit_char(n as int)]
    } else {
        decimal(n / 10).push(digit_char((n % 10) as int))
    }
}

/// The number that the decimal digits `d` denote.
pub open spec fn digits_value(d: Seq<char>) -> int
    decreases d.len(),
{
    if d.len() == 0 {
        0
    } else {
        digits_value(d.drop_last()) * 10 + digit_value(d.last())
    }
}

/// `d` holds only decimal digits.
pub open spec fn all_digits(d: Seq<char>) -> bool {
    forall|i: int| 0 <= i < d.len() ==> is_digit(#[trigger] d[i])
}

/// `s` as a `u16`, the way std's `str::parse::<u16>` reads it: an optional `+`, then at
/// least one decimal digit, denoting at most 65535.
pub open spec fn parse_u16(s: Seq<char>) -> Option<u16> {
    let d = if s.len() > 0 && s[0] == '+' {
        s.drop_first()
    } else {
        s
    };
    if d.len() > 0 && all_digits(d) && digits_value(d) <= 65535 {
        Some(digits_value(d) as u16)
    } else {
        None
    }
}

/// The port that `raw` configures: its `u16` value, or `DEFAULT_PORT` where it is absent
/// or not a `u16`.
pub open spec fn spec_parse_port(raw: Option<Seq<char>>) -> u16 {
    match raw {
        Some(s) => match parse_u16(s) {
            Some(p) => p,
            None => DEFAULT_PORT,
        },
        None => DEFAULT_PORT,
    }
}

fn digit_to_char(d: u16) -> (c: char)
    requires
        d < 10,
    ensures
        c == digit_char(d as int),
{
    if d == 0 {
        '0'
    } else if d == 1 {
        '1'
    } else if d == 2 {
        '2'
    } else if d == 3 {
        '3'
    } else if d == 4 {
        '4'
    } else if d == 5 {
        '5'
    } else if d == 6 {
        '6'
    } else if d == 7 {
        '7'
    } else if d == 8 {
        '8'
    } else {
        '9'
    }
}

/// The decimal numeral of `n`.
pub fn decimal_chars(n: u16) -> (r: Vec<char>)
    ensures
        r@ == decimal(n as nat),
{
    // digits collected from the least significant one
    let mut rev: Vec<char> = Vec::new();
    let mut m: u16 = n;
    let ghost mut tail: Seq<char> = seq![];
    loop
        invariant
            m <= n,
            rev@.len() == tail.len(),
            forall|i: int| 0 <= i < tail.len() ==> rev@[i] == tail[tail.len() - 1 - i],
            decimal(n as nat) == decimal(m as nat) + tail,
            rev@.len() > 0 ==> m > 0,
        ensures
            m < 10,
            decimal(n as nat) == seq![digit_char(m as int)] + tail,
            rev@.len() == tail.len(),
            forall|i: int| 0 <= i < tail.len() ==> rev@[i] == tail[tail.len() - 1 - i],
        decreases m,
    {
        if m < 10 {
            break;
        }
        let c = digit_to_char(m % 10);
        proof {
            assert(decimal(m as nat) == decimal((m / 10) as nat).push(c));
            assert(decimal((m / 10) as nat).push(c) + tail =~= decimal((m / 10) as nat) + (seq![c]
                + tail));
            tail = seq![c] + tail;
        }
        rev.push(c);
        m = m / 10;
    }
    let mut r: Vec<char> = Vec::new();
    r.push(digit_to_char(m));
    let mut i: usize = rev.len();
    while i > 0
        invariant
            i <= rev@.len() == tail.len(),
            forall|k: int| 0 <= k < tail.len() ==> rev@[k] == tail[tail.len() - 1 - k],
            r@ == seq![digit_char(m as int)] + tail.take(tail.len() - i),
        decreases i,
    {
        i -= 1;
        r.push(rev[i]);
        assert(tail.take(tail.len() - i) =~= tail.take(tail.len() - (i + 1)).push(
            tail[tail.len() - 1 - i],
        ));
    }
    assert(tail.take(tail.len() as int) =~= tail);
    r
}

/// `s` read as a `u16`, or `None` where std's `str::parse::<u16>` fails.
pub fn parse_u16_chars(s: &Vec<char>) -> (r: Option<u16>)
    ensures
        r == parse_u16(s@),
{
    let start: usize = if s.len() > 0 && s[0] == '+' {
        1
    } else {
        0
    };
    let ghost d = if s@.len() > 0 && s@[0] == '+' {
        s@.drop_first()
    } else {
        s@
    };
    assert(d =~= s@.skip(start as int));
    if start >= s.len() {
        return None;
    }
    // the value read so far, capped at 65536
    let mut acc: u32 = 0;
    let mut i: usize = start;
    assert(d.take(0) =~= Seq::<char>::empty());
    while i < s.len()
        invariant
            start <= i <= s.len(),
            d == s@.skip(start as int),
            d == (if s@.len() > 0 && s@[0] == '+' {
                s@.drop_first()
            } else {
                s@
            }),
            all_digits(d.take(i - start)),
            acc as int == if digits_value(d.take(i - start)) < 65536 {
                digits_value(d.take(i - start))
            } else {
                65536
            },
        decreases s.len() - i,
    {
        let c = s[i];
        if !('0' <= c && c <= '9') {
            assert(!is_digit(d[i - start]));
            assert(!all_digits(d));
            return None;
        }
        let ghost prefix = d.take(i - start);
        let ghost next = d.take(i - start + 1);
        assert(next.drop_last() =~= prefix);
        assert(next.last() == c);
        let dv = (c as u32) - ('0' as u32);
        assert(dv == digit_value(c));
        acc = acc * 10 + dv;
        if acc > 65536 {
            acc = 65536;
        }
        assert(all_digits(next)) by {
            assert forall|k: int| 0 <= k < next.len() implies is_digit(#[trigger] next[k]) by {
                if k < prefix.len() {
                    assert(next[k] == prefix[k]);
                }
            }
        }
        i += 1;
    }
    assert(d.take(s.len() - start) =~= d);
    if acc > 65535 {
        None
    } else {
        Some(acc as u16)
    }
}

/// The configured port: `raw` read as a `u16`, `DEFAULT_PORT` where it is absent or not
/// a `u16`.
pub fn parse_port(raw: Option<String>) -> (port: u16)
    ensures
        port == spec_parse_port(
            match raw {
                Some(s) => Some(s@),
                None => None,
            },
        ),
{
    match raw {
        Some(s) => match parse_u16_chars(&chars_of(s.as_str())) {
            Some(p) => p,
            None => DEFAULT_PORT,
        },
        None => DEFAULT_PORT,
    }
}

/// The address a server listens on: every IPv4 interface, at `port`.
pub open spec fn spec_bind_address(port: u16) -> Seq<char> {
    "0.0.0.0:"@ + decimal(port as nat)
}

impl RezisConfig {
    /// The config with the given port.
    pub fn new(port: u16) -> (c: RezisConfig)
        ensures
            c.port == port,
    {
        RezisConfig { port }
    }

    /// The config for the raw `PORT` setting: its port, or `DEFAULT_PORT` where it is
    /// absent or not a `u16`.
    pub fn from_port_setting(raw: Option<String>) -> (c: RezisConfig)
        ensures
            c.port == spec_parse_port(
                match raw {
                    Some(s) => Some(s@),
                    None => None,
                },
            ),
    {
        RezisConfig { port: parse_port(raw) }
    }

    /// Listen address on all IPv4 interfaces (`0.0.0.0`) and [`Self::port`].
    pub fn bind_address(&self) -> (a: String)
        ensures
            a@ == spec_bind_address(self.port),
    {
        let mut v = chars_of("0.0.0.0:");
        extend_chars(&mut v, &decimal_chars(self.port));
        string_of(&v)
    }
}

/// The digit character for `d` is a digit and has value `d`.
pub proof fn lemma_digit_char_value(d: int)
    requires
        0 <= d < 10,
    ensures
        is_digit(digit_char(d)),
        digit_value(digit_char(d)) == d,
{
}

/// The numeral of `n` is made of decimal digits and denotes `n`.
pub proof fn lemma_decimal(n: nat)
    ensures
        decimal(n).len() > 0,
        all_digits(decimal(n)),
        digits_value(decimal(n)) == n,
    decreases n,
{
    lemma_digit_char_value((n % 10) as int);
    if n >= 10 {
        lemma_decimal(n / 10);
        assert((n / 10) * 10 + n % 10 == n) by (nonlinear_arith);
        let d = decimal(n);
        assert(d.drop_last() =~= decimal(n / 10));
        assert(digits_value(d) == digits_value(decimal(n / 10)) * 10 + (n % 10));
        assert(digits_value(decimal(n / 10)) == n / 10);
        assert(digits_value(d) == (n / 10) * 10 + (n % 10));
        assert forall|i: int| 0 <= i < d.len() implies is_digit(#[trigger] d[i]) by {
            if i < d.len() - 1 {
                assert(d[i] == decimal(n / 10)[i]);
            }
        }
    } else {
        assert(decimal(n).drop_last() =~= Seq::<char>::empty());
        assert(digits_value(Seq::<char>::empty()) == 0);
        assert(digits_value(decimal(n)) == digit_value(digit_char(n as int)));
    }
}

/// Reading back the numeral that `bind_address` writes gives the port: every port
/// written in decimal is parsed as itself.
pub proof fn law_port_roundtrip(port: u16)
    ensures
        parse_u16(decimal(port as nat)) == Some(port),
        spec_parse_port(Some(decimal(port as nat))) == port,
{
    lemma_decimal(port as nat);
    assert(is_digit(decimal(port as nat)[0]));
}

} // verus!
