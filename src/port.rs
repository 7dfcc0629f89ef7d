//! The port the interface talks to the server on, taken from the command line.
use vstd::prelude::*;
use vstd::string::*;

verus! {

/// The port used when the command line names none, or none that parses.
pub const DEFAULT_PORT: u16 = 5660;

pub open spec fn is_digit(c: char) -> bool {
    '0' <= c && c <= '9'
}

pub open spec fn digit_value(c: char) -> int {
    (c as u32) - ('0' as u32)
}

pub open spec fn all_digits(s: Seq<char>) -> bool {
    forall|i: int| 0 <= i < s.len() ==> is_digit(#[trigger] s[i])
}

/// The number that a run of decimal digits stands for.
pub open spec fn digits_value(s: Seq<char>) -> int
    decreases s.len(),
{
    if s.len() == 0 {
        0
    } else {
        digits_value(s.drop_last()) * 10 + digit_value(s.last())
    }
}

/// What `u16`'s `from_str` accepts: an optional `+`, then one or more
/// decimal digits whose value fits.
pub open spec fn parse_u16_spec(s: Seq<char>) -> Option<u16> {
    let d = if s.len() > 0 && s[0] == '+' {
        s.drop_first()
    } else {
        s
    };
    if d.len() > 0 && all_digits(d) && digits_value(d) <= 65535 {
        Some(digits_value(d) as u16)
    } else {
        None
    }
}

/// The decimal digits of `n`, without leading zeros.
pub open spec fn decimal_spec(n: nat) -> Seq<char>
    decreases n,
{
    if n < 10 {
        seq!["0123456789"@[n as int]]
    } else {
        decimal_spec(n / 10).push("0123456789"@[(n % 10) as int])
    }
}

/// The port that the command line names: its first argument after the
/// program's own name, where that parses as a port number.
pub open spec fn port_spec(args: Seq<Seq<char>>) -> u16 {
    if args.len() > 1 && parse_u16_spec(args[1]) is Some {
        parse_u16_spec(args[1])->Some_0
    } else {
        DEFAULT_PORT
    }
}

proof fn lemma_digits_value_nonneg(s: Seq<char>)
    requires
        all_digits(s),
    ensures
        digits_value(s) >= 0,
    decreases s.len(),
{
    if s.len() > 0 {
        assert(all_digits(s.drop_last()));
        lemma_digits_value_nonneg(s.drop_last());
        assert(is_digit(s[s.len() - 1]));
    }
}

/// Parses a port number as `u16`'s `from_str` does.
pub fn parse_port(text: &str) -> (r: Option<u16>)
    ensures
        r == parse_u16_spec(text@),
{
    let n = text.unicode_len();
    let mut start: usize = 0;
    if n > 0 && text.get_char(0) == '+' {
        start = 1;
    }
    let ghost d = text@.subrange(start as int, n as int);
    assert(d =~= (if text@.len() > 0 && text@[0] == '+' {
        text@.drop_first()
    } else {
        text@
    }));
    let mut value: u32 = 0;
    let mut over = false;
    let mut digits_only = true;
    let mut i: usize = start;
    while i < n
        invariant
            n == text@.len(),
            start <= i <= n,
            d == text@.subrange(start as int, n as int),
            digits_only == all_digits(text@.subrange(start as int, i as int)),
            digits_only && !over ==> value == digits_value(text@.subrange(start as int, i as int)),
            digits_only && over ==> digits_value(text@.subrange(start as int, i as int)) > 65535,
            value <= 65535,
        decreases n - i,
    {
        let c = text.get_char(i);
        let ghost prev = text@.subrange(start as int, i as int);
        let ghost next = text@.subrange(start as int, i + 1);
        assert(next.drop_last() =~= prev);
        assert(next.last() == c);
        if '0' <= c && c <= '9' {
            if digits_only {
                assert(all_digits(next));
                proof {
                    lemma_digits_value_nonneg(prev);
                }
                if !over {
                    let grown: u32 = value * 10 + (c as u32 - '0' as u32);
                    if grown > 65535 {
                        over = true;
                    } else {
                        value = grown;
                    }
                } else {
                    assert(digits_value(prev) * 10 >= digits_value(prev)) by (nonlinear_arith)
                        requires
                            digits_value(prev) >= 0,
                    ;
                }
            }
        } else {
            if digits_only {
                assert(!is_digit(next[next.len() - 1]));
            }
            digits_only = false;
        }
        if !digits_only {
            assert(!all_digits(next)) by {
                if all_digits(next) {
                    assert(all_digits(prev)) by {
                        assert forall|j: int| 0 <= j < prev.len() implies is_digit(prev[j]) by {
                            assert(prev[j] == next[j]);
                        }
                    }
                    assert(is_digit(next[next.len() - 1]));
                }
            }
        }
        i = i + 1;
    }
    if start < n && digits_only && !over {
        Some(value as u16)
    } else {
        None
    }
}

fn digit_text(d: u16) -> (r: &'static str)
    requires
        d < 10,
    ensures
        r@ == seq!["0123456789"@[d as int]],
{
    let digits: &'static str = "0123456789";
    proof {
        reveal_strlit("0123456789");
    }
    let r = digits.substring_char(d as usize, d as usize + 1);
    assert(r@ =~= seq!["0123456789"@[d as int]]);
    r
}

/// The decimal text of `n`.
pub fn decimal_text(n: u16) -> (r: String)
    ensures
        r@ == decimal_spec(n as nat),
    decreases n,
{
    if n < 10 {
        String::from_str(digit_text(n))
    } else {
        let mut r = decimal_text(n / 10);
        r.append(digit_text(n % 10));
        r
    }
}

/// The port that the command line `args` names, program name first, as
/// decimal text.
pub fn parse_port_from_args(args: &Vec<String>) -> (r: String)
    ensures
        r@ == decimal_spec(port_spec(args@.map_values(|a: String| a@)) as nat),
{
    let ghost views = args@.map_values(|a: String| a@);
    let mut port = DEFAULT_PORT;
    if args.len() > 1 {
        assert(views[1] == args@[1]@);
        match parse_port(args[1].as_str()) {
            Some(p) => {
                port = p;
            },
            None => {},
        }
    }
    decimal_text(port)
}

} // verus!
