//! Decimal numbers in text: which strings a floating-point parse accepts,
//! and the decimal digits of a count.
use vstd::prelude::*;
use crate::render_states::{eq_ignore_case, eq_ignore_case_str};
use crate::splits::first_in_from;
use crate::strops::find;

verus! {

pub open spec fn is_digit(c: char) -> bool {
    '0' <= c && c <= '9'
}

pub open spec fn all_digits(s: Seq<char>) -> bool {
    forall|i: int| 0 <= i < s.len() ==> is_digit(#[trigger] s[i])
}

/// `s` without one leading `+` or `-`.
pub open spec fn unsigned_part(s: Seq<char>) -> Seq<char> {
    if s.len() > 0 && (s[0] == '+' || s[0] == '-') {
        s.subrange(1, s.len() as int)
    } else {
        s
    }
}

/// `Digit+ | Digit+ '.' Digit* | Digit* '.' Digit+`.
pub open spec fn is_mantissa(m: Seq<char>) -> bool {
    match find(m, seq!['.']) {
        None => m.len() > 0 && all_digits(m),
        Some(d) => {
            &&& all_digits(m.subrange(0, d))
            &&& all_digits(m.subrange(d + 1, m.len() as int))
            &&& (d > 0 || m.len() > d + 1)
        },
    }
}

/// `Sign? Digit+`.
pub open spec fn is_exponent(x: Seq<char>) -> bool {
    let y = unsigned_part(x);
    y.len() > 0 && all_digits(y)
}

/// `Mantissa ('e' Exponent)?`, the `e` in either case.
pub open spec fn is_decimal(s: Seq<char>) -> bool {
    let e = first_in_from(s, seq!['e', 'E'], 0);
    if e < s.len() {
        is_mantissa(s.subrange(0, e)) && is_exponent(s.subrange(e + 1, s.len() as int))
    } else {
        is_mantissa(s)
    }
}

/// The strings that `str::parse::<f64>` accepts, as its documentation gives
/// them: `Sign? ('inf' | 'infinity' | 'nan' | Number)`, the words in any
/// case.
pub open spec fn float_literal(s: Seq<char>) -> bool {
    let b = unsigned_part(s);
    eq_ignore_case(b, "inf"@) || eq_ignore_case(b, "infinity"@) || eq_ignore_case(b, "nan"@) || is_decimal(b)
}

fn digits_in(s: &[char], a: usize, b: usize) -> (r: bool)
    requires
        a <= b <= s@.len(),
    ensures
        r == all_digits(s@.subrange(a as int, b as int)),
{
    let mut i = a;
    while i < b
        invariant
            a <= i <= b <= s@.len(),
            forall|j: int| a <= j < i ==> is_digit(#[trigger] s@[j]),
        decreases b - i,
    {
        if !('0' <= s[i] && s[i] <= '9') {
            assert(!is_digit(s@.subrange(a as int, b as int)[i - a]));
            return false;
        }
        i = i + 1;
    }
    assert forall|j: int| 0 <= j < b - a implies is_digit(#[trigger] s@.subrange(a as int, b as int)[j]) by {
        assert(s@.subrange(a as int, b as int)[j] == s@[a + j]);
    }
    true
}

fn mantissa_in(s: &[char], a: usize, b: usize) -> (r: bool)
    requires
        a <= b <= s@.len(),
    ensures
        r == is_mantissa(s@.subrange(a as int, b as int)),
{
    let ghost m = s@.subrange(a as int, b as int);
    match crate::strops::find_char(s, a, b, '.') {
        None => a < b && digits_in(s, a, b),
        Some(d) => {
            proof {
                assert(m.subrange(0, d as int) =~= s@.subrange(a as int, a + d));
                assert(m.subrange(d + 1, m.len() as int) =~= s@.subrange(a + d + 1, b as int));
            }
            digits_in(s, a, a + d) && digits_in(s, a + d + 1, b) && (d > 0 || b - a > d + 1)
        },
    }
}

fn unsigned_start(s: &[char], a: usize, b: usize) -> (r: usize)
    requires
        a <= b <= s@.len(),
    ensures
        a <= r <= b,
        s@.subrange(r as int, b as int) == unsigned_part(s@.subrange(a as int, b as int)),
{
    if a < b && (s[a] == '+' || s[a] == '-') {
        assert(s@.subrange(a as int, b as int).subrange(1, (b - a) as int) =~= s@.subrange(a + 1, b as int));
        a + 1
    } else {
        a
    }
}

/// Whether `str::parse::<f64>` accepts `s[a..b]`.
pub fn is_float_literal(s: &[char], a: usize, b: usize) -> (r: bool)
    requires
        a <= b <= s@.len(),
    ensures
        r == float_literal(s@.subrange(a as int, b as int)),
{
    let u = unsigned_start(s, a, b);
    if eq_ignore_case_str(s, u, b, "inf") || eq_ignore_case_str(s, u, b, "infinity") || eq_ignore_case_str(
        s,
        u,
        b,
        "nan",
    ) {
        return true;
    }
    proof {
        assert(seq!['e', 'E'] =~= ['e', 'E']@);
    }
    let e = crate::splits::before_any_range(s, u, b, &['e', 'E']);
    let ghost d = s@.subrange(u as int, b as int);
    proof {
        crate::splits::lemma_first_in_from_bounds(d, seq!['e', 'E'], 0);
    }
    if e < b {
        proof {
            assert(d.subrange(0, e - u) =~= s@.subrange(u as int, e as int));
            assert(d.subrange(e - u + 1, d.len() as int) =~= s@.subrange(e + 1, b as int));
        }
        let x = unsigned_start(s, e + 1, b);
        mantissa_in(s, u, e) && x < b && digits_in(s, x, b)
    } else {
        proof {
            assert(s@.subrange(u as int, e as int) =~= d);
        }
        mantissa_in(s, u, b)
    }
}

/// The decimal digits of `n`.
pub open spec fn decimal(n: nat) -> Seq<char>
    decreases n,
{
    if n < 10 {
        seq![(n + 48) as char]
    } else {
        decimal(n / 10).push(((n % 10) + 48) as char)
    }
}

/// The decimal digits of `n`, as `format!("{n}")` writes them.
pub fn decimal_string(n: usize) -> (r: String)
    ensures
        r@ == decimal(n as nat),
    decreases n,
{
    let d = n % 10;
    let c = if d == 0 {
        '0'
    } else if d == 1 {
        '1'
    } else if d == 2 {
        '2'
    } else if d == 3 {
        '3'
    } else if d == 4 {
        '4'
    } else if d == 5 {
        '5'
    } else if d == 6 {
        '6'
    } else if d == 7 {
        '7'
    } else if d == 8 {
        '8'
    } else {
        '9'
    };
    assert(c == ((n % 10) + 48) as char);
    if n < 10 {
        let mut r = String::new();
        crate::text::push_char(&mut r, c);
        assert(r@ =~= decimal(n as nat));
        r
    } else {
        let mut r = decimal_string(n / 10);
        crate::text::push_char(&mut r, c);
        r
    }
}

} // verus!
