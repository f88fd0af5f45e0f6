//! Literal values and their lexical classification.
//!
//! A literal carries its lexical kind and the exact source text of its
//! token (including any type suffix, such as `3f64` or `20_i32`).
//! Whether a numeric token counts as an integer or as a float is decided
//! purely by its lexical form: a decimal point, an exponent, or an `f32`
//! / `f64` suffix makes it a float, and nothing else does. The
//! surrounding code's types play no part in the decision.

use vstd::prelude::*;

verus! {

/// The lexical kind of a literal token.
#[derive(Clone, Copy, Debug, PartialEq, Eq, Structural)]
pub enum LitKind {
    Int,
    Float,
    Bool,
    Str,
    ByteStr,
    Byte,
    Char,
}

/// One literal token: its kind and its exact source text.
#[derive(Clone, Debug, PartialEq, Eq)]
pub struct Literal {
    pub kind: LitKind,
    pub text: String,
}

/// Mathematical image of a `Literal`.
#[verifier::ext_equal]
pub ghost struct LiteralModel {
    pub kind: LitKind,
    pub text: Seq<char>,
}

impl View for Literal {
    type V = LiteralModel;

    open spec fn view(&self) -> LiteralModel {
        LiteralModel { kind: self.kind, text: self.text@ }
    }
}

/// A decimal digit.
pub open spec fn spec_is_digit(c: char) -> bool {
    c == '0' || c == '1' || c == '2' || c == '3' || c == '4' || c == '5' || c == '6' || c == '7'
        || c == '8' || c == '9'
}

/// A character that may continue the digit run of a numeric token.
pub open spec fn spec_is_digit_or_sep(c: char) -> bool {
    spec_is_digit(c) || c == '_'
}

/// First position at or after `i` that does not hold a digit or `_`.
pub open spec fn spec_scan_digits(s: Seq<char>, i: int) -> int
    recommends
        0 <= i <= s.len(),
    decreases s.len() - i when 0 <= i <= s.len()
{
    if i < s.len() && spec_is_digit_or_sep(s[i]) {
        spec_scan_digits(s, i + 1)
    } else {
        i
    }
}

/// A binary, octal or hexadecimal prefix; such tokens are always integers.
pub open spec fn spec_has_radix_prefix(s: Seq<char>) -> bool {
    s.len() >= 2 && s[0] == '0' && (s[1] == 'x' || s[1] == 'o' || s[1] == 'b')
}

/// The position right after the mantissa and exponent of a decimal
/// numeric token: what remains from there on is the type suffix.
pub open spec fn spec_after_number(s: Seq<char>) -> int {
    let i = spec_scan_digits(s, 0);
    let j = if i < s.len() && s[i] == '.' {
        spec_scan_digits(s, i + 1)
    } else {
        i
    };
    if j < s.len() && (s[j] == 'e' || s[j] == 'E') {
        let e0 = if j + 1 < s.len() && (s[j + 1] == '+' || s[j + 1] == '-') {
            j + 2
        } else {
            j + 1
        };
        let k = spec_scan_digits(s, e0);
        if k > e0 {
            k
        } else {
            j
        }
    } else {
        j
    }
}

/// Whether the token has a decimal point in mantissa position.
pub open spec fn spec_has_decimal_point(s: Seq<char>) -> bool {
    let i = spec_scan_digits(s, 0);
    i < s.len() && s[i] == '.'
}

/// Whether the token has a well-formed exponent part.
pub open spec fn spec_has_exponent(s: Seq<char>) -> bool {
    let i = spec_scan_digits(s, 0);
    let j = if i < s.len() && s[i] == '.' {
        spec_scan_digits(s, i + 1)
    } else {
        i
    };
    j < s.len() && (s[j] == 'e' || s[j] == 'E') && {
        let e0 = if j + 1 < s.len() && (s[j + 1] == '+' || s[j + 1] == '-') {
            j + 2
        } else {
            j + 1
        };
        spec_scan_digits(s, e0) > e0
    }
}

/// Whether the type suffix of the token names a float type.
pub open spec fn spec_has_float_suffix(s: Seq<char>) -> bool {
    let p = spec_after_number(s);
    s.subrange(p, s.len() as int) == "f32"@ || s.subrange(p, s.len() as int) == "f64"@
}

/// Lexical classification of a numeric token: float if and only if its
/// own text shows a decimal point, an exponent, or a float suffix.
pub open spec fn spec_classify_numeric(s: Seq<char>) -> LitKind {
    if spec_has_radix_prefix(s) {
        LitKind::Int
    } else if spec_has_decimal_point(s) || spec_has_exponent(s) || spec_has_float_suffix(s) {
        LitKind::Float
    } else {
        LitKind::Int
    }
}

fn is_digit_or_sep(c: char) -> (r: bool)
    ensures
        r == spec_is_digit_or_sep(c),
{
    match c {
        '0' | '1' | '2' | '3' | '4' | '5' | '6' | '7' | '8' | '9' | '_' => true,
        _ => false,
    }
}

fn scan_digits(s: &str, start: usize, n: usize) -> (r: usize)
    requires
        n == s@.len(),
        start <= n,
    ensures
        r == spec_scan_digits(s@, start as int),
        start <= r <= n,
    decreases n - start,
{
    if start < n {
        let c = s.get_char(start);
        if is_digit_or_sep(c) {
            return scan_digits(s, start + 1, n);
        }
    }
    start
}

/// Decide the lexical kind of a numeric token from its text alone.
pub fn classify_numeric(text: &str) -> (k: LitKind)
    ensures
        k == spec_classify_numeric(text@),
{
    let n = text.unicode_len();
    if n >= 2 && text.get_char(0) == '0' {
        let c1 = text.get_char(1);
        if c1 == 'x' || c1 == 'o' || c1 == 'b' {
            return LitKind::Int;
        }
    }
    let i = scan_digits(text, 0, n);
    let has_dot = i < n && text.get_char(i) == '.';
    let j = if has_dot {
        scan_digits(text, i + 1, n)
    } else {
        i
    };
    let mut has_exp = false;
    let mut p = j;
    if j < n {
        let cj = text.get_char(j);
        if cj == 'e' || cj == 'E' {
            let e0 = if j + 1 < n {
                let cs = text.get_char(j + 1);
                if cs == '+' || cs == '-' {
                    j + 2
                } else {
                    j + 1
                }
            } else {
                j + 1
            };
            if e0 <= n {
                let k = scan_digits(text, e0, n);
                if k > e0 {
                    has_exp = true;
                    p = k;
                }
            }
        }
    }
    proof {
        assert(p == spec_after_number(text@));
        assert(has_exp == spec_has_exponent(text@));
        assert(has_dot == spec_has_decimal_point(text@));
    }
    let float_suffix = n - p == 3 && {
        let a = text.get_char(p);
        let b = text.get_char(p + 1);
        let c = text.get_char(p + 2);
        a == 'f' && (b == '3' && c == '2' || b == '6' && c == '4')
    };
    proof {
        reveal_strlit("f32");
        reveal_strlit("f64");
        let sub = text@.subrange(p as int, text@.len() as int);
        if float_suffix {
            assert(sub =~= "f32"@ || sub =~= "f64"@);
        }
        if spec_has_float_suffix(text@) {
            assert(sub.len() == 3);
            assert(sub[0] == text@[p as int]);
            assert(sub[1] == text@[p as int + 1]);
            assert(sub[2] == text@[p as int + 2]);
        }
        assert(float_suffix == spec_has_float_suffix(text@));
    }
    if has_dot || has_exp || float_suffix {
        LitKind::Float
    } else {
        LitKind::Int
    }
}

impl Literal {
    /// Build a literal of a known kind from its source text.
    pub fn new(kind: LitKind, text: String) -> (r: Literal)
        ensures
            r@ == (LiteralModel { kind, text: text@ }),
    {
        Literal { kind, text }
    }

    /// Build a numeric literal, classifying it from its text alone.
    pub fn numeric(text: String) -> (r: Literal)
        ensures
            r@ == (LiteralModel { kind: spec_classify_numeric(text@), text: text@ }),
    {
        let kind = classify_numeric(text.as_str());
        Literal { kind, text }
    }
}

} // verus!
