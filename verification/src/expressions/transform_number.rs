use vstd::prelude::*;
use crate::lua::{Token, TokenKind};
use crate::text::{remove_underscores, without_underscores};
use crate::ts::{Expr, Lit, SpecExpr, SpecLit};
use crate::util::{skip, spec_skip};
use vstd::string::StrSliceExecFns;

verus! {

/// A number literal keeps its text, without the `_` digit separators.
pub open spec fn spec_number(token: Token) -> SpecExpr {
    match token.kind {
        TokenKind::Number { text } => SpecExpr::Lit(SpecLit::Num(without_underscores(text@))),
        _ => spec_skip("transform_number token was not TokenType::Number"@, token.source@),
    }
}

/// A number literal keeps the characters of its text, in order, but for the
/// `_` digit separators.
pub proof fn lemma_number_keeps_digits(token: Token)
    ensures
        token.kind matches TokenKind::Number { text } ==> spec_number(token) == SpecExpr::Lit(
            SpecLit::Num(text@.filter(|c: char| c != '_')),
        ),
{
    match token.kind {
        TokenKind::Number { text } => crate::text::lemma_without_underscores_filters(text@),
        _ => {},
    }
}

/// Transforms a Luau number literal into a TypeScript number literal.
pub fn transform_number(token: &Token) -> (r: Expr)
    ensures
        r@ == spec_number(*token),
{
    match &token.kind {
        TokenKind::Number { text } => Expr::Lit(Lit::Num(remove_underscores(text.as_str()))),
        _ => *skip("transform_number token was not TokenType::Number", token.source.as_str()),
    }
}

/// The value of the digit `c` in a radix up to 36: `0` to `9`, then `a` to
/// `z` or `A` to `Z` for 10 to 35; 36 for any other character.
pub open spec fn digit_value(c: char) -> int {
    if '0' <= c <= '9' {
        c as int - '0' as int
    } else if 'a' <= c <= 'z' {
        c as int - 'a' as int + 10
    } else if 'A' <= c <= 'Z' {
        c as int - 'A' as int + 10
    } else {
        36
    }
}

/// The value of the digits `s` in the radix `radix`.
pub open spec fn digits_value(s: Seq<char>, radix: int) -> int
    decreases s.len(),
{
    if s.len() == 0 {
        0
    } else {
        digits_value(s.drop_last(), radix) * radix + digit_value(s.last())
    }
}

/// Whether every character of `s` is a digit of the radix `radix`.
pub open spec fn all_digits(s: Seq<char>, radix: int) -> bool {
    forall|i: int| 0 <= i < s.len() ==> digit_value(#[trigger] s[i]) < radix
}

/// What `i32::from_str_radix` reads from `s`: an optional `+` or `-`, then
/// one or more digits of the radix, whose value, with its sign, fits an
/// `i32`; `None` for anything else.
pub open spec fn i32_in_radix(s: Seq<char>, radix: int) -> Option<int> {
    let negative = s.len() > 0 && s[0] == '-';
    let digits = if s.len() > 0 && (s[0] == '-' || s[0] == '+') {
        s.drop_first()
    } else {
        s
    };
    let value = if negative {
        -digits_value(digits, radix)
    } else {
        digits_value(digits, radix)
    };
    if digits.len() > 0 && all_digits(digits, radix) && i32::MIN <= value <= i32::MAX {
        Some(value)
    } else {
        None
    }
}

proof fn lemma_digits_value_grows(s: Seq<char>, radix: int, k: int)
    requires
        2 <= radix,
        all_digits(s, radix),
        0 <= k <= s.len(),
    ensures
        0 <= digits_value(s.take(k), radix) <= digits_value(s, radix),
    decreases s.len(),
{
    if s.len() > 0 {
        let t = s.drop_last();
        assert forall|i: int| 0 <= i < t.len() implies digit_value(#[trigger] t[i]) < radix by {
            assert(t[i] == s[i]);
        }
        assert(digit_value(s[s.len() - 1]) < radix);
        if k == s.len() {
            assert(s.take(k) =~= s);
            lemma_digits_value_grows(t, radix, t.len() as int);
            assert(t.take(t.len() as int) =~= t);
        } else {
            assert(s.take(k) =~= t.take(k));
            lemma_digits_value_grows(t, radix, k);
        }
        let v = digits_value(t, radix);
        assert(v >= 0);
        assert(v * radix >= v) by (nonlinear_arith)
            requires
                v >= 0,
                radix >= 2,
        ;
    } else {
        assert(s.take(k) =~= s);
    }
}

/// The digit that `c` stands for in the radix `radix`, if it is one.
fn digit(c: char, radix: u32) -> (r: Option<u32>)
    requires
        2 <= radix <= 36,
    ensures
        r is Some <==> digit_value(c) < radix,
        r matches Some(d) ==> d == digit_value(c),
{
    let d: u32 = if '0' <= c && c <= '9' {
        (c as u32) - ('0' as u32)
    } else if 'a' <= c && c <= 'z' {
        (c as u32) - ('a' as u32) + 10
    } else if 'A' <= c && c <= 'Z' {
        (c as u32) - ('A' as u32) + 10
    } else {
        36
    };
    if d < radix {
        Some(d)
    } else {
        None
    }
}

/// Reads an `i32` from `s` in the radix `radix`, as `i32::from_str_radix`
/// does.
pub fn parse_i32_radix(s: &str, radix: u32) -> (r: Option<i32>)
    requires
        2 <= radix <= 36,
    ensures
        match r {
            Some(v) => i32_in_radix(s@, radix as int) == Some(v as int),
            None => i32_in_radix(s@, radix as int) is None,
        },
{
    let n = s.unicode_len();
    let mut start: usize = 0;
    let mut negative = false;
    if n > 0 {
        let c = s.get_char(0);
        if c == '-' {
            negative = true;
            start = 1;
        } else if c == '+' {
            start = 1;
        }
    }
    let ghost digits = s@.subrange(start as int, n as int);
    assert(digits =~= if s@.len() > 0 && (s@[0] == '-' || s@[0] == '+') {
        s@.drop_first()
    } else {
        s@
    });
    if start == n {
        return None;
    }
    let mut acc: i64 = 0;
    let mut i: usize = start;
    while i < n
        invariant
            start <= i <= n,
            n == s@.len(),
            digits == s@.subrange(start as int, n as int),
            digits == (if s@.len() > 0 && (s@[0] == '-' || s@[0] == '+') {
                s@.drop_first()
            } else {
                s@
            }),
            negative == (s@.len() > 0 && s@[0] == '-'),
            2 <= radix <= 36,
            acc == digits_value(digits.take(i - start), radix as int),
            0 <= acc <= 0x8000_0000,
            all_digits(digits.take(i - start), radix as int),
        decreases n - i,
    {
        let c = s.get_char(i);
        let ghost before = digits.take(i - start);
        assert(digits.take(i + 1 - start).drop_last() =~= before);
        assert(digits[i - start] == c);
        match digit(c, radix) {
            None => {
                assert(!all_digits(digits, radix as int)) by {
                    assert(digit_value(digits[i - start]) >= radix);
                }
                assert(i32_in_radix(s@, radix as int) is None);
                return None;
            },
            Some(d) => {
                assert(acc * radix <= 0x8000_0000 * 36) by (nonlinear_arith)
                    requires
                        0 <= acc <= 0x8000_0000,
                        radix <= 36,
                ;
                acc = acc * (radix as i64) + (d as i64);
                assert forall|k: int| 0 <= k < i + 1 - start implies digit_value(
                    #[trigger] digits.take(i + 1 - start)[k],
                ) < radix by {
                    if k < i - start {
                        assert(digits.take(i + 1 - start)[k] == before[k]);
                    }
                }
                if acc > 0x8000_0000 {
                    proof {
                        if all_digits(digits, radix as int) {
                            lemma_digits_value_grows(digits, radix as int, i + 1 - start);
                            assert(digits_value(digits, radix as int) > 0x8000_0000);
                        }
                        assert(i32_in_radix(s@, radix as int) is None);
                    }
                    return None;
                }
            },
        }
        i = i + 1;
    }
    assert(digits.take(n - start) =~= digits);
    if negative {
        Some((0 - acc) as i32)
    } else if acc <= 0x7fff_ffff {
        Some(acc as i32)
    } else {
        None
    }
}

/// The value of a hexadecimal (`0x`) or binary (`0b`) literal, from the
/// digits after its two-character prefix, as an `i32`.
pub open spec fn radix_literal_value(text: Seq<char>) -> Option<int> {
    if text[1] == 'b' || text[1] == 'B' {
        i32_in_radix(text.skip(2), 2)
    } else {
        i32_in_radix(text.skip(2), 16)
    }
}

/// Reads a hexadecimal (`0x`) or binary (`0b`) number literal, the kinds
/// whose text is not a decimal number; `None` where its digits do not make
/// an `i32`.
pub fn radix_literal(text: &str) -> (r: Option<i32>)
    requires
        text@.len() >= 2,
    ensures
        match r {
            Some(v) => radix_literal_value(text@) == Some(v as int),
            None => radix_literal_value(text@) is None,
        },
{
    let n = text.unicode_len();
    let digits = text.substring_char(2, n);
    assert(digits@ =~= text@.skip(2));
    let second = text.get_char(1);
    if second == 'b' || second == 'B' {
        parse_i32_radix(digits, 2)
    } else {
        parse_i32_radix(digits, 16)
    }
}

} // verus!
