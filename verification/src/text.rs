//! Text helpers shared by the stores: case folding, comparison and decimal
//! rendering.

use vstd::prelude::*;
use vstd::string::StringExecFns;

verus! {

/// The ASCII lower-case form of a character: `'A'..='Z'` move to
/// `'a'..='z'`, every other character stays as it is.
pub open spec fn lower_char(c: char) -> char {
    if 'A' <= c && c <= 'Z' {
        ((c as u8) + 32u8) as char
    } else {
        c
    }
}

/// The text with each character replaced by its ASCII lower-case form.
pub open spec fn ascii_lower(s: Seq<char>) -> Seq<char> {
    s.map_values(|c: char| lower_char(c))
}

/// `str::to_ascii_lowercase`. The standard library documents that the copy
/// maps the ASCII letters `'A'..='Z'` to `'a'..='z'` and leaves every other
/// character unchanged; the contract says exactly that.
#[verifier::external_body]
pub(crate) fn to_ascii_lowercase(s: &str) -> (r: String)
    ensures
        r@ == ascii_lower(s@),
{
    s.to_ascii_lowercase()
}

/// Whether two string slices hold the same characters.
pub(crate) fn str_eq(a: &str, b: &str) -> (r: bool)
    ensures
        r == (a@ == b@),
{
    a.to_owned() == b.to_owned()
}

/// The character that writes the decimal digit `d`.
pub open spec fn digit_char(d: nat) -> char {
    if d == 0 {
        '0'
    } else if d == 1 {
        '1'
    } else if d == 2 {
        '2'
    } else if d == 3 {
        '3'
    } else if d == 4 {
        '4'
    } else if d == 5 {
        '5'
    } else if d == 6 {
        '6'
    } else if d == 7 {
        '7'
    } else if d == 8 {
        '8'
    } else {
        '9'
    }
}

/// The decimal numeral of `n`, without leading zeros.
pub open spec fn decimal_text(n: nat) -> Seq<char>
    decreases n,
{
    if n < 10 {
        seq![digit_char(n)]
    } else {
        decimal_text(n / 10).push(digit_char(n % 10))
    }
}

/// The last `width` decimal digits of `n`, with leading zeros where `n` is
/// short.
pub open spec fn fixed_width_text(n: nat, width: nat) -> Seq<char>
    decreases width,
{
    if width == 0 {
        Seq::empty()
    } else {
        fixed_width_text(n / 10, (width - 1) as nat).push(digit_char(n % 10))
    }
}

fn digit_str(d: u64) -> (r: &'static str)
    requires
        d < 10,
    ensures
        r@ == seq![digit_char(d as nat)],
{
    proof {
        reveal_strlit("0");
        reveal_strlit("1");
        reveal_strlit("2");
        reveal_strlit("3");
        reveal_strlit("4");
        reveal_strlit("5");
        reveal_strlit("6");
        reveal_strlit("7");
        reveal_strlit("8");
        reveal_strlit("9");
    }
    let r = if d == 0 {
        "0"
    } else if d == 1 {
        "1"
    } else if d == 2 {
        "2"
    } else if d == 3 {
        "3"
    } else if d == 4 {
        "4"
    } else if d == 5 {
        "5"
    } else if d == 6 {
        "6"
    } else if d == 7 {
        "7"
    } else if d == 8 {
        "8"
    } else {
        "9"
    };
    assert(r@ =~= seq![digit_char(d as nat)]);
    r
}

/// Writes `n` as a decimal numeral.
pub(crate) fn decimal(n: u64) -> (r: String)
    ensures
        r@ == decimal_text(n as nat),
    decreases n,
{
    if n < 10 {
        String::from_str(digit_str(n))
    } else {
        let mut r = decimal(n / 10);
        r.append(digit_str(n % 10));
        assert(r@ =~= decimal_text(n as nat));
        r
    }
}

/// Writes the last `width` decimal digits of `n`, padding with zeros on the
/// left.
pub(crate) fn fixed_width(n: u64, width: u32) -> (r: String)
    ensures
        r@ == fixed_width_text(n as nat, width as nat),
        r@.len() == width,
    decreases width,
{
    if width == 0 {
        String::new()
    } else {
        let mut r = fixed_width(n / 10, width - 1);
        r.append(digit_str(n % 10));
        assert(r@ =~= fixed_width_text(n as nat, width as nat));
        r
    }
}

/// Ten to the power of `width`.
pub open spec fn power_of_ten(width: nat) -> nat
    decreases width,
{
    if width == 0 {
        1
    } else {
        10 * power_of_ten((width - 1) as nat)
    }
}

/// A numeral has one digit exactly when its number is below ten.
pub proof fn lemma_decimal_text_len(n: nat)
    ensures
        decimal_text(n).len() >= 1,
        n >= 10 ==> decimal_text(n).len() >= 2,
    decreases n,
{
    if n >= 10 {
        lemma_decimal_text_len(n / 10);
    }
}

/// Different numbers have different numerals.
pub proof fn lemma_decimal_text_is_injective(a: nat, b: nat)
    requires
        decimal_text(a) == decimal_text(b),
    ensures
        a == b,
    decreases a,
{
    lemma_decimal_text_len(a);
    lemma_decimal_text_len(b);
    if a < 10 {
        assert(decimal_text(a).len() == 1);
        assert(b < 10);
        assert(decimal_text(a)[0] == digit_char(a));
        assert(decimal_text(b)[0] == digit_char(b));
    } else {
        assert(b >= 10) by {
            if b < 10 {
                assert(decimal_text(b).len() == 1);
            }
        }
        let front_a = decimal_text(a / 10);
        let front_b = decimal_text(b / 10);
        assert(front_a.push(digit_char(a % 10)).drop_last() =~= front_a);
        assert(front_b.push(digit_char(b % 10)).drop_last() =~= front_b);
        assert(front_a.push(digit_char(a % 10)).last() == digit_char(a % 10));
        assert(front_b.push(digit_char(b % 10)).last() == digit_char(b % 10));
        lemma_decimal_text_is_injective(a / 10, b / 10);
    }
}

/// Numbers that fit the width and differ have different digits.
pub proof fn lemma_fixed_width_text_is_injective(a: nat, b: nat, width: nat)
    requires
        a < power_of_ten(width),
        b < power_of_ten(width),
        fixed_width_text(a, width) == fixed_width_text(b, width),
    ensures
        a == b,
    decreases width,
{
    if width > 0 {
        let narrower = (width - 1) as nat;
        let front_a = fixed_width_text(a / 10, narrower);
        let front_b = fixed_width_text(b / 10, narrower);
        assert(front_a.push(digit_char(a % 10)).drop_last() =~= front_a);
        assert(front_b.push(digit_char(b % 10)).drop_last() =~= front_b);
        assert(front_a.push(digit_char(a % 10)).last() == digit_char(a % 10));
        assert(front_b.push(digit_char(b % 10)).last() == digit_char(b % 10));
        lemma_fixed_width_text_is_injective(a / 10, b / 10, narrower);
    }
}

/// The digits of a fixed width are as many as the width.
pub proof fn lemma_fixed_width_text_len(n: nat, width: nat)
    ensures
        fixed_width_text(n, width).len() == width,
    decreases width,
{
    if width > 0 {
        lemma_fixed_width_text_len(n / 10, (width - 1) as nat);
    }
}

} // verus!
