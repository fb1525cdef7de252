//! Progress of an array's synchronisation, read as a fraction and written as
//! a percentage.

use crate::text::{
    all_digits, decimal, digit_char, digit_value, is_digit, lemma_decimal_reads_back, number,
    parse_u64, push_decimal, split_at_first, split_once, trim, trimmed,
};
use vstd::prelude::*;

verus! {

/// The two numbers of a text of the form `count/total`, white space around
/// either allowed. Each is a decimal number that fits in 64 bits.
pub open spec fn fraction(s: Seq<char>) -> Option<(nat, nat)> {
    match split_once(s, '/') {
        Some((head, tail)) => match (number(trimmed(head)), number(trimmed(tail))) {
            (Some(count), Some(total)) => if count <= u64::MAX && total <= u64::MAX {
                Some((count, total))
            } else {
                None
            },
            _ => None,
        },
        None => None,
    }
}

/// `100 * count / total` in hundredths, rounded to the nearest one and to the
/// even one of two that are equally near.
pub open spec fn hundredths(count: nat, total: nat) -> nat
    recommends
        total > 0,
{
    let whole = 10000 * count / total;
    let rest = 10000 * count % total;
    if 2 * rest > total || (2 * rest == total && whole % 2 == 1) {
        whole + 1
    } else {
        whole
    }
}

/// `h` hundredths with a decimal point and two decimals.
pub open spec fn fixed_point(h: nat) -> Seq<char> {
    decimal(h / 100) + seq!['.', digit_char(h / 10 % 10), digit_char(h % 10)]
}

/// The percentage that `count` of `total` makes. Of a `total` of zero no part
/// is a number: `inf%`, and `NaN%` for zero of zero.
pub open spec fn percent_text(count: nat, total: nat) -> Seq<char> {
    if total > 0 {
        fixed_point(hundredths(count, total)).push('%')
    } else if count > 0 {
        seq!['i', 'n', 'f', '%']
    } else {
        seq!['N', 'a', 'N', '%']
    }
}

/// The percentage written for a fraction lies no more than half a hundredth
/// from `100 * count / total`.
pub proof fn lemma_hundredths_nearest(count: nat, total: nat)
    requires
        total > 0,
    ensures
        2 * (hundredths(count, total) * total - 10000 * count) <= total,
        2 * (10000 * count - hundredths(count, total) * total) <= total,
{
    let n = 10000 * count;
    let whole = n / total;
    let rest = n % total;
    vstd::arithmetic::div_mod::lemma_fundamental_div_mod(n as int, total as int);
    vstd::arithmetic::div_mod::lemma_mod_bound(n as int, total as int);
    assert(n == total * whole + rest);
    assert(total * whole == whole * total) by (nonlinear_arith);
    assert((whole + 1) * total == whole * total + total) by (nonlinear_arith);
}

/// A percentage is written as digits, a point, two digits and `%`.
pub proof fn lemma_percent_shape(count: nat, total: nat)
    requires
        total > 0,
    ensures
        ({
            let text = percent_text(count, total);
            let n = text.len() as int;
            &&& n >= 5
            &&& all_digits(text.take(n - 4))
            &&& text[n - 4] == '.'
            &&& is_digit(text[n - 3])
            &&& is_digit(text[n - 2])
            &&& text[n - 1] == '%'
            &&& number(text.take(n - 4)) == Some(hundredths(count, total) / 100)
            &&& digit_value(text[n - 3]) * 10 + digit_value(text[n - 2]) == hundredths(count, total)
                % 100
        }),
{
    let h = hundredths(count, total);
    let text = percent_text(count, total);
    let n = text.len() as int;
    lemma_decimal_reads_back(h / 100);
    assert(text.take(n - 4) =~= decimal(h / 100));
    assert(decimal(h / 100)[0] != '+');
}

/// Convert a fraction of the form `count/total` into a percentage with two
/// decimals. A text of any other form has no percentage.
pub fn convert_percent(data: &str) -> (text: Option<String>)
    ensures
        match fraction(data@) {
            Some((count, total)) => text is Some && text->0@ == percent_text(count, total),
            None => text is None,
        },
{
    match split_at_first(data, '/') {
        None => None,
        Some((head, tail)) => match parse_u64(trim(head)) {
            None => None,
            Some(count) => match parse_u64(trim(tail)) {
                None => None,
                Some(total) => Some(percent(count, total)),
            },
        },
    }
}

/// The percentage that `count` of `total` makes, with two decimals.
pub fn percent(count: u64, total: u64) -> (text: String)
    ensures
        text@ == percent_text(count as nat, total as nat),
{
    if total == 0 {
        let word = if count > 0 {
            "inf%"
        } else {
            "NaN%"
        };
        proof {
            reveal_strlit("inf%");
            reveal_strlit("NaN%");
            assert(word@ =~= percent_text(count as nat, total as nat));
        }
        return word.to_owned();
    }
    let scaled: u128 = 10000 * (count as u128);
    let whole: u128 = scaled / (total as u128);
    let rest: u128 = scaled % (total as u128);
    let h: u128 = if 2 * rest > total as u128 || (2 * rest == total as u128 && whole % 2 == 1) {
        whole + 1
    } else {
        whole
    };
    assert(h == hundredths(count as nat, total as nat));
    let mut out = String::new();
    push_decimal(&mut out, h / 100);
    out.push('.');
    out.push(((h / 10 % 10) as u8 + 48) as char);
    out.push(((h % 10) as u8 + 48) as char);
    out.push('%');
    assert(out@ =~= percent_text(count as nat, total as nat));
    out
}

} // verus!
