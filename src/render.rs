use vstd::prelude::*;

verus! {

/// What `str::escape_default` yields for a text: each character replaced by
/// its `char::escape_default`, a fixed mapping of the character alone.
pub uninterp spec fn escaped_default(s: Seq<char>) -> Seq<char>;

/// The source text of a string literal whose value is the given text: the
/// text escaped, between double quotes.
pub open spec fn string_literal_text(s: Seq<char>) -> Seq<char> {
    "\""@ + escaped_default(s) + "\""@
}

pub open spec fn digit_char(d: nat) -> char {
    seq!['0', '1', '2', '3', '4', '5', '6', '7', '8', '9'][d as int]
}

/// The decimal digits of a number, without leading zeros.
pub open spec fn decimal_text(n: nat) -> Seq<char>
    decreases n,
{
    if n < 10 {
        seq![digit_char(n)]
    } else {
        decimal_text(n / 10) + seq![digit_char(n % 10)]
    }
}

/// The source text of an `i128` literal carrying its type suffix: its sign,
/// its decimal digits, then `i128`.
pub open spec fn i128_literal_text(n: i128) -> Seq<char> {
    if n < 0 {
        "-"@ + decimal_text((-n) as nat) + "i128"@
    } else {
        decimal_text(n as nat) + "i128"@
    }
}

/// The source text of a `usize` literal carrying its type suffix.
pub open spec fn usize_literal_text(n: usize) -> Seq<char> {
    decimal_text(n as nat) + "usize"@
}

/// What `str::parse::<i128>` accepts: an optional sign, then one or more
/// ASCII digits; its value, if it fits.
pub open spec fn parsed_i128(s: Seq<char>) -> Option<i128> {
    match signed_decimal(s) {
        Some(v) => if i128::MIN <= v <= i128::MAX {
            Some(v as i128)
        } else {
            None
        },
        None => None,
    }
}

pub open spec fn is_digit(c: char) -> bool {
    '0' <= c <= '9'
}

/// The value of a sequence of decimal digits.
pub open spec fn digits_value(d: Seq<char>) -> int
    decreases d.len(),
{
    if d.len() == 0 {
        0
    } else {
        digits_value(d.drop_last()) * 10 + (d.last() as int - '0' as int)
    }
}

/// The text after an optional leading sign.
pub open spec fn numeral_digits(s: Seq<char>) -> Seq<char> {
    if s.len() > 0 && (s[0] == '-' || s[0] == '+') {
        s.skip(1)
    } else {
        s
    }
}

/// One or more decimal digits.
pub open spec fn all_digits(d: Seq<char>) -> bool {
    d.len() > 0 && forall|i: int| 0 <= i < d.len() ==> is_digit(#[trigger] d[i])
}

/// The value of an optionally signed decimal numeral, if the text is one.
pub open spec fn signed_decimal(s: Seq<char>) -> Option<int> {
    if all_digits(numeral_digits(s)) {
        Some(
            if s[0] == '-' {
                -digits_value(numeral_digits(s))
            } else {
                digits_value(numeral_digits(s))
            },
        )
    } else {
        None
    }
}

/// Relies on `str::escape_default`: every character escaped by
/// `char::escape_default`, which depends on the character alone.
#[verifier::external_body]
fn escape_default(s: &str) -> (r: String)
    ensures
        r@ == escaped_default(s@),
{
    s.escape_default().to_string()
}

/// The string literal that denotes the text.
pub fn string_literal(s: &str) -> (r: String)
    ensures
        r@ == string_literal_text(s@),
{
    let mut r = String::from_str("\"");
    r.append(escape_default(s).as_str());
    r.append("\"");
    r
}

/// Relies on `proc_macro2::Literal::i128_suffixed`: an integer literal like
/// `1i128`, the value followed by its suffix, rendered by its `to_string`.
#[verifier::external_body]
pub fn i128_literal(n: i128) -> (r: String)
    ensures
        r@ == i128_literal_text(n),
{
    proc_macro2::Literal::i128_suffixed(n).to_string()
}

/// Relies on `proc_macro2::Literal::usize_suffixed`: an integer literal like
/// `1usize`, the value followed by its suffix, rendered by its `to_string`.
#[verifier::external_body]
pub fn usize_literal(n: usize) -> (r: String)
    ensures
        r@ == usize_literal_text(n),
{
    proc_macro2::Literal::usize_suffixed(n).to_string()
}

proof fn lemma_digits_value_prefix(d: Seq<char>, k: int)
    requires
        0 <= k <= d.len(),
        forall|i: int| 0 <= i < d.len() ==> is_digit(#[trigger] d[i]),
    ensures
        digits_value(d) >= digits_value(d.take(k)),
        digits_value(d.take(k)) >= 0,
    decreases d.len(),
{
    if d.len() > 0 {
        let init = d.drop_last();
        if k < d.len() {
            assert(init.take(k) =~= d.take(k));
            lemma_digits_value_prefix(init, k);
        } else {
            assert(d.take(k) =~= d);
            lemma_digits_value_prefix(init, 0);
        }
        assert(is_digit(d[d.len() - 1]));
    } else {
        assert(d.take(k) =~= d);
    }
}

const I128_MAGNITUDE: u128 = 0x8000_0000_0000_0000_0000_0000_0000_0000;

/// Reads an optionally signed decimal numeral as `str::parse::<i128>`
/// does: `None` on any other text and on overflow.
pub fn parse_i128(s: &str) -> (r: Option<i128>)
    ensures
        r == parsed_i128(s@),
{
    let n = s.unicode_len();
    if n == 0 {
        return None;
    }
    let c0 = s.get_char(0);
    let neg = c0 == '-';
    let start: usize = if c0 == '-' || c0 == '+' {
        1
    } else {
        0
    };
    let ghost d = numeral_digits(s@);
    assert(d =~= s@.subrange(start as int, n as int));
    if start >= n {
        return None;
    }
    let limit: u128 = if neg {
        I128_MAGNITUDE
    } else {
        I128_MAGNITUDE - 1
    };
    let mut acc: u128 = 0;
    let mut i: usize = start;
    assert(d.take(0) =~= Seq::<char>::empty());
    while i < n
        invariant
            n == s@.len(),
            n > 0,
            neg == (s@[0] == '-'),
            (start == 1) == (s@[0] == '-' || s@[0] == '+'),
            start == 0 || start == 1,
            d == numeral_digits(s@),
            start <= i <= n,
            d == s@.subrange(start as int, n as int),
            acc as int == digits_value(d.take(i - start)),
            acc <= limit,
            limit == if neg { I128_MAGNITUDE } else { (I128_MAGNITUDE - 1) as u128 },
            forall|k: int| 0 <= k < i - start ==> is_digit(#[trigger] d[k]),
        decreases n - i,
    {
        let c = s.get_char(i);
        assert(c == d[i - start]);
        if !('0' <= c && c <= '9') {
            assert(!is_digit(d[i - start]));
            return None;
        }
        let v = (c as u32 - '0' as u32) as u128;
        assert(d.take(i - start + 1).drop_last() =~= d.take(i - start));
        assert(d.take(i - start + 1).last() == c);
        assert(v as int == c as int - '0' as int);
        assert(digits_value(d.take(i - start + 1)) == acc * 10 + v);
        if acc > (limit - v) / 10 {
            proof {
                assert(acc * 10 + v > limit) by (nonlinear_arith)
                    requires acc > (limit - v) / 10, v <= 9, limit >= 9;
                if all_digits(d) {
                    lemma_digits_value_prefix(d, i - start + 1);
                }
            }
            return None;
        }
        proof {
            assert(acc * 10 + v <= limit) by (nonlinear_arith)
                requires acc <= (limit - v) / 10, v <= 9, limit >= 9;
        }
        acc = acc * 10 + v;
        i = i + 1;
    }
    assert(d.take(n - start) =~= d);
    if neg {
        if acc == I128_MAGNITUDE {
            Some(i128::MIN)
        } else {
            Some(-(acc as i128))
        }
    } else {
        Some(acc as i128)
    }
}

} // verus!
