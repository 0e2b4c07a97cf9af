//! Base-10 integers as text: what a numeric string denotes, how an integer is
//! written, and executable conversions in both directions.

use vstd::prelude::*;
use vstd::string::*;

verus! {

/// `c` is one of the ASCII digits `0` to `9`.
pub open spec fn is_digit(c: char) -> bool {
    '0' <= c && c <= '9'
}

/// The number that the ASCII digit `c` stands for.
pub open spec fn digit_value(c: char) -> int {
    c as int - '0' as int
}

/// The ASCII digit that stands for `d`, for `0 <= d <= 9`.
pub open spec fn digit_char(d: int) -> char {
    (d + '0' as int) as char
}

/// `s` is a non-empty run of ASCII digits.
pub open spec fn is_digits(s: Seq<char>) -> bool {
    s.len() > 0 && forall|i: int| 0 <= i < s.len() ==> is_digit(#[trigger] s[i])
}

/// The number that a run of digits denotes, most significant digit first.
pub open spec fn digits_value(s: Seq<char>) -> int
    decreases s.len(),
{
    if s.len() == 0 {
        0
    } else {
        10 * digits_value(s.drop_last()) + digit_value(s.last())
    }
}

/// The integer that `s` denotes when it is an optional `+` or `-` sign
/// followed by at least one digit and nothing else.
pub open spec fn signed_value(s: Seq<char>) -> Option<int> {
    if s.len() > 0 && s[0] == '-' {
        if is_digits(s.skip(1)) {
            Some(-digits_value(s.skip(1)))
        } else {
            None
        }
    } else if s.len() > 0 && s[0] == '+' {
        if is_digits(s.skip(1)) {
            Some(digits_value(s.skip(1)))
        } else {
            None
        }
    } else if is_digits(s) {
        Some(digits_value(s))
    } else {
        None
    }
}

/// The integer that `s` denotes when it is an optional `+` sign followed by
/// at least one digit and nothing else. A `-` sign is not accepted.
pub open spec fn unsigned_value(s: Seq<char>) -> Option<int> {
    if s.len() > 0 && s[0] == '+' {
        if is_digits(s.skip(1)) {
            Some(digits_value(s.skip(1)))
        } else {
            None
        }
    } else if is_digits(s) {
        Some(digits_value(s))
    } else {
        None
    }
}

/// What `s` is as a signed 64-bit integer: its value where it denotes one
/// that fits, nothing otherwise.
pub open spec fn text_as_i64(s: Seq<char>) -> Option<i64> {
    match signed_value(s) {
        Some(v) => if i64::MIN <= v <= i64::MAX {
            Some(v as i64)
        } else {
            None
        },
        None => None,
    }
}

/// What `s` is as an unsigned 64-bit integer: its value where it denotes one
/// that fits, nothing otherwise.
pub open spec fn text_as_u64(s: Seq<char>) -> Option<u64> {
    match unsigned_value(s) {
        Some(v) => if v <= u64::MAX {
            Some(v as u64)
        } else {
            None
        },
        None => None,
    }
}

/// The digits of `n`, most significant first, without leading zeros.
pub open spec fn nat_text(n: nat) -> Seq<char>
    decreases n,
{
    if n < 10 {
        seq![digit_char(n as int)]
    } else {
        nat_text(n / 10).push(digit_char((n % 10) as int))
    }
}

/// How the integer `x` is written: its digits, after a `-` when it is negative.
pub open spec fn int_text(x: int) -> Seq<char> {
    if x < 0 {
        seq!['-'] + nat_text((-x) as nat)
    } else {
        nat_text(x as nat)
    }
}

/// A run of digits denotes a number that is not negative.
pub proof fn lemma_digits_value_nonnegative(s: Seq<char>)
    requires
        forall|i: int| 0 <= i < s.len() ==> is_digit(#[trigger] s[i]),
    ensures
        digits_value(s) >= 0,
    decreases s.len(),
{
    if s.len() > 0 {
        lemma_digits_value_nonnegative(s.drop_last());
    }
}

/// Appending one digit multiplies the value by ten and adds the digit.
pub proof fn lemma_digits_value_push(s: Seq<char>, c: char)
    ensures
        digits_value(s.push(c)) == 10 * digits_value(s) + digit_value(c),
{
    assert(s.push(c).drop_last() =~= s);
}

/// The text of a natural number is a run of digits that denotes that number.
pub proof fn lemma_nat_text_denotes(n: nat)
    ensures
        is_digits(nat_text(n)),
        digits_value(nat_text(n)) == n,
        nat_text(n)[0] != '-',
        nat_text(n)[0] != '+',
    decreases n,
{
    if n < 10 {
        let s = nat_text(n);
        assert(s.drop_last() =~= Seq::<char>::empty());
        assert(digits_value(s.drop_last()) == 0);
    } else {
        lemma_nat_text_denotes(n / 10);
        lemma_digits_value_push(nat_text(n / 10), digit_char((n % 10) as int));
    }
}

/// Writing an integer and reading the text back gives the integer.
pub proof fn lemma_int_text_round_trip(x: int)
    ensures
        signed_value(int_text(x)) == Some(x),
        x >= 0 ==> unsigned_value(int_text(x)) == Some(x),
{
    if x < 0 {
        let digits = nat_text((-x) as nat);
        lemma_nat_text_denotes((-x) as nat);
        assert(int_text(x).skip(1) =~= digits);
    } else {
        lemma_nat_text_denotes(x as nat);
    }
}

/// A 64-bit integer written as text reads back as itself.
pub proof fn lemma_i64_text_round_trip(x: i64)
    ensures
        text_as_i64(int_text(x as int)) == Some(x),
{
    lemma_int_text_round_trip(x as int);
}

/// An unsigned 64-bit integer written as text reads back as itself.
pub proof fn lemma_u64_text_round_trip(x: u64)
    ensures
        text_as_u64(int_text(x as int)) == Some(x),
{
    lemma_int_text_round_trip(x as int);
}

/// Text with a character outside ASCII denotes no integer.
proof fn lemma_not_ascii_not_number(s: Seq<char>)
    requires
        !vstd::utf8::is_ascii_chars(s),
    ensures
        signed_value(s) is None,
        unsigned_value(s) is None,
{
    let i = choose|i: int| 0 <= i < s.len() && !('\0' <= #[trigger] s[i] <= '\u{7f}');
    assert(!is_digit(s[i]));
    if i > 0 {
        assert(s.skip(1)[i - 1] == s[i]);
    }
}

/// Reads the digits of `s` from position `start` on. Gives their value where
/// there is at least one digit, nothing but digits, and the value fits.
fn read_digits(s: &str, start: usize) -> (r: Option<u64>)
    requires
        is_ascii(s),
        start <= s@.len(),
    ensures
        match r {
            Some(v) => is_digits(s@.skip(start as int)) && v == digits_value(s@.skip(start as int)),
            None => !is_digits(s@.skip(start as int)) || digits_value(s@.skip(start as int))
                > u64::MAX,
        },
{
    broadcast use is_ascii_spec_bytes;

    let bytes = s.as_bytes();
    let n = bytes.len();
    let ghost tail = s@.skip(start as int);
    if start == n {
        return None;
    }
    let mut acc: u64 = 0;
    let mut fits = true;
    let mut i: usize = start;
    while i < n
        invariant
            is_ascii(s),
            bytes@ == s.spec_bytes(),
            n == bytes@.len(),
            n == s@.len(),
            tail == s@.skip(start as int),
            start <= i <= n,
            forall|j: int| 0 <= j < i - start ==> is_digit(#[trigger] tail[j]),
            fits ==> acc == digits_value(tail.take(i - start)),
            !fits ==> digits_value(tail.take(i - start)) > u64::MAX,
        decreases n - i,
    {
        let b = bytes[i];
        let ghost c = s@[i as int];
        assert(tail[i - start] == c);
        assert(b == c as u8);
        assert('\0' <= c <= '\u{7f}');
        if b < 48 || b > 57 {
            assert(!is_digit(c));
            return None;
        }
        assert(is_digit(c));
        let d = (b - 48) as u64;
        assert(d == digit_value(c));
        proof {
            let before = tail.take(i - start);
            let after = tail.take(i - start + 1);
            assert(after =~= before.push(c));
            lemma_digits_value_push(before, c);
            lemma_digits_value_nonnegative(before);
        }
        if fits {
            match acc.checked_mul(10) {
                None => {
                    fits = false;
                },
                Some(shifted) => match shifted.checked_add(d) {
                    None => {
                        fits = false;
                    },
                    Some(next) => {
                        acc = next;
                    },
                },
            }
        }
        i += 1;
    }
    assert(tail.take(n - start) =~= tail);
    if fits {
        Some(acc)
    } else {
        None
    }
}

/// Reads `s` as a signed 64-bit integer in base 10: an optional `+` or `-`
/// sign, then digits only. Anything else, and any value that does not fit,
/// gives nothing.
pub fn parse_i64(s: &str) -> (r: Option<i64>)
    ensures
        r == text_as_i64(s@),
{
    broadcast use is_ascii_spec_bytes;

    if !s.is_ascii() {
        proof {
            lemma_not_ascii_not_number(s@);
        }
        return None;
    }
    let bytes = s.as_bytes();
    if bytes.len() == 0 {
        return None;
    }
    let sign = bytes[0];
    assert(sign == s@[0] as u8);
    assert('\0' <= s@[0] <= '\u{7f}');
    if sign == 45 {
        assert(s@[0] == '-');
        match read_digits(s, 1) {
            None => {
                proof {
                    if is_digits(s@.skip(1)) {
                        assert(digits_value(s@.skip(1)) > i64::MAX + 1);
                    }
                }
                None
            },
            Some(magnitude) => {
                if magnitude > 0x8000_0000_0000_0000 {
                    None
                } else if magnitude == 0x8000_0000_0000_0000 {
                    Some(i64::MIN)
                } else {
                    Some(-(magnitude as i64))
                }
            },
        }
    } else {
        let start: usize = if sign == 43 {
            1
        } else {
            0
        };
        assert(sign == 43 <==> s@[0] == '+');
        assert(s@[0] != '-');
        assert(s@.skip(0) =~= s@);
        match read_digits(s, start) {
            None => None,
            Some(magnitude) => {
                if magnitude > 0x7fff_ffff_ffff_ffff {
                    None
                } else {
                    Some(magnitude as i64)
                }
            },
        }
    }
}

/// Reads `s` as an unsigned 64-bit integer in base 10: an optional `+` sign,
/// then digits only. Anything else, and any value that does not fit, gives
/// nothing.
pub fn parse_u64(s: &str) -> (r: Option<u64>)
    ensures
        r == text_as_u64(s@),
{
    broadcast use is_ascii_spec_bytes;

    if !s.is_ascii() {
        proof {
            lemma_not_ascii_not_number(s@);
        }
        return None;
    }
    let bytes = s.as_bytes();
    if bytes.len() == 0 {
        return None;
    }
    let sign = bytes[0];
    assert(sign == s@[0] as u8);
    assert('\0' <= s@[0] <= '\u{7f}');
    let start: usize = if sign == 43 {
        1
    } else {
        0
    };
    assert(sign == 43 <==> s@[0] == '+');
    assert(s@.skip(0) =~= s@);
    read_digits(s, start)
}

/// The one-character text of a single digit.
fn digit_str(d: u64) -> (r: &'static str)
    requires
        d < 10,
    ensures
        r@ == seq![digit_char(d as int)],
{
    proof {
        reveal_strlit("0");
        reveal_strlit("1");
        reveal_strlit("2");
        reveal_strlit("3");
        reveal_strlit("4");
        reveal_strlit("5");
        reveal_strlit("6");
        reveal_strlit("7");
        reveal_strlit("8");
        reveal_strlit("9");
    }
    let r = if d == 0 {
        "0"
    } else if d == 1 {
        "1"
    } else if d == 2 {
        "2"
    } else if d == 3 {
        "3"
    } else if d == 4 {
        "4"
    } else if d == 5 {
        "5"
    } else if d == 6 {
        "6"
    } else if d == 7 {
        "7"
    } else if d == 8 {
        "8"
    } else {
        "9"
    };
    assert(r@ =~= seq![digit_char(d as int)]);
    r
}

/// Writes `n` in base 10, without sign or leading zeros.
pub fn u64_to_string(n: u64) -> (r: String)
    ensures
        r@ == int_text(n as int),
    decreases n,
{
    if n < 10 {
        digit_str(n).to_owned()
    } else {
        let head = u64_to_string(n / 10);
        let last = digit_str(n % 10);
        let r = head.concat(last);
        assert(r@ =~= nat_text(n as nat));
        r
    }
}

/// Writes `x` in base 10: a `-` for a negative number, then its digits
/// without leading zeros.
pub fn i64_to_string(x: i64) -> (r: String)
    ensures
        r@ == int_text(x as int),
{
    if x >= 0 {
        u64_to_string(x as u64)
    } else {
        let magnitude: u64 = if x == i64::MIN {
            0x8000_0000_0000_0000
        } else {
            (-x) as u64
        };
        let digits = u64_to_string(magnitude);
        proof {
            reveal_strlit("-");
        }
        let r = "-".to_owned().concat(digits.as_str());
        assert(r@ =~= int_text(x as int));
        r
    }
}

} // verus!
