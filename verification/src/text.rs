//! Text helpers: comparison, path joining, and the decimal notation of
//! integers that some fields of the wire format use.

use vstd::prelude::*;
use vstd::string::StringExecFns;

verus! {

/// Whether two pieces of text hold the same characters.
pub fn same(a: &str, b: &str) -> (r: bool)
    ensures
        r == (a@ == b@),
{
    let left = a.to_owned();
    let right = b.to_owned();
    left == right
}

/// `base`, a slash, and `path`.
pub open spec fn joined(base: Seq<char>, path: Seq<char>) -> Seq<char> {
    base + seq!['/'] + path
}

/// Joins a base address and a path with a single slash.
pub fn join(base: &str, path: &str) -> (r: String)
    ensures
        r@ == joined(base@, path@),
{
    proof {
        reveal_strlit("/");
    }
    let mut out = base.to_owned();
    out.append("/");
    assert("/"@ =~= seq!['/']);
    out.append(path);
    out
}

/// The character that writes the digit `d`.
pub open spec fn digit_char(d: int) -> char {
    if d == 0 {
        '0'
    } else if d == 1 {
        '1'
    } else if d == 2 {
        '2'
    } else if d == 3 {
        '3'
    } else if d == 4 {
        '4'
    } else if d == 5 {
        '5'
    } else if d == 6 {
        '6'
    } else if d == 7 {
        '7'
    } else if d == 8 {
        '8'
    } else {
        '9'
    }
}

/// The digit that `c` writes, if it writes one.
pub open spec fn digit_value(c: char) -> Option<int> {
    if c == '0' {
        Some(0)
    } else if c == '1' {
        Some(1)
    } else if c == '2' {
        Some(2)
    } else if c == '3' {
        Some(3)
    } else if c == '4' {
        Some(4)
    } else if c == '5' {
        Some(5)
    } else if c == '6' {
        Some(6)
    } else if c == '7' {
        Some(7)
    } else if c == '8' {
        Some(8)
    } else if c == '9' {
        Some(9)
    } else {
        None
    }
}

/// The decimal digits of `n`, most significant first, without leading zeros.
pub open spec fn decimal(n: nat) -> Seq<char>
    decreases n,
{
    if n < 10 {
        seq![digit_char(n as int)]
    } else {
        decimal(n / 10).push(digit_char((n % 10) as int))
    }
}

/// The decimal notation of `i`: a minus sign for a negative number, then
/// its digits.
pub open spec fn int_text(i: int) -> Seq<char> {
    if i < 0 {
        seq!['-'] + decimal((-i) as nat)
    } else {
        decimal(i as nat)
    }
}

/// The number that a run of digits writes; `None` if a character is no
/// digit. The empty run writes zero.
pub open spec fn digits_value(s: Seq<char>) -> Option<nat>
    decreases s.len(),
{
    if s.len() == 0 {
        Some(0)
    } else {
        match (digits_value(s.drop_last()), digit_value(s.last())) {
            (Some(v), Some(d)) => Some((v * 10 + d) as nat),
            _ => None,
        }
    }
}

/// The integer that `s` writes in decimal: an optional sign, then at least
/// one digit, and nothing else.
pub open spec fn text_int(s: Seq<char>) -> Option<int> {
    if s.len() == 0 {
        None
    } else if s[0] == '-' || s[0] == '+' {
        if s.len() == 1 {
            None
        } else {
            match digits_value(s.skip(1)) {
                Some(v) => Some(
                    if s[0] == '-' {
                        -(v as int)
                    } else {
                        v as int
                    },
                ),
                None => None,
            }
        }
    } else {
        match digits_value(s) {
            Some(v) => Some(v as int),
            None => None,
        }
    }
}

/// The 64-bit integer that `s` writes, if it writes one that fits.
pub open spec fn text_i64(s: Seq<char>) -> Option<i64> {
    match text_int(s) {
        Some(v) => if i64::MIN <= v <= i64::MAX {
            Some(v as i64)
        } else {
            None
        },
        None => None,
    }
}

/// Reading a digit back gives the digit.
pub proof fn lemma_digit_round_trip(d: int)
    requires
        0 <= d <= 9,
    ensures
        digit_value(digit_char(d)) == Some(d),
{
}

/// The digits of a number are never empty, and they write that number.
pub proof fn lemma_decimal_round_trip(n: nat)
    ensures
        decimal(n).len() >= 1,
        digit_value(decimal(n)[0]) is Some,
        digits_value(decimal(n)) == Some(n),
    decreases n,
{
    if n < 10 {
        let s = decimal(n);
        assert(s.drop_last() =~= Seq::<char>::empty());
        lemma_digit_round_trip(n as int);
        assert(digits_value(s.drop_last()) == Some(0nat));
    } else {
        let head = decimal(n / 10);
        let d = (n % 10) as int;
        lemma_decimal_round_trip(n / 10);
        lemma_digit_round_trip(d);
        let s = head.push(digit_char(d));
        assert(s.drop_last() =~= head);
        assert(s.last() == digit_char(d));
        assert(s[0] == head[0]);
    }
}

/// Reading the decimal notation of an integer gives the integer back.
pub proof fn lemma_int_text_round_trip(i: int)
    ensures
        text_int(int_text(i)) == Some(i),
{
    if i < 0 {
        let digits = decimal((-i) as nat);
        lemma_decimal_round_trip((-i) as nat);
        let s = int_text(i);
        assert(s.skip(1) =~= digits);
        assert(s[0] == '-');
    } else {
        lemma_decimal_round_trip(i as nat);
    }
}

/// Reading the decimal notation of a 64-bit integer gives it back.
pub proof fn lemma_i64_text_round_trip(i: i64)
    ensures
        text_i64(int_text(i as int)) == Some(i),
{
    lemma_int_text_round_trip(i as int);
}

/// A run with a character that is no digit writes nothing.
proof fn lemma_digits_stop(s: Seq<char>, k: int)
    requires
        0 <= k < s.len(),
        digit_value(s[k]) is None,
    ensures
        digits_value(s) is None,
    decreases s.len(),
{
    if k == s.len() - 1 {
    } else {
        lemma_digits_stop(s.drop_last(), k);
    }
}

fn digit_text(d: u64) -> (r: &'static str)
    requires
        d <= 9,
    ensures
        r@ == seq![digit_char(d as int)],
{
    proof {
        reveal_strlit("0");
        reveal_strlit("1");
        reveal_strlit("2");
        reveal_strlit("3");
        reveal_strlit("4");
        reveal_strlit("5");
        reveal_strlit("6");
        reveal_strlit("7");
        reveal_strlit("8");
        reveal_strlit("9");
    }
    let r = if d == 0 {
        "0"
    } else if d == 1 {
        "1"
    } else if d == 2 {
        "2"
    } else if d == 3 {
        "3"
    } else if d == 4 {
        "4"
    } else if d == 5 {
        "5"
    } else if d == 6 {
        "6"
    } else if d == 7 {
        "7"
    } else if d == 8 {
        "8"
    } else {
        "9"
    };
    assert(r@ =~= seq![digit_char(d as int)]);
    r
}

fn push_decimal(out: &mut String, n: u64)
    ensures
        final(out)@ == old(out)@ + decimal(n as nat),
    decreases n,
{
    if n >= 10 {
        push_decimal(out, n / 10);
    }
    let d: u64 = n % 10;
    out.append(digit_text(d));
    assert(final(out)@ =~= old(out)@ + decimal(n as nat)) by {
        if n >= 10 {
            assert(decimal(n as nat) == decimal((n / 10) as nat).push(digit_char(d as int)));
        }
    }
}

/// Writes an integer in decimal notation.
pub fn int_to_text(i: i64) -> (r: String)
    ensures
        r@ == int_text(i as int),
{
    let mut out = String::new();
    if i < 0 {
        proof {
            reveal_strlit("-");
        }
        out.append("-");
        assert(out@ =~= seq!['-']);
        let magnitude: u64 = ((-(i + 1)) as u64) + 1;
        push_decimal(&mut out, magnitude);
    } else {
        push_decimal(&mut out, i as u64);
        assert(out@ =~= decimal(i as nat));
    }
    out
}

fn digit_of(c: char) -> (r: Option<u64>)
    ensures
        match r {
            Some(d) => digit_value(c) == Some(d as int) && d <= 9,
            None => digit_value(c) is None,
        },
{
    if c == '0' {
        Some(0)
    } else if c == '1' {
        Some(1)
    } else if c == '2' {
        Some(2)
    } else if c == '3' {
        Some(3)
    } else if c == '4' {
        Some(4)
    } else if c == '5' {
        Some(5)
    } else if c == '6' {
        Some(6)
    } else if c == '7' {
        Some(7)
    } else if c == '8' {
        Some(8)
    } else if c == '9' {
        Some(9)
    } else {
        None
    }
}

/// The magnitude of the smallest 64-bit integer.
pub const MAGNITUDE_LIMIT: u64 = 0x8000_0000_0000_0000;

/// Reads an integer in decimal notation: an optional sign and at least one
/// digit. Text that holds anything else, or a number outside the 64-bit
/// range, gives `None`.
pub fn text_to_int(s: &str) -> (r: Option<i64>)
    ensures
        r == text_i64(s@),
{
    let n: usize = s.unicode_len();
    if n == 0 {
        return None;
    }
    let first = s.get_char(0);
    let negative = first == '-';
    let start: usize = if first == '-' || first == '+' {
        1
    } else {
        0
    };
    if start == n {
        return None;
    }
    let ghost body = s@.skip(start as int);
    let mut acc: u64 = 0;
    let mut over = false;
    let mut i: usize = start;
    while i < n
        invariant
            start <= i <= n,
            start < n,
            n == s@.len(),
            negative == (s@[0] == '-'),
            start == (if s@[0] == '-' || s@[0] == '+' {
                1int
            } else {
                0int
            }),
            body == s@.skip(start as int),
            digits_value(body.take(i - start)) is Some,
            !over ==> digits_value(body.take(i - start)) == Some(acc as nat) && acc
                <= MAGNITUDE_LIMIT,
            over ==> digits_value(body.take(i - start))->0 > MAGNITUDE_LIMIT,
        decreases n - i,
    {
        let c = s.get_char(i);
        let ghost before = body.take(i - start);
        let ghost after = body.take(i + 1 - start);
        assert(after.drop_last() =~= before);
        assert(after.last() == s@[i as int]);
        match digit_of(c) {
            None => {
                proof {
                    assert(body[i - start] == s@[i as int]);
                    lemma_digits_stop(body, i - start);
                    assert(start == 0 ==> body =~= s@);
                }
                return None;
            },
            Some(d) => {
                if over {
                } else if acc > (MAGNITUDE_LIMIT - d) / 10 {
                    over = true;
                } else {
                    acc = acc * 10 + d;
                }
            },
        }
        i = i + 1;
    }
    assert(body.take(n - start) =~= body);
    assert(start == 0 ==> body =~= s@);
    if over {
        return None;
    }
    if negative {
        if acc == MAGNITUDE_LIMIT {
            Some(i64::MIN)
        } else {
            Some(-(acc as i64))
        }
    } else if acc == MAGNITUDE_LIMIT {
        None
    } else {
        Some(acc as i64)
    }
}

} // verus!
