//! Small facts about text: prefixes, and decimal numerals read and written.

use vstd::prelude::*;
use vstd::string::*;
use vstd::utf8::is_ascii_chars;

verus! {

/// `prefix` stands at the start of `text`.
pub open spec fn is_prefix(prefix: Seq<char>, text: Seq<char>) -> bool {
    prefix.len() <= text.len() && text.subrange(0, prefix.len() as int) == prefix
}

/// One of the ten ASCII digits.
pub open spec fn is_digit(c: char) -> bool {
    '0' <= c && c <= '9'
}

/// The number that a digit stands for.
pub open spec fn digit_value(c: char) -> int {
    c as int - '0' as int
}

/// Every character is an ASCII digit.
pub open spec fn all_digits(s: Seq<char>) -> bool {
    forall|i: int| 0 <= i < s.len() ==> is_digit(#[trigger] s[i])
}

/// The number that a run of digits denotes in base ten; 0 for the empty run.
pub open spec fn digits_value(s: Seq<char>) -> int
    decreases s.len(),
{
    if s.len() == 0 {
        0
    } else {
        digits_value(s.drop_last()) * 10 + digit_value(s.last())
    }
}

/// The number denoted by a numeral without sign: at least one digit, and
/// nothing but digits.
pub open spec fn unsigned_numeral(s: Seq<char>) -> Option<int> {
    if s.len() > 0 && all_digits(s) {
        Some(digits_value(s))
    } else {
        None
    }
}

/// The number denoted by a numeral that may begin with `+` or, where
/// `minus` allows it, with `-`. A sign alone denotes nothing.
pub open spec fn signed_numeral(s: Seq<char>, minus: bool) -> Option<int> {
    if s.len() > 0 && s[0] == '+' {
        unsigned_numeral(s.subrange(1, s.len() as int))
    } else if s.len() > 0 && s[0] == '-' && minus {
        match unsigned_numeral(s.subrange(1, s.len() as int)) {
            Some(v) => Some(-v),
            None => None,
        }
    } else {
        unsigned_numeral(s)
    }
}

/// What a text denotes as an `i64`: a numeral with an optional sign whose
/// value the type can hold.
pub open spec fn i64_numeral(s: Seq<char>) -> Option<i64> {
    match signed_numeral(s, true) {
        Some(v) => if i64::MIN <= v <= i64::MAX {
            Some(v as i64)
        } else {
            None
        },
        None => None,
    }
}

/// What a text denotes as a `u16`: a numeral with an optional `+` whose
/// value the type can hold.
pub open spec fn u16_numeral(s: Seq<char>) -> Option<u16> {
    match signed_numeral(s, false) {
        Some(v) => if 0 <= v <= u16::MAX {
            Some(v as u16)
        } else {
            None
        },
        None => None,
    }
}

/// What a text denotes as a truth value: the two words and nothing else.
pub open spec fn bool_word(s: Seq<char>) -> Option<bool> {
    if s == "true"@ {
        Some(true)
    } else if s == "false"@ {
        Some(false)
    } else {
        None
    }
}

/// The character that writes a number below ten.
pub open spec fn digit_char(d: int) -> char {
    if d == 0 {
        '0'
    } else if d == 1 {
        '1'
    } else if d == 2 {
        '2'
    } else if d == 3 {
        '3'
    } else if d == 4 {
        '4'
    } else if d == 5 {
        '5'
    } else if d == 6 {
        '6'
    } else if d == 7 {
        '7'
    } else if d == 8 {
        '8'
    } else {
        '9'
    }
}

/// A natural number written in base ten without leading zeros.
pub open spec fn decimal_digits(n: nat) -> Seq<char>
    decreases n,
{
    if n < 10 {
        seq![digit_char(n as int)]
    } else {
        decimal_digits(n / 10).push(digit_char((n % 10) as int))
    }
}

/// A run of digits denotes no less than any of its prefixes.
pub proof fn lemma_digits_value_prefix(s: Seq<char>, k: int)
    requires
        all_digits(s),
        0 <= k <= s.len(),
    ensures
        0 <= digits_value(s.subrange(0, k)) <= digits_value(s),
    decreases s.len(),
{
    if k == s.len() {
        assert(s.subrange(0, k) == s);
        if s.len() > 0 {
            assert(is_digit(s.last()));
            assert(all_digits(s.drop_last()));
            lemma_digits_value_prefix(s.drop_last(), k - 1);
            assert(s.drop_last().subrange(0, k - 1) == s.drop_last());
        }
    } else {
        assert(is_digit(s.last()));
        assert(all_digits(s.drop_last()));
        lemma_digits_value_prefix(s.drop_last(), k);
        assert(s.drop_last().subrange(0, k) == s.subrange(0, k));
    }
}

/// Whether `text` begins with `prefix`.
pub fn starts_with(text: &str, prefix: &str) -> (r: bool)
    ensures
        r == is_prefix(prefix@, text@),
{
    let n = prefix.unicode_len();
    let m = text.unicode_len();
    if n > m {
        return false;
    }
    let mut i: usize = 0;
    while i < n
        invariant
            n == prefix@.len(),
            m == text@.len(),
            n <= m,
            i <= n,
            text@.subrange(0, i as int) == prefix@.subrange(0, i as int),
        decreases n - i,
    {
        if text.get_char(i) != prefix.get_char(i) {
            proof {
                assert(text@.subrange(0, n as int)[i as int] == text@[i as int]);
            }
            return false;
        }
        proof {
            assert(text@.subrange(0, i + 1) == text@.subrange(0, i as int).push(text@[i as int]));
            assert(prefix@.subrange(0, i + 1) == prefix@.subrange(0, i as int).push(
                prefix@[i as int],
            ));
        }
        i = i + 1;
    }
    proof {
        assert(prefix@.subrange(0, n as int) == prefix@);
    }
    true
}

/// Whether two texts hold the same characters.
pub fn same_text(a: &str, b: &str) -> (r: bool)
    ensures
        r == (a@ == b@),
{
    let n = a.unicode_len();
    if n != b.unicode_len() {
        return false;
    }
    let r = starts_with(a, b);
    proof {
        assert(a@.subrange(0, n as int) == a@);
    }
    r
}

/// The number denoted by the characters of `text` from `start` on, where
/// they are a numeral without sign that denotes no more than `cap`.
fn read_digits(text: &str, start: usize, cap: u64) -> (r: Option<u64>)
    requires
        is_ascii_chars(text@),
        start <= text@.len(),
    ensures
        match r {
            Some(v) => v <= cap && unsigned_numeral(
                text@.subrange(start as int, text@.len() as int),
            ) == Some(v as int),
            None => match unsigned_numeral(text@.subrange(start as int, text@.len() as int)) {
                Some(x) => x > cap,
                None => true,
            },
        },
{
    let n = text.unicode_len();
    let ghost body = text@.subrange(start as int, n as int);
    if start == n {
        return None;
    }
    let mut acc: u64 = 0;
    let mut i: usize = start;
    while i < n
        invariant
            is_ascii_chars(text@),
            n == text@.len(),
            start <= i <= n,
            body == text@.subrange(start as int, n as int),
            all_digits(body.subrange(0, i - start)),
            acc == digits_value(body.subrange(0, i - start)),
            acc <= cap,
        decreases n - i,
    {
        let b = text.get_ascii(i);
        let ghost c = text@[i as int];
        proof {
            assert('\0' <= c <= '\u{7f}');
            assert(c as u8 == b);
            assert(body[i - start] == c);
        }
        if b < 48 || b > 57 {
            proof {
                assert(!is_digit(c));
            }
            return None;
        }
        let d: u64 = (b - 48) as u64;
        proof {
            assert(is_digit(c));
            assert(d == digit_value(c));
            let next = body.subrange(0, i + 1 - start);
            assert(next.drop_last() == body.subrange(0, i - start));
            assert(next.last() == c);
            assert(digits_value(next) == acc * 10 + d);
            assert forall|j: int| 0 <= j < next.len() implies is_digit(#[trigger] next[j]) by {
                if j < i - start {
                    assert(body.subrange(0, i - start)[j] == next[j]);
                }
            }
            if all_digits(body) {
                lemma_digits_value_prefix(body, i + 1 - start);
            }
        }
        if cap < d || acc > (cap - d) / 10 {
            proof {
                assert(acc * 10 + d > cap);
            }
            return None;
        }
        acc = acc * 10 + d;
        i = i + 1;
    }
    proof {
        assert(body.subrange(0, n - start) == body);
    }
    Some(acc)
}

/// Reads a decimal `i64`: an optional `+` or `-`, then digits, with a value
/// that the type holds. Anything else, the empty text and a lone sign
/// included, gives `None`.
pub fn parse_i64(text: &str) -> (r: Option<i64>)
    ensures
        r == i64_numeral(text@),
{
    if !text.is_ascii() {
        proof {
            lemma_non_ascii_is_no_numeral(text@, true);
        }
        return None;
    }
    let n = text.unicode_len();
    if n == 0 {
        return None;
    }
    let first = text.get_ascii(0);
    proof {
        assert('\0' <= text@[0] <= '\u{7f}');
        assert(text@[0] as u8 == first);
    }
    if first == 45 {
        proof {
            assert(text@[0] == '-');
        }
        match read_digits(text, 1, 0x8000_0000_0000_0000u64) {
            Some(v) => {
                if v == 0x8000_0000_0000_0000u64 {
                    Some(i64::MIN)
                } else {
                    assert(v < 0x8000_0000_0000_0000u64);
                    let magnitude: i64 = v as i64;
                    Some(0 - magnitude)
                }
            },
            None => None,
        }
    } else if first == 43 {
        proof {
            assert(text@[0] == '+');
        }
        match read_digits(text, 1, 0x7fff_ffff_ffff_ffffu64) {
            Some(v) => {
                assert(v <= 0x7fff_ffff_ffff_ffffu64);
                Some(v as i64)
            },
            None => None,
        }
    } else {
        proof {
            assert(text@[0] != '+' && text@[0] != '-');
            assert(text@.subrange(0, n as int) == text@);
        }
        match read_digits(text, 0, 0x7fff_ffff_ffff_ffffu64) {
            Some(v) => {
                assert(v <= 0x7fff_ffff_ffff_ffffu64);
                Some(v as i64)
            },
            None => None,
        }
    }
}

/// Reads a decimal `u16`: an optional `+`, then digits, with a value that
/// the type holds. Anything else gives `None`.
pub fn parse_u16(text: &str) -> (r: Option<u16>)
    ensures
        r == u16_numeral(text@),
{
    if !text.is_ascii() {
        proof {
            lemma_non_ascii_is_no_numeral(text@, false);
        }
        return None;
    }
    let n = text.unicode_len();
    if n == 0 {
        return None;
    }
    let first = text.get_ascii(0);
    proof {
        assert('\0' <= text@[0] <= '\u{7f}');
        assert(text@[0] as u8 == first);
    }
    if first == 43 {
        proof {
            assert(text@[0] == '+');
        }
        match read_digits(text, 1, 0xffffu64) {
            Some(v) => {
                assert(v <= 0xffffu64);
                Some(v as u16)
            },
            None => None,
        }
    } else {
        proof {
            assert(text@[0] != '+');
            assert(text@.subrange(0, n as int) == text@);
        }
        match read_digits(text, 0, 0xffffu64) {
            Some(v) => {
                assert(v <= 0xffffu64);
                Some(v as u16)
            },
            None => None,
        }
    }
}

/// Reads a truth value: `true` or `false`, spelled exactly so.
pub fn parse_bool(text: &str) -> (r: Option<bool>)
    ensures
        r == bool_word(text@),
{
    if same_text(text, "true") {
        Some(true)
    } else if same_text(text, "false") {
        Some(false)
    } else {
        None
    }
}

/// A text with a character outside ASCII denotes no number.
pub proof fn lemma_non_ascii_is_no_numeral(s: Seq<char>, minus: bool)
    requires
        !is_ascii_chars(s),
    ensures
        signed_numeral(s, minus) is None,
{
    let i = choose|i: int| 0 <= i < s.len() && !('\0' <= #[trigger] s[i] <= '\u{7f}');
    let c = s[i];
    assert(!is_digit(c));
    assert(c != '+' && c != '-');
    if i > 0 {
        let body = s.subrange(1, s.len() as int);
        assert(body[i - 1] == c);
    }
}

/// The one-character text of a number below ten.
fn digit_text(d: u64) -> (t: &'static str)
    requires
        d < 10,
    ensures
        t@ == seq![digit_char(d as int)],
{
    proof {
        reveal_strlit("0");
        reveal_strlit("1");
        reveal_strlit("2");
        reveal_strlit("3");
        reveal_strlit("4");
        reveal_strlit("5");
        reveal_strlit("6");
        reveal_strlit("7");
        reveal_strlit("8");
        reveal_strlit("9");
    }
    let t = if d == 0 {
        "0"
    } else if d == 1 {
        "1"
    } else if d == 2 {
        "2"
    } else if d == 3 {
        "3"
    } else if d == 4 {
        "4"
    } else if d == 5 {
        "5"
    } else if d == 6 {
        "6"
    } else if d == 7 {
        "7"
    } else if d == 8 {
        "8"
    } else {
        "9"
    };
    assert(t@ =~= seq![digit_char(d as int)]);
    t
}

/// Writes a number in base ten, without sign or leading zeros.
pub fn decimal_string(n: u64) -> (s: String)
    ensures
        s@ == decimal_digits(n as nat),
    decreases n,
{
    if n < 10 {
        String::from_str(digit_text(n))
    } else {
        let mut s = decimal_string(n / 10);
        s.append(digit_text(n % 10));
        proof {
            assert(s@ =~= decimal_digits((n / 10) as nat).push(digit_char((n % 10) as int)));
        }
        s
    }
}

} // verus!
