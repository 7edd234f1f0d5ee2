//! Character-level text utilities: comparison, prefix and suffix tests,
//! decimal rendering and parsing, cutting at separators, and lower case.
//!
//! Every function is specified over the `Seq<char>` view of its arguments.

use vstd::prelude::*;
use vstd::std_specs::iter::IteratorSpec;
use vstd::string::*;

verus! {

/// `c` is one of the ten ASCII decimal digits.
pub open spec fn is_digit(c: char) -> bool {
    '0' <= c && c <= '9'
}

/// Every character of `s` is an ASCII decimal digit (true of the empty sequence).
pub open spec fn all_digits(s: Seq<char>) -> bool {
    forall|i: int| 0 <= i < s.len() ==> is_digit(#[trigger] s[i])
}

/// The number a digit character stands for.
pub open spec fn digit_value(c: char) -> int {
    c as int - '0' as int
}

/// The digit character of a number below ten.
pub open spec fn digit_char(d: int) -> char {
    (d + '0' as int) as char
}

/// The number written by a sequence of digits, most significant first.
pub open spec fn digits_value(s: Seq<char>) -> int
    decreases s.len(),
{
    if s.len() == 0 {
        0
    } else {
        digits_value(s.drop_last()) * 10 + digit_value(s.last())
    }
}

/// The decimal digits of a natural number, without leading zeros.
pub open spec fn decimal_digits(n: nat) -> Seq<char>
    decreases n,
{
    if n < 10 {
        seq![digit_char(n as int)]
    } else {
        decimal_digits(n / 10).push(digit_char((n % 10) as int))
    }
}

/// The decimal rendering of an integer: a minus sign for negatives, then the digits.
pub open spec fn decimal(n: int) -> Seq<char> {
    if n < 0 {
        seq!['-'] + decimal_digits((-n) as nat)
    } else {
        decimal_digits(n as nat)
    }
}

/// What an unsigned decimal literal denotes: an optional `+`, then at least
/// one digit, with a value that fits in 64 bits. `None` for anything else.
pub open spec fn parse_unsigned(s: Seq<char>) -> Option<u64> {
    let body = if s.len() > 0 && s[0] == '+' {
        s.skip(1)
    } else {
        s
    };
    if body.len() > 0 && all_digits(body) && digits_value(body) <= u64::MAX {
        Some(digits_value(body) as u64)
    } else {
        None
    }
}

/// What a signed decimal literal denotes: an optional `+` or `-`, then at
/// least one digit, with a value that fits in 64 signed bits.
pub open spec fn parse_signed(s: Seq<char>) -> Option<i64> {
    let negative = s.len() > 0 && s[0] == '-';
    let body = if s.len() > 0 && (s[0] == '+' || s[0] == '-') {
        s.skip(1)
    } else {
        s
    };
    let magnitude = digits_value(body);
    if body.len() > 0 && all_digits(body) {
        if negative && magnitude <= 0x8000_0000_0000_0000 {
            Some((-magnitude) as i64)
        } else if !negative && magnitude <= i64::MAX {
            Some(magnitude as i64)
        } else {
            None
        }
    } else {
        None
    }
}

/// The index of the first `sep` in `s`, or the length of `s` when there is none.
pub open spec fn first_separator(s: Seq<char>, sep: char) -> int
    decreases s.len(),
{
    if s.len() == 0 || s[0] == sep {
        0
    } else {
        1 + first_separator(s.skip(1), sep)
    }
}

/// The pieces of `s` between occurrences of `sep`. There is always at least
/// one piece; the empty sequence splits into one empty piece.
pub open spec fn split(s: Seq<char>, sep: char) -> Seq<Seq<char>>
    decreases s.len(),
{
    let cut = first_separator(s, sep);
    if 0 <= cut < s.len() {
        seq![s.take(cut)] + split(s.skip(cut + 1), sep)
    } else {
        seq![s]
    }
}

/// The first separator lies within the text, nothing before it is a
/// separator, and where it is not the end of the text it is one.
pub proof fn lemma_first_separator(s: Seq<char>, sep: char)
    ensures
        0 <= first_separator(s, sep) <= s.len(),
        forall|i: int| 0 <= i < first_separator(s, sep) ==> s[i] != sep,
        first_separator(s, sep) < s.len() ==> s[first_separator(s, sep)] == sep,
    decreases s.len(),
{
    if s.len() == 0 || s[0] == sep {
    } else {
        lemma_first_separator(s.skip(1), sep);
        assert forall|i: int| 0 <= i < first_separator(s, sep) implies s[i] != sep by {
            if i > 0 {
                assert(s[i] == s.skip(1)[i - 1]);
            }
        }
    }
}

/// A position is the first separator exactly when nothing before it is one.
pub proof fn lemma_first_separator_is(s: Seq<char>, sep: char, k: int)
    requires
        0 <= k <= s.len(),
        forall|i: int| 0 <= i < k ==> s[i] != sep,
        k < s.len() ==> s[k] == sep,
    ensures
        first_separator(s, sep) == k,
{
    lemma_first_separator(s, sep);
    let f = first_separator(s, sep);
    if f < k {
        assert(s[f] == sep);
    } else if k < f {
        assert(s[k] != sep);
    }
}

/// A digit string is worth a natural number.
pub proof fn lemma_digits_value_bounds(s: Seq<char>)
    requires
        all_digits(s),
    ensures
        0 <= digits_value(s),
    decreases s.len(),
{
    if s.len() > 0 {
        assert(is_digit(s[s.len() - 1]));
        assert(all_digits(s.drop_last())) by {
            assert forall|i: int| 0 <= i < s.drop_last().len() implies is_digit(
                #[trigger] s.drop_last()[i],
            ) by {
                assert(s.drop_last()[i] == s[i]);
            }
        }
        lemma_digits_value_bounds(s.drop_last());
    }
}

/// A longer digit string is worth at least as much as any of its prefixes.
pub proof fn lemma_digits_value_prefix(s: Seq<char>, k: int)
    requires
        all_digits(s),
        0 <= k <= s.len(),
    ensures
        all_digits(s.take(k)),
        0 <= digits_value(s.take(k)) <= digits_value(s),
    decreases s.len() - k,
{
    assert(all_digits(s.take(k))) by {
        assert forall|i: int| 0 <= i < s.take(k).len() implies is_digit(#[trigger] s.take(k)[i]) by {
            assert(s.take(k)[i] == s[i]);
        }
    }
    lemma_digits_value_bounds(s.take(k));
    if k == s.len() {
        assert(s.take(k) == s);
    } else {
        lemma_digits_value_prefix(s, k + 1);
        let longer = s.take(k + 1);
        assert(longer.drop_last() == s.take(k));
        assert(longer.last() == s[k]);
        assert(is_digit(s[k]));
    }
}

/// The characters of `s`, in order.
pub fn chars_of(s: &str) -> (v: Vec<char>)
    ensures
        v@ == s@,
{
    let mut out: Vec<char> = Vec::new();
    let mut it = s.chars();
    let ghost mut k: int = 0;
    loop
        invariant
            0 <= k <= s@.len(),
            it.remaining() == s@.skip(k),
            out@ == s@.take(k),
        decreases s@.len() - k,
    {
        match it.next() {
            Some(c) => {
                out.push(c);
                proof {
                    assert(s@.take(k + 1) == s@.take(k).push(s@[k]));
                    assert(s@.skip(k).drop_first() == s@.skip(k + 1));
                    k = k + 1;
                }
            },
            None => {
                assert(s@.take(k) == s@);
                return out;
            },
        }
    }
}

/// Whether two strings hold the same characters.
pub fn str_eq(a: &str, b: &str) -> (r: bool)
    ensures
        r == (a@ == b@),
{
    let mut left = a.chars();
    let mut right = b.chars();
    let ghost mut k: int = 0;
    loop
        invariant
            0 <= k <= a@.len(),
            k <= b@.len(),
            left.remaining() == a@.skip(k),
            right.remaining() == b@.skip(k),
            a@.take(k) == b@.take(k),
        decreases a@.len() - k,
    {
        let x = left.next();
        let y = right.next();
        match (x, y) {
            (None, None) => {
                assert(a@.take(k) == a@);
                assert(b@.take(k) == b@);
                return true;
            },
            (Some(p), Some(q)) => {
                if p != q {
                    assert(a@[k] != b@[k]);
                    return false;
                }
                proof {
                    assert(a@.take(k + 1) == a@.take(k).push(a@[k]));
                    assert(b@.take(k + 1) == b@.take(k).push(b@[k]));
                    assert(a@.skip(k).drop_first() == a@.skip(k + 1));
                    assert(b@.skip(k).drop_first() == b@.skip(k + 1));
                    k = k + 1;
                }
            },
            _ => {
                assert(a@.len() != b@.len());
                return false;
            },
        }
    }
}

/// Whether `s` begins with `prefix`.
pub fn starts_with(s: &str, prefix: &str) -> (r: bool)
    ensures
        r == prefix@.is_prefix_of(s@),
{
    let text = chars_of(s);
    let head = chars_of(prefix);
    if head.len() > text.len() {
        return false;
    }
    let mut i: usize = 0;
    while i < head.len()
        invariant
            i <= head.len() <= text.len(),
            text@ == s@,
            head@ == prefix@,
            forall|j: int| 0 <= j < i ==> text@[j] == head@[j],
        decreases head.len() - i,
    {
        if text[i] != head[i] {
            assert(s@.subrange(0, prefix@.len() as int)[i as int] != prefix@[i as int]);
            return false;
        }
        i += 1;
    }
    assert(prefix@ =~= s@.subrange(0, prefix@.len() as int));
    true
}

/// Whether `s` ends with `suffix`.
pub fn ends_with(s: &str, suffix: &str) -> (r: bool)
    ensures
        r == suffix@.is_suffix_of(s@),
{
    let text = chars_of(s);
    let tail = chars_of(suffix);
    if tail.len() > text.len() {
        return false;
    }
    let shift = text.len() - tail.len();
    let mut i: usize = 0;
    while i < tail.len()
        invariant
            i <= tail.len() <= text.len(),
            shift == text.len() - tail.len(),
            text@ == s@,
            tail@ == suffix@,
            forall|j: int| 0 <= j < i ==> text@[shift + j] == tail@[j],
        decreases tail.len() - i,
    {
        if text[shift + i] != tail[i] {
            assert(s@.subrange(s@.len() - suffix@.len(), s@.len() as int)[i as int]
                != suffix@[i as int]);
            return false;
        }
        i += 1;
    }
    assert(suffix@ =~= s@.subrange(s@.len() - suffix@.len(), s@.len() as int));
    true
}

/// Whether `s` consists of ASCII decimal digits only.
pub fn is_numeric(s: &str) -> (r: bool)
    ensures
        r == all_digits(s@),
{
    let text = chars_of(s);
    let mut i: usize = 0;
    while i < text.len()
        invariant
            i <= text.len(),
            text@ == s@,
            forall|j: int| 0 <= j < i ==> is_digit(#[trigger] text@[j]),
        decreases text.len() - i,
    {
        let c = text[i];
        if !('0' <= c && c <= '9') {
            assert(!is_digit(s@[i as int]));
            return false;
        }
        i += 1;
    }
    true
}

/// The one-character string of a digit below ten.
fn digit_str(d: u64) -> (r: &'static str)
    requires
        d < 10,
    ensures
        r@ == seq![digit_char(d as int)],
{
    proof {
        reveal_strlit("0");
        reveal_strlit("1");
        reveal_strlit("2");
        reveal_strlit("3");
        reveal_strlit("4");
        reveal_strlit("5");
        reveal_strlit("6");
        reveal_strlit("7");
        reveal_strlit("8");
        reveal_strlit("9");
    }
    let r = if d == 0 {
        "0"
    } else if d == 1 {
        "1"
    } else if d == 2 {
        "2"
    } else if d == 3 {
        "3"
    } else if d == 4 {
        "4"
    } else if d == 5 {
        "5"
    } else if d == 6 {
        "6"
    } else if d == 7 {
        "7"
    } else if d == 8 {
        "8"
    } else {
        "9"
    };
    assert(r@ =~= seq![digit_char(d as int)]);
    r
}

/// Renders an unsigned number in decimal.
pub fn u64_to_string(n: u64) -> (r: String)
    ensures
        r@ == decimal(n as int),
    decreases n,
{
    if n < 10 {
        String::from_str(digit_str(n))
    } else {
        let mut out = u64_to_string(n / 10);
        out.append(digit_str(n % 10));
        assert(out@ =~= decimal_digits((n / 10) as nat).push(digit_char((n % 10) as int)));
        out
    }
}

/// Renders a signed number in decimal.
pub fn i64_to_string(n: i64) -> (r: String)
    ensures
        r@ == decimal(n as int),
{
    if n >= 0 {
        u64_to_string(n as u64)
    } else {
        let magnitude: u64 = if n == i64::MIN {
            0x8000_0000_0000_0000u64
        } else {
            (-n) as u64
        };
        let digits = u64_to_string(magnitude);
        let mut out = String::from_str("-");
        proof {
            reveal_strlit("-");
        }
        out.append(digits.as_str());
        assert(out@ =~= seq!['-'] + decimal_digits((-n) as nat));
        out
    }
}

/// Reads the digits of `text` from `start` to the end as a number.
fn parse_digits(text: &Vec<char>, start: usize) -> (r: Option<u64>)
    requires
        start <= text.len(),
    ensures
        r == (if start < text.len() && all_digits(text@.skip(start as int)) && digits_value(
            text@.skip(start as int),
        ) <= u64::MAX {
            Some(digits_value(text@.skip(start as int)) as u64)
        } else {
            None
        }),
{
    let ghost body = text@.skip(start as int);
    if start == text.len() {
        return None;
    }
    let mut acc: u64 = 0;
    let mut i: usize = start;
    while i < text.len()
        invariant
            start <= i <= text.len(),
            body == text@.skip(start as int),
            all_digits(body.take(i - start)),
            acc == digits_value(body.take(i - start)),
        decreases text.len() - i,
    {
        let c = text[i];
        let ghost k = i - start;
        assert(body[k] == c);
        if !('0' <= c && c <= '9') {
            assert(!is_digit(body[k]));
            return None;
        }
        let d: u64 = (c as u32 - '0' as u32) as u64;
        proof {
            assert(body.take(k + 1).drop_last() == body.take(k));
            assert(body.take(k + 1).last() == c);
            assert(digits_value(body.take(k + 1)) == acc * 10 + d);
            assert(all_digits(body.take(k + 1))) by {
                assert forall|j: int| 0 <= j < k + 1 implies is_digit(
                    #[trigger] body.take(k + 1)[j],
                ) by {
                    if j < k {
                        assert(body.take(k + 1)[j] == body.take(k)[j]);
                    }
                }
            }
        }
        if acc > (u64::MAX - d) / 10 {
            proof {
                assert(acc * 10 + d > u64::MAX);
                if all_digits(body) {
                    lemma_digits_value_prefix(body, k + 1);
                }
            }
            return None;
        }
        acc = acc * 10 + d;
        i += 1;
    }
    assert(body.take(i - start) == body);
    Some(acc)
}

/// Parses an unsigned decimal number.
pub fn parse_u64(s: &str) -> (r: Option<u64>)
    ensures
        r == parse_unsigned(s@),
{
    let text = chars_of(s);
    parse_u64_chars(&text)
}

/// Parses an unsigned decimal number given as characters.
pub fn parse_u64_chars(text: &Vec<char>) -> (r: Option<u64>)
    ensures
        r == parse_unsigned(text@),
{
    let start: usize = if text.len() > 0 && text[0] == '+' {
        1
    } else {
        0
    };
    assert(text@.skip(0) == text@);
    parse_digits(text, start)
}

/// Parses a signed decimal number.
pub fn parse_i64(s: &str) -> (r: Option<i64>)
    ensures
        r == parse_signed(s@),
{
    let text = chars_of(s);
    parse_i64_chars(&text)
}

/// Parses a signed decimal number given as characters.
pub fn parse_i64_chars(text: &Vec<char>) -> (r: Option<i64>)
    ensures
        r == parse_signed(text@),
{
    let negative = text.len() > 0 && text[0] == '-';
    let start: usize = if text.len() > 0 && (text[0] == '+' || text[0] == '-') {
        1
    } else {
        0
    };
    assert(text@.skip(0) == text@);
    match parse_digits(text, start) {
        None => {
            proof {
                let body = text@.skip(start as int);
                if body.len() > 0 && all_digits(body) {
                    lemma_digits_value_bounds(body);
                }
            }
            None
        },
        Some(magnitude) => {
            proof {
                lemma_digits_value_bounds(text@.skip(start as int));
            }
            if negative {
                if magnitude == 0x8000_0000_0000_0000u64 {
                    Some(i64::MIN)
                } else if magnitude < 0x8000_0000_0000_0000u64 {
                    Some(-(magnitude as i64))
                } else {
                    None
                }
            } else if magnitude <= i64::MAX as u64 {
                Some(magnitude as i64)
            } else {
                None
            }
        },
    }
}

/// The characters of `text` from `from` up to, not including, `to`.
fn collect(text: &Vec<char>, from: usize, to: usize) -> (r: Vec<char>)
    requires
        from <= to <= text.len(),
    ensures
        r@ == text@.subrange(from as int, to as int),
{
    let mut out: Vec<char> = Vec::new();
    let mut i: usize = from;
    while i < to
        invariant
            from <= i <= to <= text.len(),
            out@ == text@.subrange(from as int, i as int),
        decreases to - i,
    {
        out.push(text[i]);
        assert(text@.subrange(from as int, i + 1) == text@.subrange(from as int, i as int).push(
            text@[i as int],
        ));
        i += 1;
    }
    out
}

/// Cuts `s` at every `sep`.
pub fn split_chars(s: &str, sep: char) -> (r: Vec<Vec<char>>)
    ensures
        r@.len() == split(s@, sep).len(),
        forall|i: int| 0 <= i < r@.len() ==> (#[trigger] r@[i])@ == split(s@, sep)[i],
{
    let text = chars_of(s);
    let mut pieces: Vec<Vec<char>> = Vec::new();
    let mut begin: usize = 0;
    let mut i: usize = 0;
    let ghost mut done: Seq<Seq<char>> = Seq::empty();
    proof {
        assert(text@.skip(0) == text@);
        assert(done + split(text@, sep) == split(text@, sep));
    }
    while i < text.len()
        invariant
            begin <= i <= text.len(),
            text@ == s@,
            pieces@.len() == done.len(),
            forall|j: int| 0 <= j < pieces@.len() ==> (#[trigger] pieces@[j])@ == done[j],
            split(s@, sep) == done + split(text@.skip(begin as int), sep),
            forall|j: int| begin <= j < i ==> text@[j] != sep,
        decreases text.len() - i,
    {
        if text[i] == sep {
            let piece = collect(&text, begin, i);
            proof {
                let rest = text@.skip(begin as int);
                let cut = i - begin;
                assert forall|j: int| 0 <= j < cut implies rest[j] != sep by {
                    assert(rest[j] == text@[begin + j]);
                }
                assert(rest[cut] == sep);
                lemma_first_separator_is(rest, sep, cut);
                assert(rest.take(cut) == text@.subrange(begin as int, i as int));
                assert(rest.skip(cut + 1) == text@.skip(i + 1));
                assert(split(rest, sep) == seq![rest.take(cut)] + split(rest.skip(cut + 1), sep));
                assert(done + split(rest, sep) == done.push(piece@) + split(
                    text@.skip(i + 1),
                    sep,
                ));
                done = done.push(piece@);
            }
            pieces.push(piece);
            begin = i + 1;
        }
        i += 1;
    }
    let piece = collect(&text, begin, text.len());
    proof {
        let rest = text@.skip(begin as int);
        assert forall|j: int| 0 <= j < rest.len() implies rest[j] != sep by {
            assert(rest[j] == text@[begin + j]);
        }
        lemma_first_separator_is(rest, sep, rest.len() as int);
        assert(rest == text@.subrange(begin as int, text@.len() as int));
        assert(split(rest, sep) == seq![rest]);
        assert(done + seq![rest] == done.push(piece@));
    }
    pieces.push(piece);
    pieces
}

/// What std's `str::to_lowercase` returns for a text.
pub uninterp spec fn lowercased(s: Seq<char>) -> Seq<char>;

/// Calls std's `str::to_lowercase`. The result is a function of the text
/// alone, fixed by Unicode's case tables; it is named here, not described.
#[verifier::external_body]
pub(crate) fn to_lowercase(s: &str) -> (r: String)
    ensures
        r@ == lowercased(s@),
{
    s.to_lowercase()
}

} // verus!
