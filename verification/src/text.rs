//! Work on text: comparing, searching, trimming, and decimal numbers.

use vstd::prelude::*;
use vstd::string::*;

verus! {

/// Whether the character is white space in the sense of Unicode.
pub open spec fn is_space(c: char) -> bool {
    let code = c as u32;
    ||| 0x09 <= code <= 0x0d
    ||| code == 0x20
    ||| code == 0x85
    ||| code == 0xa0
    ||| code == 0x1680
    ||| 0x2000 <= code <= 0x200a
    ||| code == 0x2028
    ||| code == 0x2029
    ||| code == 0x202f
    ||| code == 0x205f
    ||| code == 0x3000
}

/// The text without the white space at its start.
pub open spec fn trim_start(s: Seq<char>) -> Seq<char>
    decreases s.len(),
{
    if s.len() > 0 && is_space(s[0]) {
        trim_start(s.drop_first())
    } else {
        s
    }
}

/// The text without the white space at its end.
pub open spec fn trim_end(s: Seq<char>) -> Seq<char>
    decreases s.len(),
{
    if s.len() > 0 && is_space(s.last()) {
        trim_end(s.drop_last())
    } else {
        s
    }
}

/// The text without the white space at its start and at its end.
pub open spec fn trim(s: Seq<char>) -> Seq<char> {
    trim_end(trim_start(s))
}

/// Position of the first `c` in the text, or the length of the text where it
/// holds none.
pub open spec fn first_index(s: Seq<char>, c: char) -> int
    decreases s.len(),
{
    if s.len() == 0 || s[0] == c {
        0
    } else {
        1 + first_index(s.drop_first(), c)
    }
}

/// The text before the first `c`; all of it where it holds none.
pub open spec fn before(s: Seq<char>, c: char) -> Seq<char> {
    s.subrange(0, first_index(s, c))
}

/// The text after the first `c`, if it holds one.
pub open spec fn after(s: Seq<char>, c: char) -> Option<Seq<char>> {
    if first_index(s, c) < s.len() {
        Some(s.subrange(first_index(s, c) + 1, s.len() as int))
    } else {
        None
    }
}

/// The first `c` is at a position of the text or at its end, and nothing
/// before it is a `c`.
pub proof fn lemma_first_index(s: Seq<char>, c: char)
    ensures
        0 <= first_index(s, c) <= s.len(),
        first_index(s, c) < s.len() ==> s[first_index(s, c)] == c,
        forall|i: int| 0 <= i < first_index(s, c) ==> s[i] != c,
    decreases s.len(),
{
    if s.len() == 0 || s[0] == c {
    } else {
        let rest = s.drop_first();
        lemma_first_index(rest, c);
        assert forall|i: int| 0 <= i < first_index(s, c) implies s[i] != c by {
            if i > 0 {
                assert(s[i] == rest[i - 1]);
            }
        }
        if first_index(s, c) < s.len() {
            assert(s[first_index(s, c)] == rest[first_index(rest, c)]);
        }
    }
}

/// A position that holds `c` with no `c` before it is the first.
pub proof fn lemma_first_index_is(s: Seq<char>, c: char, at: int)
    requires
        0 <= at <= s.len(),
        at < s.len() ==> s[at] == c,
        forall|i: int| 0 <= i < at ==> s[i] != c,
    ensures
        first_index(s, c) == at,
    decreases s.len(),
{
    if s.len() == 0 || s[0] == c {
    } else {
        let rest = s.drop_first();
        assert forall|i: int| 0 <= i < at - 1 implies rest[i] != c by {
            assert(rest[i] == s[i + 1]);
        }
        lemma_first_index_is(rest, c, at - 1);
    }
}

proof fn lemma_trim_start_skips(s: Seq<char>, from: int)
    requires
        0 <= from < s.len(),
        is_space(s[from]),
    ensures
        trim_start(s.subrange(from, s.len() as int)) == trim_start(
            s.subrange(from + 1, s.len() as int),
        ),
{
    let tail = s.subrange(from, s.len() as int);
    assert(tail[0] == s[from]);
    assert(tail.drop_first() =~= s.subrange(from + 1, s.len() as int));
}

proof fn lemma_trim_end_skips(s: Seq<char>, to: int)
    requires
        0 < to <= s.len(),
        is_space(s[to - 1]),
    ensures
        trim_end(s.subrange(0, to)) == trim_end(s.subrange(0, to - 1)),
{
    let head = s.subrange(0, to);
    assert(head.last() == s[to - 1]);
    assert(head.drop_last() =~= s.subrange(0, to - 1));
}

/// Tells whether the character is white space.
pub fn char_is_space(c: char) -> (space: bool)
    ensures
        space == is_space(c),
{
    let code = c as u32;
    (0x09 <= code && code <= 0x0d) || code == 0x20 || code == 0x85 || code == 0xa0 || code
        == 0x1680 || (0x2000 <= code && code <= 0x200a) || code == 0x2028 || code == 0x2029
        || code == 0x202f || code == 0x205f || code == 0x3000
}

/// Tells whether two texts hold the same characters.
pub fn str_equal(a: &str, b: &str) -> (equal: bool)
    ensures
        equal == (a@ == b@),
{
    let left = a.to_owned();
    let right = b.to_owned();
    left == right
}

/// Tells whether the text begins with `prefix`.
pub fn starts_with(s: &str, prefix: &str) -> (found: bool)
    ensures
        found == prefix@.is_prefix_of(s@),
{
    let len = s.unicode_len();
    let prefix_len = prefix.unicode_len();
    if prefix_len > len {
        return false;
    }
    let head = s.substring_char(0, prefix_len);
    str_equal(head, prefix)
}

/// The position of the first `c` at or after `from`.
pub fn find_char(s: &str, c: char, from: usize) -> (at: Option<usize>)
    requires
        from <= s@.len(),
    ensures
        match at {
            Some(i) => from <= i < s@.len() && s@[i as int] == c && forall|j: int|
                from <= j < i ==> s@[j] != c,
            None => forall|j: int| from <= j < s@.len() ==> s@[j] != c,
        },
{
    let len = s.unicode_len();
    let mut i = from;
    while i < len
        invariant
            from <= i <= len,
            len == s@.len(),
            forall|j: int| from <= j < i ==> s@[j] != c,
        decreases len - i,
    {
        if s.get_char(i) == c {
            return Some(i);
        }
        i += 1;
    }
    None
}

/// The text without white space at both ends.
pub fn trimmed(s: &str) -> (inner: &str)
    ensures
        inner@ == trim(s@),
{
    let len = s.unicode_len();
    let mut start: usize = 0;
    assert(s@.subrange(0, len as int) =~= s@);
    while start < len && char_is_space(s.get_char(start))
        invariant
            start <= len,
            len == s@.len(),
            trim_start(s@) == trim_start(s@.subrange(start as int, len as int)),
        decreases len - start,
    {
        proof {
            lemma_trim_start_skips(s@, start as int);
        }
        start += 1;
    }
    let tail = s.substring_char(start, len);
    proof {
        if start < len {
            assert(tail@[0] == s@[start as int]);
        }
        assert(trim_start(s@) == tail@);
    }
    let tail_len = len - start;
    let mut end: usize = tail_len;
    assert(tail@.subrange(0, tail_len as int) =~= tail@);
    while end > 0 && char_is_space(tail.get_char(end - 1))
        invariant
            end <= tail_len,
            tail_len == tail@.len(),
            trim_end(tail@) == trim_end(tail@.subrange(0, end as int)),
        decreases end,
    {
        proof {
            lemma_trim_end_skips(tail@, end as int);
        }
        end -= 1;
    }
    let inner = tail.substring_char(0, end);
    proof {
        if end > 0 {
            assert(inner@.last() == tail@[end - 1]);
        }
    }
    inner
}

/// Cuts the text at its first `c`: what stands before it, and what stands after
/// it where there is one.
pub fn split_first<'a>(s: &'a str, c: char) -> (parts: (&'a str, Option<&'a str>))
    ensures
        parts.0@ == before(s@, c),
        match parts.1 {
            Some(rest) => after(s@, c) == Some(rest@),
            None => after(s@, c) is None,
        },
{
    let len = s.unicode_len();
    match find_char(s, c, 0) {
        Some(i) => {
            proof {
                lemma_first_index_is(s@, c, i as int);
            }
            (s.substring_char(0, i), Some(s.substring_char(i + 1, len)))
        },
        None => {
            proof {
                lemma_first_index_is(s@, c, len as int);
            }
            (s.substring_char(0, len), None)
        },
    }
}

/// The character that stands for a digit.
pub open spec fn digit_char(digit: int) -> char {
    if digit == 0 {
        '0'
    } else if digit == 1 {
        '1'
    } else if digit == 2 {
        '2'
    } else if digit == 3 {
        '3'
    } else if digit == 4 {
        '4'
    } else if digit == 5 {
        '5'
    } else if digit == 6 {
        '6'
    } else if digit == 7 {
        '7'
    } else if digit == 8 {
        '8'
    } else {
        '9'
    }
}

/// The decimal digits of a number, without leading zeros.
pub open spec fn decimal(n: nat) -> Seq<char>
    decreases n,
{
    if n < 10 {
        seq![digit_char(n as int)]
    } else {
        decimal(n / 10).push(digit_char((n % 10) as int))
    }
}

/// The value of a decimal digit, if the character is one.
pub open spec fn digit_value(c: char) -> Option<int> {
    let code = c as u32;
    if 0x30 <= code <= 0x39 {
        Some(code - 0x30)
    } else {
        None
    }
}

/// Whether the text is made of decimal digits, at least one.
pub open spec fn is_number(s: Seq<char>) -> bool {
    s.len() > 0 && forall|i: int| 0 <= i < s.len() ==> digit_value(#[trigger] s[i]) is Some
}

/// The number that decimal digits stand for.
pub open spec fn number(s: Seq<char>) -> nat
    decreases s.len(),
{
    if s.len() == 0 {
        0
    } else {
        (number(s.drop_last()) * 10 + match digit_value(s.last()) {
            Some(d) => d,
            None => 0,
        }) as nat
    }
}

/// What a text holds as an unsigned number: decimal digits, a `+` before them
/// or not, and nothing else.
pub open spec fn unsigned_number(s: Seq<char>) -> Option<nat> {
    let digits = if s.len() > 0 && s[0] == '+' {
        s.drop_first()
    } else {
        s
    };
    if is_number(digits) {
        Some(number(digits))
    } else {
        None
    }
}

/// What a text holds as a number with a sign: decimal digits, a `+` or `-`
/// before them or not, and nothing else.
pub open spec fn signed_number(s: Seq<char>) -> Option<int> {
    if s.len() > 0 && s[0] == '-' {
        if is_number(s.drop_first()) {
            Some(-(number(s.drop_first()) as int))
        } else {
            None
        }
    } else {
        match unsigned_number(s) {
            Some(n) => Some(n as int),
            None => None,
        }
    }
}

fn digit_text(digit: u64) -> (text: &'static str)
    requires
        digit < 10,
    ensures
        text@ == seq![digit_char(digit as int)],
{
    proof {
        reveal_strlit("0");
        reveal_strlit("1");
        reveal_strlit("2");
        reveal_strlit("3");
        reveal_strlit("4");
        reveal_strlit("5");
        reveal_strlit("6");
        reveal_strlit("7");
        reveal_strlit("8");
        reveal_strlit("9");
    }
    let text = if digit == 0 {
        "0"
    } else if digit == 1 {
        "1"
    } else if digit == 2 {
        "2"
    } else if digit == 3 {
        "3"
    } else if digit == 4 {
        "4"
    } else if digit == 5 {
        "5"
    } else if digit == 6 {
        "6"
    } else if digit == 7 {
        "7"
    } else if digit == 8 {
        "8"
    } else {
        "9"
    };
    assert(text@ =~= seq![digit_char(digit as int)]);
    text
}

/// Writes a number in decimal digits.
pub fn to_decimal(n: u64) -> (text: String)
    ensures
        text@ == decimal(n as nat),
    decreases n,
{
    if n < 10 {
        digit_text(n).to_owned()
    } else {
        let head = to_decimal(n / 10);
        let text = head.concat(digit_text(n % 10));
        assert(text@ =~= decimal(n as nat));
        text
    }
}

/// Reads the decimal digits from position `from` on, as far as the number fits
/// into 64 bits.
fn read_digits(s: &str, from: usize) -> (value: Option<u64>)
    requires
        from <= s@.len(),
    ensures
        match value {
            Some(v) => is_number(s@.subrange(from as int, s@.len() as int)) && v == number(
                s@.subrange(from as int, s@.len() as int),
            ),
            None => !is_number(s@.subrange(from as int, s@.len() as int)) || number(
                s@.subrange(from as int, s@.len() as int),
            ) > u64::MAX,
        },
{
    let len = s.unicode_len();
    let ghost digits = s@.subrange(from as int, len as int);
    if from == len {
        return None;
    }
    let mut value: u64 = 0;
    let mut i = from;
    while i < len
        invariant
            from <= i <= len,
            len == s@.len(),
            digits == s@.subrange(from as int, len as int),
            forall|j: int| 0 <= j < i - from ==> digit_value(#[trigger] digits[j]) is Some,
            value == number(digits.subrange(0, i - from)),
        decreases len - i,
    {
        let c = s.get_char(i);
        let code = c as u32;
        assert(digits[i - from] == c);
        if code < 0x30 || code > 0x39 {
            return None;
        }
        let digit = (code - 0x30) as u64;
        proof {
            let head = digits.subrange(0, i - from + 1);
            assert(head.drop_last() =~= digits.subrange(0, i - from));
            assert(head.last() == c);
            assert(number(head) == value * 10 + digit);
            lemma_number_grows(digits, i - from + 1);
        }
        if value > (u64::MAX - digit) / 10 {
            return None;
        }
        value = value * 10 + digit;
        i += 1;
    }
    assert(digits.subrange(0, len - from) =~= digits);
    Some(value)
}

/// The digits of a number stand for no less than those at its start.
proof fn lemma_number_grows(s: Seq<char>, upto: int)
    requires
        0 <= upto <= s.len(),
    ensures
        number(s.subrange(0, upto)) <= number(s),
    decreases s.len() - upto,
{
    if upto < s.len() {
        let longer = s.subrange(0, upto + 1);
        assert(longer.drop_last() =~= s.subrange(0, upto));
        assert(number(longer) >= number(s.subrange(0, upto)) * 10);
        lemma_number_grows(s, upto + 1);
    } else {
        assert(s.subrange(0, upto) =~= s);
    }
}

/// Reads an unsigned number of 64 bits, as the standard library parses it.
pub fn parse_u64(s: &str) -> (value: Option<u64>)
    ensures
        match value {
            Some(v) => unsigned_number(s@) == Some(v as nat),
            None => match unsigned_number(s@) {
                Some(n) => n > u64::MAX,
                None => true,
            },
        },
{
    let len = s.unicode_len();
    let from: usize = if len > 0 && s.get_char(0) == '+' {
        1
    } else {
        0
    };
    proof {
        if from == 1 {
            assert(s@.drop_first() =~= s@.subrange(1, len as int));
        } else {
            assert(s@ =~= s@.subrange(0, len as int));
        }
    }
    read_digits(s, from)
}

/// Reads a number of 32 bits with a sign, as the standard library parses it.
pub fn parse_i32(s: &str) -> (value: Option<i32>)
    ensures
        match value {
            Some(v) => signed_number(s@) == Some(v as int),
            None => match signed_number(s@) {
                Some(n) => n < i32::MIN || n > i32::MAX,
                None => true,
            },
        },
{
    let len = s.unicode_len();
    if len > 0 && s.get_char(0) == '-' {
        proof {
            assert(s@.drop_first() =~= s@.subrange(1, len as int));
        }
        match read_digits(s, 1) {
            Some(v) => {
                if v <= 0x8000_0000 {
                    Some((-(v as i64)) as i32)
                } else {
                    None
                }
            },
            None => None,
        }
    } else {
        match parse_u64(s) {
            Some(v) => {
                if v <= 0x7fff_ffff {
                    Some(v as i32)
                } else {
                    None
                }
            },
            None => None,
        }
    }
}

} // verus!

verus! {

/// The decimal digits of a number, with a minus sign before them where it is
/// negative.
pub open spec fn signed_decimal(n: int) -> Seq<char> {
    if n < 0 {
        seq!['-'] + decimal((-n) as nat)
    } else {
        decimal(n as nat)
    }
}

/// Writes a number with its sign in decimal digits.
pub fn to_signed_decimal(n: i32) -> (text: String)
    ensures
        text@ == signed_decimal(n as int),
{
    if n < 0 {
        proof {
            reveal_strlit("-");
        }
        let digits = to_decimal((-(n as i64)) as u64);
        let text = "-".to_owned().concat(digits.as_str());
        assert(text@ =~= signed_decimal(n as int));
        text
    } else {
        to_decimal(n as u64)
    }
}

/// The text without the spaces at its start.
pub open spec fn skip_spaces(s: Seq<char>) -> Seq<char>
    decreases s.len(),
{
    if s.len() > 0 && s[0] == ' ' {
        skip_spaces(s.drop_first())
    } else {
        s
    }
}

/// The text from its first character on that is no space.
pub fn without_leading_spaces(s: &str) -> (rest: &str)
    ensures
        rest@ == skip_spaces(s@),
{
    let len = s.unicode_len();
    let mut start: usize = 0;
    assert(s@.subrange(0, len as int) =~= s@);
    while start < len && s.get_char(start) == ' '
        invariant
            start <= len,
            len == s@.len(),
            skip_spaces(s@) == skip_spaces(s@.subrange(start as int, len as int)),
        decreases len - start,
    {
        proof {
            let tail = s@.subrange(start as int, len as int);
            assert(tail[0] == s@[start as int]);
            assert(tail.drop_first() =~= s@.subrange(start + 1, len as int));
        }
        start += 1;
    }
    let rest = s.substring_char(start, len);
    proof {
        if start < len {
            assert(rest@[0] == s@[start as int]);
        }
    }
    rest
}

} // verus!
