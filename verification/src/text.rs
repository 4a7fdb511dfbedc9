//! Text handling: trimming a line of input, telling a file name, writing and
//! reading decimal numbers.

use vstd::prelude::*;

verus! {

/// Whether `c` has the Unicode property White_Space.
pub open spec fn is_whitespace(c: char) -> bool {
    let u = c as u32;
    ||| 0x09 <= u <= 0x0D
    ||| u == 0x20
    ||| u == 0x85
    ||| u == 0xA0
    ||| u == 0x1680
    ||| 0x2000 <= u <= 0x200A
    ||| u == 0x2028
    ||| u == 0x2029
    ||| u == 0x202F
    ||| u == 0x205F
    ||| u == 0x3000
}

/// `s` without the white space it starts with.
pub open spec fn without_leading(s: Seq<char>) -> Seq<char>
    decreases s.len(),
{
    if s.len() > 0 && is_whitespace(s.first()) {
        without_leading(s.drop_first())
    } else {
        s
    }
}

/// `s` without the white space it ends with.
pub open spec fn without_trailing(s: Seq<char>) -> Seq<char>
    decreases s.len(),
{
    if s.len() > 0 && is_whitespace(s.last()) {
        without_trailing(s.drop_last())
    } else {
        s
    }
}

/// `s` without the white space on either side.
pub open spec fn trimmed(s: Seq<char>) -> Seq<char> {
    without_trailing(without_leading(s))
}

/// Tells whether a character is white space.
pub fn is_space(c: char) -> (b: bool)
    ensures
        b == is_whitespace(c),
{
    let u: u32 = c as u32;
    (0x09 <= u && u <= 0x0D) || u == 0x20 || u == 0x85 || u == 0xA0 || u == 0x1680 || (0x2000 <= u
        && u <= 0x200A) || u == 0x2028 || u == 0x2029 || u == 0x202F || u == 0x205F || u == 0x3000
}

/// Removes the white space on either side of `s`.
pub fn trim(s: &str) -> (t: String)
    ensures
        t@ == trimmed(s@),
{
    let n: usize = s.unicode_len();
    let mut from: usize = 0;
    assert(s@.skip(0) == s@);
    while from < n
        invariant
            n == s@.len(),
            from <= n,
            without_leading(s@) == without_leading(s@.skip(from as int)),
        ensures
            from <= n,
            without_leading(s@) == s@.skip(from as int),
        decreases n - from,
    {
        if !is_space(s.get_char(from)) {
            break;
        }
        assert(s@.skip(from as int).drop_first() == s@.skip(from as int + 1));
        from = from + 1;
    }
    let mut to: usize = n;
    assert(s@.skip(from as int) == s@.subrange(from as int, n as int));
    while to > from
        invariant
            n == s@.len(),
            from <= to <= n,
            without_trailing(s@.skip(from as int)) == without_trailing(
                s@.subrange(from as int, to as int),
            ),
        ensures
            from <= to <= n,
            without_trailing(s@.skip(from as int)) == s@.subrange(from as int, to as int),
        decreases to - from,
    {
        if !is_space(s.get_char(to - 1)) {
            break;
        }
        assert(s@.subrange(from as int, to as int).drop_last() == s@.subrange(
            from as int,
            to as int - 1,
        ));
        to = to - 1;
    }
    String::from_str(s.substring_char(from, to))
}

/// Whether `name` can name a file in a directory: it is not empty, it is
/// neither `.` nor `..`, and it holds no `/`.
pub open spec fn is_file_name(name: Seq<char>) -> bool {
    &&& name.len() > 0
    &&& name != seq!['.']
    &&& name != seq!['.', '.']
    &&& forall|i: int| 0 <= i < name.len() ==> name[i] != '/'
}

/// Tells whether `name` can name a file in a directory.
pub fn is_name(name: &str) -> (b: bool)
    ensures
        b == is_file_name(name@),
{
    let n: usize = name.unicode_len();
    if n == 0 {
        return false;
    }
    if n == 1 && name.get_char(0) == '.' {
        assert(name@ == seq!['.']);
        return false;
    }
    if n == 2 && name.get_char(0) == '.' && name.get_char(1) == '.' {
        assert(name@ == seq!['.', '.']);
        return false;
    }
    assert(name@ != seq!['.']) by {
        if name@ == seq!['.'] {
            assert(name@[0] == seq!['.'][0]);
        }
    }
    assert(name@ != seq!['.', '.']) by {
        if name@ == seq!['.', '.'] {
            assert(name@[0] == seq!['.', '.'][0]);
            assert(name@[1] == seq!['.', '.'][1]);
        }
    }
    let mut i: usize = 0;
    while i < n
        invariant
            n == name@.len(),
            i <= n,
            forall|j: int| 0 <= j < i ==> name@[j] != '/',
        decreases n - i,
    {
        if name.get_char(i) == '/' {
            return false;
        }
        i = i + 1;
    }
    true
}

/// The character that stands for the digit `d`.
pub open spec fn digit_char(d: nat) -> char
    recommends
        d < 10,
{
    "0123456789"@[d as int]
}

/// `n` written in decimal notation, without leading zeros.
pub open spec fn decimal(n: nat) -> Seq<char>
    decreases n,
{
    if n < 10 {
        seq![digit_char(n)]
    } else {
        decimal(n / 10).push(digit_char(n % 10))
    }
}

/// Writes `n` in decimal notation.
pub fn render(n: usize) -> (s: String)
    ensures
        s@ == decimal(n as nat),
    decreases n,
{
    if n < 10 {
        proof {
            reveal_strlit("0123456789");
        }
        let s = String::from_str("0123456789".substring_char(n, n + 1));
        assert(s@ == seq![digit_char(n as nat)]);
        s
    } else {
        let mut s = render(n / 10);
        let d: usize = n % 10;
        proof {
            reveal_strlit("0123456789");
        }
        let last = "0123456789".substring_char(d, d + 1);
        assert(last@ == seq![digit_char(d as nat)]);
        s.append(last);
        s
    }
}

/// Whether `c` is one of the ten decimal digits.
pub open spec fn is_digit(c: char) -> bool {
    '0' <= c <= '9'
}

/// The number that the digit `c` stands for.
pub open spec fn digit_value(c: char) -> nat
    recommends
        is_digit(c),
{
    (c as u32 - '0' as u32) as nat
}

/// The number that a row of decimal digits stands for.
pub open spec fn digits_value(s: Seq<char>) -> nat
    decreases s.len(),
{
    if s.len() == 0 {
        0
    } else {
        digits_value(s.drop_last()) * 10 + digit_value(s.last())
    }
}

/// The digits of a number's text: the text itself, less one leading plus sign.
pub open spec fn unsigned_part(s: Seq<char>) -> Seq<char> {
    if s.len() > 0 && s[0] == '+' {
        s.drop_first()
    } else {
        s
    }
}

/// Whether `s` is the text of a number: one or more decimal digits, which a
/// single plus sign may precede.
pub open spec fn is_number(s: Seq<char>) -> bool {
    let digits = unsigned_part(s);
    digits.len() > 0 && forall|i: int| 0 <= i < digits.len() ==> is_digit(#[trigger] digits[i])
}

/// The number that the text `s` stands for.
pub open spec fn number_value(s: Seq<char>) -> nat
    recommends
        is_number(s),
{
    digits_value(unsigned_part(s))
}

/// A longer row of digits stands for no smaller number than its beginning.
proof fn lemma_digits_value_grows(s: Seq<char>, k: int)
    requires
        0 <= k <= s.len(),
    ensures
        digits_value(s.take(k)) <= digits_value(s),
    decreases s.len(),
{
    if k == s.len() {
        assert(s.take(k) == s);
    } else {
        assert(s.drop_last().take(k) == s.take(k));
        lemma_digits_value_grows(s.drop_last(), k);
    }
}

/// The decimal notation of a number is a row of digits that stands for it.
proof fn lemma_decimal_is_digits(n: nat)
    ensures
        decimal(n).len() > 0,
        forall|i: int| 0 <= i < decimal(n).len() ==> is_digit(#[trigger] decimal(n)[i]),
        digits_value(decimal(n)) == n,
    decreases n,
{
    reveal_strlit("0123456789");
    let last = digit_char(n % 10);
    assert(is_digit(last) && digit_value(last) == n % 10);
    if n < 10 {
        assert(decimal(n).drop_last() == Seq::<char>::empty());
        assert(digits_value(decimal(n).drop_last()) == 0);
    } else {
        lemma_decimal_is_digits(n / 10);
        assert(decimal(n).drop_last() == decimal(n / 10));
    }
}

/// What [`render`] writes, [`parse_index`] reads back: the decimal notation of
/// a number is the text of a number, and stands for that number.
pub proof fn law_decimal_reads_back(n: nat)
    ensures
        is_number(decimal(n)),
        number_value(decimal(n)) == n,
{
    lemma_decimal_is_digits(n);
    assert(is_digit(decimal(n)[0]));
}

/// Reads a number, as a selection index is written on the command line.
///
/// The answer is `None` where the text is no number, and where the number is
/// too large for `usize`.
pub fn parse_index(s: &str) -> (r: Option<usize>)
    ensures
        r is Some <==> is_number(s@) && number_value(s@) <= usize::MAX,
        r is Some ==> r->0 == number_value(s@),
{
    let n: usize = s.unicode_len();
    let start: usize = if n > 0 && s.get_char(0) == '+' {
        1
    } else {
        0
    };
    let ghost digits = unsigned_part(s@);
    assert(digits == s@.skip(start as int));
    if start == n {
        return None;
    }
    let mut value: usize = 0;
    let mut i: usize = start;
    assert(digits.take(0) == Seq::<char>::empty());
    while i < n
        invariant
            n == s@.len(),
            start <= i <= n,
            digits == s@.skip(start as int),
            digits == unsigned_part(s@),
            forall|j: int| 0 <= j < i - start ==> is_digit(#[trigger] digits[j]),
            value == digits_value(digits.take(i - start)),
        decreases n - i,
    {
        let c: char = s.get_char(i);
        assert(c == digits[i - start]);
        if !(c >= '0' && c <= '9') {
            return None;
        }
        let d: usize = (c as u32 - '0' as u32) as usize;
        assert(digits.take(i - start + 1).drop_last() == digits.take(i - start));
        assert(digits.take(i - start + 1).last() == c);
        if value > (usize::MAX - d) / 10 {
            proof {
                lemma_digits_value_grows(digits, i - start + 1);
            }
            return None;
        }
        value = value * 10 + d;
        i = i + 1;
    }
    assert(digits.take(n - start) == digits);
    Some(value)
}

} // verus!
