//! Strings as sequences of characters: trimming, splitting, and decimal numbers.
use vstd::arithmetic::power::{lemma_pow0, pow};
use vstd::prelude::*;

verus! {

/// The characters with the Unicode property White_Space.
pub open spec fn is_whitespace(c: char) -> bool {
    let u = c as u32;
    ||| 0x09 <= u <= 0x0d
    ||| u == 0x20
    ||| u == 0x85
    ||| u == 0xa0
    ||| u == 0x1680
    ||| 0x2000 <= u <= 0x200a
    ||| u == 0x2028
    ||| u == 0x2029
    ||| u == 0x202f
    ||| u == 0x205f
    ||| u == 0x3000
}

/// `s` without the whitespace at its two ends.
pub open spec fn trimmed(s: Seq<char>) -> Seq<char>
    decreases s.len(),
{
    if s.len() > 0 && is_whitespace(s.first()) {
        trimmed(s.drop_first())
    } else if s.len() > 0 && is_whitespace(s.last()) {
        trimmed(s.drop_last())
    } else {
        s
    }
}

/// The pieces of `s` between the occurrences of `sep`: one more than there are
/// separators, so the empty string has one piece, which is empty.
pub open spec fn pieces(s: Seq<char>, sep: char) -> Seq<Seq<char>>
    decreases s.len(),
{
    if s.len() == 0 {
        seq![Seq::<char>::empty()]
    } else {
        let before = pieces(s.drop_last(), sep);
        if s.last() == sep {
            before.push(Seq::empty())
        } else {
            before.drop_last().push(before.last().push(s.last()))
        }
    }
}

/// The contents of a list of strings.
pub open spec fn contents(v: Seq<String>) -> Seq<Seq<char>> {
    Seq::new(v.len(), |i: int| v[i]@)
}

/// The content of an optional string.
pub open spec fn content(s: Option<String>) -> Option<Seq<char>> {
    match s {
        Some(s) => Some(s@),
        None => None,
    }
}

/// The decimal digit of value `d`.
pub open spec fn digit_char(d: int) -> char {
    (('0' as u32) + d) as char
}

/// `n` in decimal, without leading zeros.
pub open spec fn decimal(n: nat) -> Seq<char>
    decreases n,
{
    if n < 10 {
        seq![digit_char(n as int)]
    } else {
        decimal(n / 10).push(digit_char((n % 10) as int))
    }
}

/// `n` in decimal, with a minus sign where it is negative.
pub open spec fn signed_decimal(n: int) -> Seq<char> {
    if n < 0 {
        seq!['-'] + decimal((-n) as nat)
    } else {
        decimal(n as nat)
    }
}

pub open spec fn is_digit(c: char) -> bool {
    '0' <= c <= '9'
}

pub open spec fn all_digits(s: Seq<char>) -> bool {
    forall|i: int| 0 <= i < s.len() ==> is_digit(#[trigger] s[i])
}

/// The value of a string of decimal digits.
pub open spec fn digits_value(s: Seq<char>) -> nat
    decreases s.len(),
{
    if s.len() == 0 {
        0
    } else {
        (10 * digits_value(s.drop_last()) + (s.last() as u32 - '0' as u32)) as nat
    }
}

/// The number that `s` writes: at least one decimal digit and nothing else,
/// but for a plus sign in front.
pub open spec fn number(s: Seq<char>) -> Option<nat> {
    let digits = unsigned(s);
    if digits.len() > 0 && all_digits(digits) {
        Some(digits_value(digits))
    } else {
        None
    }
}

/// The number that `s` writes, where it is at most `max`.
pub open spec fn number_up_to(s: Seq<char>, max: nat) -> Option<nat> {
    match number(s) {
        Some(n) => if n <= max {
            Some(n)
        } else {
            None
        },
        None => None,
    }
}

/// What keeps a string from being a number.
#[derive(Clone, Copy, Debug, PartialEq, Eq, Structural)]
pub enum NumberError {
    /// There is nothing to read.
    Empty,
    /// A character is no digit, or there is no digit behind the sign.
    InvalidDigit,
    /// The number is too large.
    TooLarge,
}

/// The digits of a number: what follows the sign, where there is one.
pub open spec fn unsigned(s: Seq<char>) -> Seq<char> {
    if s.len() > 0 && s.first() == '+' {
        s.drop_first()
    } else {
        s
    }
}

/// The first thing wrong with a string of digits that is read from the left, with
/// values of at most `max`.
pub open spec fn digits_error(digits: Seq<char>, max: nat) -> Option<NumberError>
    decreases digits.len(),
{
    if digits.len() == 0 {
        None
    } else {
        match digits_error(digits.drop_last(), max) {
            Some(e) => Some(e),
            None => if !is_digit(digits.last()) {
                Some(NumberError::InvalidDigit)
            } else if digits_value(digits) > max {
                Some(NumberError::TooLarge)
            } else {
                None
            },
        }
    }
}

/// What keeps `s` from being a number of at most `max`.
pub open spec fn number_error(s: Seq<char>, max: nat) -> Option<NumberError> {
    if s.len() == 0 {
        Some(NumberError::Empty)
    } else if unsigned(s).len() == 0 {
        Some(NumberError::InvalidDigit)
    } else {
        digits_error(unsigned(s), max)
    }
}

/// What is wrong with a number, in words.
pub open spec fn number_error_text(error: NumberError) -> Seq<char> {
    match error {
        NumberError::Empty => "cannot parse integer from empty string"@,
        NumberError::InvalidDigit => "invalid digit found in string"@,
        NumberError::TooLarge => "number too large to fit in target type"@,
    }
}

impl NumberError {
    /// The error in words.
    pub fn message(&self) -> (r: &'static str)
        ensures
            r@ == number_error_text(*self),
    {
        match self {
            NumberError::Empty => "cannot parse integer from empty string",
            NumberError::InvalidDigit => "invalid digit found in string",
            NumberError::TooLarge => "number too large to fit in target type",
        }
    }
}

/// Whether two strings hold the same characters.
pub fn same(a: &str, b: &str) -> (r: bool)
    ensures
        r == (a@ == b@),
{
    a.to_owned() == b.to_owned()
}

/// The characters of a string.
pub fn characters(s: &str) -> (r: Vec<char>)
    ensures
        r@ == s@,
{
    let mut out: Vec<char> = Vec::new();
    for c in it: s.chars()
        invariant
            it.seq() == s@,
            out@ == s@.take(it.index() as int),
    {
        out.push(c);
    }
    out
}

/// Whether `c` is whitespace.
pub fn whitespace(c: char) -> (r: bool)
    ensures
        r == is_whitespace(c),
{
    let u: u32 = c as u32;
    (0x09 <= u && u <= 0x0d) || u == 0x20 || u == 0x85 || u == 0xa0 || u == 0x1680 || (0x2000 <= u
        && u <= 0x200a) || u == 0x2028 || u == 0x2029 || u == 0x202f || u == 0x205f || u == 0x3000
}

/// Cuts the whitespace off both ends.
pub fn trim(s: &str) -> (r: &str)
    ensures
        r@ == trimmed(s@),
{
    let chars = characters(s);
    let mut from: usize = 0;
    let mut to: usize = chars.len();
    assert(s@.subrange(0, to as int) == s@);
    while from < to && whitespace(chars[from])
        invariant
            from <= to == chars.len(),
            chars@ == s@,
            trimmed(s@.subrange(from as int, to as int)) == trimmed(s@),
        decreases to - from,
    {
        assert(s@.subrange(from as int, to as int).drop_first() == s@.subrange(
            from + 1,
            to as int,
        ));
        from = from + 1;
    }
    while from < to && whitespace(chars[to - 1])
        invariant
            from <= to <= chars.len(),
            chars@ == s@,
            from < to ==> !is_whitespace(s@[from as int]),
            trimmed(s@.subrange(from as int, to as int)) == trimmed(s@),
        decreases to - from,
    {
        assert(s@.subrange(from as int, to as int).drop_last() == s@.subrange(
            from as int,
            to - 1,
        ));
        to = to - 1;
    }
    s.substring_char(from, to)
}

/// Cuts a string at every occurrence of `sep`.
pub fn split(s: &str, sep: char) -> (r: Vec<String>)
    ensures
        contents(r@) == pieces(s@, sep),
{
    let chars = characters(s);
    let mut out: Vec<String> = Vec::new();
    let mut start: usize = 0;
    let mut i: usize = 0;
    assert(s@.subrange(0, 0) == Seq::<char>::empty());
    assert(s@.take(0) == Seq::<char>::empty());
    while i < chars.len()
        invariant
            start <= i <= chars.len(),
            chars@ == s@,
            pieces(s@.take(i as int), sep) == contents(out@).push(
                s@.subrange(start as int, i as int),
            ),
        decreases chars.len() - i,
    {
        assert(s@.take(i + 1).drop_last() == s@.take(i as int));
        let ghost before = contents(out@);
        let ghost piece = s@.subrange(start as int, i as int);
        if chars[i] == sep {
            out.push(s.substring_char(start, i).to_owned());
            start = i + 1;
            assert(contents(out@) == before.push(piece));
            assert(s@.subrange(start as int, i + 1) == Seq::<char>::empty());
        } else {
            assert(s@.subrange(start as int, i as int).push(s@[i as int]) == s@.subrange(
                start as int,
                i + 1,
            ));
            assert(before.push(s@.subrange(start as int, i as int)).drop_last() == before);
        }
        i = i + 1;
    }
    assert(s@.take(i as int) == s@);
    let ghost before = contents(out@);
    out.push(s.substring_char(start, i).to_owned());
    assert(contents(out@) == before.push(s@.subrange(start as int, i as int)));
    out
}

/// The decimal digit of value `d`, as a string.
fn digit(d: u64) -> (r: &'static str)
    requires
        d < 10,
    ensures
        r@ == seq![digit_char(d as int)],
{
    proof {
        reveal_strlit("0");
        reveal_strlit("1");
        reveal_strlit("2");
        reveal_strlit("3");
        reveal_strlit("4");
        reveal_strlit("5");
        reveal_strlit("6");
        reveal_strlit("7");
        reveal_strlit("8");
        reveal_strlit("9");
    }
    match d {
        0 => "0",
        1 => "1",
        2 => "2",
        3 => "3",
        4 => "4",
        5 => "5",
        6 => "6",
        7 => "7",
        8 => "8",
        _ => "9",
    }
}

/// Writes a number in decimal.
pub fn render(n: u64) -> (r: String)
    ensures
        r@ == decimal(n as nat),
    decreases n,
{
    if n < 10 {
        digit(n).to_owned()
    } else {
        let mut r = render(n / 10);
        r.append(digit(n % 10));
        assert(r@ == decimal(n as nat / 10).push(digit_char((n % 10) as int)));
        r
    }
}

/// Writes a number in decimal, with its sign where it is negative.
pub fn render_signed(n: i64) -> (r: String)
    ensures
        r@ == signed_decimal(n as int),
{
    if n < 0 {
        let magnitude: u64 = (-(n + 1)) as u64 + 1;
        let mut r = "-".to_owned();
        r.append(render(magnitude).as_str());
        proof {
            reveal_strlit("-");
            assert("-"@ == seq!['-']);
        }
        r
    } else {
        render(n as u64)
    }
}

/// An error in the beginning of a string of digits is the error of the whole.
proof fn lemma_first_error_decides(digits: Seq<char>, max: nat, n: int)
    requires
        0 <= n <= digits.len(),
        digits_error(digits.take(n), max) is Some,
    ensures
        digits_error(digits, max) == digits_error(digits.take(n), max),
    decreases digits.len() - n,
{
    if n == digits.len() {
        assert(digits.take(n) == digits);
    } else {
        assert(digits.take(n + 1).drop_last() == digits.take(n));
        lemma_first_error_decides(digits, max, n + 1);
    }
}

/// A string of digits without an error is one of digits alone, of at most `max`.
proof fn lemma_digits_without_error(digits: Seq<char>, max: nat)
    ensures
        digits_error(digits, max) is None <==> all_digits(digits) && digits_value(digits) <= max,
    decreases digits.len(),
{
    if digits.len() > 0 {
        let init = digits.drop_last();
        lemma_digits_without_error(init, max);
        assert(digits.last() == digits[digits.len() - 1]);
        if all_digits(digits) {
            assert forall|i: int| 0 <= i < init.len() implies is_digit(#[trigger] init[i]) by {
                assert(init[i] == digits[i]);
            }
            assert(is_digit(digits[digits.len() - 1]));
        }
        if all_digits(init) && is_digit(digits.last()) {
            assert forall|i: int| 0 <= i < digits.len() implies is_digit(#[trigger] digits[i]) by {
                if i < init.len() {
                    assert(digits[i] == init[i]);
                }
            }
        }
    }
}

/// A string is a number of at most `max`, or there is an error in it, and not both.
pub proof fn law_a_number_has_no_error(s: Seq<char>, max: nat)
    ensures
        number_up_to(s, max) is Some <==> number_error(s, max) is None,
{
    lemma_digits_without_error(unsigned(s), max);
}

/// Reads a decimal number of at most `max`.
pub fn parse_number(s: &str, max: u64) -> (r: Result<u64, NumberError>)
    ensures
        match r {
            Ok(n) => number_up_to(s@, max as nat) == Some(n as nat),
            Err(e) => number_error(s@, max as nat) == Some(e),
        },
{
    let chars = characters(s);
    if chars.len() == 0 {
        return Err(NumberError::Empty);
    }
    let start: usize = if chars[0] == '+' {
        1
    } else {
        0
    };
    let ghost digits = unsigned(s@);
    assert(digits == s@.skip(start as int));
    if start == chars.len() {
        return Err(NumberError::InvalidDigit);
    }
    let mut value: u64 = 0;
    let mut i: usize = start;
    assert(digits.take(0) == Seq::<char>::empty());
    while i < chars.len()
        invariant
            start <= i <= chars.len(),
            chars@ == s@,
            digits == unsigned(s@),
            digits == s@.skip(start as int),
            digits.len() > 0,
            digits_error(digits.take(i - start), max as nat) is None,
            value == digits_value(digits.take(i - start)),
            value <= max,
        decreases chars.len() - i,
    {
        let c = chars[i];
        let ghost next = digits.take(i - start + 1);
        assert(next.drop_last() == digits.take(i - start));
        assert(next.last() == c);
        if c < '0' || '9' < c {
            proof {
                lemma_first_error_decides(digits, max as nat, i - start + 1);
            }
            return Err(NumberError::InvalidDigit);
        }
        let d: u64 = (c as u32 - '0' as u32) as u64;
        let scaled: u128 = value as u128 * 10 + d as u128;
        assert(scaled == digits_value(next));
        if scaled > max as u128 {
            proof {
                lemma_first_error_decides(digits, max as nat, i - start + 1);
            }
            return Err(NumberError::TooLarge);
        }
        value = scaled as u64;
        i = i + 1;
    }
    proof {
        assert(digits.take(i - start) == digits);
        lemma_digits_without_error(digits, max as nat);
    }
    Ok(value)
}

/// A string without the separator is its own only piece.
pub proof fn lemma_pieces_single(s: Seq<char>, sep: char)
    requires
        !s.contains(sep),
    ensures
        pieces(s, sep) == seq![s],
    decreases s.len(),
{
    if s.len() > 0 {
        let init = s.drop_last();
        assert forall|k: int| 0 <= k < init.len() implies init[k] != sep by {
            assert(s[k] == init[k]);
        }
        lemma_pieces_single(init, sep);
        assert(s.last() == s[s.len() - 1]);
        assert(init.push(s.last()) == s);
        assert(seq![init].drop_last().push(s) == seq![s]);
    } else {
        assert(s == Seq::<char>::empty());
    }
}

/// The pieces of two strings joined by the separator are the pieces of both.
pub proof fn lemma_pieces_join(a: Seq<char>, b: Seq<char>, sep: char)
    ensures
        pieces(a + seq![sep] + b, sep) == pieces(a, sep) + pieces(b, sep),
        pieces(b, sep).len() > 0,
    decreases b.len(),
{
    let joined = a + seq![sep] + b;
    if b.len() == 0 {
        assert(joined.drop_last() == a);
        assert(pieces(a, sep).push(Seq::empty()) == pieces(a, sep) + pieces(b, sep));
    } else {
        let init = b.drop_last();
        lemma_pieces_join(a, init, sep);
        assert(joined.drop_last() == a + seq![sep] + init);
        let before = pieces(a, sep) + pieces(init, sep);
        assert(before.push(Seq::empty()) == pieces(a, sep) + pieces(init, sep).push(Seq::empty()));
        assert(before.drop_last().push(before.last().push(b.last())) == pieces(a, sep) + pieces(
            init,
            sep,
        ).drop_last().push(pieces(init, sep).last().push(b.last())));
    }
}

/// The value of digits is read from the left: each string of digits counts for as many
/// places as there are digits behind it, and a single digit for itself.
pub proof fn law_digits_have_their_places(a: Seq<char>, b: Seq<char>, c: char)
    requires
        all_digits(b),
        is_digit(c),
    ensures
        digits_value(a + b) == digits_value(a) * pow(10, b.len()) + digits_value(b),
        digits_value(seq![c]) == c as u32 - '0' as u32,
        digits_value(Seq::empty()) == 0,
    decreases b.len(),
{
    reveal_with_fuel(digits_value, 2);
    assert(seq![c].drop_last() == Seq::<char>::empty());
    if b.len() == 0 {
        assert(a + b == a);
        lemma_pow0(10);
        assert(digits_value(a) * 1 == digits_value(a)) by (nonlinear_arith);
    } else {
        let init = b.drop_last();
        assert forall|i: int| 0 <= i < init.len() implies is_digit(#[trigger] init[i]) by {
            assert(init[i] == b[i]);
        }
        assert(is_digit(b[b.len() - 1]));
        law_digits_have_their_places(a, init, c);
        assert((a + b).drop_last() == a + init);
        assert((a + b).last() == b.last());
        reveal(pow);
        let n = digits_value(a) as int;
        let p = pow(10, init.len());
        assert(pow(10, b.len()) == 10 * p);
        assert(10 * (n * p) == n * (10 * p)) by (nonlinear_arith);
    }
}

/// A number that is written in decimal is made of digits, does not begin with a zero
/// unless it is one, and is read back as it was, with or without a sign.
pub proof fn law_a_written_number_is_read_back(n: nat)
    ensures
        decimal(n).len() > 0,
        all_digits(decimal(n)),
        n > 0 ==> decimal(n).first() != '0',
        digits_value(decimal(n)) == n,
        number(decimal(n)) == Some(n),
        number(seq!['+'] + decimal(n)) == Some(n),
        signed_decimal(n as int) == decimal(n),
        n > 0 ==> signed_decimal(-(n as int)) == seq!['-'] + decimal(n),
    decreases n,
{
    reveal_with_fuel(digits_value, 2);
    let s = decimal(n);
    let d = (n % 10) as int;
    assert(is_digit(digit_char(d)) && digit_char(d) as u32 - '0' as u32 == d);
    if n < 10 {
        assert(s.drop_last() == Seq::<char>::empty());
        assert(s == seq![digit_char(n as int)]);
    } else {
        law_a_written_number_is_read_back(n / 10);
        assert(s.drop_last() == decimal(n / 10));
        assert(s.first() == decimal(n / 10).first());
        assert forall|i: int| 0 <= i < s.len() implies is_digit(#[trigger] s[i]) by {
            if i < s.len() - 1 {
                assert(s[i] == decimal(n / 10)[i]);
            }
        }
    }
    assert(is_digit(s[0]));
    assert(s.first() == s[0]);
    let signed = seq!['+'] + s;
    assert(signed.drop_first() == s);
}

/// A number is a string of digits with or without a plus sign, and nothing else; and where
/// there is a limit, it is read exactly if it keeps to it.
pub proof fn law_a_number_is_digits(s: Seq<char>, n: nat, max: nat)
    ensures
        number_up_to(s, max) == Some(n) <==> number(s) == Some(n) && n <= max,
        number_up_to(s, max) is None <==> number(s) is None || number(s)->0 > max,
        s.len() > 0 && all_digits(s) ==> number(s) == Some(digits_value(s)),
        s.len() > 0 && all_digits(s) ==> number(seq!['+'] + s) == Some(digits_value(s)),
        number(s) is Some ==> (s.len() > 0 && all_digits(s)) || (s.len() > 1 && s.first() == '+'
            && all_digits(s.drop_first())),
        forall|c: char| is_digit(c) <==> 48 <= #[trigger] (c as u32) <= 57,
{
    if s.len() > 0 && all_digits(s) {
        assert(is_digit(s[0]));
        assert((seq!['+'] + s).drop_first() == s);
    }
}

/// A number is told to be too large where reading its digits first passes the limit, and
/// invalid where a character that is no digit comes first, or none at all behind a sign.
pub proof fn law_the_first_error_in_a_number_is_told(
    before: Seq<char>,
    c: char,
    after: Seq<char>,
    max: nat,
)
    requires
        all_digits(before),
        digits_value(before) <= max,
    ensures
        number_error(Seq::empty(), max) == Some(NumberError::Empty),
        number_error(seq!['+'], max) == Some(NumberError::InvalidDigit),
        !is_digit(c) && (before.len() > 0 || c != '+') ==> number_error(
            before.push(c) + after,
            max,
        ) == Some(NumberError::InvalidDigit),
        !is_digit(c) ==> number_error(seq!['+'] + (before.push(c) + after), max) == Some(
            NumberError::InvalidDigit,
        ),
        is_digit(c) && digits_value(before.push(c)) > max ==> number_error(
            before.push(c) + after,
            max,
        ) == Some(NumberError::TooLarge) && number_error(
            seq!['+'] + (before.push(c) + after),
            max,
        ) == Some(NumberError::TooLarge),
{
    let s = before.push(c) + after;
    let signed = seq!['+'] + s;
    assert(signed.drop_first() == s);
    assert(seq!['+'].drop_first() == Seq::<char>::empty());
    assert(s.take(before.len() as int + 1) == before.push(c));
    assert(before.push(c).drop_last() == before);
    lemma_digits_without_error(before, max);
    if before.len() > 0 {
        assert(is_digit(before[0]));
        assert(s.first() == before[0]);
    } else {
        assert(s.first() == c);
    }
    if !is_digit(c) || digits_value(before.push(c)) > max {
        lemma_first_error_decides(s, max, before.len() as int + 1);
    }
}

/// What is trimmed off a string is whitespace, at its two ends, and what is left has
/// none there.
pub proof fn law_trimming_cuts_off_whitespace(s: Seq<char>) -> (r: (Seq<char>, Seq<char>))
    ensures
        s == r.0 + trimmed(s) + r.1,
        forall|i: int| 0 <= i < r.0.len() ==> is_whitespace(#[trigger] r.0[i]),
        forall|i: int| 0 <= i < r.1.len() ==> is_whitespace(#[trigger] r.1[i]),
        trimmed(s).len() > 0 ==> !is_whitespace(trimmed(s).first()) && !is_whitespace(
            trimmed(s).last(),
        ),
    decreases s.len(),
{
    if s.len() > 0 && is_whitespace(s.first()) {
        let (a, b) = law_trimming_cuts_off_whitespace(s.drop_first());
        let head = seq![s.first()] + a;
        assert(s == seq![s.first()] + s.drop_first());
        assert(s == head + trimmed(s) + b);
        assert forall|i: int| 0 <= i < head.len() implies is_whitespace(#[trigger] head[i]) by {
            if i > 0 {
                assert(head[i] == a[i - 1]);
            }
        }
        (head, b)
    } else if s.len() > 0 && is_whitespace(s.last()) {
        let (a, b) = law_trimming_cuts_off_whitespace(s.drop_last());
        let tail = b.push(s.last());
        assert(s == s.drop_last().push(s.last()));
        assert(s == a + trimmed(s) + tail);
        assert forall|i: int| 0 <= i < tail.len() implies is_whitespace(#[trigger] tail[i]) by {
            if i < b.len() {
                assert(tail[i] == b[i]);
            }
        }
        (a, tail)
    } else {
        assert(s == Seq::<char>::empty() + s + Seq::<char>::empty());
        (Seq::empty(), Seq::empty())
    }
}

/// Whitespace is these characters, and no others: the tabs and line ends, the space, and
/// the spaces and separators of Unicode.
pub proof fn law_the_whitespace_characters(c: char)
    ensures
        is_whitespace(c) <==> {
            let u = c as u32;
            ||| u == 0x9
            ||| u == 0xa
            ||| u == 0xb
            ||| u == 0xc
            ||| u == 0xd
            ||| u == 0x20
            ||| u == 0x85
            ||| u == 0xa0
            ||| u == 0x1680
            ||| u == 0x2000
            ||| u == 0x2001
            ||| u == 0x2002
            ||| u == 0x2003
            ||| u == 0x2004
            ||| u == 0x2005
            ||| u == 0x2006
            ||| u == 0x2007
            ||| u == 0x2008
            ||| u == 0x2009
            ||| u == 0x200a
            ||| u == 0x2028
            ||| u == 0x2029
            ||| u == 0x202f
            ||| u == 0x205f
            ||| u == 0x3000
        },
{
}

} // verus!
