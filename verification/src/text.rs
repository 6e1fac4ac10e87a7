//! Text helpers shared by the string codecs: character access, literal
//! matching, splitting at a separator, and unsigned decimal numbers.
//!
//! Every string is described by its view, the sequence of its characters.

use vstd::prelude::*;
use vstd::string::*;

verus! {

/// Whether `c` is one of the ten ASCII decimal digits.
pub open spec fn is_digit(c: char) -> bool {
    '0' <= c && c <= '9'
}

/// The value of the decimal digit `c`.
pub open spec fn digit_value(c: char) -> nat
    recommends
        is_digit(c),
{
    (c as int - '0' as int) as nat
}

/// The character that stands for the decimal digit `d`.
pub open spec fn digit_char(d: nat) -> char
    recommends
        d < 10,
{
    ('0' as int + d) as char
}

/// Whether every character of `s` is a decimal digit.
pub open spec fn all_digits(s: Seq<char>) -> bool {
    forall|i: int| 0 <= i < s.len() ==> is_digit(#[trigger] s[i])
}

/// The number that the digit string `s` denotes, most significant digit first.
pub open spec fn digits_value(s: Seq<char>) -> nat
    decreases s.len(),
{
    if s.len() == 0 {
        0
    } else {
        digits_value(s.drop_last()) * 10 + digit_value(s.last())
    }
}

/// The shortest decimal notation of `n`: no sign, no leading zero but for `0` itself.
pub open spec fn decimal(n: nat) -> Seq<char>
    decreases n,
{
    if n < 10 {
        seq![digit_char(n)]
    } else {
        decimal(n / 10).push(digit_char(n % 10))
    }
}

/// `n` in decimal, with a `0` in front when it has a single digit.
pub open spec fn decimal_zero_led(n: nat) -> Seq<char> {
    if n < 10 {
        seq!['0'] + decimal(n)
    } else {
        decimal(n)
    }
}

/// Why a text is not an unsigned decimal number of the wanted width.
#[derive(Clone, Copy, Debug, PartialEq, Eq, Hash, Structural)]
pub enum ParseIntError {
    /// The text is empty.
    Empty,
    /// A character is not a decimal digit, or a lone sign has no digit behind it.
    InvalidDigit,
    /// The number is larger than the target type can hold.
    PosOverflow,
}

/// Reads `s` digit by digit from the left, stopping at the first character
/// that is no digit or that takes the number above `max`.
pub open spec fn scan_digits(s: Seq<char>, max: nat) -> Result<nat, ParseIntError>
    decreases s.len(),
{
    if s.len() == 0 {
        Ok(0)
    } else {
        match scan_digits(s.drop_last(), max) {
            Err(e) => Err(e),
            Ok(v) => if !is_digit(s.last()) {
                Err(ParseIntError::InvalidDigit)
            } else if v * 10 + digit_value(s.last()) > max {
                Err(ParseIntError::PosOverflow)
            } else {
                Ok(v * 10 + digit_value(s.last()))
            },
        }
    }
}

/// The number that `s` denotes as an unsigned decimal of at most `max`:
/// an optional `+`, then at least one digit, leading zeros allowed.
pub open spec fn parse_unsigned(s: Seq<char>, max: nat) -> Result<nat, ParseIntError> {
    if s.len() == 0 {
        Err(ParseIntError::Empty)
    } else {
        let digits = if s[0] == '+' {
            s.skip(1)
        } else {
            s
        };
        if digits.len() == 0 {
            Err(ParseIntError::InvalidDigit)
        } else {
            scan_digits(digits, max)
        }
    }
}

/// `parse_unsigned` for a `u32`.
pub open spec fn parse_u32_spec(s: Seq<char>) -> Result<u32, ParseIntError> {
    match parse_unsigned(s, 0xffff_ffff) {
        Ok(v) => Ok(v as u32),
        Err(e) => Err(e),
    }
}

/// `parse_unsigned` for a `u16`.
pub open spec fn parse_u16_spec(s: Seq<char>) -> Result<u16, ParseIntError> {
    match parse_unsigned(s, 0xffff) {
        Ok(v) => Ok(v as u16),
        Err(e) => Err(e),
    }
}

/// `parse_unsigned` for a `u8`.
pub open spec fn parse_u8_spec(s: Seq<char>) -> Result<u8, ParseIntError> {
    match parse_unsigned(s, 0xff) {
        Ok(v) => Ok(v as u8),
        Err(e) => Err(e),
    }
}

/// The index of the first `c` in `s` at or after `from`, or `s.len()` if there is none.
pub open spec fn index_from(s: Seq<char>, c: char, from: int) -> int
    decreases s.len() - from,
{
    if from >= s.len() || s[from] == c {
        from
    } else {
        index_from(s, c, from + 1)
    }
}

/// The index of the first `c` in `s`, or `s.len()` if there is none.
pub open spec fn first_index_of(s: Seq<char>, c: char) -> int {
    index_from(s, c, 0)
}

/// The part of `s` before its first `sep` (all of `s` if it holds none).
pub open spec fn head_token(s: Seq<char>, sep: char) -> Seq<char> {
    s.take(first_index_of(s, sep))
}

/// The part of `s` behind its first `sep`, if it holds one.
pub open spec fn after_token(s: Seq<char>, sep: char) -> Option<Seq<char>> {
    if first_index_of(s, sep) < s.len() {
        Some(s.skip(first_index_of(s, sep) + 1))
    } else {
        None
    }
}

/// The characters of an optional text.
pub open spec fn text_view(t: Option<&str>) -> Option<Seq<char>> {
    match t {
        Some(x) => Some(x@),
        None => None,
    }
}

/// The result of a codec with the value, if there is one, as its view.
pub open spec fn result_view<T: View, X>(r: Result<T, X>) -> Result<T::V, X> {
    match r {
        Ok(v) => Ok(v@),
        Err(e) => Err(e),
    }
}

/// Whether `t` can follow a token: it is empty, or it starts with the separator.
pub open spec fn is_tail(t: Seq<char>, sep: char) -> bool {
    t.len() == 0 || t[0] == sep
}

/// What stands behind the separator that a tail starts with.
pub open spec fn tail_rest(t: Seq<char>) -> Option<Seq<char>> {
    if t.len() == 0 {
        None
    } else {
        Some(t.skip(1))
    }
}

/// The digit characters are the ten characters from `0` to `9`, in order.
pub proof fn lemma_digit_char(d: nat)
    requires
        d < 10,
    ensures
        is_digit(digit_char(d)),
        digit_value(digit_char(d)) == d,
        digit_char(d) != '-',
        digit_char(d) != '+',
{
}

/// A decimal notation is a non-empty string of digits.
pub proof fn lemma_decimal_digits(n: nat)
    ensures
        decimal(n).len() >= 1,
        all_digits(decimal(n)),
    decreases n,
{
    if n < 10 {
        lemma_digit_char(n);
    } else {
        lemma_decimal_digits(n / 10);
        lemma_digit_char(n % 10);
    }
}

/// The decimal notation of `n` denotes `n`.
pub proof fn lemma_decimal_value(n: nat)
    ensures
        digits_value(decimal(n)) == n,
    decreases n,
{
    if n < 10 {
        lemma_digit_char(n);
        let s = decimal(n);
        assert(s.drop_last().len() == 0);
        assert(digits_value(s.drop_last()) == 0);
    } else {
        lemma_decimal_value(n / 10);
        lemma_digit_char(n % 10);
        let s = decimal(n);
        assert(s.drop_last() =~= decimal(n / 10));
    }
}

/// A number below 10 has one digit, one below 100 at most two, and so on up to four.
pub proof fn lemma_decimal_len(n: nat)
    ensures
        n < 10 ==> decimal(n).len() == 1,
        10 <= n < 100 ==> decimal(n).len() == 2,
        100 <= n < 1000 ==> decimal(n).len() == 3,
        1000 <= n < 10000 ==> decimal(n).len() == 4,
        n >= 10000 ==> decimal(n).len() >= 5,
    decreases n,
{
    if n >= 10 {
        lemma_decimal_len(n / 10);
    }
}

/// The digits of a string that scans without error denote what the scan returns.
pub proof fn lemma_scan_digits(s: Seq<char>, max: nat)
    ensures
        scan_digits(s, max) is Ok <==> all_digits(s) && digits_value(s) <= max,
        scan_digits(s, max) is Ok ==> scan_digits(s, max) == Ok::<nat, ParseIntError>(
            digits_value(s),
        ),
    decreases s.len(),
{
    if s.len() > 0 {
        let front = s.drop_last();
        lemma_scan_digits(front, max);
        if all_digits(s) {
            assert forall|i: int| 0 <= i < front.len() implies is_digit(#[trigger] front[i]) by {
                assert(front[i] == s[i]);
            }
            assert(is_digit(s[s.len() - 1]));
        }
        if all_digits(front) && is_digit(s.last()) {
            assert forall|i: int| 0 <= i < s.len() implies is_digit(#[trigger] s[i]) by {
                if i < front.len() {
                    assert(front[i] == s[i]);
                }
            }
        }
    }
}

/// Once a scan has failed on a prefix, it fails in the same way on the whole string.
pub proof fn lemma_scan_digits_error_stays(s: Seq<char>, k: int, max: nat)
    requires
        0 <= k <= s.len(),
        scan_digits(s.take(k), max) is Err,
    ensures
        scan_digits(s, max) == scan_digits(s.take(k), max),
    decreases s.len() - k,
{
    if k < s.len() {
        assert(s.take(k + 1).drop_last() =~= s.take(k));
        lemma_scan_digits_error_stays(s, k + 1, max);
    } else {
        assert(s.take(k) =~= s);
    }
}

/// The decimal notation of a number that fits is read back as that number.
pub proof fn lemma_parse_decimal(n: nat, max: nat)
    requires
        n <= max,
    ensures
        parse_unsigned(decimal(n), max) == Ok::<nat, ParseIntError>(n),
{
    lemma_decimal_digits(n);
    lemma_decimal_value(n);
    lemma_scan_digits(decimal(n), max);
    assert(is_digit(decimal(n)[0]));
}

/// The two-character notation of a number that fits is read back as that number.
pub proof fn lemma_parse_decimal_zero_led(n: nat, max: nat)
    requires
        n <= max,
    ensures
        parse_unsigned(decimal_zero_led(n), max) == Ok::<nat, ParseIntError>(n),
{
    if n < 10 {
        lemma_digit_char(n);
        let s = decimal_zero_led(n);
        assert(s =~= seq!['0', digit_char(n)]);
        assert(s.drop_last() =~= seq!['0']);
        assert(s.drop_last().drop_last() =~= Seq::<char>::empty());
        reveal_with_fuel(scan_digits, 3);
    } else {
        lemma_parse_decimal(n, max);
    }
}

/// Where the first `c` at or after `from` is found.
pub proof fn lemma_index_from(s: Seq<char>, c: char, from: int, at: int)
    requires
        0 <= from <= at <= s.len(),
        forall|j: int| from <= j < at ==> s[j] != c,
        at == s.len() || s[at] == c,
    ensures
        index_from(s, c, from) == at,
    decreases at - from,
{
    if from < at {
        lemma_index_from(s, c, from + 1, at);
    }
}

/// A string without the separator is its own head token, with nothing behind it.
pub proof fn lemma_token_whole(s: Seq<char>, sep: char)
    requires
        !s.contains(sep),
    ensures
        head_token(s, sep) == s,
        after_token(s, sep) is None,
{
    assert forall|j: int| 0 <= j < s.len() implies s[j] != sep by {
        assert(s.contains(s[j]));
    }
    lemma_index_from(s, sep, 0, s.len() as int);
    assert(s.take(s.len() as int) =~= s);
}

/// Splitting `a + [sep] + b` where `a` is free of the separator gives `a` and `b`.
pub proof fn lemma_token_joined(a: Seq<char>, sep: char, b: Seq<char>)
    requires
        !a.contains(sep),
    ensures
        head_token(a + seq![sep] + b, sep) == a,
        after_token(a + seq![sep] + b, sep) == Some(b),
{
    let s = a + seq![sep] + b;
    assert forall|j: int| 0 <= j < a.len() implies s[j] != sep by {
        assert(s[j] == a[j]);
        assert(a.contains(a[j]));
    }
    assert(s[a.len() as int] == sep);
    lemma_index_from(s, sep, 0, a.len() as int);
    assert(s.take(a.len() as int) =~= a);
    assert(s.skip(a.len() as int + 1) =~= b);
}

/// Splitting a token with a tail behind it gives the token and what the tail holds.
pub proof fn lemma_token_front(token: Seq<char>, sep: char, tail: Seq<char>)
    requires
        !token.contains(sep),
        is_tail(tail, sep),
    ensures
        head_token(token + tail, sep) == token,
        after_token(token + tail, sep) == tail_rest(tail),
{
    if tail.len() == 0 {
        assert(token + tail =~= token);
        lemma_token_whole(token, sep);
    } else {
        assert(token + tail =~= token + seq![sep] + tail.skip(1));
        lemma_token_joined(token, sep, tail.skip(1));
    }
}

/// A decimal notation holds neither sign nor separator.
pub proof fn lemma_decimal_plain(n: nat)
    ensures
        !decimal(n).contains('-'),
        !decimal(n).contains('+'),
{
    lemma_decimal_digits(n);
    let s = decimal(n);
    if s.contains('-') {
        let i = choose|i: int| 0 <= i < s.len() && s[i] == '-';
        assert(is_digit(s[i]));
    }
    if s.contains('+') {
        let i = choose|i: int| 0 <= i < s.len() && s[i] == '+';
        assert(is_digit(s[i]));
    }
}

/// The characters of `s`, in order.
pub fn chars_of(s: &str) -> (v: Vec<char>)
    ensures
        v@ == s@,
{
    let mut v: Vec<char> = Vec::new();
    for c in it: s.chars()
        invariant
            v@ == it.seq().take(it.index() as int),
            it.seq() == s@,
    {
        v.push(c);
    }
    v
}

/// Whether `chars` spells the text `lit`.
pub fn spells(chars: &Vec<char>, lit: &str) -> (r: bool)
    ensures
        r == (chars@ == lit@),
{
    let other = chars_of(lit);
    if chars.len() != other.len() {
        return false;
    }
    let mut i: usize = 0;
    while i < chars.len()
        invariant
            i <= chars.len(),
            chars.len() == other.len(),
            other@ == lit@,
            forall|j: int| 0 <= j < i ==> chars@[j] == other@[j],
        decreases chars.len() - i,
    {
        if chars[i] != other[i] {
            return false;
        }
        i += 1;
    }
    assert(chars@ =~= other@);
    true
}

/// Whether `s` begins with `prefix`.
pub fn starts_with(s: &str, prefix: &str) -> (r: bool)
    ensures
        r == prefix@.is_prefix_of(s@),
{
    let x = chars_of(s);
    let p = chars_of(prefix);
    if p.len() > x.len() {
        return false;
    }
    let mut i: usize = 0;
    while i < p.len()
        invariant
            i <= p.len() <= x.len(),
            x@ == s@,
            p@ == prefix@,
            forall|j: int| 0 <= j < i ==> x@[j] == p@[j],
        decreases p.len() - i,
    {
        if x[i] != p[i] {
            assert(x@.subrange(0, p@.len() as int)[i as int] != p@[i as int]);
            return false;
        }
        i += 1;
    }
    assert(x@.subrange(0, p@.len() as int) =~= p@);
    true
}

/// The number of characters of `s`.
pub fn char_count(s: &str) -> (n: usize)
    ensures
        n == s@.len(),
{
    s.unicode_len()
}

/// What is left of `s` once its first `n` characters are dropped.
pub fn text_after(s: &str, n: usize) -> (r: &str)
    requires
        n <= s@.len(),
    ensures
        r@ == s@.skip(n as int),
{
    let len = s.unicode_len();
    s.substring_char(n, len)
}

/// Splits `s` at its first `sep`: the text before it, and the text behind it if `sep` occurs.
pub fn split_first(s: &str, sep: char) -> (r: (&str, Option<&str>))
    ensures
        r.0@ == head_token(s@, sep),
        text_view(r.1) == after_token(s@, sep),
{
    let chars = chars_of(s);
    let n = chars.len();
    let mut i: usize = 0;
    while i < n && chars[i] != sep
        invariant
            i <= n,
            n == chars@.len(),
            forall|j: int| 0 <= j < i ==> chars@[j] != sep,
        decreases n - i,
    {
        i += 1;
    }
    proof {
        lemma_index_from(s@, sep, 0, i as int);
    }
    let head = s.substring_char(0, i);
    if i < n {
        let rest = s.substring_char(i + 1, n);
        (head, Some(rest))
    } else {
        (head, None)
    }
}

/// Reads `s` as an unsigned decimal number of at most `max`.
pub fn parse_bounded(s: &str, max: u64) -> (r: Result<u64, ParseIntError>)
    ensures
        match r {
            Ok(v) => parse_unsigned(s@, max as nat) == Ok::<nat, ParseIntError>(v as nat),
            Err(e) => parse_unsigned(s@, max as nat) == Err::<nat, ParseIntError>(e),
        },
{
    let chars = chars_of(s);
    let n = chars.len();
    if n == 0 {
        return Err(ParseIntError::Empty);
    }
    let start: usize = if chars[0] == '+' {
        1
    } else {
        0
    };
    if start == n {
        return Err(ParseIntError::InvalidDigit);
    }
    let ghost digits = chars@.skip(start as int);
    let mut acc: u64 = 0;
    let mut i: usize = start;
    assert(digits.take(0).len() == 0);
    while i < n
        invariant
            start <= i <= n,
            n == chars@.len(),
            n > 0,
            chars@ == s@,
            start == (if s@[0] == '+' {
                1int
            } else {
                0int
            }),
            digits == chars@.skip(start as int),
            acc <= max,
            scan_digits(digits.take(i - start), max as nat) == Ok::<nat, ParseIntError>(
                acc as nat,
            ),
        decreases n - i,
    {
        let c = chars[i];
        proof {
            let longer = digits.take(i - start + 1);
            assert(longer.drop_last() =~= digits.take(i - start));
            assert(longer.last() == c);
        }
        if !(c >= '0' && c <= '9') {
            proof {
                lemma_scan_digits_error_stays(digits, i - start + 1, max as nat);
                assert(start == 0 ==> digits =~= s@);
            }
            return Err(ParseIntError::InvalidDigit);
        }
        let d: u64 = c as u64 - '0' as u64;
        if acc > max / 10 || (acc == max / 10 && d > max % 10) {
            proof {
                lemma_scan_digits_error_stays(digits, i - start + 1, max as nat);
                assert(start == 0 ==> digits =~= s@);
            }
            return Err(ParseIntError::PosOverflow);
        }
        acc = acc * 10 + d;
        i += 1;
    }
    assert(digits.take(n - start) =~= digits);
    assert(start == 0 ==> digits =~= s@);
    Ok(acc)
}

/// Reads `s` as a `u32` in decimal.
pub fn parse_u32(s: &str) -> (r: Result<u32, ParseIntError>)
    ensures
        r == parse_u32_spec(s@),
{
    match parse_bounded(s, 0xffff_ffff) {
        Ok(v) => Ok(v as u32),
        Err(e) => Err(e),
    }
}

/// Reads `s` as a `u16` in decimal.
pub fn parse_u16(s: &str) -> (r: Result<u16, ParseIntError>)
    ensures
        r == parse_u16_spec(s@),
{
    match parse_bounded(s, 0xffff) {
        Ok(v) => Ok(v as u16),
        Err(e) => Err(e),
    }
}

/// Reads `s` as a `u8` in decimal.
pub fn parse_u8(s: &str) -> (r: Result<u8, ParseIntError>)
    ensures
        r == parse_u8_spec(s@),
{
    match parse_bounded(s, 0xff) {
        Ok(v) => Ok(v as u8),
        Err(e) => Err(e),
    }
}

/// The one-character text of the decimal digit `d`.
fn digit_text(d: u64) -> (r: &'static str)
    requires
        d < 10,
    ensures
        r@ == seq![digit_char(d as nat)],
{
    proof {
        reveal_strlit("0");
        reveal_strlit("1");
        reveal_strlit("2");
        reveal_strlit("3");
        reveal_strlit("4");
        reveal_strlit("5");
        reveal_strlit("6");
        reveal_strlit("7");
        reveal_strlit("8");
        reveal_strlit("9");
    }
    let r = if d == 0 {
        "0"
    } else if d == 1 {
        "1"
    } else if d == 2 {
        "2"
    } else if d == 3 {
        "3"
    } else if d == 4 {
        "4"
    } else if d == 5 {
        "5"
    } else if d == 6 {
        "6"
    } else if d == 7 {
        "7"
    } else if d == 8 {
        "8"
    } else {
        "9"
    };
    assert(r@ =~= seq![digit_char(d as nat)]);
    r
}

/// Writes `n` in decimal.
pub fn format_decimal(n: u64) -> (r: String)
    ensures
        r@ == decimal(n as nat),
    decreases n,
{
    if n < 10 {
        String::from_str(digit_text(n))
    } else {
        let front = format_decimal(n / 10);
        let r = front.concat(digit_text(n % 10));
        assert(r@ =~= decimal(n as nat));
        r
    }
}

/// Writes `n` in decimal, at least two characters wide, filled with `0` on the left.
pub fn format_zero_led(n: u64) -> (r: String)
    ensures
        r@ == decimal_zero_led(n as nat),
{
    if n < 10 {
        proof {
            reveal_strlit("0");
        }
        let r = String::from_str("0").concat(digit_text(n));
        assert(r@ =~= decimal_zero_led(n as nat));
        r
    } else {
        format_decimal(n)
    }
}

impl ParseIntError {
    /// The message of this error.
    pub open spec fn message(self) -> Seq<char> {
        match self {
            ParseIntError::Empty => "cannot parse integer from empty string"@,
            ParseIntError::InvalidDigit => "invalid digit found in string"@,
            ParseIntError::PosOverflow => "number too large to fit in target type"@,
        }
    }

    /// Renders the message of this error.
    pub fn to_string(&self) -> (r: String)
        ensures
            r@ == self.message(),
    {
        match self {
            ParseIntError::Empty => String::from_str("cannot parse integer from empty string"),
            ParseIntError::InvalidDigit => String::from_str("invalid digit found in string"),
            ParseIntError::PosOverflow => String::from_str(
                "number too large to fit in target type",
            ),
        }
    }
}

} // verus!
