//! Text: numbers written and read, joining, trimming and comparing.
use vstd::prelude::*;
use vstd::string::*;

verus! {

/// The digits, in order of their values, up to base sixteen.
pub open spec fn digits() -> Seq<char> {
    seq!['0', '1', '2', '3', '4', '5', '6', '7', '8', '9', 'a', 'b', 'c', 'd', 'e', 'f']
}

/// The decimal digits of a number, without leading zeros.
pub open spec fn decimal(n: nat) -> Seq<char>
    decreases n,
{
    if n < 10 {
        seq![digits()[n as int]]
    } else {
        decimal(n / 10).push(digits()[(n % 10) as int])
    }
}

/// The lowest `width` hexadecimal digits of a number.
pub open spec fn hex_digits(n: nat, width: nat) -> Seq<char>
    decreases width,
{
    if width == 0 {
        Seq::empty()
    } else {
        hex_digits(n / 16, (width - 1) as nat).push(digits()[(n % 16) as int])
    }
}

/// The text of one digit.
fn digit_text(d: u8) -> (r: &'static str)
    requires
        d < 16,
    ensures
        r@ == seq![digits()[d as int]],
{
    let r = if d == 0 {
        proof {
            reveal_strlit("0");
        }
        "0"
    } else if d == 1 {
        proof {
            reveal_strlit("1");
        }
        "1"
    } else if d == 2 {
        proof {
            reveal_strlit("2");
        }
        "2"
    } else if d == 3 {
        proof {
            reveal_strlit("3");
        }
        "3"
    } else if d == 4 {
        proof {
            reveal_strlit("4");
        }
        "4"
    } else if d == 5 {
        proof {
            reveal_strlit("5");
        }
        "5"
    } else if d == 6 {
        proof {
            reveal_strlit("6");
        }
        "6"
    } else if d == 7 {
        proof {
            reveal_strlit("7");
        }
        "7"
    } else if d == 8 {
        proof {
            reveal_strlit("8");
        }
        "8"
    } else if d == 9 {
        proof {
            reveal_strlit("9");
        }
        "9"
    } else if d == 10 {
        proof {
            reveal_strlit("a");
        }
        "a"
    } else if d == 11 {
        proof {
            reveal_strlit("b");
        }
        "b"
    } else if d == 12 {
        proof {
            reveal_strlit("c");
        }
        "c"
    } else if d == 13 {
        proof {
            reveal_strlit("d");
        }
        "d"
    } else if d == 14 {
        proof {
            reveal_strlit("e");
        }
        "e"
    } else {
        proof {
            reveal_strlit("f");
        }
        "f"
    };
    assert(r@ =~= seq![digits()[d as int]]);
    r
}

/// Appends a number in decimal.
pub fn append_decimal(out: &mut String, n: u64)
    ensures
        final(out)@ == old(out)@ + decimal(n as nat),
    decreases n,
{
    if n >= 10 {
        append_decimal(out, n / 10);
    }
    let last = digit_text((n % 10) as u8);
    out.append(last);
    assert(out@ =~= old(out)@ + decimal(n as nat));
}

/// A number in decimal.
pub fn decimal_text(n: u64) -> (r: String)
    ensures
        r@ == decimal(n as nat),
{
    let mut r = String::new();
    append_decimal(&mut r, n);
    assert(r@ =~= decimal(n as nat));
    r
}

/// Appends the eight hexadecimal digits of a number.
pub fn append_hex8(out: &mut String, n: u32)
    ensures
        final(out)@ == old(out)@ + hex_digits(n as nat, 8),
{
    let mut width: u32 = 0;
    let ghost before = out@;
    while width < 8
        invariant
            width <= 8,
            out@ == before + hex_digits(hex_head(n as nat, (8 - width) as nat), width as nat),
        decreases 8 - width,
    {
        let ghost rest = (8 - width) as nat;
        proof {
            hex_head_step(n as nat, (rest - 1) as nat);
        }
        let d: u8 = hex_digit_at(n, 7 - width);
        let digit = digit_text(d);
        out.append(digit);
        width = width + 1;
        assert(out@ =~= before + hex_digits(hex_head(n as nat, (8 - width) as nat), width as nat));
    }
}

/// A number without its lowest `count` hexadecimal digits.
pub open spec fn hex_head(n: nat, count: nat) -> nat
    decreases count,
{
    if count == 0 {
        n
    } else {
        hex_head(n / 16, (count - 1) as nat)
    }
}

proof fn hex_head_step(n: nat, count: nat)
    ensures
        hex_head(n, count + 1) == hex_head(n, count) / 16,
    decreases count,
{
    reveal_with_fuel(hex_head, 2);
    if count > 0 {
        hex_head_step(n / 16, (count - 1) as nat);
    }
}

fn hex_digit_at(n: u32, at: u32) -> (r: u8)
    requires
        at < 8,
    ensures
        r < 16,
        r == hex_head(n as nat, at as nat) % 16,
    decreases at,
{
    if at == 0 {
        (n % 16) as u8
    } else {
        hex_digit_at(n / 16, at - 1)
    }
}

/// Decides whether two texts are the same.
pub fn text_equal(a: &str, b: &str) -> (r: bool)
    ensures
        r == (a@ == b@),
{
    let a = a.to_owned();
    let b = b.to_owned();
    a == b
}

/// The characters of a text.
pub fn characters(text: &str) -> (r: Vec<char>)
    ensures
        r@ == text@,
{
    let mut r: Vec<char> = Vec::new();
    for c in it: text.chars()
        invariant
            r@ == it.seq().take(it.index()),
    {
        r.push(c);
        assert(r@ =~= it.seq().take(it.index() + 1));
    }
    assert(r@ =~= text@);
    r
}

/// Why a text is not a number.
#[derive(Debug, Clone, Copy, PartialEq, Eq, Structural)]
pub enum NumberError {
    /// There is nothing to read.
    Empty,
    /// A character is not a digit.
    InvalidDigit,
    /// The number does not fit its type.
    TooLarge,
}

impl NumberError {
    /// The error in words.
    pub open spec fn words(self) -> Seq<char> {
        match self {
            NumberError::Empty => "cannot parse integer from empty string"@,
            NumberError::InvalidDigit => "invalid digit found in string"@,
            NumberError::TooLarge => "number too large to fit in target type"@,
        }
    }

    /// The error in words.
    pub fn message(self) -> (r: &'static str)
        ensures
            r@ == self.words(),
    {
        match self {
            NumberError::Empty => "cannot parse integer from empty string",
            NumberError::InvalidDigit => "invalid digit found in string",
            NumberError::TooLarge => "number too large to fit in target type",
        }
    }
}

/// The value of a digit, in either case of letters.
pub open spec fn digit_value(c: char) -> Option<nat> {
    if '0' <= c <= '9' {
        Some((c as u32 - 48) as nat)
    } else if 'a' <= c <= 'f' {
        Some((c as u32 - 87) as nat)
    } else if 'A' <= c <= 'F' {
        Some((c as u32 - 55) as nat)
    } else {
        None
    }
}

/// Digits read from the left in some base, up to the first that is none or that makes the number
/// too large.
pub open spec fn read_digits(chars: Seq<char>, base: nat, max: nat) -> Result<nat, NumberError>
    decreases chars.len(),
{
    if chars.len() == 0 {
        Ok(0)
    } else {
        match read_digits(chars.drop_last(), base, max) {
            Err(error) => Err(error),
            Ok(value) => match digit_value(chars.last()) {
                None => Err(NumberError::InvalidDigit),
                Some(d) => if d >= base {
                    Err(NumberError::InvalidDigit)
                } else if value * base + d > max {
                    Err(NumberError::TooLarge)
                } else {
                    Ok(value * base + d)
                },
            },
        }
    }
}

/// A number read in some base, with an optional plus sign before it.
pub open spec fn read_number(chars: Seq<char>, base: nat, max: nat) -> Result<nat, NumberError> {
    if chars.len() == 0 {
        Err(NumberError::Empty)
    } else if chars[0] == '+' {
        if chars.len() == 1 {
            Err(NumberError::InvalidDigit)
        } else {
            read_digits(chars.skip(1), base, max)
        }
    } else {
        read_digits(chars, base, max)
    }
}

fn value_of_digit(c: char) -> (r: Option<u64>)
    ensures
        match digit_value(c) {
            Some(d) => r == Some(d as u64) && d < 16,
            None => r is None,
        },
{
    if '0' <= c && c <= '9' {
        Some(c as u64 - 48)
    } else if 'a' <= c && c <= 'f' {
        Some(c as u64 - 87)
    } else if 'A' <= c && c <= 'F' {
        Some(c as u64 - 55)
    } else {
        None
    }
}

/// Reads a number in some base, with an optional plus sign before it.
pub fn parse_number(chars: &[char], base: u64, max: u64) -> (r: Result<u64, NumberError>)
    requires
        2 <= base <= 16,
    ensures
        match read_number(chars@, base as nat, max as nat) {
            Ok(value) => r == Ok::<u64, NumberError>(value as u64) && value <= max,
            Err(error) => r == Err::<u64, NumberError>(error),
        },
{
    if chars.len() == 0 {
        return Err(NumberError::Empty);
    }
    let start: usize = if chars[0] == '+' {
        1
    } else {
        0
    };
    if start == 1 && chars.len() == 1 {
        return Err(NumberError::InvalidDigit);
    }
    let ghost digits = chars@.skip(start as int);
    assert(start == 0 ==> digits =~= chars@);
    let mut value: u64 = 0;
    let mut i: usize = start;
    assert(digits.take(0) =~= Seq::empty());
    while i < chars.len()
        invariant
            start <= i <= chars@.len(),
            start <= 1,
            digits == chars@.skip(start as int),
            value <= max,
            2 <= base <= 16,
            read_digits(digits.take(i - start), base as nat, max as nat) == Ok::<nat, NumberError>(
                value as nat,
            ),
            read_number(chars@, base as nat, max as nat) == read_digits(
                digits,
                base as nat,
                max as nat,
            ),
        decreases chars@.len() - i,
    {
        let ghost more = digits.take(i + 1 - start);
        proof {
            assert(more.drop_last() =~= digits.take(i - start));
            assert(more.last() == chars@[i as int]);
        }
        let d: u64 = match value_of_digit(chars[i]) {
            Some(d) => d,
            None => {
                proof {
                    error_stays(digits, i + 1 - start, base as nat, max as nat);
                }
                return Err(NumberError::InvalidDigit);
            },
        };
        if d >= base {
            proof {
                error_stays(digits, i + 1 - start, base as nat, max as nat);
            }
            return Err(NumberError::InvalidDigit);
        }
        let next = match value.checked_mul(base) {
            Some(product) => product.checked_add(d),
            None => None,
        };
        match next {
            Some(next) => {
                if next > max {
                    proof {
                        error_stays(digits, i + 1 - start, base as nat, max as nat);
                    }
                    return Err(NumberError::TooLarge);
                }
                value = next;
            },
            None => {
                proof {
                    error_stays(digits, i + 1 - start, base as nat, max as nat);
                }
                return Err(NumberError::TooLarge);
            },
        }
        i = i + 1;
    }
    assert(digits.take(i - start) =~= digits);
    Ok(value)
}

/// An error at some digit is the error of the whole number.
proof fn error_stays(chars: Seq<char>, at: int, base: nat, max: nat)
    requires
        0 <= at <= chars.len(),
        read_digits(chars.take(at), base, max) is Err,
    ensures
        read_digits(chars, base, max) == read_digits(chars.take(at), base, max),
    decreases chars.len() - at,
{
    if at < chars.len() {
        assert(chars.take(at + 1).drop_last() =~= chars.take(at));
        error_stays(chars, at + 1, base, max);
    } else {
        assert(chars.take(at) =~= chars);
    }
}

/// Reading back a number written in decimal gives the number, as long as it fits.
pub proof fn decimal_reads_back(n: nat, max: nat)
    requires
        n <= max,
    ensures
        read_digits(decimal(n), 10, max) == Ok::<nat, NumberError>(n),
        read_number(decimal(n), 10, max) == Ok::<nat, NumberError>(n),
        decimal(n).len() > 0,
    decreases n,
{
    reveal_with_fuel(read_digits, 2);
    if n < 10 {
        assert(decimal(n).drop_last() =~= Seq::empty());
    } else {
        decimal_reads_back(n / 10, max);
        assert(decimal(n).drop_last() =~= decimal(n / 10));
    }
    decimal_is_digits(n);
}

/// How many values a number of `width` hexadecimal digits can take.
pub open spec fn hex_range(width: nat) -> nat
    decreases width,
{
    if width == 0 {
        1
    } else {
        16 * hex_range((width - 1) as nat)
    }
}

/// Reading back a number written in hexadecimal gives the number, as long as it fits.
pub proof fn hex_reads_back(n: nat, width: nat, max: nat)
    requires
        n <= max,
        n < hex_range(width),
    ensures
        read_digits(hex_digits(n, width), 16, max) == Ok::<nat, NumberError>(n),
    decreases width,
{
    if width > 0 {
        hex_reads_back(n / 16, (width - 1) as nat, max);
        assert(hex_digits(n, width).drop_last() =~= hex_digits(n / 16, (width - 1) as nat));
    }
}

/// A number in decimal is made of decimal digits.
pub proof fn decimal_is_digits(n: nat)
    ensures
        decimal(n).len() > 0,
        forall|i: int| 0 <= i < decimal(n).len() ==> '0' <= #[trigger] decimal(n)[i] <= '9',
    decreases n,
{
    if n >= 10 {
        decimal_is_digits(n / 10);
    }
}

/// White space, as Unicode has it.
pub open spec fn is_space(c: char) -> bool {
    let u = c as u32;
    9 <= u <= 13 || u == 0x20 || u == 0x85 || u == 0xa0 || u == 0x1680 || 0x2000 <= u <= 0x200a || u
        == 0x2028 || u == 0x2029 || u == 0x202f || u == 0x205f || u == 0x3000
}

/// Decides whether a character is white space.
pub fn is_space_char(c: char) -> (r: bool)
    ensures
        r == is_space(c),
{
    let u: u32 = c as u32;
    (9 <= u && u <= 13) || u == 0x20 || u == 0x85 || u == 0xa0 || u == 0x1680 || (0x2000 <= u && u
        <= 0x200a) || u == 0x2028 || u == 0x2029 || u == 0x202f || u == 0x205f || u == 0x3000
}

/// A text without the white space before it.
pub open spec fn trim_start(chars: Seq<char>) -> Seq<char>
    decreases chars.len(),
{
    if chars.len() > 0 && is_space(chars[0]) {
        trim_start(chars.skip(1))
    } else {
        chars
    }
}

/// A text without the white space behind it.
pub open spec fn trim_end(chars: Seq<char>) -> Seq<char>
    decreases chars.len(),
{
    if chars.len() > 0 && is_space(chars.last()) {
        trim_end(chars.drop_last())
    } else {
        chars
    }
}

/// A text without the white space around it.
pub open spec fn trimmed(chars: Seq<char>) -> Seq<char> {
    trim_end(trim_start(chars))
}

/// Takes the white space off both ends of a text.
pub fn trim_chars(chars: &[char]) -> (r: &[char])
    ensures
        r@ == trimmed(chars@),
{
    let mut start: usize = 0;
    assert(chars@.skip(0) =~= chars@);
    while start < chars.len() && is_space_char(chars[start])
        invariant
            start <= chars@.len(),
            trim_start(chars@) == trim_start(chars@.skip(start as int)),
        decreases chars@.len() - start,
    {
        assert(chars@.skip(start as int).skip(1) =~= chars@.skip(start + 1));
        start = start + 1;
    }
    assert(trim_start(chars@) == chars@.skip(start as int));
    let mut end: usize = chars.len();
    assert(chars@.subrange(start as int, end as int) =~= chars@.skip(start as int));
    while end > start && is_space_char(chars[end - 1])
        invariant
            start <= end <= chars@.len(),
            trimmed(chars@) == trim_end(chars@.subrange(start as int, end as int)),
        decreases end,
    {
        assert(chars@.subrange(start as int, end as int).drop_last() =~= chars@.subrange(
            start as int,
            end - 1,
        ));
        end = end - 1;
    }
    vstd::slice::slice_subrange(chars, start, end)
}

/// What a number in decimal, or in hexadecimal behind `0x`, amounts to.
pub open spec fn auto_number(chars: Seq<char>) -> Result<nat, NumberError> {
    let inner = trimmed(chars);
    if inner.len() >= 2 && inner[0] == '0' && (inner[1] == 'x' || inner[1] == 'X') {
        read_number(inner.skip(2), 16, u32::MAX as nat)
    } else {
        read_number(inner, 10, u32::MAX as nat)
    }
}

/// Reads a number in decimal, or in hexadecimal behind `0x`, with white space around it.
pub fn parse_u32_auto(value: &str) -> (r: Result<u32, String>)
    ensures
        match auto_number(value@) {
            Ok(number) => r == Ok::<u32, String>(number as u32) && number <= u32::MAX,
            Err(error) => r matches Err(text) && text@ == error.words(),
        },
{
    let chars = characters(value);
    let inner = trim_chars(chars.as_slice());
    let parsed = if inner.len() >= 2 && inner[0] == '0' && (inner[1] == 'x' || inner[1] == 'X') {
        let rest = vstd::slice::slice_subrange(inner, 2, inner.len());
        assert(rest@ =~= inner@.skip(2));
        parse_number(rest, 16, u32::MAX as u64)
    } else {
        parse_number(inner, 10, u32::MAX as u64)
    };
    match parsed {
        Ok(number) => Ok(number as u32),
        Err(error) => Err(error.message().to_owned()),
    }
}

/// A letter in lower case; anything else as it is.
pub open spec fn lower(c: char) -> char {
    if 'A' <= c && c <= 'Z' {
        (c as u8 + 32) as char
    } else {
        c
    }
}

/// A text in lower case.
pub open spec fn lowered(text: Seq<char>) -> Seq<char> {
    text.map_values(|c: char| lower(c))
}

/// A letter in lower case; anything else as it is.
pub fn lower_char(c: char) -> (r: char)
    ensures
        r == lower(c),
{
    if 'A' <= c && c <= 'Z' {
        let code: u8 = c as u8;
        (code + 32) as char
    } else {
        c
    }
}

/// Decides whether two texts are the same but for the case of their letters.
pub fn equal_ignoring_case(a: &str, b: &str) -> (r: bool)
    ensures
        r == (lowered(a@) == lowered(b@)),
{
    let left = characters(a);
    let right = characters(b);
    if left.len() != right.len() {
        assert(lowered(a@).len() != lowered(b@).len());
        return false;
    }
    let mut i: usize = 0;
    while i < left.len()
        invariant
            i <= left@.len(),
            left@.len() == right@.len(),
            left@ == a@,
            right@ == b@,
            forall|k: int| 0 <= k < i ==> lower(#[trigger] left@[k]) == lower(right@[k]),
        decreases left@.len() - i,
    {
        if lower_char(left[i]) != lower_char(right[i]) {
            assert(lowered(a@)[i as int] != lowered(b@)[i as int]);
            return false;
        }
        i = i + 1;
    }
    assert(lowered(a@) =~= lowered(b@));
    true
}

/// Calls `String::from_iter` on characters.
///
/// Claimed of it: the text holds the characters, in order.
#[verifier::external_body]
pub(crate) fn text_of(chars: &[char]) -> (r: String)
    ensures
        r@ == chars@,
{
    String::from_iter(chars)
}

/// Calls `std::str::from_utf8`.
///
/// Claimed of it: it succeeds on valid UTF-8, and on nothing else, and the text is what the bytes
/// encode.
#[verifier::external_body]
pub(crate) fn utf8_text(bytes: &[u8]) -> (r: Option<&str>)
    ensures
        r is Some <==> vstd::utf8::valid_utf8(bytes@),
        r matches Some(text) ==> text@ == vstd::utf8::decode_utf8(bytes@),
{
    std::str::from_utf8(bytes).ok()
}

/// A number is read as it is written, in decimals or behind a mark in hexadecimals.
pub proof fn numbers_are_read_either_way(chars: Seq<char>, n: nat, mark: char)
    requires
        n <= u32::MAX,
        mark == 'x' || mark == 'X',
    ensures
        trimmed(chars) == decimal(n) ==> auto_number(chars) == Ok::<nat, NumberError>(n),
        n < hex_range(8) && trimmed(chars) == seq!['0', mark] + hex_digits(n, 8) ==> auto_number(chars)
            == Ok::<nat, NumberError>(n),
{
    decimal_reads_back(n, u32::MAX as nat);
    decimal_is_digits(n);
    if n < hex_range(8) {
        hex_reads_back(n, 8, u32::MAX as nat);
        reveal_with_fuel(hex_digits, 9);
        let inner = seq!['0', mark] + hex_digits(n, 8);
        assert(inner.skip(2) =~= hex_digits(n, 8));
    }
}

} // verus!
