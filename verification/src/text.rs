//! Plain text helpers: decimal numbers, prefixes and comparisons.
use vstd::prelude::*;
use vstd::utf8::{decode_utf8, encode_utf8};

verus! {

/// The decimal digit of `d`, for `d < 10`.
pub open spec fn digit(d: nat) -> char {
    ('0' as u32 + d) as char
}

/// `c` is one of `0` to `9`.
pub open spec fn is_digit(c: char) -> bool {
    '0' <= c <= '9'
}

/// The number that the digit `c` stands for.
pub open spec fn digit_value(c: char) -> nat {
    (c as u32 - '0' as u32) as nat
}

/// `n` written in decimal, without leading zeros.
pub open spec fn decimal(n: nat) -> Seq<char>
    decreases n,
{
    if n < 10 {
        seq![digit(n)]
    } else {
        decimal(n / 10).push(digit(n % 10))
    }
}

/// `n` written in decimal, with a leading `-` if it is negative.
pub open spec fn signed_decimal(n: int) -> Seq<char> {
    if n < 0 {
        seq!['-'] + decimal((-n) as nat)
    } else {
        decimal(n as nat)
    }
}

/// The number that a sequence of digits stands for.
pub open spec fn digits_value(digits: Seq<char>) -> nat
    decreases digits.len(),
{
    if digits.len() == 0 {
        0
    } else {
        digits_value(digits.drop_last()) * 10 + digit_value(digits.last())
    }
}

/// The digits of an unsigned number, which may follow one `+`.
pub open spec fn unsigned_digits(text: Seq<char>) -> Seq<char> {
    if text.len() > 0 && text[0] == '+' {
        text.skip(1)
    } else {
        text
    }
}

/// The unsigned machine word that `text` writes in decimal: at least one digit, an optional `+`
/// before them and nothing else, with a value that fits.
pub open spec fn parsed_usize(text: Seq<char>) -> Option<usize> {
    let digits = unsigned_digits(text);
    if digits.len() > 0 && digits.all(|c: char| is_digit(c)) && digits_value(digits)
        <= usize::MAX {
        Some(digits_value(digits) as usize)
    } else {
        None
    }
}

/// A prefix of a sequence of digits stands for a number that is not larger.
proof fn lemma_digits_value_prefix(digits: Seq<char>, i: int)
    requires
        0 <= i <= digits.len(),
    ensures
        digits_value(digits.take(i)) <= digits_value(digits),
    decreases digits.len(),
{
    if i == digits.len() {
        assert(digits.take(i) == digits);
    } else {
        lemma_digits_value_prefix(digits.drop_last(), i);
        assert(digits.drop_last().take(i) == digits.take(i));
    }
}

/// Writing a number and reading its digits gives the number back.
pub proof fn lemma_decimal_digits(n: nat)
    ensures
        decimal(n).len() > 0,
        decimal(n).all(|c: char| is_digit(c)),
        digits_value(decimal(n)) == n,
    decreases n,
{
    if n < 10 {
        let digits = decimal(n);
        assert(digits.drop_last() == Seq::<char>::empty());
        assert(digits_value(digits.drop_last()) == 0);
        assert(is_digit(digit(n)));
    } else {
        lemma_decimal_digits(n / 10);
        let digits = decimal(n);
        assert(digits.drop_last() == decimal(n / 10));
        assert(is_digit(digit(n % 10)));
        assert forall|i: int| 0 <= i < digits.len() implies is_digit(#[trigger] digits[i]) by {
            if i < digits.len() - 1 {
                assert(digits[i] == decimal(n / 10)[i]);
                let p = |c: char| is_digit(c);
                assert(p(decimal(n / 10)[i]));
            }
        }
    }
}

/// Parsing the decimal text of a machine word gives the word back.
pub proof fn lemma_parse_decimal(n: usize)
    ensures
        parsed_usize(decimal(n as nat)) == Some(n),
{
    lemma_decimal_digits(n as nat);
    let text = decimal(n as nat);
    let p = |c: char| is_digit(c);
    assert(p(text[0]));
    assert(unsigned_digits(text) == text);
}

/// The text of one digit.
fn digit_text(d: u8) -> (text: &'static str)
    requires
        d < 10,
    ensures
        text@ == seq![digit(d as nat)],
{
    proof {
        reveal_strlit("0");
        reveal_strlit("1");
        reveal_strlit("2");
        reveal_strlit("3");
        reveal_strlit("4");
        reveal_strlit("5");
        reveal_strlit("6");
        reveal_strlit("7");
        reveal_strlit("8");
        reveal_strlit("9");
    }
    if d == 0 {
        "0"
    } else if d == 1 {
        "1"
    } else if d == 2 {
        "2"
    } else if d == 3 {
        "3"
    } else if d == 4 {
        "4"
    } else if d == 5 {
        "5"
    } else if d == 6 {
        "6"
    } else if d == 7 {
        "7"
    } else if d == 8 {
        "8"
    } else {
        "9"
    }
}

/// Writes `n` in decimal.
pub(crate) fn decimal_text(n: u64) -> (text: String)
    ensures
        text@ == decimal(n as nat),
    decreases n,
{
    if n < 10 {
        digit_text(n as u8).to_owned()
    } else {
        let mut text = decimal_text(n / 10);
        text.append(digit_text((n % 10) as u8));
        text
    }
}

/// Writes `n` in decimal, with its sign.
pub(crate) fn signed_decimal_text(n: i32) -> (text: String)
    ensures
        text@ == signed_decimal(n as int),
{
    if n < 0 {
        proof {
            reveal_strlit("-");
        }
        let magnitude: u64 = (-(n as i64)) as u64;
        let mut text = "-".to_owned();
        text.append(decimal_text(magnitude).as_str());
        text
    } else {
        decimal_text(n as u64)
    }
}

/// The characters of `text`, in order.
pub(crate) fn chars_of(text: &str) -> (chars: Vec<char>)
    ensures
        chars@ == text@,
{
    let mut chars: Vec<char> = Vec::new();
    for c in it: text.chars()
        invariant
            it.seq() == text@,
            chars@ == it.seq().take(it.index()),
    {
        chars.push(c);
    }
    chars
}

/// Parses a decimal machine word out of `chars[from..]`.
pub(crate) fn parse_usize(chars: &Vec<char>, from: usize) -> (parsed: Option<usize>)
    requires
        from <= chars@.len(),
    ensures
        parsed == parsed_usize(chars@.skip(from as int)),
{
    let ghost text = chars@.skip(from as int);
    let mut start: usize = from;
    if from < chars.len() && chars[from] == '+' {
        start = from + 1;
    }
    let ghost digits = unsigned_digits(text);
    assert(digits == chars@.skip(start as int));
    if start == chars.len() {
        return None;
    }
    let mut value: usize = 0;
    let mut i: usize = start;
    assert(digits.take(0) == Seq::<char>::empty());
    while i < chars.len()
        invariant
            start <= i <= chars@.len(),
            start < chars@.len(),
            digits == unsigned_digits(chars@.skip(from as int)),
            digits == chars@.skip(start as int),
            value == digits_value(digits.take(i - start)),
            forall|j: int| 0 <= j < i - start ==> is_digit(#[trigger] digits[j]),
        decreases chars@.len() - i,
    {
        let c = chars[i];
        proof {
            assert(digits[i - start] == c);
            assert(digits.take(i - start + 1).drop_last() == digits.take(i - start));
            lemma_digits_value_prefix(digits, i - start + 1);
        }
        if !('0' <= c && c <= '9') {
            assert(!digits.all(|c: char| is_digit(c))) by {
                let p = |c: char| is_digit(c);
                assert(!p(digits[i - start]));
            }
            return None;
        }
        let d: usize = (c as u32 - '0' as u32) as usize;
        match value.checked_mul(10) {
            Some(tens) => match tens.checked_add(d) {
                Some(sum) => {
                    value = sum;
                },
                None => {
                    return None;
                },
            },
            None => {
                return None;
            },
        }
        i = i + 1;
    }
    assert(digits.take(i - start) == digits);
    Some(value)
}

/// Whether two texts are equal.
pub(crate) fn str_eq(a: &str, b: &str) -> (equal: bool)
    ensures
        equal == (a@ == b@),
{
    let x = a.as_bytes();
    let y = b.as_bytes();
    proof {
        broadcast use vstd::utf8::encode_utf8_decode_utf8;

        assert(decode_utf8(encode_utf8(a@)) == a@);
        assert(decode_utf8(encode_utf8(b@)) == b@);
    }
    if x.len() != y.len() {
        return false;
    }
    let mut i: usize = 0;
    while i < x.len()
        invariant
            i <= x@.len(),
            x@.len() == y@.len(),
            x@ == encode_utf8(a@),
            y@ == encode_utf8(b@),
            forall|j: int| 0 <= j < i ==> x@[j] == y@[j],
        decreases x@.len() - i,
    {
        if x[i] != y[i] {
            return false;
        }
        i = i + 1;
    }
    assert(x@ == y@);
    true
}

/// Whether `text` begins with `prefix`.
pub(crate) fn starts_with(text: &str, prefix: &str) -> (yes: bool)
    ensures
        yes == prefix@.is_prefix_of(text@),
{
    let t = chars_of(text);
    let p = chars_of(prefix);
    if t.len() < p.len() {
        return false;
    }
    let mut i: usize = 0;
    while i < p.len()
        invariant
            i <= p@.len() <= t@.len(),
            t@ == text@,
            p@ == prefix@,
            forall|j: int| 0 <= j < i ==> p@[j] == t@[j],
        decreases p@.len() - i,
    {
        if t[i] != p[i] {
            assert(prefix@[i as int] != text@.subrange(0, prefix@.len() as int)[i as int]);
            return false;
        }
        i = i + 1;
    }
    true
}

/// Concatenates two texts.
pub(crate) fn join(a: &str, b: &str) -> (text: String)
    ensures
        text@ == a@ + b@,
{
    let mut text = a.to_owned();
    text.append(b);
    text
}

/// Decimal numbers are written with the ten digits, the last of which counts ones and each of which
/// counts ten times as much as the one behind it; no zero leads another digit.
pub proof fn law_decimal(n: nat, d: nat)
    requires
        d < 10,
    ensures
        decimal(d) == seq!["0123456789"@[d as int]],
        n > 0 ==> decimal(10 * n + d) == decimal(n) + decimal(d),
        n > 0 ==> signed_decimal(-(n as int)) == "-"@ + decimal(n),
        signed_decimal(n as int) == decimal(n),
{
    reveal_strlit("0123456789");
    reveal_strlit("-");
    assert((10 * n + d) / 10 == n && (10 * n + d) % 10 == d) by (nonlinear_arith)
        requires
            d < 10,
    ;
    if n > 0 {
        assert(decimal(10 * n + d) =~= decimal(n) + decimal(d));
        assert("-"@ =~= seq!['-']);
    }
}

/// Reading a number gives back the one that was written, where it fits a machine word, with or
/// without a `+` and zeros before it; a number that does not fit is none.
pub proof fn law_numbers_are_read_back(n: nat, zeros: nat)
    ensures
        ({
            let text = Seq::new(zeros, |i: int| '0') + decimal(n);
            let expected = if n <= usize::MAX {
                Some(n as usize)
            } else {
                None
            };
            &&& parsed_usize(decimal(n)) == expected
            &&& parsed_usize(text) == expected
            &&& parsed_usize("+"@ + text) == expected
        }),
{
    reveal_strlit("+");
    lemma_decimal_digits(n);
    let text = Seq::new(zeros, |i: int| '0') + decimal(n);
    lemma_leading_zeros(n, zeros);
    let p = |c: char| is_digit(c);
    assert(p(decimal(n)[0]));
    assert(p(text[0]));
    assert(unsigned_digits(decimal(n)) == decimal(n));
    assert(unsigned_digits(text) == text);
    assert(("+"@ + text).skip(1) =~= text);
}

/// Zeros in front change no number.
proof fn lemma_leading_zeros(n: nat, zeros: nat)
    ensures
        ({
            let text = Seq::new(zeros, |i: int| '0') + decimal(n);
            &&& text.len() > 0
            &&& text.all(|c: char| is_digit(c))
            &&& digits_value(text) == n
        }),
    decreases n,
{
    lemma_decimal_digits(n);
    let front = Seq::new(zeros, |i: int| '0');
    let text = front + decimal(n);
    let p = |c: char| is_digit(c);
    assert forall|i: int| 0 <= i < text.len() implies is_digit(#[trigger] text[i]) by {
        if i >= zeros {
            assert(p(decimal(n)[i - zeros]));
        }
    }
    if n < 10 {
        assert(text.drop_last() =~= front);
        lemma_zeros(zeros);
    } else {
        lemma_leading_zeros(n / 10, zeros);
        assert(text.drop_last() =~= front + decimal(n / 10));
    }
}

/// Zeros alone stand for nothing.
proof fn lemma_zeros(zeros: nat)
    ensures
        digits_value(Seq::new(zeros, |i: int| '0')) == 0,
    decreases zeros,
{
    if zeros > 0 {
        lemma_zeros((zeros - 1) as nat);
        assert(Seq::new(zeros, |i: int| '0').drop_last() =~= Seq::new(
            (zeros - 1) as nat,
            |i: int| '0',
        ));
    }
}

/// A text without digits, or with anything but digits behind a `+` in front, is no number.
pub proof fn law_only_digits_are_numbers(text: Seq<char>, i: int)
    requires
        0 <= i < text.len(),
        !("0123456789"@.contains(text[i])),
        text[i] != '+' || i > 0 || text.len() == 1,
    ensures
        parsed_usize(text) is None,
        parsed_usize(Seq::empty()) is None,
{
    reveal_strlit("0123456789");
    assert forall|d: int| 0 <= d < 10 implies text[i] != #[trigger] "0123456789"@[d] by {}
    assert(text[i] != '0' && text[i] != '1' && text[i] != '2' && text[i] != '3' && text[i] != '4'
        && text[i] != '5' && text[i] != '6' && text[i] != '7' && text[i] != '8' && text[i] != '9')
        by {
        assert("0123456789"@[0] == '0' && "0123456789"@[1] == '1' && "0123456789"@[2] == '2'
            && "0123456789"@[3] == '3' && "0123456789"@[4] == '4' && "0123456789"@[5] == '5'
            && "0123456789"@[6] == '6' && "0123456789"@[7] == '7' && "0123456789"@[8] == '8'
            && "0123456789"@[9] == '9');
    }
    assert(!is_digit(text[i]));
    let digits = unsigned_digits(text);
    let p = |c: char| is_digit(c);
    if text[0] == '+' && i > 0 {
        assert(digits[i - 1] == text[i]);
        assert(!p(digits[i - 1]));
    } else if text[0] != '+' {
        assert(!p(digits[i]));
    }
}

} // verus!
