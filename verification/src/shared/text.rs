//! Character-level string helpers shared by the parsers and formatters.
use vstd::prelude::*;

verus! {

/// Whether two strings hold the same characters.
pub fn str_equals(a: &str, b: &str) -> (res: bool)
    ensures
        res == (a@ == b@),
{
    let n = a.unicode_len();
    if n != b.unicode_len() {
        return false;
    }
    let mut i: usize = 0;
    while i < n
        invariant
            n == a@.len(),
            n == b@.len(),
            i <= n,
            forall|j: int| 0 <= j < i ==> a@[j] == b@[j],
        decreases n - i,
    {
        if a.get_char(i) != b.get_char(i) {
            return false;
        }
        i = i + 1;
    }
    assert(a@ =~= b@);
    true
}

} // verus!

verus! {

/// The character of a decimal digit.
pub open spec fn digit_char(d: int) -> char {
    if d == 0 {
        '0'
    } else if d == 1 {
        '1'
    } else if d == 2 {
        '2'
    } else if d == 3 {
        '3'
    } else if d == 4 {
        '4'
    } else if d == 5 {
        '5'
    } else if d == 6 {
        '6'
    } else if d == 7 {
        '7'
    } else if d == 8 {
        '8'
    } else {
        '9'
    }
}

/// The decimal digits of a natural number, without leading zeros.
pub open spec fn natural_text(n: nat) -> Seq<char>
    decreases n,
{
    if n < 10 {
        seq![digit_char(n as int)]
    } else {
        natural_text(n / 10).push(digit_char((n % 10) as int))
    }
}

/// An integer as Rust's `Display` writes it: a minus sign for negative
/// numbers, then the decimal digits of its magnitude.
pub open spec fn decimal_text(n: int) -> Seq<char> {
    if n < 0 {
        seq!['-'] + natural_text((-n) as nat)
    } else {
        natural_text(n as nat)
    }
}

fn digit_str(d: u64) -> (res: &'static str)
    requires
        d < 10,
    ensures
        res@ == seq![digit_char(d as int)],
{
    proof {
        reveal_strlit("0");
        reveal_strlit("1");
        reveal_strlit("2");
        reveal_strlit("3");
        reveal_strlit("4");
        reveal_strlit("5");
        reveal_strlit("6");
        reveal_strlit("7");
        reveal_strlit("8");
        reveal_strlit("9");
    }
    match d {
        0 => "0",
        1 => "1",
        2 => "2",
        3 => "3",
        4 => "4",
        5 => "5",
        6 => "6",
        7 => "7",
        8 => "8",
        _ => "9",
    }
}

fn append_natural(out: &mut String, n: u64)
    ensures
        final(out)@ == old(out)@ + natural_text(n as nat),
    decreases n,
{
    if n >= 10 {
        append_natural(out, n / 10);
    }
    let d = digit_str(n % 10);
    out.append(d);
    proof {
        if n >= 10 {
            assert(old(out)@ + natural_text(n as nat) =~= old(out)@ + natural_text((n / 10) as nat)
                + seq![digit_char((n % 10) as int)]);
        } else {
            assert(natural_text(n as nat) == seq![digit_char(n as int)]);
        }
    }
}

/// The decimal text of an `i64`, as `to_string` writes it.
pub fn i64_to_decimal(n: i64) -> (res: String)
    ensures
        res@ == decimal_text(n as int),
{
    let mut out = String::new();
    if n < 0 {
        out.append("-");
        proof {
            reveal_strlit("-");
        }
        let magnitude: i128 = -(n as i128);
        append_natural(&mut out, magnitude as u64);
    } else {
        append_natural(&mut out, n as u64);
    }
    out
}

pub open spec fn is_digit(c: char) -> bool {
    '0' <= c <= '9'
}

/// The value of a sequence of decimal digits.
pub open spec fn digits_value(digits: Seq<char>) -> int
    decreases digits.len(),
{
    if digits.len() == 0 {
        0
    } else {
        digits_value(digits.drop_last()) * 10 + (digits.last() as int - '0' as int)
    }
}

/// The digits of a number text: what follows an optional leading `+`.
pub open spec fn unsigned_digits(text: Seq<char>) -> Seq<char> {
    if text.len() > 0 && text[0] == '+' {
        text.drop_first()
    } else {
        text
    }
}

/// What Rust's `str::parse::<u64>` accepts: an optional `+`, then at least
/// one decimal digit and nothing else, of a value that fits in a `u64`.
pub open spec fn parsed_u64(text: Seq<char>) -> Option<int> {
    let digits = unsigned_digits(text);
    if digits.len() == 0 {
        None
    } else if !(forall|i: int| 0 <= i < digits.len() ==> is_digit(#[trigger] digits[i])) {
        None
    } else if digits_value(digits) > u64::MAX {
        None
    } else {
        Some(digits_value(digits))
    }
}

proof fn lemma_digits_value_grows(digits: Seq<char>, i: int, j: int)
    requires
        0 <= i <= j <= digits.len(),
        forall|k: int| 0 <= k < digits.len() ==> is_digit(#[trigger] digits[k]),
    ensures
        digits_value(digits.take(i)) <= digits_value(digits.take(j)),
        0 <= digits_value(digits.take(i)),
    decreases j - i + j,
{
    if j > 0 {
        assert(digits.take(j).drop_last() =~= digits.take(j - 1));
        if i < j {
            lemma_digits_value_grows(digits, i, j - 1);
        } else {
            lemma_digits_value_grows(digits, i - 1, j - 1);
            assert(digits.take(i).drop_last() =~= digits.take(i - 1));
        }
    } else {
        assert(digits.take(0) =~= Seq::<char>::empty());
    }
}

/// Parses a `u64` as `str::parse` does.
pub fn parse_u64(text: &str) -> (res: Option<u64>)
    ensures
        match parsed_u64(text@) {
            Some(v) => res == Some(v as u64),
            None => res is None,
        },
{
    let n = text.unicode_len();
    let mut start: usize = 0;
    if n > 0 && text.get_char(0) == '+' {
        start = 1;
    }
    let ghost digits = unsigned_digits(text@);
    assert(digits =~= text@.subrange(start as int, n as int));
    if start == n {
        return None;
    }
    let mut value: u64 = 0;
    let mut i: usize = start;
    while i < n
        invariant
            n == text@.len(),
            start <= i <= n,
            start < n,
            digits == text@.subrange(start as int, n as int),
            digits == unsigned_digits(text@),
            forall|k: int| 0 <= k < i - start ==> is_digit(#[trigger] digits[k]),
            value == digits_value(digits.take(i - start)),
        decreases n - i,
    {
        let c = text.get_char(i);
        assert(c == digits[i - start]);
        if !('0' <= c && c <= '9') {
            assert(!is_digit(digits[i - start]));
            return None;
        }
        let d = (c as u32 - '0' as u32) as u64;
        assert(digits.take(i - start + 1).drop_last() =~= digits.take(i - start));
        assert(digits.take(i - start + 1).last() == c);
        assert(d as int == c as int - '0' as int);
        assert(digits_value(digits.take(i - start + 1)) == value * 10 + d);
        let next = match value.checked_mul(10) {
            Some(v) => v.checked_add(d),
            None => None,
        };
        match next {
            Some(v) => {
                value = v;
            },
            None => {
                proof {
                    let m = i - start + 1;
                    assert(digits_value(digits.take(m)) > u64::MAX);
                    // the rest of the text is either not all digits or worth even more
                    if forall|k: int| 0 <= k < digits.len() ==> is_digit(#[trigger] digits[k]) {
                        lemma_digits_value_grows(digits, m, digits.len() as int);
                        assert(digits.take(digits.len() as int) =~= digits);
                    }
                }
                return None;
            },
        }
        i = i + 1;
    }
    assert(digits.take(n - start) =~= digits);
    Some(value)
}

/// A text with every trailing `/` removed.
pub open spec fn trimmed_slashes(text: Seq<char>) -> Seq<char>
    decreases text.len(),
{
    if text.len() > 0 && text.last() == '/' {
        trimmed_slashes(text.drop_last())
    } else {
        text
    }
}

/// `text.trim_end_matches('/')`.
pub fn trim_trailing_slashes(text: &str) -> (res: &str)
    ensures
        res@ == trimmed_slashes(text@),
{
    let n = text.unicode_len();
    let mut k: usize = n;
    assert(text@.take(n as int) =~= text@);
    while k > 0 && text.get_char(k - 1) == '/'
        invariant
            n == text@.len(),
            k <= n,
            trimmed_slashes(text@) == trimmed_slashes(text@.take(k as int)),
        decreases k,
    {
        assert(text@.take(k as int).drop_last() =~= text@.take(k - 1));
        k = k - 1;
    }
    assert(trimmed_slashes(text@.take(k as int)) == text@.take(k as int));
    text.substring_char(0, k)
}

/// `text.strip_prefix(prefix)` on characters.
pub open spec fn stripped_prefix(text: Seq<char>, prefix: Seq<char>) -> Option<Seq<char>> {
    if prefix.len() <= text.len() && text.take(prefix.len() as int) == prefix {
        Some(text.skip(prefix.len() as int))
    } else {
        None
    }
}

/// The rest of `text` after `prefix`, if `text` starts with it.
pub fn strip_prefix<'a>(text: &'a str, prefix: &str) -> (res: Option<&'a str>)
    ensures
        match stripped_prefix(text@, prefix@) {
            Some(rest) => res matches Some(r) && r@ == rest,
            None => res is None,
        },
{
    let n = text.unicode_len();
    let p = prefix.unicode_len();
    if p > n {
        return None;
    }
    let mut i: usize = 0;
    while i < p
        invariant
            n == text@.len(),
            p == prefix@.len(),
            p <= n,
            i <= p,
            forall|j: int| 0 <= j < i ==> text@[j] == prefix@[j],
        decreases p - i,
    {
        if text.get_char(i) != prefix.get_char(i) {
            assert(text@.take(p as int)[i as int] != prefix@[i as int]);
            return None;
        }
        i = i + 1;
    }
    assert(text@.take(p as int) =~= prefix@);
    Some(text.substring_char(p, n))
}

/// Reading back the decimal digits of a number gives the number: the text
/// is made of digits only and their value is `n`; a `u64` written out is
/// parsed back to itself.
pub proof fn lemma_natural_text_reads_back(n: nat)
    ensures
        natural_text(n).len() > 0,
        forall|i: int| 0 <= i < natural_text(n).len() ==> is_digit(#[trigger] natural_text(n)[i]),
        digits_value(natural_text(n)) == n,
        n <= u64::MAX ==> parsed_u64(natural_text(n)) == Some(n as int),
    decreases n,
{
    let d = if n < 10 { n as int } else { (n % 10) as int };
    assert(digit_char(d) as int == '0' as int + d);
    if n < 10 {
        assert(natural_text(n) == seq![digit_char(n as int)]);
        assert(natural_text(n).drop_last() =~= Seq::<char>::empty());
        assert(digits_value(Seq::<char>::empty()) == 0);
        assert(digits_value(natural_text(n)) == d);
    } else {
        lemma_natural_text_reads_back(n / 10);
        let t = natural_text(n / 10);
        assert(natural_text(n) == t.push(digit_char(d)));
        assert(t.push(digit_char(d)).drop_last() =~= t);
        assert(digits_value(natural_text(n)) == digits_value(t) * 10 + d);
        assert(n == (n / 10) * 10 + d);
        assert forall|i: int| 0 <= i < natural_text(n).len() implies is_digit(
            #[trigger] natural_text(n)[i],
        ) by {
            if i < t.len() {
                assert(natural_text(n)[i] == t[i]);
            }
        }
    }
    if n <= u64::MAX {
        assert(natural_text(n)[0] != '+');
        assert(unsigned_digits(natural_text(n)) == natural_text(n));
    }
}

/// The decimal text of a negative number is a minus sign followed by the
/// digits of its magnitude; that of any other number is just its digits.
pub proof fn lemma_decimal_text_sign(n: int)
    ensures
        n < 0 ==> decimal_text(n)[0] == '-' && decimal_text(n).drop_first() == natural_text((-n) as nat),
        n >= 0 ==> decimal_text(n) == natural_text(n as nat),
{
    if n < 0 {
        assert((seq!['-'] + natural_text((-n) as nat)).drop_first() =~= natural_text((-n) as nat));
    }
}

/// Removing trailing slashes leaves a prefix of the text that does not end
/// with a slash, and everything removed is a slash.
pub proof fn lemma_trimmed_slashes_shape(text: Seq<char>)
    ensures
        trimmed_slashes(text).len() <= text.len(),
        trimmed_slashes(text) == text.take(trimmed_slashes(text).len() as int),
        trimmed_slashes(text).len() > 0 ==> trimmed_slashes(text).last() != '/',
        forall|i: int| trimmed_slashes(text).len() <= i < text.len() ==> #[trigger] text[i] == '/',
    decreases text.len(),
{
    if text.len() > 0 && text.last() == '/' {
        lemma_trimmed_slashes_shape(text.drop_last());
        let r = trimmed_slashes(text.drop_last());
        assert(text.drop_last().take(r.len() as int) =~= text.take(r.len() as int));
        assert forall|i: int| r.len() <= i < text.len() implies #[trigger] text[i] == '/' by {
            if i < text.len() - 1 {
                assert(text[i] == text.drop_last()[i]);
            }
        }
    } else {
        assert(text.take(text.len() as int) =~= text);
    }
}

/// Stripping a prefix gives exactly the rest: the prefix followed by the
/// rest is the text, and a text that does not start with the prefix gives
/// nothing.
pub proof fn lemma_stripped_prefix_rest(text: Seq<char>, prefix: Seq<char>)
    ensures
        stripped_prefix(text, prefix) matches Some(rest) ==> prefix + rest == text,
        stripped_prefix(prefix + text, prefix) == Some(text),
{
    if let Some(rest) = stripped_prefix(text, prefix) {
        assert(prefix + rest =~= text);
    }
    assert((prefix + text).take(prefix.len() as int) =~= prefix);
    assert((prefix + text).skip(prefix.len() as int) =~= text);
}

} // verus!
