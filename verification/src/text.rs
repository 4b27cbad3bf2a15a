//! Decimal notation for integers, as text.

use vstd::prelude::*;
use vstd::string::*;

verus! {

/// The character that writes the digit `d`.
pub open spec fn digit_char(d: nat) -> char {
    if d == 0 {
        '0'
    } else if d == 1 {
        '1'
    } else if d == 2 {
        '2'
    } else if d == 3 {
        '3'
    } else if d == 4 {
        '4'
    } else if d == 5 {
        '5'
    } else if d == 6 {
        '6'
    } else if d == 7 {
        '7'
    } else if d == 8 {
        '8'
    } else {
        '9'
    }
}

/// The decimal notation of `n`: no sign, and no leading zero unless `n` is 0.
pub open spec fn decimal(n: nat) -> Seq<char>
    decreases n,
{
    if n < 10 {
        seq![digit_char(n)]
    } else {
        decimal(n / 10).push(digit_char(n % 10))
    }
}

/// The decimal notation of `n`, with a minus sign in front when `n` is negative.
pub open spec fn signed_decimal(n: int) -> Seq<char> {
    if n < 0 {
        seq!['-'] + decimal((-n) as nat)
    } else {
        decimal(n as nat)
    }
}

/// The one-character text of the digit `d`.
fn digit_str(d: u64) -> (s: &'static str)
    requires
        d < 10,
    ensures
        s@ == seq![digit_char(d as nat)],
{
    proof {
        reveal_strlit("0");
        reveal_strlit("1");
        reveal_strlit("2");
        reveal_strlit("3");
        reveal_strlit("4");
        reveal_strlit("5");
        reveal_strlit("6");
        reveal_strlit("7");
        reveal_strlit("8");
        reveal_strlit("9");
    }
    let s = if d == 0 {
        "0"
    } else if d == 1 {
        "1"
    } else if d == 2 {
        "2"
    } else if d == 3 {
        "3"
    } else if d == 4 {
        "4"
    } else if d == 5 {
        "5"
    } else if d == 6 {
        "6"
    } else if d == 7 {
        "7"
    } else if d == 8 {
        "8"
    } else {
        "9"
    };
    assert(s@ =~= seq![digit_char(d as nat)]);
    s
}

/// Appends the decimal notation of `n` to `out`.
pub fn push_decimal(out: &mut String, n: u64)
    ensures
        final(out)@ == old(out)@ + decimal(n as nat),
    decreases n,
{
    if n >= 10 {
        push_decimal(out, n / 10);
    }
    out.append(digit_str(n % 10));
    assert(out@ =~= old(out)@ + decimal(n as nat));
}

/// Appends the decimal notation of `n` to `out`, with its sign when negative.
pub fn push_signed_decimal(out: &mut String, n: i64)
    ensures
        final(out)@ == old(out)@ + signed_decimal(n as int),
{
    if n < 0 {
        proof {
            reveal_strlit("-");
        }
        out.append("-");
        // The magnitude of the smallest `i64` does not fit in an `i64`.
        let magnitude: u64 = ((-(n + 1)) as u64) + 1;
        push_decimal(out, magnitude);
        assert(out@ =~= old(out)@ + signed_decimal(n as int));
    } else {
        push_decimal(out, n as u64);
    }
}

/// The decimal notation of `n`.
pub fn u64_to_string(n: u64) -> (s: String)
    ensures
        s@ == decimal(n as nat),
{
    let mut out = String::new();
    push_decimal(&mut out, n);
    assert(out@ =~= decimal(n as nat));
    out
}

/// The decimal notation of `n`, with a minus sign in front when negative.
pub fn i64_to_string(n: i64) -> (s: String)
    ensures
        s@ == signed_decimal(n as int),
{
    let mut out = String::new();
    push_signed_decimal(&mut out, n);
    assert(out@ =~= signed_decimal(n as int));
    out
}

/// The characters of `s`, one by one.
pub fn chars_of(s: &str) -> (v: Vec<char>)
    ensures
        v@ == s@,
{
    let mut v: Vec<char> = Vec::new();
    for c in it: s.chars()
        invariant
            v@ == it.seq().take(it.index() as int),
            it.seq() == s@,
    {
        v.push(c);
        assert(it.seq().take(it.index() + 1) =~= it.seq().take(it.index() as int).push(c));
    }
    assert(v@ =~= s@);
    v
}

/// The digit that `c` writes, if it writes one.
pub open spec fn digit_of(c: char) -> Option<nat> {
    if c == '0' {
        Some(0)
    } else if c == '1' {
        Some(1)
    } else if c == '2' {
        Some(2)
    } else if c == '3' {
        Some(3)
    } else if c == '4' {
        Some(4)
    } else if c == '5' {
        Some(5)
    } else if c == '6' {
        Some(6)
    } else if c == '7' {
        Some(7)
    } else if c == '8' {
        Some(8)
    } else if c == '9' {
        Some(9)
    } else {
        None
    }
}

/// Whether `c` is one of the ten decimal digits.
pub open spec fn is_digit(c: char) -> bool {
    digit_of(c) is Some
}

/// Whether `c` is a plus or a minus sign.
pub open spec fn is_sign(c: char) -> bool {
    c == '+' || c == '-'
}

/// How many digits stand in a row in `s`, starting at position `from`.
pub open spec fn digits_from(s: Seq<char>, from: int) -> nat
    decreases s.len() - from,
{
    if 0 <= from < s.len() && is_digit(s[from]) {
        1 + digits_from(s, from + 1)
    } else {
        0
    }
}

/// The capital form of a lower-case letter of the words `inf`, `infinity` and
/// `nan`; any other character is returned as it is.
pub open spec fn capital(c: char) -> char {
    if c == 'a' {
        'A'
    } else if c == 'f' {
        'F'
    } else if c == 'i' {
        'I'
    } else if c == 'n' {
        'N'
    } else if c == 't' {
        'T'
    } else if c == 'y' {
        'Y'
    } else {
        c
    }
}

/// Whether `s` spells `word`, letter by letter, in any mix of upper and lower
/// case. `word` is given in lower case.
pub open spec fn spells(s: Seq<char>, word: Seq<char>) -> bool {
    s.len() == word.len() && forall|i: int|
        0 <= i < s.len() ==> s[i] == word[i] || s[i] == capital(#[trigger] word[i])
}

/// Whether `b` names infinity or not-a-number.
pub open spec fn is_special_float(b: Seq<char>) -> bool {
    spells(b, seq!['i', 'n', 'f'])
        || spells(b, seq!['i', 'n', 'f', 'i', 'n', 'i', 't', 'y'])
        || spells(b, seq!['n', 'a', 'n'])
}

/// Whether an exponent starts at position `at` of `b` and runs to its end:
/// the letter `e` in either case, an optional sign, and at least one digit.
pub open spec fn is_exponent(b: Seq<char>, at: int) -> bool {
    &&& 0 <= at < b.len()
    &&& (b[at] == 'e' || b[at] == 'E')
    &&& {
        let digits_at = if at + 1 < b.len() && is_sign(b[at + 1]) {
            at + 2
        } else {
            at + 1
        };
        digits_from(b, digits_at) >= 1 && digits_at + digits_from(b, digits_at) == b.len()
    }
}

/// Whether `b` is an unsigned decimal number: digits with at most one period
/// among them, at least one digit in all, and then an optional exponent.
pub open spec fn is_float_number(b: Seq<char>) -> bool {
    let whole = digits_from(b, 0) as int;
    let dotted = whole < b.len() && b[whole] == '.';
    let fraction = if dotted {
        digits_from(b, whole + 1) as int
    } else {
        0
    };
    let mantissa = if dotted {
        whole + 1 + fraction
    } else {
        whole
    };
    whole + fraction >= 1 && (mantissa == b.len() || is_exponent(b, mantissa))
}

/// Whether `s` is a literal of a floating-point number: an optional sign, and
/// then either a decimal number or one of the words `inf`, `infinity` and `nan`.
pub open spec fn is_float_literal(s: Seq<char>) -> bool {
    let body = if s.len() > 0 && is_sign(s[0]) {
        s.skip(1)
    } else {
        s
    };
    is_special_float(body) || is_float_number(body)
}

fn is_digit_char(c: char) -> (b: bool)
    ensures
        b == is_digit(c),
{
    c == '0' || c == '1' || c == '2' || c == '3' || c == '4' || c == '5' || c == '6' || c == '7'
        || c == '8' || c == '9'
}

fn is_sign_char(c: char) -> (b: bool)
    ensures
        b == is_sign(c),
{
    c == '+' || c == '-'
}

fn capital_of(c: char) -> (r: char)
    ensures
        r == capital(c),
{
    if c == 'a' {
        'A'
    } else if c == 'f' {
        'F'
    } else if c == 'i' {
        'I'
    } else if c == 'n' {
        'N'
    } else if c == 't' {
        'T'
    } else if c == 'y' {
        'Y'
    } else {
        c
    }
}

/// Counts the digits that stand in a row in `s` from position `from` on.
fn count_digits(s: &Vec<char>, from: usize) -> (n: usize)
    requires
        from <= s.len(),
    ensures
        n == digits_from(s@, from as int),
        from + n <= s.len(),
{
    let mut i: usize = from;
    while i < s.len() && is_digit_char(s[i])
        invariant
            from <= i <= s.len(),
            digits_from(s@, from as int) == (i - from) + digits_from(s@, i as int),
        decreases s.len() - i,
    {
        i += 1;
    }
    i - from
}

/// Whether the characters of `s` from position `from` on spell `word`.
fn spells_from(s: &Vec<char>, from: usize, word: &str) -> (b: bool)
    requires
        from <= s.len(),
    ensures
        b == spells(s@.skip(from as int), word@),
{
    let w = chars_of(word);
    if s.len() - from != w.len() {
        return false;
    }
    let ghost rest = s@.skip(from as int);
    let mut i: usize = 0;
    while i < w.len()
        invariant
            from <= s.len(),
            rest == s@.skip(from as int),
            rest.len() == w.len(),
            w@ == word@,
            i <= w.len(),
            forall|j: int| 0 <= j < i ==> rest[j] == w@[j] || rest[j] == capital(#[trigger] w@[j]),
        decreases w.len() - i,
    {
        let c = s[from + i];
        assert(c == rest[i as int]);
        if c != w[i] && c != capital_of(w[i]) {
            return false;
        }
        i += 1;
    }
    true
}

/// Whether the characters of `s` from position `from` on form an unsigned
/// decimal number.
fn float_number_from(s: &Vec<char>, from: usize) -> (b: bool)
    requires
        from <= s.len(),
    ensures
        b == is_float_number(s@.skip(from as int)),
{
    let ghost body = s@.skip(from as int);
    proof {
        lemma_digits_from_skip(s@, from as int, 0);
    }
    let whole = count_digits(s, from);
    let mut at: usize = from + whole;
    let mut fraction: usize = 0;
    if at < s.len() && s[at] == '.' {
        proof {
            lemma_digits_from_skip(s@, from as int, whole as int + 1);
        }
        fraction = count_digits(s, at + 1);
        at = at + 1 + fraction;
    }
    if whole == 0 && fraction == 0 {
        return false;
    }
    if at == s.len() {
        return true;
    }
    if s[at] != 'e' && s[at] != 'E' {
        return false;
    }
    let mut digits_at: usize = at + 1;
    if digits_at < s.len() && is_sign_char(s[digits_at]) {
        digits_at = digits_at + 1;
    }
    proof {
        lemma_digits_from_skip(s@, from as int, digits_at - from);
    }
    let exponent = count_digits(s, digits_at);
    exponent >= 1 && digits_at + exponent == s.len()
}

/// Counting digits in the rest of `s` after `k` characters is counting them
/// in `s` itself, `k` places further on.
proof fn lemma_digits_from_skip(s: Seq<char>, k: int, from: int)
    requires
        0 <= k <= s.len(),
        0 <= from,
    ensures
        digits_from(s.skip(k), from) == digits_from(s, k + from),
    decreases s.len() - k - from,
{
    if from < s.len() - k && is_digit(s[k + from]) {
        lemma_digits_from_skip(s, k, from + 1);
    }
}

/// Whether `s` is a literal of a floating-point number.
pub fn is_float_text(s: &str) -> (b: bool)
    ensures
        b == is_float_literal(s@),
{
    let v = chars_of(s);
    let from: usize = if v.len() > 0 && is_sign_char(v[0]) {
        1
    } else {
        0
    };
    proof {
        reveal_strlit("inf");
        reveal_strlit("infinity");
        reveal_strlit("nan");
        assert(v@.skip(0) =~= v@);
        assert("inf"@ =~= seq!['i', 'n', 'f']);
        assert("infinity"@ =~= seq!['i', 'n', 'f', 'i', 'n', 'i', 't', 'y']);
        assert("nan"@ =~= seq!['n', 'a', 'n']);
    }
    spells_from(&v, from, "inf") || spells_from(&v, from, "infinity") || spells_from(
        &v,
        from,
        "nan",
    ) || float_number_from(&v, from)
}

/// Whether `s` is made of digits only.
pub open spec fn all_digits(s: Seq<char>) -> bool {
    forall|i: int| 0 <= i < s.len() ==> is_digit(#[trigger] s[i])
}

/// The digit that `c` writes; 0 where it writes none.
pub open spec fn digit_value(c: char) -> nat {
    match digit_of(c) {
        Some(d) => d,
        None => 0,
    }
}

/// The number that the digits `s` write in decimal notation.
pub open spec fn digits_value(s: Seq<char>) -> nat
    decreases s.len(),
{
    if s.len() == 0 {
        0
    } else {
        digits_value(s.drop_last()) * 10 + digit_value(s.last())
    }
}

/// The number that `s` writes without a minus sign: an optional plus sign and
/// then one digit or more. Nothing else is a number, not even with blanks
/// around it.
pub open spec fn unsigned_literal(s: Seq<char>) -> Option<nat> {
    let body = if s.len() > 0 && s[0] == '+' {
        s.skip(1)
    } else {
        s
    };
    if body.len() > 0 && all_digits(body) {
        Some(digits_value(body))
    } else {
        None
    }
}

/// The `u64` that `s` writes: an optional plus sign and then digits, of a
/// number that fits.
pub open spec fn parse_u64(s: Seq<char>) -> Option<u64> {
    match unsigned_literal(s) {
        Some(n) => if n <= u64::MAX {
            Some(n as u64)
        } else {
            None
        },
        None => None,
    }
}

/// The `i64` that `s` writes: an optional sign and then digits, of a number
/// that fits.
pub open spec fn parse_i64(s: Seq<char>) -> Option<i64> {
    if s.len() > 0 && s[0] == '-' {
        let body = s.skip(1);
        if body.len() > 0 && all_digits(body) && digits_value(body) <= -(i64::MIN as int) {
            Some((-(digits_value(body) as int)) as i64)
        } else {
            None
        }
    } else {
        match unsigned_literal(s) {
            Some(n) => if n <= i64::MAX {
                Some(n as i64)
            } else {
                None
            },
            None => None,
        }
    }
}

/// The digits of a number begin a longer row of digits that writes a number
/// at least as large.
pub proof fn lemma_digits_value_grows(s: Seq<char>, k: int)
    requires
        0 <= k <= s.len(),
    ensures
        digits_value(s.take(k)) <= digits_value(s),
    decreases s.len() - k,
{
    if k == s.len() {
        assert(s.take(k) =~= s);
    } else {
        lemma_digits_value_grows(s, k + 1);
        assert(s.take(k + 1).drop_last() =~= s.take(k));
    }
}

/// The decimal notation of a number is made of digits, at least one, and
/// writes that number.
pub proof fn lemma_decimal_is_read_back(n: nat)
    ensures
        decimal(n).len() > 0,
        all_digits(decimal(n)),
        digits_value(decimal(n)) == n,
    decreases n,
{
    reveal_with_fuel(digits_value, 2);
    if n < 10 {
        assert(decimal(n).drop_last() =~= Seq::<char>::empty());
    } else {
        lemma_decimal_is_read_back(n / 10);
        let head = decimal(n / 10);
        assert(decimal(n).drop_last() =~= head);
        assert(digit_value(digit_char(n % 10)) == n % 10);
        assert forall|i: int| 0 <= i < decimal(n).len() implies is_digit(
            #[trigger] decimal(n)[i],
        ) by {
            if i < head.len() {
                assert(decimal(n)[i] == head[i]);
            }
        }
    }
}

fn digit_of_char(c: char) -> (d: Option<u64>)
    ensures
        d is Some <==> is_digit(c),
        d matches Some(v) ==> v == digit_value(c) && v < 10,
{
    if c == '0' {
        Some(0)
    } else if c == '1' {
        Some(1)
    } else if c == '2' {
        Some(2)
    } else if c == '3' {
        Some(3)
    } else if c == '4' {
        Some(4)
    } else if c == '5' {
        Some(5)
    } else if c == '6' {
        Some(6)
    } else if c == '7' {
        Some(7)
    } else if c == '8' {
        Some(8)
    } else if c == '9' {
        Some(9)
    } else {
        None
    }
}

/// Reads the characters of `s` from position `from` on as digits of a number
/// that fits a `u64`; nothing where there is no digit, another character, or
/// too large a number.
fn read_digits(s: &Vec<char>, from: usize) -> (r: Option<u64>)
    requires
        from <= s.len(),
    ensures
        ({
            let body = s@.skip(from as int);
            let fits = body.len() > 0 && all_digits(body) && digits_value(body) <= u64::MAX;
            &&& r is Some <==> fits
            &&& r matches Some(n) ==> n == digits_value(body)
        }),
{
    let ghost body = s@.skip(from as int);
    if from == s.len() {
        return None;
    }
    let mut value: u64 = 0;
    let mut i: usize = from;
    assert(body.take(0) =~= Seq::<char>::empty());
    while i < s.len()
        invariant
            from <= i <= s.len(),
            body == s@.skip(from as int),
            all_digits(body.take(i - from)),
            value == digits_value(body.take(i - from)),
        decreases s.len() - i,
    {
        let ghost next = body.take(i - from + 1);
        assert(next.drop_last() =~= body.take(i - from));
        assert(next.last() == s@[i as int]);
        match digit_of_char(s[i]) {
            None => {
                assert(!is_digit(body[i - from]));
                return None;
            },
            Some(d) => {
                if value > (u64::MAX - d) / 10 {
                    proof {
                        assert(digits_value(next) > u64::MAX);
                        if all_digits(body) {
                            lemma_digits_value_grows(body, i - from + 1);
                        }
                    }
                    return None;
                }
                value = value * 10 + d;
                assert forall|j: int| 0 <= j < next.len() implies is_digit(#[trigger] next[j]) by {
                    if j < next.len() - 1 {
                        assert(next[j] == body.take(i - from)[j]);
                    }
                }
            },
        }
        i += 1;
    }
    assert(body.take(i - from) =~= body);
    Some(value)
}

/// Reads `s` as a `u64`.
pub fn u64_of_text(s: &str) -> (r: Option<u64>)
    ensures
        r == parse_u64(s@),
{
    let v = chars_of(s);
    let from: usize = if v.len() > 0 && v[0] == '+' {
        1
    } else {
        0
    };
    proof {
        assert(v@.skip(0) =~= v@);
    }
    read_digits(&v, from)
}

/// Reads `s` as an `i64`.
pub fn i64_of_text(s: &str) -> (r: Option<i64>)
    ensures
        r == parse_i64(s@),
{
    let v = chars_of(s);
    proof {
        assert(v@.skip(0) =~= v@);
    }
    if v.len() > 0 && v[0] == '-' {
        match read_digits(&v, 1) {
            None => None,
            Some(magnitude) => {
                if magnitude > 0x8000_0000_0000_0000 {
                    None
                } else if magnitude == 0x8000_0000_0000_0000 {
                    Some(i64::MIN)
                } else {
                    Some(-(magnitude as i64))
                }
            },
        }
    } else {
        let from: usize = if v.len() > 0 && v[0] == '+' {
            1
        } else {
            0
        };
        match read_digits(&v, from) {
            None => None,
            Some(n) => {
                if n > 0x7fff_ffff_ffff_ffff {
                    None
                } else {
                    Some(n as i64)
                }
            },
        }
    }
}

/// Whether `s` and `t` are the same text.
pub fn same_text(s: &str, t: &str) -> (b: bool)
    ensures
        b == (s@ == t@),
{
    let x = chars_of(s);
    let y = chars_of(t);
    if x.len() != y.len() {
        return false;
    }
    let mut i: usize = 0;
    while i < x.len()
        invariant
            x@ == s@,
            y@ == t@,
            x.len() == y.len(),
            i <= x.len(),
            forall|j: int| 0 <= j < i ==> x@[j] == y@[j],
        decreases x.len() - i,
    {
        if x[i] != y[i] {
            return false;
        }
        i += 1;
    }
    assert(x@ =~= y@);
    true
}

} // verus!
