//! Small text utilities: decimal numerals, whitespace, lines.

use vstd::prelude::*;
use vstd::string::*;

verus! {

/// The character that writes the digit `d`.
pub open spec fn digit_char(d: nat) -> char {
    if d == 0 {
        '0'
    } else if d == 1 {
        '1'
    } else if d == 2 {
        '2'
    } else if d == 3 {
        '3'
    } else if d == 4 {
        '4'
    } else if d == 5 {
        '5'
    } else if d == 6 {
        '6'
    } else if d == 7 {
        '7'
    } else if d == 8 {
        '8'
    } else {
        '9'
    }
}

/// The decimal numeral of `n`, without sign or leading zeros.
pub open spec fn decimal(n: nat) -> Seq<char>
    decreases n,
{
    if n < 10 {
        seq![digit_char(n)]
    } else {
        decimal(n / 10).push(digit_char(n % 10))
    }
}

fn digit_str(d: u64) -> (r: &'static str)
    requires
        d < 10,
    ensures
        r@ == seq![digit_char(d as nat)],
{
    proof {
        reveal_strlit("0");
        reveal_strlit("1");
        reveal_strlit("2");
        reveal_strlit("3");
        reveal_strlit("4");
        reveal_strlit("5");
        reveal_strlit("6");
        reveal_strlit("7");
        reveal_strlit("8");
        reveal_strlit("9");
    }
    let r = if d == 0 {
        "0"
    } else if d == 1 {
        "1"
    } else if d == 2 {
        "2"
    } else if d == 3 {
        "3"
    } else if d == 4 {
        "4"
    } else if d == 5 {
        "5"
    } else if d == 6 {
        "6"
    } else if d == 7 {
        "7"
    } else if d == 8 {
        "8"
    } else {
        "9"
    };
    assert(r@ =~= seq![digit_char(d as nat)]);
    r
}

/// Writes `n` as a decimal numeral.
pub fn decimal_string(n: u64) -> (s: String)
    ensures
        s@ == decimal(n as nat),
    decreases n,
{
    if n < 10 {
        String::from_str(digit_str(n))
    } else {
        let mut s = decimal_string(n / 10);
        s.append(digit_str(n % 10));
        assert(s@ =~= decimal(n as nat));
        s
    }
}

/// Whether `c` is white space, as Unicode's property White_Space has it.
pub open spec fn is_space(c: char) -> bool {
    let u = c as u32;
    (0x09 <= u <= 0x0D) || u == 0x20 || u == 0x85 || u == 0xA0 || u == 0x1680 || (0x2000 <= u
        <= 0x200A) || u == 0x2028 || u == 0x2029 || u == 0x202F || u == 0x205F || u == 0x3000
}

/// Whether `s` holds nothing but white space; the empty text is blank.
pub open spec fn blank(s: Seq<char>) -> bool {
    forall|i: int| 0 <= i < s.len() ==> is_space(#[trigger] s[i])
}

/// The number of white-space characters with which `s` starts.
pub open spec fn leading(s: Seq<char>) -> nat
    decreases s.len(),
{
    if s.len() > 0 && is_space(s[0]) {
        1 + leading(s.skip(1))
    } else {
        0
    }
}

/// The number of white-space characters with which `s` ends.
pub open spec fn trailing(s: Seq<char>) -> nat
    decreases s.len(),
{
    if s.len() > 0 && is_space(s.last()) {
        1 + trailing(s.drop_last())
    } else {
        0
    }
}

/// `s` without the white space at its two ends.
pub open spec fn trimmed(s: Seq<char>) -> Seq<char> {
    if blank(s) {
        Seq::empty()
    } else {
        s.subrange(leading(s) as int, s.len() - trailing(s))
    }
}

/// The number of characters of `s` before its first newline.
pub open spec fn line_end(s: Seq<char>) -> nat
    decreases s.len(),
{
    if s.len() == 0 || s[0] == '\n' {
        0
    } else {
        1 + line_end(s.skip(1))
    }
}

/// The first line of `s` without its line ending, which is a newline or a
/// carriage return and a newline; the empty text where `s` is empty.
pub open spec fn first_line(s: Seq<char>) -> Seq<char> {
    let k = line_end(s);
    if 0 < k < s.len() && s[k - 1] == '\r' {
        s.subrange(0, k - 1)
    } else {
        s.subrange(0, k as int)
    }
}

/// Whether `c` is one of the ten decimal digits.
pub open spec fn is_digit(c: char) -> bool {
    0x30 <= c as u32 <= 0x39
}

/// The number that the digit `c` stands for.
pub open spec fn digit_value(c: char) -> nat {
    (c as u32 - 0x30) as nat
}

/// The number that the digits of `s` write in base ten.
pub open spec fn numeral_value(s: Seq<char>) -> nat
    decreases s.len(),
{
    if s.len() == 0 {
        0
    } else {
        numeral_value(s.drop_last()) * 10 + digit_value(s.last())
    }
}

/// Whether every character of `s` is a decimal digit.
pub open spec fn all_digits(s: Seq<char>) -> bool {
    forall|i: int| 0 <= i < s.len() ==> is_digit(#[trigger] s[i])
}

/// `s` without one leading plus sign.
pub open spec fn unsigned_body(s: Seq<char>) -> Seq<char> {
    if s.len() > 0 && s[0] == '+' {
        s.skip(1)
    } else {
        s
    }
}

/// The number of seconds that `s` writes: an optional plus sign and one or
/// more decimal digits, with a value that fits 64 bits. Nothing else is a
/// number of seconds.
pub open spec fn parsed_secs(s: Seq<char>) -> Option<u64> {
    let body = unsigned_body(s);
    if body.len() > 0 && all_digits(body) && numeral_value(body) <= u64::MAX {
        Some(numeral_value(body) as u64)
    } else {
        None
    }
}

/// Where every character before `a` is white space and the one at `a` is
/// not, `a` characters lead.
pub proof fn lemma_leading(s: Seq<char>, a: nat)
    requires
        a <= s.len(),
        forall|j: int| 0 <= j < a ==> is_space(#[trigger] s[j]),
        a < s.len() ==> !is_space(s[a as int]),
    ensures
        leading(s) == a,
    decreases a,
{
    if a > 0 {
        let rest = s.skip(1);
        assert forall|j: int| 0 <= j < a - 1 implies is_space(#[trigger] rest[j]) by {
            assert(rest[j] == s[j + 1]);
        }
        if a < s.len() {
            assert(rest[a - 1] == s[a as int]);
        }
        lemma_leading(rest, (a - 1) as nat);
    }
}

/// Where every character from `b` on is white space and the one before `b`
/// is not, all but `b` characters trail.
pub proof fn lemma_trailing(s: Seq<char>, b: nat)
    requires
        b <= s.len(),
        forall|j: int| b <= j < s.len() ==> is_space(#[trigger] s[j]),
        b > 0 ==> !is_space(s[b - 1]),
    ensures
        trailing(s) == s.len() - b,
    decreases s.len() - b,
{
    if b < s.len() {
        let rest = s.drop_last();
        assert forall|j: int| b <= j < rest.len() implies is_space(#[trigger] rest[j]) by {
            assert(rest[j] == s[j]);
        }
        if b > 0 {
            assert(rest[b - 1] == s[b - 1]);
        }
        lemma_trailing(rest, b);
    }
}

/// Where no character before `k` is a newline and the one at `k` is, or `s`
/// ends there, the first line ends at `k`.
pub proof fn lemma_line_end(s: Seq<char>, k: nat)
    requires
        k <= s.len(),
        forall|j: int| 0 <= j < k ==> #[trigger] s[j] != '\n',
        k < s.len() ==> s[k as int] == '\n',
    ensures
        line_end(s) == k,
    decreases k,
{
    if k > 0 {
        let rest = s.skip(1);
        assert forall|j: int| 0 <= j < k - 1 implies #[trigger] rest[j] != '\n' by {
            assert(rest[j] == s[j + 1]);
        }
        if k < s.len() {
            assert(rest[k - 1] == s[k as int]);
        }
        lemma_line_end(rest, (k - 1) as nat);
    }
}

/// Whether `c` is white space.
pub fn is_space_char(c: char) -> (b: bool)
    ensures
        b == is_space(c),
{
    let u: u32 = c as u32;
    (0x09 <= u && u <= 0x0D) || u == 0x20 || u == 0x85 || u == 0xA0 || u == 0x1680 || (0x2000 <= u
        && u <= 0x200A) || u == 0x2028 || u == 0x2029 || u == 0x202F || u == 0x205F || u == 0x3000
}

/// Whether `s` holds nothing but white space.
pub fn is_blank(s: &str) -> (b: bool)
    ensures
        b == blank(s@),
{
    let n = s.unicode_len();
    let mut i: usize = 0;
    while i < n
        invariant
            n == s@.len(),
            i <= n,
            forall|j: int| 0 <= j < i ==> is_space(#[trigger] s@[j]),
        decreases n - i,
    {
        if !is_space_char(s.get_char(i)) {
            return false;
        }
        i = i + 1;
    }
    true
}

/// `s` without the white space at its two ends.
pub fn trim_text(s: &str) -> (r: String)
    ensures
        r@ == trimmed(s@),
{
    let n = s.unicode_len();
    let mut a: usize = 0;
    while a < n && is_space_char(s.get_char(a))
        invariant
            n == s@.len(),
            a <= n,
            forall|j: int| 0 <= j < a ==> is_space(#[trigger] s@[j]),
        decreases n - a,
    {
        a = a + 1;
    }
    if a == n {
        assert(trimmed(s@) =~= Seq::<char>::empty());
        return String::new();
    }
    let mut b: usize = n;
    while b > a && is_space_char(s.get_char(b - 1))
        invariant
            n == s@.len(),
            a < n,
            a <= b <= n,
            !is_space(s@[a as int]),
            forall|j: int| b <= j < n ==> is_space(#[trigger] s@[j]),
        decreases b,
    {
        b = b - 1;
    }
    proof {
        lemma_leading(s@, a as nat);
        lemma_trailing(s@, b as nat);
    }
    String::from_str(s.substring_char(a, b))
}

/// The first line of `s`, without its line ending.
pub fn first_line_of(s: &str) -> (r: String)
    ensures
        r@ == first_line(s@),
{
    let n = s.unicode_len();
    let mut k: usize = 0;
    while k < n && s.get_char(k) != '\n'
        invariant
            n == s@.len(),
            k <= n,
            forall|j: int| 0 <= j < k ==> #[trigger] s@[j] != '\n',
        decreases n - k,
    {
        k = k + 1;
    }
    proof {
        lemma_line_end(s@, k as nat);
    }
    if 0 < k && k < n && s.get_char(k - 1) == '\r' {
        String::from_str(s.substring_char(0, k - 1))
    } else {
        String::from_str(s.substring_char(0, k))
    }
}

/// The number of seconds that `s` writes, if it writes one.
pub fn parse_secs(s: &str) -> (r: Option<u64>)
    ensures
        r == parsed_secs(s@),
{
    let n = s.unicode_len();
    let start: usize = if n > 0 && s.get_char(0) == '+' {
        1
    } else {
        0
    };
    let ghost body = unsigned_body(s@);
    assert(body =~= s@.subrange(start as int, n as int));
    if start == n {
        return None;
    }
    let mut value: u64 = 0;
    let mut i: usize = start;
    while i < n
        invariant
            n == s@.len(),
            start <= i <= n,
            body == unsigned_body(s@),
            body == s@.subrange(start as int, n as int),
            all_digits(body.subrange(0, i - start)),
            value == numeral_value(body.subrange(0, i - start)),
        decreases n - i,
    {
        let c = s.get_char(i);
        let ghost before = body.subrange(0, i - start);
        let ghost after = body.subrange(0, i + 1 - start);
        proof {
            assert(after.drop_last() =~= before);
            assert(after.last() == c);
            lemma_prefix_value(body, (i + 1 - start) as nat);
        }
        let u: u32 = c as u32;
        if u < 0x30 || u > 0x39 {
            assert(body[i - start] == c);
            assert(!is_digit(body[i - start]));
            assert(!all_digits(body));
            return None;
        }
        let d: u64 = (u - 0x30) as u64;
        if value > (u64::MAX - d) / 10 {
            assert(numeral_value(after) == value * 10 + d);
            assert(numeral_value(after) > u64::MAX);
            assert(numeral_value(body) >= numeral_value(after));
            return None;
        }
        value = value * 10 + d;
        assert forall|j: int| 0 <= j < after.len() implies is_digit(#[trigger] after[j]) by {
            if j < before.len() {
                assert(after[j] == before[j]);
            }
        }
        i = i + 1;
    }
    assert(body.subrange(0, n - start) =~= body);
    Some(value)
}

/// The digits read so far never write more than all the digits do.
pub proof fn lemma_prefix_value(s: Seq<char>, k: nat)
    requires
        k <= s.len(),
    ensures
        numeral_value(s.subrange(0, k as int)) <= numeral_value(s),
    decreases s.len() - k,
{
    if k < s.len() {
        lemma_prefix_value(s.drop_last(), k);
        assert(s.drop_last().subrange(0, k as int) =~= s.subrange(0, k as int));
    } else {
        assert(s.subrange(0, k as int) =~= s);
    }
}

} // verus!
