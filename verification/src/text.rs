//! Decimal numbers as text: the exact shape that the service writes and accepts.
use vstd::prelude::*;

verus! {

/// Whether `c` is one of the ASCII digits `0` to `9`.
pub open spec fn is_digit(c: char) -> bool {
    '0' <= c && c <= '9'
}

/// The value of the ASCII digit `c`.
pub open spec fn digit_value(c: char) -> nat {
    (c as int - '0' as int) as nat
}

/// The ASCII digit for `d` (meaningful for `d < 10`).
pub open spec fn digit_char(d: nat) -> char {
    (d + '0' as int) as char
}

/// The shortest decimal text of `n`: no sign and no leading zero.
pub open spec fn decimal_text(n: nat) -> Seq<char>
    decreases n,
{
    if n < 10 {
        seq![digit_char(n)]
    } else {
        decimal_text(n / 10).push(digit_char(n % 10))
    }
}

/// The text of an integer as Rust's `Display` writes it: a `-` for negative values.
pub open spec fn signed_text(i: int) -> Seq<char> {
    if i < 0 {
        seq!['-'] + decimal_text((-i) as nat)
    } else {
        decimal_text(i as nat)
    }
}

/// Whether every character of `s` is an ASCII digit.
pub open spec fn all_digits(s: Seq<char>) -> bool {
    forall|i: int| 0 <= i < s.len() ==> #[trigger] is_digit(s[i])
}

/// The value of a string of digits, read left to right.
pub open spec fn digits_value(s: Seq<char>) -> nat
    decreases s.len(),
{
    if s.len() == 0 {
        0
    } else {
        digits_value(s.drop_last()) * 10 + digit_value(s.last())
    }
}

/// Whether `s` is a non-empty run of digits.
pub open spec fn is_digit_run(s: Seq<char>) -> bool {
    s.len() > 0 && all_digits(s)
}

/// The integer that `s` denotes under the grammar of `i32::from_str`: an optional
/// `+` or `-`, then one digit or more.
pub open spec fn signed_value(s: Seq<char>) -> Option<int> {
    if s.len() > 0 && (s[0] == '-' || s[0] == '+') {
        if is_digit_run(s.drop_first()) {
            if s[0] == '-' {
                Some(-(digits_value(s.drop_first()) as int))
            } else {
                Some(digits_value(s.drop_first()) as int)
            }
        } else {
            None
        }
    } else if is_digit_run(s) {
        Some(digits_value(s) as int)
    } else {
        None
    }
}

/// The integer that `s` denotes under the grammar of `u32::from_str`: an optional
/// `+`, then one digit or more.
pub open spec fn unsigned_value(s: Seq<char>) -> Option<int> {
    if s.len() > 0 && s[0] == '-' {
        None
    } else {
        signed_value(s)
    }
}

/// What `i32::from_str` gives for `s`.
pub open spec fn i32_from_text(s: Seq<char>) -> Option<i32> {
    match signed_value(s) {
        Some(v) => if i32::MIN <= v <= i32::MAX { Some(v as i32) } else { None },
        None => None,
    }
}

/// What `u32::from_str` gives for `s`.
pub open spec fn u32_from_text(s: Seq<char>) -> Option<u32> {
    match unsigned_value(s) {
        Some(v) => if 0 <= v <= u32::MAX { Some(v as u32) } else { None },
        None => None,
    }
}

/// The shortest decimal text of a number is a non-empty run of digits that reads back
/// as the number, has no leading zero, and is as long as the number has digits.
pub proof fn lemma_decimal_text(n: nat)
    ensures
        is_digit_run(decimal_text(n)),
        digits_value(decimal_text(n)) == n,
        n > 0 ==> decimal_text(n)[0] != '0',
        n < 10 ==> decimal_text(n).len() == 1,
        10 <= n < 100 ==> decimal_text(n).len() == 2,
        100 <= n < 1000 ==> decimal_text(n).len() == 3,
        n < 1000 ==> decimal_text(n).len() <= 3,
    decreases n,
{
    if n >= 10 {
        lemma_decimal_text(n / 10);
        let t = decimal_text(n);
        assert(t.drop_last() == decimal_text(n / 10));
        assert forall|i: int| 0 <= i < t.len() implies #[trigger] is_digit(t[i]) by {
            if i < t.len() - 1 {
                assert(t[i] == decimal_text(n / 10)[i]);
            }
        }
        assert(t[0] == decimal_text(n / 10)[0]);
        assert(digit_value(digit_char(n % 10)) == n % 10);
        assert(digits_value(t) == digits_value(decimal_text(n / 10)) * 10 + n % 10);
        assert((n / 10) * 10 + n % 10 == n);
    } else {
        let t = decimal_text(n);
        assert(t.drop_last() =~= Seq::<char>::empty());
        assert(digits_value(Seq::<char>::empty()) == 0);
        assert(t.last() == digit_char(n));
        assert(digit_value(digit_char(n)) == n);
        assert(digits_value(t) == n);
    }
}

/// The text of an `i32` reads back, under the grammar of `i32::from_str`, as that `i32`.
pub proof fn lemma_signed_text_roundtrip(n: i32)
    ensures
        i32_from_text(signed_text(n as int)) == Some(n),
{
    if n < 0 {
        let t = decimal_text((-n) as nat);
        lemma_decimal_text((-n) as nat);
        let s = seq!['-'] + t;
        assert(s.drop_first() =~= t);
        assert(s[0] == '-');
    } else {
        let t = decimal_text(n as nat);
        lemma_decimal_text(n as nat);
        assert(is_digit(t[0]));
    }
}

/// Appends `c` to `s` (`String::push`).
#[verifier::external_body]
pub(crate) fn push_char(s: &mut String, c: char)
    ensures
        final(s)@ == old(s)@.push(c),
{
    s.push(c);
}

/// The ASCII digit for `d`.
pub fn digit_to_char(d: u32) -> (c: char)
    requires
        d < 10,
    ensures
        c == digit_char(d as nat),
        is_digit(c),
        digit_value(c) == d,
{
    ((d as u8) + 48u8) as char
}

/// Appends the shortest decimal text of `n` to `out`.
pub fn push_decimal(out: &mut String, n: u32)
    ensures
        final(out)@ == old(out)@ + decimal_text(n as nat),
    decreases n,
{
    if n >= 10 {
        push_decimal(out, n / 10);
    }
    let ghost before = out@;
    push_char(out, digit_to_char(n % 10));
    proof {
        if n >= 10 {
            assert(before == old(out)@ + decimal_text((n / 10) as nat));
            assert(out@ =~= old(out)@ + decimal_text(n as nat));
        } else {
            assert(out@ =~= old(out)@ + decimal_text(n as nat));
        }
    }
}

/// Appends the text of `n` as `Display` writes it to `out`.
pub fn push_signed_decimal(out: &mut String, n: i32)
    ensures
        final(out)@ == old(out)@ + signed_text(n as int),
{
    if n < 0 {
        push_char(out, '-');
        let magnitude: u32 = if n == i32::MIN {
            2147483648u32
        } else {
            (-n) as u32
        };
        push_decimal(out, magnitude);
        assert(out@ =~= old(out)@ + signed_text(n as int));
    } else {
        push_decimal(out, n as u32);
    }
}

/// The shortest decimal text of `n` (`n.to_string()`).
pub fn decimal_u32(n: u32) -> (r: String)
    ensures
        r@ == decimal_text(n as nat),
{
    let mut r = String::new();
    push_decimal(&mut r, n);
    assert(r@ =~= decimal_text(n as nat));
    r
}

/// The text of `n` as `Display` writes it (`n.to_string()`).
pub fn decimal_i32(n: i32) -> (r: String)
    ensures
        r@ == signed_text(n as int),
{
    let mut r = String::new();
    push_signed_decimal(&mut r, n);
    assert(r@ =~= signed_text(n as int));
    r
}

/// The characters of `s`, one by one.
pub fn chars_of(s: &str) -> (r: Vec<char>)
    ensures
        r@ == s@,
{
    let mut r: Vec<char> = Vec::new();
    for c in it: s.chars()
        invariant
            r@ == it.seq().take(it.index() as int),
            it.seq() == s@,
    {
        r.push(c);
    }
    r
}

/// The first position at or after `from` where `s` holds `c`.
pub open spec fn find_from(s: Seq<char>, c: char, from: int) -> Option<int>
    decreases s.len() - from,
{
    if from < 0 || from >= s.len() {
        None
    } else if s[from] == c {
        Some(from)
    } else {
        find_from(s, c, from + 1)
    }
}

/// Where `s[from..j]` holds no `c` and `s[j]` is `c`, the search from `from` stops at `j`;
/// where `s[from..]` holds no `c`, it finds nothing.
pub proof fn lemma_find_from(s: Seq<char>, c: char, from: int, j: int)
    requires
        0 <= from <= j <= s.len(),
        forall|k: int| from <= k < j ==> s[k] != c,
    ensures
        j < s.len() && s[j] == c ==> find_from(s, c, from) == Some(j),
        j == s.len() ==> find_from(s, c, from) is None,
    decreases j - from,
{
    if from < j {
        lemma_find_from(s, c, from + 1, j);
    }
}

/// The first position at or after `from` where `chars` holds `c`.
pub fn find_char(chars: &Vec<char>, c: char, from: usize) -> (r: Option<usize>)
    ensures
        r matches Some(i) ==> find_from(chars@, c, from as int) == Some(i as int),
        r is None ==> find_from(chars@, c, from as int) is None,
        r matches Some(i) ==> from <= i < chars.len() && chars@[i as int] == c,
{
    let mut i = from;
    if i >= chars.len() {
        return None;
    }
    while i < chars.len()
        invariant
            from <= i <= chars.len(),
            find_from(chars@, c, from as int) == find_from(chars@, c, i as int),
        decreases chars.len() - i,
    {
        if chars[i] == c {
            return Some(i);
        }
        i = i + 1;
    }
    None
}

/// The string of the characters `chars[start..end]`.
pub fn string_of_chars(chars: &Vec<char>, start: usize, end: usize) -> (r: String)
    requires
        start <= end <= chars.len(),
    ensures
        r@ == chars@.subrange(start as int, end as int),
{
    let mut r = String::new();
    let mut i = start;
    while i < end
        invariant
            start <= i <= end <= chars.len(),
            r@ == chars@.subrange(start as int, i as int),
        decreases end - i,
    {
        push_char(&mut r, chars[i]);
        i = i + 1;
        assert(r@ =~= chars@.subrange(start as int, i as int));
    }
    r
}

/// The bound above which the magnitude of a number no longer matters to the parsers:
/// no `i32` or `u32` is as large.
pub open spec fn magnitude_cap() -> nat {
    4294967296
}

/// The value of the digits `chars[start..end]`, or the cap where it is larger; `None`
/// where one of them is not a digit.
pub fn capped_digits_value(chars: &Vec<char>, start: usize, end: usize) -> (r: Option<u64>)
    requires
        start <= end <= chars.len(),
    ensures
        r is Some <==> all_digits(chars@.subrange(start as int, end as int)),
        r matches Some(m) ==> {
            let v = digits_value(chars@.subrange(start as int, end as int));
            &&& v < magnitude_cap() ==> m == v
            &&& v >= magnitude_cap() ==> m == magnitude_cap()
        },
{
    let cap: u64 = 4294967296;
    let mut acc: u64 = 0;
    let mut i = start;
    while i < end
        invariant
            start <= i <= end <= chars.len(),
            cap == magnitude_cap(),
            all_digits(chars@.subrange(start as int, i as int)),
            digits_value(chars@.subrange(start as int, i as int)) < magnitude_cap() ==> acc
                == digits_value(chars@.subrange(start as int, i as int)),
            digits_value(chars@.subrange(start as int, i as int)) >= magnitude_cap() ==> acc
                == cap,
        decreases end - i,
    {
        let c = chars[i];
        let ghost prev = chars@.subrange(start as int, i as int);
        let ghost next = chars@.subrange(start as int, i + 1);
        if !('0' <= c && c <= '9') {
            proof {
                assert(!is_digit(chars@.subrange(start as int, end as int)[i - start]));
            }
            return None;
        }
        assert(next.drop_last() =~= prev);
        assert(next.last() == c);
        let d = (c as u32) - ('0' as u32);
        assert(d == digit_value(c));
        if acc < cap {
            acc = acc * 10 + (d as u64);
            if acc > cap {
                acc = cap;
            }
        }
        i = i + 1;
        assert forall|k: int| 0 <= k < next.len() implies #[trigger] is_digit(next[k]) by {
            if k < prev.len() {
                assert(next[k] == prev[k]);
            }
        }
    }
    Some(acc)
}

/// `s.parse::<i32>().ok()`: the value of `s` under the grammar of `i32::from_str`.
pub fn parse_i32(s: &str) -> (r: Option<i32>)
    ensures
        r == i32_from_text(s@),
{
    let chars = chars_of(s);
    let n = chars.len();
    if n == 0 {
        return None;
    }
    let first = chars[0];
    let negative = first == '-';
    let start: usize = if first == '-' || first == '+' { 1 } else { 0 };
    if start == n {
        return None;
    }
    assert(start == 1 ==> chars@.subrange(1, n as int) =~= s@.drop_first());
    assert(start == 0 ==> chars@.subrange(0, n as int) =~= s@);
    match capped_digits_value(&chars, start, n) {
        None => None,
        Some(m) => {
            if negative {
                if m <= 2147483648 {
                    Some((0 - (m as i64)) as i32)
                } else {
                    None
                }
            } else {
                if m <= 2147483647 {
                    Some(m as i32)
                } else {
                    None
                }
            }
        },
    }
}

/// `s.parse::<u32>().ok()`: the value of `s` under the grammar of `u32::from_str`.
pub fn parse_u32(s: &str) -> (r: Option<u32>)
    ensures
        r == u32_from_text(s@),
{
    let chars = chars_of(s);
    let n = chars.len();
    if n == 0 {
        return None;
    }
    let first = chars[0];
    if first == '-' {
        return None;
    }
    let start: usize = if first == '+' { 1 } else { 0 };
    if start == n {
        return None;
    }
    assert(start == 1 ==> chars@.subrange(1, n as int) =~= s@.drop_first());
    assert(start == 0 ==> chars@.subrange(0, n as int) =~= s@);
    match capped_digits_value(&chars, start, n) {
        None => None,
        Some(m) => {
            if m <= 4294967295 {
                Some(m as u32)
            } else {
                None
            }
        },
    }
}

} // verus!
