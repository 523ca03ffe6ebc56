//! Character-level helpers shared by the scanners and the formatters.

use vstd::prelude::*;

verus! {

/// `String::push` appends one character to the end of the string.
pub assume_specification[ String::push ](s: &mut String, c: char)
    ensures
        final(s)@ == old(s)@.push(c),
;

/// The characters of `s`, in order.
pub fn to_chars(s: &str) -> (r: Vec<char>)
    ensures
        r@ == s@,
{
    let mut out: Vec<char> = Vec::new();
    for c in it: s.chars()
        invariant
            it.seq() == s@,
            out@ == it.seq().take(it.index()),
    {
        out.push(c);
    }
    out
}

/// The string made of `chars[from..to]`.
pub fn from_chars(chars: &Vec<char>, from: usize, to: usize) -> (r: String)
    requires
        from <= to <= chars@.len(),
    ensures
        r@ == chars@.subrange(from as int, to as int),
{
    let mut out = String::new();
    let mut i: usize = from;
    while i < to
        invariant
            from <= i <= to <= chars@.len(),
            out@ == chars@.subrange(from as int, i as int),
        decreases to - i,
    {
        out.push(chars[i]);
        i += 1;
    }
    out
}

/// Whether two strings hold the same characters.
pub fn str_eq(a: &str, b: &str) -> (r: bool)
    ensures
        r == (a@ == b@),
{
    let x = a.to_owned();
    let y = b.to_owned();
    x == y
}

/// Whether `needle` stands in `haystack` at the index `at`.
pub open spec fn occurs_at(haystack: Seq<char>, needle: Seq<char>, at: int) -> bool {
    0 <= at && at + needle.len() <= haystack.len() && haystack.subrange(
        at,
        at + needle.len() as int,
    ) == needle
}

/// The index of the first occurrence of `needle` in `haystack`.
pub open spec fn first_occurrence(haystack: Seq<char>, needle: Seq<char>) -> Option<int> {
    if exists|at: int| occurs_at(haystack, needle, at) {
        Some(
            choose|at: int|
                occurs_at(haystack, needle, at) && forall|before: int|
                    0 <= before < at ==> !occurs_at(haystack, needle, before),
        )
    } else {
        None
    }
}

/// Whether `needle` stands in `haystack` at the index `at`.
fn matches_at(haystack: &Vec<char>, needle: &Vec<char>, at: usize) -> (r: bool)
    requires
        at + needle@.len() <= haystack@.len(),
    ensures
        r == occurs_at(haystack@, needle@, at as int),
{
    let total: usize = haystack.len();
    let mut k: usize = 0;
    while k < needle.len()
        invariant
            k <= needle@.len(),
            at + needle@.len() <= haystack@.len() == total,
            forall|j: int| 0 <= j < k ==> haystack@[at + j] == needle@[j],
        decreases needle@.len() - k,
    {
        if haystack[at + k] != needle[k] {
            assert(haystack@.subrange(at as int, at + needle@.len() as int)[k as int]
                == haystack@[at + k]);
            return false;
        }
        k += 1;
    }
    assert(haystack@.subrange(at as int, at + needle@.len() as int) =~= needle@);
    true
}

/// Finds the first occurrence of `needle` in `haystack`.
pub fn find(haystack: &Vec<char>, needle: &Vec<char>) -> (r: Option<usize>)
    ensures
        match r {
            Some(at) => occurs_at(haystack@, needle@, at as int) && forall|before: int|
                0 <= before < at ==> !occurs_at(haystack@, needle@, before),
            None => forall|at: int| !occurs_at(haystack@, needle@, at),
        },
        match first_occurrence(haystack@, needle@) {
            Some(at) => r == Some(at as usize),
            None => r is None,
        },
{
    if needle.len() > haystack.len() {
        return None;
    }
    let last: usize = haystack.len() - needle.len();
    let mut at: usize = 0;
    loop
        invariant
            at <= last,
            last == haystack@.len() - needle@.len(),
            forall|before: int| 0 <= before < at ==> !occurs_at(haystack@, needle@, before),
        decreases last - at,
    {
        if matches_at(haystack, needle, at) {
            proof {
                first_occurrence_is(haystack@, needle@, at as int);
            }
            return Some(at);
        }
        if at == last {
            return None;
        }
        at += 1;
    }
}

/// An occurrence that none comes before is the first.
pub proof fn first_occurrence_is(haystack: Seq<char>, needle: Seq<char>, at: int)
    requires
        occurs_at(haystack, needle, at),
        forall|before: int| 0 <= before < at ==> !occurs_at(haystack, needle, before),
    ensures
        first_occurrence(haystack, needle) == Some(at),
{
    let found = first_occurrence(haystack, needle)->0;
    assert(occurs_at(haystack, needle, found) && forall|before: int|
        0 <= before < found ==> !occurs_at(haystack, needle, before));
    if found < at {
        assert(!occurs_at(haystack, needle, found));
    } else if at < found {
        assert(!occurs_at(haystack, needle, at));
    }
}

/// Whether `c` is one of the digits `0` to `9`.
pub open spec fn is_digit(c: char) -> bool {
    '0' <= c && c <= '9'
}

/// The number that the digit `c` writes.
pub open spec fn digit_value(c: char) -> nat {
    if is_digit(c) {
        (c as nat - '0' as nat) as nat
    } else {
        0
    }
}

/// Whether `digits` is a decimal numeral: not empty, and made of the digits
/// `0` to `9` only.
pub open spec fn is_decimal(digits: Seq<char>) -> bool {
    digits.len() > 0 && forall|i: int| 0 <= i < digits.len() ==> is_digit(#[trigger] digits[i])
}

/// The number that the digits `digits[..upto]` write in base ten.
pub open spec fn decimal_value(digits: Seq<char>, upto: nat) -> nat
    decreases upto,
{
    if upto == 0 || upto > digits.len() {
        0
    } else {
        decimal_value(digits, (upto - 1) as nat) * 10 + digit_value(digits[upto - 1])
    }
}

/// The number that a decimal numeral writes, where it fits in 32 bits.
pub open spec fn parsed_u32(digits: Seq<char>) -> Option<u32> {
    if is_decimal(digits) && decimal_value(digits, digits.len()) <= u32::MAX {
        Some(decimal_value(digits, digits.len()) as u32)
    } else {
        None
    }
}

/// The value of a numeral does not shrink as more digits are read.
pub proof fn decimal_value_grows(digits: Seq<char>, a: nat, b: nat)
    requires
        a <= b <= digits.len(),
    ensures
        decimal_value(digits, a) <= decimal_value(digits, b),
    decreases b,
{
    if a < b {
        decimal_value_grows(digits, a, (b - 1) as nat);
    }
}

/// Reads a decimal numeral. Anything but the digits `0` to `9`, the empty
/// text and a number beyond 32 bits are refused.
pub fn parse_u32(digits: &str) -> (r: Option<u32>)
    ensures
        r == parsed_u32(digits@),
{
    let chars = to_chars(digits);
    if chars.len() == 0 {
        return None;
    }
    let mut value: u32 = 0;
    let mut i: usize = 0;
    while i < chars.len()
        invariant
            i <= chars@.len(),
            chars@ == digits@,
            chars@.len() > 0,
            forall|j: int| 0 <= j < i ==> is_digit(#[trigger] chars@[j]),
            value == decimal_value(chars@, i as nat),
        decreases chars@.len() - i,
    {
        let c = chars[i];
        if !('0' <= c && c <= '9') {
            assert(!is_digit(chars@[i as int]));
            return None;
        }
        let digit: u32 = c as u32 - '0' as u32;
        let next = match value.checked_mul(10) {
            Some(tens) => tens.checked_add(digit),
            None => None,
        };
        match next {
            Some(next) => {
                value = next;
            },
            None => {
                proof {
                    assert(decimal_value(chars@, (i + 1) as nat) > u32::MAX);
                    decimal_value_grows(chars@, (i + 1) as nat, chars@.len());
                }
                return None;
            },
        }
        i += 1;
    }
    Some(value)
}

/// The digit that writes `d`, for `d` below ten.
pub open spec fn digit_char(d: nat) -> char
    recommends
        d < 10,
{
    (('0' as nat + d) as u8) as char
}

/// The decimal numeral of `n`, without leading zeros.
pub open spec fn decimal(n: nat) -> Seq<char>
    decreases n,
{
    if n < 10 {
        seq![digit_char(n)]
    } else {
        decimal(n / 10).push(digit_char(n % 10))
    }
}

/// The value of a numeral reads only the digits that it is asked for.
pub proof fn decimal_value_prefix(a: Seq<char>, b: Seq<char>, upto: nat)
    requires
        upto <= a.len(),
        upto <= b.len(),
        forall|i: int| 0 <= i < upto ==> a[i] == b[i],
    ensures
        decimal_value(a, upto) == decimal_value(b, upto),
    decreases upto,
{
    if upto > 0 {
        decimal_value_prefix(a, b, (upto - 1) as nat);
    }
}

/// The decimal numeral of a number is a decimal numeral, and it writes that
/// number: what is written is read back.
pub proof fn decimal_is_read_back(n: nat)
    ensures
        is_decimal(decimal(n)),
        decimal_value(decimal(n), decimal(n).len()) == n,
        n <= u32::MAX ==> parsed_u32(decimal(n)) == Some(n as u32),
    decreases n,
{
    if n >= 10 {
        let head = decimal(n / 10);
        let digit = digit_char(n % 10);
        let all = head.push(digit);
        decimal_is_read_back(n / 10);
        decimal_value_prefix(all, head, head.len());
        assert(is_digit(digit));
        assert(digit_value(digit) == n % 10);
        assert forall|i: int| 0 <= i < all.len() implies is_digit(#[trigger] all[i]) by {
            if i < head.len() {
                assert(all[i] == head[i]);
            }
        }
    } else {
        assert(is_digit(digit_char(n)));
        assert(digit_value(digit_char(n)) == n);
        assert(decimal_value(decimal(n), 0) == 0);
    }
}

/// Writes `n` in base ten.
pub fn u64_to_string(n: u64) -> (r: String)
    ensures
        r@ == decimal(n as nat),
{
    let mut digits: Vec<char> = Vec::new();
    let mut rest: u64 = n;
    while rest >= 10
        invariant
            decimal(n as nat) == decimal(rest as nat) + digits@.reverse(),
        decreases rest,
    {
        let d: u8 = (rest % 10) as u8;
        let ghost before = digits@;
        digits.push((48u8 + d) as char);
        proof {
            assert(digits@.reverse() =~= seq![digit_char((rest % 10) as nat)] + before.reverse());
            assert(decimal(rest as nat) == decimal((rest / 10) as nat).push(
                digit_char((rest % 10) as nat),
            ));
            assert(decimal(n as nat) =~= decimal((rest / 10) as nat) + digits@.reverse());
        }
        rest = rest / 10;
    }
    let ghost before = digits@;
    digits.push((48u8 + rest as u8) as char);
    proof {
        assert(digits@.reverse() =~= seq![digit_char(rest as nat)] + before.reverse());
        assert(decimal(n as nat) =~= digits@.reverse());
    }
    let mut out = String::new();
    let mut i: usize = digits.len();
    while i > 0
        invariant
            i <= digits@.len(),
            out@ == digits@.reverse().take(digits@.len() - i),
        decreases i,
    {
        i -= 1;
        out.push(digits[i]);
        assert(out@ =~= digits@.reverse().take(digits@.len() - i));
    }
    assert(out@ =~= digits@.reverse());
    out
}

/// Writes `n` in base ten.
pub fn u32_to_string(n: u32) -> (r: String)
    ensures
        r@ == decimal(n as nat),
{
    u64_to_string(n as u64)
}

} // verus!
