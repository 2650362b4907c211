//! Character-level helpers shared by the protocol and discovery code:
//! whitespace trimming, decimal numbers, and conversion between strings and
//! character vectors.

use vstd::prelude::*;
use vstd::std_specs::iter::IteratorSpec;

verus! {

broadcast use vstd::string::group_string_axioms;

// ---------------------------------------------------------------------------
// Strings and character vectors
// ---------------------------------------------------------------------------

/// The characters of `s`, in order.
pub fn chars_of(s: &str) -> (v: Vec<char>)
    ensures
        v@ == s@,
{
    let mut v: Vec<char> = Vec::new();
    let mut it = s.chars();
    loop
        invariant
            it.obeys_prophetic_iter_laws(),
            it.decrease() is Some,
            v@ + it.remaining() == s@,
        ensures
            v@ == s@,
        decreases it.decrease()->0,
    {
        match it.next() {
            Some(c) => {
                v.push(c);
            },
            None => {
                break;
            },
        }
    }
    v
}

/// `String::push` of the standard library: `c` is appended to `s` and
/// nothing else changes.
#[verifier::external_body]
fn push_char(s: &mut String, c: char)
    ensures
        final(s)@ == old(s)@.push(c),
{
    s.push(c)
}

/// The string made of `chars[from..to]`.
pub fn string_of(chars: &Vec<char>, from: usize, to: usize) -> (s: String)
    requires
        from <= to <= chars.len(),
    ensures
        s@ == chars@.subrange(from as int, to as int),
{
    let mut s = String::new();
    let mut i: usize = from;
    while i < to
        invariant
            from <= i <= to <= chars.len(),
            s@ == chars@.subrange(from as int, i as int),
        decreases to - i,
    {
        push_char(&mut s, chars[i]);
        i += 1;
        assert(chars@.subrange(from as int, i as int) == chars@.subrange(
            from as int,
            i as int - 1,
        ).push(chars@[i as int - 1]));
    }
    s
}

/// Whether two character sequences are the same text.
pub fn same_chars(a: &Vec<char>, b: &Vec<char>) -> (r: bool)
    ensures
        r == (a@ == b@),
{
    if a.len() != b.len() {
        return false;
    }
    let mut i: usize = 0;
    while i < a.len()
        invariant
            a.len() == b.len(),
            i <= a.len(),
            forall|k: int| 0 <= k < i ==> a@[k] == b@[k],
        decreases a.len() - i,
    {
        if a[i] != b[i] {
            return false;
        }
        i += 1;
    }
    assert(a@ =~= b@);
    true
}

/// Whether `s` and `t` hold the same text.
pub fn same_text(s: &str, t: &str) -> (r: bool)
    ensures
        r == (s@ == t@),
{
    let a = chars_of(s);
    let b = chars_of(t);
    same_chars(&a, &b)
}

// ---------------------------------------------------------------------------
// Whitespace
// ---------------------------------------------------------------------------

/// The characters with the Unicode property `White_Space`.
pub open spec fn is_whitespace(c: char) -> bool {
    let n = c as u32;
    ||| 0x09 <= n <= 0x0D
    ||| n == 0x20
    ||| n == 0x85
    ||| n == 0xA0
    ||| n == 0x1680
    ||| 0x2000 <= n <= 0x200A
    ||| n == 0x2028
    ||| n == 0x2029
    ||| n == 0x202F
    ||| n == 0x205F
    ||| n == 0x3000
}

/// Executable form of [`is_whitespace`].
pub fn char_is_whitespace(c: char) -> (r: bool)
    ensures
        r == is_whitespace(c),
{
    let n: u32 = c as u32;
    (0x09 <= n && n <= 0x0D) || n == 0x20 || n == 0x85 || n == 0xA0 || n == 0x1680 || (0x2000 <= n
        && n <= 0x200A) || n == 0x2028 || n == 0x2029 || n == 0x202F || n == 0x205F || n == 0x3000
}

/// Index of the first character at or after `from` that is not whitespace,
/// or the length of `s` if there is none.
pub open spec fn skip_whitespace(s: Seq<char>, from: int) -> int
    decreases s.len() - from,
{
    if 0 <= from < s.len() && is_whitespace(s[from]) {
        skip_whitespace(s, from + 1)
    } else {
        from
    }
}

/// The end of the text that remains between `floor` and `upto` once trailing
/// whitespace is dropped.
pub open spec fn drop_trailing_whitespace(s: Seq<char>, floor: int, upto: int) -> int
    decreases upto - floor,
{
    if floor < upto <= s.len() && is_whitespace(s[upto - 1]) {
        drop_trailing_whitespace(s, floor, upto - 1)
    } else {
        upto
    }
}

/// Start of `s` without its leading whitespace.
pub open spec fn trim_start_index(s: Seq<char>) -> int {
    skip_whitespace(s, 0)
}

/// End of `s` without its trailing whitespace.
pub open spec fn trim_end_index(s: Seq<char>) -> int {
    drop_trailing_whitespace(s, trim_start_index(s), s.len() as int)
}

/// `s` without leading and trailing whitespace.
pub open spec fn trimmed(s: Seq<char>) -> Seq<char> {
    s.subrange(trim_start_index(s), trim_end_index(s))
}

/// The bounds of [`skip_whitespace`].
pub proof fn lemma_skip_whitespace_bounds(s: Seq<char>, from: int)
    requires
        0 <= from <= s.len(),
    ensures
        from <= skip_whitespace(s, from) <= s.len(),
        forall|k: int| from <= k < skip_whitespace(s, from) ==> is_whitespace(#[trigger] s[k]),
        skip_whitespace(s, from) < s.len() ==> !is_whitespace(s[skip_whitespace(s, from)]),
    decreases s.len() - from,
{
    if from < s.len() && is_whitespace(s[from]) {
        lemma_skip_whitespace_bounds(s, from + 1);
    }
}

/// The bounds of [`drop_trailing_whitespace`].
pub proof fn lemma_drop_trailing_bounds(s: Seq<char>, floor: int, upto: int)
    requires
        0 <= floor <= upto <= s.len(),
    ensures
        floor <= drop_trailing_whitespace(s, floor, upto) <= upto,
        forall|k: int|
            drop_trailing_whitespace(s, floor, upto) <= k < upto ==> is_whitespace(
                #[trigger] s[k],
            ),
        floor < drop_trailing_whitespace(s, floor, upto) ==> !is_whitespace(
            s[drop_trailing_whitespace(s, floor, upto) - 1],
        ),
    decreases upto - floor,
{
    if floor < upto && is_whitespace(s[upto - 1]) {
        lemma_drop_trailing_bounds(s, floor, upto - 1);
    }
}

/// What trimming leaves: a range of `s` with only whitespace outside it and
/// no whitespace at either of its ends.
pub proof fn lemma_trimmed(s: Seq<char>)
    ensures
        0 <= trim_start_index(s) <= trim_end_index(s) <= s.len(),
        forall|k: int| 0 <= k < trim_start_index(s) ==> is_whitespace(#[trigger] s[k]),
        forall|k: int| trim_end_index(s) <= k < s.len() ==> is_whitespace(#[trigger] s[k]),
        trimmed(s).len() > 0 ==> !is_whitespace(trimmed(s).first()) && !is_whitespace(
            trimmed(s).last(),
        ),
{
    lemma_skip_whitespace_bounds(s, 0);
    lemma_drop_trailing_bounds(s, trim_start_index(s), s.len() as int);
}

/// The bounds of `chars` without leading and trailing whitespace.
pub fn trim_bounds(chars: &Vec<char>) -> (r: (usize, usize))
    ensures
        r.0 == trim_start_index(chars@),
        r.1 == trim_end_index(chars@),
        r.0 <= r.1 <= chars.len(),
{
    let n = chars.len();
    let mut start: usize = 0;
    while start < n && char_is_whitespace(chars[start])
        invariant
            n == chars.len(),
            start <= n,
            skip_whitespace(chars@, start as int) == skip_whitespace(chars@, 0),
        decreases n - start,
    {
        start += 1;
    }
    let mut end: usize = n;
    while start < end && char_is_whitespace(chars[end - 1])
        invariant
            n == chars.len(),
            start <= end <= n,
            drop_trailing_whitespace(chars@, start as int, end as int) == drop_trailing_whitespace(
                chars@,
                start as int,
                n as int,
            ),
        decreases end - start,
    {
        end -= 1;
    }
    (start, end)
}

// ---------------------------------------------------------------------------
// Lines
// ---------------------------------------------------------------------------

/// Index of the first line break of `s` at or after `from`; the length of
/// `s` if there is none.
pub open spec fn first_newline(s: Seq<char>, from: int) -> int
    decreases s.len() - from,
{
    if 0 <= from < s.len() && s[from] != '\n' {
        first_newline(s, from + 1)
    } else {
        from
    }
}

/// Whether `s` holds no line break.
pub open spec fn is_single_line(s: Seq<char>) -> bool {
    forall|i: int| 0 <= i < s.len() ==> s[i] != '\n'
}

/// Two texts without line break make one without line break.
pub proof fn lemma_single_line_concat(a: Seq<char>, b: Seq<char>)
    requires
        is_single_line(a),
        is_single_line(b),
    ensures
        is_single_line(a + b),
{
    assert forall|i: int| 0 <= i < (a + b).len() implies (a + b)[i] != '\n' by {
        if i < a.len() {
            assert((a + b)[i] == a[i]);
        } else {
            assert((a + b)[i] == b[i - a.len()]);
        }
    }
}

// ---------------------------------------------------------------------------
// Decimal numbers
// ---------------------------------------------------------------------------

/// Whether `c` is one of `0` to `9`.
pub open spec fn is_digit(c: char) -> bool {
    '0' <= c <= '9'
}

/// The value of the digit `c`.
pub open spec fn digit_value(c: char) -> int {
    c as int - '0' as int
}

/// Whether `s` is made of decimal digits only.
pub open spec fn all_digits(s: Seq<char>) -> bool {
    forall|i: int| 0 <= i < s.len() ==> is_digit(#[trigger] s[i])
}

/// The number that the digits of `s` write in base ten.
pub open spec fn digits_value(s: Seq<char>) -> nat
    decreases s.len(),
{
    if s.len() == 0 {
        0
    } else {
        (digits_value(s.drop_last()) * 10 + digit_value(s.last())) as nat
    }
}

/// The digit character of `d`, for `d` below ten.
pub open spec fn digit_char(d: nat) -> char {
    (('0' as nat) + d) as char
}

/// `n` written in base ten, without leading zeros.
pub open spec fn decimal(n: nat) -> Seq<char>
    decreases n,
{
    if n < 10 {
        seq![digit_char(n)]
    } else {
        decimal(n / 10).push(digit_char(n % 10))
    }
}

/// A number in base ten is made of digits, at least one.
pub proof fn lemma_decimal_is_digits(n: nat)
    ensures
        all_digits(decimal(n)),
        decimal(n).len() > 0,
    decreases n,
{
    if n >= 10 {
        lemma_decimal_is_digits(n / 10);
        let front = decimal(n / 10);
        let whole = decimal(n);
        assert forall|i: int| 0 <= i < whole.len() implies is_digit(#[trigger] whole[i]) by {
            if i < front.len() {
                assert(whole[i] == front[i]);
            }
        }
    }
}

/// A whole number in base ten holds no line break.
pub proof fn lemma_signed_decimal_single_line(i: int)
    ensures
        is_single_line(signed_decimal(i)),
{
    if i < 0 {
        lemma_decimal_is_digits((-i) as nat);
        let digits = decimal((-i) as nat);
        assert forall|k: int| 0 <= k < digits.len() implies digits[k] != '\n' by {
            assert(is_digit(digits[k]));
        }
        assert(is_single_line(seq!['-']));
        lemma_single_line_concat(seq!['-'], digits);
    } else {
        lemma_decimal_is_digits(i as nat);
        let digits = decimal(i as nat);
        assert forall|k: int| 0 <= k < digits.len() implies digits[k] != '\n' by {
            assert(is_digit(digits[k]));
        }
    }
}

/// `i` written in base ten, with a minus sign when it is negative.
pub open spec fn signed_decimal(i: int) -> Seq<char> {
    if i < 0 {
        seq!['-'] + decimal((-i) as nat)
    } else {
        decimal(i as nat)
    }
}

/// What `s` reads as an unsigned number: an optional `+`, then at least one
/// digit and nothing else. `None` for any other text.
pub open spec fn unsigned_value(s: Seq<char>) -> Option<nat> {
    let digits = if s.len() > 0 && s[0] == '+' {
        s.skip(1)
    } else {
        s
    };
    if digits.len() > 0 && all_digits(digits) {
        Some(digits_value(digits))
    } else {
        None
    }
}

/// What `s` reads as a whole number: an optional `-`, then at least one digit
/// and nothing else. `None` for any other text.
pub open spec fn integer_value(s: Seq<char>) -> Option<int> {
    let negative = s.len() > 0 && s[0] == '-';
    let digits = if negative {
        s.skip(1)
    } else {
        s
    };
    if digits.len() > 0 && all_digits(digits) {
        if negative {
            Some(-(digits_value(digits) as int))
        } else {
            Some(digits_value(digits) as int)
        }
    } else {
        None
    }
}

/// A number never gets smaller when digits are appended to it.
pub proof fn lemma_digits_value_monotonic(s: Seq<char>, k: int)
    requires
        all_digits(s),
        0 <= k <= s.len(),
    ensures
        digits_value(s.take(k)) <= digits_value(s),
    decreases s.len() - k,
{
    if k == s.len() {
        assert(s.take(k) == s);
    } else {
        lemma_digits_value_monotonic(s, k + 1);
        assert(s.take(k + 1).drop_last() == s.take(k));
        assert(is_digit(s[k]));
        assert(s.take(k + 1).last() == s[k]);
    }
}

/// The value of the digits `chars[from..to]`, when they are all digits and
/// the value is at most `limit`.
pub fn digits_in(chars: &Vec<char>, from: usize, to: usize, limit: u64) -> (r: Option<u64>)
    requires
        from <= to <= chars.len(),
    ensures
        ({
            let d = chars@.subrange(from as int, to as int);
            r == if all_digits(d) && digits_value(d) <= limit {
                Some(digits_value(d) as u64)
            } else {
                None
            }
        }),
{
    let ghost d = chars@.subrange(from as int, to as int);
    let mut value: u64 = 0;
    let mut i: usize = from;
    while i < to
        invariant
            from <= i <= to <= chars.len(),
            d == chars@.subrange(from as int, to as int),
            all_digits(d.take(i - from)),
            value == digits_value(d.take(i - from)),
            value <= limit,
        decreases to - i,
    {
        let c = chars[i];
        let ghost prefix = d.take(i - from + 1);
        proof {
            assert(prefix.drop_last() == d.take(i - from));
            assert(prefix.last() == c);
        }
        if !('0' <= c && c <= '9') {
            proof {
                assert(!is_digit(d[i - from]));
            }
            return None;
        }
        let digit: u64 = (c as u32 - '0' as u32) as u64;
        let ghost next = value as int * 10 + digit as int;
        proof {
            assert(all_digits(prefix)) by {
                assert forall|k: int| 0 <= k < prefix.len() implies is_digit(
                    #[trigger] prefix[k],
                ) by {
                    if k < i - from {
                        assert(prefix[k] == d.take(i - from)[k]);
                    }
                }
            }
            assert(digits_value(prefix) == next);
        }
        if limit < digit || value > (limit - digit) / 10 {
            proof {
                assert(next > limit) by (nonlinear_arith)
                    requires
                        next == value * 10 + digit,
                        value > (limit - digit) / 10 || limit < digit,
                        0 <= digit,
                        0 <= value,
                        0 <= limit,
                ;
                if all_digits(d) {
                    lemma_digits_value_monotonic(d, i - from + 1);
                }
            }
            return None;
        }
        assert(next <= limit) by (nonlinear_arith)
            requires
                next == value * 10 + digit,
                value <= (limit - digit) / 10,
                digit <= limit,
        ;
        value = value * 10 + digit;
        i += 1;
    }
    proof {
        assert(d.take(to - from) == d);
    }
    Some(value)
}

/// Reads `chars[from..to]` as an unsigned number that fits 32 bits, as the
/// standard library reads a `u32`.
pub fn parse_u32(chars: &Vec<char>, from: usize, to: usize) -> (r: Option<u32>)
    requires
        from <= to <= chars.len(),
    ensures
        ({
            let v = unsigned_value(chars@.subrange(from as int, to as int));
            r == if v is Some && v->0 <= u32::MAX {
                Some(v->0 as u32)
            } else {
                None
            }
        }),
{
    let ghost s = chars@.subrange(from as int, to as int);
    let start = if from < to && chars[from] == '+' {
        from + 1
    } else {
        from
    };
    proof {
        if s.len() > 0 && s[0] == '+' {
            assert(s.skip(1) == chars@.subrange(start as int, to as int));
        } else {
            assert(s == chars@.subrange(start as int, to as int));
        }
    }
    if start == to {
        return None;
    }
    match digits_in(chars, start, to, 0xffff_ffff) {
        Some(v) => Some(v as u32),
        None => None,
    }
}

/// Reads `chars` as a whole number between `-below` and `above`.
pub fn parse_integer(chars: &Vec<char>, below: u64, above: u64) -> (r: Option<i128>)
    ensures
        ({
            let v = integer_value(chars@);
            r == if v is Some && -(below as int) <= v->0 <= above as int {
                Some(v->0 as i128)
            } else {
                None
            }
        }),
{
    let n = chars.len();
    let negative = n > 0 && chars[0] == '-';
    let start: usize = if negative {
        1
    } else {
        0
    };
    proof {
        if negative {
            assert(chars@.skip(1) == chars@.subrange(1, n as int));
        } else {
            assert(chars@ == chars@.subrange(0, n as int));
        }
    }
    if start == n {
        return None;
    }
    if negative {
        match digits_in(chars, start, n, below) {
            Some(v) => Some(-(v as i128)),
            None => None,
        }
    } else {
        match digits_in(chars, start, n, above) {
            Some(v) => Some(v as i128),
            None => None,
        }
    }
}

/// Appends `n` in base ten to `out`.
pub fn push_decimal(out: &mut Vec<char>, n: u128)
    ensures
        final(out)@ == old(out)@ + decimal(n as nat),
    decreases n,
{
    if n >= 10 {
        push_decimal(out, n / 10);
    }
    let d: u8 = (n % 10) as u8;
    let c: char = (48u8 + d) as char;
    assert(c == digit_char((n % 10) as nat));
    out.push(c);
}

/// Appends `n` in base ten to `out`, with a minus sign when it is negative.
pub fn push_signed_decimal(out: &mut Vec<char>, n: i128)
    ensures
        final(out)@ == old(out)@ + signed_decimal(n as int),
{
    if n < 0 {
        out.push('-');
        let magnitude: u128 = if n == i128::MIN {
            170141183460469231731687303715884105728u128
        } else {
            (-n) as u128
        };
        push_decimal(out, magnitude);
        assert(final(out)@ == old(out)@ + (seq!['-'] + decimal((-n) as nat)));
    } else {
        push_decimal(out, n as u128);
    }
}

/// `n` in base ten.
pub fn decimal_string(n: i128) -> (s: String)
    ensures
        s@ == signed_decimal(n as int),
{
    let mut out: Vec<char> = Vec::new();
    push_signed_decimal(&mut out, n);
    let len = out.len();
    let s = string_of(&out, 0, len);
    assert(out@.subrange(0, len as int) == out@);
    s
}

// ---------------------------------------------------------------------------
// Durations
// ---------------------------------------------------------------------------

/// The digits behind the point of `thousandths` thousandths, without the
/// zeros at their end: none for a whole number.
pub open spec fn fraction_digits(thousandths: nat) -> Seq<char> {
    let tenths = digit_char(thousandths / 100 % 10);
    let hundredths = digit_char(thousandths / 10 % 10);
    let last = digit_char(thousandths % 10);
    if thousandths % 1000 == 0 {
        Seq::empty()
    } else if thousandths % 100 == 0 {
        seq![tenths]
    } else if thousandths % 10 == 0 {
        seq![tenths, hundredths]
    } else {
        seq![tenths, hundredths, last]
    }
}

/// A time of `ms` milliseconds as the standard library shows a duration:
/// in seconds from one second on, with up to three digits behind the point
/// and no zeros at their end, else in milliseconds, and nothing at all as
/// `0ns`.
pub open spec fn duration_text(ms: nat) -> Seq<char> {
    if ms == 0 {
        "0ns"@
    } else if ms < 1000 {
        decimal(ms) + "ms"@
    } else if ms % 1000 == 0 {
        decimal(ms / 1000) + "s"@
    } else {
        decimal(ms / 1000) + seq!['.'] + fraction_digits(ms % 1000) + "s"@
    }
}

/// The digit character of `d`.
fn digit_of(d: u64) -> (c: char)
    requires
        d < 10,
    ensures
        c == digit_char(d as nat),
{
    (48u8 + d as u8) as char
}

/// A time of `ms` milliseconds as the standard library shows a duration.
pub fn duration_string(ms: u64) -> (s: String)
    ensures
        s@ == duration_text(ms as nat),
{
    if ms == 0 {
        return String::from_str("0ns");
    }
    let mut out: Vec<char> = Vec::new();
    if ms < 1000 {
        push_decimal(&mut out, ms as u128);
        let n = out.len();
        let mut s = string_of(&out, 0, n);
        assert(out@.subrange(0, n as int) == out@);
        s.append("ms");
        return s;
    }
    push_decimal(&mut out, (ms / 1000) as u128);
    let f = ms % 1000;
    if f != 0 {
        out.push('.');
        out.push(digit_of(f / 100));
        if f % 100 != 0 {
            out.push(digit_of(f / 10 % 10));
            if f % 10 != 0 {
                out.push(digit_of(f % 10));
            }
        }
        assert(out@ =~= decimal((ms / 1000) as nat) + seq!['.'] + fraction_digits(f as nat));
    }
    let n = out.len();
    let mut s = string_of(&out, 0, n);
    assert(out@.subrange(0, n as int) == out@);
    s.append("s");
    s
}

} // verus!
