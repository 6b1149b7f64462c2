//! Text primitives for sysfs attribute values: whitespace trimming and
//! splitting, decimal integer parsing and formatting, equality and
//! substring search. Each is specified over the character sequence of the
//! text (`s@`), with the same meaning as the standard-library operation it
//! stands for (`str::trim`, `str::split_whitespace`, `str::parse`,
//! `u64::to_string`, `str::contains`).

use vstd::prelude::*;
use vstd::string::*;

verus! {

// ---- whitespace ------------------------------------------------------------

/// The Unicode `White_Space` code points (the set `char::is_whitespace` tests).
pub open spec fn is_space_code(c: u32) -> bool {
    (0x09 <= c && c <= 0x0D) || c == 0x20 || c == 0x85 || c == 0xA0 || c == 0x1680 || (0x2000
        <= c && c <= 0x200A) || c == 0x2028 || c == 0x2029 || c == 0x202F || c == 0x205F || c
        == 0x3000
}

pub open spec fn is_space(c: char) -> bool {
    is_space_code(c as u32)
}

pub fn is_whitespace(c: char) -> (r: bool)
    ensures
        r == is_space(c),
{
    let v = c as u32;
    (0x09 <= v && v <= 0x0D) || v == 0x20 || v == 0x85 || v == 0xA0 || v == 0x1680 || (0x2000 <= v
        && v <= 0x200A) || v == 0x2028 || v == 0x2029 || v == 0x202F || v == 0x205F || v == 0x3000
}

/// `s` without its leading whitespace.
pub open spec fn trim_front(s: Seq<char>) -> Seq<char>
    decreases s.len(),
{
    if s.len() > 0 && is_space(s[0]) {
        trim_front(s.drop_first())
    } else {
        s
    }
}

/// `s` without its trailing whitespace.
pub open spec fn trim_back(s: Seq<char>) -> Seq<char>
    decreases s.len(),
{
    if s.len() > 0 && is_space(s.last()) {
        trim_back(s.drop_last())
    } else {
        s
    }
}

/// `s` without leading and trailing whitespace (`str::trim`).
pub open spec fn trimmed(s: Seq<char>) -> Seq<char> {
    trim_back(trim_front(s))
}

fn space_at(s: &str, i: usize) -> (r: bool)
    requires
        i < s@.len(),
    ensures
        r == is_space(s@[i as int]),
{
    is_whitespace(s.get_char(i))
}

/// Removes leading and trailing whitespace.
pub fn trim(s: &str) -> (r: &str)
    ensures
        r@ == trimmed(s@),
{
    let n = s.unicode_len();
    let mut i: usize = 0;
    assert(s@.subrange(0, n as int) =~= s@);
    while i < n && space_at(s, i)
        invariant
            n == s@.len(),
            i <= n,
            trim_front(s@) == trim_front(s@.subrange(i as int, n as int)),
        decreases n - i,
    {
        proof {
            assert(s@.subrange(i as int, n as int).drop_first() =~= s@.subrange(
                i + 1,
                n as int,
            ));
        }
        i = i + 1;
    }
    assert(trim_front(s@) == s@.subrange(i as int, n as int));
    let mut j: usize = n;
    while j > i && space_at(s, j - 1)
        invariant
            n == s@.len(),
            i <= j <= n,
            trim_front(s@) == s@.subrange(i as int, n as int),
            trim_back(s@.subrange(i as int, n as int)) == trim_back(
                s@.subrange(i as int, j as int),
            ),
        decreases j - i,
    {
        proof {
            assert(s@.subrange(i as int, j as int).drop_last() =~= s@.subrange(
                i as int,
                j - 1,
            ));
        }
        j = j - 1;
    }
    s.substring_char(i, j)
}

/// The texts of `v`, in order.
pub open spec fn texts(v: Seq<String>) -> Seq<Seq<char>> {
    v.map_values(|s: String| s@)
}

// ---- equality and search ---------------------------------------------------

/// Character-wise equality of two texts.
pub fn text_eq(a: &str, b: &str) -> (r: bool)
    ensures
        r == (a@ == b@),
{
    let n = a.unicode_len();
    let m = b.unicode_len();
    if n != m {
        return false;
    }
    let mut i: usize = 0;
    while i < n
        invariant
            n == a@.len(),
            m == b@.len(),
            n == m,
            i <= n,
            forall|k: int| 0 <= k < i ==> a@[k] == b@[k],
        decreases n - i,
    {
        if a.get_char(i) != b.get_char(i) {
            return false;
        }
        i = i + 1;
    }
    assert(a@ =~= b@);
    true
}

/// `needle` occurs in `hay` starting at position `i`.
pub open spec fn occurs_at(hay: Seq<char>, needle: Seq<char>, i: int) -> bool {
    0 <= i && i + needle.len() <= hay.len() && hay.subrange(i, i + needle.len()) == needle
}

/// `needle` occurs somewhere in `hay` (`str::contains`).
pub open spec fn contains_text(hay: Seq<char>, needle: Seq<char>) -> bool {
    exists|i: int| occurs_at(hay, needle, i)
}

fn matches_at(hay: &str, needle: &str, i: usize) -> (r: bool)
    requires
        i + needle@.len() <= hay@.len(),
    ensures
        r == occurs_at(hay@, needle@, i as int),
{
    let m = needle.unicode_len();
    let n = hay.unicode_len();
    let mut k: usize = 0;
    while k < m
        invariant
            m == needle@.len(),
            n == hay@.len(),
            i + m <= hay@.len(),
            k <= m,
            forall|t: int| 0 <= t < k ==> hay@[i + t] == needle@[t],
        decreases m - k,
    {
        if hay.get_char(i + k) != needle.get_char(k) {
            assert(hay@.subrange(i as int, i + m)[k as int] != needle@[k as int]);
            return false;
        }
        k = k + 1;
    }
    assert(hay@.subrange(i as int, i + m) =~= needle@);
    true
}

/// Whether `needle` occurs in `hay`.
pub fn contains(hay: &str, needle: &str) -> (r: bool)
    ensures
        r == contains_text(hay@, needle@),
{
    let n = hay.unicode_len();
    let m = needle.unicode_len();
    if m > n {
        return false;
    }
    if m == 0 {
        assert(hay@.subrange(0, 0) =~= needle@);
        assert(occurs_at(hay@, needle@, 0));
        return true;
    }
    let mut i: usize = 0;
    while i <= n - m
        invariant
            n == hay@.len(),
            m == needle@.len(),
            0 < m <= n,
            i <= n - m + 1,
            forall|t: int| 0 <= t < i ==> !occurs_at(hay@, needle@, t),
        decreases n - m + 1 - i,
    {
        if matches_at(hay, needle, i) {
            return true;
        }
        i = i + 1;
    }
    false
}

// ---- splitting on whitespace ----------------------------------------------

/// Length of the run of non-whitespace characters that starts `s`.
pub open spec fn word_len(s: Seq<char>) -> nat
    decreases s.len(),
{
    if s.len() == 0 || is_space(s[0]) {
        0
    } else {
        1 + word_len(s.drop_first())
    }
}

pub proof fn lemma_word_len_bound(s: Seq<char>)
    ensures
        word_len(s) <= s.len(),
    decreases s.len(),
{
    if s.len() > 0 && !is_space(s[0]) {
        lemma_word_len_bound(s.drop_first());
    }
}

/// The maximal runs of non-whitespace characters of `s`, in order
/// (`str::split_whitespace`).
pub open spec fn words(s: Seq<char>) -> Seq<Seq<char>>
    decreases s.len(),
{
    if s.len() == 0 {
        Seq::empty()
    } else if is_space(s[0]) {
        words(s.drop_first())
    } else {
        proof {
            lemma_word_len_bound(s);
        }
        seq![s.take(word_len(s) as int)] + words(s.skip(word_len(s) as int))
    }
}

proof fn lemma_word_len_step(s: Seq<char>, i: int, k: int)
    requires
        0 <= i <= k < s.len(),
        !is_space(s[k]),
        word_len(s.skip(i)) == (k - i) + word_len(s.skip(k)),
    ensures
        word_len(s.skip(i)) == (k + 1 - i) + word_len(s.skip(k + 1)),
{
    assert(s.skip(k).drop_first() =~= s.skip(k + 1));
}

/// Splits `s` into its whitespace-separated words.
pub fn split_words(s: &str) -> (r: Vec<String>)
    ensures
        r@.map_values(|w: String| w@) == words(s@),
{
    let n = s.unicode_len();
    let mut out: Vec<String> = Vec::new();
    let mut i: usize = 0;
    assert(s@.skip(0) =~= s@);
    assert(out@.map_values(|w: String| w@) + words(s@) =~= words(s@));
    while i < n
        invariant
            n == s@.len(),
            i <= n,
            words(s@) == out@.map_values(|w: String| w@) + words(s@.skip(i as int)),
        decreases n - i,
    {
        let c = s.get_char(i);
        if is_whitespace(c) {
            assert(s@.skip(i as int).drop_first() =~= s@.skip(i + 1));
            i = i + 1;
        } else {
            let mut j: usize = i;
            while j < n && !space_at(s, j)
                invariant
                    n == s@.len(),
                    i <= j <= n,
                    word_len(s@.skip(i as int)) == (j - i) + word_len(s@.skip(j as int)),
                    forall|t: int| i <= t < j ==> !is_space(#[trigger] s@[t]),
                decreases n - j,
            {
                proof {
                    lemma_word_len_step(s@, i as int, j as int);
                }
                j = j + 1;
            }
            assert(word_len(s@.skip(j as int)) == 0);
            let w = s.substring_char(i, j);
            let ghost before = out@.map_values(|w: String| w@);
            let ws = String::from_str(w);
            out.push(ws);
            proof {
                assert(s@.skip(i as int).take(j - i) =~= w@);
                assert(s@.skip(i as int).skip(j - i) =~= s@.skip(j as int));
                assert(out@.map_values(|w: String| w@) =~= before.push(w@));
                assert(words(s@.skip(i as int)) == seq![w@] + words(s@.skip(j as int)));
                assert(before + (seq![w@] + words(s@.skip(j as int))) =~= before.push(w@)
                    + words(s@.skip(j as int)));
            }
            i = j;
        }
    }
    assert(s@.skip(n as int) =~= Seq::<char>::empty());
    assert(out@.map_values(|w: String| w@) + Seq::<Seq<char>>::empty() =~= out@.map_values(
        |w: String| w@,
    ));
    out
}

// ---- decimal integers -----------------------------------------------------

/// Why a text is not a decimal integer of the wanted type; the kinds of
/// `core::num::ParseIntError`.
#[derive(Debug, Clone, Copy, PartialEq, Eq)]
pub enum IntErrorKind {
    Empty,
    InvalidDigit,
    PosOverflow,
    NegOverflow,
}

pub open spec fn is_digit(c: char) -> bool {
    48 <= (c as u32) && (c as u32) <= 57
}

pub open spec fn is_plus(c: char) -> bool {
    (c as u32) == 43
}

pub open spec fn is_minus(c: char) -> bool {
    (c as u32) == 45
}

pub open spec fn digit_value(c: char) -> int {
    (c as u32) - 48
}

/// Reads the digits `d` left to right onto the running value `acc`; fails
/// at the first non-digit, or with `over` as soon as the running value
/// exceeds `limit`.
pub open spec fn scan_digits(d: Seq<char>, acc: int, limit: int, over: IntErrorKind) -> Result<
    int,
    IntErrorKind,
>
    decreases d.len(),
{
    if d.len() == 0 {
        Ok(acc)
    } else if !is_digit(d[0]) {
        Err(IntErrorKind::InvalidDigit)
    } else if acc * 10 + digit_value(d[0]) > limit {
        Err(over)
    } else {
        scan_digits(d.drop_first(), acc * 10 + digit_value(d[0]), limit, over)
    }
}

/// `str::parse` for an unsigned type whose largest value is `limit`: an
/// optional `+`, then one or more ASCII digits.
pub open spec fn parse_unsigned(s: Seq<char>, limit: int) -> Result<int, IntErrorKind> {
    if s.len() == 0 {
        Err(IntErrorKind::Empty)
    } else if s.len() == 1 && (is_plus(s[0]) || is_minus(s[0])) {
        Err(IntErrorKind::InvalidDigit)
    } else if is_plus(s[0]) {
        scan_digits(s.drop_first(), 0, limit, IntErrorKind::PosOverflow)
    } else {
        scan_digits(s, 0, limit, IntErrorKind::PosOverflow)
    }
}

/// `str::parse` for a signed type ranging over `-min_magnitude ..= limit`:
/// an optional `+` or `-`, then one or more ASCII digits.
pub open spec fn parse_signed(s: Seq<char>, min_magnitude: int, limit: int) -> Result<
    int,
    IntErrorKind,
> {
    if s.len() == 0 {
        Err(IntErrorKind::Empty)
    } else if s.len() == 1 && (is_plus(s[0]) || is_minus(s[0])) {
        Err(IntErrorKind::InvalidDigit)
    } else if is_plus(s[0]) {
        scan_digits(s.drop_first(), 0, limit, IntErrorKind::PosOverflow)
    } else if is_minus(s[0]) {
        match scan_digits(s.drop_first(), 0, min_magnitude, IntErrorKind::NegOverflow) {
            Ok(v) => Ok(-v),
            Err(e) => Err(e),
        }
    } else {
        scan_digits(s, 0, limit, IntErrorKind::PosOverflow)
    }
}

pub open spec fn u64_text(s: Seq<char>) -> Result<u64, IntErrorKind> {
    match parse_unsigned(s, u64::MAX as int) {
        Ok(v) => Ok(v as u64),
        Err(e) => Err(e),
    }
}

pub open spec fn u32_text(s: Seq<char>) -> Result<u32, IntErrorKind> {
    match parse_unsigned(s, u32::MAX as int) {
        Ok(v) => Ok(v as u32),
        Err(e) => Err(e),
    }
}

pub open spec fn i64_text(s: Seq<char>) -> Result<i64, IntErrorKind> {
    match parse_signed(s, 0x8000_0000_0000_0000, i64::MAX as int) {
        Ok(v) => Ok(v as i64),
        Err(e) => Err(e),
    }
}

proof fn lemma_scan_bounds(d: Seq<char>, acc: int, limit: int, over: IntErrorKind)
    requires
        0 <= acc <= limit,
    ensures
        scan_digits(d, acc, limit, over) matches Ok(v) ==> 0 <= v <= limit,
    decreases d.len(),
{
    if d.len() > 0 && is_digit(d[0]) && acc * 10 + digit_value(d[0]) <= limit {
        lemma_scan_bounds(d.drop_first(), acc * 10 + digit_value(d[0]), limit, over);
    }
}

/// Scans the digits of `s` from position `start` to the end.
fn scan_from(s: &str, start: usize, limit: u64, over: IntErrorKind) -> (r: Result<u64, IntErrorKind>)
    requires
        start <= s@.len(),
    ensures
        match scan_digits(s@.subrange(start as int, s@.len() as int), 0, limit as int, over) {
            Ok(v) => r == Ok::<u64, IntErrorKind>(v as u64),
            Err(e) => r == Err::<u64, IntErrorKind>(e),
        },
        r matches Ok(v) ==> v <= limit,
{
    let n = s.unicode_len();
    let mut i: usize = start;
    let mut acc: u64 = 0;
    while i < n
        invariant
            n == s@.len(),
            start <= i <= n,
            acc <= limit,
            scan_digits(s@.subrange(start as int, n as int), 0, limit as int, over) == scan_digits(
                s@.subrange(i as int, n as int),
                acc as int,
                limit as int,
                over,
            ),
        decreases n - i,
    {
        let c = s.get_char(i);
        let ghost rest = s@.subrange(i as int, n as int);
        assert(rest[0] == c);
        assert(rest.drop_first() =~= s@.subrange(i + 1, n as int));
        let cv = c as u32;
        if cv < 48 || cv > 57 {
            return Err(IntErrorKind::InvalidDigit);
        }
        let d: u64 = (cv - 48) as u64;
        let next: u64 = match acc.checked_mul(10) {
            None => {
                return Err(over);
            },
            Some(m) => match m.checked_add(d) {
                None => {
                    return Err(over);
                },
                Some(v) => v,
            },
        };
        if next > limit {
            return Err(over);
        }
        acc = next;
        i = i + 1;
    }
    assert(s@.subrange(n as int, n as int).len() == 0);
    Ok(acc)
}

fn first_char_is(s: &str, code: u32) -> (r: bool)
    requires
        s@.len() > 0,
    ensures
        r == ((s@[0] as u32) == code),
        code == 43 ==> (r == is_plus(s@[0])),
        code == 45 ==> (r == is_minus(s@[0])),
{
    (s.get_char(0) as u32) == code
}

/// `s.parse::<u64>()`.
pub fn parse_u64(s: &str) -> (r: Result<u64, IntErrorKind>)
    ensures
        r == u64_text(s@),
{
    let n = s.unicode_len();
    if n == 0 {
        return Err(IntErrorKind::Empty);
    }
    let plus = first_char_is(s, 43);
    let minus = first_char_is(s, 45);
    
    
    if n == 1 && (plus || minus) {
        return Err(IntErrorKind::InvalidDigit);
    }
    let start: usize = if plus { 1 } else { 0 };
    assert(s@.subrange(0, n as int) =~= s@);
    assert(s@.subrange(1, n as int) =~= s@.drop_first());
    scan_from(s, start, u64::MAX, IntErrorKind::PosOverflow)
}

/// `s.parse::<u32>()`.
pub fn parse_u32(s: &str) -> (r: Result<u32, IntErrorKind>)
    ensures
        r == u32_text(s@),
{
    let n = s.unicode_len();
    if n == 0 {
        return Err(IntErrorKind::Empty);
    }
    let plus = first_char_is(s, 43);
    let minus = first_char_is(s, 45);
    
    
    if n == 1 && (plus || minus) {
        return Err(IntErrorKind::InvalidDigit);
    }
    let start: usize = if plus { 1 } else { 0 };
    assert(s@.subrange(0, n as int) =~= s@);
    assert(s@.subrange(1, n as int) =~= s@.drop_first());
    proof {
        lemma_scan_bounds(s@.drop_first(), 0, 0xFFFF_FFFF, IntErrorKind::PosOverflow);
        lemma_scan_bounds(s@, 0, 0xFFFF_FFFF, IntErrorKind::PosOverflow);
    }
    match scan_from(s, start, 0xFFFF_FFFF, IntErrorKind::PosOverflow) {
        Ok(v) => Ok(v as u32),
        Err(e) => Err(e),
    }
}

/// `s.parse::<i64>()`.
pub fn parse_i64(s: &str) -> (r: Result<i64, IntErrorKind>)
    ensures
        r == i64_text(s@),
{
    let n = s.unicode_len();
    if n == 0 {
        return Err(IntErrorKind::Empty);
    }
    let plus = first_char_is(s, 43);
    let minus = first_char_is(s, 45);
    
    
    if n == 1 && (plus || minus) {
        return Err(IntErrorKind::InvalidDigit);
    }
    assert(s@.subrange(0, n as int) =~= s@);
    assert(s@.subrange(1, n as int) =~= s@.drop_first());
    proof {
        lemma_scan_bounds(s@.drop_first(), 0, 0x8000_0000_0000_0000, IntErrorKind::NegOverflow);
        lemma_scan_bounds(s@.drop_first(), 0, 0x7FFF_FFFF_FFFF_FFFF, IntErrorKind::PosOverflow);
        lemma_scan_bounds(s@, 0, 0x7FFF_FFFF_FFFF_FFFF, IntErrorKind::PosOverflow);
    }
    if minus {
        match scan_from(s, 1, 0x8000_0000_0000_0000, IntErrorKind::NegOverflow) {
            Ok(v) => {
                if v == 0x8000_0000_0000_0000 {
                    Ok(i64::MIN)
                } else {
                    Ok(-(v as i64))
                }
            },
            Err(e) => Err(e),
        }
    } else {
        let start: usize = if plus { 1 } else { 0 };
        match scan_from(s, start, 0x7FFF_FFFF_FFFF_FFFF, IntErrorKind::PosOverflow) {
            Ok(v) => Ok(v as i64),
            Err(e) => Err(e),
        }
    }
}

/// The decimal digit character for `d` (`0 <= d <= 9`).
pub open spec fn digit_char(d: int) -> char {
    (d + 48) as char
}

/// The decimal representation of `n`, without sign or leading zeros
/// (`n.to_string()`).
pub open spec fn decimal(n: nat) -> Seq<char>
    decreases n,
{
    if n < 10 {
        seq![digit_char(n as int)]
    } else {
        decimal(n / 10).push(digit_char((n % 10) as int))
    }
}

fn digit_text(d: u64) -> (r: &'static str)
    requires
        d < 10,
    ensures
        r@ == seq![digit_char(d as int)],
{
    match d {
        0 => {
            proof {
                reveal_strlit("0");
            }
            "0"
        },
        1 => {
            proof {
                reveal_strlit("1");
            }
            "1"
        },
        2 => {
            proof {
                reveal_strlit("2");
            }
            "2"
        },
        3 => {
            proof {
                reveal_strlit("3");
            }
            "3"
        },
        4 => {
            proof {
                reveal_strlit("4");
            }
            "4"
        },
        5 => {
            proof {
                reveal_strlit("5");
            }
            "5"
        },
        6 => {
            proof {
                reveal_strlit("6");
            }
            "6"
        },
        7 => {
            proof {
                reveal_strlit("7");
            }
            "7"
        },
        8 => {
            proof {
                reveal_strlit("8");
            }
            "8"
        },
        _ => {
            proof {
                reveal_strlit("9");
            }
            "9"
        },
    }
}

/// Formats `n` in decimal.
pub fn to_decimal(n: u64) -> (r: String)
    ensures
        r@ == decimal(n as nat),
    decreases n,
{
    if n < 10 {
        String::from_str(digit_text(n))
    } else {
        let head = to_decimal(n / 10);
        let tail = digit_text(n % 10);
        let r = head.concat(tail);
        assert(r@ =~= decimal(n as nat));
        r
    }
}

proof fn lemma_digit_char(d: int)
    requires
        0 <= d <= 9,
    ensures
        is_digit(digit_char(d)),
        digit_value(digit_char(d)) == d,
        !is_plus(digit_char(d)),
        !is_minus(digit_char(d)),
{
    assert((d + 48) as char as u32 == d + 48);
}

proof fn lemma_scan_push(s: Seq<char>, c: char, acc: int, limit: int, over: IntErrorKind)
    ensures
        scan_digits(s.push(c), acc, limit, over) == match scan_digits(s, acc, limit, over) {
            Ok(v) => if !is_digit(c) {
                Err(IntErrorKind::InvalidDigit)
            } else if v * 10 + digit_value(c) > limit {
                Err(over)
            } else {
                Ok(v * 10 + digit_value(c))
            },
            Err(e) => Err(e),
        },
    decreases s.len(),
{
    reveal_with_fuel(scan_digits, 2);
    if s.len() == 0 {
        assert(s.push(c).drop_first() =~= Seq::<char>::empty());
    } else {
        assert(s.push(c)[0] == s[0]);
        assert(s.push(c).drop_first() =~= s.drop_first().push(c));
        if is_digit(s[0]) && acc * 10 + digit_value(s[0]) <= limit {
            lemma_scan_push(s.drop_first(), c, acc * 10 + digit_value(s[0]), limit, over);
        }
    }
}

proof fn lemma_decimal_shape(n: nat)
    ensures
        decimal(n).len() >= 1,
        is_digit(decimal(n)[0]),
        !is_plus(decimal(n)[0]),
        !is_minus(decimal(n)[0]),
    decreases n,
{
    if n < 10 {
        lemma_digit_char(n as int);
    } else {
        lemma_decimal_shape(n / 10);
        assert(decimal(n)[0] == decimal(n / 10)[0]);
    }
}

proof fn lemma_scan_decimal(n: nat, limit: int, over: IntErrorKind)
    requires
        n <= limit,
    ensures
        scan_digits(decimal(n), 0, limit, over) == Ok::<int, IntErrorKind>(n as int),
    decreases n,
{
    reveal_with_fuel(scan_digits, 2);
    if n < 10 {
        lemma_digit_char(n as int);
        assert(decimal(n).drop_first() =~= Seq::<char>::empty());
    } else {
        lemma_scan_decimal(n / 10, limit, over);
        lemma_digit_char((n % 10) as int);
        lemma_scan_push(decimal(n / 10), digit_char((n % 10) as int), 0, limit, over);
        assert((n / 10) * 10 + n % 10 == n);
    }
}

/// A number written in decimal reads back as the same number: parsing the
/// text of `n.to_string()` as a `u64` gives `n`. (A value that the library
/// writes to a sysfs attribute, such as a raw brightness, is what a later
/// read of that attribute yields.)
pub proof fn lemma_decimal_reads_back(n: u64)
    ensures
        u64_text(decimal(n as nat)) == Ok::<u64, IntErrorKind>(n),
{
    lemma_decimal_shape(n as nat);
    lemma_scan_decimal(n as nat, u64::MAX as int, IntErrorKind::PosOverflow);
}

} // verus!
