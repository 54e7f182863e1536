//! Text helpers shared by the leak rendering and the tool session: decimal
//! numerals, white space, and the clean-up of a tool's diagnostic output.
use vstd::prelude::*;

verus! {

/// The decimal digit character for `d`, where `d` is below ten.
pub open spec fn digit_char(d: nat) -> char {
    if d == 0 {
        '0'
    } else if d == 1 {
        '1'
    } else if d == 2 {
        '2'
    } else if d == 3 {
        '3'
    } else if d == 4 {
        '4'
    } else if d == 5 {
        '5'
    } else if d == 6 {
        '6'
    } else if d == 7 {
        '7'
    } else if d == 8 {
        '8'
    } else {
        '9'
    }
}

/// The decimal numeral of `n`, without sign or leading zeros.
pub open spec fn decimal(n: nat) -> Seq<char>
    decreases n,
{
    if n < 10 {
        seq![digit_char(n)]
    } else {
        decimal(n / 10).push(digit_char(n % 10))
    }
}

fn digit_str(d: usize) -> (r: &'static str)
    requires
        d < 10,
    ensures
        r@ == seq![digit_char(d as nat)],
{
    let r = if d == 0 {
        proof { reveal_strlit("0"); }
        "0"
    } else if d == 1 {
        proof { reveal_strlit("1"); }
        "1"
    } else if d == 2 {
        proof { reveal_strlit("2"); }
        "2"
    } else if d == 3 {
        proof { reveal_strlit("3"); }
        "3"
    } else if d == 4 {
        proof { reveal_strlit("4"); }
        "4"
    } else if d == 5 {
        proof { reveal_strlit("5"); }
        "5"
    } else if d == 6 {
        proof { reveal_strlit("6"); }
        "6"
    } else if d == 7 {
        proof { reveal_strlit("7"); }
        "7"
    } else if d == 8 {
        proof { reveal_strlit("8"); }
        "8"
    } else {
        proof { reveal_strlit("9"); }
        "9"
    };
    assert(r@ =~= seq![digit_char(d as nat)]);
    r
}

/// Renders `n` in decimal.
pub fn decimal_string(n: usize) -> (r: String)
    ensures
        r@ == decimal(n as nat),
    decreases n,
{
    if n < 10 {
        String::from_str(digit_str(n))
    } else {
        let mut s = decimal_string(n / 10);
        s.append(digit_str(n % 10));
        s
    }
}

/// Unicode white space, as `char::is_whitespace` documents it (the
/// `White_Space` property).
pub open spec fn is_white(c: char) -> bool {
    ('\t' <= c && c <= '\r') || c == ' ' || c == '\u{85}' || c == '\u{a0}' || c == '\u{1680}'
        || ('\u{2000}' <= c && c <= '\u{200a}') || c == '\u{2028}' || c == '\u{2029}'
        || c == '\u{202f}' || c == '\u{205f}' || c == '\u{3000}'
}

fn white(c: char) -> (r: bool)
    ensures
        r == is_white(c),
{
    ('\t' <= c && c <= '\r') || c == ' ' || c == '\u{85}' || c == '\u{a0}' || c == '\u{1680}'
        || ('\u{2000}' <= c && c <= '\u{200a}') || c == '\u{2028}' || c == '\u{2029}'
        || c == '\u{202f}' || c == '\u{205f}' || c == '\u{3000}'
}

/// The conventional prefix of a tool's error line: `error: `.
pub open spec fn error_prefix() -> Seq<char> {
    seq!['e', 'r', 'r', 'o', 'r', ':', ' ']
}

/// `s` with every leading copy of [`error_prefix`] removed.
pub open spec fn strip_error_prefixes(s: Seq<char>) -> Seq<char>
    decreases s.len(),
{
    if s.len() >= 7 && s.subrange(0, 7) == error_prefix() {
        strip_error_prefixes(s.subrange(7, s.len() as int))
    } else {
        s
    }
}

/// `s` without leading white space.
pub open spec fn trim_start(s: Seq<char>) -> Seq<char>
    decreases s.len(),
{
    if s.len() > 0 && is_white(s[0]) {
        trim_start(s.subrange(1, s.len() as int))
    } else {
        s
    }
}

/// `s` without trailing white space.
pub open spec fn trim_end(s: Seq<char>) -> Seq<char>
    decreases s.len(),
{
    if s.len() > 0 && is_white(s.last()) {
        trim_end(s.drop_last())
    } else {
        s
    }
}

/// The explanation a tool gives on its error stream: leading `error: `
/// prefixes stripped, then surrounding white space trimmed.
pub open spec fn tool_message(stderr: Seq<char>) -> Seq<char> {
    trim_end(trim_start(strip_error_prefixes(stderr)))
}

fn prefix_at(s: &str, len: usize, i: usize) -> (r: bool)
    requires
        len == s@.len(),
        i <= len,
    ensures
        r == (i + 7 <= len && s@.subrange(i as int, i + 7) == error_prefix()),
{
    if len - i < 7 {
        return false;
    }
    let r = s.get_char(i) == 'e' && s.get_char(i + 1) == 'r' && s.get_char(i + 2) == 'r'
        && s.get_char(i + 3) == 'o' && s.get_char(i + 4) == 'r' && s.get_char(i + 5) == ':'
        && s.get_char(i + 6) == ' ';
    if r {
        assert(s@.subrange(i as int, i + 7) =~= error_prefix());
    } else {
        assert(s@.subrange(i as int, i + 7) != error_prefix()) by {
            if s@.subrange(i as int, i + 7) == error_prefix() {
                assert(s@.subrange(i as int, i + 7)[0] == s@[i as int]);
                assert(s@.subrange(i as int, i + 7)[1] == s@[i + 1]);
                assert(s@.subrange(i as int, i + 7)[2] == s@[i + 2]);
                assert(s@.subrange(i as int, i + 7)[3] == s@[i + 3]);
                assert(s@.subrange(i as int, i + 7)[4] == s@[i + 4]);
                assert(s@.subrange(i as int, i + 7)[5] == s@[i + 5]);
                assert(s@.subrange(i as int, i + 7)[6] == s@[i + 6]);
            }
        }
    }
    r
}

/// The message of a failed tool run, from the text on its error stream:
/// leading `error: ` prefixes stripped and surrounding white space trimmed.
pub fn tool_error_message(stderr: &str) -> (r: String)
    ensures
        r@ == tool_message(stderr@),
{
    let len = stderr.unicode_len();
    let ghost s = stderr@;
    let mut i: usize = 0;
    assert(s.subrange(0, len as int) =~= s);
    while prefix_at(stderr, len, i)
        invariant
            len == s.len(),
            s == stderr@,
            i <= len,
            strip_error_prefixes(s) == strip_error_prefixes(s.subrange(i as int, len as int)),
        decreases len - i,
    {
        let ghost t = s.subrange(i as int, len as int);
        assert(t.subrange(0, 7) =~= s.subrange(i as int, i + 7));
        assert(t.subrange(7, t.len() as int) =~= s.subrange(i + 7, len as int));
        i = i + 7;
    }
    proof {
        let t = s.subrange(i as int, len as int);
        assert(t.len() >= 7 ==> t.subrange(0, 7) =~= s.subrange(i as int, i + 7));
    }
    let mut j: usize = i;
    while j < len && white(stderr.get_char(j))
        invariant
            len == s.len(),
            s == stderr@,
            i <= j <= len,
            trim_start(strip_error_prefixes(s)) == trim_start(s.subrange(j as int, len as int)),
        decreases len - j,
    {
        let ghost t = s.subrange(j as int, len as int);
        assert(t.subrange(1, t.len() as int) =~= s.subrange(j + 1, len as int));
        j = j + 1;
    }
    let mut k: usize = len;
    while k > j && white(stderr.get_char(k - 1))
        invariant
            len == s.len(),
            s == stderr@,
            j <= k <= len,
            trim_start(strip_error_prefixes(s)) == trim_start(s.subrange(j as int, len as int)),
            tool_message(s) == trim_end(s.subrange(j as int, k as int)),
        decreases k - j,
    {
        assert(s.subrange(j as int, k as int).drop_last() =~= s.subrange(j as int, k - 1));
        k = k - 1;
    }
    let r = stderr.substring_char(j, k);
    String::from_str(r)
}

/// The value of a hexadecimal digit, if `c` is one.
pub open spec fn hex_digit(c: char) -> Option<nat> {
    if '0' <= c && c <= '9' {
        Some((c as nat - '0' as nat) as nat)
    } else if 'a' <= c && c <= 'f' {
        Some((c as nat - 'a' as nat + 10) as nat)
    } else if 'A' <= c && c <= 'F' {
        Some((c as nat - 'A' as nat + 10) as nat)
    } else {
        None
    }
}

/// The value of the hexadecimal digits `s`, if all of them are digits.
pub open spec fn hex_value(s: Seq<char>) -> Option<nat>
    decreases s.len(),
{
    if s.len() == 0 {
        Some(0)
    } else {
        match (hex_value(s.drop_last()), hex_digit(s.last())) {
            (Some(v), Some(d)) => Some(v * 16 + d),
            _ => None,
        }
    }
}

/// The digits of a hexadecimal numeral: after a `0x` or `0X` prefix, if it
/// has one.
pub open spec fn hex_digits(s: Seq<char>) -> Seq<char> {
    if s.len() >= 2 && s[0] == '0' && (s[1] == 'x' || s[1] == 'X') {
        s.subrange(2, s.len() as int)
    } else {
        s
    }
}

fn hex_digit_of(c: char) -> (r: Option<u64>)
    ensures
        match r {
            Some(d) => hex_digit(c) == Some(d as nat) && d < 16,
            None => hex_digit(c) is None,
        },
{
    if '0' <= c && c <= '9' {
        Some(c as u64 - '0' as u64)
    } else if 'a' <= c && c <= 'f' {
        Some(c as u64 - 'a' as u64 + 10)
    } else if 'A' <= c && c <= 'F' {
        Some(c as u64 - 'A' as u64 + 10)
    } else {
        None
    }
}

/// The number that the hexadecimal numeral `s` (with or without a `0x`
/// prefix) stands for; `None` when it has no digits, holds a character that
/// is not a digit, or does not fit in a `u64`.
pub fn parse_hex(s: &str) -> (r: Option<u64>)
    ensures
        match r {
            Some(v) => hex_digits(s@).len() > 0 && hex_value(hex_digits(s@)) == Some(v as nat),
            None => hex_digits(s@).len() == 0 || hex_value(hex_digits(s@)) is None || hex_value(
                hex_digits(s@),
            )->Some_0 > u64::MAX,
        },
{
    let n = s.unicode_len();
    let start: usize = if n >= 2 && s.get_char(0) == '0' && (s.get_char(1) == 'x' || s.get_char(1) == 'X') {
        2
    } else {
        0
    };
    let ghost digits = hex_digits(s@);
    assert(digits =~= s@.subrange(start as int, n as int));
    if start == n {
        return None;
    }
    let mut v: u64 = 0;
    let mut i: usize = start;
    while i < n
        invariant
            start <= i <= n,
            n == s@.len(),
            digits == s@.subrange(start as int, n as int),
            digits == hex_digits(s@),
            hex_value(digits.subrange(0, i - start)) == Some(v as nat),
        decreases n - i,
    {
        let ghost pre = digits.subrange(0, i - start);
        let ghost next = digits.subrange(0, i + 1 - start);
        assert(next.drop_last() =~= pre);
        assert(next.last() == s@[i as int]);
        match hex_digit_of(s.get_char(i)) {
            None => {
                assert(hex_value(next) is None);
                proof { lemma_hex_none_extends(digits, (i + 1 - start) as int); }
                return None;
            },
            Some(d) => {
                if v > (u64::MAX - d) / 16 {
                    assert(v * 16 + d > u64::MAX) by (nonlinear_arith)
                        requires
                            v > (u64::MAX - d) / 16,
                            d < 16,
                    ;
                    assert(hex_value(next) == Some((v * 16 + d) as nat));
                    proof { lemma_hex_grows(digits, (i + 1 - start) as int); }
                    return None;
                }
                assert(v * 16 + d <= u64::MAX) by (nonlinear_arith)
                    requires
                        v <= (u64::MAX - d) / 16,
                        d < 16,
                ;
                v = v * 16 + d;
            },
        }
        i = i + 1;
    }
    assert(digits.subrange(0, n - start) =~= digits);
    Some(v)
}

proof fn lemma_hex_none_extends(s: Seq<char>, k: int)
    requires
        0 <= k <= s.len(),
        hex_value(s.subrange(0, k)) is None,
    ensures
        hex_value(s) is None,
    decreases s.len() - k,
{
    if k < s.len() {
        assert(s.subrange(0, k + 1).drop_last() =~= s.subrange(0, k));
        lemma_hex_none_extends(s, k + 1);
    } else {
        assert(s.subrange(0, k) =~= s);
    }
}

proof fn lemma_hex_grows(s: Seq<char>, k: int)
    requires
        0 <= k <= s.len(),
        hex_value(s.subrange(0, k)) is None || hex_value(s.subrange(0, k))->Some_0 > u64::MAX,
    ensures
        hex_value(s) is None || hex_value(s)->Some_0 > u64::MAX,
    decreases s.len() - k,
{
    if k < s.len() {
        assert(s.subrange(0, k + 1).drop_last() =~= s.subrange(0, k));
        lemma_hex_grows(s, k + 1);
    } else {
        assert(s.subrange(0, k) =~= s);
    }
}

} // verus!
