//! Small text helpers shared by the label builders, the score-file
//! serializer and the hand-written parsers: decimal digits in and out.

use vstd::prelude::*;

verus! {

/// The character for one decimal digit value.
pub open spec fn digit_char(d: int) -> char {
    ((d + 48) as u8) as char
}

/// The decimal representation of `n`, most significant digit first.
pub open spec fn dec_rep(n: nat) -> Seq<char>
    decreases n,
{
    if n < 10 {
        seq![digit_char(n as int)]
    } else {
        dec_rep(n / 10).push(digit_char((n % 10) as int))
    }
}

/// Whether `c` is an ASCII decimal digit.
pub open spec fn spec_is_dec_digit(c: char) -> bool {
    '0' <= c <= '9'
}

/// The numeric value of an ASCII decimal digit.
pub open spec fn digit_value(c: char) -> int {
    c as int - 48
}

/// The value of a digit string, most significant digit first.
pub open spec fn dec_value(s: Seq<char>) -> int
    decreases s.len(),
{
    if s.len() == 0 {
        0
    } else {
        dec_value(s.drop_last()) * 10 + digit_value(s.last())
    }
}

fn digit_str(d: u64) -> (s: &'static str)
    requires
        d < 10,
    ensures
        s@ == seq![digit_char(d as int)],
{
    proof {
        reveal_strlit("0");
        reveal_strlit("1");
        reveal_strlit("2");
        reveal_strlit("3");
        reveal_strlit("4");
        reveal_strlit("5");
        reveal_strlit("6");
        reveal_strlit("7");
        reveal_strlit("8");
        reveal_strlit("9");
    }
    match d {
        0 => "0",
        1 => "1",
        2 => "2",
        3 => "3",
        4 => "4",
        5 => "5",
        6 => "6",
        7 => "7",
        8 => "8",
        _ => "9",
    }
}

/// Renders `n` in decimal, most significant digit first.
pub fn u64_to_dec_string(n: u64) -> (s: String)
    ensures
        s@ == dec_rep(n as nat),
    decreases n,
{
    if n < 10 {
        digit_str(n).to_owned()
    } else {
        let mut s = u64_to_dec_string(n / 10);
        s.append(digit_str(n % 10));
        s
    }
}

pub fn char_is_dec_digit(c: char) -> (b: bool)
    ensures
        b == spec_is_dec_digit(c),
{
    '0' <= c && c <= '9'
}

/// The lower-case character for one hexadecimal digit value.
pub open spec fn hex_digit_char(d: int) -> char {
    if d < 10 {
        digit_char(d)
    } else {
        ((d + 87) as u8) as char
    }
}

/// `n` in hexadecimal, zero-padded to exactly `width` digits, most
/// significant digit first.
pub open spec fn hex_rep_fixed(n: nat, width: nat) -> Seq<char>
    decreases width,
{
    if width == 0 {
        Seq::empty()
    } else {
        hex_rep_fixed(n / 16, (width - 1) as nat).push(hex_digit_char((n % 16) as int))
    }
}

fn hex_digit_str(d: u128) -> (s: &'static str)
    requires
        d < 16,
    ensures
        s@ == seq![hex_digit_char(d as int)],
{
    proof {
        reveal_strlit("0");
        reveal_strlit("1");
        reveal_strlit("2");
        reveal_strlit("3");
        reveal_strlit("4");
        reveal_strlit("5");
        reveal_strlit("6");
        reveal_strlit("7");
        reveal_strlit("8");
        reveal_strlit("9");
        reveal_strlit("a");
        reveal_strlit("b");
        reveal_strlit("c");
        reveal_strlit("d");
        reveal_strlit("e");
        reveal_strlit("f");
    }
    match d {
        0 => "0",
        1 => "1",
        2 => "2",
        3 => "3",
        4 => "4",
        5 => "5",
        6 => "6",
        7 => "7",
        8 => "8",
        9 => "9",
        10 => "a",
        11 => "b",
        12 => "c",
        13 => "d",
        14 => "e",
        _ => "f",
    }
}

/// Renders `n` as exactly `width` lower-case hexadecimal digits.
pub fn u128_to_hex_fixed(n: u128, width: usize) -> (s: String)
    ensures
        s@ == hex_rep_fixed(n as nat, width as nat),
    decreases width,
{
    if width == 0 {
        String::new()
    } else {
        let mut s = u128_to_hex_fixed(n / 16, width - 1);
        s.append(hex_digit_str(n % 16));
        s
    }
}

/// Whether `c` is an ASCII hexadecimal digit, either case.
pub open spec fn spec_is_hex_digit(c: char) -> bool {
    ('0' <= c <= '9') || ('a' <= c <= 'f') || ('A' <= c <= 'F')
}

/// The numeric value of an ASCII hexadecimal digit.
pub open spec fn hex_digit_value(c: char) -> int {
    if '0' <= c <= '9' {
        c as int - 48
    } else if 'a' <= c <= 'f' {
        c as int - 87
    } else {
        c as int - 55
    }
}

/// The value of a hexadecimal digit string, most significant first.
pub open spec fn hex_value(s: Seq<char>) -> int
    decreases s.len(),
{
    if s.len() == 0 {
        0
    } else {
        hex_value(s.drop_last()) * 16 + hex_digit_value(s.last())
    }
}

/// A prefix of a hexadecimal digit string never exceeds the whole.
pub proof fn lemma_hex_value_prefix_bound(s: Seq<char>, k: int)
    requires
        0 <= k <= s.len(),
        forall|i: int| 0 <= i < s.len() ==> spec_is_hex_digit(#[trigger] s[i]),
    ensures
        0 <= hex_value(s.subrange(0, k)) <= hex_value(s),
    decreases s.len() - k,
{
    lemma_hex_value_nonneg(s.subrange(0, k));
    if k < s.len() {
        lemma_hex_value_prefix_bound(s, k + 1);
        assert(s.subrange(0, k + 1).drop_last() =~= s.subrange(0, k));
        assert(spec_is_hex_digit(s.subrange(0, k + 1).last()));
        lemma_hex_value_nonneg(s.subrange(0, k));
    } else {
        assert(s.subrange(0, k) =~= s);
    }
}

pub proof fn lemma_hex_value_nonneg(s: Seq<char>)
    requires
        forall|i: int| 0 <= i < s.len() ==> spec_is_hex_digit(#[trigger] s[i]),
    ensures
        hex_value(s) >= 0,
    decreases s.len(),
{
    if s.len() > 0 {
        assert(forall|i: int|
            0 <= i < s.drop_last().len() ==> spec_is_hex_digit(#[trigger] s.drop_last()[i]));
        lemma_hex_value_nonneg(s.drop_last());
    }
}

pub fn char_is_hex_digit(c: char) -> (b: bool)
    ensures
        b == spec_is_hex_digit(c),
{
    ('0' <= c && c <= '9') || ('a' <= c && c <= 'f') || ('A' <= c && c <= 'F')
}

/// Whether `needle` occurs in `hay` starting at position `i`.
pub open spec fn spec_match_at(hay: Seq<char>, needle: Seq<char>, i: int) -> bool {
    0 <= i && i + needle.len() <= hay.len() && hay.subrange(i, i + needle.len()) == needle
}

/// The first occurrence of `needle` in `hay` at or after `from`.
pub open spec fn spec_find_from(hay: Seq<char>, needle: Seq<char>, from: int) -> Option<int>
    decreases hay.len() + 1 - from,
{
    if from < 0 || from + needle.len() > hay.len() {
        None
    } else if spec_match_at(hay, needle, from) {
        Some(from)
    } else {
        spec_find_from(hay, needle, from + 1)
    }
}

/// The first occurrence of `needle` in `hay`.
pub open spec fn spec_find(hay: Seq<char>, needle: Seq<char>) -> Option<int> {
    spec_find_from(hay, needle, 0)
}

/// A found occurrence really is a match inside the bounds.
pub proof fn lemma_find_from_some(hay: Seq<char>, needle: Seq<char>, from: int, i: int)
    requires
        spec_find_from(hay, needle, from) == Some(i),
    ensures
        spec_match_at(hay, needle, i),
        from <= i,
        i + needle.len() <= hay.len(),
    decreases hay.len() + 1 - from,
{
    if !(from < 0 || from + needle.len() > hay.len()) {
        if !spec_match_at(hay, needle, from) {
            lemma_find_from_some(hay, needle, from + 1, i);
        }
    }
}

/// A found occurrence really is a match inside the bounds.
pub proof fn lemma_find_some(hay: Seq<char>, needle: Seq<char>, i: int)
    requires
        spec_find(hay, needle) == Some(i),
    ensures
        spec_match_at(hay, needle, i),
        0 <= i,
        i + needle.len() <= hay.len(),
{
    lemma_find_from_some(hay, needle, 0, i);
}

/// First occurrence of `needle` in `hay`, as a character position.
#[verifier::loop_isolation(false)]
pub fn find_str(hay: &str, needle: &str) -> (found: Option<usize>)
    ensures
        match found {
            Some(i) => spec_find(hay@, needle@) == Some(i as int),
            None => spec_find(hay@, needle@) is None,
        },
{
    let n = hay.unicode_len();
    let m = needle.unicode_len();
    if m > n {
        return None;
    }
    if m == 0 {
        proof {
            assert(hay@.subrange(0, 0) =~= needle@);
        }
        return Some(0);
    }
    let mut i: usize = 0;
    while i <= n - m
        invariant
            0 <= i <= n - m + 1,
            1 <= m <= n,
            spec_find(hay@, needle@) == spec_find_from(hay@, needle@, i as int),
        decreases n - i,
    {
        let mut j: usize = 0;
        let mut matched = true;
        while j < m
            invariant
                0 <= j <= m,
                i + m <= n,
                matched ==> forall|k: int| 0 <= k < j ==> hay@[i + k] == needle@[k],
                !matched ==> !spec_match_at(hay@, needle@, i as int),
            decreases m - j,
        {
            let hc = hay.get_char(i + j);
            let nc = needle.get_char(j);
            if hc != nc {
                proof {
                    if spec_match_at(hay@, needle@, i as int) {
                        assert(hay@.subrange(i as int, i + m as int)[j as int] == hay@[i + j]);
                    }
                }
                matched = false;
                j = m;
            } else {
                j = j + 1;
            }
        }
        if matched {
            proof {
                assert(hay@.subrange(i as int, i + m as int) =~= needle@);
            }
            return Some(i);
        }
        i = i + 1;
    }
    None
}

/// Whether two pieces of text hold the same characters.
pub fn str_eq(a: &str, b: &str) -> (same: bool)
    ensures
        same == (a@ == b@),
{
    let n = a.unicode_len();
    let m = b.unicode_len();
    if n != m {
        return false;
    }
    let mut i: usize = 0;
    while i < n
        invariant
            0 <= i <= n == a@.len() == b@.len(),
            forall|k: int| 0 <= k < i ==> a@[k] == b@[k],
        decreases n - i,
    {
        if a.get_char(i) != b.get_char(i) {
            return false;
        }
        i = i + 1;
    }
    proof {
        assert(a@ =~= b@);
    }
    true
}

/// The whitespace the trimmers strip.
pub open spec fn spec_is_trim_space(c: char) -> bool {
    c == ' ' || c == '\t' || c == '\n' || c == '\r'
}

/// Position of the first non-whitespace character at or after `i`,
/// or the length when none follows.
pub open spec fn spec_skip_spaces(s: Seq<char>, i: int) -> int
    decreases s.len() - i,
{
    if i < 0 || i >= s.len() {
        s.len() as int
    } else if spec_is_trim_space(s[i]) {
        spec_skip_spaces(s, i + 1)
    } else {
        i
    }
}

/// One past the last non-whitespace character at or before `j - 1`,
/// or zero when none precedes.
pub open spec fn spec_rskip_spaces(s: Seq<char>, j: int) -> int
    decreases j,
{
    if j <= 0 || j > s.len() {
        0
    } else if spec_is_trim_space(s[j - 1]) {
        spec_rskip_spaces(s, j - 1)
    } else {
        j
    }
}

/// The text with surrounding whitespace removed.
pub open spec fn spec_trim(s: Seq<char>) -> Seq<char> {
    let a = spec_skip_spaces(s, 0);
    if a == s.len() {
        Seq::empty()
    } else {
        s.subrange(a, spec_rskip_spaces(s, s.len() as int))
    }
}

pub fn char_is_trim_space(c: char) -> (b: bool)
    ensures
        b == spec_is_trim_space(c),
{
    c == ' ' || c == '\t' || c == '\n' || c == '\r'
}

/// The text with surrounding whitespace removed.
#[verifier::loop_isolation(false)]
pub fn trim_str<'a>(s: &'a str) -> (t: &'a str)
    ensures
        t@ == spec_trim(s@),
{
    let n = s.unicode_len();
    let mut a: usize = 0;
    while a < n && char_is_trim_space(s.get_char(a))
        invariant
            0 <= a <= n,
            spec_skip_spaces(s@, 0) == spec_skip_spaces(s@, a as int),
        decreases n - a,
    {
        a = a + 1;
    }
    if a == n {
        return s.substring_char(0, 0);
    }
    proof {
        assert(!spec_is_trim_space(s@[a as int]));
    }
    let mut b: usize = n;
    while b > a && char_is_trim_space(s.get_char(b - 1))
        invariant
            a < b <= n || b == n,
            a < n,
            !spec_is_trim_space(s@[a as int]),
            spec_rskip_spaces(s@, n as int) == spec_rskip_spaces(s@, b as int),
        decreases b,
    {
        proof {
            if b - 1 == a {
                assert(spec_is_trim_space(s@[a as int]));
            }
        }
        b = b - 1;
    }
    proof {
        assert(a < b);
        assert(spec_rskip_spaces(s@, b as int) == b);
    }
    s.substring_char(a, b)
}

/// First occurrence of the character `wanted` at or after `from`.
#[verifier::loop_isolation(false)]
pub fn find_char_from(hay: &str, wanted: char, from: usize) -> (found: Option<usize>)
    ensures
        match found {
            Some(i) => spec_find_from(hay@, seq![wanted], from as int) == Some(i as int) && from
                <= i < hay@.len() && hay@[i as int] == wanted,
            None => spec_find_from(hay@, seq![wanted], from as int) is None,
        },
{
    let n = hay.unicode_len();
    let mut i: usize = from;
    if i > n {
        proof {
            assert(spec_find_from(hay@, seq![wanted], from as int) is None);
        }
        return None;
    }
    while i < n
        invariant
            from <= i <= n,
            spec_find_from(hay@, seq![wanted], from as int) == spec_find_from(
                hay@,
                seq![wanted],
                i as int,
            ),
        decreases n - i,
    {
        let c = hay.get_char(i);
        if c == wanted {
            proof {
                assert(hay@.subrange(i as int, i + 1) =~= seq![wanted]);
            }
            return Some(i);
        }
        proof {
            if spec_match_at(hay@, seq![wanted], i as int) {
                assert(hay@.subrange(i as int, i + 1)[0] == hay@[i as int]);
            }
        }
        i = i + 1;
    }
    None
}

/// The numeric value of an ASCII hexadecimal digit.
pub fn hex_digit_to_value(c: char) -> (v: u8)
    requires
        spec_is_hex_digit(c),
    ensures
        v == hex_digit_value(c),
        v < 16,
{
    if '0' <= c && c <= '9' {
        (c as u8) - 48
    } else if 'a' <= c && c <= 'f' {
        (c as u8) - 87
    } else {
        (c as u8) - 55
    }
}

} // verus!
