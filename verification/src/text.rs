//! Small verified text utilities shared by the protocol and the parsers:
//! ASCII-case-insensitive comparison, whitespace trimming, and prefix tests
//! over `&str` views.

use vstd::prelude::*;

verus! {

/// Code point of `c` with ASCII upper-case letters folded to lower case.
pub open spec fn lower_code(c: char) -> u32 {
    if 65 <= c as u32 && c as u32 <= 90 {
        (c as u32 + 32) as u32
    } else {
        c as u32
    }
}

/// `a` and `b` are equal up to ASCII letter case.
pub open spec fn ci_eq_char(a: char, b: char) -> bool {
    lower_code(a) == lower_code(b)
}

/// `a` and `b` are equal strings up to ASCII letter case.
pub open spec fn ci_eq_seq(a: Seq<char>, b: Seq<char>) -> bool {
    a.len() == b.len() && forall|i: int| 0 <= i < a.len() ==> ci_eq_char(a[i], b[i])
}

/// `p` is a prefix of `s`.
pub open spec fn has_prefix(s: Seq<char>, p: Seq<char>) -> bool {
    p.len() <= s.len() && s.subrange(0, p.len() as int) == p
}

/// Whitespace characters recognized when trimming device answers.
pub open spec fn spec_is_space(c: char) -> bool {
    c == ' ' || c == '\t' || c == '\n' || c == '\r'
}

/// `s` with leading whitespace removed.
pub open spec fn trim_start(s: Seq<char>) -> Seq<char>
    decreases s.len(),
{
    if s.len() > 0 && spec_is_space(s[0]) {
        trim_start(s.drop_first())
    } else {
        s
    }
}

/// `s` with trailing whitespace removed.
pub open spec fn trim_end(s: Seq<char>) -> Seq<char>
    decreases s.len(),
{
    if s.len() > 0 && spec_is_space(s[s.len() - 1]) {
        trim_end(s.drop_last())
    } else {
        s
    }
}

/// `s` with leading and trailing whitespace removed.
pub open spec fn spec_trim(s: Seq<char>) -> Seq<char> {
    trim_end(trim_start(s))
}

fn is_space_char(c: char) -> (r: bool)
    ensures
        r == spec_is_space(c),
{
    c == ' ' || c == '\t' || c == '\n' || c == '\r'
}

fn lower_code_of(c: char) -> (r: u32)
    ensures
        r == lower_code(c),
{
    let code = c as u32;
    if 65 <= code && code <= 90 {
        code + 32
    } else {
        code
    }
}

/// Compare two strings for equality up to ASCII letter case.
pub fn eq_ignore_ascii_case(a: &str, b: &str) -> (r: bool)
    ensures
        r == ci_eq_seq(a@, b@),
{
    let a_len = a.unicode_len();
    let b_len = b.unicode_len();
    if a_len != b_len {
        return false;
    }
    let mut i: usize = 0;
    while i < a_len
        invariant
            i <= a_len,
            a_len == a@.len(),
            a_len == b@.len(),
            forall|j: int| 0 <= j < i ==> ci_eq_char(a@[j], b@[j]),
        decreases a_len - i,
    {
        if lower_code_of(a.get_char(i)) != lower_code_of(b.get_char(i)) {
            return false;
        }
        i += 1;
    }
    true
}

/// Compare two strings for exact equality.
pub fn str_eq(a: &str, b: &str) -> (r: bool)
    ensures
        r == (a@ == b@),
{
    let a_len = a.unicode_len();
    let b_len = b.unicode_len();
    if a_len != b_len {
        return false;
    }
    let mut i: usize = 0;
    while i < a_len
        invariant
            i <= a_len,
            a_len == a@.len(),
            a_len == b@.len(),
            forall|j: int| 0 <= j < i ==> a@[j] == b@[j],
        decreases a_len - i,
    {
        if a.get_char(i) != b.get_char(i) {
            return false;
        }
        i += 1;
    }
    proof {
        assert(a@ =~= b@);
    }
    true
}

/// Test whether `p` is a prefix of `s`.
pub fn str_has_prefix(s: &str, p: &str) -> (r: bool)
    ensures
        r == has_prefix(s@, p@),
{
    let s_len = s.unicode_len();
    let p_len = p.unicode_len();
    if p_len > s_len {
        return false;
    }
    let mut i: usize = 0;
    while i < p_len
        invariant
            i <= p_len,
            p_len <= s_len,
            s_len == s@.len(),
            p_len == p@.len(),
            forall|j: int| 0 <= j < i ==> s@[j] == p@[j],
        decreases p_len - i,
    {
        if s.get_char(i) != p.get_char(i) {
            proof {
                assert(!(s@.subrange(0, p@.len() as int) =~= p@)) by {
                    assert(s@.subrange(0, p@.len() as int)[i as int] == s@[i as int]);
                }
            }
            return false;
        }
        i += 1;
    }
    proof {
        assert(s@.subrange(0, p@.len() as int) =~= p@);
    }
    true
}

/// `s` with every space turned into an underscore.
pub open spec fn spec_replace_spaces(s: Seq<char>) -> Seq<char> {
    Seq::new(s.len(), |i: int| if s[i] == ' ' { '_' } else { s[i] })
}

/// Replace every space in `s` with an underscore.
pub fn replace_spaces(s: &str) -> (r: String)
    ensures
        r@ == spec_replace_spaces(s@),
{
    let len = s.unicode_len();
    let mut r = String::new();
    let mut i: usize = 0;
    while i < len
        invariant
            i <= len,
            len == s@.len(),
            r@ == spec_replace_spaces(s@).take(i as int),
        decreases len - i,
    {
        if s.get_char(i) == ' ' {
            r.append("_");
        } else {
            r.append(s.substring_char(i, i + 1));
        }
        proof {
            reveal_strlit("_");
            assert(r@ =~= spec_replace_spaces(s@).take(i + 1));
        }
        i += 1;
    }
    proof {
        assert(spec_replace_spaces(s@).take(s@.len() as int) =~= spec_replace_spaces(s@));
    }
    r
}

/// The decimal digit character for `d`.
pub open spec fn spec_digit_char(d: int) -> char
    recommends
        0 <= d <= 9,
{
    if d == 0 {
        '0'
    } else if d == 1 {
        '1'
    } else if d == 2 {
        '2'
    } else if d == 3 {
        '3'
    } else if d == 4 {
        '4'
    } else if d == 5 {
        '5'
    } else if d == 6 {
        '6'
    } else if d == 7 {
        '7'
    } else if d == 8 {
        '8'
    } else {
        '9'
    }
}

/// The decimal digits of `n`, most significant first.
pub open spec fn spec_dec_digits(n: int) -> Seq<char>
    recommends
        n >= 0,
    decreases n,
{
    if n < 10 {
        seq![spec_digit_char(n)]
    } else {
        spec_dec_digits(n / 10).push(spec_digit_char(n % 10))
    }
}

fn digit_str(d: u32) -> (r: String)
    requires
        d < 10,
    ensures
        r@ == seq![spec_digit_char(d as int)],
{
    let r = match d {
        0 => "0".to_owned(),
        1 => "1".to_owned(),
        2 => "2".to_owned(),
        3 => "3".to_owned(),
        4 => "4".to_owned(),
        5 => "5".to_owned(),
        6 => "6".to_owned(),
        7 => "7".to_owned(),
        8 => "8".to_owned(),
        _ => "9".to_owned(),
    };
    proof {
        reveal_strlit("0");
        reveal_strlit("1");
        reveal_strlit("2");
        reveal_strlit("3");
        reveal_strlit("4");
        reveal_strlit("5");
        reveal_strlit("6");
        reveal_strlit("7");
        reveal_strlit("8");
        reveal_strlit("9");
        assert(r@ =~= seq![spec_digit_char(d as int)]);
    }
    r
}

/// Format `n` in decimal.
pub fn u32_dec(n: u32) -> (r: String)
    ensures
        r@ == spec_dec_digits(n as int),
    decreases n,
{
    if n < 10 {
        digit_str(n)
    } else {
        let prefix = u32_dec(n / 10);
        let last = digit_str(n % 10);
        let r = prefix.concat(last.as_str());
        proof {
            assert(r@ =~= spec_dec_digits(n as int));
        }
        r
    }
}

proof fn lemma_trim_start_at(s: Seq<char>, a: int)
    requires
        0 <= a <= s.len(),
        forall|i: int| 0 <= i < a ==> spec_is_space(s[i]),
        a < s.len() ==> !spec_is_space(s[a]),
    ensures
        trim_start(s) == s.subrange(a, s.len() as int),
    decreases a,
{
    if a == 0 {
        assert(s.subrange(0, s.len() as int) =~= s);
    } else {
        let t = s.drop_first();
        assert(trim_start(s) == trim_start(t));
        lemma_trim_start_at(t, a - 1);
        assert(t.subrange(a - 1, t.len() as int) =~= s.subrange(a, s.len() as int));
    }
}

proof fn lemma_trim_end_at(s: Seq<char>, b: int)
    requires
        0 <= b <= s.len(),
        forall|i: int| b <= i < s.len() ==> spec_is_space(s[i]),
        b > 0 ==> !spec_is_space(s[b - 1]),
    ensures
        trim_end(s) == s.subrange(0, b),
    decreases s.len() - b,
{
    if b == s.len() {
        assert(s.subrange(0, s.len() as int) =~= s);
    } else {
        let t = s.drop_last();
        assert(trim_end(s) == trim_end(t));
        lemma_trim_end_at(t, b);
        assert(t.subrange(0, b) =~= s.subrange(0, b));
    }
}

/// Remove leading and trailing whitespace from `s`.
pub fn trim_str(s: &str) -> (r: &str)
    ensures
        r@ == spec_trim(s@),
{
    let len = s.unicode_len();
    let mut start: usize = 0;
    while start < len && is_space_char(s.get_char(start))
        invariant
            start <= len,
            len == s@.len(),
            forall|i: int| 0 <= i < start ==> spec_is_space(s@[i]),
        decreases len - start,
    {
        start += 1;
    }
    let mut end: usize = len;
    while end > start && is_space_char(s.get_char(end - 1))
        invariant
            start <= end <= len,
            len == s@.len(),
            forall|i: int| end <= i < len ==> spec_is_space(s@[i]),
        decreases end,
    {
        end -= 1;
    }
    proof {
        lemma_trim_start_at(s@, start as int);
        let t = s@.subrange(start as int, s@.len() as int);
        lemma_trim_end_at(t, end - start);
        assert(t.subrange(0, end - start) =~= s@.subrange(start as int, end as int));
    }
    s.substring_char(start, end)
}

} // verus!
