//! Character-level helpers shared by the rest of the library.
use vstd::prelude::*;

verus! {

/// ASCII letter or digit.
pub open spec fn is_ascii_alnum(c: char) -> bool {
    ('a' <= c && c <= 'z') || ('A' <= c && c <= 'Z') || ('0' <= c && c <= '9')
}

/// `needle` occurs somewhere in `s` as a contiguous block.
pub open spec fn contains_seq(s: Seq<char>, needle: Seq<char>) -> bool {
    exists|i: int| 0 <= i && i + needle.len() <= s.len()
        && #[trigger] s.subrange(i, i + needle.len()) == needle
}

/// The characters of `s`, collected into a vector.
pub fn chars_of(s: &str) -> (v: Vec<char>)
    ensures
        v@ == s@,
{
    let n = s.unicode_len();
    let mut v: Vec<char> = Vec::new();
    let mut i: usize = 0;
    while i < n
        invariant
            n == s@.len(),
            i <= n,
            v@ == s@.subrange(0, i as int),
        decreases n - i,
    {
        let c = s.get_char(i);
        v.push(c);
        i = i + 1;
    }
    v
}

} // verus!

verus! {

/// The character of decimal digit `d` (0..=9).
pub open spec fn digit_char(d: int) -> char {
    if d == 0 { '0' }
    else if d == 1 { '1' }
    else if d == 2 { '2' }
    else if d == 3 { '3' }
    else if d == 4 { '4' }
    else if d == 5 { '5' }
    else if d == 6 { '6' }
    else if d == 7 { '7' }
    else if d == 8 { '8' }
    else { '9' }
}

/// The decimal text of `n`, without leading zeros.
pub open spec fn decimal(n: nat) -> Seq<char>
    decreases n,
{
    if n < 10 {
        seq![digit_char(n as int)]
    } else {
        decimal(n / 10).push(digit_char((n % 10) as int))
    }
}

/// The decimal text of a signed integer, with a leading `-` when negative.
pub open spec fn signed_decimal(n: int) -> Seq<char> {
    if n < 0 {
        seq!['-'] + decimal((-n) as nat)
    } else {
        decimal(n as nat)
    }
}

/// The text of digit `d` as a one-character string.
fn digit_str(d: u64) -> (r: &'static str)
    requires
        d < 10,
    ensures
        r@ == seq![digit_char(d as int)],
{
    if d == 0 {
        proof { reveal_strlit("0"); }
        "0"
    } else if d == 1 {
        proof { reveal_strlit("1"); }
        "1"
    } else if d == 2 {
        proof { reveal_strlit("2"); }
        "2"
    } else if d == 3 {
        proof { reveal_strlit("3"); }
        "3"
    } else if d == 4 {
        proof { reveal_strlit("4"); }
        "4"
    } else if d == 5 {
        proof { reveal_strlit("5"); }
        "5"
    } else if d == 6 {
        proof { reveal_strlit("6"); }
        "6"
    } else if d == 7 {
        proof { reveal_strlit("7"); }
        "7"
    } else if d == 8 {
        proof { reveal_strlit("8"); }
        "8"
    } else {
        proof { reveal_strlit("9"); }
        "9"
    }
}

/// The decimal text of `n`, as `n.to_string()` writes it.
pub fn u64_to_string(n: u64) -> (r: String)
    ensures
        r@ == decimal(n as nat),
    decreases n,
{
    if n < 10 {
        String::from_str(digit_str(n))
    } else {
        let mut s = u64_to_string(n / 10);
        s.append(digit_str(n % 10));
        s
    }
}

/// The decimal text of `n`, as `n.to_string()` writes it.
pub fn i64_to_string(n: i64) -> (r: String)
    ensures
        r@ == signed_decimal(n as int),
{
    if n < 0 {
        let magnitude: u64 = ((-(n + 1)) as u64) + 1;
        let digits = u64_to_string(magnitude);
        proof { reveal_strlit("-"); }
        let mut s = String::from_str("-");
        s.append(digits.as_str());
        s
    } else {
        u64_to_string(n as u64)
    }
}

/// Every character of `s` is an ASCII digit.
pub open spec fn all_digits(s: Seq<char>) -> bool {
    forall|i: int| 0 <= i < s.len() ==> '0' <= #[trigger] s[i] <= '9'
}

/// The number that a run of ASCII digits denotes.
pub open spec fn digits_value(s: Seq<char>) -> nat
    decreases s.len(),
{
    if s.len() == 0 {
        0
    } else {
        digits_value(s.drop_last()) * 10 + ((s.last() as int - '0' as int) as nat)
    }
}

/// What `s.parse::<u64>()` gives: an optional `+`, then one or more ASCII
/// digits whose value fits in a `u64`.
pub open spec fn parse_u64_spec(s: Seq<char>) -> Option<u64> {
    let body = if s.len() > 0 && s[0] == '+' { s.drop_first() } else { s };
    if body.len() > 0 && all_digits(body) && digits_value(body) <= u64::MAX {
        Some(digits_value(body) as u64)
    } else {
        None
    }
}

/// A longer run of digits never denotes a smaller number.
proof fn lemma_digits_value_prefix(s: Seq<char>, k: int)
    requires
        0 <= k <= s.len(),
        all_digits(s),
    ensures
        digits_value(s.subrange(0, k)) <= digits_value(s),
    decreases s.len(),
{
    if k < s.len() {
        assert(s.drop_last().subrange(0, k) == s.subrange(0, k));
        lemma_digits_value_prefix(s.drop_last(), k);
    } else {
        assert(s.subrange(0, k) == s);
    }
}

/// Parses an unsigned decimal number the way `str::parse::<u64>` does.
pub fn parse_u64(s: &str) -> (r: Option<u64>)
    ensures
        r == parse_u64_spec(s@),
{
    let chars = chars_of(s);
    let n = chars.len();
    let mut start: usize = 0;
    if n > 0 && chars[0] == '+' {
        start = 1;
    }
    let ghost body = if s@.len() > 0 && s@[0] == '+' { s@.drop_first() } else { s@ };
    assert(body == chars@.subrange(start as int, n as int));
    if start == n {
        return None;
    }
    let mut value: u64 = 0;
    let mut i: usize = start;
    while i < n
        invariant
            chars@ == s@,
            n == chars@.len(),
            start <= i <= n,
            start < n,
            body == (if s@.len() > 0 && s@[0] == '+' { s@.drop_first() } else { s@ }),
            body == chars@.subrange(start as int, n as int),
            all_digits(chars@.subrange(start as int, i as int)),
            value == digits_value(chars@.subrange(start as int, i as int)),
        decreases n - i,
    {
        let c = chars[i];
        let ghost prefix = chars@.subrange(start as int, i as int);
        let ghost next = chars@.subrange(start as int, i + 1);
        assert(next.drop_last() == prefix);
        assert(next == body.subrange(0, next.len() as int));
        if !('0' <= c && c <= '9') {
            assert(body[i - start] == c);
            assert(!all_digits(body));
            return None;
        }
        assert(all_digits(next)) by {
            assert forall|j: int| 0 <= j < next.len() implies '0' <= #[trigger] next[j] <= '9' by {
                if j < prefix.len() {
                    assert(next[j] == prefix[j]);
                }
            }
        }
        let d: u64 = (c as u32 - '0' as u32) as u64;
        match value.checked_mul(10) {
            Some(t) => match t.checked_add(d) {
                Some(v) => {
                    value = v;
                },
                None => {
                    proof { overflow_means_none(s@, body, next, start as int, n as int, chars@); }
                    return None;
                },
            },
            None => {
                proof { overflow_means_none(s@, body, next, start as int, n as int, chars@); }
                return None;
            },
        }
        i = i + 1;
    }
    assert(chars@.subrange(start as int, n as int) == body);
    Some(value)
}

/// Once a prefix of the digits exceeds `u64::MAX`, the whole text does not parse.
proof fn overflow_means_none(s: Seq<char>, body: Seq<char>, next: Seq<char>, start: int, n: int, chars: Seq<char>)
    requires
        chars == s,
        n == chars.len(),
        0 <= start < n,
        body == if s.len() > 0 && s[0] == '+' { s.drop_first() } else { s },
        body == chars.subrange(start, n),
        next.len() <= body.len(),
        next == body.subrange(0, next.len() as int),
        all_digits(next),
        digits_value(next) > u64::MAX,
    ensures
        parse_u64_spec(s) is None,
{
    if all_digits(body) {
        lemma_digits_value_prefix(body, next.len() as int);
    }
}

/// `s` with every trailing `c` removed, as `str::trim_end_matches(c)` does.
pub open spec fn trim_end_char(s: Seq<char>, c: char) -> Seq<char>
    decreases s.len(),
{
    if s.len() > 0 && s.last() == c {
        trim_end_char(s.drop_last(), c)
    } else {
        s
    }
}

/// Removes every trailing `c` from `s`.
pub fn trim_end_matches_char(s: &str, c: char) -> (r: String)
    ensures
        r@ == trim_end_char(s@, c),
{
    let n = s.unicode_len();
    let mut k: usize = n;
    assert(s@.subrange(0, n as int) == s@);
    while k > 0 && s.get_char(k - 1) == c
        invariant
            n == s@.len(),
            k <= n,
            trim_end_char(s@, c) == trim_end_char(s@.subrange(0, k as int), c),
        decreases k,
    {
        assert(s@.subrange(0, k as int).drop_last() == s@.subrange(0, k - 1));
        k = k - 1;
    }
    assert(s@.subrange(0, n as int) == s@);
    String::from_str(s.substring_char(0, k))
}

/// The UTF-8 encoding of a concatenation is the concatenation of encodings.
pub proof fn lemma_encode_utf8_concat(a: Seq<char>, b: Seq<char>)
    ensures
        vstd::utf8::encode_utf8(a + b) == vstd::utf8::encode_utf8(a) + vstd::utf8::encode_utf8(b),
    decreases a.len(),
{
    if a.len() == 0 {
        assert(a + b == b);
    } else {
        assert((a + b).drop_first() == a.drop_first() + b);
        lemma_encode_utf8_concat(a.drop_first(), b);
    }
}

} // verus!

verus! {

/// Text order: code point by code point, a proper prefix first.
pub open spec fn text_le(a: Seq<char>, b: Seq<char>) -> bool
    decreases a.len(),
{
    if a.len() == 0 {
        true
    } else if b.len() == 0 {
        false
    } else if a[0] != b[0] {
        (a[0] as u32) < (b[0] as u32)
    } else {
        text_le(a.drop_first(), b.drop_first())
    }
}

/// Any two texts are ordered one way or the other.
pub proof fn lemma_text_le_total(a: Seq<char>, b: Seq<char>)
    ensures
        text_le(a, b) || text_le(b, a),
    decreases a.len(),
{
    if a.len() > 0 && b.len() > 0 && a[0] == b[0] {
        lemma_text_le_total(a.drop_first(), b.drop_first());
    } else if a.len() > 0 && b.len() > 0 {
        vstd::utf8::char_u32_cast(a[0], a[0] as u32);
        vstd::utf8::char_u32_cast(b[0], b[0] as u32);
        assert((a[0] as u32) != (b[0] as u32));
    }
}

/// The text order is transitive.
pub proof fn lemma_text_le_trans(a: Seq<char>, b: Seq<char>, c: Seq<char>)
    requires
        text_le(a, b),
        text_le(b, c),
    ensures
        text_le(a, c),
    decreases a.len(),
{
    if a.len() > 0 && b.len() > 0 && c.len() > 0 && a[0] == b[0] && b[0] == c[0] {
        lemma_text_le_trans(a.drop_first(), b.drop_first(), c.drop_first());
    }
}

/// Compares two texts in the text order.
pub fn text_le_exec(a: &str, b: &str) -> (r: bool)
    ensures
        r == text_le(a@, b@),
{
    let n = a.unicode_len();
    let m = b.unicode_len();
    let mut i: usize = 0;
    proof {
        assert(a@.subrange(0, n as int) == a@);
        assert(b@.subrange(0, m as int) == b@);
    }
    while i < n && i < m && a.get_char(i) == b.get_char(i)
        invariant
            n == a@.len(),
            m == b@.len(),
            i <= n,
            i <= m,
            text_le(a@, b@) == text_le(a@.subrange(i as int, n as int), b@.subrange(i as int, m as int)),
        decreases n - i,
    {
        let ghost x = a@.subrange(i as int, n as int);
        let ghost y = b@.subrange(i as int, m as int);
        assert(x.drop_first() == a@.subrange(i + 1, n as int));
        assert(y.drop_first() == b@.subrange(i + 1, m as int));
        i = i + 1;
    }
    proof {
        assert(a@.subrange(0, n as int) == a@);
        assert(b@.subrange(0, m as int) == b@);
    }
    if i == n {
        true
    } else if i == m {
        false
    } else {
        let x = a.get_char(i);
        let y = b.get_char(i);
        (x as u32) < (y as u32)
    }
}

/// The texts of a list of strings.
pub open spec fn texts(v: Seq<String>) -> Seq<Seq<char>> {
    v.map_values(|s: String| s@)
}

/// The texts are in ascending text order.
pub open spec fn sorted_texts(s: Seq<Seq<char>>) -> bool {
    forall|i: int, j: int| 0 <= i < j < s.len() ==> text_le(#[trigger] s[i], #[trigger] s[j])
}

/// Sorts strings in ascending order of their characters; equal strings keep
/// their relative order.
pub fn sort_strings(items: Vec<String>) -> (r: Vec<String>)
    ensures
        sorted_texts(texts(r@)),
        texts(r@).to_multiset() == texts(items@).to_multiset(),
{
    broadcast use vstd::seq_lib::group_to_multiset_ensures;
    let mut out: Vec<String> = Vec::new();
    let mut k: usize = 0;
    assert(texts(items@).subrange(0, 0) =~= Seq::<Seq<char>>::empty());
    assert(texts(out@) =~= Seq::<Seq<char>>::empty());
    while k < items.len()
        invariant
            k <= items@.len(),
            sorted_texts(texts(out@)),
            texts(out@).to_multiset() == texts(items@).subrange(0, k as int).to_multiset(),
        decreases items@.len() - k,
    {
        let x = items[k].clone();
        let mut p: usize = 0;
        while p < out.len() && text_le_exec(out[p].as_str(), x.as_str())
            invariant
                p <= out@.len(),
                forall|q: int| 0 <= q < p ==> text_le(#[trigger] out@[q]@, x@),
            decreases out@.len() - p,
        {
            p = p + 1;
        }
        let ghost before = texts(out@);
        proof {
            if p < out@.len() {
                lemma_text_le_total(out@[p as int]@, x@);
            }
        }
        out.insert(p, x);
        proof {
            assert(texts(out@) =~= before.insert(p as int, x@));
            vstd::seq_lib::to_multiset_insert(before, p as int, x@);
            assert(x@ == items@[k as int]@);
            assert(texts(items@)[k as int] == items@[k as int]@);
            assert(texts(items@).subrange(0, k + 1) =~= texts(items@).subrange(0, k as int).push(items@[k as int]@));
            vstd::seq_lib::to_multiset_build(texts(items@).subrange(0, k as int), items@[k as int]@);
            let s = texts(out@);
            assert forall|i: int, j: int| 0 <= i < j < s.len() implies text_le(#[trigger] s[i], #[trigger] s[j]) by {
                if j < p {
                    assert(s[i] == before[i] && s[j] == before[j]);
                } else if j == p {
                    assert(s[i] == before[i]);
                } else if i == p {
                    assert(s[j] == before[j - 1]);
                    if j - 1 > p {
                        assert(before[p as int] == s[p + 1]);
                        lemma_text_le_trans(x@, before[p as int], before[j - 1]);
                    }
                } else if i < p {
                    assert(s[i] == before[i] && s[j] == before[j - 1]);
                    if i < j - 1 {
                    }
                } else {
                    assert(s[i] == before[i - 1] && s[j] == before[j - 1]);
                }
            }
        }
        k = k + 1;
    }
    assert(texts(items@).subrange(0, items@.len() as int) =~= texts(items@));
    out
}

} // verus!

verus! {

/// A character `char::is_whitespace` accepts (Unicode `White_Space`).
pub open spec fn is_unicode_whitespace(c: char) -> bool {
    let u = c as u32;
    (0x9 <= u && u <= 0xd) || u == 0x20 || u == 0x85 || u == 0xa0 || u == 0x1680
        || (0x2000 <= u && u <= 0x200a) || u == 0x2028 || u == 0x2029 || u == 0x202f
        || u == 0x205f || u == 0x3000
}

/// `s` without its trailing whitespace, as `str::trim_end` gives it.
pub open spec fn trim_end_ws(s: Seq<char>) -> Seq<char>
    decreases s.len(),
{
    if s.len() > 0 && is_unicode_whitespace(s.last()) {
        trim_end_ws(s.drop_last())
    } else {
        s
    }
}

/// Removes trailing whitespace.
pub fn trim_end(s: &str) -> (r: String)
    ensures
        r@ == trim_end_ws(s@),
{
    let n = s.unicode_len();
    let mut k: usize = n;
    assert(s@.subrange(0, n as int) == s@);
    while k > 0
        invariant
            n == s@.len(),
            k <= n,
            trim_end_ws(s@) == trim_end_ws(s@.subrange(0, k as int)),
        ensures
            k <= n,
            trim_end_ws(s@) == trim_end_ws(s@.subrange(0, k as int)),
            k == 0 || !is_unicode_whitespace(s@[k - 1]),
        decreases k,
    {
        let c = s.get_char(k - 1);
        let u = c as u32;
        let ws = (0x9 <= u && u <= 0xd) || u == 0x20 || u == 0x85 || u == 0xa0 || u == 0x1680
            || (0x2000 <= u && u <= 0x200a) || u == 0x2028 || u == 0x2029 || u == 0x202f
            || u == 0x205f || u == 0x3000;
        assert(ws == is_unicode_whitespace(c));
        if !ws {
            break;
        }
        assert(s@.subrange(0, k as int).drop_last() == s@.subrange(0, k - 1));
        k = k - 1;
    }
    assert(k > 0 ==> s@.subrange(0, k as int).last() == s@[k - 1]);
    String::from_str(s.substring_char(0, k))
}

} // verus!
