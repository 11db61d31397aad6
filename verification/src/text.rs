//! Character-sequence helpers used by the display and parsing logic.

use vstd::prelude::*;
use vstd::string::*;

verus! {

/// `a` sorts strictly before `b` in lexicographic code-point order, which is
/// the order that `str` comparison gives for valid UTF-8.
pub open spec fn seq_lt(a: Seq<char>, b: Seq<char>) -> bool
    decreases a.len(),
{
    if b.len() == 0 {
        false
    } else if a.len() == 0 {
        true
    } else if a[0] != b[0] {
        (a[0] as int) < (b[0] as int)
    } else {
        seq_lt(a.drop_first(), b.drop_first())
    }
}

/// Lexicographic order is transitive.
pub proof fn lemma_seq_lt_transitive(a: Seq<char>, b: Seq<char>, c: Seq<char>)
    requires
        seq_lt(a, b),
        seq_lt(b, c),
    ensures
        seq_lt(a, c),
    decreases a.len(),
{
    if a.len() == 0 {
    } else if a[0] != b[0] || b[0] != c[0] {
    } else {
        lemma_seq_lt_transitive(a.drop_first(), b.drop_first(), c.drop_first());
    }
}

/// Lexicographic order is irreflexive.
pub proof fn lemma_seq_lt_irreflexive(a: Seq<char>)
    ensures
        !seq_lt(a, a),
    decreases a.len(),
{
    if a.len() > 0 {
        lemma_seq_lt_irreflexive(a.drop_first());
    }
}

/// Lexicographic order is total: of two different sequences one sorts first.
pub proof fn lemma_seq_lt_total(a: Seq<char>, b: Seq<char>)
    requires
        a != b,
    ensures
        seq_lt(a, b) || seq_lt(b, a),
    decreases a.len(),
{
    if a.len() == 0 {
        assert(b.len() != 0) by {
            if b.len() == 0 {
                assert(a =~= b);
            }
        }
    } else if b.len() == 0 {
    } else if a[0] != b[0] {
    } else {
        assert(a.drop_first() != b.drop_first()) by {
            if a.drop_first() == b.drop_first() {
                assert(a =~= seq![a[0]] + a.drop_first());
                assert(b =~= seq![b[0]] + b.drop_first());
            }
        }
        lemma_seq_lt_total(a.drop_first(), b.drop_first());
    }
}

/// Compare two strings in lexicographic code-point order.
pub fn str_lt(a: &str, b: &str) -> (r: bool)
    ensures
        r == seq_lt(a@, b@),
{
    let la = a.unicode_len();
    let lb = b.unicode_len();
    let mut i: usize = 0;
    assert(a@.skip(0) =~= a@);
    assert(b@.skip(0) =~= b@);
    while i < la && i < lb
        invariant
            la == a@.len(),
            lb == b@.len(),
            i <= la,
            i <= lb,
            seq_lt(a@, b@) == seq_lt(a@.skip(i as int), b@.skip(i as int)),
        decreases la - i,
    {
        let ca = a.get_char(i);
        let cb = b.get_char(i);
        if ca != cb {
            return (ca as u32) < (cb as u32);
        }
        assert(a@.skip(i as int).drop_first() =~= a@.skip(i + 1));
        assert(b@.skip(i as int).drop_first() =~= b@.skip(i + 1));
        i = i + 1;
    }
    i < lb
}

/// `needle` occurs in `hay` starting at position `i`.
pub open spec fn occurs_at(hay: Seq<char>, needle: Seq<char>, i: int) -> bool {
    0 <= i && i + needle.len() <= hay.len() && hay.subrange(i, i + needle.len()) == needle
}

/// `needle` occurs somewhere in `hay` (the empty string occurs everywhere).
pub open spec fn seq_contains(hay: Seq<char>, needle: Seq<char>) -> bool {
    exists|i: int| #[trigger] occurs_at(hay, needle, i)
}

/// Whether `needle` occurs at position `i` of `hay`.
fn matches_at(hay: &str, needle: &str, i: usize, hl: usize, nl: usize) -> (r: bool)
    requires
        hl == hay@.len(),
        nl == needle@.len(),
        i + nl <= hl,
    ensures
        r == occurs_at(hay@, needle@, i as int),
{
    let mut j: usize = 0;
    while j < nl
        invariant
            hl == hay@.len(),
            nl == needle@.len(),
            i + nl <= hl,
            j <= nl,
            forall|k: int| 0 <= k < j ==> hay@[i + k] == needle@[k],
        decreases nl - j,
    {
        if hay.get_char(i + j) != needle.get_char(j) {
            assert(hay@.subrange(i as int, i + nl)[j as int] != needle@[j as int]);
            return false;
        }
        j = j + 1;
    }
    assert(hay@.subrange(i as int, i + nl) =~= needle@);
    true
}

/// Whether `needle` occurs in `hay`.
pub fn str_contains(hay: &str, needle: &str) -> (r: bool)
    ensures
        r == seq_contains(hay@, needle@),
{
    let hl = hay.unicode_len();
    let nl = needle.unicode_len();
    if nl > hl {
        assert forall|i: int| !#[trigger] occurs_at(hay@, needle@, i) by {}
        return false;
    }
    if nl == 0 {
        assert(hay@.subrange(0, 0) =~= needle@);
        assert(occurs_at(hay@, needle@, 0));
        return true;
    }
    let mut i: usize = 0;
    while i <= hl - nl
        invariant
            nl > 0,
            hl == hay@.len(),
            nl == needle@.len(),
            nl <= hl,
            i <= hl - nl + 1,
            forall|k: int| 0 <= k < i ==> !#[trigger] occurs_at(hay@, needle@, k),
        decreases hl - nl + 1 - i,
    {
        if matches_at(hay, needle, i, hl, nl) {
            return true;
        }
        i = i + 1;
    }
    assert forall|k: int| !#[trigger] occurs_at(hay@, needle@, k) by {
        if 0 <= k && k < i {
        }
    }
    false
}

/// Equality of two strings.
pub fn str_eq(a: &str, b: &str) -> (r: bool)
    ensures
        r == (a@ == b@),
{
    let la = a.unicode_len();
    let lb = b.unicode_len();
    if la != lb {
        return false;
    }
    let mut i: usize = 0;
    while i < la
        invariant
            la == a@.len(),
            lb == b@.len(),
            la == lb,
            i <= la,
            forall|k: int| 0 <= k < i ==> a@[k] == b@[k],
        decreases la - i,
    {
        if a.get_char(i) != b.get_char(i) {
            return false;
        }
        i = i + 1;
    }
    assert(a@ =~= b@);
    true
}

/// The code point of the ASCII lower-case form of a character; other
/// characters keep their own code point.
pub open spec fn ascii_lower(c: char) -> u32 {
    if 'A' <= c && c <= 'Z' {
        ((c as u32) + 32) as u32
    } else {
        c as u32
    }
}

/// Equal up to ASCII case.
pub open spec fn eq_ignore_ascii_case_spec(a: Seq<char>, b: Seq<char>) -> bool {
    a.len() == b.len() && forall|i: int| 0 <= i < a.len() ==> ascii_lower(a[i]) == ascii_lower(
        b[i],
    )
}

fn lower_char(c: char) -> (r: u32)
    ensures
        r == ascii_lower(c),
{
    if 'A' <= c && c <= 'Z' {
        (c as u32) + 32
    } else {
        c as u32
    }
}

/// Whether two strings are equal up to ASCII case.
pub fn eq_ignore_ascii_case(a: &str, b: &str) -> (r: bool)
    ensures
        r == eq_ignore_ascii_case_spec(a@, b@),
{
    let la = a.unicode_len();
    let lb = b.unicode_len();
    if la != lb {
        return false;
    }
    let mut i: usize = 0;
    while i < la
        invariant
            la == a@.len(),
            lb == b@.len(),
            la == lb,
            i <= la,
            forall|k: int| 0 <= k < i ==> ascii_lower(a@[k]) == ascii_lower(b@[k]),
        decreases la - i,
    {
        if lower_char(a.get_char(i)) != lower_char(b.get_char(i)) {
            return false;
        }
        i = i + 1;
    }
    true
}

/// White space as `char::is_whitespace` defines it: the Unicode
/// `White_Space` property.
pub open spec fn is_white_space(c: char) -> bool {
    ||| c == ' '
    ||| ('\u{9}' <= c && c <= '\u{d}')
    ||| c == '\u{85}'
    ||| c == '\u{a0}'
    ||| c == '\u{1680}'
    ||| ('\u{2000}' <= c && c <= '\u{200a}')
    ||| c == '\u{2028}'
    ||| c == '\u{2029}'
    ||| c == '\u{202f}'
    ||| c == '\u{205f}'
    ||| c == '\u{3000}'
}

fn white_space(c: char) -> (r: bool)
    ensures
        r == is_white_space(c),
{
    c == ' ' || ('\u{9}' <= c && c <= '\u{d}') || c == '\u{85}' || c == '\u{a0}' || c
        == '\u{1680}' || ('\u{2000}' <= c && c <= '\u{200a}') || c == '\u{2028}' || c
        == '\u{2029}' || c == '\u{202f}' || c == '\u{205f}' || c == '\u{3000}'
}

/// `t` is `s` without its leading and trailing white space.
pub open spec fn is_trim_of(s: Seq<char>, t: Seq<char>) -> bool {
    exists|lo: int, hi: int|
        #![trigger s.subrange(lo, hi)]
        0 <= lo <= hi <= s.len() && t == s.subrange(lo, hi) && (forall|k: int|
            0 <= k < lo ==> is_white_space(#[trigger] s[k])) && (forall|k: int|
            hi <= k < s.len() ==> is_white_space(#[trigger] s[k])) && (lo < hi ==> !is_white_space(
            s[lo],
        ) && !is_white_space(s[hi - 1]))
    }

/// The string without leading and trailing white space.
pub fn trim(s: &str) -> (r: String)
    ensures
        is_trim_of(s@, r@),
{
    let n = s.unicode_len();
    let mut lo: usize = 0;
    while lo < n && white_space(s.get_char(lo))
        invariant
            n == s@.len(),
            lo <= n,
            forall|k: int| 0 <= k < lo ==> is_white_space(#[trigger] s@[k]),
        decreases n - lo,
    {
        lo = lo + 1;
    }
    let mut hi: usize = n;
    while hi > lo && white_space(s.get_char(hi - 1))
        invariant
            n == s@.len(),
            lo <= hi <= n,
            forall|k: int| hi <= k < n ==> is_white_space(#[trigger] s@[k]),
        decreases hi,
    {
        hi = hi - 1;
    }
    let t = s.substring_char(lo, hi);
    let r = String::from_str(t);
    assert(is_trim_of(s@, r@)) by {
        assert(0 <= lo <= hi <= s@.len() && r@ == s@.subrange(lo as int, hi as int));
    }
    r
}

/// `s` begins with `p`.
pub open spec fn has_prefix(s: Seq<char>, p: Seq<char>) -> bool {
    p.len() <= s.len() && s.subrange(0, p.len() as int) == p
}

/// `s` ends with `p`.
pub open spec fn has_suffix(s: Seq<char>, p: Seq<char>) -> bool {
    p.len() <= s.len() && s.subrange(s.len() - p.len(), s.len() as int) == p
}

/// Whether `s` begins with `p`.
pub fn starts_with(s: &str, p: &str) -> (r: bool)
    ensures
        r == has_prefix(s@, p@),
{
    let n = s.unicode_len();
    let m = p.unicode_len();
    if m > n {
        return false;
    }
    let mut i: usize = 0;
    while i < m
        invariant
            n == s@.len(),
            m == p@.len(),
            m <= n,
            i <= m,
            forall|k: int| 0 <= k < i ==> s@[k] == p@[k],
        decreases m - i,
    {
        if s.get_char(i) != p.get_char(i) {
            assert(s@.subrange(0, m as int)[i as int] != p@[i as int]);
            return false;
        }
        i = i + 1;
    }
    assert(s@.subrange(0, m as int) =~= p@);
    true
}

/// Whether `s` ends with `p`.
pub fn ends_with(s: &str, p: &str) -> (r: bool)
    ensures
        r == has_suffix(s@, p@),
{
    let n = s.unicode_len();
    let m = p.unicode_len();
    if m > n {
        return false;
    }
    let off = n - m;
    let mut i: usize = 0;
    while i < m
        invariant
            n == s@.len(),
            m == p@.len(),
            off == n - m,
            i <= m,
            forall|k: int| 0 <= k < i ==> s@[off + k] == p@[k],
        decreases m - i,
    {
        if s.get_char(off + i) != p.get_char(i) {
            assert(s@.subrange(off as int, n as int)[i as int] != p@[i as int]);
            return false;
        }
        i = i + 1;
    }
    assert(s@.subrange(off as int, n as int) =~= p@);
    true
}

/// Position of the first `c` in `s`.
pub open spec fn first_index_of(s: Seq<char>, c: char) -> Option<int> {
    if exists|i: int| 0 <= i < s.len() && s[i] == c {
        Some(choose|i: int| 0 <= i < s.len() && s[i] == c && forall|j: int| 0 <= j < i ==> s[j] != c)
    } else {
        None
    }
}

/// Position of the last `c` in `s`.
pub open spec fn last_index_of(s: Seq<char>, c: char) -> Option<int> {
    if exists|i: int| 0 <= i < s.len() && s[i] == c {
        Some(
            choose|i: int|
                0 <= i < s.len() && s[i] == c && forall|j: int| i < j < s.len() ==> s[j] != c,
        )
    } else {
        None
    }
}

/// The position of the first `c` in `s`.
pub fn find_first(s: &str, c: char) -> (r: Option<usize>)
    ensures
        r matches Some(i) ==> i < s@.len() && s@[i as int] == c,
        match r {
            Some(i) => first_index_of(s@, c) == Some(i as int),
            None => first_index_of(s@, c) is None,
        },
{
    let n = s.unicode_len();
    let mut i: usize = 0;
    while i < n
        invariant
            n == s@.len(),
            i <= n,
            forall|j: int| 0 <= j < i ==> s@[j] != c,
        decreases n - i,
    {
        if s.get_char(i) == c {
            let ghost w = choose|k: int|
                0 <= k < s@.len() && s@[k] == c && forall|j: int| 0 <= j < k ==> s@[j] != c;
            assert(w == i) by {
                if w < i {
                } else if w > i {
                }
            }
            return Some(i);
        }
        i = i + 1;
    }
    None
}

/// The position of the last `c` in `s`.
pub fn find_last(s: &str, c: char) -> (r: Option<usize>)
    ensures
        r matches Some(i) ==> i < s@.len() && s@[i as int] == c,
        match r {
            Some(i) => last_index_of(s@, c) == Some(i as int),
            None => last_index_of(s@, c) is None,
        },
{
    let n = s.unicode_len();
    let mut i: usize = n;
    while i > 0
        invariant
            n == s@.len(),
            i <= n,
            forall|j: int| i <= j < n ==> s@[j] != c,
        decreases i,
    {
        if s.get_char(i - 1) == c {
            let ghost w = choose|k: int|
                0 <= k < s@.len() && s@[k] == c && forall|j: int| k < j < s@.len() ==> s@[j] != c;
            assert(w == i - 1) by {
                if w < i - 1 {
                } else if w > i - 1 {
                }
            }
            return Some(i - 1);
        }
        i = i - 1;
    }
    None
}

/// `s` with every `from` replaced by `to`.
pub open spec fn replace_char_spec(s: Seq<char>, from: char, to: char) -> Seq<char> {
    s.map_values(|x: char| if x == from { to } else { x })
}

/// Replace every `from` in `s` by the one-character text `to`.
pub fn replace_char(s: &str, from: char, to: &str) -> (r: String)
    requires
        to@.len() == 1,
    ensures
        r@ == replace_char_spec(s@, from, to@[0]),
{
    let n = s.unicode_len();
    let mut out = String::new();
    let mut i: usize = 0;
    while i < n
        invariant
            n == s@.len(),
            i <= n,
            to@.len() == 1,
            out@ == replace_char_spec(s@.subrange(0, i as int), from, to@[0]),
        decreases n - i,
    {
        let c = s.get_char(i);
        if c == from {
            out.append(to);
        } else {
            let one = s.substring_char(i, i + 1);
            out.append(one);
        }
        assert(out@ =~= replace_char_spec(s@.subrange(0, i + 1), from, to@[0]));
        i = i + 1;
    }
    assert(s@.subrange(0, n as int) =~= s@);
    out
}

/// The decimal digits of `n`.
pub open spec fn decimal(n: nat) -> Seq<char>
    decreases n,
{
    if n < 10 {
        seq![digit_char(n)]
    } else {
        decimal(n / 10) + seq![digit_char(n % 10)]
    }
}

/// The character of a decimal digit.
pub open spec fn digit_char(d: nat) -> char {
    if d == 0 {
        '0'
    } else if d == 1 {
        '1'
    } else if d == 2 {
        '2'
    } else if d == 3 {
        '3'
    } else if d == 4 {
        '4'
    } else if d == 5 {
        '5'
    } else if d == 6 {
        '6'
    } else if d == 7 {
        '7'
    } else if d == 8 {
        '8'
    } else {
        '9'
    }
}

fn digit_str(d: usize) -> (r: &'static str)
    requires
        d < 10,
    ensures
        r@ == seq![digit_char(d as nat)],
{
    proof {
        reveal_strlit("0");
        reveal_strlit("1");
        reveal_strlit("2");
        reveal_strlit("3");
        reveal_strlit("4");
        reveal_strlit("5");
        reveal_strlit("6");
        reveal_strlit("7");
        reveal_strlit("8");
        reveal_strlit("9");
    }
    if d == 0 {
        "0"
    } else if d == 1 {
        "1"
    } else if d == 2 {
        "2"
    } else if d == 3 {
        "3"
    } else if d == 4 {
        "4"
    } else if d == 5 {
        "5"
    } else if d == 6 {
        "6"
    } else if d == 7 {
        "7"
    } else if d == 8 {
        "8"
    } else {
        "9"
    }
}

/// `n` in decimal, as `usize::to_string` writes it.
pub fn usize_to_decimal(n: usize) -> (r: String)
    ensures
        r@ == decimal(n as nat),
    decreases n,
{
    if n < 10 {
        String::from_str(digit_str(n))
    } else {
        let head = usize_to_decimal(n / 10);
        head.concat(digit_str(n % 10))
    }
}

/// `n` in decimal, as `u128::to_string` writes it.
pub fn u128_to_decimal(n: u128) -> (r: String)
    ensures
        r@ == decimal(n as nat),
    decreases n,
{
    if n < 10 {
        String::from_str(digit_str(n as usize))
    } else {
        let head = u128_to_decimal(n / 10);
        head.concat(digit_str((n % 10) as usize))
    }
}

/// The lower-case character of a hexadecimal digit.
pub open spec fn hex_digit_char(d: nat) -> char {
    if d < 10 {
        digit_char(d)
    } else if d == 10 {
        'a'
    } else if d == 11 {
        'b'
    } else if d == 12 {
        'c'
    } else if d == 13 {
        'd'
    } else if d == 14 {
        'e'
    } else {
        'f'
    }
}

/// The last `width` hexadecimal digits of `n`, most significant first,
/// padded with zeros.
pub open spec fn hex_fixed(n: nat, width: nat) -> Seq<char>
    decreases width,
{
    if width == 0 {
        Seq::<char>::empty()
    } else {
        hex_fixed(n / 16, (width - 1) as nat).push(hex_digit_char(n % 16))
    }
}

fn hex_digit_str(d: u32) -> (r: &'static str)
    requires
        d < 16,
    ensures
        r@ == seq![hex_digit_char(d as nat)],
{
    proof {
        reveal_strlit("a");
        reveal_strlit("b");
        reveal_strlit("c");
        reveal_strlit("d");
        reveal_strlit("e");
        reveal_strlit("f");
    }
    if d < 10 {
        digit_str(d as usize)
    } else if d == 10 {
        "a"
    } else if d == 11 {
        "b"
    } else if d == 12 {
        "c"
    } else if d == 13 {
        "d"
    } else if d == 14 {
        "e"
    } else {
        "f"
    }
}

/// Sixteen to the power `k`.
pub open spec fn pow16(k: nat) -> nat
    decreases k,
{
    if k == 0 {
        1
    } else {
        16 * pow16((k - 1) as nat)
    }
}

proof fn lemma_pow16_positive(k: nat)
    ensures
        pow16(k) > 0,
    decreases k,
{
    if k > 0 {
        lemma_pow16_positive((k - 1) as nat);
    }
}

/// `n` as eight lower-case hexadecimal digits, as `format!("{:08x}", n)`
/// writes it.
pub fn u32_to_hex8(n: u32) -> (r: String)
    ensures
        r@ == hex_fixed(n as nat, 8),
{
    let mut out = String::new();
    let mut k: u32 = 8;
    let mut p: u32 = 0x1000_0000;
    proof {
        reveal_with_fuel(pow16, 9);
        assert(pow16(8) == 0x1_0000_0000);
        assert(n as nat / pow16(8) == 0);
        assert(out@ =~= hex_fixed(0, 0));
    }
    while k > 0
        invariant
            k <= 8,
            k > 0 ==> p as nat == pow16((k - 1) as nat),
            out@ == hex_fixed(n as nat / pow16(k as nat), (8 - k) as nat),
        decreases k,
    {
        proof {
            lemma_pow16_positive((k - 1) as nat);
        }
        let d = (n / p) % 16;
        proof {
            let m = n as nat / pow16((k - 1) as nat);
            vstd::arithmetic::div_mod::lemma_div_denominator(n as int, pow16((k - 1) as nat) as int, 16);
            assert(pow16((k - 1) as nat) * 16 == pow16(k as nat));
            assert(m / 16 == n as nat / pow16(k as nat));
            assert(hex_fixed(m, (8 - (k - 1)) as nat) == hex_fixed(m / 16, (8 - k) as nat).push(
                hex_digit_char(m % 16),
            ));
        }
        out = out.concat(hex_digit_str(d));
        k = k - 1;
        if k > 0 {
            p = p / 16;
        }
    }
    assert(pow16(0) == 1);
    assert(n as nat / 1 == n as nat);
    out
}

/// `n` in decimal, as `u64::to_string` writes it.
pub fn u64_to_decimal(n: u64) -> (r: String)
    ensures
        r@ == decimal(n as nat),
    decreases n,
{
    if n < 10 {
        String::from_str(digit_str(n as usize))
    } else {
        let head = u64_to_decimal(n / 10);
        head.concat(digit_str((n % 10) as usize))
    }
}

/// An ASCII decimal digit.
pub open spec fn is_digit(c: char) -> bool {
    '0' <= c && c <= '9'
}

/// The value of a string of decimal digits.
pub open spec fn digits_value(s: Seq<char>) -> int
    decreases s.len(),
{
    if s.len() == 0 {
        0
    } else {
        digits_value(s.drop_last()) * 10 + ((s.last() as int) - ('0' as int))
    }
}

/// Every character is a decimal digit.
pub open spec fn all_digits(d: Seq<char>) -> bool {
    forall|i: int| 0 <= i < d.len() ==> is_digit(#[trigger] d[i])
}

/// `s` has the layout of `mask`: a digit wherever the mask has `9`, the
/// mask's own character elsewhere.
pub open spec fn matches_mask(s: Seq<char>, mask: Seq<char>) -> bool {
    &&& s.len() == mask.len()
    &&& forall|i: int|
        0 <= i < s.len() ==> if mask[i] == '9' {
            is_digit(#[trigger] s[i])
        } else {
            s[i] == mask[i]
        }
}

/// A year as calendar formats write years from 0 on: four digits up to
/// 9999, beyond that `+` and five or more digits.
pub open spec fn is_year_text(y: Seq<char>) -> bool {
    (y.len() == 4 && all_digits(y)) || (y.len() >= 6 && y[0] == '+' && all_digits(
        y.subrange(1, y.len() as int),
    ))
}

/// A calendar date `YEAR-MM-DD`.
pub open spec fn is_date_text(s: Seq<char>) -> bool {
    s.len() >= 6 && is_year_text(s.subrange(0, s.len() - 6)) && matches_mask(
        s.subrange(s.len() - 6, s.len() as int),
        "-99-99"@,
    )
}

/// An RFC 3339 time in UTC as `to_rfc3339` writes it: the date, `T`, the
/// time to the second, no fraction or one of 3, 6 or 9 digits, and the
/// offset `+00:00`.
pub open spec fn is_rfc3339_utc_text(s: Seq<char>) -> bool {
    exists|d: int, f: int|
        #![trigger s.subrange(0, d), s.subrange(d, d + 9 + f)]
        0 <= d && (f == 0 || f == 4 || f == 7 || f == 10) && s.len() == d + 9 + f + 6
            && is_date_text(s.subrange(0, d)) && matches_mask(s.subrange(d, d + 9), "T99:99:99"@)
            && (f > 0 ==> s[d + 9] == '.' && all_digits(s.subrange(d + 10, d + 9 + f)))
            && s.subrange(d + 9 + f, s.len() as int) == "+00:00"@
}

/// The text after an optional leading `+`.
pub open spec fn unsigned_part(s: Seq<char>) -> Seq<char> {
    if s.len() > 0 && s[0] == '+' {
        s.drop_first()
    } else {
        s
    }
}

/// What `str::parse::<usize>` reads: an optional `+` and one or more
/// decimal digits whose value fits.
pub open spec fn parsed_usize(s: Seq<char>) -> Option<usize> {
    let d = unsigned_part(s);
    if d.len() > 0 && all_digits(d) && digits_value(d) <= usize::MAX {
        Some(digits_value(d) as usize)
    } else {
        None
    }
}

proof fn lemma_digits_value_nonneg(s: Seq<char>)
    requires
        forall|i: int| 0 <= i < s.len() ==> is_digit(#[trigger] s[i]),
    ensures
        digits_value(s) >= 0,
    decreases s.len(),
{
    if s.len() > 0 {
        lemma_digits_value_nonneg(s.drop_last());
    }
}

/// Parse a decimal number the way `str::parse::<usize>` does.
pub fn parse_usize(s: &str) -> (r: Option<usize>)
    ensures
        r == parsed_usize(s@),
{
    let n = s.unicode_len();
    let start: usize = if n > 0 && s.get_char(0) == '+' {
        1
    } else {
        0
    };
    let ghost d = unsigned_part(s@);
    assert(d =~= s@.subrange(start as int, n as int));
    if start >= n {
        return None;
    }
    let mut value: usize = 0;
    let mut i: usize = start;
    while i < n
        invariant
            n == s@.len(),
            start <= i <= n,
            d == s@.subrange(start as int, n as int),
            d == unsigned_part(s@),
            forall|k: int| start <= k < i ==> is_digit(#[trigger] s@[k]),
            value == digits_value(s@.subrange(start as int, i as int)),
        decreases n - i,
    {
        let c = s.get_char(i);
        if !('0' <= c && c <= '9') {
            proof {
                let k = i - start;
                assert(d[k] == c);
                assert(!is_digit(d[k]));
                assert(!all_digits(d));
                assert(parsed_usize(s@) is None);
            }
            return None;
        }
        let digit = (c as u32 - '0' as u32) as usize;
        assert(s@.subrange(start as int, i + 1).drop_last() =~= s@.subrange(start as int, i as int));
        proof {
            lemma_digits_value_nonneg(s@.subrange(start as int, i + 1));
            assert forall|k: int| 0 <= k < (i + 1 - start) implies is_digit(
                #[trigger] s@.subrange(start as int, i + 1)[k],
            ) by {
                assert(s@.subrange(start as int, i + 1)[k] == s@[start + k]);
            }
        }
        assert(digits_value(s@.subrange(start as int, i + 1)) == value * 10 + digit);
        match value.checked_mul(10) {
            Some(v10) => match v10.checked_add(digit) {
                Some(v) => {
                    value = v;
                },
                None => {
                    proof {
                        lemma_overflow_rejects(s@, start as int, i as int, n as int);
                        assert(parsed_usize(s@) is None);
                    }
                    return None;
                },
            },
            None => {
                proof {
                    lemma_overflow_rejects(s@, start as int, i as int, n as int);
                }
                return None;
            },
        }
        i = i + 1;
    }
    proof {
        assert forall|k: int| 0 <= k < d.len() implies is_digit(#[trigger] d[k]) by {
            assert(d[k] == s@[start + k]);
        }
        assert(all_digits(d));
        assert(s@.subrange(start as int, i as int) == d);
    }
    Some(value)
}

/// When the digits up to position `i` already exceed `usize::MAX`, the
/// text from `start` does not parse.
proof fn lemma_overflow_rejects(s: Seq<char>, start: int, i: int, n: int)
    requires
        0 <= start <= i < n,
        n == s.len(),
        digits_value(s.subrange(start, i + 1)) > usize::MAX,
        forall|k: int| start <= k <= i ==> is_digit(#[trigger] s[k]),
    ensures
        !(all_digits(s.subrange(start, n)) && digits_value(s.subrange(start, n)) <= usize::MAX),
{
    let d = s.subrange(start, n);
    if all_digits(d) {
        lemma_prefix_bound(d, i + 1 - start);
        assert(d.subrange(0, i + 1 - start) =~= s.subrange(start, i + 1));
    }
}

/// A digit string's value is at least the value of any of its prefixes.
proof fn lemma_prefix_bound(s: Seq<char>, m: int)
    requires
        0 <= m <= s.len(),
        forall|i: int| 0 <= i < s.len() ==> is_digit(#[trigger] s[i]),
    ensures
        digits_value(s) >= digits_value(s.subrange(0, m)),
    decreases s.len(),
{
    if m < s.len() {
        assert(s.drop_last().subrange(0, m) =~= s.subrange(0, m));
        assert forall|i: int| 0 <= i < s.drop_last().len() implies is_digit(
            #[trigger] s.drop_last()[i],
        ) by {
            assert(s.drop_last()[i] == s[i]);
        }
        lemma_prefix_bound(s.drop_last(), m);
        lemma_digits_value_nonneg(s.drop_last());
    } else {
        assert(s.subrange(0, m) =~= s);
    }
}

} // verus!
