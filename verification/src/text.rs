//! Verified text helpers: string equality and search, and the decimal and
//! hexadecimal renderings that the header accessors hand out.

use vstd::prelude::*;

verus! {

/// Compares two strings character by character.
pub fn str_eq(a: &str, b: &str) -> (r: bool)
    ensures
        r == (a@ == b@),
{
    let an = a.unicode_len();
    let bn = b.unicode_len();
    if an != bn {
        assert(a@ != b@);
        return false;
    }
    let mut i: usize = 0;
    while i < an
        invariant
            an == a@.len(),
            bn == b@.len(),
            an == bn,
            0 <= i <= an,
            forall|j: int| 0 <= j < i ==> a@[j] == b@[j],
        decreases an - i,
    {
        if a.get_char(i) != b.get_char(i) {
            return false;
        }
        i = i + 1;
    }
    proof {
        assert(a@ =~= b@);
    }
    true
}

/// Whether `needle` occurs in `hay` starting at position `at`.
pub open spec fn matches_at(hay: Seq<char>, needle: Seq<char>, at: int) -> bool {
    &&& 0 <= at
    &&& at + needle.len() <= hay.len()
    &&& hay.subrange(at, at + needle.len()) =~= needle
}

/// Whether `needle` occurs anywhere in `hay`.
pub open spec fn contains_seq(hay: Seq<char>, needle: Seq<char>) -> bool {
    exists|at: int| matches_at(hay, needle, at)
}

/// Whether `needle` occurs in `hay`; an empty needle always matches.
pub fn str_contains(hay: &str, needle: &str) -> (r: bool)
    ensures
        r == (needle@.len() == 0 || contains_seq(hay@, needle@)),
{
    let hn = hay.unicode_len();
    let nn = needle.unicode_len();
    if nn == 0 {
        return true;
    }
    if nn > hn {
        assert(!contains_seq(hay@, needle@)) by {
            assert(forall|at: int| !matches_at(hay@, needle@, at));
        }
        return false;
    }
    let mut at: usize = 0;
    while at <= hn - nn
        invariant
            hn == hay@.len(),
            nn == needle@.len(),
            0 < nn <= hn,
            0 <= at <= hn - nn + 1,
            forall|p: int| 0 <= p < at ==> !matches_at(hay@, needle@, p),
        decreases hn - at,
    {
        let mut k: usize = 0;
        let mut same = true;
        while k < nn
            invariant
                hn == hay@.len(),
                nn == needle@.len(),
                0 <= at <= hn - nn,
                0 <= k <= nn,
                same <==> (forall|j: int| 0 <= j < k ==> hay@[at + j] == needle@[j]),
            decreases nn - k,
        {
            if hay.get_char(at + k) != needle.get_char(k) {
                same = false;
                assert(hay@[at + k as int] != needle@[k as int]);
                k = nn;
            } else {
                assert(hay@[at + k as int] == needle@[k as int]);
                k = k + 1;
            }
        }
        if same {
            assert(matches_at(hay@, needle@, at as int));
            return true;
        }
        assert(!matches_at(hay@, needle@, at as int)) by {
            if matches_at(hay@, needle@, at as int) {
                let ghost d = choose|j: int| 0 <= j < nn && hay@[at + j] != needle@[j];
                assert(hay@.subrange(at as int, at + nn)[d] == needle@[d]);
            }
        }
        at = at + 1;
    }
    assert(!contains_seq(hay@, needle@)) by {
        assert(forall|p: int| !matches_at(hay@, needle@, p) || (0 <= p <= hn - nn));
    }
    false
}

/// Whether `hay` starts with `needle`.
pub fn str_starts_with(hay: &str, needle: &str) -> (r: bool)
    ensures
        r == (needle@.len() <= hay@.len() && hay@.subrange(0, needle@.len() as int) =~= needle@),
{
    let hn = hay.unicode_len();
    let nn = needle.unicode_len();
    if nn > hn {
        return false;
    }
    let mut k: usize = 0;
    while k < nn
        invariant
            hn == hay@.len(),
            nn == needle@.len(),
            nn <= hn,
            0 <= k <= nn,
            forall|j: int| 0 <= j < k ==> hay@[j] == needle@[j],
        decreases nn - k,
    {
        if hay.get_char(k) != needle.get_char(k) {
            assert(hay@.subrange(0, nn as int)[k as int] != needle@[k as int]);
            return false;
        }
        assert(hay@[k as int] == needle@[k as int]);
        k = k + 1;
    }
    assert(hay@.subrange(0, nn as int) =~= needle@);
    true
}

/// The character for the digit value `d`: decimal digits, then capital
/// letters for the hexadecimal values ten to fifteen.
pub open spec fn spec_digit_upper(d: int) -> char {
    if d < 10 {
        ((48 + d) as u32) as char
    } else {
        ((55 + d) as u32) as char
    }
}

/// As `spec_digit_upper`, with small letters.
pub open spec fn spec_digit_lower(d: int) -> char {
    if d < 10 {
        ((48 + d) as u32) as char
    } else {
        ((87 + d) as u32) as char
    }
}

/// The decimal rendering of `n`, most significant digit first.
pub open spec fn spec_dec(n: int) -> Seq<char>
    decreases n,
{
    if n < 10 {
        seq![spec_digit_upper(n)]
    } else {
        spec_dec(n / 10).push(spec_digit_upper(n % 10))
    }
}

/// The hexadecimal rendering of `n` in capital letters, without a prefix.
pub open spec fn spec_hex_upper(n: int) -> Seq<char>
    decreases n,
{
    if n < 16 {
        seq![spec_digit_upper(n)]
    } else {
        spec_hex_upper(n / 16).push(spec_digit_upper(n % 16))
    }
}

/// The hexadecimal rendering of `n` in small letters, without a prefix.
pub open spec fn spec_hex_lower(n: int) -> Seq<char>
    decreases n,
{
    if n < 16 {
        seq![spec_digit_lower(n)]
    } else {
        spec_hex_lower(n / 16).push(spec_digit_lower(n % 16))
    }
}

/// The digit character for `d`, in capital letters above nine.
fn digit_str_upper(d: u64) -> (r: &'static str)
    requires
        d < 16,
    ensures
        r@ =~= seq![spec_digit_upper(d as int)],
{
    proof {
        reveal_strlit("0");
        reveal_strlit("1");
        reveal_strlit("2");
        reveal_strlit("3");
        reveal_strlit("4");
        reveal_strlit("5");
        reveal_strlit("6");
        reveal_strlit("7");
        reveal_strlit("8");
        reveal_strlit("9");
        reveal_strlit("A");
        reveal_strlit("B");
        reveal_strlit("C");
        reveal_strlit("D");
        reveal_strlit("E");
        reveal_strlit("F");
    }
    match d {
        0 => "0",
        1 => "1",
        2 => "2",
        3 => "3",
        4 => "4",
        5 => "5",
        6 => "6",
        7 => "7",
        8 => "8",
        9 => "9",
        10 => "A",
        11 => "B",
        12 => "C",
        13 => "D",
        14 => "E",
        _ => "F",
    }
}

/// The digit character for `d`, in small letters above nine.
fn digit_str_lower(d: u64) -> (r: &'static str)
    requires
        d < 16,
    ensures
        r@ =~= seq![spec_digit_lower(d as int)],
{
    if d < 10 {
        digit_str_upper(d)
    } else {
        proof {
            reveal_strlit("a");
            reveal_strlit("b");
            reveal_strlit("c");
            reveal_strlit("d");
            reveal_strlit("e");
            reveal_strlit("f");
        }
        match d {
            10 => "a",
            11 => "b",
            12 => "c",
            13 => "d",
            14 => "e",
            _ => "f",
        }
    }
}

/// Renders `n` in decimal.
pub fn u64_to_dec(n: u64) -> (r: String)
    ensures
        r@ == spec_dec(n as int),
    decreases n,
{
    if n < 10 {
        let s = digit_str_upper(n);
        let r = s.to_owned();
        assert(r@ =~= spec_dec(n as int));
        r
    } else {
        let mut r = u64_to_dec(n / 10);
        r.append(digit_str_upper(n % 10));
        assert(r@ =~= spec_dec(n as int));
        r
    }
}

/// Renders `n` in hexadecimal, capital letters, no prefix.
pub fn u64_to_hex_upper(n: u64) -> (r: String)
    ensures
        r@ == spec_hex_upper(n as int),
    decreases n,
{
    if n < 16 {
        let s = digit_str_upper(n);
        let r = s.to_owned();
        assert(r@ =~= spec_hex_upper(n as int));
        r
    } else {
        let mut r = u64_to_hex_upper(n / 16);
        r.append(digit_str_upper(n % 16));
        assert(r@ =~= spec_hex_upper(n as int));
        r
    }
}

/// Renders `n` in hexadecimal, small letters, no prefix.
pub fn u64_to_hex_lower(n: u64) -> (r: String)
    ensures
        r@ == spec_hex_lower(n as int),
    decreases n,
{
    if n < 16 {
        let s = digit_str_lower(n);
        let r = s.to_owned();
        assert(r@ =~= spec_hex_lower(n as int));
        r
    } else {
        let mut r = u64_to_hex_lower(n / 16);
        r.append(digit_str_lower(n % 16));
        assert(r@ =~= spec_hex_lower(n as int));
        r
    }
}

/// The rendering `0x` followed by small hexadecimal digits.
pub open spec fn spec_hex_0x_lower(n: int) -> Seq<char> {
    seq!['0', 'x'] + spec_hex_lower(n)
}

/// Renders `n` as `0x` followed by small hexadecimal digits.
pub fn u64_to_hex_0x_lower(n: u64) -> (r: String)
    ensures
        r@ == spec_hex_0x_lower(n as int),
{
    proof {
        reveal_strlit("0x");
    }
    let mut r = ("0x").to_owned();
    let tail = u64_to_hex_lower(n);
    r.append(tail.as_str());
    assert(r@ =~= spec_hex_0x_lower(n as int));
    r
}

/// The rendering `0x` followed by capital hexadecimal digits.
pub open spec fn spec_hex_0x(n: int) -> Seq<char> {
    seq!['0', 'x'] + spec_hex_upper(n)
}

/// Renders `n` as `0x` followed by capital hexadecimal digits.
pub fn u64_to_hex_0x(n: u64) -> (r: String)
    ensures
        r@ == spec_hex_0x(n as int),
{
    proof {
        reveal_strlit("0x");
    }
    let mut r = ("0x").to_owned();
    let tail = u64_to_hex_upper(n);
    r.append(tail.as_str());
    assert(r@ =~= spec_hex_0x(n as int));
    r
}


/// Whether the character is one of the blanks trimming removes.
pub open spec fn spec_is_space(c: char) -> bool {
    c == ' ' || c == '\t' || c == '\n' || c == '\r'
}

/// The first index at or after `i` holding something other than a blank,
/// or the length when only blanks follow.
pub open spec fn spec_skip_space(s: Seq<char>, i: int) -> int
    decreases s.len() - i,
{
    if i < 0 || i >= s.len() {
        s.len() as int
    } else if spec_is_space(s[i]) {
        spec_skip_space(s, i + 1)
    } else {
        i
    }
}

/// One past the last non-blank strictly below `i`, or zero when only
/// blanks precede.
pub open spec fn spec_rskip_space(s: Seq<char>, i: int) -> int
    decreases i,
{
    if i <= 0 || i > s.len() {
        0
    } else if spec_is_space(s[i - 1]) {
        spec_rskip_space(s, i - 1)
    } else {
        i
    }
}

/// The text with the blanks at both ends removed.
pub open spec fn spec_trimmed(s: Seq<char>) -> Seq<char> {
    let a = spec_skip_space(s, 0);
    let z = spec_rskip_space(s, s.len() as int);
    if a >= z {
        Seq::empty()
    } else {
        s.subrange(a, z)
    }
}

/// Tests the blanks trimming removes.
fn is_space_char(c: char) -> (r: bool)
    ensures
        r == spec_is_space(c),
{
    c == ' ' || c == '\t' || c == '\n' || c == '\r'
}

/// Copies the text with the blanks at both ends removed.
pub fn trim_str(s: &str) -> (r: String)
    ensures
        r@ == spec_trimmed(s@),
{
    let n = s.unicode_len();
    let mut a: usize = 0;
    while a < n && is_space_char(s.get_char(a))
        invariant
            n == s@.len(),
            0 <= a <= n,
            spec_skip_space(s@, 0) == spec_skip_space(s@, a as int),
        decreases n - a,
    {
        a = a + 1;
    }
    let mut z: usize = n;
    while z > 0 && is_space_char(s.get_char(z - 1))
        invariant
            n == s@.len(),
            0 <= z <= n,
            spec_rskip_space(s@, n as int) == spec_rskip_space(s@, z as int),
        decreases z,
    {
        z = z - 1;
    }
    proof {
        assert(spec_skip_space(s@, a as int) == a);
        assert(spec_rskip_space(s@, z as int) == z);
    }
    if a >= z {
        let r = String::new();
        assert(r@ =~= spec_trimmed(s@));
        r
    } else {
        let piece = s.substring_char(a, z);
        piece.to_owned()
    }
}

/// The value of a hexadecimal digit character, or -1.
pub open spec fn spec_hex_val(c: char) -> int {
    let u = c as u32;
    if 48 <= u <= 57 {
        u - 48
    } else if 97 <= u <= 102 {
        u - 87
    } else if 65 <= u <= 70 {
        u - 55
    } else {
        -1
    }
}

/// The value of a decimal digit character, or -1.
pub open spec fn spec_dec_val(c: char) -> int {
    let u = c as u32;
    if 48 <= u <= 57 {
        u - 48
    } else {
        -1
    }
}

/// Whether every character is a hexadecimal digit.
pub open spec fn spec_all_hex(t: Seq<char>) -> bool {
    forall|i: int| 0 <= i < t.len() ==> spec_hex_val(t[i]) >= 0
}

/// Whether every character is a decimal digit.
pub open spec fn spec_all_dec(t: Seq<char>) -> bool {
    forall|i: int| 0 <= i < t.len() ==> spec_dec_val(t[i]) >= 0
}

/// The number the hexadecimal digits spell, most significant first.
pub open spec fn spec_hex_value(t: Seq<char>) -> int
    decreases t.len(),
{
    if t.len() == 0 {
        0
    } else {
        spec_hex_value(t.drop_last()) * 16 + spec_hex_val(t.last())
    }
}

/// The number the decimal digits spell, most significant first.
pub open spec fn spec_dec_value(t: Seq<char>) -> int
    decreases t.len(),
{
    if t.len() == 0 {
        0
    } else {
        spec_dec_value(t.drop_last()) * 10 + spec_dec_val(t.last())
    }
}

/// A digit string's value never falls as more of its digits are read.
pub proof fn lemma_hex_value_mono(t: Seq<char>, i: int)
    requires
        spec_all_hex(t),
        0 <= i <= t.len(),
    ensures
        0 <= spec_hex_value(t.subrange(0, i)) <= spec_hex_value(t),
    decreases t.len() - i,
{
    if i == t.len() {
        assert(t.subrange(0, i) =~= t);
        lemma_hex_value_nonneg(t);
    } else {
        lemma_hex_value_mono(t, i + 1);
        assert(t.subrange(0, i + 1).drop_last() =~= t.subrange(0, i));
        assert(t.subrange(0, i + 1).last() == t[i]);
        lemma_hex_value_nonneg(t.subrange(0, i));
    }
}

/// A hexadecimal value is never negative.
pub proof fn lemma_hex_value_nonneg(t: Seq<char>)
    requires
        spec_all_hex(t),
    ensures
        spec_hex_value(t) >= 0,
    decreases t.len(),
{
    if t.len() > 0 {
        assert(spec_all_hex(t.drop_last())) by {
            assert(forall|i: int| 0 <= i < t.len() - 1 ==> t.drop_last()[i] == t[i]);
        }
        lemma_hex_value_nonneg(t.drop_last());
    }
}

/// A decimal digit string's value never falls as more digits are read.
pub proof fn lemma_dec_value_mono(t: Seq<char>, i: int)
    requires
        spec_all_dec(t),
        0 <= i <= t.len(),
    ensures
        0 <= spec_dec_value(t.subrange(0, i)) <= spec_dec_value(t),
    decreases t.len() - i,
{
    if i == t.len() {
        assert(t.subrange(0, i) =~= t);
        lemma_dec_value_nonneg(t);
    } else {
        lemma_dec_value_mono(t, i + 1);
        assert(t.subrange(0, i + 1).drop_last() =~= t.subrange(0, i));
        assert(t.subrange(0, i + 1).last() == t[i]);
        lemma_dec_value_nonneg(t.subrange(0, i));
    }
}

/// A decimal value is never negative.
pub proof fn lemma_dec_value_nonneg(t: Seq<char>)
    requires
        spec_all_dec(t),
    ensures
        spec_dec_value(t) >= 0,
    decreases t.len(),
{
    if t.len() > 0 {
        assert(spec_all_dec(t.drop_last())) by {
            assert(forall|i: int| 0 <= i < t.len() - 1 ==> t.drop_last()[i] == t[i]);
        }
        lemma_dec_value_nonneg(t.drop_last());
    }
}

/// Parses the digits of `t` from position `from` on as a hexadecimal
/// number: the value exactly when there is at least one digit, every
/// character is a digit, and the value fits the machine word.
pub fn parse_hex_str(t: &str, from: usize) -> (r: Option<usize>)
    requires
        from <= t@.len(),
    ensures
        ({
            let h = t@.subrange(from as int, t@.len() as int);
            &&& (r is Some <==> h.len() > 0 && spec_all_hex(h) && spec_hex_value(h) <= usize::MAX)
            &&& r is Some ==> r->0 == spec_hex_value(h)
        }),
{
    let ghost h = t@.subrange(from as int, t@.len() as int);
    let n = t.unicode_len();
    if from == n {
        return None;
    }
    let mut acc: usize = 0;
    let mut i: usize = from;
    while i < n
        invariant
            n == t@.len(),
            h == t@.subrange(from as int, t@.len() as int),
            from <= i <= n,
            spec_all_hex(h.subrange(0, i - from)),
            acc == spec_hex_value(h.subrange(0, i - from)),
        decreases n - i,
    {
        let c = t.get_char(i);
        let u = c as u32;
        let v: usize = if 48 <= u && u <= 57 {
            (u - 48) as usize
        } else if 97 <= u && u <= 102 {
            (u - 87) as usize
        } else if 65 <= u && u <= 70 {
            (u - 55) as usize
        } else {
            assert(spec_hex_val(h[i - from]) < 0);
            return None;
        };
        proof {
            assert(h[i - from] == t@[i as int]);
            assert(v == spec_hex_val(h[i - from]));
        }
        if acc > usize::MAX / 16 || (acc == usize::MAX / 16 && v > usize::MAX % 16) {
            proof {
                assert(h.subrange(0, i - from + 1).drop_last() =~= h.subrange(0, i - from));
                assert(h.subrange(0, i - from + 1).last() == h[i - from]);
                assert(spec_hex_value(h.subrange(0, i - from + 1)) > usize::MAX);
                if spec_all_hex(h) {
                    lemma_hex_value_mono(h, i - from + 1);
                }
            }
            return None;
        }
        let next: usize = acc * 16 + v;
        proof {
            assert(h.subrange(0, i - from + 1).drop_last() =~= h.subrange(0, i - from));
            assert(h.subrange(0, i - from + 1).last() == h[i - from]);
            assert(forall|j: int|
                0 <= j < i - from + 1 ==> #[trigger] h.subrange(0, i - from + 1)[j] == h[j]);
        }
        acc = next;
        i = i + 1;
    }
    proof {
        assert(h.subrange(0, n - from) =~= h);
    }
    Some(acc)
}

/// Parses the digits of `t` from position `from` on as a decimal number,
/// under the same conditions as the hexadecimal parse.
pub fn parse_dec_str(t: &str, from: usize) -> (r: Option<usize>)
    requires
        from <= t@.len(),
    ensures
        ({
            let h = t@.subrange(from as int, t@.len() as int);
            &&& (r is Some <==> h.len() > 0 && spec_all_dec(h) && spec_dec_value(h) <= usize::MAX)
            &&& r is Some ==> r->0 == spec_dec_value(h)
        }),
{
    let ghost h = t@.subrange(from as int, t@.len() as int);
    let n = t.unicode_len();
    if from == n {
        return None;
    }
    let mut acc: usize = 0;
    let mut i: usize = from;
    while i < n
        invariant
            n == t@.len(),
            h == t@.subrange(from as int, t@.len() as int),
            from <= i <= n,
            spec_all_dec(h.subrange(0, i - from)),
            acc == spec_dec_value(h.subrange(0, i - from)),
        decreases n - i,
    {
        let c = t.get_char(i);
        let u = c as u32;
        let v: usize = if 48 <= u && u <= 57 {
            (u - 48) as usize
        } else {
            assert(spec_dec_val(h[i - from]) < 0);
            return None;
        };
        proof {
            assert(h[i - from] == t@[i as int]);
            assert(v == spec_dec_val(h[i - from]));
        }
        if acc > usize::MAX / 10 || (acc == usize::MAX / 10 && v > usize::MAX % 10) {
            proof {
                assert(h.subrange(0, i - from + 1).drop_last() =~= h.subrange(0, i - from));
                assert(h.subrange(0, i - from + 1).last() == h[i - from]);
                assert(spec_dec_value(h.subrange(0, i - from + 1)) > usize::MAX);
                if spec_all_dec(h) {
                    lemma_dec_value_mono(h, i - from + 1);
                }
            }
            return None;
        }
        let next: usize = acc * 10 + v;
        proof {
            assert(h.subrange(0, i - from + 1).drop_last() =~= h.subrange(0, i - from));
            assert(h.subrange(0, i - from + 1).last() == h[i - from]);
            assert(forall|j: int|
                0 <= j < i - from + 1 ==> #[trigger] h.subrange(0, i - from + 1)[j] == h[j]);
        }
        acc = next;
        i = i + 1;
    }
    proof {
        assert(h.subrange(0, n - from) =~= h);
    }
    Some(acc)
}

/// Whether the character is an ASCII letter.
pub open spec fn spec_is_alpha(c: char) -> bool {
    let u = c as u32;
    (65 <= u <= 90) || (97 <= u <= 122)
}

/// Whether the text holds an ASCII letter anywhere.
pub open spec fn spec_has_alpha(t: Seq<char>) -> bool {
    exists|i: int| 0 <= i < t.len() && spec_is_alpha(t[i])
}

/// Scans for an ASCII letter.
pub fn has_alpha(t: &str) -> (r: bool)
    ensures
        r == spec_has_alpha(t@),
{
    let n = t.unicode_len();
    let mut i: usize = 0;
    while i < n
        invariant
            n == t@.len(),
            0 <= i <= n,
            forall|j: int| 0 <= j < i ==> !spec_is_alpha(t@[j]),
        decreases n - i,
    {
        let u = t.get_char(i) as u32;
        if (65 <= u && u <= 90) || (97 <= u && u <= 122) {
            assert(spec_is_alpha(t@[i as int]));
            return true;
        }
        i = i + 1;
    }
    false
}

} // verus!
