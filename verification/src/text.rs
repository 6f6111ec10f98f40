use vstd::prelude::*;

verus! {

/// The character of a decimal digit.
pub open spec fn digit_char(d: nat) -> char {
    (48 + d) as char
}

/// The decimal representation of `n`, without sign or leading zeros.
pub open spec fn decimal(n: nat) -> Seq<char>
    decreases n,
{
    if n < 10 {
        seq![digit_char(n)]
    } else {
        decimal(n / 10).push(digit_char(n % 10))
    }
}

/// `String::push`: appends one character to the string.
#[verifier::external_body]
fn push_char(s: &mut String, c: char)
    ensures
        final(s)@ == old(s)@.push(c),
{
    s.push(c)
}

fn digit(d: u64) -> (c: char)
    requires
        d < 10,
    ensures
        c == digit_char(d as nat),
{
    let b: u8 = 48u8 + (d as u8);
    b as char
}

/// Writes `n` in decimal, as `format!("{}", n)` does.
pub fn decimal_string(n: u64) -> (s: String)
    ensures
        s@ == decimal(n as nat),
    decreases n,
{
    if n < 10 {
        let mut s = String::new();
        push_char(&mut s, digit(n));
        s
    } else {
        let mut s = decimal_string(n / 10);
        push_char(&mut s, digit(n % 10));
        s
    }
}

} // verus!

verus! {

/// Unicode `White_Space`, the set that `char::is_whitespace` and `str::trim` use.
pub open spec fn is_whitespace(c: char) -> bool {
    ||| ('\u{9}' <= c && c <= '\u{d}')
    ||| c == ' '
    ||| c == '\u{85}'
    ||| c == '\u{a0}'
    ||| c == '\u{1680}'
    ||| ('\u{2000}' <= c && c <= '\u{200a}')
    ||| c == '\u{2028}'
    ||| c == '\u{2029}'
    ||| c == '\u{202f}'
    ||| c == '\u{205f}'
    ||| c == '\u{3000}'
}

/// The first position at or after `i` that holds no whitespace (or the end).
pub open spec fn skip_whitespace_from(s: Seq<char>, i: int) -> int
    decreases s.len() - i,
{
    if 0 <= i < s.len() && is_whitespace(s[i]) {
        skip_whitespace_from(s, i + 1)
    } else {
        i
    }
}

/// The end of `s[lo..j]` once the whitespace at its back is dropped.
pub open spec fn drop_trailing_whitespace(s: Seq<char>, lo: int, j: int) -> int
    decreases j - lo,
{
    if lo < j <= s.len() && is_whitespace(s[j - 1]) {
        drop_trailing_whitespace(s, lo, j - 1)
    } else {
        j
    }
}

/// `s` without its leading and trailing whitespace, as `str::trim` gives it.
pub open spec fn trimmed(s: Seq<char>) -> Seq<char> {
    let a = skip_whitespace_from(s, 0);
    s.subrange(a, drop_trailing_whitespace(s, a, s.len() as int))
}

/// `needle` occurs in `hay` as a contiguous piece.
pub open spec fn occurs_in(hay: Seq<char>, needle: Seq<char>) -> bool {
    exists|i: int|
        0 <= i && i + needle.len() <= hay.len() && #[trigger] hay.subrange(i, i + needle.len())
            == needle
}

pub fn is_whitespace_char(c: char) -> (r: bool)
    ensures
        r == is_whitespace(c),
{
    ('\u{9}' <= c && c <= '\u{d}') || c == ' ' || c == '\u{85}' || c == '\u{a0}' || c == '\u{1680}'
        || ('\u{2000}' <= c && c <= '\u{200a}') || c == '\u{2028}' || c == '\u{2029}' || c
        == '\u{202f}' || c == '\u{205f}' || c == '\u{3000}'
}

/// The characters of `s`, one by one.
pub fn chars_of(s: &str) -> (v: Vec<char>)
    ensures
        v@ == s@,
{
    let n = s.unicode_len();
    let mut v: Vec<char> = Vec::new();
    let mut i: usize = 0;
    while i < n
        invariant
            n == s@.len(),
            i <= n,
            v@ == s@.subrange(0, i as int),
        decreases n - i,
    {
        v.push(s.get_char(i));
        i = i + 1;
    }
    v
}

/// The string made of `v[lo..hi]`.
pub fn string_of_range(v: &Vec<char>, lo: usize, hi: usize) -> (s: String)
    requires
        lo <= hi <= v.len(),
    ensures
        s@ == v@.subrange(lo as int, hi as int),
{
    let mut s = String::new();
    let mut i: usize = lo;
    while i < hi
        invariant
            lo <= i <= hi <= v.len(),
            s@ == v@.subrange(lo as int, i as int),
        decreases hi - i,
    {
        push_char(&mut s, v[i]);
        assert(v@.subrange(lo as int, i + 1) == v@.subrange(lo as int, i as int).push(v@[i as int]));
        i = i + 1;
    }
    s
}

/// `str::trim`: `s` without leading and trailing whitespace.
pub fn trim(s: &str) -> (r: String)
    ensures
        r@ == trimmed(s@),
{
    let v = chars_of(s);
    let n = v.len();
    let mut i: usize = 0;
    while i < n && is_whitespace_char(v[i])
        invariant
            v@ == s@,
            n == v.len(),
            i <= n,
            skip_whitespace_from(v@, 0) == skip_whitespace_from(v@, i as int),
        decreases n - i,
    {
        i = i + 1;
    }
    let mut j: usize = n;
    while j > i && is_whitespace_char(v[j - 1])
        invariant
            v@ == s@,
            n == v.len(),
            i <= j <= n,
            skip_whitespace_from(v@, 0) == i,
            drop_trailing_whitespace(v@, i as int, n as int) == drop_trailing_whitespace(
                v@,
                i as int,
                j as int,
            ),
        decreases j - i,
    {
        j = j - 1;
    }
    string_of_range(&v, i, j)
}

/// `hay.contains(needle)` for two string slices.
pub fn contains(hay: &str, needle: &str) -> (r: bool)
    ensures
        r == occurs_in(hay@, needle@),
{
    let h = chars_of(hay);
    let p = chars_of(needle);
    let hn = h.len();
    let pn = p.len();
    if pn > hn {
        assert forall|i: int| 0 <= i && i + p@.len() <= h@.len() implies #[trigger] h@.subrange(
            i,
            i + p@.len(),
        ) != p@ by {}
        return false;
    }
    let mut i: usize = 0;
    while i <= hn - pn
        invariant
            h@ == hay@,
            p@ == needle@,
            hn == h.len(),
            pn == p.len(),
            pn <= hn,
            forall|k: int|
                0 <= k < i && k + p@.len() <= h@.len() ==> #[trigger] h@.subrange(k, k + p@.len())
                    != p@,
        decreases hn - pn + 1 - i,
    {
        let mut j: usize = 0;
        let mut same = true;
        while j < pn && same
            invariant
                h@ == hay@,
                p@ == needle@,
                hn == h.len(),
                pn == p.len(),
                i + pn <= hn,
                j <= pn,
                same ==> forall|t: int| 0 <= t < j ==> h@[i + t] == p@[t],
                !same ==> j > 0 && h@[i + j - 1] != p@[j - 1],
            decreases pn - j + (if same { 1int } else { 0int }),
        {
            if h[i + j] != p[j] {
                same = false;
            }
            j = j + 1;
        }
        if same {
            assert(h@.subrange(i as int, i + p@.len()) =~= p@);
            return true;
        } else {
            assert(h@.subrange(i as int, i + p@.len())[j - 1] != p@[j - 1]);
        }
        i = i + 1;
    }
    false
}

} // verus!

verus! {

/// `s.split_once(sep)` for a single character: the text before the first `sep` and the
/// text after it, or `None` where `sep` does not occur.
pub fn split_once(s: &str, sep: char) -> (r: Option<(String, String)>)
    ensures
        r is None <==> !s@.contains(sep),
        r matches Some((a, b)) ==> s@ == a@ + seq![sep] + b@ && !a@.contains(sep),
{
    let v = chars_of(s);
    let n = v.len();
    let mut i: usize = 0;
    while i < n
        invariant
            v@ == s@,
            n == v.len(),
            i <= n,
            forall|k: int| 0 <= k < i ==> v@[k] != sep,
        decreases n - i,
    {
        if v[i] == sep {
            let a = string_of_range(&v, 0, i);
            let b = string_of_range(&v, i + 1, n);
            assert(s@ =~= a@ + seq![sep] + b@);
            assert(!a@.contains(sep)) by {
                if a@.contains(sep) {
                    let k = choose|k: int| 0 <= k < a@.len() && a@[k] == sep;
                    assert(v@[k] == sep);
                }
            }
            return Some((a, b));
        }
        i = i + 1;
    }
    assert(!s@.contains(sep)) by {
        if s@.contains(sep) {
            let k = choose|k: int| 0 <= k < s@.len() && s@[k] == sep;
            assert(v@[k] == sep);
        }
    }
    None
}

/// Equality of the text of two string slices.
pub fn str_equal(a: &str, b: &str) -> (r: bool)
    ensures
        r == (a@ == b@),
{
    let x = String::from_str(a);
    let y = String::from_str(b);
    x == y
}

proof fn lemma_skip_whitespace(s: Seq<char>, i: int)
    requires
        0 <= i <= s.len(),
    ensures
        i <= skip_whitespace_from(s, i) <= s.len(),
        skip_whitespace_from(s, i) < s.len() ==> !is_whitespace(s[skip_whitespace_from(s, i)]),
    decreases s.len() - i,
{
    if i < s.len() && is_whitespace(s[i]) {
        lemma_skip_whitespace(s, i + 1);
    }
}

proof fn lemma_drop_trailing_whitespace(s: Seq<char>, lo: int, j: int)
    requires
        0 <= lo <= j <= s.len(),
    ensures
        lo <= drop_trailing_whitespace(s, lo, j) <= j,
        drop_trailing_whitespace(s, lo, j) > lo ==> !is_whitespace(
            s[drop_trailing_whitespace(s, lo, j) - 1],
        ),
    decreases j - lo,
{
    if lo < j && is_whitespace(s[j - 1]) {
        lemma_drop_trailing_whitespace(s, lo, j - 1);
    }
}

/// Trimming twice is trimming once.
pub proof fn lemma_trim_idempotent(s: Seq<char>)
    ensures
        trimmed(trimmed(s)) == trimmed(s),
{
    let a = skip_whitespace_from(s, 0);
    lemma_skip_whitespace(s, 0);
    let b = drop_trailing_whitespace(s, a, s.len() as int);
    lemma_drop_trailing_whitespace(s, a, s.len() as int);
    let t = trimmed(s);
    if t.len() == 0 {
        assert(trimmed(t) =~= t);
    } else {
        assert(t[0] == s[a]);
        assert(skip_whitespace_from(t, 0) == 0);
        assert(t[t.len() - 1] == s[b - 1]);
        assert(drop_trailing_whitespace(t, 0, t.len() as int) == t.len());
        assert(trimmed(t) =~= t);
    }
}

/// A decimal digit.
pub open spec fn is_digit(c: char) -> bool {
    '0' <= c && c <= '9'
}

/// The number that a string of decimal digits writes.
pub open spec fn digits_value(s: Seq<char>) -> int
    decreases s.len(),
{
    if s.len() == 0 {
        0
    } else {
        digits_value(s.drop_last()) * 10 + (s.last() as int - 48)
    }
}

/// `decimal(n)` is a nonempty string of digits that writes `n`, with no leading zero.
pub proof fn law_decimal(n: nat)
    ensures
        decimal(n).len() >= 1,
        forall|i: int| 0 <= i < decimal(n).len() ==> is_digit(#[trigger] decimal(n)[i]),
        digits_value(decimal(n)) == n,
        decimal(n)[0] == '0' ==> n == 0 && decimal(n).len() == 1,
    decreases n,
{
    let d = (n % 10) as nat;
    assert(digit_char(d) as int == 48 + d);
    if n >= 10 {
        law_decimal(n / 10);
        let s = decimal(n);
        assert(s.drop_last() =~= decimal(n / 10));
        assert(s[0] == decimal(n / 10)[0]);
        assert(s.last() == digit_char(d));
        assert(digits_value(s) == digits_value(s.drop_last()) * 10 + (s.last() as int - 48));
        assert(n == (n / 10) * 10 + d);
    } else {
        assert(digit_char(n) as int == 48 + n);
        let s = seq![digit_char(n)];
        assert(s.drop_last() =~= Seq::<char>::empty());
        assert(digits_value(s) == digits_value(s.drop_last()) * 10 + (s.last() as int - 48));
    }
}

/// `trimmed(s)` is the piece of `s` left once the whitespace at both ends is dropped: a
/// contiguous piece that neither starts nor ends with whitespace, with only whitespace
/// around it.
pub proof fn law_trim(s: Seq<char>)
    ensures
        exists|a: int, b: int|
            {
                &&& 0 <= a <= b <= s.len()
                &&& trimmed(s) == s.subrange(a, b)
                &&& forall|i: int| 0 <= i < a ==> is_whitespace(#[trigger] s[i])
                &&& forall|i: int| b <= i < s.len() ==> is_whitespace(#[trigger] s[i])
                &&& a < b ==> !is_whitespace(s[a]) && !is_whitespace(s[b - 1])
            },
{
    let a = skip_whitespace_from(s, 0);
    lemma_skip_whitespace(s, 0);
    lemma_skip_prefix(s, 0);
    let b = drop_trailing_whitespace(s, a, s.len() as int);
    lemma_drop_trailing_whitespace(s, a, s.len() as int);
    lemma_drop_suffix(s, a, s.len() as int);
    assert(0 <= a <= b <= s.len() && trimmed(s) == s.subrange(a, b));
}

proof fn lemma_skip_prefix(s: Seq<char>, i: int)
    requires
        0 <= i <= s.len(),
    ensures
        forall|k: int| i <= k < skip_whitespace_from(s, i) ==> is_whitespace(#[trigger] s[k]),
    decreases s.len() - i,
{
    if i < s.len() && is_whitespace(s[i]) {
        lemma_skip_prefix(s, i + 1);
    }
}

proof fn lemma_drop_suffix(s: Seq<char>, lo: int, j: int)
    requires
        0 <= lo <= j <= s.len(),
    ensures
        forall|k: int| drop_trailing_whitespace(s, lo, j) <= k < j ==> is_whitespace(#[trigger] s[k]),
    decreases j - lo,
{
    if lo < j && is_whitespace(s[j - 1]) {
        lemma_drop_suffix(s, lo, j - 1);
    }
}

/// `needle` occurs in `hay` exactly when `hay` is some text, then `needle`, then some text.
pub proof fn law_occurs_in(hay: Seq<char>, needle: Seq<char>, before: Seq<char>, after: Seq<char>)
    ensures
        occurs_in(before + needle + after, needle),
        occurs_in(hay, needle) <==> exists|x: Seq<char>, y: Seq<char>| hay == x + needle + y,
{
    let h = before + needle + after;
    let i = before.len() as int;
    assert(h.subrange(i, i + needle.len()) =~= needle);
    if occurs_in(hay, needle) {
        let k = choose|k: int|
            0 <= k && k + needle.len() <= hay.len() && #[trigger] hay.subrange(k, k + needle.len())
                == needle;
        let x = hay.subrange(0, k);
        let y = hay.subrange(k + needle.len(), hay.len() as int);
        assert(hay =~= x + needle + y);
    }
    if exists|x: Seq<char>, y: Seq<char>| hay == x + needle + y {
        let (x, y) = choose|x: Seq<char>, y: Seq<char>| hay == x + needle + y;
        let k = x.len() as int;
        assert(hay.subrange(k, k + needle.len()) =~= needle);
    }
}

} // verus!
