//! Character-level text handling shared by the shortcut parser, the location
//! table and the registry helpers: ASCII case folding, Unicode whitespace
//! trimming, splitting, and UTF-16 encoding.
use vstd::prelude::*;
use vstd::string::*;

verus! {

/// Unicode `White_Space` characters, the set that `char::is_whitespace` and
/// `str::trim` use.
pub open spec fn is_white(c: char) -> bool {
    let u = c as u32;
    ||| 0x09 <= u && u <= 0x0D
    ||| u == 0x20
    ||| u == 0x85
    ||| u == 0xA0
    ||| u == 0x1680
    ||| 0x2000 <= u && u <= 0x200A
    ||| u == 0x2028
    ||| u == 0x2029
    ||| u == 0x202F
    ||| u == 0x205F
    ||| u == 0x3000
}

pub open spec fn upper_char(c: char) -> char {
    if 'a' <= c && c <= 'z' {
        ((c as u32) - 32) as char
    } else {
        c
    }
}

pub open spec fn lower_char(c: char) -> char {
    if 'A' <= c && c <= 'Z' {
        ((c as u32) + 32) as char
    } else {
        c
    }
}

/// `str::to_ascii_uppercase`: only `a`..`z` change.
pub open spec fn ascii_upper(s: Seq<char>) -> Seq<char> {
    s.map_values(|c: char| upper_char(c))
}

/// `str::to_ascii_lowercase`: only `A`..`Z` change.
pub open spec fn ascii_lower(s: Seq<char>) -> Seq<char> {
    s.map_values(|c: char| lower_char(c))
}

pub open spec fn is_ascii_digit(c: char) -> bool {
    '0' <= c && c <= '9'
}

pub open spec fn is_ascii_alphanumeric(c: char) -> bool {
    ||| is_ascii_digit(c)
    ||| 'A' <= c && c <= 'Z'
    ||| 'a' <= c && c <= 'z'
}

/// `s` with its leading whitespace removed (`str::trim_start`).
pub open spec fn trim_start(s: Seq<char>) -> Seq<char>
    decreases s.len(),
{
    if s.len() > 0 && is_white(s[0]) {
        trim_start(s.drop_first())
    } else {
        s
    }
}

/// `s` with its trailing whitespace removed (`str::trim_end`).
pub open spec fn trim_end(s: Seq<char>) -> Seq<char>
    decreases s.len(),
{
    if s.len() > 0 && is_white(s.last()) {
        trim_end(s.drop_last())
    } else {
        s
    }
}

/// `str::trim`.
pub open spec fn trim(s: Seq<char>) -> Seq<char> {
    trim_end(trim_start(s))
}

pub open spec fn starts_with(s: Seq<char>, prefix: Seq<char>) -> bool {
    prefix.len() <= s.len() && s.take(prefix.len() as int) == prefix
}

/// The pieces of `s` between occurrences of `sep`, in order (`str::split`):
/// one more piece than there are separators, empty pieces included.
pub open spec fn split_on(s: Seq<char>, sep: char) -> Seq<Seq<char>>
    decreases s.len(),
{
    if s.len() == 0 {
        seq![Seq::<char>::empty()]
    } else {
        let prev = split_on(s.drop_last(), sep);
        if s.last() == sep {
            prev.push(Seq::<char>::empty())
        } else {
            prev.update(prev.len() - 1, prev.last().push(s.last()))
        }
    }
}

/// Index of the last character of `s` that is one of `seps`, or -1.
pub open spec fn last_index_of(s: Seq<char>, seps: Seq<char>) -> int
    decreases s.len(),
{
    if s.len() == 0 {
        -1
    } else if seps.contains(s.last()) {
        s.len() - 1
    } else {
        last_index_of(s.drop_last(), seps)
    }
}

/// What `s.rsplit(seps).next()` yields: the text after the last character
/// that is one of `seps`, or all of `s`.
pub open spec fn after_last(s: Seq<char>, seps: Seq<char>) -> Seq<char> {
    s.skip(last_index_of(s, seps) + 1)
}

/// The UTF-16 code units of one character.
pub open spec fn utf16_units(c: char) -> Seq<u16> {
    let u = c as u32;
    if u < 0x10000 {
        seq![u as u16]
    } else {
        seq![(0xD800 + (u - 0x10000) / 0x400) as u16, (0xDC00 + (u - 0x10000) % 0x400) as u16]
    }
}

/// `str::encode_utf16`, collected.
pub open spec fn utf16_encode(s: Seq<char>) -> Seq<u16>
    decreases s.len(),
{
    if s.len() == 0 {
        Seq::<u16>::empty()
    } else {
        utf16_encode(s.drop_last()) + utf16_units(s.last())
    }
}

/// How a comparison treats letter case.
#[derive(Clone, Copy, PartialEq, Eq, Debug)]
pub enum Fold {
    Exact,
    Upper,
    Lower,
}

pub open spec fn fold_char(c: char, fold: Fold) -> char {
    match fold {
        Fold::Exact => c,
        Fold::Upper => upper_char(c),
        Fold::Lower => lower_char(c),
    }
}

pub open spec fn fold_seq(s: Seq<char>, fold: Fold) -> Seq<char> {
    match fold {
        Fold::Exact => s,
        Fold::Upper => ascii_upper(s),
        Fold::Lower => ascii_lower(s),
    }
}

pub proof fn lemma_split_nonempty(s: Seq<char>, sep: char)
    ensures
        split_on(s, sep).len() >= 1,
    decreases s.len(),
{
    if s.len() > 0 {
        lemma_split_nonempty(s.drop_last(), sep);
    }
}

pub proof fn lemma_last_index_bounds(s: Seq<char>, seps: Seq<char>)
    ensures
        -1 <= last_index_of(s, seps) < s.len(),
        last_index_of(s, seps) >= 0 ==> seps.contains(s[last_index_of(s, seps)]),
        forall|k: int| last_index_of(s, seps) < k < s.len() ==> !seps.contains(#[trigger] s[k]),
    decreases s.len(),
{
    if s.len() > 0 && !seps.contains(s.last()) {
        lemma_last_index_bounds(s.drop_last(), seps);
        assert forall|k: int| last_index_of(s, seps) < k < s.len() implies !seps.contains(#[trigger] s[k]) by {
            if k < s.len() - 1 {
                assert(s[k] == s.drop_last()[k]);
            }
        }
    }
}

pub fn is_white_char(c: char) -> (r: bool)
    ensures
        r == is_white(c),
{
    let u = c as u32;
    (0x09 <= u && u <= 0x0D) || u == 0x20 || u == 0x85 || u == 0xA0 || u == 0x1680 || (0x2000
        <= u && u <= 0x200A) || u == 0x2028 || u == 0x2029 || u == 0x202F || u == 0x205F || u
        == 0x3000
}

pub fn to_upper_char(c: char) -> (r: char)
    ensures
        r == upper_char(c),
{
    if 'a' <= c && c <= 'z' {
        let code: u8 = (c as u32 - 32) as u8;
        code as char
    } else {
        c
    }
}

pub fn to_lower_char(c: char) -> (r: char)
    ensures
        r == lower_char(c),
{
    if 'A' <= c && c <= 'Z' {
        let code: u8 = (c as u32 + 32) as u8;
        code as char
    } else {
        c
    }
}

pub fn fold_one(c: char, fold: Fold) -> (r: char)
    ensures
        r == fold_char(c, fold),
{
    match fold {
        Fold::Exact => c,
        Fold::Upper => to_upper_char(c),
        Fold::Lower => to_lower_char(c),
    }
}

pub proof fn lemma_fold_index(s: Seq<char>, fold: Fold, i: int)
    requires
        0 <= i < s.len(),
    ensures
        fold_seq(s, fold).len() == s.len(),
        fold_seq(s, fold)[i] == fold_char(s[i], fold),
{
}

/// The characters of `s`, one per element.
pub fn chars_of(s: &str) -> (v: Vec<char>)
    ensures
        v@ == s@,
{
    let n = s.unicode_len();
    let mut v: Vec<char> = Vec::new();
    let mut i: usize = 0;
    while i < n
        invariant
            i <= n,
            n == s@.len(),
            v@ == s@.take(i as int),
        decreases n - i,
    {
        v.push(s.get_char(i));
        i += 1;
        assert(v@ =~= s@.take(i as int));
    }
    assert(v@ =~= s@);
    v
}

/// Whether `v[lo..hi]`, case-folded as `fold` says, is exactly `lit`.
pub fn range_eq(v: &Vec<char>, lo: usize, hi: usize, lit: &str, fold: Fold) -> (r: bool)
    requires
        lo <= hi <= v.len(),
    ensures
        r == (fold_seq(v@.subrange(lo as int, hi as int), fold) == lit@),
{
    let ghost sub = v@.subrange(lo as int, hi as int);
    let n = lit.unicode_len();
    if hi - lo != n {
        assert(fold_seq(sub, fold).len() == sub.len()) by {
            if sub.len() > 0 {
                lemma_fold_index(sub, fold, 0);
            }
        }
        return false;
    }
    let mut k: usize = 0;
    while k < n
        invariant
            lo <= hi <= v.len(),
            hi - lo == n,
            n == lit@.len(),
            k <= n,
            sub == v@.subrange(lo as int, hi as int),
            forall|j: int| 0 <= j < k ==> fold_char(sub[j], fold) == lit@[j],
        decreases n - k,
    {
        let c = fold_one(v[lo + k], fold);
        if c != lit.get_char(k) {
            proof {
                lemma_fold_index(sub, fold, k as int);
            }
            return false;
        }
        k += 1;
    }
    proof {
        assert forall|j: int| 0 <= j < sub.len() implies fold_seq(sub, fold)[j] == lit@[j] by {
            lemma_fold_index(sub, fold, j);
        }
        if sub.len() > 0 {
            lemma_fold_index(sub, fold, 0);
        }
        assert(fold_seq(sub, fold) =~= lit@);
    }
    true
}

/// `v[a..b]` upper-cased.
pub fn upper_range(v: &Vec<char>, a: usize, b: usize) -> (r: Vec<char>)
    requires
        a <= b <= v.len(),
    ensures
        r@ == ascii_upper(v@.subrange(a as int, b as int)),
{
    let ghost sub = v@.subrange(a as int, b as int);
    let mut out: Vec<char> = Vec::new();
    let mut j = a;
    while j < b
        invariant
            a <= j <= b <= v.len(),
            sub == v@.subrange(a as int, b as int),
            out@ == ascii_upper(sub.take(j - a)),
        decreases b - j,
    {
        out.push(to_upper_char(v[j]));
        proof {
            assert(ascii_upper(sub.take(j + 1 - a)) =~= ascii_upper(sub.take(j - a)).push(
                upper_char(v@[j as int]),
            ));
        }
        j += 1;
    }
    assert(sub.take(b - a) =~= sub);
    out
}

/// Whether `v` holds exactly the characters of `lit`.
pub fn vec_eq_str(v: &Vec<char>, lit: &str) -> (r: bool)
    ensures
        r == (v@ == lit@),
{
    assert(v@.subrange(0, v@.len() as int) =~= v@);
    range_eq(v, 0, v.len(), lit, Fold::Exact)
}

/// Whether two strings hold the same characters.
pub fn str_eq(a: &str, b: &str) -> (r: bool)
    ensures
        r == (a@ == b@),
{
    let v = chars_of(a);
    let r = range_eq(&v, 0, v.len(), b, Fold::Exact);
    assert(v@.subrange(0, v@.len() as int) =~= v@);
    r
}

/// Bounds of `v[lo..hi]` with surrounding whitespace removed.
pub fn trim_range(v: &Vec<char>, lo: usize, hi: usize) -> (r: (usize, usize))
    requires
        lo <= hi <= v.len(),
    ensures
        lo <= r.0 <= r.1 <= hi,
        v@.subrange(r.0 as int, r.1 as int) == trim(v@.subrange(lo as int, hi as int)),
{
    let mut a = lo;
    while a < hi && is_white_char(v[a])
        invariant
            lo <= a <= hi <= v.len(),
            trim_start(v@.subrange(lo as int, hi as int)) == trim_start(
                v@.subrange(a as int, hi as int),
            ),
        decreases hi - a,
    {
        assert(v@.subrange(a as int, hi as int).drop_first() =~= v@.subrange(
            a + 1,
            hi as int,
        ));
        a += 1;
    }
    assert(trim_start(v@.subrange(a as int, hi as int)) == v@.subrange(a as int, hi as int));
    let mut b = hi;
    while b > a && is_white_char(v[b - 1])
        invariant
            lo <= a <= b <= hi <= v.len(),
            trim_start(v@.subrange(lo as int, hi as int)) == v@.subrange(a as int, hi as int),
            trim_end(v@.subrange(a as int, hi as int)) == trim_end(
                v@.subrange(a as int, b as int),
            ),
        decreases b - a,
    {
        assert(v@.subrange(a as int, b as int).drop_last() =~= v@.subrange(
            a as int,
            b - 1,
        ));
        b -= 1;
    }
    (a, b)
}

/// Index of the last character of `v` that is one of `seps`, or `None`.
pub fn last_index_in(v: &Vec<char>, seps: &Vec<char>) -> (r: Option<usize>)
    ensures
        match r {
            Some(i) => i == last_index_of(v@, seps@),
            None => last_index_of(v@, seps@) == -1,
        },
{
    let mut i = v.len();
    assert(v@.take(i as int) =~= v@);
    while i > 0
        invariant
            i <= v.len(),
            last_index_of(v@, seps@) == last_index_of(v@.take(i as int), seps@),
        decreases i,
    {
        let c = v[i - 1];
        assert(v@.take(i as int).last() == c);
        if contains_char(seps, c) {
            return Some(i - 1);
        }
        assert(v@.take(i as int).drop_last() =~= v@.take(i - 1));
        i -= 1;
    }
    None
}

pub fn contains_char(v: &Vec<char>, c: char) -> (r: bool)
    ensures
        r == v@.contains(c),
{
    let mut i: usize = 0;
    while i < v.len()
        invariant
            i <= v.len(),
            forall|j: int| 0 <= j < i ==> v@[j] != c,
        decreases v.len() - i,
    {
        if v[i] == c {
            return true;
        }
        i += 1;
    }
    false
}

/// `s.encode_utf16()` followed by a terminating NUL, as the Windows wide-string
/// APIs expect.
pub fn to_wide(s: &str) -> (r: Vec<u16>)
    ensures
        r@ == utf16_encode(s@).push(0u16),
{
    let v = chars_of(s);
    let mut out: Vec<u16> = Vec::new();
    let mut i: usize = 0;
    while i < v.len()
        invariant
            i <= v.len(),
            v@ == s@,
            out@ == utf16_encode(v@.take(i as int)),
        decreases v.len() - i,
    {
        let c = v[i];
        let u = c as u32;
        if u < 0x10000 {
            out.push(u as u16);
        } else {
            let w = u - 0x10000;
            out.push((0xD800 + w / 0x400) as u16);
            out.push((0xDC00 + w % 0x400) as u16);
        }
        proof {
            assert(v@.take(i + 1).drop_last() =~= v@.take(i as int));
            assert(out@ =~= utf16_encode(v@.take(i + 1)));
        }
        i += 1;
    }
    assert(v@.take(v.len() as int) =~= v@);
    out.push(0);
    out
}

/// The code units of `s` before its first NUL (all of `s` if it has none).
pub open spec fn until_nul(s: Seq<u16>) -> Seq<u16>
    decreases s.len(),
{
    if s.len() == 0 || s[0] == 0 {
        Seq::<u16>::empty()
    } else {
        seq![s[0]] + until_nul(s.drop_first())
    }
}

pub proof fn lemma_until_nul(s: Seq<u16>, i: int)
    requires
        0 <= i <= s.len(),
        forall|k: int| 0 <= k < i ==> s[k] != 0,
        i == s.len() || s[i] == 0,
    ensures
        until_nul(s) == s.take(i),
    decreases s.len(),
{
    if s.len() > 0 && s[0] != 0 {
        lemma_until_nul(s.drop_first(), i - 1);
        assert(seq![s[0]] + s.drop_first().take(i - 1) =~= s.take(i));
    } else {
        assert(s.take(i) =~= Seq::<u16>::empty());
    }
}

/// The number of code units of `units` before its first NUL.
pub fn nul_position(units: &[u16]) -> (r: usize)
    ensures
        r <= units@.len(),
        until_nul(units@) == units@.take(r as int),
{
    let mut i: usize = 0;
    while i < units.len() && units[i] != 0
        invariant
            i <= units@.len(),
            forall|k: int| 0 <= k < i ==> units@[k] != 0,
        decreases units.len() - i,
    {
        i += 1;
    }
    proof {
        lemma_until_nul(units@, i as int);
    }
    i
}

/// The code units of `units` up to its first NUL, with one NUL after them.
pub fn nul_terminated(units: &[u16]) -> (r: Vec<u16>)
    ensures
        r@ == until_nul(units@).push(0u16),
{
    let end = nul_position(units);
    let mut out: Vec<u16> = Vec::new();
    let mut i: usize = 0;
    while i < end
        invariant
            i <= end <= units@.len(),
            out@ == units@.take(i as int),
        decreases end - i,
    {
        out.push(units[i]);
        assert(out@ =~= units@.take(i + 1));
        i += 1;
    }
    out.push(0);
    out
}

pub open spec fn is_high_surrogate(u: u16) -> bool {
    0xD800 <= u && u <= 0xDBFF
}

pub open spec fn is_low_surrogate(u: u16) -> bool {
    0xDC00 <= u && u <= 0xDFFF
}

/// Lossy UTF-16 decoding (`String::from_utf16_lossy`): a high surrogate
/// followed by a low one is one supplementary character, every other
/// surrogate unit becomes U+FFFD, and every other unit is its own character.
pub open spec fn utf16_decode(u: Seq<u16>) -> Seq<char>
    decreases u.len(),
{
    if u.len() == 0 {
        Seq::<char>::empty()
    } else if is_high_surrogate(u[0]) && u.len() >= 2 && is_low_surrogate(u[1]) {
        seq![(0x10000 + (u[0] - 0xD800) * 0x400 + (u[1] - 0xDC00)) as char] + utf16_decode(
            u.skip(2),
        )
    } else if is_high_surrogate(u[0]) || is_low_surrogate(u[0]) {
        seq!['\u{FFFD}'] + utf16_decode(u.skip(1))
    } else {
        seq![(u[0] as u32) as char] + utf16_decode(u.skip(1))
    }
}

/// Calls `String::push`, which appends one character to the string.
#[verifier::external_body]
fn push_char(s: &mut String, c: char)
    ensures
        final(s)@ == old(s)@.push(c),
{
    s.push(c)
}

/// Calls `char::from_u32`, which gives the character with code `v` when `v`
/// is a Unicode scalar value (at most 0x10FFFF and not a surrogate), and
/// `None` otherwise.
#[verifier::external_body]
fn char_from_u32(v: u32) -> (r: Option<char>)
    ensures
        r == (if v <= 0xD7FF || (0xE000 <= v && v <= 0x10FFFF) {
            Some(v as char)
        } else {
            None
        }),
{
    char::from_u32(v)
}

/// Decode UTF-16, putting U+FFFD in place of each unpaired surrogate.
pub fn decode_utf16(units: &[u16]) -> (r: String)
    ensures
        r@ == utf16_decode(units@),
{
    let n = units.len();
    let mut out = String::new();
    let mut i: usize = 0;
    assert(units@.skip(0) =~= units@);
    while i < n
        invariant
            i <= n == units@.len(),
            out@ + utf16_decode(units@.skip(i as int)) == utf16_decode(units@),
        decreases n - i,
    {
        let a = units[i];
        let ghost rest = units@.skip(i as int);
        assert(rest[0] == a);
        if 0xD800 <= a && a <= 0xDBFF && i + 1 < n && 0xDC00 <= units[i + 1] && units[i + 1]
            <= 0xDFFF {
            let b = units[i + 1];
            assert(rest[1] == b);
            let v: u32 = 0x10000 + (a as u32 - 0xD800) * 0x400 + (b as u32 - 0xDC00);
            let c = match char_from_u32(v) {
                Some(c) => c,
                None => '\u{FFFD}',
            };
            let ghost before = out@;
            push_char(&mut out, c);
            assert(rest.skip(2) =~= units@.skip(i + 2));
            assert(out@ + utf16_decode(units@.skip(i + 2)) =~= before + utf16_decode(rest));
            i += 2;
        } else if 0xD800 <= a && a <= 0xDFFF {
            let ghost before = out@;
            push_char(&mut out, '\u{FFFD}');
            assert(rest.skip(1) =~= units@.skip(i + 1));
            assert(out@ + utf16_decode(units@.skip(i + 1)) =~= before + utf16_decode(rest));
            i += 1;
        } else {
            let c = match char_from_u32(a as u32) {
                Some(c) => c,
                None => '\u{FFFD}',
            };
            let ghost before = out@;
            push_char(&mut out, c);
            assert(rest.skip(1) =~= units@.skip(i + 1));
            assert(out@ + utf16_decode(units@.skip(i + 1)) =~= before + utf16_decode(rest));
            i += 1;
        }
    }
    assert(units@.skip(n as int) =~= Seq::<u16>::empty());
    assert(out@ + Seq::<char>::empty() =~= out@);
    out
}

} // verus!
