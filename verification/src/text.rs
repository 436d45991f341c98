//! Character-level string helpers and decimal formatting of integers.
use vstd::prelude::*;

verus! {

/// The ASCII digit for `d` (`0 <= d < 10`).
pub open spec fn digit_char(d: nat) -> char {
    ((d + 48) as u8) as char
}

/// Decimal representation of a natural number, most significant digit first,
/// as printed by `Display` for unsigned integers.
pub open spec fn nat_to_decimal(n: nat) -> Seq<char>
    decreases n,
{
    if n < 10 {
        seq![digit_char(n)]
    } else {
        nat_to_decimal(n / 10).push(digit_char(n % 10))
    }
}

/// Decimal representation of an integer, with a leading `-` for negatives,
/// as printed by `Display` for signed integers.
pub open spec fn int_to_decimal(i: int) -> Seq<char> {
    if i < 0 {
        seq!['-'] + nat_to_decimal((-i) as nat)
    } else {
        nat_to_decimal(i as nat)
    }
}

/// Appends one character to a string (`String::push`).
#[verifier::external_body]
pub(crate) fn push_char(s: &mut String, c: char)
    ensures
        final(s)@ == old(s)@.push(c),
{
    s.push(c);
}

/// The characters of `s`, in order.
pub fn chars_of(s: &str) -> (v: Vec<char>)
    ensures
        v@ == s@,
{
    let n = s.unicode_len();
    let mut v: Vec<char> = Vec::new();
    let mut i: usize = 0;
    while i < n
        invariant
            n == s@.len(),
            i <= n,
            v@ == s@.subrange(0, i as int),
        decreases n - i,
    {
        v.push(s.get_char(i));
        i = i + 1;
    }
    assert(v@ == s@);
    v
}

/// Builds a string from a sequence of characters.
pub fn string_from_chars(v: &Vec<char>) -> (s: String)
    ensures
        s@ == v@,
{
    let mut s = String::new();
    let mut i: usize = 0;
    while i < v.len()
        invariant
            i <= v.len(),
            s@ == v@.subrange(0, i as int),
        decreases v.len() - i,
    {
        push_char(&mut s, v[i]);
        i = i + 1;
    }
    assert(s@ == v@);
    s
}

/// An owned copy of `s`.
pub fn owned(s: &str) -> (r: String)
    ensures
        r@ == s@,
{
    String::from_str(s)
}

/// The concatenation of two strings.
pub fn concat2(a: &str, b: &str) -> (r: String)
    ensures
        r@ == a@ + b@,
{
    let mut r = owned(a);
    r.append(b);
    r
}

/// The concatenation of three strings.
pub fn concat3(a: &str, b: &str, c: &str) -> (r: String)
    ensures
        r@ == a@ + b@ + c@,
{
    let mut r = owned(a);
    r.append(b);
    r.append(c);
    r
}

/// The concatenation of four strings.
pub fn concat4(a: &str, b: &str, c: &str, d: &str) -> (r: String)
    ensures
        r@ == a@ + b@ + c@ + d@,
{
    let mut r = owned(a);
    r.append(b);
    r.append(c);
    r.append(d);
    r
}

/// Whether `s` ends with `suffix`.
pub open spec fn has_suffix(s: Seq<char>, suffix: Seq<char>) -> bool {
    suffix.len() <= s.len() && s.subrange(s.len() - suffix.len(), s.len() as int) == suffix
}

/// Whether `s` starts with `prefix`.
pub open spec fn has_prefix(s: Seq<char>, prefix: Seq<char>) -> bool {
    prefix.len() <= s.len() && s.subrange(0, prefix.len() as int) == prefix
}

/// Whether `s` ends with `suffix` (`str::ends_with`).
pub fn ends_with(s: &str, suffix: &str) -> (r: bool)
    ensures
        r == has_suffix(s@, suffix@),
{
    let a = chars_of(s);
    let b = chars_of(suffix);
    if b.len() > a.len() {
        return false;
    }
    let off = a.len() - b.len();
    let mut i: usize = 0;
    while i < b.len()
        invariant
            a@ == s@,
            b@ == suffix@,
            b.len() <= a.len(),
            off == a.len() - b.len(),
            i <= b.len(),
            forall|j: int| 0 <= j < i ==> a@[off + j] == b@[j],
        decreases b.len() - i,
    {
        if a[off + i] != b[i] {
            assert(s@.subrange(s@.len() - suffix@.len(), s@.len() as int)[i as int] != suffix@[i as int]);
            return false;
        }
        i = i + 1;
    }
    assert(s@.subrange(s@.len() - suffix@.len(), s@.len() as int) =~= suffix@);
    true
}

/// Whether `s` starts with `prefix` (`str::starts_with`).
pub fn starts_with(s: &str, prefix: &str) -> (r: bool)
    ensures
        r == has_prefix(s@, prefix@),
{
    let a = chars_of(s);
    let b = chars_of(prefix);
    if b.len() > a.len() {
        return false;
    }
    let mut i: usize = 0;
    while i < b.len()
        invariant
            a@ == s@,
            b@ == prefix@,
            b.len() <= a.len(),
            i <= b.len(),
            forall|j: int| 0 <= j < i ==> a@[j] == b@[j],
        decreases b.len() - i,
    {
        if a[i] != b[i] {
            assert(s@.subrange(0, prefix@.len() as int)[i as int] != prefix@[i as int]);
            return false;
        }
        i = i + 1;
    }
    assert(s@.subrange(0, prefix@.len() as int) =~= prefix@);
    true
}

/// Whether two strings hold the same characters.
pub fn str_eq(a: &str, b: &str) -> (r: bool)
    ensures
        r == (a@ == b@),
{
    let x = chars_of(a);
    let y = chars_of(b);
    if x.len() != y.len() {
        return false;
    }
    let mut i: usize = 0;
    while i < x.len()
        invariant
            x@ == a@,
            y@ == b@,
            x.len() == y.len(),
            i <= x.len(),
            forall|j: int| 0 <= j < i ==> x@[j] == y@[j],
        decreases x.len() - i,
    {
        if x[i] != y[i] {
            return false;
        }
        i = i + 1;
    }
    assert(x@ =~= y@);
    true
}

/// Unicode `White_Space` characters, which `char::is_whitespace` and
/// `str::trim` recognise.
pub open spec fn is_white_space(c: char) -> bool {
    ('\u{9}' <= c && c <= '\u{d}') || c == ' ' || c == '\u{85}' || c == '\u{a0}'
        || c == '\u{1680}' || ('\u{2000}' <= c && c <= '\u{200a}') || c == '\u{2028}'
        || c == '\u{2029}' || c == '\u{202f}' || c == '\u{205f}' || c == '\u{3000}'
}

/// Whether `c` is white space.
pub fn is_whitespace_char(c: char) -> (r: bool)
    ensures
        r == is_white_space(c),
{
    ('\u{9}' <= c && c <= '\u{d}') || c == ' ' || c == '\u{85}' || c == '\u{a0}'
        || c == '\u{1680}' || ('\u{2000}' <= c && c <= '\u{200a}') || c == '\u{2028}'
        || c == '\u{2029}' || c == '\u{202f}' || c == '\u{205f}' || c == '\u{3000}'
}

/// Number of leading white-space characters.
pub open spec fn leading_ws(s: Seq<char>) -> nat
    decreases s.len(),
{
    if s.len() > 0 && is_white_space(s[0]) {
        1 + leading_ws(s.drop_first())
    } else {
        0
    }
}

/// Number of trailing white-space characters.
pub open spec fn trailing_ws(s: Seq<char>) -> nat
    decreases s.len(),
{
    if s.len() > 0 && is_white_space(s.last()) {
        1 + trailing_ws(s.drop_last())
    } else {
        0
    }
}

/// `s` without leading white space (`str::trim_start`).
pub open spec fn trim_start_spec(s: Seq<char>) -> Seq<char> {
    s.subrange(leading_ws(s) as int, s.len() as int)
}

/// `s` without trailing white space (`str::trim_end`).
pub open spec fn trim_end_spec(s: Seq<char>) -> Seq<char> {
    s.subrange(0, s.len() - trailing_ws(s))
}

/// `s` without leading and trailing white space (`str::trim`).
pub open spec fn trim_spec(s: Seq<char>) -> Seq<char> {
    trim_end_spec(trim_start_spec(s))
}

proof fn lemma_leading_ws_bound(s: Seq<char>)
    ensures
        leading_ws(s) <= s.len(),
        forall|j: int| 0 <= j < leading_ws(s) ==> is_white_space(#[trigger] s[j]),
        leading_ws(s) < s.len() ==> !is_white_space(s[leading_ws(s) as int]),
    decreases s.len(),
{
    if s.len() > 0 && is_white_space(s[0]) {
        lemma_leading_ws_bound(s.drop_first());
        assert forall|j: int| 0 <= j < leading_ws(s) implies is_white_space(#[trigger] s[j]) by {
            if j > 0 {
                assert(s[j] == s.drop_first()[j - 1]);
            }
        }
    }
}

proof fn lemma_trailing_ws_bound(s: Seq<char>)
    ensures
        trailing_ws(s) <= s.len(),
    decreases s.len(),
{
    if s.len() > 0 && is_white_space(s.last()) {
        lemma_trailing_ws_bound(s.drop_last());
    }
}

/// Trimming never lengthens a text.
pub proof fn lemma_trim_spec_len(s: Seq<char>)
    ensures
        trim_spec(s).len() <= s.len(),
        ascii_lower_spec(trim_spec(s)).len() == trim_spec(s).len(),
{
    lemma_leading_ws_bound(s);
    lemma_trailing_ws_bound(trim_start_spec(s));
}

proof fn lemma_leading_ws_of(s: Seq<char>, k: nat)
    requires
        k <= s.len(),
        forall|j: int| 0 <= j < k ==> is_white_space(#[trigger] s[j]),
        k < s.len() ==> !is_white_space(s[k as int]),
    ensures
        leading_ws(s) == k,
    decreases k,
{
    if k > 0 {
        assert(is_white_space(s[0]));
        let t = s.drop_first();
        assert forall|j: int| 0 <= j < k - 1 implies is_white_space(#[trigger] t[j]) by {
            assert(t[j] == s[j + 1]);
        }
        if k - 1 < t.len() {
            assert(t[k - 1] == s[k as int]);
        }
        lemma_leading_ws_of(t, (k - 1) as nat);
    }
}

proof fn lemma_trailing_ws_of(s: Seq<char>, k: nat)
    requires
        k <= s.len(),
        forall|j: int| s.len() - k <= j < s.len() ==> is_white_space(#[trigger] s[j]),
        k < s.len() ==> !is_white_space(s[s.len() - k - 1]),
    ensures
        trailing_ws(s) == k,
    decreases k,
{
    if k > 0 {
        assert(is_white_space(s[s.len() - 1]));
        let t = s.drop_last();
        assert forall|j: int| t.len() - (k - 1) <= j < t.len() implies is_white_space(#[trigger] t[j]) by {
            assert(t[j] == s[j]);
        }
        if k - 1 < t.len() {
            assert(t[t.len() - (k - 1) - 1] == s[s.len() - k - 1]);
        }
        lemma_trailing_ws_of(t, (k - 1) as nat);
    }
}

/// `v` without leading and trailing white space.
pub fn trim_chars(v: &Vec<char>) -> (r: Vec<char>)
    ensures
        r@ == trim_spec(v@),
{
    let ghost s = v@;
    let n = v.len();
    let mut lo: usize = 0;
    while lo < n && is_whitespace_char(v[lo])
        invariant
            v@ == s,
            n == v.len(),
            lo <= n,
            forall|j: int| 0 <= j < lo ==> is_white_space(#[trigger] v@[j]),
        decreases n - lo,
    {
        lo = lo + 1;
    }
    proof {
        lemma_leading_ws_of(s, lo as nat);
    }
    let ghost t = trim_start_spec(s);
    let mut hi: usize = n;
    while hi > lo && is_whitespace_char(v[hi - 1])
        invariant
            v@ == s,
            n == v.len(),
            lo <= hi <= n,
            t == s.subrange(lo as int, n as int),
            forall|j: int| hi <= j < n ==> is_white_space(#[trigger] v@[j]),
        decreases hi - lo,
    {
        hi = hi - 1;
    }
    proof {
        let k = (n - hi) as nat;
        assert forall|j: int| t.len() - k <= j < t.len() implies is_white_space(#[trigger] t[j]) by {
            assert(t[j] == v@[lo + j]);
        }
        if k < t.len() {
            assert(t[t.len() - k - 1] == v@[hi - 1]);
        }
        lemma_trailing_ws_of(t, k);
    }
    let mut out: Vec<char> = Vec::new();
    let mut i: usize = lo;
    while i < hi
        invariant
            v@ == s,
            lo <= i <= hi <= n,
            n == v.len(),
            out@ == s.subrange(lo as int, i as int),
        decreases hi - i,
    {
        out.push(v[i]);
        i = i + 1;
    }
    assert(out@ =~= trim_spec(s));
    out
}

/// `s` without leading and trailing white space (`str::trim`).
pub fn trim(s: &str) -> (r: String)
    ensures
        r@ == trim_spec(s@),
{
    let v = chars_of(s);
    let t = trim_chars(&v);
    string_from_chars(&t)
}

/// ASCII lowercase of one character.
pub open spec fn ascii_lower(c: char) -> char {
    if 'A' <= c && c <= 'Z' {
        (((c as u32) + 32) as u8) as char
    } else {
        c
    }
}

/// ASCII lowercase of a string (`str::to_ascii_lowercase`).
pub open spec fn ascii_lower_spec(s: Seq<char>) -> Seq<char> {
    s.map_values(|c: char| ascii_lower(c))
}

/// ASCII lowercase of a string (`str::to_ascii_lowercase`).
pub fn to_ascii_lowercase(s: &str) -> (r: String)
    ensures
        r@ == ascii_lower_spec(s@),
{
    let v = chars_of(s);
    let mut out = String::new();
    let mut i: usize = 0;
    while i < v.len()
        invariant
            v@ == s@,
            i <= v.len(),
            out@ == ascii_lower_spec(s@).subrange(0, i as int),
        decreases v.len() - i,
    {
        let c = v[i];
        let l: char = if 'A' <= c && c <= 'Z' { (((c as u32) + 32) as u8) as char } else { c };
        push_char(&mut out, l);
        i = i + 1;
        assert(out@ =~= ascii_lower_spec(s@).subrange(0, i as int));
    }
    assert(out@ =~= ascii_lower_spec(s@));
    out
}

/// `s` with every occurrence of the non-empty `pat` replaced by `with`,
/// scanning left to right without overlaps (`str::replace`).
pub open spec fn replace_spec(s: Seq<char>, pat: Seq<char>, with: Seq<char>) -> Seq<char>
    decreases s.len(),
{
    if s.len() == 0 {
        Seq::empty()
    } else if pat.len() > 0 && has_prefix(s, pat) {
        with + replace_spec(s.skip(pat.len() as int), pat, with)
    } else {
        seq![s[0]] + replace_spec(s.drop_first(), pat, with)
    }
}

/// Whether `pat` occurs in `v` at position `i`.
fn matches_at(v: &Vec<char>, i: usize, pat: &Vec<char>) -> (r: bool)
    requires
        i <= v.len(),
    ensures
        r == has_prefix(v@.skip(i as int), pat@),
{
    if pat.len() > v.len() - i {
        return false;
    }
    let mut j: usize = 0;
    while j < pat.len()
        invariant
            i + pat.len() <= v.len(),
            j <= pat.len(),
            forall|k: int| 0 <= k < j ==> v@[i + k] == pat@[k],
        decreases pat.len() - j,
    {
        if v[i + j] != pat[j] {
            assert(v@.skip(i as int).subrange(0, pat@.len() as int)[j as int] != pat@[j as int]);
            return false;
        }
        j = j + 1;
    }
    assert(v@.skip(i as int).subrange(0, pat@.len() as int) =~= pat@);
    true
}

/// Replaces every occurrence of the non-empty `pat` (`str::replace`).
pub fn replace_all(s: &str, pat: &str, with: &str) -> (r: String)
    requires
        pat@.len() > 0,
    ensures
        r@ == replace_spec(s@, pat@, with@),
{
    let v = chars_of(s);
    let p = chars_of(pat);
    let mut out = String::new();
    let mut i: usize = 0;
    assert(v@.skip(0) =~= v@);
    while i < v.len()
        invariant
            v@ == s@,
            p@ == pat@,
            p@.len() > 0,
            i <= v.len(),
            out@ + replace_spec(v@.skip(i as int), pat@, with@) == replace_spec(s@, pat@, with@),
        decreases v.len() - i,
    {
        let ghost rest = v@.skip(i as int);
        if matches_at(&v, i, &p) {
            out.append(with);
            proof {
                assert(rest.skip(p@.len() as int) =~= v@.skip(i + p@.len()));
                assert(out@ + replace_spec(v@.skip(i + p@.len()), pat@, with@) =~= replace_spec(s@, pat@, with@));
            }
            i = i + p.len();
        } else {
            push_char(&mut out, v[i]);
            proof {
                assert(rest.drop_first() =~= v@.skip(i + 1));
                assert(rest[0] == v@[i as int]);
                assert(out@ + replace_spec(v@.skip(i + 1), pat@, with@) =~= replace_spec(s@, pat@, with@));
            }
            i = i + 1;
        }
    }
    assert(v@.skip(v.len() as int) =~= Seq::<char>::empty());
    assert(out@ =~= out@ + replace_spec(Seq::<char>::empty(), pat@, with@));
    out
}

/// The pieces joined with `sep` between consecutive ones (`[String]::join`).
pub open spec fn joined(pieces: Seq<Seq<char>>, sep: Seq<char>) -> Seq<char>
    decreases pieces.len(),
{
    if pieces.len() == 0 {
        Seq::empty()
    } else if pieces.len() == 1 {
        pieces[0]
    } else {
        joined(pieces.drop_last(), sep) + sep + pieces.last()
    }
}

/// Appends the decimal digits of `n` to `s`.
pub fn push_decimal(s: &mut String, n: u64)
    ensures
        final(s)@ == old(s)@ + nat_to_decimal(n as nat),
    decreases n,
{
    if n >= 10 {
        push_decimal(s, n / 10);
    }
    let d: u64 = n % 10;
    let c: char = ((d as u8) + 48u8) as char;
    push_char(s, c);
    assert(final(s)@ == old(s)@ + nat_to_decimal(n as nat));
}

/// Appends the decimal digits of a 128-bit `n` to `s`.
pub fn push_decimal_wide(s: &mut String, n: u128)
    ensures
        final(s)@ == old(s)@ + nat_to_decimal(n as nat),
    decreases n,
{
    if n >= 10 {
        push_decimal_wide(s, n / 10);
    }
    let d: u128 = n % 10;
    let c: char = ((d as u8) + 48u8) as char;
    push_char(s, c);
    assert(final(s)@ == old(s)@ + nat_to_decimal(n as nat));
}

/// The decimal representation of a 128-bit unsigned integer (`u128::to_string`).
pub fn u128_to_string(n: u128) -> (s: String)
    ensures
        s@ == nat_to_decimal(n as nat),
{
    let mut s = String::new();
    push_decimal_wide(&mut s, n);
    s
}

/// The decimal representation of an unsigned integer (`u64::to_string`).
pub fn u64_to_string(n: u64) -> (s: String)
    ensures
        s@ == nat_to_decimal(n as nat),
{
    let mut s = String::new();
    push_decimal(&mut s, n);
    s
}

/// The decimal representation of a signed integer (`i64::to_string`).
pub fn i64_to_string(i: i64) -> (s: String)
    ensures
        s@ == int_to_decimal(i as int),
{
    let mut s = String::new();
    if i < 0 {
        push_char(&mut s, '-');
        let m: u64 = if i == i64::MIN { 9223372036854775808u64 } else { (-i) as u64 };
        push_decimal(&mut s, m);
    } else {
        push_decimal(&mut s, i as u64);
    }
    s
}

} // verus!
