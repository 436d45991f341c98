//! Utilities: geohash bit interleaving and encoding, XML text escaping,
//! and maxima and totals over time windows.
use vstd::prelude::*;
use crate::errors::GeohashError;
use crate::text::{has_prefix, push_char, replace_all, replace_spec};

verus! {

/// Bit `k` of `v`.
pub open spec fn bit(v: u64, k: int) -> u64 {
    (v >> (k as u64)) & 1
}

proof fn lemma_spread_bits(x: u64, k: u64)
    by (bit_vector)
    requires
        x < 0x1_0000_0000,
        k < 32,
    ensures
        ({
            let a = (x | (x << 16u64)) & 0x0000ffff0000ffffu64;
            let b = (a | (a << 8u64)) & 0x00ff00ff00ff00ffu64;
            let c = (b | (b << 4u64)) & 0x0f0f0f0f0f0f0f0fu64;
            let d = (c | (c << 2u64)) & 0x3333333333333333u64;
            let e = (d | (d << 1u64)) & 0x5555555555555555u64;
            ((e >> (2 * k)) & 1 == (x >> k) & 1) && e & 0xaaaa_aaaa_aaaa_aaaau64 == 0
        }),
{
}

/// Deposits the bits of `x` into the even bit positions of a `u64`: bit `k`
/// of `x` becomes bit `2k`, and every odd bit is zero.
pub fn spread(x: u32) -> (r: u64)
    ensures
        forall|k: int| 0 <= k < 32 ==> bit(r, 2 * k) == #[trigger] bit(x as u64, k),
        r & 0xaaaa_aaaa_aaaa_aaaau64 == 0,
{
    let mut new_x: u64 = x as u64;
    new_x = (new_x | (new_x << 16u64)) & 0x0000ffff0000ffff;
    new_x = (new_x | (new_x << 8u64)) & 0x00ff00ff00ff00ff;
    new_x = (new_x | (new_x << 4u64)) & 0x0f0f0f0f0f0f0f0f;
    new_x = (new_x | (new_x << 2u64)) & 0x3333333333333333;
    new_x = (new_x | (new_x << 1u64)) & 0x5555555555555555;
    proof {
        assert forall|k: int| 0 <= k < 32 implies bit(new_x, 2 * k) == #[trigger] bit(x as u64, k) by {
            lemma_spread_bits(x as u64, k as u64);
        }
        lemma_spread_bits(x as u64, 0);
    }
    new_x
}

proof fn lemma_interleave_bits(a: u64, b: u64, k: u64)
    by (bit_vector)
    requires
        k < 32,
        a & 0xaaaa_aaaa_aaaa_aaaau64 == 0,
        b & 0xaaaa_aaaa_aaaa_aaaau64 == 0,
    ensures
        ((a | (b << 1u64)) >> (2 * k)) & 1 == (a >> (2 * k)) & 1,
        ((a | (b << 1u64)) >> (2 * k + 1)) & 1 == (b >> (2 * k)) & 1,
{
}

/// Interleaves two 32-bit values: bit `k` of `x` becomes bit `2k` and bit
/// `k` of `y` becomes bit `2k + 1`.
#[verifier::spinoff_prover]
pub fn interleave(x: u32, y: u32) -> (r: u64)
    ensures
        interleaves(r, x, y),
{
    let a = spread(x);
    let b = spread(y);
    let r = a | (b << 1u64);
    proof {
        assert forall|k: int| 0 <= k < 32 implies bit(r, 2 * k) == #[trigger] bit(x as u64, k) && bit(r, 2 * k + 1) == bit(y as u64, k) by {
            assert(bit(a, 2 * k) == bit(x as u64, k));
            assert(bit(b, 2 * k) == bit(y as u64, k));
            lemma_interleave_bits(a, b, k as u64);
        }
    }
    r
}

/// The geohash base-32 alphabet.
pub open spec fn base32_codes() -> Seq<char> {
    seq!['0', '1', '2', '3', '4', '5', '6', '7', '8', '9', 'b', 'c', 'd', 'e', 'f', 'g', 'h', 'j', 'k', 'm', 'n', 'p', 'q', 'r', 's', 't', 'u', 'v', 'w', 'x', 'y', 'z']
}

/// The base-32 character of a 5-bit code.
pub fn base32_char(code: u64) -> (r: char)
    requires
        code < 32,
    ensures
        r == base32_codes()[code as int],
{
    if code == 0 { '0' }
    else if code == 1 { '1' }
    else if code == 2 { '2' }
    else if code == 3 { '3' }
    else if code == 4 { '4' }
    else if code == 5 { '5' }
    else if code == 6 { '6' }
    else if code == 7 { '7' }
    else if code == 8 { '8' }
    else if code == 9 { '9' }
    else if code == 10 { 'b' }
    else if code == 11 { 'c' }
    else if code == 12 { 'd' }
    else if code == 13 { 'e' }
    else if code == 14 { 'f' }
    else if code == 15 { 'g' }
    else if code == 16 { 'h' }
    else if code == 17 { 'j' }
    else if code == 18 { 'k' }
    else if code == 19 { 'm' }
    else if code == 20 { 'n' }
    else if code == 21 { 'p' }
    else if code == 22 { 'q' }
    else if code == 23 { 'r' }
    else if code == 24 { 's' }
    else if code == 25 { 't' }
    else if code == 26 { 'u' }
    else if code == 27 { 'v' }
    else if code == 28 { 'w' }
    else if code == 29 { 'x' }
    else if code == 30 { 'y' }
    else { 'z' }
}

/// The geohash characters of an interleaved value: each character encodes
/// the next five most significant bits.
pub open spec fn geohash_chars(v: u64, len: nat) -> Seq<char>
    decreases len,
{
    if len == 0 {
        Seq::empty()
    } else {
        seq![base32_codes()[((v >> 59u64) & 0x1f) as int]] + geohash_chars(v << 5u64, (len - 1) as nat)
    }
}

proof fn lemma_five_bits(v: u64)
    by (bit_vector)
    ensures
        (v >> 59u64) & 0x1f < 32,
{
}

/// A geohash has exactly as many characters as were asked for.
pub proof fn lemma_geohash_length(v: u64, len: nat)
    ensures
        geohash_chars(v, len).len() == len,
    decreases len,
{
    if len > 0 {
        lemma_geohash_length(v << 5u64, (len - 1) as nat);
    }
}

/// A shorter geohash of the same location is a prefix of a longer one.
pub proof fn lemma_geohash_prefix(v: u64, k: nat, len: nat)
    requires
        k <= len,
    ensures
        geohash_chars(v, len).subrange(0, k as int) == geohash_chars(v, k),
    decreases k,
{
    lemma_geohash_length(v, len);
    lemma_geohash_length(v, k);
    if k > 0 {
        lemma_geohash_prefix(v << 5u64, (k - 1) as nat, (len - 1) as nat);
        lemma_geohash_length(v << 5u64, (len - 1) as nat);
        assert(geohash_chars(v, len).subrange(0, k as int) =~= geohash_chars(v, k));
    } else {
        assert(geohash_chars(v, len).subrange(0, 0) =~= geohash_chars(v, 0));
    }
}

/// Every character of a geohash is in the base-32 alphabet.
pub proof fn lemma_geohash_alphabet(v: u64, len: nat)
    ensures
        forall|i: int| 0 <= i < geohash_chars(v, len).len() ==> base32_codes().contains(#[trigger] geohash_chars(v, len)[i]),
    decreases len,
{
    if len > 0 {
        lemma_geohash_alphabet(v << 5u64, (len - 1) as nat);
        lemma_five_bits(v);
        let c = base32_codes()[((v >> 59u64) & 0x1f) as int];
        assert(base32_codes().contains(c));
        let tail = geohash_chars(v << 5u64, (len - 1) as nat);
        assert forall|i: int| 0 <= i < geohash_chars(v, len).len() implies base32_codes().contains(#[trigger] geohash_chars(v, len)[i]) by {
            if i > 0 {
                assert(geohash_chars(v, len)[i] == tail[i - 1]);
            }
        }
    }
}

/// Encodes the interleaved bits of a latitude and a longitude (each the top
/// 32 bits of the significand of `coordinate / range + 1.5`) as a geohash
/// of `len` characters; lengths outside 1..=12 are rejected.
pub fn encode_bits(lat32: u32, lon32: u32, len: usize) -> (r: Result<String, GeohashError>)
    ensures
        (len < 1 || len > 12) ==> r == Err::<String, GeohashError>(GeohashError::InvalidLength(len)),
        (1 <= len <= 12) ==> (r matches Ok(s) && s@ == geohash_chars(interleave_spec(lat32, lon32), len as nat)),
        r matches Ok(s) ==> s@.len() == len,
{
    if len < 1 || len > 12 {
        return Err(GeohashError::InvalidLength(len));
    }
    let mut interleaved_int = interleave(lat32, lon32);
    let ghost v0 = interleaved_int;
    assert(interleave_spec(lat32, lon32) == v0) by {
        lemma_interleave_unique(lat32, lon32, v0);
    }
    let mut out = String::new();
    let mut i: usize = 0;
    while i < len
        invariant
            i <= len,
            out@ + geohash_chars(interleaved_int, (len - i) as nat) == geohash_chars(v0, len as nat),
        decreases len - i,
    {
        proof {
            lemma_five_bits(interleaved_int);
        }
        let code: u64 = (interleaved_int >> 59u64) & 0x1f;
        push_char(&mut out, base32_char(code));
        proof {
            assert(out@ + geohash_chars(interleaved_int << 5u64, (len - i - 1) as nat)
                =~= geohash_chars(v0, len as nat));
        }
        interleaved_int = interleaved_int << 5u64;
        i = i + 1;
    }
    assert(out@ =~= out@ + geohash_chars(interleaved_int, 0));
    proof {
        lemma_geohash_length(v0, len as nat);
    }
    Ok(out)
}

/// The interleaving of `x` and `y` (the value whose even bits are `x`'s and
/// odd bits are `y`'s).
pub open spec fn interleave_spec(x: u32, y: u32) -> u64 {
    choose|r: u64| interleaves(r, x, y)
}

/// Whether the even bits of `r` are the bits of `x` and its odd bits those
/// of `y`.
pub open spec fn interleaves(r: u64, x: u32, y: u32) -> bool {
    forall|k: int| 0 <= k < 32 ==> bit(r, 2 * k) == #[trigger] bit(x as u64, k) && bit(r, 2 * k + 1) == bit(y as u64, k)
}

proof fn lemma_high_bits_step(a: u64, b: u64, n: u64)
    by (bit_vector)
    requires
        1 <= n <= 63,
        a >> n == b >> n,
        (a >> (n - 1) as u64) & 1 == (b >> (n - 1) as u64) & 1,
    ensures
        a >> (n - 1) as u64 == b >> (n - 1) as u64,
{
}

proof fn lemma_top_bit(a: u64, b: u64)
    by (bit_vector)
    requires
        (a >> 63u64) & 1 == (b >> 63u64) & 1,
    ensures
        a >> 63u64 == b >> 63u64,
{
}

/// If two values agree on bits `0..n` and above, they agree from bit 0 up.
proof fn lemma_bits_from(a: u64, b: u64, n: u64)
    requires
        n <= 63,
        a >> n == b >> n,
        forall|k: int| 0 <= k < 64 ==> #[trigger] bit(a, k) == bit(b, k),
    ensures
        a == b,
    decreases n,
{
    if n == 0 {
        assert(a >> 0u64 == a) by (bit_vector);
        assert(b >> 0u64 == b) by (bit_vector);
    } else {
        assert(bit(a, (n - 1) as int) == bit(b, (n - 1) as int));
        lemma_high_bits_step(a, b, n);
        lemma_bits_from(a, b, (n - 1) as u64);
    }
}

proof fn lemma_bits_eq(a: u64, b: u64)
    requires
        forall|k: int| 0 <= k < 64 ==> #[trigger] bit(a, k) == bit(b, k),
    ensures
        a == b,
{
    assert(bit(a, 63) == bit(b, 63));
    lemma_top_bit(a, b);
    lemma_bits_from(a, b, 63);
}

proof fn lemma_interleave_unique(x: u32, y: u32, v: u64)
    requires
        interleaves(v, x, y),
    ensures
        interleave_spec(x, y) == v,
{
    let r = interleave_spec(x, y);
    assert(interleaves(r, x, y));
    assert forall|k: int| 0 <= k < 64 implies #[trigger] bit(r, k) == bit(v, k) by {
        let h = k / 2;
        if k % 2 == 0 {
            assert(k == 2 * h);
            assert(bit(r, 2 * h) == bit(x as u64, h));
            assert(bit(v, 2 * h) == bit(x as u64, h));
        } else {
            assert(k == 2 * h + 1);
            assert(bit(r, 2 * h) == bit(x as u64, h));
            assert(bit(v, 2 * h) == bit(x as u64, h));
            assert(bit(r, 2 * h + 1) == bit(y as u64, h));
            assert(bit(v, 2 * h + 1) == bit(y as u64, h));
        }
    }
    lemma_bits_eq(r, v);
}

/// `text` with `&`, `<` and `>` escaped for XML, in that order.
pub open spec fn escaped_xml(text: Seq<char>) -> Seq<char> {
    replace_spec(replace_spec(replace_spec(text, "&"@, "&amp;"@), "<"@, "&lt;"@), ">"@, "&gt;"@)
}

/// Escapes text for use inside an SVG `<text>` element.
pub fn escape_xml_text(text: &str) -> (r: String)
    ensures
        r@ == escaped_xml(text@),
{
    proof {
        reveal_strlit("&");
        reveal_strlit("<");
        reveal_strlit(">");
    }
    let a = replace_all(text, "&", "&amp;");
    let b = replace_all(a.as_str(), "<", "&lt;");
    replace_all(b.as_str(), ">", "&gt;")
}

/// `s` with every occurrence of the character `c` replaced by `w`.
pub open spec fn subst_char(s: Seq<char>, c: char, w: Seq<char>) -> Seq<char>
    decreases s.len(),
{
    if s.len() == 0 {
        Seq::empty()
    } else {
        (if s[0] == c { w } else { seq![s[0]] }) + subst_char(s.drop_first(), c, w)
    }
}

/// The XML form of one character: `&`, `<` and `>` as entities, any other
/// character as itself.
pub open spec fn escaped_char(c: char) -> Seq<char> {
    if c == '&' {
        "&amp;"@
    } else if c == '<' {
        "&lt;"@
    } else if c == '>' {
        "&gt;"@
    } else {
        seq![c]
    }
}

/// Each character of `text` in its XML form.
pub open spec fn escaped_chars(text: Seq<char>) -> Seq<char>
    decreases text.len(),
{
    if text.len() == 0 {
        Seq::empty()
    } else {
        escaped_char(text[0]) + escaped_chars(text.drop_first())
    }
}

/// Decodes the entities `&lt;`, `&gt;` and `&amp;`, reading from the left;
/// any other character is kept.
pub open spec fn xml_unescaped(s: Seq<char>) -> Seq<char>
    decreases s.len(),
{
    if s.len() == 0 {
        Seq::empty()
    } else if has_prefix(s, seq!['&', 'l', 't', ';']) {
        seq!['<'] + xml_unescaped(s.skip(4))
    } else if has_prefix(s, seq!['&', 'g', 't', ';']) {
        seq!['>'] + xml_unescaped(s.skip(4))
    } else if has_prefix(s, seq!['&', 'a', 'm', 'p', ';']) {
        seq!['&'] + xml_unescaped(s.skip(5))
    } else {
        seq![s[0]] + xml_unescaped(s.drop_first())
    }
}

proof fn lemma_replace_single_char(s: Seq<char>, c: char, w: Seq<char>)
    ensures
        replace_spec(s, seq![c], w) == subst_char(s, c, w),
    decreases s.len(),
{
    if s.len() > 0 {
        lemma_replace_single_char(s.drop_first(), c, w);
        assert(s.skip(1) =~= s.drop_first());
        if s[0] == c {
            assert(has_prefix(s, seq![c])) by {
                assert(s.subrange(0, 1) =~= seq![c]);
            }
        } else {
            assert(!has_prefix(s, seq![c])) by {
                if has_prefix(s, seq![c]) {
                    assert(s.subrange(0, 1)[0] == s[0]);
                }
            }
        }
    }
}

proof fn lemma_subst_concat(a: Seq<char>, b: Seq<char>, c: char, w: Seq<char>)
    ensures
        subst_char(a + b, c, w) == subst_char(a, c, w) + subst_char(b, c, w),
    decreases a.len(),
{
    if a.len() > 0 {
        lemma_subst_concat(a.drop_first(), b, c, w);
        assert((a + b).drop_first() =~= a.drop_first() + b);
        assert((a + b)[0] == a[0]);
        assert(subst_char(a + b, c, w) =~= subst_char(a, c, w) + subst_char(b, c, w));
    } else {
        assert(a + b =~= b);
    }
}

proof fn lemma_subst_absent(s: Seq<char>, c: char, w: Seq<char>)
    requires
        forall|i: int| 0 <= i < s.len() ==> s[i] != c,
    ensures
        subst_char(s, c, w) == s,
    decreases s.len(),
{
    if s.len() > 0 {
        lemma_subst_absent(s.drop_first(), c, w);
        assert(seq![s[0]] + s.drop_first() =~= s);
    }
}

/// The three substitutions of the escape, applied to one character.
proof fn lemma_escape_one(x: char)
    ensures
        subst_char(subst_char(subst_char(seq![x], '&', "&amp;"@), '<', "&lt;"@), '>', "&gt;"@) == escaped_char(x),
{
    reveal_strlit("&amp;");
    reveal_strlit("&lt;");
    reveal_strlit("&gt;");
    let one = seq![x];
    let none = Seq::<char>::empty();
    assert(one.drop_first() =~= none);
    assert(subst_char(none, '&', "&amp;"@) == none);
    assert(subst_char(none, '<', "&lt;"@) == none);
    assert(subst_char(none, '>', "&gt;"@) == none);
    assert(seq![one[0]] =~= one);
    let a = subst_char(one, '&', "&amp;"@);
    assert(a =~= if x == '&' { "&amp;"@ } else { one });
    lemma_subst_absent("&amp;"@, '<', "&lt;"@);
    lemma_subst_absent("&amp;"@, '>', "&gt;"@);
    lemma_subst_absent("&lt;"@, '>', "&gt;"@);
    let b = subst_char(a, '<', "&lt;"@);
    if x != '&' {
        assert(b =~= if x == '<' { "&lt;"@ } else { one });
    }
    if x != '&' && x != '<' {
        let c = subst_char(b, '>', "&gt;"@);
        assert(c =~= if x == '>' { "&gt;"@ } else { one });
    }
}

proof fn lemma_escaped_is_charwise(t: Seq<char>)
    ensures
        subst_char(subst_char(subst_char(t, '&', "&amp;"@), '<', "&lt;"@), '>', "&gt;"@) == escaped_chars(t),
    decreases t.len(),
{
    if t.len() > 0 {
        let rest = t.drop_first();
        lemma_escaped_is_charwise(rest);
        assert(t =~= seq![t[0]] + rest);
        let a1 = subst_char(seq![t[0]], '&', "&amp;"@);
        let a2 = subst_char(rest, '&', "&amp;"@);
        lemma_subst_concat(seq![t[0]], rest, '&', "&amp;"@);
        lemma_subst_concat(a1, a2, '<', "&lt;"@);
        let b1 = subst_char(a1, '<', "&lt;"@);
        let b2 = subst_char(a2, '<', "&lt;"@);
        lemma_subst_concat(b1, b2, '>', "&gt;"@);
        lemma_escape_one(t[0]);
    }
}

/// Escaping is character-wise: each `&`, `<` and `>` becomes its entity and
/// every other character stays.
pub proof fn lemma_escape_xml_charwise(text: Seq<char>)
    ensures
        escaped_xml(text) == escaped_chars(text),
{
    reveal_strlit("&");
    reveal_strlit("<");
    reveal_strlit(">");
    assert("&"@ =~= seq!['&']);
    assert("<"@ =~= seq!['<']);
    assert(">"@ =~= seq!['>']);
    let a = replace_spec(text, "&"@, "&amp;"@);
    lemma_replace_single_char(text, '&', "&amp;"@);
    let b = replace_spec(a, "<"@, "&lt;"@);
    lemma_replace_single_char(a, '<', "&lt;"@);
    lemma_replace_single_char(b, '>', "&gt;"@);
    lemma_escaped_is_charwise(text);
}

/// Escaped text holds no `<` or `>`, and decoding its entities gives the
/// text back.
pub proof fn lemma_escape_xml_round_trip(text: Seq<char>)
    ensures
        forall|i: int| 0 <= i < escaped_xml(text).len() ==> escaped_xml(text)[i] != '<' && escaped_xml(text)[i] != '>',
        xml_unescaped(escaped_xml(text)) == text,
{
    lemma_escape_xml_charwise(text);
    lemma_escaped_chars_round_trip(text);
}

proof fn lemma_escaped_chars_round_trip(t: Seq<char>)
    ensures
        forall|i: int| 0 <= i < escaped_chars(t).len() ==> escaped_chars(t)[i] != '<' && escaped_chars(t)[i] != '>',
        xml_unescaped(escaped_chars(t)) == t,
    decreases t.len(),
{
    reveal_strlit("&amp;");
    reveal_strlit("&lt;");
    reveal_strlit("&gt;");
    let lt = seq!['&', 'l', 't', ';'];
    let gt = seq!['&', 'g', 't', ';'];
    let amp = seq!['&', 'a', 'm', 'p', ';'];
    assert("&lt;"@ =~= lt);
    assert("&gt;"@ =~= gt);
    assert("&amp;"@ =~= amp);
    if t.len() > 0 {
        let rest = t.drop_first();
        lemma_escaped_chars_round_trip(rest);
        let e = escaped_chars(rest);
        let head = escaped_char(t[0]);
        let s = head + e;
        assert(escaped_chars(t) == s);
        assert forall|i: int| 0 <= i < s.len() implies s[i] != '<' && s[i] != '>' by {
            if i >= head.len() {
                assert(s[i] == e[i - head.len()]);
            }
        }
        if t[0] == '&' {
            assert(!has_prefix(s, lt)) by { if has_prefix(s, lt) { assert(s.subrange(0, 4)[1] == s[1]); } }
            assert(!has_prefix(s, gt)) by { if has_prefix(s, gt) { assert(s.subrange(0, 4)[1] == s[1]); } }
            assert(has_prefix(s, amp)) by { assert(s.subrange(0, 5) =~= amp); }
            assert(s.skip(5) =~= e);
        } else if t[0] == '<' {
            assert(has_prefix(s, lt)) by { assert(s.subrange(0, 4) =~= lt); }
            assert(s.skip(4) =~= e);
        } else if t[0] == '>' {
            assert(!has_prefix(s, lt)) by { if has_prefix(s, lt) { assert(s.subrange(0, 4)[1] == s[1]); } }
            assert(has_prefix(s, gt)) by { assert(s.subrange(0, 4) =~= gt); }
            assert(s.skip(4) =~= e);
        } else {
            assert(!has_prefix(s, lt)) by { if has_prefix(s, lt) { assert(s.subrange(0, 4)[0] == s[0]); } }
            assert(!has_prefix(s, gt)) by { if has_prefix(s, gt) { assert(s.subrange(0, 4)[0] == s[0]); } }
            assert(!has_prefix(s, amp)) by { if has_prefix(s, amp) { assert(s.subrange(0, 5)[0] == s[0]); } }
            assert(s.drop_first() =~= e);
        }
        assert(t =~= seq![t[0]] + rest);
    }
}

/// The `&lt;` entity.
pub open spec fn lt_entity() -> Seq<char> {
    seq!['&', 'l', 't', ';']
}

/// The `&gt;` entity.
pub open spec fn gt_entity() -> Seq<char> {
    seq!['&', 'g', 't', ';']
}

/// The `&amp;` entity.
pub open spec fn amp_entity() -> Seq<char> {
    seq!['&', 'a', 'm', 'p', ';']
}

/// A character of escaped text after `stage` of the three replacements
/// that undo the escape (`&lt;`, then `&gt;`, then `&amp;`).
pub open spec fn staged_char(c: char, stage: int) -> Seq<char> {
    if c == '<' {
        if stage >= 1 { seq!['<'] } else { lt_entity() }
    } else if c == '>' {
        if stage >= 2 { seq!['>'] } else { gt_entity() }
    } else if c == '&' {
        if stage >= 3 { seq!['&'] } else { amp_entity() }
    } else {
        seq![c]
    }
}

/// Escaped text after `stage` of the replacements that undo the escape.
pub open spec fn staged(t: Seq<char>, stage: int) -> Seq<char>
    decreases t.len(),
{
    if t.len() == 0 {
        Seq::empty()
    } else {
        staged_char(t[0], stage) + staged(t.drop_first(), stage)
    }
}

/// The entity replaced at `stage` and what replaces it.
pub open spec fn stage_pattern(stage: int) -> (Seq<char>, Seq<char>) {
    if stage == 0 {
        (lt_entity(), seq!['<'])
    } else if stage == 1 {
        (gt_entity(), seq!['>'])
    } else {
        (amp_entity(), seq!['&'])
    }
}

proof fn lemma_replace_keeps_prefix(p: Seq<char>, r: Seq<char>, pat: Seq<char>, w: Seq<char>)
    requires
        pat.len() > 0,
        forall|k: int| 0 <= k < p.len() ==> !has_prefix(#[trigger] (p + r).skip(k), pat),
    ensures
        replace_spec(p + r, pat, w) == p + replace_spec(r, pat, w),
    decreases p.len(),
{
    if p.len() > 0 {
        let s = p + r;
        assert(s.skip(0) =~= s);
        assert(!has_prefix(s, pat));
        let p2 = p.drop_first();
        assert(s.drop_first() =~= p2 + r);
        assert forall|k: int| 0 <= k < p2.len() implies !has_prefix(#[trigger] (p2 + r).skip(k), pat) by {
            assert((p2 + r).skip(k) =~= s.skip(k + 1));
        }
        lemma_replace_keeps_prefix(p2, r, pat, w);
        assert(seq![s[0]] + (p2 + replace_spec(r, pat, w)) =~= p + replace_spec(r, pat, w));
    } else {
        assert(p + r =~= r);
        assert(p + replace_spec(r, pat, w) =~= replace_spec(r, pat, w));
    }
}

proof fn lemma_stage_step(t: Seq<char>, stage: int)
    requires
        0 <= stage < 3,
    ensures
        replace_spec(staged(t, stage), stage_pattern(stage).0, stage_pattern(stage).1) == staged(t, stage + 1),
    decreases t.len(),
{
    let pat = stage_pattern(stage).0;
    let w = stage_pattern(stage).1;
    if t.len() > 0 {
        let rest = t.drop_first();
        lemma_stage_step(rest, stage);
        let piece = staged_char(t[0], stage);
        let r = staged(rest, stage);
        let s = piece + r;
        assert(staged(t, stage) == s);
        if piece == pat {
            assert(has_prefix(s, pat)) by {
                assert(s.subrange(0, pat.len() as int) =~= pat);
            }
            assert(s.skip(pat.len() as int) =~= r);
            assert(w == staged_char(t[0], stage + 1));
        } else {
            assert(piece == staged_char(t[0], stage + 1));
            assert forall|k: int| 0 <= k < piece.len() implies !has_prefix(#[trigger] (piece + r).skip(k), pat) by {
                if has_prefix((piece + r).skip(k), pat) {
                    let u = (piece + r).skip(k);
                    assert(u.subrange(0, pat.len() as int)[0] == u[0]);
                    assert(u[0] == piece[k]);
                    if k == 0 && piece.len() > 1 {
                        assert(u.subrange(0, pat.len() as int)[1] == u[1]);
                        assert(u[1] == piece[1]);
                    }
                }
            }
            lemma_replace_keeps_prefix(piece, r, pat, w);
        }
    } else {
        assert(staged(t, stage) =~= Seq::<char>::empty());
    }
}

proof fn lemma_staged_start(t: Seq<char>)
    ensures
        staged(t, 0) == escaped_chars(t),
        staged(t, 3) == t,
    decreases t.len(),
{
    if t.len() > 0 {
        lemma_staged_start(t.drop_first());
        reveal_strlit("&amp;");
        reveal_strlit("&lt;");
        reveal_strlit("&gt;");
        assert(staged_char(t[0], 0) =~= escaped_char(t[0]));
        assert(staged_char(t[0], 3) =~= seq![t[0]]);
        assert(seq![t[0]] + t.drop_first() =~= t);
    }
}

/// Replacing `&lt;` by `<`, then `&gt;` by `>`, then `&amp;` by `&` in
/// escaped text gives the text back.
pub proof fn lemma_escape_xml_replace_round_trip(text: Seq<char>)
    ensures
        replace_spec(replace_spec(replace_spec(escaped_xml(text), "&lt;"@, "<"@), "&gt;"@, ">"@), "&amp;"@, "&"@) == text,
{
    reveal_strlit("&lt;");
    reveal_strlit("&gt;");
    reveal_strlit("&amp;");
    reveal_strlit("<");
    reveal_strlit(">");
    reveal_strlit("&");
    assert("&lt;"@ =~= lt_entity());
    assert("&gt;"@ =~= gt_entity());
    assert("&amp;"@ =~= amp_entity());
    assert("<"@ =~= seq!['<']);
    assert(">"@ =~= seq!['>']);
    assert("&"@ =~= seq!['&']);
    lemma_escape_xml_charwise(text);
    lemma_staged_start(text);
    lemma_stage_step(text, 0);
    lemma_stage_step(text, 1);
    lemma_stage_step(text, 2);
}

/// Whether `t` lies in the window `[start, end)`.
pub open spec fn in_window(t: i64, start: i64, end: i64) -> bool {
    start <= t && t < end
}

/// The sum of the values whose times lie in `[start, end)`.
pub open spec fn total_in_window(times: Seq<i64>, values: Seq<i64>, start: i64, end: i64) -> int
    decreases times.len(),
{
    if times.len() == 0 || values.len() < times.len() {
        0
    } else {
        let n = times.len() - 1;
        total_in_window(times.drop_last(), values.subrange(0, n), start, end)
            + if in_window(times.last(), start, end) { values[n] as int } else { 0 }
    }
}

/// Calculates the total of the values between two instants: items at or
/// after `start` and before `end` count.
pub fn total_between_dates(times: &Vec<i64>, values: &Vec<i64>, start: i64, end: i64) -> (r: i128)
    requires
        times.len() == values.len(),
    ensures
        r as int == total_in_window(times@, values@, start, end),
{
    let mut total: i128 = 0;
    let mut i: usize = 0;
    assert(times@.subrange(0, 0) =~= Seq::<i64>::empty());
    while i < times.len()
        invariant
            times.len() == values.len(),
            i <= times.len(),
            total as int == total_in_window(times@.subrange(0, i as int), values@.subrange(0, i as int), start, end),
            -(i as int) * 0x8000_0000_0000_0000 <= total as int <= (i as int) * 0x8000_0000_0000_0000,
        decreases times.len() - i,
    {
        proof {
            let ts = times@.subrange(0, i + 1);
            let vs = values@.subrange(0, i + 1);
            assert(ts.drop_last() =~= times@.subrange(0, i as int));
            assert(vs.subrange(0, i as int) =~= values@.subrange(0, i as int));
        }
        if start <= times[i] && times[i] < end {
            total = total + values[i] as i128;
        }
        i = i + 1;
    }
    assert(times@.subrange(0, i as int) =~= times@);
    assert(values@.subrange(0, i as int) =~= values@);
    total
}

/// The largest value whose time lies in `[start, end)`, or `None` if no time
/// does (distinct from a maximum of zero).
pub open spec fn max_in_window(times: Seq<i64>, values: Seq<i64>, start: i64, end: i64) -> Option<i64>
    decreases times.len(),
{
    if times.len() == 0 || values.len() < times.len() {
        None
    } else {
        let n = times.len() - 1;
        let acc = max_in_window(times.drop_last(), values.subrange(0, n), start, end);
        if in_window(times.last(), start, end) {
            match acc {
                Some(a) => if a > values[n] { Some(a) } else { Some(values[n]) },
                None => Some(values[n]),
            }
        } else {
            acc
        }
    }
}

/// Finds the maximum value between two instants (`end` not inclusive);
/// `None` if no item falls in the window.
pub fn find_max_item_between_dates(times: &Vec<i64>, values: &Vec<i64>, start: i64, end: i64) -> (r: Option<i64>)
    requires
        times.len() == values.len(),
    ensures
        r == max_in_window(times@, values@, start, end),
{
    let mut best: Option<i64> = None;
    let mut i: usize = 0;
    assert(times@.subrange(0, 0) =~= Seq::<i64>::empty());
    while i < times.len()
        invariant
            times.len() == values.len(),
            i <= times.len(),
            best == max_in_window(times@.subrange(0, i as int), values@.subrange(0, i as int), start, end),
        decreases times.len() - i,
    {
        proof {
            let ts = times@.subrange(0, i + 1);
            let vs = values@.subrange(0, i + 1);
            assert(ts.drop_last() =~= times@.subrange(0, i as int));
            assert(vs.subrange(0, i as int) =~= values@.subrange(0, i as int));
        }
        if start <= times[i] && times[i] < end {
            let x = values[i];
            best = match best {
                Some(a) => if a > x { Some(a) } else { Some(x) },
                None => Some(x),
            };
        }
        i = i + 1;
    }
    assert(times@.subrange(0, i as int) =~= times@);
    assert(values@.subrange(0, i as int) =~= values@);
    best
}

/// The maximum in a window is one of the window's values and no value in
/// the window exceeds it; it is absent exactly when the window is empty.
pub proof fn lemma_max_in_window_is_max(times: Seq<i64>, values: Seq<i64>, start: i64, end: i64)
    requires
        times.len() == values.len(),
    ensures
        max_in_window(times, values, start, end) is None <==>
            (forall|i: int| 0 <= i < times.len() ==> !in_window(#[trigger] times[i], start, end)),
        max_in_window(times, values, start, end) matches Some(m) ==> (
            (exists|i: int| 0 <= i < times.len() && in_window(times[i], start, end) && #[trigger] values[i] == m)
            && (forall|i: int| 0 <= i < times.len() && in_window(times[i], start, end) ==> #[trigger] values[i] <= m)),
    decreases times.len(),
{
    if times.len() > 0 {
        let n = times.len() - 1;
        let t2 = times.drop_last();
        let v2 = values.subrange(0, n as int);
        lemma_max_in_window_is_max(t2, v2, start, end);
        assert forall|i: int| 0 <= i < n implies #[trigger] times[i] == t2[i] && values[i] == v2[i] by {}
        match max_in_window(times, values, start, end) {
            Some(m) => {
                if in_window(times[n as int], start, end) && values[n as int] == m {
                    assert(in_window(times[n as int], start, end) && values[n as int] == m);
                } else {
                    let acc = max_in_window(t2, v2, start, end);
                    let j = choose|i: int| 0 <= i < t2.len() && in_window(t2[i], start, end) && #[trigger] v2[i] == acc->0;
                    assert(times[j] == t2[j] && values[j] == v2[j]);
                }
            },
            None => {},
        }
    }
}

} // verus!
