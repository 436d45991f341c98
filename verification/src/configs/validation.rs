//! Validation of configuration values: colours, release settings and the
//! date format shown on the display.
use vstd::prelude::*;
use crate::time::{chrono_format_utc, format_utc, in_chrono_range};
use crate::text::{
    ascii_lower_spec, chars_of, lemma_trim_spec_len, owned, str_eq, to_ascii_lowercase, trim, trim_chars, trim_spec,
};

verus! {

/// A validation failure with a human-readable message.
#[derive(Debug, Clone)]
pub struct ValidationError {
    pub message: String,
}

impl ValidationError {
    pub fn new(message: &str) -> (r: ValidationError)
        ensures
            r.message@ == message@,
    {
        ValidationError { message: owned(message) }
    }
}

/// The SVG 1.1 colour keywords (https://www.w3.org/TR/SVG11/types.html#ColorKeywords).
pub open spec fn is_named_colour_text(s: Seq<char>) -> bool {
    s == "aliceblue"@ ||
        s == "antiquewhite"@ ||
        s == "aqua"@ ||
        s == "aquamarine"@ ||
        s == "azure"@ ||
        s == "beige"@ ||
        s == "bisque"@ ||
        s == "black"@ ||
        s == "blanchedalmond"@ ||
        s == "blue"@ ||
        s == "blueviolet"@ ||
        s == "brown"@ ||
        s == "burlywood"@ ||
        s == "cadetblue"@ ||
        s == "chartreuse"@ ||
        s == "chocolate"@ ||
        s == "coral"@ ||
        s == "cornflowerblue"@ ||
        s == "cornsilk"@ ||
        s == "crimson"@ ||
        s == "cyan"@ ||
        s == "darkblue"@ ||
        s == "darkcyan"@ ||
        s == "darkgoldenrod"@ ||
        s == "darkgray"@ ||
        s == "darkgreen"@ ||
        s == "darkgrey"@ ||
        s == "darkkhaki"@ ||
        s == "darkmagenta"@ ||
        s == "darkolivegreen"@ ||
        s == "darkorange"@ ||
        s == "darkorchid"@ ||
        s == "darkred"@ ||
        s == "darksalmon"@ ||
        s == "darkseagreen"@ ||
        s == "darkslateblue"@ ||
        s == "darkslategray"@ ||
        s == "darkslategrey"@ ||
        s == "darkturquoise"@ ||
        s == "darkviolet"@ ||
        s == "deeppink"@ ||
        s == "deepskyblue"@ ||
        s == "dimgray"@ ||
        s == "dimgrey"@ ||
        s == "dodgerblue"@ ||
        s == "firebrick"@ ||
        s == "floralwhite"@ ||
        s == "forestgreen"@ ||
        s == "fuchsia"@ ||
        s == "gainsboro"@ ||
        s == "ghostwhite"@ ||
        s == "gold"@ ||
        s == "goldenrod"@ ||
        s == "gray"@ ||
        s == "grey"@ ||
        s == "green"@ ||
        s == "greenyellow"@ ||
        s == "honeydew"@ ||
        s == "hotpink"@ ||
        s == "indianred"@ ||
        s == "indigo"@ ||
        s == "ivory"@ ||
        s == "khaki"@ ||
        s == "lavender"@ ||
        s == "lavenderblush"@ ||
        s == "lawngreen"@ ||
        s == "lemonchiffon"@ ||
        s == "lightblue"@ ||
        s == "lightcoral"@ ||
        s == "lightcyan"@ ||
        s == "lightgoldenrodyellow"@ ||
        s == "lightgray"@ ||
        s == "lightgreen"@ ||
        s == "lightgrey"@ ||
        s == "lightpink"@ ||
        s == "lightsalmon"@ ||
        s == "lightseagreen"@ ||
        s == "lightskyblue"@ ||
        s == "lightslategray"@ ||
        s == "lightslategrey"@ ||
        s == "lightsteelblue"@ ||
        s == "lightyellow"@ ||
        s == "lime"@ ||
        s == "limegreen"@ ||
        s == "linen"@ ||
        s == "magenta"@ ||
        s == "maroon"@ ||
        s == "mediumaquamarine"@ ||
        s == "mediumblue"@ ||
        s == "mediumorchid"@ ||
        s == "mediumpurple"@ ||
        s == "mediumseagreen"@ ||
        s == "mediumslateblue"@ ||
        s == "mediumspringgreen"@ ||
        s == "mediumturquoise"@ ||
        s == "mediumvioletred"@ ||
        s == "midnightblue"@ ||
        s == "mintcream"@ ||
        s == "mistyrose"@ ||
        s == "moccasin"@ ||
        s == "navajowhite"@ ||
        s == "navy"@ ||
        s == "oldlace"@ ||
        s == "olive"@ ||
        s == "olivedrab"@ ||
        s == "orange"@ ||
        s == "orangered"@ ||
        s == "orchid"@ ||
        s == "palegoldenrod"@ ||
        s == "palegreen"@ ||
        s == "paleturquoise"@ ||
        s == "palevioletred"@ ||
        s == "papayawhip"@ ||
        s == "peachpuff"@ ||
        s == "peru"@ ||
        s == "pink"@ ||
        s == "plum"@ ||
        s == "powderblue"@ ||
        s == "purple"@ ||
        s == "red"@ ||
        s == "rosybrown"@ ||
        s == "royalblue"@ ||
        s == "saddlebrown"@ ||
        s == "salmon"@ ||
        s == "sandybrown"@ ||
        s == "seagreen"@ ||
        s == "seashell"@ ||
        s == "sienna"@ ||
        s == "silver"@ ||
        s == "skyblue"@ ||
        s == "slateblue"@ ||
        s == "slategray"@ ||
        s == "slategrey"@ ||
        s == "snow"@ ||
        s == "springgreen"@ ||
        s == "steelblue"@ ||
        s == "tan"@ ||
        s == "teal"@ ||
        s == "thistle"@ ||
        s == "tomato"@ ||
        s == "turquoise"@ ||
        s == "violet"@ ||
        s == "wheat"@ ||
        s == "white"@ ||
        s == "whitesmoke"@ ||
        s == "yellow"@ ||
        s == "yellowgreen"@
}

/// Keywords that stand for a colour without naming one.
pub open spec fn is_special_colour_text(s: Seq<char>) -> bool {
    s == "currentColor"@ || s == "inherit"@ || s == "transparent"@ || s == "initial"@
}

fn is_named_colour(colour: &str) -> (r: bool)
    ensures
        r == is_named_colour_text(colour@),
{
    str_eq(colour, "aliceblue") ||
        str_eq(colour, "antiquewhite") ||
        str_eq(colour, "aqua") ||
        str_eq(colour, "aquamarine") ||
        str_eq(colour, "azure") ||
        str_eq(colour, "beige") ||
        str_eq(colour, "bisque") ||
        str_eq(colour, "black") ||
        str_eq(colour, "blanchedalmond") ||
        str_eq(colour, "blue") ||
        str_eq(colour, "blueviolet") ||
        str_eq(colour, "brown") ||
        str_eq(colour, "burlywood") ||
        str_eq(colour, "cadetblue") ||
        str_eq(colour, "chartreuse") ||
        str_eq(colour, "chocolate") ||
        str_eq(colour, "coral") ||
        str_eq(colour, "cornflowerblue") ||
        str_eq(colour, "cornsilk") ||
        str_eq(colour, "crimson") ||
        str_eq(colour, "cyan") ||
        str_eq(colour, "darkblue") ||
        str_eq(colour, "darkcyan") ||
        str_eq(colour, "darkgoldenrod") ||
        str_eq(colour, "darkgray") ||
        str_eq(colour, "darkgreen") ||
        str_eq(colour, "darkgrey") ||
        str_eq(colour, "darkkhaki") ||
        str_eq(colour, "darkmagenta") ||
        str_eq(colour, "darkolivegreen") ||
        str_eq(colour, "darkorange") ||
        str_eq(colour, "darkorchid") ||
        str_eq(colour, "darkred") ||
        str_eq(colour, "darksalmon") ||
        str_eq(colour, "darkseagreen") ||
        str_eq(colour, "darkslateblue") ||
        str_eq(colour, "darkslategray") ||
        str_eq(colour, "darkslategrey") ||
        str_eq(colour, "darkturquoise") ||
        str_eq(colour, "darkviolet") ||
        str_eq(colour, "deeppink") ||
        str_eq(colour, "deepskyblue") ||
        str_eq(colour, "dimgray") ||
        str_eq(colour, "dimgrey") ||
        str_eq(colour, "dodgerblue") ||
        str_eq(colour, "firebrick") ||
        str_eq(colour, "floralwhite") ||
        str_eq(colour, "forestgreen") ||
        str_eq(colour, "fuchsia") ||
        str_eq(colour, "gainsboro") ||
        str_eq(colour, "ghostwhite") ||
        str_eq(colour, "gold") ||
        str_eq(colour, "goldenrod") ||
        str_eq(colour, "gray") ||
        str_eq(colour, "grey") ||
        str_eq(colour, "green") ||
        str_eq(colour, "greenyellow") ||
        str_eq(colour, "honeydew") ||
        str_eq(colour, "hotpink") ||
        str_eq(colour, "indianred") ||
        str_eq(colour, "indigo") ||
        str_eq(colour, "ivory") ||
        str_eq(colour, "khaki") ||
        str_eq(colour, "lavender") ||
        str_eq(colour, "lavenderblush") ||
        str_eq(colour, "lawngreen") ||
        str_eq(colour, "lemonchiffon") ||
        str_eq(colour, "lightblue") ||
        str_eq(colour, "lightcoral") ||
        str_eq(colour, "lightcyan") ||
        str_eq(colour, "lightgoldenrodyellow") ||
        str_eq(colour, "lightgray") ||
        str_eq(colour, "lightgreen") ||
        str_eq(colour, "lightgrey") ||
        str_eq(colour, "lightpink") ||
        str_eq(colour, "lightsalmon") ||
        str_eq(colour, "lightseagreen") ||
        str_eq(colour, "lightskyblue") ||
        str_eq(colour, "lightslategray") ||
        str_eq(colour, "lightslategrey") ||
        str_eq(colour, "lightsteelblue") ||
        str_eq(colour, "lightyellow") ||
        str_eq(colour, "lime") ||
        str_eq(colour, "limegreen") ||
        str_eq(colour, "linen") ||
        str_eq(colour, "magenta") ||
        str_eq(colour, "maroon") ||
        str_eq(colour, "mediumaquamarine") ||
        str_eq(colour, "mediumblue") ||
        str_eq(colour, "mediumorchid") ||
        str_eq(colour, "mediumpurple") ||
        str_eq(colour, "mediumseagreen") ||
        str_eq(colour, "mediumslateblue") ||
        str_eq(colour, "mediumspringgreen") ||
        str_eq(colour, "mediumturquoise") ||
        str_eq(colour, "mediumvioletred") ||
        str_eq(colour, "midnightblue") ||
        str_eq(colour, "mintcream") ||
        str_eq(colour, "mistyrose") ||
        str_eq(colour, "moccasin") ||
        str_eq(colour, "navajowhite") ||
        str_eq(colour, "navy") ||
        str_eq(colour, "oldlace") ||
        str_eq(colour, "olive") ||
        str_eq(colour, "olivedrab") ||
        str_eq(colour, "orange") ||
        str_eq(colour, "orangered") ||
        str_eq(colour, "orchid") ||
        str_eq(colour, "palegoldenrod") ||
        str_eq(colour, "palegreen") ||
        str_eq(colour, "paleturquoise") ||
        str_eq(colour, "palevioletred") ||
        str_eq(colour, "papayawhip") ||
        str_eq(colour, "peachpuff") ||
        str_eq(colour, "peru") ||
        str_eq(colour, "pink") ||
        str_eq(colour, "plum") ||
        str_eq(colour, "powderblue") ||
        str_eq(colour, "purple") ||
        str_eq(colour, "red") ||
        str_eq(colour, "rosybrown") ||
        str_eq(colour, "royalblue") ||
        str_eq(colour, "saddlebrown") ||
        str_eq(colour, "salmon") ||
        str_eq(colour, "sandybrown") ||
        str_eq(colour, "seagreen") ||
        str_eq(colour, "seashell") ||
        str_eq(colour, "sienna") ||
        str_eq(colour, "silver") ||
        str_eq(colour, "skyblue") ||
        str_eq(colour, "slateblue") ||
        str_eq(colour, "slategray") ||
        str_eq(colour, "slategrey") ||
        str_eq(colour, "snow") ||
        str_eq(colour, "springgreen") ||
        str_eq(colour, "steelblue") ||
        str_eq(colour, "tan") ||
        str_eq(colour, "teal") ||
        str_eq(colour, "thistle") ||
        str_eq(colour, "tomato") ||
        str_eq(colour, "turquoise") ||
        str_eq(colour, "violet") ||
        str_eq(colour, "wheat") ||
        str_eq(colour, "white") ||
        str_eq(colour, "whitesmoke") ||
        str_eq(colour, "yellow") ||
        str_eq(colour, "yellowgreen")
}

fn is_special_colour(colour: &str) -> (r: bool)
    ensures
        r == is_special_colour_text(colour@),
{
    str_eq(colour, "currentColor") || str_eq(colour, "inherit") || str_eq(colour, "transparent")
        || str_eq(colour, "initial")
}

/// An ASCII hexadecimal digit.
pub open spec fn is_hex_digit(c: char) -> bool {
    ('0' <= c && c <= '9') || ('a' <= c && c <= 'f') || ('A' <= c && c <= 'F')
}

/// `#` followed by exactly three or six hexadecimal digits ("#FFF", "#FFFFFF").
pub open spec fn is_hex_colour_text(s: Seq<char>) -> bool {
    (s.len() == 4 || s.len() == 7) && s[0] == '#' && forall|i: int| 1 <= i < s.len() ==> is_hex_digit(#[trigger] s[i])
}

/// Whether a character is an ASCII hexadecimal digit.
fn hex_digit(c: char) -> (r: bool)
    ensures
        r == is_hex_digit(c),
{
    ('0' <= c && c <= '9') || ('a' <= c && c <= 'f') || ('A' <= c && c <= 'F')
}

/// Whether `colour` is `#` followed by three or six hexadecimal digits.
fn is_hex_colour(colour: &str) -> (r: bool)
    ensures
        r == is_hex_colour_text(colour@),
{
    let chars = chars_of(colour);
    let n = chars.len();
    if !(n == 4 || n == 7) || chars[0] != '#' {
        return false;
    }
    let mut i: usize = 1;
    while i < n
        invariant
            chars@ == colour@,
            n == chars@.len(),
            1 <= i <= n,
            forall|k: int| 1 <= k < i ==> is_hex_digit(#[trigger] chars@[k]),
        decreases n - i,
    {
        if !hex_digit(chars[i]) {
            return false;
        }
        i = i + 1;
    }
    true
}

/// Number of bytes in the UTF-8 encoding of `c`.
pub open spec fn utf8_width(c: char) -> nat {
    if (c as u32) < 0x80 {
        1
    } else if (c as u32) < 0x800 {
        2
    } else if (c as u32) < 0x10000 {
        3
    } else {
        4
    }
}

/// Number of bytes in the UTF-8 encoding of `s` (`str::len`).
pub open spec fn utf8_len(s: Seq<char>) -> nat
    decreases s.len(),
{
    if s.len() == 0 {
        0
    } else {
        utf8_width(s[0]) + utf8_len(s.drop_first())
    }
}

/// The index of the character that starts at byte `b`, when `b` is a
/// character boundary of `s`.
pub open spec fn char_index_at_byte(s: Seq<char>, b: nat) -> Option<nat>
    decreases s.len(),
{
    if b == 0 {
        Some(0)
    } else if s.len() == 0 || utf8_width(s[0]) > b {
        None
    } else {
        match char_index_at_byte(s.drop_first(), (b - utf8_width(s[0])) as nat) {
            Some(k) => Some(k + 1),
            None => None,
        }
    }
}

/// `&s[from..len - 1]` on the bytes of `s`: the characters between byte
/// `from` and the last byte, or `None` where the slicing panics (an empty
/// string, `from` past the end, or a bound inside a character).
pub open spec fn inner_slice(s: Seq<char>, from: nat) -> Option<Seq<char>> {
    if utf8_len(s) == 0 || from > utf8_len(s) - 1 {
        None
    } else {
        match (char_index_at_byte(s, from), char_index_at_byte(s, (utf8_len(s) - 1) as nat)) {
            (Some(a), Some(z)) => Some(s.subrange(a as int, z as int)),
            _ => None,
        }
    }
}

/// The pieces of `s` between the occurrences of `sep` (`str::split`).
pub open spec fn split_spec(s: Seq<char>, sep: char) -> Seq<Seq<char>>
    decreases s.len(),
{
    if s.len() == 0 {
        seq![Seq::<char>::empty()]
    } else {
        let rest = split_spec(s.drop_last(), sep);
        if s.last() == sep {
            rest.push(Seq::<char>::empty())
        } else {
            rest.update(rest.len() - 1, rest.last().push(s.last()))
        }
    }
}

/// A non-empty run of ASCII digits.
pub open spec fn all_digits(s: Seq<char>) -> bool {
    s.len() > 0 && forall|i: int| 0 <= i < s.len() ==> '0' <= #[trigger] s[i] && s[i] <= '9'
}

/// The value of a run of ASCII digits.
pub open spec fn digits_value(s: Seq<char>) -> nat
    decreases s.len(),
{
    if s.len() == 0 {
        0
    } else {
        digits_value(s.drop_last()) * 10 + ((s.last() as u32) - 48) as nat
    }
}

/// Whether `t` parses as an `i32` (`[+-]?digits`) whose value lies in 0..=255.
pub open spec fn parses_as_byte(t: Seq<char>) -> bool {
    if t.len() > 0 && t[0] == '+' {
        all_digits(t.drop_first()) && digits_value(t.drop_first()) <= 255
    } else if t.len() > 0 && t[0] == '-' {
        all_digits(t.drop_first()) && digits_value(t.drop_first()) == 0
    } else {
        all_digits(t) && digits_value(t) <= 255
    }
}

/// `rgb(r, g, b)`: whatever lies between the fourth byte and the last byte,
/// split on commas, is three integers in 0..=255 (surrounding spaces allowed).
pub open spec fn is_rgb_colour_text(s: Seq<char>) -> bool {
    match inner_slice(s, 4) {
        Some(body) => {
            let pieces = split_spec(body, ',');
            pieces.len() == 3 && forall|i: int| 0 <= i < 3 ==> parses_as_byte(#[trigger] trim_spec(pieces[i]))
        },
        None => false,
    }
}

/// The colour as it is checked: trimmed and in ASCII lowercase.
pub open spec fn clean_colour(colour: Seq<char>) -> Seq<char> {
    ascii_lower_spec(trim_spec(colour))
}

/// Whether checking the cleaned colour reaches the `rgb(...)` form with a
/// text that cannot be sliced there (the check panics on such input).
pub open spec fn colour_check_panics(clean: Seq<char>) -> bool {
    !is_special_colour_text(clean) && !is_named_colour_text(clean) && !is_hex_colour_text(clean)
        && inner_slice(clean, 4) is None
}

proof fn lemma_utf8_len_push(s: Seq<char>, c: char)
    ensures
        utf8_len(s.push(c)) == utf8_len(s) + utf8_width(c),
    decreases s.len(),
{
    if s.len() > 0 {
        assert(s.push(c).drop_first() =~= s.drop_first().push(c));
        assert(s.push(c)[0] == s[0]);
        lemma_utf8_len_push(s.drop_first(), c);
    } else {
        assert(s.push(c).drop_first() =~= Seq::<char>::empty());
        assert(s.push(c)[0] == c);
        assert(utf8_len(Seq::<char>::empty()) == 0);
    }
}

/// `char_index_at_byte` found by walking the characters from the start.
proof fn lemma_char_index_walk(s: Seq<char>, i: nat, b: nat)
    requires
        i <= s.len(),
        utf8_len(s.subrange(0, i as int)) <= b,
    ensures
        char_index_at_byte(s, b) == match char_index_at_byte(s.subrange(i as int, s.len() as int), (b - utf8_len(s.subrange(0, i as int))) as nat) {
            Some(k) => Some(k + i),
            None => None::<nat>,
        },
    decreases i,
{
    if i > 0 {
        let t = s.drop_first();
        let p = s.subrange(0, i as int);
        assert(p =~= seq![s[0]] + t.subrange(0, i - 1));
        assert(p[0] == s[0]);
        assert(p.drop_first() =~= t.subrange(0, i - 1));
        assert(utf8_len(p) == utf8_width(s[0]) + utf8_len(t.subrange(0, i - 1)));
        assert(t.subrange(i - 1, t.len() as int) =~= s.subrange(i as int, s.len() as int));
        assert(utf8_width(s[0]) >= 1);
        lemma_char_index_walk(t, (i - 1) as nat, (b - utf8_width(s[0])) as nat);
    } else {
        assert(s.subrange(0, 0) =~= Seq::<char>::empty());
        assert(s.subrange(0, s.len() as int) =~= s);
    }
}

fn utf8_width_of(c: char) -> (r: usize)
    ensures
        r as nat == utf8_width(c),
{
    if (c as u32) < 0x80 {
        1
    } else if (c as u32) < 0x800 {
        2
    } else if (c as u32) < 0x10000 {
        3
    } else {
        4
    }
}

proof fn lemma_utf8_len_le(s: Seq<char>)
    ensures
        utf8_len(s) <= 4 * s.len(),
        utf8_len(s) >= s.len(),
    decreases s.len(),
{
    if s.len() > 0 {
        lemma_utf8_len_le(s.drop_first());
    }
}

/// The characters of `&s[from..len - 1]`, or `None` where that slicing panics.
fn inner_slice_of(s: &Vec<char>, from: usize) -> (r: Option<Vec<char>>)
    requires
        s.len() < usize::MAX / 4,
    ensures
        match r {
            Some(v) => inner_slice(s@, from as nat) == Some(v@),
            None => inner_slice(s@, from as nat) is None,
        },
{
    // byte offsets of each character boundary
    let mut offsets: Vec<usize> = Vec::new();
    let mut total: usize = 0;
    let mut i: usize = 0;
    proof {
        lemma_utf8_len_le(s@);
    }
    while i < s.len()
        invariant
            i <= s.len(),
            s.len() < usize::MAX / 4,
            offsets.len() == i,
            total as nat == utf8_len(s@.subrange(0, i as int)),
            total <= 4 * i,
            forall|j: int| 0 <= j < i ==> #[trigger] offsets@[j] as nat == utf8_len(s@.subrange(0, j)),
        decreases s.len() - i,
    {
        offsets.push(total);
        proof {
            assert(s@.subrange(0, i + 1) =~= s@.subrange(0, i as int).push(s@[i as int]));
            lemma_utf8_len_push(s@.subrange(0, i as int), s@[i as int]);
        }
        total = total + utf8_width_of(s[i]);
        i = i + 1;
    }
    offsets.push(total);
    assert(s@.subrange(0, s.len() as int) =~= s@);
    if total == 0 || from > total - 1 {
        return None;
    }
    // find the character starting at `from` and the one starting at `total - 1`
    let mut a: Option<usize> = None;
    let mut z: Option<usize> = None;
    let mut k: usize = 0;
    while k <= s.len()
        invariant
            k <= s.len() + 1,
            offsets.len() == s.len() + 1,
            total as nat == utf8_len(s@),
            forall|j: int| 0 <= j <= s.len() ==> #[trigger] offsets@[j] as nat == utf8_len(s@.subrange(0, j)),
            a is Some ==> a->0 < k && offsets@[a->0 as int] == from,
            a is None ==> forall|j: int| 0 <= j < k ==> offsets@[j] != from,
            z is Some ==> z->0 < k && offsets@[z->0 as int] == total - 1,
            z is None ==> forall|j: int| 0 <= j < k ==> offsets@[j] != total - 1,
            total > 0,
        decreases s.len() + 1 - k,
    {
        if offsets[k] == from && a.is_none() {
            a = Some(k);
        }
        if offsets[k] == total - 1 && z.is_none() {
            z = Some(k);
        }
        k = k + 1;
    }
    match (a, z) {
        (Some(ai), Some(zi)) => {
            proof {
                lemma_char_index_walk(s@, ai as nat, from as nat);
                lemma_char_index_walk(s@, zi as nat, (total - 1) as nat);
                assert(char_index_at_byte(s@, from as nat) == Some(ai as nat));
                assert(char_index_at_byte(s@, (total - 1) as nat) == Some(zi as nat));
            }
            if ai > zi {
                // from > total - 1 was excluded above, so offsets order the indices
                proof {
                    lemma_utf8_len_prefix_monotone(s@, zi as int, ai as int);
                }
                return None;
            }
            let mut out: Vec<char> = Vec::new();
            let mut m: usize = ai;
            while m < zi
                invariant
                    ai <= m <= zi <= s.len(),
                    out@ == s@.subrange(ai as int, m as int),
                decreases zi - m,
            {
                out.push(s[m]);
                m = m + 1;
            }
            Some(out)
        },
        _ => {
            proof {
                if a is None {
                    assert forall|j: int| 0 <= j <= s.len() implies utf8_len(#[trigger] s@.subrange(0, j)) != from by {
                        assert(offsets@[j] as nat == utf8_len(s@.subrange(0, j)));
                    }
                    lemma_char_index_none(s@, from as nat);
                } else {
                    assert forall|j: int| 0 <= j <= s.len() implies utf8_len(#[trigger] s@.subrange(0, j)) != total - 1 by {
                        assert(offsets@[j] as nat == utf8_len(s@.subrange(0, j)));
                    }
                    lemma_char_index_none(s@, (total - 1) as nat);
                }
            }
            None
        },
    }
}

proof fn lemma_char_index_none(s: Seq<char>, b: nat)
    requires
        forall|j: int| 0 <= j <= s.len() ==> utf8_len(#[trigger] s.subrange(0, j)) != b,
    ensures
        char_index_at_byte(s, b) is None,
    decreases s.len(),
{
    assert(s.subrange(0, 0) =~= Seq::<char>::empty());
    if b != 0 && s.len() > 0 && utf8_width(s[0]) <= b {
        let t = s.drop_first();
        assert forall|j: int| 0 <= j <= t.len() implies utf8_len(#[trigger] t.subrange(0, j)) != (b - utf8_width(s[0])) as nat by {
            assert(s.subrange(0, j + 1) =~= seq![s[0]] + t.subrange(0, j));
            assert((seq![s[0]] + t.subrange(0, j)).drop_first() =~= t.subrange(0, j));
            assert(utf8_len(s.subrange(0, j + 1)) == utf8_width(s[0]) + utf8_len(t.subrange(0, j)));
        }
        lemma_char_index_none(t, (b - utf8_width(s[0])) as nat);
    }
}

proof fn lemma_utf8_len_prefix_monotone(s: Seq<char>, i: int, j: int)
    requires
        0 <= i <= j <= s.len(),
    ensures
        utf8_len(s.subrange(0, i)) + (j - i) <= utf8_len(s.subrange(0, j)),
    decreases j - i,
{
    if i < j {
        lemma_utf8_len_prefix_monotone(s, i, j - 1);
        assert(s.subrange(0, j) =~= s.subrange(0, j - 1).push(s[j - 1]));
        lemma_utf8_len_push(s.subrange(0, j - 1), s[j - 1]);
    }
}


/// The pieces of `s` between commas-or-other separators (`str::split`).
fn split_chars(s: &Vec<char>, sep: char) -> (r: Vec<Vec<char>>)
    ensures
        r@.len() == split_spec(s@, sep).len(),
        forall|i: int| 0 <= i < r@.len() ==> #[trigger] r@[i]@ == split_spec(s@, sep)[i],
{
    let mut pieces: Vec<Vec<char>> = Vec::new();
    let mut cur: Vec<char> = Vec::new();
    let mut i: usize = 0;
    assert(s@.subrange(0, 0) =~= Seq::<char>::empty());
    while i < s.len()
        invariant
            i <= s.len(),
            split_spec(s@.subrange(0, i as int), sep).len() == pieces@.len() + 1,
            forall|j: int| 0 <= j < pieces@.len() ==> #[trigger] pieces@[j]@ == split_spec(s@.subrange(0, i as int), sep)[j],
            cur@ == split_spec(s@.subrange(0, i as int), sep).last(),
        decreases s.len() - i,
    {
        let ghost prev = split_spec(s@.subrange(0, i as int), sep);
        assert(s@.subrange(0, i + 1).drop_last() =~= s@.subrange(0, i as int));
        assert(s@.subrange(0, i + 1).last() == s@[i as int]);
        if s[i] == sep {
            pieces.push(cur);
            cur = Vec::new();
        } else {
            cur.push(s[i]);
        }
        i = i + 1;
        proof {
            let now = split_spec(s@.subrange(0, i as int), sep);
            assert forall|j: int| 0 <= j < pieces@.len() implies #[trigger] pieces@[j]@ == now[j] by {
                if j < prev.len() - 1 {
                    assert(now[j] == prev[j]);
                }
            }
        }
    }
    assert(s@.subrange(0, s.len() as int) =~= s@);
    pieces.push(cur);
    pieces
}

pub proof fn lemma_digits_value_grows(s: Seq<char>, c: char)
    requires
        '0' <= c && c <= '9',
    ensures
        digits_value(s.push(c)) >= digits_value(s),
        digits_value(s.push(c)) == digits_value(s) * 10 + ((c as u32) - 48) as nat,
{
    assert(s.push(c).drop_last() =~= s);
}

/// Whether the characters parse as an `i32` in 0..=255.
fn parses_as_byte_chars(t: &Vec<char>) -> (r: bool)
    ensures
        r == parses_as_byte(t@),
{
    let n = t.len();
    let start: usize = if n > 0 && (t[0] == '+' || t[0] == '-') { 1 } else { 0 };
    let negative = n > 0 && t[0] == '-';
    let ghost digits = t@.subrange(start as int, n as int);
    if start >= n {
        proof {
            if n > 0 {
                assert(t@.drop_first() =~= digits);
            }
        }
        return false;
    }
    let mut value: u64 = 0;
    let mut i: usize = start;
    assert(t@.subrange(start as int, start as int) =~= Seq::<char>::empty());
    while i < n
        invariant
            start <= i <= n,
            n == t.len(),
            start == (if n > 0 && (t@[0] == '+' || t@[0] == '-') { 1usize } else { 0usize }),
            negative == (n > 0 && t@[0] == '-'),
            digits == t@.subrange(start as int, n as int),
            forall|j: int| start <= j < i ==> '0' <= #[trigger] t@[j] && t@[j] <= '9',
            value as nat == if digits_value(t@.subrange(start as int, i as int)) >= 256 { 256 } else { digits_value(t@.subrange(start as int, i as int)) },
        decreases n - i,
    {
        let c = t[i];
        if !('0' <= c && c <= '9') {
            proof {
                assert(digits[i - start] == c);
                if start == 1 {
                    assert(t@.drop_first() =~= digits);
                } else {
                    assert(digits =~= t@);
                }
            }
            return false;
        }
        proof {
            assert(t@.subrange(start as int, i + 1) =~= t@.subrange(start as int, i as int).push(c));
            lemma_digits_value_grows(t@.subrange(start as int, i as int), c);
        }
        let d: u64 = (c as u32 - 48) as u64;
        value = if value * 10 + d >= 256 { 256 } else { value * 10 + d };
        i = i + 1;
    }
    assert(t@.subrange(start as int, n as int) =~= digits);
    proof {
        assert(all_digits(digits));
        if start == 1 {
            assert(t@.drop_first() =~= digits);
        } else {
            assert(digits =~= t@);
        }
    }
    if negative {
        value == 0
    } else {
        value <= 255
    }
}

/// Whether the text between the fourth byte and the last byte holds three
/// comma-separated integers in 0..=255 (`rgb(r, g, b)`).
fn is_rgb_colour(colour: &Vec<char>) -> (r: bool)
    requires
        colour.len() < usize::MAX / 4,
    ensures
        r == is_rgb_colour_text(colour@),
{
    let body = match inner_slice_of(colour, 4) {
        Some(b) => b,
        None => {
            return false;
        },
    };
    let pieces = split_chars(&body, ',');
    if pieces.len() != 3 {
        return false;
    }
    let mut i: usize = 0;
    while i < 3
        invariant
            i <= 3,
            pieces@.len() == 3,
            inner_slice(colour@, 4) == Some(body@),
            forall|k: int| 0 <= k < 3 ==> #[trigger] pieces@[k]@ == split_spec(body@, ',')[k],
            forall|j: int| 0 <= j < i ==> parses_as_byte(#[trigger] trim_spec(split_spec(body@, ',')[j])),
        decreases 3 - i,
    {
        let t = trim_chars(&pieces[i]);
        if !parses_as_byte_chars(&t) {
            return false;
        }
        i = i + 1;
    }
    true
}

/// Whether the colour check accepts a float form for `text`, as reported by
/// the caller's check of the `rgba(...)`, `hsl(...)` and `hsla(...)` forms.
pub open spec fn float_form_accepts<F: Fn(&str) -> bool>(float_forms: F, text: Seq<char>) -> bool {
    exists|x: &str| x@ == text && #[trigger] float_forms.ensures((x,), true)
}

/// The float-form check answers every text, and answers it the same way each time.
pub open spec fn float_forms_ok<F: Fn(&str) -> bool>(float_forms: F) -> bool {
    &&& forall|x: &str| #[trigger] float_forms.requires((x,))
    &&& forall|x: &str, y: &str, b1: bool, b2: bool|
        x@ == y@ && #[trigger] float_forms.ensures((x,), b1) && #[trigger] float_forms.ensures((y,), b2) ==> b1 == b2
}

/// The colour forms accepted without floating-point components.
pub open spec fn is_exact_colour_text(clean: Seq<char>) -> bool {
    is_special_colour_text(clean) || is_named_colour_text(clean) || is_hex_colour_text(clean)
        || is_rgb_colour_text(clean)
}

/// Validates a colour: after trimming and ASCII-lowercasing, it must be a
/// special keyword, an SVG colour name, a hex colour, `rgb(...)` with
/// integer components in 0..=255, or one of the floating-point forms
/// (`rgba`, `hsl`, `hsla`) accepted by `float_forms`, which is asked only
/// when none of the others matches.
pub fn is_valid_colour<F: Fn(&str) -> bool>(colour: &str, float_forms: F) -> (r: Result<(), ValidationError>)
    requires
        float_forms_ok(float_forms),
        !colour_check_panics(clean_colour(colour@)),
        colour@.len() < usize::MAX / 4,
    ensures
        r is Ok <==> (is_exact_colour_text(clean_colour(colour@))
            || float_form_accepts(float_forms, clean_colour(colour@))),
        r matches Err(e) ==> e.message@ == "Invalid colour format"@,
{
    let trimmed = trim(colour);
    let clean = to_ascii_lowercase(trimmed.as_str());
    let ghost text = clean_colour(colour@);
    assert(clean@ == text);
    let clean_chars = chars_of(clean.as_str());
    proof {
        lemma_trim_len(colour@);
    }
    if is_special_colour(clean.as_str()) || is_named_colour(clean.as_str())
        || is_hex_colour(clean.as_str()) || is_rgb_colour(&clean_chars) {
        return Ok(());
    }
    let accepted = float_forms(clean.as_str());
    if accepted {
        Ok(())
    } else {
        assert(!float_form_accepts(float_forms, text));
        Err(ValidationError::new("Invalid colour format"))
    }
}

/// Whether checking `colour` cannot complete: it is no special, named or
/// hex colour, and has no text between its fourth byte and its last byte to
/// read as `rgb(...)` components.
pub fn colour_check_fails(colour: &str) -> (r: bool)
    requires
        colour@.len() < usize::MAX / 4,
    ensures
        r == colour_check_panics(clean_colour(colour@)),
{
    let trimmed = trim(colour);
    let clean = to_ascii_lowercase(trimmed.as_str());
    assert(clean@ == clean_colour(colour@));
    proof {
        lemma_trim_len(colour@);
    }
    let clean_chars = chars_of(clean.as_str());
    if is_special_colour(clean.as_str()) || is_named_colour(clean.as_str()) || is_hex_colour(clean.as_str()) {
        return false;
    }
    inner_slice_of(&clean_chars, 4).is_none()
}

proof fn lemma_trim_len(s: Seq<char>)
    ensures
        ascii_lower_spec(trim_spec(s)).len() <= s.len(),
{
    lemma_trim_spec_len(s);
}


/// Number of bytes in the UTF-8 encoding of `s` (`str::len`).
pub fn utf8_len_of(s: &str) -> (r: u128)
    ensures
        r as nat == utf8_len(s@),
{
    let v = chars_of(s);
    let mut total: u128 = 0;
    let mut i: usize = 0;
    proof {
        lemma_utf8_len_le(s@);
    }
    assert(v@.subrange(0, 0) =~= Seq::<char>::empty());
    while i < v.len()
        invariant
            v@ == s@,
            i <= v.len(),
            total as nat == utf8_len(s@.subrange(0, i as int)),
            total <= 4 * i,
        decreases v.len() - i,
    {
        proof {
            assert(s@.subrange(0, i + 1) =~= s@.subrange(0, i as int).push(s@[i as int]));
            lemma_utf8_len_push(s@.subrange(0, i as int), s@[i as int]);
        }
        total = total + utf8_width_of(v[i]) as u128;
        i = i + 1;
    }
    assert(s@.subrange(0, v.len() as int) =~= s@);
    total
}

/// Maximum number of bytes of formatted date output that fits the display.
pub const MAX_DATE_FORMAT_OUTPUT_LENGTH: usize = 30;

/// 2025-09-17 12:00:00 UTC, a Wednesday in September: the longest weekday
/// and month names, used to measure a date format.
pub const LONGEST_DATE_UTC_SECS: i64 = 1758110400;

/// The message for an empty date format.
pub open spec fn empty_date_format_message() -> Seq<char> {
    "Date format cannot be empty or whitespace-only"@
}

/// The message for a date format whose output is too long.
pub open spec fn long_date_format_message() -> Seq<char> {
    "Date format produces output that is too long for display, it must be 30 characters or fewer"@
}

/// Why a date format is rejected, if it is: empty after trimming, or its
/// rendering of the longest date is more than 30 bytes long.
pub open spec fn date_format_problem(format: Seq<char>) -> Option<Seq<char>> {
    let trimmed = trim_spec(format);
    if trimmed.len() == 0 {
        Some(empty_date_format_message())
    } else if utf8_len(chrono_format_utc(LONGEST_DATE_UTC_SECS, trimmed)->0) > MAX_DATE_FORMAT_OUTPUT_LENGTH {
        Some(long_date_format_message())
    } else {
        None
    }
}

/// Validates a chrono strftime date format string: it must not be empty
/// or whitespace-only, and its output for the longest date (Wednesday,
/// 17 September 2025) must not exceed 30 bytes. Unknown specifiers such as
/// `%Q` are rendered literally.
pub fn is_valid_date_format(format: &str) -> (r: Result<(), ValidationError>)
    ensures
        match date_format_problem(format@) {
            Some(m) => r matches Err(e) && e.message@ == m,
            None => r is Ok,
        },
{
    let trimmed = trim(format);
    if trimmed.as_str().is_empty() {
        return Err(ValidationError::new("Date format cannot be empty or whitespace-only"));
    }
    let formatted = match format_utc(LONGEST_DATE_UTC_SECS, trimmed.as_str()) {
        Some(f) => f,
        None => {
            assert(in_chrono_range(LONGEST_DATE_UTC_SECS));
            return Ok(());
        },
    };
    if utf8_len_of(formatted.as_str()) > MAX_DATE_FORMAT_OUTPUT_LENGTH as u128 {
        return Err(ValidationError::new(
            "Date format produces output that is too long for display, it must be 30 characters or fewer",
        ));
    }
    Ok(())
}

} // verus!
