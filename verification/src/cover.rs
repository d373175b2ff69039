//! Placeholder cover art: per-show hue and the layout of the two-tone
//! block with the show's abbreviated title.

use vstd::prelude::*;
use crate::text::push_char;
use vstd::string::StringSliceAdditionalSpecFns;
use vstd::utf8::encode_utf8;

verus! {

/// The characters with the Unicode `White_Space` property.
pub open spec fn white_space(c: char) -> bool {
    let u = c as u32;
    ||| 0x09 <= u <= 0x0D
    ||| u == 0x20
    ||| u == 0x85
    ||| u == 0xA0
    ||| u == 0x1680
    ||| 0x2000 <= u <= 0x200A
    ||| u == 0x2028
    ||| u == 0x2029
    ||| u == 0x202F
    ||| u == 0x205F
    ||| u == 0x3000
}

/// Whether `c` separates words.
pub fn is_white_space(c: char) -> (r: bool)
    ensures
        r == white_space(c),
{
    let u = c as u32;
    (0x09 <= u && u <= 0x0D) || u == 0x20 || u == 0x85 || u == 0xA0 || u == 0x1680
        || (0x2000 <= u && u <= 0x200A) || u == 0x2028 || u == 0x2029 || u == 0x202F
        || u == 0x205F || u == 0x3000
}

/// The first character of every whitespace-separated word of `s`;
/// `after_space` says whether a word may start at the first character.
pub open spec fn word_initials(s: Seq<char>, after_space: bool) -> Seq<char>
    decreases s.len(),
{
    if s.len() == 0 {
        Seq::empty()
    } else if white_space(s[0]) {
        word_initials(s.drop_first(), true)
    } else if after_space {
        seq![s[0]] + word_initials(s.drop_first(), false)
    } else {
        word_initials(s.drop_first(), false)
    }
}

/// The first `n` elements of `s` (all of them when there are fewer).
pub open spec fn first_n<A>(s: Seq<A>, n: nat) -> Seq<A> {
    if s.len() <= n { s } else { s.take(n as int) }
}

/// What upper-casing a text gives (Unicode case mapping).
pub uninterp spec fn uppercased(s: Seq<char>) -> Seq<char>;

/// Upper-cases a text with `str::to_uppercase`; the result is named by
/// `uppercased`.
#[verifier::external_body]
fn to_upper(s: &str) -> (r: String)
    ensures
        r@ == uppercased(s@),
{
    s.to_uppercase()
}

/// The label of a cover, at most `max_width` characters: the whole title
/// when its UTF-8 length fits two characters short of `max_width`, else the
/// upper-cased initials of at most its first four words, cut to
/// `max_width` characters.
pub open spec fn abbreviation(title: &str, max_width: usize) -> Seq<char> {
    let room: int = if max_width >= 2 { max_width - 2 } else { 0 };
    if title.spec_bytes().len() <= room {
        title@
    } else {
        first_n(uppercased(first_n(word_initials(title@, true), 4)), max_width as nat)
    }
}

/// A text has at least as many UTF-8 bytes as characters.
pub proof fn lemma_utf8_at_least_chars(chars: Seq<char>)
    ensures
        encode_utf8(chars).len() >= chars.len(),
    decreases chars.len(),
{
    if chars.len() > 0 {
        lemma_utf8_at_least_chars(chars.drop_first());
    }
}

/// Produces the label of a cover, at most `max_width` characters: the
/// title if it fits, else the upper-cased initials of at most four words.
pub fn abbreviated_title(title: &str, max_width: usize) -> (r: String)
    ensures
        r@ == abbreviation(title, max_width),
        r@.len() <= max_width,
{
    let room: usize = if max_width >= 2 { max_width - 2 } else { 0 };
    let bytes = title.as_bytes();
    if bytes.len() <= room {
        proof {
            lemma_utf8_at_least_chars(title@);
        }
        return String::from_str(title);
    }
    let n = title.unicode_len();
    let ghost s = title@;
    let ghost mut got: Seq<char> = Seq::empty();
    let mut initials = String::new();
    let mut after_space = true;
    let mut i: usize = 0;
    assert(s.subrange(0, n as int) =~= s);
    while i < n
        invariant
            n == s.len(),
            s == title@,
            i <= n,
            word_initials(s, true) == got + word_initials(s.subrange(i as int, n as int), after_space),
            initials@ == first_n(got, 4),
        decreases n - i,
    {
        let c = title.get_char(i);
        let ghost rest = s.subrange(i as int, n as int);
        assert(rest[0] == c);
        assert(rest.drop_first() =~= s.subrange(i + 1, n as int));
        if is_white_space(c) {
            after_space = true;
        } else {
            if after_space {
                proof {
                    assert(got + (seq![c] + word_initials(s.subrange(i + 1, n as int), false))
                        =~= got.push(c) + word_initials(s.subrange(i + 1, n as int), false));
                }
                if initials.unicode_len() < 4 {
                    push_char(&mut initials, c);
                }
                proof {
                    got = got.push(c);
                    assert(initials@ =~= first_n(got, 4));
                }
            }
            after_space = false;
        }
        i += 1;
    }
    assert(s.subrange(n as int, n as int).len() == 0);
    assert(got =~= word_initials(s, true));
    let upper = to_upper(initials.as_str());
    if upper.as_str().unicode_len() <= max_width {
        upper
    } else {
        String::from_str(upper.as_str().substring_char(0, max_width))
    }
}

/// The hue, in degrees, of the cover colours of a show: a multiplicative
/// hash of the id's magnitude, taken to 64 then 32 bits, modulo 360.
pub open spec fn hue_of(anime_id: i64) -> u32 {
    let mag: int = if anime_id >= 0 { anime_id as int } else { -(anime_id as int) };
    ((mag * 2654435761) % 0x1_0000_0000_0000_0000 % 0x1_0000_0000 % 360) as u32
}

/// The hue of a show's placeholder cover; the same id always gives the
/// same hue.
pub fn hue_from_id(anime_id: i64) -> (h: u32)
    ensures
        h == hue_of(anime_id),
        h < 360,
{
    let mag: u64 = if anime_id >= 0 {
        anime_id as u64
    } else {
        let m: i128 = -(anime_id as i128);
        m as u64
    };
    let hash64: u64 = mag.wrapping_mul(2_654_435_761);
    let hash: u32 = (hash64 % 0x1_0000_0000) as u32;
    hash % 360
}

/// A placeholder cover: a two-tone block with the show's abbreviated title.
pub struct HalfblockCover<'a> {
    pub anime_id: i64,
    pub title: &'a str,
}

/// Where the parts of a placeholder cover go inside its area.
pub struct CoverLayout {
    /// Rows above this one take the primary colour, the others the
    /// secondary one.
    pub split: u16,
    /// The row of the label.
    pub title_row: u16,
    /// The column offset of the label.
    pub text_offset: u16,
    /// The label.
    pub label: String,
}

impl<'a> HalfblockCover<'a> {
    /// The layout of the cover in an area of `width` by `height` cells:
    /// the upper half in the primary colour, the label on the last row of
    /// that half, centred.
    pub fn layout(&self, width: u16, height: u16) -> (l: CoverLayout)
        ensures
            l.split == height / 2,
            l.title_row == (if height / 2 >= 1 { height / 2 - 1 } else { 0 }),
            l.label@ == abbreviation(self.title, width as usize),
            l.label@.len() <= width,
            l.text_offset == (if width >= (l.label@.len() % 0x10000) {
                (width - (l.label@.len() % 0x10000)) / 2
            } else {
                0
            }),
    {
        let split = height / 2;
        let title_row = if split >= 1 { split - 1 } else { 0 };
        let label = abbreviated_title(self.title, width as usize);
        let count: usize = label.as_str().unicode_len();
        let text_len: u16 = (count % 0x10000) as u16;
        let text_offset = if width >= text_len { (width - text_len) / 2 } else { 0 };
        CoverLayout { split, title_row, text_offset, label }
    }
}

/// A cover label made of initials has at most four of them, and none is a
/// whitespace character.
pub proof fn law_initials_bounded(s: Seq<char>, after_space: bool)
    ensures
        first_n(word_initials(s, after_space), 4).len() <= 4,
        forall|i: int|
            0 <= i < word_initials(s, after_space).len() ==> !white_space(
                #[trigger] word_initials(s, after_space)[i],
            ),
    decreases s.len(),
{
    if s.len() > 0 {
        law_initials_bounded(s.drop_first(), true);
        law_initials_bounded(s.drop_first(), false);
        let w = word_initials(s, after_space);
        if !white_space(s[0]) && after_space {
            let rest = word_initials(s.drop_first(), false);
            assert forall|i: int| 0 <= i < w.len() implies !white_space(#[trigger] w[i]) by {
                if i > 0 {
                    assert(w[i] == rest[i - 1]);
                }
            }
        }
    }
}

} // verus!
