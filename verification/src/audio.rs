//! Audio decisions of the jingle player: which sound card plays it and which
//! WAV sample formats it can send.
use vstd::prelude::*;
use crate::text::{decimal_unsigned, parse_unsigned_bytes};
pub use crate::text::chars_of;

verus! {

/// Unicode white space, as `char::is_whitespace` has it.
pub open spec fn is_white(c: char) -> bool {
    ||| ('\t' <= c && c <= '\r')
    ||| c == ' '
    ||| c == '\u{85}'
    ||| c == '\u{a0}'
    ||| c == '\u{1680}'
    ||| ('\u{2000}' <= c && c <= '\u{200a}')
    ||| c == '\u{2028}'
    ||| c == '\u{2029}'
    ||| c == '\u{202f}'
    ||| c == '\u{205f}'
    ||| c == '\u{3000}'
}

pub fn white(c: char) -> (r: bool)
    ensures
        r == is_white(c),
{
    ('\t' <= c && c <= '\r') || c == ' ' || c == '\u{85}' || c == '\u{a0}' || c == '\u{1680}'
        || ('\u{2000}' <= c && c <= '\u{200a}') || c == '\u{2028}' || c == '\u{2029}' || c == '\u{202f}'
        || c == '\u{205f}' || c == '\u{3000}'
}

/// The end of the line that starts at `i`: the first newline from `i` on, or the end.
pub open spec fn line_end(s: Seq<char>, i: int) -> int
    decreases s.len() - i,
{
    if i < 0 || i >= s.len() || s[i] == '\n' {
        i
    } else {
        line_end(s, i + 1)
    }
}

/// A line ends at a newline or at the end of the text, and holds no newline.
pub proof fn lemma_line_end(s: Seq<char>, i: int)
    requires
        0 <= i <= s.len(),
    ensures
        i <= line_end(s, i) <= s.len(),
        line_end(s, i) < s.len() ==> s[line_end(s, i)] == '\n',
        forall|k: int| i <= k < line_end(s, i) ==> s[k] != '\n',
    decreases s.len() - i,
{
    if i < s.len() && s[i] != '\n' {
        lemma_line_end(s, i + 1);
    }
}

/// `USB` occurs in `s[i..j]`.
pub open spec fn mentions_usb(s: Seq<char>, i: int, j: int) -> bool {
    exists|k: int| i <= k && k + 3 <= j && #[trigger] s[k] == 'U' && s[k + 1] == 'S' && s[k + 2] == 'B'
}

/// The first line from `i` on that mentions `USB`, as its start and end.
pub open spec fn usb_line_from(s: Seq<char>, i: int) -> Option<(int, int)>
    decreases s.len() - i,
{
    if i < 0 || i >= s.len() {
        None
    } else {
        let j = line_end(s, i);
        if mentions_usb(s, i, j) {
            Some((i, j))
        } else if j >= s.len() {
            None
        } else {
            proof {
                lemma_line_end(s, i);
            }
            usb_line_from(s, j + 1)
        }
    }
}

/// The first position from `i` on (before `end`) that is not white space.
pub open spec fn skip_white(s: Seq<char>, i: int, end: int) -> int
    decreases end - i,
{
    if 0 <= i < end && is_white(s[i]) {
        skip_white(s, i + 1, end)
    } else {
        i
    }
}

/// The end of the word that starts at `i` (before `end`).
pub open spec fn word_end(s: Seq<char>, i: int, end: int) -> int
    decreases end - i,
{
    if 0 <= i < end && !is_white(s[i]) {
        word_end(s, i + 1, end)
    } else {
        i
    }
}

pub open spec fn is_ascii(c: char) -> bool {
    c <= '\u{7f}'
}

/// The low byte of each character (the character itself for ASCII).
pub open spec fn ascii_bytes(w: Seq<char>) -> Seq<u8> {
    Seq::new(w.len(), |k: int| w[k] as u8)
}

/// A word read as a `u32`: an optional `+`, then decimal digits.
pub open spec fn word_value(w: Seq<char>) -> Option<u32> {
    if forall|k: int| 0 <= k < w.len() ==> is_ascii(#[trigger] w[k]) {
        match decimal_unsigned(ascii_bytes(w), 0xffff_ffffu64) {
            Some(n) => Some(n as u32),
            None => None,
        }
    } else {
        None
    }
}

/// The card number of the first USB device in the sound-card listing: the
/// first word of the first line that mentions `USB`, read as a number.
pub open spec fn usb_card_of(s: Seq<char>) -> Option<u32> {
    match usb_line_from(s, 0) {
        None => None,
        Some((i, j)) => {
            let a = skip_white(s, i, j);
            word_value(s.subrange(a, word_end(s, a, j)))
        },
    }
}

/// Whether `s[i..j]` mentions `USB`.
fn find_usb(s: &Vec<char>, i: usize, j: usize) -> (r: bool)
    requires
        i <= j <= s@.len(),
    ensures
        r == mentions_usb(s@, i as int, j as int),
{
    if j < 3 {
        return false;
    }
    let mut k = i;
    while 3 <= j - k
        invariant
            i <= k <= j,
            j <= s@.len(),
            3 <= j,
            forall|m: int| i <= m < k ==> !(#[trigger] s@[m] == 'U' && s@[m + 1] == 'S' && s@[m + 2] == 'B'),
        decreases j - k,
    {
        if s[k] == 'U' && s[k + 1] == 'S' && s[k + 2] == 'B' {
            return true;
        }
        k += 1;
    }
    false
}

/// The value of the word `s[a..b]`.
fn read_word(s: &Vec<char>, a: usize, b: usize) -> (r: Option<u32>)
    requires
        a <= b <= s@.len(),
    ensures
        r == word_value(s@.subrange(a as int, b as int)),
{
    let ghost w = s@.subrange(a as int, b as int);
    let mut bytes: Vec<u8> = Vec::new();
    let mut k = a;
    while k < b
        invariant
            a <= k <= b,
            b <= s@.len(),
            w == s@.subrange(a as int, b as int),
            bytes@ == ascii_bytes(w.take(k - a)),
            forall|m: int| 0 <= m < k - a ==> is_ascii(#[trigger] w[m]),
        decreases b - k,
    {
        let c = s[k];
        assert(w[k - a] == c);
        if c > '\u{7f}' {
            return None;
        }
        let ghost before = bytes@;
        bytes.push(c as u8);
        assert(ascii_bytes(w.take(k + 1 - a)) =~= before.push(c as u8));
        k += 1;
    }
    assert(w.take(b - a) =~= w);
    match parse_unsigned_bytes(bytes.as_slice(), 0xffff_ffff) {
        Some(n) => Some(n as u32),
        None => None,
    }
}

/// The card number of the first USB device in a `/proc/asound/cards`
/// listing, whose lines read ` N [ShortName    ]: driver - Full Name`.
pub fn usb_card_index(cards: &str) -> (r: Option<u32>)
    ensures
        r == usb_card_of(cards@),
{
    let s = chars_of(cards);
    let mut i: usize = 0;
    while i < s.len()
        invariant
            s@ == cards@,
            i <= s@.len(),
            usb_line_from(s@, 0) == usb_line_from(s@, i as int),
        decreases s@.len() - i,
    {
        let mut j = i;
        while j < s.len() && s[j] != '\n'
            invariant
                i <= j <= s@.len(),
                line_end(s@, i as int) == line_end(s@, j as int),
            decreases s@.len() - j,
        {
            j += 1;
        }
        proof {
            lemma_line_end(s@, i as int);
        }
        if find_usb(&s, i, j) {
            let mut a = i;
            while a < j && white(s[a])
                invariant
                    i <= a <= j,
                    j <= s@.len(),
                    skip_white(s@, i as int, j as int) == skip_white(s@, a as int, j as int),
                decreases j - a,
            {
                a += 1;
            }
            let mut b = a;
            while b < j && !white(s[b])
                invariant
                    a <= b <= j,
                    j <= s@.len(),
                    word_end(s@, a as int, j as int) == word_end(s@, b as int, j as int),
                decreases j - b,
            {
                b += 1;
            }
            return read_word(&s, a, b);
        }
        if j >= s.len() {
            return None;
        }
        i = j + 1;
    }
    None
}

/// The sample layouts the player sends to the sound card.
#[derive(Clone, Copy, Debug, PartialEq, Eq, Structural)]
pub enum SampleLayout {
    /// 16-bit signed integers, little-endian.
    I16,
    /// 32-bit signed integers, little-endian.
    I32,
    /// 32-bit floats, little-endian.
    F32,
}

/// The layout for a WAV file's samples: 16- or 32-bit integers, or 32-bit
/// floats; `None` for anything else.
pub open spec fn layout_of(float: bool, bits: u16) -> Option<SampleLayout> {
    if !float && bits == 16 {
        Some(SampleLayout::I16)
    } else if !float && bits == 32 {
        Some(SampleLayout::I32)
    } else if float && bits == 32 {
        Some(SampleLayout::F32)
    } else {
        None
    }
}

pub fn sample_layout(float: bool, bits: u16) -> (r: Option<SampleLayout>)
    ensures
        r == layout_of(float, bits),
{
    if !float && bits == 16 {
        Some(SampleLayout::I16)
    } else if !float && bits == 32 {
        Some(SampleLayout::I32)
    } else if float && bits == 32 {
        Some(SampleLayout::F32)
    } else {
        None
    }
}

} // verus!
