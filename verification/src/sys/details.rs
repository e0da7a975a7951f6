//! The details of an error number, shown without holding on to the C library's buffer:
//! the message is kept as the pieces a lossy UTF-8 decoding gives, and is shown with the
//! precision, width, alignment and fill that `str` honours, or escaped as `str`'s debug
//! output is.
use vstd::prelude::*;
use crate::text::{
    escape_debug, escape_debug_of, joined, lemma_joined_append, lossy_pieces,
    lossy_pieces_from_chunks, push_char, utf8_chunks, utf8_chunks_of,
};

verus! {

/// Where padding goes when text is shown in a wider field.
#[derive(Debug, Clone, Copy, PartialEq, Eq, Structural)]
pub enum Alignment {
    /// The text is at the left, the padding at the right.
    Left,
    /// The text is at the right, the padding at the left.
    Right,
    /// The text is in the middle; an odd unit of padding goes to the right.
    Center,
}

/// `n` copies of `c`.
pub open spec fn repeated(c: char, n: nat) -> Seq<char> {
    Seq::new(n, |_i: int| c)
}

/// The text cut to at most `precision` characters, when a precision is given.
pub open spec fn shown(text: Seq<char>, precision: Option<usize>) -> Seq<char> {
    match precision {
        Some(max) => if text.len() <= max {
            text
        } else {
            text.take(max as int)
        },
        None => text,
    }
}

/// How much of the padding of a field goes to the left of the text (by default none).
pub open spec fn padding_left(padding: nat, align: Option<Alignment>) -> nat {
    match align {
        Some(Alignment::Right) => padding,
        Some(Alignment::Center) => padding / 2,
        _ => 0,
    }
}

/// The text in a field of at least `width` characters, padded with `fill`.
pub open spec fn padded(
    text: Seq<char>,
    width: Option<usize>,
    align: Option<Alignment>,
    fill: char,
) -> Seq<char> {
    let w: int = match width {
        Some(w) => w as int,
        None => 0,
    };
    if text.len() < w {
        let padding = (w - text.len()) as nat;
        let left = padding_left(padding, align);
        repeated(fill, left) + text + repeated(fill, (padding - left) as nat)
    } else {
        text
    }
}

/// Whether a character starts with a byte that `str`'s debug output looks at: one
/// outside the printable ASCII range, a backslash or a double quote.
pub open spec fn needs_escape(c: char) -> bool {
    (c as u32) > 0x7e || (c as u32) < 0x20 || c == '\\' || c == '"'
}

/// How one character appears in debug output: its escape where it needs one that is more
/// than the character itself, else the character.
pub open spec fn char_debug(c: char) -> Seq<char> {
    if needs_escape(c) && escape_debug_of(c).len() != 1 {
        escape_debug_of(c)
    } else {
        seq![c]
    }
}

/// Text as it appears in debug output, character after character.
pub open spec fn debug_escaped(s: Seq<char>) -> Seq<char>
    decreases s.len(),
{
    if s.len() == 0 {
        Seq::empty()
    } else {
        debug_escaped(s.drop_last()) + char_debug(s.last())
    }
}

/// The pieces, each escaped for debug output.
pub open spec fn escaped_pieces(pieces: Seq<Seq<char>>) -> Seq<Seq<char>> {
    pieces.map_values(|p: Seq<char>| debug_escaped(p))
}

/// Cutting text to a precision keeps a prefix of it, as long as the precision allows.
pub proof fn lemma_shown_is_prefix(text: Seq<char>, precision: Option<usize>)
    ensures
        shown(text, precision).len() == (match precision {
            Some(max) => if text.len() <= max {
                text.len()
            } else {
                max as nat
            },
            None => text.len(),
        }),
        shown(text, precision) == text.take(shown(text, precision).len() as int),
{
    assert(text.take(text.len() as int) =~= text);
}

/// Padding makes a field of exactly `width` characters when the text is shorter, with the
/// text unchanged inside it after the left padding; longer text is left as it is.
pub proof fn lemma_padded_field(
    text: Seq<char>,
    width: Option<usize>,
    align: Option<Alignment>,
    fill: char,
)
    ensures
        ({
            let w: int = match width {
                Some(w) => w as int,
                None => 0,
            };
            let field = padded(text, width, align, fill);
            let left = padding_left((w - text.len()) as nat, align) as int;
            &&& text.len() < w ==> field.len() == w && field.subrange(left, left + text.len())
                == text && (forall|i: int|
                0 <= i < left || left + text.len() <= i < w ==> #[trigger] field[i] == fill)
            &&& text.len() >= w ==> field == text
        }),
{
    let w: int = match width {
        Some(w) => w as int,
        None => 0,
    };
    if text.len() < w {
        let padding = (w - text.len()) as nat;
        let left = padding_left(padding, align);
        let field = padded(text, width, align, fill);
        assert(field == repeated(fill, left) + text + repeated(fill, (padding - left) as nat));
        assert(field.subrange(left as int, left + text.len() as int) =~= text);
    }
}

/// Where padding goes, for every amount of padding: left alignment (the default) puts it
/// all after the text, right alignment all before, and center alignment splits it with
/// the smaller half before, so the two sides differ by at most one fill character.
pub proof fn lemma_padding_placement(text: Seq<char>, width: usize, fill: char)
    requires
        text.len() < width,
    ensures
        ({
            let p = (width - text.len()) as nat;
            &&& padded(text, Some(width), None, fill) == text + repeated(fill, p)
            &&& padded(text, Some(width), Some(Alignment::Left), fill) == text + repeated(fill, p)
            &&& padded(text, Some(width), Some(Alignment::Right), fill) == repeated(fill, p) + text
            &&& padded(text, Some(width), Some(Alignment::Center), fill) == repeated(fill, p / 2)
                + text + repeated(fill, (p - p / 2) as nat)
            &&& p / 2 <= p - p / 2 <= p / 2 + 1
        }),
{
    let p = (width - text.len()) as nat;
    assert(repeated(fill, 0) + text =~= text);
    assert(repeated(fill, 0) + text + repeated(fill, p) =~= text + repeated(fill, p));
    assert(repeated(fill, p) + text + repeated(fill, 0) =~= repeated(fill, p) + text);
}

/// Printable ASCII other than the backslash and the double quote (single quotes
/// included) is written as it is in debug output.
pub proof fn lemma_printable_unescaped(c: char)
    requires
        0x20 <= (c as u32) <= 0x7e,
        c != '\\',
        c != '"',
    ensures
        char_debug(c) == seq![c],
{
}

/// Text made only of printable ASCII other than the backslash and the double quote is its
/// own debug output.
pub proof fn lemma_printable_text_unescaped(s: Seq<char>)
    requires
        forall|i: int|
            0 <= i < s.len() ==> 0x20 <= (#[trigger] s[i] as u32) <= 0x7e && s[i] != '\\' && s[i]
                != '"',
    ensures
        debug_escaped(s) == s,
    decreases s.len(),
{
    if s.len() > 0 {
        lemma_printable_text_unescaped(s.drop_last());
        lemma_printable_unescaped(s.last());
        assert(s.drop_last().push(s.last()) =~= s);
    }
}

/// The text of the first `i` pieces followed by the rest: the text of all pieces.
proof fn lemma_joined_split(s: Seq<Seq<char>>, i: int)
    requires
        0 <= i < s.len(),
    ensures
        joined(s) == joined(s.take(i)) + s[i] + joined(s.skip(i + 1)),
{
    lemma_joined_append(s.take(i), s.skip(i));
    assert(s.take(i) + s.skip(i) =~= s);
    lemma_joined_append(seq![s[i]], s.skip(i + 1));
    assert(seq![s[i]] + s.skip(i + 1) =~= s.skip(i));
    assert(seq![s[i]].drop_last() =~= Seq::<Seq<char>>::empty());
    assert(joined(Seq::<Seq<char>>::empty()) =~= Seq::<char>::empty());
    assert(joined(seq![s[i]]) =~= s[i]);
}

/// The first `i + 1` pieces are the first `i` and then the piece at `i`.
proof fn lemma_joined_take_next(s: Seq<Seq<char>>, i: int)
    requires
        0 <= i < s.len(),
    ensures
        joined(s.take(i + 1)) == joined(s.take(i)) + s[i],
{
    assert(s.take(i + 1).drop_last() =~= s.take(i));
}

/// Append `n` copies of `c` to a string.
fn push_repeated(out: &mut String, c: char, n: usize)
    ensures
        final(out)@ == old(out)@ + repeated(c, n as nat),
{
    let mut k: usize = 0;
    while k < n
        invariant
            k <= n,
            out@ == old(out)@ + repeated(c, k as nat),
        decreases n - k,
    {
        push_char(out, c);
        k = k + 1;
        assert(out@ =~= old(out)@ + repeated(c, k as nat));
    }
}

/// Escape text as `str`'s debug output does, without the surrounding quotes.
pub fn debug_str(s: &str) -> (escaped: String)
    ensures
        escaped@ == debug_escaped(s@),
{
    broadcast use vstd::string::group_string_axioms;

    let mut out = String::new();
    for c in it: s.chars()
        invariant
            it.seq() == s@,
            out@ == debug_escaped(s@.take(it.index() as int)),
    {
        assert(s@.take(it.index() as int + 1).drop_last() =~= s@.take(it.index() as int));
        if (c as u32) > 0x7e || (c as u32) < 0x20 || c == '\\' || c == '"' {
            let escape = escape_debug(c);
            if escape.as_str().unicode_len() != 1 {
                out.append(escape.as_str());
            } else {
                push_char(&mut out, c);
            }
        } else {
            push_char(&mut out, c);
        }
    }
    assert(s@.take(s@.len() as int) =~= s@);
    out
}

/// The details of an error number: its message as the pieces a lossy UTF-8 decoding of
/// the C library's bytes gives (valid text, and a replacement character for each run of
/// invalid bytes).
pub struct Details {
    pieces: Vec<String>,
}

impl View for Details {
    type V = Seq<Seq<char>>;

    closed spec fn view(&self) -> Seq<Seq<char>> {
        self.pieces.deep_view()
    }
}

impl Details {
    /// The details shown by the given UTF-8 chunks of a message.
    pub fn from_chunks(chunks: &Vec<(String, usize)>) -> (details: Details)
        ensures
            details@ == lossy_pieces(chunks.deep_view()),
    {
        Details { pieces: lossy_pieces_from_chunks(chunks) }
    }

    /// The details of a message, given as the bytes the C library wrote.
    pub fn new(message: &[u8]) -> (details: Details)
        ensures
            details@ == lossy_pieces(utf8_chunks_of(message@)),
    {
        let chunks = utf8_chunks(message);
        Details::from_chunks(&chunks)
    }

    /// The number of pieces.
    pub fn len(&self) -> (n: usize)
        ensures
            n == self@.len(),
    {
        self.pieces.len()
    }

    /// The piece at `index`.
    pub fn piece(&self, index: usize) -> (piece: &str)
        requires
            index < self@.len(),
        ensures
            piece@ == self@[index as int],
    {
        self.pieces[index].as_str()
    }

    /// The whole text of the details.
    pub fn text(&self) -> (text: String)
        ensures
            text@ == joined(self@),
    {
        let mut out = String::new();
        let mut i: usize = 0;
        while i < self.pieces.len()
            invariant
                i <= self@.len(),
                out@ == joined(self@.take(i as int)),
            decreases self@.len() - i,
        {
            proof {
                lemma_joined_take_next(self@, i as int);
            }
            out.append(self.pieces[i].as_str());
            i = i + 1;
        }
        assert(self@.take(self@.len() as int) =~= self@);
        out
    }

    /// The first `max_char_count` characters of the details, and how many characters
    /// that is.
    pub fn with_max(&self, max_char_count: usize) -> (r: (usize, String))
        ensures
            r.0 == (if joined(self@).len() <= max_char_count {
                joined(self@).len()
            } else {
                max_char_count as nat
            }),
            r.1@ == joined(self@).take(r.0 as int),
    {
        let mut out = String::new();
        let mut count: usize = 0;
        let mut i: usize = 0;
        while i < self.pieces.len()
            invariant
                i <= self@.len(),
                out@ == joined(self@.take(i as int)),
                count == out@.len(),
                count <= max_char_count,
            decreases self@.len() - i,
        {
            let piece = self.pieces[i].as_str();
            let len = piece.unicode_len();
            proof {
                lemma_joined_take_next(self@, i as int);
                lemma_joined_split(self@, i as int);
            }
            if len <= max_char_count - count {
                out.append(piece);
                count = count + len;
                i = i + 1;
            } else {
                let rest = max_char_count - count;
                let part = piece.substring_char(0, rest);
                out.append(part);
                proof {
                    let all = joined(self@);
                    assert(out@ =~= all.take(max_char_count as int));
                }
                return (max_char_count, out);
            }
        }
        assert(self@.take(self@.len() as int) =~= self@);
        assert(out@ =~= joined(self@).take(count as int));
        (count, out)
    }

    /// The details as `str` shows text: cut to `precision` characters if given, then
    /// padded with `fill` to `width` characters if given, by `align` (left by default).
    pub fn display(
        &self,
        precision: Option<usize>,
        width: Option<usize>,
        align: Option<Alignment>,
        fill: char,
    ) -> (shown_text: String)
        ensures
            shown_text@ == padded(shown(joined(self@), precision), width, align, fill),
    {
        let (count, text) = match precision {
            Some(max) => self.with_max(max),
            None => {
                let text = self.text();
                (text.as_str().unicode_len(), text)
            },
        };
        assert(text@ == shown(joined(self@), precision));
        let w: usize = match width {
            Some(w) => w,
            None => 0,
        };
        if count < w {
            let padding = w - count;
            let left: usize = match align {
                Some(Alignment::Right) => padding,
                Some(Alignment::Center) => padding / 2,
                _ => 0,
            };
            let mut out = String::new();
            push_repeated(&mut out, fill, left);
            out.append(text.as_str());
            push_repeated(&mut out, fill, padding - left);
            out
        } else {
            text
        }
    }

    /// The details as `str`'s debug output shows them: escaped, in double quotes.
    pub fn debug(&self) -> (quoted: String)
        ensures
            quoted@ == seq!['"'] + joined(escaped_pieces(self@)) + seq!['"'],
    {
        let mut out = String::new();
        push_char(&mut out, '"');
        let mut i: usize = 0;
        while i < self.pieces.len()
            invariant
                i <= self@.len(),
                out@ == seq!['"'] + joined(escaped_pieces(self@).take(i as int)),
            decreases self@.len() - i,
        {
            proof {
                lemma_joined_take_next(escaped_pieces(self@), i as int);
            }
            let escaped = debug_str(self.pieces[i].as_str());
            out.append(escaped.as_str());
            i = i + 1;
        }
        assert(escaped_pieces(self@).take(self@.len() as int) =~= escaped_pieces(self@));
        push_char(&mut out, '"');
        out
    }
}

} // verus!
