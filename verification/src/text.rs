//! Text that comes from outside the program: byte strings decoded lossily as UTF-8, the
//! pieces they are shown in, and the escaping used to show them as debug output.
use vstd::prelude::*;

verus! {

/// The chunks that std's `<[u8]>::utf8_chunks` splits a byte string into: each chunk is
/// the longest valid UTF-8 text, as characters, followed by the number of invalid bytes
/// after it.
pub uninterp spec fn utf8_chunks_of(bytes: Seq<u8>) -> Seq<(Seq<char>, usize)>;

/// What std's `char::escape_debug` writes for a character.
pub uninterp spec fn escape_debug_of(c: char) -> Seq<char>;

/// Split a byte string into its UTF-8 chunks: calls std's `<[u8]>::utf8_chunks` and
/// copies each chunk's valid text and the length of its invalid bytes.
///
/// The contract claims only that the result is what `utf8_chunks` gives for these bytes.
#[verifier::external_body]
pub(crate) fn utf8_chunks(bytes: &[u8]) -> (chunks: Vec<(String, usize)>)
    ensures
        chunks.deep_view() == utf8_chunks_of(bytes@),
{
    let mut chunks = Vec::new();
    for chunk in bytes.utf8_chunks() {
        chunks.push((chunk.valid().to_owned(), chunk.invalid().len()));
    }
    chunks
}

/// The characters that std's `char::escape_debug` gives for `c`, collected into a string.
///
/// The contract claims only that the result is what `escape_debug` gives for `c`.
#[verifier::external_body]
pub(crate) fn escape_debug(c: char) -> (escaped: String)
    ensures
        escaped@ == escape_debug_of(c),
{
    c.escape_debug().collect()
}

/// Append a character to a string with std's `String::push`, which the documentation
/// describes as appending the character to the end of the string.
#[verifier::external_body]
pub(crate) fn push_char(s: &mut String, c: char)
    ensures
        final(s)@ == old(s)@.push(c),
{
    s.push(c);
}

/// The Unicode replacement character, shown in place of invalid UTF-8.
pub const REPLACEMENT: char = '\u{FFFD}';

/// The pieces are written one after the other.
pub open spec fn joined(pieces: Seq<Seq<char>>) -> Seq<char>
    decreases pieces.len(),
{
    if pieces.len() == 0 {
        Seq::empty()
    } else {
        joined(pieces.drop_last()) + pieces.last()
    }
}

/// The pieces that one chunk is shown as: its valid text, unless that is empty, then a
/// replacement character if invalid bytes followed it.
pub open spec fn chunk_pieces(chunk: (Seq<char>, usize)) -> Seq<Seq<char>> {
    let valid = if chunk.0.len() > 0 {
        seq![chunk.0]
    } else {
        Seq::empty()
    };
    if chunk.1 > 0 {
        valid.push(seq![REPLACEMENT])
    } else {
        valid
    }
}

/// The pieces that a sequence of chunks is shown as, chunk after chunk.
pub open spec fn lossy_pieces(chunks: Seq<(Seq<char>, usize)>) -> Seq<Seq<char>>
    decreases chunks.len(),
{
    if chunks.len() == 0 {
        Seq::empty()
    } else {
        lossy_pieces(chunks.drop_last()) + chunk_pieces(chunks.last())
    }
}

/// The text of a byte string decoded lossily: its valid UTF-8 with a replacement
/// character for each run of invalid bytes.
pub open spec fn lossy_text(bytes: Seq<u8>) -> Seq<char> {
    joined(lossy_pieces(utf8_chunks_of(bytes)))
}

/// Joining two runs of pieces joins their texts.
pub proof fn lemma_joined_append(a: Seq<Seq<char>>, b: Seq<Seq<char>>)
    ensures
        joined(a + b) == joined(a) + joined(b),
    decreases b.len(),
{
    if b.len() == 0 {
        assert(a + b =~= a);
        assert(joined(b) =~= Seq::<char>::empty());
        assert(joined(a) + joined(b) =~= joined(a));
    } else {
        assert((a + b).drop_last() =~= a + b.drop_last());
        lemma_joined_append(a, b.drop_last());
        assert(joined(a) + joined(b) =~= joined(a) + joined(b.drop_last()) + b.last());
    }
}

/// Every piece that a sequence of chunks is shown as is non-empty: a non-empty run of
/// valid text, or the single replacement character for a run of invalid bytes.
pub proof fn lemma_lossy_pieces_nonempty(chunks: Seq<(Seq<char>, usize)>)
    ensures
        forall|i: int|
            0 <= i < lossy_pieces(chunks).len() ==> #[trigger] lossy_pieces(chunks)[i].len() > 0,
    decreases chunks.len(),
{
    if chunks.len() > 0 {
        lemma_lossy_pieces_nonempty(chunks.drop_last());
        let before = lossy_pieces(chunks.drop_last());
        let last = chunk_pieces(chunks.last());
        assert forall|i: int| 0 <= i < lossy_pieces(chunks).len() implies #[trigger] lossy_pieces(
            chunks,
        )[i].len() > 0 by {
            if i < before.len() {
                assert(lossy_pieces(chunks)[i] == before[i]);
            } else {
                assert(lossy_pieces(chunks)[i] == last[i - before.len()]);
            }
        }
    }
}

/// The pieces of two runs of chunks are the pieces of the first run, then those of the
/// second.
proof fn lemma_lossy_pieces_append(a: Seq<(Seq<char>, usize)>, b: Seq<(Seq<char>, usize)>)
    ensures
        lossy_pieces(a + b) == lossy_pieces(a) + lossy_pieces(b),
    decreases b.len(),
{
    if b.len() == 0 {
        assert(a + b =~= a);
        assert(lossy_pieces(a) + lossy_pieces(b) =~= lossy_pieces(a));
    } else {
        assert((a + b).drop_last() =~= a + b.drop_last());
        lemma_lossy_pieces_append(a, b.drop_last());
        assert(lossy_pieces(a) + lossy_pieces(b) =~= lossy_pieces(a) + lossy_pieces(b.drop_last())
            + chunk_pieces(b.last()));
    }
}

/// The lossily decoded text of a sequence of chunks is the text of each chunk in turn,
/// every chunk kept: a chunk shows its valid text followed by one replacement character
/// when invalid bytes followed it, and no chunks show nothing.
pub proof fn lemma_lossy_text_of_chunks(
    a: Seq<(Seq<char>, usize)>,
    b: Seq<(Seq<char>, usize)>,
    c: (Seq<char>, usize),
)
    ensures
        joined(lossy_pieces(a + b)) == joined(lossy_pieces(a)) + joined(lossy_pieces(b)),
        joined(lossy_pieces(seq![c])) == c.0 + (if c.1 > 0 {
            seq![REPLACEMENT]
        } else {
            Seq::empty()
        }),
        joined(lossy_pieces(Seq::<(Seq<char>, usize)>::empty())) == Seq::<char>::empty(),
{
    lemma_lossy_pieces_append(a, b);
    lemma_joined_append(lossy_pieces(a), lossy_pieces(b));
    let e = Seq::<(Seq<char>, usize)>::empty();
    assert(seq![c].drop_last() =~= e);
    assert(seq![c].last() == c);
    assert(lossy_pieces(e) =~= Seq::<Seq<char>>::empty());
    assert(lossy_pieces(seq![c]) == lossy_pieces(e) + chunk_pieces(c));
    assert(lossy_pieces(seq![c]) =~= chunk_pieces(c));
    let v: Seq<Seq<char>> = if c.0.len() > 0 {
        seq![c.0]
    } else {
        Seq::empty()
    };
    assert(joined(Seq::<Seq<char>>::empty()) =~= Seq::<char>::empty());
    if c.0.len() > 0 {
        assert(v.drop_last() =~= Seq::<Seq<char>>::empty());
        assert(joined(v) =~= c.0);
    } else {
        assert(joined(v) =~= c.0);
    }
    if c.1 > 0 {
        assert(v.push(seq![REPLACEMENT]).drop_last() =~= v);
        assert(joined(chunk_pieces(c)) =~= c.0 + seq![REPLACEMENT]);
    } else {
        assert(joined(chunk_pieces(c)) =~= c.0 + Seq::<char>::empty());
    }
}

/// The pieces of the chunks, each as one piece: the pieces that a sequence of chunks is
/// shown as.
pub fn lossy_pieces_from_chunks(chunks: &Vec<(String, usize)>) -> (pieces: Vec<String>)
    ensures
        pieces.deep_view() == lossy_pieces(chunks.deep_view()),
{
    let mut pieces: Vec<String> = Vec::new();
    let mut i: usize = 0;
    while i < chunks.len()
        invariant
            i <= chunks.len(),
            pieces.deep_view() == lossy_pieces(chunks.deep_view().take(i as int)),
        decreases chunks.len() - i,
    {
        let ghost before = pieces.deep_view();
        let chunk = &chunks[i];
        assert(chunks.deep_view().take(i as int + 1).drop_last() =~= chunks.deep_view().take(
            i as int,
        ));
        assert(chunk.deep_view() == chunks.deep_view()[i as int]);
        if !chunk.0.as_str().is_empty() {
            pieces.push(chunk.0.clone());
        }
        if chunk.1 > 0 {
            let mut replacement = String::new();
            push_char(&mut replacement, REPLACEMENT);
            pieces.push(replacement);
        }
        assert(pieces.deep_view() =~= before + chunk_pieces(chunk.deep_view()));
        i = i + 1;
    }
    assert(chunks.deep_view().take(chunks.len() as int) =~= chunks.deep_view());
    pieces
}

} // verus!
