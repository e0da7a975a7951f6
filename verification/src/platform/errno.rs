//! Linux error numbers, as the C library reports them.
use vstd::prelude::*;
use std::io;
use crate::sys::syscall::{io_error_from_raw_os_error, io_error_kind, io_error_kind_of, io_error_of};
use vstd::utf8::encode_utf8;
use crate::sys::errno::ERANGE;
use crate::text::{joined, lemma_lossy_text_of_chunks, lossy_pieces, lossy_pieces_from_chunks, utf8_chunks, utf8_chunks_of};

verus! {

/// The length of the buffers that an error message is written to and decoded in.
pub const MESSAGE_BUFFER_LEN: usize = 512;

/// The message text that the UTF-8 chunks of a message are shown as, decoded into a
/// scratch buffer of `scratch_len` bytes: no chunk gives an empty message, a first chunk
/// without invalid bytes is the whole message, and otherwise the lossy decoding is used
/// if its UTF-8 fits in the scratch buffer, and `ERANGE` is reported if it does not.
pub open spec fn formatted_chunks(chunks: Seq<(Seq<char>, usize)>, scratch_len: usize) -> Result<
    Seq<char>,
    Errno,
> {
    if chunks.len() == 0 {
        Ok(Seq::empty())
    } else if chunks[0].1 == 0 {
        Ok(chunks[0].0)
    } else if encode_utf8(joined(lossy_pieces(chunks))).len() <= scratch_len {
        Ok(joined(lossy_pieces(chunks)))
    } else {
        Err(Errno(ERANGE))
    }
}

/// A type alias for raw OS errors (a C `int`).
pub type RawOsError = i32;

/// A Linux error number.
///
/// It is a transparent wrapper around [`RawOsError`].
#[derive(Debug, Clone, Copy, PartialEq, Eq, Structural, PartialOrd, Ord, Default, Hash)]
pub struct Errno(pub RawOsError);

/// An error message is shown whole: when the first chunk of the message has invalid bytes,
/// or the message is a single chunk, the text shown is the lossy decoding of every chunk of
/// it; with invalid bytes, it is shown exactly when its UTF-8 fits in the scratch buffer,
/// and the only failure is `ERANGE`.
pub proof fn lemma_format_keeps_every_chunk(chunks: Seq<(Seq<char>, usize)>, scratch_len: usize)
    ensures
        (chunks.len() <= 1 || chunks[0].1 > 0) ==> (formatted_chunks(chunks, scratch_len) matches Ok(
            text,
        ) ==> text == joined(lossy_pieces(chunks))),
        chunks.len() > 0 && chunks[0].1 > 0 ==> (formatted_chunks(chunks, scratch_len) is Ok
            <==> encode_utf8(joined(lossy_pieces(chunks))).len() <= scratch_len),
        formatted_chunks(chunks, scratch_len) matches Err(e) ==> e == Errno(ERANGE),
{
    if chunks.len() == 1 {
        lemma_lossy_text_of_chunks(Seq::empty(), Seq::empty(), chunks[0]);
        assert(seq![chunks[0]] =~= chunks);
        if chunks[0].1 == 0 {
            assert(chunks[0].0 + Seq::<char>::empty() =~= chunks[0].0);
        }
    } else if chunks.len() == 0 {
        lemma_lossy_text_of_chunks(Seq::empty(), Seq::empty(), (Seq::empty(), 0));
    }
}

impl Errno {
    /// The [`io::ErrorKind`] of this error number: the kind of the I/O error built from it.
    pub fn error_kind(self) -> (r: io::ErrorKind)
        ensures
            r == io_error_kind_of(io_error_of(self.0)),
    {
        let error = io_error_from_raw_os_error(self.0);
        io_error_kind(&error)
    }

    /// The outcome of asking the C library for the message of an error number
    /// (`strerror_r`): `0` means the message was written, a positive value is the error
    /// number of the failure itself, and a negative value means the failure was reported
    /// through `last`, the thread's last error number.
    pub fn message_status(result: i32, last: Errno) -> (r: Result<(), Errno>)
        ensures
            result == 0 ==> r is Ok,
            result > 0 ==> r == Err::<(), Errno>(Errno(result)),
            result < 0 ==> r == Err::<(), Errno>(last),
    {
        if result == 0 {
            Ok(())
        } else if result > 0 {
            Err(Errno(result))
        } else {
            Err(last)
        }
    }
}

impl Errno {
    /// The text that the UTF-8 chunks of a message are shown as (see
    /// [`formatted_chunks`]).
    pub fn format_chunks(chunks: &Vec<(String, usize)>, scratch_len: usize) -> (r: Result<
        String,
        Errno,
    >)
        ensures
            r is Ok <==> formatted_chunks(chunks.deep_view(), scratch_len) is Ok,
            r matches Ok(text) ==> formatted_chunks(chunks.deep_view(), scratch_len) == Ok::<
                Seq<char>,
                Errno,
            >(text@),
            r matches Err(e) ==> formatted_chunks(chunks.deep_view(), scratch_len) == Err::<
                Seq<char>,
                Errno,
            >(e),
    {
        if chunks.len() == 0 {
            return Ok(String::new());
        }
        if chunks[0].1 == 0 {
            assert(chunks[0].0@ == chunks.deep_view()[0].0);
            return Ok(chunks[0].0.clone());
        }
        let pieces = lossy_pieces_from_chunks(chunks);
        let mut text = String::new();
        let mut i: usize = 0;
        while i < pieces.len()
            invariant
                i <= pieces.deep_view().len(),
                text@ == joined(pieces.deep_view().take(i as int)),
            decreases pieces.deep_view().len() - i,
        {
            assert(pieces.deep_view().take(i as int + 1).drop_last() =~= pieces.deep_view().take(
                i as int,
            ));
            assert(pieces[i as int]@ == pieces.deep_view()[i as int]);
            text.append(pieces[i].as_str());
            i = i + 1;
        }
        assert(pieces.deep_view().take(pieces.len() as int) =~= pieces.deep_view());
        if text.as_str().as_bytes().len() <= scratch_len {
            Ok(text)
        } else {
            Err(Errno(ERANGE))
        }
    }

    /// The text that a message, given as the bytes the C library wrote, is shown as when
    /// it is decoded into a scratch buffer of `scratch_len` bytes (see
    /// [`formatted_chunks`]).
    pub fn format_message(message: &[u8], scratch_len: usize) -> (r: Result<String, Errno>)
        ensures
            r is Ok <==> formatted_chunks(utf8_chunks_of(message@), scratch_len) is Ok,
            r matches Ok(text) ==> formatted_chunks(utf8_chunks_of(message@), scratch_len)
                == Ok::<Seq<char>, Errno>(text@),
            r matches Err(e) ==> formatted_chunks(utf8_chunks_of(message@), scratch_len)
                == Err::<Seq<char>, Errno>(e),
    {
        let chunks = utf8_chunks(message);
        Errno::format_chunks(&chunks, scratch_len)
    }
}

impl From<RawOsError> for Errno {
    fn from(errno: RawOsError) -> (r: Errno)
        ensures
            r.0 == errno,
    {
        Errno(errno)
    }
}

impl vstd::std_specs::convert::FromSpecImpl<RawOsError> for Errno {
    open spec fn obeys_from_spec() -> bool {
        true
    }

    open spec fn from_spec(v: RawOsError) -> Errno {
        Errno(v)
    }
}

impl From<Errno> for RawOsError {
    fn from(errno: Errno) -> (r: RawOsError)
        ensures
            r == errno.0,
    {
        errno.0
    }
}

impl vstd::std_specs::convert::FromSpecImpl<Errno> for RawOsError {
    open spec fn obeys_from_spec() -> bool {
        true
    }

    open spec fn from_spec(v: Errno) -> RawOsError {
        v.0
    }
}

} // verus!
