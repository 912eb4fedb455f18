//! Framing of the daemon's byte stream: a frame is everything up to and
//! including the next prompt, which comes without a line feed.

use crate::error::VcontroldError;
use crate::text::{decode_lossy, find, lemma_find_from, occurs_at, trim, utf8_lossy};
use crate::vcontrold::protocol::{extract_response_spec, prompt};
use vstd::prelude::*;
use vstd::utf8::{
    decode_utf8, encode_utf8, encode_utf8_decode_utf8, encode_utf8_valid_utf8, is_ascii_chars,
    is_ascii_chars_encode_utf8, valid_utf8,
};

verus! {

/// The bytes of the prompt as they stand on the wire: the codes of its
/// characters.
pub open spec fn prompt_bytes() -> Seq<u8> {
    prompt().map_values(|c: char| c as u8)
}

/// Whether `bytes` end with the prompt.
pub open spec fn ends_with_prompt(bytes: Seq<u8>) -> bool {
    prompt_bytes().is_suffix_of(bytes)
}

/// The least length `n`, at least `from`, at which the first `n` bytes of
/// `stream` end with the prompt.
pub open spec fn frame_len_from(stream: Seq<u8>, from: int) -> Option<int>
    decreases stream.len() - from + 1,
{
    if from < 0 || from > stream.len() {
        None
    } else if ends_with_prompt(stream.take(from)) {
        Some(from)
    } else {
        frame_len_from(stream, from + 1)
    }
}

/// The length of the frame at the head of `stream`: the bytes up to and
/// including the first prompt. `None` where `stream` holds no prompt.
pub open spec fn frame_len(stream: Seq<u8>) -> Option<int> {
    frame_len_from(stream, 0)
}

/// [`frame_len_from`] finds the least length at which a prompt ends, and
/// `None` only where there is none.
pub proof fn lemma_frame_len_from(stream: Seq<u8>, from: int)
    requires
        0 <= from,
    ensures
        match frame_len_from(stream, from) {
            Some(n) => from <= n <= stream.len() && ends_with_prompt(stream.take(n)) && forall|
                k: int,
            | from <= k < n ==> !ends_with_prompt(#[trigger] stream.take(k)),
            None => forall|k: int|
                from <= k <= stream.len() ==> !ends_with_prompt(#[trigger] stream.take(k)),
        },
    decreases stream.len() - from + 1,
{
    if from > stream.len() {
    } else if ends_with_prompt(stream.take(from)) {
    } else {
        lemma_frame_len_from(stream, from + 1);
    }
}

/// A frame ends where the bytes first end with the prompt, and what follows
/// the frame does not change it: a stream and the same stream with more
/// bytes behind it have the same frame.
pub proof fn lemma_frame_ignores_trailing(stream: Seq<u8>, trailing: Seq<u8>)
    requires
        frame_len(stream) is Some,
    ensures
        frame_len(stream + trailing) == frame_len(stream),
        (stream + trailing).take(frame_len(stream + trailing).unwrap()) == stream.take(
            frame_len(stream).unwrap(),
        ),
{
    let longer = stream + trailing;
    let n = frame_len(stream).unwrap();
    lemma_frame_len_from(stream, 0);
    lemma_frame_len_from(longer, 0);
    assert forall|k: int| 0 <= k <= n implies #[trigger] longer.take(k) == stream.take(k) by {
        assert(longer.take(k) =~= stream.take(k));
    }
    match frame_len(longer) {
        Some(m) => {
            if m < n {
                assert(longer.take(m) == stream.take(m));
            } else if m > n {
                assert(longer.take(n) == stream.take(n));
            }
        },
        None => {
            assert(longer.take(n) == stream.take(n));
        },
    }
}

/// The text of a frame: its bytes decoded as UTF-8 where they are valid
/// UTF-8, and otherwise with a replacement character for every sequence
/// that is not.
pub open spec fn frame_text(frame: Seq<u8>) -> Seq<char> {
    if valid_utf8(frame) {
        decode_utf8(frame)
    } else {
        utf8_lossy(frame)
    }
}

/// Whether every byte of `bytes` is an ASCII character.
pub open spec fn is_ascii_bytes(bytes: Seq<u8>) -> bool {
    forall|i: int| 0 <= i < bytes.len() ==> bytes[i] < 0x80
}

/// The characters that ASCII bytes stand for.
pub open spec fn ascii_text(bytes: Seq<u8>) -> Seq<char> {
    bytes.map_values(|b: u8| b as char)
}

/// ASCII bytes are valid UTF-8 and decode to the characters they stand for.
pub proof fn lemma_ascii_decodes(bytes: Seq<u8>)
    requires
        is_ascii_bytes(bytes),
    ensures
        valid_utf8(bytes),
        decode_utf8(bytes) == ascii_text(bytes),
{
    let chars = ascii_text(bytes);
    assert(is_ascii_chars(chars));
    is_ascii_chars_encode_utf8(chars);
    assert(encode_utf8(chars) =~= bytes) by {
        assert forall|i: int| 0 <= i < bytes.len() implies encode_utf8(chars)[i] == bytes[i] by {
            assert(chars[i] as u8 == encode_utf8(chars)[i]);
        }
    }
    encode_utf8_valid_utf8(chars);
    encode_utf8_decode_utf8(chars);
}

/// For a stream whose frame is all ASCII, the response found in the text
/// of the frame is what stands before the stream's first prompt, trimmed.
pub proof fn lemma_ascii_response(stream: Seq<u8>)
    requires
        frame_len(stream) is Some,
        is_ascii_bytes(stream.take(frame_len(stream).unwrap())),
    ensures
        extract_response_spec(frame_text(stream.take(frame_len(stream).unwrap()))) == Some(
            trim(ascii_text(stream.take(frame_len(stream).unwrap() - prompt_bytes().len()))),
        ),
{
    let n = frame_len(stream).unwrap();
    let frame = stream.take(n);
    let text = ascii_text(frame);
    lemma_frame_len_from(stream, 0);
    lemma_ascii_decodes(frame);
    assert(prompt_bytes().len() == 7);
    assert(frame.subrange(n - 7, n) == prompt_bytes());
    assert forall|i: int| 0 <= i < 7 implies text.subrange(n - 7, n)[i] == prompt()[i] by {
        assert(frame.subrange(n - 7, n)[i] == prompt_bytes()[i]);
        assert(text[n - 7 + i] == frame[n - 7 + i] as char);
        assert(prompt_bytes()[i] == prompt()[i] as u8);
        assert((prompt()[i] as u8) as char == prompt()[i]);
    }
    assert(text.subrange(n - 7, n) =~= prompt());
    assert(occurs_at(text, prompt(), n - 7));
    assert forall|j: int| 0 <= j < n - 7 implies !occurs_at(text, prompt(), j) by {
        if occurs_at(text, prompt(), j) {
            let part = stream.take(j + 7);
            assert forall|i: int| 0 <= i < 7 implies part.subrange(j, j + 7)[i]
                == prompt_bytes()[i] by {
                assert(text.subrange(j, j + 7)[i] == prompt()[i]);
                assert(text[j + i] == frame[j + i] as char);
                assert(part[j + i] == frame[j + i]);
            }
            assert(part.subrange(j, j + 7) =~= prompt_bytes());
            assert(ends_with_prompt(part));
        }
    }
    lemma_find_from(text, prompt(), 0);
    assert(find(text, prompt()) == Some(n - 7));
    assert(text.take(n - 7) =~= ascii_text(stream.take(n - 7)));
}

/// Collects the bytes of a stream up to the first prompt.
pub struct FrameReader {
    raw: Vec<u8>,
}

impl View for FrameReader {
    type V = Seq<u8>;

    closed spec fn view(&self) -> Seq<u8> {
        self.raw@
    }
}

impl FrameReader {
    #[verifier::type_invariant]
    spec fn inv(self) -> bool {
        forall|k: int| 0 <= k < self.raw@.len() ==> !ends_with_prompt(#[trigger] self.raw@.take(k))
    }

    /// Whether the bytes collected so far end with the prompt.
    pub open spec fn is_complete(&self) -> bool {
        ends_with_prompt(self@)
    }

    /// A reader that has collected nothing.
    pub fn new() -> (r: FrameReader)
        ensures
            r@ == Seq::<u8>::empty(),
    {
        FrameReader { raw: Vec::new() }
    }

    /// Whether the bytes collected so far end with the prompt.
    pub fn complete(&self) -> (r: bool)
        ensures
            r == self.is_complete(),
    {
        let n: usize = self.raw.len();
        if n < 7 {
            return false;
        }
        // The last seven bytes against `v`, `c`, `t`, `r`, `l`, `d`, `>`.
        let r: bool = self.raw[n - 7] == 0x76 && self.raw[n - 6] == 0x63 && self.raw[n - 5] == 0x74
            && self.raw[n - 4] == 0x72 && self.raw[n - 3] == 0x6c && self.raw[n - 2] == 0x64
            && self.raw[n - 1] == 0x3e;
        proof {
            let tail = self.raw@.subrange(n - 7, n as int);
            let wanted = prompt_bytes();
            assert(wanted.len() == 7 && wanted[0] == 0x76 && wanted[1] == 0x63 && wanted[2] == 0x74
                && wanted[3] == 0x72 && wanted[4] == 0x6c && wanted[5] == 0x64 && wanted[6]
                == 0x3e);
            if r {
                assert(wanted =~= tail);
            } else if wanted =~= tail {
                assert(tail[0] == 0x76 && tail[1] == 0x63 && tail[2] == 0x74 && tail[3] == 0x72
                    && tail[4] == 0x6c && tail[5] == 0x64 && tail[6] == 0x3e);
            }
        }
        r
    }

    /// Takes the next byte of the stream and says whether the frame is now
    /// complete. A reader whose frame is complete takes no more bytes.
    pub fn push(&mut self, byte: u8) -> (done: bool)
        ensures
            final(self)@ == if old(self).is_complete() {
                old(self)@
            } else {
                old(self)@.push(byte)
            },
            done == final(self).is_complete(),
    {
        if self.complete() {
            return true;
        }
        let mut taken: FrameReader = FrameReader::new();
        std::mem::swap(self, &mut taken);
        proof {
            use_type_invariant(&taken);
        }
        let mut raw: Vec<u8> = taken.raw;
        let ghost before = raw@;
        raw.push(byte);
        proof {
            assert forall|k: int| 0 <= k < raw@.len() implies !ends_with_prompt(
                #[trigger] raw@.take(k),
            ) by {
                assert(raw@.take(k) =~= before.take(k));
                if k == before.len() {
                    assert(before.take(k) =~= before);
                }
            }
        }
        *self = FrameReader { raw };
        self.complete()
    }

    /// The bytes collected, decoded as text: invalid UTF-8 sequences become
    /// replacement characters.
    pub fn into_text(self) -> (r: String)
        ensures
            r@ == frame_text(self@),
    {
        decode_lossy(self.raw.as_slice())
    }
}

/// Reads `stream` up to and including its first prompt and returns those
/// bytes as text. A stream that ends before a prompt is a lost connection.
pub fn read_until_prompt(stream: &[u8]) -> (r: Result<String, VcontroldError>)
    ensures
        match r {
            Ok(text) => frame_len(stream@) is Some && text@ == frame_text(
                stream@.take(frame_len(stream@).unwrap()),
            ),
            Err(e) => frame_len(stream@) is None && e is ConnectionLost,
        },
{
    let mut reader: FrameReader = FrameReader::new();
    let n: usize = stream.len();
    let mut i: usize = 0;
    proof {
        assert(stream@.take(0) =~= reader@);
        lemma_frame_len_from(stream@, 0);
    }
    while i < n
        invariant
            i <= n == stream@.len(),
            reader@ == stream@.take(i as int),
            !reader.is_complete(),
            forall|k: int| 0 <= k <= i ==> !ends_with_prompt(#[trigger] stream@.take(k)),
        decreases n - i,
    {
        let done: bool = reader.push(stream[i]);
        assert(stream@.take(i as int).push(stream@[i as int]) =~= stream@.take(i + 1));
        i = i + 1;
        if done {
            proof {
                lemma_frame_len_from(stream@, 0);
            }
            return Ok(reader.into_text());
        }
    }
    proof {
        lemma_frame_len_from(stream@, 0);
    }
    Err(VcontroldError::ConnectionLost)
}

} // verus!
