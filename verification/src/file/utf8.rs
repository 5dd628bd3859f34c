//! Classifying a stream's leading bytes as human-readable text or likely
//! binary data: the bytes are decoded as UTF-8 permissively (every invalid
//! sequence becomes one replacement marker per maximal valid prefix), and the
//! stream counts as binary when more than a fixed threshold of the decoded
//! characters are replacement markers or non-printable control characters.
use crate::file::ReadRecorder;
use crate::source::{ByteSource, SourceError};
use vstd::prelude::*;

verus! {

/// The code point invalid byte sequences decode to.
pub const REPLACEMENT_CODEPOINT: u32 = 0xfffd;

/// How many replacement/control characters a prefix may hold before the
/// stream counts as binary.
pub const BINARY_CHAR_THRESHOLD: usize = 5;

/// How many leading bytes the classifier inspects.
pub const BUFFER_CHECK_AMOUNT: usize = 255;

/// Whether the code point `c` falls into the fixed table of non-printable
/// control / reserved ranges that mark a stream as binary: C0 controls other
/// than common whitespace, DEL, C1 controls, the line and paragraph
/// separators, surrogate bounds, and several private-use code points.
pub open spec fn is_binary_codepoint(c: u32) -> bool {
    ||| c <= 0x0007
    ||| c == 0x000b
    ||| (0x000e <= c && c <= 0x001f)
    ||| (0x007f <= c && c <= 0x009f)
    ||| c == 0x2028
    ||| c == 0x2029
    ||| c == 0xd800
    ||| (0xdb7f <= c && c <= 0xdb80)
    ||| (0xdbff <= c && c <= 0xdc00)
    ||| c == 0xdfff
    ||| c == 0xe000
    ||| c == 0xf8ff
    ||| c == 0xf0000
    ||| c == 0xffffd
    ||| c == 0x100000
    ||| c == 0x10fffd
}

/// Checks whether `c` is a code point that only binary data would contain;
/// see [`is_binary_codepoint`] for the table.
pub fn is_binary_char(c: u32) -> (r: bool)
    ensures
        r == is_binary_codepoint(c),
{
    c <= 0x0007 || c == 0x000b || (0x000e <= c && c <= 0x001f) || (0x007f <= c && c <= 0x009f) || c
        == 0x2028 || c == 0x2029 || c == 0xd800 || (0xdb7f <= c && c <= 0xdb80) || (0xdbff <= c && c
        <= 0xdc00) || c == 0xdfff || c == 0xe000 || c == 0xf8ff || c == 0xf0000 || c == 0xffffd || c
        == 0x100000 || c == 0x10fffd
}

/// Checks whether the permissive decoding replaced `c`, which indicates the
/// original bytes were not valid UTF-8.
pub fn was_utf8_char_replaced(c: u32) -> (r: bool)
    ensures
        r == (c == REPLACEMENT_CODEPOINT),
{
    c == REPLACEMENT_CODEPOINT
}

/// A UTF-8 continuation byte.
pub open spec fn is_continuation_byte(b: u8) -> bool {
    0x80 <= b && b <= 0xbf
}

/// The admissible second byte of a multi-byte sequence opened by `b0`. The
/// narrowed ranges keep overlong encodings, surrogates, and code points past
/// 0x10ffff out.
pub open spec fn is_valid_second_byte(b0: u8, b1: u8) -> bool {
    if b0 == 0xe0 {
        0xa0 <= b1 && b1 <= 0xbf
    } else if b0 == 0xed {
        0x80 <= b1 && b1 <= 0x9f
    } else if b0 == 0xf0 {
        0x90 <= b1 && b1 <= 0xbf
    } else if b0 == 0xf4 {
        0x80 <= b1 && b1 <= 0x8f
    } else {
        is_continuation_byte(b1)
    }
}

/// One step of the permissive UTF-8 decoding of `s` at position `i`: the
/// code point produced and how many bytes it consumed. A valid sequence is
/// consumed whole; an invalid one yields one replacement marker for its
/// maximal valid prefix (at least the one byte at `i`).
pub open spec fn decode_step_spec(s: Seq<u8>, i: int) -> (u32, int) {
    let b0 = s[i];
    if b0 < 0x80 {
        (b0 as u32, 1)
    } else if 0xc2 <= b0 && b0 <= 0xdf {
        if i + 1 < s.len() && is_continuation_byte(s[i + 1]) {
            ((((b0 - 0xc0) * 0x40) + (s[i + 1] - 0x80)) as u32, 2)
        } else {
            (REPLACEMENT_CODEPOINT, 1)
        }
    } else if 0xe0 <= b0 && b0 <= 0xef {
        if i + 1 < s.len() && is_valid_second_byte(b0, s[i + 1]) {
            if i + 2 < s.len() && is_continuation_byte(s[i + 2]) {
                ((((b0 - 0xe0) * 0x1000) + ((s[i + 1] - 0x80) * 0x40) + (s[i + 2] - 0x80)) as u32, 3)
            } else {
                (REPLACEMENT_CODEPOINT, 2)
            }
        } else {
            (REPLACEMENT_CODEPOINT, 1)
        }
    } else if 0xf0 <= b0 && b0 <= 0xf4 {
        if i + 1 < s.len() && is_valid_second_byte(b0, s[i + 1]) {
            if i + 2 < s.len() && is_continuation_byte(s[i + 2]) {
                if i + 3 < s.len() && is_continuation_byte(s[i + 3]) {
                    (
                        (((b0 - 0xf0) * 0x40000) + ((s[i + 1] - 0x80) * 0x1000) + ((s[i + 2] - 0x80)
                            * 0x40) + (s[i + 3] - 0x80)) as u32,
                        4,
                    )
                } else {
                    (REPLACEMENT_CODEPOINT, 3)
                }
            } else {
                (REPLACEMENT_CODEPOINT, 2)
            }
        } else {
            (REPLACEMENT_CODEPOINT, 1)
        }
    } else {
        (REPLACEMENT_CODEPOINT, 1)
    }
}

/// The permissive UTF-8 decoding of `s` from position `i` on.
pub open spec fn decode_from(s: Seq<u8>, i: int) -> Seq<u32>
    decreases s.len() - i,
{
    if i < 0 || i >= s.len() {
        Seq::empty()
    } else {
        seq![decode_step_spec(s, i).0] + decode_from(s, i + decode_step_spec(s, i).1)
    }
}

/// How many code points of `cps` are replacement markers or binary
/// characters.
pub open spec fn binary_char_count(cps: Seq<u32>) -> nat
    decreases cps.len(),
{
    if cps.len() == 0 {
        0
    } else {
        (if cps[0] == REPLACEMENT_CODEPOINT || is_binary_codepoint(cps[0]) {
            1nat
        } else {
            0nat
        }) + binary_char_count(cps.drop_first())
    }
}

/// Whether a prefix of `bytes`, decoded permissively, holds more
/// replacement/control characters than the threshold allows.
pub open spec fn is_likely_binary_spec(bytes: Seq<u8>) -> bool {
    binary_char_count(decode_from(bytes, 0)) > BINARY_CHAR_THRESHOLD
}

/// One step of the permissive decoding at position `i`.
fn decode_step(bytes: &Vec<u8>, i: usize) -> (r: (u32, usize))
    requires
        i < bytes@.len(),
    ensures
        r.0 == decode_step_spec(bytes@, i as int).0,
        r.1 == decode_step_spec(bytes@, i as int).1,
        1 <= r.1,
        i + r.1 <= bytes@.len(),
{
    let n = bytes.len();
    let b0 = bytes[i];
    if b0 < 0x80 {
        (b0 as u32, 1)
    } else if 0xc2 <= b0 && b0 <= 0xdf {
        if i + 1 < n && is_continuation(bytes[i + 1]) {
            (((b0 - 0xc0) as u32) * 0x40 + (bytes[i + 1] - 0x80) as u32, 2)
        } else {
            (REPLACEMENT_CODEPOINT, 1)
        }
    } else if 0xe0 <= b0 && b0 <= 0xef {
        if i + 1 < n && valid_second(b0, bytes[i + 1]) {
            if i + 2 < n && is_continuation(bytes[i + 2]) {
                (
                    ((b0 - 0xe0) as u32) * 0x1000 + ((bytes[i + 1] - 0x80) as u32) * 0x40 + (bytes[i
                        + 2] - 0x80) as u32,
                    3,
                )
            } else {
                (REPLACEMENT_CODEPOINT, 2)
            }
        } else {
            (REPLACEMENT_CODEPOINT, 1)
        }
    } else if 0xf0 <= b0 && b0 <= 0xf4 {
        if i + 1 < n && valid_second(b0, bytes[i + 1]) {
            if i + 2 < n && is_continuation(bytes[i + 2]) {
                if i + 3 < n && is_continuation(bytes[i + 3]) {
                    (
                        ((b0 - 0xf0) as u32) * 0x40000 + ((bytes[i + 1] - 0x80) as u32) * 0x1000 + (
                        (bytes[i + 2] - 0x80) as u32) * 0x40 + (bytes[i + 3] - 0x80) as u32,
                        4,
                    )
                } else {
                    (REPLACEMENT_CODEPOINT, 3)
                }
            } else {
                (REPLACEMENT_CODEPOINT, 2)
            }
        } else {
            (REPLACEMENT_CODEPOINT, 1)
        }
    } else {
        (REPLACEMENT_CODEPOINT, 1)
    }
}

/// Checks for a UTF-8 continuation byte.
fn is_continuation(b: u8) -> (r: bool)
    ensures
        r == is_continuation_byte(b),
{
    0x80 <= b && b <= 0xbf
}

/// Checks the admissible range of a multi-byte sequence's second byte.
fn valid_second(b0: u8, b1: u8) -> (r: bool)
    ensures
        r == is_valid_second_byte(b0, b1),
{
    if b0 == 0xe0 {
        0xa0 <= b1 && b1 <= 0xbf
    } else if b0 == 0xed {
        0x80 <= b1 && b1 <= 0x9f
    } else if b0 == 0xf0 {
        0x90 <= b1 && b1 <= 0xbf
    } else if b0 == 0xf4 {
        0x80 <= b1 && b1 <= 0x8f
    } else {
        is_continuation(b1)
    }
}

/// Classifies an already-read prefix: decodes it permissively and checks the
/// count of replacement/control characters against the threshold.
pub fn is_likely_binary_bytes(bytes: &Vec<u8>) -> (r: bool)
    ensures
        r == is_likely_binary_spec(bytes@),
{
    let n = bytes.len();
    let mut count: usize = 0;
    let mut i: usize = 0;
    while i < n
        invariant
            i <= n,
            count <= i,
            n == bytes@.len(),
            binary_char_count(decode_from(bytes@, 0)) == count + binary_char_count(
                decode_from(bytes@, i as int),
            ),
        decreases n - i,
    {
        let (cp, adv) = decode_step(bytes, i);
        let suspicious = was_utf8_char_replaced(cp) || is_binary_char(cp);
        proof {
            let rest = decode_from(bytes@, i as int);
            assert(rest =~= seq![cp] + decode_from(bytes@, i + adv));
            assert(rest.drop_first() =~= decode_from(bytes@, i + adv));
        }
        if suspicious {
            count += 1;
        }
        i += adv;
    }
    count > BINARY_CHAR_THRESHOLD
}

/// Reads up to [`BUFFER_CHECK_AMOUNT`] bytes from the source — once, and no
/// more — and reports whether that prefix looks like binary data rather than
/// text. Fails only if the underlying read itself fails; a short read is
/// classified like any other prefix.
pub fn is_file_likely_binary<S: ByteSource>(source: &mut S) -> (r: Result<bool, SourceError>)
    ensures
        match r {
            Ok(b) => {
                let pre = old(source).delivered();
                let post = final(source).delivered();
                &&& pre.len() <= post.len()
                &&& post.take(pre.len() as int) == pre
                &&& post.len() - pre.len() <= BUFFER_CHECK_AMOUNT
                &&& b == is_likely_binary_spec(post.skip(pre.len() as int))
            },
            Err(_) => final(source).delivered() == old(source).delivered(),
        },
{
    let chunk = match source.read(BUFFER_CHECK_AMOUNT) {
        Ok(c) => c,
        Err(e) => {
            return Err(e);
        },
    };
    let r = is_likely_binary_bytes(&chunk);
    proof {
        let pre = old(source).delivered();
        let post = source.delivered();
        assert(post.take(pre.len() as int) =~= pre);
        assert(post.skip(pre.len() as int) =~= chunk@);
    }
    Ok(r)
}

/// Records a prefix of up to [`BUFFER_CHECK_AMOUNT`] bytes of a fresh
/// recorder's stream, classifies it, then stops recording and rewinds, so
/// that a later full read sees the stream from its very first byte again.
/// On success the recording holds exactly the classified prefix — read from
/// the source once, and owed to the next reads by the replay cursor at its
/// start. When the read itself fails, nothing was consumed or buffered and
/// the recorder is left still recording, with no replay cursor set.
pub fn classify_prefix_then_rewind<S: ByteSource>(rec: &mut ReadRecorder<S>) -> (r: Result<
    bool,
    SourceError,
>)
    requires
        old(rec).recording_buffer().len() == 0,
        old(rec).replay_cursor() is None,
        !old(rec).is_recording(),
    ensures
        match r {
            Ok(b) => {
                let prefix = final(rec).recording_buffer();
                &&& final(rec).source_view().delivered() == old(rec).source_view().delivered()
                    + prefix
                &&& prefix.len() <= BUFFER_CHECK_AMOUNT
                &&& b == is_likely_binary_spec(prefix)
                &&& final(rec).replay_cursor() == Some(0int)
                &&& !final(rec).is_recording()
            },
            Err(_) => {
                &&& final(rec).recording_buffer() == old(rec).recording_buffer()
                &&& final(rec).source_view().delivered() == old(rec).source_view().delivered()
                &&& final(rec).is_recording()
                &&& final(rec).replay_cursor() is None
            },
        },
{
    rec.start_recording();
    let chunk = match rec.read(BUFFER_CHECK_AMOUNT) {
        Ok(c) => c,
        Err(e) => {
            return Err(e);
        },
    };
    let b = is_likely_binary_bytes(&chunk);
    rec.stop_recording();
    rec.rewind_to_start_of_recording();
    proof {
        assert(chunk@.skip(0) =~= chunk@);
        assert(Seq::<u8>::empty() + chunk@ =~= chunk@);
    }
    Ok(b)
}

} // verus!
