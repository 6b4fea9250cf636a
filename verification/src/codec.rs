//! Byte serialization of the message envelope.
//!
//! The frame is this library's own fixed layout (no outside wire
//! compatibility is intended), little-endian throughout:
//! the 16-byte message id; one sign byte and the 8-byte magnitude of
//! the timestamp's seconds; the 4-byte nanosecond part; then the
//! source and the topic, each as an 8-byte character count followed by
//! every character's scalar value in 4 bytes.
//!
//! `serialize` produces exactly this encoding, and `deserialize`
//! accepts exactly these frames: whatever it decodes re-encodes to
//! the very bytes it was given, and every frame some message
//! serializes to is decoded.

use vstd::bytes::{
    lemma_auto_spec_u128_to_from_le_bytes, lemma_auto_spec_u32_to_from_le_bytes,
    lemma_auto_spec_u64_to_from_le_bytes, spec_u128_to_le_bytes, spec_u32_to_le_bytes,
    spec_u64_from_le_bytes, spec_u64_to_le_bytes, u128_from_le_bytes, u128_to_le_bytes,
    u32_from_le_bytes, u32_to_le_bytes, u64_from_le_bytes, u64_to_le_bytes,
};
use vstd::prelude::*;
use vstd::slice::{slice_index_get, slice_subrange};

use crate::messages::{BaseMessage, MessageId};
use crate::time::Time;

verus! {

/// Relies on `char::from_u32`: the documented conversion from a
/// scalar value back to the character holding it, refusing exactly
/// the surrogate range and values beyond the largest code point.
pub assume_specification[ char::from_u32 ](v: u32) -> (r: Option<char>)
    ensures
        r is Some <==> (v < 0xD800 || (0xE000 <= v && v <= 0x10FFFF)),
        r matches Some(c) ==> c as u32 == v,
;

/// The characters of a string, each as its scalar value in four
/// little-endian bytes.
pub open spec fn spec_encode_chars(s: Seq<char>) -> Seq<u8>
    decreases s.len(),
{
    if s.len() == 0 {
        Seq::empty()
    } else {
        spec_encode_chars(s.drop_last()) + spec_u32_to_le_bytes(s.last() as u32)
    }
}

/// One sign byte, then the magnitude of the seconds in eight
/// little-endian bytes.
pub open spec fn spec_encode_sec(sec: i64) -> Seq<u8> {
    if sec >= 0 {
        seq![0u8] + spec_u64_to_le_bytes(sec as u64)
    } else {
        seq![1u8] + spec_u64_to_le_bytes((-(sec as int)) as u64)
    }
}

/// The whole frame for these envelope fields.
pub open spec fn spec_serialize_fields(
    id: u128,
    sec: i64,
    nsec: u32,
    source: Seq<char>,
    topic: Seq<char>,
) -> Seq<u8> {
    spec_u128_to_le_bytes(id) + spec_encode_sec(sec) + spec_u32_to_le_bytes(nsec)
        + spec_u64_to_le_bytes(source.len() as u64) + spec_encode_chars(source)
        + spec_u64_to_le_bytes(topic.len() as u64) + spec_encode_chars(topic)
}

/// The whole frame for this message.
pub open spec fn spec_serialize(m: BaseMessage) -> Seq<u8> {
    spec_serialize_fields(m.id.0, m.timestamp.sec, m.timestamp.nsec, m.source@, m.topic@)
}

/// Appending one character extends the encoding by that character's
/// four bytes.
proof fn lemma_encode_chars_push(s: Seq<char>, c: char)
    ensures
        spec_encode_chars(s.push(c)) == spec_encode_chars(s) + spec_u32_to_le_bytes(c as u32),
{
    assert(s.push(c).drop_last() =~= s);
    assert(s.push(c).last() == c);
}

/// The encoding of a character run takes four bytes per character.
pub proof fn lemma_encode_chars_len(s: Seq<char>)
    ensures
        spec_encode_chars(s).len() == 4 * s.len(),
    decreases s.len(),
{
    lemma_auto_spec_u32_to_from_le_bytes();
    if s.len() > 0 {
        lemma_encode_chars_len(s.drop_last());
    }
}

/// The four bytes at a character's position in the encoding are that
/// character's scalar value.
pub proof fn lemma_encode_chars_index(s: Seq<char>, k: int)
    requires
        0 <= k < s.len(),
    ensures
        spec_encode_chars(s).subrange(4 * k, 4 * k + 4) == spec_u32_to_le_bytes(s[k] as u32),
    decreases s.len(),
{
    lemma_auto_spec_u32_to_from_le_bytes();
    lemma_encode_chars_len(s);
    lemma_encode_chars_len(s.drop_last());
    if k == s.len() - 1 {
        assert(spec_encode_chars(s).subrange(4 * k, 4 * k + 4) =~= spec_u32_to_le_bytes(
            s[k] as u32,
        ));
    } else {
        lemma_encode_chars_index(s.drop_last(), k);
        assert(s.drop_last()[k] == s[k]);
        assert(spec_encode_chars(s).subrange(4 * k, 4 * k + 4) =~= spec_encode_chars(
            s.drop_last(),
        ).subrange(4 * k, 4 * k + 4));
    }
}

/// Some message's frame is exactly these bytes.
pub open spec fn is_frame(bytes: Seq<u8>) -> bool {
    exists|m: BaseMessage| bytes == spec_serialize(m)
}

/// Where each field of a message's frame stands in the bytes.
proof fn lemma_frame_parts(m: BaseMessage, bytes: Seq<u8>)
    requires
        bytes == spec_serialize(m),
    ensures
        bytes.len() == 45 + 4 * m.source@.len() + 4 * m.topic@.len(),
        bytes.subrange(0, 16) == spec_u128_to_le_bytes(m.id.0),
        bytes[16] == if m.timestamp.sec >= 0 {
            0u8
        } else {
            1u8
        },
        bytes.subrange(17, 25) == spec_u64_to_le_bytes(
            if m.timestamp.sec >= 0 {
                m.timestamp.sec as u64
            } else {
                (-(m.timestamp.sec as int)) as u64
            },
        ),
        bytes.subrange(25, 29) == spec_u32_to_le_bytes(m.timestamp.nsec),
        bytes.subrange(29, 37) == spec_u64_to_le_bytes(m.source@.len() as u64),
        bytes.subrange(37, 37 + 4 * (m.source@.len() as int)) == spec_encode_chars(m.source@),
        bytes.subrange(37 + 4 * (m.source@.len() as int), 45 + 4 * (m.source@.len() as int))
            == spec_u64_to_le_bytes(m.topic@.len() as u64),
        bytes.subrange(45 + 4 * (m.source@.len() as int), bytes.len() as int)
            == spec_encode_chars(m.topic@),
{
    lemma_auto_spec_u128_to_from_le_bytes();
    lemma_auto_spec_u64_to_from_le_bytes();
    lemma_auto_spec_u32_to_from_le_bytes();
    lemma_encode_chars_len(m.source@);
    lemma_encode_chars_len(m.topic@);
    let sl = m.source@.len() as int;
    assert(spec_encode_sec(m.timestamp.sec).len() == 9);
    assert(bytes.subrange(0, 16) =~= spec_u128_to_le_bytes(m.id.0));
    assert(bytes.subrange(16, 25) =~= spec_encode_sec(m.timestamp.sec));
    assert(bytes[16] == spec_encode_sec(m.timestamp.sec)[0]);
    assert(bytes.subrange(17, 25) =~= spec_encode_sec(m.timestamp.sec).subrange(1, 9));
    if m.timestamp.sec >= 0 {
        assert(spec_encode_sec(m.timestamp.sec).subrange(1, 9) =~= spec_u64_to_le_bytes(
            m.timestamp.sec as u64,
        ));
    } else {
        assert(spec_encode_sec(m.timestamp.sec).subrange(1, 9) =~= spec_u64_to_le_bytes(
            (-(m.timestamp.sec as int)) as u64,
        ));
    }
    assert(bytes.subrange(25, 29) =~= spec_u32_to_le_bytes(m.timestamp.nsec));
    assert(bytes.subrange(29, 37) =~= spec_u64_to_le_bytes(m.source@.len() as u64));
    assert(bytes.subrange(37, 37 + 4 * sl) =~= spec_encode_chars(m.source@));
    assert(bytes.subrange(37 + 4 * sl, 45 + 4 * sl) =~= spec_u64_to_le_bytes(
        m.topic@.len() as u64,
    ));
    assert(bytes.subrange(45 + 4 * sl, bytes.len() as int) =~= spec_encode_chars(m.topic@));
}

/// What a decoder reads at each position of a frame: the sign byte,
/// the magnitude with its canonical bounds, the two character counts
/// (which fit the count field exactly, since four bytes per character
/// already fit in the frame), and the two character runs.
proof fn lemma_frame_decode_facts(m: BaseMessage, bytes: Seq<u8>)
    requires
        bytes == spec_serialize(m),
        bytes.len() <= usize::MAX,
    ensures
        bytes.len() == 45 + 4 * m.source@.len() + 4 * m.topic@.len(),
        bytes[16] == if m.timestamp.sec >= 0 {
            0u8
        } else {
            1u8
        },
        m.timestamp.sec >= 0 ==> spec_u64_from_le_bytes(bytes.subrange(17, 25))
            == m.timestamp.sec as u64 <= i64::MAX as u64,
        m.timestamp.sec < 0 ==> 1 <= spec_u64_from_le_bytes(bytes.subrange(17, 25))
            <= 0x8000_0000_0000_0000u64,
        spec_u64_from_le_bytes(bytes.subrange(29, 37)) == m.source@.len() as u64,
        (m.source@.len() as u64) as int == m.source@.len(),
        (m.topic@.len() as u64) as int == m.topic@.len(),
        spec_u64_from_le_bytes(
            bytes.subrange(
                37 + 4 * (m.source@.len() as int),
                45 + 4 * (m.source@.len() as int),
            ),
        ) == m.topic@.len() as u64,
        bytes.subrange(37, 37 + 4 * (m.source@.len() as int)) == spec_encode_chars(m.source@),
        bytes.subrange(45 + 4 * (m.source@.len() as int), bytes.len() as int)
            == spec_encode_chars(m.topic@),
{
    lemma_frame_parts(m, bytes);
    lemma_auto_spec_u64_to_from_le_bytes();
    if m.timestamp.sec < 0 {
        assert(1 <= -(m.timestamp.sec as int) <= 0x8000_0000_0000_0000);
    }
    assert(4 * m.source@.len() <= bytes.len());
    assert(4 * m.topic@.len() <= bytes.len());
}

/// Append the encoding of a string's characters.
fn encode_chars(s: &str, out: &mut Vec<u8>)
    ensures
        final(out)@ == old(out)@ + spec_encode_chars(s@),
{
    let len = s.unicode_len();
    let ghost base = out@;
    let mut i: usize = 0;
    while i < len
        invariant
            len == s@.len(),
            i <= len,
            out@ == base + spec_encode_chars(s@.subrange(0, i as int)),
        decreases len - i,
    {
        let c = s.get_char(i);
        let mut piece = u32_to_le_bytes(c as u32);
        out.append(&mut piece);
        i += 1;
        proof {
            assert(s@.subrange(0, i as int).drop_last() =~= s@.subrange(0, i - 1));
            assert(s@.subrange(0, i as int).last() == s@[i - 1]);
        }
    }
    proof {
        assert(s@.subrange(0, len as int) =~= s@);
    }
}

impl BaseMessage {
    /// Serialize the message into its byte frame.
    pub fn serialize(&self) -> (r: Vec<u8>)
        ensures
            r@ == spec_serialize(*self),
    {
        let mut out: Vec<u8> = Vec::new();
        let mut piece = u128_to_le_bytes(self.id.0);
        out.append(&mut piece);
        if self.timestamp.sec >= 0 {
            out.push(0);
            let mut sec_piece = u64_to_le_bytes(self.timestamp.sec as u64);
            out.append(&mut sec_piece);
        } else {
            out.push(1);
            let magnitude: u64 = ((-(self.timestamp.sec + 1)) as u64) + 1;
            proof {
                assert(magnitude == (-(self.timestamp.sec as int)) as u64);
            }
            let mut sec_piece = u64_to_le_bytes(magnitude);
            out.append(&mut sec_piece);
        }
        let mut nsec_piece = u32_to_le_bytes(self.timestamp.nsec);
        out.append(&mut nsec_piece);
        let source_len = self.source.as_str().unicode_len();
        let mut len_piece = u64_to_le_bytes(source_len as u64);
        out.append(&mut len_piece);
        encode_chars(self.source.as_str(), &mut out);
        let topic_len = self.topic.as_str().unicode_len();
        let mut len_piece = u64_to_le_bytes(topic_len as u64);
        out.append(&mut len_piece);
        encode_chars(self.topic.as_str(), &mut out);
        proof {
            assert(out@ =~= spec_serialize(*self));
        }
        out
    }
}

/// A decoded message frame: the envelope's fields, with the two
/// strings as their character sequences.
#[derive(Debug)]
pub struct DecodedMessage {
    pub id: MessageId,
    pub timestamp: Time,
    pub source: Vec<char>,
    pub topic: Vec<char>,
}

/// Decode a run of characters, each taken from four bytes starting at
/// `start`.
fn decode_chars(bytes: &[u8], start: usize, count: usize) -> (r: Option<Vec<char>>)
    requires
        start + 4 * count <= bytes@.len(),
    ensures
        r matches Some(chars) ==> {
            &&& chars@.len() == count
            &&& bytes@.subrange(start as int, start + 4 * count) == spec_encode_chars(chars@)
        },
        r is None ==> !(exists|s: Seq<char>|
            s.len() == count && bytes@.subrange(start as int, start + 4 * count)
                == spec_encode_chars(s)),
{
    let n = bytes.len();
    let mut chars: Vec<char> = Vec::new();
    let mut k: usize = 0;
    while k < count
        invariant
            start + 4 * count <= n == bytes@.len(),
            k <= count,
            chars@.len() == k,
            bytes@.subrange(start as int, start + 4 * k) == spec_encode_chars(chars@),
        decreases count - k,
    {
        let piece = slice_subrange(bytes, start + 4 * k, start + 4 * k + 4);
        let v = u32_from_le_bytes(piece);
        let c = match char::from_u32(v) {
            Some(c) => c,
            None => {
                proof {
                    lemma_auto_spec_u32_to_from_le_bytes();
                    // No character run of this length can have encoded
                    // these bytes: its character at this position
                    // would be the very scalar that was just refused.
                    assert(!(exists|s: Seq<char>|
                        s.len() == count && bytes@.subrange(start as int, start + 4 * count)
                            == spec_encode_chars(s))) by {
                        if exists|s: Seq<char>|
                            s.len() == count && bytes@.subrange(start as int, start + 4 * count)
                                == spec_encode_chars(s) {
                            let s = choose|s: Seq<char>|
                                s.len() == count && bytes@.subrange(
                                    start as int,
                                    start + 4 * count,
                                ) == spec_encode_chars(s);
                            lemma_encode_chars_len(s);
                            lemma_encode_chars_index(s, k as int);
                            assert(piece@ =~= spec_encode_chars(s).subrange(
                                4 * (k as int),
                                4 * (k as int) + 4,
                            )) by {
                                assert forall|j: int| 0 <= j < 4 implies piece@[j]
                                    == spec_encode_chars(s).subrange(
                                    4 * (k as int),
                                    4 * (k as int) + 4,
                                )[j] by {
                                    assert(spec_encode_chars(s)[4 * (k as int) + j]
                                        == bytes@.subrange(
                                        start as int,
                                        start + 4 * count,
                                    )[4 * (k as int) + j]);
                                }
                            }
                            assert(v == s[k as int] as u32);
                            vstd::utf8::char_is_scalar(s[k as int]);
                            assert(false);
                        }
                    }
                }
                return None;
            },
        };
        proof {
            lemma_auto_spec_u32_to_from_le_bytes();
            assert(spec_u32_to_le_bytes(c as u32) == piece@);
            lemma_encode_chars_push(chars@, c);
            assert(bytes@.subrange(start as int, start + 4 * (k + 1)) =~= bytes@.subrange(
                start as int,
                start + 4 * k,
            ) + bytes@.subrange(start + 4 * k, start + 4 * k + 4));
        }
        chars.push(c);
        k += 1;
    }
    proof {
        assert(bytes@.subrange(start as int, start + 4 * count) == spec_encode_chars(chars@));
    }
    Some(chars)
}

/// Decode a byte frame back into the envelope's fields.
///
/// Exactly the frames `serialize` produces are accepted, in both
/// directions: whatever comes back re-encodes to the very bytes that
/// were given, and every frame some message serializes to is
/// accepted, so only a malformed shape, a non-character scalar, a
/// non-canonical seconds encoding, or trailing bytes is refused.
pub fn deserialize(bytes: &[u8]) -> (r: Option<DecodedMessage>)
    ensures
        r matches Some(d) ==> bytes@ == spec_serialize_fields(
            d.id.0,
            d.timestamp.sec,
            d.timestamp.nsec,
            d.source@,
            d.topic@,
        ),
        is_frame(bytes@) ==> r is Some,
{
    let n = bytes.len();
    if n < 16 + 9 + 4 + 8 {
        proof {
            assert(!is_frame(bytes@)) by {
                if is_frame(bytes@) {
                    let m = choose|m: BaseMessage| bytes@ == spec_serialize(m);
                    lemma_frame_decode_facts(m, bytes@);
                }
            }
        }
        return None;
    }
    proof {
        lemma_auto_spec_u128_to_from_le_bytes();
        lemma_auto_spec_u64_to_from_le_bytes();
        lemma_auto_spec_u32_to_from_le_bytes();
    }
    let id_value = u128_from_le_bytes(slice_subrange(bytes, 0, 16));
    let sign = *slice_index_get(bytes, 16);
    let magnitude = u64_from_le_bytes(slice_subrange(bytes, 17, 25));
    let sec: i64 = if sign == 0 {
        if magnitude > i64::MAX as u64 {
            proof {
                assert(!is_frame(bytes@)) by {
                    if is_frame(bytes@) {
                        let m = choose|m: BaseMessage| bytes@ == spec_serialize(m);
                        lemma_frame_decode_facts(m, bytes@);
                    }
                }
            }
            return None;
        }
        magnitude as i64
    } else if sign == 1 {
        if magnitude == 0 || magnitude > 0x8000_0000_0000_0000u64 {
            proof {
                assert(!is_frame(bytes@)) by {
                    if is_frame(bytes@) {
                        let m = choose|m: BaseMessage| bytes@ == spec_serialize(m);
                        lemma_frame_decode_facts(m, bytes@);
                    }
                }
            }
            return None;
        }
        (-((magnitude - 1) as i64)) - 1
    } else {
        proof {
            assert(!is_frame(bytes@)) by {
                if is_frame(bytes@) {
                    let m = choose|m: BaseMessage| bytes@ == spec_serialize(m);
                    lemma_frame_decode_facts(m, bytes@);
                }
            }
        }
        return None;
    };
    proof {
        if sign == 1 {
            assert((-(sec as int)) as u64 == magnitude);
        }
    }
    let nsec = u32_from_le_bytes(slice_subrange(bytes, 25, 29));
    let source_count_u64 = u64_from_le_bytes(slice_subrange(bytes, 29, 37));
    let after_header: usize = 37;
    if source_count_u64 > ((n - after_header) / 4) as u64 {
        proof {
            assert(!is_frame(bytes@)) by {
                if is_frame(bytes@) {
                    let m = choose|m: BaseMessage| bytes@ == spec_serialize(m);
                    lemma_frame_decode_facts(m, bytes@);
                    let sl = m.source@.len() as int;
                    let tl = m.topic@.len() as int;
                    assert((8 + 4 * sl + 4 * tl) / 4 == 2 + sl + tl);
                }
            }
        }
        return None;
    }
    let source_count = source_count_u64 as usize;
    let source = match decode_chars(bytes, after_header, source_count) {
        Some(chars) => chars,
        None => {
            proof {
                assert(!is_frame(bytes@)) by {
                    if is_frame(bytes@) {
                        let m = choose|m: BaseMessage| bytes@ == spec_serialize(m);
                        lemma_frame_decode_facts(m, bytes@);
                        assert(m.source@.len() == source_count as int);
                        assert(m.source@.len() == source_count && bytes@.subrange(
                            after_header as int,
                            after_header + 4 * source_count,
                        ) == spec_encode_chars(m.source@));
                    }
                }
            }
            return None;
        },
    };
    let after_source = after_header + 4 * source_count;
    if n - after_source < 8 {
        proof {
            assert(!is_frame(bytes@)) by {
                if is_frame(bytes@) {
                    let m = choose|m: BaseMessage| bytes@ == spec_serialize(m);
                    lemma_frame_decode_facts(m, bytes@);
                    assert(m.source@.len() == source_count as int);
                }
            }
        }
        return None;
    }
    let topic_count_u64 = u64_from_le_bytes(
        slice_subrange(bytes, after_source, after_source + 8),
    );
    let after_topic_len = after_source + 8;
    if topic_count_u64 > ((n - after_topic_len) / 4) as u64 {
        proof {
            assert(!is_frame(bytes@)) by {
                if is_frame(bytes@) {
                    let m = choose|m: BaseMessage| bytes@ == spec_serialize(m);
                    lemma_frame_decode_facts(m, bytes@);
                    assert(m.source@.len() == source_count as int);
                    let tl = m.topic@.len() as int;
                    assert((4 * tl) / 4 == tl);
                }
            }
        }
        return None;
    }
    let topic_count = topic_count_u64 as usize;
    let topic = match decode_chars(bytes, after_topic_len, topic_count) {
        Some(chars) => chars,
        None => {
            proof {
                assert(!is_frame(bytes@)) by {
                    if is_frame(bytes@) {
                        let m = choose|m: BaseMessage| bytes@ == spec_serialize(m);
                        lemma_frame_decode_facts(m, bytes@);
                        assert(m.source@.len() == source_count as int);
                        assert(m.topic@.len() == topic_count as int);
                        assert(m.topic@.len() == topic_count && bytes@.subrange(
                            after_topic_len as int,
                            after_topic_len + 4 * topic_count,
                        ) == spec_encode_chars(m.topic@));
                    }
                }
            }
            return None;
        },
    };
    let end = after_topic_len + 4 * topic_count;
    if end != n {
        proof {
            assert(!is_frame(bytes@)) by {
                if is_frame(bytes@) {
                    let m = choose|m: BaseMessage| bytes@ == spec_serialize(m);
                    lemma_frame_decode_facts(m, bytes@);
                    assert(m.source@.len() == source_count as int);
                    assert(m.topic@.len() == topic_count as int);
                }
            }
        }
        return None;
    }
    let d = DecodedMessage {
        id: MessageId(id_value),
        timestamp: Time { sec, nsec },
        source,
        topic,
    };
    proof {
        assert(spec_u128_to_le_bytes(d.id.0) == bytes@.subrange(0, 16));
        assert(spec_encode_sec(sec) =~= seq![sign] + spec_u64_to_le_bytes(magnitude));
        assert(bytes@.subrange(16, 25) =~= seq![sign] + bytes@.subrange(17, 25));
        assert(spec_encode_sec(sec) == bytes@.subrange(16, 25));
        assert(spec_u32_to_le_bytes(nsec) == bytes@.subrange(25, 29));
        assert(d.source@.len() as u64 == source_count_u64);
        assert(spec_u64_to_le_bytes(d.source@.len() as u64) == bytes@.subrange(29, 37));
        assert(d.topic@.len() as u64 == topic_count_u64);
        assert(spec_u64_to_le_bytes(d.topic@.len() as u64) == bytes@.subrange(
            after_source as int,
            after_topic_len as int,
        ));
        assert(bytes@ =~= bytes@.subrange(0, 16) + bytes@.subrange(16, 25) + bytes@.subrange(
            25,
            29,
        ) + bytes@.subrange(29, 37) + bytes@.subrange(37, after_source as int) + bytes@.subrange(
            after_source as int,
            after_topic_len as int,
        ) + bytes@.subrange(after_topic_len as int, n as int));
    }
    Some(d)
}

} // verus!
