//! Reassembly of the engine's raw output bytes into well-formed text.
//!
//! The native engine's token callback hands over arbitrary byte chunks that
//! may split a multi-byte character. The reassembler buffers bytes until a
//! complete encoding is available, emits the longest decodable prefix, and
//! keeps only the trailing incomplete (or invalid) suffix. It never drops a
//! byte and never emits text that is not valid UTF-8.

use vstd::prelude::*;
use vstd::utf8::decode_utf8;
use vstd::utf8::encode_utf8;
use vstd::utf8::is_continuation_byte;
use vstd::utf8::is_leading_byte_width_1;
use vstd::utf8::is_leading_byte_width_2;
use vstd::utf8::is_leading_byte_width_3;
use vstd::utf8::is_leading_byte_width_4;
use vstd::utf8::is_char_boundary;
use vstd::utf8::length_of_first_scalar;
use vstd::utf8::pop_first_scalar;
use vstd::utf8::take_first_scalar;
use vstd::utf8::valid_first_scalar;
use vstd::utf8::valid_utf8;
use vstd::utf8::partial_valid_partial_invalid_utf8;
use vstd::utf8::decode_utf8_encode_utf8;

verus! {

/// Length of the longest prefix of `bytes` that is a valid UTF-8 encoding
/// (equivalently, the largest scalar boundary reachable from the start).
pub open spec fn valid_prefix_len(bytes: Seq<u8>) -> int
    decreases bytes.len(),
{
    if bytes.len() == 0 || !valid_first_scalar(bytes) {
        0
    } else {
        length_of_first_scalar(bytes) + valid_prefix_len(pop_first_scalar(bytes))
    }
}

/// The first scalar's encoding, taken on its own, is valid UTF-8.
proof fn lemma_take_first_scalar_valid(bytes: Seq<u8>)
    requires
        valid_first_scalar(bytes),
    ensures
        valid_utf8(take_first_scalar(bytes)),
{
    let t = take_first_scalar(bytes);
    let w = length_of_first_scalar(bytes);
    assert(t.len() == w);
    assert(forall|j: int| 0 <= j < w ==> t[j] == bytes[j]);
    assert(valid_first_scalar(t));
    assert(length_of_first_scalar(t) == w);
    assert(pop_first_scalar(t) =~= Seq::<u8>::empty());
    assert(valid_utf8(pop_first_scalar(t)));
    assert(valid_utf8(t));
}

/// The prefix singled out by `valid_prefix_len` is within bounds and is
/// valid UTF-8.
pub proof fn lemma_valid_prefix_is_valid(bytes: Seq<u8>)
    ensures
        0 <= valid_prefix_len(bytes) <= bytes.len(),
        valid_utf8(bytes.subrange(0, valid_prefix_len(bytes))),
    decreases bytes.len(),
{
    if bytes.len() == 0 || !valid_first_scalar(bytes) {
        assert(bytes.subrange(0, 0) =~= Seq::<u8>::empty());
    } else {
        let w = length_of_first_scalar(bytes);
        let rest = pop_first_scalar(bytes);
        lemma_valid_prefix_is_valid(rest);
        let k = valid_prefix_len(bytes);
        lemma_take_first_scalar_valid(bytes);
        vstd::utf8::valid_utf8_concat(
            take_first_scalar(bytes),
            rest.subrange(0, valid_prefix_len(rest)),
        );
        assert(take_first_scalar(bytes) + rest.subrange(0, valid_prefix_len(rest))
            =~= bytes.subrange(0, k));
    }
}

/// After the longest valid prefix is removed, no decodable prefix remains.
pub proof fn lemma_valid_prefix_is_maximal(bytes: Seq<u8>)
    ensures
        valid_prefix_len(bytes.subrange(valid_prefix_len(bytes), bytes.len() as int)) == 0,
    decreases bytes.len(),
{
    lemma_valid_prefix_is_valid(bytes);
    if bytes.len() == 0 || !valid_first_scalar(bytes) {
        assert(bytes.subrange(0, bytes.len() as int) =~= bytes);
    } else {
        let w = length_of_first_scalar(bytes);
        let rest = pop_first_scalar(bytes);
        lemma_valid_prefix_is_valid(rest);
        lemma_valid_prefix_is_maximal(rest);
        assert(bytes.subrange(valid_prefix_len(bytes), bytes.len() as int) =~= rest.subrange(
            valid_prefix_len(rest),
            rest.len() as int,
        ));
    }
}

/// On bytes that are valid UTF-8 in their entirety, the longest valid
/// prefix is the whole sequence.
pub proof fn lemma_valid_prefix_of_valid(bytes: Seq<u8>)
    requires
        valid_utf8(bytes),
    ensures
        valid_prefix_len(bytes) == bytes.len(),
    decreases bytes.len(),
{
    if bytes.len() != 0 {
        lemma_valid_prefix_of_valid(pop_first_scalar(bytes));
    }
}

/// The seam of two valid encodings is a character boundary, and decoding
/// distributes over it.
pub proof fn lemma_decode_concat(a: Seq<u8>, b: Seq<u8>)
    requires
        valid_utf8(a),
        valid_utf8(b),
    ensures
        valid_utf8(a + b),
        decode_utf8(a + b) == decode_utf8(a) + decode_utf8(b),
{
    vstd::utf8::valid_utf8_concat(a, b);
    lemma_concat_boundary(a, b);
    vstd::utf8::decode_utf8_split(a + b, a.len() as int);
    assert((a + b).subrange(0, a.len() as int) =~= a);
    assert((a + b).subrange(a.len() as int, (a + b).len() as int) =~= b);
}

/// In the concatenation of two valid encodings, the seam index falls on a
/// character boundary.
proof fn lemma_concat_boundary(a: Seq<u8>, b: Seq<u8>)
    requires
        valid_utf8(a),
        valid_utf8(b),
    ensures
        is_char_boundary(a + b, a.len() as int),
    decreases a.len(),
{
    vstd::utf8::valid_utf8_concat(a, b);
    if a.len() == 0 {
        assert(a + b =~= b);
    } else {
        let w = length_of_first_scalar(a);
        assert((a + b)[0] == a[0]);
        assert(length_of_first_scalar(a + b) == w);
        lemma_concat_boundary(pop_first_scalar(a), b);
        assert(pop_first_scalar(a + b) =~= pop_first_scalar(a) + b);
    }
}

/// Reassembles the engine's raw token bytes into complete text chunks,
/// buffering any trailing bytes of a split multi-byte character.
///
/// The ghost `emitted` field records every byte that has left the
/// reassembler as part of a returned string, and `text` the concatenation
/// of the returned strings themselves, so that conservation of the fed
/// bytes and of the emitted text can be stated and proved.
pub struct StreamerCallback {
    buffer: Vec<u8>,
    emitted: Ghost<Seq<u8>>,
    text: Ghost<Seq<char>>,
}

impl StreamerCallback {
    /// Bytes held back because they do not yet form a complete character.
    pub closed spec fn buffered(self) -> Seq<u8> {
        self.buffer@
    }

    /// All bytes emitted so far, in order.
    pub closed spec fn emitted_bytes(self) -> Seq<u8> {
        self.emitted@
    }

    /// The concatenation of every string returned so far.
    pub closed spec fn emitted_text(self) -> Seq<char> {
        self.text@
    }

    /// All bytes fed so far: what was emitted followed by what is buffered.
    pub open spec fn fed(self) -> Seq<u8> {
        self.emitted_bytes() + self.buffered()
    }

    /// Everything emitted is valid UTF-8, the emitted text is its
    /// decoding, and the buffer holds no decodable prefix (it could not
    /// have been emitted earlier).
    pub open spec fn wf(self) -> bool {
        &&& valid_utf8(self.emitted_bytes())
        &&& self.emitted_text() == decode_utf8(self.emitted_bytes())
        &&& valid_prefix_len(self.buffered()) == 0
    }

    /// A fresh reassembler with nothing fed.
    pub fn new() -> (r: StreamerCallback)
        ensures
            r.wf(),
            r.fed() == Seq::<u8>::empty(),
            r.buffered().len() == 0,
            r.emitted_bytes().len() == 0,
            r.emitted_text().len() == 0,
    {
        let r = StreamerCallback {
            buffer: Vec::new(),
            emitted: Ghost(Seq::empty()),
            text: Ghost(Seq::empty()),
        };
        proof {
            assert(r.fed() =~= Seq::<u8>::empty());
        }
        r
    }

    /// Absorbs one callback's bytes. Returns the longest decodable prefix
    /// of the buffered bytes as text, or nothing when no complete character
    /// is available yet. No byte is dropped: what was fed is always exactly
    /// what has been emitted followed by what stays buffered.
    pub fn on_token(&mut self, token: &[u8]) -> (r: Option<String>)
        requires
            old(self).wf(),
        ensures
            final(self).wf(),
            final(self).fed() == old(self).fed() + token@,
            ({
                let combined = old(self).buffered() + token@;
                let k = valid_prefix_len(combined);
                match r {
                    Some(s) => {
                        &&& k > 0
                        &&& s@ == decode_utf8(combined.subrange(0, k))
                        &&& encode_utf8(s@) == combined.subrange(0, k)
                        &&& final(self).emitted_bytes() == old(self).emitted_bytes()
                            + combined.subrange(0, k)
                        &&& final(self).emitted_text() == old(self).emitted_text() + s@
                        &&& final(self).buffered() == combined.subrange(k, combined.len() as int)
                    },
                    None => {
                        &&& k == 0
                        &&& final(self).emitted_bytes() == old(self).emitted_bytes()
                        &&& final(self).emitted_text() == old(self).emitted_text()
                        &&& final(self).buffered() == combined
                    },
                }
            }),
    {
        self.buffer.extend_from_slice(token);
        let ghost combined = self.buffer@;
        proof {
            assert(combined == old(self).buffered() + token@);
        }
        let k = utf8_prefix_len(self.buffer.as_slice());
        proof {
            lemma_valid_prefix_is_valid(combined);
            lemma_valid_prefix_is_maximal(combined);
        }
        if k == 0 {
            proof {
                assert(final(self).fed() =~= old(self).fed() + token@);
            }
            return None;
        }
        let mut head: Vec<u8> = Vec::new();
        let mut idx: usize = 0;
        while idx < k
            invariant
                idx <= k,
                k <= self.buffer@.len(),
                self.buffer@ == combined,
                head@ =~= combined.subrange(0, idx as int),
            decreases k - idx,
        {
            head.push(self.buffer[idx]);
            idx = idx + 1;
        }
        let mut tail = self.buffer.split_off(k);
        core::mem::swap(&mut self.buffer, &mut tail);
        proof {
            assert(head@ =~= combined.subrange(0, k as int));
            assert(self.buffer@ =~= combined.subrange(k as int, combined.len() as int));
        }
        let s = bytes_to_string(head);
        proof {
            let chunk = combined.subrange(0, k as int);
            decode_utf8_encode_utf8(chunk);
            self.emitted@ = old(self).emitted_bytes() + chunk;
            self.text@ = old(self).emitted_text() + s@;
            lemma_decode_concat(old(self).emitted_bytes(), chunk);
            assert(final(self).fed() =~= old(self).fed() + token@);
        }
        Some(s)
    }

    /// Law: once the bytes fed so far form a complete valid UTF-8 encoding,
    /// nothing is held back — the emitted bytes are exactly the fed bytes,
    /// and the concatenation of the returned strings is the decoding of
    /// the full input.
    pub proof fn lemma_complete_input_fully_emitted(self)
        requires
            self.wf(),
            valid_utf8(self.fed()),
        ensures
            self.buffered().len() == 0,
            self.emitted_bytes() == self.fed(),
            self.emitted_text() == decode_utf8(self.fed()),
    {
        let emitted = self.emitted_bytes();
        let buffered = self.buffered();
        let total = self.fed();
        if !valid_utf8(buffered) {
            assert(total.subrange(0, emitted.len() as int) =~= emitted);
            assert(total.subrange(emitted.len() as int, total.len() as int) =~= buffered);
            partial_valid_partial_invalid_utf8(total, emitted.len() as int);
            assert(false);
        }
        lemma_valid_prefix_of_valid(buffered);
        assert(buffered.len() == 0);
        assert(emitted =~= total);
    }
}

/// Relies on `String::from_utf8`: it accepts exactly the byte sequences
/// that are valid UTF-8 and decodes them to the characters they encode.
#[verifier::external_body]
fn bytes_to_string(bytes: Vec<u8>) -> (r: String)
    requires
        valid_utf8(bytes@),
    ensures
        r@ == decode_utf8(bytes@),
{
    String::from_utf8(bytes).unwrap()
}

/// Computes `valid_prefix_len` of a byte slice: the length of the longest
/// prefix that decodes as UTF-8, stopping at the first incomplete or
/// ill-formed sequence.
pub fn utf8_prefix_len(bytes: &[u8]) -> (k: usize)
    ensures
        k == valid_prefix_len(bytes@),
{
    let n = bytes.len();
    proof {
        assert(bytes@.subrange(0, n as int) =~= bytes@);
    }
    let mut i: usize = 0;
    while i < n
        invariant
            i <= n,
            n == bytes@.len(),
            valid_prefix_len(bytes@) == i + valid_prefix_len(
                bytes@.subrange(i as int, n as int),
            ),
        decreases n - i,
    {
        let ghost s = bytes@.subrange(i as int, n as int);
        let b0 = bytes[i];
        proof {
            assert(s[0] == bytes@[i as int]);
        }
        if b0 < 0x80 {
            // One-byte scalar.
            proof {
                assert(b0 & 0x7F == b0) by (bit_vector)
                    requires
                        b0 < 0x80,
                ;
                assert(valid_first_scalar(s));
                assert(pop_first_scalar(s) =~= bytes@.subrange(i + 1, n as int));
            }
            i = i + 1;
        } else if b0 < 0xC0 {
            // A continuation byte cannot lead a scalar.
            proof {
                assert(!valid_first_scalar(s));
            }
            return i;
        } else if b0 < 0xE0 {
            if n - i < 2 {
                proof {
                    assert(s.len() < 2);
                    assert(!valid_first_scalar(s));
                }
                return i;
            }
            let b1 = bytes[i + 1];
            proof {
                assert(s[1] == bytes@[i + 1]);
            }
            if !(0x80 <= b1 && b1 <= 0xBF) {
                proof {
                    assert(!is_continuation_byte(s[1]));
                    assert(!valid_first_scalar(s));
                }
                return i;
            }
            let cp: u32 = (((b0 & 0x1F) as u32) << 6u32) | ((b1 & 0x3F) as u32);
            if cp < 0x80 {
                // Overlong two-byte encoding.
                proof {
                    assert(!valid_first_scalar(s));
                }
                return i;
            }
            proof {
                assert((((b0 & 0x1F) as u32) << 6u32 | ((b1 & 0x3F) as u32)) < 0xD800u32)
                    by (bit_vector);
                assert(valid_first_scalar(s));
                assert(length_of_first_scalar(s) == 2);
                assert(pop_first_scalar(s) =~= bytes@.subrange(i + 2, n as int));
            }
            i = i + 2;
        } else if b0 < 0xF0 {
            if n - i < 3 {
                proof {
                    assert(s.len() < 3);
                    assert(!valid_first_scalar(s));
                }
                return i;
            }
            let b1 = bytes[i + 1];
            let b2 = bytes[i + 2];
            proof {
                assert(s[1] == bytes@[i + 1]);
                assert(s[2] == bytes@[i + 2]);
            }
            if !(0x80 <= b1 && b1 <= 0xBF) || !(0x80 <= b2 && b2 <= 0xBF) {
                proof {
                    assert(!valid_first_scalar(s));
                }
                return i;
            }
            let cp: u32 = (((b0 & 0x0F) as u32) << 12u32) | (((b1 & 0x3F) as u32) << 6u32) | ((b2
                & 0x3F) as u32);
            if cp < 0x800 || (0xD800 <= cp && cp <= 0xDFFF) {
                // Overlong three-byte encoding or surrogate codepoint.
                proof {
                    assert(!valid_first_scalar(s));
                }
                return i;
            }
            proof {
                assert(valid_first_scalar(s));
                assert(length_of_first_scalar(s) == 3);
                assert(pop_first_scalar(s) =~= bytes@.subrange(i + 3, n as int));
            }
            i = i + 3;
        } else if b0 < 0xF8 {
            if n - i < 4 {
                proof {
                    assert(s.len() < 4);
                    assert(!valid_first_scalar(s));
                }
                return i;
            }
            let b1 = bytes[i + 1];
            let b2 = bytes[i + 2];
            let b3 = bytes[i + 3];
            proof {
                assert(s[1] == bytes@[i + 1]);
                assert(s[2] == bytes@[i + 2]);
                assert(s[3] == bytes@[i + 3]);
            }
            if !(0x80 <= b1 && b1 <= 0xBF) || !(0x80 <= b2 && b2 <= 0xBF) || !(0x80 <= b3 && b3
                <= 0xBF) {
                proof {
                    assert(!valid_first_scalar(s));
                }
                return i;
            }
            let cp: u32 = (((b0 & 0x07) as u32) << 18u32) | (((b1 & 0x3F) as u32) << 12u32) | (((b2
                & 0x3F) as u32) << 6u32) | ((b3 & 0x3F) as u32);
            if cp < 0x10000 || cp > 0x10FFFF {
                // Overlong four-byte encoding or beyond the scalar range.
                proof {
                    assert(!valid_first_scalar(s));
                }
                return i;
            }
            proof {
                assert(valid_first_scalar(s));
                assert(length_of_first_scalar(s) == 4);
                assert(pop_first_scalar(s) =~= bytes@.subrange(i + 4, n as int));
            }
            i = i + 4;
        } else {
            // 0xF8..=0xFF can never lead a scalar.
            proof {
                assert(!valid_first_scalar(s));
            }
            return i;
        }
    }
    proof {
        assert(bytes@.subrange(n as int, n as int) =~= Seq::<u8>::empty());
    }
    i
}

} // verus!
