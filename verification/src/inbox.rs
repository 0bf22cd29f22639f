//! The inbox acceptor: checks that a payload is valid UTF-8 text and, when
//! it is, acknowledges it with an empty JSON object. The UTF-8 check is a
//! verified validator, proved equivalent to the mathematical definition of
//! a valid UTF-8 encoding.

use vstd::prelude::*;
use vstd::string::StringExecFns;
use vstd::utf8::{
    codepoint_width_2, codepoint_width_3, codepoint_width_4, decode_first_codepoint, encode_utf8,
    encode_utf8_valid_utf8, is_continuation_byte, is_leading_byte_width_1, is_leading_byte_width_2,
    is_leading_byte_width_3, is_leading_byte_width_4, length_of_first_scalar,
    not_overlong_encoding, not_surrogate, partial_valid_partial_invalid_utf8, partial_valid_utf8,
    partial_valid_utf8_extend, valid_first_scalar,
    valid_leading_and_continuation_bytes_first_codepoint, valid_utf8,
};
use crate::response::TextResponse;

verus! {

// A two-byte encoding is overlong exactly when its leading byte is 0xc0 or
// 0xc1, and its codepoint never reaches the surrogate range.
proof fn width2_facts(b0: u8, b1: u8)
    by (bit_vector)
    requires
        is_leading_byte_width_2(b0),
        is_continuation_byte(b1),
    ensures
        (codepoint_width_2(b0, b1) >= 0x80) <==> (b0 >= 0xc2),
        codepoint_width_2(b0, b1) <= 0x7ff,
{
}

// A three-byte encoding is overlong exactly when it starts 0xe0 with a
// continuation byte under 0xa0, and encodes a surrogate exactly when it
// starts 0xed with a continuation byte of 0xa0 or above.
proof fn width3_facts(b0: u8, b1: u8, b2: u8)
    by (bit_vector)
    requires
        is_leading_byte_width_3(b0),
        is_continuation_byte(b1),
        is_continuation_byte(b2),
    ensures
        (codepoint_width_3(b0, b1, b2) >= 0x800) <==> !(b0 == 0xe0 && b1 < 0xa0),
        (0xd800 <= codepoint_width_3(b0, b1, b2) <= 0xdfff) <==> (b0 == 0xed && b1 >= 0xa0),
{
}

// A four-byte encoding is overlong exactly when it starts 0xf0 with a
// continuation byte under 0x90, and exceeds the last Unicode scalar exactly
// when it starts above 0xf4, or at 0xf4 with a continuation byte of 0x90 or
// above.
proof fn width4_facts(b0: u8, b1: u8, b2: u8, b3: u8)
    by (bit_vector)
    requires
        is_leading_byte_width_4(b0),
        is_continuation_byte(b1),
        is_continuation_byte(b2),
        is_continuation_byte(b3),
    ensures
        (codepoint_width_4(b0, b1, b2, b3) >= 0x10000) <==> !(b0 == 0xf0 && b1 < 0x90),
        (codepoint_width_4(b0, b1, b2, b3) <= 0x10ffff) <==> (b0 < 0xf4 || (b0 == 0xf4 && b1
            < 0x90)),
{
}

// A byte sequence whose prefix of length `i` is valid UTF-8, but whose
// remainder does not begin with a well-formed scalar encoding, is not valid
// UTF-8 as a whole.
proof fn reject_at(bytes: Seq<u8>, i: int)
    requires
        0 <= i < bytes.len(),
        partial_valid_utf8(bytes, i),
        !valid_first_scalar(bytes.subrange(i, bytes.len() as int)),
    ensures
        !valid_utf8(bytes),
{
    let sub = bytes.subrange(i, bytes.len() as int);
    assert(sub.len() > 0);
    assert(!valid_utf8(sub));
    partial_valid_partial_invalid_utf8(bytes, i);
}

/// Whether `bytes` is a valid UTF-8 encoding of some character sequence.
pub fn utf8_is_valid(bytes: &[u8]) -> (r: bool)
    ensures
        r == valid_utf8(bytes@),
{
    let n = bytes.len();
    let mut i: usize = 0;
    while i < n
        invariant
            0 <= i <= n,
            n == bytes@.len(),
            partial_valid_utf8(bytes@, i as int),
        decreases n - i,
    {
        let ghost sub = bytes@.subrange(i as int, n as int);
        proof {
            assert(sub.len() == n - i);
            assert(forall|k: int| 0 <= k < sub.len() ==> sub[k] == bytes@[i + k]);
        }
        let b0 = bytes[i];
        let width: usize;
        if b0 <= 0x7f {
            proof {
                assert(is_leading_byte_width_1(sub[0]));
                assert(valid_first_scalar(sub));
                assert(length_of_first_scalar(sub) == 1);
                partial_valid_utf8_extend(bytes@, i as int);
            }
            width = 1;
        } else if 0xc0 <= b0 && b0 <= 0xdf {
            if n - i >= 2 {
                let b1 = bytes[i + 1];
                if 0x80 <= b1 && b1 <= 0xbf && 0xc2 <= b0 {
                    proof {
                        width2_facts(b0, b1);
                        assert(valid_first_scalar(sub));
                        assert(length_of_first_scalar(sub) == 2);
                        partial_valid_utf8_extend(bytes@, i as int);
                    }
                    width = 2;
                } else {
                    proof {
                        if is_continuation_byte(b1) {
                            width2_facts(b0, b1);
                            assert(!not_overlong_encoding(decode_first_codepoint(sub), 2));
                        } else {
                            assert(!valid_leading_and_continuation_bytes_first_codepoint(sub));
                        }
                        reject_at(bytes@, i as int);
                    }
                    return false;
                }
            } else {
                proof {
                    assert(!valid_leading_and_continuation_bytes_first_codepoint(sub));
                    reject_at(bytes@, i as int);
                }
                return false;
            }
        } else if 0xe0 <= b0 && b0 <= 0xef {
            if n - i >= 3 {
                let b1 = bytes[i + 1];
                let b2 = bytes[i + 2];
                let conts = 0x80 <= b1 && b1 <= 0xbf && 0x80 <= b2 && b2 <= 0xbf;
                if conts && !(b0 == 0xe0 && b1 < 0xa0) && !(b0 == 0xed && b1 >= 0xa0) {
                    proof {
                        width3_facts(b0, b1, b2);
                        assert(valid_first_scalar(sub));
                        assert(length_of_first_scalar(sub) == 3);
                        partial_valid_utf8_extend(bytes@, i as int);
                    }
                    width = 3;
                } else {
                    proof {
                        if is_continuation_byte(b1) && is_continuation_byte(b2) {
                            width3_facts(b0, b1, b2);
                            assert(!(not_overlong_encoding(decode_first_codepoint(sub), 3)
                                && not_surrogate(decode_first_codepoint(sub))));
                        } else {
                            assert(!valid_leading_and_continuation_bytes_first_codepoint(sub));
                        }
                        reject_at(bytes@, i as int);
                    }
                    return false;
                }
            } else {
                proof {
                    assert(!valid_leading_and_continuation_bytes_first_codepoint(sub));
                    reject_at(bytes@, i as int);
                }
                return false;
            }
        } else if 0xf0 <= b0 && b0 <= 0xf7 {
            if n - i >= 4 {
                let b1 = bytes[i + 1];
                let b2 = bytes[i + 2];
                let b3 = bytes[i + 3];
                let conts = 0x80 <= b1 && b1 <= 0xbf && 0x80 <= b2 && b2 <= 0xbf && 0x80 <= b3
                    && b3 <= 0xbf;
                if conts && !(b0 == 0xf0 && b1 < 0x90) && (b0 < 0xf4 || (b0 == 0xf4 && b1
                    < 0x90)) {
                    proof {
                        width4_facts(b0, b1, b2, b3);
                        assert(valid_first_scalar(sub));
                        assert(length_of_first_scalar(sub) == 4);
                        partial_valid_utf8_extend(bytes@, i as int);
                    }
                    width = 4;
                } else {
                    proof {
                        if is_continuation_byte(b1) && is_continuation_byte(b2)
                            && is_continuation_byte(b3) {
                            width4_facts(b0, b1, b2, b3);
                            assert(!not_overlong_encoding(decode_first_codepoint(sub), 4));
                        } else {
                            assert(!valid_leading_and_continuation_bytes_first_codepoint(sub));
                        }
                        reject_at(bytes@, i as int);
                    }
                    return false;
                }
            } else {
                proof {
                    assert(!valid_leading_and_continuation_bytes_first_codepoint(sub));
                    reject_at(bytes@, i as int);
                }
                return false;
            }
        } else {
            // A continuation byte (0x80..=0xbf) or a byte above 0xf7 can
            // never lead a scalar's encoding.
            proof {
                assert(!valid_leading_and_continuation_bytes_first_codepoint(sub));
                reject_at(bytes@, i as int);
            }
            return false;
        }
        i = i + width;
    }
    proof {
        assert(bytes@.subrange(0, n as int) =~= bytes@);
    }
    true
}

/// The inbox accepts a payload exactly when it is valid UTF-8 text.
pub open spec fn inbox_accepts(body: Seq<u8>) -> bool {
    valid_utf8(body)
}

/// A payload that was not valid text: for this request, an unrecoverable
/// fault rather than a graceful rejection.
#[derive(Debug)]
pub struct InboxError {
    pub description: &'static str,
}

/// Accepts any valid UTF-8 payload, on the shared and the per-user inbox
/// alike, and acknowledges it with an empty JSON object; the payload's
/// content is not inspected any further.
pub fn process_inbox(body: &[u8]) -> (r: Result<TextResponse, InboxError>)
    ensures
        r is Ok <==> inbox_accepts(body@),
        r matches Ok(ack) ==> ack.media_type@ == "application/json"@ && ack.body@ == "{}"@,
        r matches Err(e) ==> e.description@ == "failed to parse body as utf"@,
{
    if utf8_is_valid(body) {
        Ok(TextResponse {
            media_type: String::from_str("application/json"),
            body: String::from_str("{}"),
        })
    } else {
        Err(InboxError { description: "failed to parse body as utf" })
    }
}

/// Law: every payload that is the UTF-8 encoding of some character sequence
/// is accepted by the inbox, whatever its content.
pub proof fn lemma_inbox_accepts_encoded_text(text: Seq<char>)
    ensures
        inbox_accepts(encode_utf8(text)),
{
    encode_utf8_valid_utf8(text);
}

} // verus!
