//! Executable check that a byte sequence is well-formed UTF-8, proved
//! against the model in `vstd::utf8`.

use vstd::prelude::*;
use vstd::utf8::{
    codepoint_width_1, codepoint_width_2, codepoint_width_3, codepoint_width_4,
    is_continuation_byte, is_leading_byte_width_1, is_leading_byte_width_2,
    is_leading_byte_width_3, is_leading_byte_width_4, pop_first_scalar, valid_first_scalar,
    valid_utf8,
};

verus! {

/// Reports whether `s` is a valid UTF-8 encoding, in the sense of
/// `vstd::utf8::valid_utf8`: every scalar is well formed, not an
/// overlong encoding, and not in the surrogate range.
pub fn is_valid_utf8(s: &[u8]) -> (b: bool)
    ensures
        b == valid_utf8(s@),
{
    let n: usize = s.len();
    let mut i: usize = 0;
    proof {
        assert(s@.skip(0) =~= s@);
    }
    while i < n
        invariant
            0 <= i <= n,
            n == s@.len(),
            valid_utf8(s@) == valid_utf8(s@.skip(i as int)),
        decreases n - i,
    {
        let ghost rest = s@.skip(i as int);
        proof {
            assert(rest.len() == n - i);
            assert(forall|k: int| 0 <= k < rest.len() ==> rest[k] == s@[i + k]);
        }
        let b0: u8 = s[i];
        if b0 <= 0x7f {
            // One-byte scalar: the value is the byte itself, so it can be
            // neither overlong nor a surrogate.
            proof {
                assert(b0 & 0x7f == b0) by (bit_vector)
                    requires
                        b0 <= 0x7f,
                ;
                assert(codepoint_width_1(rest[0]) == b0 as u32);
                assert(valid_first_scalar(rest));
                assert(pop_first_scalar(rest) =~= s@.skip(i + 1));
            }
            i = i + 1;
        } else if 0xc0 <= b0 && b0 <= 0xdf {
            if n - i < 2 {
                proof {
                    assert(!valid_first_scalar(rest));
                }
                return false;
            }
            let b1: u8 = s[i + 1];
            if !(0x80 <= b1 && b1 <= 0xbf) {
                proof {
                    assert(!is_continuation_byte(rest[1]));
                    assert(!valid_first_scalar(rest));
                }
                return false;
            }
            let cp: u32 = (((b0 & 0x1f) as u32) << 6u32) | ((b1 & 0x3f) as u32);
            proof {
                assert(cp == codepoint_width_2(rest[0], rest[1]));
            }
            if cp < 0x80 {
                // Overlong two-byte encoding of a one-byte value.
                proof {
                    assert(!valid_first_scalar(rest));
                }
                return false;
            }
            if 0xd800 <= cp && cp <= 0xdfff {
                proof {
                    assert(!valid_first_scalar(rest));
                }
                return false;
            }
            proof {
                assert(valid_first_scalar(rest));
                assert(pop_first_scalar(rest) =~= s@.skip(i + 2));
            }
            i = i + 2;
        } else if 0xe0 <= b0 && b0 <= 0xef {
            if n - i < 3 {
                proof {
                    assert(!valid_first_scalar(rest));
                }
                return false;
            }
            let b1: u8 = s[i + 1];
            let b2: u8 = s[i + 2];
            if !(0x80 <= b1 && b1 <= 0xbf) || !(0x80 <= b2 && b2 <= 0xbf) {
                proof {
                    assert(!is_continuation_byte(rest[1]) || !is_continuation_byte(rest[2]));
                    assert(!valid_first_scalar(rest));
                }
                return false;
            }
            let cp: u32 = (((b0 & 0x0f) as u32) << 12u32) | (((b1 & 0x3f) as u32) << 6u32) | ((b2
                & 0x3f) as u32);
            proof {
                assert(cp == codepoint_width_3(rest[0], rest[1], rest[2]));
            }
            if cp < 0x800 {
                proof {
                    assert(!valid_first_scalar(rest));
                }
                return false;
            }
            if 0xd800 <= cp && cp <= 0xdfff {
                proof {
                    assert(!valid_first_scalar(rest));
                }
                return false;
            }
            proof {
                assert(valid_first_scalar(rest));
                assert(pop_first_scalar(rest) =~= s@.skip(i + 3));
            }
            i = i + 3;
        } else if 0xf0 <= b0 && b0 <= 0xf7 {
            if n - i < 4 {
                proof {
                    assert(!valid_first_scalar(rest));
                }
                return false;
            }
            let b1: u8 = s[i + 1];
            let b2: u8 = s[i + 2];
            let b3: u8 = s[i + 3];
            if !(0x80 <= b1 && b1 <= 0xbf) || !(0x80 <= b2 && b2 <= 0xbf) || !(0x80 <= b3 && b3
                <= 0xbf) {
                proof {
                    assert(!is_continuation_byte(rest[1]) || !is_continuation_byte(rest[2])
                        || !is_continuation_byte(rest[3]));
                    assert(!valid_first_scalar(rest));
                }
                return false;
            }
            let cp: u32 = (((b0 & 0x07) as u32) << 18u32) | (((b1 & 0x3f) as u32) << 12u32) | (((b2
                & 0x3f) as u32) << 6u32) | ((b3 & 0x3f) as u32);
            proof {
                assert(cp == codepoint_width_4(rest[0], rest[1], rest[2], rest[3]));
            }
            if cp < 0x10000 || cp > 0x10ffff {
                proof {
                    assert(!valid_first_scalar(rest));
                }
                return false;
            }
            if 0xd800 <= cp && cp <= 0xdfff {
                proof {
                    assert(!valid_first_scalar(rest));
                }
                return false;
            }
            proof {
                assert(valid_first_scalar(rest));
                assert(pop_first_scalar(rest) =~= s@.skip(i + 4));
            }
            i = i + 4;
        } else {
            // A stray continuation byte or a byte above 0xf7 can lead no
            // scalar encoding.
            proof {
                assert(!is_leading_byte_width_1(rest[0]));
                assert(!is_leading_byte_width_2(rest[0]));
                assert(!is_leading_byte_width_3(rest[0]));
                assert(!is_leading_byte_width_4(rest[0]));
                assert(!valid_first_scalar(rest));
            }
            return false;
        }
    }
    proof {
        assert(s@.skip(n as int).len() == 0);
    }
    true
}

} // verus!
