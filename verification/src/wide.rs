//! Wide-character text for the native surface.
//!
//! The window-message platform takes its window titles, labels and tooltips
//! as NUL-terminated UTF-16. The conversion is plain computation, so it is
//! done — and specified — here; the embedder only hands the result to the
//! platform call.

use vstd::prelude::*;
use vstd::string::StrSliceExecFns;

verus! {

/// The UTF-16 encoding of one character: itself for the basic plane, a
/// surrogate pair above it.
pub open spec fn spec_utf16_units(c: char) -> Seq<u16> {
    if (c as nat) < 0x10000 {
        seq![c as u16]
    } else {
        seq![
            (0xD800 + ((c as nat) - 0x10000) / 0x400) as u16,
            (0xDC00 + ((c as nat) - 0x10000) % 0x400) as u16,
        ]
    }
}

/// The UTF-16 encoding of a whole text, character by character.
pub open spec fn spec_utf16(s: Seq<char>) -> Seq<u16>
    decreases s.len(),
{
    if s.len() == 0 {
        Seq::empty()
    } else {
        spec_utf16(s.drop_last()) + spec_utf16_units(s.last())
    }
}

/// Encodes `s` as UTF-16 with a terminating NUL, the shape the
/// window-message platform's text arguments take.
pub fn to_wstring(s: &str) -> (r: Vec<u16>)
    ensures
        r@ == spec_utf16(s@) + seq![0u16],
{
    let len = s.unicode_len();
    let mut r: Vec<u16> = Vec::new();
    let mut i: usize = 0;
    while i < len
        invariant
            len == s@.len(),
            0 <= i <= len,
            r@ == spec_utf16(s@.take(i as int)),
        decreases len - i,
    {
        let c = s.get_char(i);
        let code: u32 = c as u32;
        if code < 0x10000 {
            r.push(code as u16);
        } else {
            let v: u32 = code - 0x10000;
            proof {
                vstd::utf8::char_is_scalar(c);
                assert(code <= 0x10FFFF);
                assert(v / 0x400 < 0x400) by (nonlinear_arith)
                    requires
                        v < 0x100000,
                ;
                assert(v % 0x400 < 0x400);
            }
            r.push(0xD800 + (v / 0x400) as u16);
            r.push(0xDC00 + (v % 0x400) as u16);
        }
        i = i + 1;
        proof {
            assert(s@.take(i as int).drop_last() =~= s@.take(i as int - 1));
            assert(s@.take(i as int).last() == s@[i as int - 1]);
            assert(r@ =~= spec_utf16(s@.take(i as int)));
        }
    }
    r.push(0);
    proof {
        assert(s@.take(len as int) =~= s@);
        assert(r@ =~= spec_utf16(s@) + seq![0u16]);
    }
    r
}

} // verus!
