//! Wide-character encoding: every string that crosses to the native
//! windowing API is transmitted as UTF-16 code units with a terminating nul.

use vstd::prelude::*;
use vstd::string::StrSliceExecFns;

verus! {

/// The UTF-16 code units of one character: scalar values below 2^16 are one
/// unit, everything above is a surrogate pair.
pub open spec fn wide_char(c: char) -> Seq<u16> {
    if (c as u32) < 0x10000 {
        seq![c as u16]
    } else {
        seq![
            (0xD800 + ((c as int) - 0x10000) / 0x400) as u16,
            (0xDC00 + ((c as int) - 0x10000) % 0x400) as u16,
        ]
    }
}

/// The UTF-16 code units of a character sequence, in order.
pub open spec fn wide_of(s: Seq<char>) -> Seq<u16>
    decreases s.len(),
{
    if s.len() == 0 {
        Seq::empty()
    } else {
        wide_of(s.drop_last()) + wide_char(s.last())
    }
}

/// Encode a string as the native API expects it: its UTF-16 code units
/// followed by one nul unit.
pub fn encode_utf16(s: &str) -> (r: Vec<u16>)
    ensures
        r@ == wide_of(s@).push(0u16),
{
    let n = s.unicode_len();
    let mut out: Vec<u16> = Vec::new();
    let mut i: usize = 0;
    while i < n
        invariant
            n == s@.len(),
            i <= n,
            out@ == wide_of(s@.subrange(0, i as int)),
        decreases n - i,
    {
        let c = s.get_char(i);
        let code: u32 = c as u32;
        if code < 0x10000 {
            out.push(code as u16);
            proof {
                assert(out@ =~= wide_of(s@.subrange(0, i as int)) + wide_char(c));
            }
        } else {
            let off: u32 = code - 0x10000;
            let hi: u32 = 0xD800 + off / 0x400;
            let lo: u32 = 0xDC00 + off % 0x400;
            out.push(hi as u16);
            out.push(lo as u16);
            proof {
                assert(out@ =~= wide_of(s@.subrange(0, i as int)) + wide_char(c));
            }
        }
        proof {
            assert(s@.subrange(0, (i + 1) as int).drop_last() =~= s@.subrange(0, i as int));
            assert(s@.subrange(0, (i + 1) as int).last() == c);
        }
        i += 1;
    }
    proof {
        assert(s@.subrange(0, n as int) =~= s@);
    }
    out.push(0u16);
    out
}

} // verus!
