use vstd::prelude::*;
use vstd::string::StrSliceExecFns;

verus! {

/// The UTF-16 code units that encode a single Unicode scalar value: one unit
/// for a value below 0x10000, a surrogate pair otherwise.
pub open spec fn utf16_units(c: char) -> Seq<u16> {
    let n = c as u32;
    if n < 0x10000 {
        seq![n as u16]
    } else {
        seq![
            ((0xD800 + (n - 0x10000) / 0x400) as u16),
            ((0xDC00 + (n - 0x10000) % 0x400) as u16),
        ]
    }
}

/// The UTF-16 encoding of a whole character sequence.
pub open spec fn wide_seq(s: Seq<char>) -> Seq<u16>
    decreases s.len(),
{
    if s.len() == 0 {
        Seq::empty()
    } else {
        wide_seq(s.drop_last()) + utf16_units(s.last())
    }
}

/// Encodes a string the way the host windowing API expects its names and
/// captions: the UTF-16 code units of the text followed by a terminating
/// zero word.
pub fn convert_to_win32_wide_string(value: &str) -> (r: Vec<u16>)
    ensures
        r@ == wide_seq(value@).push(0u16),
{
    let len = value.unicode_len();
    let mut out: Vec<u16> = Vec::new();
    let mut i: usize = 0;
    while i < len
        invariant
            i <= len,
            len == value@.len(),
            out@ == wide_seq(value@.take(i as int)),
        decreases len - i,
    {
        let c = value.get_char(i);
        let n = c as u32;
        if n < 0x10000 {
            out.push(n as u16);
        } else {
            let offset = n - 0x10000;
            out.push((0xD800 + offset / 0x400) as u16);
            out.push((0xDC00 + offset % 0x400) as u16);
        }
        proof {
            let taken = value@.take(i as int + 1);
            assert(taken.drop_last() =~= value@.take(i as int));
            assert(taken.last() == value@[i as int]);
            assert(out@ =~= wide_seq(value@.take(i as int)) + utf16_units(value@[i as int]));
        }
        i += 1;
    }
    proof {
        assert(value@.take(len as int) =~= value@);
    }
    out.push(0);
    out
}

} // verus!
