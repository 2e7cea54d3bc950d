use vstd::prelude::*;
use vstd::string::StrSliceExecFns;

verus! {

/// The UTF-16 code units of one character: the scalar itself below 0x10000,
/// a surrogate pair above.
pub open spec fn utf16_units(c: char) -> Seq<u16> {
    let v = c as u32;
    if v < 0x10000 {
        seq![v as u16]
    } else {
        seq![
            (0xD800 + (v - 0x10000) / 0x400) as u16,
            (0xDC00 + (v - 0x10000) % 0x400) as u16,
        ]
    }
}

/// The UTF-16 encoding of a character sequence.
pub open spec fn utf16_of(s: Seq<char>) -> Seq<u16>
    decreases s.len(),
{
    if s.len() == 0 {
        seq![]
    } else {
        utf16_of(s.drop_last()) + utf16_units(s.last())
    }
}

/// A character's code point fits the unicode range and survives the cast to
/// `u32`.
proof fn lemma_char_range(c: char)
    ensures
        0 <= c as int <= 0x10FFFF,
        (c as u32) as int == c as int,
        c != '\0' ==> c as int != 0,
{
}

/// No character but the NUL character is encoded with a zero unit.
pub proof fn lemma_utf16_nonzero(s: Seq<char>)
    requires
        forall|i: int| 0 <= i < s.len() ==> s[i] != '\0',
    ensures
        forall|j: int| 0 <= j < utf16_of(s).len() ==> utf16_of(s)[j] != 0,
    decreases s.len(),
{
    if s.len() > 0 {
        let init = s.drop_last();
        lemma_utf16_nonzero(init);
        let c = s.last();
        lemma_char_range(c);
        let units = utf16_units(c);
        assert forall|k: int| 0 <= k < units.len() implies units[k] != 0 by {
            let v = c as u32;
            if v >= 0x10000 {
                assert(0xD800 + (v - 0x10000) / 0x400 < 0x10000);
                assert(0xDC00 + (v - 0x10000) % 0x400 < 0x10000);
            }
        }
        assert(utf16_of(s) == utf16_of(init) + units);
    }
}

/// The UTF-16 encoding of `s` followed by a terminating zero unit, the form
/// in which the platform takes class and window names. When `s` holds no NUL
/// character, the terminator is the only zero unit.
pub fn wide_nul(s: &str) -> (r: Vec<u16>)
    ensures
        r@ == utf16_of(s@).push(0),
        (forall|i: int| 0 <= i < s@.len() ==> s@[i] != '\0') ==> forall|j: int|
            0 <= j < r@.len() - 1 ==> r@[j] != 0,
{
    let n = s.unicode_len();
    let mut out: Vec<u16> = Vec::new();
    let mut i: usize = 0;
    while i < n
        invariant
            n == s@.len(),
            i <= n,
            out@ == utf16_of(s@.subrange(0, i as int)),
        decreases n - i,
    {
        let c = s.get_char(i);
        let v = c as u32;
        if v < 0x10000 {
            out.push(v as u16);
        } else {
            let u = v - 0x10000;
            out.push((0xD800 + u / 0x400) as u16);
            out.push((0xDC00 + u % 0x400) as u16);
        }
        proof {
            assert(s@.subrange(0, i + 1).drop_last() =~= s@.subrange(0, i as int));
        }
        i += 1;
    }
    proof {
        assert(s@.subrange(0, n as int) =~= s@);
        if forall|k: int| 0 <= k < s@.len() ==> s@[k] != '\0' {
            lemma_utf16_nonzero(s@);
        }
    }
    out.push(0);
    out
}

} // verus!
