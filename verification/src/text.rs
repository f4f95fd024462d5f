//! Character-level string utilities used to match protocol keywords:
//! comparison, whitespace trimming and ASCII case folding.

use vstd::prelude::*;

verus! {

/// Compares two strings character by character.
pub fn str_eq(a: &str, b: &str) -> (r: bool)
    ensures
        r == (a@ == b@),
{
    let alen = a.unicode_len();
    let blen = b.unicode_len();
    if alen != blen {
        proof {
            if a@ == b@ {
                assert(a@.len() == b@.len());
            }
        }
        return false;
    }
    let mut i: usize = 0;
    while i < alen
        invariant
            0 <= i <= alen,
            alen == a@.len(),
            alen == b@.len(),
            forall|j: int| 0 <= j < i ==> a@[j] == b@[j],
        decreases alen - i,
    {
        if a.get_char(i) != b.get_char(i) {
            return false;
        }
        i += 1;
    }
    proof {
        assert(a@ =~= b@);
    }
    true
}

/// Appends a byte slice to a buffer under construction.
pub fn extend_bytes(out: &mut Vec<u8>, src: &[u8])
    ensures
        final(out)@ == old(out)@ + src@,
{
    out.extend_from_slice(src);
    proof {
        assert(final(out)@ =~= old(out)@ + src@);
    }
}

/// Whether a character carries the Unicode white-space property, the set
/// trimming removes: the ASCII control whitespace and space, next line,
/// no-break space, ogham space mark, the en-quad through hair-space range,
/// the two separator characters, narrow no-break space, medium mathematical
/// space, and ideographic space.
pub open spec fn spec_is_trim_space(c: char) -> bool {
    let u = c as u32;
    ||| u == 0x9
    ||| u == 0xA
    ||| u == 0xB
    ||| u == 0xC
    ||| u == 0xD
    ||| u == 0x20
    ||| u == 0x85
    ||| u == 0xA0
    ||| u == 0x1680
    ||| (0x2000 <= u && u <= 0x200A)
    ||| u == 0x2028
    ||| u == 0x2029
    ||| u == 0x202F
    ||| u == 0x205F
    ||| u == 0x3000
}

fn is_trim_space(c: char) -> (r: bool)
    ensures
        r == spec_is_trim_space(c),
{
    let u = c as u32;
    u == 0x9 || u == 0xA || u == 0xB || u == 0xC || u == 0xD || u == 0x20 || u == 0x85 || u == 0xA0
        || u == 0x1680 || (0x2000 <= u && u <= 0x200A) || u == 0x2028 || u == 0x2029 || u == 0x202F
        || u == 0x205F || u == 0x3000
}

/// A scalar value with the ASCII upper-case letters folded to lower case.
pub open spec fn spec_lower_u32(u: u32) -> u32 {
    if 65 <= u && u <= 90 {
        (u + 32) as u32
    } else {
        u
    }
}

/// A character sequence as its scalar values.
pub open spec fn spec_chars_u32(s: Seq<char>) -> Seq<u32> {
    s.map_values(|c: char| c as u32)
}

/// The sequence with leading white space removed.
pub open spec fn spec_trim_front(s: Seq<char>) -> Seq<char>
    decreases s.len(),
{
    if s.len() > 0 && spec_is_trim_space(s[0]) {
        spec_trim_front(s.drop_first())
    } else {
        s
    }
}

/// The sequence with trailing white space removed.
pub open spec fn spec_trim_back(s: Seq<char>) -> Seq<char>
    decreases s.len(),
{
    if s.len() > 0 && spec_is_trim_space(s.last()) {
        spec_trim_back(s.drop_last())
    } else {
        s
    }
}

/// The sequence with white space removed from both ends.
pub open spec fn spec_trim(s: Seq<char>) -> Seq<char> {
    spec_trim_back(spec_trim_front(s))
}

/// A string normalized for keyword matching: trimmed of white space, then
/// ASCII-case-folded, as scalar values.
pub open spec fn spec_normalized_u32(s: Seq<char>) -> Seq<u32> {
    spec_trim(s).map_values(|c: char| spec_lower_u32(c as u32))
}

/// Normalizes a string for keyword matching: trims white space from both
/// ends and folds ASCII upper-case letters to lower case.
pub fn normalize_u32(raw: &str) -> (r: Vec<u32>)
    ensures
        r@ == spec_normalized_u32(raw@),
{
    let n = raw.unicode_len();
    let mut chars: Vec<char> = Vec::new();
    let mut i: usize = 0;
    while i < n
        invariant
            0 <= i <= n,
            n == raw@.len(),
            chars@ == raw@.take(i as int),
        decreases n - i,
    {
        chars.push(raw.get_char(i));
        i += 1;
        proof {
            assert(chars@ =~= raw@.take(i as int));
        }
    }
    proof {
        assert(raw@.take(n as int) =~= raw@);
        assert(raw@.skip(0) =~= raw@);
    }
    let mut start: usize = 0;
    while start < n && is_trim_space(chars[start])
        invariant
            0 <= start <= n,
            n == raw@.len(),
            chars@ == raw@,
            spec_trim_front(raw@) == spec_trim_front(raw@.skip(start as int)),
        decreases n - start,
    {
        proof {
            assert(raw@.skip(start as int)[0] == raw@[start as int]);
            assert(raw@.skip(start as int).drop_first() =~= raw@.skip(start + 1));
        }
        start += 1;
    }
    proof {
        if start < n {
            assert(raw@.skip(start as int)[0] == raw@[start as int]);
        } else {
            assert(raw@.skip(start as int) =~= Seq::<char>::empty());
        }
        assert(spec_trim_front(raw@) == raw@.skip(start as int));
    }
    let ghost front = raw@.skip(start as int);
    proof {
        assert(front.take((n - start) as int) =~= front);
    }
    let mut end: usize = n;
    while end > start && is_trim_space(chars[end - 1])
        invariant
            start <= end <= n,
            n == raw@.len(),
            chars@ == raw@,
            front == raw@.skip(start as int),
            spec_trim_back(front) == spec_trim_back(front.take(end - start)),
        decreases end,
    {
        proof {
            let m = end - start;
            assert(front.take(m as int).last() == raw@[end - 1]);
            assert(front.take(m as int).drop_last() =~= front.take(m - 1));
        }
        end -= 1;
    }
    proof {
        let m = end - start;
        if end > start {
            assert(front.take(m as int).last() == raw@[end - 1]);
        } else {
            assert(front.take(m as int) =~= Seq::<char>::empty());
        }
        assert(spec_trim_back(front) == front.take(m as int));
        assert(front.take(m as int) =~= raw@.subrange(start as int, end as int));
        assert(spec_trim(raw@) == raw@.subrange(start as int, end as int));
    }
    let mut out: Vec<u32> = Vec::new();
    let mut j: usize = start;
    while j < end
        invariant
            start <= j <= end <= n,
            n == raw@.len(),
            chars@ == raw@,
            out@ == raw@.subrange(start as int, j as int).map_values(
                |c: char| spec_lower_u32(c as u32),
            ),
        decreases end - j,
    {
        let u = chars[j] as u32;
        let lu = if 65 <= u && u <= 90 {
            u + 32
        } else {
            u
        };
        out.push(lu);
        j += 1;
        proof {
            assert(out@ =~= raw@.subrange(start as int, j as int).map_values(
                |c: char| spec_lower_u32(c as u32),
            ));
        }
    }
    proof {
        assert(out@ == spec_normalized_u32(raw@));
    }
    out
}

/// Compares normalized scalar values against a keyword.
pub fn u32s_eq_chars(v: &Vec<u32>, lit: &str) -> (r: bool)
    ensures
        r == (v@ == spec_chars_u32(lit@)),
{
    let m = lit.unicode_len();
    if v.len() != m {
        proof {
            if v@ == spec_chars_u32(lit@) {
                assert(v@.len() == lit@.len());
            }
        }
        return false;
    }
    let mut j: usize = 0;
    while j < m
        invariant
            0 <= j <= m,
            m == lit@.len(),
            m == v@.len(),
            forall|k: int| 0 <= k < j ==> v@[k] == spec_chars_u32(lit@)[k],
        decreases m - j,
    {
        if v[j] != lit.get_char(j) as u32 {
            proof {
                assert(spec_chars_u32(lit@)[j as int] == lit@[j as int] as u32);
            }
            return false;
        }
        j += 1;
    }
    proof {
        assert(v@ =~= spec_chars_u32(lit@));
    }
    true
}

} // verus!
