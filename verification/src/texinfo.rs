//! Texture-info lump decoding.
//!
//! A record is 76 bytes: two projection axes with their offsets (eight
//! float words), flags, value, a 32-byte NUL-padded name, and a chain
//! index. The name decodes by discarding NUL bytes, reading the rest as
//! characters, and trimming surrounding whitespace.

use crate::decode::lump_in_range;
use crate::decode::lump_len;
use crate::decode::lump_off;
use crate::decode::BSP38;
use crate::decode::BSP38Lump;
use crate::decode::LUMP_TEXINFO;
use crate::bytes::le32;
use crate::bytes::read_u32_at;
use vstd::prelude::*;

verus! {

/// One decoded texture-info record; the eight axis fields are float
/// words.
#[derive(Debug)]
pub struct TextureInfo {
    pub u: [u32; 3],
    pub u0: u32,
    pub v: [u32; 3],
    pub v0: u32,
    pub flags: u32,
    pub value: u32,
    pub texture: String,
    pub next: u32,
}

/// Byte offset of the texture-info lump.
pub open spec fn tex_off(b: Seq<u8>) -> int {
    lump_off(b, 5)
}

/// Number of texture-info records: 76 bytes each.
pub open spec fn num_tex(b: Seq<u8>) -> int {
    lump_len(b, 5) / 76
}

/// The `j`-th 32-bit word of record `t` (axes, offsets, flags, value).
pub open spec fn tex_word(b: Seq<u8>, t: int, j: int) -> u32 {
    le32(b, tex_off(b) + 76 * t + 4 * j)
}

/// The `i`-th byte of record `t`'s 32-byte name field.
pub open spec fn tex_name_byte(b: Seq<u8>, t: int, i: int) -> u8 {
    b[tex_off(b) + 76 * t + 40 + i]
}

/// The chain index of record `t`.
pub open spec fn tex_next(b: Seq<u8>, t: int) -> u32 {
    le32(b, tex_off(b) + 76 * t + 72)
}

/// The first `i` name bytes of record `t`, NUL bytes discarded, the rest
/// read as characters.
pub open spec fn tex_kept_chars(b: Seq<u8>, t: int, i: int) -> Seq<char>
    decreases i,
{
    if i <= 0 {
        Seq::empty()
    } else if tex_name_byte(b, t, i - 1) == 0 {
        tex_kept_chars(b, t, i - 1)
    } else {
        tex_kept_chars(b, t, i - 1).push(tex_name_byte(b, t, i - 1) as char)
    }
}

/// Whitespace characters a name byte can decode to (the characters up to
/// 0xFF for which `char::is_whitespace` holds).
pub open spec fn is_space(c: char) -> bool {
    c == ' ' || c == '\t' || c == '\n' || c == '\u{B}' || c == '\u{C}' || c == '\r' || c
        == '\u{85}' || c == '\u{A0}'
}

/// Index of the first non-whitespace character at or after `lo`.
pub open spec fn first_non_space(s: Seq<char>, lo: int) -> int
    decreases s.len() - lo,
{
    if 0 <= lo < s.len() && is_space(s[lo]) {
        first_non_space(s, lo + 1)
    } else {
        lo
    }
}

/// One past the index of the last non-whitespace character before `hi`.
pub open spec fn last_non_space(s: Seq<char>, hi: int) -> int
    decreases hi,
{
    if 0 < hi <= s.len() && is_space(s[hi - 1]) {
        last_non_space(s, hi - 1)
    } else {
        hi
    }
}

/// `s` with surrounding whitespace removed.
pub open spec fn trimmed(s: Seq<char>) -> Seq<char> {
    if first_non_space(s, 0) == s.len() {
        Seq::empty()
    } else {
        s.subrange(first_non_space(s, 0), last_non_space(s, s.len() as int))
    }
}

/// The decoded name of record `t`: NUL bytes dropped, then trimmed.
pub open spec fn tex_name(b: Seq<u8>, t: int) -> Seq<char> {
    trimmed(tex_kept_chars(b, t, 32))
}

/// A non-whitespace character at `f` keeps the trimmed tail end past it.
proof fn lemma_last_non_space_past(s: Seq<char>, f: int, hi: int)
    requires
        0 <= f < hi <= s.len(),
        !is_space(s[f]),
    ensures
        last_non_space(s, hi) >= f + 1,
    decreases hi,
{
    if is_space(s[hi - 1]) {
        lemma_last_non_space_past(s, f, hi - 1);
    }
}

/// Relies on String's FromIterator impl: collecting characters yields a
/// string holding exactly those characters in order.
#[verifier::external_body]
fn chars_to_string(cs: &Vec<char>) -> (r: String)
    ensures
        r@ == cs@,
{
    cs.iter().copied().collect()
}

impl BSP38 {
    /// Decode the texture-info lump in file order.
    pub fn read_texture_info(&self) -> (r: Vec<TextureInfo>)
        requires
            self.wf_header(),
        ensures
            r@.len() == num_tex(self.bytes@),
            forall|t: int|
                0 <= t < r@.len() ==> {
                    &&& (#[trigger] r@[t]).u@[0] == tex_word(self.bytes@, t, 0)
                    &&& r@[t].u@[1] == tex_word(self.bytes@, t, 1)
                    &&& r@[t].u@[2] == tex_word(self.bytes@, t, 2)
                    &&& r@[t].u0 == tex_word(self.bytes@, t, 3)
                    &&& r@[t].v@[0] == tex_word(self.bytes@, t, 4)
                    &&& r@[t].v@[1] == tex_word(self.bytes@, t, 5)
                    &&& r@[t].v@[2] == tex_word(self.bytes@, t, 6)
                    &&& r@[t].v0 == tex_word(self.bytes@, t, 7)
                    &&& r@[t].flags == tex_word(self.bytes@, t, 8)
                    &&& r@[t].value == tex_word(self.bytes@, t, 9)
                    &&& r@[t].texture@ == tex_name(self.bytes@, t)
                    &&& r@[t].next == tex_next(self.bytes@, t)
                },
    {
        let ghost b = self.bytes@;
        proof {
            assert(lump_in_range(b, 5));
            assert(self.lumps@[5].offset as int == lump_off(b, 5));
            assert(self.lumps@[5].length as int == lump_len(b, 5));
        }
        let lump: BSP38Lump = self.lumps[LUMP_TEXINFO];
        let off: usize = lump.offset as usize;
        let llen: usize = lump.length as usize;
        let count: usize = llen / 76;
        proof {
            assert(count as int == num_tex(b));
            assert(76 * (llen as int / 76) <= llen as int) by (nonlinear_arith)
                requires llen >= 0;
        }
        let mut r: Vec<TextureInfo> = Vec::new();
        let mut t: usize = 0;
        while t < count
            invariant
                self.wf_header(),
                b == self.bytes@,
                count as int == num_tex(b),
                off as int == tex_off(b),
                off + 76 * count <= self.bytes@.len(),
                t <= count,
                r@.len() == t,
                forall|q: int|
                    0 <= q < t ==> {
                        &&& (#[trigger] r@[q]).u@[0] == tex_word(b, q, 0)
                        &&& r@[q].u@[1] == tex_word(b, q, 1)
                        &&& r@[q].u@[2] == tex_word(b, q, 2)
                        &&& r@[q].u0 == tex_word(b, q, 3)
                        &&& r@[q].v@[0] == tex_word(b, q, 4)
                        &&& r@[q].v@[1] == tex_word(b, q, 5)
                        &&& r@[q].v@[2] == tex_word(b, q, 6)
                        &&& r@[q].v0 == tex_word(b, q, 7)
                        &&& r@[q].flags == tex_word(b, q, 8)
                        &&& r@[q].value == tex_word(b, q, 9)
                        &&& r@[q].texture@ == tex_name(b, q)
                        &&& r@[q].next == tex_next(b, q)
                    },
            decreases count - t,
        {
            let base: usize = off + 76 * t;
            let u = [
                read_u32_at(&self.bytes, base),
                read_u32_at(&self.bytes, base + 4),
                read_u32_at(&self.bytes, base + 8),
            ];
            let u0: u32 = read_u32_at(&self.bytes, base + 12);
            let v = [
                read_u32_at(&self.bytes, base + 16),
                read_u32_at(&self.bytes, base + 20),
                read_u32_at(&self.bytes, base + 24),
            ];
            let v0: u32 = read_u32_at(&self.bytes, base + 28);
            let flags: u32 = read_u32_at(&self.bytes, base + 32);
            let value: u32 = read_u32_at(&self.bytes, base + 36);
            let mut kept: Vec<char> = Vec::new();
            let mut i: usize = 0;
            while i < 32
                invariant
                    b == self.bytes@,
                    base as int == tex_off(b) + 76 * t,
                    base + 76 <= self.bytes@.len(),
                    t < count,
                    count as int == num_tex(b),
                    i <= 32,
                    kept@ == tex_kept_chars(b, t as int, i as int),
                decreases 32 - i,
            {
                let c: u8 = self.bytes[base + 40 + i];
                if c != 0 {
                    kept.push(c as char);
                }
                i += 1;
            }
            let mut lo: usize = 0;
            let n: usize = kept.len();
            while lo < n && is_space_exec(kept[lo])
                invariant
                    n == kept@.len(),
                    lo <= n,
                    first_non_space(kept@, 0) == first_non_space(kept@, lo as int),
                decreases n - lo,
            {
                lo += 1;
            }
            let mut hi: usize = n;
            while hi > lo && is_space_exec(kept[hi - 1])
                invariant
                    n == kept@.len(),
                    lo <= hi <= n,
                    lo < n ==> lo < hi,
                    lo as int == first_non_space(kept@, 0),
                    lo < n ==> !is_space(kept@[lo as int]),
                    last_non_space(kept@, n as int) == last_non_space(kept@, hi as int),
                decreases hi,
            {
                hi -= 1;
            }
            let mut name_chars: Vec<char> = Vec::new();
            let mut q: usize = lo;
            while q < hi
                invariant
                    n == kept@.len(),
                    lo <= hi <= n,
                    lo <= q <= hi,
                    name_chars@ == kept@.subrange(lo as int, q as int),
                decreases hi - q,
            {
                name_chars.push(kept[q]);
                q += 1;
            }
            proof {
                if lo < n {
                    lemma_last_non_space_past(kept@, lo as int, n as int);
                    assert(hi as int == last_non_space(kept@, n as int));
                    assert(name_chars@ == trimmed(kept@));
                } else {
                    assert(first_non_space(kept@, 0) == n);
                    assert(name_chars@ =~= trimmed(kept@));
                }
            }
            let texture: String = chars_to_string(&name_chars);
            let next: u32 = read_u32_at(&self.bytes, base + 72);
            r.push(TextureInfo { u, u0, v, v0, flags, value, texture, next });
            t += 1;
        }
        r
    }
}

/// Whether the character is surrounding whitespace for name trimming.
fn is_space_exec(c: char) -> (r: bool)
    ensures
        r == is_space(c),
{
    c == ' ' || c == '\t' || c == '\n' || c == '\u{B}' || c == '\u{C}' || c == '\r' || c == '\u{85}'
        || c == '\u{A0}'
}

} // verus!
