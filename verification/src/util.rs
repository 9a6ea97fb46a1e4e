//! Shared vocabulary of the machine: access widths, fault taxonomy, and the
//! arithmetic and little-endian byte specifications the other modules state
//! their contracts over.

use vstd::prelude::*;

verus! {

/// Width of one bus access, in bytes.
#[derive(Clone, Copy, Debug, PartialEq, Eq, Structural)]
pub enum MemorySize {
    Byte,
    HalfWord,
    Word,
}

impl MemorySize {
    /// The number of bytes this access width covers.
    pub open spec fn width(self) -> int {
        match self {
            MemorySize::Byte => 1,
            MemorySize::HalfWord => 2,
            MemorySize::Word => 4,
        }
    }

    /// Executable counterpart of `width`.
    pub fn bytes(self) -> (n: usize)
        ensures
            n == self.width(),
    {
        match self {
            MemorySize::Byte => 1,
            MemorySize::HalfWord => 2,
            MemorySize::Word => 4,
        }
    }
}

/// Every fault is fatal to the simulated machine: there is no in-band
/// recovery, retry, or instruction-skip behaviour.
#[derive(Clone, Copy, Debug, PartialEq, Eq, Structural)]
pub enum Fault {
    /// The address is unmapped, or the access would run past the end of the
    /// region that contains its first byte.
    AddressFault { address: u32 },
    /// A write targeted the read-only region.
    WriteProtectFault { address: u32 },
    /// No dispatch rule matches the fetched instruction word.
    DecodeFault { word: u32 },
}

/// 32-bit wraparound addition, the arithmetic of AUIPC, ADDI, ADD and of the
/// program counter.
pub open spec fn wadd(a: u32, b: u32) -> u32 {
    if a + b > u32::MAX {
        (a + b - 0x1_0000_0000) as u32
    } else {
        (a + b) as u32
    }
}

/// 32-bit wraparound subtraction, the arithmetic of SUB.
pub open spec fn wsub(a: u32, b: u32) -> u32 {
    if a - b < 0 {
        (a - b + 0x1_0000_0000) as u32
    } else {
        (a - b) as u32
    }
}

/// The value a 32-bit word denotes under two's-complement interpretation.
pub open spec fn to_signed(x: u32) -> int {
    if x < 0x8000_0000 {
        x as int
    } else {
        x as int - 0x1_0000_0000
    }
}

/// Signed less-than on two's-complement 32-bit words (SLTI, SLT).
pub open spec fn s_lt(a: u32, b: u32) -> bool {
    to_signed(a) < to_signed(b)
}

/// Flipping the sign bit moves a word by 2^31, up from the non-negative half
/// and down from the negative one; comparing the flipped words unsigned is
/// comparing the originals signed.
proof fn lemma_sign_flip(x: u32)
    by (bit_vector)
    ensures
        x < 0x8000_0000 ==> (x ^ 0x8000_0000) == x + 0x8000_0000,
        x >= 0x8000_0000 ==> (x ^ 0x8000_0000) == x - 0x8000_0000,
{
}

/// Executable signed less-than, proved against `s_lt`.
pub fn signed_lt(a: u32, b: u32) -> (r: bool)
    ensures
        r == s_lt(a, b),
{
    proof {
        lemma_sign_flip(a);
        lemma_sign_flip(b);
    }
    (a ^ 0x8000_0000) < (b ^ 0x8000_0000)
}

/// Arithmetic (sign-filling) right shift of a 32-bit word: the vacated high
/// bits repeat the sign bit (SRAI, SRA).
pub open spec fn sra32(x: u32, sh: u32) -> u32
    recommends
        sh < 32,
{
    if x < 0x8000_0000 {
        x >> sh
    } else {
        (x >> sh) | !(0xFFFF_FFFFu32 >> sh)
    }
}

/// The mask formula of `sra32` is exactly the arithmetic right shift of the
/// word read as a signed integer.
pub proof fn lemma_sra32_is_arithmetic_shift(x: u32, sh: u32)
    by (bit_vector)
    requires
        sh < 32,
    ensures
        sra32(x, sh) == ((x as i32) >> sh) as u32,
{
}

/// Executable arithmetic right shift, proved against `sra32`.
pub fn shift_right_arithmetic(x: u32, sh: u32) -> (r: u32)
    requires
        sh < 32,
    ensures
        r == sra32(x, sh),
{
    if x < 0x8000_0000 {
        x >> sh
    } else {
        (x >> sh) | !(0xFFFF_FFFFu32 >> sh)
    }
}

/// The value the `w` bytes at `off` hold, least significant byte first.
pub open spec fn le_read(s: Seq<u8>, off: int, w: int) -> u32
    recommends
        0 <= off,
        off + w <= s.len(),
        w == 1 || w == 2 || w == 4,
{
    if w == 1 {
        s[off] as u32
    } else if w == 2 {
        (s[off] + s[off + 1] * 0x100) as u32
    } else {
        (s[off] + s[off + 1] * 0x100 + s[off + 2] * 0x1_0000 + s[off + 3] * 0x100_0000) as u32
    }
}

/// The sequence after storing the low `w` bytes of `v` at `off`, least
/// significant byte first; bytes outside `[off, off + w)` keep their values.
pub open spec fn le_write(s: Seq<u8>, off: int, w: int, v: u32) -> Seq<u8>
    recommends
        0 <= off,
        off + w <= s.len(),
        w == 1 || w == 2 || w == 4,
{
    if w == 1 {
        s.update(off, (v % 0x100) as u8)
    } else if w == 2 {
        s.update(off, (v % 0x100) as u8).update(off + 1, ((v / 0x100) % 0x100) as u8)
    } else {
        s.update(off, (v % 0x100) as u8).update(off + 1, ((v / 0x100) % 0x100) as u8).update(
            off + 2,
            ((v / 0x1_0000) % 0x100) as u8,
        ).update(off + 3, ((v / 0x100_0000) % 0x100) as u8)
    }
}

/// Reading back the bytes a write stored recomposes the written value,
/// reduced to the width of the access.
pub proof fn lemma_le_write_read(s: Seq<u8>, off: int, w: int, v: u32)
    requires
        0 <= off,
        off + w <= s.len(),
        w == 1 || w == 2 || w == 4,
    ensures
        w == 1 ==> le_read(le_write(s, off, w, v), off, w) == v % 0x100,
        w == 2 ==> le_read(le_write(s, off, w, v), off, w) == v % 0x1_0000,
        w == 4 ==> le_read(le_write(s, off, w, v), off, w) == v,
{
    assert(v % 0x100 + (v / 0x100) % 0x100 * 0x100 == v % 0x1_0000) by (bit_vector);
    assert(v % 0x100 + (v / 0x100) % 0x100 * 0x100 + (v / 0x1_0000) % 0x100 * 0x1_0000 + (v
        / 0x100_0000) % 0x100 * 0x100_0000 == v) by (bit_vector);
}

/// A zero-filled byte vector of the requested length.
pub fn zero_bytes(n: usize) -> (v: Vec<u8>)
    ensures
        v@.len() == n,
        forall|i: int| 0 <= i < n ==> v@[i] == 0u8,
{
    let mut v: Vec<u8> = Vec::new();
    let mut i: usize = 0;
    while i < n
        invariant
            i <= n,
            v@.len() == i,
            forall|k: int| 0 <= k < i ==> v@[k] == 0u8,
        decreases n - i,
    {
        v.push(0u8);
        i = i + 1;
    }
    v
}

} // verus!
