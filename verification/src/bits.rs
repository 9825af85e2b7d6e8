//! Byte-level arithmetic shared by the processor models: pairing two bytes into a
//! word, splitting a word, and the parity of a byte.
use vstd::prelude::*;

verus! {

/// The 16-bit value whose high byte is `hi` and whose low byte is `lo`.
pub open spec fn word(hi: u8, lo: u8) -> int {
    hi as int * 256 + lo as int
}

/// The high byte of a 16-bit value.
pub open spec fn high_byte(w: int) -> u8 {
    ((w / 256) % 256) as u8
}

/// The low byte of a 16-bit value.
pub open spec fn low_byte(w: int) -> u8 {
    (w % 256) as u8
}

/// Number of one bits in the binary representation of `x`.
pub open spec fn ones(x: nat) -> nat
    decreases x,
{
    if x == 0 {
        0
    } else {
        x % 2 + ones(x / 2)
    }
}

/// True when `x` has an even number of one bits.
pub open spec fn even_parity(x: u8) -> bool {
    ones(x as nat) % 2 == 0
}

/// A number never has more one bits than its own value.
pub proof fn lemma_ones_le(x: nat)
    ensures
        ones(x) <= x,
    decreases x,
{
    if x > 0 {
        lemma_ones_le(x / 2);
    }
}

/// Counts the one bits of a byte.
pub fn count_ones(x: u8) -> (r: u32)
    ensures
        r == ones(x as nat),
{
    let mut n: u8 = x;
    let mut count: u32 = 0;
    proof {
        lemma_ones_le(x as nat);
    }
    while n > 0
        invariant
            count + ones(n as nat) == ones(x as nat),
            ones(x as nat) <= 255,
        decreases n,
    {
        count = count + (n % 2) as u32;
        n = n / 2;
    }
    count
}

/// Joins a high byte and a low byte into a 16-bit word.
pub fn join_bytes(hi: u8, lo: u8) -> (r: u16)
    ensures
        r == word(hi, lo),
{
    (hi as u16) * 256 + (lo as u16)
}

/// Splits a 16-bit word into its high byte and its low byte.
pub fn split_word(w: u16) -> (r: (u8, u8))
    ensures
        r.0 == high_byte(w as int),
        r.1 == low_byte(w as int),
        word(r.0, r.1) == w,
{
    ((w / 256) as u8, (w % 256) as u8)
}

/// The low four bits of a byte.
pub fn low_nibble(x: u8) -> (r: u8)
    ensures
        r == x % 16,
{
    proof {
        lemma_masks(x, 0);
    }
    x & 0x0F
}

/// How masks and shifts on a byte read as arithmetic.
pub proof fn lemma_masks(a: u8, m: u8)
    by (bit_vector)
    requires
        m <= 1,
    ensures
        a & 0x0F == a % 16,
        (a & 0x80) >> 7 == a / 128,
        a & 0x01 == a % 2,
        ((a << 1) | m) == ((a % 128) * 2 + m) as u8,
        ((a >> 1) | (m << 7)) == (a / 2 + m * 128) as u8,
{
}

} // verus!
