//! z-base-32, the human-oriented base-32 encoding that spells user identifiers.
use vstd::prelude::*;

verus! {

/// The 32 symbols of z-base-32, in the order of the values they stand for.
pub const ZBASE32_ALPHABET: &'static str = "ybndrfg8ejkmcpqxot1uwisza345h769";

/// Bit `p` of `b`, counting from the most significant bit of the first byte;
/// zero past the end.
pub open spec fn bit_at(b: Seq<u8>, p: int) -> u8 {
    if 0 <= p < 8 * b.len() {
        (b[p / 8] >> ((7 - p % 8) as u8)) & 1u8
    } else {
        0u8
    }
}

/// The value of the five bits that start at bit `5 * k`.
pub open spec fn quintet_at(b: Seq<u8>, k: int) -> int {
    16 * bit_at(b, 5 * k) + 8 * bit_at(b, 5 * k + 1) + 4 * bit_at(b, 5 * k + 2) + 2 * bit_at(
        b,
        5 * k + 3,
    ) + bit_at(b, 5 * k + 4)
}

/// Number of symbols for `n` bytes: one per five bits, the last one padded with zeros.
pub open spec fn z32_len(n: nat) -> nat {
    (8 * n + 4) as nat / 5
}

/// The z-base-32 text of `b`.
pub open spec fn z32_encode_spec(b: Seq<u8>) -> Seq<char> {
    Seq::new(z32_len(b.len()), |k: int| ZBASE32_ALPHABET@[quintet_at(b, k)])
}

fn bit(b: &[u8], p: usize) -> (r: u8)
    requires
        b@.len() <= 0x1000_0000,
    ensures
        r == bit_at(b@, p as int),
        r <= 1,
{
    if p < 8 * b.len() {
        let x = b[p / 8];
        let s = (7 - p % 8) as u8;
        let r = (x >> s) & 1u8;
        assert((x >> s) & 1u8 <= 1u8) by (bit_vector);
        r
    } else {
        0u8
    }
}

/// Encodes `b` in z-base-32.
pub fn z32_encode(b: &[u8]) -> (r: String)
    requires
        b@.len() <= 0x1000_0000,
    ensures
        r@ == z32_encode_spec(b@),
{
    proof {
        reveal_strlit("ybndrfg8ejkmcpqxot1uwisza345h769");
    }
    let n = (8 * b.len() + 4) / 5;
    let mut out = String::new();
    let mut k: usize = 0;
    while k < n
        invariant
            b@.len() <= 0x1000_0000,
            n == z32_len(b@.len() as nat),
            k <= n,
            ZBASE32_ALPHABET@.len() == 32,
            out@ =~= z32_encode_spec(b@).subrange(0, k as int),
        decreases n - k,
    {
        let g = 16 * bit(b, 5 * k) + 8 * bit(b, 5 * k + 1) + 4 * bit(b, 5 * k + 2) + 2 * bit(
            b,
            5 * k + 3,
        ) + bit(b, 5 * k + 4);
        let g = g as usize;
        let sym = ZBASE32_ALPHABET.substring_char(g, g + 1);
        out.append(sym);
        assert(out@ =~= z32_encode_spec(b@).subrange(0, k as int + 1));
        k = k + 1;
    }
    out
}

} // verus!
