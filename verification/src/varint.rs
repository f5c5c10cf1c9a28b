//! Base-128 variable-length integers, the primitive of the wire format.
//!
//! A value is stored seven bits per byte, least significant group first;
//! the high bit of a byte says that another byte follows.  Signed 32-bit
//! field values travel as the two's-complement 64-bit image of the value,
//! so a negative number occupies ten bytes on the wire.

use vstd::prelude::*;

verus! {

/// The encoding of `n`: seven bits per byte, continuation bit on every
/// byte but the last.
pub open spec fn varint_enc(n: nat) -> Seq<u8>
    decreases n,
{
    if n < 128 {
        seq![n as u8]
    } else {
        seq![((n % 128) + 128) as u8] + varint_enc(n / 128)
    }
}

/// Reads one varint from the front of `s`: the value and the number of
/// bytes consumed, or `None` if `s` ends inside the varint.
pub open spec fn varint_dec(s: Seq<u8>) -> Option<(nat, nat)>
    decreases s.len(),
{
    if s.len() == 0 {
        None
    } else if s[0] < 128 {
        Some((s[0] as nat, 1))
    } else {
        match varint_dec(s.skip(1)) {
            Some(p) => Some(((s[0] - 128 + 128 * p.0) as nat, (p.1 + 1) as nat)),
            None => None,
        }
    }
}

/// A decoded varint consumes at least one byte and no more than the input.
pub proof fn lemma_varint_dec_bounds(s: Seq<u8>)
    ensures
        match varint_dec(s) {
            Some(p) => 1 <= p.1 <= s.len(),
            None => true,
        },
    decreases s.len(),
{
    if s.len() > 0 && s[0] >= 128 {
        lemma_varint_dec_bounds(s.skip(1));
    }
}

/// Decoding undoes encoding, whatever bytes follow.
pub proof fn lemma_varint_round_trip(n: nat, rest: Seq<u8>)
    ensures
        varint_dec(varint_enc(n) + rest) == Some((n, varint_enc(n).len())),
    decreases n,
{
    let s = varint_enc(n) + rest;
    if n < 128 {
        assert(s[0] == n as u8);
    } else {
        lemma_varint_round_trip(n / 128, rest);
        assert(s[0] == ((n % 128) + 128) as u8);
        assert(s.skip(1) =~= varint_enc(n / 128) + rest);
        assert(n % 128 + 128 * (n / 128) == n) by {
            vstd::arithmetic::div_mod::lemma_fundamental_div_mod(n as int, 128);
        }
    }
}

/// Appends the encoding of `n` to `out`.
pub fn encode_varint(n: u64, out: &mut Vec<u8>)
    ensures
        final(out)@ == old(out)@ + varint_enc(n as nat),
    decreases n,
{
    if n < 128 {
        out.push(n as u8);
        assert(out@ =~= old(out)@ + varint_enc(n as nat));
    } else {
        let ghost entry = out@;
        out.push((n % 128 + 128) as u8);
        encode_varint(n / 128, out);
        assert(out@ =~= entry + varint_enc(n as nat));
    }
}

/// Reads one varint starting at index `i` of `s`.  Returns the value and
/// the index just past it; `None` where the bytes end inside the varint or
/// the value does not fit in 64 bits.
pub fn decode_varint(s: &Vec<u8>, i: usize) -> (r: Option<(u64, usize)>)
    requires
        i <= s.len(),
    ensures
        match varint_dec(s@.skip(i as int)) {
            Some(p) => if p.0 <= u64::MAX {
                r == Some((p.0 as u64, (i + p.1) as usize))
            } else {
                r is None
            },
            None => r is None,
        },
    decreases s.len() - i,
{
    proof {
        lemma_varint_dec_bounds(s@.skip(i as int));
    }
    if i == s.len() {
        None
    } else {
        let b = s[i];
        assert(s@.skip(i as int)[0] == b);
        if b < 128 {
            Some((b as u64, i + 1))
        } else {
            proof {
                assert(s@.skip(i as int).skip(1) =~= s@.skip(i + 1 as int));
            }
            match decode_varint(s, i + 1) {
                None => None,
                Some((v, j)) => {
                    let low = (b - 128) as u64;
                    proof {
                        assert(128 * ((u64::MAX - low) / 128) <= u64::MAX - low) by {
                            vstd::arithmetic::div_mod::lemma_fundamental_div_mod(
                                (u64::MAX - low) as int,
                                128,
                            );
                        }
                    }
                    if v <= (u64::MAX - low) / 128 {
                        Some((low + 128 * v, j))
                    } else {
                        None
                    }
                },
            }
        }
    }
}

/// The 64-bit two's-complement image of a signed 32-bit value, as it
/// travels in a varint field.
pub open spec fn u64_of_i32(a: int) -> nat {
    if a >= 0 {
        a as nat
    } else {
        (a + 0x1_0000_0000_0000_0000) as nat
    }
}

/// Recovers a signed 32-bit value from a varint field: the low 32 bits of
/// the wire value, read as two's complement.
pub open spec fn i32_of_u64(v: nat) -> int {
    let w = v % 0x1_0000_0000;
    if w < 0x8000_0000 {
        w as int
    } else {
        w - 0x1_0000_0000
    }
}

/// The wire image of an in-range value is itself in wire range.
pub proof fn lemma_u64_of_i32_fits(a: int)
    requires
        i32::MIN <= a <= i32::MAX,
    ensures
        u64_of_i32(a) <= u64::MAX,
{
}

/// Reading back the wire image of an in-range value gives the value.
pub proof fn lemma_i32_wire_round_trip(a: int)
    requires
        i32::MIN <= a <= i32::MAX,
    ensures
        i32_of_u64(u64_of_i32(a)) == a,
{
    if a >= 0 {
        vstd::arithmetic::div_mod::lemma_small_mod(a as nat, 0x1_0000_0000);
    } else {
        let v = a + 0x1_0000_0000_0000_0000;
        assert(v == 0x1_0000_0000 * (0xffff_ffff as int) + (a + 0x1_0000_0000));
        vstd::arithmetic::div_mod::lemma_mod_multiples_vanish(
            0xffff_ffff,
            a + 0x1_0000_0000,
            0x1_0000_0000,
        );
        vstd::arithmetic::div_mod::lemma_small_mod((a + 0x1_0000_0000) as nat, 0x1_0000_0000);
    }
}

/// The executable form of `u64_of_i32`.
pub fn i32_to_wire(a: i32) -> (r: u64)
    ensures
        r as nat == u64_of_i32(a as int),
{
    if a >= 0 {
        a as u64
    } else {
        let m = (-(a as i64)) as u64;
        u64::MAX - m + 1
    }
}

/// The executable form of `i32_of_u64`.
pub fn wire_to_i32(v: u64) -> (r: i32)
    ensures
        r as int == i32_of_u64(v as nat),
{
    let w = (v % 0x1_0000_0000) as u32;
    if w < 0x8000_0000 {
        w as i32
    } else {
        ((w - 0x8000_0000) as i32) - 0x7fff_ffff - 1
    }
}

} // verus!
