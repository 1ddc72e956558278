//! Executable CRC-16 engine: bit reflector, table builder, and the
//! seed / update / finalize operations on the 16-bit register.

use vstd::prelude::*;

verus! {

use crate::CrcParams;
use crate::model::spec_reflect8;
use crate::model::spec_reflect16;
use crate::model::spec_table_steps;
use crate::model::spec_table_entry;
use crate::model::spec_seed_steps;
use crate::model::spec_init;
use crate::model::spec_update;
use crate::model::spec_finalize;
use crate::model::lemma_update_push;

/// The table invariant every register operation relies on: `t` is the
/// 256-entry lookup table for this polynomial and reflection convention.
pub open spec fn table_for(t: Seq<u16>, poly: u16, refin: bool) -> bool {
    &&& t.len() == 256
    &&& forall|i: int| 0 <= i < 256 ==> t[i] == spec_table_entry(poly, refin, i as u8)
}

/// Reverses the bit order of a byte.
pub fn reflect8(b: u8) -> (r: u8)
    ensures
        r == spec_reflect8(b),
{
    ((b & 0x01) << 7) | ((b & 0x02) << 5) | ((b & 0x04) << 3) | ((b & 0x08) << 1)
        | ((b & 0x10) >> 1) | ((b & 0x20) >> 3) | ((b & 0x40) >> 5) | ((b & 0x80) >> 7)
}

/// Reverses the bit order of a 16-bit value.
pub fn reflect16(v: u16) -> (r: u16)
    ensures
        r == spec_reflect16(v),
{
    (((reflect8((v & 0xff) as u8)) as u16) << 8) | ((reflect8((v >> 8) as u8)) as u16)
}

/// Builds the 256-entry lookup table for byte-wise CRC update under the
/// given polynomial and input-reflection convention.
pub fn build_table(poly: u16, refin: bool) -> (t: Vec<u16>)
    ensures
        table_for(t@, poly, refin),
{
    let mut t: Vec<u16> = Vec::new();
    let mut b: u16 = 0;
    while b < 256
        invariant
            b <= 256,
            t@.len() == b,
            forall|i: int| 0 <= i < b ==> t@[i] == spec_table_entry(poly, refin, i as u8),
        decreases 256 - b,
    {
        let seed: u16 = if refin {
            b
        } else {
            b << 8
        };
        let mut v: u16 = seed;
        let mut j: u16 = 0;
        let rp: u16 = reflect16(poly);
        while j < 8
            invariant
                j <= 8,
                v == spec_table_steps(poly, refin, seed, j as nat),
                rp == spec_reflect16(poly),
            decreases 8 - j,
        {
            if refin {
                if v & 1 == 1 {
                    v = (v >> 1) ^ rp;
                } else {
                    v = v >> 1;
                }
            } else {
                if v & 0x8000 != 0 {
                    v = (v << 1) ^ poly;
                } else {
                    v = v << 1;
                }
            }
            j = j + 1;
        }
        assert(b as u8 as u16 == b) by (bit_vector)
            requires
                b < 256,
        ;
        t.push(v);
        b = b + 1;
    }
    t
}

/// Seeds the starting register of a variant: the bit-serial pass over the
/// raw initial value, then the reflected-domain conversion for
/// reflected-input variants.
pub fn init_register(p: &CrcParams) -> (r: u16)
    ensures
        r == spec_init(*p),
{
    let mut v: u16 = p.init;
    let mut i: u16 = 0;
    while i < 16
        invariant
            i <= 16,
            v == spec_seed_steps(p.poly, p.init, i as nat),
        decreases 16 - i,
    {
        if v & 1 == 1 {
            v = ((v ^ p.poly) >> 1) | 0x8000;
        } else {
            v = v >> 1;
        }
        i = i + 1;
    }
    if p.refin {
        reflect16(v)
    } else {
        v
    }
}

/// Folds every byte of `msg`, in order, into the register through one table
/// lookup per byte.
pub fn update_register(p: &CrcParams, table: &Vec<u16>, crc: u16, msg: &[u8]) -> (r: u16)
    requires
        table_for(table@, p.poly, p.refin),
    ensures
        r == spec_update(*p, crc, msg@),
{
    let mut c: u16 = crc;
    let mut i: usize = 0;
    while i < msg.len()
        invariant
            i <= msg@.len(),
            table_for(table@, p.poly, p.refin),
            c == spec_update(*p, crc, msg@.subrange(0, i as int)),
        decreases msg@.len() - i,
    {
        let b: u8 = msg[i];
        if p.refin {
            let idx: u16 = c & 0xff;
            assert(c & 0xff < 256) by (bit_vector);
            c = ((c >> 8) | ((b as u16) << 8)) ^ table[idx as usize];
        } else {
            let idx: u16 = (c >> 8) & 0xff;
            assert((c >> 8) & 0xff < 256) by (bit_vector);
            c = ((c << 8) | (b as u16)) ^ table[idx as usize];
        }
        proof {
            lemma_update_push(*p, crc, msg@.subrange(0, i as int), b);
            assert(msg@.subrange(0, i as int).push(b) =~= msg@.subrange(0, i + 1 as int));
        }
        i = i + 1;
    }
    assert(msg@.subrange(0, msg@.len() as int) =~= msg@);
    c
}

/// Reads the externally visible CRC value out of a register: two flushing
/// folds with no incoming byte, then the XOR mask. The register passed in
/// is not consumed; the caller may keep folding bytes into it.
pub fn finalize_register(p: &CrcParams, table: &Vec<u16>, crc: u16) -> (r: u16)
    requires
        table_for(table@, p.poly, p.refin),
    ensures
        r == spec_finalize(*p, crc),
{
    let mut c: u16 = crc;
    if p.refout {
        let idx: u16 = c & 0xff;
        assert(c & 0xff < 256) by (bit_vector);
        c = (c >> 8) ^ table[idx as usize];
    } else {
        let idx: u16 = (c >> 8) & 0xff;
        assert((c >> 8) & 0xff < 256) by (bit_vector);
        c = (c << 8) ^ table[idx as usize];
    }
    if p.refout {
        let idx: u16 = c & 0xff;
        assert(c & 0xff < 256) by (bit_vector);
        c = (c >> 8) ^ table[idx as usize];
    } else {
        let idx: u16 = (c >> 8) & 0xff;
        assert((c >> 8) & 0xff < 256) by (bit_vector);
        c = (c << 8) ^ table[idx as usize];
    }
    c ^ p.xorout
}

} // verus!
