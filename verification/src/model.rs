//! Mathematical model of the CRC-16 computation.
//!
//! Every executable function of the crate is specified against the spec
//! functions here: bit reflection, table generation, the register seeding
//! pass, the per-byte update fold, and the output transform.

use vstd::prelude::*;

verus! {

use crate::CrcParams;

/// Reverses the bit order of a byte: bit 0 swaps with bit 7, bit 1 with
/// bit 6, and so on.
pub open spec fn spec_reflect8(b: u8) -> u8 {
    ((b & 0x01) << 7) | ((b & 0x02) << 5) | ((b & 0x04) << 3) | ((b & 0x08) << 1)
        | ((b & 0x10) >> 1) | ((b & 0x20) >> 3) | ((b & 0x40) >> 5) | ((b & 0x80) >> 7)
}

/// Reverses the bit order of a 16-bit value: each byte is reflected and the
/// two bytes swap places.
pub open spec fn spec_reflect16(v: u16) -> u16 {
    (((spec_reflect8((v & 0xff) as u8)) as u16) << 8) | ((spec_reflect8((v >> 8) as u8)) as u16)
}

/// One bit-step of table generation. Reflected tables shift right and reduce
/// by the reflected polynomial when bit 0 is set; forward tables shift left
/// and reduce by the polynomial itself when bit 15 is set.
pub open spec fn spec_table_step(poly: u16, refin: bool, v: u16) -> u16 {
    if refin {
        if v & 1 == 1 {
            (v >> 1) ^ spec_reflect16(poly)
        } else {
            v >> 1
        }
    } else {
        if v & 0x8000 != 0 {
            (v << 1) ^ poly
        } else {
            v << 1
        }
    }
}

/// `n` bit-steps of table generation applied to `v`.
pub open spec fn spec_table_steps(poly: u16, refin: bool, v: u16, n: nat) -> u16
    decreases n,
{
    if n == 0 {
        v
    } else {
        spec_table_step(poly, refin, spec_table_steps(poly, refin, v, (n - 1) as nat))
    }
}

/// The lookup-table entry for byte `b`: the byte is seeded into the register
/// end that the convention consumes first, then run through eight bit-steps.
pub open spec fn spec_table_entry(poly: u16, refin: bool, b: u8) -> u16 {
    spec_table_steps(poly, refin, if refin { b as u16 } else { (b as u16) << 8 }, 8)
}

/// One round of the bit-serial seeding pass over the raw initial value: when
/// bit 0 is set, reduce by the polynomial, shift right, and force bit 15 on;
/// otherwise just shift right.
pub open spec fn spec_seed_step(poly: u16, v: u16) -> u16 {
    if v & 1 == 1 {
        ((v ^ poly) >> 1) | 0x8000
    } else {
        v >> 1
    }
}

/// `n` rounds of the bit-serial seeding pass.
pub open spec fn spec_seed_steps(poly: u16, v: u16, n: nat) -> u16
    decreases n,
{
    if n == 0 {
        v
    } else {
        spec_seed_step(poly, spec_seed_steps(poly, v, (n - 1) as nat))
    }
}

/// The starting register of a variant: sixteen rounds of the seeding pass
/// over the raw initial value, then, for reflected-input variants, both bytes
/// reflected and swapped into the reflected domain.
pub open spec fn spec_init(p: CrcParams) -> u16 {
    let v: u16 = spec_seed_steps(p.poly, p.init, 16);
    if p.refin {
        spec_reflect16(v)
    } else {
        v
    }
}

/// Folding one input byte into the register. The byte enters the register
/// end opposite the one being consumed, and the consumed byte indexes the
/// table.
pub open spec fn spec_feed(p: CrcParams, crc: u16, b: u8) -> u16 {
    if p.refin {
        ((crc >> 8) | ((b as u16) << 8)) ^ spec_table_entry(p.poly, p.refin, (crc & 0xff) as u8)
    } else {
        ((crc << 8) | (b as u16)) ^ spec_table_entry(p.poly, p.refin, ((crc >> 8) & 0xff) as u8)
    }
}

/// Folding a whole byte sequence into the register, strictly in input order.
pub open spec fn spec_update(p: CrcParams, crc: u16, msg: Seq<u8>) -> u16
    decreases msg.len(),
{
    if msg.len() == 0 {
        crc
    } else {
        spec_update(p, spec_feed(p, crc, msg[0]), msg.subrange(1, msg.len() as int))
    }
}

/// One output-flushing step: a table fold with no incoming byte, in the
/// direction given by the output reflection flag.
pub open spec fn spec_flush(p: CrcParams, crc: u16) -> u16 {
    if p.refout {
        (crc >> 8) ^ spec_table_entry(p.poly, p.refin, (crc & 0xff) as u8)
    } else {
        (crc << 8) ^ spec_table_entry(p.poly, p.refin, ((crc >> 8) & 0xff) as u8)
    }
}

/// The externally visible CRC value of a register: two flushing steps push
/// the two register bytes through the table, then the XOR mask is applied.
/// The register itself is left untouched by readers.
pub open spec fn spec_finalize(p: CrcParams, crc: u16) -> u16 {
    spec_flush(p, spec_flush(p, crc)) ^ p.xorout
}

/// The CRC of a whole message in one pass: seed, fold every byte, read out.
pub open spec fn spec_crc(p: CrcParams, msg: Seq<u8>) -> u16 {
    spec_finalize(p, spec_update(p, spec_init(p), msg))
}

/// Folding a concatenation into the register equals folding the first part
/// and then the second: the update fold may be cut at any chunk boundary.
/// Applied boundary by boundary, this covers every way of partitioning a
/// message into consecutive chunks.
pub proof fn lemma_update_concat(p: CrcParams, crc: u16, s1: Seq<u8>, s2: Seq<u8>)
    ensures
        spec_update(p, crc, s1 + s2) == spec_update(p, spec_update(p, crc, s1), s2),
    decreases s1.len(),
{
    if s1.len() == 0 {
        assert(s1 + s2 =~= s2);
    } else {
        assert((s1 + s2).subrange(1, (s1 + s2).len() as int) =~= s1.subrange(
            1,
            s1.len() as int,
        ) + s2);
        lemma_update_concat(p, spec_feed(p, crc, s1[0]), s1.subrange(1, s1.len() as int), s2);
    }
}

/// Folding one more byte after a sequence is one more feed step.
pub proof fn lemma_update_push(p: CrcParams, crc: u16, s: Seq<u8>, b: u8)
    ensures
        spec_update(p, crc, s.push(b)) == spec_feed(p, spec_update(p, crc, s), b),
{
    assert(s.push(b) =~= s + seq![b]);
    lemma_update_concat(p, crc, s, seq![b]);
    let folded: u16 = spec_update(p, crc, s);
    assert(seq![b].subrange(1, 1) =~= Seq::<u8>::empty());
    assert(spec_update(p, folded, seq![b]) == spec_update(
        p,
        spec_feed(p, folded, b),
        Seq::<u8>::empty(),
    ));
    assert(spec_update(p, spec_feed(p, folded, b), Seq::<u8>::empty()) == spec_feed(p, folded, b));
}

/// The register after feeding a list of chunks one call at a time.
pub open spec fn spec_update_chunks(p: CrcParams, crc: u16, chunks: Seq<Seq<u8>>) -> u16
    decreases chunks.len(),
{
    if chunks.len() == 0 {
        crc
    } else {
        spec_update_chunks(p, spec_update(p, crc, chunks[0]), chunks.drop_first())
    }
}

/// Feeding a message chunk by chunk, over any partition into consecutive
/// chunks, gives the same register as feeding the concatenation whole: the
/// defining incremental-hashing guarantee.
pub proof fn lemma_update_chunked(p: CrcParams, crc: u16, chunks: Seq<Seq<u8>>)
    ensures
        spec_update_chunks(p, crc, chunks) == spec_update(p, crc, chunks.flatten()),
    decreases chunks.len(),
{
    if chunks.len() == 0 {
        assert(chunks.flatten() =~= Seq::<u8>::empty());
    } else {
        lemma_update_concat(p, crc, chunks[0], chunks.drop_first().flatten());
        lemma_update_chunked(p, spec_update(p, crc, chunks[0]), chunks.drop_first());
    }
}

/// A whole message split anywhere gives the same CRC as one pass: reading
/// out after seeding, folding the first chunk, and folding the second chunk
/// equals the one-shot CRC of their concatenation.
pub proof fn lemma_incremental_one_shot(p: CrcParams, s1: Seq<u8>, s2: Seq<u8>)
    ensures
        spec_crc(p, s1 + s2) == spec_finalize(
            p,
            spec_update(p, spec_update(p, spec_init(p), s1), s2),
        ),
{
    lemma_update_concat(p, spec_init(p), s1, s2);
}

/// A zero-length input is a valid case, not an error: its CRC is the
/// read-out of the freshly seeded register.
pub proof fn lemma_empty_input(p: CrcParams)
    ensures
        spec_crc(p, Seq::<u8>::empty()) == spec_finalize(p, spec_init(p)),
{
}

} // verus!
