use crc16::engine::build_table;
use crc16::engine::reflect8;

/// Bit-by-bit reference: reverses a byte one bit at a time.
fn reflect8_bit_serial(b: u8) -> u8 {
    let mut r: u8 = 0;
    for i in 0..8 {
        if b & (1 << i) != 0 {
            r |= 1 << (7 - i);
        }
    }
    r
}

/// Bit-by-bit reference for one table entry, written without any lookup
/// table: seed the byte, then eight shift-and-reduce steps.
fn entry_bit_serial(poly: u16, refin: bool, b: u8) -> u16 {
    if refin {
        let mut rpoly: u16 = 0;
        for i in 0..16 {
            if poly & (1 << i) != 0 {
                rpoly |= 1 << (15 - i);
            }
        }
        let mut v: u16 = b as u16;
        for _ in 0..8 {
            v = if v & 1 == 1 { (v >> 1) ^ rpoly } else { v >> 1 };
        }
        v
    } else {
        let mut v: u16 = (b as u16) << 8;
        for _ in 0..8 {
            v = if v & 0x8000 != 0 { (v << 1) ^ poly } else { v << 1 };
        }
        v
    }
}

#[test]
fn xmodem_table_matches_published_values() {
    let t = build_table(0x1021, false);
    assert_eq!(t.len(), 256);
    let first_row: [u16; 16] = [
        0x0000, 0x1021, 0x2042, 0x3063, 0x4084, 0x50A5, 0x60C6, 0x70E7, 0x8108, 0x9129, 0xA14A,
        0xB16B, 0xC18C, 0xD1AD, 0xE1CE, 0xF1EF,
    ];
    for i in 0..16 {
        assert_eq!(t[i], first_row[i]);
    }
    let last_row: [u16; 8] = [0x6E17, 0x7E36, 0x4E55, 0x5E74, 0x2E93, 0x3EB2, 0x0ED1, 0x1EF0];
    for i in 0..8 {
        assert_eq!(t[248 + i], last_row[i]);
    }
}

#[test]
fn arc_table_matches_published_values() {
    let t = build_table(0x8005, true);
    assert_eq!(t.len(), 256);
    let first_row: [u16; 16] = [
        0x0000, 0xC0C1, 0xC181, 0x0140, 0xC301, 0x03C0, 0x0280, 0xC241, 0xC601, 0x06C0, 0x0780,
        0xC741, 0x0500, 0xC5C1, 0xC481, 0x0440,
    ];
    for i in 0..16 {
        assert_eq!(t[i], first_row[i]);
    }
}

#[test]
fn tables_match_bit_serial_reference() {
    for (poly, refin) in [
        (0x1021u16, false),
        (0x8005u16, true),
        (0x8005u16, false),
        (0x3D65u16, true),
        (0x8BB7u16, false),
        (0xC867u16, false),
    ] {
        let t = build_table(poly, refin);
        assert_eq!(t.len(), 256);
        for b in 0..256usize {
            assert_eq!(t[b], entry_bit_serial(poly, refin, b as u8));
        }
    }
}

#[test]
fn reflector_reverses_bit_order() {
    assert_eq!(reflect8(0x00), 0x00);
    assert_eq!(reflect8(0x01), 0x80);
    assert_eq!(reflect8(0x80), 0x01);
    assert_eq!(reflect8(0xF0), 0x0F);
    assert_eq!(reflect8(0xA5), 0xA5);
    assert_eq!(reflect8(0x3E), 0x7C);
    for b in 0..=255u8 {
        assert_eq!(reflect8(b), reflect8_bit_serial(b));
        assert_eq!(reflect8(reflect8(b)), b);
    }
}
