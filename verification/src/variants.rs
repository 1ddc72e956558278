//! The named CRC-16 variants, each carrying its four parameters.

use vstd::prelude::*;

verus! {

use crate::CrcParams;
use crate::CrcType;

/// ARC: poly 0x8005, check 0xbb3d.
#[derive(Clone, Copy, PartialEq, Eq, Debug)]
pub struct ARC;

impl CrcType for ARC {
    open spec fn spec_params() -> CrcParams {
        CrcParams { poly: 0x8005, init: 0x0000, refin: true, refout: true, xorout: 0x0000 }
    }

    fn params() -> (p: CrcParams) {
        CrcParams { poly: 0x8005, init: 0x0000, refin: true, refout: true, xorout: 0x0000 }
    }
}

/// CRC-16/AUG-CCITT: poly 0x1021, check 0xe5cc.
#[derive(Clone, Copy, PartialEq, Eq, Debug)]
pub struct AUG_CCITT;

impl CrcType for AUG_CCITT {
    open spec fn spec_params() -> CrcParams {
        CrcParams { poly: 0x1021, init: 0x1d0f, refin: false, refout: false, xorout: 0x0000 }
    }

    fn params() -> (p: CrcParams) {
        CrcParams { poly: 0x1021, init: 0x1d0f, refin: false, refout: false, xorout: 0x0000 }
    }
}

/// CRC-16/BUYPASS: poly 0x8005, check 0xfee8.
#[derive(Clone, Copy, PartialEq, Eq, Debug)]
pub struct BUYPASS;

impl CrcType for BUYPASS {
    open spec fn spec_params() -> CrcParams {
        CrcParams { poly: 0x8005, init: 0x0000, refin: false, refout: false, xorout: 0x0000 }
    }

    fn params() -> (p: CrcParams) {
        CrcParams { poly: 0x8005, init: 0x0000, refin: false, refout: false, xorout: 0x0000 }
    }
}

/// CRC-16/CCITT-FALSE: poly 0x1021, check 0x29b1.
#[derive(Clone, Copy, PartialEq, Eq, Debug)]
pub struct CCITT_FALSE;

impl CrcType for CCITT_FALSE {
    open spec fn spec_params() -> CrcParams {
        CrcParams { poly: 0x1021, init: 0xffff, refin: false, refout: false, xorout: 0x0000 }
    }

    fn params() -> (p: CrcParams) {
        CrcParams { poly: 0x1021, init: 0xffff, refin: false, refout: false, xorout: 0x0000 }
    }
}

/// CRC-16/CDMA2000: poly 0xc867, check 0x4c06.
#[derive(Clone, Copy, PartialEq, Eq, Debug)]
pub struct CDMA2000;

impl CrcType for CDMA2000 {
    open spec fn spec_params() -> CrcParams {
        CrcParams { poly: 0xc867, init: 0xffff, refin: false, refout: false, xorout: 0x0000 }
    }

    fn params() -> (p: CrcParams) {
        CrcParams { poly: 0xc867, init: 0xffff, refin: false, refout: false, xorout: 0x0000 }
    }
}

/// CRC-16/DDS-110: poly 0x8005, check 0x9ecf.
#[derive(Clone, Copy, PartialEq, Eq, Debug)]
pub struct DDS_110;

impl CrcType for DDS_110 {
    open spec fn spec_params() -> CrcParams {
        CrcParams { poly: 0x8005, init: 0x800d, refin: false, refout: false, xorout: 0x0000 }
    }

    fn params() -> (p: CrcParams) {
        CrcParams { poly: 0x8005, init: 0x800d, refin: false, refout: false, xorout: 0x0000 }
    }
}

/// CRC-16/DECT-R: poly 0x0589, check 0x007e.
#[derive(Clone, Copy, PartialEq, Eq, Debug)]
pub struct DECT_R;

impl CrcType for DECT_R {
    open spec fn spec_params() -> CrcParams {
        CrcParams { poly: 0x0589, init: 0x0000, refin: false, refout: false, xorout: 0x0001 }
    }

    fn params() -> (p: CrcParams) {
        CrcParams { poly: 0x0589, init: 0x0000, refin: false, refout: false, xorout: 0x0001 }
    }
}

/// CRC-16/DECT-X: poly 0x0589, check 0x007f.
#[derive(Clone, Copy, PartialEq, Eq, Debug)]
pub struct DECT_X;

impl CrcType for DECT_X {
    open spec fn spec_params() -> CrcParams {
        CrcParams { poly: 0x0589, init: 0x0000, refin: false, refout: false, xorout: 0x0000 }
    }

    fn params() -> (p: CrcParams) {
        CrcParams { poly: 0x0589, init: 0x0000, refin: false, refout: false, xorout: 0x0000 }
    }
}

/// CRC-16/DNP: poly 0x3d65, check 0xea82.
#[derive(Clone, Copy, PartialEq, Eq, Debug)]
pub struct DNP;

impl CrcType for DNP {
    open spec fn spec_params() -> CrcParams {
        CrcParams { poly: 0x3d65, init: 0x0000, refin: true, refout: true, xorout: 0xffff }
    }

    fn params() -> (p: CrcParams) {
        CrcParams { poly: 0x3d65, init: 0x0000, refin: true, refout: true, xorout: 0xffff }
    }
}

/// CRC-16/EN-13757: poly 0x3d65, check 0xc2b7.
#[derive(Clone, Copy, PartialEq, Eq, Debug)]
pub struct EN_13757;

impl CrcType for EN_13757 {
    open spec fn spec_params() -> CrcParams {
        CrcParams { poly: 0x3d65, init: 0x0000, refin: false, refout: false, xorout: 0xffff }
    }

    fn params() -> (p: CrcParams) {
        CrcParams { poly: 0x3d65, init: 0x0000, refin: false, refout: false, xorout: 0xffff }
    }
}

/// CRC-16/GENIBUS: poly 0x1021, check 0xd64e.
#[derive(Clone, Copy, PartialEq, Eq, Debug)]
pub struct GENIBUS;

impl CrcType for GENIBUS {
    open spec fn spec_params() -> CrcParams {
        CrcParams { poly: 0x1021, init: 0xffff, refin: false, refout: false, xorout: 0xffff }
    }

    fn params() -> (p: CrcParams) {
        CrcParams { poly: 0x1021, init: 0xffff, refin: false, refout: false, xorout: 0xffff }
    }
}

/// CRC-16/MAXIM: poly 0x8005, check 0x44c2.
#[derive(Clone, Copy, PartialEq, Eq, Debug)]
pub struct MAXIM;

impl CrcType for MAXIM {
    open spec fn spec_params() -> CrcParams {
        CrcParams { poly: 0x8005, init: 0x0000, refin: true, refout: true, xorout: 0xffff }
    }

    fn params() -> (p: CrcParams) {
        CrcParams { poly: 0x8005, init: 0x0000, refin: true, refout: true, xorout: 0xffff }
    }
}

/// CRC-16/MCRF4XX: poly 0x1021, check 0x6f91.
#[derive(Clone, Copy, PartialEq, Eq, Debug)]
pub struct MCRF4XX;

impl CrcType for MCRF4XX {
    open spec fn spec_params() -> CrcParams {
        CrcParams { poly: 0x1021, init: 0xffff, refin: true, refout: true, xorout: 0x0000 }
    }

    fn params() -> (p: CrcParams) {
        CrcParams { poly: 0x1021, init: 0xffff, refin: true, refout: true, xorout: 0x0000 }
    }
}

/// CRC-16/RIELLO: poly 0x1021, check 0x63d0.
#[derive(Clone, Copy, PartialEq, Eq, Debug)]
pub struct RIELLO;

impl CrcType for RIELLO {
    open spec fn spec_params() -> CrcParams {
        CrcParams { poly: 0x1021, init: 0xb2aa, refin: true, refout: true, xorout: 0x0000 }
    }

    fn params() -> (p: CrcParams) {
        CrcParams { poly: 0x1021, init: 0xb2aa, refin: true, refout: true, xorout: 0x0000 }
    }
}

/// CRC-16/T10-DIF: poly 0x8bb7, check 0xd0db.
#[derive(Clone, Copy, PartialEq, Eq, Debug)]
pub struct T10_DIF;

impl CrcType for T10_DIF {
    open spec fn spec_params() -> CrcParams {
        CrcParams { poly: 0x8bb7, init: 0x0000, refin: false, refout: false, xorout: 0x0000 }
    }

    fn params() -> (p: CrcParams) {
        CrcParams { poly: 0x8bb7, init: 0x0000, refin: false, refout: false, xorout: 0x0000 }
    }
}

/// CRC-16/TELEDISK: poly 0xa097, check 0x0fb3.
#[derive(Clone, Copy, PartialEq, Eq, Debug)]
pub struct TELEDISK;

impl CrcType for TELEDISK {
    open spec fn spec_params() -> CrcParams {
        CrcParams { poly: 0xa097, init: 0x0000, refin: false, refout: false, xorout: 0x0000 }
    }

    fn params() -> (p: CrcParams) {
        CrcParams { poly: 0xa097, init: 0x0000, refin: false, refout: false, xorout: 0x0000 }
    }
}

/// CRC-16/TMS37157: poly 0x1021, check 0x26b1.
#[derive(Clone, Copy, PartialEq, Eq, Debug)]
pub struct TMS37157;

impl CrcType for TMS37157 {
    open spec fn spec_params() -> CrcParams {
        CrcParams { poly: 0x1021, init: 0x89ec, refin: true, refout: true, xorout: 0x0000 }
    }

    fn params() -> (p: CrcParams) {
        CrcParams { poly: 0x1021, init: 0x89ec, refin: true, refout: true, xorout: 0x0000 }
    }
}

/// CRC-16/USB: poly 0x8005, check 0xb4c8.
#[derive(Clone, Copy, PartialEq, Eq, Debug)]
pub struct USB;

impl CrcType for USB {
    open spec fn spec_params() -> CrcParams {
        CrcParams { poly: 0x8005, init: 0xffff, refin: true, refout: true, xorout: 0xffff }
    }

    fn params() -> (p: CrcParams) {
        CrcParams { poly: 0x8005, init: 0xffff, refin: true, refout: true, xorout: 0xffff }
    }
}

/// CRC-A: poly 0x1021, check 0xbf05.
#[derive(Clone, Copy, PartialEq, Eq, Debug)]
pub struct CRC_A;

impl CrcType for CRC_A {
    open spec fn spec_params() -> CrcParams {
        CrcParams { poly: 0x1021, init: 0xc6c6, refin: true, refout: true, xorout: 0x0000 }
    }

    fn params() -> (p: CrcParams) {
        CrcParams { poly: 0x1021, init: 0xc6c6, refin: true, refout: true, xorout: 0x0000 }
    }
}

/// KERMIT: poly 0x1021, check 0x2189.
#[derive(Clone, Copy, PartialEq, Eq, Debug)]
pub struct KERMIT;

impl CrcType for KERMIT {
    open spec fn spec_params() -> CrcParams {
        CrcParams { poly: 0x1021, init: 0x0000, refin: true, refout: true, xorout: 0x0000 }
    }

    fn params() -> (p: CrcParams) {
        CrcParams { poly: 0x1021, init: 0x0000, refin: true, refout: true, xorout: 0x0000 }
    }
}

/// MODBUS: poly 0x8005, check 0x4b37.
#[derive(Clone, Copy, PartialEq, Eq, Debug)]
pub struct MODBUS;

impl CrcType for MODBUS {
    open spec fn spec_params() -> CrcParams {
        CrcParams { poly: 0x8005, init: 0xffff, refin: true, refout: true, xorout: 0x0000 }
    }

    fn params() -> (p: CrcParams) {
        CrcParams { poly: 0x8005, init: 0xffff, refin: true, refout: true, xorout: 0x0000 }
    }
}

/// X-25: poly 0x1021, check 0x906e.
#[derive(Clone, Copy, PartialEq, Eq, Debug)]
pub struct X_25;

impl CrcType for X_25 {
    open spec fn spec_params() -> CrcParams {
        CrcParams { poly: 0x1021, init: 0xffff, refin: true, refout: true, xorout: 0xffff }
    }

    fn params() -> (p: CrcParams) {
        CrcParams { poly: 0x1021, init: 0xffff, refin: true, refout: true, xorout: 0xffff }
    }
}

/// XMODEM: poly 0x1021, check 0x31c3.
#[derive(Clone, Copy, PartialEq, Eq, Debug)]
pub struct XMODEM;

impl CrcType for XMODEM {
    open spec fn spec_params() -> CrcParams {
        CrcParams { poly: 0x1021, init: 0x0000, refin: false, refout: false, xorout: 0x0000 }
    }

    fn params() -> (p: CrcParams) {
        CrcParams { poly: 0x1021, init: 0x0000, refin: false, refout: false, xorout: 0x0000 }
    }
}

} // verus!
