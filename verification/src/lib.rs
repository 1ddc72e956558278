//! Table-driven CRC-16 checksums.
//!
//! A family of named 16-bit CRC variants (ARC, XMODEM, MODBUS, ...), each
//! given by four parameters: the generator polynomial, the initial register
//! value, whether input and output bits are reflected, and a final XOR mask.
//! The engine folds bytes into a 16-bit register through a 256-entry lookup
//! table, one lookup per byte; `State` carries the register between calls so
//! that input may be supplied in chunks.
#![allow(non_camel_case_types)]

use vstd::prelude::*;

pub mod engine;
pub mod model;
pub mod variants;

pub use variants::ARC;
pub use variants::AUG_CCITT;
pub use variants::BUYPASS;
pub use variants::CCITT_FALSE;
pub use variants::CDMA2000;
pub use variants::CRC_A;
pub use variants::DDS_110;
pub use variants::DECT_R;
pub use variants::DECT_X;
pub use variants::DNP;
pub use variants::EN_13757;
pub use variants::GENIBUS;
pub use variants::KERMIT;
pub use variants::MAXIM;
pub use variants::MCRF4XX;
pub use variants::MODBUS;
pub use variants::RIELLO;
pub use variants::T10_DIF;
pub use variants::TELEDISK;
pub use variants::TMS37157;
pub use variants::USB;
pub use variants::XMODEM;
pub use variants::X_25;

verus! {

/// The four parameters that define one CRC-16 variant.
#[derive(Clone, Copy, PartialEq, Eq, Structural, Debug)]
pub struct CrcParams {
    /// Generator polynomial, high bit implicit.
    pub poly: u16,
    /// Raw initial register value.
    pub init: u16,
    /// Input bytes are processed least-significant bit first.
    pub refin: bool,
    /// The output register is read least-significant bit first.
    pub refout: bool,
    /// Mask XORed into the register when the value is read out.
    pub xorout: u16,
}

/// One named CRC-16 variant: a carrier of its four parameters, and the
/// seed / fold / read-out operations on a bare 16-bit register.
pub trait CrcType {
    /// The variant's parameters, as a mathematical value.
    spec fn spec_params() -> CrcParams;

    /// The variant's parameters.
    fn params() -> (p: CrcParams)
        ensures
            p == Self::spec_params(),
    ;

    /// The starting register of this variant.
    fn init() -> (r: u16)
        ensures
            r == model::spec_init(Self::spec_params()),
    {
        let p = Self::params();
        engine::init_register(&p)
    }

    /// Folds every byte of `msg`, in order, into the register `crc`.
    fn update(crc: u16, msg: &[u8]) -> (r: u16)
        ensures
            r == model::spec_update(Self::spec_params(), crc, msg@),
    {
        let p = Self::params();
        let table = engine::build_table(p.poly, p.refin);
        engine::update_register(&p, &table, crc, msg)
    }

    /// Reads the externally visible CRC value out of the register `crc`,
    /// leaving the register itself usable for further updates.
    fn get(crc: u16) -> (r: u16)
        ensures
            r == model::spec_finalize(Self::spec_params(), crc),
    {
        let p = Self::params();
        let table = engine::build_table(p.poly, p.refin);
        engine::finalize_register(&p, &table, crc)
    }
}

/// State of a CRC calculation: the pre-finalization register of one variant,
/// together with that variant's lookup table, built once when the state is
/// created and reused by every update.
#[derive(Debug)]
pub struct State<T: CrcType> {
    state: u16,
    table: Vec<u16>,
    params: CrcParams,
    ty: core::marker::PhantomData<T>,
}

impl<T: CrcType> State<T> {
    #[verifier::type_invariant]
    spec fn inv(&self) -> bool {
        &&& self.params == T::spec_params()
        &&& engine::table_for(self.table@, self.params.poly, self.params.refin)
    }

    /// The register held so far: the CRC of the bytes consumed, before the
    /// output transform.
    pub closed spec fn reg(&self) -> u16 {
        self.state
    }

    /// Creates new state of the given CRC type, seeded with the variant's
    /// starting register.
    pub fn new() -> (s: State<T>)
        ensures
            s.reg() == model::spec_init(T::spec_params()),
    {
        let p = T::params();
        State {
            state: engine::init_register(&p),
            table: engine::build_table(p.poly, p.refin),
            params: p,
            ty: core::marker::PhantomData,
        }
    }

    /// Updates state with new data: every byte of `msg` is folded into the
    /// register, in order. May be called any number of times; feeding the
    /// input in chunks gives the same register as feeding it whole.
    pub fn update(&mut self, msg: &[u8])
        ensures
            final(self).reg() == model::spec_update(T::spec_params(), old(self).reg(), msg@),
    {
        proof {
            use_type_invariant(&*self);
        }
        self.state = engine::update_register(&self.params, &self.table, self.state, msg);
    }

    /// Returns the CRC value of the state, without consuming or altering the
    /// register: calling it twice in a row gives the same value, and a later
    /// update continues from the same register.
    pub fn get(&self) -> (r: u16)
        ensures
            r == model::spec_finalize(T::spec_params(), self.reg()),
    {
        proof {
            use_type_invariant(&*self);
        }
        engine::finalize_register(&self.params, &self.table, self.state)
    }

    /// Calculates the CRC value of the given type for the given message in
    /// one pass: seed, fold every byte, read out.
    pub fn calculate(msg: &[u8]) -> (r: u16)
        ensures
            r == model::spec_crc(T::spec_params(), msg@),
    {
        T::get(T::update(T::init(), msg))
    }
}

impl<T: CrcType> Clone for State<T> {
    /// An identical, independent copy: same variant, same register.
    fn clone(&self) -> (s: Self)
        ensures
            s.reg() == self.reg(),
    {
        proof {
            use_type_invariant(&*self);
        }
        State {
            state: self.state,
            table: engine::build_table(self.params.poly, self.params.refin),
            params: self.params,
            ty: core::marker::PhantomData,
        }
    }
}

impl<T: CrcType> Default for State<T> {
    /// The same state `new` creates.
    fn default() -> (s: State<T>)
        ensures
            s.reg() == model::spec_init(T::spec_params()),
    {
        State::new()
    }
}

} // verus!
