//! The register file: a fixed backing byte for each of the eight selectors.
//!
//! Reads of `FL` and `IP` are routed by the machine through computed
//! getters; their backing bytes here exist only so that a MOV targeting
//! them has a deterministic, architecturally inert write-through.

use vstd::prelude::*;

use crate::isa::RegisterRef;
use crate::isa::Word;

verus! {

/// The backing store of the register file, one byte per selector.
#[derive(Clone, Copy, Debug, PartialEq, Eq, Structural)]
pub struct Registers {
    pub a: Word,
    pub b: Word,
    pub c: Word,
    pub d: Word,
    /// Shadow byte behind `FL`; the architectural read is computed.
    pub fl: Word,
    pub st: Word,
    pub bp: Word,
    /// Shadow byte behind `IP`; the architectural read is computed.
    pub ip: Word,
}

impl Registers {
    /// The initial register file: every backing byte is zero.
    pub open spec fn spec_zero() -> Registers {
        Registers { a: 0, b: 0, c: 0, d: 0, fl: 0, st: 0, bp: 0, ip: 0 }
    }

    /// The backing byte of one register.
    pub open spec fn spec_get(self, reg: RegisterRef) -> Word {
        match reg {
            RegisterRef::A => self.a,
            RegisterRef::B => self.b,
            RegisterRef::C => self.c,
            RegisterRef::D => self.d,
            RegisterRef::FL => self.fl,
            RegisterRef::ST => self.st,
            RegisterRef::BP => self.bp,
            RegisterRef::IP => self.ip,
        }
    }

    /// The register file after one backing byte is replaced.
    pub open spec fn spec_set(self, reg: RegisterRef, val: Word) -> Registers {
        match reg {
            RegisterRef::A => Registers { a: val, ..self },
            RegisterRef::B => Registers { b: val, ..self },
            RegisterRef::C => Registers { c: val, ..self },
            RegisterRef::D => Registers { d: val, ..self },
            RegisterRef::FL => Registers { fl: val, ..self },
            RegisterRef::ST => Registers { st: val, ..self },
            RegisterRef::BP => Registers { bp: val, ..self },
            RegisterRef::IP => Registers { ip: val, ..self },
        }
    }

    /// A register file with every backing byte zero.
    pub fn new() -> (r: Registers)
        ensures
            r == Registers::spec_zero(),
    {
        Registers { a: 0, b: 0, c: 0, d: 0, fl: 0, st: 0, bp: 0, ip: 0 }
    }

    /// Read the backing byte of one register.
    pub fn get(&self, reg: &RegisterRef) -> (v: Word)
        ensures
            v == self.spec_get(*reg),
    {
        match *reg {
            RegisterRef::A => self.a,
            RegisterRef::B => self.b,
            RegisterRef::C => self.c,
            RegisterRef::D => self.d,
            RegisterRef::FL => self.fl,
            RegisterRef::ST => self.st,
            RegisterRef::BP => self.bp,
            RegisterRef::IP => self.ip,
        }
    }

    /// Replace the backing byte of one register.
    pub fn set(&mut self, reg: RegisterRef, val: Word)
        ensures
            *final(self) == old(self).spec_set(reg, val),
    {
        match reg {
            RegisterRef::A => {
                self.a = val;
            },
            RegisterRef::B => {
                self.b = val;
            },
            RegisterRef::C => {
                self.c = val;
            },
            RegisterRef::D => {
                self.d = val;
            },
            RegisterRef::FL => {
                self.fl = val;
            },
            RegisterRef::ST => {
                self.st = val;
            },
            RegisterRef::BP => {
                self.bp = val;
            },
            RegisterRef::IP => {
                self.ip = val;
            },
        }
    }
}

} // verus!
