//! A Game Boy CPU model: the instruction decoder and the banked address
//! resolver that plug into the architecture contract of the core.
//!
//! Only the opcodes this tool has needed so far are decoded; every other
//! byte is an illegal opcode and ends a discovery chain.

use std::collections::HashMap;

use vstd::prelude::*;

use crate::disassembler::{
    Architecture, ClassificationSnapshot, DisassemblerState, Instruction, LogicalAddress,
};

verus! {

broadcast use vstd::std_specs::hash::group_hash_axioms;

/// A 16-bit address as encoded in an instruction, before bank resolution.
#[derive(Debug, Copy, Clone, PartialEq, Eq, Structural)]
pub struct UnmappedAddress(pub u16);

/// An 8-bit register operand; `IndirectHL` stands for the byte addressed
/// by the `HL` register pair.
#[derive(Debug, Copy, Clone, PartialEq, Eq, Structural)]
pub enum Reg8 {
    A,
    B,
    C,
    D,
    E,
    H,
    L,
    IndirectHL,
}

/// A 16-bit register pair operand.
#[derive(Debug, Copy, Clone, PartialEq, Eq, Structural)]
pub enum Reg16 {
    AF,
    BC,
    DE,
    HL,
    SP,
}

/// One of the eight fixed restart vectors of the `RST` instruction.
#[derive(Debug, Copy, Clone, PartialEq, Eq, Structural)]
pub enum ResetVector {
    H00,
    H08,
    H10,
    H18,
    H20,
    H28,
    H30,
    H38,
}

impl ResetVector {
    /// The address a restart vector jumps to.
    pub open spec fn spec_address(self) -> UnmappedAddress {
        match self {
            ResetVector::H00 => UnmappedAddress(0x00),
            ResetVector::H08 => UnmappedAddress(0x08),
            ResetVector::H10 => UnmappedAddress(0x10),
            ResetVector::H18 => UnmappedAddress(0x18),
            ResetVector::H20 => UnmappedAddress(0x20),
            ResetVector::H28 => UnmappedAddress(0x28),
            ResetVector::H30 => UnmappedAddress(0x30),
            ResetVector::H38 => UnmappedAddress(0x38),
        }
    }

    /// The address a restart vector jumps to.
    pub fn address(&self) -> (r: UnmappedAddress)
        ensures
            r == self.spec_address(),
    {
        match self {
            ResetVector::H00 => UnmappedAddress(0x00),
            ResetVector::H08 => UnmappedAddress(0x08),
            ResetVector::H10 => UnmappedAddress(0x10),
            ResetVector::H18 => UnmappedAddress(0x18),
            ResetVector::H20 => UnmappedAddress(0x20),
            ResetVector::H28 => UnmappedAddress(0x28),
            ResetVector::H30 => UnmappedAddress(0x30),
            ResetVector::H38 => UnmappedAddress(0x38),
        }
    }
}

/// The decoded `CB`-prefixed instructions this tool knows about.
#[derive(Debug, Copy, Clone, PartialEq, Eq, Structural)]
pub enum SpecialInstruction {
    RL(Reg8),
    SLA(Reg8),
    RES0(Reg8),
}

impl SpecialInstruction {
    /// What `from_byte` returns on a given second opcode byte.
    pub open spec fn spec_from_byte(byte: u8) -> Option<SpecialInstruction> {
        if byte == 0x12 {
            Some(SpecialInstruction::RL(Reg8::D))
        } else if byte == 0x23 {
            Some(SpecialInstruction::SLA(Reg8::E))
        } else if byte == 0x87 {
            Some(SpecialInstruction::RES0(Reg8::A))
        } else {
            None
        }
    }

    /// Decode the second byte of a `CB`-prefixed instruction.
    pub fn from_byte(byte: u8) -> (r: Option<SpecialInstruction>)
        ensures
            r == Self::spec_from_byte(byte),
    {
        match byte {
            0x12 => Some(SpecialInstruction::RL(Reg8::D)),
            0x23 => Some(SpecialInstruction::SLA(Reg8::E)),
            0x87 => Some(SpecialInstruction::RES0(Reg8::A)),
            _ => None,
        }
    }

    /// The mnemonic of the instruction.
    pub open spec fn spec_name(self) -> Seq<char> {
        match self {
            SpecialInstruction::RL(_) => "RL"@,
            SpecialInstruction::SLA(_) => "SLA"@,
            SpecialInstruction::RES0(_) => "RES 0"@,
        }
    }

    /// The mnemonic of the instruction.
    pub fn name(&self) -> (r: &str)
        ensures
            r@ == self.spec_name(),
    {
        match self {
            SpecialInstruction::RL(_) => "RL",
            SpecialInstruction::SLA(_) => "SLA",
            SpecialInstruction::RES0(_) => "RES 0",
        }
    }

    /// What `first_argument` returns.
    pub open spec fn spec_first_argument(self) -> Option<Argument> {
        match self {
            SpecialInstruction::RL(reg) => Some(Argument::Reg8(reg)),
            SpecialInstruction::SLA(reg) => Some(Argument::Reg8(reg)),
            SpecialInstruction::RES0(reg) => Some(Argument::Reg8(reg)),
        }
    }

    /// The register the instruction operates on.
    pub fn first_argument(&self) -> (r: Option<Argument>)
        ensures
            r == self.spec_first_argument(),
    {
        match self {
            SpecialInstruction::RL(reg) => Some(Argument::Reg8(*reg)),
            SpecialInstruction::SLA(reg) => Some(Argument::Reg8(*reg)),
            SpecialInstruction::RES0(reg) => Some(Argument::Reg8(*reg)),
        }
    }
}

/// A typed operand of a decoded instruction, as handed to the presentation
/// layer.
#[derive(Debug, Copy, Clone, PartialEq, Eq, Structural)]
pub enum Argument {
    Imm8(u8),
    Imm16(u16),
    Rel8(i8),
    Reg8(Reg8),
    Reg16(Reg16),
    IndirectReg16(Reg16),
    Address(UnmappedAddress),
    IndirectHLinc,
    IndirectHLdec,
    IndirectC,
    ResetVector(ResetVector),
}

/// The decoded instructions this tool knows about.  The comments give the
/// opcodes each variant is decoded from.
#[derive(Debug, Copy, Clone, PartialEq, Eq, Structural)]
pub enum GBInstruction {
    NOP,                         // 00
    LDd16(Reg16, u16),           // 01 11 21 31
    LDi16A(Reg16),               // 02 12
    INC16(Reg16),                // 03 13 23 33
    DEC16(Reg16),                // 0B 1B 2B 3B
    INC8(Reg8),                  // 04 0C 14 1C 24 2C 34 3C
    DEC8(Reg8),                  // 05 0D 15 1D 25 2D 35 3D
    LDd8(Reg8, u8),              // 06 0E 16 1E 26 2E 36 3E
    ADDHL(Reg16),                // 19
    JRr8(i8),                    // 18
    JRNZr8(i8),                  // 20
    LDHLincA,                    // 22
    JRZr8(i8),                   // 28
    LDAHLdec,                    // 2A
    LDHLdecA,                    // 32
    LD(Reg8, Reg8),              // 40 to 7F except 76
    SUB(Reg8),                   // 90 to 97
    AND(Reg8),                   // A0 to A7
    XOR(Reg8),                   // A8 to AF
    OR(Reg8),                    // B0 to B7
    CP(Reg8),                    // B8 to BF
    RETNZ,                       // C0
    JPNZa16(UnmappedAddress),    // C2
    JPa16(UnmappedAddress),      // C3
    RST(ResetVector),            // C7 CF D7 DF E7 EF F7 FF
    RET,                         // C9
    JPZa16(UnmappedAddress),     // CA
    Special(SpecialInstruction), // CB xx
    CALLa16(UnmappedAddress),    // CD
    PUSH(Reg16),                 // C5 D5 E5 F5
    POP(Reg16),                  // C1 D1 E1 F1
    LDHa8A(u8),                  // E0
    LDCA,                        // E2
    ANDd8(u8),                   // E6
    JPHL,                        // E9
    LDa16A(UnmappedAddress),     // EA
    LDHAa8(u8),                  // F0
    DI,                          // F3
    LDAa16(UnmappedAddress),     // FA
    EI,                          // FB
    CPd8(u8),                    // FE
}

/// The 8-bit register encoded by a three-bit operand field, in opcode
/// order.
pub open spec fn spec_reg8_from_index(i: u8) -> Reg8 {
    if i == 0 {
        Reg8::B
    } else if i == 1 {
        Reg8::C
    } else if i == 2 {
        Reg8::D
    } else if i == 3 {
        Reg8::E
    } else if i == 4 {
        Reg8::H
    } else if i == 5 {
        Reg8::L
    } else if i == 6 {
        Reg8::IndirectHL
    } else {
        Reg8::A
    }
}

fn reg8_from_index(i: u8) -> (r: Reg8)
    ensures
        r == spec_reg8_from_index(i),
{
    if i == 0 {
        Reg8::B
    } else if i == 1 {
        Reg8::C
    } else if i == 2 {
        Reg8::D
    } else if i == 3 {
        Reg8::E
    } else if i == 4 {
        Reg8::H
    } else if i == 5 {
        Reg8::L
    } else if i == 6 {
        Reg8::IndirectHL
    } else {
        Reg8::A
    }
}

/// The 16-bit register pair encoded by the high two bits of the opcodes
/// below `0x40`, in opcode order.
pub open spec fn spec_reg16_from_row(i: u8) -> Reg16 {
    if i == 0 {
        Reg16::BC
    } else if i == 1 {
        Reg16::DE
    } else if i == 2 {
        Reg16::HL
    } else {
        Reg16::SP
    }
}

fn reg16_from_row(i: u8) -> (r: Reg16)
    ensures
        r == spec_reg16_from_row(i),
{
    if i == 0 {
        Reg16::BC
    } else if i == 1 {
        Reg16::DE
    } else if i == 2 {
        Reg16::HL
    } else {
        Reg16::SP
    }
}

/// The 16-bit value encoded little-endian by two immediate bytes.
pub open spec fn spec_le16(lo: u8, hi: u8) -> u16 {
    (lo + hi * 0x100) as u16
}

fn le16(lo: u8, hi: u8) -> (r: u16)
    ensures
        r == spec_le16(lo, hi),
{
    lo as u16 + hi as u16 * 0x100
}

impl GBInstruction {
    /// What `from_bytes` returns on a given byte window: the instruction
    /// decoded at the window's first byte, or `None` on an opcode this
    /// tool does not know or when the window is too short for the
    /// instruction's immediate bytes.
    pub open spec fn spec_from_bytes(bytes: Seq<u8>) -> Option<GBInstruction> {
        if bytes.len() == 0 {
            None
        } else {
            let b0 = bytes[0];
            if b0 == 0x00 {
                Some(GBInstruction::NOP)
            } else if b0 == 0x02 {
                Some(GBInstruction::LDi16A(Reg16::BC))
            } else if b0 == 0x12 {
                Some(GBInstruction::LDi16A(Reg16::DE))
            } else if b0 == 0x18 {
                if bytes.len() >= 2 {
                    Some(GBInstruction::JRr8(bytes[1] as i8))
                } else {
                    None
                }
            } else if b0 == 0x19 {
                Some(GBInstruction::ADDHL(Reg16::DE))
            } else if b0 == 0x20 {
                if bytes.len() >= 2 {
                    Some(GBInstruction::JRNZr8(bytes[1] as i8))
                } else {
                    None
                }
            } else if b0 == 0x22 {
                Some(GBInstruction::LDHLincA)
            } else if b0 == 0x28 {
                if bytes.len() >= 2 {
                    Some(GBInstruction::JRZr8(bytes[1] as i8))
                } else {
                    None
                }
            } else if b0 == 0x2a {
                Some(GBInstruction::LDAHLdec)
            } else if b0 == 0x32 {
                Some(GBInstruction::LDHLdecA)
            } else if b0 < 0x40 && b0 % 16 == 1 {
                if bytes.len() >= 3 {
                    Some(GBInstruction::LDd16(spec_reg16_from_row(b0 / 16), spec_le16(bytes[1], bytes[2])))
                } else {
                    None
                }
            } else if b0 < 0x40 && b0 % 16 == 3 {
                Some(GBInstruction::INC16(spec_reg16_from_row(b0 / 16)))
            } else if b0 < 0x40 && b0 % 16 == 0xb {
                Some(GBInstruction::DEC16(spec_reg16_from_row(b0 / 16)))
            } else if b0 < 0x40 && b0 % 8 == 4 {
                Some(GBInstruction::INC8(spec_reg8_from_index(b0 / 8)))
            } else if b0 < 0x40 && b0 % 8 == 5 {
                Some(GBInstruction::DEC8(spec_reg8_from_index(b0 / 8)))
            } else if b0 < 0x40 && b0 % 8 == 6 {
                if bytes.len() >= 2 {
                    Some(GBInstruction::LDd8(spec_reg8_from_index(b0 / 8), bytes[1]))
                } else {
                    None
                }
            } else if b0 < 0x40 {
                None
            } else if b0 == 0x76 {
                None
            } else if b0 <= 0x7f {
                Some(GBInstruction::LD(
                    spec_reg8_from_index((b0 / 8) % 8),
                    spec_reg8_from_index(b0 % 8),
                ))
            } else if 0x90 <= b0 && b0 <= 0x97 {
                Some(GBInstruction::SUB(spec_reg8_from_index(b0 % 8)))
            } else if 0xa0 <= b0 && b0 <= 0xa7 {
                Some(GBInstruction::AND(spec_reg8_from_index(b0 % 8)))
            } else if 0xa8 <= b0 && b0 <= 0xaf {
                Some(GBInstruction::XOR(spec_reg8_from_index(b0 % 8)))
            } else if 0xb0 <= b0 && b0 <= 0xb7 {
                Some(GBInstruction::OR(spec_reg8_from_index(b0 % 8)))
            } else if 0xb8 <= b0 && b0 <= 0xbf {
                Some(GBInstruction::CP(spec_reg8_from_index(b0 % 8)))
            } else if b0 == 0xc0 {
                Some(GBInstruction::RETNZ)
            } else if b0 == 0xc1 {
                Some(GBInstruction::POP(Reg16::BC))
            } else if b0 == 0xc2 {
                if bytes.len() >= 3 {
                    Some(GBInstruction::JPNZa16(UnmappedAddress(spec_le16(bytes[1], bytes[2]))))
                } else {
                    None
                }
            } else if b0 == 0xc3 {
                if bytes.len() >= 3 {
                    Some(GBInstruction::JPa16(UnmappedAddress(spec_le16(bytes[1], bytes[2]))))
                } else {
                    None
                }
            } else if b0 == 0xc5 {
                Some(GBInstruction::PUSH(Reg16::BC))
            } else if b0 == 0xc7 {
                Some(GBInstruction::RST(ResetVector::H00))
            } else if b0 == 0xc9 {
                Some(GBInstruction::RET)
            } else if b0 == 0xca {
                if bytes.len() >= 3 {
                    Some(GBInstruction::JPZa16(UnmappedAddress(spec_le16(bytes[1], bytes[2]))))
                } else {
                    None
                }
            } else if b0 == 0xcb {
                if bytes.len() >= 2 {
                    match SpecialInstruction::spec_from_byte(bytes[1]) {
                        Some(special) => Some(GBInstruction::Special(special)),
                        None => None,
                    }
                } else {
                    None
                }
            } else if b0 == 0xcd {
                if bytes.len() >= 3 {
                    Some(GBInstruction::CALLa16(UnmappedAddress(spec_le16(bytes[1], bytes[2]))))
                } else {
                    None
                }
            } else if b0 == 0xcf {
                Some(GBInstruction::RST(ResetVector::H08))
            } else if b0 == 0xd1 {
                Some(GBInstruction::POP(Reg16::DE))
            } else if b0 == 0xd5 {
                Some(GBInstruction::PUSH(Reg16::DE))
            } else if b0 == 0xd7 {
                Some(GBInstruction::RST(ResetVector::H10))
            } else if b0 == 0xdf {
                Some(GBInstruction::RST(ResetVector::H18))
            } else if b0 == 0xe0 {
                if bytes.len() >= 2 {
                    Some(GBInstruction::LDHa8A(bytes[1]))
                } else {
                    None
                }
            } else if b0 == 0xe1 {
                Some(GBInstruction::POP(Reg16::HL))
            } else if b0 == 0xe2 {
                Some(GBInstruction::LDCA)
            } else if b0 == 0xe5 {
                Some(GBInstruction::PUSH(Reg16::HL))
            } else if b0 == 0xe6 {
                if bytes.len() >= 2 {
                    Some(GBInstruction::ANDd8(bytes[1]))
                } else {
                    None
                }
            } else if b0 == 0xe7 {
                Some(GBInstruction::RST(ResetVector::H20))
            } else if b0 == 0xe9 {
                Some(GBInstruction::JPHL)
            } else if b0 == 0xea {
                if bytes.len() >= 3 {
                    Some(GBInstruction::LDa16A(UnmappedAddress(spec_le16(bytes[1], bytes[2]))))
                } else {
                    None
                }
            } else if b0 == 0xef {
                Some(GBInstruction::RST(ResetVector::H28))
            } else if b0 == 0xf0 {
                if bytes.len() >= 2 {
                    Some(GBInstruction::LDHAa8(bytes[1]))
                } else {
                    None
                }
            } else if b0 == 0xf1 {
                Some(GBInstruction::POP(Reg16::AF))
            } else if b0 == 0xf3 {
                Some(GBInstruction::DI)
            } else if b0 == 0xf5 {
                Some(GBInstruction::PUSH(Reg16::AF))
            } else if b0 == 0xf7 {
                Some(GBInstruction::RST(ResetVector::H30))
            } else if b0 == 0xfa {
                if bytes.len() >= 3 {
                    Some(GBInstruction::LDAa16(UnmappedAddress(spec_le16(bytes[1], bytes[2]))))
                } else {
                    None
                }
            } else if b0 == 0xfb {
                Some(GBInstruction::EI)
            } else if b0 == 0xfe {
                if bytes.len() >= 2 {
                    Some(GBInstruction::CPd8(bytes[1]))
                } else {
                    None
                }
            } else if b0 == 0xff {
                Some(GBInstruction::RST(ResetVector::H38))
            } else {
                None
            }
        }
    }

    /// Decode one instruction at the first byte of `bytes`; `None` on an
    /// unknown opcode or when the window is too short.
    pub fn from_bytes(bytes: &[u8]) -> (r: Option<GBInstruction>)
        ensures
            r == Self::spec_from_bytes(bytes@),
    {
        if bytes.len() == 0 {
            return None;
        }
        let b0 = bytes[0];
        if b0 == 0x00 {
            Some(GBInstruction::NOP)
        } else if b0 == 0x02 {
            Some(GBInstruction::LDi16A(Reg16::BC))
        } else if b0 == 0x12 {
            Some(GBInstruction::LDi16A(Reg16::DE))
        } else if b0 == 0x18 {
            if bytes.len() >= 2 {
                Some(GBInstruction::JRr8(bytes[1] as i8))
            } else {
                None
            }
        } else if b0 == 0x19 {
            Some(GBInstruction::ADDHL(Reg16::DE))
        } else if b0 == 0x20 {
            if bytes.len() >= 2 {
                Some(GBInstruction::JRNZr8(bytes[1] as i8))
            } else {
                None
            }
        } else if b0 == 0x22 {
            Some(GBInstruction::LDHLincA)
        } else if b0 == 0x28 {
            if bytes.len() >= 2 {
                Some(GBInstruction::JRZr8(bytes[1] as i8))
            } else {
                None
            }
        } else if b0 == 0x2a {
            Some(GBInstruction::LDAHLdec)
        } else if b0 == 0x32 {
            Some(GBInstruction::LDHLdecA)
        } else if b0 < 0x40 && b0 % 16 == 1 {
            if bytes.len() >= 3 {
                Some(GBInstruction::LDd16(reg16_from_row(b0 / 16), le16(bytes[1], bytes[2])))
            } else {
                None
            }
        } else if b0 < 0x40 && b0 % 16 == 3 {
            Some(GBInstruction::INC16(reg16_from_row(b0 / 16)))
        } else if b0 < 0x40 && b0 % 16 == 0xb {
            Some(GBInstruction::DEC16(reg16_from_row(b0 / 16)))
        } else if b0 < 0x40 && b0 % 8 == 4 {
            Some(GBInstruction::INC8(reg8_from_index(b0 / 8)))
        } else if b0 < 0x40 && b0 % 8 == 5 {
            Some(GBInstruction::DEC8(reg8_from_index(b0 / 8)))
        } else if b0 < 0x40 && b0 % 8 == 6 {
            if bytes.len() >= 2 {
                Some(GBInstruction::LDd8(reg8_from_index(b0 / 8), bytes[1]))
            } else {
                None
            }
        } else if b0 < 0x40 {
            None
        } else if b0 == 0x76 {
            None
        } else if b0 <= 0x7f {
            Some(GBInstruction::LD(reg8_from_index((b0 / 8) % 8), reg8_from_index(b0 % 8)))
        } else if 0x90 <= b0 && b0 <= 0x97 {
            Some(GBInstruction::SUB(reg8_from_index(b0 % 8)))
        } else if 0xa0 <= b0 && b0 <= 0xa7 {
            Some(GBInstruction::AND(reg8_from_index(b0 % 8)))
        } else if 0xa8 <= b0 && b0 <= 0xaf {
            Some(GBInstruction::XOR(reg8_from_index(b0 % 8)))
        } else if 0xb0 <= b0 && b0 <= 0xb7 {
            Some(GBInstruction::OR(reg8_from_index(b0 % 8)))
        } else if 0xb8 <= b0 && b0 <= 0xbf {
            Some(GBInstruction::CP(reg8_from_index(b0 % 8)))
        } else if b0 == 0xc0 {
            Some(GBInstruction::RETNZ)
        } else if b0 == 0xc1 {
            Some(GBInstruction::POP(Reg16::BC))
        } else if b0 == 0xc2 {
            if bytes.len() >= 3 {
                Some(GBInstruction::JPNZa16(UnmappedAddress(le16(bytes[1], bytes[2]))))
            } else {
                None
            }
        } else if b0 == 0xc3 {
            if bytes.len() >= 3 {
                Some(GBInstruction::JPa16(UnmappedAddress(le16(bytes[1], bytes[2]))))
            } else {
                None
            }
        } else if b0 == 0xc5 {
            Some(GBInstruction::PUSH(Reg16::BC))
        } else if b0 == 0xc7 {
            Some(GBInstruction::RST(ResetVector::H00))
        } else if b0 == 0xc9 {
            Some(GBInstruction::RET)
        } else if b0 == 0xca {
            if bytes.len() >= 3 {
                Some(GBInstruction::JPZa16(UnmappedAddress(le16(bytes[1], bytes[2]))))
            } else {
                None
            }
        } else if b0 == 0xcb {
            if bytes.len() >= 2 {
                match SpecialInstruction::from_byte(bytes[1]) {
                    Some(special) => Some(GBInstruction::Special(special)),
                    None => None,
                }
            } else {
                None
            }
        } else if b0 == 0xcd {
            if bytes.len() >= 3 {
                Some(GBInstruction::CALLa16(UnmappedAddress(le16(bytes[1], bytes[2]))))
            } else {
                None
            }
        } else if b0 == 0xcf {
            Some(GBInstruction::RST(ResetVector::H08))
        } else if b0 == 0xd1 {
            Some(GBInstruction::POP(Reg16::DE))
        } else if b0 == 0xd5 {
            Some(GBInstruction::PUSH(Reg16::DE))
        } else if b0 == 0xd7 {
            Some(GBInstruction::RST(ResetVector::H10))
        } else if b0 == 0xdf {
            Some(GBInstruction::RST(ResetVector::H18))
        } else if b0 == 0xe0 {
            if bytes.len() >= 2 {
                Some(GBInstruction::LDHa8A(bytes[1]))
            } else {
                None
            }
        } else if b0 == 0xe1 {
            Some(GBInstruction::POP(Reg16::HL))
        } else if b0 == 0xe2 {
            Some(GBInstruction::LDCA)
        } else if b0 == 0xe5 {
            Some(GBInstruction::PUSH(Reg16::HL))
        } else if b0 == 0xe6 {
            if bytes.len() >= 2 {
                Some(GBInstruction::ANDd8(bytes[1]))
            } else {
                None
            }
        } else if b0 == 0xe7 {
            Some(GBInstruction::RST(ResetVector::H20))
        } else if b0 == 0xe9 {
            Some(GBInstruction::JPHL)
        } else if b0 == 0xea {
            if bytes.len() >= 3 {
                Some(GBInstruction::LDa16A(UnmappedAddress(le16(bytes[1], bytes[2]))))
            } else {
                None
            }
        } else if b0 == 0xef {
            Some(GBInstruction::RST(ResetVector::H28))
        } else if b0 == 0xf0 {
            if bytes.len() >= 2 {
                Some(GBInstruction::LDHAa8(bytes[1]))
            } else {
                None
            }
        } else if b0 == 0xf1 {
            Some(GBInstruction::POP(Reg16::AF))
        } else if b0 == 0xf3 {
            Some(GBInstruction::DI)
        } else if b0 == 0xf5 {
            Some(GBInstruction::PUSH(Reg16::AF))
        } else if b0 == 0xf7 {
            Some(GBInstruction::RST(ResetVector::H30))
        } else if b0 == 0xfa {
            if bytes.len() >= 3 {
                Some(GBInstruction::LDAa16(UnmappedAddress(le16(bytes[1], bytes[2]))))
            } else {
                None
            }
        } else if b0 == 0xfb {
            Some(GBInstruction::EI)
        } else if b0 == 0xfe {
            if bytes.len() >= 2 {
                Some(GBInstruction::CPd8(bytes[1]))
            } else {
                None
            }
        } else if b0 == 0xff {
            Some(GBInstruction::RST(ResetVector::H38))
        } else {
            None
        }
    }

    /// The mnemonic of the instruction.
    pub open spec fn spec_name(self) -> Seq<char> {
        match self {
            GBInstruction::NOP => "NOP"@,
            GBInstruction::LDd16(_, _) => "LD"@,
            GBInstruction::LDd8(_, _) => "LD"@,
            GBInstruction::LDi16A(_) => "LD"@,
            GBInstruction::LDHLincA => "LD"@,
            GBInstruction::LDAHLdec => "LD"@,
            GBInstruction::LDHLdecA => "LD"@,
            GBInstruction::LD(_, _) => "LD"@,
            GBInstruction::LDa16A(_) => "LD"@,
            GBInstruction::LDAa16(_) => "LD"@,
            GBInstruction::LDCA => "LD"@,
            GBInstruction::LDHAa8(_) => "LDH"@,
            GBInstruction::LDHa8A(_) => "LDH"@,
            GBInstruction::DEC8(_) => "DEC"@,
            GBInstruction::DEC16(_) => "DEC"@,
            GBInstruction::ADDHL(_) => "ADD"@,
            GBInstruction::JRr8(_) => "JR"@,
            GBInstruction::JRNZr8(_) => "JR NZ"@,
            GBInstruction::JRZr8(_) => "JR Z"@,
            GBInstruction::INC8(_) => "INC"@,
            GBInstruction::INC16(_) => "INC"@,
            GBInstruction::XOR(_) => "XOR"@,
            GBInstruction::OR(_) => "OR"@,
            GBInstruction::CP(_) => "CP"@,
            GBInstruction::RETNZ => "RET NZ"@,
            GBInstruction::JPNZa16(_) => "JP NZ"@,
            GBInstruction::JPa16(_) => "JP"@,
            GBInstruction::JPHL => "JP"@,
            GBInstruction::RET => "RET"@,
            GBInstruction::JPZa16(_) => "JP Z"@,
            GBInstruction::Special(special) => special.spec_name(),
            GBInstruction::CALLa16(_) => "CALL"@,
            GBInstruction::PUSH(_) => "PUSH"@,
            GBInstruction::POP(_) => "POP"@,
            GBInstruction::SUB(_) => "SUB"@,
            GBInstruction::AND(_) => "AND"@,
            GBInstruction::ANDd8(_) => "AND"@,
            GBInstruction::DI => "DI"@,
            GBInstruction::EI => "EI"@,
            GBInstruction::CPd8(_) => "CP"@,
            GBInstruction::RST(_) => "RST"@,
        }
    }

    /// The mnemonic of the instruction.
    pub fn name(&self) -> (r: &str)
        ensures
            r@ == self.spec_name(),
    {
        match self {
            GBInstruction::NOP => "NOP",
            GBInstruction::LDd16(_, _)
            | GBInstruction::LDd8(_, _)
            | GBInstruction::LDi16A(_)
            | GBInstruction::LDHLincA
            | GBInstruction::LDAHLdec
            | GBInstruction::LDHLdecA
            | GBInstruction::LD(_, _)
            | GBInstruction::LDa16A(_)
            | GBInstruction::LDAa16(_)
            | GBInstruction::LDCA => "LD",
            GBInstruction::LDHAa8(_) | GBInstruction::LDHa8A(_) => "LDH",
            GBInstruction::DEC8(_) | GBInstruction::DEC16(_) => "DEC",
            GBInstruction::ADDHL(_) => "ADD",
            GBInstruction::JRr8(_) => "JR",
            GBInstruction::JRNZr8(_) => "JR NZ",
            GBInstruction::JRZr8(_) => "JR Z",
            GBInstruction::INC8(_) | GBInstruction::INC16(_) => "INC",
            GBInstruction::XOR(_) => "XOR",
            GBInstruction::OR(_) => "OR",
            GBInstruction::CP(_) => "CP",
            GBInstruction::RETNZ => "RET NZ",
            GBInstruction::JPNZa16(_) => "JP NZ",
            GBInstruction::JPa16(_) | GBInstruction::JPHL => "JP",
            GBInstruction::RET => "RET",
            GBInstruction::JPZa16(_) => "JP Z",
            GBInstruction::Special(special) => special.name(),
            GBInstruction::CALLa16(_) => "CALL",
            GBInstruction::PUSH(_) => "PUSH",
            GBInstruction::POP(_) => "POP",
            GBInstruction::SUB(_) => "SUB",
            GBInstruction::AND(_) | GBInstruction::ANDd8(_) => "AND",
            GBInstruction::DI => "DI",
            GBInstruction::EI => "EI",
            GBInstruction::CPd8(_) => "CP",
            GBInstruction::RST(_) => "RST",
        }
    }

    /// What `first_argument` returns.
    pub open spec fn spec_first_argument(self) -> Option<Argument> {
        match self {
            GBInstruction::NOP => None,
            GBInstruction::DI => None,
            GBInstruction::EI => None,
            GBInstruction::RET => None,
            GBInstruction::RETNZ => None,
            GBInstruction::LDd16(reg, _) => Some(Argument::Reg16(reg)),
            GBInstruction::INC16(reg) => Some(Argument::Reg16(reg)),
            GBInstruction::DEC16(reg) => Some(Argument::Reg16(reg)),
            GBInstruction::PUSH(reg) => Some(Argument::Reg16(reg)),
            GBInstruction::POP(reg) => Some(Argument::Reg16(reg)),
            GBInstruction::ADDHL(_) => Some(Argument::Reg16(Reg16::HL)),
            GBInstruction::JRr8(value) => Some(Argument::Rel8(value)),
            GBInstruction::JRNZr8(value) => Some(Argument::Rel8(value)),
            GBInstruction::JRZr8(value) => Some(Argument::Rel8(value)),
            GBInstruction::LDHLincA => Some(Argument::IndirectHLinc),
            GBInstruction::LDAHLdec => Some(Argument::Reg8(Reg8::A)),
            GBInstruction::LDHLdecA => Some(Argument::IndirectHLdec),
            GBInstruction::LDd8(reg, _) => Some(Argument::Reg8(reg)),
            GBInstruction::LD(reg, _) => Some(Argument::Reg8(reg)),
            GBInstruction::INC8(reg) => Some(Argument::Reg8(reg)),
            GBInstruction::DEC8(reg) => Some(Argument::Reg8(reg)),
            GBInstruction::SUB(reg) => Some(Argument::Reg8(reg)),
            GBInstruction::AND(reg) => Some(Argument::Reg8(reg)),
            GBInstruction::XOR(reg) => Some(Argument::Reg8(reg)),
            GBInstruction::OR(reg) => Some(Argument::Reg8(reg)),
            GBInstruction::CP(reg) => Some(Argument::Reg8(reg)),
            GBInstruction::LDa16A(address) => Some(Argument::Address(address)),
            GBInstruction::JPa16(address) => Some(Argument::Address(address)),
            GBInstruction::JPZa16(address) => Some(Argument::Address(address)),
            GBInstruction::JPNZa16(address) => Some(Argument::Address(address)),
            GBInstruction::CALLa16(address) => Some(Argument::Address(address)),
            GBInstruction::Special(special) => special.spec_first_argument(),
            GBInstruction::LDHa8A(value) => Some(
                Argument::Address(UnmappedAddress((0xff00 + value) as u16)),
            ),
            GBInstruction::CPd8(value) => Some(Argument::Imm8(value)),
            GBInstruction::ANDd8(value) => Some(Argument::Imm8(value)),
            GBInstruction::JPHL => Some(Argument::IndirectReg16(Reg16::HL)),
            GBInstruction::LDHAa8(_) => Some(Argument::Reg8(Reg8::A)),
            GBInstruction::LDAa16(_) => Some(Argument::Reg8(Reg8::A)),
            GBInstruction::LDCA => Some(Argument::IndirectC),
            GBInstruction::LDi16A(reg) => Some(Argument::IndirectReg16(reg)),
            GBInstruction::RST(vector) => Some(Argument::ResetVector(vector)),
        }
    }

    /// The first operand to render, if the instruction has one.
    pub fn first_argument(&self) -> (r: Option<Argument>)
        ensures
            r == self.spec_first_argument(),
    {
        match self {
            GBInstruction::NOP | GBInstruction::DI | GBInstruction::EI => None,
            GBInstruction::LDd16(reg, _)
            | GBInstruction::INC16(reg)
            | GBInstruction::DEC16(reg)
            | GBInstruction::PUSH(reg)
            | GBInstruction::POP(reg) => Some(Argument::Reg16(*reg)),
            GBInstruction::ADDHL(_) => Some(Argument::Reg16(Reg16::HL)),
            GBInstruction::JRr8(value)
            | GBInstruction::JRNZr8(value)
            | GBInstruction::JRZr8(value) => Some(Argument::Rel8(*value)),
            GBInstruction::LDHLincA => Some(Argument::IndirectHLinc),
            GBInstruction::LDAHLdec => Some(Argument::Reg8(Reg8::A)),
            GBInstruction::LDHLdecA => Some(Argument::IndirectHLdec),
            GBInstruction::LDd8(reg, _)
            | GBInstruction::LD(reg, _)
            | GBInstruction::INC8(reg)
            | GBInstruction::DEC8(reg)
            | GBInstruction::SUB(reg)
            | GBInstruction::AND(reg)
            | GBInstruction::XOR(reg)
            | GBInstruction::OR(reg)
            | GBInstruction::CP(reg) => Some(Argument::Reg8(*reg)),
            GBInstruction::LDa16A(address)
            | GBInstruction::JPa16(address)
            | GBInstruction::JPZa16(address)
            | GBInstruction::JPNZa16(address)
            | GBInstruction::CALLa16(address) => Some(Argument::Address(*address)),
            GBInstruction::RET | GBInstruction::RETNZ => None,
            GBInstruction::Special(special) => special.first_argument(),
            GBInstruction::LDHa8A(value) => Some(
                Argument::Address(UnmappedAddress(0xff00 + *value as u16)),
            ),
            GBInstruction::CPd8(value) | GBInstruction::ANDd8(value) => Some(
                Argument::Imm8(*value),
            ),
            GBInstruction::JPHL => Some(Argument::IndirectReg16(Reg16::HL)),
            GBInstruction::LDHAa8(_) | GBInstruction::LDAa16(_) => Some(Argument::Reg8(Reg8::A)),
            GBInstruction::LDCA => Some(Argument::IndirectC),
            GBInstruction::LDi16A(reg) => Some(Argument::IndirectReg16(*reg)),
            GBInstruction::RST(vector) => Some(Argument::ResetVector(*vector)),
        }
    }

    /// What `second_argument` returns.
    pub open spec fn spec_second_argument(self) -> Option<Argument> {
        match self {
            GBInstruction::LDd16(_, value) => Some(Argument::Imm16(value)),
            GBInstruction::LDd8(_, value) => Some(Argument::Imm8(value)),
            GBInstruction::ADDHL(reg) => Some(Argument::Reg16(reg)),
            GBInstruction::LDa16A(_) => Some(Argument::Reg8(Reg8::A)),
            GBInstruction::LDHa8A(_) => Some(Argument::Reg8(Reg8::A)),
            GBInstruction::LDHLincA => Some(Argument::Reg8(Reg8::A)),
            GBInstruction::LDHLdecA => Some(Argument::Reg8(Reg8::A)),
            GBInstruction::LDCA => Some(Argument::Reg8(Reg8::A)),
            GBInstruction::LDi16A(_) => Some(Argument::Reg8(Reg8::A)),
            GBInstruction::LD(_, reg) => Some(Argument::Reg8(reg)),
            GBInstruction::LDHAa8(value) => Some(
                Argument::Address(UnmappedAddress((0xff00 + value) as u16)),
            ),
            GBInstruction::LDAHLdec => Some(Argument::IndirectHLdec),
            GBInstruction::LDAa16(address) => Some(Argument::Address(address)),
            _ => None,
        }
    }

    /// The second operand to render, if the instruction has one.
    pub fn second_argument(&self) -> (r: Option<Argument>)
        ensures
            r == self.spec_second_argument(),
    {
        match self {
            GBInstruction::LDd16(_, value) => Some(Argument::Imm16(*value)),
            GBInstruction::LDd8(_, value) => Some(Argument::Imm8(*value)),
            GBInstruction::ADDHL(reg) => Some(Argument::Reg16(*reg)),
            GBInstruction::LDa16A(_)
            | GBInstruction::LDHa8A(_)
            | GBInstruction::LDHLincA
            | GBInstruction::LDHLdecA
            | GBInstruction::LDCA
            | GBInstruction::LDi16A(_) => Some(Argument::Reg8(Reg8::A)),
            GBInstruction::LD(_, reg) => Some(Argument::Reg8(*reg)),
            GBInstruction::LDHAa8(value) => Some(
                Argument::Address(UnmappedAddress(0xff00 + *value as u16)),
            ),
            GBInstruction::LDAHLdec => Some(Argument::IndirectHLdec),
            GBInstruction::LDAa16(address) => Some(Argument::Address(*address)),
            _ => None,
        }
    }

    /// What `jump_address` returns: the unresolved destination of a branch
    /// or call instruction.
    pub open spec fn spec_jump_address(self) -> Option<UnmappedAddress> {
        match self {
            GBInstruction::JPa16(address) => Some(address),
            GBInstruction::CALLa16(address) => Some(address),
            GBInstruction::JPZa16(address) => Some(address),
            GBInstruction::JPNZa16(address) => Some(address),
            GBInstruction::RST(vector) => Some(vector.spec_address()),
            _ => None,
        }
    }

    /// The jump address if this instruction contains one.
    pub fn jump_address(&self) -> (r: Option<UnmappedAddress>)
        ensures
            r == self.spec_jump_address(),
    {
        match self {
            GBInstruction::JPa16(address)
            | GBInstruction::CALLa16(address)
            | GBInstruction::JPZa16(address)
            | GBInstruction::JPNZa16(address) => Some(*address),
            GBInstruction::RST(vector) => Some(vector.address()),
            _ => None,
        }
    }
}

impl Instruction for GBInstruction {
    open spec fn spec_size(&self) -> usize {
        match self {
            GBInstruction::NOP => 1,
            GBInstruction::LDd16(_, _) => 3,
            GBInstruction::LDi16A(_) => 1,
            GBInstruction::INC8(_) => 1,
            GBInstruction::DEC8(_) => 1,
            GBInstruction::INC16(_) => 1,
            GBInstruction::DEC16(_) => 1,
            GBInstruction::LDd8(_, _) => 2,
            GBInstruction::JRZr8(_) => 2,
            GBInstruction::ADDHL(_) => 1,
            GBInstruction::JRr8(_) => 2,
            GBInstruction::JRNZr8(_) => 2,
            GBInstruction::LDHLincA => 1,
            GBInstruction::LDAHLdec => 1,
            GBInstruction::LDHLdecA => 1,
            GBInstruction::LD(_, _) => 1,
            GBInstruction::SUB(_) => 1,
            GBInstruction::AND(_) => 1,
            GBInstruction::XOR(_) => 1,
            GBInstruction::OR(_) => 1,
            GBInstruction::CP(_) => 1,
            GBInstruction::JPNZa16(_) => 3,
            GBInstruction::JPa16(_) => 3,
            GBInstruction::RET => 1,
            GBInstruction::JPZa16(_) => 3,
            GBInstruction::Special(_) => 2,
            GBInstruction::CALLa16(_) => 3,
            GBInstruction::PUSH(_) => 1,
            GBInstruction::RETNZ => 1,
            GBInstruction::POP(_) => 1,
            GBInstruction::LDHa8A(_) => 2,
            GBInstruction::LDCA => 1,
            GBInstruction::ANDd8(_) => 2,
            GBInstruction::JPHL => 1,
            GBInstruction::LDa16A(_) => 3,
            GBInstruction::DI => 1,
            GBInstruction::LDAa16(_) => 3,
            GBInstruction::LDHAa8(_) => 2,
            GBInstruction::EI => 1,
            GBInstruction::CPd8(_) => 2,
            GBInstruction::RST(_) => 1,
        }
    }

    open spec fn spec_falls_through(&self) -> bool {
        match self {
            GBInstruction::JPa16(_) => false,
            GBInstruction::JPHL => false,
            GBInstruction::RET => false,
            GBInstruction::JRr8(_) => false,
            _ => true,
        }
    }

    open spec fn spec_branch_address(&self) -> Option<LogicalAddress> {
        match self {
            GBInstruction::JPa16(address) => Some(
                LogicalAddress::Absolute(address.0 as usize),
            ),
            GBInstruction::CALLa16(address) => Some(
                LogicalAddress::Absolute(address.0 as usize),
            ),
            GBInstruction::JPZa16(address) => Some(
                LogicalAddress::Absolute(address.0 as usize),
            ),
            GBInstruction::JPNZa16(address) => Some(
                LogicalAddress::Absolute(address.0 as usize),
            ),
            GBInstruction::JRr8(offset) => Some(
                LogicalAddress::Relative(((offset as int) + 2) as isize),
            ),
            GBInstruction::JRZr8(offset) => Some(
                LogicalAddress::Relative(((offset as int) + 2) as isize),
            ),
            GBInstruction::JRNZr8(offset) => Some(
                LogicalAddress::Relative(((offset as int) + 2) as isize),
            ),
            GBInstruction::RST(vector) => Some(
                LogicalAddress::Absolute(vector.spec_address().0 as usize),
            ),
            _ => None,
        }
    }

    fn size(&self) -> (r: usize) {
        match self {
            GBInstruction::NOP => 1,
            GBInstruction::LDd16(_, _) => 3,
            GBInstruction::LDi16A(_) => 1,
            GBInstruction::INC8(_) => 1,
            GBInstruction::DEC8(_) => 1,
            GBInstruction::INC16(_) => 1,
            GBInstruction::DEC16(_) => 1,
            GBInstruction::LDd8(_, _) => 2,
            GBInstruction::JRZr8(_) => 2,
            GBInstruction::ADDHL(_) => 1,
            GBInstruction::JRr8(_) => 2,
            GBInstruction::JRNZr8(_) => 2,
            GBInstruction::LDHLincA => 1,
            GBInstruction::LDAHLdec => 1,
            GBInstruction::LDHLdecA => 1,
            GBInstruction::LD(_, _) => 1,
            GBInstruction::SUB(_) => 1,
            GBInstruction::AND(_) => 1,
            GBInstruction::XOR(_) => 1,
            GBInstruction::OR(_) => 1,
            GBInstruction::CP(_) => 1,
            GBInstruction::JPNZa16(_) => 3,
            GBInstruction::JPa16(_) => 3,
            GBInstruction::RET => 1,
            GBInstruction::JPZa16(_) => 3,
            GBInstruction::Special(_) => 2,
            GBInstruction::CALLa16(_) => 3,
            GBInstruction::PUSH(_) => 1,
            GBInstruction::RETNZ => 1,
            GBInstruction::POP(_) => 1,
            GBInstruction::LDHa8A(_) => 2,
            GBInstruction::LDCA => 1,
            GBInstruction::ANDd8(_) => 2,
            GBInstruction::JPHL => 1,
            GBInstruction::LDa16A(_) => 3,
            GBInstruction::DI => 1,
            GBInstruction::LDAa16(_) => 3,
            GBInstruction::LDHAa8(_) => 2,
            GBInstruction::EI => 1,
            GBInstruction::CPd8(_) => 2,
            GBInstruction::RST(_) => 1,
        }
    }

    fn falls_through(&self) -> (r: bool) {
        match self {
            GBInstruction::JPa16(_)
            | GBInstruction::JPHL
            | GBInstruction::RET
            | GBInstruction::JRr8(_) => false,
            _ => true,
        }
    }

    fn branch_address(&self) -> (r: Option<LogicalAddress>) {
        match self {
            GBInstruction::JPa16(address)
            | GBInstruction::CALLa16(address)
            | GBInstruction::JPZa16(address)
            | GBInstruction::JPNZa16(address) => Some(
                LogicalAddress::Absolute(address.0 as usize),
            ),
            GBInstruction::JRr8(offset)
            | GBInstruction::JRZr8(offset)
            | GBInstruction::JRNZr8(offset) => Some(
                LogicalAddress::Relative(*offset as isize + 2),
            ),
            GBInstruction::RST(vector) => Some(
                LogicalAddress::Absolute(vector.address().0 as usize),
            ),
            _ => None,
        }
    }
}

/// The Game Boy architecture: plugs the decoder and the address resolver
/// into the discovery engine.
pub struct GameBoy;

impl Architecture for GameBoy {
    type Instruction = GBInstruction;

    open spec fn spec_disassemble(bytes: Seq<u8>) -> Option<GBInstruction> {
        GBInstruction::spec_from_bytes(bytes)
    }

    open spec fn spec_resolve_address(
        address: LogicalAddress,
        location: int,
        snapshot: ClassificationSnapshot,
    ) -> Option<usize> {
        match address {
            LogicalAddress::Absolute(a) => if a < 0x4000 && (a as int) < snapshot.rom.len() {
                Some(a)
            } else if 0x4000 <= a && a < 0x8000 && 0x4000 <= location && location < 0x8000
                && (a as int) < snapshot.rom.len() {
                Some(a)
            } else {
                None
            },
            LogicalAddress::Relative(o) => {
                let target = location + o as int;
                if 0 <= target && target < snapshot.rom.len() && target <= usize::MAX as int {
                    Some(target as usize)
                } else {
                    None
                }
            },
        }
    }

    proof fn lemma_disassemble_fits(bytes: Seq<u8>) {
    }

    proof fn lemma_resolve_in_image(
        address: LogicalAddress,
        location: int,
        snapshot: ClassificationSnapshot,
    ) {
    }

    fn disassemble(bytes: &[u8]) -> (r: Option<GBInstruction>) {
        GBInstruction::from_bytes(bytes)
    }

    fn resolve_address(
        address: LogicalAddress,
        location: usize,
        state: &DisassemblerState,
    ) -> (r: Option<usize>) {
        let image_len = state.rom_len();
        match address {
            LogicalAddress::Absolute(a) => {
                // the fixed low window maps one to one onto the image; a
                // switchable-window target resolves only when the read
                // location lies in that window itself, whose position then
                // fixes the active bank; anything else would be a guess
                if a < 0x4000 && a < image_len {
                    Some(a)
                } else if a >= 0x4000 && a < 0x8000 && location >= 0x4000 && location < 0x8000
                    && a < image_len {
                    Some(a)
                } else {
                    None
                }
            },
            LogicalAddress::Relative(o) => {
                let target = location as i128 + o as i128;
                if 0 <= target && target < image_len as i128 {
                    Some(target as usize)
                } else {
                    None
                }
            },
        }
    }
}

/// A logical address after bank resolution: a concrete image offset, an
/// offset within an undetermined bank, or a system address outside the
/// image.
#[derive(Debug, Copy, Clone, PartialEq, Eq, Structural)]
pub enum ResolvedAddress {
    Physical(usize),
    UnknownBank(u16),
    System(u16),
}

impl ResolvedAddress {
    /// What `get` returns.
    pub open spec fn spec_get(self) -> Option<usize> {
        match self {
            ResolvedAddress::Physical(address) => Some(address),
            _ => None,
        }
    }

    /// The concrete image offset, if resolution produced one.
    pub fn get(&self) -> (r: Option<usize>)
        ensures
            r == self.spec_get(),
    {
        match self {
            ResolvedAddress::Physical(address) => Some(*address),
            _ => None,
        }
    }
}

/// What `resolve_physical_address` returns.  The memory map has three
/// windows: a fixed low window below `0x4000` mapping one to one onto the
/// image, a switchable window up to `0x8000` whose image offset depends on
/// the bank active at the read location, and a system window beyond, which
/// never maps to image content.  A switchable-window address resolves
/// through the bank of the read location itself when the read location
/// lies in the switchable window, else through the explicit bank
/// assignment for the read location; with neither, the offset within the
/// bank is reported as unresolved rather than guessed.
///
/// The self-reference rule is a deliberate choice: an instruction stored
/// in the switchable region can only execute with its own bank mapped in,
/// so resolving a same-window target through the read location's position
/// is an inference from the layout, not a guess.  A stricter resolver
/// would report such targets as `UnknownBank` until a bank is assigned
/// explicitly; this one resolves them.
pub open spec fn spec_resolve_physical_address(
    read_at: usize,
    address: UnmappedAddress,
    banks: Map<usize, usize>,
) -> ResolvedAddress {
    let a = address.0;
    if a < 0x4000 {
        ResolvedAddress::Physical(a as usize)
    } else if a < 0x8000 {
        let offset = (a - 0x4000) as usize;
        if 0x4000 <= read_at && read_at < 0x8000 {
            ResolvedAddress::Physical((0x4000 + offset) as usize)
        } else if banks.contains_key(read_at) {
            let target = banks[read_at] * 0x4000 + offset;
            if target <= usize::MAX as int {
                ResolvedAddress::Physical(target as usize)
            } else {
                ResolvedAddress::UnknownBank((a - 0x4000) as u16)
            }
        } else {
            ResolvedAddress::UnknownBank((a - 0x4000) as u16)
        }
    } else {
        ResolvedAddress::System(a)
    }
}

/// Resolve an absolute 16-bit address read at image offset `read_at`,
/// consulting the explicit bank assignments.
pub fn resolve_physical_address(
    read_at: usize,
    address: UnmappedAddress,
    banks: &HashMap<usize, usize>,
) -> (r: ResolvedAddress)
    ensures
        r == spec_resolve_physical_address(read_at, address, banks@),
{
    let a = address.0;
    if a < 0x4000 {
        ResolvedAddress::Physical(a as usize)
    } else if a < 0x8000 {
        let offset = (a - 0x4000) as usize;
        if read_at >= 0x4000 && read_at < 0x8000 {
            // the read location lies in the switchable window, so the
            // target shares its bank
            ResolvedAddress::Physical(0x4000 + offset)
        } else {
            match banks.get(&read_at) {
                Some(bank) => {
                    let target = *bank as u128 * 0x4000 + offset as u128;
                    if target <= usize::MAX as u128 {
                        ResolvedAddress::Physical(target as usize)
                    } else {
                        ResolvedAddress::UnknownBank(a - 0x4000)
                    }
                },
                None => ResolvedAddress::UnknownBank(a - 0x4000),
            }
        }
    } else {
        ResolvedAddress::System(a)
    }
}

} // verus!
