//! The I/O registers of the CPU: sound channels, sprite DMA and controller
//! ports, memory-mapped at 0x4000 to 0x4017.

use crate::mem::address::Address;
use vstd::prelude::*;

verus! {

/// One of the I/O registers.
#[derive(Clone, Copy, Debug, PartialEq, Eq, Structural)]
pub enum IoRegister {
    Sq1Vol,
    Sq1Sweep,
    Sq1Lo,
    Sq1Hi,
    Sq2Vol,
    Sq2Sweep,
    Sq2Lo,
    Sq2Hi,
    TriLinear,
    TriLo,
    TriHi,
    NoiseVol,
    NoiseLo,
    NoiseHi,
    DmcFreq,
    DmcRaw,
    DmcStart,
    DmcLen,
    OamDma,
    SndChn,
    Joy1,
    Joy2,
}

/// The register that is mapped at `addr`, if there is one.
pub open spec fn io_register_at(addr: u16) -> Option<IoRegister> {
    match addr {
        0x4000 => Some(IoRegister::Sq1Vol),
        0x4001 => Some(IoRegister::Sq1Sweep),
        0x4002 => Some(IoRegister::Sq1Lo),
        0x4003 => Some(IoRegister::Sq1Hi),
        0x4004 => Some(IoRegister::Sq2Vol),
        0x4005 => Some(IoRegister::Sq2Sweep),
        0x4006 => Some(IoRegister::Sq2Lo),
        0x4007 => Some(IoRegister::Sq2Hi),
        0x4008 => Some(IoRegister::TriLinear),
        0x400A => Some(IoRegister::TriLo),
        0x400B => Some(IoRegister::TriHi),
        0x400C => Some(IoRegister::NoiseVol),
        0x400E => Some(IoRegister::NoiseLo),
        0x400F => Some(IoRegister::NoiseHi),
        0x4010 => Some(IoRegister::DmcFreq),
        0x4011 => Some(IoRegister::DmcRaw),
        0x4012 => Some(IoRegister::DmcStart),
        0x4013 => Some(IoRegister::DmcLen),
        0x4014 => Some(IoRegister::OamDma),
        0x4015 => Some(IoRegister::SndChn),
        0x4016 => Some(IoRegister::Joy1),
        0x4017 => Some(IoRegister::Joy2),
        _ => None,
    }
}

/// The name of a register as the hardware documentation writes it.
pub open spec fn io_register_name(register: IoRegister) -> Seq<char> {
    match register {
        IoRegister::Sq1Vol => "SQ1_VOL"@,
        IoRegister::Sq1Sweep => "SQ1_SWEEP"@,
        IoRegister::Sq1Lo => "SQ1_LO"@,
        IoRegister::Sq1Hi => "SQ1_HI"@,
        IoRegister::Sq2Vol => "SQ2_VOL"@,
        IoRegister::Sq2Sweep => "SQ2_SWEEP"@,
        IoRegister::Sq2Lo => "SQ2_LO"@,
        IoRegister::Sq2Hi => "SQ2_HI"@,
        IoRegister::TriLinear => "TRI_LINEAR"@,
        IoRegister::TriLo => "TRI_LO"@,
        IoRegister::TriHi => "TRI_HI"@,
        IoRegister::NoiseVol => "NOISE_VOL"@,
        IoRegister::NoiseLo => "NOISE_LO"@,
        IoRegister::NoiseHi => "NOISE_HI"@,
        IoRegister::DmcFreq => "DMC_FREQ"@,
        IoRegister::DmcRaw => "DMC_RAW"@,
        IoRegister::DmcStart => "DMC_START"@,
        IoRegister::DmcLen => "DMC_LEN"@,
        IoRegister::OamDma => "OAMDMA"@,
        IoRegister::SndChn => "SND_CHN"@,
        IoRegister::Joy1 => "JOY1"@,
        IoRegister::Joy2 => "JOY2"@,
    }
}

impl IoRegister {
    /// The register that is mapped at `addr`, or `None` where no register
    /// is: outside 0x4000 to 0x4017, and at the two unused addresses 0x4009
    /// and 0x400D within.
    pub fn from_address(addr: Address) -> (register: Option<IoRegister>)
        ensures
            register == io_register_at(addr.0),
    {
        match addr.0 {
            0x4000 => Some(IoRegister::Sq1Vol),
            0x4001 => Some(IoRegister::Sq1Sweep),
            0x4002 => Some(IoRegister::Sq1Lo),
            0x4003 => Some(IoRegister::Sq1Hi),
            0x4004 => Some(IoRegister::Sq2Vol),
            0x4005 => Some(IoRegister::Sq2Sweep),
            0x4006 => Some(IoRegister::Sq2Lo),
            0x4007 => Some(IoRegister::Sq2Hi),
            0x4008 => Some(IoRegister::TriLinear),
            0x400A => Some(IoRegister::TriLo),
            0x400B => Some(IoRegister::TriHi),
            0x400C => Some(IoRegister::NoiseVol),
            0x400E => Some(IoRegister::NoiseLo),
            0x400F => Some(IoRegister::NoiseHi),
            0x4010 => Some(IoRegister::DmcFreq),
            0x4011 => Some(IoRegister::DmcRaw),
            0x4012 => Some(IoRegister::DmcStart),
            0x4013 => Some(IoRegister::DmcLen),
            0x4014 => Some(IoRegister::OamDma),
            0x4015 => Some(IoRegister::SndChn),
            0x4016 => Some(IoRegister::Joy1),
            0x4017 => Some(IoRegister::Joy2),
            _ => None,
        }
    }

    /// The name of the register as the hardware documentation writes it.
    pub fn name(&self) -> (name: &'static str)
        ensures
            name@ == io_register_name(*self),
    {
        match self {
            IoRegister::Sq1Vol => "SQ1_VOL",
            IoRegister::Sq1Sweep => "SQ1_SWEEP",
            IoRegister::Sq1Lo => "SQ1_LO",
            IoRegister::Sq1Hi => "SQ1_HI",
            IoRegister::Sq2Vol => "SQ2_VOL",
            IoRegister::Sq2Sweep => "SQ2_SWEEP",
            IoRegister::Sq2Lo => "SQ2_LO",
            IoRegister::Sq2Hi => "SQ2_HI",
            IoRegister::TriLinear => "TRI_LINEAR",
            IoRegister::TriLo => "TRI_LO",
            IoRegister::TriHi => "TRI_HI",
            IoRegister::NoiseVol => "NOISE_VOL",
            IoRegister::NoiseLo => "NOISE_LO",
            IoRegister::NoiseHi => "NOISE_HI",
            IoRegister::DmcFreq => "DMC_FREQ",
            IoRegister::DmcRaw => "DMC_RAW",
            IoRegister::DmcStart => "DMC_START",
            IoRegister::DmcLen => "DMC_LEN",
            IoRegister::OamDma => "OAMDMA",
            IoRegister::SndChn => "SND_CHN",
            IoRegister::Joy1 => "JOY1",
            IoRegister::Joy2 => "JOY2",
        }
    }
}

} // verus!
