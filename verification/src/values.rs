//! The two enumerated settings of the instrument and their wire codes.

use vstd::prelude::*;

verus! {

/// Weighting functions supported by the `NSRT_mk4`.
#[derive(Debug, Clone, Copy, PartialEq, Eq, Structural)]
pub enum Weighting {
    /// C-weighting (dB-C)
    C,
    /// A-weighting (dB-A)
    A,
    /// Z-weighting (dB-Z) - flat frequency response
    Z,
}

impl Weighting {
    /// The byte that stands for this weighting on the wire.
    pub open spec fn spec_code(self) -> u8 {
        match self {
            Weighting::C => 0,
            Weighting::A => 1,
            Weighting::Z => 2,
        }
    }

    /// The weighting that a wire byte stands for, if any.
    pub open spec fn spec_from_code(code: u8) -> Option<Weighting> {
        if code == 0 {
            Some(Weighting::C)
        } else if code == 1 {
            Some(Weighting::A)
        } else if code == 2 {
            Some(Weighting::Z)
        } else {
            None
        }
    }

    /// The byte that stands for this weighting on the wire.
    #[verifier::when_used_as_spec(spec_code)]
    pub fn code(self) -> (code: u8)
        ensures
            code == self.spec_code(),
    {
        match self {
            Weighting::C => 0,
            Weighting::A => 1,
            Weighting::Z => 2,
        }
    }

    /// The weighting that a wire byte stands for: 0, 1 and 2 are C, A and
    /// Z; no other byte is a weighting.
    pub fn from_code(code: u8) -> (weighting: Option<Weighting>)
        ensures
            weighting == Self::spec_from_code(code),
            weighting is Some <==> code <= 2,
            weighting matches Some(w) ==> w.spec_code() == code,
    {
        match code {
            0 => Some(Weighting::C),
            1 => Some(Weighting::A),
            2 => Some(Weighting::Z),
            _ => None,
        }
    }

    /// Every weighting is found again from its wire byte.
    pub proof fn code_round_trip(self)
        ensures
            Self::spec_from_code(self.spec_code()) == Some(self),
    {
    }

    /// A byte is a weighting's wire code exactly if it is 0, 1 or 2, and it
    /// is then the code of the weighting it stands for.
    pub proof fn from_code_is_exhaustive(code: u8)
        ensures
            Self::spec_from_code(code) is Some <==> code <= 2,
            Self::spec_from_code(code) matches Some(w) ==> w.spec_code() == code,
    {
    }
}

/// Sampling frequencies supported by the `NSRT_mk4`.
#[derive(Debug, Clone, Copy, PartialEq, Eq, Structural)]
pub enum SamplingFrequency {
    /// 32 kHz
    Freq32kHz,
    /// 48 kHz
    Freq48kHz,
}

impl SamplingFrequency {
    /// The frequency in hertz, which is also its value on the wire.
    pub open spec fn spec_hertz(self) -> u16 {
        match self {
            SamplingFrequency::Freq32kHz => 32000,
            SamplingFrequency::Freq48kHz => 48000,
        }
    }

    /// The sampling frequency of that many hertz, if the instrument has it.
    pub open spec fn spec_from_hertz(hertz: u16) -> Option<SamplingFrequency> {
        if hertz == 32000 {
            Some(SamplingFrequency::Freq32kHz)
        } else if hertz == 48000 {
            Some(SamplingFrequency::Freq48kHz)
        } else {
            None
        }
    }

    /// The frequency in hertz, which is also its value on the wire.
    #[verifier::when_used_as_spec(spec_hertz)]
    pub fn hertz(self) -> (hertz: u16)
        ensures
            hertz == self.spec_hertz(),
    {
        match self {
            SamplingFrequency::Freq32kHz => 32000,
            SamplingFrequency::Freq48kHz => 48000,
        }
    }

    /// The sampling frequency of that many hertz: 32000 and 48000 are the
    /// two the instrument has.
    pub fn from_hertz(hertz: u16) -> (frequency: Option<SamplingFrequency>)
        ensures
            frequency == Self::spec_from_hertz(hertz),
            frequency is Some <==> hertz == 32000 || hertz == 48000,
            frequency matches Some(f) ==> f.spec_hertz() == hertz,
    {
        match hertz {
            32000 => Some(SamplingFrequency::Freq32kHz),
            48000 => Some(SamplingFrequency::Freq48kHz),
            _ => None,
        }
    }

    /// Every sampling frequency is found again from its wire value.
    pub proof fn hertz_round_trip(self)
        ensures
            Self::spec_from_hertz(self.spec_hertz()) == Some(self),
    {
    }

    /// A wire value is a sampling frequency exactly if it is 32000 or 48000,
    /// and it is then the frequency's own number of hertz.
    pub proof fn from_hertz_is_exact(hertz: u16)
        ensures
            Self::spec_from_hertz(hertz) is Some <==> hertz == 32000 || hertz == 48000,
            Self::spec_from_hertz(hertz) matches Some(f) ==> f.spec_hertz() == hertz,
    {
    }
}

} // verus!
