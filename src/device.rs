//! The capability table of the supported headband variants.
use vstd::prelude::*;

verus! {

/// An exact non-negative rational number `num / den`.
#[derive(Clone, Copy, Debug, PartialEq, Eq, Structural)]
pub struct Fraction {
    pub num: i128,
    pub den: i128,
}

impl Fraction {
    /// A fraction is well formed when its denominator is positive.
    pub open spec fn wf(self) -> bool {
        self.den > 0
    }

    /// Two well-formed fractions denote the same rational number.
    pub open spec fn same_value(self, other: Fraction) -> bool {
        self.num * other.den == other.num * self.den
    }
}

/// How many bits each EEG sample of a variant carries.
#[derive(Clone, Copy, Debug, PartialEq, Eq, Structural)]
pub enum EegResolution {
    Bits12,
    Bits14,
}

impl EegResolution {
    pub open spec fn spec_scale_factor(self) -> Fraction {
        match self {
            EegResolution::Bits12 => Fraction { num: 125, den: 256 },
            EegResolution::Bits14 => Fraction { num: 125, den: 2048 },
        }
    }

    pub open spec fn spec_offset(self) -> i32 {
        match self {
            EegResolution::Bits12 => 0x800,
            EegResolution::Bits14 => 0x2000,
        }
    }

    /// Microvolts per count: a decoded sample `c` stands for `c * num / den` µV.
    pub fn scale_factor(&self) -> (r: Fraction)
        ensures
            r == self.spec_scale_factor(),
            r.wf(),
    {
        match self {
            EegResolution::Bits12 => Fraction { num: 125, den: 256 },
            EegResolution::Bits14 => Fraction { num: 125, den: 2048 },
        }
    }

    /// The raw count that stands for zero volts.
    pub fn offset(&self) -> (r: i32)
        ensures
            r == self.spec_offset(),
    {
        match self {
            EegResolution::Bits12 => 0x800,
            EegResolution::Bits14 => 0x2000,
        }
    }
}

/// The headband variants that the decoder knows.
#[derive(Clone, Copy, Debug, PartialEq, Eq, Structural)]
pub enum MuseModel {
    Muse2016,
    Muse2,
    MuseS,
    MuseSAthena,
    Unknown,
}

impl MuseModel {
    pub open spec fn spec_channel_count(self) -> nat {
        match self {
            MuseModel::Muse2016 => 4,
            MuseModel::Muse2 => 4,
            MuseModel::MuseS => 5,
            MuseModel::MuseSAthena => 7,
            MuseModel::Unknown => 4,
        }
    }

    pub open spec fn spec_resolution(self) -> EegResolution {
        match self {
            MuseModel::MuseSAthena => EegResolution::Bits14,
            _ => EegResolution::Bits12,
        }
    }

    pub open spec fn spec_has_ppg(self) -> bool {
        self is Muse2 || self is MuseS || self is MuseSAthena
    }

    pub open spec fn spec_has_fnirs(self) -> bool {
        self is MuseSAthena
    }

    pub open spec fn spec_ppg_channel_count(self) -> nat {
        match self {
            MuseModel::Muse2 | MuseModel::MuseS => 2,
            MuseModel::MuseSAthena => 3,
            _ => 0,
        }
    }

    /// Number of EEG electrodes.
    pub fn channel_count(&self) -> (r: usize)
        ensures
            r == self.spec_channel_count(),
            4 <= r <= 7,
    {
        match self {
            MuseModel::Muse2016 => 4,
            MuseModel::Muse2 => 4,
            MuseModel::MuseS => 5,
            MuseModel::MuseSAthena => 7,
            MuseModel::Unknown => 4,
        }
    }

    /// Bit width of the EEG samples.
    pub fn resolution(&self) -> (r: EegResolution)
        ensures
            r == self.spec_resolution(),
    {
        match self {
            MuseModel::MuseSAthena => EegResolution::Bits14,
            _ => EegResolution::Bits12,
        }
    }

    /// Whether the variant has an optical pulse sensor.
    pub fn has_ppg(&self) -> (r: bool)
        ensures
            r == self.spec_has_ppg(),
    {
        match self {
            MuseModel::Muse2 | MuseModel::MuseS | MuseModel::MuseSAthena => true,
            _ => false,
        }
    }

    /// Whether the variant has near-infrared channels.
    pub fn has_fnirs(&self) -> (r: bool)
        ensures
            r == self.spec_has_fnirs(),
    {
        match self {
            MuseModel::MuseSAthena => true,
            _ => false,
        }
    }

    /// Number of optical channels.
    pub fn ppg_channel_count(&self) -> (r: usize)
        ensures
            r == self.spec_ppg_channel_count(),
            r <= 3,
    {
        match self {
            MuseModel::Muse2 | MuseModel::MuseS => 2,
            MuseModel::MuseSAthena => 3,
            _ => 0,
        }
    }
}

/// What a frame was made from.
#[derive(Clone, Copy, Debug, PartialEq, Eq, Structural)]
pub enum MusePacketType {
    EegPpg,
    Imu,
    Eeg,
    Ppg,
    Accel,
    Gyro,
    Fnirs,
    Battery,
    NoData,
    Other,
}

} // verus!
