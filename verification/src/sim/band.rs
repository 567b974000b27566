use crate::scalar::Scalar;
use vstd::prelude::*;

verus! {

/// The bit patterns of the wavelengths, in nanometres, at which the bands of
/// visible light begin and end: 380, 440, 490, 510, 580, 645 and 750.
pub const NM_380: u64 = 0x4077_c000_0000_0000;

pub const NM_440: u64 = 0x407b_8000_0000_0000;

pub const NM_490: u64 = 0x407e_a000_0000_0000;

pub const NM_510: u64 = 0x407f_e000_0000_0000;

pub const NM_580: u64 = 0x4082_2000_0000_0000;

pub const NM_645: u64 = 0x4084_2800_0000_0000;

pub const NM_750: u64 = 0x4087_7000_0000_0000;

/// A band of visible light. Each has a colour ramp of its own.
#[derive(Clone, Copy, Debug, PartialEq, Eq, Structural)]
pub enum Band {
    /// Above 380 nm and below 440 nm.
    Violet,
    /// From 440 nm to 490 nm.
    Blue,
    /// From 490 nm to 510 nm.
    Cyan,
    /// From 510 nm to 580 nm.
    Green,
    /// From 580 nm to 645 nm.
    Orange,
    /// From 645 nm to 750 nm.
    Red,
}

impl Band {
    /// The wavelength at which the band begins. It belongs to the band,
    /// but for the first band: light of 380 nm is not visible.
    pub open spec fn lower(self) -> Scalar {
        match self {
            Band::Violet => Scalar { bits: NM_380 },
            Band::Blue => Scalar { bits: NM_440 },
            Band::Cyan => Scalar { bits: NM_490 },
            Band::Green => Scalar { bits: NM_510 },
            Band::Orange => Scalar { bits: NM_580 },
            Band::Red => Scalar { bits: NM_645 },
        }
    }

    /// The wavelength at which the band ends; it does not belong to the band.
    pub open spec fn upper(self) -> Scalar {
        match self {
            Band::Violet => Scalar { bits: NM_440 },
            Band::Blue => Scalar { bits: NM_490 },
            Band::Cyan => Scalar { bits: NM_510 },
            Band::Green => Scalar { bits: NM_580 },
            Band::Orange => Scalar { bits: NM_645 },
            Band::Red => Scalar { bits: NM_750 },
        }
    }

    /// The wavelength lies in the band.
    pub open spec fn holds(self, nm: Scalar) -> bool {
        if self == Band::Violet {
            self.lower().lt_spec(nm) && nm.lt_spec(self.upper())
        } else {
            self.lower().le_spec(nm) && nm.lt_spec(self.upper())
        }
    }

    /// The band in which a wavelength in nanometres lies, if it is visible.
    pub fn of(nm: Scalar) -> (band: Option<Band>)
        ensures
            match band {
                Some(b) => b.holds(nm),
                None => forall|b: Band| !b.holds(nm),
            },
    {
        if !Scalar::from_bits(NM_380).lt(nm) {
            None
        } else if nm.lt(Scalar::from_bits(NM_440)) {
            Some(Band::Violet)
        } else if nm.lt(Scalar::from_bits(NM_490)) {
            Some(Band::Blue)
        } else if nm.lt(Scalar::from_bits(NM_510)) {
            Some(Band::Cyan)
        } else if nm.lt(Scalar::from_bits(NM_580)) {
            Some(Band::Green)
        } else if nm.lt(Scalar::from_bits(NM_645)) {
            Some(Band::Orange)
        } else if nm.lt(Scalar::from_bits(NM_750)) {
            Some(Band::Red)
        } else {
            None
        }
    }
}

/// The bands lie side by side between 380 nm and 750 nm: a wavelength is in
/// one band if it is above 380 nm and below 750 nm, and in none if it is not.
pub proof fn law_bands_cover_the_visible(nm: Scalar)
    ensures
        (exists|b: Band| b.holds(nm)) <==> Band::Violet.lower().lt_spec(nm) && nm.lt_spec(
            Band::Red.upper(),
        ),
        forall|a: Band, b: Band| a.holds(nm) && b.holds(nm) ==> a == b,
{
    if Band::Violet.lower().lt_spec(nm) && nm.lt_spec(Band::Red.upper()) {
        if nm.lt_spec(Band::Violet.upper()) {
            assert(Band::Violet.holds(nm));
        } else if nm.lt_spec(Band::Blue.upper()) {
            assert(Band::Blue.holds(nm));
        } else if nm.lt_spec(Band::Cyan.upper()) {
            assert(Band::Cyan.holds(nm));
        } else if nm.lt_spec(Band::Green.upper()) {
            assert(Band::Green.holds(nm));
        } else if nm.lt_spec(Band::Orange.upper()) {
            assert(Band::Orange.holds(nm));
        } else {
            assert(Band::Red.holds(nm));
        }
    }
}

/// A wavelength at or below 380 nm, at or above 750 nm, or that is no number,
/// is in no band.
pub proof fn law_invisible_has_no_band(nm: Scalar)
    requires
        nm.le_spec(Band::Violet.lower()) || nm.ge_spec(Band::Red.upper()) || nm.nan(),
    ensures
        forall|b: Band| !b.holds(nm),
{
}

/// Each band ends where the next begins, and that wavelength belongs to the
/// next.
pub proof fn law_bands_meet()
    ensures
        Band::Violet.upper() == Band::Blue.lower() && Band::Blue.holds(Band::Blue.lower()),
        Band::Blue.upper() == Band::Cyan.lower() && Band::Cyan.holds(Band::Cyan.lower()),
        Band::Cyan.upper() == Band::Green.lower() && Band::Green.holds(Band::Green.lower()),
        Band::Green.upper() == Band::Orange.lower() && Band::Orange.holds(Band::Orange.lower()),
        Band::Orange.upper() == Band::Red.lower() && Band::Red.holds(Band::Red.lower()),
{
}

} // verus!
