//! Flash memory.

use crate::reg::Reg;
use vstd::prelude::*;

verus! {

/// Contents of the access-control register after a reset.
pub const ACR_RESET: u32 = 0;

/// The whole flash interface, as its owner hands it to the library.
pub struct FLASH {
    acr: u32,
}

impl FLASH {
    /// What the access-control register held when the peripheral was claimed.
    pub closed spec fn acr_image(&self) -> u32 {
        self.acr
    }

    /// The flash interface of a device whose access-control register reads
    /// `acr`. The caller answers for holding the one hardware peripheral.
    pub fn claim(acr: u32) -> (out: FLASH)
        ensures
            out.acr_image() == acr,
    {
        FLASH { acr }
    }

    /// The flash interface of a device that has just been reset.
    pub fn at_reset() -> (out: FLASH)
        ensures
            out.acr_image() == ACR_RESET,
    {
        FLASH { acr: ACR_RESET }
    }
}

/// Extension trait to constrain the FLASH peripheral.
pub trait FlashExt {
    /// Constrains the FLASH peripheral to play nicely with the other abstractions.
    fn constrain(self) -> Parts;
}

impl FlashExt for FLASH {
    fn constrain(self) -> (parts: Parts)
        ensures
            parts.acr@.bits() == self.acr_image(),
            parts.acr@.pending() == Seq::<u32>::empty(),
    {
        Parts {
            acr: ACR { reg: Reg::holding(self.acr) },
            cr: CR { _0: () },
            keyr: KEYR { _0: () },
            optcr: OPTCR { _0: () },
            optcr1: OPTCR1 { _0: () },
            optkeyr: OPTKEYR { _0: () },
            sr: SR { _0: () },
        }
    }
}

/// Constrained FLASH peripheral.
pub struct Parts {
    /// Access control register
    pub acr: ACR,
    /// Control register
    pub cr: CR,
    /// Flash key register
    pub keyr: KEYR,
    /// Flash option control register
    pub optcr: OPTCR,
    /// Flash option control register 1
    pub optcr1: OPTCR1,
    /// Flash option key register
    pub optkeyr: OPTKEYR,
    /// Status register
    pub sr: SR,
}

/// Capability for the access-control register.
pub struct ACR {
    reg: Reg,
}

impl View for ACR {
    type V = Reg;

    closed spec fn view(&self) -> Reg {
        self.reg
    }
}

impl ACR {
    /// The access-control register.
    pub fn acr(&self) -> (out: &Reg)
        ensures
            *out == self@,
    {
        &self.reg
    }

    /// Stores a word to the register.
    pub(crate) fn store(&mut self, value: u32)
        ensures
            final(self)@.stored(old(self)@, value),
    {
        self.reg.store(value);
    }

    /// Hands out the words that are owed to the hardware, oldest first.
    pub fn flush(&mut self) -> (out: Vec<u32>)
        ensures
            out@ == old(self)@.pending(),
            final(self)@.pending() == Seq::<u32>::empty(),
            final(self)@.bits() == old(self)@.bits(),
    {
        self.reg.flush()
    }
}

/// Capability for the control register.
pub struct CR {
    _0: (),
}

/// Capability for the key register.
pub struct KEYR {
    _0: (),
}

/// Capability for the option control register.
pub struct OPTCR {
    _0: (),
}

/// Capability for the option control register 1.
pub struct OPTCR1 {
    _0: (),
}

/// Capability for the option key register.
pub struct OPTKEYR {
    _0: (),
}

/// Capability for the status register.
pub struct SR {
    _0: (),
}

} // verus!
