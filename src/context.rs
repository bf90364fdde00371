//! Classification of the boot environment from the entry registers.

use vstd::prelude::*;

verus! {

/// Value of the second entry register that marks a Secure-EL1 dispatch.
pub const SECURE_EL1_MARKER: u64 = 0xF1F0;

/// The boot convention that brought the image into execution.
#[derive(PartialEq, Eq, Structural, Clone, Copy, Debug)]
pub enum RuntimeContext {
    BareMetalEL3,
    BaremetalEL2,
    BareMetalEL1,
    BaremetalSEL1,
    EFI,
}

/// The decision table, applied in order: EL3 first, then EL2 (EFI when both
/// of the first two registers are non-zero), then EL0/EL1 where the secure
/// marker takes priority over the EFI test.
pub open spec fn context_of(level: u8, x0: u64, x1: u64) -> RuntimeContext {
    if level == 3 {
        RuntimeContext::BareMetalEL3
    } else if level == 2 {
        if x1 != 0 && x0 != 0 {
            RuntimeContext::EFI
        } else {
            RuntimeContext::BaremetalEL2
        }
    } else if x1 == SECURE_EL1_MARKER {
        RuntimeContext::BaremetalSEL1
    } else if x1 != 0 && x0 != 0 {
        RuntimeContext::EFI
    } else {
        RuntimeContext::BareMetalEL1
    }
}

/// Exception level encoded in a raw `CurrentEL` register value (bits [3:2]).
pub open spec fn level_of(current_el: u64) -> u8 {
    ((current_el >> 2u64) & 3u64) as u8
}

/// Decodes the exception level from a raw `CurrentEL` register value.
pub fn decode_current_el(current_el: u64) -> (r: u8)
    ensures
        r == level_of(current_el),
        r <= 3,
{
    assert(((current_el >> 2u64) & 3u64) <= 3u64) by (bit_vector);
    ((current_el >> 2u64) & 3u64) as u8
}

impl RuntimeContext {
    /// Classifies the boot environment from the exception level and the first
    /// two entry registers.
    pub fn detect(level: u8, x0: u64, x1: u64) -> (r: RuntimeContext)
        ensures
            r == context_of(level, x0, x1),
    {
        if level == 3 {
            RuntimeContext::BareMetalEL3
        } else if level == 2 {
            if x1 != 0 && x0 != 0 {
                RuntimeContext::EFI
            } else {
                RuntimeContext::BaremetalEL2
            }
        } else if x1 == SECURE_EL1_MARKER {
            RuntimeContext::BaremetalSEL1
        } else if x1 != 0 && x0 != 0 {
            RuntimeContext::EFI
        } else {
            RuntimeContext::BareMetalEL1
        }
    }

    /// Every context but EFI enters with an image that still has its on-disk
    /// layout and must relocate itself before anything else.
    pub fn needs_self_relocation(&self) -> (r: bool)
        ensures
            r == (*self != RuntimeContext::EFI),
    {
        match self {
            RuntimeContext::EFI => false,
            _ => true,
        }
    }
}

} // verus!
