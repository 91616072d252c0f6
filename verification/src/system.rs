//! Low-level system blocks: global register block, hibernate domain,
//! power-down domain, and the ROM function table.

#![allow(non_camel_case_types, clippy::upper_case_acronyms)]

/// Global register block
pub mod glb;
/// Hibernate domain
pub mod hbn;
/// Power-down domain
pub mod pds;
/// Vendor routines in ROM
pub mod romfunc;

use vstd::prelude::*;

verus! {

/// Status that the vendor's C routines, and the ROM routines with them,
/// report.
#[derive(Clone, Copy, Debug, PartialEq, Eq)]
pub enum BL_Err_Type {
    SUCCESS,
    ERROR,
    TIMEOUT,
    /// Invalid arguments
    INVALID,
    /// No resource, or resource temporarily unavailable
    NORESC,
}

impl BL_Err_Type {
    /// The number that stands for the status in the vendor's interface.
    pub open spec fn raw(self) -> u32 {
        match self {
            BL_Err_Type::SUCCESS => 0,
            BL_Err_Type::ERROR => 1,
            BL_Err_Type::TIMEOUT => 2,
            BL_Err_Type::INVALID => 3,
            BL_Err_Type::NORESC => 4,
        }
    }

    /// Reads a status that a vendor routine returned. `None` if the number
    /// stands for no status.
    pub fn from_raw(raw: u32) -> (status: Option<BL_Err_Type>)
        ensures
            match status {
                Some(s) => s.raw() == raw,
                None => raw > 4,
            },
    {
        if raw == 0 {
            Some(BL_Err_Type::SUCCESS)
        } else if raw == 1 {
            Some(BL_Err_Type::ERROR)
        } else if raw == 2 {
            Some(BL_Err_Type::TIMEOUT)
        } else if raw == 3 {
            Some(BL_Err_Type::INVALID)
        } else if raw == 4 {
            Some(BL_Err_Type::NORESC)
        } else {
            None
        }
    }
}

} // verus!
