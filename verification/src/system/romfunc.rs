//! Vendor routines in ROM, reached through a table of function pointers at a
//! fixed address.
//!
//! The table is an array of pointer-sized slots. A routine is looked up by
//! its ordinal; what is stored in the slot is the address to call. The
//! signature under which a routine is called is an agreement with the
//! silicon that nothing here can check.

pub mod data;

use self::data::ROM_API_INDEX_e;
use self::data::ROMAPI_INDEX_MAX;
use self::data::ROM_APITABLE_ADDR;
use crate::hw::Action;
use vstd::prelude::*;

verus! {

/// Size of one slot of the table, in bytes.
pub const ROM_SLOT_SIZE: usize = 4;

/// The physical address of the slot of `func`.
pub open spec fn slot_address(func: ROM_API_INDEX_e) -> usize {
    (ROM_APITABLE_ADDR + ROM_SLOT_SIZE * func.ordinal()) as usize
}

/// The address of the table slot in which the entry point of `func` is
/// stored. Reading that slot gives the function pointer.
pub fn rom_fn_slot(func: ROM_API_INDEX_e) -> (addr: usize)
    ensures
        addr == slot_address(func),
        addr == ROM_APITABLE_ADDR + ROM_SLOT_SIZE * func.ordinal(),
        addr % ROM_SLOT_SIZE == 0,
{
    let i: usize = func.index();
    ROM_APITABLE_ADDR + ROM_SLOT_SIZE * i
}

/// The address of the table slot of ordinal `index`, if the table has such
/// a slot.
pub fn rom_slot(index: u32) -> (addr: Option<usize>)
    ensures
        addr is Some <==> index <= ROMAPI_INDEX_MAX,
        addr is Some ==> addr->Some_0 == ROM_APITABLE_ADDR + ROM_SLOT_SIZE * index,
{
    if index as usize <= ROMAPI_INDEX_MAX {
        Some(ROM_APITABLE_ADDR + ROM_SLOT_SIZE * (index as usize))
    } else {
        None
    }
}

/// How a routine is called: what it takes and what it gives. Calling a
/// routine in any other way is undefined.
#[derive(Clone, Copy, Debug, PartialEq, Eq)]
pub enum RomSignature {
    /// Takes nothing, gives a word.
    ToWord,
    /// Takes nothing, gives a byte.
    ToByte,
    /// Takes two words, gives a word.
    WordsToWord,
    /// Takes two bytes, gives a word.
    BytesToWord,
    /// Takes one word as wide as a pointer, gives one.
    SizeToSize,
}

/// The signature of each routine that this crate calls.
pub open spec fn signature_of(func: ROM_API_INDEX_e) -> Option<RomSignature> {
    match func {
        ROM_API_INDEX_e::ROM_API_INDEX_GLB_Get_Root_CLK_Sel => Some(RomSignature::ToWord),
        ROM_API_INDEX_e::ROM_API_INDEX_GLB_Get_HCLK_Div => Some(RomSignature::ToByte),
        ROM_API_INDEX_e::ROM_API_INDEX_GLB_Get_BCLK_Div => Some(RomSignature::ToByte),
        ROM_API_INDEX_e::ROM_API_INDEX_GLB_Set_System_CLK => Some(RomSignature::WordsToWord),
        ROM_API_INDEX_e::ROM_API_INDEX_GLB_Set_System_CLK_Div => Some(RomSignature::BytesToWord),
        ROM_API_INDEX_e::ROM_API_INDEX_PDS_Power_On_PLL => Some(RomSignature::SizeToSize),
        _ => None,
    }
}

/// The signature of the routine in the slot of ordinal `index`, if it is
/// one that this crate calls.
pub open spec fn signature_at(index: u32) -> Option<RomSignature> {
    if index == ROM_API_INDEX_e::ROM_API_INDEX_GLB_Get_Root_CLK_Sel.ordinal() {
        Some(RomSignature::ToWord)
    } else if index == ROM_API_INDEX_e::ROM_API_INDEX_GLB_Get_HCLK_Div.ordinal() {
        Some(RomSignature::ToByte)
    } else if index == ROM_API_INDEX_e::ROM_API_INDEX_GLB_Get_BCLK_Div.ordinal() {
        Some(RomSignature::ToByte)
    } else if index == ROM_API_INDEX_e::ROM_API_INDEX_GLB_Set_System_CLK.ordinal() {
        Some(RomSignature::WordsToWord)
    } else if index == ROM_API_INDEX_e::ROM_API_INDEX_GLB_Set_System_CLK_Div.ordinal() {
        Some(RomSignature::BytesToWord)
    } else if index == ROM_API_INDEX_e::ROM_API_INDEX_PDS_Power_On_PLL.ordinal() {
        Some(RomSignature::SizeToSize)
    } else {
        None
    }
}

/// Looking a signature up by ordinal gives the signature of the routine of
/// that name.
pub proof fn lemma_signature_by_name(func: ROM_API_INDEX_e)
    ensures
        signature_at(func.ordinal() as u32) == signature_of(func),
{
}

/// The signature under which the routine in the slot of ordinal `index` is
/// to be called: computes [`signature_at`]. A slot for which it gives
/// `None` must not be called.
pub fn rom_signature(index: u32) -> (signature: Option<RomSignature>)
    ensures
        signature == signature_at(index),
{
    if index == 20 {
        Some(RomSignature::ToWord)
    } else if index == 23 {
        Some(RomSignature::ToByte)
    } else if index == 22 {
        Some(RomSignature::ToByte)
    } else if index == 25 {
        Some(RomSignature::WordsToWord)
    } else if index == 21 {
        Some(RomSignature::BytesToWord)
    } else if index == 59 {
        Some(RomSignature::SizeToSize)
    } else {
        None
    }
}

/// The request to call `func` with the two arguments given.
pub fn rom_call(func: ROM_API_INDEX_e, arg0: u32, arg1: u32) -> (call: Action)
    ensures
        call == (Action::RomCall { index: func.ordinal() as u32, arg0, arg1 }),
{
    Action::RomCall { index: func.index() as u32, arg0, arg1 }
}

} // verus!
