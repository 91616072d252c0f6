//! Bit fields inside 32-bit register words.
//!
//! A field is named by the position of its lowest bit and its width. Reading a
//! field takes it out of a word as a number; writing a field replaces those
//! bits and leaves the rest of the word alone.

use vstd::prelude::*;

verus! {

/// A word whose lowest `width` bits are set and no others.
pub open spec fn low_mask(width: u32) -> u32
    recommends
        1 <= width <= 32,
{
    u32::MAX >> ((32 - width) as u32)
}

/// The bits of a word that the field at `lo` of `width` bits occupies.
pub open spec fn field_mask(lo: u32, width: u32) -> u32
    recommends
        1 <= width,
        lo + width <= 32,
{
    low_mask(width) << lo
}

/// The number `v`, cut to `width` bits and moved to the field's place.
pub open spec fn field_value(lo: u32, width: u32, v: u32) -> u32
    recommends
        1 <= width,
        lo + width <= 32,
{
    (v & low_mask(width)) << lo
}

/// The number held by the field at `lo` of `width` bits in `word`.
pub open spec fn extract(word: u32, lo: u32, width: u32) -> u32
    recommends
        1 <= width,
        lo + width <= 32,
{
    (word >> lo) & low_mask(width)
}

/// `word` with the field at `lo` of `width` bits replaced by `v`.
pub open spec fn insert(word: u32, lo: u32, width: u32, v: u32) -> u32
    recommends
        1 <= width,
        lo + width <= 32,
{
    (word & !field_mask(lo, width)) | field_value(lo, width, v)
}

/// Whether bit `n` of `word` is set.
pub open spec fn bit_is_set(word: u32, n: u32) -> bool
    recommends
        n < 32,
{
    extract(word, n, 1) != 0
}

/// The number a flag stands for in a one-bit field.
pub open spec fn flag(b: bool) -> u32 {
    if b {
        1
    } else {
        0
    }
}

/// Computes [`low_mask`].
pub fn mask_of(width: u32) -> (m: u32)
    requires
        1 <= width <= 32,
    ensures
        m == low_mask(width),
{
    u32::MAX >> (32 - width)
}

/// Computes [`field_mask`].
pub fn mask_at(lo: u32, width: u32) -> (m: u32)
    requires
        1 <= width,
        lo + width <= 32,
    ensures
        m == field_mask(lo, width),
{
    mask_of(width) << lo
}

/// Computes [`field_value`].
pub fn value_at(lo: u32, width: u32, v: u32) -> (r: u32)
    requires
        1 <= width,
        lo + width <= 32,
    ensures
        r == field_value(lo, width, v),
{
    (v & mask_of(width)) << lo
}

/// Reads a field: computes [`extract`].
pub fn get_field(word: u32, lo: u32, width: u32) -> (v: u32)
    requires
        1 <= width,
        lo + width <= 32,
    ensures
        v == extract(word, lo, width),
        v <= low_mask(width),
{
    let m: u32 = mask_of(width);
    let shifted: u32 = word >> lo;
    assert(shifted & m <= m) by (bit_vector);
    shifted & m
}

/// Writes a field: computes [`insert`].
pub fn set_field(word: u32, lo: u32, width: u32, v: u32) -> (r: u32)
    requires
        1 <= width,
        lo + width <= 32,
    ensures
        r == insert(word, lo, width, v),
{
    (word & !mask_at(lo, width)) | value_at(lo, width, v)
}

/// Reads one bit: computes [`bit_is_set`].
pub fn get_bit(word: u32, n: u32) -> (b: bool)
    requires
        n < 32,
    ensures
        b == bit_is_set(word, n),
{
    get_field(word, n, 1) != 0
}

/// Turns a flag into the number of a one-bit field.
pub fn flag_of(b: bool) -> (v: u32)
    ensures
        v == flag(b),
{
    if b {
        1
    } else {
        0
    }
}

/// A choice of fields of one register, with the number each is to hold.
///
/// `mask` covers the chosen fields; `value` holds their numbers in place and
/// zero elsewhere.
#[derive(Clone, Copy, Debug, PartialEq, Eq)]
pub struct Fields {
    pub mask: u32,
    pub value: u32,
}

/// No field chosen.
pub open spec fn no_fields() -> Fields {
    Fields { mask: 0, value: 0 }
}

/// The choice `f`, and the field at `lo` of `width` bits set to `v`.
pub open spec fn with_field(f: Fields, lo: u32, width: u32, v: u32) -> Fields
    recommends
        1 <= width,
        lo + width <= 32,
{
    Fields { mask: f.mask | field_mask(lo, width), value: insert(f.value, lo, width, v) }
}

/// The choice `f`, and bit `n` set or cleared.
pub open spec fn with_flag(f: Fields, n: u32, b: bool) -> Fields
    recommends
        n < 32,
{
    with_field(f, n, 1, flag(b))
}

impl Fields {
    /// Computes [`no_fields`].
    pub fn none() -> (f: Self)
        ensures
            f == no_fields(),
    {
        Fields { mask: 0, value: 0 }
    }

    /// Computes [`with_field`].
    pub fn with(self, lo: u32, width: u32, v: u32) -> (f: Self)
        requires
            1 <= width,
            lo + width <= 32,
        ensures
            f == with_field(self, lo, width, v),
    {
        Fields { mask: self.mask | mask_at(lo, width), value: set_field(self.value, lo, width, v) }
    }

    /// Computes [`with_flag`].
    pub fn with_bit(self, n: u32, b: bool) -> (f: Self)
        requires
            n < 32,
        ensures
            f == with_flag(self, n, b),
    {
        self.with(n, 1, flag_of(b))
    }
}

/// The word that a read-modify-write of the chosen fields leaves, given the
/// word that was there: the chosen fields hold their numbers, every other
/// bit is as before.
pub open spec fn applied(f: Fields, before: u32) -> u32 {
    (before & !f.mask) | (f.value & f.mask)
}

/// With no field chosen the word stays as it is.
pub proof fn lemma_applied_none(before: u32)
    ensures
        applied(no_fields(), before) == before,
{
    assert((before & !0u32) | (0u32 & 0u32) == before) by (bit_vector);
}

/// Choosing one field more and writing all at once comes to the same as
/// writing the others first and that field after them.
pub proof fn lemma_applied_with_field(f: Fields, lo: u32, width: u32, v: u32, before: u32)
    requires
        1 <= width,
        lo + width <= 32,
    ensures
        applied(with_field(f, lo, width, v), before) == insert(applied(f, before), lo, width, v),
{
    let m = low_mask(width);
    let fm = f.mask;
    let fv = f.value;
    assert((before & !(fm | (m << lo))) | (((fv & !(m << lo)) | ((v & m) << lo)) & (fm | (m << lo)))
        == (((before & !fm) | (fv & fm)) & !(m << lo)) | ((v & m) << lo)) by (bit_vector)
        requires
            1 <= width <= 32,
            lo + width <= 32,
            m == u32::MAX >> ((32 - width) as u32),
    ;
}

/// The field chosen last reads back as the number chosen for it, cut to
/// the field's width.
pub proof fn lemma_last_field_reads_back(f: Fields, lo: u32, width: u32, v: u32, before: u32)
    requires
        1 <= width,
        lo + width <= 32,
    ensures
        extract(applied(with_field(f, lo, width, v), before), lo, width) == v & low_mask(width),
{
    lemma_applied_with_field(f, lo, width, v, before);
    lemma_extract_insert(applied(f, before), lo, width, v);
}

/// A field that does not overlap the one chosen last reads as it would
/// without that choice.
pub proof fn lemma_other_field_unchanged(
    f: Fields,
    lo: u32,
    width: u32,
    v: u32,
    before: u32,
    other_lo: u32,
    other_width: u32,
)
    requires
        1 <= width,
        lo + width <= 32,
        1 <= other_width,
        other_lo + other_width <= 32,
        other_lo + other_width <= lo || lo + width <= other_lo,
    ensures
        extract(applied(with_field(f, lo, width, v), before), other_lo, other_width) == extract(
            applied(f, before),
            other_lo,
            other_width,
        ),
{
    lemma_applied_with_field(f, lo, width, v, before);
    lemma_insert_keeps_other(applied(f, before), lo, width, v, other_lo, other_width);
}

/// The widths of the narrow fields, as numbers.
pub proof fn lemma_low_masks()
    ensures
        low_mask(1) == 1,
        low_mask(2) == 3,
        low_mask(3) == 7,
        low_mask(4) == 15,
        low_mask(5) == 31,
        low_mask(8) == 255,
        low_mask(16) == 65535,
        low_mask(32) == u32::MAX,
{
    assert(u32::MAX >> 31u32 == 1) by (bit_vector);
    assert(u32::MAX >> 30u32 == 3) by (bit_vector);
    assert(u32::MAX >> 29u32 == 7) by (bit_vector);
    assert(u32::MAX >> 28u32 == 15) by (bit_vector);
    assert(u32::MAX >> 27u32 == 31) by (bit_vector);
    assert(u32::MAX >> 24u32 == 255) by (bit_vector);
    assert(u32::MAX >> 16u32 == 65535) by (bit_vector);
    assert(u32::MAX >> 0u32 == u32::MAX) by (bit_vector);
}

/// A field that was just written reads back as the number written, cut to the
/// field's width.
pub proof fn lemma_extract_insert(word: u32, lo: u32, width: u32, v: u32)
    requires
        1 <= width,
        lo + width <= 32,
    ensures
        extract(insert(word, lo, width, v), lo, width) == v & low_mask(width),
{
    let m = low_mask(width);
    assert((((word & !(m << lo)) | ((v & m) << lo)) >> lo) & m == v & m) by (bit_vector)
        requires
            1 <= width <= 32,
            lo + width <= 32,
            m == u32::MAX >> ((32 - width) as u32),
    ;
}

/// Writing one field leaves every field that does not overlap it unchanged.
pub proof fn lemma_insert_keeps_other(
    word: u32,
    lo: u32,
    width: u32,
    v: u32,
    other_lo: u32,
    other_width: u32,
)
    requires
        1 <= width,
        lo + width <= 32,
        1 <= other_width,
        other_lo + other_width <= 32,
        other_lo + other_width <= lo || lo + width <= other_lo,
    ensures
        extract(insert(word, lo, width, v), other_lo, other_width) == extract(
            word,
            other_lo,
            other_width,
        ),
{
    let m = low_mask(width);
    let om = low_mask(other_width);
    assert((((word & !(m << lo)) | ((v & m) << lo)) >> other_lo) & om == (word >> other_lo) & om)
        by (bit_vector)
        requires
            1 <= width <= 32,
            lo + width <= 32,
            1 <= other_width <= 32,
            other_lo + other_width <= 32,
            other_lo + other_width <= lo || lo + width <= other_lo,
            m == u32::MAX >> ((32 - width) as u32),
            om == u32::MAX >> ((32 - other_width) as u32),
    ;
}

/// A number that fits the field is not changed by cutting it to the width.
pub proof fn lemma_fits(v: u32, width: u32)
    requires
        1 <= width <= 32,
        v <= low_mask(width),
    ensures
        v & low_mask(width) == v,
{
    let m = low_mask(width);
    assert(v & m == v) by (bit_vector)
        requires
            1 <= width <= 32,
            m == u32::MAX >> ((32 - width) as u32),
            v <= m,
    ;
}

} // verus!
