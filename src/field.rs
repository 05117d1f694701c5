//! Bit-field arithmetic on 32-bit register words.

use vstd::prelude::*;

verus! {

/// The mask of a field `width` bits wide, at bit 0.
pub open spec fn mask(width: u32) -> u32 {
    (!0u32) >> ((32 - width) as u32)
}

/// A field `width` bits wide at bit `lo` fits in a word.
pub open spec fn fits(lo: u32, width: u32) -> bool {
    1 <= width && width <= 32 && lo + width <= 32
}

/// The value of the field `lo .. lo + width` of `word`.
pub open spec fn field_of(word: u32, lo: u32, width: u32) -> u32 {
    (word >> lo) & mask(width)
}

/// `word` with the field `lo .. lo + width` replaced by the low bits of `v`.
pub open spec fn with_field(word: u32, lo: u32, width: u32, v: u32) -> u32 {
    (word & !(mask(width) << lo)) | ((v & mask(width)) << lo)
}

/// The one-bit field value of a flag.
pub open spec fn bit(b: bool) -> u32 {
    if b { 1 } else { 0 }
}

/// The one-bit field value of a flag.
pub fn bit_of(b: bool) -> (r: u32)
    ensures
        r == bit(b),
{
    if b { 1 } else { 0 }
}

/// Reads the field `lo .. lo + width` of `word`.
pub fn get_field(word: u32, lo: u32, width: u32) -> (r: u32)
    requires
        fits(lo, width),
    ensures
        r == field_of(word, lo, width),
{
    (word >> lo) & ((!0u32) >> (32 - width))
}

/// Replaces the field `lo .. lo + width` of `word` by the low bits of `v`.
pub fn set_field(word: u32, lo: u32, width: u32, v: u32) -> (r: u32)
    requires
        fits(lo, width),
    ensures
        r == with_field(word, lo, width, v),
{
    let m = (!0u32) >> (32 - width);
    (word & !(m << lo)) | ((v & m) << lo)
}

/// The masks of the widths that the registers use.
pub proof fn lemma_masks()
    ensures
        mask(1) == 1,
        mask(2) == 3,
        mask(3) == 7,
        mask(4) == 15,
        mask(16) == 0xFFFF,
        mask(32) == 0xFFFF_FFFF,
{
    assert(mask(1) == 1 && mask(2) == 3 && mask(3) == 7 && mask(4) == 15) by (bit_vector);
    assert(mask(16) == 0xFFFF && mask(32) == 0xFFFF_FFFF) by (bit_vector);
}

/// Setting a field and reading it back gives the value set, for every value
/// that the field's width can hold.
pub proof fn lemma_round_trip(word: u32, lo: u32, width: u32, v: u32)
    requires
        fits(lo, width),
        v <= mask(width),
    ensures
        field_of(with_field(word, lo, width, v), lo, width) == v,
{
    assert(((((word & !(((!0u32) >> ((32 - width) as u32)) << lo)) | ((v & ((!0u32) >> ((32 - width) as u32))) << lo)) >> lo) & ((!0u32) >> ((32 - width) as u32))) == v) by (bit_vector)
        requires
            1 <= width && width <= 32 && lo + width <= 32,
            v <= (!0u32) >> ((32 - width) as u32),
    ;
}

} // verus!

verus! {

/// Setting a field leaves every field of the same word that does not overlap it
/// as it was.
pub proof fn lemma_isolation(word: u32, lo: u32, width: u32, v: u32, other_lo: u32, other_width: u32)
    requires
        fits(lo, width),
        fits(other_lo, other_width),
        lo + width <= other_lo || other_lo + other_width <= lo,
    ensures
        field_of(with_field(word, lo, width, v), other_lo, other_width) == field_of(word, other_lo, other_width),
{
    assert((((word & !(((!0u32) >> ((32 - width) as u32)) << lo)) | ((v & ((!0u32) >> ((32 - width) as u32))) << lo)) >> other_lo) & ((!0u32) >> ((32 - other_width) as u32))
        == (word >> other_lo) & ((!0u32) >> ((32 - other_width) as u32))) by (bit_vector)
        requires
            1 <= width && width <= 32 && lo + width <= 32,
            1 <= other_width && other_width <= 32 && other_lo + other_width <= 32,
            lo + width <= other_lo || other_lo + other_width <= lo,
    ;
}

/// In an array of `count` fields of `width` bits packed from bit 0, setting
/// the field at index `i` leaves the field at every other index `j` as it was.
pub proof fn lemma_array_independence(word: u32, width: u32, count: u32, i: u32, v: u32, j: u32)
    requires
        1 <= width,
        width * count <= 32,
        i < count,
        j < count,
        i != j,
    ensures
        field_of(with_field(word, (i * width) as u32, width, v), (j * width) as u32, width)
            == field_of(word, (j * width) as u32, width),
{
    assert(i * width + width <= j * width || j * width + width <= i * width) by (nonlinear_arith)
        requires
            i != j,
            1 <= width,
    ;
    assert(i * width + width <= count * width && j * width + width <= count * width) by (nonlinear_arith)
        requires
            i < count,
            j < count,
    ;
    lemma_isolation(word, (i * width) as u32, width, v, (j * width) as u32, width);
}

} // verus!
