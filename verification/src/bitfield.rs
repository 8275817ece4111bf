//! Bit fields of 32-bit registers.
//!
//! A field is named by the width mask of its low bits and the position of
//! its lowest bit, as register data sheets give them. The arithmetic itself
//! is done by the `tock-registers` crate.

use tock_registers::fields::Field as RegField;
use tock_registers::fields::FieldValue as RegFieldValue;
use vstd::prelude::*;

verus! {

/// A section of a register: `mask` is the unshifted width mask, `shift` the
/// position of the field's lowest bit.
#[derive(Clone, Copy, Debug)]
pub struct Field {
    pub mask: u32,
    pub shift: u32,
}

/// A value for one or more fields, already moved to its place in the
/// register: `mask` covers the fields, `value` holds their bits.
#[derive(Clone, Copy, Debug)]
pub struct FieldValue {
    pub mask: u32,
    pub value: u32,
}

/// Builds a field value with `tock_registers::fields::FieldValue::<u32, ()>::new`
/// and hands back its mask and value. The source shifts the mask by `shift`
/// and the masked value by `shift`; a shift of 32 or more would overflow.
#[verifier::external_body]
fn reg_field_value(mask: u32, shift: u32, value: u32) -> (r: FieldValue)
    requires
        shift < 32,
    ensures
        r.mask == mask << shift,
        r.value == (value & mask) << shift,
{
    let fv = RegFieldValue::<u32, ()>::new(mask, shift as usize, value);
    FieldValue { mask: fv.mask(), value: fv.value }
}

/// Joins two field values with the `+` of
/// `tock_registers::fields::FieldValue`, which ors the two masks and the two
/// values. Each operand is rebuilt with a shift of zero, which keeps its mask
/// and the part of its value under that mask.
#[verifier::external_body]
fn reg_field_value_add(a: FieldValue, b: FieldValue) -> (r: FieldValue)
    ensures
        r.mask == a.mask | b.mask,
        r.value == (a.value & a.mask) | (b.value & b.mask),
{
    let fv = RegFieldValue::<u32, ()>::new(a.mask, 0, a.value)
        + RegFieldValue::<u32, ()>::new(b.mask, 0, b.value);
    FieldValue { mask: fv.mask(), value: fv.value }
}

/// Applies a field value to a register value with
/// `tock_registers::fields::FieldValue::modify`: the bits under the mask are
/// cleared, then the value is ored in. The operand is rebuilt with a shift of
/// zero, which keeps its mask and the part of its value under that mask.
#[verifier::external_body]
fn reg_field_value_modify(fv: FieldValue, reg: u32) -> (r: u32)
    ensures
        r == (reg & !fv.mask) | (fv.value & fv.mask),
{
    RegFieldValue::<u32, ()>::new(fv.mask, 0, fv.value).modify(reg)
}

/// Reads a field out of a register value with
/// `tock_registers::fields::Field::read`: the register is masked with the
/// shifted mask and moved down by `shift`.
#[verifier::external_body]
fn reg_field_read(mask: u32, shift: u32, reg: u32) -> (r: u32)
    requires
        shift < 32,
    ensures
        r == (reg & (mask << shift)) >> shift,
{
    RegField::<u32, ()>::new(mask, shift as usize).read(reg)
}

/// Tests a field with `tock_registers::fields::Field::is_set`: true when any
/// bit of the register under the shifted mask is one.
#[verifier::external_body]
fn reg_field_is_set(mask: u32, shift: u32, reg: u32) -> (r: bool)
    requires
        shift < 32,
    ensures
        r == (reg & (mask << shift) != 0),
{
    RegField::<u32, ()>::new(mask, shift as usize).is_set(reg)
}

impl Field {
    /// What `read` gives for a register value.
    pub open spec fn spec_read(self, reg: u32) -> u32 {
        (reg & (self.mask << self.shift)) >> self.shift
    }

    /// What `is_set` gives for a register value.
    pub open spec fn spec_is_set(self, reg: u32) -> bool {
        reg & (self.mask << self.shift) != 0
    }

    /// What `val` gives for a field value.
    pub open spec fn spec_val(self, value: u32) -> FieldValue {
        FieldValue { mask: self.mask << self.shift, value: (value & self.mask) << self.shift }
    }

    pub fn new(mask: u32, shift: u32) -> (r: Field)
        ensures
            r == (Field { mask, shift }),
    {
        Field { mask, shift }
    }

    /// The field's content in `reg`, moved down to bit 0.
    pub fn read(&self, reg: u32) -> (r: u32)
        requires
            self.shift < 32,
        ensures
            r == self.spec_read(reg),
    {
        reg_field_read(self.mask, self.shift, reg)
    }

    /// Whether any bit of the field is one in `reg`.
    pub fn is_set(&self, reg: u32) -> (r: bool)
        requires
            self.shift < 32,
        ensures
            r == self.spec_is_set(reg),
    {
        reg_field_is_set(self.mask, self.shift, reg)
    }

    /// The given value, cut to the field's width and moved to its place.
    pub fn val(&self, value: u32) -> (r: FieldValue)
        requires
            self.shift < 32,
        ensures
            r == self.spec_val(value),
            r.well_formed(),
    {
        let r = reg_field_value(self.mask, self.shift, value);
        proof {
            lemma_shifted_value_under_mask(self.mask, self.shift, value);
        }
        r
    }
}

impl FieldValue {
    /// The value has no bit outside the mask.
    pub open spec fn well_formed(self) -> bool {
        self.value & !self.mask == 0
    }

    /// Both field values together.
    pub open spec fn spec_add(self, other: FieldValue) -> FieldValue {
        FieldValue { mask: self.mask | other.mask, value: self.value | other.value }
    }

    /// `reg` with the fields under the mask replaced by the value.
    pub open spec fn spec_modify(self, reg: u32) -> u32 {
        (reg & !self.mask) | self.value
    }

    /// Joins two field values, as `+` does on the fields of one register.
    pub fn add(self, other: FieldValue) -> (r: FieldValue)
        requires
            self.well_formed(),
            other.well_formed(),
        ensures
            r == self.spec_add(other),
            r.well_formed(),
    {
        let r = reg_field_value_add(self, other);
        proof {
            lemma_add_well_formed(self.mask, self.value, other.mask, other.value);
        }
        r
    }

    /// Replaces the fields under the mask in `reg`, leaving every other bit.
    pub fn modify(self, reg: u32) -> (r: u32)
        requires
            self.well_formed(),
        ensures
            r == self.spec_modify(reg),
    {
        let r = reg_field_value_modify(self, reg);
        proof {
            lemma_value_under_mask(self.mask, self.value);
        }
        r
    }
}

/// Writing one into a one-bit field sets that bit and no other.
pub proof fn lemma_modify_sets_bit(reg: u32, shift: u32)
    by (bit_vector)
    requires
        shift < 32,
    ensures
        (reg & !(1u32 << shift)) | ((1u32 & 1u32) << shift) == reg | (1u32 << shift),
{
}

/// Writing zero into a one-bit field clears that bit and no other.
pub proof fn lemma_modify_clears_bit(reg: u32, shift: u32)
    by (bit_vector)
    requires
        shift < 32,
    ensures
        (reg & !(1u32 << shift)) | ((0u32 & 1u32) << shift) == reg & !(1u32 << shift),
{
}

/// A one in a one-bit field, at its place, is the bit itself.
pub proof fn lemma_one_bit_value(shift: u32)
    by (bit_vector)
    requires
        shift < 32,
    ensures
        (1u32 & 1u32) << shift == 1u32 << shift,
{
}

/// A one in a one-bit field at bit 0 is the number one.
pub proof fn lemma_bit_zero_value()
    by (bit_vector)
    ensures
        (1u32 & 1u32) << 0u32 == 1u32,
        1u32 << 0u32 == 1u32,
        0u32 | (1u32 << 0u32) == 1u32,
{
}

/// Setting bits that are set already changes nothing.
pub proof fn lemma_or_twice(reg: u32, bits: u32)
    by (bit_vector)
    ensures
        (reg | bits) | bits == reg | bits,
{
}

/// Two 32-bit words, the high one moved up by 32 bits and the low one
/// added, make the 64-bit number with these two halves.
pub proof fn lemma_join_words(l: u32, h: u32)
    by (bit_vector)
    ensures
        ((h as u64) << 32u64) + (l as u64) <= 0xffff_ffff_ffff_ffffu64,
        ((h as u64) << 32u64) + (l as u64) == h * 0x1_0000_0000 + l,
{
}

proof fn lemma_shifted_value_under_mask(mask: u32, shift: u32, value: u32)
    by (bit_vector)
    requires
        shift < 32,
    ensures
        ((value & mask) << shift) & !(mask << shift) == 0,
{
}

proof fn lemma_value_under_mask(mask: u32, value: u32)
    by (bit_vector)
    requires
        value & !mask == 0,
    ensures
        value & mask == value,
{
}

proof fn lemma_add_well_formed(m1: u32, v1: u32, m2: u32, v2: u32)
    by (bit_vector)
    requires
        v1 & !m1 == 0,
        v2 & !m2 == 0,
    ensures
        (v1 & m1) | (v2 & m2) == v1 | v2,
        (v1 | v2) & !(m1 | m2) == 0,
{
}

} // verus!
