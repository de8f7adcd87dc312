//! Packing and unpacking of unsigned bit fields inside a 64-bit word.

use vstd::prelude::*;

verus! {

/// An unsigned integer type that can hold the value of a bit field.
pub trait FieldValue: Sized {
    /// The largest value of the type.
    spec fn max_value() -> u64;

    /// The value as a 64-bit word.
    spec fn to_word(&self) -> u64;

    /// Narrows a word that fits the type.
    fn from_word(v: u64) -> (r: Self)
        requires
            v <= Self::max_value(),
        ensures
            r.to_word() == v,
    ;

    /// Widens the value to a word.
    fn into_word(self) -> (r: u64)
        ensures
            r == self.to_word(),
    ;
}

impl FieldValue for u8 {
    open spec fn max_value() -> u64 {
        0xff
    }

    open spec fn to_word(&self) -> u64 {
        *self as u64
    }

    fn from_word(v: u64) -> (r: u8) {
        v as u8
    }

    fn into_word(self) -> (r: u64) {
        self as u64
    }
}

impl FieldValue for u16 {
    open spec fn max_value() -> u64 {
        0xffff
    }

    open spec fn to_word(&self) -> u64 {
        *self as u64
    }

    fn from_word(v: u64) -> (r: u16) {
        v as u16
    }

    fn into_word(self) -> (r: u64) {
        self as u64
    }
}

impl FieldValue for u32 {
    open spec fn max_value() -> u64 {
        0xffff_ffff
    }

    open spec fn to_word(&self) -> u64 {
        *self as u64
    }

    fn from_word(v: u64) -> (r: u32) {
        v as u32
    }

    fn into_word(self) -> (r: u64) {
        self as u64
    }
}

impl FieldValue for u64 {
    open spec fn max_value() -> u64 {
        u64::MAX
    }

    open spec fn to_word(&self) -> u64 {
        *self
    }

    fn from_word(v: u64) -> (r: u64) {
        v
    }

    fn into_word(self) -> (r: u64) {
        self
    }
}

/// A window of `width` bits starting at bit `start` lies inside a 64-bit word.
pub open spec fn valid_window(start: u64, width: u64) -> bool {
    start < 64 && width > 0 && start + width <= 64
}

/// The word whose low `width` bits are set and whose other bits are clear.
pub open spec fn low_mask(width: u64) -> u64 {
    if width >= 64 {
        u64::MAX
    } else {
        ((1u64 << width) - 1) as u64
    }
}

/// The `width`-bit value stored at bit offset `start` of `word`.
pub open spec fn extract(word: u64, start: u64, width: u64) -> u64 {
    (word >> start) & low_mask(width)
}

/// `word` with its `width`-bit window at `start` replaced by the low
/// `width` bits of `value`.
pub open spec fn inject(word: u64, value: u64, start: u64, width: u64) -> u64 {
    (word & !(low_mask(width) << start)) | ((value & low_mask(width)) << start)
}

fn mask_of(width: u8) -> (r: u64)
    requires
        0 < width <= 64,
    ensures
        r == low_mask(width as u64),
{
    if width == 64 {
        u64::MAX
    } else {
        assert(width < 64 ==> (1u64 << width) >= 1) by (bit_vector);
        (1u64 << width) - 1
    }
}

/// Reads the `length`-bit field at bit `start` of `value` into a `T`.
pub fn get_bits<T: FieldValue>(value: u64, start: u8, length: u8) -> (r: T)
    requires
        valid_window(start as u64, length as u64),
        low_mask(length as u64) <= T::max_value(),
    ensures
        r.to_word() == extract(value, start as u64, length as u64),
{
    let mask = mask_of(length);
    let extracted = (value >> start) & mask;
    assert(((value >> start) & mask) <= mask) by (bit_vector);
    T::from_word(extracted)
}

/// Writes the low `length` bits of `data` into the field at bit `start` of
/// `value`; the other bits of `value` are kept.
pub fn set_bits<T: FieldValue>(value: u64, data: T, start: u8, length: u8) -> (r: u64)
    requires
        valid_window(start as u64, length as u64),
    ensures
        r == inject(value, data.to_word(), start as u64, length as u64),
{
    let data_word = data.into_word();
    let mask = mask_of(length);
    (value & !(mask << start)) | ((data_word & mask) << start)
}

/// Writing a field leaves every field that does not overlap it as it was.
pub proof fn lemma_field_isolation(
    word: u64,
    value: u64,
    start: u64,
    width: u64,
    other_start: u64,
    other_width: u64,
)
    requires
        valid_window(start, width),
        valid_window(other_start, other_width),
        start + width <= other_start || other_start + other_width <= start,
    ensures
        extract(inject(word, value, start, width), other_start, other_width)
            == extract(word, other_start, other_width),
{
    assert(extract(inject(word, value, start, width), other_start, other_width)
        == extract(word, other_start, other_width)) by (bit_vector)
        requires
            start < 64 && width > 0 && start + width <= 64,
            other_start < 64 && other_width > 0 && other_start + other_width <= 64,
            start + width <= other_start || other_start + other_width <= start,
    ;
}

/// Reading a field just written gives back the low bits of what was written.
pub proof fn lemma_read_after_write(word: u64, value: u64, start: u64, width: u64)
    requires
        valid_window(start, width),
    ensures
        extract(inject(word, value, start, width), start, width) == value & low_mask(width),
{
    assert(extract(inject(word, value, start, width), start, width) == value & low_mask(width))
        by (bit_vector)
        requires
            start < 64 && width > 0 && start + width <= 64,
    ;
}

} // verus!
