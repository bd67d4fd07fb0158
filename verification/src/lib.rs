//! Width selection for integer literals.
//!
//! Given an integer value, the library picks the narrowest fixed-width
//! integer representation that can hold it without overflow.  Widths are
//! drawn from a ladder of five rungs (8, 16, 32, 64 and 128 bits), searched
//! from the smallest up, in one of three policies:
//!
//! - unsigned: the value is a non-negative magnitude in the full `u128`
//!   domain, matched against the unsigned ladder (`u8` .. `u128`);
//! - signed: the value lies in the full `i128` domain, matched against the
//!   two's-complement ranges of the signed ladder (`i8` .. `i128`);
//! - auto: a negative value is sized on the signed ladder, a non-negative
//!   one on the unsigned ladder, and the result carries a signedness tag.
//!
//! Each selector is total over its domain, deterministic, and returns the
//! minimal fitting rung; those facts are stated in the contracts and in the
//! public lemmas below.

use vstd::prelude::*;

verus! {

/// One rung of the width ladder: the five fixed bit widths.
#[derive(Clone, Copy, Debug, PartialEq, Eq, Structural)]
pub enum Width {
    W8,
    W16,
    W32,
    W64,
    W128,
}

/// Whether a selected representation is unsigned or signed.
#[derive(Clone, Copy, Debug, PartialEq, Eq, Structural)]
pub enum Signedness {
    Unsigned,
    Signed,
}

/// The result of auto-mode selection: a signedness tag and a bit width.
#[derive(Clone, Copy, Debug, PartialEq, Eq, Structural)]
pub struct WidthDescriptor {
    pub signedness: Signedness,
    pub width: Width,
}

/// The number of bits a rung stands for.
pub open spec fn width_bits(w: Width) -> int {
    match w {
        Width::W8 => 8,
        Width::W16 => 16,
        Width::W32 => 32,
        Width::W64 => 64,
        Width::W128 => 128,
    }
}

/// The largest magnitude an unsigned rung can hold: `2^w - 1`.
pub open spec fn rung_unsigned_max(w: Width) -> int {
    match w {
        Width::W8 => 0xff,
        Width::W16 => 0xffff,
        Width::W32 => 0xffff_ffff,
        Width::W64 => 0xffff_ffff_ffff_ffff,
        Width::W128 => 0xffff_ffff_ffff_ffff_ffff_ffff_ffff_ffff,
    }
}

/// The smallest value a signed rung can hold: `-2^(w-1)`.
pub open spec fn rung_signed_min(w: Width) -> int {
    match w {
        Width::W8 => -0x80,
        Width::W16 => -0x8000,
        Width::W32 => -0x8000_0000,
        Width::W64 => -0x8000_0000_0000_0000,
        Width::W128 => -0x8000_0000_0000_0000_0000_0000_0000_0000,
    }
}

/// The largest value a signed rung can hold: `2^(w-1) - 1`.
pub open spec fn rung_signed_max(w: Width) -> int {
    match w {
        Width::W8 => 0x7f,
        Width::W16 => 0x7fff,
        Width::W32 => 0x7fff_ffff,
        Width::W64 => 0x7fff_ffff_ffff_ffff,
        Width::W128 => 0x7fff_ffff_ffff_ffff_ffff_ffff_ffff_ffff,
    }
}

/// A magnitude fits an unsigned rung when it lies in `0 ..= 2^w - 1`.
pub open spec fn fits_unsigned(m: int, w: Width) -> bool {
    0 <= m <= rung_unsigned_max(w)
}

/// A value fits a signed rung when it lies in `-2^(w-1) ..= 2^(w-1) - 1`.
pub open spec fn fits_signed(v: int, w: Width) -> bool {
    rung_signed_min(w) <= v <= rung_signed_max(w)
}

/// The smallest unsigned rung that holds the magnitude `m`:
/// the ladder is searched from the narrowest rung up, and the widest
/// rung is the catch-all for the rest of the `u128` domain.
pub open spec fn unsigned_width_of(m: int) -> Width {
    if m <= 0xff {
        Width::W8
    } else if m <= 0xffff {
        Width::W16
    } else if m <= 0xffff_ffff {
        Width::W32
    } else if m <= 0xffff_ffff_ffff_ffff {
        Width::W64
    } else {
        Width::W128
    }
}

/// The smallest signed rung whose two's-complement range holds `v`.
/// At every rung the negative bound reaches one further from zero than
/// the positive bound; the ranges are deliberately asymmetric.
pub open spec fn signed_width_of(v: int) -> Width {
    if -0x80 <= v && v <= 0x7f {
        Width::W8
    } else if -0x8000 <= v && v <= 0x7fff {
        Width::W16
    } else if -0x8000_0000 <= v && v <= 0x7fff_ffff {
        Width::W32
    } else if -0x8000_0000_0000_0000 <= v && v <= 0x7fff_ffff_ffff_ffff {
        Width::W64
    } else {
        Width::W128
    }
}

/// Auto-mode selection: a negative value is sized on the signed ladder
/// and tagged `Signed`; a non-negative one is sized on the unsigned
/// ladder and tagged `Unsigned`.
pub open spec fn auto_descriptor_of(v: int) -> WidthDescriptor {
    if v < 0 {
        WidthDescriptor { signedness: Signedness::Signed, width: signed_width_of(v) }
    } else {
        WidthDescriptor { signedness: Signedness::Unsigned, width: unsigned_width_of(v) }
    }
}

impl Width {
    /// The number of bits of this rung, as an executable value.
    pub fn bits(&self) -> (b: u32)
        ensures
            b == width_bits(*self),
    {
        match self {
            Width::W8 => 8,
            Width::W16 => 16,
            Width::W32 => 32,
            Width::W64 => 64,
            Width::W128 => 128,
        }
    }
}

/// Selects the smallest unsigned rung that can represent `magnitude`.
/// Total over the full `u128` domain; the result is the minimal fitting
/// rung, so every strictly narrower rung is too small.
pub fn select_unsigned_width(magnitude: u128) -> (w: Width)
    ensures
        w == unsigned_width_of(magnitude as int),
        fits_unsigned(magnitude as int, w),
        forall|r: Width| fits_unsigned(magnitude as int, r) ==> width_bits(w) <= width_bits(r),
{
    proof {
        lemma_unsigned_width_minimal_all(magnitude as int);
    }
    if magnitude <= 0xff {
        Width::W8
    } else if magnitude <= 0xffff {
        Width::W16
    } else if magnitude <= 0xffff_ffff {
        Width::W32
    } else if magnitude <= 0xffff_ffff_ffff_ffff {
        Width::W64
    } else {
        Width::W128
    }
}

/// Selects the smallest signed rung whose two's-complement range can
/// represent `value`.  Total over the full `i128` domain; the result is
/// the minimal fitting rung.
pub fn select_signed_width(value: i128) -> (w: Width)
    ensures
        w == signed_width_of(value as int),
        fits_signed(value as int, w),
        forall|r: Width| fits_signed(value as int, r) ==> width_bits(w) <= width_bits(r),
{
    proof {
        lemma_signed_width_minimal_all(value as int);
    }
    if -0x80 <= value && value <= 0x7f {
        Width::W8
    } else if -0x8000 <= value && value <= 0x7fff {
        Width::W16
    } else if -0x8000_0000 <= value && value <= 0x7fff_ffff {
        Width::W32
    } else if -0x8000_0000_0000_0000 <= value && value <= 0x7fff_ffff_ffff_ffff {
        Width::W64
    } else {
        Width::W128
    }
}

/// Auto-mode selection over the full `i128` domain: a negative value is
/// sized on the signed ladder and tagged `Signed`, a non-negative one on
/// the unsigned ladder and tagged `Unsigned`.
pub fn select_auto_width(value: i128) -> (d: WidthDescriptor)
    ensures
        d == auto_descriptor_of(value as int),
        value < 0 ==> d.signedness == Signedness::Signed && d.width == signed_width_of(
            value as int,
        ),
        value >= 0 ==> d.signedness == Signedness::Unsigned && d.width == unsigned_width_of(
            value as int,
        ),
{
    if value < 0 {
        WidthDescriptor { signedness: Signedness::Signed, width: select_signed_width(value) }
    } else {
        WidthDescriptor {
            signedness: Signedness::Unsigned,
            width: select_unsigned_width(value as u128),
        }
    }
}

/// The selected unsigned rung really holds the magnitude: selection is
/// total over the `u128` domain and never fails.
pub proof fn lemma_unsigned_width_fits(m: int)
    requires
        0 <= m <= 0xffff_ffff_ffff_ffff_ffff_ffff_ffff_ffff,
    ensures
        fits_unsigned(m, unsigned_width_of(m)),
{
}

/// No unsigned rung narrower than the selected one holds the magnitude:
/// any rung that fits is at least as wide as the selected rung.
pub proof fn lemma_unsigned_width_minimal(m: int, w: Width)
    requires
        fits_unsigned(m, w),
    ensures
        width_bits(unsigned_width_of(m)) <= width_bits(w),
{
}

proof fn lemma_unsigned_width_minimal_all(m: int)
    ensures
        forall|r: Width| fits_unsigned(m, r) ==> width_bits(unsigned_width_of(m)) <= width_bits(r),
{
    assert forall|r: Width| fits_unsigned(m, r) implies width_bits(unsigned_width_of(m))
        <= width_bits(r) by {
        lemma_unsigned_width_minimal(m, r);
    }
}

/// The selected signed rung really holds the value: selection is total
/// over the `i128` domain and never fails.
pub proof fn lemma_signed_width_fits(v: int)
    requires
        -0x8000_0000_0000_0000_0000_0000_0000_0000 <= v
            <= 0x7fff_ffff_ffff_ffff_ffff_ffff_ffff_ffff,
    ensures
        fits_signed(v, signed_width_of(v)),
{
}

/// No signed rung narrower than the selected one holds the value.
pub proof fn lemma_signed_width_minimal(v: int, w: Width)
    requires
        fits_signed(v, w),
    ensures
        width_bits(signed_width_of(v)) <= width_bits(w),
{
}

proof fn lemma_signed_width_minimal_all(v: int)
    ensures
        forall|r: Width| fits_signed(v, r) ==> width_bits(signed_width_of(v)) <= width_bits(r),
{
    assert forall|r: Width| fits_signed(v, r) implies width_bits(signed_width_of(v))
        <= width_bits(r) by {
        lemma_signed_width_minimal(v, r);
    }
}

/// Band-by-band shape of unsigned selection: every magnitude up to 255
/// selects the 8-bit rung, every magnitude from 256 to 65535 the 16-bit
/// rung, and so on through each doubling boundary of the ladder.
pub proof fn lemma_unsigned_width_bands(m: int)
    ensures
        0 <= m <= 0xff ==> unsigned_width_of(m) == Width::W8,
        0x100 <= m <= 0xffff ==> unsigned_width_of(m) == Width::W16,
        0x1_0000 <= m <= 0xffff_ffff ==> unsigned_width_of(m) == Width::W32,
        0x1_0000_0000 <= m <= 0xffff_ffff_ffff_ffff ==> unsigned_width_of(m) == Width::W64,
        0x1_0000_0000_0000_0000 <= m ==> unsigned_width_of(m) == Width::W128,
{
}

/// Band-by-band shape of signed selection: every value in
/// `-128 ..= 127` selects the 8-bit rung, every value whose magnitude
/// first escapes that range the 16-bit rung, and so on.  At each rung the
/// negative bound reaches one further from zero than the positive bound.
pub proof fn lemma_signed_width_bands(v: int)
    ensures
        -0x80 <= v <= 0x7f ==> signed_width_of(v) == Width::W8,
        (-0x8000 <= v < -0x80 || 0x7f < v <= 0x7fff) ==> signed_width_of(v) == Width::W16,
        (-0x8000_0000 <= v < -0x8000 || 0x7fff < v <= 0x7fff_ffff) ==> signed_width_of(v)
            == Width::W32,
        (-0x8000_0000_0000_0000 <= v < -0x8000_0000 || 0x7fff_ffff < v <= 0x7fff_ffff_ffff_ffff)
            ==> signed_width_of(v) == Width::W64,
        (v < -0x8000_0000_0000_0000 || 0x7fff_ffff_ffff_ffff < v) ==> signed_width_of(v)
            == Width::W128,
{
}

/// Auto-mode sign dispatch: a negative value gets exactly the signed
/// selection tagged `Signed`, a non-negative one exactly the unsigned
/// selection tagged `Unsigned`.
pub proof fn lemma_auto_dispatch(v: int)
    ensures
        v < 0 ==> auto_descriptor_of(v) == (WidthDescriptor {
            signedness: Signedness::Signed,
            width: signed_width_of(v),
        }),
        v >= 0 ==> auto_descriptor_of(v) == (WidthDescriptor {
            signedness: Signedness::Unsigned,
            width: unsigned_width_of(v),
        }),
{
}

/// Selection is a pure function of the input: two descriptors selected
/// from the same value are the same descriptor.
pub proof fn lemma_auto_deterministic(v: int, d1: WidthDescriptor, d2: WidthDescriptor)
    requires
        d1 == auto_descriptor_of(v),
        d2 == auto_descriptor_of(v),
    ensures
        d1 == d2,
{
}

/// Unsigned selection is monotone: a larger magnitude never selects a
/// narrower rung.
pub proof fn lemma_unsigned_width_monotonic(m1: int, m2: int)
    requires
        0 <= m1 <= m2,
    ensures
        width_bits(unsigned_width_of(m1)) <= width_bits(unsigned_width_of(m2)),
{
}

/// Signed selection is monotone on each side of zero: among non-negative
/// values a larger value never selects a narrower rung, and among
/// non-positive values a smaller (more negative) value never selects a
/// narrower rung.  Across signs the width order follows magnitude, not
/// value order: `-200` needs 16 bits while `0` needs 8.
pub proof fn lemma_signed_width_monotonic(v1: int, v2: int)
    requires
        v1 <= v2,
    ensures
        0 <= v1 ==> width_bits(signed_width_of(v1)) <= width_bits(signed_width_of(v2)),
        v2 <= 0 ==> width_bits(signed_width_of(v2)) <= width_bits(signed_width_of(v1)),
{
}

} // verus!
