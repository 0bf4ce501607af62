//! The closed slot taxonomy of the icon container, and the classifier that
//! maps a square pixel dimension and a density class to a slot.

use vstd::prelude::*;

verus! {

/// Pixel scaling of a candidate image: ordinary or double-density ("retina").
#[derive(Clone, Copy, Debug, PartialEq, Eq, Structural)]
pub enum DensityClass {
    Standard,
    Double,
}

/// One entry of the container's fixed taxonomy, named by point size and
/// density.  A `Std` slot holds as many pixels per edge as its point size; a
/// `Dbl` slot holds twice as many.
#[derive(Clone, Copy, Debug, PartialEq, Eq, Structural)]
pub enum IconSlot {
    Std16,
    Std18,
    Std24,
    Std32,
    Std48,
    Std64,
    Std128,
    Std256,
    Std512,
    Dbl16,
    Dbl18,
    Dbl24,
    Dbl32,
    Dbl128,
    Dbl256,
    Dbl512,
}

/// The classification table: which slot, if any, a square image of edge `d`
/// pixels and the given density occupies.
pub open spec fn slot_for(d: int, density: DensityClass) -> Option<IconSlot> {
    match density {
        DensityClass::Standard => {
            if d == 16 {
                Some(IconSlot::Std16)
            } else if d == 18 {
                Some(IconSlot::Std18)
            } else if d == 24 {
                Some(IconSlot::Std24)
            } else if d == 32 {
                Some(IconSlot::Std32)
            } else if d == 48 {
                Some(IconSlot::Std48)
            } else if d == 64 {
                Some(IconSlot::Std64)
            } else if d == 128 {
                Some(IconSlot::Std128)
            } else if d == 256 {
                Some(IconSlot::Std256)
            } else if d == 512 {
                Some(IconSlot::Std512)
            } else {
                None
            }
        },
        DensityClass::Double => {
            if d == 32 {
                Some(IconSlot::Dbl16)
            } else if d == 36 {
                Some(IconSlot::Dbl18)
            } else if d == 48 {
                Some(IconSlot::Dbl24)
            } else if d == 64 {
                Some(IconSlot::Dbl32)
            } else if d == 256 {
                Some(IconSlot::Dbl128)
            } else if d == 512 {
                Some(IconSlot::Dbl256)
            } else if d == 1024 {
                Some(IconSlot::Dbl512)
            } else {
                None
            }
        },
    }
}

/// Edge length, in pixels, of the square image a slot stores.
pub open spec fn slot_pixel_size(s: IconSlot) -> int {
    match s {
        IconSlot::Std16 => 16,
        IconSlot::Std18 => 18,
        IconSlot::Std24 => 24,
        IconSlot::Std32 => 32,
        IconSlot::Std48 => 48,
        IconSlot::Std64 => 64,
        IconSlot::Std128 => 128,
        IconSlot::Std256 => 256,
        IconSlot::Std512 => 512,
        IconSlot::Dbl16 => 32,
        IconSlot::Dbl18 => 36,
        IconSlot::Dbl24 => 48,
        IconSlot::Dbl32 => 64,
        IconSlot::Dbl128 => 256,
        IconSlot::Dbl256 => 512,
        IconSlot::Dbl512 => 1024,
    }
}

/// Density class of a slot.
pub open spec fn slot_density(s: IconSlot) -> DensityClass {
    match s {
        IconSlot::Std16
        | IconSlot::Std18
        | IconSlot::Std24
        | IconSlot::Std32
        | IconSlot::Std48
        | IconSlot::Std64
        | IconSlot::Std128
        | IconSlot::Std256
        | IconSlot::Std512 => DensityClass::Standard,
        _ => DensityClass::Double,
    }
}

/// Maps a square-cropped pixel dimension and a density class to the slot the
/// image occupies, or `None` when the taxonomy has no entry for that size: an
/// expected outcome that sends the image to the resampler, not an error.
pub fn classify(d: u32, density: DensityClass) -> (r: Option<IconSlot>)
    ensures
        r == slot_for(d as int, density),
{
    match density {
        DensityClass::Standard => match d {
            16u32 => Some(IconSlot::Std16),
            18u32 => Some(IconSlot::Std18),
            24u32 => Some(IconSlot::Std24),
            32u32 => Some(IconSlot::Std32),
            48u32 => Some(IconSlot::Std48),
            64u32 => Some(IconSlot::Std64),
            128u32 => Some(IconSlot::Std128),
            256u32 => Some(IconSlot::Std256),
            512u32 => Some(IconSlot::Std512),
            _ => None,
        },
        DensityClass::Double => match d {
            32u32 => Some(IconSlot::Dbl16),
            36u32 => Some(IconSlot::Dbl18),
            48u32 => Some(IconSlot::Dbl24),
            64u32 => Some(IconSlot::Dbl32),
            256u32 => Some(IconSlot::Dbl128),
            512u32 => Some(IconSlot::Dbl256),
            1024u32 => Some(IconSlot::Dbl512),
            _ => None,
        },
    }
}

/// Classification is a pure function of its two arguments: any two results
/// that `classify` can return for the same dimension and density are equal,
/// since each is pinned to the same table entry.
pub proof fn lemma_classify_deterministic(
    d: u32,
    density: DensityClass,
    r1: Option<IconSlot>,
    r2: Option<IconSlot>,
)
    requires
        r1 == slot_for(d as int, density),
        r2 == slot_for(d as int, density),
    ensures
        r1 == r2,
{
}

/// A classified image fits its slot exactly: the slot's pixel size is the
/// dimension that was classified, and its density is the one asked for.
pub proof fn lemma_slot_matches_query(d: int, density: DensityClass)
    requires
        slot_for(d, density) is Some,
    ensures
        slot_pixel_size(slot_for(d, density)->Some_0) == d,
        slot_density(slot_for(d, density)->Some_0) == density,
{
}

} // verus!
