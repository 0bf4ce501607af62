//! The icon family: accumulation of classified bitmaps, one per slot, and the
//! serialization of the container through the icns crate.

use vstd::prelude::*;
use crate::classify::{DensityClass, IconSlot, slot_for};
use crate::raster::{PixelFormat, RasterImage};

verus! {

#[verifier::external_type_specification]
#[verifier::external_body]
pub struct ExIconFamily(icns::IconFamily);

/// Name for what a family holds: the slot, pixel format and pixel bytes of
/// each icon that was encoded into it, in insertion order.
pub uninterp spec fn family_entries(f: icns::IconFamily) -> Seq<(IconSlot, PixelFormat, Seq<u8>)>;

/// Name for the byte sequence that `icns::IconFamily::write` emits: the
/// encoded elements are fixed by what was inserted and write runs over them
/// in insertion order, so the output is a function of the entries alone.
pub uninterp spec fn family_encoding(entries: Seq<(IconSlot, PixelFormat, Seq<u8>)>) -> Seq<u8>;

/// Relies on `icns::IconFamily::new`: a fresh family holds no icons.
#[verifier::external_body]
fn family_new() -> (r: icns::IconFamily)
    ensures
        family_entries(r) == Seq::<(IconSlot, PixelFormat, Seq<u8>)>::empty(),
{
    icns::IconFamily::new()
}

/// Relies on `icns::IconFamily::add_icon_with_type`, with
/// `icns::IconType::from_pixel_size_and_density` picking the slot's type for
/// the image's square size and density, and `icns::Image::from_data` carrying
/// the pixels over.  Under the preconditions the call cannot fail: the type
/// lookup succeeds because its size/density table has exactly the classified
/// entries; `from_data` accepts any buffer of exactly `width * height *
/// channels` bytes; and the encoders (run-length, packed-alpha, mask, and PNG
/// into an in-memory vector, all with valid dimensions and an exactly sized
/// buffer) have no reachable error path.  The slot's icon, and where the type
/// asks for one its mask, are appended to the family's elements.
#[verifier::external_body]
fn family_add(f: &mut icns::IconFamily, img: &RasterImage, density: DensityClass)
    requires
        img.wf(),
        img.width == img.height,
        slot_for(img.width as int, density) is Some,
    ensures
        family_entries(*final(f)) == family_entries(*old(f)).push(
            (slot_for(img.width as int, density)->Some_0, img.format, img.data@),
        ),
{
    let d: u32 = match density { DensityClass::Standard => 1, DensityClass::Double => 2 };
    let pf = match img.format {
        PixelFormat::Gray8 => icns::PixelFormat::Gray,
        PixelFormat::GrayAlpha8 => icns::PixelFormat::GrayAlpha,
        PixelFormat::Rgb8 => icns::PixelFormat::RGB,
        PixelFormat::Rgba8 => icns::PixelFormat::RGBA,
    };
    let t = icns::IconType::from_pixel_size_and_density(img.width, img.height, d).unwrap();
    let im = icns::Image::from_data(pf, img.width, img.height, img.data.clone()).unwrap();
    f.add_icon_with_type(&im, t).unwrap();
}

/// Relies on `icns::IconFamily::write`: it emits the four magic bytes
/// `i`, `c`, `n`, `s`, a big-endian total length, then the family's elements
/// in insertion order, and writing into a byte vector cannot fail.  (The
/// total length is summed in 32 bits, which would wrap on a family past
/// 4 GiB; a family of at most one icon per slot stays far below that.)
#[verifier::external_body]
fn family_write(f: &icns::IconFamily) -> (r: Vec<u8>)
    ensures
        r@ == family_encoding(family_entries(*f)),
        r@.len() >= 8,
        r@[0] == 105u8,
        r@[1] == 99u8,
        r@[2] == 110u8,
        r@[3] == 115u8,
{
    let mut out: Vec<u8> = Vec::new();
    f.write(&mut out).unwrap();
    out
}

/// Accumulates classified bitmaps into an icon family, one bitmap per slot,
/// and serializes the result.  The slots the family occupies are mirrored in
/// a verified list, so duplicate rejection never rests on the outside crate.
pub struct IconFamilyBuilder {
    family: icns::IconFamily,
    slots: Vec<IconSlot>,
    contents: Ghost<Map<IconSlot, Seq<u8>>>,
}

impl IconFamilyBuilder {
    /// What was inserted, in order: slot, pixel format and pixel bytes.
    pub closed spec fn entries(self) -> Seq<(IconSlot, PixelFormat, Seq<u8>)> {
        family_entries(self.family)
    }

    /// The slot list mirrors the family's entries one for one and holds no
    /// slot twice, and the recorded pixel bytes cover exactly the occupied
    /// slots, each with the bytes of its entry.
    pub closed spec fn wf(self) -> bool {
        &&& self.entries().len() == self.slots@.len()
        &&& forall|i: int| 0 <= i < self.slots@.len() ==> (#[trigger] self.entries()[i]).0 == self.slots@[i]
        &&& forall|i: int, j: int|
            0 <= i < j < self.slots@.len() ==> self.slots@[i] != self.slots@[j]
        &&& self.contents@.dom() == self.slots@.to_set()
        &&& forall|i: int|
            0 <= i < self.slots@.len() ==> self.contents@[self.slots@[i]] == (
            #[trigger] self.entries()[i]).2
    }

    /// The set of slots the family occupies.
    pub closed spec fn slot_set(self) -> Set<IconSlot> {
        self.slots@.to_set()
    }

    /// The bytes the container serializes to: a function of the entries, so
    /// equal insertion histories give equal output.
    pub closed spec fn encoding(self) -> Seq<u8> {
        family_encoding(self.entries())
    }

    /// The pixel bytes that were handed to the container, slot by slot.
    pub closed spec fn contents(self) -> Map<IconSlot, Seq<u8>> {
        self.contents@
    }

    /// A new, empty family.
    pub fn new() -> (r: IconFamilyBuilder)
        ensures
            r.wf(),
            r.slot_set() == Set::<IconSlot>::empty(),
            r.contents() == Map::<IconSlot, Seq<u8>>::empty(),
            r.entries() == Seq::<(IconSlot, PixelFormat, Seq<u8>)>::empty(),
    {
        let r = IconFamilyBuilder {
            family: family_new(),
            slots: Vec::new(),
            contents: Ghost(Map::empty()),
        };
        proof {
            assert(r.slots@.to_set() =~= Set::<IconSlot>::empty());
            assert(r.contents@.dom() =~= Set::<IconSlot>::empty());
        }
        r
    }

    /// Whether the family already holds an icon for `slot`.
    pub fn has_slot(&self, slot: IconSlot) -> (r: bool)
        ensures
            r == self.slot_set().contains(slot),
    {
        let mut i: usize = 0;
        while i < self.slots.len()
            invariant
                i <= self.slots@.len(),
                forall|k: int| 0 <= k < i ==> self.slots@[k] != slot,
            decreases self.slots@.len() - i,
        {
            if self.slots[i] == slot {
                assert(self.slots@.contains(slot));
                return true;
            }
            i += 1;
        }
        assert(!self.slots@.contains(slot));
        false
    }

    /// Whether the family holds no icon at all.
    pub fn is_empty(&self) -> (r: bool)
        ensures
            r == self.slot_set().is_empty(),
    {
        if self.slots.len() == 0 {
            proof {
                assert(self.slots@.to_set() =~= Set::<IconSlot>::empty());
            }
            true
        } else {
            proof {
                assert(self.slots@.contains(self.slots@[0]));
                assert(self.slots@.to_set().contains(self.slots@[0]));
            }
            false
        }
    }

    /// Encodes a square, classified bitmap into the family under its slot.
    /// The slot must still be free: the caller resolves duplicates, so that
    /// the first candidate for a slot is the one that stays.  Success is
    /// owed: under these preconditions the outside encoder cannot fail.
    pub fn add(&mut self, img: &RasterImage, density: DensityClass)
        requires
            old(self).wf(),
            img.wf(),
            img.width == img.height,
            slot_for(img.width as int, density) is Some,
            !old(self).slot_set().contains(slot_for(img.width as int, density)->Some_0),
        ensures
            final(self).wf(),
            final(self).slot_set() == old(self).slot_set().insert(
                slot_for(img.width as int, density)->Some_0,
            ),
            final(self).contents() == old(self).contents().insert(
                slot_for(img.width as int, density)->Some_0,
                img.data@,
            ),
            final(self).entries() == old(self).entries().push(
                (slot_for(img.width as int, density)->Some_0, img.format, img.data@),
            ),
    {
        let ghost slot = slot_for(img.width as int, density)->Some_0;
        family_add(&mut self.family, img, density);
        let s = crate::classify::classify(img.width, density).unwrap();
        proof {
            assert(!self.slots@.contains(slot));
        }
        self.slots.push(s);
        proof {
            self.contents@ = self.contents@.insert(slot, img.data@);
            old(self).slots@.lemma_push_to_set_commute(slot);
            assert(self.contents@.dom() =~= self.slots@.to_set());
        }
    }

    /// Serializes the family into the container's binary layout: the magic
    /// header, a length, then one encoded record per occupied slot.
    pub fn serialize(&self) -> (r: Vec<u8>)
        ensures
            r@ == self.encoding(),
            r@.len() >= 8,
            r@[0] == 105u8,
            r@[1] == 99u8,
            r@[2] == 110u8,
            r@[3] == 115u8,
    {
        family_write(&self.family)
    }
}

/// Serialization is deterministic: two families that received the same
/// insertions in the same order serialize to identical bytes.
pub proof fn lemma_serialization_deterministic(a: IconFamilyBuilder, b: IconFamilyBuilder)
    requires
        a.entries() == b.entries(),
    ensures
        a.encoding() == b.encoding(),
{
}

} // verus!
