//! The per-candidate icon pipeline: classify each decoded bitmap, resample
//! once when its size has no slot, and collect the survivors into the family,
//! first candidate per slot winning.

use vstd::prelude::*;
use crate::classify::{DensityClass, IconSlot, slot_for};
use crate::family::IconFamilyBuilder;
use crate::raster::{PixelFormat, RasterImage, spec_min, spec_channels};
use crate::resample::{resample, pow2_floor, spec_pow2_floor, lanczos};

verus! {

/// Why a candidate could not be decoded into a bitmap.  Decoding happens at
/// the caller's edge; the pipeline records the failure and goes on.
#[derive(Clone, Copy, Debug, PartialEq, Eq, Structural)]
pub enum DecodeFailure {
    /// The file was unreadable or not a well-formed image.
    Unreadable,
    /// The image decoded, but to a channel depth or color model outside the
    /// four supported formats.
    UnsupportedFormat,
}

/// One candidate icon, as the caller hands it in: either a decoded bitmap
/// with its density class, or the reason decoding failed.
pub enum CandidateInput {
    Decoded { image: RasterImage, density: DensityClass },
    Undecodable { failure: DecodeFailure },
}

/// The tagged outcome the pipeline records for one candidate.  Skips are
/// per-candidate and never abort the run.
#[derive(Clone, Copy, Debug, PartialEq, Eq, Structural)]
pub enum CandidateOutcome {
    /// The candidate's bitmap now occupies this slot.
    Added(IconSlot),
    /// The candidate could not be read or decoded.
    SkippedUnreadable,
    /// The candidate decoded to an unsupported pixel format.
    SkippedUnsupportedFormat,
    /// Neither the candidate's size nor its power-of-two reduction has a
    /// slot: the candidate is dropped, with no further retry.
    SkippedNoUsableSize,
    /// An earlier candidate already won this slot.
    SkippedDuplicate(IconSlot),
}

/// Whether a candidate is well-formed input to the pipeline.
pub open spec fn input_wf(c: CandidateInput) -> bool {
    match c {
        CandidateInput::Decoded { image, density } => image.wf(),
        CandidateInput::Undecodable { failure } => true,
    }
}

/// The slot a decoded bitmap is destined for: its square-cropped dimension
/// directly if the taxonomy has it, else the power-of-two reduction — tried
/// once, and only when it actually shrinks the image.
pub open spec fn candidate_slot(w: int, h: int, density: DensityClass) -> Option<IconSlot> {
    let d = spec_min(w, h);
    match slot_for(d, density) {
        Some(s) => Some(s),
        None => {
            let t = spec_pow2_floor(d);
            if t == d {
                None
            } else {
                slot_for(t, density)
            }
        },
    }
}

/// The pixel bytes a decoded bitmap hands to the container when it is added:
/// its own buffer when it is already square at a classified size, else the
/// Lanczos output at the square size that classified.
pub open spec fn stored_data(image: RasterImage, density: DensityClass) -> Seq<u8> {
    let d = spec_min(image.width as int, image.height as int);
    if slot_for(d, density) is Some {
        if image.width == image.height {
            image.data@
        } else {
            lanczos(
                spec_channels(image.format),
                image.width as int,
                image.height as int,
                image.data@,
                d,
            )
        }
    } else {
        lanczos(
            spec_channels(image.format),
            image.width as int,
            image.height as int,
            image.data@,
            spec_pow2_floor(d),
        )
    }
}

/// The pixel bytes an input hands to the container when it is added.
pub open spec fn stored_of(c: CandidateInput) -> Seq<u8> {
    match c {
        CandidateInput::Decoded { image, density } => stored_data(image, density),
        CandidateInput::Undecodable { failure } => Seq::<u8>::empty(),
    }
}

/// The pixel format of an input's bitmap; immaterial for an undecodable
/// input, which never reaches the family.
pub open spec fn input_format(c: CandidateInput) -> PixelFormat {
    match c {
        CandidateInput::Decoded { image, density } => image.format,
        CandidateInput::Undecodable { failure } => PixelFormat::Gray8,
    }
}

/// The insertion history a run leaves in the family: for each added outcome,
/// in order, the slot it won, the candidate's pixel format, and the bytes it
/// handed over.
pub open spec fn expected_entries(
    ins: Seq<CandidateInput>,
    outs: Seq<CandidateOutcome>,
) -> Seq<(IconSlot, PixelFormat, Seq<u8>)>
    decreases outs.len(),
{
    if outs.len() == 0 || ins.len() != outs.len() {
        Seq::empty()
    } else {
        let pre = expected_entries(ins.drop_last(), outs.drop_last());
        match outs.last() {
            CandidateOutcome::Added(s) => pre.push(
                (s, input_format(ins.last()), stored_of(ins.last())),
            ),
            _ => pre,
        }
    }
}

/// The slot an input is destined for; an undecodable input has none.
pub open spec fn input_slot(c: CandidateInput) -> Option<IconSlot> {
    match c {
        CandidateInput::Decoded { image, density } => candidate_slot(
            image.width as int,
            image.height as int,
            density,
        ),
        CandidateInput::Undecodable { failure } => None,
    }
}

/// The outcomes an input can lawfully receive, before the order of the run is
/// taken into account.
pub open spec fn outcome_matches(c: CandidateInput, o: CandidateOutcome) -> bool {
    match c {
        CandidateInput::Undecodable { failure } => match failure {
            DecodeFailure::Unreadable => o == CandidateOutcome::SkippedUnreadable,
            DecodeFailure::UnsupportedFormat => o == CandidateOutcome::SkippedUnsupportedFormat,
        },
        CandidateInput::Decoded { image, density } => match candidate_slot(
            image.width as int,
            image.height as int,
            density,
        ) {
            Some(s) => o == CandidateOutcome::Added(s) || o == CandidateOutcome::SkippedDuplicate(
                s,
            ),
            None => o == CandidateOutcome::SkippedNoUsableSize,
        },
    }
}

/// Whether outcome `k` of the run added slot `s`.
pub open spec fn added_at(outs: Seq<CandidateOutcome>, k: int, s: IconSlot) -> bool {
    0 <= k < outs.len() && outs[k] == CandidateOutcome::Added(s)
}

/// The first-wins law at index `k`: a candidate destined for a slot that an
/// earlier candidate already won is skipped as a duplicate; one whose slot is
/// still free is added — success is owed, never optional.
pub open spec fn first_wins_at(
    ins: Seq<CandidateInput>,
    outs: Seq<CandidateOutcome>,
    k: int,
) -> bool {
    match input_slot(ins[k]) {
        Some(s) => {
            if exists|j: int| j < k && added_at(outs, j, s) {
                outs[k] == CandidateOutcome::SkippedDuplicate(s)
            } else {
                outs[k] == CandidateOutcome::Added(s)
            }
        },
        None => true,
    }
}

/// The data law at index `k`: when outcome `k` added a slot, the container
/// holds, for that slot, exactly the bytes that candidate `k` handed over.
pub open spec fn added_data_ok(
    ins: Seq<CandidateInput>,
    outs: Seq<CandidateOutcome>,
    contents: Map<IconSlot, Seq<u8>>,
    k: int,
) -> bool {
    outs[k] is Added ==> {
        let s = outs[k]->Added_0;
        contents.dom().contains(s) && contents[s] == stored_of(ins[k])
    }
}

/// Everything the pipeline guarantees of a finished run: one outcome per
/// input, each lawful for its input, first candidate per slot winning, the
/// family holding exactly the slots that were added, and each occupied slot
/// holding the bytes of the candidate that won it.
pub open spec fn report_ok(
    ins: Seq<CandidateInput>,
    outs: Seq<CandidateOutcome>,
    slots: Set<IconSlot>,
    contents: Map<IconSlot, Seq<u8>>,
) -> bool {
    &&& outs.len() == ins.len()
    &&& forall|k: int| 0 <= k < ins.len() ==> outcome_matches(#[trigger] ins[k], outs[k])
    &&& forall|k: int| 0 <= k < ins.len() ==> #[trigger] first_wins_at(ins, outs, k)
    &&& forall|s: IconSlot|
        #[trigger] slots.contains(s) <==> exists|k: int| added_at(outs, k, s)
    &&& forall|k: int| 0 <= k < ins.len() ==> #[trigger] added_data_ok(ins, outs, contents, k)
}

/// Runs one candidate through the pipeline: classify its square-cropped
/// dimension; on a miss, resample to the floor power of two and classify
/// exactly once more; insert into the family only when the slot is free.
pub fn process_candidate(
    b: &mut IconFamilyBuilder,
    img: &RasterImage,
    density: DensityClass,
) -> (r: CandidateOutcome)
    requires
        old(b).wf(),
        img.wf(),
    ensures
        final(b).wf(),
        ({
            let c = candidate_slot(img.width as int, img.height as int, density);
            match c {
                Some(s) => {
                    if old(b).slot_set().contains(s) {
                        &&& r == CandidateOutcome::SkippedDuplicate(s)
                        &&& *final(b) == *old(b)
                    } else {
                        &&& r == CandidateOutcome::Added(s)
                        &&& final(b).slot_set() == old(b).slot_set().insert(s)
                        &&& final(b).contents() == old(b).contents().insert(
                            s,
                            stored_data(*img, density),
                        )
                        &&& final(b).entries() == old(b).entries().push(
                            (s, img.format, stored_data(*img, density)),
                        )
                    }
                },
                None => {
                    &&& r == CandidateOutcome::SkippedNoUsableSize
                    &&& *final(b) == *old(b)
                },
            }
        }),
{
    let d = img.square_dim();
    match crate::classify::classify(d, density) {
        Some(slot) => {
            if b.has_slot(slot) {
                CandidateOutcome::SkippedDuplicate(slot)
            } else if img.width == img.height {
                b.add(img, density);
                CandidateOutcome::Added(slot)
            } else {
                let square = resample(img, d);
                b.add(&square, density);
                CandidateOutcome::Added(slot)
            }
        },
        None => {
            let t = pow2_floor(d);
            if t == d {
                CandidateOutcome::SkippedNoUsableSize
            } else {
                match crate::classify::classify(t, density) {
                    Some(slot) => {
                        if b.has_slot(slot) {
                            CandidateOutcome::SkippedDuplicate(slot)
                        } else {
                            let small = resample(img, t);
                            b.add(&small, density);
                            CandidateOutcome::Added(slot)
                        }
                    },
                    None => CandidateOutcome::SkippedNoUsableSize,
                }
            }
        },
    }
}

/// Runs every candidate through the pipeline in order and returns the family
/// beside the per-candidate report.
pub fn build_family(inputs: &Vec<CandidateInput>) -> (r: (IconFamilyBuilder, Vec<
    CandidateOutcome,
>))
    requires
        forall|k: int| 0 <= k < inputs@.len() ==> input_wf(#[trigger] inputs@[k]),
    ensures
        r.0.wf(),
        report_ok(inputs@, r.1@, r.0.slot_set(), r.0.contents()),
        r.0.entries() == expected_entries(inputs@, r.1@),
{
    let mut b = IconFamilyBuilder::new();
    let mut outs: Vec<CandidateOutcome> = Vec::new();
    let mut i: usize = 0;
    while i < inputs.len()
        invariant
            b.wf(),
            i <= inputs@.len(),
            outs@.len() == i,
            forall|k: int| 0 <= k < inputs@.len() ==> input_wf(#[trigger] inputs@[k]),
            forall|k: int| 0 <= k < i ==> outcome_matches(#[trigger] inputs@[k], outs@[k]),
            forall|k: int| 0 <= k < i ==> #[trigger] first_wins_at(inputs@, outs@, k),
            forall|s: IconSlot|
                #[trigger] b.slot_set().contains(s) <==> exists|k: int| added_at(outs@, k, s),
            forall|k: int|
                0 <= k < i ==> #[trigger] added_data_ok(inputs@, outs@, b.contents(), k),
            b.entries() == expected_entries(inputs@.take(i as int), outs@),
        decreases inputs@.len() - i,
    {
        let ghost outs_before = outs@;
        let ghost slots_before = b.slot_set();
        let ghost contents_before = b.contents();
        let ghost entries_before = b.entries();
        let o = match &inputs[i] {
            CandidateInput::Decoded { image, density } => process_candidate(&mut b, image, *density),
            CandidateInput::Undecodable { failure } => match failure {
                DecodeFailure::Unreadable => CandidateOutcome::SkippedUnreadable,
                DecodeFailure::UnsupportedFormat => CandidateOutcome::SkippedUnsupportedFormat,
            },
        };
        outs.push(o);
        proof {
            assert forall|k: int| 0 <= k < i + 1 implies #[trigger] first_wins_at(
                inputs@,
                outs@,
                k,
            ) by {
                assert(forall|j: int, s: IconSlot|
                    added_at(outs_before, j, s) ==> added_at(outs@, j, s));
                assert(forall|j: int, s: IconSlot|
                    j < k && added_at(outs@, j, s) && k <= i ==> added_at(outs_before, j, s));
                if k < i {
                    assert(first_wins_at(inputs@, outs_before, k));
                    assert(outs@[k] == outs_before[k]);
                    match input_slot(inputs@[k]) {
                        Some(s) => {
                            if exists|j: int| j < k && added_at(outs_before, j, s) {
                                let j = choose|j: int| j < k && added_at(outs_before, j, s);
                                assert(j < k && added_at(outs@, j, s));
                            } else {
                                assert(!(exists|j: int| j < k && added_at(outs@, j, s))) by {
                                    if exists|j: int| j < k && added_at(outs@, j, s) {
                                        let j = choose|j: int| j < k && added_at(outs@, j, s);
                                        assert(added_at(outs_before, j, s));
                                    }
                                }
                            }
                        },
                        None => {},
                    }
                    assert(first_wins_at(inputs@, outs@, k));
                } else {
                    assert(k == i);
                    match input_slot(inputs@[i as int]) {
                        Some(s) => {
                            if slots_before.contains(s) {
                                let j = choose|j: int| added_at(outs_before, j, s);
                                assert(j < k && added_at(outs@, j, s));
                                assert(outs@[k] == CandidateOutcome::SkippedDuplicate(s));
                            } else {
                                assert(!(exists|j: int| j < k && added_at(outs@, j, s))) by {
                                    if exists|j: int| j < k && added_at(outs@, j, s) {
                                        let j = choose|j: int| j < k && added_at(outs@, j, s);
                                        assert(added_at(outs_before, j, s));
                                        assert(slots_before.contains(s));
                                    }
                                }
                                assert(outs@[k] == CandidateOutcome::Added(s));
                            }
                        },
                        None => {},
                    }
                    assert(first_wins_at(inputs@, outs@, k));
                }
            }
            assert forall|s: IconSlot| #[trigger]
                b.slot_set().contains(s) <==> exists|k: int| added_at(outs@, k, s) by {
                if b.slot_set().contains(s) {
                    if slots_before.contains(s) {
                        let j = choose|j: int| added_at(outs_before, j, s);
                        assert(added_at(outs@, j, s));
                    } else {
                        assert(outs@[i as int] == CandidateOutcome::Added(s));
                        assert(added_at(outs@, i as int, s));
                    }
                }
                if exists|k: int| added_at(outs@, k, s) {
                    let k = choose|k: int| added_at(outs@, k, s);
                    if k < i {
                        assert(added_at(outs_before, k, s));
                    } else {
                        assert(o == CandidateOutcome::Added(s));
                    }
                }
            }
            assert forall|k: int| 0 <= k < i + 1 implies #[trigger] added_data_ok(
                inputs@,
                outs@,
                b.contents(),
                k,
            ) by {
                if k < i {
                    assert(added_data_ok(inputs@, outs_before, contents_before, k));
                    if outs@[k] is Added {
                        let s2 = outs@[k]->Added_0;
                        assert(added_at(outs_before, k, s2));
                        assert(slots_before.contains(s2));
                        if o is Added {
                            let s = o->Added_0;
                            assert(!slots_before.contains(s));
                            assert(s2 != s);
                        }
                    }
                } else {
                    if outs@[k] is Added {
                        let s = outs@[k]->Added_0;
                        assert(o == CandidateOutcome::Added(s));
                        assert(b.contents() == contents_before.insert(
                            s,
                            stored_of(inputs@[k]),
                        ));
                    }
                }
            }
            let ghost pre1 = inputs@.take(i as int);
            let ghost pre2 = inputs@.take(i + 1);
            assert(pre2.drop_last() =~= pre1);
            assert(outs@.drop_last() =~= outs_before);
            assert(pre2.last() == inputs@[i as int]);
            assert(outs@.last() == o);
            match o {
                CandidateOutcome::Added(s) => {
                    assert(expected_entries(pre2, outs@) == expected_entries(
                        pre1,
                        outs_before,
                    ).push((s, input_format(inputs@[i as int]), stored_of(inputs@[i as int]))));
                    assert(b.entries() == entries_before.push(
                        (s, input_format(inputs@[i as int]), stored_of(inputs@[i as int])),
                    ));
                },
                _ => {
                    assert(expected_entries(pre2, outs@) == expected_entries(pre1, outs_before));
                    assert(b.entries() == entries_before);
                },
            }
        }
        i += 1;
    }
    proof {
        assert(inputs@.take(inputs@.len() as int) =~= inputs@);
    }
    (b, outs)
}

/// How icon synthesis ended for a bundle.  An empty family is a distinct,
/// reported outcome, never a degenerate container file.
pub enum SynthesisOutcome {
    /// No candidates were given: the bundle simply has no icon.
    NoCandidates,
    /// Candidates were given, but every one was skipped: reported, and the
    /// bundle goes on without an icon.
    NoUsableIcons,
    /// At least one candidate survived: the serialized container.
    Container(Vec<u8>),
}

/// Closes a pipeline run: with no candidates there is no icon; with
/// candidates but an empty family the run is reported unusable; otherwise the
/// family is serialized into the container's binary layout.
pub fn finish_synthesis(b: &IconFamilyBuilder, candidate_count: usize) -> (r: SynthesisOutcome)
    requires
        b.wf(),
    ensures
        candidate_count == 0 ==> r == SynthesisOutcome::NoCandidates,
        candidate_count > 0 && b.slot_set().is_empty() ==> r == SynthesisOutcome::NoUsableIcons,
        candidate_count > 0 && !b.slot_set().is_empty() ==> r is Container
            && r->Container_0@ == b.encoding(),
{
    if candidate_count == 0 {
        SynthesisOutcome::NoCandidates
    } else if b.is_empty() {
        SynthesisOutcome::NoUsableIcons
    } else {
        SynthesisOutcome::Container(b.serialize())
    }
}

/// Given the lawfulness of a finished run, the duplicate-slot policy: when an
/// earlier candidate won a slot, every later candidate destined for the same
/// slot is skipped as a duplicate, and the family holds the slot — so it
/// holds exactly one entry for it, the earlier candidate's.
pub proof fn lemma_first_candidate_wins(
    ins: Seq<CandidateInput>,
    outs: Seq<CandidateOutcome>,
    slots: Set<IconSlot>,
    contents: Map<IconSlot, Seq<u8>>,
    i: int,
    j: int,
    s: IconSlot,
)
    requires
        report_ok(ins, outs, slots, contents),
        0 <= i < j < ins.len(),
        outs[i] == CandidateOutcome::Added(s),
        input_slot(ins[j]) == Some(s),
    ensures
        outs[j] == CandidateOutcome::SkippedDuplicate(s),
        slots.contains(s),
        contents[s] == stored_of(ins[i]),
{
    assert(added_at(outs, i, s));
    assert(first_wins_at(ins, outs, j));
    assert(added_data_ok(ins, outs, contents, i));
}

/// Two lawful outcome vectors for the same inputs agree on every index below
/// `k`: each outcome is forced by the input and the agreed prefix.
proof fn lemma_outcomes_unique_prefix(
    ins: Seq<CandidateInput>,
    outs1: Seq<CandidateOutcome>,
    slots1: Set<IconSlot>,
    c1: Map<IconSlot, Seq<u8>>,
    outs2: Seq<CandidateOutcome>,
    slots2: Set<IconSlot>,
    c2: Map<IconSlot, Seq<u8>>,
    k: int,
)
    requires
        report_ok(ins, outs1, slots1, c1),
        report_ok(ins, outs2, slots2, c2),
        0 <= k <= ins.len(),
    ensures
        forall|j: int| 0 <= j < k ==> outs1[j] == outs2[j],
    decreases k,
{
    if k > 0 {
        lemma_outcomes_unique_prefix(ins, outs1, slots1, c1, outs2, slots2, c2, k - 1);
        let j = k - 1;
        assert(outcome_matches(ins[j], outs1[j]));
        assert(outcome_matches(ins[j], outs2[j]));
        assert(first_wins_at(ins, outs1, j));
        assert(first_wins_at(ins, outs2, j));
        match input_slot(ins[j]) {
            Some(s) => {
                if exists|m: int| m < j && added_at(outs1, m, s) {
                    let m = choose|m: int| m < j && added_at(outs1, m, s);
                    assert(added_at(outs2, m, s));
                } else {
                    assert(!(exists|m: int| m < j && added_at(outs2, m, s))) by {
                        if exists|m: int| m < j && added_at(outs2, m, s) {
                            let m = choose|m: int| m < j && added_at(outs2, m, s);
                            assert(added_at(outs1, m, s));
                        }
                    }
                }
            },
            None => {},
        }
        assert(outs1[j] == outs2[j]);
    }
}

/// The pipeline is deterministic: two lawful runs over the same inputs, in
/// the same order, produce the same outcomes, occupy the same slots, leave
/// the same insertion history, and — since serialization is a function of
/// that history — byte-identical containers.
pub proof fn lemma_pipeline_deterministic(
    ins: Seq<CandidateInput>,
    b1: IconFamilyBuilder,
    outs1: Seq<CandidateOutcome>,
    b2: IconFamilyBuilder,
    outs2: Seq<CandidateOutcome>,
)
    requires
        report_ok(ins, outs1, b1.slot_set(), b1.contents()),
        b1.entries() == expected_entries(ins, outs1),
        report_ok(ins, outs2, b2.slot_set(), b2.contents()),
        b2.entries() == expected_entries(ins, outs2),
    ensures
        outs1 == outs2,
        b1.slot_set() == b2.slot_set(),
        b1.encoding() == b2.encoding(),
{
    lemma_outcomes_unique_prefix(
        ins,
        outs1,
        b1.slot_set(),
        b1.contents(),
        outs2,
        b2.slot_set(),
        b2.contents(),
        ins.len() as int,
    );
    assert(outs1 =~= outs2);
    assert forall|s: IconSlot|
        b1.slot_set().contains(s) <==> b2.slot_set().contains(s) by {
        if b1.slot_set().contains(s) {
            let m = choose|m: int| added_at(outs1, m, s);
            assert(added_at(outs2, m, s));
        }
        if b2.slot_set().contains(s) {
            let m = choose|m: int| added_at(outs2, m, s);
            assert(added_at(outs1, m, s));
        }
    }
    assert(b1.slot_set() =~= b2.slot_set());
    crate::family::lemma_serialization_deterministic(b1, b2);
}

} // verus!
