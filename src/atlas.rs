use vstd::prelude::*;

verus! {

/// The largest side, in texels, that the glyph atlas is grown to.
pub const MAX_TEXTURE_DIMENSION: u32 = 2048;

/// What to do with the atlas when the layout engine reports that it is too small.
#[derive(Clone, Copy, Debug, PartialEq, Eq, Structural)]
pub enum ResizeDecision {
    /// Replace the atlas with a new one of these dimensions.
    Resize { width: u32, height: u32 },
    /// The atlas already has the largest dimensions allowed and cannot grow.
    AtCapacity,
}

/// Whether a suggested size goes past the cap in either dimension.
pub open spec fn exceeds_cap(size: (u32, u32), max_dimension: u32) -> bool {
    size.0 > max_dimension || size.1 > max_dimension
}

/// Whether the atlas is below the cap in at least one dimension.
pub open spec fn below_cap(size: (u32, u32), max_dimension: u32) -> bool {
    size.0 < max_dimension || size.1 < max_dimension
}

/// The atlas size chosen for an overflow: the suggestion when it fits under the
/// cap; the cap in both dimensions when the suggestion overshoots and the atlas
/// still has room to grow; no resize when it has none.
pub open spec fn resize_target(
    current: (u32, u32),
    suggested: (u32, u32),
    max_dimension: u32,
) -> ResizeDecision {
    if exceeds_cap(suggested, max_dimension) {
        if below_cap(current, max_dimension) {
            ResizeDecision::Resize { width: max_dimension, height: max_dimension }
        } else {
            ResizeDecision::AtCapacity
        }
    } else {
        ResizeDecision::Resize { width: suggested.0, height: suggested.1 }
    }
}

/// Chooses the new atlas dimensions after the layout engine reported an overflow
/// of the `current` atlas and `suggested` a larger one.
pub fn atlas_resize_target(current: (u32, u32), suggested: (u32, u32), max_dimension: u32) -> (r:
    ResizeDecision)
    ensures
        r == resize_target(current, suggested, max_dimension),
{
    if suggested.0 > max_dimension || suggested.1 > max_dimension {
        if current.0 < max_dimension || current.1 < max_dimension {
            ResizeDecision::Resize { width: max_dimension, height: max_dimension }
        } else {
            ResizeDecision::AtCapacity
        }
    } else {
        ResizeDecision::Resize { width: suggested.0, height: suggested.1 }
    }
}

/// Componentwise `a <= b`.
pub open spec fn fits_within(a: (u32, u32), b: (u32, u32)) -> bool {
    a.0 <= b.0 && a.1 <= b.1
}

/// The atlas size after a run of overflows, each answered with `resize_target`:
/// a resize takes the chosen size, an atlas at capacity keeps its size.
pub open spec fn grown_atlas(start: (u32, u32), suggestions: Seq<(u32, u32)>, max_dimension: u32) -> (u32, u32)
    decreases suggestions.len(),
{
    if suggestions.len() == 0 {
        start
    } else {
        let prev = grown_atlas(start, suggestions.drop_last(), max_dimension);
        match resize_target(prev, suggestions.last(), max_dimension) {
            ResizeDecision::Resize { width, height } => (width, height),
            ResizeDecision::AtCapacity => prev,
        }
    }
}

/// Suggestions that never decrease, in either dimension, from one overflow to the next.
pub open spec fn increasing_suggestions(start: (u32, u32), suggestions: Seq<(u32, u32)>) -> bool {
    &&& suggestions.len() > 0 ==> fits_within(start, suggestions[0])
    &&& forall|i: int, j: int|
        0 <= i <= j < suggestions.len() ==> fits_within(#[trigger] suggestions[i], #[trigger] suggestions[j])
}

/// One overflow whose suggestion is at least the current size: the new atlas is
/// no smaller than the old one and within the cap, and an atlas at capacity
/// already has the cap in both dimensions.
pub proof fn lemma_resize_grows_within_cap(current: (u32, u32), suggested: (u32, u32), max_dimension: u32)
    requires
        fits_within(current, (max_dimension, max_dimension)),
        fits_within(current, suggested),
    ensures
        match resize_target(current, suggested, max_dimension) {
            ResizeDecision::Resize { width, height } => {
                &&& fits_within(current, (width, height))
                &&& fits_within((width, height), (max_dimension, max_dimension))
            },
            ResizeDecision::AtCapacity => current == (max_dimension, max_dimension),
        },
{
}

proof fn lemma_grown_atlas_bounded(start: (u32, u32), suggestions: Seq<(u32, u32)>, max_dimension: u32)
    requires
        fits_within(start, (max_dimension, max_dimension)),
        increasing_suggestions(start, suggestions),
        suggestions.len() > 0,
    ensures
        fits_within(grown_atlas(start, suggestions, max_dimension), (max_dimension, max_dimension)),
        fits_within(grown_atlas(start, suggestions.drop_last(), max_dimension), grown_atlas(start, suggestions, max_dimension)),
        fits_within(grown_atlas(start, suggestions, max_dimension), suggestions.last())
            || (grown_atlas(start, suggestions, max_dimension) == (max_dimension, max_dimension)
                && exceeds_cap(suggestions.last(), max_dimension)),
    decreases suggestions.len(),
{
    let prefix = suggestions.drop_last();
    let last = suggestions.last();
    let prev = grown_atlas(start, prefix, max_dimension);
    if prefix.len() > 0 {
        assert(increasing_suggestions(start, prefix)) by {
            assert forall|i: int, j: int| 0 <= i <= j < prefix.len() implies fits_within(
                #[trigger] prefix[i],
                #[trigger] prefix[j],
            ) by {
                assert(prefix[i] == suggestions[i] && prefix[j] == suggestions[j]);
            }
        }
        lemma_grown_atlas_bounded(start, prefix, max_dimension);
        assert(prefix.last() == suggestions[prefix.len() - 1]);
        assert(fits_within(suggestions[prefix.len() - 1], suggestions[suggestions.len() - 1]));
    } else {
        assert(suggestions[0] == last);
    }
    if fits_within(prev, last) {
        lemma_resize_grows_within_cap(prev, last, max_dimension);
    }
}

/// However many times the atlas overflows, with suggestions that never decrease,
/// the atlas that the last overflow leaves is no smaller than the one before it
/// and stays within the cap, provided it started within the cap.
pub proof fn lemma_repeated_overflows_grow_within_cap(
    start: (u32, u32),
    suggestions: Seq<(u32, u32)>,
    max_dimension: u32,
)
    requires
        fits_within(start, (max_dimension, max_dimension)),
        increasing_suggestions(start, suggestions),
        suggestions.len() > 0,
    ensures
        fits_within(grown_atlas(start, suggestions.drop_last(), max_dimension), grown_atlas(start, suggestions, max_dimension)),
        fits_within(grown_atlas(start, suggestions, max_dimension), (max_dimension, max_dimension)),
{
    lemma_grown_atlas_bounded(start, suggestions, max_dimension);
}

/// The low 16 bits of a texel coordinate, as an `as u16` conversion keeps them.
pub open spec fn low_16(x: u32) -> u16 {
    (x % 0x1_0000) as u16
}

/// Where an update of the atlas rectangle `[min, max)` lands: its offset and its
/// size, each side narrowed to the 16 bits that the upload call takes.
pub fn upload_region(min: [u32; 2], max: [u32; 2]) -> (r: ([u16; 2], [u16; 2]))
    requires
        min[0] <= max[0],
        min[1] <= max[1],
    ensures
        r.0[0] == low_16(min[0]),
        r.0[1] == low_16(min[1]),
        r.1[0] == low_16((max[0] - min[0]) as u32),
        r.1[1] == low_16((max[1] - min[1]) as u32),
{
    let width: u32 = max[0] - min[0];
    let height: u32 = max[1] - min[1];
    let offset: [u16; 2] = [narrow_to_u16(min[0]), narrow_to_u16(min[1])];
    let size: [u16; 2] = [narrow_to_u16(width), narrow_to_u16(height)];
    (offset, size)
}

fn narrow_to_u16(x: u32) -> (r: u16)
    ensures
        r == low_16(x),
{
    (x % 0x1_0000) as u16
}

/// The zeroed coverage of a fresh `width` by `height` atlas, one byte per texel.
pub fn blank_texels(width: u32, height: u32) -> (r: Vec<u8>)
    requires
        width as int * height as int <= usize::MAX,
    ensures
        r@.len() == width as int * height as int,
        forall|i: int| 0 <= i < r@.len() ==> #[trigger] r@[i] == 0u8,
{
    let count: usize = (width as usize) * (height as usize);
    let mut texels: Vec<u8> = Vec::with_capacity(count);
    let mut i: usize = 0;
    while i < count
        invariant
            i <= count,
            count == width as int * height as int,
            texels@.len() == i,
            forall|j: int| 0 <= j < i ==> #[trigger] texels@[j] == 0u8,
        decreases count - i,
    {
        texels.push(0u8);
        i = i + 1;
    }
    texels
}

} // verus!
