//! Layout of the shared upload arena: one fixed, non-overlapping byte region
//! per (frame slot, content class).
use vstd::prelude::*;
use crate::error::EngineError;

verus! {

/// Number of frame slots (and of swapchain back-buffers).
pub const FRAME_COUNT: u32 = 2;

/// Bytes in one vertex: position (2 x f32), uv (2 x f32), color (4 x f32).
pub const VERTEX_SIZE: u64 = 32;

/// Total size of the upload arena.
pub const ARENA_SIZE: u64 = 1048576;

/// Bytes of the arena owned by one frame slot.
pub const SLOT_STRIDE: u64 = 524288;

/// What a region of the arena holds.
#[derive(Clone, Copy, Debug, PartialEq, Eq, Structural)]
pub enum ContentClass {
    PatternQuads,
    UiQuads,
    HdrText,
}

/// Start of a class's region inside its slot's half of the arena.
pub open spec fn class_start(c: ContentClass) -> nat {
    match c {
        ContentClass::PatternQuads => 0,
        ContentClass::UiQuads => 262144,
        ContentClass::HdrText => 393216,
    }
}

/// Capacity in bytes of a class's region.
pub open spec fn class_capacity(c: ContentClass) -> nat {
    match c {
        ContentClass::PatternQuads => 262144,
        ContentClass::UiQuads => 131072,
        ContentClass::HdrText => 131072,
    }
}

/// Byte offset of the region of `slot` for class `c`.
pub open spec fn region_start(slot: nat, c: ContentClass) -> nat {
    slot * 524288 + class_start(c)
}

/// Index of a content class, for per-class bookkeeping.
pub open spec fn class_index(c: ContentClass) -> int {
    match c {
        ContentClass::PatternQuads => 0,
        ContentClass::UiQuads => 1,
        ContentClass::HdrText => 2,
    }
}

/// Where a pass's vertices lie in the arena, and how they are read.
#[derive(Clone, Copy, Debug, PartialEq, Eq, Structural)]
pub struct VertexBufferView {
    /// Byte offset from the start of the arena.
    pub offset: u64,
    pub size_in_bytes: u32,
    pub stride: u32,
    pub vertex_count: u32,
}

/// The regions of different (slot, class) pairs never overlap, and every
/// region lies inside the arena.
pub proof fn lemma_regions_disjoint(s1: nat, c1: ContentClass, s2: nat, c2: ContentClass)
    requires
        s1 < FRAME_COUNT,
        s2 < FRAME_COUNT,
        s1 != s2 || c1 != c2,
    ensures
        region_start(s1, c1) + class_capacity(c1) <= region_start(s2, c2)
            || region_start(s2, c2) + class_capacity(c2) <= region_start(s1, c1),
        region_start(s1, c1) + class_capacity(c1) <= ARENA_SIZE,
{
}

/// Byte offset of the region of `slot` for class `c`.
pub fn region_offset(slot: u32, c: ContentClass) -> (r: u64)
    requires
        slot < FRAME_COUNT,
    ensures
        r == region_start(slot as nat, c),
{
    let start: u64 = match c {
        ContentClass::PatternQuads => 0,
        ContentClass::UiQuads => 262144,
        ContentClass::HdrText => 393216,
    };
    slot as u64 * SLOT_STRIDE + start
}

/// Capacity in bytes of the region of class `c`.
pub fn region_capacity(c: ContentClass) -> (r: u64)
    ensures
        r == class_capacity(c),
{
    match c {
        ContentClass::PatternQuads => 262144,
        ContentClass::UiQuads => 131072,
        ContentClass::HdrText => 131072,
    }
}

/// Places `count` vertices in the region of (`slot`, `c`) after the `used`
/// bytes already written there this frame. Fails when they do not fit.
pub fn place_vertices(slot: u32, c: ContentClass, used: u64, count: usize) -> (r: Result<VertexBufferView, EngineError>)
    requires
        slot < FRAME_COUNT,
        used <= class_capacity(c),
    ensures
        (used + count * VERTEX_SIZE <= class_capacity(c)) <==> r is Ok,
        r is Err ==> r == Err::<VertexBufferView, EngineError>(EngineError::RegionOverflow),
        r matches Ok(v) ==> {
            &&& v.offset == region_start(slot as nat, c) + used
            &&& v.size_in_bytes == count * VERTEX_SIZE
            &&& v.stride == VERTEX_SIZE
            &&& v.vertex_count == count
        },
{
    let cap = region_capacity(c);
    let room = cap - used;
    if count as u64 > room / VERTEX_SIZE {
        return Err(EngineError::RegionOverflow);
    }
    let bytes = count as u64 * VERTEX_SIZE;
    Ok(VertexBufferView {
        offset: region_offset(slot, c) + used,
        size_in_bytes: bytes as u32,
        stride: VERTEX_SIZE as u32,
        vertex_count: count as u32,
    })
}

} // verus!
