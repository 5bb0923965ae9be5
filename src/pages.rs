//! The test pages and their fixed registry. What a page draws is computed by
//! the caller; the library knows each page by name and by place.
use vstd::prelude::*;

verus! {

pub struct PqLevels;

pub struct BrightnessGrid;

pub struct ColorRamps;

pub struct AnimatedGradient;

pub struct SplitCompare;

impl PqLevels {
    pub fn name(&self) -> (r: &'static str)
        ensures
            r@ == "PQ Levels in Nits"@,
    {
        "PQ Levels in Nits"
    }
}

impl BrightnessGrid {
    pub fn name(&self) -> (r: &'static str)
        ensures
            r@ == "Brightness Grid"@,
    {
        "Brightness Grid"
    }
}

impl ColorRamps {
    pub fn name(&self) -> (r: &'static str)
        ensures
            r@ == "Color Ramps"@,
    {
        "Color Ramps"
    }
}

impl AnimatedGradient {
    pub fn name(&self) -> (r: &'static str)
        ensures
            r@ == "Animated Color Gradient"@,
    {
        "Animated Color Gradient"
    }
}

impl SplitCompare {
    pub fn name(&self) -> (r: &'static str)
        ensures
            r@ == "Split Compare (SDR | HDR)"@,
    {
        "Split Compare (SDR | HDR)"
    }
}

/// One of the test pages.
#[derive(Clone, Copy, Debug, PartialEq, Eq, Structural)]
pub enum PageKind {
    PqLevels,
    BrightnessGrid,
    ColorRamps,
    AnimatedGradient,
    SplitCompare,
}

/// The name of each page.
pub open spec fn page_name(p: PageKind) -> Seq<char> {
    match p {
        PageKind::PqLevels => "PQ Levels in Nits"@,
        PageKind::BrightnessGrid => "Brightness Grid"@,
        PageKind::ColorRamps => "Color Ramps"@,
        PageKind::AnimatedGradient => "Animated Color Gradient"@,
        PageKind::SplitCompare => "Split Compare (SDR | HDR)"@,
    }
}

/// The pages shown, in order. The brightness grid is left out: the PQ
/// levels page shows the same luminances with their PQ codes.
pub open spec fn page_order() -> Seq<PageKind> {
    seq![PageKind::PqLevels, PageKind::ColorRamps, PageKind::AnimatedGradient, PageKind::SplitCompare]
}

impl PageKind {
    pub fn name(&self) -> (r: &'static str)
        ensures
            r@ == page_name(*self),
    {
        match self {
            PageKind::PqLevels => PqLevels.name(),
            PageKind::BrightnessGrid => BrightnessGrid.name(),
            PageKind::ColorRamps => ColorRamps.name(),
            PageKind::AnimatedGradient => AnimatedGradient.name(),
            PageKind::SplitCompare => SplitCompare.name(),
        }
    }
}

/// The pages shown, in order.
pub fn get_pages() -> (r: Vec<PageKind>)
    ensures
        r@ == page_order(),
{
    let r = vec![PageKind::PqLevels, PageKind::ColorRamps, PageKind::AnimatedGradient, PageKind::SplitCompare];
    assert(r@ =~= page_order());
    r
}

} // verus!
