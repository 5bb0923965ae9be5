//! Font-atlas streaming: which entries of a texture delta are honoured, the
//! row-pitch aligned staging of their pixels, and the atlas they leave.
use vstd::prelude::*;
use vstd::arithmetic::div_mod::lemma_fundamental_div_mod_converse;

verus! {

/// Identifies a texture of the UI library.
#[derive(Clone, Copy, Debug, PartialEq, Eq, Structural)]
pub enum TextureId {
    Managed(u64),
    User(u64),
}

/// One atlas update: RGBA8 pixels, `width` x `height`, either a whole new
/// image (`pos` is `None`) or a patch placed at `pos`.
#[derive(Clone, Debug)]
pub struct ImageDelta {
    pub width: u32,
    pub height: u32,
    pub pixels: Vec<u8>,
    pub pos: Option<(u32, u32)>,
}

/// The texture updates the UI library asks for in one frame, in order.
#[derive(Clone, Debug)]
pub struct TexturesDelta {
    pub set: Vec<(TextureId, ImageDelta)>,
}

/// Size of the atlas texture in pixels.
#[derive(Clone, Copy, Debug, PartialEq, Eq, Structural)]
pub struct AtlasSize {
    pub width: u32,
    pub height: u32,
}

/// Whether an upload replaces the atlas or patches it. A full upload goes
/// into a new texture, made in the copy-destination state, which then becomes
/// shader-readable and gets a new descriptor. A patch takes the atlas from
/// shader-readable to copy-destination and back, and keeps its descriptor.
#[derive(Clone, Copy, Debug, PartialEq, Eq, Structural)]
pub enum UploadKind {
    Full,
    Partial,
}

/// One copy into the atlas: the staged bytes, laid out with `row_pitch`
/// bytes per row, go to the `width` x `height` rectangle at (`dest_x`, `dest_y`).
#[derive(Clone, Debug)]
pub struct AtlasUpload {
    pub kind: UploadKind,
    pub dest_x: u32,
    pub dest_y: u32,
    pub width: u32,
    pub height: u32,
    pub row_pitch: u32,
    pub staging: Vec<u8>,
}

/// An `AtlasUpload` as a mathematical value.
pub struct UploadModel {
    pub kind: UploadKind,
    pub dest_x: u32,
    pub dest_y: u32,
    pub width: u32,
    pub height: u32,
    pub row_pitch: nat,
    pub staging: Seq<u8>,
}

impl View for AtlasUpload {
    type V = UploadModel;

    open spec fn view(&self) -> UploadModel {
        UploadModel {
            kind: self.kind,
            dest_x: self.dest_x,
            dest_y: self.dest_y,
            width: self.width,
            height: self.height,
            row_pitch: self.row_pitch as nat,
            staging: self.staging@,
        }
    }
}

/// Bytes per staged row: four bytes per pixel, rounded up to a multiple of 256.
pub open spec fn aligned_pitch(width: nat) -> nat {
    ((width * 4 + 255) / 256 * 256) as nat
}

/// Byte `k` of the staging buffer for `pixels`: pixel bytes at the start of
/// each row, zero padding after them.
pub open spec fn staged_byte(pixels: Seq<u8>, width: nat, k: int) -> u8 {
    let pitch = aligned_pitch(width) as int;
    let y = k / pitch;
    let x = k % pitch;
    if x < width * 4 { pixels[y * (width * 4) + x] } else { 0 }
}

/// The staging buffer for a `width` x `height` RGBA8 image.
pub open spec fn staged(pixels: Seq<u8>, width: nat, height: nat) -> Seq<u8> {
    Seq::new(aligned_pitch(width) * height, |k: int| staged_byte(pixels, width, k))
}

/// Only the UI library's font texture, managed texture 0, is honoured.
pub open spec fn honored(id: TextureId) -> bool {
    id == TextureId::Managed(0)
}

/// The pixel data matches the image's size, and the staging buffer fits in 4 GiB.
pub open spec fn image_ok(d: ImageDelta) -> bool {
    &&& d.pixels@.len() == d.width * d.height * 4
    &&& aligned_pitch(d.width as nat) <= u32::MAX
    &&& aligned_pitch(d.width as nat) * d.height <= u32::MAX
}

/// Every honoured entry of `set` is well formed.
pub open spec fn delta_ok(set: Seq<(TextureId, ImageDelta)>) -> bool {
    forall|i: int| 0 <= i < set.len() && honored(#[trigger] set[i].0) ==> image_ok(set[i].1)
}

/// The atlas after one entry: a full update replaces it; anything else keeps it.
pub open spec fn atlas_step(atlas: Option<AtlasSize>, e: (TextureId, ImageDelta)) -> Option<AtlasSize> {
    if honored(e.0) && e.1.pos is None {
        Some(AtlasSize { width: e.1.width, height: e.1.height })
    } else {
        atlas
    }
}

/// The upload one entry asks for, given the atlas before it: none for another
/// texture, none for a patch while there is no atlas.
pub open spec fn upload_step(atlas: Option<AtlasSize>, e: (TextureId, ImageDelta)) -> Seq<UploadModel> {
    let d = e.1;
    if !honored(e.0) {
        Seq::empty()
    } else {
        match d.pos {
            None => seq![UploadModel {
                kind: UploadKind::Full,
                dest_x: 0,
                dest_y: 0,
                width: d.width,
                height: d.height,
                row_pitch: aligned_pitch(d.width as nat),
                staging: staged(d.pixels@, d.width as nat, d.height as nat),
            }],
            Some(p) => if atlas is None {
                Seq::empty()
            } else {
                seq![UploadModel {
                    kind: UploadKind::Partial,
                    dest_x: p.0,
                    dest_y: p.1,
                    width: d.width,
                    height: d.height,
                    row_pitch: aligned_pitch(d.width as nat),
                    staging: staged(d.pixels@, d.width as nat, d.height as nat),
                }]
            },
        }
    }
}

/// The atlas after all entries of `set`, in order.
pub open spec fn atlas_after(atlas: Option<AtlasSize>, set: Seq<(TextureId, ImageDelta)>) -> Option<AtlasSize>
    decreases set.len(),
{
    if set.len() == 0 {
        atlas
    } else {
        atlas_step(atlas_after(atlas, set.drop_last()), set.last())
    }
}

/// The uploads all entries of `set` ask for, in order.
pub open spec fn uploads_of(atlas: Option<AtlasSize>, set: Seq<(TextureId, ImageDelta)>) -> Seq<UploadModel>
    decreases set.len(),
{
    if set.len() == 0 {
        Seq::empty()
    } else {
        uploads_of(atlas, set.drop_last()) + upload_step(atlas_after(atlas, set.drop_last()), set.last())
    }
}

/// A patch that comes while there is no atlas, and before any full update,
/// is dropped: it leaves no atlas and asks for no upload.
pub proof fn lemma_partial_without_atlas_dropped(set: Seq<(TextureId, ImageDelta)>)
    requires
        forall|i: int| 0 <= i < set.len() && honored(#[trigger] set[i].0) ==> set[i].1.pos is Some,
    ensures
        atlas_after(None, set) is None,
        uploads_of(None, set) =~= Seq::<UploadModel>::empty(),
    decreases set.len(),
{
    if set.len() > 0 {
        let prefix = set.drop_last();
        assert forall|i: int| 0 <= i < prefix.len() && honored(#[trigger] prefix[i].0) implies prefix[i].1.pos is Some by {
            assert(prefix[i] == set[i]);
        }
        lemma_partial_without_atlas_dropped(prefix);
        assert(set.last() == set[set.len() - 1]);
    }
}

/// Bytes per staged row for an image `width` pixels wide.
pub fn row_pitch(width: u32) -> (r: u64)
    ensures
        r == aligned_pitch(width as nat),
        r >= width * 4,
{
    (width as u64 * 4 + 255) / 256 * 256
}

proof fn lemma_row_index(k: int, pitch: int, y: int, x: int)
    requires
        pitch > 0,
        0 <= x < pitch,
        0 <= y,
        k == y * pitch + x,
    ensures
        k / pitch == y,
        k % pitch == x,
{
    lemma_fundamental_div_mod_converse(k, pitch, y, x);
}

/// Copies the rows of a `width` x `height` RGBA8 image into a buffer whose
/// rows are `row_pitch(width)` bytes long, the padding zeroed.
pub fn stage_pixels(pixels: &Vec<u8>, width: u32, height: u32) -> (r: Vec<u8>)
    requires
        pixels@.len() == width * height * 4,
        aligned_pitch(width as nat) * height <= u32::MAX,
    ensures
        r@ == staged(pixels@, width as nat, height as nat),
{
    let mut out: Vec<u8> = Vec::new();
    if height == 0 {
        assert(out@ =~= staged(pixels@, width as nat, height as nat));
        return out;
    }
    let pitch64 = row_pitch(width);
    assert(pitch64 <= pitch64 * height) by (nonlinear_arith)
        requires height >= 1;
    let pitch = pitch64 as usize;
    let row = (width as u64 * 4) as usize;
    let h = height as usize;
    assert(pixels@.len() == h * row) by (nonlinear_arith)
        requires pixels@.len() == width * height * 4, h == height, row == width * 4;
    let n = pixels.len();
    let mut y: usize = 0;
    while y < h
        invariant
            pitch == aligned_pitch(width as nat),
            row == width * 4,
            row <= pitch,
            h == height,
            pitch * h <= u32::MAX,
            pixels@.len() == h * row,
            n == pixels@.len(),
            y <= h,
            out@.len() == y * pitch,
            forall|k: int| 0 <= k < out@.len() ==> out@[k] == #[trigger] staged_byte(pixels@, width as nat, k),
        decreases h - y,
    {
        assert((y + 1) * pitch <= h * pitch) by (nonlinear_arith)
            requires y < h;
        assert((y + 1) * row <= h * row) by (nonlinear_arith)
            requires y < h;
        let mut x: usize = 0;
        while x < pitch
            invariant
                pitch == aligned_pitch(width as nat),
                row == width * 4,
                row <= pitch,
                h == height,
                y < h,
                (y + 1) * pitch <= h * pitch,
                (y + 1) * row <= h * row,
                pitch * h <= u32::MAX,
                pixels@.len() == h * row,
                n == pixels@.len(),
                x <= pitch,
                out@.len() == y * pitch + x,
                forall|k: int| 0 <= k < out@.len() ==> out@[k] == #[trigger] staged_byte(pixels@, width as nat, k),
            decreases pitch - x,
        {
            assert(y * pitch + x < h * pitch) by (nonlinear_arith)
                requires x < pitch, (y + 1) * pitch <= h * pitch;
            let k = y * pitch + x;
            proof {
                lemma_row_index(k as int, pitch as int, y as int, x as int);
            }
            let b: u8 = if x < row {
                assert(y * row + x < h * row) by (nonlinear_arith)
                    requires x < row, (y + 1) * row <= h * row;
                assert(y * row <= h * row) by (nonlinear_arith)
                    requires (y + 1) * row <= h * row;
                pixels[y * row + x]
            } else {
                0
            };
            out.push(b);
            x += 1;
        }
        y += 1;
        assert(out@.len() == y * pitch) by (nonlinear_arith)
            requires out@.len() == (y - 1) * pitch + pitch;
    }
    assert(out@ =~= staged(pixels@, width as nat, height as nat)) by {
        assert(out@.len() == aligned_pitch(width as nat) * height) by (nonlinear_arith)
            requires out@.len() == h * pitch, pitch == aligned_pitch(width as nat), h == height;
    }
    out
}

/// Whether the pixel data of `d` matches its size and its staging buffer fits in 4 GiB.
pub fn image_is_valid(d: &ImageDelta) -> (r: bool)
    ensures
        r == image_ok(*d),
{
    let w = d.width as u128;
    let h = d.height as u128;
    let pitch = row_pitch(d.width) as u128;
    assert(w * h * 4 <= 0x4_0000_0000_0000_0000) by (nonlinear_arith)
        requires w <= u32::MAX, h <= u32::MAX;
    assert(pitch * h <= 0x4_0000_0000_0000_0000) by (nonlinear_arith)
        requires pitch <= 0x4_0000_0000, h <= u32::MAX;
    d.pixels.len() as u128 == w * h * 4 && pitch <= u32::MAX as u128 && pitch * h <= u32::MAX as u128
}

/// Whether every honoured entry of `delta` is well formed.
pub fn delta_is_valid(delta: &TexturesDelta) -> (r: bool)
    ensures
        r == delta_ok(delta.set@),
{
    let mut i: usize = 0;
    while i < delta.set.len()
        invariant
            i <= delta.set@.len(),
            forall|j: int| 0 <= j < i && honored(#[trigger] delta.set@[j].0) ==> image_ok(delta.set@[j].1),
        decreases delta.set@.len() - i,
    {
        let e = &delta.set[i];
        if e.0 == TextureId::Managed(0) && !image_is_valid(&e.1) {
            return false;
        }
        i += 1;
    }
    true
}

/// Stages one honoured entry as an upload of the given kind.
fn stage_entry(d: &ImageDelta, kind: UploadKind, dest_x: u32, dest_y: u32) -> (r: AtlasUpload)
    requires
        image_ok(*d),
    ensures
        r@ == (UploadModel {
            kind,
            dest_x,
            dest_y,
            width: d.width,
            height: d.height,
            row_pitch: aligned_pitch(d.width as nat),
            staging: staged(d.pixels@, d.width as nat, d.height as nat),
        }),
{
    let pitch = row_pitch(d.width);
    AtlasUpload {
        kind,
        dest_x,
        dest_y,
        width: d.width,
        height: d.height,
        row_pitch: pitch as u32,
        staging: stage_pixels(&d.pixels, d.width, d.height),
    }
}

/// The uploads that `delta` asks for, given the current atlas, and the atlas
/// they leave. Entries for other textures, and patches while there is no
/// atlas, are skipped.
pub fn plan_atlas_uploads(atlas: Option<AtlasSize>, delta: &TexturesDelta) -> (r: (Option<AtlasSize>, Vec<AtlasUpload>))
    requires
        delta_ok(delta.set@),
    ensures
        r.0 == atlas_after(atlas, delta.set@),
        r.1@.map_values(|u: AtlasUpload| u@) == uploads_of(atlas, delta.set@),
{
    let mut cur = atlas;
    let mut out: Vec<AtlasUpload> = Vec::new();
    let mut i: usize = 0;
    while i < delta.set.len()
        invariant
            i <= delta.set@.len(),
            delta_ok(delta.set@),
            cur == atlas_after(atlas, delta.set@.subrange(0, i as int)),
            out@.map_values(|u: AtlasUpload| u@) == uploads_of(atlas, delta.set@.subrange(0, i as int)),
        decreases delta.set@.len() - i,
    {
        let ghost before = cur;
        let ghost prefix = delta.set@.subrange(0, i as int);
        let ghost next = delta.set@.subrange(0, i as int + 1);
        assert(next.drop_last() =~= prefix);
        assert(next.last() == delta.set@[i as int]);
        let e = &delta.set[i];
        if e.0 == TextureId::Managed(0) {
            match e.1.pos {
                None => {
                    out.push(stage_entry(&e.1, UploadKind::Full, 0, 0));
                    cur = Some(AtlasSize { width: e.1.width, height: e.1.height });
                },
                Some(p) => {
                    if cur.is_some() {
                        out.push(stage_entry(&e.1, UploadKind::Partial, p.0, p.1));
                    }
                },
            }
        }
        assert(out@.map_values(|u: AtlasUpload| u@) =~= uploads_of(atlas, prefix) + upload_step(before, delta.set@[i as int]));
        i += 1;
    }
    assert(delta.set@.subrange(0, delta.set@.len() as int) =~= delta.set@);
    (cur, out)
}

} // verus!
