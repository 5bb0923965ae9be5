use hdr_test::adapter::{select_adapter, AdapterInfo};
use hdr_test::arena::{region_capacity, region_offset, ContentClass, ARENA_SIZE, FRAME_COUNT};
use hdr_test::atlas::{AtlasSize, ImageDelta, TextureId, TexturesDelta, UploadKind};
use hdr_test::engine::{
    CompositeConstants, Dx12State, DrawTarget, FrameAction, FramePhase, GpuResource, Pipeline,
    ResourceState, TextureBinding, Transition,
};
use hdr_test::error::EngineError;

fn engine(width: u32, height: u32) -> Dx12State {
    Dx12State::new(width, height, 0).unwrap()
}

fn font_delta(pos: Option<(u32, u32)>) -> TexturesDelta {
    TexturesDelta {
        set: vec![(TextureId::Managed(0), ImageDelta { width: 2, height: 2, pixels: vec![255; 16], pos })],
    }
}

/// Runs `begin_frame` as a GPU that completes at once would, until recording opens.
fn open(e: &mut Dx12State, fence: &mut u64) -> u32 {
    loop {
        match e.begin_frame(*fence).unwrap() {
            FrameAction::Signal { value, .. } => *fence = value.max(*fence),
            FrameAction::Wait { value } => *fence = value,
            FrameAction::ResizeBuffers { .. } => e.resize_applied(0).unwrap(),
            FrameAction::Record { slot } => return slot,
            FrameAction::Released => panic!("released"),
        }
    }
}

fn close(e: &mut Dx12State, next: u32) -> u64 {
    let p = e.end_frame().unwrap();
    e.frame_submitted(next).unwrap();
    p.signal_value
}

#[test]
fn new_rejects_bad_back_buffer_index() {
    assert_eq!(Dx12State::new(640, 480, 2).err(), Some(EngineError::BadBackBufferIndex));
    let e = engine(640, 480);
    assert_eq!(e.phase(), FramePhase::Idle);
    assert_eq!((e.width(), e.height(), e.frame_index()), (640, 480, 0));
    assert_eq!((e.fence_value(0), e.fence_value(1)), (0, 0));
}

#[test]
fn slot_reuse_waits_for_its_fence() {
    let mut e = engine(640, 480);
    let mut fence = 0u64;
    assert_eq!(open(&mut e, &mut fence), 0);
    let v0 = close(&mut e, 1);
    assert_eq!(v0, 1);
    assert_eq!(e.begin_frame(0), Ok(FrameAction::Record { slot: 1 }));
    let v1 = close(&mut e, 0);
    assert_eq!(v1, 1);
    // slot 0 signalled 1; with the fence still at 0 it must wait
    assert_eq!(e.begin_frame(0), Ok(FrameAction::Wait { value: 1 }));
    assert_eq!(e.phase(), FramePhase::Idle);
    assert_eq!(e.begin_frame(1), Ok(FrameAction::Record { slot: 0 }));
    assert_eq!(close(&mut e, 1), 2);
    assert_eq!(e.fence_value(0), 2);
}

#[test]
fn degenerate_resize_changes_nothing() {
    let mut e = engine(640, 480);
    assert_eq!(e.resize(0, 300), Ok(()));
    assert_eq!(e.resize(300, 0), Ok(()));
    assert_eq!(e.resize(640, 480), Ok(()));
    assert_eq!(e.pending_resize(), None);
    let mut fence = 0u64;
    assert_eq!(open(&mut e, &mut fence), 0);
    assert_eq!((e.width(), e.height()), (640, 480));
}

#[test]
fn last_resize_wins() {
    let mut e = engine(640, 480);
    e.resize(800, 600).unwrap();
    e.resize(1024, 768).unwrap();
    assert_eq!(e.pending_resize(), Some((1024, 768)));
    assert_eq!(e.begin_frame(0), Ok(FrameAction::Signal { slot: 0, value: 1 }));
    assert_eq!(e.begin_frame(0), Ok(FrameAction::Wait { value: 1 }));
    assert_eq!(e.begin_frame(1), Ok(FrameAction::Signal { slot: 1, value: 1 }));
    assert_eq!(e.begin_frame(1), Ok(FrameAction::ResizeBuffers { width: 1024, height: 768 }));
    assert_eq!(e.begin_frame(1), Err(EngineError::WrongPhase));
    assert_eq!(e.resize_applied(5), Err(EngineError::BadBackBufferIndex));
    e.resize_applied(1).unwrap();
    assert_eq!((e.width(), e.height(), e.frame_index()), (1024, 768, 1));
    assert_eq!((e.fence_value(0), e.fence_value(1)), (0, 0));
    assert_eq!(e.pending_resize(), None);
    assert_eq!(e.begin_frame(1), Ok(FrameAction::Record { slot: 1 }));
}

#[test]
fn wrong_phase_is_reported() {
    let mut e = engine(640, 480);
    assert_eq!(e.end_frame().err(), Some(EngineError::WrongPhase));
    assert_eq!(e.frame_submitted(0), Err(EngineError::WrongPhase));
    assert_eq!(e.render_quads(6).err(), Some(EngineError::WrongPhase));
    assert_eq!(e.clear_render_target(), Err(EngineError::WrongPhase));
    assert_eq!(e.update_font_texture(&font_delta(None)).err(), Some(EngineError::WrongPhase));
    assert_eq!(e.resize_applied(0), Err(EngineError::WrongPhase));
}

#[test]
fn pattern_pass_plan() {
    let mut e = engine(2000, 1000);
    let mut fence = 0u64;
    open(&mut e, &mut fence);
    assert!(e.render_quads(0).unwrap().is_none());
    let t = e.clear_render_target().unwrap();
    assert_eq!(
        t,
        Some(Transition {
            resource: GpuResource::BackBuffer(0),
            before: ResourceState::Present,
            after: ResourceState::RenderTarget
        })
    );
    let p = e.render_quads(6).unwrap().unwrap();
    assert!(p.transitions.is_empty());
    assert_eq!(p.pipeline, Pipeline::UntexturedHdr);
    assert_eq!(p.target, DrawTarget::BackBuffer(0));
    assert_eq!(p.texture, None);
    assert_eq!(p.constants, None);
    assert_eq!(p.viewport, e.get_16_9_viewport().0);
    let vb = p.vertex_buffer.unwrap();
    assert_eq!((vb.offset, vb.size_in_bytes, vb.stride, vb.vertex_count), (0, 192, 32, 6));
    // a second batch goes after the first in the same region
    let p2 = e.render_quads(3).unwrap().unwrap();
    assert_eq!(p2.vertex_buffer.unwrap().offset, 192);
    let end = e.end_frame().unwrap();
    assert_eq!(end.sync_interval, 1);
    assert_eq!(
        end.transition,
        Some(Transition {
            resource: GpuResource::BackBuffer(0),
            before: ResourceState::RenderTarget,
            after: ResourceState::Present
        })
    );
}

#[test]
fn region_overflow_is_an_error() {
    let mut e = engine(640, 480);
    let mut fence = 0u64;
    open(&mut e, &mut fence);
    assert!(e.render_quads(8192).unwrap().is_some());
    assert_eq!(e.render_quads(1).err(), Some(EngineError::RegionOverflow));
    assert_eq!(e.render_quads(usize::MAX).err(), Some(EngineError::RegionOverflow));
}

#[test]
fn text_and_ui_need_the_atlas() {
    let mut e = engine(640, 480);
    let mut fence = 0u64;
    open(&mut e, &mut fence);
    assert!(e.render_hdr_text(6).unwrap().is_none());
    assert!(e.render_ui_quads(6).unwrap().is_none());
    // a patch before any full update is dropped
    assert!(e.update_font_texture(&font_delta(Some((1, 1)))).unwrap().is_empty());
    assert_eq!(e.font_atlas(), None);
    let ups = e.update_font_texture(&font_delta(None)).unwrap();
    assert_eq!(ups.len(), 1);
    assert_eq!(ups[0].kind, UploadKind::Full);
    assert_eq!(e.font_atlas(), Some(AtlasSize { width: 2, height: 2 }));
    let text = e.render_hdr_text(6).unwrap().unwrap();
    assert_eq!(text.pipeline, Pipeline::TexturedHdr);
    assert_eq!(text.texture, Some(TextureBinding::FontAtlas));
    assert_eq!(text.vertex_buffer.unwrap().offset, region_offset(0, ContentClass::HdrText));
    let ui = e.render_ui_quads(6).unwrap().unwrap();
    assert_eq!(ui.pipeline, Pipeline::TexturedSdr);
    assert_eq!(ui.target, DrawTarget::SdrTarget);
    assert_eq!(
        ui.transitions,
        vec![Transition {
            resource: GpuResource::SdrTarget,
            before: ResourceState::PixelShaderResource,
            after: ResourceState::RenderTarget
        }]
    );
    assert_eq!(ui.vertex_buffer.unwrap().offset, region_offset(0, ContentClass::UiQuads));
}

#[test]
fn malformed_atlas_image_is_rejected() {
    let mut e = engine(640, 480);
    let mut fence = 0u64;
    open(&mut e, &mut fence);
    let mut d = font_delta(None);
    d.set[0].1.pixels.pop();
    assert_eq!(e.update_font_texture(&d).err(), Some(EngineError::MalformedImage));
    assert_eq!(e.font_atlas(), None);
}

#[test]
fn composite_scales_by_paper_white() {
    let mut e = engine(640, 480);
    let mut fence = 0u64;
    open(&mut e, &mut fence);
    e.clear_sdr_target().unwrap();
    let p = e.composite_ui(160).unwrap();
    let c = p.constants.unwrap();
    assert_eq!(c, CompositeConstants { paper_white_nits: 160, reference_white_nits: 80 });
    assert_eq!(c.paper_white_nits as f32 / c.reference_white_nits as f32, 2.0);
    assert_eq!(p.pipeline, Pipeline::Composite);
    assert_eq!(p.texture, Some(TextureBinding::SdrTarget));
    assert_eq!(p.vertex_buffer, None);
    assert_eq!(p.vertex_count, 6);
    assert_eq!(
        p.transitions,
        vec![
            Transition {
                resource: GpuResource::SdrTarget,
                before: ResourceState::RenderTarget,
                after: ResourceState::PixelShaderResource
            },
            Transition {
                resource: GpuResource::BackBuffer(0),
                before: ResourceState::Present,
                after: ResourceState::RenderTarget
            },
        ]
    );
}

#[test]
fn teardown_drains_every_slot() {
    let mut e = engine(640, 480);
    assert_eq!(e.wait_for_gpu(0), Ok(FrameAction::Signal { slot: 0, value: 1 }));
    assert_eq!(e.wait_for_gpu(0), Ok(FrameAction::Wait { value: 1 }));
    assert_eq!(e.wait_for_gpu(1), Ok(FrameAction::Signal { slot: 1, value: 1 }));
    assert_eq!(e.wait_for_gpu(1), Ok(FrameAction::Released));
    assert_eq!(e.phase(), FramePhase::Released);
    assert_eq!(e.begin_frame(1), Err(EngineError::WrongPhase));
}

#[test]
fn arena_regions_do_not_overlap() {
    let classes = [ContentClass::PatternQuads, ContentClass::UiQuads, ContentClass::HdrText];
    let mut spans = Vec::new();
    for slot in 0..FRAME_COUNT {
        for c in classes {
            spans.push((region_offset(slot, c), region_offset(slot, c) + region_capacity(c)));
        }
    }
    spans.sort();
    for w in spans.windows(2) {
        assert!(w[0].1 <= w[1].0);
    }
    assert!(spans.last().unwrap().1 <= ARENA_SIZE);
}

#[test]
fn adapter_selection_skips_software() {
    let list = vec![
        AdapterInfo { flags: 2, supports_feature_level: true },
        AdapterInfo { flags: 0, supports_feature_level: false },
        AdapterInfo { flags: 1, supports_feature_level: true },
        AdapterInfo { flags: 0, supports_feature_level: true },
    ];
    assert_eq!(select_adapter(&list), Ok(2));
    assert_eq!(select_adapter(&list[..2].to_vec()), Err(EngineError::NoSuitableAdapter));
}
