use hdr_test::atlas::{
    delta_is_valid, plan_atlas_uploads, row_pitch, stage_pixels, AtlasSize, ImageDelta, TextureId,
    TexturesDelta, UploadKind,
};

fn image(width: u32, height: u32, pos: Option<(u32, u32)>) -> ImageDelta {
    let pixels = (0..width * height * 4).map(|i| (i % 251) as u8 + 1).collect();
    ImageDelta { width, height, pixels, pos }
}

#[test]
fn row_pitch_aligns_to_256() {
    assert_eq!(row_pitch(0), 0);
    assert_eq!(row_pitch(1), 256);
    assert_eq!(row_pitch(64), 256);
    assert_eq!(row_pitch(65), 512);
    assert_eq!(row_pitch(2048), 8192);
}

#[test]
fn staging_pads_rows() {
    let img = image(3, 2, None);
    let staged = stage_pixels(&img.pixels, 3, 2);
    assert_eq!(staged.len(), 512);
    assert_eq!(&staged[0..12], &img.pixels[0..12]);
    assert!(staged[12..256].iter().all(|&b| b == 0));
    assert_eq!(&staged[256..268], &img.pixels[12..24]);
    assert!(staged[268..512].iter().all(|&b| b == 0));
}

#[test]
fn partial_before_full_is_dropped() {
    let delta = TexturesDelta { set: vec![(TextureId::Managed(0), image(4, 4, Some((2, 3))))] };
    let (atlas, ups) = plan_atlas_uploads(None, &delta);
    assert!(atlas.is_none());
    assert!(ups.is_empty());
}

#[test]
fn full_then_partial_in_one_delta() {
    let delta = TexturesDelta {
        set: vec![
            (TextureId::Managed(0), image(8, 2, Some((1, 1)))),
            (TextureId::Managed(0), image(16, 8, None)),
            (TextureId::Managed(0), image(2, 2, Some((5, 6)))),
        ],
    };
    let (atlas, ups) = plan_atlas_uploads(None, &delta);
    assert_eq!(atlas, Some(AtlasSize { width: 16, height: 8 }));
    assert_eq!(ups.len(), 2);
    assert_eq!(ups[0].kind, UploadKind::Full);
    assert_eq!((ups[0].dest_x, ups[0].dest_y, ups[0].width, ups[0].height), (0, 0, 16, 8));
    assert_eq!(ups[0].row_pitch, 256);
    assert_eq!(ups[0].staging.len(), 256 * 8);
    assert_eq!(ups[1].kind, UploadKind::Partial);
    assert_eq!((ups[1].dest_x, ups[1].dest_y, ups[1].width, ups[1].height), (5, 6, 2, 2));
}

#[test]
fn other_textures_are_ignored() {
    let delta = TexturesDelta {
        set: vec![
            (TextureId::Managed(1), image(4, 4, None)),
            (TextureId::User(0), image(4, 4, None)),
        ],
    };
    let (atlas, ups) = plan_atlas_uploads(Some(AtlasSize { width: 2, height: 2 }), &delta);
    assert_eq!(atlas, Some(AtlasSize { width: 2, height: 2 }));
    assert!(ups.is_empty());
}

#[test]
fn malformed_image_is_detected() {
    let mut bad = image(4, 4, None);
    bad.pixels.pop();
    let delta = TexturesDelta { set: vec![(TextureId::Managed(0), bad.clone())] };
    assert!(!delta_is_valid(&delta));
    let ignored = TexturesDelta { set: vec![(TextureId::Managed(3), bad)] };
    assert!(delta_is_valid(&ignored));
}
