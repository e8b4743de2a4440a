use egui_wgpu::atlas::{expand_coverage, AtlasSync, GpuTextureMirror, SyncKind, TextureAtlas};

fn atlas(version: u64, width: u32, height: u32) -> TextureAtlas {
    let pixels = (0..width * height).map(|i| (i % 251) as u8).collect();
    TextureAtlas::new(version, width, height, pixels).unwrap()
}

#[test]
fn atlas_keeps_what_it_was_made_of() {
    let a = TextureAtlas::new(7, 3, 2, vec![1, 2, 3, 4, 5, 6]).unwrap();
    assert_eq!(a.version(), 7);
    assert_eq!(a.width(), 3);
    assert_eq!(a.height(), 2);
    assert_eq!(a.pixels(), &[1, 2, 3, 4, 5, 6]);
}

#[test]
fn atlas_needs_one_value_for_each_texel() {
    assert!(TextureAtlas::new(0, 3, 2, vec![0; 5]).is_none());
    assert!(TextureAtlas::new(0, 3, 2, vec![0; 7]).is_none());
    assert!(TextureAtlas::new(0, 3, 2, vec![0; 6]).is_some());
    assert!(TextureAtlas::new(0, 0, 0, Vec::new()).is_some());
    assert!(TextureAtlas::new(0, 0, 5, Vec::new()).is_some());
}

#[test]
fn atlas_row_must_be_addressable() {
    assert!(TextureAtlas::new(0, 0x4000_0000, 0, Vec::new()).is_none());
    assert!(TextureAtlas::new(0, 0x3fff_ffff, 0, Vec::new()).is_some());
}

#[test]
fn coverage_stands_in_all_four_channels() {
    assert_eq!(expand_coverage(&[]), Vec::<u8>::new());
    assert_eq!(expand_coverage(&[0, 128, 255]), vec![0, 0, 0, 0, 128, 128, 128, 128, 255, 255, 255, 255]);
}

#[test]
fn full_upload_describes_the_whole_atlas() {
    let a = TextureAtlas::new(1, 2, 3, vec![10, 20, 30, 40, 50, 60]).unwrap();
    let upload = a.full_upload();
    assert_eq!((upload.width, upload.height), (2, 3));
    assert_eq!(upload.bytes_per_row, 8);
    assert_eq!(upload.rows_per_image, 3);
    assert_eq!(upload.pixels.len(), 24);
    assert_eq!(&upload.pixels[..8], &[10, 10, 10, 10, 20, 20, 20, 20]);
    assert_eq!(&upload.pixels[20..], &[60, 60, 60, 60]);
}

#[test]
fn new_mirror_holds_the_atlas() {
    let a = atlas(5, 4, 4);
    let (mirror, upload) = GpuTextureMirror::new(&a);
    assert_eq!(mirror, GpuTextureMirror { last_version: 5, width: 4, height: 4 });
    assert_eq!(upload.pixels, expand_coverage(a.pixels()));
}

#[test]
fn sync_with_the_same_version_does_nothing() {
    let a = atlas(5, 4, 4);
    let (mut mirror, _) = GpuTextureMirror::new(&a);
    let before = mirror;
    let action = mirror.sync(&a);
    assert_eq!(action.get_kind(), SyncKind::UpToDate);
    assert!(matches!(action, AtlasSync::UpToDate));
    assert_eq!(mirror, before);
}

#[test]
fn sync_with_another_version_writes_the_whole_atlas() {
    let (mut mirror, _) = GpuTextureMirror::new(&atlas(5, 4, 4));
    let next = atlas(6, 4, 4);
    match mirror.sync(&next) {
        AtlasSync::Upload(upload) => {
            assert_eq!(upload.pixels, expand_coverage(next.pixels()));
            assert_eq!((upload.width, upload.height, upload.bytes_per_row), (4, 4, 16));
        }
        other => panic!("expected an upload, got {:?}", other),
    }
    assert_eq!(mirror.last_version, 6);
}

#[test]
fn sync_with_another_extent_replaces_the_texture() {
    let (mut mirror, _) = GpuTextureMirror::new(&atlas(5, 4, 4));
    let grown = atlas(6, 8, 4);
    match mirror.sync(&grown) {
        AtlasSync::Replace(upload) => {
            assert_eq!((upload.width, upload.height), (8, 4));
            assert_eq!(upload.pixels.len(), 128);
        }
        other => panic!("expected a replacement, got {:?}", other),
    }
    assert_eq!(mirror, GpuTextureMirror { last_version: 6, width: 8, height: 4 });
}

#[test]
fn sync_goes_by_the_version_not_by_the_extent() {
    let (mut mirror, _) = GpuTextureMirror::new(&atlas(5, 4, 4));
    let before = mirror;
    assert_eq!(mirror.sync(&atlas(5, 8, 8)).get_kind(), SyncKind::UpToDate);
    assert_eq!(mirror, before);
}

#[test]
fn sync_writes_for_an_older_version_too() {
    let (mut mirror, _) = GpuTextureMirror::new(&atlas(5, 4, 4));
    assert_eq!(mirror.sync(&atlas(3, 4, 4)).get_kind(), SyncKind::Upload);
    assert_eq!(mirror.last_version, 3);
}

#[test]
fn one_upload_for_each_change_of_version() {
    let (mut mirror, _) = GpuTextureMirror::new(&atlas(10, 2, 2));
    let mut uploads = 0;
    for version in [11u64, 12, 13] {
        if mirror.sync(&atlas(version, 2, 2)).get_kind() != SyncKind::UpToDate {
            uploads += 1;
        }
        assert_eq!(mirror.last_version, version);
    }
    assert_eq!(uploads, 3);
    let mut uploads = 0;
    for version in [13u64, 13, 14, 14, 14, 15, 13, 13] {
        if mirror.sync(&atlas(version, 2, 2)).get_kind() != SyncKind::UpToDate {
            uploads += 1;
        }
    }
    assert_eq!(uploads, 3);
}

#[test]
fn second_sync_in_a_row_is_a_no_op() {
    let (mut mirror, _) = GpuTextureMirror::new(&atlas(1, 2, 2));
    let next = atlas(2, 2, 2);
    assert_eq!(mirror.sync(&next).get_kind(), SyncKind::Upload);
    let after_first = mirror;
    assert_eq!(mirror.sync(&next).get_kind(), SyncKind::UpToDate);
    assert_eq!(mirror, after_first);
}

#[test]
fn rebuild_writes_whatever_the_version() {
    let a = atlas(1, 2, 2);
    let (mut mirror, _) = GpuTextureMirror::new(&a);
    assert_eq!(mirror.rebuild(&a).get_kind(), SyncKind::Upload);
    assert_eq!(mirror.rebuild(&atlas(1, 4, 2)).get_kind(), SyncKind::Replace);
    assert_eq!(mirror, GpuTextureMirror { last_version: 1, width: 4, height: 2 });
}
