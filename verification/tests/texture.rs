use egui_vulkano::{expand_pixels, upload_for, FrameState, Painter, UpdateSetError};
use epaint::Texture;
use vulkano::image::view::ImageViewCreationError;

fn atlas(version: u64, width: usize, height: usize, pixels: Vec<u8>) -> Texture {
    Texture { version, width, height, pixels }
}

#[test]
fn pixels_are_replicated_into_four_channels() {
    assert_eq!(
        expand_pixels(&vec![10, 20, 30, 40]),
        vec![10, 10, 10, 10, 20, 20, 20, 20, 30, 30, 30, 30, 40, 40, 40, 40]
    );
}

#[test]
fn no_pixels_expand_to_no_bytes() {
    assert_eq!(expand_pixels(&Vec::new()), Vec::<u8>::new());
}

#[test]
fn upload_carries_version_size_and_bytes() {
    let upload = upload_for(&atlas(7, 3, 1, vec![0, 255, 9]));
    assert_eq!(upload.version, 7);
    assert_eq!((upload.width, upload.height), (3, 1));
    assert_eq!(upload.data, vec![0, 0, 0, 0, 255, 255, 255, 255, 9, 9, 9, 9]);
}

#[test]
fn new_atlas_version_asks_for_upload() {
    let mut painter: Painter<u32> = Painter::new();
    assert_eq!(painter.texture_version, 0);
    let upload = painter.update_set(&atlas(1, 2, 2, vec![10, 20, 30, 40])).unwrap();
    assert_eq!(upload.version, 1);
    assert_eq!((upload.width, upload.height), (2, 2));
    assert_eq!(upload.data.len(), 16);
    assert_eq!(&upload.data[0..4], &[10, 10, 10, 10]);
    assert_eq!(&upload.data[12..16], &[40, 40, 40, 40]);
    assert_eq!(painter.texture_version, 0);
    assert!(painter.set.is_none());
    assert_eq!(painter.state, FrameState::Idle);
}

#[test]
fn first_frame_uploads_even_at_version_zero() {
    let mut painter: Painter<u32> = Painter::new();
    assert!(painter.update_set(&atlas(0, 1, 1, vec![5])).is_some());
}

#[test]
fn unchanged_atlas_is_uploaded_once() {
    let texture = atlas(1, 2, 2, vec![10, 20, 30, 40]);
    let mut painter: Painter<u32> = Painter::new();
    let upload = painter.update_set(&texture).unwrap();
    assert!(painter.install_set(upload.version, Ok(11)).is_ok());
    assert_eq!(painter.texture_version, 1);
    assert_eq!(painter.set, Some(11));
    assert_eq!(painter.state, FrameState::TextureSynced);
    assert!(painter.update_set(&texture).is_none());
    assert_eq!(painter.state, FrameState::TextureSynced);
    assert!(painter.update_set(&texture).is_none());
    assert_eq!(painter.set, Some(11));
    assert_eq!(painter.texture_version, 1);
}

#[test]
fn changed_atlas_replaces_the_binding() {
    let mut painter: Painter<u32> = Painter::new();
    painter.update_set(&atlas(1, 1, 1, vec![1])).unwrap();
    painter.install_set(1, Ok(11)).unwrap();
    let upload = painter.update_set(&atlas(2, 1, 1, vec![2])).unwrap();
    assert_eq!(upload.data, vec![2, 2, 2, 2]);
    assert_eq!(painter.set, Some(11));
    painter.install_set(upload.version, Ok(22)).unwrap();
    assert_eq!(painter.set, Some(22));
    assert_eq!(painter.texture_version, 2);
}

#[test]
fn failed_upload_keeps_binding_and_version() {
    let mut painter: Painter<u32> = Painter::new();
    painter.update_set(&atlas(1, 1, 1, vec![1])).unwrap();
    painter.install_set(1, Ok(11)).unwrap();
    let newer = atlas(2, 1, 1, vec![2]);
    let upload = painter.update_set(&newer).unwrap();
    let failure = UpdateSetError::CreateImageViewFailed(ImageViewCreationError::IncompatibleType);
    let result = painter.install_set(upload.version, Err(failure));
    assert!(matches!(
        result,
        Err(UpdateSetError::CreateImageViewFailed(ImageViewCreationError::IncompatibleType))
    ));
    assert_eq!(painter.set, Some(11));
    assert_eq!(painter.texture_version, 1);
    assert_eq!(painter.state, FrameState::Idle);
    assert!(painter.update_set(&newer).is_some());
}

#[test]
fn failed_first_upload_leaves_no_binding() {
    let mut painter: Painter<u32> = Painter::new();
    let upload = painter.update_set(&atlas(3, 1, 1, vec![1])).unwrap();
    let failure = UpdateSetError::CreateImageViewFailed(ImageViewCreationError::InvalidImageUsage);
    assert!(painter.install_set(upload.version, Err(failure)).is_err());
    assert!(painter.set.is_none());
    assert_eq!(painter.texture_version, 0);
    assert_eq!(painter.state, FrameState::Idle);
}

#[test]
fn upload_dimensions_are_cut_to_32_bits() {
    let wide = u32::MAX as usize + 6;
    let upload = upload_for(&atlas(1, wide, 3, vec![]));
    assert_eq!((upload.width, upload.height), (5, 3));
    assert!(upload.data.is_empty());
}
