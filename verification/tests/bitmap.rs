use std::sync::Arc;

use texture_canvas::bitmap::{bitmap, upload_due, Bitmap, PixmapMut, PixmapRef, SurfaceError};

fn pixel(bytes: [u8; 4]) -> u32 {
    u32::from_ne_bytes(bytes)
}

fn was_modified(image: &Bitmap) -> bool {
    let mut ran = false;
    image.surface().run_if_modified(|_, _, _| ran = true);
    ran
}

#[test]
fn new_bitmap_is_blank() {
    let image = Bitmap::new(3, 2).unwrap();
    assert_eq!(image.width(), 3);
    assert_eq!(image.height(), 2);
    assert_eq!(image.buffer(), &[0u32; 6]);
    assert_eq!(image.raw(), &[0u8; 24]);
}

#[test]
fn buffer_holds_one_pixel_per_cell() {
    for (width, height) in [(1u32, 1u32), (1, 7), (7, 1), (5, 4), (256, 192)] {
        let image = Bitmap::new(width, height).unwrap();
        assert_eq!(image.buffer().len(), (width * height) as usize);
        assert_eq!(image.raw().len(), (width * height * 4) as usize);
    }
}

#[test]
fn new_bitmap_is_not_modified() {
    let image = Bitmap::new(2, 2).unwrap();
    assert!(!was_modified(&image));
}

#[test]
fn zero_width_is_refused() {
    assert!(matches!(Bitmap::new(0, 5), Err(SurfaceError::InvalidDimensions)));
    assert!(matches!(bitmap(0, 5), Err(SurfaceError::InvalidDimensions)));
}

#[test]
fn zero_height_is_refused() {
    assert!(matches!(Bitmap::new(5, 0), Err(SurfaceError::InvalidDimensions)));
    assert!(matches!(bitmap(5, 0), Err(SurfaceError::InvalidDimensions)));
}

#[test]
fn zero_by_zero_is_refused() {
    assert!(matches!(Bitmap::new(0, 0), Err(SurfaceError::InvalidDimensions)));
}

#[test]
fn bitmap_fn_makes_a_blank_image() {
    let image = bitmap(4, 3).unwrap();
    assert_eq!((image.width(), image.height()), (4, 3));
    assert_eq!(image.buffer(), &[0u32; 12]);
}

#[test]
fn update_replaces_every_pixel() {
    let mut image = Bitmap::new(2, 1).unwrap();
    let data = [1u8, 2, 3, 4, 5, 6, 7, 8];
    assert_eq!(image.update(&data), Ok(()));
    assert_eq!(image.raw(), &data);
    assert_eq!(image.buffer(), &[pixel([1, 2, 3, 4]), pixel([5, 6, 7, 8])]);
    assert_eq!((image.width(), image.height()), (2, 1));
}

#[test]
fn update_refuses_too_few_bytes() {
    let mut image = Bitmap::new(2, 1).unwrap();
    image.update(&[9u8; 8]).unwrap();
    assert!(was_modified(&image));
    assert_eq!(image.update(&[1u8; 7]), Err(SurfaceError::SizeMismatch));
    assert_eq!(image.raw(), &[9u8; 8]);
    assert!(!was_modified(&image));
}

#[test]
fn update_refuses_too_many_bytes() {
    let mut image = Bitmap::new(2, 1).unwrap();
    assert_eq!(image.update(&[1u8; 12]), Err(SurfaceError::SizeMismatch));
    assert_eq!(image.update(&[]), Err(SurfaceError::SizeMismatch));
    assert_eq!(image.raw(), &[0u8; 8]);
}

#[test]
fn new_init_holds_the_data() {
    let data = [10u8, 20, 30, 40, 50, 60, 70, 80, 90, 100, 110, 120];
    let image = Bitmap::new_init(1, 3, &data).unwrap();
    assert_eq!((image.width(), image.height()), (1, 3));
    assert_eq!(image.raw(), &data);
    assert_eq!(
        image.buffer(),
        &[pixel([10, 20, 30, 40]), pixel([50, 60, 70, 80]), pixel([90, 100, 110, 120])]
    );
}

#[test]
fn new_init_refuses_a_wrong_length() {
    assert!(matches!(Bitmap::new_init(2, 2, &[0u8; 15]), Err(SurfaceError::SizeMismatch)));
    assert!(matches!(Bitmap::new_init(2, 2, &[0u8; 4]), Err(SurfaceError::SizeMismatch)));
    assert!(matches!(Bitmap::new_init(0, 2, &[0u8; 4]), Err(SurfaceError::SizeMismatch)));
}

#[test]
fn new_init_refuses_an_empty_image() {
    assert!(matches!(Bitmap::new_init(0, 2, &[]), Err(SurfaceError::InvalidDimensions)));
    assert!(matches!(Bitmap::new_init(2, 0, &[]), Err(SurfaceError::InvalidDimensions)));
}

#[test]
fn resize_to_more_fills_with_zeros() {
    let mut image = Bitmap::new_init(2, 1, &[1, 1, 1, 1, 2, 2, 2, 2]).unwrap();
    assert_eq!(image.resize(2, 2), Ok(()));
    assert_eq!((image.width(), image.height()), (2, 2));
    assert_eq!(image.buffer(), &[pixel([1; 4]), pixel([2; 4]), 0, 0]);
}

#[test]
fn resize_to_less_cuts_the_end() {
    let mut image =
        Bitmap::new_init(3, 1, &[1, 1, 1, 1, 2, 2, 2, 2, 3, 3, 3, 3]).unwrap();
    assert_eq!(image.resize(1, 2), Ok(()));
    assert_eq!((image.width(), image.height()), (1, 2));
    assert_eq!(image.buffer(), &[pixel([1; 4]), pixel([2; 4])]);
}

#[test]
fn resize_to_the_same_size_changes_nothing() {
    let mut image = Bitmap::new_init(1, 2, &[1, 2, 3, 4, 5, 6, 7, 8]).unwrap();
    assert_eq!(image.resize(1, 2), Ok(()));
    assert_eq!((image.width(), image.height()), (1, 2));
    assert_eq!(image.raw(), &[1, 2, 3, 4, 5, 6, 7, 8]);
}

#[test]
fn resize_to_the_same_count_keeps_the_pixels() {
    let mut image = Bitmap::new_init(1, 2, &[1, 2, 3, 4, 5, 6, 7, 8]).unwrap();
    assert_eq!(image.resize(2, 1), Ok(()));
    assert_eq!((image.width(), image.height()), (2, 1));
    assert_eq!(image.raw(), &[1, 2, 3, 4, 5, 6, 7, 8]);
}

#[test]
fn resize_refuses_zero() {
    let mut image = Bitmap::new_init(1, 2, &[1, 2, 3, 4, 5, 6, 7, 8]).unwrap();
    assert_eq!(image.resize(0, 2), Err(SurfaceError::InvalidDimensions));
    assert_eq!(image.resize(3, 0), Err(SurfaceError::InvalidDimensions));
    assert_eq!((image.width(), image.height()), (1, 2));
    assert_eq!(image.raw(), &[1, 2, 3, 4, 5, 6, 7, 8]);
}

#[test]
fn buffer_mut_writes_pixels() {
    let mut image = Bitmap::new(2, 2).unwrap();
    image.buffer_mut()[3] = pixel([4, 3, 2, 1]);
    assert_eq!(image.buffer(), &[0, 0, 0, pixel([4, 3, 2, 1])]);
    assert_eq!(&image.raw()[12..], &[4, 3, 2, 1]);
}

#[test]
fn raw_mut_writes_bytes() {
    let mut image = Bitmap::new(2, 1).unwrap();
    image.raw_mut()[5] = 0xAB;
    assert_eq!(image.raw(), &[0, 0, 0, 0, 0, 0xAB, 0, 0]);
    assert_eq!(image.buffer(), &[0, pixel([0, 0xAB, 0, 0])]);
}

#[test]
fn surface_shows_what_the_bitmap_holds() {
    let mut image = Bitmap::new(1, 1).unwrap();
    image.update(&[7, 8, 9, 10]).unwrap();
    let surface = image.surface();
    assert_eq!((surface.width(), surface.height()), (1, 1));
    assert_eq!(surface.raw(), &[7, 8, 9, 10]);
    assert_eq!(surface.buffer(), &[pixel([7, 8, 9, 10])]);
}

#[test]
fn mutable_access_marks_modified_without_a_write() {
    let mut image = Bitmap::new(1, 1).unwrap();
    let _ = image.buffer_mut();
    assert!(was_modified(&image));
    let _ = image.raw_mut();
    assert!(was_modified(&image));
}

#[test]
fn modified_is_seen_once() {
    let mut image = Bitmap::new(2, 2).unwrap();
    image.update(&[5u8; 16]).unwrap();
    assert!(was_modified(&image));
    assert!(!was_modified(&image));
    assert!(!was_modified(&image));
}

#[test]
fn modified_image_hands_over_its_bytes() {
    let mut image = Bitmap::new(256, 192).unwrap();
    image.update(&vec![0u8; 256 * 192 * 4]).unwrap();
    assert!(was_modified(&image));
    assert!(!was_modified(&image));

    let mut data = vec![0u8; 256 * 192 * 4];
    data[0] = 0xFF;
    image.update(&data).unwrap();

    let mut seen = None;
    image
        .surface()
        .run_if_modified(|width, height, bytes| seen = Some((width, height, bytes[0], bytes.len())));
    assert_eq!(seen, Some((256, 192, 0xFF, 256 * 192 * 4)));
    assert!(!was_modified(&image));
}

#[test]
fn forced_run_hands_over_a_clean_image() {
    let image = Bitmap::new_init(2, 1, &[1, 2, 3, 4, 5, 6, 7, 8]).unwrap();
    assert!(was_modified(&image));
    let mut seen = None;
    image.surface().run_if_modified_or(true, |pixmap: PixmapRef| {
        seen = Some((pixmap.width, pixmap.height, pixmap.buffer.to_vec()))
    });
    assert_eq!(seen, Some((2, 1, vec![pixel([1, 2, 3, 4]), pixel([5, 6, 7, 8])])));
}

#[test]
fn forced_run_takes_notice() {
    let mut image = Bitmap::new(1, 1).unwrap();
    image.update(&[1, 2, 3, 4]).unwrap();
    let mut ran = false;
    image.surface().run_if_modified_or(true, |_| ran = true);
    assert!(ran);
    assert!(!was_modified(&image));
}

#[test]
fn unforced_run_goes_by_the_flag() {
    let mut image = Bitmap::new(1, 1).unwrap();
    let mut ran = false;
    image.surface().run_if_modified_or(false, |_| ran = true);
    assert!(!ran);
    image.buffer_mut()[0] = 1;
    image.surface().run_if_modified_or(false, |_| ran = true);
    assert!(ran);
}

#[test]
fn upload_is_due_when_forced_or_found_set() {
    assert!(upload_due(false, Ok(true)));
    assert!(upload_due(true, Ok(true)));
    assert!(upload_due(true, Err(false)));
    assert!(upload_due(true, Ok(false)));
    assert!(upload_due(true, Err(true)));
    assert!(!upload_due(false, Err(false)));
    assert!(!upload_due(false, Err(true)));
    assert!(!upload_due(false, Ok(false)));
}

#[test]
fn clone_has_pixels_of_its_own() {
    let mut image = Bitmap::new_init(1, 1, &[1, 2, 3, 4]).unwrap();
    let copy = image.clone();
    assert!(!Arc::ptr_eq(image.surface(), copy.surface()));
    image.update(&[9, 9, 9, 9]).unwrap();
    assert_eq!(copy.raw(), &[1, 2, 3, 4]);
    assert_eq!(image.raw(), &[9, 9, 9, 9]);
}

#[test]
fn clone_counts_as_modified_like_its_source() {
    let mut image = Bitmap::new(1, 1).unwrap();
    assert!(!was_modified(&image.clone()));
    image.update(&[1, 2, 3, 4]).unwrap();
    let copy = image.clone();
    assert!(was_modified(&copy));
    assert!(was_modified(&image));
}

#[test]
fn write_leaves_a_shared_surface_as_it_was() {
    let mut image = Bitmap::new_init(1, 1, &[1, 2, 3, 4]).unwrap();
    let held = Arc::clone(image.surface());
    image.buffer_mut()[0] = pixel([5, 6, 7, 8]);
    assert_eq!(held.raw(), &[1, 2, 3, 4]);
    assert_eq!(image.raw(), &[5, 6, 7, 8]);
    assert!(!Arc::ptr_eq(image.surface(), &held));
}

#[test]
fn write_to_an_unshared_surface_stays_in_place() {
    let mut image = Bitmap::new(1, 1).unwrap();
    let before = Arc::as_ptr(image.surface());
    image.buffer_mut()[0] = 1;
    assert_eq!(Arc::as_ptr(image.surface()), before);
    assert_eq!(image.buffer(), &[1]);
}

#[test]
fn weak_reference_ends_with_the_bitmap() {
    let image = Bitmap::new(1, 1).unwrap();
    let weak = Arc::downgrade(image.surface());
    assert!(weak.upgrade().is_some());
    drop(image);
    assert!(weak.upgrade().is_none());
}

#[test]
fn errors_compare_and_print() {
    assert_ne!(SurfaceError::InvalidDimensions, SurfaceError::SizeMismatch);
    assert_eq!(format!("{:?}", SurfaceError::SizeMismatch), "SizeMismatch");
}

#[test]
fn pixmap_ref_shows_the_image() {
    let image = Bitmap::new_init(2, 1, &[1, 2, 3, 4, 5, 6, 7, 8]).unwrap();
    let PixmapRef { buffer, width, height } = image.pixmap_ref();
    assert_eq!((width, height), (2, 1));
    assert_eq!(buffer, &[pixel([1, 2, 3, 4]), pixel([5, 6, 7, 8])]);
}

#[test]
fn pixmap_mut_writes_pixels_and_marks_modified() {
    let mut image = Bitmap::new(1, 2).unwrap();
    let PixmapMut { buffer, width, height } = image.pixmap_mut();
    assert_eq!((width, height), (1, 2));
    buffer[1] = pixel([8, 7, 6, 5]);
    assert_eq!(image.buffer(), &[0, pixel([8, 7, 6, 5])]);
    assert!(was_modified(&image));
}
