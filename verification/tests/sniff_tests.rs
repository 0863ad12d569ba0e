use simple_comics_viewer::utils::{
    detect_file_type_from_bytes, get_current_unixtime, get_value_with_option_from_ref_cell_option,
    FileType,
};

#[test]
fn detects_jpeg_prefix() {
    let bytes = [0xFFu8, 0xD8, 0xFF, 0xE0, 0x00];
    assert_eq!(detect_file_type_from_bytes(&bytes), FileType::JPG);
}

#[test]
fn detects_png_prefix() {
    let bytes = [0x89u8, 0x50, 0x4E, 0x47, 0x0D];
    assert_eq!(detect_file_type_from_bytes(&bytes), FileType::PNG);
}

#[test]
fn detects_zip_prefix() {
    let bytes = [0x50u8, 0x4B, 0x03, 0x04, 0x14];
    assert_eq!(detect_file_type_from_bytes(&bytes), FileType::ZIP);
}

#[test]
fn detects_spanned_zip_prefix() {
    let bytes = [0x50u8, 0x4B, 0x07, 0x08, 0x00];
    assert_eq!(detect_file_type_from_bytes(&bytes), FileType::SpannedZip);
}

#[test]
fn detects_pdf_prefix() {
    let bytes = b"%PDF-1.7\n";
    assert_eq!(detect_file_type_from_bytes(bytes), FileType::PDF);
}

#[test]
fn short_buffer_is_none_even_with_jpeg_magic() {
    let bytes = [0xFFu8, 0xD8, 0xFF];
    assert_eq!(detect_file_type_from_bytes(&bytes), FileType::NONE);
}

#[test]
fn unrecognized_content_is_none_not_an_error() {
    assert_eq!(detect_file_type_from_bytes(b"hello world"), FileType::NONE);
    assert_eq!(detect_file_type_from_bytes(&[]), FileType::NONE);
}

#[test]
fn current_unixtime_is_available() {
    let t = get_current_unixtime();
    assert!(t.is_some());
    assert!(t.unwrap() > 0);
}

#[test]
fn ref_cell_helper_maps_present_value() {
    let cell = std::cell::RefCell::new(Some(21i32));
    let r = get_value_with_option_from_ref_cell_option(&cell, |x| x * 2);
    assert_eq!(r, Some(42));
}

#[test]
fn ref_cell_helper_tolerates_a_conflicting_borrow() {
    let cell = std::cell::RefCell::new(Some(5i32));
    let guard = cell.borrow_mut();
    let r = get_value_with_option_from_ref_cell_option(&cell, |x| *x);
    assert_eq!(r, None);
    drop(guard);
    let r = get_value_with_option_from_ref_cell_option(&cell, |x| *x);
    assert_eq!(r, Some(5));
}

#[test]
fn ref_cell_helper_passes_none_through() {
    let cell: std::cell::RefCell<Option<i32>> = std::cell::RefCell::new(None);
    let r = get_value_with_option_from_ref_cell_option(&cell, |x| x * 2);
    assert_eq!(r, None);
}
