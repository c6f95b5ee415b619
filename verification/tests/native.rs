use gdal::errors::RasterError;
use gdal::native::{
    c_int_from_isize, c_int_from_usize, c_string_bytes, extent, raster_size, write_status,
    Diagnostic, CE_FAILURE, CE_NONE, CPLE_ILLEGAL_ARG, GA_READ_ONLY, GF_READ, GF_WRITE,
};

fn diagnostic(number: i32, msg: &str) -> Diagnostic {
    Diagnostic { number, msg: msg.to_string() }
}

#[test]
fn native_constants() {
    assert_eq!(CE_NONE, 0);
    assert_eq!(CE_FAILURE, 3);
    assert_eq!(CPLE_ILLEGAL_ARG, 5);
    assert_eq!(GA_READ_ONLY, 0);
    assert_eq!(GF_READ, 0);
    assert_eq!(GF_WRITE, 1);
}

#[test]
fn offsets_narrow_within_the_native_range() {
    assert_eq!(c_int_from_isize(0), Some(0));
    assert_eq!(c_int_from_isize(-1), Some(-1));
    assert_eq!(c_int_from_isize(2147483647), Some(i32::MAX));
    assert_eq!(c_int_from_isize(-2147483648), Some(i32::MIN));
}

#[test]
fn offsets_beyond_the_native_range_are_refused() {
    assert_eq!(c_int_from_isize(2147483648), None);
    assert_eq!(c_int_from_isize(-2147483649), None);
    assert_eq!(c_int_from_isize(isize::MAX), None);
    assert_eq!(c_int_from_isize(isize::MIN), None);
    assert_eq!(c_int_from_isize(4294967297), None);
}

#[test]
fn extents_narrow_within_the_native_range() {
    assert_eq!(c_int_from_usize(0), Some(0));
    assert_eq!(c_int_from_usize(4), Some(4));
    assert_eq!(c_int_from_usize(2147483647), Some(i32::MAX));
    assert_eq!(c_int_from_usize(2147483648), None);
    assert_eq!(c_int_from_usize(usize::MAX), None);
}

#[test]
fn native_extents_widen() {
    assert_eq!(extent(0), 0);
    assert_eq!(extent(512), 512);
    assert_eq!(extent(i32::MAX), 2147483647);
    assert_eq!(extent(-1), 0);
    assert_eq!(extent(i32::MIN), 0);
    assert_eq!(raster_size(100, 50), (100, 50));
    assert_eq!(raster_size(-3, 50), (0, 50));
}

#[test]
fn strings_without_zero_bytes_pass() {
    assert_eq!(c_string_bytes("fixtures/tinymarble.png"), Ok(b"fixtures/tinymarble.png".to_vec()));
    assert_eq!(c_string_bytes(""), Ok(Vec::new()));
    assert_eq!(c_string_bytes("é√"), Ok("é√".as_bytes().to_vec()));
}

#[test]
fn strings_with_a_zero_byte_give_its_position() {
    assert_eq!(c_string_bytes("\0"), Err(0));
    assert_eq!(c_string_bytes("ab\0cd"), Err(2));
    assert_eq!(c_string_bytes("ab\0cd\0"), Err(2));
    assert_eq!(c_string_bytes("abcd\0"), Err(4));
    assert_eq!(c_string_bytes("é\0"), Err(2));
}

#[test]
fn write_status_reads_the_class() {
    assert_eq!(write_status(0, diagnostic(0, "")), Ok(()));
    assert_eq!(write_status(0, diagnostic(7, "stale")), Ok(()));
    assert_eq!(
        write_status(3, diagnostic(6, "not supported")),
        Err(RasterError::NativeWriteError { class: 3, number: 6, msg: "not supported".to_string() })
    );
    assert_eq!(
        write_status(2, diagnostic(1, "warned")),
        Err(RasterError::NativeWriteError { class: 2, number: 1, msg: "warned".to_string() })
    );
}
