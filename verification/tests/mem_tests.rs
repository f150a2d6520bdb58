use proy::mem::{
    align, align_i32, align_usize, fits_i32, fits_u8, is_aligned, is_page_aligned, log2,
    page_align, ptr_width, ptr_width_usize, Access,
};

#[test]
fn test_log2() {
    for i in 0..32 {
        assert_eq!(i, log2(1 << i));
    }
}

#[test]
fn test_is_page_aligned() {
    let p = 4096;

    assert_eq!(false, is_page_aligned(1, p));
    assert_eq!(false, is_page_aligned(2, p));
    assert_eq!(false, is_page_aligned(64, p));
    assert_eq!(true, is_page_aligned(p, p));
    assert_eq!(true, is_page_aligned(2 * p, p));
    assert_eq!(true, is_page_aligned(3 * p, p));
}

#[test]
fn test_page_align() {
    let p = 4096;

    assert_eq!(p, page_align(1, p));
    assert_eq!(p, page_align(p - 1, p));
    assert_eq!(p, page_align(p, p));
    assert_eq!(2 * p, page_align(p + 1, p));
}

#[test]
fn test_page_align_zero() {
    assert_eq!(0, page_align(0, 4096));
}

#[test]
fn test_log2_inexact_values() {
    assert_eq!(1, log2(3));
    assert_eq!(2, log2(4));
    assert_eq!(2, log2(7));
    assert_eq!(9, log2(1000));
    assert_eq!(31, log2(u32::MAX as usize));
}

#[test]
fn test_align_u32() {
    assert_eq!(7, align(7, 0));
    assert_eq!(0, align(0, 8));
    assert_eq!(8, align(1, 8));
    assert_eq!(8, align(8, 8));
    assert_eq!(16, align(9, 8));
    assert_eq!(9, align(7, 3));
}

#[test]
fn test_align_i32_values() {
    assert_eq!(7, align_i32(7, 0));
    assert_eq!(8, align_i32(1, 8));
    assert_eq!(8, align_i32(8, 8));
    assert_eq!(16, align_i32(9, 8));
}

#[test]
fn test_align_usize_values() {
    assert_eq!(7, align_usize(7, 0));
    assert_eq!(0, align_usize(0, 4));
    assert_eq!(4, align_usize(1, 4));
    assert_eq!(4, align_usize(4, 4));
    assert_eq!(8, align_usize(5, 4));
}

#[test]
fn test_is_aligned_values() {
    assert_eq!(true, is_aligned(5, 0));
    assert_eq!(true, is_aligned(0, 4));
    assert_eq!(false, is_aligned(3, 4));
    assert_eq!(true, is_aligned(8, 4));
}

#[test]
fn test_fits_u8_edges() {
    assert_eq!(false, fits_u8(-1));
    assert_eq!(true, fits_u8(0));
    assert_eq!(true, fits_u8(255));
    assert_eq!(false, fits_u8(256));
}

#[test]
fn test_fits_i32_edges() {
    assert_eq!(true, fits_i32(i32::MIN as i64));
    assert_eq!(false, fits_i32(i32::MIN as i64 - 1));
    assert_eq!(true, fits_i32(i32::MAX as i64));
    assert_eq!(false, fits_i32(i32::MAX as i64 + 1));
    assert_eq!(true, fits_i32(0));
}

#[test]
fn test_ptr_widths() {
    assert_eq!(8, ptr_width());
    assert_eq!(8, ptr_width_usize());
}

#[test]
fn test_access_is_none() {
    assert!(Access::NoAccess.is_none());
    assert!(!Access::Read.is_none());
    assert!(!Access::ReadWrite.is_none());
    assert!(!Access::ReadExecutable.is_none());
    assert!(!Access::ReadWriteExecutable.is_none());
}
