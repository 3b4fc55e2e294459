use fdt::binding::{declared_len, has_header, validate_bytes, Fdt, FDT_V1_SIZE};
use fdt::error::Error;

fn numbered(len: usize) -> Vec<u8> {
    let mut v = Vec::new();
    for i in 0..len {
        v.push((i % 251) as u8);
    }
    v
}

#[test]
fn header_size_is_seven_words() {
    assert_eq!(FDT_V1_SIZE, 28);
}

#[test]
fn has_header_at_the_boundary() {
    assert!(!has_header(&numbered(0)));
    assert!(!has_header(&numbered(27)));
    assert!(has_header(&numbered(28)));
    assert!(has_header(&numbered(29)));
}

#[test]
fn validation_rejects_empty_input() {
    assert!(matches!(validate_bytes(&[], 0), Err(Error::Invalid)));
}

#[test]
fn validation_rejects_short_input() {
    let data = numbered(27);
    assert!(matches!(validate_bytes(&data, 27), Err(Error::Invalid)));
    assert!(matches!(validate_bytes(&data, 0), Err(Error::Invalid)));
    assert!(matches!(Fdt::from_bytes(&data, 10), Err(Error::Invalid)));
}

#[test]
fn validation_rejects_short_input_before_looking_at_the_size() {
    let data = numbered(5);
    assert!(matches!(validate_bytes(&data, -1), Err(Error::Invalid)));
    assert!(matches!(Fdt::from_bytes(&data, i32::MIN), Err(Error::Invalid)));
}

#[test]
fn validation_rejects_inflated_size() {
    let data = numbered(40);
    assert!(matches!(validate_bytes(&data, 41), Err(Error::Invalid)));
    assert!(matches!(Fdt::from_bytes(&data, 41), Err(Error::Invalid)));
    assert!(matches!(Fdt::from_bytes(&data, i32::MAX), Err(Error::Invalid)));
}

#[test]
fn validation_rejects_negative_size_as_conversion_failure() {
    let data = numbered(40);
    assert!(matches!(validate_bytes(&data, -1), Err(Error::TryFromInt(_))));
    assert!(matches!(Fdt::from_bytes(&data, -1), Err(Error::TryFromInt(_))));
    assert!(matches!(Fdt::from_bytes(&data, i32::MIN), Err(Error::TryFromInt(_))));
}

#[test]
fn validation_hands_back_the_same_bytes() {
    let data = numbered(40);
    let out = validate_bytes(&data, 32).unwrap();
    assert_eq!(out, &data[..]);
    assert_eq!(out.as_ptr(), data.as_ptr());
}

#[test]
fn validation_accepts_exact_size() {
    let data = numbered(28);
    let fdt = Fdt::from_bytes(&data, 28).unwrap();
    assert_eq!(fdt.len(), 28);
    assert_eq!(fdt.as_bytes(), &data[..]);
}

#[test]
fn view_length_is_declared_not_physical() {
    let data = numbered(64);
    let fdt = Fdt::from_bytes(&data, 40).unwrap();
    assert_eq!(fdt.len(), 40);
    assert_eq!(fdt.as_bytes().len(), 40);
    assert_eq!(fdt.as_bytes(), &data[..40]);
}

#[test]
fn view_borrows_without_copying() {
    let data = numbered(64);
    let fdt = Fdt::from_bytes(&data, 40).unwrap();
    assert_eq!(fdt.as_bytes().as_ptr(), data.as_ptr());
}

#[test]
fn declared_size_may_be_smaller_than_a_header() {
    let data = numbered(28);
    let fdt = Fdt::from_bytes(&data, 0).unwrap();
    assert_eq!(fdt.len(), 0);
    assert!(fdt.as_bytes().is_empty());
}

#[test]
fn unchecked_view_over_short_bytes_is_made() {
    let data = numbered(4);
    assert!(matches!(Fdt::from_bytes(&data, 4), Err(Error::Invalid)));
    let fdt = Fdt::from_bytes_unchecked(&data, 4);
    assert_eq!(fdt.len(), 4);
    assert_eq!(fdt.as_bytes(), &data[..]);
}

#[test]
fn unchecked_view_over_inflated_claim_is_made() {
    let data = numbered(30);
    assert!(matches!(Fdt::from_bytes(&data, 31), Err(Error::Invalid)));
    let fdt = Fdt::from_bytes_unchecked(&data, 31);
    assert_eq!(fdt.len(), 31);
}

#[test]
fn unchecked_view_of_valid_bytes_equals_checked_view() {
    let data = numbered(50);
    let checked = Fdt::from_bytes(&data, 33).unwrap();
    let unchecked = Fdt::from_bytes_unchecked(&data, 33);
    assert_eq!(checked.len(), unchecked.len());
    assert_eq!(checked.as_bytes(), unchecked.as_bytes());
}

#[test]
fn mutable_view_rejects_what_the_shared_one_rejects() {
    let mut short = numbered(27);
    assert!(matches!(Fdt::from_bytes_mut(&mut short, 27), Err(Error::Invalid)));
    assert_eq!(short, numbered(27));
    let mut data = numbered(40);
    assert!(matches!(Fdt::from_bytes_mut(&mut data, 41), Err(Error::Invalid)));
    assert!(matches!(Fdt::from_bytes_mut(&mut data, -7), Err(Error::TryFromInt(_))));
    assert_eq!(data, numbered(40));
}

#[test]
fn mutable_view_writes_reach_the_bytes() {
    let mut data = numbered(40);
    {
        let mut fdt = Fdt::from_bytes_mut(&mut data, 30).unwrap();
        let bytes = fdt.as_bytes_mut();
        assert_eq!(bytes.len(), 30);
        bytes[0] = 0xAA;
        bytes[29] = 0xBB;
    }
    let mut expected = numbered(40);
    expected[0] = 0xAA;
    expected[29] = 0xBB;
    assert_eq!(data, expected);
}

#[test]
fn mutable_view_keeps_its_size_after_writes() {
    let mut data = numbered(40);
    let mut fdt = Fdt::from_bytes_mut(&mut data, 30).unwrap();
    fdt.as_bytes_mut()[4] = 0xFF;
    let shared = fdt.as_fdt();
    assert_eq!(shared.len(), 30);
    assert_eq!(shared.as_bytes()[4], 0xFF);
    assert_eq!(shared.as_bytes().len(), 30);
}

#[test]
fn unchecked_mutable_view_over_short_bytes_is_made() {
    let mut data = numbered(3);
    let mut fdt = Fdt::from_bytes_mut_unchecked(&mut data, 2);
    assert_eq!(fdt.as_fdt().len(), 2);
    fdt.as_bytes_mut()[1] = 9;
    assert_eq!(data, vec![0, 9, 2]);
}

#[test]
fn declared_len_reads_sizes_and_refuses_negatives() {
    assert!(matches!(declared_len(0), Ok(0)));
    assert!(matches!(declared_len(28), Ok(28)));
    assert_eq!(declared_len(i32::MAX).unwrap(), i32::MAX as usize);
    assert!(matches!(declared_len(-1), Err(Error::TryFromInt(_))));
    assert!(matches!(declared_len(i32::MIN), Err(Error::TryFromInt(_))));
}

#[test]
fn unused_mutable_view_leaves_the_bytes_alone() {
    let mut data = vec![0u8; 4];
    assert!(matches!(Fdt::from_bytes(&data, 4), Err(Error::Invalid)));
    {
        let view = Fdt::from_bytes_mut_unchecked(&mut data, 4);
        assert_eq!(view.as_fdt().len(), 4);
    }
    assert_eq!(data, vec![0u8; 4]);
    let mut long = numbered(40);
    {
        let _view = Fdt::from_bytes_mut(&mut long, 30).unwrap();
    }
    assert_eq!(long, numbered(40));
}

#[test]
fn mutable_view_is_over_the_same_bytes() {
    let mut data = numbered(40);
    let start = data.as_mut_ptr();
    let mut view = Fdt::from_bytes_mut(&mut data, 30).unwrap();
    assert_eq!(view.as_bytes_mut().as_mut_ptr(), start);
}

#[test]
fn native_bytes_need_a_whole_header_within_the_bytes() {
    let data = numbered(40);
    let fdt = Fdt::from_bytes(&data, 30).unwrap();
    assert_eq!(fdt.native_bytes().unwrap(), &data[..30]);
    let exact = Fdt::from_bytes(&data, 28).unwrap();
    assert_eq!(exact.native_bytes().unwrap(), &data[..28]);
    let small = Fdt::from_bytes(&data, 27).unwrap();
    assert!(matches!(small.native_bytes(), Err(Error::Invalid)));
    let inflated = Fdt::from_bytes_unchecked(&data, 41);
    assert!(matches!(inflated.native_bytes(), Err(Error::Invalid)));
    let short = numbered(4);
    let unchecked = Fdt::from_bytes_unchecked(&short, 4);
    assert!(matches!(unchecked.native_bytes(), Err(Error::Invalid)));
}

#[test]
fn native_bytes_mut_are_the_declared_bytes() {
    let mut data = numbered(40);
    {
        let mut view = Fdt::from_bytes_mut(&mut data, 30).unwrap();
        let bytes = view.native_bytes_mut().unwrap();
        assert_eq!(bytes.len(), 30);
        bytes[29] = 0x5A;
    }
    let mut expected = numbered(40);
    expected[29] = 0x5A;
    assert_eq!(data, expected);
}

#[test]
fn native_bytes_mut_refuses_what_native_bytes_refuses() {
    let mut data = numbered(40);
    {
        let mut small = Fdt::from_bytes_mut(&mut data, 27).unwrap();
        assert!(matches!(small.native_bytes_mut(), Err(Error::Invalid)));
        assert_eq!(small.as_fdt().len(), 27);
    }
    {
        let mut inflated = Fdt::from_bytes_mut_unchecked(&mut data, 41);
        assert!(matches!(inflated.native_bytes_mut(), Err(Error::Invalid)));
    }
    assert_eq!(data, numbered(40));
}

#[test]
fn revalidated_view_goes_by_the_new_size() {
    let mut data = numbered(40);
    let mut view = Fdt::from_bytes_mut(&mut data, 30).unwrap();
    view.revalidate(36).unwrap();
    assert_eq!(view.as_fdt().len(), 36);
    assert_eq!(view.as_bytes_mut().len(), 36);
    view.revalidate(28).unwrap();
    assert_eq!(view.as_fdt().len(), 28);
    view.revalidate(40).unwrap();
    assert_eq!(view.as_fdt().as_bytes(), &numbered(40)[..]);
}

#[test]
fn failed_revalidation_keeps_the_view() {
    let mut data = numbered(40);
    {
        let mut view = Fdt::from_bytes_mut(&mut data, 30).unwrap();
        assert!(matches!(view.revalidate(41), Err(Error::Invalid)));
        assert_eq!(view.as_fdt().len(), 30);
        assert!(matches!(view.revalidate(-1), Err(Error::TryFromInt(_))));
        assert_eq!(view.as_fdt().len(), 30);
        assert_eq!(view.as_fdt().as_bytes(), &numbered(40)[..30]);
    }
    assert_eq!(data, numbered(40));
}

#[test]
fn revalidation_of_short_bytes_is_rejected() {
    let mut data = numbered(10);
    let mut view = Fdt::from_bytes_mut_unchecked(&mut data, 10);
    assert!(matches!(view.revalidate(10), Err(Error::Invalid)));
    assert!(matches!(view.revalidate(-1), Err(Error::Invalid)));
    assert_eq!(view.as_fdt().len(), 10);
}
