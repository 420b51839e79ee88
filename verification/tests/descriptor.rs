use dlpack_rs::dlpack::{
    DLContext, DLDataType, DLDataTypeCode, DLDeviceType, DLTensor, DLPACK_VERSION,
};
use dlpack_rs::extent::{checked_extent_product, extents_nonnegative};

fn float32() -> DLDataType {
    DLDataType::new(DLDataTypeCode::DLFloat, 32, 1)
}

#[test]
fn default_device() {
    assert_eq!(DLDeviceType::default(), DLDeviceType::DLCPU);
}

#[test]
fn default_context() {
    let ctx = DLContext::default();
    assert_eq!(ctx.device_type, DLDeviceType::default());
    assert_eq!(ctx.device_id, 0);
}

#[test]
fn version_is_twenty() {
    assert_eq!(DLPACK_VERSION, 20);
}

#[test]
fn device_tags_are_the_fixed_values() {
    assert_eq!(DLDeviceType::DLCPU.to_i32(), 1);
    assert_eq!(DLDeviceType::DLGPU.to_i32(), 2);
    assert_eq!(DLDeviceType::DLCPUPinned.to_i32(), 3);
    assert_eq!(DLDeviceType::DLOpenCL.to_i32(), 4);
    assert_eq!(DLDeviceType::DLVulkan.to_i32(), 7);
    assert_eq!(DLDeviceType::DLMetal.to_i32(), 8);
    assert_eq!(DLDeviceType::DLVPI.to_i32(), 9);
    assert_eq!(DLDeviceType::DLROCM.to_i32(), 10);
    assert_eq!(DLDeviceType::DLExtDev.to_i32(), 12);
}

#[test]
fn device_tags_decode_to_their_kind() {
    assert_eq!(DLDeviceType::from_i32(1), Some(DLDeviceType::DLCPU));
    assert_eq!(DLDeviceType::from_i32(2), Some(DLDeviceType::DLGPU));
    assert_eq!(DLDeviceType::from_i32(3), Some(DLDeviceType::DLCPUPinned));
    assert_eq!(DLDeviceType::from_i32(4), Some(DLDeviceType::DLOpenCL));
    assert_eq!(DLDeviceType::from_i32(7), Some(DLDeviceType::DLVulkan));
    assert_eq!(DLDeviceType::from_i32(8), Some(DLDeviceType::DLMetal));
    assert_eq!(DLDeviceType::from_i32(9), Some(DLDeviceType::DLVPI));
    assert_eq!(DLDeviceType::from_i32(10), Some(DLDeviceType::DLROCM));
    assert_eq!(DLDeviceType::from_i32(12), Some(DLDeviceType::DLExtDev));
}

#[test]
fn unknown_device_tags_are_refused() {
    for tag in [0, 5, 6, 11, 13, -1, 256, i32::MAX, i32::MIN] {
        assert_eq!(DLDeviceType::from_i32(tag), None);
    }
}

#[test]
fn device_tag_round_trip() {
    for tag in -20..20 {
        if let Some(kind) = DLDeviceType::from_i32(tag) {
            assert_eq!(kind.to_i32(), tag);
        }
    }
}

#[test]
fn type_code_tags_are_the_fixed_values() {
    assert_eq!(DLDataTypeCode::DLInt.to_u8(), 0);
    assert_eq!(DLDataTypeCode::DLUInt.to_u8(), 1);
    assert_eq!(DLDataTypeCode::DLFloat.to_u8(), 2);
    assert_eq!(DLDataTypeCode::DLBfloat.to_u8(), 4);
}

#[test]
fn type_code_tags_decode_or_are_refused() {
    assert_eq!(DLDataTypeCode::from_u8(0), Some(DLDataTypeCode::DLInt));
    assert_eq!(DLDataTypeCode::from_u8(1), Some(DLDataTypeCode::DLUInt));
    assert_eq!(DLDataTypeCode::from_u8(2), Some(DLDataTypeCode::DLFloat));
    assert_eq!(DLDataTypeCode::from_u8(4), Some(DLDataTypeCode::DLBfloat));
    assert_eq!(DLDataTypeCode::from_u8(3), None);
    assert_eq!(DLDataTypeCode::from_u8(5), None);
    assert_eq!(DLDataTypeCode::from_u8(255), None);
}

#[test]
fn default_type_code_is_float() {
    assert_eq!(DLDataTypeCode::default(), DLDataTypeCode::DLFloat);
}

#[test]
fn context_new_keeps_its_parts() {
    let ctx = DLContext::new(DLDeviceType::DLROCM, 3);
    assert_eq!(ctx.device_type, DLDeviceType::DLROCM);
    assert_eq!(ctx.device_id, 3);
}

#[test]
fn data_type_new_stores_the_tag() {
    let t = DLDataType::new(DLDataTypeCode::DLBfloat, 16, 2);
    assert_eq!(t.code, 4);
    assert_eq!(t.bits, 16);
    assert_eq!(t.lanes, 2);
    assert_eq!(t.type_code(), Some(DLDataTypeCode::DLBfloat));
}

#[test]
fn data_type_from_raw_triple() {
    let t = DLDataType::from((0u8, 8u8, 1u16));
    assert_eq!(t, DLDataType { code: 0, bits: 8, lanes: 1 });
    let odd = DLDataType::from((3u8, 8u8, 1u16));
    assert_eq!(odd.code, 3);
    assert_eq!(odd.type_code(), None);
}

#[test]
fn data_type_from_coded_triple() {
    let t = DLDataType::from((DLDataTypeCode::DLUInt, 64u8, 4u16));
    assert_eq!(t, DLDataType { code: 1, bits: 64, lanes: 4 });
    let same: DLDataType = (DLDataTypeCode::DLUInt, 64u8, 4u16).into();
    assert_eq!(same, t);
}

#[test]
fn default_data_type_is_one_float32() {
    let t = DLDataType::default();
    assert_eq!(t.code, 2);
    assert_eq!(t.bits, 32);
    assert_eq!(t.lanes, 1);
    assert_eq!(t, float32());
}

#[test]
fn element_bytes_rounds_bits_up() {
    assert_eq!(DLDataType { code: 2, bits: 32, lanes: 1 }.element_bytes(), 4);
    assert_eq!(DLDataType { code: 2, bits: 32, lanes: 4 }.element_bytes(), 16);
    assert_eq!(DLDataType { code: 0, bits: 8, lanes: 1 }.element_bytes(), 1);
    assert_eq!(DLDataType { code: 1, bits: 1, lanes: 1 }.element_bytes(), 1);
    assert_eq!(DLDataType { code: 1, bits: 4, lanes: 3 }.element_bytes(), 2);
    assert_eq!(DLDataType { code: 1, bits: 1, lanes: 8 }.element_bytes(), 1);
    assert_eq!(DLDataType { code: 1, bits: 1, lanes: 9 }.element_bytes(), 2);
    assert_eq!(DLDataType { code: 0, bits: 0, lanes: 7 }.element_bytes(), 0);
    assert_eq!(DLDataType { code: 0, bits: 255, lanes: 65535 }.element_bytes(), 2_088_929);
}

#[test]
fn descriptor_round_trip() {
    let ctx = DLContext::new(DLDeviceType::DLGPU, 1);
    let t = DLTensor::new(0xdead_0000, ctx, vec![2, 3, 4], float32());
    assert_eq!(t.data(), 0xdead_0000);
    assert_eq!(t.ctx(), ctx);
    assert_eq!(t.ndim(), 3);
    assert_eq!(t.dtype(), float32());
    assert_eq!(t.shape(), &[2i64, 3, 4][..]);
    assert_eq!(t.strides(), None);
    assert!(t.is_contiguous());
    assert_eq!(t.byte_offset(), 0);
}

#[test]
fn strides_and_offset_read_back() {
    let t = DLTensor::new(64, DLContext::default(), vec![2, 3], float32())
        .with_strides(vec![1, 2])
        .with_byte_offset(128);
    assert_eq!(t.strides(), Some(&[1i64, 2][..]));
    assert!(!t.is_contiguous());
    assert_eq!(t.byte_offset(), 128);
    assert_eq!(t.shape(), &[2i64, 3][..]);
    assert_eq!(t.ndim(), 2);
    assert_eq!(t.data(), 64);
}

#[test]
fn default_descriptor_is_empty() {
    let t = DLTensor::default();
    assert_eq!(t.data(), 0);
    assert_eq!(t.ctx(), DLContext::default());
    assert_eq!(t.ndim(), 0);
    assert_eq!(t.dtype(), DLDataType::default());
    assert!(t.shape().is_empty());
    assert_eq!(t.strides(), None);
    assert_eq!(t.byte_offset(), 0);
}

#[test]
fn clone_describes_the_same_buffer() {
    let t = DLTensor::new(8, DLContext::default(), vec![5, 6], float32()).with_strides(vec![6, 1]);
    let u = t.clone();
    assert_eq!(t, u);
    assert_eq!(u.strides(), Some(&[6i64, 1][..]));
}

#[test]
fn byte_size_is_count_times_width() {
    let t = DLTensor::new(0, DLContext::default(), vec![2, 3], float32());
    assert_eq!(t.num_elements(), Some(6));
    assert_eq!(t.byte_size(), Some(24));
    let vectors = DLTensor::new(0, DLContext::default(), vec![10], DLDataType::new(DLDataTypeCode::DLFloat, 32, 4));
    assert_eq!(vectors.byte_size(), Some(160));
    let bits = DLTensor::new(0, DLContext::default(), vec![7, 3], DLDataType::new(DLDataTypeCode::DLUInt, 1, 1));
    assert_eq!(bits.byte_size(), Some(21));
}

#[test]
fn byte_size_does_not_depend_on_strides() {
    let plain = DLTensor::new(0, DLContext::default(), vec![2, 3], float32());
    let row_major = plain.clone().with_strides(vec![3, 1]);
    let column_major = plain.clone().with_strides(vec![1, 2]);
    let odd = plain.clone().with_strides(vec![-7, 1000]).with_byte_offset(40);
    assert_eq!(plain.byte_size(), Some(24));
    assert_eq!(row_major.byte_size(), Some(24));
    assert_eq!(column_major.byte_size(), Some(24));
    assert_eq!(odd.byte_size(), Some(24));
    assert_eq!(odd.num_elements(), Some(6));
}

#[test]
fn rank_zero_holds_one_element() {
    let t = DLTensor::new(0, DLContext::default(), vec![], DLDataType::new(DLDataTypeCode::DLInt, 64, 1));
    assert_eq!(t.ndim(), 0);
    assert_eq!(t.num_elements(), Some(1));
    assert_eq!(t.byte_size(), Some(8));
    assert_eq!(DLTensor::default().byte_size(), Some(4));
}

#[test]
fn zero_extent_spans_nothing() {
    let t = DLTensor::new(0, DLContext::default(), vec![4, 0, 9], float32());
    assert_eq!(t.num_elements(), Some(0));
    assert_eq!(t.byte_size(), Some(0));
    let huge = DLTensor::new(0, DLContext::default(), vec![i64::MAX, i64::MAX, 0, i64::MAX], float32());
    assert_eq!(huge.num_elements(), Some(0));
    assert_eq!(huge.byte_size(), Some(0));
}

#[test]
fn negative_extent_has_no_size() {
    let t = DLTensor::new(0, DLContext::default(), vec![4, -1], float32());
    assert_eq!(t.num_elements(), None);
    assert_eq!(t.byte_size(), None);
    let with_zero = DLTensor::new(0, DLContext::default(), vec![0, -1], float32());
    assert_eq!(with_zero.num_elements(), None);
    assert_eq!(with_zero.byte_size(), None);
    let no_width = DLTensor::new(0, DLContext::default(), vec![-3], DLDataType { code: 0, bits: 0, lanes: 1 });
    assert_eq!(no_width.byte_size(), None);
}

#[test]
fn size_at_the_edge_of_64_bits() {
    let bytes = DLDataType::new(DLDataTypeCode::DLUInt, 8, 1);
    let fits = DLTensor::new(0, DLContext::default(), vec![i64::MAX, 2], bytes);
    assert_eq!(fits.num_elements(), Some(18_446_744_073_709_551_614));
    assert_eq!(fits.byte_size(), Some(18_446_744_073_709_551_614));
    let halves = DLDataType::new(DLDataTypeCode::DLUInt, 16, 1);
    let too_wide = DLTensor::new(0, DLContext::default(), vec![i64::MAX, 2], halves);
    assert_eq!(too_wide.num_elements(), Some(18_446_744_073_709_551_614));
    assert_eq!(too_wide.byte_size(), None);
    let too_many = DLTensor::new(0, DLContext::default(), vec![i64::MAX, 3], bytes);
    assert_eq!(too_many.num_elements(), None);
    assert_eq!(too_many.byte_size(), None);
    let exact = DLTensor::new(0, DLContext::default(), vec![1 << 31, 1 << 31], DLDataType::new(DLDataTypeCode::DLUInt, 24, 1));
    assert_eq!(exact.num_elements(), Some(1 << 62));
    assert_eq!(exact.byte_size(), Some(3 << 62));
    let over = DLTensor::new(0, DLContext::default(), vec![1 << 31, 1 << 31], float32());
    assert_eq!(over.byte_size(), None);
}

#[test]
fn elements_without_width_take_no_bytes() {
    let nothing = DLDataType { code: 0, bits: 0, lanes: 1 };
    let t = DLTensor::new(0, DLContext::default(), vec![i64::MAX, i64::MAX], nothing);
    assert_eq!(t.num_elements(), None);
    assert_eq!(t.byte_size(), Some(0));
}

#[test]
fn extent_helpers_on_slices() {
    assert!(extents_nonnegative(&[]));
    assert!(extents_nonnegative(&[0, 1, 2]));
    assert!(!extents_nonnegative(&[1, 2, -3]));
    assert_eq!(checked_extent_product(&[]), Some(1));
    assert_eq!(checked_extent_product(&[3, 5, 7]), Some(105));
    assert_eq!(checked_extent_product(&[3, -5, 7]), None);
    assert_eq!(checked_extent_product(&[1 << 32, 1 << 32]), None);
    assert_eq!(checked_extent_product(&[1 << 32, 1 << 31]), Some(1 << 63));
}

#[test]
fn debug_lists_every_field() {
    let t = DLTensor::new(16, DLContext::default(), vec![2, 3], float32()).with_strides(vec![3, 1]);
    let text = format!("{:?}", t);
    for part in ["DLTensor", "data: 16", "DLCPU", "ndim: 2", "bits: 32", "shape: [2, 3]", "strides: Some([3, 1])", "byte_offset: 0"] {
        assert!(text.contains(part), "{} is missing in {}", part, text);
    }
}
