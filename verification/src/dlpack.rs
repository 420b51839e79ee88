//! The tensor descriptor and the value types it is built from: the device a
//! buffer lives on, the type of its elements, and its shape and strides.
//!
//! A descriptor is data only. It says where a buffer is and how to read it;
//! it does not own the buffer and never touches it. Device kinds and type
//! codes carry fixed numeric tags, which [`DLDeviceType::to_i32`] and
//! [`DLDataTypeCode::to_u8`] give and which the `from_` functions take back,
//! refusing every number that is no tag.

use vstd::prelude::*;

use crate::extent::{
    checked_extent_product, extent_product, extents_nonnegative, extents_valid,
    lemma_product_nonnegative,
};

verus! {

/// Version of the interchange layout that these types describe.
pub const DLPACK_VERSION: usize = 20;

/// The kind of device a buffer lives on.
#[derive(Debug, Copy, Clone, PartialEq, Eq, Structural)]
pub enum DLDeviceType {
    /// CPU device
    DLCPU,
    /// CUDA GPU device
    DLGPU,
    /// Host memory pinned for a CUDA GPU
    DLCPUPinned,
    /// OpenCL devices
    DLOpenCL,
    /// Vulkan buffer for next generation graphics
    DLVulkan,
    /// Metal for Apple GPU
    DLMetal,
    /// Verilog simulator buffer
    DLVPI,
    /// ROCm GPUs for AMD GPUs
    DLROCM,
    /// Reserved extension device type, for quickly testing an extension
    /// device; what it means is up to the implementation.
    DLExtDev,
}

impl DLDeviceType {
    /// The tag that stands for this device kind in the binary layout.
    pub open spec fn tag(self) -> int {
        match self {
            DLDeviceType::DLCPU => 1,
            DLDeviceType::DLGPU => 2,
            DLDeviceType::DLCPUPinned => 3,
            DLDeviceType::DLOpenCL => 4,
            DLDeviceType::DLVulkan => 7,
            DLDeviceType::DLMetal => 8,
            DLDeviceType::DLVPI => 9,
            DLDeviceType::DLROCM => 10,
            DLDeviceType::DLExtDev => 12,
        }
    }

    /// The device kind that a tag stands for, if it stands for one.
    pub open spec fn with_tag(tag: int) -> Option<DLDeviceType> {
        if tag == 1 {
            Some(DLDeviceType::DLCPU)
        } else if tag == 2 {
            Some(DLDeviceType::DLGPU)
        } else if tag == 3 {
            Some(DLDeviceType::DLCPUPinned)
        } else if tag == 4 {
            Some(DLDeviceType::DLOpenCL)
        } else if tag == 7 {
            Some(DLDeviceType::DLVulkan)
        } else if tag == 8 {
            Some(DLDeviceType::DLMetal)
        } else if tag == 9 {
            Some(DLDeviceType::DLVPI)
        } else if tag == 10 {
            Some(DLDeviceType::DLROCM)
        } else if tag == 12 {
            Some(DLDeviceType::DLExtDev)
        } else {
            None
        }
    }

    /// Encodes the device kind as its 32-bit tag.
    pub fn to_i32(self) -> (t: i32)
        ensures
            t == self.tag(),
    {
        match self {
            DLDeviceType::DLCPU => 1,
            DLDeviceType::DLGPU => 2,
            DLDeviceType::DLCPUPinned => 3,
            DLDeviceType::DLOpenCL => 4,
            DLDeviceType::DLVulkan => 7,
            DLDeviceType::DLMetal => 8,
            DLDeviceType::DLVPI => 9,
            DLDeviceType::DLROCM => 10,
            DLDeviceType::DLExtDev => 12,
        }
    }

    /// Decodes a 32-bit tag, refusing every value that names no device kind.
    pub fn from_i32(tag: i32) -> (d: Option<DLDeviceType>)
        ensures
            d == DLDeviceType::with_tag(tag as int),
    {
        match tag {
            1 => Some(DLDeviceType::DLCPU),
            2 => Some(DLDeviceType::DLGPU),
            3 => Some(DLDeviceType::DLCPUPinned),
            4 => Some(DLDeviceType::DLOpenCL),
            7 => Some(DLDeviceType::DLVulkan),
            8 => Some(DLDeviceType::DLMetal),
            9 => Some(DLDeviceType::DLVPI),
            10 => Some(DLDeviceType::DLROCM),
            12 => Some(DLDeviceType::DLExtDev),
            _ => None,
        }
    }

    /// Decoding undoes encoding, and a tag decodes to a device kind only if
    /// that kind encodes to the same tag: the two are inverse on the nine
    /// recognised tags and nothing else decodes.
    pub proof fn lemma_tag_round_trip(d: DLDeviceType, tag: int)
        ensures
            DLDeviceType::with_tag(d.tag()) == Some(d),
            DLDeviceType::with_tag(tag) matches Some(e) ==> e.tag() == tag,
            DLDeviceType::with_tag(tag) is Some <==> (1 <= tag <= 4 || 7 <= tag <= 10 || tag == 12),
    {
    }
}

impl Default for DLDeviceType {
    /// The CPU.
    fn default() -> (d: Self)
        ensures
            d == DLDeviceType::DLCPU,
    {
        DLDeviceType::DLCPU
    }
}

/// A device context for a tensor: the kind of device and which one of that
/// kind.
#[derive(Debug, Copy, Clone, PartialEq, Eq, Structural)]
pub struct DLContext {
    /// The device type used in the device.
    pub device_type: DLDeviceType,
    /// The device index
    pub device_id: i32,
}

impl DLContext {
    /// The context of device number `device_id` among the devices of kind
    /// `device_type`.
    pub fn new(device_type: DLDeviceType, device_id: i32) -> (c: DLContext)
        ensures
            c.device_type == device_type,
            c.device_id == device_id,
    {
        DLContext { device_type, device_id }
    }
}

impl Default for DLContext {
    /// The first CPU.
    fn default() -> (c: Self)
        ensures
            c.device_type == DLDeviceType::DLCPU,
            c.device_id == 0,
    {
        DLContext { device_type: DLDeviceType::default(), device_id: 0 }
    }
}

/// The type code options of a `DLDataType`.
#[derive(Debug, Copy, Clone, PartialEq, Eq, Structural)]
pub enum DLDataTypeCode {
    /// Signed integer
    DLInt,
    /// Unsigned integer
    DLUInt,
    /// IEEE floating point
    DLFloat,
    /// Brain floating point
    DLBfloat,
}

impl DLDataTypeCode {
    /// The tag that stands for this type code in the binary layout.
    pub open spec fn tag(self) -> int {
        match self {
            DLDataTypeCode::DLInt => 0,
            DLDataTypeCode::DLUInt => 1,
            DLDataTypeCode::DLFloat => 2,
            DLDataTypeCode::DLBfloat => 4,
        }
    }

    /// The type code that a tag stands for, if it stands for one.
    pub open spec fn with_tag(tag: int) -> Option<DLDataTypeCode> {
        if tag == 0 {
            Some(DLDataTypeCode::DLInt)
        } else if tag == 1 {
            Some(DLDataTypeCode::DLUInt)
        } else if tag == 2 {
            Some(DLDataTypeCode::DLFloat)
        } else if tag == 4 {
            Some(DLDataTypeCode::DLBfloat)
        } else {
            None
        }
    }

    /// Encodes the type code as its 8-bit tag.
    pub fn to_u8(self) -> (t: u8)
        ensures
            t == self.tag(),
    {
        match self {
            DLDataTypeCode::DLInt => 0,
            DLDataTypeCode::DLUInt => 1,
            DLDataTypeCode::DLFloat => 2,
            DLDataTypeCode::DLBfloat => 4,
        }
    }

    /// Decodes an 8-bit tag, refusing every value that names no type code.
    pub fn from_u8(tag: u8) -> (c: Option<DLDataTypeCode>)
        ensures
            c == DLDataTypeCode::with_tag(tag as int),
    {
        match tag {
            0 => Some(DLDataTypeCode::DLInt),
            1 => Some(DLDataTypeCode::DLUInt),
            2 => Some(DLDataTypeCode::DLFloat),
            4 => Some(DLDataTypeCode::DLBfloat),
            _ => None,
        }
    }

    /// Decoding undoes encoding, and a tag decodes to a type code only if
    /// that code encodes to the same tag: 0, 1, 2 and 4 decode, nothing else
    /// does.
    pub proof fn lemma_tag_round_trip(c: DLDataTypeCode, tag: int)
        ensures
            DLDataTypeCode::with_tag(c.tag()) == Some(c),
            DLDataTypeCode::with_tag(tag) matches Some(e) ==> e.tag() == tag,
            DLDataTypeCode::with_tag(tag) is Some <==> (0 <= tag <= 2 || tag == 4),
    {
    }
}

impl Default for DLDataTypeCode {
    /// Floating point.
    fn default() -> (c: Self)
        ensures
            c == DLDataTypeCode::DLFloat,
    {
        DLDataTypeCode::DLFloat
    }
}

/// The data type the tensor can hold.
///
/// Examples
/// - float: code = 2, bits = 32, lanes = 1
/// - float4 (four floats packed into one element): code = 2, bits = 32, lanes = 4
/// - int8: code = 0, bits = 8, lanes = 1
#[derive(Debug, Copy, Clone, PartialEq, Eq, Structural)]
pub struct DLDataType {
    /// Type code of the base type. It is kept as a bare byte for a minimal
    /// memory footprint, and should be the tag of one of the
    /// `DLDataTypeCode` values; the type itself does not check that.
    pub code: u8,
    /// Number of bits, common choices are 8, 16, 32.
    pub bits: u8,
    /// Number of lanes in the type, used for vector types.
    pub lanes: u16,
}

impl DLDataType {
    /// The number of bytes one element takes: its `bits * lanes` bits,
    /// rounded up to whole bytes.
    pub open spec fn bytes_per_element(self) -> int {
        (self.bits as int * self.lanes as int + 7) / 8
    }

    /// The type with base type `code`, `bits` bits per lane and `lanes`
    /// lanes.
    pub fn new(code: DLDataTypeCode, bits: u8, lanes: u16) -> (t: DLDataType)
        ensures
            t.code == code.tag(),
            t.bits == bits,
            t.lanes == lanes,
    {
        DLDataType { code: code.to_u8(), bits, lanes }
    }

    /// The base type, or `None` where `code` is the tag of no type code.
    pub fn type_code(&self) -> (c: Option<DLDataTypeCode>)
        ensures
            c == DLDataTypeCode::with_tag(self.code as int),
    {
        DLDataTypeCode::from_u8(self.code)
    }

    /// Computes the number of bytes one element takes.
    pub fn element_bytes(&self) -> (n: u32)
        ensures
            n == self.bytes_per_element(),
            n <= 2_088_929,
    {
        let bits: u32 = self.bits as u32;
        let lanes: u32 = self.lanes as u32;
        assert(bits * lanes <= 255 * 65535) by (nonlinear_arith)
            requires
                bits <= 255,
                lanes <= 65535,
        ;
        (bits * lanes + 7) / 8
    }
}

impl From<(u8, u8, u16)> for DLDataType {
    /// The type with the raw code, the bits and the lanes of the triple, in
    /// that order. The code is taken as it is.
    fn from(dtype: (u8, u8, u16)) -> (t: Self)
    {
        let (code, bits, lanes) = dtype;
        DLDataType { code, bits, lanes }
    }
}

impl vstd::std_specs::convert::FromSpecImpl<(u8, u8, u16)> for DLDataType {
    open spec fn obeys_from_spec() -> bool {
        true
    }

    open spec fn from_spec(dtype: (u8, u8, u16)) -> Self {
        DLDataType { code: dtype.0, bits: dtype.1, lanes: dtype.2 }
    }
}

impl From<(DLDataTypeCode, u8, u16)> for DLDataType {
    /// The type with the type code, the bits and the lanes of the triple, in
    /// that order.
    fn from(dtype: (DLDataTypeCode, u8, u16)) -> (t: Self)
    {
        let (code, bits, lanes) = dtype;
        DLDataType { code: code.to_u8(), bits, lanes }
    }
}

impl vstd::std_specs::convert::FromSpecImpl<(DLDataTypeCode, u8, u16)> for DLDataType {
    open spec fn obeys_from_spec() -> bool {
        true
    }

    open spec fn from_spec(dtype: (DLDataTypeCode, u8, u16)) -> Self {
        DLDataType { code: dtype.0.tag() as u8, bits: dtype.1, lanes: dtype.2 }
    }
}

impl Default for DLDataType {
    /// A single 32-bit float.
    fn default() -> (t: Self)
        ensures
            t.code == DLDataTypeCode::DLFloat.tag(),
            t.bits == 32,
            t.lanes == 1,
    {
        DLDataType { code: DLDataTypeCode::DLFloat.to_u8(), bits: 32, lanes: 1 }
    }
}

/// What a tensor descriptor says, as plain mathematical values.
pub struct TensorView {
    /// The address of the buffer; never followed here.
    pub data: usize,
    /// The device that the buffer lives on.
    pub ctx: DLContext,
    /// The type of one element.
    pub dtype: DLDataType,
    /// The extent of each dimension; its length is the rank.
    pub shape: Seq<i64>,
    /// The stride of each dimension, counted in elements, or `None` for a
    /// buffer that is compact and row-major.
    pub strides: Option<Seq<i64>>,
    /// The distance in bytes from `data` to the first element.
    pub byte_offset: u64,
}

impl TensorView {
    /// The rank fits the 32-bit field kept for it, and strides, where given,
    /// come one per dimension.
    pub open spec fn wf(self) -> bool {
        &&& self.shape.len() <= i32::MAX
        &&& self.strides matches Some(s) ==> s.len() == self.shape.len()
    }

    /// The number of elements described.
    pub open spec fn num_elements(self) -> int {
        extent_product(self.shape)
    }

    /// The size of the described buffer in bytes: the number of elements
    /// times the bytes that one element takes.
    pub open spec fn byte_size(self) -> int {
        extent_product(self.shape) * self.dtype.bytes_per_element()
    }

    /// Whether the buffer is described as compact and row-major.
    pub open spec fn is_contiguous(self) -> bool {
        self.strides is None
    }

    /// The descriptor of rank 0 at the null address: one 32-bit float on the
    /// first CPU.
    pub open spec fn empty() -> TensorView {
        TensorView {
            data: 0,
            ctx: DLContext { device_type: DLDeviceType::DLCPU, device_id: 0 },
            dtype: DLDataType { code: 2, bits: 32, lanes: 1 },
            shape: Seq::empty(),
            strides: None,
            byte_offset: 0,
        }
    }

    /// What a descriptor says that was just made from an address, a device,
    /// a shape and an element type: those four, no strides and no offset.
    pub open spec fn described(
        data: usize,
        ctx: DLContext,
        shape: Seq<i64>,
        dtype: DLDataType,
    ) -> TensorView {
        TensorView { data, ctx, dtype, shape, strides: None, byte_offset: 0 }
    }

    /// Reading a descriptor that was just made gives back exactly what it
    /// was made from, and it reads as compact and row-major.
    pub proof fn lemma_described_round_trip(
        data: usize,
        ctx: DLContext,
        shape: Seq<i64>,
        dtype: DLDataType,
    )
        ensures
            TensorView::described(data, ctx, shape, dtype).data == data,
            TensorView::described(data, ctx, shape, dtype).ctx == ctx,
            TensorView::described(data, ctx, shape, dtype).shape == shape,
            TensorView::described(data, ctx, shape, dtype).dtype == dtype,
            TensorView::described(data, ctx, shape, dtype).strides is None,
            TensorView::described(data, ctx, shape, dtype).is_contiguous(),
            TensorView::described(data, ctx, shape, dtype).byte_offset == 0,
            shape.len() <= i32::MAX ==> TensorView::described(data, ctx, shape, dtype).wf(),
    {
    }

    /// The size in bytes depends on the shape and the element type alone:
    /// two descriptors that agree on both have the same size, whatever their
    /// strides, addresses and offsets are.
    pub proof fn lemma_byte_size_ignores_strides(self, other: TensorView)
        requires
            self.shape == other.shape,
            self.dtype == other.dtype,
        ensures
            self.byte_size() == other.byte_size(),
            self.num_elements() == other.num_elements(),
    {
    }
}

/// A plain tensor descriptor: a view over a buffer that it neither owns nor
/// manages. It never allocates, copies or frees, and the address it holds is
/// never followed.
///
/// The size of the memory that holds the contents is the product of the
/// extents times the bytes of one element, `(bits * lanes + 7) / 8`.
#[derive(Debug, PartialEq, Eq)]
pub struct DLTensor {
    /// The opaque address of the allocated data: a device pointer, a handle,
    /// or 0 for none.
    data: usize,
    /// The device context of the tensor
    ctx: DLContext,
    /// Number of dimensions
    ndim: i32,
    /// The data type of the elements
    dtype: DLDataType,
    /// The shape of the tensor
    shape: Vec<i64>,
    /// Strides of the tensor, in number of elements, not bytes; `None`
    /// says that the tensor is compact and row-major.
    strides: Option<Vec<i64>>,
    /// The offset in bytes from `data` to the first element
    byte_offset: u64,
}

impl View for DLTensor {
    type V = TensorView;

    closed spec fn view(&self) -> TensorView {
        TensorView {
            data: self.data,
            ctx: self.ctx,
            dtype: self.dtype,
            shape: self.shape@,
            strides: match self.strides {
                Some(s) => Some(s@),
                None => None,
            },
            byte_offset: self.byte_offset,
        }
    }
}

impl DLTensor {
    /// The rank that is kept is the length of the shape, and strides, where
    /// given, come one per dimension.
    #[verifier::type_invariant]
    spec fn inv(self) -> bool {
        &&& self.ndim == self.shape@.len()
        &&& self.strides matches Some(s) ==> s@.len() == self.shape@.len()
    }

    /// Describes the compact row-major buffer at address `data` on device
    /// `ctx`, with the extents of `shape` and elements of type `dtype`. The
    /// rank is the length of `shape`, which has to fit the 32-bit field kept
    /// for it.
    pub fn new(data: usize, ctx: DLContext, shape: Vec<i64>, dtype: DLDataType) -> (t: DLTensor)
        requires
            shape@.len() <= i32::MAX,
        ensures
            t@ == TensorView::described(data, ctx, shape@, dtype),
            t@.wf(),
    {
        let ndim: i32 = shape.len() as i32;
        DLTensor { data, ctx, ndim, dtype, shape, strides: None, byte_offset: 0 }
    }

    /// The same descriptor with explicit strides, one per dimension.
    pub fn with_strides(self, strides: Vec<i64>) -> (t: DLTensor)
        requires
            strides@.len() == self@.shape.len(),
        ensures
            t@ == (TensorView { strides: Some(strides@), ..self@ }),
            t@.wf(),
    {
        proof {
            use_type_invariant(&self);
        }
        DLTensor {
            data: self.data,
            ctx: self.ctx,
            ndim: self.ndim,
            dtype: self.dtype,
            shape: self.shape,
            strides: Some(strides),
            byte_offset: self.byte_offset,
        }
    }

    /// The same descriptor with its first element `byte_offset` bytes behind
    /// the address.
    pub fn with_byte_offset(self, byte_offset: u64) -> (t: DLTensor)
        ensures
            t@ == (TensorView { byte_offset, ..self@ }),
            t@.wf(),
    {
        proof {
            use_type_invariant(&self);
        }
        DLTensor {
            data: self.data,
            ctx: self.ctx,
            ndim: self.ndim,
            dtype: self.dtype,
            shape: self.shape,
            strides: self.strides,
            byte_offset,
        }
    }

    /// The address of the buffer.
    pub fn data(&self) -> (p: usize)
        ensures
            p == self@.data,
    {
        self.data
    }

    /// The device that the buffer lives on.
    pub fn ctx(&self) -> (c: DLContext)
        ensures
            c == self@.ctx,
    {
        self.ctx
    }

    /// The rank: the number of dimensions.
    pub fn ndim(&self) -> (n: i32)
        ensures
            n == self@.shape.len(),
            self@.wf(),
    {
        proof {
            use_type_invariant(self);
        }
        self.ndim
    }

    /// The type of one element.
    pub fn dtype(&self) -> (t: DLDataType)
        ensures
            t == self@.dtype,
    {
        self.dtype
    }

    /// The extent of each dimension.
    pub fn shape(&self) -> (s: &[i64])
        ensures
            s@ == self@.shape,
    {
        self.shape.as_slice()
    }

    /// The stride of each dimension, or `None` for a compact row-major
    /// buffer.
    pub fn strides(&self) -> (s: Option<&[i64]>)
        ensures
            s is Some == self@.strides is Some,
            s matches Some(given) ==> Some(given@) == self@.strides,
    {
        match &self.strides {
            Some(given) => Some(given.as_slice()),
            None => None,
        }
    }

    /// The distance in bytes from the address to the first element.
    pub fn byte_offset(&self) -> (b: u64)
        ensures
            b == self@.byte_offset,
    {
        self.byte_offset
    }

    /// Whether the buffer is described as compact and row-major, that is,
    /// without strides.
    pub fn is_contiguous(&self) -> (c: bool)
        ensures
            c == self@.is_contiguous(),
    {
        self.strides.is_none()
    }

    /// The number of elements described: `Some` exactly when no extent is
    /// negative and the product of the extents fits in 64 bits.
    pub fn num_elements(&self) -> (count: Option<u64>)
        ensures
            count is Some <==> extents_valid(self@.shape) && self@.num_elements() <= u64::MAX,
            count matches Some(n) ==> n == self@.num_elements(),
    {
        checked_extent_product(self.shape.as_slice())
    }

    /// The size of the described buffer in bytes: `Some` exactly when no
    /// extent is negative and the size fits in 64 bits. Strides, address and
    /// offset play no part in it.
    pub fn byte_size(&self) -> (size: Option<u64>)
        ensures
            size is Some <==> extents_valid(self@.shape) && self@.byte_size() <= u64::MAX,
            size matches Some(n) ==> n == self@.byte_size(),
    {
        let width: u64 = self.dtype.element_bytes() as u64;
        if !extents_nonnegative(self.shape.as_slice()) {
            return None;
        }
        let ghost product = extent_product(self@.shape);
        proof {
            lemma_product_nonnegative(self@.shape);
        }
        assert(self@.byte_size() == product * width);
        if width == 0 {
            assert(product * 0 == 0);
            return Some(0);
        }
        match checked_extent_product(self.shape.as_slice()) {
            None => {
                assert(product * width >= product) by (nonlinear_arith)
                    requires
                        product >= 0,
                        width >= 1,
                ;
                None
            },
            Some(count) => count.checked_mul(width),
        }
    }
}

impl Clone for DLTensor {
    /// A second descriptor of the same buffer. The buffer is not copied.
    fn clone(&self) -> (t: Self)
        ensures
            t@ == self@,
    {
        proof {
            use_type_invariant(self);
        }
        let strides: Option<Vec<i64>> = match &self.strides {
            Some(given) => Some(given.clone()),
            None => None,
        };
        DLTensor {
            data: self.data,
            ctx: self.ctx,
            ndim: self.ndim,
            dtype: self.dtype,
            shape: self.shape.clone(),
            strides,
            byte_offset: self.byte_offset,
        }
    }
}

impl Default for DLTensor {
    /// The empty descriptor: rank 0 at the null address, with the default
    /// context and element type, no strides and no offset.
    fn default() -> (t: Self)
        ensures
            t@ == TensorView::empty(),
            t@.wf(),
    {
        DLTensor {
            data: 0,
            ctx: DLContext::default(),
            ndim: 0,
            dtype: DLDataType::default(),
            shape: Vec::new(),
            strides: None,
            byte_offset: 0,
        }
    }
}

} // verus!
