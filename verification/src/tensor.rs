use crate::dtype::DType;
use crate::error::QuantError;
use vstd::prelude::*;

verus! {

/// A compute device a tensor lives on.
#[derive(Debug, Clone, Copy, PartialEq, Eq, Structural)]
pub enum Device {
    Cpu,
    Metal(usize),
    Cuda(usize),
}

/// The payload of a tensor in the model.
#[derive(Debug, PartialEq, Eq)]
pub enum TensorData {
    /// Raw little-endian element bytes, host-visible. Checkpoint-loaded
    /// tensors carry their bytes here so construction and tests can read
    /// packed codes and code tables.
    Raw(Vec<u8>),
    /// Content that only a device kernel produces; the model carries its
    /// descriptor (type, shape, size) but not its bytes.
    Opaque,
}

/// Mathematical value of a tensor payload.
pub enum TensorDataView {
    Raw(Seq<u8>),
    Opaque,
}

impl View for TensorData {
    type V = TensorDataView;

    open spec fn view(&self) -> TensorDataView {
        match self {
            TensorData::Raw(b) => TensorDataView::Raw(b@),
            TensorData::Opaque => TensorDataView::Opaque,
        }
    }
}

impl Clone for TensorData {
    fn clone(&self) -> (r: TensorData)
        ensures
            r@ == self@,
    {
        match self {
            TensorData::Raw(b) => {
                let c = b.clone();
                proof {
                    assert forall|i: int| 0 <= i < b@.len() implies c@[i] == b@[i] by {
                        assert(cloned::<u8>(b@[i], c@[i]));
                    }
                    assert(c@ =~= b@);
                }
                TensorData::Raw(c)
            },
            TensorData::Opaque => TensorData::Opaque,
        }
    }
}

/// The element count of a shape: the product of its dimensions.
pub open spec fn spec_numel(s: Seq<usize>) -> nat
    decreases s.len(),
{
    if s.len() == 0 {
        1
    } else {
        spec_numel(s.drop_last()) * (s.last() as nat)
    }
}

proof fn lemma_numel_zero(s: Seq<usize>, j: int)
    requires
        0 <= j < s.len(),
        s[j] == 0,
    ensures
        spec_numel(s) == 0,
    decreases s.len(),
{
    if j == s.len() - 1 {
        assert(s.last() == s[j]);
        assert(spec_numel(s) == spec_numel(s.drop_last()) * 0);
    } else {
        assert(s.drop_last()[j] == s[j]);
        lemma_numel_zero(s.drop_last(), j);
        assert(spec_numel(s) == 0 * (s.last() as nat));
    }
}

proof fn lemma_numel_prefix_le(s: Seq<usize>, i: int)
    requires
        0 <= i <= s.len(),
        forall|j: int| i <= j < s.len() ==> s[j] >= 1,
    ensures
        spec_numel(s.take(i)) <= spec_numel(s),
    decreases s.len() - i,
{
    if i == s.len() {
        assert(s.take(i) =~= s);
    } else {
        assert(s.take(i + 1).drop_last() =~= s.take(i));
        assert(s.take(i + 1).last() == s[i]);
        let a = spec_numel(s.take(i));
        let b = s[i] as nat;
        assert(a * b >= a) by (nonlinear_arith)
            requires b >= 1
        ;
        lemma_numel_prefix_le(s, i + 1);
    }
}

/// Computes the element count of `shape`, or `None` when the product
/// does not fit in `usize`.
pub fn checked_numel(shape: &Vec<usize>) -> (r: Option<usize>)
    ensures
        match r {
            Some(n) => n == spec_numel(shape@),
            None => spec_numel(shape@) > usize::MAX,
        },
{
    let n = shape.len();
    let mut i: usize = 0;
    while i < n
        invariant
            0 <= i <= n,
            n == shape@.len(),
            forall|j: int| 0 <= j < i ==> shape@[j] >= 1,
        decreases n - i,
    {
        if shape[i] == 0 {
            proof {
                lemma_numel_zero(shape@, i as int);
            }
            return Some(0);
        }
        i += 1;
    }
    let mut acc: usize = 1;
    i = 0;
    while i < n
        invariant
            0 <= i <= n,
            n == shape@.len(),
            forall|j: int| 0 <= j < n ==> shape@[j] >= 1,
            acc == spec_numel(shape@.take(i as int)),
        decreases n - i,
    {
        let d = shape[i];
        proof {
            assert(shape@.take(i + 1).drop_last() =~= shape@.take(i as int));
            assert(shape@.take(i + 1).last() == shape@[i as int]);
        }
        match acc.checked_mul(d) {
            Some(p) => {
                acc = p;
            },
            None => {
                proof {
                    lemma_numel_prefix_le(shape@, i + 1);
                }
                return None;
            },
        }
        i += 1;
    }
    proof {
        assert(shape@.take(n as int) =~= shape@);
    }
    Some(acc)
}

/// The backend's tensor model: a storage type, a shape, a device, and a
/// payload. Floating-point elements are carried as raw bytes; this
/// library reads codes and bit patterns from them but never computes
/// with floating-point values.
#[derive(Debug, PartialEq, Eq)]
pub struct TensorModel {
    pub dtype: DType,
    pub shape: Vec<usize>,
    pub device: Device,
    pub numel: usize,
    pub data: TensorData,
}

/// Mathematical value of a tensor.
pub struct TensorView {
    pub dtype: DType,
    pub shape: Seq<usize>,
    pub device: Device,
    pub data: TensorDataView,
}

impl View for TensorModel {
    type V = TensorView;

    open spec fn view(&self) -> TensorView {
        TensorView {
            dtype: self.dtype,
            shape: self.shape@,
            device: self.device,
            data: self.data@,
        }
    }
}

impl Clone for TensorModel {
    fn clone(&self) -> (r: TensorModel)
        ensures
            r@ == self@,
            r.numel == self.numel,
    {
        let r = TensorModel {
            dtype: self.dtype,
            shape: self.shape.clone(),
            device: self.device,
            numel: self.numel,
            data: self.data.clone(),
        };
        proof {
            assert forall|i: int| 0 <= i < self.shape@.len() implies r.shape@[i]
                == self.shape@[i] by {
                assert(cloned::<usize>(self.shape@[i], r.shape@[i]));
            }
            assert(r.shape@ =~= self.shape@);
        }
        r
    }
}

impl TensorModel {
    /// Well-formedness: the stored element count is the shape's product,
    /// the byte size fits in `usize`, and raw payloads have exactly that
    /// many bytes.
    pub open spec fn wf(self) -> bool {
        &&& self.numel == spec_numel(self.shape@)
        &&& self.numel * self.dtype.spec_size_in_bytes() <= usize::MAX
        &&& match self.data {
            TensorData::Raw(b) => b@.len() == self.numel * self.dtype.spec_size_in_bytes(),
            TensorData::Opaque => true,
        }
    }

    /// Total byte size of the tensor's storage.
    pub open spec fn spec_size_in_bytes(self) -> nat {
        (self.numel as nat) * self.dtype.spec_size_in_bytes()
    }

    /// Builds a tensor, checking that the element count and byte size fit
    /// in `usize` and that a raw payload has the right length.
    pub fn new(dtype: DType, shape: Vec<usize>, device: Device, data: TensorData) -> (r: Result<
        TensorModel,
        QuantError,
    >)
        ensures
            match r {
                Ok(t) => {
                    &&& t.wf()
                    &&& t.dtype == dtype
                    &&& t.shape@ == shape@
                    &&& t.device == device
                    &&& t.data@ == data@
                    &&& t.numel == spec_numel(shape@)
                },
                Err(e) => {
                    &&& (e == QuantError::SizeOverflow || e == QuantError::ShapeMismatch)
                    &&& (e == QuantError::SizeOverflow <==> spec_numel(shape@)
                        * dtype.spec_size_in_bytes() > usize::MAX)
                },
            },
            r is Err <==> (spec_numel(shape@) * dtype.spec_size_in_bytes() > usize::MAX || match data {
                TensorData::Raw(b) => b@.len() != spec_numel(shape@) * dtype.spec_size_in_bytes(),
                TensorData::Opaque => false,
            }),
    {
        let esize = dtype.size_in_bytes();
        let numel = match checked_numel(&shape) {
            Some(n) => n,
            None => {
                proof {
                    let p = spec_numel(shape@);
                    assert(p * dtype.spec_size_in_bytes() >= p) by (nonlinear_arith)
                        requires dtype.spec_size_in_bytes() >= 1
                    ;
                }
                return Err(QuantError::SizeOverflow);
            },
        };
        let size = match numel.checked_mul(esize) {
            Some(s) => s,
            None => {
                return Err(QuantError::SizeOverflow);
            },
        };
        match &data {
            TensorData::Raw(b) => {
                if b.len() != size {
                    return Err(QuantError::ShapeMismatch);
                }
            },
            TensorData::Opaque => {},
        }
        Ok(TensorModel { dtype, shape, device, numel, data })
    }

    /// Byte size of this tensor's storage.
    pub fn size_in_bytes(&self) -> (r: usize)
        requires
            self.wf(),
        ensures
            r == self.spec_size_in_bytes(),
    {
        self.numel * self.dtype.size_in_bytes()
    }

    /// A deep copy of the tensor placed on `dev`; the receiver is
    /// unaffected.
    pub fn to_device(&self, dev: Device) -> (r: TensorModel)
        ensures
            r.dtype == self.dtype,
            r.shape@ == self.shape@,
            r.numel == self.numel,
            r.data@ == self.data@,
            r.device == dev,
            self.wf() ==> r.wf(),
    {
        let mut r = self.clone();
        r.device = dev;
        r
    }
}

/// The little-endian 32-bit word at byte offset `i`.
pub open spec fn spec_u32_le(b: Seq<u8>, i: int) -> u32 {
    (b[i] as u32) | ((b[i + 1] as u32) << 8) | ((b[i + 2] as u32) << 16) | ((b[i + 3] as u32)
        << 24)
}

impl TensorModel {
    /// The bit pattern of 32-bit element `i`, when this tensor holds raw
    /// 4-byte elements host-side.
    pub fn bits32_at(&self, i: usize) -> (r: Option<u32>)
        requires
            self.wf(),
        ensures
            match r {
                Some(v) => {
                    &&& self.dtype.spec_size_in_bytes() == 4
                    &&& i < self.numel
                    &&& self.data matches TensorData::Raw(b) && v == spec_u32_le(b@, 4 * i)
                },
                None => !(self.dtype.spec_size_in_bytes() == 4 && i < self.numel
                    && self.data is Raw),
            },
    {
        let esize = self.dtype.size_in_bytes();
        if esize != 4 {
            return None;
        }
        if i >= self.numel {
            return None;
        }
        match &self.data {
            TensorData::Raw(b) => {
                proof {
                    assert((i as int) * 4 + 4 <= (self.numel as int) * 4) by (nonlinear_arith)
                        requires (i as int) < (self.numel as int)
                    ;
                }
                let off = i * 4;
                let v = (b[off] as u32) | ((b[off + 1] as u32) << 8) | ((b[off + 2] as u32) << 16)
                    | ((b[off + 3] as u32) << 24);
                Some(v)
            },
            TensorData::Opaque => None,
        }
    }
}

impl TensorModel {
    /// A tensor of the same shape whose elements the device backend
    /// converts to `dtype`; the content is device-computed.
    pub fn to_dtype(&self, dtype: DType) -> (r: Result<TensorModel, QuantError>)
        requires
            self.wf(),
        ensures
            match r {
                Ok(t) => {
                    &&& t.wf()
                    &&& t@ == (TensorView {
                        dtype,
                        shape: self@.shape,
                        device: self@.device,
                        data: TensorDataView::Opaque,
                    })
                    &&& t.numel == self.numel
                },
                Err(e) => e == QuantError::SizeOverflow && (self.numel as nat)
                    * dtype.spec_size_in_bytes() > usize::MAX,
            },
    {
        match self.numel.checked_mul(dtype.size_in_bytes()) {
            Some(_) => {
                let shape = self.shape.clone();
                proof {
                    assert forall|i: int| 0 <= i < self.shape@.len() implies shape@[i]
                        == self.shape@[i] by {
                        assert(cloned::<usize>(self.shape@[i], shape@[i]));
                    }
                    assert(shape@ =~= self.shape@);
                }
                Ok(
                    TensorModel {
                        dtype,
                        shape,
                        device: self.device,
                        numel: self.numel,
                        data: TensorData::Opaque,
                    },
                )
            },
            None => Err(QuantError::SizeOverflow),
        }
    }
}

} // verus!
