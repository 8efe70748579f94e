use crate::dtype::BnbDType;
use crate::error::QuantError;
use crate::metadata::Decimal;
use crate::tensor::{Device, TensorModel, TensorView};
use vstd::prelude::*;

verus! {

/// How one tensor was block-quantized: the per-block scale table, the
/// shared code table, the block size, the target shape, and the
/// optional nested parameters under which the scale table itself was
/// quantized, with the additive offset that then applies.
#[derive(Debug)]
pub struct BnbQuantParmas {
    pub absmax: TensorModel,
    pub code: TensorModel,
    pub blocksize: usize,
    pub shape: Option<Vec<usize>>,
    pub nested: Option<Box<BnbQuantParmas>>,
    pub offset: Option<Decimal>,
    pub dtype: BnbDType,
}

/// Mathematical value of quantization parameters.
pub struct BnbQuantParmasView {
    pub absmax: TensorView,
    pub code: TensorView,
    pub blocksize: usize,
    pub shape: Option<Seq<usize>>,
    pub nested: Option<Box<BnbQuantParmasView>>,
    pub offset: Option<Decimal>,
    pub dtype: BnbDType,
}

/// The view of quantization parameters, down the nested chain.
pub open spec fn spec_params_view(p: BnbQuantParmas) -> BnbQuantParmasView
    decreases p,
{
    BnbQuantParmasView {
        absmax: p.absmax@,
        code: p.code@,
        blocksize: p.blocksize,
        shape: match p.shape {
            Some(v) => Some(v@),
            None => None,
        },
        nested: match p.nested {
            Some(n) => Some(Box::new(spec_params_view(*n))),
            None => None,
        },
        offset: p.offset,
        dtype: p.dtype,
    }
}

impl View for BnbQuantParmas {
    type V = BnbQuantParmasView;

    open spec fn view(&self) -> BnbQuantParmasView {
        spec_params_view(*self)
    }
}

impl BnbQuantParmas {
    /// Well-formedness: the tensors are well formed down the chain, and
    /// the additive offset is present exactly when a nested chain is.
    pub open spec fn wf(self) -> bool
        decreases self,
    {
        &&& self.absmax.wf()
        &&& self.code.wf()
        &&& (self.offset is Some <==> self.nested is Some)
        &&& match self.nested {
            Some(n) => n.wf(),
            None => true,
        }
    }

    /// Total byte size of the owned tensors, the whole nested chain
    /// included.
    pub open spec fn spec_size_in_bytes(self) -> nat
        decreases self,
    {
        self.absmax.spec_size_in_bytes() + self.code.spec_size_in_bytes() + match self.nested {
            Some(n) => n.spec_size_in_bytes(),
            None => 0,
        }
    }

    /// Byte size of the parameters for memory accounting; the error
    /// reports a sum beyond the machine word.
    pub fn size_in_bytes(&self) -> (r: Result<usize, QuantError>)
        requires
            self.wf(),
        ensures
            match r {
                Ok(n) => n == self.spec_size_in_bytes(),
                Err(e) => e == QuantError::SizeOverflow && self.spec_size_in_bytes() > usize::MAX,
            },
        decreases *self,
    {
        let a = self.absmax.size_in_bytes();
        let c = self.code.size_in_bytes();
        let n: usize = match &self.nested {
            Some(nested) => {
                match nested.size_in_bytes() {
                    Ok(n) => n,
                    Err(e) => {
                        return Err(e);
                    },
                }
            },
            None => 0,
        };
        let ac = match a.checked_add(c) {
            Some(x) => x,
            None => {
                return Err(QuantError::SizeOverflow);
            },
        };
        match ac.checked_add(n) {
            Some(x) => Ok(x),
            None => Err(QuantError::SizeOverflow),
        }
    }

    /// A deep copy of the parameters, every owned tensor placed on
    /// `dev`; the receiver is unaffected.
    pub fn to_device(&self, dev: Device) -> (r: BnbQuantParmas)
        ensures
            spec_params_on_device(*self, r, dev),
            self.wf() ==> r.wf(),
        decreases *self,
    {
        let absmax = self.absmax.to_device(dev);
        let code = self.code.to_device(dev);
        let nested: Option<Box<BnbQuantParmas>> = match &self.nested {
            Some(n) => Some(Box::new(n.to_device(dev))),
            None => None,
        };
        let shape: Option<Vec<usize>> = match &self.shape {
            Some(sh) => {
                let c = sh.clone();
                proof {
                    assert forall|i: int| 0 <= i < sh@.len() implies c@[i] == sh@[i] by {
                        assert(cloned::<usize>(sh@[i], c@[i]));
                    }
                    assert(c@ =~= sh@);
                }
                Some(c)
            },
            None => None,
        };
        BnbQuantParmas {
            absmax,
            code,
            blocksize: self.blocksize,
            shape,
            nested,
            offset: self.offset,
            dtype: self.dtype,
        }
    }
}

/// `b` is `a` with every owned tensor moved to `dev` and everything
/// else kept, down the nested chain.
pub open spec fn spec_params_on_device(a: BnbQuantParmas, b: BnbQuantParmas, dev: Device) -> bool
    decreases a,
{
    &&& b.absmax@ == (TensorView {
        dtype: a.absmax@.dtype,
        shape: a.absmax@.shape,
        device: dev,
        data: a.absmax@.data,
    })
    &&& b.absmax.numel == a.absmax.numel
    &&& b.code@ == (TensorView {
        dtype: a.code@.dtype,
        shape: a.code@.shape,
        device: dev,
        data: a.code@.data,
    })
    &&& b.code.numel == a.code.numel
    &&& b.blocksize == a.blocksize
    &&& match (a.shape, b.shape) {
        (Some(u), Some(v)) => u@ == v@,
        (None, None) => true,
        _ => false,
    }
    &&& b.offset == a.offset
    &&& b.dtype == a.dtype
    &&& match (a.nested, b.nested) {
        (Some(x), Some(y)) => spec_params_on_device(*x, *y, dev),
        (None, None) => true,
        _ => false,
    }
}

} // verus!
