use crate::dtype::DType;
use crate::tensor::{spec_u32_le, TensorData, TensorModel};
use vstd::prelude::*;

verus! {

/// The 4-bit code of element `i` in a packed byte sequence: even
/// elements sit in the high nibble, odd elements in the low nibble of
/// byte `i / 2`.
pub open spec fn spec_code_at(b: Seq<u8>, i: int) -> u8 {
    if i % 2 == 0 {
        b[i / 2] >> 4u8
    } else {
        b[i / 2] & 0x0fu8
    }
}

/// The bit pattern of 32-bit table entry `k` in raw bytes `b`.
pub open spec fn spec_table_bits(b: Seq<u8>, k: int) -> u32 {
    spec_u32_le(b, 4 * k)
}

impl TensorModel {
    /// The 4-bit code of output element `i` of this packed weight
    /// tensor (two codes per stored byte).
    pub fn code_at(&self, i: usize) -> (r: Option<u8>)
        requires
            self.wf(),
        ensures
            match r {
                Some(c) => {
                    &&& self.dtype == DType::U8
                    &&& self.data matches TensorData::Raw(b) && i / 2 < b@.len() && c
                        == spec_code_at(b@, i as int) && c < 16
                },
                None => !(self.dtype == DType::U8 && self.data is Raw && i / 2 < self.numel),
            },
    {
        if !matches!(self.dtype, DType::U8) {
            return None;
        }
        match &self.data {
            TensorData::Raw(b) => {
                let half = i / 2;
                if half >= self.numel {
                    return None;
                }
                let byte = b[half];
                let c: u8 = if i % 2 == 0 {
                    byte >> 4u8
                } else {
                    byte & 0x0fu8
                };
                proof {
                    assert((byte >> 4u8) < 16 && (byte & 0x0fu8) < 16) by (bit_vector);
                }
                Some(c)
            },
            TensorData::Opaque => None,
        }
    }

    /// The bit pattern stored in entry `c` of this code table.
    pub fn code_value_bits(&self, c: u8) -> (r: Option<u32>)
        requires
            self.wf(),
        ensures
            match r {
                Some(v) => {
                    &&& self.dtype.spec_size_in_bytes() == 4
                    &&& (c as int) < self.numel
                    &&& self.data matches TensorData::Raw(b) && v == spec_u32_le(b@, 4 * (c as int))
                },
                None => !(self.dtype.spec_size_in_bytes() == 4 && (c as int) < self.numel
                    && self.data is Raw),
            },
    {
        self.bits32_at(c as usize)
    }

    /// The lowest code whose table entry holds exactly the bit pattern
    /// `value_bits`, if any: the exact inverse of the table lookup.
    pub fn find_code(&self, value_bits: u32) -> (r: Option<u8>)
        requires
            self.wf(),
            self.dtype.spec_size_in_bytes() == 4,
            self.numel <= 256,
            self.data is Raw,
        ensures
            match r {
                Some(c) => {
                    &&& (c as int) < self.numel
                    &&& self.data matches TensorData::Raw(b) && spec_table_bits(b@, c as int)
                        == value_bits
                    &&& forall|k: int|
                        #![trigger spec_table_bits(self.data->Raw_0@, k)]
                        0 <= k < c ==> spec_table_bits(self.data->Raw_0@, k) != value_bits
                },
                None => forall|k: int|
                    #![trigger spec_table_bits(self.data->Raw_0@, k)]
                    0 <= k < self.numel ==> spec_table_bits(self.data->Raw_0@, k) != value_bits,
            },
    {
        let n = self.numel;
        let mut c: usize = 0;
        while c < n
            invariant
                self.wf(),
                self.dtype.spec_size_in_bytes() == 4,
                self.data is Raw,
                n == self.numel <= 256,
                0 <= c <= n,
                forall|k: int|
                    #![trigger spec_table_bits(self.data->Raw_0@, k)]
                    0 <= k < c ==> spec_table_bits(self.data->Raw_0@, k) != value_bits,
            decreases n - c,
        {
            match self.bits32_at(c) {
                Some(v) => {
                    proof {
                        assert(v == spec_table_bits(self.data->Raw_0@, c as int));
                    }
                    if v == value_bits {
                        return Some(c as u8);
                    }
                },
                None => {
                    proof {
                        assert(false);
                    }
                },
            }
            c += 1;
        }
        None
    }
}

/// Looking a code up in the table and searching the table for the
/// resulting bit pattern round-trips exactly: the search returns a code
/// whose entry holds the same bits, and the first such one. When the
/// table's entries are pairwise distinct, that code is `c` itself.
pub proof fn lemma_code_round_trip(t: TensorModel, c: u8, r: Option<u8>)
    requires
        t.wf(),
        t.dtype.spec_size_in_bytes() == 4,
        t.numel <= 256,
        t.data is Raw,
        (c as int) < t.numel,
        forall|k1: int, k2: int|
            #![trigger spec_table_bits(t.data->Raw_0@, k1), spec_table_bits(t.data->Raw_0@, k2)]
            0 <= k1 < k2 < t.numel ==> spec_table_bits(t.data->Raw_0@, k1) != spec_table_bits(
                t.data->Raw_0@,
                k2,
            ),
        // what `find_code` may return for the bits of entry `c`
        r matches Some(c2) ==> (c2 as int) < t.numel && spec_table_bits(t.data->Raw_0@, c2 as int)
            == spec_table_bits(t.data->Raw_0@, c as int) && (forall|k: int|
            #![trigger spec_table_bits(t.data->Raw_0@, k)]
            0 <= k < c2 ==> spec_table_bits(t.data->Raw_0@, k) != spec_table_bits(
                t.data->Raw_0@,
                c as int,
            )),
        r is None ==> forall|k: int|
            #![trigger spec_table_bits(t.data->Raw_0@, k)]
            0 <= k < t.numel ==> spec_table_bits(t.data->Raw_0@, k) != spec_table_bits(
                t.data->Raw_0@,
                c as int,
            ),
    ensures
        r == Some(c),
{
    let b = t.data->Raw_0@;
    match r {
        Some(c2) => {
            if (c2 as int) < (c as int) {
                assert(spec_table_bits(b, c2 as int) != spec_table_bits(b, c as int));
            } else if (c as int) < (c2 as int) {
                assert(spec_table_bits(b, c as int) != spec_table_bits(b, c2 as int));
            }
        },
        None => {
            // mentioning entry c's bits lets the quantifier instance at
            // k = c refute this case
            assert(spec_table_bits(t.data->Raw_0@, c as int) < 0x1_0000_0000);
            assert(false);
        },
    }
}

} // verus!
