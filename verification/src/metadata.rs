use crate::dtype::BnbDType;
use crate::error::QuantError;
use vstd::prelude::*;

verus! {

/// A decimal number, the value (-1)^neg * mantissa * 10^exp10. The
/// nested-quantization offset is carried in this form; the device
/// bindings turn it into the float the kernels take. Mantissas that do
/// not fit in 64 bits are rejected as malformed metadata.
#[derive(Debug, Clone, Copy, PartialEq, Eq, Structural)]
pub struct Decimal {
    pub neg: bool,
    pub mantissa: u64,
    pub exp10: i32,
}

/// The quantization metadata of one 4-bit tensor, decoded from the
/// marker tensor's JSON blob: `{blocksize, shape, dtype,
/// nested_blocksize?, nested_offset?, nested_dtype?}`. Unknown keys
/// are ignored.
#[derive(Debug, PartialEq, Eq)]
pub struct BnbQuantState {
    pub blocksize: usize,
    pub shape: Vec<usize>,
    pub dtype: BnbDType,
    pub nested_blocksize: Option<usize>,
    pub nested_offset: Option<Decimal>,
    pub nested_dtype: Option<BnbDType>,
}

/// Mathematical value of a decoded metadata blob.
pub struct QuantStateView {
    pub blocksize: usize,
    pub shape: Seq<usize>,
    pub dtype: BnbDType,
    pub nested_blocksize: Option<usize>,
    pub nested_offset: Option<Decimal>,
    pub nested_dtype: Option<BnbDType>,
}

impl View for BnbQuantState {
    type V = QuantStateView;

    open spec fn view(&self) -> QuantStateView {
        QuantStateView {
            blocksize: self.blocksize,
            shape: self.shape@,
            dtype: self.dtype,
            nested_blocksize: self.nested_blocksize,
            nested_offset: self.nested_offset,
            nested_dtype: self.nested_dtype,
        }
    }
}

impl Clone for BnbQuantState {
    fn clone(&self) -> (r: BnbQuantState)
        ensures
            r@ == self@,
    {
        let shape = self.shape.clone();
        proof {
            assert forall|i: int| 0 <= i < self.shape@.len() implies shape@[i]
                == self.shape@[i] by {
                assert(cloned::<usize>(self.shape@[i], shape@[i]));
            }
            assert(shape@ =~= self.shape@);
        }
        BnbQuantState {
            blocksize: self.blocksize,
            shape,
            dtype: self.dtype,
            nested_blocksize: self.nested_blocksize,
            nested_offset: self.nested_offset,
            nested_dtype: self.nested_dtype,
        }
    }
}

pub open spec fn spec_is_ws(c: u8) -> bool {
    c == 0x20 || c == 0x09 || c == 0x0a || c == 0x0d
}

pub open spec fn spec_is_digit(c: u8) -> bool {
    0x30 <= c <= 0x39
}

/// The first position at or after `i` that does not hold whitespace.
pub open spec fn spec_skip_ws(s: Seq<u8>, i: int) -> int
    decreases s.len() - i,
{
    if 0 <= i < s.len() && spec_is_ws(s[i]) {
        spec_skip_ws(s, i + 1)
    } else {
        i
    }
}


fn skip_ws(s: &Vec<u8>, i: usize) -> (r: usize)
    requires
        i <= s@.len(),
    ensures
        r == spec_skip_ws(s@, i as int),
        i <= r <= s@.len(),
    decreases s@.len() - i,
{
    if i < s.len() {
        let c = s[i];
        if c == 0x20 || c == 0x09 || c == 0x0a || c == 0x0d {
            return skip_ws(s, i + 1);
        }
    }
    i
}

/// The end of the digit run starting at `i`.
pub open spec fn spec_digits_end(s: Seq<u8>, i: int) -> int
    decreases s.len() - i,
{
    if 0 <= i < s.len() && spec_is_digit(s[i]) {
        spec_digits_end(s, i + 1)
    } else {
        i
    }
}


fn digits_end(s: &Vec<u8>, i: usize) -> (r: usize)
    requires
        i <= s@.len(),
    ensures
        r == spec_digits_end(s@, i as int),
        i <= r <= s@.len(),
    decreases s@.len() - i,
{
    if i < s.len() {
        let c = s[i];
        if 0x30 <= c && c <= 0x39 {
            return digits_end(s, i + 1);
        }
    }
    i
}

/// The value of the digit run `s[i..j]`, read in base ten.
pub open spec fn spec_digits_value(s: Seq<u8>, i: int, j: int) -> int
    decreases j - i,
{
    if i < j {
        spec_digits_value(s, i, j - 1) * 10 + (s[j - 1] - 0x30)
    } else {
        0
    }
}

pub proof fn lemma_digits_value_nonneg(s: Seq<u8>, i: int, j: int)
    requires
        0 <= i,
        j <= s.len(),
        forall|k: int| i <= k < j ==> spec_is_digit(s[k]),
    ensures
        spec_digits_value(s, i, j) >= 0,
    decreases j - i,
{
    if i < j {
        lemma_digits_value_nonneg(s, i, j - 1);
    }
}

pub proof fn lemma_digits_value_grows(s: Seq<u8>, i: int, j: int, j2: int)
    requires
        0 <= i <= j <= j2 <= s.len(),
        forall|k: int| i <= k < j2 ==> spec_is_digit(s[k]),
    ensures
        spec_digits_value(s, i, j2) >= spec_digits_value(s, i, j),
    decreases j2 - j,
{
    if j < j2 {
        lemma_digits_value_grows(s, i, j, j2 - 1);
        lemma_digits_value_nonneg(s, i, j2 - 1);
        let v = spec_digits_value(s, i, j2 - 1);
        assert(v * 10 >= v) by (nonlinear_arith)
            requires v >= 0
        ;
    }
}

/// Reads an unsigned integer: `None` when no digit stands at `i` or the
/// value does not fit in 64 bits.
pub open spec fn spec_parse_u64(s: Seq<u8>, i: int) -> Option<(u64, int)> {
    let j = spec_digits_end(s, i);
    if j == i {
        None
    } else if spec_digits_value(s, i, j) <= u64::MAX {
        Some((spec_digits_value(s, i, j) as u64, j))
    } else {
        None
    }
}

fn parse_u64(s: &Vec<u8>, i: usize) -> (r: Option<(u64, usize)>)
    requires
        i <= s@.len(),
    ensures
        match r {
            Some((v, j)) => spec_parse_u64(s@, i as int) == Some((v, j as int)) && i < j
                <= s@.len(),
            None => spec_parse_u64(s@, i as int) is None,
        },
{
    let j = digits_end(s, i);
    if j == i {
        return None;
    }
    proof {
        assert forall|k: int| i <= k < j implies spec_is_digit(s@[k]) by {
            lemma_digits_run(s@, i as int, k);
        }
    }
    let mut acc: u64 = 0;
    let mut k: usize = i;
    while k < j
        invariant
            i <= k <= j <= s@.len(),
            forall|t: int| i <= t < j ==> spec_is_digit(s@[t]),
            j == spec_digits_end(s@, i as int),
            acc == spec_digits_value(s@, i as int, k as int),
        decreases j - k,
    {
        let d = s[k];
        let dv: u64 = (d - 0x30) as u64;
        let m = match acc.checked_mul(10) {
            Some(m) => m,
            None => {
                proof {
                    overflow_tail(s@, i as int, k as int, j as int);
                }
                return None;
            },
        };
        let a2 = match m.checked_add(dv) {
            Some(a2) => a2,
            None => {
                proof {
                    overflow_tail(s@, i as int, k as int, j as int);
                }
                return None;
            },
        };
        acc = a2;
        k += 1;
    }
    Some((acc, j))
}

/// Digits run facts: every position before the digit-run end holds a
/// digit.
pub proof fn lemma_digits_run(s: Seq<u8>, i: int, k: int)
    requires
        0 <= i <= k,
        k < spec_digits_end(s, i),
    ensures
        spec_is_digit(s[k]),
        k < s.len(),
    decreases k - i,
{
    if !(0 <= i < s.len() && spec_is_digit(s[i])) {
    } else {
        if k > i {
            lemma_digits_run(s, i + 1, k);
        }
    }
}

/// When the value of the digits seen so far already exceeds the 64-bit
/// range, the whole run's value does too.
proof fn overflow_tail(s: Seq<u8>, i: int, k: int, j: int)
    requires
        0 <= i <= k < j <= s.len(),
        forall|t: int| i <= t < j ==> spec_is_digit(s[t]),
        spec_digits_value(s, i, k) * 10 + (s[k] - 0x30) > u64::MAX,
    ensures
        spec_digits_value(s, i, j) > u64::MAX,
{
    lemma_digits_value_grows(s, i, k + 1, j);
}


/// The bytes of `"blocksize"`.
pub open spec fn key_blocksize() -> Seq<u8> {
    seq![98u8, 108u8, 111u8, 99u8, 107u8, 115u8, 105u8, 122u8, 101u8]
}

fn key_blocksize_vec() -> (r: Vec<u8>)
    ensures
        r@ == key_blocksize(),
{
    let mut v: Vec<u8> = Vec::new();
    v.push(98);
    v.push(108);
    v.push(111);
    v.push(99);
    v.push(107);
    v.push(115);
    v.push(105);
    v.push(122);
    v.push(101);
    proof {
        assert(v@ =~= key_blocksize());
    }
    v
}

/// The bytes of `"shape"`.
pub open spec fn key_shape() -> Seq<u8> {
    seq![115u8, 104u8, 97u8, 112u8, 101u8]
}

fn key_shape_vec() -> (r: Vec<u8>)
    ensures
        r@ == key_shape(),
{
    let mut v: Vec<u8> = Vec::new();
    v.push(115);
    v.push(104);
    v.push(97);
    v.push(112);
    v.push(101);
    proof {
        assert(v@ =~= key_shape());
    }
    v
}

/// The bytes of `"dtype"`.
pub open spec fn key_dtype() -> Seq<u8> {
    seq![100u8, 116u8, 121u8, 112u8, 101u8]
}

fn key_dtype_vec() -> (r: Vec<u8>)
    ensures
        r@ == key_dtype(),
{
    let mut v: Vec<u8> = Vec::new();
    v.push(100);
    v.push(116);
    v.push(121);
    v.push(112);
    v.push(101);
    proof {
        assert(v@ =~= key_dtype());
    }
    v
}

/// The bytes of `"nested_blocksize"`.
pub open spec fn key_nested_blocksize() -> Seq<u8> {
    seq![110u8, 101u8, 115u8, 116u8, 101u8, 100u8, 95u8, 98u8, 108u8, 111u8, 99u8, 107u8, 115u8, 105u8, 122u8, 101u8]
}

fn key_nested_blocksize_vec() -> (r: Vec<u8>)
    ensures
        r@ == key_nested_blocksize(),
{
    let mut v: Vec<u8> = Vec::new();
    v.push(110);
    v.push(101);
    v.push(115);
    v.push(116);
    v.push(101);
    v.push(100);
    v.push(95);
    v.push(98);
    v.push(108);
    v.push(111);
    v.push(99);
    v.push(107);
    v.push(115);
    v.push(105);
    v.push(122);
    v.push(101);
    proof {
        assert(v@ =~= key_nested_blocksize());
    }
    v
}

/// The bytes of `"nested_offset"`.
pub open spec fn key_nested_offset() -> Seq<u8> {
    seq![110u8, 101u8, 115u8, 116u8, 101u8, 100u8, 95u8, 111u8, 102u8, 102u8, 115u8, 101u8, 116u8]
}

fn key_nested_offset_vec() -> (r: Vec<u8>)
    ensures
        r@ == key_nested_offset(),
{
    let mut v: Vec<u8> = Vec::new();
    v.push(110);
    v.push(101);
    v.push(115);
    v.push(116);
    v.push(101);
    v.push(100);
    v.push(95);
    v.push(111);
    v.push(102);
    v.push(102);
    v.push(115);
    v.push(101);
    v.push(116);
    proof {
        assert(v@ =~= key_nested_offset());
    }
    v
}

/// The bytes of `"nested_dtype"`.
pub open spec fn key_nested_dtype() -> Seq<u8> {
    seq![110u8, 101u8, 115u8, 116u8, 101u8, 100u8, 95u8, 100u8, 116u8, 121u8, 112u8, 101u8]
}

fn key_nested_dtype_vec() -> (r: Vec<u8>)
    ensures
        r@ == key_nested_dtype(),
{
    let mut v: Vec<u8> = Vec::new();
    v.push(110);
    v.push(101);
    v.push(115);
    v.push(116);
    v.push(101);
    v.push(100);
    v.push(95);
    v.push(100);
    v.push(116);
    v.push(121);
    v.push(112);
    v.push(101);
    proof {
        assert(v@ =~= key_nested_dtype());
    }
    v
}

/// The bytes of `"float32"`.
pub open spec fn key_float32() -> Seq<u8> {
    seq![102u8, 108u8, 111u8, 97u8, 116u8, 51u8, 50u8]
}

fn key_float32_vec() -> (r: Vec<u8>)
    ensures
        r@ == key_float32(),
{
    let mut v: Vec<u8> = Vec::new();
    v.push(102);
    v.push(108);
    v.push(111);
    v.push(97);
    v.push(116);
    v.push(51);
    v.push(50);
    proof {
        assert(v@ =~= key_float32());
    }
    v
}

/// The bytes of `"bfloat16"`.
pub open spec fn key_bfloat16() -> Seq<u8> {
    seq![98u8, 102u8, 108u8, 111u8, 97u8, 116u8, 49u8, 54u8]
}

fn key_bfloat16_vec() -> (r: Vec<u8>)
    ensures
        r@ == key_bfloat16(),
{
    let mut v: Vec<u8> = Vec::new();
    v.push(98);
    v.push(102);
    v.push(108);
    v.push(111);
    v.push(97);
    v.push(116);
    v.push(49);
    v.push(54);
    proof {
        assert(v@ =~= key_bfloat16());
    }
    v
}

/// The bytes of `"float16"`.
pub open spec fn key_float16() -> Seq<u8> {
    seq![102u8, 108u8, 111u8, 97u8, 116u8, 49u8, 54u8]
}

fn key_float16_vec() -> (r: Vec<u8>)
    ensures
        r@ == key_float16(),
{
    let mut v: Vec<u8> = Vec::new();
    v.push(102);
    v.push(108);
    v.push(111);
    v.push(97);
    v.push(116);
    v.push(49);
    v.push(54);
    proof {
        assert(v@ =~= key_float16());
    }
    v
}

/// The bytes of `"true"`.
pub open spec fn key_lit_true() -> Seq<u8> {
    seq![116u8, 114u8, 117u8, 101u8]
}

fn key_lit_true_vec() -> (r: Vec<u8>)
    ensures
        r@ == key_lit_true(),
{
    let mut v: Vec<u8> = Vec::new();
    v.push(116);
    v.push(114);
    v.push(117);
    v.push(101);
    proof {
        assert(v@ =~= key_lit_true());
    }
    v
}

/// The bytes of `"false"`.
pub open spec fn key_lit_false() -> Seq<u8> {
    seq![102u8, 97u8, 108u8, 115u8, 101u8]
}

fn key_lit_false_vec() -> (r: Vec<u8>)
    ensures
        r@ == key_lit_false(),
{
    let mut v: Vec<u8> = Vec::new();
    v.push(102);
    v.push(97);
    v.push(108);
    v.push(115);
    v.push(101);
    proof {
        assert(v@ =~= key_lit_false());
    }
    v
}

/// The bytes of `"null"`.
pub open spec fn key_lit_null() -> Seq<u8> {
    seq![110u8, 117u8, 108u8, 108u8]
}

fn key_lit_null_vec() -> (r: Vec<u8>)
    ensures
        r@ == key_lit_null(),
{
    let mut v: Vec<u8> = Vec::new();
    v.push(110);
    v.push(117);
    v.push(108);
    v.push(108);
    proof {
        assert(v@ =~= key_lit_null());
    }
    v
}

/// Whether `s[lo..hi]` equals `key`.
fn bytes_eq_range(s: &Vec<u8>, lo: usize, hi: usize, key: &Vec<u8>) -> (r: bool)
    requires
        lo <= hi <= s@.len(),
    ensures
        r == (s@.subrange(lo as int, hi as int) == key@),
{
    proof {
        assert(s@.subrange(lo as int, hi as int).len() == hi - lo);
    }
    if hi - lo != key.len() {
        return false;
    }
    let n = key.len();
    let mut t: usize = 0;
    while t < n
        invariant
            n == key@.len(),
            lo + n == hi,
            hi <= s@.len(),
            0 <= t <= n,
            forall|u: int| 0 <= u < t ==> s@[lo + u] == key@[u],
        decreases n - t,
    {
        if s[lo + t] != key[t] {
            proof {
                assert(s@.subrange(lo as int, hi as int)[t as int] == s@[lo + t]);
            }
            return false;
        }
        t += 1;
    }
    proof {
        assert(s@.subrange(lo as int, hi as int) =~= key@);
    }
    true
}

/// The closing quote of a string whose content starts at `i`: `None`
/// when the text ends first, a backslash escape appears, or a byte
/// outside printable ASCII appears. JSON forbids raw control bytes in
/// strings, and bytes at or above 0x80 are never valid on their own
/// in UTF-8 text; valid metadata strings are plain ASCII, so both are
/// rejected and a blob that is not UTF-8 JSON is malformed.
pub open spec fn spec_string_end(s: Seq<u8>, i: int) -> Option<int>
    decreases s.len() - i,
{
    if 0 <= i < s.len() {
        if s[i] == 0x22 {
            Some(i)
        } else if s[i] == 0x5c {
            None
        } else if s[i] < 0x20 || s[i] >= 0x80 {
            None
        } else {
            spec_string_end(s, i + 1)
        }
    } else {
        None
    }
}


fn string_end(s: &Vec<u8>, i: usize) -> (r: Option<usize>)
    requires
        i <= s@.len(),
    ensures
        match r {
            Some(j) => spec_string_end(s@, i as int) == Some(j as int) && i <= j < s@.len(),
            None => spec_string_end(s@, i as int) is None,
        },
    decreases s@.len() - i,
{
    if i < s.len() {
        let c = s[i];
        if c == 0x22 {
            Some(i)
        } else if c == 0x5c {
            None
        } else if c < 0x20 || c >= 0x80 {
            None
        } else {
            string_end(s, i + 1)
        }
    } else {
        None
    }
}

/// Reads a string token at `i`: the content span and the position
/// after the closing quote.
pub open spec fn spec_parse_string(s: Seq<u8>, i: int) -> Option<(int, int, int)> {
    if 0 <= i < s.len() && s[i] == 0x22 {
        match spec_string_end(s, i + 1) {
            Some(j) => Some((i + 1, j, j + 1)),
            None => None,
        }
    } else {
        None
    }
}

fn parse_string(s: &Vec<u8>, i: usize) -> (r: Option<(usize, usize, usize)>)
    requires
        i <= s@.len(),
    ensures
        match r {
            Some((lo, hi, e)) => spec_parse_string(s@, i as int) == Some(
                (lo as int, hi as int, e as int),
            ) && i < lo <= hi < e <= s@.len(),
            None => spec_parse_string(s@, i as int) is None,
        },
{
    if i < s.len() && s[i] == 0x22 {
        match string_end(s, i + 1) {
            Some(j) => Some((i + 1, j, j + 1)),
            None => None,
        }
    } else {
        None
    }
}

/// The value of a digit sequence read left to right.
pub open spec fn spec_digits_seq(d: Seq<u8>) -> int
    decreases d.len(),
{
    if d.len() == 0 {
        0
    } else {
        spec_digits_seq(d.drop_last()) * 10 + (d.last() - 0x30)
    }
}

pub proof fn lemma_digits_seq_nonneg(d: Seq<u8>)
    requires
        forall|k: int| 0 <= k < d.len() ==> spec_is_digit(d[k]),
    ensures
        spec_digits_seq(d) >= 0,
    decreases d.len(),
{
    if d.len() > 0 {
        lemma_digits_seq_nonneg(d.drop_last());
    }
}

pub proof fn lemma_digits_seq_prefix(d: Seq<u8>, n: int)
    requires
        0 <= n <= d.len(),
        forall|k: int| 0 <= k < d.len() ==> spec_is_digit(d[k]),
    ensures
        spec_digits_seq(d) >= spec_digits_seq(d.take(n)),
    decreases d.len() - n,
{
    if n < d.len() {
        assert(d.take(n + 1).drop_last() =~= d.take(n));
        assert(d.take(n + 1).last() == d[n]);
        lemma_digits_seq_nonneg(d.take(n));
        let v = spec_digits_seq(d.take(n));
        assert(v * 10 >= v) by (nonlinear_arith)
            requires v >= 0
        ;
        lemma_digits_seq_prefix(d, n + 1);
        assert(d.take(d.len() as int) =~= d);
    } else {
        assert(d.take(n) =~= d);
    }
}

/// Whether the bytes of `lit` stand at position `i`.
pub open spec fn spec_match_at(s: Seq<u8>, i: int, lit: Seq<u8>) -> bool {
    i + lit.len() <= s.len() && s.subrange(i, i + lit.len()) == lit
}

/// Consumes a number token without reading its value; skipped values
/// of unknown keys may hold any mantissa.
pub open spec fn spec_skip_number(s: Seq<u8>, i: int) -> Option<int> {
    if !(0 <= i <= s.len()) {
        None
    } else {
        let i1 = if i < s.len() && s[i] == 0x2d {
            i + 1
        } else {
            i
        };
        let j1 = spec_digits_end(s, i1);
        if j1 == i1 {
            None
        } else {
            let has_frac = j1 < s.len() && s[j1] == 0x2e;
            let fr_end = if has_frac {
                spec_digits_end(s, j1 + 1)
            } else {
                j1
            };
            if has_frac && fr_end == j1 + 1 {
                None
            } else {
                let after = if has_frac {
                    fr_end
                } else {
                    j1
                };
                if after < s.len() && (s[after] == 0x65 || s[after] == 0x45) {
                    let es = if after + 1 < s.len() && (s[after + 1] == 0x2d || s[after + 1]
                        == 0x2b) {
                        after + 2
                    } else {
                        after + 1
                    };
                    let j3 = spec_digits_end(s, es);
                    if j3 == es {
                        None
                    } else {
                        Some(j3)
                    }
                } else {
                    Some(after)
                }
            }
        }
    }
}

fn skip_number(s: &Vec<u8>, i: usize) -> (r: Option<usize>)
    requires
        i <= s@.len(),
    ensures
        match r {
            Some(e) => spec_skip_number(s@, i as int) == Some(e as int) && i < e <= s@.len(),
            None => spec_skip_number(s@, i as int) is None,
        },
{
    let i1: usize = if i < s.len() && s[i] == 0x2d {
        i + 1
    } else {
        i
    };
    let j1 = digits_end(s, i1);
    if j1 == i1 {
        return None;
    }
    let has_frac = j1 < s.len() && s[j1] == 0x2e;
    let fr_end: usize = if has_frac {
        digits_end(s, j1 + 1)
    } else {
        j1
    };
    if has_frac && fr_end == j1 + 1 {
        return None;
    }
    let after: usize = if has_frac {
        fr_end
    } else {
        j1
    };
    if after < s.len() && (s[after] == 0x65 || s[after] == 0x45) {
        let es: usize = if after + 1 < s.len() && (s[after + 1] == 0x2d || s[after + 1] == 0x2b) {
            after + 2
        } else {
            after + 1
        };
        let j3 = digits_end(s, es);
        if j3 == es {
            None
        } else {
            Some(j3)
        }
    } else {
        Some(after)
    }
}

/// Consumes one JSON value of any shape: a string, number, literal,
/// array or object. Returns the position after it.
pub open spec fn spec_skip_value(s: Seq<u8>, i: int) -> Option<int>
    decreases s.len() - i, 0int,
{
    if !(0 <= i < s.len()) {
        None
    } else {
        let c = s[i];
        if c == 0x22 {
            match spec_string_end(s, i + 1) {
                Some(j) => Some(j + 1),
                None => None,
            }
        } else if c == 0x5b {
            spec_skip_array_items(s, i + 1, true)
        } else if c == 0x7b {
            spec_skip_object_items(s, i + 1, true)
        } else if c == 0x74 {
            if spec_match_at(s, i, key_lit_true()) {
                Some(i + 4)
            } else {
                None
            }
        } else if c == 0x66 {
            if spec_match_at(s, i, key_lit_false()) {
                Some(i + 5)
            } else {
                None
            }
        } else if c == 0x6e {
            if spec_match_at(s, i, key_lit_null()) {
                Some(i + 4)
            } else {
                None
            }
        } else {
            spec_skip_number(s, i)
        }
    }
}

/// Consumes the rest of an array after `[` (or after a separating
/// comma when `first` is false), up to and including the closing `]`.
pub open spec fn spec_skip_array_items(s: Seq<u8>, i: int, first: bool) -> Option<int>
    decreases s.len() - i, 1int,
{
    if !(0 <= i <= s.len()) {
        None
    } else {
        let j = spec_skip_ws(s, i);
        if !(i <= j && j < s.len()) {
            None
        } else if s[j] == 0x5d && first {
            Some(j + 1)
        } else {
            match spec_skip_value(s, j) {
                None => None,
                Some(e) => {
                    if !(j < e && e <= s.len()) {
                        None
                    } else {
                        let j2 = spec_skip_ws(s, e);
                        if !(e <= j2 && j2 < s.len()) {
                            None
                        } else if s[j2] == 0x5d {
                            Some(j2 + 1)
                        } else if s[j2] == 0x2c {
                            spec_skip_array_items(s, j2 + 1, false)
                        } else {
                            None
                        }
                    }
                },
            }
        }
    }
}

/// Consumes the rest of an object after `{` (or after a separating
/// comma when `first` is false), up to and including the closing `}`.
pub open spec fn spec_skip_object_items(s: Seq<u8>, i: int, first: bool) -> Option<int>
    decreases s.len() - i, 2int,
{
    if !(0 <= i <= s.len()) {
        None
    } else {
        let j = spec_skip_ws(s, i);
        if !(i <= j && j < s.len()) {
            None
        } else if s[j] == 0x7d && first {
            Some(j + 1)
        } else {
            match spec_parse_string(s, j) {
                None => None,
                Some((lo, hi, e1)) => {
                    let j2 = spec_skip_ws(s, e1);
                    if !(j < j2 && j2 < s.len()) {
                        None
                    } else if s[j2] != 0x3a {
                        None
                    } else {
                        let j3 = spec_skip_ws(s, j2 + 1);
                        if !(i < j3 && j3 <= s.len()) {
                            None
                        } else {
                            match spec_skip_value(s, j3) {
                                None => None,
                                Some(e2) => {
                                    if !(j3 < e2 && e2 <= s.len()) {
                                        None
                                    } else {
                                        let j4 = spec_skip_ws(s, e2);
                                        if !(e2 <= j4 && j4 < s.len()) {
                                            None
                                        } else if s[j4] == 0x7d {
                                            Some(j4 + 1)
                                        } else if s[j4] == 0x2c {
                                            spec_skip_object_items(s, j4 + 1, false)
                                        } else {
                                            None
                                        }
                                    }
                                },
                            }
                        }
                    }
                },
            }
        }
    }
}

fn skip_value(s: &Vec<u8>, i: usize) -> (r: Option<usize>)
    requires
        i <= s@.len(),
    ensures
        match r {
            Some(e) => spec_skip_value(s@, i as int) == Some(e as int) && i < e <= s@.len(),
            None => spec_skip_value(s@, i as int) is None,
        },
    decreases s@.len() - i, 0int,
{
    if !(i < s.len()) {
        return None;
    }
    let c = s[i];
    if c == 0x22 {
        match string_end(s, i + 1) {
            Some(j) => Some(j + 1),
            None => None,
        }
    } else if c == 0x5b {
        skip_array_items(s, i + 1, true)
    } else if c == 0x7b {
        skip_object_items(s, i + 1, true)
    } else if c == 0x74 {
        let lit = key_lit_true_vec();
        if s.len() - i >= 4 && bytes_eq_range(s, i, i + 4, &lit) {
            Some(i + 4)
        } else {
            proof {
                assert(!spec_match_at(s@, i as int, key_lit_true()));
            }
            None
        }
    } else if c == 0x66 {
        let lit = key_lit_false_vec();
        if s.len() - i >= 5 && bytes_eq_range(s, i, i + 5, &lit) {
            Some(i + 5)
        } else {
            proof {
                assert(!spec_match_at(s@, i as int, key_lit_false()));
            }
            None
        }
    } else if c == 0x6e {
        let lit = key_lit_null_vec();
        if s.len() - i >= 4 && bytes_eq_range(s, i, i + 4, &lit) {
            Some(i + 4)
        } else {
            proof {
                assert(!spec_match_at(s@, i as int, key_lit_null()));
            }
            None
        }
    } else {
        skip_number(s, i)
    }
}

fn skip_array_items(s: &Vec<u8>, i: usize, first: bool) -> (r: Option<usize>)
    requires
        i <= s@.len(),
    ensures
        match r {
            Some(e) => spec_skip_array_items(s@, i as int, first) == Some(e as int) && i < e
                <= s@.len(),
            None => spec_skip_array_items(s@, i as int, first) is None,
        },
    decreases s@.len() - i, 1int,
{
    let j = skip_ws(s, i);
    if !(j < s.len()) {
        return None;
    }
    if s[j] == 0x5d && first {
        return Some(j + 1);
    }
    match skip_value(s, j) {
        None => None,
        Some(e) => {
            let j2 = skip_ws(s, e);
            if !(j2 < s.len()) {
                return None;
            }
            if s[j2] == 0x5d {
                Some(j2 + 1)
            } else if s[j2] == 0x2c {
                skip_array_items(s, j2 + 1, false)
            } else {
                None
            }
        },
    }
}

fn skip_object_items(s: &Vec<u8>, i: usize, first: bool) -> (r: Option<usize>)
    requires
        i <= s@.len(),
    ensures
        match r {
            Some(e) => spec_skip_object_items(s@, i as int, first) == Some(e as int) && i < e
                <= s@.len(),
            None => spec_skip_object_items(s@, i as int, first) is None,
        },
    decreases s@.len() - i, 2int,
{
    let j = skip_ws(s, i);
    if !(j < s.len()) {
        return None;
    }
    if s[j] == 0x7d && first {
        return Some(j + 1);
    }
    match parse_string(s, j) {
        None => None,
        Some((_lo, _hi, e1)) => {
            let j2 = skip_ws(s, e1);
            if !(j2 < s.len()) {
                return None;
            }
            if s[j2] != 0x3a {
                return None;
            }
            let j3 = skip_ws(s, j2 + 1);
            match skip_value(s, j3) {
                None => None,
                Some(e2) => {
                    let j4 = skip_ws(s, e2);
                    if !(j4 < s.len()) {
                        return None;
                    }
                    if s[j4] == 0x7d {
                        Some(j4 + 1)
                    } else if s[j4] == 0x2c {
                        skip_object_items(s, j4 + 1, false)
                    } else {
                        None
                    }
                },
            }
        },
    }
}

/// The mantissa digits of a number token: the integer digits followed
/// by the fraction digits.
pub open spec fn spec_number_digits(
    s: Seq<u8>,
    i1: int,
    j1: int,
    has_frac: bool,
    fr_end: int,
) -> Seq<u8> {
    s.subrange(i1, j1) + (if has_frac {
        s.subrange(j1 + 1, fr_end)
    } else {
        Seq::<u8>::empty()
    })
}

/// Reads an optional exponent part. Exponents beyond 10^5 in magnitude
/// are rejected as malformed.
pub open spec fn spec_parse_exp(s: Seq<u8>, after: int) -> Option<(int, int)> {
    if 0 <= after && after < s.len() && (s[after] == 0x65 || s[after] == 0x45) {
        let eneg = after + 1 < s.len() && s[after + 1] == 0x2d;
        let has_sign = after + 1 < s.len() && (s[after + 1] == 0x2d || s[after + 1] == 0x2b);
        let es = if has_sign {
            after + 2
        } else {
            after + 1
        };
        let j3 = spec_digits_end(s, es);
        if j3 == es {
            None
        } else if spec_digits_value(s, es, j3) > 100000 {
            None
        } else if eneg {
            Some((-spec_digits_value(s, es, j3), j3))
        } else {
            Some((spec_digits_value(s, es, j3), j3))
        }
    } else {
        Some((0, after))
    }
}

/// Reads a number token into a decimal. Mantissas beyond 64 bits and
/// fractions longer than 10^5 digits are rejected as malformed.
pub open spec fn spec_parse_number(s: Seq<u8>, i: int) -> Option<(Decimal, int)> {
    if !(0 <= i <= s.len()) {
        None
    } else {
        let neg = i < s.len() && s[i] == 0x2d;
        let i1 = if neg {
            i + 1
        } else {
            i
        };
        let j1 = spec_digits_end(s, i1);
        if j1 == i1 {
            None
        } else if j1 > i1 + 1 && s[i1] == 0x30 {
            None
        } else {
            let has_frac = j1 < s.len() && s[j1] == 0x2e;
            let fr_end = if has_frac {
                spec_digits_end(s, j1 + 1)
            } else {
                j1
            };
            if has_frac && fr_end == j1 + 1 {
                None
            } else {
                let digits = spec_number_digits(s, i1, j1, has_frac, fr_end);
                let fraclen = if has_frac {
                    fr_end - (j1 + 1)
                } else {
                    0
                };
                let after = if has_frac {
                    fr_end
                } else {
                    j1
                };
                let mant = spec_digits_seq(digits);
                if mant > u64::MAX {
                    None
                } else if fraclen > 100000 {
                    None
                } else {
                    match spec_parse_exp(s, after) {
                        None => None,
                        Some((ev, end)) => Some(
                            (
                                Decimal {
                                    neg,
                                    mantissa: mant as u64,
                                    exp10: (ev - fraclen) as i32,
                                },
                                end,
                            ),
                        ),
                    }
                }
            }
        }
    }
}

fn parse_exp(s: &Vec<u8>, after: usize) -> (r: Option<(i64, usize)>)
    requires
        after <= s@.len(),
    ensures
        match r {
            Some((v, e)) => spec_parse_exp(s@, after as int) == Some((v as int, e as int))
                && -100000 <= v <= 100000 && after <= e <= s@.len(),
            None => spec_parse_exp(s@, after as int) is None,
        },
{
    if after < s.len() && (s[after] == 0x65 || s[after] == 0x45) {
        let eneg = after + 1 < s.len() && s[after + 1] == 0x2d;
        let has_sign = after + 1 < s.len() && (s[after + 1] == 0x2d || s[after + 1] == 0x2b);
        let es: usize = if has_sign {
            after + 2
        } else {
            after + 1
        };
        let j3 = digits_end(s, es);
        if j3 == es {
            return None;
        }
        match parse_u64(s, es) {
            None => None,
            Some((v, _e2)) => {
                proof {
                    assert forall|t: int| es <= t < j3 implies spec_is_digit(s@[t]) by {
                        lemma_digits_run(s@, es as int, t);
                    }
                    lemma_digits_value_nonneg(s@, es as int, j3 as int);
                }
                if v > 100000 {
                    None
                } else if eneg {
                    proof {
                        assert(spec_digits_value(s@, es as int, j3 as int) == v as int);
                        assert(spec_parse_exp(s@, after as int) == Some(
                            (-(v as int), j3 as int),
                        ));
                    }
                    Some((-(v as i64), j3))
                } else {
                    proof {
                        assert(spec_parse_exp(s@, after as int) == Some((v as int, j3 as int)));
                    }
                    Some((v as i64, j3))
                }
            },
        }
    } else {
        Some((0, after))
    }
}

fn parse_number(s: &Vec<u8>, i: usize) -> (r: Option<(Decimal, usize)>)
    requires
        i <= s@.len(),
    ensures
        match r {
            Some((d, e)) => spec_parse_number(s@, i as int) == Some((d, e as int)) && i < e
                <= s@.len(),
            None => spec_parse_number(s@, i as int) is None,
        },
{
    let neg = i < s.len() && s[i] == 0x2d;
    let i1: usize = if neg {
        i + 1
    } else {
        i
    };
    let j1 = digits_end(s, i1);
    if j1 == i1 {
        return None;
    }
    if j1 > i1 + 1 && s[i1] == 0x30 {
        return None;
    }
    let has_frac = j1 < s.len() && s[j1] == 0x2e;
    let fr_end: usize = if has_frac {
        digits_end(s, j1 + 1)
    } else {
        j1
    };
    if has_frac && fr_end == j1 + 1 {
        return None;
    }
    let ghost digits = spec_number_digits(s@, i1 as int, j1 as int, has_frac, fr_end as int);
    proof {
        assert forall|k: int| i1 <= k < j1 implies spec_is_digit(s@[k]) by {
            lemma_digits_run(s@, i1 as int, k);
        }
        if has_frac {
            assert forall|k: int| j1 + 1 <= k < fr_end implies spec_is_digit(s@[k]) by {
                lemma_digits_run(s@, j1 + 1, k);
            }
        }
        assert forall|k: int| 0 <= k < digits.len() implies spec_is_digit(digits[k]) by {
            if k < j1 - i1 {
                assert(digits[k] == s@[i1 + k]);
            } else {
                assert(digits[k] == s@[j1 + 1 + (k - (j1 - i1))]);
            }
        }
    }
    let mut acc: u64 = 0;
    let mut k: usize = i1;
    while k < j1
        invariant
            i <= i1 <= k <= j1 <= s@.len(),
            neg == (i < s@.len() && s@[i as int] == 0x2d),
            i1 as int == if neg { i + 1 } else { i as int },
            j1 == spec_digits_end(s@, i1 as int),
            j1 != i1,
            !(j1 > i1 + 1 && s@[i1 as int] == 0x30),
            has_frac == (j1 < s@.len() && s@[j1 as int] == 0x2e),
            fr_end as int == if has_frac { spec_digits_end(s@, j1 + 1) } else { j1 as int },
            !(has_frac && fr_end == j1 + 1),
            digits == spec_number_digits(s@, i1 as int, j1 as int, has_frac, fr_end as int),
            has_frac ==> j1 + 1 <= fr_end <= s@.len(),
            forall|t: int| 0 <= t < digits.len() ==> spec_is_digit(digits[t]),
            forall|t: int| i1 <= t < j1 ==> spec_is_digit(s@[t]),
            acc == spec_digits_seq(s@.subrange(i1 as int, k as int)),
        decreases j1 - k,
    {
        let d = s[k];
        proof {
            assert(s@.subrange(i1 as int, k + 1).drop_last() =~= s@.subrange(i1 as int, k as int));
            assert(s@.subrange(i1 as int, k + 1).last() == s@[k as int]);
            assert(digits.take(k + 1 - i1) =~= s@.subrange(i1 as int, k + 1));
        }
        let dv: u64 = (d - 0x30) as u64;
        let m = match acc.checked_mul(10) {
            Some(m) => m,
            None => {
                proof {
                    lemma_digits_seq_prefix(digits, k + 1 - i1);
                }
                return None;
            },
        };
        let a2 = match m.checked_add(dv) {
            Some(a2) => a2,
            None => {
                proof {
                    lemma_digits_seq_prefix(digits, k + 1 - i1);
                }
                return None;
            },
        };
        acc = a2;
        k += 1;
    }
    proof {
        assert(s@.subrange(i1 as int, j1 as int) =~= digits.take(j1 - i1));
    }
    if has_frac {
        let mut k2: usize = j1 + 1;
        while k2 < fr_end
            invariant
                i <= i1 <= j1,
                j1 + 1 <= k2 <= fr_end <= s@.len(),
                neg == (i < s@.len() && s@[i as int] == 0x2d),
                i1 as int == if neg { i + 1 } else { i as int },
                j1 == spec_digits_end(s@, i1 as int),
                j1 != i1,
                !(j1 > i1 + 1 && s@[i1 as int] == 0x30),
                has_frac == (j1 < s@.len() && s@[j1 as int] == 0x2e),
                fr_end as int == if has_frac { spec_digits_end(s@, j1 + 1) } else { j1 as int },
                !(has_frac && fr_end == j1 + 1),
                digits == spec_number_digits(s@, i1 as int, j1 as int, has_frac, fr_end as int),
                has_frac,
                forall|t: int| 0 <= t < digits.len() ==> spec_is_digit(digits[t]),
                acc == spec_digits_seq(
                    s@.subrange(i1 as int, j1 as int) + s@.subrange(j1 + 1, k2 as int),
                ),
            decreases fr_end - k2,
        {
            let d = s[k2];
            proof {
                let part = s@.subrange(i1 as int, j1 as int) + s@.subrange(j1 + 1, k2 as int);
                let part2 = s@.subrange(i1 as int, j1 as int) + s@.subrange(j1 + 1, k2 + 1);
                assert(part2.drop_last() =~= part);
                assert(part2.last() == s@[k2 as int]);
                assert(digits.take(part2.len() as int) =~= part2);
            }
            let dv: u64 = (d - 0x30) as u64;
            let m = match acc.checked_mul(10) {
                Some(m) => m,
                None => {
                    proof {
                        let part2 = s@.subrange(i1 as int, j1 as int) + s@.subrange(
                            j1 + 1,
                            k2 + 1,
                        );
                        lemma_digits_seq_prefix(digits, part2.len() as int);
                    }
                    return None;
                },
            };
            let a2 = match m.checked_add(dv) {
                Some(a2) => a2,
                None => {
                    proof {
                        let part2 = s@.subrange(i1 as int, j1 as int) + s@.subrange(
                            j1 + 1,
                            k2 + 1,
                        );
                        lemma_digits_seq_prefix(digits, part2.len() as int);
                    }
                    return None;
                },
            };
            acc = a2;
            k2 += 1;
        }
        proof {
            assert(digits =~= s@.subrange(i1 as int, j1 as int) + s@.subrange(
                j1 + 1,
                fr_end as int,
            ));
        }
    } else {
        proof {
            assert(digits =~= s@.subrange(i1 as int, j1 as int));
        }
    }
    let fraclen: usize = if has_frac {
        fr_end - (j1 + 1)
    } else {
        0
    };
    if fraclen > 100000 {
        return None;
    }
    let after: usize = if has_frac {
        fr_end
    } else {
        j1
    };
    match parse_exp(s, after) {
        None => None,
        Some((ev, end)) => {
            let exp10: i64 = ev - (fraclen as i64);
            Some((Decimal { neg, mantissa: acc, exp10: exp10 as i32 }, end))
        },
    }
}

/// Reads a JSON integer token: a digit run without a redundant
/// leading zero, fitting 64 bits. (Exponent digits, which JSON allows
/// to start with zeros, are read by the number parser instead.)
pub open spec fn spec_parse_json_uint(s: Seq<u8>, i: int) -> Option<(u64, int)> {
    match spec_parse_u64(s, i) {
        None => None,
        Some((v, e)) => {
            if e > i + 1 && s[i] == 0x30 {
                None
            } else {
                Some((v, e))
            }
        },
    }
}

fn parse_json_uint(s: &Vec<u8>, i: usize) -> (r: Option<(u64, usize)>)
    requires
        i <= s@.len(),
    ensures
        match r {
            Some((v, j)) => spec_parse_json_uint(s@, i as int) == Some((v, j as int)) && i < j
                <= s@.len(),
            None => spec_parse_json_uint(s@, i as int) is None,
        },
{
    match parse_u64(s, i) {
        None => None,
        Some((v, j)) => {
            if j > i + 1 && s[i] == 0x30 {
                None
            } else {
                Some((v, j))
            }
        },
    }
}

/// Reads the remaining entries of a shape array: unsigned integers
/// separated by commas, closed by `]`.
pub open spec fn spec_parse_shape_items(s: Seq<u8>, i: int, acc: Seq<usize>, first: bool) -> Option<
    (Seq<usize>, int),
>
    decreases s.len() - i,
{
    if !(0 <= i <= s.len()) {
        None
    } else {
        let j = spec_skip_ws(s, i);
        if !(i <= j && j < s.len()) {
            None
        } else if s[j] == 0x5d && first {
            Some((acc, j + 1))
        } else {
            match spec_parse_json_uint(s, j) {
                None => None,
                Some((v, e)) => {
                    if !(j < e && e <= s.len()) {
                        None
                    } else if v > usize::MAX {
                        None
                    } else {
                        let j2 = spec_skip_ws(s, e);
                        if !(e <= j2 && j2 < s.len()) {
                            None
                        } else if s[j2] == 0x5d {
                            Some((acc.push(v as usize), j2 + 1))
                        } else if s[j2] == 0x2c {
                            spec_parse_shape_items(s, j2 + 1, acc.push(v as usize), false)
                        } else {
                            None
                        }
                    }
                },
            }
        }
    }
}

/// Reads a shape array starting at its `[`.
pub open spec fn spec_parse_shape(s: Seq<u8>, i: int) -> Option<(Seq<usize>, int)> {
    if 0 <= i < s.len() && s[i] == 0x5b {
        spec_parse_shape_items(s, i + 1, Seq::<usize>::empty(), true)
    } else {
        None
    }
}

fn parse_shape_items(s: &Vec<u8>, i: usize, acc: Vec<usize>, first: bool) -> (r: Option<
    (Vec<usize>, usize),
>)
    requires
        i <= s@.len(),
    ensures
        match r {
            Some((sh, e)) => spec_parse_shape_items(s@, i as int, acc@, first) == Some(
                (sh@, e as int),
            ) && i < e <= s@.len(),
            None => spec_parse_shape_items(s@, i as int, acc@, first) is None,
        },
    decreases s@.len() - i,
{
    let j = skip_ws(s, i);
    if !(j < s.len()) {
        return None;
    }
    if s[j] == 0x5d && first {
        return Some((acc, j + 1));
    }
    match parse_json_uint(s, j) {
        None => None,
        Some((v, e)) => {
            if v > usize::MAX as u64 {
                return None;
            }
            let j2 = skip_ws(s, e);
            if !(j2 < s.len()) {
                return None;
            }
            if s[j2] == 0x5d {
                let mut acc2 = acc;
                acc2.push(v as usize);
                Some((acc2, j2 + 1))
            } else if s[j2] == 0x2c {
                let mut acc2 = acc;
                acc2.push(v as usize);
                parse_shape_items(s, j2 + 1, acc2, false)
            } else {
                None
            }
        },
    }
}

fn parse_shape(s: &Vec<u8>, i: usize) -> (r: Option<(Vec<usize>, usize)>)
    requires
        i <= s@.len(),
    ensures
        match r {
            Some((sh, e)) => spec_parse_shape(s@, i as int) == Some((sh@, e as int)) && i < e
                <= s@.len(),
            None => spec_parse_shape(s@, i as int) is None,
        },
{
    if i < s.len() && s[i] == 0x5b {
        let acc: Vec<usize> = Vec::new();
        proof {
            assert(acc@ =~= Seq::<usize>::empty());
        }
        parse_shape_items(s, i + 1, acc, true)
    } else {
        None
    }
}

/// Reads a dtype string: one of `"float32"`, `"bfloat16"`, `"float16"`.
pub open spec fn spec_parse_dtype(s: Seq<u8>, i: int) -> Option<(BnbDType, int)> {
    match spec_parse_string(s, i) {
        None => None,
        Some((lo, hi, e)) => {
            let c = s.subrange(lo, hi);
            if c == key_float32() {
                Some((BnbDType::F32, e))
            } else if c == key_bfloat16() {
                Some((BnbDType::BF16, e))
            } else if c == key_float16() {
                Some((BnbDType::F16, e))
            } else {
                None
            }
        },
    }
}

fn parse_dtype(s: &Vec<u8>, i: usize) -> (r: Option<(BnbDType, usize)>)
    requires
        i <= s@.len(),
    ensures
        match r {
            Some((dt, e)) => spec_parse_dtype(s@, i as int) == Some((dt, e as int)) && i < e
                <= s@.len(),
            None => spec_parse_dtype(s@, i as int) is None,
        },
{
    match parse_string(s, i) {
        None => None,
        Some((lo, hi, e)) => {
            let kf32 = key_float32_vec();
            let kbf16 = key_bfloat16_vec();
            let kf16 = key_float16_vec();
            if bytes_eq_range(s, lo, hi, &kf32) {
                Some((BnbDType::F32, e))
            } else if bytes_eq_range(s, lo, hi, &kbf16) {
                Some((BnbDType::BF16, e))
            } else if bytes_eq_range(s, lo, hi, &kf16) {
                Some((BnbDType::F16, e))
            } else {
                None
            }
        },
    }
}

/// The fields seen so far while reading the metadata object.
pub struct MetaAcc {
    pub blocksize: Option<u64>,
    pub shape: Option<Vec<usize>>,
    pub dtype: Option<BnbDType>,
    pub nested_blocksize: Option<u64>,
    pub nested_offset: Option<Decimal>,
    pub nested_dtype: Option<BnbDType>,
}

/// Mathematical value of the accumulated fields.
pub struct MetaAccView {
    pub blocksize: Option<u64>,
    pub shape: Option<Seq<usize>>,
    pub dtype: Option<BnbDType>,
    pub nested_blocksize: Option<u64>,
    pub nested_offset: Option<Decimal>,
    pub nested_dtype: Option<BnbDType>,
}

impl View for MetaAcc {
    type V = MetaAccView;

    open spec fn view(&self) -> MetaAccView {
        MetaAccView {
            blocksize: self.blocksize,
            shape: match self.shape {
                Some(v) => Some(v@),
                None => None,
            },
            dtype: self.dtype,
            nested_blocksize: self.nested_blocksize,
            nested_offset: self.nested_offset,
            nested_dtype: self.nested_dtype,
        }
    }
}

/// Reads the value of one key into the accumulator: known keys get
/// their typed parser and may appear once; unknown keys are skipped.
pub open spec fn spec_parse_field(s: Seq<u8>, i: int, key: Seq<u8>, acc: MetaAccView) -> Option<
    (MetaAccView, int),
> {
    if key == key_blocksize() {
        if acc.blocksize is Some {
            None
        } else {
            match spec_parse_json_uint(s, i) {
                Some((v, e)) => Some(
                    (
                        MetaAccView {
                            blocksize: Some(v),
                            shape: acc.shape,
                            dtype: acc.dtype,
                            nested_blocksize: acc.nested_blocksize,
                            nested_offset: acc.nested_offset,
                            nested_dtype: acc.nested_dtype,
                        },
                        e,
                    ),
                ),
                None => None,
            }
        }
    } else if key == key_shape() {
        if acc.shape is Some {
            None
        } else {
            match spec_parse_shape(s, i) {
                Some((sh, e)) => Some(
                    (
                        MetaAccView {
                            blocksize: acc.blocksize,
                            shape: Some(sh),
                            dtype: acc.dtype,
                            nested_blocksize: acc.nested_blocksize,
                            nested_offset: acc.nested_offset,
                            nested_dtype: acc.nested_dtype,
                        },
                        e,
                    ),
                ),
                None => None,
            }
        }
    } else if key == key_dtype() {
        if acc.dtype is Some {
            None
        } else {
            match spec_parse_dtype(s, i) {
                Some((dt, e)) => Some(
                    (
                        MetaAccView {
                            blocksize: acc.blocksize,
                            shape: acc.shape,
                            dtype: Some(dt),
                            nested_blocksize: acc.nested_blocksize,
                            nested_offset: acc.nested_offset,
                            nested_dtype: acc.nested_dtype,
                        },
                        e,
                    ),
                ),
                None => None,
            }
        }
    } else if key == key_nested_blocksize() {
        if acc.nested_blocksize is Some {
            None
        } else {
            match spec_parse_json_uint(s, i) {
                Some((v, e)) => Some(
                    (
                        MetaAccView {
                            blocksize: acc.blocksize,
                            shape: acc.shape,
                            dtype: acc.dtype,
                            nested_blocksize: Some(v),
                            nested_offset: acc.nested_offset,
                            nested_dtype: acc.nested_dtype,
                        },
                        e,
                    ),
                ),
                None => None,
            }
        }
    } else if key == key_nested_offset() {
        if acc.nested_offset is Some {
            None
        } else {
            match spec_parse_number(s, i) {
                Some((d, e)) => Some(
                    (
                        MetaAccView {
                            blocksize: acc.blocksize,
                            shape: acc.shape,
                            dtype: acc.dtype,
                            nested_blocksize: acc.nested_blocksize,
                            nested_offset: Some(d),
                            nested_dtype: acc.nested_dtype,
                        },
                        e,
                    ),
                ),
                None => None,
            }
        }
    } else if key == key_nested_dtype() {
        if acc.nested_dtype is Some {
            None
        } else {
            match spec_parse_dtype(s, i) {
                Some((dt, e)) => Some(
                    (
                        MetaAccView {
                            blocksize: acc.blocksize,
                            shape: acc.shape,
                            dtype: acc.dtype,
                            nested_blocksize: acc.nested_blocksize,
                            nested_offset: acc.nested_offset,
                            nested_dtype: Some(dt),
                        },
                        e,
                    ),
                ),
                None => None,
            }
        }
    } else {
        match spec_skip_value(s, i) {
            Some(e) => Some((acc, e)),
            None => None,
        }
    }
}

fn parse_field(s: &Vec<u8>, i: usize, lo: usize, hi: usize, acc: MetaAcc) -> (r: Option<
    (MetaAcc, usize),
>)
    requires
        i <= s@.len(),
        lo <= hi <= s@.len(),
    ensures
        match r {
            Some((a2, e)) => spec_parse_field(
                s@,
                i as int,
                s@.subrange(lo as int, hi as int),
                acc@,
            ) == Some((a2@, e as int)) && i < e <= s@.len(),
            None => spec_parse_field(s@, i as int, s@.subrange(lo as int, hi as int), acc@)
                is None,
        },
{
    let kb = key_blocksize_vec();
    let ks = key_shape_vec();
    let kd = key_dtype_vec();
    let knb = key_nested_blocksize_vec();
    let kno = key_nested_offset_vec();
    let knd = key_nested_dtype_vec();
    if bytes_eq_range(s, lo, hi, &kb) {
        if acc.blocksize.is_some() {
            return None;
        }
        match parse_json_uint(s, i) {
            Some((v, e)) => Some(
                (
                    MetaAcc {
                        blocksize: Some(v),
                        shape: acc.shape,
                        dtype: acc.dtype,
                        nested_blocksize: acc.nested_blocksize,
                        nested_offset: acc.nested_offset,
                        nested_dtype: acc.nested_dtype,
                    },
                    e,
                ),
            ),
            None => None,
        }
    } else if bytes_eq_range(s, lo, hi, &ks) {
        if acc.shape.is_some() {
            return None;
        }
        match parse_shape(s, i) {
            Some((sh, e)) => Some(
                (
                    MetaAcc {
                        blocksize: acc.blocksize,
                        shape: Some(sh),
                        dtype: acc.dtype,
                        nested_blocksize: acc.nested_blocksize,
                        nested_offset: acc.nested_offset,
                        nested_dtype: acc.nested_dtype,
                    },
                    e,
                ),
            ),
            None => None,
        }
    } else if bytes_eq_range(s, lo, hi, &kd) {
        if acc.dtype.is_some() {
            return None;
        }
        match parse_dtype(s, i) {
            Some((dt, e)) => Some(
                (
                    MetaAcc {
                        blocksize: acc.blocksize,
                        shape: acc.shape,
                        dtype: Some(dt),
                        nested_blocksize: acc.nested_blocksize,
                        nested_offset: acc.nested_offset,
                        nested_dtype: acc.nested_dtype,
                    },
                    e,
                ),
            ),
            None => None,
        }
    } else if bytes_eq_range(s, lo, hi, &knb) {
        if acc.nested_blocksize.is_some() {
            return None;
        }
        match parse_json_uint(s, i) {
            Some((v, e)) => Some(
                (
                    MetaAcc {
                        blocksize: acc.blocksize,
                        shape: acc.shape,
                        dtype: acc.dtype,
                        nested_blocksize: Some(v),
                        nested_offset: acc.nested_offset,
                        nested_dtype: acc.nested_dtype,
                    },
                    e,
                ),
            ),
            None => None,
        }
    } else if bytes_eq_range(s, lo, hi, &kno) {
        if acc.nested_offset.is_some() {
            return None;
        }
        match parse_number(s, i) {
            Some((d, e)) => Some(
                (
                    MetaAcc {
                        blocksize: acc.blocksize,
                        shape: acc.shape,
                        dtype: acc.dtype,
                        nested_blocksize: acc.nested_blocksize,
                        nested_offset: Some(d),
                        nested_dtype: acc.nested_dtype,
                    },
                    e,
                ),
            ),
            None => None,
        }
    } else if bytes_eq_range(s, lo, hi, &knd) {
        if acc.nested_dtype.is_some() {
            return None;
        }
        match parse_dtype(s, i) {
            Some((dt, e)) => Some(
                (
                    MetaAcc {
                        blocksize: acc.blocksize,
                        shape: acc.shape,
                        dtype: acc.dtype,
                        nested_blocksize: acc.nested_blocksize,
                        nested_offset: acc.nested_offset,
                        nested_dtype: Some(dt),
                    },
                    e,
                ),
            ),
            None => None,
        }
    } else {
        match skip_value(s, i) {
            Some(e) => Some((acc, e)),
            None => None,
        }
    }
}

/// Reads the members of the metadata object after its `{` (or after a
/// separating comma when `first` is false), up to and including the
/// closing `}`.
pub open spec fn spec_parse_pairs(s: Seq<u8>, i: int, acc: MetaAccView, first: bool) -> Option<
    (MetaAccView, int),
>
    decreases s.len() - i,
{
    if !(0 <= i <= s.len()) {
        None
    } else {
        let j = spec_skip_ws(s, i);
        if !(i <= j && j < s.len()) {
            None
        } else if s[j] == 0x7d && first {
            Some((acc, j + 1))
        } else {
            match spec_parse_string(s, j) {
                None => None,
                Some((lo, hi, e1)) => {
                    if !(j < e1 && e1 <= s.len()) {
                        None
                    } else {
                        let j2 = spec_skip_ws(s, e1);
                        if !(e1 <= j2 && j2 < s.len()) {
                            None
                        } else if s[j2] != 0x3a {
                            None
                        } else {
                            let j3 = spec_skip_ws(s, j2 + 1);
                            if !(j2 < j3 && j3 <= s.len()) {
                                None
                            } else {
                                match spec_parse_field(s, j3, s.subrange(lo, hi), acc) {
                                    None => None,
                                    Some((acc2, e2)) => {
                                        if !(j3 < e2 && e2 <= s.len()) {
                                            None
                                        } else {
                                            let j4 = spec_skip_ws(s, e2);
                                            if !(e2 <= j4 && j4 < s.len()) {
                                                None
                                            } else if s[j4] == 0x7d {
                                                Some((acc2, j4 + 1))
                                            } else if s[j4] == 0x2c {
                                                spec_parse_pairs(s, j4 + 1, acc2, false)
                                            } else {
                                                None
                                            }
                                        }
                                    },
                                }
                            }
                        }
                    }
                },
            }
        }
    }
}

fn parse_pairs(s: &Vec<u8>, i: usize, acc: MetaAcc, first: bool) -> (r: Option<(MetaAcc, usize)>)
    requires
        i <= s@.len(),
    ensures
        match r {
            Some((a2, e)) => spec_parse_pairs(s@, i as int, acc@, first) == Some((a2@, e as int))
                && i < e <= s@.len(),
            None => spec_parse_pairs(s@, i as int, acc@, first) is None,
        },
    decreases s@.len() - i,
{
    let j = skip_ws(s, i);
    if !(j < s.len()) {
        return None;
    }
    if s[j] == 0x7d && first {
        return Some((acc, j + 1));
    }
    match parse_string(s, j) {
        None => None,
        Some((lo, hi, e1)) => {
            let j2 = skip_ws(s, e1);
            if !(j2 < s.len()) {
                return None;
            }
            if s[j2] != 0x3a {
                return None;
            }
            let j3 = skip_ws(s, j2 + 1);
            match parse_field(s, j3, lo, hi, acc) {
                None => None,
                Some((acc2, e2)) => {
                    let j4 = skip_ws(s, e2);
                    if !(j4 < s.len()) {
                        return None;
                    }
                    if s[j4] == 0x7d {
                        Some((acc2, j4 + 1))
                    } else if s[j4] == 0x2c {
                        parse_pairs(s, j4 + 1, acc2, false)
                    } else {
                        None
                    }
                },
            }
        },
    }
}

/// The decoded metadata of a blob: the whole text must be one object
/// under the schema, with `blocksize`, `shape` and `dtype` present and
/// block sizes that fit the machine word.
pub open spec fn spec_parse_quant_metadata(s: Seq<u8>) -> Option<QuantStateView> {
    let empty = MetaAccView {
        blocksize: None,
        shape: None,
        dtype: None,
        nested_blocksize: None,
        nested_offset: None,
        nested_dtype: None,
    };
    let j0 = spec_skip_ws(s, 0);
    if !(0 <= j0 && j0 < s.len() && s[j0] == 0x7b) {
        None
    } else {
        match spec_parse_pairs(s, j0 + 1, empty, true) {
            None => None,
            Some((acc, e)) => {
                if !(e <= s.len() && spec_skip_ws(s, e) == s.len()) {
                    None
                } else {
                    match (acc.blocksize, acc.shape, acc.dtype) {
                        (Some(bs), Some(sh), Some(dt)) => {
                            if bs > usize::MAX {
                                None
                            } else if acc.nested_blocksize matches Some(nb) && nb > usize::MAX {
                                None
                            } else {
                                Some(
                                    QuantStateView {
                                        blocksize: bs as usize,
                                        shape: sh,
                                        dtype: dt,
                                        nested_blocksize: match acc.nested_blocksize {
                                            Some(nb) => Some(nb as usize),
                                            None => None,
                                        },
                                        nested_offset: acc.nested_offset,
                                        nested_dtype: acc.nested_dtype,
                                    },
                                )
                            }
                        },
                        _ => None,
                    }
                }
            },
        }
    }
}

/// Decodes a quantization-metadata blob. Returns the decoded state
/// exactly when the bytes parse under the documented schema, and the
/// malformed-metadata error otherwise.
///
/// Deliberate strictness, beyond plain JSON: mantissas that do not
/// fit 64 bits, fractions or exponents beyond 10^5 digits or in
/// magnitude, duplicate known keys, backslash escapes, and any string
/// byte outside printable ASCII are all rejected as malformed. The
/// known keys and the three dtype names are plain ASCII, so escapes
/// and non-ASCII text never occur in valid metadata; a general JSON
/// reader would accept some of these blobs (escaped or non-ASCII
/// strings under unknown keys), while blobs that are not valid UTF-8
/// JSON at all — raw control bytes or stray high bytes in strings —
/// are rejected here as there.
pub fn parse_quant_metadata(bytes: &Vec<u8>) -> (r: Result<BnbQuantState, QuantError>)
    ensures
        match r {
            Ok(st) => spec_parse_quant_metadata(bytes@) == Some(st@),
            Err(e) => e == QuantError::MalformedMetadata && spec_parse_quant_metadata(bytes@)
                is None,
        },
{
    let empty = MetaAcc {
        blocksize: None,
        shape: None,
        dtype: None,
        nested_blocksize: None,
        nested_offset: None,
        nested_dtype: None,
    };
    let j0 = skip_ws(bytes, 0);
    if !(j0 < bytes.len() && bytes[j0] == 0x7b) {
        return Err(QuantError::MalformedMetadata);
    }
    match parse_pairs(bytes, j0 + 1, empty, true) {
        None => Err(QuantError::MalformedMetadata),
        Some((acc, e)) => {
            if skip_ws(bytes, e) != bytes.len() {
                return Err(QuantError::MalformedMetadata);
            }
            let bs = match acc.blocksize {
                Some(bs) => bs,
                None => {
                    return Err(QuantError::MalformedMetadata);
                },
            };
            let sh = match acc.shape {
                Some(sh) => sh,
                None => {
                    return Err(QuantError::MalformedMetadata);
                },
            };
            let dt = match acc.dtype {
                Some(dt) => dt,
                None => {
                    return Err(QuantError::MalformedMetadata);
                },
            };
            if bs > usize::MAX as u64 {
                return Err(QuantError::MalformedMetadata);
            }
            let nested_blocksize: Option<usize> = match acc.nested_blocksize {
                Some(nb) => {
                    if nb > usize::MAX as u64 {
                        return Err(QuantError::MalformedMetadata);
                    }
                    Some(nb as usize)
                },
                None => None,
            };
            Ok(BnbQuantState {
                blocksize: bs as usize,
                shape: sh,
                dtype: dt,
                nested_blocksize,
                nested_offset: acc.nested_offset,
                nested_dtype: acc.nested_dtype,
            })
        },
    }
}

} // verus!
