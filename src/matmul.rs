//! Matrix multiplication of 8-bit quantized tensors with exact integer
//! accumulation, batched over leading dimensions that broadcast.
//!
//! Scales stay with the caller: the product of two quantized tensors is the
//! accumulated result times the product of their scales.

use vstd::prelude::*;
use vstd::arithmetic::div_mod::{lemma_mod_pos_bound, lemma_multiply_divide_lt};

verus! {

/// A tensor of quantized values, row-major.
#[derive(Debug, Clone)]
pub struct QuantizedTensor {
    pub shape: Vec<usize>,
    pub values: Vec<i8>,
}

/// A tensor of exact integer accumulations, row-major.
#[derive(Debug, Clone)]
pub struct AccumulatedTensor {
    pub shape: Vec<usize>,
    pub values: Vec<i64>,
}

/// Why two tensors cannot be multiplied.
#[derive(Debug, Clone, Copy, PartialEq, Eq, Structural)]
pub enum MatmulError {
    /// The operands have different ranks.
    RankMismatch,
    /// The operands have fewer than two dimensions.
    RankTooSmall,
    /// The columns of the left operand differ from the rows of the right one.
    InnerDimensionMismatch,
    /// Two batch dimensions differ and neither of them is one.
    BatchMismatch,
    /// The result would not fit in memory, or the inner dimension is too long
    /// for exact accumulation.
    TooLarge,
}

/// The longest inner dimension whose accumulation fits in `i64` for any
/// values: each product is at most `2^14` in magnitude.
pub const MAX_INNER: u64 = 0x1_0000_0000_0000;

/// The number of elements of a tensor of shape `s`.
pub open spec fn product(s: Seq<usize>) -> nat
    decreases s.len(),
{
    if s.len() == 0 {
        1
    } else {
        product(s.drop_last()) * (s.last() as nat)
    }
}

impl QuantizedTensor {
    /// The values fill the shape exactly.
    pub open spec fn wf(&self) -> bool {
        self.values@.len() == product(self.shape@)
    }
}

/// The leading (batch) dimensions of a shape of rank two or more.
pub open spec fn batch(s: Seq<usize>) -> Seq<usize> {
    s.subrange(0, s.len() - 2)
}

/// Each pair of batch dimensions is equal, or one of them is one.
pub open spec fn batch_compatible(l: Seq<usize>, r: Seq<usize>) -> bool {
    forall|i: int| 0 <= i < l.len() ==> #[trigger] l[i] == r[i] || l[i] == 1 || r[i] == 1
}

/// The broadcast batch dimensions: a dimension of one takes the other's extent.
pub open spec fn broadcast_batch(l: Seq<usize>, r: Seq<usize>) -> Seq<usize> {
    Seq::new(l.len(), |i: int| if l[i] == 1 { r[i] } else { l[i] })
}

/// Which batch entry of an operand with batch dimensions `inp` the batch
/// entry `b` of a result with batch dimensions `out` reads.
pub open spec fn broadcast_index(out: Seq<usize>, inp: Seq<usize>, b: int) -> int
    decreases out.len(),
{
    if out.len() == 0 {
        0
    } else {
        let d = out.last() as int;
        let digit = if inp.last() == 1 {
            0
        } else {
            b % d
        };
        broadcast_index(out.drop_last(), inp.drop_last(), b / d) * inp.last() + digit
    }
}

/// `sum_{j < len} a[ao + j] * b[bo + j * stride]`.
pub open spec fn dot(a: Seq<i8>, b: Seq<i8>, ao: int, bo: int, stride: int, len: nat) -> int
    decreases len,
{
    if len == 0 {
        0
    } else {
        dot(a, b, ao, bo, stride, (len - 1) as nat) + a[ao + len - 1] * b[bo + (len - 1) * stride]
    }
}

/// The shape of the product of operands of shapes `ls` and `rs`, or why there is none.
pub open spec fn spec_matmul_shape(ls: Seq<usize>, rs: Seq<usize>) -> Result<
    Seq<usize>,
    MatmulError,
> {
    let r = ls.len();
    if r != rs.len() {
        Err(MatmulError::RankMismatch)
    } else if r < 2 {
        Err(MatmulError::RankTooSmall)
    } else if ls[r - 1] != rs[r - 2] {
        Err(MatmulError::InnerDimensionMismatch)
    } else if !batch_compatible(batch(ls), batch(rs)) {
        Err(MatmulError::BatchMismatch)
    } else {
        let out = broadcast_batch(batch(ls), batch(rs)).push(ls[r - 2]).push(rs[r - 1]);
        if ls[r - 1] > MAX_INNER || product(out) > usize::MAX {
            Err(MatmulError::TooLarge)
        } else {
            Ok(out)
        }
    }
}

/// Entry `i` (row-major) of the product of `lhs` and `rhs`.
pub open spec fn spec_matmul_value(lhs: QuantizedTensor, rhs: QuantizedTensor, i: int) -> int {
    let ls = lhs.shape@;
    let rs = rhs.shape@;
    let r = ls.len();
    let m = ls[r - 2] as int;
    let k = ls[r - 1] as int;
    let n = rs[r - 1] as int;
    let ob = broadcast_batch(batch(ls), batch(rs));
    let b = i / (m * n);
    let row = (i % (m * n)) / n;
    let col = i % n;
    let lb = broadcast_index(ob, batch(ls), b);
    let rb = broadcast_index(ob, batch(rs), b);
    dot(lhs.values@, rhs.values@, (lb * m + row) * k, rb * k * n + col, n, k as nat)
}

proof fn lemma_product_split(s: Seq<usize>)
    requires
        s.len() >= 2,
    ensures
        product(s) == product(s.subrange(0, s.len() - 2)) * s[s.len() - 2] * s[s.len() - 1],
{
    let p = s.drop_last();
    assert(p.drop_last() =~= s.subrange(0, s.len() - 2));
    assert(product(s) == product(p) * (s.last() as nat));
    assert(product(p) == product(p.drop_last()) * (p.last() as nat));
}

proof fn lemma_product_zero(s: Seq<usize>, i: int)
    requires
        0 <= i < s.len(),
        s[i] == 0,
    ensures
        product(s) == 0,
    decreases s.len(),
{
    let p = s.drop_last();
    if i < s.len() - 1 {
        assert(p[i] == 0);
        lemma_product_zero(p, i);
    }
    assert(product(s) == product(p) * (s.last() as nat));
    assert(product(p) * (s.last() as nat) == 0) by (nonlinear_arith)
        requires
            product(p) == 0 || s.last() == 0,
    ;
}

proof fn lemma_product_prefix_le(s: Seq<usize>, t: int)
    requires
        0 <= t <= s.len(),
        forall|i: int| 0 <= i < s.len() ==> #[trigger] s[i] >= 1,
    ensures
        product(s.subrange(0, t)) <= product(s),
    decreases s.len(),
{
    if t == s.len() {
        assert(s.subrange(0, t) =~= s);
    } else {
        let p = s.drop_last();
        assert(p.subrange(0, t) =~= s.subrange(0, t));
        lemma_product_prefix_le(p, t);
        assert(product(p) <= product(p) * s.last()) by (nonlinear_arith)
            requires
                s.last() >= 1,
        ;
    }
}

/// The number of elements of shape `s`, or `None` when it exceeds `usize`.
fn checked_product(s: &Vec<usize>) -> (r: Option<usize>)
    ensures
        match r {
            Some(p) => p == product(s@),
            None => product(s@) > usize::MAX,
        },
{
    let mut i: usize = 0;
    while i < s.len()
        invariant
            i <= s@.len(),
            forall|j: int| 0 <= j < i ==> #[trigger] s@[j] >= 1,
        decreases s@.len() - i,
    {
        if s[i] == 0 {
            proof {
                lemma_product_zero(s@, i as int);
            }
            return Some(0);
        }
        i = i + 1;
    }
    let mut acc: usize = 1;
    let mut i: usize = 0;
    assert(s@.subrange(0, 0) =~= Seq::<usize>::empty());
    while i < s.len()
        invariant
            i <= s@.len(),
            forall|j: int| 0 <= j < s@.len() ==> #[trigger] s@[j] >= 1,
            acc == product(s@.subrange(0, i as int)),
        decreases s@.len() - i,
    {
        assert(s@.subrange(0, i + 1).drop_last() =~= s@.subrange(0, i as int));
        match acc.checked_mul(s[i]) {
            Some(p) => {
                acc = p;
            },
            None => {
                proof {
                    lemma_product_prefix_le(s@, i + 1);
                }
                return None;
            },
        }
        i = i + 1;
    }
    assert(s@.subrange(0, s@.len() as int) =~= s@);
    Some(acc)
}

/// The offset of the batch entry of an operand (batch dimensions `inp`)
/// that result batch entry `b` reads, over the first `t` dimensions.
fn broadcast_offset(out: &Vec<usize>, inp: &Vec<usize>, t: usize, b: usize) -> (r: usize)
    requires
        out@.len() == inp@.len(),
        t <= out@.len(),
        forall|i: int| 0 <= i < out@.len() ==> #[trigger] out@[i] >= 1,
        forall|i: int| 0 <= i < out@.len() ==> #[trigger] inp@[i] == out@[i] || inp@[i] == 1,
        product(inp@) <= usize::MAX,
        b < product(out@.subrange(0, t as int)),
    ensures
        r == broadcast_index(out@.subrange(0, t as int), inp@.subrange(0, t as int), b as int),
        r < product(inp@.subrange(0, t as int)),
    decreases t,
{
    if t == 0 {
        return 0;
    }
    let d = out[t - 1];
    let e = inp[t - 1];
    let ghost os = out@.subrange(0, t as int);
    let ghost is = inp@.subrange(0, t as int);
    let ghost op = product(out@.subrange(0, t - 1));
    let ghost ip = product(inp@.subrange(0, t - 1));
    proof {
        assert(os.drop_last() =~= out@.subrange(0, t - 1));
        assert(is.drop_last() =~= inp@.subrange(0, t - 1));
        assert(product(os) == op * d);
        assert(product(is) == ip * e);
        lemma_multiply_divide_lt(b as int, d as int, op as int);
        lemma_mod_pos_bound(b as int, d as int);
        assert forall|i: int| 0 <= i < inp@.len() implies #[trigger] inp@[i] >= 1 by {
            assert(out@[i] >= 1);
        }
        lemma_product_prefix_le(inp@, t as int);
    }
    let rest = broadcast_offset(out, inp, t - 1, b / d);
    let digit = if e == 1 {
        0
    } else {
        b % d
    };
    proof {
        assert(rest * e + digit < ip * e) by (nonlinear_arith)
            requires
                rest < ip,
                digit < e,
        ;
    }
    rest * e + digit
}

/// Multiplies `lhs` by `rhs` over their last two dimensions, accumulating
/// each entry exactly; batch dimensions of extent one broadcast.
pub fn matmul(lhs: &QuantizedTensor, rhs: &QuantizedTensor) -> (res: Result<
    AccumulatedTensor,
    MatmulError,
>)
    requires
        lhs.wf(),
        rhs.wf(),
    ensures
        match res {
            Ok(o) => {
                &&& spec_matmul_shape(lhs.shape@, rhs.shape@) == Ok::<Seq<usize>, MatmulError>(
                    o.shape@,
                )
                &&& o.values@.len() == product(o.shape@)
                &&& forall|i: int|
                    0 <= i < o.values@.len() ==> #[trigger] o.values@[i] == spec_matmul_value(
                        *lhs,
                        *rhs,
                        i,
                    )
            },
            Err(e) => spec_matmul_shape(lhs.shape@, rhs.shape@) == Err::<Seq<usize>, MatmulError>(
                e,
            ),
        },
{
    let ghost ls = lhs.shape@;
    let ghost rs = rhs.shape@;
    let r = lhs.shape.len();
    if r != rhs.shape.len() {
        return Err(MatmulError::RankMismatch);
    }
    if r < 2 {
        return Err(MatmulError::RankTooSmall);
    }
    let m = lhs.shape[r - 2];
    let k = lhs.shape[r - 1];
    let n = rhs.shape[r - 1];
    if k != rhs.shape[r - 2] {
        return Err(MatmulError::InnerDimensionMismatch);
    }
    let mut lb: Vec<usize> = Vec::new();
    let mut rb: Vec<usize> = Vec::new();
    let mut ob: Vec<usize> = Vec::new();
    let mut out_shape: Vec<usize> = Vec::new();
    let mut i: usize = 0;
    while i < r - 2
        invariant
            r == ls.len(),
            r == rs.len(),
            r >= 2,
            ls == lhs.shape@,
            rs == rhs.shape@,
            ls[r - 1] == rs[r - 2],
            i <= r - 2,
            lb@ == ls.subrange(0, i as int),
            rb@ == rs.subrange(0, i as int),
            ob@ == broadcast_batch(lb@, rb@),
            out_shape@ == ob@,
            batch_compatible(lb@, rb@),
        decreases r - 2 - i,
    {
        let a = lhs.shape[i];
        let c = rhs.shape[i];
        if !(a == c || a == 1 || c == 1) {
            proof {
                assert(batch(ls)[i as int] == a && batch(rs)[i as int] == c);
                assert(!batch_compatible(batch(ls), batch(rs)));
            }
            return Err(MatmulError::BatchMismatch);
        }
        let d = if a == 1 {
            c
        } else {
            a
        };
        lb.push(a);
        rb.push(c);
        ob.push(d);
        out_shape.push(d);
        proof {
            assert(lb@ =~= ls.subrange(0, i + 1));
            assert(rb@ =~= rs.subrange(0, i + 1));
            assert(ob@ =~= broadcast_batch(lb@, rb@));
        }
        i = i + 1;
    }
    proof {
        assert(lb@ =~= batch(ls));
        assert(rb@ =~= batch(rs));
    }
    if k as u64 > MAX_INNER {
        return Err(MatmulError::TooLarge);
    }
    out_shape.push(m);
    out_shape.push(n);
    let total = match checked_product(&out_shape) {
        Some(p) => p,
        None => return Err(MatmulError::TooLarge),
    };
    let ghost lp = product(lb@);
    let ghost rp = product(rb@);
    let ghost op = product(ob@);
    proof {
        lemma_product_split(out_shape@);
        assert(out_shape@.subrange(0, r - 2) =~= ob@);
        lemma_product_split(ls);
        lemma_product_split(rs);
    }
    let llen = lhs.values.len();
    let rlen = rhs.values.len();
    assert(llen == lp * m * k);
    assert(rlen == rp * k * n);
    assert(total == op * m * n);
    let mut values: Vec<i64> = Vec::new();
    let mut i: usize = 0;
    while i < total
        invariant
            r == ls.len(),
            r == rs.len(),
            r >= 2,
            ls == lhs.shape@,
            rs == rhs.shape@,
            m == ls[r - 2],
            k == ls[r - 1],
            n == rs[r - 1],
            k <= MAX_INNER,
            lb@ == batch(ls),
            rb@ == batch(rs),
            ob@ == broadcast_batch(lb@, rb@),
            batch_compatible(lb@, rb@),
            lp == product(lb@),
            rp == product(rb@),
            op == product(ob@),
            llen == lhs.values@.len(),
            rlen == rhs.values@.len(),
            llen == lp * m * k,
            rlen == rp * k * n,
            total == op * m * n,
            i <= total,
            values@.len() == i,
            forall|j: int| 0 <= j < i ==> #[trigger] values@[j] == spec_matmul_value(*lhs, *rhs, j),
        decreases total - i,
    {
        proof {
            assert(op >= 1 && m >= 1 && n >= 1) by (nonlinear_arith)
                requires
                    i < total,
                    total == op * m * n,
            ;
            assert forall|j: int| 0 <= j < ob@.len() implies #[trigger] ob@[j] >= 1 by {
                if ob@[j] == 0 {
                    lemma_product_zero(ob@, j);
                }
            }
        }
        proof {
            assert(m * n <= total && i < (m * n) * op) by (nonlinear_arith)
                requires
                    i < total,
                    total == op * m * n,
                    op >= 1,
            ;
        }
        let mn = m * n;
        proof {
            lemma_multiply_divide_lt(i as int, mn as int, op as int);
            lemma_mod_pos_bound(i as int, mn as int);
            lemma_multiply_divide_lt((i % mn) as int, n as int, m as int);
            lemma_mod_pos_bound(i as int, n as int);
        }
        let b = i / mn;
        let row = (i % mn) / n;
        let col = i % n;
        let mut acc: i64 = 0;
        if k > 0 {
            proof {
                assert forall|j: int| 0 <= j < lb@.len() implies #[trigger] lb@[j] == ob@[j] || lb@[j]
                    == 1 by {
                    assert(batch_compatible(lb@, rb@));
                }
                assert forall|j: int| 0 <= j < rb@.len() implies #[trigger] rb@[j] == ob@[j] || rb@[j]
                    == 1 by {
                    assert(batch_compatible(lb@, rb@));
                }
                assert(lp <= llen && rp <= rlen) by (nonlinear_arith)
                    requires
                        llen == lp * m * k,
                        rlen == rp * k * n,
                        m >= 1,
                        n >= 1,
                        k >= 1,
                ;
                assert(ob@.subrange(0, ob@.len() as int) =~= ob@);
                assert(lb@.subrange(0, lb@.len() as int) =~= lb@);
                assert(rb@.subrange(0, rb@.len() as int) =~= rb@);
            }
            let lo = broadcast_offset(&ob, &lb, ob.len(), b);
            let ro = broadcast_offset(&ob, &rb, ob.len(), b);
            proof {
                assert(lo * m + row <= (lo * m + row) * k && (lo * m + row) * k + k <= llen)
                    by (nonlinear_arith)
                    requires
                        lo < lp,
                        row < m,
                        k >= 1,
                        llen == lp * m * k,
                ;
            }
            let base = (lo * m + row) * k;
            let ghost bo = ro * k * n + col;
            let mut j: usize = 0;
            while j < k
                invariant
                    base + k <= llen,
                    llen == lhs.values@.len(),
                    rlen == rhs.values@.len(),
                    rlen == rp * k * n,
                    ro < rp,
                    col < n,
                    n >= 1,
                    bo == ro * k * n + col,
                    k <= MAX_INNER,
                    j <= k,
                    acc == dot(lhs.values@, rhs.values@, base as int, bo, n as int, j as nat),
                    -16384 * j <= acc <= 16384 * j,
                decreases k - j,
            {
                proof {
                    assert(ro * k + j <= (ro * k + j) * n && (ro * k + j) * n + col < rlen && (ro
                        * k + j) * n + col == bo + j * n) by (nonlinear_arith)
                        requires
                            ro < rp,
                            j < k,
                            col < n,
                            n >= 1,
                            rlen == rp * k * n,
                            bo == ro * k * n + col,
                    ;
                }
                let rrow = ro * k + j;
                let x = lhs.values[base + j] as i64;
                let y = rhs.values[rrow * n + col] as i64;
                proof {
                    assert(-16384 <= x * y <= 16384) by (nonlinear_arith)
                        requires
                            -128 <= x <= 127,
                            -128 <= y <= 127,
                    ;
                }
                acc = acc + x * y;
                j = j + 1;
            }
        }
        values.push(acc);
        i = i + 1;
    }
    Ok(AccumulatedTensor { shape: out_shape, values })
}

} // verus!
