//! Normalization of raw begin/end padding amounts into the closed set of
//! padding policies that downstream lowering understands.

use vstd::prelude::*;

verus! {

/// Padding policy for operators with one spatial axis.
#[derive(Debug, Clone, Copy, PartialEq, Eq, Structural)]
pub enum PaddingConfig1d {
    /// No padding.
    Valid,
    /// The same amount of padding at both ends of the axis.
    Explicit(usize),
}

/// Padding policy for operators with two spatial axes.
#[derive(Debug, Clone, Copy, PartialEq, Eq, Structural)]
pub enum PaddingConfig2d {
    /// No padding.
    Valid,
    /// Symmetric padding of the height and width axes.
    Explicit(usize, usize),
}

/// Padding policy for operators with three spatial axes.
#[derive(Debug, Clone, Copy, PartialEq, Eq, Structural)]
pub enum PaddingConfig3d {
    /// No padding.
    Valid,
    /// Symmetric padding of the depth, height and width axes.
    Explicit(usize, usize, usize),
}

/// Why a raw padding encoding could not be normalized.
#[derive(Debug, Clone, Copy, PartialEq, Eq, Structural)]
pub enum PaddingError {
    /// Some pad amount is below zero.
    Negative,
    /// Some axis is padded differently at its two ends.
    Asymmetric,
    /// The sequence does not hold one begin and one end amount per axis.
    WrongLength,
    /// A pad amount does not fit in `usize`.
    TooLarge,
}

impl PaddingError {
    /// A human-readable description of the failure.
    pub fn message(&self) -> (r: &'static str) {
        match self {
            PaddingError::Negative => "Negative pad values are not supported",
            PaddingError::Asymmetric => "Asymmetric padding is not supported",
            PaddingError::WrongLength => "Padding must hold a begin and an end amount per axis",
            PaddingError::TooLarge => "Pad value does not fit in usize",
        }
    }
}

/// Some entry of `pads` is negative.
pub open spec fn has_negative(pads: Seq<i64>) -> bool {
    exists|i: int| 0 <= i < pads.len() && #[trigger] pads[i] < 0
}

/// Some axis `i` of a rank-`rank` encoding has `begin_i != end_i`.
pub open spec fn has_asymmetric(pads: Seq<i64>, rank: int) -> bool {
    exists|i: int| 0 <= i < rank && #[trigger] pads[i] != pads[i + rank]
}

/// The normalized rank-1 policy of `pads`, or the reason it has none.
///
/// Negative amounts are reported before asymmetric ones.
pub open spec fn spec_padding_1d(pads: Seq<i64>) -> Result<PaddingConfig1d, PaddingError> {
    if pads.len() != 2 {
        Err(PaddingError::WrongLength)
    } else if has_negative(pads) {
        Err(PaddingError::Negative)
    } else if has_asymmetric(pads, 1) {
        Err(PaddingError::Asymmetric)
    } else if pads[0] == 0 {
        Ok(PaddingConfig1d::Valid)
    } else if pads[0] > usize::MAX {
        Err(PaddingError::TooLarge)
    } else {
        Ok(PaddingConfig1d::Explicit(pads[0] as usize))
    }
}

/// Normalizes the rank-1 padding encoding `[begin, end]`.
pub fn padding_config_1d(pads: &Vec<i64>) -> (r: Result<PaddingConfig1d, PaddingError>)
    ensures
        r == spec_padding_1d(pads@),
{
    if pads.len() != 2 {
        return Err(PaddingError::WrongLength);
    }
    let begin = pads[0];
    let end = pads[1];
    if begin < 0 || end < 0 {
        return Err(PaddingError::Negative);
    }
    if begin != end {
        return Err(PaddingError::Asymmetric);
    }
    if begin == 0 {
        Ok(PaddingConfig1d::Valid)
    } else if begin as u64 > usize::MAX as u64 {
        Err(PaddingError::TooLarge)
    } else {
        Ok(PaddingConfig1d::Explicit(begin as usize))
    }
}

/// The per-axis amounts of a rank-`rank` encoding
/// `[begin_1..begin_rank, end_1..end_rank]`, or the reason it has none.
///
/// Negative amounts are reported before asymmetric ones.
pub open spec fn spec_symmetric_pads(pads: Seq<i64>, rank: nat) -> Result<Seq<usize>, PaddingError> {
    if pads.len() != 2 * rank {
        Err(PaddingError::WrongLength)
    } else if has_negative(pads) {
        Err(PaddingError::Negative)
    } else if has_asymmetric(pads, rank as int) {
        Err(PaddingError::Asymmetric)
    } else if exists|i: int| 0 <= i < rank && #[trigger] pads[i] > usize::MAX {
        Err(PaddingError::TooLarge)
    } else {
        Ok(Seq::new(rank, |i: int| pads[i] as usize))
    }
}

/// The normalized rank-2 policy of `pads`, or the reason it has none.
pub open spec fn spec_padding_2d(pads: Seq<i64>) -> Result<PaddingConfig2d, PaddingError> {
    match spec_symmetric_pads(pads, 2) {
        Err(e) => Err(e),
        Ok(p) => if p[0] == 0 && p[1] == 0 {
            Ok(PaddingConfig2d::Valid)
        } else {
            Ok(PaddingConfig2d::Explicit(p[0], p[1]))
        },
    }
}

/// The normalized rank-3 policy of `pads`, or the reason it has none.
pub open spec fn spec_padding_3d(pads: Seq<i64>) -> Result<PaddingConfig3d, PaddingError> {
    match spec_symmetric_pads(pads, 3) {
        Err(e) => Err(e),
        Ok(p) => if p[0] == 0 && p[1] == 0 && p[2] == 0 {
            Ok(PaddingConfig3d::Valid)
        } else {
            Ok(PaddingConfig3d::Explicit(p[0], p[1], p[2]))
        },
    }
}

fn symmetric_pads(pads: &Vec<i64>, rank: usize) -> (r: Result<Vec<usize>, PaddingError>)
    requires
        rank <= 3,
    ensures
        match r {
            Ok(v) => spec_symmetric_pads(pads@, rank as nat) == Ok::<Seq<usize>, PaddingError>(
                v@,
            ),
            Err(e) => spec_symmetric_pads(pads@, rank as nat) == Err::<Seq<usize>, PaddingError>(
                e,
            ),
        },
{
    if pads.len() != 2 * rank {
        return Err(PaddingError::WrongLength);
    }
    let mut i: usize = 0;
    while i < pads.len()
        invariant
            pads@.len() == 2 * rank,
            i <= pads@.len(),
            forall|j: int| 0 <= j < i ==> #[trigger] pads@[j] >= 0,
        decreases pads@.len() - i,
    {
        if pads[i] < 0 {
            assert(has_negative(pads@));
            return Err(PaddingError::Negative);
        }
        i = i + 1;
    }
    let mut i: usize = 0;
    while i < rank
        invariant
            rank <= 3,
            pads@.len() == 2 * rank,
            i <= rank,
            !has_negative(pads@),
            forall|j: int| 0 <= j < i ==> #[trigger] pads@[j] == pads@[j + rank],
        decreases rank - i,
    {
        if pads[i] != pads[i + rank] {
            assert(has_asymmetric(pads@, rank as int));
            return Err(PaddingError::Asymmetric);
        }
        i = i + 1;
    }
    let mut out: Vec<usize> = Vec::new();
    let mut i: usize = 0;
    while i < rank
        invariant
            pads@.len() == 2 * rank,
            i <= rank,
            !has_negative(pads@),
            !has_asymmetric(pads@, rank as int),
            out@.len() == i,
            forall|j: int| 0 <= j < i ==> #[trigger] pads@[j] <= usize::MAX,
            forall|j: int| 0 <= j < i ==> #[trigger] out@[j] == pads@[j] as usize,
        decreases rank - i,
    {
        let p = pads[i];
        if p as u64 > usize::MAX as u64 {
            assert(pads@[i as int] > usize::MAX);
            return Err(PaddingError::TooLarge);
        }
        out.push(p as usize);
        i = i + 1;
    }
    assert(!exists|j: int| 0 <= j < rank && #[trigger] pads@[j] > usize::MAX);
    assert(out@ =~= Seq::new(rank as nat, |j: int| pads@[j] as usize));
    Ok(out)
}

/// Normalizes the rank-2 padding encoding `[top, left, bottom, right]`.
pub fn padding_config_2d(pads: &Vec<i64>) -> (r: Result<PaddingConfig2d, PaddingError>)
    ensures
        r == spec_padding_2d(pads@),
{
    match symmetric_pads(pads, 2) {
        Err(e) => Err(e),
        Ok(p) => if p[0] == 0 && p[1] == 0 {
            Ok(PaddingConfig2d::Valid)
        } else {
            Ok(PaddingConfig2d::Explicit(p[0], p[1]))
        },
    }
}

/// Normalizes the rank-3 padding encoding
/// `[front, top, left, back, bottom, right]`.
pub fn padding_config_3d(pads: &Vec<i64>) -> (r: Result<PaddingConfig3d, PaddingError>)
    ensures
        r == spec_padding_3d(pads@),
{
    match symmetric_pads(pads, 3) {
        Err(e) => Err(e),
        Ok(p) => if p[0] == 0 && p[1] == 0 && p[2] == 0 {
            Ok(PaddingConfig3d::Valid)
        } else {
            Ok(PaddingConfig3d::Explicit(p[0], p[1], p[2]))
        },
    }
}

/// A symmetric, non-negative pair `[p, p]` normalizes to `Valid` when `p`
/// is zero and to `Explicit(p)` otherwise (every `p` fits where `usize`
/// has 64 bits). A pair with a negative entry is
/// refused as negative, also when it is asymmetric too; any other asymmetric
/// pair is refused as asymmetric.
pub proof fn lemma_padding_1d_total(begin: i64, end: i64)
    ensures
        (begin < 0 || end < 0) ==> spec_padding_1d(seq![begin, end]) == Err::<
            PaddingConfig1d,
            PaddingError,
        >(PaddingError::Negative),
        (begin >= 0 && end >= 0 && begin != end) ==> spec_padding_1d(seq![begin, end]) == Err::<
            PaddingConfig1d,
            PaddingError,
        >(PaddingError::Asymmetric),
        spec_padding_1d(seq![0i64, 0i64]) == Ok::<PaddingConfig1d, PaddingError>(
            PaddingConfig1d::Valid,
        ),
        (begin > 0 && begin == end && begin <= usize::MAX) ==> spec_padding_1d(seq![begin, end]) == Ok::<
            PaddingConfig1d,
            PaddingError,
        >(PaddingConfig1d::Explicit(begin as usize)),
{
    let pads = seq![begin, end];
    if begin < 0 || end < 0 {
        assert(has_negative(pads)) by {
            if begin < 0 {
                assert(pads[0] < 0);
            } else {
                assert(pads[1] < 0);
            }
        }
    }
    if begin != end {
        assert(pads[0] != pads[0int + 1]);
        assert(has_asymmetric(pads, 1));
    }
}

} // verus!
