use vstd::prelude::*;

verus! {

/// Sum of the first `n` weights of a weight sequence.
pub open spec fn prefix_total(weights: Seq<u64>, n: int) -> int
    decreases n,
{
    if n <= 0 {
        0
    } else {
        prefix_total(weights, n - 1) + weights[n - 1]
    }
}

/// A cumulative distribution array: entries never decrease. Its last entry is
/// the total weight of the distribution.
pub open spec fn is_cdf(cdf: Seq<u64>) -> bool {
    forall|i: int, j: int| 0 <= i <= j < cdf.len() ==> cdf[i] <= cdf[j]
}

/// The weight of element `i` recovered from a cumulative array: the step
/// between consecutive entries.
pub open spec fn spec_weight_at(cdf: Seq<u64>, i: int) -> int {
    if i == 0 {
        cdf[0] as int
    } else {
        cdf[i] - cdf[i - 1]
    }
}

pub proof fn lemma_prefix_total_monotone(weights: Seq<u64>, m: int, n: int)
    requires
        0 <= m <= n <= weights.len(),
    ensures
        prefix_total(weights, m) <= prefix_total(weights, n),
    decreases n,
{
    if m < n {
        lemma_prefix_total_monotone(weights, m, n - 1);
    }
}

/// Builds the cumulative distribution of a weight sequence by a running sum,
/// as done once per emissive shape (element areas) and per emissive
/// environment texture (solid-angle-weighted texel luminances).
pub fn cdf_from_weights(weights: &Vec<u64>) -> (cdf: Vec<u64>)
    requires
        prefix_total(weights@, weights@.len() as int) <= u64::MAX,
    ensures
        cdf@.len() == weights@.len(),
        forall|i: int| 0 <= i < cdf@.len() ==> cdf@[i] == prefix_total(weights@, i + 1),
        forall|i: int| 0 <= i < cdf@.len() ==> spec_weight_at(cdf@, i) == weights@[i],
        is_cdf(cdf@),
        cdf@.len() > 0 ==> cdf@.last() == prefix_total(weights@, weights@.len() as int),
{
    let n = weights.len();
    let mut cdf: Vec<u64> = Vec::new();
    let mut total: u64 = 0;
    let mut i: usize = 0;
    while i < n
        invariant
            i <= n,
            n == weights@.len(),
            cdf@.len() == i,
            total == prefix_total(weights@, i as int),
            forall|k: int| 0 <= k < i ==> cdf@[k] == prefix_total(weights@, k + 1),
            prefix_total(weights@, n as int) <= u64::MAX,
        decreases n - i,
    {
        proof {
            lemma_prefix_total_monotone(weights@, i + 1, n as int);
            lemma_prefix_total_monotone(weights@, 0, i + 1);
        }
        total = total + weights[i];
        cdf.push(total);
        i = i + 1;
    }
    proof {
        assert forall|a: int, b: int| 0 <= a <= b < cdf@.len() implies cdf@[a] <= cdf@[b] by {
            lemma_prefix_total_monotone(weights@, a + 1, b + 1);
        }
    }
    cdf
}

/// The random draw after scaling into the distribution's range: draws at or
/// past the total weight are pulled back to just below it, so that a draw of
/// one always lands on the final element.
pub open spec fn spec_clamped_draw(cdf: Seq<u64>, r: u64) -> u64 {
    let total = cdf.last();
    if total == 0 {
        0
    } else if r > total - 1 {
        (total - 1) as u64
    } else {
        r
    }
}

/// Index of the first cumulative entry strictly above `rc`, or the length if
/// there is none.
pub open spec fn first_above(cdf: Seq<u64>, rc: u64) -> int
    decreases cdf.len(),
{
    if cdf.len() == 0 {
        0
    } else if cdf[0] > rc {
        0
    } else {
        1 + first_above(cdf.drop_first(), rc)
    }
}

pub proof fn lemma_first_above_char(cdf: Seq<u64>, rc: u64)
    ensures
        0 <= first_above(cdf, rc) <= cdf.len(),
        forall|i: int| 0 <= i < first_above(cdf, rc) ==> cdf[i] <= rc,
        first_above(cdf, rc) < cdf.len() ==> cdf[first_above(cdf, rc)] > rc,
    decreases cdf.len(),
{
    if cdf.len() > 0 && !(cdf[0] > rc) {
        lemma_first_above_char(cdf.drop_first(), rc);
        assert forall|i: int| 0 <= i < first_above(cdf, rc) implies cdf[i] <= rc by {
            if i > 0 {
                assert(cdf.drop_first()[i - 1] == cdf[i]);
            }
        }
        if first_above(cdf, rc) < cdf.len() {
            assert(cdf.drop_first()[first_above(cdf.drop_first(), rc)] ==
                cdf[first_above(cdf, rc)]);
        }
    }
}

/// The element selected by a clamped draw: the first entry above it, capped at
/// the final element.
pub open spec fn spec_sample_discrete(cdf: Seq<u64>, r: u64) -> int {
    let fa = first_above(cdf, spec_clamped_draw(cdf, r));
    if fa >= cdf.len() {
        cdf.len() - 1
    } else {
        fa
    }
}

/// Selects an element of a discrete distribution in proportion to its weight:
/// binary search for the first cumulative entry strictly above the clamped
/// draw, capped at the final element.
pub fn sample_discrete(cdf: &Vec<u64>, r: u64) -> (idx: usize)
    requires
        cdf@.len() > 0,
        is_cdf(cdf@),
    ensures
        idx < cdf@.len(),
        idx == spec_sample_discrete(cdf@, r),
{
    let n = cdf.len();
    let total = cdf[n - 1];
    let rc = if total == 0 {
        0
    } else if r > total - 1 {
        total - 1
    } else {
        r
    };
    let ghost rcg = spec_clamped_draw(cdf@, r);
    assert(rc == rcg);
    let mut lo: usize = 0;
    let mut hi: usize = n;
    while lo < hi
        invariant
            lo <= hi <= n,
            n == cdf@.len(),
            is_cdf(cdf@),
            forall|i: int| 0 <= i < lo ==> cdf@[i] <= rc,
            forall|i: int| hi <= i < n ==> cdf@[i] > rc,
        decreases hi - lo,
    {
        let mid = lo + (hi - lo) / 2;
        if cdf[mid] <= rc {
            assert forall|i: int| 0 <= i < mid + 1 implies cdf@[i] <= rc by {
                assert(cdf@[i] <= cdf@[mid as int]);
            }
            lo = mid + 1;
        } else {
            assert forall|i: int| mid <= i < n implies cdf@[i] > rc by {
                assert(cdf@[mid as int] <= cdf@[i]);
            }
            hi = mid;
        }
    }
    proof {
        lemma_first_above_char(cdf@, rc);
        let fa = first_above(cdf@, rc);
        if lo < fa {
            assert(cdf@[lo as int] <= rc);
            assert(cdf@[lo as int] > rc);
        }
        if fa < lo {
            assert(cdf@[fa] > rc);
            assert(cdf@[fa] <= rc);
        }
    }
    if lo >= n {
        n - 1
    } else {
        lo
    }
}

/// The probability weight the sampler assigns to element `idx`: the step of
/// the cumulative array at that index.
pub fn sample_discrete_pdf(cdf: &Vec<u64>, idx: usize) -> (w: u64)
    requires
        idx < cdf@.len(),
        is_cdf(cdf@),
    ensures
        w == spec_weight_at(cdf@, idx as int),
{
    if idx == 0 {
        cdf[0]
    } else {
        cdf[idx] - cdf[idx - 1]
    }
}

/// Sum of the recovered weights of the first `n` elements.
pub open spec fn recovered_total(cdf: Seq<u64>, n: int) -> int
    decreases n,
{
    if n <= 0 {
        0
    } else {
        recovered_total(cdf, n - 1) + spec_weight_at(cdf, n - 1)
    }
}

/// Distribution law: the per-element sampling weights sum, over all elements,
/// to the cumulative array's final entry — the total weight.
pub proof fn lemma_pdf_sums_to_total(cdf: Seq<u64>, n: int)
    requires
        1 <= n <= cdf.len(),
    ensures
        recovered_total(cdf, n) == cdf[n - 1],
    decreases n,
{
    assert(recovered_total(cdf, n) == recovered_total(cdf, n - 1) + spec_weight_at(cdf, n - 1));
    if n > 1 {
        lemma_pdf_sums_to_total(cdf, n - 1);
    } else {
        assert(recovered_total(cdf, 0) == 0);
    }
}

/// Boundary law: a draw of zero selects the first element, provided the first
/// element carries positive weight.
pub proof fn lemma_sample_discrete_zero(cdf: Seq<u64>)
    requires
        cdf.len() > 0,
        is_cdf(cdf),
        cdf[0] > 0,
    ensures
        spec_sample_discrete(cdf, 0) == 0,
{
    assert(cdf[0] <= cdf.last());
}

/// Boundary law: a draw at or past the total weight selects the final
/// element, provided the final element carries positive weight.
pub proof fn lemma_sample_discrete_top(cdf: Seq<u64>, r: u64)
    requires
        cdf.len() > 0,
        is_cdf(cdf),
        spec_weight_at(cdf, cdf.len() - 1) > 0,
        r >= cdf.last() - 1,
    ensures
        spec_sample_discrete(cdf, r) == cdf.len() - 1,
{
    let rc = spec_clamped_draw(cdf, r);
    lemma_first_above_char(cdf, rc);
    let fa = first_above(cdf, rc);
    assert(rc == cdf.last() - 1);
    if fa < cdf.len() - 1 {
        assert(cdf[fa] <= cdf[cdf.len() - 2]);
        assert(cdf[cdf.len() - 2] <= cdf.last() - 1);
    }
}

/// Picks one of `size` equally likely entries from a draw already scaled by
/// `size`, guarding the upper boundary: a scaled draw beyond the range is
/// clamped to the final entry.
pub fn sample_uniform(size: usize, scaled: usize) -> (idx: usize)
    requires
        size > 0,
    ensures
        idx == if scaled < size { scaled as int } else { size - 1 },
{
    if scaled >= size {
        size - 1
    } else {
        scaled
    }
}

} // verus!
