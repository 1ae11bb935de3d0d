use vstd::prelude::*;

verus! {

/// Clamp-to-edge addressing: a texel coordinate past the last row or column is
/// pulled back onto it.
pub fn texel_clamp(x: u32, extent: u32) -> (r: u32)
    requires
        extent > 0,
    ensures
        r == if x < extent { x as int } else { extent - 1 },
{
    if x >= extent {
        extent - 1
    } else {
        x
    }
}

/// Tileable addressing of the bilinear neighbor: the texel after the last one
/// wraps around to the first.
pub fn texel_wrap_neighbor(x: u32, extent: u32) -> (r: u32)
    requires
        extent > 0,
        x < extent,
    ensures
        r == ((x + 1) as int) % (extent as int),
{
    (x + 1) % extent
}

/// Linearizes a texel coordinate into the row-major pixel index used by the
/// texture's storage and by the environment light's distribution.
pub fn texel_index(i: u32, j: u32, width: u32) -> (r: u64)
    requires
        i < width,
    ensures
        r == j * width + i,
{
    proof {
        assert((j as int) * (width as int) <= (u32::MAX as int) * (u32::MAX as int))
            by (nonlinear_arith)
            requires
                j <= u32::MAX,
                width <= u32::MAX,
        {
        }
    }
    j as u64 * width as u64 + i as u64
}

/// Recovers the texel coordinate from a row-major pixel index.
pub fn texel_coords(idx: u64, width: u32, height: u32) -> (r: (u32, u32))
    requires
        width > 0,
        idx < width * height,
    ensures
        r.0 == idx as int % width as int,
        r.1 == idx as int / width as int,
{
    proof {
        assert(((idx as int) / (width as int)) < (height as int)) by (nonlinear_arith)
            requires
                width > 0,
                idx < (width as int) * (height as int),
        {
        }
        assert(((idx as int) % (width as int)) < (width as int)) by (nonlinear_arith)
            requires
                width > 0,
        {
        }
    }
    ((idx % width as u64) as u32, (idx / width as u64) as u32)
}

/// Round trip law: linearizing the coordinates recovered from an index gives
/// back that index, so an environment texel chosen by the light sampler and
/// the texel a direction's pdf lookup lands on agree.
pub proof fn lemma_texel_roundtrip(idx: int, width: int)
    requires
        width > 0,
        idx >= 0,
    ensures
        (idx / width) * width + idx % width == idx,
{
    vstd::arithmetic::div_mod::lemma_fundamental_div_mod(idx, width);
    vstd::arithmetic::mul::lemma_mul_is_commutative(width, idx / width);
}

} // verus!
