use vstd::prelude::*;

verus! {

/// The closed set of material families. Dispatch over this tag selects the
/// scattering formulas evaluated at a shading point; the set is fixed, so an
/// exhaustive match catches a missing family at compile time.
#[derive(Clone, Copy, Debug, PartialEq, Eq, Structural)]
pub enum MaterialType {
    Matte,
    Glossy,
    Reflective,
    Transparent,
    Refractive,
    Volumetric,
    Subsurface,
    Gltfpbr,
}

/// A family whose interior participates in volumetric transport: crossing its
/// boundary pushes or pops the integrator's medium stack, and only these
/// families carry a derived extinction density.
pub open spec fn spec_is_volumetric(m_type: MaterialType) -> bool {
    ||| m_type is Refractive
    ||| m_type is Volumetric
    ||| m_type is Subsurface
}

/// Whether boundaries of this family delimit a participating medium.
pub fn is_volumetric(m_type: MaterialType) -> (r: bool)
    ensures
        r == spec_is_volumetric(m_type),
{
    match m_type {
        MaterialType::Refractive => true,
        MaterialType::Volumetric => true,
        MaterialType::Subsurface => true,
        _ => false,
    }
}

/// A material point whose scattering is concentrated on single directions, so
/// it must be handled by the dedicated delta sampling path rather than the
/// continuous one. The `roughness_is_zero` flag reports whether the point's
/// remapped roughness is exactly zero.
pub open spec fn spec_is_delta(m_type: MaterialType, roughness_is_zero: bool) -> bool {
    ||| (m_type is Reflective && roughness_is_zero)
    ||| (m_type is Refractive && roughness_is_zero)
    ||| (m_type is Transparent && roughness_is_zero)
    ||| m_type is Volumetric
}

/// Whether a point of this family with the given roughness state is purely
/// specular (delta).
pub fn is_delta(m_type: MaterialType, roughness_is_zero: bool) -> (r: bool)
    ensures
        r == spec_is_delta(m_type, roughness_is_zero),
{
    match m_type {
        MaterialType::Reflective => roughness_is_zero,
        MaterialType::Refractive => roughness_is_zero,
        MaterialType::Transparent => roughness_is_zero,
        MaterialType::Volumetric => true,
        _ => false,
    }
}

/// How a family's squared texture-modulated roughness is adjusted before use.
#[derive(Clone, Copy, Debug, PartialEq, Eq, Structural)]
pub enum RoughnessPolicy {
    /// Clamped into the minimum-roughness..=1 range; never reaches zero.
    ClampToMin,
    /// Forced to exactly zero regardless of the input value.
    ForceZero,
    /// Snapped to exactly zero when below the minimum, kept otherwise.
    ZeroBelowMin,
}

/// The roughness adjustment each family applies after squaring: the
/// always-continuous families clamp to a positive minimum, the volumetric
/// family discards roughness, and the remaining families snap small values to
/// exactly zero so they are routed through the delta path.
pub fn roughness_policy(m_type: MaterialType) -> (p: RoughnessPolicy)
    ensures
        p is ClampToMin <==> (m_type is Matte || m_type is Glossy || m_type is Gltfpbr),
        p is ForceZero <==> m_type is Volumetric,
        p is ZeroBelowMin <==> (m_type is Reflective || m_type is Transparent
            || m_type is Refractive || m_type is Subsurface),
{
    match m_type {
        MaterialType::Matte => RoughnessPolicy::ClampToMin,
        MaterialType::Glossy => RoughnessPolicy::ClampToMin,
        MaterialType::Gltfpbr => RoughnessPolicy::ClampToMin,
        MaterialType::Volumetric => RoughnessPolicy::ForceZero,
        _ => RoughnessPolicy::ZeroBelowMin,
    }
}

/// After adjustment, whether the roughness of a point of this family is
/// exactly zero, given whether the squared input roughness fell below the
/// minimum threshold.
pub open spec fn spec_fixed_roughness_is_zero(m_type: MaterialType, below_min: bool) -> bool {
    if m_type is Matte || m_type is Glossy || m_type is Gltfpbr {
        false
    } else if m_type is Volumetric {
        true
    } else {
        below_min
    }
}

/// Applies the per-family roughness policy to the "below minimum" test result,
/// reporting whether the adjusted roughness is exactly zero.
pub fn fixed_roughness_is_zero(m_type: MaterialType, below_min: bool) -> (r: bool)
    ensures
        r == spec_fixed_roughness_is_zero(m_type, below_min),
{
    match roughness_policy(m_type) {
        RoughnessPolicy::ClampToMin => false,
        RoughnessPolicy::ForceZero => true,
        RoughnessPolicy::ZeroBelowMin => below_min,
    }
}

/// The continuous scattering evaluation is identically zero for a point of
/// this family and roughness state: zero roughness is rejected up front, and
/// the volumetric family has no surface scattering.
pub open spec fn spec_continuous_eval_is_zero(m_type: MaterialType, roughness_is_zero: bool) -> bool {
    roughness_is_zero || m_type is Volumetric
}

/// Whether the continuous scattering evaluation (and its pdf) is identically
/// zero at such a point.
pub fn continuous_eval_is_zero(m_type: MaterialType, roughness_is_zero: bool) -> (r: bool)
    ensures
        r == spec_continuous_eval_is_zero(m_type, roughness_is_zero),
{
    roughness_is_zero || matches!(m_type, MaterialType::Volumetric)
}

/// The delta scattering evaluation is identically zero for a point of this
/// family and roughness state: non-zero roughness is rejected up front, and
/// only the mirror-like families have a delta lobe.
pub open spec fn spec_delta_eval_is_zero(m_type: MaterialType, roughness_is_zero: bool) -> bool {
    ||| !roughness_is_zero
    ||| !(m_type is Reflective || m_type is Transparent || m_type is Refractive)
}

/// Whether the delta scattering evaluation (and its pdf) is identically zero
/// at such a point.
pub fn delta_eval_is_zero(m_type: MaterialType, roughness_is_zero: bool) -> (r: bool)
    ensures
        r == spec_delta_eval_is_zero(m_type, roughness_is_zero),
{
    if !roughness_is_zero {
        true
    } else {
        !matches!(m_type, MaterialType::Reflective | MaterialType::Transparent
            | MaterialType::Refractive)
    }
}

/// Routing law: at any material point at most one of the two scattering paths
/// is live, and the delta classification always picks a live path's side —
/// a delta point has zero continuous evaluation, and a non-delta point has
/// zero delta evaluation. The integrator may therefore dispatch on the delta
/// classification alone without losing energy to the other path.
pub proof fn lemma_scatter_routing(m_type: MaterialType, roughness_is_zero: bool)
    ensures
        spec_continuous_eval_is_zero(m_type, roughness_is_zero)
            || spec_delta_eval_is_zero(m_type, roughness_is_zero),
        spec_is_delta(m_type, roughness_is_zero)
            ==> spec_continuous_eval_is_zero(m_type, roughness_is_zero),
        !spec_is_delta(m_type, roughness_is_zero)
            ==> spec_delta_eval_is_zero(m_type, roughness_is_zero),
{
}

/// Policy law: after the roughness adjustment, the families that clamp to a
/// positive minimum can never be delta, and the volumetric family always is —
/// whatever roughness the textures produced.
pub proof fn lemma_roughness_policy_delta(m_type: MaterialType, below_min: bool)
    ensures
        (m_type is Matte || m_type is Glossy || m_type is Gltfpbr) ==> !spec_is_delta(
            m_type,
            spec_fixed_roughness_is_zero(m_type, below_min),
        ),
        m_type is Volumetric ==> spec_is_delta(
            m_type,
            spec_fixed_roughness_is_zero(m_type, below_min),
        ),
{
}

} // verus!
