use vstd::prelude::*;
use crate::sampling::{
    is_cdf, prefix_total, cdf_from_weights, sample_discrete, spec_sample_discrete,
};

verus! {

/// Reserved identifier meaning "no reference": a light refers either to an
/// instance or to an environment, never both.
pub const INVALID: usize = usize::MAX;

/// While weighting a direction against an area light, re-intersection along
/// the direction is capped at this many hits. A concave emissive shape can be
/// crossed several times by one ray and each crossing contributes to the pdf;
/// an extremely tessellated concave emitter that exceeds the cap loses the
/// remaining contributions, a small deliberate bias.
pub const LIGHT_PDF_MAX_HITS: u32 = 100;

/// One importance-sampled emitter: an emissive instance with a cumulative
/// distribution over its element areas, or an environment with a cumulative
/// distribution over its texture's solid-angle-weighted texel luminances
/// (empty when the environment has no texture and is sampled uniformly).
#[derive(Clone, Debug)]
pub struct Light {
    pub instance: usize,
    pub environment: usize,
    pub elements_cdf: Vec<u64>,
}

/// A light refers to exactly one of an instance or an environment, its
/// distribution never decreases, and an area light always has elements.
pub open spec fn light_wf(l: Light) -> bool {
    &&& (l.instance == INVALID) != (l.environment == INVALID)
    &&& is_cdf(l.elements_cdf@)
    &&& l.instance != INVALID ==> l.elements_cdf@.len() > 0
}

/// Mathematical image of a light.
pub open spec fn light_view(l: Light) -> (int, int, Seq<u64>) {
    (l.instance as int, l.environment as int, l.elements_cdf@)
}

/// What the light builder reads of one scene instance: whether its material
/// emits, whether its shape is triangle- or quad-based, and the quantized area
/// of each element.
#[derive(Clone, Debug)]
pub struct AreaLightSource {
    pub emissive: bool,
    pub has_area_elements: bool,
    pub weights: Vec<u64>,
}

/// What the light builder reads of one environment: whether it emits, whether
/// it carries an emission texture, and the quantized solid-angle-weighted
/// luminance of each texel.
#[derive(Clone, Debug)]
pub struct EnvLightSource {
    pub emissive: bool,
    pub textured: bool,
    pub weights: Vec<u64>,
}

/// The cumulative distribution of a weight sequence.
pub open spec fn spec_cdf_of(ws: Seq<u64>) -> Seq<u64> {
    Seq::new(ws.len(), |i: int| prefix_total(ws, i + 1) as u64)
}

/// The lights contributed by the first `n` instances: one area light per
/// emissive instance whose shape has area elements, in instance order.
pub open spec fn spec_area_lights(descs: Seq<AreaLightSource>, n: int) -> Seq<(int, int, Seq<u64>)>
    decreases n,
{
    if n <= 0 {
        Seq::empty()
    } else {
        let prev = spec_area_lights(descs, n - 1);
        let d = descs[n - 1];
        if d.emissive && d.has_area_elements {
            prev.push((n - 1, INVALID as int, spec_cdf_of(d.weights@)))
        } else {
            prev
        }
    }
}

/// The lights contributed by the first `n` environments: one light per
/// emissive environment, with a texel distribution only when textured.
pub open spec fn spec_env_lights(descs: Seq<EnvLightSource>, n: int) -> Seq<(int, int, Seq<u64>)>
    decreases n,
{
    if n <= 0 {
        Seq::empty()
    } else {
        let prev = spec_env_lights(descs, n - 1);
        let d = descs[n - 1];
        if d.emissive {
            prev.push((
                INVALID as int,
                n - 1,
                if d.textured {
                    spec_cdf_of(d.weights@)
                } else {
                    Seq::empty()
                },
            ))
        } else {
            prev
        }
    }
}

/// Builds the scene's light list, run once after loading: every emissive
/// instance with a triangle- or quad-based shape becomes an area light with a
/// cumulative distribution over its element areas, then every emissive
/// environment becomes a light with a cumulative distribution over its texel
/// weights when textured.
pub fn build_lights(
    instances: &Vec<AreaLightSource>,
    environments: &Vec<EnvLightSource>,
) -> (lights: Vec<Light>)
    requires
        forall|i: int| 0 <= i < instances@.len() && instances@[i].emissive
            && instances@[i].has_area_elements ==> {
            &&& prefix_total(instances@[i].weights@, instances@[i].weights@.len() as int)
                <= u64::MAX
            &&& instances@[i].weights@.len() > 0
        },
        forall|j: int| 0 <= j < environments@.len() && environments@[j].emissive
            && environments@[j].textured ==> prefix_total(
            environments@[j].weights@,
            environments@[j].weights@.len() as int,
        ) <= u64::MAX,
    ensures
        lights@.map_values(|l: Light| light_view(l)) == spec_area_lights(
            instances@,
            instances@.len() as int,
        ) + spec_env_lights(environments@, environments@.len() as int),
        forall|k: int| 0 <= k < lights@.len() ==> light_wf(#[trigger] lights@[k]),
{
    let mut lights: Vec<Light> = Vec::new();
    let mut i: usize = 0;
    while i < instances.len()
        invariant
            i <= instances@.len(),
            forall|k: int| 0 <= k < instances@.len() && instances@[k].emissive
                && instances@[k].has_area_elements ==> {
                &&& prefix_total(instances@[k].weights@, instances@[k].weights@.len() as int)
                    <= u64::MAX
                &&& instances@[k].weights@.len() > 0
            },
            lights@.map_values(|l: Light| light_view(l)) == spec_area_lights(
                instances@,
                i as int,
            ),
            forall|k: int| 0 <= k < lights@.len() ==> light_wf(#[trigger] lights@[k]),
        decreases instances@.len() - i,
    {
        let d = &instances[i];
        if d.emissive && d.has_area_elements {
            let cdf = cdf_from_weights(&d.weights);
            let light = Light { instance: i, environment: INVALID, elements_cdf: cdf };
            proof {
                assert(light.elements_cdf@ =~= spec_cdf_of(instances@[i as int].weights@));
            }
            lights.push(light);
            proof {
                assert(lights@.map_values(|l: Light| light_view(l)) =~= spec_area_lights(
                    instances@,
                    i as int + 1,
                ));
            }
        }
        i = i + 1;
    }
    let ghost area_part = spec_area_lights(instances@, instances@.len() as int);
    let mut j: usize = 0;
    while j < environments.len()
        invariant
            j <= environments@.len(),
            forall|k: int| 0 <= k < environments@.len() && environments@[k].emissive
                && environments@[k].textured ==> prefix_total(
                environments@[k].weights@,
                environments@[k].weights@.len() as int,
            ) <= u64::MAX,
            lights@.map_values(|l: Light| light_view(l)) == area_part + spec_env_lights(
                environments@,
                j as int,
            ),
            forall|k: int| 0 <= k < lights@.len() ==> light_wf(#[trigger] lights@[k]),
        decreases environments@.len() - j,
    {
        let d = &environments[j];
        if d.emissive {
            let cdf = if d.textured {
                cdf_from_weights(&d.weights)
            } else {
                Vec::new()
            };
            let light = Light { instance: INVALID, environment: j, elements_cdf: cdf };
            proof {
                if environments@[j as int].textured {
                    assert(light.elements_cdf@ =~= spec_cdf_of(environments@[j as int].weights@));
                } else {
                    assert(light.elements_cdf@ =~= Seq::<u64>::empty());
                }
            }
            let ghost prev_map = lights@.map_values(|l: Light| light_view(l));
            lights.push(light);
            proof {
                assert(lights@.map_values(|l: Light| light_view(l)) =~= prev_map.push(
                    light_view(light),
                ));
                assert(spec_env_lights(environments@, j as int + 1) == spec_env_lights(
                    environments@,
                    j as int,
                ).push(light_view(light)));
                assert(prev_map.push(light_view(light)) =~= area_part + spec_env_lights(
                    environments@,
                    j as int + 1,
                ));
            }
        }
        j = j + 1;
    }
    lights
}

/// The light sample the discrete half of next-event estimation selects: an
/// element of an area light, a texel of a textured environment, or a whole
/// untextured environment to be sampled uniformly over the sphere. The caller
/// turns the selection into a world-space direction.
#[derive(Clone, Copy, Debug, PartialEq, Eq, Structural)]
pub enum LightTarget {
    AreaElement { instance: usize, element: usize },
    EnvTexel { environment: usize, texel: usize },
    EnvUniform { environment: usize },
}

/// Selects a light uniformly (from a draw already scaled by the light count,
/// clamped to the last light) and then an element or texel of it in
/// proportion to its distribution. With no lights the selection is undefined;
/// callers fall back to material sampling alone.
pub fn select_light_target(
    lights: &Vec<Light>,
    light_scaled: usize,
    element_r: u64,
) -> (t: LightTarget)
    requires
        lights@.len() > 0,
        forall|k: int| 0 <= k < lights@.len() ==> light_wf(#[trigger] lights@[k]),
    ensures
        ({
            let id = if light_scaled < lights@.len() {
                light_scaled as int
            } else {
                lights@.len() - 1
            };
            let l = lights@[id];
            &&& l.instance != INVALID ==> t == (LightTarget::AreaElement {
                instance: l.instance,
                element: spec_sample_discrete(l.elements_cdf@, element_r) as usize,
            })
            &&& l.instance == INVALID && l.elements_cdf@.len() > 0 ==> t == (LightTarget::EnvTexel {
                environment: l.environment,
                texel: spec_sample_discrete(l.elements_cdf@, element_r) as usize,
            })
            &&& l.instance == INVALID && l.elements_cdf@.len() == 0 ==> t
                == (LightTarget::EnvUniform { environment: l.environment })
        }),
{
    let id = if light_scaled < lights.len() {
        light_scaled
    } else {
        lights.len() - 1
    };
    let light = &lights[id];
    if light.instance != INVALID {
        let element = sample_discrete(&light.elements_cdf, element_r);
        LightTarget::AreaElement { instance: light.instance, element }
    } else if light.elements_cdf.len() > 0 {
        let texel = sample_discrete(&light.elements_cdf, element_r);
        LightTarget::EnvTexel { environment: light.environment, texel }
    } else {
        LightTarget::EnvUniform { environment: light.environment }
    }
}

} // verus!
