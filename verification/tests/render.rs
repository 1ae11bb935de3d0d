use rtrace::render::{
    RenderProgress, ShaderKind, pixel_coords, pixel_index, shader_from_name,
};
use rtrace::texture::{texel_clamp, texel_coords, texel_index, texel_wrap_neighbor};

#[test]
fn shader_names_resolve() {
    assert_eq!(shader_from_name("color"), Some(ShaderKind::Color));
    assert_eq!(shader_from_name("normal"), Some(ShaderKind::Normal));
    assert_eq!(shader_from_name("position"), Some(ShaderKind::Position));
    assert_eq!(shader_from_name("eyelight"), Some(ShaderKind::Eyelight));
    assert_eq!(shader_from_name("naive"), Some(ShaderKind::Naive));
    assert_eq!(shader_from_name("raytrace"), Some(ShaderKind::Raytrace));
    assert_eq!(shader_from_name("glossy"), None);
    assert_eq!(shader_from_name(""), None);
}

#[test]
fn progressive_sample_gate() {
    // N calls with a target of N advance the counter exactly N times; further
    // calls are no-ops, so the buffer stays exactly N samples deep.
    let mut p = RenderProgress::new(4, 3);
    assert_eq!(p.pixel_count(), 12);
    let target = 5;
    let mut advanced = 0;
    for _ in 0..8 {
        if p.register_sample(target) {
            advanced += 1;
        }
    }
    assert_eq!(advanced, 5);
    assert_eq!(p.samples, 5);
    assert_eq!((p.width, p.height), (4, 3));
}

#[test]
fn pixel_addressing_round_trip() {
    let width = 7;
    for j in 0..5 {
        for i in 0..width {
            let idx = pixel_index(i, j, width);
            assert_eq!(pixel_coords(idx, width), (i, j));
        }
    }
    assert_eq!(pixel_index(0, 0, width), 0);
    assert_eq!(pixel_index(6, 4, width), 34);
}

#[test]
fn pixel_slots_are_disjoint() {
    let width = 16;
    let height = 16;
    let mut seen = vec![false; width * height];
    for j in 0..height {
        for i in 0..width {
            let idx = pixel_index(i, j, width);
            assert!(!seen[idx]);
            seen[idx] = true;
        }
    }
}

#[test]
fn texel_addressing() {
    assert_eq!(texel_clamp(3, 8), 3);
    assert_eq!(texel_clamp(9, 8), 7);
    assert_eq!(texel_wrap_neighbor(3, 8), 4);
    assert_eq!(texel_wrap_neighbor(7, 8), 0);
}

#[test]
fn texel_index_round_trip() {
    let (width, height) = (6, 4);
    for j in 0..height {
        for i in 0..width {
            let idx = texel_index(i, j, width);
            assert_eq!(texel_coords(idx, width, height), (i, j));
        }
    }
    assert_eq!(texel_index(5, 3, 6), 23);
}
