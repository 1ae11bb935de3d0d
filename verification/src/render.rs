use vstd::prelude::*;

verus! {

/// The shading strategies a render can be configured with: three single-hit
/// visualization shaders, the eye-light shader, and the two integrators —
/// material sampling only, and the full one with light sampling and media.
#[derive(Clone, Copy, Debug, PartialEq, Eq, Structural)]
pub enum ShaderKind {
    Color,
    Normal,
    Position,
    Eyelight,
    Naive,
    Raytrace,
}

/// The shader a configuration name selects, or nothing for an unknown name.
pub open spec fn spec_shader_from_name(s: Seq<char>) -> Option<ShaderKind> {
    if s == "color"@ {
        Some(ShaderKind::Color)
    } else if s == "normal"@ {
        Some(ShaderKind::Normal)
    } else if s == "position"@ {
        Some(ShaderKind::Position)
    } else if s == "eyelight"@ {
        Some(ShaderKind::Eyelight)
    } else if s == "naive"@ {
        Some(ShaderKind::Naive)
    } else if s == "raytrace"@ {
        Some(ShaderKind::Raytrace)
    } else {
        None
    }
}

/// Resolves a shader name from the configuration. An unknown name yields
/// nothing and is surfaced by the caller as a configuration error before any
/// sampling begins.
pub fn shader_from_name(name: &str) -> (r: Option<ShaderKind>)
    ensures
        r == spec_shader_from_name(name@),
{
    let n = name.to_owned();
    if n == "color".to_owned() {
        Some(ShaderKind::Color)
    } else if n == "normal".to_owned() {
        Some(ShaderKind::Normal)
    } else if n == "position".to_owned() {
        Some(ShaderKind::Position)
    } else if n == "eyelight".to_owned() {
        Some(ShaderKind::Eyelight)
    } else if n == "naive".to_owned() {
        Some(ShaderKind::Naive)
    } else if n == "raytrace".to_owned() {
        Some(ShaderKind::Raytrace)
    } else {
        None
    }
}

/// The progressive part of a render's state: the image dimensions and how
/// many sample passes have been accumulated. The accumulation buffer itself
/// holds one slot per pixel, indexed row-major.
#[derive(Clone, Copy, Debug)]
pub struct RenderProgress {
    pub width: usize,
    pub height: usize,
    pub samples: i32,
}

impl RenderProgress {
    /// The pixel grid fits the address space.
    pub open spec fn wf(self) -> bool {
        self.width * self.height <= usize::MAX
    }

    pub fn new(width: usize, height: usize) -> (s: RenderProgress)
        requires
            width * height <= usize::MAX,
        ensures
            s.width == width,
            s.height == height,
            s.samples == 0,
            s.wf(),
    {
        RenderProgress { width, height, samples: 0 }
    }

    /// One slot per pixel.
    pub fn pixel_count(&self) -> (n: usize)
        requires
            self.wf(),
        ensures
            n == self.width * self.height,
    {
        self.width * self.height
    }

    /// Admits or refuses one progressive sample pass: while fewer than
    /// `target` samples have been accumulated the counter advances by exactly
    /// one and the pass runs; at the target nothing changes. Each admitted
    /// pass adds one sample to every pixel's accumulator, so a partially
    /// converged buffer is always `samples` samples deep.
    pub fn register_sample(&mut self, target: i32) -> (advanced: bool)
        ensures
            advanced == (old(self).samples < target),
            advanced ==> final(self).samples == old(self).samples + 1,
            !advanced ==> final(self).samples == old(self).samples,
            final(self).width == old(self).width,
            final(self).height == old(self).height,
    {
        if self.samples >= target {
            false
        } else {
            self.samples = self.samples + 1;
            true
        }
    }
}

/// The pixel a row-major buffer index addresses.
pub fn pixel_coords(idx: usize, width: usize) -> (r: (usize, usize))
    requires
        width > 0,
    ensures
        r.0 == idx as int % width as int,
        r.1 == idx as int / width as int,
{
    (idx % width, idx / width)
}

/// The row-major buffer index of a pixel.
pub fn pixel_index(i: usize, j: usize, width: usize) -> (idx: usize)
    requires
        i < width,
        j * width + i <= usize::MAX,
    ensures
        idx == j * width + i,
{
    j * width + i
}

/// Partition law: distinct pixels have distinct buffer slots, so one sample
/// pass writes each slot from exactly one pixel's task and the parallel loop
/// needs no synchronization.
pub proof fn lemma_pixel_index_injective(i1: int, j1: int, i2: int, j2: int, width: int)
    requires
        0 <= i1 < width,
        0 <= i2 < width,
        0 <= j1,
        0 <= j2,
        (i1, j1) != (i2, j2),
    ensures
        j1 * width + i1 != j2 * width + i2,
{
    if j1 == j2 {
        assert(i1 != i2);
    } else {
        assert(j1 * width + i1 != j2 * width + i2) by (nonlinear_arith)
            requires
                0 <= i1 < width,
                0 <= i2 < width,
                0 <= j1,
                0 <= j2,
                j1 != j2,
        {
        }
    }
}

} // verus!
