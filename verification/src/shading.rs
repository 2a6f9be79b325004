use vstd::prelude::*;
use crate::color::Color;
use crate::fx::FX;
use crate::geometry::Fragment;
use vstd::arithmetic::div_mod::lemma_div_is_ordered;

verus! {

/// The noise families a surface preset can pick from.
#[derive(Clone, Copy, PartialEq, Eq, Structural, Debug)]
pub enum NoiseKind {
    OpenSimplex2,
    OpenSimplex2S,
    Cellular,
    Perlin,
    ValueCubic,
    Value,
}

/// The fractal compositions a surface preset can pick from.
#[derive(Clone, Copy, PartialEq, Eq, Structural, Debug)]
pub enum FractalKind {
    Plain,
    FBm,
    Ridged,
    PingPong,
    DomainWarpProgressive,
    DomainWarpIndependent,
}

/// One noise field configuration: the per-species parameters fixed at
/// startup. Fractional parameters are carried in thousandths so the table
/// is exact integer data; the sampler scales them back down.
#[derive(Clone, Copy, PartialEq, Eq, Structural, Debug)]
pub struct NoiseConfig {
    pub seed: i32,
    pub kind: NoiseKind,
    pub fractal: FractalKind,
    pub octaves: i32,
    pub lacunarity_milli: i32,
    pub gain_milli: i32,
    pub frequency_milli: i32,
}

/// The sampler's defaults: what an unconfigured noise field uses.
pub fn default_noise_config() -> (c: NoiseConfig)
    ensures
        c == (NoiseConfig {
            seed: 1337,
            kind: NoiseKind::OpenSimplex2,
            fractal: FractalKind::Plain,
            octaves: 3,
            lacunarity_milli: 2000,
            gain_milli: 500,
            frequency_milli: 10,
        }),
{
    NoiseConfig {
        seed: 1337,
        kind: NoiseKind::OpenSimplex2,
        fractal: FractalKind::Plain,
        octaves: 3,
        lacunarity_milli: 2000,
        gain_milli: 500,
        frequency_milli: 10,
    }
}

/// Ridged multi-octave simplex terrain for the earth surface.
pub fn create_earth_noise() -> (c: NoiseConfig)
    ensures
        c == (NoiseConfig {
            seed: 1337,
            kind: NoiseKind::OpenSimplex2S,
            fractal: FractalKind::Ridged,
            octaves: 5,
            lacunarity_milli: 3000,
            gain_milli: 500,
            frequency_milli: 500,
        }),
{
    NoiseConfig {
        seed: 1337,
        kind: NoiseKind::OpenSimplex2S,
        fractal: FractalKind::Ridged,
        octaves: 5,
        lacunarity_milli: 3000,
        gain_milli: 500,
        frequency_milli: 500,
    }
}

/// Slow low-octave Perlin field for the earth's cloud layer.
pub fn create_cloud_noise() -> (c: NoiseConfig)
    ensures
        c == (NoiseConfig {
            seed: 40,
            kind: NoiseKind::Perlin,
            fractal: FractalKind::FBm,
            octaves: 2,
            lacunarity_milli: 3000,
            gain_milli: 500,
            frequency_milli: 10,
        }),
{
    NoiseConfig {
        seed: 40,
        kind: NoiseKind::Perlin,
        fractal: FractalKind::FBm,
        octaves: 2,
        lacunarity_milli: 3000,
        gain_milli: 500,
        frequency_milli: 10,
    }
}

/// Ridged Perlin craters for the mars surface.
pub fn create_mars_noise() -> (c: NoiseConfig)
    ensures
        c == (NoiseConfig {
            seed: 1234,
            kind: NoiseKind::Perlin,
            fractal: FractalKind::Ridged,
            octaves: 4,
            lacunarity_milli: 2000,
            gain_milli: 500,
            frequency_milli: 1500,
        }),
{
    NoiseConfig {
        seed: 1234,
        kind: NoiseKind::Perlin,
        fractal: FractalKind::Ridged,
        octaves: 4,
        lacunarity_milli: 2000,
        gain_milli: 500,
        frequency_milli: 1500,
    }
}

/// Ping-pong simplex pocking for the moon surface.
pub fn create_moon_noise() -> (c: NoiseConfig)
    ensures
        c == (NoiseConfig {
            seed: 4321,
            kind: NoiseKind::OpenSimplex2,
            fractal: FractalKind::PingPong,
            octaves: 2,
            lacunarity_milli: 2000,
            gain_milli: 500,
            frequency_milli: 3000,
        }),
{
    NoiseConfig {
        seed: 4321,
        kind: NoiseKind::OpenSimplex2,
        fractal: FractalKind::PingPong,
        octaves: 2,
        lacunarity_milli: 2000,
        gain_milli: 500,
        frequency_milli: 3000,
    }
}

/// Dense ping-pong Perlin craters for the mercury surface.
pub fn create_mercury_noise() -> (c: NoiseConfig)
    ensures
        c == (NoiseConfig {
            seed: 4321,
            kind: NoiseKind::Perlin,
            fractal: FractalKind::PingPong,
            octaves: 5,
            lacunarity_milli: 2000,
            gain_milli: 1000,
            frequency_milli: 5000,
        }),
{
    NoiseConfig {
        seed: 4321,
        kind: NoiseKind::Perlin,
        fractal: FractalKind::PingPong,
        octaves: 5,
        lacunarity_milli: 2000,
        gain_milli: 1000,
        frequency_milli: 5000,
    }
}

/// Domain-warped simplex turbulence for the jupiter surface.
pub fn create_jupiter_noise() -> (c: NoiseConfig)
    ensures
        c == (NoiseConfig {
            seed: 5678,
            kind: NoiseKind::OpenSimplex2,
            fractal: FractalKind::DomainWarpProgressive,
            octaves: 6,
            lacunarity_milli: 2000,
            gain_milli: 500,
            frequency_milli: 2000,
        }),
{
    NoiseConfig {
        seed: 5678,
        kind: NoiseKind::OpenSimplex2,
        fractal: FractalKind::DomainWarpProgressive,
        octaves: 6,
        lacunarity_milli: 2000,
        gain_milli: 500,
        frequency_milli: 2000,
    }
}

/// Independent banding field blended into the jupiter surface.
pub fn create_jupiter_band_noise() -> (c: NoiseConfig)
    ensures
        c == (NoiseConfig {
            seed: 7890,
            kind: NoiseKind::OpenSimplex2,
            fractal: FractalKind::FBm,
            octaves: 3,
            lacunarity_milli: 2000,
            gain_milli: 500,
            frequency_milli: 1000,
        }),
{
    NoiseConfig {
        seed: 7890,
        kind: NoiseKind::OpenSimplex2,
        fractal: FractalKind::FBm,
        octaves: 3,
        lacunarity_milli: 2000,
        gain_milli: 500,
        frequency_milli: 1000,
    }
}

/// Broad ridged simplex shading for the uranus surface.
pub fn create_urano_noise() -> (c: NoiseConfig)
    ensures
        c == (NoiseConfig {
            seed: 2021,
            kind: NoiseKind::OpenSimplex2,
            fractal: FractalKind::Ridged,
            octaves: 4,
            lacunarity_milli: 2000,
            gain_milli: 400,
            frequency_milli: 200,
        }),
{
    NoiseConfig {
        seed: 2021,
        kind: NoiseKind::OpenSimplex2,
        fractal: FractalKind::Ridged,
        octaves: 4,
        lacunarity_milli: 2000,
        gain_milli: 400,
        frequency_milli: 200,
    }
}

/// The surface-noise preset for a shader selector, exactly as
/// `create_noise` hands it out.
pub open spec fn noise_for_shader(current_shader: u8) -> NoiseConfig {
    if current_shader == 2 {
        NoiseConfig {
            seed: 1234,
            kind: NoiseKind::Perlin,
            fractal: FractalKind::Ridged,
            octaves: 4,
            lacunarity_milli: 2000,
            gain_milli: 500,
            frequency_milli: 1500,
        }
    } else if current_shader == 3 {
        NoiseConfig {
            seed: 4321,
            kind: NoiseKind::Perlin,
            fractal: FractalKind::PingPong,
            octaves: 5,
            lacunarity_milli: 2000,
            gain_milli: 1000,
            frequency_milli: 5000,
        }
    } else if current_shader == 4 || current_shader == 9 {
        NoiseConfig {
            seed: 1337,
            kind: NoiseKind::OpenSimplex2,
            fractal: FractalKind::Plain,
            octaves: 3,
            lacunarity_milli: 2000,
            gain_milli: 500,
            frequency_milli: 10,
        }
    } else if current_shader == 5 {
        NoiseConfig {
            seed: 5678,
            kind: NoiseKind::OpenSimplex2,
            fractal: FractalKind::DomainWarpProgressive,
            octaves: 6,
            lacunarity_milli: 2000,
            gain_milli: 500,
            frequency_milli: 2000,
        }
    } else if current_shader == 6 {
        NoiseConfig {
            seed: 2021,
            kind: NoiseKind::OpenSimplex2,
            fractal: FractalKind::Ridged,
            octaves: 4,
            lacunarity_milli: 2000,
            gain_milli: 400,
            frequency_milli: 200,
        }
    } else if current_shader == 8 {
        NoiseConfig {
            seed: 4321,
            kind: NoiseKind::OpenSimplex2,
            fractal: FractalKind::PingPong,
            octaves: 2,
            lacunarity_milli: 2000,
            gain_milli: 500,
            frequency_milli: 3000,
        }
    } else {
        NoiseConfig {
            seed: 1337,
            kind: NoiseKind::OpenSimplex2S,
            fractal: FractalKind::Ridged,
            octaves: 5,
            lacunarity_milli: 3000,
            gain_milli: 500,
            frequency_milli: 500,
        }
    }
}

/// The per-species surface-noise table, keyed by the shader selector:
/// earth 1, mars 2, mercury 3, saturn 4, jupiter 5, uranus 6, sun 7,
/// moon 8, ring 9. Unknown selectors fall back to the earth preset.
pub fn create_noise(current_shader: u8) -> (c: NoiseConfig)
    ensures
        c == noise_for_shader(current_shader),
{
    if current_shader == 2 {
        create_mars_noise()
    } else if current_shader == 3 {
        create_mercury_noise()
    } else if current_shader == 4 || current_shader == 9 {
        default_noise_config()
    } else if current_shader == 5 {
        create_jupiter_noise()
    } else if current_shader == 6 {
        create_urano_noise()
    } else if current_shader == 8 {
        create_moon_noise()
    } else {
        create_earth_noise()
    }
}

/// The fixed set of procedural surface models, one per celestial species.
#[derive(Clone, Copy, PartialEq, Eq, Structural, Debug)]
pub enum BodyKind {
    Earth,
    Mars,
    Mercury,
    Saturn,
    Jupiter,
    Uranus,
    Sun,
    Moon,
    Ring,
}

/// The surface model a shader selector stands for; unknown selectors fall
/// back to the earth model.
pub open spec fn kind_for_shader(id: u8) -> BodyKind {
    if id == 2 {
        BodyKind::Mars
    } else if id == 3 {
        BodyKind::Mercury
    } else if id == 4 {
        BodyKind::Saturn
    } else if id == 5 {
        BodyKind::Jupiter
    } else if id == 6 {
        BodyKind::Uranus
    } else if id == 7 {
        BodyKind::Sun
    } else if id == 8 {
        BodyKind::Moon
    } else if id == 9 {
        BodyKind::Ring
    } else {
        BodyKind::Earth
    }
}

/// Map a shader selector integer to its surface model.
pub fn shader_kind(id: u8) -> (k: BodyKind)
    ensures
        k == kind_for_shader(id),
{
    if id == 2 {
        BodyKind::Mars
    } else if id == 3 {
        BodyKind::Mercury
    } else if id == 4 {
        BodyKind::Saturn
    } else if id == 5 {
        BodyKind::Jupiter
    } else if id == 6 {
        BodyKind::Uranus
    } else if id == 7 {
        BodyKind::Sun
    } else if id == 8 {
        BodyKind::Moon
    } else if id == 9 {
        BodyKind::Ring
    } else {
        BodyKind::Earth
    }
}

/// The pre-sampled values of the three noise fields at one fragment's
/// world-space position, in fixed-point units: each in [-FX, FX].
#[derive(Clone, Copy, PartialEq, Eq, Structural, Debug)]
pub struct NoiseSamples {
    pub surface: i64,
    pub cloud: i64,
    pub band: i64,
}

impl NoiseSamples {
    pub open spec fn wf(self) -> bool {
        &&& -FX <= self.surface <= FX
        &&& -FX <= self.cloud <= FX
        &&& -FX <= self.band <= FX
    }
}

/// A noise sample in [-FX, FX] mapped to a blend factor in [0, FX].
pub open spec fn noise_t(sample: int) -> int {
    (sample + FX) / 2
}

/// Linear blend of two channel values by `t` in [0, FX]: `c0` at 0, `c1`
/// at FX.
pub open spec fn mix_spec(c0: int, c1: int, t: int) -> int {
    (c0 * (FX - t) + c1 * t) / (FX as int)
}

/// Blend two color channels; the result stays between 0 and 255.
pub fn mix_channel(c0: u8, c1: u8, t: i64) -> (r: u8)
    requires
        0 <= t <= FX,
    ensures
        r == mix_spec(c0 as int, c1 as int, t as int),
{
    proof {
        assert(0 <= (c0 as int) * (FX - t) <= 255 * 256 && 0 <= (c1 as int) * (t as int) <= 255
            * 256) by (nonlinear_arith)
            requires
                0 <= c0 <= 255,
                0 <= c1 <= 255,
                0 <= t <= 256,
        ;
    }
    let v: i64 = ((c0 as i64) * (FX - t) + (c1 as i64) * t) / FX;
    proof {
        let numer = (c0 as int) * (FX - t) + (c1 as int) * (t as int);
        assert(0 <= numer <= 255 * (FX as int)) by (nonlinear_arith)
            requires
                numer == (c0 as int) * (FX - t) + (c1 as int) * (t as int),
                0 <= c0 <= 255,
                0 <= c1 <= 255,
                0 <= t <= FX,
        ;
        crate::fx::lemma_div_pos(numer, FX as int);
        lemma_div_is_ordered(numer, 255 * (FX as int), FX as int);
        crate::fx::lemma_div_exact(255, FX as int);
    }
    v as u8
}

/// The time-varying part of the sun's glow: a triangle wave over a
/// 40-frame period, between 0 and 20.
pub open spec fn pulse_spec(time: u32) -> int {
    let m = (time as int) % 40;
    if m < 20 {
        m
    } else {
        40 - m
    }
}

/// The base (unlit) surface color of one fragment under a surface model.
pub open spec fn base_color_spec(kind: BodyKind, samples: NoiseSamples) -> Color {
    let t = noise_t(samples.surface as int);
    let tb = (noise_t(samples.surface as int) + noise_t(samples.band as int)) / 2;
    let ct = noise_t(samples.cloud as int);
    match kind {
        BodyKind::Earth => {
            let ocean_land = Color {
                r: mix_spec(10, 30, t) as u8,
                g: mix_spec(60, 160, t) as u8,
                b: mix_spec(160, 60, t) as u8,
            };
            if samples.cloud > FX / 4 {
                Color {
                    r: mix_spec(ocean_land.r as int, 240, ct) as u8,
                    g: mix_spec(ocean_land.g as int, 240, ct) as u8,
                    b: mix_spec(ocean_land.b as int, 240, ct) as u8,
                }
            } else {
                ocean_land
            }
        },
        BodyKind::Mars => Color {
            r: mix_spec(90, 200, t) as u8,
            g: mix_spec(30, 90, t) as u8,
            b: mix_spec(15, 40, t) as u8,
        },
        BodyKind::Mercury => Color {
            r: mix_spec(60, 180, t) as u8,
            g: mix_spec(60, 170, t) as u8,
            b: mix_spec(60, 150, t) as u8,
        },
        BodyKind::Saturn => Color {
            r: mix_spec(180, 230, tb) as u8,
            g: mix_spec(140, 210, tb) as u8,
            b: mix_spec(90, 160, tb) as u8,
        },
        BodyKind::Jupiter => Color {
            r: mix_spec(150, 235, tb) as u8,
            g: mix_spec(90, 210, tb) as u8,
            b: mix_spec(40, 170, tb) as u8,
        },
        BodyKind::Uranus => Color {
            r: mix_spec(40, 160, t) as u8,
            g: mix_spec(80, 220, t) as u8,
            b: mix_spec(160, 240, t) as u8,
        },
        BodyKind::Sun => Color { r: 255u8, g: mix_spec(150, 230, t) as u8, b: 40u8 },
        BodyKind::Moon => Color {
            r: mix_spec(40, 200, t) as u8,
            g: mix_spec(40, 200, t) as u8,
            b: mix_spec(45, 200, t) as u8,
        },
        BodyKind::Ring => Color { r: 150u8, g: 140u8, b: 120u8 },
    }
}

/// The final display color: the base surface color modulated by the
/// interpolated lighting intensity, except for the sun, which is emissive
/// and ignores lighting.
pub open spec fn shaded_color_spec(kind: BodyKind, samples: NoiseSamples, intensity: int) -> Color {
    let base = base_color_spec(kind, samples);
    if kind == BodyKind::Sun {
        base
    } else {
        Color {
            r: mix_spec(0, base.r as int, intensity) as u8,
            g: mix_spec(0, base.g as int, intensity) as u8,
            b: mix_spec(0, base.b as int, intensity) as u8,
        }
    }
}

/// The emission a surface model writes into the emissive buffer: zero for
/// every model but the sun, whose glow follows its surface noise and a
/// slow time pulse.
pub open spec fn emission_spec(kind: BodyKind, samples: NoiseSamples, time: u32) -> int {
    if kind == BodyKind::Sun {
        180 + (noise_t(samples.surface as int) * 55) / (FX as int) + pulse_spec(time)
    } else {
        0
    }
}

/// Shade one fragment: pick the surface model, blend its palette by the
/// pre-sampled noise, modulate by the interpolated lighting intensity
/// (except the sun), and report the emission for the bloom pass. Every
/// model but the sun emits exactly zero; the sun always emits.
pub fn fragment_shader(fragment: &Fragment, kind: BodyKind, samples: NoiseSamples, time: u32) -> (r:
    (Color, u32))
    requires
        samples.wf(),
        fragment.intensity_in_range(),
    ensures
        r.0 == shaded_color_spec(kind, samples, fragment.intensity as int),
        r.1 == emission_spec(kind, samples, time),
        kind != BodyKind::Sun ==> r.1 == 0,
        kind == BodyKind::Sun ==> r.1 >= 180,
{
    let t: i64 = (samples.surface + FX) / 2;
    let tb: i64 = (t + (samples.band + FX) / 2) / 2;
    let ct: i64 = (samples.cloud + FX) / 2;
    let base: Color = match kind {
        BodyKind::Earth => {
            let ocean_land = Color {
                r: mix_channel(10, 30, t),
                g: mix_channel(60, 160, t),
                b: mix_channel(160, 60, t),
            };
            if samples.cloud > FX / 4 {
                Color {
                    r: mix_channel(ocean_land.r, 240, ct),
                    g: mix_channel(ocean_land.g, 240, ct),
                    b: mix_channel(ocean_land.b, 240, ct),
                }
            } else {
                ocean_land
            }
        },
        BodyKind::Mars => Color {
            r: mix_channel(90, 200, t),
            g: mix_channel(30, 90, t),
            b: mix_channel(15, 40, t),
        },
        BodyKind::Mercury => Color {
            r: mix_channel(60, 180, t),
            g: mix_channel(60, 170, t),
            b: mix_channel(60, 150, t),
        },
        BodyKind::Saturn => Color {
            r: mix_channel(180, 230, tb),
            g: mix_channel(140, 210, tb),
            b: mix_channel(90, 160, tb),
        },
        BodyKind::Jupiter => Color {
            r: mix_channel(150, 235, tb),
            g: mix_channel(90, 210, tb),
            b: mix_channel(40, 170, tb),
        },
        BodyKind::Uranus => Color {
            r: mix_channel(40, 160, t),
            g: mix_channel(80, 220, t),
            b: mix_channel(160, 240, t),
        },
        BodyKind::Sun => Color { r: 255, g: mix_channel(150, 230, t), b: 40 },
        BodyKind::Moon => Color {
            r: mix_channel(40, 200, t),
            g: mix_channel(40, 200, t),
            b: mix_channel(45, 200, t),
        },
        BodyKind::Ring => Color { r: 150, g: 140, b: 120 },
    };
    if kind == BodyKind::Sun {
        let m: u32 = time % 40;
        let pulse: i64 = if m < 20 {
            m as i64
        } else {
            40 - (m as i64)
        };
        let emission: i64 = 180 + (t * 55) / FX + pulse;
        proof {
            crate::fx::lemma_div_pos(t as int * 55, FX as int);
        }
        (base, emission as u32)
    } else {
        let lit = Color {
            r: mix_channel(0, base.r, fragment.intensity),
            g: mix_channel(0, base.g, fragment.intensity),
            b: mix_channel(0, base.b, fragment.intensity),
        };
        (lit, 0)
    }
}

} // verus!
