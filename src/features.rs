use vstd::prelude::*;
use crate::native::{feature_flag, feature_flag_named};
use crate::text::same_text;

verus! {

/// The Rust name of the wgpu feature that a WebGPU feature name stands for.
pub open spec fn native_feature_name(s: Seq<char>) -> Option<Seq<char>> {
    if s == "depth-clip-control"@ {
        Some("DEPTH_CLIP_CONTROL"@)
    } else if s == "depth32float-stencil8"@ {
        Some("DEPTH32FLOAT_STENCIL8"@)
    } else if s == "texture-compression-bc"@ {
        Some("TEXTURE_COMPRESSION_BC"@)
    } else if s == "texture-compression-etc2"@ {
        Some("TEXTURE_COMPRESSION_ETC2"@)
    } else if s == "texture-compression-astc"@ {
        Some("TEXTURE_COMPRESSION_ASTC"@)
    } else if s == "timestamp-query"@ {
        Some("TIMESTAMP_QUERY"@)
    } else if s == "indirect-first-instance"@ {
        Some("INDIRECT_FIRST_INSTANCE"@)
    } else if s == "shader-f16"@ {
        Some("SHADER_F16"@)
    } else if s == "rg11b10ufloat-renderable"@ {
        Some("RG11B10UFLOAT_RENDERABLE"@)
    } else if s == "bgra8unorm-storage"@ {
        Some("BGRA8UNORM_STORAGE"@)
    } else if s == "float32-filterable"@ {
        Some("FLOAT32_FILTERABLE"@)
    } else {
        None
    }
}

pub fn native_feature(name: &str) -> (r: Option<&'static str>)
    ensures
        match r {
            Some(n) => native_feature_name(name@) == Some(n@),
            None => native_feature_name(name@).is_none(),
        },
{
    if same_text(name, "depth-clip-control") {
        Some("DEPTH_CLIP_CONTROL")
    } else if same_text(name, "depth32float-stencil8") {
        Some("DEPTH32FLOAT_STENCIL8")
    } else if same_text(name, "texture-compression-bc") {
        Some("TEXTURE_COMPRESSION_BC")
    } else if same_text(name, "texture-compression-etc2") {
        Some("TEXTURE_COMPRESSION_ETC2")
    } else if same_text(name, "texture-compression-astc") {
        Some("TEXTURE_COMPRESSION_ASTC")
    } else if same_text(name, "timestamp-query") {
        Some("TIMESTAMP_QUERY")
    } else if same_text(name, "indirect-first-instance") {
        Some("INDIRECT_FIRST_INSTANCE")
    } else if same_text(name, "shader-f16") {
        Some("SHADER_F16")
    } else if same_text(name, "rg11b10ufloat-renderable") {
        Some("RG11B10UFLOAT_RENDERABLE")
    } else if same_text(name, "bgra8unorm-storage") {
        Some("BGRA8UNORM_STORAGE")
    } else if same_text(name, "float32-filterable") {
        Some("FLOAT32_FILTERABLE")
    } else {
        None
    }
}

/// Whether a feature set holds every bit of a flag; no flag is never held.
pub open spec fn holds_flag(bits: u64, flag: Option<u64>) -> bool {
    match flag {
        Some(f) => bits & f == f,
        None => false,
    }
}

pub fn has_flag(bits: u64, flag: Option<u64>) -> (b: bool)
    ensures
        b == holds_flag(bits, flag),
{
    match flag {
        Some(f) => bits & f == f,
        None => false,
    }
}

/// Bit `i` of `x`, as 0 or 1.
pub open spec fn bit_at(x: u64, i: u64) -> nat {
    if (x >> i) & 1 == 1 {
        1
    } else {
        0
    }
}

/// How many of the lowest `k` bits of `x` are set.
pub open spec fn ones_below(x: u64, k: u64) -> nat
    decreases k,
{
    if k == 0 {
        0
    } else {
        ones_below(x, (k - 1) as u64) + bit_at(x, (k - 1) as u64)
    }
}

/// How many bits of `x` are set.
pub fn count_ones(x: u64) -> (n: u32)
    ensures
        n == ones_below(x, 64),
{
    let mut n: u32 = 0;
    let mut i: u64 = 0;
    while i < 64
        invariant
            i <= 64,
            n == ones_below(x, i),
            n <= i,
        decreases 64 - i,
    {
        let b = (x >> i) & 1;
        assert(b <= 1) by (bit_vector)
            requires
                b == (x >> i) & 1,
        ;
        n = n + b as u32;
        i = i + 1;
    }
    n
}

/// The features a device supports, as wgpu's feature bits.
#[derive(Clone, Copy, Debug, PartialEq, Eq, Structural)]
pub struct GpuSupportedFeatures {
    pub bits: u64,
}

impl GpuSupportedFeatures {
    /// Whether the feature with this WebGPU name is supported; unknown
    /// names are not.
    pub fn has(&self, feature: &str) -> (b: bool)
        ensures
            b == match native_feature_name(feature@) {
                Some(n) => holds_flag(self.bits, feature_flag_named(n)),
                None => false,
            },
    {
        match native_feature(feature) {
            Some(n) => has_flag(self.bits, feature_flag(n)),
            None => false,
        }
    }

    /// How many feature bits are set.
    pub fn size(&self) -> (n: u32)
        ensures
            n == ones_below(self.bits, 64),
    {
        count_ones(self.bits)
    }
}

/// The WebGPU names that an adapter reports, of the three it looks for, in
/// this order: `depth-clip-control`, `timestamp-query`, `texture-compression-bc`.
pub open spec fn reported_features(bits: u64) -> Seq<Seq<char>> {
    let a = if holds_flag(bits, feature_flag_named("DEPTH_CLIP_CONTROL"@)) {
        seq!["depth-clip-control"@]
    } else {
        Seq::empty()
    };
    let b = if holds_flag(bits, feature_flag_named("TIMESTAMP_QUERY"@)) {
        a.push("timestamp-query"@)
    } else {
        a
    };
    if holds_flag(bits, feature_flag_named("TEXTURE_COMPRESSION_BC"@)) {
        b.push("texture-compression-bc"@)
    } else {
        b
    }
}

pub fn adapter_feature_names(features: &GpuSupportedFeatures) -> (r: Vec<String>)
    ensures
        r@.map_values(|s: String| s@) == reported_features(features.bits),
{
    let mut out: Vec<String> = Vec::new();
    if has_flag(features.bits, feature_flag("DEPTH_CLIP_CONTROL")) {
        out.push("depth-clip-control".to_owned());
    }
    if has_flag(features.bits, feature_flag("TIMESTAMP_QUERY")) {
        out.push("timestamp-query".to_owned());
    }
    if has_flag(features.bits, feature_flag("TEXTURE_COMPRESSION_BC")) {
        out.push("texture-compression-bc".to_owned());
    }
    assert(out@.map_values(|s: String| s@) =~= reported_features(features.bits));
    out
}

} // verus!
