use vstd::prelude::*;

verus! {

/// Relies on `wgpu::BufferUsages::from_bits_truncate`: keeps the bits that
/// name a buffer usage flag (bits 0 to 9) and drops the rest.
#[verifier::external_body]
pub(crate) fn buffer_usage_bits(usage: u32) -> (r: u32)
    ensures
        r == usage & 0x3ff,
{
    wgpu::BufferUsages::from_bits_truncate(usage).bits()
}

/// Relies on `wgpu::TextureUsages::from_bits_truncate`: keeps the bits that
/// name a texture usage flag (bits 0 to 4) and drops the rest.
#[verifier::external_body]
pub(crate) fn texture_usage_bits(usage: u32) -> (r: u32)
    ensures
        r == usage & 0x1f,
{
    wgpu::TextureUsages::from_bits_truncate(usage).bits()
}

/// Relies on `wgpu::ColorWrites::from_bits`: accepts a mask made only of the
/// red, green, blue and alpha bits (bits 0 to 3), and refuses any other.
#[verifier::external_body]
pub(crate) fn color_write_bits(mask: u32) -> (r: Option<u32>)
    ensures
        r == if mask & 0xf == mask {
            Some(mask)
        } else {
            None
        },
{
    wgpu::ColorWrites::from_bits(mask).map(|w| w.bits())
}

/// The bits of the wgpu feature flag whose Rust name is `name`, if there is one.
pub uninterp spec fn feature_flag_named(name: Seq<char>) -> Option<u64>;

/// Relies on `wgpu::Features::from_name`: looks a flag up by the name of its
/// constant; the answer depends on the name alone.
#[verifier::external_body]
pub(crate) fn feature_flag(name: &str) -> (r: Option<u64>)
    ensures
        r == feature_flag_named(name@),
{
    wgpu::Features::from_name(name).map(|f| f.bits())
}

} // verus!
