//! The settings that a configuration provider hands in, and the load flags
//! and render mode that follow from them.

use vstd::prelude::*;
use crate::engine::RenderMode;
use crate::metrics::FT_LOAD_COLOR;

verus! {

/// The field of the load flags that holds the load target: bits 16 to 19.
pub const LOAD_TARGET_FIELD: u32 = 0xF_0000;

/// The hinting and rendering targets that a configuration can name.
#[derive(Debug, Clone, Copy, PartialEq, Eq, Structural)]
pub enum FreeTypeLoadTarget {
    Normal,
    Light,
    Mono,
    HorizontalLcd,
    VerticalLcd,
}

/// What a configuration says about the engine: the bits of the load flags,
/// the load target, the render target where it differs from the load
/// target, and the version of the outline interpreter where it is to be
/// overridden.
#[derive(Debug, Clone, Copy, PartialEq, Eq, Structural)]
pub struct FreeTypeConfig {
    pub load_flags: u32,
    pub load_target: FreeTypeLoadTarget,
    pub render_target: Option<FreeTypeLoadTarget>,
    pub interpreter_version: Option<u32>,
}

impl RenderMode {
    /// The number of the mode in the engine's numbering.
    pub open spec fn number_spec(self) -> u32 {
        match self {
            RenderMode::Normal => 0,
            RenderMode::Light => 1,
            RenderMode::Mono => 2,
            RenderMode::Lcd => 3,
            RenderMode::LcdV => 4,
        }
    }

    /// The number of the mode in the engine's numbering.
    #[verifier::when_used_as_spec(number_spec)]
    pub fn number(self) -> (n: u32)
        ensures
            n == self.number_spec(),
    {
        match self {
            RenderMode::Normal => 0,
            RenderMode::Light => 1,
            RenderMode::Mono => 2,
            RenderMode::Lcd => 3,
            RenderMode::LcdV => 4,
        }
    }
}

/// The render mode that goes with a target.
pub open spec fn target_to_render_spec(target: FreeTypeLoadTarget) -> RenderMode {
    match target {
        FreeTypeLoadTarget::Mono => RenderMode::Mono,
        FreeTypeLoadTarget::Normal => RenderMode::Normal,
        FreeTypeLoadTarget::Light => RenderMode::Light,
        FreeTypeLoadTarget::HorizontalLcd => RenderMode::Lcd,
        FreeTypeLoadTarget::VerticalLcd => RenderMode::LcdV,
    }
}

/// The render mode that goes with a target.
#[verifier::when_used_as_spec(target_to_render_spec)]
pub fn target_to_render(target: FreeTypeLoadTarget) -> (mode: RenderMode)
    ensures
        mode == target_to_render_spec(target),
{
    match target {
        FreeTypeLoadTarget::Mono => RenderMode::Mono,
        FreeTypeLoadTarget::Normal => RenderMode::Normal,
        FreeTypeLoadTarget::Light => RenderMode::Light,
        FreeTypeLoadTarget::HorizontalLcd => RenderMode::Lcd,
        FreeTypeLoadTarget::VerticalLcd => RenderMode::LcdV,
    }
}

/// The bits that a render mode contributes to the load flags: those of its
/// number that lie in the load-target field. No mode has a number that
/// reaches the field, so the contribution of every mode is 0.
pub fn render_mode_to_load_target(render_mode: RenderMode) -> (bits: u32)
    ensures
        bits == render_mode.number() & LOAD_TARGET_FIELD,
        bits == 0,
{
    let n: u32 = render_mode.number();
    assert(n <= 4 ==> n & 0xF_0000 == 0) by (bit_vector);
    n & LOAD_TARGET_FIELD
}

/// The load flags of a configuration, before they are reread as a signed
/// number: the configured bits, the colour flag, and the contribution of
/// the load target.
pub open spec fn load_flag_bits(config: FreeTypeConfig) -> u32 {
    config.load_flags | (FT_LOAD_COLOR as u32) | (target_to_render(config.load_target).number()
        & LOAD_TARGET_FIELD)
}

/// The render mode of a configuration: that of its render target, or of
/// its load target where it names no render target.
pub open spec fn render_mode_of(config: FreeTypeConfig) -> RenderMode {
    match config.render_target {
        Some(target) => target_to_render(target),
        None => target_to_render(config.load_target),
    }
}

/// Computes the load flags and the render mode that a configuration asks
/// for.
///
/// The flags are the configured bits with the colour flag set, reread as a
/// signed 32-bit number, so that a configuration with the top bit set gives
/// a negative number. The render mode is that of the render target, and of
/// the load target where no render target is named.
pub fn compute_load_flags_from_config(config: &FreeTypeConfig) -> (r: (i32, RenderMode))
    ensures
        r.0 == load_flag_bits(*config) as i32,
        r.0 == (config.load_flags | 0x10_0000u32) as i32,
        r.1 == render_mode_of(*config),
{
    let load_target: RenderMode = target_to_render(config.load_target);
    let render: RenderMode = match config.render_target {
        Some(target) => target_to_render(target),
        None => load_target,
    };
    let target_bits: u32 = render_mode_to_load_target(load_target);
    let colour: u32 = FT_LOAD_COLOR as u32;
    let load_flags: u32 = config.load_flags | colour | target_bits;
    proof {
        let configured: u32 = config.load_flags;
        assert(configured | 0x10_0000u32 | 0u32 == configured | 0x10_0000u32) by (bit_vector);
    }
    (#[verifier::truncate] (load_flags as i32), render)
}

/// Load flags that fit a signed number come out with the same bits set:
/// nothing is lost and the colour flag is added.
pub proof fn lemma_load_flags_keep_bits(config: FreeTypeConfig)
    requires
        config.load_flags < 0x8000_0000,
    ensures
        load_flag_bits(config) as i32 == config.load_flags | 0x10_0000u32,
        load_flag_bits(config) & 0x10_0000u32 == 0x10_0000u32,
        load_flag_bits(config) & config.load_flags == config.load_flags,
{
    let configured: u32 = config.load_flags;
    let n: u32 = target_to_render(config.load_target).number();
    assert(n <= 4 ==> n & 0xF_0000 == 0) by (bit_vector);
    assert(configured | 0x10_0000u32 | 0u32 == configured | 0x10_0000u32) by (bit_vector);
    assert(configured < 0x8000_0000u32 ==> (configured | 0x10_0000u32) < 0x8000_0000u32) by (bit_vector);
    assert((configured | 0x10_0000u32) & 0x10_0000u32 == 0x10_0000u32) by (bit_vector);
    assert((configured | 0x10_0000u32) & configured == configured) by (bit_vector);
}

} // verus!
