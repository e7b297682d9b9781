use ftwrap::engine::{ft_result, succeeded, EngineCall, EngineReply, Error, LcdFilter, RenderMode};
use ftwrap::load_flags::{
    compute_load_flags_from_config, render_mode_to_load_target, target_to_render, FreeTypeConfig,
    FreeTypeLoadTarget,
};

fn config(load_flags: u32, load_target: FreeTypeLoadTarget, render_target: Option<FreeTypeLoadTarget>) -> FreeTypeConfig {
    FreeTypeConfig { load_flags, load_target, render_target, interpreter_version: None }
}

#[test]
fn zero_status_is_success() {
    assert!(succeeded(0));
}

#[test]
fn nonzero_status_is_failure() {
    assert!(!succeeded(1));
    assert!(!succeeded(-1));
    assert!(!succeeded(0x55));
    assert!(!succeeded(i32::MIN));
}

#[test]
fn ft_result_hands_the_value_through_on_success() {
    let r = ft_result(EngineCall::GetCharIndex { char_code: 65 }, EngineReply::ok(), 17u8);
    assert_eq!(r, Ok(17u8));
}

#[test]
fn ft_result_records_call_code_and_reason() {
    let reply = EngineReply {
        status: 6,
        reason: Some(String::from("invalid argument")),
        glyph_index: 0,
        y_scale: 0,
        advance: 0,
    };
    let call = EngineCall::SelectSize { strike_index: 3 };
    let r = ft_result(call, reply, ());
    assert_eq!(
        r,
        Err(Error::EngineCallFailure { call, code: 6, reason: Some(String::from("invalid argument")) })
    );
}

#[test]
fn ft_result_without_reason() {
    let r = ft_result(EngineCall::SetLcdFilter { filter: LcdFilter::Default }, EngineReply::with_status(7), 1u32);
    assert_eq!(
        r,
        Err(Error::EngineCallFailure {
            call: EngineCall::SetLcdFilter { filter: LcdFilter::Default },
            code: 7,
            reason: None
        })
    );
}

#[test]
fn reply_constructors() {
    assert_eq!(
        EngineReply::ok(),
        EngineReply { status: 0, reason: None, glyph_index: 0, y_scale: 0, advance: 0 }
    );
    assert_eq!(
        EngineReply::with_status(-3),
        EngineReply { status: -3, reason: None, glyph_index: 0, y_scale: 0, advance: 0 }
    );
}

#[test]
fn render_mode_numbers() {
    assert_eq!(RenderMode::Normal.number(), 0);
    assert_eq!(RenderMode::Light.number(), 1);
    assert_eq!(RenderMode::Mono.number(), 2);
    assert_eq!(RenderMode::Lcd.number(), 3);
    assert_eq!(RenderMode::LcdV.number(), 4);
}

#[test]
fn targets_map_to_render_modes() {
    assert_eq!(target_to_render(FreeTypeLoadTarget::Mono), RenderMode::Mono);
    assert_eq!(target_to_render(FreeTypeLoadTarget::Normal), RenderMode::Normal);
    assert_eq!(target_to_render(FreeTypeLoadTarget::Light), RenderMode::Light);
    assert_eq!(target_to_render(FreeTypeLoadTarget::HorizontalLcd), RenderMode::Lcd);
    assert_eq!(target_to_render(FreeTypeLoadTarget::VerticalLcd), RenderMode::LcdV);
}

#[test]
fn no_render_mode_reaches_the_load_target_field() {
    for mode in [RenderMode::Normal, RenderMode::Light, RenderMode::Mono, RenderMode::Lcd, RenderMode::LcdV] {
        assert_eq!(render_mode_to_load_target(mode), 0);
    }
}

#[test]
fn load_flags_get_the_colour_flag() {
    let (flags, render) = compute_load_flags_from_config(&config(0, FreeTypeLoadTarget::Normal, None));
    assert_eq!(flags, 0x10_0000);
    assert_eq!(render, RenderMode::Normal);
}

#[test]
fn load_flags_keep_configured_bits() {
    // no hinting (2) and no bitmap (8)
    let (flags, render) = compute_load_flags_from_config(&config(2 | 8, FreeTypeLoadTarget::Light, None));
    assert_eq!(flags, 0x10_000a);
    assert_eq!(render, RenderMode::Light);
}

#[test]
fn load_flags_with_colour_already_set() {
    let (flags, _) = compute_load_flags_from_config(&config(0x10_0020, FreeTypeLoadTarget::Mono, None));
    assert_eq!(flags, 0x10_0020);
}

#[test]
fn load_flags_with_top_bit_are_negative() {
    let (flags, _) = compute_load_flags_from_config(&config(0x8000_0000, FreeTypeLoadTarget::Normal, None));
    assert_eq!(flags, (0x8010_0000u32) as i32);
    assert!(flags < 0);
    let (all, _) = compute_load_flags_from_config(&config(u32::MAX, FreeTypeLoadTarget::Normal, None));
    assert_eq!(all, -1);
}

#[test]
fn render_target_overrides_load_target() {
    let (flags, render) = compute_load_flags_from_config(&config(
        0,
        FreeTypeLoadTarget::Light,
        Some(FreeTypeLoadTarget::HorizontalLcd),
    ));
    assert_eq!(flags, 0x10_0000);
    assert_eq!(render, RenderMode::Lcd);
    let (_, vertical) = compute_load_flags_from_config(&config(
        0,
        FreeTypeLoadTarget::Mono,
        Some(FreeTypeLoadTarget::VerticalLcd),
    ));
    assert_eq!(vertical, RenderMode::LcdV);
}

#[test]
fn render_mode_falls_back_to_load_target() {
    let (_, render) = compute_load_flags_from_config(&config(0, FreeTypeLoadTarget::Mono, None));
    assert_eq!(render, RenderMode::Mono);
}
