use almost::color::Rgb;
use almost::display::{
    Display, DisplayError, DisplaySettings, DrawOp, Extent, FontSlant, FontWeight, InitStep,
    LauncherState, BASELINE_PAD, PROMPT_PAD, TEXT_INSET,
};
use almost::plan::{Outcome, Plan, Reaction};

fn settings(font_size: u32) -> DisplaySettings {
    DisplaySettings {
        font_name: "monospace".to_owned(),
        font_size,
        full_width: 600,
        full_height: 200,
        main_bg: Rgb::from_hex(0x000000),
        prompt_bg: Rgb::from_hex(0x11111b),
        prompt_fg: Rgb::from_hex(0xeeeeee),
    }
}

fn ops(plan: &mut Plan<DrawOp>) -> Vec<DrawOp> {
    let mut out = Vec::new();
    while let Some(step) = plan.current() {
        assert!(step.required);
        out.push(step.action.clone());
        plan.report(true);
    }
    out
}

fn frame_of(display: &Display) -> Vec<DrawOp> {
    ops(&mut display.redraw())
}

#[test]
fn pads_and_inset() {
    assert_eq!(PROMPT_PAD, 28);
    assert_eq!(BASELINE_PAD, 14);
    assert_eq!(TEXT_INSET, 4);
}

#[test]
fn default_state_has_an_empty_prompt() {
    assert_eq!(LauncherState::default().prompt, "");
}

#[test]
fn state_set_and_append() {
    let mut state = LauncherState::default();
    state.append_prompt("ab");
    assert_eq!(state.prompt, "ab");
    state.set_prompt("X");
    assert_eq!(state.prompt, "X");
    state.append_prompt("Y");
    assert_eq!(state.prompt, "XY");
    state.set_prompt("");
    assert_eq!(state.prompt, "");
}

#[test]
fn new_display_keeps_settings_and_shows_nothing() {
    let display = Display::new(settings(24));
    assert_eq!(display.settings().font_name, "monospace");
    assert_eq!(display.settings().font_size, 24);
    assert_eq!(display.settings().full_width, 600);
    assert_eq!(display.settings().full_height, 200);
    assert_eq!(display.settings().prompt_bg.components(), (0x11, 0x11, 0x1b));
    assert_eq!(frame_of(&display)[8], DrawOp::ShowText(String::new()));
}

#[test]
fn redraw_gives_the_whole_frame_in_order() {
    let mut display = Display::new(settings(24));
    display.update_state(|mut state| {
        state.set_prompt("run:");
        state
    });
    let expected = vec![
        DrawOp::MoveTo { x: 0, y: Extent::Fixed(0) },
        DrawOp::SetSourceRgb(Rgb::from_hex(0x11111b)),
        DrawOp::Rectangle { x: 0, y: Extent::Fixed(0), width: 600, height: Extent::PastLine(28) },
        DrawOp::Fill,
        DrawOp::SetSourceRgb(Rgb::from_hex(0xeeeeee)),
        DrawOp::SetFontFace,
        DrawOp::SetFontSize(24),
        DrawOp::MoveTo { x: 4, y: Extent::PastLine(14) },
        DrawOp::ShowText("run:".to_owned()),
        DrawOp::Flush,
    ];
    assert_eq!(frame_of(&display), expected);
}

#[test]
fn redraw_twice_gives_the_same_frame() {
    let mut display = Display::new(settings(24));
    display.update_state(|mut state| {
        state.set_prompt("same");
        state
    });
    let first = frame_of(&display);
    let second = frame_of(&display);
    assert_eq!(first, second);
    assert_eq!(first.len(), 10);
}

#[test]
fn prompt_follows_set_then_append() {
    let mut display = Display::new(settings(24));
    display.update_state(|mut state| {
        state.set_prompt("X");
        state
    });
    assert_eq!(frame_of(&display)[8], DrawOp::ShowText("X".to_owned()));
    display.update_state(|mut state| {
        state.append_prompt("Y");
        state
    });
    assert_eq!(frame_of(&display)[8], DrawOp::ShowText("XY".to_owned()));
}

#[test]
fn update_state_draws_nothing_and_keeps_settings() {
    let mut display = Display::new(settings(12));
    display.update_state(|_| LauncherState { prompt: "fresh".to_owned() });
    assert_eq!(display.settings().font_size, 12);
    assert_eq!(display.settings().full_width, 600);
    assert_eq!(frame_of(&display)[8], DrawOp::ShowText("fresh".to_owned()));
}

#[test]
fn bar_height_is_line_height_and_pad_whatever_the_font_size() {
    let small = frame_of(&Display::new(settings(8)));
    let large = frame_of(&Display::new(settings(96)));
    let bar = DrawOp::Rectangle { x: 0, y: Extent::Fixed(0), width: 600, height: Extent::PastLine(28) };
    assert_eq!(small[2], bar);
    assert_eq!(large[2], bar);
    assert_eq!(small[6], DrawOp::SetFontSize(8));
    assert_eq!(large[6], DrawOp::SetFontSize(96));
}

#[test]
fn bar_spans_the_configured_width() {
    let mut narrow = settings(24);
    narrow.full_width = 321;
    let frame = frame_of(&Display::new(narrow));
    assert_eq!(
        frame[2],
        DrawOp::Rectangle { x: 0, y: Extent::Fixed(0), width: 321, height: Extent::PastLine(28) }
    );
}

#[test]
fn redraw_aborts_at_the_first_failure() {
    let display = Display::new(settings(24));
    let mut plan = display.redraw();
    assert!(Display::render_result(&plan).is_none());
    for _ in 0..3 {
        assert_eq!(plan.report(true), Reaction::Advanced);
    }
    assert_eq!(plan.current().map(|s| s.action.clone()), Some(DrawOp::Fill));
    assert_eq!(plan.report(false), Reaction::Aborted);
    assert!(plan.current().is_none());
    assert_eq!(plan.outcome(), Outcome::Aborted { at: 3 });
    match Display::render_result(&plan) {
        Some(Err(DisplayError::Render { step })) => assert_eq!(step, 3),
        other => panic!("unexpected result: {:?}", other),
    }
}

#[test]
fn redraw_that_runs_through_is_ok() {
    let display = Display::new(settings(24));
    let mut plan = display.redraw();
    let drawn = ops(&mut plan);
    assert_eq!(drawn.len(), 10);
    assert!(matches!(Display::render_result(&plan), Some(Ok(()))));
}

#[test]
fn font_request_is_upright_and_of_normal_weight() {
    let request = settings(24).font_request();
    assert_eq!(request.family, "monospace");
    assert_eq!(request.slant, FontSlant::Normal);
    assert_eq!(request.weight, FontWeight::Normal);
}

#[test]
fn init_plan_orders_the_bring_up() {
    let mut plan = Display::init_plan();
    let mut seen = Vec::new();
    while let Some(step) = plan.current() {
        assert!(step.required);
        seen.push(step.action);
        plan.report(true);
    }
    assert_eq!(
        seen,
        vec![
            InitStep::CreateSurface,
            InitStep::CreateContext,
            InitStep::ResolveFont,
            InitStep::SelectFont,
            InitStep::MeasureFont,
        ]
    );
    assert!(matches!(Display::init_result(&settings(24), &plan), Some(Ok(()))));
}

#[test]
fn init_failure_of_the_surface_is_an_init_error() {
    let mut plan = Display::init_plan();
    assert!(Display::init_result(&settings(24), &plan).is_none());
    assert_eq!(plan.report(false), Reaction::Aborted);
    match Display::init_result(&settings(24), &plan) {
        Some(Err(DisplayError::Init { stage })) => assert_eq!(stage, InitStep::CreateSurface),
        other => panic!("unexpected result: {:?}", other),
    }
}

#[test]
fn init_failure_of_the_context_is_an_init_error() {
    let mut plan = Display::init_plan();
    plan.report(true);
    assert_eq!(plan.report(false), Reaction::Aborted);
    match Display::init_result(&settings(24), &plan) {
        Some(Err(DisplayError::Init { stage })) => assert_eq!(stage, InitStep::CreateContext),
        other => panic!("unexpected result: {:?}", other),
    }
}

#[test]
fn init_failure_of_the_font_names_the_family() {
    let mut plan = Display::init_plan();
    plan.report(true);
    plan.report(true);
    assert_eq!(plan.report(false), Reaction::Aborted);
    match Display::init_result(&settings(24), &plan) {
        Some(Err(DisplayError::FontResolution { family })) => assert_eq!(family, "monospace"),
        other => panic!("unexpected result: {:?}", other),
    }
}

#[test]
fn init_failure_of_the_metrics_is_an_init_error() {
    let mut plan = Display::init_plan();
    for _ in 0..4 {
        plan.report(true);
    }
    assert_eq!(plan.report(false), Reaction::Aborted);
    match Display::init_result(&settings(24), &plan) {
        Some(Err(DisplayError::Init { stage })) => assert_eq!(stage, InitStep::MeasureFont),
        other => panic!("unexpected result: {:?}", other),
    }
}

#[test]
fn display_error_messages() {
    assert_eq!(
        DisplayError::Init { stage: InitStep::CreateSurface }.message(),
        "failed to create cairo surface"
    );
    assert_eq!(
        DisplayError::Init { stage: InitStep::CreateContext }.message(),
        "failed to create cairo context"
    );
    assert_eq!(
        DisplayError::FontResolution { family: "monospace".to_owned() }.message(),
        "failed to create font face for 'monospace'"
    );
    assert_eq!(
        DisplayError::FontResolution { family: String::new() }.message(),
        "failed to create font face for ''"
    );
    assert_eq!(DisplayError::Render { step: 3 }.message(), "failed to draw the prompt bar");
}
