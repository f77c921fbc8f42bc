//! The prompt bar: what is drawn, in which order, and what a failure means.
//!
//! Nothing here touches a rasteriser. A [`Display`] holds the settings and
//! the presentation state, and hands out the drawing commands of one frame
//! as a [`Plan`]. Vertical positions are kept relative to the line height of
//! the resolved font, which only the rasteriser knows.

use crate::color::Rgb;
use crate::plan::{all_required, Outcome, Plan, PlanStep};
use vstd::prelude::*;
use vstd::string::*;

verus! {

/// Vertical room added to the font's line height to get the bar's height.
pub const PROMPT_PAD: u32 = 28;

/// Distance of the text's baseline below the font's line height.
pub const BASELINE_PAD: u32 = 14;

/// Distance of the text's start from the left edge.
pub const TEXT_INSET: i32 = 4;

/// What the launcher shows: for now, the prompt.
#[derive(Debug)]
pub struct LauncherState {
    pub prompt: String,
}

impl Default for LauncherState {
    /// The state with an empty prompt.
    fn default() -> (s: Self)
        ensures
            s.prompt@ == Seq::<char>::empty(),
    {
        LauncherState { prompt: String::new() }
    }
}

impl LauncherState {
    /// Replaces the prompt by `text`.
    pub fn set_prompt(&mut self, text: &str)
        ensures
            final(self).prompt@ == text@,
    {
        self.prompt = String::from_str(text);
    }

    /// Puts `text` behind the prompt.
    pub fn append_prompt(&mut self, text: &str)
        ensures
            final(self).prompt@ == old(self).prompt@ + text@,
    {
        self.prompt.append(text);
    }
}

/// The configuration of a display, fixed when it is made.
#[derive(Debug)]
pub struct DisplaySettings {
    /// Family name of the font.
    pub font_name: String,
    /// Size at which text is drawn, in points.
    pub font_size: u32,
    /// Width of the surface, in pixels.
    pub full_width: i32,
    /// Height of the surface, in pixels.
    pub full_height: i32,
    /// Background of the surface.
    pub main_bg: Rgb,
    /// Background of the prompt bar.
    pub prompt_bg: Rgb,
    /// Colour of the prompt's text.
    pub prompt_fg: Rgb,
}

/// A vertical length or position.
#[derive(Debug, Clone, Copy, PartialEq, Eq, Structural)]
pub enum Extent {
    /// So many units, whatever the font.
    Fixed(u32),
    /// The font's line height and so many units more.
    PastLine(u32),
}

impl Extent {
    /// The length in units, for a font of the given line height.
    pub open spec fn resolve(self, line_height: int) -> int {
        match self {
            Extent::Fixed(units) => units as int,
            Extent::PastLine(units) => line_height + units,
        }
    }
}

/// One drawing command.
#[derive(Debug, Clone, PartialEq, Eq)]
pub enum DrawOp {
    /// Move the insertion point.
    MoveTo { x: i32, y: Extent },
    /// Paint with this colour from now on.
    SetSourceRgb(Rgb),
    /// Add a rectangle to the current path.
    Rectangle { x: i32, y: Extent, width: i32, height: Extent },
    /// Fill the current path.
    Fill,
    /// Select the font that was resolved when the display was made.
    SetFontFace,
    /// Draw text at this size from now on.
    SetFontSize(u32),
    /// Draw this text as one line at the insertion point.
    ShowText(String),
    /// Present what was drawn.
    Flush,
}

/// A drawing command as contracts see it: text is a sequence of characters.
pub enum DrawSpec {
    MoveTo { x: int, y: Extent },
    SetSourceRgb(Rgb),
    Rectangle { x: int, y: Extent, width: int, height: Extent },
    Fill,
    SetFontFace,
    SetFontSize(nat),
    ShowText(Seq<char>),
    Flush,
}

impl View for DrawOp {
    type V = DrawSpec;

    open spec fn view(&self) -> DrawSpec {
        match *self {
            DrawOp::MoveTo { x, y } => DrawSpec::MoveTo { x: x as int, y },
            DrawOp::SetSourceRgb(color) => DrawSpec::SetSourceRgb(color),
            DrawOp::Rectangle { x, y, width, height } => DrawSpec::Rectangle {
                x: x as int,
                y,
                width: width as int,
                height,
            },
            DrawOp::Fill => DrawSpec::Fill,
            DrawOp::SetFontFace => DrawSpec::SetFontFace,
            DrawOp::SetFontSize(size) => DrawSpec::SetFontSize(size as nat),
            DrawOp::ShowText(text) => DrawSpec::ShowText(text@),
            DrawOp::Flush => DrawSpec::Flush,
        }
    }
}

/// The commands of a plan, as contracts see them.
pub open spec fn draws(steps: Seq<PlanStep<DrawOp>>) -> Seq<DrawSpec> {
    Seq::new(steps.len(), |i: int| steps[i].action@)
}

/// The frame: the prompt bar is filled over the full width, from the top
/// down to the line height and [`PROMPT_PAD`] more; then the prompt is drawn
/// as one line, [`TEXT_INSET`] from the left, its baseline [`BASELINE_PAD`]
/// below the line height; then the surface is flushed.
pub open spec fn frame(settings: DisplaySettings, prompt: Seq<char>) -> Seq<DrawSpec> {
    seq![
        DrawSpec::MoveTo { x: 0, y: Extent::Fixed(0) },
        DrawSpec::SetSourceRgb(settings.prompt_bg),
        DrawSpec::Rectangle {
            x: 0,
            y: Extent::Fixed(0),
            width: settings.full_width as int,
            height: Extent::PastLine(PROMPT_PAD),
        },
        DrawSpec::Fill,
        DrawSpec::SetSourceRgb(settings.prompt_fg),
        DrawSpec::SetFontFace,
        DrawSpec::SetFontSize(settings.font_size as nat),
        DrawSpec::MoveTo { x: TEXT_INSET as int, y: Extent::PastLine(BASELINE_PAD) },
        DrawSpec::ShowText(prompt),
        DrawSpec::Flush,
    ]
}

/// The text that a frame shows: what its text commands draw, in order.
pub open spec fn shown_text(frame: Seq<DrawSpec>) -> Seq<char>
    decreases frame.len(),
{
    if frame.len() == 0 {
        Seq::empty()
    } else {
        let rest = shown_text(frame.drop_last());
        match frame.last() {
            DrawSpec::ShowText(text) => rest + text,
            _ => rest,
        }
    }
}

/// The rectangles that a frame fills, in order, each with the colour it is
/// filled with.
pub open spec fn filled(frame: Seq<DrawSpec>) -> Seq<(Rgb, DrawSpec)>
    decreases frame.len(),
{
    if frame.len() < 3 {
        Seq::empty()
    } else {
        let rest = filled(frame.drop_last());
        let n = frame.len() as int;
        match (frame[n - 3], frame[n - 2], frame[n - 1]) {
            (DrawSpec::SetSourceRgb(color), DrawSpec::Rectangle { .. }, DrawSpec::Fill) => rest.push(
                (color, frame[n - 2]),
            ),
            _ => rest,
        }
    }
}

/// The slant of a font face.
#[derive(Debug, Clone, Copy, PartialEq, Eq, Structural)]
pub enum FontSlant {
    Normal,
    Italic,
    Oblique,
}

/// The weight of a font face.
#[derive(Debug, Clone, Copy, PartialEq, Eq, Structural)]
pub enum FontWeight {
    Normal,
    Bold,
}

/// A font face to resolve.
#[derive(Debug)]
pub struct FontRequest {
    pub family: String,
    pub slant: FontSlant,
    pub weight: FontWeight,
}

/// One step of bringing up a display.
#[derive(Debug, Clone, Copy, PartialEq, Eq, Structural)]
pub enum InitStep {
    /// Create the surface, as wide and as high as the settings say.
    CreateSurface,
    /// Create the drawing context on that surface.
    CreateContext,
    /// Resolve the font face that [`DisplaySettings::font_request`] names.
    ResolveFont,
    /// Select the resolved face on the context.
    SelectFont,
    /// Read the selected face's line height, once, and keep it.
    MeasureFont,
}

/// The steps that bring up a display, in order, each of them required.
pub open spec fn init_steps() -> Seq<PlanStep<InitStep>> {
    seq![
        PlanStep { action: InitStep::CreateSurface, required: true },
        PlanStep { action: InitStep::CreateContext, required: true },
        PlanStep { action: InitStep::ResolveFont, required: true },
        PlanStep { action: InitStep::SelectFont, required: true },
        PlanStep { action: InitStep::MeasureFont, required: true },
    ]
}

/// What went wrong with a display.
#[derive(Debug, PartialEq, Eq)]
pub enum DisplayError {
    /// The drawing context could not be set up; `stage` is the step that failed.
    Init { stage: InitStep },
    /// No font face could be had for this family name.
    FontResolution { family: String },
    /// A drawing command failed; `step` is its index in the frame.
    Render { step: usize },
}

/// An error as contracts see it.
pub enum DisplayErrorSpec {
    Init { stage: InitStep },
    FontResolution { family: Seq<char> },
    Render { step: nat },
}

impl View for DisplayError {
    type V = DisplayErrorSpec;

    open spec fn view(&self) -> DisplayErrorSpec {
        match *self {
            DisplayError::Init { stage } => DisplayErrorSpec::Init { stage },
            DisplayError::FontResolution { family } => DisplayErrorSpec::FontResolution {
                family: family@,
            },
            DisplayError::Render { step } => DisplayErrorSpec::Render { step: step as nat },
        }
    }
}

/// The error that the failure of a step of the bring-up gives: a font that
/// cannot be resolved is reported with its family name, anything else with
/// the step.
pub open spec fn init_failure(family: Seq<char>, stage: InitStep) -> DisplayErrorSpec {
    if stage == InitStep::ResolveFont {
        DisplayErrorSpec::FontResolution { family }
    } else {
        DisplayErrorSpec::Init { stage }
    }
}

/// The diagnostic for an error. A font that could not be resolved is named.
pub open spec fn message_spec(error: DisplayErrorSpec) -> Seq<char> {
    match error {
        DisplayErrorSpec::Init { stage } => match stage {
            InitStep::CreateSurface => "failed to create cairo surface"@,
            InitStep::CreateContext => "failed to create cairo context"@,
            InitStep::ResolveFont => "failed to create font face"@,
            InitStep::SelectFont => "failed to select font face"@,
            InitStep::MeasureFont => "failed to measure font face"@,
        },
        DisplayErrorSpec::FontResolution { family } => "failed to create font face for '"@ + family
            + "'"@,
        DisplayErrorSpec::Render { step } => "failed to draw the prompt bar"@,
    }
}

impl DisplayError {
    /// The diagnostic for this error.
    pub fn message(&self) -> (text: String)
        ensures
            text@ == message_spec(self@),
    {
        match self {
            DisplayError::Init { stage } => match stage {
                InitStep::CreateSurface => String::from_str("failed to create cairo surface"),
                InitStep::CreateContext => String::from_str("failed to create cairo context"),
                InitStep::ResolveFont => String::from_str("failed to create font face"),
                InitStep::SelectFont => String::from_str("failed to select font face"),
                InitStep::MeasureFont => String::from_str("failed to measure font face"),
            },
            DisplayError::FontResolution { family } => {
                let mut text = String::from_str("failed to create font face for '");
                text.append(family.as_str());
                text.append("'");
                text
            },
            DisplayError::Render { step } => String::from_str("failed to draw the prompt bar"),
        }
    }
}

impl DisplaySettings {
    /// The font face to resolve: the configured family, upright, of normal
    /// weight.
    pub fn font_request(&self) -> (request: FontRequest)
        ensures
            request.family@ == self.font_name@,
            request.slant == FontSlant::Normal,
            request.weight == FontWeight::Normal,
    {
        FontRequest {
            family: self.font_name.clone(),
            slant: FontSlant::Normal,
            weight: FontWeight::Normal,
        }
    }
}

/// A display as contracts see it.
pub struct DisplayView {
    pub settings: DisplaySettings,
    pub state: LauncherState,
}

/// The renderer's side of a window: its settings and what it shows.
#[derive(Debug)]
pub struct Display {
    settings: DisplaySettings,
    state: LauncherState,
}

impl View for Display {
    type V = DisplayView;

    closed spec fn view(&self) -> DisplayView {
        DisplayView { settings: self.settings, state: self.state }
    }
}

impl Display {
    /// The frame that a redraw of this display draws.
    pub open spec fn frame(&self) -> Seq<DrawSpec> {
        frame(self@.settings, self@.state.prompt@)
    }

    /// The plan that brings up the drawing context of a display.
    pub fn init_plan() -> (plan: Plan<InitStep>)
        ensures
            plan.steps() == init_steps(),
            plan.position() == 0,
            !plan.halted(),
    {
        let mut steps: Vec<PlanStep<InitStep>> = Vec::new();
        steps.push(PlanStep { action: InitStep::CreateSurface, required: true });
        steps.push(PlanStep { action: InitStep::CreateContext, required: true });
        steps.push(PlanStep { action: InitStep::ResolveFont, required: true });
        steps.push(PlanStep { action: InitStep::SelectFont, required: true });
        steps.push(PlanStep { action: InitStep::MeasureFont, required: true });
        assert(steps@ =~= init_steps());
        Plan::new(steps)
    }

    /// How the bring-up ended: `None` while a step is pending, `Ok` once all
    /// are done, else the error of the step that failed.
    pub fn init_result(settings: &DisplaySettings, plan: &Plan<InitStep>) -> (result: Option<
        Result<(), DisplayError>,
    >)
        ensures
            plan.pending() <==> result.is_none(),
            !plan.pending() && !plan.halted() <==> result == Some(Ok::<(), DisplayError>(())),
            plan.halted() ==> result.is_some() && result.unwrap().is_err()
                && plan.position() < plan.steps().len()
                && result.unwrap().unwrap_err()@ == init_failure(
                settings.font_name@,
                plan.steps()[plan.position() as int].action,
            ),
    {
        match plan.failed() {
            Some(step) => {
                match step.action {
                    InitStep::ResolveFont => Some(
                        Err(DisplayError::FontResolution { family: settings.font_name.clone() }),
                    ),
                    stage => Some(Err(DisplayError::Init { stage })),
                }
            },
            None => {
                match plan.outcome() {
                    Outcome::Pending => None,
                    _ => Some(Ok(())),
                }
            },
        }
    }

    /// A display with these settings and an empty prompt.
    pub fn new(settings: DisplaySettings) -> (display: Display)
        ensures
            display@.settings == settings,
            display@.state.prompt@ == Seq::<char>::empty(),
    {
        Display { settings, state: LauncherState::default() }
    }

    /// The settings that the display was made with.
    pub fn settings(&self) -> (settings: &DisplaySettings)
        ensures
            *settings == self@.settings,
    {
        &self.settings
    }

    /// The commands that repaint the surface, each of them required: the
    /// first that fails ends the frame.
    pub fn redraw(&self) -> (plan: Plan<DrawOp>)
        ensures
            plan.position() == 0,
            !plan.halted(),
            all_required(plan.steps()),
            draws(plan.steps()) == self.frame(),
    {
        let settings = &self.settings;
        let mut steps: Vec<PlanStep<DrawOp>> = Vec::new();
        steps.push(PlanStep { action: DrawOp::MoveTo { x: 0, y: Extent::Fixed(0) }, required: true });
        steps.push(PlanStep { action: DrawOp::SetSourceRgb(settings.prompt_bg), required: true });
        steps.push(
            PlanStep {
                action: DrawOp::Rectangle {
                    x: 0,
                    y: Extent::Fixed(0),
                    width: settings.full_width,
                    height: Extent::PastLine(PROMPT_PAD),
                },
                required: true,
            },
        );
        steps.push(PlanStep { action: DrawOp::Fill, required: true });
        steps.push(PlanStep { action: DrawOp::SetSourceRgb(settings.prompt_fg), required: true });
        steps.push(PlanStep { action: DrawOp::SetFontFace, required: true });
        steps.push(PlanStep { action: DrawOp::SetFontSize(settings.font_size), required: true });
        steps.push(
            PlanStep {
                action: DrawOp::MoveTo { x: TEXT_INSET, y: Extent::PastLine(BASELINE_PAD) },
                required: true,
            },
        );
        steps.push(PlanStep { action: DrawOp::ShowText(self.state.prompt.clone()), required: true });
        steps.push(PlanStep { action: DrawOp::Flush, required: true });
        assert(draws(steps@) =~= self.frame());
        Plan::new(steps)
    }

    /// How a redraw ended: `None` while a command is pending, `Ok` once all
    /// are done, else the index of the command that failed.
    pub fn render_result(plan: &Plan<DrawOp>) -> (result: Option<Result<(), DisplayError>>)
        ensures
            plan.pending() <==> result.is_none(),
            !plan.pending() && !plan.halted() <==> result == Some(Ok::<(), DisplayError>(())),
            plan.halted() ==> result.is_some() && result.unwrap().is_err()
                && result.unwrap().unwrap_err()@ == (DisplayErrorSpec::Render {
                step: plan.position(),
            }),
    {
        match plan.outcome() {
            Outcome::Pending => None,
            Outcome::Completed => Some(Ok(())),
            Outcome::Aborted { at } => Some(Err(DisplayError::Render { step: at })),
        }
    }

    /// Hands the state to `predicate` and keeps what it gives back. The
    /// settings stay; nothing is drawn until the next redraw.
    pub fn update_state<F>(&mut self, predicate: F) where F: FnOnce(LauncherState) -> LauncherState
        requires
            predicate.requires((old(self)@.state,)),
        ensures
            predicate.ensures((old(self)@.state,), final(self)@.state),
            final(self)@.settings == old(self)@.settings,
    {
        let mut state = LauncherState::default();
        std::mem::swap(&mut self.state, &mut state);
        self.state = predicate(state);
    }
}

/// Redrawing is repeatable: displays with the same settings and the same
/// prompt draw the same frame, so two redraws with no update between them
/// hand out the same commands.
pub proof fn lemma_redraw_repeatable(a: Display, b: Display)
    requires
        a@.settings == b@.settings,
        a@.state.prompt@ == b@.state.prompt@,
    ensures
        a.frame() == b.frame(),
{
}

/// A frame shows the prompt, the whole prompt and nothing else.
pub proof fn lemma_frame_shows_prompt(settings: DisplaySettings, prompt: Seq<char>)
    ensures
        shown_text(frame(settings, prompt)) == prompt,
{
    let f = frame(settings, prompt);
    lemma_shown_text_prefix(f, 8);
    assert(f.drop_last().drop_last() =~= f.take(8));
    assert(shown_text(f.drop_last()) =~= prompt);
}

/// A prefix of a frame without a text command shows nothing.
proof fn lemma_shown_text_prefix(f: Seq<DrawSpec>, n: int)
    requires
        0 <= n <= f.len(),
        forall|i: int| 0 <= i < n ==> !(f[i] is ShowText),
    ensures
        shown_text(f.take(n)) == Seq::<char>::empty(),
    decreases n,
{
    if n > 0 {
        lemma_shown_text_prefix(f, n - 1);
        assert(f.take(n).drop_last() =~= f.take(n - 1));
    }
}

/// A frame fills one rectangle, the prompt bar: in the bar's colour, from
/// the top left corner over the full width, as high as the font's line and
/// [`PROMPT_PAD`] more. The size at which text is drawn has no part in it.
pub proof fn lemma_frame_fills_bar(settings: DisplaySettings, prompt: Seq<char>, line_height: int)
    ensures
        filled(frame(settings, prompt)) == seq![
            (
                settings.prompt_bg,
                DrawSpec::Rectangle {
                    x: 0,
                    y: Extent::Fixed(0),
                    width: settings.full_width as int,
                    height: Extent::PastLine(PROMPT_PAD),
                },
            ),
        ],
        Extent::PastLine(PROMPT_PAD).resolve(line_height) == line_height + 28,
{
    let f = frame(settings, prompt);
    assert(f.take(10) =~= f);
    assert(f.take(10).drop_last() =~= f.take(9));
    assert(f.take(9).drop_last() =~= f.take(8));
    assert(f.take(8).drop_last() =~= f.take(7));
    assert(f.take(7).drop_last() =~= f.take(6));
    assert(f.take(6).drop_last() =~= f.take(5));
    assert(f.take(5).drop_last() =~= f.take(4));
    assert(f.take(4).drop_last() =~= f.take(3));
    assert(f.take(3).drop_last() =~= f.take(2));
    reveal_with_fuel(filled, 11);
    assert(filled(f.take(3)) =~= Seq::empty());
    assert(filled(f.take(4)) =~= seq![(settings.prompt_bg, f[2])]);
    assert(filled(f.take(5)) == filled(f.take(4)));
    assert(filled(f.take(6)) == filled(f.take(4)));
    assert(filled(f.take(7)) == filled(f.take(4)));
    assert(filled(f.take(8)) == filled(f.take(4)));
    assert(filled(f.take(9)) == filled(f.take(4)));
}

/// Two displays that differ in nothing but the size at which text is drawn
/// fill the same bar.
pub proof fn lemma_bar_ignores_font_size(
    a: DisplaySettings,
    b: DisplaySettings,
    prompt_a: Seq<char>,
    prompt_b: Seq<char>,
)
    requires
        a.full_width == b.full_width,
        a.prompt_bg == b.prompt_bg,
    ensures
        filled(frame(a, prompt_a)) == filled(frame(b, prompt_b)),
{
    lemma_frame_fills_bar(a, prompt_a, 0);
    lemma_frame_fills_bar(b, prompt_b, 0);
}

/// Where a frame starts its text: [`TEXT_INSET`] from the left, with the
/// baseline [`BASELINE_PAD`] below the font's line height.
pub proof fn lemma_text_origin(settings: DisplaySettings, prompt: Seq<char>, line_height: int)
    ensures
        frame(settings, prompt)[7] == (DrawSpec::MoveTo { x: 4, y: Extent::PastLine(BASELINE_PAD) }),
        frame(settings, prompt)[8] == DrawSpec::ShowText(prompt),
        Extent::PastLine(BASELINE_PAD).resolve(line_height) == line_height + 14,
{
}

} // verus!
