//! The launcher's course: what is done to bring the window up, how an event
//! is answered, and when the loop ends.
//!
//! The work itself (requests to the X server, drawing) is done by the
//! caller, step by step, from the plans that this module hands out.

use crate::display::{message_spec, DisplayError, DisplayErrorSpec, LauncherState};
use crate::plan::{Plan, PlanStep, Reaction};
use crate::window::Window;
use vstd::prelude::*;
use vstd::string::*;

verus! {

/// The X server's `xcb::Event`, carried through as it came.
#[verifier::external_type_specification]
#[verifier::external_body]
pub struct ExRawEvent(xcb::Event);

/// The keycode that ends the loop: the key labelled Q on a QWERTY keyboard.
pub const QUIT_KEYCODE: u8 = 0x18;

/// What the launcher tells apart in an event.
#[derive(Debug, Clone, Copy, PartialEq, Eq, Structural)]
pub enum WindowEvent {
    /// A part of the window has to be repainted.
    Expose,
    /// A key went down.
    KeyPress { keycode: u8 },
    /// Anything else.
    Other,
}

/// What an `xcb::Event` is taken for. It depends on the event alone: which
/// variant it is and, for a key press, the keycode it carries.
pub uninterp spec fn event_kind(raw: xcb::Event) -> WindowEvent;

/// Tells the variants of an `xcb::Event` apart: an `Expose` and a
/// `KeyPress` of the core protocol are recognised, the latter with the
/// keycode that its `detail()` gives; every other event is
/// [`WindowEvent::Other`]. The result is named [`event_kind`]; nothing more
/// is claimed of which variant a given raw event is.
#[verifier::external_body]
fn decode(raw: &xcb::Event) -> (event: WindowEvent)
    ensures
        event == event_kind(*raw),
{
    match raw {
        xcb::Event::X(xcb::x::Event::Expose(_)) => WindowEvent::Expose,
        xcb::Event::X(xcb::x::Event::KeyPress(press)) => WindowEvent::KeyPress {
            keycode: press.detail(),
        },
        _ => WindowEvent::Other,
    }
}

/// Whether the loop goes on.
#[derive(Debug, Clone, Copy, PartialEq, Eq, Structural)]
pub enum Status {
    KeepGoing,
    Quit,
}

/// What an event asks for.
#[derive(Debug, Clone, Copy, PartialEq, Eq, Structural)]
pub enum EventAction {
    /// Take the focus, repaint, flush.
    Refresh,
    /// End the loop.
    Quit,
    /// Nothing.
    Ignore,
}

/// What an event asks for: an exposure a refresh, the quit key the end of
/// the loop, anything else nothing.
pub open spec fn classify_spec(event: WindowEvent) -> EventAction {
    match event {
        WindowEvent::Expose => EventAction::Refresh,
        WindowEvent::KeyPress { keycode } => if keycode == QUIT_KEYCODE {
            EventAction::Quit
        } else {
            EventAction::Ignore
        },
        WindowEvent::Other => EventAction::Ignore,
    }
}

/// Classifies an event.
pub fn classify(event: WindowEvent) -> (action: EventAction)
    ensures
        action == classify_spec(event),
{
    match event {
        WindowEvent::Expose => EventAction::Refresh,
        WindowEvent::KeyPress { keycode } => {
            if keycode == QUIT_KEYCODE {
                EventAction::Quit
            } else {
                EventAction::Ignore
            }
        },
        WindowEvent::Other => EventAction::Ignore,
    }
}

/// A hint to the window manager, set as a property of the window.
#[derive(Debug, Clone, Copy, PartialEq, Eq, Structural)]
pub enum Hint {
    /// The window is a dock.
    WindowTypeDock,
    /// The window wants the user's attention.
    StateDemandsAttention,
}

impl Hint {
    /// The name of the property that carries the hint.
    pub fn property(&self) -> (name: &'static str)
        ensures
            name@ == match *self {
                Hint::WindowTypeDock => "_NET_WM_WINDOW_TYPE"@,
                Hint::StateDemandsAttention => "_NET_WM_STATE"@,
            },
    {
        match self {
            Hint::WindowTypeDock => "_NET_WM_WINDOW_TYPE",
            Hint::StateDemandsAttention => "_NET_WM_STATE",
        }
    }

    /// The value that the property is set to.
    pub fn value(&self) -> (name: &'static str)
        ensures
            name@ == match *self {
                Hint::WindowTypeDock => "_NET_WM_WINDOW_TYPE_DOCK"@,
                Hint::StateDemandsAttention => "_NET_WM_STATE_DEMANDS_ATTENTION"@,
            },
    {
        match self {
            Hint::WindowTypeDock => "_NET_WM_WINDOW_TYPE_DOCK",
            Hint::StateDemandsAttention => "_NET_WM_STATE_DEMANDS_ATTENTION",
        }
    }
}

/// One piece of work for whoever holds the connection and the surface.
#[derive(Debug, Clone, Copy, PartialEq, Eq, Structural)]
pub enum Step {
    /// Send the window's creation request and check the server's answer.
    CreateWindow,
    /// Find the root visual among the screen's depths.
    ResolveVisual,
    /// Bring up the display on the window.
    InitDisplay,
    /// Look up the hint's property and replace its value.
    SetHint(Hint),
    /// Ask for the window to be shown.
    MapWindow,
    /// Give the window the input focus.
    SetFocus,
    /// Repaint the surface.
    Redraw,
    /// Flush the connection.
    Flush,
}

/// A step whose failure ends the plan.
pub open spec fn required(action: Step) -> PlanStep<Step> {
    PlanStep { action, required: true }
}

/// A step whose failure is worth a warning and no more.
pub open spec fn optional(action: Step) -> PlanStep<Step> {
    PlanStep { action, required: false }
}

/// What brings the window up, in order. Only the two hints may fail without
/// ending the setup.
pub open spec fn setup_steps() -> Seq<PlanStep<Step>> {
    seq![
        required(Step::CreateWindow),
        required(Step::ResolveVisual),
        required(Step::InitDisplay),
        optional(Step::SetHint(Hint::WindowTypeDock)),
        optional(Step::SetHint(Hint::StateDemandsAttention)),
        required(Step::MapWindow),
        required(Step::Flush),
        required(Step::Redraw),
        required(Step::Flush),
    ]
}

/// What answers an exposure, in order. No failure here ends the loop.
pub open spec fn refresh_steps() -> Seq<PlanStep<Step>> {
    seq![optional(Step::SetFocus), optional(Step::Redraw), optional(Step::Flush)]
}

/// The status after an event: the quit key ends the loop, and an ended loop
/// stays ended.
pub open spec fn next_status(status: Status, event: WindowEvent) -> Status {
    if status == Status::Quit || classify_spec(event) == EventAction::Quit {
        Status::Quit
    } else {
        Status::KeepGoing
    }
}

/// The steps that answer an event: a refresh for an exposure while the loop
/// goes on, and nothing otherwise.
pub open spec fn reaction_steps(status: Status, event: WindowEvent) -> Seq<PlanStep<Step>> {
    if status == Status::KeepGoing && classify_spec(event) == EventAction::Refresh {
        refresh_steps()
    } else {
        Seq::empty()
    }
}

/// The prompt that the launcher starts with.
pub open spec fn greeting() -> Seq<char> {
    "hello, world!"@
}

/// Starts the launcher: sets the window's prompt to the greeting and hands
/// out the setup.
pub fn setup(window: &mut Window) -> (plan: Plan<Step>)
    ensures
        plan.steps() == setup_steps(),
        plan.position() == 0,
        !plan.halted(),
        final(window)@.window == old(window)@.window,
        final(window)@.parent_screen == old(window)@.parent_screen,
        final(window)@.width == old(window)@.width,
        final(window)@.height == old(window)@.height,
        final(window)@.display@.settings == old(window)@.display@.settings,
        final(window)@.display@.state.prompt@ == greeting(),
{
    let greet = |state: LauncherState| -> (greeted: LauncherState)
        ensures
            greeted.prompt@ == greeting(),
        {
            let mut state = state;
            state.set_prompt("hello, world!");
            state
        };
    window.display_mut().update_state(greet);
    let mut steps: Vec<PlanStep<Step>> = Vec::new();
    steps.push(PlanStep { action: Step::CreateWindow, required: true });
    steps.push(PlanStep { action: Step::ResolveVisual, required: true });
    steps.push(PlanStep { action: Step::InitDisplay, required: true });
    steps.push(PlanStep { action: Step::SetHint(Hint::WindowTypeDock), required: false });
    steps.push(PlanStep { action: Step::SetHint(Hint::StateDemandsAttention), required: false });
    steps.push(PlanStep { action: Step::MapWindow, required: true });
    steps.push(PlanStep { action: Step::Flush, required: true });
    steps.push(PlanStep { action: Step::Redraw, required: true });
    steps.push(PlanStep { action: Step::Flush, required: true });
    assert(steps@ =~= setup_steps());
    Plan::new(steps)
}

/// Answers an event: the status to go on with, and the steps to perform
/// before the next event is waited for.
pub fn on_event(status: Status, event: WindowEvent) -> (answer: (Status, Plan<Step>))
    ensures
        answer.0 == next_status(status, event),
        answer.1.steps() == reaction_steps(status, event),
        answer.1.position() == 0,
        !answer.1.halted(),
{
    let mut steps: Vec<PlanStep<Step>> = Vec::new();
    match status {
        Status::Quit => {
            assert(steps@ =~= reaction_steps(status, event));
            (Status::Quit, Plan::new(steps))
        },
        Status::KeepGoing => {
            match classify(event) {
                EventAction::Refresh => {
                    steps.push(PlanStep { action: Step::SetFocus, required: false });
                    steps.push(PlanStep { action: Step::Redraw, required: false });
                    steps.push(PlanStep { action: Step::Flush, required: false });
                    assert(steps@ =~= reaction_steps(status, event));
                    (Status::KeepGoing, Plan::new(steps))
                },
                EventAction::Quit => {
                    assert(steps@ =~= reaction_steps(status, event));
                    (Status::Quit, Plan::new(steps))
                },
                EventAction::Ignore => {
                    assert(steps@ =~= reaction_steps(status, event));
                    (Status::KeepGoing, Plan::new(steps))
                },
            }
        },
    }
}

/// Answers an event as the X server sent it: it is told apart, then
/// answered as [`on_event`] answers what it was taken for.
pub fn dispatch(status: Status, raw: &xcb::Event) -> (answer: (Status, Plan<Step>))
    ensures
        answer.0 == next_status(status, event_kind(*raw)),
        answer.1.steps() == reaction_steps(status, event_kind(*raw)),
        answer.1.position() == 0,
        !answer.1.halted(),
{
    let event = decode(raw);
    on_event(status, event)
}

/// Why a step failed, as far as whoever performed it can tell.
#[derive(Debug, PartialEq, Eq)]
pub enum Failure {
    /// The display gave this error.
    Display(DisplayError),
    /// Anything else: a refused request, a missing visual, a broken
    /// connection.
    Other,
}

/// A failure as contracts see it.
pub enum FailureSpec {
    Display(DisplayErrorSpec),
    Other,
}

impl View for Failure {
    type V = FailureSpec;

    open spec fn view(&self) -> FailureSpec {
        match *self {
            Failure::Display(error) => FailureSpec::Display(error@),
            Failure::Other => FailureSpec::Other,
        }
    }
}

/// Why the launcher gave up.
#[derive(Debug, PartialEq, Eq)]
pub enum LaunchError {
    /// The server refused to create the window.
    WindowCreation,
    /// No depth of the screen offers the root visual.
    VisualResolution,
    /// The display could not be brought up, or a frame could not be drawn:
    /// the display's own error, as it gave it.
    Display(DisplayError),
    /// A request could not be sent, or the connection could not be flushed.
    Transport,
}

/// A launch error as contracts see it.
pub enum LaunchErrorSpec {
    WindowCreation,
    VisualResolution,
    Display(DisplayErrorSpec),
    Transport,
}

impl View for LaunchError {
    type V = LaunchErrorSpec;

    open spec fn view(&self) -> LaunchErrorSpec {
        match *self {
            LaunchError::WindowCreation => LaunchErrorSpec::WindowCreation,
            LaunchError::VisualResolution => LaunchErrorSpec::VisualResolution,
            LaunchError::Display(error) => LaunchErrorSpec::Display(error@),
            LaunchError::Transport => LaunchErrorSpec::Transport,
        }
    }
}

/// The error that the failure of a required step gives. An error of the
/// display is passed on as it is; any other failure is named after the
/// step.
pub open spec fn launch_failure(action: Step, failure: FailureSpec) -> LaunchErrorSpec {
    match failure {
        FailureSpec::Display(error) => LaunchErrorSpec::Display(error),
        FailureSpec::Other => match action {
            Step::CreateWindow => LaunchErrorSpec::WindowCreation,
            Step::ResolveVisual => LaunchErrorSpec::VisualResolution,
            _ => LaunchErrorSpec::Transport,
        },
    }
}

/// The diagnostic for a launch error. An error of the display is named
/// with the display's own diagnostic behind it.
pub open spec fn launch_message(error: LaunchErrorSpec) -> Seq<char> {
    match error {
        LaunchErrorSpec::WindowCreation => "could not create window"@,
        LaunchErrorSpec::VisualResolution => "could not find visualtype"@,
        LaunchErrorSpec::Display(cause) => "could not draw to window: "@ + message_spec(cause),
        LaunchErrorSpec::Transport => "could not reach the X server"@,
    }
}

impl LaunchError {
    /// The diagnostic for this error.
    pub fn message(&self) -> (text: String)
        ensures
            text@ == launch_message(self@),
    {
        match self {
            LaunchError::WindowCreation => String::from_str("could not create window"),
            LaunchError::VisualResolution => String::from_str("could not find visualtype"),
            LaunchError::Display(cause) => {
                let mut text = String::from_str("could not draw to window: ");
                let detail = cause.message();
                text.append(detail.as_str());
                text
            },
            LaunchError::Transport => String::from_str("could not reach the X server"),
        }
    }
}

impl Step {
    /// The warning for a failure of this step that does not end its plan.
    pub fn warning(&self) -> (text: &'static str)
        ensures
            text@ == match *self {
                Step::SetFocus => "[warn] could not set focus to window"@,
                Step::SetHint(Hint::WindowTypeDock) => "[warn] could not mark window as dock"@,
                Step::SetHint(Hint::StateDemandsAttention) =>
                    "[warn] could not mark window as demanding attention"@,
                Step::Redraw => "[warn] could not redraw window"@,
                Step::Flush => "[warn] could not flush connection"@,
                _ => "[warn] step failed"@,
            },
    {
        match self {
            Step::SetFocus => "[warn] could not set focus to window",
            Step::SetHint(Hint::WindowTypeDock) => "[warn] could not mark window as dock",
            Step::SetHint(Hint::StateDemandsAttention) =>
                "[warn] could not mark window as demanding attention",
            Step::Redraw => "[warn] could not redraw window",
            Step::Flush => "[warn] could not flush connection",
            _ => "[warn] step failed",
        }
    }
}

/// Takes the result of the current step of a plan of the launcher. The
/// plan moves as [`Plan::report`] moves it. Where a required step failed the
/// launcher gives up, with the error that [`launch_failure`] names; in every
/// other case the plan's reaction is handed on.
pub fn report_step(plan: &mut Plan<Step>, result: Result<(), Failure>) -> (verdict: Result<
    Reaction,
    LaunchError,
>)
    ensures
        old(plan).reported(result.is_ok(), *final(plan)),
        old(plan).reaction_to(result.is_ok()) != Reaction::Aborted ==> verdict == Ok::<
            Reaction,
            LaunchError,
        >(old(plan).reaction_to(result.is_ok())),
        old(plan).reaction_to(result.is_ok()) == Reaction::Aborted ==> verdict.is_err()
            && verdict.unwrap_err()@ == launch_failure(
            old(plan).steps()[old(plan).position() as int].action,
            result.unwrap_err()@,
        ),
{
    let action = match plan.current() {
        Some(step) => Some(step.action),
        None => None,
    };
    let reaction = plan.report(result.is_ok());
    match (reaction, action, result) {
        (Reaction::Aborted, Some(action), Err(failure)) => {
            let error = match failure {
                Failure::Display(error) => LaunchError::Display(error),
                Failure::Other => match action {
                    Step::CreateWindow => LaunchError::WindowCreation,
                    Step::ResolveVisual => LaunchError::VisualResolution,
                    _ => LaunchError::Transport,
                },
            };
            Err(error)
        },
        _ => Ok(reaction),
    }
}

/// How often a step occurs in a list of steps.
pub open spec fn occurrences(steps: Seq<PlanStep<Step>>, action: Step) -> nat
    decreases steps.len(),
{
    if steps.len() == 0 {
        0
    } else {
        let before = occurrences(steps.drop_last(), action);
        if steps.last().action == action {
            before + 1
        } else {
            before
        }
    }
}

/// The status after a run of events, the loop having started.
pub open spec fn status_after(events: Seq<WindowEvent>) -> Status
    decreases events.len(),
{
    if events.len() == 0 {
        Status::KeepGoing
    } else {
        next_status(status_after(events.drop_last()), events.last())
    }
}

/// Whether an event is a press of the quit key.
pub open spec fn is_quit_key(event: WindowEvent) -> bool {
    event == (WindowEvent::KeyPress { keycode: QUIT_KEYCODE })
}

/// While the loop goes on, an exposure is answered by one attempt to take
/// the focus, one redraw and one flush, in this order, and the loop goes on.
pub proof fn lemma_expose_refreshes_once()
    ensures
        next_status(Status::KeepGoing, WindowEvent::Expose) == Status::KeepGoing,
        reaction_steps(Status::KeepGoing, WindowEvent::Expose) == refresh_steps(),
        occurrences(refresh_steps(), Step::SetFocus) == 1,
        occurrences(refresh_steps(), Step::Redraw) == 1,
        occurrences(refresh_steps(), Step::Flush) == 1,
{
    let steps = refresh_steps();
    reveal_with_fuel(occurrences, 4);
    assert(steps.drop_last() =~= seq![optional(Step::SetFocus), optional(Step::Redraw)]);
    assert(steps.drop_last().drop_last() =~= seq![optional(Step::SetFocus)]);
    assert(steps.drop_last().drop_last().drop_last() =~= Seq::<PlanStep<Step>>::empty());
}

/// The quit key ends the loop, whatever the status was, and asks for no
/// work.
pub proof fn lemma_quit_key_quits(status: Status)
    ensures
        next_status(status, WindowEvent::KeyPress { keycode: QUIT_KEYCODE }) == Status::Quit,
        reaction_steps(status, WindowEvent::KeyPress { keycode: QUIT_KEYCODE }).len() == 0,
{
}

/// Any event but an exposure and the quit key leaves the status as it was
/// and asks for no work.
pub proof fn lemma_other_events_ignored(status: Status, event: WindowEvent)
    requires
        event != WindowEvent::Expose,
        !is_quit_key(event),
    ensures
        next_status(status, event) == status,
        reaction_steps(status, event).len() == 0,
{
}

/// An ended loop stays ended and asks for no work, whatever event comes.
pub proof fn lemma_quit_is_final(event: WindowEvent)
    ensures
        next_status(Status::Quit, event) == Status::Quit,
        reaction_steps(Status::Quit, event).len() == 0,
{
}

/// After the quit key nothing is processed: the status is `Quit` from the
/// next event on, and no later event is answered with any work.
pub proof fn lemma_nothing_after_quit(events: Seq<WindowEvent>, i: int, j: int)
    requires
        0 <= i < j <= events.len(),
        is_quit_key(events[i]),
    ensures
        status_after(events.take(j)) == Status::Quit,
        j < events.len() ==> reaction_steps(status_after(events.take(j)), events[j]).len() == 0,
    decreases j,
{
    assert(events.take(j).drop_last() =~= events.take(j - 1));
    if i < j - 1 {
        lemma_nothing_after_quit(events, i, j - 1);
    }
}

/// Until the quit key comes the loop goes on, so that every exposure before
/// it is answered with a refresh, whatever came earlier.
pub proof fn lemma_running_until_quit(events: Seq<WindowEvent>, j: int)
    requires
        0 <= j <= events.len(),
        forall|i: int| 0 <= i < j ==> !is_quit_key(#[trigger] events[i]),
    ensures
        status_after(events.take(j)) == Status::KeepGoing,
        j < events.len() && events[j] == WindowEvent::Expose ==> reaction_steps(
            status_after(events.take(j)),
            events[j],
        ) == refresh_steps(),
    decreases j,
{
    if j > 0 {
        assert(events.take(j).drop_last() =~= events.take(j - 1));
        lemma_running_until_quit(events, j - 1);
        assert(!is_quit_key(events[j - 1]));
    }
}

} // verus!
