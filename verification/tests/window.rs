use almost::display::{DrawOp, Extent};
use almost::window::{
    centered, CreateWindowRequest, DepthInfo, GrabKeyboardRequest, GrabMode, InputFocus,
    MapWindowRequest, PropMode, ScreenInfo, SetInputFocusRequest, VisualPosition, Window,
    WindowClass, EVENT_MASK, FONT_SIZE,
};

fn screen(depths: Vec<DepthInfo>) -> ScreenInfo {
    ScreenInfo {
        root: 0x1d4,
        root_visual: 0x21,
        white_pixel: 0xffffff,
        width_in_pixels: 1920,
        height_in_pixels: 1080,
        allowed_depths: depths,
    }
}

fn depths() -> Vec<DepthInfo> {
    vec![
        DepthInfo { depth: 1, visuals: vec![] },
        DepthInfo { depth: 24, visuals: vec![0x20, 0x21, 0x22, 0x21] },
        DepthInfo { depth: 32, visuals: vec![0x21, 0x60] },
    ]
}

#[test]
fn centered_halves_both_lengths() {
    assert_eq!(centered(1920, 600), 660);
    assert_eq!(centered(1080, 200), 440);
    assert_eq!(centered(600, 600), 0);
    assert_eq!(centered(0, 0), 0);
}

#[test]
fn centered_rounds_each_half_down() {
    assert_eq!(centered(1921, 601), 660);
    assert_eq!(centered(1921, 600), 660);
    assert_eq!(centered(1920, 601), 660);
    assert_eq!(centered(3, 1), 1);
}

#[test]
fn centered_goes_negative_when_the_window_is_larger() {
    assert_eq!(centered(100, 600), -250);
    assert_eq!(centered(0, 65535), -32767);
    assert_eq!(centered(65535, 0), 32767);
}

#[test]
fn create_request_is_centred_and_out_of_the_managers_hands() {
    let window = Window::new(screen(depths()), 0x2a00001, 600, 200);
    let expected = CreateWindowRequest {
        depth: 0,
        wid: 0x2a00001,
        parent: 0x1d4,
        x: 660,
        y: 440,
        width: 600,
        height: 200,
        border_width: 0,
        class: WindowClass::InputOutput,
        visual: 0x21,
        back_pixel: 0xffffff,
        override_redirect: true,
        event_mask: 0x8001,
    };
    assert_eq!(window.create_request(), expected);
}

#[test]
fn create_request_subscribes_to_exposure_and_key_presses() {
    let window = Window::new(screen(depths()), 1, 600, 200);
    let mask = window.create_request().event_mask;
    assert_eq!(mask, EVENT_MASK);
    assert_eq!(mask, xcb::x::EventMask::EXPOSURE.bits() | xcb::x::EventMask::KEY_PRESS.bits());
    assert_eq!(mask & (1 << 15), 1 << 15);
    assert_eq!(mask & 1, 1);
    assert_eq!(window.create_request().depth as u32, xcb::x::COPY_FROM_PARENT);
}

#[test]
fn root_visual_is_found_at_its_first_place() {
    let window = Window::new(screen(depths()), 1, 600, 200);
    assert_eq!(window.root_visualtype(), Some(VisualPosition { depth: 1, visual: 1 }));
    assert_eq!(screen(depths()).root_visualtype(), Some(VisualPosition { depth: 1, visual: 1 }));
}

#[test]
fn root_visual_in_the_first_depth() {
    let found = screen(vec![DepthInfo { depth: 24, visuals: vec![0x21] }]).root_visualtype();
    assert_eq!(found, Some(VisualPosition { depth: 0, visual: 0 }));
}

#[test]
fn root_visual_that_no_depth_offers_is_not_found() {
    let none = screen(vec![
        DepthInfo { depth: 24, visuals: vec![0x20, 0x22] },
        DepthInfo { depth: 32, visuals: vec![0x60] },
    ]);
    assert_eq!(none.root_visualtype(), None);
    assert_eq!(screen(Vec::new()).root_visualtype(), None);
    assert_eq!(Window::new(screen(Vec::new()), 1, 600, 200).root_visualtype(), None);
}

#[test]
fn intern_atom_request_asks_for_an_existing_atom() {
    let window = Window::new(screen(depths()), 9, 600, 200);
    let request = window.get_intern_atom(b"_NET_WM_WINDOW_TYPE");
    assert!(request.only_if_exists);
    assert_eq!(request.name, b"_NET_WM_WINDOW_TYPE".to_vec());
}

#[test]
fn replace_atom_request_replaces_a_list_of_atoms() {
    let window = Window::new(screen(depths()), 9, 600, 200);
    let request = window.replace_atom(77, b"_NET_WM_WINDOW_TYPE_DOCK");
    assert_eq!(request.mode, PropMode::Replace);
    assert_eq!(request.window, 9);
    assert_eq!(request.property, 77);
    assert_eq!(request.type_atom, 4);
    assert_eq!(request.data, b"_NET_WM_WINDOW_TYPE_DOCK".to_vec());
}

#[test]
fn map_focus_and_grab_requests_name_the_window() {
    let window = Window::new(screen(depths()), 9, 600, 200);
    assert_eq!(window.map_now(), MapWindowRequest { window: 9 });
    assert_eq!(
        window.set_focus(),
        SetInputFocusRequest { revert_to: InputFocus::PointerRoot, focus: 9, time: 0 }
    );
    assert_eq!(
        window.grab_keyboard(),
        GrabKeyboardRequest {
            owner_events: true,
            grab_window: 9,
            time: 0,
            pointer_mode: GrabMode::Async,
            keyboard_mode: GrabMode::Async,
        }
    );
}

#[test]
fn new_window_has_the_stock_display() {
    let window = Window::new(screen(depths()), 9, 600, 200);
    let settings = window.display().settings();
    assert_eq!(settings.font_name, "monospace");
    assert_eq!(settings.font_size, 24);
    assert_eq!(FONT_SIZE, 24);
    assert_eq!(settings.full_width, 600);
    assert_eq!(settings.full_height, 200);
    assert_eq!(settings.main_bg.components(), (0, 0, 0));
    assert_eq!(settings.prompt_bg.components(), (0x11, 0x11, 0x1b));
    assert_eq!(settings.prompt_fg.components(), (0xee, 0xee, 0xee));
}

#[test]
fn display_mut_reaches_the_windows_display() {
    let mut window = Window::new(screen(depths()), 9, 600, 200);
    window.display_mut().update_state(|mut state| {
        state.set_prompt("typed");
        state
    });
    let mut plan = window.display().redraw();
    let mut text = None;
    while let Some(step) = plan.current() {
        if let DrawOp::ShowText(shown) = &step.action {
            text = Some(shown.clone());
        }
        plan.report(true);
    }
    assert_eq!(text, Some("typed".to_owned()));
    assert_eq!(window.map_now(), MapWindowRequest { window: 9 });
    assert_eq!(Extent::PastLine(28), Extent::PastLine(28));
}
