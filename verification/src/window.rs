//! The launcher's window: where it goes on the screen and what is asked of
//! the X server on its behalf.
//!
//! A [`Window`] is a description. It builds the requests; sending them and
//! waiting for the answers is left to whoever holds the connection.

use crate::color::Rgb;
use crate::display::{Display, DisplaySettings};
use vstd::prelude::*;
use vstd::slice::slice_to_vec;
use vstd::string::*;
use xcb::Xid;

verus! {

/// Point size of the prompt's text.
pub const FONT_SIZE: u32 = 24;

/// Background of the surface, packed.
pub const MAIN_BG: u32 = 0x000000;

/// Background of the prompt bar, packed.
pub const PROMPT_BG: u32 = 0x11111b;

/// Colour of the prompt's text, packed.
pub const PROMPT_FG: u32 = 0xeeeeee;

/// The visuals that a screen offers at one depth, by their ids.
#[derive(Debug)]
pub struct DepthInfo {
    pub depth: u8,
    pub visuals: Vec<u32>,
}

/// What the launcher reads of a screen.
#[derive(Debug)]
pub struct ScreenInfo {
    /// Id of the root window.
    pub root: u32,
    /// Id of the root window's visual.
    pub root_visual: u32,
    /// The pixel value of white.
    pub white_pixel: u32,
    pub width_in_pixels: u16,
    pub height_in_pixels: u16,
    /// The depths that the screen allows, in the server's order.
    pub allowed_depths: Vec<DepthInfo>,
}

/// Where a visual stands among a screen's depths.
#[derive(Debug, Clone, Copy, PartialEq, Eq, Structural)]
pub struct VisualPosition {
    /// Index into [`ScreenInfo::allowed_depths`].
    pub depth: usize,
    /// Index into that depth's visuals.
    pub visual: usize,
}

/// The class of a window.
#[derive(Debug, Clone, Copy, PartialEq, Eq, Structural)]
pub enum WindowClass {
    CopyFromParent,
    InputOutput,
    InputOnly,
}

/// A request to create a window.
#[derive(Debug, Clone, Copy, PartialEq, Eq, Structural)]
pub struct CreateWindowRequest {
    pub depth: u8,
    pub wid: u32,
    pub parent: u32,
    pub x: i16,
    pub y: i16,
    pub width: u16,
    pub height: u16,
    pub border_width: u16,
    pub class: WindowClass,
    pub visual: u32,
    /// The background pixel.
    pub back_pixel: u32,
    /// Whether the window manager is to leave the window alone.
    pub override_redirect: bool,
    /// The events that the window subscribes to, as the protocol's bit mask.
    pub event_mask: u32,
}

/// A request for the id of a named atom.
#[derive(Debug)]
pub struct InternAtomRequest {
    pub only_if_exists: bool,
    pub name: Vec<u8>,
}

/// How a property change treats the old value.
#[derive(Debug, Clone, Copy, PartialEq, Eq, Structural)]
pub enum PropMode {
    Replace,
    Prepend,
    Append,
}

/// A request to change a property of a window.
#[derive(Debug)]
pub struct ChangePropertyRequest {
    pub mode: PropMode,
    pub window: u32,
    /// Atom of the property.
    pub property: u32,
    /// Atom of the property's type.
    pub type_atom: u32,
    pub data: Vec<u8>,
}

/// A request to show a window.
#[derive(Debug, Clone, Copy, PartialEq, Eq, Structural)]
pub struct MapWindowRequest {
    pub window: u32,
}

/// Where the focus goes when the focused window disappears.
#[derive(Debug, Clone, Copy, PartialEq, Eq, Structural)]
pub enum InputFocus {
    NoFocus,
    PointerRoot,
    Parent,
    FollowKeyboard,
}

/// A request to give a window the input focus.
#[derive(Debug, Clone, Copy, PartialEq, Eq, Structural)]
pub struct SetInputFocusRequest {
    pub revert_to: InputFocus,
    pub focus: u32,
    pub time: u32,
}

/// Whether a grab freezes the device.
#[derive(Debug, Clone, Copy, PartialEq, Eq, Structural)]
pub enum GrabMode {
    Sync,
    Async,
}

/// A request to grab the keyboard.
#[derive(Debug, Clone, Copy, PartialEq, Eq, Structural)]
pub struct GrabKeyboardRequest {
    pub owner_events: bool,
    pub grab_window: u32,
    pub time: u32,
    pub pointer_mode: GrabMode,
    pub keyboard_mode: GrabMode,
}

/// The protocol's bit for exposure events, `xcb::x::EventMask::EXPOSURE`:
/// bit 15.
#[verifier::external_body]
fn exposure_mask() -> (bits: u32)
    ensures
        bits == 0x8000,
{
    xcb::x::EventMask::EXPOSURE.bits()
}

/// The protocol's bit for key presses, `xcb::x::EventMask::KEY_PRESS`: bit 0.
#[verifier::external_body]
fn key_press_mask() -> (bits: u32)
    ensures
        bits == 1,
{
    xcb::x::EventMask::KEY_PRESS.bits()
}

/// `xcb::x::COPY_FROM_PARENT`, the protocol's word for "as the parent has
/// it": zero.
#[verifier::external_body]
fn copy_from_parent() -> (value: u32)
    ensures
        value == 0,
{
    xcb::x::COPY_FROM_PARENT
}

/// The id of `xcb::x::ATOM_ATOM`, the predefined atom that names the type
/// of atoms: 4.
#[verifier::external_body]
fn atom_type() -> (id: u32)
    ensures
        id == 4,
{
    xcb::x::ATOM_ATOM.resource_id()
}

/// The coordinate that centres a length of `extent` on a screen of length
/// `screen`: the difference of the two halves, each rounded down.
pub open spec fn centered_spec(screen: u16, extent: u16) -> int {
    screen as int / 2 - extent as int / 2
}

/// Centres a length on a screen. What does not fit the screen starts left of
/// it, at a negative coordinate.
pub fn centered(screen: u16, extent: u16) -> (origin: i16)
    ensures
        origin == centered_spec(screen, extent),
{
    let half_screen: i32 = (screen / 2) as i32;
    let half_extent: i32 = (extent / 2) as i32;
    (half_screen - half_extent) as i16
}

/// Whether a depth offers the visual with this id.
pub open spec fn offers(depth: DepthInfo, id: u32) -> bool {
    depth.visuals@.contains(id)
}

impl ScreenInfo {
    /// Whether `position` is where the root visual stands first: no depth
    /// before it offers the visual, and no visual before it in its depth has
    /// the id.
    pub open spec fn is_root_visual(&self, position: VisualPosition) -> bool {
        let depths = self.allowed_depths@;
        &&& position.depth < depths.len()
        &&& position.visual < depths[position.depth as int].visuals@.len()
        &&& depths[position.depth as int].visuals@[position.visual as int] == self.root_visual
        &&& forall|i: int| 0 <= i < position.depth ==> !offers(#[trigger] depths[i], self.root_visual)
        &&& forall|j: int|
            0 <= j < position.visual ==> #[trigger] depths[position.depth as int].visuals@[j]
                != self.root_visual
    }

    /// Whether any depth offers the root visual.
    pub open spec fn has_root_visual(&self) -> bool {
        exists|i: int|
            0 <= i < self.allowed_depths@.len() && offers(
                #[trigger] self.allowed_depths@[i],
                self.root_visual,
            )
    }

    /// Finds the root visual among the allowed depths: the first depth that
    /// offers it, and its first place there.
    pub fn root_visualtype(&self) -> (found: Option<VisualPosition>)
        ensures
            found.is_some() <==> self.has_root_visual(),
            found.is_some() ==> self.is_root_visual(found.unwrap()),
    {
        let mut i: usize = 0;
        while i < self.allowed_depths.len()
            invariant
                i <= self.allowed_depths@.len(),
                forall|k: int| 0 <= k < i ==> !offers(#[trigger] self.allowed_depths@[k], self.root_visual),
            decreases self.allowed_depths@.len() - i,
        {
            let visuals = &self.allowed_depths[i].visuals;
            let mut j: usize = 0;
            while j < visuals.len()
                invariant
                    i < self.allowed_depths@.len(),
                    visuals == &self.allowed_depths@[i as int].visuals,
                    j <= visuals@.len(),
                    forall|k: int|
                        0 <= k < i ==> !offers(#[trigger] self.allowed_depths@[k], self.root_visual),
                    forall|k: int| 0 <= k < j ==> #[trigger] visuals@[k] != self.root_visual,
                decreases visuals@.len() - j,
            {
                if visuals[j] == self.root_visual {
                    let position = VisualPosition { depth: i, visual: j };
                    assert(offers(self.allowed_depths@[i as int], self.root_visual));
                    return Some(position);
                }
                j = j + 1;
            }
            i = i + 1;
        }
        None
    }
}

/// The events that the window subscribes to: exposure (bit 15) and key
/// presses (bit 0).
pub const EVENT_MASK: u32 = 0x8001;

/// Whether these are the launcher's settings for a surface of this size:
/// "monospace" at [`FONT_SIZE`] points, and the three stock colours.
pub open spec fn is_stock_settings(settings: DisplaySettings, width: u16, height: u16) -> bool {
    &&& settings.font_name@ == "monospace"@
    &&& settings.font_size == FONT_SIZE
    &&& settings.full_width == width
    &&& settings.full_height == height
    &&& settings.main_bg@ == crate::color::unpack(MAIN_BG)
    &&& settings.prompt_bg@ == crate::color::unpack(PROMPT_BG)
    &&& settings.prompt_fg@ == crate::color::unpack(PROMPT_FG)
}

/// A window as contracts see it.
pub struct WindowView {
    /// Id of the window.
    pub window: u32,
    /// The screen that the window is on.
    pub parent_screen: ScreenInfo,
    pub width: u16,
    pub height: u16,
    pub display: Display,
}

impl WindowView {
    /// The request that creates the window: centred on its screen, as deep
    /// as its parent, borderless, with the root's visual and a white
    /// background, out of the window manager's hands, subscribed to
    /// [`EVENT_MASK`].
    pub open spec fn create_request(self) -> CreateWindowRequest {
        CreateWindowRequest {
            depth: 0,
            wid: self.window,
            parent: self.parent_screen.root,
            x: centered_spec(self.parent_screen.width_in_pixels, self.width) as i16,
            y: centered_spec(self.parent_screen.height_in_pixels, self.height) as i16,
            width: self.width,
            height: self.height,
            border_width: 0,
            class: WindowClass::InputOutput,
            visual: self.parent_screen.root_visual,
            back_pixel: self.parent_screen.white_pixel,
            override_redirect: true,
            event_mask: EVENT_MASK,
        }
    }
}

/// The launcher's window on a screen, with the display that draws into it.
#[derive(Debug)]
pub struct Window {
    window: u32,
    parent_screen: ScreenInfo,
    width: u16,
    height: u16,
    display: Display,
}

impl View for Window {
    type V = WindowView;

    closed spec fn view(&self) -> WindowView {
        WindowView {
            window: self.window,
            parent_screen: self.parent_screen,
            width: self.width,
            height: self.height,
            display: self.display,
        }
    }
}

impl Window {
    /// The window with id `window` on `screen`, `width` by `height` pixels,
    /// with a display of the stock settings and an empty prompt.
    pub fn new(screen: ScreenInfo, window: u32, width: u16, height: u16) -> (w: Window)
        ensures
            w@.window == window,
            w@.parent_screen == screen,
            w@.width == width,
            w@.height == height,
            is_stock_settings(w@.display@.settings, width, height),
            w@.display@.state.prompt@ == Seq::<char>::empty(),
    {
        let settings = DisplaySettings {
            font_name: String::from_str("monospace"),
            font_size: FONT_SIZE,
            full_width: width as i32,
            full_height: height as i32,
            main_bg: Rgb::from_hex(MAIN_BG),
            prompt_bg: Rgb::from_hex(PROMPT_BG),
            prompt_fg: Rgb::from_hex(PROMPT_FG),
        };
        Window { window, parent_screen: screen, width, height, display: Display::new(settings) }
    }

    /// The request that creates the window.
    pub fn create_request(&self) -> (request: CreateWindowRequest)
        ensures
            request == self@.create_request(),
    {
        let mask: u32 = exposure_mask() | key_press_mask();
        assert(0x8000u32 | 1u32 == 0x8001u32) by (bit_vector);
        CreateWindowRequest {
            depth: copy_from_parent() as u8,
            wid: self.window,
            parent: self.parent_screen.root,
            x: centered(self.parent_screen.width_in_pixels, self.width),
            y: centered(self.parent_screen.height_in_pixels, self.height),
            width: self.width,
            height: self.height,
            border_width: 0,
            class: WindowClass::InputOutput,
            visual: self.parent_screen.root_visual,
            back_pixel: self.parent_screen.white_pixel,
            override_redirect: true,
            event_mask: mask,
        }
    }

    /// Where the root visual stands on the window's screen, if it is there.
    pub fn root_visualtype(&self) -> (found: Option<VisualPosition>)
        ensures
            found.is_some() <==> self@.parent_screen.has_root_visual(),
            found.is_some() ==> self@.parent_screen.is_root_visual(found.unwrap()),
    {
        self.parent_screen.root_visualtype()
    }

    /// The request for the atom called `name`. It asks for an atom that
    /// exists and creates none.
    pub fn get_intern_atom(&self, name: &[u8]) -> (request: InternAtomRequest)
        ensures
            request.only_if_exists,
            request.name@ == name@,
    {
        InternAtomRequest { only_if_exists: true, name: slice_to_vec(name) }
    }

    /// The request that replaces the window's property `atom` by `data`,
    /// typed as a list of atoms.
    pub fn replace_atom(&self, atom: u32, data: &[u8]) -> (request: ChangePropertyRequest)
        ensures
            request.mode == PropMode::Replace,
            request.window == self@.window,
            request.property == atom,
            request.type_atom == 4,
            request.data@ == data@,
    {
        ChangePropertyRequest {
            mode: PropMode::Replace,
            window: self.window,
            property: atom,
            type_atom: atom_type(),
            data: slice_to_vec(data),
        }
    }

    /// The request that shows the window.
    pub fn map_now(&self) -> (request: MapWindowRequest)
        ensures
            request == (MapWindowRequest { window: self@.window }),
    {
        MapWindowRequest { window: self.window }
    }

    /// The request that gives the window the input focus, to fall back to
    /// the pointer's root, at the server's current time.
    pub fn set_focus(&self) -> (request: SetInputFocusRequest)
        ensures
            request == (SetInputFocusRequest {
                revert_to: InputFocus::PointerRoot,
                focus: self@.window,
                time: 0,
            }),
    {
        SetInputFocusRequest { revert_to: InputFocus::PointerRoot, focus: self.window, time: 0 }
    }

    /// The request that grabs the keyboard for the window: events still go
    /// to their owners, neither device freezes, at the server's current time.
    pub fn grab_keyboard(&self) -> (request: GrabKeyboardRequest)
        ensures
            request == (GrabKeyboardRequest {
                owner_events: true,
                grab_window: self@.window,
                time: 0,
                pointer_mode: GrabMode::Async,
                keyboard_mode: GrabMode::Async,
            }),
    {
        GrabKeyboardRequest {
            owner_events: true,
            grab_window: self.window,
            time: 0,
            pointer_mode: GrabMode::Async,
            keyboard_mode: GrabMode::Async,
        }
    }

    /// The window's display.
    pub fn display(&self) -> (display: &Display)
        ensures
            *display == self@.display,
    {
        &self.display
    }

    /// The window's display, to update its state.
    pub fn display_mut(&mut self) -> (display: &mut Display)
        ensures
            *display == old(self)@.display,
            final(self)@ == (WindowView { display: *final(display), ..old(self)@ }),
    {
        &mut self.display
    }
}

/// A window of a positive size that fits its screen is centred on it: the
/// margins on either side differ by one pixel at most, and the window lies
/// within the screen.
pub proof fn lemma_centered_margins(screen: u16, extent: u16)
    requires
        extent <= screen,
    ensures
        0 <= centered_spec(screen, extent),
        centered_spec(screen, extent) + extent <= screen,
        -1 <= (screen - extent - centered_spec(screen, extent)) - centered_spec(screen, extent) <= 1,
{
}

/// The centring coordinate always fits the protocol's sixteen signed bits.
pub proof fn lemma_centered_fits(screen: u16, extent: u16)
    ensures
        -32767 <= centered_spec(screen, extent) <= 32767,
{
}

} // verus!
