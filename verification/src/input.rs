//! Input translator: platform events in, GUI-library raw input out.
//!
//! A pure mapping with no hidden state beyond the modifier register: pointer,
//! scroll (line deltas converted to points with a fixed line height), resize
//! and DPI changes (logical size = physical size / scale), filtered text,
//! a fixed key table, and the clipboard shortcuts.  On the way out, the GUI
//! library's cursor icon, copied text and URL requests become platform
//! commands.  Coordinates use the fixed-point units of [`crate::units`].

use crate::units::{
    logical_fixed, pointer_logical_fixed, spec_logical_fixed, spec_pointer_logical_fixed,
    LINE_HEIGHT_POINTS, POINTER_BOUND_FIXED,
};
use vstd::prelude::*;

verus! {

/// Keys understood by the GUI library.
#[derive(Clone, Copy, Debug, PartialEq, Eq, Structural)]
pub enum Key {
    Alt,
    Backspace,
    Control,
    Delete,
    Down,
    End,
    Enter,
    Escape,
    Home,
    Insert,
    Left,
    Logo,
    PageDown,
    PageUp,
    Right,
    Shift,
    Tab,
    Up,
}

/// Virtual key identities delivered by the platform.  Keys outside the fixed
/// translation table arrive as `Other` and are silently dropped.
#[derive(Clone, Copy, Debug, PartialEq, Eq, Structural)]
pub enum VirtualKeyCode {
    Escape,
    Insert,
    Home,
    Delete,
    End,
    PageDown,
    PageUp,
    Left,
    Up,
    Right,
    Down,
    Back,
    Return,
    Tab,
    LAlt,
    RAlt,
    LShift,
    RShift,
    LControl,
    RControl,
    LWin,
    RWin,
    Q,
    Copy,
    Cut,
    Paste,
    Other,
}

/// Modifier-key register, updated by modifier-change events.
#[derive(Clone, Copy, Debug, PartialEq, Eq, Structural)]
pub struct Modifiers {
    pub alt: bool,
    pub ctrl: bool,
    pub logo: bool,
    pub shift: bool,
}

impl Modifiers {
    /// No modifier held.
    pub fn empty() -> (r: Modifiers)
        ensures
            r == (Modifiers { alt: false, ctrl: false, logo: false, shift: false }),
    {
        Modifiers { alt: false, ctrl: false, logo: false, shift: false }
    }
}

/// Cursor icons the GUI library may request (a closed set).
#[derive(Clone, Copy, Debug, PartialEq, Eq, Structural)]
pub enum CursorIcon {
    Default,
    PointingHand,
    ResizeHorizontal,
    ResizeNeSw,
    ResizeNwSe,
    ResizeVertical,
    Text,
}

/// Cursor icons of the platform window system (a closed set, matched 1:1).
#[derive(Clone, Copy, Debug, PartialEq, Eq, Structural)]
pub enum PlatformCursorIcon {
    Default,
    Hand,
    EwResize,
    NeswResize,
    NwseResize,
    NsResize,
    Text,
}

/// An input event handed to the GUI library.
#[derive(Clone, Debug)]
pub enum Event {
    Copy,
    Cut,
    Key { key: Key, pressed: bool },
    Text(String),
}

/// Mathematical view of an [`Event`].
pub ghost enum EventView {
    Copy,
    Cut,
    Key { key: Key, pressed: bool },
    Text(Seq<char>),
}

impl View for Event {
    type V = EventView;

    open spec fn view(&self) -> EventView {
        match self {
            Event::Copy => EventView::Copy,
            Event::Cut => EventView::Cut,
            Event::Key { key, pressed } => EventView::Key { key: *key, pressed: *pressed },
            Event::Text(s) => EventView::Text(s@),
        }
    }
}

/// Platform window events consumed by the translator, with coordinates and
/// scale factors in fixed-point units.
#[derive(Clone, Copy, Debug, PartialEq, Eq)]
pub enum WindowEvent {
    CloseRequested,
    Destroyed,
    /// New physical size in pixels.
    Resized { width: u32, height: u32 },
    /// New scale factor (fixed-point) and physical size.
    ScaleFactorChanged { scale_fixed: u32, width: u32, height: u32 },
    /// Primary button pressed or released.
    MouseInput { pressed: bool },
    /// Pointer position in fixed-point physical pixels.
    CursorMoved { x_fixed: u64, y_fixed: u64 },
    CursorLeft,
    ReceivedCharacter(char),
    ModifiersChanged(Modifiers),
    KeyboardInput { key: Option<VirtualKeyCode>, pressed: bool },
    /// Scroll in fixed-point lines.
    MouseWheelLine { x_fixed: i64, y_fixed: i64 },
    /// Scroll in fixed-point points.
    MouseWheelPixel { x_fixed: i64, y_fixed: i64 },
    Other,
}

/// Bounds under which the translator's fixed-point arithmetic cannot
/// overflow, and scale factors divide safely.
pub open spec fn event_wf(e: WindowEvent) -> bool {
    match e {
        WindowEvent::ScaleFactorChanged { scale_fixed, .. } => 1 <= scale_fixed,
        WindowEvent::CursorMoved { x_fixed, y_fixed } => x_fixed <= POINTER_BOUND_FIXED
            && y_fixed <= POINTER_BOUND_FIXED,
        WindowEvent::MouseWheelLine { x_fixed, y_fixed } => -POINTER_BOUND_FIXED <= x_fixed
            <= POINTER_BOUND_FIXED && -POINTER_BOUND_FIXED <= y_fixed <= POINTER_BOUND_FIXED,
        _ => true,
    }
}

/// The accumulated raw input for the next frame.
pub struct RawInput {
    /// Is the primary button currently down?
    pub mouse_down: bool,
    /// Pointer position in fixed-point logical points.
    pub mouse_pos: Option<(u64, u64)>,
    /// Scroll accumulated since the last frame, fixed-point points.
    pub scroll_delta: (i64, i64),
    /// Screen size in fixed-point logical points.
    pub screen_width_fixed: u64,
    pub screen_height_fixed: u64,
    /// DPI scale factor, fixed-point.
    pub pixels_per_point: u32,
    /// Time since start, nanoseconds.
    pub time_nanos: u64,
    /// Wall-clock time of day, nanoseconds since midnight.
    pub seconds_since_midnight_nanos: Option<u64>,
    /// Discrete events received this frame, in order.
    pub events: Vec<Event>,
}

/// Mathematical view of [`RawInput`].
#[verifier::ext_equal]
pub ghost struct RawInputView {
    pub mouse_down: bool,
    pub mouse_pos: Option<(u64, u64)>,
    pub scroll_delta: (i64, i64),
    pub screen_width_fixed: u64,
    pub screen_height_fixed: u64,
    pub pixels_per_point: u32,
    pub time_nanos: u64,
    pub seconds_since_midnight_nanos: Option<u64>,
    pub events: Seq<EventView>,
}

impl View for RawInput {
    type V = RawInputView;

    open spec fn view(&self) -> RawInputView {
        RawInputView {
            mouse_down: self.mouse_down,
            mouse_pos: self.mouse_pos,
            scroll_delta: self.scroll_delta,
            screen_width_fixed: self.screen_width_fixed,
            screen_height_fixed: self.screen_height_fixed,
            pixels_per_point: self.pixels_per_point,
            time_nanos: self.time_nanos,
            seconds_since_midnight_nanos: self.seconds_since_midnight_nanos,
            events: self.events@.map_values(|e: Event| e@),
        }
    }
}

/// Characters the GUI library should see as text.  The platform delivers
/// special keys (backspace, delete, function keys) as control or private-use
/// characters: those are signaling artifacts, not user text, and are dropped.
pub open spec fn spec_printable(c: char) -> bool {
    let n = c as u32;
    let private_use = (0xe000 <= n <= 0xf8ff) || (0xf0000 <= n <= 0xffffd) || (0x100000 <= n
        <= 0x10fffd);
    let ascii_control = n < 0x20 || n == 0x7f;
    !private_use && !ascii_control
}

/// Whether a character counts as user text (see [`spec_printable`]).
pub fn printable_char(c: char) -> (r: bool)
    ensures
        r == spec_printable(c),
{
    let n = c as u32;
    let private_use = (0xe000 <= n && n <= 0xf8ff) || (0xf0000 <= n && n <= 0xffffd) || (0x100000
        <= n && n <= 0x10fffd);
    let ascii_control = n < 0x20 || n == 0x7f;
    !private_use && !ascii_control
}

/// The fixed key-translation table; keys outside it map to `None` and are
/// dropped.
pub open spec fn spec_translate_key(k: VirtualKeyCode) -> Option<Key> {
    match k {
        VirtualKeyCode::Escape => Some(Key::Escape),
        VirtualKeyCode::Insert => Some(Key::Insert),
        VirtualKeyCode::Home => Some(Key::Home),
        VirtualKeyCode::Delete => Some(Key::Delete),
        VirtualKeyCode::End => Some(Key::End),
        VirtualKeyCode::PageDown => Some(Key::PageDown),
        VirtualKeyCode::PageUp => Some(Key::PageUp),
        VirtualKeyCode::Left => Some(Key::Left),
        VirtualKeyCode::Up => Some(Key::Up),
        VirtualKeyCode::Right => Some(Key::Right),
        VirtualKeyCode::Down => Some(Key::Down),
        VirtualKeyCode::Back => Some(Key::Backspace),
        VirtualKeyCode::Return => Some(Key::Enter),
        VirtualKeyCode::Tab => Some(Key::Tab),
        VirtualKeyCode::LAlt => Some(Key::Alt),
        VirtualKeyCode::RAlt => Some(Key::Alt),
        VirtualKeyCode::LShift => Some(Key::Shift),
        VirtualKeyCode::RShift => Some(Key::Shift),
        VirtualKeyCode::LControl => Some(Key::Control),
        VirtualKeyCode::RControl => Some(Key::Control),
        VirtualKeyCode::LWin => Some(Key::Logo),
        VirtualKeyCode::RWin => Some(Key::Logo),
        _ => None,
    }
}

/// Translates a virtual key through the fixed table.
pub fn translate_virtual_key_code(key: VirtualKeyCode) -> (r: Option<Key>)
    ensures
        r == spec_translate_key(key),
{
    match key {
        VirtualKeyCode::Escape => Some(Key::Escape),
        VirtualKeyCode::Insert => Some(Key::Insert),
        VirtualKeyCode::Home => Some(Key::Home),
        VirtualKeyCode::Delete => Some(Key::Delete),
        VirtualKeyCode::End => Some(Key::End),
        VirtualKeyCode::PageDown => Some(Key::PageDown),
        VirtualKeyCode::PageUp => Some(Key::PageUp),
        VirtualKeyCode::Left => Some(Key::Left),
        VirtualKeyCode::Up => Some(Key::Up),
        VirtualKeyCode::Right => Some(Key::Right),
        VirtualKeyCode::Down => Some(Key::Down),
        VirtualKeyCode::Back => Some(Key::Backspace),
        VirtualKeyCode::Return => Some(Key::Enter),
        VirtualKeyCode::Tab => Some(Key::Tab),
        VirtualKeyCode::LAlt | VirtualKeyCode::RAlt => Some(Key::Alt),
        VirtualKeyCode::LShift | VirtualKeyCode::RShift => Some(Key::Shift),
        VirtualKeyCode::LControl | VirtualKeyCode::RControl => Some(Key::Control),
        VirtualKeyCode::LWin | VirtualKeyCode::RWin => Some(Key::Logo),
        _ => None,
    }
}

/// The 1:1 mapping from GUI cursor icons to platform cursor icons.
pub open spec fn spec_translate_cursor(c: CursorIcon) -> PlatformCursorIcon {
    match c {
        CursorIcon::Default => PlatformCursorIcon::Default,
        CursorIcon::PointingHand => PlatformCursorIcon::Hand,
        CursorIcon::ResizeHorizontal => PlatformCursorIcon::EwResize,
        CursorIcon::ResizeNeSw => PlatformCursorIcon::NeswResize,
        CursorIcon::ResizeNwSe => PlatformCursorIcon::NwseResize,
        CursorIcon::ResizeVertical => PlatformCursorIcon::NsResize,
        CursorIcon::Text => PlatformCursorIcon::Text,
    }
}

/// Maps a GUI cursor icon to the platform cursor icon (total, exhaustive).
pub fn translate_cursor(cursor_icon: CursorIcon) -> (r: PlatformCursorIcon)
    ensures
        r == spec_translate_cursor(cursor_icon),
{
    match cursor_icon {
        CursorIcon::Default => PlatformCursorIcon::Default,
        CursorIcon::PointingHand => PlatformCursorIcon::Hand,
        CursorIcon::ResizeHorizontal => PlatformCursorIcon::EwResize,
        CursorIcon::ResizeNeSw => PlatformCursorIcon::NeswResize,
        CursorIcon::ResizeNwSe => PlatformCursorIcon::NwseResize,
        CursorIcon::ResizeVertical => PlatformCursorIcon::NsResize,
        CursorIcon::Text => PlatformCursorIcon::Text,
    }
}

/// What the GUI library reported at the end of a frame.
pub struct Output {
    pub cursor_icon: CursorIcon,
    pub open_url: Option<String>,
    pub copied_text: String,
    pub needs_repaint: bool,
}

/// Platform actions to apply after a frame: open a URL, write the clipboard,
/// set the cursor icon.  Failures of the first two are logged and non-fatal.
pub struct OutputCommands {
    pub open_url: Option<String>,
    pub set_clipboard: Option<String>,
    pub cursor: PlatformCursorIcon,
}

/// Turns the GUI library's frame output into platform commands: the URL is
/// passed through, non-empty copied text goes to the clipboard, and the
/// cursor icon is translated through the closed 1:1 table.
pub fn handle_output(output: Output) -> (c: OutputCommands)
    ensures
        c.open_url == output.open_url,
        output.copied_text@.len() > 0 ==> c.set_clipboard == Some(output.copied_text),
        output.copied_text@.len() == 0 ==> c.set_clipboard is None,
        c.cursor == spec_translate_cursor(output.cursor_icon),
{
    let cursor = translate_cursor(output.cursor_icon);
    let set_clipboard = if output.copied_text.as_str().is_empty() {
        None
    } else {
        Some(output.copied_text)
    };
    OutputCommands { open_url: output.open_url, set_clipboard, cursor }
}

/// Raw input at startup: screen size computed from the window's physical
/// size and scale factor, everything else at its defaults.
pub fn make_raw_input(width: u32, height: u32, scale_fixed: u32) -> (r: RawInput)
    requires
        1 <= scale_fixed,
    ensures
        r@ == (RawInputView {
            mouse_down: false,
            mouse_pos: None::<(u64, u64)>,
            scroll_delta: (0i64, 0i64),
            screen_width_fixed: spec_logical_fixed(width, scale_fixed) as u64,
            screen_height_fixed: spec_logical_fixed(height, scale_fixed) as u64,
            pixels_per_point: scale_fixed,
            time_nanos: 0u64,
            seconds_since_midnight_nanos: None::<u64>,
            events: Seq::<EventView>::empty(),
        }),
{
    let r = RawInput {
        mouse_down: false,
        mouse_pos: None,
        scroll_delta: (0, 0),
        screen_width_fixed: logical_fixed(width, scale_fixed),
        screen_height_fixed: logical_fixed(height, scale_fixed),
        pixels_per_point: scale_fixed,
        time_nanos: 0,
        seconds_since_midnight_nanos: None,
        events: Vec::new(),
    };
    proof {
        assert(r@.events =~= Seq::<EventView>::empty());
    }
    r
}

impl RawInput {
    /// Drains the accumulator at frame start: returns the accumulated input
    /// and resets the per-frame fields (scroll delta and events); the
    /// persistent fields stay.
    pub fn take(&mut self) -> (r: RawInput)
        ensures
            r@ == old(self)@,
            final(self)@ == (RawInputView {
                scroll_delta: (0i64, 0i64),
                events: Seq::<EventView>::empty(),
                ..old(self)@
            }),
    {
        let mut events: Vec<Event> = Vec::new();
        core::mem::swap(&mut events, &mut self.events);
        let r = RawInput {
            mouse_down: self.mouse_down,
            mouse_pos: self.mouse_pos,
            scroll_delta: self.scroll_delta,
            screen_width_fixed: self.screen_width_fixed,
            screen_height_fixed: self.screen_height_fixed,
            pixels_per_point: self.pixels_per_point,
            time_nanos: self.time_nanos,
            seconds_since_midnight_nanos: self.seconds_since_midnight_nanos,
            events,
        };
        self.scroll_delta = (0, 0);
        proof {
            assert(final(self)@.events =~= Seq::<EventView>::empty());
        }
        r
    }
}

/// Whether the event forces the loop to exit: a close or destroy signal, or
/// the quit shortcut (logo + Q) under the current modifier register.
pub open spec fn spec_event_exit(e: WindowEvent, m: Modifiers) -> bool {
    match e {
        WindowEvent::CloseRequested => true,
        WindowEvent::Destroyed => true,
        WindowEvent::KeyboardInput { key, .. } => key == Some(VirtualKeyCode::Q) && m.logo,
        _ => false,
    }
}

/// The modifier register after the event.
pub open spec fn spec_modifiers_after(e: WindowEvent, m: Modifiers) -> Modifiers {
    match e {
        WindowEvent::ModifiersChanged(n) => n,
        _ => m,
    }
}

/// The events appended by a key event: the clipboard shortcuts and the
/// fixed-table keys; everything else appends nothing.
pub open spec fn spec_key_events(
    key: Option<VirtualKeyCode>,
    pressed: bool,
    clipboard: Option<Seq<char>>,
) -> Seq<EventView> {
    match key {
        None => Seq::<EventView>::empty(),
        Some(VirtualKeyCode::Paste) => match clipboard {
            Some(text) => seq![EventView::Text(text)],
            None => Seq::<EventView>::empty(),
        },
        Some(VirtualKeyCode::Copy) => seq![EventView::Copy],
        Some(VirtualKeyCode::Cut) => seq![EventView::Cut],
        Some(k) => match spec_translate_key(k) {
            Some(key) => seq![EventView::Key { key, pressed }],
            None => Seq::<EventView>::empty(),
        },
    }
}

/// The accumulated raw input after the event.
pub open spec fn spec_raw_after(
    e: WindowEvent,
    clipboard: Option<Seq<char>>,
    r: RawInputView,
) -> RawInputView {
    match e {
        WindowEvent::Resized { width, height } => RawInputView {
            screen_width_fixed: spec_logical_fixed(width, r.pixels_per_point) as u64,
            screen_height_fixed: spec_logical_fixed(height, r.pixels_per_point) as u64,
            ..r
        },
        WindowEvent::ScaleFactorChanged { scale_fixed, width, height } => RawInputView {
            pixels_per_point: scale_fixed,
            screen_width_fixed: spec_logical_fixed(width, scale_fixed) as u64,
            screen_height_fixed: spec_logical_fixed(height, scale_fixed) as u64,
            ..r
        },
        WindowEvent::MouseInput { pressed } => RawInputView { mouse_down: pressed, ..r },
        WindowEvent::CursorMoved { x_fixed, y_fixed } => RawInputView {
            mouse_pos: Some(
                (
                    spec_pointer_logical_fixed(x_fixed, r.pixels_per_point) as u64,
                    spec_pointer_logical_fixed(y_fixed, r.pixels_per_point) as u64,
                ),
            ),
            ..r
        },
        WindowEvent::CursorLeft => RawInputView { mouse_pos: None::<(u64, u64)>, ..r },
        WindowEvent::ReceivedCharacter(c) => if spec_printable(c) {
            RawInputView { events: r.events.push(EventView::Text(seq![c])), ..r }
        } else {
            r
        },
        WindowEvent::KeyboardInput { key, pressed } => RawInputView {
            events: r.events + spec_key_events(key, pressed, clipboard),
            ..r
        },
        WindowEvent::MouseWheelLine { x_fixed, y_fixed } => RawInputView {
            scroll_delta: ((x_fixed * LINE_HEIGHT_POINTS) as i64, (y_fixed
                * LINE_HEIGHT_POINTS) as i64),
            ..r
        },
        WindowEvent::MouseWheelPixel { x_fixed, y_fixed } => RawInputView {
            scroll_delta: (x_fixed, y_fixed),
            ..r
        },
        _ => r,
    }
}

/// The clipboard contents as a sequence of characters.
pub open spec fn spec_clipboard_view(c: Option<String>) -> Option<Seq<char>> {
    match c {
        Some(s) => Some(s@),
        None => None::<Seq<char>>,
    }
}

/// Applies one platform event to the raw-input accumulator and the modifier
/// register; returns whether the loop must exit.  `clipboard_contents` is
/// the clipboard text, if the event is a paste shortcut and a read
/// succeeded; a failed read is a no-op.
pub fn input_to_egui(
    event: WindowEvent,
    clipboard_contents: Option<String>,
    raw_input: &mut RawInput,
    modifier_state: &mut Modifiers,
) -> (exit: bool)
    requires
        event_wf(event),
        1 <= old(raw_input).pixels_per_point,
    ensures
        exit == spec_event_exit(event, *old(modifier_state)),
        *final(modifier_state) == spec_modifiers_after(event, *old(modifier_state)),
        final(raw_input)@ == spec_raw_after(
            event,
            spec_clipboard_view(clipboard_contents),
            old(raw_input)@,
        ),
{
    let ghost pre = raw_input@;
    let ghost clip = spec_clipboard_view(clipboard_contents);
    match event {
        WindowEvent::CloseRequested | WindowEvent::Destroyed => true,
        WindowEvent::Resized { width, height } => {
            let ppp = raw_input.pixels_per_point;
            raw_input.screen_width_fixed = logical_fixed(width, ppp);
            raw_input.screen_height_fixed = logical_fixed(height, ppp);
            proof {
                assert(raw_input@ =~= spec_raw_after(event, clip, pre));
            }
            false
        },
        WindowEvent::ScaleFactorChanged { scale_fixed, width, height } => {
            raw_input.pixels_per_point = scale_fixed;
            raw_input.screen_width_fixed = logical_fixed(width, scale_fixed);
            raw_input.screen_height_fixed = logical_fixed(height, scale_fixed);
            proof {
                assert(raw_input@ =~= spec_raw_after(event, clip, pre));
            }
            false
        },
        WindowEvent::MouseInput { pressed } => {
            raw_input.mouse_down = pressed;
            proof {
                assert(raw_input@ =~= spec_raw_after(event, clip, pre));
            }
            false
        },
        WindowEvent::CursorMoved { x_fixed, y_fixed } => {
            let ppp = raw_input.pixels_per_point;
            raw_input.mouse_pos = Some(
                (pointer_logical_fixed(x_fixed, ppp), pointer_logical_fixed(y_fixed, ppp)),
            );
            proof {
                assert(raw_input@ =~= spec_raw_after(event, clip, pre));
            }
            false
        },
        WindowEvent::CursorLeft => {
            raw_input.mouse_pos = None;
            proof {
                assert(raw_input@ =~= spec_raw_after(event, clip, pre));
            }
            false
        },
        WindowEvent::ReceivedCharacter(c) => {
            if printable_char(c) {
                raw_input.events.push(Event::Text(char_to_string(c)));
                proof {
                    assert(raw_input@.events =~= pre.events.push(EventView::Text(seq![c])));
                    assert(raw_input@ =~= spec_raw_after(event, clip, pre));
                }
            } else {
                proof {
                    assert(raw_input@ =~= spec_raw_after(event, clip, pre));
                }
            }
            false
        },
        WindowEvent::ModifiersChanged(m) => {
            *modifier_state = m;
            proof {
                assert(raw_input@ =~= spec_raw_after(event, clip, pre));
            }
            false
        },
        WindowEvent::KeyboardInput { key, pressed } => {
            let exit = match key {
                Some(k) => matches!(k, VirtualKeyCode::Q) && modifier_state.logo,
                None => false,
            };
            match key {
                None => {
                    proof {
                        assert(raw_input@.events =~= pre.events + spec_key_events(
                            key,
                            pressed,
                            clip,
                        ));
                    }
                },
                Some(VirtualKeyCode::Paste) => {
                    match clipboard_contents {
                        Some(text) => {
                            raw_input.events.push(Event::Text(text));
                        },
                        None => {
                        },
                    }
                    proof {
                        assert(raw_input@.events =~= pre.events + spec_key_events(
                            key,
                            pressed,
                            clip,
                        ));
                    }
                },
                Some(VirtualKeyCode::Copy) => {
                    raw_input.events.push(Event::Copy);
                    proof {
                        assert(raw_input@.events =~= pre.events + spec_key_events(
                            key,
                            pressed,
                            clip,
                        ));
                    }
                },
                Some(VirtualKeyCode::Cut) => {
                    raw_input.events.push(Event::Cut);
                    proof {
                        assert(raw_input@.events =~= pre.events + spec_key_events(
                            key,
                            pressed,
                            clip,
                        ));
                    }
                },
                Some(k) => {
                    match translate_virtual_key_code(k) {
                        Some(key_out) => {
                            raw_input.events.push(Event::Key { key: key_out, pressed });
                        },
                        None => {
                        },
                    }
                    proof {
                        assert(raw_input@.events =~= pre.events + spec_key_events(
                            key,
                            pressed,
                            clip,
                        ));
                    }
                },
            }
            proof {
                assert(raw_input@ =~= spec_raw_after(event, clip, pre));
            }
            exit
        },
        WindowEvent::MouseWheelLine { x_fixed, y_fixed } => {
            raw_input.scroll_delta = (x_fixed * 24, y_fixed * 24);
            proof {
                assert(LINE_HEIGHT_POINTS == 24);
                assert(raw_input@ =~= spec_raw_after(event, clip, pre));
            }
            false
        },
        WindowEvent::MouseWheelPixel { x_fixed, y_fixed } => {
            raw_input.scroll_delta = (x_fixed, y_fixed);
            proof {
                assert(raw_input@ =~= spec_raw_after(event, clip, pre));
            }
            false
        },
        WindowEvent::Other => {
            proof {
                assert(raw_input@ =~= spec_raw_after(event, clip, pre));
            }
            false
        },
    }
}

/// Relies on `char::to_string`: the returned string holds exactly the one
/// character it was called on.
#[verifier::external_body]
fn char_to_string(c: char) -> (r: String)
    ensures
        r@ == seq![c],
{
    c.to_string()
}

} // verus!
