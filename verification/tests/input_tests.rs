use egui_wgpu::input::{
    handle_output, input_to_egui, make_raw_input, printable_char, translate_cursor,
    translate_virtual_key_code, CursorIcon, Event, Key, Modifiers, Output, PlatformCursorIcon,
    VirtualKeyCode, WindowEvent,
};

const ONE: i64 = 4096; // one logical point / pixel / line in fixed-point units
const SCALE_2X: u32 = 8192;

fn fresh_input() -> (egui_wgpu::input::RawInput, Modifiers) {
    (make_raw_input(1600, 1200, SCALE_2X), Modifiers::empty())
}

#[test]
fn line_scroll_uses_the_line_height_constant() {
    let (mut raw, mut mods) = fresh_input();
    // A line delta of (0, 3) becomes a point delta of (0, 3 * 24).
    let exit = input_to_egui(
        WindowEvent::MouseWheelLine { x_fixed: 0, y_fixed: 3 * ONE },
        None,
        &mut raw,
        &mut mods,
    );
    assert!(!exit);
    assert_eq!(raw.scroll_delta, (0, 3 * 24 * ONE));
}

#[test]
fn pixel_scroll_passes_through() {
    let (mut raw, mut mods) = fresh_input();
    input_to_egui(
        WindowEvent::MouseWheelPixel { x_fixed: 5 * ONE, y_fixed: -2 * ONE },
        None,
        &mut raw,
        &mut mods,
    );
    assert_eq!(raw.scroll_delta, (5 * ONE, -2 * ONE));
}

#[test]
fn control_and_private_use_characters_produce_no_text() {
    let (mut raw, mut mods) = fresh_input();
    input_to_egui(WindowEvent::ReceivedCharacter('\u{7}'), None, &mut raw, &mut mods);
    input_to_egui(WindowEvent::ReceivedCharacter('\u{e000}'), None, &mut raw, &mut mods);
    input_to_egui(WindowEvent::ReceivedCharacter('\u{7f}'), None, &mut raw, &mut mods);
    assert_eq!(raw.events.len(), 0);
    assert!(!printable_char('\u{e000}'));
    assert!(!printable_char('\t'));
    assert!(printable_char('a'));
}

#[test]
fn printable_character_becomes_one_text_event() {
    let (mut raw, mut mods) = fresh_input();
    input_to_egui(WindowEvent::ReceivedCharacter('a'), None, &mut raw, &mut mods);
    assert_eq!(raw.events.len(), 1);
    match &raw.events[0] {
        Event::Text(s) => assert_eq!(s, "a"),
        other => panic!("expected a text event, got {:?}", other),
    }
}

#[test]
fn resize_recomputes_logical_screen_size() {
    let (mut raw, mut mods) = fresh_input();
    // Physical 1600 x 1200 at DPI scale 2.0 is logical 800 x 600.
    input_to_egui(WindowEvent::Resized { width: 1600, height: 1200 }, None, &mut raw, &mut mods);
    assert_eq!(raw.screen_width_fixed, 800 * ONE as u64);
    assert_eq!(raw.screen_height_fixed, 600 * ONE as u64);
}

#[test]
fn scale_factor_change_updates_scale_and_size() {
    let (mut raw, mut mods) = fresh_input();
    input_to_egui(
        WindowEvent::ScaleFactorChanged { scale_fixed: 4096, width: 1600, height: 1200 },
        None,
        &mut raw,
        &mut mods,
    );
    assert_eq!(raw.pixels_per_point, 4096);
    assert_eq!(raw.screen_width_fixed, 1600 * ONE as u64);
    assert_eq!(raw.screen_height_fixed, 1200 * ONE as u64);
}

#[test]
fn pointer_events_update_the_accumulator() {
    let (mut raw, mut mods) = fresh_input();
    input_to_egui(WindowEvent::MouseInput { pressed: true }, None, &mut raw, &mut mods);
    assert!(raw.mouse_down);
    input_to_egui(
        WindowEvent::CursorMoved { x_fixed: 100 * ONE as u64, y_fixed: 60 * ONE as u64 },
        None,
        &mut raw,
        &mut mods,
    );
    // Physical 100 x 60 pixels at scale 2.0 is logical 50 x 30 points.
    assert_eq!(raw.mouse_pos, Some((50 * ONE as u64, 30 * ONE as u64)));
    input_to_egui(WindowEvent::CursorLeft, None, &mut raw, &mut mods);
    assert_eq!(raw.mouse_pos, None);
    input_to_egui(WindowEvent::MouseInput { pressed: false }, None, &mut raw, &mut mods);
    assert!(!raw.mouse_down);
}

#[test]
fn key_table_maps_known_keys_and_drops_the_rest() {
    assert_eq!(translate_virtual_key_code(VirtualKeyCode::Back), Some(Key::Backspace));
    assert_eq!(translate_virtual_key_code(VirtualKeyCode::Return), Some(Key::Enter));
    assert_eq!(translate_virtual_key_code(VirtualKeyCode::Escape), Some(Key::Escape));
    assert_eq!(translate_virtual_key_code(VirtualKeyCode::LShift), Some(Key::Shift));
    assert_eq!(translate_virtual_key_code(VirtualKeyCode::RWin), Some(Key::Logo));
    assert_eq!(translate_virtual_key_code(VirtualKeyCode::Q), None);
    assert_eq!(translate_virtual_key_code(VirtualKeyCode::Other), None);
}

#[test]
fn key_press_becomes_a_key_event() {
    let (mut raw, mut mods) = fresh_input();
    input_to_egui(
        WindowEvent::KeyboardInput { key: Some(VirtualKeyCode::Left), pressed: true },
        None,
        &mut raw,
        &mut mods,
    );
    assert_eq!(raw.events.len(), 1);
    assert!(matches!(raw.events[0], Event::Key { key: Key::Left, pressed: true }));
    // An unmapped key is silently dropped.
    input_to_egui(
        WindowEvent::KeyboardInput { key: Some(VirtualKeyCode::Other), pressed: true },
        None,
        &mut raw,
        &mut mods,
    );
    assert_eq!(raw.events.len(), 1);
}

#[test]
fn copy_cut_paste_shortcuts() {
    let (mut raw, mut mods) = fresh_input();
    input_to_egui(
        WindowEvent::KeyboardInput { key: Some(VirtualKeyCode::Copy), pressed: true },
        None,
        &mut raw,
        &mut mods,
    );
    input_to_egui(
        WindowEvent::KeyboardInput { key: Some(VirtualKeyCode::Cut), pressed: true },
        None,
        &mut raw,
        &mut mods,
    );
    input_to_egui(
        WindowEvent::KeyboardInput { key: Some(VirtualKeyCode::Paste), pressed: true },
        Some(String::from("pasted")),
        &mut raw,
        &mut mods,
    );
    // A paste with no readable clipboard is a no-op, not an error.
    input_to_egui(
        WindowEvent::KeyboardInput { key: Some(VirtualKeyCode::Paste), pressed: true },
        None,
        &mut raw,
        &mut mods,
    );
    assert_eq!(raw.events.len(), 3);
    assert!(matches!(raw.events[0], Event::Copy));
    assert!(matches!(raw.events[1], Event::Cut));
    match &raw.events[2] {
        Event::Text(s) => assert_eq!(s, "pasted"),
        other => panic!("expected pasted text, got {:?}", other),
    }
}

#[test]
fn close_and_quit_shortcut_exit() {
    let (mut raw, mut mods) = fresh_input();
    assert!(input_to_egui(WindowEvent::CloseRequested, None, &mut raw, &mut mods));
    assert!(input_to_egui(WindowEvent::Destroyed, None, &mut raw, &mut mods));
    // Q without logo does not exit.
    assert!(!input_to_egui(
        WindowEvent::KeyboardInput { key: Some(VirtualKeyCode::Q), pressed: true },
        None,
        &mut raw,
        &mut mods,
    ));
    // Logo + Q exits.
    input_to_egui(
        WindowEvent::ModifiersChanged(Modifiers { alt: false, ctrl: false, logo: true, shift: false }),
        None,
        &mut raw,
        &mut mods,
    );
    assert!(input_to_egui(
        WindowEvent::KeyboardInput { key: Some(VirtualKeyCode::Q), pressed: true },
        None,
        &mut raw,
        &mut mods,
    ));
}

#[test]
fn take_drains_the_per_frame_fields() {
    let (mut raw, mut mods) = fresh_input();
    input_to_egui(WindowEvent::ReceivedCharacter('x'), None, &mut raw, &mut mods);
    input_to_egui(
        WindowEvent::MouseWheelLine { x_fixed: 0, y_fixed: ONE },
        None,
        &mut raw,
        &mut mods,
    );
    input_to_egui(WindowEvent::MouseInput { pressed: true }, None, &mut raw, &mut mods);
    let taken = raw.take();
    assert_eq!(taken.events.len(), 1);
    assert_eq!(taken.scroll_delta, (0, 24 * ONE));
    assert!(taken.mouse_down);
    // The accumulator keeps persistent state but resets deltas and events.
    assert_eq!(raw.events.len(), 0);
    assert_eq!(raw.scroll_delta, (0, 0));
    assert!(raw.mouse_down);
    assert_eq!(raw.pixels_per_point, SCALE_2X);
}

#[test]
fn cursor_icons_map_one_to_one() {
    assert_eq!(translate_cursor(CursorIcon::Default), PlatformCursorIcon::Default);
    assert_eq!(translate_cursor(CursorIcon::PointingHand), PlatformCursorIcon::Hand);
    assert_eq!(translate_cursor(CursorIcon::ResizeHorizontal), PlatformCursorIcon::EwResize);
    assert_eq!(translate_cursor(CursorIcon::ResizeNeSw), PlatformCursorIcon::NeswResize);
    assert_eq!(translate_cursor(CursorIcon::ResizeNwSe), PlatformCursorIcon::NwseResize);
    assert_eq!(translate_cursor(CursorIcon::ResizeVertical), PlatformCursorIcon::NsResize);
    assert_eq!(translate_cursor(CursorIcon::Text), PlatformCursorIcon::Text);
}

#[test]
fn output_commands_follow_the_frame_output() {
    let c = handle_output(Output {
        cursor_icon: CursorIcon::Text,
        open_url: Some(String::from("https://example.invalid")),
        copied_text: String::from("copied"),
        needs_repaint: false,
    });
    assert_eq!(c.open_url.as_deref(), Some("https://example.invalid"));
    assert_eq!(c.set_clipboard.as_deref(), Some("copied"));
    assert_eq!(c.cursor, PlatformCursorIcon::Text);
    // Empty copied text writes nothing to the clipboard.
    let c2 = handle_output(Output {
        cursor_icon: CursorIcon::Default,
        open_url: None,
        copied_text: String::new(),
        needs_repaint: true,
    });
    assert_eq!(c2.open_url, None);
    assert_eq!(c2.set_clipboard, None);
    assert_eq!(c2.cursor, PlatformCursorIcon::Default);
}
