use wlc::{
    BackendType, Button, ButtonState, EventFlags, Key, KeyState, Led, Modifier, Modifiers,
    ResizeEdge, ScrollAxis, TouchType, ViewPropertyUpdate, ViewState, LED_CAPS, LED_NUM,
    MOD_CTRL, MOD_SHIFT, RESIZE_EDGE_LEFT, RESIZE_EDGE_TOP, SCROLL_AXIS_VERTICAL,
    VIEW_PROPERTY_TITLE, VIEW_STATE_ACTIVATED, VIEW_STATE_MAXIMIZED,
};

#[test]
fn key_codes_follow_the_platform_vocabulary() {
    assert_eq!(Key::from_u32(1).unwrap().code(), 1);
    assert_eq!(Key::from_u32(0).unwrap().code(), 0);
    assert_eq!(Key::from_u32(248).unwrap().code(), 248);
    assert!(Key::from_u32(55).is_none());
    assert!(Key::from_u32(84).is_none());
    for code in 195..200 {
        assert!(Key::from_u32(code).is_none());
    }
    assert!(Key::from_u32(194).is_some());
    assert!(Key::from_u32(200).is_some());
    assert!(Key::from_u32(249).is_none());
}

#[test]
fn button_codes_follow_the_platform_vocabulary() {
    for code in 272..280 {
        assert_eq!(Button::from_u32(code).unwrap().code(), code);
    }
    assert!(Button::from_u32(271).is_none());
    assert!(Button::from_u32(280).is_none());
    assert!(Button::from_u32(0).is_none());
}

#[test]
fn state_enums_round_trip_their_backend_codes() {
    assert_eq!(KeyState::from_u32(0), Some(KeyState::Released));
    assert_eq!(KeyState::from_u32(1), Some(KeyState::Pressed));
    assert_eq!(KeyState::from_u32(2), None);
    assert_eq!(KeyState::Pressed.to_u32(), 1);

    assert_eq!(ButtonState::from_u32(0), Some(ButtonState::Released));
    assert_eq!(ButtonState::from_u32(1), Some(ButtonState::Pressed));
    assert_eq!(ButtonState::from_u32(5), None);
    assert_eq!(ButtonState::Released.to_u32(), 0);

    assert_eq!(TouchType::from_u32(0), Some(TouchType::Down));
    assert_eq!(TouchType::from_u32(1), Some(TouchType::Up));
    assert_eq!(TouchType::from_u32(2), Some(TouchType::Motion));
    assert_eq!(TouchType::from_u32(3), Some(TouchType::Frame));
    assert_eq!(TouchType::from_u32(4), Some(TouchType::Cancel));
    assert_eq!(TouchType::from_u32(5), None);
    assert_eq!(TouchType::Cancel.to_u32(), 4);

    assert_eq!(BackendType::from_u32(0), Some(BackendType::Null));
    assert_eq!(BackendType::from_u32(1), Some(BackendType::DRM));
    assert_eq!(BackendType::from_u32(2), Some(BackendType::X11));
    assert_eq!(BackendType::from_u32(3), None);
    assert_eq!(BackendType::X11.to_u32(), 2);
}

#[test]
fn flag_masks_drop_unknown_bits() {
    let state = ViewState::from_bits_truncate(0xffff_ffff);
    assert_eq!(state.bits(), 0x1f);
    assert!(state.contains(ViewState::from_bits_truncate(VIEW_STATE_MAXIMIZED)));

    let edges = ResizeEdge::from_bits_truncate(RESIZE_EDGE_TOP | RESIZE_EDGE_LEFT | 0x100);
    assert_eq!(edges.bits(), RESIZE_EDGE_TOP | RESIZE_EDGE_LEFT);

    let axis = ScrollAxis::from_bits_truncate(0xff);
    assert_eq!(axis.bits(), 0x3);
    assert!(axis.contains(ScrollAxis::from_bits_truncate(SCROLL_AXIS_VERTICAL)));

    let props = ViewPropertyUpdate::from_bits_truncate(VIEW_PROPERTY_TITLE | 0x80);
    assert_eq!(props.bits(), VIEW_PROPERTY_TITLE);

    let events = EventFlags::from_bits_truncate(0x15);
    assert_eq!(events.bits(), 0x5);
}

#[test]
fn flag_unions_and_empties() {
    let a = ViewState::from_bits_truncate(VIEW_STATE_MAXIMIZED);
    let b = ViewState::from_bits_truncate(VIEW_STATE_ACTIVATED);
    let both = a.union(b);
    assert!(both.contains(a));
    assert!(both.contains(b));
    assert_eq!(ViewState::empty().bits(), 0);
    assert!(both.contains(ViewState::empty()));
}

#[test]
fn modifiers_empty_has_no_bits() {
    let none = Modifiers::empty();
    assert_eq!(none.leds.bits(), 0);
    assert_eq!(none.mods.bits(), 0);
    assert_eq!(none, Modifiers { leds: Led::empty(), mods: Modifier::empty() });
}

#[test]
fn modifiers_wrap_raw_backend_bits() {
    let m = Modifiers::from_raw(LED_NUM | LED_CAPS | 0x40, MOD_SHIFT | MOD_CTRL | 0x4000);
    assert_eq!(m.leds.bits(), LED_NUM | LED_CAPS);
    assert_eq!(m.mods.bits(), MOD_SHIFT | MOD_CTRL);
    assert_eq!(m.raw(), (LED_NUM | LED_CAPS, MOD_SHIFT | MOD_CTRL));
}
