use rd_agent::double::Double;
use rd_agent::input::{
    code_to_key, code_to_macos_keycode, inject, inject_key, map_button, map_coord,
    pixels_to_clicks, Axis, Button, Direction, Injection, InputEvent, InputInjector, Key, KeyInjection,
    MouseButton, PressedState, Scroll,
};
use rd_agent::permission::{check_input_permission, check_screen_recording_permission};
use rd_agent::platform::Platform;
use std::collections::HashSet;

fn d(x: f64) -> Double {
    Double { bits: x.to_bits() }
}

#[test]
fn map_coord_scales_and_clamps() {
    assert_eq!(map_coord(d(0.0), d(0.0), 1920, 1080), (0, 0));
    assert_eq!(map_coord(d(1.0), d(1.0), 1920, 1080), (1919, 1079)); // clamp to w-1/h-1
    assert_eq!(map_coord(d(0.5), d(0.5), 1920, 1080), (960, 540));
    assert_eq!(map_coord(d(1.5), d(-0.2), 1920, 1080), (1919, 0)); // out-of-range clamped
}

#[test]
fn a_larger_share_never_gives_a_smaller_pixel() {
    let shares = [
        f64::NEG_INFINITY, -1.0, -0.0, 0.0, 5e-324, 1e-300, 0.1, 0.25, 0.3, 0.4999999999999999, 0.5,
        0.5000000000000001, 0.75, 0.9999999999999999, 1.0, 1.5, f64::INFINITY,
    ];
    for side in [1, 2, 3, 1080, 1920, i32::MAX] {
        let mut last = 0;
        for share in shares {
            let pixel = map_coord(d(share), d(share), side, side).0;
            assert!(last <= pixel && pixel < side, "{share} of {side}");
            last = pixel;
        }
        assert_eq!(map_coord(d(f64::NAN), d(f64::NAN), side, side), (0, 0));
    }
}

#[test]
fn pixels_to_clicks_signs_and_minimum() {
    assert_eq!(pixels_to_clicks(d(0.0)), 0);
    assert_eq!(pixels_to_clicks(d(100.0)), 1);
    assert_eq!(pixels_to_clicks(d(-100.0)), -1);
    assert_eq!(pixels_to_clicks(d(30.0)), 1); // small non-zero rounds to +-1, never 0
    assert_eq!(pixels_to_clicks(d(-30.0)), -1);
    assert_eq!(pixels_to_clicks(d(250.0)), 3); // round(2.5)
}

fn float_side(x: f64, side: i32) -> i32 {
    let scaled = (x.clamp(0.0, 1.0) * side as f64).round() as i32;
    scaled.clamp(0, (side - 1).max(0))
}

fn float_clicks(delta: f64) -> i32 {
    if delta == 0.0 {
        return 0;
    }
    let clicks = (delta / 100.0).round() as i32;
    if clicks != 0 {
        clicks
    } else if delta > 0.0 {
        1
    } else {
        -1
    }
}

#[test]
fn positions_agree_with_the_hardware_arithmetic() {
    let mut xs = vec![
        0.1, 0.2, 0.3, 0.7, 0.9, 0.999999, 1e-3, 1e-9, 1e-30, 1e-300, 5e-324, -0.0, -1.0, 2.0,
        f64::INFINITY, f64::NEG_INFINITY, f64::NAN, f64::MIN_POSITIVE, 1.0 - f64::EPSILON,
    ];
    for n in 1..200 {
        xs.push(n as f64 / 7.0 / 29.0);
        xs.push((n as f64 + 0.5) / 1920.0);
    }
    for x in xs {
        for side in [1, 2, 3, 720, 1079, 1080, 1512, 1920, i32::MAX, 0, -5] {
            assert_eq!(map_coord(d(x), d(x), side, side).0, float_side(x, side), "{x} {side}");
        }
    }
}

#[test]
fn clicks_agree_with_the_hardware_arithmetic() {
    let mut deltas = vec![
        0.5, 1.0, 49.0, 49.99999999999999, 50.0, 50.00000000000001, 149.99999999999997, 150.0,
        1e10, 2e11, 2.1474836479e11, 5e11, 1e300, f64::INFINITY, f64::NAN, f64::MIN_POSITIVE, 5e-324,
        -0.0, 99.0, 250.0, 350.0,
    ];
    for n in 1..300 {
        deltas.push(n as f64 * 33.3);
        deltas.push(n as f64 * 50.0);
    }
    for delta in deltas {
        assert_eq!(pixels_to_clicks(d(delta)), float_clicks(delta), "{delta}");
        assert_eq!(pixels_to_clicks(d(-delta)), float_clicks(-delta), "-{delta}");
    }
}

#[test]
fn opposite_movements_make_opposite_clicks() {
    for delta in [0.0, 1.0, 30.0, 100.0, 149.0, 150.0, 250.0, 12345.0, 214748364600.0] {
        assert_eq!(pixels_to_clicks(d(-delta)), -pixels_to_clicks(d(delta)), "{delta}");
    }
    // the two ends of the range are not opposite
    assert_eq!(pixels_to_clicks(d(1e300)), i32::MAX);
    assert_eq!(pixels_to_clicks(d(-1e300)), i32::MIN);
}

#[test]
fn map_button_covers_all() {
    assert!(matches!(map_button(&MouseButton::Left), Button::Left));
    assert!(matches!(map_button(&MouseButton::Right), Button::Right));
    assert!(matches!(map_button(&MouseButton::Middle), Button::Middle));
}

#[test]
fn code_to_key_letters_digits_symbols() {
    assert!(matches!(code_to_key(Platform::Other, "KeyA"), Some(Key::Unicode('a'))));
    assert!(matches!(code_to_key(Platform::Other, "KeyZ"), Some(Key::Unicode('z'))));
    assert!(matches!(code_to_key(Platform::Other, "Digit7"), Some(Key::Unicode('7'))));
    assert!(matches!(code_to_key(Platform::Other, "Numpad3"), Some(Key::Unicode('3'))));
    assert!(matches!(code_to_key(Platform::Other, "Minus"), Some(Key::Unicode('-'))));
    assert!(matches!(code_to_key(Platform::Other, "Slash"), Some(Key::Unicode('/'))));
}

#[test]
fn code_to_key_named_keys() {
    assert!(matches!(code_to_key(Platform::Other, "Enter"), Some(Key::Return)));
    assert!(matches!(code_to_key(Platform::Other, "Escape"), Some(Key::Escape)));
    assert!(matches!(code_to_key(Platform::Other, "Space"), Some(Key::Space)));
    assert!(matches!(code_to_key(Platform::Other, "ArrowUp"), Some(Key::UpArrow)));
    assert!(matches!(code_to_key(Platform::Other, "ArrowRight"), Some(Key::RightArrow)));
    assert!(matches!(code_to_key(Platform::Other, "F5"), Some(Key::F5)));
    assert!(matches!(code_to_key(Platform::Other, "F12"), Some(Key::F12)));
    assert!(matches!(code_to_key(Platform::Other, "ShiftLeft"), Some(Key::Shift)));
    assert!(matches!(code_to_key(Platform::Other, "ControlRight"), Some(Key::Control)));
    assert!(matches!(code_to_key(Platform::Other, "MetaLeft"), Some(Key::Meta)));
}

#[test]
fn code_to_key_unknown_is_none() {
    assert!(code_to_key(Platform::Other, "MediaPlayPause").is_none());
    assert!(code_to_key(Platform::Other, "Fn").is_none());
    assert!(code_to_key(Platform::Other, "").is_none());
}

#[test]
fn code_to_key_edges() {
    assert_eq!(code_to_key(Platform::Other, "Keyq"), Some(Key::Unicode('q')));
    assert_eq!(code_to_key(Platform::Other, "Key1"), None);
    assert_eq!(code_to_key(Platform::Other, "KeyAB"), None);
    assert_eq!(code_to_key(Platform::Other, "Key"), None);
    assert_eq!(code_to_key(Platform::Other, "DigitA"), None);
    assert_eq!(code_to_key(Platform::Other, "Digit12"), None);
    assert_eq!(code_to_key(Platform::Other, "NumpadEnter"), None);
    assert_eq!(code_to_key(Platform::Other, "F"), None);
    assert_eq!(code_to_key(Platform::Other, "F0"), None);
    assert_eq!(code_to_key(Platform::Other, "F13"), None);
    assert_eq!(code_to_key(Platform::Other, "F256"), None);
    assert_eq!(code_to_key(Platform::Other, "F1 "), None);
    assert_eq!(code_to_key(Platform::Other, "F+7"), Some(Key::F7));
    assert_eq!(code_to_key(Platform::Other, "F0000000009"), Some(Key::F9));
    assert_eq!(code_to_key(Platform::Other, "F+"), None);
    assert_eq!(code_to_key(Platform::Other, "F-1"), None);
    assert_eq!(code_to_key(Platform::Other, "Insert"), Some(Key::Insert));
    assert_eq!(code_to_key(Platform::Windows, "Insert"), Some(Key::Insert));
    assert_eq!(code_to_key(Platform::MacOs, "Insert"), None);
    assert_eq!(code_to_key(Platform::MacOs, "Home"), Some(Key::Home));
    assert_eq!(code_to_key(Platform::Other, "Quote"), Some(Key::Unicode('\'')));
    assert_eq!(code_to_key(Platform::Other, "Backslash"), Some(Key::Unicode('\\')));
    assert_eq!(code_to_key(Platform::Other, "Key\u{e9}"), None);
}

#[test]
fn code_to_macos_keycode_maps_physical_positions() {
    assert_eq!(code_to_macos_keycode("KeyA"), Some(0x00));
    assert_eq!(code_to_macos_keycode("KeyH"), Some(0x04));
    assert_eq!(code_to_macos_keycode("KeyZ"), Some(0x06));
    assert_eq!(code_to_macos_keycode("Digit0"), Some(0x1D));
    assert_eq!(code_to_macos_keycode("Digit1"), Some(0x12));
    assert_eq!(code_to_macos_keycode("Space"), Some(0x31));
    assert_eq!(code_to_macos_keycode("Enter"), Some(0x24));
    // Backspace is kVK_Delete (0x33), the browser's Delete is kVK_ForwardDelete
    // (0x75).
    assert_eq!(code_to_macos_keycode("Backspace"), Some(0x33));
    assert_eq!(code_to_macos_keycode("Delete"), Some(0x75));
    // The digit row is "out of order" at 5/6 in the hardware map.
    assert_eq!(code_to_macos_keycode("Digit5"), Some(0x17));
    assert_eq!(code_to_macos_keycode("Digit6"), Some(0x16));
    // Left/right modifier codes are numerically "reversed".
    assert_eq!(code_to_macos_keycode("ShiftLeft"), Some(0x38));
    assert_eq!(code_to_macos_keycode("MetaLeft"), Some(0x37));
    assert_eq!(code_to_macos_keycode("MetaRight"), Some(0x36));
    assert_eq!(code_to_macos_keycode("ArrowUp"), Some(0x7E));
    // F-keys are not contiguous: F3 and F5 sit far from F1.
    assert_eq!(code_to_macos_keycode("F1"), Some(0x7A));
    assert_eq!(code_to_macos_keycode("F3"), Some(0x63));
    assert_eq!(code_to_macos_keycode("F5"), Some(0x60));
    assert_eq!(code_to_macos_keycode("Numpad5"), Some(0x57));
    assert_eq!(code_to_macos_keycode("NumpadEnter"), Some(0x4C));
    assert_eq!(code_to_macos_keycode("MediaPlayPause"), None);
}

#[test]
fn keys_go_by_position_on_macos_only() {
    assert_eq!(inject_key(Platform::MacOs, "KeyA"), KeyInjection::Raw(0));
    assert_eq!(inject_key(Platform::Windows, "KeyA"), KeyInjection::Key(Key::Unicode('a')));
    assert_eq!(inject_key(Platform::Other, "Insert"), KeyInjection::Key(Key::Insert));
    assert_eq!(inject_key(Platform::MacOs, "Insert"), KeyInjection::Unmapped);
    assert_eq!(inject_key(Platform::MacOs, "Keya"), KeyInjection::Key(Key::Unicode('a')));
    assert_eq!(inject_key(Platform::Other, "MediaPlayPause"), KeyInjection::Unmapped);
}

#[test]
fn wheels_turn_vertically_first() {
    let turn = |dx: f64, dy: f64| {
        inject(Platform::Other, &InputEvent::Wheel { dx: d(dx), dy: d(dy) })
    };
    let v = |clicks: i32| Scroll { axis: Axis::Vertical, clicks };
    let h = |clicks: i32| Scroll { axis: Axis::Horizontal, clicks };
    assert_eq!(turn(-3.0, 1000.0), Injection::Scroll(vec![v(10), h(-1)]));
    assert_eq!(turn(0.0, -120.0), Injection::Scroll(vec![v(-1)]));
    assert_eq!(turn(200.0, 0.0), Injection::Scroll(vec![h(2)]));
    assert_eq!(turn(0.0, 0.0), Injection::Scroll(vec![]));
}

#[test]
fn presses_and_releases_are_injected_as_such() {
    assert_eq!(
        inject(Platform::Other, &InputEvent::MDown { button: MouseButton::Middle }),
        Injection::Button { button: Button::Middle, direction: Direction::Press }
    );
    assert_eq!(
        inject(Platform::Other, &InputEvent::MUp { button: MouseButton::Right }),
        Injection::Button { button: Button::Right, direction: Direction::Release }
    );
    assert_eq!(
        inject(Platform::MacOs, &InputEvent::KDown { code: "F1".to_string() }),
        Injection::Key { key: KeyInjection::Raw(0x7A), direction: Direction::Press }
    );
    assert_eq!(
        inject(Platform::Other, &InputEvent::KUp { code: "Tab".to_string() }),
        Injection::Key { key: KeyInjection::Key(Key::Tab), direction: Direction::Release }
    );
    assert_eq!(
        inject(Platform::Other, &InputEvent::MMove { x: d(0.5), y: d(0.25) }),
        Injection::MoveTo { x: d(0.5), y: d(0.25) }
    );
}

#[test]
fn tracks_and_releases_held_keys_and_buttons() {
    let mut s = PressedState::default();
    s.apply(&InputEvent::KDown { code: "ShiftLeft".into() });
    s.apply(&InputEvent::KDown { code: "KeyA".into() });
    s.apply(&InputEvent::KUp { code: "KeyA".into() }); // released, should not linger
    s.apply(&InputEvent::MDown { button: MouseButton::Left });
    let rel: HashSet<String> =
        s.pending_releases().into_iter().map(|e| format!("{e:?}")).collect();
    // ShiftLeft still down, KeyA released, Left button still down
    assert!(rel.contains(&format!("{:?}", InputEvent::KUp { code: "ShiftLeft".into() })));
    assert!(rel.contains(&format!("{:?}", InputEvent::MUp { button: MouseButton::Left })));
    assert!(!rel.contains(&format!("{:?}", InputEvent::KUp { code: "KeyA".into() })));
    assert_eq!(rel.len(), 2);
}

#[test]
fn nothing_to_release_when_all_up() {
    let mut s = PressedState::default();
    s.apply(&InputEvent::KDown { code: "KeyB".into() });
    s.apply(&InputEvent::KUp { code: "KeyB".into() });
    assert!(s.pending_releases().is_empty());
}

#[test]
fn repeated_presses_are_released_once_and_in_order() {
    let mut s = PressedState::default();
    for code in ["KeyC", "KeyA", "KeyC", "KeyB"] {
        s.apply(&InputEvent::KDown { code: code.into() });
    }
    s.apply(&InputEvent::KUp { code: "KeyA".into() });
    s.apply(&InputEvent::KUp { code: "KeyX".into() }); // never pressed
    s.apply(&InputEvent::MMove { x: d(0.1), y: d(0.2) });
    s.apply(&InputEvent::MDown { button: MouseButton::Right });
    s.apply(&InputEvent::MDown { button: MouseButton::Right });
    let releases = s.pending_releases();
    assert_eq!(
        releases,
        vec![
            InputEvent::KUp { code: "KeyC".into() },
            InputEvent::KUp { code: "KeyB".into() },
            InputEvent::MUp { button: MouseButton::Right },
        ]
    );
    for release in &releases {
        s.apply(release);
    }
    assert!(s.pending_releases().is_empty());
}

#[test]
fn check_returns_true_off_macos() {
    assert!(check_input_permission(Platform::Other, false));
    assert!(check_input_permission(Platform::Windows, false));
    assert!(check_input_permission(Platform::MacOs, true));
    assert!(!check_input_permission(Platform::MacOs, false));
    assert!(check_screen_recording_permission(Platform::Other, false));
    assert!(!check_screen_recording_permission(Platform::MacOs, false));
    assert!(check_screen_recording_permission(Platform::MacOs, true));
}

#[test]
fn an_injector_releases_what_is_held_when_the_other_side_goes() {
    let mut i = InputInjector::start(Platform::Other, true);
    let down = |code: &str| InputEvent::KDown { code: code.to_string() };
    assert_eq!(
        i.on_event(&down("ShiftLeft")),
        Some(Injection::Key { key: KeyInjection::Key(Key::Shift), direction: Direction::Press })
    );
    assert!(i.on_event(&down("KeyA")).is_some());
    assert!(i.on_event(&InputEvent::KUp { code: "KeyA".to_string() }).is_some());
    assert!(i.on_event(&InputEvent::MDown { button: MouseButton::Left }).is_some());
    assert_eq!(
        i.on_close(),
        vec![
            Injection::Key { key: KeyInjection::Key(Key::Shift), direction: Direction::Release },
            Injection::Button { button: Button::Left, direction: Direction::Release },
        ]
    );
}

#[test]
fn an_injector_that_cannot_inject_drops_events() {
    let mut i = InputInjector::start(Platform::Other, false);
    assert_eq!(i.on_event(&InputEvent::KDown { code: "KeyA".to_string() }), None);
    assert_eq!(i.on_close(), vec![]);
}
