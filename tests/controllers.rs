use nes_embed::{Controllers, KeyEvent, PadButton, PadLatch};

#[test]
fn press_release_press_leaves_button_held() {
    let mut pads = Controllers::new();
    pads.update_key(0, KeyEvent::PressA);
    pads.update_key(0, KeyEvent::ReleaseA);
    pads.update_key(0, KeyEvent::PressA);
    assert!(pads.is_pressed(0, PadButton::A));
}

#[test]
fn duplicate_presses_do_not_double_count() {
    let mut pads = Controllers::new();
    pads.update_key(1, KeyEvent::PressStart);
    pads.update_key(1, KeyEvent::PressStart);
    pads.update_key(1, KeyEvent::ReleaseStart);
    assert!(!pads.is_pressed(1, PadButton::Start));
    pads.update_key(1, KeyEvent::PressStart);
    pads.update_key(1, KeyEvent::PressStart);
    assert!(pads.is_pressed(1, PadButton::Start));
}

#[test]
fn key_touches_only_its_button_and_player() {
    let mut pads = Controllers::new();
    pads.update_key(0, KeyEvent::PressLeft);
    pads.update_key(1, KeyEvent::PressB);
    pads.update_key(0, KeyEvent::PressDown);
    pads.update_key(0, KeyEvent::ReleaseLeft);
    assert!(pads.is_pressed(0, PadButton::Down));
    assert!(!pads.is_pressed(0, PadButton::Left));
    assert!(!pads.is_pressed(0, PadButton::B));
    assert!(pads.is_pressed(1, PadButton::B));
    assert!(!pads.is_pressed(1, PadButton::Down));
}

#[test]
fn unknown_player_drives_first_controller() {
    let mut pads = Controllers::new();
    pads.update_key(5, KeyEvent::PressRight);
    assert!(pads.is_pressed(0, PadButton::Right));
    assert!(!pads.is_pressed(1, PadButton::Right));
}

#[test]
fn latch_apply_sets_fields() {
    let mut pad = PadLatch::released();
    pad.apply(KeyEvent::PressSelect);
    pad.apply(KeyEvent::PressUp);
    assert!(pad.select && pad.up);
    assert!(!pad.a && !pad.b && !pad.start && !pad.down && !pad.left && !pad.right);
    pad.apply(KeyEvent::ReleaseUp);
    assert!(!pad.up && pad.select);
}
