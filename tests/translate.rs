use nes_embed::{
    player_slot, CpuInterrupt, Interrupt, KeyEvent, PadButton, EMBEDDED_EMULATOR_PLAYER_0,
    EMBEDDED_EMULATOR_PLAYER_1,
};

#[test]
fn named_codes_map_one_to_one() {
    assert_eq!(CpuInterrupt::NMI.to_interrupt(), Interrupt::NMI);
    assert_eq!(CpuInterrupt::RESET.to_interrupt(), Interrupt::RESET);
    assert_eq!(CpuInterrupt::IRQ.to_interrupt(), Interrupt::IRQ);
    assert_eq!(CpuInterrupt::BRK.to_interrupt(), Interrupt::BRK);
}

#[test]
fn none_code_falls_back_to_reset() {
    assert_eq!(CpuInterrupt::NONE.to_interrupt(), Interrupt::RESET);
    assert_eq!(CpuInterrupt::NONE.pending(), None);
}

#[test]
fn raised_interrupts_are_reported() {
    assert_eq!(CpuInterrupt::from_raised(Some(Interrupt::NMI)), CpuInterrupt::NMI);
    assert_eq!(CpuInterrupt::from_raised(Some(Interrupt::RESET)), CpuInterrupt::RESET);
    assert_eq!(CpuInterrupt::from_raised(Some(Interrupt::IRQ)), CpuInterrupt::IRQ);
    assert_eq!(CpuInterrupt::from_raised(Some(Interrupt::BRK)), CpuInterrupt::BRK);
    assert_eq!(CpuInterrupt::from_raised(None), CpuInterrupt::NONE);
}

#[test]
fn report_round_trip() {
    for raised in [
        None,
        Some(Interrupt::NMI),
        Some(Interrupt::RESET),
        Some(Interrupt::IRQ),
        Some(Interrupt::BRK),
    ] {
        assert_eq!(CpuInterrupt::from_raised(raised).pending(), raised);
    }
}

#[test]
fn every_key_event_decodes_to_one_button_and_action() {
    let table = [
        (KeyEvent::PressA, PadButton::A, true),
        (KeyEvent::PressB, PadButton::B, true),
        (KeyEvent::PressSelect, PadButton::Select, true),
        (KeyEvent::PressStart, PadButton::Start, true),
        (KeyEvent::PressUp, PadButton::Up, true),
        (KeyEvent::PressDown, PadButton::Down, true),
        (KeyEvent::PressLeft, PadButton::Left, true),
        (KeyEvent::PressRight, PadButton::Right, true),
        (KeyEvent::ReleaseA, PadButton::A, false),
        (KeyEvent::ReleaseB, PadButton::B, false),
        (KeyEvent::ReleaseSelect, PadButton::Select, false),
        (KeyEvent::ReleaseStart, PadButton::Start, false),
        (KeyEvent::ReleaseUp, PadButton::Up, false),
        (KeyEvent::ReleaseDown, PadButton::Down, false),
        (KeyEvent::ReleaseLeft, PadButton::Left, false),
        (KeyEvent::ReleaseRight, PadButton::Right, false),
    ];
    for (key, button, press) in table {
        assert_eq!(key.button(), button);
        assert_eq!(key.is_press(), press);
    }
}

#[test]
fn player_numbers_select_slots() {
    assert_eq!(player_slot(EMBEDDED_EMULATOR_PLAYER_0), 0);
    assert_eq!(player_slot(EMBEDDED_EMULATOR_PLAYER_1), 1);
}

#[test]
fn unknown_player_falls_back_to_first_slot() {
    assert_eq!(player_slot(2), 0);
    assert_eq!(player_slot(u32::MAX), 0);
}
