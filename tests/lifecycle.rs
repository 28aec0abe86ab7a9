use nes_embed::{RegionError, Session, SessionState, StateKind, StateSizes, STATE_ALIGN};

#[test]
fn uninitialized_session_ignores_load_and_reset() {
    let mut s = Session::new();
    assert!(!s.is_initialized());
    assert!(!s.on_load(true));
    s.on_reset();
    assert_eq!(s.state(), SessionState::Uninitialized);
    assert!(!s.may_run());
}

#[test]
fn successful_load_asks_for_reset() {
    let mut s = Session::new();
    s.on_init();
    assert!(s.may_run());
    assert!(s.on_load(true));
    assert_eq!(s.state(), SessionState::NeedsReset);
    assert!(!s.may_run());
    s.on_reset();
    assert!(s.may_run());
}

#[test]
fn truncated_rom_fails_and_reset_recovers() {
    let mut s = Session::new();
    s.on_init();
    assert!(!s.on_load(false));
    assert_eq!(s.state(), SessionState::Unsafe);
    assert!(!s.may_run());
    s.on_reset();
    assert_eq!(s.state(), SessionState::Ready);
    assert!(s.may_run());
}

#[test]
fn reload_after_failure_needs_reset() {
    let mut s = Session::new();
    s.on_init();
    s.on_load(false);
    assert!(s.on_load(true));
    assert_eq!(s.state(), SessionState::NeedsReset);
}

#[test]
fn size_queries_are_stable() {
    let sizes = StateSizes { cpu: 40, system: 4200, ppu: 9000 };
    for kind in [StateKind::Cpu, StateKind::System, StateKind::Ppu] {
        assert_eq!(sizes.size_of(kind), sizes.size_of(kind));
    }
    assert_eq!(sizes.size_of(StateKind::Cpu), 40);
    assert_eq!(sizes.size_of(StateKind::System), 4200);
    assert_eq!(sizes.size_of(StateKind::Ppu), 9000);
}

#[test]
fn region_checks() {
    let sizes = StateSizes { cpu: 40, system: 4200, ppu: 9000 };
    assert_eq!(sizes.check_region(StateKind::Cpu, 40, 0x2000_0000), Ok(()));
    assert_eq!(sizes.check_region(StateKind::Cpu, 39, 0x2000_0000), Err(RegionError::WrongSize));
    assert_eq!(sizes.check_region(StateKind::Ppu, 40, 0x2000_0000), Err(RegionError::WrongSize));
    assert_eq!(
        sizes.check_region(StateKind::System, 4200, 0x2000_0002),
        Err(RegionError::Misaligned)
    );
    assert_eq!(sizes.check_region(StateKind::System, 4201, 3), Err(RegionError::WrongSize));
    assert_eq!(STATE_ALIGN, 4);
}
