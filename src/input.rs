use vstd::prelude::*;

verus! {

/// Player number of the first controller.
pub const EMBEDDED_EMULATOR_PLAYER_0: u32 = 0;

/// Player number of the second controller.
pub const EMBEDDED_EMULATOR_PLAYER_1: u32 = 1;

/// Key event code as it crosses the embedding boundary.
#[derive(Clone, Copy, Debug, PartialEq, Eq, Structural)]
pub enum KeyEvent {
    PressA,
    PressB,
    PressSelect,
    PressStart,
    PressUp,
    PressDown,
    PressLeft,
    PressRight,
    ReleaseA,
    ReleaseB,
    ReleaseSelect,
    ReleaseStart,
    ReleaseUp,
    ReleaseDown,
    ReleaseLeft,
    ReleaseRight,
}

/// A controller button.
#[derive(Clone, Copy, Debug, PartialEq, Eq, Structural)]
pub enum PadButton {
    A,
    B,
    Select,
    Start,
    Up,
    Down,
    Left,
    Right,
}

/// The button a key event acts on.
pub open spec fn key_button(key: KeyEvent) -> PadButton {
    match key {
        KeyEvent::PressA | KeyEvent::ReleaseA => PadButton::A,
        KeyEvent::PressB | KeyEvent::ReleaseB => PadButton::B,
        KeyEvent::PressSelect | KeyEvent::ReleaseSelect => PadButton::Select,
        KeyEvent::PressStart | KeyEvent::ReleaseStart => PadButton::Start,
        KeyEvent::PressUp | KeyEvent::ReleaseUp => PadButton::Up,
        KeyEvent::PressDown | KeyEvent::ReleaseDown => PadButton::Down,
        KeyEvent::PressLeft | KeyEvent::ReleaseLeft => PadButton::Left,
        KeyEvent::PressRight | KeyEvent::ReleaseRight => PadButton::Right,
    }
}

/// Whether a key event presses its button (otherwise it releases it).
pub open spec fn key_presses(key: KeyEvent) -> bool {
    match key {
        KeyEvent::PressA | KeyEvent::PressB | KeyEvent::PressSelect | KeyEvent::PressStart
        | KeyEvent::PressUp | KeyEvent::PressDown | KeyEvent::PressLeft
        | KeyEvent::PressRight => true,
        _ => false,
    }
}

/// Controller slot that a player number selects: player 1 is the second
/// slot, and every other number falls back to the first.
pub open spec fn player_slot_of(player: u32) -> nat {
    if player == 1 {
        1
    } else {
        0
    }
}

/// The pressed buttons after one key event.
pub open spec fn after_key(pressed: Set<PadButton>, key: KeyEvent) -> Set<PadButton> {
    if key_presses(key) {
        pressed.insert(key_button(key))
    } else {
        pressed.remove(key_button(key))
    }
}

/// The pressed buttons after a sequence of key events, applied in order.
pub open spec fn after_keys(pressed: Set<PadButton>, keys: Seq<KeyEvent>) -> Set<PadButton>
    decreases keys.len(),
{
    if keys.len() == 0 {
        pressed
    } else {
        after_key(after_keys(pressed, keys.drop_last()), keys.last())
    }
}

impl KeyEvent {
    /// The button this event acts on.
    pub fn button(self) -> (r: PadButton)
        ensures
            r == key_button(self),
    {
        match self {
            KeyEvent::PressA | KeyEvent::ReleaseA => PadButton::A,
            KeyEvent::PressB | KeyEvent::ReleaseB => PadButton::B,
            KeyEvent::PressSelect | KeyEvent::ReleaseSelect => PadButton::Select,
            KeyEvent::PressStart | KeyEvent::ReleaseStart => PadButton::Start,
            KeyEvent::PressUp | KeyEvent::ReleaseUp => PadButton::Up,
            KeyEvent::PressDown | KeyEvent::ReleaseDown => PadButton::Down,
            KeyEvent::PressLeft | KeyEvent::ReleaseLeft => PadButton::Left,
            KeyEvent::PressRight | KeyEvent::ReleaseRight => PadButton::Right,
        }
    }

    /// True for a press, false for a release.
    pub fn is_press(self) -> (r: bool)
        ensures
            r == key_presses(self),
    {
        match self {
            KeyEvent::PressA | KeyEvent::PressB | KeyEvent::PressSelect | KeyEvent::PressStart
            | KeyEvent::PressUp | KeyEvent::PressDown | KeyEvent::PressLeft
            | KeyEvent::PressRight => true,
            _ => false,
        }
    }
}

/// Controller slot for a player number (0 or 1; any other number is 0).
pub fn player_slot(player: u32) -> (r: usize)
    ensures
        r == player_slot_of(player),
{
    if player == EMBEDDED_EMULATOR_PLAYER_1 {
        1
    } else {
        0
    }
}

/// Latched state of one controller: which buttons are held.
#[derive(Clone, Copy, Debug, PartialEq, Eq, Structural)]
pub struct PadLatch {
    pub a: bool,
    pub b: bool,
    pub select: bool,
    pub start: bool,
    pub up: bool,
    pub down: bool,
    pub left: bool,
    pub right: bool,
}

impl PadLatch {
    pub open spec fn holds(self, button: PadButton) -> bool {
        match button {
            PadButton::A => self.a,
            PadButton::B => self.b,
            PadButton::Select => self.select,
            PadButton::Start => self.start,
            PadButton::Up => self.up,
            PadButton::Down => self.down,
            PadButton::Left => self.left,
            PadButton::Right => self.right,
        }
    }

    pub open spec fn view(self) -> Set<PadButton> {
        Set::new(|b: PadButton| self.holds(b))
    }

    /// A controller with no button held.
    pub fn released() -> (r: PadLatch)
        ensures
            r@ == Set::<PadButton>::empty(),
    {
        let r = PadLatch {
            a: false,
            b: false,
            select: false,
            start: false,
            up: false,
            down: false,
            left: false,
            right: false,
        };
        assert(r@ =~= Set::<PadButton>::empty());
        r
    }

    /// Whether `button` is held.
    pub fn is_pressed(&self, button: PadButton) -> (r: bool)
        ensures
            r == self@.contains(button),
    {
        match button {
            PadButton::A => self.a,
            PadButton::B => self.b,
            PadButton::Select => self.select,
            PadButton::Start => self.start,
            PadButton::Up => self.up,
            PadButton::Down => self.down,
            PadButton::Left => self.left,
            PadButton::Right => self.right,
        }
    }

    /// Applies one key event: a press holds its button, a release lets it go.
    pub fn apply(&mut self, key: KeyEvent)
        ensures
            final(self)@ == after_key(old(self)@, key),
    {
        let held = key.is_press();
        match key.button() {
            PadButton::A => self.a = held,
            PadButton::B => self.b = held,
            PadButton::Select => self.select = held,
            PadButton::Start => self.start = held,
            PadButton::Up => self.up = held,
            PadButton::Down => self.down = held,
            PadButton::Left => self.left = held,
            PadButton::Right => self.right = held,
        }
        assert(self@ =~= after_key(old(self)@, key));
    }
}

/// Latched state of the two controllers.
#[derive(Clone, Copy, Debug, PartialEq, Eq, Structural)]
pub struct Controllers {
    pub pad1: PadLatch,
    pub pad2: PadLatch,
}

impl Controllers {
    /// Pressed buttons of each slot, first slot first.
    pub open spec fn view(self) -> Seq<Set<PadButton>> {
        seq![self.pad1@, self.pad2@]
    }

    /// Both controllers with no button held.
    pub fn new() -> (r: Controllers)
        ensures
            r@ == seq![Set::<PadButton>::empty(), Set::<PadButton>::empty()],
    {
        Controllers { pad1: PadLatch::released(), pad2: PadLatch::released() }
    }

    /// Whether `button` is held on the controller that `player` selects.
    pub fn is_pressed(&self, player: u32, button: PadButton) -> (r: bool)
        ensures
            r == self@[player_slot_of(player) as int].contains(button),
    {
        if player_slot(player) == 1 {
            self.pad2.is_pressed(button)
        } else {
            self.pad1.is_pressed(button)
        }
    }

    /// Applies one key event to the controller that `player` selects; the
    /// other controller is untouched.
    pub fn update_key(&mut self, player: u32, key: KeyEvent)
        ensures
            final(self)@ == old(self)@.update(
                player_slot_of(player) as int,
                after_key(old(self)@[player_slot_of(player) as int], key),
            ),
    {
        if player_slot(player) == 1 {
            self.pad2.apply(key);
        } else {
            self.pad1.apply(key);
        }
        assert(self@ =~= old(self)@.update(
            player_slot_of(player) as int,
            after_key(old(self)@[player_slot_of(player) as int], key),
        ));
    }
}

/// Pressing a button that is already held changes nothing, and neither does
/// releasing one that is not held: a key event applied twice in a row has
/// the effect of applying it once.
pub proof fn lemma_key_idempotent(pressed: Set<PadButton>, key: KeyEvent)
    ensures
        after_key(after_key(pressed, key), key) == after_key(pressed, key),
{
    assert(after_key(after_key(pressed, key), key) =~= after_key(pressed, key));
}

/// Any run of presses and releases of one button that ends with a press
/// leaves that button held, whatever came before and however often it was
/// pressed in between; the other buttons keep their state.
pub proof fn lemma_last_press_holds(pressed: Set<PadButton>, keys: Seq<KeyEvent>, button: PadButton)
    requires
        keys.len() > 0,
        forall|i: int| 0 <= i < keys.len() ==> key_button(#[trigger] keys[i]) == button,
        key_presses(keys.last()),
    ensures
        after_keys(pressed, keys).contains(button),
        after_keys(pressed, keys).remove(button) == pressed.remove(button),
{
    lemma_other_buttons_kept(pressed, keys, button);
    let before = after_keys(pressed, keys.drop_last());
    assert(after_keys(pressed, keys).remove(button) =~= before.remove(button));
}

/// Events on one button leave every other button as it was.
pub proof fn lemma_other_buttons_kept(pressed: Set<PadButton>, keys: Seq<KeyEvent>, button: PadButton)
    requires
        forall|i: int| 0 <= i < keys.len() ==> key_button(#[trigger] keys[i]) == button,
    ensures
        after_keys(pressed, keys).remove(button) == pressed.remove(button),
    decreases keys.len(),
{
    if keys.len() > 0 {
        let rest = keys.drop_last();
        assert forall|i: int| 0 <= i < rest.len() implies key_button(#[trigger] rest[i]) == button by {
            assert(rest[i] == keys[i]);
        }
        lemma_other_buttons_kept(pressed, rest, button);
        let before = after_keys(pressed, rest);
        assert(key_button(keys[keys.len() - 1]) == button);
        assert(after_key(before, keys.last()).remove(button) =~= before.remove(button));
    }
}

} // verus!
