use vstd::prelude::*;

use crate::vehicle::PowerToggle;

verus! {

/// A pedal key that stays in effect while it is held down.
#[derive(Clone, Copy, Debug, PartialEq, Eq, Structural)]
pub enum HeldKey {
    /// `w`: the throttle.
    Throttle,
    /// `s`: the brake.
    Brake,
    /// `r`: the fuel pump.
    Refuel,
}

/// What a keyboard key controls.
#[derive(Clone, Copy, Debug, PartialEq, Eq, Structural)]
pub enum Control {
    /// A pedal key (`w`, `s`, `r`).
    Hold(HeldKey),
    /// The power switch (`e`).
    Power,
    /// Shift up (`shift`).
    ShiftUp,
    /// Shift down (`alt`).
    ShiftDown,
    /// Any other key.
    Unbound,
}

/// What the vehicle does on a tick of the dashboard's timer.
#[derive(Clone, Copy, Debug, PartialEq, Eq, Structural)]
pub enum TickAction {
    Accelerate,
    Brake,
    Refuel,
    IdleBrake,
}

/// What a key press did.
#[derive(Clone, Copy, Debug, PartialEq, Eq, Structural)]
pub enum KeyOutcome {
    /// A pedal key is now held.
    Held(HeldKey),
    /// The power switch was pressed, with this result.
    Power(PowerToggle),
    /// The power switch was pressed while the vehicle moves: nothing happened.
    RefusedWhileMoving,
    /// The shifter went one gear up.
    ShiftedUp,
    /// The shifter went one gear down.
    ShiftedDown,
    /// Nothing happened.
    Ignored,
}

/// An event of the dashboard's loop.
pub enum Event<'a> {
    /// A key went down; the text names it (`"w"`, `"shift"`, ...).
    KeyPressed(&'a str),
    /// The held key went up.
    KeyReleased,
    /// The update timer fired.
    Tick,
}

/// What handling an event of the dashboard's loop did.
#[derive(Clone, Copy, Debug, PartialEq, Eq, Structural)]
pub enum Reaction {
    Key(KeyOutcome),
    Released,
    Tick(TickAction),
}

/// Whether `key` is the one-character name `c`.
pub open spec fn is_char_key(key: Seq<char>, c: char) -> bool {
    key.len() == 1 && key[0] == c
}

/// Whether `key` is `"shift"`.
pub open spec fn is_shift_key(key: Seq<char>) -> bool {
    key.len() == 5 && key[0] == 's' && key[1] == 'h' && key[2] == 'i' && key[3] == 'f' && key[4]
        == 't'
}

/// Whether `key` is `"alt"`.
pub open spec fn is_alt_key(key: Seq<char>) -> bool {
    key.len() == 3 && key[0] == 'a' && key[1] == 'l' && key[2] == 't'
}

/// The control a key name selects: `w`, `s`, `r` are the pedals, `e` the
/// power switch, `shift` and `alt` shift up and down.
pub open spec fn control_of(key: Seq<char>) -> Control {
    if is_char_key(key, 'w') {
        Control::Hold(HeldKey::Throttle)
    } else if is_char_key(key, 'e') {
        Control::Power
    } else if is_char_key(key, 's') {
        Control::Hold(HeldKey::Brake)
    } else if is_char_key(key, 'r') {
        Control::Hold(HeldKey::Refuel)
    } else if is_shift_key(key) {
        Control::ShiftUp
    } else if is_alt_key(key) {
        Control::ShiftDown
    } else {
        Control::Unbound
    }
}

/// What a tick does while `held` is the held pedal key.
pub open spec fn action_for(held: Option<HeldKey>) -> TickAction {
    match held {
        Some(HeldKey::Throttle) => TickAction::Accelerate,
        Some(HeldKey::Brake) => TickAction::Brake,
        Some(HeldKey::Refuel) => TickAction::Refuel,
        None => TickAction::IdleBrake,
    }
}

/// Whether two texts are equal, character by character.
pub fn same_text(a: &str, b: &str) -> (same: bool)
    ensures
        same == (a@ == b@),
{
    let n = a.unicode_len();
    if n != b.unicode_len() {
        return false;
    }
    let mut i: usize = 0;
    while i < n
        invariant
            n == a@.len(),
            n == b@.len(),
            i <= n,
            forall|j: int| 0 <= j < i ==> a@[j] == b@[j],
        decreases n - i,
    {
        if a.get_char(i) != b.get_char(i) {
            return false;
        }
        i = i + 1;
    }
    assert(a@ =~= b@);
    true
}

/// The control the key named `key` selects.
pub fn control_of_key(key: &str) -> (control: Control)
    ensures
        control == control_of(key@),
{
    proof {
        reveal_strlit("w");
        reveal_strlit("e");
        reveal_strlit("s");
        reveal_strlit("r");
        reveal_strlit("shift");
        reveal_strlit("alt");
        assert("w"@ =~= seq!['w']);
        assert("e"@ =~= seq!['e']);
        assert("s"@ =~= seq!['s']);
        assert("r"@ =~= seq!['r']);
        assert("shift"@ =~= seq!['s', 'h', 'i', 'f', 't']);
        assert("alt"@ =~= seq!['a', 'l', 't']);
        let k = key@;
        assert(is_char_key(k, 'w') <==> k =~= seq!['w']);
        assert(is_char_key(k, 'e') <==> k =~= seq!['e']);
        assert(is_char_key(k, 's') <==> k =~= seq!['s']);
        assert(is_char_key(k, 'r') <==> k =~= seq!['r']);
        assert(is_shift_key(k) <==> k =~= seq!['s', 'h', 'i', 'f', 't']);
        assert(is_alt_key(k) <==> k =~= seq!['a', 'l', 't']);
    }
    if same_text(key, "w") {
        Control::Hold(HeldKey::Throttle)
    } else if same_text(key, "e") {
        Control::Power
    } else if same_text(key, "s") {
        Control::Hold(HeldKey::Brake)
    } else if same_text(key, "r") {
        Control::Hold(HeldKey::Refuel)
    } else if same_text(key, "shift") {
        Control::ShiftUp
    } else if same_text(key, "alt") {
        Control::ShiftDown
    } else {
        Control::Unbound
    }
}

/// The action of a tick while `held` is the held pedal key: the pedal's
/// action, or rolling when no pedal is held.
pub fn action_for_held(held: Option<HeldKey>) -> (action: TickAction)
    ensures
        action == action_for(held),
{
    match held {
        Some(HeldKey::Throttle) => TickAction::Accelerate,
        Some(HeldKey::Brake) => TickAction::Brake,
        Some(HeldKey::Refuel) => TickAction::Refuel,
        None => TickAction::IdleBrake,
    }
}

/// The key bindings: `w`, `s` and `r` hold the throttle, the brake and the
/// fuel pump, `e` is the power switch, `shift` and `alt` shift up and down,
/// and every other key name is unbound.
pub proof fn lemma_key_bindings(key: Seq<char>)
    ensures
        control_of(seq!['w']) == Control::Hold(HeldKey::Throttle),
        control_of(seq!['s']) == Control::Hold(HeldKey::Brake),
        control_of(seq!['r']) == Control::Hold(HeldKey::Refuel),
        control_of(seq!['e']) == Control::Power,
        control_of(seq!['s', 'h', 'i', 'f', 't']) == Control::ShiftUp,
        control_of(seq!['a', 'l', 't']) == Control::ShiftDown,
        key != seq!['w'] && key != seq!['s'] && key != seq!['r'] && key != seq!['e'] && key
            != seq!['s', 'h', 'i', 'f', 't'] && key != seq!['a', 'l', 't'] ==> control_of(key)
            == Control::Unbound,
{
    assert(is_char_key(key, 'w') ==> key =~= seq!['w']);
    assert(is_char_key(key, 'e') ==> key =~= seq!['e']);
    assert(is_char_key(key, 's') ==> key =~= seq!['s']);
    assert(is_char_key(key, 'r') ==> key =~= seq!['r']);
    assert(is_shift_key(key) ==> key =~= seq!['s', 'h', 'i', 'f', 't']);
    assert(is_alt_key(key) ==> key =~= seq!['a', 'l', 't']);
}

/// Each tick while a pedal key is held does that pedal's work: the throttle
/// accelerates, the brake brakes, the fuel pump refuels; with no key held the
/// vehicle rolls.
pub proof fn lemma_tick_actions()
    ensures
        action_for(Some(HeldKey::Throttle)) == TickAction::Accelerate,
        action_for(Some(HeldKey::Brake)) == TickAction::Brake,
        action_for(Some(HeldKey::Refuel)) == TickAction::Refuel,
        action_for(None) == TickAction::IdleBrake,
{
}

} // verus!
