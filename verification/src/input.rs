//! Keyboard controls for the locally piloted ship.

use vstd::prelude::*;

verus! {

/// The thrusters a ship fires during one tick.
#[derive(Clone, Copy, Debug, PartialEq, Eq, Structural)]
pub struct ShipInput {
    pub thrust: bool,
    pub turn_left: bool,
    pub turn_right: bool,
}

impl Default for ShipInput {
    fn default() -> (r: ShipInput)
        ensures
            r == no_input(),
    {
        ShipInput { thrust: false, turn_left: false, turn_right: false }
    }
}

/// No thruster fires.
pub open spec fn no_input() -> ShipInput {
    ShipInput { thrust: false, turn_left: false, turn_right: false }
}

/// A one-shot command raised from the keyboard.
#[derive(Clone, Copy, Debug, PartialEq, Eq, Structural)]
pub enum SimulationCommand {
    ResetSimulation,
}

#[derive(Clone, Copy, Debug, PartialEq, Eq, Structural)]
pub enum ControlKey {
    Thrust,
    TurnLeft,
    TurnRight,
    Reset,
}

/// A movement key: whether it is held down, and whether a reset has
/// blocked it until it is released.
#[derive(Clone, Copy, Debug, PartialEq, Eq, Structural)]
pub struct MovementKeyState {
    pub physically_held: bool,
    pub blocked_until_release: bool,
}

/// The state of the three movement keys and of a pending reset, with the
/// history of calls that led to it (kept for the proofs only).
pub struct InputController {
    thrust: MovementKeyState,
    left: MovementKeyState,
    right: MovementKeyState,
    pending_reset: bool,
    history: Ghost<Seq<InputEvent>>,
}

/// The mathematical model of an [`InputController`].
pub struct InputView {
    pub thrust: MovementKeyState,
    pub left: MovementKeyState,
    pub right: MovementKeyState,
    pub pending_reset: bool,
}

impl View for InputController {
    type V = InputView;

    closed spec fn view(&self) -> InputView {
        InputView { thrust: self.thrust, left: self.left, right: self.right, pending_reset: self.pending_reset }
    }
}

pub open spec fn released() -> MovementKeyState {
    MovementKeyState { physically_held: false, blocked_until_release: false }
}

pub open spec fn block_if_held(k: MovementKeyState) -> MovementKeyState {
    MovementKeyState { blocked_until_release: k.blocked_until_release || k.physically_held, ..k }
}

pub open spec fn hold(k: MovementKeyState) -> MovementKeyState {
    MovementKeyState { physically_held: true, ..k }
}

/// A key fires while it is held and not blocked.
pub open spec fn active(k: MovementKeyState) -> bool {
    k.physically_held && !k.blocked_until_release
}

pub open spec fn press_spec(s: InputView, key: ControlKey) -> InputView {
    match key {
        ControlKey::Reset => InputView {
            thrust: block_if_held(s.thrust),
            left: block_if_held(s.left),
            right: block_if_held(s.right),
            pending_reset: true,
        },
        ControlKey::Thrust => InputView { thrust: hold(s.thrust), ..s },
        ControlKey::TurnLeft => InputView { left: hold(s.left), ..s },
        ControlKey::TurnRight => InputView { right: hold(s.right), ..s },
    }
}

pub open spec fn release_spec(s: InputView, key: ControlKey) -> InputView {
    match key {
        ControlKey::Thrust => InputView { thrust: released(), ..s },
        ControlKey::TurnLeft => InputView { left: released(), ..s },
        ControlKey::TurnRight => InputView { right: released(), ..s },
        ControlKey::Reset => s,
    }
}

pub open spec fn controls_spec(s: InputView) -> ShipInput {
    ShipInput { thrust: active(s.thrust), turn_left: active(s.left), turn_right: active(s.right) }
}

fn block_key(k: &mut MovementKeyState)
    ensures
        *final(k) == block_if_held(*old(k)),
{
    if k.physically_held {
        k.blocked_until_release = true;
    }
}

impl Default for InputController {
    fn default() -> (c: InputController)
        ensures
            c@ == initial_input(),
            c.history() == Seq::<InputEvent>::empty(),
    {
        InputController {
            thrust: MovementKeyState { physically_held: false, blocked_until_release: false },
            left: MovementKeyState { physically_held: false, blocked_until_release: false },
            right: MovementKeyState { physically_held: false, blocked_until_release: false },
            pending_reset: false,
            history: Ghost(Seq::empty()),
        }
    }
}

impl InputController {
    /// The state is the one that the history of calls leads to from a
    /// fresh controller.
    #[verifier::type_invariant]
    closed spec fn follows_history(self) -> bool {
        self@ == events_spec(initial_input(), self.history@)
    }

    /// The calls made on this controller since it was created.
    pub closed spec fn history(&self) -> Seq<InputEvent> {
        self.history@
    }

    /// A key went down. Reset also blocks every movement key that is held
    /// at that moment until it is released.
    pub fn press(&mut self, key: ControlKey)
        ensures
            final(self)@ == press_spec(old(self)@, key),
            final(self).history() == old(self).history().push(InputEvent::Press(key)),
    {
        proof {
            use_type_invariant(&*self);
        }
        let mut thrust = self.thrust;
        let mut left = self.left;
        let mut right = self.right;
        let mut pending_reset = self.pending_reset;
        match key {
            ControlKey::Reset => {
                pending_reset = true;
                block_key(&mut thrust);
                block_key(&mut left);
                block_key(&mut right);
            },
            ControlKey::Thrust => thrust.physically_held = true,
            ControlKey::TurnLeft => left.physically_held = true,
            ControlKey::TurnRight => right.physically_held = true,
        }
        let ghost history = self.history@.push(InputEvent::Press(key));
        proof {
            assert(history.drop_last() =~= self.history@);
        }
        *self = InputController { thrust, left, right, pending_reset, history: Ghost(history) };
    }

    /// A key went up; releasing a movement key also lifts its block.
    pub fn release(&mut self, key: ControlKey)
        ensures
            final(self)@ == release_spec(old(self)@, key),
            final(self).history() == old(self).history().push(InputEvent::Release(key)),
    {
        proof {
            use_type_invariant(&*self);
        }
        let up = MovementKeyState { physically_held: false, blocked_until_release: false };
        let mut thrust = self.thrust;
        let mut left = self.left;
        let mut right = self.right;
        match key {
            ControlKey::Thrust => thrust = up,
            ControlKey::TurnLeft => left = up,
            ControlKey::TurnRight => right = up,
            ControlKey::Reset => {},
        }
        let ghost history = self.history@.push(InputEvent::Release(key));
        proof {
            assert(history.drop_last() =~= self.history@);
        }
        *self = InputController { thrust, left, right, pending_reset: self.pending_reset, history: Ghost(history) };
    }

    /// The thrusters that fire now: each movement key that was pressed and
    /// not let go of since, unless a reset or a suppression came while it
    /// was held.
    pub fn controls(&self) -> (r: ShipInput)
        ensures
            r == controls_spec(self@),
            r == history_controls(self.history()),
    {
        proof {
            use_type_invariant(self);
            lemma_controls_follow_history(self.history@);
        }
        ShipInput {
            thrust: self.thrust.physically_held && !self.thrust.blocked_until_release,
            turn_left: self.left.physically_held && !self.left.blocked_until_release,
            turn_right: self.right.physically_held && !self.right.blocked_until_release,
        }
    }

    /// Takes the pending reset, if any.
    pub fn take_command(&mut self) -> (r: Option<SimulationCommand>)
        ensures
            old(self)@.pending_reset ==> r == Some(SimulationCommand::ResetSimulation),
            !old(self)@.pending_reset ==> r is None,
            final(self)@ == (InputView { pending_reset: false, ..old(self)@ }),
            final(self).history() == old(self).history().push(InputEvent::TakeCommand),
    {
        proof {
            use_type_invariant(&*self);
        }
        let r = if self.pending_reset {
            Some(SimulationCommand::ResetSimulation)
        } else {
            None
        };
        let ghost history = self.history@.push(InputEvent::TakeCommand);
        proof {
            assert(history.drop_last() =~= self.history@);
        }
        *self = InputController {
            thrust: self.thrust,
            left: self.left,
            right: self.right,
            pending_reset: false,
            history: Ghost(history),
        };
        r
    }

    /// Blocks every held movement key until it is released.
    pub fn suppress_held_movement_until_release(&mut self)
        ensures
            final(self)@ == (InputView {
                thrust: block_if_held(old(self)@.thrust),
                left: block_if_held(old(self)@.left),
                right: block_if_held(old(self)@.right),
                ..old(self)@
            }),
            final(self).history() == old(self).history().push(InputEvent::Suppress),
    {
        proof {
            use_type_invariant(&*self);
        }
        let mut thrust = self.thrust;
        let mut left = self.left;
        let mut right = self.right;
        block_key(&mut thrust);
        block_key(&mut left);
        block_key(&mut right);
        let ghost history = self.history@.push(InputEvent::Suppress);
        proof {
            assert(history.drop_last() =~= self.history@);
        }
        *self = InputController { thrust, left, right, pending_reset: self.pending_reset, history: Ghost(history) };
    }

    /// Forgets every key and the pending reset.
    pub fn clear_for_focus_loss(&mut self)
        ensures
            final(self)@ == initial_input(),
            final(self).history() == old(self).history().push(InputEvent::FocusLost),
    {
        let ghost history = self.history@.push(InputEvent::FocusLost);
        proof {
            assert(history.drop_last() =~= self.history@);
        }
        *self = InputController {
            thrust: MovementKeyState { physically_held: false, blocked_until_release: false },
            left: MovementKeyState { physically_held: false, blocked_until_release: false },
            right: MovementKeyState { physically_held: false, blocked_until_release: false },
            pending_reset: false,
            history: Ghost(history),
        };
    }
}

/// Right after a reset no thruster fires, whatever was held.
pub proof fn lemma_reset_silences_controls(s: InputView)
    ensures
        controls_spec(press_spec(s, ControlKey::Reset)) == no_input(),
{
}

/// A key blocked by a reset stays silent when pressed again; once it has
/// been released, pressing it fires it again.
pub proof fn lemma_blocked_until_release(s: InputView)
    requires
        s.thrust.blocked_until_release,
    ensures
        !controls_spec(press_spec(s, ControlKey::Thrust)).thrust,
        controls_spec(press_spec(release_spec(s, ControlKey::Thrust), ControlKey::Thrust)).thrust,
{
}

/// One call on an [`InputController`].
pub enum InputEvent {
    Press(ControlKey),
    Release(ControlKey),
    Suppress,
    FocusLost,
    TakeCommand,
}

/// The state after one call.
pub open spec fn event_spec(s: InputView, e: InputEvent) -> InputView {
    match e {
        InputEvent::Press(k) => press_spec(s, k),
        InputEvent::Release(k) => release_spec(s, k),
        InputEvent::Suppress => InputView {
            thrust: block_if_held(s.thrust),
            left: block_if_held(s.left),
            right: block_if_held(s.right),
            ..s
        },
        InputEvent::FocusLost => InputView {
            thrust: released(),
            left: released(),
            right: released(),
            pending_reset: false,
        },
        InputEvent::TakeCommand => InputView { pending_reset: false, ..s },
    }
}

/// The state after a sequence of calls.
pub open spec fn events_spec(s: InputView, es: Seq<InputEvent>) -> InputView
    decreases es.len(),
{
    if es.len() == 0 {
        s
    } else {
        event_spec(events_spec(s, es.drop_last()), es.last())
    }
}

/// The state of a fresh controller.
pub open spec fn initial_input() -> InputView {
    InputView { thrust: released(), left: released(), right: released(), pending_reset: false }
}

/// The state of movement key `k`.
pub open spec fn key_state(s: InputView, k: ControlKey) -> MovementKeyState {
    match k {
        ControlKey::Thrust => s.thrust,
        ControlKey::TurnLeft => s.left,
        ControlKey::TurnRight => s.right,
        ControlKey::Reset => released(),
    }
}

/// Whether `e` lets go of movement key `k`: its release, or losing focus.
pub open spec fn lets_go(e: InputEvent, k: ControlKey) -> bool {
    e == InputEvent::Release(k) || e is FocusLost
}

/// Whether `e` blocks held movement keys: a reset press, or suppression.
pub open spec fn blocks(e: InputEvent) -> bool {
    e == InputEvent::Press(ControlKey::Reset) || e is Suppress
}

/// Whether nothing in `es` after position `i` lets go of `k`.
pub open spec fn kept_since(es: Seq<InputEvent>, k: ControlKey, i: int) -> bool {
    forall|m: int| i < m < es.len() ==> !lets_go(#[trigger] es[m], k)
}

/// Whether `k` was pressed and not let go of since.
pub open spec fn held_after(es: Seq<InputEvent>, k: ControlKey) -> bool {
    exists|i: int| 0 <= i < es.len() && #[trigger] es[i] == InputEvent::Press(k) && kept_since(es, k, i)
}

/// Whether, while `k` was held and not let go of since, a reset press or a
/// suppression came.
pub open spec fn blocked_after(es: Seq<InputEvent>, k: ControlKey) -> bool {
    exists|i: int, j: int|
        0 <= i < j < es.len() && #[trigger] es[i] == InputEvent::Press(k) && blocks(#[trigger] es[j])
            && kept_since(es, k, i)
}

proof fn lemma_key_history(es: Seq<InputEvent>, k: ControlKey)
    requires
        !(k is Reset),
    ensures
        key_state(events_spec(initial_input(), es), k) == (MovementKeyState {
            physically_held: held_after(es, k),
            blocked_until_release: blocked_after(es, k),
        }),
    decreases es.len(),
{
    if es.len() == 0 {
        return;
    }
    let p = es.drop_last();
    let e = es.last();
    let n = es.len() - 1;
    lemma_key_history(p, k);
    assert forall|m: int| 0 <= m < n implies es[m] == p[m] by {}
    // Facts about the prefix carry over while `e` does not let go of `k`.
    if !lets_go(e, k) {
        assert forall|i: int| 0 <= i < n implies #[trigger] kept_since(es, k, i) == kept_since(p, k, i) by {
            if kept_since(p, k, i) {
                assert forall|m: int| i < m < es.len() implies !lets_go(#[trigger] es[m], k) by {
                    if m < n {
                        assert(es[m] == p[m]);
                    }
                }
            }
            if kept_since(es, k, i) {
                assert forall|m: int| i < m < p.len() implies !lets_go(#[trigger] p[m], k) by {
                    assert(es[m] == p[m]);
                }
            }
        }
        if held_after(p, k) {
            let i = choose|i: int| 0 <= i < p.len() && #[trigger] p[i] == InputEvent::Press(k) && kept_since(p, k, i);
            assert(es[i] == InputEvent::Press(k));
        }
        if held_after(es, k) {
            let i = choose|i: int| 0 <= i < es.len() && #[trigger] es[i] == InputEvent::Press(k) && kept_since(es, k, i);
            if i < n {
                assert(p[i] == InputEvent::Press(k));
            }
        }
        if blocked_after(p, k) {
            let (i, j) = choose|i: int, j: int|
                0 <= i < j < p.len() && #[trigger] p[i] == InputEvent::Press(k) && blocks(#[trigger] p[j])
                    && kept_since(p, k, i);
            assert(es[i] == InputEvent::Press(k) && blocks(es[j]));
        }
        if blocked_after(es, k) {
            let (i, j) = choose|i: int, j: int|
                0 <= i < j < es.len() && #[trigger] es[i] == InputEvent::Press(k) && blocks(#[trigger] es[j])
                    && kept_since(es, k, i);
            if j < n {
                assert(p[i] == InputEvent::Press(k) && blocks(p[j]));
            } else {
                assert(blocks(e));
                assert(p[i] == InputEvent::Press(k));
                assert(held_after(p, k));
            }
        }
        if blocks(e) && held_after(p, k) {
            let i = choose|i: int| 0 <= i < p.len() && #[trigger] p[i] == InputEvent::Press(k) && kept_since(p, k, i);
            assert(es[i] == InputEvent::Press(k) && blocks(es[n]));
            assert(blocked_after(es, k));
        }
        if e == InputEvent::Press(k) {
            assert(es[n] == InputEvent::Press(k));
            assert(kept_since(es, k, n));
            assert(held_after(es, k));
        }
    } else {
        assert(!held_after(es, k)) by {
            if held_after(es, k) {
                let i = choose|i: int| 0 <= i < es.len() && #[trigger] es[i] == InputEvent::Press(k) && kept_since(es, k, i);
                if i < n {
                    assert(!lets_go(es[n], k));
                }
            }
        }
        assert(!blocked_after(es, k)) by {
            if blocked_after(es, k) {
                let (i, j) = choose|i: int, j: int|
                    0 <= i < j < es.len() && #[trigger] es[i] == InputEvent::Press(k) && blocks(#[trigger] es[j])
                        && kept_since(es, k, i);
                assert(!lets_go(es[n], k));
            }
        }
    }
}

/// After any sequence of calls on a fresh controller, a movement key fires
/// exactly when it was pressed and not released (nor focus lost) since, and
/// no reset press or suppression came while it was held since then.
pub proof fn lemma_controls_follow_history(es: Seq<InputEvent>)
    ensures
        controls_spec(events_spec(initial_input(), es)) == history_controls(es),
{
    lemma_key_history(es, ControlKey::Thrust);
    lemma_key_history(es, ControlKey::TurnLeft);
    lemma_key_history(es, ControlKey::TurnRight);
}

/// The thrusters that fire after a history of calls on a fresh controller.
pub open spec fn history_controls(es: Seq<InputEvent>) -> ShipInput {
    ShipInput {
        thrust: held_after(es, ControlKey::Thrust) && !blocked_after(es, ControlKey::Thrust),
        turn_left: held_after(es, ControlKey::TurnLeft) && !blocked_after(es, ControlKey::TurnLeft),
        turn_right: held_after(es, ControlKey::TurnRight) && !blocked_after(es, ControlKey::TurnRight),
    }
}

} // verus!
