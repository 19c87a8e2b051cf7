use vstd::prelude::*;

verus! {

/// One of the movements that a held key asks for.
#[derive(Clone, Copy, Debug, PartialEq, Eq, Structural)]
pub enum Action {
    Forward,
    Backward,
    Left,
    Right,
    Up,
    Down,
    LookLeft,
    LookRight,
    LookUp,
    LookDown,
}

/// The keys that the camera listens to; every other key is `Other`.
#[derive(Clone, Copy, Debug, PartialEq, Eq, Structural)]
pub enum Key {
    W,
    S,
    A,
    D,
    Q,
    Z,
    Left,
    Right,
    Up,
    Down,
    LShift,
    Other,
}

/// A key going down (`pressed`) or up. `key` is `None` where the windowing
/// system could not name the key.
#[derive(Clone, Copy, Debug, PartialEq, Eq, Structural)]
pub struct KeyInput {
    pub key: Option<Key>,
    pub pressed: bool,
}

/// The action that a key drives, if it drives one.
pub open spec fn action_of(k: Key) -> Option<Action> {
    match k {
        Key::W => Some(Action::Forward),
        Key::S => Some(Action::Backward),
        Key::A => Some(Action::Left),
        Key::D => Some(Action::Right),
        Key::Q => Some(Action::Up),
        Key::Z => Some(Action::Down),
        Key::Left => Some(Action::LookLeft),
        Key::Right => Some(Action::LookRight),
        Key::Up => Some(Action::LookUp),
        Key::Down => Some(Action::LookDown),
        _ => None,
    }
}

/// The held actions after `input`, from `held` before it.
pub open spec fn actions_after(held: Set<Action>, input: KeyInput) -> Set<Action> {
    match input.key {
        Some(k) => match action_of(k) {
            Some(a) => if input.pressed {
                held.insert(a)
            } else {
                held.remove(a)
            },
            None => held,
        },
        None => held,
    }
}

/// The boost flag after `input`, from `boost` before it: it follows the shift key.
pub open spec fn boost_after(boost: bool, input: KeyInput) -> bool {
    if input.key == Some(Key::LShift) {
        input.pressed
    } else {
        boost
    }
}

/// The held actions after a sequence of inputs.
pub open spec fn actions_after_all(held: Set<Action>, inputs: Seq<KeyInput>) -> Set<Action>
    decreases inputs.len(),
{
    if inputs.len() == 0 {
        held
    } else {
        actions_after(actions_after_all(held, inputs.drop_last()), inputs.last())
    }
}

pub fn action_for_key(k: Key) -> (r: Option<Action>)
    ensures
        r == action_of(k),
{
    match k {
        Key::W => Some(Action::Forward),
        Key::S => Some(Action::Backward),
        Key::A => Some(Action::Left),
        Key::D => Some(Action::Right),
        Key::Q => Some(Action::Up),
        Key::Z => Some(Action::Down),
        Key::Left => Some(Action::LookLeft),
        Key::Right => Some(Action::LookRight),
        Key::Up => Some(Action::LookUp),
        Key::Down => Some(Action::LookDown),
        _ => None,
    }
}

/// The set of actions whose keys are held, one flag per action.
#[derive(Clone, Copy, Debug, PartialEq, Eq, Structural)]
pub struct ActionSet {
    forward: bool,
    backward: bool,
    left: bool,
    right: bool,
    up: bool,
    down: bool,
    look_left: bool,
    look_right: bool,
    look_up: bool,
    look_down: bool,
}

impl ActionSet {
    pub closed spec fn has(self, a: Action) -> bool {
        match a {
            Action::Forward => self.forward,
            Action::Backward => self.backward,
            Action::Left => self.left,
            Action::Right => self.right,
            Action::Up => self.up,
            Action::Down => self.down,
            Action::LookLeft => self.look_left,
            Action::LookRight => self.look_right,
            Action::LookUp => self.look_up,
            Action::LookDown => self.look_down,
        }
    }

    pub open spec fn view(self) -> Set<Action> {
        Set::new(|a: Action| self.has(a))
    }

    pub fn empty() -> (r: ActionSet)
        ensures
            r@ == Set::<Action>::empty(),
    {
        let r = ActionSet {
            forward: false,
            backward: false,
            left: false,
            right: false,
            up: false,
            down: false,
            look_left: false,
            look_right: false,
            look_up: false,
            look_down: false,
        };
        assert(r@ =~= Set::<Action>::empty());
        r
    }

    pub fn contains(&self, a: Action) -> (r: bool)
        ensures
            r == self@.contains(a),
    {
        match a {
            Action::Forward => self.forward,
            Action::Backward => self.backward,
            Action::Left => self.left,
            Action::Right => self.right,
            Action::Up => self.up,
            Action::Down => self.down,
            Action::LookLeft => self.look_left,
            Action::LookRight => self.look_right,
            Action::LookUp => self.look_up,
            Action::LookDown => self.look_down,
        }
    }

    pub fn is_empty(&self) -> (r: bool)
        ensures
            r == (self@ == Set::<Action>::empty()),
    {
        let r = !(self.forward || self.backward || self.left || self.right || self.up
            || self.down || self.look_left || self.look_right || self.look_up
            || self.look_down);
        if !r {
            if self.forward {
                assert(self@.contains(Action::Forward));
            } else if self.backward {
                assert(self@.contains(Action::Backward));
            } else if self.left {
                assert(self@.contains(Action::Left));
            } else if self.right {
                assert(self@.contains(Action::Right));
            } else if self.up {
                assert(self@.contains(Action::Up));
            } else if self.down {
                assert(self@.contains(Action::Down));
            } else if self.look_left {
                assert(self@.contains(Action::LookLeft));
            } else if self.look_right {
                assert(self@.contains(Action::LookRight));
            } else if self.look_up {
                assert(self@.contains(Action::LookUp));
            } else {
                assert(self@.contains(Action::LookDown));
            }
        } else {
            assert(self@ =~= Set::<Action>::empty());
        }
        r
    }

    /// Holds `a` where `on`, releases it otherwise.
    pub fn set(&mut self, a: Action, on: bool)
        ensures
            final(self)@ == (if on {
                old(self)@.insert(a)
            } else {
                old(self)@.remove(a)
            }),
    {
        match a {
            Action::Forward => self.forward = on,
            Action::Backward => self.backward = on,
            Action::Left => self.left = on,
            Action::Right => self.right = on,
            Action::Up => self.up = on,
            Action::Down => self.down = on,
            Action::LookLeft => self.look_left = on,
            Action::LookRight => self.look_right = on,
            Action::LookUp => self.look_up = on,
            Action::LookDown => self.look_down = on,
        }
        if on {
            assert(self@ =~= old(self)@.insert(a));
        } else {
            assert(self@ =~= old(self)@.remove(a));
        }
    }

    /// Applies one key going down or up: a key that drives an action holds it
    /// while down and releases it when up; other keys change nothing.
    pub fn apply(&mut self, input: KeyInput)
        ensures
            final(self)@ == actions_after(old(self)@, input),
    {
        if let Some(k) = input.key {
            if let Some(a) = action_for_key(k) {
                self.set(a, input.pressed);
            }
        }
    }
}

/// Holding two actions and then releasing one leaves the other alone held, in
/// whichever order the two were pressed.
pub proof fn lemma_release_one_of_two(a: Key, b: Key)
    requires
        action_of(a) is Some,
        action_of(b) is Some,
        action_of(a) != action_of(b),
    ensures
        ({
            let press_a = KeyInput { key: Some(a), pressed: true };
            let press_b = KeyInput { key: Some(b), pressed: true };
            let release_a = KeyInput { key: Some(a), pressed: false };
            let only_b = Set::<Action>::empty().insert(action_of(b).unwrap());
            &&& actions_after_all(Set::empty(), seq![press_a, press_b, release_a]) == only_b
            &&& actions_after_all(Set::empty(), seq![press_b, press_a, release_a]) == only_b
        }),
{
    let press_a = KeyInput { key: Some(a), pressed: true };
    let press_b = KeyInput { key: Some(b), pressed: true };
    let release_a = KeyInput { key: Some(a), pressed: false };
    let only_b = Set::<Action>::empty().insert(action_of(b).unwrap());
    let e = Set::<Action>::empty();
    let (x, y) = (action_of(a).unwrap(), action_of(b).unwrap());
    let s1 = seq![press_a, press_b, release_a];
    let s2 = seq![press_b, press_a, release_a];
    assert(actions_after_all(e, seq![press_a]) == e.insert(x)) by {
        assert(seq![press_a].drop_last() =~= Seq::<KeyInput>::empty());
        assert(actions_after_all(e, Seq::<KeyInput>::empty()) == e);
        assert(seq![press_a].last() == press_a);
    }
    assert(actions_after_all(e, seq![press_b]) == e.insert(y)) by {
        assert(seq![press_b].drop_last() =~= Seq::<KeyInput>::empty());
        assert(actions_after_all(e, Seq::<KeyInput>::empty()) == e);
        assert(seq![press_b].last() == press_b);
    }
    assert(actions_after_all(e, seq![press_a, press_b]) == e.insert(x).insert(y)) by {
        assert(seq![press_a, press_b].drop_last() =~= seq![press_a]);
    }
    assert(actions_after_all(e, seq![press_b, press_a]) == e.insert(y).insert(x)) by {
        assert(seq![press_b, press_a].drop_last() =~= seq![press_b]);
    }
    assert(s1.drop_last() =~= seq![press_a, press_b]);
    assert(s2.drop_last() =~= seq![press_b, press_a]);
    assert(e.insert(x).insert(y).remove(x) =~= only_b);
    assert(e.insert(y).insert(x).remove(x) =~= only_b);
}

} // verus!
