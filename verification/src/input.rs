//! What the input adapter hands the core once per frame.

use vstd::prelude::*;

verus! {

/// A control of the game. `Jump` is a key that can be held; the others are
/// buttons, of which only the press matters.
#[derive(Clone, Copy, Debug, PartialEq, Eq, Structural)]
pub enum Key {
    Jump,
    Play,
    Exit,
    Pause,
    Resume,
    End,
}

/// A set of controls.
#[derive(Clone, Copy, Debug, PartialEq, Eq, Structural)]
pub struct KeySet {
    jump: bool,
    play: bool,
    exit: bool,
    pause: bool,
    resume: bool,
    end: bool,
}

impl View for KeySet {
    type V = Set<Key>;

    closed spec fn view(&self) -> Set<Key> {
        Set::new(
            |key: Key|
                match key {
                    Key::Jump => self.jump,
                    Key::Play => self.play,
                    Key::Exit => self.exit,
                    Key::Pause => self.pause,
                    Key::Resume => self.resume,
                    Key::End => self.end,
                },
        )
    }
}

impl KeySet {
    /// The empty set.
    pub fn empty() -> (keys: KeySet)
        ensures
            keys@ == Set::<Key>::empty(),
    {
        let keys = KeySet {
            jump: false,
            play: false,
            exit: false,
            pause: false,
            resume: false,
            end: false,
        };
        proof {
            assert(keys@ =~= Set::<Key>::empty());
        }
        keys
    }

    /// The set that holds one control.
    pub fn of(key: Key) -> (keys: KeySet)
        ensures
            keys@ == Set::<Key>::empty().insert(key),
    {
        KeySet::empty().with(key)
    }

    /// Whether the control is in the set.
    pub fn contains(&self, key: Key) -> (found: bool)
        ensures
            found == self@.contains(key),
    {
        match key {
            Key::Jump => self.jump,
            Key::Play => self.play,
            Key::Exit => self.exit,
            Key::Pause => self.pause,
            Key::Resume => self.resume,
            Key::End => self.end,
        }
    }

    /// The set with one control more.
    pub fn with(&self, key: Key) -> (keys: KeySet)
        ensures
            keys@ == self@.insert(key),
    {
        let mut keys = *self;
        match key {
            Key::Jump => {
                keys.jump = true;
            },
            Key::Play => {
                keys.play = true;
            },
            Key::Exit => {
                keys.exit = true;
            },
            Key::Pause => {
                keys.pause = true;
            },
            Key::Resume => {
                keys.resume = true;
            },
            Key::End => {
                keys.end = true;
            },
        }
        proof {
            assert(keys@ =~= self@.insert(key));
        }
        keys
    }

    /// The set with one control less.
    pub fn without(&self, key: Key) -> (keys: KeySet)
        ensures
            keys@ == self@.remove(key),
    {
        let mut keys = *self;
        match key {
            Key::Jump => {
                keys.jump = false;
            },
            Key::Play => {
                keys.play = false;
            },
            Key::Exit => {
                keys.exit = false;
            },
            Key::Pause => {
                keys.pause = false;
            },
            Key::Resume => {
                keys.resume = false;
            },
            Key::End => {
                keys.end = false;
            },
        }
        proof {
            assert(keys@ =~= self@.remove(key));
        }
        keys
    }
}

/// The input of one frame.
#[derive(Clone, Copy, Debug, PartialEq, Eq, Structural)]
pub struct InputSnapshot {
    /// Controls newly pressed this frame.
    pub pressed_now: KeySet,
    /// Controls that are down.
    pub held: KeySet,
    /// Controls newly released this frame.
    pub released_now: KeySet,
    /// The player asked to leave the program.
    pub quit_requested: bool,
}

impl InputSnapshot {
    /// A frame in which nothing is pressed, held or released.
    pub fn idle() -> (input: InputSnapshot)
        ensures
            input.pressed_now@ == Set::<Key>::empty(),
            input.held@ == Set::<Key>::empty(),
            input.released_now@ == Set::<Key>::empty(),
            !input.quit_requested,
    {
        InputSnapshot {
            pressed_now: KeySet::empty(),
            held: KeySet::empty(),
            released_now: KeySet::empty(),
            quit_requested: false,
        }
    }

    /// A frame in which one control is newly pressed, and so also down.
    pub fn pressing(key: Key) -> (input: InputSnapshot)
        ensures
            input.pressed_now@ == Set::<Key>::empty().insert(key),
            input.held@ == Set::<Key>::empty().insert(key),
            input.released_now@ == Set::<Key>::empty(),
            !input.quit_requested,
    {
        InputSnapshot {
            pressed_now: KeySet::of(key),
            held: KeySet::of(key),
            released_now: KeySet::empty(),
            quit_requested: false,
        }
    }

    /// A frame in which one control stays down.
    pub fn holding(key: Key) -> (input: InputSnapshot)
        ensures
            input.pressed_now@ == Set::<Key>::empty(),
            input.held@ == Set::<Key>::empty().insert(key),
            input.released_now@ == Set::<Key>::empty(),
            !input.quit_requested,
    {
        InputSnapshot {
            pressed_now: KeySet::empty(),
            held: KeySet::of(key),
            released_now: KeySet::empty(),
            quit_requested: false,
        }
    }

    /// A frame in which one control is newly released.
    pub fn releasing(key: Key) -> (input: InputSnapshot)
        ensures
            input.pressed_now@ == Set::<Key>::empty(),
            input.held@ == Set::<Key>::empty(),
            input.released_now@ == Set::<Key>::empty().insert(key),
            !input.quit_requested,
    {
        InputSnapshot {
            pressed_now: KeySet::empty(),
            held: KeySet::empty(),
            released_now: KeySet::of(key),
            quit_requested: false,
        }
    }
}

} // verus!
