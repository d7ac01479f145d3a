use vstd::prelude::*;
use vstd::std_specs::hash::*;

use std::collections::HashSet;

verus! {

broadcast use vstd::std_specs::hash::group_hash_axioms;

/// An input event reported by a display backend.
#[derive(Debug, Clone, Copy, PartialEq, Eq, Structural)]
pub enum UserAction {
    /// The user asked to quit.
    Quit,
    /// A key went down; `None` when it maps to no Chip-8 key.
    KeyDown(Option<u8>),
    /// A key went up; `None` when it maps to no Chip-8 key.
    KeyUp(Option<u8>),
}

/// An RGB colour.
#[derive(Debug, Clone, Copy, PartialEq, Eq, Structural)]
pub struct Color(pub u8, pub u8, pub u8);

/// A monochrome display surface, modelled as the set of lit pixels.
pub trait Drawable {
    /// The lit pixels, as `(x, y)` pairs.
    spec fn pixels(&self) -> Set<(u8, u8)>;

    /// Turns every pixel off.
    fn clear(&mut self)
        ensures
            final(self).pixels() == Set::<(u8, u8)>::empty(),
    ;

    /// Lights the pixel at `(x, y)`.
    fn add_pixel(&mut self, x: u8, y: u8)
        ensures
            final(self).pixels() == old(self).pixels().insert((x, y)),
    ;

    /// Turns off the pixel at `(x, y)`.
    fn remove_pixel(&mut self, x: u8, y: u8)
        ensures
            final(self).pixels() == old(self).pixels().remove((x, y)),
    ;

    /// Whether the pixel at `(x, y)` is lit.
    fn has_pixel(&self, x: u8, y: u8) -> (r: bool)
        ensures
            r == self.pixels().contains((x, y)),
    ;

    /// Shows the current pixels.
    fn render(&mut self)
        ensures
            final(self).pixels() == old(self).pixels(),
    ;

    /// The next pending input event, if any.
    fn poll_events(&mut self) -> (r: Option<UserAction>)
        ensures
            final(self).pixels() == old(self).pixels(),
    ;

    /// The lit pixels.
    fn get_pixels(&self) -> (r: HashSet<(u8, u8)>)
        ensures
            obeys_key_model::<(u8, u8)>() ==> r@ == self.pixels(),
    ;
}

/// A tone generator.
pub trait Audible {
    /// Whether the tone is playing.
    spec fn playing(&self) -> bool;

    /// Starts the tone.
    fn play_sound(&mut self)
        ensures
            final(self).playing(),
    ;

    /// Stops the tone.
    fn stop_sound(&mut self)
        ensures
            !final(self).playing(),
    ;

    /// Whether the tone is playing.
    fn is_playing(&self) -> (r: bool)
        ensures
            r == self.playing(),
    ;
}

/// A hex keypad, modelled as the set of pressed key codes.
pub trait Controllable {
    /// The pressed keys.
    spec fn pressed(&self) -> Set<u8>;

    /// Marks `key` pressed.
    fn press_key(&mut self, key: u8)
        ensures
            final(self).pressed() == old(self).pressed().insert(key),
    ;

    /// Marks `key` released.
    fn release_key(&mut self, key: u8)
        ensures
            final(self).pressed() == old(self).pressed().remove(key),
    ;

    /// Whether `key` is pressed.
    fn is_pressed(&self, key: u8) -> (r: bool)
        ensures
            r == self.pressed().contains(key),
    ;

    /// Takes one pressed key out of the set and returns it, or `None` when no key is
    /// pressed.
    fn get_pressed_key(&mut self) -> (r: Option<u8>)
        ensures
            match r {
                Some(k) => old(self).pressed().contains(k) && final(self).pressed() == old(
                    self,
                ).pressed().remove(k),
                None => old(self).pressed() == Set::<u8>::empty() && final(self).pressed()
                    == old(self).pressed(),
            },
    ;
}

/// The keypad state of one run: the set of pressed keys.
pub struct Controller {
    pressed_keys: HashSet<u8>,
}

impl Controller {
    /// A keypad with no key pressed.
    pub fn new() -> (r: Self)
        ensures
            r.pressed() == Set::<u8>::empty(),
    {
        Controller { pressed_keys: HashSet::new() }
    }
}

impl Controllable for Controller {
    closed spec fn pressed(&self) -> Set<u8> {
        self.pressed_keys@
    }

    fn press_key(&mut self, key: u8) {
        self.pressed_keys.insert(key);
    }

    fn release_key(&mut self, key: u8) {
        self.pressed_keys.remove(&key);
    }

    fn is_pressed(&self, key: u8) -> (r: bool) {
        self.pressed_keys.contains(&key)
    }

    fn get_pressed_key(&mut self) -> (r: Option<u8>) {
        let mut key: u16 = 0;
        while key < 256
            invariant
                key <= 256,
                self.pressed_keys@ == old(self).pressed_keys@,
                forall|k: u8| (k as u16) < key ==> !self.pressed_keys@.contains(k),
            decreases 256 - key,
        {
            let k = key as u8;
            if self.pressed_keys.contains(&k) {
                self.pressed_keys.remove(&k);
                return Some(k);
            }
            key = key + 1;
        }
        assert(self.pressed_keys@ =~= Set::<u8>::empty());
        None
    }
}

} // verus!
