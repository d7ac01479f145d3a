use vstd::prelude::*;
use vstd::std_specs::hash::*;

use std::collections::HashSet;

use crate::interface::{Audible, Color, Controllable, Controller, Drawable, UserAction};

verus! {

broadcast use vstd::std_specs::hash::group_hash_axioms;

/// A headless user interface: an in-memory screen, a silent speaker and a keypad.
pub struct MockUI {
    pub screen: Screen,
    pub speaker: Speaker,
    pub controller: Controller,
}

/// An in-memory display that keeps the lit pixels.
pub struct Screen {
    pixels: Vec<(u8, u8)>,
}

/// A speaker that only records whether its tone is on.
pub struct Speaker {
    playing: bool,
}

/// A sequence with `a` pushed contains exactly what it contained before, and `a`.
proof fn lemma_push_contains<A>(s: Seq<A>, a: A, q: A)
    ensures
        s.push(a).contains(q) <==> (s.contains(q) || q == a),
{
    if s.contains(q) {
        let i = choose|i: int| 0 <= i < s.len() && s[i] == q;
        assert(s.push(a)[i] == q);
    }
    if q == a {
        assert(s.push(a)[s.len() as int] == a);
    }
    if s.push(a).contains(q) {
        let i = choose|i: int| 0 <= i < s.push(a).len() && s.push(a)[i] == q;
        if i < s.len() {
            assert(s[i] == q);
        }
    }
}

impl MockUI {
    /// A blank screen, a stopped speaker and a keypad with no key pressed. The colours
    /// are accepted for parity with graphical backends and not used.
    pub fn init(_fg_color: Color, _bg_color: Color) -> (r: Self)
        ensures
            r.screen.pixels() == Set::<(u8, u8)>::empty(),
            !r.speaker.playing(),
            r.controller.pressed() == Set::<u8>::empty(),
    {
        let screen = Screen { pixels: Vec::new() };
        assert(screen.pixels() =~= Set::<(u8, u8)>::empty());
        MockUI { screen, speaker: Speaker { playing: false }, controller: Controller::new() }
    }
}

impl Drawable for Screen {
    closed spec fn pixels(&self) -> Set<(u8, u8)> {
        Set::new(|p: (u8, u8)| self.pixels@.contains(p))
    }

    fn clear(&mut self) {
        self.pixels.clear();
        assert(self.pixels() =~= Set::<(u8, u8)>::empty());
    }

    fn add_pixel(&mut self, x: u8, y: u8) {
        if !self.has_pixel(x, y) {
            self.pixels.push((x, y));
            assert forall|q: (u8, u8)| self.pixels@.contains(q) <==> (old(self).pixels@.contains(q)
                || q == (x, y)) by {
                lemma_push_contains(old(self).pixels@, (x, y), q);
            }
        }
        assert(self.pixels() =~= old(self).pixels().insert((x, y)));
    }

    fn remove_pixel(&mut self, x: u8, y: u8) {
        let mut kept: Vec<(u8, u8)> = Vec::new();
        let mut k: usize = 0;
        while k < self.pixels.len()
            invariant
                k <= self.pixels@.len(),
                forall|p: (u8, u8)|
                    kept@.contains(p) <==> (self.pixels@.subrange(0, k as int).contains(p) && p
                        != (x, y)),
            decreases self.pixels@.len() - k,
        {
            let p = self.pixels[k];
            let ghost kept_before = kept@;
            if p.0 != x || p.1 != y {
                kept.push(p);
            }
            proof {
                assert(self.pixels@.subrange(0, k + 1) =~= self.pixels@.subrange(0, k as int).push(
                    p,
                ));
                assert forall|q: (u8, u8)|
                    kept@.contains(q) <==> (self.pixels@.subrange(0, k + 1).contains(q) && q != (
                        x,
                        y,
                    )) by {
                    lemma_push_contains(self.pixels@.subrange(0, k as int), p, q);
                    if p != (x, y) {
                        lemma_push_contains(kept_before, p, q);
                    }
                }
            }
            k = k + 1;
        }
        assert(self.pixels@.subrange(0, k as int) =~= self.pixels@);
        self.pixels = kept;
        assert(self.pixels() =~= old(self).pixels().remove((x, y)));
    }

    fn has_pixel(&self, x: u8, y: u8) -> (r: bool) {
        let mut k: usize = 0;
        while k < self.pixels.len()
            invariant
                k <= self.pixels@.len(),
                forall|j: int| 0 <= j < k ==> self.pixels@[j] != (x, y),
            decreases self.pixels@.len() - k,
        {
            if self.pixels[k].0 == x && self.pixels[k].1 == y {
                assert(self.pixels@[k as int] == (x, y));
                return true;
            }
            k = k + 1;
        }
        false
    }

    fn render(&mut self) {
    }

    fn poll_events(&mut self) -> (r: Option<UserAction>) {
        None
    }

    fn get_pixels(&self) -> (r: HashSet<(u8, u8)>) {
        let mut set: HashSet<(u8, u8)> = HashSet::new();
        let mut k: usize = 0;
        while k < self.pixels.len()
            invariant
                k <= self.pixels@.len(),
                obeys_key_model::<(u8, u8)>() ==> set@ == Set::new(
                    |p: (u8, u8)| self.pixels@.subrange(0, k as int).contains(p),
                ),
            decreases self.pixels@.len() - k,
        {
            set.insert(self.pixels[k]);
            proof {
                assert(self.pixels@.subrange(0, k + 1) =~= self.pixels@.subrange(0, k as int).push(
                    self.pixels@[k as int],
                ));
                if obeys_key_model::<(u8, u8)>() {
                    let seen = self.pixels@.subrange(0, k as int);
                    let p = self.pixels@[k as int];
                    assert forall|q: (u8, u8)| true implies self.pixels@.subrange(0, k + 1).contains(q)
                        == (seen.contains(q) || q == p) by {
                        lemma_push_contains(seen, p, q);
                    }
                    assert(set@ =~= Set::new(
                        |p: (u8, u8)| self.pixels@.subrange(0, k + 1).contains(p),
                    ));
                }
            }
            k = k + 1;
        }
        assert(self.pixels@.subrange(0, k as int) =~= self.pixels@);
        set
    }
}

impl Audible for Speaker {
    closed spec fn playing(&self) -> bool {
        self.playing
    }

    fn play_sound(&mut self) {
        self.playing = true;
    }

    fn stop_sound(&mut self) {
        self.playing = false;
    }

    fn is_playing(&self) -> (r: bool) {
        self.playing
    }
}

} // verus!
