//! Keyboard state from one frame to the next.
//!
//! Keys are numbered `0..key_count`. Each frame the caller hands over which keys
//! are held; the state then tells which are held, which went down since the
//! previous frame, and which came up.

use vstd::prelude::*;

verus! {

pub struct InputState {
    pressed: Vec<bool>,
    down: Vec<bool>,
    up: Vec<bool>,
}

impl InputState {
    pub closed spec fn pressed_view(&self) -> Seq<bool> {
        self.pressed@
    }

    pub closed spec fn down_view(&self) -> Seq<bool> {
        self.down@
    }

    pub closed spec fn up_view(&self) -> Seq<bool> {
        self.up@
    }

    pub open spec fn key_count(&self) -> nat {
        self.pressed_view().len()
    }

    pub open spec fn wf(&self) -> bool {
        self.down_view().len() == self.key_count() && self.up_view().len() == self.key_count()
    }

    /// A state for `key_count` keys, none held.
    pub fn new(key_count: usize) -> (r: Self)
        ensures
            r.wf(),
            r.key_count() == key_count,
            forall|k: int|
                0 <= k < key_count ==> !r.pressed_view()[k] && !r.down_view()[k] && !r.up_view()[k],
    {
        let mut pressed: Vec<bool> = Vec::new();
        let mut down: Vec<bool> = Vec::new();
        let mut up: Vec<bool> = Vec::new();
        let mut i: usize = 0;
        while i < key_count
            invariant
                i <= key_count,
                pressed@.len() == i && down@.len() == i && up@.len() == i,
                forall|k: int| 0 <= k < i ==> !pressed@[k] && !down@[k] && !up@[k],
            decreases key_count - i,
        {
            pressed.push(false);
            down.push(false);
            up.push(false);
            i = i + 1;
        }
        InputState { pressed, down, up }
    }

    /// Takes the keys held this frame: a key went down when it is held now and was
    /// not before, and came up when it was held before and is not now.
    pub fn update(&mut self, now: &Vec<bool>)
        requires
            old(self).wf(),
            now@.len() == old(self).key_count(),
        ensures
            final(self).wf(),
            final(self).pressed_view() == now@,
            forall|k: int|
                0 <= k < now@.len() ==> #[trigger] final(self).down_view()[k] == (now@[k]
                    && !old(self).pressed_view()[k]),
            forall|k: int|
                0 <= k < now@.len() ==> #[trigger] final(self).up_view()[k] == (old(self).pressed_view()[k]
                    && !now@[k]),
    {
        let n = now.len();
        let mut i: usize = 0;
        while i < n
            invariant
                n == now@.len(),
                i <= n,
                self.pressed_view() == old(self).pressed_view(),
                self.pressed_view().len() == n,
                self.down_view().len() == n && self.up_view().len() == n,
                forall|k: int|
                    0 <= k < i ==> #[trigger] self.down_view()[k] == (now@[k]
                        && !old(self).pressed_view()[k]),
                forall|k: int|
                    0 <= k < i ==> #[trigger] self.up_view()[k] == (old(self).pressed_view()[k]
                        && !now@[k]),
            decreases n - i,
        {
            let was = self.pressed[i];
            let is = now[i];
            self.down.set(i, is && !was);
            self.up.set(i, was && !is);
            i = i + 1;
        }
        self.pressed = now.clone();
        proof {
            assert(self.pressed@ =~= now@);
        }
    }

    /// Whether key `k` is held.
    pub fn is_pressed(&self, k: usize) -> (r: bool)
        requires
            k < self.key_count(),
        ensures
            r == self.pressed_view()[k as int],
    {
        self.pressed[k]
    }

    /// Whether key `k` went down this frame.
    pub fn is_down(&self, k: usize) -> (r: bool)
        requires
            self.wf(),
            k < self.key_count(),
        ensures
            r == self.down_view()[k as int],
    {
        self.down[k]
    }

    /// Whether key `k` came up this frame.
    pub fn is_up(&self, k: usize) -> (r: bool)
        requires
            self.wf(),
            k < self.key_count(),
        ensures
            r == self.up_view()[k as int],
    {
        self.up[k]
    }
}

} // verus!
