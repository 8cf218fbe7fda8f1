//! A cursor in a window over a list, as the inspectors scroll.

use vstd::prelude::*;

verus! {

/// A cursor in a window of `height` lines over a list of `len` items.
#[derive(Debug, Clone, Copy, PartialEq, Eq, Structural)]
pub struct Scroll {
    pub offset: usize,
    pub curser: usize,
    pub len: usize,
    pub height: usize,
}

impl Scroll {
    /// The number of items in the window.
    pub open spec fn window_len(&self) -> int {
        if self.len - self.offset < self.height {
            self.len - self.offset
        } else {
            self.height as int
        }
    }

    /// The window starts inside the list, and the cursor lies inside the
    /// window.
    pub open spec fn wf(&self) -> bool {
        &&& (self.offset < self.len || self.offset == 0)
        &&& (self.curser < self.window_len() || self.curser == 0)
    }

    /// The cursor `curser` held inside a window of `window` items.
    pub open spec fn held(curser: usize, window: int) -> usize {
        if curser < window {
            curser
        } else if window > 0 {
            (window - 1) as usize
        } else {
            0
        }
    }

    /// The scroll after the window is given `height` lines.
    pub open spec fn resized(&self, height: usize) -> Scroll {
        let sized = Scroll { height, ..*self };
        Scroll { curser: Self::held(self.curser, sized.window_len()), ..sized }
    }

    /// The scroll after a move of `size` items down: inside the window the
    /// cursor moves, held at its last line; from there on the window moves,
    /// held at the last item.
    pub open spec fn moved_down(&self, size: usize) -> Scroll {
        let window = self.window_len();
        if self.curser + 1 < window {
            let target = if self.curser + size < window {
                self.curser + size
            } else {
                window - 1
            };
            Scroll { curser: target as usize, ..*self }
        } else if self.len > 0 {
            let target = if self.offset + size < self.len {
                self.offset + size
            } else {
                self.len - 1
            };
            Scroll { offset: target as usize, ..*self }.resized(self.height)
        } else {
            *self
        }
    }

    /// The scroll after a move of `size` items up.
    pub open spec fn moved_up(&self, size: usize) -> Scroll {
        if self.curser > 0 {
            Scroll {
                curser: if self.curser >= size {
                    (self.curser - size) as usize
                } else {
                    0
                },
                ..*self
            }
        } else {
            Scroll {
                offset: if self.offset >= size {
                    (self.offset - size) as usize
                } else {
                    0
                },
                ..*self
            }.resized(self.height)
        }
    }

    /// A scroll over `len` items with the first one selected.
    pub fn new(len: usize, height: usize) -> (scroll: Scroll)
        ensures
            scroll == (Scroll { offset: 0, curser: 0, len, height }),
            scroll.wf(),
    {
        Scroll { offset: 0, curser: 0, len, height }
    }

    /// The number of items in the window.
    pub fn window_items(&self) -> (n: usize)
        requires
            self.offset <= self.len,
        ensures
            n == self.window_len(),
    {
        let rest: usize = self.len - self.offset;
        if rest < self.height {
            rest
        } else {
            self.height
        }
    }

    /// The selected item.
    pub fn selected(&self) -> (at: usize)
        requires
            self.wf(),
        ensures
            at == self.offset + self.curser,
            self.len > 0 ==> at < self.len,
    {
        self.offset + self.curser
    }

    /// Gives the window `height` lines and holds the cursor inside it.
    pub fn resize(&mut self, height: usize)
        requires
            old(self).offset < old(self).len || old(self).offset == 0,
        ensures
            *final(self) == old(self).resized(height),
            final(self).wf(),
    {
        self.height = height;
        let window: usize = self.window_items();
        if self.curser >= window {
            self.curser = if window > 0 {
                window - 1
            } else {
                0
            };
        }
    }

    /// Moves the selection `size` items down.
    pub fn move_down(&mut self, size: usize)
        requires
            old(self).wf(),
        ensures
            *final(self) == old(self).moved_down(size),
            final(self).wf(),
    {
        let window: usize = self.window_items();
        if self.curser < window && self.curser + 1 < window {
            self.curser = if size < window - self.curser {
                self.curser + size
            } else {
                window - 1
            };
        } else if self.len > 0 {
            self.offset = if size < self.len - self.offset {
                self.offset + size
            } else {
                self.len - 1
            };
            let height: usize = self.height;
            self.resize(height);
        }
    }

    /// Moves the selection `size` items up.
    pub fn move_up(&mut self, size: usize)
        requires
            old(self).wf(),
        ensures
            *final(self) == old(self).moved_up(size),
            final(self).wf(),
    {
        if self.curser > 0 {
            self.curser = self.curser.saturating_sub(size);
        } else {
            self.offset = self.offset.saturating_sub(size);
            let height: usize = self.height;
            self.resize(height);
        }
    }
}

} // verus!
