//! Pixels on their way to the screen, and the 16-slot queue that carries the
//! background's.

use vstd::prelude::*;

verus! {

/// A pixel before its palette is applied.
#[derive(Clone, Copy, Debug, PartialEq, Eq, Structural)]
pub struct Pixel {
    /// The 2-bit colour number.
    pub color: u8,
    /// Which palette resolves it: 0 is BGP, 1 is OBP0, 2 is OBP1.
    pub palette_register: u8,
    /// For a sprite pixel: the background, where it is not colour 0, is
    /// drawn over it.
    pub bg_priority: bool,
    pub is_sprite: bool,
}

impl Pixel {
    pub fn new(color: u8, palette_register: u8, bg_priority: bool, is_sprite: bool) -> (p: Pixel)
        ensures
            p == (Pixel { color, palette_register, bg_priority, is_sprite }),
    {
        Pixel { color, palette_register, bg_priority, is_sprite }
    }
}

pub const QUEUE_CAPACITY: usize = 16;

/// A first-in first-out queue of at most 16 pixels, kept in a ring.
#[derive(Clone, Copy, Debug)]
pub struct PixelQueue {
    pub data: [Pixel; 16],
    pub head: usize,
    pub tail: usize,
    pub len: usize,
}

impl View for PixelQueue {
    type V = Seq<Pixel>;

    /// The queued pixels, oldest first.
    open spec fn view(&self) -> Seq<Pixel> {
        Seq::new(self.len as nat, |i: int| self.data[(self.head + i) % 16])
    }
}

impl PixelQueue {
    pub open spec fn wf(&self) -> bool {
        &&& self.head < QUEUE_CAPACITY
        &&& self.len <= QUEUE_CAPACITY
        &&& self.tail == (self.head + self.len) % 16
    }

    pub fn new() -> (q: PixelQueue)
        ensures
            q.wf(),
            q@ == Seq::<Pixel>::empty(),
    {
        let q = PixelQueue { data: [Pixel::new(0, 0, false, false);16], head: 0, tail: 0, len: 0 };
        assert(q@ =~= Seq::<Pixel>::empty());
        q
    }

    /// Appends a pixel unless the queue is full, and says whether it did.
    pub fn push(&mut self, pixel: Pixel) -> (pushed: bool)
        requires
            old(self).wf(),
        ensures
            final(self).wf(),
            pushed == (old(self)@.len() < QUEUE_CAPACITY),
            pushed ==> final(self)@ == old(self)@.push(pixel),
            !pushed ==> final(self)@ == old(self)@,
    {
        if self.len == QUEUE_CAPACITY {
            false
        } else {
            self.data[self.tail] = pixel;
            self.tail = (self.tail + 1) % QUEUE_CAPACITY;
            self.len = self.len + 1;
            proof {
                assert forall|i: int| 0 <= i < self.len implies self@[i] == old(self)@.push(
                    pixel,
                )[i] by {
                    if i < old(self).len {
                        assert((old(self).head + i) % 16 != old(self).tail as int);
                    }
                }
                assert(self@ =~= old(self)@.push(pixel));
            }
            true
        }
    }

    /// Takes the oldest pixel, if there is one.
    pub fn pop(&mut self) -> (front: Option<Pixel>)
        requires
            old(self).wf(),
        ensures
            final(self).wf(),
            old(self)@.len() == 0 ==> front is None && final(self)@ == old(self)@,
            old(self)@.len() > 0 ==> front == Some(old(self)@[0]) && final(self)@ == old(
                self,
            )@.drop_first(),
    {
        if self.len == 0 {
            None
        } else {
            let pixel = self.data[self.head];
            self.head = (self.head + 1) % QUEUE_CAPACITY;
            self.len = self.len - 1;
            proof {
                assert(old(self)@[0] == old(self).data[(old(self).head + 0) % 16]);
                assert forall|i: int| 0 <= i < self.len implies self@[i] == old(
                    self,
                )@.drop_first()[i] by {
                    assert((self.head + i) % 16 == (old(self).head + (i + 1)) % 16);
                }
                assert(self@ =~= old(self)@.drop_first());
            }
            Some(pixel)
        }
    }

    pub fn len(&self) -> (n: usize)
        ensures
            n == self@.len(),
    {
        self.len
    }

    pub fn clear(&mut self)
        ensures
            final(self).wf(),
            final(self)@ == Seq::<Pixel>::empty(),
    {
        self.head = 0;
        self.tail = 0;
        self.len = 0;
        assert(self@ =~= Seq::<Pixel>::empty());
    }
}

} // verus!
