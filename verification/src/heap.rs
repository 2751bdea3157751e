//! A heap of stones, its place on the screen, and the move that a click on
//! it asks for.

use vstd::prelude::*;
use crate::geometry::{clamped_position, Point, Rect, MAX_COORDINATE};

verus! {

/// Where a heap stands on the screen: its stones form one column below
/// `(corner_x, corner_y)`, each `stone_width` wide and `stone_height` high,
/// inside `area`.
#[derive(Clone, Copy, PartialEq, Eq, Debug, Structural)]
pub struct HeapLayout {
    pub corner_x: i32,
    pub corner_y: i32,
    pub stone_width: u32,
    pub stone_height: u32,
    pub area: Rect,
}

/// A request to take `count_to_remove` stones from the heap at `heap_index`.
#[derive(Clone, Copy, PartialEq, Eq, Debug, Structural)]
pub struct NimMove {
    pub heap_index: usize,
    pub count_to_remove: u32,
}

/// A pile of stones with room for `size` of them, and its place on the
/// screen. It never holds more stones than it has room for.
pub struct NimHeap {
    size: u32,
    count: u32,
    layout: HeapLayout,
}

impl NimHeap {
    #[verifier::type_invariant]
    spec fn within_capacity(self) -> bool {
        self.count <= self.size
    }

    /// Most stones that the heap can hold.
    pub closed spec fn capacity(self) -> u32 {
        self.size
    }

    /// Stones that are left in the heap.
    pub closed spec fn stones(self) -> u32 {
        self.count
    }

    /// The heap's place on the screen.
    pub closed spec fn layout(self) -> HeapLayout {
        self.layout
    }

    /// The same heap with `n` stones fewer.
    pub closed spec fn without(self, n: u32) -> NimHeap {
        NimHeap { size: self.size, count: (self.count - n) as u32, layout: self.layout }
    }

    /// The layout of a heap that has not been placed yet.
    pub open spec fn initial_layout() -> HeapLayout {
        HeapLayout {
            corner_x: 0,
            corner_y: 0,
            stone_width: 1,
            stone_height: 1,
            area: Rect::clamped(0, 0, 1, 1),
        }
    }

    /// The pixels of the `n`-th stone from the top: the free slots come
    /// first, then the stones, each one stone height below the one before.
    /// A row beyond the bounds on positions counts as the last row within.
    pub open spec fn stone_rect(self, n: u32) -> Rect {
        Rect::clamped(
            self.layout().corner_x as int,
            self.layout().corner_y + (self.capacity() - self.stones() + n)
                * self.layout().stone_height,
            self.layout().stone_width as int,
            self.layout().stone_height as int,
        )
    }

    /// The `i`-th stone from the top is the first one that holds `point`.
    pub open spec fn is_first_hit(self, point: Point, i: u32) -> bool {
        &&& i < self.stones()
        &&& self.stone_rect(i).contains(point)
        &&& forall|j: u32| j < i ==> !(#[trigger] self.stone_rect(j)).contains(point)
    }

    /// No stone of the heap holds `point`.
    pub open spec fn misses(self, point: Point) -> bool {
        forall|j: u32| j < self.stones() ==> !(#[trigger] self.stone_rect(j)).contains(point)
    }

    /// Taking stones away changes the number of stones and nothing else.
    pub proof fn lemma_without(self, n: u32)
        requires
            n <= self.stones(),
        ensures
            self.without(n).stones() == self.stones() - n,
            self.without(n).capacity() == self.capacity(),
            self.without(n).layout() == self.layout(),
            self.without(0) == self,
    {
    }

    /// A heap with room for `size` stones that holds `count` of them, or
    /// `size` where `count` is more.
    pub fn new(size: u32, count: u32) -> (heap: NimHeap)
        ensures
            heap.capacity() == size,
            heap.stones() == if count <= size { count } else { size },
            heap.layout() == NimHeap::initial_layout(),
    {
        NimHeap {
            size,
            count: if count <= size { count } else { size },
            layout: HeapLayout {
                corner_x: 0,
                corner_y: 0,
                stone_width: 1,
                stone_height: 1,
                area: Rect::new(0, 0, 1, 1),
            },
        }
    }

    /// Stones that are left: never more than the heap has room for.
    pub fn get_count(&self) -> (count: u32)
        ensures
            count == self.stones(),
            0 <= count <= self.capacity(),
    {
        proof {
            use_type_invariant(self);
        }
        self.count
    }

    /// Most stones that the heap can hold.
    pub fn get_size(&self) -> (size: u32)
        ensures
            size == self.capacity(),
            self.stones() <= size,
    {
        proof {
            use_type_invariant(self);
        }
        self.size
    }

    /// The heap's place on the screen.
    pub fn get_layout(&self) -> (layout: HeapLayout)
        ensures
            layout == self.layout(),
    {
        self.layout
    }

    /// The pixels of the `n`-th stone from the top.
    pub fn get_nth_stone_rect(&self, n: u32) -> (rect: Rect)
        ensures
            rect == self.stone_rect(n),
    {
        proof {
            use_type_invariant(self);
        }
        let empty_slots_count: u32 = self.size - self.count;
        let slot: u64 = empty_slots_count as u64 + n as u64;
        let height: u64 = self.layout.stone_height as u64;
        assert(slot * height <= 0x2_0000_0000 * 0x1_0000_0000) by (nonlinear_arith)
            requires
                0 <= slot <= 0x2_0000_0000,
                0 <= height <= 0x1_0000_0000,
        ;
        let offset: u128 = slot as u128 * height as u128;
        let x: i32 = self.layout.corner_x;
        let y: i32 = if offset > 0xffff_ffff {
            MAX_COORDINATE
        } else {
            let below: i64 = self.layout.corner_y as i64 + offset as i64;
            if below > MAX_COORDINATE as i64 {
                MAX_COORDINATE
            } else {
                below as i32
            }
        };
        assert(clamped_position(y as int) == clamped_position(
            self.layout.corner_y + (self.size - self.count + n) * self.layout.stone_height,
        ));
        Rect::new(x, y, self.layout.stone_width, self.layout.stone_height)
    }

    /// Places the heap in `area_rectangle`, with stones as wide as the
    /// rectangle and `stone_height` high. The stones stay as they are.
    pub fn set_heap_sizes(&mut self, area_rectangle: Rect, stone_height: u32)
        ensures
            final(self).stones() == old(self).stones(),
            final(self).capacity() == old(self).capacity(),
            final(self).layout() == (HeapLayout {
                corner_x: area_rectangle.x,
                corner_y: area_rectangle.y,
                stone_width: area_rectangle.width,
                stone_height,
                area: area_rectangle,
            }),
    {
        proof {
            use_type_invariant(&*self);
        }
        self.layout = HeapLayout {
            corner_x: area_rectangle.x,
            corner_y: area_rectangle.y,
            stone_width: area_rectangle.width,
            stone_height,
            area: area_rectangle,
        };
    }

    /// Takes `n` stones away. The caller has checked that the heap holds
    /// that many.
    pub fn apply_removal(&mut self, n: u32)
        requires
            1 <= n <= old(self).stones(),
        ensures
            *final(self) == old(self).without(n),
            final(self).stones() == old(self).stones() - n,
            final(self).capacity() == old(self).capacity(),
            final(self).layout() == old(self).layout(),
    {
        proof {
            use_type_invariant(&*self);
        }
        self.count = self.count - n;
    }

    /// The move that a click on `point` asks for: the stone that holds the
    /// point goes, and those above it. The first stone from the top that
    /// holds the point decides; without one there is no move.
    pub fn prepare_move(&self, heap_index: usize, point: Point) -> (result: Option<NimMove>)
        ensures
            match result {
                None => self.misses(point),
                Some(nim_move) => {
                    &&& nim_move.heap_index == heap_index
                    &&& 1 <= nim_move.count_to_remove <= self.stones()
                    &&& self.is_first_hit(point, (nim_move.count_to_remove - 1) as u32)
                },
            },
    {
        let mut i: u32 = 0;
        while i < self.count
            invariant
                i <= self.count,
                forall|j: u32| j < i ==> !(#[trigger] self.stone_rect(j)).contains(point),
            decreases self.count - i,
        {
            let stone_rect = self.get_nth_stone_rect(i);
            if stone_rect.contains_point(point) {
                return Some(NimMove { heap_index, count_to_remove: i + 1 });
            }
            i = i + 1;
        }
        None
    }

    /// The pointer at `point` is over the heap's area.
    pub fn is_hovered(&self, point: Point) -> (hovered: bool)
        ensures
            hovered == self.layout().area.contains(point),
    {
        self.layout.area.contains_point(point)
    }

    /// Stones, counted from the top, that are shown as selected while the
    /// pointer is at `point`: none while the pointer is outside the heap's
    /// area; else the stone under the pointer and those above it, or all of
    /// them where no stone is under the pointer.
    pub fn highlighted_stones(&self, point: Point) -> (n: u32)
        ensures
            n <= self.stones(),
            !self.layout().area.contains(point) ==> n == 0,
            self.layout().area.contains(point) && self.misses(point) ==> n == self.stones(),
            self.layout().area.contains(point) && !self.misses(point) ==> n >= 1
                && self.is_first_hit(point, (n - 1) as u32),
    {
        if !self.is_hovered(point) {
            return 0;
        }
        match self.prepare_move(0, point) {
            Some(nim_move) => nim_move.count_to_remove,
            None => self.count,
        }
    }
}

impl Clone for NimHeap {
    fn clone(&self) -> (heap: NimHeap)
        ensures
            heap == *self,
    {
        proof {
            use_type_invariant(self);
        }
        NimHeap { size: self.size, count: self.count, layout: self.layout }
    }
}

} // verus!
