//! The game on a row of heaps: the rules of a move, whose turn it is, when
//! the game has ended, and the move of the nim-sum strategy.

use vstd::prelude::*;
use crate::geometry::{Point, Rect};
use crate::heap::{HeapLayout, NimHeap, NimMove};
use crate::nim_sum::{
    all_empty, candidates, is_candidate, largest, lemma_all_empty_iff_largest_zero,
    lemma_all_empty_iff_total_zero, lemma_candidates_empty_iff_over, lemma_candidates_sound,
    lemma_empty_position_nim_sum, lemma_nim_sum_update, lemma_total_update, nim_sum, removal,
    total,
};
use crate::system::Player;

verus! {

/// The counts of a row of heaps, heap by heap.
pub open spec fn counts_of(heaps: Seq<NimHeap>) -> Seq<u32> {
    Seq::new(heaps.len(), |i: int| heaps[i].stones())
}

/// The rules allow `nim_move` on a position of these counts: the heap
/// exists, and at least one stone goes and no more than the heap holds.
pub open spec fn is_legal(counts: Seq<u32>, nim_move: NimMove) -> bool {
    &&& nim_move.heap_index < counts.len()
    &&& 1 <= nim_move.count_to_remove <= counts[nim_move.heap_index as int]
}

/// The counts after `nim_move` has been made.
pub open spec fn counts_after(counts: Seq<u32>, nim_move: NimMove) -> Seq<u32>
    recommends
        is_legal(counts, nim_move),
{
    counts.update(
        nim_move.heap_index as int,
        (counts[nim_move.heap_index as int] - nim_move.count_to_remove) as u32,
    )
}

/// `nim_move` is what a click on `point` asks for: it is on the first heap of
/// the row with a stone that holds the point, and takes the first such stone
/// from the top and those above it.
pub open spec fn is_click_move(heaps: Seq<NimHeap>, point: Point, nim_move: NimMove) -> bool {
    &&& nim_move.heap_index < heaps.len()
    &&& nim_move.count_to_remove >= 1
    &&& heaps[nim_move.heap_index as int].is_first_hit(
        point,
        (nim_move.count_to_remove - 1) as u32,
    )
    &&& forall|k: int| 0 <= k < nim_move.heap_index ==> (#[trigger] heaps[k]).misses(point)
}

/// The move that a click on `point` asks for, if it asks for one.
pub open spec fn click_move(heaps: Seq<NimHeap>, point: Point) -> Option<NimMove> {
    if exists|nim_move: NimMove| is_click_move(heaps, point, nim_move) {
        Some(choose|nim_move: NimMove| is_click_move(heaps, point, nim_move))
    } else {
        None
    }
}

/// A click asks for one move at most.
pub proof fn lemma_click_move_unique(heaps: Seq<NimHeap>, point: Point, a: NimMove, b: NimMove)
    requires
        is_click_move(heaps, point, a),
        is_click_move(heaps, point, b),
    ensures
        a == b,
{
    let hit_a = (a.count_to_remove - 1) as u32;
    let hit_b = (b.count_to_remove - 1) as u32;
    assert(heaps[a.heap_index as int].stone_rect(hit_a).contains(point));
    assert(heaps[b.heap_index as int].stone_rect(hit_b).contains(point));
    if a.heap_index < b.heap_index {
        assert(heaps[a.heap_index as int].misses(point));
    }
    if b.heap_index < a.heap_index {
        assert(heaps[b.heap_index as int].misses(point));
    }
}

/// A click on a stone asks for a move that the rules allow.
pub proof fn lemma_click_move_is_legal(heaps: Seq<NimHeap>, point: Point)
    ensures
        click_move(heaps, point).is_some() ==> is_legal(
            counts_of(heaps),
            click_move(heaps, point).unwrap(),
        ),
{
}

/// The move of the nim-sum strategy on a position of these counts, where
/// `pick` decides between the heaps that the strategy may play on: the one
/// at place `pick` modulo their number, in rising order of their indices.
/// While the nim-sum is not zero, the move brings it to zero. While it is
/// zero, one stone goes from a heap that has one. When no heap has a stone
/// there is no move.
pub open spec fn strategy_move(counts: Seq<u32>, pick: usize) -> Option<NimMove> {
    let x = nim_sum(counts);
    let heaps = candidates(counts, x, counts.len());
    if heaps.len() == 0 {
        None
    } else {
        let heap_index = heaps[pick as int % heaps.len() as int];
        Some(
            NimMove {
                heap_index,
                count_to_remove: removal(counts[heap_index as int], x) as u32,
            },
        )
    }
}

/// The strategy has a move exactly while some heap holds a stone, and its
/// move is always one that the rules allow.
pub proof fn lemma_strategy_move_is_legal(counts: Seq<u32>, pick: usize)
    requires
        counts.len() <= usize::MAX,
    ensures
        strategy_move(counts, pick).is_none() <==> all_empty(counts),
        strategy_move(counts, pick).is_some() ==> is_legal(
            counts,
            strategy_move(counts, pick).unwrap(),
        ),
        strategy_move(counts, pick).is_some() && nim_sum(counts) == 0 ==> strategy_move(
            counts,
            pick,
        ).unwrap().count_to_remove == 1,
{
    let x = nim_sum(counts);
    let heaps = candidates(counts, x, counts.len());
    lemma_candidates_empty_iff_over(counts);
    lemma_candidates_sound(counts, x, counts.len());
    if heaps.len() > 0 {
        let k = pick as int % heaps.len() as int;
        let heap_index = heaps[k];
        assert(is_candidate(counts[heap_index as int], x));
    }
}

/// From a position whose nim-sum is not zero, the strategy's move leads to
/// a position whose nim-sum is zero.
pub proof fn lemma_strategy_move_wins(counts: Seq<u32>, pick: usize)
    requires
        counts.len() <= usize::MAX,
        nim_sum(counts) != 0,
    ensures
        strategy_move(counts, pick).is_some(),
        is_legal(counts, strategy_move(counts, pick).unwrap()),
        nim_sum(counts_after(counts, strategy_move(counts, pick).unwrap())) == 0,
{
    let x = nim_sum(counts);
    lemma_strategy_move_is_legal(counts, pick);
    if all_empty(counts) {
        lemma_empty_position_nim_sum(counts);
    }
    let nim_move = strategy_move(counts, pick).unwrap();
    let c = counts[nim_move.heap_index as int];
    let heaps = candidates(counts, x, counts.len());
    lemma_candidates_sound(counts, x, counts.len());
    let k = pick as int % heaps.len() as int;
    assert(is_candidate(counts[heaps[k] as int], x));
    assert((c - nim_move.count_to_remove) as u32 == c ^ x);
    lemma_nim_sum_update(counts, nim_move.heap_index as int, c ^ x);
    assert((x ^ c) ^ (c ^ x) == 0) by (bit_vector);
}

/// A number drawn at random by `rand::random::<usize>()`. Nothing is claimed
/// of it: every `usize` may come back.
#[verifier::external_body]
pub(crate) fn random_index() -> (pick: usize) {
    rand::random::<usize>()
}

/// A game of Nim: a row of heaps, the player to move, and the heap that
/// `add_default_heap` adds copies of.
pub struct NimGame {
    heaps: Vec<NimHeap>,
    player: Player,
    default_heap: NimHeap,
}

impl NimGame {
    /// The heaps, in the order in which moves address them.
    pub closed spec fn heaps(self) -> Seq<NimHeap> {
        self.heaps@
    }

    /// The player who is to move.
    pub closed spec fn player(self) -> Player {
        self.player
    }

    /// The heap that `add_default_heap` adds copies of.
    pub closed spec fn default_heap(self) -> NimHeap {
        self.default_heap
    }

    /// The number of stones in each heap.
    pub open spec fn counts(self) -> Seq<u32> {
        counts_of(self.heaps())
    }

    /// The game has ended: no heap holds a stone.
    pub open spec fn is_over(self) -> bool {
        all_empty(self.counts())
    }

    /// `next` holds the same heaps, player to move and default heap.
    pub open spec fn same_as(self, next: NimGame) -> bool {
        &&& next.heaps() == self.heaps()
        &&& next.player() == self.player()
        &&& next.default_heap() == self.default_heap()
    }

    /// `next` is this game after `make_move` was called with `nim_move`: a
    /// move that the rules allow has taken its stones from its heap and
    /// passed the turn on; one that they refuse has changed nothing.
    pub open spec fn moved_to(self, nim_move: NimMove, next: NimGame) -> bool {
        if is_legal(self.counts(), nim_move) {
            &&& next.heaps() == self.heaps().update(
                nim_move.heap_index as int,
                self.heaps()[nim_move.heap_index as int].without(nim_move.count_to_remove),
            )
            &&& next.counts() == counts_after(self.counts(), nim_move)
            &&& next.player() == self.player().other()
            &&& next.default_heap() == self.default_heap()
        } else {
            self.same_as(next)
        }
    }

    /// `next` is this game after `place_heap` was called with these
    /// arguments: the heap at `index`, where there is one, has its corner and
    /// the width of its stones from `area_rectangle` and stones of the
    /// height `stone_height`, and holds what it held; nothing else differs.
    pub open spec fn placed_to(
        self,
        index: usize,
        area_rectangle: Rect,
        stone_height: u32,
        next: NimGame,
    ) -> bool {
        &&& next.player() == self.player()
        &&& next.default_heap() == self.default_heap()
        &&& next.heaps().len() == self.heaps().len()
        &&& forall|i: int|
            0 <= i < self.heaps().len() && i != index ==> #[trigger] next.heaps()[i]
                == self.heaps()[i]
        &&& index < self.heaps().len() ==> {
            &&& next.heaps()[index as int].stones() == self.heaps()[index as int].stones()
            &&& next.heaps()[index as int].capacity() == self.heaps()[index as int].capacity()
            &&& next.heaps()[index as int].layout() == (HeapLayout {
                corner_x: area_rectangle.x,
                corner_y: area_rectangle.y,
                stone_width: area_rectangle.width,
                stone_height,
                area: area_rectangle,
            })
        }
    }

    /// A move takes stones and does nothing else to the heaps: there are as
    /// many heaps after it as before, no heap holds more stones than it did,
    /// and each has the room and the place that it had.
    pub proof fn lemma_move_only_takes_stones(self, nim_move: NimMove, next: NimGame)
        requires
            self.moved_to(nim_move, next),
        ensures
            next.heaps().len() == self.heaps().len(),
            forall|i: int|
                0 <= i < self.heaps().len() ==> {
                    &&& (#[trigger] next.heaps()[i]).stones() <= self.heaps()[i].stones()
                    &&& next.heaps()[i].capacity() == self.heaps()[i].capacity()
                    &&& next.heaps()[i].layout() == self.heaps()[i].layout()
                },
            total(next.counts()) <= total(self.counts()),
            is_legal(self.counts(), nim_move) ==> total(next.counts()) == total(self.counts())
                - nim_move.count_to_remove,
    {
        if is_legal(self.counts(), nim_move) {
            let heap = self.heaps()[nim_move.heap_index as int];
            heap.lemma_without(nim_move.count_to_remove);
            assert(heap.stones() == self.counts()[nim_move.heap_index as int]);
            lemma_total_update(
                self.counts(),
                nim_move.heap_index as int,
                (heap.stones() - nim_move.count_to_remove) as u32,
            );
        } else {
            assert(next.counts() =~= self.counts());
        }
    }

    /// A game without heaps, in which player one moves first.
    pub fn new(default_heap: NimHeap) -> (game: NimGame)
        ensures
            game.heaps() == Seq::<NimHeap>::empty(),
            game.player() == Player::One,
            game.default_heap() == default_heap,
    {
        NimGame { heaps: Vec::new(), player: Player::One, default_heap }
    }

    /// Adds `heap` at the end of the row.
    pub fn add_heap(&mut self, heap: NimHeap)
        ensures
            final(self).heaps() == old(self).heaps().push(heap),
            final(self).player() == old(self).player(),
            final(self).default_heap() == old(self).default_heap(),
    {
        self.heaps.push(heap);
    }

    /// Adds a copy of the default heap at the end of the row.
    pub fn add_default_heap(&mut self)
        ensures
            final(self).heaps() == old(self).heaps().push(old(self).default_heap()),
            final(self).player() == old(self).player(),
            final(self).default_heap() == old(self).default_heap(),
    {
        let heap = self.default_heap.clone();
        self.heaps.push(heap);
    }

    /// Adds a heap with as much room as the default heap has. It holds
    /// between one stone and as many as it has room for: `pick` modulo the
    /// room, and one more. A heap without room stays empty.
    pub fn add_picked_heap(&mut self, pick: usize)
        ensures
            final(self).heaps().len() == old(self).heaps().len() + 1,
            final(self).heaps().drop_last() == old(self).heaps(),
            final(self).heaps().last().capacity() == old(self).default_heap().capacity(),
            final(self).heaps().last().layout() == NimHeap::initial_layout(),
            final(self).heaps().last().stones() == if old(self).default_heap().capacity() == 0 {
                0
            } else {
                pick as int % old(self).default_heap().capacity() as int + 1
            },
            final(self).player() == old(self).player(),
            final(self).default_heap() == old(self).default_heap(),
    {
        let size: u32 = self.default_heap.get_size();
        let count: u32 = if size == 0 {
            0
        } else {
            let below: usize = pick % (size as usize);
            below as u32 + 1
        };
        let heap = NimHeap::new(size, count);
        self.heaps.push(heap);
        assert(self.heaps@.drop_last() =~= old(self).heaps@);
    }

    /// Adds a heap with as much room as the default heap has and a number
    /// of stones drawn at random: at least one, where there is room.
    pub fn add_random_heap(&mut self)
        ensures
            final(self).heaps().len() == old(self).heaps().len() + 1,
            final(self).heaps().drop_last() == old(self).heaps(),
            final(self).heaps().last().capacity() == old(self).default_heap().capacity(),
            final(self).heaps().last().layout() == NimHeap::initial_layout(),
            final(self).heaps().last().stones() <= old(self).default_heap().capacity(),
            old(self).default_heap().capacity() > 0 ==> final(self).heaps().last().stones() >= 1,
            final(self).player() == old(self).player(),
            final(self).default_heap() == old(self).default_heap(),
    {
        let pick = random_index();
        self.add_picked_heap(pick);
    }

    /// Takes the last heap away, where there is one.
    pub fn remove_last_heap(&mut self)
        ensures
            final(self).heaps() == if old(self).heaps().len() > 0 {
                old(self).heaps().drop_last()
            } else {
                old(self).heaps()
            },
            final(self).player() == old(self).player(),
            final(self).default_heap() == old(self).default_heap(),
    {
        self.heaps.pop();
        assert(self.heaps@ =~= if old(self).heaps@.len() > 0 {
            old(self).heaps@.drop_last()
        } else {
            old(self).heaps@
        });
    }

    /// Passes the turn to the other player.
    pub fn switch_player(&mut self)
        ensures
            final(self).player() == old(self).player().other(),
            final(self).heaps() == old(self).heaps(),
            final(self).default_heap() == old(self).default_heap(),
    {
        self.player = self.player.next();
    }

    /// Makes `nim_move` if the rules allow it, and says whether they did.
    /// A move that is made takes its stones from its heap, leaves every
    /// other heap as it was, and passes the turn to the other player. A move
    /// that is refused changes nothing.
    pub fn make_move(&mut self, nim_move: NimMove) -> (made: bool)
        ensures
            made == is_legal(old(self).counts(), nim_move),
            old(self).moved_to(nim_move, *final(self)),
            made ==> final(self).heaps() == old(self).heaps().update(
                nim_move.heap_index as int,
                old(self).heaps()[nim_move.heap_index as int].without(nim_move.count_to_remove),
            ),
            made ==> final(self).counts() == counts_after(old(self).counts(), nim_move),
            made ==> final(self).player() == old(self).player().other(),
            !made ==> final(self).heaps() == old(self).heaps(),
            !made ==> final(self).player() == old(self).player(),
            final(self).default_heap() == old(self).default_heap(),
            final(self).heaps().len() == old(self).heaps().len(),
            forall|i: int|
                0 <= i < old(self).heaps().len() ==> {
                    &&& (#[trigger] final(self).heaps()[i]).stones() <= old(self).heaps()[i].stones()
                    &&& final(self).heaps()[i].capacity() == old(self).heaps()[i].capacity()
                    &&& final(self).heaps()[i].layout() == old(self).heaps()[i].layout()
                },
    {
        if nim_move.heap_index >= self.heaps.len() || nim_move.count_to_remove < 1 {
            return false;
        }
        let mut heap = self.heaps[nim_move.heap_index].clone();
        if heap.get_count() < nim_move.count_to_remove {
            return false;
        }
        heap.apply_removal(nim_move.count_to_remove);
        self.heaps.set(nim_move.heap_index, heap);
        self.switch_player();
        assert(self.counts() =~= counts_after(old(self).counts(), nim_move));
        true
    }

    /// The player who is to move.
    pub fn get_player_to_move(&self) -> (player: &Player)
        ensures
            *player == self.player(),
    {
        &self.player
    }

    /// Number of heaps in the row.
    pub fn heap_count(&self) -> (n: usize)
        ensures
            n == self.heaps().len(),
    {
        self.heaps.len()
    }

    /// The heap at `index`, where there is one.
    pub fn get_heap(&self, index: usize) -> (heap: Option<&NimHeap>)
        ensures
            index < self.heaps().len() ==> heap == Some(&self.heaps()[index as int]),
            index >= self.heaps().len() ==> heap.is_none(),
    {
        if index < self.heaps.len() {
            Some(&self.heaps[index])
        } else {
            None
        }
    }

    /// Whether the game has ended: every heap is empty. A game without
    /// heaps has ended.
    pub fn is_game_over(&self) -> (over: bool)
        ensures
            over == self.is_over(),
            over == (total(self.counts()) == 0),
            over == (largest(self.counts()) == 0),
    {
        proof {
            lemma_all_empty_iff_total_zero(self.counts());
            lemma_all_empty_iff_largest_zero(self.counts());
        }
        let mut i: usize = 0;
        while i < self.heaps.len()
            invariant
                i <= self.heaps.len(),
                forall|j: int| 0 <= j < i ==> self.counts()[j] == 0,
                self.is_over() == (total(self.counts()) == 0),
                self.is_over() == (largest(self.counts()) == 0),
            decreases self.heaps.len() - i,
        {
            if self.heaps[i].get_count() != 0 {
                assert(self.counts()[i as int] != 0);
                return false;
            }
            i = i + 1;
        }
        true
    }

    /// Most stones that any heap has room for, or 1 in a game without
    /// heaps: the number of rows that the board is drawn with.
    pub fn board_rows(&self) -> (rows: u32)
        ensures
            forall|i: int| 0 <= i < self.heaps().len() ==> self.heaps()[i].capacity() <= rows,
            self.heaps().len() == 0 ==> rows == 1,
            self.heaps().len() > 0 ==> exists|i: int|
                0 <= i < self.heaps().len() && (#[trigger] self.heaps()[i]).capacity() == rows,
    {
        if self.heaps.len() == 0 {
            return 1;
        }
        let mut rows: u32 = self.heaps[0].get_size();
        let mut i: usize = 1;
        assert(self.heaps()[0].capacity() == rows);
        while i < self.heaps.len()
            invariant
                1 <= i <= self.heaps.len(),
                forall|j: int| 0 <= j < i ==> self.heaps()[j].capacity() <= rows,
                exists|j: int| 0 <= j < i && (#[trigger] self.heaps()[j]).capacity() == rows,
            decreases self.heaps.len() - i,
        {
            let size: u32 = self.heaps[i].get_size();
            if size > rows {
                rows = size;
            }
            i = i + 1;
        }
        rows
    }

    /// Places the heap at `index` on the screen, where there is one, and
    /// says whether there was. Nothing else changes.
    pub fn place_heap(&mut self, index: usize, area_rectangle: Rect, stone_height: u32) -> (placed:
        bool)
        ensures
            placed == (index < old(self).heaps().len()),
            old(self).placed_to(index, area_rectangle, stone_height, *final(self)),
            final(self).counts() == old(self).counts(),
            final(self).player() == old(self).player(),
            final(self).default_heap() == old(self).default_heap(),
    {
        if index >= self.heaps.len() {
            return false;
        }
        let mut heap = self.heaps[index].clone();
        heap.set_heap_sizes(area_rectangle, stone_height);
        self.heaps.set(index, heap);
        assert(self.counts() =~= old(self).counts());
        true
    }

    /// The move that a click on `point` asks for: that of the first heap,
    /// in the order of the row, with a stone that holds the point. Such a
    /// move is one that the rules allow.
    pub fn prepare_player_move(&self, point: Point) -> (result: Option<NimMove>)
        ensures
            result == click_move(self.heaps(), point),
            match result {
                None => forall|k: int|
                    0 <= k < self.heaps().len() ==> (#[trigger] self.heaps()[k]).misses(point),
                Some(nim_move) => {
                    &&& is_legal(self.counts(), nim_move)
                    &&& self.heaps()[nim_move.heap_index as int].is_first_hit(
                        point,
                        (nim_move.count_to_remove - 1) as u32,
                    )
                    &&& forall|k: int|
                        0 <= k < nim_move.heap_index ==> (#[trigger] self.heaps()[k]).misses(point)
                },
            },
    {
        let mut i: usize = 0;
        while i < self.heaps.len()
            invariant
                i <= self.heaps.len(),
                forall|k: int| 0 <= k < i ==> (#[trigger] self.heaps()[k]).misses(point),
            decreases self.heaps.len() - i,
        {
            if let Some(nim_move) = self.heaps[i].prepare_move(i, point) {
                proof {
                    assert(is_click_move(self.heaps(), point, nim_move));
                    lemma_click_move_unique(
                        self.heaps(),
                        point,
                        nim_move,
                        click_move(self.heaps(), point).unwrap(),
                    );
                }
                return Some(nim_move);
            }
            i = i + 1;
        }
        proof {
            assert forall|nim_move: NimMove| !is_click_move(self.heaps(), point, nim_move) by {
                if is_click_move(self.heaps(), point, nim_move) {
                    let heap = self.heaps()[nim_move.heap_index as int];
                    assert(heap.misses(point));
                    assert(heap.stone_rect((nim_move.count_to_remove - 1) as u32).contains(point));
                }
            }
        }
        None
    }

    /// The nim-sum of the position.
    pub fn nim_sum(&self) -> (x: u32)
        ensures
            x == nim_sum(self.counts()),
    {
        let mut x: u32 = 0;
        let mut i: usize = 0;
        while i < self.heaps.len()
            invariant
                i <= self.heaps.len(),
                x == nim_sum(self.counts().take(i as int)),
            decreases self.heaps.len() - i,
        {
            assert(self.counts().take(i + 1).drop_last() =~= self.counts().take(i as int));
            x = x ^ self.heaps[i].get_count();
            i = i + 1;
        }
        assert(self.counts().take(i as int) =~= self.counts());
        x
    }

    /// The strategy's move on the position, with `pick` to decide between
    /// the heaps that it may play on.
    pub fn prepare_ai_move_with(&self, pick: usize) -> (result: Option<NimMove>)
        ensures
            result == strategy_move(self.counts(), pick),
            result.is_none() <==> self.is_over(),
            result.is_some() ==> is_legal(self.counts(), result.unwrap()),
            result.is_some() && nim_sum(self.counts()) != 0 ==> nim_sum(
                counts_after(self.counts(), result.unwrap()),
            ) == 0,
            result.is_some() && nim_sum(self.counts()) == 0 ==> result.unwrap().count_to_remove
                == 1,
    {
        let all_counts_xor: u32 = self.nim_sum();
        let mut suitable_indices: Vec<usize> = Vec::new();
        let mut i: usize = 0;
        while i < self.heaps.len()
            invariant
                i <= self.heaps.len(),
                suitable_indices@ == candidates(self.counts(), all_counts_xor, i as nat),
            decreases self.heaps.len() - i,
        {
            let count: u32 = self.heaps[i].get_count();
            let suitable = if all_counts_xor == 0 {
                count > 0
            } else {
                count > (count ^ all_counts_xor)
            };
            if suitable {
                suitable_indices.push(i);
            }
            i = i + 1;
        }
        proof {
            lemma_strategy_move_is_legal(self.counts(), pick);
            lemma_candidates_sound(self.counts(), all_counts_xor, self.counts().len());
            if all_counts_xor != 0 {
                lemma_strategy_move_wins(self.counts(), pick);
            }
        }
        if suitable_indices.len() == 0 {
            return None;
        }
        let vector_index: usize = pick % suitable_indices.len();
        let heap_index: usize = suitable_indices[vector_index];
        assert(is_candidate(self.counts()[heap_index as int], all_counts_xor));
        let heap_count: u32 = self.heaps[heap_index].get_count();
        let count_to_remove: u32 = if all_counts_xor == 0 {
            1
        } else {
            heap_count - (heap_count ^ all_counts_xor)
        };
        Some(NimMove { heap_index, count_to_remove })
    }

    /// The strategy's move on the position, with a number drawn at random
    /// to decide between the heaps that it may play on. There is a move
    /// exactly while the game has not ended, and the rules allow it. While
    /// the nim-sum is not zero the move brings it to zero; while it is zero
    /// the move takes one stone.
    pub fn prepare_ai_move(&self) -> (result: Option<NimMove>)
        ensures
            exists|pick: usize| result == strategy_move(self.counts(), pick),
            result.is_none() <==> self.is_over(),
            result.is_some() ==> is_legal(self.counts(), result.unwrap()),
            result.is_some() && nim_sum(self.counts()) != 0 ==> nim_sum(
                counts_after(self.counts(), result.unwrap()),
            ) == 0,
            result.is_some() && nim_sum(self.counts()) == 0 ==> result.unwrap().count_to_remove
                == 1,
    {
        let pick = random_index();
        self.prepare_ai_move_with(pick)
    }
}

} // verus!
