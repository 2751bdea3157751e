use nim_game::game::NimGame;
use nim_game::heap::{NimHeap, NimMove};
use nim_game::system::Player;

fn game_of(counts: &[u32]) -> NimGame {
    let mut game = NimGame::new(NimHeap::new(40, 10));
    for &count in counts {
        game.add_heap(NimHeap::new(40, count));
    }
    game
}

fn counts_of(game: &NimGame) -> Vec<u32> {
    let mut counts = Vec::new();
    for i in 0..game.heap_count() {
        counts.push(game.get_heap(i).unwrap().get_count());
    }
    counts
}

fn xor_of(counts: &[u32]) -> u32 {
    counts.iter().fold(0, |acc, count| acc ^ count)
}

#[test]
fn heap_count_is_clamped_to_size() {
    assert_eq!(NimHeap::new(5, 9).get_count(), 5);
    assert_eq!(NimHeap::new(5, 5).get_count(), 5);
    assert_eq!(NimHeap::new(5, 3).get_count(), 3);
    assert_eq!(NimHeap::new(0, 3).get_count(), 0);
    assert_eq!(NimHeap::new(5, 9).get_size(), 5);
    assert_eq!(NimHeap::new(u32::MAX, u32::MAX).get_count(), u32::MAX);
}

#[test]
fn heap_removal_takes_exactly_n() {
    let mut heap = NimHeap::new(10, 7);
    heap.apply_removal(3);
    assert_eq!(heap.get_count(), 4);
    assert_eq!(heap.get_size(), 10);
    heap.apply_removal(4);
    assert_eq!(heap.get_count(), 0);
}

#[test]
fn counts_stay_within_capacity_through_a_game() {
    let mut game = game_of(&[3, 5, 7, 40, 100]);
    let mut pick = 0usize;
    while let Some(nim_move) = game.prepare_ai_move_with(pick) {
        assert!(game.make_move(nim_move));
        for i in 0..game.heap_count() {
            let heap = game.get_heap(i).unwrap();
            assert!(heap.get_count() <= heap.get_size());
        }
        pick += 7;
    }
    assert!(game.is_game_over());
}

#[test]
fn new_game_has_no_heaps_and_player_one_moves() {
    let game = NimGame::new(NimHeap::new(40, 10));
    assert_eq!(game.heap_count(), 0);
    assert_eq!(*game.get_player_to_move(), Player::One);
    assert!(game.is_game_over());
    assert!(game.prepare_ai_move().is_none());
    assert!(game.get_heap(0).is_none());
    assert_eq!(game.board_rows(), 1);
}

#[test]
fn heaps_are_added_and_removed_at_the_end() {
    let mut game = NimGame::new(NimHeap::new(40, 10));
    game.add_heap(NimHeap::new(8, 3));
    game.add_default_heap();
    game.add_heap(NimHeap::new(50, 50));
    assert_eq!(counts_of(&game), vec![3, 10, 50]);
    assert_eq!(game.get_heap(1).unwrap().get_size(), 40);
    assert_eq!(game.board_rows(), 50);
    game.remove_last_heap();
    assert_eq!(counts_of(&game), vec![3, 10]);
    assert_eq!(game.board_rows(), 40);
    game.remove_last_heap();
    game.remove_last_heap();
    game.remove_last_heap();
    assert_eq!(game.heap_count(), 0);
    assert_eq!(*game.get_player_to_move(), Player::One);
}

#[test]
fn picked_heap_holds_pick_modulo_room_plus_one() {
    let mut game = NimGame::new(NimHeap::new(40, 10));
    game.add_picked_heap(0);
    game.add_picked_heap(39);
    game.add_picked_heap(40);
    game.add_picked_heap(123);
    assert_eq!(counts_of(&game), vec![1, 40, 1, 4]);
    let mut none = NimGame::new(NimHeap::new(0, 0));
    none.add_picked_heap(17);
    assert_eq!(counts_of(&none), vec![0]);
    assert_eq!(none.get_heap(0).unwrap().get_size(), 0);
}

#[test]
fn random_heap_holds_a_stone_and_fits() {
    let mut game = NimGame::new(NimHeap::new(6, 2));
    for _ in 0..50 {
        game.add_random_heap();
    }
    assert_eq!(game.heap_count(), 50);
    for i in 0..50 {
        let heap = game.get_heap(i).unwrap();
        assert_eq!(heap.get_size(), 6);
        assert!(1 <= heap.get_count() && heap.get_count() <= 6);
    }
}

#[test]
fn switch_player_alternates() {
    let mut game = game_of(&[1]);
    game.switch_player();
    assert_eq!(*game.get_player_to_move(), Player::Two);
    game.switch_player();
    assert_eq!(*game.get_player_to_move(), Player::One);
    assert_eq!(Player::One.next(), Player::Two);
    assert_eq!(Player::Two.next(), Player::One);
    assert_eq!(Player::One.next().next(), Player::One);
}

#[test]
fn successful_move_changes_one_heap_and_flips_turn() {
    let mut game = game_of(&[3, 5, 7]);
    assert!(game.make_move(NimMove { heap_index: 1, count_to_remove: 4 }));
    assert_eq!(counts_of(&game), vec![3, 1, 7]);
    assert_eq!(*game.get_player_to_move(), Player::Two);
    assert!(game.make_move(NimMove { heap_index: 2, count_to_remove: 7 }));
    assert_eq!(counts_of(&game), vec![3, 1, 0]);
    assert_eq!(*game.get_player_to_move(), Player::One);
    assert_eq!(game.get_heap(2).unwrap().get_size(), 40);
}

#[test]
fn rejected_move_changes_nothing() {
    let mut game = game_of(&[3, 5, 7]);
    assert!(!game.make_move(NimMove { heap_index: 0, count_to_remove: 4 }));
    assert!(!game.make_move(NimMove { heap_index: 3, count_to_remove: 1 }));
    assert!(!game.make_move(NimMove { heap_index: usize::MAX, count_to_remove: 1 }));
    assert!(!game.make_move(NimMove { heap_index: 1, count_to_remove: 0 }));
    assert!(!game.make_move(NimMove { heap_index: 1, count_to_remove: u32::MAX }));
    assert_eq!(counts_of(&game), vec![3, 5, 7]);
    assert_eq!(*game.get_player_to_move(), Player::One);
}

#[test]
fn move_may_empty_a_heap_exactly() {
    let mut game = game_of(&[3]);
    assert!(game.make_move(NimMove { heap_index: 0, count_to_remove: 3 }));
    assert_eq!(counts_of(&game), vec![0]);
    assert!(game.is_game_over());
    assert!(!game.make_move(NimMove { heap_index: 0, count_to_remove: 1 }));
    assert_eq!(*game.get_player_to_move(), Player::Two);
}

#[test]
fn game_is_over_exactly_when_no_stone_is_left() {
    for a in 0..4u32 {
        for b in 0..4u32 {
            for c in 0..4u32 {
                let game = game_of(&[a, b, c]);
                assert_eq!(game.is_game_over(), a + b + c == 0);
                assert_eq!(game.is_game_over(), a.max(b).max(c) == 0);
            }
        }
    }
}

#[test]
fn nim_sum_is_xor_of_counts() {
    assert_eq!(game_of(&[]).nim_sum(), 0);
    assert_eq!(game_of(&[3, 5, 7]).nim_sum(), 1);
    assert_eq!(game_of(&[4, 4]).nim_sum(), 0);
    assert_eq!(game_of(&[1, 2, 3]).nim_sum(), 0);
    assert_eq!(game_of(&[12, 10]).nim_sum(), 6);
}

#[test]
fn optimal_move_zeroes_the_nim_sum_on_small_positions() {
    for a in 0..8u32 {
        for b in 0..8u32 {
            for c in 0..8u32 {
                for pick in 0..4usize {
                    let mut game = game_of(&[a, b, c]);
                    let before = vec![a, b, c];
                    let result = game.prepare_ai_move_with(pick);
                    if a + b + c == 0 {
                        assert!(result.is_none());
                        continue;
                    }
                    let nim_move = result.unwrap();
                    assert!(nim_move.heap_index < 3);
                    assert!(nim_move.count_to_remove >= 1);
                    assert!(nim_move.count_to_remove <= before[nim_move.heap_index]);
                    if xor_of(&before) == 0 {
                        assert_eq!(nim_move.count_to_remove, 1);
                    }
                    let was_winning = xor_of(&before) != 0;
                    assert!(game.make_move(nim_move));
                    if was_winning {
                        assert_eq!(game.nim_sum(), 0);
                    }
                }
            }
        }
    }
}

#[test]
fn three_five_seven_has_three_winning_moves() {
    let game = game_of(&[3, 5, 7]);
    assert_eq!(game.prepare_ai_move_with(0), Some(NimMove { heap_index: 0, count_to_remove: 1 }));
    assert_eq!(game.prepare_ai_move_with(1), Some(NimMove { heap_index: 1, count_to_remove: 1 }));
    assert_eq!(game.prepare_ai_move_with(2), Some(NimMove { heap_index: 2, count_to_remove: 1 }));
    assert_eq!(game.prepare_ai_move_with(3), Some(NimMove { heap_index: 0, count_to_remove: 1 }));
    for _ in 0..20 {
        let mut game = game_of(&[3, 5, 7]);
        let nim_move = game.prepare_ai_move().unwrap();
        assert!(game.make_move(nim_move));
        assert_eq!(game.nim_sum(), 0);
    }
}

#[test]
fn balanced_pair_still_gets_a_move() {
    let mut game = game_of(&[4, 4]);
    assert_eq!(game.prepare_ai_move_with(0), Some(NimMove { heap_index: 0, count_to_remove: 1 }));
    assert_eq!(game.prepare_ai_move_with(1), Some(NimMove { heap_index: 1, count_to_remove: 1 }));
    let nim_move = game.prepare_ai_move().unwrap();
    assert_eq!(nim_move.count_to_remove, 1);
    assert!(game.make_move(nim_move));
    assert!(!game.is_game_over());
    assert_eq!(*game.get_player_to_move(), Player::Two);
}

#[test]
fn one_two_three_takes_a_single_stone() {
    let game = game_of(&[1, 2, 3]);
    for pick in 0..6usize {
        let nim_move = game.prepare_ai_move_with(pick).unwrap();
        assert_eq!(nim_move.heap_index, pick % 3);
        assert_eq!(nim_move.count_to_remove, 1);
    }
}

#[test]
fn single_empty_heap_is_over_and_has_no_move() {
    let game = game_of(&[0]);
    assert!(game.is_game_over());
    assert!(game.prepare_ai_move().is_none());
    assert!(game.prepare_ai_move_with(5).is_none());
}

#[test]
fn taking_no_stone_is_rejected() {
    let mut game = NimGame::new(NimHeap::new(5, 5));
    game.add_heap(NimHeap::new(5, 5));
    assert!(!game.make_move(NimMove { heap_index: 0, count_to_remove: 0 }));
    assert_eq!(game.get_heap(0).unwrap().get_count(), 5);
    assert_eq!(*game.get_player_to_move(), Player::One);
}

#[test]
fn heap_index_out_of_range_is_rejected() {
    let mut game = game_of(&[3, 5, 7]);
    assert!(!game.make_move(NimMove { heap_index: 5, count_to_remove: 1 }));
    assert_eq!(counts_of(&game), vec![3, 5, 7]);
    assert_eq!(*game.get_player_to_move(), Player::One);
}

#[test]
fn optimal_move_skips_heaps_that_cannot_win() {
    // nim-sum of 12 and 10 is 6: only the heap of 12 shrinks under it.
    let game = game_of(&[12, 10]);
    for pick in 0..5usize {
        assert_eq!(
            game.prepare_ai_move_with(pick),
            Some(NimMove { heap_index: 0, count_to_remove: 2 })
        );
    }
    let single = game_of(&[0, 9, 0]);
    assert_eq!(
        single.prepare_ai_move_with(usize::MAX),
        Some(NimMove { heap_index: 1, count_to_remove: 9 })
    );
}

#[test]
fn optimal_play_always_reaches_the_end() {
    let mut game = game_of(&[9, 14, 2, 31, 31, 7]);
    let mut moves = 0u32;
    while !game.is_game_over() {
        let nim_move = game.prepare_ai_move().unwrap();
        assert!(game.make_move(nim_move));
        moves += 1;
        assert!(moves <= 94);
    }
    assert!(game.prepare_ai_move().is_none());
}

#[test]
fn heap_clone_keeps_everything() {
    let mut heap = NimHeap::new(12, 7);
    heap.set_heap_sizes(nim_game::geometry::Rect::new(3, 4, 50, 60), 5);
    let copy = heap.clone();
    assert_eq!(copy.get_count(), 7);
    assert_eq!(copy.get_size(), 12);
    assert_eq!(copy.get_layout(), heap.get_layout());
}
