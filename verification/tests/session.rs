use nim_game::geometry::{Point, Rect};
use nim_game::game::NimGame;
use nim_game::heap::NimHeap;
use nim_game::system::{
    Event, Game, GameEvent, GameResult, GameSettings, Keycode, MouseButton, MouseState, Player,
    PlayerRoles, PlayerType,
};
use std::time::Duration;

fn settings(heaps_count: u32, max_stones_per_heap: u32) -> GameSettings {
    GameSettings {
        window_width: 1200,
        window_height: 800,
        microseconds_per_frame: 16_666,
        microseconds_per_ai_move: 500_000,
        heaps_count,
        max_stones_per_heap,
        target_colour_change_time: Duration::from_millis(500),
    }
}

fn session_of(counts: &[u32]) -> Game {
    let mut nim_game = NimGame::new(NimHeap::new(40, 10));
    for &count in counts {
        nim_game.add_heap(NimHeap::new(40, count));
    }
    let mut game = Game::with_game(settings(counts.len() as u32, 40), nim_game);
    for i in 0..counts.len() {
        assert!(game.place_heap(i, Rect::new(100 * i as i32, 0, 50, 400), 10));
    }
    game
}

fn counts_in(game: &Game) -> Vec<u32> {
    let nim_game = game.get_nim_game();
    (0..nim_game.heap_count()).map(|i| nim_game.get_heap(i).unwrap().get_count()).collect()
}

fn click(game: &mut Game, x: i32, y: i32, now: u64) {
    game.handle_event(Event::MouseMotion { x, y }, now);
    game.handle_event(Event::MouseButtonDown { mouse_btn: MouseButton::Left }, now);
    game.handle_event(Event::MouseButtonUp { mouse_btn: MouseButton::Left }, now);
}

#[test]
fn labels_name_players_and_roles() {
    assert_eq!(Player::One.label(), "Player 1");
    assert_eq!(Player::Two.label(), "Player 2");
    assert_eq!(PlayerType::Human.label(), "Human");
    assert_eq!(PlayerType::Computer.label(), "Computer");
}

#[test]
fn roles_are_looked_up_by_player() {
    let roles = PlayerRoles { one: PlayerType::Computer, two: PlayerType::Human };
    assert_eq!(roles.get(&Player::One), PlayerType::Computer);
    assert_eq!(roles.get(&Player::Two), PlayerType::Human);
}

#[test]
fn new_session_builds_the_heaps_of_the_settings() {
    let game = Game::new(settings(25, 40));
    let nim_game = game.get_nim_game();
    assert_eq!(nim_game.heap_count(), 25);
    for i in 0..25 {
        let heap = nim_game.get_heap(i).unwrap();
        assert_eq!(heap.get_size(), 40);
        assert!(1 <= heap.get_count() && heap.get_count() <= 40);
    }
    assert_eq!(*nim_game.get_player_to_move(), Player::One);
    assert_eq!(game.get_last_human_move_time(), None);
    assert_eq!(
        game.get_mouse_state(),
        MouseState { point: Point { x: 0, y: 0 }, left_button: false, right_button: false }
    );
    assert_eq!(game.get_previous_mouse_state(), game.get_mouse_state());
    assert_eq!(game.get_settings().heaps_count, 25);
    assert!(game.handle_game_ending().is_none());
}

#[test]
fn session_without_heaps_is_over_at_once() {
    let game = Game::new(settings(0, 40));
    assert_eq!(
        game.handle_game_ending(),
        Some(GameResult { winner: Player::Two, winner_type: PlayerType::Computer })
    );
    let empty = Game::new(settings(3, 0));
    assert_eq!(counts_in(&empty), vec![0, 0, 0]);
    assert!(empty.handle_game_ending().is_some());
}

#[test]
fn quit_and_escape_end_the_session() {
    let mut game = session_of(&[3, 5, 7]);
    assert_eq!(game.handle_event(Event::Quit, 0), GameEvent::Quit);
    assert_eq!(
        game.handle_event(Event::KeyDown { keycode: Some(Keycode::Escape) }, 0),
        GameEvent::Quit
    );
    let other_key = Event::KeyDown { keycode: Some(Keycode::Other) };
    assert_eq!(game.handle_event(other_key, 0), GameEvent::Other(other_key));
    let no_key = Event::KeyDown { keycode: None };
    assert_eq!(game.handle_event(no_key, 0), GameEvent::Other(no_key));
    assert_eq!(game.handle_event(Event::Other, 0), GameEvent::Other(Event::Other));
    assert_eq!(counts_in(&game), vec![3, 5, 7]);
}

#[test]
fn motion_moves_the_pointer() {
    let mut game = session_of(&[3]);
    game.handle_event(Event::MouseMotion { x: 12, y: -7 }, 0);
    assert_eq!(game.get_mouse_state().point, Point { x: 12, y: -7 });
    assert_eq!(game.get_previous_mouse_state().point, Point { x: 0, y: 0 });
    game.handle_event(Event::MouseMotion { x: i32::MAX, y: i32::MIN }, 0);
    assert_eq!(game.get_mouse_state().point, Point { x: 1073741823, y: -1073741824 });
}

#[test]
fn buttons_are_tracked_with_the_state_before() {
    let mut game = session_of(&[3]);
    game.handle_event(Event::MouseMotion { x: 900, y: 900 }, 0);
    game.handle_event(Event::MouseButtonDown { mouse_btn: MouseButton::Right }, 0);
    assert!(game.get_mouse_state().right_button);
    assert!(!game.get_previous_mouse_state().right_button);
    assert_eq!(game.get_previous_mouse_state().point, Point { x: 900, y: 900 });
    game.handle_event(Event::MouseButtonDown { mouse_btn: MouseButton::Left }, 0);
    assert!(game.get_mouse_state().left_button);
    assert!(game.get_previous_mouse_state().right_button);
    assert!(!game.get_previous_mouse_state().left_button);
    game.handle_event(Event::MouseButtonUp { mouse_btn: MouseButton::Other }, 0);
    assert!(game.get_previous_mouse_state().left_button);
    assert!(game.get_mouse_state().left_button);
    game.handle_event(Event::MouseButtonUp { mouse_btn: MouseButton::Right }, 0);
    assert!(!game.get_mouse_state().right_button);
    game.handle_event(Event::MouseButtonUp { mouse_btn: MouseButton::Left }, 0);
    assert!(!game.get_mouse_state().left_button);
    assert_eq!(counts_in(&game), vec![3]);
    assert_eq!(game.get_last_human_move_time(), None);
}

#[test]
fn click_on_a_stone_moves_for_the_human() {
    let mut game = session_of(&[3, 5, 7]);
    // Heap 1 has 35 free slots of 10 rows: its stones start at row 350.
    click(&mut game, 110, 365, 1_000);
    assert_eq!(counts_in(&game), vec![3, 3, 7]);
    assert_eq!(*game.get_nim_game().get_player_to_move(), Player::Two);
    assert_eq!(game.get_last_human_move_time(), Some(1_000));
}

#[test]
fn click_beside_the_stones_changes_nothing() {
    let mut game = session_of(&[3, 5, 7]);
    click(&mut game, 110, 100, 1_000);
    click(&mut game, 60, 395, 1_000);
    assert_eq!(counts_in(&game), vec![3, 5, 7]);
    assert_eq!(*game.get_nim_game().get_player_to_move(), Player::One);
    assert_eq!(game.get_last_human_move_time(), None);
}

#[test]
fn click_is_ignored_while_the_computer_is_to_move() {
    let mut game = session_of(&[3, 5, 7]);
    click(&mut game, 110, 365, 1_000);
    click(&mut game, 10, 395, 2_000);
    assert_eq!(counts_in(&game), vec![3, 3, 7]);
    assert_eq!(game.get_last_human_move_time(), Some(1_000));
}

#[test]
fn computer_waits_for_its_delay() {
    let mut game = session_of(&[3, 5, 7]);
    game.handle_ai_players_with(10_000_000, 0);
    assert_eq!(counts_in(&game), vec![3, 5, 7]);
    click(&mut game, 110, 365, 1_000);
    game.handle_ai_players_with(1_000, 0);
    game.handle_ai_players_with(500_999, 0);
    game.handle_ai_players_with(0, 0);
    assert_eq!(counts_in(&game), vec![3, 3, 7]);
    assert_eq!(game.get_last_human_move_time(), Some(1_000));
    // 3 ^ 3 ^ 7 = 7: only the heap of 7 shrinks, to nothing.
    game.handle_ai_players_with(501_000, 0);
    assert_eq!(counts_in(&game), vec![3, 3, 0]);
    assert_eq!(*game.get_nim_game().get_player_to_move(), Player::One);
    assert_eq!(game.get_last_human_move_time(), None);
    game.handle_ai_players_with(9_000_000, 0);
    assert_eq!(counts_in(&game), vec![3, 3, 0]);
}

#[test]
fn computer_answers_with_a_random_pick() {
    let mut game = session_of(&[3, 5, 7]);
    click(&mut game, 110, 365, 1_000);
    game.handle_ai_players(600_000);
    assert_eq!(counts_in(&game), vec![3, 3, 0]);
    assert_eq!(game.get_last_human_move_time(), None);
}

#[test]
fn computer_that_moves_first_waits_from_the_start() {
    let mut nim_game = NimGame::new(NimHeap::new(40, 10));
    nim_game.add_heap(NimHeap::new(40, 6));
    nim_game.switch_player();
    let mut game = Game::with_game(settings(1, 40), nim_game);
    game.handle_ai_players_with(499_999, 0);
    assert_eq!(counts_in(&game), vec![6]);
    game.handle_ai_players_with(500_000, 0);
    assert_eq!(counts_in(&game), vec![0]);
    assert_eq!(*game.get_nim_game().get_player_to_move(), Player::One);
    assert_eq!(
        game.handle_game_ending(),
        Some(GameResult { winner: Player::Two, winner_type: PlayerType::Computer })
    );
}

#[test]
fn ai_move_is_for_the_computer_only() {
    let mut game = session_of(&[3, 5, 7]);
    game.handle_ai_move_with(0);
    assert_eq!(counts_in(&game), vec![3, 5, 7]);
    game.handle_player_move(5);
    assert_eq!(counts_in(&game), vec![3, 5, 7]);
    assert_eq!(game.get_last_human_move_time(), None);
}

#[test]
fn last_mover_wins() {
    let mut game = session_of(&[2]);
    assert_eq!(game.handle_game_ending(), None);
    click(&mut game, 10, 395, 7);
    assert_eq!(counts_in(&game), vec![0]);
    assert_eq!(
        game.handle_game_ending(),
        Some(GameResult { winner: Player::One, winner_type: PlayerType::Human })
    );
    game.handle_ai_players_with(1_000_000, 3);
    assert_eq!(game.get_last_human_move_time(), Some(7));
    assert_eq!(*game.get_nim_game().get_player_to_move(), Player::Two);
}

#[test]
fn frame_wait_is_what_is_left_of_the_interval() {
    let game = session_of(&[1]);
    assert_eq!(game.wait_to_next_frame(0), 16_666);
    assert_eq!(game.wait_to_next_frame(6_666), 10_000);
    assert_eq!(game.wait_to_next_frame(16_666), 0);
    assert_eq!(game.wait_to_next_frame(u64::MAX), 0);
}
