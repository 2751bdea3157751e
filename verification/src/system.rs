//! A session of the game: the two players and who plays them, the settings,
//! the pointer, and what the session does on each input and as time passes.

use vstd::prelude::*;
use crate::game::{click_move, random_index, strategy_move, NimGame};
use crate::geometry::{clamped_position, Point, Rect};
use crate::heap::NimHeap;

verus! {

/// Settings of a session, taken as they are given: times in microseconds,
/// sizes in pixels.
pub struct GameSettings {
    pub window_width: u32,
    pub window_height: u32,
    pub microseconds_per_frame: u64,
    pub microseconds_per_ai_move: u64,
    pub heaps_count: u32,
    pub max_stones_per_heap: u32,
    pub target_colour_change_time: std::time::Duration,
}

/// Where the pointer is and which of its buttons are held down.
#[derive(Clone, Copy, PartialEq, Eq, Debug, Structural)]
pub struct MouseState {
    pub point: Point,
    pub left_button: bool,
    pub right_button: bool,
}

/// The turn indicator: which of the two players is to move.
#[derive(Clone, Copy, Debug, PartialEq, Eq, Hash, Structural)]
pub enum Player {
    One,
    Two,
}

impl Player {
    /// The other player.
    pub open spec fn other(self) -> Player {
        match self {
            Player::One => Player::Two,
            Player::Two => Player::One,
        }
    }

    /// The player who moves after this one.
    pub fn next(&self) -> (p: Player)
        ensures
            p == self.other(),
            p != *self,
            p.other() == *self,
    {
        match self {
            Player::One => Player::Two,
            Player::Two => Player::One,
        }
    }

    /// The player's name as it is shown: "Player 1" or "Player 2".
    pub fn label(&self) -> (s: &'static str)
        ensures
            s@ == (match *self {
                Player::One => "Player 1"@,
                Player::Two => "Player 2"@,
            }),
    {
        match self {
            Player::One => "Player 1",
            Player::Two => "Player 2",
        }
    }
}

/// Who makes a player's moves.
#[derive(Clone, Copy, Debug, PartialEq, Eq, Structural)]
pub enum PlayerType {
    Human,
    Computer,
}

impl PlayerType {
    /// The role's name as it is shown: "Human" or "Computer".
    pub fn label(&self) -> (s: &'static str)
        ensures
            s@ == (match *self {
                PlayerType::Human => "Human"@,
                PlayerType::Computer => "Computer"@,
            }),
    {
        match self {
            PlayerType::Human => "Human",
            PlayerType::Computer => "Computer",
        }
    }
}

/// Who plays each of the two players.
#[derive(Clone, Copy, Debug, PartialEq, Eq, Structural)]
pub struct PlayerRoles {
    pub one: PlayerType,
    pub two: PlayerType,
}

impl PlayerRoles {
    pub open spec fn role(self, player: Player) -> PlayerType {
        match player {
            Player::One => self.one,
            Player::Two => self.two,
        }
    }

    /// Who plays `player`.
    pub fn get(&self, player: &Player) -> (role: PlayerType)
        ensures
            role == self.role(*player),
    {
        match player {
            Player::One => self.one,
            Player::Two => self.two,
        }
    }
}

/// A button of the pointer.
#[derive(Clone, Copy, Debug, PartialEq, Eq, Structural)]
pub enum MouseButton {
    Left,
    Right,
    Other,
}

/// A key of the keyboard, as far as the session tells keys apart.
#[derive(Clone, Copy, Debug, PartialEq, Eq, Structural)]
pub enum Keycode {
    Escape,
    Other,
}

/// An input that reaches the session.
#[derive(Clone, Copy, Debug, PartialEq, Eq, Structural)]
pub enum Event {
    Quit,
    KeyDown { keycode: Option<Keycode> },
    MouseMotion { x: i32, y: i32 },
    MouseButtonDown { mouse_btn: MouseButton },
    MouseButtonUp { mouse_btn: MouseButton },
    Other,
}

/// What an input means for the session: to end it, or to go on.
#[derive(Clone, Copy, Debug, PartialEq, Eq, Structural)]
pub enum GameEvent {
    Quit,
    Other(Event),
}

/// How a game ended: the winner, and who played the winner.
#[derive(Clone, Copy, Debug, PartialEq, Eq, Structural)]
pub struct GameResult {
    pub winner: Player,
    pub winner_type: PlayerType,
}

/// `event` asks for the end of the session.
pub open spec fn is_quit(event: Event) -> bool {
    event == Event::Quit || event == (Event::KeyDown { keycode: Some(Keycode::Escape) })
}

/// The pointer state after `event`, given the state `current` before it.
pub open spec fn mouse_after(current: MouseState, event: Event) -> MouseState {
    match event {
        Event::MouseMotion { x, y } => MouseState {
            point: Point {
                x: clamped_position(x as int) as i32,
                y: clamped_position(y as int) as i32,
            },
            ..current
        },
        Event::MouseButtonDown { mouse_btn: MouseButton::Left } => MouseState {
            left_button: true,
            ..current
        },
        Event::MouseButtonDown { mouse_btn: MouseButton::Right } => MouseState {
            right_button: true,
            ..current
        },
        Event::MouseButtonUp { mouse_btn: MouseButton::Left } => MouseState {
            left_button: false,
            ..current
        },
        Event::MouseButtonUp { mouse_btn: MouseButton::Right } => MouseState {
            right_button: false,
            ..current
        },
        _ => current,
    }
}

/// `event` is the press or the release of a button.
pub open spec fn is_button_event(event: Event) -> bool {
    event is MouseButtonDown || event is MouseButtonUp
}

/// A session: the game, the pointer now and before the last press or
/// release of a button, who plays whom, and the time of the last human move
/// that the computer has not answered yet. Times are microseconds on a clock
/// that starts with the session and never runs backwards.
pub struct Game {
    settings: GameSettings,
    nim_game: NimGame,
    previous_mouse_state: MouseState,
    current_mouse_state: MouseState,
    players: PlayerRoles,
    last_human_move_time: Option<u64>,
}

impl Game {
    pub closed spec fn settings(self) -> GameSettings {
        self.settings
    }

    pub closed spec fn nim_game(self) -> NimGame {
        self.nim_game
    }

    pub closed spec fn previous_mouse_state(self) -> MouseState {
        self.previous_mouse_state
    }

    pub closed spec fn current_mouse_state(self) -> MouseState {
        self.current_mouse_state
    }

    pub closed spec fn players(self) -> PlayerRoles {
        self.players
    }

    pub closed spec fn last_human_move_time(self) -> Option<u64> {
        self.last_human_move_time
    }

    /// Who plays the player to move.
    pub open spec fn role_to_move(self) -> PlayerType {
        self.players().role(self.nim_game().player())
    }

    /// `next` has the same settings and the same roles.
    pub open spec fn same_setup(self, next: Game) -> bool {
        &&& next.settings() == self.settings()
        &&& next.players() == self.players()
    }

    /// `next` has the same pointer states.
    pub open spec fn same_mouse(self, next: Game) -> bool {
        &&& next.previous_mouse_state() == self.previous_mouse_state()
        &&& next.current_mouse_state() == self.current_mouse_state()
    }

    /// `next` has the same game and the same time of the last human move.
    pub open spec fn same_play(self, next: Game) -> bool {
        &&& self.nim_game().same_as(next.nim_game())
        &&& next.last_human_move_time() == self.last_human_move_time()
    }

    /// The play of `next` is that of this session after a click at time
    /// `now`: where a human is to move and the pointer is on a stone, the
    /// move that the click asks for is made and `now` is noted; else nothing
    /// has changed.
    pub open spec fn play_after_click(self, now: u64, next: Game) -> bool {
        let asked = click_move(self.nim_game().heaps(), self.current_mouse_state().point);
        if self.role_to_move() == PlayerType::Human && asked.is_some() {
            &&& self.nim_game().moved_to(asked.unwrap(), next.nim_game())
            &&& next.last_human_move_time() == Some(now)
        } else {
            self.same_play(next)
        }
    }

    /// The play of `next` is that of this session after the computer's turn
    /// came up, with `pick` to decide between the strategy's moves: where
    /// the computer is to move and the game has not ended, the strategy's
    /// move is made and the noted time is cleared; else nothing has changed.
    pub open spec fn play_after_ai_move(self, pick: usize, next: Game) -> bool {
        let chosen = strategy_move(self.nim_game().counts(), pick);
        if self.role_to_move() == PlayerType::Computer && chosen.is_some() {
            &&& self.nim_game().moved_to(chosen.unwrap(), next.nim_game())
            &&& next.last_human_move_time().is_none()
        } else {
            self.same_play(next)
        }
    }

    /// The time from which the computer's delay counts: that of the last
    /// human move, or the start of the clock where none is noted.
    pub open spec fn delay_start(self) -> u64 {
        match self.last_human_move_time() {
            Some(then) => then,
            None => 0,
        }
    }

    /// At time `now` the computer's move is due: at least the delay of the
    /// settings has passed since the last human move, or since the start.
    pub open spec fn ai_move_due(self, now: u64) -> bool {
        (if now >= self.delay_start() {
            now - self.delay_start()
        } else {
            0
        }) >= self.settings().microseconds_per_ai_move
    }

    /// A session on `nim_game` in which player one is human and player two
    /// the computer, with the pointer at the origin and no button held.
    pub fn with_game(settings: GameSettings, nim_game: NimGame) -> (game: Game)
        ensures
            game.settings() == settings,
            game.nim_game() == nim_game,
            game.players() == (PlayerRoles { one: PlayerType::Human, two: PlayerType::Computer }),
            game.current_mouse_state() == (MouseState {
                point: Point { x: 0, y: 0 },
                left_button: false,
                right_button: false,
            }),
            game.previous_mouse_state() == game.current_mouse_state(),
            game.last_human_move_time().is_none(),
    {
        let current_mouse_state = MouseState {
            point: Point::new(0, 0),
            left_button: false,
            right_button: false,
        };
        Game {
            settings,
            nim_game,
            previous_mouse_state: current_mouse_state,
            current_mouse_state,
            players: PlayerRoles { one: PlayerType::Human, two: PlayerType::Computer },
            last_human_move_time: None,
        }
    }

    /// A session on a new game with as many heaps as the settings ask for.
    /// Each heap has the room that the settings give and a number of stones
    /// drawn at random, at least one where there is room. Player one, a
    /// human, moves first against the computer.
    pub fn new(settings: GameSettings) -> (game: Game)
        ensures
            game.settings() == settings,
            game.nim_game().heaps().len() == settings.heaps_count,
            forall|i: int|
                0 <= i < game.nim_game().heaps().len() ==> {
                    let heap = #[trigger] game.nim_game().heaps()[i];
                    &&& heap.capacity() == settings.max_stones_per_heap
                    &&& heap.stones() <= heap.capacity()
                    &&& heap.capacity() > 0 ==> heap.stones() >= 1
                    &&& heap.layout() == NimHeap::initial_layout()
                },
            game.nim_game().player() == Player::One,
            game.players() == (PlayerRoles { one: PlayerType::Human, two: PlayerType::Computer }),
            game.current_mouse_state() == (MouseState {
                point: Point { x: 0, y: 0 },
                left_button: false,
                right_button: false,
            }),
            game.previous_mouse_state() == game.current_mouse_state(),
            game.last_human_move_time().is_none(),
    {
        let heaps_count: u32 = settings.heaps_count;
        let max_stones_per_heap: u32 = settings.max_stones_per_heap;
        let default_heap = NimHeap::new(max_stones_per_heap, 10);
        let mut nim_game = NimGame::new(default_heap);
        let mut added: u32 = 0;
        while added < heaps_count
            invariant
                added <= heaps_count,
                nim_game.heaps().len() == added,
                nim_game.player() == Player::One,
                nim_game.default_heap().capacity() == max_stones_per_heap,
                forall|i: int|
                    0 <= i < nim_game.heaps().len() ==> {
                        let heap = #[trigger] nim_game.heaps()[i];
                        &&& heap.capacity() == max_stones_per_heap
                        &&& heap.stones() <= heap.capacity()
                        &&& heap.capacity() > 0 ==> heap.stones() >= 1
                        &&& heap.layout() == NimHeap::initial_layout()
                    },
            decreases heaps_count - added,
        {
            let ghost before = nim_game.heaps();
            nim_game.add_random_heap();
            added = added + 1;
            assert forall|i: int| 0 <= i < nim_game.heaps().len() implies {
                let heap = #[trigger] nim_game.heaps()[i];
                &&& heap.capacity() == max_stones_per_heap
                &&& heap.stones() <= heap.capacity()
                &&& heap.capacity() > 0 ==> heap.stones() >= 1
                &&& heap.layout() == NimHeap::initial_layout()
            } by {
                if i < before.len() {
                    assert(nim_game.heaps()[i] == nim_game.heaps().drop_last()[i]);
                } else {
                    assert(nim_game.heaps()[i] == nim_game.heaps().last());
                }
            }
        }
        Game::with_game(settings, nim_game)
    }

    /// The game that the session plays.
    pub fn get_nim_game(&self) -> (nim_game: &NimGame)
        ensures
            *nim_game == self.nim_game(),
    {
        &self.nim_game
    }

    /// The settings that the session was made with.
    pub fn get_settings(&self) -> (settings: &GameSettings)
        ensures
            *settings == self.settings(),
    {
        &self.settings
    }

    /// The pointer as it is now.
    pub fn get_mouse_state(&self) -> (state: MouseState)
        ensures
            state == self.current_mouse_state(),
    {
        self.current_mouse_state
    }

    /// The pointer as it was before the last press or release of a button.
    pub fn get_previous_mouse_state(&self) -> (state: MouseState)
        ensures
            state == self.previous_mouse_state(),
    {
        self.previous_mouse_state
    }

    /// The time of the last human move that the computer has not answered.
    pub fn get_last_human_move_time(&self) -> (time: Option<u64>)
        ensures
            time == self.last_human_move_time(),
    {
        self.last_human_move_time
    }

    /// Places the heap at `index` on the screen, where there is one, and
    /// says whether there was. The play does not change.
    pub fn place_heap(&mut self, index: usize, area_rectangle: Rect, stone_height: u32) -> (placed:
        bool)
        ensures
            old(self).same_setup(*final(self)),
            old(self).same_mouse(*final(self)),
            final(self).last_human_move_time() == old(self).last_human_move_time(),
            placed == (index < old(self).nim_game().heaps().len()),
            old(self).nim_game().placed_to(
                index,
                area_rectangle,
                stone_height,
                final(self).nim_game(),
            ),
            final(self).nim_game().counts() == old(self).nim_game().counts(),
    {
        self.nim_game.place_heap(index, area_rectangle, stone_height)
    }

    /// Says how the game ended, once it has: the winner is the player who
    /// made the last move, the one who is not to move now.
    pub fn handle_game_ending(&self) -> (result: Option<GameResult>)
        ensures
            result == if self.nim_game().is_over() {
                Some(
                    GameResult {
                        winner: self.nim_game().player().other(),
                        winner_type: self.players().role(self.nim_game().player().other()),
                    },
                )
            } else {
                None
            },
    {
        if self.nim_game.is_game_over() {
            let player_to_move = self.nim_game.get_player_to_move();
            let winner = player_to_move.next();
            let winner_type = self.players.get(&winner);
            return Some(GameResult { winner, winner_type });
        }
        None
    }

    /// The computer's turn at time `now`, with `pick` to decide between the
    /// strategy's moves: it moves where its move is due and it is to move.
    pub fn handle_ai_players_with(&mut self, now: u64, pick: usize)
        ensures
            old(self).same_setup(*final(self)),
            old(self).same_mouse(*final(self)),
            if old(self).ai_move_due(now) {
                old(self).play_after_ai_move(pick, *final(self))
            } else {
                old(self).same_play(*final(self))
            },
    {
        let delay_start: u64 = match self.last_human_move_time {
            Some(last_human_move_time) => last_human_move_time,
            None => 0,
        };
        let elapsed_micros: u64 = if now >= delay_start {
            now - delay_start
        } else {
            0
        };
        if elapsed_micros >= self.settings.microseconds_per_ai_move {
            self.handle_ai_move_with(pick);
        }
    }

    /// The computer's turn at time `now`: it moves where its move is due and
    /// it is to move, and a number drawn at random decides between the
    /// strategy's moves.
    pub fn handle_ai_players(&mut self, now: u64)
        ensures
            old(self).same_setup(*final(self)),
            old(self).same_mouse(*final(self)),
            if old(self).ai_move_due(now) {
                exists|pick: usize| old(self).play_after_ai_move(pick, *final(self))
            } else {
                old(self).same_play(*final(self))
            },
    {
        let pick = random_index();
        self.handle_ai_players_with(now, pick);
        assert(old(self).ai_move_due(now) ==> old(self).play_after_ai_move(pick, *self));
    }

    /// A click at time `now`: where a human is to move and the pointer is
    /// on a stone, that stone and those above it are taken.
    pub fn handle_player_move(&mut self, now: u64)
        ensures
            old(self).same_setup(*final(self)),
            old(self).same_mouse(*final(self)),
            old(self).play_after_click(now, *final(self)),
    {
        let player_to_move = self.nim_game.get_player_to_move();
        if let PlayerType::Human = self.players.get(player_to_move) {
            let point = self.current_mouse_state.point;
            let nim_move_option = self.nim_game.prepare_player_move(point);
            if let Some(nim_move) = nim_move_option {
                self.nim_game.make_move(nim_move);
                self.last_human_move_time = Some(now);
            }
        }
    }

    /// The computer's move, with `pick` to decide between the strategy's
    /// moves: made where the computer is to move and the game has not ended.
    pub fn handle_ai_move_with(&mut self, pick: usize)
        ensures
            old(self).same_setup(*final(self)),
            old(self).same_mouse(*final(self)),
            old(self).play_after_ai_move(pick, *final(self)),
    {
        let player_to_move = self.nim_game.get_player_to_move();
        if let PlayerType::Computer = self.players.get(player_to_move) {
            let nim_move_option = self.nim_game.prepare_ai_move_with(pick);
            if let Some(nim_move) = nim_move_option {
                self.nim_game.make_move(nim_move);
                self.last_human_move_time = None;
            }
        }
    }

    /// Takes `event` in at time `now` and says whether it ends the session.
    /// A request to quit, or the escape key, ends it and changes nothing.
    /// Any other input goes on: a motion moves the pointer; a press or a
    /// release of a button keeps the pointer state that was and sets or
    /// clears the button; the release of the left button is a click.
    pub fn handle_event(&mut self, event: Event, now: u64) -> (result: GameEvent)
        ensures
            result == if is_quit(event) {
                GameEvent::Quit
            } else {
                GameEvent::Other(event)
            },
            old(self).same_setup(*final(self)),
            is_quit(event) ==> old(self).same_mouse(*final(self)) && old(self).same_play(
                *final(self),
            ),
            !is_quit(event) ==> final(self).current_mouse_state() == mouse_after(
                old(self).current_mouse_state(),
                event,
            ),
            !is_quit(event) ==> final(self).previous_mouse_state() == if is_button_event(event) {
                old(self).current_mouse_state()
            } else {
                old(self).previous_mouse_state()
            },
            !is_quit(event) ==> if event == (Event::MouseButtonUp { mouse_btn: MouseButton::Left }) {
                old(self).play_after_click(now, *final(self))
            } else {
                old(self).same_play(*final(self))
            },
    {
        match event {
            Event::Quit | Event::KeyDown { keycode: Some(Keycode::Escape) } => GameEvent::Quit,
            _ => {
                self.handle_potential_mouse_moved(&event);
                self.handle_potential_mouse_button(&event, now);
                GameEvent::Other(event)
            },
        }
    }

    fn move_mouse_states(&mut self)
        ensures
            old(self).same_setup(*final(self)),
            old(self).same_play(*final(self)),
            final(self).previous_mouse_state() == old(self).current_mouse_state(),
            final(self).current_mouse_state() == old(self).current_mouse_state(),
    {
        self.previous_mouse_state = self.current_mouse_state;
    }

    fn handle_potential_mouse_moved(&mut self, event: &Event)
        ensures
            old(self).same_setup(*final(self)),
            old(self).same_play(*final(self)),
            final(self).previous_mouse_state() == old(self).previous_mouse_state(),
            final(self).current_mouse_state() == if *event is MouseMotion {
                mouse_after(old(self).current_mouse_state(), *event)
            } else {
                old(self).current_mouse_state()
            },
    {
        if let Event::MouseMotion { x, y } = event {
            self.current_mouse_state.point = Point::new(*x, *y);
        }
    }

    fn handle_left_click_up(&mut self, now: u64)
        ensures
            old(self).same_setup(*final(self)),
            old(self).same_mouse(*final(self)),
            old(self).play_after_click(now, *final(self)),
    {
        self.handle_player_move(now);
    }

    fn handle_potential_mouse_button(&mut self, event: &Event, now: u64)
        ensures
            old(self).same_setup(*final(self)),
            final(self).current_mouse_state() == if is_button_event(*event) {
                mouse_after(old(self).current_mouse_state(), *event)
            } else {
                old(self).current_mouse_state()
            },
            final(self).previous_mouse_state() == if is_button_event(*event) {
                old(self).current_mouse_state()
            } else {
                old(self).previous_mouse_state()
            },
            if *event == (Event::MouseButtonUp { mouse_btn: MouseButton::Left }) {
                old(self).play_after_click(now, *final(self))
            } else {
                old(self).same_play(*final(self))
            },
    {
        match event {
            Event::MouseButtonDown { mouse_btn } => {
                self.move_mouse_states();
                match mouse_btn {
                    MouseButton::Left => {
                        self.current_mouse_state.left_button = true;
                    },
                    MouseButton::Right => {
                        self.current_mouse_state.right_button = true;
                    },
                    _ => {},
                }
            },
            Event::MouseButtonUp { mouse_btn } => {
                self.move_mouse_states();
                match mouse_btn {
                    MouseButton::Left => {
                        self.current_mouse_state.left_button = false;
                        self.handle_left_click_up(now);
                    },
                    MouseButton::Right => {
                        self.current_mouse_state.right_button = false;
                    },
                    _ => {},
                }
            },
            _ => {},
        }
    }

    /// Microseconds to wait after a tick that took `elapsed_micros`, so
    /// that ticks follow each other at the interval of the settings: what is
    /// left of the interval, or nothing where the tick took longer.
    pub fn wait_to_next_frame(&self, elapsed_micros: u64) -> (remaining_micros: u64)
        ensures
            remaining_micros == if self.settings().microseconds_per_frame > elapsed_micros {
                self.settings().microseconds_per_frame - elapsed_micros
            } else {
                0
            },
    {
        if self.settings.microseconds_per_frame > elapsed_micros {
            self.settings.microseconds_per_frame - elapsed_micros
        } else {
            0
        }
    }
}

} // verus!
