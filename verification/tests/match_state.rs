//! Tests of player and match state: health tiers, hover movement, tile
//! marking, deployment, and the full damage-to-defeat cycle.

use fight_for_your_life::{
    Direction, Game, GameState, InputState, Player, PlayerNum, Position, HORIZONTAL_BLOCKS,
    LIFE_TIERS, VERTICAL_BLOCKS,
};

#[test]
fn board_dimensions_match_configuration() {
    assert_eq!(HORIZONTAL_BLOCKS, 51);
    assert_eq!(VERTICAL_BLOCKS, 33);
    let game = Game::new();
    assert_eq!(game.board.width(), 51);
    assert_eq!(game.board.height(), 33);
}

#[test]
fn new_players_start_in_their_regions() {
    let p1 = Player::new(PlayerNum::ONE);
    assert_eq!(p1.life_color_index, 0);
    assert_eq!(p1.x_left_bound, 3);
    assert_eq!(p1.x_right_bound, 17);
    assert_eq!(p1.y_upper_bound, 1);
    assert_eq!(p1.y_lower_bound, 31);
    assert_eq!(p1.hovering_square, Position::new(11, 16));
    assert!(p1.selected_squares.is_empty());

    let p2 = Player::new(PlayerNum::TWO);
    assert_eq!(p2.x_left_bound, 33);
    assert_eq!(p2.x_right_bound, 47);
    assert_eq!(p2.hovering_square, Position::new(41, 16));
}

#[test]
fn input_state_default_is_neutral() {
    let input = InputState::default();
    assert_eq!(input.movement_vector, (0, 0));
    assert!(!input.mark_pressed);
    assert!(!input.deploy_pressed);
}

#[test]
fn five_hits_defeat_a_player() {
    let mut p1 = Player::new(PlayerNum::ONE);
    let p2 = Player::new(PlayerNum::TWO);
    for hit in 1..=(LIFE_TIERS - 1) {
        assert!(!p1.is_dead());
        p1.take_damage();
        assert_eq!(p1.life_color_index, hit);
    }
    assert!(p1.is_dead());
    assert!(!p2.is_dead());
    assert_eq!(p2.life_color_index, 0);
}

#[test]
fn damage_saturates_at_the_final_tier() {
    let mut p = Player::new(PlayerNum::TWO);
    for _ in 0..9 {
        p.take_damage();
    }
    assert_eq!(p.life_color_index, LIFE_TIERS - 1);
    assert!(p.is_dead());
}

#[test]
fn hover_moves_and_wraps_inside_the_region() {
    let mut p = Player::new(PlayerNum::ONE);
    p.move_hover(Direction::RIGHT, 3);
    assert_eq!(p.hovering_square, Position::new(14, 16));
    p.move_hover(Direction::RIGHT, 3);
    assert_eq!(p.hovering_square, Position::new(17, 16));
    p.move_hover(Direction::RIGHT, 1);
    assert_eq!(p.hovering_square, Position::new(3, 16)); // wraps to left bound
    p.move_hover(Direction::LEFT, 1);
    assert_eq!(p.hovering_square, Position::new(17, 16)); // wraps to right bound
    p.move_hover(Direction::DOWN, 3);
    assert_eq!(p.hovering_square, Position::new(17, 19));
    p.move_hover(Direction::UP, 3);
    assert_eq!(p.hovering_square, Position::new(17, 16));
    for _ in 0..5 {
        p.move_hover(Direction::UP, 3);
    }
    assert_eq!(p.hovering_square, Position::new(17, 1));
    p.move_hover(Direction::UP, 1);
    assert_eq!(p.hovering_square, Position::new(17, 31)); // wraps to lower bound
    p.move_hover(Direction::DOWN, 1);
    assert_eq!(p.hovering_square, Position::new(17, 1)); // wraps to upper bound
}

#[test]
fn hover_up_clamps_the_step_to_the_rows_above() {
    let mut p = Player::new(PlayerNum::ONE);
    for _ in 0..5 {
        p.move_hover(Direction::UP, 3);
    }
    assert_eq!(p.hovering_square, Position::new(11, 1));
    p.move_hover(Direction::DOWN, 1);
    p.move_hover(Direction::UP, 3); // step larger than the room above: wraps
    assert_eq!(p.hovering_square, Position::new(11, 31));
}

#[test]
fn toggle_mark_adds_then_removes() {
    let mut p = Player::new(PlayerNum::ONE);
    p.toggle_mark();
    assert_eq!(p.selected_squares, vec![Position::new(11, 16)]);
    p.move_hover(Direction::RIGHT, 1);
    p.toggle_mark();
    assert_eq!(
        p.selected_squares,
        vec![Position::new(11, 16), Position::new(12, 16)]
    );
    p.move_hover(Direction::LEFT, 1);
    p.toggle_mark(); // unmarks the tile the cursor is back on
    assert_eq!(p.selected_squares, vec![Position::new(12, 16)]);
    p.move_hover(Direction::RIGHT, 1);
    p.toggle_mark();
    assert!(p.selected_squares.is_empty());
}

#[test]
fn game_commit_deploys_marked_tiles() {
    let mut game = Game::new();
    game.reset();
    game.player1.toggle_mark();
    game.player1.move_hover(Direction::RIGHT, 1);
    game.player1.toggle_mark();
    game.commit(PlayerNum::ONE);
    assert!(game.board.get(11, 16));
    assert!(game.board.get(12, 16));
    assert!(game.player1.selected_squares.is_empty());

    game.player2.toggle_mark();
    game.commit(PlayerNum::TWO);
    assert!(game.board.get(41, 16));
    assert!(game.player2.selected_squares.is_empty());
}

#[test]
fn advance_is_suspended_outside_playing() {
    let mut game = Game::new();
    assert_eq!(game.state, GameState::PAUSE_MENU);
    game.board.set_alive(0, 0);
    game.board.set_alive(0, 1);
    game.board.set_alive(0, 2);
    let report = game.advance();
    assert_eq!(report, (false, false, false, false));
    assert_eq!(game.player1.life_color_index, 0);
    assert!(game.board.get(0, 0)); // the board did not evolve
    assert!(game.board.get(0, 1));
    assert!(game.board.get(0, 2));
}

#[test]
fn five_damaging_ticks_end_the_match() {
    let mut game = Game::new();
    game.reset();
    for tick in 1..=(LIFE_TIERS - 1) {
        game.board.set_alive(0, 0);
        game.board.set_alive(0, 1);
        game.board.set_alive(0, 2);
        let (left_hit, right_hit, dead1, dead2) = game.advance();
        assert!(left_hit);
        assert!(!right_hit);
        assert_eq!(game.player1.life_color_index, tick);
        assert_eq!(dead1, tick == LIFE_TIERS - 1);
        assert!(!dead2);
    }
    assert!(game.player1.is_dead());
    assert!(!game.player2.is_dead());
    assert_eq!(game.player2.life_color_index, 0);
    assert_eq!(game.state, GameState::WINNER_SCREEN);
    assert_eq!(game.winner, Some(PlayerNum::TWO));

    // once the match has ended, further ticks change nothing
    let report = game.advance();
    assert_eq!(report, (false, false, false, false));
    assert_eq!(game.state, GameState::WINNER_SCREEN);
}

#[test]
fn right_column_damage_defeats_the_second_player() {
    let mut game = Game::new();
    game.reset();
    let right = game.board.width() - 1;
    for _ in 0..(LIFE_TIERS - 1) {
        game.board.set_alive(right, 10);
        game.board.set_alive(right, 12);
        game.board.set_alive(right, 14);
        game.advance();
    }
    assert!(game.player2.is_dead());
    assert!(!game.player1.is_dead());
    assert_eq!(game.winner, Some(PlayerNum::ONE));
}

#[test]
fn reset_restores_the_initial_playing_state() {
    let mut game = Game::new();
    game.reset();
    game.player1.toggle_mark();
    game.commit(PlayerNum::ONE);
    for _ in 0..7 {
        game.board.set_alive(0, 0);
        game.board.set_alive(0, 1);
        game.board.set_alive(0, 2);
        game.advance();
    }
    assert!(game.player1.is_dead());

    game.reset();
    assert_eq!(game.state, GameState::PLAYING);
    assert_eq!(game.winner, None);
    assert_eq!(game.player1.life_color_index, 0);
    assert_eq!(game.player2.life_color_index, 0);
    assert!(game.player1.selected_squares.is_empty());
    assert!(game.player2.selected_squares.is_empty());
    for y in 0..game.board.height() {
        for x in 0..game.board.width() {
            assert!(!game.board.get(x, y));
        }
    }
}
