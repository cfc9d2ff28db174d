//! Match state: the shared board, both players, and the tick that ties
//! generation advance, damage detection and health updates together.

use vstd::prelude::*;

use crate::config::{HORIZONTAL_BLOCKS, LIFE_TIERS, VERTICAL_BLOCKS};
use crate::grid::{
    calculate_next_generation, committed, damage_at_column, next_gen, Grid,
};
use crate::player::{sat_inc, Player, PlayerNum};

verus! {

/// The match-level state machine. Generation advance and damage
/// application run only while the match is `PLAYING`.
#[allow(non_camel_case_types)]
#[derive(Clone, Copy, Debug, PartialEq, Eq, Structural)]
pub enum GameState {
    PLAYING,
    PAUSE_MENU,
    WINNER_SCREEN,
}

/// A whole match: the board, both players, the state machine, and the
/// winner once a defeat has been detected.
#[derive(Debug)]
pub struct Game {
    pub state: GameState,
    pub player1: Player,
    pub player2: Player,
    pub winner: Option<PlayerNum>,
    pub board: Grid,
}

impl Game {
    /// The board has the configured dimensions and both players are
    /// well-formed.
    pub open spec fn wf(&self) -> bool {
        &&& self.board.wf()
        &&& self.board.spec_width() == HORIZONTAL_BLOCKS
        &&& self.board.spec_height() == VERTICAL_BLOCKS
        &&& self.player1.wf()
        &&& self.player2.wf()
    }

    /// A fresh match: all-dead board, both players at full health, no
    /// winner, waiting in the menu.
    pub fn new() -> (r: Game)
        ensures
            r.wf(),
            r.state == GameState::PAUSE_MENU,
            r.player1.player_num == PlayerNum::ONE,
            r.player2.player_num == PlayerNum::TWO,
            r.player1.life_color_index == 0,
            r.player2.life_color_index == 0,
            r.player1.selected_squares@.len() == 0,
            r.player2.selected_squares@.len() == 0,
            r.winner is None,
            crate::grid::all_dead(r.board@),
    {
        Game {
            state: GameState::PAUSE_MENU,
            player1: Player::new(PlayerNum::ONE),
            player2: Player::new(PlayerNum::TWO),
            winner: None,
            board: Grid::new(HORIZONTAL_BLOCKS, VERTICAL_BLOCKS),
        }
    }

    /// Returns the match to its initial playing state: an all-dead board,
    /// both players rebuilt at full health, and no winner. Valid from any
    /// prior state.
    pub fn reset(&mut self)
        ensures
            final(self).wf(),
            final(self).state == GameState::PLAYING,
            final(self).player1.player_num == PlayerNum::ONE,
            final(self).player2.player_num == PlayerNum::TWO,
            final(self).player1.life_color_index == 0,
            final(self).player2.life_color_index == 0,
            final(self).player1.selected_squares@.len() == 0,
            final(self).player2.selected_squares@.len() == 0,
            final(self).winner is None,
            crate::grid::all_dead(final(self).board@),
    {
        self.state = GameState::PLAYING;
        self.player1 = Player::new(PlayerNum::ONE);
        self.player2 = Player::new(PlayerNum::TWO);
        self.winner = None;
        self.board = Grid::new(HORIZONTAL_BLOCKS, VERTICAL_BLOCKS);
    }

    /// One tick while `PLAYING`: evolves the board one generation, applies
    /// the damage the pre-transition board inflicts, and ends the match if
    /// a player reaches the final health tier. Outside `PLAYING` the call
    /// changes nothing. Returns, in order: left side damaged, right side
    /// damaged, first player defeated, second player defeated.
    pub fn advance(&mut self) -> (r: (bool, bool, bool, bool))
        requires
            old(self).wf(),
        ensures
            final(self).wf(),
            old(self).state != GameState::PLAYING ==> *final(self) == *old(self) && r == (
                false,
                false,
                false,
                false,
            ),
            old(self).state == GameState::PLAYING ==> ({
                let left_hit = damage_at_column(old(self).board@, 0);
                let right_hit = damage_at_column(old(self).board@, HORIZONTAL_BLOCKS as int - 1);
                let tier1 = if left_hit {
                    sat_inc(old(self).player1.life_color_index as int)
                } else {
                    old(self).player1.life_color_index as int
                };
                let tier2 = if right_hit {
                    sat_inc(old(self).player2.life_color_index as int)
                } else {
                    old(self).player2.life_color_index as int
                };
                let dead1 = tier1 == LIFE_TIERS - 1;
                let dead2 = tier2 == LIFE_TIERS - 1;
                &&& final(self).board@ == next_gen(old(self).board@)
                &&& final(self).player1.life_color_index == tier1
                &&& final(self).player2.life_color_index == tier2
                &&& final(self).player1 == (Player {
                    life_color_index: final(self).player1.life_color_index,
                    ..old(self).player1
                })
                &&& final(self).player2 == (Player {
                    life_color_index: final(self).player2.life_color_index,
                    ..old(self).player2
                })
                &&& final(self).state == if dead1 || dead2 {
                    GameState::WINNER_SCREEN
                } else {
                    GameState::PLAYING
                }
                &&& final(self).winner == if dead2 {
                    Some(PlayerNum::ONE)
                } else if dead1 {
                    Some(PlayerNum::TWO)
                } else {
                    old(self).winner
                }
                &&& r == (left_hit, right_hit, dead1, dead2)
            }),
    {
        if !(self.state == GameState::PLAYING) {
            return (false, false, false, false);
        }
        let (next_board, damage_in_each_player) = calculate_next_generation(&self.board);
        self.board = next_board;
        make_damage_calculations(self, damage_in_each_player);
        let dead1 = self.player1.is_dead();
        let dead2 = self.player2.is_dead();
        (damage_in_each_player.0, damage_in_each_player.1, dead1, dead2)
    }

    /// Deploys the given player's marked tiles: every marked cell becomes
    /// alive on the board and the player's mark list is cleared.
    pub fn commit(&mut self, player_num: PlayerNum)
        requires
            old(self).wf(),
        ensures
            final(self).wf(),
            final(self).state == old(self).state,
            final(self).winner == old(self).winner,
            player_num == PlayerNum::ONE ==> {
                &&& final(self).board@ == committed(
                    old(self).board@,
                    old(self).player1.selected_squares@,
                )
                &&& final(self).player1.selected_squares@.len() == 0
                &&& final(self).player1 == (Player {
                    selected_squares: final(self).player1.selected_squares,
                    ..old(self).player1
                })
                &&& final(self).player2 == old(self).player2
            },
            player_num == PlayerNum::TWO ==> {
                &&& final(self).board@ == committed(
                    old(self).board@,
                    old(self).player2.selected_squares@,
                )
                &&& final(self).player2.selected_squares@.len() == 0
                &&& final(self).player2 == (Player {
                    selected_squares: final(self).player2.selected_squares,
                    ..old(self).player2
                })
                &&& final(self).player1 == old(self).player1
            },
    {
        match player_num {
            PlayerNum::ONE => {
                self.board.commit(&self.player1.selected_squares);
                self.player1.selected_squares.clear();
            },
            PlayerNum::TWO => {
                self.board.commit(&self.player2.selected_squares);
                self.player2.selected_squares.clear();
            },
        }
    }
}

/// Applies one tick's damage report: each damaged side's player takes one
/// hit, and if either player has reached the final tier the match moves to
/// the winner screen, the surviving player recorded as the winner. When
/// both players die on the same tick the first player is recorded, as the
/// second player's defeat is evaluated last.
pub fn make_damage_calculations(game: &mut Game, players_damage: (bool, bool))
    requires
        old(game).wf(),
    ensures
        final(game).wf(),
        final(game).board == old(game).board,
        final(game).player1.life_color_index == (if players_damage.0 {
            sat_inc(old(game).player1.life_color_index as int)
        } else {
            old(game).player1.life_color_index as int
        }),
        final(game).player2.life_color_index == (if players_damage.1 {
            sat_inc(old(game).player2.life_color_index as int)
        } else {
            old(game).player2.life_color_index as int
        }),
        final(game).player1 == (Player {
            life_color_index: final(game).player1.life_color_index,
            ..old(game).player1
        }),
        final(game).player2 == (Player {
            life_color_index: final(game).player2.life_color_index,
            ..old(game).player2
        }),
        final(game).state == (if final(game).player1.life_color_index == LIFE_TIERS - 1
            || final(game).player2.life_color_index == LIFE_TIERS - 1 {
            GameState::WINNER_SCREEN
        } else {
            old(game).state
        }),
        final(game).winner == (if final(game).player2.life_color_index == LIFE_TIERS - 1 {
            Some(PlayerNum::ONE)
        } else if final(game).player1.life_color_index == LIFE_TIERS - 1 {
            Some(PlayerNum::TWO)
        } else {
            old(game).winner
        }),
{
    if players_damage.0 {
        game.player1.take_damage();
    }
    if players_damage.1 {
        game.player2.take_damage();
    }
    if game.player1.is_dead() {
        game.state = GameState::WINNER_SCREEN;
        game.winner = Some(PlayerNum::TWO);
    }
    if game.player2.is_dead() {
        game.state = GameState::WINNER_SCREEN;
        game.winner = Some(PlayerNum::ONE);
    }
}

} // verus!
