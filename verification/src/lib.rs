//! Engine for a two-player battle built on Conway's Game of Life.
//!
//! Two players commit live cells onto a shared fixed-size grid; the grid
//! evolves under the standard Game-of-Life rules with hard (non-wrapping)
//! boundaries. Live cells piling up in a board's outermost columns damage
//! the player defending that edge; a player whose health reaches the final
//! tier loses the match.

pub mod config;
pub mod domain;
pub mod grid;
pub mod player;
pub mod game;

pub use config::{DAMAGE_THRESHOLD, HORIZONTAL_BLOCKS, LIFE_TIERS, VERTICAL_BLOCKS};
pub use domain::{Position, Tile};
pub use grid::Grid;
pub use grid::{calculate_next_generation, check_for_damage, count_alive_neighbours};
pub use player::{Direction, InputState, Player, PlayerNum};
pub use game::{make_damage_calculations, Game, GameState};
