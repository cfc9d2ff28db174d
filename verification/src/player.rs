//! Per-player state: health tier, hover cursor and selected tiles.

use vstd::prelude::*;

use crate::config::{HORIZONTAL_BLOCKS, LIFE_TIERS, VERTICAL_BLOCKS};
use crate::domain::Position;

verus! {

/// Which of the two players a value belongs to. The first player defends
/// the left edge of the board, the second the right edge.
#[allow(non_camel_case_types)]
#[derive(Clone, Copy, Debug, PartialEq, Eq, Structural)]
pub enum PlayerNum {
    ONE,
    TWO,
}

/// A direction the hover cursor can move in.
#[allow(non_camel_case_types)]
#[derive(Clone, Copy, Debug)]
pub enum Direction {
    UP,
    RIGHT,
    LEFT,
    DOWN,
}

/// Raw per-player input snapshot, filled by the input layer.
#[derive(Clone, Copy, Debug)]
pub struct InputState {
    pub movement_vector: (isize, isize),
    pub mark_pressed: bool,
    pub deploy_pressed: bool,
}

impl InputState {
    /// The neutral input state: no movement, nothing pressed.
    pub fn default() -> (r: Self)
        ensures
            r.movement_vector.0 == 0,
            r.movement_vector.1 == 0,
            !r.mark_pressed,
            !r.deploy_pressed,
    {
        InputState { movement_vector: (0, 0), mark_pressed: false, deploy_pressed: false }
    }
}

/// The health tier one damage hit moves a player to: one step towards the
/// final tier, saturating there.
pub open spec fn sat_inc(tier: int) -> int {
    if tier < LIFE_TIERS - 1 {
        tier + 1
    } else {
        LIFE_TIERS - 1
    }
}

/// The health tier reached from `tier` after `k` damage hits.
pub open spec fn sat_inc_n(tier: int, k: nat) -> int
    decreases k,
{
    if k == 0 {
        tier
    } else {
        sat_inc(sat_inc_n(tier, (k - 1) as nat))
    }
}

/// From full health, `k` damaging ticks put a player at tier `k`, until
/// the final tier is reached and held: the player is defeated on the
/// fifth hit and no earlier.
pub proof fn lemma_defeat_after_five(k: nat)
    ensures
        sat_inc_n(0, k) == if k >= LIFE_TIERS - 1 {
            LIFE_TIERS - 1
        } else {
            k as int
        },
    decreases k,
{
    if k > 0 {
        lemma_defeat_after_five((k - 1) as nat);
    }
}

/// Where the hover cursor ends after moving up by `amount` from row `y`:
/// the step is clamped to the rows above, and crossing the upper bound
/// wraps the cursor to the lower bound.
pub open spec fn hover_up(y: int, amount: int, upper: int, lower: int) -> int {
    let a = if amount > y {
        y
    } else {
        amount
    };
    if y - a < upper {
        lower
    } else {
        y - a
    }
}

/// Where the hover cursor ends after moving down by `amount` from row
/// `y`: crossing the lower bound wraps the cursor to the upper bound.
pub open spec fn hover_down(y: int, amount: int, upper: int, lower: int) -> int {
    if y + amount > lower {
        upper
    } else {
        y + amount
    }
}

/// Where the hover cursor ends after moving right by `amount` from column
/// `x`: crossing the right bound wraps the cursor to the left bound.
pub open spec fn hover_right(x: int, amount: int, left: int, right: int) -> int {
    if x + amount > right {
        left
    } else {
        x + amount
    }
}

/// Where the hover cursor ends after moving left by `amount` from column
/// `x`: crossing the left bound wraps the cursor to the right bound.
pub open spec fn hover_left(x: int, amount: int, left: int, right: int) -> int {
    if x - amount < left {
        right
    } else {
        x - amount
    }
}

/// One player's state: identity, health tier, hover cursor, marked tiles,
/// and the bounds of the rectangular placement region the cursor and the
/// marks stay within.
#[derive(Debug)]
pub struct Player {
    pub player_num: PlayerNum,
    pub input_state: InputState,
    pub life_color_index: usize,
    pub hovering_square: Position,
    pub selected_squares: Vec<Position>,
    pub x_left_bound: usize,
    pub x_right_bound: usize,
    pub y_upper_bound: usize,
    pub y_lower_bound: usize,
}

/// Left column of a player's placement region.
pub open spec fn region_left(player_num: PlayerNum) -> int {
    if player_num == PlayerNum::ONE {
        HORIZONTAL_BLOCKS / 8 - 3
    } else {
        HORIZONTAL_BLOCKS / 8 + HORIZONTAL_BLOCKS / 2 + (if HORIZONTAL_BLOCKS % 2 == 0 {
            1int
        } else {
            2int
        })
    }
}

/// Width, in blocks, of each player's placement region.
pub open spec fn region_width() -> int {
    HORIZONTAL_BLOCKS / 4 + 3
}

impl Player {
    /// The player's placement region lies strictly inside the board, the
    /// hover cursor and every marked tile lie within the region, and the
    /// health tier is one of the defined tiers.
    pub open spec fn wf(&self) -> bool {
        &&& self.life_color_index < LIFE_TIERS
        &&& 1 <= self.y_upper_bound <= self.y_lower_bound
        &&& self.y_lower_bound < VERTICAL_BLOCKS
        &&& 1 <= self.x_left_bound <= self.x_right_bound
        &&& self.x_right_bound < HORIZONTAL_BLOCKS
        &&& self.x_left_bound <= self.hovering_square.spec_x() <= self.x_right_bound
        &&& self.y_upper_bound <= self.hovering_square.spec_y() <= self.y_lower_bound
        &&& forall|i: int|
            0 <= i < self.selected_squares@.len() ==> {
                let p = #[trigger] self.selected_squares@[i];
                self.x_left_bound <= p.spec_x() <= self.x_right_bound
                    && self.y_upper_bound <= p.spec_y() <= self.y_lower_bound
            }
    }

    /// A fresh player at full health, with no tiles marked and the hover
    /// cursor near the centre of the player's placement region.
    pub fn new(player_num: PlayerNum) -> (r: Self)
        ensures
            r.wf(),
            r.player_num == player_num,
            r.life_color_index == 0,
            r.selected_squares@.len() == 0,
            r.x_left_bound == region_left(player_num),
            r.x_right_bound == region_left(player_num) + region_width() - 1,
            r.y_upper_bound == 1,
            r.y_lower_bound == VERTICAL_BLOCKS - 2,
            r.hovering_square.spec_x() == region_left(player_num) + (region_width() + 1) / 2,
            r.hovering_square.spec_y() == VERTICAL_BLOCKS / 2,
    {
        let x_left_bound = match player_num {
            PlayerNum::ONE => HORIZONTAL_BLOCKS / 8 - 3,
            PlayerNum::TWO => {
                let offset: usize = if HORIZONTAL_BLOCKS % 2 == 0 {
                    1
                } else {
                    2
                };
                HORIZONTAL_BLOCKS / 8 + HORIZONTAL_BLOCKS / 2 + offset
            },
        };
        let width = HORIZONTAL_BLOCKS / 4 + 3;
        let x_right_bound = x_left_bound + width - 1;
        let y_upper_bound: usize = 1;
        let y_lower_bound = VERTICAL_BLOCKS - 2;
        let hovering_square = Position::new(x_left_bound + (width + 1) / 2, VERTICAL_BLOCKS / 2);
        Player {
            player_num,
            input_state: InputState::default(),
            life_color_index: 0,
            hovering_square,
            selected_squares: Vec::new(),
            x_left_bound,
            x_right_bound,
            y_upper_bound,
            y_lower_bound,
        }
    }

    /// Whether this player has been defeated: the health tier has reached
    /// the last defined tier.
    pub fn is_dead(&self) -> (r: bool)
        ensures
            r == (self.life_color_index == LIFE_TIERS - 1),
    {
        self.life_color_index == LIFE_TIERS - 1
    }

    /// One damage hit: the health tier moves one step towards the final
    /// tier, saturating there.
    pub fn take_damage(&mut self)
        requires
            old(self).wf(),
        ensures
            final(self).wf(),
            final(self).life_color_index == sat_inc(old(self).life_color_index as int),
            *final(self) == (Player {
                life_color_index: final(self).life_color_index,
                ..*old(self)
            }),
    {
        if self.life_color_index < LIFE_TIERS - 1 {
            self.life_color_index = self.life_color_index + 1;
        }
    }

    /// Moves the hover cursor `amount` blocks in direction `dir` within
    /// the placement region, wrapping to the opposite bound when the move
    /// would cross the region's edge.
    pub fn move_hover(&mut self, dir: Direction, amount: usize)
        requires
            old(self).wf(),
        ensures
            final(self).wf(),
            *final(self) == (Player { hovering_square: final(self).hovering_square, ..*old(self) }),
            match dir {
                Direction::UP => final(self).hovering_square.spec_x() == old(
                    self,
                ).hovering_square.spec_x() && final(self).hovering_square.spec_y() == hover_up(
                    old(self).hovering_square.spec_y() as int,
                    amount as int,
                    old(self).y_upper_bound as int,
                    old(self).y_lower_bound as int,
                ),
                Direction::DOWN => final(self).hovering_square.spec_x() == old(
                    self,
                ).hovering_square.spec_x() && final(self).hovering_square.spec_y() == hover_down(
                    old(self).hovering_square.spec_y() as int,
                    amount as int,
                    old(self).y_upper_bound as int,
                    old(self).y_lower_bound as int,
                ),
                Direction::RIGHT => final(self).hovering_square.spec_y() == old(
                    self,
                ).hovering_square.spec_y() && final(self).hovering_square.spec_x() == hover_right(
                    old(self).hovering_square.spec_x() as int,
                    amount as int,
                    old(self).x_left_bound as int,
                    old(self).x_right_bound as int,
                ),
                Direction::LEFT => final(self).hovering_square.spec_y() == old(
                    self,
                ).hovering_square.spec_y() && final(self).hovering_square.spec_x() == hover_left(
                    old(self).hovering_square.spec_x() as int,
                    amount as int,
                    old(self).x_left_bound as int,
                    old(self).x_right_bound as int,
                ),
            },
    {
        let x = self.hovering_square.x();
        let y = self.hovering_square.y();
        match dir {
            Direction::UP => {
                let a = if amount > y {
                    y
                } else {
                    amount
                };
                if y - a < self.y_upper_bound {
                    self.hovering_square = Position::new(x, self.y_lower_bound);
                } else {
                    self.hovering_square = Position::new(x, y - a);
                }
            },
            Direction::DOWN => {
                if amount > self.y_lower_bound - y {
                    self.hovering_square = Position::new(x, self.y_upper_bound);
                } else {
                    self.hovering_square = Position::new(x, y + amount);
                }
            },
            Direction::RIGHT => {
                if amount > self.x_right_bound - x {
                    self.hovering_square = Position::new(self.x_left_bound, y);
                } else {
                    self.hovering_square = Position::new(x + amount, y);
                }
            },
            Direction::LEFT => {
                if amount > x - self.x_left_bound {
                    self.hovering_square = Position::new(self.x_right_bound, y);
                } else {
                    self.hovering_square = Position::new(x - amount, y);
                }
            },
        }
    }

    /// Marks the hovered tile for the next deployment, or unmarks it if it
    /// is already marked: the first occurrence is removed.
    pub fn toggle_mark(&mut self)
        requires
            old(self).wf(),
        ensures
            final(self).wf(),
            *final(self) == (Player {
                selected_squares: final(self).selected_squares,
                ..*old(self)
            }),
            (exists|i: int|
                0 <= i < old(self).selected_squares@.len() && old(self).selected_squares@[i] == old(
                    self,
                ).hovering_square) ==> exists|j: int|
                {
                    &&& 0 <= j < old(self).selected_squares@.len()
                    &&& old(self).selected_squares@[j] == old(self).hovering_square
                    &&& forall|k: int|
                        0 <= k < j ==> old(self).selected_squares@[k] != old(self).hovering_square
                    &&& final(self).selected_squares@ == old(self).selected_squares@.remove(j)
                },
            !(exists|i: int|
                0 <= i < old(self).selected_squares@.len() && old(self).selected_squares@[i] == old(
                    self,
                ).hovering_square) ==> final(self).selected_squares@ == old(
                self,
            ).selected_squares@.push(old(self).hovering_square),
    {
        let n = self.selected_squares.len();
        let mut i: usize = 0;
        while i < n
            invariant
                old(self).wf(),
                *self == *old(self),
                n == self.selected_squares@.len(),
                i <= n,
                forall|j: int|
                    0 <= j < i ==> self.selected_squares@[j] != self.hovering_square,
            decreases n - i,
        {
            let candidate = self.selected_squares[i];
            if candidate == self.hovering_square {
                self.selected_squares.remove(i);
                return ;
            }
            i += 1;
        }
        let hover = self.hovering_square;
        self.selected_squares.push(hover);
    }
}

} // verus!
