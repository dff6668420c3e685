use vstd::prelude::*;

use crate::entities::{Bullet, Enemy, Fuel, GameStatus};

verus! {

/// The narrowest screen on which the river band fits.
pub const MIN_WIDTH: u16 = 80;

/// The shortest screen that holds the spawn row and the bottom cull row.
pub const MIN_HEIGHT: u16 = 3;

/// How far above the bottom edge the craft starts, screen height allowing
/// (on shorter screens it starts on the top row).
pub const PLAYER_LIFT: u16 = 10;

/// Fuel at the start of a game.
pub const START_GAS: u32 = 1500;

/// The whole simulation state.
///
/// The craft stands at column `player_i` of row `player_j`; `ground[r]` holds
/// the river banks (left, right) of screen row `r`, row 0 being the top.
#[derive(Clone, Debug)]
pub struct Game2DMatrix {
    pub player_i: u16,
    pub player_j: u16,
    pub max_screen_i: u16,
    pub max_screen_j: u16,
    pub screen_mid: u16,
    pub ground: Vec<(u16, u16)>,
    pub enemies: Vec<Enemy>,
    pub bullets: Vec<Bullet>,
    pub fuels: Vec<Fuel>,
    pub game_staus: GameStatus,
    pub score: u32,
    pub gas: u32,
    pub enemy_killed: u32,
    pub initialized: bool,
    pub logo: String,
}

/// The mathematical model of a `Game2DMatrix`: the same fields, with the
/// collections seen as sequences.
pub struct GameView {
    pub player_i: u16,
    pub player_j: u16,
    pub max_screen_i: u16,
    pub max_screen_j: u16,
    pub screen_mid: u16,
    pub ground: Seq<(u16, u16)>,
    pub enemies: Seq<Enemy>,
    pub bullets: Seq<Bullet>,
    pub fuels: Seq<Fuel>,
    pub game_staus: GameStatus,
    pub score: u32,
    pub gas: u32,
    pub enemy_killed: u32,
    pub initialized: bool,
    pub logo: Seq<char>,
}

impl View for Game2DMatrix {
    type V = GameView;

    open spec fn view(&self) -> GameView {
        GameView {
            player_i: self.player_i,
            player_j: self.player_j,
            max_screen_i: self.max_screen_i,
            max_screen_j: self.max_screen_j,
            screen_mid: self.screen_mid,
            ground: self.ground@,
            enemies: self.enemies@,
            bullets: self.bullets@,
            fuels: self.fuels@,
            game_staus: self.game_staus,
            score: self.score,
            gas: self.gas,
            enemy_killed: self.enemy_killed,
            initialized: self.initialized,
            logo: self.logo@,
        }
    }
}

/// Every row's banks are ordered and on screen.
pub open spec fn banks_on_screen(ground: Seq<(u16, u16)>, width: u16) -> bool {
    forall|r: int| 0 <= r < ground.len() ==> #[trigger] ground[r].0 <= ground[r].1 < width
}

/// Every row leaves open water between its banks.
pub open spec fn corridor_open(ground: Seq<(u16, u16)>) -> bool {
    forall|r: int| 0 <= r < ground.len() ==> #[trigger] ground[r].0 < ground[r].1
}

/// A well-formed corridor: every row `(left, right)` has
/// `left < right < width`.
pub open spec fn corridor_valid(ground: Seq<(u16, u16)>, width: u16) -> bool {
    banks_on_screen(ground, width) && corridor_open(ground)
}

impl GameView {
    /// The invariant of a game: the screen is large enough, there is one
    /// ground row per screen row, the craft stands on screen, and the banks
    /// are on screen (with open water everywhere once the terrain is
    /// generated).
    pub open spec fn wf(self) -> bool {
        &&& self.max_screen_i >= MIN_WIDTH
        &&& self.max_screen_j >= MIN_HEIGHT
        &&& self.screen_mid == self.max_screen_i / 2
        &&& self.ground.len() == self.max_screen_j
        &&& self.player_i < self.max_screen_i
        &&& self.player_j < self.max_screen_j
        &&& banks_on_screen(self.ground, self.max_screen_i)
        &&& self.initialized ==> corridor_open(self.ground)
    }

    /// The banks of the craft's row.
    pub open spec fn player_banks(self) -> (u16, u16) {
        self.ground[self.player_j as int]
    }
}

/// Why a game cannot be set up on a screen.
#[derive(Clone, Copy, Debug, PartialEq, Eq, Structural)]
pub enum InitError {
    /// Fewer than `MIN_WIDTH` columns.
    TooNarrow,
    /// Fewer than `MIN_HEIGHT` rows.
    TooShort,
}

impl Game2DMatrix {
    /// A fresh game on a screen of `max_i` columns and `max_j` rows, with the
    /// craft mid-screen near the bottom and the terrain not yet generated.
    pub fn new(max_i: u16, max_j: u16) -> (r: Result<Game2DMatrix, InitError>)
        ensures
            max_i < MIN_WIDTH ==> r == Err::<Game2DMatrix, InitError>(InitError::TooNarrow),
            max_i >= MIN_WIDTH && max_j < MIN_HEIGHT ==> r == Err::<Game2DMatrix, InitError>(
                InitError::TooShort,
            ),
            max_i >= MIN_WIDTH && max_j >= MIN_HEIGHT ==> r is Ok,
            r matches Ok(g) ==> {
                &&& g@.wf()
                &&& g.player_i == max_i / 2
                &&& g.player_j == (if max_j >= PLAYER_LIFT { max_j - PLAYER_LIFT } else { 0 })
                &&& g.max_screen_i == max_i
                &&& g.max_screen_j == max_j
                &&& g.ground@ == Seq::new(max_j as nat, |r: int| (0u16, 0u16))
                &&& g.enemies@.len() == 0
                &&& g.bullets@.len() == 0
                &&& g.fuels@.len() == 0
                &&& g.game_staus == GameStatus::ALIVE
                &&& g.score == 0
                &&& g.gas == START_GAS
                &&& g.enemy_killed == 0
                &&& !g.initialized
            },
    {
        if max_i < MIN_WIDTH {
            return Err(InitError::TooNarrow);
        }
        if max_j < MIN_HEIGHT {
            return Err(InitError::TooShort);
        }
        let mut ground: Vec<(u16, u16)> = Vec::new();
        let mut r: u16 = 0;
        while r < max_j
            invariant
                r <= max_j,
                ground@ =~= Seq::new(r as nat, |k: int| (0u16, 0u16)),
            decreases max_j - r,
        {
            ground.push((0u16, 0u16));
            r = r + 1;
        }
        Ok(Game2DMatrix {
            player_i: max_i / 2,
            player_j: max_j.saturating_sub(PLAYER_LIFT),
            max_screen_i: max_i,
            max_screen_j: max_j,
            screen_mid: max_i / 2,
            ground,
            enemies: Vec::new(),
            bullets: Vec::new(),
            fuels: Vec::new(),
            game_staus: GameStatus::ALIVE,
            score: 0,
            gas: START_GAS,
            enemy_killed: 0,
            initialized: false,
            logo: String::from_str("\u{26f5}"),
        })
    }

    /// Ticks survived so far.
    pub fn score(&self) -> (r: u32)
        ensures
            r == self.score,
    {
        self.score
    }

    /// Fuel left.
    pub fn fuel(&self) -> (r: u32)
        ensures
            r == self.gas,
    {
        self.gas
    }

    /// Enemies shot down so far.
    pub fn kill_count(&self) -> (r: u32)
        ensures
            r == self.enemy_killed,
    {
        self.enemy_killed
    }

    /// Whether the craft is still in the game.
    pub fn status(&self) -> (r: GameStatus)
        ensures
            r == self.game_staus,
    {
        self.game_staus
    }
}

} // verus!
