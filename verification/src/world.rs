use vstd::prelude::*;
use crate::enemy::Enemy;
use crate::player::Player;
use crate::units::{PLAYER_SPEED, PLAYER_START_X, PLAYER_START_Y};

verus! {

/// Everything the game tracks between frames: the one player and however
/// many enemies have been spawned so far.
pub struct GameState {
    pub player: Player,
    pub enemies: Vec<Enemy>,
}

impl GameState {
    /// Every enemy in the scene is well formed: its direction has
    /// magnitude 1 up to the fixed-point tolerance. Established at setup
    /// and preserved by every per-frame system.
    pub open spec fn wf(self) -> bool {
        forall|i: int| 0 <= i < self.enemies.len() ==> (#[trigger] self.enemies[i]).wf()
    }
}

/// The startup routine: a scene holding only the player, at its fixed
/// starting spot, with no enemies yet.
pub fn setup() -> (s: GameState)
    ensures
        s.player.pos.x == PLAYER_START_X,
        s.player.pos.y == PLAYER_START_Y,
        s.player.speed == PLAYER_SPEED,
        s.enemies.len() == 0,
        s.wf(),
{
    GameState { player: Player::spawn(), enemies: Vec::new() }
}

/// One frame of enemy motion: every enemy advances by
/// `direction * speed * dt`, and — deliberately — none is ever removed,
/// however far off screen it has drifted: the enemy count never shrinks.
pub fn move_enemies(state: &mut GameState, dt_micros: u64)
    requires
        old(state).wf(),
        forall|i: int| 0 <= i < old(state).enemies.len()
            ==> (#[trigger] old(state).enemies[i]).can_step(dt_micros as int),
    ensures
        final(state).enemies.len() == old(state).enemies.len(),
        forall|i: int| 0 <= i < old(state).enemies.len() ==> {
            &&& (#[trigger] final(state).enemies[i]).pos.x
                == old(state).enemies[i].pos.x
                    + old(state).enemies[i].dir.x * old(state).enemies[i].speed * dt_micros
            &&& final(state).enemies[i].pos.y
                == old(state).enemies[i].pos.y
                    + old(state).enemies[i].dir.y * old(state).enemies[i].speed * dt_micros
            &&& final(state).enemies[i].dir == old(state).enemies[i].dir
            &&& final(state).enemies[i].speed == old(state).enemies[i].speed
        },
        final(state).player == old(state).player,
        final(state).wf(),
{
    let ghost orig: GameState = *state;
    let n = state.enemies.len();
    let mut i: usize = 0;
    while i < n
        invariant
            i <= n,
            n == orig.enemies.len(),
            state.enemies.len() == n,
            state.player == orig.player,
            forall|j: int| 0 <= j < orig.enemies.len()
                ==> (#[trigger] orig.enemies[j]).wf() && orig.enemies[j].can_step(dt_micros as int),
            forall|j: int| i <= j < n ==> #[trigger] state.enemies[j] == orig.enemies[j],
            forall|j: int| 0 <= j < i ==> {
                &&& (#[trigger] state.enemies[j]).pos.x
                    == orig.enemies[j].pos.x + orig.enemies[j].dir.x * orig.enemies[j].speed * dt_micros
                &&& state.enemies[j].pos.y
                    == orig.enemies[j].pos.y + orig.enemies[j].dir.y * orig.enemies[j].speed * dt_micros
                &&& state.enemies[j].dir == orig.enemies[j].dir
                &&& state.enemies[j].speed == orig.enemies[j].speed
                &&& state.enemies[j].wf()
            },
        decreases n - i,
    {
        let e = &mut state.enemies[i];
        e.step(dt_micros);
        i = i + 1;
    }
}

} // verus!
