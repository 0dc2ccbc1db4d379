use vstd::prelude::*;
use crate::enemy::Enemy;
use crate::rng::{fresh_rng, random_in_range};
use crate::units::{DirVec, Position, ENEMY_SPEED, SPAWN_PERIOD_MICROS, SPAWN_X_MAX, SPAWN_X_MIN, SPAWN_Y};
use crate::world::GameState;

verus! {

/// The spawn condition: true on a frame where the elapsed time has just
/// crossed a multiple of the spawn period — `elapsed mod period < dt`.
/// The test reads a wall clock once per frame instead of keeping an
/// accumulator, so it is frame-rate-sensitive by design.
pub fn should_spawn(elapsed_micros: u64, dt_micros: u64) -> (b: bool)
    ensures
        b == (elapsed_micros % SPAWN_PERIOD_MICROS < dt_micros),
{
    elapsed_micros % SPAWN_PERIOD_MICROS < dt_micros
}

/// Creates one enemy at the top edge: x drawn uniformly from the spawn
/// range, y exactly the spawn height, the fixed enemy speed, and the given
/// near-unit direction.
pub fn spawn_enemy(rng: &mut rand::rngs::ThreadRng, dir: DirVec) -> (e: Enemy)
    requires
        dir.is_near_unit(),
    ensures
        e.dir == dir,
        e.speed == ENEMY_SPEED,
        e.pos.y == SPAWN_Y,
        SPAWN_X_MIN <= e.pos.x <= SPAWN_X_MAX,
        e.wf(),
{
    let x = random_in_range(rng, SPAWN_X_MIN, SPAWN_X_MAX);
    Enemy { pos: Position { x, y: SPAWN_Y }, speed: ENEMY_SPEED, dir }
}

/// One frame of the spawner system: when the spawn condition holds, one
/// enemy joins the scene — at the top edge, within the spawn range, moving
/// in the given direction at the fixed speed — while every existing enemy
/// and the player keep their state. On any other frame nothing changes.
pub fn enemy_spawner(state: &mut GameState, elapsed_micros: u64, dt_micros: u64, dir: DirVec)
    requires
        dir.is_near_unit(),
    ensures
        elapsed_micros % SPAWN_PERIOD_MICROS < dt_micros ==> {
            &&& final(state).enemies.len() == old(state).enemies.len() + 1
            &&& final(state).enemies[old(state).enemies.len() as int].dir == dir
            &&& final(state).enemies[old(state).enemies.len() as int].speed == ENEMY_SPEED
            &&& final(state).enemies[old(state).enemies.len() as int].pos.y == SPAWN_Y
            &&& SPAWN_X_MIN <= final(state).enemies[old(state).enemies.len() as int].pos.x <= SPAWN_X_MAX
            &&& forall|i: int| 0 <= i < old(state).enemies.len()
                ==> #[trigger] final(state).enemies[i] == old(state).enemies[i]
        },
        !(elapsed_micros % SPAWN_PERIOD_MICROS < dt_micros) ==> final(state).enemies == old(state).enemies,
        final(state).player == old(state).player,
        old(state).wf() ==> final(state).wf(),
{
    if should_spawn(elapsed_micros, dt_micros) {
        let mut rng = fresh_rng();
        let e = spawn_enemy(&mut rng, dir);
        state.enemies.push(e);
    }
}

} // verus!
