//! The game world — the player, the four entity collections, the score —
//! and the passes the game loop runs each frame: the frame update of every
//! collection with enemy fire, the timed spawns, the collision and
//! lifecycle resolution, the retention pass, and the restart.

use vstd::prelude::*;
use crate::anim::Animation;
use crate::config::{
    AUTOFIRE_PERIOD, AUTOFIRE_WINDOW, BULLET_SPEED, BULLET_SPEED_MAX, BULLET_SPEED_STEP,
    ENEMY_FIRE_PERIOD, ENEMY_FIRE_RANGE_M, ENEMY_FIRE_WINDOW, INITIAL_ENEMIES, PLAYER_SPAWN_X_M,
    PLAYER_SPAWN_Y_M, POS_LIMIT, POWERUP_RATE, SCORE_KILL, SPAWN_RATE, SPRITE_SCALE_M, START_LIFE,
    START_SHIELD,
};
use crate::entity::{
    aimed_bullet, enemy_ok, entity_step, entity_wf, particle_like, powerup_ok, rect_of,
    spawn_enemy, spawn_enemy_bullet, spawn_particle, spawn_powerup, static_anim, Entity,
    EntityType, Transform,
};
use crate::geom::{dist_sq, rects_overlap, within_range, Vec2I};
use crate::entity::spawn_aimed;

verus! {

/// All entities of a collection are well-formed.
pub open spec fn all_wf(s: Seq<Entity>) -> bool {
    forall|i: int| 0 <= i < s.len() ==> entity_wf(#[trigger] s[i])
}

/// The whole state a game loop owns: the singleton player, the four
/// collections, the score, the powered-up bullet speed and the two spawn
/// timers.
pub struct World {
    pub player: Entity,
    pub enemies: Vec<Entity>,
    pub bullets: Vec<Entity>,
    pub particles: Vec<Entity>,
    pub powerups: Vec<Entity>,
    pub score: u64,
    pub bullet_speed: i64,
    pub spawn_timer: u64,
    pub powerup_timer: u64,
}

/// Well-formedness of the world: every entity is well-formed, the bullet
/// speed stays within its powered-up band, and the spawn timers never run
/// past their rates.
pub open spec fn world_wf(w: World) -> bool {
    &&& entity_wf(w.player)
    &&& all_wf(w.enemies@)
    &&& all_wf(w.bullets@)
    &&& all_wf(w.particles@)
    &&& all_wf(w.powerups@)
    &&& BULLET_SPEED <= w.bullet_speed <= BULLET_SPEED_MAX
    &&& w.spawn_timer <= SPAWN_RATE
    &&& w.powerup_timer <= POWERUP_RATE
}

/// The player ship as a fresh or restarted world holds it.
pub open spec fn initial_player() -> Entity {
    Entity {
        typ: EntityType::Player,
        trans: Transform {
            pos: Vec2I { x: PLAYER_SPAWN_X_M, y: PLAYER_SPAWN_Y_M },
            vel: Vec2I { x: 0i64, y: 0i64 },
            scale: Vec2I { x: SPRITE_SCALE_M, y: SPRITE_SCALE_M },
        },
        anim: static_anim(0, 1),
        life: START_LIFE,
        shield: START_SHIELD,
    }
}

/// Advances every entity of one collection by one frame-update step.
fn step_all(v: &mut Vec<Entity>, dt: u32)
    requires
        all_wf(old(v)@),
    ensures
        final(v)@.len() == old(v)@.len(),
        forall|i: int| 0 <= i < old(v)@.len() ==> final(v)@[i] == entity_step(old(v)@[i], dt),
        all_wf(final(v)@),
{
    let n = v.len();
    let mut i: usize = 0;
    while i < n
        invariant
            i <= n,
            n == v@.len(),
            v@.len() == old(v)@.len(),
            all_wf(old(v)@),
            forall|j: int| 0 <= j < i ==> v@[j] == entity_step(old(v)@[j], dt),
            forall|j: int| 0 <= j < i ==> entity_wf(#[trigger] v@[j]),
            forall|j: int| i <= j < n ==> v@[j] == old(v)@[j],
        decreases n - i,
    {
        let mut e = v[i];
        e.update(dt);
        v.set(i, e);
        i = i + 1;
    }
}

/// The subsequence of a collection that survives a retention pass: the
/// entities whose life is still positive, in their original order.
pub open spec fn alive_of(s: Seq<Entity>) -> Seq<Entity>
    decreases s.len(),
{
    if s.len() == 0 {
        Seq::empty()
    } else if s.last().life > 0 {
        alive_of(s.drop_last()).push(s.last())
    } else {
        alive_of(s.drop_last())
    }
}

/// After a retention pass only live entities remain: everything that was
/// marked dead — a consumed powerup, an expired bullet, a spent particle —
/// is gone and takes part in no further pass.
pub proof fn lemma_retention_alive(s: Seq<Entity>)
    ensures
        forall|i: int| 0 <= i < alive_of(s).len() ==> alive_of(s)[i].life > 0,
        all_wf(s) ==> all_wf(alive_of(s)),
    decreases s.len(),
{
    if s.len() > 0 {
        lemma_retention_alive(s.drop_last());
    }
}

/// Keeps exactly the entities whose life is positive.
fn retain_alive(v: &mut Vec<Entity>)
    ensures
        final(v)@ == alive_of(old(v)@),
{
    let n = v.len();
    let mut out: Vec<Entity> = Vec::new();
    let mut i: usize = 0;
    while i < n
        invariant
            i <= n,
            n == v@.len(),
            v@ == old(v)@,
            out@ == alive_of(v@.subrange(0, i as int)),
        decreases n - i,
    {
        let e = v[i];
        proof {
            assert(v@.subrange(0, i + 1).drop_last() =~= v@.subrange(0, i as int));
            assert(v@.subrange(0, i + 1).last() == v@[i as int]);
        }
        if e.life > 0 {
            out.push(e);
        }
        i = i + 1;
    }
    proof {
        assert(v@.subrange(0, n as int) =~= v@);
    }
    *v = out;
}

/// The enemy bullets one stepped enemy contributes in one frame: one
/// bullet aimed at the player, if the player is alive, the enemy is in
/// firing range after its motion step, and the tick counter grants a shot.
pub open spec fn fire_of(e: Entity, player: Entity, dt: u32, ticks: u32) -> Seq<Entity> {
    let e2 = entity_step(e, dt);
    if player.life > 0 && dist_sq(e2.trans.pos, player.trans.pos) < ENEMY_FIRE_RANGE_M
        * ENEMY_FIRE_RANGE_M && ticks % ENEMY_FIRE_PERIOD < ENEMY_FIRE_WINDOW {
        seq![
            aimed_bullet(
                EntityType::EnemyBullet,
                e2,
                player.trans.pos,
                BULLET_SPEED as int,
                1,
                0,
            ),
        ]
    } else {
        Seq::empty()
    }
}

/// All enemy bullets fired in one frame, in enemy order.
pub open spec fn fired_bullets(enemies: Seq<Entity>, player: Entity, dt: u32, ticks: u32) -> Seq<
    Entity,
>
    decreases enemies.len(),
{
    if enemies.len() == 0 {
        Seq::empty()
    } else {
        fired_bullets(enemies.drop_last(), player, dt, ticks) + fire_of(
            enemies.last(),
            player,
            dt,
            ticks,
        )
    }
}

/// Steps all enemies and lets each stepped enemy in range fire at the
/// player; fired bullets are appended to `bullets` in enemy order.
/// Returns how many were fired.
fn step_enemies_and_fire(
    enemies: &mut Vec<Entity>,
    bullets: &mut Vec<Entity>,
    player: &Entity,
    dt: u32,
    ticks: u32,
) -> (fired: usize)
    requires
        all_wf(old(enemies)@),
        all_wf(old(bullets)@),
        entity_wf(*player),
    ensures
        final(enemies)@.len() == old(enemies)@.len(),
        forall|i: int|
            0 <= i < old(enemies)@.len() ==> final(enemies)@[i] == entity_step(
                old(enemies)@[i],
                dt,
            ),
        all_wf(final(enemies)@),
        final(bullets)@ == old(bullets)@ + fired_bullets(old(enemies)@, *player, dt, ticks),
        all_wf(final(bullets)@),
        fired == fired_bullets(old(enemies)@, *player, dt, ticks).len(),
{
    let n = enemies.len();
    let mut i: usize = 0;
    let mut fired: usize = 0;
    while i < n
        invariant
            i <= n,
            n == enemies@.len(),
            enemies@.len() == old(enemies)@.len(),
            all_wf(old(enemies)@),
            entity_wf(*player),
            forall|j: int| 0 <= j < i ==> enemies@[j] == entity_step(old(enemies)@[j], dt),
            forall|j: int| 0 <= j < i ==> entity_wf(#[trigger] enemies@[j]),
            forall|j: int| i <= j < n ==> enemies@[j] == old(enemies)@[j],
            bullets@ == old(bullets)@ + fired_bullets(
                old(enemies)@.subrange(0, i as int),
                *player,
                dt,
                ticks,
            ),
            all_wf(bullets@),
            fired == fired_bullets(old(enemies)@.subrange(0, i as int), *player, dt, ticks).len(),
            fired <= i,
        decreases n - i,
    {
        proof {
            assert(old(enemies)@.subrange(0, i + 1).drop_last() =~= old(enemies)@.subrange(
                0,
                i as int,
            ));
            assert(old(enemies)@.subrange(0, i + 1).last() == old(enemies)@[i as int]);
        }
        let mut e = enemies[i];
        e.update(dt);
        enemies.set(i, e);
        if player.life > 0 && within_range(&e.trans.pos, &player.trans.pos, ENEMY_FIRE_RANGE_M)
            && ticks % ENEMY_FIRE_PERIOD < ENEMY_FIRE_WINDOW {
            bullets.push(spawn_enemy_bullet(&e, &player.trans.pos));
            fired = fired + 1;
        }
        i = i + 1;
    }
    proof {
        assert(old(enemies)@.subrange(0, n as int) =~= old(enemies)@);
    }
    fired
}

/// What a frame's timed spawning did.
#[derive(Clone, Copy, PartialEq, Eq, Structural, Debug)]
pub struct SpawnEvents {
    pub enemy: bool,
    pub powerup: bool,
}

/// State the powerup rule of the collision pass folds over.
pub struct PowerupPhase {
    pub player: Entity,
    pub powerups: Seq<Entity>,
    pub enemies: Seq<Entity>,
    pub bullet_speed: int,
    pub collected: int,
}

/// Increment that saturates instead of wrapping at the numeric ceiling.
pub open spec fn inc_sat(l: i32) -> int {
    if l < i32::MAX {
        l + 1
    } else {
        l as int
    }
}

/// Every enemy killed at once — the nuke payload.
pub open spec fn kill_all(s: Seq<Entity>) -> Seq<Entity> {
    s.map_values(|e: Entity| Entity { life: 0i32, ..e })
}

/// The bullet speed after one speed powerup, capped at its maximum.
pub open spec fn bump_speed(v: int) -> int {
    if v + BULLET_SPEED_STEP <= BULLET_SPEED_MAX {
        v + BULLET_SPEED_STEP
    } else {
        BULLET_SPEED_MAX as int
    }
}

/// The kind-specific payload of one consumed powerup: health heals the
/// player by one, shield raises the shield by one, the nuke kills every
/// enemy, and bullet speed raises the player's bullet speed one step.
pub open spec fn apply_powerup(s: PowerupPhase, t: EntityType) -> PowerupPhase {
    match t {
        EntityType::PowerupHealth => PowerupPhase {
            player: Entity { life: inc_sat(s.player.life) as i32, ..s.player },
            ..s
        },
        EntityType::PowerupShield => PowerupPhase {
            player: Entity { shield: inc_sat(s.player.shield) as i32, ..s.player },
            ..s
        },
        EntityType::PowerupNuke => PowerupPhase { enemies: kill_all(s.enemies), ..s },
        EntityType::PowerupBulletSpeed => PowerupPhase {
            bullet_speed: bump_speed(s.bullet_speed),
            ..s
        },
        _ => s,
    }
}

/// Rule of the collision pass on powerup `i`: while the player is alive
/// and overlaps a live powerup, the powerup is consumed (marked dead) and
/// its payload applies.
pub open spec fn powerup_rule(s: PowerupPhase, i: int) -> PowerupPhase {
    let p = s.powerups[i];
    if p.life > 0 && s.player.life > 0 && rects_overlap(rect_of(s.player.trans), rect_of(p.trans)) {
        let s1 = PowerupPhase {
            powerups: s.powerups.update(i, Entity { life: 0i32, ..p }),
            collected: s.collected + 1,
            ..s
        };
        apply_powerup(s1, p.typ)
    } else {
        s
    }
}

/// The powerup rule folded over the first `n` powerups, in order.
pub open spec fn powerup_fold(s: PowerupPhase, n: int) -> PowerupPhase
    decreases n,
{
    if n <= 0 {
        s
    } else {
        powerup_rule(powerup_fold(s, n - 1), n - 1)
    }
}

/// The health powerup heals by exactly one: whenever the collision pass
/// reaches a live health powerup that a living player overlaps, the
/// player's life rises by exactly one — even at full shield and full
/// life — the powerup is marked dead, so the next retention pass drops
/// it, and nothing else changes under this rule: shield, every enemy,
/// every other powerup and the bullet speed stay as they were.  (The one
/// input left out is a life already at the numeric ceiling, where it
/// saturates instead of wrapping.)
pub proof fn lemma_health_powerup_heals(s: PowerupPhase, i: int)
    requires
        0 <= i < s.powerups.len(),
        s.powerups[i].typ == EntityType::PowerupHealth,
        s.powerups[i].life > 0,
        0 < s.player.life < i32::MAX,
        rects_overlap(rect_of(s.player.trans), rect_of(s.powerups[i].trans)),
    ensures
        ({
            let r = powerup_rule(s, i);
            &&& r.player.life == s.player.life + 1
            &&& r.player.shield == s.player.shield
            &&& r.player.trans == s.player.trans
            &&& r.powerups == s.powerups.update(i, (Entity { life: 0i32, ..s.powerups[i] }))
            &&& r.powerups[i].life == 0
            &&& r.enemies == s.enemies
            &&& r.bullet_speed == s.bullet_speed
            &&& r.collected == s.collected + 1
        }),
{
}

/// State the enemy rules of the collision pass fold over.  `origins`
/// records where death particles spawn, in order.
pub struct EnemyPhase {
    pub player: Entity,
    pub enemies: Seq<Entity>,
    pub bullets: Seq<Entity>,
    pub origins: Seq<Vec2I>,
    pub score: int,
}

/// Score addition that saturates at the counter's ceiling.
pub open spec fn score_add(s: int, d: int) -> int {
    if s + d <= u64::MAX {
        s + d
    } else {
        u64::MAX as int
    }
}

/// Contact rule on enemy `i`: while both are alive and overlap, the enemy
/// dies, the player loses one life, a death particle spawns at the enemy —
/// and at the player too if that loss was the last.
pub open spec fn enemy_contact_rule(s: EnemyPhase, i: int) -> EnemyPhase {
    let e = s.enemies[i];
    if e.life > 0 && s.player.life > 0 && rects_overlap(rect_of(s.player.trans), rect_of(e.trans)) {
        let p2 = Entity { life: (s.player.life - 1) as i32, ..s.player };
        let o1 = s.origins.push(e.trans.pos);
        EnemyPhase {
            player: p2,
            enemies: s.enemies.update(i, Entity { life: 0i32, ..e }),
            origins: if p2.life == 0 {
                o1.push(s.player.trans.pos)
            } else {
                o1
            },
            ..s
        }
    } else {
        s
    }
}

/// Shooting rule on player bullet `j` against enemy `i`: while both are
/// alive and overlap, both die, a death particle spawns at the enemy and
/// the score grows by the kill award.
pub open spec fn bullet_enemy_rule(s: EnemyPhase, i: int, j: int) -> EnemyPhase {
    let e = s.enemies[i];
    let b = s.bullets[j];
    if b.typ == EntityType::Bullet && b.life > 0 && e.life > 0 && rects_overlap(
        rect_of(b.trans),
        rect_of(e.trans),
    ) {
        EnemyPhase {
            enemies: s.enemies.update(i, Entity { life: 0i32, ..e }),
            bullets: s.bullets.update(j, Entity { life: 0i32, ..b }),
            origins: s.origins.push(e.trans.pos),
            score: score_add(s.score, SCORE_KILL as int),
            ..s
        }
    } else {
        s
    }
}

/// The shooting rule folded over the first `m` bullets against enemy `i`.
pub open spec fn bullet_enemy_fold(s: EnemyPhase, i: int, m: int) -> EnemyPhase
    decreases m,
{
    if m <= 0 {
        s
    } else {
        bullet_enemy_rule(bullet_enemy_fold(s, i, m - 1), i, m - 1)
    }
}

/// Everything that happens around enemy `i`: the contact rule, then every
/// bullet in order.
pub open spec fn enemy_rule(s: EnemyPhase, i: int) -> EnemyPhase {
    let s1 = enemy_contact_rule(s, i);
    bullet_enemy_fold(s1, i, s1.bullets.len() as int)
}

/// The enemy rules folded over the first `n` enemies, in order.
pub open spec fn enemy_fold(s: EnemyPhase, n: int) -> EnemyPhase
    decreases n,
{
    if n <= 0 {
        s
    } else {
        enemy_rule(enemy_fold(s, n - 1), n - 1)
    }
}

/// State the enemy-bullet rule of the collision pass folds over.
pub struct BulletPlayerPhase {
    pub player: Entity,
    pub bullets: Seq<Entity>,
    pub origins: Seq<Vec2I>,
}

/// Rule on enemy bullet `j` against the player: while both are alive and
/// overlap, the bullet dies and the player loses one life; a death
/// particle spawns at the player if that loss was the last.
pub open spec fn bullet_player_rule(s: BulletPlayerPhase, j: int) -> BulletPlayerPhase {
    let b = s.bullets[j];
    if b.typ == EntityType::EnemyBullet && b.life > 0 && s.player.life > 0 && rects_overlap(
        rect_of(b.trans),
        rect_of(s.player.trans),
    ) {
        let p2 = Entity { life: (s.player.life - 1) as i32, ..s.player };
        BulletPlayerPhase {
            player: p2,
            bullets: s.bullets.update(j, Entity { life: 0i32, ..b }),
            origins: if p2.life == 0 {
                s.origins.push(s.player.trans.pos)
            } else {
                s.origins
            },
        }
    } else {
        s
    }
}

/// The enemy-bullet rule folded over the first `m` bullets.
pub open spec fn bullet_player_fold(s: BulletPlayerPhase, m: int) -> BulletPlayerPhase
    decreases m,
{
    if m <= 0 {
        s
    } else {
        bullet_player_rule(bullet_player_fold(s, m - 1), m - 1)
    }
}

/// The whole collision and lifecycle pass as one function of the incoming
/// world: powerups first, then the enemy rules, then the enemy bullets,
/// in that fixed order.  `origins` lists where death particles spawn.
pub struct CollisionOutcome {
    pub player: Entity,
    pub enemies: Seq<Entity>,
    pub bullets: Seq<Entity>,
    pub powerups: Seq<Entity>,
    pub score: int,
    pub bullet_speed: int,
    pub origins: Seq<Vec2I>,
    pub collected: int,
}

/// See `CollisionOutcome`.
pub open spec fn collision_spec(
    player: Entity,
    enemies: Seq<Entity>,
    bullets: Seq<Entity>,
    powerups: Seq<Entity>,
    score: int,
    bullet_speed: int,
) -> CollisionOutcome {
    let r1 = powerup_fold(
        PowerupPhase { player, powerups, enemies, bullet_speed, collected: 0int },
        powerups.len() as int,
    );
    let r2 = enemy_fold(
        EnemyPhase {
            player: r1.player,
            enemies: r1.enemies,
            bullets,
            origins: Seq::empty(),
            score,
        },
        r1.enemies.len() as int,
    );
    let r3 = bullet_player_fold(
        BulletPlayerPhase { player: r2.player, bullets: r2.bullets, origins: Seq::empty() },
        r2.bullets.len() as int,
    );
    CollisionOutcome {
        player: r3.player,
        enemies: r2.enemies,
        bullets: r3.bullets,
        powerups: r1.powerups,
        score: r2.score,
        bullet_speed: r1.bullet_speed,
        origins: r2.origins + r3.origins,
        collected: r1.collected,
    }
}

/// Rule 1 of the collision pass; see `powerup_rule`.  Returns how many
/// powerups were consumed.
#[verifier::loop_isolation(false)]
fn powerup_phase(
    player: &mut Entity,
    powerups: &mut Vec<Entity>,
    enemies: &mut Vec<Entity>,
    bullet_speed: &mut i64,
) -> (collected: usize)
    requires
        entity_wf(*old(player)),
        all_wf(old(powerups)@),
        all_wf(old(enemies)@),
        BULLET_SPEED <= *old(bullet_speed) <= BULLET_SPEED_MAX,
    ensures
        ({
            let r = powerup_fold(
                PowerupPhase {
                    player: *old(player),
                    powerups: old(powerups)@,
                    enemies: old(enemies)@,
                    bullet_speed: *old(bullet_speed) as int,
                    collected: 0int,
                },
                old(powerups)@.len() as int,
            );
            &&& *final(player) == r.player
            &&& final(powerups)@ == r.powerups
            &&& final(enemies)@ == r.enemies
            &&& *final(bullet_speed) == r.bullet_speed
            &&& collected == r.collected
        }),
        entity_wf(*final(player)),
        all_wf(final(powerups)@),
        all_wf(final(enemies)@),
        BULLET_SPEED <= *final(bullet_speed) <= BULLET_SPEED_MAX,
{
    let ghost s0 = PowerupPhase {
        player: *player,
        powerups: powerups@,
        enemies: enemies@,
        bullet_speed: *bullet_speed as int,
        collected: 0int,
    };
    let n = powerups.len();
    let mut collected: usize = 0;
    let mut i: usize = 0;
    while i < n
        invariant
            i <= n,
            n == powerups@.len(),
            collected <= i,
            ({
                let r = powerup_fold(s0, i as int);
                &&& *player == r.player
                &&& powerups@ == r.powerups
                &&& enemies@ == r.enemies
                &&& *bullet_speed == r.bullet_speed
                &&& collected == r.collected
            }),
            entity_wf(*player),
            all_wf(powerups@),
            all_wf(enemies@),
            BULLET_SPEED <= *bullet_speed <= BULLET_SPEED_MAX,
        decreases n - i,
    {
        proof {
            assert(powerup_fold(s0, i as int + 1) == powerup_rule(
                powerup_fold(s0, i as int),
                i as int,
            ));
        }
        let p = powerups[i];
        let p_rect = player.get_rect();
        let o_rect = p.get_rect();
        if p.life > 0 && player.life > 0 && p_rect.intersects(&o_rect) {
            powerups.set(i, Entity { life: 0, ..p });
            collected = collected + 1;
            match p.typ {
                EntityType::PowerupHealth => {
                    if player.life < i32::MAX {
                        player.life = player.life + 1;
                    }
                },
                EntityType::PowerupShield => {
                    if player.shield < i32::MAX {
                        player.shield = player.shield + 1;
                    }
                },
                EntityType::PowerupNuke => {
                    let m = enemies.len();
                    let ghost pre = enemies@;
                    let mut j: usize = 0;
                    while j < m
                        invariant
                            j <= m,
                            m == enemies@.len(),
                            enemies@.len() == pre.len(),
                            forall|k: int|
                                0 <= k < j ==> enemies@[k] == (Entity { life: 0i32, ..pre[k] }),
                            forall|k: int| j <= k < m ==> enemies@[k] == pre[k],
                        decreases m - j,
                    {
                        let e = enemies[j];
                        enemies.set(j, Entity { life: 0, ..e });
                        j = j + 1;
                    }
                    proof {
                        assert(enemies@ =~= kill_all(pre));
                    }
                },
                EntityType::PowerupBulletSpeed => {
                    if *bullet_speed + BULLET_SPEED_STEP <= BULLET_SPEED_MAX {
                        *bullet_speed = *bullet_speed + BULLET_SPEED_STEP;
                    } else {
                        *bullet_speed = BULLET_SPEED_MAX;
                    }
                },
                _ => {},
            }
        }
        i = i + 1;
    }
    collected
}

/// Rules 2 and 3 of the collision pass; see `enemy_rule`.  Death particles
/// are appended to `particles`; returns how many.
#[verifier::loop_isolation(false)]
fn enemy_phase(
    player: &mut Entity,
    enemies: &mut Vec<Entity>,
    bullets: &mut Vec<Entity>,
    particles: &mut Vec<Entity>,
    score: &mut u64,
)
    requires
        entity_wf(*old(player)),
        all_wf(old(enemies)@),
        all_wf(old(bullets)@),
        all_wf(old(particles)@),
    ensures
        ({
            let r = enemy_fold(
                EnemyPhase {
                    player: *old(player),
                    enemies: old(enemies)@,
                    bullets: old(bullets)@,
                    origins: Seq::empty(),
                    score: *old(score) as int,
                },
                old(enemies)@.len() as int,
            );
            &&& *final(player) == r.player
            &&& final(enemies)@ == r.enemies
            &&& final(bullets)@ == r.bullets
            &&& *final(score) == r.score
            &&& final(particles)@.len() == old(particles)@.len() + r.origins.len()
            &&& (forall|k: int|
                0 <= k < old(particles)@.len() ==> final(particles)@[k] == old(particles)@[k])
            &&& (forall|k: int|
                0 <= k < r.origins.len() ==> particle_like(
                    #[trigger] final(particles)@[old(particles)@.len() + k],
                    r.origins[k],
                ))
        }),
        entity_wf(*final(player)),
        all_wf(final(enemies)@),
        all_wf(final(bullets)@),
        all_wf(final(particles)@),
{
    let ghost s0 = EnemyPhase {
        player: *player,
        enemies: enemies@,
        bullets: bullets@,
        origins: Seq::empty(),
        score: *score as int,
    };
    let ghost p0 = particles@;
    let n = enemies.len();
    let mut i: usize = 0;
    while i < n
        invariant
            i <= n,
            n == enemies@.len(),
            ({
                let r = enemy_fold(s0, i as int);
                &&& *player == r.player
                &&& enemies@ == r.enemies
                &&& bullets@ == r.bullets
                &&& *score == r.score
                &&& particles@.len() == p0.len() + r.origins.len()
                &&& (forall|k: int| 0 <= k < p0.len() ==> particles@[k] == p0[k])
                &&& (forall|k: int|
                    0 <= k < r.origins.len() ==> particle_like(
                        #[trigger] particles@[p0.len() + k],
                        r.origins[k],
                    ))
            }),
            entity_wf(*player),
            all_wf(enemies@),
            all_wf(bullets@),
            all_wf(particles@),
        decreases n - i,
    {
        proof {
            assert(enemy_fold(s0, i as int + 1) == enemy_rule(enemy_fold(s0, i as int), i as int));
        }
        let ghost s_i = enemy_fold(s0, i as int);
        let e = enemies[i];
        let p_rect = player.get_rect();
        let e_rect = e.get_rect();
        if e.life > 0 && player.life > 0 && p_rect.intersects(&e_rect) {
            enemies.set(i, Entity { life: 0, ..e });
            player.life = player.life - 1;
            particles.push(spawn_particle(&e));
            if player.life == 0 {
                let pl = *player;
                particles.push(spawn_particle(&pl));
            }
        }
        let ghost s_c = enemy_contact_rule(s_i, i as int);
        let m = bullets.len();
        proof {
            assert(m == s_c.bullets.len());
        }
        let mut j: usize = 0;
        while j < m
            invariant
                j <= m,
                m == bullets@.len(),
                n == enemies@.len(),
                ({
                    let r = bullet_enemy_fold(s_c, i as int, j as int);
                    &&& *player == r.player
                    &&& enemies@ == r.enemies
                    &&& bullets@ == r.bullets
                    &&& *score == r.score
                    &&& particles@.len() == p0.len() + r.origins.len()
                    &&& (forall|k: int| 0 <= k < p0.len() ==> particles@[k] == p0[k])
                    &&& (forall|k: int|
                        0 <= k < r.origins.len() ==> particle_like(
                            #[trigger] particles@[p0.len() + k],
                            r.origins[k],
                        ))
                }),
                entity_wf(*player),
                all_wf(enemies@),
                all_wf(bullets@),
                all_wf(particles@),
            decreases m - j,
        {
            proof {
                assert(bullet_enemy_fold(s_c, i as int, j as int + 1) == bullet_enemy_rule(
                    bullet_enemy_fold(s_c, i as int, j as int),
                    i as int,
                    j as int,
                ));
            }
            let b = bullets[j];
            let e2 = enemies[i];
            let b_rect = b.get_rect();
            let e2_rect = e2.get_rect();
            if b.typ == EntityType::Bullet && b.life > 0 && e2.life > 0 && b_rect.intersects(
                &e2_rect,
            ) {
                enemies.set(i, Entity { life: 0, ..e2 });
                bullets.set(j, Entity { life: 0, ..b });
                particles.push(spawn_particle(&e2));
                if *score <= u64::MAX - SCORE_KILL {
                    *score = *score + SCORE_KILL;
                } else {
                    *score = u64::MAX;
                }
            }
            j = j + 1;
        }
        proof {
            assert(enemy_rule(s_i, i as int) == bullet_enemy_fold(
                s_c,
                i as int,
                s_c.bullets.len() as int,
            ));
        }
        i = i + 1;
    }
}

/// Rule 4 of the collision pass; see `bullet_player_rule`.  Death
/// particles are appended to `particles`; returns how many.
#[verifier::loop_isolation(false)]
fn bullet_player_phase(
    player: &mut Entity,
    bullets: &mut Vec<Entity>,
    particles: &mut Vec<Entity>,
)
    requires
        entity_wf(*old(player)),
        all_wf(old(bullets)@),
        all_wf(old(particles)@),
    ensures
        ({
            let r = bullet_player_fold(
                BulletPlayerPhase {
                    player: *old(player),
                    bullets: old(bullets)@,
                    origins: Seq::empty(),
                },
                old(bullets)@.len() as int,
            );
            &&& *final(player) == r.player
            &&& final(bullets)@ == r.bullets
            &&& final(particles)@.len() == old(particles)@.len() + r.origins.len()
            &&& (forall|k: int|
                0 <= k < old(particles)@.len() ==> final(particles)@[k] == old(particles)@[k])
            &&& (forall|k: int|
                0 <= k < r.origins.len() ==> particle_like(
                    #[trigger] final(particles)@[old(particles)@.len() + k],
                    r.origins[k],
                ))
        }),
        entity_wf(*final(player)),
        all_wf(final(bullets)@),
        all_wf(final(particles)@),
{
    let ghost s0 = BulletPlayerPhase { player: *player, bullets: bullets@, origins: Seq::empty() };
    let ghost p0 = particles@;
    let m = bullets.len();
    let mut j: usize = 0;
    while j < m
        invariant
            j <= m,
            m == bullets@.len(),
            ({
                let r = bullet_player_fold(s0, j as int);
                &&& *player == r.player
                &&& bullets@ == r.bullets
                &&& particles@.len() == p0.len() + r.origins.len()
                &&& (forall|k: int| 0 <= k < p0.len() ==> particles@[k] == p0[k])
                &&& (forall|k: int|
                    0 <= k < r.origins.len() ==> particle_like(
                        #[trigger] particles@[p0.len() + k],
                        r.origins[k],
                    ))
            }),
            entity_wf(*player),
            all_wf(bullets@),
            all_wf(particles@),
        decreases m - j,
    {
        proof {
            assert(bullet_player_fold(s0, j as int + 1) == bullet_player_rule(
                bullet_player_fold(s0, j as int),
                j as int,
            ));
        }
        let b = bullets[j];
        let b_rect = b.get_rect();
        let p_rect = player.get_rect();
        if b.typ == EntityType::EnemyBullet && b.life > 0 && player.life > 0 && b_rect.intersects(
            &p_rect,
        ) {
            let pl = *player;
            player.life = player.life - 1;
            bullets.set(j, Entity { life: 0, ..b });
            if player.life == 0 {
                particles.push(spawn_particle(&pl));
            }
        }
        j = j + 1;
    }
}

/// Whether a held fire button shoots on this tick: the tick counter falls
/// in the firing window of its period.
pub fn autofire_due(ticks: u32) -> (r: bool)
    ensures
        r == (ticks % AUTOFIRE_PERIOD < AUTOFIRE_WINDOW),
{
    ticks % AUTOFIRE_PERIOD < AUTOFIRE_WINDOW
}

/// What the collision pass reports back to the loop, for the audio cues.
#[derive(Clone, Copy, PartialEq, Eq, Structural, Debug)]
pub struct CollisionCues {
    pub collected: usize,
    pub explosions: usize,
}

impl World {
    /// A fresh world: the player at the spawn point with full life, three
    /// enemies seeded, nothing else in the arena, score zero.
    pub fn new() -> (w: World)
        ensures
            world_wf(w),
            w.player == initial_player(),
            w.enemies@.len() == INITIAL_ENEMIES,
            forall|i: int| 0 <= i < w.enemies@.len() ==> enemy_ok(#[trigger] w.enemies@[i]),
            w.bullets@.len() == 0,
            w.particles@.len() == 0,
            w.powerups@.len() == 0,
            w.score == 0,
            w.bullet_speed == BULLET_SPEED,
            w.spawn_timer == 0,
            w.powerup_timer == 0,
    {
        let mut player = Entity::new(EntityType::Player);
        player.trans.pos = Vec2I { x: PLAYER_SPAWN_X_M, y: PLAYER_SPAWN_Y_M };
        player.trans.scale = Vec2I { x: SPRITE_SCALE_M, y: SPRITE_SCALE_M };
        player.anim = Animation::construct(1, 0, 1, 8, 8, 1, true);
        let mut enemies: Vec<Entity> = Vec::new();
        enemies.push(spawn_enemy());
        enemies.push(spawn_enemy());
        enemies.push(spawn_enemy());
        World {
            player,
            enemies,
            bullets: Vec::new(),
            particles: Vec::new(),
            powerups: Vec::new(),
            score: 0,
            bullet_speed: BULLET_SPEED,
            spawn_timer: 0,
            powerup_timer: 0,
        }
    }

    /// Moves the player by the held keys; part of the frame before the
    /// generic update passes.
    pub fn update_player(&mut self, keys: &crate::entity::MoveKeys, dt: u32)
        requires
            world_wf(*old(self)),
        ensures
            world_wf(*final(self)),
            final(self).player == crate::entity::player_step_position(
                old(self).player,
                *keys,
                dt,
            ),
            final(self).enemies@ == old(self).enemies@,
            final(self).bullets@ == old(self).bullets@,
            final(self).particles@ == old(self).particles@,
            final(self).powerups@ == old(self).powerups@,
            final(self).score == old(self).score,
            final(self).bullet_speed == old(self).bullet_speed,
            final(self).spawn_timer == old(self).spawn_timer,
            final(self).powerup_timer == old(self).powerup_timer,
    {
        self.player.update_position(keys, dt);
    }

    /// Advances the two spawn timers by `dt`; each one that runs past its
    /// rate spawns (an enemy, a powerup) and resets.
    pub fn tick_spawns(&mut self, dt: u32) -> (ev: SpawnEvents)
        requires
            world_wf(*old(self)),
        ensures
            world_wf(*final(self)),
            ev.enemy == (old(self).spawn_timer + dt > SPAWN_RATE),
            ev.powerup == (old(self).powerup_timer + dt > POWERUP_RATE),
            ev.enemy ==> final(self).enemies@.len() == old(self).enemies@.len() + 1
                && final(self).enemies@.subrange(0, old(self).enemies@.len() as int)
                == old(self).enemies@ && enemy_ok(final(self).enemies@.last()) && final(self).spawn_timer == 0,
            !ev.enemy ==> final(self).enemies@ == old(self).enemies@ && final(self).spawn_timer
                == old(self).spawn_timer + dt,
            ev.powerup ==> final(self).powerups@.len() == old(self).powerups@.len() + 1
                && final(self).powerups@.subrange(0, old(self).powerups@.len() as int)
                == old(self).powerups@ && powerup_ok(final(self).powerups@.last()) && final(self).powerup_timer
                == 0,
            !ev.powerup ==> final(self).powerups@ == old(self).powerups@
                && final(self).powerup_timer == old(self).powerup_timer + dt,
            final(self).player == old(self).player,
            final(self).bullets@ == old(self).bullets@,
            final(self).particles@ == old(self).particles@,
            final(self).score == old(self).score,
            final(self).bullet_speed == old(self).bullet_speed,
    {
        let mut ev = SpawnEvents { enemy: false, powerup: false };
        self.spawn_timer = self.spawn_timer + dt as u64;
        if self.spawn_timer > SPAWN_RATE {
            self.enemies.push(spawn_enemy());
            self.spawn_timer = 0;
            ev.enemy = true;
        }
        self.powerup_timer = self.powerup_timer + dt as u64;
        if self.powerup_timer > POWERUP_RATE {
            self.powerups.push(spawn_powerup());
            self.powerup_timer = 0;
            ev.powerup = true;
        }
        ev
    }

    /// The frame update pass over the enemies, with enemy fire; fired
    /// bullets are appended to the bullet collection in enemy order.
    pub fn update_enemies(&mut self, dt: u32, ticks: u32) -> (fired: usize)
        requires
            world_wf(*old(self)),
        ensures
            world_wf(*final(self)),
            final(self).enemies@.len() == old(self).enemies@.len(),
            forall|i: int|
                0 <= i < old(self).enemies@.len() ==> final(self).enemies@[i] == entity_step(
                    old(self).enemies@[i],
                    dt,
                ),
            final(self).bullets@ == old(self).bullets@ + fired_bullets(
                old(self).enemies@,
                old(self).player,
                dt,
                ticks,
            ),
            fired == fired_bullets(old(self).enemies@, old(self).player, dt, ticks).len(),
            final(self).player == old(self).player,
            final(self).particles@ == old(self).particles@,
            final(self).powerups@ == old(self).powerups@,
            final(self).score == old(self).score,
            final(self).bullet_speed == old(self).bullet_speed,
            final(self).spawn_timer == old(self).spawn_timer,
            final(self).powerup_timer == old(self).powerup_timer,
    {
        step_enemies_and_fire(&mut self.enemies, &mut self.bullets, &self.player, dt, ticks)
    }

    /// The frame update pass over the bullets.
    pub fn update_bullets(&mut self, dt: u32)
        requires
            world_wf(*old(self)),
        ensures
            world_wf(*final(self)),
            final(self).bullets@.len() == old(self).bullets@.len(),
            forall|i: int|
                0 <= i < old(self).bullets@.len() ==> final(self).bullets@[i] == entity_step(
                    old(self).bullets@[i],
                    dt,
                ),
            final(self).player == old(self).player,
            final(self).enemies@ == old(self).enemies@,
            final(self).particles@ == old(self).particles@,
            final(self).powerups@ == old(self).powerups@,
            final(self).score == old(self).score,
            final(self).bullet_speed == old(self).bullet_speed,
            final(self).spawn_timer == old(self).spawn_timer,
            final(self).powerup_timer == old(self).powerup_timer,
    {
        step_all(&mut self.bullets, dt);
    }

    /// The frame update pass over the particles; a particle whose one-shot
    /// animation finished comes out of it dead.
    pub fn update_particles(&mut self, dt: u32)
        requires
            world_wf(*old(self)),
        ensures
            world_wf(*final(self)),
            final(self).particles@.len() == old(self).particles@.len(),
            forall|i: int|
                0 <= i < old(self).particles@.len() ==> final(self).particles@[i] == entity_step(
                    old(self).particles@[i],
                    dt,
                ),
            final(self).player == old(self).player,
            final(self).enemies@ == old(self).enemies@,
            final(self).bullets@ == old(self).bullets@,
            final(self).powerups@ == old(self).powerups@,
            final(self).score == old(self).score,
            final(self).bullet_speed == old(self).bullet_speed,
            final(self).spawn_timer == old(self).spawn_timer,
            final(self).powerup_timer == old(self).powerup_timer,
    {
        step_all(&mut self.particles, dt);
    }

    /// Fires a player bullet from the player toward `target` at the
    /// current (possibly powered-up) bullet speed — but only while the
    /// player is alive.
    pub fn fire_player_bullet(&mut self, target: &Vec2I) -> (fired: bool)
        requires
            world_wf(*old(self)),
            -POS_LIMIT <= target.x <= POS_LIMIT,
            -POS_LIMIT <= target.y <= POS_LIMIT,
        ensures
            world_wf(*final(self)),
            fired == (old(self).player.life > 0),
            fired ==> final(self).bullets@ == old(self).bullets@.push(
                aimed_bullet(
                    EntityType::Bullet,
                    old(self).player,
                    *target,
                    old(self).bullet_speed as int,
                    1,
                    1,
                ),
            ),
            !fired ==> final(self).bullets@ == old(self).bullets@,
            final(self).player == old(self).player,
            final(self).enemies@ == old(self).enemies@,
            final(self).particles@ == old(self).particles@,
            final(self).powerups@ == old(self).powerups@,
            final(self).score == old(self).score,
            final(self).bullet_speed == old(self).bullet_speed,
            final(self).spawn_timer == old(self).spawn_timer,
            final(self).powerup_timer == old(self).powerup_timer,
    {
        if self.player.life > 0 {
            let b = spawn_aimed(EntityType::Bullet, &self.player, target, self.bullet_speed, 1, 1);
            self.bullets.push(b);
            true
        } else {
            false
        }
    }

    /// The collision and lifecycle pass, in its fixed order: the player
    /// consumes powerups, the player collides with enemies, player bullets
    /// shoot enemies, enemy bullets hit the player.  Each rule applies
    /// only between entities still alive when it is reached, so nothing
    /// takes two hits in one frame; death particles are appended to the
    /// particle collection in event order.
    pub fn collision_pass(&mut self) -> (cues: CollisionCues)
        requires
            world_wf(*old(self)),
        ensures
            world_wf(*final(self)),
            ({
                let r = collision_spec(
                    old(self).player,
                    old(self).enemies@,
                    old(self).bullets@,
                    old(self).powerups@,
                    old(self).score as int,
                    old(self).bullet_speed as int,
                );
                &&& final(self).player == r.player
                &&& final(self).enemies@ == r.enemies
                &&& final(self).bullets@ == r.bullets
                &&& final(self).powerups@ == r.powerups
                &&& final(self).score == r.score
                &&& final(self).bullet_speed == r.bullet_speed
                &&& final(self).particles@.len() == old(self).particles@.len() + r.origins.len()
                &&& (forall|k: int|
                    0 <= k < old(self).particles@.len() ==> final(self).particles@[k] == old(
                        self,
                    ).particles@[k])
                &&& (forall|k: int|
                    0 <= k < r.origins.len() ==> particle_like(
                        #[trigger] final(self).particles@[old(self).particles@.len() + k],
                        r.origins[k],
                    ))
                &&& cues.collected == r.collected
                &&& cues.explosions == r.origins.len()
            }),
            final(self).spawn_timer == old(self).spawn_timer,
            final(self).powerup_timer == old(self).powerup_timer,
    {
        let base = self.particles.len();
        let collected = powerup_phase(
            &mut self.player,
            &mut self.powerups,
            &mut self.enemies,
            &mut self.bullet_speed,
        );
        let ghost mid1 = *self;
        enemy_phase(
            &mut self.player,
            &mut self.enemies,
            &mut self.bullets,
            &mut self.particles,
            &mut self.score,
        );
        let ghost mid2 = *self;
        bullet_player_phase(&mut self.player, &mut self.bullets, &mut self.particles);
        proof {
            let r = collision_spec(
                old(self).player,
                old(self).enemies@,
                old(self).bullets@,
                old(self).powerups@,
                old(self).score as int,
                old(self).bullet_speed as int,
            );
            let r2 = enemy_fold(
                EnemyPhase {
                    player: mid1.player,
                    enemies: mid1.enemies@,
                    bullets: mid1.bullets@,
                    origins: Seq::empty(),
                    score: mid1.score as int,
                },
                mid1.enemies@.len() as int,
            );
            let r3 = bullet_player_fold(
                BulletPlayerPhase {
                    player: mid2.player,
                    bullets: mid2.bullets@,
                    origins: Seq::empty(),
                },
                mid2.bullets@.len() as int,
            );
            assert(r.origins == r2.origins + r3.origins);
            assert forall|k: int| 0 <= k < r.origins.len() implies particle_like(
                #[trigger] self.particles@[old(self).particles@.len() + k],
                r.origins[k],
            ) by {
                if k < r2.origins.len() {
                    assert(self.particles@[old(self).particles@.len() + k]
                        == mid2.particles@[old(self).particles@.len() + k]);
                    assert(particle_like(
                        mid2.particles@[old(self).particles@.len() + k],
                        r2.origins[k],
                    ));
                    assert(r.origins[k] == r2.origins[k]);
                } else {
                    let k2 = k - r2.origins.len();
                    assert(particle_like(
                        self.particles@[mid2.particles@.len() + k2],
                        r3.origins[k2],
                    ));
                    assert(mid2.particles@.len() + k2 == old(self).particles@.len() + k);
                    assert(self.particles@[mid2.particles@.len() + k2] == self.particles@[old(
                        self,
                    ).particles@.len() + k]);
                    assert(r.origins[k] == r3.origins[k2]);
                }
            }
        }
        let total = self.particles.len();
        CollisionCues { collected, explosions: total - base }
    }

    /// The retention pass: each collection keeps exactly its live
    /// entities, in order.
    pub fn retention_pass(&mut self)
        requires
            world_wf(*old(self)),
        ensures
            world_wf(*final(self)),
            final(self).enemies@ == alive_of(old(self).enemies@),
            final(self).bullets@ == alive_of(old(self).bullets@),
            final(self).particles@ == alive_of(old(self).particles@),
            final(self).powerups@ == alive_of(old(self).powerups@),
            final(self).player == old(self).player,
            final(self).score == old(self).score,
            final(self).bullet_speed == old(self).bullet_speed,
            final(self).spawn_timer == old(self).spawn_timer,
            final(self).powerup_timer == old(self).powerup_timer,
    {
        proof {
            lemma_retention_alive(old(self).enemies@);
            lemma_retention_alive(old(self).bullets@);
            lemma_retention_alive(old(self).particles@);
            lemma_retention_alive(old(self).powerups@);
        }
        retain_alive(&mut self.enemies);
        retain_alive(&mut self.bullets);
        retain_alive(&mut self.particles);
        retain_alive(&mut self.powerups);
    }

    /// Restart after a game over: only when the player's life is zero, it
    /// is reset to the spawn point with full life, the enemy and powerup
    /// collections are cleared and exactly three fresh enemies are seeded,
    /// the score returns to zero, and the bullet speed loses its powerups.
    pub fn handle_restart(&mut self) -> (restarted: bool)
        requires
            world_wf(*old(self)),
        ensures
            world_wf(*final(self)),
            restarted == (old(self).player.life == 0),
            restarted ==> final(self).player == (Entity {
                life: START_LIFE,
                trans: (Transform {
                    pos: (Vec2I { x: PLAYER_SPAWN_X_M, y: PLAYER_SPAWN_Y_M }),
                    ..old(self).player.trans
                }),
                ..old(self).player
            }),
            restarted ==> final(self).enemies@.len() == INITIAL_ENEMIES,
            restarted ==> forall|i: int|
                0 <= i < final(self).enemies@.len() ==> enemy_ok(#[trigger] final(self).enemies@[i]),
            restarted ==> final(self).powerups@.len() == 0,
            restarted ==> final(self).score == 0,
            restarted ==> final(self).bullet_speed == BULLET_SPEED,
            !restarted ==> *final(self) == *old(self),
            final(self).bullets@ == old(self).bullets@,
            final(self).particles@ == old(self).particles@,
            final(self).spawn_timer == old(self).spawn_timer,
            final(self).powerup_timer == old(self).powerup_timer,
    {
        if self.player.life == 0 {
            self.player.life = START_LIFE;
            self.player.trans.pos = Vec2I { x: PLAYER_SPAWN_X_M, y: PLAYER_SPAWN_Y_M };
            let mut enemies: Vec<Entity> = Vec::new();
            enemies.push(spawn_enemy());
            enemies.push(spawn_enemy());
            enemies.push(spawn_enemy());
            self.enemies = enemies;
            self.powerups = Vec::new();
            self.score = 0;
            self.bullet_speed = BULLET_SPEED;
            true
        } else {
            false
        }
    }
}

} // verus!
