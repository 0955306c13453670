//! Game entities: the tagged union of everything that lives in the arena,
//! its per-frame step (motion, boundary bounce, animation, expiry), and the
//! spawner factories for each entity kind.

use vstd::prelude::*;
use crate::anim::{anim_step, anim_wf, Animation, ANIM_LIMIT};
use crate::config::{
    BULLET_SPEED, ENEMY_SPEED, MILLI, PLAYER_SPEED, POS_LIMIT, SCALE_LIMIT,
    SCREEN_HEIGHT, SCREEN_HEIGHT_M, SCREEN_WIDTH, SCREEN_WIDTH_M, SHIELD_SCALE_M, SPAWN_INSET_HI,
    SPAWN_INSET_LO, SPRITE_SCALE_M, START_LIFE, START_SHIELD, VEL_LIMIT,
};
use crate::geom::{
    aim_vel_x, aim_vel_y, aim_velocity, clamp_coord, lemma_mul_bound, Rect, Vec2I,
};
use crate::rng::random_in_range;

verus! {

/// Position, velocity and bounding-box extent of one entity.  The facing
/// angle a renderer draws is derived data — it follows the velocity (or,
/// for the player, the aim target) — so only the vectors are state.
#[derive(Clone, Copy, PartialEq, Eq, Structural, Debug)]
pub struct Transform {
    pub pos: Vec2I,
    pub vel: Vec2I,
    pub scale: Vec2I,
}

/// Well-formedness of a transform: position, velocity and extent stay
/// within the representable playing field.
pub open spec fn transform_wf(t: Transform) -> bool {
    &&& -POS_LIMIT <= t.pos.x <= POS_LIMIT
    &&& -POS_LIMIT <= t.pos.y <= POS_LIMIT
    &&& -VEL_LIMIT <= t.vel.x <= VEL_LIMIT
    &&& -VEL_LIMIT <= t.vel.y <= VEL_LIMIT
    &&& 0 <= t.scale.x <= SCALE_LIMIT
    &&& 0 <= t.scale.y <= SCALE_LIMIT
}

/// One motion step: the position advances by `vel * dt` and saturates at
/// the representable field, everything else is unchanged.
pub open spec fn integrate(t: Transform, dt: u32) -> Transform {
    Transform {
        pos: Vec2I {
            x: clamp_coord(t.pos.x + t.vel.x * dt) as i64,
            y: clamp_coord(t.pos.y + t.vel.y * dt) as i64,
        },
        ..t
    }
}

/// The bounding box of a transform: corner at `pos`, extent `scale`.
pub open spec fn rect_of(t: Transform) -> Rect {
    Rect { x: t.pos.x, y: t.pos.y, w: t.scale.x, h: t.scale.y }
}

impl Transform {
    /// A transform at the origin, at rest, with no extent.
    pub fn new() -> (t: Transform)
        ensures
            t == (Transform {
                pos: Vec2I { x: 0i64, y: 0i64 },
                vel: Vec2I { x: 0i64, y: 0i64 },
                scale: Vec2I { x: 0i64, y: 0i64 },
            }),
            transform_wf(t),
    {
        Transform { pos: Vec2I::zero(), vel: Vec2I::zero(), scale: Vec2I::zero() }
    }

    /// Integrates the motion over `dt` milliseconds.
    pub fn update(&mut self, dt: u32)
        requires
            transform_wf(*old(self)),
        ensures
            *final(self) == integrate(*old(self), dt),
            transform_wf(*final(self)),
    {
        proof {
            lemma_mul_bound(old(self).vel.x as int, dt as int, VEL_LIMIT as int, u32::MAX as int);
            lemma_mul_bound(old(self).vel.y as int, dt as int, VEL_LIMIT as int, u32::MAX as int);
        }
        let mx: i64 = self.pos.x + self.vel.x * (dt as i64);
        let my: i64 = self.pos.y + self.vel.y * (dt as i64);
        self.pos = Vec2I {
            x: if mx < -POS_LIMIT {
                -POS_LIMIT
            } else if mx > POS_LIMIT {
                POS_LIMIT
            } else {
                mx
            },
            y: if my < -POS_LIMIT {
                -POS_LIMIT
            } else if my > POS_LIMIT {
                POS_LIMIT
            } else {
                my
            },
        };
    }

    /// The bounding box used by the collision pass and the renderer.
    pub fn get_rect(&self) -> (r: Rect)
        ensures
            r == rect_of(*self),
    {
        Rect { x: self.pos.x, y: self.pos.y, w: self.scale.x, h: self.scale.y }
    }
}

/// The kinds of entity the arena knows.
#[derive(Clone, Copy, PartialEq, Eq, Structural, Debug)]
pub enum EntityType {
    Player,
    Enemy,
    Bullet,
    EnemyBullet,
    Particle,
    PowerupHealth,
    PowerupShield,
    PowerupBulletSpeed,
    PowerupNuke,
}

/// One simulated game object.  `life <= 0` marks it dead: the retention
/// pass drops it, and no later pass touches it again.
#[derive(Clone, Copy, PartialEq, Eq, Structural, Debug)]
pub struct Entity {
    pub typ: EntityType,
    pub trans: Transform,
    pub anim: Animation,
    pub life: i32,
    pub shield: i32,
}

/// Well-formedness of an entity.
pub open spec fn entity_wf(e: Entity) -> bool {
    &&& transform_wf(e.trans)
    &&& anim_wf(e.anim)
}

/// One axis of the boundary policy, low edge: a position past the margin
/// `2 * scale` outside the arena reflects the velocity and clamps the
/// position onto the margin.  Yields (position, velocity, bounced).
pub open spec fn bounce_low(p: int, v: int, s: int) -> (int, int, bool) {
    if p < -(2 * s) {
        (-(2 * s), -v, true)
    } else {
        (p, v, false)
    }
}

/// High-edge counterpart of `bounce_low`: a position past the margin
/// `2 * scale` beyond the high edge reflects the velocity and clamps the
/// position onto that margin, `edge + 2 * scale`.
pub open spec fn bounce_high(p: int, v: int, s: int, edge: int) -> (int, int, bool) {
    if p > edge + 2 * s {
        (edge + 2 * s, -v, true)
    } else {
        (p, v, false)
    }
}

/// Both edges of one axis, low edge checked first.
pub open spec fn bounce_axis(p: int, v: int, s: int, edge: int) -> (int, int, bool) {
    let low = bounce_low(p, v, s);
    let high = bounce_high(low.0, low.1, s, edge);
    (high.0, high.1, low.2 || high.2)
}

/// Decrement that saturates instead of wrapping at the numeric floor.
pub open spec fn dec_life(l: i32) -> int {
    if l > i32::MIN {
        l - 1
    } else {
        l as int
    }
}

/// Whether the motion step of `e` over `dt` crosses the arena margin on
/// some axis.
pub open spec fn step_out_of_bounds(e: Entity, dt: u32) -> bool {
    let t = integrate(e.trans, dt);
    bounce_axis(t.pos.x as int, t.vel.x as int, t.scale.x as int, SCREEN_WIDTH_M as int).2 || bounce_axis(
        t.pos.y as int,
        t.vel.y as int,
        t.scale.y as int,
        SCREEN_HEIGHT_M as int,
    ).2
}

/// The frame-update step of one entity: integrate the motion, apply the
/// boundary policy, draw the kind-specific consequence of leaving the
/// arena (projectiles expire, enemies lose one life), advance the
/// animation, and expire a particle whose animation has finished.
pub open spec fn entity_step(e: Entity, dt: u32) -> Entity {
    let t = integrate(e.trans, dt);
    let bx = bounce_axis(t.pos.x as int, t.vel.x as int, t.scale.x as int, SCREEN_WIDTH_M as int);
    let by = bounce_axis(t.pos.y as int, t.vel.y as int, t.scale.y as int, SCREEN_HEIGHT_M as int);
    let oob = bx.2 || by.2;
    let t2 = Transform {
        pos: Vec2I { x: bx.0 as i64, y: by.0 as i64 },
        vel: Vec2I { x: bx.1 as i64, y: by.1 as i64 },
        scale: t.scale,
    };
    let life1: int = if (e.typ == EntityType::Bullet || e.typ == EntityType::EnemyBullet) && oob {
        0
    } else if e.typ == EntityType::Enemy && oob {
        dec_life(e.life)
    } else {
        e.life as int
    };
    let a2 = anim_step(e.anim, dt);
    let life2: int = if e.typ == EntityType::Particle && a2.finished {
        0
    } else {
        life1
    };
    Entity { trans: t2, anim: a2, life: life2 as i32, ..e }
}

impl Entity {
    /// A fresh entity of kind `t` with the default life and shield, at
    /// rest at the origin, with a blank single-frame animation.
    pub fn new(t: EntityType) -> (e: Entity)
        ensures
            e.typ == t,
            e.trans == (Transform {
                pos: Vec2I { x: 0i64, y: 0i64 },
                vel: Vec2I { x: 0i64, y: 0i64 },
                scale: Vec2I { x: 0i64, y: 0i64 },
            }),
            e.anim == (Animation {
                total_frames: 1i32,
                current_frame: 0i32,
                first_row: 0i32,
                first_col: 0i32,
                frame_w: 0i32,
                frame_h: 0i32,
                frames_per_sec: 0i32,
                timer_ms: 0u64,
                repeated: true,
                finished: false,
            }),
            e.life == START_LIFE,
            e.shield == START_SHIELD,
            entity_wf(e),
    {
        Entity {
            trans: Transform::new(),
            anim: Animation::new(),
            life: START_LIFE,
            shield: START_SHIELD,
            typ: t,
        }
    }

    /// The entity's bounding box.
    pub fn get_rect(&self) -> (r: Rect)
        ensures
            r == rect_of(self.trans),
    {
        self.trans.get_rect()
    }

    /// The frame-update step; see `entity_step`.
    pub fn update(&mut self, dt: u32)
        requires
            entity_wf(*old(self)),
        ensures
            *final(self) == entity_step(*old(self), dt),
            entity_wf(*final(self)),
    {
        let mut out_of_bounds = false;
        self.trans.update(dt);
        if self.trans.pos.x < -(self.trans.scale.x * 2) {
            self.trans.vel = Vec2I { x: -self.trans.vel.x, y: self.trans.vel.y };
            self.trans.pos = Vec2I { x: -(self.trans.scale.x * 2), y: self.trans.pos.y };
            out_of_bounds = true;
        }
        if self.trans.pos.x > SCREEN_WIDTH_M + self.trans.scale.x * 2 {
            self.trans.vel = Vec2I { x: -self.trans.vel.x, y: self.trans.vel.y };
            self.trans.pos = Vec2I {
                x: SCREEN_WIDTH_M + self.trans.scale.x * 2,
                y: self.trans.pos.y,
            };
            out_of_bounds = true;
        }
        if self.trans.pos.y < -(self.trans.scale.y * 2) {
            self.trans.vel = Vec2I { x: self.trans.vel.x, y: -self.trans.vel.y };
            self.trans.pos = Vec2I { x: self.trans.pos.x, y: -(self.trans.scale.y * 2) };
            out_of_bounds = true;
        }
        if self.trans.pos.y > SCREEN_HEIGHT_M + self.trans.scale.y * 2 {
            self.trans.vel = Vec2I { x: self.trans.vel.x, y: -self.trans.vel.y };
            self.trans.pos = Vec2I {
                x: self.trans.pos.x,
                y: SCREEN_HEIGHT_M + self.trans.scale.y * 2,
            };
            out_of_bounds = true;
        }
        if (matches!(self.typ, EntityType::Bullet) || matches!(self.typ, EntityType::EnemyBullet))
            && out_of_bounds {
            self.life = 0;
        }
        if matches!(self.typ, EntityType::Enemy) && out_of_bounds {
            if self.life > i32::MIN {
                self.life = self.life - 1;
            }
        }
        self.anim.update(dt);
        if self.anim.finished && matches!(self.typ, EntityType::Particle) {
            self.life = 0;
        }
    }

    /// Moves the player by the held movement keys: the key directions sum,
    /// the sum is normalized and scaled to `PLAYER_SPEED`, and the position
    /// advances by `dt`.  No keys held means no motion.  The player is not
    /// subject to the boundary policy.
    pub fn update_position(&mut self, keys: &MoveKeys, dt: u32)
        requires
            entity_wf(*old(self)),
        ensures
            *final(self) == player_step_position(*old(self), *keys, dt),
            entity_wf(*final(self)),
    {
        let sx: i64 = (if keys.right {
            1i64
        } else {
            0i64
        }) - (if keys.left {
            1i64
        } else {
            0i64
        });
        let sy: i64 = (if keys.down {
            1i64
        } else {
            0i64
        }) - (if keys.up {
            1i64
        } else {
            0i64
        });
        if sx == 0 && sy == 0 {
            self.trans.vel = Vec2I::zero();
        } else {
            self.trans.vel = aim_velocity(MILLI * sx, MILLI * sy, PLAYER_SPEED);
            self.trans.update(dt);
        }
    }
}

/// The movement keys held during one frame.
#[derive(Clone, Copy, PartialEq, Eq, Structural, Debug)]
pub struct MoveKeys {
    pub up: bool,
    pub left: bool,
    pub down: bool,
    pub right: bool,
}

/// Sum of the horizontal key directions: right minus left.
pub open spec fn key_sum_x(k: MoveKeys) -> int {
    (if k.right {
        1int
    } else {
        0int
    }) - (if k.left {
        1int
    } else {
        0int
    })
}

/// Sum of the vertical key directions: down minus up.
pub open spec fn key_sum_y(k: MoveKeys) -> int {
    (if k.down {
        1int
    } else {
        0int
    }) - (if k.up {
        1int
    } else {
        0int
    })
}

/// The player motion step; see `Entity::update_position`.
pub open spec fn player_step_position(e: Entity, k: MoveKeys, dt: u32) -> Entity {
    let sx = key_sum_x(k);
    let sy = key_sum_y(k);
    if sx == 0 && sy == 0 {
        Entity { trans: Transform { vel: Vec2I { x: 0i64, y: 0i64 }, ..e.trans }, ..e }
    } else {
        let vel = Vec2I {
            x: aim_vel_x(MILLI * sx, MILLI * sy, PLAYER_SPEED as int) as i64,
            y: aim_vel_y(MILLI * sx, MILLI * sy, PLAYER_SPEED as int) as i64,
        };
        Entity { trans: integrate(Transform { vel, ..e.trans }, dt), ..e }
    }
}

/// A static single-cell animation showing sheet cell `(fr, fc)`; projectiles
/// and the player ship use it.
pub open spec fn static_anim(fr: i32, fc: i32) -> Animation {
    Animation {
        total_frames: 1i32,
        current_frame: 0i32,
        first_row: fr,
        first_col: fc,
        frame_w: 8i32,
        frame_h: 8i32,
        frames_per_sec: 1i32,
        timer_ms: 0u64,
        repeated: true,
        finished: false,
    }
}

/// A projectile fired by `from` toward `target` at `speed`: it starts at
/// the shooter's position and flies along the aimed direction.  The
/// renderer derives its facing from `vel`.
pub open spec fn aimed_bullet(
    typ: EntityType,
    from: Entity,
    target: Vec2I,
    speed: int,
    fr: i32,
    fc: i32,
) -> Entity {
    Entity {
        typ,
        trans: Transform {
            pos: from.trans.pos,
            vel: Vec2I {
                x: aim_vel_x(
                    target.x - from.trans.pos.x,
                    target.y - from.trans.pos.y,
                    speed,
                ) as i64,
                y: aim_vel_y(
                    target.x - from.trans.pos.x,
                    target.y - from.trans.pos.y,
                    speed,
                ) as i64,
            },
            scale: Vec2I { x: SPRITE_SCALE_M, y: SPRITE_SCALE_M },
        },
        anim: static_anim(fr, fc),
        life: START_LIFE,
        shield: START_SHIELD,
    }
}

/// Shared factory of the two projectile spawners (the world's firing pass
/// also uses it, with the current powered-up bullet speed).
pub(crate) fn spawn_aimed(
    typ: EntityType,
    p: &Entity,
    v: &Vec2I,
    speed: i64,
    fr: i32,
    fc: i32,
) -> (e: Entity)
    requires
        entity_wf(*p),
        -POS_LIMIT <= v.x <= POS_LIMIT,
        -POS_LIMIT <= v.y <= POS_LIMIT,
        0 < speed <= VEL_LIMIT,
        0 <= fr <= ANIM_LIMIT,
        0 <= fc <= ANIM_LIMIT,
    ensures
        e == aimed_bullet(typ, *p, *v, speed as int, fr, fc),
        entity_wf(e),
{
    let mut e = Entity::new(typ);
    e.trans.pos = p.trans.pos;
    e.trans.vel = aim_velocity(v.x - p.trans.pos.x, v.y - p.trans.pos.y, speed);
    e.anim = Animation::construct(1, fr, fc, 8, 8, 1, true);
    e.trans.scale = Vec2I { x: SPRITE_SCALE_M, y: SPRITE_SCALE_M };
    e
}

/// Spawns a player bullet flying from `p` toward `v` at `BULLET_SPEED`.
pub fn spawn_bullet(p: &Entity, v: &Vec2I) -> (e: Entity)
    requires
        entity_wf(*p),
        -POS_LIMIT <= v.x <= POS_LIMIT,
        -POS_LIMIT <= v.y <= POS_LIMIT,
    ensures
        e == aimed_bullet(EntityType::Bullet, *p, *v, BULLET_SPEED as int, 1, 1),
        entity_wf(e),
{
    spawn_aimed(EntityType::Bullet, p, v, BULLET_SPEED, 1, 1)
}

/// Spawns an enemy bullet flying from `p` toward `v`; it differs from a
/// player bullet in kind and sheet cell.
pub fn spawn_enemy_bullet(p: &Entity, v: &Vec2I) -> (e: Entity)
    requires
        entity_wf(*p),
        -POS_LIMIT <= v.x <= POS_LIMIT,
        -POS_LIMIT <= v.y <= POS_LIMIT,
    ensures
        e == aimed_bullet(EntityType::EnemyBullet, *p, *v, BULLET_SPEED as int, 1, 0),
        entity_wf(e),
{
    spawn_aimed(EntityType::EnemyBullet, p, v, BULLET_SPEED, 1, 0)
}

/// What every freshly spawned enemy satisfies: a random position within
/// the inset arena, a random nonzero velocity bounded by `ENEMY_SPEED`,
/// and a sheet cell from the enemy pool.
pub open spec fn enemy_ok(e: Entity) -> bool {
    &&& e.typ == EntityType::Enemy
    &&& e.life == START_LIFE
    &&& e.shield == START_SHIELD
    &&& SPAWN_INSET_LO * MILLI <= e.trans.pos.x <= (SCREEN_WIDTH - SPAWN_INSET_HI) * MILLI
    &&& SPAWN_INSET_LO * MILLI <= e.trans.pos.y <= (SCREEN_HEIGHT - SPAWN_INSET_HI) * MILLI
    &&& -ENEMY_SPEED <= e.trans.vel.x <= ENEMY_SPEED
    &&& -ENEMY_SPEED <= e.trans.vel.y <= ENEMY_SPEED
    &&& !(e.trans.vel.x == 0 && e.trans.vel.y == 0)
    &&& e.trans.scale == (Vec2I { x: SPRITE_SCALE_M, y: SPRITE_SCALE_M })
    &&& e.anim.total_frames == 1
    &&& e.anim.current_frame == 0
    &&& 0 <= e.anim.first_row <= 5
    &&& 4 <= e.anim.first_col <= 9
    &&& e.anim.frame_w == 8
    &&& e.anim.frame_h == 8
    &&& e.anim.frames_per_sec == 1
    &&& e.anim.timer_ms == 0
    &&& e.anim.repeated
    &&& !e.anim.finished
    &&& entity_wf(e)
}

/// Spawns one enemy with randomized position, velocity and sheet cell.
pub fn spawn_enemy() -> (e: Entity)
    ensures
        enemy_ok(e),
{
    let mut e = Entity::new(EntityType::Enemy);
    let px: i64 = random_in_range(SPAWN_INSET_LO, SCREEN_WIDTH - SPAWN_INSET_HI);
    let py: i64 = random_in_range(SPAWN_INSET_LO, SCREEN_HEIGHT - SPAWN_INSET_HI);
    e.trans.pos = Vec2I { x: px * MILLI, y: py * MILLI };
    let mut vx: i64 = 0;
    let mut vy: i64 = 0;
    let mut tries: u32 = 0;
    // resample a zero velocity; the bounded retry keeps termination evident,
    // and the fallback direction is all but never taken
    while vx == 0 && vy == 0 && tries < 16
        invariant
            -ENEMY_SPEED <= vx <= ENEMY_SPEED,
            -ENEMY_SPEED <= vy <= ENEMY_SPEED,
            tries <= 16,
        decreases 16 - tries,
    {
        vx = random_in_range(-ENEMY_SPEED, ENEMY_SPEED);
        vy = random_in_range(-ENEMY_SPEED, ENEMY_SPEED);
        tries = tries + 1;
    }
    if vx == 0 && vy == 0 {
        vx = ENEMY_SPEED;
    }
    e.trans.vel = Vec2I { x: vx, y: vy };
    let fr: i64 = random_in_range(0, 5);
    let fc: i64 = random_in_range(4, 9);
    e.anim = Animation::construct(1, fr as i32, fc as i32, 8, 8, 1, true);
    e.trans.scale = Vec2I { x: SPRITE_SCALE_M, y: SPRITE_SCALE_M };
    e
}

/// Whether `t` is one of the powerup kinds.
pub open spec fn is_powerup_kind(t: EntityType) -> bool {
    ||| t == EntityType::PowerupHealth
    ||| t == EntityType::PowerupShield
    ||| t == EntityType::PowerupNuke
    ||| t == EntityType::PowerupBulletSpeed
}

/// Sheet row of each powerup kind.
pub open spec fn powerup_cell_row(t: EntityType) -> int {
    match t {
        EntityType::PowerupHealth => 0,
        EntityType::PowerupShield => 0,
        EntityType::PowerupNuke => 6,
        EntityType::PowerupBulletSpeed => 1,
        _ => 0,
    }
}

/// Sheet column of each powerup kind.
pub open spec fn powerup_cell_col(t: EntityType) -> int {
    match t {
        EntityType::PowerupHealth => 2,
        EntityType::PowerupShield => 3,
        EntityType::PowerupNuke => 11,
        EntityType::PowerupBulletSpeed => 3,
        _ => 0,
    }
}

/// What every freshly spawned powerup satisfies: one of the four kinds,
/// chosen at random, resting at a random position within the inset arena,
/// showing that kind's fixed sheet cell.
pub open spec fn powerup_ok(e: Entity) -> bool {
    &&& is_powerup_kind(e.typ)
    &&& e.life == START_LIFE
    &&& e.shield == START_SHIELD
    &&& SPAWN_INSET_LO * MILLI <= e.trans.pos.x <= (SCREEN_WIDTH - SPAWN_INSET_HI) * MILLI
    &&& SPAWN_INSET_LO * MILLI <= e.trans.pos.y <= (SCREEN_HEIGHT - SPAWN_INSET_HI) * MILLI
    &&& e.trans.vel == (Vec2I { x: 0i64, y: 0i64 })
    &&& e.trans.scale == (Vec2I { x: SPRITE_SCALE_M, y: SPRITE_SCALE_M })
    &&& e.anim == (Animation {
        total_frames: 1i32,
        current_frame: 0i32,
        first_row: powerup_cell_row(e.typ) as i32,
        first_col: powerup_cell_col(e.typ) as i32,
        frame_w: 8i32,
        frame_h: 8i32,
        frames_per_sec: 1i32,
        timer_ms: 0u64,
        repeated: true,
        finished: false,
    })
    &&& entity_wf(e)
}

/// Spawns one powerup of a random kind at a random position.
pub fn spawn_powerup() -> (e: Entity)
    ensures
        powerup_ok(e),
{
    let ptype: i64 = random_in_range(0, 3);
    let mut e = Entity::new(EntityType::PowerupHealth);
    let px: i64 = random_in_range(SPAWN_INSET_LO, SCREEN_WIDTH - SPAWN_INSET_HI);
    let py: i64 = random_in_range(SPAWN_INSET_LO, SCREEN_HEIGHT - SPAWN_INSET_HI);
    e.trans.pos = Vec2I { x: px * MILLI, y: py * MILLI };
    e.trans.scale = Vec2I { x: SPRITE_SCALE_M, y: SPRITE_SCALE_M };
    if ptype == 0 {
        e.typ = EntityType::PowerupHealth;
        e.anim = Animation::construct(1, 0, 2, 8, 8, 1, true);
    } else if ptype == 1 {
        e.typ = EntityType::PowerupShield;
        e.anim = Animation::construct(1, 0, 3, 8, 8, 1, true);
    } else if ptype == 2 {
        e.typ = EntityType::PowerupNuke;
        e.anim = Animation::construct(1, 6, 11, 8, 8, 1, true);
    } else {
        e.typ = EntityType::PowerupBulletSpeed;
        e.anim = Animation::construct(1, 1, 3, 8, 8, 1, true);
    }
    e
}

/// The animation of a death particle variant.
pub open spec fn particle_anim(fr: i32, fc: i32) -> Animation {
    Animation {
        total_frames: 4i32,
        current_frame: 0i32,
        first_row: fr,
        first_col: fc,
        frame_w: 8i32,
        frame_h: 8i32,
        frames_per_sec: 4i32,
        timer_ms: 0u64,
        repeated: false,
        finished: false,
    }
}

/// What every death particle satisfies: it rests at `origin`, runs one of
/// the three explosion animations once, and expires when it finishes.
pub open spec fn particle_like(q: Entity, origin: Vec2I) -> bool {
    &&& q.typ == EntityType::Particle
    &&& q.life == START_LIFE
    &&& q.shield == START_SHIELD
    &&& q.trans.pos == origin
    &&& q.trans.vel == (Vec2I { x: 0i64, y: 0i64 })
    &&& q.trans.scale == (Vec2I { x: SPRITE_SCALE_M, y: SPRITE_SCALE_M })
    &&& (q.anim == particle_anim(6, 8) || q.anim == particle_anim(6, 9) || q.anim
        == particle_anim(7, 9))
    &&& entity_wf(q)
}

/// Spawns a death particle at the position of `o`, with one of three
/// explosion animations chosen at random.
pub fn spawn_particle(o: &Entity) -> (e: Entity)
    requires
        transform_wf(o.trans),
    ensures
        particle_like(e, o.trans.pos),
{
    let variant: i64 = random_in_range(1, 3);
    let mut e = Entity::new(EntityType::Particle);
    e.trans.pos = o.trans.pos;
    e.anim = Animation::construct(4, 0, 0, 8, 8, 4, false);
    if variant == 1 {
        e.anim.first_col = 8;
        e.anim.first_row = 6;
    } else if variant == 2 {
        e.anim.first_col = 9;
        e.anim.first_row = 6;
    } else {
        e.anim.first_col = 9;
        e.anim.first_row = 7;
    }
    e.trans.scale = Vec2I { x: SPRITE_SCALE_M, y: SPRITE_SCALE_M };
    e
}

/// The shield flash particle spawned on `o`: offset eight pixels up-left,
/// a larger one-shot animation of 16x16 cells.
pub open spec fn shield_particle_of(o: Entity) -> Entity {
    Entity {
        typ: EntityType::Particle,
        trans: Transform {
            pos: Vec2I {
                x: clamp_coord(o.trans.pos.x - 8 * MILLI) as i64,
                y: clamp_coord(o.trans.pos.y - 8 * MILLI) as i64,
            },
            vel: Vec2I { x: 0i64, y: 0i64 },
            scale: Vec2I { x: SHIELD_SCALE_M, y: SHIELD_SCALE_M },
        },
        anim: Animation {
            total_frames: 4i32,
            current_frame: 0i32,
            first_row: 2i32,
            first_col: 2i32,
            frame_w: 16i32,
            frame_h: 16i32,
            frames_per_sec: 16i32,
            timer_ms: 0u64,
            repeated: false,
            finished: false,
        },
        life: START_LIFE,
        shield: START_SHIELD,
    }
}

/// Spawns the shield flash particle on `o`.
pub fn spawn_particle_shield(o: &Entity) -> (e: Entity)
    requires
        transform_wf(o.trans),
    ensures
        e == shield_particle_of(*o),
        entity_wf(e),
{
    let mut e = Entity::new(EntityType::Particle);
    let px: i64 = o.trans.pos.x - 8 * MILLI;
    let py: i64 = o.trans.pos.y - 8 * MILLI;
    e.trans.pos = Vec2I {
        x: if px < -POS_LIMIT {
            -POS_LIMIT
        } else {
            px
        },
        y: if py < -POS_LIMIT {
            -POS_LIMIT
        } else {
            py
        },
    };
    e.anim = Animation::construct(4, 2, 2, 16, 16, 16, false);
    e.trans.scale = Vec2I { x: SHIELD_SCALE_M, y: SHIELD_SCALE_M };
    e
}

/// Iterated motion steps over a whole sequence of frame times.
pub open spec fn integrate_many(t: Transform, dts: Seq<u32>) -> Transform
    decreases dts.len(),
{
    if dts.len() == 0 {
        t
    } else {
        integrate_many(integrate(t, dts[0]), dts.drop_first())
    }
}

/// Integration identity: an entity at rest stays exactly where it is,
/// through any number of motion steps of any frame times.
pub proof fn lemma_zero_velocity_holds_position(t: Transform, dts: Seq<u32>)
    requires
        transform_wf(t),
        t.vel.x == 0,
        t.vel.y == 0,
    ensures
        integrate_many(t, dts) == t,
    decreases dts.len(),
{
    if dts.len() > 0 {
        assert(integrate(t, dts[0]) == t);
        lemma_zero_velocity_holds_position(t, dts.drop_first());
    }
}

/// Boundary reflection: an entity whose motion step crosses the left
/// margin while moving left has its horizontal velocity sign-flipped
/// exactly once and its position clamped exactly onto the margin
/// `-2 * scale.x` — never past it — within that same step.
pub proof fn lemma_left_boundary_reflection(e: Entity, dt: u32)
    requires
        entity_wf(e),
        e.trans.vel.x < 0,
        integrate(e.trans, dt).pos.x < -2 * e.trans.scale.x,
    ensures
        entity_step(e, dt).trans.pos.x == -2 * e.trans.scale.x,
        entity_step(e, dt).trans.vel.x == -e.trans.vel.x,
{
}

/// Projectiles never bounce: the frame a bullet or an enemy bullet is
/// marked out of bounds, its life is zero, so the retention pass drops it
/// before any later frame could bounce it again.
pub proof fn lemma_projectile_expires(e: Entity, dt: u32)
    requires
        entity_wf(e),
        e.typ == EntityType::Bullet || e.typ == EntityType::EnemyBullet,
        step_out_of_bounds(e, dt),
    ensures
        entity_step(e, dt).life == 0,
{
}

} // verus!
