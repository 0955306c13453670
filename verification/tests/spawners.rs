use space_shooter::config::{
    BULLET_SPEED, ENEMY_SPEED, MILLI, SCREEN_HEIGHT, SCREEN_WIDTH, SHIELD_SCALE_M, SPAWN_INSET_HI,
    SPAWN_INSET_LO, SPRITE_SCALE_M,
};
use space_shooter::entity::{
    spawn_bullet, spawn_enemy, spawn_enemy_bullet, spawn_particle, spawn_particle_shield,
    spawn_powerup, Entity, EntityType,
};
use space_shooter::geom::Vec2I;

#[test]
fn enemies_spawn_inside_the_inset_arena_with_nonzero_velocity() {
    let mut round: u32 = 0;
    while round < 25 {
        let e = spawn_enemy();
        assert_eq!(e.typ, EntityType::Enemy);
        assert_eq!(e.life, 5);
        assert_eq!(e.shield, 3);
        assert!(SPAWN_INSET_LO * MILLI <= e.trans.pos.x);
        assert!(e.trans.pos.x <= (SCREEN_WIDTH - SPAWN_INSET_HI) * MILLI);
        assert!(SPAWN_INSET_LO * MILLI <= e.trans.pos.y);
        assert!(e.trans.pos.y <= (SCREEN_HEIGHT - SPAWN_INSET_HI) * MILLI);
        assert!(e.trans.vel.x.abs() <= ENEMY_SPEED);
        assert!(e.trans.vel.y.abs() <= ENEMY_SPEED);
        assert!(!(e.trans.vel.x == 0 && e.trans.vel.y == 0));
        assert_eq!((e.trans.scale.x, e.trans.scale.y), (SPRITE_SCALE_M, SPRITE_SCALE_M));
        assert_eq!(e.anim.total_frames, 1);
        assert!((0..=5).contains(&e.anim.first_row));
        assert!((4..=9).contains(&e.anim.first_col));
        round += 1;
    }
}

#[test]
fn powerups_show_the_cell_of_their_kind() {
    let mut round: u32 = 0;
    while round < 25 {
        let p = spawn_powerup();
        assert_eq!(p.life, 5);
        assert_eq!((p.trans.vel.x, p.trans.vel.y), (0, 0));
        assert_eq!((p.trans.scale.x, p.trans.scale.y), (SPRITE_SCALE_M, SPRITE_SCALE_M));
        let cell = (p.anim.first_row, p.anim.first_col);
        match p.typ {
            EntityType::PowerupHealth => assert_eq!(cell, (0, 2)),
            EntityType::PowerupShield => assert_eq!(cell, (0, 3)),
            EntityType::PowerupNuke => assert_eq!(cell, (6, 11)),
            EntityType::PowerupBulletSpeed => assert_eq!(cell, (1, 3)),
            other => panic!("not a powerup kind: {:?}", other),
        }
        round += 1;
    }
}

#[test]
fn particles_copy_the_origin_position_and_pick_an_explosion() {
    let mut origin = Entity::new(EntityType::Enemy);
    origin.trans.pos = Vec2I::new(123000, 456000);
    let mut round: u32 = 0;
    while round < 25 {
        let q = spawn_particle(&origin);
        assert_eq!(q.typ, EntityType::Particle);
        assert_eq!((q.trans.pos.x, q.trans.pos.y), (123000, 456000));
        assert_eq!((q.trans.vel.x, q.trans.vel.y), (0, 0));
        assert_eq!(q.anim.total_frames, 4);
        assert_eq!(q.anim.frames_per_sec, 4);
        assert!(!q.anim.repeated);
        let cell = (q.anim.first_row, q.anim.first_col);
        assert!(cell == (6, 8) || cell == (6, 9) || cell == (7, 9));
        round += 1;
    }
}

#[test]
fn shield_particle_sits_eight_pixels_up_left() {
    let mut origin = Entity::new(EntityType::Player);
    origin.trans.pos = Vec2I::new(100000, 200000);
    let q = spawn_particle_shield(&origin);
    assert_eq!(q.typ, EntityType::Particle);
    assert_eq!((q.trans.pos.x, q.trans.pos.y), (92000, 192000));
    assert_eq!((q.trans.scale.x, q.trans.scale.y), (SHIELD_SCALE_M, SHIELD_SCALE_M));
    assert_eq!(q.anim.total_frames, 4);
    assert_eq!((q.anim.first_row, q.anim.first_col), (2, 2));
    assert_eq!((q.anim.frame_w, q.anim.frame_h), (16, 16));
    assert_eq!(q.anim.frames_per_sec, 16);
    assert!(!q.anim.repeated);
}

#[test]
fn bullets_fly_from_the_shooter_toward_the_target() {
    let mut shooter = Entity::new(EntityType::Player);
    shooter.trans.pos = Vec2I::new(100000, 100000);
    let target = Vec2I::new(400000, 500000);
    let b = spawn_bullet(&shooter, &target);
    assert_eq!(b.typ, EntityType::Bullet);
    assert_eq!((b.trans.pos.x, b.trans.pos.y), (100000, 100000));
    // direction (300000, 400000) scaled to BULLET_SPEED == 500: (300, 400)
    assert_eq!((b.trans.vel.x, b.trans.vel.y), (300, 400));
    assert_eq!((b.anim.first_row, b.anim.first_col), (1, 1));
    assert_eq!(b.life, 5);
    assert_eq!(BULLET_SPEED, 500);
}

#[test]
fn enemy_bullets_use_their_own_cell() {
    let mut shooter = Entity::new(EntityType::Enemy);
    shooter.trans.pos = Vec2I::new(0, 0);
    let target = Vec2I::new(0, 100000);
    let b = spawn_enemy_bullet(&shooter, &target);
    assert_eq!(b.typ, EntityType::EnemyBullet);
    assert_eq!((b.trans.vel.x, b.trans.vel.y), (0, 500));
    assert_eq!((b.anim.first_row, b.anim.first_col), (1, 0));
}

#[test]
fn firing_at_oneself_aims_straight_up() {
    let mut shooter = Entity::new(EntityType::Player);
    shooter.trans.pos = Vec2I::new(250000, 250000);
    let target = Vec2I::new(250000, 250000);
    let b = spawn_bullet(&shooter, &target);
    assert_eq!((b.trans.vel.x, b.trans.vel.y), (0, -500));
}
