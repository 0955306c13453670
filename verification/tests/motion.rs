use space_shooter::config::{SCREEN_WIDTH_M, SPRITE_SCALE_M};
use space_shooter::entity::{Entity, EntityType, MoveKeys, Transform};
use space_shooter::geom::Vec2I;

fn keys(up: bool, left: bool, down: bool, right: bool) -> MoveKeys {
    MoveKeys { up, left, down, right }
}

#[test]
fn zero_velocity_never_moves() {
    let mut t = Transform::new();
    t.pos = Vec2I::new(123456, -654321);
    let mut frames: u32 = 0;
    while frames < 50 {
        t.update(16);
        frames += 1;
    }
    assert_eq!((t.pos.x, t.pos.y), (123456, -654321));
}

#[test]
fn integration_advances_by_velocity_times_time() {
    let mut t = Transform::new();
    t.pos = Vec2I::new(1000, 2000);
    t.vel = Vec2I::new(100, -50);
    t.update(10);
    assert_eq!((t.pos.x, t.pos.y), (2000, 1500));
}

#[test]
fn left_boundary_reflects_once_and_clamps() {
    let mut e = Entity::new(EntityType::Enemy);
    e.trans.scale = Vec2I::new(SPRITE_SCALE_M, SPRITE_SCALE_M);
    e.trans.pos = Vec2I::new(-47000, 300000);
    e.trans.vel = Vec2I::new(-2000, 0);
    e.update(1000);
    // crossed -2 * scale = -48000 moving left: clamped exactly onto the
    // margin, velocity sign-flipped exactly once
    assert_eq!(e.trans.pos.x, -48000);
    assert_eq!(e.trans.vel.x, 2000);
    // a bouncing enemy loses one life
    assert_eq!(e.life, 4);
}

#[test]
fn high_boundary_reflects_once_and_clamps() {
    let mut e = Entity::new(EntityType::Enemy);
    e.trans.scale = Vec2I::new(SPRITE_SCALE_M, SPRITE_SCALE_M);
    e.trans.pos = Vec2I::new(SCREEN_WIDTH_M + 2 * SPRITE_SCALE_M, 300000);
    e.trans.vel = Vec2I::new(2000, 0);
    e.update(1000);
    // crossed the margin SCREEN_WIDTH + 2 * scale moving right: clamped
    // exactly onto that margin, velocity sign-flipped exactly once
    assert_eq!(e.trans.pos.x, SCREEN_WIDTH_M + 2 * SPRITE_SCALE_M);
    assert_eq!(e.trans.vel.x, -2000);
}

#[test]
fn bullets_expire_the_frame_they_leave_the_arena() {
    let mut b = Entity::new(EntityType::Bullet);
    b.trans.scale = Vec2I::new(SPRITE_SCALE_M, SPRITE_SCALE_M);
    b.trans.pos = Vec2I::new(-47000, 300000);
    b.trans.vel = Vec2I::new(-2000, 0);
    b.update(1000);
    assert_eq!(b.life, 0);
    let mut eb = Entity::new(EntityType::EnemyBullet);
    eb.trans.scale = Vec2I::new(SPRITE_SCALE_M, SPRITE_SCALE_M);
    eb.trans.pos = Vec2I::new(400000, -47000);
    eb.trans.vel = Vec2I::new(0, -2000);
    eb.update(1000);
    assert_eq!(eb.life, 0);
}

#[test]
fn entities_inside_the_arena_keep_their_life() {
    let mut e = Entity::new(EntityType::Enemy);
    e.trans.scale = Vec2I::new(SPRITE_SCALE_M, SPRITE_SCALE_M);
    e.trans.pos = Vec2I::new(400000, 300000);
    e.trans.vel = Vec2I::new(150, 150);
    e.update(16);
    assert_eq!(e.life, 5);
    assert_eq!(e.trans.pos.x, 400000 + 150 * 16);
}

#[test]
fn particle_expires_when_its_animation_finishes() {
    let mut p = Entity::new(EntityType::Particle);
    p.anim = space_shooter::anim::Animation::construct(4, 6, 8, 8, 8, 4, false);
    let mut frames: u32 = 0;
    while frames < 8 {
        p.update(251);
        frames += 1;
    }
    assert!(p.anim.finished);
    assert_eq!(p.life, 0);
}

#[test]
fn player_moves_right_at_player_speed() {
    let mut p = Entity::new(EntityType::Player);
    p.trans.pos = Vec2I::new(400000, 300000);
    p.update_position(&keys(false, false, false, true), 1000);
    assert_eq!((p.trans.vel.x, p.trans.vel.y), (300, 0));
    assert_eq!((p.trans.pos.x, p.trans.pos.y), (700000, 300000));
}

#[test]
fn player_diagonal_motion_is_normalized() {
    let mut p = Entity::new(EntityType::Player);
    p.trans.pos = Vec2I::new(400000, 300000);
    p.update_position(&keys(false, false, true, true), 1000);
    // 1000 * 300 / 1414 == 212 on each axis
    assert_eq!((p.trans.vel.x, p.trans.vel.y), (212, 212));
    assert_eq!((p.trans.pos.x, p.trans.pos.y), (612000, 512000));
}

#[test]
fn player_without_keys_stands_still() {
    let mut p = Entity::new(EntityType::Player);
    p.trans.pos = Vec2I::new(400000, 300000);
    p.trans.vel = Vec2I::new(300, 0);
    p.update_position(&keys(false, false, false, false), 1000);
    assert_eq!((p.trans.vel.x, p.trans.vel.y), (0, 0));
    assert_eq!((p.trans.pos.x, p.trans.pos.y), (400000, 300000));
}

#[test]
fn opposite_keys_cancel() {
    let mut p = Entity::new(EntityType::Player);
    p.trans.pos = Vec2I::new(400000, 300000);
    p.update_position(&keys(true, true, true, true), 1000);
    assert_eq!((p.trans.vel.x, p.trans.vel.y), (0, 0));
    assert_eq!((p.trans.pos.x, p.trans.pos.y), (400000, 300000));
}
