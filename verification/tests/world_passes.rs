use space_shooter::config::{
    BULLET_SPEED, BULLET_SPEED_MAX, PLAYER_SPAWN_X_M, PLAYER_SPAWN_Y_M, SPRITE_SCALE_M,
};
use space_shooter::entity::{Entity, EntityType};
use space_shooter::geom::Vec2I;
use space_shooter::world::{autofire_due, World};

fn placed(kind: EntityType, x: i64, y: i64) -> Entity {
    let mut e = Entity::new(kind);
    e.trans.pos = Vec2I::new(x, y);
    e.trans.scale = Vec2I::new(SPRITE_SCALE_M, SPRITE_SCALE_M);
    e
}

#[test]
fn fresh_world_is_seeded() {
    let w = World::new();
    assert_eq!(w.player.typ, EntityType::Player);
    assert_eq!(w.player.life, 5);
    assert_eq!((w.player.trans.pos.x, w.player.trans.pos.y), (PLAYER_SPAWN_X_M, PLAYER_SPAWN_Y_M));
    assert_eq!(w.enemies.len(), 3);
    assert_eq!(w.bullets.len(), 0);
    assert_eq!(w.particles.len(), 0);
    assert_eq!(w.powerups.len(), 0);
    assert_eq!(w.score, 0);
    assert_eq!(w.bullet_speed, BULLET_SPEED);
}

#[test]
fn bullet_kills_enemy_and_scores() {
    // one enemy and one player bullet on the same spot, the player far off
    let mut w = World::new();
    w.enemies = vec![placed(EntityType::Enemy, 100000, 100000)];
    w.bullets = vec![placed(EntityType::Bullet, 100000, 100000)];
    let cues = w.collision_pass();
    assert_eq!(w.enemies[0].life, 0);
    assert_eq!(w.bullets[0].life, 0);
    assert_eq!(w.score, 500);
    assert_eq!(w.particles.len(), 1);
    assert_eq!((w.particles[0].trans.pos.x, w.particles[0].trans.pos.y), (100000, 100000));
    assert_eq!(w.particles[0].typ, EntityType::Particle);
    assert_eq!(cues.explosions, 1);
    assert_eq!(cues.collected, 0);
}

#[test]
fn restart_resets_the_run() {
    let mut w = World::new();
    w.player.life = 0;
    w.player.trans.pos = Vec2I::new(0, 0);
    w.score = 7777;
    w.powerups = vec![placed(EntityType::PowerupHealth, 1000, 1000)];
    w.enemies.clear();
    let restarted = w.handle_restart();
    assert!(restarted);
    assert_eq!(w.player.life, 5);
    assert_eq!((w.player.trans.pos.x, w.player.trans.pos.y), (PLAYER_SPAWN_X_M, PLAYER_SPAWN_Y_M));
    assert_eq!(w.enemies.len(), 3);
    assert_eq!(w.powerups.len(), 0);
    assert_eq!(w.score, 0);
    assert_eq!(w.bullet_speed, BULLET_SPEED);
}

#[test]
fn restart_does_nothing_while_alive() {
    let mut w = World::new();
    w.score = 123;
    let restarted = w.handle_restart();
    assert!(!restarted);
    assert_eq!(w.score, 123);
    assert_eq!(w.enemies.len(), 3);
}

#[test]
fn health_powerup_heals_by_exactly_one() {
    let mut w = World::new();
    w.enemies.clear();
    w.powerups = vec![placed(EntityType::PowerupHealth, PLAYER_SPAWN_X_M, PLAYER_SPAWN_Y_M)];
    let cues = w.collision_pass();
    assert_eq!(w.player.life, 6);
    assert_eq!(w.powerups[0].life, 0);
    assert_eq!(cues.collected, 1);
    w.retention_pass();
    assert_eq!(w.powerups.len(), 0);
}

#[test]
fn shield_powerup_raises_the_shield() {
    let mut w = World::new();
    w.enemies.clear();
    w.powerups = vec![placed(EntityType::PowerupShield, PLAYER_SPAWN_X_M, PLAYER_SPAWN_Y_M)];
    w.collision_pass();
    assert_eq!(w.player.shield, 4);
    assert_eq!(w.player.life, 5);
}

#[test]
fn nuke_powerup_kills_every_enemy() {
    let mut w = World::new();
    w.enemies = vec![
        placed(EntityType::Enemy, 100000, 100000),
        placed(EntityType::Enemy, 600000, 400000),
    ];
    w.powerups = vec![placed(EntityType::PowerupNuke, PLAYER_SPAWN_X_M, PLAYER_SPAWN_Y_M)];
    w.collision_pass();
    assert_eq!(w.enemies[0].life, 0);
    assert_eq!(w.enemies[1].life, 0);
    w.retention_pass();
    assert_eq!(w.enemies.len(), 0);
}

#[test]
fn bullet_speed_powerup_raises_the_speed_up_to_its_cap() {
    let mut w = World::new();
    w.enemies.clear();
    w.powerups = vec![placed(EntityType::PowerupBulletSpeed, PLAYER_SPAWN_X_M, PLAYER_SPAWN_Y_M)];
    w.collision_pass();
    assert_eq!(w.bullet_speed, 600);
    let mut round: u32 = 0;
    while round < 20 {
        w.powerups = vec![placed(EntityType::PowerupBulletSpeed, PLAYER_SPAWN_X_M, PLAYER_SPAWN_Y_M)];
        w.collision_pass();
        round += 1;
    }
    assert_eq!(w.bullet_speed, BULLET_SPEED_MAX);
}

#[test]
fn powerups_are_not_consumed_by_a_dead_player() {
    let mut w = World::new();
    w.enemies.clear();
    w.player.life = 0;
    w.powerups = vec![placed(EntityType::PowerupHealth, PLAYER_SPAWN_X_M, PLAYER_SPAWN_Y_M)];
    let cues = w.collision_pass();
    assert_eq!(w.player.life, 0);
    assert_eq!(w.powerups[0].life, 5);
    assert_eq!(cues.collected, 0);
}

#[test]
fn enemy_contact_costs_the_player_one_life() {
    let mut w = World::new();
    w.enemies = vec![placed(EntityType::Enemy, PLAYER_SPAWN_X_M, PLAYER_SPAWN_Y_M)];
    let cues = w.collision_pass();
    assert_eq!(w.player.life, 4);
    assert_eq!(w.enemies[0].life, 0);
    assert_eq!(w.particles.len(), 1);
    assert_eq!(cues.explosions, 1);
}

#[test]
fn lethal_contact_also_marks_the_player_death() {
    let mut w = World::new();
    w.player.life = 1;
    w.enemies = vec![placed(EntityType::Enemy, PLAYER_SPAWN_X_M, PLAYER_SPAWN_Y_M)];
    w.collision_pass();
    assert_eq!(w.player.life, 0);
    // one particle at the enemy, one at the player
    assert_eq!(w.particles.len(), 2);
    assert_eq!(
        (w.particles[1].trans.pos.x, w.particles[1].trans.pos.y),
        (PLAYER_SPAWN_X_M, PLAYER_SPAWN_Y_M),
    );
}

#[test]
fn an_enemy_dies_only_once_per_frame() {
    // the enemy overlaps the player and a bullet at once: the contact rule
    // kills it first, so the shot finds it dead and awards nothing
    let mut w = World::new();
    w.enemies = vec![placed(EntityType::Enemy, PLAYER_SPAWN_X_M, PLAYER_SPAWN_Y_M)];
    w.bullets = vec![placed(EntityType::Bullet, PLAYER_SPAWN_X_M, PLAYER_SPAWN_Y_M)];
    let cues = w.collision_pass();
    assert_eq!(w.enemies[0].life, 0);
    assert_eq!(w.bullets[0].life, 5);
    assert_eq!(w.score, 0);
    assert_eq!(w.particles.len(), 1);
    assert_eq!(cues.explosions, 1);
}

#[test]
fn enemy_bullet_hits_the_player() {
    let mut w = World::new();
    w.enemies.clear();
    w.bullets = vec![placed(EntityType::EnemyBullet, PLAYER_SPAWN_X_M, PLAYER_SPAWN_Y_M)];
    let cues = w.collision_pass();
    assert_eq!(w.player.life, 4);
    assert_eq!(w.bullets[0].life, 0);
    assert_eq!(w.particles.len(), 0);
    assert_eq!(cues.explosions, 0);
}

#[test]
fn lethal_enemy_bullet_marks_the_player_death() {
    let mut w = World::new();
    w.enemies.clear();
    w.player.life = 1;
    w.bullets = vec![placed(EntityType::EnemyBullet, PLAYER_SPAWN_X_M, PLAYER_SPAWN_Y_M)];
    let cues = w.collision_pass();
    assert_eq!(w.player.life, 0);
    assert_eq!(w.particles.len(), 1);
    assert_eq!(
        (w.particles[0].trans.pos.x, w.particles[0].trans.pos.y),
        (PLAYER_SPAWN_X_M, PLAYER_SPAWN_Y_M),
    );
    assert_eq!(cues.explosions, 1);
}

#[test]
fn player_bullets_do_not_hurt_the_player() {
    let mut w = World::new();
    w.enemies.clear();
    w.bullets = vec![placed(EntityType::Bullet, PLAYER_SPAWN_X_M, PLAYER_SPAWN_Y_M)];
    w.collision_pass();
    assert_eq!(w.player.life, 5);
    assert_eq!(w.bullets[0].life, 5);
}

#[test]
fn score_saturates_at_its_ceiling() {
    let mut w = World::new();
    w.score = u64::MAX;
    w.enemies = vec![placed(EntityType::Enemy, 100000, 100000)];
    w.bullets = vec![placed(EntityType::Bullet, 100000, 100000)];
    w.collision_pass();
    assert_eq!(w.score, u64::MAX);
}

#[test]
fn life_saturates_at_its_ceiling() {
    let mut w = World::new();
    w.enemies.clear();
    w.player.life = i32::MAX;
    w.powerups = vec![placed(EntityType::PowerupHealth, PLAYER_SPAWN_X_M, PLAYER_SPAWN_Y_M)];
    let cues = w.collision_pass();
    assert_eq!(w.player.life, i32::MAX);
    assert_eq!(cues.collected, 1);
}

#[test]
fn enemies_in_range_fire_at_the_player() {
    let mut w = World::new();
    w.enemies = vec![placed(EntityType::Enemy, 350000, 300000)];
    let fired = w.update_enemies(0, 0);
    assert_eq!(fired, 1);
    assert_eq!(w.bullets.len(), 1);
    let b = &w.bullets[0];
    assert_eq!(b.typ, EntityType::EnemyBullet);
    assert_eq!((b.trans.pos.x, b.trans.pos.y), (350000, 300000));
    // fifty pixels straight toward the player at bullet speed
    assert_eq!((b.trans.vel.x, b.trans.vel.y), (500, 0));
}

#[test]
fn enemies_out_of_range_or_off_tick_hold_their_fire() {
    let mut w = World::new();
    w.enemies = vec![placed(EntityType::Enemy, 100000, 100000)];
    assert_eq!(w.update_enemies(0, 0), 0);
    assert_eq!(w.bullets.len(), 0);
    w.enemies = vec![placed(EntityType::Enemy, 350000, 300000)];
    assert_eq!(w.update_enemies(0, 500), 0);
    assert_eq!(w.bullets.len(), 0);
}

#[test]
fn spawn_timers_run_on_their_rates() {
    let mut w = World::new();
    w.enemies.clear();
    let ev = w.tick_spawns(2001);
    assert!(ev.enemy);
    assert!(!ev.powerup);
    assert_eq!(w.enemies.len(), 1);
    assert_eq!(w.powerups.len(), 0);
    assert_eq!(w.spawn_timer, 0);
    assert_eq!(w.powerup_timer, 2001);
    let ev2 = w.tick_spawns(8000);
    assert!(ev2.enemy);
    assert!(ev2.powerup);
    assert_eq!(w.enemies.len(), 2);
    assert_eq!(w.powerups.len(), 1);
}

#[test]
fn firing_uses_the_current_bullet_speed() {
    let mut w = World::new();
    w.enemies.clear();
    w.powerups = vec![placed(EntityType::PowerupBulletSpeed, PLAYER_SPAWN_X_M, PLAYER_SPAWN_Y_M)];
    w.collision_pass();
    assert_eq!(w.bullet_speed, 600);
    let target = Vec2I::new(PLAYER_SPAWN_X_M + 300000, PLAYER_SPAWN_Y_M + 400000);
    let fired = w.fire_player_bullet(&target);
    assert!(fired);
    assert_eq!(w.bullets.len(), 1);
    assert_eq!((w.bullets[0].trans.vel.x, w.bullets[0].trans.vel.y), (360, 480));
}

#[test]
fn a_dead_player_cannot_fire() {
    let mut w = World::new();
    w.player.life = 0;
    let fired = w.fire_player_bullet(&Vec2I::new(0, 0));
    assert!(!fired);
    assert_eq!(w.bullets.len(), 0);
}

#[test]
fn retention_keeps_live_entities_in_order() {
    let mut w = World::new();
    let mut a = placed(EntityType::Bullet, 1000, 1000);
    a.life = 1;
    let mut b = placed(EntityType::Bullet, 2000, 2000);
    b.life = 0;
    let mut c = placed(EntityType::Bullet, 3000, 3000);
    c.life = 2;
    w.bullets = vec![a, b, c];
    w.retention_pass();
    assert_eq!(w.bullets.len(), 2);
    assert_eq!(w.bullets[0].trans.pos.x, 1000);
    assert_eq!(w.bullets[1].trans.pos.x, 3000);
}

#[test]
fn an_expired_bullet_is_gone_before_the_next_frame() {
    // a bullet that left the arena expires and the retention pass removes
    // it: it can never bounce a second time
    let mut w = World::new();
    w.enemies.clear();
    let mut b = placed(EntityType::Bullet, -47000, 300000);
    b.trans.vel = Vec2I::new(-2000, 0);
    w.bullets = vec![b];
    w.update_bullets(1000);
    assert_eq!(w.bullets[0].life, 0);
    w.retention_pass();
    assert_eq!(w.bullets.len(), 0);
}

#[test]
fn autofire_follows_the_tick_window() {
    assert!(autofire_due(0));
    assert!(autofire_due(3));
    assert!(!autofire_due(4));
    assert!(!autofire_due(449));
    assert!(autofire_due(450));
    assert!(autofire_due(900));
}
