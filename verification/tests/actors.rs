use sea_of_fortune::animation::{
    next_frame, next_player_frame, next_projectile_frame, select_sprite_state, switch_animation, Sign, SpriteState,
};
use sea_of_fortune::boat::{next_acceleration, Boat, MAX_ACCEL};
use sea_of_fortune::combat::{
    enemy_damaged, first_hit, resolve_hurtbox, rock_damaged, skeleton_damaged, Collision, DamageOutcome, HitboxProbe,
    HurtboxOutcome,
};
use sea_of_fortune::controls::{get_player_input, input_axis, HeldInputs, PlayerControl};
use sea_of_fortune::enemies::{animation_frame_count, entity_code, network_id, EnemyT, PSKELETON, SKELETON, STORM};
use sea_of_fortune::inventory::Inventory;
use sea_of_fortune::player::{swap_weapon, weapon_offset, weapon_side, Player, Side, MUSKET, SWORD};

#[test]
fn sprite_state_from_velocity_signs() {
    assert_eq!(select_sprite_state(Sign::Zero, Sign::Zero), SpriteState::Idle);
    assert_eq!(select_sprite_state(Sign::Negative, Sign::Positive), SpriteState::LeftRun);
    assert_eq!(select_sprite_state(Sign::Positive, Sign::Negative), SpriteState::RightRun);
    assert_eq!(select_sprite_state(Sign::Zero, Sign::Negative), SpriteState::ForwardRun);
    assert_eq!(select_sprite_state(Sign::Zero, Sign::Positive), SpriteState::BackwardRun);
    assert_eq!(select_sprite_state(Sign::Unordered, Sign::Unordered), SpriteState::Idle);
    assert_eq!(select_sprite_state(Sign::Zero, Sign::Unordered), SpriteState::Idle);
}

#[test]
fn animation_ranges_and_stepping() {
    assert_eq!(SpriteState::Idle.animation_indices(), 0..8);
    assert_eq!(SpriteState::BackwardRun.animation_indices(), 32..40);
    assert_eq!(next_player_frame(SpriteState::LeftRun, 8), 9);
    assert_eq!(next_player_frame(SpriteState::LeftRun, 15), 8);
    assert_eq!(next_player_frame(SpriteState::RightRun, 3), 4);
    assert_eq!(switch_animation(SpriteState::Idle, 5, SpriteState::RightRun), (SpriteState::RightRun, 16, true));
    assert_eq!(switch_animation(SpriteState::Idle, 5, SpriteState::Idle), (SpriteState::Idle, 5, false));
    let mut index = 24;
    for _ in 0..20 {
        index = next_player_frame(SpriteState::ForwardRun, index);
        assert!((24..32).contains(&index));
    }
}

#[test]
fn looping_frames() {
    assert_eq!(next_frame(0, 3), 1);
    assert_eq!(next_frame(2, 3), 0);
    assert_eq!(next_frame(7, 3), 2);
    assert_eq!(next_projectile_frame(0), 1);
    assert_eq!(next_projectile_frame(6), 7);
    assert_eq!(next_projectile_frame(7), 0);
    assert_eq!(next_projectile_frame(30), 0);
}

#[test]
fn pirate_health_and_respawn() {
    let mut p = Player::new(3, 1000);
    assert_eq!((p.health, p.weapon, p.animation_state), (3, SWORD, SpriteState::Idle));
    assert!(!p.check_player_health(false));
    assert_eq!(p.health, 3);
    assert!(!p.check_player_health(true));
    assert!(!p.check_player_health(true));
    assert_eq!(p.health, 1);
    assert!(p.check_player_health(true));
    assert_eq!(p.health, 3);
}

#[test]
fn weapons() {
    assert_eq!(swap_weapon(SWORD), MUSKET);
    assert_eq!(swap_weapon(MUSKET), SWORD);
    assert_eq!(swap_weapon(swap_weapon(SWORD)), SWORD);
    assert_eq!(swap_weapon(5), 5);
    assert_eq!(weapon_side(SpriteState::BackwardRun), Some(Side::Left));
    assert_eq!(weapon_side(SpriteState::ForwardRun), Some(Side::Right));
    assert_eq!(weapon_side(SpriteState::Idle), None);
    assert_eq!(weapon_offset(Side::Left), (-32, true));
    assert_eq!(weapon_offset(Side::Right), (32, false));
}

#[test]
fn boat_acceleration() {
    assert_eq!(next_acceleration(0, true), 3);
    assert_eq!(next_acceleration(3, false), -4);
    assert_eq!(next_acceleration(-4, false), 0);
    assert_eq!(next_acceleration(-4, true), -1);
    assert_eq!(next_acceleration(0, false), 0);
    assert_eq!(next_acceleration(MAX_ACCEL, true), 803);
    assert_eq!(next_acceleration(803, true), 796);
    let mut b = Boat::new(2);
    for i in 0..1000 {
        b.update_acceleration(i % 5 != 0);
        assert!(b.acceleration > -7 && b.acceleration <= 803);
    }
}

#[test]
fn storms() {
    let mut b = Boat::new(1);
    assert!(!b.take_storm_damage(0));
    assert_eq!(b.health, 5);
    assert!(b.take_storm_damage(2));
    assert_eq!(b.health, -5);
    assert!(b.is_destroyed());
}

fn probe(enemy: bool, projectile: bool, overlaps: bool, dmg: i32) -> HitboxProbe {
    HitboxProbe { enemy, projectile, overlaps, dmg }
}

#[test]
fn hit_resolution() {
    let probes = vec![probe(true, false, true, 1), probe(false, true, false, 2), probe(false, true, true, 3), probe(false, false, true, 4)];
    assert_eq!(first_hit(true, &probes), Some(2));
    assert_eq!(first_hit(false, &probes), Some(0));
    assert_eq!(resolve_hurtbox(true, true, &probes), HurtboxOutcome::Hit { index: 2, dmg: 3, despawn_hitbox: true });
    assert_eq!(resolve_hurtbox(false, true, &probes), HurtboxOutcome::Invulnerable);
    let own_side = vec![probe(true, false, true, 1)];
    assert_eq!(resolve_hurtbox(true, true, &own_side), HurtboxOutcome::Miss);
    assert_eq!(first_hit(true, &vec![]), None);
}

#[test]
fn enemies_lose_health() {
    let mut hp = 2;
    let mut c = Collision::default();
    assert_eq!(c, Collision { is: false, dmg: 0 });
    assert_eq!(enemy_damaged(&mut hp, &mut c), DamageOutcome::Unhurt);
    c.is = true;
    assert_eq!(enemy_damaged(&mut hp, &mut c), DamageOutcome::Hurt);
    assert_eq!(hp, 1);
    assert!(!c.is);
    c.is = true;
    assert_eq!(enemy_damaged(&mut hp, &mut c), DamageOutcome::Defeated);
    assert_eq!(hp, 0);
}

#[test]
fn skeletons_and_rocks_drop_loot() {
    let mut inv = Inventory::new(10);
    let mut hp = 1;
    let mut c = Collision { is: true, dmg: 9 };
    assert_eq!(skeleton_damaged(&mut hp, &mut c, &mut inv), DamageOutcome::Defeated);
    assert_eq!(inv.items.len(), 1);
    assert_eq!(inv.items[0].name, "Bone");
    assert_eq!(c, Collision { is: false, dmg: 9 });
    let mut rock_hp = 15;
    let mut c = Collision { is: true, dmg: 10 };
    assert_eq!(rock_damaged(&mut rock_hp, &mut c, &mut inv), DamageOutcome::Hurt);
    assert_eq!(rock_hp, 5);
    assert_eq!(c, Collision { is: false, dmg: 0 });
    assert_eq!(inv.items.len(), 1);
    let mut c = Collision { is: true, dmg: 5 };
    assert_eq!(rock_damaged(&mut rock_hp, &mut c, &mut inv), DamageOutcome::Defeated);
    assert_eq!(inv.items.len(), 2);
    assert_eq!(inv.items[1].name, "Rock Shard");
    assert_eq!(inv.money, 10);
}

#[test]
fn enemy_tables() {
    assert_eq!(entity_code(EnemyT::RSkeleton), SKELETON);
    assert_eq!(entity_code(EnemyT::PoisonSkeleton), PSKELETON);
    assert_eq!(entity_code(EnemyT::Storm(1)), STORM);
    assert_eq!(entity_code(EnemyT::Whirlpool(1)), 8);
    assert_eq!(network_id(EnemyT::Kraken(7)), Some(7));
    assert_eq!(network_id(EnemyT::Bat), None);
    assert_eq!(animation_frame_count(EnemyT::Bat), Some(3));
    assert_eq!(animation_frame_count(EnemyT::Rock), Some(2));
    assert_eq!(animation_frame_count(EnemyT::GhostShip(0)), None);
}

#[test]
fn controls() {
    let held = HeldInputs { key_w: true, key_s: false, key_a: true, key_d: true, mouse_left: true, mouse_right: false };
    assert!(PlayerControl::Up.pressed(&held));
    assert!(!PlayerControl::Secondary.pressed(&held));
    assert_eq!(get_player_input(PlayerControl::Attack, &held), 1);
    assert_eq!(get_player_input(PlayerControl::Down, &held), 0);
    assert_eq!(input_axis(PlayerControl::Up, PlayerControl::Down, &held), 1);
    assert_eq!(input_axis(PlayerControl::Right, PlayerControl::Left, &held), 0);
    assert_eq!(input_axis(PlayerControl::Down, PlayerControl::Up, &held), -1);
}
