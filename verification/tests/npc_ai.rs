use doukutsu_core::common::Direction;
use doukutsu_core::game_state::{BulletCounts, CaretType, DeathSmoke, SharedGameState};
use doukutsu_core::npc::boss::BossNPC;
use doukutsu_core::npc::list::NPCList;
use doukutsu_core::npc::{Condition, NPCTable, NPCTableEntry, NPCFlag, Player, Rect, NPC};
use doukutsu_core::rng::{mix_seed_exec, Xoroshiro32PlusPlus};
use doukutsu_core::stage::Stage;

fn table() -> NPCTable {
    let mut entries = Vec::new();
    for t in 0..400u16 {
        entries.push(NPCTableEntry {
            npc_flags: NPCFlag(0x20),
            life: t,
            spritesheet_id: 1,
            size: 1,
            experience: 0,
            damage: 1,
            display_bounds: Rect { left: 0x1000, top: 0x1000, right: 0x1000, bottom: 0x1000 },
            hit_bounds: Rect { left: 0x800, top: 0x800, right: 0x800, bottom: 0x800 },
        });
    }
    NPCTable { entries }
}

fn state() -> SharedGameState {
    SharedGameState::new(table(), 0)
}

fn player(x: i32, y: i32) -> Player {
    let mut p = Player {
        x,
        y,
        vel_x: 0,
        vel_y: 0,
        cond: Condition(0),
        flags: doukutsu_core::npc::Flag(0),
        direction: Direction::Left,
        shock_counter: 0,
        equip: 0,
    };
    p.cond.set_alive(true);
    p
}

#[test]
fn rng_ranges_include_both_ends_and_repeat() {
    let mut a = Xoroshiro32PlusPlus::new(0xdead_beef);
    let mut b = Xoroshiro32PlusPlus::new(0xdead_beef);
    let mut seen_lo = false;
    let mut seen_hi = false;
    for _ in 0..2000 {
        let x = a.range(-2..2);
        assert_eq!(x, b.range(-2..2));
        assert!((-2..=2).contains(&x));
        seen_lo |= x == -2;
        seen_hi |= x == 2;
    }
    assert!(seen_lo && seen_hi);
    let mut c = Xoroshiro32PlusPlus::new(7);
    assert_eq!(c.range(5..5), 5);
}

#[test]
fn seeding_depends_on_slot() {
    assert_ne!(mix_seed_exec(1, 0), mix_seed_exec(1, 1));
    assert_eq!(mix_seed_exec(-5, 3), mix_seed_exec(5, 3));
    let mut n = NPC::empty();
    n.id = 3;
    n.init_rng(5);
    assert_eq!(n.rng, Xoroshiro32PlusPlus::new(mix_seed_exec(5, 3)));
}

#[test]
fn create_uses_table_stats() {
    let t = table();
    let n = NPC::create(42, &t);
    assert_eq!(n.npc_type, 42);
    assert_eq!(n.life, 42);
    assert_eq!(n.npc_flags, NPCFlag(0x20));
    assert_eq!(n.display_bounds.left, 0x1000);
    let m = NPC::create(1000, &t);
    assert_eq!(m.size, 2);
    assert_eq!(m.life, 0);
}

#[test]
fn animate_cycles_frames() {
    let mut n = NPC::empty();
    n.anim_num = 4;
    for _ in 0..5 {
        n.animate(4, 2, 5);
    }
    assert_eq!(n.anim_num, 5);
    for _ in 0..5 {
        n.animate(4, 2, 5);
    }
    assert_eq!(n.anim_num, 2);
}

#[test]
fn closest_player_skips_hidden_and_dead() {
    let mut n = NPC::empty();
    n.x = 0;
    let players = [player(0x10000, 0), player(0x100, 0)];
    assert_eq!(n.get_closest_player_idx(&players), 1);
    let mut far_only = players;
    far_only[1].cond.set_alive(false);
    assert_eq!(n.get_closest_player_idx(&far_only), 0);
    let tie = [player(0x100, 0), player(-0x100, 0)];
    assert_eq!(n.get_closest_player_idx(&tie), 0);
    n.face_player(&players[0]);
    assert_eq!(n.direction, Direction::Right);
    n.vel_y = 0x700;
    n.clamp_fall_speed();
    assert_eq!(n.vel_y, 0x5ff);
}

#[test]
fn boss_new_and_seeding() {
    let mut b = BossNPC::new();
    assert!(b.parts[0].cond.alive());
    assert!(!b.parts[1].cond.alive());
    assert_eq!(b.parts[1].cond.0, 0x8000);
    b.init_rng(77);
    assert_eq!(b.parts[4].rng, Xoroshiro32PlusPlus::new(mix_seed_exec(77, 4)));
    assert_ne!(b.parts[4].rng, b.parts[5].rng);
}

#[test]
fn heavy_press_setup_and_entry() {
    let mut b = BossNPC::new();
    let mut st = state();
    let mut stage = Stage { width: 20, height: 20, tiles: vec![1u8; 20 * 20] };
    b.tick_b08_heavy_press(&mut st, &mut stage);
    assert_eq!(b.parts[0].action_num, 10);
    assert_eq!(b.parts[0].life, 700);
    assert_eq!(b.hurt_sound[0], 54);
    assert_eq!(b.parts[0].npc_flags.0, 0x08 | 0x40 | 0x200 | 0x8000);
    assert_eq!(b.parts[1].x, -0x3000);
    assert_eq!(b.parts[3].y, 0x5000);
    b.tick_b08_heavy_press(&mut st, &mut stage);
    assert_eq!(b.parts[0].action_num, 11);
    assert_eq!((b.parts[0].x, b.parts[0].y), (0x14000, 0x9400));
    assert_eq!((b.parts[2].x, b.parts[2].y), (0x17000, 0x9400 + 0x6800));
    assert!(st.sounds.is_empty());
}

#[test]
fn heavy_press_drops_and_lands_with_rubble() {
    let mut b = BossNPC::new();
    let mut st = state();
    let mut stage = Stage { width: 20, height: 20, tiles: vec![1u8; 20 * 20] };
    b.parts[0].action_num = 30;
    b.tick_b08_heavy_press(&mut st, &mut stage);
    assert_eq!(b.parts[0].action_num, 31);
    assert_eq!(b.parts[0].y, 0x8800);
    let mut ticks = 1;
    while b.parts[0].action_num == 31 {
        b.tick_b08_heavy_press(&mut st, &mut stage);
        ticks += 1;
    }
    assert_eq!(b.parts[0].action_num, 20);
    assert_eq!(b.parts[0].y, 0x33A00);
    assert_eq!(ticks, 88);
    assert_eq!(st.sounds, vec![44]);
    assert_eq!(st.spawns.len(), 5);
    for (min_id, npc) in st.spawns.iter() {
        assert_eq!(*min_id, 0x100);
        assert_eq!(npc.npc_type, 4);
        assert_eq!(npc.y, 0x33A00 + 0x7800);
        assert!((npc.x - b.parts[0].x).abs() <= 40 * 0x200);
    }
}

#[test]
fn heavy_press_fight_breaks_walls() {
    let mut b = BossNPC::new();
    let mut st = state();
    let mut stage = Stage { width: 20, height: 20, tiles: vec![1u8; 20 * 20] };
    b.parts[0].action_num = 100;
    b.parts[0].life = 700;
    b.tick_b08_heavy_press(&mut st, &mut stage);
    assert_eq!(b.parts[0].action_num, 101);
    assert_eq!(b.parts[0].action_counter3, 9);
    assert_eq!(b.parts[0].action_counter, 1);
    assert!(b.parts[1].cond.alive() && b.parts[2].cond.alive() && b.parts[3].cond.alive());
    assert_eq!(b.parts[3].npc_flags.0 & 0x20, 0x20);
    assert_eq!(st.spawns.len(), 1);
    assert_eq!(st.spawns[0].1.npc_type, 325);
    b.parts[0].life = 600;
    b.tick_b08_heavy_press(&mut st, &mut stage);
    assert_eq!(b.parts[0].action_counter3, 8);
    for x in 8..13 {
        assert_eq!(stage.tiles[8 * 20 + x], 0);
    }
    assert_eq!(st.sounds, vec![12, 12, 12, 12, 12]);
    assert_eq!(st.smoke[0], DeathSmoke { x: 8 * 0x2000, y: 8 * 0x2000, radius: 0, amount: 7 });
    // Unchanged tiles give less smoke.
    b.parts[0].action_counter3 = 9;
    b.tick_b08_heavy_press(&mut st, &mut stage);
    assert_eq!(st.smoke[5].amount, 4);
}

#[test]
fn heavy_press_spawn_cycle() {
    let mut b = BossNPC::new();
    let mut st = state();
    let mut stage = Stage { width: 20, height: 20, tiles: vec![1u8; 20 * 20] };
    b.parts[0].action_num = 101;
    b.parts[0].life = 700;
    b.parts[0].action_counter3 = 9;
    b.parts[0].action_counter = 100;
    b.tick_b08_heavy_press(&mut st, &mut stage);
    assert_eq!(st.spawns.len(), 1);
    assert_eq!(st.spawns[0].1.npc_type, 323);
    assert_eq!(st.spawns[0].1.x, 0x22000);
    assert_eq!(st.spawns[0].1.direction, Direction::Up);
    b.parts[0].action_counter = 399;
    b.tick_b08_heavy_press(&mut st, &mut stage);
    assert_eq!(b.parts[0].action_counter, 100);
    assert_eq!(st.spawns[1].1.npc_type, 325);
}

#[test]
fn heavy_press_defeat_and_fall() {
    let mut b = BossNPC::new();
    let mut st = state();
    let mut stage = Stage { width: 20, height: 20, tiles: vec![1u8; 20 * 20] };
    b.parts[0].action_num = 500;
    b.tick_b08_heavy_press(&mut st, &mut stage);
    assert_eq!(b.parts[0].action_num, 501);
    assert_eq!(st.type_kills, vec![(325, true), (330, true)]);
    while b.parts[0].action_num == 501 {
        b.tick_b08_heavy_press(&mut st, &mut stage);
    }
    assert_eq!(b.parts[0].action_counter, 101);
    assert_eq!(b.parts[0].action_num, 510);
    assert_eq!(st.smoke.len(), 6);
    b.parts[0].y = 0x14000 - 10;
    b.tick_b08_heavy_press(&mut st, &mut stage);
    assert_eq!(b.parts[0].action_counter2, 1);
    assert_eq!(b.parts[0].vel_y, -0x200);
    for x in 7..14 {
        assert_eq!(stage.tiles[14 * 20 + x], 0);
    }
}

#[test]
fn heavy_press_flashes_when_hit() {
    let mut b = BossNPC::new();
    let mut st = state();
    let mut stage = Stage { width: 20, height: 20, tiles: vec![1u8; 20 * 20] };
    b.parts[0].action_num = 999;
    b.parts[0].anim_num = 1;
    b.parts[0].shock = 3;
    b.tick_b08_heavy_press(&mut st, &mut stage);
    assert_eq!(b.parts[4].action_counter, 1);
    assert_eq!(b.parts[0].anim_rect, 4);
    b.tick_b08_heavy_press(&mut st, &mut stage);
    assert_eq!(b.parts[0].anim_rect, 1);
}

#[test]
fn lightning_strikes_after_fifty_one_ticks() {
    let mut n = NPC::empty();
    let mut st = state();
    n.tick_n325_heavy_press_lightning(&mut st);
    assert_eq!(st.sounds, vec![29]);
    for _ in 0..50 {
        n.tick_n325_heavy_press_lightning(&mut st);
    }
    assert_eq!(n.action_num, 10);
    assert_eq!(n.anim_num, 3);
    assert_eq!(n.damage, 10);
    assert_eq!(st.sounds, vec![29, 101]);
    assert_eq!(st.smoke, vec![DeathSmoke { x: 0, y: 0xA800, radius: 0, amount: 3 }]);
    n.cond.set_alive(true);
    while n.cond.alive() {
        n.tick_n325_heavy_press_lightning(&mut st);
    }
    assert_eq!(n.anim_num, 7);
}

#[test]
fn helicopter_spawns_blades_and_passengers() {
    let mut n = NPC::empty();
    n.id = 9;
    n.x = 0x10000;
    n.y = 0x10000;
    let mut st = state();
    n.tick_n254_helicopter(&mut st);
    assert_eq!(n.action_num, 1);
    assert_eq!(st.spawns.len(), 2);
    assert_eq!(st.spawns[0].1.npc_type, 255);
    assert_eq!(st.spawns[0].1.parent_id, 9);
    assert_eq!((st.spawns[0].1.x, st.spawns[0].1.y), (0x12400, 0x10000 - 0x7200));
    assert_eq!(st.spawns[1].1.direction, Direction::Right);
    assert_eq!(st.spawns[1].1.parent_id, 9);
    n.action_num = 40;
    n.tick_n254_helicopter(&mut st);
    assert_eq!(n.action_num, 21);
    let types: Vec<u16> = st.spawns.iter().map(|s| s.1.npc_type).collect();
    assert_eq!(types, vec![255, 255, 223, 40, 223]);
    n.direction = Direction::Right;
    n.action_num = 20;
    n.tick_n254_helicopter(&mut st);
    assert_eq!((n.action_num, n.action_counter2, n.anim_rect), (21, 60, 1));
}

#[test]
fn blades_spin_once_the_helicopter_is_ready() {
    let (mut list, _token) = NPCList::new();
    let mut heli = NPC::empty();
    heli.cond.set_alive(true);
    heli.action_num = 1;
    list.spawn_at_slot(9, heli).unwrap();
    let mut blade = NPC::empty();
    blade.id = 10;
    blade.parent_id = 9;
    blade.tick_n255_helicopter_blades(&list);
    assert_eq!(blade.action_num, 1);
    assert_eq!(blade.display_bounds.left, 0x7000);
    let mut h = list.get_npc(9).unwrap().0;
    h.action_num = 20;
    list.set_npc(9, h);
    blade.tick_n255_helicopter_blades(&list);
    assert_eq!(blade.action_num, 10);
    blade.anim_num = 3;
    blade.direction = Direction::Right;
    blade.tick_n255_helicopter_blades(&list);
    assert_eq!((blade.action_num, blade.anim_num, blade.anim_rect), (11, 0, 4));
}

#[test]
fn caged_characters() {
    let players = [player(0x20000, 0), player(0, 0)];
    players[0].cond.alive();
    let mut chie = NPC::empty();
    chie.x = 0x10000;
    chie.y = 0x10000;
    chie.tick_n261_chie_caged(&players);
    assert_eq!((chie.x, chie.y, chie.action_num), (0x10000 - 0x200, 0x10000 - 0x400, 1));
    let mut chaco = NPC::empty();
    chaco.action_num = 2;
    chaco.action_counter = 12;
    chaco.tick_n262_chaco_caged(&[player(0x100, 0), player(0x100, 0)]);
    assert_eq!((chaco.action_num, chaco.anim_num, chaco.action_counter), (1, 0, 13));
    assert_eq!(chaco.direction, Direction::Right);
    assert_eq!(chaco.anim_rect, 2);
    let mut brigade = NPC::empty();
    brigade.action_num = 10;
    brigade.y = 0x4000;
    let mut st = state();
    brigade.tick_n260_shovel_brigade_caged(&mut st, &players);
    assert_eq!(brigade.action_num, 11);
    assert_eq!(st.spawns[0].1.npc_type, 87);
    assert_eq!(st.spawns[0].1.y, 0x2000);
    let mut santa = NPC::empty();
    santa.tick_n307_santa_caged();
    assert_eq!((santa.x, santa.y), (0x200, -0x400));
}

#[test]
fn villagers() {
    let players = [player(0x1000, 0), player(0x1000, 0)];
    let mut santa = NPC::empty();
    santa.action_num = 3;
    santa.direction = Direction::Right;
    santa.tick_n040_santa(&players);
    assert_eq!((santa.action_num, santa.anim_num, santa.x), (4, 2, 0x200));
    assert_eq!(santa.anim_rect, 9);
    santa.action_num = 5;
    santa.tick_n040_santa(&players);
    assert_eq!(santa.anim_num, 6);
    let mut idle = NPC::empty();
    idle.x = 0x2000;
    idle.tick_n040_santa(&players);
    // The near player is to the left.
    assert_eq!(idle.direction, Direction::Left);

    let mut chaco = NPC::empty();
    let mut st = state();
    chaco.action_num = 10;
    chaco.action_counter = 200;
    chaco.x = 5;
    chaco.tick_n093_chaco(&mut st, &players);
    assert_eq!(chaco.action_counter, 0);
    assert_eq!(st.carets.len(), 1);
    assert_eq!(st.carets[0].ctype, CaretType::Zzz);
    assert_eq!(st.carets[0].x, 5);
    chaco.tick_n093_chaco(&mut st, &players);
    assert_eq!((chaco.action_counter, chaco.anim_num), (1, 6));
}

#[test]
fn red_critter_crouches_watches_and_leaps() {
    let mut n = NPC::empty();
    let far = [player(0x80000, 0), player(0x80000, 0)];
    let mut st = state();
    n.tick_n241_critter_red(&mut st, &far);
    assert_eq!(n.action_num, 1);
    assert_eq!(n.action_counter, 1);
    assert_eq!(n.y, 0x600 + 0x55);
    assert_eq!(n.direction, Direction::Right);
    assert_eq!(n.anim_rect, 3);

    let mut n = NPC::empty();
    n.action_num = 1;
    n.action_counter = 8;
    let near = [player(0x10000, 0), player(0x10000, 0)];
    n.tick_n241_critter_red(&mut st, &near);
    assert_eq!(n.action_num, 1);
    assert_eq!(n.anim_num, 1);

    let close = [player(0x8000, 0), player(0x8000, 0)];
    n.tick_n241_critter_red(&mut st, &close);
    assert_eq!(n.action_num, 2);
    assert_eq!(n.action_counter, 0);
    assert_eq!(n.anim_num, 0);
}

#[test]
fn red_critter_jumps_then_lands() {
    let mut n = NPC::empty();
    n.action_num = 2;
    n.action_counter = 8;
    n.direction = Direction::Left;
    let players = [player(-0x80000, 0), player(-0x80000, 0)];
    let mut st = state();
    n.tick_n241_critter_red(&mut st, &players);
    assert_eq!(n.action_num, 3);
    assert_eq!(n.anim_num, 2);
    assert_eq!(n.vel_x, -0x200);
    assert_eq!(n.vel_y, -0x5ff + 0x55);
    assert_eq!(n.x, -0x200);
    assert_eq!(st.sounds, vec![30]);
    assert_eq!(n.anim_rect, 2);
    n.flags.0 = 0x08;
    n.tick_n241_critter_red(&mut st, &players);
    assert_eq!(n.action_num, 1);
    assert_eq!(n.vel_x, 0);
    assert_eq!(st.sounds, vec![30, 23]);
}

#[test]
fn bat_generator_sends_bats_after_a_random_wait() {
    let mut n = NPC::empty();
    n.x = 0x4000;
    n.y = 0x8000;
    n.direction = Direction::Right;
    n.rng = Xoroshiro32PlusPlus::new(7);
    let mut st = state();
    let mut ticks = 0;
    while st.spawns.is_empty() {
        n.tick_n243_bat_generator(&mut st);
        ticks += 1;
        assert!(ticks <= 502);
    }
    assert_eq!(n.action_num, 0);
    let (min_id, bat) = st.spawns[0];
    assert_eq!(min_id, 0x100);
    assert_eq!(bat.npc_type, 242);
    assert_eq!(bat.x, 0x4000);
    assert!((bat.y - 0x8000).abs() <= 32 * 0x200);
    assert_eq!(bat.direction, Direction::Right);
}

#[test]
fn lava_generator_waits_swells_and_drops() {
    let mut n = NPC::empty();
    n.x = 0x1000;
    n.y = 0x2000;
    n.event_num = 3;
    n.flag_num = 5;
    let mut st = state();
    n.tick_n245_lava_drop_generator(&mut st);
    assert_eq!((n.action_num, n.action_counter, n.target_x), (1, 2, 0x1000));
    n.tick_n245_lava_drop_generator(&mut st);
    n.tick_n245_lava_drop_generator(&mut st);
    assert_eq!(n.action_num, 1);
    n.tick_n245_lava_drop_generator(&mut st);
    assert_eq!(n.action_num, 10);
    assert_eq!(n.x, 0x1200);
    let mut ticks = 0;
    while st.spawns.is_empty() {
        n.tick_n245_lava_drop_generator(&mut st);
        ticks += 1;
        assert!(ticks <= 44);
    }
    assert_eq!(ticks, 44);
    assert_eq!(n.action_num, 1);
    assert_eq!(n.action_counter, 5);
    let drop = st.spawns[0].1;
    assert_eq!(drop.npc_type, 244);
    assert_eq!((drop.x, drop.y), (0x1000, 0x2000));
}

#[test]
fn red_demon_waits_until_shot() {
    let mut n = NPC::empty();
    n.y = 0x10000;
    let players = [player(0x40000, 0x10000), player(0x40000, 0x10000)];
    let mut st = state();
    n.tick_n276_red_demon(&mut st, &players);
    assert_eq!(n.action_num, 2);
    assert_eq!(n.y, 0x10000 - 0x1000 + 0x20);
    assert_eq!(n.direction, Direction::Right);
    assert_eq!(n.anim_rect, 9);
    n.shock = 1;
    n.tick_n276_red_demon(&mut st, &players);
    assert_eq!(n.action_num, 10);
    n.tick_n276_red_demon(&mut st, &players);
    assert_eq!(n.action_num, 11);
    assert_eq!(n.anim_num, 3);
    assert_eq!(n.npc_flags.0 & 0x20, 0x20);
}

#[test]
fn red_demon_fires_aimed_volleys() {
    let mut n = NPC::empty();
    n.action_num = 11;
    n.action_counter = 29;
    n.y = 0x10000;
    let players = [player(0x40000, 0x10000), player(0x40000, 0x10000)];
    let mut st = state();
    n.tick_n276_red_demon(&mut st, &players);
    assert_eq!(n.anim_num, 4);
    assert_eq!(n.anim_rect, 13);
    assert_eq!(st.spawns.len(), 1);
    let shot = st.spawns[0].1;
    assert_eq!(shot.npc_type, 277);
    assert_eq!((shot.x, shot.y), (0, 0x10000));
    assert_eq!(st.aims.len(), 1);
    assert_eq!((st.aims[0].spawn, st.aims[0].dx, st.aims[0].dy), (0, -0x40000, 0));
    assert_eq!((st.aims[0].jitter, st.aims[0].speed), (0, 2048));
    assert_eq!(st.sounds, vec![39]);
    n.action_counter = 60;
    n.tick_n276_red_demon(&mut st, &players);
    assert_eq!((n.action_num, n.action_counter, n.anim_num), (20, 0, 2));
}

#[test]
fn red_demon_leaps_fires_and_lands() {
    let mut n = NPC::empty();
    n.action_num = 20;
    n.action_counter = 20;
    let players = [player(0x40000, 0x10000), player(0x40000, 0x10000)];
    let mut st = state();
    n.tick_n276_red_demon(&mut st, &players);
    assert_eq!(n.action_num, 21);
    assert_eq!(n.anim_num, 5);
    assert_eq!((n.vel_x, n.vel_y), (0x100, -0x5ff + 0x20));
    n.action_counter = 29;
    n.vel_y = 0;
    n.y = 0x8000;
    n.flags.0 = 0x08;
    let x = n.x;
    n.tick_n276_red_demon(&mut st, &players);
    let shot = st.spawns[0].1;
    assert_eq!((shot.x, shot.y), (x, 0x8000 - 0x1400));
    assert_eq!(st.aims[0].dy, 0x8000 - 0x1400 - 0x10000);
    assert_eq!(n.action_num, 22);
    assert_eq!(n.anim_num, 2);
    assert_eq!((st.quake_counter, st.quake_rumble_counter), (10, 10));
    assert_eq!(st.sounds, vec![39, 26]);
    n.vel_x = 0x100;
    n.tick_n276_red_demon(&mut st, &players);
    assert_eq!(n.vel_x, 0x80);
}

#[test]
fn red_demon_defeat_drops_experience() {
    let mut n = NPC::empty();
    n.action_num = 50;
    n.x = 0x3000;
    n.y = 0x4000;
    n.vel_x = 0x100;
    n.damage = 5;
    n.npc_flags.0 = 0x20;
    n.flags.0 = 0x08;
    n.display_bounds.right = 0x1000;
    n.direction = Direction::Left;
    let players = [player(0x40000, 0x10000), player(0x40000, 0x10000)];
    let mut st = state();
    n.tick_n276_red_demon(&mut st, &players);
    assert_eq!(n.action_num, 51);
    assert_eq!(n.damage, 0);
    assert_eq!(n.npc_flags.0 & 0x20, 0);
    assert_eq!(st.xp_drops, vec![(0x3000, 0x4000, 19)]);
    assert_eq!(st.smoke, vec![DeathSmoke { x: 0x3000, y: 0x4000, radius: 0x1000, amount: 8 }]);
    assert_eq!(st.sounds, vec![72]);
    assert_eq!(n.direction, Direction::Left);
    n.tick_n276_red_demon(&mut st, &players);
    assert_eq!(n.vel_x, 0xe0);
    assert_eq!(n.anim_num, 8);
    assert_eq!(n.anim_rect, 8);
}

#[test]
fn village_toroko_blinks_at_random_and_turns_to_players() {
    let mut n = NPC::empty();
    n.rng = Xoroshiro32PlusPlus::new(12345);
    n.vel_x = 0x100;
    let far = [player(0x80000, 0), player(0x80000, 0)];
    let mut st = state();
    n.tick_n060_toroko(&mut st, &far);
    assert!(n.action_num == 1 || n.action_num == 2);
    assert_eq!(n.vel_x, 0);
    assert_eq!(n.vel_y, 0x40);
    let mut ticks = 0;
    while n.action_num != 2 {
        n.tick_n060_toroko(&mut st, &far);
        ticks += 1;
        assert!(ticks < 20000);
    }
    assert_eq!(n.anim_num, 1);
    for _ in 0..9 {
        n.tick_n060_toroko(&mut st, &far);
    }
    assert_eq!(n.action_num, 1);
    assert_eq!(n.anim_num, 0);

    let mut n = NPC::empty();
    n.action_num = 1;
    n.direction = Direction::Right;
    let left = [player(-0x1000, 0), player(-0x1000, 0)];
    n.tick_n060_toroko(&mut st, &left);
    assert_eq!(n.direction, Direction::Left);
    assert_eq!(n.anim_rect, n.anim_num);
}

#[test]
fn village_toroko_runs_and_turns_at_walls() {
    let mut n = NPC::empty();
    n.action_num = 3;
    n.direction = Direction::Right;
    let far = [player(0x80000, 0), player(0x80000, 0)];
    let mut st = state();
    n.tick_n060_toroko(&mut st, &far);
    assert_eq!((n.action_num, n.anim_num, n.anim_counter), (4, 1, 1));
    assert_eq!(n.vel_x, 0x400);
    assert_eq!(n.x, 0x400);
    assert_eq!(n.anim_rect, 9);
    n.flags.0 = 0x04;
    n.tick_n060_toroko(&mut st, &far);
    assert_eq!(n.direction, Direction::Left);
    assert_eq!(n.vel_x, -0x400);
    assert_eq!(n.anim_num, 1);
    n.tick_n060_toroko(&mut st, &far);
    assert_eq!(n.anim_num, 2);
}

#[test]
fn village_toroko_jumps_and_hops() {
    let mut n = NPC::empty();
    n.action_num = 6;
    n.direction = Direction::Right;
    let far = [player(0x80000, 0), player(0x80000, 0)];
    let mut st = state();
    n.tick_n060_toroko(&mut st, &far);
    assert_eq!(n.action_num, 7);
    assert_eq!((n.vel_x, n.vel_y), (0x100, -0x400 + 0x40));
    assert_eq!(n.action_counter, 1);
    n.flags.0 = 0x08;
    n.tick_n060_toroko(&mut st, &far);
    assert_eq!(n.action_num, 3);

    let mut n = NPC::empty();
    n.action_num = 8;
    n.flags.0 = 0x08;
    n.tick_n060_toroko(&mut st, &far);
    assert_eq!(n.action_num, 9);
    assert_eq!(n.vel_y, -0x200 + 0x40);
    n.tick_n060_toroko(&mut st, &far);
    assert_eq!(n.action_num, 0);
}

#[test]
fn village_toroko_knocked_down_lies_until_spoken_to() {
    let mut n = NPC::empty();
    n.action_num = 10;
    n.direction = Direction::Left;
    let far = [player(0x80000, 0), player(0x80000, 0)];
    let mut st = state();
    n.tick_n060_toroko(&mut st, &far);
    assert_eq!((n.action_num, n.anim_num), (11, 6));
    assert_eq!(n.vel_x, -0x100);
    assert_eq!(st.sounds, vec![50]);
    n.flags.0 = 0x08;
    n.tick_n060_toroko(&mut st, &far);
    assert_eq!(n.action_num, 11);
    n.tick_n060_toroko(&mut st, &far);
    assert_eq!((n.action_num, n.anim_num), (12, 7));
    assert_eq!(n.npc_flags.0 & 0x2000, 0x2000);
    n.tick_n060_toroko(&mut st, &far);
    assert_eq!(n.vel_x, 0);
    assert_eq!(n.anim_rect, 7);
}

#[test]
fn polish_starts_crawling_by_its_facing() {
    let mut n = NPC::empty();
    n.life = 500;
    n.direction = Direction::Right;
    let mut st = state();
    n.tick_n044_polish(&mut st);
    assert_eq!(n.action_num, 2);
    assert_eq!(n.vel_y, 0x20);
    assert_eq!(n.y, 0x20);
    assert_eq!(n.anim_num, 1);
    assert_eq!(n.anim_rect, 4);

    let mut n = NPC::empty();
    n.life = 500;
    n.direction = Direction::Left;
    n.tick_n044_polish(&mut st);
    assert_eq!(n.action_num, 8);
    assert_eq!(n.vel_y, 0x20);
    assert_eq!(n.anim_rect, 1);
    n.tick_n044_polish(&mut st);
    assert_eq!(n.vel_y, 0);
    assert_eq!(n.anim_num, 2);
}

#[test]
fn polish_bounces_and_rounds_corners() {
    let mut n = NPC::empty();
    n.life = 500;
    n.action_num = 2;
    n.vel_y = 0x100;
    n.flags.0 = 0x08;
    let mut st = state();
    n.tick_n044_polish(&mut st);
    assert_eq!((n.vel_x, n.vel_y), (0x100, -0x100));
    assert_eq!((n.x, n.y), (0x100, -0x100));
    assert_eq!(n.action_num, 2);
    n.flags.0 = 0x04;
    n.tick_n044_polish(&mut st);
    assert_eq!(n.action_num, 3);
    n.flags.0 = 0;
    n.vel_x = 0x200;
    n.shock = 2;
    let x = n.x;
    n.tick_n044_polish(&mut st);
    assert_eq!(n.vel_x, 0x200);
    assert_eq!(n.x, x + 0x100);
}

#[test]
fn polish_bursts_into_babies() {
    let mut n = NPC::empty();
    n.cond.set_alive(true);
    n.life = 100;
    n.action_num = 3;
    n.x = 0x5000;
    n.y = 0x6000;
    n.display_bounds.right = 0x1000;
    let mut st = state();
    n.tick_n044_polish(&mut st);
    assert!(!n.cond.alive());
    assert_eq!(st.sounds, vec![25]);
    assert_eq!(st.smoke, vec![DeathSmoke { x: 0x5000, y: 0x6000, radius: 0x1000, amount: 8 }]);
    assert_eq!(st.spawns.len(), 9);
    for (min_id, baby) in st.spawns.iter() {
        assert_eq!(*min_id, 0x100);
        assert_eq!(baby.npc_type, 45);
        assert_eq!((baby.x, baby.y), (0x5000, 0x6000));
    }
}

#[test]
fn colon_enraged_waits_then_runs_and_hops() {
    let mut n = NPC::empty();
    n.action_num = 10;
    n.life = 1000;
    n.damage = 5;
    n.rng = Xoroshiro32PlusPlus::new(99);
    let players = [player(0x40000, 0), player(0x40000, 0)];
    n.tick_n122_colon_enraged(&players);
    assert_eq!(n.life, 1000);
    assert_eq!(n.damage, 0);
    assert!(n.action_num == 11 || n.action_num == 13);
    let mut ticks = 0;
    while n.action_num != 13 {
        n.tick_n122_colon_enraged(&players);
        ticks += 1;
        assert!(ticks <= 51);
    }
    n.tick_n122_colon_enraged(&players);
    assert!(n.action_num == 14 || n.action_num == 15);
    assert_eq!(n.direction, Direction::Right);
    assert_eq!(n.vel_x, 64);
    ticks = 0;
    while n.action_num != 15 {
        n.tick_n122_colon_enraged(&players);
        ticks += 1;
        assert!(ticks <= 51);
    }
    assert_eq!(n.damage, 2);
    assert_eq!(n.npc_flags.0 & 0x20, 0x20);
    assert_eq!(n.vel_y, -512 + 32);
    assert!(n.vel_x <= 0x1ff);
    n.flags.0 = 0x08;
    n.tick_n122_colon_enraged(&players);
    assert_eq!((n.action_num, n.vel_x, n.damage), (10, 0, 0));
}

#[test]
fn colon_enraged_knocked_back_and_getting_up() {
    let mut n = NPC::empty();
    n.action_num = 11;
    n.action_counter = 20;
    n.life = 990;
    n.npc_flags.0 = 0x20;
    let players = [player(0x40000, 0), player(0x40000, 0)];
    n.tick_n122_colon_enraged(&players);
    assert_eq!(n.action_num, 20);
    assert_eq!(n.vel_y, -512 + 32);
    assert!(n.anim_num == 6 || n.anim_num == 7);
    assert_eq!(n.npc_flags.0 & 0x20, 0);
    n.anim_num = 6;
    n.flags.0 = 0x08;
    n.vel_x = 0x100;
    n.tick_n122_colon_enraged(&players);
    assert_eq!((n.action_num, n.anim_num, n.vel_x), (21, 8, 0));
    assert!(n.action_counter >= 300 && n.action_counter <= 400);
    n.action_counter = 0;
    n.tick_n122_colon_enraged(&players);
    assert_eq!(n.action_num, 11);
    assert_eq!(n.life, 1000);
    assert_eq!(n.npc_flags.0 & 0x20, 0x20);
    assert!(n.action_counter <= 50);
}

#[test]
fn toroko_stick_jumps_in_and_lands() {
    let mut n = NPC::empty();
    n.direction = Direction::Right;
    n.npc_flags.0 = 0x08;
    n.tick_n063_toroko_stick();
    assert_eq!(n.action_num, 1);
    assert_eq!((n.vel_x, n.vel_y), (0x100, -0x400 + 0x40));
    assert_eq!((n.action_counter, n.anim_counter), (1, 1));
    assert_eq!(n.npc_flags.0 & 0x08, 0x08);
    assert_eq!(n.anim_rect, 6);
    n.vel_y = 0x10;
    n.flags.0 = 0x08;
    n.tick_n063_toroko_stick();
    assert_eq!(n.action_num, 2);
    assert_eq!(n.npc_flags.0 & 0x08, 0);
    n.tick_n063_toroko_stick();
    assert_eq!((n.action_num, n.action_counter), (3, 1));
    assert_eq!(n.vel_x, 0x140);
}

#[test]
fn toroko_stick_turns_and_gets_knocked_down() {
    let mut n = NPC::empty();
    n.action_num = 3;
    n.action_counter = 50;
    n.vel_x = 0x200;
    n.direction = Direction::Right;
    n.tick_n063_toroko_stick();
    assert_eq!(n.action_counter, 40);
    assert_eq!(n.direction, Direction::Left);
    assert_eq!(n.vel_x, -0x240);
    assert_eq!(n.npc_flags.0 & 0x20, 0x20);
    n.shock = 1;
    n.damage = 3;
    n.tick_n063_toroko_stick();
    assert_eq!((n.action_num, n.anim_num, n.damage), (4, 4, 0));
    assert_eq!(n.vel_y, -0x400 + 0x40);
    assert_eq!(n.npc_flags.0 & 0x20, 0);
    n.flags.0 = 0x08;
    n.tick_n063_toroko_stick();
    assert_eq!(n.action_num, 5);
    assert_eq!(n.npc_flags.0 & 0x2000, 0x2000);
    n.tick_n063_toroko_stick();
    assert_eq!((n.vel_x, n.anim_num, n.anim_rect), (0, 5, 5));
}

#[test]
fn first_critter_wakes_up_before_leaping() {
    let mut n = NPC::empty();
    let players = [player(0x4000, 0x600), player(0x4000, 0x600)];
    let mut st = state();
    let mut ticks = 0;
    while n.action_num != 2 {
        n.vel_y = -0x40;
        n.tick_n064_first_cave_critter(&mut st, &players);
        ticks += 1;
        assert!(ticks <= 100);
        if ticks == 1 {
            assert_eq!((n.action_num, n.y, n.target_x, n.action_counter), (1, 0x600, 1, 1));
            assert_eq!(n.direction, Direction::Right);
            assert_eq!(n.anim_rect, 3);
        }
        if ticks == 9 {
            assert_eq!(n.anim_num, 1);
        }
    }
    assert_eq!(ticks, 100);
    assert_eq!(n.target_x, 100);
    for _ in 0..9 {
        n.tick_n064_first_cave_critter(&mut st, &players);
    }
    assert_eq!(n.action_num, 3);
    assert_eq!(n.vel_x, 0x100);
    assert_eq!(n.vel_y, -0x5ff + 0x40);
    assert_eq!(st.sounds, vec![30]);
    n.flags.0 = 0x08;
    n.tick_n064_first_cave_critter(&mut st, &players);
    assert_eq!((n.action_num, n.vel_x), (1, 0));
    assert_eq!(st.sounds, vec![30, 23]);
}

#[test]
fn first_cave_bat_hangs_then_flutters() {
    let mut n = NPC::empty();
    n.x = 0x2000;
    n.y = 0x3000;
    n.rng = Xoroshiro32PlusPlus::new(5);
    let players = [player(0, 0), player(0, 0)];
    n.tick_n065_first_cave_bat(&players);
    assert_eq!((n.target_x, n.target_y), (0x2000, 0x3000));
    assert_eq!(n.anim_counter, 1);
    let mut ticks = 1;
    while n.action_num != 2 {
        n.tick_n065_first_cave_bat(&players);
        ticks += 1;
        assert!(ticks <= 51);
    }
    assert_eq!(n.vel_y, 0x300);
    let y = n.y;
    assert_eq!(y, 0x3000 + 0x300);
    n.tick_n065_first_cave_bat(&players);
    assert_eq!(n.direction, Direction::Left);
    assert_eq!(n.vel_y, 0x2f0);
    assert_eq!(n.y, y + 0x2f0);
}

#[test]
fn first_cave_bat_flaps_every_other_tick() {
    let mut n = NPC::empty();
    n.action_num = 2;
    n.direction = Direction::Right;
    let players = [player(0x8000, 0), player(0x8000, 0)];
    n.tick_n065_first_cave_bat(&players);
    assert_eq!((n.anim_counter, n.anim_num, n.anim_rect), (1, 0, 0));
    n.tick_n065_first_cave_bat(&players);
    assert_eq!((n.anim_counter, n.anim_num, n.anim_rect), (0, 1, 5));
    n.tick_n065_first_cave_bat(&players);
    n.tick_n065_first_cave_bat(&players);
    assert_eq!((n.anim_num, n.anim_rect), (2, 6));
    n.tick_n065_first_cave_bat(&players);
    n.tick_n065_first_cave_bat(&players);
    assert_eq!((n.anim_num, n.anim_rect), (0, 4));
}

#[test]
fn green_critter_leaps_only_at_closer_players() {
    let players = [player(0x7000, 0x600), player(0x7000, 0x600)];
    let mut st = state();
    let mut green = NPC::empty();
    green.action_num = 1;
    green.y = 0x600;
    green.target_x = 100;
    green.action_counter = 8;
    let mut cave = green;
    green.tick_n005_green_critter(&mut st, &players);
    cave.tick_n064_first_cave_critter(&mut st, &players);
    assert_eq!(green.action_num, 1);
    assert_eq!(green.anim_num, 1);
    assert_eq!(cave.action_num, 2);
    let near = [player(0x5000, 0x600), player(0x5000, 0x600)];
    let mut green = NPC::empty();
    green.action_num = 1;
    green.y = 0x600;
    green.target_x = 100;
    green.action_counter = 8;
    green.tick_n005_green_critter(&mut st, &near);
    assert_eq!(green.action_num, 2);
}

#[test]
fn green_beetle_flies_from_wall_to_wall() {
    let mut n = NPC::empty();
    n.direction = Direction::Left;
    n.tick_n006_green_beetle();
    assert_eq!(n.action_num, 1);
    n.tick_n006_green_beetle();
    assert_eq!((n.vel_x, n.x), (-0x10, -0x10));
    assert_eq!((n.anim_counter, n.anim_num), (1, 0));
    n.tick_n006_green_beetle();
    assert_eq!(n.anim_num, 1);
    n.shock = 1;
    n.tick_n006_green_beetle();
    assert_eq!(n.vel_x, -0x30);
    assert_eq!(n.x, -0x10 - 0x20 - 0x18);
    n.shock = 0;
    n.flags.0 = 0x01;
    n.tick_n006_green_beetle();
    assert_eq!((n.action_num, n.vel_x, n.anim_num), (2, 0, 0));
    assert_eq!(n.direction, Direction::Right);
    assert_eq!(n.anim_rect, 5);
    n.flags.0 = 0;
    for _ in 0..61 {
        n.tick_n006_green_beetle();
    }
    assert_eq!((n.action_num, n.anim_num), (3, 1));
    n.tick_n006_green_beetle();
    assert_eq!(n.vel_x, 0x10);
}

#[test]
fn green_beetle_caps_its_speed() {
    let mut n = NPC::empty();
    n.action_num = 3;
    n.vel_x = 0x3f8;
    n.direction = Direction::Right;
    n.tick_n006_green_beetle();
    assert_eq!((n.vel_x, n.x), (0x400, 0x400));
    n.flags.0 = 0x04;
    n.tick_n006_green_beetle();
    assert_eq!((n.action_num, n.direction), (4, Direction::Left));
}

#[test]
fn basil_dashes_back_and_forth_under_the_player() {
    let mut n = NPC::empty();
    n.direction = Direction::Left;
    let players = [player(0x40000, 0), player(0x40000, 0)];
    n.tick_n007_basil(&players);
    assert_eq!((n.x, n.action_num), (0x40000, 1));
    assert_eq!(n.direction, Direction::Right);
    n.tick_n007_basil(&players);
    assert_eq!((n.vel_x, n.x), (-0x40, 0x40000 - 0x40));
    assert_eq!(n.direction, Direction::Left);
    assert_eq!(n.anim_num, 1);
    assert_eq!(n.anim_rect, 1);
    for _ in 0..30 {
        n.tick_n007_basil(&players);
    }
    assert_eq!(n.vel_x, -0x5ff);
    n.flags.0 = 0x01;
    n.tick_n007_basil(&players);
    assert_eq!((n.action_num, n.vel_x), (2, 0));
    assert_eq!(n.direction, Direction::Right);
    n.flags.0 = 0;
    n.x = 0x40000 + 0x18001;
    n.vel_x = 0x100;
    n.tick_n007_basil(&players);
    assert_eq!(n.action_num, 1);
    assert_eq!(n.vel_x, 0x140);
}

#[test]
fn lift_goes_up_two_floors_and_back() {
    let mut n = NPC::empty();
    n.y = 0x40000;
    n.tick_n025_lift();
    assert_eq!((n.x, n.action_num, n.action_counter, n.anim_counter), (0x1000, 1, 1, 1));
    let mut top = n.y;
    let mut ticks = 1;
    let mut seen_eight = false;
    loop {
        n.tick_n025_lift();
        ticks += 1;
        top = top.min(n.y);
        if n.action_num == 8 {
            seen_eight = true;
        }
        if seen_eight && n.action_num == 1 {
            break;
        }
        assert!(ticks < 2000);
    }
    assert_eq!(top, 0x40000 - 2 * 64 * 0x200);
    assert_eq!(n.y, 0x40000);
    assert_eq!(ticks, 4 * 151 + 4 * 65);
    assert_eq!(n.anim_rect, n.anim_num);
}

#[test]
fn zombie_dragon_wakes_for_near_players_and_fires() {
    let mut n = NPC::empty();
    n.life = 1000;
    n.y = 0x1000;
    let far = [player(0x20000, 0x2000), player(0x20000, 0x2000)];
    let near = [player(0x8000, 0x2000), player(0x8000, 0x2000)];
    let mut st = state();
    n.tick_n200_zombie_dragon(&mut st, &far);
    assert_eq!((n.action_num, n.anim_counter), (10, 1));
    n.tick_n200_zombie_dragon(&mut st, &near);
    assert_eq!(n.action_num, 20);
    n.tick_n200_zombie_dragon(&mut st, &near);
    assert_eq!((n.action_num, n.action_counter, n.anim_num), (21, 1, 2));
    assert_eq!(n.direction, Direction::Right);
    assert_eq!(n.anim_rect, 8);
    for _ in 0..30 {
        n.tick_n200_zombie_dragon(&mut st, &near);
    }
    assert_eq!(n.action_num, 30);
    n.tick_n200_zombie_dragon(&mut st, &near);
    assert_eq!((n.action_num, n.anim_num, n.anim_rect), (31, 4, 10));
    assert_eq!((n.target_x, n.target_y), (0x8000, 0x2000));
    let shot = st.spawns[0].1;
    assert_eq!(shot.npc_type, 202);
    assert_eq!((shot.x, shot.y), (0x1c00, 0x1000));
    let aim = st.aims[0];
    assert_eq!((aim.dx, aim.dy, aim.speed), (0x1c00 - 0x8000, -0x1000, 1536));
    assert!(aim.jitter >= -6 && aim.jitter <= 6);
    assert_eq!(st.sounds, vec![33]);
    for _ in 0..60 {
        n.tick_n200_zombie_dragon(&mut st, &near);
    }
    assert_eq!(n.action_num, 10);
    assert!(n.action_counter3 >= 99 && n.action_counter3 <= 200);
    assert_eq!(st.spawns.len(), 5);
}

#[test]
fn zombie_dragon_defeat_drops_its_experience() {
    let mut n = NPC::empty();
    n.life = 900;
    n.action_num = 10;
    n.x = 0x3000;
    n.y = 0x4000;
    n.exp = 6;
    n.npc_flags.0 = 0x20;
    n.display_bounds.right = 0x2000;
    let players = [player(0x20000, 0), player(0x20000, 0)];
    let mut st = state();
    n.tick_n200_zombie_dragon(&mut st, &players);
    assert_eq!((n.action_num, n.anim_num, n.damage), (100, 5, 0));
    assert_eq!(n.npc_flags.0 & 0x20, 0);
    assert_eq!(st.sounds, vec![72]);
    assert_eq!(st.xp_drops, vec![(0x3000, 0x4000, 6)]);
    assert_eq!(st.smoke, vec![DeathSmoke { x: 0x3000, y: 0x4000, radius: 0x2000, amount: 8 }]);
    n.tick_n200_zombie_dragon(&mut st, &players);
    assert_eq!(st.sounds, vec![72]);
}

#[test]
fn ruined_critter_keeps_its_watching_frame() {
    let players = [player(0x20000, 0x600), player(0x20000, 0x600)];
    let mut st = state();
    let mut ruined = NPC::empty();
    ruined.action_num = 1;
    ruined.y = 0x600;
    ruined.anim_num = 1;
    ruined.action_counter = 8;
    let mut green = ruined;
    ruined.tick_n203_critter_destroyed_egg_corridor(&mut st, &players);
    green.tick_n005_green_critter(&mut st, &players);
    assert_eq!(ruined.anim_num, 1);
    assert_eq!(green.anim_num, 0);
    assert_eq!(ruined.anim_rect, 4);

    let mut n = NPC::empty();
    n.action_num = 2;
    n.action_counter = 8;
    n.direction = Direction::Up;
    n.tick_n203_critter_destroyed_egg_corridor(&mut st, &players);
    assert_eq!((n.action_num, n.vel_x, n.vel_y), (3, 0x100, -0x5ff + 0x40));
    assert_eq!(n.anim_rect, 2);
    assert_eq!(st.sounds, vec![30]);
}

#[test]
fn counter_bomb_counts_down_and_explodes() {
    let mut n = NPC::empty();
    n.x = 0x8000;
    n.y = 0x4000;
    n.rng = Xoroshiro32PlusPlus::new(3);
    let far = [player(0x40000, 0), player(0x40000, 0)];
    let near = [player(0x9000, 0), player(0x9000, 0)];
    let mut st = state();
    n.tick_n206_counter_bomb(&mut st, &far);
    assert_eq!((n.target_x, n.target_y, n.action_counter3), (0x8000, 0x4000, 120));
    let mut ticks = 1;
    while n.action_num != 2 {
        n.tick_n206_counter_bomb(&mut st, &far);
        ticks += 1;
        assert!(ticks <= 51);
    }
    assert_eq!(n.vel_y, 0x100);
    assert_eq!(n.y, 0x4100);
    n.tick_n206_counter_bomb(&mut st, &far);
    assert_eq!(n.action_num, 2);
    assert_eq!(n.vel_y, 0xf0);
    n.tick_n206_counter_bomb(&mut st, &near);
    assert_eq!((n.action_num, n.action_counter), (3, 0));
    for _ in 0..301 {
        n.tick_n206_counter_bomb(&mut st, &near);
    }
    assert_eq!(st.spawns.len(), 5);
    for (k, (_, number)) in st.spawns.iter().enumerate() {
        assert_eq!(number.npc_type, 207);
        assert_eq!(number.tsc_direction, k as u16);
    }
    assert_eq!(n.damage, 30);
    assert_eq!(n.hit_bounds, Rect { left: 0x10000, top: 0xc800, right: 0x10000, bottom: 0xc800 });
    assert_eq!(n.cond.0 & 0x08, 0x08);
    assert_eq!((st.quake_counter, st.quake_rumble_counter), (20, 20));
    assert_eq!(st.sounds, vec![35]);
    assert_eq!(st.smoke.len(), 1);
    assert_eq!((st.smoke[0].radius, st.smoke[0].amount), (0x10000, 100));
}

#[test]
fn countdown_number_slides_and_fades() {
    let mut n = NPC::empty();
    n.cond.set_alive(true);
    n.tsc_direction = 3;
    let mut st = state();
    n.tick_n207_counter_bomb_countdown(&mut st);
    assert_eq!((n.action_num, n.anim_num, n.anim_rect, n.x), (1, 3, 3, 0x200));
    assert_eq!(st.sounds, vec![43]);
    for _ in 0..8 {
        n.tick_n207_counter_bomb_countdown(&mut st);
    }
    assert_eq!((n.action_num, n.action_counter, n.x), (2, 0, 9 * 0x200));
    for _ in 0..30 {
        n.tick_n207_counter_bomb_countdown(&mut st);
    }
    assert!(n.cond.alive());
    n.tick_n207_counter_bomb_countdown(&mut st);
    assert!(!n.cond.alive());
}

#[test]
fn tan_beetle_waits_for_a_player_in_line() {
    let mut n = NPC::empty();
    n.action_num = 2;
    n.x = 0x1000;
    n.y = 0x2000;
    n.direction = Direction::Right;
    let above = [player(0x10000, 0), player(0x10000, 0)];
    let level = [player(0x10000, 0x2800), player(0x10000, 0x2800)];
    n.tick_n056_tan_beetle(&above);
    assert_eq!(n.action_num, 2);
    n.tick_n056_tan_beetle(&level);
    assert_eq!((n.action_num, n.anim_num, n.anim_counter), (3, 1, 0));
    assert_eq!(n.anim_rect, 4);
    n.tick_n056_tan_beetle(&level);
    assert_eq!((n.vel_x, n.x), (0x10, 0x1010));
    n.flags.0 = 0x04;
    n.tick_n056_tan_beetle(&level);
    assert_eq!((n.action_num, n.direction, n.vel_x), (4, Direction::Left, 0));
    n.tick_n056_tan_beetle(&level);
    assert_eq!(n.action_num, 4);
    let behind = [player(0x1000 - 0x8000, 0x2000), player(0x1000 - 0x8000, 0x2000)];
    n.tick_n056_tan_beetle(&behind);
    assert_eq!(n.action_num, 1);
}

#[test]
fn armadillo_uncurls_and_curls_up_at_polar_star_shots() {
    let mut n = NPC::empty();
    n.npc_flags.0 = 0x20;
    let far = [player(0x40000, 0), player(0x40000, 0)];
    let near = [player(0x10000, 0), player(0x10000, 0)];
    let none = BulletCounts { by_type: vec![0; 10] };
    let mut shots = vec![0; 10];
    shots[6] = 1;
    let polar = BulletCounts { by_type: shots };
    n.tick_n134_armadillo(&far, &none);
    assert_eq!((n.action_num, n.anim_num), (1, 2));
    assert_eq!(n.npc_flags.0 & 0x24, 0x04);
    n.y = 0;
    n.vel_y = 0;
    n.tick_n134_armadillo(&near, &none);
    assert_eq!(n.action_num, 10);
    assert_eq!(n.npc_flags.0 & 0x24, 0x20);
    n.direction = Direction::Left;
    n.tick_n134_armadillo(&near, &none);
    assert_eq!(n.x, -0x100);
    n.flags.0 = 0x01;
    n.tick_n134_armadillo(&near, &none);
    assert_eq!(n.direction, Direction::Right);
    assert_eq!(n.x, 0);
    n.tick_n134_armadillo(&near, &polar);
    assert_eq!((n.action_num, n.anim_num), (20, 2));
    assert_eq!(n.npc_flags.0 & 0x24, 0x04);
    for _ in 0..101 {
        n.tick_n134_armadillo(&near, &polar);
    }
    assert_eq!((n.action_num, n.anim_num), (10, 0));
    assert_eq!(n.npc_flags.0 & 0x24, 0x20);
}

#[test]
fn colons_jenka_and_the_puppy_idle() {
    let mut st = state();
    let mut a = NPC::empty();
    a.direction = Direction::Right;
    a.tick_n120_colon_a();
    assert_eq!(a.anim_rect, 1);

    let mut sleeper = NPC::empty();
    sleeper.direction = Direction::Right;
    sleeper.x = 0x100;
    for _ in 0..100 {
        sleeper.tick_n121_colon_b(&mut st);
    }
    assert!(st.carets.is_empty());
    assert_eq!(sleeper.anim_rect, 2);
    sleeper.tick_n121_colon_b(&mut st);
    assert_eq!(sleeper.action_counter, 0);
    assert_eq!(st.carets.len(), 1);
    assert_eq!(st.carets[0].ctype, CaretType::Zzz);
    assert_eq!(st.carets[0].x, 0x100);

    let mut puppy = NPC::empty();
    puppy.action_counter = 100;
    puppy.tick_n131_puppy_sleeping(&mut st);
    assert_eq!(st.carets.len(), 2);
    assert_eq!(puppy.anim_rect, 0);

    let mut jenka = NPC::empty();
    jenka.direction = Direction::Right;
    jenka.rng = Xoroshiro32PlusPlus::new(77);
    let mut ticks = 0;
    while jenka.action_num != 2 {
        jenka.tick_n133_jenka();
        ticks += 1;
        assert!(ticks < 20000);
    }
    assert_eq!((jenka.anim_num, jenka.anim_rect), (1, 3));
    for _ in 0..9 {
        jenka.tick_n133_jenka();
    }
    assert_eq!((jenka.action_num, jenka.anim_rect), (1, 2));

    let mut awake = NPC::empty();
    awake.direction = Direction::Left;
    awake.action_num = 2;
    awake.action_counter = 8;
    awake.anim_num = 1;
    awake.tick_n121_colon_b(&mut st);
    assert_eq!((awake.action_num, awake.anim_rect), (1, 0));
}

#[test]
fn sunstone_slides_shaking_the_room() {
    let mut n = NPC::empty();
    n.npc_flags.0 = 0x08;
    let mut st = state();
    n.tick_n124_sunstone(&mut st);
    assert_eq!((n.action_num, n.x, n.y), (1, 0x1000, 0x1000));
    assert_eq!(n.npc_flags.0 & 0x08, 0);
    n.action_num = 10;
    n.direction = Direction::Right;
    n.tick_n124_sunstone(&mut st);
    assert_eq!((n.action_num, n.anim_rect, n.x), (11, 1, 0x1080));
    assert_eq!(n.npc_flags.0 & 0x08, 0x08);
    assert_eq!((st.quake_counter, st.quake_rumble_counter), (20, 20));
    for _ in 0..7 {
        n.tick_n124_sunstone(&mut st);
    }
    assert_eq!(st.sounds, vec![26]);
    assert_eq!(n.x, 0x1000 + 8 * 0x80);
    n.direction = Direction::Up;
    n.tick_n124_sunstone(&mut st);
    assert_eq!(n.y, 0x1000 - 0x80);
}

#[test]
fn sitting_puppy_wags_at_a_near_player() {
    let mut n = NPC::empty();
    n.rng = Xoroshiro32PlusPlus::new(1);
    let near = [player(-0x4000, 0), player(-0x4000, 0)];
    n.tick_n130_puppy_sitting(&near);
    assert_eq!(n.npc_flags.0 & 0x2000, 0x2000);
    assert_eq!(n.direction, Direction::Left);
    n.vel_y = -0x40;
    n.y = 0;
    n.action_num = 1;
    n.anim_num = 3;
    n.anim_counter = 3;
    n.tick_n130_puppy_sitting(&near);
    if n.action_num == 1 {
        assert_eq!((n.anim_num, n.anim_counter), (2, 0));
    }
    let right = [player(0xa000, 0), player(0xa000, 0)];
    let mut m = NPC::empty();
    m.action_num = 2;
    m.direction = Direction::Left;
    m.tick_n130_puppy_sitting(&right);
    assert_eq!(m.direction, Direction::Left);
    let mut m = NPC::empty();
    m.action_num = 1;
    m.anim_num = 7;
    m.tick_n130_puppy_sitting(&right);
    assert_eq!(m.direction, Direction::Right);
    assert!(m.anim_num == 7 || m.anim_num == 1);
}

#[test]
fn running_puppy_runs_off_and_bounces() {
    let mut n = NPC::empty();
    n.action_num = 1;
    let close = [player(0x2000, 0), player(0x2000, 0)];
    n.tick_n126_puppy_running(&close, false);
    assert_eq!(n.action_num, 10);
    assert_eq!(n.direction, Direction::Left);
    assert_eq!(n.npc_flags.0 & 0x2000, 0);
    n.tick_n126_puppy_running(&close, true);
    assert_eq!((n.action_num, n.anim_num), (11, 5));
    assert_eq!(n.vel_x, -0x40);
    assert_eq!(n.npc_flags.0 & 0x2000, 0x2000);
    n.vel_x = -0x300;
    n.flags.0 = 0x01 | 0x08;
    n.tick_n126_puppy_running(&close, false);
    assert_eq!(n.direction, Direction::Right);
    assert_eq!(n.vel_x, 0x180 + 0x40);
    n.flags.0 = 0x08;
    n.vel_x = 0x5f0;
    n.tick_n126_puppy_running(&close, false);
    assert_eq!(n.vel_x, 0x400);
}

#[test]
fn sandcroc_follows_snaps_and_sinks() {
    let mut n = NPC::empty();
    n.y = 0x8000;
    n.npc_flags.0 = 0x2d;
    let far = [player(0x4000, 0x8800), player(0x4000, 0x8800)];
    let mut st = state();
    n.tick_n047_sandcroc(&mut st, &far);
    assert_eq!((n.action_num, n.target_y, n.x), (1, 0x8000, 0x400));
    assert_eq!(n.npc_flags.0, 0);
    let above = [player(0x400, 0x8800), player(0x400, 0x8800)];
    n.tick_n047_sandcroc(&mut st, &above);
    assert_eq!((n.action_num, n.x), (2, 0x400));
    assert_eq!(st.sounds, vec![102]);
    for _ in 0..12 {
        n.tick_n047_sandcroc(&mut st, &above);
    }
    assert_eq!((n.anim_num, n.damage), (3, 10));
    for _ in 0..4 {
        n.tick_n047_sandcroc(&mut st, &above);
    }
    assert_eq!((n.action_num, n.anim_rect), (3, 4));
    assert_eq!(n.npc_flags.0 & 0x20, 0x20);
    n.tick_n047_sandcroc(&mut st, &above);
    assert_eq!(n.damage, 0);
    assert_eq!(n.npc_flags.0 & 0x01, 0x01);
    n.shock = 1;
    n.tick_n047_sandcroc(&mut st, &above);
    assert_eq!(n.action_num, 4);
    for _ in 0..32 {
        n.tick_n047_sandcroc(&mut st, &above);
    }
    assert_eq!((n.action_num, n.y), (5, 0x8000 + 32 * 0x200));
    assert_eq!(n.npc_flags.0 & 0x21, 0);
    for _ in 0..100 {
        n.tick_n047_sandcroc(&mut st, &above);
    }
    assert_eq!(n.action_num, 5);
    n.tick_n047_sandcroc(&mut st, &above);
    assert_eq!((n.action_num, n.y, n.anim_num), (0, 0x8000, 0));
}

#[test]
fn chinfish_bobs_about_its_starting_height() {
    let mut n = NPC::empty();
    n.x = 0x1000;
    n.y = 0x2000;
    n.vel_x = 0x10;
    n.tick_n071_chinfish();
    assert_eq!((n.action_num, n.target_x, n.target_y), (1, 0x1000, 0x2000));
    // it starts sinking at 0x80, then 8 less per tick once below its start
    assert_eq!(n.vel_y, 0x80);
    assert_eq!((n.x, n.y), (0x1010, 0x2080));
    assert_eq!((n.anim_counter, n.anim_num, n.anim_rect), (1, 0, 0));
    n.tick_n071_chinfish();
    assert_eq!(n.vel_y, 0x78);
    assert_eq!(n.y, 0x2080 + 0x78);
    n.vel_y = 0x200;
    n.tick_n071_chinfish();
    assert_eq!(n.vel_y, 0x100);
    n.shock = 1;
    n.direction = Direction::Right;
    n.tick_n071_chinfish();
    assert_eq!((n.anim_num, n.anim_rect), (2, 5));
}

#[test]
fn kanpachi_looks_up_at_a_near_player() {
    let mut n = NPC::empty();
    let near = [player(0x5000, -0x5000), player(0x5000, -0x5000)];
    n.tick_n075_kanpachi(&near);
    assert_eq!((n.action_num, n.anim_num, n.anim_rect), (1, 1, 1));
    let below = [player(0, 0x2000), player(0, 0x2000)];
    n.tick_n075_kanpachi(&below);
    assert_eq!((n.anim_num, n.anim_rect), (0, 0));
}

#[test]
fn yamashita_blinks_for_nine_ticks() {
    let mut n = NPC::empty();
    n.action_num = 2;
    for _ in 0..8 {
        n.tick_n077_yamashita();
        assert_eq!(n.action_num, 2);
    }
    n.tick_n077_yamashita();
    assert_eq!((n.action_num, n.anim_num, n.action_counter), (1, 0, 9));
    n.direction = Direction::Right;
    n.anim_num = 1;
    n.action_num = 3;
    n.tick_n077_yamashita();
    assert_eq!(n.anim_rect, 2);
}

#[test]
fn mahin_falls_and_turns_to_a_near_player() {
    let mut n = NPC::empty();
    n.tick_n079_mahin(&[player(0, 0), player(0, 0)]);
    assert_eq!((n.action_num, n.anim_num, n.vel_y, n.y), (1, 2, 0x40, 0x40));
    n.vel_y = 0x5f0;
    n.tick_n079_mahin(&[player(0, 0), player(0, 0)]);
    assert_eq!(n.vel_y, 0x5ff);
    let mut m = NPC::empty();
    m.action_num = 2;
    m.direction = Direction::Left;
    m.tick_n079_mahin(&[player(0x3000, 0), player(0x3000, 0)]);
    assert_eq!(m.direction, Direction::Right);
    assert_eq!(m.anim_rect, m.anim_num + 3);
}

#[test]
fn mimiga_cage_drops_once() {
    let mut n = NPC::empty();
    n.y = 0x4000;
    n.tick_n091_mimiga_cage();
    assert_eq!((n.action_num, n.y), (1, 0x6000));
    n.tick_n091_mimiga_cage();
    assert_eq!(n.y, 0x6000);
}

#[test]
fn numahachi_rises_then_stands_and_falls() {
    let mut n = NPC::empty();
    n.y = 0x4000;
    n.vel_x = 0x100;
    n.tick_n337_numahachi();
    assert_eq!((n.action_num, n.vel_x, n.x), (2, 0, 0));
    assert_eq!((n.vel_y, n.y), (0x40, 0x4000 - 0x1000 + 0x40));
    assert_eq!((n.anim_counter, n.anim_num), (1, 0));
    n.anim_counter = 50;
    n.vel_y = 0x5f0;
    n.tick_n337_numahachi();
    assert_eq!((n.anim_num, n.anim_rect, n.vel_y), (1, 1, 0x5ff));
}

#[test]
fn bute_waits_then_flies_at_the_player() {
    let mut n = NPC::empty();
    n.life = 1000;
    n.x = 0x30000;
    n.direction = Direction::Left;
    let far = [player(0, 0), player(0, 0)];
    n.tick_n309_bute(&far);
    assert_eq!(n.action_num, 1);
    let seen = [player(0x30000 - 0x23000, 0x100), player(0x30000 - 0x23000, 0x100)];
    n.tick_n309_bute(&seen);
    assert_eq!(n.action_num, 10);
    n.tick_n309_bute(&seen);
    assert_eq!((n.action_num, n.damage), (11, 5));
    assert_eq!(n.npc_flags.0 & 0x20, 0x20);
    assert_eq!((n.direction, n.vel_x2, n.vel_y2), (Direction::Left, -0x10, 0x10));
    assert_eq!((n.x, n.y), (0x30000 - 0x10, 0x10));
    assert_eq!((n.anim_num, n.anim_rect), (0, 0));
    n.vel_x2 = -0x5f8;
    n.flags.0 = 0x01;
    n.tick_n309_bute(&seen);
    assert_eq!(n.vel_x2, 0x5ff);
    n.life = 996;
    n.tick_n309_bute(&seen);
    assert_eq!((n.npc_type, n.action_num), (316, 0));
}

#[test]
fn dead_bute_is_thrown_back_lands_and_explodes() {
    let mut n = NPC::empty();
    n.direction = Direction::Left;
    n.npc_flags = NPCFlag(0x20 | 0x08);
    n.damage = 5;
    let mut st = state();
    n.tick_n316_bute_dead(&mut st);
    assert_eq!(st.sounds, vec![50]);
    assert_eq!((n.action_num, n.damage, n.npc_flags.0), (1, 0, 0));
    assert_eq!((n.display_bounds.top, n.display_bounds.left, n.display_bounds.right), (0x1800, 0x1800, 0x1800));
    assert_eq!((n.vel_x, n.vel_y), (0x100, -0x200 + 0x20));
    assert_eq!((n.x, n.y), (0x100, -0x1e0));
    n.flags.0 = 0x08;
    n.tick_n316_bute_dead(&mut st);
    assert_eq!((n.action_num, n.anim_num, n.action_counter), (2, 1, 0));
    n.vel_x = 0x90;
    n.tick_n316_bute_dead(&mut st);
    assert_eq!(n.vel_x, 0x80);
    for _ in 0..50 {
        n.tick_n316_bute_dead(&mut st);
    }
    assert_eq!(n.action_counter, 51);
    assert_eq!(n.cond.0 & 0x08, 0x08);
    assert!(n.anim_num == 1 || n.anim_num == 2);
}

#[test]
fn bute_generator_sends_one_every_fifty_ticks() {
    let mut n = NPC::empty();
    n.action_num = 10;
    n.x = 0x1000;
    n.y = 0x2000;
    n.direction = Direction::Right;
    let mut st = state();
    for _ in 0..352 {
        n.tick_n324_bute_generator(&mut st);
    }
    assert_eq!(n.action_num, 0);
    // ticks 1, 51, ..., 351
    assert_eq!(st.spawns.len(), 8);
    assert!(st.spawns.iter().all(|(min, b)| *min == 0x100
        && b.npc_type == 323
        && b.cond.alive()
        && (b.x, b.y, b.direction) == (0x1000, 0x2000, Direction::Right)));
    n.tick_n324_bute_generator(&mut st);
    assert_eq!(st.spawns.len(), 8);
}

#[test]
fn mesa_raises_and_throws_a_block() {
    let mut n = NPC::empty();
    n.life = 1000;
    n.id = 9;
    n.x = 0x10000;
    n.y = 0x11000;
    let near = [player(0x8000, 0x10000), player(0x8000, 0x10000)];
    let mut st = state();
    n.tick_n317_mesa(&mut st, &near);
    assert_eq!((n.action_num, n.target_x, n.direction), (2, 0x10000, Direction::Left));
    assert_eq!(n.action_counter, 1);
    assert_eq!((n.vel_y, n.y), (0x55, 0x10000 + 0x55));
    for _ in 0..50 {
        n.tick_n317_mesa(&mut st, &near);
    }
    assert_eq!(n.action_num, 10);
    n.tick_n317_mesa(&mut st, &near);
    assert_eq!((n.action_num, n.anim_num, n.action_counter), (11, 2, 1));
    assert_eq!(st.spawns.len(), 1);
    let (min, block) = st.spawns[0];
    assert_eq!((min, block.npc_type, block.parent_id), (0x100, 319, 9));
    for _ in 0..50 {
        n.tick_n317_mesa(&mut st, &near);
    }
    assert_eq!((n.action_num, n.anim_num, n.action_counter), (12, 3, 0));
    assert_eq!(st.sounds, vec![39]);
    for _ in 0..21 {
        n.tick_n317_mesa(&mut st, &near);
    }
    assert_eq!(n.action_num, 1);
    n.life = 936;
    n.tick_n317_mesa(&mut st, &near);
    assert_eq!((n.npc_type, n.action_num), (318, 0));
}

#[test]
fn dead_mesa_falls_back_slowly() {
    let mut n = NPC::empty();
    n.direction = Direction::Right;
    n.npc_flags = NPCFlag(0x20 | 0x08 | 0x01);
    let mut st = state();
    n.tick_n318_mesa_dead(&mut st);
    assert_eq!(st.sounds, vec![54]);
    assert_eq!((n.npc_flags.0, n.vel_x, n.anim_rect), (0, -0x40, 3));
    assert_eq!(n.display_bounds, NPC::empty().display_bounds);
}

#[test]
fn sword_bute_guards_walks_and_leaps() {
    let mut n = NPC::empty();
    n.life = 1000;
    n.x = 0x20000;
    let far = [player(0x40000, 0), player(0x40000, 0)];
    let mut st = state();
    n.tick_n310_bute_sword(&mut st, &far);
    assert_eq!((n.action_num, n.damage, n.direction), (1, 0, Direction::Right));
    assert_eq!(n.npc_flags.0 & 0x24, 0x04);
    assert_eq!((n.vel_y, n.anim_rect), (0x20, 5));
    let near = [player(0x28000, 0), player(0x28000, 0)];
    n.tick_n310_bute_sword(&mut st, &near);
    assert_eq!(n.action_num, 10);
    for _ in 0..31 {
        n.tick_n310_bute_sword(&mut st, &near);
    }
    assert_eq!((n.action_num, n.action_counter), (20, 31));
    n.tick_n310_bute_sword(&mut st, &near);
    assert_eq!((n.action_num, n.vel_x, n.x), (21, 0x400, 0x20400));
    assert_eq!(n.npc_flags.0 & 0x24, 0x20);
    // 0x28000 - 0x5000 is reached after a few more steps: the leap
    while n.action_num == 21 {
        n.tick_n310_bute_sword(&mut st, &near);
    }
    assert_eq!((n.action_num, n.anim_num, n.vel_x), (30, 2, 0x200));
    assert_eq!(n.vel_y, -0x300 + 0x20);
    assert_eq!(st.sounds, vec![30]);
}

#[test]
fn archer_bute_aims_draws_and_shoots() {
    let mut n = NPC::empty();
    n.life = 1000;
    n.x = 0x30000;
    n.y = 0x10000;
    n.direction = Direction::Left;
    let level = [player(0x20000, 0x10000), player(0x20000, 0x10000)];
    let mut st = state();
    n.tick_n311_bute_archer(&mut st, &level);
    assert_eq!(n.action_num, 10);
    n.tick_n311_bute_archer(&mut st, &level);
    assert_eq!((n.action_num, n.anim_num, n.action_counter2, n.action_counter), (11, 1, 0, 1));
    for _ in 0..10 {
        n.tick_n311_bute_archer(&mut st, &level);
    }
    assert_eq!(n.action_num, 20);
    for _ in 0..31 {
        n.tick_n311_bute_archer(&mut st, &level);
    }
    assert_eq!(n.action_num, 30);
    assert!(n.anim_num == 1 || n.anim_num == 2);
    n.tick_n311_bute_archer(&mut st, &level);
    assert_eq!((n.action_num, n.anim_num), (31, 3));
    assert_eq!(st.spawns.len(), 1);
    let (_, arrow) = st.spawns[0];
    assert_eq!((arrow.npc_type, arrow.vel_x, arrow.vel_y, arrow.direction), (312, -0x600, 0, Direction::Left));
    for _ in 0..30 {
        n.tick_n311_bute_archer(&mut st, &level);
    }
    assert_eq!(n.action_num, 40);
    assert!(n.action_counter <= 100);
    // a player far away keeps the rest count at zero
    let gone = [player(-0x40000, 0x10000), player(-0x40000, 0x10000)];
    n.tick_n311_bute_archer(&mut st, &gone);
    assert_eq!((n.action_num, n.action_counter, n.anim_num), (40, 0, 0));
    n.life = 992;
    n.tick_n311_bute_archer(&mut st, &gone);
    assert_eq!((n.npc_type, n.action_num), (316, 0));
}

#[test]
fn rolling_clears_its_tile_and_runs_along_the_walls() {
    let mut n = NPC::empty();
    n.x = 3 * 0x2000 + 0x100;
    n.y = 2 * 0x2000;
    n.direction = Direction::Left;
    let mut st = state();
    let mut stage = Stage { width: 10, height: 10, tiles: vec![1u8; 100] };
    n.tick_n330_rolling(&mut st, &mut stage, 16);
    assert_eq!(stage.tiles[2 * 10 + 3], 0);
    assert_eq!(stage.tiles.iter().filter(|t| **t == 0).count(), 1);
    assert_eq!(st.spawns.len(), 3);
    assert!(st.spawns.iter().all(|(min, p)| *min == 0 && p.npc_type == 4 && (p.x, p.y) == (3 * 0x2000, 2 * 0x2000)));
    assert_eq!(n.action_num, 10);
    for _ in 0..20 {
        n.tick_n330_rolling(&mut st, &mut stage, 16);
    }
    assert_eq!((n.vel_x, n.vel_y), (-0x400, 0));
    n.flags.0 = 0x01;
    n.tick_n330_rolling(&mut st, &mut stage, 16);
    assert_eq!(n.action_num, 20);
    n.flags.0 = 0;
    n.tick_n330_rolling(&mut st, &mut stage, 16);
    assert_eq!((n.vel_x, n.vel_y), (0, -0x40));
    // off the map to the left: nothing is cleared
    let mut m = NPC::empty();
    m.x = -0x4000;
    m.direction = Direction::Right;
    let mut st2 = state();
    m.tick_n330_rolling(&mut st2, &mut stage, 8);
    assert_eq!((m.action_num, st2.spawns.len()), (30, 0));
    assert_eq!(m.vel_x, 0);
}

#[test]
fn mesa_block_is_held_then_thrown_and_breaks() {
    let (mut list, _token) = NPCList::new();
    let mut mesa = NPC::empty();
    mesa.id = 5;
    mesa.npc_type = 317;
    mesa.x = 0x10000;
    mesa.y = 0x8000;
    mesa.direction = Direction::Left;
    mesa.anim_num = 2;
    list.set_npc(5, mesa);
    let mut block = NPC::empty();
    block.id = 6;
    block.parent_id = 5;
    let mut st = state();
    block.tick_n319_mesa_block(&mut st, &list);
    assert_eq!((block.x, block.y, block.action_num), (0x10000 + 0xe00, 0x8000 + 0x1400, 0));
    assert_eq!((block.anim_num, block.anim_rect), (1, 1));
    mesa.anim_num = 3;
    list.set_npc(5, mesa);
    block.tick_n319_mesa_block(&mut st, &list);
    assert_eq!((block.action_num, block.vel_x, block.vel_y, block.y), (2, -0x400, -0x400, 0x8000 - 0x800));
    block.npc_flags.0 = 0x08;
    for _ in 0..4 {
        block.tick_n319_mesa_block(&mut st, &list);
    }
    assert_eq!(block.npc_flags.0 & 0x08, 0);
    assert_eq!(block.vel_y, -0x400 + 4 * 0x2a);
    block.flags.0 = 0x08;
    block.tick_n319_mesa_block(&mut st, &list);
    assert!(!block.cond.alive());
    assert_eq!(st.sounds, vec![12]);
    assert_eq!(st.smoke.len(), 1);
    assert_eq!((st.smoke[0].x, st.smoke[0].y, st.smoke[0].amount), (block.x, block.y, 3));
    // a block whose Mesa died crumbles where it is held
    let mut dead = mesa;
    dead.npc_type = 318;
    dead.anim_num = 2;
    list.set_npc(5, dead);
    let mut held = NPC::empty();
    held.id = 7;
    held.parent_id = 5;
    held.cond.set_alive(true);
    let mut st2 = state();
    held.tick_n319_mesa_block(&mut st2, &list);
    assert!(!held.cond.alive());
    assert_eq!(st2.smoke.len(), 1);
}

#[test]
fn baby_drifts_and_bounces() {
    let mut n = NPC::empty();
    n.rng = Xoroshiro32PlusPlus::new(3);
    n.tick_n045_baby();
    assert_eq!(n.action_num, 2);
    assert!((0x100..=0x200).contains(&n.vel_x.abs()) && (0x100..=0x200).contains(&n.vel_y.abs()));
    assert_eq!((n.vel_x2, n.vel_y2), (n.vel_x, n.vel_y));
    assert_eq!((n.x, n.y), (n.vel_x, n.vel_y));
    assert_eq!((n.anim_num, n.anim_rect), (1, 1));
    n.tick_n045_baby();
    assert_eq!(n.anim_num, 2);
    n.tick_n045_baby();
    assert_eq!(n.anim_num, 1);
    let mut m = NPC::empty();
    m.action_num = 2;
    m.vel_x2 = -0x300;
    m.vel_y2 = 0x180;
    m.flags.0 = 0x01 | 0x08;
    m.shock = 3;
    m.tick_n045_baby();
    assert_eq!((m.vel_x2, m.vel_y2), (0x200, -0x180));
    assert_eq!((m.x, m.y), (0x100, -0xc0));
}

#[test]
fn collapsed_jenka_shows_her_facing() {
    let mut n = NPC::empty();
    n.tick_n143_jenka_collapsed();
    assert_eq!(n.anim_rect, 0);
    n.direction = Direction::Right;
    n.tick_n143_jenka_collapsed();
    assert_eq!(n.anim_rect, 1);
}

#[test]
fn eye_door_opens_for_a_near_player_and_closes_after() {
    let mut n = NPC::empty();
    let far = [player(0x10000, 0), player(0x10000, 0)];
    let near = [player(0x4000, 0), player(0x4000, 0)];
    n.tick_n059_eye_door(&far);
    assert_eq!(n.action_num, 1);
    n.tick_n059_eye_door(&near);
    assert_eq!(n.action_num, 2);
    for _ in 0..6 {
        n.tick_n059_eye_door(&near);
    }
    assert_eq!((n.action_num, n.anim_num, n.anim_rect), (3, 2, 2));
    n.tick_n059_eye_door(&near);
    assert_eq!(n.action_num, 3);
    n.tick_n059_eye_door(&far);
    assert_eq!(n.action_num, 4);
    for _ in 0..6 {
        n.tick_n059_eye_door(&far);
    }
    assert_eq!((n.action_num, n.anim_num), (1, 0));
    n.shock = 2;
    n.tick_n059_eye_door(&far);
    assert_eq!(n.anim_rect, 3);
}

#[test]
fn carried_puppy_rides_behind_player_one() {
    let mut n = NPC::empty();
    n.npc_flags = NPCFlag(0x2000);
    let mut p1 = player(0x8000, 0x4000);
    p1.direction = Direction::Right;
    let players = [p1, player(0, 0)];
    n.tick_n136_puppy_carried(&players);
    assert!(n.action_num == 1 || n.action_num == 2);
    assert_eq!(n.npc_flags.0 & 0x2000, 0);
    assert_eq!((n.direction, n.x, n.y), (Direction::Right, 0x8000 - 0x800, 0x4000 - 0x1400));
    assert_eq!(n.anim_rect, n.anim_num + 2);
    let mut m = NPC::empty();
    m.action_num = 2;
    m.action_counter = 8;
    m.anim_num = 1;
    m.tick_n136_puppy_carried(&[player(0, 0), player(0, 0)]);
    assert_eq!((m.action_num, m.anim_num, m.x), (1, 0, 0x800));
}

#[test]
fn barking_puppy_barks_at_a_near_player_and_on_cue() {
    let mut n = NPC::empty();
    let near = [player(0x4000, 0), player(0x4000, 0)];
    let mut st = state();
    for _ in 0..40 {
        n.tick_n132_puppy_barking(&mut st, &near);
        n.y = 0;
        n.vel_y = 0;
    }
    assert_eq!(n.direction, Direction::Right);
    assert!(st.sounds.iter().all(|s| *s == 105));
    assert!(!st.sounds.is_empty());
    let mut m = NPC::empty();
    m.action_num = 100;
    m.direction = Direction::Left;
    let mut st2 = state();
    m.tick_n132_puppy_barking(&mut st2, &near);
    assert_eq!((m.action_num, m.action_counter2), (101, 0));
    // fourteen frame changes, five ticks each
    for _ in 0..69 {
        m.tick_n132_puppy_barking(&mut st2, &near);
    }
    assert_eq!((m.anim_num, m.action_counter2), (4, 3));
    m.tick_n132_puppy_barking(&mut st2, &near);
    assert_eq!((m.anim_num, m.action_counter2), (0, 0));
    // on cue it keeps facing left and barks once per round of frames 2 to 4
    assert_eq!(m.direction, Direction::Left);
    assert_eq!(st2.sounds, vec![105; 4]);
    assert_eq!(m.anim_rect, 0);
}

#[test]
fn pignon_walks_turns_at_walls_and_is_knocked_up() {
    let mut n = NPC::empty();
    n.action_num = 3;
    n.action_counter = 50;
    n.direction = Direction::Right;
    n.tick_n069_pignon();
    assert_eq!((n.action_num, n.action_counter, n.vel_x, n.x), (4, 49, 0x100, 0x100));
    assert_eq!(n.anim_rect, n.anim_num + 6);
    n.flags.0 = 0x04;
    n.tick_n069_pignon();
    assert_eq!((n.direction, n.vel_x), (Direction::Left, -0x100));
    n.flags.0 = 0;
    n.shock = 1;
    n.tick_n069_pignon();
    assert_eq!((n.action_num, n.anim_num, n.vel_y), (5, 5, -0x200 + 0x40));
    n.shock = 0;
    n.flags.0 = 0x08;
    n.tick_n069_pignon();
    assert_eq!(n.action_num, 0);
    let mut idle = NPC::empty();
    idle.rng = Xoroshiro32PlusPlus::new(11);
    for _ in 0..300 {
        idle.tick_n069_pignon();
        assert!(idle.action_num <= 5);
        idle.y = 0;
        idle.vel_y = 0;
    }
}

#[test]
fn gravekeeper_walks_up_and_swings() {
    let mut n = NPC::empty();
    n.npc_flags = NPCFlag(0x20);
    n.damage = 4;
    n.x = 0x10000;
    let near = [player(0x8000, 0), player(0x8000, 0)];
    let mut st = state();
    n.tick_n080_gravekeeper(&mut st, &near);
    assert_eq!((n.action_num, n.damage, n.npc_flags.0 & 0x20, n.hit_bounds.left), (2, 0, 0, 0x800));
    assert_eq!(n.direction, Direction::Left);
    n.tick_n080_gravekeeper(&mut st, &near);
    assert_eq!((n.vel_x, n.x), (-0x100, 0x10000 - 0x100));
    let close = [player(n.x - 0x1000, 0), player(n.x - 0x1000, 0)];
    n.tick_n080_gravekeeper(&mut st, &close);
    assert_eq!((n.action_num, n.hit_bounds.left, n.npc_flags.0 & 0x20), (3, 0x2400, 0x20));
    assert_eq!(st.sounds, vec![34]);
    for _ in 0..41 {
        n.tick_n080_gravekeeper(&mut st, &close);
    }
    assert_eq!((n.action_num, n.vel_x), (4, 0));
    assert_eq!(st.sounds, vec![34, 106]);
    for _ in 0..3 {
        n.tick_n080_gravekeeper(&mut st, &close);
    }
    assert_eq!((n.action_num, n.damage), (5, 10));
    for _ in 0..61 {
        n.tick_n080_gravekeeper(&mut st, &close);
    }
    assert_eq!((n.action_num, n.anim_num), (0, 6));
}
