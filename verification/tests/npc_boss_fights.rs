use doukutsu_core::common::Direction;
use doukutsu_core::game_state::{BulletCounts, DeathSmoke, SharedGameState};
use doukutsu_core::rng::Xoroshiro32PlusPlus;
use doukutsu_core::npc::boss::BossNPC;
use doukutsu_core::npc::{Condition, Flag, NPCFlag, NPCTable, NPCTableEntry, Player, Rect, NPC};
use doukutsu_core::stage::Stage;

fn table() -> NPCTable {
    let mut entries = Vec::new();
    for t in 0..400u16 {
        entries.push(NPCTableEntry {
            npc_flags: NPCFlag(0x20),
            life: t,
            spritesheet_id: 1,
            size: 1,
            experience: 0,
            damage: 1,
            display_bounds: Rect { left: 0x1000, top: 0x1000, right: 0x1000, bottom: 0x1000 },
            hit_bounds: Rect { left: 0x800, top: 0x800, right: 0x800, bottom: 0x800 },
        });
    }
    NPCTable { entries }
}

fn state() -> SharedGameState {
    SharedGameState::new(table(), 0)
}

fn player(x: i32, y: i32) -> Player {
    let mut p = Player {
        x,
        y,
        vel_x: 0,
        vel_y: 0,
        cond: Condition(0),
        flags: Flag(0),
        direction: Direction::Right,
        shock_counter: 0,
        equip: 0,
    };
    p.cond.set_alive(true);
    p
}

#[test]
fn misery_starts_attacking_and_breaks_off_when_hurt() {
    let mut n = NPC::empty();
    n.action_num = 100;
    n.life = 500;
    n.target_y = 0x8000;
    let players = [player(0x1000, 0), player(0x1000, 0)];
    let mut st = state();
    n.tick_n247_misery_boss(&mut st, &players);
    assert_eq!(n.action_num, 101);
    assert_eq!(n.action_counter, 1);
    assert_eq!(n.action_counter2, 500);
    assert_eq!(n.npc_flags.0 & 0x20, 0x20);
    assert_eq!(n.direction, Direction::Right);
    assert_eq!(n.vel_y, 0x20);
    assert_eq!(n.y, 0x20);
    assert_eq!(n.anim_rect, 9);
    n.life = 420;
    n.tick_n247_misery_boss(&mut st, &players);
    assert_eq!(n.action_num, 110);
    assert_eq!(n.action_counter, 0);
}

#[test]
fn misery_defeat_shakes_and_leaves_smoke() {
    let mut n = NPC::empty();
    n.action_num = 1000;
    n.x = 0x4000;
    n.y = 0x2000;
    n.vel_x = 0x100;
    let players = [player(0, 0), player(0, 0)];
    let mut st = state();
    n.tick_n247_misery_boss(&mut st, &players);
    assert_eq!(n.action_num, 1001);
    assert_eq!(n.anim_num, 4);
    assert_eq!(st.type_kills, vec![(252, true)]);
    assert_eq!(st.spawns.len(), 3);
    for (min_id, npc) in st.spawns.iter() {
        assert_eq!(*min_id, 0x100);
        assert_eq!(npc.npc_type, 4);
        assert_eq!((npc.x, npc.y), (0x4000, 0x2000));
        assert!(npc.cond.alive());
    }
    assert_eq!((n.x, n.y), (0x4000, 0x2000));
    n.tick_n247_misery_boss(&mut st, &players);
    assert_eq!(n.x, 0x4200);
}

#[test]
fn misery_drops_a_bat_above_the_player() {
    let mut n = NPC::empty();
    n.action_num = 113;
    n.action_counter = 9;
    let players = [player(0x6000, 0x9000), player(0x6000, 0x9000)];
    let mut st = state();
    n.tick_n247_misery_boss(&mut st, &players);
    assert_eq!(st.spawns.len(), 1);
    let (_, bat) = st.spawns[0];
    assert_eq!(bat.npc_type, 279);
    assert_eq!((bat.x, bat.y), (0x6000, 0x1000));
    assert_eq!(bat.direction, Direction::Up);
}

#[test]
fn balrog_turns_to_the_player_and_jumps_away() {
    let mut n = NPC::empty();
    n.action_num = 10;
    n.direction = Direction::FacingPlayer;
    let players = [player(0x1000, 0), player(0x1000, 0)];
    let mut st = state();
    let mut stage = Stage { width: 20, height: 20, tiles: vec![1u8; 400] };
    n.tick_n012_balrog_cutscene(&mut st, &players, &mut stage);
    assert_eq!(n.direction, Direction::Right);
    assert_eq!(n.action_num, 11);
    assert_eq!(n.anim_num, 2);
    assert_eq!(n.anim_rect, 16);
    for _ in 0..30 {
        n.tick_n012_balrog_cutscene(&mut st, &players, &mut stage);
    }
    assert_eq!(n.action_num, 12);
    assert_eq!(n.anim_num, 3);
    assert_eq!(n.vel_y, -0x800);
    assert_eq!(n.y, -0x800);
    assert_eq!(n.npc_flags.0 & 0x08, 0x08);
    n.tick_n012_balrog_cutscene(&mut st, &players, &mut stage);
    assert_eq!(n.npc_type, 0);
    assert_eq!(n.spritesheet_id, 20);
    assert_eq!(st.sounds, vec![26]);
    assert_eq!(st.quake_counter, 30);
}

#[test]
fn balrog_vanishes_after_sixty_four_ticks() {
    let mut n = NPC::empty();
    n.action_num = 70;
    n.cond.set_alive(true);
    let players = [player(0, 0), player(0, 0)];
    let mut st = state();
    let mut stage = Stage { width: 20, height: 20, tiles: vec![1u8; 400] };
    n.tick_n012_balrog_cutscene(&mut st, &players, &mut stage);
    assert_eq!(n.action_counter, 63);
    assert_eq!(n.anim_num, 13);
    assert_eq!(st.sounds, vec![29]);
    for _ in 0..62 {
        n.tick_n012_balrog_cutscene(&mut st, &players, &mut stage);
    }
    assert!(n.cond.alive());
    n.tick_n012_balrog_cutscene(&mut st, &players, &mut stage);
    assert!(!n.cond.alive());
}

#[test]
fn balrog_breaks_through_the_ceiling() {
    let mut n = NPC::empty();
    n.action_num = 102;
    n.x = 5 * 0x2000;
    n.y = 3 * 0x2000;
    let players = [player(0, 0), player(0, 0)];
    let mut st = state();
    let mut stage = Stage { width: 20, height: 40, tiles: vec![1u8; 800] };
    n.tick_n012_balrog_cutscene(&mut st, &players, &mut stage);
    for x in 4..7 {
        assert_eq!(stage.tiles[3 * 20 + x], 0);
    }
    assert_eq!(stage.tiles[3 * 20 + 7], 1);
    assert_eq!(st.sounds, vec![44]);
    assert_eq!(st.super_quake_counter, 10);
    assert_eq!(st.spawns.len(), 9);
    assert!(st.spawns.iter().all(|(id, npc)| *id == 0 && npc.npc_type == 4 && npc.y == 3 * 0x2000));
    assert_eq!(st.spawns[3].1.x, 4 * 0x2000);
    assert_eq!(st.spawns[8].1.x, 6 * 0x2000);
    // Already broken: nothing more comes down.
    n.tick_n012_balrog_cutscene(&mut st, &players, &mut stage);
    assert_eq!(st.spawns.len(), 9);
}

#[test]
fn gclone_sets_up_and_fires_volleys() {
    let mut n = NPC::empty();
    n.life = 1000;
    n.x = 0x20000;
    n.y = 0x8000;
    let players = [player(0x4000, 0x8000), player(0x4000, 0x8000)];
    let mut st = state();
    n.tick_n368_gclone(&mut st, &players);
    assert_eq!(st.sounds, vec![29]);
    assert_eq!((n.x, n.y), (0x1f800, 0x9400));
    assert_eq!(n.action_num, 1);
    for _ in 0..49 {
        n.tick_n368_gclone(&mut st, &players);
    }
    assert_eq!(n.action_num, 100);
    n.tick_n368_gclone(&mut st, &players);
    assert_eq!(n.action_num, 101);
    assert_eq!(n.npc_flags.0 & 0x04, 0x04);
    for _ in 0..149 {
        n.tick_n368_gclone(&mut st, &players);
    }
    assert_eq!(n.action_num, 110);
    for _ in 0..101 {
        n.tick_n368_gclone(&mut st, &players);
    }
    assert_eq!(n.action_num, 101);
    assert_eq!(st.spawns.len(), 8);
    assert_eq!(st.aims.len(), 8);
    let (_, shot) = st.spawns[0];
    assert_eq!(shot.npc_type, 11);
    assert_eq!((shot.x, shot.y), (0x1f800 - 0x3400, 0x9400 - 0x2000));
    assert_eq!(st.aims[0].dx, 0x1f800 - 0x2000 - 0x4000);
    assert_eq!(st.aims[0].dy, 0x9400 - 0x3400 - 0x8000);
    assert_eq!(st.aims[0].speed, 1536);
    assert!((-16..=16).contains(&st.aims[0].jitter));
    assert!(st.sounds.iter().skip(1).all(|s| *s == 33));
}

#[test]
fn gclone_closes_its_shell_and_drops_a_clone() {
    let mut n = NPC::empty();
    n.life = 250;
    n.action_num = 101;
    n.npc_flags = NPCFlag(0x20);
    let players = [player(0, 0), player(0, 0)];
    let mut st = state();
    n.tick_n368_gclone(&mut st, &players);
    assert_eq!(n.action_counter2, 1);
    assert_eq!(n.npc_flags.0 & 0x20, 0);
    assert_eq!(st.sounds, vec![4]);
    let (min_id, clone) = st.spawns[0];
    assert_eq!(min_id, 0x100);
    assert_eq!(clone.npc_type, 369);
    assert_eq!(clone.y, 0x1000);
    assert_eq!(clone.direction, Direction::Right);
    assert!(clone.x >= 62 * 0x2000 && clone.x <= 78 * 0x2000 && clone.x % 0x2000 == 0);
}

#[test]
fn gclone_death_shakes_and_clears_clones() {
    let mut n = NPC::empty();
    n.action_num = 500;
    n.display_bounds.right = 0x3000;
    let players = [player(0, 0), player(0, 0)];
    let mut st = state();
    for _ in 0..101 {
        n.tick_n368_gclone(&mut st, &players);
    }
    assert_eq!(n.action_num, 510);
    assert_eq!(n.anim_num, 2);
    assert_eq!(st.quake_counter, 2);
    assert_eq!(st.sounds, vec![52; 5]);
    assert_eq!(st.type_kills.len(), 101);
    assert!(st.type_kills.iter().all(|k| *k == (369, true)));
    assert_eq!(st.smoke.len(), 101);
    assert!(st.smoke.iter().all(|s| s.radius == 0x3000 && s.amount == 8));
}

#[test]
fn curly_clone_lands_waits_and_runs() {
    let mut n = NPC::empty();
    n.life = 1000;
    n.flags = Flag(0x08);
    n.x = 0x10000;
    let mut players = [player(0x20000, 0), player(0x20000, 0)];
    let mut st = state();
    n.tick_n369_gclone_curly_clone(&mut st, &mut players);
    assert_eq!(n.event_num, 450);
    assert_eq!(n.action_num, 10);
    assert_eq!(n.action_counter, 1);
    assert_eq!(n.anim_num, 3);
    assert_eq!(st.sounds, vec![23]);
    assert_eq!(n.vel_y, 0x40);
    for _ in 0..32 {
        n.tick_n369_gclone_curly_clone(&mut st, &mut players);
    }
    assert_eq!(n.action_num, 11);
    assert_eq!(n.action_counter, 2);
    for _ in 0..30 {
        n.tick_n369_gclone_curly_clone(&mut st, &mut players);
    }
    assert_eq!(n.action_num, 20);
    assert_eq!(n.direction, Direction::Right);
    assert_eq!(n.vel_x, 64);
    assert!(n.action_counter >= 99 && n.action_counter <= 149);
}

#[test]
fn curly_clone_brakes_rounding_towards_zero() {
    let mut n = NPC::empty();
    n.life = 1000;
    n.action_num = 20;
    n.action_counter = 1;
    n.vel_x = 3;
    n.x = 0x10000;
    let mut players = [player(0, 0), player(0, 0)];
    let mut st = state();
    n.tick_n369_gclone_curly_clone(&mut st, &mut players);
    assert_eq!(n.direction, Direction::Left);
    assert_eq!(n.vel_x, -45);
    assert_eq!(n.action_num, 30);
    assert_eq!(n.anim_num, 3);
    assert_eq!(n.x, 0x10000 - 45);
}

#[test]
fn curly_clone_grabs_the_player() {
    let mut n = NPC::empty();
    n.life = 1000;
    n.id = 0x123;
    n.action_num = 31;
    n.action_counter = 2;
    n.x = 0x10000;
    n.y = 0x10000;
    n.vel_x = 0x300;
    let far = player(0x100000, 0x100000);
    let mut players = [far, player(0x10100, 0x10100)];
    let mut st = state();
    st.is_switch = true;
    n.tick_n369_gclone_curly_clone(&mut st, &mut players);
    assert_eq!(n.action_num, 40);
    assert_eq!(n.action_counter3, 1);
    assert_eq!(n.anim_num, 8);
    assert_eq!(n.vel_x, 0);
    assert_eq!(n.anim_rect, 8);
    assert_eq!(players[0], far);
    assert!(players[1].cond.hidden());
    assert_eq!(players[1].shock_counter, 180);
    assert_eq!(st.spawns.len(), 1);
    let (min_id, quote) = st.spawns[0];
    assert_eq!(min_id, 0xAA);
    assert_eq!(quote.npc_type, 150);
    assert_eq!(quote.parent_id, 0x123);
    assert_eq!(quote.action_num, 200);
    assert_eq!(quote.direction, Direction::Right);
    assert_eq!((quote.x, quote.y), (0x10000, 0x10000));

    let mut m = NPC::empty();
    m.life = 1000;
    m.action_num = 31;
    m.action_counter = 2;
    m.x = 0x10000;
    m.y = 0x10000;
    let mut players = [player(0x10100, 0x10100), player(0x10100, 0x10100)];
    let mut st = state();
    m.tick_n369_gclone_curly_clone(&mut st, &mut players);
    assert_eq!(m.action_num, 40);
    assert!(st.spawns.is_empty());
}

#[test]
fn curly_clone_throws_the_player_out() {
    let mut n = NPC::empty();
    n.life = 1000;
    n.action_num = 50;
    n.direction = Direction::Right;
    n.x = 0x10000;
    n.y = 0x8000;
    let mut hidden = player(0, 0);
    hidden.cond.set_hidden(true);
    hidden.shock_counter = 100;
    let mut players = [hidden, hidden];
    let mut st = state();
    n.tick_n369_gclone_curly_clone(&mut st, &mut players);
    let p = players[0];
    assert_eq!((p.x, p.y), (0x10000 - 0x800, 0x8000));
    assert_eq!((p.vel_x, p.vel_y), (-0x5ff, -0x400));
    assert_eq!(p.direction, Direction::Left);
    assert!(!p.cond.hidden());
    assert_eq!(p.shock_counter, 0);
    assert_eq!(n.direction, Direction::Left);
    assert_eq!(n.action_num, 51);
    assert_eq!(n.anim_num, 9);
    assert_eq!(st.sounds, vec![25]);
    assert_eq!(players[1], hidden);
}

#[test]
fn curly_clone_retreats_when_worn_down() {
    let mut n = NPC::empty();
    n.life = 900;
    n.action_num = 51;
    n.action_counter3 = 1;
    let mut players = [player(0, 0), player(0, 0)];
    let mut st = state();
    n.tick_n369_gclone_curly_clone(&mut st, &mut players);
    assert_eq!(n.npc_type, 363);
    assert_eq!(n.action_num, 0);
    assert_eq!(n.action_counter2, 77);
    assert_eq!(n.event_num, 451);
    assert_eq!(n.action_counter3, 0);
    assert_eq!(n.damage, 0);
}

fn no_bullets() -> BulletCounts {
    BulletCounts { by_type: vec![0; 40] }
}

#[test]
fn toroko_wakes_up_slowly() {
    let mut n = NPC::empty();
    n.life = 1000;
    n.npc_flags = NPCFlag(0x2000);
    let players = [player(0, 0), player(0, 0)];
    let mut st = state();
    n.tick_n140_toroko_frenzied(&mut st, &players, &no_bullets());
    assert_eq!(n.action_num, 1);
    assert_eq!(n.anim_num, 9);
    assert_eq!(n.npc_flags.0, 0);
    for _ in 0..50 {
        n.tick_n140_toroko_frenzied(&mut st, &players, &no_bullets());
    }
    assert_eq!(n.action_num, 2);
    assert_eq!(n.anim_num, 8);
    n.tick_n140_toroko_frenzied(&mut st, &players, &no_bullets());
    assert_eq!(n.anim_num, 9);
    n.tick_n140_toroko_frenzied(&mut st, &players, &no_bullets());
    assert_eq!(n.anim_num, 10);
    n.tick_n140_toroko_frenzied(&mut st, &players, &no_bullets());
    assert_eq!(n.anim_num, 9);
}

#[test]
fn toroko_jumps_away_from_missiles_and_volleys() {
    let players = [player(0x8000, 0), player(0x8000, 0)];
    let mut base = NPC::empty();
    base.action_num = 11;
    base.action_counter = 5;

    let mut n = base;
    let mut st = state();
    n.tick_n140_toroko_frenzied(&mut st, &players, &no_bullets());
    assert_eq!(n.action_num, 11);
    assert_eq!(n.action_counter, 4);
    assert_eq!(n.direction, Direction::Right);

    let mut missile = no_bullets();
    missile.by_type[6] = 1;
    let mut n = base;
    n.tick_n140_toroko_frenzied(&mut st, &players, &missile);
    assert_eq!(n.action_num, 20);

    let mut volley = no_bullets();
    volley.by_type[3] = 4;
    let mut n = base;
    n.tick_n140_toroko_frenzied(&mut st, &players, &volley);
    assert_eq!(n.action_num, 20);

    volley.by_type[3] = 3;
    let mut n = base;
    n.tick_n140_toroko_frenzied(&mut st, &players, &volley);
    assert_eq!(n.action_num, 11);

    let mut n = base;
    n.action_counter = 0;
    n.tick_n140_toroko_frenzied(&mut st, &players, &no_bullets());
    assert!(n.action_num == 20 || n.action_num == 50);
}

#[test]
fn toroko_throws_a_block() {
    let mut n = NPC::empty();
    n.id = 77;
    n.action_num = 22;
    n.action_counter = 10;
    let players = [player(0, 0), player(0, 0)];
    let mut st = state();
    n.tick_n140_toroko_frenzied(&mut st, &players, &no_bullets());
    assert_eq!(n.action_num, 23);
    assert_eq!(n.anim_num, 6);
    assert_eq!(st.spawns.len(), 1);
    let (min_id, block) = st.spawns[0];
    assert_eq!(min_id, 0);
    assert_eq!(block.npc_type, 141);
    assert_eq!(block.parent_id, 77);
    assert!(block.cond.alive());
}

#[test]
fn toroko_lands_and_slides_to_a_stop() {
    let mut n = NPC::empty();
    n.action_num = 25;
    n.flags = Flag(0x08);
    let players = [player(0, 0), player(0, 0)];
    let mut st = state();
    n.tick_n140_toroko_frenzied(&mut st, &players, &no_bullets());
    assert_eq!(n.action_num, 26);
    assert_eq!(st.sounds, vec![26]);
    assert_eq!(st.quake_counter, 20);
    n.vel_x = -100;
    n.x = 0;
    n.tick_n140_toroko_frenzied(&mut st, &players, &no_bullets());
    assert_eq!(n.vel_x, -88);
    assert_eq!(n.x, -88);
}

#[test]
fn toroko_defeat_and_vanishing() {
    let mut n = NPC::empty();
    n.action_num = 100;
    n.damage = 4;
    n.npc_flags = NPCFlag(0x20);
    n.x = 0x10000;
    n.y = 0x10000;
    let players = [player(0, 0), player(0, 0)];
    let mut st = state();
    n.tick_n140_toroko_frenzied(&mut st, &players, &no_bullets());
    assert_eq!(n.action_num, 101);
    assert_eq!(n.damage, 0);
    assert_eq!(n.npc_flags.0 & 0x20, 0);
    // Eight puffs, and one more as the lying-down counter is at zero.
    assert_eq!(st.spawns.len(), 9);
    for (min_id, puff) in st.spawns.iter() {
        assert_eq!(*min_id, 0x100);
        assert_eq!(puff.npc_type, 4);
        assert!((puff.x - 0x10000).abs() <= 12 * 0x200);
        assert!((-0x600..=0).contains(&puff.vel_y));
    }

    let mut m = NPC::empty();
    m.action_num = 140;
    m.cond.set_alive(true);
    let mut st = state();
    for _ in 0..100 {
        m.tick_n140_toroko_frenzied(&mut st, &players, &no_bullets());
    }
    assert!(m.cond.alive());
    m.tick_n140_toroko_frenzied(&mut st, &players, &no_bullets());
    assert!(!m.cond.alive());
    assert_eq!(st.sounds, vec![29]);
    assert_eq!(st.spawns.len(), 4);
}

#[test]
fn toroko_falls_at_most_three_pixels_a_tick() {
    let mut n = NPC::empty();
    n.action_num = 52;
    n.vel_y = 0x5f0;
    let players = [player(0, 0), player(0, 0)];
    let mut st = state();
    n.tick_n140_toroko_frenzied(&mut st, &players, &no_bullets());
    assert_eq!(n.vel_y, 0x5ff);
    assert_eq!(n.y, 0x5ff);
    assert_eq!(n.anim_rect, 0);
}

#[test]
fn ma_pignon_guards_against_missiles_and_blade() {
    let mut n = NPC::empty();
    n.action_num = 140;
    let players = [player(0, 0), player(0, 0)];
    let mut st = state();
    let mut blade = no_bullets();
    blade.by_type[25] = 1;
    n.tick_n313_ma_pignon(&mut st, &players, &blade);
    assert_eq!(n.npc_flags.0 & 0x24, 0x04);
    n.tick_n313_ma_pignon(&mut st, &players, &no_bullets());
    assert_eq!(n.npc_flags.0 & 0x24, 0x20);
    let mut polar_star = no_bullets();
    polar_star.by_type[3] = 5;
    n.tick_n313_ma_pignon(&mut st, &players, &polar_star);
    assert_eq!(n.npc_flags.0 & 0x24, 0x20);
}

#[test]
fn ma_pignon_hops() {
    let mut n = NPC::empty();
    n.action_num = 120;
    n.action_counter = 4;
    n.y = 0x10000;
    let players = [player(0, 0), player(0, 0)];
    let mut st = state();
    n.tick_n313_ma_pignon(&mut st, &players, &no_bullets());
    assert_eq!(n.action_num, 130);
    assert_eq!(n.anim_num, 3);
    assert_eq!(n.vel_y, -0x800);
    assert_eq!(n.y, 0x10000 - 0x800);
    assert_eq!(n.vel_x % 2, 0);
    assert!((-1024..=1024).contains(&n.vel_x));
    assert_eq!(n.action_counter2, 1);
    assert_eq!(st.sounds, vec![30]);
}

#[test]
fn ma_pignon_charges_and_rains_rocks() {
    let mut n = NPC::empty();
    n.action_num = 200;
    n.action_counter = 10;
    n.direction = Direction::Right;
    let players = [player(0x20000, 0), player(0x20000, 0)];
    let mut st = state();
    n.tick_n313_ma_pignon(&mut st, &players, &no_bullets());
    assert_eq!(n.action_num, 210);
    assert_eq!(n.vel_x, 0x5ff);
    assert_eq!(n.x, 0x5ff);
    assert_eq!(n.damage, 10);
    assert_eq!(n.npc_flags.0 & 0x24, 0x04);
    assert_eq!(st.sounds, vec![25]);

    let mut m = NPC::empty();
    m.action_num = 220;
    let mut st = state();
    st.tile_offset_x = 2;
    for _ in 0..31 {
        m.tick_n313_ma_pignon(&mut st, &players, &no_bullets());
    }
    assert_eq!(m.action_num, 130);
    assert_eq!(m.damage, 3);
    assert_eq!(st.sounds, vec![26]);
    assert_eq!(st.quake_counter, 16);
    assert_eq!(st.spawns.len(), 5);
    for (min_id, rock) in st.spawns.iter() {
        assert_eq!(*min_id, 0x100);
        assert_eq!(rock.npc_type, 314);
        assert_eq!(rock.y, 0x2000);
        assert!(rock.x >= 6 * 0x2000 && rock.x <= 18 * 0x2000 && rock.x % 0x2000 == 0);
    }
}

#[test]
fn ma_pignon_defeat_shakes_and_clears_clones() {
    let mut n = NPC::empty();
    n.action_num = 500;
    n.x = 0x6000;
    let players = [player(0, 0), player(0, 0)];
    let mut st = state();
    n.tick_n313_ma_pignon(&mut st, &players, &no_bullets());
    assert_eq!(n.action_num, 501);
    assert_eq!(n.anim_num, 8);
    assert_eq!(st.type_kills, vec![(315, true)]);
    assert_eq!(n.x, 0x6000);
    n.tick_n313_ma_pignon(&mut st, &players, &no_bullets());
    assert_eq!(n.x, 0x6200);
}

#[test]
fn possessed_misery_falls_when_the_core_dies() {
    let mut n = NPC::empty();
    n.action_num = 31;
    n.life = 1000;
    n.vel_x = 0x101;
    n.y = 0x8000;
    let players = [player(0, 0), player(0, 0)];
    let mut boss = BossNPC::new();
    boss.parts[0].cond.set_alive(false);
    let stage = Stage { width: 20, height: 15, tiles: vec![0u8; 300] };
    let mut st = state();
    n.tick_n283_misery_possessed(&mut st, &players, &mut boss, &stage);
    assert_eq!(n.action_num, 101);
    assert_eq!(n.anim_num, 9);
    assert_eq!(n.shock, 50);
    assert_eq!(n.hit_bounds.bottom, 0x1800);
    assert_eq!(n.vel_y, -0x1e0);
    assert_eq!(n.x, 0x80);
    assert_eq!(n.y, 0x8000 - 0x1e0);
    assert_eq!(boss.parts[0].anim_num, 1);
    assert_eq!(n.npc_flags.0 & 0x28, 0x08);

    n.y = 0x19900;
    n.tick_n283_misery_possessed(&mut st, &players, &mut boss, &stage);
    assert_eq!(n.action_num, 102);
    assert_eq!(n.y, 0x1b000 - 0x1800);
    assert_eq!((n.vel_x, n.vel_y), (0, 0));
    assert_eq!(n.anim_num, 10);
    assert_eq!(boss.parts[0].anim_num, 1);
}

#[test]
fn possessed_misery_casts_bats_inside_the_room() {
    let mut n = NPC::empty();
    n.action_num = 40;
    n.life = 1000;
    n.x = 0x3000;
    n.y = 0x10000;
    let players = [player(0x8000, 0x15000), player(0x8000, 0x15000)];
    let mut boss = BossNPC::new();
    let stage = Stage { width: 20, height: 15, tiles: vec![0u8; 300] };
    let mut st = state();
    n.tick_n283_misery_possessed(&mut st, &players, &mut boss, &stage);
    assert_eq!(n.action_num, 41);
    assert_eq!(n.action_counter3, 289);
    assert_eq!(n.direction, Direction::Right);
    assert_eq!(st.sounds, vec![103, 39]);
    assert_eq!(st.spawns.len(), 1);
    let (min_id, bat) = st.spawns[0];
    assert_eq!(min_id, 0x100);
    assert_eq!(bat.npc_type, 289);
    assert!(bat.x >= 0x4000 && bat.x <= 0x3000 + 64 * 0x200);
    assert!((bat.y - 0x10000).abs() <= 32 * 0x200);
    for _ in 0..6 {
        n.tick_n283_misery_possessed(&mut st, &players, &mut boss, &stage);
    }
    assert_eq!(st.spawns.len(), 2);
}

#[test]
fn possessed_misery_fires_a_ring_faster_against_the_booster() {
    let mut booster = player(0, 0x10000);
    booster.equip = 0x20;
    let stage = Stage { width: 20, height: 15, tiles: vec![0u8; 300] };
    let mut boss = BossNPC::new();

    let mut n = NPC::empty();
    n.action_num = 50;
    n.life = 1000;
    n.x = 0x10000;
    n.y = 0x10000;
    let players = [booster, booster];
    let mut st = state();
    for _ in 0..11 {
        n.tick_n283_misery_possessed(&mut st, &players, &mut boss, &stage);
    }
    assert_eq!(n.direction, Direction::Left);
    assert_eq!(st.spawns.len(), 2);
    assert_eq!(st.spawns[0].1.npc_type, 301);
    assert_eq!(st.spawns[0].1.x, 0x10000 + 0x1400);
    assert_eq!(st.spawns[0].1.tsc_direction, 0xd8);
    assert_eq!(st.spawns[1].1.tsc_direction, 0xec);
    assert_eq!(st.sounds, vec![103, 39, 39]);

    let mut m = NPC::empty();
    m.action_num = 50;
    m.life = 1000;
    m.x = 0x10000;
    let plain = [player(0, 0x10000), player(0, 0x10000)];
    let mut st = state();
    for _ in 0..11 {
        m.tick_n283_misery_possessed(&mut st, &plain, &mut boss, &stage);
    }
    assert_eq!(st.spawns.len(), 1);
}

#[test]
fn possessed_misery_settles_before_the_chase() {
    let mut n = NPC::empty();
    n.action_num = 20;
    n.life = 1000;
    n.vel_x = 0x100;
    n.vel_y = -0x101;
    let players = [player(0x1000, 0), player(0x1000, 0)];
    let mut boss = BossNPC::new();
    let stage = Stage { width: 20, height: 15, tiles: vec![0u8; 300] };
    let mut st = state();
    st.npc_super_pos = (5, 7);
    n.tick_n283_misery_possessed(&mut st, &players, &mut boss, &stage);
    assert_eq!(st.npc_super_pos, (0, 7));
    assert_eq!(n.vel_x, 0xe0);
    assert_eq!(n.vel_y, -0xe0);
    assert_eq!(n.direction, Direction::Right);
    assert_eq!(n.action_num, 21);
}

#[test]
fn muscle_doctor_forms_where_the_doctor_stood() {
    let mut n = NPC::empty();
    n.life = 1000;
    let mut players = [player(0x20000, 0), player(0x20000, 0)];
    let mut st = state();
    st.npc_super_pos = (0x10000, 0x8000);
    n.tick_n267_muscle_doctor(&mut st, &mut players);
    assert_eq!(n.direction, Direction::Right);
    assert_eq!(n.x, 0x10c00);
    assert_eq!(n.vel_y, 0x80);
    assert_eq!(n.y, 0x8080);
    assert_eq!(n.anim_num, 3);
    assert_eq!(n.anim_rect, 13);
    assert_eq!(n.display_bounds.top, 0x3800);
    assert_eq!(st.npc_super_pos, (0x10000, 0x8000));
    assert!(st.spawns.len() <= 1);
}

#[test]
fn muscle_doctor_slams_a_player_standing_near() {
    let mut n = NPC::empty();
    n.action_num = 11;
    n.life = 100;
    n.action_counter3 = 200;
    n.flags = Flag(0x08);
    n.x = 0x10000;
    n.y = 0x10000;
    let mut near = player(0x12000, 0x10000);
    near.flags = Flag(0x08);
    let mut players = [near, near];
    let mut st = state();
    n.tick_n267_muscle_doctor(&mut st, &mut players);
    assert_eq!(n.anim_num, 6);
    assert_eq!(st.quake_counter, 10);
    assert_eq!(st.sounds, vec![26]);
    assert_eq!(st.player_damage, vec![(0, 5)]);
    assert_eq!((players[0].vel_x, players[0].vel_y), (0x5ff, -0x400));
    assert_eq!(players[1], near);
    assert!(st.spawns.len() == 100 || st.spawns.len() == 101);
    for (min_id, spark) in st.spawns.iter().take(100) {
        assert_eq!(*min_id, 0xaa);
        assert_eq!(spark.npc_type, 270);
        assert_eq!(spark.direction, Direction::Bottom);
        assert!((spark.x - 0x10000).abs() <= 16 * 0x200);
        assert_eq!(spark.vel_x % 3, 0);
    }
    // Hurt by more than 20: straight on to the next attack, a jump.
    assert_eq!(n.action_counter2, 1);
    assert_eq!(n.action_num, 40);
    assert_eq!(st.npc_super_pos, (0x10000, n.y - n.vel_y));
}

#[test]
fn muscle_doctor_stands_without_slamming_when_unhurt() {
    let mut n = NPC::empty();
    n.action_num = 10;
    n.life = 100;
    n.flags = Flag(0x08);
    let mut near = player(0x1000, 0);
    near.flags = Flag(0x08);
    let mut players = [near, near];
    let mut st = state();
    n.tick_n267_muscle_doctor(&mut st, &mut players);
    assert_eq!(n.action_num, 11);
    assert_eq!(n.action_counter3, 100);
    assert_eq!(n.npc_flags.0 & 0x04, 0x04);
    assert!(st.player_damage.is_empty());
    assert_eq!(players[0], near);
}

#[test]
fn muscle_doctor_teleports_above_the_player() {
    let mut n = NPC::empty();
    n.action_num = 100;
    n.life = 500;
    n.npc_flags = NPCFlag(0x24);
    let mut players = [player(0x1000, 0x20000), player(0x1000, 0x20000)];
    let mut st = state();
    n.tick_n267_muscle_doctor(&mut st, &mut players);
    assert_eq!(n.action_num, 101);
    assert_eq!(n.action_counter, 2);
    assert_eq!(n.npc_flags.0 & 0x24, 0);
    assert_eq!(st.sounds, vec![29]);
    assert_eq!(n.display_bounds.top, 26 * 0x200);
    for _ in 0..14 {
        n.tick_n267_muscle_doctor(&mut st, &mut players);
    }
    assert_eq!(n.action_num, 102);
    assert_eq!((n.target_x, n.target_y), (0x8000, 0x1c000));
    assert_eq!(st.npc_super_pos, (0x8000, 0x1c000));
    for _ in 0..41 {
        n.tick_n267_muscle_doctor(&mut st, &mut players);
    }
    assert_eq!(n.action_num, 103);
    assert_eq!((n.x, n.y), (0x8000, 0x1c000));
    assert_eq!(n.action_counter, 28);
    assert_eq!(n.direction, Direction::Left);
}

#[test]
fn muscle_doctor_defeat_and_sinking() {
    let mut n = NPC::empty();
    n.action_num = 500;
    n.flags = Flag(0x08);
    n.x = 0x10000;
    let mut players = [player(0, 0), player(0, 0)];
    let mut st = state();
    n.tick_n267_muscle_doctor(&mut st, &mut players);
    assert_eq!(st.type_kills, vec![(269, true)]);
    assert_eq!(n.action_num, 501);
    assert_eq!(n.target_x, 0x10000);
    n.tick_n267_muscle_doctor(&mut st, &mut players);
    assert_eq!(n.x, 0x10200);
    n.tick_n267_muscle_doctor(&mut st, &mut players);
    assert_eq!(n.x, 0x10000);

    let mut m = NPC::empty();
    m.action_num = 510;
    m.x = 0x10000;
    m.y = 0x4000;
    let mut st = state();
    m.tick_n267_muscle_doctor(&mut st, &mut players);
    assert_eq!(m.action_num, 511);
    assert_eq!(m.y, 0x6000);
    assert_eq!(m.x, 0x10200);
    assert_eq!(st.quake_counter, 2);
    assert_eq!(st.spawns.len(), 4);
    assert_eq!(st.spawns[2].1.vel_x, 0);
    assert_eq!(st.spawns[3].1.vel_x, 0);
    assert_eq!(st.spawns[0].1.y, 0x6000 - (0x150 - 1) / 8 * 0x200);
    assert_eq!(m.display_bounds.top, 44 * 0x200);
    assert_eq!(m.display_bounds.bottom, 0x800);

    let mut e = NPC::empty();
    e.action_num = 520;
    e.damage = 3;
    let mut st = state();
    st.npc_super_pos = (5, 5);
    e.tick_n267_muscle_doctor(&mut st, &mut players);
    assert_eq!(e.damage, 0);
    assert_eq!(st.npc_super_pos, (5, -0x4000));
}

fn core_ready_to_fight() -> (BossNPC, SharedGameState) {
    let mut boss = BossNPC::new();
    let mut st = state();
    let mut players = [player(0x40000, 0x1c000), player(0x40000, 0x1c000)];
    let stage = Stage { width: 80, height: 20, tiles: vec![0u8; 1600] };
    boss.tick_b04_core(&mut st, &mut players, &stage);
    (boss, st)
}

#[test]
fn core_sets_up_its_parts() {
    let (boss, st) = core_ready_to_fight();
    let body = boss.parts[0];
    assert_eq!(body.action_num, 10);
    assert_eq!(body.life, 650);
    assert_eq!((body.x, body.y), (0x9a000, 0x1c000));
    assert_eq!(body.npc_flags.0, 0x8000 | 0x200 | 0x08 | 0x04);
    assert_eq!(body.event_num, 1000);
    assert_eq!(boss.hurt_sound[0], 114);
    assert_eq!(boss.hurt_sound[1], 54);
    let head = boss.parts[1];
    assert_eq!((head.x, head.y), (0x99000, 0x14000));
    assert_eq!(head.life, 1000);
    assert_eq!(head.anim_num, 2);
    assert_eq!(head.anim_rect, 9);
    assert_eq!(head.npc_flags.0 & 0x20, 0);
    assert_eq!((boss.parts[7].x, boss.parts[7].y), (0x94000, 0x20000));
    assert_eq!(boss.parts[2].prev_x, 0x9c000);
    let face = boss.parts[4];
    assert_eq!(face.action_num, 11);
    assert_eq!(face.x, 0x9a000 - 0x4800);
    assert_eq!(face.anim_rect, 2);
    let tail = boss.parts[5];
    assert_eq!(tail.x, 0x9a000 + 0x5800);
    assert_eq!(tail.anim_rect, 4);
    assert_eq!((boss.parts[8].x, boss.parts[8].y), (0x9a000, 0x1c000 - 0x4000));
    assert_eq!((boss.parts[11].x, boss.parts[11].y), (0x9a000 - 0x3800, 0x1c000 + 0x800));
    assert_eq!(boss.parts[11].cond.0 & 0x10, 0x10);
    assert_eq!(boss.parts[9].hit_bounds.right, 0x4800);
    assert!(st.sounds.is_empty());
}

#[test]
fn core_closes_then_opens_with_a_slam() {
    let (mut boss, _) = core_ready_to_fight();
    let stage = Stage { width: 80, height: 20, tiles: vec![0u8; 1600] };
    let mut players = [player(0x40000, 0x1c000), player(0x40000, 0x1c000)];
    let mut st = state();
    st.npc_super_pos = (3, 3);
    boss.parts[0].action_num = 200;
    boss.tick_b04_core(&mut st, &mut players, &stage);
    let body = boss.parts[0];
    assert_eq!(body.action_num, 201);
    assert_eq!((body.target_x, body.target_y), (0x40000, 0x1c000));
    assert_eq!(body.vel_x, -4);
    assert_eq!(body.x, 0x9a000 - 4);
    assert_eq!(st.sound_stops, vec![40, 41, 58]);
    assert_eq!(st.npc_super_pos, (3, 0));

    boss.parts[0].action_counter = 400;
    let mut st = state();
    boss.tick_b04_core(&mut st, &mut players, &stage);
    assert_eq!(boss.parts[0].action_num, 210);
    assert_eq!(boss.parts[0].action_counter2, 1);
    assert_eq!(st.sounds, vec![115, 26]);
    assert_eq!(st.quake_counter, 20);
    assert_eq!(st.spawns.len(), 8);
    assert!(st.spawns.iter().all(|(_, chip)| chip.npc_type == 4 && chip.y == boss.parts[4].y));
    for i in [1usize, 2, 3, 6, 7] {
        assert_eq!(boss.parts[i].action_num, 101);
    }
}

#[test]
fn core_shoots_wisps_and_guides_curly() {
    let (mut boss, _) = core_ready_to_fight();
    let stage = Stage { width: 80, height: 20, tiles: vec![0u8; 1600] };
    let mut players = [player(0x40000, 0x1c000), player(0x40000, 0x1c000)];
    let mut st = state();
    boss.parts[0].action_num = 210;
    boss.parts[0].life = 600;
    boss.tick_b04_core(&mut st, &mut players, &stage);
    let body = boss.parts[0];
    assert_eq!(body.action_num, 211);
    assert_eq!(body.action_counter3, 600);
    assert!((80..=100).contains(&st.npc_curly_counter));
    assert_eq!(st.spawns.len(), 1);
    assert_eq!(st.spawns[0].1.npc_type, 179);
    assert_eq!(boss.parts[11].npc_flags.0 & 0x20, 0x20);
    // Hurt by more than 200 since opening: the mouth slams shut.
    boss.parts[0].life = 399;
    boss.tick_b04_core(&mut st, &mut players, &stage);
    assert_eq!(boss.parts[0].action_num, 200);
    assert_eq!(boss.parts[4].anim_num, 2);
}

#[test]
fn core_current_pulls_both_players() {
    let (mut boss, _) = core_ready_to_fight();
    let stage = Stage { width: 80, height: 20, tiles: vec![0u8; 1600] };
    let mut players = [player(0x40000, 0x1c000), player(0x50000, 0x1c000)];
    let mut st = state();
    boss.parts[0].action_num = 220;
    boss.tick_b04_core(&mut st, &mut players, &stage);
    assert_eq!(boss.parts[0].action_num, 221);
    assert_eq!(st.sound_loops, vec![(40, 1000), (41, 1100)]);
    assert_eq!(st.quake_counter, 100);
    assert_eq!(st.npc_super_pos.1, 1);
    assert_eq!(players[0].vel_x, -0x20);
    assert_eq!(players[1].vel_x, -0x20);
    assert_eq!(players[0].cond.0 & 0x20, 0x20);
    assert_eq!(st.spawns[0].1.npc_type, 199);
}

#[test]
fn core_defeat_and_crumbling() {
    let (mut boss, _) = core_ready_to_fight();
    let stage = Stage { width: 80, height: 20, tiles: vec![0u8; 1600] };
    let mut players = [player(0x40000, 0x1c000), player(0x40000, 0x1c000)];
    let mut st = state();
    boss.parts[0].action_num = 500;
    boss.tick_b04_core(&mut st, &mut players, &stage);
    assert_eq!(boss.parts[0].action_num, 501);
    assert_eq!(st.sound_stops, vec![40, 41, 58]);
    assert_eq!(st.spawns.len(), 33);
    for i in 0..12 {
        assert_eq!(boss.parts[i].npc_flags.0 & 0x24, 0);
    }
    assert_eq!(boss.parts[1].action_num, 201);
    assert_eq!(boss.parts[1].vel_x, 32);

    boss.parts[0].action_num = 600;
    boss.parts[8].npc_flags.0 = 0x04;
    boss.tick_b04_core(&mut st, &mut players, &stage);
    assert_eq!(boss.parts[0].action_num, 601);
    assert_eq!(boss.parts[4].action_num, 51);
    assert_eq!(boss.parts[4].action_counter, 111);
    assert_eq!(boss.parts[8].npc_flags.0 & 0x04, 0);
}

#[test]
fn doctor_lands_and_throws_crystals() {
    let mut n = NPC::empty();
    n.action_num = 10;
    n.life = 500;
    n.flags = Flag(0x08);
    let players = [player(0x10000, 0), player(0x10000, 0)];
    let mut st = state();
    n.tick_n263_doctor_boss(&mut st, &players);
    assert_eq!(n.action_num, 20);
    assert_eq!(n.action_counter3, 500);
    assert_eq!(n.direction, Direction::Right);
    assert_eq!(n.damage, 3);
    assert_eq!(n.npc_flags.0 & 0x20, 0x20);
    assert_eq!(st.npc_super_pos, (0, 0));
    assert_eq!(n.anim_rect, 9);
    for _ in 0..80 {
        n.tick_n263_doctor_boss(&mut st, &players);
    }
    assert_eq!(n.anim_num, 5);
    assert_eq!(st.sounds, vec![25]);
    assert_eq!(st.spawns.len(), 2);
    assert_eq!(st.spawns[0].1.npc_type, 264);
    assert_eq!(st.spawns[0].1.x, 0x2000);
    assert_eq!(st.spawns[0].1.tsc_direction, 2);
    assert_eq!(st.spawns[1].1.tsc_direction, 0x402);
}

#[test]
fn doctor_fires_a_ring_of_sixteen_bubbles() {
    let mut n = NPC::empty();
    n.action_num = 30;
    n.x = 0x8000;
    let players = [player(0, 0), player(0, 0)];
    let mut st = state();
    for _ in 0..51 {
        n.tick_n263_doctor_boss(&mut st, &players);
    }
    assert_eq!(n.action_num, 32);
    assert_eq!(st.sounds, vec![101]);
    assert_eq!(st.spawns.len(), 16);
    assert_eq!(st.angle_aims.len(), 16);
    for (j, aim) in st.angle_aims.iter().enumerate() {
        assert_eq!(aim.spawn, j);
        assert_eq!(aim.angle as usize, 8 + 16 * j);
        assert_eq!(aim.speed, 1024);
        assert_eq!(st.spawns[j].1.npc_type, 266);
    }
}

#[test]
fn doctor_teleports_and_returns() {
    let mut n = NPC::empty();
    n.action_num = 100;
    n.npc_flags = NPCFlag(0x20);
    let players = [player(0, 0), player(0, 0)];
    let mut st = state();
    n.tick_n263_doctor_boss(&mut st, &players);
    assert_eq!(n.action_num, 101);
    assert_eq!(n.npc_flags.0 & 0x20, 0);
    assert_eq!(n.display_bounds.top, 14 * 0x200);
    assert_eq!(st.sounds, vec![29]);
    for _ in 0..8 {
        n.tick_n263_doctor_boss(&mut st, &players);
    }
    assert_eq!(n.action_num, 102);
    assert!(n.target_x >= 5 * 0x2000 && n.target_x <= 35 * 0x2000);
    assert!(n.target_y >= 5 * 0x2000 && n.target_y <= 7 * 0x2000);
    assert_eq!(st.npc_super_pos, (n.target_x, n.target_y));
    assert_eq!(n.display_bounds.top, 0x2000);

    let mut m = NPC::empty();
    m.action_num = 103;
    m.action_counter = 16;
    for _ in 0..8 {
        m.tick_n263_doctor_boss(&mut st, &players);
    }
    assert_eq!(m.action_num, 10);
    assert_eq!(m.action_counter2, 1);
    assert_eq!(m.damage, 3);
}

#[test]
fn balrog_waits_then_runs_at_the_player() {
    let mut n = NPC::empty();
    n.x = 0x10000;
    let mut players = [player(0x20000, 0), player(0x20000, 0)];
    let mut st = state();
    n.tick_n169_balrog_shooting_missiles(&mut st, &mut players);
    assert_eq!(n.action_num, 1);
    assert_eq!(n.action_counter, 29);
    assert_eq!(n.direction, Direction::Right);
    for _ in 0..29 {
        n.tick_n169_balrog_shooting_missiles(&mut st, &mut players);
    }
    assert_eq!(n.action_num, 2);
    assert_eq!(n.action_counter3, 1);
    n.tick_n169_balrog_shooting_missiles(&mut st, &mut players);
    assert_eq!(n.action_num, 3);
    assert_eq!(n.vel_x, 0x20);
    assert_eq!(n.action_counter, 1);
}

#[test]
fn balrog_grabs_then_throws_the_player() {
    let mut n = NPC::empty();
    n.action_num = 3;
    n.action_counter = 10;
    n.x = 0x10000;
    n.y = 0x10000;
    n.direction = Direction::Right;
    let mut players = [player(0x10100, 0x10100), player(0x80000, 0)];
    let mut st = state();
    n.tick_n169_balrog_shooting_missiles(&mut st, &mut players);
    assert_eq!(n.action_num, 10);
    assert_eq!(n.target_x, 0);
    assert!(players[0].cond.hidden());
    assert_eq!(st.player_damage, vec![(0, 5)]);
    for _ in 0..200 {
        if n.action_num == 21 {
            break;
        }
        n.tick_n169_balrog_shooting_missiles(&mut st, &mut players);
        if n.action_num == 10 || n.action_num == 11 {
            assert!(players[0].cond.hidden());
        }
    }
    assert_eq!(n.action_num, 21);
    assert!(!players[0].cond.hidden());
    assert_eq!(players[0].direction, Direction::Left);
    assert_eq!((players[0].vel_x, players[0].vel_y), (-0x5ff, -0x200));
    assert_eq!(n.direction, Direction::Left);
    assert_eq!(players[1], player(0x80000, 0));
    assert_eq!(st.sounds.last(), Some(&25));
}

#[test]
fn balrog_jumps_firing_missiles() {
    let mut n = NPC::empty();
    n.action_num = 4;
    n.x = 0x10000;
    let mut players = [player(0x40000, 0), player(0x40000, 0)];
    let mut st = state();
    for _ in 0..30 {
        n.tick_n169_balrog_shooting_missiles(&mut st, &mut players);
    }
    assert_eq!(st.spawns.len(), 5);
    assert!(st.spawns.iter().all(|(_, m)| m.npc_type == 170 && m.direction == Direction::Right));
    assert_eq!(st.sounds, vec![39; 5]);
    n.flags = Flag(0x08);
    n.tick_n169_balrog_shooting_missiles(&mut st, &mut players);
    assert_eq!(n.action_num, 9);
    assert_eq!(st.quake_counter, 30);
}

#[test]
fn misery_summons_a_bubble_and_waits() {
    let mut n = NPC::empty();
    n.id = 9;
    n.action_num = 15;
    n.x = 0x4000;
    n.y = 0x6000;
    let mut st = state();
    for _ in 0..30 {
        n.tick_n082_misery_standing(&mut st);
    }
    assert_eq!(st.sounds, vec![21]);
    let (min_id, bubble) = st.spawns[0];
    assert_eq!(min_id, 0);
    assert_eq!(bubble.npc_type, 66);
    assert_eq!((bubble.x, bubble.y), (0x4000, 0x4000));
    assert_eq!(bubble.parent_id, 9);
    for _ in 0..20 {
        n.tick_n082_misery_standing(&mut st);
    }
    assert_eq!(n.action_num, 14);
    n.action_counter = 2;
    n.tick_n082_misery_standing(&mut st);
    assert_eq!((n.action_counter, n.anim_num), (1, 3));
}

#[test]
fn misery_casts_with_a_flash_and_fires_a_volley() {
    let mut n = NPC::empty();
    n.action_num = 25;
    let mut st = state();
    for _ in 0..30 {
        n.tick_n082_misery_standing(&mut st);
    }
    assert_eq!(n.action_num, 27);
    assert_eq!(n.anim_num, 7);
    assert!(st.flash_blink);
    assert_eq!(st.sounds, vec![101]);

    let mut m = NPC::empty();
    m.action_num = 40;
    m.direction = Direction::Right;
    let mut st = state();
    for _ in 0..51 {
        m.tick_n082_misery_standing(&mut st);
    }
    assert_eq!(m.action_num, 0);
    assert_eq!(st.spawns.len(), 3);
    assert!(st.spawns.iter().all(|(_, s)| s.npc_type == 11 && s.vel_x == 0x600 && (-0x200..=0).contains(&s.vel_y)));
    assert_eq!(m.anim_rect, 4 + 9);
}

#[test]
fn misery_floats_away_and_vanishes() {
    let mut n = NPC::empty();
    n.action_num = 20;
    n.cond.set_alive(true);
    n.y = 0;
    let mut st = state();
    n.tick_n082_misery_standing(&mut st);
    assert_eq!(n.vel_y, -0x20);
    assert_eq!(n.y, -0x20);
    assert_eq!(n.npc_flags.0 & 0x08, 0x08);
    while n.cond.alive() {
        n.tick_n082_misery_standing(&mut st);
    }
    assert!(n.y < -0x1000);
}

#[test]
fn ironhead_sets_up_at_the_left() {
    let mut boss = BossNPC::new();
    let mut st = state();
    let players = [player(0x20000, 0x8000), player(0x20000, 0x8000)];
    boss.tick_b05_ironhead(&mut st, &players);
    let b = boss.parts[0];
    assert_eq!(b.action_num, 100);
    assert_eq!((b.x, b.y), (0x14000, 0x10000));
    assert_eq!(b.life, 400);
    assert_eq!(b.event_num, 1000);
    assert_eq!(b.damage, 10);
    assert_eq!(b.direction, Direction::Right);
    assert_eq!(b.npc_flags.0, 0x8000 | 0x200 | 0x20 | 0x08);
    assert_eq!(boss.hurt_sound[0], 54);
    assert_eq!(b.anim_rect, 0);
}

#[test]
fn ironhead_waits_sending_fish() {
    let mut boss = BossNPC::new();
    let mut st = state();
    let players = [player(0x20000, 0x8000), player(0x20000, 0x8000)];
    boss.tick_b05_ironhead(&mut st, &players);
    let mut ticks = 0;
    while boss.parts[0].action_num != 250 {
        boss.tick_b05_ironhead(&mut st, &players);
        ticks += 1;
        assert!(ticks <= 51);
    }
    assert_eq!(ticks, 51);
    assert_eq!(boss.parts[0].action_counter, 0);
    assert_eq!(boss.parts[0].npc_flags.0 & 0x20, 0);
    assert_eq!(st.spawns.len(), 13);
    for (min_id, fish) in st.spawns.iter() {
        assert_eq!(*min_id, 0x100);
        assert_eq!(fish.npc_type, 197);
        assert!(fish.x >= 15 * 16 * 0x200 && fish.x <= 18 * 16 * 0x200);
        assert_eq!(fish.x % (16 * 0x200), 0);
        assert!(fish.y >= 2 * 16 * 0x200 && fish.y <= 13 * 16 * 0x200);
    }
}

#[test]
fn ironhead_passes_right_level_with_the_player() {
    let mut boss = BossNPC::new();
    boss.parts[0].action_num = 250;
    boss.parts[0].direction = Direction::Right;
    let mut st = state();
    let players = [player(0x20000, 0x8000), player(0x20000, 0x8000)];
    boss.tick_b05_ironhead(&mut st, &players);
    let b = boss.parts[0];
    assert_eq!(b.action_num, 251);
    assert_eq!(b.target_x, 0x1e400);
    assert_eq!(b.target_y, 0x8000);
    assert_eq!(b.x, 0x1e000 + b.vel_x);
    assert_eq!(b.y, 0x8000 + b.vel_y);
    assert!(b.vel_x >= -0x200 + 8 && b.vel_x <= 0x200 + 8);
    assert!(b.vel_y >= -0x200 && b.vel_y <= 0x200);
    assert_eq!(b.npc_flags.0 & 0x20, 0x20);
    assert!(st.spawns.is_empty());
}

#[test]
fn ironhead_passes_left_firing_bubbles() {
    let mut boss = BossNPC::new();
    boss.parts[0].action_num = 250;
    boss.parts[0].direction = Direction::Left;
    boss.parts[0].action_counter = 299;
    let mut st = state();
    let players = [player(0x40000, 0x8000), player(0x40000, 0x8000)];
    boss.tick_b05_ironhead(&mut st, &players);
    let b = boss.parts[0];
    assert_eq!(b.action_num, 251);
    assert_eq!(b.action_counter, 300);
    assert_eq!(b.target_x, 0x5a000 - 0x200);
    assert_eq!(b.x, 0x5a000 + b.vel_x);
    assert_eq!(st.sounds, vec![39]);
    assert_eq!(st.spawns.len(), 1);
    let bubble = st.spawns[0].1;
    assert_eq!(bubble.npc_type, 198);
    assert_eq!((bubble.x, bubble.y), (b.x + 0x1400, b.y + 0x200));
    assert_eq!(bubble.direction, Direction::Right);
    assert!(bubble.vel_x >= -3 * 0x200 && bubble.vel_x <= 0);
}

#[test]
fn ironhead_turns_at_the_far_side() {
    let mut boss = BossNPC::new();
    let b = &mut boss.parts[0];
    b.action_num = 251;
    b.direction = Direction::Right;
    b.x = 0x5a000;
    b.target_x = 0x5a000;
    b.y = 0x8000;
    b.target_y = 0x8000;
    b.vel_x = 0x100;
    let mut st = state();
    let players = [player(0x40000, 0x8000), player(0x40000, 0x8000)];
    boss.tick_b05_ironhead(&mut st, &players);
    let b = boss.parts[0];
    assert_eq!(b.vel_x, 0x108);
    assert_eq!(b.x, 0x5a108);
    assert_eq!(b.direction, Direction::Left);
    assert_eq!(b.action_num, 100);
    assert_eq!(b.action_counter, 1);
}

#[test]
fn ironhead_defeat_clears_the_water() {
    let mut boss = BossNPC::new();
    boss.parts[0].action_num = 1000;
    boss.parts[0].x = 0x30000;
    boss.parts[0].y = 0x10000;
    let mut st = state();
    let players = [player(0x40000, 0x8000), player(0x40000, 0x8000)];
    boss.tick_b05_ironhead(&mut st, &players);
    let b = boss.parts[0];
    assert_eq!(b.action_num, 1001);
    assert_eq!(b.anim_num, 8);
    assert_eq!(b.anim_rect, 8);
    assert_eq!(b.damage, 0);
    assert_eq!(b.target_x, 0x30000 - 0x200);
    assert!((b.x - b.target_x).abs() <= 0x200);
    assert!((b.y - 0x10000).abs() <= 0x200);
    assert_eq!((st.quake_counter, st.quake_rumble_counter), (20, 20));
    assert_eq!(st.type_kills, vec![(197, true), (271, true), (272, true)]);
    assert_eq!(st.spawns.len(), 33);
    assert!(st.spawns.iter().all(|(_, n)| n.npc_type == 4));
}

#[test]
fn ironhead_flickers_while_hurt() {
    let mut boss = BossNPC::new();
    boss.parts[0].action_num = 1001;
    boss.parts[0].anim_num = 8;
    boss.parts[0].action_counter = 1;
    boss.parts[0].shock = 3;
    let mut st = state();
    let players = [player(0x40000, 0x8000), player(0x40000, 0x8000)];
    boss.tick_b05_ironhead(&mut st, &players);
    assert_eq!(boss.parts[19].action_counter, 1);
    assert_eq!(boss.parts[0].anim_rect, 17);
    boss.tick_b05_ironhead(&mut st, &players);
    assert_eq!(boss.parts[19].action_counter, 2);
    assert_eq!(boss.parts[0].anim_rect, 8);
    assert!(st.spawns.is_empty());
}

#[test]
fn balrog_running_waits_then_sets_off() {
    let mut n = NPC::empty();
    n.x = 0x10000;
    let mut players = [player(0x20000, 0), player(0x20000, 0)];
    let mut st = state();
    n.tick_n068_balrog_running(&mut st, &mut players);
    assert_eq!(n.action_num, 1);
    assert_eq!(n.action_counter, 29);
    assert_eq!(n.direction, Direction::Right);
    assert_eq!(n.vel_y, 0x20);
    assert_eq!(n.anim_rect, 9);
    let mut ticks = 1;
    while n.action_num == 1 {
        n.tick_n068_balrog_running(&mut st, &mut players);
        ticks += 1;
        assert!(ticks <= 31);
    }
    assert_eq!(ticks, 31);
    assert_eq!(n.action_num, 2);
    assert_eq!(n.action_counter2, 1);
}

#[test]
fn balrog_running_speeds_up_and_stamps() {
    let mut n = NPC::empty();
    n.action_num = 2;
    n.x = 0x10000;
    n.direction = Direction::Right;
    let mut players = [player(0x80000, 0), player(0x80000, 0)];
    let mut st = state();
    n.tick_n068_balrog_running(&mut st, &mut players);
    assert_eq!(n.action_num, 3);
    assert_eq!(n.action_counter, 1);
    assert_eq!(n.anim_num, 1);
    assert_eq!(n.vel_x, 0x10);
    assert_eq!(n.x, 0x10010);
    assert_eq!(n.anim_rect, 10);
    for _ in 0..3 {
        n.tick_n068_balrog_running(&mut st, &mut players);
    }
    assert_eq!(n.anim_num, 2);
    assert_eq!(st.sounds, vec![23]);
    assert_eq!(n.vel_x, 0x40);
}

#[test]
fn balrog_running_stops_at_a_wall_and_brakes() {
    let mut n = NPC::empty();
    n.action_num = 3;
    n.action_counter = 3;
    n.vel_x = 0x100;
    n.direction = Direction::Right;
    n.flags.0 = 0x04;
    let mut players = [player(0x80000, 0), player(0x80000, 0)];
    let mut st = state();
    n.tick_n068_balrog_running(&mut st, &mut players);
    assert_eq!(n.action_num, 9);
    assert_eq!(n.anim_num, 0);
    assert_eq!(n.vel_x, 0x110);
    n.tick_n068_balrog_running(&mut st, &mut players);
    assert_eq!(n.vel_x, 0xd9);
    assert_eq!(n.action_num, 9);
}

#[test]
fn balrog_running_jumps_on_every_third_run() {
    let mut n = NPC::empty();
    n.action_num = 3;
    n.action_counter = 25;
    n.action_counter2 = 3;
    n.direction = Direction::Left;
    let mut players = [player(0x80000, 0), player(0x80000, 0)];
    let mut st = state();
    n.tick_n068_balrog_running(&mut st, &mut players);
    assert_eq!(n.action_num, 4);
    assert_eq!(n.anim_num, 7);
    assert_eq!(n.vel_y, -0x400 + 0x20);
    n.flags.0 = 0x08;
    n.tick_n068_balrog_running(&mut st, &mut players);
    assert_eq!(n.action_num, 9);
    assert_eq!(n.anim_num, 8);
    assert_eq!((st.quake_counter, st.quake_rumble_counter), (30, 30));
    assert_eq!(st.sounds, vec![26]);
}

#[test]
fn balrog_running_grabs_then_throws_the_player() {
    let mut n = NPC::empty();
    n.action_num = 3;
    n.action_counter = 8;
    n.x = 0x10000;
    n.y = 0x10000;
    n.direction = Direction::Left;
    let mut players = [player(0x80000, 0), player(0x10100, 0x10100)];
    let mut st = state();
    n.tick_n068_balrog_running(&mut st, &mut players);
    assert_eq!(n.action_num, 10);
    assert_eq!(n.anim_num, 5);
    assert_eq!(n.vel_y2, 1);
    assert!(players[1].cond.hidden());
    assert_eq!(st.player_damage, vec![(1, 2)]);
    for _ in 0..300 {
        if n.action_num == 21 {
            break;
        }
        n.tick_n068_balrog_running(&mut st, &mut players);
    }
    assert_eq!(n.action_num, 21);
    assert_eq!(n.action_counter, 1);
    assert_eq!(n.direction, Direction::Right);
    assert!(!players[1].cond.hidden());
    assert_eq!(players[1].direction, Direction::Right);
    assert_eq!((players[1].vel_x, players[1].vel_y), (0x5ff, -0x200));
    assert_eq!(players[0], player(0x80000, 0));
    assert_eq!(st.sounds.last(), Some(&25));
}

#[test]
fn balrog_hover_pauses_then_fires_three_shots() {
    let mut n = NPC::empty();
    let players = [player(0x20000, 0), player(0x20000, 0)];
    let mut st = state();
    n.tick_n036_balrog_hover(&mut st, &players);
    assert_eq!((n.action_num, n.action_counter), (1, 1));
    assert_eq!(n.vel_y, 0x33);
    assert_eq!(n.direction, Direction::Right);
    assert_eq!(n.anim_rect, 6);
    for _ in 0..12 {
        n.tick_n036_balrog_hover(&mut st, &players);
    }
    assert_eq!((n.action_num, n.anim_num, n.vel_x2), (2, 1, 3));

    let mut n = NPC::empty();
    n.action_num = 2;
    n.action_counter = 16;
    n.vel_x2 = 3;
    n.y = 0x1000;
    let mut st = state();
    n.tick_n036_balrog_hover(&mut st, &players);
    assert_eq!((n.vel_x2, n.action_counter, n.action_num), (2, 0, 2));
    let shot = st.spawns[0].1;
    assert_eq!(shot.npc_type, 11);
    assert_eq!((shot.x, shot.y), (0, 0x1800));
    let aim = st.aims[0];
    assert_eq!((aim.dx, aim.dy, aim.speed), (-0x20000, 0x1800, 512));
    assert!(aim.jitter >= -16 && aim.jitter <= 16);
    assert_eq!(st.sounds, vec![39]);
    n.vel_x2 = 1;
    n.action_counter = 16;
    n.tick_n036_balrog_hover(&mut st, &players);
    assert_eq!((n.action_num, n.action_counter), (3, 0));
    assert_eq!(st.spawns.len(), 2);
}

#[test]
fn balrog_hover_leaps_at_the_player_and_hovers() {
    let mut n = NPC::empty();
    n.action_num = 3;
    n.action_counter = 3;
    n.life = 100;
    let players = [player(-0x20000, 0), player(-0x20000, 0)];
    let mut st = state();
    n.tick_n036_balrog_hover(&mut st, &players);
    assert_eq!((n.action_num, n.anim_num), (4, 3));
    assert_eq!(n.vel_x, -1310);
    assert_eq!(n.vel_y, -0x600 + 0x33);
    assert_eq!(n.direction, Direction::Left);
    n.vel_y = -0x100;
    n.tick_n036_balrog_hover(&mut st, &players);
    assert_eq!(n.action_num, 5);
    let target = n.target_y;
    assert_eq!(n.vel_y, -0x100);
    assert_eq!(n.y, target - 0x100);
    n.tick_n036_balrog_hover(&mut st, &players);
    assert_eq!(n.action_num, 5);
    assert_eq!(n.target_y, target);
    assert_eq!(n.vel_y, -0x100 + 0x40);
}

#[test]
fn balrog_hover_falls_and_lands_with_rubble() {
    let mut n = NPC::empty();
    n.action_num = 4;
    n.life = 40;
    n.vel_y = -0x100;
    let players = [player(0x20000, 0x8000), player(0x20000, 0x8000)];
    let mut st = state();
    n.tick_n036_balrog_hover(&mut st, &players);
    assert_eq!(n.action_num, 6);
    n.tick_n036_balrog_hover(&mut st, &players);
    assert_eq!(n.damage, 10);
    n.flags.0 = 0x08;
    n.tick_n036_balrog_hover(&mut st, &players);
    assert_eq!((n.action_num, n.anim_num, n.damage), (7, 2, 0));
    assert_eq!(st.sounds, vec![25, 26]);
    assert_eq!((st.quake_counter, st.quake_rumble_counter), (30, 30));
    assert_eq!(st.spawns.len(), 16);
    for (k, (_, s)) in st.spawns.iter().enumerate() {
        assert_eq!(s.npc_type, if k % 2 == 0 { 4 } else { 33 });
        assert_eq!(s.direction, Direction::Left);
    }
    for _ in 0..4 {
        n.tick_n036_balrog_hover(&mut st, &players);
    }
    assert_eq!((n.action_num, n.action_counter), (1, 0));
}

#[test]
fn misery_floating_appears_trembling() {
    let mut n = NPC::empty();
    n.x = 0x1000;
    n.y = 0x2000;
    let mut st = state();
    n.tick_n067_misery_floating(&mut st);
    assert_eq!(st.sounds, vec![29]);
    assert_eq!((n.action_num, n.target_x, n.target_y), (1, 0x1000, 0x2000));
    assert!((n.x - 0x1000).abs() <= 0x200);
    assert_eq!(n.anim_counter, 1);
    let mut ticks = 1;
    while n.action_num == 1 {
        n.tick_n067_misery_floating(&mut st);
        ticks += 1;
        assert!(ticks <= 32);
    }
    assert_eq!(ticks, 32);
    assert_eq!(n.action_num, 10);
    assert_eq!(n.anim_counter, 31);
}

#[test]
fn misery_floating_bobs_and_falls() {
    let mut n = NPC::empty();
    n.action_num = 10;
    n.y = 0x2000;
    n.target_y = 0x2000;
    let mut st = state();
    n.tick_n067_misery_floating(&mut st);
    assert_eq!(n.action_num, 11);
    assert_eq!(n.vel_y, 0x100);
    assert_eq!(n.y, 0x2100);
    assert!(n.anim_num == 0 || n.anim_num == 1);
    n.tick_n067_misery_floating(&mut st);
    assert_eq!(n.vel_y, 0xf0);

    let mut n = NPC::empty();
    n.action_num = 13;
    n.tick_n067_misery_floating(&mut st);
    assert_eq!((n.anim_num, n.vel_y), (1, 0x40));
    n.flags.0 = 0x08;
    n.tick_n067_misery_floating(&mut st);
    assert_eq!((n.action_num, n.vel_y), (14, 0));
    assert_eq!(n.npc_flags.0 & 0x08, 0x08);
    assert_eq!(st.sounds, vec![23]);
    assert!(n.anim_num == 2 || n.anim_num == 3);
}

#[test]
fn misery_floating_summons_and_casts() {
    let mut n = NPC::empty();
    n.action_num = 15;
    n.id = 7;
    n.x = 0x4000;
    n.y = 0x6000;
    let mut st = state();
    for _ in 0..30 {
        n.tick_n067_misery_floating(&mut st);
    }
    assert_eq!(st.sounds, vec![21]);
    let (min_id, bubble) = st.spawns[0];
    assert_eq!(min_id, 0);
    assert_eq!(bubble.npc_type, 66);
    assert_eq!((bubble.x, bubble.y, bubble.parent_id), (0x4000, 0x4000, 7));
    for _ in 0..20 {
        n.tick_n067_misery_floating(&mut st);
    }
    assert_eq!(n.action_num, 14);

    let mut n = NPC::empty();
    n.action_num = 25;
    let mut st = state();
    for _ in 0..30 {
        n.tick_n067_misery_floating(&mut st);
    }
    assert_eq!(n.action_num, 27);
    assert!(st.flash_blink);
    assert_eq!(st.sounds, vec![101]);
    for _ in 0..20 {
        n.tick_n067_misery_floating(&mut st);
    }
    assert_eq!(n.action_num, 14);

    let mut n = NPC::empty();
    n.cond.set_alive(true);
    n.action_num = 20;
    n.y = -0x1001;
    n.tick_n067_misery_floating(&mut st);
    assert_eq!(n.action_num, 21);
    assert_eq!(n.vel_y, -0x20);
    assert!(!n.cond.alive());
}

#[test]
fn roaming_curly_clone_sleeps_far_from_players() {
    let mut n = NPC::empty();
    n.life = 1000;
    n.vel_y = 0x100;
    let before = n;
    let players = [player(0x30000, 0), player(0x30000, 0)];
    let mut st = state();
    n.tick_n362_curly_clone(&mut st, &players);
    assert_eq!(n, before);
    let near = [player(0x10000, 0), player(0x10000, 0)];
    n.tick_n362_curly_clone(&mut st, &near);
    assert_eq!((n.action_num, n.vel_x, n.vel_y), (1, 0, 0x140));
}

#[test]
fn roaming_curly_clone_aims_then_fires_three_shots() {
    let mut n = NPC::empty();
    n.life = 1000;
    n.action_num = 5;
    n.x = 0x10000;
    n.y = 0x8000;
    n.direction = Direction::Left;
    let players = [player(0x20000, 0x8000), player(0x20000, 0x8000)];
    let mut st = state();
    n.tick_n362_curly_clone(&mut st, &players);
    assert_eq!(n.direction, Direction::Right);
    assert_eq!((n.anim_num, n.action_counter), (0, 1));
    n.tick_n362_curly_clone(&mut st, &players);
    assert_eq!(n.anim_num, 5);
    for _ in 0..28 {
        n.tick_n362_curly_clone(&mut st, &players);
    }
    assert_eq!((n.action_num, n.action_counter), (6, 0));
    n.vel_y = 0;
    n.y = 0x8000;
    let x = n.x;
    n.tick_n362_curly_clone(&mut st, &players);
    assert_eq!(st.spawns.len(), 1);
    let shot = st.spawns[0].1;
    assert_eq!(shot.npc_type, 364);
    assert_eq!((shot.x, shot.y), (x + 0x1000, 0x8000 + 0x800));
    assert_eq!(shot.direction, Direction::Right);
    assert_eq!(n.x, x - 0x200);
    for _ in 0..8 {
        n.tick_n362_curly_clone(&mut st, &players);
    }
    assert_eq!(st.spawns.len(), 3);
    assert_eq!(n.action_num, 1);
}

#[test]
fn roaming_curly_clone_walks_and_jumps_at_walls() {
    let mut n = NPC::empty();
    n.life = 1000;
    n.action_num = 10;
    n.direction = Direction::Left;
    n.flags.0 = 0x01;
    let mut players = [player(0x10000, 0), player(0x10000, 0)];
    players[0].cond.set_hidden(true);
    players[1].cond.set_hidden(true);
    let mut st = state();
    n.tick_n362_curly_clone(&mut st, &players);
    assert_eq!(n.action_num, 20);
    assert_eq!(n.vel_y, -0x5ff + 0x40);
    assert_eq!(n.vel_x, -0x200);
    assert_eq!(st.sounds, vec![30, 30]);
    n.flags.0 = 0x08;
    n.tick_n362_curly_clone(&mut st, &players);
    assert_eq!((n.action_num, n.vel_x), (21, 0));
    assert_eq!(st.sounds, vec![30, 30, 23]);
    n.life = 970;
    n.tick_n362_curly_clone(&mut st, &players);
    assert_eq!((n.npc_type, n.action_num), (363, 0));
}

#[test]
fn misery_afterimage_flies_off_and_fades() {
    let mut n = NPC::empty();
    n.cond.set_alive(true);
    n.direction = Direction::Right;
    for _ in 0..8 {
        n.tick_n249_misery_boss_appearing();
    }
    assert!(n.cond.alive());
    assert_eq!((n.x, n.anim_rect), (8 * 0x400, 1));
    n.tick_n249_misery_boss_appearing();
    assert!(!n.cond.alive());
}

#[test]
fn lightning_ball_chases_then_strikes() {
    let mut n = NPC::empty();
    n.cond.set_alive(true);
    n.y = 0x4000;
    let players = [player(0x8000, 0x10000), player(0x8000, 0x10000)];
    let mut st = state();
    n.tick_n250_misery_boss_lightning_ball(&mut st, &players);
    assert_eq!((n.action_num, n.target_y), (1, 0x4000));
    assert_eq!((n.vel_x, n.vel_y), (0x10, -0x200));
    assert_eq!((n.x, n.y), (0x10, 0x4000 - 0x200));
    let under = [player(0x10, 0x10000), player(0x10, 0x10000)];
    n.tick_n250_misery_boss_lightning_ball(&mut st, &under);
    assert_eq!(n.action_num, 10);
    for _ in 0..10 {
        n.tick_n250_misery_boss_lightning_ball(&mut st, &under);
    }
    assert!(n.cond.alive());
    assert!(n.anim_rect == 1 || n.anim_rect == 2);
    n.tick_n250_misery_boss_lightning_ball(&mut st, &under);
    assert!(!n.cond.alive());
    assert_eq!(st.sounds, vec![101]);
    let bolt = st.spawns[0].1;
    assert_eq!(bolt.npc_type, 251);
    assert_eq!((bolt.x, bolt.y), (n.x, n.y));
}

#[test]
fn dead_curly_clone_falls_and_explodes_or_calls_more() {
    let mut n = NPC::empty();
    n.direction = Direction::Right;
    n.npc_flags.0 = 0x28;
    n.damage = 3;
    let mut st = state();
    n.tick_n363_dead_curly_clone(&mut st);
    assert_eq!((n.action_num, n.anim_num, n.damage), (1, 2, 0));
    assert_eq!(n.npc_flags.0 & 0x28, 0);
    assert_eq!((n.vel_x, n.vel_y), (-0x100, -0x200 + 0x20));
    assert_eq!(st.sounds, vec![53]);
    n.flags.0 = 0x08;
    n.tick_n363_dead_curly_clone(&mut st);
    assert_eq!((n.action_num, n.anim_num), (2, 3));
    n.vel_x = 0x90;
    n.tick_n363_dead_curly_clone(&mut st);
    assert_eq!(n.vel_x, 0x80);
    for _ in 0..49 {
        n.tick_n363_dead_curly_clone(&mut st);
    }
    assert_eq!(n.cond.0 & 0x08, 0x08);
    assert!(st.spawns.is_empty());

    let mut m = NPC::empty();
    m.action_num = 2;
    m.action_counter2 = 77;
    m.action_counter = 249;
    m.rng = Xoroshiro32PlusPlus::new(9);
    m.tick_n363_dead_curly_clone(&mut st);
    assert_eq!(m.action_num, 3);
    assert_eq!(st.spawns.len(), 2);
    for (_, c) in st.spawns.iter() {
        assert_eq!(c.npc_type, 369);
        assert_eq!(c.y, 0x1000);
        assert!(c.x >= 62 * 0x2000 && c.x <= 78 * 0x2000);
    }
}

#[test]
fn still_curly_clone_aims_and_fires_pairs() {
    let mut n = NPC::empty();
    n.life = 1000;
    n.action_num = 6;
    n.x = 0x10000;
    n.y = 0x8000;
    let players = [player(0x20000, 0x8000), player(0x20000, 0x8000)];
    let mut st = state();
    n.tick_n365_still_curly_clone(&mut st, &players);
    assert_eq!(st.spawns.len(), 1);
    assert_eq!(st.spawns[0].1.npc_type, 148);
    let aim = st.aims[0];
    assert_eq!((aim.dx, aim.dy, aim.speed), (-0x10000, 0, 1536));
    for _ in 0..6 {
        n.tick_n365_still_curly_clone(&mut st, &players);
    }
    assert_eq!(st.spawns.len(), 2);
    assert_eq!((n.action_num, n.action_counter), (1, 0));
    assert_eq!((n.x, n.y), (0x10000, 0x8000));
    n.life = 960;
    n.tick_n365_still_curly_clone(&mut st, &players);
    assert_eq!((n.npc_type, n.action_num), (363, 0));
    assert_eq!(n.direction, Direction::Right);
}

#[test]
fn zombie_curly_clone_wakes_and_shuffles() {
    let mut n = NPC::empty();
    n.life = 1000;
    let near = [player(0x8000, 0), player(0x8000, 0)];
    n.tick_n366_zombie_curly_clone(&near);
    assert_eq!((n.action_num, n.action_counter, n.anim_num), (1, 1, 1));
    assert_eq!(n.direction, Direction::Right);
    assert_eq!(n.anim_rect, 4);
    n.action_counter = 69;
    n.tick_n366_zombie_curly_clone(&near);
    assert_eq!(n.action_num, 10);
    n.tick_n366_zombie_curly_clone(&near);
    assert_eq!((n.action_num, n.vel_x, n.anim_num), (11, 0x40, 2));
    n.flags.0 = 0x04;
    n.tick_n366_zombie_curly_clone(&near);
    assert_eq!(n.direction, Direction::Left);
    assert_eq!(n.vel_x, 0x40);
}

#[test]
fn curly_clone_incubator_breaks_open() {
    let mut n = NPC::empty();
    n.cond.set_alive(true);
    n.direction = Direction::Right;
    n.x = 0x10000;
    let mut st = state();
    let behind = [player(0xc000, 0), player(0xc000, 0)];
    n.tick_n367_curly_clone_incubator(&mut st, &behind);
    assert!(n.cond.alive());
    let ahead = [player(0x14000, 0), player(0x14000, 0)];
    n.tick_n367_curly_clone_incubator(&mut st, &ahead);
    assert!(!n.cond.alive());
    assert_eq!(st.spawns[0].1.npc_type, 366);
    assert_eq!(st.sounds, vec![72]);
    assert_eq!(st.smoke, vec![DeathSmoke { x: 0x10000, y: 0, radius: 0, amount: 1 }]);
}

#[test]
fn core_hit_boxes_follow_the_body() {
    let (mut boss, _) = core_ready_to_fight();
    let stage = Stage { width: 80, height: 20, tiles: vec![0u8; 1600] };
    let mut players = [player(0x20000, 0x10000), player(0x20000, 0x10000)];
    boss.parts[0].action_num = 200;
    boss.parts[0].vel_x = 0x300;
    boss.parts[0].vel_y = -0x300;
    for _ in 0..20 {
        let mut st = state();
        boss.tick_b04_core(&mut st, &mut players, &stage);
        let b = boss.parts[0];
        assert!(b.vel_x.abs() <= 0x80 && b.vel_y.abs() <= 0x80);
        assert_eq!((boss.parts[8].x, boss.parts[8].y), (b.x, b.y - 0x4000));
        assert_eq!((boss.parts[9].x, boss.parts[9].y), (b.x + 0x3800, b.y));
        assert_eq!((boss.parts[10].x, boss.parts[10].y), (b.x + 0x800, b.y + 0x4000));
        assert_eq!((boss.parts[11].x, boss.parts[11].y), (b.x - 0x3800, b.y + 0x800));
    }
}

#[test]
fn frenzied_toroko_moves_by_her_final_speed() {
    let players = [player(0x8000, 0), player(0x8000, 0)];
    let mut n = NPC::empty();
    n.action_num = 11;
    n.action_counter = 5;
    n.x = 0x4000;
    n.y = 0x1000;
    n.vel_x = 0x100;
    n.vel_y = 0x5f0;
    let mut st = state();
    for _ in 0..10 {
        let (x0, y0) = (n.x, n.y);
        n.tick_n140_toroko_frenzied(&mut st, &players, &no_bullets());
        assert!(n.vel_y.abs() <= 0x5ff);
        assert_eq!((n.x, n.y), (x0 + n.vel_x, y0 + n.vel_y));
    }
}

#[test]
fn doctor_from_behind_laughs_and_raises_the_crystal() {
    let mut n = NPC::empty();
    n.x = 0x10000;
    n.y = 0x8000;
    let mut st = state();
    st.npc_super_pos = (5, 6);
    n.tick_n256_doctor_facing_away(&mut st);
    assert_eq!((n.action_num, n.y, n.anim_num), (1, 0x7000, 0));
    assert_eq!(st.npc_super_pos, (0, 6));
    n.action_num = 10;
    let mut ticks = 0;
    while n.action_num != 1 {
        n.tick_n256_doctor_facing_away(&mut st);
        ticks += 1;
    }
    // six laughs of two frames, six ticks a frame
    assert_eq!(ticks, 6 * 2 * 6);
    n.action_num = 40;
    n.tick_n256_doctor_facing_away(&mut st);
    assert_eq!((n.action_num, n.anim_rect), (41, 4));
    assert_eq!(st.spawns.len(), 2);
    assert_eq!((st.spawns[0].0, st.spawns[1].0), (0x100, 0xaa));
    assert_eq!((st.spawns[0].1.npc_type, st.spawns[0].1.x, st.spawns[0].1.y), (257, 0x10000 - 0x1c00, 0x7000 - 0x2000));
    assert_eq!((st.spawns[0].1.direction, st.spawns[1].1.direction), (Direction::Left, Direction::Right));
    n.action_num = 50;
    n.tick_n256_doctor_facing_away(&mut st);
    assert_eq!((n.action_num, n.anim_num), (51, 4));
}

#[test]
fn red_crystal_drifts_to_the_shared_position() {
    let mut n = NPC::empty();
    let mut st = state();
    n.tick_n257_red_crystal(&st);
    assert_eq!(n.action_num, 1);
    st.npc_super_pos = (0x4000, -0x4000);
    n.tick_n257_red_crystal(&st);
    assert_eq!(n.action_num, 10);
    n.tick_n257_red_crystal(&st);
    assert_eq!((n.vel_x, n.vel_y, n.x, n.y), (0x55, -0x55, 0x55, -0x55));
    // facing left while moving right: frame 2
    assert_eq!(n.anim_rect, 2);
    n.vel_x = 0x3f0;
    n.tick_n257_red_crystal(&st);
    assert_eq!(n.vel_x, 0x400);
}

#[test]
fn toroko_teleports_in_falls_and_lands() {
    let mut n = NPC::empty();
    n.x = 0x4000;
    let mut st = state();
    n.tick_n144_toroko_teleporting_in(&mut st);
    assert_eq!(st.sounds, vec![29]);
    assert_eq!((n.action_num, n.action_counter, n.target_x), (1, 1, 0x4000));
    // counter 1: flicker half a pixel aside
    assert_eq!(n.x, 0x4000 + 512);
    n.tick_n144_toroko_teleporting_in(&mut st);
    assert_eq!(n.x, 0x4000);
    assert_eq!(n.vel_y, 0);
    for _ in 0..62 {
        n.tick_n144_toroko_teleporting_in(&mut st);
    }
    assert_eq!((n.action_num, n.action_counter), (2, 0));
    assert_eq!(n.vel_y, 0x20);
    n.flags.0 = 0x08;
    n.tick_n144_toroko_teleporting_in(&mut st);
    assert_eq!((n.action_num, n.anim_num, n.anim_rect), (4, 4, 4));
    assert_eq!(st.sounds, vec![29, 23]);
}

#[test]
fn balrog_bursts_in_lands_and_stands() {
    let mut n = NPC::empty();
    n.x = 0x10000;
    n.y = 0x8000;
    n.rng = Xoroshiro32PlusPlus::new(5);
    let mut st = state();
    n.tick_n019_balrog_bust_in(&mut st);
    assert_eq!(st.spawns.len(), 16);
    assert!(st.spawns.iter().all(|(min, p)| *min == 0x100 && p.npc_type == 4 && p.direction == Direction::Left));
    assert_eq!(st.sounds, vec![12, 26]);
    assert_eq!((st.quake_counter, n.action_num, n.anim_num), (30, 1, 3));
    assert_eq!((n.vel_y, n.y), (-0xf0, 0x8000 + 0x1400 - 0xf0));
    n.vel_y = 0x20;
    n.flags.0 = 0x08;
    n.tick_n019_balrog_bust_in(&mut st);
    assert_eq!((n.action_num, n.anim_num), (2, 2));
    assert_eq!(st.sounds, vec![12, 26, 26]);
    for _ in 0..17 {
        n.tick_n019_balrog_bust_in(&mut st);
    }
    assert_eq!((n.action_num, n.anim_num), (3, 0));
}
