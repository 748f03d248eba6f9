use doukutsu_core::bytes::ByteReader;
use doukutsu_core::common::{Direction, TimingMode};
use doukutsu_core::profile::{AppliedWeapon, ChallengeTime, GameProfile, GameRecord, Item, PlayerRecord, SaveError, TargetPlayer, TeleporterSlotData, WeaponData};
use doukutsu_core::save_container::SaveFormat;
use doukutsu_core::common::Version;

fn sample_profile() -> GameProfile {
    let mut p = GameProfile::new();
    p.current_map = 12;
    p.current_song = 7;
    p.pos_x = 0x1234;
    p.pos_y = -0x200;
    p.direction = Direction::Right;
    p.max_life = 15;
    p.life = 9;
    p.stars = 2;
    p.current_weapon = 1;
    p.equipment = 0x41;
    p.counter = 9000;
    p.weapon_data[0] = WeaponData { weapon_id: 2, level: 2, exp: 10, max_ammo: 0, ammo: 0 };
    p.weapon_data[1] = WeaponData { weapon_id: 5, level: 1, exp: 0, max_ammo: 100, ammo: 57 };
    p.items[0] = Item(3, 1);
    p.items[1] = Item(35, 1);
    p.map_flags[3] = 1;
    p.flags[0] = 0xff;
    p.flags[999] = 0x80;
    p.timestamp = 1234567;
    p.difficulty = 2;
    p
}

#[test]
fn freeware_record_reads_back() {
    let p = sample_profile();
    let mut data = Vec::new();
    p.write_save(&mut data, &SaveFormat::Freeware);
    assert_eq!(data.len(), 0x611);
    let mut r = ByteReader::new(&data);
    let q = GameProfile::load_from_save(&mut r, SaveFormat::Freeware).unwrap();
    assert_eq!(r.pos, data.len());
    assert_eq!(q.current_map, 12);
    assert_eq!(q.current_song, 7);
    assert_eq!(q.pos_x, 0x1234);
    assert_eq!(q.pos_y, -0x200);
    assert_eq!(q.direction, Direction::Right);
    assert_eq!(q.max_life, 15);
    assert_eq!(q.life, 9);
    assert_eq!(q.stars, 2);
    assert_eq!(q.equipment, 0x41);
    assert_eq!(q.counter, 9000);
    assert_eq!(q.weapon_data[1], WeaponData { weapon_id: 5, level: 1, exp: 0, max_ammo: 100, ammo: 57 });
    // Freeware records keep item ids only; amounts read back as 1.
    assert_eq!(q.items[1], Item(35, 1));
    assert_eq!(q.flags[0], 0xff);
    assert_eq!(q.flags[999], 0x80);
    // Map flags are not kept.
    assert_eq!(q.map_flags[3], 0);
}

#[test]
fn plus_record_has_its_size() {
    let p = sample_profile();
    let mut data = Vec::new();
    p.write_save(&mut data, &SaveFormat::Plus);
    assert_eq!(data.len(), 0x620);
    let mut data = Vec::new();
    p.write_save(&mut data, &SaveFormat::Switch(Version { major: 1, minor: 3, patch: 0 }));
    assert_eq!(data.len(), 0x680);
    let q = GameProfile::load_from_save(&mut ByteReader::new(&data), SaveFormat::Switch(Version { major: 1, minor: 3, patch: 0 })).unwrap();
    assert_eq!(q.timestamp, 1234567);
    assert_eq!(q.difficulty, 2);
}

#[test]
fn empty_profile_in_plus_layout_is_zeros() {
    let p = GameProfile::new();
    assert!(p.is_empty());
    let mut data = Vec::new();
    p.write_save(&mut data, &SaveFormat::Plus);
    assert_eq!(data, vec![0u8; 0x620]);
    let q = GameProfile::load_from_save(&mut ByteReader::new(&data), SaveFormat::Plus).unwrap();
    assert!(q.is_empty());
}

#[test]
fn load_errors() {
    let data = vec![1u8; 0x604];
    assert_eq!(GameProfile::load_from_save(&mut ByteReader::new(&data), SaveFormat::Freeware).err(), Some(SaveError::InvalidMagic));
    let p = sample_profile();
    let mut data = Vec::new();
    p.write_save(&mut data, &SaveFormat::Freeware);
    let cut = &data[..0x100];
    assert_eq!(GameProfile::load_from_save(&mut ByteReader::new(cut), SaveFormat::Freeware).err(), Some(SaveError::UnexpectedEof));
    let mut bad = data.clone();
    bad[0x218] ^= 0xff;
    assert_eq!(GameProfile::load_from_save(&mut ByteReader::new(&bad), SaveFormat::Freeware).err(), Some(SaveError::InvalidFlagSignature));
}

#[test]
fn challenge_time_conversions() {
    let t = ChallengeTime { timing_mode: TimingMode::_50Hz, ticks: 505 };
    assert_eq!(t.convert_timing(TimingMode::_60Hz), 600);
    assert_eq!(t.convert_timing(TimingMode::_50Hz), 505);
    assert_eq!(t.convert_timing(TimingMode::FrameSynchronized), 505);
    let u = t.with_timing(TimingMode::_60Hz);
    assert_eq!(u.timing_mode, TimingMode::_60Hz);
    assert_eq!(u.ticks, 600);
    let fast = ChallengeTime { timing_mode: TimingMode::_60Hz, ticks: 599 };
    assert!(t.is_greater(&fast));
    assert!(!fast.is_greater(&u));
    assert!(!t.equals(&u));
    assert!(!u.equals(&t));
    assert!(t.equals(&t));
    assert!(t.equals(&ChallengeTime { timing_mode: TimingMode::_50Hz, ticks: 9 }));
    assert!(t.equals(&ChallengeTime { timing_mode: TimingMode::FrameSynchronized, ticks: 9 }));
    let n = ChallengeTime::new();
    assert_eq!(n.ticks, 0);
    assert_eq!(n.timing_mode, TimingMode::FrameSynchronized);
}

#[test]
fn challenge_time_reads_back() {
    let t = ChallengeTime { timing_mode: TimingMode::_50Hz, ticks: 123456 };
    let mut data = Vec::new();
    t.write_time(&mut data, [3, 9, 27, 81], SaveFormat::Freeware);
    assert_eq!(data.len(), 22);
    assert_eq!(&data[16..20], &[3, 9, 27, 81]);
    let mut back = ChallengeTime::new();
    assert!(back.load_time(&mut ByteReader::new(&data), SaveFormat::Freeware));
    assert_eq!(back.ticks, 123456);
    assert_eq!(back.timing_mode, TimingMode::_50Hz);

    let mut data = Vec::new();
    t.write_time(&mut data, [3, 9, 27, 81], SaveFormat::Plus);
    assert_eq!(data, vec![0x40, 0xE2, 0x01, 0x00]);
    let mut back = ChallengeTime::new();
    assert!(back.load_time(&mut ByteReader::new(&data), SaveFormat::Plus));
    assert_eq!(back.ticks, 123456);
    assert_eq!(back.timing_mode, TimingMode::_60Hz);
    assert!(!back.load_time(&mut ByteReader::new(&data[..3]), SaveFormat::Plus));
}

#[test]
fn tampered_copies_read_as_zero() {
    let t = ChallengeTime { timing_mode: TimingMode::_60Hz, ticks: 1000 };
    let mut data = Vec::new();
    t.write_time(&mut data, [1, 2, 3, 4], SaveFormat::Freeware);
    data[4] = data[4].wrapping_add(1);
    let mut back = ChallengeTime::new();
    assert!(back.load_time(&mut ByteReader::new(&data), SaveFormat::Freeware));
    assert_eq!(back.ticks, 0);
}

fn record_of(x: i32, stars: u16, life: u16, max_life: u16, weapons: Vec<WeaponData>, items: Vec<Item>) -> PlayerRecord {
    PlayerRecord {
        x,
        y: -x,
        direction: Direction::Right,
        max_life,
        life,
        stars,
        equip: 0x21,
        control_mode: 1,
        current_weapon: 2,
        current_item: 3,
        weapons,
        items,
    }
}

fn game_record(two_players: bool) -> GameRecord {
    let w = WeaponData { weapon_id: 5, level: 2, exp: 7, max_ammo: 100, ammo: 40 };
    let mut p2 = record_of(0x800, 4, 6, 20, vec![w, w], vec![Item(9, 1)]);
    p2.direction = Direction::Left;
    p2.current_weapon = 0;
    let mut flags = vec![0u8; 1000];
    flags[3] = 0x81;
    GameRecord {
        stage_id: 13,
        current_song: 8,
        player1: record_of(0x400, 1, 3, 10, vec![w], vec![Item(2, 1), Item(7, 3)]),
        player2: p2,
        two_players,
        teleporter_slots: vec![(1, 1001), (4, 1004)],
        map_flags: (0..200).map(|i| i % 3 == 0).collect(),
        game_flags: flags,
        difficulty: 2,
    }
}

#[test]
fn dump_takes_the_target_players_view() {
    let g = game_record(false);
    let p = GameProfile::dump(&g, None, 77);
    assert_eq!((p.current_map, p.current_song, p.timestamp, p.difficulty), (13, 8, 77, 2));
    assert_eq!((p.pos_x, p.pos_y, p.direction), (0x400, -0x400, Direction::Right));
    assert_eq!((p.max_life, p.max_life_p2, p.life, p.life_p2), (10, 10, 3, 6));
    assert_eq!((p.stars, p.equipment, p.control_mode, p.current_weapon, p.current_item), (1, 0x21, 1, 2, 3));
    assert_eq!(p.weapon_data[0].weapon_id, 5);
    assert_eq!(p.weapon_data[1], WeaponData::new());
    assert!(p.weapon_data_p2.is_none());
    assert_eq!((p.items[0], p.items[1], p.items[2]), (Item(2, 1), Item(7, 3), Item(0, 0)));
    assert_eq!((p.teleporter_slots[1].index, p.teleporter_slots[1].event_num), (4, 1004));
    assert_eq!(p.teleporter_slots[2].index, 0);
    assert_eq!((p.map_flags[0], p.map_flags[1], p.map_flags[126], p.map_flags[127]), (1, 0, 1, 0));
    assert_eq!(p.flags[3], 0x81);
    assert_eq!((p.counter, p.eggfish_killed), (0, false));

    let g2 = game_record(true);
    let q = GameProfile::dump(&g2, Some(TargetPlayer::Player2), 5);
    assert_eq!((q.pos_x, q.direction, q.stars, q.current_weapon), (0x800, Direction::Left, 4, 0));
    // both maximum lives and the first weapon set stay player 1's
    assert_eq!((q.max_life, q.max_life_p2, q.life), (10, 10, 3));
    assert_eq!(q.weapon_data[1], WeaponData::new());
    assert_eq!(q.weapon_data_p2.unwrap()[1].weapon_id, 5);
    assert_eq!((q.items[0], q.items[1]), (Item(9, 1), Item(0, 0)));
}

#[test]
fn huge_times_keep_their_count_where_no_conversion_grows_them() {
    let t = ChallengeTime { timing_mode: TimingMode::_50Hz, ticks: usize::MAX };
    assert_eq!(t.convert_timing(TimingMode::_50Hz), usize::MAX);
    assert_eq!(t.convert_timing(TimingMode::FrameSynchronized), usize::MAX);
    assert_eq!(t.with_timing(TimingMode::FrameSynchronized).ticks, usize::MAX);
    let other = ChallengeTime { timing_mode: TimingMode::_50Hz, ticks: 3 };
    assert!(t.is_greater(&other));
    assert!(t.equals(&other));
}

#[test]
fn applying_a_profile_sets_players_inventory_and_flags() {
    let mut p = GameProfile::new();
    p.current_song = 9;
    p.difficulty = 1;
    p.pos_x = 0x1000;
    p.pos_y = 0x2000;
    p.direction = Direction::Right;
    p.life = 5;
    p.max_life = 10;
    p.max_life_p2 = 7;
    p.life_p2 = 0;
    p.stars = 9;
    p.equipment = 0x10041;
    p.control_mode = 1;
    p.current_weapon = 0x10002;
    p.weapon_data[0] = WeaponData { weapon_id: 2, level: 2, exp: 70000, max_ammo: 0, ammo: 0 };
    p.weapon_data[2] = WeaponData { weapon_id: 5, level: 7, exp: 3, max_ammo: 100, ammo: 50 };
    p.weapon_data_p2 = Some([WeaponData::new(); 8]);
    p.items[0] = Item(4, 1);
    p.items[1] = Item(9, 2);
    p.items[3] = Item(11, 1);
    p.teleporter_slots[0] = TeleporterSlotData { index: 1, event_num: 1001 };
    p.teleporter_slots[2] = TeleporterSlotData { index: 3, event_num: 1003 };
    p.map_flags[5] = 2;
    p.flags[0] = 0b1000_0001;
    p.flags[999] = 0b0100_0000;
    let a = p.apply();
    assert_eq!((a.song, a.difficulty), (9, 1));
    assert_eq!((a.player1.x, a.player1.y, a.player1.direction), (0x1000, 0x2000, Direction::Right));
    assert_eq!((a.player1.stars, a.player1.equip, a.player1.iron_head), (3, 0x41, true));
    // player 2 keeps player 1's life: the profile's second life is 0
    assert_eq!((a.player2.life, a.player2.max_life), (5, 10));
    assert_eq!(a.current_weapon, 2);
    assert_eq!(
        a.weapons_p1,
        vec![
            AppliedWeapon { weapon_id: 2, ammo: 0, max_ammo: 0, exp: 70000u32 as u16, level: 2 },
            AppliedWeapon { weapon_id: 5, ammo: 50, max_ammo: 100, exp: 3, level: 1 },
        ]
    );
    assert_eq!(a.weapons_p2, Some(vec![]));
    assert_eq!(a.required_weapons, vec![2, 5]);
    assert_eq!(a.items, vec![Item(4, 1), Item(9, 2)]);
    assert_eq!(a.required_items, vec![4, 9, 0]);
    assert_eq!(a.teleporter_slots, vec![(1, 1001)]);
    assert_eq!(a.map_flags.len(), 128);
    assert!(a.map_flags[5] && !a.map_flags[4]);
    assert_eq!(a.flags_set.len(), 8000);
    assert!(a.flags_set[0] && a.flags_set[7] && !a.flags_set[1]);
    assert!(a.flags_set[999 * 8 + 6] && !a.flags_set[999 * 8 + 7]);
    let mut q = p;
    q.life_p2 = 4;
    assert_eq!((q.apply().player2.life, q.apply().player2.max_life), (4, 7));
}
