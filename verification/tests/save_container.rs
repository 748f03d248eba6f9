use doukutsu_core::common::{TimingMode, Version};
use doukutsu_core::profile::{ChallengeTime, GameProfile};
use doukutsu_core::save_container::{
    ChallengeUnlocks, ModRequirements, PatchSlot, SaveContainer, SaveContainerError, SaveFormat, SaveParams,
    SavePatch, SaveSlot,
};

fn slot_of(s: &str) -> Option<(u8, usize, bool)> {
    match SaveSlot::parse(s) {
        Ok(SaveSlot::MainGame(n)) => Some((0, n, true)),
        Ok(SaveSlot::CSPMod(set, n)) => Some((set, n, false)),
        _ => None,
    }
}

#[test]
fn parse_slot_names() {
    assert_eq!(slot_of("Profile.dat"), Some((0, 1, true)));
    assert_eq!(slot_of("Profile3.dat"), Some((0, 3, true)));
    assert_eq!(slot_of("Mod12_Profile2.dat"), Some((12, 2, false)));
    assert_eq!(slot_of("Mod3_Profile.dat"), None);
    assert_eq!(slot_of("save.json"), None);
    assert!(matches!(SaveSlot::parse("x"), Err(SaveContainerError::UnparsableSlot)));
    let parsed: Result<SaveSlot, SaveContainerError> = "Profile2.dat".parse();
    assert!(matches!(parsed, Ok(SaveSlot::MainGame(2))));
}

#[test]
fn save_filenames() {
    assert_eq!(SaveContainer::get_save_filename(SaveFormat::Generic, None), "/save.json");
    assert_eq!(SaveContainer::get_save_filename(SaveFormat::Plus, None), "/Profile.dat");
    assert_eq!(
        SaveContainer::get_save_filename(SaveFormat::Switch(Version { major: 1, minor: 2, patch: 0 }), None),
        "/profile.dat"
    );
    assert_eq!(SaveContainer::get_save_filename(SaveFormat::Freeware, Some(SaveSlot::MainGame(1))), "/Profile.dat");
    assert_eq!(SaveContainer::get_save_filename(SaveFormat::Freeware, Some(SaveSlot::MainGame(4))), "/Profile4.dat");
    assert_eq!(
        SaveContainer::get_save_filename(SaveFormat::Freeware, Some(SaveSlot::CSPMod(3, 2))),
        "/Mod3_Profile2.dat"
    );
    assert_eq!(SaveContainer::get_save_filename(SaveFormat::Freeware, None), "/Profile.dat");
}

#[test]
fn rec_filenames() {
    assert_eq!(SaveContainer::get_rec_filename(None, 0, true), "/290.rec");
    assert_eq!(SaveContainer::get_rec_filename(Some("ignored"), 0, false), "290.rec");
    assert_eq!(SaveContainer::get_rec_filename(None, 5, false), "cspmod_05.rec");
    assert_eq!(SaveContainer::get_rec_filename(None, 17, true), "/cspmod_17.rec");
    assert_eq!(SaveContainer::get_rec_filename(Some("sanctuary"), 2, true), "/sanctuary.rec");
}

#[test]
fn format_properties() {
    assert!(SaveFormat::Plus.is_csp());
    assert!(!SaveFormat::Plus.is_switch());
    assert!(SaveFormat::Switch(Version { major: 1, minor: 3, patch: 0 }).is_switch());
    assert!(!SaveFormat::Freeware.is_csp());
    assert_eq!(SaveFormat::Freeware.profile_size(), 0x620);
    assert_eq!(SaveFormat::Plus.profile_size(), 0x620);
    assert_eq!(SaveFormat::Switch(Version { major: 1, minor: 2, patch: 0 }).profile_size(), 0x680);
    assert_eq!(SaveFormat::Generic.profile_size(), 0);
}

#[test]
fn profiles_and_patches() {
    let mut c = SaveContainer::new();
    assert!(c.is_empty());
    let mut p = GameProfile::new();
    p.current_map = 3;
    c.set_profile(SaveSlot::MainGame(1), p);
    assert_eq!(c.patch_state(PatchSlot::MainGame(1)), Some(SavePatch::Added));
    c.set_profile(SaveSlot::MainGame(1), p);
    assert_eq!(c.patch_state(PatchSlot::MainGame(1)), Some(SavePatch::Modified));
    c.set_profile(SaveSlot::CSPMod(4, 2), p);
    assert_eq!(c.get_profile(SaveSlot::CSPMod(4, 2)).map(|p| p.current_map), Some(3));
    assert!(c.get_profile(SaveSlot::CSPMod(4, 1)).is_none());
    assert!(!c.is_empty());
    c.delete_profile(SaveSlot::CSPMod(4, 2));
    assert!(c.get_profile(SaveSlot::CSPMod(4, 2)).is_none());
    assert!(c.csp_mods.get(&4).is_none());
    assert_eq!(c.patch_state(PatchSlot::CSPMod(4, 2)), Some(SavePatch::Deleted));
    c.delete_profile(SaveSlot::MainGame(1));
    assert!(c.is_empty());
    c.clear_patches();
    assert_eq!(c.patch_state(PatchSlot::MainGame(1)), None);
}

#[test]
fn best_times_keep_the_better() {
    let mut c = SaveContainer::new();
    c.set_best_time(2, ChallengeTime { timing_mode: TimingMode::_60Hz, ticks: 600 }, false);
    assert_eq!(c.patch_state(PatchSlot::BestTime(2)), None);
    // 600 ticks at 50 per second is slower than 600 at 60: kept out.
    c.set_best_time(2, ChallengeTime { timing_mode: TimingMode::_50Hz, ticks: 600 }, false);
    assert_eq!(c.get_best_time(2).unwrap().timing_mode, TimingMode::_60Hz);
    assert_eq!(c.patch_state(PatchSlot::BestTime(2)), None);
    c.set_best_time(2, ChallengeTime { timing_mode: TimingMode::_50Hz, ticks: 400 }, false);
    assert_eq!(c.get_best_time(2).unwrap().ticks, 400);
    assert_eq!(c.get_best_time(2).unwrap().timing_mode, TimingMode::_50Hz);
    assert_eq!(c.patch_state(PatchSlot::BestTime(2)), Some(SavePatch::Modified));
    c.set_best_time(2, ChallengeTime { timing_mode: TimingMode::_50Hz, ticks: 700 }, false);
    assert_eq!(c.get_best_time(2).unwrap().ticks, 400);
    assert!(c.get_best_time(3).is_none());
}

#[test]
fn upgrade_keeps_the_container() {
    let mut c = SaveContainer::new();
    c.set_profile(SaveSlot::MainGame(2), GameProfile::new());
    let c = c.upgrade();
    assert_eq!(c.version, 1);
    assert!(c.get_profile(SaveSlot::MainGame(2)).is_some());
    let params = SaveParams::new();
    assert!(params.slots.is_empty() && params.settings);
}

#[test]
fn unlocks_from_requirements() {
    let mut r = ModRequirements::new();
    assert_eq!(ChallengeUnlocks::dump(&r).0, 0x01);
    r.beat_hell = true;
    r.append_weapon(12);
    r.append_item(35);
    let u = ChallengeUnlocks::dump(&r);
    assert_eq!(u.0, 0x01 | 0x02 | 0x04 | 0x10 | 0x20 | 0x08 | 0x40);
    assert!(u.nemesis() && !u.sand_pit() && u.main_game());
}

#[test]
fn unlocks_load_into_requirements() {
    let mut r = ModRequirements::new();
    ChallengeUnlocks(0x80 | 0x08 | 0x02).load(&mut r);
    assert!(r.beat_hell);
    assert!(r.has_weapon(3));
    assert!(!r.has_weapon(12));
    assert!(r.has_item(35));
    ChallengeUnlocks(0x80).load(&mut r);
    assert_eq!(r.weapons, vec![3]);
    let mut u = ChallengeUnlocks::new();
    u.set_machine_gun(true);
    u.set_main_game(false);
    assert_eq!(u.0, 0x40);
}

#[test]
fn slot_file_names_read_back_as_their_slot() {
    let cases = [
        (SaveSlot::MainGame(1), (0u8, 1usize, true)),
        (SaveSlot::MainGame(7), (0, 7, true)),
        (SaveSlot::MainGame(12), (0, 12, true)),
        (SaveSlot::CSPMod(3, 2), (3, 2, false)),
        (SaveSlot::CSPMod(0, 1), (0, 1, false)),
    ];
    for (slot, expected) in cases {
        let name = SaveContainer::get_save_filename(SaveFormat::Freeware, Some(slot));
        assert_eq!(slot_of(&name[1..]), Some(expected), "{}", name);
    }
}

#[test]
fn best_times_of_other_mods_may_be_huge() {
    let mut c = SaveContainer::new();
    c.set_best_time(1, ChallengeTime { timing_mode: TimingMode::_50Hz, ticks: usize::MAX }, false);
    c.set_best_time(2, ChallengeTime { timing_mode: TimingMode::_60Hz, ticks: 100 }, false);
    c.set_best_time(2, ChallengeTime { timing_mode: TimingMode::_60Hz, ticks: 90 }, false);
    assert_eq!(c.get_best_time(2).unwrap().ticks, 90);
    // a huge 50 Hz time is compared at another 50 Hz time's rate: no growth
    c.set_best_time(1, ChallengeTime { timing_mode: TimingMode::_50Hz, ticks: 10 }, false);
    assert_eq!(c.get_best_time(1).unwrap().ticks, 10);
}

#[test]
fn setting_a_profile_leaves_the_other_slots() {
    let mut c = SaveContainer::new();
    let mut a = GameProfile::new();
    a.current_map = 3;
    let mut b = GameProfile::new();
    b.current_map = 4;
    c.set_profile(SaveSlot::MainGame(1), a);
    c.set_profile(SaveSlot::CSPMod(2, 1), a);
    c.set_profile(SaveSlot::MainGame(2), b);
    c.set_profile(SaveSlot::CSPMod(2, 3), b);
    assert_eq!(c.get_profile(SaveSlot::MainGame(1)).unwrap().current_map, 3);
    assert_eq!(c.get_profile(SaveSlot::CSPMod(2, 1)).unwrap().current_map, 3);
    assert_eq!(c.get_profile(SaveSlot::CSPMod(2, 3)).unwrap().current_map, 4);
    assert!(c.get_profile(SaveSlot::CSPMod(3, 1)).is_none());
}

#[test]
fn deleted_patches_are_the_latest_deletions() {
    let mut c = SaveContainer::new();
    let p = GameProfile::new();
    c.set_profile(SaveSlot::MainGame(1), p);
    c.set_profile(SaveSlot::MainGame(2), p);
    c.delete_profile(SaveSlot::MainGame(1));
    c.delete_profile(SaveSlot::MainGame(2));
    c.delete_profile(SaveSlot::MainGame(1));
    c.set_profile(SaveSlot::MainGame(2), p);
    let d = c.deleted_patches();
    assert_eq!(d.len(), 1);
    assert!(matches!(d[0], PatchSlot::MainGame(1)));
}
