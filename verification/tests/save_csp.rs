use doukutsu_core::common::{TimingMode, Version};
use doukutsu_core::profile::{ChallengeTime, GameProfile};
use doukutsu_core::save_container::{
    ModRequirements, SaveContainer, SaveContainerError, SaveFormat, SaveParams, SaveSlot,
};
use doukutsu_core::save_csp::{text_is, CspOptions};

const V12: Version = Version { major: 1, minor: 2, patch: 0 };
const V13: Version = Version { major: 1, minor: 3, patch: 0 };

fn options() -> CspOptions {
    CspOptions {
        bgm_level: 14,
        seasonal_textures: true,
        soundtrack: "remastered".to_string(),
        original_textures: false,
        locale: "jp".to_string(),
    }
}

fn sample_container() -> SaveContainer {
    let mut c = SaveContainer::new();
    let mut p = GameProfile::new();
    p.current_map = 40;
    p.timestamp = 99;
    p.eggfish_killed = true;
    c.set_profile(SaveSlot::MainGame(2), p);
    let mut q = GameProfile::new();
    q.current_map = 7;
    q.timestamp = 5;
    c.set_profile(SaveSlot::CSPMod(3, 1), q);
    c.set_best_time(0, ChallengeTime { timing_mode: TimingMode::_50Hz, ticks: 5000 }, true);
    c.set_best_time(4, ChallengeTime { timing_mode: TimingMode::_60Hz, ticks: 777 }, true);
    c
}

#[test]
fn recognise_layouts() {
    assert!(matches!(SaveFormat::recognise(&[0u8; 4], false), Err(SaveContainerError::UnexpectedEof)));
    assert_eq!(SaveFormat::recognise(&vec![0u8; 0x20020], false), Ok(SaveFormat::Plus));
    let mut fw = b"Do041220".to_vec();
    fw.resize(0x604, 0);
    assert_eq!(SaveFormat::recognise(&fw, false), Ok(SaveFormat::Freeware));
    let mut old = b"Do041115".to_vec();
    old.resize(0x20, 0);
    assert_eq!(SaveFormat::recognise(&old, false), Ok(SaveFormat::Freeware));
    let json = b"{\"version\":1}".to_vec();
    assert_eq!(SaveFormat::recognise(&json, true), Ok(SaveFormat::Generic));
    assert_eq!(SaveFormat::recognise(&json, false), Err(SaveContainerError::UnsupportedFormat));
    assert_eq!(SaveFormat::recognise(&vec![0u8; 0x100], false), Err(SaveContainerError::UnsupportedFormat));
}

#[test]
fn recognise_switch_versions() {
    let mut s = vec![0u8; 0x20fb0];
    // Zero first time: 1.2.
    assert_eq!(SaveFormat::recognise(&s, false), Ok(SaveFormat::Switch(V12)));
    s[0x20eb8] = 1;
    // Non-zero first time, zero second: 1.3.
    assert_eq!(SaveFormat::recognise(&s, false), Ok(SaveFormat::Switch(V13)));
    s[0x20ebc] = 1;
    s[0x20ec0] = 1;
    assert_eq!(SaveFormat::recognise(&s, false), Ok(SaveFormat::Switch(V12)));
    s[0x20ec0] = 0;
    s[0x20eb4] = 1;
    assert_eq!(SaveFormat::recognise(&s, false), Ok(SaveFormat::Switch(V12)));
}

#[test]
fn csp_save_sizes() {
    let c = sample_container();
    let r = ModRequirements::new();
    let plus = c.encode_csp_save(SaveFormat::Plus, &SaveParams::new(), &options(), &r);
    assert_eq!(plus.len(), 0x20020);
    let sw = c.encode_csp_save(SaveFormat::Switch(V12), &SaveParams::new(), &options(), &r);
    assert_eq!(sw.len(), 0x20fb0);
    let sw3 = c.encode_csp_save(SaveFormat::Switch(V13), &SaveParams::new(), &options(), &r);
    assert_eq!(sw3.len(), 0x20fb0);
    assert_eq!(SaveFormat::recognise(&plus, false), Ok(SaveFormat::Plus));
}

#[test]
fn csp_save_fields() {
    let c = sample_container();
    let r = ModRequirements::new();
    let d = c.encode_csp_save(SaveFormat::Plus, &SaveParams::new(), &options(), &r);
    let base = 81 * 0x620;
    // Activity: main game slot 2, set 3 slot 1.
    assert_eq!(d[base], 0x02);
    assert_eq!(d[base + 3], 0x01);
    assert_eq!(d[base + 1], 0);
    // Options: both volumes are the music volume, capped at 10.
    assert_eq!(&d[base + 32..base + 40], &[10, 0, 0, 0, 10, 0, 0, 0]);
    assert_eq!(&d[base + 40..base + 45], &[1, 4, 0, 1, 0]);
    // Best time 0 at 60 ticks a second.
    let t0 = base + 45 + 7;
    assert_eq!(&d[t0..t0 + 4], &(6000u32).to_le_bytes());
    assert_eq!(&d[t0 + 16..t0 + 20], &(777u32).to_le_bytes());
    // Ironhead-fish flags of the main game slots.
    let e = t0 + 27 * 4;
    assert_eq!(&d[e..e + 3], &[0, 1, 0]);
}

#[test]
fn csp_save_writes_only_selected_slots() {
    let c = sample_container();
    let r = ModRequirements::new();
    let mut params = SaveParams::new();
    params.slots.push(SaveSlot::CSPMod(3, 1));
    let d = c.encode_csp_save(SaveFormat::Plus, &params, &options(), &r);
    let base = 81 * 0x620;
    assert_eq!(d[base], 0);
    assert_eq!(d[base + 3], 0x01);
    assert!(d[0x620..0x620 * 2].iter().all(|b| *b == 0));
}

#[test]
fn unknown_soundtrack_is_organya() {
    assert!(text_is("new", "new"));
    assert!(!text_is("new", "New"));
    let c = SaveContainer::new();
    let mut o = options();
    o.soundtrack = "beep".to_string();
    o.locale = "en".to_string();
    let d = c.encode_csp_save(SaveFormat::Plus, &SaveParams::new(), &o, &ModRequirements::new());
    let base = 81 * 0x620;
    assert_eq!(&d[base + 40..base + 45], &[1, 2, 0, 0, 0]);
}

#[test]
fn csp_import_reads_back_the_export() {
    let c = sample_container();
    let mut reqs = ModRequirements::new();
    reqs.beat_hell = true;
    for format in [SaveFormat::Plus, SaveFormat::Switch(V12), SaveFormat::Switch(V13)] {
        let d = c.encode_csp_save(format, &SaveParams::new(), &options(), &reqs);
        let mut back = SaveContainer::new();
        let mut r2 = ModRequirements::new();
        let (opts, res) = back.import_csp(&d, format, &mut r2);
        assert_eq!(res, Ok(()));
        let opts = opts.unwrap();
        assert_eq!(opts.bgm_level, 10);
        assert_eq!(opts.sfx_level, 10);
        assert!(opts.seasonal_textures);
        assert_eq!(opts.soundtrack, 4);
        assert!(!opts.original_textures);
        assert!(r2.beat_hell);
        assert_eq!(back.get_profile(SaveSlot::MainGame(2)).unwrap().current_map, 40);
        assert_eq!(back.get_profile(SaveSlot::CSPMod(3, 1)).unwrap().current_map, 7);
        assert!(back.get_profile(SaveSlot::MainGame(1)).is_none());
        assert!(back.get_profile(SaveSlot::CSPMod(3, 2)).is_none());
        assert_eq!(back.get_best_time(0).unwrap().ticks, 6000);
        assert_eq!(back.get_best_time(0).unwrap().timing_mode, TimingMode::_60Hz);
        assert_eq!(back.get_best_time(4).unwrap().ticks, 777);
        assert!(back.get_best_time(1).is_none());
        assert!(back.patchset.is_empty());
    }
}

#[test]
fn csp_import_keeps_better_times_and_applies_eggfish_to_held_profiles() {
    let c = sample_container();
    let d = c.encode_csp_save(SaveFormat::Plus, &SaveParams::new(), &options(), &ModRequirements::new());
    let mut back = SaveContainer::new();
    back.set_best_time(4, ChallengeTime { timing_mode: TimingMode::_60Hz, ticks: 100 }, true);
    let mut held = GameProfile::new();
    held.current_map = 1;
    held.eggfish_killed = true;
    back.set_profile(SaveSlot::MainGame(3), held);
    let mut r = ModRequirements::new();
    let (_, res) = back.import_csp(&d, SaveFormat::Plus, &mut r);
    assert_eq!(res, Ok(()));
    assert_eq!(back.get_best_time(4).unwrap().ticks, 100);
    // Slot 3 was inactive in the file: the held profile stays, with the file's flag (0).
    assert_eq!(back.get_profile(SaveSlot::MainGame(3)).unwrap().current_map, 1);
    assert!(!back.get_profile(SaveSlot::MainGame(3)).unwrap().eggfish_killed);
}

#[test]
fn csp_import_errors() {
    let c = sample_container();
    let d = c.encode_csp_save(SaveFormat::Plus, &SaveParams::new(), &options(), &ModRequirements::new());
    let mut back = SaveContainer::new();
    let mut r = ModRequirements::new();
    let (opts, res) = back.import_csp(&d[..0x100], SaveFormat::Plus, &mut r);
    assert!(opts.is_none());
    assert!(matches!(res, Err(SaveContainerError::Profile(_))));
    let base = 81 * 0x620;
    let (opts, res) = back.import_csp(&d[..base + 40], SaveFormat::Plus, &mut r);
    assert!(opts.is_none());
    assert_eq!(res, Err(SaveContainerError::UnexpectedEof));
    let (opts, res) = back.import_csp(&d[..base + 60], SaveFormat::Plus, &mut r);
    assert!(opts.is_some());
    assert_eq!(res, Err(SaveContainerError::UnexpectedEof));
    assert!(back.get_profile(SaveSlot::MainGame(2)).is_none());
}
