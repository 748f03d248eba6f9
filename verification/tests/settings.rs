use doukutsu_core::common::TimingMode;
use doukutsu_core::save_container::SaveFormat;
use doukutsu_core::settings::{
    p1_default_keymap, p2_default_keymap, player_default_controller_button_map, Axis, AxisDirection, Button,
    ControllerType, PlayerControllerInputType, ScanCode, Settings, SettingsResets,
};

#[test]
fn default_keymaps() {
    let a = p1_default_keymap();
    assert_eq!(a.left, ScanCode::Left);
    assert_eq!(a.jump, ScanCode::Z);
    assert_eq!(a.strafe, ScanCode::LShift);
    let b = p2_default_keymap();
    assert_eq!(b.left, ScanCode::Comma);
    assert_eq!(b.shoot, ScanCode::N);
    assert_eq!(b.strafe, ScanCode::RShift);
}

#[test]
fn default_keymaps_share_no_key() {
    let a = p1_default_keymap();
    let b = p2_default_keymap();
    let ka = [a.left, a.up, a.right, a.down, a.prev_weapon, a.next_weapon, a.jump, a.shoot, a.skip, a.inventory, a.map, a.strafe, a.menu_ok, a.menu_back];
    let kb = [b.left, b.up, b.right, b.down, b.prev_weapon, b.next_weapon, b.jump, b.shoot, b.skip, b.inventory, b.map, b.strafe, b.menu_ok, b.menu_back];
    for x in ka.iter() {
        assert!(!kb.contains(x));
    }
}

#[test]
fn default_button_map() {
    let m = player_default_controller_button_map();
    assert_eq!(m.left, PlayerControllerInputType::Either(Button::DPadLeft, Axis::LeftX, AxisDirection::Left));
    assert_eq!(m.jump, PlayerControllerInputType::ButtonInput(Button::East));
    assert_eq!(m.strafe, PlayerControllerInputType::AxisInput(Axis::TriggerRight, AxisDirection::Either));
}

fn stored(version: u32) -> Settings {
    let mut p1 = p1_default_keymap();
    p1.skip = ScanCode::E;
    p1.strafe = ScanCode::A;
    let mut pad = player_default_controller_button_map();
    pad.shoot = PlayerControllerInputType::ButtonInput(Button::East);
    pad.map = PlayerControllerInputType::ButtonInput(Button::West);
    Settings {
        version,
        light_cone: false,
        timing_mode: TimingMode::_60Hz,
        pause_on_focus_loss: false,
        player1_controller_type: ControllerType::Gamepad(0),
        player2_controller_type: ControllerType::Gamepad(1),
        player1_key_map: p1,
        player2_key_map: p2_default_keymap(),
        player1_controller_button_map: pad,
        player2_controller_button_map: pad,
        player1_rumble: true,
        player2_rumble: true,
        locale: "Japanese".to_owned(),
        debug_mode: true,
        more_rust: true,
        discord_rpc: false,
        display_touch_controls: false,
        allow_strafe: false,
        soundtrack: "Remastered".to_owned(),
        save_format: SaveFormat::Plus,
    }
}

#[test]
fn upgrade_from_version_two_reaches_the_current_one() {
    let (s, r) = stored(2).upgrade();
    assert_eq!(s.version, 26);
    assert!(s.light_cone && s.pause_on_focus_loss && s.discord_rpc && s.display_touch_controls && s.allow_strafe);
    assert!(!s.debug_mode && !s.more_rust && !s.player1_rumble && !s.player2_rumble);
    assert_eq!(s.timing_mode, TimingMode::_50Hz);
    assert_eq!((s.player1_key_map.strafe, s.player2_key_map.strafe), (ScanCode::LShift, ScanCode::RShift));
    assert_eq!(s.player1_key_map.skip, ScanCode::Q);
    assert_eq!(s.player1_key_map.menu_ok, s.player1_key_map.jump);
    assert_eq!(s.player1_controller_type, ControllerType::Keyboard);
    let pad = s.player1_controller_button_map;
    assert_eq!(pad.menu_ok, PlayerControllerInputType::ButtonInput(Button::East));
    assert_eq!(pad.menu_back, PlayerControllerInputType::ButtonInput(Button::South));
    assert_eq!(pad.map, PlayerControllerInputType::ButtonInput(Button::North));
    // version 6 set the language code, which version 20 keeps
    assert_eq!(s.locale, "en");
    assert_eq!(s.soundtrack, "remastered");
    assert_eq!(s.save_format, SaveFormat::Freeware);
    assert_eq!(
        r,
        SettingsResets {
            volumes: true,
            vsync_mode: true,
            screen_shake_intensity: true,
            window_mode: true,
            controller_axis_sensitivity: true,
            cutscene_skip_mode: true,
        }
    );
    // upgrading again changes nothing
    let (again, r2) = s.clone().upgrade();
    assert_eq!((again.version, again.locale.as_str(), again.soundtrack.as_str()), (26, "en", "remastered"));
    assert_eq!(r2.volumes, false);
}

#[test]
fn late_upgrades_keep_the_rest() {
    let (s, r) = stored(16).upgrade();
    assert_eq!(s.version, 26);
    assert_eq!(s.locale, "jp");
    assert_eq!(s.player1_key_map.skip, ScanCode::E);
    assert_eq!(s.player1_controller_type, ControllerType::Gamepad(0));
    assert_eq!(s.player1_controller_button_map.shoot, PlayerControllerInputType::ButtonInput(Button::West));
    assert_eq!(s.player2_controller_button_map.map, PlayerControllerInputType::ButtonInput(Button::East));
    assert!(!r.volumes && r.cutscene_skip_mode);
    let (old, r1) = stored(1).upgrade();
    assert_eq!((old.version, old.locale.as_str(), old.light_cone), (1, "Japanese", false));
    assert!(!r1.volumes && !r1.cutscene_skip_mode);
}

#[test]
fn upgrade_language_soundtrack_and_format_by_version() {
    let (s7, _) = stored(7).upgrade();
    assert_eq!(s7.locale, "jp");
    let (s21, _) = stored(21).upgrade();
    assert_eq!(s21.locale, "Japanese");
    assert_eq!(s21.soundtrack, "remastered");
    let (s25, _) = stored(25).upgrade();
    assert_eq!(s25.soundtrack, "Remastered");
    assert_eq!(s25.save_format, SaveFormat::Freeware);
    let (s26, _) = stored(26).upgrade();
    assert_eq!(s26.save_format, SaveFormat::Plus);
}
