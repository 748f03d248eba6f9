//! Default input bindings of the two players.

use vstd::prelude::*;
use vstd::string::StringExecFns;

use crate::common::TimingMode;
use crate::save_container::SaveFormat;

verus! {

/// Keyboard keys that the default bindings use.
#[derive(Clone, Copy, Debug, PartialEq, Eq, Structural)]
pub enum ScanCode {
    A,
    B,
    E,
    G,
    H,
    L,
    N,
    Q,
    S,
    T,
    U,
    W,
    X,
    Y,
    Z,
    Comma,
    Period,
    Slash,
    Left,
    Up,
    Right,
    Down,
    LShift,
    RShift,
}

/// Gamepad buttons.
#[derive(Clone, Copy, Debug, PartialEq, Eq, Structural)]
pub enum Button {
    South,
    East,
    West,
    North,
    LeftShoulder,
    RightShoulder,
    DPadUp,
    DPadDown,
    DPadLeft,
    DPadRight,
}

/// Gamepad axes.
#[derive(Clone, Copy, Debug, PartialEq, Eq, Structural)]
pub enum Axis {
    LeftX,
    LeftY,
    TriggerRight,
}

/// Which way along an axis counts as pressed.
#[derive(Clone, Copy, Debug, PartialEq, Eq, Structural)]
pub enum AxisDirection {
    Left,
    Up,
    Right,
    Down,
    Either,
}

/// A gamepad input bound to a game action.
#[derive(Clone, Copy, Debug, PartialEq, Eq, Structural)]
pub enum PlayerControllerInputType {
    ButtonInput(Button),
    AxisInput(Axis, AxisDirection),
    Either(Button, Axis, AxisDirection),
}

/// Keyboard bindings of one player.
#[derive(Clone, Copy, Debug, PartialEq, Eq, Structural)]
pub struct PlayerKeyMap {
    pub left: ScanCode,
    pub up: ScanCode,
    pub right: ScanCode,
    pub down: ScanCode,
    pub prev_weapon: ScanCode,
    pub next_weapon: ScanCode,
    pub jump: ScanCode,
    pub shoot: ScanCode,
    pub skip: ScanCode,
    pub inventory: ScanCode,
    pub map: ScanCode,
    pub strafe: ScanCode,
    pub menu_ok: ScanCode,
    pub menu_back: ScanCode,
}

/// The input device of a player.
#[derive(Clone, Copy, Debug, PartialEq, Eq, Structural)]
pub enum ControllerType {
    Keyboard,
    Gamepad(u32),
}

/// Gamepad bindings of one player.
#[derive(Clone, Copy, Debug, PartialEq, Eq, Structural)]
pub struct PlayerControllerButtonMap {
    pub left: PlayerControllerInputType,
    pub up: PlayerControllerInputType,
    pub right: PlayerControllerInputType,
    pub down: PlayerControllerInputType,
    pub prev_weapon: PlayerControllerInputType,
    pub next_weapon: PlayerControllerInputType,
    pub jump: PlayerControllerInputType,
    pub shoot: PlayerControllerInputType,
    pub skip: PlayerControllerInputType,
    pub inventory: PlayerControllerInputType,
    pub map: PlayerControllerInputType,
    pub strafe: PlayerControllerInputType,
    pub menu_ok: PlayerControllerInputType,
    pub menu_back: PlayerControllerInputType,
}

pub open spec fn spec_p1_default_keymap() -> PlayerKeyMap {
    PlayerKeyMap {
        left: ScanCode::Left,
        up: ScanCode::Up,
        right: ScanCode::Right,
        down: ScanCode::Down,
        prev_weapon: ScanCode::A,
        next_weapon: ScanCode::S,
        jump: ScanCode::Z,
        shoot: ScanCode::X,
        skip: ScanCode::Q,
        inventory: ScanCode::Q,
        map: ScanCode::W,
        strafe: ScanCode::LShift,
        menu_ok: ScanCode::Z,
        menu_back: ScanCode::X,
    }
}

pub open spec fn spec_p2_default_keymap() -> PlayerKeyMap {
    PlayerKeyMap {
        left: ScanCode::Comma,
        up: ScanCode::L,
        right: ScanCode::Slash,
        down: ScanCode::Period,
        prev_weapon: ScanCode::G,
        next_weapon: ScanCode::H,
        jump: ScanCode::B,
        shoot: ScanCode::N,
        skip: ScanCode::T,
        inventory: ScanCode::T,
        map: ScanCode::Y,
        strafe: ScanCode::RShift,
        menu_ok: ScanCode::B,
        menu_back: ScanCode::N,
    }
}

pub open spec fn spec_default_button_map() -> PlayerControllerButtonMap {
    PlayerControllerButtonMap {
        left: PlayerControllerInputType::Either(Button::DPadLeft, Axis::LeftX, AxisDirection::Left),
        up: PlayerControllerInputType::Either(Button::DPadUp, Axis::LeftY, AxisDirection::Up),
        right: PlayerControllerInputType::Either(Button::DPadRight, Axis::LeftX, AxisDirection::Right),
        down: PlayerControllerInputType::Either(Button::DPadDown, Axis::LeftY, AxisDirection::Down),
        prev_weapon: PlayerControllerInputType::ButtonInput(Button::LeftShoulder),
        next_weapon: PlayerControllerInputType::ButtonInput(Button::RightShoulder),
        jump: PlayerControllerInputType::ButtonInput(Button::East),
        shoot: PlayerControllerInputType::ButtonInput(Button::South),
        skip: PlayerControllerInputType::ButtonInput(Button::West),
        inventory: PlayerControllerInputType::ButtonInput(Button::West),
        map: PlayerControllerInputType::ButtonInput(Button::North),
        strafe: PlayerControllerInputType::AxisInput(Axis::TriggerRight, AxisDirection::Either),
        menu_ok: PlayerControllerInputType::ButtonInput(Button::South),
        menu_back: PlayerControllerInputType::ButtonInput(Button::East),
    }
}

/// Player 1's default keys: arrows to move, Z/X to jump and shoot.
pub fn p1_default_keymap() -> (res: PlayerKeyMap)
    ensures
        res == spec_p1_default_keymap(),
{
    PlayerKeyMap {
        left: ScanCode::Left,
        up: ScanCode::Up,
        right: ScanCode::Right,
        down: ScanCode::Down,
        prev_weapon: ScanCode::A,
        next_weapon: ScanCode::S,
        jump: ScanCode::Z,
        shoot: ScanCode::X,
        skip: ScanCode::Q,
        inventory: ScanCode::Q,
        map: ScanCode::W,
        strafe: ScanCode::LShift,
        menu_ok: ScanCode::Z,
        menu_back: ScanCode::X,
    }
}

/// Player 2's default keys: `,` `L` `/` `.` to move, B/N to jump and shoot.
pub fn p2_default_keymap() -> (res: PlayerKeyMap)
    ensures
        res == spec_p2_default_keymap(),
{
    PlayerKeyMap {
        left: ScanCode::Comma,
        up: ScanCode::L,
        right: ScanCode::Slash,
        down: ScanCode::Period,
        prev_weapon: ScanCode::G,
        next_weapon: ScanCode::H,
        jump: ScanCode::B,
        shoot: ScanCode::N,
        skip: ScanCode::T,
        inventory: ScanCode::T,
        map: ScanCode::Y,
        strafe: ScanCode::RShift,
        menu_ok: ScanCode::B,
        menu_back: ScanCode::N,
    }
}

/// The default gamepad bindings of either player.
pub fn player_default_controller_button_map() -> (res: PlayerControllerButtonMap)
    ensures
        res == spec_default_button_map(),
{
    PlayerControllerButtonMap {
        left: PlayerControllerInputType::Either(Button::DPadLeft, Axis::LeftX, AxisDirection::Left),
        up: PlayerControllerInputType::Either(Button::DPadUp, Axis::LeftY, AxisDirection::Up),
        right: PlayerControllerInputType::Either(Button::DPadRight, Axis::LeftX, AxisDirection::Right),
        down: PlayerControllerInputType::Either(Button::DPadDown, Axis::LeftY, AxisDirection::Down),
        prev_weapon: PlayerControllerInputType::ButtonInput(Button::LeftShoulder),
        next_weapon: PlayerControllerInputType::ButtonInput(Button::RightShoulder),
        jump: PlayerControllerInputType::ButtonInput(Button::East),
        shoot: PlayerControllerInputType::ButtonInput(Button::South),
        skip: PlayerControllerInputType::ButtonInput(Button::West),
        strafe: PlayerControllerInputType::AxisInput(Axis::TriggerRight, AxisDirection::Either),
        inventory: PlayerControllerInputType::ButtonInput(Button::West),
        map: PlayerControllerInputType::ButtonInput(Button::North),
        menu_ok: PlayerControllerInputType::ButtonInput(Button::South),
        menu_back: PlayerControllerInputType::ButtonInput(Button::East),
    }
}

/// The two players' default keys never share a binding, so both can play on
/// one keyboard.
pub proof fn law_default_keymaps_disjoint()
    ensures
        ({
            let a = spec_p1_default_keymap();
            let b = spec_p2_default_keymap();
            let ka = seq![a.left, a.up, a.right, a.down, a.prev_weapon, a.next_weapon, a.jump, a.shoot, a.skip, a.inventory, a.map, a.strafe, a.menu_ok, a.menu_back];
            let kb = seq![b.left, b.up, b.right, b.down, b.prev_weapon, b.next_weapon, b.jump, b.shoot, b.skip, b.inventory, b.map, b.strafe, b.menu_ok, b.menu_back];
            forall|i: int, j: int| 0 <= i < 14 && 0 <= j < 14 ==> ka[i] != kb[j]
        }),
{
}


// ---------------------------------------------------------------------------
// Upgrading a stored configuration

/// The version a configuration is upgraded to.
pub const CURRENT_SETTINGS_VERSION: u32 = 26;

/// The stored settings that configuration upgrades read and write. The
/// volumes, stick sensitivities and display modes are kept by the caller;
/// an upgrade reports which of them go back to their defaults.
#[derive(Clone, Debug)]
pub struct Settings {
    pub version: u32,
    pub light_cone: bool,
    pub timing_mode: TimingMode,
    pub pause_on_focus_loss: bool,
    pub player1_controller_type: ControllerType,
    pub player2_controller_type: ControllerType,
    pub player1_key_map: PlayerKeyMap,
    pub player2_key_map: PlayerKeyMap,
    pub player1_controller_button_map: PlayerControllerButtonMap,
    pub player2_controller_button_map: PlayerControllerButtonMap,
    pub player1_rumble: bool,
    pub player2_rumble: bool,
    pub locale: String,
    pub debug_mode: bool,
    pub more_rust: bool,
    pub discord_rpc: bool,
    pub display_touch_controls: bool,
    pub allow_strafe: bool,
    pub soundtrack: String,
    pub save_format: SaveFormat,
}

/// The settings outside `Settings` that an upgrade puts back to their
/// defaults.
#[derive(Clone, Copy, Debug, PartialEq, Eq, Structural)]
pub struct SettingsResets {
    /// Music and sound volume.
    pub volumes: bool,
    pub vsync_mode: bool,
    pub screen_shake_intensity: bool,
    pub window_mode: bool,
    /// Both players' stick sensitivity.
    pub controller_axis_sensitivity: bool,
    /// Back to holding the key to skip cutscenes.
    pub cutscene_skip_mode: bool,
}

/// `Settings` with its strings as character sequences.
pub struct SettingsView {
    pub version: u32,
    pub light_cone: bool,
    pub timing_mode: TimingMode,
    pub pause_on_focus_loss: bool,
    pub player1_controller_type: ControllerType,
    pub player2_controller_type: ControllerType,
    pub player1_key_map: PlayerKeyMap,
    pub player2_key_map: PlayerKeyMap,
    pub player1_controller_button_map: PlayerControllerButtonMap,
    pub player2_controller_button_map: PlayerControllerButtonMap,
    pub player1_rumble: bool,
    pub player2_rumble: bool,
    pub locale: Seq<char>,
    pub debug_mode: bool,
    pub more_rust: bool,
    pub discord_rpc: bool,
    pub display_touch_controls: bool,
    pub allow_strafe: bool,
    pub soundtrack: Seq<char>,
    pub save_format: SaveFormat,
}

impl View for Settings {
    type V = SettingsView;

    open spec fn view(&self) -> SettingsView {
        SettingsView {
            version: self.version,
            light_cone: self.light_cone,
            timing_mode: self.timing_mode,
            pause_on_focus_loss: self.pause_on_focus_loss,
            player1_controller_type: self.player1_controller_type,
            player2_controller_type: self.player2_controller_type,
            player1_key_map: self.player1_key_map,
            player2_key_map: self.player2_key_map,
            player1_controller_button_map: self.player1_controller_button_map,
            player2_controller_button_map: self.player2_controller_button_map,
            player1_rumble: self.player1_rumble,
            player2_rumble: self.player2_rumble,
            locale: self.locale@,
            debug_mode: self.debug_mode,
            more_rust: self.more_rust,
            discord_rpc: self.discord_rpc,
            display_touch_controls: self.display_touch_controls,
            allow_strafe: self.allow_strafe,
            soundtrack: self.soundtrack@,
            save_format: self.save_format,
        }
    }
}

pub open spec fn no_resets() -> SettingsResets {
    SettingsResets {
        volumes: false,
        vsync_mode: false,
        screen_shake_intensity: false,
        window_mode: false,
        controller_axis_sensitivity: false,
        cutscene_skip_mode: false,
    }
}

/// Whether a configuration of this version is upgraded further.
pub open spec fn upgradable(version: u32) -> bool {
    2 <= version < CURRENT_SETTINGS_VERSION
}

/// A language named in full by configurations before version 21, by its code.
pub open spec fn upgraded_locale(l: Seq<char>) -> Seq<char> {
    if l == "English"@ {
        "en"@
    } else if l == "Japanese"@ {
        "jp"@
    } else {
        "en"@
    }
}

/// A soundtrack named in capitals before version 25, in lower case.
pub open spec fn upgraded_soundtrack(t: Seq<char>) -> Seq<char> {
    if t == "Organya"@ {
        "organya"@
    } else if t == "Remastered"@ {
        "remastered"@
    } else if t == "New"@ {
        "new"@
    } else if t == "Famitracks"@ {
        "famitracks"@
    } else if t == "Ridiculon"@ {
        "ridiculon"@
    } else {
        t
    }
}

/// Menu confirmation and cancel bound as jump and shoot.
pub open spec fn menu_keys_from_play(k: PlayerKeyMap) -> PlayerKeyMap {
    PlayerKeyMap { menu_ok: k.jump, menu_back: k.shoot, ..k }
}

pub open spec fn menu_buttons_from_play(b: PlayerControllerButtonMap) -> PlayerControllerButtonMap {
    PlayerControllerButtonMap { menu_ok: b.jump, menu_back: b.shoot, ..b }
}

/// Shoot moved off the east face button to the west one, and the map off
/// the west one to the east one.
pub open spec fn swapped_face_buttons(b: PlayerControllerButtonMap) -> PlayerControllerButtonMap {
    PlayerControllerButtonMap {
        shoot: if b.shoot == PlayerControllerInputType::ButtonInput(Button::East) {
            PlayerControllerInputType::ButtonInput(Button::West)
        } else {
            b.shoot
        },
        map: if b.map == PlayerControllerInputType::ButtonInput(Button::West) {
            PlayerControllerInputType::ButtonInput(Button::East)
        } else {
            b.map
        },
        ..b
    }
}

/// The upgrade of a configuration from its version to the next one.
#[verifier::opaque]
pub open spec fn upgrade_step(s: SettingsView, r: SettingsResets) -> (SettingsView, SettingsResets) {
    let v = s.version;
    let n = SettingsView { version: (v + 1) as u32, ..s };
    if v == 2 {
        (SettingsView { light_cone: true, ..n }, r)
    } else if v == 3 {
        (SettingsView { timing_mode: TimingMode::_50Hz, ..n }, r)
    } else if v == 4 {
        (n, SettingsResets { volumes: true, ..r })
    } else if v == 5 {
        (
            SettingsView {
                player1_key_map: PlayerKeyMap { strafe: ScanCode::LShift, ..s.player1_key_map },
                player2_key_map: PlayerKeyMap { strafe: ScanCode::RShift, ..s.player2_key_map },
                ..n
            },
            r,
        )
    } else if v == 6 {
        (SettingsView { locale: "en"@, ..n }, r)
    } else if v == 7 {
        (n, SettingsResets { vsync_mode: true, ..r })
    } else if v == 8 {
        (SettingsView { debug_mode: false, ..n }, r)
    } else if v == 9 {
        (n, SettingsResets { screen_shake_intensity: true, ..r })
    } else if v == 10 {
        (n, SettingsResets { window_mode: true, ..r })
    } else if v == 11 {
        (
            SettingsView {
                player1_controller_type: ControllerType::Keyboard,
                player2_controller_type: ControllerType::Keyboard,
                player1_controller_button_map: spec_default_button_map(),
                player2_controller_button_map: spec_default_button_map(),
                ..n
            },
            SettingsResets { controller_axis_sensitivity: true, ..r },
        )
    } else if v == 12 {
        (
            SettingsView {
                player1_key_map: if s.player1_key_map.skip == ScanCode::E {
                    PlayerKeyMap { skip: ScanCode::Q, ..s.player1_key_map }
                } else {
                    s.player1_key_map
                },
                player2_key_map: if s.player2_key_map.skip == ScanCode::U {
                    PlayerKeyMap { skip: ScanCode::T, ..s.player2_key_map }
                } else {
                    s.player2_key_map
                },
                player1_controller_button_map: spec_default_button_map(),
                player2_controller_button_map: spec_default_button_map(),
                ..n
            },
            r,
        )
    } else if v == 13 {
        (
            SettingsView {
                player1_controller_button_map: spec_default_button_map(),
                player2_controller_button_map: spec_default_button_map(),
                ..n
            },
            r,
        )
    } else if v == 14 {
        (SettingsView { pause_on_focus_loss: true, ..n }, r)
    } else if v == 15 {
        (
            SettingsView {
                player1_key_map: menu_keys_from_play(s.player1_key_map),
                player2_key_map: menu_keys_from_play(s.player2_key_map),
                player1_controller_button_map: menu_buttons_from_play(s.player1_controller_button_map),
                player2_controller_button_map: menu_buttons_from_play(s.player2_controller_button_map),
                ..n
            },
            r,
        )
    } else if v == 16 {
        (
            SettingsView {
                player1_controller_button_map: swapped_face_buttons(s.player1_controller_button_map),
                player2_controller_button_map: swapped_face_buttons(s.player2_controller_button_map),
                ..n
            },
            r,
        )
    } else if v == 17 {
        (SettingsView { player1_rumble: false, player2_rumble: false, ..n }, r)
    } else if v == 18 {
        (SettingsView { more_rust: false, ..n }, r)
    } else if v == 19 {
        (n, SettingsResets { cutscene_skip_mode: true, ..r })
    } else if v == 20 {
        (SettingsView { locale: upgraded_locale(s.locale), ..n }, r)
    } else if v == 21 {
        (SettingsView { discord_rpc: true, ..n }, r)
    } else if v == 22 {
        (SettingsView { display_touch_controls: true, ..n }, r)
    } else if v == 23 {
        (SettingsView { allow_strafe: true, ..n }, r)
    } else if v == 24 {
        (SettingsView { soundtrack: upgraded_soundtrack(s.soundtrack), ..n }, r)
    } else {
        (SettingsView { save_format: SaveFormat::Freeware, ..n }, r)
    }
}

/// Upgrading step by step from the configuration's version to the current
/// one; configurations older than version 2 or already current are left
/// as they are.
pub open spec fn spec_upgrade(s: SettingsView, r: SettingsResets) -> (SettingsView, SettingsResets)
    decreases CURRENT_SETTINGS_VERSION - s.version,
{
    if upgradable(s.version) {
        let (s2, r2) = upgrade_step(s, r);
        proof {
            lemma_upgrade_step_version(s, r);
        }
        spec_upgrade(s2, r2)
    } else {
        (s, r)
    }
}

fn upgrade_from_2(s: &mut Settings, r: &mut SettingsResets)
    requires
        old(s).version == 2,
    ensures
        (final(s)@, *final(r)) == upgrade_step(old(s)@, *old(r)),
{
    proof {
        reveal(upgrade_step);
    }
    s.version = 3;
    s.light_cone = true;
}

fn upgrade_from_3(s: &mut Settings, r: &mut SettingsResets)
    requires
        old(s).version == 3,
    ensures
        (final(s)@, *final(r)) == upgrade_step(old(s)@, *old(r)),
{
    proof {
        reveal(upgrade_step);
    }
    s.version = 4;
    s.timing_mode = TimingMode::_50Hz;
}

fn upgrade_from_4(s: &mut Settings, r: &mut SettingsResets)
    requires
        old(s).version == 4,
    ensures
        (final(s)@, *final(r)) == upgrade_step(old(s)@, *old(r)),
{
    proof {
        reveal(upgrade_step);
    }
    s.version = 5;
    r.volumes = true;
}

fn upgrade_from_5(s: &mut Settings, r: &mut SettingsResets)
    requires
        old(s).version == 5,
    ensures
        (final(s)@, *final(r)) == upgrade_step(old(s)@, *old(r)),
{
    proof {
        reveal(upgrade_step);
    }
    s.version = 6;
    s.player1_key_map.strafe = ScanCode::LShift;
    s.player2_key_map.strafe = ScanCode::RShift;
}

fn upgrade_from_6(s: &mut Settings, r: &mut SettingsResets)
    requires
        old(s).version == 6,
    ensures
        (final(s)@, *final(r)) == upgrade_step(old(s)@, *old(r)),
{
    proof {
        reveal(upgrade_step);
    }
    s.version = 7;
    s.locale = String::from_str("en");
}

fn upgrade_from_7(s: &mut Settings, r: &mut SettingsResets)
    requires
        old(s).version == 7,
    ensures
        (final(s)@, *final(r)) == upgrade_step(old(s)@, *old(r)),
{
    proof {
        reveal(upgrade_step);
    }
    s.version = 8;
    r.vsync_mode = true;
}

fn upgrade_from_8(s: &mut Settings, r: &mut SettingsResets)
    requires
        old(s).version == 8,
    ensures
        (final(s)@, *final(r)) == upgrade_step(old(s)@, *old(r)),
{
    proof {
        reveal(upgrade_step);
    }
    s.version = 9;
    s.debug_mode = false;
}

fn upgrade_from_9(s: &mut Settings, r: &mut SettingsResets)
    requires
        old(s).version == 9,
    ensures
        (final(s)@, *final(r)) == upgrade_step(old(s)@, *old(r)),
{
    proof {
        reveal(upgrade_step);
    }
    s.version = 10;
    r.screen_shake_intensity = true;
}

fn upgrade_from_10(s: &mut Settings, r: &mut SettingsResets)
    requires
        old(s).version == 10,
    ensures
        (final(s)@, *final(r)) == upgrade_step(old(s)@, *old(r)),
{
    proof {
        reveal(upgrade_step);
    }
    s.version = 11;
    r.window_mode = true;
}

fn upgrade_from_11(s: &mut Settings, r: &mut SettingsResets)
    requires
        old(s).version == 11,
    ensures
        (final(s)@, *final(r)) == upgrade_step(old(s)@, *old(r)),
{
    proof {
        reveal(upgrade_step);
    }
    s.version = 12;
    s.player1_controller_type = ControllerType::Keyboard;
    s.player2_controller_type = ControllerType::Keyboard;
    s.player1_controller_button_map = player_default_controller_button_map();
    s.player2_controller_button_map = player_default_controller_button_map();
    r.controller_axis_sensitivity = true;
}

fn upgrade_from_12(s: &mut Settings, r: &mut SettingsResets)
    requires
        old(s).version == 12,
    ensures
        (final(s)@, *final(r)) == upgrade_step(old(s)@, *old(r)),
{
    proof {
        reveal(upgrade_step);
    }
    s.version = 13;
    if s.player1_key_map.skip == ScanCode::E {
        s.player1_key_map.skip = ScanCode::Q;
    }
    if s.player2_key_map.skip == ScanCode::U {
        s.player2_key_map.skip = ScanCode::T;
    }
    s.player1_controller_button_map = player_default_controller_button_map();
    s.player2_controller_button_map = player_default_controller_button_map();
}

fn upgrade_from_13(s: &mut Settings, r: &mut SettingsResets)
    requires
        old(s).version == 13,
    ensures
        (final(s)@, *final(r)) == upgrade_step(old(s)@, *old(r)),
{
    proof {
        reveal(upgrade_step);
    }
    s.version = 14;
    s.player1_controller_button_map = player_default_controller_button_map();
    s.player2_controller_button_map = player_default_controller_button_map();
}

fn upgrade_from_14(s: &mut Settings, r: &mut SettingsResets)
    requires
        old(s).version == 14,
    ensures
        (final(s)@, *final(r)) == upgrade_step(old(s)@, *old(r)),
{
    proof {
        reveal(upgrade_step);
    }
    s.version = 15;
    s.pause_on_focus_loss = true;
}

fn upgrade_from_15(s: &mut Settings, r: &mut SettingsResets)
    requires
        old(s).version == 15,
    ensures
        (final(s)@, *final(r)) == upgrade_step(old(s)@, *old(r)),
{
    proof {
        reveal(upgrade_step);
    }
    s.version = 16;
    s.player1_key_map.menu_ok = s.player1_key_map.jump;
    s.player1_key_map.menu_back = s.player1_key_map.shoot;
    s.player1_controller_button_map.menu_ok = s.player1_controller_button_map.jump;
    s.player1_controller_button_map.menu_back = s.player1_controller_button_map.shoot;
    s.player2_key_map.menu_ok = s.player2_key_map.jump;
    s.player2_key_map.menu_back = s.player2_key_map.shoot;
    s.player2_controller_button_map.menu_ok = s.player2_controller_button_map.jump;
    s.player2_controller_button_map.menu_back = s.player2_controller_button_map.shoot;
}

fn upgrade_from_16(s: &mut Settings, r: &mut SettingsResets)
    requires
        old(s).version == 16,
    ensures
        (final(s)@, *final(r)) == upgrade_step(old(s)@, *old(r)),
{
    proof {
        reveal(upgrade_step);
    }
    s.version = 17;
    swap_face_buttons(&mut s.player1_controller_button_map);
    swap_face_buttons(&mut s.player2_controller_button_map);
}

fn swap_face_buttons(b: &mut PlayerControllerButtonMap)
    ensures
        *final(b) == swapped_face_buttons(*old(b)),
{
    let east = PlayerControllerInputType::ButtonInput(Button::East);
    let west = PlayerControllerInputType::ButtonInput(Button::West);
    if b.shoot == east {
        b.shoot = west;
    }
    if b.map == west {
        b.map = east;
    }
}

fn upgrade_from_17(s: &mut Settings, r: &mut SettingsResets)
    requires
        old(s).version == 17,
    ensures
        (final(s)@, *final(r)) == upgrade_step(old(s)@, *old(r)),
{
    proof {
        reveal(upgrade_step);
    }
    s.version = 18;
    s.player1_rumble = false;
    s.player2_rumble = false;
}

fn upgrade_from_18(s: &mut Settings, r: &mut SettingsResets)
    requires
        old(s).version == 18,
    ensures
        (final(s)@, *final(r)) == upgrade_step(old(s)@, *old(r)),
{
    proof {
        reveal(upgrade_step);
    }
    s.version = 19;
    s.more_rust = false;
}

fn upgrade_from_19(s: &mut Settings, r: &mut SettingsResets)
    requires
        old(s).version == 19,
    ensures
        (final(s)@, *final(r)) == upgrade_step(old(s)@, *old(r)),
{
    proof {
        reveal(upgrade_step);
    }
    s.version = 20;
    r.cutscene_skip_mode = true;
}

fn upgrade_from_20(s: &mut Settings, r: &mut SettingsResets)
    requires
        old(s).version == 20,
    ensures
        (final(s)@, *final(r)) == upgrade_step(old(s)@, *old(r)),
{
    proof {
        reveal(upgrade_step);
    }
    s.version = 21;
    s.locale = if s.locale == String::from_str("English") {
        String::from_str("en")
    } else if s.locale == String::from_str("Japanese") {
        String::from_str("jp")
    } else {
        String::from_str("en")
    };
}

fn upgrade_from_21(s: &mut Settings, r: &mut SettingsResets)
    requires
        old(s).version == 21,
    ensures
        (final(s)@, *final(r)) == upgrade_step(old(s)@, *old(r)),
{
    proof {
        reveal(upgrade_step);
    }
    s.version = 22;
    s.discord_rpc = true;
}

fn upgrade_from_22(s: &mut Settings, r: &mut SettingsResets)
    requires
        old(s).version == 22,
    ensures
        (final(s)@, *final(r)) == upgrade_step(old(s)@, *old(r)),
{
    proof {
        reveal(upgrade_step);
    }
    s.version = 23;
    s.display_touch_controls = true;
}

fn upgrade_from_23(s: &mut Settings, r: &mut SettingsResets)
    requires
        old(s).version == 23,
    ensures
        (final(s)@, *final(r)) == upgrade_step(old(s)@, *old(r)),
{
    proof {
        reveal(upgrade_step);
    }
    s.version = 24;
    s.allow_strafe = true;
}

fn upgrade_from_24(s: &mut Settings, r: &mut SettingsResets)
    requires
        old(s).version == 24,
    ensures
        (final(s)@, *final(r)) == upgrade_step(old(s)@, *old(r)),
{
    proof {
        reveal(upgrade_step);
    }
    s.version = 25;
    let t = if s.soundtrack == String::from_str("Organya") {
        String::from_str("organya")
    } else if s.soundtrack == String::from_str("Remastered") {
        String::from_str("remastered")
    } else if s.soundtrack == String::from_str("New") {
        String::from_str("new")
    } else if s.soundtrack == String::from_str("Famitracks") {
        String::from_str("famitracks")
    } else if s.soundtrack == String::from_str("Ridiculon") {
        String::from_str("ridiculon")
    } else {
        s.soundtrack.clone()
    };
    s.soundtrack = t;
}

fn upgrade_from_25(s: &mut Settings, r: &mut SettingsResets)
    requires
        old(s).version == 25,
    ensures
        (final(s)@, *final(r)) == upgrade_step(old(s)@, *old(r)),
{
    proof {
        reveal(upgrade_step);
    }
    s.version = 26;
    s.save_format = SaveFormat::Freeware;
}

fn upgrade_one(s: &mut Settings, r: &mut SettingsResets)
    requires
        upgradable(old(s).version),
    ensures
        (final(s)@, *final(r)) == upgrade_step(old(s)@, *old(r)),
{
    let v = s.version;
    if v == 2 {
        upgrade_from_2(s, r);
    } else if v == 3 {
        upgrade_from_3(s, r);
    } else if v == 4 {
        upgrade_from_4(s, r);
    } else if v == 5 {
        upgrade_from_5(s, r);
    } else if v == 6 {
        upgrade_from_6(s, r);
    } else if v == 7 {
        upgrade_from_7(s, r);
    } else if v == 8 {
        upgrade_from_8(s, r);
    } else if v == 9 {
        upgrade_from_9(s, r);
    } else if v == 10 {
        upgrade_from_10(s, r);
    } else if v == 11 {
        upgrade_from_11(s, r);
    } else if v == 12 {
        upgrade_from_12(s, r);
    } else if v == 13 {
        upgrade_from_13(s, r);
    } else if v == 14 {
        upgrade_from_14(s, r);
    } else if v == 15 {
        upgrade_from_15(s, r);
    } else if v == 16 {
        upgrade_from_16(s, r);
    } else if v == 17 {
        upgrade_from_17(s, r);
    } else if v == 18 {
        upgrade_from_18(s, r);
    } else if v == 19 {
        upgrade_from_19(s, r);
    } else if v == 20 {
        upgrade_from_20(s, r);
    } else if v == 21 {
        upgrade_from_21(s, r);
    } else if v == 22 {
        upgrade_from_22(s, r);
    } else if v == 23 {
        upgrade_from_23(s, r);
    } else if v == 24 {
        upgrade_from_24(s, r);
    } else {
        upgrade_from_25(s, r);
    }
}

impl Settings {
    /// Brings a stored configuration up to the current version, one version
    /// at a time (see `upgrade_step`), and says which settings held
    /// elsewhere go back to their defaults.
    pub fn upgrade(self) -> (res: (Settings, SettingsResets))
        ensures
            (res.0@, res.1) == spec_upgrade(self@, no_resets()),
    {
        let mut s = self;
        let mut r = SettingsResets {
            volumes: false,
            vsync_mode: false,
            screen_shake_intensity: false,
            window_mode: false,
            controller_axis_sensitivity: false,
            cutscene_skip_mode: false,
        };
        while 2 <= s.version && s.version < CURRENT_SETTINGS_VERSION
            invariant
                spec_upgrade(s@, r) == spec_upgrade(self@, no_resets()),
            decreases CURRENT_SETTINGS_VERSION - s.version,
        {
            proof {
                lemma_upgrade_step_version(s@, r);
            }
            upgrade_one(&mut s, &mut r);
        }
        (s, r)
    }
}

/// One upgrade step raises the version by one.
#[verifier::rlimit(30)]
pub proof fn lemma_upgrade_step_version(s: SettingsView, r: SettingsResets)
    requires
        upgradable(s.version),
    ensures
        upgrade_step(s, r).0.version == s.version + 1,
{
    reveal(upgrade_step);
}

/// What one upgrade step does to the language.
#[verifier::rlimit(30)]
proof fn lemma_upgrade_step_locale(s: SettingsView, r: SettingsResets)
    requires
        upgradable(s.version),
    ensures
        upgrade_step(s, r).0.locale == if s.version == 6 {
            "en"@
        } else if s.version == 20 {
            upgraded_locale(s.locale)
        } else {
            s.locale
        },
{
    reveal(upgrade_step);
}

/// What one upgrade step does to the soundtrack.
#[verifier::rlimit(30)]
proof fn lemma_upgrade_step_soundtrack(s: SettingsView, r: SettingsResets)
    requires
        upgradable(s.version),
    ensures
        upgrade_step(s, r).0.soundtrack == if s.version == 24 { upgraded_soundtrack(s.soundtrack) } else { s.soundtrack },
{
    reveal(upgrade_step);
}

/// What one upgrade step does to the save format.
#[verifier::rlimit(30)]
proof fn lemma_upgrade_step_format(s: SettingsView, r: SettingsResets)
    requires
        upgradable(s.version),
    ensures
        upgrade_step(s, r).0.save_format == if s.version == 25 { SaveFormat::Freeware } else { s.save_format },
{
    reveal(upgrade_step);
}

/// An upgraded configuration is current, unless it was older than version 2
/// or newer than the current one, which are left as they are; upgrading it
/// again changes nothing.
pub proof fn law_upgrade_reaches_current(s: SettingsView, r: SettingsResets)
    ensures
        spec_upgrade(s, r).0.version == if upgradable(s.version) { CURRENT_SETTINGS_VERSION } else { s.version },
        spec_upgrade(spec_upgrade(s, r).0, spec_upgrade(s, r).1) == spec_upgrade(s, r),
    decreases CURRENT_SETTINGS_VERSION - s.version,
{
    if upgradable(s.version) {
        let (s2, r2) = upgrade_step(s, r);
        lemma_upgrade_step_version(s, r);
        law_upgrade_reaches_current(s2, r2);
    }
}


/// What an upgrade makes of the language, the soundtrack and the save
/// format: a configuration from before version 7 ends with English ("en"),
/// one from before version 21 with its language name turned into a code
/// (Japanese to "jp", anything else to "en"); soundtrack names from before
/// version 25 are lowered; every upgraded configuration saves in the
/// freeware format. What is not upgraded keeps them.
pub proof fn law_upgrade_language_and_formats(s: SettingsView, r: SettingsResets)
    ensures
        ({
            let u = spec_upgrade(s, r).0;
            let v = s.version;
            &&& u.locale == if !upgradable(v) || v > 20 {
                s.locale
            } else if v <= 6 {
                "en"@
            } else {
                upgraded_locale(s.locale)
            }
            &&& u.soundtrack == if upgradable(v) && v <= 24 { upgraded_soundtrack(s.soundtrack) } else { s.soundtrack }
            &&& u.save_format == if upgradable(v) { SaveFormat::Freeware } else { s.save_format }
        }),
    decreases CURRENT_SETTINGS_VERSION - s.version,
{
    reveal_strlit("en");
    reveal_strlit("English");
    reveal_strlit("Japanese");
    if upgradable(s.version) {
        let (s2, r2) = upgrade_step(s, r);
        lemma_upgrade_step_version(s, r);
        lemma_upgrade_step_locale(s, r);
        lemma_upgrade_step_soundtrack(s, r);
        lemma_upgrade_step_format(s, r);
        law_upgrade_language_and_formats(s2, r2);
        assert(upgraded_locale("en"@) == "en"@);
        if s.version == 20 {
            let l = upgraded_locale(s.locale);
            assert(l == "en"@ || l == "jp"@);
        }
        if s.version == 24 {
            let t = s.soundtrack;
            reveal_strlit("Organya");
            reveal_strlit("Remastered");
            reveal_strlit("New");
            reveal_strlit("Famitracks");
            reveal_strlit("Ridiculon");
            reveal_strlit("organya");
            reveal_strlit("remastered");
            reveal_strlit("new");
            reveal_strlit("famitracks");
            reveal_strlit("ridiculon");
        }
    }
}

/// The language and soundtrack names an upgrade writes, spelled out: a
/// configuration from versions 2 to 6 ends with "en"; from 7 to 20, the
/// names "English" and "Japanese" become "en" and "jp", and any other
/// name becomes "en"; from 21 on, or older than 2, the language is kept.
/// From versions 2 to 24 the soundtracks "Organya", "Remastered", "New",
/// "Famitracks" and "Ridiculon" are lowered to "organya", "remastered",
/// "new", "famitracks" and "ridiculon", and any other name is kept.
pub proof fn law_upgrade_names(s: SettingsView, r: SettingsResets)
    ensures
        2 <= s.version <= 6 ==> spec_upgrade(s, r).0.locale == "en"@,
        7 <= s.version <= 20 && s.locale == "English"@ ==> spec_upgrade(s, r).0.locale == "en"@,
        7 <= s.version <= 20 && s.locale == "Japanese"@ ==> spec_upgrade(s, r).0.locale == "jp"@,
        7 <= s.version <= 20 && s.locale != "English"@ && s.locale != "Japanese"@ ==> spec_upgrade(s, r).0.locale
            == "en"@,
        s.version < 2 || s.version > 20 ==> spec_upgrade(s, r).0.locale == s.locale,
        2 <= s.version <= 24 && s.soundtrack == "Organya"@ ==> spec_upgrade(s, r).0.soundtrack == "organya"@,
        2 <= s.version <= 24 && s.soundtrack == "Remastered"@ ==> spec_upgrade(s, r).0.soundtrack == "remastered"@,
        2 <= s.version <= 24 && s.soundtrack == "New"@ ==> spec_upgrade(s, r).0.soundtrack == "new"@,
        2 <= s.version <= 24 && s.soundtrack == "Famitracks"@ ==> spec_upgrade(s, r).0.soundtrack == "famitracks"@,
        2 <= s.version <= 24 && s.soundtrack == "Ridiculon"@ ==> spec_upgrade(s, r).0.soundtrack == "ridiculon"@,
        s.soundtrack != "Organya"@ && s.soundtrack != "Remastered"@ && s.soundtrack != "New"@ && s.soundtrack
            != "Famitracks"@ && s.soundtrack != "Ridiculon"@ ==> spec_upgrade(s, r).0.soundtrack == s.soundtrack,
        s.version < 2 || s.version > 24 ==> spec_upgrade(s, r).0.soundtrack == s.soundtrack,
        2 <= s.version <= 25 ==> spec_upgrade(s, r).0.save_format == SaveFormat::Freeware,
        s.version < 2 || s.version > 25 ==> spec_upgrade(s, r).0.save_format == s.save_format,
{
    law_upgrade_language_and_formats(s, r);
    assert(CURRENT_SETTINGS_VERSION == 26);
    assert((s.version < 2 || s.version > 25) ==> !upgradable(s.version));
    reveal_strlit("en");
    reveal_strlit("jp");
    reveal_strlit("English");
    reveal_strlit("Japanese");
    reveal_strlit("Organya");
    reveal_strlit("Remastered");
    reveal_strlit("New");
    reveal_strlit("Famitracks");
    reveal_strlit("Ridiculon");
    reveal_strlit("organya");
    reveal_strlit("remastered");
    reveal_strlit("new");
    reveal_strlit("famitracks");
    reveal_strlit("ridiculon");
    assert("English"@.len() == 7 && "Japanese"@.len() == 8);
    assert("Japanese"@ != "English"@);
    assert("Organya"@.len() == 7 && "Remastered"@.len() == 10 && "New"@.len() == 3);
    assert("Famitracks"@.len() == 10 && "Ridiculon"@.len() == 9);
    assert("Remastered"@ != "Organya"@);
    assert("Remastered"@[0] != "Famitracks"@[0]);
    assert("Famitracks"@ != "Organya"@ && "Famitracks"@ != "New"@ && "Famitracks"@ != "Remastered"@);
    assert("Ridiculon"@ != "Organya"@ && "Ridiculon"@ != "New"@ && "Ridiculon"@ != "Remastered"@
        && "Ridiculon"@ != "Famitracks"@);
    assert("New"@ != "Organya"@ && "New"@ != "Remastered"@);
}

/// What one upgrade step does to the switches, the controller types and
/// the resets.
#[verifier::rlimit(60)]
proof fn lemma_upgrade_step_switches(s: SettingsView, r: SettingsResets)
    requires
        upgradable(s.version),
    ensures
        ({
            let (n, q) = upgrade_step(s, r);
            let v = s.version;
            &&& n.light_cone == (v == 2 || s.light_cone)
            &&& n.timing_mode == if v == 3 { TimingMode::_50Hz } else { s.timing_mode }
            &&& n.debug_mode == (v != 8 && s.debug_mode)
            &&& n.player1_controller_type == if v == 11 { ControllerType::Keyboard } else { s.player1_controller_type }
            &&& n.player2_controller_type == if v == 11 { ControllerType::Keyboard } else { s.player2_controller_type }
            &&& n.pause_on_focus_loss == (v == 14 || s.pause_on_focus_loss)
            &&& n.player1_rumble == (v != 17 && s.player1_rumble)
            &&& n.player2_rumble == (v != 17 && s.player2_rumble)
            &&& n.more_rust == (v != 18 && s.more_rust)
            &&& n.discord_rpc == (v == 21 || s.discord_rpc)
            &&& n.display_touch_controls == (v == 22 || s.display_touch_controls)
            &&& n.allow_strafe == (v == 23 || s.allow_strafe)
            &&& q.volumes == (v == 4 || r.volumes)
            &&& q.vsync_mode == (v == 7 || r.vsync_mode)
            &&& q.screen_shake_intensity == (v == 9 || r.screen_shake_intensity)
            &&& q.window_mode == (v == 10 || r.window_mode)
            &&& q.controller_axis_sensitivity == (v == 11 || r.controller_axis_sensitivity)
            &&& q.cutscene_skip_mode == (v == 19 || r.cutscene_skip_mode)
        }),
{
    reveal(upgrade_step);
}

/// What an upgrade from version `v` sets, spelled out: the light cone on
/// (from 2), 50 Hz timing (from up to 3), debug mode off (up to 8),
/// keyboard controls for both players (up to 11), pausing on focus loss
/// (up to 14), rumble off (up to 17), the extra rust off (up to 18), the
/// Discord presence, the touch controls shown and strafing allowed (up to
/// 21, 22 and 23); and the settings put back to defaults elsewhere: the
/// volumes (up to 4), vsync (7), screen shake (9), window mode (10), stick
/// sensitivity (11) and cutscene skipping (19). Whatever a configuration's
/// version has passed is kept, and so is all of a configuration that is
/// not upgraded.
pub proof fn law_upgrade_switches(s: SettingsView, r: SettingsResets)
    ensures
        ({
            let (u, q) = spec_upgrade(s, r);
            let v = s.version;
            let up = upgradable(v);
            &&& u.light_cone == ((up && v <= 2) || s.light_cone)
            &&& u.timing_mode == if up && v <= 3 { TimingMode::_50Hz } else { s.timing_mode }
            &&& u.debug_mode == (!(up && v <= 8) && s.debug_mode)
            &&& u.player1_controller_type == if up && v <= 11 { ControllerType::Keyboard } else { s.player1_controller_type }
            &&& u.player2_controller_type == if up && v <= 11 { ControllerType::Keyboard } else { s.player2_controller_type }
            &&& u.pause_on_focus_loss == ((up && v <= 14) || s.pause_on_focus_loss)
            &&& u.player1_rumble == (!(up && v <= 17) && s.player1_rumble)
            &&& u.player2_rumble == (!(up && v <= 17) && s.player2_rumble)
            &&& u.more_rust == (!(up && v <= 18) && s.more_rust)
            &&& u.discord_rpc == ((up && v <= 21) || s.discord_rpc)
            &&& u.display_touch_controls == ((up && v <= 22) || s.display_touch_controls)
            &&& u.allow_strafe == ((up && v <= 23) || s.allow_strafe)
            &&& q.volumes == ((up && v <= 4) || r.volumes)
            &&& q.vsync_mode == ((up && v <= 7) || r.vsync_mode)
            &&& q.screen_shake_intensity == ((up && v <= 9) || r.screen_shake_intensity)
            &&& q.window_mode == ((up && v <= 10) || r.window_mode)
            &&& q.controller_axis_sensitivity == ((up && v <= 11) || r.controller_axis_sensitivity)
            &&& q.cutscene_skip_mode == ((up && v <= 19) || r.cutscene_skip_mode)
        }),
    decreases CURRENT_SETTINGS_VERSION - s.version,
{
    if upgradable(s.version) {
        let (s2, r2) = upgrade_step(s, r);
        lemma_upgrade_step_version(s, r);
        lemma_upgrade_step_switches(s, r);
        law_upgrade_switches(s2, r2);
    }
}

} // verus!
