//! A saved game: the profile record, its binary layout in the original save
//! formats, and challenge best times.

use vstd::prelude::*;
use crate::bytes::{
    lemma_le16, lemma_le32, lemma_le64, lemma_be32, lemma_be64,
    ByteReader, u16_le, u32_le, u32_be, u64_le, u64_be,
    be32, be64, le16, le32, le64, zeros, push_u16_le, push_u32_be, push_u32_le, push_u64_be, push_u64_le,
    push_u8, push_zeros, push_slice,
};
use crate::common::{TimingMode, spec_tps, spec_timing_from_tps, Direction, direction_index, direction_from_index, lemma_direction_index_roundtrip};
use vstd::seq_lib::lemma_concat_associative;
use crate::save_container::{SaveFormat, spec_is_csp, spec_is_switch, spec_profile_size};

verus! {

pub const SIG_DO041115: u64 = 0x446f303431313135;
pub const SIG_DO041220: u64 = 0x446f303431323230;
pub const SIG_FLAG: u32 = 0x464c4147;

/// One weapon slot of a profile.
#[derive(Clone, Copy, Debug, PartialEq, Eq, Structural)]
pub struct WeaponData {
    pub weapon_id: u32,
    pub level: u32,
    pub exp: u32,
    pub max_ammo: u32,
    pub ammo: u32,
}

/// One teleporter destination of a profile.
#[derive(Clone, Copy, Debug, PartialEq, Eq, Structural)]
pub struct TeleporterSlotData {
    pub index: u32,
    pub event_num: u32,
}

/// An inventory entry: item id and amount.
#[derive(Clone, Copy, Debug, PartialEq, Eq, Structural)]
pub struct Item(pub u16, pub u16);

pub open spec fn empty_weapon() -> WeaponData {
    WeaponData { weapon_id: 0, level: 0, exp: 0, max_ammo: 0, ammo: 0 }
}

impl WeaponData {
    /// An empty slot.
    pub fn new() -> (res: WeaponData)
        ensures
            res == empty_weapon(),
    {
        WeaponData { weapon_id: 0, level: 0, exp: 0, max_ammo: 0, ammo: 0 }
    }
}

impl TeleporterSlotData {
    /// An empty slot.
    pub fn new() -> (res: TeleporterSlotData)
        ensures
            res == (TeleporterSlotData { index: 0, event_num: 0 }),
    {
        TeleporterSlotData { index: 0, event_num: 0 }
    }
}

/// Everything a save slot holds.
#[derive(Clone, Copy, Debug)]
pub struct GameProfile {
    pub current_map: u32,
    pub current_song: u32,
    pub pos_x: i32,
    pub pos_y: i32,
    pub direction: Direction,
    pub max_life: u16,
    pub max_life_p2: u16,
    pub stars: u16,
    pub life: u16,
    pub life_p2: u16,
    pub current_weapon: u32,
    pub current_item: u32,
    pub equipment: u32,
    pub control_mode: u32,
    pub counter: u32,
    pub weapon_data: [WeaponData; 8],
    pub weapon_data_p2: Option<[WeaponData; 8]>,
    pub items: [Item; 32],
    pub teleporter_slots: [TeleporterSlotData; 8],
    pub map_flags: [u8; 128],
    pub flags: [u8; 1000],
    pub timestamp: u64,
    pub difficulty: u8,
    /// Cave Story+ only.
    pub eggfish_killed: bool,
}

/// The contents of a profile, with its arrays as sequences.
pub struct ProfileView {
    pub current_map: u32,
    pub current_song: u32,
    pub pos_x: i32,
    pub pos_y: i32,
    pub direction: Direction,
    pub max_life: u16,
    pub max_life_p2: u16,
    pub stars: u16,
    pub life: u16,
    pub life_p2: u16,
    pub current_weapon: u32,
    pub current_item: u32,
    pub equipment: u32,
    pub control_mode: u32,
    pub counter: u32,
    pub weapon_data: Seq<WeaponData>,
    pub weapon_data_p2: Option<Seq<WeaponData>>,
    pub items: Seq<Item>,
    pub teleporter_slots: Seq<TeleporterSlotData>,
    pub map_flags: Seq<u8>,
    pub flags: Seq<u8>,
    pub timestamp: u64,
    pub difficulty: u8,
    pub eggfish_killed: bool,
}

impl View for GameProfile {
    type V = ProfileView;

    open spec fn view(&self) -> ProfileView {
        ProfileView {
            current_map: self.current_map,
            current_song: self.current_song,
            pos_x: self.pos_x,
            pos_y: self.pos_y,
            direction: self.direction,
            max_life: self.max_life,
            max_life_p2: self.max_life_p2,
            stars: self.stars,
            life: self.life,
            life_p2: self.life_p2,
            current_weapon: self.current_weapon,
            current_item: self.current_item,
            equipment: self.equipment,
            control_mode: self.control_mode,
            counter: self.counter,
            weapon_data: self.weapon_data@,
            weapon_data_p2: match self.weapon_data_p2 {
                Some(w) => Some(w@),
                None => None,
            },
            items: self.items@,
            teleporter_slots: self.teleporter_slots@,
            map_flags: self.map_flags@,
            flags: self.flags@,
            timestamp: self.timestamp,
            difficulty: self.difficulty,
            eggfish_killed: self.eggfish_killed,
        }
    }
}

/// The array lengths of a profile.
pub open spec fn profile_view_wf(v: ProfileView) -> bool {
    &&& v.weapon_data.len() == 8
    &&& (v.weapon_data_p2 matches Some(w) ==> w.len() == 8)
    &&& v.items.len() == 32
    &&& v.teleporter_slots.len() == 8
    &&& v.map_flags.len() == 128
    &&& v.flags.len() == 1000
}

pub proof fn lemma_profile_view_wf(p: GameProfile)
    ensures
        profile_view_wf(p@),
{
}

/// The contents of an empty profile.
pub open spec fn default_profile_view() -> ProfileView {
    ProfileView {
        current_map: 0,
        current_song: 0,
        pos_x: 0,
        pos_y: 0,
        direction: Direction::Left,
        max_life: 0,
        max_life_p2: 0,
        stars: 0,
        life: 0,
        life_p2: 0,
        current_weapon: 0,
        current_item: 0,
        equipment: 0,
        control_mode: 0,
        counter: 0,
        weapon_data: Seq::new(8, |i: int| empty_weapon()),
        weapon_data_p2: None,
        items: Seq::new(32, |i: int| Item(0, 0)),
        teleporter_slots: Seq::new(8, |i: int| TeleporterSlotData { index: 0, event_num: 0 }),
        map_flags: Seq::new(128, |i: int| 0u8),
        flags: Seq::new(1000, |i: int| 0u8),
        timestamp: 0,
        difficulty: 0,
        eggfish_killed: false,
    }
}

pub open spec fn spec_profile_is_empty(v: ProfileView) -> bool {
    v.timestamp == 0 && v.current_map == 0
}

// ---------------------------------------------------------------------------
// Encoding

/// Player 2's maximum life as the Switch layout stores it.
pub open spec fn stored_max_life_p2(v: ProfileView) -> u16 {
    if v.max_life_p2 != 0 { v.max_life_p2 } else { v.max_life }
}

/// Player 2's life as the Switch layout stores it.
pub open spec fn stored_life_p2(v: ProfileView) -> u16 {
    if v.life_p2 != 0 { v.life_p2 } else { v.life }
}

/// The fixed header of a profile record.
pub open spec fn enc_header(v: ProfileView, sw: bool) -> Seq<u8> {
    be64(SIG_DO041220) + le32(v.current_map) + le32(v.current_song) + le32(v.pos_x as u32) + le32(v.pos_y as u32)
        + le32(direction_index(v.direction)) + le16(v.max_life) + (if sw { le16(stored_max_life_p2(v)) } else {
        Seq::empty()
    }) + le16(v.stars) + le16(v.life) + (if sw { le16(stored_life_p2(v)) } else { Seq::empty() }) + le16(0)
        + le32(v.current_weapon) + le32(v.current_item) + le32(v.equipment) + le32(v.control_mode) + le32(
        v.counter,
    )
}

/// One weapon record: Switch keeps id and capacity in a separate table.
pub open spec fn enc_weapon(w: WeaponData, sw: bool) -> Seq<u8> {
    if sw {
        le32(w.level) + le32(w.exp) + le32(w.ammo)
    } else {
        le32(w.weapon_id) + le32(w.level) + le32(w.exp) + le32(w.max_ammo) + le32(w.ammo)
    }
}

pub open spec fn enc_weapons(ws: Seq<WeaponData>, sw: bool) -> Seq<u8>
    decreases ws.len(),
{
    if ws.len() == 0 { Seq::empty() } else { enc_weapons(ws.drop_last(), sw) + enc_weapon(ws.last(), sw) }
}

/// The Switch table of weapon ids and capacities.
pub open spec fn enc_weapon_ids(ws: Seq<WeaponData>) -> Seq<u8>
    decreases ws.len(),
{
    if ws.len() == 0 {
        Seq::empty()
    } else {
        enc_weapon_ids(ws.drop_last()) + le32(ws.last().weapon_id) + le32(ws.last().max_ammo)
    }
}

/// Item records; only the Switch layout keeps amounts.
pub open spec fn enc_items(items: Seq<Item>, sw: bool) -> Seq<u8>
    decreases items.len(),
{
    if items.len() == 0 {
        Seq::empty()
    } else {
        enc_items(items.drop_last(), sw) + le16(items.last().0) + le16(if sw { items.last().1 } else { 0 })
    }
}

pub open spec fn enc_slots(slots: Seq<TeleporterSlotData>) -> Seq<u8>
    decreases slots.len(),
{
    if slots.len() == 0 {
        Seq::empty()
    } else {
        enc_slots(slots.drop_last()) + le32(slots.last().index) + le32(slots.last().event_num)
    }
}

/// Player 2's weapons as the Switch layout stores them.
pub open spec fn stored_weapons_p2(v: ProfileView) -> Seq<WeaponData> {
    match v.weapon_data_p2 {
        Some(w) => w,
        None => Seq::new(8, |i: int| empty_weapon()),
    }
}

/// The trailing fields of a record.
pub open spec fn enc_tail(v: ProfileView, format: SaveFormat) -> Seq<u8> {
    (if !spec_is_switch(format) { le32(0) } else { Seq::empty() }) + le64(v.timestamp) + seq![v.difficulty] + (
    if spec_is_csp(format) { zeros(15) } else { Seq::empty() })
}

/// A full, non-blank profile record.
pub open spec fn enc_record(v: ProfileView, format: SaveFormat) -> Seq<u8> {
    let sw = spec_is_switch(format);
    enc_header(v, sw) + (if sw { enc_weapon_ids(v.weapon_data) } else { Seq::empty() }) + enc_weapons(
        v.weapon_data,
        sw,
    ) + (if sw { enc_weapons(stored_weapons_p2(v), sw) } else { Seq::empty() }) + enc_items(v.items, sw)
        + enc_slots(v.teleporter_slots) + zeros(0x80) + be32(SIG_FLAG) + v.flags + enc_tail(v, format)
}

/// The bytes a profile is saved as: an empty profile in a Cave Story+
/// layout is written as a blank record of zeros.
pub open spec fn spec_encode_profile(v: ProfileView, format: SaveFormat) -> Seq<u8> {
    if spec_profile_is_empty(v) && spec_is_csp(format) {
        zeros(spec_profile_size(format))
    } else {
        enc_record(v, format)
    }
}

impl GameProfile {
    /// An empty profile.
    pub fn new() -> (res: GameProfile)
        ensures
            res@ == default_profile_view(),
    {
        let w = WeaponData::new();
        let r = GameProfile {
            current_map: 0,
            current_song: 0,
            pos_x: 0,
            pos_y: 0,
            direction: Direction::Left,
            max_life: 0,
            max_life_p2: 0,
            stars: 0,
            life: 0,
            life_p2: 0,
            current_weapon: 0,
            current_item: 0,
            equipment: 0,
            control_mode: 0,
            counter: 0,
            weapon_data: [w; 8],
            weapon_data_p2: None,
            items: [Item(0, 0); 32],
            teleporter_slots: [TeleporterSlotData::new(); 8],
            map_flags: [0u8; 128],
            flags: [0u8; 1000],
            timestamp: 0,
            difficulty: 0,
            eggfish_killed: false,
        };
        assert(r@.weapon_data =~= default_profile_view().weapon_data);
        assert(r@.items =~= default_profile_view().items);
        assert(r@.teleporter_slots =~= default_profile_view().teleporter_slots);
        assert(r@.map_flags =~= default_profile_view().map_flags);
        assert(r@.flags =~= default_profile_view().flags);
        r
    }

    /// Whether the profile was never saved: no timestamp and map 0.
    pub fn is_empty(&self) -> (res: bool)
        ensures
            res == spec_profile_is_empty(self@),
    {
        self.timestamp == 0 && self.current_map == 0
    }

    /// Appends the profile's record in `format` to `data`.
    pub fn write_save(&self, data: &mut Vec<u8>, format: &SaveFormat)
        ensures
            final(data)@ == old(data)@ + spec_encode_profile(self@, *format),
    {
        if self.is_empty() && format.is_csp() {
            push_zeros(data, format.profile_size());
            return;
        }
        let sw = format.is_switch();
        let ghost v = self@;
        let ghost start = data@;
        write_header(data, self, sw);
        let ghost h = data@;
        if sw {
            write_weapon_ids(data, &self.weapon_data);
        }
        assert(data@ =~= h + (if sw { enc_weapon_ids(v.weapon_data) } else { Seq::empty() }));
        let ghost h1 = data@;
        write_weapons(data, &self.weapon_data, sw);
        let ghost w2 = data@;
        if sw {
            let p2 = match self.weapon_data_p2 {
                Some(w) => w,
                None => [WeaponData::new(); 8],
            };
            assert(p2@ =~= stored_weapons_p2(v));
            write_weapons(data, &p2, sw);
        }
        assert(data@ =~= w2 + (if sw { enc_weapons(stored_weapons_p2(v), sw) } else { Seq::empty() }));
        let ghost w3 = data@;
        write_items(data, &self.items, sw);
        write_slots(data, &self.teleporter_slots);
        push_zeros(data, 0x80);
        push_u32_be(data, SIG_FLAG);
        push_slice(data, self.flags.as_slice());
        let ghost t0 = data@;
        write_tail(data, self, format);
        proof {
            let a = enc_header(v, sw);
            let b = if sw { enc_weapon_ids(v.weapon_data) } else { Seq::empty() };
            let c = enc_weapons(v.weapon_data, sw);
            let d = if sw { enc_weapons(stored_weapons_p2(v), sw) } else { Seq::empty() };
            let e1 = enc_items(v.items, sw);
            let e2 = enc_slots(v.teleporter_slots);
            let e3 = zeros(0x80);
            let e4 = be32(SIG_FLAG);
            let e5 = v.flags;
            let f = enc_tail(v, *format);
            assert(v.flags == self.flags@);
            lemma_concat_associative(start, a, b);
            lemma_concat_associative(start, a + b, c);
            lemma_concat_associative(start, a + b + c, d);
            lemma_concat_associative(start, a + b + c + d, e1);
            lemma_concat_associative(start, a + b + c + d + e1, e2);
            lemma_concat_associative(start, a + b + c + d + e1 + e2, e3);
            lemma_concat_associative(start, a + b + c + d + e1 + e2 + e3, e4);
            lemma_concat_associative(start, a + b + c + d + e1 + e2 + e3 + e4, e5);
            lemma_concat_associative(start, a + b + c + d + e1 + e2 + e3 + e4 + e5, f);
        }
    }
}

fn write_header(data: &mut Vec<u8>, p: &GameProfile, sw: bool)
    ensures
        final(data)@ == old(data)@ + enc_header(p@, sw),
{
    let ghost v = p@;
    let ghost start = data@;
    push_u64_be(data, SIG_DO041220);
    assert(data@ == start + be64(SIG_DO041220));
    let ghost acc = be64(SIG_DO041220);
    push_u32_le(data, p.current_map);
    proof { lemma_concat_associative(start, acc, le32(v.current_map)); acc = acc + le32(v.current_map); }
    push_u32_le(data, p.current_song);
    proof { lemma_concat_associative(start, acc, le32(v.current_song)); acc = acc + le32(v.current_song); }
    push_u32_le(data, p.pos_x as u32);
    proof { lemma_concat_associative(start, acc, le32(v.pos_x as u32)); acc = acc + le32(v.pos_x as u32); }
    push_u32_le(data, p.pos_y as u32);
    proof { lemma_concat_associative(start, acc, le32(v.pos_y as u32)); acc = acc + le32(v.pos_y as u32); }
    push_u32_le(data, p.direction.index());
    proof {
        lemma_concat_associative(start, acc, le32(direction_index(v.direction)));
        acc = acc + le32(direction_index(v.direction));
    }
    push_u16_le(data, p.max_life);
    proof { lemma_concat_associative(start, acc, le16(v.max_life)); acc = acc + le16(v.max_life); }
    let ghost m1 = data@;
    if sw {
        let max_life_p2 = if p.max_life_p2 != 0 { p.max_life_p2 } else { p.max_life };
        push_u16_le(data, max_life_p2);
    }
    let ghost piece = if sw { le16(stored_max_life_p2(v)) } else { Seq::empty() };
    proof {
        if !sw {
            assert(data@ =~= m1 + piece);
        }
        lemma_concat_associative(start, acc, piece);
        acc = acc + piece;
    }
    push_u16_le(data, p.stars);
    proof { lemma_concat_associative(start, acc, le16(v.stars)); acc = acc + le16(v.stars); }
    push_u16_le(data, p.life);
    proof { lemma_concat_associative(start, acc, le16(v.life)); acc = acc + le16(v.life); }
    let ghost m2 = data@;
    if sw {
        let life_p2 = if p.life_p2 != 0 { p.life_p2 } else { p.life };
        push_u16_le(data, life_p2);
    }
    let ghost piece2 = if sw { le16(stored_life_p2(v)) } else { Seq::empty() };
    proof {
        if !sw {
            assert(data@ =~= m2 + piece2);
        }
        lemma_concat_associative(start, acc, piece2);
        acc = acc + piece2;
    }
    push_u16_le(data, 0);
    proof { lemma_concat_associative(start, acc, le16(0)); acc = acc + le16(0); }
    push_u32_le(data, p.current_weapon);
    proof { lemma_concat_associative(start, acc, le32(v.current_weapon)); acc = acc + le32(v.current_weapon); }
    push_u32_le(data, p.current_item);
    proof { lemma_concat_associative(start, acc, le32(v.current_item)); acc = acc + le32(v.current_item); }
    push_u32_le(data, p.equipment);
    proof { lemma_concat_associative(start, acc, le32(v.equipment)); acc = acc + le32(v.equipment); }
    push_u32_le(data, p.control_mode);
    proof { lemma_concat_associative(start, acc, le32(v.control_mode)); acc = acc + le32(v.control_mode); }
    push_u32_le(data, p.counter);
    proof { lemma_concat_associative(start, acc, le32(v.counter)); acc = acc + le32(v.counter); }
    assert(acc == enc_header(v, sw));
}

fn write_tail(data: &mut Vec<u8>, p: &GameProfile, format: &SaveFormat)
    ensures
        final(data)@ == old(data)@ + enc_tail(p@, *format),
{
    if !format.is_switch() {
        push_u32_le(data, 0);
    }
    push_u64_le(data, p.timestamp);
    push_u8(data, p.difficulty);
    if format.is_csp() {
        push_zeros(data, 15);
    }
    assert(data@ =~= old(data)@ + enc_tail(p@, *format));
}

fn write_weapon_ids(data: &mut Vec<u8>, ws: &[WeaponData; 8])
    ensures
        final(data)@ == old(data)@ + enc_weapon_ids(ws@),
{
    let mut i: usize = 0;
    while i < 8
        invariant
            i <= 8,
            data@ == old(data)@ + enc_weapon_ids(ws@.take(i as int)),
        decreases 8 - i,
    {
        push_u32_le(data, ws[i].weapon_id);
        push_u32_le(data, ws[i].max_ammo);
        proof {
            assert(ws@.take(i + 1).drop_last() =~= ws@.take(i as int));
        }
        i = i + 1;
    }
    assert(ws@.take(8) =~= ws@);
}

fn write_weapon(data: &mut Vec<u8>, w: &WeaponData, sw: bool)
    ensures
        final(data)@ == old(data)@ + enc_weapon(*w, sw),
{
    if sw {
        push_u32_le(data, w.level);
        push_u32_le(data, w.exp);
        push_u32_le(data, w.ammo);
    } else {
        push_u32_le(data, w.weapon_id);
        push_u32_le(data, w.level);
        push_u32_le(data, w.exp);
        push_u32_le(data, w.max_ammo);
        push_u32_le(data, w.ammo);
    }
    assert(data@ =~= old(data)@ + enc_weapon(*w, sw));
}

fn write_weapons(data: &mut Vec<u8>, ws: &[WeaponData; 8], sw: bool)
    ensures
        final(data)@ == old(data)@ + enc_weapons(ws@, sw),
{
    let mut i: usize = 0;
    while i < 8
        invariant
            i <= 8,
            data@ == old(data)@ + enc_weapons(ws@.take(i as int), sw),
        decreases 8 - i,
    {
        write_weapon(data, &ws[i], sw);
        proof {
            assert(ws@.take(i + 1).drop_last() =~= ws@.take(i as int));
        }
        i = i + 1;
    }
    assert(ws@.take(8) =~= ws@);
}

fn write_items(data: &mut Vec<u8>, items: &[Item; 32], sw: bool)
    ensures
        final(data)@ == old(data)@ + enc_items(items@, sw),
{
    let mut i: usize = 0;
    while i < 32
        invariant
            i <= 32,
            data@ == old(data)@ + enc_items(items@.take(i as int), sw),
        decreases 32 - i,
    {
        let amount = if !sw { 0 } else { items[i].1 };
        push_u16_le(data, items[i].0);
        push_u16_le(data, amount);
        proof {
            assert(items@.take(i + 1).drop_last() =~= items@.take(i as int));
        }
        i = i + 1;
    }
    assert(items@.take(32) =~= items@);
}

fn write_slots(data: &mut Vec<u8>, slots: &[TeleporterSlotData; 8])
    ensures
        final(data)@ == old(data)@ + enc_slots(slots@),
{
    let mut i: usize = 0;
    while i < 8
        invariant
            i <= 8,
            data@ == old(data)@ + enc_slots(slots@.take(i as int)),
        decreases 8 - i,
    {
        push_u32_le(data, slots[i].index);
        push_u32_le(data, slots[i].event_num);
        proof {
            assert(slots@.take(i + 1).drop_last() =~= slots@.take(i as int));
        }
        i = i + 1;
    }
    assert(slots@.take(8) =~= slots@);
}

// ---------------------------------------------------------------------------
// Decoding

/// Why a profile record could not be read.
#[derive(Clone, Copy, Debug, PartialEq, Eq, Structural)]
pub enum SaveError {
    /// The data ended inside a field that must be present.
    UnexpectedEof,
    /// The record does not start with a profile signature.
    InvalidMagic,
    /// The flag block is not preceded by its signature.
    InvalidFlagSignature,
}

pub open spec fn off_stars(sw: bool) -> int { if sw { 32 } else { 30 } }
pub open spec fn off_life(sw: bool) -> int { if sw { 34 } else { 32 } }
pub open spec fn off_current_weapon(sw: bool) -> int { if sw { 40 } else { 36 } }
pub open spec fn off_weapons(sw: bool) -> int { if sw { 124 } else { 56 } }
pub open spec fn weapon_size(sw: bool) -> int { if sw { 12 } else { 20 } }
pub open spec fn off_items(sw: bool) -> int { if sw { 316 } else { 216 } }
pub open spec fn off_slots(sw: bool) -> int { off_items(sw) + 128 }
pub open spec fn off_map_flags(sw: bool) -> int { off_slots(sw) + 64 }
pub open spec fn off_flag_sig(sw: bool) -> int { off_map_flags(sw) + 128 }
pub open spec fn off_flags(sw: bool) -> int { off_flag_sig(sw) + 4 }
pub open spec fn off_tail(sw: bool) -> int { off_flags(sw) + 1000 }

/// Weapon `i` of a record starting at `p`.
pub open spec fn weapon_at(d: Seq<u8>, p: int, i: int, sw: bool) -> WeaponData {
    if sw {
        let b = p + 124 + 12 * i;
        WeaponData {
            weapon_id: u32_le(d, p + 60 + 8 * i),
            level: u32_le(d, b),
            exp: u32_le(d, b + 4),
            max_ammo: u32_le(d, p + 64 + 8 * i),
            ammo: u32_le(d, b + 8),
        }
    } else {
        let b = p + 56 + 20 * i;
        WeaponData {
            weapon_id: u32_le(d, b),
            level: u32_le(d, b + 4),
            exp: u32_le(d, b + 8),
            max_ammo: u32_le(d, b + 12),
            ammo: u32_le(d, b + 16),
        }
    }
}

/// Player 2's weapon `i` of a Switch record: only level, experience and
/// ammunition are stored, the rest stays zero.
pub open spec fn weapon_p2_at(d: Seq<u8>, p: int, i: int) -> WeaponData {
    let b = p + 220 + 12 * i;
    WeaponData { weapon_id: 0, level: u32_le(d, b), exp: u32_le(d, b + 4), max_ammo: 0, ammo: u32_le(d, b + 8) }
}

/// Item `i`; layouts other than Switch store no amounts and read one more.
pub open spec fn item_at(d: Seq<u8>, p: int, i: int, sw: bool) -> Item {
    let b = p + off_items(sw) + 4 * i;
    let amount = u16_le(d, b + 2);
    Item(u16_le(d, b), if sw { amount } else { vstd::wrapping::u16_specs::wrapping_add(amount, 1) })
}

pub open spec fn slot_at(d: Seq<u8>, p: int, i: int, sw: bool) -> TeleporterSlotData {
    let b = p + off_slots(sw) + 8 * i;
    TeleporterSlotData { index: u32_le(d, b), event_num: u32_le(d, b + 4) }
}

/// Position after the unused word that non-Switch layouts keep before the
/// timestamp; a short read moves to the end.
pub open spec fn tail_pos1(len: int, p: int, sw: bool) -> int {
    let p0 = p + off_tail(sw);
    if sw { p0 } else if p0 + 4 <= len { p0 + 4 } else { len }
}

pub open spec fn tail_pos2(len: int, p: int, sw: bool) -> int {
    let p1 = tail_pos1(len, p, sw);
    if p1 + 8 <= len { p1 + 8 } else { len }
}

pub open spec fn tail_pos3(len: int, p: int, sw: bool) -> int {
    let p2 = tail_pos2(len, p, sw);
    if p2 + 1 <= len { p2 + 1 } else { len }
}

/// Where reading a full record ends: Cave Story+ layouts read up to 15
/// more bytes, as many as are left.
pub open spec fn record_end(len: int, p: int, format: SaveFormat) -> int {
    let p3 = tail_pos3(len, p, spec_is_switch(format));
    if spec_is_csp(format) { if p3 + 15 <= len { p3 + 15 } else { len } } else { p3 }
}

/// The profile a full record starting at `p` holds.
pub open spec fn record_view(d: Seq<u8>, p: int, format: SaveFormat) -> ProfileView {
    let sw = spec_is_switch(format);
    let len = d.len() as int;
    let p1 = tail_pos1(len, p, sw);
    let p2 = tail_pos2(len, p, sw);
    let life_at = p + off_life(sw);
    ProfileView {
        current_map: u32_le(d, p + 8),
        current_song: u32_le(d, p + 12),
        pos_x: u32_le(d, p + 16) as i32,
        pos_y: u32_le(d, p + 20) as i32,
        direction: match direction_from_index(u32_le(d, p + 24) as int) {
            Some(dir) => dir,
            None => Direction::Left,
        },
        max_life: u16_le(d, p + 28),
        max_life_p2: if sw { u16_le(d, p + 30) } else { u16_le(d, p + 28) },
        stars: u16_le(d, p + off_stars(sw)),
        life: u16_le(d, life_at),
        life_p2: if sw { u16_le(d, p + 36) } else { u16_le(d, life_at) },
        current_weapon: u32_le(d, p + off_current_weapon(sw)),
        current_item: u32_le(d, p + off_current_weapon(sw) + 4),
        equipment: u32_le(d, p + off_current_weapon(sw) + 8),
        control_mode: u32_le(d, p + off_current_weapon(sw) + 12),
        counter: u32_le(d, p + off_current_weapon(sw) + 16),
        weapon_data: Seq::new(8, |i: int| weapon_at(d, p, i, sw)),
        weapon_data_p2: if sw { Some(Seq::new(8, |i: int| weapon_p2_at(d, p, i))) } else { None },
        items: Seq::new(32, |i: int| item_at(d, p, i, sw)),
        teleporter_slots: Seq::new(8, |i: int| slot_at(d, p, i, sw)),
        map_flags: d.subrange(p + off_map_flags(sw), p + off_map_flags(sw) + 128),
        flags: d.subrange(p + off_flags(sw), p + off_flags(sw) + 1000),
        timestamp: if p1 + 8 <= len { u64_le(d, p1) } else { 0 },
        difficulty: if p2 + 1 <= len { d[p2] } else { 0 },
        eggfish_killed: false,
    }
}

/// Reading a profile record that starts at `p` in `d`: what it gives and
/// where reading stops.
pub open spec fn spec_decode_profile(d: Seq<u8>, p: int, format: SaveFormat) -> (
    Result<ProfileView, SaveError>,
    int,
) {
    let len = d.len() as int;
    let sw = spec_is_switch(format);
    if p + 8 > len {
        (Err(SaveError::UnexpectedEof), len)
    } else {
        let magic = u64_be(d, p);
        if magic == 0 && spec_is_csp(format) {
            if p + spec_profile_size(format) > len {
                (Err(SaveError::UnexpectedEof), len)
            } else {
                (Ok(default_profile_view()), p + spec_profile_size(format))
            }
        } else if magic != SIG_DO041220 && magic != SIG_DO041115 {
            (Err(SaveError::InvalidMagic), p + 8)
        } else if p + off_flag_sig(sw) + 4 > len {
            (Err(SaveError::UnexpectedEof), len)
        } else if u32_be(d, p + off_flag_sig(sw)) != SIG_FLAG {
            (Err(SaveError::InvalidFlagSignature), p + off_flags(sw))
        } else if p + off_tail(sw) > len {
            (Err(SaveError::UnexpectedEof), len)
        } else {
            (Ok(record_view(d, p, format)), record_end(len, p, format))
        }
    }
}

impl GameProfile {
    /// Reads one profile record in `format` from the reader's position.
    pub fn load_from_save(data: &mut ByteReader, format: SaveFormat) -> (res: Result<GameProfile, SaveError>)
        requires
            old(data).wf(),
        ensures
            final(data).wf(),
            final(data).data == old(data).data,
            ({
                let (r, end) = spec_decode_profile(old(data).data@, old(data).pos as int, format);
                &&& final(data).pos == end
                &&& match r {
                    Ok(v) => res matches Ok(q) && q@ == v,
                    Err(e) => res == Err::<GameProfile, SaveError>(e),
                }
            }),
    {
        let ghost d = data.data@;
        let ghost p = data.pos as int;
        let sw = format.is_switch();
        let magic = match data.read_u64_be() {
            Some(m) => m,
            None => {
                return Err(SaveError::UnexpectedEof);
            },
        };
        if magic == 0 && format.is_csp() {
            if !data.skip_exact(format.profile_size() - 8) {
                return Err(SaveError::UnexpectedEof);
            }
            return Ok(GameProfile::new());
        } else if magic != SIG_DO041220 && magic != SIG_DO041115 {
            return Err(SaveError::InvalidMagic);
        }
        let h = match read_header(data, sw, Ghost(p), Ghost(format)) {
            Some(h) => h,
            None => {
                return Err(SaveError::UnexpectedEof);
            },
        };
        let mut weapon_data = [WeaponData::new(); 8];
        if sw {
            if !read_weapon_ids(data, &mut weapon_data, Ghost(p)) {
                return Err(SaveError::UnexpectedEof);
            }
        }
        if !read_weapons(data, &mut weapon_data, sw, Ghost(p + off_weapons(sw))) {
            return Err(SaveError::UnexpectedEof);
        }
        let ghost view = record_view(d, p, format);
        assert(weapon_data@ =~= view.weapon_data);
        let weapon_data_p2 = if sw {
            let mut w2 = [WeaponData::new(); 8];
            if !read_weapons(data, &mut w2, sw, Ghost(p + 220)) {
                return Err(SaveError::UnexpectedEof);
            }
            assert(w2@ =~= Seq::new(8, |i: int| weapon_p2_at(d, p, i)));
            Some(w2)
        } else {
            None
        };
        let items = match read_items(data, sw, Ghost(p)) {
            Some(x) => x,
            None => {
                return Err(SaveError::UnexpectedEof);
            },
        };
        assert(items@ =~= view.items);
        let teleporter_slots = match read_slots(data, sw, Ghost(p)) {
            Some(x) => x,
            None => {
                return Err(SaveError::UnexpectedEof);
            },
        };
        assert(teleporter_slots@ =~= view.teleporter_slots);
        let map_flags = match read_128(data) {
            Some(x) => x,
            None => {
                return Err(SaveError::UnexpectedEof);
            },
        };
        let sig = match data.read_u32_be() {
            Some(x) => x,
            None => {
                return Err(SaveError::UnexpectedEof);
            },
        };
        if sig != SIG_FLAG {
            return Err(SaveError::InvalidFlagSignature);
        }
        let flags = match read_1000(data) {
            Some(x) => x,
            None => {
                return Err(SaveError::UnexpectedEof);
            },
        };
        if !sw {
            let _ = data.read_u32_le();
        }
        let timestamp = match data.read_u64_le() {
            Some(x) => x,
            None => 0,
        };
        let difficulty = match data.read_u8() {
            Some(x) => x,
            None => 0,
        };
        if format.is_csp() {
            let _ = data.skip_up_to(15);
        }
        let profile = GameProfile {
            current_map: h.current_map,
            current_song: h.current_song,
            pos_x: h.pos_x,
            pos_y: h.pos_y,
            direction: h.direction,
            max_life: h.max_life,
            max_life_p2: h.max_life_p2,
            stars: h.stars,
            life: h.life,
            life_p2: h.life_p2,
            current_weapon: h.current_weapon,
            current_item: h.current_item,
            equipment: h.equipment,
            control_mode: h.control_mode,
            counter: h.counter,
            weapon_data,
            weapon_data_p2,
            items,
            teleporter_slots,
            map_flags,
            flags,
            timestamp,
            difficulty,
            eggfish_killed: false,
        };
        assert(profile@ =~= view);
        Ok(profile)
    }
}

// ---------------------------------------------------------------------------
// Reading back what was written

proof fn lemma_enc_weapons_len(ws: Seq<WeaponData>, sw: bool)
    ensures
        enc_weapons(ws, sw).len() == weapon_size(sw) * ws.len(),
    decreases ws.len(),
{
    if ws.len() > 0 {
        lemma_enc_weapons_len(ws.drop_last(), sw);
        let w = weapon_size(sw);
        let n = ws.len() as int;
        assert(w * n == w * (n - 1) + w) by (nonlinear_arith);
    }
}

proof fn lemma_enc_weapons_at(ws: Seq<WeaponData>, sw: bool, i: int)
    requires
        0 <= i < ws.len(),
    ensures
        enc_weapons(ws, sw).subrange(weapon_size(sw) * i, weapon_size(sw) * i + weapon_size(sw)) == enc_weapon(
            ws[i],
            sw,
        ),
    decreases ws.len(),
{
    let w = weapon_size(sw);
    let pre = enc_weapons(ws.drop_last(), sw);
    lemma_enc_weapons_len(ws.drop_last(), sw);
    if i < ws.len() - 1 {
        lemma_enc_weapons_at(ws.drop_last(), sw, i);
        assert(enc_weapons(ws, sw).subrange(w * i, w * i + w) =~= pre.subrange(w * i, w * i + w));
    } else {
        assert(enc_weapons(ws, sw).subrange(w * i, w * i + w) =~= enc_weapon(ws.last(), sw));
    }
}

proof fn lemma_enc_ids_len(ws: Seq<WeaponData>)
    ensures
        enc_weapon_ids(ws).len() == 8 * ws.len(),
    decreases ws.len(),
{
    if ws.len() > 0 {
        lemma_enc_ids_len(ws.drop_last());
    }
}

proof fn lemma_enc_ids_at(ws: Seq<WeaponData>, i: int)
    requires
        0 <= i < ws.len(),
    ensures
        enc_weapon_ids(ws).subrange(8 * i, 8 * i + 4) == le32(ws[i].weapon_id),
        enc_weapon_ids(ws).subrange(8 * i + 4, 8 * i + 8) == le32(ws[i].max_ammo),
    decreases ws.len(),
{
    let pre = enc_weapon_ids(ws.drop_last());
    lemma_enc_ids_len(ws.drop_last());
    if i < ws.len() - 1 {
        lemma_enc_ids_at(ws.drop_last(), i);
        assert(enc_weapon_ids(ws).subrange(8 * i, 8 * i + 4) =~= pre.subrange(8 * i, 8 * i + 4));
        assert(enc_weapon_ids(ws).subrange(8 * i + 4, 8 * i + 8) =~= pre.subrange(8 * i + 4, 8 * i + 8));
    } else {
        assert(enc_weapon_ids(ws).subrange(8 * i, 8 * i + 4) =~= le32(ws.last().weapon_id));
        assert(enc_weapon_ids(ws).subrange(8 * i + 4, 8 * i + 8) =~= le32(ws.last().max_ammo));
    }
}

proof fn lemma_enc_items_len(items: Seq<Item>, sw: bool)
    ensures
        enc_items(items, sw).len() == 4 * items.len(),
    decreases items.len(),
{
    if items.len() > 0 {
        lemma_enc_items_len(items.drop_last(), sw);
    }
}

proof fn lemma_enc_items_at(items: Seq<Item>, sw: bool, i: int)
    requires
        0 <= i < items.len(),
    ensures
        enc_items(items, sw).subrange(4 * i, 4 * i + 2) == le16(items[i].0),
        enc_items(items, sw).subrange(4 * i + 2, 4 * i + 4) == le16(if sw { items[i].1 } else { 0 }),
    decreases items.len(),
{
    let pre = enc_items(items.drop_last(), sw);
    lemma_enc_items_len(items.drop_last(), sw);
    if i < items.len() - 1 {
        lemma_enc_items_at(items.drop_last(), sw, i);
        assert(enc_items(items, sw).subrange(4 * i, 4 * i + 2) =~= pre.subrange(4 * i, 4 * i + 2));
        assert(enc_items(items, sw).subrange(4 * i + 2, 4 * i + 4) =~= pre.subrange(4 * i + 2, 4 * i + 4));
    } else {
        assert(enc_items(items, sw).subrange(4 * i, 4 * i + 2) =~= le16(items.last().0));
        assert(enc_items(items, sw).subrange(4 * i + 2, 4 * i + 4) =~= le16(
            if sw { items.last().1 } else { 0 },
        ));
    }
}

proof fn lemma_enc_slots_len(slots: Seq<TeleporterSlotData>)
    ensures
        enc_slots(slots).len() == 8 * slots.len(),
    decreases slots.len(),
{
    if slots.len() > 0 {
        lemma_enc_slots_len(slots.drop_last());
    }
}

proof fn lemma_enc_slots_at(slots: Seq<TeleporterSlotData>, i: int)
    requires
        0 <= i < slots.len(),
    ensures
        enc_slots(slots).subrange(8 * i, 8 * i + 4) == le32(slots[i].index),
        enc_slots(slots).subrange(8 * i + 4, 8 * i + 8) == le32(slots[i].event_num),
    decreases slots.len(),
{
    let pre = enc_slots(slots.drop_last());
    lemma_enc_slots_len(slots.drop_last());
    if i < slots.len() - 1 {
        lemma_enc_slots_at(slots.drop_last(), i);
        assert(enc_slots(slots).subrange(8 * i, 8 * i + 4) =~= pre.subrange(8 * i, 8 * i + 4));
        assert(enc_slots(slots).subrange(8 * i + 4, 8 * i + 8) =~= pre.subrange(8 * i + 4, 8 * i + 8));
    } else {
        assert(enc_slots(slots).subrange(8 * i, 8 * i + 4) =~= le32(slots.last().index));
        assert(enc_slots(slots).subrange(8 * i + 4, 8 * i + 8) =~= le32(slots.last().event_num));
    }
}

/// Splits off the last block of a prefix of `s`.
proof fn lemma_peel(s: Seq<u8>, pre: Seq<u8>, b: Seq<u8>)
    requires
        s.len() >= pre.len() + b.len(),
        s.subrange(0, (pre.len() + b.len()) as int) == pre + b,
    ensures
        s.subrange(0, pre.len() as int) == pre,
        s.subrange(pre.len() as int, (pre.len() + b.len()) as int) == b,
{
    assert(s.subrange(0, pre.len() as int) =~= (pre + b).subrange(0, pre.len() as int));
    assert(s.subrange(pre.len() as int, (pre.len() + b.len()) as int) =~= (pre + b).subrange(
        pre.len() as int,
        (pre.len() + b.len()) as int,
    ));
}

/// A nested sub-range.
proof fn lemma_within(s: Seq<u8>, off: int, blk: Seq<u8>, k: int, n: int, x: Seq<u8>)
    requires
        0 <= off,
        0 <= k,
        0 <= n,
        k + n <= blk.len(),
        off + blk.len() <= s.len(),
        s.subrange(off, off + blk.len()) == blk,
        blk.subrange(k, k + n) == x,
    ensures
        s.subrange(off + k, off + k + n) == x,
{
    assert(s.subrange(off + k, off + k + n) =~= blk.subrange(k, k + n));
}

/// The fixed fields of a record read back as written.
proof fn lemma_header_read(s: Seq<u8>, v: ProfileView, sw: bool)
    requires
        s.len() >= off_current_weapon(sw) + 20,
        s.subrange(0, off_current_weapon(sw) + 20) == enc_header(v, sw),
    ensures
        u64_be(s, 0) == SIG_DO041220,
        u32_le(s, 8) == v.current_map,
        u32_le(s, 12) == v.current_song,
        u32_le(s, 16) == v.pos_x as u32,
        u32_le(s, 20) == v.pos_y as u32,
        u32_le(s, 24) == direction_index(v.direction),
        u16_le(s, 28) == v.max_life,
        sw ==> u16_le(s, 30) == stored_max_life_p2(v),
        u16_le(s, off_stars(sw)) == v.stars,
        u16_le(s, off_life(sw)) == v.life,
        sw ==> u16_le(s, 36) == stored_life_p2(v),
        u32_le(s, off_current_weapon(sw)) == v.current_weapon,
        u32_le(s, off_current_weapon(sw) + 4) == v.current_item,
        u32_le(s, off_current_weapon(sw) + 8) == v.equipment,
        u32_le(s, off_current_weapon(sw) + 12) == v.control_mode,
        u32_le(s, off_current_weapon(sw) + 16) == v.counter,
{
    let h = enc_header(v, sw);
    let c = off_current_weapon(sw);
    let p2a = if sw { le16(stored_max_life_p2(v)) } else { Seq::empty() };
    let p2b = if sw { le16(stored_life_p2(v)) } else { Seq::empty() };
    let a0 = be64(SIG_DO041220);
    let a1 = a0 + le32(v.current_map);
    let a2 = a1 + le32(v.current_song);
    let a3 = a2 + le32(v.pos_x as u32);
    let a4 = a3 + le32(v.pos_y as u32);
    let a5 = a4 + le32(direction_index(v.direction));
    let a6 = a5 + le16(v.max_life);
    let a7 = a6 + p2a;
    let a8 = a7 + le16(v.stars);
    let a9 = a8 + le16(v.life);
    let a10 = a9 + p2b;
    let a11 = a10 + le16(0);
    let a12 = a11 + le32(v.current_weapon);
    let a13 = a12 + le32(v.current_item);
    let a14 = a13 + le32(v.equipment);
    let a15 = a14 + le32(v.control_mode);
    let a16 = a15 + le32(v.counter);
    assert(a16 == h);
    lemma_peel(s, a15, le32(v.counter));
    lemma_peel(s, a14, le32(v.control_mode));
    lemma_peel(s, a13, le32(v.equipment));
    lemma_peel(s, a12, le32(v.current_item));
    lemma_peel(s, a11, le32(v.current_weapon));
    lemma_peel(s, a10, le16(0));
    lemma_peel(s, a9, p2b);
    lemma_peel(s, a8, le16(v.life));
    lemma_peel(s, a7, le16(v.stars));
    lemma_peel(s, a6, p2a);
    lemma_peel(s, a5, le16(v.max_life));
    lemma_peel(s, a4, le32(direction_index(v.direction)));
    lemma_peel(s, a3, le32(v.pos_y as u32));
    lemma_peel(s, a2, le32(v.pos_x as u32));
    lemma_peel(s, a1, le32(v.current_song));
    lemma_peel(s, a0, le32(v.current_map));
    lemma_be64(s, 0, SIG_DO041220);
    lemma_le32(s, 8, v.current_map);
    lemma_le32(s, 12, v.current_song);
    lemma_le32(s, 16, v.pos_x as u32);
    lemma_le32(s, 20, v.pos_y as u32);
    lemma_le32(s, 24, direction_index(v.direction));
    lemma_le16(s, 28, v.max_life);
    if sw {
        lemma_le16(s, 30, stored_max_life_p2(v));
        lemma_le16(s, 36, stored_life_p2(v));
    }
    lemma_le16(s, off_stars(sw), v.stars);
    lemma_le16(s, off_life(sw), v.life);
    lemma_le32(s, c, v.current_weapon);
    lemma_le32(s, c + 4, v.current_item);
    lemma_le32(s, c + 8, v.equipment);
    lemma_le32(s, c + 12, v.control_mode);
    lemma_le32(s, c + 16, v.counter);
}

// ---------------------------------------------------------------------------
// Challenge best times

/// A challenge best time and the tick rate it was counted at.
#[derive(Clone, Copy, Debug)]
pub struct ChallengeTime {
    pub timing_mode: TimingMode,
    pub ticks: usize,
}

/// Converting `t` to `new_timing` stays within `usize`: only a 50 Hz time
/// grows when converted, and only to 60 Hz.
pub open spec fn convertible_to(t: ChallengeTime, new_timing: TimingMode) -> bool {
    t.timing_mode == TimingMode::_50Hz && new_timing == TimingMode::_60Hz ==> (t.ticks / 50) * 60 <= usize::MAX
}

/// `t` can be converted to every tick rate, 60 Hz included.
pub open spec fn time_convertible(t: ChallengeTime) -> bool {
    convertible_to(t, TimingMode::_60Hz)
}

/// The tick count of `t` at `new_timing`; frame-synchronised times and
/// conversions to them keep the count.
pub open spec fn spec_convert_timing(t: ChallengeTime, new_timing: TimingMode) -> int {
    if t.timing_mode == TimingMode::FrameSynchronized || new_timing == TimingMode::FrameSynchronized
        || t.timing_mode == new_timing {
        t.ticks as int
    } else {
        (t.ticks as int / spec_tps(t.timing_mode) as int) * spec_tps(new_timing) as int
    }
}

/// `a` is a worse (longer) time than `b`, comparing at `b`'s tick rate.
pub open spec fn spec_time_greater(a: ChallengeTime, b: ChallengeTime) -> bool {
    spec_convert_timing(a, b.timing_mode) > b.ticks as int
}

proof fn lemma_convert_fits(t: ChallengeTime, new_timing: TimingMode)
    requires
        convertible_to(t, new_timing),
    ensures
        0 <= spec_convert_timing(t, new_timing) <= usize::MAX,
{
    if t.timing_mode == TimingMode::_60Hz && new_timing == TimingMode::_50Hz {
        let x = t.ticks as int;
        assert((x / 60) * 50 <= x) by (nonlinear_arith)
            requires
                x >= 0,
        ;
    }
}

/// A tick count in four bytes: counts beyond `u32::MAX` are stored as
/// `u32::MAX`.
pub open spec fn stored_ticks(ticks: usize) -> u32 {
    if ticks > u32::MAX as usize { u32::MAX } else { ticks as u32 }
}

/// One scrambled copy of a tick count: each byte raised by the key, the top
/// one by half the key.
pub open spec fn scramble(x: u32, r: u8) -> Seq<u8> {
    let b = le32(x);
    seq![
        vstd::wrapping::u8_specs::wrapping_add(b[0], r),
        vstd::wrapping::u8_specs::wrapping_add(b[1], r),
        vstd::wrapping::u8_specs::wrapping_add(b[2], r),
        vstd::wrapping::u8_specs::wrapping_add(b[3], r / 2),
    ]
}

/// The value of a scrambled copy.
pub open spec fn unscramble(s: Seq<u8>, p: int, r: u8) -> u32 {
    u32_le(
        seq![
            vstd::wrapping::u8_specs::wrapping_sub(s[p], r),
            vstd::wrapping::u8_specs::wrapping_sub(s[p + 1], r),
            vstd::wrapping::u8_specs::wrapping_sub(s[p + 2], r),
            vstd::wrapping::u8_specs::wrapping_sub(s[p + 3], r / 2),
        ],
        0,
    )
}

/// The bytes a best time is written as. Cave Story+ layouts keep the plain
/// count; the others keep four scrambled copies, the keys and the tick rate.
pub open spec fn spec_encode_time(t: ChallengeTime, keys: Seq<u8>, format: SaveFormat) -> Seq<u8>
    recommends keys.len() == 4,
{
    let x = stored_ticks(t.ticks);
    if spec_is_csp(format) {
        le32(x)
    } else {
        scramble(x, keys[0]) + scramble(x, keys[1]) + scramble(x, keys[2]) + scramble(x, keys[3]) + keys
            + le16(spec_tps(t.timing_mode) as u16)
    }
}

/// Reading a best time at `p`: the result, or `None` when a required field
/// is cut short, and where reading stops.
pub open spec fn spec_decode_time(d: Seq<u8>, p: int, format: SaveFormat) -> (Option<ChallengeTime>, int) {
    let len = d.len() as int;
    if spec_is_csp(format) {
        if p + 4 <= len {
            (Some(ChallengeTime { timing_mode: TimingMode::_60Hz, ticks: u32_le(d, p) as usize }), p + 4)
        } else {
            (None, len)
        }
    } else if p + 20 > len {
        (None, len)
    } else {
        let keys = d.subrange(p + 16, p + 20);
        let t0 = unscramble(d, p, keys[0]);
        let t1 = unscramble(d, p + 4, keys[1]);
        let t2 = unscramble(d, p + 8, keys[2]);
        let tps: int = if p + 22 <= len { u16_le(d, p + 20) as int } else { 0 };
        (
            Some(
                ChallengeTime {
                    timing_mode: spec_timing_from_tps(tps),
                    ticks: if t0 == t1 && t0 == t2 { t0 as usize } else { 0 },
                },
            ),
            if p + 22 <= len { p + 22 } else { len },
        )
    }
}

impl ChallengeTime {
    /// No time yet.
    pub fn new() -> (res: Self)
        ensures
            res.timing_mode == TimingMode::FrameSynchronized,
            res.ticks == 0,
    {
        Self { timing_mode: TimingMode::FrameSynchronized, ticks: 0 }
    }

    /// The tick count at another tick rate.
    pub fn convert_timing(&self, new_timing: TimingMode) -> (res: usize)
        requires
            convertible_to(*self, new_timing),
        ensures
            res == spec_convert_timing(*self, new_timing),
    {
        proof {
            lemma_convert_fits(*self, new_timing);
        }
        if self.timing_mode == TimingMode::FrameSynchronized || new_timing == TimingMode::FrameSynchronized
            || self.timing_mode == new_timing {
            return self.ticks;
        }
        let q = self.ticks / self.timing_mode.get_tps();
        let n = new_timing.get_tps();
        assert(q * n <= usize::MAX);
        q * n
    }

    /// The same time counted at another tick rate.
    pub fn with_timing(self, new_timing: TimingMode) -> (res: Self)
        requires
            convertible_to(self, new_timing),
        ensures
            res.timing_mode == new_timing,
            res.ticks == spec_convert_timing(self, new_timing),
    {
        Self { timing_mode: new_timing, ticks: self.convert_timing(new_timing) }
    }

    /// Whether this is a worse (longer) time than `other`.
    pub fn is_greater(&self, other: &ChallengeTime) -> (res: bool)
        requires
            convertible_to(*self, other.timing_mode),
        ensures
            res == spec_time_greater(*self, *other),
    {
        self.convert_timing(other.timing_mode) > other.ticks
    }

    /// The equality of best times: this time, taken to `other`'s tick rate,
    /// against this time's own count of ticks; `other`'s count plays no
    /// part. So a time equals every time at its own rate, and every
    /// frame-synchronised one; at another rate it is equal only where the
    /// conversion leaves its count unchanged.
    pub fn equals(&self, other: &ChallengeTime) -> (res: bool)
        requires
            convertible_to(*self, other.timing_mode),
        ensures
            res == (spec_convert_timing(*self, other.timing_mode) == self.ticks as int),
    {
        self.convert_timing(other.timing_mode) == self.ticks
    }

    /// Reads a best time in `format`, replacing this one.
    pub fn load_time(&mut self, data: &mut ByteReader, format: SaveFormat) -> (ok: bool)
        requires
            old(data).wf(),
        ensures
            final(data).wf(),
            final(data).data == old(data).data,
            ({
                let (r, end) = spec_decode_time(old(data).data@, old(data).pos as int, format);
                &&& final(data).pos == end
                &&& ok == r is Some
                &&& r matches Some(t) ==> *final(self) == t
                &&& r is None ==> *final(self) == *old(self)
            }),
    {
        let ghost d = data.data@;
        let ghost p = data.pos as int;
        if format.is_csp() {
            match data.read_u32_le() {
                Some(x) => {
                    self.timing_mode = TimingMode::_60Hz;
                    self.ticks = x as usize;
                    return true;
                },
                None => {
                    return false;
                },
            }
        }
        let mut ticks: [u32; 4] = [0; 4];
        let mut i: usize = 0;
        while i < 4
            invariant
                data.wf(),
                data.data@ == d,
                data.data == old(data).data,
                d == old(data).data@,
                p == old(data).pos,
                *self == *old(self),
                !spec_is_csp(format),
                i <= 4,
                data.pos == p + 4 * i,
                forall|j: int| 0 <= j < i ==> #[trigger] ticks@[j] == u32_le(d, p + 4 * j),
            decreases 4 - i,
        {
            match data.read_u32_le() {
                Some(x) => {
                    ticks[i] = x;
                },
                None => {
                    return false;
                },
            }
            i = i + 1;
        }
        let random = match data.read_u32_le() {
            Some(x) => x,
            None => {
                return false;
            },
        };
        let tps = match data.read_u16_le() {
            Some(x) => x,
            None => 0,
        };
        let k0 = (random & 0xff) as u8;
        let k1 = ((random >> 8u32) & 0xff) as u8;
        let k2 = ((random >> 16u32) & 0xff) as u8;
        proof {
            assert(d[p + 16] == k0 && d[p + 17] == k1 && d[p + 18] == k2) by {
                let b0 = d[p + 16];
                let b1 = d[p + 17];
                let b2 = d[p + 18];
                let b3 = d[p + 19];
                assert(((((b0 as u32) | ((b1 as u32) << 8u32) | ((b2 as u32) << 16u32) | ((b3 as u32) << 24u32))
                    as u32) & 0xff) as u8 == b0) by (bit_vector);
                assert((((((b0 as u32) | ((b1 as u32) << 8u32) | ((b2 as u32) << 16u32) | ((b3 as u32) << 24u32))
                    as u32) >> 8u32) & 0xff) as u8 == b1) by (bit_vector);
                assert((((((b0 as u32) | ((b1 as u32) << 8u32) | ((b2 as u32) << 16u32) | ((b3 as u32) << 24u32))
                    as u32) >> 16u32) & 0xff) as u8 == b2) by (bit_vector);
            }
        }
        let t0 = unscramble_exec(ticks[0], k0);
        let t1 = unscramble_exec(ticks[1], k1);
        let t2 = unscramble_exec(ticks[2], k2);
        proof {
            lemma_unscramble_exec(d, p, ticks[0], k0);
            lemma_unscramble_exec(d, p + 4, ticks[1], k1);
            lemma_unscramble_exec(d, p + 8, ticks[2], k2);
        }
        self.ticks = if t0 == t1 && t0 == t2 { t0 as usize } else { 0 };
        self.timing_mode = TimingMode::from_tps(tps as usize);
        true
    }

    /// Appends this best time in `format`; `keys` are the random bytes that
    /// scramble the copies in the layouts that scramble them.
    pub fn write_time(&self, data: &mut Vec<u8>, keys: [u8; 4], format: SaveFormat)
        ensures
            final(data)@ == old(data)@ + spec_encode_time(*self, keys@, format),
    {
        let time: u32 = if self.ticks > u32::MAX as usize { u32::MAX } else { self.ticks as u32 };
        if format.is_csp() {
            push_u32_le(data, time);
            return;
        }
        let ghost start = data@;
        let mut i: usize = 0;
        while i < 4
            invariant
                i <= 4,
                time == stored_ticks(self.ticks),
                data@ == start + (if i == 0 { Seq::empty() } else if i == 1 { scramble(time, keys@[0]) } else if i
                    == 2 { scramble(time, keys@[0]) + scramble(time, keys@[1]) } else if i == 3 { scramble(time, keys@[0])
                    + scramble(time, keys@[1]) + scramble(time, keys@[2]) } else { scramble(time, keys@[0])
                    + scramble(time, keys@[1]) + scramble(time, keys@[2]) + scramble(time, keys@[3]) }),
            decreases 4 - i,
        {
            let r = keys[i];
            data.push(((time & 0xff) as u8).wrapping_add(r));
            data.push((((time >> 8u32) & 0xff) as u8).wrapping_add(r));
            data.push((((time >> 16u32) & 0xff) as u8).wrapping_add(r));
            data.push((((time >> 24u32) & 0xff) as u8).wrapping_add(r / 2));
            proof {
                let sc = scramble(time, keys@[i as int]);
                if i == 0 {
                    assert(data@ =~= start + sc);
                } else if i == 1 {
                    assert(data@ =~= start + (scramble(time, keys@[0]) + sc));
                } else if i == 2 {
                    assert(data@ =~= start + (scramble(time, keys@[0]) + scramble(time, keys@[1]) + sc));
                } else {
                    assert(data@ =~= start + (scramble(time, keys@[0]) + scramble(time, keys@[1]) + scramble(time, keys@[2]) + sc));
                }
            }
            i = i + 1;
        }
        let ghost mid = data@;
        push_u8(data, keys[0]);
        push_u8(data, keys[1]);
        push_u8(data, keys[2]);
        push_u8(data, keys[3]);
        assert(data@ =~= mid + keys@);
        push_u16_le(data, self.timing_mode.get_tps() as u16);
        assert(data@ =~= start + spec_encode_time(*self, keys@, format));
    }
}

/// What a best time reads back as after being written in `format`.
pub open spec fn spec_saved_time(t: ChallengeTime, format: SaveFormat) -> ChallengeTime {
    ChallengeTime {
        timing_mode: if spec_is_csp(format) { TimingMode::_60Hz } else { t.timing_mode },
        ticks: stored_ticks(t.ticks) as usize,
    }
}

proof fn lemma_scramble_roundtrip(s: Seq<u8>, p: int, x: u32, r: u8)
    requires
        0 <= p,
        p + 4 <= s.len(),
        s.subrange(p, p + 4) == scramble(x, r),
    ensures
        unscramble(s, p, r) == x,
{
    let b = le32(x);
    let u = seq![
        vstd::wrapping::u8_specs::wrapping_sub(s[p], r),
        vstd::wrapping::u8_specs::wrapping_sub(s[p + 1], r),
        vstd::wrapping::u8_specs::wrapping_sub(s[p + 2], r),
        vstd::wrapping::u8_specs::wrapping_sub(s[p + 3], r / 2),
    ];
    assert(s[p] == scramble(x, r)[0]);
    assert(s[p + 1] == scramble(x, r)[1]);
    assert(s[p + 2] == scramble(x, r)[2]);
    assert(s[p + 3] == scramble(x, r)[3]);
    assert(u =~= b);
    assert(u.subrange(0, 4) =~= b);
    lemma_le32(u, 0, x);
}

/// Reading back a written best time, whatever bytes follow it and whatever
/// keys scrambled it: the count (capped at `u32::MAX`) comes back, at the
/// same tick rate, or at 60 Hz in the Cave Story+ layouts.
pub proof fn law_time_roundtrip(t: ChallengeTime, keys: Seq<u8>, format: SaveFormat, rest: Seq<u8>)
    requires
        keys.len() == 4,
    ensures
        spec_decode_time(spec_encode_time(t, keys, format) + rest, 0, format) == (
            Some(spec_saved_time(t, format)),
            spec_encode_time(t, keys, format).len() as int,
        ),
{
    let e = spec_encode_time(t, keys, format);
    let s = e + rest;
    let x = stored_ticks(t.ticks);
    if spec_is_csp(format) {
        assert(s.subrange(0, 4) =~= le32(x));
        lemma_le32(s, 0, x);
    } else {
        assert(s.subrange(0, 4) =~= scramble(x, keys[0]));
        assert(s.subrange(4, 8) =~= scramble(x, keys[1]));
        assert(s.subrange(8, 12) =~= scramble(x, keys[2]));
        assert(s.subrange(16, 20) =~= keys);
        lemma_scramble_roundtrip(s, 0, x, keys[0]);
        lemma_scramble_roundtrip(s, 4, x, keys[1]);
        lemma_scramble_roundtrip(s, 8, x, keys[2]);
        let tps = spec_tps(t.timing_mode) as u16;
        assert(s.subrange(20, 22) =~= le16(tps));
        lemma_le16(s, 20, tps);
    }
}

fn unscramble_exec(x: u32, r: u8) -> (res: u32)
    ensures
        res == u32_le(
            seq![
                vstd::wrapping::u8_specs::wrapping_sub((x & 0xff) as u8, r),
                vstd::wrapping::u8_specs::wrapping_sub(((x >> 8u32) & 0xff) as u8, r),
                vstd::wrapping::u8_specs::wrapping_sub(((x >> 16u32) & 0xff) as u8, r),
                vstd::wrapping::u8_specs::wrapping_sub(((x >> 24u32) & 0xff) as u8, r / 2),
            ],
            0,
        ),
{
    let b0 = ((x & 0xff) as u8).wrapping_sub(r);
    let b1 = (((x >> 8u32) & 0xff) as u8).wrapping_sub(r);
    let b2 = (((x >> 16u32) & 0xff) as u8).wrapping_sub(r);
    let b3 = (((x >> 24u32) & 0xff) as u8).wrapping_sub(r / 2);
    (b0 as u32) | ((b1 as u32) << 8u32) | ((b2 as u32) << 16u32) | ((b3 as u32) << 24u32)
}

proof fn lemma_unscramble_exec(d: Seq<u8>, p: int, x: u32, r: u8)
    requires
        0 <= p,
        p + 4 <= d.len(),
        x == u32_le(d, p),
    ensures
        u32_le(
            seq![
                vstd::wrapping::u8_specs::wrapping_sub((x & 0xff) as u8, r),
                vstd::wrapping::u8_specs::wrapping_sub(((x >> 8u32) & 0xff) as u8, r),
                vstd::wrapping::u8_specs::wrapping_sub(((x >> 16u32) & 0xff) as u8, r),
                vstd::wrapping::u8_specs::wrapping_sub(((x >> 24u32) & 0xff) as u8, r / 2),
            ],
            0,
        ) == unscramble(d, p, r),
{
    let b0 = d[p];
    let b1 = d[p + 1];
    let b2 = d[p + 2];
    let b3 = d[p + 3];
    assert(((((b0 as u32) | ((b1 as u32) << 8u32) | ((b2 as u32) << 16u32) | ((b3 as u32) << 24u32)) as u32) & 0xff) as u8 == b0) by (bit_vector);
    assert((((((b0 as u32) | ((b1 as u32) << 8u32) | ((b2 as u32) << 16u32) | ((b3 as u32) << 24u32)) as u32) >> 8u32) & 0xff) as u8 == b1) by (bit_vector);
    assert((((((b0 as u32) | ((b1 as u32) << 8u32) | ((b2 as u32) << 16u32) | ((b3 as u32) << 24u32)) as u32) >> 16u32) & 0xff) as u8 == b2) by (bit_vector);
    assert((((((b0 as u32) | ((b1 as u32) << 8u32) | ((b2 as u32) << 16u32) | ((b3 as u32) << 24u32)) as u32) >> 24u32) & 0xff) as u8 == b3) by (bit_vector);
}

/// What a profile reads back as after being saved in `format`: layouts
/// other than Switch keep no second player data, no item amounts (they read
/// back as one) and no map flags; Switch keeps no ids or capacities for the
/// second player's weapons; the eggfish flag is not kept. An empty profile
/// saved in a Cave Story+ layout reads back as the empty profile.
pub open spec fn spec_saved_view(v: ProfileView, format: SaveFormat) -> ProfileView {
    let sw = spec_is_switch(format);
    if spec_profile_is_empty(v) && spec_is_csp(format) {
        default_profile_view()
    } else {
        ProfileView {
            max_life_p2: if sw { stored_max_life_p2(v) } else { v.max_life },
            life_p2: if sw { stored_life_p2(v) } else { v.life },
            weapon_data_p2: if sw {
                Some(
                    Seq::new(
                        8,
                        |i: int|
                            WeaponData {
                                weapon_id: 0,
                                level: stored_weapons_p2(v)[i].level,
                                exp: stored_weapons_p2(v)[i].exp,
                                max_ammo: 0,
                                ammo: stored_weapons_p2(v)[i].ammo,
                            },
                    ),
                )
            } else {
                None
            },
            items: if sw { v.items } else { Seq::new(32, |i: int| Item(v.items[i].0, 1)) },
            map_flags: Seq::new(128, |i: int| 0u8),
            eggfish_killed: false,
            ..v
        }
    }
}

proof fn lemma_weapon_read(s: Seq<u8>, b: int, w: WeaponData, sw: bool)
    requires
        0 <= b,
        b + weapon_size(sw) <= s.len(),
        s.subrange(b, b + weapon_size(sw)) == enc_weapon(w, sw),
    ensures
        sw ==> u32_le(s, b) == w.level && u32_le(s, b + 4) == w.exp && u32_le(s, b + 8) == w.ammo,
        !sw ==> u32_le(s, b) == w.weapon_id && u32_le(s, b + 4) == w.level && u32_le(s, b + 8) == w.exp
            && u32_le(s, b + 12) == w.max_ammo && u32_le(s, b + 16) == w.ammo,
{
    let e = enc_weapon(w, sw);
    if sw {
        assert(e.subrange(0, 4) =~= le32(w.level));
        assert(e.subrange(4, 8) =~= le32(w.exp));
        assert(e.subrange(8, 12) =~= le32(w.ammo));
        lemma_within(s, b, e, 0, 4, le32(w.level));
        lemma_within(s, b, e, 4, 4, le32(w.exp));
        lemma_within(s, b, e, 8, 4, le32(w.ammo));
        lemma_le32(s, b, w.level);
        lemma_le32(s, b + 4, w.exp);
        lemma_le32(s, b + 8, w.ammo);
    } else {
        assert(e.subrange(0, 4) =~= le32(w.weapon_id));
        assert(e.subrange(4, 8) =~= le32(w.level));
        assert(e.subrange(8, 12) =~= le32(w.exp));
        assert(e.subrange(12, 16) =~= le32(w.max_ammo));
        assert(e.subrange(16, 20) =~= le32(w.ammo));
        lemma_within(s, b, e, 0, 4, le32(w.weapon_id));
        lemma_within(s, b, e, 4, 4, le32(w.level));
        lemma_within(s, b, e, 8, 4, le32(w.exp));
        lemma_within(s, b, e, 12, 4, le32(w.max_ammo));
        lemma_within(s, b, e, 16, 4, le32(w.ammo));
        lemma_le32(s, b, w.weapon_id);
        lemma_le32(s, b + 4, w.level);
        lemma_le32(s, b + 8, w.exp);
        lemma_le32(s, b + 12, w.max_ammo);
        lemma_le32(s, b + 16, w.ammo);
    }
}

proof fn lemma_weapons_read(s: Seq<u8>, base: int, ws: Seq<WeaponData>, sw: bool, i: int)
    requires
        ws.len() == 8,
        0 <= i < 8,
        0 <= base,
        base + 8 * weapon_size(sw) <= s.len(),
        s.subrange(base, base + 8 * weapon_size(sw)) == enc_weapons(ws, sw),
    ensures
        sw ==> u32_le(s, base + 12 * i) == ws[i].level && u32_le(s, base + 12 * i + 4) == ws[i].exp && u32_le(
            s,
            base + 12 * i + 8,
        ) == ws[i].ammo,
        !sw ==> u32_le(s, base + 20 * i) == ws[i].weapon_id && u32_le(s, base + 20 * i + 4) == ws[i].level
            && u32_le(s, base + 20 * i + 8) == ws[i].exp && u32_le(s, base + 20 * i + 12) == ws[i].max_ammo
            && u32_le(s, base + 20 * i + 16) == ws[i].ammo,
{
    let w = weapon_size(sw);
    lemma_enc_weapons_len(ws, sw);
    lemma_enc_weapons_at(ws, sw, i);
    assert(w * i + w <= 8 * w) by (nonlinear_arith)
        requires
            0 <= i < 8,
            w > 0,
    ;
    assert(w * 8 == 8 * w);
    lemma_within(s, base, enc_weapons(ws, sw), w * i, w, enc_weapon(ws[i], sw));
    lemma_weapon_read(s, base + w * i, ws[i], sw);
}

/// The block structure of a full record.
proof fn lemma_record_blocks(s: Seq<u8>, v: ProfileView, format: SaveFormat)
    requires
        profile_view_wf(v),
        s.subrange(0, enc_record(v, format).len() as int) == enc_record(v, format),
        enc_record(v, format).len() <= s.len(),
    ensures
        ({
            let sw = spec_is_switch(format);
            &&& enc_record(v, format).len() == off_tail(sw) + enc_tail(v, format).len()
            &&& s.subrange(0, off_current_weapon(sw) + 20) == enc_header(v, sw)
            &&& sw ==> s.subrange(60, 124) == enc_weapon_ids(v.weapon_data)
            &&& s.subrange(off_weapons(sw), off_weapons(sw) + 8 * weapon_size(sw)) == enc_weapons(v.weapon_data, sw)
            &&& sw ==> s.subrange(220, 316) == enc_weapons(stored_weapons_p2(v), sw)
            &&& s.subrange(off_items(sw), off_slots(sw)) == enc_items(v.items, sw)
            &&& s.subrange(off_slots(sw), off_map_flags(sw)) == enc_slots(v.teleporter_slots)
            &&& s.subrange(off_map_flags(sw), off_flag_sig(sw)) == zeros(0x80)
            &&& s.subrange(off_flag_sig(sw), off_flags(sw)) == be32(SIG_FLAG)
            &&& s.subrange(off_flags(sw), off_tail(sw)) == v.flags
            &&& s.subrange(off_tail(sw), enc_record(v, format).len() as int) == enc_tail(v, format)
        }),
{
    let sw = spec_is_switch(format);
    let a = enc_header(v, sw);
    let b = if sw { enc_weapon_ids(v.weapon_data) } else { Seq::empty() };
    let c = enc_weapons(v.weapon_data, sw);
    let d = if sw { enc_weapons(stored_weapons_p2(v), sw) } else { Seq::empty() };
    let e = enc_items(v.items, sw);
    let f = enc_slots(v.teleporter_slots);
    let g = zeros(0x80);
    let h = be32(SIG_FLAG);
    let i = v.flags;
    let j = enc_tail(v, format);
    lemma_enc_ids_len(v.weapon_data);
    lemma_enc_weapons_len(v.weapon_data, sw);
    lemma_enc_weapons_len(stored_weapons_p2(v), sw);
    lemma_enc_items_len(v.items, sw);
    lemma_enc_slots_len(v.teleporter_slots);
    assert(a.len() == off_current_weapon(sw) + 20);
    assert(enc_record(v, format) == a + b + c + d + e + f + g + h + i + j);
    lemma_peel(s, a + b + c + d + e + f + g + h + i, j);
    lemma_peel(s, a + b + c + d + e + f + g + h, i);
    lemma_peel(s, a + b + c + d + e + f + g, h);
    lemma_peel(s, a + b + c + d + e + f, g);
    lemma_peel(s, a + b + c + d + e, f);
    lemma_peel(s, a + b + c + d, e);
    lemma_peel(s, a + b + c, d);
    lemma_peel(s, a + b, c);
    lemma_peel(s, a, b);
}

/// Reading back a saved profile: for every profile and layout, and whatever
/// bytes follow the record, reading the record gives what the layout keeps
/// of the profile and stops exactly at the end of the record.
pub proof fn law_profile_roundtrip(v: ProfileView, format: SaveFormat, rest: Seq<u8>)
    requires
        profile_view_wf(v),
    ensures
        spec_decode_profile(spec_encode_profile(v, format) + rest, 0, format) == (
            Ok::<ProfileView, SaveError>(spec_saved_view(v, format)),
            spec_encode_profile(v, format).len() as int,
        ),
{
    let enc = spec_encode_profile(v, format);
    let s = enc + rest;
    assert(s.subrange(0, enc.len() as int) =~= enc);
    if spec_profile_is_empty(v) && spec_is_csp(format) {
        lemma_blank_record(s, format);
    } else {
        lemma_record_fields(s, v, format);
    }
}

proof fn lemma_blank_record(s: Seq<u8>, format: SaveFormat)
    requires
        spec_is_csp(format),
        s.len() >= spec_profile_size(format),
        s.subrange(0, spec_profile_size(format) as int) == zeros(spec_profile_size(format)),
    ensures
        u64_be(s, 0) == 0,
{
    assert(be64(0) =~= s.subrange(0, 8)) by {
        assert(((0u32 >> 24u32) & 0xff) as u8 == 0) by (bit_vector);
        assert(((0u32 >> 16u32) & 0xff) as u8 == 0) by (bit_vector);
        assert(((0u32 >> 8u32) & 0xff) as u8 == 0) by (bit_vector);
        assert((0u32 & 0xff) as u8 == 0) by (bit_vector);
        assert((0u64 >> 32u64) as u32 == 0) by (bit_vector);
        assert((0u64 & 0xffff_ffff) as u32 == 0) by (bit_vector);
        assert forall|k: int| 0 <= k < 8 implies s.subrange(0, 8)[k] == 0 by {
            assert(s[k] == s.subrange(0, spec_profile_size(format) as int)[k]);
        }
    }
    lemma_be64(s, 0, 0);
}

proof fn lemma_weapon_fields(s: Seq<u8>, v: ProfileView, format: SaveFormat)
    requires
        profile_view_wf(v),
        !(spec_profile_is_empty(v) && spec_is_csp(format)),
        s.len() >= enc_record(v, format).len(),
        s.subrange(0, enc_record(v, format).len() as int) == enc_record(v, format),
    ensures
        forall|i: int| 0 <= i < 8 ==> #[trigger] weapon_at(s, 0, i, spec_is_switch(format)) == v.weapon_data[i],
        spec_is_switch(format) ==> forall|i: int| 0 <= i < 8 ==> #[trigger] weapon_p2_at(s, 0, i)
            == spec_saved_view(v, format).weapon_data_p2->0[i],
{
    let sw = spec_is_switch(format);
    lemma_record_blocks(s, v, format);
    assert forall|i: int| 0 <= i < 8 implies #[trigger] weapon_at(s, 0, i, sw) == v.weapon_data[i] by {
        lemma_weapons_read(s, off_weapons(sw), v.weapon_data, sw, i);
        if sw {
            lemma_enc_ids_at(v.weapon_data, i);
            lemma_within(s, 60, enc_weapon_ids(v.weapon_data), 8 * i, 4, le32(v.weapon_data[i].weapon_id));
            lemma_within(s, 60, enc_weapon_ids(v.weapon_data), 8 * i + 4, 4, le32(v.weapon_data[i].max_ammo));
            lemma_le32(s, 60 + 8 * i, v.weapon_data[i].weapon_id);
            lemma_le32(s, 64 + 8 * i, v.weapon_data[i].max_ammo);
        }
    }
    if sw {
        let sp2 = stored_weapons_p2(v);
        assert forall|i: int| 0 <= i < 8 implies #[trigger] weapon_p2_at(s, 0, i) == spec_saved_view(
            v,
            format,
        ).weapon_data_p2->0[i] by {
            lemma_weapons_read(s, 220, sp2, sw, i);
        }
    }
}

proof fn lemma_item_slot_fields(s: Seq<u8>, v: ProfileView, format: SaveFormat)
    requires
        profile_view_wf(v),
        !(spec_profile_is_empty(v) && spec_is_csp(format)),
        s.len() >= enc_record(v, format).len(),
        s.subrange(0, enc_record(v, format).len() as int) == enc_record(v, format),
    ensures
        forall|i: int| 0 <= i < 32 ==> #[trigger] item_at(s, 0, i, spec_is_switch(format)) == spec_saved_view(
            v,
            format,
        ).items[i],
        forall|i: int| 0 <= i < 8 ==> #[trigger] slot_at(s, 0, i, spec_is_switch(format)) == v.teleporter_slots[i],
{
    let sw = spec_is_switch(format);
    lemma_record_blocks(s, v, format);
    let saved = spec_saved_view(v, format);
    assert forall|i: int| 0 <= i < 32 implies #[trigger] item_at(s, 0, i, sw) == saved.items[i] by {
        lemma_item_read(s, v, sw, i);
    }
    assert forall|i: int| 0 <= i < 8 implies #[trigger] slot_at(s, 0, i, sw) == v.teleporter_slots[i] by {
        lemma_slot_read(s, v, sw, i);
    }
}

proof fn lemma_item_read(s: Seq<u8>, v: ProfileView, sw: bool, i: int)
    requires
        0 <= i < 32,
        v.items.len() == 32,
        off_slots(sw) <= s.len(),
        s.subrange(off_items(sw), off_slots(sw)) == enc_items(v.items, sw),
    ensures
        item_at(s, 0, i, sw) == Item(v.items[i].0, if sw { v.items[i].1 } else { 1 }),
{
    lemma_enc_items_len(v.items, sw);
    lemma_enc_items_at(v.items, sw, i);
    let blk = enc_items(v.items, sw);
    lemma_within(s, off_items(sw), blk, 4 * i, 2, le16(v.items[i].0));
    lemma_within(s, off_items(sw), blk, 4 * i + 2, 2, le16(if sw { v.items[i].1 } else { 0 }));
    lemma_le16(s, off_items(sw) + 4 * i, v.items[i].0);
    lemma_le16(s, off_items(sw) + 4 * i + 2, if sw { v.items[i].1 } else { 0 });
}

proof fn lemma_slot_read(s: Seq<u8>, v: ProfileView, sw: bool, i: int)
    requires
        0 <= i < 8,
        v.teleporter_slots.len() == 8,
        off_map_flags(sw) <= s.len(),
        s.subrange(off_slots(sw), off_map_flags(sw)) == enc_slots(v.teleporter_slots),
    ensures
        slot_at(s, 0, i, sw) == v.teleporter_slots[i],
{
    lemma_enc_slots_len(v.teleporter_slots);
    lemma_enc_slots_at(v.teleporter_slots, i);
    let blk = enc_slots(v.teleporter_slots);
    lemma_within(s, off_slots(sw), blk, 8 * i, 4, le32(v.teleporter_slots[i].index));
    lemma_within(s, off_slots(sw), blk, 8 * i + 4, 4, le32(v.teleporter_slots[i].event_num));
    lemma_le32(s, off_slots(sw) + 8 * i, v.teleporter_slots[i].index);
    lemma_le32(s, off_slots(sw) + 8 * i + 4, v.teleporter_slots[i].event_num);
}

proof fn lemma_tail_fields(s: Seq<u8>, v: ProfileView, format: SaveFormat)
    requires
        profile_view_wf(v),
        s.len() >= enc_record(v, format).len(),
        s.subrange(0, enc_record(v, format).len() as int) == enc_record(v, format),
    ensures
        ({
            let sw = spec_is_switch(format);
            let len = s.len() as int;
            let p1 = tail_pos1(len, 0, sw);
            &&& p1 + 9 <= len
            &&& p1 == off_tail(sw) + (if sw { 0int } else { 4int })
            &&& u64_le(s, p1) == v.timestamp
            &&& s[p1 + 8] == v.difficulty
            &&& record_end(len, 0, format) == enc_record(v, format).len()
            &&& p1 + 9 + (if spec_is_csp(format) { 15int } else { 0int }) == enc_record(v, format).len()
        }),
{
    let sw = spec_is_switch(format);
    lemma_record_blocks(s, v, format);
    let t = enc_tail(v, format);
    let k: int = if sw { 0 } else { 4 };
    let p1 = off_tail(sw) + k;
    assert(t.subrange(k, k + 8) =~= le64(v.timestamp));
    lemma_within(s, off_tail(sw), t, k, 8, le64(v.timestamp));
    lemma_le64(s, p1, v.timestamp);
    assert(t[k + 8] == v.difficulty);
    assert(s[p1 + 8] == s.subrange(off_tail(sw), enc_record(v, format).len() as int)[k + 8]);
}

#[verifier::rlimit(40)]
proof fn lemma_record_fields(s: Seq<u8>, v: ProfileView, format: SaveFormat)
    requires
        profile_view_wf(v),
        !(spec_profile_is_empty(v) && spec_is_csp(format)),
        s.len() >= enc_record(v, format).len(),
        s.subrange(0, enc_record(v, format).len() as int) == enc_record(v, format),
    ensures
        spec_decode_profile(s, 0, format) == (
            Ok::<ProfileView, SaveError>(spec_saved_view(v, format)),
            enc_record(v, format).len() as int,
        ),
{
    let sw = spec_is_switch(format);
    lemma_record_blocks(s, v, format);
    lemma_header_read(s, v, sw);
    lemma_be32(s, off_flag_sig(sw), SIG_FLAG);
    lemma_direction_index_roundtrip(v.direction);
    lemma_weapon_fields(s, v, format);
    lemma_item_slot_fields(s, v, format);
    lemma_tail_fields(s, v, format);
    let px = v.pos_x;
    let py = v.pos_y;
    assert((px as u32) as i32 == px) by (bit_vector);
    assert((py as u32) as i32 == py) by (bit_vector);
    let view = record_view(s, 0, format);
    let saved = spec_saved_view(v, format);
    assert(view.weapon_data =~= saved.weapon_data);
    if sw {
        assert(view.weapon_data_p2->0 =~= saved.weapon_data_p2->0);
    }
    assert(view.items =~= saved.items);
    assert(view.teleporter_slots =~= saved.teleporter_slots);
    assert(view.map_flags =~= saved.map_flags);
    assert(view.flags =~= saved.flags);
    assert(view =~= saved);
}

/// The fixed fields that follow the signature of a record.
struct Header {
    current_map: u32,
    current_song: u32,
    pos_x: i32,
    pos_y: i32,
    direction: Direction,
    max_life: u16,
    max_life_p2: u16,
    stars: u16,
    life: u16,
    life_p2: u16,
    current_weapon: u32,
    current_item: u32,
    equipment: u32,
    control_mode: u32,
    counter: u32,
}

spec fn header_matches(h: Header, v: ProfileView) -> bool {
    &&& h.current_map == v.current_map
    &&& h.current_song == v.current_song
    &&& h.pos_x == v.pos_x
    &&& h.pos_y == v.pos_y
    &&& h.direction == v.direction
    &&& h.max_life == v.max_life
    &&& h.max_life_p2 == v.max_life_p2
    &&& h.stars == v.stars
    &&& h.life == v.life
    &&& h.life_p2 == v.life_p2
    &&& h.current_weapon == v.current_weapon
    &&& h.current_item == v.current_item
    &&& h.equipment == v.equipment
    &&& h.control_mode == v.control_mode
    &&& h.counter == v.counter
}

/// Reads the fixed fields of a record whose signature ends at the current
/// position.
fn read_header(r: &mut ByteReader, sw: bool, Ghost(p): Ghost<int>, Ghost(format): Ghost<SaveFormat>) -> (res: Option<Header>)
    requires
        old(r).wf(),
        old(r).pos == p + 8,
        sw == spec_is_switch(format),
    ensures
        final(r).wf(),
        final(r).data == old(r).data,
        res is Some ==> final(r).pos == p + off_current_weapon(sw) + 20 && header_matches(
            res->0,
            record_view(old(r).data@, p, format),
        ),
        res is None ==> final(r).pos == old(r).data@.len() && p + off_current_weapon(sw) + 20 > old(r).data@.len(),
{
    let ghost d = r.data@;
    let current_map = match r.read_u32_le() { Some(x) => x, None => { return None; } };
    let current_song = match r.read_u32_le() { Some(x) => x, None => { return None; } };
    let pos_x = match r.read_u32_le() { Some(x) => x as i32, None => { return None; } };
    let pos_y = match r.read_u32_le() { Some(x) => x as i32, None => { return None; } };
    let dir = match r.read_u32_le() { Some(x) => x, None => { return None; } };
    let max_life = match r.read_u16_le() { Some(x) => x, None => { return None; } };
    let max_life_p2 = if sw { match r.read_u16_le() { Some(x) => x, None => { return None; } } } else { max_life };
    let stars = match r.read_u16_le() { Some(x) => x, None => { return None; } };
    let life = match r.read_u16_le() { Some(x) => x, None => { return None; } };
    let life_p2 = if sw { match r.read_u16_le() { Some(x) => x, None => { return None; } } } else { life };
    match r.read_u16_le() { Some(_) => {}, None => { return None; } };
    let current_weapon = match r.read_u32_le() { Some(x) => x, None => { return None; } };
    let current_item = match r.read_u32_le() { Some(x) => x, None => { return None; } };
    let equipment = match r.read_u32_le() { Some(x) => x, None => { return None; } };
    let control_mode = match r.read_u32_le() { Some(x) => x, None => { return None; } };
    let counter = match r.read_u32_le() { Some(x) => x, None => { return None; } };
    let direction = match Direction::from_int(dir as usize) { Some(d) => d, None => Direction::Left };
    Some(Header {
        current_map,
        current_song,
        pos_x,
        pos_y,
        direction,
        max_life,
        max_life_p2,
        stars,
        life,
        life_p2,
        current_weapon,
        current_item,
        equipment,
        control_mode,
        counter,
    })
}

/// Reads the Switch table of weapon ids and capacities into `ws`.
fn read_weapon_ids(r: &mut ByteReader, ws: &mut [WeaponData; 8], Ghost(p): Ghost<int>) -> (ok: bool)
    requires
        old(r).wf(),
        old(r).pos == p + 60,
    ensures
        final(r).wf(),
        final(r).data == old(r).data,
        ok ==> final(r).pos == p + 124 && forall|i: int| 0 <= i < 8 ==> {
            &&& (#[trigger] final(ws)@[i]).weapon_id == u32_le(old(r).data@, p + 60 + 8 * i)
            &&& final(ws)@[i].max_ammo == u32_le(old(r).data@, p + 64 + 8 * i)
            &&& final(ws)@[i].level == old(ws)@[i].level
            &&& final(ws)@[i].exp == old(ws)@[i].exp
            &&& final(ws)@[i].ammo == old(ws)@[i].ammo
        },
        !ok ==> final(r).pos == old(r).data@.len() && p + 124 > old(r).data@.len(),
{
    let ghost d = r.data@;
    let mut i: usize = 0;
    while i < 8
        invariant
            r.wf(),
            r.data@ == d,
            d == old(r).data@,
            i <= 8,
            r.pos == p + 60 + 8 * i,
            forall|j: int| 0 <= j < i ==> {
                &&& (#[trigger] ws@[j]).weapon_id == u32_le(d, p + 60 + 8 * j)
                &&& ws@[j].max_ammo == u32_le(d, p + 64 + 8 * j)
                &&& ws@[j].level == old(ws)@[j].level
                &&& ws@[j].exp == old(ws)@[j].exp
                &&& ws@[j].ammo == old(ws)@[j].ammo
            },
            forall|j: int| i <= j < 8 ==> #[trigger] ws@[j] == old(ws)@[j],
        decreases 8 - i,
    {
        let id = match r.read_u32_le() { Some(x) => x, None => { return false; } };
        let max_ammo = match r.read_u32_le() { Some(x) => x, None => { return false; } };
        ws[i].weapon_id = id;
        ws[i].max_ammo = max_ammo;
        i = i + 1;
    }
    true
}

/// Reads eight weapon records into `ws`; on Switch only level, experience
/// and ammunition are stored per record.
fn read_weapons(r: &mut ByteReader, ws: &mut [WeaponData; 8], sw: bool, Ghost(base): Ghost<int>) -> (ok: bool)
    requires
        old(r).wf(),
        old(r).pos == base,
    ensures
        final(r).wf(),
        final(r).data == old(r).data,
        ok ==> final(r).pos == base + 8 * weapon_size(sw) && forall|i: int| 0 <= i < 8 ==> {
            let b = base + weapon_size(sw) * i;
            let w = #[trigger] final(ws)@[i];
            if sw {
                &&& w.level == u32_le(old(r).data@, b)
                &&& w.exp == u32_le(old(r).data@, b + 4)
                &&& w.ammo == u32_le(old(r).data@, b + 8)
                &&& w.weapon_id == old(ws)@[i].weapon_id
                &&& w.max_ammo == old(ws)@[i].max_ammo
            } else {
                &&& w.weapon_id == u32_le(old(r).data@, b)
                &&& w.level == u32_le(old(r).data@, b + 4)
                &&& w.exp == u32_le(old(r).data@, b + 8)
                &&& w.max_ammo == u32_le(old(r).data@, b + 12)
                &&& w.ammo == u32_le(old(r).data@, b + 16)
            }
        },
        !ok ==> final(r).pos == old(r).data@.len() && base + 8 * weapon_size(sw) > old(r).data@.len(),
{
    let ghost d = r.data@;
    let ghost wsz = weapon_size(sw);
    let mut i: usize = 0;
    while i < 8
        invariant
            r.wf(),
            r.data@ == d,
            d == old(r).data@,
            wsz == weapon_size(sw),
            i <= 8,
            r.pos == base + wsz * i,
            forall|j: int| 0 <= j < i ==> {
                let b = base + wsz * j;
                let w = #[trigger] ws@[j];
                if sw {
                    &&& w.level == u32_le(d, b)
                    &&& w.exp == u32_le(d, b + 4)
                    &&& w.ammo == u32_le(d, b + 8)
                    &&& w.weapon_id == old(ws)@[j].weapon_id
                    &&& w.max_ammo == old(ws)@[j].max_ammo
                } else {
                    &&& w.weapon_id == u32_le(d, b)
                    &&& w.level == u32_le(d, b + 4)
                    &&& w.exp == u32_le(d, b + 8)
                    &&& w.max_ammo == u32_le(d, b + 12)
                    &&& w.ammo == u32_le(d, b + 16)
                }
            },
            forall|j: int| i <= j < 8 ==> #[trigger] ws@[j] == old(ws)@[j],
        decreases 8 - i,
    {
        if sw {
            let level = match r.read_u32_le() { Some(x) => x, None => { return false; } };
            let exp = match r.read_u32_le() { Some(x) => x, None => { return false; } };
            let ammo = match r.read_u32_le() { Some(x) => x, None => { return false; } };
            ws[i].level = level;
            ws[i].exp = exp;
            ws[i].ammo = ammo;
        } else {
            let weapon_id = match r.read_u32_le() { Some(x) => x, None => { return false; } };
            let level = match r.read_u32_le() { Some(x) => x, None => { return false; } };
            let exp = match r.read_u32_le() { Some(x) => x, None => { return false; } };
            let max_ammo = match r.read_u32_le() { Some(x) => x, None => { return false; } };
            let ammo = match r.read_u32_le() { Some(x) => x, None => { return false; } };
            ws[i] = WeaponData { weapon_id, level, exp, max_ammo, ammo };
        }
        i = i + 1;
    }
    true
}

/// Reads the 32 item records.
fn read_items(r: &mut ByteReader, sw: bool, Ghost(p): Ghost<int>) -> (res: Option<[Item; 32]>)
    requires
        old(r).wf(),
        old(r).pos == p + off_items(sw),
    ensures
        final(r).wf(),
        final(r).data == old(r).data,
        res is Some ==> final(r).pos == p + off_slots(sw) && forall|i: int| 0 <= i < 32 ==> #[trigger] res->0@[i]
            == item_at(old(r).data@, p, i, sw),
        res is None ==> final(r).pos == old(r).data@.len() && p + off_slots(sw) > old(r).data@.len(),
{
    let ghost d = r.data@;
    let mut items = [Item(0, 0); 32];
    let mut i: usize = 0;
    while i < 32
        invariant
            r.wf(),
            r.data@ == d,
            d == old(r).data@,
            i <= 32,
            r.pos == p + off_items(sw) + 4 * i,
            forall|j: int| 0 <= j < i ==> #[trigger] items@[j] == item_at(d, p, j, sw),
        decreases 32 - i,
    {
        let id = match r.read_u16_le() { Some(x) => x, None => { return None; } };
        let amount = match r.read_u16_le() { Some(x) => x, None => { return None; } };
        let amount = if !sw { amount.wrapping_add(1) } else { amount };
        items[i] = Item(id, amount);
        i = i + 1;
    }
    Some(items)
}

/// Reads the eight teleporter records.
fn read_slots(r: &mut ByteReader, sw: bool, Ghost(p): Ghost<int>) -> (res: Option<[TeleporterSlotData; 8]>)
    requires
        old(r).wf(),
        old(r).pos == p + off_slots(sw),
    ensures
        final(r).wf(),
        final(r).data == old(r).data,
        res is Some ==> final(r).pos == p + off_map_flags(sw) && forall|i: int| 0 <= i < 8 ==> #[trigger] res->0@[i]
            == slot_at(old(r).data@, p, i, sw),
        res is None ==> final(r).pos == old(r).data@.len() && p + off_map_flags(sw) > old(r).data@.len(),
{
    let ghost d = r.data@;
    let mut slots = [TeleporterSlotData::new(); 8];
    let mut i: usize = 0;
    while i < 8
        invariant
            r.wf(),
            r.data@ == d,
            d == old(r).data@,
            i <= 8,
            r.pos == p + off_slots(sw) + 8 * i,
            forall|j: int| 0 <= j < i ==> #[trigger] slots@[j] == slot_at(d, p, j, sw),
        decreases 8 - i,
    {
        let index = match r.read_u32_le() { Some(x) => x, None => { return None; } };
        let event_num = match r.read_u32_le() { Some(x) => x, None => { return None; } };
        slots[i] = TeleporterSlotData { index, event_num };
        i = i + 1;
    }
    Some(slots)
}

/// Reads 128 raw bytes.
fn read_128(r: &mut ByteReader) -> (res: Option<[u8; 128]>)
    requires
        old(r).wf(),
    ensures
        final(r).wf(),
        final(r).data == old(r).data,
        res is Some ==> final(r).pos == old(r).pos + 128 && res->0@ == old(r).data@.subrange(
            old(r).pos as int,
            old(r).pos + 128,
        ),
        res is None ==> final(r).pos == old(r).data@.len() && old(r).pos + 128 > old(r).data@.len(),
{
    let ghost d = r.data@;
    let start = r.pos;
    let mut out = [0u8; 128];
    let mut i: usize = 0;
    while i < 128
        invariant
            r.wf(),
            r.data@ == d,
            d == old(r).data@,
            start == old(r).pos,
            i <= 128,
            r.pos == start + i,
            forall|j: int| 0 <= j < i ==> #[trigger] out@[j] == d[start + j],
        decreases 128 - i,
    {
        let b = match r.read_u8() { Some(x) => x, None => { return None; } };
        out[i] = b;
        i = i + 1;
    }
    assert(out@ =~= d.subrange(start as int, start + 128));
    Some(out)
}

/// Reads 1000 raw bytes.
fn read_1000(r: &mut ByteReader) -> (res: Option<[u8; 1000]>)
    requires
        old(r).wf(),
    ensures
        final(r).wf(),
        final(r).data == old(r).data,
        res is Some ==> final(r).pos == old(r).pos + 1000 && res->0@ == old(r).data@.subrange(
            old(r).pos as int,
            old(r).pos + 1000,
        ),
        res is None ==> final(r).pos == old(r).data@.len() && old(r).pos + 1000 > old(r).data@.len(),
{
    let ghost d = r.data@;
    let start = r.pos;
    let mut out = [0u8; 1000];
    let mut i: usize = 0;
    while i < 1000
        invariant
            r.wf(),
            r.data@ == d,
            d == old(r).data@,
            start == old(r).pos,
            i <= 1000,
            r.pos == start + i,
            forall|j: int| 0 <= j < i ==> #[trigger] out@[j] == d[start + j],
        decreases 1000 - i,
    {
        let b = match r.read_u8() { Some(x) => x, None => { return None; } };
        out[i] = b;
        i = i + 1;
    }
    assert(out@ =~= d.subrange(start as int, start + 1000));
    Some(out)
}


// ---------------------------------------------------------------------------
// Taking a profile from a running game

/// Which player a profile is taken from.
#[derive(Clone, Copy, Debug, PartialEq, Eq, Structural)]
pub enum TargetPlayer {
    Player1,
    Player2,
}

/// What a profile records of one player and their inventory.
#[derive(Clone, Debug)]
pub struct PlayerRecord {
    pub x: i32,
    pub y: i32,
    pub direction: Direction,
    pub max_life: u16,
    pub life: u16,
    pub stars: u16,
    /// Equipment bits.
    pub equip: u16,
    /// Control scheme, by its number.
    pub control_mode: u32,
    /// Selected weapon and item, by inventory position.
    pub current_weapon: u32,
    pub current_item: u32,
    /// The weapons carried, in inventory order.
    pub weapons: Vec<WeaponData>,
    /// The items carried, in inventory order.
    pub items: Vec<Item>,
}

/// What a profile records of the running game.
#[derive(Clone, Debug)]
pub struct GameRecord {
    pub stage_id: u32,
    pub current_song: u32,
    pub player1: PlayerRecord,
    pub player2: PlayerRecord,
    pub two_players: bool,
    /// Teleporter destinations: (index, event).
    pub teleporter_slots: Vec<(u16, u16)>,
    /// One flag per map, in map order.
    pub map_flags: Vec<bool>,
    /// The game flags, packed eight to a byte.
    pub game_flags: Vec<u8>,
    pub difficulty: u8,
}

/// The first eight weapons, empty slots after the last one carried.
pub open spec fn dumped_weapons(ws: Seq<WeaponData>) -> Seq<WeaponData> {
    Seq::new(8, |i: int| if i < ws.len() { ws[i] } else { empty_weapon() })
}

/// The first 32 items, empty slots after the last one carried.
pub open spec fn dumped_items(items: Seq<Item>) -> Seq<Item> {
    Seq::new(32, |i: int| if i < items.len() { items[i] } else { Item(0, 0) })
}

/// The first eight teleporter destinations, empty slots after the last.
pub open spec fn dumped_slots(slots: Seq<(u16, u16)>) -> Seq<TeleporterSlotData> {
    Seq::new(
        8,
        |i: int|
            if i < slots.len() {
                TeleporterSlotData { index: slots[i].0 as u32, event_num: slots[i].1 as u32 }
            } else {
                TeleporterSlotData { index: 0, event_num: 0 }
            },
    )
}

/// The first 128 map flags as bytes (1 when set), 0 after the last.
pub open spec fn dumped_map_flags(flags: Seq<bool>) -> Seq<u8> {
    Seq::new(128, |i: int| if i < flags.len() && flags[i] { 1u8 } else { 0u8 })
}

/// The profile taken of `target` (player 1 by default) at `timestamp`:
/// position, facing, stars, equipment, controls and selections are the
/// target's; both maximum lives are player 1's, the lives each player's
/// own; the weapons are player 1's, with player 2's beside them in a
/// two-player game; the items are the target's.
pub open spec fn spec_dump(g: GameRecord, target: Option<TargetPlayer>, timestamp: u64) -> ProfileView {
    let p = if target == Some(TargetPlayer::Player2) { g.player2 } else { g.player1 };
    ProfileView {
        current_map: g.stage_id,
        current_song: g.current_song,
        pos_x: p.x,
        pos_y: p.y,
        direction: p.direction,
        max_life: g.player1.max_life,
        max_life_p2: g.player1.max_life,
        stars: p.stars,
        life: g.player1.life,
        life_p2: g.player2.life,
        current_weapon: p.current_weapon,
        current_item: p.current_item,
        equipment: p.equip as u32,
        control_mode: p.control_mode,
        counter: 0,
        weapon_data: dumped_weapons(g.player1.weapons@),
        weapon_data_p2: if g.two_players { Some(dumped_weapons(g.player2.weapons@)) } else { None },
        items: dumped_items(p.items@),
        teleporter_slots: dumped_slots(g.teleporter_slots@),
        map_flags: dumped_map_flags(g.map_flags@),
        flags: g.game_flags@,
        timestamp: timestamp,
        difficulty: g.difficulty,
        eggfish_killed: false,
    }
}

fn dump_weapons(weapons: &Vec<WeaponData>) -> (res: [WeaponData; 8])
    ensures
        res@ == dumped_weapons(weapons@),
{
    let mut res = [WeaponData::new(); 8];
    let mut i: usize = 0;
    while i < 8
        invariant
            i <= 8,
            res@.len() == 8,
            forall|j: int| 0 <= j < 8 ==> #[trigger] res@[j] == if j < i { dumped_weapons(weapons@)[j] } else { empty_weapon() },
        decreases 8 - i,
    {
        if i < weapons.len() {
            res.set(i, weapons[i]);
        }
        i += 1;
    }
    assert(res@ =~= dumped_weapons(weapons@));
    res
}

impl GameProfile {
    /// Takes a profile of the running game; see `spec_dump`. The time of
    /// day is the caller's to give.
    pub fn dump(game: &GameRecord, target_player: Option<TargetPlayer>, timestamp: u64) -> (res: GameProfile)
        requires
            game.game_flags@.len() == 1000,
        ensures
            res@ == spec_dump(*game, target_player, timestamp),
    {
        let player = match target_player {
            Some(TargetPlayer::Player2) => &game.player2,
            _ => &game.player1,
        };
        let weapon_data = dump_weapons(&game.player1.weapons);
        let weapon_data_p2 = if game.two_players {
            Some(dump_weapons(&game.player2.weapons))
        } else {
            None
        };

        let mut items = [Item(0, 0); 32];
        let mut i: usize = 0;
        while i < 32
            invariant
                i <= 32,
                items@.len() == 32,
                forall|j: int| 0 <= j < 32 ==> #[trigger] items@[j] == if j < i { dumped_items(player.items@)[j] } else { Item(0, 0) },
            decreases 32 - i,
        {
            if i < player.items.len() {
                items.set(i, player.items[i]);
            }
            i += 1;
        }
        assert(items@ =~= dumped_items(player.items@));

        let mut teleporter_slots = [TeleporterSlotData::new(); 8];
        let mut i: usize = 0;
        while i < 8
            invariant
                i <= 8,
                teleporter_slots@.len() == 8,
                forall|j: int| 0 <= j < 8 ==> #[trigger] teleporter_slots@[j] == if j < i {
                    dumped_slots(game.teleporter_slots@)[j]
                } else {
                    TeleporterSlotData { index: 0, event_num: 0 }
                },
            decreases 8 - i,
        {
            if i < game.teleporter_slots.len() {
                let (index, event_num): (u16, u16) = game.teleporter_slots[i];
                teleporter_slots.set(i, TeleporterSlotData { index: index as u32, event_num: event_num as u32 });
            }
            i += 1;
        }
        assert(teleporter_slots@ =~= dumped_slots(game.teleporter_slots@));

        let mut map_flags = [0u8; 128];
        let mut i: usize = 0;
        while i < game.map_flags.len()
            invariant
                i <= game.map_flags.len(),
                map_flags@.len() == 128,
                forall|j: int| 0 <= j < 128 ==> #[trigger] map_flags@[j] == if j < i && game.map_flags@[j] { 1u8 } else { 0u8 },
            ensures
                i == game.map_flags.len() || i >= 128,
                forall|j: int| 0 <= j < 128 ==> #[trigger] map_flags@[j] == if j < i && game.map_flags@[j] { 1u8 } else { 0u8 },
            decreases game.map_flags.len() - i,
        {
            if i < 128 {
                map_flags.set(i, if game.map_flags[i] { 1 } else { 0 });
            } else {
                break;
            }
            i += 1;
        }
        assert(map_flags@ =~= dumped_map_flags(game.map_flags@));

        let mut flags = [0u8; 1000];
        let mut i: usize = 0;
        while i < 1000
            invariant
                i <= 1000,
                game.game_flags@.len() == 1000,
                flags@.len() == 1000,
                forall|j: int| 0 <= j < i ==> #[trigger] flags@[j] == game.game_flags@[j],
            decreases 1000 - i,
        {
            flags.set(i, game.game_flags[i]);
            i += 1;
        }
        assert(flags@ =~= game.game_flags@);

        GameProfile {
            current_map: game.stage_id,
            current_song: game.current_song,
            pos_x: player.x,
            pos_y: player.y,
            direction: player.direction,
            max_life: game.player1.max_life,
            max_life_p2: game.player1.max_life,
            stars: player.stars,
            life: game.player1.life,
            life_p2: game.player2.life,
            current_weapon: player.current_weapon,
            current_item: player.current_item,
            equipment: player.equip as u32,
            control_mode: player.control_mode,
            counter: 0,
            weapon_data,
            weapon_data_p2,
            items,
            teleporter_slots,
            map_flags,
            flags,
            timestamp,
            difficulty: game.difficulty,
            eggfish_killed: false,
        }
    }
}


// ---------------------------------------------------------------------------
// Applying a profile to the game

/// A weapon a profile puts into an inventory, as the inventory takes it:
/// counts cut to 16 bits, the level 1 to 3 (anything else is level 1).
#[derive(Clone, Copy, Debug, PartialEq, Eq, Structural)]
pub struct AppliedWeapon {
    pub weapon_id: u32,
    pub ammo: u16,
    pub max_ammo: u16,
    pub exp: u16,
    pub level: u8,
}

/// What a profile sets of one player.
#[derive(Clone, Copy, Debug, PartialEq, Eq, Structural)]
pub struct AppliedPlayer {
    pub x: i32,
    pub y: i32,
    pub direction: Direction,
    pub life: u16,
    pub max_life: u16,
    /// Stars, at most 3.
    pub stars: u8,
    pub equip: u16,
    /// Whether the player swims as in the Ironhead fight.
    pub iron_head: bool,
}

/// Everything applying a profile sets in the game.
#[derive(Clone, Debug)]
pub struct ProfileApplication {
    pub song: u32,
    pub difficulty: u8,
    pub player1: AppliedPlayer,
    pub player2: AppliedPlayer,
    /// Player 1's selected weapon and item.
    pub current_weapon: u16,
    pub current_item: u16,
    /// The weapons given to each player, in profile order.
    pub weapons_p1: Vec<AppliedWeapon>,
    pub weapons_p2: Option<Vec<AppliedWeapon>>,
    /// Weapon and item ids to add to the mod requirements, in order.
    pub required_weapons: Vec<u16>,
    pub required_items: Vec<u16>,
    /// The items given to both players, in order.
    pub items: Vec<Item>,
    /// Teleporter destinations: (index, event).
    pub teleporter_slots: Vec<(u16, u16)>,
    /// One flag per map.
    pub map_flags: Vec<bool>,
    /// Which game flags are set (the others are left as they are).
    pub flags_set: Vec<bool>,
}

pub open spec fn applied_weapon(w: WeaponData) -> AppliedWeapon {
    AppliedWeapon {
        weapon_id: w.weapon_id,
        ammo: w.ammo as u16,
        max_ammo: w.max_ammo as u16,
        exp: w.exp as u16,
        level: if w.level == 2 { 2 } else if w.level == 3 { 3 } else { 1 },
    }
}

/// The weapons of a list that are there (id not 0), as given.
pub open spec fn applied_weapons(ws: Seq<WeaponData>) -> Seq<AppliedWeapon>
    decreases ws.len(),
{
    if ws.len() == 0 {
        Seq::empty()
    } else {
        let r = applied_weapons(ws.drop_last());
        if ws.last().weapon_id == 0 { r } else { r.push(applied_weapon(ws.last())) }
    }
}

/// The ids of given weapons, as mod requirements record them.
pub open spec fn weapon_requirements(ws: Seq<AppliedWeapon>) -> Seq<u16> {
    ws.map_values(|w: AppliedWeapon| w.weapon_id as u16)
}

/// Where the items of a profile end: at the first empty one.
pub open spec fn items_end(items: Seq<Item>) -> int {
    if exists|i: int| 0 <= i < items.len() && items[i].0 == 0 {
        choose|i: int| 0 <= i < items.len() && items[i].0 == 0 && forall|j: int| 0 <= j < i ==> items[j].0 != 0
    } else {
        items.len() as int
    }
}

/// The teleporter slots up to the first without an event.
pub open spec fn applied_slots(slots: Seq<TeleporterSlotData>, k: int) -> Seq<(u16, u16)> {
    slots.take(k).map_values(|s: TeleporterSlotData| (s.index as u16, s.event_num as u16))
}

/// Game flag `i` of a profile: bit `i % 8` of byte `i / 8`.
pub open spec fn profile_flag(flags: Seq<u8>, i: int) -> bool {
    (flags[i / 8] >> ((i % 8) as u8)) & 1u8 != 0
}

pub open spec fn applied_player1(v: ProfileView) -> AppliedPlayer {
    AppliedPlayer {
        x: v.pos_x,
        y: v.pos_y,
        direction: v.direction,
        life: v.life,
        max_life: v.max_life,
        stars: if v.stars > 3 { 3 } else { v.stars as u8 },
        equip: v.equipment as u16,
        iron_head: v.control_mode == 1,
    }
}

impl GameProfile {
    /// What loading this profile sets in the game: the song, the difficulty,
    /// player 1 (placed, with life, stars, equipment and controls) and
    /// player 2 as a copy (with their own life where the profile keeps
    /// one); player 1's selections; each player's weapons (those with an id,
    /// counts cut to 16 bits, levels other than 2 and 3 taken as 1), whose
    /// ids go to the mod requirements; the items up to the first empty one,
    /// for both players, the empty one's id (if any) going to the
    /// requirements with them; the teleporter slots up to the first without
    /// an event; the map flags; and the game flags that are set.
    pub fn apply(&self) -> (r: ProfileApplication)
        ensures
            r.song == self.current_song,
            r.difficulty == self.difficulty,
            r.player1 == applied_player1(self@),
            r.player2 == (if self.max_life_p2 != 0 && self.life_p2 != 0 {
                AppliedPlayer { max_life: self.max_life_p2, life: self.life_p2, ..applied_player1(self@) }
            } else {
                applied_player1(self@)
            }),
            r.current_weapon == self.current_weapon as u16,
            r.current_item == self.current_item as u16,
            r.weapons_p1@ == applied_weapons(self.weapon_data@),
            match self.weapon_data_p2 {
                Some(w) => r.weapons_p2 matches Some(v) && v@ == applied_weapons(w@),
                None => r.weapons_p2 is None,
            },
            r.required_weapons@ == weapon_requirements(applied_weapons(self.weapon_data@)) + match self.weapon_data_p2 {
                Some(w) => weapon_requirements(applied_weapons(w@)),
                None => Seq::empty(),
            },
            r.items@ == self.items@.take(items_end(self.items@)),
            r.required_items@ == self.items@.take(
                if items_end(self.items@) < 32 { items_end(self.items@) + 1 } else { 32 },
            ).map_values(|i: Item| i.0),
            r.teleporter_slots@ == applied_slots(
                self.teleporter_slots@,
                if exists|i: int| 0 <= i < 8 && self.teleporter_slots@[i].event_num == 0 {
                    choose|i: int|
                        0 <= i < 8 && self.teleporter_slots@[i].event_num == 0 && forall|j: int|
                            0 <= j < i ==> self.teleporter_slots@[j].event_num != 0
                } else {
                    8
                },
            ),
            r.map_flags@ == self.map_flags@.map_values(|f: u8| f != 0),
            r.flags_set@.len() == 8000,
            forall|i: int| 0 <= i < 8000 ==> #[trigger] r.flags_set@[i] == profile_flag(self.flags@, i),
    {
        let p1 = AppliedPlayer {
            x: self.pos_x,
            y: self.pos_y,
            direction: self.direction,
            life: self.life,
            max_life: self.max_life,
            stars: if self.stars > 3 { 3 } else { self.stars as u8 },
            equip: self.equipment as u16,
            iron_head: self.control_mode == 1,
        };
        let p2 = if self.max_life_p2 != 0 && self.life_p2 != 0 {
            AppliedPlayer { max_life: self.max_life_p2, life: self.life_p2, ..p1 }
        } else {
            p1
        };
        let weapons_p1 = apply_weapons(&self.weapon_data);
        let mut required_weapons = weapon_ids(&weapons_p1);
        let weapons_p2 = match &self.weapon_data_p2 {
            Some(w) => {
                let v = apply_weapons(w);
                let mut ids = weapon_ids(&v);
                required_weapons.append(&mut ids);
                Some(v)
            },
            None => None,
        };
        let (items, required_items) = apply_items(&self.items);
        let teleporter_slots = apply_slots(&self.teleporter_slots);
        let mut map_flags: Vec<bool> = Vec::new();
        let mut i: usize = 0;
        while i < 128
            invariant
                i <= 128,
                map_flags@ == self.map_flags@.take(i as int).map_values(|f: u8| f != 0),
            decreases 128 - i,
        {
            map_flags.push(self.map_flags[i] != 0);
            i += 1;
            assert(map_flags@ =~= self.map_flags@.take(i as int).map_values(|f: u8| f != 0));
        }
        assert(self.map_flags@.take(128) =~= self.map_flags@);
        let flags_set = unpack_flags(&self.flags);
        ProfileApplication {
            song: self.current_song,
            difficulty: self.difficulty,
            player1: p1,
            player2: p2,
            current_weapon: self.current_weapon as u16,
            current_item: self.current_item as u16,
            weapons_p1,
            weapons_p2,
            required_weapons,
            required_items,
            items,
            teleporter_slots,
            map_flags,
            flags_set,
        }
    }
}

fn apply_weapons(ws: &[WeaponData; 8]) -> (r: Vec<AppliedWeapon>)
    ensures
        r@ == applied_weapons(ws@),
{
    let mut r: Vec<AppliedWeapon> = Vec::new();
    let mut i: usize = 0;
    while i < 8
        invariant
            i <= 8,
            ws@.len() == 8,
            r@ == applied_weapons(ws@.take(i as int)),
        decreases 8 - i,
    {
        let w = ws[i];
        assert(ws@.take(i + 1).drop_last() =~= ws@.take(i as int));
        if w.weapon_id != 0 {
            r.push(
                AppliedWeapon {
                    weapon_id: w.weapon_id,
                    ammo: w.ammo as u16,
                    max_ammo: w.max_ammo as u16,
                    exp: w.exp as u16,
                    level: if w.level == 2 {
                        2
                    } else if w.level == 3 {
                        3
                    } else {
                        1
                    },
                },
            );
        }
        i += 1;
    }
    assert(ws@.take(8) =~= ws@);
    r
}

fn weapon_ids(ws: &Vec<AppliedWeapon>) -> (r: Vec<u16>)
    ensures
        r@ == weapon_requirements(ws@),
{
    let mut r: Vec<u16> = Vec::new();
    let mut i: usize = 0;
    while i < ws.len()
        invariant
            i <= ws@.len(),
            r@ == ws@.take(i as int).map_values(|w: AppliedWeapon| w.weapon_id as u16),
        decreases ws@.len() - i,
    {
        r.push(ws[i].weapon_id as u16);
        i += 1;
        assert(r@ =~= ws@.take(i as int).map_values(|w: AppliedWeapon| w.weapon_id as u16));
    }
    assert(ws@.take(ws@.len() as int) =~= ws@);
    r
}

fn apply_items(items: &[Item; 32]) -> (r: (Vec<Item>, Vec<u16>))
    ensures
        r.0@ == items@.take(items_end(items@)),
        r.1@ == items@.take(if items_end(items@) < 32 { items_end(items@) + 1 } else { 32 }).map_values(
            |i: Item| i.0,
        ),
{
    let mut given: Vec<Item> = Vec::new();
    let mut ids: Vec<u16> = Vec::new();
    let mut i: usize = 0;
    while i < 32
        invariant
            i <= 32,
            items@.len() == 32,
            forall|j: int| 0 <= j < i ==> items@[j].0 != 0,
            given@ == items@.take(i as int),
            ids@ == items@.take(i as int).map_values(|it: Item| it.0),
        decreases 32 - i,
    {
        let it = items[i];
        ids.push(it.0);
        assert(ids@ =~= items@.take(i + 1).map_values(|it: Item| it.0));
        if it.0 == 0 {
            proof {
                assert(items_end(items@) == i) by {
                    assert(items@[i as int].0 == 0);
                    let k = items_end(items@);
                    assert(0 <= k < 32 && items@[k].0 == 0);
                }
            }
            return (given, ids);
        }
        given.push(it);
        i += 1;
        assert(given@ =~= items@.take(i as int));
    }
    assert(items_end(items@) == 32);
    assert(items@.take(32) =~= items@);
    (given, ids)
}

fn apply_slots(slots: &[TeleporterSlotData; 8]) -> (r: Vec<(u16, u16)>)
    ensures
        r@ == applied_slots(
            slots@,
            if exists|i: int| 0 <= i < 8 && slots@[i].event_num == 0 {
                choose|i: int| 0 <= i < 8 && slots@[i].event_num == 0 && forall|j: int| 0 <= j < i ==> slots@[j].event_num != 0
            } else {
                8
            },
        ),
{
    let mut r: Vec<(u16, u16)> = Vec::new();
    let mut i: usize = 0;
    while i < 8
        invariant
            i <= 8,
            slots@.len() == 8,
            forall|j: int| 0 <= j < i ==> slots@[j].event_num != 0,
            r@ == applied_slots(slots@, i as int),
        decreases 8 - i,
    {
        let s = slots[i];
        if s.event_num == 0 {
            proof {
                assert(slots@[i as int].event_num == 0);
                let k = choose|k: int| 0 <= k < 8 && slots@[k].event_num == 0 && forall|j: int| 0 <= j < k ==> slots@[j].event_num != 0;
                assert(k == i);
            }
            return r;
        }
        r.push((s.index as u16, s.event_num as u16));
        i += 1;
        assert(r@ =~= applied_slots(slots@, i as int));
    }
    r
}

fn unpack_flags(flags: &[u8; 1000]) -> (r: Vec<bool>)
    ensures
        r@.len() == 8000,
        forall|i: int| 0 <= i < 8000 ==> #[trigger] r@[i] == profile_flag(flags@, i),
{
    let mut r: Vec<bool> = Vec::new();
    let mut idx: usize = 0;
    while idx < 1000
        invariant
            idx <= 1000,
            flags@.len() == 1000,
            r@.len() == idx * 8,
            forall|i: int| 0 <= i < idx * 8 ==> #[trigger] r@[i] == profile_flag(flags@, i),
        decreases 1000 - idx,
    {
        let byte = flags[idx];
        let mut b: u8 = 0;
        while b < 8
            invariant
                b <= 8,
                idx < 1000,
                flags@.len() == 1000,
                byte == flags@[idx as int],
                r@.len() == idx * 8 + b,
                forall|i: int| 0 <= i < idx * 8 + b ==> #[trigger] r@[i] == profile_flag(flags@, i),
            decreases 8 - b,
        {
            let ghost at: int = idx * 8 + b;
            assert(at / 8 == idx && at % 8 == b) by (nonlinear_arith)
                requires
                    at == idx * 8 + b,
                    0 <= b < 8,
                    idx >= 0,
            ;
            r.push((byte >> b) & 1 != 0);
            b += 1;
        }
        idx += 1;
    }
    r
}

/// A taken profile copies the game as it is: each of the first eight
/// weapons player 1 carries, field by field, then empty slots (all zero);
/// player 2's the same way in a two-player game and none otherwise; the
/// first 32 of the target's items, then empty ones; the first eight
/// teleporter destinations, then empty ones; a map flag byte of 1 for each
/// of the first 128 maps visited, else 0; the game flag bytes as they are;
/// the target's position, facing, stars, equipment, controls and
/// selections; player 1's maximum life in both maximum-life fields and
/// each player's own life.
pub proof fn law_dump_copies_the_game(g: GameRecord, target: Option<TargetPlayer>, timestamp: u64)
    ensures
        ({
            let d = spec_dump(g, target, timestamp);
            let p = if target == Some(TargetPlayer::Player2) { g.player2 } else { g.player1 };
            let zero = WeaponData { weapon_id: 0, level: 0, exp: 0, max_ammo: 0, ammo: 0 };
            &&& d.weapon_data.len() == 8
            &&& forall|i: int| 0 <= i < 8 && i < g.player1.weapons@.len() ==> #[trigger] d.weapon_data[i]
                == g.player1.weapons@[i]
            &&& forall|i: int| g.player1.weapons@.len() <= i < 8 ==> #[trigger] d.weapon_data[i] == zero
            &&& g.two_players ==> (d.weapon_data_p2 matches Some(w) && w.len() == 8 && (forall|i: int|
                0 <= i < 8 && i < g.player2.weapons@.len() ==> #[trigger] w[i] == g.player2.weapons@[i]) && (forall|i: int|
                g.player2.weapons@.len() <= i < 8 ==> #[trigger] w[i] == zero))
            &&& !g.two_players ==> d.weapon_data_p2 is None
            &&& d.items.len() == 32
            &&& forall|i: int| 0 <= i < 32 && i < p.items@.len() ==> #[trigger] d.items[i] == p.items@[i]
            &&& forall|i: int| p.items@.len() <= i < 32 ==> #[trigger] d.items[i] == Item(0, 0)
            &&& d.teleporter_slots.len() == 8
            &&& forall|i: int| 0 <= i < 8 && i < g.teleporter_slots@.len() ==> #[trigger] d.teleporter_slots[i]
                == (TeleporterSlotData { index: g.teleporter_slots@[i].0 as u32, event_num: g.teleporter_slots@[i].1 as u32 })
            &&& forall|i: int| g.teleporter_slots@.len() <= i < 8 ==> #[trigger] d.teleporter_slots[i]
                == (TeleporterSlotData { index: 0, event_num: 0 })
            &&& d.map_flags.len() == 128
            &&& forall|i: int| 0 <= i < 128 ==> #[trigger] d.map_flags[i] == if i < g.map_flags@.len() && g.map_flags@[i] {
                1u8
            } else {
                0u8
            }
            &&& d.flags == g.game_flags@
            &&& d.current_map == g.stage_id && d.current_song == g.current_song
            &&& d.pos_x == p.x && d.pos_y == p.y && d.direction == p.direction
            &&& d.stars == p.stars && d.equipment == p.equip as u32 && d.control_mode == p.control_mode
            &&& d.current_weapon == p.current_weapon && d.current_item == p.current_item
            &&& d.max_life == g.player1.max_life && d.max_life_p2 == g.player1.max_life
            &&& d.life == g.player1.life && d.life_p2 == g.player2.life
            &&& d.timestamp == timestamp && d.difficulty == g.difficulty
            &&& d.counter == 0 && !d.eggfish_killed
        }),
{
}

/// The weapons a profile gives, when every slot holds one: the same
/// weapons in the same order, each with its id, its counts cut to 16 bits,
/// and level 2 or 3 kept, any other level made 1.
pub proof fn law_applied_weapons_full(ws: Seq<WeaponData>)
    requires
        forall|i: int| 0 <= i < ws.len() ==> #[trigger] ws[i].weapon_id != 0,
    ensures
        applied_weapons(ws).len() == ws.len(),
        forall|i: int|
            0 <= i < ws.len() ==> {
                let a = #[trigger] applied_weapons(ws)[i];
                &&& a.weapon_id == ws[i].weapon_id
                &&& a.ammo == ws[i].ammo as u16
                &&& a.max_ammo == ws[i].max_ammo as u16
                &&& a.exp == ws[i].exp as u16
                &&& a.level == if ws[i].level == 2 { 2u8 } else if ws[i].level == 3 { 3u8 } else { 1u8 }
            },
    decreases ws.len(),
{
    if ws.len() > 0 {
        let d = ws.drop_last();
        assert forall|i: int| 0 <= i < d.len() implies #[trigger] d[i].weapon_id != 0 by {
            assert(d[i] == ws[i]);
        }
        law_applied_weapons_full(d);
        assert(ws.last() == ws[ws.len() - 1]);
    }
}

/// Empty weapon slots (id 0) give nothing: dropping them from a profile's
/// weapons leaves what it gives unchanged, and a profile of empty slots
/// gives no weapon.
pub proof fn law_applied_weapons_skip_empty(ws: Seq<WeaponData>, w: WeaponData)
    ensures
        w.weapon_id == 0 ==> applied_weapons(ws.push(w)) == applied_weapons(ws),
        w.weapon_id != 0 ==> applied_weapons(ws.push(w)) == applied_weapons(ws).push(
            AppliedWeapon {
                weapon_id: w.weapon_id,
                ammo: w.ammo as u16,
                max_ammo: w.max_ammo as u16,
                exp: w.exp as u16,
                level: if w.level == 2 { 2u8 } else if w.level == 3 { 3u8 } else { 1u8 },
            },
        ),
        (forall|i: int| 0 <= i < ws.len() ==> #[trigger] ws[i].weapon_id == 0) ==> applied_weapons(ws).len() == 0,
    decreases ws.len(),
{
    assert(ws.push(w).drop_last() =~= ws);
    if ws.len() > 0 && forall|i: int| 0 <= i < ws.len() ==> #[trigger] ws[i].weapon_id == 0 {
        let d = ws.drop_last();
        law_applied_weapons_skip_empty(d, ws.last());
        assert(d.push(ws.last()) =~= ws);
        assert(ws.last() == ws[ws.len() - 1]);
        assert forall|i: int| 0 <= i < d.len() implies #[trigger] d[i].weapon_id == 0 by {
            assert(d[i] == ws[i]);
        }
    }
}

/// What applying a profile sets of player 1, spelled out: the position,
/// facing, life and maximum life as stored; the stars, at most 3; the low
/// 16 equipment bits; Ironhead controls exactly when the stored control
/// mode is 1.
pub proof fn law_applied_player1(v: ProfileView)
    ensures
        applied_player1(v).x == v.pos_x,
        applied_player1(v).y == v.pos_y,
        applied_player1(v).direction == v.direction,
        applied_player1(v).life == v.life,
        applied_player1(v).max_life == v.max_life,
        applied_player1(v).stars as int == if v.stars > 3 { 3 } else { v.stars as int },
        applied_player1(v).equip as int == v.equipment as int % 0x10000,
        applied_player1(v).iron_head == (v.control_mode == 1),
{
    let e = v.equipment;
    assert(e as u16 as int == e as int % 0x10000) by (bit_vector);
}

/// Best times across tick rates, spelled out: a time keeps its count at
/// its own rate and whenever either side is frame-synchronised; 60 Hz
/// counts go to 50 Hz as whole seconds times 50 (`ticks / 60 * 50`), 50 Hz
/// counts to 60 Hz as `ticks / 50 * 60`. A time is worse than another when,
/// so converted to the other's rate, its count is larger; and it compares
/// equal (by its own count) to any time at its own rate.
pub proof fn law_best_time_rates(t: ChallengeTime, u: ChallengeTime)
    ensures
        t.timing_mode == u.timing_mode || t.timing_mode == TimingMode::FrameSynchronized || u.timing_mode
            == TimingMode::FrameSynchronized ==> spec_convert_timing(t, u.timing_mode) == t.ticks,
        t.timing_mode == TimingMode::_60Hz && u.timing_mode == TimingMode::_50Hz ==> spec_convert_timing(
            t,
            u.timing_mode,
        ) == t.ticks as int / 60 * 50,
        t.timing_mode == TimingMode::_50Hz && u.timing_mode == TimingMode::_60Hz ==> spec_convert_timing(
            t,
            u.timing_mode,
        ) == t.ticks as int / 50 * 60,
        t.timing_mode == u.timing_mode ==> (spec_time_greater(t, u) <==> t.ticks > u.ticks),
        t.timing_mode == TimingMode::_60Hz && u.timing_mode == TimingMode::_50Hz ==> (spec_time_greater(t, u)
            <==> t.ticks as int / 60 * 50 > u.ticks),
{
}

/// Where a freeware profile record keeps each field, counting from its
/// start: the signature "Do041220" (or the older "Do041115") in the first
/// 8 bytes; then, little-endian, the map at 8, the song at 12, the
/// position at 16 and 20, the facing at 24, the maximum life at 28, the
/// stars at 30, the life at 32, the selected weapon and item at 36 and 40,
/// the equipment at 44, the control mode at 48, the counter at 52; eight
/// 20-byte weapons from 56 (id, level, experience, capacity, ammunition);
/// 32 four-byte items from 216 (id, then one less than the amount); eight
/// teleporter slots from 344 (index, event); 128 map flag bytes from 408;
/// the signature "FLAG" at 536 and the 1000 flag bytes from 540.
pub proof fn law_freeware_record_layout(d: Seq<u8>, p: int)
    requires
        0 <= p,
        spec_decode_profile(d, p, SaveFormat::Freeware).0 is Ok,
    ensures
        ({
            let v = spec_decode_profile(d, p, SaveFormat::Freeware).0->Ok_0;
            &&& u64_be(d, p) == SIG_DO041220 || u64_be(d, p) == SIG_DO041115
            &&& u32_be(d, p + 536) == SIG_FLAG
            &&& v.current_map == u32_le(d, p + 8)
            &&& v.current_song == u32_le(d, p + 12)
            &&& v.pos_x == u32_le(d, p + 16) as i32
            &&& v.pos_y == u32_le(d, p + 20) as i32
            &&& (u32_le(d, p + 24) == 2 ==> v.direction == Direction::Right)
            &&& (u32_le(d, p + 24) == 0 ==> v.direction == Direction::Left)
            &&& v.max_life == u16_le(d, p + 28)
            &&& v.stars == u16_le(d, p + 30)
            &&& v.life == u16_le(d, p + 32)
            &&& v.current_weapon == u32_le(d, p + 36)
            &&& v.current_item == u32_le(d, p + 40)
            &&& v.equipment == u32_le(d, p + 44)
            &&& v.control_mode == u32_le(d, p + 48)
            &&& v.counter == u32_le(d, p + 52)
            &&& forall|i: int|
                0 <= i < 8 ==> (#[trigger] v.weapon_data[i]).weapon_id == u32_le(d, p + 56 + 20 * i) && v.weapon_data[i].level
                    == u32_le(d, p + 60 + 20 * i) && v.weapon_data[i].exp == u32_le(d, p + 64 + 20 * i)
                    && v.weapon_data[i].max_ammo == u32_le(d, p + 68 + 20 * i) && v.weapon_data[i].ammo == u32_le(
                    d,
                    p + 72 + 20 * i,
                )
            &&& forall|i: int|
                0 <= i < 32 ==> (#[trigger] v.items[i]).0 == u16_le(d, p + 216 + 4 * i) && v.items[i].1 as int == (
                u16_le(d, p + 218 + 4 * i) + 1) % 0x10000
            &&& forall|i: int|
                0 <= i < 8 ==> (#[trigger] v.teleporter_slots[i]).index == u32_le(d, p + 344 + 8 * i)
                    && v.teleporter_slots[i].event_num == u32_le(d, p + 348 + 8 * i)
            &&& v.map_flags == d.subrange(p + 408, p + 536)
            &&& v.flags == d.subrange(p + 540, p + 1540)
        }),
{
    let v = spec_decode_profile(d, p, SaveFormat::Freeware).0->Ok_0;
    assert forall|i: int| 0 <= i < 32 implies (#[trigger] v.items[i]).1 as int == (u16_le(d, p + 218 + 4 * i) + 1)
        % 0x10000 by {
        let a = u16_le(d, p + 218 + 4 * i);
        assert(vstd::wrapping::u16_specs::wrapping_add(a, 1) as int == (a + 1) % 0x10000);
    }
}

} // verus!
