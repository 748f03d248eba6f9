//! Recognising save layouts, and the single-file layout of Cave Story+
//! (PC and Switch): 81 profiles, slot activity bits, options, challenge
//! best times and trailing data.

use vstd::prelude::*;

use crate::bytes::{
    le16, le32, push_slice, push_u16_le, push_u32_le, push_u8, push_zeros, u32_le, u64_be, zeros,
    ByteReader,
};
use crate::common::{TimingMode, Version};
use crate::profile::time_convertible;
use crate::profile::{
    default_profile_view, spec_convert_timing, spec_decode_profile, spec_decode_time,
    spec_encode_profile, spec_encode_time, spec_time_greater, ChallengeTime, GameProfile,
    ProfileView, SaveError, SIG_DO041115, SIG_DO041220,
};
use crate::save_container::{
    set_profiles, spec_dump_unlocks, spec_get_profile, switch_ver_1_2, switch_ver_1_3,
    times_convertible, unlock_bit, CSPModProfile, ChallengeUnlocks, ModRequirements,
    SaveContainer, SaveContainerError, SaveFormat, SaveParams, SaveSlot,
};
use crate::text::str_chars;

verus! {

/// Which Switch release wrote a Switch save: 1.2 and 1.3 saves have the
/// same size and differ in the shared health option and a 4-byte shift of
/// the challenge times. A set shared-health byte or a zero first time means
/// 1.2; otherwise a zero second or third time means 1.3 (those challenges
/// need the first one, so a real 1.2 save would have them zero only when
/// the first is zero too); otherwise 1.2.
pub open spec fn spec_switch_version(d: Seq<u8>) -> Version {
    let shared_health = d[0x20eb4] == 1;
    let hell_time = u32_le(d, 0x20eb8) == 0;
    let sanctuary_time = u32_le(d, 0x20ebc) == 0;
    let boss_time = u32_le(d, 0x20ec0) == 0;
    if shared_health || hell_time {
        switch_ver_1_2()
    } else if sanctuary_time || boss_time {
        switch_ver_1_3()
    } else {
        switch_ver_1_2()
    }
}

/// The layout a save file is in, judged by its first eight bytes and its
/// size; `json_container` says whether the data reads as a generic (JSON)
/// container, which is tried last for data starting with `{`.
pub open spec fn spec_recognise(d: Seq<u8>, json_container: bool) -> Result<
    SaveFormat,
    SaveContainerError,
> {
    if d.len() < 8 {
        Err(SaveContainerError::UnexpectedEof)
    } else {
        let magic = u64_be(d, 0);
        let len = d.len();
        let original = if magic == 0 {
            if len == 0x20020 {
                Some(SaveFormat::Plus)
            } else if len == 0x20fb0 {
                Some(SaveFormat::Switch(spec_switch_version(d)))
            } else {
                None
            }
        } else if magic == SIG_DO041220 {
            if 0x604 <= len <= 0x620 {
                Some(SaveFormat::Freeware)
            } else if len == 0x20020 {
                Some(SaveFormat::Plus)
            } else if len == 0x20fb0 {
                Some(SaveFormat::Switch(spec_switch_version(d)))
            } else {
                None
            }
        } else if magic == SIG_DO041115 {
            Some(SaveFormat::Freeware)
        } else {
            None
        };
        match original {
            Some(f) => Ok(f),
            None => if d[0] == 0x7b && json_container {
                Ok(SaveFormat::Generic)
            } else {
                Err(SaveContainerError::UnsupportedFormat)
            },
        }
    }
}

fn switch_version(data: &[u8]) -> (r: Version)
    requires
        data@.len() == 0x20fb0,
    ensures
        r == spec_switch_version(data@),
{
    let shared_health = data[0x20eb4] == 1;
    let mut cur = ByteReader::new(data);
    cur.pos = 0x20eb8;
    let hell_time = cur.read_u32_le().unwrap() == 0;
    let sanctuary_time = cur.read_u32_le().unwrap() == 0;
    let boss_time = cur.read_u32_le().unwrap() == 0;
    if shared_health || hell_time {
        Version { major: 1, minor: 2, patch: 0 }
    } else if sanctuary_time || boss_time {
        Version { major: 1, minor: 3, patch: 0 }
    } else {
        Version { major: 1, minor: 2, patch: 0 }
    }
}

impl SaveFormat {
    /// The layout of a save file; see `spec_recognise`.
    pub fn recognise(data: &[u8], json_container: bool) -> (r: Result<SaveFormat, SaveContainerError>)
        ensures
            r == spec_recognise(data@, json_container),
    {
        let mut cur = ByteReader::new(data);
        let magic = match cur.read_u64_be() {
            Some(m) => m,
            None => {
                return Err(SaveContainerError::UnexpectedEof);
            },
        };
        let len = data.len();
        let original = if magic == 0 {
            if len == 0x20020 {
                Some(SaveFormat::Plus)
            } else if len == 0x20fb0 {
                Some(SaveFormat::Switch(switch_version(data)))
            } else {
                None
            }
        } else if magic == SIG_DO041220 {
            if 0x604 <= len && len <= 0x620 {
                Some(SaveFormat::Freeware)
            } else if len == 0x20020 {
                Some(SaveFormat::Plus)
            } else if len == 0x20fb0 {
                Some(SaveFormat::Switch(switch_version(data)))
            } else {
                None
            }
        } else if magic == SIG_DO041115 {
            Some(SaveFormat::Freeware)
        } else {
            None
        };
        match original {
            Some(f) => Ok(f),
            None => {
                if data[0] == 0x7b && json_container {
                    Ok(SaveFormat::Generic)
                } else {
                    Err(SaveContainerError::UnsupportedFormat)
                }
            },
        }
    }
}

/// The slot of profile `slot` (1 to 3) of save set `set`; set 0 is the
/// main game.
pub open spec fn slot_key(set: u8, slot: usize) -> SaveSlot {
    if set == 0 {
        SaveSlot::MainGame(slot)
    } else {
        SaveSlot::CSPMod(set, slot)
    }
}

/// Whether a slot takes part: an empty selection means every slot.
pub open spec fn slot_selected(slots: Seq<SaveSlot>, s: SaveSlot) -> bool {
    slots.len() == 0 || slots.contains(s)
}

/// The profile written for a slot: the stored one when the slot is
/// selected and holds one.
pub open spec fn csp_written(c: SaveContainer, slots: Seq<SaveSlot>, set: u8, slot: usize) -> Option<
    GameProfile,
> {
    if slot_selected(slots, slot_key(set, slot)) {
        spec_get_profile(c, slot_key(set, slot))
    } else {
        None
    }
}

pub open spec fn written_view(c: SaveContainer, slots: Seq<SaveSlot>, set: u8, slot: usize) -> ProfileView {
    match csp_written(c, slots, set, slot) {
        Some(p) => p@,
        None => default_profile_view(),
    }
}

/// Records of the first `n` slots of a set.
pub open spec fn set_bytes(c: SaveContainer, slots: Seq<SaveSlot>, f: SaveFormat, set: u8, n: nat) -> Seq<u8>
    decreases n,
{
    if n == 0 {
        Seq::empty()
    } else {
        set_bytes(c, slots, f, set, (n - 1) as nat) + spec_encode_profile(
            written_view(c, slots, set, n as usize),
            f,
        )
    }
}

/// Records of the first `m` sets, three slots each.
pub open spec fn sets_bytes(c: SaveContainer, slots: Seq<SaveSlot>, f: SaveFormat, m: nat) -> Seq<u8>
    decreases m,
{
    if m == 0 {
        Seq::empty()
    } else {
        sets_bytes(c, slots, f, (m - 1) as nat) + set_bytes(c, slots, f, (m - 1) as u8, 3)
    }
}

/// Activity bits of the first `n` slots of a set: bit `k - 1` for a written
/// profile in slot `k`.
pub open spec fn active_bits(c: SaveContainer, slots: Seq<SaveSlot>, set: u8, n: nat) -> u8
    decreases n,
{
    if n == 0 {
        0
    } else {
        let a = active_bits(c, slots, set, (n - 1) as nat);
        if csp_written(c, slots, set, n as usize) is Some {
            a | slot_bit(n as usize)
        } else {
            a
        }
    }
}

pub open spec fn slot_bit(slot: usize) -> u8 {
    if slot == 1 {
        1
    } else if slot == 2 {
        2
    } else {
        4
    }
}

/// The 32 activity bytes: one per set for sets 0 to 26, then zeros.
pub open spec fn active_table(c: SaveContainer, slots: Seq<SaveSlot>) -> Seq<u8> {
    Seq::new(32, |i: int| if i <= 26 { active_bits(c, slots, i as u8, 3) } else { 0u8 })
}

/// The options Cave Story+ keeps beside the profiles.
pub struct CspOptions {
    /// Music volume in tenths (the volume setting times ten, rounded down).
    pub bgm_level: u32,
    pub seasonal_textures: bool,
    pub soundtrack: String,
    pub original_textures: bool,
    pub locale: String,
}

/// The soundtrack byte: Organya unless another known soundtrack is chosen.
pub open spec fn soundtrack_code(s: Seq<char>) -> u8 {
    if s == "new"@ {
        3
    } else if s == "remastered"@ {
        4
    } else if s == "famitracks"@ {
        5
    } else if s == "ridiculon"@ {
        6
    } else {
        2
    }
}

pub open spec fn flag_byte(b: bool) -> u8 {
    if b {
        1
    } else {
        0
    }
}

/// The option block. Both volume fields carry the music volume, capped at 10.
pub open spec fn options_bytes(o: CspOptions, beat_hell: bool, f: SaveFormat) -> Seq<u8> {
    let v: u32 = if o.bgm_level > 10 {
        10
    } else {
        o.bgm_level
    };
    le32(v) + le32(v) + seq![
        flag_byte(o.seasonal_textures),
        soundtrack_code(o.soundtrack@),
        flag_byte(o.original_textures),
        flag_byte(o.locale@ == "jp"@),
        flag_byte(beat_hell),
    ] + if f is Switch {
        seq![0xffu8, 0xff, 0xff, 0xff, 0xff, 0xff, 0, 0, 0, 0, 0]
    } else {
        zeros(7)
    }
}

/// The last challenge id stored by a layout.
pub open spec fn last_time_id(f: SaveFormat) -> u8 {
    match f {
        SaveFormat::Switch(v) => if v == switch_ver_1_2() {
            29
        } else if v == switch_ver_1_3() {
            28
        } else {
            26
        },
        _ => 26,
    }
}

pub open spec fn is_switch_1_3(f: SaveFormat) -> bool {
    match f {
        SaveFormat::Switch(v) => v == switch_ver_1_3(),
        _ => false,
    }
}

/// The best time stored for a challenge, or none yet.
pub open spec fn stored_time(c: SaveContainer, id: u8) -> ChallengeTime {
    if c.csp_best_times@.contains_key(id) {
        c.csp_best_times@[id]
    } else {
        ChallengeTime { timing_mode: TimingMode::FrameSynchronized, ticks: 0 }
    }
}

/// Best times of the first `m` challenges, counted at 60 ticks a second.
pub open spec fn times_bytes(c: SaveContainer, f: SaveFormat, m: nat) -> Seq<u8>
    decreases m,
{
    if m == 0 {
        Seq::empty()
    } else {
        let t = stored_time(c, (m - 1) as u8);
        times_bytes(c, f, (m - 1) as nat) + spec_encode_time(
            ChallengeTime {
                timing_mode: TimingMode::_60Hz,
                ticks: spec_convert_timing(t, TimingMode::_60Hz) as usize,
            },
            seq![0u8, 0, 0, 0],
            f,
        )
    }
}

pub open spec fn eggfish_byte(c: SaveContainer, slots: Seq<SaveSlot>, slot: usize) -> u8 {
    match csp_written(c, slots, 0, slot) {
        Some(p) => flag_byte(p.eggfish_killed),
        None => 0,
    }
}

/// What follows the times: challenge unlocks on Switch, the main game's
/// Ironhead-fish flags on PC.
pub open spec fn tail_bytes(c: SaveContainer, slots: Seq<SaveSlot>, f: SaveFormat, r: ModRequirements) -> Seq<u8> {
    if f is Switch {
        seq![spec_dump_unlocks(r)] + zeros(0x77) + le16(0) + zeros(6)
    } else {
        seq![eggfish_byte(c, slots, 1), eggfish_byte(c, slots, 2), eggfish_byte(c, slots, 3)]
            + zeros(0x3d) + zeros(0xf20)
    }
}

/// The whole Cave Story+ save file.
pub open spec fn spec_csp_save(
    c: SaveContainer,
    slots: Seq<SaveSlot>,
    f: SaveFormat,
    o: CspOptions,
    r: ModRequirements,
) -> Seq<u8> {
    sets_bytes(c, slots, f, 27) + active_table(c, slots) + options_bytes(o, r.beat_hell, f) + (
    if is_switch_1_3(f) {
        le32(0)
    } else {
        Seq::empty()
    }) + times_bytes(c, f, (last_time_id(f) + 1) as nat) + tail_bytes(c, slots, f, r)
}

/// Whether `s` holds exactly the characters of `lit`.
pub fn text_is(s: &str, lit: &str) -> (r: bool)
    ensures
        r == (s@ == lit@),
{
    let a = str_chars(s);
    let b = str_chars(lit);
    if a.len() != b.len() {
        return false;
    }
    let mut i: usize = 0;
    while i < a.len()
        invariant
            a@ == s@,
            b@ == lit@,
            a@.len() == b@.len(),
            i <= a@.len(),
            forall|j: int| 0 <= j < i ==> a@[j] == b@[j],
        decreases a@.len() - i,
    {
        if a[i] != b[i] {
            return false;
        }
        i += 1;
    }
    assert(a@ =~= b@);
    true
}

fn selected(slots: &Vec<SaveSlot>, set: u8, slot: usize) -> (r: bool)
    ensures
        r == slot_selected(slots@, slot_key(set, slot)),
{
    if slots.len() == 0 {
        return true;
    }
    let mut i: usize = 0;
    while i < slots.len()
        invariant
            i <= slots@.len(),
            slots@.len() > 0,
            forall|j: int| 0 <= j < i ==> slots@[j] != slot_key(set, slot),
        decreases slots@.len() - i,
    {
        let hit = match &slots[i] {
            SaveSlot::MainGame(n) => set == 0 && *n == slot,
            SaveSlot::CSPMod(s, n) => set != 0 && *s == set && *n == slot,
            SaveSlot::Mod(_, _) => false,
        };
        if hit {
            assert(slots@[i as int] == slot_key(set, slot));
            return true;
        }
        i += 1;
    }
    false
}

fn soundtrack_byte(s: &str) -> (r: u8)
    ensures
        r == soundtrack_code(s@),
{
    proof {
        reveal_strlit("organya");
        reveal_strlit("new");
        reveal_strlit("remastered");
        reveal_strlit("famitracks");
        reveal_strlit("ridiculon");
        assert("organya"@.len() == 7);
        assert("new"@.len() == 3);
        assert("remastered"@.len() == 10);
        assert("famitracks"@.len() == 10);
        assert("ridiculon"@.len() == 9);
    }
    if text_is(s, "organya") {
        2
    } else if text_is(s, "new") {
        3
    } else if text_is(s, "remastered") {
        4
    } else if text_is(s, "famitracks") {
        5
    } else if text_is(s, "ridiculon") {
        6
    } else {
        2
    }
}

impl SaveContainer {
    /// The profile written for a slot; see `csp_written`.
    fn written_profile(&self, slots: &Vec<SaveSlot>, set: u8, slot: usize) -> (r: Option<&GameProfile>)
        ensures
            match r {
                Some(p) => csp_written(*self, slots@, set, slot) == Some(*p),
                None => csp_written(*self, slots@, set, slot) is None,
            },
    {
        if !selected(slots, set, slot) {
            return None;
        }
        if set == 0 {
            self.get_profile(SaveSlot::MainGame(slot))
        } else {
            self.get_profile(SaveSlot::CSPMod(set, slot))
        }
    }

    /// Appends the three records of save set `set`, marking the written
    /// slots in `active` and, for the main game, their Ironhead-fish flags.
    #[verifier::rlimit(30)]
    fn encode_set(
        &self,
        slots: &Vec<SaveSlot>,
        format: SaveFormat,
        set: u8,
        default_profile: &GameProfile,
        out: &mut Vec<u8>,
        active: &mut [u8; 32],
        eggfish: &mut [u8; 3],
    )
        requires
            set <= 26,
            default_profile@ == default_profile_view(),
            old(out)@ == sets_bytes(*self, slots@, format, set as nat),
            forall|j: int|
                0 <= j < 32 ==> #[trigger] old(active)@[j] == if j < set {
                    active_bits(*self, slots@, j as u8, 3)
                } else {
                    0u8
                },
            set > 0 ==> old(eggfish)@ == seq![
                eggfish_byte(*self, slots@, 1),
                eggfish_byte(*self, slots@, 2),
                eggfish_byte(*self, slots@, 3),
            ],
        ensures
            final(out)@ == sets_bytes(*self, slots@, format, (set + 1) as nat),
            forall|j: int|
                0 <= j < 32 ==> #[trigger] final(active)@[j] == if j <= set {
                    active_bits(*self, slots@, j as u8, 3)
                } else {
                    0u8
                },
            final(eggfish)@ == seq![
                eggfish_byte(*self, slots@, 1),
                eggfish_byte(*self, slots@, 2),
                eggfish_byte(*self, slots@, 3),
            ],
    {
        let mut slot: usize = 1;
        let ghost before = out@;
        while slot <= 3
            invariant
                set <= 26,
                1 <= slot <= 4,
                before == sets_bytes(*self, slots@, format, set as nat),
                out@ == before + set_bytes(*self, slots@, format, set, (slot - 1) as nat),
                default_profile@ == default_profile_view(),
                forall|j: int|
                    0 <= j < 32 ==> #[trigger] active@[j] == if j < set {
                        active_bits(*self, slots@, j as u8, 3)
                    } else if j == set {
                        active_bits(*self, slots@, set, (slot - 1) as nat)
                    } else {
                        0u8
                    },
                set == 0 ==> forall|j: int|
                    0 <= j < slot - 1 ==> #[trigger] eggfish@[j] == eggfish_byte(
                        *self,
                        slots@,
                        (j + 1) as usize,
                    ),
                set > 0 ==> eggfish@ == seq![
                    eggfish_byte(*self, slots@, 1),
                    eggfish_byte(*self, slots@, 2),
                    eggfish_byte(*self, slots@, 3),
                ],
            decreases 4 - slot,
        {
            let chosen = self.written_profile(slots, set, slot);
            let ghost v = written_view(*self, slots@, set, slot);
            let ghost prev = out@;
            proof {
                assert(set_bytes(*self, slots@, format, set, slot as nat) == set_bytes(
                    *self,
                    slots@,
                    format,
                    set,
                    (slot - 1) as nat,
                ) + spec_encode_profile(v, format));
                vstd::seq_lib::lemma_concat_associative(
                    before,
                    set_bytes(*self, slots@, format, set, (slot - 1) as nat),
                    spec_encode_profile(v, format),
                );
            }
            let bit: u8 = if slot == 1 {
                1
            } else if slot == 2 {
                2
            } else {
                4
            };
            match chosen {
                Some(p) => {
                    active[set as usize] = active[set as usize] | bit;
                    p.write_save(out, &format);
                    if set == 0 {
                        eggfish[slot - 1] = if p.eggfish_killed {
                            1
                        } else {
                            0
                        };
                    }
                },
                None => {
                    default_profile.write_save(out, &format);
                    if set == 0 {
                        eggfish[slot - 1] = 0;
                    }
                },
            }
            assert(out@ == prev + spec_encode_profile(v, format));
            slot += 1;
        }
        assert(eggfish@ =~= seq![
            eggfish_byte(*self, slots@, 1),
            eggfish_byte(*self, slots@, 2),
            eggfish_byte(*self, slots@, 3),
        ]);
    }

    /// The Cave Story+ (PC or Switch) save file holding this container's
    /// profiles and best times; see `spec_csp_save`.
    #[verifier::rlimit(40)]
    pub fn encode_csp_save(
        &self,
        format: SaveFormat,
        params: &SaveParams,
        options: &CspOptions,
        mod_requirements: &ModRequirements,
    ) -> (r: Vec<u8>)
        requires
            format is Plus || format is Switch,
            times_convertible(self.csp_best_times@),
        ensures
            r@ == spec_csp_save(*self, params.slots@, format, *options, *mod_requirements),
    {
        let slots = &params.slots;
        let mut out: Vec<u8> = Vec::new();
        let mut active = [0u8;32];
        let mut eggfish = [0u8;3];
        let default_profile = GameProfile::new();
        let mut set: u8 = 0;
        while set <= 26
            invariant
                set <= 27,
                out@ == sets_bytes(*self, slots@, format, set as nat),
                default_profile@ == default_profile_view(),
                forall|j: int|
                    0 <= j < 32 ==> #[trigger] active@[j] == if j < set {
                        active_bits(*self, slots@, j as u8, 3)
                    } else {
                        0u8
                    },
                set > 0 ==> eggfish@ == seq![
                    eggfish_byte(*self, slots@, 1),
                    eggfish_byte(*self, slots@, 2),
                    eggfish_byte(*self, slots@, 3),
                ],
            decreases 27 - set,
        {
            self.encode_set(slots, format, set, &default_profile, &mut out, &mut active, &mut eggfish);
            set += 1;
        }
        assert(active@ =~= active_table(*self, slots@));
        push_slice(&mut out, &active);
        let ghost after_active = out@;
        let level: u32 = if options.bgm_level > 10 {
            10
        } else {
            options.bgm_level
        };
        push_u32_le(&mut out, level);
        push_u32_le(&mut out, level);
        push_u8(&mut out, if options.seasonal_textures { 1 } else { 0 });
        push_u8(&mut out, soundtrack_byte(options.soundtrack.as_str()));
        push_u8(&mut out, if options.original_textures { 1 } else { 0 });
        push_u8(&mut out, if text_is(options.locale.as_str(), "jp") { 1 } else { 0 });
        push_u8(&mut out, if mod_requirements.beat_hell { 1 } else { 0 });
        if format.is_switch() {
            push_u8(&mut out, 0xff);
            push_u8(&mut out, 0xff);
            push_u8(&mut out, 0xff);
            push_u8(&mut out, 0xff);
            push_u8(&mut out, 0xff);
            push_u8(&mut out, 0xff);
            push_u8(&mut out, 0);
            push_u8(&mut out, 0);
            push_zeros(&mut out, 3);
        } else {
            push_zeros(&mut out, 7);
        }
        assert(out@ =~= after_active + options_bytes(*options, mod_requirements.beat_hell, format));
        let ghost after_options = out@;
        let last: u8 = match format {
            SaveFormat::Switch(v) => {
                if v.major == 1 && v.minor == 2 && v.patch == 0 {
                    29
                } else if v.major == 1 && v.minor == 3 && v.patch == 0 {
                    push_u32_le(&mut out, 0);
                    28
                } else {
                    26
                }
            },
            _ => 26,
        };
        let ghost after_shift = out@;
        let mut id: u8 = 0;
        while id <= last
            invariant
                last <= 29,
                id <= last + 1,
                times_convertible(self.csp_best_times@),
                out@ == after_shift + times_bytes(*self, format, id as nat),
            decreases last + 1 - id,
        {
            let t: ChallengeTime = match self.csp_best_times.get(&id) {
                Some(t) => *t,
                None => ChallengeTime::new(),
            };
            let csp_time = t.with_timing(TimingMode::_60Hz);
            csp_time.write_time(&mut out, [0u8;4], format);
            id += 1;
        }
        let ghost after_times = out@;
        if format.is_switch() {
            let unlocks = ChallengeUnlocks::dump(mod_requirements);
            push_u8(&mut out, unlocks.0);
            push_zeros(&mut out, 0x77);
            push_u16_le(&mut out, 0);
            push_zeros(&mut out, 6);
        } else {
            push_slice(&mut out, &eggfish);
            push_zeros(&mut out, 0x3d);
            push_zeros(&mut out, 0xf20);
        }
        assert(out@ =~= after_times + tail_bytes(*self, slots@, format, *mod_requirements));
        out
    }
}

/// Reading the first `k` profile records from the start of `d`: the views
/// read, or the first failure, and where reading stopped.
pub open spec fn decode_profiles(d: Seq<u8>, f: SaveFormat, k: nat) -> (
    Result<Seq<ProfileView>, SaveError>,
    int,
)
    decreases k,
{
    if k == 0 {
        (Ok(Seq::empty()), 0)
    } else {
        let (r, p) = decode_profiles(d, f, (k - 1) as nat);
        match r {
            Err(e) => (Err(e), p),
            Ok(vs) => {
                let (r2, p2) = spec_decode_profile(d, p, f);
                match r2 {
                    Ok(v) => (Ok(vs.push(v)), p2),
                    Err(e) => (Err(e), p2),
                }
            },
        }
    }
}

/// Reading `k` best times from `p`: the times, or `None` at the first cut
/// short, and where reading stopped.
pub open spec fn decode_times(d: Seq<u8>, f: SaveFormat, p: int, k: nat) -> (
    Option<Seq<ChallengeTime>>,
    int,
)
    decreases k,
{
    if k == 0 {
        (Some(Seq::empty()), p)
    } else {
        let (r, q) = decode_times(d, f, p, (k - 1) as nat);
        match r {
            None => (None, q),
            Some(ts) => {
                let (t, q2) = spec_decode_time(d, q, f);
                match t {
                    Some(t) => (Some(ts.push(t)), q2),
                    None => (None, q2),
                }
            },
        }
    }
}

/// The options read from a Cave Story+ save.
#[derive(Clone, Copy, Debug, PartialEq, Eq)]
pub struct CspReadOptions {
    /// Music volume in tenths.
    pub bgm_level: u32,
    /// Sound effect volume in tenths.
    pub sfx_level: u32,
    pub seasonal_textures: bool,
    /// Soundtrack byte; see `soundtrack_code`.
    pub soundtrack: u8,
    pub original_textures: bool,
}

/// What reading a Cave Story+ save yields, stage by stage: the parts read
/// before the data ran out are kept.
pub struct CspImportPlan {
    pub profiles: Seq<ProfileView>,
    pub active: Seq<u8>,
    pub options: Option<CspReadOptions>,
    pub beat_hell: Option<bool>,
    pub times: Seq<ChallengeTime>,
    pub eggfish: Seq<u8>,
    pub unlocks: Option<u8>,
    pub result: Result<(), SaveContainerError>,
}

pub open spec fn no_plan(result: Result<(), SaveContainerError>) -> CspImportPlan {
    CspImportPlan {
        profiles: Seq::empty(),
        active: Seq::empty(),
        options: None,
        beat_hell: None,
        times: Seq::empty(),
        eggfish: Seq::empty(),
        unlocks: None,
        result,
    }
}

pub open spec fn eof_plan() -> Result<(), SaveContainerError> {
    Err(SaveContainerError::UnexpectedEof)
}

/// Reading a Cave Story+ save `d` in layout `f` (PC or Switch): 81
/// profiles, 32 activity bytes, the options, the Hell flag, padding (the
/// Switch jukebox and flags, or seven bytes), the 1.3 shift, the best times,
/// then on Switch the unlocks byte and 127 more bytes, on PC the three
/// Ironhead-fish bytes and 93 more bytes.
#[verifier::opaque]
pub open spec fn plan_csp_import(d: Seq<u8>, f: SaveFormat) -> CspImportPlan {
    let (pr, p0) = decode_profiles(d, f, 81);
    match pr {
        Err(e) => no_plan(Err(SaveContainerError::Profile(e))),
        Ok(vs) => plan_from_active(d, f, vs, p0),
    }
}

/// After the profiles, read up to `p0`: the activity bytes and the options.
#[verifier::opaque]
pub open spec fn plan_from_active(d: Seq<u8>, f: SaveFormat, vs: Seq<ProfileView>, p0: int) -> CspImportPlan {
    let len = d.len() as int;
    if p0 + 32 > len {
        no_plan(eof_plan())
    } else {
        let p1 = p0 + 32;
        let at = CspImportPlan { profiles: vs, active: d.subrange(p0, p1), ..no_plan(eof_plan()) };
        if p1 + 12 > len {
            at
        } else {
            let opts = CspReadOptions {
                bgm_level: u32_le(d, p1),
                sfx_level: u32_le(d, p1 + 4),
                seasonal_textures: d[p1 + 8] == 1,
                soundtrack: d[p1 + 9],
                original_textures: d[p1 + 10] == 1,
            };
            plan_from_options(d, f, CspImportPlan { options: Some(opts), ..at }, p1 + 12)
        }
    }
}

/// After the options, read up to `p2`: the Hell flag, padding and times.
#[verifier::opaque]
pub open spec fn plan_from_options(d: Seq<u8>, f: SaveFormat, at: CspImportPlan, p2: int) -> CspImportPlan {
    let len = d.len() as int;
    if p2 + 1 > len {
        at
    } else {
        let bh = CspImportPlan { beat_hell: Some(d[p2] == 1), ..at };
        let pad: int = if f is Switch {
            11
        } else {
            7
        };
        let shift: int = if is_switch_1_3(f) {
            4
        } else {
            0
        };
        let p3 = p2 + 1;
        if p3 + pad + shift > len {
            bh
        } else {
            let (tr, p6) = decode_times(d, f, p3 + pad + shift, (last_time_id(f) + 1) as nat);
            match tr {
                None => bh,
                Some(ts) => plan_tail(d, f, bh, ts, p6),
            }
        }
    }
}

/// After the times, read up to `p6`: the layout's trailing part.
#[verifier::opaque]
pub open spec fn plan_tail(d: Seq<u8>, f: SaveFormat, bh: CspImportPlan, ts: Seq<ChallengeTime>, p6: int) -> CspImportPlan {
    let len = d.len() as int;
    if f is Switch {
        if p6 + 1 > len {
            bh
        } else if p6 + 128 > len {
            CspImportPlan { unlocks: Some(d[p6]), ..bh }
        } else {
            CspImportPlan { unlocks: Some(d[p6]), times: ts, result: Ok(()), ..bh }
        }
    } else {
        let n = if p6 + 3 <= len {
            3
        } else {
            len - p6
        };
        let eg = CspImportPlan { eggfish: d.subrange(p6, p6 + n), ..bh };
        if p6 + 96 > len {
            eg
        } else {
            CspImportPlan { times: ts, result: Ok(()), ..eg }
        }
    }
}

/// The view of the profile in a slot, if any.
pub open spec fn view_at(c: SaveContainer, s: SaveSlot) -> Option<ProfileView> {
    match spec_get_profile(c, s) {
        Some(p) => Some(p@),
        None => None,
    }
}

/// Whether slot `n` of set `set` is marked active in the activity bytes.
pub open spec fn slot_active(active: Seq<u8>, set: int, n: int) -> bool {
    0 <= set <= 26 && 1 <= n <= 3 && active[set] & slot_bit(n as usize) != 0
}

/// A slot's set and slot number.
pub open spec fn slot_pos(s: SaveSlot) -> (int, int) {
    match s {
        SaveSlot::MainGame(n) => (0, n as int),
        SaveSlot::CSPMod(set, n) => if set == 0 { (-1, 0) } else { (set as int, n as int) },
        SaveSlot::Mod(_, _) => (-1, 0),
    }
}

/// A profile view with the Ironhead-fish flag read for its main-game slot,
/// when that byte was read.
pub open spec fn with_eggfish(v: Option<ProfileView>, s: SaveSlot, eggfish: Seq<u8>) -> Option<ProfileView> {
    match (v, s) {
        (Some(p), SaveSlot::MainGame(n)) => if 1 <= n <= eggfish.len() {
            Some(ProfileView { eggfish_killed: eggfish[n - 1] != 0, ..p })
        } else {
            Some(p)
        },
        _ => v,
    }
}

/// The profile view a slot holds after the import: the one read for it
/// when the whole file was read and the slot is active, else the old one
/// (with its Ironhead-fish flag as read).
pub open spec fn imported_view(old: SaveContainer, plan: CspImportPlan, s: SaveSlot) -> Option<ProfileView> {
    let (set, n) = slot_pos(s);
    if plan.result is Ok && slot_active(plan.active, set, n) {
        Some(plan.profiles[set * 3 + n - 1])
    } else {
        with_eggfish(view_at(old, s), s, plan.eggfish)
    }
}

/// Best times after merging the first `k` read times: a non-zero time
/// replaces a missing or worse one.
pub open spec fn merge_times(m: Map<u8, ChallengeTime>, ts: Seq<ChallengeTime>, k: nat) -> Map<u8, ChallengeTime>
    decreases k,
{
    if k == 0 {
        m
    } else {
        let prev = merge_times(m, ts, (k - 1) as nat);
        let id = (k - 1) as u8;
        let t = ts[k - 1];
        if t.ticks == 0 {
            prev
        } else if !prev.contains_key(id) || spec_time_greater(prev[id], t) {
            prev.insert(id, t)
        } else {
            prev
        }
    }
}

/// The views of a sequence of profiles.
#[verifier::opaque]
pub open spec fn views_of(ps: Seq<GameProfile>) -> Seq<ProfileView> {
    ps.map_values(|p: GameProfile| p@)
}

proof fn lemma_views_of_push(ps: Seq<GameProfile>, p: GameProfile)
    ensures
        views_of(ps.push(p)) == views_of(ps).push(p@),
        views_of(ps).len() == ps.len(),
{
    reveal(views_of);
    assert(views_of(ps.push(p)) =~= views_of(ps).push(p@));
}

proof fn lemma_views_of_index(ps: Seq<GameProfile>, i: int)
    requires
        0 <= i < ps.len(),
    ensures
        views_of(ps)[i] == ps[i]@,
        views_of(ps).len() == ps.len(),
{
    reveal(views_of);
}

fn read_profiles(cur: &mut ByteReader, format: SaveFormat) -> (r: Result<Vec<GameProfile>, SaveError>)
    requires
        old(cur).wf(),
        old(cur).pos == 0,
    ensures
        final(cur).wf(),
        final(cur).data == old(cur).data,
        ({
            let (dr, end) = decode_profiles(old(cur).data@, format, 81);
            &&& final(cur).pos == end
            &&& match dr {
                Ok(vs) => r matches Ok(ps) && ps@.len() == 81 && views_of(ps@) == vs,
                Err(e) => r == Err::<Vec<GameProfile>, SaveError>(e),
            }
        }),
{
    let ghost d = cur.data@;
    let mut ps: Vec<GameProfile> = Vec::new();
    proof {
        reveal(views_of);
        assert(views_of(ps@) =~= Seq::<ProfileView>::empty());
    }
    let mut k: usize = 0;
    while k < 81
        invariant
            k <= 81,
            cur.wf(),
            cur.data@ == d,
            cur.data == old(cur).data,
            decode_profiles(d, format, k as nat).0 is Ok,
            cur.pos == decode_profiles(d, format, k as nat).1,
            ps@.len() == k,
            views_of(ps@) == decode_profiles(d, format, k as nat).0->Ok_0,
        decreases 81 - k,
    {
        let ghost vs = decode_profiles(d, format, k as nat).0->Ok_0;
        match GameProfile::load_from_save(cur, format) {
            Ok(p) => {
                let ghost r2 = spec_decode_profile(d, decode_profiles(d, format, k as nat).1, format).0;
                assert(r2 is Ok);
                assert(p@ == r2->Ok_0);
                let ghost old_ps = ps@;
                ps.push(p);
                proof {
                    let nvs = vs.push(r2->Ok_0);
                    assert(decode_profiles(d, format, (k + 1) as nat).0 == Ok::<Seq<ProfileView>, SaveError>(nvs));
                    lemma_views_of_push(old_ps, p);
                }
            },
            Err(e) => {
                proof {
                    assert forall|j: nat| k + 1 <= j <= 81 implies decode_profiles(d, format, j) == (
                        Err::<Seq<ProfileView>, SaveError>(e),
                        cur.pos as int,
                    ) by {
                        lemma_decode_profiles_err(d, format, (k + 1) as nat, j, e, cur.pos as int);
                    }
                }
                return Err(e);
            },
        }
        k += 1;
    }
    Ok(ps)
}

proof fn lemma_decode_profiles_err(d: Seq<u8>, f: SaveFormat, k: nat, j: nat, e: SaveError, p: int)
    requires
        k <= j,
        decode_profiles(d, f, k) == (Err::<Seq<ProfileView>, SaveError>(e), p),
    ensures
        decode_profiles(d, f, j) == (Err::<Seq<ProfileView>, SaveError>(e), p),
    decreases j - k,
{
    if k < j {
        lemma_decode_profiles_err(d, f, k, (j - 1) as nat, e, p);
    }
}

proof fn lemma_decode_times_none(d: Seq<u8>, f: SaveFormat, p0: int, k: nat, j: nat, p: int)
    requires
        k <= j,
        decode_times(d, f, p0, k) == (None::<Seq<ChallengeTime>>, p),
    ensures
        decode_times(d, f, p0, j) == (None::<Seq<ChallengeTime>>, p),
    decreases j - k,
{
    if k < j {
        lemma_decode_times_none(d, f, p0, k, (j - 1) as nat, p);
    }
}

fn read_times(cur: &mut ByteReader, format: SaveFormat, n: u8) -> (r: Option<Vec<ChallengeTime>>)
    requires
        old(cur).wf(),
    ensures
        final(cur).wf(),
        final(cur).data == old(cur).data,
        ({
            let (tr, end) = decode_times(old(cur).data@, format, old(cur).pos as int, n as nat);
            &&& final(cur).pos == end
            &&& match tr {
                Some(ts) => r matches Some(v) && v@ == ts,
                None => r is None,
            }
        }),
{
    let ghost d = cur.data@;
    let ghost p0 = cur.pos as int;
    let mut ts: Vec<ChallengeTime> = Vec::new();
    let mut k: u8 = 0;
    while k < n
        invariant
            k <= n,
            cur.wf(),
            cur.data@ == d,
            cur.data == old(cur).data,
            p0 == old(cur).pos,
            decode_times(d, format, p0, k as nat).0 == Some(ts@),
            cur.pos == decode_times(d, format, p0, k as nat).1,
        decreases n - k,
    {
        let mut t = ChallengeTime::new();
        let ghost q = cur.pos as int;
        if !t.load_time(cur, format) {
            proof {
                assert(spec_decode_time(d, q, format).0 is None);
                assert(decode_times(d, format, p0, (k + 1) as nat) == (None::<Seq<ChallengeTime>>, cur.pos as int));
                lemma_decode_times_none(d, format, p0, (k + 1) as nat, n as nat, cur.pos as int);
            }
            return None;
        }
        ts.push(t);
        k += 1;
    }
    Some(ts)
}

impl SaveContainer {
    /// Stores a profile in a slot without recording a change.
    fn put_profile(&mut self, set: u8, n: usize, profile: GameProfile)
        ensures
            forall|s: SaveSlot|
                !(s is Mod) ==> #[trigger] view_at(*final(self), s) == if s == slot_key(set, n) {
                    Some(profile@)
                } else {
                    view_at(*old(self), s)
                },
            final(self).csp_best_times@ == old(self).csp_best_times@,
            final(self).patchset@ == old(self).patchset@,
            final(self).version == old(self).version,
    {
        if set == 0 {
            self.game_profiles.insert(n, profile);
        } else {
            let mut m = match self.csp_mods.remove(&set) {
                Some(m) => m,
                None => CSPModProfile::new(),
            };
            m.profiles.insert(n, profile);
            self.csp_mods.insert(set, m);
            proof {
                assert forall|k: u8| k != set implies #[trigger] set_profiles(self.csp_mods@, k) == set_profiles(
                    old(self).csp_mods@,
                    k,
                ) by {
                    assert(self.csp_mods@.contains_key(k) == old(self).csp_mods@.contains_key(k));
                }
                assert(set_profiles(self.csp_mods@, set) == set_profiles(old(self).csp_mods@, set).insert(n, profile));
            }
        }
    }

    /// Sets the Ironhead-fish flag of the main-game profile in `slot`, if any.
    fn set_eggfish(&mut self, slot: usize, killed: bool)
        ensures
            forall|s: SaveSlot|
                !(s is Mod) ==> #[trigger] view_at(*final(self), s) == if s == SaveSlot::MainGame(slot) {
                    match view_at(*old(self), s) {
                        Some(p) => Some(ProfileView { eggfish_killed: killed, ..p }),
                        None => None,
                    }
                } else {
                    view_at(*old(self), s)
                },
            final(self).csp_best_times@ == old(self).csp_best_times@,
            final(self).patchset@ == old(self).patchset@,
            final(self).version == old(self).version,
    {
        match self.game_profiles.remove(&slot) {
            Some(p) => {
                let mut p = p;
                p.eggfish_killed = killed;
                self.game_profiles.insert(slot, p);
            },
            None => {},
        }
        proof {
            assert(self.game_profiles@ == old(self).game_profiles@ || self.game_profiles@.contains_key(slot));
        }
    }
}

/// Mod weapons after applying unlock bits `u` (see `ChallengeUnlocks::load`).
pub open spec fn unlocked_weapons(w0: Seq<u16>, u: u8) -> Seq<u16> {
    let w1 = if unlock_bit(u, 5) && !w0.contains(12) {
        w0.push(12)
    } else {
        w0
    };
    if unlock_bit(u, 7) && !w1.contains(3) {
        w1.push(3)
    } else {
        w1
    }
}

/// Mod items after applying unlock bits `u`.
pub open spec fn unlocked_items(i0: Seq<u16>, u: u8) -> Seq<u16> {
    if (unlock_bit(u, 3) || unlock_bit(u, 6)) && !i0.contains(35) {
        i0.push(35)
    } else {
        i0
    }
}

pub open spec fn unlocks_hell(u: u8) -> bool {
    unlock_bit(u, 1) || unlock_bit(u, 2) || unlock_bit(u, 4)
}

proof fn lemma_csp_times_60(d: Seq<u8>, f: SaveFormat, p: int, k: nat)
    requires
        f is Plus || f is Switch,
    ensures
        decode_times(d, f, p, k).0 matches Some(ts) ==> ts.len() == k && forall|i: int|
            0 <= i < ts.len() ==> (#[trigger] ts[i]).timing_mode == TimingMode::_60Hz,
    decreases k,
{
    if k > 0 {
        lemma_csp_times_60(d, f, p, (k - 1) as nat);
    }
}

impl SaveContainer {
    /// Stores the profiles of the active slots; see `slot_active`.
    fn merge_profiles(&mut self, ps: &Vec<GameProfile>, active: &[u8])
        requires
            ps@.len() == 81,
            active@.len() == 32,
        ensures
            forall|s: SaveSlot|
                !(s is Mod) ==> #[trigger] view_at(*final(self), s) == if slot_active(
                    active@,
                    slot_pos(s).0,
                    slot_pos(s).1,
                ) {
                    Some(views_of(ps@)[slot_pos(s).0 * 3 + slot_pos(s).1 - 1])
                } else {
                    view_at(*old(self), s)
                },
            final(self).csp_best_times@ == old(self).csp_best_times@,
            final(self).patchset@ == old(self).patchset@,
            final(self).version == old(self).version,
    {
        let mut set: u8 = 0;
        while set <= 26
            invariant
                set <= 27,
                ps@.len() == 81,
                active@.len() == 32,
                self.csp_best_times@ == old(self).csp_best_times@,
                self.patchset@ == old(self).patchset@,
                self.version == old(self).version,
                forall|s: SaveSlot|
                    !(s is Mod) ==> #[trigger] view_at(*self, s) == if slot_pos(s).0 < set
                        && slot_active(active@, slot_pos(s).0, slot_pos(s).1) {
                        Some(views_of(ps@)[slot_pos(s).0 * 3 + slot_pos(s).1 - 1])
                    } else {
                        view_at(*old(self), s)
                    },
            decreases 27 - set,
        {
            let mut slot: usize = 1;
            while slot <= 3
                invariant
                    set <= 26,
                    1 <= slot <= 4,
                    ps@.len() == 81,
                    active@.len() == 32,
                    self.csp_best_times@ == old(self).csp_best_times@,
                    self.patchset@ == old(self).patchset@,
                    self.version == old(self).version,
                    forall|s: SaveSlot|
                        !(s is Mod) ==> #[trigger] view_at(*self, s) == if (slot_pos(s).0 < set || (
                        slot_pos(s).0 == set && slot_pos(s).1 < slot)) && slot_active(
                            active@,
                            slot_pos(s).0,
                            slot_pos(s).1,
                        ) {
                            Some(views_of(ps@)[slot_pos(s).0 * 3 + slot_pos(s).1 - 1])
                        } else {
                            view_at(*old(self), s)
                        },
                decreases 4 - slot,
            {
                let bit: u8 = if slot == 1 {
                    1
                } else if slot == 2 {
                    2
                } else {
                    4
                };
                if active[set as usize] & bit != 0 {
                    let idx = set as usize * 3 + slot - 1;
                    let p = ps[idx];
                    proof {
                        lemma_views_of_index(ps@, idx as int);
                    }
                    self.put_profile(set, slot, p);
                }
                slot += 1;
            }
            set += 1;
        }
    }

    /// Merges read best times in order: each non-zero time is kept when
    /// there is none for its challenge yet or it is better.
    fn merge_read_times(&mut self, ts: &Vec<ChallengeTime>)
        requires
            times_convertible(old(self).csp_best_times@),
            ts@.len() <= 256,
            forall|i: int| 0 <= i < ts@.len() ==> (#[trigger] ts@[i]).timing_mode == TimingMode::_60Hz,
        ensures
            final(self).csp_best_times@ == merge_times(old(self).csp_best_times@, ts@, ts@.len()),
            times_convertible(final(self).csp_best_times@),
            forall|s: SaveSlot| #[trigger] view_at(*final(self), s) == view_at(*old(self), s),
            final(self).patchset@ == old(self).patchset@,
            final(self).version == old(self).version,
    {
        let mut i: usize = 0;
        while i < ts.len()
            invariant
                i <= ts@.len(),
                ts@.len() <= 256,
                forall|j: int| 0 <= j < ts@.len() ==> (#[trigger] ts@[j]).timing_mode == TimingMode::_60Hz,
                times_convertible(self.csp_best_times@),
                self.csp_best_times@ == merge_times(old(self).csp_best_times@, ts@, i as nat),
                self.game_profiles@ == old(self).game_profiles@,
                self.csp_mods@ == old(self).csp_mods@,
                self.patchset@ == old(self).patchset@,
                self.version == old(self).version,
            decreases ts@.len() - i,
        {
            let t = ts[i];
            if t.ticks != 0 {
                self.set_best_time(i as u8, t, true);
                proof {
                    assert forall|k: u8| #[trigger] self.csp_best_times@.contains_key(k) implies time_convertible(
                        self.csp_best_times@[k],
                    ) by {
                        if k != i as u8 {
                            assert(old(self).csp_best_times@.contains_key(k) || merge_times(old(self).csp_best_times@, ts@, i as nat).contains_key(k));
                        }
                    }
                }
            }
            i += 1;
        }
        proof {
            assert forall|s: SaveSlot| #[trigger] view_at(*self, s) == view_at(*old(self), s) by {}
        }
    }
}

/// One more Ironhead-fish byte applied: the state before held the first
/// `b.len()` bytes, the state after sets slot `b.len() + 1` as well.
proof fn lemma_eggfish_step(o: SaveContainer, c: SaveContainer, b: Seq<u8>, e: u8, slot: usize)
    requires
        slot == b.len() + 1,
        slot <= 3,
        forall|s: SaveSlot|
            !(s is Mod) ==> #[trigger] view_at(c, s) == if s == SaveSlot::MainGame(slot) {
                match with_eggfish(view_at(o, s), s, b) {
                    Some(p) => Some(ProfileView { eggfish_killed: e != 0, ..p }),
                    None => None,
                }
            } else {
                with_eggfish(view_at(o, s), s, b)
            },
    ensures
        forall|s: SaveSlot|
            !(s is Mod) ==> #[trigger] view_at(c, s) == with_eggfish(view_at(o, s), s, b.push(e)),
{
    assert forall|s: SaveSlot| !(s is Mod) implies #[trigger] view_at(c, s) == with_eggfish(
        view_at(o, s),
        s,
        b.push(e),
    ) by {
        match s {
            SaveSlot::MainGame(n) => {
                if n == slot {
                    assert(view_at(c, s) == view_at(c, SaveSlot::MainGame(slot)));
                } else if 1 <= n <= b.len() {
                    assert(b.push(e)[n - 1] == b[n - 1]);
                }
            },
            _ => {},
        }
    }
}

/// The first part of a Cave Story+ save: the profiles, the activity bytes
/// and the options.
#[verifier::rlimit(60)]
fn read_csp_front(cur: &mut ByteReader, format: SaveFormat) -> (r: Result<(Vec<GameProfile>, CspReadOptions), SaveContainerError>)
    requires
        old(cur).wf(),
        old(cur).pos == 0,
    ensures
        final(cur).wf(),
        final(cur).data == old(cur).data,
        ({
            let d = old(cur).data@;
            let plan = plan_csp_import(d, format);
            match r {
                Ok((ps, opts)) => {
                    let p0 = final(cur).pos - 44;
                    &&& p0 >= 0
                    &&& ps@.len() == 81
                    &&& plan == plan_from_options(
                        d,
                        format,
                        CspImportPlan {
                            profiles: views_of(ps@),
                            active: d.subrange(p0, p0 + 32),
                            options: Some(opts),
                            ..no_plan(eof_plan())
                        },
                        final(cur).pos as int,
                    )
                },
                Err(e) => {
                    &&& plan.result == Err::<(), SaveContainerError>(e)
                    &&& plan.options is None
                    &&& plan.beat_hell is None
                    &&& plan.unlocks is None
                    &&& plan.eggfish.len() == 0
                },
            }
        }),
{
    let ghost d = cur.data@;
    let ghost plan = plan_csp_import(d, format);
    let ps = match read_profiles(cur, format) {
        Ok(ps) => ps,
        Err(e) => {
            assert(plan == no_plan(Err(SaveContainerError::Profile(e)))) by {
                reveal(plan_csp_import);
            }
            return Err(SaveContainerError::Profile(e));
        },
    };
    let p0 = cur.pos;
    let ghost vs = views_of(ps@);
    assert(plan == plan_from_active(d, format, vs, p0 as int)) by {
        reveal(plan_csp_import);
    }
    if cur.data.len() - p0 < 44 {
        assert(plan == no_plan(eof_plan()) || plan == CspImportPlan {
            profiles: vs,
            active: d.subrange(p0 as int, p0 + 32),
            ..no_plan(eof_plan())
        }) by {
            reveal(plan_from_active);
        }
        return Err(SaveContainerError::UnexpectedEof);
    }
    cur.pos = p0 + 32;
    let bgm_level = cur.read_u32_le().unwrap();
    let sfx_level = cur.read_u32_le().unwrap();
    let seasonal = cur.read_u8().unwrap();
    let soundtrack = cur.read_u8().unwrap();
    let original = cur.read_u8().unwrap();
    let _locale = cur.read_u8().unwrap();
    let opts = CspReadOptions {
        bgm_level,
        sfx_level,
        seasonal_textures: seasonal == 1,
        soundtrack,
        original_textures: original == 1,
    };
    assert(plan == plan_from_options(
        d,
        format,
        CspImportPlan {
            profiles: vs,
            active: d.subrange(p0 as int, p0 + 32),
            options: Some(opts),
            ..no_plan(eof_plan())
        },
        cur.pos as int,
    )) by {
        reveal(plan_from_active);
    }
    Ok((ps, opts))
}

impl SaveContainer {
    /// Reads a Cave Story+ save (PC or Switch layout) into this container;
    /// see `plan_csp_import`. Profiles of active slots replace the stored
    /// ones and read best times are merged, both only when the whole file
    /// was read; the Hell flag and the unlocks go to `mod_requirements` as
    /// soon as they are read, and the PC layout's Ironhead-fish flags to the
    /// main-game profiles already held. The options are handed back once
    /// read, for the caller to apply.
    #[verifier::rlimit(100)]
    #[verifier::spinoff_prover]
    pub fn import_csp(&mut self, data: &[u8], format: SaveFormat, mod_requirements: &mut ModRequirements) -> (r: (
        Option<CspReadOptions>,
        Result<(), SaveContainerError>,
    ))
        requires
            format is Plus || format is Switch,
            times_convertible(old(self).csp_best_times@),
        ensures
            ({
                let plan = plan_csp_import(data@, format);
                &&& r.0 == plan.options
                &&& r.1 == plan.result
                &&& final(mod_requirements).beat_hell == (old(mod_requirements).beat_hell || plan.beat_hell
                    == Some(true) || (plan.unlocks matches Some(u) && unlocks_hell(u)))
                &&& final(mod_requirements).weapons@ == match plan.unlocks {
                    Some(u) => unlocked_weapons(old(mod_requirements).weapons@, u),
                    None => old(mod_requirements).weapons@,
                }
                &&& final(mod_requirements).items@ == match plan.unlocks {
                    Some(u) => unlocked_items(old(mod_requirements).items@, u),
                    None => old(mod_requirements).items@,
                }
                &&& forall|s: SaveSlot|
                    !(s is Mod) ==> #[trigger] view_at(*final(self), s) == imported_view(*old(self), plan, s)
                &&& final(self).csp_best_times@ == if plan.result is Ok {
                    merge_times(old(self).csp_best_times@, plan.times, plan.times.len())
                } else {
                    old(self).csp_best_times@
                }
                &&& final(self).patchset@ == old(self).patchset@
                &&& final(self).version == old(self).version
            }),
    {
        let ghost d = data@;
        let ghost plan = plan_csp_import(d, format);
        let mut cur = ByteReader::new(data);
        let (ps, opts) = match read_csp_front(&mut cur, format) {
            Ok(v) => v,
            Err(e) => {
                proof {
                    lemma_views_kept(*old(self), plan);
                }
                return (None, Err(e));
            },
        };
        let p0 = cur.pos - 44;
        let active = vstd::slice::slice_subrange(data, p0, p0 + 32);
        let ghost at_opts = CspImportPlan {
            profiles: views_of(ps@),
            active: d.subrange(p0 as int, p0 + 32),
            options: Some(opts),
            ..no_plan(eof_plan())
        };
        let beat_hell = match cur.read_u8() {
            Some(v) => v == 1,
            None => {
                assert(plan == at_opts) by {
                    reveal(plan_from_options);
                }
                proof {
                    lemma_views_kept(*old(self), plan);
                }
                return (Some(opts), Err(SaveContainerError::UnexpectedEof));
            },
        };
        let ghost bh = CspImportPlan { beat_hell: Some(beat_hell), ..at_opts };
        mod_requirements.beat_hell = mod_requirements.beat_hell || beat_hell;
        let pad: usize = if format.is_switch() {
            11
        } else {
            7
        };
        let last: u8 = match format {
            SaveFormat::Switch(v) => {
                if v.major == 1 && v.minor == 2 && v.patch == 0 {
                    29
                } else if v.major == 1 && v.minor == 3 && v.patch == 0 {
                    28
                } else {
                    26
                }
            },
            _ => 26,
        };
        assert(last == last_time_id(format));
        let shift: usize = if last == 28 {
            4
        } else {
            0
        };
        if !cur.skip_exact(pad + shift) {
            assert(plan == bh) by {
                reveal(plan_from_options);
            }
            proof {
                lemma_views_kept(*old(self), plan);
            }
            return (Some(opts), Err(SaveContainerError::UnexpectedEof));
        }
        let ghost p5 = cur.pos as int;
        let ts = match read_times(&mut cur, format, last + 1) {
            Some(ts) => ts,
            None => {
                assert(plan == bh) by {
                    reveal(plan_from_options);
                }
                proof {
                    lemma_views_kept(*old(self), plan);
                }
                return (Some(opts), Err(SaveContainerError::UnexpectedEof));
            },
        };
        proof {
            lemma_csp_times_60(d, format, p5, (last + 1) as nat);
        }
        let ghost p6 = cur.pos as int;
        assert(plan == plan_tail(d, format, bh, ts@, p6)) by {
            reveal(plan_from_options);
        }
        let r = self.import_tail(&mut cur, format, &ps, active, &ts, mod_requirements, Ghost(bh));
        (Some(opts), r)
    }
}

/// With no Ironhead-fish byte read and an unsuccessful read, every slot
/// keeps its profile.
proof fn lemma_views_kept(o: SaveContainer, plan: CspImportPlan)
    requires
        plan.result is Err,
        plan.eggfish.len() == 0,
    ensures
        forall|s: SaveSlot| !(s is Mod) ==> #[trigger] imported_view(o, plan, s) == view_at(o, s),
{
}

/// After an unsuccessful read, every slot keeps its profile, with the
/// Ironhead-fish bytes that were read applied.
proof fn lemma_views_eggfish(o: SaveContainer, plan: CspImportPlan)
    requires
        plan.result is Err,
    ensures
        forall|s: SaveSlot|
            !(s is Mod) ==> #[trigger] imported_view(o, plan, s) == with_eggfish(view_at(o, s), s, plan.eggfish),
{
}

impl SaveContainer {
    /// Stores the active profiles and merges the times once the whole
    /// file was read.
    fn finish_import(
        &mut self,
        ps: &Vec<GameProfile>,
        active: &[u8],
        ts: &Vec<ChallengeTime>,
        Ghost(t): Ghost<CspImportPlan>,
        Ghost(base): Ghost<SaveContainer>,
    )
        requires
            ps@.len() == 81,
            active@.len() == 32,
            t.result is Ok,
            t.profiles == views_of(ps@),
            t.active == active@,
            t.times == ts@,
            ts@.len() <= 256,
            forall|i: int| 0 <= i < ts@.len() ==> (#[trigger] ts@[i]).timing_mode == TimingMode::_60Hz,
            times_convertible(old(self).csp_best_times@),
            forall|s: SaveSlot|
                !(s is Mod) ==> #[trigger] view_at(*old(self), s) == with_eggfish(view_at(base, s), s, t.eggfish),
        ensures
            forall|s: SaveSlot| !(s is Mod) ==> #[trigger] view_at(*final(self), s) == imported_view(base, t, s),
            final(self).csp_best_times@ == merge_times(old(self).csp_best_times@, t.times, t.times.len()),
            final(self).patchset@ == old(self).patchset@,
            final(self).version == old(self).version,
    {
        self.merge_profiles(ps, active);
        let ghost c2 = *self;
        self.merge_read_times(ts);
        proof {
            assert forall|s: SaveSlot| !(s is Mod) implies #[trigger] view_at(*self, s) == imported_view(base, t, s) by {
                assert(view_at(*self, s) == view_at(c2, s));
                assert(view_at(*old(self), s) == with_eggfish(view_at(base, s), s, t.eggfish));
            }
        }
    }

    /// The part of `import_csp` after the best times; see `plan_tail`.
    #[verifier::rlimit(60)]
    fn import_tail(
        &mut self,
        cur: &mut ByteReader,
        format: SaveFormat,
        ps: &Vec<GameProfile>,
        active: &[u8],
        ts: &Vec<ChallengeTime>,
        mod_requirements: &mut ModRequirements,
        Ghost(bh): Ghost<CspImportPlan>,
    ) -> (r: Result<(), SaveContainerError>)
        requires
            format is Plus || format is Switch,
            old(cur).wf(),
            times_convertible(old(self).csp_best_times@),
            ps@.len() == 81,
            views_of(ps@) == bh.profiles,
            active@.len() == 32,
            active@ == bh.active,
            bh.result == eof_plan(),
            bh.eggfish.len() == 0,
            bh.unlocks is None,
            ts@.len() <= 256,
            forall|i: int| 0 <= i < ts@.len() ==> (#[trigger] ts@[i]).timing_mode == TimingMode::_60Hz,
        ensures
            ({
                let t = plan_tail(old(cur).data@, format, bh, ts@, old(cur).pos as int);
                &&& r == t.result
                &&& t.options == bh.options
                &&& t.beat_hell == bh.beat_hell
                &&& final(mod_requirements).beat_hell == (old(mod_requirements).beat_hell || (
                t.unlocks matches Some(u) && unlocks_hell(u)))
                &&& final(mod_requirements).weapons@ == match t.unlocks {
                    Some(u) => unlocked_weapons(old(mod_requirements).weapons@, u),
                    None => old(mod_requirements).weapons@,
                }
                &&& final(mod_requirements).items@ == match t.unlocks {
                    Some(u) => unlocked_items(old(mod_requirements).items@, u),
                    None => old(mod_requirements).items@,
                }
                &&& forall|s: SaveSlot|
                    !(s is Mod) ==> #[trigger] view_at(*final(self), s) == imported_view(*old(self), t, s)
                &&& final(self).csp_best_times@ == if t.result is Ok {
                    merge_times(old(self).csp_best_times@, t.times, t.times.len())
                } else {
                    old(self).csp_best_times@
                }
                &&& final(self).patchset@ == old(self).patchset@
                &&& final(self).version == old(self).version
            }),
    {
        let ghost d = cur.data@;
        let ghost p6 = cur.pos as int;
        let ghost t = plan_tail(d, format, bh, ts@, p6);
        if format.is_switch() {
            let u = match cur.read_u8() {
                Some(u) => u,
                None => {
                    assert(t == bh) by {
                        reveal(plan_tail);
                    }
                    proof {
                        lemma_views_eggfish(*old(self), t);
                    }
                    return Err(SaveContainerError::UnexpectedEof);
                },
            };
            ChallengeUnlocks(u).load(mod_requirements);
            if !cur.skip_exact(127) {
                assert(t == CspImportPlan { unlocks: Some(u), ..bh }) by {
                    reveal(plan_tail);
                }
                proof {
                    lemma_views_eggfish(*old(self), t);
                }
                return Err(SaveContainerError::UnexpectedEof);
            }
            assert(t == CspImportPlan { unlocks: Some(u), times: ts@, result: Ok(()), ..bh }) by {
                reveal(plan_tail);
            }
            assert forall|s: SaveSlot| !(s is Mod) implies #[trigger] view_at(*self, s) == with_eggfish(
                view_at(*old(self), s),
                s,
                t.eggfish,
            ) by {
                assert(t.eggfish.len() == 0);
            }
            self.finish_import(ps, active, ts, Ghost(t), Ghost(*old(self)));
            return Ok(());
        } else {
            let e1 = match cur.read_u8() {
                Some(e) => e,
                None => {
                    assert(t == CspImportPlan { eggfish: d.subrange(p6, p6), ..bh }) by {
                        reveal(plan_tail);
                    }
                    proof {
                        lemma_views_eggfish(*old(self), t);
                    }
                    return Err(SaveContainerError::UnexpectedEof);
                },
            };
            self.set_eggfish(1, e1 != 0);
            proof {
                lemma_eggfish_step(*old(self), *self, d.subrange(p6, p6), e1, 1);
                assert(d.subrange(p6, p6).push(e1) =~= d.subrange(p6, p6 + 1));
            }
            let e2 = match cur.read_u8() {
                Some(e) => e,
                None => {
                    assert(t == CspImportPlan { eggfish: d.subrange(p6, p6 + 1), ..bh }) by {
                        reveal(plan_tail);
                    }
                    proof {
                        lemma_views_eggfish(*old(self), t);
                    }
                    return Err(SaveContainerError::UnexpectedEof);
                },
            };
            self.set_eggfish(2, e2 != 0);
            proof {
                lemma_eggfish_step(*old(self), *self, d.subrange(p6, p6 + 1), e2, 2);
                assert(d.subrange(p6, p6 + 1).push(e2) =~= d.subrange(p6, p6 + 2));
            }
            let e3 = match cur.read_u8() {
                Some(e) => e,
                None => {
                    assert(t == CspImportPlan { eggfish: d.subrange(p6, p6 + 2), ..bh }) by {
                        reveal(plan_tail);
                    }
                    proof {
                        lemma_views_eggfish(*old(self), t);
                    }
                    return Err(SaveContainerError::UnexpectedEof);
                },
            };
            self.set_eggfish(3, e3 != 0);
            proof {
                lemma_eggfish_step(*old(self), *self, d.subrange(p6, p6 + 2), e3, 3);
                assert(d.subrange(p6, p6 + 2).push(e3) =~= d.subrange(p6, p6 + 3));
            }
            if !cur.skip_exact(93) {
                assert(t == CspImportPlan { eggfish: d.subrange(p6, p6 + 3), ..bh }) by {
                    reveal(plan_tail);
                }
                proof {
                    lemma_views_eggfish(*old(self), t);
                }
                return Err(SaveContainerError::UnexpectedEof);
            }
            assert(t == CspImportPlan { eggfish: d.subrange(p6, p6 + 3), times: ts@, result: Ok(()), ..bh }) by {
                reveal(plan_tail);
            }
            assert forall|s: SaveSlot| !(s is Mod) implies #[trigger] view_at(*self, s) == with_eggfish(
                view_at(*old(self), s),
                s,
                t.eggfish,
            ) by {}
            self.finish_import(ps, active, ts, Ghost(t), Ghost(*old(self)));
            Ok(())
        }
    }
}

} // verus!
