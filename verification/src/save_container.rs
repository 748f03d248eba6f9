//! Save formats, save slots and the container that holds every profile and
//! challenge best time of the game.

use vstd::prelude::*;
use crate::common::Version;
use crate::profile::{ChallengeTime, GameProfile, convertible_to, time_convertible, spec_time_greater};
use std::collections::HashMap;
use vstd::std_specs::iter::IteratorSpec;
use vstd::std_specs::hash::spec_values_iter;
use crate::text::{all_digits, digits_value, is_digit, str_chars, decimal, push_decimal};

verus! {

broadcast use vstd::std_specs::hash::group_hash_axioms;

pub open spec fn switch_ver_1_2() -> Version {
    Version { major: 1, minor: 2, patch: 0 }
}

pub open spec fn switch_ver_1_3() -> Version {
    Version { major: 1, minor: 3, patch: 0 }
}

/// The on-disk layout a save is read from or written in.
#[derive(Clone, Copy, Debug, PartialEq, Eq, Structural)]
pub enum SaveFormat {
    Freeware,
    Plus,
    Switch(Version),
    Generic,
}

pub open spec fn spec_is_csp(f: SaveFormat) -> bool {
    f is Plus || f is Switch
}

pub open spec fn spec_is_switch(f: SaveFormat) -> bool {
    f is Switch
}

pub open spec fn spec_profile_size(f: SaveFormat) -> nat {
    match f {
        SaveFormat::Freeware | SaveFormat::Plus => 0x620,
        SaveFormat::Switch(_) => 0x680,
        SaveFormat::Generic => 0,
    }
}

impl SaveFormat {
    /// Whether this is one of the Cave Story+ layouts.
    pub fn is_csp(&self) -> (res: bool)
        ensures
            res == spec_is_csp(*self),
    {
        match self {
            SaveFormat::Plus | SaveFormat::Switch(_) => true,
            _ => false,
        }
    }

    /// Whether this is the Nintendo Switch layout.
    pub fn is_switch(&self) -> (res: bool)
        ensures
            res == spec_is_switch(*self),
    {
        if let SaveFormat::Switch(_) = self {
            return true;
        }
        false
    }

    /// Size in bytes of one profile record in this layout.
    pub fn profile_size(&self) -> (res: usize)
        ensures
            res == spec_profile_size(*self),
    {
        match self {
            SaveFormat::Freeware | SaveFormat::Plus => 0x620,
            SaveFormat::Switch(_) => 0x680,
            SaveFormat::Generic => 0,
        }
    }
}

/// Which profile a save belongs to.
#[derive(Clone, Debug)]
pub enum SaveSlot {
    /// Slot of the main game.
    MainGame(usize),
    /// Save set and slot of a Cave Story+ challenge mod.
    CSPMod(u8, usize),
    /// Mod id and slot of another mod (no save layout supports these yet).
    Mod(String, usize),
}

/// Why a save could not be recognised or read.
#[derive(Clone, Copy, Debug, PartialEq, Eq, Structural)]
pub enum SaveContainerError {
    /// A file name does not name a profile slot.
    UnparsableSlot,
    /// The data is no save layout this library knows.
    UnsupportedFormat,
    /// The data ended too early.
    UnexpectedEof,
    /// A profile record could not be read.
    Profile(crate::profile::SaveError),
}

/// Where a run of decimal digits starts: the first digit at or after `i`.
pub open spec fn first_digit_from(s: Seq<char>, i: nat) -> nat
    decreases s.len() - i,
{
    if i >= s.len() || is_digit(s[i as int]) { i } else { first_digit_from(s, i + 1) }
}

/// Where a run of decimal digits that starts at `i` ends.
pub open spec fn digits_end_from(s: Seq<char>, i: nat) -> nat
    decreases s.len() - i,
{
    if i >= s.len() || !is_digit(s[i as int]) { i } else { digits_end_from(s, i + 1) }
}

/// Scanning a file name from `i` for the next number: the number (or
/// `replace_empty` when no digit is left) and where scanning stopped. The
/// character that ends a run of digits is consumed with it.
pub open spec fn spec_extract_num(s: Seq<char>, i: nat, replace_empty: Option<usize>) -> (Option<usize>, nat) {
    let j = first_digit_from(s, i);
    let k = digits_end_from(s, j);
    let next = if k < s.len() { k + 1 } else { k };
    if j == k {
        (replace_empty, next)
    } else {
        let v = digits_value(s.subrange(j as int, k as int));
        (if v <= usize::MAX as int { Some(v as usize) } else { None }, next)
    }
}

pub open spec fn starts_with(s: Seq<char>, prefix: Seq<char>) -> bool {
    prefix.len() <= s.len() && s.subrange(0, prefix.len() as int) == prefix
}

pub open spec fn word_mod() -> Seq<char> {
    seq!['M', 'o', 'd']
}

pub open spec fn word_profile() -> Seq<char> {
    seq!['P', 'r', 'o', 'f', 'i', 'l', 'e']
}

/// The slot a profile file name denotes: `Mod<set>...<slot>` for a
/// challenge-mod slot (the set taken mod 256), `Profile<slot>` for a
/// main-game slot, where a missing number means slot 1.
pub open spec fn spec_parse_slot(s: Seq<char>) -> Option<SaveSlot> {
    if starts_with(s, word_mod()) {
        let (set, p) = spec_extract_num(s, 0, None);
        let (slot, _) = spec_extract_num(s, p, None);
        if set is Some && slot is Some {
            Some(SaveSlot::CSPMod(set->0 as u8, slot->0))
        } else {
            None
        }
    } else if starts_with(s, word_profile()) {
        match spec_extract_num(s, 0, Some(1usize)).0 {
            Some(n) => Some(SaveSlot::MainGame(n)),
            None => None,
        }
    } else {
        None
    }
}

proof fn lemma_first_digit(s: Seq<char>, i: nat)
    ensures
        i <= first_digit_from(s, i) <= s.len() || (i > s.len() && first_digit_from(s, i) == i),
        first_digit_from(s, i) < s.len() ==> is_digit(s[first_digit_from(s, i) as int]),
    decreases s.len() - i,
{
    if i < s.len() && !is_digit(s[i as int]) {
        lemma_first_digit(s, i + 1);
    }
}

proof fn lemma_digits_end(s: Seq<char>, i: nat)
    requires
        i <= s.len(),
    ensures
        i <= digits_end_from(s, i) <= s.len(),
        all_digits(s.subrange(i as int, digits_end_from(s, i) as int)),
        digits_end_from(s, i) < s.len() ==> !is_digit(s[digits_end_from(s, i) as int]),
    decreases s.len() - i,
{
    if i < s.len() && is_digit(s[i as int]) {
        lemma_digits_end(s, i + 1);
        let k = digits_end_from(s, i);
        assert forall|t: int| 0 <= t < k - i implies is_digit(#[trigger] s.subrange(i as int, k as int)[t]) by {
            if t > 0 {
                assert(s.subrange(i as int, k as int)[t] == s.subrange(i + 1 as int, k as int)[t - 1]);
            }
        }
    }
}

/// Scans `cs` from `*pos` for the next number, as [`spec_extract_num`].
fn extract_num(cs: &Vec<char>, pos: &mut usize, replace_empty: Option<usize>) -> (res: Option<usize>)
    requires
        *old(pos) <= cs.len(),
    ensures
        (res, *final(pos) as nat) == spec_extract_num(cs@, *old(pos) as nat, replace_empty),
{
    let ghost s = cs@;
    let ghost i0 = *pos as nat;
    proof {
        lemma_first_digit(s, i0);
    }
    let mut j = *pos;
    while j < cs.len() && !('0' <= cs[j] && cs[j] <= '9')
        invariant
            i0 <= j <= cs.len(),
            first_digit_from(s, i0) == first_digit_from(s, j as nat),
            s == cs@,
        decreases cs.len() - j,
    {
        j = j + 1;
    }
    proof {
        lemma_digits_end(s, j as nat);
    }
    let mut v: usize = 0;
    let mut overflow = false;
    let mut k = j;
    while k < cs.len() && ('0' <= cs[k] && cs[k] <= '9')
        invariant
            j <= k <= cs.len(),
            s == cs@,
            digits_end_from(s, j as nat) == digits_end_from(s, k as nat),
            all_digits(s.subrange(j as int, k as int)),
            !overflow ==> v as int == digits_value(s.subrange(j as int, k as int)),
            overflow ==> digits_value(s.subrange(j as int, k as int)) > usize::MAX as int,
        decreases cs.len() - k,
    {
        let c = cs[k];
        let d = (c as u32 - '0' as u32) as usize;
        let ghost pre = s.subrange(j as int, k as int);
        assert(s.subrange(j as int, k + 1) =~= pre.push(c));
        assert(s.subrange(j as int, k + 1).drop_last() =~= pre);
        proof {
            lemma_digits_value_nonneg_sc(pre);
        }
        if !overflow {
            match v.checked_mul(10) {
                Some(m) => match m.checked_add(d) {
                    Some(n) => {
                        v = n;
                    },
                    None => {
                        overflow = true;
                    },
                },
                None => {
                    overflow = true;
                },
            }
        }
        k = k + 1;
    }
    *pos = if k < cs.len() { k + 1 } else { k };
    if j == k {
        replace_empty
    } else if overflow {
        None
    } else {
        Some(v)
    }
}

proof fn lemma_digits_value_nonneg_sc(s: Seq<char>)
    requires
        all_digits(s),
    ensures
        digits_value(s) >= 0,
    decreases s.len(),
{
    if s.len() > 0 {
        lemma_digits_value_nonneg_sc(s.drop_last());
    }
}

fn starts_with_exec(cs: &Vec<char>, prefix: &Vec<char>) -> (res: bool)
    ensures
        res == starts_with(cs@, prefix@),
{
    if prefix.len() > cs.len() {
        return false;
    }
    let mut i: usize = 0;
    while i < prefix.len()
        invariant
            prefix.len() <= cs.len(),
            i <= prefix.len(),
            forall|j: int| 0 <= j < i ==> cs@[j] == prefix@[j],
        decreases prefix.len() - i,
    {
        if cs[i] != prefix[i] {
            assert(cs@.subrange(0, prefix.len() as int)[i as int] != prefix@[i as int]);
            return false;
        }
        i = i + 1;
    }
    assert(cs@.subrange(0, prefix.len() as int) =~= prefix@);
    true
}

impl SaveSlot {
    /// The slot a profile file name denotes.
    pub fn parse(s: &str) -> (res: Result<SaveSlot, SaveContainerError>)
        ensures
            match spec_parse_slot(s@) {
                Some(slot) => res matches Ok(r) && r == slot,
                None => res == Err::<SaveSlot, SaveContainerError>(SaveContainerError::UnparsableSlot),
            },
    {
        let cs = str_chars(s);
        proof {
            reveal_strlit("Mod");
            reveal_strlit("Profile");
        }
        let w_mod = str_chars("Mod");
        let w_profile = str_chars("Profile");
        assert(w_mod@ =~= word_mod());
        assert(w_profile@ =~= word_profile());
        if starts_with_exec(&cs, &w_mod) {
            let mut pos: usize = 0;
            let set = extract_num(&cs, &mut pos, None);
            proof {
                let (_, p) = spec_extract_num(cs@, 0, None);
                lemma_first_digit(cs@, 0);
                lemma_digits_end(cs@, first_digit_from(cs@, 0));
            }
            let slot = extract_num(&cs, &mut pos, None);
            if let (Some(set), Some(slot)) = (set, slot) {
                return Ok(SaveSlot::CSPMod(set as u8, slot));
            }
        } else if starts_with_exec(&cs, &w_profile) {
            let mut pos: usize = 0;
            if let Some(slot) = extract_num(&cs, &mut pos, Some(1)) {
                return Ok(SaveSlot::MainGame(slot));
            }
        }
        Err(SaveContainerError::UnparsableSlot)
    }
}

/// `"/Profile"`.
pub open spec fn name_profile() -> Seq<char> {
    seq!['/', 'P', 'r', 'o', 'f', 'i', 'l', 'e']
}

pub open spec fn name_dat() -> Seq<char> {
    seq!['.', 'd', 'a', 't']
}

/// The file a save (or one profile of it) is stored in.
pub open spec fn spec_save_filename(format: SaveFormat, slot: Option<SaveSlot>) -> Seq<char> {
    match format {
        SaveFormat::Generic => seq!['/', 's', 'a', 'v', 'e', '.', 'j', 's', 'o', 'n'],
        SaveFormat::Plus => name_profile() + name_dat(),
        SaveFormat::Switch(_) => seq!['/', 'p', 'r', 'o', 'f', 'i', 'l', 'e'] + name_dat(),
        SaveFormat::Freeware => match slot {
            Some(SaveSlot::MainGame(n)) => if n == 1 {
                name_profile() + name_dat()
            } else {
                name_profile() + decimal(n as nat) + name_dat()
            },
            Some(SaveSlot::CSPMod(set, n)) => seq!['/', 'M', 'o', 'd'] + decimal(set as nat) + seq!['_', 'P', 'r', 'o', 'f', 'i', 'l', 'e']
                + decimal(n as nat) + name_dat(),
            _ => name_profile() + name_dat(),
        },
    }
}

proof fn lemma_first_digit_at(s: Seq<char>, i: nat, j: nat)
    requires
        i <= j < s.len(),
        forall|t: int| i <= t < j ==> !is_digit(#[trigger] s[t]),
        is_digit(s[j as int]),
    ensures
        first_digit_from(s, i) == j,
    decreases j - i,
{
    if i < j {
        lemma_first_digit_at(s, i + 1, j);
    }
}

proof fn lemma_digits_end_at(s: Seq<char>, j: nat, k: nat)
    requires
        j <= k <= s.len(),
        forall|t: int| j <= t < k ==> is_digit(#[trigger] s[t]),
        k == s.len() || !is_digit(s[k as int]),
    ensures
        digits_end_from(s, j) == k,
    decreases k - j,
{
    if j < k {
        lemma_digits_end_at(s, j + 1, k);
    }
}

/// Scanning `pre + decimal(n) + post` from the start of `pre`, where `pre`
/// holds no digit and `post` starts with one that is not: the number is
/// `n`, and scanning stops just past the character after it.
proof fn lemma_scan_number(pre: Seq<char>, n: nat, post: Seq<char>, i: nat)
    requires
        i <= pre.len(),
        forall|t: int| 0 <= t < pre.len() ==> !is_digit(#[trigger] pre[t]),
        post.len() > 0,
        !is_digit(post[0]),
        n <= usize::MAX,
    ensures
        spec_extract_num(pre + decimal(n) + post, i, None) == (Some(n as usize), pre.len() + decimal(n).len() + 1),
        spec_extract_num(pre + decimal(n) + post, i, Some(1usize)) == (Some(n as usize), pre.len() + decimal(n).len() + 1),
{
    crate::text::lemma_decimal(n);
    let d = decimal(n);
    let s = pre + d + post;
    let j = pre.len();
    let k = pre.len() + d.len();
    assert forall|t: int| i <= t < j implies !is_digit(#[trigger] s[t]) by {
        assert(s[t] == pre[t]);
    }
    assert(s[j as int] == d[0]);
    assert(is_digit(d[0]));
    lemma_first_digit_at(s, i, j);
    assert forall|t: int| j <= t < k implies is_digit(#[trigger] s[t]) by {
        assert(s[t] == d[t - j]);
    }
    assert(s[k as int] == post[0]);
    lemma_digits_end_at(s, j, k);
    assert(s.subrange(j as int, k as int) =~= d);
}

proof fn lemma_main_name(n: usize)
    ensures
        spec_parse_slot(spec_save_filename(SaveFormat::Freeware, Some(SaveSlot::MainGame(n))).drop_first())
            == Some(SaveSlot::MainGame(n)),
{
    let name = spec_save_filename(SaveFormat::Freeware, Some(SaveSlot::MainGame(n))).drop_first();
    let dat = seq!['.', 'd', 'a', 't'];
    let pre = word_profile();
    assert(!is_digit(dat[0]));
    assert(forall|t: int| 0 <= t < pre.len() ==> !is_digit(#[trigger] pre[t]));
    if n == 1 {
        assert(name =~= pre + dat);
        assert(!starts_with(name, word_mod())) by {
            assert(name.subrange(0, 3)[0] != word_mod()[0]);
        }
        assert(name.subrange(0, 7) =~= word_profile());
        assert forall|t: int| 0 <= t < name.len() implies !is_digit(#[trigger] name[t]) by {
            if t < 7 {
                assert(name[t] == pre[t]);
            } else {
                assert(name[t] == dat[t - 7]);
            }
        }
        lemma_no_digit_from(name, 0);
        lemma_no_digit_from(name, name.len());
    } else {
        crate::text::lemma_decimal(n as nat);
        assert(name =~= pre + decimal(n as nat) + dat);
        assert(!starts_with(name, word_mod())) by {
            assert(name.subrange(0, 3)[0] != word_mod()[0]);
        }
        assert(name.subrange(0, 7) =~= word_profile());
        lemma_scan_number(pre, n as nat, dat, 0);
    }
}

#[verifier::rlimit(30)]
proof fn lemma_mod_name(set: u8, n: usize)
    ensures
        spec_parse_slot(spec_save_filename(SaveFormat::Freeware, Some(SaveSlot::CSPMod(set, n))).drop_first())
            == Some(SaveSlot::CSPMod(set, n)),
{
    let name = spec_save_filename(SaveFormat::Freeware, Some(SaveSlot::CSPMod(set, n))).drop_first();
    let dat = seq!['.', 'd', 'a', 't'];
    let pre = word_mod();
    let mid = seq!['_', 'P', 'r', 'o', 'f', 'i', 'l', 'e'];
    let rest = mid + decimal(n as nat) + dat;
    crate::text::lemma_decimal(set as nat);
    assert(name =~= pre + decimal(set as nat) + rest);
    assert(name.subrange(0, 3) =~= word_mod());
    assert(forall|t: int| 0 <= t < pre.len() ==> !is_digit(#[trigger] pre[t]));
    assert(rest[0] == '_');
    assert(!is_digit(rest[0]));
    lemma_scan_number(pre, set as nat, rest, 0);
    let p = pre.len() + decimal(set as nat).len() + 1;
    let pre3 = pre + decimal(set as nat) + mid;
    assert(name =~= pre3 + decimal(n as nat) + dat);
    assert forall|t: int| p <= t < pre3.len() implies !is_digit(#[trigger] pre3[t]) by {
        assert(pre3[t] == mid[t - p + 1]);
    }
    assert(!is_digit(dat[0]));
    lemma_scan_from(pre3, n as nat, dat, p as nat);
    assert(set as usize as u8 == set);
}

/// Reading back a profile file name: the name a freeware save gives a
/// main-game or challenge-mod slot, without its leading `/`, parses as
/// that slot.
pub proof fn law_slot_name_roundtrip(slot: SaveSlot)
    requires
        !(slot is Mod),
    ensures
        spec_parse_slot(spec_save_filename(SaveFormat::Freeware, Some(slot)).drop_first()) == Some(slot),
{
    match slot {
        SaveSlot::MainGame(n) => lemma_main_name(n),
        SaveSlot::CSPMod(set, n) => lemma_mod_name(set, n),
        _ => {},
    }
}

proof fn lemma_no_digit_from(s: Seq<char>, i: nat)
    requires
        i <= s.len(),
        forall|t: int| 0 <= t < s.len() ==> !is_digit(#[trigger] s[t]),
    ensures
        first_digit_from(s, i) == s.len(),
    decreases s.len() - i,
{
    if i < s.len() {
        lemma_no_digit_from(s, i + 1);
    }
}

/// As [`lemma_scan_number`], scanning from `i` where only `pre[i..]` need
/// hold no digit.
proof fn lemma_scan_from(pre: Seq<char>, n: nat, post: Seq<char>, i: nat)
    requires
        i <= pre.len(),
        forall|t: int| i <= t < pre.len() ==> !is_digit(#[trigger] pre[t]),
        post.len() > 0,
        !is_digit(post[0]),
        n <= usize::MAX,
    ensures
        spec_extract_num(pre + decimal(n) + post, i, None).0 == Some(n as usize),
{
    crate::text::lemma_decimal(n);
    let d = decimal(n);
    let s = pre + d + post;
    let j = pre.len();
    let k = pre.len() + d.len();
    assert forall|t: int| i <= t < j implies !is_digit(#[trigger] s[t]) by {
        assert(s[t] == pre[t]);
    }
    assert(s[j as int] == d[0]);
    lemma_first_digit_at(s, i, j);
    assert forall|t: int| j <= t < k implies is_digit(#[trigger] s[t]) by {
        assert(s[t] == d[t - j]);
    }
    assert(s[k as int] == post[0]);
    lemma_digits_end_at(s, j, k);
    assert(s.subrange(j as int, k as int) =~= d);
}

/// The best times after `time` is offered for mod `mod_id`: kept when the
/// mod has none yet or the stored one is worse (longer).
pub open spec fn best_times_after(m: Map<u8, ChallengeTime>, mod_id: u8, time: ChallengeTime) -> Map<u8, ChallengeTime> {
    if !m.contains_key(mod_id) || spec_time_greater(m[mod_id], time) {
        m.insert(mod_id, time)
    } else {
        m
    }
}

/// Offering a best time never leaves a worse one stored: afterwards the mod
/// has a best time, no longer than the one offered (compared at its tick
/// rate), which is the offered one or the one stored before; no other
/// mod's best time changes.
pub proof fn law_best_time_never_worse(m: Map<u8, ChallengeTime>, mod_id: u8, time: ChallengeTime)
    ensures
        best_times_after(m, mod_id, time).contains_key(mod_id),
        !spec_time_greater(best_times_after(m, mod_id, time)[mod_id], time),
        best_times_after(m, mod_id, time)[mod_id] == time
            || (m.contains_key(mod_id) && best_times_after(m, mod_id, time)[mod_id] == m[mod_id]),
        forall|k: u8| k != mod_id ==> (#[trigger] best_times_after(m, mod_id, time).contains_key(k) == m.contains_key(k)
            && best_times_after(m, mod_id, time)[k] == m[k]),
{
    let r = best_times_after(m, mod_id, time);
    if r[mod_id] == time {
        assert(crate::profile::spec_convert_timing(time, time.timing_mode) == time.ticks as int);
    }
}

/// The name a challenge record (`.rec`) file has: `290` for the main game,
/// else the name the mod list gives for the mod (looked up by the caller
/// under `cspmod_NN`) or that id itself.
pub open spec fn spec_rec_filename(mod_id: u8, mod_rec_name: Option<Seq<char>>, is_absolute: bool) -> Seq<char> {
    let prefix = if is_absolute { seq!['/'] } else { Seq::empty() };
    let name = if mod_id == 0 {
        seq!['2', '9', '0']
    } else {
        match mod_rec_name {
            Some(n) => n,
            None => spec_csp_mod_id(mod_id),
        }
    };
    prefix + name + seq!['.', 'r', 'e', 'c']
}

/// `cspmod_` and the mod number with at least two digits.
pub open spec fn spec_csp_mod_id(mod_id: u8) -> Seq<char> {
    seq!['c', 's', 'p', 'm', 'o', 'd', '_'] + (if mod_id < 10 { seq!['0'] } else { Seq::empty() }) + decimal(
        mod_id as nat,
    )
}

fn string_of(s: &str) -> (res: String)
    ensures
        res@ == s@,
{
    s.to_owned()
}

/// The id a challenge mod is listed under in the mod list.
pub fn csp_mod_id(mod_id: u8) -> (res: String)
    ensures
        res@ == spec_csp_mod_id(mod_id),
{
    proof {
        reveal_strlit("cspmod_");
        reveal_strlit("0");
    }
    let mut r = string_of("cspmod_");
    if mod_id < 10 {
        r.append("0");
    }
    push_decimal(&mut r, mod_id as u64);
    assert(r@ =~= spec_csp_mod_id(mod_id));
    r
}

/// A pending change to the files of a save.
#[derive(Clone, Copy, Debug, PartialEq, Eq, Structural)]
pub enum SavePatch {
    Added,
    Modified,
    Deleted,
}

/// What a pending change is about: a main-game slot, a challenge-mod slot or
/// a challenge best time.
#[derive(Clone, Copy, Debug, PartialEq, Eq, Structural)]
pub enum PatchSlot {
    MainGame(usize),
    CSPMod(u8, usize),
    BestTime(u8),
}

/// The patch key of a profile slot.
pub open spec fn slot_patch_key(slot: SaveSlot) -> PatchSlot
    recommends !(slot is Mod),
{
    match slot {
        SaveSlot::MainGame(n) => PatchSlot::MainGame(n),
        SaveSlot::CSPMod(set, n) => PatchSlot::CSPMod(set, n),
        SaveSlot::Mod(_, n) => PatchSlot::MainGame(n),
    }
}

/// The latest change recorded for `key` in a change log.
pub open spec fn patch_lookup(log: Seq<(PatchSlot, SavePatch)>, key: PatchSlot) -> Option<SavePatch>
    decreases log.len(),
{
    if log.len() == 0 {
        None
    } else if log.last().0 == key {
        Some(log.last().1)
    } else {
        patch_lookup(log.drop_last(), key)
    }
}

/// A key that has a change recorded occurs in the log.
proof fn lemma_lookup_found(log: Seq<(PatchSlot, SavePatch)>, key: PatchSlot)
    requires
        patch_lookup(log, key) is Some,
    ensures
        exists|j: int| 0 <= j < log.len() && (#[trigger] log[j]).0 == key,
    decreases log.len(),
{
    if log.last().0 == key {
        assert(log[log.len() - 1].0 == key);
    } else {
        lemma_lookup_found(log.drop_last(), key);
        let j = choose|j: int| 0 <= j < log.drop_last().len() && (#[trigger] log.drop_last()[j]).0 == key;
        assert(log[j].0 == key);
    }
}

proof fn lemma_push_contains(s: Seq<PatchSlot>, x: PatchSlot)
    ensures
        forall|k: PatchSlot| #[trigger] s.push(x).contains(k) <==> (s.contains(k) || k == x),
{
    assert forall|k: PatchSlot| #[trigger] s.push(x).contains(k) <==> (s.contains(k) || k == x) by {
        if s.contains(k) {
            let i = choose|i: int| 0 <= i < s.len() && s[i] == k;
            assert(s.push(x)[i] == k);
        }
        if k == x {
            assert(s.push(x)[s.len() as int] == x);
        }
        if s.push(x).contains(k) {
            let i = choose|i: int| 0 <= i < s.push(x).len() && s.push(x)[i] == k;
            if i < s.len() {
                assert(s[i] == k);
            }
        }
    }
}

/// Whether `key` is in `keys`.
fn holds_key(keys: &Vec<PatchSlot>, key: PatchSlot) -> (b: bool)
    ensures
        b == keys@.contains(key),
{
    let mut i: usize = 0;
    while i < keys.len()
        invariant
            i <= keys@.len(),
            forall|j: int| 0 <= j < i ==> keys@[j] != key,
        decreases keys@.len() - i,
    {
        if keys[i] == key {
            assert(keys@[i as int] == key);
            return true;
        }
        i += 1;
    }
    false
}

/// The profiles of one Cave Story+ challenge-mod save set.
#[derive(Clone, Debug)]
pub struct CSPModProfile {
    pub profiles: HashMap<usize, GameProfile>,
}

impl CSPModProfile {
    pub fn new() -> (res: Self)
        ensures
            res.profiles@ == Map::<usize, GameProfile>::empty(),
    {
        CSPModProfile { profiles: HashMap::new() }
    }

    pub fn is_empty(&self) -> (res: bool)
        ensures
            res == (self.profiles@.dom().len() == 0),
    {
        let r = self.profiles.is_empty();
        proof {
            if !r {
                assert(self.profiles@.dom().len() != 0) by {
                    let k = choose|k: usize| self.profiles@.dom().contains(k);
                    vstd::set_lib::lemma_set_empty_equivalency_len(self.profiles@.dom());
                }
            } else {
                assert(self.profiles@.dom() =~= Set::<usize>::empty());
            }
        }
        r
    }
}

/// Which slots an import or export covers: all when `slots` is empty.
#[derive(Clone, Debug)]
pub struct SaveParams {
    pub slots: Vec<SaveSlot>,
    pub settings: bool,
}

impl SaveParams {
    /// All slots, with settings.
    pub fn new() -> (res: Self)
        ensures
            res.slots@.len() == 0,
            res.settings,
    {
        SaveParams { slots: Vec::new(), settings: true }
    }
}

/// Every profile and challenge best time of the game, whatever layout they
/// came from.
pub struct SaveContainer {
    pub version: usize,
    pub game_profiles: HashMap<usize, GameProfile>,
    /// Save set number to its profiles.
    pub csp_mods: HashMap<u8, CSPModProfile>,
    /// Mod id to best time.
    pub csp_best_times: HashMap<u8, ChallengeTime>,
    /// Changes not yet written to the original layouts, latest last.
    pub patchset: Vec<(PatchSlot, SavePatch)>,
}

/// The profiles of a save set, empty when the set is absent.
pub open spec fn set_profiles(m: Map<u8, CSPModProfile>, set: u8) -> Map<usize, GameProfile> {
    if m.contains_key(set) { m[set].profiles@ } else { Map::empty() }
}

/// The profile in a slot, if any.
pub open spec fn spec_get_profile(c: SaveContainer, slot: SaveSlot) -> Option<GameProfile> {
    match slot {
        SaveSlot::MainGame(n) => if c.game_profiles@.contains_key(n) { Some(c.game_profiles@[n]) } else { None },
        SaveSlot::CSPMod(set, n) => if set_profiles(c.csp_mods@, set).contains_key(n) {
            Some(set_profiles(c.csp_mods@, set)[n])
        } else {
            None
        },
        SaveSlot::Mod(_, _) => None,
    }
}

/// Every stored best time can be converted between tick rates.
pub open spec fn times_convertible(m: Map<u8, ChallengeTime>) -> bool {
    forall|k: u8| #[trigger] m.contains_key(k) ==> time_convertible(m[k])
}

impl SaveContainer {
    /// An empty container.
    pub fn new() -> (res: SaveContainer)
        ensures
            res.version == 1,
            res.game_profiles@ == Map::<usize, GameProfile>::empty(),
            res.csp_mods@ == Map::<u8, CSPModProfile>::empty(),
            res.csp_best_times@ == Map::<u8, ChallengeTime>::empty(),
            res.patchset@ == Seq::<(PatchSlot, SavePatch)>::empty(),
    {
        SaveContainer {
            version: 1,
            game_profiles: HashMap::new(),
            csp_mods: HashMap::new(),
            csp_best_times: HashMap::new(),
            patchset: Vec::new(),
        }
    }

    /// The patch keys whose latest change is a deletion, each once: the
    /// files a save in the generic layout removes.
    pub fn deleted_patches(&self) -> (r: Vec<PatchSlot>)
        ensures
            forall|k: PatchSlot| r@.contains(k) <==> patch_lookup(self.patchset@, k) == Some(SavePatch::Deleted),
            r@.no_duplicates(),
    {
        let mut r: Vec<PatchSlot> = Vec::new();
        let mut i: usize = 0;
        while i < self.patchset.len()
            invariant
                i <= self.patchset@.len(),
                forall|k: PatchSlot|
                    r@.contains(k) <==> (patch_lookup(self.patchset@, k) == Some(SavePatch::Deleted) && exists|j: int|
                        0 <= j < i && (#[trigger] self.patchset@[j]).0 == k),
                r@.no_duplicates(),
            decreases self.patchset@.len() - i,
        {
            let key = self.patchset[i].0;
            let deleted = match self.patch_state(key) {
                Some(SavePatch::Deleted) => true,
                _ => false,
            };
            let ghost r0 = r@;
            let fresh = deleted && !holds_key(&r, key);
            if fresh {
                r.push(key);
            }
            proof {
                if fresh {
                    lemma_push_contains(r0, key);
                    assert(r@ == r0.push(key));
                    assert forall|a: int, b: int| 0 <= a < r@.len() && 0 <= b < r@.len() && a != b implies r@[a]
                        != r@[b] by {
                        if a < r0.len() && b < r0.len() {
                            assert(r0[a] != r0[b]);
                        } else if a < r0.len() {
                            assert(r0.contains(r0[a]));
                        } else {
                            assert(r0.contains(r0[b]));
                        }
                    }
                }
                assert forall|k: PatchSlot|
                    r@.contains(k) <==> (patch_lookup(self.patchset@, k) == Some(SavePatch::Deleted) && exists|j: int|
                        0 <= j < i + 1 && (#[trigger] self.patchset@[j]).0 == k) by {
                    if k == key {
                        assert(self.patchset@[i as int].0 == k);
                    }
                    if exists|j: int| 0 <= j < i + 1 && (#[trigger] self.patchset@[j]).0 == k {
                        let j = choose|j: int| 0 <= j < i + 1 && (#[trigger] self.patchset@[j]).0 == k;
                        if j < i {
                            assert(exists|j: int| 0 <= j < i && (#[trigger] self.patchset@[j]).0 == k);
                        }
                    }
                }
            }
            i += 1;
        }
        proof {
            assert forall|k: PatchSlot| patch_lookup(self.patchset@, k) is Some implies exists|j: int|
                0 <= j < self.patchset@.len() && (#[trigger] self.patchset@[j]).0 == k by {
                lemma_lookup_found(self.patchset@, k);
            }
        }
        r
    }

    /// The latest pending change of a slot or best time.
    pub fn patch_state(&self, key: PatchSlot) -> (res: Option<SavePatch>)
        ensures
            res == patch_lookup(self.patchset@, key),
    {
        let mut i = self.patchset.len();
        assert(self.patchset@.take(i as int) =~= self.patchset@);
        while i > 0
            invariant
                i <= self.patchset@.len(),
                patch_lookup(self.patchset@, key) == patch_lookup(self.patchset@.take(i as int), key),
            decreases i,
        {
            let ghost pre = self.patchset@.take(i as int);
            assert(pre.drop_last() =~= self.patchset@.take(i - 1));
            if self.patchset[i - 1].0 == key {
                return Some(self.patchset[i - 1].1);
            }
            i = i - 1;
        }
        None
    }

    /// Forgets the pending changes once they are written.
    pub fn clear_patches(&mut self)
        ensures
            final(self).patchset@ == Seq::<(PatchSlot, SavePatch)>::empty(),
            final(self).game_profiles == old(self).game_profiles,
            final(self).csp_mods == old(self).csp_mods,
            final(self).csp_best_times == old(self).csp_best_times,
            final(self).version == old(self).version,
    {
        self.patchset.clear();
    }

    /// The container as read back from the generic layout; this version has
    /// no upgrade steps.
    pub fn upgrade(self) -> (res: Self)
        ensures
            res == self,
    {
        self
    }

    /// Stores a profile in a slot and records the change as added or
    /// modified.
    pub fn set_profile(&mut self, slot: SaveSlot, profile: GameProfile)
        requires
            !(slot is Mod),
        ensures
            spec_get_profile(*final(self), slot) == Some(profile),
            match slot {
                SaveSlot::MainGame(n) => final(self).game_profiles@ == old(self).game_profiles@.insert(n, profile)
                    && final(self).csp_mods@ == old(self).csp_mods@,
                SaveSlot::CSPMod(set, n) => final(self).game_profiles@ == old(self).game_profiles@
                    && final(self).csp_mods@.dom() == old(self).csp_mods@.dom().insert(set)
                    && set_profiles(final(self).csp_mods@, set) == set_profiles(old(self).csp_mods@, set).insert(n, profile)
                    && forall|k: u8| k != set ==> #[trigger] final(self).csp_mods@.get(k) == old(self).csp_mods@.get(k),
                SaveSlot::Mod(_, _) => false,
            },
            forall|other: SaveSlot|
                other != slot ==> #[trigger] spec_get_profile(*final(self), other) == spec_get_profile(
                    *old(self),
                    other,
                ),
            final(self).csp_best_times@ == old(self).csp_best_times@,
            final(self).version == old(self).version,
            final(self).patchset@ == old(self).patchset@.push(
                (slot_patch_key(slot), if spec_get_profile(*old(self), slot) is None { SavePatch::Added } else {
                    SavePatch::Modified
                }),
            ),
    {
        let (key, prev_none) = match slot {
            SaveSlot::MainGame(n) => {
                let prev = self.game_profiles.insert(n, profile);
                (PatchSlot::MainGame(n), prev.is_none())
            },
            SaveSlot::CSPMod(set, n) => {
                let mut m = match self.csp_mods.remove(&set) {
                    Some(m) => m,
                    None => CSPModProfile::new(),
                };
                let prev = m.profiles.insert(n, profile);
                self.csp_mods.insert(set, m);
                (PatchSlot::CSPMod(set, n), prev.is_none())
            },
            SaveSlot::Mod(_, _) => {
                return;
            },
        };
        if prev_none {
            self.patchset.push((key, SavePatch::Added));
        } else {
            self.patchset.push((key, SavePatch::Modified));
        }
        proof {
            if slot is CSPMod {
                assert(final(self).csp_mods@.dom() =~= old(self).csp_mods@.dom().insert(slot->CSPMod_0));
            }
            assert forall|other: SaveSlot| other != slot implies #[trigger] spec_get_profile(*self, other)
                == spec_get_profile(*old(self), other) by {
                match other {
                    SaveSlot::CSPMod(set2, n2) => {
                        if let SaveSlot::CSPMod(set, n) = slot {
                            if set2 != set {
                                assert(self.csp_mods@.get(set2) == old(self).csp_mods@.get(set2));
                                assert(set_profiles(self.csp_mods@, set2) == set_profiles(old(self).csp_mods@, set2));
                            }
                        }
                    },
                    _ => {},
                }
            }
        }
    }

    /// The profile in a slot, if any.
    pub fn get_profile(&self, slot: SaveSlot) -> (res: Option<&GameProfile>)
        requires
            !(slot is Mod),
        ensures
            match res {
                Some(p) => spec_get_profile(*self, slot) == Some(*p),
                None => spec_get_profile(*self, slot) is None,
            },
    {
        match slot {
            SaveSlot::MainGame(n) => self.game_profiles.get(&n),
            SaveSlot::CSPMod(set, n) => {
                if let Some(csp_mod) = self.csp_mods.get(&set) {
                    return csp_mod.profiles.get(&n);
                }
                None
            },
            SaveSlot::Mod(_, _) => None,
        }
    }

    /// Removes the profile in a slot (a save set left empty is removed too)
    /// and records the change as deleted.
    pub fn delete_profile(&mut self, slot: SaveSlot)
        requires
            !(slot is Mod),
        ensures
            spec_get_profile(*final(self), slot) is None,
            match slot {
                SaveSlot::MainGame(n) => final(self).game_profiles@ == old(self).game_profiles@.remove(n)
                    && final(self).csp_mods@ == old(self).csp_mods@,
                SaveSlot::CSPMod(set, n) => final(self).game_profiles@ == old(self).game_profiles@
                    && set_profiles(final(self).csp_mods@, set) == set_profiles(old(self).csp_mods@, set).remove(n)
                    && (final(self).csp_mods@.contains_key(set) <==> (old(self).csp_mods@.contains_key(set)
                        && set_profiles(old(self).csp_mods@, set).remove(n).dom().len() != 0))
                    && forall|k: u8| k != set ==> #[trigger] final(self).csp_mods@.get(k) == old(self).csp_mods@.get(k),
                SaveSlot::Mod(_, _) => false,
            },
            final(self).csp_best_times@ == old(self).csp_best_times@,
            final(self).version == old(self).version,
            final(self).patchset@ == old(self).patchset@.push((slot_patch_key(slot), SavePatch::Deleted)),
    {
        let key = match slot {
            SaveSlot::MainGame(n) => {
                let _ = self.game_profiles.remove(&n);
                PatchSlot::MainGame(n)
            },
            SaveSlot::CSPMod(set, n) => {
                if let Some(mut csp_mod) = self.csp_mods.remove(&set) {
                    csp_mod.profiles.remove(&n);
                    if !csp_mod.is_empty() {
                        self.csp_mods.insert(set, csp_mod);
                    }
                }
                proof {
                    assert(set_profiles(self.csp_mods@, set) =~= set_profiles(old(self).csp_mods@, set).remove(n));
                }
                PatchSlot::CSPMod(set, n)
            },
            SaveSlot::Mod(_, _) => {
                return;
            },
        };
        self.patchset.push((key, SavePatch::Deleted));
    }

    /// Keeps `time` as the best time of a mod when there is none yet or it
    /// is better (shorter) than the stored one; records the change unless
    /// `no_patch` or nothing was replaced.
    pub fn set_best_time(&mut self, mod_id: u8, time: ChallengeTime, no_patch: bool)
        requires
            old(self).csp_best_times@.contains_key(mod_id) ==> convertible_to(
                old(self).csp_best_times@[mod_id],
                time.timing_mode,
            ),
        ensures
            final(self).csp_best_times@ == best_times_after(old(self).csp_best_times@, mod_id, time),
            final(self).patchset@ == (if !no_patch && old(self).csp_best_times@.contains_key(mod_id)
                && spec_time_greater(old(self).csp_best_times@[mod_id], time) {
                old(self).patchset@.push((PatchSlot::BestTime(mod_id), SavePatch::Modified))
            } else {
                old(self).patchset@
            }),
            final(self).game_profiles@ == old(self).game_profiles@,
            final(self).csp_mods@ == old(self).csp_mods@,
            final(self).version == old(self).version,
    {
        let mut modified = false;
        match self.csp_best_times.get(&mod_id) {
            Some(t) => {
                if t.is_greater(&time) {
                    self.csp_best_times.insert(mod_id, time);
                    modified = true;
                }
            },
            None => {
                self.csp_best_times.insert(mod_id, time);
            },
        }
        if !no_patch && modified {
            self.patchset.push((PatchSlot::BestTime(mod_id), SavePatch::Modified));
        }
    }

    /// The best time of a mod, if any.
    pub fn get_best_time(&self, mod_id: u8) -> (res: Option<&ChallengeTime>)
        ensures
            match res {
                Some(t) => self.csp_best_times@.contains_key(mod_id) && *t == self.csp_best_times@[mod_id],
                None => !self.csp_best_times@.contains_key(mod_id),
            },
    {
        self.csp_best_times.get(&mod_id)
    }

    /// Whether no slot holds a profile.
    pub fn is_empty(&self) -> (res: bool)
        ensures
            res == (self.game_profiles@.dom().len() == 0 && forall|set: u8| #[trigger] self.csp_mods@.contains_key(set)
                ==> self.csp_mods@[set].profiles@.dom().len() == 0),
    {
        if !self.game_profiles.is_empty() {
            proof {
                let k = choose|k: usize| self.game_profiles@.dom().contains(k);
                vstd::set_lib::lemma_set_empty_equivalency_len(self.game_profiles@.dom());
            }
            return false;
        }
        assert(self.game_profiles@.dom() =~= Set::<usize>::empty());
        let ghost m = self.csp_mods@;
        let ghost vals = self.csp_mods.values().remaining();
        let ghost mut k: int = 0;
        for csp_mod in it: self.csp_mods.values()
            invariant
                m == self.csp_mods@,
                vals == spec_values_iter(&self.csp_mods).remaining(),
                it.seq() == vals,
                k == it.index(),
                self.game_profiles@.dom().len() == 0,
                forall|i: int| 0 <= i < k ==> (#[trigger] vals[i]).profiles@.dom().len() == 0,
        {
            if !csp_mod.is_empty() {
                proof {
                    let v = *csp_mod;
                    assert(it.seq().unref().to_set() == m.values());
                    assert(it.seq().unref()[it.index()] == v);
                    assert(m.values().contains(v));
                }
                return false;
            }
            proof {
                k = k + 1;
            }
        }
        proof {
            assert(k == vals.len());
            assert forall|set: u8| #[trigger] m.contains_key(set) implies m[set].profiles@.dom().len() == 0 by {
                assert(m.values().contains(m[set]));
                assert(vals.unref().to_set() == m.values());
                assert(vals.unref().to_set().contains(m[set]));
                let i = choose|i: int| 0 <= i < vals.unref().len() && vals.unref()[i] == m[set];
                assert(*vals[i] == m[set]);
            }
        }
        true
    }


    /// The file a save (or one profile of it) is stored in.
    pub fn get_save_filename(format: SaveFormat, slot: Option<SaveSlot>) -> (res: String)
        requires
            !(format is Freeware && slot matches Some(SaveSlot::Mod(_, _))),
        ensures
            res@ == spec_save_filename(format, slot),
    {
        proof {
            reveal_strlit("/save.json");
            reveal_strlit("/Profile.dat");
            reveal_strlit("/profile.dat");
            reveal_strlit("/Profile");
            reveal_strlit(".dat");
            reveal_strlit("/Mod");
            reveal_strlit("_Profile");
        }
        match format {
            SaveFormat::Generic => {
                let r = string_of("/save.json");
                assert(r@ =~= spec_save_filename(format, slot));
                r
            },
            SaveFormat::Plus => {
                let r = string_of("/Profile.dat");
                assert(r@ =~= spec_save_filename(format, slot));
                r
            },
            SaveFormat::Switch(_) => {
                let r = string_of("/profile.dat");
                assert(r@ =~= spec_save_filename(format, slot));
                r
            },
            SaveFormat::Freeware => match slot {
                Some(SaveSlot::MainGame(n)) => if n == 1 {
                    let r = string_of("/Profile.dat");
                    assert(r@ =~= spec_save_filename(format, slot));
                    r
                } else {
                    let mut r = string_of("/Profile");
                    push_decimal(&mut r, n as u64);
                    r.append(".dat");
                    assert(r@ =~= spec_save_filename(format, slot));
                    r
                },
                Some(SaveSlot::CSPMod(set, n)) => {
                    let mut r = string_of("/Mod");
                    push_decimal(&mut r, set as u64);
                    r.append("_Profile");
                    push_decimal(&mut r, n as u64);
                    r.append(".dat");
                    assert(r@ =~= spec_save_filename(format, slot));
                    r
                },
                _ => {
                    let r = string_of("/Profile.dat");
                    assert(r@ =~= spec_save_filename(format, slot));
                    r
                },
            },
        }
    }

    /// The name of the challenge record file of a mod; `mod_rec_name` is
    /// what the mod list gives for `cspmod_NN`, if it lists the mod.
    pub fn get_rec_filename(mod_rec_name: Option<&str>, mod_id: u8, is_absolute: bool) -> (res: String)
        ensures
            res@ == spec_rec_filename(
                mod_id,
                match mod_rec_name {
                    Some(n) => Some(n@),
                    None => None,
                },
                is_absolute,
            ),
    {
        proof {
            reveal_strlit("/");
            reveal_strlit("");
            reveal_strlit("290");
            reveal_strlit(".rec");
        }
        let mut r = if is_absolute { string_of("/") } else { string_of("") };
        if mod_id == 0 {
            r.append("290");
        } else {
            match mod_rec_name {
                Some(n) => r.append(n),
                None => {
                    let id = csp_mod_id(mod_id);
                    r.append(id.as_str());
                },
            }
        }
        r.append(".rec");
        assert(r@ =~= spec_rec_filename(
            mod_id,
            match mod_rec_name {
                Some(n) => Some(n@),
                None => None,
            },
            is_absolute,
        ));
        r
    }
}

/// Progress that unlocks challenge mods: whether Hell was beaten and which
/// weapons and items were ever obtained.
#[derive(Clone, Debug)]
pub struct ModRequirements {
    pub beat_hell: bool,
    pub weapons: Vec<u16>,
    pub items: Vec<u16>,
}

impl ModRequirements {
    pub fn new() -> (res: ModRequirements)
        ensures
            !res.beat_hell,
            res.weapons@ == Seq::<u16>::empty(),
            res.items@ == Seq::<u16>::empty(),
    {
        ModRequirements { beat_hell: false, weapons: Vec::new(), items: Vec::new() }
    }

    pub fn has_weapon(&self, id: u16) -> (res: bool)
        ensures
            res == self.weapons@.contains(id),
    {
        contains_u16(&self.weapons, id)
    }

    pub fn has_item(&self, id: u16) -> (res: bool)
        ensures
            res == self.items@.contains(id),
    {
        contains_u16(&self.items, id)
    }

    /// Records that a weapon was obtained.
    pub fn append_weapon(&mut self, id: u16)
        ensures
            final(self).beat_hell == old(self).beat_hell,
            final(self).items == old(self).items,
            final(self).weapons@ == (if old(self).weapons@.contains(id) { old(self).weapons@ } else {
                old(self).weapons@.push(id)
            }),
    {
        if !contains_u16(&self.weapons, id) {
            self.weapons.push(id);
        }
    }

    /// Records that an item was obtained.
    pub fn append_item(&mut self, id: u16)
        ensures
            final(self).beat_hell == old(self).beat_hell,
            final(self).weapons == old(self).weapons,
            final(self).items@ == (if old(self).items@.contains(id) { old(self).items@ } else {
                old(self).items@.push(id)
            }),
    {
        if !contains_u16(&self.items, id) {
            self.items.push(id);
        }
    }
}

fn contains_u16(v: &Vec<u16>, x: u16) -> (res: bool)
    ensures
        res == v@.contains(x),
{
    let mut i: usize = 0;
    while i < v.len()
        invariant
            i <= v.len(),
            forall|j: int| 0 <= j < i ==> v@[j] != x,
        decreases v.len() - i,
    {
        if v[i] == x {
            assert(v@[i as int] == x);
            return true;
        }
        i = i + 1;
    }
    false
}

pub open spec fn unlock_bit(b: u8, n: u8) -> bool {
    (b >> n) & 1 == 1
}

pub open spec fn with_unlock_bit(b: u8, n: u8, value: bool) -> u8 {
    if value { b | (1u8 << n) } else { b & !(1u8 << n) }
}

/// Which challenges are unlocked, one bit each, as the Switch save keeps it.
#[derive(Clone, Copy, Debug)]
pub struct ChallengeUnlocks(pub u8);

/// The unlock bits that follow from mod requirements: the main game always;
/// Sanctuary Time, Boss Attack and Wind Fortress with Hell beaten; Nemesis
/// with weapon 12; Sand Pit with weapon 3; Curly Story and Machine Gun with
/// item 35.
pub open spec fn spec_dump_unlocks(r: ModRequirements) -> u8 {
    (1u8 | (if r.beat_hell { 0x02u8 | 0x04u8 | 0x10u8 } else { 0u8 }) | (if r.weapons@.contains(12) { 0x20u8 } else {
        0u8
    }) | (if r.weapons@.contains(3) { 0x80u8 } else { 0u8 }) | (if r.items@.contains(35) { 0x08u8 | 0x40u8 } else {
        0u8
    })) as u8
}

impl ChallengeUnlocks {

    /// Bit 0.
    pub fn main_game(&self) -> (res: bool)
        ensures
            res == unlock_bit(self.0, 0),
    {
        (self.0 >> 0u8) & 1 == 1
    }

    /// Sets or clears bit 0.
    pub fn set_main_game(&mut self, value: bool)
        ensures
            final(self).0 == with_unlock_bit(old(self).0, 0, value),
    {
        if value {
            self.0 = self.0 | (1u8 << 0u8);
        } else {
            self.0 = self.0 & !(1u8 << 0u8);
        }
    }

    /// Bit 1.
    pub fn sanctuary_time(&self) -> (res: bool)
        ensures
            res == unlock_bit(self.0, 1),
    {
        (self.0 >> 1u8) & 1 == 1
    }

    /// Sets or clears bit 1.
    pub fn set_sanctuary_time(&mut self, value: bool)
        ensures
            final(self).0 == with_unlock_bit(old(self).0, 1, value),
    {
        if value {
            self.0 = self.0 | (1u8 << 1u8);
        } else {
            self.0 = self.0 & !(1u8 << 1u8);
        }
    }

    /// Bit 2.
    pub fn boss_attack(&self) -> (res: bool)
        ensures
            res == unlock_bit(self.0, 2),
    {
        (self.0 >> 2u8) & 1 == 1
    }

    /// Sets or clears bit 2.
    pub fn set_boss_attack(&mut self, value: bool)
        ensures
            final(self).0 == with_unlock_bit(old(self).0, 2, value),
    {
        if value {
            self.0 = self.0 | (1u8 << 2u8);
        } else {
            self.0 = self.0 & !(1u8 << 2u8);
        }
    }

    /// Bit 3.
    pub fn curly_story(&self) -> (res: bool)
        ensures
            res == unlock_bit(self.0, 3),
    {
        (self.0 >> 3u8) & 1 == 1
    }

    /// Sets or clears bit 3.
    pub fn set_curly_story(&mut self, value: bool)
        ensures
            final(self).0 == with_unlock_bit(old(self).0, 3, value),
    {
        if value {
            self.0 = self.0 | (1u8 << 3u8);
        } else {
            self.0 = self.0 & !(1u8 << 3u8);
        }
    }

    /// Bit 4.
    pub fn wind_fortress(&self) -> (res: bool)
        ensures
            res == unlock_bit(self.0, 4),
    {
        (self.0 >> 4u8) & 1 == 1
    }

    /// Sets or clears bit 4.
    pub fn set_wind_fortress(&mut self, value: bool)
        ensures
            final(self).0 == with_unlock_bit(old(self).0, 4, value),
    {
        if value {
            self.0 = self.0 | (1u8 << 4u8);
        } else {
            self.0 = self.0 & !(1u8 << 4u8);
        }
    }

    /// Bit 5.
    pub fn nemesis(&self) -> (res: bool)
        ensures
            res == unlock_bit(self.0, 5),
    {
        (self.0 >> 5u8) & 1 == 1
    }

    /// Sets or clears bit 5.
    pub fn set_nemesis(&mut self, value: bool)
        ensures
            final(self).0 == with_unlock_bit(old(self).0, 5, value),
    {
        if value {
            self.0 = self.0 | (1u8 << 5u8);
        } else {
            self.0 = self.0 & !(1u8 << 5u8);
        }
    }

    /// Bit 6.
    pub fn machine_gun(&self) -> (res: bool)
        ensures
            res == unlock_bit(self.0, 6),
    {
        (self.0 >> 6u8) & 1 == 1
    }

    /// Sets or clears bit 6.
    pub fn set_machine_gun(&mut self, value: bool)
        ensures
            final(self).0 == with_unlock_bit(old(self).0, 6, value),
    {
        if value {
            self.0 = self.0 | (1u8 << 6u8);
        } else {
            self.0 = self.0 & !(1u8 << 6u8);
        }
    }

    /// Bit 7.
    pub fn sand_pit(&self) -> (res: bool)
        ensures
            res == unlock_bit(self.0, 7),
    {
        (self.0 >> 7u8) & 1 == 1
    }

    /// Sets or clears bit 7.
    pub fn set_sand_pit(&mut self, value: bool)
        ensures
            final(self).0 == with_unlock_bit(old(self).0, 7, value),
    {
        if value {
            self.0 = self.0 | (1u8 << 7u8);
        } else {
            self.0 = self.0 & !(1u8 << 7u8);
        }
    }

    /// Only the main game unlocked.
    pub fn new() -> (res: Self)
        ensures
            res.0 == 1,
    {
        Self(1)
    }

    /// The unlocks that follow from mod requirements.
    pub fn dump(mod_requirements: &ModRequirements) -> (res: Self)
        ensures
            res.0 == spec_dump_unlocks(*mod_requirements),
    {
        let mut challenge_unlocks = Self::new();
        if mod_requirements.beat_hell {
            challenge_unlocks.set_sanctuary_time(true);
            challenge_unlocks.set_boss_attack(true);
            challenge_unlocks.set_wind_fortress(true);
        }
        if mod_requirements.has_weapon(12) {
            challenge_unlocks.set_nemesis(true);
        }
        if mod_requirements.has_weapon(3) {
            challenge_unlocks.set_sand_pit(true);
        }
        if mod_requirements.has_item(35) {
            challenge_unlocks.set_curly_story(true);
            challenge_unlocks.set_machine_gun(true);
        }
        proof {
            let r = *mod_requirements;
            let a = r.beat_hell;
            let b = r.weapons@.contains(12);
            let c = r.weapons@.contains(3);
            let d = r.items@.contains(35);
            assert(
                ({
                    let x0 = 1u8;
                    let x1 = if a { ((x0 | (1u8 << 1u8)) | (1u8 << 2u8)) | (1u8 << 4u8) } else { x0 };
                    let x2 = if b { x1 | (1u8 << 5u8) } else { x1 };
                    let x3 = if c { x2 | (1u8 << 7u8) } else { x2 };
                    let x4 = if d { (x3 | (1u8 << 3u8)) | (1u8 << 6u8) } else { x3 };
                    x4
                }) == (1u8 | (if a { 0x02u8 | 0x04u8 | 0x10u8 } else { 0u8 }) | (if b { 0x20u8 } else { 0u8 }) | (if c {
                    0x80u8
                } else { 0u8 }) | (if d { 0x08u8 | 0x40u8 } else { 0u8 }))
            ) by (bit_vector);
        }
        challenge_unlocks
    }

    /// Applies the unlocks to mod requirements: any of Sanctuary Time, Boss
    /// Attack or Wind Fortress means Hell was beaten; Nemesis gives weapon
    /// 12; Sand Pit weapon 3; Curly Story or Machine Gun item 35.
    pub fn load(&self, mod_requirements: &mut ModRequirements)
        ensures
            final(mod_requirements).beat_hell == (old(mod_requirements).beat_hell || unlock_bit(self.0, 1)
                || unlock_bit(self.0, 2) || unlock_bit(self.0, 4)),
            final(mod_requirements).weapons@ == ({
                let w0 = old(mod_requirements).weapons@;
                let w1 = if unlock_bit(self.0, 5) && !w0.contains(12) { w0.push(12) } else { w0 };
                if unlock_bit(self.0, 7) && !w1.contains(3) { w1.push(3) } else { w1 }
            }),
            final(mod_requirements).items@ == (if (unlock_bit(self.0, 3) || unlock_bit(self.0, 6))
                && !old(mod_requirements).items@.contains(35) { old(mod_requirements).items@.push(35) } else {
                old(mod_requirements).items@
            }),
    {
        if self.sanctuary_time() || self.boss_attack() || self.wind_fortress() {
            mod_requirements.beat_hell = true;
        }
        if self.nemesis() {
            mod_requirements.append_weapon(12);
        }
        if self.sand_pit() {
            mod_requirements.append_weapon(3);
        }
        if self.curly_story() || self.machine_gun() {
            mod_requirements.append_item(35);
        }
    }
}

impl std::str::FromStr for SaveSlot {
    type Err = SaveContainerError;

    fn from_str(s: &str) -> Result<Self, Self::Err> {
        SaveSlot::parse(s)
    }
}

/// The save file names, spelled out: "/save.json" for the generic layout,
/// "/Profile.dat" for Cave Story+ and "/profile.dat" on Switch; in the
/// freeware layout "/Profile.dat" for main-game slot 1 (and when no slot is
/// given), "/ProfileN.dat" for another slot N, and "/ModS_ProfileN.dat"
/// for slot N of challenge save set S, numbers in decimal.
pub proof fn law_save_file_names(format: SaveFormat, slot: Option<SaveSlot>, set: u8, n: usize)
    ensures
        format is Generic ==> spec_save_filename(format, slot) == "/save.json"@,
        format is Plus ==> spec_save_filename(format, slot) == "/Profile.dat"@,
        format is Switch ==> spec_save_filename(format, slot) == "/profile.dat"@,
        spec_save_filename(SaveFormat::Freeware, None) == "/Profile.dat"@,
        spec_save_filename(SaveFormat::Freeware, Some(SaveSlot::MainGame(1))) == "/Profile.dat"@,
        n != 1 ==> spec_save_filename(SaveFormat::Freeware, Some(SaveSlot::MainGame(n))) == "/Profile"@ + decimal(
            n as nat,
        ) + ".dat"@,
        spec_save_filename(SaveFormat::Freeware, Some(SaveSlot::CSPMod(set, n))) == "/Mod"@ + decimal(set as nat)
            + "_Profile"@ + decimal(n as nat) + ".dat"@,
{
    reveal_strlit("/save.json");
    reveal_strlit("/Profile.dat");
    reveal_strlit("/profile.dat");
    reveal_strlit("/Profile");
    reveal_strlit(".dat");
    reveal_strlit("/Mod");
    reveal_strlit("_Profile");
    assert("/save.json"@ =~= seq!['/', 's', 'a', 'v', 'e', '.', 'j', 's', 'o', 'n']);
    assert("/Profile.dat"@ =~= name_profile() + name_dat());
    assert("/profile.dat"@ =~= seq!['/', 'p', 'r', 'o', 'f', 'i', 'l', 'e'] + name_dat());
    assert("/Profile"@ =~= name_profile());
    assert(".dat"@ =~= name_dat());
    assert("/Mod"@ =~= seq!['/', 'M', 'o', 'd']);
    assert("_Profile"@ =~= seq!['_', 'P', 'r', 'o', 'f', 'i', 'l', 'e']);
}

/// The names of best-time records, spelled out: "290.rec" for the main
/// game; for a mod, its own record name when it has one, else "cspmod_NN.rec"
/// with the mod number in at least two digits; with a leading "/" when
/// absolute.
pub proof fn law_record_names(mod_id: u8, name: Option<Seq<char>>, is_absolute: bool)
    ensures
        mod_id == 0 ==> spec_rec_filename(mod_id, name, is_absolute) == (if is_absolute { "/"@ } else { Seq::empty() })
            + "290.rec"@,
        mod_id != 0 && name is Some ==> spec_rec_filename(mod_id, name, is_absolute) == (if is_absolute {
            "/"@
        } else {
            Seq::empty()
        }) + name->0 + ".rec"@,
        mod_id != 0 && mod_id < 10 && name is None ==> spec_rec_filename(mod_id, name, is_absolute) == (if is_absolute {
            "/"@
        } else {
            Seq::empty()
        }) + "cspmod_0"@ + decimal(mod_id as nat) + ".rec"@,
        mod_id >= 10 && name is None ==> spec_rec_filename(mod_id, name, is_absolute) == (if is_absolute {
            "/"@
        } else {
            Seq::empty()
        }) + "cspmod_"@ + decimal(mod_id as nat) + ".rec"@,
{
    reveal_strlit("/");
    reveal_strlit("290.rec");
    reveal_strlit(".rec");
    reveal_strlit("cspmod_0");
    reveal_strlit("cspmod_");
    assert("290.rec"@ =~= seq!['2', '9', '0'] + seq!['.', 'r', 'e', 'c']);
    assert(".rec"@ =~= seq!['.', 'r', 'e', 'c']);
    assert("cspmod_0"@ =~= seq!['c', 's', 'p', 'm', 'o', 'd', '_'] + seq!['0']);
    assert("cspmod_"@ =~= seq!['c', 's', 'p', 'm', 'o', 'd', '_']);
}

} // verus!
