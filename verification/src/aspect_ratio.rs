//! The user-facing aspect-ratio setting, stored as a string in the settings
//! file and parsed back at run time.

use vstd::prelude::*;
use crate::text::{
    all_digits, is_digit, is_white_space, lemma_decimal, leading_ws, trailing_ws, ascii_lower,
    decimal, eq_ignore_ascii_case, spec_parse_u32, spec_trim, str_chars, trim_bounds, eq_ignore_ascii_case_range,
    parse_u32_range, push_decimal,
};

verus! {

/// User-facing aspect-ratio setting. Unknown or malformed stored values fall
/// back to `Default` without breaking the settings file.
#[derive(Clone, Copy, Debug, PartialEq, Eq)]
pub enum AspectRatio {
    /// Edition-dependent default, resolved via [`DataType`] at run time.
    Default,
    /// Fill the window; the viewport takes the window aspect.
    Unrestricted,
    /// Fill the window exactly, pixel for pixel.
    Stretch,
    /// Lock to a specific aspect.
    Locked { w: u32, h: u32 },
}

/// The game data edition that was detected.
#[derive(Clone, Copy, Debug, PartialEq, Eq)]
pub enum DataType {
    Freeware,
    NXEngine,
    CSPlus,
    Switch,
    CS3D,
}

/// An aspect with the edition default resolved.
#[derive(Clone, Copy, Debug, PartialEq, Eq)]
pub enum ResolvedAspect {
    Unrestricted,
    Stretch,
    Locked { w: u32, h: u32 },
}

pub open spec fn word_default() -> Seq<char> {
    seq!['d', 'e', 'f', 'a', 'u', 'l', 't']
}

pub open spec fn word_unrestricted() -> Seq<char> {
    seq!['u', 'n', 'r', 'e', 's', 't', 'r', 'i', 'c', 't', 'e', 'd']
}

pub open spec fn word_stretch() -> Seq<char> {
    seq!['s', 't', 'r', 'e', 't', 'c', 'h']
}

/// Index of the first `c` in `s` at or after `i`.
pub open spec fn find_char_from(s: Seq<char>, c: char, i: nat) -> Option<nat>
    decreases s.len() - i,
{
    if i >= s.len() {
        None
    } else if s[i as int] == c {
        Some(i)
    } else {
        find_char_from(s, c, i + 1)
    }
}

proof fn lemma_find_char_from(s: Seq<char>, c: char, i: nat)
    ensures
        find_char_from(s, c, i) matches Some(k) ==> i <= k < s.len() && s[k as int] == c,
    decreases s.len() - i,
{
    if i < s.len() && s[i as int] != c {
        lemma_find_char_from(s, c, i + 1);
    }
}

/// The `W:H` form: both sides trimmed, parsed as `u32` and positive.
pub open spec fn spec_parse_locked(t: Seq<char>) -> Option<AspectRatio> {
    match find_char_from(t, ':', 0) {
        Some(k) => {
            let w = spec_parse_u32(spec_trim(t.take(k as int)));
            let h = spec_parse_u32(spec_trim(t.skip(k + 1 as int)));
            if w is Some && h is Some && w->0 > 0 && h->0 > 0 {
                Some(AspectRatio::Locked { w: w->0, h: h->0 })
            } else {
                None
            }
        },
        None => None,
    }
}

/// What a stored setting string means.
pub open spec fn spec_parse_aspect(s: Seq<char>) -> AspectRatio {
    let t = spec_trim(s);
    if eq_ignore_ascii_case(t, word_default()) {
        AspectRatio::Default
    } else if eq_ignore_ascii_case(t, word_unrestricted()) {
        AspectRatio::Unrestricted
    } else if eq_ignore_ascii_case(t, word_stretch()) {
        AspectRatio::Stretch
    } else {
        match spec_parse_locked(t) {
            Some(a) => a,
            None => AspectRatio::Default,
        }
    }
}

/// The stored string of a setting.
pub open spec fn spec_stringify(a: AspectRatio) -> Seq<char> {
    match a {
        AspectRatio::Default => word_default(),
        AspectRatio::Unrestricted => word_unrestricted(),
        AspectRatio::Stretch => word_stretch(),
        AspectRatio::Locked { w, h } => decimal(w as nat) + seq![':'] + decimal(h as nat),
    }
}

pub open spec fn spec_resolve(a: AspectRatio, data_type: Option<DataType>) -> ResolvedAspect {
    match a {
        AspectRatio::Unrestricted => ResolvedAspect::Unrestricted,
        AspectRatio::Stretch => ResolvedAspect::Stretch,
        AspectRatio::Locked { w, h } => ResolvedAspect::Locked { w, h },
        AspectRatio::Default => match data_type {
            Some(DataType::Switch) => ResolvedAspect::Locked { w: 16, h: 9 },
            Some(DataType::CS3D) => ResolvedAspect::Locked { w: 5, h: 4 },
            _ => ResolvedAspect::Locked { w: 4, h: 3 },
        },
    }
}

fn word_chars(k: u8) -> (res: Vec<char>)
    requires
        k < 3,
    ensures
        k == 0 ==> res@ == word_default(),
        k == 1 ==> res@ == word_unrestricted(),
        k == 2 ==> res@ == word_stretch(),
{
    proof {
        reveal_strlit("default");
        reveal_strlit("unrestricted");
        reveal_strlit("stretch");
    }
    let v = if k == 0 {
        str_chars("default")
    } else if k == 1 {
        str_chars("unrestricted")
    } else {
        str_chars("stretch")
    };
    proof {
        assert(k == 0 ==> v@ =~= word_default());
        assert(k == 1 ==> v@ =~= word_unrestricted());
        assert(k == 2 ==> v@ =~= word_stretch());
    }
    v
}

fn find_char(s: &Vec<char>, lo: usize, hi: usize, c: char) -> (res: Option<usize>)
    requires
        lo <= hi <= s.len(),
    ensures
        match find_char_from(s@.subrange(lo as int, hi as int), c, 0) {
            Some(k) => res == Some((lo + k) as usize),
            None => res is None,
        },
{
    let ghost t = s@.subrange(lo as int, hi as int);
    let mut i = lo;
    while i < hi
        invariant
            lo <= i <= hi <= s.len(),
            t == s@.subrange(lo as int, hi as int),
            find_char_from(t, c, 0) == find_char_from(t, c, (i - lo) as nat),
        decreases hi - i,
    {
        assert(t[i - lo] == s@[i as int]);
        if s[i] == c {
            return Some(i);
        }
        i = i + 1;
    }
    None
}

impl AspectRatio {
    /// Parses a settings-file string. Accepts `"default"`, `"unrestricted"`,
    /// `"stretch"` (in any ASCII case) and `"W:H"` with positive `W` and `H`;
    /// anything else gives `Default`.
    pub fn parse(s: &str) -> (res: AspectRatio)
        ensures
            res == spec_parse_aspect(s@),
    {
        let cs = str_chars(s);
        let (a, b) = trim_bounds(&cs, 0, cs.len());
        assert(cs@.subrange(0, cs@.len() as int) =~= s@);
        let ghost t = spec_trim(s@);
        if eq_ignore_ascii_case_range(&cs, a, b, &word_chars(0)) {
            return AspectRatio::Default;
        }
        if eq_ignore_ascii_case_range(&cs, a, b, &word_chars(1)) {
            return AspectRatio::Unrestricted;
        }
        if eq_ignore_ascii_case_range(&cs, a, b, &word_chars(2)) {
            return AspectRatio::Stretch;
        }
        proof {
            lemma_find_char_from(t, ':', 0);
        }
        if let Some(k) = find_char(&cs, a, b, ':') {
            let (wa, wb) = trim_bounds(&cs, a, k);
            let (ha, hb) = trim_bounds(&cs, k + 1, b);
            proof {
                assert(cs@.subrange(a as int, k as int) =~= t.take(k - a));
                assert(cs@.subrange(k + 1, b as int) =~= t.skip(k - a + 1));
            }
            let w = parse_u32_range(&cs, wa, wb);
            let h = parse_u32_range(&cs, ha, hb);
            if let (Some(w), Some(h)) = (w, h) {
                if w > 0 && h > 0 {
                    return AspectRatio::Locked { w, h };
                }
            }
        }
        AspectRatio::Default
    }

    /// The string this setting is stored as.
    pub fn stringify(&self) -> (res: String)
        ensures
            res@ == spec_stringify(*self),
    {
        proof {
            reveal_strlit("default");
            reveal_strlit("unrestricted");
            reveal_strlit("stretch");
            reveal_strlit(":");
        }
        match self {
            AspectRatio::Default => {
                let r = "default".to_owned();
                assert(r@ =~= word_default());
                r
            },
            AspectRatio::Unrestricted => {
                let r = "unrestricted".to_owned();
                assert(r@ =~= word_unrestricted());
                r
            },
            AspectRatio::Stretch => {
                let r = "stretch".to_owned();
                assert(r@ =~= word_stretch());
                r
            },
            AspectRatio::Locked { w, h } => {
                let mut r = String::new();
                push_decimal(&mut r, *w as u64);
                r.append(":");
                push_decimal(&mut r, *h as u64);
                assert(r@ =~= spec_stringify(*self));
                r
            },
        }
    }

    /// Resolves `Default` to an edition-specific locked aspect; other
    /// variants pass through.
    pub fn resolve(self, data_type: Option<DataType>) -> (res: ResolvedAspect)
        ensures
            res == spec_resolve(self, data_type),
    {
        match self {
            AspectRatio::Unrestricted => ResolvedAspect::Unrestricted,
            AspectRatio::Stretch => ResolvedAspect::Stretch,
            AspectRatio::Locked { w, h } => ResolvedAspect::Locked { w, h },
            AspectRatio::Default => match data_type {
                Some(DataType::Switch) => ResolvedAspect::Locked { w: 16, h: 9 },
                Some(DataType::CS3D) => ResolvedAspect::Locked { w: 5, h: 4 },
                _ => ResolvedAspect::Locked { w: 4, h: 3 },
            },
        }
    }
}

proof fn lemma_trim_identity(x: Seq<char>)
    requires
        x.len() > 0,
        !is_white_space(x[0]),
        !is_white_space(x.last()),
    ensures
        spec_trim(x) == x,
{
    assert(leading_ws(x) == 0);
    assert(x.skip(0) =~= x);
    assert(trailing_ws(x) == 0);
    assert(x.take(x.len() as int) =~= x);
}

proof fn lemma_find_char_none_before(s: Seq<char>, c: char, i: nat, k: nat)
    requires
        i <= k < s.len(),
        s[k as int] == c,
        forall|j: int| i <= j < k ==> s[j] != c,
    ensures
        find_char_from(s, c, i) == Some(k),
    decreases k - i,
{
    if i < k {
        lemma_find_char_none_before(s, c, i + 1, k);
    }
}

/// Reading back a stored setting gives the setting, for every setting that
/// can be stored: a locked aspect needs both sides positive, and the
/// other variants always round-trip.
pub proof fn law_aspect_roundtrip(a: AspectRatio)
    requires
        a matches AspectRatio::Locked { w, h } ==> w > 0 && h > 0,
    ensures
        spec_parse_aspect(spec_stringify(a)) == a,
{
    let t = spec_stringify(a);
    match a {
        AspectRatio::Default => {
            lemma_trim_identity(t);
        },
        AspectRatio::Unrestricted => {
            lemma_trim_identity(t);
        },
        AspectRatio::Stretch => {
            lemma_trim_identity(t);
            assert(ascii_lower(t[0]) != ascii_lower(word_default()[0]));
        },
        AspectRatio::Locked { w, h } => {
            let dw = decimal(w as nat);
            let dh = decimal(h as nat);
            lemma_decimal(w as nat);
            lemma_decimal(h as nat);
            assert(t[0] == dw[0]);
            assert(t.last() == dh.last());
            assert(is_digit(dw[0]));
            assert(is_digit(dh[dh.len() - 1]));
            lemma_trim_identity(t);
            assert(ascii_lower(t[0]) == t[0]);
            assert(!eq_ignore_ascii_case(t, word_default()) ) by {
                if t.len() == word_default().len() {
                    assert(ascii_lower(t[0]) != ascii_lower(word_default()[0]));
                }
            }
            assert(!eq_ignore_ascii_case(t, word_unrestricted()) ) by {
                if t.len() == word_unrestricted().len() {
                    assert(ascii_lower(t[0]) != ascii_lower(word_unrestricted()[0]));
                }
            }
            assert(!eq_ignore_ascii_case(t, word_stretch()) ) by {
                if t.len() == word_stretch().len() {
                    assert(ascii_lower(t[0]) != ascii_lower(word_stretch()[0]));
                }
            }
            let k = dw.len();
            assert(t[k as int] == ':');
            assert forall|j: int| 0 <= j < k implies t[j] != ':' by {
                assert(t[j] == dw[j]);
                assert(is_digit(dw[j]));
            }
            lemma_find_char_none_before(t, ':', 0, k);
            assert(t.take(k as int) =~= dw);
            assert(t.skip(k + 1 as int) =~= dh);
            lemma_trim_identity(dw);
            lemma_trim_identity(dh);
        },
    }
}

/// Resolving a setting: the edition default is 16:9 on Switch data, 5:4 on
/// 3DS data and 4:3 on every other edition (freeware, NXEngine, Cave
/// Story+) or when no edition is known; every other setting resolves to
/// itself, whatever the edition.
pub proof fn law_resolve(a: AspectRatio, d: Option<DataType>)
    ensures
        a == AspectRatio::Default && d == Some(DataType::Switch) ==> spec_resolve(a, d) == (ResolvedAspect::Locked { w: 16, h: 9 }),
        a == AspectRatio::Default && d == Some(DataType::CS3D) ==> spec_resolve(a, d) == (ResolvedAspect::Locked { w: 5, h: 4 }),
        a == AspectRatio::Default && d != Some(DataType::Switch) && d != Some(DataType::CS3D) ==> spec_resolve(a, d)
            == (ResolvedAspect::Locked { w: 4, h: 3 }),
        a == AspectRatio::Unrestricted ==> spec_resolve(a, d) == ResolvedAspect::Unrestricted,
        a == AspectRatio::Stretch ==> spec_resolve(a, d) == ResolvedAspect::Stretch,
        a matches AspectRatio::Locked { w, h } ==> spec_resolve(a, d) == (ResolvedAspect::Locked { w, h }),
{
}

/// The stored words: "default", "unrestricted", "stretch", and a locked
/// aspect as its two sides in decimal around a colon.
pub proof fn law_stored_words(a: AspectRatio)
    ensures
        a == AspectRatio::Default ==> spec_stringify(a) == "default"@,
        a == AspectRatio::Unrestricted ==> spec_stringify(a) == "unrestricted"@,
        a == AspectRatio::Stretch ==> spec_stringify(a) == "stretch"@,
        a matches AspectRatio::Locked { w, h } ==> spec_stringify(a) == decimal(w as nat) + ":"@ + decimal(h as nat),
{
    reveal_strlit("default");
    reveal_strlit("unrestricted");
    reveal_strlit("stretch");
    reveal_strlit(":");
    assert("default"@ =~= word_default());
    assert("unrestricted"@ =~= word_unrestricted());
    assert("stretch"@ =~= word_stretch());
    assert(":"@ =~= seq![':']);
}

} // verus!
