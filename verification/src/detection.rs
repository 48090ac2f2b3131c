//! Finding installed emulators in the usual install locations.

use vstd::prelude::*;
use vstd::string::*;

use crate::paths::{
    ends_with, joinable_base, joined, joined_twice, lemma_joined_joinable, lemma_joined_twice, lemma_plain_joinable,
    lemma_plain_lowercase, lemma_plain_simple, path_exists, path_join, plain_component, simple_name,
};
use crate::text::{copy_string, list1, list2, list3, lowercase, to_lowercase};

verus! {

/// An emulator found on disk.
#[derive(Debug, Clone)]
pub struct DetectedEmulator {
    pub id: String,
    pub name: String,
    pub path: String,
    pub version: Option<String>,
}

/// A RetroArch core found in the cores directory.
#[derive(Debug, Clone)]
pub struct RetroArchCore {
    pub name: String,
    pub path: String,
}

/// An emulator the detection looks for: its id, its display name (also the
/// name of the directory it is usually installed in), and the executable
/// file names it may have.
pub struct EmulatorPattern {
    pub id: String,
    pub name: String,
    pub executables: Vec<String>,
}

/// The emulators the detection looks for, as (id, name, executables).
pub open spec fn emulator_pattern_table() -> Seq<(Seq<char>, Seq<char>, Seq<Seq<char>>)> {
    seq![
        ("retroarch"@, "RetroArch"@, seq!["retroarch.exe"@, "RetroArch.exe"@]),
        ("dolphin"@, "Dolphin"@, seq!["Dolphin.exe"@]),
        ("pcsx2"@, "PCSX2"@, seq!["pcsx2.exe"@, "pcsx2-qt.exe"@, "pcsx2-qtx64.exe"@]),
        ("rpcs3"@, "RPCS3"@, seq!["rpcs3.exe"@]),
        ("ppsspp"@, "PPSSPP"@, seq!["PPSSPPWindows.exe"@, "PPSSPPWindows64.exe"@]),
        ("duckstation"@, "DuckStation"@, seq![
            "duckstation-qt-x64-ReleaseLTCG.exe"@,
            "duckstation-nogui-x64-ReleaseLTCG.exe"@,
        ]),
        ("cemu"@, "Cemu"@, seq!["Cemu.exe"@]),
        ("ryujinx"@, "Ryujinx"@, seq!["Ryujinx.exe"@]),
        ("citra"@, "Citra"@, seq!["citra-qt.exe"@, "lime3ds.exe"@]),
        ("melonds"@, "melonDS"@, seq!["melonDS.exe"@]),
        ("mgba"@, "mGBA"@, seq!["mGBA.exe"@]),
        ("flycast"@, "Flycast"@, seq!["flycast.exe"@]),
        ("xemu"@, "xemu"@, seq!["xemu.exe"@]),
        ("xenia"@, "Xenia"@, seq!["xenia_canary.exe"@, "xenia.exe"@]),
        ("mame"@, "MAME"@, seq!["mame.exe"@, "mame64.exe"@]),
    ]
}

/// The model of a pattern.
pub open spec fn pattern_view(p: EmulatorPattern) -> (Seq<char>, Seq<char>, Seq<Seq<char>>) {
    (p.id@, p.name@, crate::text::views(p.executables@))
}

fn pattern(id: &str, name: &str, executables: Vec<String>) -> (p: EmulatorPattern)
    ensures
        pattern_view(p) == (id@, name@, crate::text::views(executables@)),
{
    EmulatorPattern { id: String::from_str(id), name: String::from_str(name), executables }
}

/// The emulators the detection looks for.
pub fn emulator_patterns() -> (r: Vec<EmulatorPattern>)
    ensures
        r@.map_values(|p: EmulatorPattern| pattern_view(p)) == emulator_pattern_table(),
{
    let mut v: Vec<EmulatorPattern> = Vec::new();
    v.push(pattern("retroarch", "RetroArch", list2("retroarch.exe", "RetroArch.exe")));
    v.push(pattern("dolphin", "Dolphin", list1("Dolphin.exe")));
    v.push(pattern("pcsx2", "PCSX2", list3("pcsx2.exe", "pcsx2-qt.exe", "pcsx2-qtx64.exe")));
    v.push(pattern("rpcs3", "RPCS3", list1("rpcs3.exe")));
    v.push(pattern("ppsspp", "PPSSPP", list2("PPSSPPWindows.exe", "PPSSPPWindows64.exe")));
    v.push(pattern(
        "duckstation",
        "DuckStation",
        list2("duckstation-qt-x64-ReleaseLTCG.exe", "duckstation-nogui-x64-ReleaseLTCG.exe"),
    ));
    v.push(pattern("cemu", "Cemu", list1("Cemu.exe")));
    v.push(pattern("ryujinx", "Ryujinx", list1("Ryujinx.exe")));
    v.push(pattern("citra", "Citra", list2("citra-qt.exe", "lime3ds.exe")));
    v.push(pattern("melonds", "melonDS", list1("melonDS.exe")));
    v.push(pattern("mgba", "mGBA", list1("mGBA.exe")));
    v.push(pattern("flycast", "Flycast", list1("flycast.exe")));
    v.push(pattern("xemu", "xemu", list1("xemu.exe")));
    v.push(pattern("xenia", "Xenia", list2("xenia_canary.exe", "xenia.exe")));
    v.push(pattern("mame", "MAME", list2("mame.exe", "mame64.exe")));
    assert(v@.map_values(|p: EmulatorPattern| pattern_view(p)) =~= emulator_pattern_table());
    v
}

/// The names and executable names of the pattern table are plain path
/// components of more than two characters.
proof fn lemma_pattern_plain(k: int)
    requires
        0 <= k < emulator_pattern_table().len(),
    ensures
        plain_component(emulator_pattern_table()[k].1),
        emulator_pattern_table()[k].1.len() > 2,
        forall|e: int|
            0 <= e < emulator_pattern_table()[k].2.len() ==> plain_component(#[trigger] emulator_pattern_table()[k].2[e])
                && emulator_pattern_table()[k].2[e].len() > 2,
{
    if k == 0 {
        reveal_strlit("RetroArch");
        reveal_strlit("retroarch.exe");
        reveal_strlit("RetroArch.exe");
        assert(plain_component("RetroArch"@));
        assert(plain_component("retroarch.exe"@));
        assert(plain_component("RetroArch.exe"@));
    } else if k == 1 {
        reveal_strlit("Dolphin");
        reveal_strlit("Dolphin.exe");
        assert(plain_component("Dolphin"@));
        assert(plain_component("Dolphin.exe"@));
    } else if k == 2 {
        reveal_strlit("PCSX2");
        reveal_strlit("pcsx2.exe");
        reveal_strlit("pcsx2-qt.exe");
        reveal_strlit("pcsx2-qtx64.exe");
        assert(plain_component("PCSX2"@));
        assert(plain_component("pcsx2.exe"@));
        assert(plain_component("pcsx2-qt.exe"@));
        assert(plain_component("pcsx2-qtx64.exe"@));
    } else if k == 3 {
        reveal_strlit("RPCS3");
        reveal_strlit("rpcs3.exe");
        assert(plain_component("RPCS3"@));
        assert(plain_component("rpcs3.exe"@));
    } else if k == 4 {
        reveal_strlit("PPSSPP");
        reveal_strlit("PPSSPPWindows.exe");
        reveal_strlit("PPSSPPWindows64.exe");
        assert(plain_component("PPSSPP"@));
        assert(plain_component("PPSSPPWindows.exe"@));
        assert(plain_component("PPSSPPWindows64.exe"@));
    } else if k == 5 {
        reveal_strlit("DuckStation");
        reveal_strlit("duckstation-qt-x64-ReleaseLTCG.exe");
        reveal_strlit("duckstation-nogui-x64-ReleaseLTCG.exe");
        assert(plain_component("DuckStation"@));
        assert(plain_component("duckstation-qt-x64-ReleaseLTCG.exe"@));
        assert(plain_component("duckstation-nogui-x64-ReleaseLTCG.exe"@));
    } else if k == 6 {
        reveal_strlit("Cemu");
        reveal_strlit("Cemu.exe");
        assert(plain_component("Cemu"@));
        assert(plain_component("Cemu.exe"@));
    } else if k == 7 {
        reveal_strlit("Ryujinx");
        reveal_strlit("Ryujinx.exe");
        assert(plain_component("Ryujinx"@));
        assert(plain_component("Ryujinx.exe"@));
    } else if k == 8 {
        reveal_strlit("Citra");
        reveal_strlit("citra-qt.exe");
        reveal_strlit("lime3ds.exe");
        assert(plain_component("Citra"@));
        assert(plain_component("citra-qt.exe"@));
        assert(plain_component("lime3ds.exe"@));
    } else if k == 9 {
        reveal_strlit("melonDS");
        reveal_strlit("melonDS.exe");
        assert(plain_component("melonDS"@));
        assert(plain_component("melonDS.exe"@));
    } else if k == 10 {
        reveal_strlit("mGBA");
        reveal_strlit("mGBA.exe");
        assert(plain_component("mGBA"@));
        assert(plain_component("mGBA.exe"@));
    } else if k == 11 {
        reveal_strlit("Flycast");
        reveal_strlit("flycast.exe");
        assert(plain_component("Flycast"@));
        assert(plain_component("flycast.exe"@));
    } else if k == 12 {
        reveal_strlit("xemu");
        reveal_strlit("xemu.exe");
        assert(plain_component("xemu"@));
        assert(plain_component("xemu.exe"@));
    } else if k == 13 {
        reveal_strlit("Xenia");
        reveal_strlit("xenia_canary.exe");
        reveal_strlit("xenia.exe");
        assert(plain_component("Xenia"@));
        assert(plain_component("xenia_canary.exe"@));
        assert(plain_component("xenia.exe"@));
    } else if k == 14 {
        reveal_strlit("MAME");
        reveal_strlit("mame.exe");
        reveal_strlit("mame64.exe");
        assert(plain_component("MAME"@));
        assert(plain_component("mame.exe"@));
        assert(plain_component("mame64.exe"@));
    }
}

/// A place the detection looks at, as (directory index, pattern index,
/// executable index): `a` comes before `b` in the order of the search.
pub open spec fn slot_before(a: (int, int, int), b: (int, int, int)) -> bool {
    a.0 < b.0 || (a.0 == b.0 && (a.1 < b.1 || (a.1 == b.1 && a.2 < b.2)))
}

/// `s` is a place of the search over `n_bases` directories: a directory,
/// an emulator of the pattern table and one of its executable names.
pub open spec fn valid_slot(s: (int, int, int), n_bases: int) -> bool {
    &&& 0 <= s.0 < n_bases
    &&& 0 <= s.1 < emulator_pattern_table().len()
    &&& 0 <= s.2 < emulator_pattern_table()[s.1].2.len()
}

/// For each emulator of the pattern table, how many executable names come
/// before its own in the table; the last entry is the number of them all.
pub open spec fn exe_offsets() -> Seq<int> {
    seq![0, 2, 3, 6, 7, 9, 11, 12, 13, 15, 16, 17, 18, 19, 21, 23]
}

/// The number of places looked at for one executable: the directory
/// itself, a subdirectory named like the emulator, and one named like it in
/// lowercase.
pub open spec fn places_per_exe() -> int {
    3
}

/// The number of places looked at under one directory.
pub open spec fn places_per_base() -> int {
    69
}

proof fn lemma_exe_offsets(k: int)
    requires
        0 <= k < emulator_pattern_table().len(),
    ensures
        exe_offsets()[k + 1] == exe_offsets()[k] + emulator_pattern_table()[k].2.len(),
        exe_offsets()[0] == 0,
        exe_offsets()[emulator_pattern_table().len() as int] == 23,
        emulator_pattern_table().len() == 15,
{
}

/// Where the answer for candidate place `c` (0, 1 or 2) of search place
/// `s` stands among the answers, which follow the order of the search.
pub open spec fn flag_index(s: (int, int, int), c: int) -> int {
    (s.0 * 23 + exe_offsets()[s.1] + s.2) * 3 + c
}

/// Which of the three places of search place `s` is the first that
/// exists by the answers `flags`; 3 when none does.
pub open spec fn first_found(flags: Seq<bool>, s: (int, int, int)) -> int {
    if flags[flag_index(s, 0)] {
        0
    } else if flags[flag_index(s, 1)] {
        1
    } else if flags[flag_index(s, 2)] {
        2
    } else {
        3
    }
}

/// `path` has the form of place `c` looked at for the executable `exe` of
/// the emulator named `name` under the directory `base`: `base/exe` (0),
/// `base/name/exe` (1) or `base/lowercase(name)/exe` (2), with the
/// platform's separators. It ends with `exe` in any case; under a joinable
/// directory or the empty path the whole of it is fixed up to the
/// separators.
pub open spec fn candidate_form(path: Seq<char>, base: Seq<char>, name: Seq<char>, exe: Seq<char>, c: int) -> bool {
    &&& ends_with(path, exe)
    &&& c == 0 ==> (joinable_base(base) ==> joined(path, base, exe)) && (base.len() == 0 ==> path == exe)
    &&& c == 1 ==> (joinable_base(base) ==> joined_twice(path, base, name, exe)) && (base.len() == 0 ==> joined(
        path,
        name,
        exe,
    ))
    &&& c == 2 ==> (joinable_base(base) ==> joined_twice(path, base, lowercase(name), exe)) && (base.len() == 0
        ==> joined(path, lowercase(name), exe))
}

/// `d` reports the emulator that place `s` looks for, with no version, at
/// its candidate place `c` under the directories `bases`.
pub open spec fn reported_from(d: DetectedEmulator, s: (int, int, int), c: int, bases: Seq<Seq<char>>) -> bool {
    let t = emulator_pattern_table();
    &&& d.id@ == t[s.1].0
    &&& d.name@ == t[s.1].1
    &&& d.version is None
    &&& candidate_form(d.path@, bases[s.0], t[s.1].1, t[s.1].2[s.2], c)
}

/// `r` holds one report for each place in `slots`: exactly the places of
/// the search under `bases` where, by the answers `flags`, one of the three
/// candidate places exists, in the order of the search, each reported at
/// the first of its candidate places that exists.
pub open spec fn detections_at(
    r: Seq<DetectedEmulator>,
    bases: Seq<Seq<char>>,
    flags: Seq<bool>,
    slots: Seq<(int, int, int)>,
) -> bool {
    &&& slots.len() == r.len()
    &&& forall|i: int|
        0 <= i < slots.len() ==> valid_slot(#[trigger] slots[i], bases.len() as int) && first_found(flags, slots[i]) < 3
            && reported_from(r[i], slots[i], first_found(flags, slots[i]), bases)
    &&& forall|i: int, j: int| 0 <= i < j < slots.len() ==> slot_before(#[trigger] slots[i], #[trigger] slots[j])
    &&& forall|s: (int, int, int)|
        valid_slot(s, bases.len() as int) && #[trigger] first_found(flags, s) < 3 ==> slots.contains(s)
}

/// `r` is what the detection reports under `bases` for the answers `flags`.
pub open spec fn detections_of(r: Seq<DetectedEmulator>, bases: Seq<Seq<char>>, flags: Seq<bool>) -> bool {
    exists|slots: Seq<(int, int, int)>| detections_at(r, bases, flags, slots)
}

/// The three places looked at for an executable, as the detection builds
/// them.
fn candidate_paths(base: &str, name: &str, exe: &str) -> (c: Vec<String>)
    requires
        plain_component(name@),
        plain_component(exe@),
        name@.len() > 2,
        exe@.len() > 2,
    ensures
        c.len() == 3,
        forall|i: int| 0 <= i < 3 ==> candidate_form(#[trigger] c@[i]@, base@, name@, exe@, i),
{
    let lower = to_lowercase(name);
    proof {
        lemma_plain_lowercase(name@);
        lemma_plain_joinable(name@);
        lemma_plain_joinable(lower@);
        lemma_plain_simple(name@);
        lemma_plain_simple(lower@);
        lemma_plain_simple(exe@);
    }
    let by_name = path_join(base, name);
    let by_lower = path_join(base, lower.as_str());
    let mut candidates: Vec<String> = Vec::new();
    candidates.push(path_join(base, exe));
    candidates.push(path_join(by_name.as_str(), exe));
    candidates.push(path_join(by_lower.as_str(), exe));
    proof {
        if joinable_base(base@) {
            lemma_joined_joinable(by_name@, base@, name@);
            lemma_joined_joinable(by_lower@, base@, lower@);
            lemma_joined_twice(candidates@[1]@, by_name@, base@, name@, exe@);
            lemma_joined_twice(candidates@[2]@, by_lower@, base@, lower@, exe@);
        }
        assert(candidate_form(candidates@[0]@, base@, name@, exe@, 0));
        assert(candidate_form(candidates@[1]@, base@, name@, exe@, 1));
        assert(candidate_form(candidates@[2]@, base@, name@, exe@, 2));
    }
    candidates
}

/// The emulators reported under the directories `base_paths` when `found`
/// answers, for each place looked at in the order of the search, whether a
/// file exists there: for each directory, each emulator of the table and
/// each of its executable names, the executable is looked for directly in
/// the directory, then in a subdirectory named like the emulator, then in
/// one named like it in lowercase. Exactly the executables found at one of
/// these places are reported, each at the first of them where it is found,
/// in the order of the search; so one emulator may be reported more than
/// once.
pub fn detections_given(base_paths: &Vec<String>, found: &Vec<bool>) -> (r: Vec<DetectedEmulator>)
    requires
        found.len() == places_per_base() * base_paths.len(),
    ensures
        detections_of(r@, crate::text::views(base_paths@), found@),
{
    let patterns = emulator_patterns();
    let ghost t = emulator_pattern_table();
    let ghost bases = crate::text::views(base_paths@);
    let ghost flags = found@;
    let ghost n = base_paths.len() as int;
    let ghost mut slots: Seq<(int, int, int)> = Seq::empty();
    proof {
        lemma_exe_offsets(0);
    }
    let mut detected: Vec<DetectedEmulator> = Vec::new();
    let mut f: usize = 0;
    let mut b: usize = 0;
    while b < base_paths.len()
        invariant
            patterns@.map_values(|p: EmulatorPattern| pattern_view(p)) == t,
            t == emulator_pattern_table(),
            t.len() == 15,
            bases == crate::text::views(base_paths@),
            flags == found@,
            n == base_paths.len(),
            found.len() == 69 * n,
            b <= n,
            f == flag_index((b as int, 0, 0), 0),
            slots.len() == detected@.len(),
            forall|i: int|
                0 <= i < slots.len() ==> valid_slot(#[trigger] slots[i], n) && first_found(flags, slots[i]) < 3
                    && reported_from(detected@[i], slots[i], first_found(flags, slots[i]), bases),
            forall|i: int, j: int| 0 <= i < j < slots.len() ==> slot_before(#[trigger] slots[i], #[trigger] slots[j]),
            forall|i: int| 0 <= i < slots.len() ==> slot_before(#[trigger] slots[i], (b as int, 0, 0)),
            forall|s: (int, int, int)|
                valid_slot(s, n) && slot_before(s, (b as int, 0, 0)) && #[trigger] first_found(flags, s) < 3
                    ==> slots.contains(s),
        decreases base_paths.len() - b,
    {
        let base = base_paths[b].as_str();
        assert(base@ == bases[b as int]);
        let mut k: usize = 0;
        while k < patterns.len()
            invariant
                patterns@.map_values(|p: EmulatorPattern| pattern_view(p)) == t,
                t == emulator_pattern_table(),
                t.len() == 15,
                bases == crate::text::views(base_paths@),
                flags == found@,
                n == base_paths.len(),
                found.len() == 69 * n,
                b < n,
                base@ == bases[b as int],
                k <= t.len(),
                f == flag_index((b as int, k as int, 0), 0),
                slots.len() == detected@.len(),
                forall|i: int|
                    0 <= i < slots.len() ==> valid_slot(#[trigger] slots[i], n) && first_found(flags, slots[i]) < 3
                        && reported_from(detected@[i], slots[i], first_found(flags, slots[i]), bases),
                forall|i: int, j: int| 0 <= i < j < slots.len() ==> slot_before(#[trigger] slots[i], #[trigger] slots[j]),
                forall|i: int| 0 <= i < slots.len() ==> slot_before(#[trigger] slots[i], (b as int, k as int, 0)),
                forall|s: (int, int, int)|
                    valid_slot(s, n) && slot_before(s, (b as int, k as int, 0)) && #[trigger] first_found(flags, s) < 3
                        ==> slots.contains(s),
            decreases patterns.len() - k,
        {
            let p = &patterns[k];
            assert(pattern_view(*p) == t[k as int]);
            proof {
                lemma_pattern_plain(k as int);
                lemma_exe_offsets(k as int);
            }
            let mut e: usize = 0;
            while e < p.executables.len()
                invariant
                    pattern_view(*p) == t[k as int],
                    0 <= k < t.len(),
                    t == emulator_pattern_table(),
                    t.len() == 15,
                    exe_offsets()[k + 1] == exe_offsets()[k as int] + t[k as int].2.len(),
                    exe_offsets()[15] == 23,
                    plain_component(t[k as int].1),
                    t[k as int].1.len() > 2,
                    forall|x: int|
                        0 <= x < t[k as int].2.len() ==> plain_component(#[trigger] t[k as int].2[x]) && t[k as int].2[x].len()
                            > 2,
                    bases == crate::text::views(base_paths@),
                    flags == found@,
                    n == base_paths.len(),
                    found.len() == 69 * n,
                    b < n,
                    base@ == bases[b as int],
                    e <= p.executables.len(),
                    f == flag_index((b as int, k as int, e as int), 0),
                    slots.len() == detected@.len(),
                    forall|i: int|
                        0 <= i < slots.len() ==> valid_slot(#[trigger] slots[i], n) && first_found(flags, slots[i]) < 3
                            && reported_from(detected@[i], slots[i], first_found(flags, slots[i]), bases),
                    forall|i: int, j: int| 0 <= i < j < slots.len() ==> slot_before(#[trigger] slots[i], #[trigger] slots[j]),
                    forall|i: int| 0 <= i < slots.len() ==> slot_before(#[trigger] slots[i], (b as int, k as int, e as int)),
                    forall|s: (int, int, int)|
                        valid_slot(s, n) && slot_before(s, (b as int, k as int, e as int)) && #[trigger] first_found(
                            flags,
                            s,
                        ) < 3 ==> slots.contains(s),
                decreases p.executables.len() - e,
            {
                let exe = p.executables[e].as_str();
                assert(exe@ == t[k as int].2[e as int]);
                let ghost slot = (b as int, k as int, e as int);
                assert(exe_offsets()[k as int] + e < 23) by {
                    if k + 1 < 15 {
                        assert(exe_offsets()[k + 1] <= exe_offsets()[15]);
                    }
                }
                assert(f + 2 < found.len());
                let candidates = candidate_paths(base, p.name.as_str(), exe);
                let c: usize = if found[f] {
                    0
                } else if found[f + 1] {
                    1
                } else if found[f + 2] {
                    2
                } else {
                    3
                };
                assert(c == first_found(flags, slot));
                if c < 3 {
                    let d = DetectedEmulator {
                        id: copy_string(&p.id),
                        name: copy_string(&p.name),
                        path: copy_string(&candidates[c]),
                        version: None,
                    };
                    assert(candidate_form(candidates@[c as int]@, bases[b as int], t[k as int].1, t[k as int].2[e as int], c as int));
                    assert(reported_from(d, slot, c as int, bases));
                    let ghost old_slots = slots;
                    detected.push(d);
                    proof {
                        slots = slots.push(slot);
                        assert(slots[old_slots.len() as int] == slot);
                        assert forall|i: int| 0 <= i < old_slots.len() implies #[trigger] slots[i] == old_slots[i] by {}
                        assert forall|s: (int, int, int)|
                            valid_slot(s, n) && slot_before(s, (b as int, k as int, e + 1)) && #[trigger] first_found(
                                flags,
                                s,
                            ) < 3 implies slots.contains(s) by {
                            if s == slot {
                                assert(slots[old_slots.len() as int] == s);
                            } else {
                                assert(old_slots.contains(s));
                                let i = choose|i: int| 0 <= i < old_slots.len() && old_slots[i] == s;
                                assert(slots[i] == s);
                            }
                        }
                    }
                } else {
                    assert forall|s: (int, int, int)|
                        valid_slot(s, n) && slot_before(s, (b as int, k as int, e + 1)) && #[trigger] first_found(
                            flags,
                            s,
                        ) < 3 implies slots.contains(s) by {
                        assert(s != slot);
                    }
                }
                e = e + 1;
                f = f + 3;
            }
            assert forall|s: (int, int, int)|
                valid_slot(s, n) && slot_before(s, (b as int, k + 1, 0)) && #[trigger] first_found(flags, s) < 3
                    implies slots.contains(s) by {
                if s.0 == b && s.1 == k {
                    assert(slot_before(s, (b as int, k as int, e as int)));
                }
            }
            k = k + 1;
        }
        assert forall|s: (int, int, int)|
            valid_slot(s, n) && slot_before(s, (b + 1, 0, 0)) && #[trigger] first_found(flags, s) < 3 implies slots.contains(
            s,
        ) by {
            if s.0 == b {
                assert(slot_before(s, (b as int, 15, 0)));
            }
        }
        b = b + 1;
    }
    assert(detections_at(detected@, bases, flags, slots));
    detected
}

/// The emulators installed under the directories `base_paths`: for each
/// place looked at, in the order of the search, whether a file exists there
/// is asked of the disk, and [`detections_given`] reports on those answers.
/// Which files exist is up to the disk: the reports are those of some
/// answers, one for each place looked at.
pub fn detect_installed_emulators(base_paths: &Vec<String>) -> (r: Vec<DetectedEmulator>)
    ensures
        exists|flags: Seq<bool>|
            flags.len() == places_per_base() * base_paths.len() && detections_of(
                r@,
                crate::text::views(base_paths@),
                flags,
            ),
{
    let patterns = emulator_patterns();
    let ghost t = emulator_pattern_table();
    proof {
        lemma_exe_offsets(0);
    }
    let mut found: Vec<bool> = Vec::new();
    let mut b: usize = 0;
    while b < base_paths.len()
        invariant
            patterns@.map_values(|p: EmulatorPattern| pattern_view(p)) == t,
            t == emulator_pattern_table(),
            t.len() == 15,
            b <= base_paths.len(),
            found.len() == flag_index((b as int, 0, 0), 0),
        decreases base_paths.len() - b,
    {
        let base = base_paths[b].as_str();
        let mut k: usize = 0;
        while k < patterns.len()
            invariant
                patterns@.map_values(|p: EmulatorPattern| pattern_view(p)) == t,
                t == emulator_pattern_table(),
                t.len() == 15,
                b < base_paths.len(),
                k <= t.len(),
                found.len() == flag_index((b as int, k as int, 0), 0),
            decreases patterns.len() - k,
        {
            let p = &patterns[k];
            assert(pattern_view(*p) == t[k as int]);
            proof {
                lemma_pattern_plain(k as int);
                lemma_exe_offsets(k as int);
            }
            let mut e: usize = 0;
            while e < p.executables.len()
                invariant
                    pattern_view(*p) == t[k as int],
                    0 <= k < t.len(),
                    t == emulator_pattern_table(),
                    plain_component(t[k as int].1),
                    t[k as int].1.len() > 2,
                    forall|x: int|
                        0 <= x < t[k as int].2.len() ==> plain_component(#[trigger] t[k as int].2[x]) && t[k as int].2[x].len()
                            > 2,
                    e <= p.executables.len(),
                    found.len() == flag_index((b as int, k as int, e as int), 0),
                decreases p.executables.len() - e,
            {
                let exe = p.executables[e].as_str();
                assert(exe@ == t[k as int].2[e as int]);
                let candidates = candidate_paths(base, p.name.as_str(), exe);
                found.push(path_exists(candidates[0].as_str()));
                found.push(path_exists(candidates[1].as_str()));
                found.push(path_exists(candidates[2].as_str()));
                e = e + 1;
            }
            k = k + 1;
        }
        b = b + 1;
    }
    detections_given(base_paths, &found)
}

/// A file of the cores directory that holds a core: its extension is
/// `dll`. By the documented rule of `Path::extension` (the part after the
/// final `.`, none when the only `.` starts the name), that is a name ending
/// in `.dll` with something before the dot.
pub open spec fn is_core_file(f: Seq<char>) -> bool {
    f.len() > 4 && ends_with(f, ".dll"@)
}

/// The name of the core in the file `f`: its `Path::file_stem`, the part
/// before the final `.`.
pub open spec fn core_file_stem(f: Seq<char>) -> Seq<char> {
    f.subrange(0, f.len() - 4)
}

/// The names among `names` that hold a core, in their order.
pub open spec fn core_files(names: Seq<Seq<char>>) -> Seq<Seq<char>>
    decreases names.len(),
{
    if names.len() == 0 {
        seq![]
    } else if is_core_file(names.last()) {
        core_files(names.drop_last()).push(names.last())
    } else {
        core_files(names.drop_last())
    }
}

/// Whether the file named `f` holds a core, and if so the core's name.
fn core_file_name(f: &str) -> (r: Option<String>)
    ensures
        r is Some <==> is_core_file(f@),
        r matches Some(n) ==> n@ == core_file_stem(f@),
{
    proof {
        reveal_strlit(".dll");
    }
    let v = crate::text::chars_of(f);
    let n = v.len();
    if n <= 4 || v[n - 4] != '.' || v[n - 3] != 'd' || v[n - 2] != 'l' || v[n - 1] != 'l' {
        proof {
            if is_core_file(f@) {
                assert(f@.subrange(n - 4, n as int)[0] == f@[n - 4]);
                assert(f@.subrange(n - 4, n as int)[1] == f@[n - 3]);
                assert(f@.subrange(n - 4, n as int)[2] == f@[n - 2]);
                assert(f@.subrange(n - 4, n as int)[3] == f@[n - 1]);
            }
        }
        return None;
    }
    assert(f@.subrange(n - 4, n as int) =~= ".dll"@);
    let mut stem = String::new();
    let mut i: usize = 0;
    while i < n - 4
        invariant
            n == v@.len(),
            v@ == f@,
            n > 4,
            i <= n - 4,
            stem@ == v@.take(i as int),
        decreases n - 4 - i,
    {
        crate::text::push_char(&mut stem, v[i]);
        i = i + 1;
        assert(stem@ =~= v@.take(i as int));
    }
    assert(stem@ =~= core_file_stem(f@));
    Some(stem)
}

/// The RetroArch cores among the files `file_names` of the cores directory
/// of the RetroArch executable at `retroarch_path`: one for each `.dll`
/// file, in the order of the listing, named by the file's stem, at its
/// [`crate::cores::core_path`].
pub fn find_retroarch_cores(retroarch_path: &str, file_names: &Vec<String>) -> (r: Vec<RetroArchCore>)
    ensures
        r.len() == core_files(crate::text::views(file_names@)).len(),
        forall|i: int|
            0 <= i < r.len() ==> {
                let f = #[trigger] core_files(crate::text::views(file_names@))[i];
                &&& r@[i].name@ == core_file_stem(f)
                &&& simple_name(f) ==> ends_with(r@[i].path@, f)
                &&& simple_name(f) && crate::cores::no_directory_part(retroarch_path@) ==> joined(
                    r@[i].path@,
                    "cores"@,
                    f,
                )
                &&& simple_name(f) ==> crate::cores::core_path_of_split(retroarch_path@, f, r@[i].path@)
            },
{
    let ghost names = crate::text::views(file_names@);
    let mut cores: Vec<RetroArchCore> = Vec::new();
    let mut k: usize = 0;
    while k < file_names.len()
        invariant
            names == crate::text::views(file_names@),
            k <= file_names.len(),
            cores.len() == core_files(names.take(k as int)).len(),
            forall|i: int|
                0 <= i < cores.len() ==> {
                    let f = #[trigger] core_files(names.take(k as int))[i];
                    &&& cores@[i].name@ == core_file_stem(f)
                    &&& simple_name(f) ==> ends_with(cores@[i].path@, f)
                    &&& simple_name(f) && crate::cores::no_directory_part(retroarch_path@) ==> joined(
                        cores@[i].path@,
                        "cores"@,
                        f,
                    )
                    &&& simple_name(f) ==> crate::cores::core_path_of_split(retroarch_path@, f, cores@[i].path@)
                },
        decreases file_names.len() - k,
    {
        let f = file_names[k].as_str();
        let ghost before = core_files(names.take(k as int));
        assert(names.take(k + 1).drop_last() =~= names.take(k as int));
        assert(names.take(k + 1).last() == f@);
        match core_file_name(f) {
            Some(name) => {
                let path = crate::cores::core_path(retroarch_path, f);
                let ghost old_cores = cores@;
                cores.push(RetroArchCore { name, path });
                assert(core_files(names.take(k + 1)) == before.push(f@));
                assert forall|i: int| 0 <= i < cores.len() implies {
                    let g = #[trigger] core_files(names.take(k + 1))[i];
                    &&& cores@[i].name@ == core_file_stem(g)
                    &&& simple_name(g) ==> ends_with(cores@[i].path@, g)
                    &&& simple_name(g) && crate::cores::no_directory_part(retroarch_path@) ==> joined(
                        cores@[i].path@,
                        "cores"@,
                        g,
                    )
                    &&& simple_name(g) ==> crate::cores::core_path_of_split(retroarch_path@, g, cores@[i].path@)
                } by {
                    if i < old_cores.len() {
                        assert(cores@[i] == old_cores[i]);
                        assert(core_files(names.take(k + 1))[i] == before[i]);
                    }
                }
            },
            None => {
                assert(core_files(names.take(k + 1)) == before);
            },
        }
        k = k + 1;
    }
    assert(names.take(file_names.len() as int) =~= names);
    cores
}

/// How one directory of the search is made from a value of the
/// environment.
pub enum PathStep {
    /// The value itself.
    Base(Seq<char>),
    /// The value with one component appended.
    Join(Seq<char>, Seq<char>),
    /// The value with two components appended, one after the other.
    JoinTwice(Seq<char>, Seq<char>, Seq<char>),
}

/// `r` is the directory that step `s` makes. An appended plain component
/// ends it in any case; appended to the empty path it is the whole of it;
/// appended to a joinable directory it follows one separator.
pub open spec fn builds(r: Seq<char>, s: PathStep) -> bool {
    match s {
        PathStep::Base(b) => r == b,
        PathStep::Join(b, p) => {
            &&& ends_with(r, p)
            &&& b.len() == 0 ==> r == p
            &&& joinable_base(b) ==> joined(r, b, p)
        },
        PathStep::JoinTwice(b, p, q) => {
            &&& ends_with(r, q)
            &&& b.len() == 0 ==> joined(r, p, q)
            &&& joinable_base(b) ==> joined_twice(r, b, p, q)
        },
    }
}

/// `r` holds, in order, the directories that the steps of `plan` make.
pub open spec fn builds_all(r: Seq<Seq<char>>, plan: Seq<PathStep>) -> bool {
    &&& r.len() == plan.len()
    &&& forall|i: int| 0 <= i < r.len() ==> builds(#[trigger] r[i], plan[i])
}

/// The directories searched for the values of `ProgramFiles`,
/// `ProgramFiles(x86)`, `LOCALAPPDATA`, `APPDATA` and `USERPROFILE`, those
/// that are set, in that order.
pub open spec fn env_install_plan(
    program_files: Option<Seq<char>>,
    program_files_x86: Option<Seq<char>>,
    local_app_data: Option<Seq<char>>,
    app_data: Option<Seq<char>>,
    user_profile: Option<Seq<char>>,
) -> Seq<PathStep> {
    (match program_files {
        Some(p) => seq![PathStep::Base(p), PathStep::Join(p, "Emulators"@)],
        None => Seq::empty(),
    }) + (match program_files_x86 {
        Some(p) => seq![PathStep::Base(p)],
        None => Seq::empty(),
    }) + (match local_app_data {
        Some(p) => seq![PathStep::Base(p), PathStep::Join(p, "Programs"@)],
        None => Seq::empty(),
    }) + (match app_data {
        Some(p) => seq![PathStep::Base(p)],
        None => Seq::empty(),
    }) + (match user_profile {
        Some(p) => seq![
            PathStep::Join(p, "Emulators"@),
            PathStep::JoinTwice(p, "Games"@, "Emulators"@),
            PathStep::Join(p, "Downloads"@),
        ],
        None => Seq::empty(),
    })
}

/// The drives looked at, in order.
pub open spec fn drive_roots() -> Seq<Seq<char>> {
    seq!["C:"@, "D:"@, "E:"@, "F:"@]
}

/// The directories searched on the first `found.len()` drives, where
/// `found[i]` says whether the drive exists.
pub open spec fn drives_plan(found: Seq<bool>) -> Seq<PathStep>
    decreases found.len(),
{
    if found.len() == 0 {
        Seq::empty()
    } else {
        let d = drive_roots()[found.len() - 1];
        drives_plan(found.drop_last()) + if found.last() {
            seq![PathStep::Join(d, "Emulators"@), PathStep::JoinTwice(d, "Games"@, "Emulators"@)]
        } else {
            Seq::empty()
        }
    }
}

proof fn lemma_builds_push(r: Seq<Seq<char>>, plan: Seq<PathStep>, x: Seq<char>, s: PathStep)
    requires
        builds_all(r, plan),
        builds(x, s),
    ensures
        builds_all(r.push(x), plan.push(s)),
{
    assert forall|i: int| 0 <= i < r.len() + 1 implies builds(#[trigger] r.push(x)[i], plan.push(s)[i]) by {
        if i < r.len() {
            assert(r.push(x)[i] == r[i]);
        }
    }
}

/// `base` with the plain component `part` appended.
fn join_step(base: &str, part: &str) -> (r: String)
    requires
        plain_component(part@),
        part@.len() > 2,
    ensures
        builds(r@, PathStep::Join(base@, part@)),
{
    proof {
        lemma_plain_simple(part@);
    }
    path_join(base, part)
}

/// `base` with the plain components `first` and `second` appended.
fn join_twice_step(base: &str, first: &str, second: &str) -> (r: String)
    requires
        plain_component(first@),
        plain_component(second@),
        first@.len() > 2,
        second@.len() > 2,
    ensures
        builds(r@, PathStep::JoinTwice(base@, first@, second@)),
{
    proof {
        lemma_plain_simple(first@);
        lemma_plain_simple(second@);
    }
    let d = path_join(base, first);
    let r = path_join(d.as_str(), second);
    proof {
        lemma_plain_joinable(first@);
        if joinable_base(base@) {
            lemma_joined_joinable(d@, base@, first@);
            lemma_joined_twice(r@, d@, base@, first@, second@);
        }
    }
    r
}

/// Appends the directory `p`, which step `s` makes, to `paths`, whose
/// directories the steps of `plan` make.
fn push_path(paths: &mut Vec<String>, p: String, Ghost(plan): Ghost<Seq<PathStep>>, Ghost(s): Ghost<PathStep>)
    requires
        builds_all(crate::text::views(old(paths)@), plan),
        builds(p@, s),
    ensures
        builds_all(crate::text::views(final(paths)@), plan.push(s)),
{
    let ghost before = paths@;
    paths.push(p);
    proof {
        assert(crate::text::views(paths@) =~= crate::text::views(before).push(p@));
        lemma_builds_push(crate::text::views(before), plan, p@, s);
    }
}

/// The directories where emulators are usually installed, from the values
/// of `ProgramFiles`, `ProgramFiles(x86)`, `LOCALAPPDATA`, `APPDATA` and
/// `USERPROFILE` (`None` where unset), then `Emulators` and
/// `Games/Emulators` on each of the drives `C:` to `F:` that exists. Which
/// drives exist is up to the machine.
pub fn get_common_install_paths(
    program_files: &Option<String>,
    program_files_x86: &Option<String>,
    local_app_data: &Option<String>,
    app_data: &Option<String>,
    user_profile: &Option<String>,
) -> (r: Vec<String>)
    ensures
        exists|found: Seq<bool>|
            found.len() == 4 && builds_all(
                crate::text::views(r@),
                env_install_plan(
                    crate::text::opt_view(*program_files),
                    crate::text::opt_view(*program_files_x86),
                    crate::text::opt_view(*local_app_data),
                    crate::text::opt_view(*app_data),
                    crate::text::opt_view(*user_profile),
                ) + drives_plan(found),
            ),
{
    proof {
        reveal_strlit("Emulators");
        reveal_strlit("Programs");
        reveal_strlit("Games");
        reveal_strlit("Downloads");
    }
    assert(plain_component("Emulators"@));
    assert(plain_component("Programs"@));
    assert(plain_component("Games"@));
    assert(plain_component("Downloads"@));
    let mut paths: Vec<String> = Vec::new();
    let ghost mut plan: Seq<PathStep> = Seq::empty();
    assert(crate::text::views(paths@) =~= Seq::<Seq<char>>::empty());
    match program_files {
        Some(p) => {
            push_path(&mut paths, copy_string(p), Ghost(plan), Ghost(PathStep::Base(p@)));
            proof {
                plan = plan.push(PathStep::Base(p@));
            }
            push_path(&mut paths, join_step(p.as_str(), "Emulators"), Ghost(plan), Ghost(PathStep::Join(p@, "Emulators"@)));
            proof {
                plan = plan.push(PathStep::Join(p@, "Emulators"@));
            }
        },
        None => {},
    }
    match program_files_x86 {
        Some(p) => {
            push_path(&mut paths, copy_string(p), Ghost(plan), Ghost(PathStep::Base(p@)));
            proof {
                plan = plan.push(PathStep::Base(p@));
            }
        },
        None => {},
    }
    match local_app_data {
        Some(p) => {
            push_path(&mut paths, copy_string(p), Ghost(plan), Ghost(PathStep::Base(p@)));
            proof {
                plan = plan.push(PathStep::Base(p@));
            }
            push_path(&mut paths, join_step(p.as_str(), "Programs"), Ghost(plan), Ghost(PathStep::Join(p@, "Programs"@)));
            proof {
                plan = plan.push(PathStep::Join(p@, "Programs"@));
            }
        },
        None => {},
    }
    match app_data {
        Some(p) => {
            push_path(&mut paths, copy_string(p), Ghost(plan), Ghost(PathStep::Base(p@)));
            proof {
                plan = plan.push(PathStep::Base(p@));
            }
        },
        None => {},
    }
    match user_profile {
        Some(p) => {
            push_path(&mut paths, join_step(p.as_str(), "Emulators"), Ghost(plan), Ghost(PathStep::Join(p@, "Emulators"@)));
            proof {
                plan = plan.push(PathStep::Join(p@, "Emulators"@));
            }
            push_path(
                &mut paths,
                join_twice_step(p.as_str(), "Games", "Emulators"),
                Ghost(plan), Ghost(PathStep::JoinTwice(p@, "Games"@, "Emulators"@)));
            proof {
                plan = plan.push(PathStep::JoinTwice(p@, "Games"@, "Emulators"@));
            }
            push_path(&mut paths, join_step(p.as_str(), "Downloads"), Ghost(plan), Ghost(PathStep::Join(p@, "Downloads"@)));
            proof {
                plan = plan.push(PathStep::Join(p@, "Downloads"@));
            }
        },
        None => {},
    }
    let ghost env_plan = env_install_plan(
        crate::text::opt_view(*program_files),
        crate::text::opt_view(*program_files_x86),
        crate::text::opt_view(*local_app_data),
        crate::text::opt_view(*app_data),
        crate::text::opt_view(*user_profile),
    );
    assert(plan =~= env_plan);
    let drives = crate::text::strs4("C:", "D:", "E:", "F:");
    assert(drives@.len() == crate::text::str_views(drives@).len());
    let ghost mut found: Seq<bool> = Seq::empty();
    assert(env_plan + drives_plan(found) =~= env_plan);
    let mut i: usize = 0;
    while i < 4
        invariant
            crate::text::str_views(drives@) == drive_roots(),
            drives.len() == 4,
            i <= 4,
            found.len() == i,
            plan == env_plan + drives_plan(found),
            builds_all(crate::text::views(paths@), plan),
            plain_component("Emulators"@),
            plain_component("Games"@),
            "Emulators"@.len() > 2,
            "Games"@.len() > 2,
        decreases 4 - i,
    {
        let d = drives[i];
        assert(d@ == drive_roots()[i as int]);
        let exists = path_exists(d);
        if exists {
            push_path(&mut paths, join_step(d, "Emulators"), Ghost(plan), Ghost(PathStep::Join(d@, "Emulators"@)));
            proof {
                plan = plan.push(PathStep::Join(d@, "Emulators"@));
            }
            push_path(
                &mut paths,
                join_twice_step(d, "Games", "Emulators"),
                Ghost(plan), Ghost(PathStep::JoinTwice(d@, "Games"@, "Emulators"@)));
            proof {
                plan = plan.push(PathStep::JoinTwice(d@, "Games"@, "Emulators"@));
            }
        }
        proof {
            let old_found = found;
            found = found.push(exists);
            assert(found.drop_last() =~= old_found);
            assert(plan =~= env_plan + drives_plan(found));
        }
        i = i + 1;
    }
    paths
}

} // verus!
