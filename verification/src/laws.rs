//! Properties of the library that span its tables and functions.

use vstd::prelude::*;

use crate::commands::{applied_count, applied_path, game_sort_named, missing_cores_of, GameSort};
use crate::config::{emulator_path_of, EmulatorPaths};
use crate::github::first_set;
use crate::launcher::{first_with_id, first_usable, offered_upto, resolved_emulator, supports_platform};
use crate::models::emulator::{default_emulator_table, launch_args_for, retroarch_core_of, retroarch_core_table, rom_placeholder, EmulatorView};
use crate::models::platform::{default_platform_table, first_platform_with, PlatformView};
use crate::text::{occurs_at, replaced};
use crate::sync::{after_page, RemoteRomView};
use crate::detection::{detections_at, detections_of, first_found, reported_from, valid_slot};
use crate::launcher::offered;
use crate::ui::{can_toggle_favorite, effect_of, first_game, first_game_index, next_state, AppStateView, Effect, Message};

verus! {

/// A short key of each built-in emulator's id: its length and first two
/// characters.
spec fn emulator_id_keys() -> Seq<(int, char, char)> {
    seq![
        (9, 'r', 'e'),
        (7, 'd', 'o'),
        (5, 'p', 'c'),
        (5, 'r', 'p'),
        (6, 'p', 'p'),
        (11, 'd', 'u'),
        (4, 'c', 'e'),
        (4, 'y', 'u'),
        (7, 'r', 'y'),
        (5, 'c', 'i'),
        (7, 'm', 'e'),
        (4, 'm', 'g'),
        (7, 'f', 'l'),
        (4, 'x', 'e'),
        (5, 'x', 'e'),
        (4, 'm', 'a'),
    ]
}

proof fn lemma_emulator_id_key(k: int)
    requires
        0 <= k < 16,
    ensures
        default_emulator_table()[k].id.len() == emulator_id_keys()[k].0,
        default_emulator_table()[k].id[0] == emulator_id_keys()[k].1,
        default_emulator_table()[k].id[1] == emulator_id_keys()[k].2,
{
    if k == 0 {
        reveal_strlit("retroarch");
    } else if k == 1 {
        reveal_strlit("dolphin");
    } else if k == 2 {
        reveal_strlit("pcsx2");
    } else if k == 3 {
        reveal_strlit("rpcs3");
    } else if k == 4 {
        reveal_strlit("ppsspp");
    } else if k == 5 {
        reveal_strlit("duckstation");
    } else if k == 6 {
        reveal_strlit("cemu");
    } else if k == 7 {
        reveal_strlit("yuzu");
    } else if k == 8 {
        reveal_strlit("ryujinx");
    } else if k == 9 {
        reveal_strlit("citra");
    } else if k == 10 {
        reveal_strlit("melonds");
    } else if k == 11 {
        reveal_strlit("mgba");
    } else if k == 12 {
        reveal_strlit("flycast");
    } else if k == 13 {
        reveal_strlit("xemu");
    } else if k == 14 {
        reveal_strlit("xenia");
    } else if k == 15 {
        reveal_strlit("mame");
    }
}

/// The built-in emulators have pairwise different ids.
pub proof fn law_default_emulator_ids_distinct()
    ensures
        forall|i: int, j: int|
            0 <= i < j < default_emulator_table().len() ==> #[trigger] default_emulator_table()[i].id
                != #[trigger] default_emulator_table()[j].id,
{
    let t = default_emulator_table();
    let keys = emulator_id_keys();
    assert(forall|i: int, j: int| 0 <= i < j < 16 ==> #[trigger] keys[i] != #[trigger] keys[j]);
    assert forall|i: int, j: int| 0 <= i < j < t.len() implies #[trigger] t[i].id != #[trigger] t[j].id by {
        lemma_emulator_id_key(i);
        lemma_emulator_id_key(j);
    }
}

/// A short key of each built-in platform's id: its length, first two and
/// last characters.
spec fn platform_id_keys() -> Seq<(int, char, char, char)> {
    seq![
        (3, 'n', 'e', 's'),
        (4, 's', 'n', 's'),
        (3, 'n', '6', '4'),
        (2, 'g', 'c', 'c'),
        (3, 'w', 'i', 'i'),
        (4, 'w', 'i', 'u'),
        (6, 's', 'w', 'h'),
        (2, 'g', 'b', 'b'),
        (3, 'g', 'b', 'c'),
        (3, 'g', 'b', 'a'),
        (3, 'n', 'd', 's'),
        (3, '3', 'd', 's'),
        (3, 'p', 's', 'x'),
        (3, 'p', 's', '2'),
        (3, 'p', 's', '3'),
        (3, 'p', 's', 'p'),
        (6, 'p', 's', 'a'),
        (7, 'g', 'e', 's'),
        (6, 's', 'a', 'n'),
        (9, 'd', 'r', 't'),
        (4, 'x', 'b', 'x'),
        (7, 'x', 'b', '0'),
        (6, 'a', 'r', 'e'),
        (2, 'p', 'c', 'c'),
    ]
}

proof fn lemma_platform_id_key(k: int)
    requires
        0 <= k < 24,
    ensures
        default_platform_table()[k].id.len() == platform_id_keys()[k].0,
        default_platform_table()[k].id[0] == platform_id_keys()[k].1,
        default_platform_table()[k].id[1] == platform_id_keys()[k].2,
        default_platform_table()[k].id[default_platform_table()[k].id.len() - 1] == platform_id_keys()[k].3,
{
    if k == 0 {
        reveal_strlit("nes");
    } else if k == 1 {
        reveal_strlit("snes");
    } else if k == 2 {
        reveal_strlit("n64");
    } else if k == 3 {
        reveal_strlit("gc");
    } else if k == 4 {
        reveal_strlit("wii");
    } else if k == 5 {
        reveal_strlit("wiiu");
    } else if k == 6 {
        reveal_strlit("switch");
    } else if k == 7 {
        reveal_strlit("gb");
    } else if k == 8 {
        reveal_strlit("gbc");
    } else if k == 9 {
        reveal_strlit("gba");
    } else if k == 10 {
        reveal_strlit("nds");
    } else if k == 11 {
        reveal_strlit("3ds");
    } else if k == 12 {
        reveal_strlit("psx");
    } else if k == 13 {
        reveal_strlit("ps2");
    } else if k == 14 {
        reveal_strlit("ps3");
    } else if k == 15 {
        reveal_strlit("psp");
    } else if k == 16 {
        reveal_strlit("psvita");
    } else if k == 17 {
        reveal_strlit("genesis");
    } else if k == 18 {
        reveal_strlit("saturn");
    } else if k == 19 {
        reveal_strlit("dreamcast");
    } else if k == 20 {
        reveal_strlit("xbox");
    } else if k == 21 {
        reveal_strlit("xbox360");
    } else if k == 22 {
        reveal_strlit("arcade");
    } else if k == 23 {
        reveal_strlit("pc");
    }
}

/// The built-in platforms have pairwise different ids.
pub proof fn law_default_platform_ids_distinct()
    ensures
        forall|i: int, j: int|
            0 <= i < j < default_platform_table().len() ==> #[trigger] default_platform_table()[i].id
                != #[trigger] default_platform_table()[j].id,
{
    let t = default_platform_table();
    let keys = platform_id_keys();
    assert(forall|i: int, j: int| 0 <= i < j < 24 ==> #[trigger] keys[i] != #[trigger] keys[j]);
    assert forall|i: int, j: int| 0 <= i < j < t.len() implies #[trigger] t[i].id != #[trigger] t[j].id by {
        lemma_platform_id_key(i);
        lemma_platform_id_key(j);
    }
}

/// Whether `id` is the id of a built-in platform.
pub open spec fn is_builtin_platform(id: Seq<char>) -> bool {
    exists|i: int| 0 <= i < default_platform_table().len() && #[trigger] default_platform_table()[i].id == id
}

/// Every platform the RetroArch core table has a core for is a built-in
/// platform.
pub proof fn law_core_platforms_are_builtin()
    ensures
        forall|k: int|
            0 <= k < retroarch_core_table().len() ==> is_builtin_platform(#[trigger] retroarch_core_table()[k].0),
{
    assert forall|k: int| 0 <= k < retroarch_core_table().len() implies is_builtin_platform(
        #[trigger] retroarch_core_table()[k].0,
    ) by {
        if k == 0 {
                assert(default_platform_table()[0].id == retroarch_core_table()[0].0);
            } else if k == 1 {
                assert(default_platform_table()[1].id == retroarch_core_table()[1].0);
            } else if k == 2 {
                assert(default_platform_table()[2].id == retroarch_core_table()[2].0);
            } else if k == 3 {
                assert(default_platform_table()[7].id == retroarch_core_table()[3].0);
            } else if k == 4 {
                assert(default_platform_table()[8].id == retroarch_core_table()[4].0);
            } else if k == 5 {
                assert(default_platform_table()[9].id == retroarch_core_table()[5].0);
            } else if k == 6 {
                assert(default_platform_table()[10].id == retroarch_core_table()[6].0);
            } else if k == 7 {
                assert(default_platform_table()[17].id == retroarch_core_table()[7].0);
            } else if k == 8 {
                assert(default_platform_table()[12].id == retroarch_core_table()[8].0);
            } else if k == 9 {
                assert(default_platform_table()[19].id == retroarch_core_table()[9].0);
            } else if k == 10 {
                assert(default_platform_table()[15].id == retroarch_core_table()[10].0);
            } else if k == 11 {
                assert(default_platform_table()[22].id == retroarch_core_table()[11].0);
        }
    }
}

/// Every platform a built-in emulator names, other than the wildcard `*`,
/// is a built-in platform.
pub proof fn law_emulator_platforms_are_builtin()
    ensures
        forall|k: int, m: int|
            0 <= k < default_emulator_table().len() && 0 <= m < default_emulator_table()[k].supported_platforms.len()
                && #[trigger] default_emulator_table()[k].supported_platforms[m] != "*"@ ==> is_builtin_platform(
                default_emulator_table()[k].supported_platforms[m],
            ),
{
    assert forall|k: int, m: int|
        0 <= k < default_emulator_table().len() && 0 <= m < default_emulator_table()[k].supported_platforms.len()
            && #[trigger] default_emulator_table()[k].supported_platforms[m] != "*"@ implies is_builtin_platform(
            default_emulator_table()[k].supported_platforms[m],
        ) by {
        if k == 0 {
                reveal_strlit("*");
            } else if k == 1 {
                if m == 0 {
                    assert(default_platform_table()[3].id == default_emulator_table()[1].supported_platforms[0]);
                } else if m == 1 {
                    assert(default_platform_table()[4].id == default_emulator_table()[1].supported_platforms[1]);
                }
            } else if k == 2 {
                if m == 0 {
                    assert(default_platform_table()[13].id == default_emulator_table()[2].supported_platforms[0]);
                }
            } else if k == 3 {
                if m == 0 {
                    assert(default_platform_table()[14].id == default_emulator_table()[3].supported_platforms[0]);
                }
            } else if k == 4 {
                if m == 0 {
                    assert(default_platform_table()[15].id == default_emulator_table()[4].supported_platforms[0]);
                }
            } else if k == 5 {
                if m == 0 {
                    assert(default_platform_table()[12].id == default_emulator_table()[5].supported_platforms[0]);
                }
            } else if k == 6 {
                if m == 0 {
                    assert(default_platform_table()[5].id == default_emulator_table()[6].supported_platforms[0]);
                }
            } else if k == 7 {
                if m == 0 {
                    assert(default_platform_table()[6].id == default_emulator_table()[7].supported_platforms[0]);
                }
            } else if k == 8 {
                if m == 0 {
                    assert(default_platform_table()[6].id == default_emulator_table()[8].supported_platforms[0]);
                }
            } else if k == 9 {
                if m == 0 {
                    assert(default_platform_table()[11].id == default_emulator_table()[9].supported_platforms[0]);
                }
            } else if k == 10 {
                if m == 0 {
                    assert(default_platform_table()[10].id == default_emulator_table()[10].supported_platforms[0]);
                }
            } else if k == 11 {
                if m == 0 {
                    assert(default_platform_table()[7].id == default_emulator_table()[11].supported_platforms[0]);
                } else if m == 1 {
                    assert(default_platform_table()[8].id == default_emulator_table()[11].supported_platforms[1]);
                } else if m == 2 {
                    assert(default_platform_table()[9].id == default_emulator_table()[11].supported_platforms[2]);
                }
            } else if k == 12 {
                if m == 0 {
                    assert(default_platform_table()[19].id == default_emulator_table()[12].supported_platforms[0]);
                }
            } else if k == 13 {
                if m == 0 {
                    assert(default_platform_table()[20].id == default_emulator_table()[13].supported_platforms[0]);
                }
            } else if k == 14 {
                if m == 0 {
                    assert(default_platform_table()[21].id == default_emulator_table()[14].supported_platforms[0]);
                }
            } else if k == 15 {
                if m == 0 {
                    assert(default_platform_table()[22].id == default_emulator_table()[15].supported_platforms[0]);
                }
        }
    }
}

/// The platform found for an extension is the first one of the table that
/// lists the extension; none is found exactly when no platform lists it.
pub proof fn law_platform_for_extension(t: Seq<PlatformView>, ext: Seq<char>)
    ensures
        first_platform_with(t, ext) is None <==> forall|i: int| 0 <= i < t.len() ==> !(#[trigger] t[i].extensions.contains(ext)),
        first_platform_with(t, ext) matches Some(id) ==> exists|i: int|
            0 <= i < t.len() && #[trigger] t[i].id == id && t[i].extensions.contains(ext)
                && forall|j: int| 0 <= j < i ==> !(#[trigger] t[j].extensions.contains(ext)),
    decreases t.len(),
{
    if t.len() > 0 {
        let rest = t.drop_first();
        law_platform_for_extension(rest, ext);
        if t[0].extensions.contains(ext) {
            assert(t[0].id == first_platform_with(t, ext).unwrap());
        } else {
            assert forall|i: int| 0 < i < t.len() implies #[trigger] t[i] == rest[i - 1] by {}
            if first_platform_with(t, ext) is None {
                assert forall|i: int| 0 <= i < t.len() implies !(#[trigger] t[i].extensions.contains(ext)) by {
                    if i > 0 {
                        assert(t[i] == rest[i - 1]);
                    }
                }
            } else {
                let id = first_platform_with(t, ext).unwrap();
                let i = choose|i: int|
                    0 <= i < rest.len() && #[trigger] rest[i].id == id && rest[i].extensions.contains(ext)
                        && forall|j: int| 0 <= j < i ==> !(#[trigger] rest[j].extensions.contains(ext));
                assert(t[i + 1] == rest[i]);
                assert forall|j: int| 0 <= j < i + 1 implies !(#[trigger] t[j].extensions.contains(ext)) by {
                    if j > 0 {
                        assert(t[j] == rest[j - 1]);
                    }
                }
            }
            if exists|i: int| 0 <= i < t.len() && #[trigger] t[i].extensions.contains(ext) {
                let i = choose|i: int| 0 <= i < t.len() && #[trigger] t[i].extensions.contains(ext);
                assert(rest[i - 1] == t[i]);
            }
        }
    }
}

/// The first usable emulator found from `i` on runs the platform and has a
/// configured path, and none before it from `i` on does.
pub proof fn lemma_first_usable(t: Seq<EmulatorView>, paths: EmulatorPaths, platform: Seq<char>, i: int)
    requires
        0 <= i <= t.len(),
    ensures
        i <= first_usable(t, paths, platform, i) <= t.len(),
        first_usable(t, paths, platform, i) < t.len() ==> {
            let u = first_usable(t, paths, platform, i);
            supports_platform(t[u], platform) && emulator_path_of(paths, t[u].id) is Some
        },
        forall|j: int|
            i <= j < first_usable(t, paths, platform, i) ==> !(supports_platform(#[trigger] t[j], platform)
                && emulator_path_of(paths, t[j].id) is Some),
    decreases t.len() - i,
{
    if i < t.len() {
        lemma_first_usable(t, paths, platform, i + 1);
    }
}

/// Without a stored choice, the emulator picked for a platform runs that
/// platform and has an executable path.
pub proof fn law_resolved_emulator_runs_platform(paths: EmulatorPaths, platform: Seq<char>)
    ensures
        resolved_emulator(paths, platform, None) matches Some(e) ==> supports_platform(e, platform)
            && e.executable_path is Some,
{
    let t = default_emulator_table();
    lemma_first_usable(t, paths, platform, 0);
    let u = first_usable(t, paths, platform, 0);
    if u < t.len() {
        assert(supports_platform(t[u], platform));
    }
}

/// The first index from `i` on with the id `id` has that id, and none
/// before it from `i` on does.
pub proof fn lemma_first_with_id(t: Seq<EmulatorView>, id: Seq<char>, i: int)
    requires
        0 <= i <= t.len(),
    ensures
        i <= first_with_id(t, id, i) <= t.len(),
        first_with_id(t, id, i) < t.len() ==> t[first_with_id(t, id, i)].id == id,
        forall|j: int| i <= j < first_with_id(t, id, i) ==> #[trigger] t[j].id != id,
    decreases t.len() - i,
{
    if i < t.len() {
        lemma_first_with_id(t, id, i + 1);
    }
}

/// A stored choice of a built-in emulator always wins: that emulator's
/// table entry is picked as it stands (its name, platforms, launch
/// arguments, ROM argument and RetroArch flag), with only its path set to
/// the configured one (or none) and its core to the stored one.
pub proof fn law_stored_choice_wins(
    paths: EmulatorPaths,
    platform: Seq<char>,
    emulator_id: Seq<char>,
    core: Option<Seq<char>>,
    k: int,
)
    requires
        0 <= k < default_emulator_table().len(),
        default_emulator_table()[k].id == emulator_id,
    ensures
        resolved_emulator(paths, platform, Some((emulator_id, core))) == Some(
            EmulatorView {
                executable_path: emulator_path_of(paths, emulator_id),
                core_name: core,
                ..default_emulator_table()[k]
            },
        ),
{
    let t = default_emulator_table();
    lemma_first_with_id(t, emulator_id, 0);
    law_default_emulator_ids_distinct();
    let o = first_with_id(t, emulator_id, 0);
    assert(o == k) by {
        if o < k {
            assert(t[o].id == t[k].id);
        }
    }
}

/// Whatever emulator a launch is resolved to is a built-in table entry as it
/// stands, with only its path set to the configured one and its core
/// chosen: its id, name, platforms, launch arguments, ROM argument,
/// RetroArch flag and installed flag are the table's.
pub proof fn law_resolved_is_table_entry(
    paths: EmulatorPaths,
    platform: Seq<char>,
    chosen: Option<(Seq<char>, Option<Seq<char>>)>,
)
    requires
        resolved_emulator(paths, platform, chosen) is Some,
    ensures
        exists|k: int|
            0 <= k < default_emulator_table().len() && #[trigger] default_emulator_table()[k] == (EmulatorView {
                executable_path: default_emulator_table()[k].executable_path,
                core_name: default_emulator_table()[k].core_name,
                ..resolved_emulator(paths, platform, chosen).unwrap()
            }) && resolved_emulator(paths, platform, chosen).unwrap().executable_path == emulator_path_of(
                paths,
                default_emulator_table()[k].id,
            ),
{
    let t = default_emulator_table();
    let e = resolved_emulator(paths, platform, chosen).unwrap();
    let n = t.len() as int;
    let o = match chosen {
        Some(c) => first_with_id(t, c.0, 0),
        None => n,
    };
    if let Some(c) = chosen {
        lemma_first_with_id(t, c.0, 0);
    }
    let u = first_usable(t, paths, platform, 0);
    lemma_first_usable_bound(t, paths, platform, 0);
    let k = if o < n { o } else { u };
    assert(t[k] == (EmulatorView {
        executable_path: t[k].executable_path,
        core_name: t[k].core_name,
        ..e
    }));
}

proof fn lemma_first_usable_bound(t: Seq<EmulatorView>, paths: EmulatorPaths, platform: Seq<char>, i: int)
    requires
        0 <= i <= t.len(),
    ensures
        i <= first_usable(t, paths, platform, i) <= t.len(),
    decreases t.len() - i,
{
    if i < t.len() {
        lemma_first_usable_bound(t, paths, platform, i + 1);
    }
}

/// Without a stored choice, once RetroArch has a path it is picked for
/// every platform, since it runs every platform and is tried first.
pub proof fn law_configured_retroarch_runs_everything(paths: EmulatorPaths, platform: Seq<char>)
    requires
        emulator_path_of(paths, "retroarch"@) is Some,
    ensures
        resolved_emulator(paths, platform, None) matches Some(e) && e.id == "retroarch"@ && e.is_retroarch
            && e.core_name == retroarch_core_of(platform),
{
    let t = default_emulator_table();
    assert(t[0].supported_platforms[0] == "*"@);
    assert(first_usable(t, paths, platform, 0) == 0);
}

/// Without a stored choice and with no emulator path configured, no
/// emulator is picked.
pub proof fn law_no_paths_no_emulator(paths: EmulatorPaths, platform: Seq<char>)
    requires
        forall|id: Seq<char>| #[trigger] emulator_path_of(paths, id) is None,
    ensures
        resolved_emulator(paths, platform, None) is None,
{
    let t = default_emulator_table();
    lemma_first_usable(t, paths, platform, 0);
    let u = first_usable(t, paths, platform, 0);
    if u < t.len() {
        assert(emulator_path_of(paths, t[u].id) is None);
    }
}

/// Replacing a pattern that does not occur leaves the string as it was.
pub proof fn law_replace_without_match(s: Seq<char>, pat: Seq<char>, to: Seq<char>)
    requires
        pat.len() > 0,
        forall|i: int| !(#[trigger] occurs_at(s, pat, i)),
    ensures
        replaced(s, pat, to) == s,
    decreases s.len(),
{
    if s.len() > 0 {
        assert(!occurs_at(s, pat, 0));
        let rest = s.skip(1);
        assert forall|i: int| !(#[trigger] occurs_at(rest, pat, i)) by {
            if occurs_at(rest, pat, i) {
                assert(s.subrange(i + 1, i + 1 + pat.len()) =~= rest.subrange(i, i + pat.len()));
                assert(occurs_at(s, pat, i + 1));
            }
        }
        law_replace_without_match(rest, pat, to);
        assert(seq![s[0]] + rest =~= s);
    }
}

/// A string that is exactly the pattern becomes the replacement.
pub proof fn law_replace_whole(pat: Seq<char>, to: Seq<char>)
    requires
        pat.len() > 0,
    ensures
        replaced(pat, pat, to) == to,
{
    assert(pat.subrange(0, pat.len() as int) =~= pat);
    assert(occurs_at(pat, pat, 0));
    let rest = pat.skip(pat.len() as int);
    assert(rest.len() == 0);
    assert(replaced(rest, pat, to) =~= Seq::<char>::empty());
    assert(to + replaced(rest, pat, to) =~= to);
}

/// A built-in emulator is started with its own arguments followed by the
/// ROM path itself.
pub proof fn law_builtin_command_ends_with_rom(k: int, rom: Seq<char>)
    requires
        0 <= k < default_emulator_table().len(),
    ensures
        ({
            let e = default_emulator_table()[k];
            launch_args_for(e, rom) == e.launch_args.push(rom)
        }),
{
    reveal_strlit("{rom}");
    law_replace_whole(rom_placeholder(), rom);
}

/// Applying detected emulators never changes a path that was already set.
pub proof fn law_detection_keeps_set_paths(p: EmulatorPaths, ds: Seq<(Seq<char>, Seq<char>)>, x: Seq<char>)
    requires
        emulator_path_of(p, x) is Some,
    ensures
        applied_path(p, ds, x) == emulator_path_of(p, x),
    decreases ds.len(),
{
    if ds.len() > 0 {
        law_detection_keeps_set_paths(p, ds.drop_last(), x);
    }
}

/// Applying detected emulators counts at most one per detected emulator.
pub proof fn law_detection_count_bound(p: EmulatorPaths, ds: Seq<(Seq<char>, Seq<char>)>)
    ensures
        0 <= applied_count(p, ds) <= ds.len(),
    decreases ds.len(),
{
    if ds.len() > 0 {
        law_detection_count_bound(p, ds.drop_last());
    }
}

/// Every platform reported as missing its core is one of the given
/// platforms, has a RetroArch core, and was not found installed.
pub proof fn law_missing_cores_sound(ps: Seq<PlatformView>, installed: Seq<bool>)
    requires
        installed.len() == ps.len(),
    ensures
        forall|m: int|
            0 <= m < missing_cores_of(ps, installed).len() ==> exists|i: int|
                0 <= i < ps.len() && #[trigger] ps[i].id == (#[trigger] missing_cores_of(ps, installed)[m]).0
                    && ps[i].name == missing_cores_of(ps, installed)[m].1
                    && retroarch_core_of(ps[i].id) == Some(missing_cores_of(ps, installed)[m].2)
                    && !installed[i],
    decreases ps.len(),
{
    if ps.len() > 0 {
        let n = ps.len() - 1;
        let front = ps.drop_last();
        let inst = installed.take(n);
        law_missing_cores_sound(front, inst);
        let r = missing_cores_of(front, inst);
        assert forall|m: int|
            0 <= m < missing_cores_of(ps, installed).len() implies exists|i: int|
                0 <= i < ps.len() && #[trigger] ps[i].id == (#[trigger] missing_cores_of(ps, installed)[m]).0
                    && ps[i].name == missing_cores_of(ps, installed)[m].1
                    && retroarch_core_of(ps[i].id) == Some(missing_cores_of(ps, installed)[m].2)
                    && !installed[i] by {
            if m < r.len() {
                assert(missing_cores_of(ps, installed)[m] == r[m]);
                let i = choose|i: int|
                    0 <= i < front.len() && #[trigger] front[i].id == (#[trigger] r[m]).0 && front[i].name == r[m].1
                        && retroarch_core_of(front[i].id) == Some(r[m].2) && !inst[i];
                assert(ps[i] == front[i]);
                assert(installed[i] == inst[i]);
            } else {
                assert(ps[n].id == missing_cores_of(ps, installed)[m].0);
            }
        }
    }
}

/// The first set flag is set and no flag before it is; it is the end of
/// the flags exactly when none is set.
pub proof fn law_first_set(flags: Seq<bool>, i: int)
    requires
        0 <= i <= flags.len(),
    ensures
        i <= first_set(flags, i) <= flags.len(),
        first_set(flags, i) < flags.len() ==> flags[first_set(flags, i)],
        forall|j: int| i <= j < first_set(flags, i) ==> !flags[j],
    decreases flags.len() - i,
{
    if i < flags.len() {
        law_first_set(flags, i + 1);
    }
}

/// Toggling a game's favourite mark twice gives back the state it started
/// from, and the two stores the caller is asked for are opposite marks.
pub proof fn law_favorite_toggle_twice(s: AppStateView, id: i64)
    requires
        can_toggle_favorite(s, id),
    ensures
        next_state(next_state(s, Message::ToggleFavorite(id)), Message::ToggleFavorite(id)) == s,
        effect_of(s, Message::ToggleFavorite(id)) matches Effect::StoreFavorite(a, x) && effect_of(
            next_state(s, Message::ToggleFavorite(id)),
            Message::ToggleFavorite(id),
        ) matches Effect::StoreFavorite(b, y) && a == id && b == id && x != y,
{
    let g = s.games;
    let w = choose|i: int| 0 <= i < g.len() && #[trigger] g[i].id == id;
    lemma_first_game_exists(g, id, w);
    let i = first_game_index(g, id);
    let s1 = next_state(s, Message::ToggleFavorite(id));
    let g1 = s1.games;
    assert(g1[i].id == id);
    assert(first_game(g1, id, i));
    assert(can_toggle_favorite(s1, id));
    let k = first_game_index(g1, id);
    assert(k == i) by {
        if k < i {
            assert(g1[k].id != id);
        } else if i < k {
            assert(g1[i].id != id);
        }
    }
    assert(next_state(s1, Message::ToggleFavorite(id)).games =~= g);
}

/// When some game of `g` has the id `id`, the first such game is where the
/// choice of the first one falls.
proof fn lemma_first_game_exists(g: Seq<crate::ui::LibraryGameView>, id: i64, w: int)
    requires
        0 <= w < g.len(),
        g[w].id == id,
    ensures
        first_game(g, id, first_game_index(g, id)),
    decreases w,
{
    if exists|j: int| 0 <= j < w && #[trigger] g[j].id == id {
        let j = choose|j: int| 0 <= j < w && #[trigger] g[j].id == id;
        lemma_first_game_exists(g, id, j);
    } else {
        assert(first_game(g, id, w));
    }
}

/// A sync page keeps each ROM the first time its id is met and never one
/// met before: the ROMs kept have ids not met before and pairwise
/// different, and afterwards every id of the page counts as met, along with
/// those met before.
pub proof fn law_sync_page_keeps_first_occurrences(seen: Set<i32>, page: Seq<RemoteRomView>)
    ensures
        forall|i: int|
            0 <= i < after_page(seen, page).1.len() ==> !seen.contains(#[trigger] after_page(seen, page).1[i].id),
        forall|i: int, j: int|
            0 <= i < j < after_page(seen, page).1.len() ==> #[trigger] after_page(seen, page).1[i].id
                != #[trigger] after_page(seen, page).1[j].id,
        forall|i: int| 0 <= i < page.len() ==> after_page(seen, page).0.contains(#[trigger] page[i].id),
        forall|x: i32| seen.contains(x) ==> after_page(seen, page).0.contains(x),
        forall|i: int| 0 <= i < after_page(seen, page).1.len() ==> page.contains(#[trigger] after_page(seen, page).1[i]),
    decreases page.len(),
{
    if page.len() > 0 {
        let rest = page.drop_last();
        law_sync_page_keeps_first_occurrences(seen, rest);
        let before = after_page(seen, rest);
        let r = page.last();
        let after = after_page(seen, page);
        assert forall|i: int| 0 <= i < page.len() implies after.0.contains(#[trigger] page[i].id) by {
            if i < page.len() - 1 {
                assert(page[i] == rest[i]);
            }
        }
        assert forall|i: int| 0 <= i < after.1.len() implies page.contains(#[trigger] after.1[i]) by {
            if i < before.1.len() {
                assert(after.1[i] == before.1[i]);
                let k = choose|k: int| 0 <= k < rest.len() && rest[k] == before.1[i];
                assert(page[k] == rest[k]);
            } else {
                assert(page[page.len() - 1] == r);
            }
        }
        if !before.0.contains(r.id) {
            assert forall|i: int| 0 <= i < before.1.len() implies #[trigger] before.1[i].id != r.id by {
                assert(before.0.contains(before.1[i].id)) by {
                    let k = choose|k: int| 0 <= k < rest.len() && rest[k] == before.1[i];
                }
            }
        }
    }
}

/// RetroArch runs every platform, so it is the first emulator offered for
/// any platform, whatever the configured paths and the disk say.
pub proof fn law_retroarch_offered_first(exists: Seq<bool>, paths: EmulatorPaths, platform: Seq<char>)
    requires
        exists.len() == default_emulator_table().len(),
    ensures
        ({
            let r = offered_upto(default_emulator_table(), exists, paths, platform, default_emulator_table().len() as int);
            r.len() > 0 && r[0].id == "retroarch"@
        }),
{
    let t = default_emulator_table();
    assert(t[0].supported_platforms[0] == "*"@);
    assert(supports_platform(t[0], platform));
    lemma_offered_first_kept(t, exists, paths, platform, t.len() as int);
    assert(offered_upto(t, exists, paths, platform, 0) == Seq::<EmulatorView>::empty());
    assert(offered_upto(t, exists, paths, platform, 1)[0].id == t[0].id);
    assert(t[0].id == "retroarch"@);
}

proof fn lemma_offered_first_kept(
    t: Seq<EmulatorView>,
    exists: Seq<bool>,
    paths: EmulatorPaths,
    platform: Seq<char>,
    k: int,
)
    requires
        1 <= k <= t.len(),
        supports_platform(t[0], platform),
    ensures
        offered_upto(t, exists, paths, platform, k).len() > 0,
        offered_upto(t, exists, paths, platform, k)[0] == offered_upto(t, exists, paths, platform, 1)[0],
    decreases k,
{
    if k > 1 {
        lemma_offered_first_kept(t, exists, paths, platform, k - 1);
    } else {
        assert(offered_upto(t, exists, paths, platform, 0) == Seq::<EmulatorView>::empty());
    }
}

/// Each sort name selects the order of that name: `last_played`,
/// `play_count`, `play_time`, `release_year`, `recently_added` and `rating`;
/// with no name, games go by name.
pub proof fn law_game_sort_table()
    ensures
        game_sort_named(Some("last_played"@)) == GameSort::LastPlayed,
        game_sort_named(Some("play_count"@)) == GameSort::PlayCount,
        game_sort_named(Some("play_time"@)) == GameSort::PlayTime,
        game_sort_named(Some("release_year"@)) == GameSort::ReleaseYear,
        game_sort_named(Some("recently_added"@)) == GameSort::RecentlyAdded,
        game_sort_named(Some("rating"@)) == GameSort::Rating,
        game_sort_named(None) == GameSort::Name,
{
    reveal_strlit("last_played");
    reveal_strlit("play_count");
    reveal_strlit("play_time");
    reveal_strlit("release_year");
    reveal_strlit("recently_added");
    reveal_strlit("rating");
    assert("play_count"@ != "last_played"@) by {
        assert("play_count"@[1] != "last_played"@[1]);
    }
    assert("play_time"@ != "last_played"@) by {
        assert("play_time"@[1] != "last_played"@[1]);
    }
    assert("play_time"@ != "play_count"@) by {
        assert("play_time"@[5] != "play_count"@[5]);
    }
    assert("release_year"@ != "last_played"@ && "release_year"@ != "play_count"@ && "release_year"@ != "play_time"@) by {
        assert("release_year"@[0] != "last_played"@[0]);
        assert("release_year"@[0] != "play_count"@[0]);
        assert("release_year"@[0] != "play_time"@[0]);
    }
    assert("recently_added"@ != "last_played"@ && "recently_added"@ != "play_count"@ && "recently_added"@
        != "play_time"@ && "recently_added"@ != "release_year"@) by {
        assert("recently_added"@[0] != "last_played"@[0]);
        assert("recently_added"@[0] != "play_count"@[0]);
        assert("recently_added"@[0] != "play_time"@[0]);
        assert("recently_added"@.len() != "release_year"@.len());
    }
    assert("rating"@ != "last_played"@ && "rating"@ != "play_count"@ && "rating"@ != "play_time"@ && "rating"@
        != "release_year"@ && "rating"@ != "recently_added"@) by {
        assert("rating"@.len() != "last_played"@.len());
        assert("rating"@.len() != "play_count"@.len());
        assert("rating"@.len() != "play_time"@.len());
        assert("rating"@.len() != "release_year"@.len());
        assert("rating"@.len() != "recently_added"@.len());
    }
}

/// Two different sort names never select the same order, but for the
/// default order by name: each order other than by name has exactly one
/// name.
pub proof fn law_game_sort_names_distinct(a: Seq<char>, b: Seq<char>)
    requires
        a != b,
    ensures
        game_sort_named(Some(a)) == game_sort_named(Some(b)) ==> game_sort_named(Some(a)) == GameSort::Name,
{
}

/// Detection is complete and takes the first place found: every directory,
/// emulator and executable name whose executable is found at one of its
/// three places (the directory, the folder named like the emulator, that
/// name in lowercase) is reported, at the first of those places where it is
/// found.
pub proof fn law_detection_complete_first_found(
    r: Seq<crate::detection::DetectedEmulator>,
    bases: Seq<Seq<char>>,
    flags: Seq<bool>,
    s: (int, int, int),
)
    requires
        detections_of(r, bases, flags),
        valid_slot(s, bases.len() as int),
        first_found(flags, s) < 3,
    ensures
        exists|i: int| 0 <= i < r.len() && #[trigger] reported_from(r[i], s, first_found(flags, s), bases),
{
    let slots = choose|slots: Seq<(int, int, int)>| detections_at(r, bases, flags, slots);
    assert(slots.contains(s));
    let i = choose|i: int| 0 <= i < slots.len() && slots[i] == s;
    assert(reported_from(r[i], slots[i], first_found(flags, slots[i]), bases));
}

/// Every report of the detection is a find: it names the emulator of some
/// place looked at and lies at the first of that place's candidates where
/// the executable is found.
pub proof fn law_detection_reports_are_finds(
    r: Seq<crate::detection::DetectedEmulator>,
    bases: Seq<Seq<char>>,
    flags: Seq<bool>,
    i: int,
)
    requires
        detections_of(r, bases, flags),
        0 <= i < r.len(),
    ensures
        exists|s: (int, int, int)|
            valid_slot(s, bases.len() as int) && first_found(flags, s) < 3 && #[trigger] reported_from(
                r[i],
                s,
                first_found(flags, s),
                bases,
            ),
{
    let slots = choose|slots: Seq<(int, int, int)>| detections_at(r, bases, flags, slots);
    assert(valid_slot(slots[i], bases.len() as int));
    assert(reported_from(r[i], slots[i], first_found(flags, slots[i]), bases));
}

/// A platform with games whose core is not installed is reported missing,
/// with its id, name and core file.
pub proof fn law_missing_cores_complete(ps: Seq<PlatformView>, installed: Seq<bool>, i: int)
    requires
        installed.len() == ps.len(),
        0 <= i < ps.len(),
        retroarch_core_of(ps[i].id) is Some,
        !installed[i],
    ensures
        missing_cores_of(ps, installed).contains((ps[i].id, ps[i].name, retroarch_core_of(ps[i].id).unwrap())),
    decreases ps.len(),
{
    let n = ps.len() - 1;
    let r = missing_cores_of(ps.drop_last(), installed.take(n));
    if i == n {
        assert(missing_cores_of(ps, installed) == r.push((ps[n].id, ps[n].name, retroarch_core_of(ps[n].id).unwrap())));
        assert(missing_cores_of(ps, installed)[r.len() as int] == (ps[i].id, ps[i].name, retroarch_core_of(
            ps[i].id,
        ).unwrap()));
    } else {
        assert(ps.drop_last()[i] == ps[i]);
        assert(installed.take(n)[i] == installed[i]);
        law_missing_cores_complete(ps.drop_last(), installed.take(n), i);
        let x = (ps[i].id, ps[i].name, retroarch_core_of(ps[i].id).unwrap());
        let m = choose|m: int| 0 <= m < r.len() && r[m] == x;
        let full = missing_cores_of(ps, installed);
        assert(full == r || full == r.push((ps[n].id, ps[n].name, retroarch_core_of(ps[n].id).unwrap())));
        assert(full[m] == x);
    }
}

/// With every platform's core installed, no core is reported missing.
pub proof fn law_all_cores_installed_none_missing(ps: Seq<PlatformView>, installed: Seq<bool>)
    requires
        installed.len() == ps.len(),
        forall|i: int| 0 <= i < installed.len() ==> #[trigger] installed[i],
    ensures
        missing_cores_of(ps, installed).len() == 0,
    decreases ps.len(),
{
    if ps.len() > 0 {
        let n = ps.len() - 1;
        assert forall|i: int| 0 <= i < n implies #[trigger] installed.take(n)[i] by {
            assert(installed.take(n)[i] == installed[i]);
        }
        law_all_cores_installed_none_missing(ps.drop_last(), installed.take(n));
        assert(installed[n]);
    }
}

proof fn lemma_offered_entry(
    t: Seq<EmulatorView>,
    ex: Seq<bool>,
    paths: EmulatorPaths,
    platform: Seq<char>,
    kk: int,
    k: int,
)
    requires
        0 <= k < kk <= t.len(),
        supports_platform(t[k], platform),
    ensures
        offered_upto(t, ex, paths, platform, kk).contains(
            offered(t[k], paths, emulator_path_of(paths, t[k].id) is Some && ex[k]),
        ),
    decreases kk,
{
    let r = offered_upto(t, ex, paths, platform, kk - 1);
    let x = offered(t[k], paths, emulator_path_of(paths, t[k].id) is Some && ex[k]);
    if k == kk - 1 {
        assert(offered_upto(t, ex, paths, platform, kk)[r.len() as int] == x);
    } else {
        lemma_offered_entry(t, ex, paths, platform, kk - 1, k);
        let m = choose|m: int| 0 <= m < r.len() && r[m] == x;
        assert(offered_upto(t, ex, paths, platform, kk)[m] == x);
    }
}

proof fn lemma_offered_installed_has_path(
    t: Seq<EmulatorView>,
    ex: Seq<bool>,
    paths: EmulatorPaths,
    platform: Seq<char>,
    kk: int,
)
    requires
        0 <= kk <= t.len(),
    ensures
        forall|j: int|
            0 <= j < offered_upto(t, ex, paths, platform, kk).len() && (#[trigger] offered_upto(
                t,
                ex,
                paths,
                platform,
                kk,
            )[j]).is_installed ==> offered_upto(t, ex, paths, platform, kk)[j].executable_path is Some,
    decreases kk,
{
    if kk > 0 {
        lemma_offered_installed_has_path(t, ex, paths, platform, kk - 1);
        let r = offered_upto(t, ex, paths, platform, kk - 1);
        assert forall|j: int|
            0 <= j < offered_upto(t, ex, paths, platform, kk).len() && (#[trigger] offered_upto(
                t,
                ex,
                paths,
                platform,
                kk,
            )[j]).is_installed implies offered_upto(t, ex, paths, platform, kk)[j].executable_path is Some by {
            if j < r.len() {
                assert(offered_upto(t, ex, paths, platform, kk)[j] == r[j]);
            }
        }
    }
}

/// Every built-in emulator that runs the platform is offered with its own
/// configured path, and counts as installed exactly when it has a path and
/// the answer for its own position says a file is there; an emulator
/// offered as installed always has a path.
pub proof fn law_offered_installed_flag(ex: Seq<bool>, paths: EmulatorPaths, platform: Seq<char>, k: int)
    requires
        ex.len() == default_emulator_table().len(),
        0 <= k < default_emulator_table().len(),
        supports_platform(default_emulator_table()[k], platform),
    ensures
        ({
            let t = default_emulator_table();
            let r = offered_upto(t, ex, paths, platform, t.len() as int);
            &&& exists|j: int|
                0 <= j < r.len() && (#[trigger] r[j]).id == t[k].id && r[j].executable_path == emulator_path_of(paths, t[k].id)
                    && r[j].is_installed == (emulator_path_of(paths, t[k].id) is Some && ex[k])
            &&& forall|j: int| 0 <= j < r.len() && (#[trigger] r[j]).is_installed ==> r[j].executable_path is Some
        }),
{
    let t = default_emulator_table();
    lemma_offered_entry(t, ex, paths, platform, t.len() as int, k);
    lemma_offered_installed_has_path(t, ex, paths, platform, t.len() as int);
    let r = offered_upto(t, ex, paths, platform, t.len() as int);
    let x = offered(t[k], paths, emulator_path_of(paths, t[k].id) is Some && ex[k]);
    let j = choose|j: int| 0 <= j < r.len() && r[j] == x;
    assert(r[j].id == t[k].id);
}

} // verus!
