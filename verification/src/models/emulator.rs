//! Emulators, their per-game and per-platform configuration, and the
//! built-in emulator and RetroArch core tables.

use vstd::prelude::*;
use vstd::string::*;

use crate::text::{
    copy_opt_string, copy_string, copy_strings, list0, list1, list3, opt_view, replace_all, replaced,
    str_eq, views,
};

verus! {

/// An emulator the launcher knows how to start.
#[derive(Debug, Clone)]
pub struct Emulator {
    pub id: String,
    pub name: String,
    pub executable_path: Option<String>,
    pub supported_platforms: Vec<String>,
    pub launch_args: Vec<String>,
    pub rom_arg: String,
    pub core_name: Option<String>,
    pub is_retroarch: bool,
    pub is_installed: bool,
}

/// The mathematical model of an [`Emulator`]: every string as its characters.
pub struct EmulatorView {
    pub id: Seq<char>,
    pub name: Seq<char>,
    pub executable_path: Option<Seq<char>>,
    pub supported_platforms: Seq<Seq<char>>,
    pub launch_args: Seq<Seq<char>>,
    pub rom_arg: Seq<char>,
    pub core_name: Option<Seq<char>>,
    pub is_retroarch: bool,
    pub is_installed: bool,
}

impl View for Emulator {
    type V = EmulatorView;

    open spec fn view(&self) -> EmulatorView {
        EmulatorView {
            id: self.id@,
            name: self.name@,
            executable_path: opt_view(self.executable_path),
            supported_platforms: views(self.supported_platforms@),
            launch_args: views(self.launch_args@),
            rom_arg: self.rom_arg@,
            core_name: opt_view(self.core_name),
            is_retroarch: self.is_retroarch,
            is_installed: self.is_installed,
        }
    }
}

/// The models of a sequence of emulators.
pub open spec fn emulator_views(s: Seq<Emulator>) -> Seq<EmulatorView> {
    s.map_values(|e: Emulator| e@)
}

/// Which emulator a game or a platform is set to use.
#[derive(Debug, Clone)]
pub struct EmulatorConfig {
    pub platform_id: Option<String>,
    pub game_id: Option<i64>,
    pub emulator_id: String,
    pub core_name: Option<String>,
    pub is_default: bool,
}

impl Emulator {
    /// A copy of this emulator.
    pub fn copy(&self) -> (r: Emulator)
        ensures
            r@ == self@,
    {
        Emulator {
            id: copy_string(&self.id),
            name: copy_string(&self.name),
            executable_path: copy_opt_string(&self.executable_path),
            supported_platforms: copy_strings(&self.supported_platforms),
            launch_args: copy_strings(&self.launch_args),
            rom_arg: copy_string(&self.rom_arg),
            core_name: copy_opt_string(&self.core_name),
            is_retroarch: self.is_retroarch,
            is_installed: self.is_installed,
        }
    }
}

/// The placeholder in an emulator's ROM argument that stands for the ROM path.
pub open spec fn rom_placeholder() -> Seq<char> {
    "{rom}"@
}

/// The arguments an emulator is started with for the ROM at `rom`:
/// its own launch arguments; then `-L` and the core when it is RetroArch
/// and has a core; then its ROM argument with every placeholder replaced
/// by `rom`, or `rom` itself when that leaves nothing.
pub open spec fn launch_args_for(e: EmulatorView, rom: Seq<char>) -> Seq<Seq<char>> {
    let with_core = if e.is_retroarch && e.core_name is Some {
        e.launch_args + seq!["-L"@, e.core_name.unwrap()]
    } else {
        e.launch_args
    };
    let arg = replaced(e.rom_arg, rom_placeholder(), rom);
    with_core.push(if arg.len() > 0 { arg } else { rom })
}

impl Emulator {
    /// The executable and the arguments that start this emulator on the
    /// ROM at `rom_path`; `None` when the emulator has no executable path.
    pub fn build_launch_command(&self, rom_path: &str) -> (r: Option<(String, Vec<String>)>)
        ensures
            r is None <==> self.executable_path is None,
            r matches Some((exe, args)) ==> {
                &&& Some(exe@) == opt_view(self.executable_path)
                &&& views(args@) == launch_args_for(self@, rom_path@)
            },
    {
        let exe = match &self.executable_path {
            Some(p) => copy_string(p),
            None => return None,
        };
        let mut args = copy_strings(&self.launch_args);
        let ghost base = views(args@);
        if self.is_retroarch {
            if let Some(core) = &self.core_name {
                args.push(String::from_str("-L"));
                args.push(copy_string(core));
                assert(views(args@) =~= base + seq!["-L"@, core@]);
            }
        }
        let ghost with_core = views(args@);
        proof {
            reveal_strlit("{rom}");
        }
        let rom_arg = replace_all(self.rom_arg.as_str(), "{rom}", rom_path);
        if !rom_arg.as_str().is_empty() {
            args.push(rom_arg);
        } else {
            args.push(String::from_str(rom_path));
        }
        assert(views(args@) =~= launch_args_for(self@, rom_path@));
        Some((exe, args))
    }
}

/// The model of a built-in emulator entry: no executable yet, not
/// installed, no core, and a ROM argument that is just the placeholder.
pub open spec fn builtin(
    id: Seq<char>,
    name: Seq<char>,
    platforms: Seq<Seq<char>>,
    args: Seq<Seq<char>>,
    is_retroarch: bool,
) -> EmulatorView {
    EmulatorView {
        id,
        name,
        executable_path: None,
        supported_platforms: platforms,
        launch_args: args,
        rom_arg: rom_placeholder(),
        core_name: None,
        is_retroarch,
        is_installed: false,
    }
}

/// The built-in emulators, in the order the launcher tries them.
pub open spec fn default_emulator_table() -> Seq<EmulatorView> {
    seq![
        builtin("retroarch"@, "RetroArch"@, seq!["*"@], seq![], true),
        builtin("dolphin"@, "Dolphin"@, seq!["gc"@, "wii"@], seq!["-e"@], false),
        builtin("pcsx2"@, "PCSX2"@, seq!["ps2"@], seq![], false),
        builtin("rpcs3"@, "RPCS3"@, seq!["ps3"@], seq!["--no-gui"@], false),
        builtin("ppsspp"@, "PPSSPP"@, seq!["psp"@], seq![], false),
        builtin("duckstation"@, "DuckStation"@, seq!["psx"@], seq![], false),
        builtin("cemu"@, "Cemu"@, seq!["wiiu"@], seq!["-g"@], false),
        builtin("yuzu"@, "Yuzu / Suyu"@, seq!["switch"@], seq!["-g"@], false),
        builtin("ryujinx"@, "Ryujinx"@, seq!["switch"@], seq![], false),
        builtin("citra"@, "Citra / Lime3DS"@, seq!["3ds"@], seq![], false),
        builtin("melonds"@, "melonDS"@, seq!["nds"@], seq![], false),
        builtin("mgba"@, "mGBA"@, seq!["gb"@, "gbc"@, "gba"@], seq![], false),
        builtin("flycast"@, "Flycast"@, seq!["dreamcast"@], seq![], false),
        builtin("xemu"@, "xemu"@, seq!["xbox"@], seq!["-dvd_path"@], false),
        builtin("xenia"@, "Xenia Canary"@, seq!["xbox360"@], seq![], false),
        builtin("mame"@, "MAME"@, seq!["arcade"@], seq![], false),
    ]
}

/// A built-in emulator entry.
fn make_builtin(id: &str, name: &str, platforms: Vec<String>, args: Vec<String>, is_retroarch: bool) -> (e: Emulator)
    ensures
        e@ == builtin(id@, name@, views(platforms@), views(args@), is_retroarch),
{
    proof {
        reveal_strlit("{rom}");
    }
    Emulator {
        id: String::from_str(id),
        name: String::from_str(name),
        executable_path: None,
        supported_platforms: platforms,
        launch_args: args,
        rom_arg: String::from_str("{rom}"),
        core_name: None,
        is_retroarch,
        is_installed: false,
    }
}

/// The built-in emulators.
pub fn default_emulators() -> (r: Vec<Emulator>)
    ensures
        emulator_views(r@) == default_emulator_table(),
{
    let mut v: Vec<Emulator> = Vec::new();
    v.push(make_builtin("retroarch", "RetroArch", list1("*"), list0(), true));
    v.push(make_builtin("dolphin", "Dolphin", crate::text::list2("gc", "wii"), list1("-e"), false));
    v.push(make_builtin("pcsx2", "PCSX2", list1("ps2"), list0(), false));
    v.push(make_builtin("rpcs3", "RPCS3", list1("ps3"), list1("--no-gui"), false));
    v.push(make_builtin("ppsspp", "PPSSPP", list1("psp"), list0(), false));
    v.push(make_builtin("duckstation", "DuckStation", list1("psx"), list0(), false));
    v.push(make_builtin("cemu", "Cemu", list1("wiiu"), list1("-g"), false));
    v.push(make_builtin("yuzu", "Yuzu / Suyu", list1("switch"), list1("-g"), false));
    v.push(make_builtin("ryujinx", "Ryujinx", list1("switch"), list0(), false));
    v.push(make_builtin("citra", "Citra / Lime3DS", list1("3ds"), list0(), false));
    v.push(make_builtin("melonds", "melonDS", list1("nds"), list0(), false));
    v.push(make_builtin("mgba", "mGBA", list3("gb", "gbc", "gba"), list0(), false));
    v.push(make_builtin("flycast", "Flycast", list1("dreamcast"), list0(), false));
    v.push(make_builtin("xemu", "xemu", list1("xbox"), list1("-dvd_path"), false));
    v.push(make_builtin("xenia", "Xenia Canary", list1("xbox360"), list0(), false));
    v.push(make_builtin("mame", "MAME", list1("arcade"), list0(), false));
    assert(emulator_views(v@) =~= default_emulator_table());
    v
}

/// The value stored under the first key `k` of a table of pairs, if any.
pub open spec fn lookup(t: Seq<(Seq<char>, Seq<char>)>, k: Seq<char>) -> Option<Seq<char>>
    decreases t.len(),
{
    if t.len() == 0 {
        None
    } else if t[0].0 == k {
        Some(t[0].1)
    } else {
        lookup(t.drop_first(), k)
    }
}

/// The character sequences of a table of string pairs.
pub open spec fn pair_views(t: Seq<(String, String)>) -> Seq<(Seq<char>, Seq<char>)> {
    t.map_values(|p: (String, String)| (p.0@, p.1@))
}

/// The RetroArch core used for each platform.
pub open spec fn retroarch_core_table() -> Seq<(Seq<char>, Seq<char>)> {
    seq![
        ("nes"@, "fceumm_libretro.dll"@),
        ("snes"@, "snes9x_libretro.dll"@),
        ("n64"@, "mupen64plus_next_libretro.dll"@),
        ("gb"@, "gambatte_libretro.dll"@),
        ("gbc"@, "gambatte_libretro.dll"@),
        ("gba"@, "mgba_libretro.dll"@),
        ("nds"@, "melonds_libretro.dll"@),
        ("genesis"@, "genesis_plus_gx_libretro.dll"@),
        ("psx"@, "pcsx_rearmed_libretro.dll"@),
        ("dreamcast"@, "flycast_libretro.dll"@),
        ("psp"@, "ppsspp_libretro.dll"@),
        ("arcade"@, "mame_libretro.dll"@),
    ]
}

/// The RetroArch core for `platform_id`, if the table has one.
pub open spec fn retroarch_core_of(platform_id: Seq<char>) -> Option<Seq<char>> {
    lookup(retroarch_core_table(), platform_id)
}

fn core_pair(platform: &str, core: &str) -> (p: (String, String))
    ensures
        p.0@ == platform@,
        p.1@ == core@,
{
    (String::from_str(platform), String::from_str(core))
}

/// No key occurs twice in the table `t`.
pub open spec fn keys_distinct(t: Seq<(Seq<char>, Seq<char>)>) -> bool {
    forall|i: int, j: int| 0 <= i < j < t.len() ==> #[trigger] t[i].0 != #[trigger] t[j].0
}

/// The RetroArch core table, one (platform, core file) pair per platform:
/// no platform occurs twice. It is held as a list of pairs, since vstd
/// gives a `HashMap` keyed by `String` no model that lookups could be
/// stated over.
pub fn retroarch_cores() -> (r: Vec<(String, String)>)
    ensures
        pair_views(r@) == retroarch_core_table(),
        keys_distinct(pair_views(r@)),
{
    let mut v: Vec<(String, String)> = Vec::new();
    v.push(core_pair("nes", "fceumm_libretro.dll"));
    v.push(core_pair("snes", "snes9x_libretro.dll"));
    v.push(core_pair("n64", "mupen64plus_next_libretro.dll"));
    v.push(core_pair("gb", "gambatte_libretro.dll"));
    v.push(core_pair("gbc", "gambatte_libretro.dll"));
    v.push(core_pair("gba", "mgba_libretro.dll"));
    v.push(core_pair("nds", "melonds_libretro.dll"));
    v.push(core_pair("genesis", "genesis_plus_gx_libretro.dll"));
    v.push(core_pair("psx", "pcsx_rearmed_libretro.dll"));
    v.push(core_pair("dreamcast", "flycast_libretro.dll"));
    v.push(core_pair("psp", "ppsspp_libretro.dll"));
    v.push(core_pair("arcade", "mame_libretro.dll"));
    assert(pair_views(v@) =~= retroarch_core_table());
    proof {
        lemma_core_table_keys_distinct();
    }
    v
}

proof fn lemma_core_table_keys_distinct()
    ensures
        keys_distinct(retroarch_core_table()),
{
    reveal_strlit("nes");
    reveal_strlit("snes");
    reveal_strlit("n64");
    reveal_strlit("gb");
    reveal_strlit("gbc");
    reveal_strlit("gba");
    reveal_strlit("nds");
    reveal_strlit("genesis");
    reveal_strlit("psx");
    reveal_strlit("dreamcast");
    reveal_strlit("psp");
    reveal_strlit("arcade");
    let t = retroarch_core_table();
    assert forall|i: int, j: int| 0 <= i < j < t.len() implies #[trigger] t[i].0 != #[trigger] t[j].0 by {
        let a = t[i].0;
        let b = t[j].0;
        if a.len() == b.len() {
            if a[0] == b[0] {
                assert(a[1] != b[1] || a[a.len() - 1] != b[b.len() - 1]);
            }
        }
    }
}

/// The value stored under the first key equal to `key` in `table`.
pub fn lookup_pairs(table: &Vec<(String, String)>, key: &str) -> (r: Option<String>)
    ensures
        opt_view(r) == lookup(pair_views(table@), key@),
{
    let ghost t = pair_views(table@);
    let mut i: usize = 0;
    assert(t.skip(0) =~= t);
    while i < table.len()
        invariant
            t == pair_views(table@),
            i <= table.len(),
            lookup(t, key@) == lookup(t.skip(i as int), key@),
        decreases table.len() - i,
    {
        assert(t.skip(i as int)[0] == t[i as int]);
        assert(t.skip(i as int).drop_first() =~= t.skip(i + 1));
        if str_eq(table[i].0.as_str(), key) {
            return Some(copy_string(&table[i].1));
        }
        i = i + 1;
    }
    None
}

/// The RetroArch core for `platform_id`, if the table has one.
pub fn retroarch_core_for(platform_id: &str) -> (r: Option<String>)
    ensures
        opt_view(r) == retroarch_core_of(platform_id@),
{
    let cores = retroarch_cores();
    lookup_pairs(&cores, platform_id)
}

} // verus!
