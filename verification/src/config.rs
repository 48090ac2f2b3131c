//! The emulator section of the launcher's configuration: where each
//! emulator's executable lives.

use vstd::prelude::*;

use crate::text::{copy_opt_string, opt_view, str_eq};

verus! {

/// The configured executable path of each emulator the launcher knows.
#[derive(Debug, Clone)]
pub struct EmulatorPaths {
    pub retroarch: Option<String>,
    pub dolphin: Option<String>,
    pub pcsx2: Option<String>,
    pub rpcs3: Option<String>,
    pub ppsspp: Option<String>,
    pub duckstation: Option<String>,
    pub cemu: Option<String>,
    pub yuzu: Option<String>,
    pub ryujinx: Option<String>,
    pub citra: Option<String>,
    pub melonds: Option<String>,
    pub mgba: Option<String>,
    pub flycast: Option<String>,
    pub xemu: Option<String>,
    pub xenia: Option<String>,
    pub mame: Option<String>,
}

/// The configured path of the emulator `id` in `p`; `None` for an id the
/// configuration has no entry for.
pub open spec fn emulator_path_of(p: EmulatorPaths, id: Seq<char>) -> Option<Seq<char>> {
    if id == "retroarch"@ {
        opt_view(p.retroarch)
    } else if id == "dolphin"@ {
        opt_view(p.dolphin)
    } else if id == "pcsx2"@ {
        opt_view(p.pcsx2)
    } else if id == "rpcs3"@ {
        opt_view(p.rpcs3)
    } else if id == "ppsspp"@ {
        opt_view(p.ppsspp)
    } else if id == "duckstation"@ {
        opt_view(p.duckstation)
    } else if id == "cemu"@ {
        opt_view(p.cemu)
    } else if id == "yuzu"@ {
        opt_view(p.yuzu)
    } else if id == "ryujinx"@ {
        opt_view(p.ryujinx)
    } else if id == "citra"@ {
        opt_view(p.citra)
    } else if id == "melonds"@ {
        opt_view(p.melonds)
    } else if id == "mgba"@ {
        opt_view(p.mgba)
    } else if id == "flycast"@ {
        opt_view(p.flycast)
    } else if id == "xemu"@ {
        opt_view(p.xemu)
    } else if id == "xenia"@ {
        opt_view(p.xenia)
    } else if id == "mame"@ {
        opt_view(p.mame)
    } else {
        None
    }
}

/// Whether the configuration has an entry for the emulator `id`.
pub open spec fn has_path_entry(id: Seq<char>) -> bool {
    id == "retroarch"@ || id == "dolphin"@ || id == "pcsx2"@ || id == "rpcs3"@ || id == "ppsspp"@ || id == "duckstation"@ || id == "cemu"@ || id == "yuzu"@ || id == "ryujinx"@ || id == "citra"@ || id == "melonds"@ || id == "mgba"@ || id == "flycast"@ || id == "xemu"@ || id == "xenia"@ || id == "mame"@
}

impl EmulatorPaths {
    /// A configuration with no emulator path set.
    pub fn new() -> (p: EmulatorPaths)
        ensures
            forall|id: Seq<char>| emulator_path_of(p, id) is None,
    {
        EmulatorPaths {
            retroarch: None,
            dolphin: None,
            pcsx2: None,
            rpcs3: None,
            ppsspp: None,
            duckstation: None,
            cemu: None,
            yuzu: None,
            ryujinx: None,
            citra: None,
            melonds: None,
            mgba: None,
            flycast: None,
            xemu: None,
            xenia: None,
            mame: None,
        }
    }
}

/// The configured path of the emulator `id`.
pub fn get_emulator_path_from_config(paths: &EmulatorPaths, id: &str) -> (r: Option<String>)
    ensures
        opt_view(r) == emulator_path_of(*paths, id@),
{
    if str_eq(id, "retroarch") {
        copy_opt_string(&paths.retroarch)
    } else if str_eq(id, "dolphin") {
        copy_opt_string(&paths.dolphin)
    } else if str_eq(id, "pcsx2") {
        copy_opt_string(&paths.pcsx2)
    } else if str_eq(id, "rpcs3") {
        copy_opt_string(&paths.rpcs3)
    } else if str_eq(id, "ppsspp") {
        copy_opt_string(&paths.ppsspp)
    } else if str_eq(id, "duckstation") {
        copy_opt_string(&paths.duckstation)
    } else if str_eq(id, "cemu") {
        copy_opt_string(&paths.cemu)
    } else if str_eq(id, "yuzu") {
        copy_opt_string(&paths.yuzu)
    } else if str_eq(id, "ryujinx") {
        copy_opt_string(&paths.ryujinx)
    } else if str_eq(id, "citra") {
        copy_opt_string(&paths.citra)
    } else if str_eq(id, "melonds") {
        copy_opt_string(&paths.melonds)
    } else if str_eq(id, "mgba") {
        copy_opt_string(&paths.mgba)
    } else if str_eq(id, "flycast") {
        copy_opt_string(&paths.flycast)
    } else if str_eq(id, "xemu") {
        copy_opt_string(&paths.xemu)
    } else if str_eq(id, "xenia") {
        copy_opt_string(&paths.xenia)
    } else if str_eq(id, "mame") {
        copy_opt_string(&paths.mame)
    } else {
        None
    }
}

/// Sets the configured path of the emulator `id` to `path`; an id the
/// configuration has no entry for changes nothing.
pub fn set_emulator_path(paths: &mut EmulatorPaths, id: &str, path: String)
    ensures
        forall|x: Seq<char>| #[trigger] emulator_path_of(*final(paths), x) == if x == id@ && has_path_entry(id@) {
            Some(path@)
        } else {
            emulator_path_of(*old(paths), x)
        },
{
    proof {
        reveal_strlit("retroarch");
        reveal_strlit("dolphin");
        reveal_strlit("pcsx2");
        reveal_strlit("rpcs3");
        reveal_strlit("ppsspp");
        reveal_strlit("duckstation");
        reveal_strlit("cemu");
        reveal_strlit("yuzu");
        reveal_strlit("ryujinx");
        reveal_strlit("citra");
        reveal_strlit("melonds");
        reveal_strlit("mgba");
        reveal_strlit("flycast");
        reveal_strlit("xemu");
        reveal_strlit("xenia");
        reveal_strlit("mame");
    }
    if str_eq(id, "retroarch") {
        paths.retroarch = Some(path);
    } else if str_eq(id, "dolphin") {
        paths.dolphin = Some(path);
    } else if str_eq(id, "pcsx2") {
        paths.pcsx2 = Some(path);
    } else if str_eq(id, "rpcs3") {
        paths.rpcs3 = Some(path);
    } else if str_eq(id, "ppsspp") {
        paths.ppsspp = Some(path);
    } else if str_eq(id, "duckstation") {
        paths.duckstation = Some(path);
    } else if str_eq(id, "cemu") {
        paths.cemu = Some(path);
    } else if str_eq(id, "yuzu") {
        paths.yuzu = Some(path);
    } else if str_eq(id, "ryujinx") {
        paths.ryujinx = Some(path);
    } else if str_eq(id, "citra") {
        paths.citra = Some(path);
    } else if str_eq(id, "melonds") {
        paths.melonds = Some(path);
    } else if str_eq(id, "mgba") {
        paths.mgba = Some(path);
    } else if str_eq(id, "flycast") {
        paths.flycast = Some(path);
    } else if str_eq(id, "xemu") {
        paths.xemu = Some(path);
    } else if str_eq(id, "xenia") {
        paths.xenia = Some(path);
    } else if str_eq(id, "mame") {
        paths.mame = Some(path);
    }
}

} // verus!
