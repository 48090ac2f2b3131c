//! Game platforms and how a ROM's extension picks its platform.

use vstd::prelude::*;
use vstd::string::*;

use crate::text::{contains_string, strs1, strs2, strs3, strs4, strs5, copy_string, lowercase, opt_view, owned_strings, str_views, to_lowercase, views};

verus! {

/// A game platform and the file extensions of its ROMs.
#[derive(Debug, Clone)]
pub struct Platform {
    pub id: String,
    pub name: String,
    pub short_name: Option<String>,
    pub extensions: Vec<String>,
    pub logo_path: Option<String>,
    pub sort_order: i32,
}

/// The mathematical model of a [`Platform`].
pub struct PlatformView {
    pub id: Seq<char>,
    pub name: Seq<char>,
    pub short_name: Option<Seq<char>>,
    pub extensions: Seq<Seq<char>>,
    pub logo_path: Option<Seq<char>>,
    pub sort_order: i32,
}

impl View for Platform {
    type V = PlatformView;

    open spec fn view(&self) -> PlatformView {
        PlatformView {
            id: self.id@,
            name: self.name@,
            short_name: opt_view(self.short_name),
            extensions: views(self.extensions@),
            logo_path: opt_view(self.logo_path),
            sort_order: self.sort_order,
        }
    }
}

/// The models of a sequence of platforms.
pub open spec fn platform_views(s: Seq<Platform>) -> Seq<PlatformView> {
    s.map_values(|p: Platform| p@)
}

/// A new platform: no short name, no logo, first in sort order.
pub open spec fn new_platform(id: Seq<char>, name: Seq<char>, extensions: Seq<Seq<char>>) -> PlatformView {
    PlatformView {
        id,
        name,
        short_name: None,
        extensions,
        logo_path: None,
        sort_order: 0,
    }
}

impl Platform {
    /// A platform with the given id, name and ROM extensions.
    pub fn new(id: &str, name: &str, extensions: Vec<&str>) -> (p: Platform)
        ensures
            p@ == new_platform(id@, name@, str_views(extensions@)),
    {
        Platform {
            id: String::from_str(id),
            name: String::from_str(name),
            short_name: None,
            extensions: owned_strings(&extensions),
            logo_path: None,
            sort_order: 0,
        }
    }
}

/// The built-in platforms, in display order.
pub open spec fn default_platform_table() -> Seq<PlatformView> {
    seq![
        new_platform("nes"@, "Nintendo Entertainment System"@, seq![".nes"@, ".unf"@, ".unif"@]),
        new_platform("snes"@, "Super Nintendo"@, seq![".sfc"@, ".smc"@]),
        new_platform("n64"@, "Nintendo 64"@, seq![".n64"@, ".z64"@, ".v64"@]),
        new_platform("gc"@, "Nintendo GameCube"@, seq![".iso"@, ".gcm"@, ".gcz"@, ".rvz"@]),
        new_platform("wii"@, "Nintendo Wii"@, seq![".iso"@, ".wbfs"@, ".rvz"@]),
        new_platform("wiiu"@, "Nintendo Wii U"@, seq![".wud"@, ".wux"@, ".rpx"@]),
        new_platform("switch"@, "Nintendo Switch"@, seq![".nsp"@, ".xci"@, ".nsz"@]),
        new_platform("gb"@, "Game Boy"@, seq![".gb"@]),
        new_platform("gbc"@, "Game Boy Color"@, seq![".gbc"@]),
        new_platform("gba"@, "Game Boy Advance"@, seq![".gba"@]),
        new_platform("nds"@, "Nintendo DS"@, seq![".nds"@]),
        new_platform("3ds"@, "Nintendo 3DS"@, seq![".3ds"@, ".cia"@, ".cci"@, ".cxi"@]),
        new_platform("psx"@, "PlayStation"@, seq![".bin"@, ".cue"@, ".iso"@, ".chd"@, ".pbp"@]),
        new_platform("ps2"@, "PlayStation 2"@, seq![".iso"@, ".bin"@, ".chd"@]),
        new_platform("ps3"@, "PlayStation 3"@, seq![".iso"@, ".pkg"@]),
        new_platform("psp"@, "PlayStation Portable"@, seq![".iso"@, ".cso"@, ".pbp"@]),
        new_platform("psvita"@, "PlayStation Vita"@, seq![".vpk"@]),
        new_platform("genesis"@, "Sega Genesis"@, seq![".md"@, ".gen"@, ".bin"@, ".smd"@]),
        new_platform("saturn"@, "Sega Saturn"@, seq![".iso"@, ".bin"@, ".cue"@, ".chd"@]),
        new_platform("dreamcast"@, "Sega Dreamcast"@, seq![".gdi"@, ".cdi"@, ".chd"@]),
        new_platform("xbox"@, "Xbox"@, seq![".iso"@, ".xiso"@]),
        new_platform("xbox360"@, "Xbox 360"@, seq![".iso"@, ".xex"@]),
        new_platform("arcade"@, "Arcade"@, seq![".zip"@]),
        new_platform("pc"@, "PC Games"@, seq![".exe"@]),
    ]
}

/// The built-in platforms.
pub fn default_platforms() -> (r: Vec<Platform>)
    ensures
        platform_views(r@) == default_platform_table(),
{
    let mut v: Vec<Platform> = Vec::new();
    v.push(Platform::new("nes", "Nintendo Entertainment System", strs3(".nes", ".unf", ".unif")));
    v.push(Platform::new("snes", "Super Nintendo", strs2(".sfc", ".smc")));
    v.push(Platform::new("n64", "Nintendo 64", strs3(".n64", ".z64", ".v64")));
    v.push(Platform::new("gc", "Nintendo GameCube", strs4(".iso", ".gcm", ".gcz", ".rvz")));
    v.push(Platform::new("wii", "Nintendo Wii", strs3(".iso", ".wbfs", ".rvz")));
    v.push(Platform::new("wiiu", "Nintendo Wii U", strs3(".wud", ".wux", ".rpx")));
    v.push(Platform::new("switch", "Nintendo Switch", strs3(".nsp", ".xci", ".nsz")));
    v.push(Platform::new("gb", "Game Boy", strs1(".gb")));
    v.push(Platform::new("gbc", "Game Boy Color", strs1(".gbc")));
    v.push(Platform::new("gba", "Game Boy Advance", strs1(".gba")));
    v.push(Platform::new("nds", "Nintendo DS", strs1(".nds")));
    v.push(Platform::new("3ds", "Nintendo 3DS", strs4(".3ds", ".cia", ".cci", ".cxi")));
    v.push(Platform::new("psx", "PlayStation", strs5(".bin", ".cue", ".iso", ".chd", ".pbp")));
    v.push(Platform::new("ps2", "PlayStation 2", strs3(".iso", ".bin", ".chd")));
    v.push(Platform::new("ps3", "PlayStation 3", strs2(".iso", ".pkg")));
    v.push(Platform::new("psp", "PlayStation Portable", strs3(".iso", ".cso", ".pbp")));
    v.push(Platform::new("psvita", "PlayStation Vita", strs1(".vpk")));
    v.push(Platform::new("genesis", "Sega Genesis", strs4(".md", ".gen", ".bin", ".smd")));
    v.push(Platform::new("saturn", "Sega Saturn", strs4(".iso", ".bin", ".cue", ".chd")));
    v.push(Platform::new("dreamcast", "Sega Dreamcast", strs3(".gdi", ".cdi", ".chd")));
    v.push(Platform::new("xbox", "Xbox", strs2(".iso", ".xiso")));
    v.push(Platform::new("xbox360", "Xbox 360", strs2(".iso", ".xex")));
    v.push(Platform::new("arcade", "Arcade", strs1(".zip")));
    v.push(Platform::new("pc", "PC Games", strs1(".exe")));
    assert(platform_views(v@) =~= default_platform_table());
    v
}

/// The id of the first platform in `t` whose extensions include `ext`.
pub open spec fn first_platform_with(t: Seq<PlatformView>, ext: Seq<char>) -> Option<Seq<char>>
    decreases t.len(),
{
    if t.len() == 0 {
        None
    } else if t[0].extensions.contains(ext) {
        Some(t[0].id)
    } else {
        first_platform_with(t.drop_first(), ext)
    }
}

/// The id of the first built-in platform that lists the already lowercased
/// extension `ext_lower` (with its leading dot), if any.
pub fn platform_for_lowercase_extension(ext_lower: &str) -> (r: Option<String>)
    ensures
        opt_view(r) == first_platform_with(default_platform_table(), ext_lower@),
{
    let platforms = default_platforms();
    let ghost t = platform_views(platforms@);
    let mut i: usize = 0;
    assert(t.skip(0) =~= t);
    while i < platforms.len()
        invariant
            t == platform_views(platforms@),
            t == default_platform_table(),
            i <= platforms.len(),
            first_platform_with(t, ext_lower@) == first_platform_with(t.skip(i as int), ext_lower@),
        decreases platforms.len() - i,
    {
        assert(t.skip(i as int)[0] == t[i as int]);
        assert(t.skip(i as int).drop_first() =~= t.skip(i + 1));
        if contains_string(&platforms[i].extensions, ext_lower) {
            return Some(copy_string(&platforms[i].id));
        }
        i = i + 1;
    }
    None
}

/// The id of the first built-in platform whose extensions include `ext`
/// (with its leading dot) once lowercased, if any.
pub fn detect_platform_by_extension(ext: &str) -> (r: Option<String>)
    ensures
        opt_view(r) == first_platform_with(default_platform_table(), lowercase(ext@)),
{
    let ext_lower = to_lowercase(ext);
    platform_for_lowercase_extension(ext_lower.as_str())
}

} // verus!
