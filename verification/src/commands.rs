//! The decisions behind the launcher's commands: what each command
//! computes from the data the app reads and before what it writes.

use vstd::prelude::*;
use vstd::string::*;

use crate::config::{emulator_path_of, get_emulator_path_from_config, has_path_entry, set_emulator_path, EmulatorPaths};
use crate::cores::is_core_installed;
use crate::detection::DetectedEmulator;
use crate::github::{asset_matches, find_matching_asset, first_set, pattern_compiles, GitHubRelease};
use crate::launcher::{launch_error_message, LaunchResult};
use crate::models::emulator::{retroarch_core_for, retroarch_core_of};
use crate::models::platform::{Platform, PlatformView};
use crate::text::{copy_string, decimal, decimal_string, str_eq, str_views, strs0, strs1, strs2, strs3};

verus! {

/// The error a command reports.
#[derive(Debug, Clone)]
pub struct CommandError {
    pub message: String,
}

/// An emulator found on disk, as the detection command reports it.
#[derive(Debug, Clone)]
pub struct DetectedEmulatorInfo {
    pub id: String,
    pub name: String,
    pub path: String,
}

/// What the emulator list shows of one emulator.
#[derive(Debug, Clone)]
pub struct EmulatorInfo {
    pub id: String,
    pub name: String,
    pub is_installed: bool,
    pub installed_path: Option<String>,
    pub has_download: bool,
    pub github_repo: Option<String>,
    pub download_url: Option<String>,
    pub supported_platforms: Vec<String>,
    pub is_retroarch: bool,
}

/// A platform that has games but whose RetroArch core is not installed.
#[derive(Debug, Clone)]
pub struct MissingCore {
    pub platform_id: String,
    pub platform_name: String,
    pub core_filename: String,
}

/// The detection results as the detection command reports them.
pub fn detected_emulator_infos(detected: &Vec<DetectedEmulator>) -> (r: Vec<DetectedEmulatorInfo>)
    ensures
        r.len() == detected.len(),
        forall|i: int|
            0 <= i < r.len() ==> {
                &&& (#[trigger] r@[i]).id@ == detected@[i].id@
                &&& r@[i].name@ == detected@[i].name@
                &&& r@[i].path@ == detected@[i].path@
            },
{
    let mut r: Vec<DetectedEmulatorInfo> = Vec::new();
    let mut i: usize = 0;
    while i < detected.len()
        invariant
            i <= detected.len(),
            r.len() == i,
            forall|j: int|
                0 <= j < i ==> {
                    &&& (#[trigger] r@[j]).id@ == detected@[j].id@
                    &&& r@[j].name@ == detected@[j].name@
                    &&& r@[j].path@ == detected@[j].path@
                },
        decreases detected.len() - i,
    {
        let d = &detected[i];
        r.push(DetectedEmulatorInfo { id: copy_string(&d.id), name: copy_string(&d.name), path: copy_string(&d.path) });
        i = i + 1;
    }
    r
}

/// The executable file names an installed emulator `id` may have, most
/// likely first.
pub open spec fn exe_names_of(id: Seq<char>) -> Seq<Seq<char>> {
    if id == "retroarch"@ {
        seq!["retroarch.exe"@, "RetroArch.exe"@]
    } else if id == "dolphin"@ {
        seq!["Dolphin.exe"@]
    } else if id == "pcsx2"@ {
        seq!["pcsx2-qt.exe"@, "pcsx2.exe"@, "pcsx2-qtx64.exe"@]
    } else if id == "rpcs3"@ {
        seq!["rpcs3.exe"@]
    } else if id == "ppsspp"@ {
        seq!["PPSSPPWindows64.exe"@, "PPSSPPWindows.exe"@]
    } else if id == "duckstation"@ {
        seq!["duckstation-qt-x64-ReleaseLTCG.exe"@, "duckstation-nogui-x64-ReleaseLTCG.exe"@]
    } else if id == "cemu"@ {
        seq!["Cemu.exe"@]
    } else if id == "ryujinx"@ {
        seq!["Ryujinx.exe"@]
    } else if id == "citra"@ {
        seq!["lime3ds-gui.exe"@, "lime3ds.exe"@, "citra-qt.exe"@]
    } else if id == "melonds"@ {
        seq!["melonDS.exe"@]
    } else if id == "mgba"@ {
        seq!["mGBA.exe"@]
    } else if id == "flycast"@ {
        seq!["flycast.exe"@]
    } else if id == "xemu"@ {
        seq!["xemu.exe"@]
    } else if id == "xenia"@ {
        seq!["xenia_canary.exe"@, "xenia.exe"@]
    } else if id == "mame"@ {
        seq!["mame.exe"@, "mame64.exe"@]
    } else {
        seq![]
    }
}

/// The executable file names an installed emulator `id` may have.
pub fn get_exe_names(id: &str) -> (r: Vec<&'static str>)
    ensures
        str_views(r@) == exe_names_of(id@),
{
    if str_eq(id, "retroarch") {
        strs2("retroarch.exe", "RetroArch.exe")
    } else if str_eq(id, "dolphin") {
        strs1("Dolphin.exe")
    } else if str_eq(id, "pcsx2") {
        strs3("pcsx2-qt.exe", "pcsx2.exe", "pcsx2-qtx64.exe")
    } else if str_eq(id, "rpcs3") {
        strs1("rpcs3.exe")
    } else if str_eq(id, "ppsspp") {
        strs2("PPSSPPWindows64.exe", "PPSSPPWindows.exe")
    } else if str_eq(id, "duckstation") {
        strs2("duckstation-qt-x64-ReleaseLTCG.exe", "duckstation-nogui-x64-ReleaseLTCG.exe")
    } else if str_eq(id, "cemu") {
        strs1("Cemu.exe")
    } else if str_eq(id, "ryujinx") {
        strs1("Ryujinx.exe")
    } else if str_eq(id, "citra") {
        strs3("lime3ds-gui.exe", "lime3ds.exe", "citra-qt.exe")
    } else if str_eq(id, "melonds") {
        strs1("melonDS.exe")
    } else if str_eq(id, "mgba") {
        strs1("mGBA.exe")
    } else if str_eq(id, "flycast") {
        strs1("flycast.exe")
    } else if str_eq(id, "xemu") {
        strs1("xemu.exe")
    } else if str_eq(id, "xenia") {
        strs2("xenia_canary.exe", "xenia.exe")
    } else if str_eq(id, "mame") {
        strs2("mame.exe", "mame64.exe")
    } else {
        strs0()
    }
}

/// The path of emulator `x` after the detected emulators `ds` (as id and
/// path) are applied in order to the paths `p`: a path already set stays,
/// an unset one takes the first detected path of that emulator.
pub open spec fn applied_path(p: EmulatorPaths, ds: Seq<(Seq<char>, Seq<char>)>, x: Seq<char>) -> Option<Seq<char>>
    decreases ds.len(),
{
    if ds.len() == 0 {
        emulator_path_of(p, x)
    } else {
        let prev = applied_path(p, ds.drop_last(), x);
        if prev is None && ds.last().0 == x && has_path_entry(x) {
            Some(ds.last().1)
        } else {
            prev
        }
    }
}

/// How many of the detected emulators `ds` found their emulator without a
/// path when they were applied in order to `p`.
pub open spec fn applied_count(p: EmulatorPaths, ds: Seq<(Seq<char>, Seq<char>)>) -> int
    decreases ds.len(),
{
    if ds.len() == 0 {
        0
    } else {
        applied_count(p, ds.drop_last()) + if applied_path(p, ds.drop_last(), ds.last().0) is None {
            1int
        } else {
            0int
        }
    }
}

/// The detected emulators as (id, path).
pub open spec fn detected_pairs(ds: Seq<DetectedEmulator>) -> Seq<(Seq<char>, Seq<char>)> {
    ds.map_values(|d: DetectedEmulator| (d.id@, d.path@))
}

/// Gives each detected emulator's path to its emulator when the
/// configuration has no path for it yet, and returns how many detected
/// emulators found no path set.
pub fn apply_detected_paths(config: &mut EmulatorPaths, detected: &Vec<DetectedEmulator>) -> (count: i32)
    requires
        detected.len() <= i32::MAX,
    ensures
        forall|x: Seq<char>|
            #[trigger] emulator_path_of(*final(config), x) == applied_path(*old(config), detected_pairs(detected@), x),
        count == applied_count(*old(config), detected_pairs(detected@)),
{
    let ghost p0 = *config;
    let ghost ds = detected_pairs(detected@);
    let mut count: i32 = 0;
    let mut i: usize = 0;
    while i < detected.len()
        invariant
            i <= detected.len(),
            detected.len() <= i32::MAX,
            ds == detected_pairs(detected@),
            forall|x: Seq<char>| #[trigger] emulator_path_of(*config, x) == applied_path(p0, ds.take(i as int), x),
            count == applied_count(p0, ds.take(i as int)),
        decreases detected.len() - i,
    {
        let d = &detected[i];
        assert(ds.take(i + 1).drop_last() =~= ds.take(i as int));
        assert(ds.take(i + 1).last() == (d.id@, d.path@));
        proof {
            crate::laws::law_detection_count_bound(p0, ds.take(i as int));
        }
        let current = get_emulator_path_from_config(config, d.id.as_str());
        if current.is_none() {
            set_emulator_path(config, d.id.as_str(), copy_string(&d.path));
            count = count + 1;
        }
        i = i + 1;
    }
    assert(ds.take(i as int) =~= ds);
    count
}

/// The platforms of a list of (platform, game count) pairs.
pub open spec fn platforms_of(ps: Seq<(Platform, i32)>) -> Seq<PlatformView> {
    ps.map_values(|x: (Platform, i32)| x.0@)
}

/// The model of a missing core: (platform id, platform name, core file).
pub open spec fn missing_view(m: MissingCore) -> (Seq<char>, Seq<char>, Seq<char>) {
    (m.platform_id@, m.platform_name@, m.core_filename@)
}

/// The platforms of `ps` that have a RetroArch core whose flag in
/// `installed` is not set, with their core, in order.
pub open spec fn missing_cores_of(ps: Seq<PlatformView>, installed: Seq<bool>) -> Seq<(Seq<char>, Seq<char>, Seq<char>)>
    decreases ps.len(),
{
    if ps.len() == 0 {
        seq![]
    } else {
        let r = missing_cores_of(ps.drop_last(), installed.take(ps.len() - 1));
        let p = ps.last();
        match retroarch_core_of(p.id) {
            Some(core) => if !installed[ps.len() - 1] {
                r.push((p.id, p.name, core))
            } else {
                r
            },
            None => r,
        }
    }
}

/// The platforms of `platforms_with_games` whose RetroArch core is missing,
/// given for each platform whether its core is installed.
pub fn missing_cores_given(platforms_with_games: &Vec<(Platform, i32)>, installed: &Vec<bool>) -> (r: Vec<MissingCore>)
    requires
        installed.len() == platforms_with_games.len(),
    ensures
        r@.map_values(|m: MissingCore| missing_view(m)) == missing_cores_of(platforms_of(platforms_with_games@), installed@),
{
    let ghost ps = platforms_of(platforms_with_games@);
    let mut r: Vec<MissingCore> = Vec::new();
    let mut i: usize = 0;
    while i < platforms_with_games.len()
        invariant
            i <= platforms_with_games.len(),
            installed.len() == platforms_with_games.len(),
            ps == platforms_of(platforms_with_games@),
            r@.map_values(|m: MissingCore| missing_view(m)) == missing_cores_of(ps.take(i as int), installed@.take(i as int)),
        decreases platforms_with_games.len() - i,
    {
        let platform = &platforms_with_games[i].0;
        assert(ps.take(i + 1).drop_last() =~= ps.take(i as int));
        assert(ps.take(i + 1).last() == platform@);
        assert(installed@.take(i + 1).take(i as int) =~= installed@.take(i as int));
        assert(installed@.take(i + 1)[i as int] == installed@[i as int]);
        let ghost before = r@;
        if let Some(core) = retroarch_core_for(platform.id.as_str()) {
            if !installed[i] {
                r.push(MissingCore {
                    platform_id: copy_string(&platform.id),
                    platform_name: copy_string(&platform.name),
                    core_filename: core,
                });
                assert(r@.map_values(|m: MissingCore| missing_view(m)) =~= before.map_values(
                    |m: MissingCore| missing_view(m),
                ).push((platform.id@, platform.name@, retroarch_core_of(platform.id@).unwrap())));
            }
        }
        i = i + 1;
    }
    assert(ps.take(i as int) =~= ps);
    assert(installed@.take(i as int) =~= installed@);
    r
}

/// The platforms of `platforms_with_games` whose RetroArch core is not
/// installed next to the RetroArch executable at `retroarch_path`; with no
/// RetroArch path, every platform that has a core. Which cores are on disk
/// is not known here: the result is the one for some such answer.
pub fn get_missing_cores(platforms_with_games: &Vec<(Platform, i32)>, retroarch_path: &Option<String>) -> (r: Vec<MissingCore>)
    ensures
        exists|installed: Seq<bool>| {
            &&& installed.len() == platforms_with_games.len()
            &&& retroarch_path is None ==> forall|i: int| 0 <= i < installed.len() ==> !installed[i]
            &&& forall|i: int|
                0 <= i < installed.len() && #[trigger] installed[i] ==> retroarch_path is Some && retroarch_core_of(
                    platforms_with_games@[i].0.id@,
                ) is Some
            &&& #[trigger] missing_cores_of(platforms_of(platforms_with_games@), installed) == r@.map_values(
                |m: MissingCore| missing_view(m),
            )
        },
{
    let mut installed: Vec<bool> = Vec::new();
    let mut i: usize = 0;
    while i < platforms_with_games.len()
        invariant
            i <= platforms_with_games.len(),
            installed.len() == i,
            forall|j: int|
                0 <= j < i && #[trigger] installed@[j] ==> retroarch_path is Some && retroarch_core_of(
                    platforms_with_games@[j].0.id@,
                ) is Some,
        decreases platforms_with_games.len() - i,
    {
        let flag = match (retroarch_core_for(platforms_with_games[i].0.id.as_str()), retroarch_path) {
            (Some(core), Some(path)) => is_core_installed(path.as_str(), core.as_str()),
            _ => false,
        };
        installed.push(flag);
        i = i + 1;
    }
    let r = missing_cores_given(platforms_with_games, &installed);
    assert(missing_cores_of(platforms_of(platforms_with_games@), installed@) == r@.map_values(
        |m: MissingCore| missing_view(m),
    ));
    r
}

/// What a finished launch reports: how long the game was played, or the
/// launch's error message.
pub open spec fn launch_report_of(r: LaunchResult) -> Result<Seq<char>, Seq<char>> {
    match r {
        LaunchResult::Success { duration_minutes, .. } => Ok(
            "Played for "@ + decimal(duration_minutes as int) + " minutes"@,
        ),
        _ => Err(
            match launch_error_message(r) {
                Some(m) => m,
                None => "Unknown error"@,
            },
        ),
    }
}

/// What the launch command answers for a launch result.
pub fn launch_report(result: &LaunchResult) -> (r: Result<String, CommandError>)
    ensures
        match r {
            Ok(s) => launch_report_of(*result) == Ok::<Seq<char>, Seq<char>>(s@),
            Err(e) => launch_report_of(*result) == Err::<Seq<char>, Seq<char>>(e.message@),
        },
{
    match result {
        LaunchResult::Success { duration_minutes, .. } => {
            let mut s = String::from_str("Played for ");
            let n = decimal_string(*duration_minutes);
            s.append(n.as_str());
            s.append(" minutes");
            Ok(s)
        },
        _ => {
            let message = match result.error_message() {
                Some(m) => m,
                None => String::from_str("Unknown error"),
            };
            Err(CommandError { message })
        },
    }
}

/// The first detected emulator in `ds` with the id `id`, if any.
pub open spec fn first_detected(ds: Seq<DetectedEmulator>, id: Seq<char>) -> Option<DetectedEmulator>
    decreases ds.len(),
{
    if ds.len() == 0 {
        None
    } else if ds[0].id@ == id {
        Some(ds[0])
    } else {
        first_detected(ds.drop_first(), id)
    }
}

fn find_detected<'a>(detected: &'a Vec<DetectedEmulator>, id: &str) -> (r: Option<&'a DetectedEmulator>)
    ensures
        r == match first_detected(detected@, id@) {
            Some(d) => Some(&d),
            None => None::<&DetectedEmulator>,
        },
{
    let ghost t = detected@;
    let mut i: usize = 0;
    assert(t.skip(0) =~= t);
    while i < detected.len()
        invariant
            t == detected@,
            i <= detected.len(),
            first_detected(t, id@) == first_detected(t.skip(i as int), id@),
        decreases detected.len() - i,
    {
        assert(t.skip(i as int)[0] == t[i as int]);
        assert(t.skip(i as int).drop_first() =~= t.skip(i + 1));
        if str_eq(detected[i].id.as_str(), id) {
            return Some(&detected[i]);
        }
        i = i + 1;
    }
    None
}

/// The RetroArch executable to work with: the configured one, else the
/// first RetroArch the detection found.
pub fn retroarch_path_or_detected(configured: &Option<String>, detected: &Vec<DetectedEmulator>) -> (r: Option<String>)
    ensures
        crate::text::opt_view(r) == match configured {
            Some(p) => Some(p@),
            None => match first_detected(detected@, "retroarch"@) {
                Some(d) => Some(d.path@),
                None => None,
            },
        },
{
    match configured {
        Some(p) => Some(copy_string(p)),
        None => match find_detected(detected, "retroarch") {
            Some(d) => Some(copy_string(&d.path)),
            None => None,
        },
    }
}

/// `info` is what the emulator list shows of the emulator `emu` under the
/// detection reports `detected` and the download sources `github_repo` and
/// `download_url`.
pub open spec fn is_info_of(
    info: EmulatorInfo,
    emu: crate::models::emulator::EmulatorView,
    detected: Seq<DetectedEmulator>,
    github_repo: Option<String>,
    download_url: Option<String>,
) -> bool {
    &&& info.id@ == emu.id
    &&& info.name@ == emu.name
    &&& info.is_installed == first_detected(detected, emu.id) is Some
    &&& crate::text::opt_view(info.installed_path) == match first_detected(detected, emu.id) {
        Some(d) => Some(d.path@),
        None => None,
    }
    &&& info.has_download == (github_repo is Some || download_url is Some)
    &&& crate::text::opt_view(info.github_repo) == crate::text::opt_view(github_repo)
    &&& crate::text::opt_view(info.download_url) == crate::text::opt_view(download_url)
    &&& crate::text::views(info.supported_platforms@) == emu.supported_platforms
    &&& info.is_retroarch == emu.is_retroarch
}

/// What the emulator list shows of `emu`: installed when the detection
/// found it (at the first place found), and downloadable when it has a
/// GitHub repository or a download address.
pub fn emulator_info(
    emu: &crate::models::emulator::Emulator,
    detected: &Vec<DetectedEmulator>,
    github_repo: Option<String>,
    download_url: Option<String>,
) -> (info: EmulatorInfo)
    ensures
        info.id@ == emu.id@,
        info.name@ == emu.name@,
        info.is_installed == first_detected(detected@, emu.id@) is Some,
        crate::text::opt_view(info.installed_path) == match first_detected(detected@, emu.id@) {
            Some(d) => Some(d.path@),
            None => None,
        },
        info.has_download == (github_repo is Some || download_url is Some),
        info.github_repo == github_repo,
        info.download_url == download_url,
        crate::text::views(info.supported_platforms@) == crate::text::views(emu.supported_platforms@),
        info.is_retroarch == emu.is_retroarch,
        is_info_of(info, emu@, detected@, github_repo, download_url),
{
    let found = find_detected(detected, emu.id.as_str());
    let has_download = github_repo.is_some() || download_url.is_some();
    EmulatorInfo {
        id: copy_string(&emu.id),
        name: copy_string(&emu.name),
        is_installed: found.is_some(),
        installed_path: match found {
            Some(d) => Some(copy_string(&d.path)),
            None => None,
        },
        has_download,
        github_repo,
        download_url,
        supported_platforms: crate::text::copy_strings(&emu.supported_platforms),
        is_retroarch: emu.is_retroarch,
    }
}


/// The emulator list: what it shows of each built-in emulator, in table
/// order, under the detection reports `detected`, where
/// `download_sources[k]` is the GitHub repository and the download address
/// of the `k`-th built-in emulator.
pub fn get_all_emulators(
    detected: &Vec<DetectedEmulator>,
    download_sources: &Vec<(Option<String>, Option<String>)>,
) -> (r: Vec<EmulatorInfo>)
    requires
        download_sources.len() == crate::models::emulator::default_emulator_table().len(),
    ensures
        r.len() == crate::models::emulator::default_emulator_table().len(),
        forall|k: int|
            0 <= k < r.len() ==> is_info_of(
                #[trigger] r@[k],
                crate::models::emulator::default_emulator_table()[k],
                detected@,
                download_sources@[k].0,
                download_sources@[k].1,
            ),
{
    let ghost t = crate::models::emulator::default_emulator_table();
    let emulators = crate::models::emulator::default_emulators();
    let mut r: Vec<EmulatorInfo> = Vec::new();
    let mut k: usize = 0;
    while k < emulators.len()
        invariant
            crate::models::emulator::emulator_views(emulators@) == t,
            download_sources.len() == t.len(),
            k <= t.len(),
            r.len() == k,
            forall|i: int|
                0 <= i < k ==> is_info_of(#[trigger] r@[i], t[i], detected@, download_sources@[i].0, download_sources@[i].1),
        decreases emulators.len() - k,
    {
        assert(crate::models::emulator::emulator_views(emulators@)[k as int] == emulators@[k as int]@);
        let (github_repo, download_url) = &download_sources[k];
        let info = emulator_info(
            &emulators[k],
            detected,
            crate::text::copy_opt_string(github_repo),
            crate::text::copy_opt_string(download_url),
        );
        r.push(info);
        k = k + 1;
    }
    r
}

/// The last step of an emulator download: when the emulator's executable
/// was found in the install directory at `exe_path`, it becomes the
/// configured path of `emulator_id` and is what the download answers;
/// otherwise the configuration stays as it is and the answer is the
/// install directory.
pub fn finish_emulator_download(
    paths: &mut EmulatorPaths,
    emulator_id: &str,
    install_dir: &str,
    exe_path: Option<String>,
) -> (answer: String)
    ensures
        answer@ == match exe_path {
            Some(p) => p@,
            None => install_dir@,
        },
        forall|x: Seq<char>| #[trigger] emulator_path_of(*final(paths), x) == match exe_path {
            Some(p) => if x == emulator_id@ && has_path_entry(emulator_id@) {
                Some(p@)
            } else {
                emulator_path_of(*old(paths), x)
            },
            None => emulator_path_of(*old(paths), x),
        },
{
    match exe_path {
        Some(p) => {
            let answer = copy_string(&p);
            set_emulator_path(paths, emulator_id, p);
            answer
        },
        None => String::from_str(install_dir),
    }
}

/// Where an emulator is downloaded from.
#[derive(Debug, Clone)]
pub enum DownloadSource {
    /// The latest release of a GitHub repository, taking the first asset
    /// whose name matches the pattern.
    GitHub { repo: String, asset_pattern: String },
    /// A fixed address.
    Direct { url: String },
}

/// Where the emulator `emulator_id` is downloaded from: its GitHub
/// repository (with its asset pattern, or any asset), else its download
/// address; an error when it has neither.
pub fn download_source(
    emulator_id: &str,
    github_repo: &Option<String>,
    asset_pattern: &Option<String>,
    download_url: &Option<String>,
) -> (r: Result<DownloadSource, CommandError>)
    ensures
        match r {
            Ok(DownloadSource::GitHub { repo, asset_pattern: p }) => {
                &&& (github_repo matches Some(g) && repo@ == g@)
                &&& p@ == match asset_pattern {
                    Some(a) => a@,
                    None => ".*"@,
                }
            },
            Ok(DownloadSource::Direct { url }) => github_repo is None && (download_url matches Some(u) && url@ == u@),
            Err(e) => github_repo is None && download_url is None && e.message@ == "No download source for "@
                + emulator_id@,
        },
{
    if let Some(repo) = github_repo {
        let pattern = match asset_pattern {
            Some(a) => copy_string(a),
            None => String::from_str(".*"),
        };
        return Ok(DownloadSource::GitHub { repo: copy_string(repo), asset_pattern: pattern });
    }
    if let Some(url) = download_url {
        return Ok(DownloadSource::Direct { url: copy_string(url) });
    }
    Err(CommandError { message: String::from_str("No download source for ").concat(emulator_id) })
}

/// The built-in emulator with the id `emulator_id`, or the error naming it
/// as unknown.
pub fn find_emulator<'a>(emulators: &'a Vec<crate::models::emulator::Emulator>, emulator_id: &str) -> (r: Result<
    &'a crate::models::emulator::Emulator,
    CommandError,
>)
    ensures
        match r {
            Ok(e) => e.id@ == emulator_id@ && exists|i: int|
                0 <= i < emulators.len() && emulators@[i] == *e && forall|j: int|
                    0 <= j < i ==> (#[trigger] emulators@[j]).id@ != emulator_id@,
            Err(err) => (forall|i: int| 0 <= i < emulators.len() ==> (#[trigger] emulators@[i]).id@ != emulator_id@)
                && err.message@ == "Unknown emulator: "@ + emulator_id@,
        },
{
    let mut i: usize = 0;
    while i < emulators.len()
        invariant
            i <= emulators.len(),
            forall|j: int| 0 <= j < i ==> (#[trigger] emulators@[j]).id@ != emulator_id@,
        decreases emulators.len() - i,
    {
        if str_eq(emulators[i].id.as_str(), emulator_id) {
            return Ok(&emulators[i]);
        }
        i = i + 1;
    }
    Err(CommandError { message: String::from_str("Unknown emulator: ").concat(emulator_id) })
}

/// The download address of the asset of `release` that `pattern` picks for
/// the emulator `emulator_id`, or the error saying none matched.
pub fn release_asset_url(release: &GitHubRelease, pattern: &str, emulator_id: &str) -> (r: Result<String, CommandError>)
    ensures
        match r {
            Ok(url) => pattern_compiles(pattern@) && ({
                let k = first_set(asset_matches(release.assets@, pattern@), 0);
                k < release.assets.len() && url@ == release.assets@[k].browser_download_url@
            }),
            Err(e) => (!pattern_compiles(pattern@) || first_set(asset_matches(release.assets@, pattern@), 0)
                == release.assets.len()) && e.message@ == "No matching asset found for "@ + emulator_id@
                + " in release "@ + release.tag_name@,
        },
{
    proof {
        crate::laws::law_first_set(asset_matches(release.assets@, pattern@), 0);
    }
    match find_matching_asset(release, pattern) {
        Some(asset) => Ok(copy_string(&asset.browser_download_url)),
        None => {
            let mut message = String::from_str("No matching asset found for ");
            message.append(emulator_id);
            message.append(" in release ");
            message.append(release.tag_name.as_str());
            Err(CommandError { message })
        },
    }
}

/// The name the downloaded archive of `emulator_id` is saved under: the id
/// with the archive format as extension, `zip` when none is known.
pub fn archive_file_name(emulator_id: &str, archive_format: &Option<String>) -> (name: String)
    ensures
        name@ == emulator_id@ + "."@ + match archive_format {
            Some(f) => f@,
            None => "zip"@,
        },
{
    let mut name = String::from_str(emulator_id);
    name.append(".");
    match archive_format {
        Some(f) => name.append(f.as_str()),
        None => name.append("zip"),
    }
    name
}

/// Whether a downloaded archive is unpacked: it has a known format other
/// than a bare executable.
pub fn needs_extraction(archive_format: &Option<String>) -> (b: bool)
    ensures
        b == match archive_format {
            Some(f) => f@ != "exe"@,
            None => false,
        },
{
    match archive_format {
        Some(f) => !str_eq(f.as_str(), "exe"),
        None => false,
    }
}

/// How a game list is ordered.
#[derive(Debug, Clone, Copy, PartialEq, Eq, Structural)]
pub enum GameSort {
    Name,
    LastPlayed,
    PlayCount,
    PlayTime,
    ReleaseYear,
    RecentlyAdded,
    Rating,
}

/// The order asked for by name; by game name for any other name.
pub open spec fn game_sort_named(sort_by: Option<Seq<char>>) -> GameSort {
    match sort_by {
        Some(s) => if s == "last_played"@ {
            GameSort::LastPlayed
        } else if s == "play_count"@ {
            GameSort::PlayCount
        } else if s == "play_time"@ {
            GameSort::PlayTime
        } else if s == "release_year"@ {
            GameSort::ReleaseYear
        } else if s == "recently_added"@ {
            GameSort::RecentlyAdded
        } else if s == "rating"@ {
            GameSort::Rating
        } else {
            GameSort::Name
        },
        None => GameSort::Name,
    }
}

/// The order a game list request names.
pub fn parse_game_sort(sort_by: &Option<String>) -> (s: GameSort)
    ensures
        s == game_sort_named(crate::text::opt_view(*sort_by)),
        crate::text::opt_view(*sort_by) == Some("last_played"@) ==> s == GameSort::LastPlayed,
        crate::text::opt_view(*sort_by) == Some("play_count"@) ==> s == GameSort::PlayCount,
        crate::text::opt_view(*sort_by) == Some("play_time"@) ==> s == GameSort::PlayTime,
        crate::text::opt_view(*sort_by) == Some("release_year"@) ==> s == GameSort::ReleaseYear,
        crate::text::opt_view(*sort_by) == Some("recently_added"@) ==> s == GameSort::RecentlyAdded,
        crate::text::opt_view(*sort_by) == Some("rating"@) ==> s == GameSort::Rating,
        sort_by is None ==> s == GameSort::Name,
{
    proof {
        crate::laws::law_game_sort_table();
    }
    match sort_by {
        Some(s) => {
            let s = s.as_str();
            if str_eq(s, "last_played") {
                GameSort::LastPlayed
            } else if str_eq(s, "play_count") {
                GameSort::PlayCount
            } else if str_eq(s, "play_time") {
                GameSort::PlayTime
            } else if str_eq(s, "release_year") {
                GameSort::ReleaseYear
            } else if str_eq(s, "recently_added") {
                GameSort::RecentlyAdded
            } else if str_eq(s, "rating") {
                GameSort::Rating
            } else {
                GameSort::Name
            }
        },
        None => GameSort::Name,
    }
}

/// Whether a game list in this order shows the largest or latest first:
/// by last played, play count, play time or date added.
pub fn sorts_descending(sort: GameSort) -> (b: bool)
    ensures
        b == (sort is LastPlayed || sort is PlayCount || sort is PlayTime || sort is RecentlyAdded),
{
    match sort {
        GameSort::LastPlayed | GameSort::PlayCount | GameSort::PlayTime | GameSort::RecentlyAdded => true,
        _ => false,
    }
}

} // verus!
