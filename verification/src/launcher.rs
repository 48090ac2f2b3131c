//! Choosing the emulator for a game and deciding each step of a launch.

use vstd::prelude::*;
use vstd::string::*;

use crate::config::{emulator_path_of, get_emulator_path_from_config, EmulatorPaths};
use crate::models::emulator::{
    default_emulator_table, default_emulators, emulator_views, retroarch_core_for,
    retroarch_core_of, Emulator, EmulatorConfig, EmulatorView,
};
use crate::models::emulator::launch_args_for;
use crate::paths::path_exists;
use crate::text::{contains_string, copy_string, opt_view, views};

verus! {

/// The first index from `i` on of an emulator in `t` with the id `id`,
/// or `t.len()` when there is none.
pub open spec fn first_with_id(t: Seq<EmulatorView>, id: Seq<char>, i: int) -> int
    decreases t.len() - i,
{
    if i < 0 || i >= t.len() {
        t.len() as int
    } else if t[i].id == id {
        i
    } else {
        first_with_id(t, id, i + 1)
    }
}

/// The first index from `i` on of an emulator in `t` that runs `platform`
/// and has a configured path, or `t.len()` when there is none.
pub open spec fn first_usable(t: Seq<EmulatorView>, paths: EmulatorPaths, platform: Seq<char>, i: int) -> int
    decreases t.len() - i,
{
    if i < 0 || i >= t.len() {
        t.len() as int
    } else if supports_platform(t[i], platform) && emulator_path_of(paths, t[i].id) is Some {
        i
    } else {
        first_usable(t, paths, platform, i + 1)
    }
}

/// The platforms an emulator runs include `platform`, or it runs every
/// platform (`*`).
pub open spec fn supports_platform(e: EmulatorView, platform: Seq<char>) -> bool {
    e.supported_platforms.contains(platform) || e.supported_platforms.contains("*"@)
}

/// A built-in emulator set up to run a game of `platform`: its configured
/// path and, for RetroArch, the platform's core when the table has one.
pub open spec fn set_up_for(e: EmulatorView, paths: EmulatorPaths, platform: Seq<char>) -> EmulatorView {
    EmulatorView {
        executable_path: emulator_path_of(paths, e.id),
        core_name: if e.is_retroarch && retroarch_core_of(platform) is Some {
            retroarch_core_of(platform)
        } else {
            e.core_name
        },
        ..e
    }
}

/// The emulator a game of `platform` is started with. An emulator chosen
/// for the game or its platform wins when it is a built-in one (with its
/// configured path and the chosen core, even if no path is configured).
/// Otherwise it is the first built-in emulator that runs the platform and
/// has a configured path, set up for the platform; `None` when there is none.
pub open spec fn resolved_emulator(
    paths: EmulatorPaths,
    platform: Seq<char>,
    chosen: Option<(Seq<char>, Option<Seq<char>>)>,
) -> Option<EmulatorView> {
    let t = default_emulator_table();
    let n = t.len() as int;
    let o = match chosen {
        Some(c) => first_with_id(t, c.0, 0),
        None => n,
    };
    let u = first_usable(t, paths, platform, 0);
    if o < n {
        Some(EmulatorView {
            executable_path: emulator_path_of(paths, t[o].id),
            core_name: chosen.unwrap().1,
            ..t[o]
        })
    } else if u < n {
        Some(set_up_for(t[u], paths, platform))
    } else {
        None
    }
}

/// The choice a stored emulator configuration makes: the emulator's id and
/// the core to use.
pub open spec fn chosen_of(c: Option<EmulatorConfig>) -> Option<(Seq<char>, Option<Seq<char>>)> {
    match c {
        Some(c) => Some((c.emulator_id@, opt_view(c.core_name))),
        None => None,
    }
}

/// Why no emulator could be chosen.
#[derive(Debug, Clone)]
pub enum ResolveError {
    NoEmulatorConfigured { platform: String },
}

impl ResolveError {
    /// The message shown for this error.
    pub fn message(&self) -> (m: String)
        ensures
            m@ == match self {
                ResolveError::NoEmulatorConfigured { platform } => "No emulator configured for platform: "@
                    + platform@,
            },
    {
        match self {
            ResolveError::NoEmulatorConfigured { platform } => String::from_str(
                "No emulator configured for platform: ",
            ).concat(platform.as_str()),
        }
    }
}

/// Starts emulators with the paths the configuration gives them.
pub struct EmulatorLauncher {
    pub config: EmulatorPaths,
}

impl EmulatorLauncher {
    /// A launcher working from the given emulator paths.
    pub fn new(config: EmulatorPaths) -> (l: EmulatorLauncher)
        ensures
            l.config == config,
    {
        EmulatorLauncher { config }
    }

    /// The configured path of the emulator `emulator_id`.
    pub fn get_emulator_path(&self, emulator_id: &str) -> (r: Option<String>)
        ensures
            opt_view(r) == emulator_path_of(self.config, emulator_id@),
    {
        get_emulator_path_from_config(&self.config, emulator_id)
    }

    /// The emulator to start a game of `platform_id` with, given the
    /// emulator configuration stored for the game or its platform, if any.
    pub fn resolve_emulator(&self, platform_id: &str, configured: Option<EmulatorConfig>) -> (r: Result<
        Emulator,
        ResolveError,
    >)
        ensures
            match r {
                Ok(e) => resolved_emulator(self.config, platform_id@, chosen_of(configured)) == Some(e@),
                Err(ResolveError::NoEmulatorConfigured { platform }) => {
                    &&& resolved_emulator(self.config, platform_id@, chosen_of(configured)) is None
                    &&& platform@ == platform_id@
                },
            },
    {
        let ghost t = default_emulator_table();
        let ghost n = t.len() as int;
        let ghost chosen = chosen_of(configured);
        if let Some(config) = configured {
            let mut emulators = default_emulators();
            let mut k: usize = 0;
            while k < emulators.len()
                invariant
                    emulator_views(emulators@) == t,
                    t == default_emulator_table(),
                    n == t.len(),
                    k <= n,
                    first_with_id(t, config.emulator_id@, 0) == first_with_id(t, config.emulator_id@, k as int),
                    chosen == chosen_of(configured),
                    chosen == Some((config.emulator_id@, opt_view(config.core_name))),
                decreases emulators.len() - k,
            {
                assert(emulator_views(emulators@)[k as int] == emulators@[k as int]@);
                if crate::text::str_eq(emulators[k].id.as_str(), config.emulator_id.as_str()) {
                    let mut emu = emulators.remove(k);
                    assert(emu@ == t[k as int]);
                    emu.executable_path = self.get_emulator_path(emu.id.as_str());
                    emu.core_name = config.core_name;
                    
                    return Ok(emu);
                }
                k = k + 1;
            }
        }
        let mut emulators = default_emulators();
        let mut k: usize = 0;
        while k < emulators.len()
            invariant
                emulator_views(emulators@) == t,
                    t == default_emulator_table(),
                n == t.len(),
                k <= n,
                chosen == chosen_of(configured),
                chosen is Some ==> first_with_id(t, chosen.unwrap().0, 0) == n,
                first_usable(t, self.config, platform_id@, 0) == first_usable(t, self.config, platform_id@, k as int),
            decreases emulators.len() - k,
        {
            assert(emulator_views(emulators@)[k as int] == emulators@[k as int]@);
            if contains_string(&emulators[k].supported_platforms, platform_id)
                || contains_string(&emulators[k].supported_platforms, "*")
            {
                let path = self.get_emulator_path(emulators[k].id.as_str());
                let core = if emulators[k].is_retroarch {
                    retroarch_core_for(platform_id)
                } else {
                    None
                };
                if path.is_some() {
                    assert(first_usable(t, self.config, platform_id@, k as int) == k);
                    let mut emu = emulators.remove(k);
                    assert(emu@ == t[k as int]);
                    emu.executable_path = path;
                    if let Some(c) = core {
                        emu.core_name = Some(c);
                    }
                    assert(emu@ == set_up_for(t[k as int], self.config, platform_id@));
                    return Ok(emu);
                }
            }
            k = k + 1;
        }
        // RetroArch runs every platform, so it was tried above; with no
        // path configured for it there is nothing left to fall back on.
        assert(t[0].supported_platforms.contains("*"@)) by {
            assert(t[0].supported_platforms[0] == "*"@);
        }
        let retroarch_path = self.get_emulator_path("retroarch");
        if retroarch_path.is_some() {
            let mut emu = emulators.remove(0);
            emu.executable_path = retroarch_path;
            if let Some(c) = retroarch_core_for(platform_id) {
                emu.core_name = Some(c);
            }
            return Ok(emu);
        }
        Err(ResolveError::NoEmulatorConfigured { platform: String::from_str(platform_id) })
    }
}

/// An emulator `e` offered for a platform: it carries its configured path,
/// and counts as installed only when it was found at that path.
pub open spec fn offered(e: EmulatorView, paths: EmulatorPaths, installed: bool) -> EmulatorView {
    EmulatorView { executable_path: emulator_path_of(paths, e.id), is_installed: installed, ..e }
}

/// The first `k` built-in emulators of `t` that run `platform`, in order,
/// each offered with its configured path in `paths`, and counted installed
/// when it has a path and `exists[j]` says a file is there.
pub open spec fn offered_upto(
    t: Seq<EmulatorView>,
    exists: Seq<bool>,
    paths: EmulatorPaths,
    platform: Seq<char>,
    k: int,
) -> Seq<EmulatorView>
    decreases k,
{
    if k <= 0 {
        seq![]
    } else {
        let r = offered_upto(t, exists, paths, platform, k - 1);
        let e = t[k - 1];
        if supports_platform(e, platform) {
            r.push(offered(e, paths, emulator_path_of(paths, e.id) is Some && exists[k - 1]))
        } else {
            r
        }
    }
}

impl EmulatorLauncher {
    /// The built-in emulators that run `platform_id`, in order, each with
    /// its configured path, counted installed when it has one and
    /// `exists[k]` (one answer per built-in emulator, in table order) says
    /// a file is at it.
    pub fn available_emulators_given(&self, platform_id: &str, exists: &Vec<bool>) -> (r: Vec<Emulator>)
        requires
            exists.len() == default_emulator_table().len(),
        ensures
            emulator_views(r@) == offered_upto(
                default_emulator_table(),
                exists@,
                self.config,
                platform_id@,
                default_emulator_table().len() as int,
            ),
    {
        let ghost t = default_emulator_table();
        let emulators = default_emulators();
        let mut r: Vec<Emulator> = Vec::new();
        let mut k: usize = 0;
        while k < emulators.len()
            invariant
                emulator_views(emulators@) == t,
                t == default_emulator_table(),
                exists.len() == t.len(),
                k <= t.len(),
                emulator_views(r@) == offered_upto(t, exists@, self.config, platform_id@, k as int),
            decreases emulators.len() - k,
        {
            assert(emulator_views(emulators@)[k as int] == emulators@[k as int]@);
            if contains_string(&emulators[k].supported_platforms, platform_id)
                || contains_string(&emulators[k].supported_platforms, "*")
            {
                let mut e = emulators[k].copy();
                e.executable_path = self.get_emulator_path(e.id.as_str());
                e.is_installed = match &e.executable_path {
                    Some(_) => exists[k],
                    None => false,
                };
                let ghost before = r@;
                r.push(e);
                assert(emulator_views(r@) =~= emulator_views(before).push(e@));
            }
            k = k + 1;
        }
        r
    }

    /// The built-in emulators that run `platform_id`, each with its
    /// configured path and whether its executable was found there: the disk
    /// is asked about each configured path, and
    /// [`EmulatorLauncher::available_emulators_given`] decides on the
    /// answers.
    pub fn get_available_emulators_for_platform(&self, platform_id: &str) -> (r: Vec<Emulator>)
        ensures
            exists|ex: Seq<bool>|
                {
                    &&& ex.len() == default_emulator_table().len()
                    &&& forall|k: int|
                        0 <= k < ex.len() && #[trigger] ex[k] ==> emulator_path_of(
                            self.config,
                            default_emulator_table()[k].id,
                        ) is Some
                    &&& emulator_views(r@) == offered_upto(
                        default_emulator_table(),
                        ex,
                        self.config,
                        platform_id@,
                        default_emulator_table().len() as int,
                    )
                },
    {
        let ghost t = default_emulator_table();
        let emulators = default_emulators();
        let mut exists: Vec<bool> = Vec::new();
        let mut k: usize = 0;
        while k < emulators.len()
            invariant
                emulator_views(emulators@) == t,
                t == default_emulator_table(),
                k <= t.len(),
                exists.len() == k,
                forall|j: int| 0 <= j < k && #[trigger] exists@[j] ==> emulator_path_of(self.config, t[j].id) is Some,
            decreases emulators.len() - k,
        {
            assert(emulator_views(emulators@)[k as int] == emulators@[k as int]@);
            let found = match self.get_emulator_path(emulators[k].id.as_str()) {
                Some(p) => path_exists(p.as_str()),
                None => false,
            };
            exists.push(found);
            k = k + 1;
        }
        self.available_emulators_given(platform_id, &exists)
    }
}

/// How a launch ended, or why it could not start.
#[derive(Debug, Clone)]
pub enum LaunchResult {
    Success { duration_minutes: i32, exit_code: Option<i32> },
    FileNotFound(String),
    EmulatorNotInstalled { name: String, id: String },
    EmulatorNotConfigured { platform: String },
}

/// The message shown for a launch result; `None` for a success.
pub open spec fn launch_error_message(r: LaunchResult) -> Option<Seq<char>> {
    match r {
        LaunchResult::Success { .. } => None,
        LaunchResult::FileNotFound(path) => Some("ROM file not found: "@ + path@),
        LaunchResult::EmulatorNotInstalled { name, .. } => Some(name@ + " is not installed"@),
        LaunchResult::EmulatorNotConfigured { platform } => Some("No emulator configured for "@ + platform@),
    }
}

impl LaunchResult {
    /// Whether the game was played.
    pub fn is_success(&self) -> (b: bool)
        ensures
            b == (*self is Success),
    {
        match self {
            LaunchResult::Success { .. } => true,
            _ => false,
        }
    }

    /// The message to show for a failed launch; `None` for a success.
    pub fn error_message(&self) -> (m: Option<String>)
        ensures
            opt_view(m) == launch_error_message(*self),
    {
        match self {
            LaunchResult::Success { .. } => None,
            LaunchResult::FileNotFound(path) => Some(
                String::from_str("ROM file not found: ").concat(path.as_str()),
            ),
            LaunchResult::EmulatorNotInstalled { name, .. } => {
                let mut m = copy_string(name);
                m.append(" is not installed");
                Some(m)
            },
            LaunchResult::EmulatorNotConfigured { platform } => Some(
                String::from_str("No emulator configured for ").concat(platform.as_str()),
            ),
        }
    }
}

/// A launch result carries a message exactly when it is not a success.
pub proof fn law_message_iff_failure(r: LaunchResult)
    ensures
        (r is Success) <==> launch_error_message(r) is None,
{
}

/// The ROM file a game is started from: its local copy when it has one,
/// else its library path.
pub fn select_rom_path(local_file_path: &Option<String>, file_path: &String) -> (p: String)
    ensures
        p@ == match local_file_path {
            Some(l) => l@,
            None => file_path@,
        },
{
    match local_file_path {
        Some(l) => copy_string(l),
        None => copy_string(file_path),
    }
}

/// The next step of a launch once the ROM file has been looked for.
#[derive(Debug)]
pub enum LaunchStep {
    /// Stop and report this result.
    Report(LaunchResult),
    /// Start this executable with these arguments once it is found on disk.
    Start { exe: String, args: Vec<String> },
}

/// A launch that cannot go on.
#[derive(Debug, Clone, Copy, PartialEq, Eq, Structural)]
pub enum LaunchError {
    /// The emulator has no executable to start.
    NoLaunchCommand,
}

impl LaunchError {
    /// The message the launch command fails with.
    pub fn message(&self) -> (m: String)
        ensures
            m@ == "Failed to build launch command"@,
    {
        match self {
            LaunchError::NoLaunchCommand => String::from_str("Failed to build launch command"),
        }
    }
}

/// The first decision of a launch: report a missing ROM, fail when the
/// emulator has no executable, or go on to start it with the command it
/// builds for the ROM.
pub fn plan_launch(emulator: &Emulator, rom_path: &str, rom_exists: bool) -> (r: Result<LaunchStep, LaunchError>)
    ensures
        !rom_exists ==> (r matches Ok(LaunchStep::Report(LaunchResult::FileNotFound(p))) && p@ == rom_path@),
        rom_exists && emulator.executable_path is None ==> r == Err::<LaunchStep, LaunchError>(LaunchError::NoLaunchCommand),
        rom_exists && emulator.executable_path is Some ==> (r matches Ok(LaunchStep::Start { exe, args }) && {
            &&& Some(exe@) == opt_view(emulator.executable_path)
            &&& views(args@) == launch_args_for(emulator@, rom_path@)
        }),
{
    if !rom_exists {
        return Ok(LaunchStep::Report(LaunchResult::FileNotFound(String::from_str(rom_path))));
    }
    match emulator.build_launch_command(rom_path) {
        Some((exe, args)) => Ok(LaunchStep::Start { exe, args }),
        None => Err(LaunchError::NoLaunchCommand),
    }
}

/// The second decision of a launch: an emulator whose executable is not on
/// disk is reported as not installed; otherwise the launch goes on.
pub fn check_emulator_installed(emulator: &Emulator, exe_exists: bool) -> (r: Option<LaunchResult>)
    ensures
        exe_exists ==> r is None,
        !exe_exists ==> (r matches Some(LaunchResult::EmulatorNotInstalled { name, id }) && name@ == emulator.name@
            && id@ == emulator.id@),
{
    if exe_exists {
        None
    } else {
        Some(LaunchResult::EmulatorNotInstalled { name: copy_string(&emulator.name), id: copy_string(&emulator.id) })
    }
}

/// Whole minutes in `secs` seconds, as the launcher records them.
pub open spec fn played_minutes(secs: u64) -> i32 {
    (secs / 60) as i32
}

/// The end of a launch that ran for `elapsed_secs` seconds and exited with
/// `exit_code`: the result, and the minutes to record as a play session
/// (none when the session lasted under a minute).
pub fn finish_launch(elapsed_secs: u64, exit_code: Option<i32>) -> (r: (LaunchResult, Option<i32>))
    ensures
        r.0 == (LaunchResult::Success { duration_minutes: played_minutes(elapsed_secs), exit_code }),
        r.1 == if played_minutes(elapsed_secs) > 0 {
            Some(played_minutes(elapsed_secs))
        } else {
            None::<i32>
        },
{
    let minutes = (elapsed_secs / 60) as i32;
    let record = if minutes > 0 {
        Some(minutes)
    } else {
        None
    };
    (LaunchResult::Success { duration_minutes: minutes, exit_code }, record)
}

} // verus!
