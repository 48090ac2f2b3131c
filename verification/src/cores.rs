//! RetroArch cores: where they are downloaded from and where they live.

use vstd::prelude::*;
use vstd::string::*;

use crate::paths::{
    ends_with, joinable_base, joined, lemma_plain_simple, path_exists, path_join, path_parent, plain_component, simple_name,
    splits_into,
};

verus! {

/// Where the nightly Windows builds of the RetroArch cores are published.
pub open spec fn buildbot_base() -> Seq<char> {
    "https://buildbot.libretro.com/nightly/windows/x86_64/latest"@
}

/// The download address of the zipped core `core_filename`.
pub fn core_download_url(core_filename: &str) -> (url: String)
    ensures
        url@ == buildbot_base() + "/"@ + core_filename@ + ".zip"@,
{
    let mut url = String::from_str("https://buildbot.libretro.com/nightly/windows/x86_64/latest");
    url.append("/");
    url.append(core_filename);
    url.append(".zip");
    url
}

/// A path with no directory part: the empty path, the root `/`, or a bare
/// file name.
pub open spec fn no_directory_part(path: Seq<char>) -> bool {
    path.len() == 0 || path == seq!['/'] || simple_name(path)
}

/// For a RetroArch path `dir/name`, `cores_dir` is `dir`, a separator,
/// then `cores`.
pub open spec fn cores_dir_of_split(path: Seq<char>, cores_dir: Seq<char>) -> bool {
    forall|dir: Seq<char>, name: Seq<char>| #[trigger] splits_into(path, dir, name) ==> joined(cores_dir, dir, "cores"@)
}

/// For a RetroArch path `dir/name`, `core` is `dir`, a separator, `cores`,
/// a separator, then the core file name `file`.
pub open spec fn core_path_of_split(path: Seq<char>, file: Seq<char>, core: Seq<char>) -> bool {
    forall|dir: Seq<char>, name: Seq<char>|
        #[trigger] splits_into(path, dir, name) ==> exists|d: Seq<char>| joined(d, dir, "cores"@) && #[trigger] joined(core, d, file)
}

/// The `cores` directory next to the RetroArch executable at
/// `retroarch_path`, or `cores` when that path has no directory part.
pub fn get_cores_dir(retroarch_path: &str) -> (dir: String)
    ensures
        ends_with(dir@, "cores"@),
        no_directory_part(retroarch_path@) ==> dir@ == "cores"@,
        cores_dir_of_split(retroarch_path@, dir@),
{
    proof {
        reveal_strlit("cores");
    }
    assert(plain_component("cores"@));
    proof {
        lemma_plain_simple("cores"@);
    }
    let parent = path_parent(retroarch_path);
    let dir = match &parent {
        Some(p) => path_join(p.as_str(), "cores"),
        None => {
            let d = String::from_str("cores");
            assert(d@.subrange(0, 5) =~= d@);
            d
        },
    };
    assert forall|a: Seq<char>, b: Seq<char>| #[trigger] splits_into(retroarch_path@, a, b) implies joined(
        dir@,
        a,
        "cores"@,
    ) by {
        assert(crate::text::opt_view(parent) == Some(a));
    }
    dir
}

/// The file of the core `core_filename` in the cores directory of the
/// RetroArch executable at `retroarch_path`.
pub fn core_path(retroarch_path: &str, core_filename: &str) -> (p: String)
    ensures
        simple_name(core_filename@) ==> ends_with(p@, core_filename@),
        simple_name(core_filename@) && no_directory_part(retroarch_path@) ==> joined(p@, "cores"@, core_filename@),
        simple_name(core_filename@) ==> core_path_of_split(retroarch_path@, core_filename@, p@),
{
    proof {
        reveal_strlit("cores");
    }
    assert(plain_component("cores"@));
    assert(joinable_base("cores"@)) by {
        assert(!"cores"@.contains('?')) by {
            if "cores"@.contains('?') {
                let i = choose|i: int| 0 <= i < "cores"@.len() && "cores"@[i] == '?';
            }
        }
    }
    let dir = get_cores_dir(retroarch_path);
    let p = path_join(dir.as_str(), core_filename);
    proof {
        if simple_name(core_filename@) {
            assert forall|a: Seq<char>, b: Seq<char>| #[trigger] splits_into(retroarch_path@, a, b) implies exists|
                d: Seq<char>,
            | joined(d, a, "cores"@) && #[trigger] joined(p@, d, core_filename@) by {
                assert(joined(dir@, a, "cores"@));
                crate::paths::lemma_joined_joinable(dir@, a, "cores"@);
                assert(joined(p@, dir@, core_filename@));
            }
        }
    }
    p
}

/// Whether the core `core_filename` is at its [`core_path`] for the
/// RetroArch executable at `retroarch_path`. The answer depends on the disk.
pub fn is_core_installed(retroarch_path: &str, core_filename: &str) -> bool {
    let core = core_path(retroarch_path, core_filename);
    path_exists(core.as_str())
}

/// The name of the downloaded archive of the core `core_filename`, kept in
/// the cores directory until it is unpacked.
pub fn core_archive_name(core_filename: &str) -> (name: String)
    ensures
        name@ == core_filename@ + ".zip"@,
{
    let mut name = String::from_str(core_filename);
    name.append(".zip");
    name
}

/// Whether the archive entry named `entry_name` is unpacked into the cores
/// directory: the entries whose name ends in `.dll`.
pub fn is_core_entry(entry_name: &str) -> (b: bool)
    ensures
        b == ends_with(entry_name@, ".dll"@),
{
    proof {
        reveal_strlit(".dll");
    }
    let v = crate::text::chars_of(entry_name);
    let n = v.len();
    if n < 4 {
        return false;
    }
    let b = v[n - 4] == '.' && v[n - 3] == 'd' && v[n - 2] == 'l' && v[n - 1] == 'l';
    proof {
        let tail = entry_name@.subrange(n - 4, n as int);
        assert(tail[0] == v@[n - 4] && tail[1] == v@[n - 3] && tail[2] == v@[n - 2] && tail[3] == v@[n - 1]);
        if b {
            assert(tail =~= ".dll"@);
        }
    }
    b
}

/// What a core download ends in once the archive is unpacked: done when
/// the core file `core_filename` is now in place, else the error naming it.
pub fn core_extraction_result(core_found: bool, core_filename: &str) -> (r: Result<(), String>)
    ensures
        core_found <==> r is Ok,
        r matches Err(e) ==> e@ == "Core file not found after extraction: "@ + core_filename@,
{
    if core_found {
        Ok(())
    } else {
        let mut e = String::from_str("Core file not found after extraction: ");
        e.append(core_filename);
        Err(e)
    }
}

} // verus!
