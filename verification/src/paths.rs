//! File-system paths, held as strings. The separator a path operation puts
//! in depends on the platform the launcher runs on (`/` or `\\`), so the
//! facts claimed here hold with either.

use vstd::prelude::*;

verus! {

/// `s` ends with `suffix`.
pub open spec fn ends_with(s: Seq<char>, suffix: Seq<char>) -> bool {
    suffix.len() <= s.len() && s.subrange(s.len() - suffix.len(), s.len() as int) == suffix
}

/// A single plain path component: not empty, and only ASCII letters,
/// digits, `.`, `_` and `-`.
pub open spec fn plain_component(s: Seq<char>) -> bool {
    &&& s.len() > 0
    &&& forall|i: int|
        0 <= i < s.len() ==> {
            let c = #[trigger] s[i];
            ('a' <= c <= 'z') || ('A' <= c <= 'Z') || ('0' <= c <= '9') || c == '.' || c == '_' || c == '-'
        }
}

/// `c` separates path components on some platform.
pub open spec fn is_separator(c: char) -> bool {
    c == '/' || c == '\\'
}

/// A directory path that a component can be appended to by putting a
/// separator in between, on every platform: not empty, not ending in a
/// separator, not a bare drive such as `C:`, and not a verbatim path
/// (those hold `?`).
pub open spec fn joinable_base(base: Seq<char>) -> bool {
    &&& base.len() > 0
    &&& !is_separator(base.last())
    &&& !base.contains('?')
    &&& !(base.len() == 2 && base[1] == ':')
}

/// `r` is `base`, one separator, then `part`.
pub open spec fn joined(r: Seq<char>, base: Seq<char>, part: Seq<char>) -> bool {
    &&& r.len() == base.len() + 1 + part.len()
    &&& r.subrange(0, base.len() as int) == base
    &&& is_separator(r[base.len() as int])
    &&& r.subrange(base.len() + 1 as int, r.len() as int) == part
}

/// `name` is one component of a path: not empty, free of separators, and
/// not `.` (which paths drop).
pub open spec fn single_name(name: Seq<char>) -> bool {
    &&& name.len() > 0
    &&& !name.contains('/')
    &&& !name.contains('\\')
    &&& name != seq!['.']
}

/// `name` is a simple relative name on every platform: one component,
/// with no `:` (which starts a drive prefix on Windows), and not `..`.
pub open spec fn simple_name(name: Seq<char>) -> bool {
    &&& single_name(name)
    &&& !name.contains(':')
    &&& name != seq!['.', '.']
}

/// A plain component longer than two characters is a simple name.
pub proof fn lemma_plain_simple(s: Seq<char>)
    requires
        plain_component(s),
        s.len() > 2,
    ensures
        simple_name(s),
{
    assert forall|c: char| c == '/' || c == '\\' || c == ':' implies !s.contains(c) by {
        if s.contains(c) {
            let i = choose|i: int| 0 <= i < s.len() && s[i] == c;
            assert(s[i] == c);
        }
    }
}

/// `path` is `dir`, `/`, then one component `name`, where `dir` is a
/// directory whose parent part is plain on every platform: it is joinable,
/// does not end in `.`, and does not start with two separators (a network
/// share).
pub open spec fn splits_into(path: Seq<char>, dir: Seq<char>, name: Seq<char>) -> bool {
    &&& path == dir + seq!['/'] + name
    &&& single_name(name)
    &&& joinable_base(dir)
    &&& dir.last() != '.'
    &&& !(dir.len() >= 2 && is_separator(dir[0]) && is_separator(dir[1]))
}

/// When `path` splits into a directory and a final component,
/// `parent` is that directory.
pub open spec fn parent_of_split(path: Seq<char>, parent: Option<Seq<char>>) -> bool {
    forall|dir: Seq<char>, name: Seq<char>| #[trigger] splits_into(path, dir, name) ==> parent == Some(dir)
}

/// A joinable directory with a plain component appended is joinable.
pub proof fn lemma_joined_joinable(r: Seq<char>, base: Seq<char>, part: Seq<char>)
    requires
        joinable_base(base),
        plain_component(part),
        joined(r, base, part),
    ensures
        joinable_base(r),
{
    assert(r.last() == part.last()) by {
        assert(part[part.len() - 1] == r.subrange(base.len() + 1 as int, r.len() as int)[part.len() - 1]);
    }
    if r.contains('?') {
        let i = choose|i: int| 0 <= i < r.len() && r[i] == '?';
        if i < base.len() {
            assert(base[i] == r.subrange(0, base.len() as int)[i]);
        } else if i > base.len() {
            assert(part[i - base.len() - 1] == r.subrange(base.len() + 1 as int, r.len() as int)[i - base.len() - 1]);
        }
    }
}

/// A plain component is a joinable directory.
pub proof fn lemma_plain_joinable(s: Seq<char>)
    requires
        plain_component(s),
    ensures
        joinable_base(s),
{
    assert(s[s.len() - 1] == s.last());
    if s.contains('?') {
        let i = choose|i: int| 0 <= i < s.len() && s[i] == '?';
        assert(s[i] == '?');
    }
    if s.len() == 2 {
        assert(s[1] != ':');
    }
}

/// A plain component is ASCII, and stays plain in lowercase.
pub proof fn lemma_plain_lowercase(s: Seq<char>)
    requires
        plain_component(s),
    ensures
        crate::text::ascii_only(s),
        plain_component(crate::text::ascii_lowercase(s)),
{
    let l = crate::text::ascii_lowercase(s);
    assert forall|i: int| 0 <= i < s.len() implies (#[trigger] s[i] as u32) < 128 by {
        let c = s[i];
        assert(('a' <= c <= 'z') || ('A' <= c <= 'Z') || ('0' <= c <= '9') || c == '.' || c == '_' || c == '-');
    }
    assert forall|i: int| 0 <= i < l.len() implies {
        let c = #[trigger] l[i];
        ('a' <= c <= 'z') || ('A' <= c <= 'Z') || ('0' <= c <= '9') || c == '.' || c == '_' || c == '-'
    } by {
        let c = s[i];
        assert(('a' <= c <= 'z') || ('A' <= c <= 'Z') || ('0' <= c <= '9') || c == '.' || c == '_' || c == '-');
        assert(l[i] == crate::text::ascii_lower_char(c));
    }
}

/// `path` is `base`, a separator, `dir`, a separator, then `file`.
pub open spec fn joined_twice(path: Seq<char>, base: Seq<char>, dir: Seq<char>, file: Seq<char>) -> bool {
    let b = base.len() as int;
    let m = dir.len() as int;
    &&& path.len() == b + m + file.len() + 2
    &&& path.subrange(0, b) == base
    &&& is_separator(path[b])
    &&& path.subrange(b + 1, b + 1 + m) == dir
    &&& is_separator(path[b + 1 + m])
    &&& path.subrange(b + 2 + m, path.len() as int) == file
}

/// Two joins in a row put two separators in.
pub proof fn lemma_joined_twice(path: Seq<char>, d: Seq<char>, base: Seq<char>, dir: Seq<char>, file: Seq<char>)
    requires
        joined(d, base, dir),
        joined(path, d, file),
    ensures
        joined_twice(path, base, dir, file),
{
    let n = base.len() as int;
    assert(path.subrange(0, n) =~= d.subrange(0, n)) by {
        assert(path.subrange(0, d.len() as int) == d);
        assert forall|i: int| 0 <= i < n implies path.subrange(0, n)[i] == d.subrange(0, n)[i] by {
            assert(path.subrange(0, d.len() as int)[i] == path[i]);
        }
    }
    assert(path[n] == d[n]) by {
        assert(path.subrange(0, d.len() as int)[n] == path[n]);
    }
    assert(path.subrange(n + 1, n + 1 + dir.len()) =~= dir) by {
        assert forall|i: int| 0 <= i < dir.len() implies path.subrange(n + 1, n + 1 + dir.len())[i] == dir[i] by {
            assert(path.subrange(0, d.len() as int)[n + 1 + i] == path[n + 1 + i]);
            assert(d.subrange(n + 1, d.len() as int)[i] == d[n + 1 + i]);
        }
    }
}

/// Whether a file exists at `path`: `std::path::Path::exists`.
/// Trusted, with nothing claimed: the answer depends on the disk.
#[verifier::external_body]
pub(crate) fn path_exists(path: &str) -> bool {
    std::path::Path::new(path).exists()
}

/// The directory that holds `path`: `std::path::Path::parent`.
/// Trusted: as documented, the result is `path` without its final
/// component, so a proper prefix of it; there is none for the empty path
/// or the root `/`; a relative path of one component has the empty parent;
/// and for `dir/name` with a single final component it is `dir`. Where
/// separators and prefixes differ between platforms (a lone `\\` is a root
/// on Windows and a file name elsewhere) nothing more is claimed.
#[verifier::external_body]
pub(crate) fn path_parent(path: &str) -> (r: Option<String>)
    ensures
        r matches Some(p) ==> p@.len() < path@.len() && path@.subrange(0, p@.len() as int) == p@,
        path@.len() == 0 ==> r is None,
        path@ == seq!['/'] ==> r is None,
        simple_name(path@) ==> crate::text::opt_view(r) == Some(Seq::<char>::empty()),
        parent_of_split(path@, crate::text::opt_view(r)),
{
    match std::path::Path::new(path).parent() {
        Some(p) => Some(p.to_string_lossy().to_string()),
        None => None,
    }
}

/// `base` with `part` appended as a further component:
/// `std::path::Path::join`.
/// Trusted: a simple name is relative, has no prefix and is neither `.`
/// nor `..` (which `PathBuf::push` drops or resolves on a verbatim base), so,
/// as `PathBuf::push` documents, it extends the path: the result ends with
/// it; appended to the empty path it is the whole result; appended to a
/// joinable directory it follows one separator (`/` or `\\`, the
/// platform's).
#[verifier::external_body]
pub(crate) fn path_join(base: &str, part: &str) -> (r: String)
    ensures
        simple_name(part@) ==> ends_with(r@, part@),
        simple_name(part@) && base@.len() == 0 ==> r@ == part@,
        simple_name(part@) && joinable_base(base@) ==> joined(r@, base@, part@),
{
    std::path::Path::new(base).join(part).to_string_lossy().to_string()
}

} // verus!
