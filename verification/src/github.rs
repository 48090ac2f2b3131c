//! GitHub releases and picking the release asset to download.

use vstd::prelude::*;


verus! {

/// A published release of a GitHub repository.
#[derive(Debug, Clone)]
pub struct GitHubRelease {
    pub tag_name: String,
    pub name: Option<String>,
    pub assets: Vec<GitHubAsset>,
}

/// A file attached to a release.
#[derive(Debug, Clone)]
pub struct GitHubAsset {
    pub name: String,
    pub browser_download_url: String,
    pub size: i64,
    pub content_type: Option<String>,
}

#[verifier::external_type_specification]
#[verifier::external_body]
pub struct ExRegex(regex_lite::Regex);

/// Name for whether `regex_lite::Regex::new` accepts `pattern`.
pub uninterp spec fn pattern_compiles(pattern: Seq<char>) -> bool;

/// Name for what `regex_lite::Regex::is_match` answers for the regular
/// expression compiled from `pattern` on the text `text`.
pub uninterp spec fn pattern_matches(pattern: Seq<char>, text: Seq<char>) -> bool;

/// A regular expression together with the pattern it was compiled from.
pub struct CompiledPattern {
    regex: regex_lite::Regex,
    source: String,
}

impl CompiledPattern {
    /// The pattern this expression was compiled from.
    pub closed spec fn source(&self) -> Seq<char> {
        self.source@
    }
}

/// Compiles `pattern`: `regex_lite::Regex::new`.
/// Trusted: it succeeds exactly when the pattern compiles, and the result
/// remembers the pattern; what compiles is not written out here.
#[verifier::external_body]
fn compile_pattern(pattern: &str) -> (r: Option<CompiledPattern>)
    ensures
        r is Some <==> pattern_compiles(pattern@),
        r matches Some(c) ==> c.source() == pattern@,
{
    match regex_lite::Regex::new(pattern) {
        Ok(regex) => Some(CompiledPattern { regex, source: pattern.to_string() }),
        Err(_) => None,
    }
}

/// Whether the expression matches somewhere in `text`:
/// `regex_lite::Regex::is_match`.
/// Trusted: the answer is `pattern_matches` of the source pattern and the
/// text; what matches is not written out here.
#[verifier::external_body]
fn pattern_is_match(c: &CompiledPattern, text: &str) -> (b: bool)
    ensures
        b == pattern_matches(c.source(), text@),
{
    c.regex.is_match(text)
}

/// The first index from `i` on whose flag is set, or `flags.len()`.
pub open spec fn first_set(flags: Seq<bool>, i: int) -> int
    decreases flags.len() - i,
{
    if i < 0 || i >= flags.len() {
        flags.len() as int
    } else if flags[i] {
        i
    } else {
        first_set(flags, i + 1)
    }
}

/// The first asset of `release` whose flag in `matched` is set.
pub fn select_asset<'a>(release: &'a GitHubRelease, matched: &Vec<bool>) -> (r: Option<&'a GitHubAsset>)
    requires
        matched.len() == release.assets.len(),
    ensures
        ({
            let k = first_set(matched@, 0);
            &&& r is None <==> k == matched.len()
            &&& r matches Some(a) ==> *a == release.assets@[k]
        }),
{
    let mut i: usize = 0;
    while i < matched.len()
        invariant
            matched.len() == release.assets.len(),
            i <= matched.len(),
            first_set(matched@, 0) == first_set(matched@, i as int),
        decreases matched.len() - i,
    {
        if matched[i] {
            return Some(&release.assets[i]);
        }
        i = i + 1;
    }
    None
}

/// Whether each asset's name matches `pattern`, in order.
pub open spec fn asset_matches(assets: Seq<GitHubAsset>, pattern: Seq<char>) -> Seq<bool> {
    assets.map_values(|a: GitHubAsset| pattern_matches(pattern, a.name@))
}

/// The first asset of `release` whose name matches the regular expression
/// `pattern`; `None` when the pattern does not compile or nothing matches.
pub fn find_matching_asset<'a>(release: &'a GitHubRelease, pattern: &str) -> (r: Option<&'a GitHubAsset>)
    ensures
        !pattern_compiles(pattern@) ==> r is None,
        pattern_compiles(pattern@) ==> ({
            let flags = asset_matches(release.assets@, pattern@);
            let k = first_set(flags, 0);
            &&& r is None <==> k == flags.len()
            &&& r matches Some(a) ==> *a == release.assets@[k]
        }),
{
    let compiled = match compile_pattern(pattern) {
        Some(c) => c,
        None => return None,
    };
    let mut matched: Vec<bool> = Vec::new();
    let mut i: usize = 0;
    while i < release.assets.len()
        invariant
            compiled.source() == pattern@,
            i <= release.assets.len(),
            matched@ == asset_matches(release.assets@, pattern@).take(i as int),
        decreases release.assets.len() - i,
    {
        let b = pattern_is_match(&compiled, release.assets[i].name.as_str());
        matched.push(b);
        i = i + 1;
        assert(matched@ =~= asset_matches(release.assets@, pattern@).take(i as int));
    }
    assert(matched@ =~= asset_matches(release.assets@, pattern@));
    select_asset(release, &matched)
}

} // verus!
