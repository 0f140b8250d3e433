//! Loader versions: the order on dotted triples, the compatibility window of
//! a mod, and the decision whether an update is on offer.

use vstd::prelude::*;
use vstd::string::*;
use crate::error::EngineError;

verus! {

/// A version as three numbers. Nothing else takes part in the order.
#[derive(Clone, Copy, Debug, PartialEq, Eq, Structural)]
pub struct Version {
    pub major: u64,
    pub minor: u64,
    pub patch: u64,
}

/// How one version stands to another.
#[derive(Clone, Copy, Debug, PartialEq, Eq, Structural)]
pub enum VersionOrder {
    Less,
    Equal,
    Greater,
}

impl Version {
    /// Strictly older: smaller at the first of major, minor, patch that
    /// differs.
    pub open spec fn precedes(self, other: Version) -> bool {
        self.major < other.major || (self.major == other.major && (self.minor < other.minor || (
        self.minor == other.minor && self.patch < other.patch)))
    }

    /// The order of two versions by their numbers.
    pub open spec fn order(self, other: Version) -> VersionOrder {
        if self.precedes(other) {
            VersionOrder::Less
        } else if self == other {
            VersionOrder::Equal
        } else {
            VersionOrder::Greater
        }
    }

    /// Compares two versions number by number.
    pub fn compare(&self, other: &Version) -> (r: VersionOrder)
        ensures
            r == self.order(*other),
    {
        if self.major < other.major {
            VersionOrder::Less
        } else if self.major > other.major {
            VersionOrder::Greater
        } else if self.minor < other.minor {
            VersionOrder::Less
        } else if self.minor > other.minor {
            VersionOrder::Greater
        } else if self.patch < other.patch {
            VersionOrder::Less
        } else if self.patch > other.patch {
            VersionOrder::Greater
        } else {
            VersionOrder::Equal
        }
    }
}

/// What the semantic-version parser reads in a text: the three numbers, and
/// whether the pre-release and build parts are empty.
#[derive(Clone, Copy, Debug, PartialEq, Eq, Structural)]
pub struct SemverParts {
    pub major: u64,
    pub minor: u64,
    pub patch: u64,
    pub pre_empty: bool,
    pub build_empty: bool,
}

/// The result of `semver::Version::parse` on a text; `None` where it rejects
/// the text.
pub uninterp spec fn semver_parsed(text: Seq<char>) -> Option<SemverParts>;

/// Calls `semver::Version::parse`. The parser reads nothing but its argument,
/// so its result is a function of the text, which the contract names; of
/// which texts it accepts nothing is claimed.
#[verifier::external_body]
fn semver_parse(text: &str) -> (r: Option<SemverParts>)
    ensures
        r == semver_parsed(text@),
{
    match semver::Version::parse(text) {
        Ok(v) => Some(
            SemverParts {
                major: v.major,
                minor: v.minor,
                patch: v.patch,
                pre_empty: v.pre.is_empty(),
                build_empty: v.build.is_empty(),
            },
        ),
        Err(_) => None,
    }
}

/// A text without one leading `v`.
pub open spec fn strip_v(text: Seq<char>) -> Seq<char> {
    if text.len() > 0 && text[0] == 'v' {
        text.subrange(1, text.len() as int)
    } else {
        text
    }
}

/// The version that a parse stands for: none where the parser rejected the
/// text, and none where anything follows the patch number.
pub open spec fn version_of_parts(parts: Option<SemverParts>) -> Option<Version> {
    match parts {
        Some(p) => if p.pre_empty && p.build_empty {
            Some(Version { major: p.major, minor: p.minor, patch: p.patch })
        } else {
            None
        },
        None => None,
    }
}

/// The version that a text denotes, if any: a bare dotted triple, with or
/// without a leading `v`.
pub open spec fn parsed_version(text: Seq<char>) -> Option<Version> {
    version_of_parts(semver_parsed(strip_v(text)))
}

/// Turns a parse into a version, refusing pre-release and build suffixes.
pub fn version_from_parts(parts: Option<SemverParts>) -> (r: Result<Version, EngineError>)
    ensures
        match version_of_parts(parts) {
            Some(v) => r == Ok::<Version, EngineError>(v),
            None => r == Err::<Version, EngineError>(EngineError::InvalidVersion),
        },
{
    match parts {
        Some(p) => {
            if p.pre_empty && p.build_empty {
                Ok(Version { major: p.major, minor: p.minor, patch: p.patch })
            } else {
                Err(EngineError::InvalidVersion)
            }
        },
        None => Err(EngineError::InvalidVersion),
    }
}

/// Reads a version string: an optional `v`, then major, minor and patch
/// separated by dots, and nothing after them.
pub fn parse_version(text: &str) -> (r: Result<Version, EngineError>)
    ensures
        match parsed_version(text@) {
            Some(v) => r == Ok::<Version, EngineError>(v),
            None => r == Err::<Version, EngineError>(EngineError::InvalidVersion),
        },
{
    let n: usize = text.unicode_len();
    if n > 0 && text.get_char(0) == 'v' {
        version_from_parts(semver_parse(text.substring_char(1, n)))
    } else {
        version_from_parts(semver_parse(text))
    }
}

/// The order of two version strings, where both denote a version.
pub open spec fn compared(a: Seq<char>, b: Seq<char>) -> Result<VersionOrder, EngineError> {
    match (parsed_version(a), parsed_version(b)) {
        (Some(x), Some(y)) => Ok(x.order(y)),
        _ => Err(EngineError::InvalidVersion),
    }
}

/// Orders two version strings by their numbers. Fails with `InvalidVersion`
/// exactly when one of them denotes no version.
pub fn compare_versions(a: &str, b: &str) -> (r: Result<VersionOrder, EngineError>)
    ensures
        r == compared(a@, b@),
{
    match parse_version(a) {
        Ok(x) => match parse_version(b) {
            Ok(y) => Ok(x.compare(&y)),
            Err(_) => Err(EngineError::InvalidVersion),
        },
        Err(_) => Err(EngineError::InvalidVersion),
    }
}

/// `a` is strictly newer than `b`; false where either denotes no version.
pub open spec fn newer(a: Seq<char>, b: Seq<char>) -> bool {
    match (parsed_version(a), parsed_version(b)) {
        (Some(x), Some(y)) => y.precedes(x),
        _ => false,
    }
}

/// Whether `version_a` is strictly newer than `version_b`. A string that
/// denotes no version is newer than nothing, and nothing is newer than it.
pub fn is_newer_version(version_a: &str, version_b: &str) -> (r: bool)
    ensures
        r == newer(version_a@, version_b@),
{
    match compare_versions(version_a, version_b) {
        Ok(VersionOrder::Greater) => true,
        _ => false,
    }
}

/// The order on versions is a strict total order: nothing precedes itself,
/// precedence carries over a middle version, of two different versions
/// exactly one precedes the other, and swapping the arguments swaps `Less`
/// and `Greater`.
pub proof fn order_is_strict_total(a: Version, b: Version, c: Version)
    ensures
        !a.precedes(a),
        a.precedes(b) && b.precedes(c) ==> a.precedes(c),
        a.precedes(b) || a == b || b.precedes(a),
        !(a.precedes(b) && b.precedes(a)),
        a.order(b) == VersionOrder::Equal <==> a == b,
        a.order(b) == VersionOrder::Less <==> b.order(a) == VersionOrder::Greater,
        a.order(b) == VersionOrder::Less <==> (a.major, a.minor, a.patch) != (
            b.major,
            b.minor,
            b.patch,
        ) && (a.major < b.major || (a.major == b.major && a.minor < b.minor) || (a.major == b.major
            && a.minor == b.minor && a.patch < b.patch)),
{
}

/// Two strings that denote versions are ordered as their numbers are, and
/// each string equals itself in that order.
pub proof fn compared_follows_numbers(a: Seq<char>, b: Seq<char>)
    requires
        parsed_version(a) is Some,
        parsed_version(b) is Some,
    ensures
        compared(a, b) == Ok::<VersionOrder, EngineError>(
            parsed_version(a)->0.order(parsed_version(b)->0),
        ),
        compared(a, a) == Ok::<VersionOrder, EngineError>(VersionOrder::Equal),
        newer(a, b) <==> compared(a, b) == Ok::<VersionOrder, EngineError>(VersionOrder::Greater),
        !(newer(a, b) && newer(b, a)),
{
    order_is_strict_total(parsed_version(a)->0, parsed_version(b)->0, parsed_version(a)->0);
}

/// The text of an optional string.
pub open spec fn opt_text(s: Option<String>) -> Option<Seq<char>> {
    match s {
        Some(t) => Some(t@),
        None => None,
    }
}

/// A released loader version and where to fetch it.
#[derive(Clone, Debug, PartialEq, Eq)]
pub struct SilkVersion {
    pub version: String,
    pub download_url: String,
}

/// What a mod declares about itself and the loader versions it works with.
/// A bound that is absent leaves that side open.
#[derive(Clone, Debug, PartialEq, Eq)]
pub struct ModVersionInfo {
    pub mod_id: String,
    pub version: String,
    pub silk_version: String,
    pub min_silk_version: Option<String>,
    pub max_silk_version: Option<String>,
}

/// The texts of a `ModVersionInfo`.
pub struct ModVersionInfoView {
    pub mod_id: Seq<char>,
    pub version: Seq<char>,
    pub silk_version: Seq<char>,
    pub min_silk_version: Option<Seq<char>>,
    pub max_silk_version: Option<Seq<char>>,
}

impl View for ModVersionInfo {
    type V = ModVersionInfoView;

    open spec fn view(&self) -> ModVersionInfoView {
        ModVersionInfoView {
            mod_id: self.mod_id@,
            version: self.version@,
            silk_version: self.silk_version@,
            min_silk_version: opt_text(self.min_silk_version),
            max_silk_version: opt_text(self.max_silk_version),
        }
    }
}

/// `v` lies in the window: not older than the lower bound and not newer than
/// the upper one, each where it is given.
pub open spec fn within(v: Version, min: Option<Version>, max: Option<Version>) -> bool {
    (min matches Some(lo) ==> !v.precedes(lo)) && (max matches Some(hi) ==> !hi.precedes(v))
}

/// Whether a version lies in a window of optional bounds, both inclusive.
pub fn within_window(v: &Version, min: &Option<Version>, max: &Option<Version>) -> (r: bool)
    ensures
        r == within(*v, *min, *max),
{
    let above: bool = match min {
        Some(lo) => match v.compare(lo) {
            VersionOrder::Less => false,
            _ => true,
        },
        None => true,
    };
    let below: bool = match max {
        Some(hi) => match v.compare(hi) {
            VersionOrder::Greater => false,
            _ => true,
        },
        None => true,
    };
    proof {
        if let Some(hi) = *max {
            order_is_strict_total(*v, hi, *v);
        }
    }
    above && below
}

/// What a declared bound stands for: no bound where none is declared, a
/// version where the text denotes one, and a failure otherwise.
pub open spec fn bound_of(text: Option<Seq<char>>) -> Result<Option<Version>, EngineError> {
    match text {
        None => Ok(None),
        Some(t) => match parsed_version(t) {
            Some(v) => Ok(Some(v)),
            None => Err(EngineError::InvalidVersion),
        },
    }
}

/// Reads a declared bound.
pub fn parse_bound(text: &Option<String>) -> (r: Result<Option<Version>, EngineError>)
    ensures
        r == bound_of(opt_text(*text)),
{
    match text {
        None => Ok(None),
        Some(t) => match parse_version(t.as_str()) {
            Ok(v) => Ok(Some(v)),
            Err(_) => Err(EngineError::InvalidVersion),
        },
    }
}

/// Whether a mod with the declared bounds may run on the installed loader.
/// Every string that is given must denote a version.
pub open spec fn compatibility(
    installed: Seq<char>,
    min: Option<Seq<char>>,
    max: Option<Seq<char>>,
) -> Result<bool, EngineError> {
    match (parsed_version(installed), bound_of(min), bound_of(max)) {
        (Some(v), Ok(lo), Ok(hi)) => Ok(within(v, lo, hi)),
        _ => Err(EngineError::InvalidVersion),
    }
}

/// Decides whether a mod is compatible with the installed loader version:
/// the installed version must lie within the declared bounds, both
/// inclusive. Fails with `InvalidVersion` exactly when the installed version
/// or a declared bound denotes no version.
pub fn check_mod_compatibility(installed_silk_version: &str, mod_version_info: &ModVersionInfo) -> (r:
    Result<bool, EngineError>)
    ensures
        r == compatibility(
            installed_silk_version@,
            mod_version_info@.min_silk_version,
            mod_version_info@.max_silk_version,
        ),
{
    let installed = parse_version(installed_silk_version);
    let min = parse_bound(&mod_version_info.min_silk_version);
    let max = parse_bound(&mod_version_info.max_silk_version);
    match (installed, min, max) {
        (Ok(v), Ok(lo), Ok(hi)) => Ok(within_window(&v, &lo, &hi)),
        _ => Err(EngineError::InvalidVersion),
    }
}

/// A mod that declares no bounds runs on every loader version, and the
/// verdict never depends on anything but the three strings.
pub proof fn unbounded_is_compatible(installed: Seq<char>)
    requires
        parsed_version(installed) is Some,
    ensures
        compatibility(installed, None, None) == Ok::<bool, EngineError>(true),
{
}

/// The address of the archive of a released loader version.
pub open spec fn release_url(version: Seq<char>) -> Seq<char> {
    "https://github.com/SilkModding/Silk/releases/download/v"@ + version + "/Silk-v"@ + version
        + ".zip"@
}

/// Builds the address from which a loader version is fetched.
pub fn download_url(version: &str) -> (r: String)
    ensures
        r@ == release_url(version@),
{
    let mut url = String::from_str("https://github.com/SilkModding/Silk/releases/download/v");
    url.append(version);
    url.append("/Silk-v");
    url.append(version);
    url.append(".zip");
    url
}

/// Decides whether an update is on offer: the latest version with its
/// address when it is strictly newer than the installed one, nothing
/// otherwise (also where either string denotes no version).
pub fn check_for_updates(current_version: &str, latest_version: &str) -> (r: Option<SilkVersion>)
    ensures
        newer(latest_version@, current_version@) ==> (r matches Some(s) && s.version@
            == latest_version@ && s.download_url@ == release_url(latest_version@)),
        !newer(latest_version@, current_version@) ==> r is None,
{
    if is_newer_version(latest_version, current_version) {
        Some(
            SilkVersion {
                version: String::from_str(latest_version),
                download_url: download_url(latest_version),
            },
        )
    } else {
        None
    }
}

/// The version installed when the latest one cannot be learned.
pub open spec fn fallback_version() -> Seq<char> {
    "0.6.1"@
}

/// Picks the version for a fresh install: the latest known one, or the
/// fallback where discovery failed.
pub fn resolve_install_version(latest: Option<String>) -> (r: String)
    ensures
        match latest {
            Some(v) => r@ == v@,
            None => r@ == fallback_version(),
        },
{
    match latest {
        Some(v) => v,
        None => String::from_str("0.6.1"),
    }
}

/// The loader versions that can be installed on request, newest first.
pub fn list_available_versions() -> (r: Vec<String>)
    ensures
        r@.len() == 3,
        r@[0]@ == "0.6.1"@,
        r@[1]@ == "0.6.0"@,
        r@[2]@ == "0.5.0"@,
{
    let mut versions: Vec<String> = Vec::new();
    versions.push(String::from_str("0.6.1"));
    versions.push(String::from_str("0.6.0"));
    versions.push(String::from_str("0.5.0"));
    versions
}

/// A text without the whitespace at its two ends, as `str::trim` gives it.
pub uninterp spec fn trimmed(text: Seq<char>) -> Seq<char>;

/// Calls `str::trim`, which removes leading and trailing whitespace. Which
/// characters count as whitespace is left to the standard library; the
/// contract only names the result.
#[verifier::external_body]
fn trim_text(text: &str) -> (r: String)
    ensures
        r@ == trimmed(text@),
{
    text.trim().to_string()
}

/// Reads the version out of the content of a version marker, which holds
/// the version string and may hold whitespace around it.
pub fn read_version_marker(content: &str) -> (r: String)
    ensures
        r@ == trimmed(content@),
{
    trim_text(content)
}

} // verus!
