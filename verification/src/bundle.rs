//! Where the loadable library of a `.vst3` bundle lives.
//!
//! A VST3 plugin ships as a bundle directory whose binary sits at a
//! platform-specific place below it:
//! - macOS: `Contents/MacOS/{name}`
//! - Linux: `Contents/x86_64-linux/{name}.so`
//! - Windows: `Contents/x86_64-win/{name}.vst3`
//!
//! where `{name}` is the bundle's file stem. The file system itself is probed
//! by the caller; the decisions on what it found are made here.

use vstd::prelude::*;
use vstd::string::StringExecFns;

use crate::error::{LoadStage, Vst3Error};

verus! {

/// The platforms whose bundle layout is known.
#[derive(Debug, Clone, Copy, PartialEq, Eq, Structural)]
pub enum Platform {
    MacOs,
    Linux,
    Windows,
    /// A platform without a known bundle layout.
    Other,
}

/// The path components, below the bundle directory, of the library file of a
/// bundle whose file stem is `stem`; `None` on a platform without a known
/// layout.
pub open spec fn bundle_library_layout(stem: Seq<char>, platform: Platform) -> Option<
    Seq<Seq<char>>,
> {
    match platform {
        Platform::MacOs => Some(seq!["Contents"@, "MacOS"@, stem]),
        Platform::Linux => Some(seq!["Contents"@, "x86_64-linux"@, stem + ".so"@]),
        Platform::Windows => Some(seq!["Contents"@, "x86_64-win"@, stem + ".vst3"@]),
        Platform::Other => None,
    }
}

/// Where the library of a bundle was found.
#[derive(Debug)]
pub enum LibraryLocation {
    /// At these path components below the bundle directory.
    InBundle(Vec<String>),
    /// The bundle path names the library file itself.
    BundleFile,
}

/// The path components, below the bundle directory, of the library file of a
/// bundle whose file stem is `stem`, or `None` on a platform without a known
/// bundle layout.
pub fn bundle_library_components(stem: &str, platform: Platform) -> (r: Option<Vec<String>>)
    ensures
        match bundle_library_layout(stem@, platform) {
            Some(layout) => r matches Some(v) && v.deep_view() == layout,
            None => r is None,
        },
{
    let (dir, file): (&str, String) = match platform {
        Platform::MacOs => ("MacOS", stem.to_owned()),
        Platform::Linux => ("x86_64-linux", stem.to_owned().concat(".so")),
        Platform::Windows => ("x86_64-win", stem.to_owned().concat(".vst3")),
        Platform::Other => {
            return None;
        },
    };
    let mut v: Vec<String> = Vec::new();
    v.push("Contents".to_owned());
    v.push(dir.to_owned());
    v.push(file);
    proof {
        assert(v.deep_view() =~= bundle_library_layout(stem@, platform).unwrap());
    }
    Some(v)
}

/// The file name of a path whose separator is `/` alone: scanning from the
/// end, `tail` being the characters already passed in the current
/// component, the last component that is neither empty nor `.` (those are
/// skipped), unless that component is `..`, in which case there is none.
pub open spec fn file_name_scan(p: Seq<char>, tail: Seq<char>) -> Option<Seq<char>>
    decreases p.len(),
{
    if p.len() == 0 || p.last() == '/' {
        if tail == Seq::<char>::empty() || tail == seq!['.'] {
            if p.len() == 0 {
                None
            } else {
                file_name_scan(p.drop_last(), Seq::empty())
            }
        } else if tail == seq!['.', '.'] {
            None
        } else {
            Some(tail)
        }
    } else {
        file_name_scan(p.drop_last(), seq![p.last()] + tail)
    }
}

/// Index of the last `.` of a file name, or -1 when it has none.
pub open spec fn last_dot_index(name: Seq<char>) -> int
    decreases name.len(),
{
    if name.len() == 0 {
        -1
    } else if name.last() == '.' {
        name.len() - 1
    } else {
        last_dot_index(name.drop_last())
    }
}

/// The stem of a file name: the part before its last `.`, or the whole
/// name when it has no `.` or its only `.` leads it.
pub open spec fn name_stem(name: Seq<char>) -> Seq<char> {
    let j = last_dot_index(name);
    if j <= 0 {
        name
    } else {
        name.subrange(0, j)
    }
}

/// The stem of a path's file name, when it has one.
pub open spec fn path_stem(p: Seq<char>) -> Option<Seq<char>> {
    match file_name_scan(p, Seq::empty()) {
        Some(name) => Some(name_stem(name)),
        None => None,
    }
}

/// A path that every platform splits the same way: no `\` and no `:`
/// (which Windows reads as a separator or a drive), and not starting with
/// `//` (which Windows may read as a network share).
pub open spec fn portable_path(p: Seq<char>) -> bool {
    &&& !p.contains('\\')
    &&& !p.contains(':')
    &&& !(p.len() >= 2 && p[0] == '/' && p[1] == '/')
}

/// Calls `Path::file_stem` on `path` and keeps the stem when it is valid
/// UTF-8 (`OsStr::to_str`; a stem of a `&str` always is). On every
/// platform a stem is never empty and, being part of the last component,
/// holds no `/`. For a path that every platform splits the same way
/// (`portable_path`) the result is `path_stem`: std's `Path::components`
/// skips empty and `.` components, `file_name` is the last component when it
/// is a normal one, and `file_stem` cuts it before its last `.` unless that
/// `.` leads it. How other paths split depends on the platform and is left
/// unsaid.
#[verifier::external_body]
fn path_file_stem(path: &str) -> (r: Option<String>)
    ensures
        r matches Some(stem) ==> stem@.len() > 0 && !stem@.contains('/'),
        portable_path(path@) ==> match r {
            Some(stem) => path_stem(path@) == Some(stem@),
            None => path_stem(path@) is None,
        },
{
    match std::path::Path::new(path).file_stem() {
        Some(stem) => match stem.to_str() {
            Some(text) => Some(text.to_owned()),
            None => None,
        },
        None => None,
    }
}

/// The file stem of a bundle path and the path components, below the
/// bundle, where its library would lie on `platform`.
#[derive(Debug)]
pub struct BundleCandidate {
    /// The bundle's file stem, when it has one that is valid UTF-8.
    pub stem: Option<String>,
    /// The library's path components below the bundle; `None` without a
    /// stem or on a platform without a known layout.
    pub components: Option<Vec<String>>,
}

/// Where the library of the bundle at `bundle_path` would lie on
/// `platform`: the bundle's file stem (`path_stem` of the path, for a path
/// every platform splits the same way) and, from it, the path components
/// that [`bundle_library_components`] gives. The file system is not
/// touched.
pub fn bundle_candidate(bundle_path: &str, platform: Platform) -> (c: BundleCandidate)
    ensures
        c.stem matches Some(stem) ==> stem@.len() > 0 && !stem@.contains('/'),
        portable_path(bundle_path@) ==> match c.stem {
            Some(stem) => path_stem(bundle_path@) == Some(stem@),
            None => path_stem(bundle_path@) is None,
        },
        match c.stem {
            None => c.components is None,
            Some(stem) => match bundle_library_layout(stem@, platform) {
                Some(layout) => c.components matches Some(v) && v.deep_view() == layout,
                None => c.components is None,
            },
        },
{
    let stem = path_file_stem(bundle_path);
    let components = match &stem {
        Some(s) => bundle_library_components(s.as_str(), platform),
        None => None,
    };
    BundleCandidate { stem, components }
}

/// Reason given when the bundle path has no usable file stem.
pub open spec fn no_stem_reason() -> Seq<char> {
    "Failed to extract plugin name from bundle path"@
}

/// Reason given when no library was found.
pub open spec fn not_found_reason() -> Seq<char> {
    "Could not find library in VST3 bundle"@
}

/// The error `find_library_path` reports for `bundle_path` with `reason`.
pub open spec fn is_opening_failure(e: Vst3Error, bundle_path: Seq<char>, why: Seq<char>) -> bool {
    e matches Vst3Error::LoadFailed { path, stage, reason } && path@ == bundle_path && stage
        == LoadStage::Opening && reason@ == why
}

/// Resolve the library of the bundle at `bundle_path`, given its file stem
/// (`None` when the path has none that is valid UTF-8), the platform, whether
/// the file at the path components that [`bundle_library_components`] gives
/// exists below the bundle, and whether the bundle path is itself a file.
///
/// On a platform with a known layout, a missing stem is an error and an
/// existing library below the bundle wins. Otherwise a bundle path that is a
/// file is taken as the library; failing that, the library is not found.
pub fn find_library_path(
    bundle_path: &str,
    stem: Option<&str>,
    platform: Platform,
    candidate_exists: bool,
    bundle_is_file: bool,
) -> (r: Result<LibraryLocation, Vst3Error>)
    ensures
        platform != Platform::Other && stem is None ==> (r matches Err(e) && is_opening_failure(
            e,
            bundle_path@,
            no_stem_reason(),
        )),
        platform != Platform::Other && stem is Some && candidate_exists ==> (r matches Ok(
            LibraryLocation::InBundle(v),
        ) && Some(v.deep_view()) == bundle_library_layout(stem->0@, platform)),
        (platform == Platform::Other || (stem is Some && !candidate_exists)) ==> if bundle_is_file {
            r matches Ok(LibraryLocation::BundleFile)
        } else {
            r matches Err(e) && is_opening_failure(e, bundle_path@, not_found_reason())
        },
{
    if platform != Platform::Other {
        match stem {
            None => {
                return Err(
                    Vst3Error::LoadFailed {
                        path: bundle_path.to_owned(),
                        stage: LoadStage::Opening,
                        reason: "Failed to extract plugin name from bundle path".to_owned(),
                    },
                );
            },
            Some(s) => {
                if candidate_exists {
                    match bundle_library_components(s, platform) {
                        Some(v) => {
                            return Ok(LibraryLocation::InBundle(v));
                        },
                        None => {},
                    }
                }
            },
        }
    }
    if bundle_is_file {
        Ok(LibraryLocation::BundleFile)
    } else {
        Err(
            Vst3Error::LoadFailed {
                path: bundle_path.to_owned(),
                stage: LoadStage::Opening,
                reason: "Could not find library in VST3 bundle".to_owned(),
            },
        )
    }
}

/// The steps of loading a plugin library that can fail.
#[derive(Debug, Clone, Copy, PartialEq, Eq, Structural)]
pub enum LoadFailure {
    /// The dynamic library could not be opened.
    Open,
    /// The library exports no `GetPluginFactory`.
    MissingSymbol,
    /// `GetPluginFactory` returned a null factory.
    NullFactory,
}

/// The stage and reason reported when loading the library fails at a step;
/// `detail` is the loader's own message.
pub open spec fn load_failure_report(failure: LoadFailure, detail: Seq<char>) -> (LoadStage, Seq<
    char,
>) {
    match failure {
        LoadFailure::Open => (LoadStage::Opening, detail),
        LoadFailure::MissingSymbol => (
            LoadStage::Factory,
            "Missing GetPluginFactory symbol: "@ + detail,
        ),
        LoadFailure::NullFactory => (LoadStage::Factory, "GetPluginFactory returned null"@),
    }
}

/// The error for a failed step of loading the library at `path`.
pub fn library_load_error(path: &str, failure: LoadFailure, detail: &str) -> (e: Vst3Error)
    ensures
        e matches Vst3Error::LoadFailed { path: p, stage, reason } && p@ == path@ && (stage, reason@)
            == load_failure_report(failure, detail@),
{
    let (stage, reason) = match failure {
        LoadFailure::Open => (LoadStage::Opening, detail.to_owned()),
        LoadFailure::MissingSymbol => (
            LoadStage::Factory,
            "Missing GetPluginFactory symbol: ".to_owned().concat(detail),
        ),
        LoadFailure::NullFactory => (LoadStage::Factory, "GetPluginFactory returned null".to_owned()),
    };
    Vst3Error::LoadFailed { path: path.to_owned(), stage, reason }
}

} // verus!
