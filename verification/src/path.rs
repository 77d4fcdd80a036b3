//! The path resolver: where the worker executable is, given what the
//! filesystem says about a ranked list of candidate locations.
//!
//! The resolver touches no filesystem. The caller looks up the resource
//! directory, asks [`packaged_candidate`] and [`development_paths`] which
//! locations to look at, and hands what it saw to [`get_server_path`].

use vstd::prelude::*;

verus! {

/// What the filesystem says about one candidate.
#[derive(Debug, PartialEq, Eq)]
pub enum PathStatus {
    /// Nothing is there. A candidate that was not looked at, because one of
    /// higher rank is there, is reported so as well: it is never taken.
    Missing,
    /// Something is there; `absolute` is its absolute path, where the
    /// conversion succeeded.
    Present { absolute: Option<String> },
}

/// The worker executable and the directory it is in, from which the worker
/// resolves its own resources.
#[derive(Debug, PartialEq, Eq)]
pub struct ExecutableLocation {
    pub path: String,
    pub dir: String,
}

/// The base path with a relative path joined to it, as `Path::join` does it
/// on the platform the library is built for.
pub uninterp spec fn joined_path(base: Seq<char>, relative: Seq<char>) -> Seq<char>;

/// The path as `Debug` prints a `Path` on the platform the library is built
/// for: quoted and escaped.
pub uninterp spec fn debug_text(path: Seq<char>) -> Seq<char>;

/// The path without its last component, as `Path::parent` gives it; `None`
/// where the path ends in a root or is empty.
pub uninterp spec fn parent_of(path: Seq<char>) -> Option<Seq<char>>;

/// `std::path::Path::join`, on paths held as text. The result is a function
/// of the two paths alone, named [`joined_path`].
#[verifier::external_body]
fn join_path(base: &str, relative: &str) -> (joined: String)
    ensures
        joined@ == joined_path(base@, relative@),
{
    std::path::Path::new(base).join(relative).to_string_lossy().into_owned()
}

/// The `Debug` form of a `std::path::Path`. The result is a function of the
/// path alone, named [`debug_text`].
#[verifier::external_body]
fn path_debug(path: &str) -> (text: String)
    ensures
        text@ == debug_text(path@),
{
    format!("{:?}", std::path::Path::new(path))
}

/// `std::path::Path::parent`, on a path held as text. The result is a
/// function of the path alone, named [`parent_of`].
#[verifier::external_body]
fn parent_dir(path: &str) -> (dir: Option<String>)
    ensures
        dir.deep_view() == parent_of(path@),
{
    match std::path::Path::new(path).parent() {
        Some(dir) => Some(dir.to_string_lossy().into_owned()),
        None => None,
    }
}

/// Where the executable lies below the resource directory of a packaged
/// installation.
pub open spec fn packaged_relative() -> Seq<char> {
    "bin/server.exe"@
}

/// The packaged candidate for a resource directory.
pub open spec fn packaged_candidate_of(resource_dir: Seq<char>) -> Seq<char> {
    joined_path(resource_dir, packaged_relative())
}

/// The development candidates, by rank: seen from the project root, from
/// the application's own directory, and from its source directory.
pub open spec fn development_candidates() -> Seq<Seq<char>> {
    seq![
        "src-tauri/bin/server/server.exe"@,
        "bin/server/server.exe"@,
        "../bin/server/server.exe"@,
    ]
}

/// The text of the failure to look up the resource directory.
pub open spec fn resource_dir_failed_text(cause: Seq<char>) -> Seq<char> {
    "获取资源目录失败: "@ + cause
}

/// The failure to find the executable, over the candidates as they are to
/// be shown: the packaged one, then the list of the development ones.
pub open spec fn not_found_message_text(
    packaged: Seq<char>,
    first: Seq<char>,
    second: Seq<char>,
    third: Seq<char>,
) -> Seq<char> {
    "找不到 server.exe。已查找: "@ + packaged + " 和 ["@ + first + ", "@ + second + ", "@ + third
        + "]"@
}

/// The text of the failure to find the executable. It enumerates every
/// candidate that was tried, each as `Debug` prints it: the packaged one,
/// then the development ones.
pub open spec fn not_found_text(packaged: Seq<char>) -> Seq<char> {
    not_found_message_text(
        debug_text(packaged),
        debug_text(development_candidates()[0]),
        debug_text(development_candidates()[1]),
        debug_text(development_candidates()[2]),
    )
}

/// Whether none of the candidates is there.
pub open spec fn none_present(status: Seq<PathStatus>) -> bool {
    forall|i: int| 0 <= i < status.len() ==> #[trigger] status[i] is Missing
}

/// Whether candidate `i` is there and no candidate of higher rank is.
pub open spec fn is_first_present(status: Seq<PathStatus>, i: int) -> bool {
    &&& 0 <= i < status.len()
    &&& status[i] is Present
    &&& forall|j: int| 0 <= j < i ==> #[trigger] status[j] is Missing
}

/// The path under which a candidate that is there is reported: its absolute
/// path where there is one, else the candidate as it stands.
pub open spec fn reported_path(candidate: Seq<char>, status: PathStatus) -> Seq<char> {
    match status {
        PathStatus::Present { absolute: Some(absolute) } => absolute@,
        _ => candidate,
    }
}

/// The packaged candidate for a resource directory: the place to look at
/// first.
pub fn packaged_candidate(resource_dir: &str) -> (path: String)
    ensures
        path@ == packaged_candidate_of(resource_dir@),
{
    join_path(resource_dir, "bin/server.exe")
}

/// The development candidates, by rank: the places to look at next.
pub fn development_paths() -> (paths: [String; 3])
    ensures
        paths.deep_view() == development_candidates(),
{
    let paths = [
        String::from_str("src-tauri/bin/server/server.exe"),
        String::from_str("bin/server/server.exe"),
        String::from_str("../bin/server/server.exe"),
    ];
    assert(paths.deep_view() =~= development_candidates());
    paths
}

/// The rank of the first candidate that is there.
pub fn first_present(status: &[PathStatus]) -> (rank: Option<usize>)
    ensures
        match rank {
            Some(i) => is_first_present(status@, i as int),
            None => none_present(status@),
        },
{
    let mut i: usize = 0;
    while i < status.len()
        invariant
            i <= status.len(),
            forall|j: int| 0 <= j < i ==> #[trigger] status@[j] is Missing,
        decreases status.len() - i,
    {
        match &status[i] {
            PathStatus::Present { .. } => {
                return Some(i);
            },
            PathStatus::Missing => {},
        }
        i += 1;
    }
    None
}

/// Puts the failure to find the executable together from the candidates as
/// they are to be shown.
pub fn not_found_message(packaged: &str, first: &str, second: &str, third: &str) -> (text: String)
    ensures
        text@ == not_found_message_text(packaged@, first@, second@, third@),
{
    let mut text = String::from_str("找不到 server.exe。已查找: ");
    text.append(packaged);
    text.append(" 和 [");
    text.append(first);
    text.append(", ");
    text.append(second);
    text.append(", ");
    text.append(third);
    text.append("]");
    text
}

/// Resolves the worker executable from what the caller saw.
///
/// `resource_dir` is the outcome of the resource-directory lookup,
/// `packaged` says what is at [`packaged_candidate`] of that directory, and
/// `development` says, by rank, what is at each of [`development_paths`].
///
/// A failed lookup fails the resolution with its cause, whatever was seen.
/// Otherwise the candidates are taken strictly by rank, the packaged one
/// first, and the first that is there is the result: by its absolute path,
/// or as it stands where it has none. Where none is there, the failure names
/// every candidate.
pub fn get_server_path(
    resource_dir: Result<String, String>,
    packaged: &PathStatus,
    development: &[PathStatus; 3],
) -> (found: Result<String, String>)
    ensures
        match resource_dir {
            Err(cause) => found is Err && found->Err_0@ == resource_dir_failed_text(cause@),
            Ok(dir) => {
                let candidate = packaged_candidate_of(dir@);
                if packaged is Present {
                    found is Ok && found->Ok_0@ == reported_path(candidate, *packaged)
                } else if none_present(development@) {
                    found is Err && found->Err_0@ == not_found_text(candidate)
                } else {
                    found is Ok && exists|i: int|
                        is_first_present(development@, i) && found->Ok_0@ == reported_path(
                            development_candidates()[i],
                            development@[i],
                        )
                }
            },
        },
{
    let dir = match resource_dir {
        Ok(dir) => dir,
        Err(cause) => {
            return Err(String::from_str("获取资源目录失败: ").concat(cause.as_str()));
        },
    };
    let candidate = packaged_candidate(dir.as_str());
    match packaged {
        PathStatus::Present { absolute: Some(absolute) } => {
            return Ok(absolute.clone());
        },
        PathStatus::Present { absolute: None } => {
            return Ok(candidate);
        },
        PathStatus::Missing => {},
    }
    let candidates = development_paths();
    match first_present(development.as_slice()) {
        Some(i) => {
            assert(is_first_present(development@, i as int));
            assert(candidates.deep_view()[i as int] == candidates@[i as int]@);
            match &development[i] {
                PathStatus::Present { absolute: Some(absolute) } => Ok(absolute.clone()),
                _ => Ok(candidates[i].clone()),
            }
        },
        None => {
            assert(forall|k: int|
                0 <= k < 3 ==> candidates.deep_view()[k] == (#[trigger] candidates@[k])@);
            Err(
                not_found_message(
                    path_debug(candidate.as_str()).as_str(),
                    path_debug(candidates[0].as_str()).as_str(),
                    path_debug(candidates[1].as_str()).as_str(),
                    path_debug(candidates[2].as_str()).as_str(),
                ),
            )
        },
    }
}

impl ExecutableLocation {
    /// The location of an executable at `path`: the path and its parent
    /// directory. There is none where the path has no parent.
    pub fn new(path: String) -> (location: Option<ExecutableLocation>)
        ensures
            match parent_of(path@) {
                Some(dir) => location is Some && location->Some_0.path@ == path@
                    && location->Some_0.dir@ == dir,
                None => location is None,
            },
    {
        match parent_dir(path.as_str()) {
            Some(dir) => Some(ExecutableLocation { path, dir }),
            None => None,
        }
    }
}

} // verus!
