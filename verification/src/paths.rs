//! Where the backend is installed and where it may write.
//!
//! Directories are handed in and out as text. Paths below a directory are
//! described as a [`Location`]: the directory and the names to descend
//! through. How names are glued together is the platform's business and is
//! left to whoever opens the path.

use vstd::prelude::*;

verus! {

/// The backend's entry script. Its presence marks a directory as the
/// backend's installation root, and it is what an interpreter is given to run.
pub const MARKER_FILE: &'static str = "tauri_backend.py";

/// Environment variable that names the base directory outright.
pub const BASE_DIR_VARIABLE: &'static str = "MKDSC_BASE_DIR";

/// Directory used when not even the working directory is known.
pub const UNKNOWN_WORKING_DIR: &'static str = ".";

/// A path below a known directory.
#[derive(Debug, PartialEq, Eq)]
pub struct Location {
    /// The directory the path starts from.
    pub root: String,
    /// The names to descend through, outermost first.
    pub steps: Vec<String>,
}

/// Mathematical content of a [`Location`].
pub struct LocationView {
    pub root: Seq<char>,
    pub steps: Seq<Seq<char>>,
}

impl View for Location {
    type V = LocationView;

    open spec fn view(&self) -> LocationView {
        LocationView { root: self.root@, steps: self.steps.deep_view() }
    }
}

impl DeepView for Location {
    type V = LocationView;

    open spec fn deep_view(&self) -> LocationView {
        self@
    }
}

/// The location `name` directly below `dir`.
pub open spec fn child_of(dir: Seq<char>, name: Seq<char>) -> LocationView {
    LocationView { root: dir, steps: seq![name] }
}

/// Something that was looked for, and whether it was there.
#[derive(Debug, PartialEq, Eq)]
pub struct Probe<T> {
    pub subject: T,
    pub found: bool,
}

/// `i` is the position of the first probe that found its subject.
pub open spec fn first_found_at<T>(probes: Seq<Probe<T>>, i: int) -> bool {
    &&& 0 <= i < probes.len()
    &&& probes[i].found
    &&& forall|j: int| 0 <= j < i ==> !(#[trigger] probes[j]).found
}

/// No probe found its subject.
pub open spec fn none_found<T>(probes: Seq<Probe<T>>) -> bool {
    forall|i: int| 0 <= i < probes.len() ==> !(#[trigger] probes[i]).found
}

/// The subject of the first probe that found it, if any did.
pub fn first_found<T>(probes: Vec<Probe<T>>) -> (first: Option<T>)
    ensures
        match first {
            Some(subject) => exists|i: int|
                first_found_at(probes@, i) && (#[trigger] probes@[i]).subject == subject,
            None => none_found(probes@),
        },
{
    let mut i: usize = 0;
    while i < probes.len()
        invariant
            i <= probes.len(),
            forall|j: int| 0 <= j < i ==> !(#[trigger] probes@[j]).found,
        decreases probes.len() - i,
    {
        if probes[i].found {
            let mut rest = probes;
            let hit = rest.remove(i);
            assert(first_found_at(probes@, i as int));
            assert(probes@[i as int].subject == hit.subject);
            return Some(hit.subject);
        }
        i += 1;
    }
    None
}

/// The directories to try as base directory, in the order they are tried:
/// the host's resource directory, the working directory, its parent, and
/// the parent of the directory the supervisor was built in. A directory that
/// is not known is left out.
pub open spec fn candidate_dirs(
    resource_dir: Option<Seq<char>>,
    current_dir: Option<Seq<char>>,
    current_parent: Option<Seq<char>>,
    manifest_parent: Option<Seq<char>>,
) -> Seq<Seq<char>> {
    known(resource_dir) + known(current_dir) + known(current_parent) + known(manifest_parent)
}

/// The one directory, or none.
pub open spec fn known(dir: Option<Seq<char>>) -> Seq<Seq<char>> {
    match dir {
        Some(d) => seq![d],
        None => seq![],
    }
}

fn push_known(dirs: &mut Vec<String>, dir: Option<String>)
    ensures
        final(dirs).deep_view() == old(dirs).deep_view() + known(dir.deep_view()),
{
    match dir {
        Some(d) => {
            dirs.push(d);
            assert(dirs.deep_view() =~= old(dirs).deep_view() + seq![d@]);
        },
        None => {
            assert(dirs.deep_view() =~= old(dirs).deep_view() + Seq::<Seq<char>>::empty());
        },
    }
}

pub fn base_dir_candidates(
    resource_dir: Option<String>,
    current_dir: Option<String>,
    current_parent: Option<String>,
    manifest_parent: Option<String>,
) -> (dirs: Vec<String>)
    ensures
        dirs.deep_view() == candidate_dirs(
            resource_dir.deep_view(),
            current_dir.deep_view(),
            current_parent.deep_view(),
            manifest_parent.deep_view(),
        ),
{
    let mut dirs: Vec<String> = Vec::new();
    assert(dirs.deep_view() =~= Seq::<Seq<char>>::empty());
    push_known(&mut dirs, resource_dir);
    push_known(&mut dirs, current_dir);
    push_known(&mut dirs, current_parent);
    push_known(&mut dirs, manifest_parent);
    dirs
}

/// Where the marker file would lie in `dir`.
pub fn marker_location(dir: &String) -> (marker: Location)
    ensures
        marker@ == child_of(dir@, MARKER_FILE@),
{
    let mut steps: Vec<String> = Vec::new();
    steps.push(MARKER_FILE.to_owned());
    assert(steps.deep_view() =~= seq![MARKER_FILE@]);
    Location { root: dir.clone(), steps }
}

/// The directory that is used when no candidate holds the marker file.
pub open spec fn fallback_dir(current_dir: Option<Seq<char>>) -> Seq<char> {
    match current_dir {
        Some(dir) => dir,
        None => UNKNOWN_WORKING_DIR@,
    }
}

/// `base` is the base directory that these inputs call for.
pub open spec fn is_base_dir(
    explicit: Option<Seq<char>>,
    candidates: Seq<Probe<String>>,
    current_dir: Option<Seq<char>>,
    base: Seq<char>,
) -> bool {
    match explicit {
        Some(dir) => base == dir,
        None => {
            ||| exists|i: int|
                first_found_at(candidates, i) && (#[trigger] candidates[i]).subject@ == base
            ||| none_found(candidates) && base == fallback_dir(current_dir)
        },
    }
}

/// Picks the base directory.
///
/// An explicit directory wins outright, whatever it holds. Otherwise the
/// first candidate in which the marker file was found is taken, and where
/// none was found the working directory, marker or no marker.
pub fn resolve_base_dir(
    explicit: Option<String>,
    candidates: Vec<Probe<String>>,
    current_dir: Option<String>,
) -> (base: String)
    ensures
        is_base_dir(explicit.deep_view(), candidates@, current_dir.deep_view(), base@),
{
    if let Some(dir) = explicit {
        return dir;
    }
    match first_found(candidates) {
        Some(dir) => dir,
        None => match current_dir {
            Some(dir) => dir,
            None => UNKNOWN_WORKING_DIR.to_owned(),
        },
    }
}

/// The data directory that these inputs call for: the host's per-user
/// directory where there is one, else the base directory.
pub open spec fn data_dir_of(app_data_dir: Option<Seq<char>>, base_dir: Seq<char>) -> Seq<char> {
    match app_data_dir {
        Some(dir) => dir,
        None => base_dir,
    }
}

pub fn resolve_data_dir(app_data_dir: Option<String>, base_dir: &String) -> (data: String)
    ensures
        data@ == data_dir_of(app_data_dir.deep_view(), base_dir@),
{
    match app_data_dir {
        Some(dir) => dir,
        None => base_dir.clone(),
    }
}

} // verus!
