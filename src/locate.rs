use vstd::prelude::*;

use crate::error::LaunchError;
use crate::invocation::texts;

verus! {

/// Whether the managed tool artifact is on disk, and where and how large.
#[derive(Clone, Debug)]
pub struct CoreStatus {
    pub exists: bool,
    pub path: Option<String>,
    pub size: Option<u64>,
}

impl CoreStatus {
    /// The path and the size are known exactly when the artifact exists.
    pub open spec fn wf(&self) -> bool {
        &&& (self.path is Some <==> self.exists)
        &&& (self.size is Some <==> self.exists)
    }

    /// The status of an artifact that is not on disk.
    pub fn absent() -> (r: CoreStatus)
        ensures
            !r.exists,
            r.path is None,
            r.size is None,
            r.wf(),
    {
        CoreStatus { exists: false, path: None, size: None }
    }
}

/// The folders, under the user's documents folder, of the data folder and of
/// the core folder that holds the managed tool artifact.
pub open spec fn core_dir_segments_of() -> Seq<Seq<char>> {
    seq!["acgsnetwork"@, "core"@]
}

/// The file name of the managed tool artifact in the core folder.
pub open spec fn core_file_name_of() -> Seq<char> {
    "cmcl.jar"@
}

/// The path, under the user's documents folder, of the marker file that
/// records a completed first-run setup.
pub open spec fn setup_marker_segments_of() -> Seq<Seq<char>> {
    seq!["acgsnetwork"@, "oobe.lock"@]
}

/// The folders of the core folder under the user's documents folder.
pub fn core_dir_segments() -> (r: Vec<String>)
    ensures
        texts(r@) == core_dir_segments_of(),
{
    let mut r: Vec<String> = Vec::new();
    r.push(String::from_str("acgsnetwork"));
    r.push(String::from_str("core"));
    assert(texts(r@) =~= core_dir_segments_of());
    r
}

/// The file name of the managed tool artifact.
pub fn core_file_name() -> (r: String)
    ensures
        r@ == core_file_name_of(),
{
    String::from_str("cmcl.jar")
}

/// The path of the first-run marker under the user's documents folder.
pub fn setup_marker_segments() -> (r: Vec<String>)
    ensures
        texts(r@) == setup_marker_segments_of(),
{
    let mut r: Vec<String> = Vec::new();
    r.push(String::from_str("acgsnetwork"));
    r.push(String::from_str("oobe.lock"));
    assert(texts(r@) =~= setup_marker_segments_of());
    r
}

/// The status of the artifact at `path`, given what inspecting it gave:
/// `None` when nothing is there, else its size in bytes or the reason its
/// metadata could not be read.
pub fn core_status(path: String, probe: Option<Result<u64, String>>) -> (r: Result<
    CoreStatus,
    LaunchError,
>)
    ensures
        probe is None ==> r is Ok && !r->Ok_0.exists,
        probe matches Some(Ok(n)) ==> r is Ok && r->Ok_0.exists && r->Ok_0.path == Some(path)
            && r->Ok_0.size == Some(n),
        probe matches Some(Err(e)) ==> r == Err::<CoreStatus, LaunchError>(LaunchError::Io(e)),
        r is Ok ==> r->Ok_0.wf(),
{
    match probe {
        None => Ok(CoreStatus::absent()),
        Some(Ok(n)) => Ok(CoreStatus { exists: true, path: Some(path), size: Some(n) }),
        Some(Err(e)) => Err(LaunchError::Io(e)),
    }
}

} // verus!
