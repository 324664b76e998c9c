//! The application-data-directory operation: turning the host
//! environment's lookup outcome into a typed result with a single
//! error kind.

use vstd::prelude::*;

verus! {

/// The human-readable message that every path-resolution failure carries.
pub open spec fn path_error_text() -> Seq<char> {
    "Could not get app data directory"@
}

/// The single error kind: the per-application data directory could not
/// be determined on the current host environment.
#[derive(Debug, PartialEq, Eq)]
pub struct PathResolutionError {
    pub message: String,
}

impl PathResolutionError {
    /// A well-formed error carries exactly the fixed message.
    pub open spec fn wf(&self) -> bool {
        self.message@ == path_error_text()
    }

    /// Builds the error with its fixed message.
    pub fn new() -> (e: PathResolutionError)
        ensures
            e.wf(),
    {
        PathResolutionError { message: "Could not get app data directory".to_owned() }
    }
}

/// What the operation's result must be for a given lookup outcome: a
/// non-empty resolved path is returned as the success, and an absent or
/// empty lookup yields the single well-formed error.
pub open spec fn resolution_of(
    lookup: Option<String>,
    r: Result<String, PathResolutionError>,
) -> bool {
    match lookup {
        Some(path) => {
            if path@.len() > 0 {
                r matches Ok(resolved) && resolved == path
            } else {
                r matches Err(e) && e.wf()
            }
        },
        None => r matches Err(e) && e.wf(),
    }
}

/// Turns the host lookup's outcome into the operation's result. The
/// host runtime performs the lookup itself and hands its outcome in;
/// this function owns every decision that follows, so a success is
/// never the empty string.
pub fn resolve_app_data_dir(lookup: Option<String>) -> (r: Result<
    String,
    PathResolutionError,
>)
    ensures
        resolution_of(lookup, r),
        r matches Ok(path) ==> path@.len() > 0,
{
    match lookup {
        Some(path) => {
            if path.as_str().is_empty() {
                Err(PathResolutionError::new())
            } else {
                Ok(path)
            }
        },
        None => Err(PathResolutionError::new()),
    }
}

/// Resolution is determined by the lookup outcome alone: two results
/// for one outcome agree on success, on the resolved path, and on the
/// error message.
pub proof fn lemma_resolution_deterministic(
    lookup: Option<String>,
    r1: Result<String, PathResolutionError>,
    r2: Result<String, PathResolutionError>,
)
    requires
        resolution_of(lookup, r1),
        resolution_of(lookup, r2),
    ensures
        r1 is Ok <==> r2 is Ok,
        match (r1, r2) {
            (Ok(p1), Ok(p2)) => p1 == p2,
            (Err(e1), Err(e2)) => e1.message@ == e2.message@,
            _ => true,
        },
{
}

} // verus!
