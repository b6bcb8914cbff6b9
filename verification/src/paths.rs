//! Derivation of source and artifact paths.
//!
//! An item is identified by its filename. Its artifact location is a pure
//! function of the output directory and the filename, so the same item always
//! maps to the same location: existence checks and generation targets agree.

use vstd::prelude::*;
use vstd::string::StringExecFns;

verus! {

/// `dir`, a path separator, then `name`.
pub open spec fn joined_path(dir: Seq<char>, name: Seq<char>) -> Seq<char> {
    dir + "/"@ + name
}

/// The artifact location derived for item `name` under `output_dir`:
/// the joined path with the thumbnail suffix appended.
pub open spec fn artifact_location_spec(output_dir: Seq<char>, name: Seq<char>) -> Seq<char> {
    joined_path(output_dir, name) + ".jpg"@
}

/// Joins a directory and a filename with a separator.
pub fn join_path(dir: &str, name: &str) -> (r: String)
    ensures
        r@ == joined_path(dir@, name@),
{
    let mut s = String::from_str(dir);
    s.append("/");
    s.append(name);
    proof {
        assert(s@ =~= joined_path(dir@, name@));
    }
    s
}

/// The artifact location for item `name` under `output_dir`.
pub fn artifact_location(output_dir: &str, name: &str) -> (r: String)
    ensures
        r@ == artifact_location_spec(output_dir@, name@),
{
    let mut s = String::from_str(output_dir);
    s.append("/");
    s.append(name);
    s.append(".jpg");
    proof {
        assert(s@ =~= artifact_location_spec(output_dir@, name@));
    }
    s
}

/// The subdirectory a chosen game folder must contain to be accepted.
pub fn www_dir(game_dir: &str) -> (r: String)
    ensures
        r@ == game_dir@ + "/www"@,
{
    let mut s = String::from_str(game_dir);
    s.append("/www");
    s
}

/// The directory batches read their source files from.
pub fn movies_dir(game_dir: &str) -> (r: String)
    ensures
        r@ == game_dir@ + "/www/movies"@,
{
    let mut s = String::from_str(game_dir);
    s.append("/www/movies");
    s
}

/// Resolves a single-item request: an empty identifier is rejected, any
/// other maps to its source path under `movies_dir`.
pub fn resolve_video_request(movies_dir: &str, filename: &str) -> (r: Option<String>)
    ensures
        r is Some <==> filename@.len() > 0,
        r matches Some(p) ==> p@ == joined_path(movies_dir@, filename@),
{
    if filename.is_empty() {
        None
    } else {
        Some(join_path(movies_dir, filename))
    }
}

} // verus!
