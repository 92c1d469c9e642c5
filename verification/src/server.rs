//! Service-coordinator decisions.
//!
//! The coordinator owns one tile collection and one extraction
//! orchestrator behind independent locks, so tile-serving reads are never
//! blocked for the duration of a download. The locking, the listener and
//! every network request live with the hosting application; the decisions
//! it acts on are here.

use vstd::prelude::*;
use vstd::string::StringExecFns;

use crate::error::{Error, ErrorKind};
use crate::pathutil::{
    has_pmtiles_extension, join_path, spec_file_name_of, spec_file_name_value,
    spec_has_pmtiles_extension, spec_path_within_dir,
};
use crate::tiles::{spec_admit, spec_user_root, CollectionView};

verus! {

/// The storage root of the tile collection under a configured storage
/// directory.
pub fn tiles_storage_root(storage_dir: &str) -> (r: String)
    ensures
        r@ == storage_dir@ + "/"@ + "tiles"@,
{
    join_path(storage_dir, "tiles")
}

/// What a system-archive download request amounts to once the destination
/// has been looked at on disk.
#[derive(Clone, Copy, Debug, PartialEq, Eq, Structural)]
pub enum DownloadAction {
    /// The destination file already exists: no network request is made and
    /// the collection is left unchanged.
    AlreadyPresent,
    /// The destination is absent: fetch the remote body and register the
    /// written file.
    Fetch,
}

/// Where a system-archive download would land: the destination filename
/// under the system root. Fails with a validation error, before anything
/// is looked at on disk or on the network, when the resulting path does
/// not carry the archive extension.
pub fn download_destination(system_root: &str, destination_filename: &str) -> (r: Result<
    String,
    Error,
>)
    ensures
        r is Ok <==> spec_has_pmtiles_extension(
            system_root@ + "/"@ + destination_filename@,
        ),
        r matches Ok(p) ==> p@ == system_root@ + "/"@ + destination_filename@,
        r matches Err(e) ==> e.spec_kind() == ErrorKind::Validation,
{
    let p = join_path(system_root, destination_filename);
    if has_pmtiles_extension(p.as_str()) {
        Ok(p)
    } else {
        Err(Error::new(
            ErrorKind::Validation,
            String::from_str("destination file name must carry the archive extension"),
        ))
    }
}

/// Decides a system-archive download against the destination's presence on
/// disk: a destination that already exists is answered with no network
/// request and no change to the collection, which makes repeated calls
/// idempotent once the file exists.
pub fn download_system_action(destination_exists: bool) -> (r: DownloadAction)
    ensures
        r is AlreadyPresent <==> destination_exists,
{
    if destination_exists {
        DownloadAction::AlreadyPresent
    } else {
        DownloadAction::Fetch
    }
}

/// In the execute-extract sequence — generate an output path, download to
/// it, register it — the registration of a freshly generated user output
/// path is owed success whenever its random file name is unused: such a
/// path always lies in the user subtree and always carries a file name.
pub proof fn lemma_generated_path_registrable(v: CollectionView, path: Seq<char>)
    requires
        spec_path_within_dir(path, spec_user_root(v.root)),
        spec_file_name_of(path) is Some,
        v.no_source_named(spec_file_name_value(path)),
    ensures
        spec_admit(v, path),
{
}

} // verus!
