//! The extraction orchestrator: turns a bounding box into a downloaded,
//! locally installed archive subset from one fixed remote archive URL.
//!
//! The remote archive itself is an abstract capability of the hosting
//! application: opening the backend, traversing the index and streaming
//! tile bytes happen outside. This module holds the orchestrator's state
//! machine — the lazy backend opening, the plan, and the crash-safe
//! temporary-file protocol whose rename is the atomicity boundary.

use vstd::prelude::*;
use vstd::string::StringExecFns;

use crate::pathutil::{
    lemma_tmp_extension_distinct, spec_has_pmtiles_extension, spec_with_tmp_extension,
    with_tmp_extension,
};

verus! {

/// Opaque, immutable description of which tiles a bounding-box extraction
/// would include: the total tile-data byte size the index traversal found,
/// and the handle of the traversal result that the hosting application
/// keeps for the download. Created by `prepare`, consumed by one
/// `execute`, then discarded.
#[derive(Clone, Copy, Debug)]
pub struct ExtractionPlan {
    pub tile_data_length: u64,
    pub plan_handle: u64,
}

impl ExtractionPlan {
    /// Total tile-data bytes the planned extraction would download.
    pub fn tile_data_length(&self) -> (r: u64)
        ensures
            r == self.tile_data_length,
    {
        self.tile_data_length
    }
}

/// Orchestrator state: the fixed remote archive URL configured at
/// construction, and whether the remote backend has been opened. The
/// backend opens lazily on first use and the instance never returns to the
/// unopened state.
#[derive(Debug)]
pub struct Extractor {
    pub source_url: String,
    pub backend_ready: bool,
}

impl Extractor {
    /// Records the remote archive URL; opens nothing yet.
    pub fn new(source_url: &str) -> (r: Extractor)
        ensures
            r.source_url@ == source_url@,
            !r.backend_ready,
    {
        Extractor { source_url: String::from_str(source_url), backend_ready: false }
    }

    /// The lazy-open decision: the URL to open a backend and cache for
    /// when none is open yet, and nothing once one is.
    pub fn backend_to_open(&self) -> (r: Option<String>)
        ensures
            r is Some <==> !self.backend_ready,
            r matches Some(u) ==> u@ == self.source_url@,
    {
        if self.backend_ready {
            None
        } else {
            Some(self.source_url.clone())
        }
    }

    /// Records that the hosting application opened the backend; from here
    /// on the instance stays ready for its whole lifetime.
    pub fn backend_opened(&mut self)
        ensures
            final(self).backend_ready,
            final(self).source_url == old(self).source_url,
    {
        self.backend_ready = true;
    }

    /// Wraps a finished index traversal — the total tile-data byte size it
    /// found and the handle of what the application keeps — as a plan.
    /// The plan's size is exactly the traversal's total, so for a fixed
    /// bounding box and fixed remote content, repeated preparations carry
    /// the identical size. Requires the backend to be open.
    pub fn prepare_pmtiles_extract(&self, tile_data_length: u64, plan_handle: u64) -> (p:
        ExtractionPlan)
        requires
            self.backend_ready,
        ensures
            p.tile_data_length == tile_data_length,
            p.plan_handle == plan_handle,
    {
        ExtractionPlan { tile_data_length, plan_handle }
    }

    /// Begins the download of the tiles named by `plan` to `output_path`:
    /// every tile byte is to be streamed to the session's temporary path,
    /// which provably differs from the output path. Requires the backend
    /// to be open.
    pub fn extract_pmtiles_region(&self, output_path: &str, plan: &ExtractionPlan) -> (s:
        ExtractSession)
        requires
            self.backend_ready,
            spec_has_pmtiles_extension(output_path@),
        ensures
            s.wf(),
            s.output_path@ == output_path@,
            s.plan_handle == plan.plan_handle,
            !s.streamed,
    {
        ExtractSession {
            tmp_path: with_tmp_extension(output_path),
            output_path: String::from_str(output_path),
            plan_handle: plan.plan_handle,
            streamed: false,
        }
    }
}

/// The staged, crash-safe download of one planned extraction.
///
/// Tile bytes are streamed to the distinct temporary path only; once the
/// stream has completely finished, and not before, the temporary file is
/// renamed onto the output path. That rename is the atomicity boundary:
/// an observer of the output path sees either nothing or a complete file,
/// never a partial one. On a failed stream the output path is never
/// created (the temporary file may remain).
#[derive(Debug)]
pub struct ExtractSession {
    pub output_path: String,
    pub tmp_path: String,
    pub plan_handle: u64,
    pub streamed: bool,
}

impl ExtractSession {
    /// The session writes only to the temporary sibling of an archive
    /// output path.
    pub open spec fn wf(&self) -> bool {
        &&& spec_has_pmtiles_extension(self.output_path@)
        &&& self.tmp_path@ == spec_with_tmp_extension(self.output_path@)
    }

    /// Where the tile bytes are streamed to.
    pub fn write_target(&self) -> (r: String)
        ensures
            r@ == self.tmp_path@,
    {
        self.tmp_path.clone()
    }

    /// Records that every tile byte named by the plan was streamed and the
    /// temporary file was flushed and closed.
    pub fn stream_finished(&mut self)
        ensures
            final(self).streamed,
            final(self).output_path == old(self).output_path,
            final(self).tmp_path == old(self).tmp_path,
            final(self).plan_handle == old(self).plan_handle,
    {
        self.streamed = true;
    }

    /// The rename to perform: from the temporary path onto the output
    /// path, ordered exactly when the stream has completely finished.
    pub fn rename_order(&self) -> (r: Option<(String, String)>)
        ensures
            r is Some <==> self.streamed,
            r matches Some(p) ==> p.0@ == self.tmp_path@ && p.1@ == self.output_path@,
    {
        if self.streamed {
            Some((self.tmp_path.clone(), self.output_path.clone()))
        } else {
            None
        }
    }
}

/// No write of an extraction session touches its output path: the
/// temporary path every byte goes to differs from the output path, and
/// the output path is only ever created by the final rename, which is
/// ordered only after a completely finished stream. An observer of the
/// output path therefore sees either nothing or a complete file.
pub proof fn lemma_extract_output_untouched(s: ExtractSession)
    requires
        s.wf(),
    ensures
        s.tmp_path@ != s.output_path@,
{
    lemma_tmp_extension_distinct(s.output_path@);
}

} // verus!
