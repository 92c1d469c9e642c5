//! Geographic bounding boxes.
//!
//! Coordinates are fixed-point: ten-millionths of a degree, so that one
//! degree is 10_000_000 units. The hosting application converts to and from
//! its own floating-point representation at the boundary.

use vstd::prelude::*;
use vstd::string::StringExecFns;

use crate::error::{Error, ErrorKind};

verus! {

/// One degree of latitude or longitude, in fixed-point units.
pub const DEGREE: i64 = 10000000;

/// A rectangular geographic region, max/min latitude and longitude in
/// ten-millionths of a degree.
///
/// Construction through [`Bounds::nesw`] is the only place the
/// max-not-below-min invariant is checked; every value of this type
/// satisfies [`Bounds::wf`].
#[derive(Clone, Copy, Debug, PartialEq, Eq, Structural)]
pub struct Bounds {
    max_lat: i64,
    max_lon: i64,
    min_lat: i64,
    min_lon: i64,
}

impl Bounds {
    /// The bounding box is well formed: max is not below min on either axis.
    pub closed spec fn wf(&self) -> bool {
        self.max_lat >= self.min_lat && self.max_lon >= self.min_lon
    }

    pub closed spec fn spec_max_lat(&self) -> i64 {
        self.max_lat
    }

    pub closed spec fn spec_max_lon(&self) -> i64 {
        self.max_lon
    }

    pub closed spec fn spec_min_lat(&self) -> i64 {
        self.min_lat
    }

    pub closed spec fn spec_min_lon(&self) -> i64 {
        self.min_lon
    }

    /// Builds a bounding box from its north, east, south and west edges.
    ///
    /// Rejects, with a validation error and before any side effect, a box
    /// whose max falls below its min on either axis; this is the single
    /// validation point for the type's invariant.
    pub fn nesw(max_lat: i64, max_lon: i64, min_lat: i64, min_lon: i64) -> (r: Result<Bounds, Error>)
        ensures
            max_lat >= min_lat && max_lon >= min_lon <==> r is Ok,
            r matches Ok(b) ==> b.wf() && b.spec_max_lat() == max_lat && b.spec_max_lon() == max_lon
                && b.spec_min_lat() == min_lat && b.spec_min_lon() == min_lon,
            r matches Err(e) ==> e.spec_kind() == ErrorKind::Validation,
    {
        if max_lat < min_lat || max_lon < min_lon {
            Err(Error::new(
                ErrorKind::Validation,
                String::from_str("bounding box max must not be below min"),
            ))
        } else {
            Ok(Bounds { max_lat, max_lon, min_lat, min_lon })
        }
    }

    /// Well-formedness is exactly max-not-below-min on both axes.
    pub proof fn lemma_wf_meaning(&self)
        ensures
            self.wf() <==> (self.spec_max_lat() >= self.spec_min_lat()
                && self.spec_max_lon() >= self.spec_min_lon()),
    {
    }

    pub fn max_lat(&self) -> (r: i64)
        ensures
            r == self.spec_max_lat(),
    {
        self.max_lat
    }

    pub fn max_lon(&self) -> (r: i64)
        ensures
            r == self.spec_max_lon(),
    {
        self.max_lon
    }

    pub fn min_lat(&self) -> (r: i64)
        ensures
            r == self.spec_min_lat(),
    {
        self.min_lat
    }

    pub fn min_lon(&self) -> (r: i64)
        ensures
            r == self.spec_min_lon(),
    {
        self.min_lon
    }
}

} // verus!
