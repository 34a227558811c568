//! The fallback decision of one acquisition cycle, and the full
//! text-to-catalog pipeline. The network attempt and the cache file
//! live outside the library; their outcomes come in as plain values.

use vstd::prelude::*;
use crate::json::json_doc_of;
use crate::order::{order, spec_sort};
use crate::parse::{ParseError, i18n_key, parse, spec_parse_doc};
use crate::profile::{Profile, models};

verus! {

/// Why no catalog text could be produced: the network attempt failed
/// and no cached text was available.
#[derive(Debug, PartialEq, Eq, Clone, Copy)]
pub enum AcquisitionError {
    NotFound,
}

/// Decides what one acquisition cycle yields: freshly fetched text
/// wins; otherwise the cached text, unchanged and however stale,
/// stands in; with neither, the acquisition fails as not found.
pub fn resolve_acquisition(fetched: Option<String>, cached: Option<String>) -> (r: Result<
    String,
    AcquisitionError,
>)
    ensures
        match fetched {
            Some(t) => r matches Ok(s) && s == t,
            None => match cached {
                Some(c) => r matches Ok(s) && s == c,
                None => r matches Err(e) && e == AcquisitionError::NotFound,
            },
        },
{
    match fetched {
        Some(t) => Ok(t),
        None => match cached {
            Some(c) => Ok(c),
            None => Err(AcquisitionError::NotFound),
        },
    }
}

/// Turns raw catalog text into the final catalog for `locale`: parse,
/// then stable ascending order by priority.
pub fn build_catalog(text: &str, locale: &str) -> (r: Result<Vec<Profile>, ParseError>)
    ensures
        match json_doc_of(text@) {
            Some(doc) => match spec_parse_doc(doc, i18n_key(locale@)) {
                Some(ps) => r matches Ok(v) && models(v@) == spec_sort(ps),
                None => r matches Err(e) && e == ParseError::ShapeViolation,
            },
            None => r matches Err(e) && e == ParseError::InvalidDocument,
        },
{
    match parse(text, locale) {
        Ok(v) => Ok(order(v)),
        Err(e) => Err(e),
    }
}

} // verus!
