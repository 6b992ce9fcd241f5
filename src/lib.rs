//! A safe, verified wrapper around a host database engine's row-shape
//! descriptor (a "tuple descriptor"), together with a model of the host's
//! descriptor memory: reference counts, private copies and the type cache.
//! The schema modules hold the small items an extension exposes.
use vstd::prelude::*;

pub mod host;
pub mod pg_catalog;
pub mod public;
pub mod schemas;
pub mod some_schema;
pub mod tupdesc;

verus! {

} // verus!
